//! The pagination state and its layout derivation.
//!
//! `PaginationState` holds the current 1-based page, the page size, the total
//! number of elements as last reported by a fetch, and the fixed window
//! radius. Everything a renderer needs — the total page count, the window of
//! page numbers around the current page, the ellipsis markers, and the
//! First/Prev/Next/Last targets — is a pure function of those four fields.

use vstd::prelude::*;

verus! {

/// Page shown when the external location names none.
pub const DEFAULT_PAGE: usize = 1;

/// Page size used when the external location names none.
pub const DEFAULT_PAGE_SIZE: usize = 6;

/// How many page numbers are shown on each side of the current page.
pub const WINDOW_RADIUS: usize = 2;

/// `v`, raised to `1` when it is `0`: pages and page sizes are kept positive
/// by clamping every external input.
pub open spec fn clamped(v: usize) -> usize {
    if v == 0 {
        1usize
    } else {
        v
    }
}

/// One entry of the rendered pagination strip, in render order. A `None`
/// target means the action is unavailable and the control is rendered inert.
#[derive(Debug, Clone, PartialEq, Eq)]
pub enum PaginationItem {
    /// Jump to the first page; enabled exactly when a previous page exists.
    First(Option<usize>),
    /// Go one page back.
    Prev(Option<usize>),
    /// Marker for page numbers omitted between the window and the first or
    /// last page.
    Ellipsis,
    /// A direct link to the page number given; the flag says whether it is
    /// the current page.
    PageLink(usize, bool),
    /// Go one page forward.
    Next(Option<usize>),
    /// Jump to the last page; enabled exactly when a further page exists.
    Last(Option<usize>),
}

/// The stored pagination state. The remaining quantities (total page count,
/// window bounds, skip offset) are derived, never stored.
#[derive(Debug, Copy, Clone, PartialEq, Eq, Structural)]
pub struct PaginationState {
    /// Current 1-based page index.
    pub page: usize,
    /// Items requested per page.
    pub page_size: usize,
    /// Total items available, as last reported by a fetch; `0` until the
    /// first fetch resolves.
    pub element_count: usize,
    /// Page numbers shown on each side of the current page; always
    /// `WINDOW_RADIUS`.
    pub n_left_right: usize,
}

impl PaginationState {
    /// `page` and `page_size` are positive and the window radius is the fixed
    /// constant. Constructors establish this and every mutator preserves it.
    pub open spec fn wf(self) -> bool {
        &&& self.page >= 1
        &&& self.page_size >= 1
        &&& self.n_left_right == WINDOW_RADIUS
    }

    /// Total page count: `element_count / page_size` rounded up, `0` when
    /// there are no elements (and, degenerately, when the page size is `0`).
    pub open spec fn spec_pages(self) -> int {
        if self.page_size == 0 {
            0
        } else if self.element_count as int % self.page_size as int == 0 {
            self.element_count as int / self.page_size as int
        } else {
            self.element_count as int / self.page_size as int + 1
        }
    }

    /// Offset of the first element of the current page.
    pub open spec fn spec_skip(self) -> int {
        if self.page >= 1 {
            (self.page - 1) * self.page_size
        } else {
            0
        }
    }

    /// First page number of the window: `page - n_left_right`, at least `1`.
    pub open spec fn spec_from(self) -> int {
        if self.page - self.n_left_right >= 1 {
            self.page - self.n_left_right
        } else {
            1
        }
    }

    /// Last page number of the window: `page + n_left_right`, at most the
    /// total page count. Below `spec_from` exactly when the window is empty.
    pub open spec fn spec_to(self) -> int {
        if self.page + self.n_left_right <= self.spec_pages() {
            self.page + self.n_left_right
        } else {
            self.spec_pages()
        }
    }

    /// Number of page links in the window.
    pub open spec fn spec_win_len(self) -> int {
        if self.spec_from() <= self.spec_to() {
            self.spec_to() - self.spec_from() + 1
        } else {
            0
        }
    }

    /// The page numbers of the window, in increasing order:
    /// `spec_from() ..= spec_to()`, empty when the window is empty.
    pub open spec fn spec_from_to(self) -> Seq<usize> {
        Seq::new(self.spec_win_len() as nat, |i: int| (self.spec_from() + i) as usize)
    }

    /// A page before the current one exists.
    pub open spec fn spec_has_prev(self) -> bool {
        self.page > 1
    }

    /// A page after the current one exists.
    pub open spec fn spec_has_next(self) -> bool {
        (self.page as int) < self.spec_pages()
    }

    /// The page the Prev control targets: one back, saturating at `0`.
    pub open spec fn spec_prev(self) -> int {
        if self.page >= 1 {
            self.page - 1
        } else {
            0
        }
    }

    /// The page the Next control targets: one forward, but never past the
    /// element count.
    pub open spec fn spec_next(self) -> int {
        if self.page + 1 <= self.element_count {
            self.page + 1
        } else {
            self.element_count as int
        }
    }

    /// A leading ellipsis stands between the first page and the window
    /// exactly when the window starts past page `2`; an empty result set
    /// short-circuits to no ellipsis.
    pub open spec fn spec_dots_left(self) -> bool {
        self.spec_pages() > 0 && self.spec_from() > 2
    }

    /// A trailing ellipsis stands between the window and the last page
    /// exactly when the window ends before the next-to-last page.
    pub open spec fn spec_dots_right(self) -> bool {
        self.spec_to() < self.spec_pages() - 1
    }

    /// The items before the window: the First and Prev controls, and the
    /// leading ellipsis when one is due.
    pub open spec fn spec_head(self) -> Seq<PaginationItem> {
        seq![
            PaginationItem::First(
                if self.spec_has_prev() {
                    Some(1usize)
                } else {
                    None
                },
            ),
            PaginationItem::Prev(
                if self.spec_has_prev() {
                    Some((self.page - 1) as usize)
                } else {
                    None
                },
            ),
        ] + if self.spec_dots_left() {
            seq![PaginationItem::Ellipsis]
        } else {
            Seq::empty()
        }
    }

    /// The window itself: one link per page number from `spec_from()` to
    /// `spec_to()`, marking the current page.
    pub open spec fn spec_window(self) -> Seq<PaginationItem> {
        Seq::new(
            self.spec_win_len() as nat,
            |i: int|
                PaginationItem::PageLink(
                    (self.spec_from() + i) as usize,
                    self.spec_from() + i == self.page,
                ),
        )
    }

    /// The items after the window: the trailing ellipsis when one is due,
    /// and the Next and Last controls.
    pub open spec fn spec_tail(self) -> Seq<PaginationItem> {
        (if self.spec_dots_right() {
            seq![PaginationItem::Ellipsis]
        } else {
            Seq::empty()
        }) + seq![
            PaginationItem::Next(
                if self.spec_has_next() {
                    Some((self.page + 1) as usize)
                } else {
                    None
                },
            ),
            PaginationItem::Last(
                if self.spec_has_next() {
                    Some(self.spec_pages() as usize)
                } else {
                    None
                },
            ),
        ]
    }

    /// The whole pagination strip, in render order.
    pub open spec fn spec_layout(self) -> Seq<PaginationItem> {
        self.spec_head() + self.spec_window() + self.spec_tail()
    }

    /// The state every constructor starts from: the default page and page
    /// size, no elements reported yet, the fixed window radius.
    pub open spec fn spec_default() -> PaginationState {
        PaginationState {
            page: DEFAULT_PAGE,
            page_size: DEFAULT_PAGE_SIZE,
            element_count: 0,
            n_left_right: WINDOW_RADIUS,
        }
    }

    /// A state at the given page and page size, both clamped to `1`, with no
    /// elements reported yet.
    pub fn new(page: usize, page_size: usize) -> (r: Self)
        ensures
            r.page == clamped(page),
            r.page_size == clamped(page_size),
            r.element_count == 0,
            r.n_left_right == WINDOW_RADIUS,
            r.wf(),
    {
        PaginationState {
            page: if page == 0 {
                1
            } else {
                page
            },
            page_size: if page_size == 0 {
                1
            } else {
                page_size
            },
            element_count: 0,
            n_left_right: WINDOW_RADIUS,
        }
    }

    /// A state at the given page and page size, both clamped to `1`, with an
    /// element count already known.
    pub fn new_with_count(page: usize, page_size: usize, element_count: usize) -> (r: Self)
        ensures
            r.page == clamped(page),
            r.page_size == clamped(page_size),
            r.element_count == element_count,
            r.n_left_right == WINDOW_RADIUS,
            r.wf(),
    {
        let mut r = PaginationState::new(page, page_size);
        r.element_count = element_count;
        r
    }

    /// Offset into the element list at which the current page starts.
    pub fn calc_skip(&self) -> (r: usize)
        requires
            (self.page - 1) * self.page_size <= usize::MAX,
        ensures
            r == self.spec_skip(),
    {
        if self.page == 0 {
            0
        } else {
            (self.page - 1) * self.page_size
        }
    }

    /// The stored page size.
    pub fn page_size(&self) -> (r: usize)
        ensures
            r == self.page_size,
    {
        self.page_size
    }

    /// The stored current page.
    pub fn page(&self) -> (r: usize)
        ensures
            r == self.page,
    {
        self.page
    }

    /// The stored element count.
    pub fn element_count(&self) -> (r: usize)
        ensures
            r == self.element_count,
    {
        self.element_count
    }

    /// Whether the First control is enabled: exactly when a previous page
    /// exists.
    pub fn has_first(&self) -> (r: bool)
        ensures
            r == self.spec_has_prev(),
    {
        self.page > 1
    }

    /// The page the First control targets.
    pub fn first(&self) -> (r: usize)
        ensures
            r == 1,
    {
        1
    }

    /// Whether a previous page exists.
    pub fn has_prev(&self) -> (r: bool)
        ensures
            r == self.spec_has_prev(),
    {
        self.page > 1
    }

    /// The page the Prev control targets.
    pub fn prev(&self) -> (r: usize)
        ensures
            r == self.spec_prev(),
    {
        self.page.saturating_sub(1)
    }

    /// Whether a further page exists.
    pub fn has_next(&self) -> (r: bool)
        ensures
            r == self.spec_has_next(),
    {
        self.page < self.pages()
    }

    /// The page the Next control targets.
    pub fn next(&self) -> (r: usize)
        ensures
            r == self.spec_next(),
    {
        if self.page < self.element_count {
            self.page + 1
        } else {
            self.element_count
        }
    }

    /// Whether the Last control is enabled: exactly when a further page
    /// exists.
    pub fn has_last(&self) -> (r: bool)
        ensures
            r == self.spec_has_next(),
    {
        self.page < self.pages()
    }

    /// The page the Last control targets.
    pub fn last(&self) -> (r: usize)
        ensures
            r == self.spec_pages(),
    {
        self.pages()
    }

    /// Whether `page` is the page currently shown.
    pub fn is_cur(&self, page: usize) -> (r: bool)
        ensures
            r == (self.page == page),
    {
        self.page == page
    }

    /// First page number of the window.
    pub fn from(&self) -> (r: usize)
        ensures
            r == self.spec_from(),
    {
        if self.page > self.n_left_right {
            self.page - self.n_left_right
        } else {
            1
        }
    }

    /// Last page number of the window; below `from()` exactly when the
    /// window is empty.
    pub fn to(&self) -> (r: usize)
        ensures
            r == self.spec_to(),
    {
        let p = self.pages();
        if self.page >= p {
            p
        } else if p - self.page <= self.n_left_right {
            p
        } else {
            self.page + self.n_left_right
        }
    }

    /// Whether a leading ellipsis stands between the first page and the
    /// window.
    pub fn has_dots_left(&self) -> (r: bool)
        ensures
            r == self.spec_dots_left(),
    {
        self.pages() > 0 && self.from() > 2
    }

    /// Whether a trailing ellipsis stands between the window and the last
    /// page.
    pub fn has_dots_right(&self) -> (r: bool)
        ensures
            r == self.spec_dots_right(),
    {
        self.to() < self.pages().saturating_sub(1)
    }

    /// Total number of pages needed for `element_count` elements at
    /// `page_size` elements each.
    pub fn pages(&self) -> (r: usize)
        ensures
            r == self.spec_pages(),
    {
        if self.page_size == 0 {
            0
        } else {
            let q = self.element_count / self.page_size;
            if self.element_count % self.page_size == 0 {
                q
            } else {
                proof {
                    lemma_pages_le_count(*self);
                }
                q + 1
            }
        }
    }

    /// The page numbers of the window, in increasing order.
    pub fn from_to(&self) -> (r: Vec<usize>)
        ensures
            r@ == self.spec_from_to(),
    {
        let from = self.from();
        let to = self.to();
        let mut r: Vec<usize> = Vec::new();
        if from <= to {
            let len = to - from + 1;
            let mut i: usize = 0;
            while i < len
                invariant
                    len == self.spec_win_len(),
                    from == self.spec_from(),
                    i <= len,
                    from + len - 1 <= usize::MAX,
                    r@.len() == i,
                    forall|j: int| 0 <= j < i ==> r@[j] == self.spec_from_to()[j],
                decreases len - i,
            {
                r.push(from + i);
                i = i + 1;
            }
        }
        assert(r@ =~= self.spec_from_to());
        r
    }

    /// Derives the pagination strip a renderer shows for this state: First
    /// and Prev, a leading ellipsis when due, one link per window page, a
    /// trailing ellipsis when due, Next and Last. Deterministic and without
    /// side effects; a state whose stored page lies past the last page is
    /// rendered as stored, never clamped here.
    pub fn generate_pagination(&self) -> (r: Vec<PaginationItem>)
        ensures
            r@ == self.spec_layout(),
    {
        let mut items: Vec<PaginationItem> = Vec::new();
        let hp = self.has_prev();
        items.push(
            PaginationItem::First(
                if hp {
                    Some(self.first())
                } else {
                    None
                },
            ),
        );
        items.push(
            PaginationItem::Prev(
                if hp {
                    Some(self.prev())
                } else {
                    None
                },
            ),
        );
        if self.has_dots_left() {
            items.push(PaginationItem::Ellipsis);
        }
        assert(items@ =~= self.spec_head());
        let window = self.from_to();
        let mut i: usize = 0;
        while i < window.len()
            invariant
                window@ == self.spec_from_to(),
                i <= window@.len(),
                items@ == self.spec_head() + self.spec_window().take(i as int),
            decreases window@.len() - i,
        {
            let p = window[i];
            items.push(PaginationItem::PageLink(p, self.is_cur(p)));
            proof {
                lemma_pages_le_count(*self);
                assert(self.spec_from() + i <= self.spec_to());
                assert(items@ =~= self.spec_head() + self.spec_window().take(i + 1));
            }
            i = i + 1;
        }
        proof {
            assert(self.spec_window().take(i as int) =~= self.spec_window());
        }
        if self.has_dots_right() {
            items.push(PaginationItem::Ellipsis);
        }
        let hn = self.has_next();
        items.push(
            PaginationItem::Next(
                if hn {
                    Some(self.next())
                } else {
                    None
                },
            ),
        );
        items.push(
            PaginationItem::Last(
                if hn {
                    Some(self.last())
                } else {
                    None
                },
            ),
        );
        proof {
            lemma_pages_le_count(*self);
            assert(items@ =~= self.spec_layout());
        }
        items
    }

    /// Moves to `page`, clamped to `1`; everything else is kept.
    pub fn set_page(&mut self, page: usize)
        ensures
            final(self).page == clamped(page),
            final(self).page_size == old(self).page_size,
            final(self).element_count == old(self).element_count,
            final(self).n_left_right == old(self).n_left_right,
    {
        self.page = if page == 0 {
            1
        } else {
            page
        };
    }

    /// Replaces page, page size (both clamped to `1`) and element count at
    /// once.
    pub fn update(&mut self, page: usize, page_size: usize, n: usize)
        ensures
            final(self).page == clamped(page),
            final(self).page_size == clamped(page_size),
            final(self).element_count == n,
            final(self).n_left_right == old(self).n_left_right,
    {
        self.page = if page == 0 {
            1
        } else {
            page
        };
        self.page_size = if page_size == 0 {
            1
        } else {
            page_size
        };
        self.element_count = n;
    }

    /// Changes the page size, clamped to `1`, and resets the page to `1`:
    /// changing the granularity invalidates the old page offset. The element
    /// count is kept.
    pub fn set_page_size(&mut self, page_size: usize)
        ensures
            final(self).page == 1,
            final(self).page_size == clamped(page_size),
            final(self).element_count == old(self).element_count,
            final(self).n_left_right == old(self).n_left_right,
    {
        self.page_size = if page_size == 0 {
            1
        } else {
            page_size
        };
        self.page = 1;
    }

    /// Moves to `page` at `page_size`, both clamped to `1`. The element
    /// count is kept: a page or size change must not erase the last known
    /// count.
    pub fn set_page_and_size(&mut self, page: usize, page_size: usize)
        ensures
            final(self).page == clamped(page),
            final(self).page_size == clamped(page_size),
            final(self).element_count == old(self).element_count,
            final(self).n_left_right == old(self).n_left_right,
    {
        self.page = if page == 0 {
            1
        } else {
            page
        };
        self.page_size = if page_size == 0 {
            1
        } else {
            page_size
        };
    }

    /// Accepts the element count a fetch reported; page and page size are
    /// kept.
    pub fn set_element_count(&mut self, element_count: usize)
        ensures
            final(self).page == old(self).page,
            final(self).page_size == old(self).page_size,
            final(self).element_count == element_count,
            final(self).n_left_right == old(self).n_left_right,
    {
        self.element_count = element_count;
    }
}

impl Default for PaginationState {
    /// The state a pagination UI starts from, before any location or fetch
    /// is seen.
    fn default() -> (r: Self)
        ensures
            r == PaginationState::spec_default(),
            r.wf(),
    {
        PaginationState {
            page: DEFAULT_PAGE,
            page_size: DEFAULT_PAGE_SIZE,
            element_count: 0,
            n_left_right: WINDOW_RADIUS,
        }
    }
}

/// The page number a `PageLink` item carries; `0` for every other item.
pub open spec fn link_page(it: PaginationItem) -> int {
    match it {
        PaginationItem::PageLink(p, _) => p as int,
        _ => 0,
    }
}

/// Window bounds: the `PageLink` entries of the layout are exactly the page
/// numbers from `spec_from()` to `spec_to()` — the window around the current
/// page, cut to `[1, spec_pages()]` — in increasing order, each exactly once,
/// and they stand contiguously between the head and the tail of the strip.
pub proof fn lemma_window_bounds(s: PaginationState)
    requires
        s.wf(),
    ensures
        ({
            let l = s.spec_layout();
            let off = s.spec_head().len() as int;
            let w = s.spec_win_len();
            &&& forall|i: int|
                0 <= i < l.len() ==> (((#[trigger] l[i]) is PageLink) <==> off <= i < off + w)
            &&& forall|i: int|
                0 <= i < w ==> #[trigger] l[off + i] == PaginationItem::PageLink(
                    (s.spec_from() + i) as usize,
                    s.spec_from() + i == s.page,
                )
            &&& forall|i: int|
                0 <= i < l.len() && (#[trigger] l[i]) is PageLink ==> s.spec_from() <= link_page(
                    l[i],
                ) <= s.spec_to()
            &&& forall|i: int, j: int|
                0 <= i < j < l.len() && (#[trigger] l[i]) is PageLink && (#[trigger] l[j])
                    is PageLink ==> link_page(l[i]) < link_page(l[j])
        }),
{
    lemma_pages_le_count(s);
    let l = s.spec_layout();
    let off = s.spec_head().len() as int;
    let w = s.spec_win_len();
    assert forall|i: int| 0 <= i < l.len() implies (((#[trigger] l[i]) is PageLink) <==> off <= i
        < off + w) by {
        if i < off {
            assert(l[i] == s.spec_head()[i]);
        } else if i < off + w {
            assert(l[i] == s.spec_window()[i - off]);
        } else {
            assert(l[i] == s.spec_tail()[i - off - w]);
        }
    }
    assert forall|i: int| 0 <= i < w implies #[trigger] l[off + i] == PaginationItem::PageLink(
        (s.spec_from() + i) as usize,
        s.spec_from() + i == s.page,
    ) by {
        assert(l[off + i] == s.spec_window()[i]);
    }
    assert forall|i: int| 0 <= i < l.len() && (#[trigger] l[i]) is PageLink implies s.spec_from()
        <= link_page(l[i]) <= s.spec_to() by {
        assert(l[i] == s.spec_window()[i - off]);
    }
    assert forall|i: int, j: int|
        0 <= i < j < l.len() && (#[trigger] l[i]) is PageLink && (#[trigger] l[j])
            is PageLink implies link_page(l[i]) < link_page(l[j]) by {
        assert(l[i] == s.spec_window()[i - off]);
        assert(l[j] == s.spec_window()[j - off]);
    }
}

/// Leading-ellipsis correctness: an `Ellipsis` stands before the window
/// exactly when the window starts past page `2`. The one family of states
/// left out is an empty result set whose stored page would put the window
/// start past `2`: there the strip short-circuits to no ellipsis at all.
pub proof fn lemma_leading_ellipsis(s: PaginationState)
    requires
        s.wf(),
        s.spec_pages() > 0 || s.spec_from() <= 2,
    ensures
        (exists|i: int|
            0 <= i < s.spec_head().len() && (#[trigger] s.spec_layout()[i]) is Ellipsis) <==> s.spec_from()
            > 2,
{
    let l = s.spec_layout();
    if s.spec_from() > 2 {
        assert(s.spec_dots_left());
        assert(l[2] == s.spec_head()[2]);
        assert(l[2] is Ellipsis && 0 <= 2 < s.spec_head().len());
    } else {
        assert(!s.spec_dots_left());
        assert forall|i: int| 0 <= i < s.spec_head().len() implies !((#[trigger] l[i])
            is Ellipsis) by {
            assert(l[i] == s.spec_head()[i]);
        }
    }
}

/// Trailing-ellipsis correctness: an `Ellipsis` stands after the window
/// exactly when the window ends before the next-to-last page.
pub proof fn lemma_trailing_ellipsis(s: PaginationState)
    requires
        s.wf(),
    ensures
        (exists|i: int|
            s.spec_head().len() + s.spec_win_len() <= i < s.spec_layout().len() && (
            #[trigger] s.spec_layout()[i]) is Ellipsis) <==> s.spec_to() < s.spec_pages() - 1,
{
    let l = s.spec_layout();
    let off = s.spec_head().len() as int;
    let w = s.spec_win_len();
    if s.spec_to() < s.spec_pages() - 1 {
        assert(s.spec_dots_right());
        assert(l[off + w] == s.spec_tail()[0]);
        assert(l[off + w] is Ellipsis && off + w <= off + w < l.len());
    } else {
        assert(!s.spec_dots_right());
        assert forall|i: int| off + w <= i < l.len() implies !((#[trigger] l[i]) is Ellipsis) by {
            assert(l[i] == s.spec_tail()[i - off - w]);
        }
    }
}

/// No ellipsis and no page link on an empty result set: with no elements the
/// strip is exactly the four inert or navigational controls.
pub proof fn lemma_no_ellipsis_on_empty(s: PaginationState)
    requires
        s.wf(),
        s.element_count == 0,
    ensures
        s.spec_layout().len() == 4,
        forall|i: int|
            0 <= i < s.spec_layout().len() ==> !((#[trigger] s.spec_layout()[i]) is PageLink) && !(
            s.spec_layout()[i] is Ellipsis),
{
    let l = s.spec_layout();
    assert(s.spec_pages() == 0);
    assert(s.spec_win_len() == 0);
    assert(!s.spec_dots_left() && !s.spec_dots_right());
    assert forall|i: int| 0 <= i < l.len() implies !((#[trigger] l[i]) is PageLink) && !(l[i]
        is Ellipsis) by {
        if i < 2 {
            assert(l[i] == s.spec_head()[i]);
        } else {
            assert(l[i] == s.spec_tail()[i - 2]);
        }
    }
}

/// The window is empty exactly when there are no pages — as long as the
/// stored page has not been left past the last page by a shrinking count,
/// which only the controller, never the layout, clamps away.
pub proof fn lemma_window_empty_iff_no_pages(s: PaginationState)
    requires
        s.wf(),
    ensures
        s.spec_pages() == 0 ==> s.spec_win_len() == 0,
        s.spec_pages() > 0 && s.page <= s.spec_pages() ==> s.spec_win_len() > 0,
{
}

/// Layout derivation is a pure function of the state: deriving it twice from
/// the same state yields identical sequences.
pub proof fn lemma_layout_deterministic(
    s: PaginationState,
    l1: Seq<PaginationItem>,
    l2: Seq<PaginationItem>,
)
    requires
        l1 == s.spec_layout(),
        l2 == s.spec_layout(),
    ensures
        l1 == l2,
{
}

/// The total page count never exceeds the element count: each page holds at
/// least one element.
pub proof fn lemma_pages_le_count(s: PaginationState)
    ensures
        0 <= s.spec_pages() <= s.element_count,
{
    if s.page_size != 0 {
        let c = s.element_count as int;
        let ps = s.page_size as int;
        assert(0 <= c / ps <= c && (c % ps != 0 ==> c / ps < c)) by (nonlinear_arith)
            requires
                ps >= 1,
                c >= 0,
        ;
    }
}

} // verus!
