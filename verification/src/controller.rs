//! Fetch orchestration and external-location sync.
//!
//! `PaginationController` owns a `PaginationState` and bridges it to two
//! collaborators the caller supplies: a source of desired `(page, page_size)`
//! pairs (the parsed query string of the external location) and an
//! asynchronous count-reporting data source. The controller itself performs
//! no I/O: the caller reports each location change through
//! `on_desired_state`, performs the fetch the returned request asks for, and
//! reports the outcome through `on_fetch_success` or `on_fetch_failure`.
//! Every issued fetch carries a monotonically increasing sequence number, and
//! a result is accepted only while its fetch is still the latest one issued:
//! last-issued wins, whatever order the results come back in.

use vstd::prelude::*;

use crate::pagination_state::{clamped, PaginationState, DEFAULT_PAGE, DEFAULT_PAGE_SIZE};

verus! {

/// A fetch the controller has issued: which page of which size to ask the
/// data source for, tagged with the sequence number that decides, on
/// resolution, whether the result is still wanted.
#[derive(Debug, Copy, Clone, PartialEq, Eq, Structural)]
pub struct FetchRequest {
    /// Position of this fetch in issue order.
    pub seq: u64,
    /// 1-based page to fetch.
    pub page: usize,
    /// Items per page to fetch.
    pub page_size: usize,
}

/// Where the controller stands with respect to the desired state.
#[derive(Debug, Copy, Clone, PartialEq, Eq, Structural)]
pub enum FetchPhase {
    /// No fetch has been issued yet.
    Idle,
    /// The fetch with the given sequence number is outstanding and is the
    /// latest one issued.
    Fetching(u64),
    /// The latest issued fetch has resolved, successfully or not.
    Settled,
}

/// The fetch-orchestration state machine. It is mutated only through
/// `on_desired_state`, `on_fetch_success` and `on_fetch_failure`, each a
/// synchronous step; the suspension between issuing a fetch and seeing its
/// outcome lives entirely with the caller.
#[derive(Debug, Copy, Clone, PartialEq, Eq, Structural)]
pub struct PaginationController {
    /// The pagination state consumers render from.
    pub state: PaginationState,
    /// Sequence number of the most recently issued fetch; `0` before any.
    pub latest_seq: u64,
    /// Where the controller stands with respect to its latest fetch.
    pub phase: FetchPhase,
}

impl PaginationController {
    /// The owned state is well-formed, an outstanding fetch is always the
    /// latest issued one, and before any fetch the counter still reads `0`.
    pub open spec fn wf(self) -> bool {
        &&& self.state.wf()
        &&& (self.phase matches FetchPhase::Fetching(q) ==> q == self.latest_seq)
        &&& (self.phase is Idle ==> self.latest_seq == 0)
    }

    /// A desired pair, clamped at the boundary, asks for a fetch exactly
    /// when it differs from the current pair.
    pub open spec fn spec_issues(self, page: usize, page_size: usize) -> bool {
        clamped(page) != self.state.page || clamped(page_size) != self.state.page_size
    }

    /// The controller after reconciling a desired pair: on a difference the
    /// state moves to the clamped pair — keeping the last known element
    /// count — and the next fetch is outstanding; otherwise nothing changes.
    pub open spec fn spec_after_desired(self, page: usize, page_size: usize) -> PaginationController {
        if self.spec_issues(page, page_size) {
            PaginationController {
                state: PaginationState {
                    page: clamped(page),
                    page_size: clamped(page_size),
                    element_count: self.state.element_count,
                    n_left_right: self.state.n_left_right,
                },
                latest_seq: (self.latest_seq + 1) as u64,
                phase: FetchPhase::Fetching((self.latest_seq + 1) as u64),
            }
        } else {
            self
        }
    }

    /// The fetch that reconciling a desired pair issues, if any.
    pub open spec fn spec_request(self, page: usize, page_size: usize) -> Option<FetchRequest> {
        if self.spec_issues(page, page_size) {
            Some(
                FetchRequest {
                    seq: (self.latest_seq + 1) as u64,
                    page: clamped(page),
                    page_size: clamped(page_size),
                },
            )
        } else {
            None
        }
    }

    /// A resolving fetch is accepted exactly when it is still the
    /// outstanding one: its sequence number is the highest issued so far and
    /// no newer result has been applied.
    pub open spec fn spec_applies(self, seq: u64) -> bool {
        self.phase == FetchPhase::Fetching(seq)
    }

    /// The controller after fetch `seq` resolves with `total_count`: an
    /// accepted result writes the count into the state and settles the
    /// phase; a stale or duplicate one changes nothing.
    pub open spec fn spec_after_result(self, seq: u64, total_count: usize) -> PaginationController {
        if self.spec_applies(seq) {
            PaginationController {
                state: PaginationState {
                    page: self.state.page,
                    page_size: self.state.page_size,
                    element_count: total_count,
                    n_left_right: self.state.n_left_right,
                },
                latest_seq: self.latest_seq,
                phase: FetchPhase::Settled,
            }
        } else {
            self
        }
    }

    /// A controller at the given page and page size, both clamped to `1`,
    /// with no fetch issued yet.
    pub fn new(page: usize, page_size: usize) -> (r: Self)
        ensures
            r.state.page == clamped(page),
            r.state.page_size == clamped(page_size),
            r.state.element_count == 0,
            r.latest_seq == 0,
            r.phase is Idle,
            r.wf(),
    {
        PaginationController {
            state: PaginationState::new(page, page_size),
            latest_seq: 0,
            phase: FetchPhase::Idle,
        }
    }

    /// The current pagination state, for renderers to derive the layout
    /// from.
    pub fn state(&self) -> (r: PaginationState)
        ensures
            r == self.state,
    {
        self.state
    }

    /// Reconciles a desired `(page, page_size)` pair read from the external
    /// location. When the clamped pair differs from the current one, the
    /// state moves to it — the last known element count is kept — and the
    /// returned request must be fetched by the caller; when it is the same,
    /// nothing happens.
    pub fn on_desired_state(&mut self, page: usize, page_size: usize) -> (r: Option<FetchRequest>)
        requires
            old(self).wf(),
            old(self).latest_seq < u64::MAX,
        ensures
            *final(self) == old(self).spec_after_desired(page, page_size),
            r == old(self).spec_request(page, page_size),
            final(self).state.element_count == old(self).state.element_count,
            final(self).wf(),
    {
        let p = if page == 0 {
            1
        } else {
            page
        };
        let ps = if page_size == 0 {
            1
        } else {
            page_size
        };
        if p != self.state.page || ps != self.state.page_size {
            self.state.set_page_and_size(p, ps);
            self.latest_seq = self.latest_seq + 1;
            self.phase = FetchPhase::Fetching(self.latest_seq);
            Some(FetchRequest { seq: self.latest_seq, page: p, page_size: ps })
        } else {
            None
        }
    }

    /// Reports that fetch `seq` resolved with `total_count` elements. The
    /// count is applied only while `seq` is still the latest issued fetch;
    /// an out-of-order result is dropped silently and the return value says
    /// which happened.
    pub fn on_fetch_success(&mut self, seq: u64, total_count: usize) -> (applied: bool)
        requires
            old(self).wf(),
        ensures
            *final(self) == old(self).spec_after_result(seq, total_count),
            applied == old(self).spec_applies(seq),
            applied ==> seq == old(self).latest_seq,
            !applied ==> *final(self) == *old(self),
            final(self).wf(),
    {
        let applies = match self.phase {
            FetchPhase::Fetching(q) => q == seq,
            _ => false,
        };
        if applies {
            self.state.set_element_count(total_count);
            self.phase = FetchPhase::Settled;
        }
        applies
    }

    /// Reports that fetch `seq` failed. The state is left as it stands —
    /// the last known good count keeps the layout — and the return value
    /// says whether the failure concerns the latest fetch and is to be
    /// surfaced to the caller; a stale failure is dropped silently.
    pub fn on_fetch_failure(&mut self, seq: u64) -> (surfaced: bool)
        requires
            old(self).wf(),
        ensures
            final(self).state == old(self).state,
            final(self).latest_seq == old(self).latest_seq,
            surfaced == old(self).spec_applies(seq),
            surfaced ==> final(self).phase is Settled,
            !surfaced ==> *final(self) == *old(self),
            final(self).wf(),
    {
        let applies = match self.phase {
            FetchPhase::Fetching(q) => q == seq,
            _ => false,
        };
        if applies {
            self.phase = FetchPhase::Settled;
        }
        applies
    }

    /// A user-initiated page-size change mutates nothing here: the returned
    /// `(page, page_size)` target — back to page `1`, at the clamped new
    /// size — is meant for the caller's link builder, so that the external
    /// location stays the single source of truth and the change comes back
    /// through `on_desired_state`.
    pub fn page_size_change_target(&self, new_size: usize) -> (r: (usize, usize))
        ensures
            r.0 == 1,
            r.1 == clamped(new_size),
    {
        (
            1,
            if new_size == 0 {
                1
            } else {
                new_size
            },
        )
    }
}

/// `v` where present, the fallback `d` where not.
pub open spec fn or_default(v: Option<usize>, d: usize) -> usize {
    match v {
        Some(x) => x,
        None => d,
    }
}

/// The desired pair read from the external location's two query parameters:
/// a missing or unparsable value (handed in as `None`) falls back to the
/// default page or page size.
pub fn desired_state(page: Option<usize>, page_size: Option<usize>) -> (r: (usize, usize))
    ensures
        r.0 == or_default(page, DEFAULT_PAGE),
        r.1 == or_default(page_size, DEFAULT_PAGE_SIZE),
{
    let p = match page {
        Some(v) => v,
        None => DEFAULT_PAGE,
    };
    let ps = match page_size {
        Some(v) => v,
        None => DEFAULT_PAGE_SIZE,
    };
    (p, ps)
}

/// Last-issued-wins under reordering: when a fetch is issued and then a
/// second one supersedes it, and the second fetch's result is applied before
/// the first fetch's late result arrives, the element count stays the second
/// fetch's value — the stale result is dropped without any effect.
pub proof fn lemma_last_fetch_wins(
    c0: PaginationController,
    p1: usize,
    s1: usize,
    p2: usize,
    s2: usize,
    n1: usize,
    n2: usize,
)
    requires
        c0.wf(),
        c0.latest_seq + 2 <= u64::MAX,
        c0.spec_issues(p1, s1),
        c0.spec_after_desired(p1, s1).spec_issues(p2, s2),
    ensures
        ({
            let c1 = c0.spec_after_desired(p1, s1);
            let f1 = c1.latest_seq;
            let c2 = c1.spec_after_desired(p2, s2);
            let f2 = c2.latest_seq;
            let c3 = c2.spec_after_result(f2, n2);
            let c4 = c3.spec_after_result(f1, n1);
            &&& c2.spec_applies(f2)
            &&& !c3.spec_applies(f1)
            &&& c4 == c3
            &&& c4.state.element_count == n2
        }),
{
}

} // verus!
