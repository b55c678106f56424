//! A pagination engine: a pure page-window/ellipsis layout derivation over a
//! `(page, page_size, element_count)` state, and a controller that keeps that
//! state in step with an external location and with asynchronous count
//! fetches, dropping stale out-of-order results.

pub mod controller;
pub mod pagination_state;
