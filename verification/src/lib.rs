//! Coordination of a page's primary content with its secondary regions.
//!
//! A page is rendered from one primary branch and any number of secondary
//! regions ("portlets"). Both are computed concurrently, yet a portlet must
//! not resolve before the primary branch has finished.
//!
//! * [`sync_await`] holds the completion gate: a one-shot latch that the
//!   primary branch fires once and that any number of waiters subscribe to.
//! * [`portlet`] holds the slot through which a producer publishes a pending
//!   computation, and the render pass that consumes it once the latch is open.
//! * [`directory`] holds the authors and articles that the pages list, with
//!   the lookups on them.
//! * [`nav`] holds the navigation entries derived from a listing.

pub mod directory;
pub mod nav;
pub mod portlet;
pub mod sync_await;
