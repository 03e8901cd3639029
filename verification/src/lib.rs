//! Keeps a local chain's best and finalized blocks in step with the heads
//! that a relay chain reports for it.
//!
//! The relay chain offers two live subscriptions for a parachain: updates of
//! its best head and its finalized heads. A follower consumes each of them:
//! it decodes the head data of every item and has the local client mark the
//! block with the decoded header's hash as best, or finalize it. The two
//! followers form one [`Task`], which halts as soon as either meets a fault
//! and completes when both subscriptions have ended.
//!
//! Waiting for the subscriptions is left to the caller. It polls a
//! subscription while the task [wants](Task::wants) its items and hands what
//! it gets to [`follow_best`] or [`follow_finalized`].

pub mod error;
pub mod follow;
pub mod head;
pub mod laws;
pub mod local;
pub mod task;
pub mod trace;

pub use crate::error::{ClientError, Error};
pub use crate::follow::{follow, follow_best, follow_finalized};
pub use crate::head::HeadUpdate;
pub use crate::local::{perform, LocalClient};
pub use crate::task::{Action, Event, Follower, Side, Task};
