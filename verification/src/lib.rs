//! Application-level event coordination for a desktop GUI toolkit.
//!
//! The coordinator owns the set of live windows and the pending timers. It
//! takes in the events of the platform's event loop and decides what each one
//! calls for: what to record, what to forward to a window's own state, when
//! the loop must wake next, and when it must exit. It decides, and performs
//! nothing itself: every call hands back an action for its caller to carry
//! out, so that the same decisions hold on every platform and under every
//! event loop.
//!
//! - [`timer`]: the pending timers, their earliest deadline, and firing.
//! - [`window`]: what a new window asks of the platform, the registry of live
//!   windows, and the two steps in which a window is closed.
//! - [`queue`]: the queues on which requests and notifications wait.
//! - [`event`]: the events that come in and the actions that go out.
//! - [`app_handle`]: the coordinator itself.
//! - [`keys`]: walking a hash map.

pub mod app_handle;
pub mod event;
pub mod keys;
pub mod queue;
pub mod timer;
pub mod window;
