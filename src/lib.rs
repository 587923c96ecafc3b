//! A fluent builder for browser input actions: keyboard and mouse steps are
//! accumulated on two device timelines that are kept of equal length, ready
//! to be sent to the remote end as one request.

pub mod action;
pub mod chain;
pub mod laws;
pub mod model;

pub use action::{
    ActionSource, KeyAction, MouseButton, PointerAction, PointerOrigin, PointerType, SourceType,
    WebElement,
};
pub use chain::{ActionChain, DEFAULT_KEY_DELAY, DEFAULT_POINTER_DELAY};
