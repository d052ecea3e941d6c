use vstd::prelude::*;

pub mod frame_request;
pub mod input;
pub mod cursor;
pub mod gating;
pub mod output;
pub mod compose;
pub mod clipboard;
pub mod queue;
pub mod fonts;
pub mod panels;
pub mod viewport;
