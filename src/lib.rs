use vstd::prelude::*;

pub mod indicator;
pub mod model;
pub mod pacer;
pub mod strokes;
pub mod symbol;
pub mod text_buffer;

pub use indicator::{indicator, Mode, Modifier};
pub use model::Model;
pub use pacer::{sleep_duration, FramePacer};
pub use strokes::{segments, HandSample, StrokeModel};
pub use symbol::Symbol;
pub use text_buffer::TextBuffer;
