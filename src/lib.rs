//! Safe bindings for a real-time audio and digital I/O framework: the
//! per-block frame view, the application lifecycle, and auxiliary tasks.

pub mod board;
pub mod context;
pub mod digital;
pub mod error;
pub mod lifecycle;
pub mod run;
pub mod task;
pub mod user;

pub use board::BelaHw;
pub use context::{Buffers, Context, ContextView, FrameInfo};
pub use digital::DigitalDirection;
pub use lifecycle::{Bela, Phase};
pub use task::{Auxiliary, AuxiliaryTask, CreatedTask};
pub use user::{AppData, UserData};
