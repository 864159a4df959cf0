//! The errors that the lifecycle and the task calls report.

use vstd::prelude::*;

verus! {

/// What went wrong at the boundary with the native layer.
#[derive(Debug, Clone, Copy, PartialEq, Eq, Structural)]
pub enum Error {
    /// The native initializer, or the setup callback, reported failure.
    Init,
    /// The native start failed, or start was asked for before a successful init.
    Start,
    /// Reserved: the native stop reports no failure.
    Stop,
    /// Reserved: the native cleanup reports no failure.
    Cleanup,
    /// An auxiliary task could not be registered or scheduled.
    Task,
}

impl Error {
    /// A short description of the native call that failed.
    pub fn description(&self) -> (r: &'static str)
        ensures
            *self == Error::Init ==> r@ == "Bela_initAudio error"@,
            *self == Error::Start ==> r@ == "Bela_startAudio error"@,
            *self == Error::Stop ==> r@ == "Bela_stopAudio error"@,
            *self == Error::Cleanup ==> r@ == "Bela_cleanupAudio error"@,
            *self == Error::Task ==> r@ == "Bela_scheduleAuxiliaryTask error"@,
    {
        match self {
            Error::Init => "Bela_initAudio error",
            Error::Start => "Bela_startAudio error",
            Error::Stop => "Bela_stopAudio error",
            Error::Cleanup => "Bela_cleanupAudio error",
            Error::Task => "Bela_scheduleAuxiliaryTask error",
        }
    }
}

impl Error {
    /// The error as a line of text: `Error: <kind>.`.
    pub fn message(&self) -> (r: String)
        ensures
            *self == Error::Init ==> r@ == "Error: Init."@,
            *self == Error::Start ==> r@ == "Error: Start."@,
            *self == Error::Stop ==> r@ == "Error: Stop."@,
            *self == Error::Cleanup ==> r@ == "Error: Cleanup."@,
            *self == Error::Task ==> r@ == "Error: Task."@,
    {
        match self {
            Error::Init => "Error: Init.".to_owned(),
            Error::Start => "Error: Start.".to_owned(),
            Error::Stop => "Error: Stop.".to_owned(),
            Error::Cleanup => "Error: Cleanup.".to_owned(),
            Error::Task => "Error: Task.".to_owned(),
        }
    }
}

} // verus!
