//! What can go wrong in the backend, and under which name it is reported.

use vstd::prelude::*;

verus! {

/// A failure of the platform, with the driver's message.
#[derive(Debug, Clone, PartialEq, Eq)]
pub enum GameError {
    /// The platform, the event pump or the window could not be set up.
    WindowError(String),
    /// The canvas or a texture could not be made or drawn.
    RenderError(String),
}

/// What an operation of the backend gives: its value, or what went wrong.
pub type GameResult<T = ()> = Result<T, GameError>;

/// The driver operations that can fail.
#[derive(Debug, Clone, Copy, PartialEq, Eq, Structural)]
pub enum DriverCall {
    PlatformInit,
    EventPump,
    VideoInit,
    WindowCreation,
    CanvasCreation,
    TextureCreation,
    TextureUpload,
    ClipRect,
    Blit,
    RenderTarget,
    Present,
}

impl DriverCall {
    /// Whether a failure of this call is the window's rather than the
    /// renderer's.
    pub open spec fn concerns_window(self) -> bool {
        self == DriverCall::PlatformInit || self == DriverCall::EventPump || self
            == DriverCall::VideoInit || self == DriverCall::WindowCreation
    }
}

impl GameError {
    /// The error that reports that `call` failed with `message`.
    pub fn from_driver(call: DriverCall, message: String) -> (error: GameError)
        ensures
            error == if call.concerns_window() {
                GameError::WindowError(message)
            } else {
                GameError::RenderError(message)
            },
    {
        match call {
            DriverCall::PlatformInit
            | DriverCall::EventPump
            | DriverCall::VideoInit
            | DriverCall::WindowCreation => GameError::WindowError(message),
            _ => GameError::RenderError(message),
        }
    }

    /// The driver's message.
    pub fn message(&self) -> (message: &String)
        ensures
            *self == GameError::WindowError(*message) || *self == GameError::RenderError(*message),
    {
        match self {
            GameError::WindowError(message) => message,
            GameError::RenderError(message) => message,
        }
    }
}

/// What a driver call returned, as the backend reports it.
pub fn driver_result<T>(call: DriverCall, outcome: Result<T, String>) -> (result: GameResult<T>)
    ensures
        result == match outcome {
            Ok(value) => Ok::<T, GameError>(value),
            Err(message) => Err(
                if call.concerns_window() {
                    GameError::WindowError(message)
                } else {
                    GameError::RenderError(message)
                },
            ),
        },
{
    match outcome {
        Ok(value) => Ok(value),
        Err(message) => Err(GameError::from_driver(call, message)),
    }
}

} // verus!
