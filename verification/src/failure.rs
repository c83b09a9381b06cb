//! What can end a run, and how the process reports it.
//!
//! Every failure is terminal: a short diagnostic on standard error and a
//! status other than zero. Nothing is retried and no partial image is ever
//! written.

use vstd::prelude::*;

use crate::resize::TransformError;

verus! {

/// Status of a run that handed its image to the locker.
pub const SUCCESS_STATUS: i32 = 0;

/// Status when the display or the capture is at fault.
pub const DISPLAY_STATUS: i32 = 1;

/// Status of every other failure: that of an aborted process.
pub const ABORT_STATUS: i32 = 101;

/// The step of handing the image to the locker that went wrong.
#[derive(Clone, Copy, Debug, PartialEq, Eq, Structural)]
pub enum LockerStep {
    /// The locker could not be started.
    Spawn,
    /// The locker's standard input could not be opened.
    OpenInput,
    /// The image could not be written to the locker.
    Write,
}

/// Why a run ended without a lock screen.
#[derive(Clone, Copy, Debug, PartialEq, Eq, Structural)]
pub enum Failure {
    /// No connection to the display server.
    DisplayUnavailable,
    /// The captured image, or its pixel data, is unusable.
    CaptureUnusable,
    /// The image that the user named could not be read or decoded.
    Decode,
    /// A step of the pipeline failed.
    Transform(TransformError),
    /// The locker could not be started or fed.
    Locker(LockerStep),
}

impl Failure {
    /// The exit status that reports this failure.
    pub open spec fn status(self) -> i32 {
        match self {
            Failure::DisplayUnavailable | Failure::CaptureUnusable => DISPLAY_STATUS,
            _ => ABORT_STATUS,
        }
    }

    /// The exit status that reports this failure: 1 when the display or the
    /// capture is at fault, and one status, not zero, for everything else.
    pub fn exit_status(&self) -> (code: i32)
        ensures
            code == self.status(),
            code != SUCCESS_STATUS,
            code == DISPLAY_STATUS <==> (*self == Failure::DisplayUnavailable || *self
                == Failure::CaptureUnusable),
    {
        match self {
            Failure::DisplayUnavailable => DISPLAY_STATUS,
            Failure::CaptureUnusable => DISPLAY_STATUS,
            Failure::Decode => ABORT_STATUS,
            Failure::Transform(_) => ABORT_STATUS,
            Failure::Locker(_) => ABORT_STATUS,
        }
    }

    /// The diagnostic of this failure.
    pub open spec fn message(self) -> Seq<char> {
        match self {
            Failure::DisplayUnavailable => "Failed to open X display."@,
            Failure::CaptureUnusable => "Failed to load image data"@,
            Failure::Decode => "Failed to load image"@,
            Failure::Transform(TransformError::TooLarge) => "Image is too large to resize"@,
            Failure::Transform(TransformError::UnsupportedPixelType) => "Unsupported pixel type"@,
            Failure::Transform(TransformError::ResizeFailed) => "Failed to resize image"@,
            Failure::Transform(TransformError::DimensionsChanged) => "Blur changed the image size"@,
            Failure::Locker(LockerStep::Spawn) => "Failed to start i3lock"@,
            Failure::Locker(LockerStep::OpenInput) => "Failed to open stdin"@,
            Failure::Locker(LockerStep::Write) => "Failed to write image data to i3lock"@,
        }
    }

    /// The line that is printed on standard error for this failure.
    pub fn diagnostic(&self) -> (text: &'static str)
        ensures
            text@ == self.message(),
    {
        match self {
            Failure::DisplayUnavailable => "Failed to open X display.",
            Failure::CaptureUnusable => "Failed to load image data",
            Failure::Decode => "Failed to load image",
            Failure::Transform(TransformError::TooLarge) => "Image is too large to resize",
            Failure::Transform(TransformError::UnsupportedPixelType) => "Unsupported pixel type",
            Failure::Transform(TransformError::ResizeFailed) => "Failed to resize image",
            Failure::Transform(TransformError::DimensionsChanged) => "Blur changed the image size",
            Failure::Locker(LockerStep::Spawn) => "Failed to start i3lock",
            Failure::Locker(LockerStep::OpenInput) => "Failed to open stdin",
            Failure::Locker(LockerStep::Write) => "Failed to write image data to i3lock",
        }
    }
}

} // verus!
