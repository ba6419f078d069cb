use vstd::prelude::*;

verus! {

/// Failures of a render session.
#[derive(Clone, Copy, Debug, PartialEq, Eq)]
pub enum RenderError {
    /// The file or its video stream could not be opened, or no pixel format
    /// could be negotiated with the decoder.
    OpenFailed,
    /// The desktop's background window or its worker layer was not found.
    ShellIntegrationFailed,
    /// One read from the decoder failed; the tick is skipped.
    TransientDecodeError,
    /// The drawing surface could not be created or drawn to.
    SurfaceFailure,
}

/// The one-line description of each failure.
pub open spec fn description(e: RenderError) -> Seq<char> {
    match e {
        RenderError::OpenFailed => "could not open the video file"@,
        RenderError::ShellIntegrationFailed => "could not find the desktop background layer"@,
        RenderError::TransientDecodeError => "could not decode a frame"@,
        RenderError::SurfaceFailure => "could not draw to the wallpaper surface"@,
    }
}

impl RenderError {
    /// Whether the error ends the session (every kind but a transient decode
    /// error does).
    pub fn is_fatal(&self) -> (r: bool)
        ensures
            r == !(*self is TransientDecodeError),
    {
        match self {
            RenderError::TransientDecodeError => false,
            _ => true,
        }
    }

    /// A one-line description for the caller that started the session.
    pub fn message(&self) -> (r: String)
        ensures
            r@ == description(*self),
    {
        match self {
            RenderError::OpenFailed => String::from_str("could not open the video file"),
            RenderError::ShellIntegrationFailed => String::from_str(
                "could not find the desktop background layer",
            ),
            RenderError::TransientDecodeError => String::from_str("could not decode a frame"),
            RenderError::SurfaceFailure => String::from_str(
                "could not draw to the wallpaper surface",
            ),
        }
    }
}

} // verus!
