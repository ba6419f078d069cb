use vstd::prelude::*;

use crate::error::RenderError;

verus! {

/// The handle of one render session: the video it draws and its stop flag.
/// The worker that draws reads the flag once per iteration.
pub struct OpenGLRenderer {
    video_path: String,
    stop_requested: bool,
    start_failure: Option<RenderError>,
}

impl OpenGLRenderer {
    /// The path of the video being drawn.
    pub closed spec fn spec_video_path(&self) -> Seq<char> {
        self.video_path@
    }

    /// Whether the session was asked to stop.
    pub closed spec fn spec_stop_requested(&self) -> bool {
        self.stop_requested
    }

    /// The error that ended the session's start, once the worker reported one.
    pub closed spec fn spec_start_failure(&self) -> Option<RenderError> {
        self.start_failure
    }

    /// The session once asked to stop.
    pub closed spec fn stopped(self) -> OpenGLRenderer {
        OpenGLRenderer { stop_requested: true, ..self }
    }

    /// Starts a session on a video file. A path that names no file fails at
    /// once with `OpenFailed`, before any worker runs.
    pub fn new(video_path: String, path_exists: bool) -> (r: Result<OpenGLRenderer, RenderError>)
        ensures
            !path_exists ==> r == Err::<OpenGLRenderer, RenderError>(RenderError::OpenFailed),
            path_exists ==> r is Ok,
            r matches Ok(s) ==> s.spec_video_path() == video_path@ && !s.spec_stop_requested()
                && s.spec_start_failure() is None,
    {
        if !path_exists {
            Err(RenderError::OpenFailed)
        } else {
            Ok(OpenGLRenderer { video_path, stop_requested: false, start_failure: None })
        }
    }

    /// Asks the worker to stop; it does not wait for it. Asking again changes
    /// nothing.
    pub fn stop(&mut self)
        ensures
            *final(self) == old(self).stopped(),
            final(self).spec_stop_requested(),
            final(self).spec_video_path() == old(self).spec_video_path(),
    {
        self.stop_requested = true;
    }

    /// Records how the worker's start went: opening the stream, creating the
    /// surface and placing it under the desktop. A failure stops the session
    /// and is kept for the caller of start.
    pub fn record_start(&mut self, outcome: Result<(), RenderError>)
        ensures
            final(self).spec_video_path() == old(self).spec_video_path(),
            match outcome {
                Ok(_) => {
                    &&& final(self).spec_start_failure() is None
                    &&& final(self).spec_stop_requested() == old(self).spec_stop_requested()
                },
                Err(e) => {
                    &&& final(self).spec_start_failure() == Some(e)
                    &&& final(self).spec_stop_requested()
                },
            },
    {
        match outcome {
            Ok(_) => {
                self.start_failure = None;
            },
            Err(e) => {
                self.start_failure = Some(e);
                self.stop_requested = true;
            },
        }
    }

    /// The error that ended the session's start, if any.
    pub fn start_failure(&self) -> (r: Option<RenderError>)
        ensures
            r == self.spec_start_failure(),
    {
        self.start_failure
    }

    /// Whether the session was asked to stop.
    pub fn should_stop(&self) -> (r: bool)
        ensures
            r == self.spec_stop_requested(),
    {
        self.stop_requested
    }

    /// The path of the video being drawn.
    pub fn video_path(&self) -> (r: &String)
        ensures
            r@ == self.spec_video_path(),
    {
        &self.video_path
    }
}

/// Owns at most one render session at a time: starting a new one stops the
/// old one first, so two renderers never draw on the same display.
pub struct WallpaperController {
    session: Option<OpenGLRenderer>,
}

impl WallpaperController {
    /// The running session, if any.
    pub closed spec fn spec_session(&self) -> Option<OpenGLRenderer> {
        self.session
    }

    /// A controller with no session.
    pub fn new() -> (r: WallpaperController)
        ensures
            r.spec_session() is None,
    {
        WallpaperController { session: None }
    }

    /// Whether a session is running.
    pub fn is_active(&self) -> (r: bool)
        ensures
            r == self.spec_session() is Some,
    {
        self.session.is_some()
    }

    /// Starts a session on `video_path`. A path that names no file fails with
    /// `OpenFailed` and leaves the running session as it was. Otherwise the
    /// previous session, if any, is asked to stop and handed back, and the new
    /// one becomes the running session.
    pub fn start(&mut self, video_path: String, path_exists: bool) -> (r: Result<
        Option<OpenGLRenderer>,
        RenderError,
    >)
        ensures
            !path_exists <==> r == Err::<Option<OpenGLRenderer>, RenderError>(
                RenderError::OpenFailed,
            ),
            !path_exists ==> final(self).spec_session() == old(self).spec_session(),
            path_exists ==> {
                &&& final(self).spec_session() matches Some(s) && s.spec_video_path()
                    == video_path@ && !s.spec_stop_requested()
                &&& r matches Ok(previous) && match old(self).spec_session() {
                    Some(old_session) => previous matches Some(p) && p.spec_stop_requested()
                        && p.spec_video_path() == old_session.spec_video_path(),
                    None => previous is None,
                }
            },
    {
        match OpenGLRenderer::new(video_path, path_exists) {
            Err(e) => Err(e),
            Ok(session) => {
                let previous = self.stop();
                self.session = Some(session);
                Ok(previous)
            },
        }
    }

    /// Records how the running session's start went. A failed start is
    /// returned, as the error of the start, and the session is stopped and
    /// dropped; success leaves the session running.
    pub fn record_start(&mut self, outcome: Result<(), RenderError>) -> (r: Result<(), RenderError>)
        ensures
            r == outcome,
            outcome is Err ==> final(self).spec_session() is None,
            outcome is Ok ==> final(self).spec_session() == old(self).spec_session(),
    {
        match outcome {
            Ok(_) => {},
            Err(e) => {
                match self.session.take() {
                    Some(mut session) => {
                        session.record_start(Err(e));
                    },
                    None => {},
                }
            },
        }
        outcome
    }

    /// Stops the running session, if any, and hands it back so that its
    /// worker can be left to finish. A second call finds nothing to stop.
    pub fn stop(&mut self) -> (r: Option<OpenGLRenderer>)
        ensures
            final(self).spec_session() is None,
            match old(self).spec_session() {
                Some(s) => r matches Some(p) && p.spec_stop_requested() && p.spec_video_path()
                    == s.spec_video_path(),
                None => r is None,
            },
    {
        match self.session.take() {
            Some(mut session) => {
                session.stop();
                Some(session)
            },
            None => None,
        }
    }
}

/// Stopping a session twice leaves it as stopping it once does.
pub proof fn lemma_stop_twice_same_as_once(s: OpenGLRenderer)
    ensures
        s.stopped().stopped() == s.stopped(),
        s.stopped().spec_stop_requested(),
        s.stopped().spec_video_path() == s.spec_video_path(),
{
}

} // verus!
