use vstd::prelude::*;

use crate::error::RenderError;

verus! {

/// Extended window style bit that keeps a window out of the task switcher.
pub const WS_EX_TOOLWINDOW: u32 = 0x0000_0080;

/// Extended window style bit that puts a window on the taskbar.
pub const WS_EX_APPWINDOW: u32 = 0x0004_0000;

/// Message that asks the desktop shell's main window to create the worker
/// layer behind the icons.
pub const SPAWN_WORKER_MESSAGE: u32 = 0x052C;

/// How long the shell is given to answer that message, in milliseconds.
pub const SPAWN_TIMEOUT_MS: u32 = 1000;

/// The extended style of the wallpaper surface: marked as a tool window and
/// no longer as an application window, every other bit kept.
pub fn background_ex_style(ex_style: u32) -> (r: u32)
    ensures
        r & WS_EX_TOOLWINDOW == WS_EX_TOOLWINDOW,
        r & WS_EX_APPWINDOW == 0,
        r & !(WS_EX_TOOLWINDOW | WS_EX_APPWINDOW) == ex_style & !(WS_EX_TOOLWINDOW
            | WS_EX_APPWINDOW),
{
    let r = (ex_style & !WS_EX_APPWINDOW) | WS_EX_TOOLWINDOW;
    assert(r & 0x0000_0080u32 == 0x0000_0080u32) by (bit_vector)
        requires
            r == (ex_style & !0x0004_0000u32) | 0x0000_0080u32,
    ;
    assert(r & 0x0004_0000u32 == 0) by (bit_vector)
        requires
            r == (ex_style & !0x0004_0000u32) | 0x0000_0080u32,
    ;
    assert(r & !(0x0000_0080u32 | 0x0004_0000u32) == ex_style & !(0x0000_0080u32
        | 0x0004_0000u32)) by (bit_vector)
        requires
            r == (ex_style & !0x0004_0000u32) | 0x0000_0080u32,
    ;
    r
}

/// A top-level window is the shell's worker layer when its class is
/// `WorkerW` and the shell's icon view exists.
pub open spec fn is_worker_layer_spec(class_name: Seq<char>, icon_view_found: bool) -> bool {
    class_name == "WorkerW"@ && icon_view_found
}

/// Tells whether a top-level window, seen while enumerating the desktop's
/// windows, is the worker layer to place the surface in.
pub fn is_worker_layer(class_name: &String, icon_view_found: bool) -> (r: bool)
    ensures
        r == is_worker_layer_spec(class_name@, icon_view_found),
{
    let worker = String::from_str("WorkerW");
    *class_name == worker && icon_view_found
}

/// Placing the surface under the desktop needs the shell's main window and,
/// after asking it to create one, its worker layer; missing either is an
/// integration failure, reported rather than panicked on.
pub fn embed_outcome(shell_found: bool, worker_layer_found: bool) -> (r: Result<(), RenderError>)
    ensures
        r == if shell_found && worker_layer_found {
            Ok::<(), RenderError>(())
        } else {
            Err(RenderError::ShellIntegrationFailed)
        },
{
    if shell_found && worker_layer_found {
        Ok(())
    } else {
        Err(RenderError::ShellIntegrationFailed)
    }
}

/// What must be released when the surface is destroyed.
#[derive(Clone, Copy, Debug, PartialEq, Eq)]
pub enum Release {
    /// The device context and the window are released now.
    DeviceAndWindow,
    /// They were released before: nothing is left to do.
    Nothing,
}

/// The drawing surface of a session, from creation to destruction, with its
/// placement under the desktop.
#[derive(Clone, Copy, Debug, PartialEq, Eq)]
pub struct Surface {
    pub width: u32,
    pub height: u32,
    pub embedded: bool,
    pub destroyed: bool,
}

impl Surface {
    /// A surface sized to the whole display, not yet placed under the desktop.
    pub fn create(display_width: u32, display_height: u32) -> (r: Surface)
        ensures
            r == (Surface {
                width: display_width,
                height: display_height,
                embedded: false,
                destroyed: false,
            }),
    {
        Surface { width: display_width, height: display_height, embedded: false, destroyed: false }
    }

    /// Records the outcome of placing the surface under the desktop. Once
    /// placed, it stays placed for the rest of the session.
    pub fn record_embedding(&mut self, outcome: Result<(), RenderError>)
        ensures
            final(self).embedded == (old(self).embedded || outcome is Ok),
            final(self).width == old(self).width,
            final(self).height == old(self).height,
            final(self).destroyed == old(self).destroyed,
    {
        if outcome.is_ok() {
            self.embedded = true;
        }
    }

    /// Destroys the surface. Only the first call releases anything, so a
    /// second one neither fails nor frees twice.
    pub fn destroy(&mut self) -> (r: Release)
        ensures
            (*final(self), r) == destroyed(*old(self)),
    {
        if self.destroyed {
            Release::Nothing
        } else {
            self.destroyed = true;
            Release::DeviceAndWindow
        }
    }
}

/// The surface after destruction, and what the destruction releases.
pub open spec fn destroyed(s: Surface) -> (Surface, Release) {
    if s.destroyed {
        (s, Release::Nothing)
    } else {
        (Surface { destroyed: true, ..s }, Release::DeviceAndWindow)
    }
}

/// Destroying a surface twice releases it once: the second call finds nothing
/// to release and leaves the surface as the first left it.
pub proof fn lemma_destroy_twice_releases_once(s: Surface)
    ensures
        destroyed(destroyed(s).0).0 == destroyed(s).0,
        destroyed(destroyed(s).0).1 == Release::Nothing,
        destroyed(s).1 == (if s.destroyed {
            Release::Nothing
        } else {
            Release::DeviceAndWindow
        }),
{
}

} // verus!
