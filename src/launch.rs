//! The launch handshake: close the splash surface, reveal the main one.
use vstd::prelude::*;

verus! {

/// One top-level surface, as the window manager reports it.
#[derive(Clone, Copy, Debug, PartialEq, Eq, Structural)]
pub enum Surface {
    Absent,
    Hidden,
    Visible,
}

/// The splash and the main surface.
#[derive(Clone, Copy, Debug, PartialEq, Eq, Structural)]
pub struct Surfaces {
    pub splash: Surface,
    pub main: Surface,
}

/// What the host must do to the real windows.
#[derive(Clone, Copy, Debug, PartialEq, Eq, Structural)]
pub struct LaunchSteps {
    pub close_splash: bool,
    pub show_main: bool,
}

/// The handshake could not reveal anything: there is no main surface.
#[derive(Clone, Copy, Debug, PartialEq, Eq, Structural)]
pub enum LaunchError {
    MainMissing,
}

/// Surfaces after the handshake: the splash is gone, and a main surface
/// that exists is visible.
pub open spec fn launch_state(s: Surfaces) -> Surfaces {
    Surfaces {
        splash: Surface::Absent,
        main: if s.main == Surface::Absent {
            Surface::Absent
        } else {
            Surface::Visible
        },
    }
}

/// What the handshake reports: the steps to take, or the missing main surface.
pub open spec fn launch_outcome(s: Surfaces) -> Result<LaunchSteps, LaunchError> {
    if s.main == Surface::Absent {
        Err(LaunchError::MainMissing)
    } else {
        Ok(
            LaunchSteps {
                close_splash: s.splash != Surface::Absent,
                show_main: s.main == Surface::Hidden,
            },
        )
    }
}

/// The launch is complete: no splash is shown and the main surface is.
pub open spec fn launched(s: Surfaces) -> bool {
    s.splash != Surface::Visible && s.main == Surface::Visible
}

/// Runs the handshake on `surfaces`. The splash, where present, is closed
/// (where absent there is nothing to do); the main surface is then shown,
/// and its absence is an error.
pub fn close_splashscreen(surfaces: &mut Surfaces) -> (r: Result<LaunchSteps, LaunchError>)
    ensures
        *final(surfaces) == launch_state(*old(surfaces)),
        r == launch_outcome(*old(surfaces)),
{
    let close_splash = surfaces.splash != Surface::Absent;
    surfaces.splash = Surface::Absent;
    match surfaces.main {
        Surface::Absent => Err(LaunchError::MainMissing),
        Surface::Hidden => {
            surfaces.main = Surface::Visible;
            Ok(LaunchSteps { close_splash, show_main: true })
        },
        Surface::Visible => Ok(LaunchSteps { close_splash, show_main: false }),
    }
}

/// Where a main surface exists, the handshake succeeds and leaves the launch
/// complete; running it again succeeds, changes nothing and asks for no
/// step. Without a main surface it fails.
pub proof fn lemma_launch_idempotent(s: Surfaces)
    ensures
        s.main != Surface::Absent ==> {
            &&& launch_outcome(s) is Ok
            &&& launched(launch_state(s))
            &&& launch_state(launch_state(s)) == launch_state(s)
            &&& launch_outcome(launch_state(s)) == Ok::<LaunchSteps, LaunchError>(
                LaunchSteps { close_splash: false, show_main: false },
            )
        },
        s.main == Surface::Absent ==> launch_outcome(s) == Err::<LaunchSteps, LaunchError>(
            LaunchError::MainMissing,
        ),
{
}

} // verus!
