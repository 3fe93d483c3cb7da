//! The two-window lifecycle of the shell: a `splashscreen` window shown at
//! startup and a hidden `main` window, with a one-shot transition from the
//! first to the second.

use vstd::prelude::*;

verus! {

/// Whether one named window is present in the window set, and whether it is
/// shown on screen.
#[derive(Clone, Copy, PartialEq, Eq, Structural, Debug)]
pub struct WindowState {
    pub present: bool,
    pub visible: bool,
}

/// The shell's window set: exactly the `splashscreen` and `main` windows.
#[derive(Clone, Copy, PartialEq, Eq, Structural, Debug)]
pub struct ShellWindows {
    pub splashscreen: WindowState,
    pub main: WindowState,
}

/// A configuration error the shell cannot recover from: a window it needs
/// at transition time does not exist.
#[derive(Clone, Copy, PartialEq, Eq, Structural, Debug)]
pub enum FatalError {
    MissingSplashscreen,
    MissingMain,
}

impl FatalError {
    /// The diagnostic the shell reports before aborting.
    pub open spec fn message_seq(self) -> Seq<char> {
        match self {
            FatalError::MissingSplashscreen => "no window labeled 'splashscreen' found"@,
            FatalError::MissingMain => "no window labeled 'main' found"@,
        }
    }

    /// Renders the diagnostic for this error.
    pub fn message(&self) -> (r: String)
        ensures
            r@ == self.message_seq(),
    {
        match self {
            FatalError::MissingSplashscreen => ("no window labeled 'splashscreen' found").to_owned(),
            FatalError::MissingMain => ("no window labeled 'main' found").to_owned(),
        }
    }
}

impl ShellWindows {
    /// The window set at process start: the splashscreen shown, the main
    /// window present but hidden.
    pub open spec fn startup_state() -> ShellWindows {
        ShellWindows {
            splashscreen: WindowState { present: true, visible: true },
            main: WindowState { present: true, visible: false },
        }
    }

    /// Builds the window set of a freshly started shell.
    pub fn startup() -> (w: ShellWindows)
        ensures
            w == Self::startup_state(),
    {
        ShellWindows {
            splashscreen: WindowState { present: true, visible: true },
            main: WindowState { present: true, visible: false },
        }
    }

    /// Everything the splash-to-main transition guarantees, as a relation
    /// between the window set before the call, the one after it, and the
    /// outcome: with both windows present it succeeds, closes the
    /// splashscreen and shows the main window; a missing splashscreen is the
    /// fatal error that leaves the set untouched; a missing main window is
    /// the fatal error discovered only after the splashscreen was closed.
    pub open spec fn transition_post(pre: ShellWindows, post: ShellWindows, r: Result<
        (),
        FatalError,
    >) -> bool {
        &&& !pre.splashscreen.present ==> r == Err::<(), FatalError>(
            FatalError::MissingSplashscreen,
        ) && post == pre
        &&& pre.splashscreen.present && !pre.main.present ==> r == Err::<(), FatalError>(
            FatalError::MissingMain,
        ) && post == (ShellWindows {
            splashscreen: WindowState { present: false, visible: false },
            main: pre.main,
        })
        &&& pre.splashscreen.present && pre.main.present ==> r == Ok::<(), FatalError>(()) && post
            == (ShellWindows {
            splashscreen: WindowState { present: false, visible: false },
            main: WindowState { present: true, visible: true },
        })
    }

    /// The one-shot transition out of the splashscreen: closes `splashscreen`
    /// and shows `main`. A missing window is a fatal configuration error.
    pub fn transition_from_splash(&mut self) -> (r: Result<(), FatalError>)
        ensures
            Self::transition_post(*old(self), *final(self), r),
    {
        if !self.splashscreen.present {
            return Err(FatalError::MissingSplashscreen);
        }
        self.splashscreen = WindowState { present: false, visible: false };
        if !self.main.present {
            return Err(FatalError::MissingMain);
        }
        self.main = WindowState { present: true, visible: true };
        Ok(())
    }
}

} // verus!
