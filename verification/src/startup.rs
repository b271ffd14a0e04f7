//! The startup sequencer: the order of the window-setup steps, which of
//! them run on which platform, and which failures are fatal. The host
//! performs each step (resolving the window, decorating it, showing it,
//! registering the drop listener) and reports its outcome; this state
//! machine decides what comes next.

use vstd::prelude::*;

verus! {

/// The kind of platform the application runs on, as far as setup cares:
/// the shadow decoration is applied on Windows and macOS only.
#[derive(Clone, Copy, Debug, PartialEq, Eq, Structural)]
pub enum Platform {
    Windows,
    MacOs,
    Other,
}

/// Whether the shadow decoration is applied on platform `p`.
pub open spec fn wants_shadow(p: Platform) -> bool {
    p is Windows || p is MacOs
}

/// How far setup has come.
#[derive(Clone, Copy, Debug, PartialEq, Eq, Structural)]
pub enum SetupPhase {
    /// Nothing done yet: the main window is still to be resolved.
    Start,
    /// The main window was found.
    HaveWindow,
    /// The shadow decoration was applied.
    ShadowDone,
    /// The window is visible.
    WindowShown,
    /// The drop listener is registered: setup is complete.
    Ready,
    /// A step failed. Every setup failure is fatal and unrecoverable.
    Failed,
}

/// What the host must do next.
#[derive(Clone, Copy, Debug, PartialEq, Eq, Structural)]
pub enum SetupAction {
    /// Look up the main window by its fixed identifier.
    ResolveMainWindow,
    /// Apply the shadow decoration to the main window.
    ApplyShadow,
    /// Make the main window visible.
    ShowWindow,
    /// Register the process-wide listener for file-drop events.
    RegisterDropListener,
    /// Stop the application: a setup step failed.
    Abort,
    /// Setup is complete; nothing is left to do.
    Done,
}

/// The step the host performs next, given how far setup has come on
/// platform `p`. The shadow step is skipped where `p` does not want it.
pub open spec fn spec_next_action(phase: SetupPhase, p: Platform) -> SetupAction {
    match phase {
        SetupPhase::Start => SetupAction::ResolveMainWindow,
        SetupPhase::HaveWindow => if wants_shadow(p) {
            SetupAction::ApplyShadow
        } else {
            SetupAction::ShowWindow
        },
        SetupPhase::ShadowDone => SetupAction::ShowWindow,
        SetupPhase::WindowShown => SetupAction::RegisterDropListener,
        SetupPhase::Ready => SetupAction::Done,
        SetupPhase::Failed => SetupAction::Abort,
    }
}

/// The phase after the pending step's outcome comes back. Any failure is
/// fatal; `Ready` and `Failed` are absorbing.
pub open spec fn spec_advance(phase: SetupPhase, p: Platform, succeeded: bool) -> SetupPhase {
    match phase {
        SetupPhase::Ready => SetupPhase::Ready,
        SetupPhase::Failed => SetupPhase::Failed,
        _ => if !succeeded {
            SetupPhase::Failed
        } else {
            match phase {
                SetupPhase::Start => SetupPhase::HaveWindow,
                SetupPhase::HaveWindow => if wants_shadow(p) {
                    SetupPhase::ShadowDone
                } else {
                    SetupPhase::WindowShown
                },
                SetupPhase::ShadowDone => SetupPhase::WindowShown,
                SetupPhase::WindowShown => SetupPhase::Ready,
                _ => phase,
            }
        },
    }
}

/// Drives the setup steps in order. The host asks `next_action`, performs
/// the step, and reports whether it succeeded with `advance`.
#[derive(Clone, Copy, Debug)]
pub struct SetupSequencer {
    pub platform: Platform,
    pub phase: SetupPhase,
}

impl SetupSequencer {
    /// A sequencer for platform `p`, with no step done yet.
    pub fn new(p: Platform) -> (s: Self)
        ensures
            s.platform == p,
            s.phase is Start,
    {
        SetupSequencer { platform: p, phase: SetupPhase::Start }
    }

    /// The step the host performs next: one of the setup steps, `Done`
    /// once all of them have succeeded, `Abort` once one has failed.
    pub fn next_action(&self) -> (a: SetupAction)
        ensures
            a == spec_next_action(self.phase, self.platform),
    {
        match self.phase {
            SetupPhase::Start => SetupAction::ResolveMainWindow,
            SetupPhase::HaveWindow => {
                match self.platform {
                    Platform::Windows => SetupAction::ApplyShadow,
                    Platform::MacOs => SetupAction::ApplyShadow,
                    Platform::Other => SetupAction::ShowWindow,
                }
            },
            SetupPhase::ShadowDone => SetupAction::ShowWindow,
            SetupPhase::WindowShown => SetupAction::RegisterDropListener,
            SetupPhase::Ready => SetupAction::Done,
            SetupPhase::Failed => SetupAction::Abort,
        }
    }

    /// Records the outcome of the step the host just performed. A failed
    /// step makes setup fail for good; a finished or failed setup does not
    /// move again.
    pub fn advance(&mut self, succeeded: bool)
        ensures
            final(self).platform == old(self).platform,
            final(self).phase == spec_advance(old(self).phase, old(self).platform, succeeded),
    {
        let next = match self.phase {
            SetupPhase::Ready => SetupPhase::Ready,
            SetupPhase::Failed => SetupPhase::Failed,
            _ => {
                if !succeeded {
                    SetupPhase::Failed
                } else {
                    match self.phase {
                        SetupPhase::Start => SetupPhase::HaveWindow,
                        SetupPhase::HaveWindow => {
                            match self.platform {
                                Platform::Windows => SetupPhase::ShadowDone,
                                Platform::MacOs => SetupPhase::ShadowDone,
                                Platform::Other => SetupPhase::WindowShown,
                            }
                        },
                        SetupPhase::ShadowDone => SetupPhase::WindowShown,
                        SetupPhase::WindowShown => SetupPhase::Ready,
                        _ => self.phase,
                    }
                }
            },
        };
        self.phase = next;
    }
}

} // verus!
