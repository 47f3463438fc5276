//! The one-time setup state machine: license review, input prompts, the native
//! installer and the completion sentinel. The caller performs each action and
//! reports its outcome as the next event.
use vstd::prelude::*;
use crate::descriptor::SetupInfo;

verus! {

/// Why setup did not complete.
#[derive(PartialEq, Eq, Structural, Debug, Clone, Copy)]
pub enum SetupError {
    /// The license was rejected.
    Rejected,
    /// An input prompt failed.
    PromptFailed,
    /// The installer failed.
    InstallFailed,
    /// The completion sentinel could not be written.
    SentinelFailed,
    /// An event arrived that the current state does not expect.
    UnexpectedEvent,
}

#[derive(PartialEq, Eq, Structural, Debug, Clone, Copy)]
pub enum SetupState {
    NotStarted,
    LicenseReview,
    /// The license was rejected; the uninstall command is running.
    Uninstalling,
    /// Input prompt `i` of the setup section is shown.
    Prompting(usize),
    Installing,
    /// The installer failed; the error dialog is shown.
    ReportingFailure,
    /// The installer succeeded; the sentinel is being written.
    Finishing,
    Complete,
    Failed(SetupError),
}

/// What the caller reports after performing the last action.
#[derive(PartialEq, Eq, Structural, Debug, Clone, Copy)]
pub enum SetupEvent {
    /// Setup is asked for: whether the sentinel file exists and whether the
    /// license file (when one is declared) exists.
    Started { sentinel_exists: bool, license_exists: bool },
    /// The license dialog was accepted (`true`) or rejected.
    LicenseAnswered(bool),
    /// The uninstall command ran (its own outcome does not matter).
    UninstallDone,
    /// The current input prompt succeeded (`true`) or failed.
    PromptAnswered(bool),
    /// The installer exited with success (`true`) or not.
    InstallerExited(bool),
    /// The setup error dialog was shown.
    FailureReported,
    /// The sentinel file was created (`true`) or could not be.
    SentinelWritten(bool),
}

/// What the caller must do next.
#[derive(PartialEq, Eq, Structural, Debug, Clone, Copy)]
pub enum SetupAction {
    /// Show the license file with accept/reject.
    ShowLicense,
    /// Run the uninstall command with library preload suppressed.
    RunUninstall,
    /// Show input prompt `i`.
    ShowPrompt(usize),
    /// Run the setup command with library preload suppressed.
    RunInstaller,
    /// Show the "setup failed to complete" dialog.
    ReportFailure,
    /// Create the completion sentinel file.
    CreateSentinel,
    /// Setup is complete (or was already); go on with the launch.
    Done,
    /// Setup failed; the launch stops.
    Abort(SetupError),
}

/// The state reached after the license step (accepted, or none to review):
/// the first prompt, or the installer when there are no prompts.
pub open spec fn after_license(s: &SetupInfo) -> (SetupState, SetupAction) {
    if s.prompts@.len() > 0 {
        (SetupState::Prompting(0), SetupAction::ShowPrompt(0))
    } else {
        (SetupState::Installing, SetupAction::RunInstaller)
    }
}

/// The transition table of the setup machine.
pub open spec fn setup_next(s: &SetupInfo, st: SetupState, ev: SetupEvent) -> (SetupState, SetupAction) {
    let unexpected = (
        SetupState::Failed(SetupError::UnexpectedEvent),
        SetupAction::Abort(SetupError::UnexpectedEvent),
    );
    match st {
        SetupState::NotStarted => match ev {
            SetupEvent::Started { sentinel_exists, license_exists } => if sentinel_exists {
                (SetupState::Complete, SetupAction::Done)
            } else if s.license_path is Some && license_exists {
                (SetupState::LicenseReview, SetupAction::ShowLicense)
            } else {
                after_license(s)
            },
            _ => unexpected,
        },
        SetupState::LicenseReview => match ev {
            SetupEvent::LicenseAnswered(accepted) => if accepted {
                after_license(s)
            } else if s.uninstall_command is Some {
                (SetupState::Uninstalling, SetupAction::RunUninstall)
            } else {
                (SetupState::Failed(SetupError::Rejected), SetupAction::Abort(SetupError::Rejected))
            },
            _ => unexpected,
        },
        SetupState::Uninstalling => match ev {
            SetupEvent::UninstallDone => (
                SetupState::Failed(SetupError::Rejected),
                SetupAction::Abort(SetupError::Rejected),
            ),
            _ => unexpected,
        },
        SetupState::Prompting(i) => match ev {
            SetupEvent::PromptAnswered(ok) => if !ok {
                (SetupState::Failed(SetupError::PromptFailed), SetupAction::Abort(SetupError::PromptFailed))
            } else if i + 1 < s.prompts@.len() {
                (SetupState::Prompting((i + 1) as usize), SetupAction::ShowPrompt((i + 1) as usize))
            } else {
                (SetupState::Installing, SetupAction::RunInstaller)
            },
            _ => unexpected,
        },
        SetupState::Installing => match ev {
            SetupEvent::InstallerExited(ok) => if ok {
                (SetupState::Finishing, SetupAction::CreateSentinel)
            } else {
                (SetupState::ReportingFailure, SetupAction::ReportFailure)
            },
            _ => unexpected,
        },
        SetupState::ReportingFailure => match ev {
            SetupEvent::FailureReported => (
                SetupState::Failed(SetupError::InstallFailed),
                SetupAction::Abort(SetupError::InstallFailed),
            ),
            _ => unexpected,
        },
        SetupState::Finishing => match ev {
            SetupEvent::SentinelWritten(ok) => if ok {
                (SetupState::Complete, SetupAction::Done)
            } else {
                (SetupState::Failed(SetupError::SentinelFailed), SetupAction::Abort(SetupError::SentinelFailed))
            },
            _ => unexpected,
        },
        SetupState::Complete => (SetupState::Complete, SetupAction::Done),
        SetupState::Failed(e) => (SetupState::Failed(e), SetupAction::Abort(e)),
    }
}

/// A state that is consistent with a setup section: a prompt index names a prompt.
pub open spec fn state_fits(s: &SetupInfo, st: SetupState) -> bool {
    st matches SetupState::Prompting(i) ==> i < s.prompts@.len()
}

fn first_after_license(s: &SetupInfo) -> (r: (SetupState, SetupAction))
    ensures
        r == after_license(s),
{
    if s.prompts.len() > 0 {
        (SetupState::Prompting(0), SetupAction::ShowPrompt(0))
    } else {
        (SetupState::Installing, SetupAction::RunInstaller)
    }
}

/// One step of the setup machine.
pub fn setup_step(s: &SetupInfo, st: SetupState, ev: SetupEvent) -> (r: (SetupState, SetupAction))
    requires
        state_fits(s, st),
    ensures
        r == setup_next(s, st, ev),
        state_fits(s, r.0),
{
    let unexpected = (
        SetupState::Failed(SetupError::UnexpectedEvent),
        SetupAction::Abort(SetupError::UnexpectedEvent),
    );
    match st {
        SetupState::NotStarted => match ev {
            SetupEvent::Started { sentinel_exists, license_exists } => if sentinel_exists {
                (SetupState::Complete, SetupAction::Done)
            } else if s.license_path.is_some() && license_exists {
                (SetupState::LicenseReview, SetupAction::ShowLicense)
            } else {
                first_after_license(s)
            },
            _ => unexpected,
        },
        SetupState::LicenseReview => match ev {
            SetupEvent::LicenseAnswered(accepted) => if accepted {
                first_after_license(s)
            } else if s.uninstall_command.is_some() {
                (SetupState::Uninstalling, SetupAction::RunUninstall)
            } else {
                (SetupState::Failed(SetupError::Rejected), SetupAction::Abort(SetupError::Rejected))
            },
            _ => unexpected,
        },
        SetupState::Uninstalling => match ev {
            SetupEvent::UninstallDone => (
                SetupState::Failed(SetupError::Rejected),
                SetupAction::Abort(SetupError::Rejected),
            ),
            _ => unexpected,
        },
        SetupState::Prompting(i) => match ev {
            SetupEvent::PromptAnswered(ok) => if !ok {
                (SetupState::Failed(SetupError::PromptFailed), SetupAction::Abort(SetupError::PromptFailed))
            } else if s.prompts.len() - i > 1 {
                (SetupState::Prompting(i + 1), SetupAction::ShowPrompt(i + 1))
            } else {
                (SetupState::Installing, SetupAction::RunInstaller)
            },
            _ => unexpected,
        },
        SetupState::Installing => match ev {
            SetupEvent::InstallerExited(ok) => if ok {
                (SetupState::Finishing, SetupAction::CreateSentinel)
            } else {
                (SetupState::ReportingFailure, SetupAction::ReportFailure)
            },
            _ => unexpected,
        },
        SetupState::ReportingFailure => match ev {
            SetupEvent::FailureReported => (
                SetupState::Failed(SetupError::InstallFailed),
                SetupAction::Abort(SetupError::InstallFailed),
            ),
            _ => unexpected,
        },
        SetupState::Finishing => match ev {
            SetupEvent::SentinelWritten(ok) => if ok {
                (SetupState::Complete, SetupAction::Done)
            } else {
                (SetupState::Failed(SetupError::SentinelFailed), SetupAction::Abort(SetupError::SentinelFailed))
            },
            _ => unexpected,
        },
        SetupState::Complete => (SetupState::Complete, SetupAction::Done),
        SetupState::Failed(e) => (SetupState::Failed(e), SetupAction::Abort(e)),
    }
}

/// The actions the machine asks for when fed `evs` one by one from `st`.
pub open spec fn setup_trace(s: &SetupInfo, st: SetupState, evs: Seq<SetupEvent>) -> Seq<SetupAction>
    decreases evs.len(),
{
    if evs.len() == 0 {
        Seq::empty()
    } else {
        let (n, a) = setup_next(s, st, evs[0]);
        seq![a] + setup_trace(s, n, evs.drop_first())
    }
}

proof fn complete_is_absorbing(s: &SetupInfo, evs: Seq<SetupEvent>)
    ensures
        forall|k: int| 0 <= k < evs.len() ==> #[trigger] setup_trace(s, SetupState::Complete, evs)[k]
            == SetupAction::Done,
        setup_trace(s, SetupState::Complete, evs).len() == evs.len(),
    decreases evs.len(),
{
    if evs.len() > 0 {
        complete_is_absorbing(s, evs.drop_first());
        let t = setup_trace(s, SetupState::Complete, evs);
        assert forall|k: int| 0 <= k < evs.len() implies #[trigger] t[k] == SetupAction::Done by {
            if k > 0 {
                assert(t[k] == setup_trace(s, SetupState::Complete, evs.drop_first())[k - 1]);
            }
        }
    }
}

proof fn failed_is_absorbing(s: &SetupInfo, e: SetupError, evs: Seq<SetupEvent>)
    ensures
        forall|k: int| 0 <= k < evs.len() ==> #[trigger] setup_trace(s, SetupState::Failed(e), evs)[k]
            == SetupAction::Abort(e),
        setup_trace(s, SetupState::Failed(e), evs).len() == evs.len(),
    decreases evs.len(),
{
    if evs.len() > 0 {
        failed_is_absorbing(s, e, evs.drop_first());
        let t = setup_trace(s, SetupState::Failed(e), evs);
        assert forall|k: int| 0 <= k < evs.len() implies #[trigger] t[k] == SetupAction::Abort(e) by {
            if k > 0 {
                assert(t[k] == setup_trace(s, SetupState::Failed(e), evs.drop_first())[k - 1]);
            }
        }
    }
}

/// Once the sentinel exists, setup asks for nothing with an effect, whatever
/// events follow: no license dialog, no prompt, no installer, no new sentinel.
pub proof fn setup_skipped_once_complete(s: &SetupInfo, license_exists: bool, evs: Seq<SetupEvent>)
    ensures
        forall|k: int|
            0 <= k < evs.len() + 1 ==> #[trigger] setup_trace(
                s,
                SetupState::NotStarted,
                seq![SetupEvent::Started { sentinel_exists: true, license_exists }] + evs,
            )[k] == SetupAction::Done,
{
    let all = seq![SetupEvent::Started { sentinel_exists: true, license_exists }] + evs;
    assert(all.drop_first() =~= evs);
    complete_is_absorbing(s, evs);
    let t = setup_trace(s, SetupState::NotStarted, all);
    assert forall|k: int| 0 <= k < evs.len() + 1 implies #[trigger] t[k] == SetupAction::Done by {
        if k > 0 {
            assert(t[k] == setup_trace(s, SetupState::Complete, evs)[k - 1]);
        }
    }
}

/// Completion is reached only with the sentinel in place: either it already
/// existed, or the installer succeeded and the sentinel was just written.
pub proof fn complete_only_with_sentinel(s: &SetupInfo, st: SetupState, ev: SetupEvent)
    requires
        st != SetupState::Complete,
        setup_next(s, st, ev).0 == SetupState::Complete,
    ensures
        (st == SetupState::NotStarted && ev matches SetupEvent::Started { sentinel_exists: true, .. })
            || (st == SetupState::Finishing && ev == SetupEvent::SentinelWritten(true)),
{
}

/// Rejecting the license runs the uninstall command exactly when one is
/// declared, ends setup as rejected, and no later event leads to the sentinel
/// being created or the installer being run.
pub proof fn rejection_never_completes(s: &SetupInfo, evs: Seq<SetupEvent>)
    ensures
        ({
            let t = setup_trace(s, SetupState::LicenseReview, seq![SetupEvent::LicenseAnswered(false)] + evs);
            &&& t[0] == SetupAction::RunUninstall <==> s.uninstall_command is Some
            &&& s.uninstall_command is None ==> t[0] == SetupAction::Abort(SetupError::Rejected)
            &&& s.uninstall_command is Some && evs.len() > 0 && evs[0] == SetupEvent::UninstallDone
                ==> t[1] == SetupAction::Abort(SetupError::Rejected)
            &&& forall|k: int|
                0 <= k < t.len() ==> t[k] != SetupAction::CreateSentinel && t[k] != SetupAction::RunInstaller
        }),
{
    let all = seq![SetupEvent::LicenseAnswered(false)] + evs;
    assert(all.drop_first() =~= evs);
    let t = setup_trace(s, SetupState::LicenseReview, all);
    if s.uninstall_command is None {
        failed_is_absorbing(s, SetupError::Rejected, evs);
        assert forall|k: int| 0 <= k < t.len() implies t[k] != SetupAction::CreateSentinel
            && t[k] != SetupAction::RunInstaller by {
            if k > 0 {
                assert(t[k] == setup_trace(s, SetupState::Failed(SetupError::Rejected), evs)[k - 1]);
            }
        }
    } else {
        let u = setup_trace(s, SetupState::Uninstalling, evs);
        if evs.len() > 0 {
            assert(evs.drop_first() =~= evs.drop_first());
            let (n, a) = setup_next(s, SetupState::Uninstalling, evs[0]);
            assert(n is Failed);
            let e = n->Failed_0;
            failed_is_absorbing(s, e, evs.drop_first());
            assert forall|k: int| 0 <= k < u.len() implies u[k] != SetupAction::CreateSentinel
                && u[k] != SetupAction::RunInstaller by {
                if k > 0 {
                    assert(u[k] == setup_trace(s, n, evs.drop_first())[k - 1]);
                }
            }
        }
        assert forall|k: int| 0 <= k < t.len() implies t[k] != SetupAction::CreateSentinel
            && t[k] != SetupAction::RunInstaller by {
            if k > 0 {
                assert(t[k] == u[k - 1]);
            }
        }
    }
}

/// States past the installer: nothing from here on runs it again.
pub open spec fn past_installer(st: SetupState) -> bool {
    st matches SetupState::Finishing || st matches SetupState::ReportingFailure || st matches SetupState::Complete
        || st matches SetupState::Failed(_)
}

proof fn no_installer_past_it(s: &SetupInfo, st: SetupState, evs: Seq<SetupEvent>)
    requires
        past_installer(st),
    ensures
        forall|k: int| 0 <= k < evs.len() ==> #[trigger] setup_trace(s, st, evs)[k] != SetupAction::RunInstaller,
        setup_trace(s, st, evs).len() == evs.len(),
    decreases evs.len(),
{
    if evs.len() > 0 {
        let (n, a) = setup_next(s, st, evs[0]);
        no_installer_past_it(s, n, evs.drop_first());
        let t = setup_trace(s, st, evs);
        assert forall|k: int| 0 <= k < evs.len() implies #[trigger] t[k] != SetupAction::RunInstaller by {
            if k > 0 {
                assert(t[k] == setup_trace(s, n, evs.drop_first())[k - 1]);
            }
        }
    }
}

proof fn no_installer_after_installing(s: &SetupInfo, evs: Seq<SetupEvent>)
    ensures
        forall|k: int|
            0 <= k < evs.len() ==> #[trigger] setup_trace(s, SetupState::Installing, evs)[k]
                != SetupAction::RunInstaller,
    decreases evs.len(),
{
    if evs.len() > 0 {
        let (n, a) = setup_next(s, SetupState::Installing, evs[0]);
        no_installer_past_it(s, n, evs.drop_first());
        let t = setup_trace(s, SetupState::Installing, evs);
        assert forall|k: int| 0 <= k < evs.len() implies #[trigger] t[k] != SetupAction::RunInstaller by {
            if k > 0 {
                assert(t[k] == setup_trace(s, n, evs.drop_first())[k - 1]);
            }
        }
    }
}

proof fn trace_len(s: &SetupInfo, st: SetupState, evs: Seq<SetupEvent>)
    ensures
        setup_trace(s, st, evs).len() == evs.len(),
    decreases evs.len(),
{
    if evs.len() > 0 {
        let (n, a) = setup_next(s, st, evs[0]);
        trace_len(s, n, evs.drop_first());
    }
}

/// Whatever events arrive, one run of the setup machine asks for the
/// installer at most once.
pub proof fn installer_runs_at_most_once(s: &SetupInfo, st: SetupState, evs: Seq<SetupEvent>, k1: int, k2: int)
    requires
        0 <= k1 < k2 < evs.len(),
    ensures
        !(setup_trace(s, st, evs)[k1] == SetupAction::RunInstaller && setup_trace(s, st, evs)[k2]
            == SetupAction::RunInstaller),
    decreases evs.len(),
{
    let (n, a) = setup_next(s, st, evs[0]);
    let t = setup_trace(s, st, evs);
    let rest = setup_trace(s, n, evs.drop_first());
    trace_len(s, n, evs.drop_first());
    assert(t[k2] == rest[k2 - 1]);
    if k1 == 0 {
        if a == SetupAction::RunInstaller {
            assert(n == SetupState::Installing);
            no_installer_after_installing(s, evs.drop_first());
        }
    } else {
        assert(t[k1] == rest[k1 - 1]);
        installer_runs_at_most_once(s, n, evs.drop_first(), k1 - 1, k2 - 1);
    }
}

} // verus!
