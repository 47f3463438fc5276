//! The launch sequence as a state machine. The caller performs each action
//! (catalog refresh, download, dialogs, processes) and reports the outcome as
//! the next event; every decision between those steps is made here.
use vstd::prelude::*;
use crate::descriptor::{CommandSpec, Descriptor, strings_view};
use crate::resolve::{ResolveError, is_first_match, joined, resolve, resolves_to, rule_matches};
use crate::setup::{SetupAction, SetupError, SetupEvent, SetupState, setup_next, setup_step, state_fits};

verus! {

/// The exit status a child uses to say it already logged its own error.
pub const RESERVED_EXIT_CODE: i32 = 10;

/// What lowercasing a text gives; it depends on the text alone.
pub uninterp spec fn lower_of(s: Seq<char>) -> Seq<char>;

/// Relies on `str::to_lowercase`: the lowercase form of the text.
#[verifier::external_body]
fn lowercase(s: &str) -> (r: String)
    ensures
        r@ == lower_of(s@),
{
    s.to_lowercase()
}

/// The file name of the helper executable that is never launched.
pub open spec fn ignored_suffix() -> Seq<char> {
    seq!['i', 's', 'c', 'r', 'i', 'p', 't', 'e', 'v', 'a', 'l', 'u', 'a', 't', 'o', 'r', '.', 'e', 'x', 'e']
}

pub open spec fn ends_with(s: Seq<char>, suffix: Seq<char>) -> bool {
    s.len() >= suffix.len() && s.subrange(s.len() - suffix.len(), s.len() as int) == suffix
}

/// Whether an already lowercased program path ends with the ignored helper's name.
pub fn ends_with_ignored_suffix(lowered: &str) -> (r: bool)
    ensures
        r == ends_with(lowered@, ignored_suffix()),
{
    let suffix = "iscriptevaluator.exe";
    proof {
        reveal_strlit("iscriptevaluator.exe");
        assert(suffix@ =~= ignored_suffix());
    }
    let n = lowered.unicode_len();
    let m = suffix.unicode_len();
    if n < m {
        return false;
    }
    let start = n - m;
    let mut i: usize = 0;
    while i < m
        invariant
            i <= m,
            m == suffix@.len(),
            n == lowered@.len(),
            start == n - m,
            suffix@ == ignored_suffix(),
            forall|k: int| 0 <= k < i ==> lowered@[start + k] == suffix@[k],
        decreases m - i,
    {
        if lowered.get_char(start + i) != suffix.get_char(i) {
            proof {
                assert(lowered@.subrange(start as int, n as int)[i as int] != suffix@[i as int]);
            }
            return false;
        }
        i = i + 1;
    }
    proof {
        assert(lowered@.subrange(start as int, n as int) =~= suffix@);
    }
    true
}

/// Whether a program path names the ignored helper, in any letter case.
pub fn is_ignored_executable(exe: &str) -> (r: bool)
    ensures
        r == ends_with(lower_of(exe@), ignored_suffix()),
{
    let lowered = lowercase(exe);
    ends_with_ignored_suffix(lowered.as_str())
}

/// Why a launch stopped before the game ran, or how it failed to start.
#[derive(PartialEq, Eq, Structural, Debug, Clone, Copy)]
pub enum LaunchError {
    CatalogUnavailable,
    UnknownApplication,
    ChoiceSelectionFailed,
    DescriptorConversionFailed,
    DownloadFailed,
    DirectoryChangeFailed,
    InstallFailed,
    SetupRejected,
    SetupPromptFailed,
    SetupInstallFailed,
    SetupIncomplete,
    NoCommandResolved,
    ChildSpawnFailed,
    IgnoredExecutable,
    UnexpectedEvent,
}

/// Where the launch stands.
#[derive(PartialEq, Eq, Structural, Debug, Clone, Copy)]
pub enum Phase {
    Start,
    RefreshingCatalog,
    LoadingDescriptor,
    ChoosingEngine,
    Converting,
    Downloading,
    ChangingDirectory,
    Installing,
    CheckingSetup,
    InSetup(SetupState),
    Restoring,
    /// Setup failed; the environment is restored before the launch ends
    /// with this failure.
    RestoringAfterFailure(LaunchError),
    Running,
    ReadingErrorFile,
    ShowingRunError,
    Finished(i32),
    Failed(LaunchError),
}

/// The program to start, its full argument list, and the original program
/// path handed to it for diagnostics.
pub struct SpawnPlan {
    pub program: String,
    pub args: Vec<String>,
    pub original_exe: String,
}

/// What the caller reports after performing the last action.
pub enum LaunchEvent {
    Begin,
    CatalogRefreshed(bool),
    DescriptorLoaded(Option<Descriptor>),
    EngineChosen(bool),
    Converted(Option<Descriptor>),
    Downloaded(bool),
    /// The working directory was changed (`true`) or could not be.
    DirectoryChanged(bool),
    Installed(bool),
    Setup(SetupEvent),
    Restored,
    /// The child exited; `None` when it was ended by a signal.
    ChildExited(Option<i32>),
    SpawnFailed,
    /// The error-detail file, if it could be read.
    ErrorFileRead(Option<String>),
    ErrorShown,
}

/// What the caller must do next.
pub enum LaunchAction {
    RefreshCatalog,
    LoadDescriptor,
    /// Download every engine choice and let the user pick one.
    DownloadChoices,
    /// Convert the current descriptor for the chosen engine.
    ConvertDescriptor,
    Download,
    /// Change to the directory holding the original program.
    ChangeToProgramDirectory,
    Install,
    /// Check whether the sentinel and license files exist, and report it as
    /// a `SetupEvent::Started`.
    CheckSetupFiles,
    Setup(SetupAction),
    /// Restore the gamepad and library-preload variables.
    RestoreEnvironment,
    Spawn(SpawnPlan),
    ReadErrorFile,
    ShowRunError(String),
    Exit(i32),
    Fail(LaunchError),
}

/// One launch: the invocation (program token first), the descriptor once
/// loaded, and the phase.
pub struct Launcher {
    pub invocation: Vec<String>,
    pub descriptor: Option<Descriptor>,
    pub phase: Phase,
}

/// Phases in which a descriptor has been loaded.
pub open spec fn holds_descriptor(p: Phase) -> bool {
    !(p matches Phase::Start) && !(p matches Phase::RefreshingCatalog) && !(p matches Phase::LoadingDescriptor)
        && !(p matches Phase::Finished(_)) && !(p matches Phase::Failed(_))
}

impl Launcher {
    pub open spec fn wf(&self) -> bool {
        &&& self.invocation@.len() > 0
        &&& holds_descriptor(self.phase) ==> self.descriptor is Some
        &&& self.phase == Phase::CheckingSetup ==> self.descriptor->Some_0.setup is Some
        &&& self.phase matches Phase::InSetup(st) ==> (self.descriptor is Some
            && self.descriptor->Some_0.setup is Some
            && state_fits(&self.descriptor->Some_0.setup->Some_0, st))
    }
}

/// The launch failure a setup failure becomes.
pub open spec fn setup_failure(e: SetupError) -> LaunchError {
    match e {
        SetupError::Rejected => LaunchError::SetupRejected,
        SetupError::PromptFailed => LaunchError::SetupPromptFailed,
        SetupError::InstallFailed => LaunchError::SetupInstallFailed,
        SetupError::SentinelFailed => LaunchError::SetupIncomplete,
        SetupError::UnexpectedEvent => LaunchError::UnexpectedEvent,
    }
}

fn map_setup_failure(e: SetupError) -> (r: LaunchError)
    ensures
        r == setup_failure(e),
{
    match e {
        SetupError::Rejected => LaunchError::SetupRejected,
        SetupError::PromptFailed => LaunchError::SetupPromptFailed,
        SetupError::InstallFailed => LaunchError::SetupInstallFailed,
        SetupError::SentinelFailed => LaunchError::SetupIncomplete,
        SetupError::UnexpectedEvent => LaunchError::UnexpectedEvent,
    }
}

/// The step after the download: the directory change if asked for, else
/// what follows it.
pub open spec fn after_download(d: &Descriptor) -> Phase {
    if d.use_original_command_directory {
        Phase::ChangingDirectory
    } else {
        after_directory(d)
    }
}

/// The step after the directory change: install if there is something to
/// install, else what follows it.
pub open spec fn after_directory(d: &Descriptor) -> Phase {
    if d.has_download {
        Phase::Installing
    } else {
        after_install(d)
    }
}

/// The step after install: setup if declared, else restoring the environment.
pub open spec fn after_install(d: &Descriptor) -> Phase {
    if d.setup is Some {
        Phase::CheckingSetup
    } else {
        Phase::Restoring
    }
}

/// The action that starts a phase reached without an outcome to report.
pub open spec fn action_of(p: Phase, a: LaunchAction) -> bool {
    match p {
        Phase::ChangingDirectory => a is ChangeToProgramDirectory,
        Phase::Installing => a is Install,
        Phase::CheckingSetup => a is CheckSetupFiles,
        Phase::Restoring => a is RestoreEnvironment,
        _ => false,
    }
}

/// `plan` runs the resolved command for the invocation: its program, its
/// arguments followed by the forwarded ones, and the original program path.
pub open spec fn plan_for(d: &Descriptor, inv: Seq<String>, plan: SpawnPlan) -> bool {
    exists|c: CommandSpec|
        #[trigger] resolves_to(d, strings_view(inv), Ok(c)) && plan.program@ == c.program@
            && strings_view(plan.args@) == strings_view(c.args@) + strings_view(inv.drop_first())
            && plan.original_exe@ == inv[0]@
}

/// `new` and `a` are the launch machine's answer to `ev` in `old`.
pub open spec fn launch_next(old: Launcher, ev: LaunchEvent, new: Launcher, a: LaunchAction) -> bool {
    let same = new.invocation == old.invocation;
    let keep = same && new.descriptor == old.descriptor;
    let fail = |e: LaunchError| keep && new.phase == Phase::Failed(e) && a == LaunchAction::Fail(e);
    let go = |p: Phase| keep && new.phase == p && action_of(p, a);
    let d = old.descriptor->Some_0;
    match old.phase {
        Phase::Start => match ev {
            LaunchEvent::Begin => keep && new.phase == Phase::RefreshingCatalog && a is RefreshCatalog,
            _ => fail(LaunchError::UnexpectedEvent),
        },
        Phase::RefreshingCatalog => match ev {
            LaunchEvent::CatalogRefreshed(ok) => if ok {
                keep && new.phase == Phase::LoadingDescriptor && a is LoadDescriptor
            } else {
                fail(LaunchError::CatalogUnavailable)
            },
            _ => fail(LaunchError::UnexpectedEvent),
        },
        Phase::LoadingDescriptor => match ev {
            LaunchEvent::DescriptorLoaded(o) => match o {
                None => fail(LaunchError::UnknownApplication),
                Some(nd) => same && new.descriptor == Some(nd) && if nd.has_choices {
                    new.phase == Phase::ChoosingEngine && a is DownloadChoices
                } else {
                    new.phase == Phase::Downloading && a is Download
                },
            },
            _ => fail(LaunchError::UnexpectedEvent),
        },
        Phase::ChoosingEngine => match ev {
            LaunchEvent::EngineChosen(ok) => if ok {
                keep && new.phase == Phase::Converting && a is ConvertDescriptor
            } else {
                fail(LaunchError::ChoiceSelectionFailed)
            },
            _ => fail(LaunchError::UnexpectedEvent),
        },
        Phase::Converting => match ev {
            LaunchEvent::Converted(o) => match o {
                None => fail(LaunchError::DescriptorConversionFailed),
                Some(nd) => same && new.descriptor == Some(nd) && new.phase == after_download(&nd)
                    && action_of(new.phase, a),
            },
            _ => fail(LaunchError::UnexpectedEvent),
        },
        Phase::Downloading => match ev {
            LaunchEvent::Downloaded(ok) => if ok {
                go(after_download(&d))
            } else {
                fail(LaunchError::DownloadFailed)
            },
            _ => fail(LaunchError::UnexpectedEvent),
        },
        Phase::ChangingDirectory => match ev {
            LaunchEvent::DirectoryChanged(ok) => if ok {
                go(after_directory(&d))
            } else {
                fail(LaunchError::DirectoryChangeFailed)
            },
            _ => fail(LaunchError::UnexpectedEvent),
        },
        Phase::Installing => match ev {
            LaunchEvent::Installed(ok) => if ok {
                go(after_install(&d))
            } else {
                fail(LaunchError::InstallFailed)
            },
            _ => fail(LaunchError::UnexpectedEvent),
        },
        Phase::CheckingSetup => match ev {
            LaunchEvent::Setup(sev) => setup_answer(old, SetupState::NotStarted, sev, new, a),
            _ => fail(LaunchError::UnexpectedEvent),
        },
        Phase::InSetup(st) => match ev {
            LaunchEvent::Setup(sev) => setup_answer(old, st, sev, new, a),
            _ => fail(LaunchError::UnexpectedEvent),
        },
        Phase::Restoring => match ev {
            LaunchEvent::Restored => keep && if resolves_to(
                &d,
                strings_view(old.invocation@),
                Err(ResolveError::NoCommand),
            ) {
                new.phase == Phase::Failed(LaunchError::NoCommandResolved)
                    && a == LaunchAction::Fail(LaunchError::NoCommandResolved)
            } else {
                new.phase == Phase::Running && a is Spawn && plan_for(&d, old.invocation@, a->Spawn_0)
            },
            _ => fail(LaunchError::UnexpectedEvent),
        },
        Phase::RestoringAfterFailure(e) => match ev {
            LaunchEvent::Restored => fail(e),
            _ => fail(LaunchError::UnexpectedEvent),
        },
        Phase::Running => match ev {
            LaunchEvent::ChildExited(code) => match code {
                Some(c) => if c == RESERVED_EXIT_CODE {
                    keep && new.phase == Phase::ReadingErrorFile && a is ReadErrorFile
                } else {
                    keep && new.phase == Phase::Finished(c) && a == LaunchAction::Exit(c)
                },
                None => keep && new.phase == Phase::Finished(0) && a == LaunchAction::Exit(0),
            },
            LaunchEvent::SpawnFailed => fail(LaunchError::ChildSpawnFailed),
            _ => fail(LaunchError::UnexpectedEvent),
        },
        Phase::ReadingErrorFile => match ev {
            LaunchEvent::ErrorFileRead(text) => match text {
                Some(t) => keep && new.phase == Phase::ShowingRunError && a is ShowRunError
                    && a->ShowRunError_0@ == t@,
                None => keep && new.phase == Phase::Finished(RESERVED_EXIT_CODE) && a
                    == LaunchAction::Exit(RESERVED_EXIT_CODE),
            },
            _ => fail(LaunchError::UnexpectedEvent),
        },
        Phase::ShowingRunError => match ev {
            LaunchEvent::ErrorShown => keep && new.phase == Phase::Finished(RESERVED_EXIT_CODE) && a
                == LaunchAction::Exit(RESERVED_EXIT_CODE),
            _ => fail(LaunchError::UnexpectedEvent),
        },
        Phase::Finished(c) => keep && new.phase == Phase::Finished(c) && a == LaunchAction::Exit(c),
        Phase::Failed(e) => keep && new.phase == Phase::Failed(e) && a == LaunchAction::Fail(e),
    }
}

/// The launch machine's answer to a setup event: the setup machine's step,
/// with completion leading to the environment restore and failure ending the
/// launch.
pub open spec fn setup_answer(old: Launcher, st: SetupState, sev: SetupEvent, new: Launcher, a: LaunchAction) -> bool {
    let s = old.descriptor->Some_0.setup->Some_0;
    let (nst, sa) = setup_next(&s, st, sev);
    &&& new.invocation == old.invocation
    &&& new.descriptor == old.descriptor
    &&& match sa {
        SetupAction::Done => new.phase == Phase::Restoring && a is RestoreEnvironment,
        SetupAction::Abort(e) => new.phase == Phase::RestoringAfterFailure(setup_failure(e))
            && a is RestoreEnvironment,
        _ => new.phase == Phase::InSetup(nst) && a == LaunchAction::Setup(sa),
    }
}

fn phase_after_install(d: &Descriptor) -> (p: Phase)
    ensures
        p == after_install(d),
{
    if d.setup.is_some() {
        Phase::CheckingSetup
    } else {
        Phase::Restoring
    }
}

fn phase_after_directory(d: &Descriptor) -> (p: Phase)
    ensures
        p == after_directory(d),
{
    if d.has_download {
        Phase::Installing
    } else {
        phase_after_install(d)
    }
}

fn phase_after_download(d: &Descriptor) -> (p: Phase)
    ensures
        p == after_download(d),
{
    if d.use_original_command_directory {
        Phase::ChangingDirectory
    } else {
        phase_after_directory(d)
    }
}

fn opening_action(p: Phase) -> (a: LaunchAction)
    requires
        p == Phase::ChangingDirectory || p == Phase::Installing || p == Phase::CheckingSetup || p
            == Phase::Restoring,
    ensures
        action_of(p, a),
{
    match p {
        Phase::ChangingDirectory => LaunchAction::ChangeToProgramDirectory,
        Phase::Installing => LaunchAction::Install,
        Phase::CheckingSetup => LaunchAction::CheckSetupFiles,
        _ => LaunchAction::RestoreEnvironment,
    }
}

/// The spawn plan for a resolved command: its program, its arguments followed
/// by the forwarded invocation arguments, and the original program path.
fn build_plan(c: CommandSpec, inv: &Vec<String>) -> (plan: SpawnPlan)
    requires
        inv@.len() > 0,
    ensures
        plan.program@ == c.program@,
        strings_view(plan.args@) == strings_view(c.args@) + strings_view(inv@.drop_first()),
        plan.original_exe@ == inv@[0]@,
{
    let mut args = c.args;
    let ghost base = args@;
    let mut i: usize = 1;
    while i < inv.len()
        invariant
            1 <= i <= inv.len(),
            args@.len() == base.len() + i - 1,
            forall|k: int| 0 <= k < base.len() ==> (#[trigger] args@[k])@ == base[k]@,
            forall|k: int| base.len() <= k < args@.len() ==> (#[trigger] args@[k])@ == inv@[k - base.len() + 1]@,
        decreases inv.len() - i,
    {
        args.push(inv[i].clone());
        i = i + 1;
    }
    proof {
        assert(strings_view(args@) =~= strings_view(base) + strings_view(inv@.drop_first()));
    }
    SpawnPlan { program: c.program, args, original_exe: inv[0].clone() }
}

impl Launcher {
    /// A launch for an invocation (program token first), refused at once when
    /// the program is the ignored helper executable.
    pub fn start(invocation: Vec<String>) -> (r: Result<Launcher, LaunchError>)
        requires
            invocation@.len() > 0,
        ensures
            r is Err <==> ends_with(lower_of(invocation@[0]@), ignored_suffix()),
            r is Err ==> r->Err_0 == LaunchError::IgnoredExecutable,
            r is Ok ==> r->Ok_0.wf() && r->Ok_0.phase == Phase::Start && r->Ok_0.descriptor is None
                && r->Ok_0.invocation == invocation,
    {
        if is_ignored_executable(invocation[0].as_str()) {
            Err(LaunchError::IgnoredExecutable)
        } else {
            Ok(Launcher { invocation, descriptor: None, phase: Phase::Start })
        }
    }

    fn fail(&mut self, e: LaunchError) -> (a: LaunchAction)
        ensures
            final(self).invocation == old(self).invocation,
            final(self).descriptor == old(self).descriptor,
            final(self).phase == Phase::Failed(e),
            a == LaunchAction::Fail(e),
    {
        self.phase = Phase::Failed(e);
        LaunchAction::Fail(e)
    }

    fn enter(&mut self, p: Phase) -> (a: LaunchAction)
        requires
            p == Phase::ChangingDirectory || p == Phase::Installing || p == Phase::CheckingSetup || p
                == Phase::Restoring,
        ensures
            final(self).invocation == old(self).invocation,
            final(self).descriptor == old(self).descriptor,
            final(self).phase == p,
            action_of(p, a),
    {
        self.phase = p;
        opening_action(p)
    }

    fn setup_event(&mut self, st: SetupState, sev: SetupEvent) -> (a: LaunchAction)
        requires
            old(self).wf(),
            old(self).descriptor is Some,
            old(self).descriptor->Some_0.setup is Some,
            state_fits(&old(self).descriptor->Some_0.setup->Some_0, st),
        ensures
            final(self).wf(),
            setup_answer(*old(self), st, sev, *final(self), a),
    {
        let s = self.descriptor.as_ref().unwrap().setup.as_ref().unwrap();
        let (nst, sa) = setup_step(s, st, sev);
        match sa {
            SetupAction::Done => {
                self.phase = Phase::Restoring;
                LaunchAction::RestoreEnvironment
            },
            SetupAction::Abort(e) => {
                self.phase = Phase::RestoringAfterFailure(map_setup_failure(e));
                LaunchAction::RestoreEnvironment
            },
            _ => {
                self.phase = Phase::InSetup(nst);
                LaunchAction::Setup(sa)
            },
        }
    }

    fn spawn_or_fail(&mut self) -> (a: LaunchAction)
        requires
            old(self).wf(),
            old(self).phase == Phase::Restoring,
        ensures
            final(self).wf(),
            launch_next(*old(self), LaunchEvent::Restored, *final(self), a),
    {
        let d = self.descriptor.as_ref().unwrap();
        let ghost gd = *d;
        let ghost inv = strings_view(self.invocation@);
        match resolve(d, &self.invocation) {
            Ok(c) => {
                let ghost gc = c;
                proof {
                    crate::resolve::no_command_exactly_when_nothing_matches(&gd, inv, Ok(gc));
                    if resolves_to(&gd, inv, Err(ResolveError::NoCommand)) {
                        crate::resolve::no_command_exactly_when_nothing_matches(
                            &gd,
                            inv,
                            Err(ResolveError::NoCommand),
                        );
                    }
                }
                let plan = build_plan(c, &self.invocation);
                proof {
                    assert(resolves_to(&gd, inv, Ok(gc)));
                }
                self.phase = Phase::Running;
                LaunchAction::Spawn(plan)
            },
            Err(_) => self.fail(LaunchError::NoCommandResolved),
        }
    }

    /// Answers one event: records what it brings and says what to do next.
    pub fn step(&mut self, ev: LaunchEvent) -> (a: LaunchAction)
        requires
            old(self).wf(),
        ensures
            final(self).wf(),
            launch_next(*old(self), ev, *final(self), a),
    {
        match self.phase {
            Phase::Start => match ev {
                LaunchEvent::Begin => {
                    self.phase = Phase::RefreshingCatalog;
                    LaunchAction::RefreshCatalog
                },
                _ => self.fail(LaunchError::UnexpectedEvent),
            },
            Phase::RefreshingCatalog => match ev {
                LaunchEvent::CatalogRefreshed(ok) => if ok {
                    self.phase = Phase::LoadingDescriptor;
                    LaunchAction::LoadDescriptor
                } else {
                    self.fail(LaunchError::CatalogUnavailable)
                },
                _ => self.fail(LaunchError::UnexpectedEvent),
            },
            Phase::LoadingDescriptor => match ev {
                LaunchEvent::DescriptorLoaded(o) => match o {
                    None => self.fail(LaunchError::UnknownApplication),
                    Some(nd) => {
                        let choices = nd.has_choices;
                        self.descriptor = Some(nd);
                        if choices {
                            self.phase = Phase::ChoosingEngine;
                            LaunchAction::DownloadChoices
                        } else {
                            self.phase = Phase::Downloading;
                            LaunchAction::Download
                        }
                    },
                },
                _ => self.fail(LaunchError::UnexpectedEvent),
            },
            Phase::ChoosingEngine => match ev {
                LaunchEvent::EngineChosen(ok) => if ok {
                    self.phase = Phase::Converting;
                    LaunchAction::ConvertDescriptor
                } else {
                    self.fail(LaunchError::ChoiceSelectionFailed)
                },
                _ => self.fail(LaunchError::UnexpectedEvent),
            },
            Phase::Converting => match ev {
                LaunchEvent::Converted(o) => match o {
                    None => self.fail(LaunchError::DescriptorConversionFailed),
                    Some(nd) => {
                        let p = phase_after_download(&nd);
                        self.descriptor = Some(nd);
                        self.enter(p)
                    },
                },
                _ => self.fail(LaunchError::UnexpectedEvent),
            },
            Phase::Downloading => match ev {
                LaunchEvent::Downloaded(ok) => if ok {
                    let p = phase_after_download(self.descriptor.as_ref().unwrap());
                    self.enter(p)
                } else {
                    self.fail(LaunchError::DownloadFailed)
                },
                _ => self.fail(LaunchError::UnexpectedEvent),
            },
            Phase::ChangingDirectory => match ev {
                LaunchEvent::DirectoryChanged(ok) => if ok {
                    let p = phase_after_directory(self.descriptor.as_ref().unwrap());
                    self.enter(p)
                } else {
                    self.fail(LaunchError::DirectoryChangeFailed)
                },
                _ => self.fail(LaunchError::UnexpectedEvent),
            },
            Phase::Installing => match ev {
                LaunchEvent::Installed(ok) => if ok {
                    let p = phase_after_install(self.descriptor.as_ref().unwrap());
                    self.enter(p)
                } else {
                    self.fail(LaunchError::InstallFailed)
                },
                _ => self.fail(LaunchError::UnexpectedEvent),
            },
            Phase::CheckingSetup => match ev {
                LaunchEvent::Setup(sev) => self.setup_event(SetupState::NotStarted, sev),
                _ => self.fail(LaunchError::UnexpectedEvent),
            },
            Phase::InSetup(st) => match ev {
                LaunchEvent::Setup(sev) => self.setup_event(st, sev),
                _ => self.fail(LaunchError::UnexpectedEvent),
            },
            Phase::Restoring => match ev {
                LaunchEvent::Restored => self.spawn_or_fail(),
                _ => self.fail(LaunchError::UnexpectedEvent),
            },
            Phase::RestoringAfterFailure(e) => match ev {
                LaunchEvent::Restored => self.fail(e),
                _ => self.fail(LaunchError::UnexpectedEvent),
            },
            Phase::Running => match ev {
                LaunchEvent::ChildExited(code) => match code {
                    Some(c) => if c == RESERVED_EXIT_CODE {
                        self.phase = Phase::ReadingErrorFile;
                        LaunchAction::ReadErrorFile
                    } else {
                        self.phase = Phase::Finished(c);
                        LaunchAction::Exit(c)
                    },
                    None => {
                        self.phase = Phase::Finished(0);
                        LaunchAction::Exit(0)
                    },
                },
                LaunchEvent::SpawnFailed => self.fail(LaunchError::ChildSpawnFailed),
                _ => self.fail(LaunchError::UnexpectedEvent),
            },
            Phase::ReadingErrorFile => match ev {
                LaunchEvent::ErrorFileRead(text) => match text {
                    Some(t) => {
                        self.phase = Phase::ShowingRunError;
                        LaunchAction::ShowRunError(t)
                    },
                    None => {
                        self.phase = Phase::Finished(RESERVED_EXIT_CODE);
                        LaunchAction::Exit(RESERVED_EXIT_CODE)
                    },
                },
                _ => self.fail(LaunchError::UnexpectedEvent),
            },
            Phase::ShowingRunError => match ev {
                LaunchEvent::ErrorShown => {
                    self.phase = Phase::Finished(RESERVED_EXIT_CODE);
                    LaunchAction::Exit(RESERVED_EXIT_CODE)
                },
                _ => self.fail(LaunchError::UnexpectedEvent),
            },
            Phase::Finished(c) => LaunchAction::Exit(c),
            Phase::Failed(e) => LaunchAction::Fail(e),
        }
    }
}

/// A child that exits with the reserved status makes the launch read the
/// error-detail file, show its text when there is one (empty included), and
/// exit with the reserved status itself.
pub proof fn reserved_exit_is_reported_and_passed_through(
    l0: Launcher,
    l1: Launcher,
    a1: LaunchAction,
    text: Option<String>,
    l2: Launcher,
    a2: LaunchAction,
    l3: Launcher,
    a3: LaunchAction,
)
    requires
        l0.phase == Phase::Running,
        launch_next(l0, LaunchEvent::ChildExited(Some(RESERVED_EXIT_CODE)), l1, a1),
        launch_next(l1, LaunchEvent::ErrorFileRead(text), l2, a2),
        launch_next(l2, LaunchEvent::ErrorShown, l3, a3),
    ensures
        a1 is ReadErrorFile,
        text is Some ==> (a2 is ShowRunError && a2->ShowRunError_0@ == text->Some_0@ && a3
            == LaunchAction::Exit(RESERVED_EXIT_CODE)),
        text is None ==> a2 == LaunchAction::Exit(RESERVED_EXIT_CODE) && a3 == LaunchAction::Exit(
            RESERVED_EXIT_CODE,
        ),
{
}

/// Any other exit status, zero or not, is the launch's own exit status.
pub proof fn other_exit_passes_through(l0: Launcher, code: i32, l1: Launcher, a1: LaunchAction)
    requires
        l0.phase == Phase::Running,
        code != RESERVED_EXIT_CODE,
        launch_next(l0, LaunchEvent::ChildExited(Some(code)), l1, a1),
    ensures
        a1 == LaunchAction::Exit(code),
        l1.phase == Phase::Finished(code),
{
}

/// When the setup sentinel already exists, the launch goes straight from the
/// file check to restoring the environment: no license, prompt or installer.
pub proof fn launch_skips_completed_setup(l0: Launcher, license_exists: bool, l1: Launcher, a1: LaunchAction)
    requires
        l0.wf(),
        l0.phase == Phase::CheckingSetup,
        launch_next(
            l0,
            LaunchEvent::Setup(SetupEvent::Started { sentinel_exists: true, license_exists }),
            l1,
            a1,
        ),
    ensures
        a1 is RestoreEnvironment,
        l1.phase == Phase::Restoring,
{
}

/// A failed launch stays failed: every later event gets the same failure
/// back, so no later step (restoring, spawning) is ever asked for.
pub proof fn failure_is_final(l0: Launcher, ev: LaunchEvent, l1: Launcher, a: LaunchAction)
    requires
        l0.phase is Failed,
        launch_next(l0, ev, l1, a),
    ensures
        l1.phase == l0.phase,
        a == LaunchAction::Fail(l0.phase->Failed_0),
{
}

/// The game is spawned only right after the environment was restored.
pub proof fn spawn_only_after_restore(l0: Launcher, ev: LaunchEvent, l1: Launcher, a: LaunchAction)
    requires
        launch_next(l0, ev, l1, a),
        a is Spawn,
    ensures
        l0.phase == Phase::Restoring,
        ev is Restored,
{
}

/// Once setup is reached, the environment is restored whatever its outcome:
/// a setup abort first asks for the restore, and only after it ends the
/// launch with the setup's failure.
pub proof fn setup_failure_still_restores(
    l0: Launcher,
    sev: SetupEvent,
    l1: Launcher,
    a1: LaunchAction,
    l2: Launcher,
    a2: LaunchAction,
    e: SetupError,
)
    requires
        l0.wf(),
        l0.phase is CheckingSetup || l0.phase is InSetup,
        setup_next(
            &l0.descriptor->Some_0.setup->Some_0,
            if l0.phase is InSetup { l0.phase->InSetup_0 } else { SetupState::NotStarted },
            sev,
        ).1 == SetupAction::Abort(e),
        launch_next(l0, LaunchEvent::Setup(sev), l1, a1),
        launch_next(l1, LaunchEvent::Restored, l2, a2),
    ensures
        a1 is RestoreEnvironment,
        l2.phase == Phase::Failed(setup_failure(e)),
        a2 == LaunchAction::Fail(setup_failure(e)),
{
}

/// Without a fixed command, the launch spawns the first rule that matches the
/// space-joined invocation: its program, its arguments followed by the
/// forwarded ones, with the original program path beside them.
pub proof fn spawn_runs_first_matching_rule(l0: Launcher, l1: Launcher, a: LaunchAction, i: int)
    requires
        l0.wf(),
        l0.phase == Phase::Restoring,
        l0.descriptor->Some_0.command is None,
        l0.descriptor->Some_0.commands is Some,
        is_first_match(
            l0.descriptor->Some_0.commands->Some_0@,
            i,
            joined(strings_view(l0.invocation@)),
        ),
        launch_next(l0, LaunchEvent::Restored, l1, a),
    ensures
        a is Spawn,
        a->Spawn_0.program@ == l0.descriptor->Some_0.commands->Some_0@[i].command.program@,
        strings_view(a->Spawn_0.args@) == strings_view(
            l0.descriptor->Some_0.commands->Some_0@[i].command.args@,
        ) + strings_view(l0.invocation@.drop_first()),
        a->Spawn_0.original_exe@ == l0.invocation@[0]@,
{
    let d = l0.descriptor->Some_0;
    let inv = strings_view(l0.invocation@);
    let rules = d.commands->Some_0@;
    assert(rule_matches(rules, i, joined(inv)));
    if resolves_to(&d, inv, Err(ResolveError::NoCommand)) {
        crate::resolve::no_command_exactly_when_nothing_matches(&d, inv, Err(ResolveError::NoCommand));
    }
    let c = choose|c: CommandSpec|
        #[trigger] resolves_to(&d, inv, Ok(c)) && a->Spawn_0.program@ == c.program@
            && strings_view(a->Spawn_0.args@) == strings_view(c.args@) + strings_view(l0.invocation@.drop_first())
            && a->Spawn_0.original_exe@ == l0.invocation@[0]@;
    crate::resolve::first_matching_rule_wins(&d, inv, Ok(c), i);
}

} // verus!
