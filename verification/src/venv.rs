//! Preparing a docs folder's Python virtual environment: making it, and making
//! sure it has `pip`, step by step.
use vstd::prelude::*;

use crate::deploy::{
    args1, args_view, cat, cat3, plan_venv_paths, push_arg, venv_paths_spec, CommandLine, VenvPaths,
};

verus! {

/// How a command that was asked for ended.
pub enum CommandOutcome {
    /// It could not be started, for this reason.
    NotRun(String),
    /// It ran and reported failure, with this error output.
    Failed(String),
    /// It ran and reported success.
    Succeeded,
}

/// The text of a command's outcome.
pub enum OutcomeView {
    NotRun(Seq<char>),
    Failed(Seq<char>),
    Succeeded,
}

/// The text of a command's outcome.
pub open spec fn outcome_view(o: CommandOutcome) -> OutcomeView {
    match o {
        CommandOutcome::NotRun(m) => OutcomeView::NotRun(m@),
        CommandOutcome::Failed(m) => OutcomeView::Failed(m@),
        CommandOutcome::Succeeded => OutcomeView::Succeeded,
    }
}

/// The text of a command line.
pub open spec fn command_view(c: CommandLine) -> (Seq<char>, Seq<Seq<char>>) {
    (c.program@, args_view(c.args@))
}

/// The text of a virtual environment's files.
pub struct VenvPathsView {
    pub venv_path: Seq<char>,
    pub python: Seq<char>,
    pub python3: Seq<char>,
    pub pip: Seq<char>,
    pub get_pip: Seq<char>,
}

/// The text of a virtual environment's files.
pub open spec fn venv_view(p: VenvPaths) -> VenvPathsView {
    VenvPathsView {
        venv_path: p.venv_path@,
        python: p.python@,
        python3: p.python3@,
        pip: p.pip@,
        get_pip: p.get_pip@,
    }
}

// ---------------------------------------------------------------- the environment
/// Where the making of a virtual environment stands.
#[derive(Clone, Copy, Debug, PartialEq, Eq, Structural)]
pub enum VenvPhase {
    /// Looking for the environment's `python` and `python3`.
    CheckingUsable,
    /// Looking for what is left of an unusable environment.
    CheckingLeftover,
    /// Removing what is left of an unusable environment.
    RemovingLeftover,
    /// Running `python -m venv`.
    Creating,
    /// Looking for what a failed `python -m venv` left.
    CheckingFailed,
    /// Removing what a failed `python -m venv` left.
    RemovingFailed,
    /// Running `python -m venv --without-pip`.
    CreatingBare,
    /// Done.
    Finished,
}

/// What happened since the last step.
pub enum VenvEvent {
    /// Whether both `python` and `python3` are in the environment.
    Usable(bool),
    /// Whether the environment's folder exists.
    Exists(bool),
    /// The folder was removed, or the reason it could not be.
    Removed(Result<(), String>),
    /// How the command asked for ended.
    Ran(CommandOutcome),
}

/// What the caller is to do next.
pub enum VenvStep {
    /// Report whether `python` and `python3` are in the environment.
    CheckUsable,
    /// Report whether the environment's folder exists.
    CheckExists,
    /// Remove the environment's folder.
    Remove,
    /// Run this command.
    Run(CommandLine),
    /// Done: the environment's folder, or why it could not be made.
    Finished(Result<String, String>),
}

/// The text of an event.
pub enum VenvEventView {
    Usable(bool),
    Exists(bool),
    Removed(Result<(), Seq<char>>),
    Ran(OutcomeView),
}

/// The text of a step.
pub enum VenvStepView {
    CheckUsable,
    CheckExists,
    Remove,
    Run((Seq<char>, Seq<Seq<char>>)),
    Finished(Result<Seq<char>, Seq<char>>),
}

/// The text of the state.
pub struct VenvView {
    pub phase: VenvPhase,
    pub python_bin: Seq<char>,
    pub paths: VenvPathsView,
}

/// The text of an event.
pub open spec fn venv_event_view(e: VenvEvent) -> VenvEventView {
    match e {
        VenvEvent::Usable(b) => VenvEventView::Usable(b),
        VenvEvent::Exists(b) => VenvEventView::Exists(b),
        VenvEvent::Removed(Ok(())) => VenvEventView::Removed(Ok(())),
        VenvEvent::Removed(Err(m)) => VenvEventView::Removed(Err(m@)),
        VenvEvent::Ran(o) => VenvEventView::Ran(outcome_view(o)),
    }
}

/// The text of a step.
pub open spec fn venv_step_view(s: VenvStep) -> VenvStepView {
    match s {
        VenvStep::CheckUsable => VenvStepView::CheckUsable,
        VenvStep::CheckExists => VenvStepView::CheckExists,
        VenvStep::Remove => VenvStepView::Remove,
        VenvStep::Run(c) => VenvStepView::Run(command_view(c)),
        VenvStep::Finished(Ok(p)) => VenvStepView::Finished(Ok(p@)),
        VenvStep::Finished(Err(m)) => VenvStepView::Finished(Err(m@)),
    }
}

/// The event is the one the phase waits for.
pub open spec fn venv_fits(phase: VenvPhase, e: VenvEventView) -> bool {
    match (phase, e) {
        (VenvPhase::CheckingUsable, VenvEventView::Usable(_)) => true,
        (VenvPhase::CheckingLeftover, VenvEventView::Exists(_)) => true,
        (VenvPhase::RemovingLeftover, VenvEventView::Removed(_)) => true,
        (VenvPhase::Creating, VenvEventView::Ran(_)) => true,
        (VenvPhase::CheckingFailed, VenvEventView::Exists(_)) => true,
        (VenvPhase::RemovingFailed, VenvEventView::Removed(_)) => true,
        (VenvPhase::CreatingBare, VenvEventView::Ran(_)) => true,
        _ => false,
    }
}

/// `python -m venv <folder>`, with `--without-pip` where `bare`.
pub open spec fn venv_command_spec(python_bin: Seq<char>, venv_path: Seq<char>, bare: bool) -> (Seq<
    char,
>, Seq<Seq<char>>) {
    if bare {
        (python_bin, seq!["-m"@, "venv"@, "--without-pip"@, venv_path])
    } else {
        (python_bin, seq!["-m"@, "venv"@, venv_path])
    }
}

/// The state after the making ends with this outcome.
pub open spec fn venv_finish(s: VenvView, r: Result<Seq<char>, Seq<char>>) -> (VenvView, VenvStepView) {
    (VenvView { phase: VenvPhase::Finished, ..s }, VenvStepView::Finished(r))
}

/// Moves to a phase with a step.
pub open spec fn venv_go(s: VenvView, phase: VenvPhase, step: VenvStepView) -> (VenvView, VenvStepView) {
    (VenvView { phase, ..s }, step)
}

/// The next state and step: a usable environment is kept as it is; else what
/// is left of it is removed and `python -m venv` runs; where that fails, what
/// it left is removed and `python -m venv --without-pip` runs. Each failure to
/// remove or to run ends the making with its reason.
pub open spec fn venv_next_spec(s: VenvView, e: VenvEventView) -> (VenvView, VenvStepView) {
    let create = VenvStepView::Run(venv_command_spec(s.python_bin, s.paths.venv_path, false));
    let bare = VenvStepView::Run(venv_command_spec(s.python_bin, s.paths.venv_path, true));
    match (s.phase, e) {
        (VenvPhase::CheckingUsable, VenvEventView::Usable(true)) => venv_finish(s, Ok(s.paths.venv_path)),
        (VenvPhase::CheckingUsable, _) => venv_go(s, VenvPhase::CheckingLeftover, VenvStepView::CheckExists),
        (VenvPhase::CheckingLeftover, VenvEventView::Exists(true)) => venv_go(
            s,
            VenvPhase::RemovingLeftover,
            VenvStepView::Remove,
        ),
        (VenvPhase::CheckingLeftover, _) => venv_go(s, VenvPhase::Creating, create),
        (VenvPhase::RemovingLeftover, VenvEventView::Removed(Err(m))) => venv_finish(
            s,
            Err("Failed to remove incomplete venv: "@ + m),
        ),
        (VenvPhase::RemovingLeftover, _) => venv_go(s, VenvPhase::Creating, create),
        (VenvPhase::Creating, VenvEventView::Ran(OutcomeView::NotRun(m))) => venv_finish(
            s,
            Err("Failed to run `"@ + s.python_bin + " -m venv`: "@ + m),
        ),
        (VenvPhase::Creating, VenvEventView::Ran(OutcomeView::Succeeded)) => venv_finish(
            s,
            Ok(s.paths.venv_path),
        ),
        (VenvPhase::Creating, _) => venv_go(s, VenvPhase::CheckingFailed, VenvStepView::CheckExists),
        (VenvPhase::CheckingFailed, VenvEventView::Exists(true)) => venv_go(
            s,
            VenvPhase::RemovingFailed,
            VenvStepView::Remove,
        ),
        (VenvPhase::CheckingFailed, _) => venv_go(s, VenvPhase::CreatingBare, bare),
        (VenvPhase::RemovingFailed, VenvEventView::Removed(Err(m))) => venv_finish(
            s,
            Err("Failed to remove failed venv: "@ + m),
        ),
        (VenvPhase::RemovingFailed, _) => venv_go(s, VenvPhase::CreatingBare, bare),
        (VenvPhase::CreatingBare, VenvEventView::Ran(OutcomeView::NotRun(m))) => venv_finish(
            s,
            Err("Failed to create venv --without-pip: "@ + m),
        ),
        (VenvPhase::CreatingBare, VenvEventView::Ran(OutcomeView::Failed(m))) => venv_finish(
            s,
            Err("Failed to create venv: "@ + m),
        ),
        (VenvPhase::CreatingBare, _) => venv_finish(s, Ok(s.paths.venv_path)),
        (VenvPhase::Finished, _) => (s, VenvStepView::Finished(Ok(s.paths.venv_path))),
    }
}

/// The making of the virtual environment `venv_dir` of a docs folder.
pub struct VenvRun {
    phase: VenvPhase,
    python_bin: String,
    paths: VenvPaths,
}

impl View for VenvRun {
    type V = VenvView;

    closed spec fn view(&self) -> VenvView {
        VenvView { phase: self.phase, python_bin: self.python_bin@, paths: venv_view(self.paths) }
    }
}

fn venv_command(python_bin: &str, venv_path: &str, bare: bool) -> (r: CommandLine)
    ensures
        command_view(r) == venv_command_spec(python_bin@, venv_path@, bare),
{
    let mut args: Vec<String> = args1("-m");
    push_arg(&mut args, String::from_str("venv"));
    if bare {
        push_arg(&mut args, String::from_str("--without-pip"));
    }
    push_arg(&mut args, String::from_str(venv_path));
    proof {
        if bare {
            assert(args_view(args@) =~= seq!["-m"@, "venv"@, "--without-pip"@, venv_path@]);
        } else {
            assert(args_view(args@) =~= seq!["-m"@, "venv"@, venv_path@]);
        }
    }
    CommandLine { program: String::from_str(python_bin), args }
}

impl VenvRun {
    /// The making of the environment `venv_dir` under `docs_path` with
    /// `python_bin`; the first step looks for a usable environment.
    pub fn start(docs_path: &str, venv_dir: &str, python_bin: &str) -> (r: (VenvRun, VenvStep))
        ensures
            venv_paths_spec(docs_path@, venv_dir@, r.0.paths()),
            r.0@.phase == VenvPhase::CheckingUsable,
            r.0@.python_bin == python_bin@,
            r.0@.paths == venv_view(r.0.paths()),
            r.1 is CheckUsable,
    {
        let paths: VenvPaths = plan_venv_paths(docs_path, venv_dir);
        (
            VenvRun { phase: VenvPhase::CheckingUsable, python_bin: String::from_str(python_bin), paths },
            VenvStep::CheckUsable,
        )
    }

    /// The environment's files.
    pub closed spec fn paths(&self) -> VenvPaths {
        self.paths
    }

    /// The environment's files.
    pub fn files(&self) -> (r: &VenvPaths)
        ensures
            *r == self.paths(),
            venv_view(*r) == self@.paths,
    {
        &self.paths
    }

    /// Whether this event is the one the making waits for.
    pub fn accepts(&self, event: &VenvEvent) -> (r: bool)
        ensures
            r == venv_fits(self@.phase, venv_event_view(*event)),
    {
        match (self.phase, event) {
            (VenvPhase::CheckingUsable, VenvEvent::Usable(_)) => true,
            (VenvPhase::CheckingLeftover, VenvEvent::Exists(_)) => true,
            (VenvPhase::RemovingLeftover, VenvEvent::Removed(_)) => true,
            (VenvPhase::Creating, VenvEvent::Ran(_)) => true,
            (VenvPhase::CheckingFailed, VenvEvent::Exists(_)) => true,
            (VenvPhase::RemovingFailed, VenvEvent::Removed(_)) => true,
            (VenvPhase::CreatingBare, VenvEvent::Ran(_)) => true,
            _ => false,
        }
    }

    fn go(&mut self, phase: VenvPhase, step: VenvStep) -> (r: VenvStep)
        ensures
            (final(self)@, venv_step_view(r)) == venv_go(old(self)@, phase, venv_step_view(step)),
    {
        self.phase = phase;
        step
    }

    fn done(&mut self, r: Result<String, String>) -> (step: VenvStep)
        ensures
            (final(self)@, venv_step_view(step)) == venv_finish(
                old(self)@,
                match r {
                    Ok(p) => Ok(p@),
                    Err(m) => Err(m@),
                },
            ),
    {
        self.phase = VenvPhase::Finished;
        VenvStep::Finished(r)
    }

    /// Takes what happened and says what to do next.
    pub fn on_event(&mut self, event: VenvEvent) -> (r: VenvStep)
        requires
            venv_fits(old(self)@.phase, venv_event_view(event)),
        ensures
            (final(self)@, venv_step_view(r)) == venv_next_spec(old(self)@, venv_event_view(event)),
    {
        let folder: String = self.paths.venv_path.clone();
        match (self.phase, event) {
            (VenvPhase::CheckingUsable, VenvEvent::Usable(true)) => self.done(Ok(folder)),
            (VenvPhase::CheckingUsable, _) => self.go(VenvPhase::CheckingLeftover, VenvStep::CheckExists),
            (VenvPhase::CheckingLeftover, VenvEvent::Exists(true)) => self.go(
                VenvPhase::RemovingLeftover,
                VenvStep::Remove,
            ),
            (VenvPhase::CheckingLeftover, _) => {
                let c: CommandLine = venv_command(self.python_bin.as_str(), folder.as_str(), false);
                self.go(VenvPhase::Creating, VenvStep::Run(c))
            },
            (VenvPhase::RemovingLeftover, VenvEvent::Removed(Err(m))) => self.done(
                Err(cat("Failed to remove incomplete venv: ", m.as_str())),
            ),
            (VenvPhase::RemovingLeftover, _) => {
                let c: CommandLine = venv_command(self.python_bin.as_str(), folder.as_str(), false);
                self.go(VenvPhase::Creating, VenvStep::Run(c))
            },
            (VenvPhase::Creating, VenvEvent::Ran(CommandOutcome::NotRun(m))) => {
                let head: String = cat3("Failed to run `", self.python_bin.as_str(), " -m venv`: ");
                self.done(Err(cat(head.as_str(), m.as_str())))
            },
            (VenvPhase::Creating, VenvEvent::Ran(CommandOutcome::Succeeded)) => self.done(Ok(folder)),
            (VenvPhase::Creating, _) => self.go(VenvPhase::CheckingFailed, VenvStep::CheckExists),
            (VenvPhase::CheckingFailed, VenvEvent::Exists(true)) => self.go(
                VenvPhase::RemovingFailed,
                VenvStep::Remove,
            ),
            (VenvPhase::CheckingFailed, _) => {
                let c: CommandLine = venv_command(self.python_bin.as_str(), folder.as_str(), true);
                self.go(VenvPhase::CreatingBare, VenvStep::Run(c))
            },
            (VenvPhase::RemovingFailed, VenvEvent::Removed(Err(m))) => self.done(
                Err(cat("Failed to remove failed venv: ", m.as_str())),
            ),
            (VenvPhase::RemovingFailed, _) => {
                let c: CommandLine = venv_command(self.python_bin.as_str(), folder.as_str(), true);
                self.go(VenvPhase::CreatingBare, VenvStep::Run(c))
            },
            (VenvPhase::CreatingBare, VenvEvent::Ran(CommandOutcome::NotRun(m))) => self.done(
                Err(cat("Failed to create venv --without-pip: ", m.as_str())),
            ),
            (VenvPhase::CreatingBare, VenvEvent::Ran(CommandOutcome::Failed(m))) => self.done(
                Err(cat("Failed to create venv: ", m.as_str())),
            ),
            (VenvPhase::CreatingBare, _) => self.done(Ok(folder)),
            (VenvPhase::Finished, _) => VenvStep::Finished(Ok(folder)),
        }
    }
}

/// A successful making always yields the environment's own folder, and a new
/// environment is made only after a usable one was looked for and not found.
pub proof fn lemma_venv_yields_its_folder(s: VenvView, e: VenvEventView)
    requires
        venv_fits(s.phase, e),
    ensures
        venv_next_spec(s, e).1 matches VenvStepView::Finished(Ok(p)) ==> p == s.paths.venv_path,
        venv_next_spec(s, e).1 is Run ==> s.phase != VenvPhase::CheckingUsable,
{
}

// ---------------------------------------------------------------- pip
/// Where putting `pip` into the environment stands.
#[derive(Clone, Copy, Debug, PartialEq, Eq, Structural)]
pub enum PipPhase {
    /// Looking for the environment's `pip`.
    CheckingPip,
    /// Running `python -m ensurepip --upgrade`.
    RunningEnsurepip,
    /// Downloading `get-pip.py`.
    Downloading,
    /// Running `get-pip.py`.
    RunningGetPip,
    /// Removing `get-pip.py`.
    RemovingGetPip,
    /// Upgrading `pip`, `setuptools` and `wheel`.
    Upgrading,
    /// Done.
    Finished,
}

/// What happened since the last step.
pub enum PipEvent {
    /// Whether the environment's `pip` exists.
    Exists(bool),
    /// How the command asked for ended.
    Ran(CommandOutcome),
    /// `get-pip.py` was saved, or why not.
    Downloaded(Result<(), String>),
    /// `get-pip.py` was removed (whatever came of it).
    Removed,
}

/// What the caller is to do next.
pub enum PipStep {
    /// Report whether the environment's `pip` exists.
    CheckPip,
    /// Run this command.
    Run(CommandLine),
    /// Download `get-pip.py` into the environment.
    DownloadGetPip,
    /// Remove `get-pip.py`.
    RemoveGetPip,
    /// Done, or why `pip` could not be provided.
    Finished(Result<(), String>),
}

/// The text of an event.
pub enum PipEventView {
    Exists(bool),
    Ran(OutcomeView),
    Downloaded(Result<(), Seq<char>>),
    Removed,
}

/// The text of a step.
pub enum PipStepView {
    CheckPip,
    Run((Seq<char>, Seq<Seq<char>>)),
    DownloadGetPip,
    RemoveGetPip,
    Finished(Result<(), Seq<char>>),
}

/// The text of the state: the phase, whether to upgrade, the environment's
/// files, and the error output of a failed `get-pip.py` awaiting its removal.
pub struct PipView {
    pub phase: PipPhase,
    pub upgrade: bool,
    pub paths: VenvPathsView,
    pub pending: Option<Seq<char>>,
}

/// The text of an event.
pub open spec fn pip_event_view(e: PipEvent) -> PipEventView {
    match e {
        PipEvent::Exists(b) => PipEventView::Exists(b),
        PipEvent::Ran(o) => PipEventView::Ran(outcome_view(o)),
        PipEvent::Downloaded(Ok(())) => PipEventView::Downloaded(Ok(())),
        PipEvent::Downloaded(Err(m)) => PipEventView::Downloaded(Err(m@)),
        PipEvent::Removed => PipEventView::Removed,
    }
}

/// The text of a step.
pub open spec fn pip_step_view(s: PipStep) -> PipStepView {
    match s {
        PipStep::CheckPip => PipStepView::CheckPip,
        PipStep::Run(c) => PipStepView::Run(command_view(c)),
        PipStep::DownloadGetPip => PipStepView::DownloadGetPip,
        PipStep::RemoveGetPip => PipStepView::RemoveGetPip,
        PipStep::Finished(Ok(())) => PipStepView::Finished(Ok(())),
        PipStep::Finished(Err(m)) => PipStepView::Finished(Err(m@)),
    }
}

/// The event is the one the phase waits for.
pub open spec fn pip_fits(phase: PipPhase, e: PipEventView) -> bool {
    match (phase, e) {
        (PipPhase::CheckingPip, PipEventView::Exists(_)) => true,
        (PipPhase::RunningEnsurepip, PipEventView::Ran(_)) => true,
        (PipPhase::Downloading, PipEventView::Downloaded(_)) => true,
        (PipPhase::RunningGetPip, PipEventView::Ran(_)) => true,
        (PipPhase::RemovingGetPip, PipEventView::Removed) => true,
        (PipPhase::Upgrading, PipEventView::Ran(_)) => true,
        _ => false,
    }
}

/// `python -m ensurepip --upgrade`.
pub open spec fn ensurepip_spec(python: Seq<char>) -> (Seq<char>, Seq<Seq<char>>) {
    (python, seq!["-m"@, "ensurepip"@, "--upgrade"@])
}

/// `python get-pip.py`.
pub open spec fn get_pip_spec(python: Seq<char>, get_pip: Seq<char>) -> (Seq<char>, Seq<Seq<char>>) {
    (python, seq![get_pip])
}

/// `python -m pip install --upgrade pip setuptools wheel`.
pub open spec fn upgrade_spec(python: Seq<char>) -> (Seq<char>, Seq<Seq<char>>) {
    (python, seq!["-m"@, "pip"@, "install"@, "--upgrade"@, "pip"@, "setuptools"@, "wheel"@])
}

/// The state and step once `pip` is there: the upgrade where it is asked for, else done.
pub open spec fn pip_present(s: PipView) -> (PipView, PipStepView) {
    if s.upgrade {
        (PipView { phase: PipPhase::Upgrading, ..s }, PipStepView::Run(upgrade_spec(s.paths.python)))
    } else {
        (PipView { phase: PipPhase::Finished, ..s }, PipStepView::Finished(Ok(())))
    }
}

/// The state after the work ends with this outcome.
pub open spec fn pip_finish(s: PipView, r: Result<(), Seq<char>>) -> (PipView, PipStepView) {
    (PipView { phase: PipPhase::Finished, ..s }, PipStepView::Finished(r))
}

/// The next state and step: where `pip` is missing, `ensurepip` runs; where
/// that fails, `get-pip.py` is downloaded and run, then removed; once `pip` is
/// there, it is upgraded with `setuptools` and `wheel` where that is asked
/// for. Each failure ends the work with its reason.
pub open spec fn pip_next_spec(s: PipView, e: PipEventView) -> (PipView, PipStepView) {
    match (s.phase, e) {
        (PipPhase::CheckingPip, PipEventView::Exists(true)) => pip_present(s),
        (PipPhase::CheckingPip, _) => (
            PipView { phase: PipPhase::RunningEnsurepip, ..s },
            PipStepView::Run(ensurepip_spec(s.paths.python)),
        ),
        (PipPhase::RunningEnsurepip, PipEventView::Ran(OutcomeView::NotRun(m))) => pip_finish(
            s,
            Err("Failed to run ensurepip: "@ + m),
        ),
        (PipPhase::RunningEnsurepip, PipEventView::Ran(OutcomeView::Succeeded)) => pip_present(s),
        (PipPhase::RunningEnsurepip, _) => (
            PipView { phase: PipPhase::Downloading, ..s },
            PipStepView::DownloadGetPip,
        ),
        (PipPhase::Downloading, PipEventView::Downloaded(Err(m))) => pip_finish(s, Err(m)),
        (PipPhase::Downloading, _) => (
            PipView { phase: PipPhase::RunningGetPip, ..s },
            PipStepView::Run(get_pip_spec(s.paths.python, s.paths.get_pip)),
        ),
        (PipPhase::RunningGetPip, PipEventView::Ran(OutcomeView::NotRun(m))) => pip_finish(
            s,
            Err("Failed to run get-pip.py: "@ + m),
        ),
        (PipPhase::RunningGetPip, PipEventView::Ran(OutcomeView::Failed(m))) => (
            PipView { phase: PipPhase::RemovingGetPip, pending: Some(m), ..s },
            PipStepView::RemoveGetPip,
        ),
        (PipPhase::RunningGetPip, _) => (
            PipView { phase: PipPhase::RemovingGetPip, pending: None, ..s },
            PipStepView::RemoveGetPip,
        ),
        (PipPhase::RemovingGetPip, _) => match s.pending {
            Some(m) => pip_finish(s, Err("get-pip.py failed: "@ + m)),
            None => pip_present(s),
        },
        (PipPhase::Upgrading, PipEventView::Ran(OutcomeView::NotRun(m))) => pip_finish(
            s,
            Err("Failed to upgrade pip: "@ + m),
        ),
        (PipPhase::Upgrading, PipEventView::Ran(OutcomeView::Failed(m))) => pip_finish(
            s,
            Err("pip upgrade failed: "@ + m),
        ),
        (PipPhase::Upgrading, _) => pip_finish(s, Ok(())),
        (PipPhase::Finished, _) => (s, PipStepView::Finished(Ok(()))),
    }
}

/// Putting `pip` into a docs folder's virtual environment.
pub struct PipRun {
    phase: PipPhase,
    upgrade: bool,
    paths: VenvPaths,
    pending: Option<String>,
}

impl View for PipRun {
    type V = PipView;

    closed spec fn view(&self) -> PipView {
        PipView {
            phase: self.phase,
            upgrade: self.upgrade,
            paths: venv_view(self.paths),
            pending: match self.pending {
                Some(m) => Some(m@),
                None => None,
            },
        }
    }
}

fn ensurepip_command(python: &str) -> (r: CommandLine)
    ensures
        command_view(r) == ensurepip_spec(python@),
{
    let mut args: Vec<String> = args1("-m");
    push_arg(&mut args, String::from_str("ensurepip"));
    push_arg(&mut args, String::from_str("--upgrade"));
    assert(args_view(args@) =~= seq!["-m"@, "ensurepip"@, "--upgrade"@]);
    CommandLine { program: String::from_str(python), args }
}

fn get_pip_command(python: &str, get_pip: &str) -> (r: CommandLine)
    ensures
        command_view(r) == get_pip_spec(python@, get_pip@),
{
    let args: Vec<String> = args1(get_pip);
    CommandLine { program: String::from_str(python), args }
}

fn upgrade_command(python: &str) -> (r: CommandLine)
    ensures
        command_view(r) == upgrade_spec(python@),
{
    let mut args: Vec<String> = args1("-m");
    push_arg(&mut args, String::from_str("pip"));
    push_arg(&mut args, String::from_str("install"));
    push_arg(&mut args, String::from_str("--upgrade"));
    push_arg(&mut args, String::from_str("pip"));
    push_arg(&mut args, String::from_str("setuptools"));
    push_arg(&mut args, String::from_str("wheel"));
    assert(args_view(args@) =~= seq![
        "-m"@,
        "pip"@,
        "install"@,
        "--upgrade"@,
        "pip"@,
        "setuptools"@,
        "wheel"@,
    ]);
    CommandLine { program: String::from_str(python), args }
}

impl PipRun {
    /// Putting `pip` into the environment `venv_dir` under `docs_path`,
    /// upgrading it where `upgrade`; the first step looks for `pip`.
    pub fn start(docs_path: &str, venv_dir: &str, upgrade: bool) -> (r: (PipRun, PipStep))
        ensures
            venv_paths_spec(docs_path@, venv_dir@, r.0.paths()),
            r.0@.phase == PipPhase::CheckingPip,
            r.0@.upgrade == upgrade,
            r.0@.paths == venv_view(r.0.paths()),
            r.0@.pending is None,
            r.1 is CheckPip,
    {
        let paths: VenvPaths = plan_venv_paths(docs_path, venv_dir);
        (PipRun { phase: PipPhase::CheckingPip, upgrade, paths, pending: None }, PipStep::CheckPip)
    }

    /// The environment's files.
    pub closed spec fn paths(&self) -> VenvPaths {
        self.paths
    }

    /// The environment's files.
    pub fn files(&self) -> (r: &VenvPaths)
        ensures
            *r == self.paths(),
            venv_view(*r) == self@.paths,
    {
        &self.paths
    }

    /// Whether this event is the one the work waits for.
    pub fn accepts(&self, event: &PipEvent) -> (r: bool)
        ensures
            r == pip_fits(self@.phase, pip_event_view(*event)),
    {
        match (self.phase, event) {
            (PipPhase::CheckingPip, PipEvent::Exists(_)) => true,
            (PipPhase::RunningEnsurepip, PipEvent::Ran(_)) => true,
            (PipPhase::Downloading, PipEvent::Downloaded(_)) => true,
            (PipPhase::RunningGetPip, PipEvent::Ran(_)) => true,
            (PipPhase::RemovingGetPip, PipEvent::Removed) => true,
            (PipPhase::Upgrading, PipEvent::Ran(_)) => true,
            _ => false,
        }
    }

    fn present(&mut self) -> (r: PipStep)
        ensures
            (final(self)@, pip_step_view(r)) == pip_present(old(self)@),
    {
        if self.upgrade {
            let c: CommandLine = upgrade_command(self.paths.python.as_str());
            self.phase = PipPhase::Upgrading;
            PipStep::Run(c)
        } else {
            self.phase = PipPhase::Finished;
            PipStep::Finished(Ok(()))
        }
    }

    fn done(&mut self, r: Result<(), String>) -> (step: PipStep)
        ensures
            (final(self)@, pip_step_view(step)) == pip_finish(
                old(self)@,
                match r {
                    Ok(()) => Ok(()),
                    Err(m) => Err(m@),
                },
            ),
    {
        self.phase = PipPhase::Finished;
        PipStep::Finished(r)
    }

    /// Takes what happened and says what to do next.
    pub fn on_event(&mut self, event: PipEvent) -> (r: PipStep)
        requires
            pip_fits(old(self)@.phase, pip_event_view(event)),
        ensures
            (final(self)@, pip_step_view(r)) == pip_next_spec(old(self)@, pip_event_view(event)),
    {
        match (self.phase, event) {
            (PipPhase::CheckingPip, PipEvent::Exists(true)) => self.present(),
            (PipPhase::CheckingPip, _) => {
                let c: CommandLine = ensurepip_command(self.paths.python.as_str());
                self.phase = PipPhase::RunningEnsurepip;
                PipStep::Run(c)
            },
            (PipPhase::RunningEnsurepip, PipEvent::Ran(CommandOutcome::NotRun(m))) => self.done(
                Err(cat("Failed to run ensurepip: ", m.as_str())),
            ),
            (PipPhase::RunningEnsurepip, PipEvent::Ran(CommandOutcome::Succeeded)) => self.present(),
            (PipPhase::RunningEnsurepip, _) => {
                self.phase = PipPhase::Downloading;
                PipStep::DownloadGetPip
            },
            (PipPhase::Downloading, PipEvent::Downloaded(Err(m))) => self.done(Err(m)),
            (PipPhase::Downloading, _) => {
                let c: CommandLine = get_pip_command(
                    self.paths.python.as_str(),
                    self.paths.get_pip.as_str(),
                );
                self.phase = PipPhase::RunningGetPip;
                PipStep::Run(c)
            },
            (PipPhase::RunningGetPip, PipEvent::Ran(CommandOutcome::NotRun(m))) => self.done(
                Err(cat("Failed to run get-pip.py: ", m.as_str())),
            ),
            (PipPhase::RunningGetPip, PipEvent::Ran(CommandOutcome::Failed(m))) => {
                self.phase = PipPhase::RemovingGetPip;
                self.pending = Some(m);
                PipStep::RemoveGetPip
            },
            (PipPhase::RunningGetPip, _) => {
                self.phase = PipPhase::RemovingGetPip;
                self.pending = None;
                PipStep::RemoveGetPip
            },
            (PipPhase::RemovingGetPip, _) => {
                let failure: Option<String> = match &self.pending {
                    Some(m) => Some(cat("get-pip.py failed: ", m.as_str())),
                    None => None,
                };
                match failure {
                    Some(msg) => self.done(Err(msg)),
                    None => self.present(),
                }
            },
            (PipPhase::Upgrading, PipEvent::Ran(CommandOutcome::NotRun(m))) => self.done(
                Err(cat("Failed to upgrade pip: ", m.as_str())),
            ),
            (PipPhase::Upgrading, PipEvent::Ran(CommandOutcome::Failed(m))) => self.done(
                Err(cat("pip upgrade failed: ", m.as_str())),
            ),
            (PipPhase::Upgrading, _) => self.done(Ok(())),
            (PipPhase::Finished, _) => PipStep::Finished(Ok(())),
        }
    }
}

/// `pip` is upgraded only where that is asked for, and a `get-pip.py` that
/// ran is always removed before the work ends.
pub proof fn lemma_pip_upgrade_and_cleanup(s: PipView, e: PipEventView)
    requires
        pip_fits(s.phase, e),
    ensures
        pip_next_spec(s, e).0.phase == PipPhase::Upgrading ==> s.upgrade,
        s.phase == PipPhase::RunningGetPip && !(e matches PipEventView::Ran(OutcomeView::NotRun(_)))
            ==> pip_next_spec(s, e).1 is RemoveGetPip,
{
}


/// Making a virtual environment fails only on a failure: every error it ends
/// with follows a removal that failed or a command that did not succeed; a
/// `python -m venv` (or its `--without-pip` retry) that succeeds, like a
/// usable environment found in place, ends it with the environment's folder.
pub proof fn lemma_venv_fails_only_on_failure(s: VenvView, e: VenvEventView)
    requires
        venv_fits(s.phase, e),
    ensures
        (venv_next_spec(s, e).1 is Finished && venv_next_spec(s, e).1->Finished_0 is Err) ==> ((
        e is Removed && e->Removed_0 is Err) || (e is Ran && !(e->Ran_0 is Succeeded))),
        (s.phase == VenvPhase::Creating && e == VenvEventView::Ran(OutcomeView::Succeeded))
            ==> venv_next_spec(s, e).1 == VenvStepView::Finished(Ok(s.paths.venv_path)),
        (s.phase == VenvPhase::CreatingBare && e == VenvEventView::Ran(OutcomeView::Succeeded))
            ==> venv_next_spec(s, e).1 == VenvStepView::Finished(Ok(s.paths.venv_path)),
        (s.phase == VenvPhase::CheckingUsable && e == VenvEventView::Usable(true))
            ==> venv_next_spec(s, e).1 == VenvStepView::Finished(Ok(s.paths.venv_path)),
        (s.phase == VenvPhase::CheckingUsable && e == VenvEventView::Usable(false))
            ==> venv_next_spec(s, e).1 == VenvStepView::CheckExists,
        (s.phase == VenvPhase::Creating && e is Ran && e->Ran_0 is Failed)
            ==> venv_next_spec(s, e).1 == VenvStepView::CheckExists,
{
}

/// The commands that make an environment: `python -m venv <folder>` once no
/// unusable environment is left in the way (found absent, or removed), and
/// `python -m venv --without-pip <folder>` once what a failed first attempt
/// left is gone.
pub proof fn lemma_venv_commands(s: VenvView, e: VenvEventView)
    requires
        venv_fits(s.phase, e),
    ensures
        ((s.phase == VenvPhase::CheckingLeftover && e == VenvEventView::Exists(false)) || (s.phase
            == VenvPhase::RemovingLeftover && e == VenvEventView::Removed(Ok(()))))
            ==> venv_next_spec(s, e).1 == VenvStepView::Run(
            (s.python_bin, seq!["-m"@, "venv"@, s.paths.venv_path]),
        ),
        ((s.phase == VenvPhase::CheckingFailed && e == VenvEventView::Exists(false)) || (s.phase
            == VenvPhase::RemovingFailed && e == VenvEventView::Removed(Ok(()))))
            ==> venv_next_spec(s, e).1 == VenvStepView::Run(
            (s.python_bin, seq!["-m"@, "venv"@, "--without-pip"@, s.paths.venv_path]),
        ),
        ((s.phase == VenvPhase::CheckingLeftover || s.phase == VenvPhase::CheckingFailed) && e
            == VenvEventView::Exists(true)) ==> venv_next_spec(s, e).1 == VenvStepView::Remove,
{
}

/// Putting `pip` in place fails only on a failure: every error follows a
/// command that did not succeed or a download that failed; a `pip` found in
/// place, or an `ensurepip` or `get-pip.py` that succeeded, leads to the
/// upgrade where it is asked for, else to success; a successful upgrade ends
/// in success.
pub proof fn lemma_pip_fails_only_on_failure(s: PipView, e: PipEventView)
    requires
        pip_fits(s.phase, e),
    ensures
        (pip_next_spec(s, e).1 is Finished && pip_next_spec(s, e).1->Finished_0 is Err) ==> ((e is Ran
            && !(e->Ran_0 is Succeeded)) || (e is Downloaded && e->Downloaded_0 is Err) || (e
            is Removed && s.pending is Some)),
        ((s.phase == PipPhase::CheckingPip && e == PipEventView::Exists(true)) || (s.phase
            == PipPhase::RunningEnsurepip && e == PipEventView::Ran(OutcomeView::Succeeded))
            || (s.phase == PipPhase::RemovingGetPip && s.pending is None)) ==> pip_next_spec(s, e).1
            == (if s.upgrade {
            PipStepView::Run(
                (
                    s.paths.python,
                    seq![
                        "-m"@,
                        "pip"@,
                        "install"@,
                        "--upgrade"@,
                        "pip"@,
                        "setuptools"@,
                        "wheel"@,
                    ],
                ),
            )
        } else {
            PipStepView::Finished(Ok(()))
        }),
        (s.phase == PipPhase::Upgrading && e == PipEventView::Ran(OutcomeView::Succeeded))
            ==> pip_next_spec(s, e).1 == PipStepView::Finished(Ok(())),
        (s.phase == PipPhase::CheckingPip && e == PipEventView::Exists(false)) ==> pip_next_spec(
            s,
            e,
        ).1 == PipStepView::Run((s.paths.python, seq!["-m"@, "ensurepip"@, "--upgrade"@])),
        (s.phase == PipPhase::Downloading && e == PipEventView::Downloaded(Ok(()))) ==> pip_next_spec(
            s,
            e,
        ).1 == PipStepView::Run((s.paths.python, seq![s.paths.get_pip])),
{
}

} // verus!
