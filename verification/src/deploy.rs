//! Deployment planning: where repositories and builds live, the commands that
//! sync, build and publish them, and the retry schedule of a deployment.
use vstd::prelude::*;

use crate::config::ResolvedSshConfig;
use crate::headers::opt_view;
use crate::venv::{command_view, outcome_view, CommandOutcome, OutcomeView};
use crate::text::{
    lemma_strip_own_prefix, lemma_trim_end_absent,
    decimal, decimal_spec, strip_prefix, strip_prefix_spec, trim_end_char, trim_end_char_spec,
};

verus! {

/// Attempts after the first that a failed deployment gets.
pub const MAX_RETRIES: u32 = 2;

/// Seconds between deployment attempts.
pub const RETRY_DELAY_SECS: u64 = 300;

/// Seconds a git command may run.
pub const GIT_TIMEOUT_SECS: u64 = 120;

/// How builds use a Python virtual environment.
pub struct VenvSettings<'a> {
    pub use_venv: bool,
    pub venv_dir: &'a str,
    pub python_bin: &'a str,
    pub upgrade_pip: bool,
}

pub(crate) fn cat(a: &str, b: &str) -> (r: String)
    ensures
        r@ == a@ + b@,
{
    let mut r: String = String::from_str(a);
    r.append(b);
    r
}

pub(crate) fn cat3(a: &str, b: &str, c: &str) -> (r: String)
    ensures
        r@ == a@ + b@ + c@,
{
    let mut r: String = cat(a, b);
    r.append(c);
    r
}

fn cat4(a: &str, b: &str, c: &str, d: &str) -> (r: String)
    ensures
        r@ == a@ + b@ + c@ + d@,
{
    let mut r: String = cat3(a, b, c);
    r.append(d);
    r
}

/// `name` under directory `dir`, whose trailing slashes are dropped.
pub open spec fn join_path(dir: Seq<char>, name: Seq<char>) -> Seq<char> {
    trim_end_char_spec(dir, '/') + "/"@ + name
}

/// `name` under directory `dir`.
pub fn join_path_exec(dir: &str, name: &str) -> (r: String)
    ensures
        r@ == join_path(dir@, name@),
{
    cat3(trim_end_char(dir, '/'), "/", name)
}

/// Where a repository is checked out: `repo_name` under `source_dir`.
pub fn repo_path(source_dir: &str, repo_name: &str) -> (r: String)
    ensures
        r@ == join_path(source_dir@, repo_name@),
{
    join_path_exec(source_dir, repo_name)
}

/// The branch that a ref names: the ref without `refs/heads/`, where it has that prefix.
pub open spec fn branch_name_spec(branch_ref: Seq<char>) -> Seq<char> {
    match strip_prefix_spec(branch_ref, "refs/heads/"@) {
        Some(b) => b,
        None => branch_ref,
    }
}

/// The branch that a ref names.
pub fn branch_name(branch_ref: &str) -> (r: &str)
    ensures
        r@ == branch_name_spec(branch_ref@),
{
    match strip_prefix(branch_ref, "refs/heads/") {
        Some(b) => b,
        None => branch_ref,
    }
}

/// The text of a list of arguments.
pub open spec fn args_view(args: Seq<String>) -> Seq<Seq<char>> {
    args.map_values(|a: String| a@)
}

pub(crate) fn args1(a: &str) -> (r: Vec<String>)
    ensures
        args_view(r@) == seq![a@],
{
    let mut v: Vec<String> = Vec::new();
    v.push(String::from_str(a));
    assert(args_view(v@) =~= seq![a@]);
    v
}

pub(crate) fn push_arg(v: &mut Vec<String>, a: String)
    ensures
        args_view(final(v)@) == args_view(old(v)@).push(a@),
{
    v.push(a);
    assert(args_view(v@) =~= args_view(old(v)@).push(a@));
}

/// The git commands that update an existing checkout: one `git pull` of the
/// branch from `origin`.
pub open spec fn git_update_spec(branch: Seq<char>) -> Seq<Seq<Seq<char>>> {
    seq![seq!["pull"@, "origin"@, branch]]
}

/// The git commands that update an existing checkout.
pub fn git_update_commands(branch: &str) -> (r: Vec<Vec<String>>)
    ensures
        r@.len() == 1,
        args_view(r@[0]@) == git_update_spec(branch@)[0],
{
    let mut pull: Vec<String> = args1("pull");
    push_arg(&mut pull, String::from_str("origin"));
    push_arg(&mut pull, String::from_str(branch));
    let ghost f = args_view(pull@);
    let mut r: Vec<Vec<String>> = Vec::new();
    r.push(pull);
    assert(f =~= git_update_spec(branch@)[0]);
    r
}

/// The arguments of the git command that clones a repository's branch.
pub fn git_clone_args(branch: &str, repo_url: &str, repo_path: &str) -> (r: Vec<String>)
    ensures
        args_view(r@) == seq!["clone"@, "--branch"@, branch@, repo_url@, repo_path@],
{
    let mut v: Vec<String> = args1("clone");
    push_arg(&mut v, String::from_str("--branch"));
    push_arg(&mut v, String::from_str(branch));
    push_arg(&mut v, String::from_str(repo_url));
    push_arg(&mut v, String::from_str(repo_path));
    assert(args_view(v@) =~= seq!["clone"@, "--branch"@, branch@, repo_url@, repo_path@]);
    v
}

/// The label of a git command in messages: `git` and its first argument.
pub open spec fn git_label_spec(args: Seq<Seq<char>>) -> Seq<char> {
    "git "@ + (if args.len() > 0 {
        args[0]
    } else {
        Seq::empty()
    })
}

/// The label of a git command in messages.
pub fn git_label(args: &Vec<String>) -> (r: String)
    ensures
        r@ == git_label_spec(args_view(args@)),
{
    if args.len() > 0 {
        cat("git ", args[0].as_str())
    } else {
        proof {
            reveal_strlit("");
        }
        cat("git ", "")
    }
}

/// The message of a git command that exited with failure.
pub fn git_failure_message(label: &str, stderr: &str) -> (r: String)
    ensures
        r@ == label@ + " failed: "@ + stderr@,
{
    cat3(label, " failed: ", stderr)
}

/// The message of a git command that ran out of time.
pub fn git_timeout_message(label: &str) -> (r: String)
    ensures
        r@ == label@ + " timed out after "@ + decimal_spec(GIT_TIMEOUT_SECS as nat) + "s"@,
{
    let secs: String = decimal(GIT_TIMEOUT_SECS);
    cat4(label, " timed out after ", secs.as_str(), "s")
}

/// The report of a finished sync.
pub fn sync_message(repo_name: &str, branch: &str) -> (r: String)
    ensures
        r@ == "Synced "@ + repo_name@ + " to branch "@ + branch@,
{
    cat4("Synced ", repo_name, " to branch ", branch)
}

/// The `docs` folder of a checkout.
pub fn docs_path(repo_path: &str) -> (r: String)
    ensures
        r@ == repo_path@ + "/docs"@,
{
    cat(repo_path, "/docs")
}

/// A file or folder directly under `dir` (taken as it is).
pub fn under(dir: &str, name: &str) -> (r: String)
    ensures
        r@ == dir@ + "/"@ + name@,
{
    cat3(dir, "/", name)
}

/// The report of a docs folder that is missing.
pub fn docs_missing_message(repo_name: &str) -> (r: String)
    ensures
        r@ == "docs folder not found in "@ + repo_name@,
{
    cat("docs folder not found in ", repo_name)
}

/// A program and its arguments.
pub struct CommandLine {
    pub program: String,
    pub args: Vec<String>,
}

/// The command that installs a docs folder's requirements: the virtual
/// environment's Python running `pip`, or `pip` itself without one.
pub open spec fn pip_install_spec(venv_path: Option<Seq<char>>, requirements: Seq<char>) -> (Seq<char>, Seq<Seq<char>>) {
    match venv_path {
        Some(v) => (v + "/bin/python"@, seq!["-m"@, "pip"@, "install"@, "-r"@, requirements]),
        None => ("pip"@, seq!["install"@, "-r"@, requirements]),
    }
}

/// The command that installs a docs folder's requirements.
pub fn pip_install_command(venv_path: Option<&str>, requirements: &str) -> (r: CommandLine)
    ensures
        (r.program@, args_view(r.args@)) == pip_install_spec(
            match venv_path {
                Some(v) => Some(v@),
                None => None,
            },
            requirements@,
        ),
{
    match venv_path {
        Some(v) => {
            let mut args: Vec<String> = args1("-m");
            push_arg(&mut args, String::from_str("pip"));
            push_arg(&mut args, String::from_str("install"));
            push_arg(&mut args, String::from_str("-r"));
            push_arg(&mut args, String::from_str(requirements));
            assert(args_view(args@) =~= seq!["-m"@, "pip"@, "install"@, "-r"@, requirements@]);
            CommandLine { program: cat(v, "/bin/python"), args }
        },
        None => {
            let mut args: Vec<String> = args1("install");
            push_arg(&mut args, String::from_str("-r"));
            push_arg(&mut args, String::from_str(requirements));
            assert(args_view(args@) =~= seq!["install"@, "-r"@, requirements@]);
            CommandLine { program: String::from_str("pip"), args }
        },
    }
}

/// The `PATH` a build runs with: the virtual environment's `bin` first, then
/// the existing `PATH` where it is set and not empty.
pub open spec fn venv_path_env_spec(venv_path: Seq<char>, existing: Option<Seq<char>>) -> Seq<char> {
    let bin = trim_end_char_spec(venv_path, '/') + "/bin"@;
    match existing {
        Some(e) => if e.len() > 0 {
            bin + ":"@ + e
        } else {
            bin
        },
        None => bin,
    }
}

/// The `PATH` a build runs with, given the current `PATH` where it is set.
pub fn venv_path_env(venv_path: &str, existing: Option<&str>) -> (r: String)
    ensures
        r@ == venv_path_env_spec(
            venv_path@,
            match existing {
                Some(e) => Some(e@),
                None => None,
            },
        ),
{
    let bin: String = cat(trim_end_char(venv_path, '/'), "/bin");
    match existing {
        Some(e) => if !e.is_empty() {
            cat3(bin.as_str(), ":", e)
        } else {
            bin
        },
        None => bin,
    }
}

/// The report of a finished build.
pub fn build_message(repo_name: &str, target_dir: &str) -> (r: String)
    ensures
        r@ == "Built and deployed "@ + repo_name@ + " to "@ + target_dir@,
{
    cat4("Built and deployed ", repo_name, " to ", target_dir)
}

/// Where and how a build is copied to the remote host.
pub struct SshPlan {
    pub local_path: String,
    pub remote_dir: String,
    pub remote_dest: String,
    pub login: String,
    pub ssh_command: String,
    pub remove_command: String,
    pub port: String,
}

/// The SSH deployment of a build: the local build folder (with a trailing
/// slash), the remote folder under the configured remote path, the rsync
/// destination `user@host:folder`, the login `user@host`, the ssh command
/// with the port, the remote removal command, and the port as text.
pub open spec fn ssh_plan_spec(
    deploy_dir: Seq<char>,
    repo_name: Seq<char>,
    remote_name: Seq<char>,
    ssh: ResolvedSshConfig,
    p: SshPlan,
) -> bool {
    let remote_dir = join_path(ssh.remote_path@, remote_name) + "/"@;
    &&& p.local_path@ == join_path(deploy_dir, repo_name) + "/"@
    &&& p.remote_dir@ == remote_dir
    &&& p.remote_dest@ == ssh.user@ + "@"@ + ssh.host@ + ":"@ + remote_dir
    &&& p.login@ == ssh.user@ + "@"@ + ssh.host@
    &&& p.ssh_command@ == "ssh -p "@ + decimal_spec(ssh.port as nat)
        + " -o StrictHostKeyChecking=no"@
    &&& p.remove_command@ == "rm -rf "@ + remote_dir
    &&& p.port@ == decimal_spec(ssh.port as nat)
}

/// Plans the SSH deployment of a build.
pub fn ssh_plan(deploy_dir: &str, repo_name: &str, remote_name: &str, ssh: &ResolvedSshConfig) -> (r:
    SshPlan)
    ensures
        ssh_plan_spec(deploy_dir@, repo_name@, remote_name@, *ssh, r),
{
    let local: String = join_path_exec(deploy_dir, repo_name);
    let local_path: String = cat(local.as_str(), "/");
    let remote: String = join_path_exec(ssh.remote_path.as_str(), remote_name);
    let remote_dir: String = cat(remote.as_str(), "/");
    let login: String = cat3(ssh.user.as_str(), "@", ssh.host.as_str());
    let remote_dest: String = cat3(login.as_str(), ":", remote_dir.as_str());
    let port: String = decimal(ssh.port as u64);
    let ssh_command: String = cat3("ssh -p ", port.as_str(), " -o StrictHostKeyChecking=no");
    let remove_command: String = cat("rm -rf ", remote_dir.as_str());
    SshPlan { local_path, remote_dir, remote_dest, login, ssh_command, remove_command, port }
}

/// The report of a finished SSH deployment.
pub fn ssh_message(repo_name: &str, remote_dest: &str) -> (r: String)
    ensures
        r@ == "SSH deployed "@ + repo_name@ + " to "@ + remote_dest@,
{
    cat4("SSH deployed ", repo_name, " to ", remote_dest)
}

/// The folder a build is copied to on the remote host: `remote_name` under
/// the configured remote path, with a trailing slash.
pub open spec fn remote_dir_spec(ssh: ResolvedSshConfig, remote_name: Seq<char>) -> Seq<char> {
    join_path(ssh.remote_path@, remote_name) + "/"@
}

/// `user@host`.
pub open spec fn login_spec(ssh: ResolvedSshConfig) -> Seq<char> {
    ssh.user@ + "@"@ + ssh.host@
}

/// The command that clears the remote folder first:
/// `sshpass -p <password> ssh -p <port> -o StrictHostKeyChecking=no user@host "rm -rf <folder>"`.
pub open spec fn ssh_remove_spec(ssh: ResolvedSshConfig, remote_name: Seq<char>) -> (Seq<char>, Seq<Seq<char>>) {
    (
        "sshpass"@,
        seq![
            "-p"@,
            ssh.password@,
            "ssh"@,
            "-p"@,
            decimal_spec(ssh.port as nat),
            "-o"@,
            "StrictHostKeyChecking=no"@,
            login_spec(ssh),
            "rm -rf "@ + remote_dir_spec(ssh, remote_name),
        ],
    )
}

/// The command that copies the build:
/// `sshpass -p <password> rsync -avz --delete --force --mkpath -e "ssh -p <port> -o StrictHostKeyChecking=no" <local>/ user@host:<folder>`.
pub open spec fn ssh_rsync_spec(
    deploy_dir: Seq<char>,
    repo_name: Seq<char>,
    remote_name: Seq<char>,
    ssh: ResolvedSshConfig,
) -> (Seq<char>, Seq<Seq<char>>) {
    (
        "sshpass"@,
        seq![
            "-p"@,
            ssh.password@,
            "rsync"@,
            "-avz"@,
            "--delete"@,
            "--force"@,
            "--mkpath"@,
            "-e"@,
            "ssh -p "@ + decimal_spec(ssh.port as nat) + " -o StrictHostKeyChecking=no"@,
            join_path(deploy_dir, repo_name) + "/"@,
            login_spec(ssh) + ":"@ + remote_dir_spec(ssh, remote_name),
        ],
    )
}

/// The two commands of an SSH deployment, in the order they run: the removal
/// of the remote folder, then the copy.
pub fn ssh_commands(deploy_dir: &str, repo_name: &str, remote_name: &str, ssh: &ResolvedSshConfig) -> (r: (
    CommandLine,
    CommandLine,
))
    ensures
        command_view(r.0) == ssh_remove_spec(*ssh, remote_name@),
        command_view(r.1) == ssh_rsync_spec(deploy_dir@, repo_name@, remote_name@, *ssh),
{
    let plan: SshPlan = ssh_plan(deploy_dir, repo_name, remote_name, ssh);
    let mut rm: Vec<String> = args1("-p");
    push_arg(&mut rm, ssh.password.clone());
    push_arg(&mut rm, String::from_str("ssh"));
    push_arg(&mut rm, String::from_str("-p"));
    push_arg(&mut rm, plan.port.clone());
    push_arg(&mut rm, String::from_str("-o"));
    push_arg(&mut rm, String::from_str("StrictHostKeyChecking=no"));
    push_arg(&mut rm, plan.login.clone());
    push_arg(&mut rm, plan.remove_command.clone());
    let mut rs: Vec<String> = args1("-p");
    push_arg(&mut rs, ssh.password.clone());
    push_arg(&mut rs, String::from_str("rsync"));
    push_arg(&mut rs, String::from_str("-avz"));
    push_arg(&mut rs, String::from_str("--delete"));
    push_arg(&mut rs, String::from_str("--force"));
    push_arg(&mut rs, String::from_str("--mkpath"));
    push_arg(&mut rs, String::from_str("-e"));
    push_arg(&mut rs, plan.ssh_command.clone());
    push_arg(&mut rs, plan.local_path.clone());
    push_arg(&mut rs, plan.remote_dest.clone());
    assert(args_view(rm@) =~= ssh_remove_spec(*ssh, remote_name@).1);
    assert(args_view(rs@) =~= ssh_rsync_spec(deploy_dir@, repo_name@, remote_name@, *ssh).1);
    (
        CommandLine { program: String::from_str("sshpass"), args: rm },
        CommandLine { program: String::from_str("sshpass"), args: rs },
    )
}

/// A copy of a list of arguments.
pub fn copy_args(args: &Vec<String>) -> (r: Vec<String>)
    ensures
        args_view(r@) == args_view(args@),
{
    let n: usize = args.len();
    let mut r: Vec<String> = Vec::new();
    let mut i: usize = 0;
    while i < n
        invariant
            n == args@.len(),
            i <= n,
            args_view(r@) == args_view(args@.take(i as int)),
        decreases n - i,
    {
        assert(args_view(args@.take(i + 1)) =~= args_view(args@.take(i as int)).push(args@[i as int]@));
        push_arg(&mut r, args[i].clone());
        i += 1;
    }
    assert(args@.take(n as int) =~= args@);
    r
}

/// A copy of a command line.
pub fn copy_command(c: &CommandLine) -> (r: CommandLine)
    ensures
        command_view(r) == command_view(*c),
{
    CommandLine { program: c.program.clone(), args: copy_args(&c.args) }
}

/// Where an SSH deployment stands.
#[derive(Clone, Copy, Debug, PartialEq, Eq, Structural)]
pub enum SshPhase {
    /// Clearing the remote folder.
    Removing,
    /// Copying the build with rsync.
    Copying,
    /// Done.
    Finished,
}

/// What the caller is to do next in an SSH deployment.
pub enum SshStep {
    /// Run this command.
    Run(CommandLine),
    /// Done, with this outcome.
    Finished(Result<String, String>),
}

/// The text of a step.
pub enum SshStepView {
    Run((Seq<char>, Seq<Seq<char>>)),
    Finished(Result<Seq<char>, Seq<char>>),
}

/// The text of an SSH deployment's state: its phase, the copy command still
/// to run, the repository's name and the copy's destination.
pub struct SshView {
    pub phase: SshPhase,
    pub rsync: (Seq<char>, Seq<Seq<char>>),
    pub repo_name: Seq<char>,
    pub remote_dest: Seq<char>,
}

/// The text of a step.
pub open spec fn ssh_step_view(s: SshStep) -> SshStepView {
    match s {
        SshStep::Run(c) => SshStepView::Run(command_view(c)),
        SshStep::Finished(Ok(m)) => SshStepView::Finished(Ok(m@)),
        SshStep::Finished(Err(m)) => SshStepView::Finished(Err(m@)),
    }
}

/// The SSH deployment of `repo_name`'s build as `remote_name`, about to clear
/// the remote folder.
pub open spec fn ssh_start_spec(
    deploy_dir: Seq<char>,
    repo_name: Seq<char>,
    remote_name: Seq<char>,
    ssh: ResolvedSshConfig,
) -> SshView {
    SshView {
        phase: SshPhase::Removing,
        rsync: ssh_rsync_spec(deploy_dir, repo_name, remote_name, ssh),
        repo_name,
        remote_dest: login_spec(ssh) + ":"@ + remote_dir_spec(ssh, remote_name),
    }
}

/// The next state and step of an SSH deployment: a removal that could not be
/// started ends it; a removal that ran is followed by the copy whatever it
/// reported; the copy's failure ends it with its reason, its success with
/// `SSH deployed <repo> to <destination>`.
pub open spec fn ssh_next_spec(s: SshView, o: OutcomeView) -> (SshView, SshStepView) {
    let done = SshView { phase: SshPhase::Finished, ..s };
    match (s.phase, o) {
        (SshPhase::Removing, OutcomeView::NotRun(m)) => (
            done,
            SshStepView::Finished(Err("Failed to remove remote directory: "@ + m)),
        ),
        (SshPhase::Removing, _) => (SshView { phase: SshPhase::Copying, ..s }, SshStepView::Run(s.rsync)),
        (SshPhase::Copying, OutcomeView::NotRun(m)) => (
            done,
            SshStepView::Finished(Err("Failed to run sshpass/rsync: "@ + m)),
        ),
        (SshPhase::Copying, OutcomeView::Failed(m)) => (
            done,
            SshStepView::Finished(Err("rsync failed: "@ + m)),
        ),
        (SshPhase::Copying, _) => (
            done,
            SshStepView::Finished(Ok("SSH deployed "@ + s.repo_name + " to "@ + s.remote_dest)),
        ),
        (SshPhase::Finished, _) => (s, SshStepView::Finished(Ok(Seq::empty()))),
    }
}

/// An SSH deployment in progress: clear the remote folder, then copy the build.
pub struct SshRun {
    phase: SshPhase,
    rsync: CommandLine,
    repo_name: String,
    remote_dest: String,
}

impl View for SshRun {
    type V = SshView;

    closed spec fn view(&self) -> SshView {
        SshView {
            phase: self.phase,
            rsync: command_view(self.rsync),
            repo_name: self.repo_name@,
            remote_dest: self.remote_dest@,
        }
    }
}

impl SshRun {
    /// The SSH deployment of `repo_name`'s build under `deploy_dir`, as
    /// `remote_name` on the configured host; the first step clears the remote folder.
    pub fn start(deploy_dir: &str, repo_name: &str, remote_name: &str, ssh: &ResolvedSshConfig) -> (r: (
        SshRun,
        SshStep,
    ))
        ensures
            r.0@ == ssh_start_spec(deploy_dir@, repo_name@, remote_name@, *ssh),
            ssh_step_view(r.1) == SshStepView::Run(ssh_remove_spec(*ssh, remote_name@)),
    {
        let plan: SshPlan = ssh_plan(deploy_dir, repo_name, remote_name, ssh);
        let (rm, rsync): (CommandLine, CommandLine) = ssh_commands(deploy_dir, repo_name, remote_name, ssh);
        (
            SshRun {
                phase: SshPhase::Removing,
                rsync,
                repo_name: String::from_str(repo_name),
                remote_dest: plan.remote_dest,
            },
            SshStep::Run(rm),
        )
    }

    /// The phase the deployment is in.
    pub fn phase(&self) -> (r: SshPhase)
        ensures
            r == self@.phase,
    {
        self.phase
    }

    /// Takes how the last command ended and says what to do next.
    pub fn on_event(&mut self, outcome: CommandOutcome) -> (r: SshStep)
        requires
            old(self)@.phase != SshPhase::Finished,
        ensures
            (final(self)@, ssh_step_view(r)) == ssh_next_spec(old(self)@, outcome_view(outcome)),
    {
        match (self.phase, outcome) {
            (SshPhase::Removing, CommandOutcome::NotRun(m)) => {
                self.phase = SshPhase::Finished;
                SshStep::Finished(Err(cat("Failed to remove remote directory: ", m.as_str())))
            },
            (SshPhase::Removing, _) => {
                self.phase = SshPhase::Copying;
                SshStep::Run(copy_command(&self.rsync))
            },
            (SshPhase::Copying, CommandOutcome::NotRun(m)) => {
                self.phase = SshPhase::Finished;
                SshStep::Finished(Err(cat("Failed to run sshpass/rsync: ", m.as_str())))
            },
            (SshPhase::Copying, CommandOutcome::Failed(m)) => {
                self.phase = SshPhase::Finished;
                SshStep::Finished(Err(cat("rsync failed: ", m.as_str())))
            },
            (SshPhase::Copying, _) => {
                self.phase = SshPhase::Finished;
                SshStep::Finished(Ok(ssh_message(self.repo_name.as_str(), self.remote_dest.as_str())))
            },
            (SshPhase::Finished, _) => SshStep::Finished(Ok(String::new())),
        }
    }
}

/// The copy always follows the removal of the remote folder, whatever the
/// removal reported, unless the removal could not be started at all; and an
/// SSH deployment succeeds only by a copy that succeeded.
pub proof fn lemma_ssh_copy_follows_removal(s: SshView, o: OutcomeView)
    requires
        s.phase != SshPhase::Finished,
    ensures
        s.phase == SshPhase::Removing && !(o is NotRun) ==> ssh_next_spec(s, o).1 == SshStepView::Run(
            s.rsync,
        ),
        ssh_next_spec(s, o).1 matches SshStepView::Finished(Ok(_)) ==> s.phase == SshPhase::Copying
            && o is Succeeded,
{
}

/// How a repository is brought to a branch: where its checkout is, which
/// branch, the git commands to run (a `git pull` in the checkout where it
/// exists, else a clone after the source folder is created), and the report
/// of success.
pub struct GitSyncPlan {
    pub repo_path: String,
    pub branch: String,
    pub clone: bool,
    pub commands: Vec<Vec<String>>,
    pub done_message: String,
}

/// The plan that syncs `repo_name` from `repo_url` to `branch_ref` under `source_dir`.
pub open spec fn git_sync_spec(
    source_dir: Seq<char>,
    repo_url: Seq<char>,
    repo_name: Seq<char>,
    branch_ref: Seq<char>,
    repo_exists: bool,
    p: GitSyncPlan,
) -> bool {
    let path = join_path(source_dir, repo_name);
    let branch = branch_name_spec(branch_ref);
    &&& p.repo_path@ == path
    &&& p.branch@ == branch
    &&& p.clone == !repo_exists
    &&& p.done_message@ == "Synced "@ + repo_name + " to branch "@ + branch
    &&& if repo_exists {
        &&& p.commands@.len() == 1
        &&& args_view(p.commands@[0]@) == seq!["pull"@, "origin"@, branch]
    } else {
        &&& p.commands@.len() == 1
        &&& args_view(p.commands@[0]@) == seq!["clone"@, "--branch"@, branch, repo_url, path]
    }
}

/// Plans the sync of a repository to a branch, given whether its checkout exists.
pub fn plan_git_sync(
    source_dir: &str,
    repo_url: &str,
    repo_name: &str,
    branch_ref: &str,
    repo_exists: bool,
) -> (r: GitSyncPlan)
    ensures
        git_sync_spec(source_dir@, repo_url@, repo_name@, branch_ref@, repo_exists, r),
{
    let repo_path: String = repo_path(source_dir, repo_name);
    let branch: &str = branch_name(branch_ref);
    let commands: Vec<Vec<String>> = if repo_exists {
        git_update_commands(branch)
    } else {
        let mut v: Vec<Vec<String>> = Vec::new();
        v.push(git_clone_args(branch, repo_url, repo_path.as_str()));
        v
    };
    let done_message: String = sync_message(repo_name, branch);
    GitSyncPlan {
        repo_path,
        branch: String::from_str(branch),
        clone: !repo_exists,
        commands,
        done_message,
    }
}

/// How a git command ended.
pub enum GitOutcome {
    /// It could not be started, for this reason.
    NotSpawned(String),
    /// Waiting for it failed, for this reason.
    WaitFailed(String),
    /// It exited with failure, with this error output.
    Failed(String),
    /// It ran out of time and was killed.
    TimedOut,
    /// It exited with success.
    Succeeded,
}

/// The text of a git command's outcome.
pub enum GitOutcomeView {
    NotSpawned(Seq<char>),
    WaitFailed(Seq<char>),
    Failed(Seq<char>),
    TimedOut,
    Succeeded,
}

/// The text of a git command's outcome.
pub open spec fn git_outcome_view(o: GitOutcome) -> GitOutcomeView {
    match o {
        GitOutcome::NotSpawned(m) => GitOutcomeView::NotSpawned(m@),
        GitOutcome::WaitFailed(m) => GitOutcomeView::WaitFailed(m@),
        GitOutcome::Failed(m) => GitOutcomeView::Failed(m@),
        GitOutcome::TimedOut => GitOutcomeView::TimedOut,
        GitOutcome::Succeeded => GitOutcomeView::Succeeded,
    }
}

/// The report of a git command that did not succeed, under its label.
pub open spec fn git_error_spec(label: Seq<char>, o: GitOutcomeView) -> Seq<char> {
    match o {
        GitOutcomeView::NotSpawned(m) => "Failed to spawn "@ + label + ": "@ + m,
        GitOutcomeView::WaitFailed(m) => "Failed waiting for "@ + label + ": "@ + m,
        GitOutcomeView::Failed(m) => label + " failed: "@ + m,
        _ => label + " timed out after "@ + decimal_spec(GIT_TIMEOUT_SECS as nat) + "s"@,
    }
}

fn git_error(label: &str, o: GitOutcome) -> (r: String)
    requires
        !(o is Succeeded),
    ensures
        r@ == git_error_spec(label@, git_outcome_view(o)),
{
    match o {
        GitOutcome::NotSpawned(m) => {
            let head: String = cat3("Failed to spawn ", label, ": ");
            cat(head.as_str(), m.as_str())
        },
        GitOutcome::WaitFailed(m) => {
            let head: String = cat3("Failed waiting for ", label, ": ");
            cat(head.as_str(), m.as_str())
        },
        GitOutcome::Failed(m) => git_failure_message(label, m.as_str()),
        _ => git_timeout_message(label),
    }
}

/// Where a sync stands.
#[derive(Clone, Copy, Debug, PartialEq, Eq, Structural)]
pub enum GitPhase {
    /// Creating the source folder before a clone.
    CreatingSource,
    /// Running the plan's git commands, one at a time.
    Running,
    /// Done.
    Finished,
}

/// What happened since the last step of a sync.
pub enum GitEvent {
    /// The source folder exists now, or why it could not be created.
    SourceCreated(Result<(), String>),
    /// How the git command asked for ended.
    Ran(GitOutcome),
}

/// What the caller is to do next in a sync.
pub enum GitStep {
    /// Create this folder and the folders above it.
    CreateSourceDir(String),
    /// Run git with these arguments, in this folder (else where the server
    /// runs), killing it after this many seconds.
    RunGit(Option<String>, Vec<String>, u64),
    /// Done, with this outcome.
    Finished(Result<String, String>),
}

/// The text of an event.
pub enum GitEventView {
    SourceCreated(Result<(), Seq<char>>),
    Ran(GitOutcomeView),
}

/// The text of a step.
pub enum GitStepView {
    CreateSourceDir(Seq<char>),
    RunGit(Option<Seq<char>>, Seq<Seq<char>>, u64),
    Finished(Result<Seq<char>, Seq<char>>),
}

/// The text of a sync's state: its phase, the folder its commands run in,
/// the commands, the index of the one running or next, and the report of success.
pub struct GitView {
    pub phase: GitPhase,
    pub dir: Option<Seq<char>>,
    pub commands: Seq<Seq<Seq<char>>>,
    pub index: nat,
    pub done_message: Seq<char>,
}

/// The text of an event.
pub open spec fn git_event_view(e: GitEvent) -> GitEventView {
    match e {
        GitEvent::SourceCreated(Ok(())) => GitEventView::SourceCreated(Ok(())),
        GitEvent::SourceCreated(Err(m)) => GitEventView::SourceCreated(Err(m@)),
        GitEvent::Ran(o) => GitEventView::Ran(git_outcome_view(o)),
    }
}

/// The text of a step.
pub open spec fn git_step_view(s: GitStep) -> GitStepView {
    match s {
        GitStep::CreateSourceDir(d) => GitStepView::CreateSourceDir(d@),
        GitStep::RunGit(d, a, t) => GitStepView::RunGit(opt_view(d), args_view(a@), t),
        GitStep::Finished(Ok(m)) => GitStepView::Finished(Ok(m@)),
        GitStep::Finished(Err(m)) => GitStepView::Finished(Err(m@)),
    }
}

/// The event is the one the phase waits for.
pub open spec fn git_fits(phase: GitPhase, e: GitEventView) -> bool {
    match (phase, e) {
        (GitPhase::CreatingSource, GitEventView::SourceCreated(_)) => true,
        (GitPhase::Running, GitEventView::Ran(_)) => true,
        _ => false,
    }
}

/// The step that runs the `i`-th command of a sync.
pub open spec fn git_run_step(s: GitView, i: nat) -> GitStepView {
    GitStepView::RunGit(s.dir, s.commands[i as int], GIT_TIMEOUT_SECS)
}

/// A sync of `repo_name` from `repo_url` to `branch_ref` under `source_dir`:
/// where the checkout exists, its `git pull` is to run in it; else the
/// source folder is to be created for the clone, which runs where the server runs.
pub open spec fn git_start_spec(
    source_dir: Seq<char>,
    repo_url: Seq<char>,
    repo_name: Seq<char>,
    branch_ref: Seq<char>,
    repo_exists: bool,
) -> (GitView, GitStepView) {
    let path = join_path(source_dir, repo_name);
    let branch = branch_name_spec(branch_ref);
    let done = "Synced "@ + repo_name + " to branch "@ + branch;
    if repo_exists {
        let s = GitView {
            phase: GitPhase::Running,
            dir: Some(path),
            commands: seq![seq!["pull"@, "origin"@, branch]],
            index: 0,
            done_message: done,
        };
        (s, git_run_step(s, 0))
    } else {
        (
            GitView {
                phase: GitPhase::CreatingSource,
                dir: None,
                commands: seq![seq!["clone"@, "--branch"@, branch, repo_url, path]],
                index: 0,
                done_message: done,
            },
            GitStepView::CreateSourceDir(source_dir),
        )
    }
}

/// The next state and step of a sync: a source folder that cannot be created
/// ends it; the commands run one after another, the first that does not
/// succeed ending the sync with its report; once all have succeeded the sync
/// reports `Synced <repo> to branch <branch>`.
pub open spec fn git_next_spec(s: GitView, e: GitEventView) -> (GitView, GitStepView) {
    let done = GitView { phase: GitPhase::Finished, ..s };
    match e {
        GitEventView::SourceCreated(Err(m)) => (
            done,
            GitStepView::Finished(Err("Failed to create source directory: "@ + m)),
        ),
        GitEventView::SourceCreated(Ok(())) => {
            let t = GitView { phase: GitPhase::Running, ..s };
            (t, git_run_step(t, s.index))
        },
        GitEventView::Ran(GitOutcomeView::Succeeded) => if s.index + 1 < s.commands.len() {
            let t = GitView { index: s.index + 1, ..s };
            (t, git_run_step(t, s.index + 1))
        } else {
            (done, GitStepView::Finished(Ok(s.done_message)))
        },
        GitEventView::Ran(o) => (
            done,
            GitStepView::Finished(Err(git_error_spec(git_label_spec(s.commands[s.index as int]), o))),
        ),
    }
}

/// A sync in progress.
pub struct GitSyncRun {
    phase: GitPhase,
    dir: Option<String>,
    commands: Vec<Vec<String>>,
    index: usize,
    done_message: String,
}

impl View for GitSyncRun {
    type V = GitView;

    closed spec fn view(&self) -> GitView {
        GitView {
            phase: self.phase,
            dir: opt_view(self.dir),
            commands: self.commands@.map_values(|a: Vec<String>| args_view(a@)),
            index: self.index as nat,
            done_message: self.done_message@,
        }
    }
}

impl GitSyncRun {
    #[verifier::type_invariant]
    spec fn well_formed(self) -> bool {
        self.index < self.commands@.len()
    }

    fn run_step(&self) -> (r: GitStep)
        ensures
            git_step_view(r) == git_run_step(self@, self@.index),
    {
        proof {
            use_type_invariant(self);
        }
        let dir: Option<String> = match &self.dir {
            Some(d) => Some(d.clone()),
            None => None,
        };
        GitStep::RunGit(dir, copy_args(&self.commands[self.index]), GIT_TIMEOUT_SECS)
    }

    /// A sync that follows `plan_git_sync`'s plan for these arguments.
    pub fn start(
        source_dir: &str,
        repo_url: &str,
        repo_name: &str,
        branch_ref: &str,
        repo_exists: bool,
    ) -> (r: (GitSyncRun, GitStep))
        ensures
            (r.0@, git_step_view(r.1)) == git_start_spec(
                source_dir@,
                repo_url@,
                repo_name@,
                branch_ref@,
                repo_exists,
            ),
    {
        let plan: GitSyncPlan = plan_git_sync(source_dir, repo_url, repo_name, branch_ref, repo_exists);
        let GitSyncPlan { repo_path, branch, clone, commands, done_message } = plan;
        let ghost want = git_start_spec(source_dir@, repo_url@, repo_name@, branch_ref@, repo_exists).0;
        assert(commands@.map_values(|a: Vec<String>| args_view(a@)) =~= want.commands);
        if clone {
            let run = GitSyncRun {
                phase: GitPhase::CreatingSource,
                dir: None,
                commands,
                index: 0,
                done_message,
            };
            (run, GitStep::CreateSourceDir(String::from_str(source_dir)))
        } else {
            let run = GitSyncRun {
                phase: GitPhase::Running,
                dir: Some(repo_path),
                commands,
                index: 0,
                done_message,
            };
            let step: GitStep = run.run_step();
            (run, step)
        }
    }

    /// The phase the sync is in.
    pub fn phase(&self) -> (r: GitPhase)
        ensures
            r == self@.phase,
    {
        self.phase
    }

    /// Whether this event is the one the sync waits for.
    pub fn accepts(&self, event: &GitEvent) -> (r: bool)
        ensures
            r == git_fits(self@.phase, git_event_view(*event)),
    {
        match (self.phase, event) {
            (GitPhase::CreatingSource, GitEvent::SourceCreated(_)) => true,
            (GitPhase::Running, GitEvent::Ran(_)) => true,
            _ => false,
        }
    }

    /// Takes what happened and says what to do next.
    pub fn on_event(&mut self, event: GitEvent) -> (r: GitStep)
        requires
            git_fits(old(self)@.phase, git_event_view(event)),
        ensures
            (final(self)@, git_step_view(r)) == git_next_spec(old(self)@, git_event_view(event)),
    {
        proof {
            use_type_invariant(&*self);
        }
        match event {
            GitEvent::SourceCreated(Err(m)) => {
                self.phase = GitPhase::Finished;
                GitStep::Finished(Err(cat("Failed to create source directory: ", m.as_str())))
            },
            GitEvent::SourceCreated(Ok(())) => {
                self.phase = GitPhase::Running;
                self.run_step()
            },
            GitEvent::Ran(GitOutcome::Succeeded) => if self.index < self.commands.len() - 1 {
                self.index = self.index + 1;
                self.run_step()
            } else {
                self.phase = GitPhase::Finished;
                GitStep::Finished(Ok(self.done_message.clone()))
            },
            GitEvent::Ran(o) => {
                let label: String = git_label(&self.commands[self.index]);
                self.phase = GitPhase::Finished;
                GitStep::Finished(Err(git_error(label.as_str(), o)))
            },
        }
    }
}

/// A sync succeeds only after every one of its commands has succeeded, in
/// order: the success report follows exactly a success of the last command,
/// and any other outcome of a command ends the sync with an error.
pub proof fn lemma_sync_stops_at_first_failure(s: GitView, e: GitEventView)
    requires
        git_fits(s.phase, e),
        s.index < s.commands.len(),
    ensures
        git_next_spec(s, e).1 matches GitStepView::Finished(Ok(_)) ==> (e
            == GitEventView::Ran(GitOutcomeView::Succeeded) && s.index + 1 == s.commands.len()),
        e matches GitEventView::Ran(o) && !(o is Succeeded) ==> git_next_spec(s, e).1 is Finished
            && git_next_spec(s, e).1 != GitStepView::Finished(Ok(s.done_message)),
{
}

/// The places a build uses: the checkout, its docs folder, the requirements
/// file, the built `dist` folder, the deployment folder, and the report of success.
pub struct BuildPaths {
    pub repo_path: String,
    pub docs_path: String,
    pub requirements_path: String,
    pub dist_path: String,
    pub target_dir: String,
    pub done_message: String,
}

/// The text of a build's places.
pub struct BuildPathsView {
    pub repo_path: Seq<char>,
    pub docs_path: Seq<char>,
    pub requirements_path: Seq<char>,
    pub dist_path: Seq<char>,
    pub target_dir: Seq<char>,
    pub done_message: Seq<char>,
}

/// The text of a build's places.
pub open spec fn paths_view(p: BuildPaths) -> BuildPathsView {
    BuildPathsView {
        repo_path: p.repo_path@,
        docs_path: p.docs_path@,
        requirements_path: p.requirements_path@,
        dist_path: p.dist_path@,
        target_dir: p.target_dir@,
        done_message: p.done_message@,
    }
}

/// The places the build of `repo_name` uses.
pub open spec fn build_paths_of(source_dir: Seq<char>, deploy_dir: Seq<char>, repo_name: Seq<char>) -> BuildPathsView {
    let docs = join_path(source_dir, repo_name) + "/docs"@;
    let target = join_path(deploy_dir, repo_name);
    BuildPathsView {
        repo_path: join_path(source_dir, repo_name),
        docs_path: docs,
        requirements_path: docs + "/requirements.txt"@,
        dist_path: docs + "/dist"@,
        target_dir: target,
        done_message: "Built and deployed "@ + repo_name + " to "@ + target,
    }
}

/// Plans where the build of a repository reads and writes.
pub fn plan_build_paths(source_dir: &str, deploy_dir: &str, repo_name: &str) -> (r: BuildPaths)
    ensures
        paths_view(r) == build_paths_of(source_dir@, deploy_dir@, repo_name@),
{
    let repo_path: String = repo_path(source_dir, repo_name);
    let docs_path: String = docs_path(repo_path.as_str());
    let requirements_path: String = cat(docs_path.as_str(), "/requirements.txt");
    let dist_path: String = cat(docs_path.as_str(), "/dist");
    let target_dir: String = join_path_exec(deploy_dir, repo_name);
    let done_message: String = build_message(repo_name, target_dir.as_str());
    BuildPaths { repo_path, docs_path, requirements_path, dist_path, target_dir, done_message }
}

/// The files of a virtual environment: its folder under the docs folder, its
/// `python` and `python3`, its `pip`, and where `get-pip.py` is put.
pub struct VenvPaths {
    pub venv_path: String,
    pub python: String,
    pub python3: String,
    pub pip: String,
    pub get_pip: String,
}

/// The files of the virtual environment `venv_dir` of a docs folder.
pub open spec fn venv_paths_spec(docs_path: Seq<char>, venv_dir: Seq<char>, p: VenvPaths) -> bool {
    let venv = join_path(docs_path, venv_dir);
    &&& p.venv_path@ == venv
    &&& p.python@ == venv + "/bin/python"@
    &&& p.python3@ == venv + "/bin/python3"@
    &&& p.pip@ == venv + "/bin/pip"@
    &&& p.get_pip@ == venv + "/get-pip.py"@
}

/// Plans the files of a docs folder's virtual environment.
pub fn plan_venv_paths(docs_path: &str, venv_dir: &str) -> (r: VenvPaths)
    ensures
        venv_paths_spec(docs_path@, venv_dir@, r),
{
    let venv_path: String = join_path_exec(docs_path, venv_dir);
    let python: String = cat(venv_path.as_str(), "/bin/python");
    let python3: String = cat(venv_path.as_str(), "/bin/python3");
    let pip: String = cat(venv_path.as_str(), "/bin/pip");
    let get_pip: String = cat(venv_path.as_str(), "/get-pip.py");
    VenvPaths { venv_path, python, python3, pip, get_pip }
}

/// Where a deployment stands.
#[derive(Clone, Copy, Debug, PartialEq, Eq, Structural)]
pub enum DeploymentPhase {
    /// An attempt to sync and build is running.
    Attempting,
    /// A failed attempt waits for the next one.
    Waiting,
    /// The build is being copied over SSH.
    Publishing,
    /// The deployment is over.
    Finished,
}

/// What the caller is to do next.
pub enum DeploymentStep {
    /// Sync and build once.
    RunAttempt,
    /// Wait this many seconds, then report `Waited`.
    Wait(u64),
    /// Copy the build over SSH.
    RunSshDeploy,
    /// The deployment is over, with this outcome.
    Finished(Result<String, String>),
}

/// What happened since the last step.
pub enum DeploymentEvent {
    AttemptSucceeded(String),
    AttemptFailed(String),
    Waited,
    SshSucceeded,
    SshFailed(String),
}

/// The text of a step.
pub enum StepView {
    RunAttempt,
    Wait(u64),
    RunSshDeploy,
    Finished(Result<Seq<char>, Seq<char>>),
}

/// The text of an event.
pub enum EventView {
    AttemptSucceeded(Seq<char>),
    AttemptFailed(Seq<char>),
    Waited,
    SshSucceeded,
    SshFailed(Seq<char>),
}

/// The text of a deployment's state.
pub struct RunView {
    pub phase: DeploymentPhase,
    pub attempt: nat,
    pub has_ssh: bool,
    pub output: Option<Seq<char>>,
}

/// The text of a step.
pub open spec fn step_view(s: DeploymentStep) -> StepView {
    match s {
        DeploymentStep::RunAttempt => StepView::RunAttempt,
        DeploymentStep::Wait(t) => StepView::Wait(t),
        DeploymentStep::RunSshDeploy => StepView::RunSshDeploy,
        DeploymentStep::Finished(Ok(m)) => StepView::Finished(Ok(m@)),
        DeploymentStep::Finished(Err(e)) => StepView::Finished(Err(e@)),
    }
}

/// The text of an event.
pub open spec fn event_view(e: DeploymentEvent) -> EventView {
    match e {
        DeploymentEvent::AttemptSucceeded(m) => EventView::AttemptSucceeded(m@),
        DeploymentEvent::AttemptFailed(m) => EventView::AttemptFailed(m@),
        DeploymentEvent::Waited => EventView::Waited,
        DeploymentEvent::SshSucceeded => EventView::SshSucceeded,
        DeploymentEvent::SshFailed(m) => EventView::SshFailed(m@),
    }
}

/// The event is the one the phase waits for.
pub open spec fn fits(phase: DeploymentPhase, e: EventView) -> bool {
    match (phase, e) {
        (DeploymentPhase::Attempting, EventView::AttemptSucceeded(_)) => true,
        (DeploymentPhase::Attempting, EventView::AttemptFailed(_)) => true,
        (DeploymentPhase::Waiting, EventView::Waited) => true,
        (DeploymentPhase::Publishing, EventView::SshSucceeded) => true,
        (DeploymentPhase::Publishing, EventView::SshFailed(_)) => true,
        _ => false,
    }
}

/// The next state and step: an attempt that succeeds ends the deployment with
/// its output, or first publishes it over SSH where that is configured; one
/// that fails is retried after `RETRY_DELAY_SECS` while fewer than
/// `MAX_RETRIES` retries were made, else ends the deployment with its error;
/// the SSH copy ends it with the build's output, or with `Local deploy OK but
/// SSH deploy failed: ` and the copy's error.
pub open spec fn next_spec(s: RunView, e: EventView) -> (RunView, StepView) {
    match e {
        EventView::AttemptSucceeded(out) => if s.has_ssh {
            (RunView { phase: DeploymentPhase::Publishing, output: Some(out), ..s }, StepView::RunSshDeploy)
        } else {
            (RunView { phase: DeploymentPhase::Finished, ..s }, StepView::Finished(Ok(out)))
        },
        EventView::AttemptFailed(err) => if s.attempt < MAX_RETRIES {
            (RunView { phase: DeploymentPhase::Waiting, ..s }, StepView::Wait(RETRY_DELAY_SECS))
        } else {
            (RunView { phase: DeploymentPhase::Finished, ..s }, StepView::Finished(Err(err)))
        },
        EventView::Waited => (
            RunView { phase: DeploymentPhase::Attempting, attempt: s.attempt + 1, ..s },
            StepView::RunAttempt,
        ),
        EventView::SshSucceeded => (
            RunView { phase: DeploymentPhase::Finished, ..s },
            StepView::Finished(Ok(
                match s.output {
                    Some(o) => o,
                    None => Seq::empty(),
                },
            )),
        ),
        EventView::SshFailed(err) => (
            RunView { phase: DeploymentPhase::Finished, ..s },
            StepView::Finished(Err("Local deploy OK but SSH deploy failed: "@ + err)),
        ),
    }
}

/// A deployment in progress: up to `MAX_RETRIES + 1` attempts to sync and
/// build, each failure but the last followed by a wait, then, where SSH
/// deployment is configured, one copy over SSH.
pub struct DeploymentRun {
    phase: DeploymentPhase,
    attempt: u32,
    has_ssh: bool,
    output: Option<String>,
}

impl View for DeploymentRun {
    type V = RunView;

    closed spec fn view(&self) -> RunView {
        RunView {
            phase: self.phase,
            attempt: self.attempt as nat,
            has_ssh: self.has_ssh,
            output: opt_view(self.output),
        }
    }
}

impl DeploymentRun {
    #[verifier::type_invariant]
    spec fn well_formed(self) -> bool {
        &&& self.attempt <= MAX_RETRIES
        &&& self.phase == DeploymentPhase::Waiting ==> self.attempt < MAX_RETRIES
        &&& self.phase == DeploymentPhase::Publishing ==> self.output is Some
    }

    /// A deployment whose first attempt is to run now.
    pub fn start(has_ssh: bool) -> (r: (DeploymentRun, DeploymentStep))
        ensures
            r.0@ == (RunView {
                phase: DeploymentPhase::Attempting,
                attempt: 0,
                has_ssh,
                output: None,
            }),
            r.1 is RunAttempt,
    {
        (
            DeploymentRun { phase: DeploymentPhase::Attempting, attempt: 0, has_ssh, output: None },
            DeploymentStep::RunAttempt,
        )
    }

    /// The phase the deployment is in.
    pub fn phase(&self) -> (r: DeploymentPhase)
        ensures
            r == self@.phase,
    {
        self.phase
    }

    /// How many attempts were made before the current one.
    pub fn attempts_before(&self) -> (r: u32)
        ensures
            r as nat == self@.attempt,
            r <= MAX_RETRIES,
    {
        proof {
            use_type_invariant(self);
        }
        self.attempt
    }

    /// Whether this event is the one the deployment waits for.
    pub fn accepts(&self, event: &DeploymentEvent) -> (r: bool)
        ensures
            r == fits(self@.phase, event_view(*event)),
    {
        match (self.phase, event) {
            (DeploymentPhase::Attempting, DeploymentEvent::AttemptSucceeded(_)) => true,
            (DeploymentPhase::Attempting, DeploymentEvent::AttemptFailed(_)) => true,
            (DeploymentPhase::Waiting, DeploymentEvent::Waited) => true,
            (DeploymentPhase::Publishing, DeploymentEvent::SshSucceeded) => true,
            (DeploymentPhase::Publishing, DeploymentEvent::SshFailed(_)) => true,
            _ => false,
        }
    }

    /// Takes what happened and says what to do next.
    pub fn on_event(&mut self, event: DeploymentEvent) -> (r: DeploymentStep)
        requires
            fits(old(self)@.phase, event_view(event)),
        ensures
            (final(self)@, step_view(r)) == next_spec(old(self)@, event_view(event)),
            final(self)@.attempt <= MAX_RETRIES,
    {
        proof {
            use_type_invariant(&*self);
        }
        let mut s: DeploymentRun = DeploymentRun {
            phase: DeploymentPhase::Finished,
            attempt: 0,
            has_ssh: false,
            output: None,
        };
        std::mem::swap(&mut s, self);
        let DeploymentRun { phase, attempt, has_ssh, output } = s;
        let (next, step): (DeploymentRun, DeploymentStep) = match event {
            DeploymentEvent::AttemptSucceeded(out) => if has_ssh {
                (
                    DeploymentRun {
                        phase: DeploymentPhase::Publishing,
                        attempt,
                        has_ssh,
                        output: Some(out),
                    },
                    DeploymentStep::RunSshDeploy,
                )
            } else {
                (
                    DeploymentRun { phase: DeploymentPhase::Finished, attempt, has_ssh, output },
                    DeploymentStep::Finished(Ok(out)),
                )
            },
            DeploymentEvent::AttemptFailed(err) => if attempt < MAX_RETRIES {
                (
                    DeploymentRun { phase: DeploymentPhase::Waiting, attempt, has_ssh, output },
                    DeploymentStep::Wait(RETRY_DELAY_SECS),
                )
            } else {
                (
                    DeploymentRun { phase: DeploymentPhase::Finished, attempt, has_ssh, output },
                    DeploymentStep::Finished(Err(err)),
                )
            },
            DeploymentEvent::Waited => (
                DeploymentRun {
                    phase: DeploymentPhase::Attempting,
                    attempt: attempt + 1,
                    has_ssh,
                    output,
                },
                DeploymentStep::RunAttempt,
            ),
            DeploymentEvent::SshSucceeded => {
                let out: String = match &output {
                    Some(o) => o.clone(),
                    None => String::new(),
                };
                (
                    DeploymentRun { phase: DeploymentPhase::Finished, attempt, has_ssh, output },
                    DeploymentStep::Finished(Ok(out)),
                )
            },
            DeploymentEvent::SshFailed(err) => {
                let mut msg: String = String::from_str("Local deploy OK but SSH deploy failed: ");
                msg.append(err.as_str());
                (
                    DeploymentRun { phase: DeploymentPhase::Finished, attempt, has_ssh, output },
                    DeploymentStep::Finished(Err(msg)),
                )
            },
        };
        *self = next;
        step
    }
}

/// A deployment makes at most `MAX_RETRIES + 1` attempts: every state that a
/// transition reaches has made at most `MAX_RETRIES` attempts before the
/// current one, and a failure at that bound ends the deployment.
pub proof fn lemma_attempts_bounded(s: RunView, e: EventView)
    requires
        s.attempt <= MAX_RETRIES,
        s.phase == DeploymentPhase::Waiting ==> s.attempt < MAX_RETRIES,
        fits(s.phase, e),
    ensures
        next_spec(s, e).0.attempt <= MAX_RETRIES,
        s.attempt == MAX_RETRIES && e is AttemptFailed ==> next_spec(s, e).0.phase
            == DeploymentPhase::Finished,
{
}


/// Where a build stands.
#[derive(Clone, Copy, Debug, PartialEq, Eq, Structural)]
pub enum BuildPhase {
    /// Looking for the checkout's `docs` folder.
    CheckingDocs,
    /// Making sure the virtual environment exists.
    EnsuringVenv,
    /// Making sure the virtual environment has `pip`.
    EnsuringPip,
    /// Looking for `docs/requirements.txt`.
    CheckingRequirements,
    /// Installing the requirements.
    InstallingRequirements,
    /// Making the docs folder's scripts executable.
    MarkingScripts,
    /// Running `make clean`.
    Cleaning,
    /// Running `make dist`.
    MakingDist,
    /// Removing and recreating the deployment folder.
    ReplacingTarget,
    /// Copying `dist` into the deployment folder.
    Copying,
    /// The build is over.
    Finished,
}

/// What happened since the last build step.
pub enum BuildEvent {
    /// Whether the docs folder exists.
    DocsFound(bool),
    /// The virtual environment's folder, or why it could not be made.
    VenvReady(Result<String, String>),
    /// `pip` is in the virtual environment, or why it could not be put there.
    PipReady(Result<(), String>),
    /// Whether the requirements file exists.
    RequirementsFound(bool),
    /// How the requirements install ended.
    PipInstalled(CommandOutcome),
    /// The scripts were marked executable (whatever came of it).
    ScriptsMarked,
    /// `make clean` ran (whatever came of it).
    CleanDone,
    /// How `make dist` ended.
    DistDone(Result<(), String>),
    /// The old deployment folder is gone and a new one was made, or why not.
    TargetCreated(Result<(), String>),
    /// How the copy of `dist` ended.
    Copied(Result<(), String>),
}

/// What the caller is to do next in a build.
pub enum BuildStep {
    /// Report whether the docs folder exists.
    CheckDocs,
    /// Make sure the virtual environment exists and report its folder.
    EnsureVenv,
    /// Make sure the virtual environment at this folder has `pip`.
    EnsurePip(String),
    /// Report whether the requirements file exists.
    CheckRequirements,
    /// Run this command in the docs folder.
    RunPip(CommandLine),
    /// Make the docs folder's scripts executable.
    MarkScripts,
    /// Run `make clean`, with the virtual environment at this folder first on `PATH` where there is one.
    MakeClean(Option<String>),
    /// Run `make dist`, likewise.
    MakeDist(Option<String>),
    /// Remove the deployment folder and create it afresh.
    ReplaceTarget,
    /// Copy `dist` into the deployment folder.
    CopyDist,
    /// The build is over, with this outcome.
    Finished(Result<String, String>),
}

/// The text of a build event.
pub enum BuildEventView {
    DocsFound(bool),
    VenvReady(Result<Seq<char>, Seq<char>>),
    PipReady(Result<(), Seq<char>>),
    RequirementsFound(bool),
    PipInstalled(OutcomeView),
    ScriptsMarked,
    CleanDone,
    DistDone(Result<(), Seq<char>>),
    TargetCreated(Result<(), Seq<char>>),
    Copied(Result<(), Seq<char>>),
}

/// The text of a build step.
pub enum BuildStepView {
    CheckDocs,
    EnsureVenv,
    EnsurePip(Seq<char>),
    CheckRequirements,
    RunPip(Seq<char>, Seq<Seq<char>>),
    MarkScripts,
    MakeClean(Option<Seq<char>>),
    MakeDist(Option<Seq<char>>),
    ReplaceTarget,
    CopyDist,
    Finished(Result<Seq<char>, Seq<char>>),
}

/// The text of a build's state.
pub struct BuildView {
    pub phase: BuildPhase,
    pub use_venv: bool,
    pub venv_path: Option<Seq<char>>,
    pub repo_name: Seq<char>,
    pub paths: BuildPathsView,
}

/// The text of a unit outcome.
pub open spec fn unit_view(r: Result<(), String>) -> Result<(), Seq<char>> {
    match r {
        Ok(()) => Ok(()),
        Err(e) => Err(e@),
    }
}

/// The text of a build event.
pub open spec fn build_event_view(e: BuildEvent) -> BuildEventView {
    match e {
        BuildEvent::DocsFound(b) => BuildEventView::DocsFound(b),
        BuildEvent::VenvReady(Ok(p)) => BuildEventView::VenvReady(Ok(p@)),
        BuildEvent::VenvReady(Err(m)) => BuildEventView::VenvReady(Err(m@)),
        BuildEvent::PipReady(r) => BuildEventView::PipReady(unit_view(r)),
        BuildEvent::RequirementsFound(b) => BuildEventView::RequirementsFound(b),
        BuildEvent::PipInstalled(o) => BuildEventView::PipInstalled(outcome_view(o)),
        BuildEvent::ScriptsMarked => BuildEventView::ScriptsMarked,
        BuildEvent::CleanDone => BuildEventView::CleanDone,
        BuildEvent::DistDone(r) => BuildEventView::DistDone(unit_view(r)),
        BuildEvent::TargetCreated(r) => BuildEventView::TargetCreated(unit_view(r)),
        BuildEvent::Copied(r) => BuildEventView::Copied(unit_view(r)),
    }
}

/// The text of a build step.
pub open spec fn build_step_view(s: BuildStep) -> BuildStepView {
    match s {
        BuildStep::CheckDocs => BuildStepView::CheckDocs,
        BuildStep::EnsureVenv => BuildStepView::EnsureVenv,
        BuildStep::EnsurePip(p) => BuildStepView::EnsurePip(p@),
        BuildStep::CheckRequirements => BuildStepView::CheckRequirements,
        BuildStep::RunPip(c) => BuildStepView::RunPip(c.program@, args_view(c.args@)),
        BuildStep::MarkScripts => BuildStepView::MarkScripts,
        BuildStep::MakeClean(v) => BuildStepView::MakeClean(opt_view(v)),
        BuildStep::MakeDist(v) => BuildStepView::MakeDist(opt_view(v)),
        BuildStep::ReplaceTarget => BuildStepView::ReplaceTarget,
        BuildStep::CopyDist => BuildStepView::CopyDist,
        BuildStep::Finished(Ok(m)) => BuildStepView::Finished(Ok(m@)),
        BuildStep::Finished(Err(m)) => BuildStepView::Finished(Err(m@)),
    }
}

/// The event is the one the build's phase waits for.
pub open spec fn build_fits(phase: BuildPhase, e: BuildEventView) -> bool {
    match (phase, e) {
        (BuildPhase::CheckingDocs, BuildEventView::DocsFound(_)) => true,
        (BuildPhase::EnsuringVenv, BuildEventView::VenvReady(_)) => true,
        (BuildPhase::EnsuringPip, BuildEventView::PipReady(_)) => true,
        (BuildPhase::CheckingRequirements, BuildEventView::RequirementsFound(_)) => true,
        (BuildPhase::InstallingRequirements, BuildEventView::PipInstalled(_)) => true,
        (BuildPhase::MarkingScripts, BuildEventView::ScriptsMarked) => true,
        (BuildPhase::Cleaning, BuildEventView::CleanDone) => true,
        (BuildPhase::MakingDist, BuildEventView::DistDone(_)) => true,
        (BuildPhase::ReplacingTarget, BuildEventView::TargetCreated(_)) => true,
        (BuildPhase::Copying, BuildEventView::Copied(_)) => true,
        _ => false,
    }
}

/// A build of `repo_name` that is to look for its docs folder first.
pub open spec fn build_start_spec(
    source_dir: Seq<char>,
    deploy_dir: Seq<char>,
    repo_name: Seq<char>,
    use_venv: bool,
) -> BuildView {
    BuildView {
        phase: BuildPhase::CheckingDocs,
        use_venv,
        venv_path: None,
        repo_name,
        paths: build_paths_of(source_dir, deploy_dir, repo_name),
    }
}

/// A build that ends with this outcome.
pub open spec fn build_finish(s: BuildView, r: Result<Seq<char>, Seq<char>>) -> (BuildView, BuildStepView) {
    (BuildView { phase: BuildPhase::Finished, ..s }, BuildStepView::Finished(r))
}

/// The next state and step of a build: a missing docs folder ends it with
/// `docs folder not found in <repo>`; with a virtual environment, it is made
/// and given `pip` first; the requirements are installed only where their
/// file exists; the scripts are marked executable and `make clean` runs,
/// whatever comes of either; `make dist` runs next; only once it has
/// succeeded is the deployment folder replaced and `dist` copied into it, and
/// the build reports `Built and deployed <repo> to <target>`. Any failure
/// along the way ends the build with its message.
pub open spec fn build_next_spec(s: BuildView, e: BuildEventView) -> (BuildView, BuildStepView) {
    match e {
        BuildEventView::DocsFound(found) => if !found {
            build_finish(s, Err("docs folder not found in "@ + s.repo_name))
        } else if s.use_venv {
            (BuildView { phase: BuildPhase::EnsuringVenv, ..s }, BuildStepView::EnsureVenv)
        } else {
            (BuildView { phase: BuildPhase::CheckingRequirements, ..s }, BuildStepView::CheckRequirements)
        },
        BuildEventView::VenvReady(r) => match r {
            Err(m) => build_finish(s, Err(m)),
            Ok(p) => (
                BuildView { phase: BuildPhase::EnsuringPip, venv_path: Some(p), ..s },
                BuildStepView::EnsurePip(p),
            ),
        },
        BuildEventView::PipReady(r) => match r {
            Err(m) => build_finish(s, Err(m)),
            Ok(()) => (BuildView { phase: BuildPhase::CheckingRequirements, ..s }, BuildStepView::CheckRequirements),
        },
        BuildEventView::RequirementsFound(found) => if found {
            let c = pip_install_spec(s.venv_path, s.paths.requirements_path);
            (BuildView { phase: BuildPhase::InstallingRequirements, ..s }, BuildStepView::RunPip(c.0, c.1))
        } else {
            (BuildView { phase: BuildPhase::MarkingScripts, ..s }, BuildStepView::MarkScripts)
        },
        BuildEventView::PipInstalled(o) => match o {
            OutcomeView::NotRun(m) => build_finish(s, Err("Failed to run pip install: "@ + m)),
            OutcomeView::Failed(m) => build_finish(s, Err("pip install failed: "@ + m)),
            OutcomeView::Succeeded => (BuildView { phase: BuildPhase::MarkingScripts, ..s }, BuildStepView::MarkScripts),
        },
        BuildEventView::ScriptsMarked => (
            BuildView { phase: BuildPhase::Cleaning, ..s },
            BuildStepView::MakeClean(s.venv_path),
        ),
        BuildEventView::CleanDone => (
            BuildView { phase: BuildPhase::MakingDist, ..s },
            BuildStepView::MakeDist(s.venv_path),
        ),
        BuildEventView::DistDone(r) => match r {
            Err(m) => build_finish(s, Err(m)),
            Ok(()) => (BuildView { phase: BuildPhase::ReplacingTarget, ..s }, BuildStepView::ReplaceTarget),
        },
        BuildEventView::TargetCreated(r) => match r {
            Err(m) => build_finish(s, Err(m)),
            Ok(()) => (BuildView { phase: BuildPhase::Copying, ..s }, BuildStepView::CopyDist),
        },
        BuildEventView::Copied(r) => match r {
            Err(m) => build_finish(s, Err(m)),
            Ok(()) => build_finish(s, Ok(s.paths.done_message)),
        },
    }
}

/// A build in progress: the docs folder, the virtual environment, the
/// requirements, `make clean` and `make dist`, then the deployment folder.
pub struct BuildRun {
    phase: BuildPhase,
    use_venv: bool,
    venv_path: Option<String>,
    repo_name: String,
    paths: BuildPaths,
}

impl View for BuildRun {
    type V = BuildView;

    closed spec fn view(&self) -> BuildView {
        BuildView {
            phase: self.phase,
            use_venv: self.use_venv,
            venv_path: opt_view(self.venv_path),
            repo_name: self.repo_name@,
            paths: paths_view(self.paths),
        }
    }
}

impl BuildRun {
    /// A build of `repo_name` from `source_dir` into `deploy_dir`, whose first
    /// step is to look for the docs folder.
    pub fn start(source_dir: &str, deploy_dir: &str, repo_name: &str, use_venv: bool) -> (r: (
        BuildRun,
        BuildStep,
    ))
        ensures
            r.0@ == build_start_spec(source_dir@, deploy_dir@, repo_name@, use_venv),
            r.1 is CheckDocs,
    {
        let paths: BuildPaths = plan_build_paths(source_dir, deploy_dir, repo_name);
        (
            BuildRun {
                phase: BuildPhase::CheckingDocs,
                use_venv,
                venv_path: None,
                repo_name: String::from_str(repo_name),
                paths,
            },
            BuildStep::CheckDocs,
        )
    }

    /// The places the build uses.
    pub fn paths(&self) -> (r: &BuildPaths)
        ensures
            paths_view(*r) == self@.paths,
    {
        &self.paths
    }

    /// The phase the build is in.
    pub fn phase(&self) -> (r: BuildPhase)
        ensures
            r == self@.phase,
    {
        self.phase
    }

    /// Whether this event is the one the build waits for.
    pub fn accepts(&self, event: &BuildEvent) -> (r: bool)
        ensures
            r == build_fits(self@.phase, build_event_view(*event)),
    {
        match (self.phase, event) {
            (BuildPhase::CheckingDocs, BuildEvent::DocsFound(_)) => true,
            (BuildPhase::EnsuringVenv, BuildEvent::VenvReady(_)) => true,
            (BuildPhase::EnsuringPip, BuildEvent::PipReady(_)) => true,
            (BuildPhase::CheckingRequirements, BuildEvent::RequirementsFound(_)) => true,
            (BuildPhase::InstallingRequirements, BuildEvent::PipInstalled(_)) => true,
            (BuildPhase::MarkingScripts, BuildEvent::ScriptsMarked) => true,
            (BuildPhase::Cleaning, BuildEvent::CleanDone) => true,
            (BuildPhase::MakingDist, BuildEvent::DistDone(_)) => true,
            (BuildPhase::ReplacingTarget, BuildEvent::TargetCreated(_)) => true,
            (BuildPhase::Copying, BuildEvent::Copied(_)) => true,
            _ => false,
        }
    }

    fn finish(&mut self, r: Result<String, String>) -> (step: BuildStep)
        ensures
            (final(self)@, build_step_view(step)) == build_finish(
                old(self)@,
                match r {
                    Ok(m) => Ok(m@),
                    Err(m) => Err(m@),
                },
            ),
    {
        self.phase = BuildPhase::Finished;
        BuildStep::Finished(r)
    }

    fn venv_copy(&self) -> (r: Option<String>)
        ensures
            opt_view(r) == self@.venv_path,
    {
        match &self.venv_path {
            Some(v) => Some(v.clone()),
            None => None,
        }
    }

    /// Takes what happened and says what to do next.
    pub fn on_event(&mut self, event: BuildEvent) -> (r: BuildStep)
        requires
            build_fits(old(self)@.phase, build_event_view(event)),
        ensures
            (final(self)@, build_step_view(r)) == build_next_spec(old(self)@, build_event_view(event)),
    {
        match event {
            BuildEvent::DocsFound(found) => if !found {
                let mut m: String = String::from_str("docs folder not found in ");
                m.append(self.repo_name.as_str());
                self.finish(Err(m))
            } else if self.use_venv {
                self.phase = BuildPhase::EnsuringVenv;
                BuildStep::EnsureVenv
            } else {
                self.phase = BuildPhase::CheckingRequirements;
                BuildStep::CheckRequirements
            },
            BuildEvent::VenvReady(r) => match r {
                Err(m) => self.finish(Err(m)),
                Ok(p) => {
                    let q: String = p.clone();
                    self.phase = BuildPhase::EnsuringPip;
                    self.venv_path = Some(p);
                    BuildStep::EnsurePip(q)
                },
            },
            BuildEvent::PipReady(r) => match r {
                Err(m) => self.finish(Err(m)),
                Ok(()) => {
                    self.phase = BuildPhase::CheckingRequirements;
                    BuildStep::CheckRequirements
                },
            },
            BuildEvent::RequirementsFound(found) => if found {
                let c: CommandLine = match &self.venv_path {
                    Some(v) => pip_install_command(Some(v.as_str()), self.paths.requirements_path.as_str()),
                    None => pip_install_command(None, self.paths.requirements_path.as_str()),
                };
                self.phase = BuildPhase::InstallingRequirements;
                BuildStep::RunPip(c)
            } else {
                self.phase = BuildPhase::MarkingScripts;
                BuildStep::MarkScripts
            },
            BuildEvent::PipInstalled(o) => match o {
                CommandOutcome::NotRun(m) => self.finish(Err(cat("Failed to run pip install: ", m.as_str()))),
                CommandOutcome::Failed(m) => self.finish(Err(cat("pip install failed: ", m.as_str()))),
                CommandOutcome::Succeeded => {
                    self.phase = BuildPhase::MarkingScripts;
                    BuildStep::MarkScripts
                },
            },
            BuildEvent::ScriptsMarked => {
                self.phase = BuildPhase::Cleaning;
                BuildStep::MakeClean(self.venv_copy())
            },
            BuildEvent::CleanDone => {
                self.phase = BuildPhase::MakingDist;
                BuildStep::MakeDist(self.venv_copy())
            },
            BuildEvent::DistDone(r) => match r {
                Err(m) => self.finish(Err(m)),
                Ok(()) => {
                    self.phase = BuildPhase::ReplacingTarget;
                    BuildStep::ReplaceTarget
                },
            },
            BuildEvent::TargetCreated(r) => match r {
                Err(m) => self.finish(Err(m)),
                Ok(()) => {
                    self.phase = BuildPhase::Copying;
                    BuildStep::CopyDist
                },
            },
            BuildEvent::Copied(r) => match r {
                Err(m) => self.finish(Err(m)),
                Ok(()) => {
                    let done: String = self.paths.done_message.clone();
                    self.finish(Ok(done))
                },
            },
        }
    }
}

/// The deployment folder is touched only after `make dist` has succeeded: the
/// step that replaces it follows exactly a successful `make dist`, the copy
/// follows exactly a successful replacement, and a failed `make dist` ends the
/// build at once.
pub proof fn lemma_target_touched_only_after_dist(s: BuildView, e: BuildEventView)
    requires
        build_fits(s.phase, e),
    ensures
        build_next_spec(s, e).1 is ReplaceTarget <==> (s.phase == BuildPhase::MakingDist
            && e matches BuildEventView::DistDone(Ok(_))),
        build_next_spec(s, e).1 is CopyDist <==> (s.phase == BuildPhase::ReplacingTarget
            && e matches BuildEventView::TargetCreated(Ok(_))),
        e matches BuildEventView::DistDone(Err(m)) ==> build_next_spec(s, e) == build_finish(
            s,
            Err(m),
        ),
{
}

/// The requirements are installed only where their file was found, and a
/// failed install ends the build.
pub proof fn lemma_pip_only_with_requirements(s: BuildView, e: BuildEventView)
    requires
        build_fits(s.phase, e),
    ensures
        build_next_spec(s, e).1 is RunPip <==> e == BuildEventView::RequirementsFound(true),
        e matches BuildEventView::PipInstalled(OutcomeView::Failed(m)) ==> build_next_spec(s, e)
            == build_finish(s, Err("pip install failed: "@ + m)),
{
}

/// A build succeeds only by a successful copy, and then reports where it deployed.
pub proof fn lemma_build_success_only_after_copy(s: BuildView, e: BuildEventView)
    requires
        build_fits(s.phase, e),
        build_next_spec(s, e).1 matches BuildStepView::Finished(Ok(_)),
    ensures
        s.phase == BuildPhase::Copying,
        e matches BuildEventView::Copied(Ok(_)),
        build_next_spec(s, e).1 == BuildStepView::Finished(Ok(s.paths.done_message)),
{
}


/// A deployment's outcome: an attempt that succeeds ends it with the
/// attempt's output (where no SSH copy is configured) or starts the SSH copy;
/// a failed attempt is retried after `RETRY_DELAY_SECS` while fewer than
/// `MAX_RETRIES` retries were made, else ends it with the attempt's error;
/// the SSH copy ends it with the build's output or with its error behind
/// `Local deploy OK but SSH deploy failed: `.
pub proof fn lemma_deployment_outcomes(s: RunView, e: EventView)
    requires
        fits(s.phase, e),
        s.phase == DeploymentPhase::Publishing ==> s.output is Some,
    ensures
        (e is AttemptSucceeded && !s.has_ssh) ==> next_spec(s, e).1 == StepView::Finished(
            Ok(e->AttemptSucceeded_0),
        ),
        (e is AttemptSucceeded && s.has_ssh) ==> next_spec(s, e).1 == StepView::RunSshDeploy
            && next_spec(s, e).0.output == Some(e->AttemptSucceeded_0),
        (e is AttemptFailed && s.attempt < MAX_RETRIES) ==> next_spec(s, e).1 == StepView::Wait(
            RETRY_DELAY_SECS,
        ),
        (e is AttemptFailed && s.attempt >= MAX_RETRIES) ==> next_spec(s, e).1 == StepView::Finished(
            Err(e->AttemptFailed_0),
        ),
        e is Waited ==> next_spec(s, e).1 == StepView::RunAttempt && next_spec(s, e).0.attempt
            == s.attempt + 1,
        e is SshSucceeded ==> next_spec(s, e).1 == StepView::Finished(Ok(s.output->0)),
        e is SshFailed ==> next_spec(s, e).1 == StepView::Finished(
            Err("Local deploy OK but SSH deploy failed: "@ + e->SshFailed_0),
        ),
{
}

/// A build fails only on a failure: every error it ends with follows a
/// missing docs folder or an event that reports a failure; where each step
/// succeeds it goes on to the next: docs folder, virtual environment and
/// `pip` (where used), requirements (installed with the environment's
/// Python, else with `pip`, only where their file exists), scripts,
/// `make clean`, `make dist`, deployment folder, copy.
pub proof fn lemma_build_fails_only_on_failure(s: BuildView, e: BuildEventView)
    requires
        build_fits(s.phase, e),
    ensures
        (build_next_spec(s, e).1 is Finished && build_next_spec(s, e).1->Finished_0 is Err) ==> (e
            == BuildEventView::DocsFound(false) || (e is VenvReady && e->VenvReady_0 is Err) || (e
            is PipReady && e->PipReady_0 is Err) || (e is PipInstalled && !(e->PipInstalled_0
            is Succeeded)) || (e is DistDone && e->DistDone_0 is Err) || (e is TargetCreated
            && e->TargetCreated_0 is Err) || (e is Copied && e->Copied_0 is Err)),
        e == BuildEventView::DocsFound(false) ==> build_next_spec(s, e).1 == BuildStepView::Finished(
            Err("docs folder not found in "@ + s.repo_name),
        ),
        e == BuildEventView::DocsFound(true) ==> build_next_spec(s, e).1 == (if s.use_venv {
            BuildStepView::EnsureVenv
        } else {
            BuildStepView::CheckRequirements
        }),
        (e is VenvReady && e->VenvReady_0 is Ok) ==> build_next_spec(s, e).1
            == BuildStepView::EnsurePip(e->VenvReady_0->Ok_0) && build_next_spec(s, e).0.venv_path
            == Some(e->VenvReady_0->Ok_0),
        (e is PipReady && e->PipReady_0 is Ok) ==> build_next_spec(s, e).1
            == BuildStepView::CheckRequirements,
        e == BuildEventView::RequirementsFound(true) ==> build_next_spec(s, e).1 == (match s.venv_path {
            Some(v) => BuildStepView::RunPip(
                v + "/bin/python"@,
                seq!["-m"@, "pip"@, "install"@, "-r"@, s.paths.requirements_path],
            ),
            None => BuildStepView::RunPip("pip"@, seq!["install"@, "-r"@, s.paths.requirements_path]),
        }),
        (e == BuildEventView::RequirementsFound(false) || e == BuildEventView::PipInstalled(
            OutcomeView::Succeeded,
        )) ==> build_next_spec(s, e).1 == BuildStepView::MarkScripts,
        e == BuildEventView::ScriptsMarked ==> build_next_spec(s, e).1 == BuildStepView::MakeClean(
            s.venv_path,
        ),
        e == BuildEventView::CleanDone ==> build_next_spec(s, e).1 == BuildStepView::MakeDist(
            s.venv_path,
        ),
        (e is Copied && e->Copied_0 is Ok) ==> build_next_spec(s, e).1 == BuildStepView::Finished(
            Ok(s.paths.done_message),
        ),
{
}

/// The places a build uses: the checkout `source_dir/<repo>` (trailing
/// slashes of the folder dropped), its `docs` folder, `docs/requirements.txt`
/// and `docs/dist`, and the deployment folder `deploy_dir/<repo>`.
pub proof fn lemma_build_paths(source_dir: Seq<char>, deploy_dir: Seq<char>, repo_name: Seq<char>)
    requires
        source_dir.len() > 0 && source_dir.last() != '/',
        deploy_dir.len() > 0 && deploy_dir.last() != '/',
    ensures
        build_paths_of(source_dir, deploy_dir, repo_name).docs_path == source_dir + "/"@
            + repo_name + "/docs"@,
        build_paths_of(source_dir, deploy_dir, repo_name).requirements_path == source_dir + "/"@
            + repo_name + "/docs"@ + "/requirements.txt"@,
        build_paths_of(source_dir, deploy_dir, repo_name).dist_path == source_dir + "/"@ + repo_name
            + "/docs"@ + "/dist"@,
        build_paths_of(source_dir, deploy_dir, repo_name).target_dir == deploy_dir + "/"@
            + repo_name,
{
    lemma_trim_end_absent(source_dir, '/');
    lemma_trim_end_absent(deploy_dir, '/');
}

/// An SSH deployment fails only on a failure: a removal that ran, whatever it
/// reported, is followed by the copy; the deployment ends with an error only
/// where a command could not be started or the copy failed, and a copy that
/// succeeded ends it with `SSH deployed <repo> to <destination>`.
pub proof fn lemma_ssh_fails_only_on_failure(s: SshView, o: OutcomeView)
    requires
        s.phase != SshPhase::Finished,
    ensures
        (ssh_next_spec(s, o).1 is Finished && ssh_next_spec(s, o).1->Finished_0 is Err) ==> (o
            is NotRun || (s.phase == SshPhase::Copying && o is Failed)),
        (s.phase == SshPhase::Copying && o is Succeeded) ==> ssh_next_spec(s, o).1
            == SshStepView::Finished(Ok("SSH deployed "@ + s.repo_name + " to "@ + s.remote_dest)),
{
}

/// A sync fails only on a failure: every error follows a source folder that
/// could not be created or a command that did not succeed; a created source
/// folder leads to the current command, and a command that succeeds to the
/// next one, or, after the last, to `Synced <repo> to branch <branch>`.
pub proof fn lemma_sync_fails_only_on_failure(s: GitView, e: GitEventView)
    requires
        git_fits(s.phase, e),
        s.index < s.commands.len(),
    ensures
        (git_next_spec(s, e).1 is Finished && git_next_spec(s, e).1->Finished_0 is Err) ==> ((e
            is SourceCreated && e->SourceCreated_0 is Err) || (e is Ran && !(e->Ran_0
            is Succeeded))),
        e == GitEventView::SourceCreated(Ok(())) ==> git_next_spec(s, e).1 == GitStepView::RunGit(
            s.dir,
            s.commands[s.index as int],
            GIT_TIMEOUT_SECS,
        ),
        (e == GitEventView::Ran(GitOutcomeView::Succeeded) && s.index + 1 < s.commands.len())
            ==> git_next_spec(s, e).1 == GitStepView::RunGit(
            s.dir,
            s.commands[s.index as int + 1],
            GIT_TIMEOUT_SECS,
        ),
        (e == GitEventView::Ran(GitOutcomeView::Succeeded) && s.index + 1 == s.commands.len())
            ==> git_next_spec(s, e).1 == GitStepView::Finished(Ok(s.done_message)),
{
}

/// A sync pulls the branch into an existing checkout, in the checkout, and
/// clones it into `source_dir/<repo>` after creating the source folder
/// otherwise; the branch is the ref without `refs/heads/`.
pub proof fn lemma_sync_start(source_dir: Seq<char>, repo_url: Seq<char>, repo_name: Seq<char>, branch: Seq<char>, exists: bool)
    requires
        source_dir.len() > 0 && source_dir.last() != '/',
    ensures
        exists ==> git_start_spec(source_dir, repo_url, repo_name, "refs/heads/"@ + branch, exists).1
            == GitStepView::RunGit(
            Some(source_dir + "/"@ + repo_name),
            seq!["pull"@, "origin"@, branch],
            GIT_TIMEOUT_SECS,
        ),
        !exists ==> git_start_spec(source_dir, repo_url, repo_name, "refs/heads/"@ + branch, exists).1
            == GitStepView::CreateSourceDir(source_dir),
        !exists ==> git_start_spec(source_dir, repo_url, repo_name, "refs/heads/"@ + branch, exists).0.commands
            == seq![seq!["clone"@, "--branch"@, branch, repo_url, source_dir + "/"@ + repo_name]],
        git_start_spec(source_dir, repo_url, repo_name, "refs/heads/"@ + branch, exists).0.done_message
            == "Synced "@ + repo_name + " to branch "@ + branch,
{
    lemma_trim_end_absent(source_dir, '/');
    lemma_strip_own_prefix("refs/heads/"@, branch);
}


/// The SSH deployment's commands, for a remote path and a deployment folder
/// that do not end with `/`: `sshpass -p <password> ssh -p <port> -o
/// StrictHostKeyChecking=no <user>@<host> "rm -rf <remote>/<name>/"`, then
/// `sshpass -p <password> rsync -avz --delete --force --mkpath -e "ssh -p
/// <port> -o StrictHostKeyChecking=no" <deploy>/<repo>/ <user>@<host>:<remote>/<name>/`;
/// a successful copy reports `SSH deployed <repo> to <user>@<host>:<remote>/<name>/`.
pub proof fn lemma_ssh_command_lines(
    deploy_dir: Seq<char>,
    repo_name: Seq<char>,
    remote_name: Seq<char>,
    ssh: ResolvedSshConfig,
)
    requires
        ssh.remote_path@.len() > 0 && ssh.remote_path@.last() != '/',
        deploy_dir.len() > 0 && deploy_dir.last() != '/',
    ensures
        ssh_remove_spec(ssh, remote_name) == (
            "sshpass"@,
            seq![
                "-p"@,
                ssh.password@,
                "ssh"@,
                "-p"@,
                decimal_spec(ssh.port as nat),
                "-o"@,
                "StrictHostKeyChecking=no"@,
                ssh.user@ + "@"@ + ssh.host@,
                "rm -rf "@ + ssh.remote_path@ + "/"@ + remote_name + "/"@,
            ],
        ),
        ssh_rsync_spec(deploy_dir, repo_name, remote_name, ssh) == (
            "sshpass"@,
            seq![
                "-p"@,
                ssh.password@,
                "rsync"@,
                "-avz"@,
                "--delete"@,
                "--force"@,
                "--mkpath"@,
                "-e"@,
                "ssh -p "@ + decimal_spec(ssh.port as nat) + " -o StrictHostKeyChecking=no"@,
                deploy_dir + "/"@ + repo_name + "/"@,
                ssh.user@ + "@"@ + ssh.host@ + ":"@ + ssh.remote_path@ + "/"@ + remote_name + "/"@,
            ],
        ),
        ssh_start_spec(deploy_dir, repo_name, remote_name, ssh).remote_dest == ssh.user@ + "@"@
            + ssh.host@ + ":"@ + ssh.remote_path@ + "/"@ + remote_name + "/"@,
{
    lemma_trim_end_absent(ssh.remote_path@, '/');
    lemma_trim_end_absent(deploy_dir, '/');
    assert("rm -rf "@ + (ssh.remote_path@ + "/"@ + remote_name + "/"@) =~= "rm -rf "@
        + ssh.remote_path@ + "/"@ + remote_name + "/"@);
    assert(ssh.user@ + "@"@ + ssh.host@ + ":"@ + (ssh.remote_path@ + "/"@ + remote_name + "/"@)
        =~= ssh.user@ + "@"@ + ssh.host@ + ":"@ + ssh.remote_path@ + "/"@ + remote_name + "/"@);
}


/// A deployment makes at most three attempts, five minutes apart, and a git
/// command may run for two minutes: a failure after the third attempt ends
/// the deployment, while a failure before it waits 300 seconds.
pub proof fn lemma_retry_schedule(s: RunView, err: Seq<char>)
    requires
        s.phase == DeploymentPhase::Attempting,
    ensures
        MAX_RETRIES == 2 && RETRY_DELAY_SECS == 300 && GIT_TIMEOUT_SECS == 120,
        s.attempt == 2 ==> next_spec(s, EventView::AttemptFailed(err)).1 == StepView::Finished(
            Err(err),
        ),
        s.attempt < 2 ==> next_spec(s, EventView::AttemptFailed(err)).1 == StepView::Wait(300),
{
}

} // verus!
