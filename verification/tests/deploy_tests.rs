use webhook_server::config::ResolvedSshConfig;
use webhook_server::venv::{
    CommandOutcome, PipEvent, PipRun, PipStep, VenvEvent, VenvRun, VenvStep,
};
use webhook_server::deploy::{
    branch_name, git_clone_args, git_failure_message, git_label, git_timeout_message,
    git_update_commands, pip_install_command, plan_build_paths, plan_git_sync, plan_venv_paths,
    repo_path, ssh_message, ssh_plan, venv_path_env, DeploymentEvent, DeploymentPhase, DeploymentRun,
    DeploymentStep, MAX_RETRIES, RETRY_DELAY_SECS, BuildEvent, BuildPhase, BuildRun, BuildStep,
    ssh_commands, GitEvent, GitOutcome, GitPhase, GitStep, GitSyncRun, SshPhase, SshRun, SshStep,
};

#[test]
fn paths_drop_trailing_slashes() {
    assert_eq!(repo_path("/src///", "docs"), "/src/docs");
    assert_eq!(branch_name("refs/heads/main"), "main");
    assert_eq!(branch_name("v1.0"), "v1.0");
    let b = plan_build_paths("/src/", "/www", "docs");
    assert_eq!(b.docs_path, "/src/docs/docs");
    assert_eq!(b.requirements_path, "/src/docs/docs/requirements.txt");
    assert_eq!(b.dist_path, "/src/docs/docs/dist");
    assert_eq!(b.target_dir, "/www/docs");
    assert_eq!(b.done_message, "Built and deployed docs to /www/docs");
    let v = plan_venv_paths("/src/docs/docs", "venv");
    assert_eq!(v.python, "/src/docs/docs/venv/bin/python");
    assert_eq!(v.pip, "/src/docs/docs/venv/bin/pip");
    assert_eq!(v.get_pip, "/src/docs/docs/venv/get-pip.py");
}

#[test]
fn git_commands_for_update_and_clone() {
    let cmds = git_update_commands("main");
    assert_eq!(cmds, vec![vec!["pull", "origin", "main"]]);
    assert_eq!(git_clone_args("main", "u", "/p"), vec!["clone", "--branch", "main", "u", "/p"]);
    let label = git_label(&cmds[0]);
    assert_eq!(label, "git pull");
    assert_eq!(git_label(&Vec::new()), "git ");
    assert_eq!(git_failure_message(&label, "oops"), "git pull failed: oops");
    assert_eq!(git_timeout_message("git clone"), "git clone timed out after 120s");
    let plan = plan_git_sync("/src", "u", "docs", "refs/heads/main", false);
    assert!(plan.clone);
    assert_eq!(plan.commands, vec![vec!["clone", "--branch", "main", "u", "/src/docs"]]);
    assert_eq!(plan.done_message, "Synced docs to branch main");
    let plan = plan_git_sync("/src", "u", "docs", "refs/heads/main", true);
    assert!(!plan.clone);
    assert_eq!(plan.commands, vec![vec!["pull", "origin", "main"]]);
}

#[test]
fn pip_and_path_environment() {
    let c = pip_install_command(Some("/v"), "/d/requirements.txt");
    assert_eq!(c.program, "/v/bin/python");
    assert_eq!(c.args, vec!["-m", "pip", "install", "-r", "/d/requirements.txt"]);
    let c = pip_install_command(None, "r.txt");
    assert_eq!(c.program, "pip");
    assert_eq!(c.args, vec!["install", "-r", "r.txt"]);
    assert_eq!(venv_path_env("/v/", Some("/usr/bin")), "/v/bin:/usr/bin");
    assert_eq!(venv_path_env("/v", Some("")), "/v/bin");
    assert_eq!(venv_path_env("/v", None), "/v/bin");
}

#[test]
fn ssh_plan_builds_rsync_targets() {
    let ssh = ResolvedSshConfig {
        host: "h".to_string(),
        port: 2222,
        user: "u".to_string(),
        password: "p".to_string(),
        remote_path: "/srv/".to_string(),
    };
    let p = ssh_plan("/www/", "docs", "site", &ssh);
    assert_eq!(p.local_path, "/www/docs/");
    assert_eq!(p.remote_dir, "/srv/site/");
    assert_eq!(p.remote_dest, "u@h:/srv/site/");
    assert_eq!(p.login, "u@h");
    assert_eq!(p.ssh_command, "ssh -p 2222 -o StrictHostKeyChecking=no");
    assert_eq!(p.remove_command, "rm -rf /srv/site/");
    assert_eq!(p.port, "2222");
    assert_eq!(ssh_message("docs", &p.remote_dest), "SSH deployed docs to u@h:/srv/site/");
}

fn finished(step: DeploymentStep) -> Result<String, String> {
    match step {
        DeploymentStep::Finished(r) => r,
        _ => panic!("expected the deployment to finish"),
    }
}

#[test]
fn deployment_retries_then_gives_up() {
    let (mut run, first) = DeploymentRun::start(false);
    assert!(matches!(first, DeploymentStep::RunAttempt));
    for k in 0..MAX_RETRIES {
        assert_eq!(run.attempts_before(), k);
        let step = run.on_event(DeploymentEvent::AttemptFailed("e".to_string()));
        assert!(matches!(step, DeploymentStep::Wait(s) if s == RETRY_DELAY_SECS));
        assert!(matches!(run.on_event(DeploymentEvent::Waited), DeploymentStep::RunAttempt));
    }
    assert_eq!(run.attempts_before(), MAX_RETRIES);
    let last = run.on_event(DeploymentEvent::AttemptFailed("final".to_string()));
    assert_eq!(finished(last), Err("final".to_string()));
    assert_eq!(run.phase(), DeploymentPhase::Finished);
}

#[test]
fn deployment_publishes_over_ssh_after_success() {
    let (mut run, _) = DeploymentRun::start(true);
    assert!(!run.accepts(&DeploymentEvent::Waited));
    let step = run.on_event(DeploymentEvent::AttemptSucceeded("built".to_string()));
    assert!(matches!(step, DeploymentStep::RunSshDeploy));
    assert_eq!(finished(run.on_event(DeploymentEvent::SshSucceeded)), Ok("built".to_string()));
    let (mut run, _) = DeploymentRun::start(true);
    run.on_event(DeploymentEvent::AttemptSucceeded("built".to_string()));
    assert_eq!(
        finished(run.on_event(DeploymentEvent::SshFailed("no route".to_string()))),
        Err("Local deploy OK but SSH deploy failed: no route".to_string())
    );
    let (mut run, _) = DeploymentRun::start(false);
    assert_eq!(finished(run.on_event(DeploymentEvent::AttemptSucceeded("ok".to_string()))), Ok("ok".to_string()));
}

fn build_step(run: &mut BuildRun, e: BuildEvent) -> BuildStep {
    assert!(run.accepts(&e));
    run.on_event(e)
}

#[test]
fn build_runs_every_step_with_a_virtual_environment() {
    let (mut run, first) = BuildRun::start("/src", "/www/", "docs", true);
    assert!(matches!(first, BuildStep::CheckDocs));
    assert_eq!(run.paths().target_dir, "/www/docs");
    assert!(matches!(build_step(&mut run, BuildEvent::DocsFound(true)), BuildStep::EnsureVenv));
    match build_step(&mut run, BuildEvent::VenvReady(Ok("/src/docs/docs/venv".to_string()))) {
        BuildStep::EnsurePip(p) => assert_eq!(p, "/src/docs/docs/venv"),
        _ => panic!("expected pip to be ensured"),
    }
    assert!(matches!(build_step(&mut run, BuildEvent::PipReady(Ok(()))), BuildStep::CheckRequirements));
    match build_step(&mut run, BuildEvent::RequirementsFound(true)) {
        BuildStep::RunPip(c) => {
            assert_eq!(c.program, "/src/docs/docs/venv/bin/python");
            assert_eq!(c.args, vec!["-m", "pip", "install", "-r", "/src/docs/docs/requirements.txt"]);
        }
        _ => panic!("expected pip to run"),
    }
    assert!(matches!(build_step(&mut run, BuildEvent::PipInstalled(CommandOutcome::Succeeded)), BuildStep::MarkScripts));
    match build_step(&mut run, BuildEvent::ScriptsMarked) {
        BuildStep::MakeClean(v) => assert_eq!(v.as_deref(), Some("/src/docs/docs/venv")),
        _ => panic!("expected make clean"),
    }
    assert!(matches!(build_step(&mut run, BuildEvent::CleanDone), BuildStep::MakeDist(Some(_))));
    assert!(matches!(build_step(&mut run, BuildEvent::DistDone(Ok(()))), BuildStep::ReplaceTarget));
    assert!(matches!(build_step(&mut run, BuildEvent::TargetCreated(Ok(()))), BuildStep::CopyDist));
    match build_step(&mut run, BuildEvent::Copied(Ok(()))) {
        BuildStep::Finished(r) => assert_eq!(r, Ok("Built and deployed docs to /www/docs".to_string())),
        _ => panic!("expected the build to finish"),
    }
    assert_eq!(run.phase(), BuildPhase::Finished);
}

#[test]
fn build_stops_before_touching_the_target() {
    let (mut run, _) = BuildRun::start("/src", "/www", "docs", false);
    match build_step(&mut run, BuildEvent::DocsFound(false)) {
        BuildStep::Finished(r) => assert_eq!(r, Err("docs folder not found in docs".to_string())),
        _ => panic!("expected the build to finish"),
    }
    let (mut run, _) = BuildRun::start("/src", "/www", "docs", false);
    assert!(matches!(build_step(&mut run, BuildEvent::DocsFound(true)), BuildStep::CheckRequirements));
    assert!(matches!(build_step(&mut run, BuildEvent::RequirementsFound(false)), BuildStep::MarkScripts));
    assert!(matches!(build_step(&mut run, BuildEvent::ScriptsMarked), BuildStep::MakeClean(None)));
    assert!(!run.accepts(&BuildEvent::DistDone(Ok(()))));
    assert!(matches!(build_step(&mut run, BuildEvent::CleanDone), BuildStep::MakeDist(None)));
    match build_step(&mut run, BuildEvent::DistDone(Err("make dist failed".to_string()))) {
        BuildStep::Finished(r) => assert_eq!(r, Err("make dist failed".to_string())),
        _ => panic!("expected the build to finish"),
    }
    let (mut run, _) = BuildRun::start("/src", "/www", "docs", false);
    build_step(&mut run, BuildEvent::DocsFound(true));
    match build_step(&mut run, BuildEvent::RequirementsFound(true)) {
        BuildStep::RunPip(c) => assert_eq!(c.program, "pip"),
        _ => panic!("expected pip to run"),
    }
    match build_step(&mut run, BuildEvent::PipInstalled(CommandOutcome::Failed("x".to_string()))) {
        BuildStep::Finished(r) => assert_eq!(r, Err("pip install failed: x".to_string())),
        _ => panic!("expected the build to finish"),
    }
}

fn venv_step(run: &mut VenvRun, e: VenvEvent) -> VenvStep {
    assert!(run.accepts(&e));
    run.on_event(e)
}

#[test]
fn venv_is_kept_when_usable_and_remade_otherwise() {
    let (mut run, first) = VenvRun::start("/d/docs", "venv", "python3");
    assert!(matches!(first, VenvStep::CheckUsable));
    assert_eq!(run.files().python3, "/d/docs/venv/bin/python3");
    match venv_step(&mut run, VenvEvent::Usable(true)) {
        VenvStep::Finished(r) => assert_eq!(r, Ok("/d/docs/venv".to_string())),
        _ => panic!("expected the environment to be kept"),
    }
    let (mut run, _) = VenvRun::start("/d/docs/", "venv", "python3");
    assert!(matches!(venv_step(&mut run, VenvEvent::Usable(false)), VenvStep::CheckExists));
    assert!(matches!(venv_step(&mut run, VenvEvent::Exists(true)), VenvStep::Remove));
    match venv_step(&mut run, VenvEvent::Removed(Ok(()))) {
        VenvStep::Run(c) => {
            assert_eq!(c.program, "python3");
            assert_eq!(c.args, vec!["-m", "venv", "/d/docs/venv"]);
        }
        _ => panic!("expected python -m venv"),
    }
    assert!(matches!(venv_step(&mut run, VenvEvent::Ran(CommandOutcome::Failed("e".to_string()))), VenvStep::CheckExists));
    match venv_step(&mut run, VenvEvent::Exists(false)) {
        VenvStep::Run(c) => assert_eq!(c.args, vec!["-m", "venv", "--without-pip", "/d/docs/venv"]),
        _ => panic!("expected python -m venv --without-pip"),
    }
    match venv_step(&mut run, VenvEvent::Ran(CommandOutcome::Failed("no ensurepip".to_string()))) {
        VenvStep::Finished(r) => assert_eq!(r, Err("Failed to create venv: no ensurepip".to_string())),
        _ => panic!("expected the making to end"),
    }
    let (mut run, _) = VenvRun::start("/d", "v", "py");
    venv_step(&mut run, VenvEvent::Usable(false));
    venv_step(&mut run, VenvEvent::Exists(false));
    match venv_step(&mut run, VenvEvent::Ran(CommandOutcome::NotRun("missing".to_string()))) {
        VenvStep::Finished(r) => assert_eq!(r, Err("Failed to run `py -m venv`: missing".to_string())),
        _ => panic!("expected the making to end"),
    }
}

fn pip_step(run: &mut PipRun, e: PipEvent) -> PipStep {
    assert!(run.accepts(&e));
    run.on_event(e)
}

#[test]
fn pip_falls_back_to_get_pip_and_upgrades_when_asked() {
    let (mut run, _) = PipRun::start("/d", "venv", false);
    assert!(matches!(pip_step(&mut run, PipEvent::Exists(true)), PipStep::Finished(Ok(()))));
    let (mut run, _) = PipRun::start("/d", "venv", true);
    match pip_step(&mut run, PipEvent::Exists(false)) {
        PipStep::Run(c) => {
            assert_eq!(c.program, "/d/venv/bin/python");
            assert_eq!(c.args, vec!["-m", "ensurepip", "--upgrade"]);
        }
        _ => panic!("expected ensurepip"),
    }
    assert!(matches!(pip_step(&mut run, PipEvent::Ran(CommandOutcome::Failed(String::new()))), PipStep::DownloadGetPip));
    match pip_step(&mut run, PipEvent::Downloaded(Ok(()))) {
        PipStep::Run(c) => assert_eq!(c.args, vec!["/d/venv/get-pip.py"]),
        _ => panic!("expected get-pip.py"),
    }
    assert!(matches!(pip_step(&mut run, PipEvent::Ran(CommandOutcome::Succeeded)), PipStep::RemoveGetPip));
    match pip_step(&mut run, PipEvent::Removed) {
        PipStep::Run(c) => assert_eq!(c.args, vec!["-m", "pip", "install", "--upgrade", "pip", "setuptools", "wheel"]),
        _ => panic!("expected the upgrade"),
    }
    match pip_step(&mut run, PipEvent::Ran(CommandOutcome::Failed("net".to_string()))) {
        PipStep::Finished(r) => assert_eq!(r, Err("pip upgrade failed: net".to_string())),
        _ => panic!("expected the work to end"),
    }
    let (mut run, _) = PipRun::start("/d", "venv", false);
    pip_step(&mut run, PipEvent::Exists(false));
    pip_step(&mut run, PipEvent::Ran(CommandOutcome::Failed(String::new())));
    pip_step(&mut run, PipEvent::Downloaded(Ok(())));
    assert!(matches!(pip_step(&mut run, PipEvent::Ran(CommandOutcome::Failed("bad".to_string()))), PipStep::RemoveGetPip));
    match pip_step(&mut run, PipEvent::Removed) {
        PipStep::Finished(r) => assert_eq!(r, Err("get-pip.py failed: bad".to_string())),
        _ => panic!("expected the work to end"),
    }
}

fn ssh_config() -> ResolvedSshConfig {
    ResolvedSshConfig {
        host: "h".to_string(),
        port: 2222,
        user: "u".to_string(),
        password: "p".to_string(),
        remote_path: "/srv/".to_string(),
    }
}

#[test]
fn ssh_commands_remove_then_copy() {
    let (rm, rsync) = ssh_commands("/www/", "docs", "site", &ssh_config());
    assert_eq!(rm.program, "sshpass");
    assert_eq!(
        rm.args,
        vec!["-p", "p", "ssh", "-p", "2222", "-o", "StrictHostKeyChecking=no", "u@h", "rm -rf /srv/site/"]
    );
    assert_eq!(rsync.program, "sshpass");
    assert_eq!(
        rsync.args,
        vec![
            "-p", "p", "rsync", "-avz", "--delete", "--force", "--mkpath", "-e",
            "ssh -p 2222 -o StrictHostKeyChecking=no", "/www/docs/", "u@h:/srv/site/",
        ]
    );
}

#[test]
fn ssh_run_ignores_a_failed_removal_but_not_a_failed_copy() {
    let (mut run, first) = SshRun::start("/www", "docs", "site", &ssh_config());
    match first {
        SshStep::Run(c) => assert_eq!(c.args.last().unwrap(), "rm -rf /srv/site/"),
        _ => panic!("expected the removal"),
    }
    match run.on_event(CommandOutcome::Failed("no such dir".to_string())) {
        SshStep::Run(c) => assert_eq!(c.args[2], "rsync"),
        _ => panic!("expected the copy"),
    }
    match run.on_event(CommandOutcome::Succeeded) {
        SshStep::Finished(r) => assert_eq!(r, Ok("SSH deployed docs to u@h:/srv/site/".to_string())),
        _ => panic!("expected the end"),
    }
    assert_eq!(run.phase(), SshPhase::Finished);
    let (mut run, _) = SshRun::start("/www", "docs", "site", &ssh_config());
    match run.on_event(CommandOutcome::NotRun("no sshpass".to_string())) {
        SshStep::Finished(r) => assert_eq!(r, Err("Failed to remove remote directory: no sshpass".to_string())),
        _ => panic!("expected the end"),
    }
    let (mut run, _) = SshRun::start("/www", "docs", "site", &ssh_config());
    run.on_event(CommandOutcome::Succeeded);
    match run.on_event(CommandOutcome::Failed("denied".to_string())) {
        SshStep::Finished(r) => assert_eq!(r, Err("rsync failed: denied".to_string())),
        _ => panic!("expected the end"),
    }
}

fn git_step(run: &mut GitSyncRun, e: GitEvent) -> GitStep {
    assert!(run.accepts(&e));
    run.on_event(e)
}

#[test]
fn git_sync_clones_after_creating_the_source_folder() {
    let (mut run, first) = GitSyncRun::start("/src", "u", "docs", "refs/heads/main", false);
    match first {
        GitStep::CreateSourceDir(d) => assert_eq!(d, "/src"),
        _ => panic!("expected the source folder"),
    }
    match git_step(&mut run, GitEvent::SourceCreated(Ok(()))) {
        GitStep::RunGit(dir, args, t) => {
            assert_eq!(dir, None);
            assert_eq!(args, vec!["clone", "--branch", "main", "u", "/src/docs"]);
            assert_eq!(t, 120);
        }
        _ => panic!("expected the clone"),
    }
    match git_step(&mut run, GitEvent::Ran(GitOutcome::Succeeded)) {
        GitStep::Finished(r) => assert_eq!(r, Ok("Synced docs to branch main".to_string())),
        _ => panic!("expected the end"),
    }
    let (mut run, _) = GitSyncRun::start("/src", "u", "docs", "refs/heads/main", false);
    match git_step(&mut run, GitEvent::SourceCreated(Err("read-only".to_string()))) {
        GitStep::Finished(r) => assert_eq!(r, Err("Failed to create source directory: read-only".to_string())),
        _ => panic!("expected the end"),
    }
}

#[test]
fn git_sync_pulls_and_reports_failures() {
    let (mut run, first) = GitSyncRun::start("/src", "u", "docs", "refs/heads/main", true);
    match first {
        GitStep::RunGit(dir, args, _) => {
            assert_eq!(dir.as_deref(), Some("/src/docs"));
            assert_eq!(args, vec!["pull", "origin", "main"]);
        }
        _ => panic!("expected the pull"),
    }
    assert_eq!(run.phase(), GitPhase::Running);
    match git_step(&mut run, GitEvent::Ran(GitOutcome::TimedOut)) {
        GitStep::Finished(r) => assert_eq!(r, Err("git pull timed out after 120s".to_string())),
        _ => panic!("expected the end"),
    }
    let cases = vec![
        (GitOutcome::NotSpawned("e".to_string()), "Failed to spawn git pull: e"),
        (GitOutcome::WaitFailed("w".to_string()), "Failed waiting for git pull: w"),
        (GitOutcome::Failed("conflict".to_string()), "git pull failed: conflict"),
    ];
    for (o, msg) in cases {
        let (mut run, _) = GitSyncRun::start("/src", "u", "docs", "main", true);
        match git_step(&mut run, GitEvent::Ran(o)) {
            GitStep::Finished(r) => assert_eq!(r, Err(msg.to_string())),
            _ => panic!("expected the end"),
        }
    }
}
