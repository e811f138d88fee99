use webhook_server::admin::{
    action_target_at,
    add_repo, branch_ref, check_auth, check_auth_at, delete_repo, edit_repo, find_repo, new_repo_entry,
    record_outcome, remote_name, require_admin, require_admin_at, reset_interrupted, ssh_settings,
    update_status, visible_repos, AddRepoRequest, EditRepoRequest, RepoAction, RepoEntry,
};
use webhook_server::auth::{AuthState, LoginRequest};
use webhook_server::clock::Timestamp;
use webhook_server::config::{AppConfig, ConfigEnv, ConfigFile, ResolvedAdminConfig, ResolvedUserConfig};
use webhook_server::headers::RequestHeaders;
use webhook_server::status::HttpStatus;

fn auth() -> AuthState {
    AuthState::new(
        ResolvedAdminConfig { username: "admin".to_string(), password: "pw".to_string() },
        Some(ResolvedUserConfig { username: "viewer".to_string(), password: "vpw".to_string() }),
    )
}

fn req(u: &str, p: &str) -> LoginRequest {
    LoginRequest { username: u.to_string(), password: p.to_string() }
}

fn bearer(token: &str) -> RequestHeaders {
    let mut h = RequestHeaders::new();
    h.append("authorization".to_string(), Some(format!("Bearer {}", token)));
    h
}

#[test]
fn login_gives_roles_to_known_accounts() {
    let mut a = auth();
    let admin = a.login(&req("admin", "pw")).ok().unwrap();
    assert_eq!(admin.role, "admin");
    assert_eq!(admin.token.len(), 64);
    let viewer = a.login(&req("viewer", "vpw")).ok().unwrap();
    assert_eq!(viewer.role, "user");
    assert_eq!(a.validate_token_role(&admin.token), Some("admin".to_string()));
    assert_eq!(a.validate_token_role(&viewer.token), Some("user".to_string()));
    assert_eq!(a.validate_token_role("nope"), None);
    assert!(matches!(a.login(&req("admin", "bad")), Err(HttpStatus::Unauthorized)));
    let mut solo = AuthState::new(ResolvedAdminConfig { username: "a".to_string(), password: "b".to_string() }, None);
    assert!(matches!(solo.login(&req("viewer", "vpw")), Err(HttpStatus::Unauthorized)));
}

#[test]
fn sessions_last_one_day() {
    let mut a = auth();
    let t0 = Timestamp { secs: 1_000, nanos: 0 };
    a.insert_session("tok".to_string(), "user".to_string(), t0);
    assert_eq!(a.role_at("tok", Timestamp { secs: 1_000 + 86_399, nanos: 999_999_999 }), Some("user".to_string()));
    assert_eq!(a.role_at("tok", Timestamp { secs: 1_000 + 86_400, nanos: 0 }), None);
    assert_eq!(a.role_at("tok", Timestamp { secs: 0, nanos: 0 }), Some("user".to_string()));
    a.insert_session("tok".to_string(), "admin".to_string(), Timestamp { secs: 90_000, nanos: 0 });
    assert_eq!(a.role_at("tok", Timestamp { secs: 90_001, nanos: 0 }), Some("admin".to_string()));
}

#[test]
fn authorization_refuses_missing_and_non_admin() {
    let mut a = auth();
    let now = Timestamp { secs: 10, nanos: 0 };
    a.insert_session("u".to_string(), "user".to_string(), now);
    a.insert_session("ad".to_string(), "admin".to_string(), now);
    assert_eq!(check_auth_at(&a, &RequestHeaders::new(), now), Err(HttpStatus::Unauthorized));
    assert_eq!(check_auth_at(&a, &bearer("zzz"), now), Err(HttpStatus::Unauthorized));
    assert_eq!(check_auth_at(&a, &bearer("u"), now), Ok("user".to_string()));
    assert_eq!(require_admin_at(&a, &bearer("u"), now), Err(HttpStatus::Forbidden));
    assert_eq!(require_admin_at(&a, &bearer("ad"), now), Ok(()));
    let fresh = a.login(&req("admin", "pw")).ok().unwrap();
    assert_eq!(check_auth(&a, &bearer(&fresh.token)), Ok("admin".to_string()));
    assert_eq!(require_admin(&a, &bearer(&fresh.token)), Ok(()));
}

fn add_req(name: &str) -> AddRepoRequest {
    AddRepoRequest { name: name.to_string(), git_url: format!("https://x/{}.git", name), branch: None, deploy_name: None }
}

fn entry(id: &str, status: &str, msg: Option<&str>) -> RepoEntry {
    let mut e = new_repo_entry(add_req("r"), id.to_string(), "t".to_string());
    e.status = status.to_string();
    e.last_message = msg.map(str::to_string);
    e
}

#[test]
fn adding_repos_gives_defaults_and_fresh_ids() {
    let mut repos: Vec<RepoEntry> = Vec::new();
    let a = add_repo(&mut repos, add_req("one"));
    let b = add_repo(&mut repos, AddRepoRequest { branch: Some("dev".to_string()), ..add_req("two") });
    assert_eq!(repos.len(), 2);
    assert_eq!(a.branch, "main");
    assert_eq!(b.branch, "dev");
    assert_eq!(a.status, "idle");
    assert_eq!(a.id.len(), 36);
    assert_ne!(a.id, b.id);
    assert!(a.last_sync.is_none() && a.last_message.is_none());
    assert_eq!(find_repo(&repos, &b.id).unwrap().name, "two");
    assert!(find_repo(&repos, "missing").is_none());
}

#[test]
fn deleting_and_editing_repos() {
    let mut repos = vec![entry("a", "idle", None), entry("b", "idle", None), entry("a", "idle", None)];
    assert_eq!(delete_repo(&mut repos, "a"), Ok(()));
    assert_eq!(repos.len(), 1);
    assert_eq!(delete_repo(&mut repos, "a"), Err(HttpStatus::NotFound));
    repos[0].deploy_name = Some("site".to_string());
    let edit = EditRepoRequest { name: Some("renamed".to_string()), git_url: None, branch: None, deploy_name: Some(String::new()) };
    let e = edit_repo(&mut repos, "b", edit).ok().unwrap();
    assert_eq!(e.name, "renamed");
    assert_eq!(e.deploy_name, None);
    assert_eq!(repos[0].name, "renamed");
    let none = EditRepoRequest { name: None, git_url: None, branch: None, deploy_name: None };
    assert!(matches!(edit_repo(&mut repos, "zz", none), Err(HttpStatus::NotFound)));
}

#[test]
fn statuses_and_outcomes_are_recorded() {
    let mut repos = vec![entry("a", "idle", None), entry("b", "idle", None)];
    update_status(&mut repos, "b", "building");
    assert_eq!(repos[1].status, "building");
    record_outcome(&mut repos, "b", RepoAction::Build, &Ok("built".to_string()), "T");
    assert_eq!(repos[1].status, "idle");
    assert_eq!(repos[1].last_build.as_deref(), Some("T"));
    assert_eq!(repos[1].last_message.as_deref(), Some("built"));
    record_outcome(&mut repos, "a", RepoAction::Sync, &Err("boom".to_string()), "T2");
    assert_eq!(repos[0].status, "error");
    assert_eq!(repos[0].last_sync, None);
    assert_eq!(repos[0].last_message.as_deref(), Some("boom"));
}

#[test]
fn interrupted_actions_reset_on_load() {
    let mut repos = vec![entry("a", "syncing", None), entry("b", "error", None), entry("c", "deploying", None)];
    reset_interrupted(&mut repos);
    let statuses: Vec<&str> = repos.iter().map(|r| r.status.as_str()).collect();
    assert_eq!(statuses, vec!["idle", "error", "idle"]);
}

#[test]
fn ssh_reports_are_hidden_from_users() {
    let repos = vec![entry("a", "idle", Some("SSH deployed a to h:/r/a/")), entry("b", "idle", Some("Built"))];
    let seen = visible_repos(&repos, "user");
    assert_eq!(seen[0].last_message.as_deref(), Some("Published successfully"));
    assert_eq!(seen[1].last_message.as_deref(), Some("Built"));
    let admin = visible_repos(&repos, "admin");
    assert_eq!(admin[0].last_message.as_deref(), Some("SSH deployed a to h:/r/a/"));
}

#[test]
fn deploy_targets_and_refs() {
    let mut e = entry("a", "idle", None);
    assert_eq!(remote_name(&e), "r");
    e.deploy_name = Some("site".to_string());
    assert_eq!(remote_name(&e), "site");
    assert_eq!(branch_ref("main"), "refs/heads/main");
    let env = ConfigEnv {
        port: None, log_file_path: None, webhook_secret: None, allowed_orgs: None, allowed_users: None, allowed_repos: None,
        skip_ip_check: None, source_dir: None, deploy_dir: None, use_venv: None, venv_dir: None,
        python_bin: None, upgrade_pip: None,
    };
    let c = AppConfig::load(
        ConfigFile { server: None, admin: None, user: None, webhook: None, build: None, deploy_ssh: None },
        env,
    );
    assert!(matches!(ssh_settings(&c), Err(HttpStatus::BadRequest)));
}

#[test]
fn deleting_a_fresh_repo_restores_the_list() {
    let mut repos = vec![entry("a", "idle", None), entry("b", "error", Some("x"))];
    let added = add_repo(&mut repos, add_req("new"));
    assert_eq!(find_repo(&repos, &added.id).unwrap().name, "new");
    assert_eq!(delete_repo(&mut repos, &added.id), Ok(()));
    let ids: Vec<&str> = repos.iter().map(|r| r.id.as_str()).collect();
    assert_eq!(ids, vec!["a", "b"]);
    assert_eq!(repos[1].last_message.as_deref(), Some("x"));
    assert!(find_repo(&repos, &added.id).is_none());
}

#[test]
fn action_refusals_come_in_order() {
    let mut a = auth();
    let now = Timestamp { secs: 10, nanos: 0 };
    a.insert_session("u".to_string(), "user".to_string(), now);
    a.insert_session("ad".to_string(), "admin".to_string(), now);
    let repos = vec![entry("a", "idle", None)];
    let env = ConfigEnv {
        port: None, log_file_path: None, webhook_secret: None, allowed_orgs: None, allowed_users: None, allowed_repos: None,
        skip_ip_check: None, source_dir: None, deploy_dir: None, use_venv: None, venv_dir: None,
        python_bin: None, upgrade_pip: None,
    };
    let no_ssh = AppConfig::load(
        ConfigFile { server: None, admin: None, user: None, webhook: None, build: None, deploy_ssh: None },
        env,
    );
    let t = |h: &RequestHeaders, id: &str, act: RepoAction| action_target_at(&a, h, now, &repos, id, act, &no_ssh).map(|e| e.id);
    assert_eq!(t(&RequestHeaders::new(), "zz", RepoAction::Deploy), Err(HttpStatus::Unauthorized));
    assert_eq!(t(&bearer("u"), "zz", RepoAction::Deploy), Err(HttpStatus::Forbidden));
    assert_eq!(t(&bearer("ad"), "zz", RepoAction::Deploy), Err(HttpStatus::NotFound));
    assert_eq!(t(&bearer("ad"), "a", RepoAction::Deploy), Err(HttpStatus::BadRequest));
    assert_eq!(t(&bearer("u"), "a", RepoAction::Sync), Ok("a".to_string()));
    assert_eq!(t(&bearer("u"), "zz", RepoAction::Build), Err(HttpStatus::NotFound));
    assert_eq!(t(&RequestHeaders::new(), "a", RepoAction::Build), Err(HttpStatus::Unauthorized));
}
