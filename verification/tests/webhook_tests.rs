use webhook_server::config::{AppConfig, ConfigEnv, ConfigFile};
use webhook_server::crypto::{signature_matches, verify_signature, verify_token};
use webhook_server::headers::RequestHeaders;
use webhook_server::net::{ClientAddr, IpNet, IpValue};
use webhook_server::status::HttpStatus;
use webhook_server::webhook::{
    deployment_log_entry, detect_provider, finish_deployment, is_allowed_owner, is_allowed_repo, is_push_event, start_deployment,
    payload_owner_login, payload_owner_type, payload_repo_full_name, plan_deployment, push_log,
    repo_clone_url, screen_webhook, CommitInfo, Committer, DeployJob, DeploymentLog, OwnerInfo,
    ProjectInfo, RepositoryInfo, WebhookPayload, WebhookPlan, WebhookProvider, WebhookScreen,
};

#[test]
fn gitee_push_event_is_supported() {
    assert!(is_push_event(WebhookProvider::Gitee, "Push Hook"));
    assert!(is_push_event(WebhookProvider::Gitee, "push"));
    assert!(!is_push_event(WebhookProvider::Gitee, "Merge Request Hook"));
}

#[test]
fn gitlab_push_event_is_supported() {
    assert!(is_push_event(WebhookProvider::GitLab, "Push Hook"));
    assert!(is_push_event(WebhookProvider::GitLab, "push"));
    assert!(!is_push_event(WebhookProvider::GitLab, "Merge Request Hook"));
}

#[test]
fn gitee_token_uses_webhook_secret() {
    assert!(verify_token("secret", "secret"));
    assert!(!verify_token("wrong", "secret"));
    assert!(!verify_token("", "secret"));
    assert!(!verify_token("secret", ""));
}

#[test]
fn whitelist_accepts_gitee_group_like_owner() {
    let allowed_orgs = vec!["docs-team".to_string()];
    let allowed_users: Vec<String> = Vec::new();
    assert!(is_allowed_owner("docs-team", Some("Group"), &allowed_orgs, &allowed_users));
    assert!(!is_allowed_owner("other-team", Some("Group"), &allowed_orgs, &allowed_users));
}

#[test]
fn whitelist_checks_unknown_owner_type_against_both_lists() {
    let allowed_orgs = vec!["docs-team".to_string()];
    let allowed_users = vec!["alice".to_string()];
    assert!(is_allowed_owner("docs-team", None, &allowed_orgs, &allowed_users));
    assert!(is_allowed_owner("alice", None, &allowed_orgs, &allowed_users));
    assert!(!is_allowed_owner("bob", None, &allowed_orgs, &allowed_users));
}

#[test]
fn github_push_event_is_exactly_push() {
    assert!(is_push_event(WebhookProvider::GitHub, "push"));
    assert!(!is_push_event(WebhookProvider::GitHub, "Push"));
    assert!(!is_push_event(WebhookProvider::GitHub, "Push Hook"));
    assert!(is_push_event(WebhookProvider::GitLab, "PUSH HOOK"));
}

#[test]
fn whitelist_empty_lists_admit_everyone() {
    let none: Vec<String> = Vec::new();
    assert!(is_allowed_owner("anyone", Some("Organization"), &none, &none));
    assert!(is_allowed_owner("anyone", None, &none, &none));
}

#[test]
fn whitelist_org_owner_not_matched_by_user_list() {
    let orgs: Vec<String> = vec!["acme".to_string()];
    let users: Vec<String> = vec!["alice".to_string()];
    assert!(!is_allowed_owner("alice", Some("Organization"), &orgs, &users));
    assert!(is_allowed_owner("acme", Some("Enterprise"), &orgs, &users));
    assert!(is_allowed_owner("acme", Some("User"), &orgs, &users));
    assert!(is_allowed_owner("alice", Some("Bot"), &orgs, &users));
    assert!(!is_allowed_owner("alice", Some("organization"), &orgs, &Vec::new()));
}

#[test]
fn signature_of_known_vector_is_accepted() {
    let body = b"The quick brown fox jumps over the lazy dog";
    let sig = "sha256=f7bc83f430538424b13298e6aa6fb143ef4d59a14946175997479dbc2d1a3cd8";
    assert!(verify_signature(body, sig, "key"));
    assert!(!verify_signature(body, sig, "other"));
    assert!(!verify_signature(body, "", "key"));
    assert!(!verify_signature(body, sig, ""));
    assert!(!verify_signature(b"changed body", sig, "key"));
}

#[test]
fn signature_matches_digest_text() {
    assert!(signature_matches(&[0xbe, 0xef], "sha256=beef"));
    assert!(!signature_matches(&[0xbe, 0xef], "sha256=BEEF"));
    assert!(!signature_matches(&[0xbe, 0xef], "beef"));
}

fn headers(pairs: &[(&str, &str)]) -> RequestHeaders {
    let mut h = RequestHeaders::new();
    for (k, v) in pairs {
        h.append(k.to_string(), Some(v.to_string()));
    }
    h
}

#[test]
fn provider_detection_prefers_gitlab_then_gitee() {
    assert_eq!(detect_provider(&headers(&[("x-gitlab-event", "Push Hook")])), Some(WebhookProvider::GitLab));
    assert_eq!(
        detect_provider(&headers(&[("x-github-event", "push"), ("x-gitee-token", "t")])),
        Some(WebhookProvider::Gitee)
    );
    assert_eq!(detect_provider(&headers(&[("x-hub-signature-256", "sha256=00")])), Some(WebhookProvider::GitHub));
    assert_eq!(detect_provider(&headers(&[("content-type", "application/json")])), None);
}

fn config(secret: &str, skip_ip_check: bool) -> AppConfig {
    let mut c = AppConfig::load(empty_file(), empty_env());
    c.webhook_secret = secret.to_string();
    c.skip_ip_check = skip_ip_check;
    c
}

fn empty_file() -> ConfigFile {
    ConfigFile { server: None, admin: None, user: None, webhook: None, build: None, deploy_ssh: None }
}

fn empty_env() -> ConfigEnv {
    ConfigEnv {
        port: None,
        log_file_path: None,
        webhook_secret: None,
        allowed_orgs: None,
        allowed_users: None,
        allowed_repos: None,
        skip_ip_check: None,
        source_dir: None,
        deploy_dir: None,
        use_venv: None,
        venv_dir: None,
        python_bin: None,
        upgrade_pip: None,
    }
}

fn github_nets() -> Vec<IpNet> {
    vec![IpNet::new(IpValue::V4(0xC01E_FC00), 22).unwrap()]
}

#[test]
fn screening_refuses_unknown_and_foreign_deliveries() {
    let client = ClientAddr { ip: IpValue::V4(0x0A00_0001), port: 1234 };
    let body: &[u8] = b"{}";
    let r = screen_webhook(&config("", false), &headers(&[]), client, &github_nets(), body);
    assert_eq!(r, WebhookScreen::Reply(HttpStatus::BadRequest));
    let gh = headers(&[("X-GitHub-Event", "push")]);
    let r = screen_webhook(&config("", false), &gh, client, &github_nets(), body);
    assert_eq!(r, WebhookScreen::Reply(HttpStatus::Forbidden));
    let r = screen_webhook(&config("", true), &gh, client, &github_nets(), body);
    assert_eq!(r, WebhookScreen::ParsePayload(WebhookProvider::GitHub));
    let inside = ClientAddr { ip: IpValue::V4(0xC01E_FD05), port: 80 };
    let r = screen_webhook(&config("", false), &gh, inside, &github_nets(), body);
    assert_eq!(r, WebhookScreen::ParsePayload(WebhookProvider::GitHub));
}

#[test]
fn screening_answers_pings_tests_and_other_events() {
    let client = ClientAddr { ip: IpValue::V4(1), port: 1 };
    let body: &[u8] = b"{}";
    let c = config("s", true);
    let r = screen_webhook(&c, &headers(&[("X-GitHub-Event", "ping")]), client, &[], body);
    assert_eq!(r, WebhookScreen::Reply(HttpStatus::Success));
    let r = screen_webhook(&c, &headers(&[("X-Gitee-Event", "test hook")]), client, &[], body);
    assert_eq!(r, WebhookScreen::Reply(HttpStatus::Success));
    let r = screen_webhook(&c, &headers(&[("X-Gitlab-Event", "Tag Push Hook")]), client, &[], body);
    assert_eq!(r, WebhookScreen::Reply(HttpStatus::Success));
}

#[test]
fn screening_checks_the_secret() {
    let client = ClientAddr { ip: IpValue::V4(1), port: 1 };
    let body: &[u8] = b"The quick brown fox jumps over the lazy dog";
    let c = config("key", true);
    let good = headers(&[
        ("X-GitHub-Event", "push"),
        ("X-Hub-Signature-256", "sha256=f7bc83f430538424b13298e6aa6fb143ef4d59a14946175997479dbc2d1a3cd8"),
    ]);
    assert_eq!(screen_webhook(&c, &good, client, &[], body), WebhookScreen::ParsePayload(WebhookProvider::GitHub));
    let bad = headers(&[("X-GitHub-Event", "push"), ("X-Hub-Signature-256", "sha256=00")]);
    assert_eq!(screen_webhook(&c, &bad, client, &[], body), WebhookScreen::Reply(HttpStatus::Forbidden));
    let gitee = headers(&[("X-Gitee-Event", "Push Hook"), ("X-Gitee-Token", "key")]);
    assert_eq!(screen_webhook(&c, &gitee, client, &[], body), WebhookScreen::ParsePayload(WebhookProvider::Gitee));
    let gitlab = headers(&[("X-Gitlab-Event", "Push Hook"), ("X-Gitlab-Token", "nope")]);
    assert_eq!(screen_webhook(&c, &gitlab, client, &[], body), WebhookScreen::Reply(HttpStatus::Forbidden));
    let open = config("", true);
    assert_eq!(screen_webhook(&open, &gitlab, client, &[], body), WebhookScreen::ParsePayload(WebhookProvider::GitLab));
}

fn owner(login: Option<&str>, name: Option<&str>, path: Option<&str>, t: Option<&str>) -> OwnerInfo {
    OwnerInfo {
        login: login.map(str::to_string),
        name: name.map(str::to_string),
        path: path.map(str::to_string),
        owner_type: t.map(str::to_string),
    }
}

fn github_payload(branch: &str) -> WebhookPayload {
    WebhookPayload {
        ref_name: Some(branch.to_string()),
        repository: Some(RepositoryInfo {
            full_name: Some("acme/docs".to_string()),
            name: Some("docs".to_string()),
            clone_url: Some("https://github.com/acme/docs.git".to_string()),
            git_http_url: None,
            owner: Some(owner(Some("acme"), None, None, Some("Organization"))),
        }),
        project: None,
        head_commit: Some(CommitInfo { committer: Some(Committer { name: Some("Ann".to_string()) }) }),
        user_name: None,
    }
}

fn gitlab_payload() -> WebhookPayload {
    WebhookPayload {
        ref_name: Some("refs/heads/master".to_string()),
        repository: None,
        project: Some(ProjectInfo {
            path_with_namespace: Some("group/sub/handbook".to_string()),
            name: Some("handbook".to_string()),
            git_http_url: None,
            http_url_to_repo: None,
        }),
        head_commit: None,
        user_name: Some("Bo".to_string()),
    }
}

#[test]
fn payload_fields_follow_their_fallbacks() {
    let p = github_payload("refs/heads/main");
    assert_eq!(payload_repo_full_name(&p), "acme/docs");
    assert_eq!(payload_owner_login(&p), "acme");
    assert_eq!(payload_owner_type(&p), Some("Organization"));
    let q = gitlab_payload();
    assert_eq!(payload_repo_full_name(&q), "group/sub/handbook");
    assert_eq!(payload_owner_login(&q), "group/sub");
    assert_eq!(payload_owner_type(&q), None);
    assert_eq!(repo_clone_url(WebhookProvider::GitLab, &q, "group/sub/handbook"), "https://gitlab.com/group/sub/handbook.git");
    assert_eq!(repo_clone_url(WebhookProvider::Gitee, &q, "a/b"), "https://gitee.com/a/b.git");
    let empty = WebhookPayload { ref_name: None, repository: None, project: None, head_commit: None, user_name: None };
    assert_eq!(payload_repo_full_name(&empty), "unknown");
    assert_eq!(payload_owner_login(&empty), "unknown");
    assert_eq!(repo_clone_url(WebhookProvider::GitHub, &empty, "unknown"), "https://github.com/unknown.git");
}

#[test]
fn owner_login_prefers_login_then_name_then_path() {
    let mut p = github_payload("refs/heads/main");
    p.repository.as_mut().unwrap().owner = Some(owner(None, Some("Named"), Some("pathy"), None));
    assert_eq!(payload_owner_login(&p), "Named");
    p.repository.as_mut().unwrap().owner = Some(owner(None, None, Some("pathy"), None));
    assert_eq!(payload_owner_login(&p), "pathy");
    p.repository.as_mut().unwrap().owner = Some(owner(None, None, None, None));
    assert_eq!(payload_owner_login(&p), "unknown");
}

#[test]
fn plan_deploys_main_of_allowed_owner() {
    let c = config("", true);
    match plan_deployment(WebhookProvider::GitHub, Some(&github_payload("refs/heads/main")), &c) {
        WebhookPlan::Deploy(job) => {
            assert_eq!(job.repo_name, "docs");
            assert_eq!(job.repo_full_name, "acme/docs");
            assert_eq!(job.branch, "refs/heads/main");
            assert_eq!(job.committer, "Ann");
            assert_eq!(job.repo_url, "https://github.com/acme/docs.git");
        }
        WebhookPlan::Reply(_) => panic!("expected a deployment"),
    }
    match plan_deployment(WebhookProvider::GitLab, Some(&gitlab_payload()), &c) {
        WebhookPlan::Deploy(job) => {
            assert_eq!(job.repo_name, "handbook");
            assert_eq!(job.committer, "Bo");
        }
        WebhookPlan::Reply(_) => panic!("expected a deployment"),
    }
}

#[test]
fn plan_refuses_or_skips() {
    let c = config("", true);
    assert!(matches!(plan_deployment(WebhookProvider::GitHub, None, &c), WebhookPlan::Reply(HttpStatus::BadRequest)));
    assert!(matches!(
        plan_deployment(WebhookProvider::GitHub, Some(&github_payload("refs/heads/dev")), &c),
        WebhookPlan::Reply(HttpStatus::Success)
    ));
    let mut strict = config("", true);
    strict.allowed_users = vec!["acme".to_string()];
    assert!(matches!(
        plan_deployment(WebhookProvider::GitHub, Some(&github_payload("refs/heads/main")), &strict),
        WebhookPlan::Reply(HttpStatus::Forbidden)
    ));
}

#[test]
fn repository_whitelist_refuses_unlisted_repositories() {
    let payload = github_payload("refs/heads/main");
    let full = payload_repo_full_name(&payload);
    let mut c = config("", true);
    c.allowed_repos = vec!["acme/other".to_string()];
    assert!(matches!(
        plan_deployment(WebhookProvider::GitHub, Some(&payload), &c),
        WebhookPlan::Reply(HttpStatus::Forbidden)
    ));
    c.allowed_repos = vec!["acme/other".to_string(), full.clone()];
    assert!(matches!(plan_deployment(WebhookProvider::GitHub, Some(&payload), &c), WebhookPlan::Deploy(_)));
    assert!(is_allowed_repo("any/repo", &[]));
    assert!(!is_allowed_repo("any/repo", &["any/other".to_string()]));
}

fn job() -> DeployJob {
    DeployJob {
        repo_url: "u".to_string(),
        repo_name: "docs".to_string(),
        branch: "refs/heads/main".to_string(),
        committer: "Ann".to_string(),
        repo_full_name: "acme/docs".to_string(),
    }
}

#[test]
fn log_entry_cuts_message_to_500_chars() {
    let e = deployment_log_entry(job(), Err("x".repeat(600)), "t0".to_string());
    assert_eq!(e.status, "failed");
    assert_eq!(e.message.chars().count(), 500);
    assert_eq!(e.timestamp, "t0");
    assert_eq!(e.repo.as_deref(), Some("acme/docs"));
    let ok = deployment_log_entry(job(), Ok("done".to_string()), "t1".to_string());
    assert_eq!(ok.status, "success");
    assert_eq!(ok.message, "done");
    let started = start_deployment(job());
    let stamp = started.timestamp.clone();
    assert!(!stamp.is_empty());
    let done = finish_deployment(started, Ok("fine".to_string()));
    assert_eq!(done.timestamp, stamp);
    assert_eq!(done.message, "fine");
}

fn entry(n: usize) -> DeploymentLog {
    deployment_log_entry(job(), Ok(format!("{}", n)), format!("t{}", n))
}

#[test]
fn log_keeps_the_newest_hundred_entries() {
    let mut log: Vec<DeploymentLog> = Vec::new();
    for n in 0..100 {
        push_log(&mut log, entry(n));
    }
    assert_eq!(log.len(), 100);
    push_log(&mut log, entry(100));
    assert_eq!(log.len(), 100);
    assert_eq!(log[0].message, "1");
    assert_eq!(log[99].message, "100");
    push_log(&mut log, entry(101));
    assert_eq!(log[0].message, "2");
    assert_eq!(log[99].message, "101");
}
