use webhook_server::config::{
    AdminConfig, AppConfig, BuildConfig, ConfigEnv, ConfigFile, ServerConfig, SshDeployConfig,
    UserConfig, WebhookConfig,
};

fn no_env() -> ConfigEnv {
    ConfigEnv {
        port: None,
        log_file_path: None,
        webhook_secret: None,
        allowed_orgs: None,
        allowed_users: None,
        allowed_repos: None,
        skip_ip_check: None,
        source_dir: None,
        deploy_dir: None,
        use_venv: None,
        venv_dir: None,
        python_bin: None,
        upgrade_pip: None,
    }
}

fn no_file() -> ConfigFile {
    ConfigFile { server: None, admin: None, user: None, webhook: None, build: None, deploy_ssh: None }
}

#[test]
fn defaults_apply_without_file_or_environment() {
    let c = AppConfig::load(no_file(), no_env());
    assert_eq!(c.port, 5000);
    assert_eq!(c.log_file_path, "webhook-server.log");
    assert_eq!(c.webhook_secret, "");
    assert!(c.allowed_orgs.is_empty() && c.allowed_users.is_empty() && c.allowed_repos.is_empty());
    assert!(!c.skip_ip_check);
    assert_eq!(c.source_dir, "/var/www/docs-source");
    assert_eq!(c.deploy_dir, "/var/www/docs");
    assert!(c.use_venv);
    assert_eq!(c.venv_dir, "venv");
    assert_eq!(c.python_bin, "python3");
    assert!(c.upgrade_pip);
    assert!(c.admin.is_none() && c.user.is_none() && c.ssh_deploy.is_none());
}

fn s(v: &str) -> Option<String> {
    Some(v.to_string())
}

fn full_file() -> ConfigFile {
    ConfigFile {
        server: Some(ServerConfig { port: Some(8080), log_file_path: s("/var/log/w.log") }),
        admin: Some(AdminConfig { username: None, password: s("pw") }),
        user: Some(UserConfig { username: s("viewer"), password: None }),
        webhook: Some(WebhookConfig {
            secret: s("file-secret"),
            allowed_orgs: Some(vec!["org".to_string()]),
            allowed_users: None,
            allowed_repos: Some(vec!["org/docs".to_string()]),
            skip_ip_check: Some(true),
        }),
        build: Some(BuildConfig {
            source_dir: s("/src"),
            deploy_dir: None,
            use_venv: Some(false),
            venv_dir: None,
            python_bin: s("python3.12"),
            upgrade_pip: None,
        }),
        deploy_ssh: Some(SshDeployConfig {
            enabled: Some(true),
            host: s("h"),
            port: None,
            user: None,
            password: s("p"),
            remote_path: s("/r"),
        }),
    }
}

#[test]
fn file_values_apply_where_environment_is_silent() {
    let c = AppConfig::load(full_file(), no_env());
    assert_eq!(c.port, 8080);
    assert_eq!(c.log_file_path, "/var/log/w.log");
    assert_eq!(c.webhook_secret, "file-secret");
    assert_eq!(c.allowed_orgs, vec!["org"]);
    assert_eq!(c.allowed_repos, vec!["org/docs"]);
    assert!(c.skip_ip_check);
    assert_eq!(c.source_dir, "/src");
    assert!(!c.use_venv);
    assert_eq!(c.python_bin, "python3.12");
    let admin = c.admin.unwrap();
    assert_eq!((admin.username.as_str(), admin.password.as_str()), ("admin", "pw"));
    assert!(c.user.is_none());
    let ssh = c.ssh_deploy.unwrap();
    assert_eq!((ssh.host.as_str(), ssh.port, ssh.user.as_str()), ("h", 22, "root"));
}

#[test]
fn environment_overrides_file() {
    let mut env = no_env();
    env.port = s("9000");
    env.webhook_secret = s("env-secret");
    env.allowed_orgs = s(" a , ,b ");
    env.allowed_repos = s("a/docs, b/site");
    env.skip_ip_check = s("TRUE");
    env.use_venv = s("true");
    let c = AppConfig::load(full_file(), env);
    assert_eq!(c.port, 9000);
    assert_eq!(c.webhook_secret, "env-secret");
    assert_eq!(c.allowed_orgs, vec!["a", "b"]);
    assert_eq!(c.allowed_repos, vec!["a/docs", "b/site"]);
    assert!(!c.skip_ip_check);
    assert!(c.use_venv);
}

#[test]
fn unparsable_port_falls_back_to_default() {
    let mut env = no_env();
    env.port = s("http");
    assert_eq!(AppConfig::load(full_file(), env).port, 5000);
}

#[test]
fn ssh_needs_enabled_host_password_and_path() {
    let mut f = full_file();
    f.deploy_ssh.as_mut().unwrap().enabled = None;
    assert!(AppConfig::load(f, no_env()).ssh_deploy.is_none());
    let mut f = full_file();
    f.deploy_ssh.as_mut().unwrap().remote_path = None;
    assert!(AppConfig::load(f, no_env()).ssh_deploy.is_none());
    let mut f = full_file();
    f.user.as_mut().unwrap().password = s("u");
    let c = AppConfig::load(f, no_env());
    assert_eq!(c.user.unwrap().username, "viewer");
}
