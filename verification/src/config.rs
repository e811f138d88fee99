//! The configuration file's sections, the environment overrides, and their
//! resolution into the settings the server runs with.
use vstd::prelude::*;

use crate::headers::opt_view;
use crate::text::{
    decimal, decimal_spec, lemma_u16_decimal_round_trip, list_spec, parse_u16, parse_u16_spec, split_trimmed,
    text_eq,
};

verus! {

/// The configuration file, section by section.
pub struct ConfigFile {
    pub server: Option<ServerConfig>,
    pub admin: Option<AdminConfig>,
    pub user: Option<UserConfig>,
    pub webhook: Option<WebhookConfig>,
    pub build: Option<BuildConfig>,
    pub deploy_ssh: Option<SshDeployConfig>,
}

/// The `[server]` section.
pub struct ServerConfig {
    pub port: Option<u16>,
    pub log_file_path: Option<String>,
}

/// The `[admin]` section.
pub struct AdminConfig {
    pub username: Option<String>,
    pub password: Option<String>,
}

/// The `[user]` section.
pub struct UserConfig {
    pub username: Option<String>,
    pub password: Option<String>,
}

/// The `[webhook]` section.
pub struct WebhookConfig {
    pub secret: Option<String>,
    pub allowed_orgs: Option<Vec<String>>,
    pub allowed_users: Option<Vec<String>>,
    pub allowed_repos: Option<Vec<String>>,
    pub skip_ip_check: Option<bool>,
}

/// The `[build]` section.
pub struct BuildConfig {
    pub source_dir: Option<String>,
    pub deploy_dir: Option<String>,
    pub use_venv: Option<bool>,
    pub venv_dir: Option<String>,
    pub python_bin: Option<String>,
    pub upgrade_pip: Option<bool>,
}

/// The `[deploy_ssh]` section.
pub struct SshDeployConfig {
    pub enabled: Option<bool>,
    pub host: Option<String>,
    pub port: Option<u16>,
    pub user: Option<String>,
    pub password: Option<String>,
    pub remote_path: Option<String>,
}

/// The environment variables that override the file: `PORT`, `LOG_FILE_PATH`,
/// `WEBHOOK_SECRET`, `ALLOWED_ORGS`, `ALLOWED_USERS`, `ALLOWED_REPOS`, `SKIP_IP_CHECK`,
/// `SOURCE_DIR`, `DEPLOY_DIR`, `USE_VENV`, `VENV_DIR`, `PYTHON_BIN`,
/// `UPGRADE_PIP`; each as its text where it is set and valid Unicode.
pub struct ConfigEnv {
    pub port: Option<String>,
    pub log_file_path: Option<String>,
    pub webhook_secret: Option<String>,
    pub allowed_orgs: Option<String>,
    pub allowed_users: Option<String>,
    pub allowed_repos: Option<String>,
    pub skip_ip_check: Option<String>,
    pub source_dir: Option<String>,
    pub deploy_dir: Option<String>,
    pub use_venv: Option<String>,
    pub venv_dir: Option<String>,
    pub python_bin: Option<String>,
    pub upgrade_pip: Option<String>,
}

/// Resolved application configuration, merged from the file and the environment.
pub struct AppConfig {
    pub port: u16,
    pub log_file_path: String,
    pub webhook_secret: String,
    pub allowed_orgs: Vec<String>,
    pub allowed_users: Vec<String>,
    pub allowed_repos: Vec<String>,
    pub skip_ip_check: bool,
    pub source_dir: String,
    pub deploy_dir: String,
    pub use_venv: bool,
    pub venv_dir: String,
    pub python_bin: String,
    pub upgrade_pip: bool,
    pub admin: Option<ResolvedAdminConfig>,
    pub user: Option<ResolvedUserConfig>,
    pub ssh_deploy: Option<ResolvedSshConfig>,
}

/// Administrator credentials.
pub struct ResolvedAdminConfig {
    pub username: String,
    pub password: String,
}

/// Credentials of the second, non-administrator account.
pub struct ResolvedUserConfig {
    pub username: String,
    pub password: String,
}

/// Where and how finished builds are copied over SSH.
pub struct ResolvedSshConfig {
    pub host: String,
    pub port: u16,
    pub user: String,
    pub password: String,
    pub remote_path: String,
}

/// The environment's value where it is set, else the file's.
pub open spec fn env_or_spec(env: Option<String>, fallback: Option<Seq<char>>) -> Option<Seq<char>> {
    match env {
        Some(v) => Some(v@),
        None => fallback,
    }
}

/// The text of `o`, or `default` where there is none.
pub open spec fn text_or(o: Option<Seq<char>>, default: Seq<char>) -> Seq<char> {
    match o {
        Some(v) => v,
        None => default,
    }
}

/// A list setting: the environment's comma-separated list where it is set,
/// else the file's list, else no entries.
pub open spec fn env_list_spec(env: Option<String>, fallback: Option<Vec<String>>) -> Seq<Seq<char>> {
    match env {
        Some(v) => list_spec(v@, ','),
        None => match fallback {
            Some(l) => l.deep_view(),
            None => Seq::empty(),
        },
    }
}

/// A flag setting: where the environment sets it, whether it reads exactly
/// `true`; else the file's value, else false.
pub open spec fn env_bool_spec(env: Option<String>, fallback: Option<bool>) -> bool {
    match env {
        Some(v) => v@ == "true"@,
        None => match fallback {
            Some(b) => b,
            None => false,
        },
    }
}

/// The port: the environment's `PORT` where it is set (5000 where it does not
/// spell a `u16`), else the file's port, else 5000.
pub open spec fn port_spec(env: Option<String>, file_port: Option<u16>) -> u16 {
    match env {
        Some(v) => match parse_u16_spec(v@) {
            Some(p) => p,
            None => 5000,
        },
        None => match file_port {
            Some(p) => p,
            None => 5000,
        },
    }
}

/// The administrator account: present where the file's `[admin]` section
/// gives a password; its user name defaults to `admin`.
pub open spec fn admin_resolved(file: Option<AdminConfig>, r: Option<ResolvedAdminConfig>) -> bool {
    match file {
        Some(a) => match a.password {
            Some(p) => r matches Some(x) && x.password@ == p@ && x.username@ == text_or(
                opt_view(a.username),
                "admin"@,
            ),
            None => r is None,
        },
        None => r is None,
    }
}

/// The second account: present where the file's `[user]` section gives a
/// password; its user name defaults to `user`.
pub open spec fn user_resolved(file: Option<UserConfig>, r: Option<ResolvedUserConfig>) -> bool {
    match file {
        Some(u) => match u.password {
            Some(p) => r matches Some(x) && x.password@ == p@ && x.username@ == text_or(
                opt_view(u.username),
                "user"@,
            ),
            None => r is None,
        },
        None => r is None,
    }
}

/// SSH deployment: present where the file's `[deploy_ssh]` section is enabled
/// and gives host, password and remote path; port defaults to 22, user to `root`.
pub open spec fn ssh_resolved(file: Option<SshDeployConfig>, r: Option<ResolvedSshConfig>) -> bool {
    match file {
        Some(s) => if s.enabled == Some(true) && s.host is Some && s.password is Some
            && s.remote_path is Some {
            r matches Some(x) && x.host@ == s.host.unwrap()@ && x.password@ == s.password.unwrap()@
                && x.remote_path@ == s.remote_path.unwrap()@ && x.port == (match s.port {
                Some(p) => p,
                None => 22u16,
            }) && x.user@ == text_or(opt_view(s.user), "root"@)
        } else {
            r is None
        },
        None => r is None,
    }
}

fn env_or(value: Option<String>, fallback: Option<String>) -> (r: Option<String>)
    ensures
        opt_view(r) == env_or_spec(value, opt_view(fallback)),
{
    match value {
        Some(v) => Some(v),
        None => fallback,
    }
}

fn text_or_default(value: Option<String>, default: &str) -> (r: String)
    ensures
        r@ == text_or(opt_view(value), default@),
{
    match value {
        Some(v) => v,
        None => String::from_str(default),
    }
}

fn env_list_or(value: Option<String>, fallback: Option<Vec<String>>) -> (r: Vec<String>)
    ensures
        r.deep_view() == env_list_spec(value, fallback),
{
    match value {
        Some(v) => split_trimmed(v.as_str(), ','),
        None => match fallback {
            Some(l) => l,
            None => {
                let r: Vec<String> = Vec::new();
                assert(r.deep_view() =~= Seq::<Seq<char>>::empty());
                r
            },
        },
    }
}

fn env_bool_or(value: Option<String>, fallback: Option<bool>) -> (r: bool)
    ensures
        r == env_bool_spec(value, fallback),
{
    match value {
        Some(v) => text_eq(v.as_str(), "true"),
        None => match fallback {
            Some(b) => b,
            None => false,
        },
    }
}

fn resolve_port(value: Option<String>, file_port: Option<u16>) -> (r: u16)
    ensures
        r == port_spec(value, file_port),
{
    let fallback: Option<String> = match file_port {
        Some(p) => Some(decimal(p as u64)),
        None => None,
    };
    let text: Option<String> = env_or(value, fallback);
    proof {
        if value is None && file_port is Some {
            lemma_u16_decimal_round_trip(file_port.unwrap());
        }
    }
    match text {
        Some(s) => match parse_u16(s.as_str()) {
            Some(p) => p,
            None => 5000,
        },
        None => 5000,
    }
}

fn resolve_admin(file: Option<AdminConfig>) -> (r: Option<ResolvedAdminConfig>)
    ensures
        admin_resolved(file, r),
{
    match file {
        Some(a) => match a.password {
            Some(password) => Some(
                ResolvedAdminConfig { username: text_or_default(a.username, "admin"), password },
            ),
            None => None,
        },
        None => None,
    }
}

fn resolve_user(file: Option<UserConfig>) -> (r: Option<ResolvedUserConfig>)
    ensures
        user_resolved(file, r),
{
    match file {
        Some(u) => match u.password {
            Some(password) => Some(
                ResolvedUserConfig { username: text_or_default(u.username, "user"), password },
            ),
            None => None,
        },
        None => None,
    }
}

fn resolve_ssh(file: Option<SshDeployConfig>) -> (r: Option<ResolvedSshConfig>)
    ensures
        ssh_resolved(file, r),
{
    match file {
        Some(s) => {
            let enabled: bool = match s.enabled {
                Some(b) => b,
                None => false,
            };
            if !enabled {
                return None;
            }
            let host: String = match s.host {
                Some(h) => h,
                None => return None,
            };
            let port: u16 = match s.port {
                Some(p) => p,
                None => 22,
            };
            let user: String = text_or_default(s.user, "root");
            let password: String = match s.password {
                Some(p) => p,
                None => return None,
            };
            let remote_path: String = match s.remote_path {
                Some(p) => p,
                None => return None,
            };
            Some(ResolvedSshConfig { host, port, user, password, remote_path })
        },
        None => None,
    }
}

/// The file's `[server]` port.
pub open spec fn file_port(f: ConfigFile) -> Option<u16> {
    match f.server {
        Some(s) => s.port,
        None => None,
    }
}

/// The file's `[server]` log file path.
pub open spec fn file_log_path(f: ConfigFile) -> Option<Seq<char>> {
    match f.server {
        Some(s) => opt_view(s.log_file_path),
        None => None,
    }
}

/// The file's `[webhook]` secret.
pub open spec fn file_secret(f: ConfigFile) -> Option<Seq<char>> {
    match f.webhook {
        Some(w) => opt_view(w.secret),
        None => None,
    }
}

/// The file's `[webhook]` allowed organisations.
pub open spec fn file_orgs(f: ConfigFile) -> Option<Vec<String>> {
    match f.webhook {
        Some(w) => w.allowed_orgs,
        None => None,
    }
}

/// The file's `[webhook]` allowed users.
pub open spec fn file_users(f: ConfigFile) -> Option<Vec<String>> {
    match f.webhook {
        Some(w) => w.allowed_users,
        None => None,
    }
}

/// The file's `[webhook]` allowed repositories.
pub open spec fn file_repos(f: ConfigFile) -> Option<Vec<String>> {
    match f.webhook {
        Some(w) => w.allowed_repos,
        None => None,
    }
}

/// The file's `[webhook]` IP check switch.
pub open spec fn file_skip_ip(f: ConfigFile) -> Option<bool> {
    match f.webhook {
        Some(w) => w.skip_ip_check,
        None => None,
    }
}

/// A text setting of the file's `[build]` section, chosen by `pick`.
pub open spec fn file_build_text(f: ConfigFile, pick: spec_fn(BuildConfig) -> Option<String>) -> Option<
    Seq<char>,
> {
    match f.build {
        Some(b) => opt_view(pick(b)),
        None => None,
    }
}

/// A flag of the file's `[build]` section, chosen by `pick`, true where the file does not set it.
pub open spec fn file_build_flag(f: ConfigFile, pick: spec_fn(BuildConfig) -> Option<bool>) -> bool {
    match f.build {
        Some(b) => match pick(b) {
            Some(v) => v,
            None => true,
        },
        None => true,
    }
}

impl AppConfig {
    /// Merges the configuration file with the environment: each setting is
    /// the environment's where it is set, else the file's, else its default.
    pub fn load(file: ConfigFile, env: ConfigEnv) -> (r: AppConfig)
        ensures
            r.port == port_spec(env.port, file_port(file)),
            r.log_file_path@ == text_or(
                env_or_spec(env.log_file_path, file_log_path(file)),
                "webhook-server.log"@,
            ),
            r.webhook_secret@ == text_or(
                env_or_spec(env.webhook_secret, file_secret(file)),
                Seq::empty(),
            ),
            r.allowed_orgs.deep_view() == env_list_spec(env.allowed_orgs, file_orgs(file)),
            r.allowed_users.deep_view() == env_list_spec(env.allowed_users, file_users(file)),
            r.allowed_repos.deep_view() == env_list_spec(env.allowed_repos, file_repos(file)),
            r.skip_ip_check == env_bool_spec(env.skip_ip_check, file_skip_ip(file)),
            r.source_dir@ == text_or(
                env_or_spec(env.source_dir, file_build_text(file, |b: BuildConfig| b.source_dir)),
                "/var/www/docs-source"@,
            ),
            r.deploy_dir@ == text_or(
                env_or_spec(env.deploy_dir, file_build_text(file, |b: BuildConfig| b.deploy_dir)),
                "/var/www/docs"@,
            ),
            r.use_venv == env_bool_spec(
                env.use_venv,
                Some(file_build_flag(file, |b: BuildConfig| b.use_venv)),
            ),
            r.venv_dir@ == text_or(
                env_or_spec(env.venv_dir, file_build_text(file, |b: BuildConfig| b.venv_dir)),
                "venv"@,
            ),
            r.python_bin@ == text_or(
                env_or_spec(env.python_bin, file_build_text(file, |b: BuildConfig| b.python_bin)),
                "python3"@,
            ),
            r.upgrade_pip == env_bool_spec(
                env.upgrade_pip,
                Some(file_build_flag(file, |b: BuildConfig| b.upgrade_pip)),
            ),
            admin_resolved(file.admin, r.admin),
            user_resolved(file.user, r.user),
            ssh_resolved(file.deploy_ssh, r.ssh_deploy),
    {
        let ConfigFile { server, admin, user, webhook, build, deploy_ssh } = file;
        let (server_port, server_log): (Option<u16>, Option<String>) = match server {
            Some(s) => (s.port, s.log_file_path),
            None => (None, None),
        };
        let (secret, orgs, users, repos, skip): (
            Option<String>,
            Option<Vec<String>>,
            Option<Vec<String>>,
            Option<Vec<String>>,
            Option<bool>,
        ) = match webhook {
            Some(w) => (w.secret, w.allowed_orgs, w.allowed_users, w.allowed_repos, w.skip_ip_check),
            None => (None, None, None, None, None),
        };
        let (b_source, b_deploy, b_use_venv, b_venv, b_python, b_upgrade): (
            Option<String>,
            Option<String>,
            Option<bool>,
            Option<String>,
            Option<String>,
            Option<bool>,
        ) = match build {
            Some(b) => (b.source_dir, b.deploy_dir, b.use_venv, b.venv_dir, b.python_bin, b.upgrade_pip),
            None => (None, None, None, None, None, None),
        };
        let ConfigEnv {
            port: e_port,
            log_file_path: e_log,
            webhook_secret: e_secret,
            allowed_orgs: e_orgs,
            allowed_users: e_users,
            allowed_repos: e_repos,
            skip_ip_check: e_skip,
            source_dir: e_source,
            deploy_dir: e_deploy,
            use_venv: e_use_venv,
            venv_dir: e_venv,
            python_bin: e_python,
            upgrade_pip: e_upgrade,
        } = env;

        let port: u16 = resolve_port(e_port, server_port);
        let log_file_path: String = text_or_default(env_or(e_log, server_log), "webhook-server.log");
        let webhook_secret: String = text_or_default(env_or(e_secret, secret), "");
        let allowed_orgs: Vec<String> = env_list_or(e_orgs, orgs);
        let allowed_users: Vec<String> = env_list_or(e_users, users);
        let allowed_repos: Vec<String> = env_list_or(e_repos, repos);
        let skip_ip_check: bool = env_bool_or(e_skip, skip);
        let source_dir: String = text_or_default(env_or(e_source, b_source), "/var/www/docs-source");
        let deploy_dir: String = text_or_default(env_or(e_deploy, b_deploy), "/var/www/docs");
        let use_venv_file: Option<bool> = match b_use_venv {
            Some(v) => Some(v),
            None => Some(true),
        };
        let use_venv: bool = env_bool_or(e_use_venv, use_venv_file);
        let venv_dir: String = text_or_default(env_or(e_venv, b_venv), "venv");
        let python_bin: String = text_or_default(env_or(e_python, b_python), "python3");
        let upgrade_file: Option<bool> = match b_upgrade {
            Some(v) => Some(v),
            None => Some(true),
        };
        let upgrade_pip: bool = env_bool_or(e_upgrade, upgrade_file);
        proof {
            reveal_strlit("");
        }
        AppConfig {
            port,
            log_file_path,
            webhook_secret,
            allowed_orgs,
            allowed_users,
            allowed_repos,
            skip_ip_check,
            source_dir,
            deploy_dir,
            use_venv,
            venv_dir,
            python_bin,
            upgrade_pip,
            admin: resolve_admin(admin),
            user: resolve_user(user),
            ssh_deploy: resolve_ssh(deploy_ssh),
        }
    }
}


/// SSH deployment resolves exactly where the `[deploy_ssh]` section is
/// enabled and gives host, password and remote path; it then keeps these,
/// the section's port (22 where none is given) and user (`root` where none
/// is given).
pub proof fn lemma_ssh_resolution(file: Option<SshDeployConfig>, r: Option<ResolvedSshConfig>)
    requires
        ssh_resolved(file, r),
    ensures
        (file is Some && file->0.enabled == Some(true) && file->0.host is Some
            && file->0.password is Some && file->0.remote_path is Some) <==> r is Some,
        r is Some ==> r->0.host@ == file->0.host->0@ && r->0.password@
            == file->0.password->0@ && r->0.remote_path@ == file->0.remote_path->0@,
        (r is Some && file->0.port is Some) ==> r->0.port == file->0.port->0,
        (r is Some && file->0.port is None) ==> r->0.port == 22,
        (r is Some && file->0.user is Some) ==> r->0.user@ == file->0.user->0@,
        (r is Some && file->0.user is None) ==> r->0.user@ == "root"@,
{
}

/// The administrator account exists exactly where the `[admin]` section gives
/// a password, with the section's user name or `admin`; the second account
/// exactly where the `[user]` section gives one, with its user name or `user`.
pub proof fn lemma_account_resolution(
    admin: Option<AdminConfig>,
    ra: Option<ResolvedAdminConfig>,
    user: Option<UserConfig>,
    ru: Option<ResolvedUserConfig>,
)
    requires
        admin_resolved(admin, ra),
        user_resolved(user, ru),
    ensures
        (admin is Some && admin->0.password is Some) <==> ra is Some,
        ra is Some ==> ra->0.password@ == admin->0.password->0@,
        (ra is Some && admin->0.username is Some) ==> ra->0.username@ == admin->0.username->0@,
        (ra is Some && admin->0.username is None) ==> ra->0.username@ == "admin"@,
        (user is Some && user->0.password is Some) <==> ru is Some,
        ru is Some ==> ru->0.password@ == user->0.password->0@,
        (ru is Some && user->0.username is Some) ==> ru->0.username@ == user->0.username->0@,
        (ru is Some && user->0.username is None) ==> ru->0.username@ == "user"@,
{
}

/// The port is the environment's `PORT` where it is set (a port written in
/// decimal gives that port; text that is not a port gives 5000), else the
/// file's port, else 5000.
pub proof fn lemma_port_precedence(env: Option<String>, file_port: Option<u16>, p: u16)
    ensures
        (env is Some && env->0@ == decimal_spec(p as nat)) ==> port_spec(env, file_port) == p,
        (env is Some && parse_u16_spec(env->0@) is None) ==> port_spec(env, file_port) == 5000,
        (env is None && file_port is Some) ==> port_spec(env, file_port) == file_port->0,
        (env is None && file_port is None) ==> port_spec(env, file_port) == 5000,
{
    lemma_u16_decimal_round_trip(p);
}

/// A text setting is the environment's where it is set, else the file's;
/// a flag is set by the environment exactly when it reads `true`, else it
/// is the file's, else false; a list is the environment's comma-separated
/// list where it is set, else the file's list, else empty.
pub proof fn lemma_setting_precedence(
    env: Option<String>,
    file_text: Option<Seq<char>>,
    file_flag: Option<bool>,
    file_list: Option<Vec<String>>,
    default: Seq<char>,
)
    ensures
        env is Some ==> text_or(env_or_spec(env, file_text), default) == env->0@,
        (env is None && file_text is Some) ==> text_or(env_or_spec(env, file_text), default)
            == file_text->0,
        (env is None && file_text is None) ==> text_or(env_or_spec(env, file_text), default)
            == default,
        env is Some ==> (env_bool_spec(env, file_flag) <==> env->0@ == "true"@),
        (env is None && file_flag is Some) ==> env_bool_spec(env, file_flag) == file_flag->0,
        (env is None && file_flag is None) ==> !env_bool_spec(env, file_flag),
        env is Some ==> env_list_spec(env, file_list) == list_spec(env->0@, ','),
        (env is None && file_list is Some) ==> env_list_spec(env, file_list)
            == file_list->0.deep_view(),
        (env is None && file_list is None) ==> env_list_spec(env, file_list) == Seq::<
            Seq<char>,
        >::empty(),
{
}

/// The build flags (`use_venv`, `upgrade_pip`) default to true: where the
/// file has no `[build]` section or the section does not set the flag.
pub proof fn lemma_build_flags_default_on(f: ConfigFile, pick: spec_fn(BuildConfig) -> Option<bool>)
    ensures
        f.build is None ==> file_build_flag(f, pick),
        (f.build is Some && pick(f.build->0) is None) ==> file_build_flag(f, pick),
        (f.build is Some && pick(f.build->0) is Some) ==> file_build_flag(f, pick) == pick(
            f.build->0,
        )->0,
{
}

} // verus!
