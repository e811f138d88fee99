//! Webhook deliveries: which forge sent them, whether they are genuine and
//! allowed, and what deployment they ask for.
use vstd::prelude::*;

use crate::clock::now_rfc3339;
use crate::config::{text_or, AppConfig};
use crate::crypto::{
    hex_spec, hmac_sha256_spec, signature_valid, token_valid, verify_signature, verify_token,
};
use vstd::utf8::encode_utf8;
use crate::headers::{header_lookup, header_text, header_value, opt_view, RequestHeaders};
use crate::net::{any_net_contains, is_github_ip, ClientAddr, IpNet};
use crate::status::HttpStatus;
use crate::text::{
    after_last, after_last_spec, before_last, before_last_spec, eq_ignore_ascii_case,
    lemma_split_at_last, lemma_take_chars_prefix,
    eq_ignore_ascii_case_spec, fold_ascii, take_chars, take_chars_spec, text_eq,
};

verus! {

/// The forge a delivery comes from.
#[derive(Clone, Copy, Debug, PartialEq, Eq, Structural)]
pub enum WebhookProvider {
    GitHub,
    Gitee,
    GitLab,
}

impl WebhookProvider {
    /// The forge's display name.
    pub open spec fn name_spec(self) -> Seq<char> {
        match self {
            WebhookProvider::GitHub => "GitHub"@,
            WebhookProvider::Gitee => "Gitee"@,
            WebhookProvider::GitLab => "GitLab"@,
        }
    }

    /// The forge's display name.
    pub fn as_str(self) -> (r: &'static str)
        ensures
            r@ == self.name_spec(),
    {
        match self {
            WebhookProvider::GitHub => "GitHub",
            WebhookProvider::Gitee => "Gitee",
            WebhookProvider::GitLab => "GitLab",
        }
    }
}

/// A deployment that ran, as the log keeps it.
pub struct DeploymentLog {
    pub timestamp: String,
    pub status: String,
    pub message: String,
    pub branch: Option<String>,
    pub committer: Option<String>,
    pub repo: Option<String>,
}

/// The parts of a push delivery's JSON body that the server reads.
pub struct WebhookPayload {
    pub ref_name: Option<String>,
    pub repository: Option<RepositoryInfo>,
    pub project: Option<ProjectInfo>,
    pub head_commit: Option<CommitInfo>,
    pub user_name: Option<String>,
}

/// The `repository` object of a delivery.
pub struct RepositoryInfo {
    pub full_name: Option<String>,
    pub name: Option<String>,
    pub clone_url: Option<String>,
    pub git_http_url: Option<String>,
    pub owner: Option<OwnerInfo>,
}

/// The `project` object of a GitLab delivery.
pub struct ProjectInfo {
    pub path_with_namespace: Option<String>,
    pub name: Option<String>,
    pub git_http_url: Option<String>,
    pub http_url_to_repo: Option<String>,
}

/// The owner of the repository.
pub struct OwnerInfo {
    pub login: Option<String>,
    pub name: Option<String>,
    pub path: Option<String>,
    pub owner_type: Option<String>,
}

/// The `head_commit` object.
pub struct CommitInfo {
    pub committer: Option<Committer>,
}

/// The committer of the head commit.
pub struct Committer {
    pub name: Option<String>,
}

/// `a`, or `b` where `a` is absent.
pub open spec fn or_else(a: Option<Seq<char>>, b: Option<Seq<char>>) -> Option<Seq<char>> {
    match a {
        Some(x) => Some(x),
        None => b,
    }
}

/// A text field of the `repository` object.
pub open spec fn repo_text(p: WebhookPayload, pick: spec_fn(RepositoryInfo) -> Option<String>) -> Option<
    Seq<char>,
> {
    match p.repository {
        Some(r) => opt_view(pick(r)),
        None => None,
    }
}

/// A text field of the `project` object.
pub open spec fn project_text(p: WebhookPayload, pick: spec_fn(ProjectInfo) -> Option<String>) -> Option<
    Seq<char>,
> {
    match p.project {
        Some(q) => opt_view(pick(q)),
        None => None,
    }
}

/// The repository's owner.
pub open spec fn repo_owner(p: WebhookPayload) -> Option<OwnerInfo> {
    match p.repository {
        Some(r) => r.owner,
        None => None,
    }
}

/// The repository's full name: the repository's `full_name`, else the
/// project's `path_with_namespace`, else the repository's `name`, else the
/// project's `name`, else `unknown`.
pub open spec fn repo_full_name_spec(p: WebhookPayload) -> Seq<char> {
    text_or(
        or_else(
            or_else(
                or_else(
                    repo_text(p, |r: RepositoryInfo| r.full_name),
                    project_text(p, |q: ProjectInfo| q.path_with_namespace),
                ),
                repo_text(p, |r: RepositoryInfo| r.name),
            ),
            project_text(p, |q: ProjectInfo| q.name),
        ),
        "unknown"@,
    )
}

/// The owner's `login`, `name` or `path`, the first that is given.
pub open spec fn owner_handle(o: OwnerInfo) -> Option<Seq<char>> {
    or_else(or_else(opt_view(o.login), opt_view(o.name)), opt_view(o.path))
}

/// The owner's login: the repository owner's handle where given, else the
/// namespace before the last `/` of the project's `path_with_namespace`, else `unknown`.
pub open spec fn owner_login_spec(p: WebhookPayload) -> Seq<char> {
    let from_owner = match repo_owner(p) {
        Some(o) => owner_handle(o),
        None => None,
    };
    match from_owner {
        Some(l) => l,
        None => match project_text(p, |q: ProjectInfo| q.path_with_namespace) {
            Some(path) => text_or(before_last_spec(path, '/'), "unknown"@),
            None => "unknown"@,
        },
    }
}

/// The owner's type, where the delivery gives it.
pub open spec fn owner_type_spec(p: WebhookPayload) -> Option<Seq<char>> {
    match repo_owner(p) {
        Some(o) => opt_view(o.owner_type),
        None => None,
    }
}

/// The address that a forge serves a repository's clones from, where the
/// delivery gives none.
pub open spec fn default_clone_url(provider: WebhookProvider, full_name: Seq<char>) -> Seq<char> {
    match provider {
        WebhookProvider::GitHub => "https://github.com/"@ + full_name + ".git"@,
        WebhookProvider::Gitee => "https://gitee.com/"@ + full_name + ".git"@,
        WebhookProvider::GitLab => "https://gitlab.com/"@ + full_name + ".git"@,
    }
}

/// The clone URL: the repository's `clone_url` or `git_http_url`, else the
/// project's `git_http_url` or `http_url_to_repo`, else the forge's default.
pub open spec fn clone_url_spec(provider: WebhookProvider, p: WebhookPayload, full_name: Seq<char>) -> Seq<
    char,
> {
    let from_repo = match p.repository {
        Some(r) => or_else(opt_view(r.clone_url), opt_view(r.git_http_url)),
        None => None,
    };
    let from_project = match p.project {
        Some(q) => or_else(opt_view(q.git_http_url), opt_view(q.http_url_to_repo)),
        None => None,
    };
    text_or(or_else(from_repo, from_project), default_clone_url(provider, full_name))
}

fn first_text(a: &Option<String>, b: &Option<String>) -> (r: Option<String>)
    ensures
        opt_view(r) == or_else(opt_view(*a), opt_view(*b)),
{
    match a {
        Some(x) => Some(x.clone()),
        None => match b {
            Some(y) => Some(y.clone()),
            None => None,
        },
    }
}

fn literal(s: &str) -> (r: String)
    ensures
        r@ == s@,
{
    String::from_str(s)
}

/// The repository's full name as the delivery gives it.
pub fn payload_repo_full_name(payload: &WebhookPayload) -> (r: String)
    ensures
        r@ == repo_full_name_spec(*payload),
{
    let repo_full: Option<String> = match &payload.repository {
        Some(r) => first_text(&r.full_name, &None),
        None => None,
    };
    let project_path: Option<String> = match &payload.project {
        Some(q) => first_text(&q.path_with_namespace, &None),
        None => None,
    };
    let repo_name: Option<String> = match &payload.repository {
        Some(r) => first_text(&r.name, &None),
        None => None,
    };
    let project_name: Option<String> = match &payload.project {
        Some(q) => first_text(&q.name, &None),
        None => None,
    };
    let a: Option<String> = first_text(&repo_full, &project_path);
    let b: Option<String> = first_text(&a, &repo_name);
    let c: Option<String> = first_text(&b, &project_name);
    match c {
        Some(n) => n,
        None => literal("unknown"),
    }
}

/// The login of the repository's owner as the delivery gives it.
pub fn payload_owner_login(payload: &WebhookPayload) -> (r: String)
    ensures
        r@ == owner_login_spec(*payload),
{
    if let Some(r) = &payload.repository {
        if let Some(owner) = &r.owner {
            let handle: Option<String> = first_text(&owner.login, &owner.name);
            let handle: Option<String> = first_text(&handle, &owner.path);
            if let Some(login) = handle {
                return login;
            }
        }
    }
    match &payload.project {
        Some(q) => match &q.path_with_namespace {
            Some(path) => match before_last(path.as_str(), '/') {
                Some(ns) => String::from_str(ns),
                None => literal("unknown"),
            },
            None => literal("unknown"),
        },
        None => literal("unknown"),
    }
}

/// The type of the repository's owner, where the delivery gives it.
pub fn payload_owner_type(payload: &WebhookPayload) -> (r: Option<&str>)
    ensures
        r matches Some(t) ==> owner_type_spec(*payload) == Some(t@),
        r is None ==> owner_type_spec(*payload) is None,
{
    match &payload.repository {
        Some(r) => match &r.owner {
            Some(o) => match &o.owner_type {
                Some(t) => Some(t.as_str()),
                None => None,
            },
            None => None,
        },
        None => None,
    }
}

/// The URL to clone the repository from.
pub fn repo_clone_url(provider: WebhookProvider, payload: &WebhookPayload, repo_full_name: &str) -> (r:
    String)
    ensures
        r@ == clone_url_spec(provider, *payload, repo_full_name@),
{
    let from_repo: Option<String> = match &payload.repository {
        Some(r) => first_text(&r.clone_url, &r.git_http_url),
        None => None,
    };
    let from_project: Option<String> = match &payload.project {
        Some(q) => first_text(&q.git_http_url, &q.http_url_to_repo),
        None => None,
    };
    match first_text(&from_repo, &from_project) {
        Some(u) => u,
        None => {
            let mut url: String = match provider {
                WebhookProvider::GitHub => literal("https://github.com/"),
                WebhookProvider::Gitee => literal("https://gitee.com/"),
                WebhookProvider::GitLab => literal("https://gitlab.com/"),
            };
            url.append(repo_full_name);
            url.append(".git");
            url
        },
    }
}

/// A delivery of this event type announces a push: GitHub's `push`, or
/// Gitee's and GitLab's `Push Hook` or `push` in any ASCII case.
pub open spec fn is_push_event_spec(provider: WebhookProvider, event_type: Seq<char>) -> bool {
    match provider {
        WebhookProvider::GitHub => event_type == "push"@,
        _ => eq_ignore_ascii_case_spec(event_type, "Push Hook"@) || eq_ignore_ascii_case_spec(
            event_type,
            "push"@,
        ),
    }
}

/// Whether a delivery of this event type announces a push.
pub fn is_push_event(provider: WebhookProvider, event_type: &str) -> (r: bool)
    ensures
        r == is_push_event_spec(provider, event_type@),
{
    match provider {
        WebhookProvider::GitHub => text_eq(event_type, "push"),
        _ => eq_ignore_ascii_case(event_type, "Push Hook") || eq_ignore_ascii_case(event_type, "push"),
    }
}

/// `name` is one of the entries of `list`.
pub open spec fn listed(list: Seq<String>, name: Seq<char>) -> bool {
    exists|i: int| 0 <= i < list.len() && #[trigger] list[i]@ == name
}

/// Owner types that are organisations rather than people.
pub open spec fn org_like(owner_type: Seq<char>) -> bool {
    owner_type == "Organization"@ || owner_type == "Group"@ || owner_type == "Enterprise"@
}

/// The whitelist admits the owner: both lists are empty; or the owner is
/// organisation-like and listed among the organisations; or it is not
/// organisation-like and listed among the users or the organisations.
pub open spec fn owner_allowed_spec(
    owner_login: Seq<char>,
    owner_type: Option<Seq<char>>,
    allowed_orgs: Seq<String>,
    allowed_users: Seq<String>,
) -> bool {
    if allowed_orgs.len() == 0 && allowed_users.len() == 0 {
        true
    } else if org_like(text_or(owner_type, Seq::empty())) {
        listed(allowed_orgs, owner_login)
    } else {
        listed(allowed_users, owner_login) || listed(allowed_orgs, owner_login)
    }
}

fn list_contains(list: &[String], name: &str) -> (r: bool)
    ensures
        r == listed(list@, name@),
{
    let n: usize = list.len();
    let mut i: usize = 0;
    while i < n
        invariant
            n == list@.len(),
            i <= n,
            forall|j: int| 0 <= j < i ==> #[trigger] list@[j]@ != name@,
        decreases n - i,
    {
        if text_eq(list[i].as_str(), name) {
            return true;
        }
        i += 1;
    }
    false
}

/// The repository whitelist admits the repository: the list is empty, or it
/// names the repository's full name.
pub open spec fn repo_allowed_spec(full_name: Seq<char>, allowed_repos: Seq<String>) -> bool {
    allowed_repos.len() == 0 || listed(allowed_repos, full_name)
}

/// Whether the repository whitelist admits a repository, by its full name.
pub fn is_allowed_repo(full_name: &str, allowed_repos: &[String]) -> (r: bool)
    ensures
        r == repo_allowed_spec(full_name@, allowed_repos@),
{
    allowed_repos.len() == 0 || list_contains(allowed_repos, full_name)
}

/// Whether the whitelist admits the repository's owner.
pub fn is_allowed_owner(
    owner_login: &str,
    owner_type: Option<&str>,
    allowed_orgs: &[String],
    allowed_users: &[String],
) -> (r: bool)
    ensures
        r == owner_allowed_spec(
            owner_login@,
            match owner_type {
                Some(t) => Some(t@),
                None => None,
            },
            allowed_orgs@,
            allowed_users@,
        ),
{
    if allowed_orgs.len() == 0 && allowed_users.len() == 0 {
        return true;
    }
    proof {
        reveal_strlit("Organization");
        reveal_strlit("Group");
        reveal_strlit("Enterprise");
    }
    let t: &str = match owner_type {
        Some(t) => t,
        None => {
            proof {
                reveal_strlit("");
            }
            ""
        },
    };
    let is_org_like: bool = text_eq(t, "Organization") || text_eq(t, "Group") || text_eq(
        t,
        "Enterprise",
    );
    let is_user_like: bool = t.is_empty() || text_eq(t, "User");
    assert(text_or(
        match owner_type {
            Some(t) => Some(t@),
            None => None,
        },
        Seq::empty(),
    ) == t@);
    assert(is_org_like == org_like(t@));
    if is_org_like {
        return list_contains(allowed_orgs, owner_login);
    }
    if is_user_like {
        let in_users: bool = list_contains(allowed_users, owner_login);
        let in_orgs: bool = list_contains(allowed_orgs, owner_login);
        return in_users || in_orgs;
    }
    list_contains(allowed_users, owner_login) || list_contains(allowed_orgs, owner_login)
}

/// A header of this name is present.
pub open spec fn has_header(headers: RequestHeaders, name: Seq<char>) -> bool {
    header_lookup(headers.entries@, name) is Some
}

/// The forge that sent a delivery, judged by its headers: GitLab's event or
/// token header, else Gitee's, else GitHub's event or signature header.
pub open spec fn detect_provider_spec(headers: RequestHeaders) -> Option<WebhookProvider> {
    if has_header(headers, "X-Gitlab-Event"@) || has_header(headers, "X-Gitlab-Token"@) {
        Some(WebhookProvider::GitLab)
    } else if has_header(headers, "X-Gitee-Event"@) || has_header(headers, "X-Gitee-Token"@) {
        Some(WebhookProvider::Gitee)
    } else if has_header(headers, "X-GitHub-Event"@) || has_header(headers, "X-Hub-Signature-256"@) {
        Some(WebhookProvider::GitHub)
    } else {
        None
    }
}

/// Tells which forge sent a delivery.
pub fn detect_provider(headers: &RequestHeaders) -> (r: Option<WebhookProvider>)
    ensures
        r == detect_provider_spec(*headers),
{
    if headers.contains_key("X-Gitlab-Event") || headers.contains_key("X-Gitlab-Token") {
        return Some(WebhookProvider::GitLab);
    }
    if headers.contains_key("X-Gitee-Event") || headers.contains_key("X-Gitee-Token") {
        return Some(WebhookProvider::Gitee);
    }
    if headers.contains_key("X-GitHub-Event") || headers.contains_key("X-Hub-Signature-256") {
        return Some(WebhookProvider::GitHub);
    }
    None
}

/// The header that names a forge's event type.
pub open spec fn event_header(provider: WebhookProvider) -> Seq<char> {
    match provider {
        WebhookProvider::GitHub => "X-GitHub-Event"@,
        WebhookProvider::Gitee => "X-Gitee-Event"@,
        WebhookProvider::GitLab => "X-Gitlab-Event"@,
    }
}

/// The event type that a delivery names.
pub fn event_type<'a>(provider: WebhookProvider, headers: &'a RequestHeaders) -> (r: &'a str)
    ensures
        r@ == header_text(headers.entries@, event_header(provider)),
{
    match provider {
        WebhookProvider::GitHub => header_value(headers, "X-GitHub-Event"),
        WebhookProvider::Gitee => header_value(headers, "X-Gitee-Event"),
        WebhookProvider::GitLab => header_value(headers, "X-Gitlab-Event"),
    }
}

/// A delivery proves it knows the secret: GitHub by the body's signature,
/// Gitee and GitLab by their token header.
pub open spec fn delivery_authentic(
    provider: WebhookProvider,
    headers: RequestHeaders,
    body: Seq<u8>,
    secret: Seq<char>,
) -> bool {
    match provider {
        WebhookProvider::GitHub => signature_valid(
            body,
            header_text(headers.entries@, "X-Hub-Signature-256"@),
            secret,
        ),
        WebhookProvider::Gitee => token_valid(header_text(headers.entries@, "X-Gitee-Token"@), secret),
        WebhookProvider::GitLab => token_valid(
            header_text(headers.entries@, "X-Gitlab-Token"@),
            secret,
        ),
    }
}

/// What to do with a delivery before its body is read.
#[derive(Clone, Copy, Debug, PartialEq, Eq, Structural)]
pub enum WebhookScreen {
    /// Answer at once with this status.
    Reply(HttpStatus),
    /// A genuine push from this forge: read its JSON body.
    ParsePayload(WebhookProvider),
}

/// The answer to a delivery before its body is read: 400 where no forge is
/// recognised; 403 for a GitHub delivery from outside GitHub's networks
/// (unless the check is off); 200 for a GitHub `ping`, a Gitee `Test Hook` and
/// any event that is not a push; 403 where a secret is set and the delivery
/// does not prove it; else the body is to be read.
pub open spec fn screen_spec(
    config: AppConfig,
    headers: RequestHeaders,
    client: ClientAddr,
    github_ips: Seq<IpNet>,
    body: Seq<u8>,
) -> WebhookScreen {
    match detect_provider_spec(headers) {
        None => WebhookScreen::Reply(HttpStatus::BadRequest),
        Some(p) => {
            let event = header_text(headers.entries@, event_header(p));
            if p == WebhookProvider::GitHub && !config.skip_ip_check && !any_net_contains(
                github_ips,
                client.ip,
            ) {
                WebhookScreen::Reply(HttpStatus::Forbidden)
            } else if p == WebhookProvider::GitHub && event == "ping"@ {
                WebhookScreen::Reply(HttpStatus::Success)
            } else if p == WebhookProvider::Gitee && eq_ignore_ascii_case_spec(event, "Test Hook"@) {
                WebhookScreen::Reply(HttpStatus::Success)
            } else if !is_push_event_spec(p, event) {
                WebhookScreen::Reply(HttpStatus::Success)
            } else if config.webhook_secret@.len() > 0 && !delivery_authentic(
                p,
                headers,
                body,
                config.webhook_secret@,
            ) {
                WebhookScreen::Reply(HttpStatus::Forbidden)
            } else {
                WebhookScreen::ParsePayload(p)
            }
        },
    }
}

/// Decides what to do with a delivery before its body is read.
pub fn screen_webhook(
    config: &AppConfig,
    headers: &RequestHeaders,
    client: ClientAddr,
    github_ips: &[IpNet],
    body: &[u8],
) -> (r: WebhookScreen)
    ensures
        r == screen_spec(*config, *headers, client, github_ips@, body@),
{
    let provider: WebhookProvider = match detect_provider(headers) {
        Some(p) => p,
        None => return WebhookScreen::Reply(HttpStatus::BadRequest),
    };
    let signature: &str = header_value(headers, "X-Hub-Signature-256");
    let gitee_token: &str = header_value(headers, "X-Gitee-Token");
    let gitlab_token: &str = header_value(headers, "X-Gitlab-Token");
    let event: &str = event_type(provider, headers);
    if provider == WebhookProvider::GitHub && !config.skip_ip_check && !is_github_ip(
        client,
        github_ips,
    ) {
        return WebhookScreen::Reply(HttpStatus::Forbidden);
    }
    if provider == WebhookProvider::GitHub && text_eq(event, "ping") {
        return WebhookScreen::Reply(HttpStatus::Success);
    }
    if provider == WebhookProvider::Gitee && eq_ignore_ascii_case(event, "Test Hook") {
        return WebhookScreen::Reply(HttpStatus::Success);
    }
    if !is_push_event(provider, event) {
        return WebhookScreen::Reply(HttpStatus::Success);
    }
    if !config.webhook_secret.as_str().is_empty() {
        let verified: bool = match provider {
            WebhookProvider::GitHub => verify_signature(
                body,
                signature,
                config.webhook_secret.as_str(),
            ),
            WebhookProvider::Gitee => verify_token(gitee_token, config.webhook_secret.as_str()),
            WebhookProvider::GitLab => verify_token(gitlab_token, config.webhook_secret.as_str()),
        };
        if !verified {
            return WebhookScreen::Reply(HttpStatus::Forbidden);
        }
    }
    WebhookScreen::ParsePayload(provider)
}

/// A deployment that a push asks for.
pub struct DeployJob {
    pub repo_url: String,
    pub repo_name: String,
    pub branch: String,
    pub committer: String,
    pub repo_full_name: String,
}

/// What to do with a genuine push once its body has been read.
pub enum WebhookPlan {
    /// Answer with this status and do nothing more.
    Reply(HttpStatus),
    /// Answer 200 and run this deployment in the background.
    Deploy(DeployJob),
}

/// The committer's name: the head commit's committer, else the delivery's
/// `user_name`, else `unknown`.
pub open spec fn committer_spec(p: WebhookPayload) -> Seq<char> {
    let from_commit = match p.head_commit {
        Some(c) => match c.committer {
            Some(m) => opt_view(m.name),
            None => None,
        },
        None => None,
    };
    text_or(or_else(from_commit, opt_view(p.user_name)), "unknown"@)
}

/// The pushed ref, or `unknown`.
pub open spec fn branch_spec(p: WebhookPayload) -> Seq<char> {
    text_or(opt_view(p.ref_name), "unknown"@)
}

/// The refs whose pushes are deployed.
pub open spec fn deployable_branch(branch: Seq<char>) -> bool {
    branch == "refs/heads/main"@ || branch == "refs/heads/master"@
}

/// The answer to a push once its body has been read: 400 where the body was
/// not a valid delivery; 403 where the whitelist refuses the owner, or where
/// the repository whitelist does not name the repository; 200 and
/// nothing more for a ref other than `main` or `master`; else 200 and the
/// deployment of the repository at the pushed ref.
pub open spec fn plan_spec(
    provider: WebhookProvider,
    payload: Option<WebhookPayload>,
    config: AppConfig,
    r: WebhookPlan,
) -> bool {
    match payload {
        None => r == WebhookPlan::Reply(HttpStatus::BadRequest),
        Some(p) => if !owner_allowed_spec(
            owner_login_spec(p),
            owner_type_spec(p),
            config.allowed_orgs@,
            config.allowed_users@,
        ) {
            r == WebhookPlan::Reply(HttpStatus::Forbidden)
        } else if !repo_allowed_spec(repo_full_name_spec(p), config.allowed_repos@) {
            r == WebhookPlan::Reply(HttpStatus::Forbidden)
        } else if !deployable_branch(branch_spec(p)) {
            r == WebhookPlan::Reply(HttpStatus::Success)
        } else {
            &&& r matches WebhookPlan::Deploy(job)
            &&& job.branch@ == branch_spec(p)
            &&& job.repo_full_name@ == repo_full_name_spec(p)
            &&& job.committer@ == committer_spec(p)
            &&& job.repo_url@ == clone_url_spec(provider, p, repo_full_name_spec(p))
            &&& job.repo_name@ == after_last_spec(repo_full_name_spec(p), '/')
        },
    }
}

/// Decides what a genuine push asks for, given its parsed body (`None` where
/// the body did not parse).
pub fn plan_deployment(
    provider: WebhookProvider,
    payload: Option<&WebhookPayload>,
    config: &AppConfig,
) -> (r: WebhookPlan)
    ensures
        plan_spec(
            provider,
            match payload {
                Some(p) => Some(*p),
                None => None,
            },
            *config,
            r,
        ),
{
    let payload: &WebhookPayload = match payload {
        Some(p) => p,
        None => return WebhookPlan::Reply(HttpStatus::BadRequest),
    };
    let branch: String = match &payload.ref_name {
        Some(b) => b.clone(),
        None => literal("unknown"),
    };
    let repo_full_name: String = payload_repo_full_name(payload);
    let owner_login: String = payload_owner_login(payload);
    let owner_type: Option<&str> = payload_owner_type(payload);
    let from_commit: Option<String> = match &payload.head_commit {
        Some(c) => match &c.committer {
            Some(m) => first_text(&m.name, &None),
            None => None,
        },
        None => None,
    };
    let committer: String = match first_text(&from_commit, &payload.user_name) {
        Some(c) => c,
        None => literal("unknown"),
    };
    let repo_url: String = repo_clone_url(provider, payload, repo_full_name.as_str());
    if !is_allowed_owner(
        owner_login.as_str(),
        owner_type,
        config.allowed_orgs.as_slice(),
        config.allowed_users.as_slice(),
    ) {
        return WebhookPlan::Reply(HttpStatus::Forbidden);
    }
    if !is_allowed_repo(repo_full_name.as_str(), config.allowed_repos.as_slice()) {
        return WebhookPlan::Reply(HttpStatus::Forbidden);
    }
    if !(text_eq(branch.as_str(), "refs/heads/main") || text_eq(branch.as_str(), "refs/heads/master")) {
        return WebhookPlan::Reply(HttpStatus::Success);
    }
    let repo_name: String = String::from_str(after_last(repo_full_name.as_str(), '/'));
    WebhookPlan::Deploy(DeployJob { repo_url, repo_name, branch, committer, repo_full_name })
}

/// The log entry of a finished deployment: `success` with its output or
/// `failed` with its error, the text cut to its first 500 characters.
pub open spec fn log_entry_spec(
    job: DeployJob,
    outcome: Result<String, String>,
    timestamp: Seq<char>,
    e: DeploymentLog,
) -> bool {
    &&& e.timestamp@ == timestamp
    &&& e.status@ == (if outcome is Ok {
        "success"@
    } else {
        "failed"@
    })
    &&& e.message@ == take_chars_spec(
        match outcome {
            Ok(m) => m@,
            Err(m) => m@,
        },
        500,
    )
    &&& opt_view(e.branch) == Some(job.branch@)
    &&& opt_view(e.committer) == Some(job.committer@)
    &&& opt_view(e.repo) == Some(job.repo_full_name@)
}

/// The log entry of a finished deployment, stamped with the given time.
pub fn deployment_log_entry(job: DeployJob, outcome: Result<String, String>, timestamp: String) -> (r:
    DeploymentLog)
    ensures
        log_entry_spec(job, outcome, timestamp@, r),
{
    let (status, message): (String, String) = match outcome {
        Ok(m) => (literal("success"), m),
        Err(m) => (literal("failed"), m),
    };
    DeploymentLog {
        timestamp,
        status,
        message: take_chars(message.as_str(), 500),
        branch: Some(job.branch),
        committer: Some(job.committer),
        repo: Some(job.repo_full_name),
    }
}

/// A deployment that has started: the time it started and what it deploys.
pub struct StartedDeployment {
    pub timestamp: String,
    pub job: DeployJob,
}

/// Stamps a deployment with the time it starts.
pub fn start_deployment(job: DeployJob) -> (r: StartedDeployment)
    ensures
        r.job == job,
{
    let timestamp: String = now_rfc3339();
    StartedDeployment { timestamp, job }
}

/// The log entry of a started deployment that has finished with this outcome.
pub fn finish_deployment(started: StartedDeployment, outcome: Result<String, String>) -> (r:
    DeploymentLog)
    ensures
        log_entry_spec(started.job, outcome, started.timestamp@, r),
{
    deployment_log_entry(started.job, outcome, started.timestamp)
}

/// The log after an entry is added: the entry goes last, and where that
/// makes more than 100 entries only the newest 100 are kept.
pub open spec fn log_after_push(log: Seq<DeploymentLog>, entry: DeploymentLog) -> Seq<DeploymentLog> {
    let pushed = log.push(entry);
    if pushed.len() > 100 {
        pushed.skip(pushed.len() - 100)
    } else {
        pushed
    }
}

/// Adds an entry to the deployment log, keeping its newest 100 entries.
pub fn push_log(log: &mut Vec<DeploymentLog>, entry: DeploymentLog)
    ensures
        final(log)@ == log_after_push(old(log)@, entry),
{
    log.push(entry);
    let len: usize = log.len();
    if len > 100 {
        let newest: Vec<DeploymentLog> = log.split_off(len - 100);
        *log = newest;
    }
}

/// When a secret is set, a delivery that screening lets through to its body
/// has proved that it knows the secret.
pub proof fn lemma_screened_deliveries_are_authentic(
    config: AppConfig,
    headers: RequestHeaders,
    client: ClientAddr,
    github_ips: Seq<IpNet>,
    body: Seq<u8>,
    provider: WebhookProvider,
)
    requires
        config.webhook_secret@.len() > 0,
        screen_spec(config, headers, client, github_ips, body) == WebhookScreen::ParsePayload(provider),
    ensures
        delivery_authentic(provider, headers, body, config.webhook_secret@),
        detect_provider_spec(headers) == Some(provider),
        is_push_event_spec(provider, header_text(headers.entries@, event_header(provider))),
{
}

/// Unless the IP check is off, a GitHub delivery is let through to its body
/// only from one of GitHub's networks.
pub proof fn lemma_github_deliveries_come_from_github(
    config: AppConfig,
    headers: RequestHeaders,
    client: ClientAddr,
    github_ips: Seq<IpNet>,
    body: Seq<u8>,
)
    requires
        !config.skip_ip_check,
        screen_spec(config, headers, client, github_ips, body) == WebhookScreen::ParsePayload(
            WebhookProvider::GitHub,
        ),
    ensures
        any_net_contains(github_ips, client.ip),
{
}

/// The log never holds more than 100 entries, and a new entry is always
/// kept, as the newest: adding one to a log within that bound keeps it within
/// the bound, with the entry last and the entries before it the newest of
/// the old log, in order.
pub proof fn lemma_log_bounded(log: Seq<DeploymentLog>, entry: DeploymentLog)
    requires
        log.len() <= 100,
    ensures
        log_after_push(log, entry).len() <= 100,
        log_after_push(log, entry).last() == entry,
        log_after_push(log, entry).drop_last() == log.skip(log.len() + 1 - log_after_push(
            log,
            entry,
        ).len()),
{
    let pushed = log.push(entry);
    if pushed.len() > 100 {
        assert(pushed.skip(1).drop_last() =~= log.skip(1));
    } else {
        assert(pushed.drop_last() =~= log.skip(0));
    }
}


/// The client's address matters only for GitHub deliveries while the IP check
/// is on: for any other delivery, two clients get the same answer.
pub proof fn lemma_client_ignored_unless_github_checked(
    config: AppConfig,
    headers: RequestHeaders,
    client: ClientAddr,
    other: ClientAddr,
    github_ips: Seq<IpNet>,
    body: Seq<u8>,
)
    requires
        detect_provider_spec(headers) != Some(WebhookProvider::GitHub) || config.skip_ip_check,
    ensures
        screen_spec(config, headers, client, github_ips, body) == screen_spec(
            config,
            headers,
            other,
            github_ips,
            body,
        ),
{
}


/// A repository that a non-empty repository whitelist does not name is never
/// deployed: its push is answered without a deployment.
pub proof fn lemma_unlisted_repos_not_deployed(
    provider: WebhookProvider,
    payload: WebhookPayload,
    config: AppConfig,
    r: WebhookPlan,
)
    requires
        config.allowed_repos@.len() > 0,
        !listed(config.allowed_repos@, repo_full_name_spec(payload)),
        plan_spec(provider, Some(payload), config, r),
    ensures
        r is Reply,
{
}


/// A GitLab push that carries the secret in its `X-Gitlab-Token` header is
/// let through to its body, whatever the client's address.
pub proof fn lemma_gitlab_token_admits(
    config: AppConfig,
    headers: RequestHeaders,
    client: ClientAddr,
    github_ips: Seq<IpNet>,
    body: Seq<u8>,
)
    requires
        config.webhook_secret@.len() > 0,
        header_lookup(headers.entries@, "X-Gitlab-Event"@) == Some(Some("Push Hook"@)),
        header_lookup(headers.entries@, "X-Gitlab-Token"@) == Some(Some(config.webhook_secret@)),
    ensures
        screen_spec(config, headers, client, github_ips, body) == WebhookScreen::ParsePayload(
            WebhookProvider::GitLab,
        ),
{
}

/// A GitLab push whose `X-Gitlab-Token` header differs from a set secret is
/// refused with 403.
pub proof fn lemma_gitlab_wrong_token_refused(
    config: AppConfig,
    headers: RequestHeaders,
    client: ClientAddr,
    github_ips: Seq<IpNet>,
    body: Seq<u8>,
    token: Seq<char>,
)
    requires
        config.webhook_secret@.len() > 0,
        header_lookup(headers.entries@, "X-Gitlab-Event"@) == Some(Some("push"@)),
        header_lookup(headers.entries@, "X-Gitlab-Token"@) == Some(Some(token)),
        token != config.webhook_secret@,
    ensures
        screen_spec(config, headers, client, github_ips, body) == WebhookScreen::Reply(
            HttpStatus::Forbidden,
        ),
{
}

/// A Gitee push (with no GitLab header) that carries the secret in its
/// `X-Gitee-Token` header is let through to its body.
pub proof fn lemma_gitee_token_admits(
    config: AppConfig,
    headers: RequestHeaders,
    client: ClientAddr,
    github_ips: Seq<IpNet>,
    body: Seq<u8>,
)
    requires
        config.webhook_secret@.len() > 0,
        header_lookup(headers.entries@, "X-Gitlab-Event"@) is None,
        header_lookup(headers.entries@, "X-Gitlab-Token"@) is None,
        header_lookup(headers.entries@, "X-Gitee-Event"@) == Some(Some("Push Hook"@)),
        header_lookup(headers.entries@, "X-Gitee-Token"@) == Some(Some(config.webhook_secret@)),
    ensures
        screen_spec(config, headers, client, github_ips, body) == WebhookScreen::ParsePayload(
            WebhookProvider::Gitee,
        ),
{
    reveal_strlit("Push Hook");
    reveal_strlit("Test Hook");
    assert(fold_ascii("Push Hook"@[0]) != fold_ascii("Test Hook"@[0]));
    assert(!eq_ignore_ascii_case_spec("Push Hook"@, "Test Hook"@));
}

/// A Gitee push whose `X-Gitee-Token` header differs from a set secret is
/// refused with 403.
pub proof fn lemma_gitee_wrong_token_refused(
    config: AppConfig,
    headers: RequestHeaders,
    client: ClientAddr,
    github_ips: Seq<IpNet>,
    body: Seq<u8>,
    token: Seq<char>,
)
    requires
        config.webhook_secret@.len() > 0,
        header_lookup(headers.entries@, "X-Gitlab-Event"@) is None,
        header_lookup(headers.entries@, "X-Gitlab-Token"@) is None,
        header_lookup(headers.entries@, "X-Gitee-Event"@) == Some(Some("push"@)),
        header_lookup(headers.entries@, "X-Gitee-Token"@) == Some(Some(token)),
        token != config.webhook_secret@,
    ensures
        screen_spec(config, headers, client, github_ips, body) == WebhookScreen::Reply(
            HttpStatus::Forbidden,
        ),
{
    reveal_strlit("push");
    reveal_strlit("Test Hook");
    assert(!eq_ignore_ascii_case_spec("push"@, "Test Hook"@));
}

/// A GitHub push from an allowed address (or with the IP check off) whose
/// `X-Hub-Signature-256` header is `sha256=` and the lower-case hex of the
/// HMAC-SHA256 of the body under the secret is let through to its body.
pub proof fn lemma_github_signature_admits(
    config: AppConfig,
    headers: RequestHeaders,
    client: ClientAddr,
    github_ips: Seq<IpNet>,
    body: Seq<u8>,
)
    requires
        config.webhook_secret@.len() > 0,
        config.skip_ip_check || any_net_contains(github_ips, client.ip),
        header_lookup(headers.entries@, "X-Gitlab-Event"@) is None,
        header_lookup(headers.entries@, "X-Gitlab-Token"@) is None,
        header_lookup(headers.entries@, "X-Gitee-Event"@) is None,
        header_lookup(headers.entries@, "X-Gitee-Token"@) is None,
        header_lookup(headers.entries@, "X-GitHub-Event"@) == Some(Some("push"@)),
        header_lookup(headers.entries@, "X-Hub-Signature-256"@) == Some(
            Some(
                "sha256="@ + hex_spec(
                    hmac_sha256_spec(encode_utf8(config.webhook_secret@), body),
                ),
            ),
        ),
    ensures
        screen_spec(config, headers, client, github_ips, body) == WebhookScreen::ParsePayload(
            WebhookProvider::GitHub,
        ),
{
    reveal_strlit("sha256=");
    reveal_strlit("push");
    reveal_strlit("ping");
    assert("push"@[1] != "ping"@[1]);
    assert("push"@ != "ping"@);
}

/// A GitHub delivery from outside the given networks is refused with 403
/// while the IP check is on, whatever else it carries.
pub proof fn lemma_github_foreign_address_refused(
    config: AppConfig,
    headers: RequestHeaders,
    client: ClientAddr,
    github_ips: Seq<IpNet>,
    body: Seq<u8>,
)
    requires
        !config.skip_ip_check,
        !any_net_contains(github_ips, client.ip),
        header_lookup(headers.entries@, "X-Gitlab-Event"@) is None,
        header_lookup(headers.entries@, "X-Gitlab-Token"@) is None,
        header_lookup(headers.entries@, "X-Gitee-Event"@) is None,
        header_lookup(headers.entries@, "X-Gitee-Token"@) is None,
        header_lookup(headers.entries@, "X-GitHub-Event"@) is Some,
    ensures
        screen_spec(config, headers, client, github_ips, body) == WebhookScreen::Reply(
            HttpStatus::Forbidden,
        ),
{
}

/// Without a secret, any push is let through to its body (GitLab here: no
/// token is needed).
pub proof fn lemma_no_secret_admits_pushes(
    config: AppConfig,
    headers: RequestHeaders,
    client: ClientAddr,
    github_ips: Seq<IpNet>,
    body: Seq<u8>,
)
    requires
        config.webhook_secret@.len() == 0,
        header_lookup(headers.entries@, "X-Gitlab-Event"@) == Some(Some("Push Hook"@)),
    ensures
        screen_spec(config, headers, client, github_ips, body) == WebhookScreen::ParsePayload(
            WebhookProvider::GitLab,
        ),
{
}

/// A delivery without any forge's header is refused with 400, and an event
/// that is not a push (a GitHub `ping`, a GitLab merge request) is answered
/// with 200 without reading the body.
pub proof fn lemma_unknown_and_non_push_deliveries(
    config: AppConfig,
    headers: RequestHeaders,
    client: ClientAddr,
    github_ips: Seq<IpNet>,
    body: Seq<u8>,
)
    ensures
        (header_lookup(headers.entries@, "X-Gitlab-Event"@) is None && header_lookup(
            headers.entries@,
            "X-Gitlab-Token"@,
        ) is None && header_lookup(headers.entries@, "X-Gitee-Event"@) is None && header_lookup(
            headers.entries@,
            "X-Gitee-Token"@,
        ) is None && header_lookup(headers.entries@, "X-GitHub-Event"@) is None && header_lookup(
            headers.entries@,
            "X-Hub-Signature-256"@,
        ) is None) ==> screen_spec(config, headers, client, github_ips, body)
            == WebhookScreen::Reply(HttpStatus::BadRequest),
        header_lookup(headers.entries@, "X-Gitlab-Event"@) == Some(Some("Merge Request Hook"@))
            ==> screen_spec(config, headers, client, github_ips, body) == WebhookScreen::Reply(
            HttpStatus::Success,
        ),
        (config.skip_ip_check && header_lookup(headers.entries@, "X-Gitlab-Event"@) is None
            && header_lookup(headers.entries@, "X-Gitlab-Token"@) is None && header_lookup(
            headers.entries@,
            "X-Gitee-Event"@,
        ) is None && header_lookup(headers.entries@, "X-Gitee-Token"@) is None && header_lookup(
            headers.entries@,
            "X-GitHub-Event"@,
        ) == Some(Some("ping"@))) ==> screen_spec(config, headers, client, github_ips, body)
            == WebhookScreen::Reply(HttpStatus::Success),
{
    reveal_strlit("Merge Request Hook");
    reveal_strlit("Push Hook");
    reveal_strlit("push");
    reveal_strlit("ping");
}


/// The repository's full name takes the first of these that the delivery
/// gives: the repository's `full_name`, the project's `path_with_namespace`,
/// the repository's `name`, the project's `name`; else `unknown`.
pub proof fn lemma_repo_full_name_order(p: WebhookPayload)
    ensures
        (p.repository is Some && p.repository->0.full_name is Some) ==> repo_full_name_spec(p)
            == p.repository->0.full_name->0@,
        (!(p.repository is Some && p.repository->0.full_name is Some) && p.project is Some
            && p.project->0.path_with_namespace is Some) ==> repo_full_name_spec(p)
            == p.project->0.path_with_namespace->0@,
        (!(p.repository is Some && p.repository->0.full_name is Some) && !(p.project is Some
            && p.project->0.path_with_namespace is Some) && p.repository is Some
            && p.repository->0.name is Some) ==> repo_full_name_spec(p)
            == p.repository->0.name->0@,
        (!(p.repository is Some && (p.repository->0.full_name is Some
            || p.repository->0.name is Some)) && !(p.project is Some
            && p.project->0.path_with_namespace is Some) && p.project is Some
            && p.project->0.name is Some) ==> repo_full_name_spec(p) == p.project->0.name->0@,
        (!(p.repository is Some && (p.repository->0.full_name is Some
            || p.repository->0.name is Some)) && !(p.project is Some
            && (p.project->0.path_with_namespace is Some || p.project->0.name is Some)))
            ==> repo_full_name_spec(p) == "unknown"@,
{
}

/// The owner's login is the repository owner's `login`, else its `name`,
/// else its `path`; without any of these, the namespace of the project's
/// `path_with_namespace` (`group/sub` for `group/sub/repo`).
pub proof fn lemma_owner_login_order(p: WebhookPayload, ns: Seq<char>, last: Seq<char>)
    requires
        forall|i: int| 0 <= i < last.len() ==> last[i] != '/',
    ensures
        (p.repository is Some && p.repository->0.owner is Some
            && p.repository->0.owner->0.login is Some) ==> owner_login_spec(p)
            == p.repository->0.owner->0.login->0@,
        (p.repository is Some && p.repository->0.owner is Some
            && p.repository->0.owner->0.login is None && p.repository->0.owner->0.name is Some)
            ==> owner_login_spec(p) == p.repository->0.owner->0.name->0@,
        (p.repository is Some && p.repository->0.owner is Some
            && p.repository->0.owner->0.login is None && p.repository->0.owner->0.name is None
            && p.repository->0.owner->0.path is Some) ==> owner_login_spec(p)
            == p.repository->0.owner->0.path->0@,
        (!(p.repository is Some && p.repository->0.owner is Some && (
        p.repository->0.owner->0.login is Some || p.repository->0.owner->0.name is Some
            || p.repository->0.owner->0.path is Some)) && p.project is Some
            && p.project->0.path_with_namespace is Some && p.project->0.path_with_namespace->0@
            == ns + "/"@ + last) ==> owner_login_spec(p) == ns,
{
    reveal_strlit("/");
    assert(ns + "/"@ + last == ns + seq!['/'] + last);
    lemma_split_at_last(ns, '/', last);
}

/// The clone URL is the repository's `clone_url`, else its `git_http_url`,
/// else the project's `git_http_url`, else its `http_url_to_repo`; without
/// any, the forge's `https://<forge>/<full name>.git`.
pub proof fn lemma_clone_url_order(provider: WebhookProvider, p: WebhookPayload, full: Seq<char>)
    ensures
        (p.repository is Some && p.repository->0.clone_url is Some) ==> clone_url_spec(
            provider,
            p,
            full,
        ) == p.repository->0.clone_url->0@,
        (p.repository is Some && p.repository->0.clone_url is None
            && p.repository->0.git_http_url is Some) ==> clone_url_spec(provider, p, full)
            == p.repository->0.git_http_url->0@,
        (!(p.repository is Some && (p.repository->0.clone_url is Some
            || p.repository->0.git_http_url is Some)) && p.project is Some
            && p.project->0.git_http_url is Some) ==> clone_url_spec(provider, p, full)
            == p.project->0.git_http_url->0@,
        (!(p.repository is Some && (p.repository->0.clone_url is Some
            || p.repository->0.git_http_url is Some)) && p.project is Some
            && p.project->0.git_http_url is None && p.project->0.http_url_to_repo is Some)
            ==> clone_url_spec(provider, p, full) == p.project->0.http_url_to_repo->0@,
        (!(p.repository is Some && (p.repository->0.clone_url is Some
            || p.repository->0.git_http_url is Some)) && !(p.project is Some && (
        p.project->0.git_http_url is Some || p.project->0.http_url_to_repo is Some)))
            ==> clone_url_spec(provider, p, full) == (match provider {
            WebhookProvider::GitHub => "https://github.com/"@,
            WebhookProvider::Gitee => "https://gitee.com/"@,
            WebhookProvider::GitLab => "https://gitlab.com/"@,
        }) + full + ".git"@,
{
}

/// A push to `main` or `master` whose owner and repository no whitelist
/// restricts is deployed: the job deploys the pushed ref of the repository
/// (named by its last path segment), from the URL the delivery gives, and
/// records the head commit's committer (else the delivery's `user_name`, else
/// `unknown`).
pub proof fn lemma_plan_deploys_main(
    provider: WebhookProvider,
    p: WebhookPayload,
    config: AppConfig,
    r: WebhookPlan,
    ns: Seq<char>,
    last: Seq<char>,
)
    requires
        plan_spec(provider, Some(p), config, r),
        config.allowed_orgs@.len() == 0,
        config.allowed_users@.len() == 0,
        config.allowed_repos@.len() == 0,
        p.ref_name is Some,
        p.ref_name->0@ == "refs/heads/main"@ || p.ref_name->0@ == "refs/heads/master"@,
        forall|i: int| 0 <= i < last.len() ==> last[i] != '/',
        repo_full_name_spec(p) == ns + "/"@ + last,
    ensures
        r is Deploy,
        r->Deploy_0.branch@ == p.ref_name->0@,
        r->Deploy_0.repo_full_name@ == ns + "/"@ + last,
        r->Deploy_0.repo_name@ == last,
        r->Deploy_0.repo_url@ == clone_url_spec(provider, p, ns + "/"@ + last),
        (p.head_commit is Some && p.head_commit->0.committer is Some
            && p.head_commit->0.committer->0.name is Some) ==> r->Deploy_0.committer@
            == p.head_commit->0.committer->0.name->0@,
        (!(p.head_commit is Some && p.head_commit->0.committer is Some
            && p.head_commit->0.committer->0.name is Some) && p.user_name is Some)
            ==> r->Deploy_0.committer@ == p.user_name->0@,
        (!(p.head_commit is Some && p.head_commit->0.committer is Some
            && p.head_commit->0.committer->0.name is Some) && p.user_name is None)
            ==> r->Deploy_0.committer@ == "unknown"@,
{
    reveal_strlit("/");
    assert(ns + "/"@ + last == ns + seq!['/'] + last);
    lemma_split_at_last(ns, '/', last);
}

/// A push to any ref other than `main` and `master` is answered with 200 and
/// not deployed, once the whitelists admit it.
pub proof fn lemma_plan_skips_other_branches(
    provider: WebhookProvider,
    p: WebhookPayload,
    config: AppConfig,
    r: WebhookPlan,
)
    requires
        plan_spec(provider, Some(p), config, r),
        config.allowed_orgs@.len() == 0,
        config.allowed_users@.len() == 0,
        config.allowed_repos@.len() == 0,
        p.ref_name matches Some(b) && b@ != "refs/heads/main"@ && b@ != "refs/heads/master"@,
    ensures
        r == WebhookPlan::Reply(HttpStatus::Success),
{
}

/// An organisation-like owner (`Organization`, `Group`, `Enterprise`) whose
/// login the non-empty organisation list does not name is refused with 403,
/// even where the user list names it; a body that did not parse gets 400.
pub proof fn lemma_plan_refusals(
    provider: WebhookProvider,
    p: WebhookPayload,
    config: AppConfig,
    r: WebhookPlan,
)
    ensures
        plan_spec(provider, None, config, r) ==> r == WebhookPlan::Reply(HttpStatus::BadRequest),
        (plan_spec(provider, Some(p), config, r) && config.allowed_orgs@.len() > 0
            && (owner_type_spec(p) == Some("Organization"@) || owner_type_spec(p) == Some("Group"@)
            || owner_type_spec(p) == Some("Enterprise"@)) && forall|i: int|
            0 <= i < config.allowed_orgs@.len() ==> #[trigger] config.allowed_orgs@[i]@
                != owner_login_spec(p)) ==> r == WebhookPlan::Reply(HttpStatus::Forbidden),
{
}


/// A log entry is stamped with the deployment's start, reads `success` with
/// the output or `failed` with the error, keeps at most the first 500
/// characters of that text, and names the job's branch, committer and repository.
pub proof fn lemma_log_entry_fields(
    job: DeployJob,
    outcome: Result<String, String>,
    timestamp: Seq<char>,
    e: DeploymentLog,
)
    requires
        log_entry_spec(job, outcome, timestamp, e),
    ensures
        e.timestamp@ == timestamp,
        outcome is Ok ==> e.status@ == "success"@,
        outcome is Err ==> e.status@ == "failed"@,
        e.message@.len() <= 500,
        outcome is Ok && outcome->Ok_0@.len() <= 500 ==> e.message@ == outcome->Ok_0@,
        outcome is Err && outcome->Err_0@.len() <= 500 ==> e.message@ == outcome->Err_0@,
        forall|i: int| 0 <= i < e.message@.len() ==> #[trigger] e.message@[i] == (match outcome {
            Ok(m) => m@,
            Err(m) => m@,
        })[i],
        e.branch is Some && e.branch->0@ == job.branch@,
        e.committer is Some && e.committer->0@ == job.committer@,
        e.repo is Some && e.repo->0@ == job.repo_full_name@,
{
    let text = match outcome {
        Ok(m) => m@,
        Err(m) => m@,
    };
    lemma_take_chars_prefix(text, 500);
}

/// The owner whitelist: with both lists empty every owner is admitted; an
/// organisation-like owner (`Organization`, `Group`, `Enterprise`) only where
/// the organisation list names it; any other owner where either list names it.
pub proof fn lemma_owner_whitelist(
    login: Seq<char>,
    owner_type: Option<Seq<char>>,
    orgs: Seq<String>,
    users: Seq<String>,
)
    ensures
        (orgs.len() == 0 && users.len() == 0) ==> owner_allowed_spec(login, owner_type, orgs, users),
        (!(orgs.len() == 0 && users.len() == 0) && (owner_type == Some("Organization"@)
            || owner_type == Some("Group"@) || owner_type == Some("Enterprise"@)))
            ==> (owner_allowed_spec(login, owner_type, orgs, users) <==> exists|i: int|
            0 <= i < orgs.len() && #[trigger] orgs[i]@ == login),
        (!(orgs.len() == 0 && users.len() == 0) && (owner_type is None || owner_type == Some(
            "User"@,
        ))) ==> (owner_allowed_spec(login, owner_type, orgs, users) <==> ((exists|i: int|
            0 <= i < orgs.len() && #[trigger] orgs[i]@ == login) || (exists|i: int|
            0 <= i < users.len() && #[trigger] users[i]@ == login))),
{
    reveal_strlit("User");
    reveal_strlit("Organization");
    reveal_strlit("Group");
    reveal_strlit("Enterprise");
    reveal_strlit("");
    assert("User"@[0] != "Organization"@[0]);
    assert("User"@[0] != "Group"@[0]);
    assert("User"@[0] != "Enterprise"@[0]);
    assert(!org_like("User"@));
    assert("Organization"@.len() == 12 && "Group"@.len() == 5 && "Enterprise"@.len() == 10);
    assert(!org_like(Seq::<char>::empty()));
    assert(text_or(None, Seq::<char>::empty()) == Seq::<char>::empty());
}

/// What counts as a push: GitHub's event `push` exactly; Gitee's and
/// GitLab's `Push Hook` or `push`, in any ASCII case.
pub proof fn lemma_push_events(event: Seq<char>)
    ensures
        is_push_event_spec(WebhookProvider::GitHub, event) <==> event == "push"@,
        is_push_event_spec(WebhookProvider::GitLab, "Push Hook"@),
        is_push_event_spec(WebhookProvider::Gitee, "Push Hook"@),
        is_push_event_spec(WebhookProvider::GitLab, "push"@),
        is_push_event_spec(WebhookProvider::Gitee, "push"@),
        (event.len() == 4 && fold_ascii(event[0]) == 'p' as u32 && fold_ascii(event[1]) == 'u' as u32
            && fold_ascii(event[2]) == 's' as u32 && fold_ascii(event[3]) == 'h' as u32)
            ==> is_push_event_spec(WebhookProvider::GitLab, event),
        !is_push_event_spec(WebhookProvider::GitLab, "Merge Request Hook"@),
{
    reveal_strlit("push");
    reveal_strlit("Push Hook");
    reveal_strlit("Merge Request Hook");
}


/// The forge is told by its headers, GitLab's first: a GitLab event or
/// token header means GitLab; else a Gitee event or token header means
/// Gitee; else a GitHub event or signature header means GitHub; else none.
pub proof fn lemma_provider_detection(headers: RequestHeaders)
    ensures
        (header_lookup(headers.entries@, "X-Gitlab-Event"@) is Some || header_lookup(
            headers.entries@,
            "X-Gitlab-Token"@,
        ) is Some) ==> detect_provider_spec(headers) == Some(WebhookProvider::GitLab),
        (header_lookup(headers.entries@, "X-Gitlab-Event"@) is None && header_lookup(
            headers.entries@,
            "X-Gitlab-Token"@,
        ) is None && (header_lookup(headers.entries@, "X-Gitee-Event"@) is Some || header_lookup(
            headers.entries@,
            "X-Gitee-Token"@,
        ) is Some)) ==> detect_provider_spec(headers) == Some(WebhookProvider::Gitee),
        (header_lookup(headers.entries@, "X-Gitlab-Event"@) is None && header_lookup(
            headers.entries@,
            "X-Gitlab-Token"@,
        ) is None && header_lookup(headers.entries@, "X-Gitee-Event"@) is None && header_lookup(
            headers.entries@,
            "X-Gitee-Token"@,
        ) is None && (header_lookup(headers.entries@, "X-GitHub-Event"@) is Some || header_lookup(
            headers.entries@,
            "X-Hub-Signature-256"@,
        ) is Some)) ==> detect_provider_spec(headers) == Some(WebhookProvider::GitHub),
        (header_lookup(headers.entries@, "X-Gitlab-Event"@) is None && header_lookup(
            headers.entries@,
            "X-Gitlab-Token"@,
        ) is None && header_lookup(headers.entries@, "X-Gitee-Event"@) is None && header_lookup(
            headers.entries@,
            "X-Gitee-Token"@,
        ) is None && header_lookup(headers.entries@, "X-GitHub-Event"@) is None && header_lookup(
            headers.entries@,
            "X-Hub-Signature-256"@,
        ) is None) ==> detect_provider_spec(headers) is None,
{
}

} // verus!
