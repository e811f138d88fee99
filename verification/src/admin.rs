//! The repositories that the administration panel manages, and who may act on them.
use vstd::prelude::*;

use crate::auth::{role_at_spec, AuthState, SessionView};
use crate::clock::{now_rfc3339, now_timestamp, Timestamp};
use crate::config::{text_or, AppConfig, ResolvedSshConfig};
use crate::headers::{bearer_token, extract_token, opt_view, RequestHeaders};
use crate::status::HttpStatus;
use crate::text::{contains_spec, contains_text, text_eq};

verus! {

/// A managed repository.
pub struct RepoEntry {
    pub id: String,
    pub name: String,
    pub git_url: String,
    pub branch: String,
    pub deploy_name: Option<String>,
    pub added_at: String,
    pub last_sync: Option<String>,
    pub last_build: Option<String>,
    pub last_deploy: Option<String>,
    pub status: String,
    pub last_message: Option<String>,
}

/// A request to add a repository.
pub struct AddRepoRequest {
    pub name: String,
    pub git_url: String,
    pub branch: Option<String>,
    pub deploy_name: Option<String>,
}

/// A request to change some fields of a repository.
pub struct EditRepoRequest {
    pub name: Option<String>,
    pub git_url: Option<String>,
    pub branch: Option<String>,
    pub deploy_name: Option<String>,
}

/// The text of a repository entry.
pub struct RepoView {
    pub id: Seq<char>,
    pub name: Seq<char>,
    pub git_url: Seq<char>,
    pub branch: Seq<char>,
    pub deploy_name: Option<Seq<char>>,
    pub added_at: Seq<char>,
    pub last_sync: Option<Seq<char>>,
    pub last_build: Option<Seq<char>>,
    pub last_deploy: Option<Seq<char>>,
    pub status: Seq<char>,
    pub last_message: Option<Seq<char>>,
}

impl DeepView for RepoEntry {
    type V = RepoView;

    open spec fn deep_view(&self) -> RepoView {
        RepoView {
            id: self.id@,
            name: self.name@,
            git_url: self.git_url@,
            branch: self.branch@,
            deploy_name: opt_view(self.deploy_name),
            added_at: self.added_at@,
            last_sync: opt_view(self.last_sync),
            last_build: opt_view(self.last_build),
            last_deploy: opt_view(self.last_deploy),
            status: self.status@,
            last_message: opt_view(self.last_message),
        }
    }
}

fn copy_opt(o: &Option<String>) -> (r: Option<String>)
    ensures
        opt_view(r) == opt_view(*o),
{
    match o {
        Some(s) => Some(s.clone()),
        None => None,
    }
}

impl RepoEntry {
    /// A copy of this entry.
    pub fn duplicate(&self) -> (r: RepoEntry)
        ensures
            r.deep_view() == self.deep_view(),
    {
        RepoEntry {
            id: self.id.clone(),
            name: self.name.clone(),
            git_url: self.git_url.clone(),
            branch: self.branch.clone(),
            deploy_name: copy_opt(&self.deploy_name),
            added_at: self.added_at.clone(),
            last_sync: copy_opt(&self.last_sync),
            last_build: copy_opt(&self.last_build),
            last_deploy: copy_opt(&self.last_deploy),
            status: self.status.clone(),
            last_message: copy_opt(&self.last_message),
        }
    }
}

/// The index of the first entry with this id.
pub open spec fn first_with_id(s: Seq<RepoView>, id: Seq<char>) -> Option<int>
    decreases s.len(),
{
    if s.len() == 0 {
        None
    } else if s[0].id == id {
        Some(0)
    } else {
        match first_with_id(s.drop_first(), id) {
            Some(k) => Some(k + 1),
            None => None,
        }
    }
}

proof fn lemma_first_with_id_found(s: Seq<RepoView>, id: Seq<char>, i: int)
    requires
        0 <= i < s.len(),
        s[i].id == id,
        forall|j: int| 0 <= j < i ==> #[trigger] s[j].id != id,
    ensures
        first_with_id(s, id) == Some(i),
    decreases i,
{
    if i > 0 {
        assert forall|j: int| 0 <= j < i - 1 implies #[trigger] s.drop_first()[j].id != id by {
            assert(s.drop_first()[j] == s[j + 1]);
        }
        lemma_first_with_id_found(s.drop_first(), id, i - 1);
    }
}

proof fn lemma_first_with_id_absent(s: Seq<RepoView>, id: Seq<char>)
    requires
        forall|j: int| 0 <= j < s.len() ==> #[trigger] s[j].id != id,
    ensures
        first_with_id(s, id) is None,
    decreases s.len(),
{
    if s.len() > 0 {
        assert forall|j: int| 0 <= j < s.len() - 1 implies #[trigger] s.drop_first()[j].id != id by {
            assert(s.drop_first()[j] == s[j + 1]);
        }
        lemma_first_with_id_absent(s.drop_first(), id);
    }
}

fn position(repos: &Vec<RepoEntry>, id: &str) -> (r: Option<usize>)
    ensures
        r matches Some(i) ==> i < repos@.len() && first_with_id(repos.deep_view(), id@) == Some(
            i as int,
        ),
        r is None ==> first_with_id(repos.deep_view(), id@) is None,
{
    let n: usize = repos.len();
    let mut i: usize = 0;
    while i < n
        invariant
            n == repos@.len(),
            i <= n,
            forall|j: int| 0 <= j < i ==> #[trigger] repos.deep_view()[j].id != id@,
        decreases n - i,
    {
        if text_eq(repos[i].id.as_str(), id) {
            proof {
                lemma_first_with_id_found(repos.deep_view(), id@, i as int);
            }
            return Some(i);
        }
        i += 1;
    }
    proof {
        lemma_first_with_id_absent(repos.deep_view(), id@);
    }
    None
}

fn replace_at(repos: &mut Vec<RepoEntry>, i: usize, e: RepoEntry)
    requires
        i < old(repos)@.len(),
    ensures
        final(repos).deep_view() == old(repos).deep_view().update(i as int, e.deep_view()),
        final(repos)@.len() == old(repos)@.len(),
{
    repos.set(i, e);
    assert(repos.deep_view() =~= old(repos).deep_view().update(i as int, e.deep_view()));
}

/// The first entry with this id.
pub fn find_repo(repos: &Vec<RepoEntry>, id: &str) -> (r: Option<RepoEntry>)
    ensures
        r matches Some(e) ==> (first_with_id(repos.deep_view(), id@) matches Some(i)
            && e.deep_view() == repos.deep_view()[i]),
        r is None ==> first_with_id(repos.deep_view(), id@) is None,
{
    match position(repos, id) {
        Some(i) => Some(repos[i].duplicate()),
        None => None,
    }
}

/// The entries after the first one with `id` has been given a new status.
pub open spec fn status_set(s: Seq<RepoView>, id: Seq<char>, status: Seq<char>) -> Seq<RepoView> {
    match first_with_id(s, id) {
        Some(i) => s.update(i, RepoView { status, ..s[i] }),
        None => s,
    }
}

/// Sets the status of the first entry with this id.
pub fn update_status(repos: &mut Vec<RepoEntry>, id: &str, status: &str)
    ensures
        final(repos).deep_view() == status_set(old(repos).deep_view(), id@, status@),
{
    match position(repos, id) {
        Some(i) => {
            let mut e: RepoEntry = repos[i].duplicate();
            e.status = String::from_str(status);
            replace_at(repos, i, e);
        },
        None => {},
    }
}

/// The three actions the panel runs on a repository.
#[derive(Clone, Copy, Debug, PartialEq, Eq, Structural)]
pub enum RepoAction {
    Sync,
    Build,
    Deploy,
}

/// An entry after an action finished at time `at`: on success the status is
/// `idle`, the action's time is `at` and the message is the output; on failure
/// the status is `error` and the message is the error.
pub open spec fn after_outcome(
    e: RepoView,
    action: RepoAction,
    outcome: Result<Seq<char>, Seq<char>>,
    at: Seq<char>,
) -> RepoView {
    match outcome {
        Ok(msg) => match action {
            RepoAction::Sync => RepoView {
                status: "idle"@,
                last_sync: Some(at),
                last_message: Some(msg),
                ..e
            },
            RepoAction::Build => RepoView {
                status: "idle"@,
                last_build: Some(at),
                last_message: Some(msg),
                ..e
            },
            RepoAction::Deploy => RepoView {
                status: "idle"@,
                last_deploy: Some(at),
                last_message: Some(msg),
                ..e
            },
        },
        Err(err) => RepoView { status: "error"@, last_message: Some(err), ..e },
    }
}

/// The text of an outcome.
pub open spec fn outcome_view(o: Result<String, String>) -> Result<Seq<char>, Seq<char>> {
    match o {
        Ok(m) => Ok(m@),
        Err(e) => Err(e@),
    }
}

/// The entries after the first one with `id` recorded an action's outcome.
pub open spec fn outcome_recorded(
    s: Seq<RepoView>,
    id: Seq<char>,
    action: RepoAction,
    outcome: Result<Seq<char>, Seq<char>>,
    at: Seq<char>,
) -> Seq<RepoView> {
    match first_with_id(s, id) {
        Some(i) => s.update(i, after_outcome(s[i], action, outcome, at)),
        None => s,
    }
}

/// Records on the first entry with this id how an action ended, at time `at`.
pub fn record_outcome(
    repos: &mut Vec<RepoEntry>,
    id: &str,
    action: RepoAction,
    outcome: &Result<String, String>,
    at: &str,
)
    ensures
        final(repos).deep_view() == outcome_recorded(
            old(repos).deep_view(),
            id@,
            action,
            outcome_view(*outcome),
            at@,
        ),
{
    match position(repos, id) {
        Some(i) => {
            let mut e: RepoEntry = repos[i].duplicate();
            match outcome {
                Ok(msg) => {
                    e.status = String::from_str("idle");
                    match action {
                        RepoAction::Sync => e.last_sync = Some(String::from_str(at)),
                        RepoAction::Build => e.last_build = Some(String::from_str(at)),
                        RepoAction::Deploy => e.last_deploy = Some(String::from_str(at)),
                    }
                    e.last_message = Some(msg.clone());
                },
                Err(err) => {
                    e.status = String::from_str("error");
                    e.last_message = Some(err.clone());
                },
            }
            replace_at(repos, i, e);
        },
        None => {},
    }
}

/// Records on the first entry with this id how an action ended, now.
pub fn finish_action(
    repos: &mut Vec<RepoEntry>,
    id: &str,
    action: RepoAction,
    outcome: &Result<String, String>,
)
    ensures
        exists|at: Seq<char>|
            final(repos).deep_view() == outcome_recorded(
                old(repos).deep_view(),
                id@,
                action,
                outcome_view(*outcome),
                at,
            ),
{
    let at: String = now_rfc3339();
    record_outcome(repos, id, action, outcome, at.as_str());
}

/// A new repository entry: branch `main` unless given, status `idle`, never
/// synced, built or deployed.
pub open spec fn new_repo_view(req: AddRepoRequest, id: Seq<char>, added_at: Seq<char>) -> RepoView {
    RepoView {
        id,
        name: req.name@,
        git_url: req.git_url@,
        branch: text_or(opt_view(req.branch), "main"@),
        deploy_name: opt_view(req.deploy_name),
        added_at,
        last_sync: None,
        last_build: None,
        last_deploy: None,
        status: "idle"@,
        last_message: None,
    }
}

/// The entry that a request adds, under the given id and time.
pub fn new_repo_entry(req: AddRepoRequest, id: String, added_at: String) -> (r: RepoEntry)
    ensures
        r.deep_view() == new_repo_view(req, id@, added_at@),
{
    let branch: String = match req.branch {
        Some(b) => b,
        None => String::from_str("main"),
    };
    RepoEntry {
        id,
        name: req.name,
        git_url: req.git_url,
        branch,
        deploy_name: req.deploy_name,
        added_at,
        last_sync: None,
        last_build: None,
        last_deploy: None,
        status: String::from_str("idle"),
        last_message: None,
    }
}

/// Calls `uuid::Uuid::new_v4` and formats it with `to_string`: 36 characters
/// in the hyphenated form, with hyphens at positions 8, 13, 18 and 23; the
/// digits are random.
#[verifier::external_body]
fn new_repo_id() -> (r: String)
    ensures
        r@.len() == 36,
        r@[8] == '-' && r@[13] == '-' && r@[18] == '-' && r@[23] == '-',
{
    uuid::Uuid::new_v4().to_string()
}

/// Adds a repository under a fresh random id, stamped with the current time.
pub fn add_repo(repos: &mut Vec<RepoEntry>, req: AddRepoRequest) -> (r: RepoEntry)
    ensures
        r.deep_view() == new_repo_view(req, r.id@, r.added_at@),
        r.id@.len() == 36,
        r.id@[8] == '-' && r.id@[13] == '-' && r.id@[18] == '-' && r.id@[23] == '-',
        final(repos).deep_view() == old(repos).deep_view().push(r.deep_view()),
{
    let id: String = new_repo_id();
    let added_at: String = now_rfc3339();
    let entry: RepoEntry = new_repo_entry(req, id, added_at);
    let copy: RepoEntry = entry.duplicate();
    repos.push(copy);
    assert(repos.deep_view() =~= old(repos).deep_view().push(entry.deep_view()));
    entry
}

/// The entries without those of this id.
pub open spec fn without_id(s: Seq<RepoView>, id: Seq<char>) -> Seq<RepoView>
    decreases s.len(),
{
    if s.len() == 0 {
        s
    } else {
        let rest = without_id(s.drop_last(), id);
        if s.last().id == id {
            rest
        } else {
            rest.push(s.last())
        }
    }
}

/// Some entry has this id.
pub open spec fn has_id(s: Seq<RepoView>, id: Seq<char>) -> bool {
    exists|i: int| 0 <= i < s.len() && #[trigger] s[i].id == id
}

proof fn lemma_without_id_len(s: Seq<RepoView>, id: Seq<char>)
    ensures
        without_id(s, id).len() <= s.len(),
        (without_id(s, id).len() < s.len()) == has_id(s, id),
    decreases s.len(),
{
    if s.len() > 0 {
        lemma_without_id_len(s.drop_last(), id);
        if has_id(s.drop_last(), id) {
            let k = choose|k: int| 0 <= k < s.drop_last().len() && #[trigger] s.drop_last()[k].id == id;
            assert(s[k].id == id);
        }
        if has_id(s, id) && s.last().id != id {
            let k = choose|k: int| 0 <= k < s.len() && #[trigger] s[k].id == id;
            assert(s.drop_last()[k].id == id);
        }
    }
}

proof fn lemma_without_absent_id(s: Seq<RepoView>, id: Seq<char>)
    requires
        !has_id(s, id),
    ensures
        without_id(s, id) == s,
    decreases s.len(),
{
    if s.len() > 0 {
        assert(s[s.len() - 1].id != id);
        assert forall|k: int| 0 <= k < s.drop_last().len() implies #[trigger] s.drop_last()[k].id
            != id by {
            assert(s[k].id != id);
        }
        lemma_without_absent_id(s.drop_last(), id);
        assert(s.drop_last().push(s.last()) =~= s);
    }
}

/// Deleting a repository right after adding it, under an id that no other
/// entry has, gives back the list as it was before the addition.
pub proof fn lemma_delete_undoes_add(s: Seq<RepoView>, e: RepoView)
    requires
        !has_id(s, e.id),
    ensures
        without_id(s.push(e), e.id) == s,
{
    assert(s.push(e).drop_last() =~= s);
    lemma_without_absent_id(s, e.id);
}

/// A repository just added under an id that no other entry has is the one
/// that a lookup of that id finds.
pub proof fn lemma_added_is_found(s: Seq<RepoView>, e: RepoView)
    requires
        !has_id(s, e.id),
    ensures
        first_with_id(s.push(e), e.id) == Some(s.len() as int),
{
    assert forall|j: int| 0 <= j < s.len() implies #[trigger] s.push(e)[j].id != e.id by {
        assert(s.push(e)[j] == s[j]);
    }
    lemma_first_with_id_found(s.push(e), e.id, s.len() as int);
}

/// After a deletion no entry has the deleted id, and every entry that had
/// another id is still there.
pub proof fn lemma_delete_removes_only_id(s: Seq<RepoView>, id: Seq<char>)
    ensures
        !has_id(without_id(s, id), id),
        forall|i: int|
            0 <= i < s.len() && s[i].id != id ==> without_id(s, id).contains(#[trigger] s[i]),
    decreases s.len(),
{
    if s.len() > 0 {
        let t = s.drop_last();
        lemma_delete_removes_only_id(t, id);
        let rest = without_id(t, id);
        if s.last().id != id {
            assert forall|k: int| 0 <= k < rest.push(s.last()).len() implies #[trigger] rest.push(
                s.last(),
            )[k].id != id by {
                if k < rest.len() {
                    assert(rest.push(s.last())[k] == rest[k]);
                }
            }
        }
        assert forall|i: int| 0 <= i < s.len() && s[i].id != id implies without_id(
            s,
            id,
        ).contains(#[trigger] s[i]) by {
            if i < s.len() - 1 {
                assert(t[i] == s[i]);
                assert(rest.contains(t[i]));
                let k = choose|k: int| 0 <= k < rest.len() && rest[k] == t[i];
                if s.last().id != id {
                    assert(rest.push(s.last())[k] == s[i]);
                }
            } else {
                assert(rest.push(s.last())[rest.len() as int] == s[i]);
            }
        }
    }
}

/// Removes every entry with this id; answers 404 where there is none.
pub fn delete_repo(repos: &mut Vec<RepoEntry>, id: &str) -> (r: Result<(), HttpStatus>)
    ensures
        final(repos).deep_view() == without_id(old(repos).deep_view(), id@),
        r is Ok <==> has_id(old(repos).deep_view(), id@),
        r is Err ==> r == Err::<(), HttpStatus>(HttpStatus::NotFound),
{
    let n: usize = repos.len();
    let mut kept: Vec<RepoEntry> = Vec::new();
    let mut i: usize = 0;
    assert(repos.deep_view().take(0) =~= Seq::<RepoView>::empty());
    while i < n
        invariant
            n == repos@.len(),
            i <= n,
            kept.deep_view() == without_id(repos.deep_view().take(i as int), id@),
        decreases n - i,
    {
        assert(repos.deep_view().take(i + 1).drop_last() =~= repos.deep_view().take(i as int));
        if !text_eq(repos[i].id.as_str(), id) {
            kept.push(repos[i].duplicate());
        }
        proof {
            assert(kept.deep_view() =~= without_id(repos.deep_view().take(i + 1), id@));
        }
        i += 1;
    }
    assert(repos.deep_view().take(n as int) =~= repos.deep_view());
    proof {
        lemma_without_id_len(repos.deep_view(), id@);
    }
    let removed: bool = kept.len() < n;
    *repos = kept;
    if removed {
        Ok(())
    } else {
        Err(HttpStatus::NotFound)
    }
}

/// An entry after an edit: each field the request gives replaces the old one;
/// an empty deploy name clears it.
pub open spec fn edited(e: RepoView, req: EditRepoRequest) -> RepoView {
    RepoView {
        name: text_or(opt_view(req.name), e.name),
        git_url: text_or(opt_view(req.git_url), e.git_url),
        branch: text_or(opt_view(req.branch), e.branch),
        deploy_name: match req.deploy_name {
            Some(d) => if d@.len() == 0 {
                None
            } else {
                Some(d@)
            },
            None => e.deploy_name,
        },
        ..e
    }
}

/// Applies an edit to the first entry with this id and returns it; answers
/// 404 and changes nothing where there is none.
pub fn edit_repo(repos: &mut Vec<RepoEntry>, id: &str, req: EditRepoRequest) -> (r: Result<
    RepoEntry,
    HttpStatus,
>)
    ensures
        first_with_id(old(repos).deep_view(), id@) is None ==> (r matches Err(s) && s
            == HttpStatus::NotFound && final(repos).deep_view() == old(repos).deep_view()),
        first_with_id(old(repos).deep_view(), id@) matches Some(i) ==> (r matches Ok(e)
            && e.deep_view() == edited(old(repos).deep_view()[i], req) && final(repos).deep_view()
            == old(repos).deep_view().update(i, e.deep_view())),
{
    let i: usize = match position(repos, id) {
        Some(i) => i,
        None => return Err(HttpStatus::NotFound),
    };
    let mut e: RepoEntry = repos[i].duplicate();
    let EditRepoRequest { name, git_url, branch, deploy_name } = req;
    if let Some(n) = name {
        e.name = n;
    }
    if let Some(g) = git_url {
        e.git_url = g;
    }
    if let Some(b) = branch {
        e.branch = b;
    }
    if let Some(d) = deploy_name {
        e.deploy_name = if d.as_str().is_empty() {
            None
        } else {
            Some(d)
        };
    }
    let updated: RepoEntry = e.duplicate();
    replace_at(repos, i, e);
    Ok(updated)
}

/// The message a non-administrator sees: an SSH deployment report reads
/// `Published successfully`.
pub open spec fn masked_message(msg: Option<Seq<char>>, role: Seq<char>) -> Option<Seq<char>> {
    match msg {
        Some(m) => if role != "admin"@ && (contains_spec(m, "SSH deployed"@) || contains_spec(
            m,
            "SSH deploy"@,
        )) {
            Some("Published successfully"@)
        } else {
            Some(m)
        },
        None => None,
    }
}

/// An entry as a user of this role sees it.
pub open spec fn visible_view(e: RepoView, role: Seq<char>) -> RepoView {
    RepoView { last_message: masked_message(e.last_message, role), ..e }
}

/// The entries as a user of this role sees them: all of them, with SSH
/// deployment reports hidden from anyone but the administrator.
pub fn visible_repos(repos: &Vec<RepoEntry>, role: &str) -> (r: Vec<RepoEntry>)
    ensures
        r.deep_view() == repos.deep_view().map_values(|e: RepoView| visible_view(e, role@)),
{
    let is_admin: bool = text_eq(role, "admin");
    let n: usize = repos.len();
    let mut out: Vec<RepoEntry> = Vec::new();
    let mut i: usize = 0;
    while i < n
        invariant
            n == repos@.len(),
            i <= n,
            is_admin == (role@ == "admin"@),
            out.deep_view() == repos.deep_view().take(i as int).map_values(
                |e: RepoView| visible_view(e, role@),
            ),
        decreases n - i,
    {
        let mut e: RepoEntry = repos[i].duplicate();
        if !is_admin {
            let hide: bool = match &e.last_message {
                Some(m) => contains_text(m.as_str(), "SSH deployed") || contains_text(
                    m.as_str(),
                    "SSH deploy",
                ),
                None => false,
            };
            if hide {
                e.last_message = Some(String::from_str("Published successfully"));
            }
        }
        assert(e.deep_view() == visible_view(repos.deep_view()[i as int], role@));
        let ghost before = out.deep_view();
        let ghost ev = e.deep_view();
        out.push(e);
        assert(out.deep_view() =~= before.push(ev));
        assert(out.deep_view() =~= repos.deep_view().take(i + 1).map_values(
            |e: RepoView| visible_view(e, role@),
        ));
        i += 1;
    }
    assert(repos.deep_view().take(n as int) =~= repos.deep_view());
    out
}

/// The administrator sees every entry exactly as it is stored.
pub proof fn lemma_admin_sees_everything(e: RepoView)
    ensures
        visible_view(e, "admin"@) == e,
{
}

/// A status that only an action in progress has.
pub open spec fn in_progress(status: Seq<char>) -> bool {
    status == "syncing"@ || status == "building"@ || status == "deploying"@
}

/// An entry as it is loaded: an action in progress when the server stopped
/// reads `idle`.
pub open spec fn reset_view(e: RepoView) -> RepoView {
    if in_progress(e.status) {
        RepoView { status: "idle"@, ..e }
    } else {
        e
    }
}

/// Sets every entry whose action was cut off back to `idle`.
pub fn reset_interrupted(repos: &mut Vec<RepoEntry>)
    ensures
        final(repos).deep_view() == old(repos).deep_view().map_values(|e: RepoView| reset_view(e)),
{
    let n: usize = repos.len();
    let mut i: usize = 0;
    while i < n
        invariant
            n == repos@.len(),
            i <= n,
            forall|j: int| 0 <= j < i ==> #[trigger] repos.deep_view()[j] == reset_view(
                old(repos).deep_view()[j],
            ),
            forall|j: int| i <= j < n ==> #[trigger] repos.deep_view()[j] == old(repos).deep_view()[j],
        decreases n - i,
    {
        let ghost prev = repos.deep_view();
        assert(prev[i as int] == old(repos).deep_view()[i as int]);
        let s: &str = repos[i].status.as_str();
        assert(s@ == prev[i as int].status);
        if text_eq(s, "syncing") || text_eq(s, "building") || text_eq(s, "deploying") {
            let mut e: RepoEntry = repos[i].duplicate();
            e.status = String::from_str("idle");
            assert(e.deep_view() == reset_view(prev[i as int]));
            replace_at(repos, i, e);
        } else {
            assert(!in_progress(prev[i as int].status));
        }
        assert(repos.deep_view()[i as int] == reset_view(old(repos).deep_view()[i as int]));
        assert forall|j: int| 0 <= j < i + 1 implies #[trigger] repos.deep_view()[j] == reset_view(
            old(repos).deep_view()[j],
        ) by {
            if j < i {
                assert(prev[j] == reset_view(old(repos).deep_view()[j]));
            }
        }
        assert forall|j: int| i + 1 <= j < n implies #[trigger] repos.deep_view()[j] == old(
            repos,
        ).deep_view()[j] by {
            assert(prev[j] == old(repos).deep_view()[j]);
        }
        i += 1;
    }
    assert(repos.deep_view() =~= old(repos).deep_view().map_values(|e: RepoView| reset_view(e)));
}

/// Resetting interrupted actions twice changes nothing more than resetting once.
pub proof fn lemma_reset_idempotent(s: Seq<RepoView>)
    ensures
        s.map_values(|e: RepoView| reset_view(e)).map_values(|e: RepoView| reset_view(e))
            == s.map_values(|e: RepoView| reset_view(e)),
{
    reveal_strlit("idle");
    reveal_strlit("syncing");
    reveal_strlit("building");
    reveal_strlit("deploying");
    assert(s.map_values(|e: RepoView| reset_view(e)).map_values(|e: RepoView| reset_view(e))
        =~= s.map_values(|e: RepoView| reset_view(e)));
}

/// Who a request is from: 401 without a bearer token or without a session
/// that honours it at `now`; else the session's role.
pub open spec fn auth_spec(sessions: Map<Seq<char>, SessionView>, headers: RequestHeaders, now: Timestamp) -> Result<
    Seq<char>,
    HttpStatus,
> {
    match bearer_token(headers.entries@) {
        None => Err(HttpStatus::Unauthorized),
        Some(t) => match role_at_spec(sessions, t, now) {
            Some(role) => Ok(role),
            None => Err(HttpStatus::Unauthorized),
        },
    }
}

/// The text of a role check's outcome.
pub open spec fn role_outcome(r: Result<String, HttpStatus>) -> Result<Seq<char>, HttpStatus> {
    match r {
        Ok(role) => Ok(role@),
        Err(s) => Err(s),
    }
}

/// The role of the request's sender at `now`, or the status to refuse it with.
pub fn check_auth_at(auth: &AuthState, headers: &RequestHeaders, now: Timestamp) -> (r: Result<
    String,
    HttpStatus,
>)
    ensures
        role_outcome(r) == auth_spec(auth.sessions(), *headers, now),
{
    let token: &str = match extract_token(headers) {
        Some(t) => t,
        None => return Err(HttpStatus::Unauthorized),
    };
    match auth.role_at(token, now) {
        Some(role) => Ok(role),
        None => Err(HttpStatus::Unauthorized),
    }
}

/// The role of the request's sender now, or the status to refuse it with.
pub fn check_auth(auth: &AuthState, headers: &RequestHeaders) -> (r: Result<String, HttpStatus>)
    ensures
        exists|now: Timestamp| role_outcome(r) == #[trigger] auth_spec(auth.sessions(), *headers, now),
{
    let now: Timestamp = now_timestamp();
    check_auth_at(auth, headers, now)
}

/// Administrator requests: the refusal of `auth_spec`, else 403 for any role
/// but `admin`.
pub open spec fn admin_spec(sessions: Map<Seq<char>, SessionView>, headers: RequestHeaders, now: Timestamp) -> Result<
    (),
    HttpStatus,
> {
    match auth_spec(sessions, headers, now) {
        Err(s) => Err(s),
        Ok(role) => if role == "admin"@ {
            Ok(())
        } else {
            Err(HttpStatus::Forbidden)
        },
    }
}

/// Lets only the administrator through at `now`.
pub fn require_admin_at(auth: &AuthState, headers: &RequestHeaders, now: Timestamp) -> (r: Result<
    (),
    HttpStatus,
>)
    ensures
        r == admin_spec(auth.sessions(), *headers, now),
{
    let role: String = check_auth_at(auth, headers, now)?;
    if !text_eq(role.as_str(), "admin") {
        return Err(HttpStatus::Forbidden);
    }
    Ok(())
}

/// Lets only the administrator through.
pub fn require_admin(auth: &AuthState, headers: &RequestHeaders) -> (r: Result<(), HttpStatus>)
    ensures
        exists|now: Timestamp| r == #[trigger] admin_spec(auth.sessions(), *headers, now),
{
    let now: Timestamp = now_timestamp();
    require_admin_at(auth, headers, now)
}

/// The repository an action is for, or the status that refuses it, in this
/// order: 401 or 403 as the sender's session decides (deployment is for the
/// administrator alone, syncing and building for any signed-in user); 404
/// where no entry has the id; for a deployment, 400 where SSH deployment is
/// not configured.
pub open spec fn action_target_spec(
    sessions: Map<Seq<char>, SessionView>,
    headers: RequestHeaders,
    now: Timestamp,
    repos: Seq<RepoView>,
    id: Seq<char>,
    action: RepoAction,
    has_ssh: bool,
) -> Result<RepoView, HttpStatus> {
    let gate: Result<(), HttpStatus> = match action {
        RepoAction::Deploy => admin_spec(sessions, headers, now),
        _ => match auth_spec(sessions, headers, now) {
            Ok(_) => Ok(()),
            Err(s) => Err(s),
        },
    };
    match gate {
        Err(s) => Err(s),
        Ok(_) => match first_with_id(repos, id) {
            None => Err(HttpStatus::NotFound),
            Some(i) => if action == RepoAction::Deploy && !has_ssh {
                Err(HttpStatus::BadRequest)
            } else {
                Ok(repos[i])
            },
        },
    }
}

/// The text of an action target's outcome.
pub open spec fn target_outcome(r: Result<RepoEntry, HttpStatus>) -> Result<RepoView, HttpStatus> {
    match r {
        Ok(e) => Ok(e.deep_view()),
        Err(s) => Err(s),
    }
}

/// The repository an action is for at `now`, or the status that refuses it.
pub fn action_target_at(
    auth: &AuthState,
    headers: &RequestHeaders,
    now: Timestamp,
    repos: &Vec<RepoEntry>,
    id: &str,
    action: RepoAction,
    config: &AppConfig,
) -> (r: Result<RepoEntry, HttpStatus>)
    ensures
        target_outcome(r) == action_target_spec(
            auth.sessions(),
            *headers,
            now,
            repos.deep_view(),
            id@,
            action,
            config.ssh_deploy is Some,
        ),
{
    match action {
        RepoAction::Deploy => {
            require_admin_at(auth, headers, now)?;
        },
        _ => {
            check_auth_at(auth, headers, now)?;
        },
    }
    let repo: RepoEntry = match find_repo(repos, id) {
        Some(e) => e,
        None => return Err(HttpStatus::NotFound),
    };
    if action == RepoAction::Deploy && config.ssh_deploy.is_none() {
        return Err(HttpStatus::BadRequest);
    }
    Ok(repo)
}

/// The repository an action is for now, or the status that refuses it.
pub fn action_target(
    auth: &AuthState,
    headers: &RequestHeaders,
    repos: &Vec<RepoEntry>,
    id: &str,
    action: RepoAction,
    config: &AppConfig,
) -> (r: Result<RepoEntry, HttpStatus>)
    ensures
        exists|now: Timestamp|
            target_outcome(r) == #[trigger] action_target_spec(
                auth.sessions(),
                *headers,
                now,
                repos.deep_view(),
                id@,
                action,
                config.ssh_deploy is Some,
            ),
{
    let now: Timestamp = now_timestamp();
    action_target_at(auth, headers, now, repos, id, action, config)
}

/// The name a repository is deployed under remotely: its deploy name, else its name.
pub fn remote_name(repo: &RepoEntry) -> (r: &str)
    ensures
        r@ == text_or(opt_view(repo.deploy_name), repo.name@),
{
    match &repo.deploy_name {
        Some(d) => d.as_str(),
        None => repo.name.as_str(),
    }
}

/// The SSH settings a deployment needs; 400 where SSH deployment is not configured.
pub fn ssh_settings(config: &AppConfig) -> (r: Result<&ResolvedSshConfig, HttpStatus>)
    ensures
        config.ssh_deploy is None ==> r == Err::<&ResolvedSshConfig, HttpStatus>(
            HttpStatus::BadRequest,
        ),
        config.ssh_deploy matches Some(s) ==> r == Ok::<&ResolvedSshConfig, HttpStatus>(&s),
{
    match &config.ssh_deploy {
        Some(s) => Ok(s),
        None => Err(HttpStatus::BadRequest),
    }
}

/// The ref a repository's branch is synced from.
pub fn branch_ref(branch: &str) -> (r: String)
    ensures
        r@ == "refs/heads/"@ + branch@,
{
    let mut r: String = String::from_str("refs/heads/");
    r.append(branch);
    r
}


/// An edit replaces exactly the fields it gives: a given name, URL or branch
/// becomes the entry's; a given deploy name becomes the entry's, or clears it
/// where it is empty; every field it does not give, and the id, times,
/// status and message, stay as they were.
pub proof fn lemma_edit_replaces_given_fields(e: RepoView, req: EditRepoRequest)
    ensures
        req.name is Some ==> edited(e, req).name == req.name->0@,
        req.name is None ==> edited(e, req).name == e.name,
        req.git_url is Some ==> edited(e, req).git_url == req.git_url->0@,
        req.git_url is None ==> edited(e, req).git_url == e.git_url,
        req.branch is Some ==> edited(e, req).branch == req.branch->0@,
        req.branch is None ==> edited(e, req).branch == e.branch,
        (req.deploy_name is Some && req.deploy_name->0@.len() > 0) ==> edited(e, req).deploy_name
            == Some(req.deploy_name->0@),
        (req.deploy_name is Some && req.deploy_name->0@.len() == 0) ==> edited(
            e,
            req,
        ).deploy_name is None,
        req.deploy_name is None ==> edited(e, req).deploy_name == e.deploy_name,
        edited(e, req).id == e.id && edited(e, req).added_at == e.added_at && edited(e, req).status
            == e.status && edited(e, req).last_message == e.last_message && edited(e, req).last_sync
            == e.last_sync && edited(e, req).last_build == e.last_build && edited(e, req).last_deploy
            == e.last_deploy,
{
}

/// A finished action on an entry: success sets the status to `idle`, the
/// message to the output and the time of that action (and no other) to `at`;
/// failure sets the status to `error` and the message to the error, leaving
/// every time as it was. The id, name, URL, branch and deploy name never change.
pub proof fn lemma_outcome_fields(e: RepoView, action: RepoAction, outcome: Result<Seq<char>, Seq<char>>, at: Seq<char>)
    ensures
        outcome is Ok ==> after_outcome(e, action, outcome, at).status == "idle"@
            && after_outcome(e, action, outcome, at).last_message == Some(outcome->Ok_0),
        outcome is Err ==> after_outcome(e, action, outcome, at).status == "error"@
            && after_outcome(e, action, outcome, at).last_message == Some(outcome->Err_0),
        after_outcome(e, action, outcome, at).last_sync == (if outcome is Ok && action
            == RepoAction::Sync {
            Some(at)
        } else {
            e.last_sync
        }),
        after_outcome(e, action, outcome, at).last_build == (if outcome is Ok && action
            == RepoAction::Build {
            Some(at)
        } else {
            e.last_build
        }),
        after_outcome(e, action, outcome, at).last_deploy == (if outcome is Ok && action
            == RepoAction::Deploy {
            Some(at)
        } else {
            e.last_deploy
        }),
        after_outcome(e, action, outcome, at).id == e.id && after_outcome(e, action, outcome, at).name
            == e.name && after_outcome(e, action, outcome, at).git_url == e.git_url && after_outcome(
            e,
            action,
            outcome,
            at,
        ).branch == e.branch && after_outcome(e, action, outcome, at).deploy_name == e.deploy_name
            && after_outcome(e, action, outcome, at).added_at == e.added_at,
{
}

/// Recording an outcome, setting a status or editing touches only the first
/// entry with the id: every other entry, and the number of entries, stay as
/// they were; where no entry has the id nothing changes.
pub proof fn lemma_updates_touch_one_entry(
    s: Seq<RepoView>,
    id: Seq<char>,
    action: RepoAction,
    outcome: Result<Seq<char>, Seq<char>>,
    at: Seq<char>,
    status: Seq<char>,
)
    ensures
        outcome_recorded(s, id, action, outcome, at).len() == s.len(),
        status_set(s, id, status).len() == s.len(),
        forall|j: int|
            0 <= j < s.len() && first_with_id(s, id) != Some(j) ==> #[trigger] outcome_recorded(
                s,
                id,
                action,
                outcome,
                at,
            )[j] == s[j] && status_set(s, id, status)[j] == s[j],
        first_with_id(s, id) matches Some(i) ==> s[i].id == id && status_set(s, id, status)[i]
            == (RepoView { status, ..s[i] }) && outcome_recorded(s, id, action, outcome, at)[i]
            == after_outcome(s[i], action, outcome, at),
        first_with_id(s, id) is None ==> (forall|j: int| 0 <= j < s.len() ==> #[trigger] s[j].id
            != id) && outcome_recorded(s, id, action, outcome, at) == s && status_set(s, id, status)
            == s,
        forall|j: int|
            0 <= j < s.len() && (#[trigger] s[j]).id == id ==> (first_with_id(s, id) is Some
                && first_with_id(s, id)->0 <= j),
    decreases s.len(),
{
    lemma_first_with_id_facts(s, id);
}

proof fn lemma_first_with_id_facts(s: Seq<RepoView>, id: Seq<char>)
    ensures
        first_with_id(s, id) matches Some(i) ==> 0 <= i < s.len() && s[i].id == id && forall|j: int|
            0 <= j < i ==> #[trigger] s[j].id != id,
        first_with_id(s, id) is None ==> forall|j: int| 0 <= j < s.len() ==> #[trigger] s[j].id != id,
    decreases s.len(),
{
    if s.len() > 0 && s[0].id != id {
        lemma_first_with_id_facts(s.drop_first(), id);
        assert forall|j: int| 1 <= j < s.len() implies s[j] == s.drop_first()[j - 1] by {}
    }
}

/// A new repository entry keeps the request's name, URL and deploy name, is
/// on the request's branch (`main` where none is given), starts `idle`, and
/// has never been synced, built or deployed.
pub proof fn lemma_new_entry_fields(req: AddRepoRequest, id: Seq<char>, added_at: Seq<char>)
    ensures
        new_repo_view(req, id, added_at).id == id,
        new_repo_view(req, id, added_at).added_at == added_at,
        new_repo_view(req, id, added_at).name == req.name@,
        new_repo_view(req, id, added_at).git_url == req.git_url@,
        req.branch is Some ==> new_repo_view(req, id, added_at).branch == req.branch->0@,
        req.branch is None ==> new_repo_view(req, id, added_at).branch == "main"@,
        new_repo_view(req, id, added_at).deploy_name == (match req.deploy_name {
            Some(d) => Some(d@),
            None => None,
        }),
        new_repo_view(req, id, added_at).status == "idle"@,
        new_repo_view(req, id, added_at).last_sync is None && new_repo_view(req, id, added_at).last_build
            is None && new_repo_view(req, id, added_at).last_deploy is None && new_repo_view(
            req,
            id,
            added_at,
        ).last_message is None,
{
}

/// What a non-administrator sees differs from the entry only in its message,
/// and only where the message mentions `SSH deploy`: it then reads
/// `Published successfully`.
pub proof fn lemma_masking_only_hides_ssh_reports(e: RepoView, role: Seq<char>)
    requires
        role != "admin"@,
    ensures
        visible_view(e, role) == (RepoView { last_message: visible_view(e, role).last_message, ..e }),
        (e.last_message is Some && contains_spec(e.last_message->0, "SSH deploy"@)) ==> visible_view(
            e,
            role,
        ).last_message == Some("Published successfully"@),
        (e.last_message is Some && !contains_spec(e.last_message->0, "SSH deploy"@)
            && !contains_spec(e.last_message->0, "SSH deployed"@)) ==> visible_view(e, role).last_message
            == e.last_message,
        e.last_message is None ==> visible_view(e, role).last_message is None,
{
}

/// Loading resets exactly the actions in progress: `syncing`, `building` and
/// `deploying` read `idle`; every other status, and every other field, stay.
pub proof fn lemma_reset_fields(e: RepoView)
    ensures
        (e.status == "syncing"@ || e.status == "building"@ || e.status == "deploying"@) ==> reset_view(e)
            == (RepoView { status: "idle"@, ..e }),
        !(e.status == "syncing"@ || e.status == "building"@ || e.status == "deploying"@) ==> reset_view(
            e,
        ) == e,
{
}

} // verus!
