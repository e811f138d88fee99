//! Logins, session tokens and their one-day lifetime.
use vstd::prelude::*;

use crate::clock::{now_timestamp, Timestamp};
use crate::config::{ResolvedAdminConfig, ResolvedUserConfig};
use crate::crypto::{generate_token, hex_spec};
use crate::status::HttpStatus;
use crate::text::text_eq;

verus! {

/// A login attempt.
pub struct LoginRequest {
    pub username: String,
    pub password: String,
}

/// A successful login: the session token and the role it carries.
pub struct LoginResponse {
    pub token: String,
    pub role: String,
}

/// A session: the role it was opened with and when.
pub struct SessionInfo {
    pub role: String,
    pub created_at: Timestamp,
}

/// What the library knows of a session: its role and when it was opened.
pub type SessionView = (Seq<char>, Timestamp);

/// The accounts that may log in, and the sessions opened so far. The
/// sessions are kept as a list of (token, session) pairs in which no token
/// occurs twice, so that lookups by a string token are proved over the list.
pub struct AuthState {
    admin: ResolvedAdminConfig,
    user: Option<ResolvedUserConfig>,
    sessions: Vec<(String, SessionInfo)>,
}

/// The sessions held in `s`, by token; a later entry for a token wins.
pub open spec fn sessions_map(s: Seq<(String, SessionInfo)>) -> Map<Seq<char>, SessionView>
    decreases s.len(),
{
    if s.len() == 0 {
        Map::empty()
    } else {
        sessions_map(s.drop_last()).insert(s.last().0@, (s.last().1.role@, s.last().1.created_at))
    }
}

/// No token occurs twice in `s`.
pub open spec fn tokens_distinct(s: Seq<(String, SessionInfo)>) -> bool {
    forall|i: int, j: int| 0 <= i < s.len() && 0 <= j < s.len() && i != j ==> #[trigger] s[i].0@
        != #[trigger] s[j].0@
}

proof fn lemma_map_lookup(s: Seq<(String, SessionInfo)>, i: int)
    requires
        tokens_distinct(s),
        0 <= i < s.len(),
    ensures
        sessions_map(s).contains_key(s[i].0@),
        sessions_map(s)[s[i].0@] == (s[i].1.role@, s[i].1.created_at),
    decreases s.len(),
{
    if i < s.len() - 1 {
        assert(s.drop_last()[i] == s[i]);
        lemma_map_lookup(s.drop_last(), i);
        assert(s.last().0@ != s[i].0@);
    }
}

proof fn lemma_map_absent(s: Seq<(String, SessionInfo)>, k: Seq<char>)
    requires
        forall|i: int| 0 <= i < s.len() ==> #[trigger] s[i].0@ != k,
    ensures
        !sessions_map(s).contains_key(k),
    decreases s.len(),
{
    if s.len() > 0 {
        assert forall|i: int| 0 <= i < s.drop_last().len() implies #[trigger] s.drop_last()[i].0@
            != k by {
            assert(s.drop_last()[i] == s[i]);
        }
        lemma_map_absent(s.drop_last(), k);
    }
}

proof fn lemma_map_update(s: Seq<(String, SessionInfo)>, i: int, e: (String, SessionInfo))
    requires
        tokens_distinct(s),
        0 <= i < s.len(),
        e.0@ == s[i].0@,
    ensures
        sessions_map(s.update(i, e)) == sessions_map(s).insert(e.0@, (e.1.role@, e.1.created_at)),
    decreases s.len(),
{
    let t = s.update(i, e);
    if i == s.len() - 1 {
        assert(t.drop_last() =~= s.drop_last());
        lemma_map_absent(s.drop_last(), e.0@);
        assert forall|k: Seq<char>| #![auto] sessions_map(t).contains_key(k) == sessions_map(s).insert(e.0@, (e.1.role@, e.1.created_at)).contains_key(k) by {}
        assert(sessions_map(t) =~= sessions_map(s).insert(e.0@, (e.1.role@, e.1.created_at)));
    } else {
        assert(t.drop_last() =~= s.drop_last().update(i, e));
        assert(s.drop_last()[i] == s[i]);
        assert(tokens_distinct(s.drop_last()));
        lemma_map_update(s.drop_last(), i, e);
        assert(s.last().0@ != s[i].0@);
        assert(sessions_map(t) =~= sessions_map(s).insert(e.0@, (e.1.role@, e.1.created_at)));
    }
}

/// A session opened at `created` is still honoured at `now`: less than a day
/// (86,400 seconds) has passed, counting to the nanosecond; a session from the
/// future is honoured too.
pub open spec fn within_day(created: Timestamp, now: Timestamp) -> bool {
    (now.secs - created.secs) * 1_000_000_000 + (now.nanos - created.nanos) < 86_400_000_000_000
}

/// The role a token carries at `now`: the role of its session, where there is
/// one and it is less than a day old.
pub open spec fn role_at_spec(sessions: Map<Seq<char>, SessionView>, token: Seq<char>, now: Timestamp) -> Option<
    Seq<char>,
> {
    if sessions.contains_key(token) && within_day(sessions[token].1, now) {
        Some(sessions[token].0)
    } else {
        None
    }
}

/// The role that a user name and password log in with: `admin` for the
/// administrator's credentials, else `user` for the second account's, else none.
pub open spec fn credentials_role(
    admin: (Seq<char>, Seq<char>),
    user: Option<(Seq<char>, Seq<char>)>,
    username: Seq<char>,
    password: Seq<char>,
) -> Option<Seq<char>> {
    if username == admin.0 && password == admin.1 {
        Some("admin"@)
    } else {
        match user {
            Some(u) => if username == u.0 && password == u.1 {
                Some("user"@)
            } else {
                None
            },
            None => None,
        }
    }
}

fn within_day_exec(created: Timestamp, now: Timestamp) -> (r: bool)
    ensures
        r == within_day(created, now),
{
    let ds: i128 = now.secs as i128 - created.secs as i128;
    assert(-0x1_0000_0000_0000_0000 <= ds <= 0x1_0000_0000_0000_0000);
    assert(-0x1_0000_0000_0000_0000 * 1_000_000_000 <= ds * 1_000_000_000 <= 0x1_0000_0000_0000_0000
        * 1_000_000_000) by (nonlinear_arith)
        requires
            -0x1_0000_0000_0000_0000 <= ds <= 0x1_0000_0000_0000_0000,
    ;
    let elapsed: i128 = ds * 1_000_000_000 + (now.nanos as i128 - created.nanos as i128);
    elapsed < 86_400_000_000_000
}

impl AuthState {
    #[verifier::type_invariant]
    spec fn distinct(self) -> bool {
        tokens_distinct(self.sessions@)
    }

    /// The open sessions, by token.
    pub closed spec fn sessions(self) -> Map<Seq<char>, SessionView> {
        sessions_map(self.sessions@)
    }

    /// The administrator's user name and password.
    pub closed spec fn admin_credentials(self) -> (Seq<char>, Seq<char>) {
        (self.admin.username@, self.admin.password@)
    }

    /// The second account's user name and password, where there is one.
    pub closed spec fn user_credentials(self) -> Option<(Seq<char>, Seq<char>)> {
        match self.user {
            Some(u) => Some((u.username@, u.password@)),
            None => None,
        }
    }

    /// Accounts as configured, with no sessions.
    pub fn new(admin: ResolvedAdminConfig, user: Option<ResolvedUserConfig>) -> (r: Self)
        ensures
            r.admin_credentials() == (admin.username@, admin.password@),
            r.user_credentials() == (match user {
                Some(u) => Some((u.username@, u.password@)),
                None => None,
            }),
            r.sessions() == Map::<Seq<char>, SessionView>::empty(),
    {
        AuthState { admin, user, sessions: Vec::new() }
    }

    /// The role that these credentials log in with.
    pub fn credentials_role(&self, username: &str, password: &str) -> (r: Option<&'static str>)
        ensures
            r matches Some(x) ==> credentials_role(
                self.admin_credentials(),
                self.user_credentials(),
                username@,
                password@,
            ) == Some(x@),
            r is None ==> credentials_role(
                self.admin_credentials(),
                self.user_credentials(),
                username@,
                password@,
            ) is None,
    {
        if text_eq(username, self.admin.username.as_str()) && text_eq(
            password,
            self.admin.password.as_str(),
        ) {
            return Some("admin");
        }
        match &self.user {
            Some(u) => if text_eq(username, u.username.as_str()) && text_eq(
                password,
                u.password.as_str(),
            ) {
                Some("user")
            } else {
                None
            },
            None => None,
        }
    }

    fn position(&self, token: &str) -> (r: Option<usize>)
        ensures
            r matches Some(i) ==> i < self.sessions@.len() && self.sessions@[i as int].0@ == token@,
            r is None ==> forall|i: int| 0 <= i < self.sessions@.len() ==> #[trigger] self.sessions@[i].0@
                != token@,
    {
        let n: usize = self.sessions.len();
        let mut i: usize = 0;
        while i < n
            invariant
                n == self.sessions@.len(),
                i <= n,
                forall|j: int| 0 <= j < i ==> #[trigger] self.sessions@[j].0@ != token@,
            decreases n - i,
        {
            if text_eq(self.sessions[i].0.as_str(), token) {
                return Some(i);
            }
            i += 1;
        }
        None
    }

    /// Opens (or replaces) the session of `token`.
    pub fn insert_session(&mut self, token: String, role: String, created_at: Timestamp)
        ensures
            final(self).sessions() == old(self).sessions().insert(token@, (role@, created_at)),
            final(self).admin_credentials() == old(self).admin_credentials(),
            final(self).user_credentials() == old(self).user_credentials(),
    {
        proof {
            use_type_invariant(&*self);
        }
        let entry: (String, SessionInfo) = (token, SessionInfo { role, created_at });
        let found: Option<usize> = self.position(entry.0.as_str());
        let mut v: Vec<(String, SessionInfo)> = Vec::new();
        std::mem::swap(&mut v, &mut self.sessions);
        let ghost before = v@;
        match found {
            Some(i) => {
                proof {
                    lemma_map_update(before, i as int, entry);
                }
                v.set(i, entry);
                proof {
                    assert(v@ == before.update(i as int, entry));
                    assert(tokens_distinct(v@));
                }
            },
            None => {
                proof {
                    lemma_map_absent(before, entry.0@);
                }
                v.push(entry);
                proof {
                    assert(v@.drop_last() =~= before);
                    assert(tokens_distinct(v@));
                }
            },
        }
        self.sessions = v;
    }

    /// The role that `token` carries at `now`.
    pub fn role_at(&self, token: &str, now: Timestamp) -> (r: Option<String>)
        ensures
            r matches Some(x) ==> role_at_spec(self.sessions(), token@, now) == Some(x@),
            r is None ==> role_at_spec(self.sessions(), token@, now) is None,
    {
        proof {
            use_type_invariant(self);
        }
        match self.position(token) {
            Some(i) => {
                proof {
                    lemma_map_lookup(self.sessions@, i as int);
                }
                if within_day_exec(self.sessions[i].1.created_at, now) {
                    Some(self.sessions[i].1.role.clone())
                } else {
                    None
                }
            },
            None => {
                proof {
                    lemma_map_absent(self.sessions@, token@);
                }
                None
            },
        }
    }

    /// The role that `token` carries now.
    pub fn validate_token_role(&self, token: &str) -> (r: Option<String>)
        ensures
            exists|now: Timestamp| ({
                &&& r matches Some(x) ==> role_at_spec(self.sessions(), token@, now) == Some(x@)
                &&& r is None ==> role_at_spec(self.sessions(), token@, now) is None
            }),
    {
        let now: Timestamp = now_timestamp();
        self.role_at(token, now)
    }

    /// Logs in: where the credentials are the administrator's or the second
    /// account's, opens a session under a fresh token with that role;
    /// otherwise answers 401 and changes nothing.
    pub fn login(&mut self, req: &LoginRequest) -> (r: Result<LoginResponse, HttpStatus>)
        ensures
            final(self).admin_credentials() == old(self).admin_credentials(),
            final(self).user_credentials() == old(self).user_credentials(),
            credentials_role(
                old(self).admin_credentials(),
                old(self).user_credentials(),
                req.username@,
                req.password@,
            ) is None ==> r == Err::<LoginResponse, HttpStatus>(HttpStatus::Unauthorized)
                && final(self).sessions() == old(self).sessions(),
            credentials_role(
                old(self).admin_credentials(),
                old(self).user_credentials(),
                req.username@,
                req.password@,
            ) matches Some(role) ==> r matches Ok(resp) && resp.role@ == role && resp.token@.len()
                == 64 && (exists|b: Seq<u8>| b.len() == 32 && resp.token@ == hex_spec(b))
                && exists|created: Timestamp| final(self).sessions() == old(self).sessions().insert(
                resp.token@,
                (role, created),
            ),
    {
        let role: &str = match self.credentials_role(req.username.as_str(), req.password.as_str()) {
            Some(r) => r,
            None => return Err(HttpStatus::Unauthorized),
        };
        let token: String = generate_token();
        let created_at: Timestamp = now_timestamp();
        self.insert_session(token.clone(), String::from_str(role), created_at);
        assert(self.sessions() == old(self).sessions().insert(token@, (role@, created_at)));
        Ok(LoginResponse { token, role: String::from_str(role) })
    }
}

/// A session is honoured exactly while it is less than a day old: right after
/// a token's session is opened at `created`, the token carries its role at
/// `now` if and only if less than a day separates the two.
pub proof fn lemma_session_lifetime(
    sessions: Map<Seq<char>, SessionView>,
    token: Seq<char>,
    role: Seq<char>,
    created: Timestamp,
    now: Timestamp,
)
    ensures
        role_at_spec(sessions.insert(token, (role, created)), token, now) == (if within_day(
            created,
            now,
        ) {
            Some(role)
        } else {
            None
        }),
{
}

/// Opening a session leaves every other token's role as it was.
pub proof fn lemma_other_sessions_unchanged(
    sessions: Map<Seq<char>, SessionView>,
    token: Seq<char>,
    role: Seq<char>,
    created: Timestamp,
    other: Seq<char>,
    now: Timestamp,
)
    requires
        other != token,
    ensures
        role_at_spec(sessions.insert(token, (role, created)), other, now) == role_at_spec(
            sessions,
            other,
            now,
        ),
{
}


/// The administrator's user name and password log in as `admin` (even where
/// they are also the second account's); otherwise the second account's log
/// in as `user`; any other pair logs in as nothing.
pub proof fn lemma_login_roles(
    admin: (Seq<char>, Seq<char>),
    user: Option<(Seq<char>, Seq<char>)>,
    username: Seq<char>,
    password: Seq<char>,
)
    ensures
        (username == admin.0 && password == admin.1) ==> credentials_role(
            admin,
            user,
            username,
            password,
        ) == Some("admin"@),
        (!(username == admin.0 && password == admin.1) && user is Some && username == (user->0).0
            && password == (user->0).1) ==> credentials_role(admin, user, username, password) == Some(
            "user"@,
        ),
        (!(username == admin.0 && password == admin.1) && !(user is Some && username == (user->0).0
            && password == (user->0).1)) ==> credentials_role(admin, user, username, password) is None,
{
}

/// A session lasts one day: a session is honoured at the instant it was
/// opened and for any later time less than 86,400 seconds on (counting the
/// nanoseconds), and no longer from 86,400 seconds on.
pub proof fn lemma_day_bounds(created: Timestamp, now: Timestamp)
    requires
        created.nanos < 1_000_000_000,
        now.nanos < 1_000_000_000,
    ensures
        now == created ==> within_day(created, now),
        (created.secs <= now.secs && now.secs - created.secs < 86_400 && now.nanos
            <= created.nanos) ==> within_day(created, now),
        (now.secs - created.secs == 86_399) ==> within_day(created, now),
        (now.secs - created.secs >= 86_400 && now.nanos >= created.nanos) ==> !within_day(
            created,
            now,
        ),
        (now.secs - created.secs >= 86_401) ==> !within_day(created, now),
{
}

} // verus!
