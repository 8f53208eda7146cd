use vstd::prelude::*;

use crate::http::HttpStatus;
use crate::models::Accounts;

verus! {

/// The body of a repository creation request.
#[derive(Debug)]
pub struct CreateRepoData {
    pub name: String,
    /// Not used to choose the owner: a signed-in user owns what they create, and
    /// repositories made without a session are put under `ghost`, with the id of the
    /// configured anonymous account.
    pub owner: Option<String>,
    /// Expiry of an anonymous repository, in seconds since the UNIX epoch.
    pub ttl: Option<i64>,
    pub private: bool,
}

/// What looking up the `session` cookie of a request gave.
#[derive(Debug)]
pub enum SessionLookup {
    /// The request carries no `session` cookie.
    NoSession,
    /// The cookie names a session; this is the account that owns it.
    Found(Accounts),
    /// The cookie is there but the session or its account could not be read.
    Failed,
}

/// Whether a request without a session may create a repository: only a public one
/// with an expiry that is not in the past.
pub open spec fn anonymous_creation_allowed(data: CreateRepoData, now: i64) -> bool {
    !data.private && (data.ttl matches Some(ttl) && ttl >= now)
}

/// Who a new repository belongs to.
#[derive(Debug, PartialEq, Eq)]
pub enum RepoOwner {
    /// The signed-in account with this name and id.
    Account { name: String, id: i64 },
    /// Nobody signed in: the repository is stored under the name `ghost`, with the id of
    /// the anonymous account that the server's configuration gives.
    Anonymous,
}

/// The name under which an owner's repositories are stored.
pub open spec fn owner_name_of(owner: RepoOwner) -> Seq<char> {
    match owner {
        RepoOwner::Account { name, .. } => name@,
        RepoOwner::Anonymous => "ghost"@,
    }
}

impl RepoOwner {
    /// The name under which the owner's repositories are stored (`ghost` when nobody
    /// signed in).
    pub fn name(&self) -> (res: String)
        ensures
            res@ == owner_name_of(*self),
            self matches RepoOwner::Account { name, .. } ==> res@ == name@,
            self is Anonymous ==> res@ == "ghost"@,
    {
        match self {
            RepoOwner::Account { name, .. } => name.clone(),
            RepoOwner::Anonymous => String::from_str("ghost"),
        }
    }
}

/// Decides who owns a repository that a request asks to create.
/// A signed-in user owns it; a failed session lookup is an internal error; without a
/// session only public repositories whose expiry is not in the past are allowed, and
/// they are put under `ghost` (see `RepoOwner::Anonymous`).
pub fn resolve_repo_owner(session: SessionLookup, data: &CreateRepoData, now: i64) -> (res: Result<
    RepoOwner,
    HttpStatus,
>)
    ensures
        session is Failed ==> res == Err::<RepoOwner, HttpStatus>(HttpStatus::InternalServerError),
        session matches SessionLookup::Found(account) ==> res == Ok::<RepoOwner, HttpStatus>(
            RepoOwner::Account { name: account.name, id: account.id },
        ),
        session is NoSession && anonymous_creation_allowed(*data, now) ==> res == Ok::<
            RepoOwner,
            HttpStatus,
        >(RepoOwner::Anonymous),
        session is NoSession && !anonymous_creation_allowed(*data, now) ==> res == Err::<
            RepoOwner,
            HttpStatus,
        >(HttpStatus::Forbidden),
        session is NoSession && !data.private && (data.ttl matches Some(t) && t >= now) ==> res
            == Ok::<RepoOwner, HttpStatus>(RepoOwner::Anonymous),
        session is NoSession && (data.private || data.ttl is None || (data.ttl matches Some(t) && t
            < now)) ==> res == Err::<RepoOwner, HttpStatus>(HttpStatus::Forbidden),
{
    match session {
        SessionLookup::Found(account) => Ok(RepoOwner::Account { name: account.name, id: account.id }),
        SessionLookup::Failed => Err(HttpStatus::InternalServerError),
        SessionLookup::NoSession => {
            if data.private || data.ttl.is_none() {
                return Err(HttpStatus::Forbidden);
            }
            let ttl = data.ttl.unwrap();
            if ttl < now {
                return Err(HttpStatus::Forbidden);
            }
            Ok(RepoOwner::Anonymous)
        },
    }
}

/// Without a session, creation is allowed exactly for a public repository that has an
/// expiry which is not before `now`.
pub proof fn lemma_anonymous_creation_rule(data: CreateRepoData, now: i64)
    ensures
        anonymous_creation_allowed(data, now) <==> (!data.private && data.ttl is Some
            && data.ttl->0 >= now),
{
}

/// Whether a repository may be created without a session depends on `private` and `ttl`
/// alone: the name and the owner field the client sends change nothing.
pub proof fn lemma_anonymous_creation_ignores_owner_and_name(
    d1: CreateRepoData,
    d2: CreateRepoData,
    now: i64,
)
    requires
        d1.private == d2.private,
        d1.ttl == d2.ttl,
    ensures
        anonymous_creation_allowed(d1, now) == anonymous_creation_allowed(d2, now),
        anonymous_creation_allowed(d1, now) <==> (!d1.private && d1.ttl is Some && d1.ttl->0
            >= now),
{
}

/// A signed-in owner's repositories are stored under the account's name, unchanged;
/// without a session they go under `ghost`.
pub proof fn lemma_owner_name(name: String, id: i64)
    ensures
        owner_name_of(RepoOwner::Account { name, id }) == name@,
        owner_name_of(RepoOwner::Anonymous) == "ghost"@,
{
}

/// Where a newly created bare repository is put: `./tests/<owner>/<name>`.
pub fn repo_init_path(owner_name: &str, repo_name: &str) -> (res: String)
    ensures
        res@ == "./tests/"@ + owner_name@ + "/"@ + repo_name@,
{
    let mut res = String::from_str("./tests/");
    res.append(owner_name);
    res.append("/");
    res.append(repo_name);
    res
}

} // verus!
