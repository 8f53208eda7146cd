use kidney_stones::http::HttpStatus;
use kidney_stones::models::Accounts;
use kidney_stones::routes::repos::{
    repo_init_path, resolve_repo_owner, CreateRepoData, RepoOwner, SessionLookup,
};
use kidney_stones::web::routes::{create_page_owner, repo_file, repo_link};

fn data(private: bool, ttl: Option<i64>) -> CreateRepoData {
    CreateRepoData { name: "r.git".to_string(), owner: None, ttl, private }
}

fn account() -> Accounts {
    Accounts { id: 7, name: "ibx34".to_string(), password: "$argon2id$...".to_string() }
}

#[test]
fn signed_in_user_owns_repo() {
    let r = resolve_repo_owner(SessionLookup::Found(account()), &data(true, None), 100);
    assert_eq!(r, Ok(RepoOwner::Account { name: "ibx34".to_string(), id: 7 }));
    assert_eq!(r.unwrap().name(), "ibx34");
}

#[test]
fn failed_session_is_internal_error() {
    let r = resolve_repo_owner(SessionLookup::Failed, &data(false, Some(200)), 100);
    assert_eq!(r, Err(HttpStatus::InternalServerError));
}

#[test]
fn anonymous_public_repo_with_future_ttl() {
    let r = resolve_repo_owner(SessionLookup::NoSession, &data(false, Some(200)), 100);
    assert_eq!(r, Ok(RepoOwner::Anonymous));
    assert_eq!(RepoOwner::Anonymous.name(), "ghost");
}

#[test]
fn anonymous_ttl_equal_to_now_is_allowed() {
    let r = resolve_repo_owner(SessionLookup::NoSession, &data(false, Some(100)), 100);
    assert_eq!(r, Ok(RepoOwner::Anonymous));
}

#[test]
fn anonymous_private_repo_forbidden() {
    let r = resolve_repo_owner(SessionLookup::NoSession, &data(true, Some(200)), 100);
    assert_eq!(r, Err(HttpStatus::Forbidden));
}

#[test]
fn anonymous_without_ttl_forbidden() {
    let r = resolve_repo_owner(SessionLookup::NoSession, &data(false, None), 100);
    assert_eq!(r, Err(HttpStatus::Forbidden));
}

#[test]
fn anonymous_expired_ttl_forbidden() {
    let r = resolve_repo_owner(SessionLookup::NoSession, &data(false, Some(99)), 100);
    assert_eq!(r, Err(HttpStatus::Forbidden));
}

#[test]
fn init_path() {
    assert_eq!(repo_init_path("ghost", "r"), "./tests/ghost/r");
    assert_eq!(repo_init_path(&RepoOwner::Anonymous.name(), "r"), "./tests/ghost/r");
}

#[test]
fn create_page_owner_names() {
    assert_eq!(create_page_owner(SessionLookup::Found(account())), Ok("ibx34".to_string()));
    assert_eq!(create_page_owner(SessionLookup::NoSession), Ok("ghost".to_string()));
    assert_eq!(create_page_owner(SessionLookup::Failed), Err(HttpStatus::InternalServerError));
}

#[test]
fn link_and_files() {
    assert_eq!(repo_link("ibx34", "why-no-work"), "ibx34/why-no-work");
    let f = repo_file("README.md".to_string(), "abc123".to_string(), Some(12));
    assert_eq!((f.filename.as_str(), f.hash.as_str(), f.size), ("README.md", "abc123", 12));
    let d = repo_file("src".to_string(), "def456".to_string(), None);
    assert_eq!(d.size, 0);
}
