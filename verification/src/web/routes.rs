use vstd::prelude::*;

use crate::http::HttpStatus;
use crate::models::RepoFile;
use crate::routes::repos::SessionLookup;

verus! {

/// The owner name the repository creation form is filled with: the signed-in user's
/// name, `ghost` without a session, and an internal error when the session cannot be read.
pub fn create_page_owner(session: SessionLookup) -> (res: Result<String, HttpStatus>)
    ensures
        session is Failed ==> res == Err::<String, HttpStatus>(HttpStatus::InternalServerError),
        session matches SessionLookup::Found(account) ==> (res matches Ok(name) && name@
            == account.name@),
        session is NoSession ==> (res matches Ok(name) && name@ == "ghost"@),
{
    match session {
        SessionLookup::Found(account) => Ok(account.name),
        SessionLookup::NoSession => Ok(String::from_str("ghost")),
        SessionLookup::Failed => Err(HttpStatus::InternalServerError),
    }
}

/// The link of a repository, relative to the site: `<owner>/<name>`.
pub fn repo_link(owner_name: &str, name: &str) -> (res: String)
    ensures
        res@ == owner_name@ + "/"@ + name@,
{
    let mut res = String::from_str(owner_name);
    res.append("/");
    res.append(name);
    res
}

/// A tree entry as listed on the repository page; its size is the length of the blob's
/// content, or 0 when the entry is not a blob.
pub fn repo_file(filename: String, hash: String, blob_len: Option<usize>) -> (res: RepoFile)
    ensures
        res.filename == filename,
        res.hash == hash,
        res.size == match blob_len {
            Some(n) => n,
            None => 0,
        },
{
    let size = match blob_len {
        Some(n) => n,
        None => 0,
    };
    RepoFile { filename, size, hash }
}

} // verus!
