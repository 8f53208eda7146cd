use vstd::prelude::*;

verus! {

/// One entry of a repository's top-level tree, as shown on the repository page.
#[derive(Debug)]
pub struct RepoFile {
    pub filename: String,
    pub size: usize,
    pub hash: String,
}

/// A row of the `accounts` table.
#[derive(Debug)]
pub struct Accounts {
    pub id: i64,
    pub name: String,
    pub password: String,
}

/// A row of the `repos` table.
#[derive(Debug)]
pub struct Repos {
    pub id: i64,
    pub name: String,
    pub owner: i64,
    pub owner_name: String,
}

/// A row of the `sessions` table.
#[derive(Debug)]
pub struct Sessions {
    pub id: i64,
    pub owner: i64,
    pub key: String,
}

} // verus!
