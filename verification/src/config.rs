use vstd::prelude::*;

verus! {

/// Server settings, read from `Config.toml`.
#[derive(Debug, Clone)]
pub struct Config {
    pub database_uri: String,
    pub anonymous_repos_user: i64,
}

} // verus!
