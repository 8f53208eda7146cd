use vstd::prelude::*;

verus! {

/// Data of the home page.
#[derive(Debug)]
pub struct Home {
    pub name: String,
}

/// Values the repository creation form is filled with.
#[derive(Debug)]
pub struct ReposCreateDefaults<T: Into<String>> {
    pub owner: T,
}

/// Data of the repository creation page.
#[derive(Debug)]
pub struct ReposCreate<T: Into<String>> {
    pub defaults: ReposCreateDefaults<T>,
    pub user_is_logged_in: bool,
}

/// Data shared by every page, around the page's own data.
#[derive(Debug)]
pub struct Base<T> {
    pub signups_allowed: bool,
    pub nested: T,
}

} // verus!
