//! The repository record that the GitHub API returns and the rest of the
//! library works on.

use vstd::prelude::*;

verus! {

/// One repository of the organisation, with the fields the tool reads.
#[derive(Debug)]
pub struct Repo {
    pub name: String,
    pub default_branch: String,
    pub html_url: String,
    pub description: Option<String>,
    pub language: Option<String>,
    pub updated_at: String,
}

} // verus!
