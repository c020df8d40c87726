//! The context pages the drawer can show.

use vstd::prelude::*;
use vstd::string::*;

verus! {

/// Which context page is selected for the drawer. `NoPage` is the
/// starting state, before any context page was requested.
#[derive(Copy, Clone, Debug, PartialEq, Eq, Structural)]
pub enum Context {
    NoPage,
    About,
}

impl Default for Context {
    /// No context page is selected at first.
    fn default() -> (c: Context)
        ensures
            c == Context::NoPage,
    {
        Context::NoPage
    }
}

/// The about context page: the application's icon, title, repository
/// link, and build commit hash.
#[derive(Debug, Default)]
pub struct About;

/// The leading part of a commit hash shown on the about page: at most
/// seven characters.
pub open spec fn spec_short_hash(hash: Seq<char>) -> Seq<char> {
    if hash.len() < 7 {
        hash
    } else {
        hash.take(7)
    }
}

impl About {
    /// The abbreviation of the build commit hash shown on the page.
    pub fn short_hash(&self, hash: &str) -> (s: String)
        ensures
            s@ == spec_short_hash(hash@),
    {
        let len = hash.unicode_len();
        let end = if len < 7 {
            len
        } else {
            7
        };
        let prefix = hash.substring_char(0, end);
        assert(hash@.subrange(0, end as int) =~= spec_short_hash(hash@));
        prefix.to_owned()
    }

    /// The URL of the commit listing the page links to, under the
    /// repository.
    pub fn commit_url(&self, repository: &str, hash: &str) -> (s: String)
        ensures
            s@ == repository@ + "/commits/"@ + hash@,
    {
        repository.to_owned().concat("/commits/").concat(hash)
    }
}

} // verus!
