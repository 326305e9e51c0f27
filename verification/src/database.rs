//! What the tool makes of query results, and the patterns it queries with.

use vstd::prelude::*;

use crate::models::{Language, MasterUser, ProjectWithLanguageName};
use crate::text::str_eq;

verus! {

/// Which stored secrets to fetch.
#[derive(Debug)]
pub enum CryptoFilterType {
    Host(String),
    Id(i32),
    All,
}

/// Whether the list of languages still lacks the `none` language, so that
/// the language seeds must run.
pub fn needs_language_seed(langs: &Vec<Language>) -> (r: bool)
    ensures
        r == !(exists|i: int| 0 <= i < langs@.len() && #[trigger] langs@[i].name@ == "none"@),
{
    let mut i: usize = 0;
    while i < langs.len()
        invariant
            i <= langs@.len(),
            forall|k: int| 0 <= k < i ==> #[trigger] langs@[k].name@ != "none"@,
        decreases langs.len() - i,
    {
        if str_eq(langs[i].name.as_str(), "none") {
            return false;
        }
        i = i + 1;
    }
    true
}

/// The master user among the stored ones: none where none is stored.
pub fn fetch_master_user(users: Vec<MasterUser>) -> (r: Option<MasterUser>)
    requires
        users@.len() <= 1,
    ensures
        users@.len() == 0 ==> r is None,
        users@.len() == 1 ==> r == Some(users@[0]),
{
    let mut users = users;
    users.pop()
}

/// The language found by name, or the `none` language (id 1) where there is
/// none; of several, the last.
pub fn get_language_by_name(found: Vec<Language>) -> (r: Language)
    ensures
        found@.len() > 0 ==> r == found@.last(),
        found@.len() == 0 ==> r.id == 1 && r.name@ == "none"@,
{
    let mut found = found;
    match found.pop() {
        Some(l) => l,
        None => Language { id: 1, name: "none".to_string() },
    }
}

/// The project found by name or path; of several, the last.
pub fn fetch_single_project(found: Vec<ProjectWithLanguageName>) -> (r: ProjectWithLanguageName)
    requires
        found@.len() > 0,
    ensures
        r == found@.last(),
{
    let mut found = found;
    found.pop().unwrap()
}

/// Whether a search term asks for everything.
pub open spec fn is_all_term(term: Seq<char>) -> bool {
    term == "all"@ || term == "a"@
}

/// The `LIKE` pattern a name search uses: none for `all` or `a`, otherwise
/// the term anywhere in the name.
pub fn name_pattern(searchterm: &str) -> (r: Option<String>)
    ensures
        match r {
            Some(p) => !is_all_term(searchterm@) && p@ == "%"@ + searchterm@ + "%"@,
            None => is_all_term(searchterm@),
        },
{
    if str_eq(searchterm, "all") || str_eq(searchterm, "a") {
        None
    } else {
        let mut p = "%".to_string();
        p.append(searchterm);
        p.append("%");
        Some(p)
    }
}

/// The `LIKE` pattern of a host search: hosts that start with the term.
pub fn host_pattern(host: &str) -> (r: String)
    ensures
        r@ == host@ + "%"@,
{
    let mut p = host.to_string();
    p.append("%");
    p
}

} // verus!
