use vstd::prelude::*;

use crate::path::{join, join_path};

verus! {

/// Where the client keeps its configuration, under the home directory on
/// Unix-like systems.
pub open spec fn unix_config_suffix() -> Seq<char> {
    ".dropbox/info.json"@
}

/// Where the client keeps its configuration, under the roaming or the local
/// application data directory on Windows.
pub open spec fn windows_config_suffix() -> Seq<char> {
    "Dropbox/info.json"@
}

/// The configuration file to look for on a Unix-like system: none where the
/// home directory is unknown.
pub fn unix_config_candidates(home: Option<&str>) -> (r: Vec<String>)
    ensures
        home is None ==> r@.len() == 0,
        home is Some ==> r@.len() == 1 && r@[0]@ == join_path(home->0@, unix_config_suffix()),
{
    let mut r: Vec<String> = Vec::new();
    if let Some(h) = home {
        r.push(join(h, ".dropbox/info.json"));
    }
    r
}

/// The configuration files to look for on Windows, in order of preference:
/// the roaming one first, then the local one.
pub fn windows_config_candidates(appdata: &str, localappdata: &str) -> (r: Vec<String>)
    ensures
        r@.len() == 2,
        r@[0]@ == join_path(appdata@, windows_config_suffix()),
        r@[1]@ == join_path(localappdata@, windows_config_suffix()),
{
    let mut r: Vec<String> = Vec::new();
    r.push(join(appdata, "Dropbox/info.json"));
    r.push(join(localappdata, "Dropbox/info.json"));
    r
}

/// `i` is the first index at which `is_file` holds.
pub open spec fn first_existing(is_file: Seq<bool>, i: int) -> bool {
    &&& 0 <= i < is_file.len()
    &&& is_file[i]
    &&& forall|j: int| 0 <= j < i ==> !is_file[j]
}

/// Picks the first of the candidate configuration files that exists as a
/// regular file (`is_file[i]` says whether `candidates[i]` does); none if
/// none does.
pub fn pick_config_path(candidates: &Vec<String>, is_file: &Vec<bool>) -> (r: Option<String>)
    requires
        candidates@.len() == is_file@.len(),
    ensures
        r is None <==> (forall|j: int| 0 <= j < is_file@.len() ==> !is_file@[j]),
        r is Some ==> exists|i: int|
            first_existing(is_file@, i) && r->0@ == candidates@[i]@,
{
    let mut i: usize = 0;
    while i < candidates.len()
        invariant
            candidates@.len() == is_file@.len(),
            i <= candidates@.len(),
            forall|j: int| 0 <= j < i ==> !is_file@[j],
        decreases candidates@.len() - i,
    {
        if is_file[i] {
            let r = candidates[i].clone();
            assert(first_existing(is_file@, i as int));
            return Some(r);
        }
        i = i + 1;
    }
    None
}

} // verus!
