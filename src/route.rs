use vstd::prelude::*;

use crate::filename::{chars_of, occurs_at, occurs_at_exec};

verus! {

/// Extension of a recorded match.
pub const DEM_EXT: &'static str = ".dem";

/// Extension of a compressed container.
pub const ZIP_EXT: &'static str = ".zip";

/// Subdirectory that receives the files that were imported.
pub const COMPLETED_DIR: &'static str = "_completed";

/// Subdirectory that receives the files that were not.
pub const SKIPPED_DIR: &'static str = "_skipped";

/// `s` ends with `t`.
pub open spec fn ends_with(s: Seq<char>, t: Seq<char>) -> bool {
    t.len() <= s.len() && s.subrange(s.len() - t.len(), s.len() as int) == t
}

/// `s` without the suffix `t`, or `s` itself when it does not end with `t`.
pub open spec fn strip_suffix(s: Seq<char>, t: Seq<char>) -> Seq<char> {
    if ends_with(s, t) {
        s.subrange(0, s.len() - t.len())
    } else {
        s
    }
}

/// Name under which an imported file is filed: one `.dem` suffix in place
/// of any `.zip` and `.dem` suffixes.
pub open spec fn completed_name_of(s: Seq<char>) -> Seq<char> {
    strip_suffix(strip_suffix(s, ZIP_EXT@), DEM_EXT@) + DEM_EXT@
}

/// Name under which a skipped file is filed: the `.zip` suffix dropped.
pub open spec fn skipped_name_of(s: Seq<char>) -> Seq<char> {
    strip_suffix(s, ZIP_EXT@)
}

/// Whether `s` ends with `t`.
pub fn ends_with_exec(s: &str, t: &str) -> (r: bool)
    ensures
        r == ends_with(s@, t@),
{
    let sv = chars_of(s);
    let tv = chars_of(t);
    if tv.len() > sv.len() {
        return false;
    }
    let r = occurs_at_exec(&sv, &tv, sv.len() - tv.len());
    assert(occurs_at(sv@, tv@, sv@.len() - tv@.len()) == ends_with(s@, t@));
    r
}

/// `s` without the suffix `t`, if it has it.
pub fn strip_suffix_exec(s: &str, t: &str) -> (r: String)
    ensures
        r@ == strip_suffix(s@, t@),
{
    if ends_with_exec(s, t) {
        let n = s.unicode_len();
        let m = t.unicode_len();
        String::from_str(s.substring_char(0, n - m))
    } else {
        String::from_str(s)
    }
}

/// Whether `name` is a compressed container to extract first.
pub fn is_archive(name: &str) -> (r: bool)
    ensures
        r == ends_with(name@, ZIP_EXT@),
{
    ends_with_exec(name, ZIP_EXT)
}

/// The name under which an imported file is found and filed.
pub fn completed_name(name: &str) -> (r: String)
    ensures
        r@ == completed_name_of(name@),
{
    let a = strip_suffix_exec(name, ZIP_EXT);
    let mut b = strip_suffix_exec(a.as_str(), DEM_EXT);
    b.append(DEM_EXT);
    b
}

/// The name under which a skipped file is found and filed.
pub fn skipped_name(name: &str) -> (r: String)
    ensures
        r@ == skipped_name_of(name@),
{
    strip_suffix_exec(name, ZIP_EXT)
}

/// Where a processed file goes.
#[derive(Debug, Clone, Copy, PartialEq, Eq, Structural)]
pub enum Outcome {
    Completed,
    Skipped,
}

impl Outcome {
    /// The subdirectory of the input directory for this outcome.
    pub fn dir_name(&self) -> (r: &'static str)
        ensures
            r@ == (match self {
                Outcome::Completed => COMPLETED_DIR@,
                Outcome::Skipped => SKIPPED_DIR@,
            }),
    {
        match self {
            Outcome::Completed => COMPLETED_DIR,
            Outcome::Skipped => SKIPPED_DIR,
        }
    }
}

/// A move to make: the file `name` of the input directory into `outcome`'s
/// subdirectory.
#[derive(Debug, Clone)]
pub struct Route {
    pub outcome: Outcome,
    pub name: String,
}

/// Where the file `name` goes once its pipeline succeeded or failed.
pub fn route(name: &str, succeeded: bool) -> (r: Route)
    ensures
        succeeded ==> r.outcome == Outcome::Completed && r.name@ == completed_name_of(name@),
        !succeeded ==> r.outcome == Outcome::Skipped && r.name@ == skipped_name_of(name@),
{
    if succeeded {
        Route { outcome: Outcome::Completed, name: completed_name(name) }
    } else {
        Route { outcome: Outcome::Skipped, name: skipped_name(name) }
    }
}

} // verus!
