//! Locating the Node.js runtime and the bridge entry-point script.
//!
//! The harness performs the PATH search and the existence probes; the
//! functions here fix the candidate lists and pick the first hit.

use vstd::prelude::*;
use crate::errors::CoreError;
use crate::text::join2;

verus! {

/// The index of the first `true` in `exists`, if any.
pub open spec fn first_hit(exists: Seq<bool>) -> Option<int>
    decreases exists.len(),
{
    if exists.len() == 0 {
        None
    } else if exists[0] {
        Some(0)
    } else {
        match first_hit(exists.drop_first()) {
            Some(i) => Some(i + 1),
            None => None,
        }
    }
}

proof fn lemma_first_hit_at(exists: Seq<bool>, i: int)
    requires
        0 <= i < exists.len(),
        exists[i],
        forall|j: int| 0 <= j < i ==> !exists[j],
    ensures
        first_hit(exists) == Some(i),
    decreases exists.len(),
{
    if i > 0 {
        lemma_first_hit_at(exists.drop_first(), i - 1);
    }
}

proof fn lemma_first_hit_none(exists: Seq<bool>)
    requires
        forall|j: int| 0 <= j < exists.len() ==> !exists[j],
    ensures
        first_hit(exists) is None,
    decreases exists.len(),
{
    if exists.len() > 0 {
        lemma_first_hit_none(exists.drop_first());
    }
}

/// Returns the candidate at the first index whose probe succeeded.
fn first_existing(candidates: &Vec<String>, exists: &Vec<bool>) -> (r: Option<String>)
    requires
        candidates@.len() == exists@.len(),
    ensures
        match first_hit(exists@) {
            Some(i) => r matches Some(p) && p@ == candidates@[i]@,
            None => r is None,
        },
{
    let mut i: usize = 0;
    while i < candidates.len()
        invariant
            i <= candidates@.len(),
            candidates@.len() == exists@.len(),
            forall|j: int| 0 <= j < i ==> !exists@[j],
        decreases candidates@.len() - i,
    {
        if exists[i] {
            proof {
                lemma_first_hit_at(exists@, i as int);
            }
            return Some(candidates[i].clone());
        }
        i = i + 1;
    }
    proof {
        lemma_first_hit_none(exists@);
    }
    None
}

/// The fixed fallback locations probed for the Node.js runtime when it is
/// not on the search path.
pub fn node_fallback_paths() -> (r: Vec<String>)
    ensures
        r@.len() == 3,
        r@[0]@ == "/usr/local/bin/node"@,
        r@[1]@ == "/opt/homebrew/bin/node"@,
        r@[2]@ == "/usr/bin/node"@,
{
    let mut v: Vec<String> = Vec::new();
    v.push("/usr/local/bin/node".to_owned());
    v.push("/opt/homebrew/bin/node".to_owned());
    v.push("/usr/bin/node".to_owned());
    v
}

/// The fixed fallback locations probed for `npx`.
pub fn npx_fallback_paths() -> (r: Vec<String>)
    ensures
        r@.len() == 3,
        r@[0]@ == "/usr/local/bin/npx"@,
        r@[1]@ == "/opt/homebrew/bin/npx"@,
        r@[2]@ == "/usr/bin/npx"@,
{
    let mut v: Vec<String> = Vec::new();
    v.push("/usr/local/bin/npx".to_owned());
    v.push("/opt/homebrew/bin/npx".to_owned());
    v.push("/usr/bin/npx".to_owned());
    v
}

/// Picks the runtime executable: a PATH hit wins; otherwise the first
/// fallback location whose probe found a file; otherwise nothing.
pub fn choose_executable(
    path_hit: Option<String>,
    candidates: &Vec<String>,
    exists: &Vec<bool>,
) -> (r: Option<String>)
    requires
        candidates@.len() == exists@.len(),
    ensures
        path_hit matches Some(p) ==> r == Some(p),
        path_hit is None ==> match first_hit(exists@) {
            Some(i) => r matches Some(p) && p@ == candidates@[i]@,
            None => r is None,
        },
{
    match path_hit {
        Some(p) => Some(p),
        None => first_existing(candidates, exists),
    }
}

/// The ordered entry-point candidates: the development layout relative to
/// the executable, the production bundle layout, and — when the build
/// manifest directory is known — the monorepo layout.
pub fn entry_point_candidates(exe_dir: &str, manifest_dir: &Option<String>) -> (r: Vec<String>)
    ensures
        r@.len() == (if manifest_dir is Some {
            4int
        } else {
            3int
        }),
        r@[0]@ == exe_dir@ + "/../../../../lark-slack-connector/dist/cli/desktop.js"@,
        r@[1]@ == exe_dir@ + "/../../../lark-slack-connector/dist/cli/desktop.js"@,
        r@[2]@ == exe_dir@ + "/../Resources/cli/desktop.js"@,
        manifest_dir matches Some(m) ==> r@[3]@ == m@
            + "/../../lark-slack-connector/dist/cli/desktop.js"@,
{
    let mut v: Vec<String> = Vec::new();
    v.push(join2(exe_dir, "/../../../../lark-slack-connector/dist/cli/desktop.js"));
    v.push(join2(exe_dir, "/../../../lark-slack-connector/dist/cli/desktop.js"));
    v.push(join2(exe_dir, "/../Resources/cli/desktop.js"));
    match manifest_dir {
        Some(m) => v.push(join2(m.as_str(), "/../../lark-slack-connector/dist/cli/desktop.js")),
        None => (),
    }
    v
}

/// Picks the bridge entry point among the probed candidates, or reports
/// every searched path when none exists.
pub fn choose_entry_point(candidates: &Vec<String>, exists: &Vec<bool>) -> (r: Result<String, CoreError>)
    requires
        candidates@.len() == exists@.len(),
    ensures
        match first_hit(exists@) {
            Some(i) => r matches Ok(p) && p@ == candidates@[i]@,
            None => r matches Err(e) && e matches CoreError::EntryPointNotFound(searched)
                && searched@.map_values(|p: String| p@) == candidates@.map_values(|p: String| p@),
        },
{
    match first_existing(candidates, exists) {
        Some(p) => Ok(p),
        None => {
            let mut searched: Vec<String> = Vec::new();
            let mut i: usize = 0;
            while i < candidates.len()
                invariant
                    i <= candidates@.len(),
                    searched@.len() == i,
                    forall|j: int| 0 <= j < i ==> #[trigger] searched@[j]@ == candidates@[j]@,
                decreases candidates@.len() - i,
            {
                searched.push(candidates[i].clone());
                i = i + 1;
            }
            proof {
                assert(searched@.map_values(|p: String| p@) =~= candidates@.map_values(
                    |p: String| p@,
                ));
            }
            Err(CoreError::EntryPointNotFound(searched))
        },
    }
}

} // verus!
