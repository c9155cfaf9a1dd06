//! The full-disk-access heuristic.
//!
//! No direct native query for full disk access exists. The adapter instead
//! probes a fixed list of directories under the user's home directory that
//! are always protected: if enumerating any one of them succeeds, access is
//! treated as granted. The host binary performs the enumeration attempts and
//! hands the outcomes to [`full_disk_access_from_probes`].

use vstd::prelude::*;

verus! {

/// The home-relative paths of the protected directories the heuristic
/// probes: a system-app container directory and the browser-data directory.
pub open spec fn spec_protected_dirs() -> Seq<Seq<char>> {
    seq!["Library/Containers/com.apple.stocks"@, "Library/Safari"@]
}

/// The fixed list of home-relative protected-directory paths to probe.
///
/// The list is best effort: it may need to change across operating-system
/// versions, and a `false` check result can be a false negative when it does.
pub fn protected_dir_paths() -> (dirs: Vec<&'static str>)
    ensures
        dirs@.len() == spec_protected_dirs().len(),
        forall|i: int| 0 <= i < dirs@.len() ==> dirs@[i]@ == spec_protected_dirs()[i],
{
    let mut dirs: Vec<&'static str> = Vec::new();
    dirs.push("Library/Containers/com.apple.stocks");
    dirs.push("Library/Safari");
    dirs
}

/// Whether at least one probe succeeded.
pub open spec fn spec_any_probe_succeeded(probes: Seq<bool>) -> bool {
    exists|i: int| 0 <= i < probes.len() && probes[i]
}

/// The full-disk-access rule: granted exactly when at least one
/// protected-directory enumeration succeeded; not granted when every probe
/// failed (or none was made).
///
/// Best effort, not authoritative: all probes failing can mean either that
/// access is denied or that the probed directories moved in a newer
/// operating-system version.
pub fn full_disk_access_from_probes(probes: &Vec<bool>) -> (granted: bool)
    ensures
        granted == spec_any_probe_succeeded(probes@),
{
    let mut i: usize = 0;
    while i < probes.len()
        invariant
            i <= probes@.len(),
            forall|j: int| 0 <= j < i ==> !probes@[j],
        decreases probes@.len() - i,
    {
        if probes[i] {
            assert(probes@[i as int]);
            return true;
        }
        i = i + 1;
    }
    false
}

} // verus!
