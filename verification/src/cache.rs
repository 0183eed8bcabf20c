//! Discovery of a previously installed server binary.
//!
//! The host enumerates the container directory and reports each entry's name
//! and whether it is a directory, in the filesystem's native order. The
//! library picks the last directory entry observed — the source behavior's
//! approximation of "most recently installed" — and, given the host's answers
//! about that directory (does the expected entry point exist, and what is the
//! runtime executable path), decides whether a cached binary is usable.
//! A miss is a normal outcome, not an error.

use vstd::prelude::*;

use crate::installer::{make_launch_descriptor, spec_launch_descriptor, LaunchDescriptor};
use crate::paths::{component_texts, AbsPath};

verus! {

/// One entry of the container directory, as the host observed it.
pub struct ScanEntry {
    pub name: String,
    pub is_dir: bool,
}

/// The name of the last directory entry of the scan, if the scan held one.
pub open spec fn spec_last_version_dir(entries: Seq<ScanEntry>) -> Option<Seq<char>>
    decreases entries.len(),
{
    if entries.len() == 0 {
        None
    } else if entries.last().is_dir {
        Some(entries.last().name@)
    } else {
        spec_last_version_dir(entries.drop_last())
    }
}

/// The last subdirectory observed while scanning the container directory,
/// taken as the most recently installed version: `None` exactly when the
/// scan held no directory entry.
pub fn select_version_dir(container_dir: &AbsPath, entries: &Vec<ScanEntry>) -> (r: Option<
    AbsPath,
>)
    ensures
        match r {
            Some(dir) => {
                &&& spec_last_version_dir(entries@) == Some(dir@.last())
                &&& dir@ == container_dir@.push(dir@.last())
            },
            None => spec_last_version_dir(entries@) is None,
        },
{
    let mut last_name: Option<&String> = None;
    let mut i: usize = 0;
    while i < entries.len()
        invariant
            i <= entries.len(),
            match last_name {
                Some(name) => spec_last_version_dir(entries@.subrange(0, i as int)) == Some(
                    name@,
                ),
                None => spec_last_version_dir(entries@.subrange(0, i as int)) is None,
            },
        decreases entries.len() - i,
    {
        if entries[i].is_dir {
            last_name = Some(&entries[i].name);
        }
        proof {
            let prefix = entries@.subrange(0, i + 1);
            assert(prefix.drop_last() =~= entries@.subrange(0, i as int));
            assert(prefix.last() == entries@[i as int]);
        }
        i += 1;
    }
    proof {
        assert(entries@.subrange(0, entries@.len() as int) =~= entries@);
    }
    match last_name {
        None => None,
        Some(name) => {
            let mut components: Vec<String> = Vec::new();
            let mut k: usize = 0;
            while k < container_dir.components.len()
                invariant
                    k <= container_dir.components.len(),
                    component_texts(components@) =~= container_dir@.subrange(0, k as int),
                decreases container_dir.components.len() - k,
            {
                let ghost prev = components@;
                components.push(container_dir.components[k].clone());
                proof {
                    assert(components@.drop_last() =~= prev);
                    crate::paths::lemma_component_texts_last(components@);
                }
                k += 1;
            }
            components.push(name.clone());
            let dir = AbsPath { components };
            proof {
                assert(container_dir@.subrange(0, container_dir@.len() as int) =~= container_dir@);
                assert(dir@ =~= container_dir@.push(name@));
            }
            Some(dir)
        },
    }
}

/// Whether a cached binary is reported, given the host's probe answers for
/// the selected version directory.
pub open spec fn spec_cached_binary_usable(
    entry_point_exists: bool,
    runtime_path: Option<AbsPath>,
) -> bool {
    entry_point_exists && runtime_path is Some
}

/// The launch descriptor for a previously installed binary, or `None` on a
/// cache miss.
///
/// `entry_point` is the expected entry-point path inside the selected version
/// directory; `entry_point_exists` is the host's answer to probing it. The
/// runtime path is only meaningful when the entry point exists — the host
/// resolves it after the probe succeeds — and `None` there means the runtime
/// could not be resolved, which is also absorbed into a miss.
pub fn cached_binary_from_probe(
    entry_point: &AbsPath,
    entry_point_exists: bool,
    runtime_path: Option<AbsPath>,
) -> (r: Option<LaunchDescriptor>)
    ensures
        r is Some <==> spec_cached_binary_usable(entry_point_exists, runtime_path),
        match (r, runtime_path) {
            (Some(d), Some(runtime)) => d@ == spec_launch_descriptor(runtime@, entry_point@),
            (Some(_), None) => false,
            (None, _) => true,
        },
{
    if entry_point_exists {
        match runtime_path {
            Some(runtime) => Some(make_launch_descriptor(runtime, entry_point)),
            None => None,
        }
    } else {
        None
    }
}

/// Whatever the scan held, a usable cached binary always references one of
/// the scanned directories whose entry point is valid, and when no scanned
/// directory holds a valid entry point the lookup is a miss.
///
/// `valid` is the set of subdirectory names whose expected entry point
/// exists on disk; the requirement ties the host's probe answer to it. The
/// converse — that a valid directory somewhere in the scan guarantees a
/// hit — does not hold: the scan trusts its last directory entry, and a
/// stale invalid directory enumerated after a valid one is reported as a
/// miss rather than silently replaced.
pub proof fn lemma_cache_discovery_sound(
    entries: Seq<ScanEntry>,
    valid: Set<Seq<char>>,
    entry_point_exists: bool,
    runtime_path: Option<AbsPath>,
)
    requires
        match spec_last_version_dir(entries) {
            Some(name) => entry_point_exists == valid.contains(name),
            None => entry_point_exists == false,
        },
    ensures
        spec_cached_binary_usable(entry_point_exists, runtime_path) ==> exists|i: int|
            #![auto]
            0 <= i < entries.len() && entries[i].is_dir && valid.contains(entries[i].name@)
                && spec_last_version_dir(entries) == Some(entries[i].name@),
        (forall|i: int|
            #![auto]
            0 <= i < entries.len() && entries[i].is_dir ==> !valid.contains(entries[i].name@))
            ==> !spec_cached_binary_usable(entry_point_exists, runtime_path),
{
    lemma_selected_dir_was_scanned(entries);
}

/// The selected directory is always one that the scan reported as a
/// directory; the selection is empty exactly when the scan held none.
pub proof fn lemma_selected_dir_was_scanned(entries: Seq<ScanEntry>)
    ensures
        spec_last_version_dir(entries) is Some ==> exists|i: int|
            0 <= i < entries.len() && entries[i].is_dir && entries[i].name@
                == spec_last_version_dir(entries)->Some_0,
        spec_last_version_dir(entries) is None ==> forall|i: int|
            0 <= i < entries.len() ==> !entries[i].is_dir,
    decreases entries.len(),
{
    if entries.len() > 0 {
        lemma_selected_dir_was_scanned(entries.drop_last());
        if !entries.last().is_dir {
            assert forall|i: int| 0 <= i < entries.len() - 1 implies entries.drop_last()[i]
                == entries[i] by {}
        }
    }
}

} // verus!
