//! The capability scope registry: an append-only allowlist of filesystem
//! paths, consulted by filesystem-accessing operations to decide permit or
//! deny. The policy is default-deny: a target is permitted exactly when some
//! registered entry covers it.

use vstd::prelude::*;
use crate::paths::is_nested_under;
use crate::paths::nested_under;
use crate::strutil::str_eq;

verus! {

/// One allowlist entry: a directory path, and whether the grant also covers
/// every path nested under it.
pub struct ScopeEntry {
    pub path: String,
    pub recursive: bool,
}

/// Why a grant was refused: the path is missing on disk, or names something
/// other than a directory. Either is fatal during bootstrap, since it means
/// a broken install.
#[derive(Clone, Copy, Debug, PartialEq, Eq, Structural)]
pub enum ScopeError {
    PathNotFound,
    NotADirectory,
}

/// What a filesystem probe reports about a path. The probe itself is the
/// host's business; the registry only receives its verdict as a plain value.
#[derive(Clone, Copy, Debug, PartialEq, Eq, Structural)]
pub enum PathStatus {
    Missing,
    NonDirectory,
    Directory,
}

/// A single entry `(path, recursive)` permits `target` when the target is
/// the path itself, or the entry is recursive and the target lies in the
/// tree below the path.
pub open spec fn entry_permits(path: Seq<char>, recursive: bool, target: Seq<char>) -> bool {
    if recursive {
        nested_under(target, path)
    } else {
        target == path
    }
}

/// The allowlist permits `target` iff some registered entry permits it.
pub open spec fn scope_permits(entries: Seq<(Seq<char>, bool)>, target: Seq<char>) -> bool {
    exists|i: int|
        0 <= i < entries.len() && entry_permits(entries[i].0, entries[i].1, target)
}

/// Append-only allowlist of filesystem paths. Entries are added during
/// bootstrap and never removed; later access checks only read it.
pub struct ScopeRegistry {
    pub entries: Vec<ScopeEntry>,
}

impl View for ScopeRegistry {
    type V = Seq<(Seq<char>, bool)>;

    open spec fn view(&self) -> Seq<(Seq<char>, bool)> {
        self.entries@.map(|i: int, e: ScopeEntry| (e.path@, e.recursive))
    }
}

impl ScopeRegistry {
    /// A fresh registry holds no entries, so it denies every target.
    pub fn new() -> (r: ScopeRegistry)
        ensures
            r@ == Seq::<(Seq<char>, bool)>::empty(),
    {
        let r = ScopeRegistry { entries: Vec::new() };
        proof {
            assert(r@ =~= Seq::<(Seq<char>, bool)>::empty());
        }
        r
    }

    /// Add `path` to the allowlist, covering its whole subtree when
    /// `recursive` is set. `status` is what the host's probe reported of the
    /// path on disk: only an existing directory may be granted; anything
    /// else is refused and leaves the registry unchanged.
    pub fn allow_directory(&mut self, path: String, recursive: bool, status: PathStatus) -> (r:
        Result<(), ScopeError>)
        ensures
            status is Directory ==> r is Ok && final(self)@ == old(self)@.push(
                (path@, recursive),
            ),
            !(status is Directory) ==> final(self)@ == old(self)@,
            status is Missing ==> r == Err::<(), ScopeError>(ScopeError::PathNotFound),
            status is NonDirectory ==> r == Err::<(), ScopeError>(ScopeError::NotADirectory),
    {
        match status {
            PathStatus::Directory => {
                let ghost p = path@;
                self.entries.push(ScopeEntry { path, recursive });
                proof {
                    assert(self@ =~~= old(self)@.push((p, recursive)));
                }
                Ok(())
            },
            PathStatus::Missing => Err(ScopeError::PathNotFound),
            PathStatus::NonDirectory => Err(ScopeError::NotADirectory),
        }
    }

    /// Check one target path against the allowlist: permitted iff some
    /// registered entry covers it, denied otherwise.
    pub fn is_allowed(&self, target: &str) -> (r: bool)
        ensures
            r == scope_permits(self@, target@),
    {
        let n = self.entries.len();
        let mut i: usize = 0;
        while i < n
            invariant
                i <= n,
                n == self.entries.len(),
                self@.len() == self.entries@.len(),
                forall|j: int| 0 <= j < i ==> !entry_permits(self@[j].0, self@[j].1, target@),
            decreases n - i,
        {
            let entry = &self.entries[i];
            let hit = if entry.recursive {
                is_nested_under(target, entry.path.as_str())
            } else {
                str_eq(target, entry.path.as_str())
            };
            if hit {
                proof {
                    assert(entry_permits(self@[i as int].0, self@[i as int].1, target@));
                }
                return true;
            }
            i += 1;
        }
        false
    }
}

/// Default deny: a target that is neither equal to nor nested under any
/// registered path is denied, whatever the entries' recursive flags say.
pub proof fn lemma_default_deny(entries: Seq<(Seq<char>, bool)>, target: Seq<char>)
    requires
        forall|i: int|
            0 <= i < entries.len() ==> target != entries[i].0 && !nested_under(
                target,
                entries[i].0,
            ),
    ensures
        !scope_permits(entries, target),
{
}

/// A recursive grant covers its whole subtree: once `(root, true)` is
/// registered, the root itself and every path nested under it is permitted.
pub proof fn lemma_recursive_grant_permits(
    entries: Seq<(Seq<char>, bool)>,
    root: Seq<char>,
    target: Seq<char>,
)
    requires
        entries.contains((root, true)),
        nested_under(target, root),
    ensures
        scope_permits(entries, target),
{
    let i = choose|i: int| 0 <= i < entries.len() && entries[i] == (root, true);
    assert(entry_permits(entries[i].0, entries[i].1, target));
}

} // verus!
