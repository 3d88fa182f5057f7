//! Rebuilding the download registry from the download directory.
//!
//! The host lists the download directory and offers each entry with its
//! name — absent when the name is not valid text — and whether it is a
//! directory. Exactly the directories with usable names are registered as
//! downloaded items, in listing order; files and unreadable names are
//! passed over silently.

use vstd::prelude::*;

verus! {

/// One directory entry as the host scanned it: its name, if it is valid
/// text, and whether it is a directory.
pub struct ScannedEntry {
    pub name: Option<Vec<u8>>,
    pub is_dir: bool,
}

/// Whether a scanned entry is registered: a directory whose name is usable.
pub open spec fn registrable(e: ScannedEntry) -> bool {
    e.is_dir && e.name is Some
}

/// How many of the first `i` entries are registered.
pub open spec fn registrable_count(entries: Seq<ScannedEntry>, i: int) -> int
    decreases i when 0 <= i <= entries.len()
{
    if i <= 0 {
        0
    } else {
        registrable_count(entries, i - 1) + if registrable(entries[i - 1]) {
            1int
        } else {
            0int
        }
    }
}

proof fn lemma_registrable_count_mono(entries: Seq<ScannedEntry>, a: int, b: int)
    requires
        0 <= a <= b <= entries.len(),
    ensures
        registrable_count(entries, a) <= registrable_count(entries, b),
    decreases b - a,
{
    if a < b {
        lemma_registrable_count_mono(entries, a, b - 1);
    }
}

/// The names to register from a scan of the download directory: the name of
/// every directory entry whose name is usable, in listing order — each such
/// entry's name lands at the index counting the registered entries before
/// it.
pub fn downloads_to_register(entries: &Vec<ScannedEntry>) -> (names: Vec<Vec<u8>>)
    ensures
        names@.len() == registrable_count(entries@, entries@.len() as int),
        forall|i: int, j: int|
            0 <= i < entries@.len() && registrable(#[trigger] entries@[i]) && j
                == registrable_count(entries@, i) ==> #[trigger] names@[j]@
                == entries@[i].name->0@,
{
    let mut names: Vec<Vec<u8>> = Vec::new();
    let mut i: usize = 0;
    while i < entries.len()
        invariant
            0 <= i <= entries.len(),
            names@.len() == registrable_count(entries@, i as int),
            forall|k: int, j: int|
                0 <= k < i && registrable(#[trigger] entries@[k]) && j == registrable_count(
                    entries@,
                    k,
                ) ==> #[trigger] names@[j]@ == entries@[k].name->0@,
        decreases entries.len() - i,
    {
        let registered = if entries[i].is_dir {
            match &entries[i].name {
                Some(name) => {
                    names.push(crate::catalog::clone_bytes(name));
                    true
                },
                None => false,
            }
        } else {
            false
        };
        proof {
            assert(registered == registrable(entries@[i as int]));
            assert(registrable_count(entries@, i + 1) == registrable_count(entries@, i as int)
                + if registrable(entries@[i as int]) {
                1int
            } else {
                0int
            });
            assert forall|k: int, j: int|
                0 <= k < i + 1 && registrable(#[trigger] entries@[k]) && j == registrable_count(
                    entries@,
                    k,
                ) implies #[trigger] names@[j]@ == entries@[k].name->0@ by {
                lemma_registrable_count_mono(entries@, 0, k);
                if k < i as int {
                    lemma_registrable_count_mono(entries@, k + 1, i as int);
                    assert(registrable_count(entries@, k + 1) == registrable_count(entries@, k)
                        + 1);
                }
            }
        }
        i = i + 1;
    }
    names
}

} // verus!
