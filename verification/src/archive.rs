//! Post-download archive normalization.
//!
//! A downloaded item is normalized by container kind, resolved once from the
//! content entries as a priority-ordered decision: a single content whose
//! name carries the zip suffix is a plain compressed container; otherwise a
//! first content whose name carries the self-extracting executable suffix is
//! a segmented archive; anything else is left as it is. Normalization
//! extracts into a scratch directory and then flattens superfluous nesting,
//! so the destination directory ends up holding exactly the purchased
//! content: a zip wrapper folder is stripped during extraction, and a
//! segmented archive that wraps its payload in one extra folder has that
//! folder's children, not the folder, moved up.

use vstd::prelude::*;

use crate::catalog::ContentEntry;

verus! {

/// The container kind of a downloaded item, resolved once.
#[derive(Clone, Copy, PartialEq, Eq, Structural, Debug)]
pub enum ArchiveKind {
    /// A single content entry named with the zip suffix.
    Zip,
    /// The first content entry is named with the self-extracting executable
    /// suffix; its siblings are its segments.
    Segmented,
    /// Neither container: the downloaded files are left as they are.
    Plain,
}

/// One entry of a directory listing.
pub struct DirEntry {
    pub name: Vec<u8>,
    pub is_dir: bool,
}

/// One archive entry path, as its slash-separated components.
pub struct EntryPath {
    pub components: Vec<Vec<u8>>,
}

pub open spec fn ends_with(s: Seq<u8>, suffix: Seq<u8>) -> bool {
    s.len() >= suffix.len() && s.subrange(s.len() - suffix.len(), s.len() as int) == suffix
}

/// The zip suffix, ".zip".
pub open spec fn zip_suffix() -> Seq<u8> {
    seq![0x2eu8, 0x7au8, 0x69u8, 0x70u8]
}

/// The self-extracting executable suffix, ".exe".
pub open spec fn exe_suffix() -> Seq<u8> {
    seq![0x2eu8, 0x65u8, 0x78u8, 0x65u8]
}

/// The segmented-archive suffix, ".rar", with its dot.
pub open spec fn rar_suffix() -> Seq<u8> {
    seq![0x2eu8, 0x72u8, 0x61u8, 0x72u8]
}

/// Whether `s` ends with `suffix`.
pub fn ends_with_bytes(s: &Vec<u8>, suffix: &Vec<u8>) -> (r: bool)
    ensures
        r == ends_with(s@, suffix@),
{
    if s.len() < suffix.len() {
        assert(!ends_with(s@, suffix@));
        return false;
    }
    let offset = s.len() - suffix.len();
    let mut i: usize = 0;
    while i < suffix.len()
        invariant
            0 <= i <= suffix.len(),
            suffix.len() <= s.len(),
            offset == s.len() - suffix.len(),
            forall|j: int| 0 <= j < i ==> s@[offset + j] == suffix@[j],
        decreases suffix.len() - i,
    {
        if s[offset + i] != suffix[i] {
            assert(s@.subrange(s@.len() - suffix@.len(), s@.len() as int)[i as int] != suffix@[i as int]);
            return false;
        }
        i = i + 1;
    }
    assert(s@.subrange(s@.len() - suffix@.len(), s@.len() as int) =~= suffix@);
    true
}

fn zip_suffix_bytes() -> (v: Vec<u8>)
    ensures
        v@ == zip_suffix(),
{
    let mut v: Vec<u8> = Vec::new();
    v.push(0x2e);
    v.push(0x7a);
    v.push(0x69);
    v.push(0x70);
    assert(v@ =~= zip_suffix());
    v
}

fn exe_suffix_bytes() -> (v: Vec<u8>)
    ensures
        v@ == exe_suffix(),
{
    let mut v: Vec<u8> = Vec::new();
    v.push(0x2e);
    v.push(0x65);
    v.push(0x78);
    v.push(0x65);
    assert(v@ =~= exe_suffix());
    v
}

fn rar_suffix_bytes() -> (v: Vec<u8>)
    ensures
        v@ == rar_suffix(),
{
    let mut v: Vec<u8> = Vec::new();
    v.push(0x2e);
    v.push(0x72);
    v.push(0x61);
    v.push(0x72);
    assert(v@ =~= rar_suffix());
    v
}

/// The container kind of an item with these content entries. The zip case
/// takes priority over the segmented case, so the two predicates never
/// apply together.
pub open spec fn spec_classify(cs: Seq<ContentEntry>) -> ArchiveKind {
    if cs.len() == 1 && ends_with(cs[0].file_name@, zip_suffix()) {
        ArchiveKind::Zip
    } else if cs.len() >= 1 && ends_with(cs[0].file_name@, exe_suffix()) {
        ArchiveKind::Segmented
    } else {
        ArchiveKind::Plain
    }
}

/// Resolves the container kind of an item from its content entries.
pub fn classify_archive(contents: &Vec<ContentEntry>) -> (k: ArchiveKind)
    ensures
        k == spec_classify(contents@),
{
    if contents.len() == 1 && ends_with_bytes(&contents[0].file_name, &zip_suffix_bytes()) {
        ArchiveKind::Zip
    } else if contents.len() >= 1 && ends_with_bytes(&contents[0].file_name, &exe_suffix_bytes()) {
        ArchiveKind::Segmented
    } else {
        ArchiveKind::Plain
    }
}

/// The length of a file name without its extension: everything before the
/// last dot, except that a dot opening the name hides no extension. A name
/// without an extension keeps its full length.
pub open spec fn stem_len(s: Seq<u8>) -> int
    decreases s.len(),
{
    if s.len() <= 1 {
        s.len() as int
    } else if s.last() == 0x2e {
        s.len() - 1
    } else {
        let m = stem_len(s.drop_last());
        if m == s.len() - 1 {
            s.len() as int
        } else {
            m
        }
    }
}

proof fn lemma_stem_len_no_dot(s: Seq<u8>)
    requires
        forall|i: int| 1 <= i < s.len() ==> s[i] != 0x2e,
    ensures
        stem_len(s) == s.len(),
    decreases s.len(),
{
    if s.len() > 1 {
        lemma_stem_len_no_dot(s.drop_last());
    }
}

proof fn lemma_stem_len_dot_at(s: Seq<u8>, k: int)
    requires
        1 <= k < s.len(),
        s[k] == 0x2e,
        forall|i: int| k < i < s.len() ==> s[i] != 0x2e,
    ensures
        stem_len(s) == k,
    decreases s.len(),
{
    if k == s.len() - 1 {
    } else {
        lemma_stem_len_dot_at(s.drop_last(), k);
    }
}

/// Replaces the extension of `name` with `suffix` (given with its dot): the
/// result is the stem followed by the suffix, as the segmented-archive
/// rename convention requires.
pub fn replace_extension(name: &Vec<u8>, suffix: &Vec<u8>) -> (r: Vec<u8>)
    ensures
        r@ == name@.take(stem_len(name@)) + suffix@,
{
    let mut stem: usize = name.len();
    let mut j: usize = name.len();
    let mut found = false;
    while j > 1 && !found
        invariant
            0 <= j <= name.len(),
            !found ==> stem == name.len(),
            !found ==> forall|i: int| j <= i < name.len() ==> name@[i] != 0x2e,
            found ==> 1 <= stem < name.len(),
            found ==> name@[stem as int] == 0x2e,
            found ==> forall|i: int| stem < i < name.len() ==> name@[i] != 0x2e,
        decreases 2 * j + (if found { 0int } else { 1int }),
    {
        if name[j - 1] == 0x2e {
            stem = j - 1;
            found = true;
        } else {
            j = j - 1;
        }
    }
    proof {
        if found {
            lemma_stem_len_dot_at(name@, stem as int);
        } else {
            lemma_stem_len_no_dot(name@);
        }
    }
    let mut r: Vec<u8> = Vec::new();
    let mut i: usize = 0;
    while i < stem
        invariant
            stem <= name.len(),
            stem_len(name@) == stem,
            0 <= i <= stem,
            r@ == name@.take(i as int),
        decreases stem - i,
    {
        r.push(name[i]);
        assert(r@ =~= name@.take(i + 1));
        i = i + 1;
    }
    let mut k: usize = 0;
    while k < suffix.len()
        invariant
            0 <= k <= suffix.len(),
            r@ == name@.take(stem_len(name@)) + suffix@.take(k as int),
        decreases suffix.len() - k,
    {
        r.push(suffix[k]);
        assert(r@ =~= name@.take(stem_len(name@)) + suffix@.take(k + 1));
        k = k + 1;
    }
    assert(r@ =~= name@.take(stem_len(name@)) + suffix@);
    r
}

/// The normalization plan for a segmented archive: rename the executable to
/// carry the segmented-archive suffix, extract it header by header, rename
/// it back, then delete every declared content file.
pub struct SegmentedPlan {
    /// The first content's name as declared: the self-extracting executable.
    pub archive_name: Vec<u8>,
    /// The same name carrying the segmented-archive suffix instead of its
    /// extension; extraction opens the file under this name.
    pub renamed_name: Vec<u8>,
    /// Every declared content file, deleted once extraction is done.
    pub delete_after: Vec<Vec<u8>>,
}

/// Plans the normalization of a segmented archive; refused unless the
/// entries resolve to the segmented kind.
pub fn plan_segmented(contents: &Vec<ContentEntry>) -> (r: Option<SegmentedPlan>)
    ensures
        r is Some <==> spec_classify(contents@) is Segmented,
        r matches Some(p) ==> {
            &&& p.archive_name@ == contents@[0].file_name@
            &&& p.renamed_name@ == contents@[0].file_name@.take(stem_len(contents@[0].file_name@))
                + rar_suffix()
            &&& p.delete_after@.len() == contents@.len()
            &&& forall|i: int|
                0 <= i < contents@.len() ==> p.delete_after@[i]@ == (#[trigger] contents@[i]).file_name@
        },
{
    match classify_archive(contents) {
        ArchiveKind::Segmented => {
            let archive_name = crate::catalog::clone_bytes(&contents[0].file_name);
            let renamed_name = replace_extension(&contents[0].file_name, &rar_suffix_bytes());
            let mut delete_after: Vec<Vec<u8>> = Vec::new();
            let mut i: usize = 0;
            while i < contents.len()
                invariant
                    0 <= i <= contents.len(),
                    delete_after@.len() == i,
                    forall|j: int|
                        0 <= j < i ==> delete_after@[j]@ == (#[trigger] contents@[j]).file_name@,
                decreases contents.len() - i,
            {
                delete_after.push(crate::catalog::clone_bytes(&contents[i].file_name));
                i = i + 1;
            }
            Some(SegmentedPlan { archive_name, renamed_name, delete_after })
        },
        _ => None,
    }
}

/// Where the real content of an extracted segmented archive lies.
pub enum ContentRoot {
    /// The scratch directory itself holds the content.
    ScratchRoot,
    /// The scratch directory holds exactly one entry, itself a directory:
    /// that directory is the real content root, and its children — not the
    /// directory — move up into the destination.
    SingleDir { name: Vec<u8> },
}

/// Single-wrapper absorption: the extracted payload's root is the scratch
/// directory's sole entry exactly when that sole entry is a directory;
/// anything else leaves the scratch directory as the root.
pub fn resolve_content_root(entries: &Vec<DirEntry>) -> (r: ContentRoot)
    ensures
        r is SingleDir <==> (entries@.len() == 1 && entries@[0].is_dir),
        r matches ContentRoot::SingleDir { name } ==> name@ == entries@[0].name@,
{
    if entries.len() == 1 && entries[0].is_dir {
        ContentRoot::SingleDir { name: crate::catalog::clone_bytes(&entries[0].name) }
    } else {
        ContentRoot::ScratchRoot
    }
}

/// Whether every entry of an archive lies under one top-level wrapper
/// folder: at least two entries, each with the same first path component.
/// This is the condition under which extraction strips that folder.
pub open spec fn spec_wrapped(paths: Seq<EntryPath>) -> bool {
    &&& paths.len() >= 2
    &&& forall|i: int| 0 <= i < paths.len() ==> (#[trigger] paths[i]).components@.len() >= 1
    &&& forall|i: int|
        0 <= i < paths.len() ==> (#[trigger] paths[i]).components@[0]@ == paths[0].components@[0]@
}

/// Whether two entry paths hold the same components.
pub open spec fn path_eq_view(a: EntryPath, b: EntryPath) -> bool {
    &&& a.components@.len() == b.components@.len()
    &&& forall|k: int|
        0 <= k < a.components@.len() ==> (#[trigger] a.components@[k])@ == b.components@[k]@
}

/// Whether `m` is `p` with its first component — the wrapper folder —
/// dropped; a path that was the wrapper itself becomes empty.
pub open spec fn path_is_stripped(m: EntryPath, p: EntryPath) -> bool {
    &&& p.components@.len() >= 1
    &&& m.components@.len() == p.components@.len() - 1
    &&& forall|k: int|
        0 <= k < m.components@.len() ==> (#[trigger] m.components@[k])@ == p.components@[k + 1]@
}

/// Decides whether extraction strips a top-level wrapper folder, and if so
/// which: the shared first component of every entry.
pub fn common_wrapper(paths: &Vec<EntryPath>) -> (r: Option<Vec<u8>>)
    ensures
        r is Some <==> spec_wrapped(paths@),
        r matches Some(w) ==> w@ == paths@[0].components@[0]@,
{
    if paths.len() < 2 {
        return None;
    }
    if paths[0].components.len() == 0 {
        return None;
    }
    let first = &paths[0].components[0];
    let mut i: usize = 0;
    while i < paths.len()
        invariant
            0 <= i <= paths.len(),
            paths@.len() >= 2,
            paths@[0].components@.len() >= 1,
            first@ == paths@[0].components@[0]@,
            forall|j: int| 0 <= j < i ==> (#[trigger] paths@[j]).components@.len() >= 1,
            forall|j: int|
                0 <= j < i ==> (#[trigger] paths@[j]).components@[0]@ == paths@[0].components@[0]@,
        decreases paths.len() - i,
    {
        if paths[i].components.len() == 0 {
            return None;
        }
        if !crate::catalog::bytes_eq(&paths[i].components[0], first) {
            return None;
        }
        i = i + 1;
    }
    Some(crate::catalog::clone_bytes(first))
}

/// Copies one entry path.
fn clone_path(p: &EntryPath) -> (r: EntryPath)
    ensures
        path_eq_view(r, *p),
{
    let mut components: Vec<Vec<u8>> = Vec::new();
    let mut i: usize = 0;
    while i < p.components.len()
        invariant
            0 <= i <= p.components.len(),
            components@.len() == i,
            forall|k: int|
                0 <= k < i ==> (#[trigger] components@[k])@ == p.components@[k]@,
        decreases p.components.len() - i,
    {
        components.push(crate::catalog::clone_bytes(&p.components[i]));
        i = i + 1;
    }
    EntryPath { components }
}

/// Drops the wrapper folder from one entry path.
fn strip_path(p: &EntryPath) -> (r: EntryPath)
    requires
        p.components@.len() >= 1,
    ensures
        path_is_stripped(r, *p),
{
    let mut components: Vec<Vec<u8>> = Vec::new();
    let mut i: usize = 1;
    while i < p.components.len()
        invariant
            1 <= i <= p.components.len(),
            components@.len() == i - 1,
            forall|k: int|
                0 <= k < i - 1 ==> (#[trigger] components@[k])@ == p.components@[k + 1]@,
        decreases p.components.len() - i,
    {
        components.push(crate::catalog::clone_bytes(&p.components[i]));
        i = i + 1;
    }
    EntryPath { components }
}

/// Archive flattening: when every entry of the archive lies under one
/// top-level wrapper folder, the planned relocation targets are exactly the
/// entries of that folder — each path loses the wrapper, and the target of
/// the wrapper itself is empty, to be skipped — and otherwise every entry
/// keeps its path unchanged.
pub fn flatten_moves(paths: &Vec<EntryPath>) -> (moves: Vec<EntryPath>)
    ensures
        moves@.len() == paths@.len(),
        spec_wrapped(paths@) ==> forall|i: int|
            0 <= i < paths@.len() ==> path_is_stripped(#[trigger] moves@[i], paths@[i]),
        !spec_wrapped(paths@) ==> forall|i: int|
            0 <= i < paths@.len() ==> path_eq_view(#[trigger] moves@[i], paths@[i]),
{
    let strip = match common_wrapper(paths) {
        Some(_) => true,
        None => false,
    };
    let mut moves: Vec<EntryPath> = Vec::new();
    let mut i: usize = 0;
    if strip {
        while i < paths.len()
            invariant
                0 <= i <= paths.len(),
                spec_wrapped(paths@),
                moves@.len() == i,
                forall|j: int|
                    0 <= j < i ==> path_is_stripped(#[trigger] moves@[j], paths@[j]),
            decreases paths.len() - i,
        {
            let m = strip_path(&paths[i]);
            moves.push(m);
            i = i + 1;
        }
    } else {
        while i < paths.len()
            invariant
                0 <= i <= paths.len(),
                moves@.len() == i,
                forall|j: int| 0 <= j < i ==> path_eq_view(#[trigger] moves@[j], paths@[j]),
            decreases paths.len() - i,
        {
            let m = clone_path(&paths[i]);
            moves.push(m);
            i = i + 1;
        }
    }
    moves
}

} // verus!
