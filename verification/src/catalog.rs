//! Catalog item details and the plan for downloading one purchased item.
//!
//! An item's detail record lists one or more content entries, each a file
//! name together with a declared size written as a decimal string. Planning
//! a download means checking that exactly one detail record was returned,
//! parsing every declared size, summing them into the job's total byte
//! count, and deriving the request shape for every content entry: a
//! single-content item is fetched through the whole-product request, a
//! multi-content item through one numbered-part request per 1-based index.

use vstd::prelude::*;

verus! {

/// One physical file belonging to a catalog item: its file name and its
/// declared size, a decimal string as the remote reports it.
pub struct ContentEntry {
    pub file_name: Vec<u8>,
    pub declared_size: Vec<u8>,
}

/// The detail record of one catalog item: the immutable list of its content
/// entries, as the detail response reported them.
pub struct ItemDetail {
    pub contents: Vec<ContentEntry>,
}

/// Why a download could not be planned.
#[derive(Clone, Copy, PartialEq, Eq, Structural, Debug)]
pub enum PlanError {
    /// The detail query returned no record, or more than one, for the item.
    DetailMissingOrNotUnique,
    /// Some declared size is not a decimal number that fits in 64 bits, or
    /// the sizes sum past 64 bits.
    InvalidSize,
}

/// Which request fetches one content entry.
#[derive(Clone, Copy, PartialEq, Eq, Structural, Debug)]
pub enum UrlKind {
    /// The whole-product request, used when the item has a single content.
    Whole,
    /// The numbered-part request with this 1-based index.
    Part { index: usize },
}

/// One content entry as the download will fetch it.
pub struct PlannedFile {
    pub file_name: Vec<u8>,
    pub size: u64,
    pub url: UrlKind,
}

/// The whole download job for one item.
pub struct DownloadPlan {
    pub total_size: u64,
    pub files: Vec<PlannedFile>,
}

pub open spec fn is_ascii_digit(b: u8) -> bool {
    0x30 <= b <= 0x39
}

pub open spec fn all_digits(s: Seq<u8>) -> bool {
    forall|i: int| 0 <= i < s.len() ==> is_ascii_digit(#[trigger] s[i])
}

/// The value of a decimal digit string, most significant digit first.
pub open spec fn decimal_value(s: Seq<u8>) -> int
    decreases s.len(),
{
    if s.len() == 0 {
        0
    } else {
        decimal_value(s.drop_last()) * 10 + (s.last() - 0x30)
    }
}

/// The digits of a declared size: an unsigned integer may open with one
/// plus sign, which carries no value.
pub open spec fn digits_of(s: Seq<u8>) -> Seq<u8> {
    if s.len() > 0 && s[0] == 0x2b {
        s.subrange(1, s.len() as int)
    } else {
        s
    }
}

/// A declared size is well formed when, after an optional leading plus, it
/// is a nonempty digit string whose value fits in 64 bits.
pub open spec fn size_ok(s: Seq<u8>) -> bool {
    &&& digits_of(s).len() > 0
    &&& all_digits(digits_of(s))
    &&& decimal_value(digits_of(s)) <= u64::MAX
}

proof fn lemma_decimal_nonneg(s: Seq<u8>)
    requires
        all_digits(s),
    ensures
        decimal_value(s) >= 0,
    decreases s.len(),
{
    if s.len() > 0 {
        assert(all_digits(s.drop_last()));
        lemma_decimal_nonneg(s.drop_last());
    }
}

/// Extending a digit string never shrinks its value: the value of a prefix
/// bounds the value of the whole string from below.
proof fn lemma_decimal_prefix_bound(s: Seq<u8>, i: int)
    requires
        all_digits(s),
        0 <= i <= s.len(),
    ensures
        decimal_value(s.take(i)) <= decimal_value(s),
    decreases s.len() - i,
{
    if i < s.len() {
        lemma_decimal_prefix_bound(s, i + 1);
        assert(s.take(i + 1).drop_last() =~= s.take(i));
        assert(all_digits(s.take(i + 1)));
        lemma_decimal_nonneg(s.take(i));
        assert(decimal_value(s.take(i)) <= decimal_value(s.take(i + 1)));
    } else {
        assert(s.take(i) =~= s);
    }
}

/// Parses a declared size — an optional leading plus, then decimal digits —
/// into a 64-bit value; `None` exactly when nothing follows the sign, a
/// non-digit appears, or the value passes `u64::MAX`.
pub fn parse_decimal(s: &Vec<u8>) -> (r: Option<u64>)
    ensures
        r is Some <==> size_ok(s@),
        r is Some ==> r->0 as int == decimal_value(digits_of(s@)),
{
    let offset: usize = if s.len() > 0 && s[0] == 0x2b {
        1
    } else {
        0
    };
    let ghost d = digits_of(s@);
    proof {
        assert(d.len() == s@.len() - offset);
        assert(forall|j: int| 0 <= j < d.len() ==> d[j] == s@[offset + j]);
    }
    if s.len() == offset {
        return None;
    }
    let mut acc: u64 = 0;
    let mut i: usize = offset;
    while i < s.len()
        invariant
            offset <= i <= s.len(),
            d == digits_of(s@),
            d.len() == s@.len() - offset,
            forall|j: int| 0 <= j < d.len() ==> d[j] == s@[offset + j],
            all_digits(d.take(i - offset)),
            acc as int == decimal_value(d.take(i - offset)),
        decreases s.len() - i,
    {
        let b = s[i];
        if b < 0x30 || 0x39 < b {
            assert(!is_ascii_digit(d[i - offset]));
            return None;
        }
        proof {
            assert(d.take(i - offset + 1).drop_last() =~= d.take(i - offset));
            assert(d.take(i - offset + 1).last() == d[i - offset]);
            assert(d[i - offset] == s@[i as int]);
            assert(decimal_value(d.take(i - offset + 1)) == acc * 10 + (b - 0x30));
        }
        let shifted = match acc.checked_mul(10) {
            Some(v) => v,
            None => {
                proof {
                    if all_digits(d) {
                        lemma_decimal_prefix_bound(d, i - offset + 1);
                    }
                }
                return None;
            },
        };
        acc = match shifted.checked_add(b as u64 - 0x30) {
            Some(v) => v,
            None => {
                proof {
                    if all_digits(d) {
                        lemma_decimal_prefix_bound(d, i - offset + 1);
                    }
                }
                return None;
            },
        };
        i = i + 1;
    }
    assert(d.take(i - offset) =~= d);
    Some(acc)
}

/// The sum of the declared sizes of a list of content entries.
pub open spec fn sizes_sum(cs: Seq<ContentEntry>) -> int
    decreases cs.len(),
{
    if cs.len() == 0 {
        0
    } else {
        sizes_sum(cs.drop_last()) + decimal_value(digits_of(cs.last().declared_size@))
    }
}

pub open spec fn all_sizes_ok(cs: Seq<ContentEntry>) -> bool {
    forall|i: int| 0 <= i < cs.len() ==> size_ok((#[trigger] cs[i]).declared_size@)
}

proof fn lemma_sizes_sum_nonneg(cs: Seq<ContentEntry>)
    requires
        all_sizes_ok(cs),
    ensures
        sizes_sum(cs) >= 0,
    decreases cs.len(),
{
    if cs.len() > 0 {
        assert(all_sizes_ok(cs.drop_last()));
        lemma_sizes_sum_nonneg(cs.drop_last());
        lemma_decimal_nonneg(digits_of(cs.last().declared_size@));
    }
}

/// A well-formed prefix of the entries never sums past the whole sum.
proof fn lemma_sizes_sum_prefix_bound(cs: Seq<ContentEntry>, i: int)
    requires
        all_sizes_ok(cs),
        0 <= i <= cs.len(),
    ensures
        sizes_sum(cs.take(i)) <= sizes_sum(cs),
    decreases cs.len() - i,
{
    if i < cs.len() {
        lemma_sizes_sum_prefix_bound(cs, i + 1);
        assert(cs.take(i + 1).drop_last() =~= cs.take(i));
        assert(all_sizes_ok(cs.take(i + 1)));
        lemma_decimal_nonneg(digits_of(cs[i].declared_size@));
        assert(sizes_sum(cs.take(i)) <= sizes_sum(cs.take(i + 1)));
    } else {
        assert(cs.take(i) =~= cs);
    }
}

/// Sums the declared sizes of every content entry. Succeeds exactly when
/// every declared size is a well-formed decimal and the sum fits in 64 bits;
/// a malformed size and an overflowing sum are both size faults.
pub fn total_declared_size(contents: &Vec<ContentEntry>) -> (r: Result<u64, PlanError>)
    ensures
        r is Ok <==> (all_sizes_ok(contents@) && sizes_sum(contents@) <= u64::MAX),
        r is Ok ==> r->Ok_0 as int == sizes_sum(contents@),
        r is Err ==> r->Err_0 == PlanError::InvalidSize,
{
    let mut acc: u64 = 0;
    let mut i: usize = 0;
    while i < contents.len()
        invariant
            0 <= i <= contents.len(),
            all_sizes_ok(contents@.take(i as int)),
            acc as int == sizes_sum(contents@.take(i as int)),
        decreases contents.len() - i,
    {
        let v = match parse_decimal(&contents[i].declared_size) {
            Some(v) => v,
            None => {
                assert(!size_ok(contents@[i as int].declared_size@));
                return Err(PlanError::InvalidSize);
            },
        };
        assert(contents@.take(i + 1).drop_last() =~= contents@.take(i as int));
        acc = match acc.checked_add(v) {
            Some(n) => n,
            None => {
                proof {
                    if all_sizes_ok(contents@) {
                        lemma_sizes_sum_prefix_bound(contents@, i + 1);
                    }
                }
                return Err(PlanError::InvalidSize);
            },
        };
        i = i + 1;
    }
    assert(contents@.take(i as int) =~= contents@);
    Ok(acc)
}

/// Copies a byte string.
pub fn clone_bytes(v: &Vec<u8>) -> (r: Vec<u8>)
    ensures
        r@ == v@,
{
    let mut r: Vec<u8> = Vec::new();
    let mut i: usize = 0;
    while i < v.len()
        invariant
            0 <= i <= v.len(),
            r@ == v@.take(i as int),
        decreases v.len() - i,
    {
        r.push(v[i]);
        assert(r@ =~= v@.take(i + 1));
        i = i + 1;
    }
    assert(v@.take(i as int) =~= v@);
    r
}

/// Whether two byte strings hold the same bytes.
pub fn bytes_eq(a: &Vec<u8>, b: &Vec<u8>) -> (r: bool)
    ensures
        r == (a@ == b@),
{
    if a.len() != b.len() {
        assert(a@ != b@);
        return false;
    }
    let mut i: usize = 0;
    while i < a.len()
        invariant
            0 <= i <= a.len(),
            a.len() == b.len(),
            forall|j: int| 0 <= j < i ==> a@[j] == b@[j],
        decreases a.len() - i,
    {
        if a[i] != b[i] {
            return false;
        }
        i = i + 1;
    }
    assert(a@ =~= b@);
    true
}

/// What a correct plan promises of every planned file.
pub open spec fn plan_matches(files: Seq<PlannedFile>, contents: Seq<ContentEntry>) -> bool {
    &&& files.len() == contents.len()
    &&& forall|i: int|
        0 <= i < files.len() ==> (#[trigger] files[i]).file_name@ == contents[i].file_name@
    &&& forall|i: int|
        0 <= i < files.len() ==> (#[trigger] files[i]).size as int == decimal_value(
            digits_of(contents[i].declared_size@),
        )
    &&& forall|i: int|
        0 <= i < files.len() ==> (#[trigger] files[i]).url == if contents.len() == 1 {
            UrlKind::Whole
        } else {
            UrlKind::Part { index: (i + 1) as usize }
        }
}

/// Plans the download of one item from its detail query response.
///
/// Fails when the response holds no record or more than one, or when some
/// declared size is malformed or the total does not fit in 64 bits; the two
/// faults are told apart, and the detail-count check comes first. On
/// success, the plan lists every content entry in order, with its parsed
/// size and its request shape: the whole-product request for a
/// single-content item, the numbered-part request otherwise.
pub fn plan_download(details: &Vec<ItemDetail>) -> (r: Result<DownloadPlan, PlanError>)
    ensures
        r is Err && r->Err_0 == PlanError::DetailMissingOrNotUnique <==> details.len() != 1,
        r is Err && r->Err_0 == PlanError::InvalidSize <==> (details.len() == 1 && !(
        all_sizes_ok(details[0].contents@) && sizes_sum(details[0].contents@) <= u64::MAX)),
        r is Ok ==> {
            &&& r->Ok_0.total_size as int == sizes_sum(details[0].contents@)
            &&& plan_matches(r->Ok_0.files@, details[0].contents@)
        },
{
    if details.len() != 1 {
        return Err(PlanError::DetailMissingOrNotUnique);
    }
    let contents = &details[0].contents;
    let total_size = match total_declared_size(contents) {
        Ok(v) => v,
        Err(e) => {
            return Err(e);
        },
    };
    let single = contents.len() == 1;
    let mut files: Vec<PlannedFile> = Vec::new();
    let mut i: usize = 0;
    while i < contents.len()
        invariant
            0 <= i <= contents.len(),
            files.len() == i,
            single == (contents.len() == 1),
            all_sizes_ok(contents@),
            forall|j: int|
                0 <= j < i ==> (#[trigger] files@[j]).file_name@ == contents@[j].file_name@,
            forall|j: int|
                0 <= j < i ==> (#[trigger] files@[j]).size as int == decimal_value(
                    digits_of(contents@[j].declared_size@),
                ),
            forall|j: int|
                0 <= j < i ==> (#[trigger] files@[j]).url == if contents@.len() == 1 {
                    UrlKind::Whole
                } else {
                    UrlKind::Part { index: (j + 1) as usize }
                },
        decreases contents.len() - i,
    {
        let size = match parse_decimal(&contents[i].declared_size) {
            Some(v) => v,
            None => {
                // Unreachable: every size was already checked by the sum.
                return Err(PlanError::InvalidSize);
            },
        };
        let url = if single {
            UrlKind::Whole
        } else {
            UrlKind::Part { index: i + 1 }
        };
        files.push(PlannedFile { file_name: clone_bytes(&contents[i].file_name), size, url });
        i = i + 1;
    }
    Ok(DownloadPlan { total_size, files })
}

} // verus!
