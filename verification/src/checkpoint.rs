use vstd::prelude::*;
use vstd::string::StrSliceExecFns;
use vstd::string::StringExecFns;

use crate::manifest::ManifestEntry;

verus! {

/// The sole persisted cross-run state: the index of the last manifest entry
/// whose package was fully applied. Written after every successful apply
/// step, read once at the start of a run.
#[derive(Clone, Copy, PartialEq, Eq, Structural)]
pub struct CheckpointRecord {
    pub last_applied_index: u64,
}

/// Holds of the entries that a checkpoint leaves still to apply.
pub open spec fn newer_than(c: CheckpointRecord) -> spec_fn(ManifestEntry) -> bool {
    |e: ManifestEntry| e.index > c.last_applied_index
}

/// True when some manifest entry carries exactly the checkpointed index, so
/// the checkpoint refers to this manifest generation and not a stale one.
pub open spec fn checkpoint_matches(m: Seq<ManifestEntry>, c: CheckpointRecord) -> bool {
    exists|i: int| 0 <= i < m.len() && m[i].index == c.last_applied_index
}

/// What filtering a manifest against a previously stored checkpoint yields:
/// if the checkpoint's index occurs in the manifest, only the strictly newer
/// entries remain, in their original order; otherwise nothing is assumed
/// applied and the manifest passes through unchanged.
pub open spec fn filter_spec(
    m: Seq<ManifestEntry>,
    checkpoint: Option<CheckpointRecord>,
) -> Seq<ManifestEntry> {
    match checkpoint {
        Option::None => m,
        Option::Some(c) => if checkpoint_matches(m, c) {
            m.filter(newer_than(c))
        } else {
            m
        },
    }
}

fn clone_entries(manifest: &Vec<ManifestEntry>) -> (r: Vec<ManifestEntry>)
    ensures
        r@ == manifest@,
{
    let mut out: Vec<ManifestEntry> = Vec::new();
    let mut i: usize = 0;
    while i < manifest.len()
        invariant
            0 <= i <= manifest.len(),
            out@ == manifest@.subrange(0, i as int),
        decreases manifest.len() - i,
    {
        out.push(manifest[i].clone());
        proof {
            assert(out@ =~= manifest@.subrange(0, i + 1 as int));
        }
        i = i + 1;
    }
    proof {
        assert(manifest@.subrange(0, manifest@.len() as int) =~= manifest@);
    }
    out
}

fn contains_index(manifest: &Vec<ManifestEntry>, idx: u64) -> (r: bool)
    ensures
        r == exists|j: int| 0 <= j < manifest@.len() && manifest@[j].index == idx,
{
    let mut found: bool = false;
    let mut i: usize = 0;
    while i < manifest.len()
        invariant
            0 <= i <= manifest.len(),
            found == exists|j: int| 0 <= j < i && manifest@[j].index == idx,
        decreases manifest.len() - i,
    {
        if manifest[i].index == idx {
            found = true;
        }
        i = i + 1;
    }
    found
}

/// Drops from `manifest` every entry already covered by `checkpoint`,
/// when the checkpoint's index occurs in the manifest; otherwise (absent or
/// stale checkpoint) yields the manifest unchanged.
pub fn filter_manifest(
    manifest: &Vec<ManifestEntry>,
    checkpoint: &Option<CheckpointRecord>,
) -> (r: Vec<ManifestEntry>)
    ensures
        r@ == filter_spec(manifest@, *checkpoint),
{
    let c = match checkpoint {
        Option::None => {
            return clone_entries(manifest);
        },
        Option::Some(c) => *c,
    };
    if !contains_index(manifest, c.last_applied_index) {
        assert(!checkpoint_matches(manifest@, c));
        return clone_entries(manifest);
    }
    assert(checkpoint_matches(manifest@, c));
    let ghost pred = newer_than(c);
    let mut out: Vec<ManifestEntry> = Vec::new();
    let mut k: usize = 0;
    proof {
        assert(manifest@.subrange(0, 0) =~= Seq::<ManifestEntry>::empty());
        reveal(Seq::filter);
    }
    while k < manifest.len()
        invariant
            0 <= k <= manifest.len(),
            pred == newer_than(c),
            out@ == manifest@.subrange(0, k as int).filter(pred),
        decreases manifest.len() - k,
    {
        proof {
            assert(manifest@.subrange(0, k + 1 as int).drop_last() =~= manifest@.subrange(
                0,
                k as int,
            ));
            assert(manifest@.subrange(0, k + 1 as int).last() == manifest@[k as int]);
            reveal(Seq::filter);
        }
        if manifest[k].index > c.last_applied_index {
            out.push(manifest[k].clone());
        }
        k = k + 1;
    }
    proof {
        assert(manifest@.subrange(0, manifest@.len() as int) =~= manifest@);
    }
    out
}

/// Law: when some entry of `m` carries the checkpointed index, the filtered
/// manifest is exactly the subsequence of `m` whose indices are strictly
/// greater than the checkpoint, order preserved.
pub proof fn lemma_filter_with_matching_checkpoint(m: Seq<ManifestEntry>, c: CheckpointRecord)
    requires
        checkpoint_matches(m, c),
    ensures
        filter_spec(m, Some(c)) == m.filter(newer_than(c)),
{
}

/// Law: when no entry of `m` carries the checkpointed index (a stale or
/// rotated manifest generation), filtering leaves the manifest unchanged.
pub proof fn lemma_filter_with_stale_checkpoint(m: Seq<ManifestEntry>, c: CheckpointRecord)
    requires
        !checkpoint_matches(m, c),
    ensures
        filter_spec(m, Some(c)) == m,
{
}

/// Law: with no checkpoint at all, filtering leaves the manifest unchanged.
pub proof fn lemma_filter_without_checkpoint(m: Seq<ManifestEntry>)
    ensures
        filter_spec(m, None) == m,
{
}

proof fn lemma_filter_all_false(s: Seq<ManifestEntry>, pred: spec_fn(ManifestEntry) -> bool)
    requires
        forall|i: int| 0 <= i < s.len() ==> !pred(s[i]),
    ensures
        s.filter(pred) == Seq::<ManifestEntry>::empty(),
    decreases s.len(),
{
    reveal(Seq::filter);
    if s.len() > 0 {
        lemma_filter_all_false(s.drop_last(), pred);
    }
}

proof fn lemma_filter_suffix(m: Seq<ManifestEntry>, c: CheckpointRecord, k: int)
    requires
        0 <= k < m.len(),
        forall|i: int, j: int| 0 <= i < j < m.len() ==> m[i].index < m[j].index,
        c.last_applied_index == m[k].index,
    ensures
        m.filter(newer_than(c)) == m.subrange(k + 1, m.len() as int),
    decreases m.len(),
{
    reveal(Seq::filter);
    if k == m.len() - 1 {
        assert(!(newer_than(c)(m.last())));
        assert forall|i: int| 0 <= i < m.drop_last().len() implies !(newer_than(c)(
            m.drop_last()[i],
        )) by {
            assert(m.drop_last()[i] == m[i]);
            assert(m[i].index < m[k].index);
        }
        lemma_filter_all_false(m.drop_last(), newer_than(c));
        assert(m.filter(newer_than(c)) =~= m.subrange(k + 1, m.len() as int));
    } else {
        assert(m[k].index < m[m.len() - 1].index);
        assert(newer_than(c)(m.last()));
        let d = m.drop_last();
        assert(d[k] == m[k]);
        lemma_filter_suffix(d, c, k);
        assert(m.filter(newer_than(c)) == d.filter(newer_than(c)).push(m.last()));
        assert(d.subrange(k + 1, d.len() as int).push(m.last()) =~= m.subrange(
            k + 1,
            m.len() as int,
        ));
    }
}

/// Law: against a manifest whose indices ascend strictly, a checkpoint equal
/// to entry `k`'s index leaves exactly the entries after `k` to run next, in
/// order — an interrupted or failed run resumes precisely where it stopped.
pub proof fn lemma_resume_skips_applied_prefix(m: Seq<ManifestEntry>, c: CheckpointRecord, k: int)
    requires
        0 <= k < m.len(),
        forall|i: int, j: int| 0 <= i < j < m.len() ==> m[i].index < m[j].index,
        c.last_applied_index == m[k].index,
    ensures
        filter_spec(m, Some(c)) == m.subrange(k + 1, m.len() as int),
{
    assert(checkpoint_matches(m, c));
    lemma_filter_suffix(m, c, k);
}

/// Law: a manifest whose indices ascend strictly, filtered against the
/// checkpoint a completed run leaves behind (the last entry's index), is
/// empty — so an immediately repeated run has nothing to download or apply.
pub proof fn lemma_rerun_after_completed_run_is_empty(m: Seq<ManifestEntry>, c: CheckpointRecord)
    requires
        m.len() > 0,
        forall|i: int, j: int| 0 <= i < j < m.len() ==> m[i].index < m[j].index,
        c.last_applied_index == m[m.len() - 1].index,
    ensures
        filter_spec(m, Some(c)) == Seq::<ManifestEntry>::empty(),
{
    assert(m[m.len() - 1].index == c.last_applied_index);
    assert(checkpoint_matches(m, c));
    assert forall|i: int| 0 <= i < m.len() implies !(newer_than(c)(m[i])) by {
        if i < m.len() - 1 {
            assert(m[i].index < m[m.len() - 1].index);
        }
    }
    lemma_filter_all_false(m, newer_than(c));
}

/// Byte `i` of the checkpoint record's on-disk form: the index as eight
/// little-endian bytes.
pub open spec fn checkpoint_byte(x: u64, i: int) -> u8 {
    ((x >> ((8 * i) as u64)) & 0xff) as u8
}

pub open spec fn checkpoint_bytes(x: u64) -> Seq<u8> {
    Seq::new(8, |i: int| checkpoint_byte(x, i))
}

/// The index an eight-byte record holds.
pub open spec fn checkpoint_value(b: Seq<u8>) -> u64 {
    (b[0] as u64) | ((b[1] as u64) << 8) | ((b[2] as u64) << 16) | ((b[3] as u64) << 24) | ((
    b[4] as u64) << 32) | ((b[5] as u64) << 40) | ((b[6] as u64) << 48) | ((b[7] as u64) << 56)
}

/// Serializes a checkpoint record for persistence: its index as eight
/// little-endian bytes.
pub fn encode_checkpoint(record: &CheckpointRecord) -> (out: Vec<u8>)
    ensures
        out@ == checkpoint_bytes(record.last_applied_index),
{
    let x = record.last_applied_index;
    proof {
        assert((x >> 0u64) & 0xff < 256 && (x >> 8u64) & 0xff < 256 && (x >> 16u64) & 0xff < 256
            && (x >> 24u64) & 0xff < 256 && (x >> 32u64) & 0xff < 256 && (x >> 40u64) & 0xff < 256
            && (x >> 48u64) & 0xff < 256 && (x >> 56u64) & 0xff < 256) by (bit_vector);
    }
    let mut out: Vec<u8> = Vec::new();
    out.push(((x >> 0u64) & 0xff) as u8);
    out.push(((x >> 8u64) & 0xff) as u8);
    out.push(((x >> 16u64) & 0xff) as u8);
    out.push(((x >> 24u64) & 0xff) as u8);
    out.push(((x >> 32u64) & 0xff) as u8);
    out.push(((x >> 40u64) & 0xff) as u8);
    out.push(((x >> 48u64) & 0xff) as u8);
    out.push(((x >> 56u64) & 0xff) as u8);
    proof {
        assert(out@ =~= checkpoint_bytes(x));
    }
    out
}

/// Reads a persisted checkpoint record back. Anything but exactly eight
/// bytes is treated as corruption and reads as "no checkpoint"; the caller
/// continues as if nothing had been applied.
pub fn decode_checkpoint(bytes: &[u8]) -> (r: Option<CheckpointRecord>)
    ensures
        bytes@.len() == 8 ==> r == Option::Some(
            (CheckpointRecord { last_applied_index: checkpoint_value(bytes@) }),
        ),
        bytes@.len() != 8 ==> r is None,
{
    if bytes.len() != 8 {
        return Option::None;
    }
    let x: u64 = (bytes[0] as u64) | ((bytes[1] as u64) << 8u64) | ((bytes[2] as u64) << 16u64) | (
    (bytes[3] as u64) << 24u64) | ((bytes[4] as u64) << 32u64) | ((bytes[5] as u64) << 40u64) | ((
    bytes[6] as u64) << 48u64) | ((bytes[7] as u64) << 56u64);
    Option::Some(CheckpointRecord { last_applied_index: x })
}

/// Law: decoding an encoded record yields the record back — a checkpoint
/// written after an apply step reads back as written.
pub proof fn lemma_checkpoint_roundtrip(x: u64)
    ensures
        checkpoint_value(checkpoint_bytes(x)) == x,
{
    let b = checkpoint_bytes(x);
    let b0 = b[0];
    let b1 = b[1];
    let b2 = b[2];
    let b3 = b[3];
    let b4 = b[4];
    let b5 = b[5];
    let b6 = b[6];
    let b7 = b[7];
    assert((b0 as u64) | ((b1 as u64) << 8) | ((b2 as u64) << 16) | ((b3 as u64) << 24) | ((
    b4 as u64) << 32) | ((b5 as u64) << 40) | ((b6 as u64) << 48) | ((b7 as u64) << 56) == x)
        by (bit_vector)
        requires
            b0 == ((x >> 0u64) & 0xff) as u8,
            b1 == ((x >> 8u64) & 0xff) as u8,
            b2 == ((x >> 16u64) & 0xff) as u8,
            b3 == ((x >> 24u64) & 0xff) as u8,
            b4 == ((x >> 32u64) & 0xff) as u8,
            b5 == ((x >> 40u64) & 0xff) as u8,
            b6 == ((x >> 48u64) & 0xff) as u8,
            b7 == ((x >> 56u64) & 0xff) as u8,
    ;
}

/// Greatest position in `[1, i]` holding a dot, or `0` when there is none —
/// a dot leading the name does not begin an extension.
pub open spec fn last_dot_from(s: Seq<char>, i: int) -> int
    decreases i,
{
    if i < 1 {
        0
    } else if s[i] == '.' {
        i
    } else {
        last_dot_from(s, i - 1)
    }
}

/// The name with its extension (the part after the last dot, when one is
/// there) removed.
pub open spec fn cache_stem(s: Seq<char>) -> Seq<char> {
    let d = last_dot_from(s, s.len() - 1);
    if d >= 1 {
        s.subrange(0, d)
    } else {
        s
    }
}

/// The checkpoint file's name for a given application name: the name with
/// its extension, if any, replaced by `dat`.
pub open spec fn cache_file_name_spec(name: Seq<char>) -> Seq<char> {
    cache_stem(name) + ".dat"@
}

/// Returns the checkpoint file's path for the externally resolved
/// application name, or `None` when that name could not be resolved.
pub fn get_cache_file_path(patcher_name: Option<String>) -> (r: Option<String>)
    ensures
        match patcher_name {
            Option::Some(n) => match r {
                Option::Some(p) => p@ == cache_file_name_spec(n@),
                Option::None => false,
            },
            Option::None => r is None,
        },
{
    let name = match patcher_name {
        Option::None => {
            return Option::None;
        },
        Option::Some(n) => n,
    };
    let ghost orig: Seq<char> = name@;
    let s = name.as_str();
    let len = s.unicode_len();
    let mut d: usize = 0;
    if len > 0 {
        let mut i: usize = len - 1;
        loop
            invariant_except_break
                0 <= i <= len - 1,
                len == s@.len(),
                len > 0,
                d == 0,
                last_dot_from(s@, (len - 1) as int) == last_dot_from(s@, i as int),
            ensures
                d <= len - 1,
                d == last_dot_from(s@, (len - 1) as int),
            decreases i,
        {
            if i == 0 {
                assert(last_dot_from(s@, 0) == 0);
                break ;
            }
            if s.get_char(i) == '.' {
                assert(last_dot_from(s@, i as int) == i);
                d = i;
                break ;
            }
            i = i - 1;
        }
    }
    if d >= 1 {
        let stem = s.substring_char(0, d);
        let mut out = String::from_str(stem);
        out.append(".dat");
        proof {
            assert(out@ =~= cache_file_name_spec(orig));
        }
        Option::Some(out)
    } else {
        let mut out = name;
        out.append(".dat");
        proof {
            assert(out@ =~= cache_file_name_spec(orig));
        }
        Option::Some(out)
    }
}

} // verus!
