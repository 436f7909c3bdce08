//! Capacity management of the paste directory: which files to evict, oldest
//! first, before a new paste is written.

use vstd::prelude::*;

verus! {

/// The largest size a single file can report.
pub const MAX_FILE_SIZE: u128 = 0xffff_ffff_ffff_ffff;

/// What eviction reads of a stored paste: its position in the directory
/// listing it came from, when it was created (nanoseconds since the Unix
/// epoch, zero where the platform cannot tell) and its size in bytes.
#[derive(Clone, Copy, Debug, PartialEq, Eq, Structural)]
pub struct StoredFile {
    pub index: usize,
    pub created: u128,
    pub size: u64,
}

/// The total size of a list of files.
pub open spec fn total_size(files: Seq<StoredFile>) -> nat
    decreases files.len(),
{
    if files.len() == 0 {
        0
    } else {
        files[0].size as nat + total_size(files.drop_first())
    }
}

/// Files ordered by creation time, oldest first.
pub open spec fn oldest_first(files: Seq<StoredFile>) -> bool {
    forall|i: int, j: int| 0 <= i < j < files.len() ==> files[i].created <= files[j].created
}

/// How many files, taken from the front of `files`, must go so that the rest
/// plus `incoming` bytes stays below `capacity`; all of them where no smaller
/// number does.
pub open spec fn evict_count(files: Seq<StoredFile>, incoming: int, capacity: int) -> nat
    decreases files.len(),
{
    if files.len() == 0 || total_size(files) + incoming < capacity {
        0
    } else {
        1 + evict_count(files.drop_first(), incoming, capacity)
    }
}

/// What the eviction count gives: it is at most the number of files, the
/// files left after it fit with `incoming` below `capacity` unless none is
/// left, and any shorter prefix would have left too much.
proof fn lemma_evict_count_least(files: Seq<StoredFile>, incoming: int, capacity: int)
    ensures
        evict_count(files, incoming, capacity) <= files.len(),
        evict_count(files, incoming, capacity) == files.len() || total_size(
            files.skip(evict_count(files, incoming, capacity) as int),
        ) + incoming < capacity,
        forall|j: int|
            0 <= j < evict_count(files, incoming, capacity) ==> total_size(#[trigger] files.skip(j))
                + incoming >= capacity,
    decreases files.len(),
{
    assert(files.skip(0) =~= files);
    if files.len() == 0 || total_size(files) + incoming < capacity {
    } else {
        let rest = files.drop_first();
        lemma_evict_count_least(rest, incoming, capacity);
        let k = evict_count(files, incoming, capacity) as int;
        assert(files.skip(k) =~= rest.skip(k - 1));
        assert forall|j: int| 0 <= j < k implies total_size(#[trigger] files.skip(j)) + incoming
            >= capacity by {
            if j > 0 {
                assert(files.skip(j) =~= rest.skip(j - 1));
            }
        }
    }
}

/// Eviction over files ordered oldest first removes the oldest ones: every
/// file evicted is at least as old as every file kept. It stops as soon as
/// the files kept plus the incoming paste stay below the capacity, and
/// otherwise goes on until no file remains.
pub proof fn lemma_evicts_oldest_first(files: Seq<StoredFile>, incoming: int, capacity: int)
    requires
        oldest_first(files),
    ensures
        ({
            let k = evict_count(files, incoming, capacity) as int;
            &&& k <= files.len()
            &&& k == files.len() || total_size(files.skip(k)) + incoming < capacity
            &&& forall|j: int| 0 <= j < k ==> total_size(#[trigger] files.skip(j)) + incoming >= capacity
            &&& forall|i: int, j: int|
                0 <= i < k <= j < files.len() ==> files[i].created <= files[j].created
        }),
{
    lemma_evict_count_least(files, incoming, capacity);
}

/// Once the planned files are deleted and the new paste is written, the
/// directory holds less than the capacity, or the new paste alone: the
/// capacity is exceeded by no more than the size of that paste.
pub proof fn lemma_capacity_bound(files: Seq<StoredFile>, incoming: nat, capacity: nat)
    ensures
        ({
            let kept = files.skip(evict_count(files, incoming as int, capacity as int) as int);
            &&& total_size(kept) + incoming < capacity || kept.len() == 0
            &&& total_size(kept) + incoming <= capacity + incoming
        }),
{
    lemma_evict_count_least(files, incoming as int, capacity as int);
}

/// The decision of one eviction pass: the files ordered oldest first, and how
/// many of them, from the front, are to be deleted.
pub struct PrunePlan {
    pub ordered: Vec<StoredFile>,
    pub evict: usize,
}

/// Relies on `slice::sort_by_key`: the same files, ordered by creation time.
#[verifier::external_body]
fn sort_by_creation(files: &mut Vec<StoredFile>)
    ensures
        final(files)@.to_multiset() == old(files)@.to_multiset(),
        oldest_first(final(files)@),
{
    files.sort_by_key(|f| f.created)
}

/// The total size of `files`, which a `u128` always holds.
pub fn total_size_of(files: &Vec<StoredFile>) -> (r: u128)
    ensures
        r == total_size(files@),
        r <= files@.len() * MAX_FILE_SIZE,
{
    let n = files.len();
    let mut total: u128 = 0;
    let mut i: usize = n;
    while i > 0
        invariant
            i <= n,
            n == files@.len(),
            total == total_size(files@.subrange(i as int, n as int)),
            total <= (n - i) * MAX_FILE_SIZE,
        decreases i,
    {
        i -= 1;
        assert(files@.subrange(i as int, n as int).drop_first() =~= files@.subrange(
            i as int + 1,
            n as int,
        ));
        total = total + files[i].size as u128;
    }
    assert(files@.subrange(0, n as int) =~= files@);
    total
}

/// How many of `files`, from the front, must be deleted before a file of
/// `new_file_size` bytes is written under `capacity`.
pub fn eviction_count(files: &Vec<StoredFile>, new_file_size: u64, capacity: u64) -> (k: usize)
    ensures
        k == evict_count(files@, new_file_size as int, capacity as int),
{
    let ghost s = files@;
    let ghost inc = new_file_size as int;
    let ghost cap = capacity as int;
    let n = files.len();
    let mut remaining = total_size_of(files);
    let mut k: usize = 0;
    assert(s.subrange(0, n as int) =~= s);
    while k < n && remaining + new_file_size as u128 >= capacity as u128
        invariant
            k <= n,
            n == s.len(),
            s == files@,
            inc == new_file_size as int,
            cap == capacity as int,
            remaining == total_size(s.subrange(k as int, n as int)),
            remaining <= n * MAX_FILE_SIZE,
            evict_count(s, inc, cap) == k + evict_count(s.subrange(k as int, n as int), inc, cap),
        decreases n - k,
    {
        let ghost rest = s.subrange(k as int, n as int);
        assert(rest.drop_first() =~= s.subrange(k as int + 1, n as int));
        assert(evict_count(rest, inc, cap) == 1 + evict_count(rest.drop_first(), inc, cap));
        remaining = remaining - files[k].size as u128;
        k += 1;
    }
    assert(evict_count(s.subrange(k as int, n as int), inc, cap) == 0);
    k
}

/// Plans the eviction that makes room for a new paste of `new_file_size`
/// bytes: the stored files are ordered oldest first, and files are taken from
/// the front until the rest plus the new paste stays below `capacity`, or no
/// file is left. A new paste that alone reaches `capacity` evicts every file.
pub fn maybe_prune_oldest(files: Vec<StoredFile>, new_file_size: u64, capacity: u64) -> (r:
    PrunePlan)
    ensures
        r.ordered@.to_multiset() == files@.to_multiset(),
        oldest_first(r.ordered@),
        r.evict == evict_count(r.ordered@, new_file_size as int, capacity as int),
{
    let mut ordered = files;
    sort_by_creation(&mut ordered);
    let evict = eviction_count(&ordered, new_file_size, capacity);
    PrunePlan { ordered, evict }
}

} // verus!
