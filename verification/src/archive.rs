//! The archive stage: which entries of an archive to extract, and how far
//! the extraction has come.
//!
//! An archive is extracted into the directory beside it that is named after
//! it. An entry whose file is already there with exactly the entry's size is
//! not extracted again. The caller reads the archive and writes the files;
//! this module decides.

use crate::job::JobState;
use crate::path::{join_path, spec_join_path};
use vstd::prelude::*;

verus! {

/// One entry of an archive: its name, the size of its content once
/// extracted, and whether it has content at all.
#[derive(Debug, Clone, PartialEq, Eq)]
pub struct ArchiveEntry {
    pub name: String,
    pub size: u64,
    pub has_stream: bool,
}

/// Whether an entry of `size` bytes is extracted, where `existing` is the
/// length of the file that is already at its destination, if there is one.
pub open spec fn needs_extraction(size: u64, existing: Option<u64>) -> bool {
    existing != Some(size)
}

/// The sizes of the entries that have content, added up.
pub open spec fn total_size_spec(entries: Seq<ArchiveEntry>) -> nat
    decreases entries.len(),
{
    if entries.len() == 0 {
        0
    } else {
        let last = entries.last();
        total_size_spec(entries.drop_last()) + if last.has_stream {
            last.size as nat
        } else {
            0
        }
    }
}

/// How much of `total` is `done`, in whole percent, never above 100.
/// Nothing of nothing is 0 percent.
pub open spec fn percent_spec(done: u64, total: u64) -> u8 {
    if total == 0 {
        0
    } else if done >= total {
        100
    } else {
        ((done * 100) / (total as int)) as u8
    }
}

/// The length of the file that is already at the destination of the `i`-th
/// entry: an entry beyond the list has no file.
pub open spec fn existing_at(existing: Seq<Option<u64>>, i: int) -> Option<u64> {
    if 0 <= i < existing.len() {
        existing[i]
    } else {
        None
    }
}

/// For each entry, whether it is extracted.
pub open spec fn plan_spec(entries: Seq<ArchiveEntry>, existing: Seq<Option<u64>>) -> Seq<bool> {
    Seq::new(entries.len(), |i: int| needs_extraction(entries[i].size, existing_at(existing, i)))
}

/// The total grows with the entries.
pub proof fn lemma_total_size_prefix(entries: Seq<ArchiveEntry>, k: int)
    requires
        0 <= k <= entries.len(),
    ensures
        total_size_spec(entries.take(k)) <= total_size_spec(entries),
    decreases entries.len() - k,
{
    if k == entries.len() {
        assert(entries.take(k) == entries);
    } else {
        assert(entries.take(k + 1).drop_last() == entries.take(k));
        lemma_total_size_prefix(entries, k + 1);
    }
}

/// Whether the entry of `size` bytes is extracted: it is, unless a file of
/// exactly that size is already at its destination.
pub fn should_extract(size: u64, existing: Option<u64>) -> (r: bool)
    ensures
        r == needs_extraction(size, existing),
{
    match existing {
        Some(len) => len != size,
        None => true,
    }
}

/// For each entry of an archive, whether it is extracted. `existing` holds,
/// for each entry, the length of the file already at its destination; an
/// entry that it does not reach is taken to have no file.
pub fn extraction_plan(entries: &Vec<ArchiveEntry>, existing: &Vec<Option<u64>>) -> (plan: Vec<
    bool,
>)
    ensures
        plan@ == plan_spec(entries@, existing@),
{
    let mut plan: Vec<bool> = Vec::new();
    let mut i: usize = 0;
    while i < entries.len()
        invariant
            i <= entries.len(),
            plan@ == plan_spec(entries@, existing@).take(i as int),
        decreases entries.len() - i,
    {
        let found: Option<u64> = if i < existing.len() {
            existing[i]
        } else {
            None
        };
        plan.push(should_extract(entries[i].size, found));
        assert(plan@ =~= plan_spec(entries@, existing@).take(i + 1));
        i += 1;
    }
    assert(plan_spec(entries@, existing@).take(entries.len() as int) == plan_spec(
        entries@,
        existing@,
    ));
    plan
}

/// The number of bytes that the archive's entries hold once extracted;
/// `None` where that number is beyond 64 bits.
pub fn total_size(entries: &Vec<ArchiveEntry>) -> (r: Option<u64>)
    ensures
        match r {
            Some(n) => n as nat == total_size_spec(entries@),
            None => total_size_spec(entries@) > u64::MAX,
        },
{
    let mut sum: u64 = 0;
    let mut i: usize = 0;
    assert(entries@.take(0) == Seq::<ArchiveEntry>::empty());
    while i < entries.len()
        invariant
            i <= entries.len(),
            sum as nat == total_size_spec(entries@.take(i as int)),
        decreases entries.len() - i,
    {
        assert(entries@.take(i + 1).drop_last() == entries@.take(i as int));
        assert(entries@.take(i + 1).last() == entries@[i as int]);
        if entries[i].has_stream {
            if entries[i].size > u64::MAX - sum {
                proof {
                    lemma_total_size_prefix(entries@, i + 1);
                }
                return None;
            }
            sum = sum + entries[i].size;
        }
        i += 1;
    }
    assert(entries@.take(entries.len() as int) == entries@);
    Some(sum)
}

/// How much of `total` is `done`, in whole percent.
pub fn percent(done: u64, total: u64) -> (p: u8)
    ensures
        p == percent_spec(done, total),
        p <= 100,
{
    if total == 0 {
        0
    } else if done >= total {
        100
    } else {
        let scaled: u128 = (done as u128) * 100;
        let q: u128 = scaled / (total as u128);
        assert(q < 100) by (nonlinear_arith)
            requires
                q == (done * 100) / (total as int),
                done < total,
                total > 0,
        ;
        q as u8
    }
}

/// Where an entry is extracted to: its name inside the destination
/// directory.
pub fn entry_destination(dest: &str, entry: &ArchiveEntry) -> (r: String)
    ensures
        r@ == spec_join_path(dest@, entry.name@),
{
    join_path(dest, entry.name.as_str())
}

/// How far an extraction has come.
#[derive(Debug, Clone, Copy, PartialEq, Eq, Structural)]
pub struct Extraction {
    pub written: u64,
    pub total: u64,
}

impl Extraction {
    /// An extraction of `total` bytes of which nothing is written yet.
    pub fn new(total: u64) -> (e: Extraction)
        ensures
            e == (Extraction { written: 0, total }),
    {
        Extraction { written: 0, total }
    }

    /// Counts `len` more bytes as written; the count stops at the greatest
    /// 64-bit number.
    pub fn on_bytes(&mut self, len: u64)
        ensures
            final(self).total == old(self).total,
            final(self).written == crate::download::saturating_sum(old(self).written, len),
    {
        self.written = if len > u64::MAX - self.written {
            u64::MAX
        } else {
            self.written + len
        };
    }

    /// The job state that shows this extraction.
    pub fn state(&self) -> (s: JobState)
        ensures
            s == (JobState::Unzipping { percent: percent_spec(self.written, self.total) }),
    {
        JobState::Unzipping { percent: percent(self.written, self.total) }
    }
}

/// Idempotent extraction. An entry whose file is already at its destination
/// with exactly the entry's size is left out of the plan, wherever it stands
/// in the archive; every other entry is in it.
pub proof fn lemma_extraction_idempotent(
    entries: Seq<ArchiveEntry>,
    existing: Seq<Option<u64>>,
    i: int,
)
    requires
        0 <= i < entries.len(),
    ensures
        existing_at(existing, i) == Some(entries[i].size) ==> !plan_spec(entries, existing)[i],
        existing_at(existing, i) != Some(entries[i].size) ==> plan_spec(entries, existing)[i],
        needs_extraction(entries[i].size, Some(entries[i].size)) == false,
{
}

} // verus!
