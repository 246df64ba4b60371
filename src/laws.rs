use vstd::prelude::*;
use crate::entry::{Entry, LinkState, Metadata};
use crate::engine::{copy_start, next, start, Action, EntrySync, Event, SyncOptions};
use crate::error::SyncError;
use crate::progress::{lemma_percent_complete, lemma_percent_monotone, percent_of, CHUNK_SIZE};
use crate::staleness::staleness;

verus! {

/// Synchronizing a link twice creates it once: when the first run creates
/// the destination link, the destination as it then stands makes the
/// second run end at once, unchanged, without any filesystem work.
pub proof fn lemma_link_second_run_unchanged(src: Entry, dest: Entry, options: SyncOptions)
    requires
        src.link is Link,
        start(src, dest, options).1 is CreateLink,
    ensures
        ({
            let created = start(src, dest, options).1->CreateLink_target;
            let after = Entry { link: LinkState::Link { target: created }, ..dest };
            start(src, after, options).1 == (Action::Finish { outcome: Ok(false) })
        }),
{
}

/// Synchronizing a file twice copies it once: when the first run copies and
/// the copy leaves the destination modified no earlier than the source, the
/// second run ends at once, unchanged.
pub proof fn lemma_file_second_run_unchanged(
    src: Entry,
    dest: Entry,
    after: Metadata,
    options: SyncOptions,
)
    requires
        start(src, dest, options).1 is OpenSource,
        after.mtime() >= src.metadata->0.mtime(),
    ensures
        src.link is NotLink,
        src.metadata is Some,
        start(src, Entry { metadata: Some(after), ..dest }, options).1 == (Action::Finish {
            outcome: Ok(false),
        }),
{
}

/// A link source and a missing destination: the link is created at the
/// destination with the source's target string, and the entry is changed.
pub proof fn lemma_link_created(src: Entry, dest: Entry, options: SyncOptions)
    requires
        src.link is Link,
        dest.link is Missing,
    ensures
        start(src, dest, options).1 == (Action::CreateLink {
            path: dest.path,
            target: src.link->target,
        }),
        next(start(src, dest, options).0, Event::Done).1 == (Action::Finish { outcome: Ok(true) }),
{
}

/// A destination link to another target, dangling or not, is first removed
/// and then created anew with the source's target; the entry is changed.
pub proof fn lemma_link_replaced(src: Entry, dest: Entry, options: SyncOptions)
    requires
        src.link is Link,
        dest.link is Link,
        dest.link->target@ != src.link->target@,
    ensures
        ({
            let (m1, a1) = start(src, dest, options);
            let (m2, a2) = next(m1, Event::Done);
            &&& a1 == (Action::RemoveLink { path: dest.path })
            &&& a2 == (Action::CreateLink { path: dest.path, target: src.link->target })
            &&& next(m2, Event::Done).1 == (Action::Finish { outcome: Ok(true) })
        }),
{
}

/// A destination that links to the source's target is left alone.
pub proof fn lemma_link_unchanged(src: Entry, dest: Entry, options: SyncOptions)
    requires
        src.link is Link,
        dest.link is Link,
        dest.link->target@ == src.link->target@,
    ensures
        start(src, dest, options).0.phase is Finished,
        start(src, dest, options).1 == (Action::Finish { outcome: Ok(false) }),
{
}

/// A link is never put in place of something that is not a link: the entry
/// fails with a refusal naming the destination, and no action touches it.
pub proof fn lemma_refuses_non_link(src: Entry, dest: Entry, options: SyncOptions)
    requires
        src.link is Link,
        dest.link is NotLink,
    ensures
        start(src, dest, options).0.phase is Finished,
        start(src, dest, options).1 == (Action::Finish {
            outcome: Err(SyncError::RefusedOverwrite { path: dest.path }),
        }),
{
}

/// The total length of a sequence of reads.
pub open spec fn sum_lens(lens: Seq<usize>) -> int
    decreases lens.len(),
{
    if lens.len() == 0 {
        0
    } else {
        lens[0] + sum_lens(lens.drop_first())
    }
}

/// Every read returned between one byte and one chunk.
pub open spec fn chunk_reads(lens: Seq<usize>) -> bool {
    forall|i: int| #![trigger lens[i]] 0 <= i < lens.len() ==> 0 < lens[i] <= CHUNK_SIZE
}

/// The percentage that the `i`-th write of the copy loop reports.
pub open spec fn write_percent(acts: Seq<Action>, i: int) -> int {
    acts[2 * i]->WriteChunk_percent as int
}

/// The `i`-th read of the copy loop is written whole, then the next read is asked for.
pub open spec fn writes_read(acts: Seq<Action>, lens: Seq<usize>, i: int) -> bool {
    &&& acts[2 * i] is WriteChunk
    &&& acts[2 * i]->WriteChunk_len == lens[i]
    &&& acts[2 * i + 1] == Action::ReadChunk
}

/// The copy loop from a reading state: each read of `lens` is answered in
/// turn and each write it asks for succeeds. Gives the state reached, which
/// waits for the next read, and the actions asked for on the way.
pub open spec fn feed(m: EntrySync, lens: Seq<usize>) -> (EntrySync, Seq<Action>)
    decreases lens.len(),
{
    if lens.len() == 0 {
        (m, Seq::empty())
    } else {
        let written = next(m, Event::Read { len: lens[0] });
        let read = next(written.0, Event::Done);
        let rest = feed(read.0, lens.drop_first());
        (rest.0, seq![written.1, read.1] + rest.1)
    }
}

proof fn lemma_sum_lens_nonneg(lens: Seq<usize>)
    ensures
        sum_lens(lens) >= 0,
    decreases lens.len(),
{
    if lens.len() > 0 {
        lemma_sum_lens_nonneg(lens.drop_first());
    }
}

/// The copy loop writes each chunk whole and in the order read, asks for
/// the next read after each write, counts every byte, and reports
/// percentages that never go back and end at that of the bytes counted.
pub proof fn lemma_feed(m: EntrySync, lens: Seq<usize>)
    requires
        m.phase is Reading,
        chunk_reads(lens),
        m.done + sum_lens(lens) <= u64::MAX,
    ensures
        ({
            let (m1, acts) = feed(m, lens);
            &&& m1 == (EntrySync { done: (m.done + sum_lens(lens)) as u64, ..m })
            &&& acts.len() == 2 * lens.len()
            &&& forall|i: int| 0 <= i < lens.len() ==> #[trigger] writes_read(acts, lens, i)
            &&& forall|i: int|
                0 <= i < lens.len() ==> percent_of(m.done as int, m.total as int) <= #[trigger] write_percent(acts, i)
                    <= percent_of(m1.done as int, m.total as int)
            &&& forall|i: int, j: int|
                0 <= i <= j < lens.len() ==> #[trigger] write_percent(acts, i) <= #[trigger] write_percent(acts, j)
            &&& lens.len() > 0 ==> write_percent(acts, lens.len() - 1) == percent_of(
                m1.done as int,
                m.total as int,
            )
        }),
    decreases lens.len(),
{
    if lens.len() > 0 {
        let tail = lens.drop_first();
        lemma_sum_lens_nonneg(tail);
        assert(0 < lens[0] <= CHUNK_SIZE);
        assert(chunk_reads(tail)) by {
            assert forall|i: int| #![trigger tail[i]] 0 <= i < tail.len() implies 0 < tail[i] <= CHUNK_SIZE by {
                assert(tail[i] == lens[i + 1]);
            }
        }
        let written = next(m, Event::Read { len: lens[0] });
        let read = next(written.0, Event::Done);
        let m2 = read.0;
        assert(m2.done == m.done + lens[0]);
        assert(m2.phase is Reading);
        lemma_feed(m2, tail);
        let rest = feed(m2, tail);
        let acts = seq![written.1, read.1] + rest.1;
        let total = m.total as int;
        lemma_percent_monotone(m.done as int, m2.done as int, total);
        lemma_percent_monotone(m2.done as int, rest.0.done as int, total);
        assert(acts[0] == written.1);
        assert(acts[1] == read.1);
        assert(write_percent(acts, 0) == percent_of(m2.done as int, total));
        assert forall|i: int| 1 <= i < lens.len() implies {
            &&& writes_read(acts, lens, i) == writes_read(rest.1, tail, i - 1)
            &&& write_percent(acts, i) == write_percent(rest.1, i - 1)
        } by {
            assert(acts[2 * i] == rest.1[2 * (i - 1)]);
            assert(acts[2 * i + 1] == rest.1[2 * (i - 1) + 1]);
            assert(tail[i - 1] == lens[i]);
        }
        assert forall|i: int| 0 <= i < lens.len() implies #[trigger] writes_read(acts, lens, i) by {
            if i > 0 {
                assert(writes_read(rest.1, tail, i - 1));
            }
        }
        assert forall|i: int| 0 <= i < lens.len() implies percent_of(m.done as int, total)
            <= #[trigger] write_percent(acts, i) <= percent_of(rest.0.done as int, total) by {
            if i > 0 {
                assert(write_percent(rest.1, i - 1) >= percent_of(m2.done as int, total));
            }
        }
        assert forall|i: int, j: int| 0 <= i <= j < lens.len() implies #[trigger] write_percent(acts, i)
            <= #[trigger] write_percent(acts, j) by {
            if i > 0 {
                assert(write_percent(rest.1, i - 1) <= write_percent(rest.1, j - 1));
            } else if j > 0 {
                assert(write_percent(rest.1, j - 1) >= percent_of(m2.done as int, total));
            }
        }
        if tail.len() > 0 {
            assert(write_percent(acts, lens.len() - 1) == write_percent(rest.1, tail.len() - 1));
        }
        assert(rest.0 == (EntrySync { done: (m.done + sum_lens(lens)) as u64, ..m }));
    }
}

/// A content copy, for every sequence of reads. The copy opens the source,
/// creates the destination, then writes each chunk read whole and in order,
/// so the destination receives exactly the bytes read from the source. The
/// percentages reported never go back, and the last one is exactly 100,
/// for an empty file too. Then the permission bits are applied when they
/// are preserved: a failure there is only a warning, and the copy succeeds
/// either way.
pub proof fn lemma_copy_run(
    src: Entry,
    dest: Entry,
    options: SyncOptions,
    lens: Seq<usize>,
    message: String,
)
    requires
        copy_start(src, dest, options).1 is OpenSource,
        chunk_reads(lens),
        sum_lens(lens) <= u64::MAX,
    ensures
        ({
            let opened = copy_start(src, dest, options);
            let created = next(opened.0, Event::Done);
            let ready = next(created.0, Event::Done);
            let (looped, acts) = feed(ready.0, lens);
            let eof = next(looped, Event::Read { len: 0 });
            let last = if lens.len() > 0 { write_percent(acts, lens.len() - 1) } else { 0 };
            let reported = eof.1 is ReportProgress;
            let done = if reported { next(eof.0, Event::Done) } else { eof };
            &&& opened.1 == (Action::OpenSource { path: src.path })
            &&& created.1 == (Action::CreateDestination { path: dest.path })
            &&& ready.1 == Action::ReadChunk
            &&& looped.done == sum_lens(lens)
            &&& forall|i: int| 0 <= i < lens.len() ==> #[trigger] writes_read(acts, lens, i)
            &&& forall|i: int, j: int|
                0 <= i <= j < lens.len() ==> #[trigger] write_percent(acts, i) <= #[trigger] write_percent(acts, j)
            &&& forall|i: int| 0 <= i < lens.len() ==> #[trigger] write_percent(acts, i) <= 100
            &&& reported ==> eof.1 == (Action::ReportProgress { percent: 100 })
            &&& !reported ==> lens.len() > 0 && last == 100
            &&& options.preserve_permissions ==> {
                &&& done.1 == (Action::SetPermissions {
                    path: dest.path,
                    permissions: src.metadata->0.permissions,
                })
                &&& next(done.0, Event::Done).1 == (Action::Finish { outcome: Ok(true) })
                &&& next(done.0, Event::Failed { message }).1 == (Action::Warn {
                    path: dest.path,
                    message,
                })
                &&& next(next(done.0, Event::Failed { message }).0, Event::Done).1 == (Action::Finish {
                    outcome: Ok(true),
                })
            }
            &&& !options.preserve_permissions ==> done.1 == (Action::Finish { outcome: Ok(true) })
        }),
{
    let opened = copy_start(src, dest, options);
    let created = next(opened.0, Event::Done);
    let ready = next(created.0, Event::Done);
    assert(ready.0.done == 0);
    lemma_sum_lens_nonneg(lens);
    lemma_feed(ready.0, lens);
    let looped = feed(ready.0, lens).0;
    lemma_percent_monotone(0, looped.done as int, looped.total as int);
    if lens.len() > 0 && !(looped.done == 0 || looped.done < looped.total) {
        lemma_percent_complete(looped.total as int);
    }
}

/// No read/write cycle moves more than one chunk: every write asked for
/// holds between one byte and `CHUNK_SIZE` bytes, whatever the state and
/// the event, and a longer read ends the entry with an error on the source.
pub proof fn lemma_write_within_chunk(m: EntrySync, e: Event)
    ensures
        next(m, e).1 is WriteChunk ==> 0 < next(m, e).1->WriteChunk_len <= CHUNK_SIZE,
        m.phase is Reading && e is Read && e->len > CHUNK_SIZE ==> next(m, e).1 == (Action::Finish {
            outcome: Err(SyncError::OversizedRead { path: m.source, len: e->len }),
        }),
{
}

/// A regular source that is more recent than the destination is copied:
/// the whole run is the content copy above.
pub proof fn lemma_stale_file_is_copied(src: Entry, dest: Entry, options: SyncOptions)
    requires
        src.link is NotLink,
        staleness(src, dest) == Ok::<bool, SyncError>(true),
    ensures
        start(src, dest, options) == copy_start(src, dest, options),
{
}

/// A failure to apply permission bits becomes a warning about the
/// destination, and the copy ends in the same success as without it.
pub proof fn lemma_permission_failure_isolated(m: EntrySync, message: String, e: Event)
    requires
        m.phase is SettingPermissions,
    ensures
        ({
            let (m1, a1) = next(m, Event::Failed { message });
            &&& next(m, Event::Done).1 == (Action::Finish { outcome: Ok(true) })
            &&& a1 == (Action::Warn { path: m.destination, message })
            &&& next(m1, e).1 == (Action::Finish { outcome: Ok(true) })
        }),
{
}

} // verus!
