use vstd::prelude::*;
use crate::entry::{Entry, LinkState};
use crate::error::SyncError;
use crate::link::{link_plan, reconcile_link, LinkPlan};
use crate::progress::{add_capped, advance, percent_of, progress_percent, CHUNK_SIZE};
use crate::staleness::{more_recent_than, staleness};

verus! {

/// Settings that apply to every entry of a run.
#[derive(Clone, Copy, Debug, PartialEq, Eq)]
pub struct SyncOptions {
    /// Whether a copied file receives the source's permission bits.
    pub preserve_permissions: bool,
}

/// Where the synchronization of one entry stands.
#[derive(Debug, PartialEq, Eq)]
pub enum Phase {
    /// Waiting for the old destination link to be removed.
    RemovingLink { target: String },
    /// Waiting for the destination link to `target` to be created.
    CreatingLink { target: String },
    /// Waiting for the source file to be opened for reading.
    OpeningSource,
    /// Waiting for the destination file to be created or truncated.
    CreatingDestination,
    /// Waiting for the next chunk to be read from the source.
    Reading,
    /// Waiting for the chunk just read to be written to the destination.
    Writing,
    /// Waiting for the completed copy to be reported.
    Completing,
    /// Waiting for the permission bits to be applied to the destination.
    SettingPermissions,
    /// Waiting for a warning to be reported.
    Warning,
    /// The entry is done; its outcome was handed out.
    Finished,
}

/// What the caller reports after performing an action.
#[derive(Debug, PartialEq, Eq)]
pub enum Event {
    /// The action succeeded.
    Done,
    /// A chunk read succeeded with `len` bytes; zero means end of file.
    Read { len: usize },
    /// The action failed with this message.
    Failed { message: String },
}

/// What the caller is asked to do next.
#[derive(Debug, PartialEq, Eq)]
pub enum Action {
    /// Report the removal, then remove the link at `path`.
    RemoveLink { path: String },
    /// Report the creation, then create at `path` a link to `target`.
    CreateLink { path: String, target: String },
    /// Report the copy, then open the file at `path` for reading.
    OpenSource { path: String },
    /// Create the file at `path`, truncating what is there.
    CreateDestination { path: String },
    /// Read up to `CHUNK_SIZE` bytes of the source into the buffer.
    ReadChunk,
    /// Write the first `len` bytes of the buffer, then report `percent`.
    WriteChunk { len: usize, percent: u64 },
    /// Report that the copy stands at `percent`.
    ReportProgress { percent: u64 },
    /// Apply the permission bits to the file at `path`.
    SetPermissions { path: String, permissions: u32 },
    /// Report a warning about `path`; it does not fail the entry.
    Warn { path: String, message: String },
    /// The entry is done: whether it changed the destination, or why it failed.
    Finish { outcome: Result<bool, SyncError> },
}

/// The state of the synchronization of one source/destination pair.
#[derive(Debug, PartialEq, Eq)]
pub struct EntrySync {
    pub phase: Phase,
    pub source: String,
    pub destination: String,
    /// The permission bits to apply after a copy, if any.
    pub permissions: Option<u32>,
    /// The source's size when it was inspected.
    pub total: u64,
    /// Bytes read from the source so far.
    pub done: u64,
}

/// A pair on which nothing has been done yet.
pub open spec fn initial(src: Entry, dest: Entry) -> EntrySync {
    EntrySync {
        phase: Phase::Finished,
        source: src.path,
        destination: dest.path,
        permissions: None,
        total: 0,
        done: 0,
    }
}

/// Ends the entry with `outcome`.
pub open spec fn finish(m: EntrySync, outcome: Result<bool, SyncError>) -> (EntrySync, Action) {
    (EntrySync { phase: Phase::Finished, ..m }, Action::Finish { outcome })
}

/// Moves to `phase` and asks for `action`.
pub open spec fn move_to(m: EntrySync, phase: Phase, action: Action) -> (EntrySync, Action) {
    (EntrySync { phase, ..m }, action)
}

/// How a content copy of `src` over `dest` begins.
pub open spec fn copy_start(src: Entry, dest: Entry, options: SyncOptions) -> (EntrySync, Action) {
    match src.metadata {
        None => finish(initial(src, dest), Err(SyncError::MetadataUnavailable { path: src.path })),
        Some(meta) => (
            EntrySync {
                phase: Phase::OpeningSource,
                source: src.path,
                destination: dest.path,
                permissions: if options.preserve_permissions {
                    Some(meta.permissions)
                } else {
                    None
                },
                total: meta.size,
                done: 0,
            },
            Action::OpenSource { path: src.path },
        ),
    }
}

/// The first decision for a pair: links are reconciled, other entries are
/// copied when the source is more recent and left alone otherwise.
pub open spec fn start(src: Entry, dest: Entry, options: SyncOptions) -> (EntrySync, Action) {
    let m = initial(src, dest);
    match src.link {
        LinkState::Missing => finish(m, Err(SyncError::MetadataUnavailable { path: src.path })),
        LinkState::Link { target } => match link_plan(target@, dest) {
            Err(e) => finish(m, Err(e)),
            Ok(LinkPlan::Unchanged) => finish(m, Ok(false)),
            Ok(LinkPlan::Create) => move_to(
                m,
                Phase::CreatingLink { target },
                Action::CreateLink { path: dest.path, target },
            ),
            Ok(LinkPlan::Replace) => move_to(
                m,
                Phase::RemovingLink { target },
                Action::RemoveLink { path: dest.path },
            ),
        },
        LinkState::NotLink => match staleness(src, dest) {
            Err(e) => finish(m, Err(e)),
            Ok(false) => finish(m, Ok(false)),
            Ok(true) => copy_start(src, dest, options),
        },
    }
}

/// The failure of an action on `path`.
pub open spec fn io_failure(path: String, message: String) -> Result<bool, SyncError> {
    Err(SyncError::Io { path, message })
}

/// At end of file, whether the last chunk written did not already report
/// 100: nothing was written (an empty file), or fewer bytes than expected.
pub open spec fn needs_final_report(m: EntrySync) -> bool {
    m.done == 0 || m.done < m.total
}

/// Once every byte is copied: the permission bits, if they are preserved,
/// else success.
pub open spec fn after_copy(m: EntrySync) -> (EntrySync, Action) {
    match m.permissions {
        Some(p) => move_to(
            m,
            Phase::SettingPermissions,
            Action::SetPermissions { path: m.destination, permissions: p },
        ),
        None => finish(m, Ok(true)),
    }
}

/// What follows `e` in state `m`. A failure ends the entry with an error
/// about the path acted on, except a failure to apply permissions, which
/// becomes a warning and leaves the copy successful. A read longer than
/// `CHUNK_SIZE` ends the entry; every other chunk read is written whole, and
/// the copy always ends with a report of 100 percent.
pub open spec fn next(m: EntrySync, e: Event) -> (EntrySync, Action) {
    match m.phase {
        Phase::RemovingLink { target } => match e {
            Event::Failed { message } => finish(m, io_failure(m.destination, message)),
            _ => move_to(
                m,
                Phase::CreatingLink { target },
                Action::CreateLink { path: m.destination, target },
            ),
        },
        Phase::CreatingLink { .. } => match e {
            Event::Failed { message } => finish(m, io_failure(m.destination, message)),
            _ => finish(m, Ok(true)),
        },
        Phase::OpeningSource => match e {
            Event::Failed { message } => finish(m, io_failure(m.source, message)),
            _ => move_to(
                m,
                Phase::CreatingDestination,
                Action::CreateDestination { path: m.destination },
            ),
        },
        Phase::CreatingDestination => match e {
            Event::Failed { message } => finish(m, io_failure(m.destination, message)),
            _ => move_to(m, Phase::Reading, Action::ReadChunk),
        },
        Phase::Reading => match e {
            Event::Failed { message } => finish(m, io_failure(m.source, message)),
            Event::Read { len } if len > CHUNK_SIZE => finish(
                m,
                Err(SyncError::OversizedRead { path: m.source, len }),
            ),
            Event::Read { len } if len > 0 => {
                let done = add_capped(m.done, len);
                (
                    EntrySync { phase: Phase::Writing, done, ..m },
                    Action::WriteChunk { len, percent: percent_of(done as int, m.total as int) as u64 },
                )
            },
            _ => if needs_final_report(m) {
                move_to(m, Phase::Completing, Action::ReportProgress { percent: 100 })
            } else {
                after_copy(m)
            },
        },
        Phase::Completing => after_copy(m),
        Phase::Writing => match e {
            Event::Failed { message } => finish(m, io_failure(m.destination, message)),
            _ => move_to(m, Phase::Reading, Action::ReadChunk),
        },
        Phase::SettingPermissions => match e {
            Event::Failed { message } => move_to(
                m,
                Phase::Warning,
                Action::Warn { path: m.destination, message },
            ),
            _ => finish(m, Ok(true)),
        },
        Phase::Warning => finish(m, Ok(true)),
        // A finished entry takes no further events: `step` refuses them.
        Phase::Finished => (m, Action::Finish { outcome: Ok(false) }),
    }
}

/// Begins a content copy of `src` over `dest`: the source is opened, the
/// destination created, and chunks moved until the source is exhausted.
pub fn copy_entry(src: &Entry, dest: &Entry, options: SyncOptions) -> (r: (EntrySync, Action))
    ensures
        r == copy_start(*src, *dest, options),
{
    match &src.metadata {
        None => (
            EntrySync {
                phase: Phase::Finished,
                source: src.path.clone(),
                destination: dest.path.clone(),
                permissions: None,
                total: 0,
                done: 0,
            },
            Action::Finish {
                outcome: Err(SyncError::MetadataUnavailable { path: src.path.clone() }),
            },
        ),
        Some(meta) => {
            let permissions = if options.preserve_permissions {
                Some(meta.permissions)
            } else {
                None
            };
            (
                EntrySync {
                    phase: Phase::OpeningSource,
                    source: src.path.clone(),
                    destination: dest.path.clone(),
                    permissions,
                    total: meta.size,
                    done: 0,
                },
                Action::OpenSource { path: src.path.clone() },
            )
        },
    }
}

/// Begins the synchronization of `dest` from `src`: the first state and the
/// first action, which for an entry that needs no work is already `Finish`.
pub fn sync_entries(src: &Entry, dest: &Entry, options: SyncOptions) -> (r: (EntrySync, Action))
    ensures
        r == start(*src, *dest, options),
{
    let m = EntrySync {
        phase: Phase::Finished,
        source: src.path.clone(),
        destination: dest.path.clone(),
        permissions: None,
        total: 0,
        done: 0,
    };
    match &src.link {
        LinkState::Missing => (
            m,
            Action::Finish {
                outcome: Err(SyncError::MetadataUnavailable { path: src.path.clone() }),
            },
        ),
        LinkState::Link { target } => match reconcile_link(target, dest) {
            Err(e) => (m, Action::Finish { outcome: Err(e) }),
            Ok(LinkPlan::Unchanged) => (m, Action::Finish { outcome: Ok(false) }),
            Ok(LinkPlan::Create) => (
                EntrySync { phase: Phase::CreatingLink { target: target.clone() }, ..m },
                Action::CreateLink { path: dest.path.clone(), target: target.clone() },
            ),
            Ok(LinkPlan::Replace) => (
                EntrySync { phase: Phase::RemovingLink { target: target.clone() }, ..m },
                Action::RemoveLink { path: dest.path.clone() },
            ),
        },
        LinkState::NotLink => match more_recent_than(src, dest) {
            Err(e) => (m, Action::Finish { outcome: Err(e) }),
            Ok(false) => (m, Action::Finish { outcome: Ok(false) }),
            Ok(true) => copy_entry(src, dest, options),
        },
    }
}

impl EntrySync {
    /// Whether the entry is done.
    pub fn is_finished(&self) -> (r: bool)
        ensures
            r == self.phase is Finished,
    {
        match self.phase {
            Phase::Finished => true,
            _ => false,
        }
    }

    /// Takes the outcome of the last action and gives the next one.
    pub fn step(&mut self, event: Event) -> (a: Action)
        requires
            !(old(self).phase is Finished),
        ensures
            (*final(self), a) == next(*old(self), event),
    {
        let failed = match &event {
            Event::Failed { .. } => true,
            _ => false,
        };
        match &self.phase {
            Phase::RemovingLink { target } => {
                if failed {
                    self.fail_on_destination(event)
                } else {
                    let target = target.clone();
                    let path = self.destination.clone();
                    self.phase = Phase::CreatingLink { target: target.clone() };
                    Action::CreateLink { path, target }
                }
            },
            Phase::CreatingLink { .. } => {
                if failed {
                    self.fail_on_destination(event)
                } else {
                    self.phase = Phase::Finished;
                    Action::Finish { outcome: Ok(true) }
                }
            },
            Phase::OpeningSource => {
                if failed {
                    self.fail_on_source(event)
                } else {
                    self.phase = Phase::CreatingDestination;
                    Action::CreateDestination { path: self.destination.clone() }
                }
            },
            Phase::CreatingDestination => {
                if failed {
                    self.fail_on_destination(event)
                } else {
                    self.phase = Phase::Reading;
                    Action::ReadChunk
                }
            },
            Phase::Reading => {
                match event {
                    Event::Failed { message } => {
                        self.phase = Phase::Finished;
                        Action::Finish {
                            outcome: Err(SyncError::Io { path: self.source.clone(), message }),
                        }
                    },
                    Event::Read { len } if len > CHUNK_SIZE => {
                        self.phase = Phase::Finished;
                        Action::Finish {
                            outcome: Err(SyncError::OversizedRead { path: self.source.clone(), len }),
                        }
                    },
                    Event::Read { len } if len > 0 => {
                        let done = advance(self.done, len);
                        let percent = progress_percent(done, self.total);
                        self.done = done;
                        self.phase = Phase::Writing;
                        Action::WriteChunk { len, percent }
                    },
                    _ => {
                        if self.done == 0 || self.done < self.total {
                            self.phase = Phase::Completing;
                            Action::ReportProgress { percent: 100 }
                        } else {
                            self.after_copy()
                        }
                    },
                }
            },
            Phase::Completing => self.after_copy(),
            Phase::Writing => {
                if failed {
                    self.fail_on_destination(event)
                } else {
                    self.phase = Phase::Reading;
                    Action::ReadChunk
                }
            },
            Phase::SettingPermissions => {
                match event {
                    Event::Failed { message } => {
                        self.phase = Phase::Warning;
                        Action::Warn { path: self.destination.clone(), message }
                    },
                    _ => {
                        self.phase = Phase::Finished;
                        Action::Finish { outcome: Ok(true) }
                    },
                }
            },
            Phase::Warning => {
                self.phase = Phase::Finished;
                Action::Finish { outcome: Ok(true) }
            },
            Phase::Finished => Action::Finish { outcome: Ok(false) },
        }
    }

    /// Moves on from a completed copy.
    fn after_copy(&mut self) -> (a: Action)
        ensures
            (*final(self), a) == after_copy(*old(self)),
    {
        match self.permissions {
            Some(p) => {
                self.phase = Phase::SettingPermissions;
                Action::SetPermissions { path: self.destination.clone(), permissions: p }
            },
            None => {
                self.phase = Phase::Finished;
                Action::Finish { outcome: Ok(true) }
            },
        }
    }

    /// Ends the entry with the failure carried by `event`, about the destination.
    fn fail_on_destination(&mut self, event: Event) -> (a: Action)
        requires
            event is Failed,
        ensures
            (*final(self), a) == finish(*old(self), io_failure(old(self).destination, event->message)),
    {
        let message = match event {
            Event::Failed { message } => message,
            _ => String::new(),
        };
        self.phase = Phase::Finished;
        Action::Finish { outcome: Err(SyncError::Io { path: self.destination.clone(), message }) }
    }

    /// Ends the entry with the failure carried by `event`, about the source.
    fn fail_on_source(&mut self, event: Event) -> (a: Action)
        requires
            event is Failed,
        ensures
            (*final(self), a) == finish(*old(self), io_failure(old(self).source, event->message)),
    {
        let message = match event {
            Event::Failed { message } => message,
            _ => String::new(),
        };
        self.phase = Phase::Finished;
        Action::Finish { outcome: Err(SyncError::Io { path: self.source.clone(), message }) }
    }
}

} // verus!
