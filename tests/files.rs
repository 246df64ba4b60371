use rusync::{
    copy_entry, more_recent_than, progress_percent, reconcile_link, sync_entries, to_io_error,
    Action, Entry, Event, LinkPlan, LinkState, Metadata, SyncError, SyncOptions, CHUNK_SIZE,
};

fn file(path: &str, size: u64, secs: i64, nanos: u32) -> Entry {
    Entry::new(
        String::from(path),
        String::from(path),
        Some(Metadata::new(size, secs, nanos, 0o755)),
        LinkState::NotLink,
    )
}

fn missing(path: &str) -> Entry {
    Entry::new(String::from(path), String::from(path), None, LinkState::Missing)
}

fn keep_perms(on: bool) -> SyncOptions {
    SyncOptions { preserve_permissions: on }
}

/// Runs a copy that reads the given chunk lengths and then end of file,
/// answering every other action with success.
fn run_copy(src: &Entry, dest: &Entry, options: SyncOptions, chunks: &[usize], perms_fail: bool) -> Vec<Action> {
    let (mut m, mut a) = sync_entries(src, dest, options);
    let mut actions = Vec::new();
    let mut next_chunk = 0;
    while !m.is_finished() {
        let event = match &a {
            Action::ReadChunk => {
                let len = if next_chunk < chunks.len() { chunks[next_chunk] } else { 0 };
                next_chunk += 1;
                Event::Read { len }
            }
            Action::SetPermissions { .. } if perms_fail => {
                Event::Failed { message: String::from("operation not supported") }
            }
            _ => Event::Done,
        };
        actions.push(a);
        a = m.step(event);
    }
    actions.push(a);
    actions
}

fn percents(actions: &[Action]) -> Vec<u64> {
    actions
        .iter()
        .filter_map(|a| match a {
            Action::WriteChunk { percent, .. } => Some(*percent),
            Action::ReportProgress { percent } => Some(*percent),
            _ => None,
        })
        .collect()
}

#[test]
fn missing_destination_is_stale() {
    assert_eq!(more_recent_than(&file("/s", 1, 5, 0), &missing("/d")), Ok(true));
}

#[test]
fn staleness_uses_nanoseconds() {
    assert_eq!(more_recent_than(&file("/s", 1, 5, 2), &file("/d", 1, 5, 1)), Ok(true));
    assert_eq!(more_recent_than(&file("/s", 1, 5, 1), &file("/d", 1, 5, 2)), Ok(false));
    assert_eq!(more_recent_than(&file("/s", 1, 6, 0), &file("/d", 1, 5, 999_999_999)), Ok(true));
}

#[test]
fn equal_times_are_not_stale() {
    assert_eq!(more_recent_than(&file("/s", 1, 5, 7), &file("/d", 1, 5, 7)), Ok(false));
}

#[test]
fn staleness_without_source_metadata_fails() {
    let src = Entry::new(String::from("s"), String::from("/s"), None, LinkState::NotLink);
    assert_eq!(
        more_recent_than(&src, &file("/d", 1, 5, 0)),
        Err(SyncError::MetadataUnavailable { path: String::from("/s") })
    );
}

#[test]
fn reconcile_link_table() {
    let target = String::from("t");
    let dest_link = |t: &str| Entry::new(String::from("d"), String::from("/d"), None, LinkState::Link { target: String::from(t) });
    assert_eq!(reconcile_link(&target, &missing("/d")), Ok(LinkPlan::Create));
    assert_eq!(reconcile_link(&target, &dest_link("t")), Ok(LinkPlan::Unchanged));
    assert_eq!(reconcile_link(&target, &dest_link("u")), Ok(LinkPlan::Replace));
    assert_eq!(
        reconcile_link(&target, &file("/d", 0, 0, 0)),
        Err(SyncError::RefusedOverwrite { path: String::from("/d") })
    );
}

#[test]
fn percent_formula() {
    assert_eq!(progress_percent(0, 0), 100);
    assert_eq!(progress_percent(50, 200), 25);
    assert_eq!(progress_percent(1, 3), 33);
    assert_eq!(progress_percent(200, 200), 100);
    assert_eq!(progress_percent(300, 200), 100);
}

#[test]
fn chunked_copy_of_several_chunks() {
    let size = 2 * CHUNK_SIZE + 10;
    let src = file("/s/a", size as u64, 20, 0);
    let actions = run_copy(&src, &missing("/d/a"), keep_perms(true), &[CHUNK_SIZE, CHUNK_SIZE, 10], false);
    assert_eq!(actions[0], Action::OpenSource { path: String::from("/s/a") });
    assert_eq!(actions[1], Action::CreateDestination { path: String::from("/d/a") });
    let written: Vec<usize> = actions
        .iter()
        .filter_map(|a| match a {
            Action::WriteChunk { len, .. } => Some(*len),
            _ => None,
        })
        .collect();
    assert_eq!(written, vec![CHUNK_SIZE, CHUNK_SIZE, 10]);
    assert_eq!(written.iter().sum::<usize>(), size);
    let p = percents(&actions);
    assert_eq!(p, vec![49, 99, 100]);
    assert!(p.windows(2).all(|w| w[0] <= w[1]));
    let n = actions.len();
    assert_eq!(actions[n - 2], Action::SetPermissions { path: String::from("/d/a"), permissions: 0o755 });
    assert_eq!(actions[n - 1], Action::Finish { outcome: Ok(true) });
}

#[test]
fn empty_file_copy_completes() {
    let src = file("/s/e", 0, 20, 0);
    let actions = run_copy(&src, &missing("/d/e"), keep_perms(false), &[], false);
    assert_eq!(
        actions,
        vec![
            Action::OpenSource { path: String::from("/s/e") },
            Action::CreateDestination { path: String::from("/d/e") },
            Action::ReadChunk,
            Action::ReportProgress { percent: 100 },
            Action::Finish { outcome: Ok(true) },
        ]
    );
}

#[test]
fn permission_failure_is_a_warning() {
    let src = file("/s/p", 3, 20, 0);
    let actions = run_copy(&src, &missing("/d/p"), keep_perms(true), &[3], true);
    let n = actions.len();
    assert_eq!(
        actions[n - 2],
        Action::Warn { path: String::from("/d/p"), message: String::from("operation not supported") }
    );
    assert_eq!(actions[n - 1], Action::Finish { outcome: Ok(true) });
}

#[test]
fn no_permissions_when_disabled() {
    let src = file("/s/q", 3, 20, 0);
    let actions = run_copy(&src, &missing("/d/q"), keep_perms(false), &[3], false);
    assert!(!actions.iter().any(|a| matches!(a, Action::SetPermissions { .. })));
    assert_eq!(actions.last(), Some(&Action::Finish { outcome: Ok(true) }));
}

#[test]
fn file_second_run_is_unchanged() {
    let src = file("/s/f", 3, 20, 5);
    let first = run_copy(&src, &missing("/d/f"), keep_perms(true), &[3], false);
    assert_eq!(first.last(), Some(&Action::Finish { outcome: Ok(true) }));
    let copied = file("/d/f", 3, 21, 0);
    assert_eq!(
        run_copy(&src, &copied, keep_perms(true), &[3], false),
        vec![Action::Finish { outcome: Ok(false) }]
    );
}

#[test]
fn read_failure_is_io_error_on_source() {
    let src = file("/s/r", 3, 20, 0);
    let (mut m, _) = copy_entry(&src, &missing("/d/r"), keep_perms(true));
    assert_eq!(m.step(Event::Done), Action::CreateDestination { path: String::from("/d/r") });
    assert_eq!(m.step(Event::Done), Action::ReadChunk);
    assert_eq!(
        m.step(Event::Failed { message: String::from("eio") }),
        Action::Finish {
            outcome: Err(SyncError::Io { path: String::from("/s/r"), message: String::from("eio") }),
        }
    );
}

#[test]
fn write_failure_is_io_error_on_destination() {
    let src = file("/s/w", 3, 20, 0);
    let (mut m, _) = copy_entry(&src, &missing("/d/w"), keep_perms(true));
    m.step(Event::Done);
    m.step(Event::Done);
    assert_eq!(m.step(Event::Read { len: 3 }), Action::WriteChunk { len: 3, percent: 100 });
    assert_eq!(
        m.step(Event::Failed { message: String::from("full") }),
        Action::Finish {
            outcome: Err(SyncError::Io { path: String::from("/d/w"), message: String::from("full") }),
        }
    );
}

#[test]
fn copy_without_source_metadata_fails() {
    let src = Entry::new(String::from("s"), String::from("/s/x"), None, LinkState::NotLink);
    let (m, a) = copy_entry(&src, &missing("/d/x"), keep_perms(true));
    assert!(m.is_finished());
    assert_eq!(
        a,
        Action::Finish { outcome: Err(SyncError::MetadataUnavailable { path: String::from("/s/x") }) }
    );
}

#[test]
fn io_error_carries_message() {
    let e = to_io_error(String::from("Refusing to replace existing path"));
    assert_eq!(e.kind(), std::io::ErrorKind::Other);
    assert_eq!(e.to_string(), "Refusing to replace existing path");
}

#[test]
fn empty_file_with_permissions_reports_100_then_sets_them() {
    let src = file("/s/e", 0, 20, 0);
    let actions = run_copy(&src, &missing("/d/e"), keep_perms(true), &[], false);
    assert_eq!(percents(&actions), vec![100]);
    let n = actions.len();
    assert_eq!(actions[n - 2], Action::SetPermissions { path: String::from("/d/e"), permissions: 0o755 });
    assert_eq!(actions[n - 1], Action::Finish { outcome: Ok(true) });
}

#[test]
fn short_source_still_completes_at_100() {
    let src = file("/s/h", 10, 20, 0);
    let actions = run_copy(&src, &missing("/d/h"), keep_perms(false), &[4], false);
    assert_eq!(percents(&actions), vec![40, 100]);
    assert_eq!(actions.last(), Some(&Action::Finish { outcome: Ok(true) }));
}

#[test]
fn exact_size_reports_100_once() {
    let src = file("/s/x", 8, 20, 0);
    let actions = run_copy(&src, &missing("/d/x"), keep_perms(false), &[4, 4], false);
    assert_eq!(percents(&actions), vec![50, 100]);
}

#[test]
fn oversized_read_fails_on_source() {
    let src = file("/s/o", 3 * CHUNK_SIZE as u64, 20, 0);
    let (mut m, _) = copy_entry(&src, &missing("/d/o"), keep_perms(true));
    m.step(Event::Done);
    m.step(Event::Done);
    assert_eq!(
        m.step(Event::Read { len: CHUNK_SIZE + 1 }),
        Action::Finish {
            outcome: Err(SyncError::OversizedRead { path: String::from("/s/o"), len: CHUNK_SIZE + 1 }),
        }
    );
    assert!(m.is_finished());
}
