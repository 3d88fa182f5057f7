use dlsite_sync::sync::{
    AbortReason, AccountSeed, CountOutcome, SyncAction, SyncEngine, SyncMode,
};

fn seed(account_id: i64, prev_count: usize) -> AccountSeed {
    AccountSeed { account_id, prev_count }
}

fn clone_action(action: &SyncAction<u64>) -> SyncAction<u64> {
    match action {
        SyncAction::ClearItems => SyncAction::ClearItems,
        SyncAction::ProbeCount { account_id } => SyncAction::ProbeCount { account_id: *account_id },
        SyncAction::Report { done, total } => SyncAction::Report { done: *done, total: *total },
        SyncAction::FetchPage { account_id, page } => {
            SyncAction::FetchPage { account_id: *account_id, page: *page }
        },
        SyncAction::InsertPage { account_id, items } => {
            SyncAction::InsertPage { account_id: *account_id, items: items.clone() }
        },
        SyncAction::Finished => SyncAction::Finished,
        SyncAction::Abort { reason } => SyncAction::Abort { reason: *reason },
    }
}

/// Drives one pass against a simulated remote and records every action and
/// every insert (as `(account_id, item ids)`). Each account is
/// `(remote_count, pages_before_auth_revocation)`: after that many
/// successful page fetches the session is revoked mid-stream. Item ids are
/// the 0-based catalog positions, so page contents are checkable.
fn drive(
    mode: SyncMode,
    accounts: Vec<(AccountSeed, usize, usize)>,
) -> (Vec<SyncAction<u64>>, Vec<(usize, usize)>, Vec<(i64, Vec<u64>)>) {
    let seeds: Vec<AccountSeed> = accounts.iter().map(|(s, _, _)| *s).collect();
    let (mut engine, mut action) = SyncEngine::<u64>::begin(mode, seeds);
    let mut trace = vec![clone_action(&action)];
    let mut reports = Vec::new();
    let mut inserts: Vec<(i64, Vec<u64>)> = Vec::new();
    let mut pages_left: Vec<usize> = accounts.iter().map(|(_, _, p)| *p).collect();
    let counts: Vec<(i64, usize)> =
        accounts.iter().map(|(s, n, _)| (s.account_id, *n)).collect();
    let mut processed: Vec<usize> = accounts
        .iter()
        .map(|(s, _, _)| if matches!(mode, SyncMode::Update) { s.prev_count } else { 0 })
        .collect();

    for _ in 0..10000 {
        action = match action {
            SyncAction::ClearItems => engine.offer_cleared(),
            SyncAction::ProbeCount { account_id } => {
                let n = counts.iter().find(|(id, _)| *id == account_id).unwrap().1;
                engine.offer_count(CountOutcome::Counted(n))
            },
            SyncAction::Report { done, total } => {
                reports.push((done, total));
                engine.offer_report_ack()
            },
            SyncAction::FetchPage { account_id, page } => {
                let idx = counts.iter().position(|(id, _)| *id == account_id).unwrap();
                let total_items = counts[idx].1;
                // The page holds the first unseen item of this account.
                assert_eq!(page, 1 + processed[idx] / 50);
                if pages_left[idx] == 0 {
                    engine.offer_page_auth_failed()
                } else {
                    pages_left[idx] -= 1;
                    let start = (page - 1) * 50;
                    let returned = usize::min(50, total_items - start);
                    processed[idx] = start + returned;
                    let items: Vec<u64> = (start..start + returned).map(|k| k as u64).collect();
                    engine.offer_page(items)
                }
            },
            SyncAction::InsertPage { account_id, items } => {
                inserts.push((account_id, items));
                engine.offer_insert_done()
            },
            SyncAction::Finished | SyncAction::Abort { .. } => break,
        };
        trace.push(clone_action(&action));
    }
    (trace, reports, inserts)
}

#[test]
fn update_skips_accounts_without_new_items() {
    let (trace, reports, _) = drive(
        SyncMode::Update,
        vec![(seed(1, 100), 100, usize::MAX), (seed(2, 0), 0, usize::MAX)],
    );
    // No account owes items: the pass is a no-op that still succeeds,
    // without any progress report.
    assert!(matches!(trace.last(), Some(SyncAction::Finished)));
    assert!(reports.is_empty());
    assert!(!trace.iter().any(|a| matches!(a, SyncAction::InsertPage { .. })));
}

#[test]
fn update_fetches_only_past_known_counts() {
    let (trace, reports, _) = drive(
        SyncMode::Update,
        vec![(seed(1, 60), 120, usize::MAX), (seed(2, 10), 10, usize::MAX)],
    );
    assert!(matches!(trace.last(), Some(SyncAction::Finished)));
    // 60 new items for account 1, none for account 2.
    assert_eq!(reports.first(), Some(&(0, 60)));
    assert_eq!(reports.last(), Some(&(60, 60)));
    // Resumes at the page holding item 61.
    assert!(trace.iter().any(|a| matches!(a, SyncAction::FetchPage { account_id: 1, page: 2 })));
    assert!(!trace.iter().any(|a| matches!(a, SyncAction::FetchPage { account_id: 2, .. })));
}

#[test]
fn mid_pagination_auth_failure_skips_the_rest_of_that_account() {
    let (trace, reports, _) = drive(
        SyncMode::Update,
        vec![(seed(1, 0), 150, 1), (seed(2, 0), 30, usize::MAX)],
    );
    // Account 1 delivers one page (50 of 150) and is then revoked: its
    // remaining 100 items count as skipped progress; account 2 still runs.
    assert!(matches!(trace.last(), Some(SyncAction::Finished)));
    assert_eq!(reports.first(), Some(&(0, 180)));
    assert!(reports.contains(&(50, 180)));
    assert!(reports.contains(&(150, 180)));
    assert_eq!(reports.last(), Some(&(180, 180)));
    assert!(trace.iter().any(|a| matches!(a, SyncAction::FetchPage { account_id: 2, .. })));
}

#[test]
fn progress_reports_never_decrease_and_end_at_total() {
    let (trace, reports, _) = drive(
        SyncMode::Update,
        vec![(seed(1, 20), 170, usize::MAX), (seed(2, 0), 55, 1), (seed(3, 7), 64, usize::MAX)],
    );
    assert!(matches!(trace.last(), Some(SyncAction::Finished)));
    let total = 150 + 55 + 57;
    assert_eq!(reports.first(), Some(&(0, total)));
    let mut prev = 0;
    for (done, t) in &reports {
        assert_eq!(*t, total);
        assert!(*done >= prev);
        assert!(*done <= total);
        prev = *done;
    }
    assert_eq!(prev, total);
}

#[test]
fn refresh_clears_before_any_insert_and_fetches_from_zero() {
    let (trace, reports, _) = drive(
        SyncMode::Refresh,
        vec![(seed(1, 60), 80, usize::MAX), (seed(2, 5), 0, usize::MAX)],
    );
    assert!(matches!(trace.first(), Some(SyncAction::ClearItems)));
    let clear_at = trace.iter().position(|a| matches!(a, SyncAction::ClearItems)).unwrap();
    let first_insert =
        trace.iter().position(|a| matches!(a, SyncAction::InsertPage { .. })).unwrap();
    assert!(clear_at < first_insert, "items are inserted only after the store was cleared");
    // The refresh ignores the recorded counts: the whole 80 items are the
    // total, and pagination starts at page 1.
    assert_eq!(reports.first(), Some(&(0, 80)));
    assert_eq!(reports.last(), Some(&(80, 80)));
    assert!(trace.iter().any(|a| matches!(a, SyncAction::FetchPage { account_id: 1, page: 1 })));
}

#[test]
fn count_probe_fault_aborts_the_pass() {
    let (mut engine, action) =
        SyncEngine::<u64>::begin(SyncMode::Update, vec![seed(1, 0), seed(2, 0)]);
    assert!(matches!(action, SyncAction::ProbeCount { account_id: 1 }));
    let action = engine.offer_count(CountOutcome::Failed);
    assert!(matches!(action, SyncAction::Abort { reason: AbortReason::CountFailed }));
}

#[test]
fn auth_failed_probe_skips_that_account_only() {
    let (mut engine, action) =
        SyncEngine::<u64>::begin(SyncMode::Update, vec![seed(1, 0), seed(2, 0)]);
    assert!(matches!(action, SyncAction::ProbeCount { account_id: 1 }));
    let action = engine.offer_count(CountOutcome::AuthFailed);
    assert!(matches!(action, SyncAction::ProbeCount { account_id: 2 }));
    let action = engine.offer_count(CountOutcome::Counted(3));
    assert!(matches!(action, SyncAction::Report { done: 0, total: 3 }));
}

#[test]
fn page_fetch_fault_aborts_the_pass() {
    let (mut engine, _) = SyncEngine::<u64>::begin(SyncMode::Update, vec![seed(1, 0)]);
    let action = engine.offer_count(CountOutcome::Counted(10));
    assert!(matches!(action, SyncAction::Report { done: 0, total: 10 }));
    let action = engine.offer_report_ack();
    assert!(matches!(action, SyncAction::FetchPage { account_id: 1, page: 1 }));
    let action = engine.offer_page_failed();
    assert!(matches!(action, SyncAction::Abort { reason: AbortReason::PageFailed }));
}

#[test]
fn short_page_recomputes_effective_count() {
    // The remote total shrank between the probe and the page fetch: the page
    // returns fewer items than the target implies, and the effective count
    // comes from the page number and the returned count, never an assumed
    // full page.
    let (mut engine, _) = SyncEngine::<u64>::begin(SyncMode::Update, vec![seed(1, 0)]);
    engine.offer_count(CountOutcome::Counted(120));
    engine.offer_report_ack();
    let action = engine.offer_page((0..50u64).collect());
    assert!(matches!(action, SyncAction::Report { done: 50, total: 120 }));
    engine.offer_report_ack();
    engine.offer_insert_done();
    let action = engine.offer_page((50..80u64).collect());
    // Page 2 held only 30 items: effective count 80, not 100.
    assert!(matches!(action, SyncAction::Report { done: 80, total: 120 }));
}

#[test]
fn each_page_is_inserted_exactly_as_fetched_before_the_next_fetch() {
    let (trace, _, inserts) = drive(
        SyncMode::Update,
        vec![(seed(1, 0), 120, usize::MAX), (seed(2, 0), 10, usize::MAX)],
    );
    assert!(matches!(trace.last(), Some(SyncAction::Finished)));
    // Every fetched page comes back out in its own insert action, in fetch
    // order and byte for byte: persistence is per page, never batched.
    let expected: Vec<(i64, Vec<u64>)> = vec![
        (1, (0..50).collect()),
        (1, (50..100).collect()),
        (1, (100..120).collect()),
        (2, (0..10).collect()),
    ];
    assert_eq!(inserts, expected);
    // And each page's insert action stands between its fetch and the next
    // fetch: fetches and inserts alternate strictly.
    let mut awaiting_insert = false;
    for action in &trace {
        match action {
            SyncAction::FetchPage { .. } => {
                assert!(!awaiting_insert, "a fetch ran before the last page was inserted");
                awaiting_insert = true;
            },
            SyncAction::InsertPage { .. } => {
                assert!(awaiting_insert);
                awaiting_insert = false;
            },
            _ => {},
        }
    }
}
