//! Catalog synchronization across accounts.
//!
//! One synchronization pass first probes every known account for its current
//! remote item count — an account whose authentication fails is skipped, any
//! other probe fault aborts the pass — then walks each account that needs
//! items page by page, persisting every fetched page at once and reporting
//! aggregate progress after each. A full refresh clears the whole product
//! store before anything else and fetches every account from zero; an
//! incremental update fetches only past each account's last known count.
//! When a page fetch hits the not-authenticated condition mid-stream, the
//! account's remaining delta is reported as progress and the pass moves to
//! the next account. Reported progress never decreases, never passes the
//! total, and a pass that runs to the end reports exactly the total.

use vstd::prelude::*;

use crate::pagination::{first_unseen_page, spec_effective_processed, spec_first_unseen_page};

verus! {

/// Whether a pass updates incrementally or refreshes from zero.
#[derive(Clone, Copy, PartialEq, Eq, Structural, Debug)]
pub enum SyncMode {
    Update,
    Refresh,
}

/// One known account, with its last recorded item count.
#[derive(Clone, Copy, PartialEq, Eq, Structural, Debug)]
pub struct AccountSeed {
    pub account_id: i64,
    pub prev_count: usize,
}

/// One account that needs fetching: the effective count already processed
/// and the count to reach.
#[derive(Clone, Copy, PartialEq, Eq, Structural, Debug)]
pub struct AccountCursor {
    pub account_id: i64,
    pub processed: usize,
    pub target: usize,
}

/// Where a pass stands.
#[derive(Clone, Copy, PartialEq, Eq, Structural, Debug)]
pub enum SyncPhase {
    /// Refresh only: waiting for the product store to be cleared.
    Clearing,
    /// Waiting for one account's remote item count.
    Probing,
    /// The initial progress report is out, waiting for its ack.
    Starting,
    /// Waiting for one page of the current account.
    Fetching,
    /// A page's progress report is out; its items are inserted next.
    Reporting,
    /// Waiting for the page's items to be persisted.
    Inserting,
    /// A skipped account's progress report is out; the pass then moves on.
    SkipReporting,
    /// The pass ended; nothing more to do.
    Finished,
    /// The pass failed; nothing more to do.
    Aborted,
}

/// Why a pass aborted.
#[derive(Clone, Copy, PartialEq, Eq, Structural, Debug)]
pub enum AbortReason {
    /// An account's count probe failed with other than the
    /// not-authenticated condition.
    CountFailed,
    /// A page fetch failed with other than the not-authenticated condition.
    PageFailed,
    /// The summed progress total does not fit the progress unit.
    TotalTooLarge,
}

/// What the host must do next. The engine is generic over the host's item
/// record: a fetched page's items ride through it, so the insert action
/// hands out exactly what the fetch brought in.
#[derive(Debug)]
pub enum SyncAction<T> {
    /// Remove every stored item, then acknowledge.
    ClearItems,
    /// Probe this account's remote item count under its session, persist
    /// it, and report the outcome.
    ProbeCount { account_id: i64 },
    /// Deliver this progress pair to the caller's callback; acknowledge, or
    /// abandon the pass if the callback fails.
    Report { done: usize, total: usize },
    /// Fetch this 1-based page of this account's items and report the
    /// outcome.
    FetchPage { account_id: i64, page: usize },
    /// Persist exactly these items, the page just fetched, for this
    /// account, then acknowledge.
    InsertPage { account_id: i64, items: Vec<T> },
    /// The pass is complete.
    Finished,
    /// The pass failed.
    Abort { reason: AbortReason },
}

/// How a count probe ended, as the host reports it.
#[derive(Clone, Copy, PartialEq, Eq, Structural, Debug)]
pub enum CountOutcome {
    /// The remote item count.
    Counted(usize),
    /// The probe raised the not-authenticated condition: skip the account.
    AuthFailed,
    /// The probe failed in any other way: abort the pass.
    Failed,
}

/// How many progress units one probed count adds to the pass.
pub open spec fn count_delta(mode: SyncMode, prev: usize, n: usize) -> int {
    if mode is Update {
        if n > prev {
            n - prev
        } else {
            0
        }
    } else {
        n as int
    }
}

/// The cursor queued for an account whose probe returned `n`.
pub open spec fn cursor_for(mode: SyncMode, seed: AccountSeed, n: usize) -> AccountCursor {
    AccountCursor {
        account_id: seed.account_id,
        processed: if mode is Update {
            seed.prev_count
        } else {
            0
        },
        target: n,
    }
}

/// The progress units still owed by the cursors from index `i` on.
pub open spec fn rem_sum(cs: Seq<AccountCursor>, i: int) -> int
    decreases cs.len() - i when 0 <= i <= cs.len()
{
    if i >= cs.len() {
        0
    } else {
        (cs[i].target - cs[i].processed) + rem_sum(cs, i + 1)
    }
}

pub open spec fn cursors_wf(cs: Seq<AccountCursor>) -> bool {
    forall|j: int| 0 <= j < cs.len() ==> (#[trigger] cs[j]).processed <= cs[j].target
}

proof fn lemma_rem_sum_push(cs: Seq<AccountCursor>, c: AccountCursor, i: int)
    requires
        0 <= i <= cs.len(),
    ensures
        rem_sum(cs.push(c), i) == rem_sum(cs, i) + (c.target - c.processed),
    decreases cs.len() - i,
{
    if i == cs.len() {
        assert(cs.push(c)[i] == c);
        assert(rem_sum(cs.push(c), i + 1) == 0);
        assert(rem_sum(cs, i) == 0);
    } else {
        assert(cs.push(c)[i] == cs[i]);
        lemma_rem_sum_push(cs, c, i + 1);
    }
}

proof fn lemma_rem_sum_nonneg(cs: Seq<AccountCursor>, i: int)
    requires
        cursors_wf(cs),
        0 <= i <= cs.len(),
    ensures
        rem_sum(cs, i) >= 0,
    decreases cs.len() - i,
{
    if i < cs.len() {
        lemma_rem_sum_nonneg(cs, i + 1);
    }
}

/// The state of one synchronization pass, generic over the host's item
/// record.
pub struct SyncEngine<T> {
    pending: Option<Vec<T>>,
    mode: SyncMode,
    phase: SyncPhase,
    seeds: Vec<AccountSeed>,
    probe_idx: usize,
    cursors: Vec<AccountCursor>,
    cur_idx: usize,
    cur_processed: usize,
    progress: usize,
    total: usize,
    last_reported: usize,
    cleared: bool,
}

impl<T> SyncEngine<T> {
    pub closed spec fn mode(&self) -> SyncMode {
        self.mode
    }

    pub closed spec fn phase(&self) -> SyncPhase {
        self.phase
    }

    /// The accounts the pass was opened with.
    pub closed spec fn seeds(&self) -> Seq<AccountSeed> {
        self.seeds@
    }

    /// How many accounts have been probed.
    pub closed spec fn probed(&self) -> int {
        self.probe_idx as int
    }

    /// The accounts queued for fetching.
    pub closed spec fn queued(&self) -> Seq<AccountCursor> {
        self.cursors@
    }

    /// The index of the account being fetched.
    pub closed spec fn cur(&self) -> int {
        self.cur_idx as int
    }

    /// The effective processed count of the account being fetched.
    pub closed spec fn cur_processed(&self) -> int {
        self.cur_processed as int
    }

    /// Progress units done, as last computed.
    pub closed spec fn progress(&self) -> int {
        self.progress as int
    }

    /// The pass's progress total.
    pub closed spec fn total(&self) -> int {
        self.total as int
    }

    /// The value carried by the most recent progress report.
    pub closed spec fn last_reported(&self) -> int {
        self.last_reported as int
    }

    /// Whether the product store was cleared in this pass.
    pub closed spec fn cleared(&self) -> bool {
        self.cleared
    }

    /// The fetched page awaiting its insert: exactly the items the last
    /// page fetch returned.
    pub closed spec fn pending(&self) -> Seq<T> {
        self.pending->0@
    }

    /// Whether the pass is fetching pages: the phases in which a current
    /// account exists.
    pub open spec fn in_fetch(&self) -> bool {
        self.phase() is Starting || self.phase() is Fetching || self.phase() is Reporting
            || self.phase() is Inserting || self.phase() is SkipReporting
    }

    pub closed spec fn wf(&self) -> bool {
        &&& self.mode is Refresh ==> (!(self.phase is Clearing) ==> self.cleared)
        &&& self.mode is Update ==> !(self.phase is Clearing)
        &&& self.progress <= self.total
        &&& self.last_reported <= self.progress
        &&& cursors_wf(self.cursors@)
        &&& self.phase is Clearing ==> self.cursors@.len() == 0 && self.progress == 0
            && self.total == 0 && self.probe_idx == 0
        &&& self.phase is Probing ==> self.probe_idx < self.seeds@.len() && self.progress == 0
            && rem_sum(self.cursors@, 0) == self.total
        &&& self.phase is Starting ==> self.cursors@.len() > 0 && self.total > 0
            && self.progress == 0 && self.cur_idx == 0
            && self.cur_processed == self.cursors@[0].processed
        &&& self.in_fetch() ==> {
            &&& self.cur_idx < self.cursors@.len()
            &&& self.cur_processed <= self.cursors@[self.cur_idx as int].target
            &&& self.progress + (self.cursors@[self.cur_idx as int].target - self.cur_processed)
                + rem_sum(self.cursors@, self.cur_idx + 1) == self.total
        }
        &&& self.phase is Reporting || self.phase is Inserting || self.phase is SkipReporting
            ==> self.last_reported == self.progress
        &&& self.phase is Reporting ==> self.pending is Some
        &&& self.phase is SkipReporting ==> self.cur_processed
            == self.cursors@[self.cur_idx as int].target
        &&& self.phase is Finished ==> self.progress == self.total && (self.total > 0
            ==> self.last_reported == self.total)
    }

    /// Opens a pass over these accounts. A refresh first asks for the
    /// product store to be cleared; an update goes straight to probing, or
    /// is already complete when there is no account at all.
    pub fn begin(mode: SyncMode, seeds: Vec<AccountSeed>) -> (r: (Self, SyncAction<T>))
        ensures
            r.0.wf(),
            r.0.mode() == mode,
            r.0.seeds() == seeds@,
            r.0.progress() == 0,
            r.0.total() == 0,
            r.0.last_reported() == 0,
            !r.0.cleared(),
            mode is Refresh ==> r.0.phase() is Clearing && r.1 is ClearItems,
            mode is Update && seeds@.len() == 0 ==> r.0.phase() is Finished && r.1 is Finished,
            mode is Update && seeds@.len() > 0 ==> r.0.phase() is Probing && r.0.probed() == 0
                && (r.1 matches SyncAction::ProbeCount { account_id } && account_id
                == seeds@[0].account_id),
    {
        let has_seeds = seeds.len() > 0;
        let first_id = if has_seeds {
            seeds[0].account_id
        } else {
            0
        };
        let engine = SyncEngine {
            pending: None,
            mode,
            phase: match mode {
                SyncMode::Refresh => SyncPhase::Clearing,
                SyncMode::Update => {
                    if has_seeds {
                        SyncPhase::Probing
                    } else {
                        SyncPhase::Finished
                    }
                },
            },
            seeds,
            probe_idx: 0,
            cursors: Vec::new(),
            cur_idx: 0,
            cur_processed: 0,
            progress: 0,
            total: 0,
            last_reported: 0,
            cleared: false,
        };
        let action = match mode {
            SyncMode::Refresh => SyncAction::ClearItems,
            SyncMode::Update => {
                if has_seeds {
                    SyncAction::ProbeCount { account_id: first_id }
                } else {
                    SyncAction::Finished
                }
            },
        };
        (engine, action)
    }

    /// Takes the acknowledgement that the product store is cleared: from
    /// here on the pass may ask for items to be inserted, never before.
    pub fn offer_cleared(&mut self) -> (r: SyncAction<T>)
        requires
            old(self).wf(),
            old(self).phase() is Clearing,
        ensures
            final(self).wf(),
            final(self).cleared(),
            final(self).mode() == old(self).mode(),
            final(self).seeds() == old(self).seeds(),
            old(self).seeds().len() == 0 ==> final(self).phase() is Finished && r is Finished,
            old(self).seeds().len() > 0 ==> final(self).phase() is Probing && final(self).probed()
                == 0 && (r matches SyncAction::ProbeCount { account_id } && account_id == old(self).seeds()[0].account_id),
    {
        self.cleared = true;
        if self.seeds.len() == 0 {
            self.phase = SyncPhase::Finished;
            SyncAction::Finished
        } else {
            self.phase = SyncPhase::Probing;
            SyncAction::ProbeCount { account_id: self.seeds[0].account_id }
        }
    }

    /// Takes the outcome of one account's count probe. A count adds the
    /// account's delta — past its recorded count for an update, the whole
    /// count for a refresh — to the pass total and queues the account; no
    /// increase, and an authentication failure, skip it; any other fault
    /// aborts the whole pass. After the last probe the pass is complete if
    /// nothing is owed, and otherwise sends the initial progress report.
    pub fn offer_count(&mut self, outcome: CountOutcome) -> (r: SyncAction<T>)
        requires
            old(self).wf(),
            old(self).phase() is Probing,
        ensures
            final(self).wf(),
            final(self).mode() == old(self).mode(),
            final(self).seeds() == old(self).seeds(),
            final(self).cleared() == old(self).cleared(),
            final(self).last_reported() == 0,
            outcome is Failed ==> final(self).phase() is Aborted && r == (SyncAction::<T>::Abort {
                reason: AbortReason::CountFailed,
            }),
            outcome matches CountOutcome::Counted(n) ==> ({
                let d = count_delta(
                    old(self).mode(),
                    old(self).seeds()[old(self).probed()].prev_count,
                    n,
                );
                &&& (old(self).total() + d > usize::MAX ==> final(self).phase() is Aborted && r
                    == (SyncAction::<T>::Abort { reason: AbortReason::TotalTooLarge }))
                &&& (old(self).total() + d <= usize::MAX ==> {
                    &&& final(self).total() == old(self).total() + d
                    &&& (d > 0 ==> final(self).queued() == old(self).queued().push(
                        cursor_for(old(self).mode(), old(self).seeds()[old(self).probed()], n),
                    ))
                    &&& (d == 0 ==> final(self).queued() == old(self).queued())
                })
            }),
            outcome is AuthFailed ==> final(self).total() == old(self).total() && final(self).queued() == old(self).queued(),
            (outcome is AuthFailed || (outcome matches CountOutcome::Counted(n) && old(self).total()
                + count_delta(
                old(self).mode(),
                old(self).seeds()[old(self).probed()].prev_count,
                n,
            ) <= usize::MAX)) ==> !(final(self).phase() is Aborted),
            !(final(self).phase() is Aborted) ==> {
                &&& final(self).probed() == old(self).probed() + 1
                &&& (old(self).probed() + 1 < old(self).seeds().len() ==> final(self).phase() is Probing && (r matches SyncAction::ProbeCount { account_id }
                    && account_id == old(self).seeds()[old(self).probed() + 1].account_id))
                &&& (old(self).probed() + 1 == old(self).seeds().len() && final(self).total() == 0
                    ==> final(self).phase() is Finished && r is Finished)
                &&& (old(self).probed() + 1 == old(self).seeds().len() && final(self).total() > 0
                    ==> final(self).phase() is Starting && r == (SyncAction::<T>::Report {
                    done: 0usize,
                    total: final(self).total() as usize,
                }))
            },
    {
        match outcome {
            CountOutcome::Failed => {
                self.phase = SyncPhase::Aborted;
                return SyncAction::Abort { reason: AbortReason::CountFailed };
            },
            CountOutcome::Counted(n) => {
                let seed = self.seeds[self.probe_idx];
                let (delta, start): (usize, usize) = match self.mode {
                    SyncMode::Update => {
                        if n > seed.prev_count {
                            (n - seed.prev_count, seed.prev_count)
                        } else {
                            (0, 0)
                        }
                    },
                    SyncMode::Refresh => (n, 0),
                };
                if delta > 0 {
                    match self.total.checked_add(delta) {
                        Some(t) => {
                            let c = AccountCursor {
                                account_id: seed.account_id,
                                processed: start,
                                target: n,
                            };
                            proof {
                                lemma_rem_sum_push(self.cursors@, c, 0);
                            }
                            self.total = t;
                            self.cursors.push(c);
                        },
                        None => {
                            self.phase = SyncPhase::Aborted;
                            return SyncAction::Abort { reason: AbortReason::TotalTooLarge };
                        },
                    }
                }
            },
            CountOutcome::AuthFailed => {},
        }
        let n_seeds = self.seeds.len();
        self.probe_idx = self.probe_idx + 1;
        if self.probe_idx < n_seeds {
            return SyncAction::ProbeCount { account_id: self.seeds[self.probe_idx].account_id };
        }
        if self.total == 0 {
            self.phase = SyncPhase::Finished;
            return SyncAction::Finished;
        }
        assert(self.cursors@.len() > 0);
        self.phase = SyncPhase::Starting;
        self.cur_idx = 0;
        self.cur_processed = self.cursors[0].processed;
        SyncAction::Report { done: 0, total: self.total }
    }

    /// Takes the acknowledgement of a progress report. After the initial
    /// report the first account's first page is fetched; after a page's
    /// report its items are inserted; after a skipped account's report the
    /// pass moves to the next account, or is complete — and then the last
    /// report carried exactly the pass total.
    pub fn offer_report_ack(&mut self) -> (r: SyncAction<T>)
        requires
            old(self).wf(),
            old(self).phase() is Starting || old(self).phase() is Reporting || old(self).phase() is SkipReporting,
        ensures
            final(self).wf(),
            final(self).mode() == old(self).mode(),
            final(self).seeds() == old(self).seeds(),
            final(self).cleared() == old(self).cleared(),
            final(self).queued() == old(self).queued(),
            final(self).total() == old(self).total(),
            final(self).progress() == old(self).progress(),
            final(self).last_reported() == old(self).last_reported(),
            old(self).phase() is Starting ==> final(self).phase() is Fetching && final(self).cur()
                == 0 && final(self).cur_processed() == old(self).cur_processed() && (
            r matches SyncAction::FetchPage { account_id, page } && account_id == old(self).queued()[0].account_id && page == spec_first_unseen_page(old(self).cur_processed())),
            old(self).phase() is Reporting ==> final(self).phase() is Inserting && (
            r matches SyncAction::InsertPage { account_id, items } && account_id == old(self).queued()[old(self).cur()].account_id && items@ == old(self).pending()),
            r is InsertPage ==> (final(self).mode() is Refresh ==> final(self).cleared()),
            old(self).phase() is SkipReporting && old(self).cur() + 1 < old(self).queued().len()
                ==> final(self).phase() is Fetching && final(self).cur() == old(self).cur() + 1
                && final(self).cur_processed() == old(self).queued()[old(self).cur()
                + 1].processed && (r matches SyncAction::FetchPage { account_id, page }
                && account_id == old(self).queued()[old(self).cur() + 1].account_id && page
                == spec_first_unseen_page(final(self).cur_processed())),
            old(self).phase() is SkipReporting && old(self).cur() + 1 == old(self).queued().len()
                ==> final(self).phase() is Finished && r is Finished && final(self).progress()
                == final(self).total() && final(self).last_reported() == final(self).total(),
    {
        match self.phase {
            SyncPhase::Starting => {
                self.phase = SyncPhase::Fetching;
                SyncAction::FetchPage {
                    account_id: self.cursors[self.cur_idx].account_id,
                    page: first_unseen_page(self.cur_processed),
                }
            },
            SyncPhase::Reporting => {
                self.phase = SyncPhase::Inserting;
                let items = self.pending.take().unwrap();
                SyncAction::InsertPage { account_id: self.cursors[self.cur_idx].account_id, items }
            },
            _ => {
                let n_cursors = self.cursors.len();
                if self.cur_idx + 1 < n_cursors {
                    self.cur_idx = self.cur_idx + 1;
                    self.cur_processed = self.cursors[self.cur_idx].processed;
                    self.phase = SyncPhase::Fetching;
                    SyncAction::FetchPage {
                        account_id: self.cursors[self.cur_idx].account_id,
                        page: first_unseen_page(self.cur_processed),
                    }
                } else {
                    self.phase = SyncPhase::Finished;
                    SyncAction::Finished
                }
            },
        }
    }

    /// Takes a fetched page: the items it returned, held for the insert
    /// that follows the report, so the host persists exactly what the fetch
    /// brought. The effective processed count is recomputed from the page
    /// number and the returned count — never assumed to be a full page —
    /// then clamped so that it neither passes the account's target nor
    /// moves backwards; the difference becomes progress, reported before
    /// the page is inserted.
    pub fn offer_page(&mut self, items: Vec<T>) -> (r: SyncAction<T>)
        requires
            old(self).wf(),
            old(self).phase() is Fetching,
        ensures
            final(self).wf(),
            final(self).mode() == old(self).mode(),
            final(self).seeds() == old(self).seeds(),
            final(self).cleared() == old(self).cleared(),
            final(self).queued() == old(self).queued(),
            final(self).total() == old(self).total(),
            final(self).cur() == old(self).cur(),
            final(self).phase() is Reporting,
            ({
                let page = spec_first_unseen_page(old(self).cur_processed());
                let eff = spec_effective_processed(page, items@.len() as int);
                let target = old(self).queued()[old(self).cur()].target as int;
                let clamped = if eff > target {
                    target
                } else if eff < old(self).cur_processed() {
                    old(self).cur_processed()
                } else {
                    eff
                };
                &&& final(self).cur_processed() == clamped
                &&& final(self).progress() == old(self).progress() + (clamped - old(self).cur_processed())
            }),
            r == (SyncAction::<T>::Report {
                done: final(self).progress() as usize,
                total: final(self).total() as usize,
            }),
            final(self).last_reported() == final(self).progress(),
            final(self).progress() >= old(self).last_reported(),
            final(self).progress() <= final(self).total(),
            final(self).pending() == items@,
    {
        let page = first_unseen_page(self.cur_processed);
        let target = self.cursors[self.cur_idx].target;
        let returned = items.len();
        let clamped = match crate::pagination::effective_processed(page, returned) {
            Some(eff) => {
                if eff > target {
                    target
                } else if eff < self.cur_processed {
                    self.cur_processed
                } else {
                    eff
                }
            },
            None => target,
        };
        let delta = clamped - self.cur_processed;
        proof {
            lemma_rem_sum_nonneg(self.cursors@, self.cur_idx + 1);
        }
        self.progress = self.progress + delta;
        self.cur_processed = clamped;
        self.phase = SyncPhase::Reporting;
        self.last_reported = self.progress;
        self.pending = Some(items);
        SyncAction::Report { done: self.progress, total: self.total }
    }

    /// Takes a page fetch that raised the not-authenticated condition: the
    /// account's remaining items count as skipped — progress advances by
    /// them all at once — and after the report's ack the pass moves on.
    pub fn offer_page_auth_failed(&mut self) -> (r: SyncAction<T>)
        requires
            old(self).wf(),
            old(self).phase() is Fetching,
        ensures
            final(self).wf(),
            final(self).mode() == old(self).mode(),
            final(self).seeds() == old(self).seeds(),
            final(self).cleared() == old(self).cleared(),
            final(self).queued() == old(self).queued(),
            final(self).total() == old(self).total(),
            final(self).cur() == old(self).cur(),
            final(self).phase() is SkipReporting,
            final(self).cur_processed() == old(self).queued()[old(self).cur()].target,
            final(self).progress() == old(self).progress() + (old(self).queued()[old(self).cur()].target - old(self).cur_processed()),
            r == (SyncAction::<T>::Report {
                done: final(self).progress() as usize,
                total: final(self).total() as usize,
            }),
            final(self).last_reported() == final(self).progress(),
            final(self).progress() >= old(self).last_reported(),
            final(self).progress() <= final(self).total(),
    {
        let target = self.cursors[self.cur_idx].target;
        let delta = target - self.cur_processed;
        proof {
            lemma_rem_sum_nonneg(self.cursors@, self.cur_idx + 1);
        }
        self.progress = self.progress + delta;
        self.cur_processed = target;
        self.phase = SyncPhase::SkipReporting;
        self.last_reported = self.progress;
        SyncAction::Report { done: self.progress, total: self.total }
    }

    /// Takes a page fetch that failed with other than the not-authenticated
    /// condition: the whole pass aborts.
    pub fn offer_page_failed(&mut self) -> (r: SyncAction<T>)
        requires
            old(self).wf(),
            old(self).phase() is Fetching,
        ensures
            final(self).wf(),
            final(self).phase() is Aborted,
            r == (SyncAction::<T>::Abort { reason: AbortReason::PageFailed }),
    {
        self.phase = SyncPhase::Aborted;
        SyncAction::Abort { reason: AbortReason::PageFailed }
    }

    /// Takes the acknowledgement that the fetched page's items are
    /// persisted: the account continues at its next unseen page, or the
    /// pass moves to the next account, or is complete — and then the last
    /// report carried exactly the pass total.
    pub fn offer_insert_done(&mut self) -> (r: SyncAction<T>)
        requires
            old(self).wf(),
            old(self).phase() is Inserting,
        ensures
            final(self).wf(),
            final(self).mode() == old(self).mode(),
            final(self).seeds() == old(self).seeds(),
            final(self).cleared() == old(self).cleared(),
            final(self).queued() == old(self).queued(),
            final(self).total() == old(self).total(),
            final(self).progress() == old(self).progress(),
            final(self).last_reported() == old(self).last_reported(),
            old(self).cur_processed() < old(self).queued()[old(self).cur()].target as int ==> final(self).phase() is Fetching && final(self).cur() == old(self).cur() && final(self).cur_processed() == old(self).cur_processed() && (
            r matches SyncAction::FetchPage { account_id, page } && account_id == old(self).queued()[old(self).cur()].account_id && page == spec_first_unseen_page(
                old(self).cur_processed(),
            )),
            old(self).cur_processed() == old(self).queued()[old(self).cur()].target as int && old(self).cur() + 1 < old(self).queued().len() ==> final(self).phase() is Fetching && final(self).cur() == old(self).cur() + 1 && final(self).cur_processed() == old(self).queued()[old(self).cur() + 1].processed && (r matches SyncAction::FetchPage { account_id, page }
                && account_id == old(self).queued()[old(self).cur() + 1].account_id && page
                == spec_first_unseen_page(final(self).cur_processed())),
            old(self).cur_processed() == old(self).queued()[old(self).cur()].target as int && old(self).cur() + 1 == old(self).queued().len() ==> final(self).phase() is Finished
                && r is Finished && final(self).progress() == final(self).total() && final(self).last_reported() == final(self).total(),
    {
        let target = self.cursors[self.cur_idx].target;
        if self.cur_processed < target {
            self.phase = SyncPhase::Fetching;
            SyncAction::FetchPage {
                account_id: self.cursors[self.cur_idx].account_id,
                page: first_unseen_page(self.cur_processed),
            }
        } else {
            let n_cursors = self.cursors.len();
            if self.cur_idx + 1 < n_cursors {
                self.cur_idx = self.cur_idx + 1;
                self.cur_processed = self.cursors[self.cur_idx].processed;
                self.phase = SyncPhase::Fetching;
                SyncAction::FetchPage {
                    account_id: self.cursors[self.cur_idx].account_id,
                    page: first_unseen_page(self.cur_processed),
                }
            } else {
                self.phase = SyncPhase::Finished;
                SyncAction::Finished
            }
        }
    }
}

} // verus!
