//! The aggregator: per-item and batch-wide download state.
//!
//! One record exists per submitted item; `id` is the only stable identity.
//! Status transitions are monotone — `Queued`, then `Active` with
//! non-decreasing progress, then `Done` or `Failed`, and a terminal state is
//! never left. `completed` counts the terminal records and never exceeds the
//! batch total; the batch finishes exactly once. Events for handles that are
//! unknown (a cleared batch) are dropped.

use vstd::prelude::*;
use vstd::string::StringExecFns;

use crate::strutil::{dec_rep2, u64_to_string2};
use crate::track::{DlStatus, Track};

verus! {

/// One download record: the aggregator's view of one submitted item.
/// `progress` mirrors the `Active` payload, in hundredths of a percent, and
/// is retained at `10000` on `Done`.
#[derive(Debug)]
pub struct DownloadRecord {
    pub id: u64,
    pub track: Track,
    pub status: DlStatus,
    pub progress: u32,
}

/// How far along the monotone status order a record stands.
pub open spec fn status_rank(s: DlStatus) -> int {
    match s {
        DlStatus::Queued => 0,
        DlStatus::Active(_) => 1,
        DlStatus::Done => 2,
        DlStatus::Failed(_) => 2,
    }
}

/// The progress field mirrors the status.
pub open spec fn record_consistent(r: DownloadRecord) -> bool {
    match r.status {
        DlStatus::Queued => r.progress == 0,
        DlStatus::Active(p) => r.progress == p,
        DlStatus::Done => r.progress == 10000,
        DlStatus::Failed(_) => true,
    }
}

/// How many records are in a terminal state.
pub open spec fn count_terminal(s: Seq<DownloadRecord>) -> int
    decreases s.len(),
{
    if s.len() == 0 {
        0
    } else {
        count_terminal(s.drop_last()) + if s.last().status.is_terminal() { 1int } else { 0int }
    }
}

/// The first record with the given handle, scanning from `k`.
pub open spec fn find_from(s: Seq<DownloadRecord>, id: u64, k: int) -> Option<int>
    decreases s.len() - k,
        when 0 <= k <= s.len()
{
    if k >= s.len() {
        None
    } else if s[k].id == id {
        Some(k)
    } else {
        find_from(s, id, k + 1)
    }
}

/// The terminal count is bounded by the record count.
pub proof fn lemma_count_terminal_bounds(s: Seq<DownloadRecord>)
    ensures
        0 <= count_terminal(s) <= s.len(),
    decreases s.len(),
{
    if s.len() > 0 {
        lemma_count_terminal_bounds(s.drop_last());
    }
}

/// Replacing one record changes the terminal count by the difference the
/// replacement makes.
pub proof fn lemma_count_terminal_update(s: Seq<DownloadRecord>, i: int, r: DownloadRecord)
    requires
        0 <= i < s.len(),
    ensures
        count_terminal(s.update(i, r)) == count_terminal(s)
            - (if s[i].status.is_terminal() { 1int } else { 0int })
            + (if r.status.is_terminal() { 1int } else { 0int }),
    decreases s.len(),
{
    let su = s.update(i, r);
    if i == s.len() - 1 {
        assert(su.drop_last() =~= s.drop_last());
        assert(su.last() == r);
    } else {
        assert(su.drop_last() =~= s.drop_last().update(i, r));
        assert(su.last() == s.last());
        lemma_count_terminal_update(s.drop_last(), i, r);
    }
}

/// When every record counts as terminal, every record is terminal.
pub proof fn lemma_count_terminal_full(s: Seq<DownloadRecord>)
    requires
        count_terminal(s) == s.len(),
    ensures
        forall|k: int| 0 <= k < s.len() ==> (#[trigger] s[k]).status.is_terminal(),
    decreases s.len(),
{
    if s.len() > 0 {
        lemma_count_terminal_bounds(s.drop_last());
        lemma_count_terminal_full(s.drop_last());
        assert(forall|k: int| 0 <= k < s.len() - 1 ==> s[k] == s.drop_last()[k]);
    }
}

/// The per-item log block appended when an item reaches a terminal state:
/// `=== <label> ===` for a success, `=== fail: <label> ===` for a failure,
/// followed by the task's raw output.
pub open spec fn log_entry_spec(t: Track, result: Result<String, String>) -> Seq<char> {
    let label = t.artist@.add(" - "@).add(t.title@);
    match result {
        Ok(log) => "=== "@.add(label).add(" ===\n"@).add(log@),
        Err(e) => "=== fail: "@.add(label).add(" ===\n"@).add(e@),
    }
}

/// Batch-wide and per-item download state. One batch is active at a time; a
/// new submission clears the prior batch's records.
#[derive(Debug)]
pub struct Aggregator {
    /// The current batch's records, in submission order.
    pub records: Vec<DownloadRecord>,
    /// The next handle to hand out; handles are never reused.
    pub next_dl_id: u64,
    /// How many items the current batch holds.
    pub total: usize,
    /// How many items have reached a terminal state.
    pub done: usize,
    /// Whether a batch is active: submitted and not yet fully complete.
    pub active: bool,
    /// The session log: one block per completed item, success or failure.
    pub logs: Vec<String>,
}

impl Aggregator {
    /// The aggregator's internal invariant: `done` counts the terminal
    /// records, the records are the batch, handles are unique and below the
    /// next handle, and each record's progress mirrors its status.
    pub open spec fn wf(self) -> bool {
        &&& self.records@.len() == self.total
        &&& self.done == count_terminal(self.records@)
        &&& (forall|i: int, j: int| 0 <= i < j < self.records@.len()
                ==> self.records@[i].id != self.records@[j].id)
        &&& (forall|i: int| 0 <= i < self.records@.len()
                ==> (#[trigger] self.records@[i]).id < self.next_dl_id)
        &&& (forall|i: int| 0 <= i < self.records@.len()
                ==> record_consistent(#[trigger] self.records@[i]))
    }

    /// `completed` never exceeds the batch total.
    pub proof fn lemma_completed_le_total(self)
        requires
            self.wf(),
        ensures
            self.done <= self.total,
    {
        lemma_count_terminal_bounds(self.records@);
    }

    pub fn new() -> (r: Self)
        ensures
            r.wf(),
            r.records@.len() == 0,
            r.next_dl_id == 0,
            r.total == 0,
            r.done == 0,
            !r.active,
            r.logs@.len() == 0,
    {
        Aggregator {
            records: Vec::new(),
            next_dl_id: 0,
            total: 0,
            done: 0,
            active: false,
            logs: Vec::new(),
        }
    }

    /// Submit a batch: clear any prior batch's records, create one `Queued`
    /// record per item and return the handles, in submission order. An empty
    /// batch changes nothing.
    pub fn submit(&mut self, tracks: Vec<Track>) -> (ids: Vec<u64>)
        requires
            old(self).wf(),
            old(self).next_dl_id + tracks@.len() <= u64::MAX,
        ensures
            final(self).wf(),
            tracks@.len() == 0 ==> *final(self) == *old(self) && ids@.len() == 0,
            tracks@.len() > 0 ==> {
                &&& final(self).total == tracks@.len()
                &&& final(self).done == 0
                &&& final(self).active
                &&& final(self).next_dl_id == old(self).next_dl_id + tracks@.len()
                &&& final(self).logs == old(self).logs
                &&& ids@.len() == tracks@.len()
                &&& final(self).records@.len() == tracks@.len()
                &&& (forall|i: int| 0 <= i < tracks@.len()
                        ==> #[trigger] ids@[i] == old(self).next_dl_id + i)
                &&& (forall|i: int| 0 <= i < tracks@.len() ==> {
                        let r = #[trigger] final(self).records@[i];
                        r.id == old(self).next_dl_id + i
                            && r.status is Queued
                            && r.progress == 0
                            && r.track == tracks@[i]
                    })
            },
    {
        if tracks.len() == 0 {
            return Vec::new();
        }
        self.records.clear();
        self.total = tracks.len();
        self.done = 0;
        self.active = true;
        let mut ids: Vec<u64> = Vec::new();
        let n = tracks.len();
        let ghost id0 = self.next_dl_id;
        let mut idx: usize = 0;
        while idx < n
            invariant
                n == tracks@.len(),
                idx <= n,
                self.next_dl_id == id0 + idx,
                id0 + n <= u64::MAX,
                self.total == n,
                self.done == 0,
                self.active,
                self.logs == old(self).logs,
                ids@.len() == idx,
                self.records@.len() == idx,
                forall|i: int| 0 <= i < idx ==> #[trigger] ids@[i] == id0 + i,
                forall|i: int| 0 <= i < idx ==> {
                    let r = #[trigger] self.records@[i];
                    r.id == id0 + i
                        && r.status is Queued
                        && r.progress == 0
                        && r.track == tracks@[i]
                },
                count_terminal(self.records@) == 0,
            decreases n - idx,
        {
            let id = self.next_dl_id;
            self.next_dl_id = self.next_dl_id + 1;
            ids.push(id);
            let ghost before = self.records@;
            self.records.push(DownloadRecord {
                id,
                track: tracks[idx].clone(),
                status: DlStatus::Queued,
                progress: 0,
            });
            proof {
                assert(self.records@.drop_last() =~= before);
            }
            idx = idx + 1;
        }
        ids
    }

    /// The query surface for one item: its status and progress, by handle.
    pub fn query(&self, id: u64) -> (r: Option<(DlStatus, u32)>)
        ensures
            match find_from(self.records@, id, 0) {
                None => r is None,
                Some(i) => r matches Some(p) && p.0 == self.records@[i].status
                    && p.1 == self.records@[i].progress,
            },
    {
        let n = self.records.len();
        let mut k: usize = 0;
        while k < n
            invariant
                n == self.records@.len(),
                k <= n,
                find_from(self.records@, id, 0) == find_from(self.records@, id, k as int),
            decreases n - k,
        {
            if self.records[k].id == id {
                assert(find_from(self.records@, id, k as int) == Some(k as int));
                return Some((self.records[k].status.clone(), self.records[k].progress));
            }
            assert(find_from(self.records@, id, k as int)
                == find_from(self.records@, id, k + 1));
            k = k + 1;
        }
        None
    }

    /// Record a progress event: update the matching record where one exists,
    /// is not terminal, and the report does not run backwards; drop the
    /// event otherwise. Unknown handles are a no-op.
    pub fn on_progress(&mut self, id: u64, pct: u32)
        requires
            old(self).wf(),
        ensures
            final(self).wf(),
            final(self).next_dl_id == old(self).next_dl_id,
            final(self).total == old(self).total,
            final(self).done == old(self).done,
            final(self).active == old(self).active,
            final(self).logs == old(self).logs,
            match find_from(old(self).records@, id, 0) {
                None => final(self).records@ == old(self).records@,
                Some(i) => {
                    let r = old(self).records@[i];
                    if !r.status.is_terminal() && pct >= r.progress {
                        final(self).records@ == old(self).records@.update(i, (DownloadRecord {
                            status: DlStatus::Active(pct),
                            progress: pct,
                            ..r
                        }))
                    } else {
                        final(self).records@ == old(self).records@
                    }
                },
            },
            // the monotone order: a terminal record is never touched, the
            // status rank never falls, and progress never falls
            forall|k: int| 0 <= k < old(self).records@.len()
                && (#[trigger] old(self).records@[k]).status.is_terminal()
                ==> final(self).records@[k] == old(self).records@[k],
            forall|k: int| 0 <= k < old(self).records@.len()
                ==> status_rank((#[trigger] final(self).records@[k]).status)
                    >= status_rank(old(self).records@[k].status),
            forall|k: int| 0 <= k < old(self).records@.len()
                ==> (#[trigger] final(self).records@[k]).progress
                    >= old(self).records@[k].progress,
    {
        let n = self.records.len();
        let mut k: usize = 0;
        while k < n
            invariant
                old(self).wf(),
                *self == *old(self),
                n == self.records@.len(),
                k <= n,
                find_from(old(self).records@, id, 0)
                    == find_from(old(self).records@, id, k as int),
            decreases n - k,
        {
            if self.records[k].id == id {
                assert(find_from(old(self).records@, id, k as int) == Some(k as int));
                let terminal = match &self.records[k].status {
                    DlStatus::Done => true,
                    DlStatus::Failed(_) => true,
                    _ => false,
                };
                if !terminal && pct >= self.records[k].progress {
                    let ghost before = self.records@;
                    let rec = &mut self.records[k];
                    rec.status = DlStatus::Active(pct);
                    rec.progress = pct;
                    proof {
                        let ghost after = self.records@;
                        assert(after =~= before.update(k as int, after[k as int]));
                        lemma_count_terminal_update(before, k as int, after[k as int]);
                    }
                }
                return;
            }
            assert(find_from(old(self).records@, id, k as int)
                == find_from(old(self).records@, id, k + 1));
            k = k + 1;
        }
    }

    /// Record a terminal event. The matching record, where one exists and is
    /// not already terminal, moves to `Done` or `Failed`; the per-item log
    /// block is appended to the session log and returned; the second result
    /// says whether this event completed the batch. A batch completes at
    /// most once: once `done == total`, no later event reports completion.
    /// Unknown handles and repeated terminal events are a no-op.
    pub fn on_terminal(&mut self, id: u64, result: Result<String, String>)
        -> (r: (Option<String>, bool))
        requires
            old(self).wf(),
        ensures
            final(self).wf(),
            final(self).next_dl_id == old(self).next_dl_id,
            final(self).total == old(self).total,
            final(self).records@.len() == old(self).records@.len(),
            match find_from(old(self).records@, id, 0) {
                None => *final(self) == *old(self) && r.0 is None && !r.1,
                Some(i) => {
                    let rec = old(self).records@[i];
                    if rec.status.is_terminal() {
                        *final(self) == *old(self) && r.0 is None && !r.1
                    } else {
                        &&& final(self).records@ == old(self).records@.update(i, (DownloadRecord {
                                status: (match result {
                                    Ok(_) => DlStatus::Done,
                                    Err(e) => DlStatus::Failed(e),
                                }),
                                progress: (match result {
                                    Ok(_) => 10000u32,
                                    Err(_) => rec.progress,
                                }),
                                ..rec
                            }))
                        &&& final(self).done == old(self).done + 1
                        &&& (r.0 matches Some(entry)
                            && entry@ == log_entry_spec(rec.track, result)
                            && final(self).logs@ == old(self).logs@.push(entry))
                        &&& r.1 == (final(self).done == final(self).total)
                        &&& final(self).active ==
                            (old(self).active && final(self).done < final(self).total)
                    }
                },
            },
            // the batch finishes at most once
            old(self).done == old(self).total ==> !r.1,
            // the monotone order: a terminal record is never touched and the
            // status rank never falls
            forall|k: int| 0 <= k < old(self).records@.len()
                && (#[trigger] old(self).records@[k]).status.is_terminal()
                ==> final(self).records@[k] == old(self).records@[k],
            forall|k: int| 0 <= k < old(self).records@.len()
                ==> status_rank((#[trigger] final(self).records@[k]).status)
                    >= status_rank(old(self).records@[k].status),
    {
        proof {
            if old(self).done == old(self).total {
                lemma_count_terminal_full(old(self).records@);
            }
        }
        let n = self.records.len();
        let mut k: usize = 0;
        while k < n
            invariant
                old(self).wf(),
                *self == *old(self),
                n == self.records@.len(),
                k <= n,
                find_from(old(self).records@, id, 0)
                    == find_from(old(self).records@, id, k as int),
            decreases n - k,
        {
            if self.records[k].id == id {
                assert(find_from(old(self).records@, id, k as int) == Some(k as int));
                let terminal = match &self.records[k].status {
                    DlStatus::Done => true,
                    DlStatus::Failed(_) => true,
                    _ => false,
                };
                if terminal {
                    return (None, false);
                }
                let label = self.records[k].track.yt_query();
                let ghost before = self.records@;
                let entry: String;
                match result {
                    Ok(log) => {
                        let rec = &mut self.records[k];
                        rec.status = DlStatus::Done;
                        rec.progress = 10000;
                        let mut e = "=== ".to_owned();
                        e.append(label.as_str());
                        e.append(" ===\n");
                        e.append(log.as_str());
                        entry = e;
                    },
                    Err(err) => {
                        let rec = &mut self.records[k];
                        rec.status = DlStatus::Failed(err.clone());
                        let mut e = "=== fail: ".to_owned();
                        e.append(label.as_str());
                        e.append(" ===\n");
                        e.append(err.as_str());
                        entry = e;
                    },
                }
                proof {
                    let ghost after = self.records@;
                    assert(after =~= before.update(k as int, after[k as int]));
                    lemma_count_terminal_update(before, k as int, after[k as int]);
                    lemma_count_terminal_bounds(before);
                    if count_terminal(before) == before.len() {
                        lemma_count_terminal_full(before);
                    }
                    assert(count_terminal(before) < before.len());
                }
                self.done = self.done + 1;
                let ghost logs_before = self.logs@;
                self.logs.push(entry.clone());
                proof {
                    assert(self.logs@.drop_last() =~= logs_before);
                }
                let finished = self.done == self.total;
                if finished {
                    self.active = false;
                }
                return (Some(entry), finished);
            }
            assert(find_from(old(self).records@, id, k as int)
                == find_from(old(self).records@, id, k + 1));
            k = k + 1;
        }
        (None, false)
    }
}

/// What `estimate_remaining` returns: no estimate unless a batch is active
/// with work both completed and remaining; otherwise the elapsed time per
/// completed item times the remaining count, in whole seconds, saturating.
pub open spec fn estimate_spec(a: Aggregator, elapsed_ms: u64) -> Option<u64> {
    if !a.active || a.done == 0 || a.done >= a.total {
        None
    } else {
        let q = (elapsed_ms * (a.total - a.done)) / (a.done * 1000);
        Some(if q > u64::MAX { u64::MAX } else { q as u64 })
    }
}

/// What `eta_string` returns: `eta MM:SS`, empty when there is no estimate.
pub open spec fn eta_string_spec(a: Aggregator, elapsed_ms: u64) -> Seq<char> {
    match estimate_spec(a, elapsed_ms) {
        None => Seq::<char>::empty(),
        Some(secs) => "eta "@.add(dec_rep2(secs as int / 60)).add(":"@).add(
            dec_rep2(secs as int % 60)),
    }
}

/// No estimate exists before the first completion or when nothing remains;
/// once a second or more has elapsed per completed item, the estimate is a
/// positive number of seconds.
pub proof fn lemma_estimate_properties(a: Aggregator, elapsed_ms: u64)
    requires
        a.wf(),
    ensures
        (!a.active || a.done == 0 || a.done >= a.total) ==> estimate_spec(a, elapsed_ms) is None,
        (a.active && 0 < a.done < a.total && elapsed_ms as int >= 1000 * (a.done as int))
            ==> (estimate_spec(a, elapsed_ms) matches Some(v) && v >= 1),
{
    if a.active && 0 < a.done < a.total && elapsed_ms as int >= 1000 * (a.done as int) {
        let rem = a.total as int - a.done as int;
        let num = elapsed_ms as int * rem;
        let den = a.done as int * 1000;
        assert(num >= den) by (nonlinear_arith)
            requires
                rem >= 1,
                elapsed_ms as int >= den,
                den > 0,
                num == elapsed_ms as int * rem,
        ;
        vstd::arithmetic::div_mod::lemma_div_non_zero(num, den);
    }
}

impl Aggregator {
    /// The estimated remaining time of the active batch, in whole seconds,
    /// from the milliseconds elapsed since the batch was submitted. The
    /// formula assumes uniform per-item cost: elapsed over completed, times
    /// remaining. No estimate before the first completion, after the last,
    /// or without an active batch.
    pub fn estimate_remaining(&self, elapsed_ms: u64) -> (r: Option<u64>)
        requires
            self.wf(),
        ensures
            r == estimate_spec(*self, elapsed_ms),
    {
        if !self.active || self.done == 0 || self.done >= self.total {
            return None;
        }
        let remaining = self.total - self.done;
        proof {
            assert((elapsed_ms as int) * (remaining as int)
                <= (u64::MAX as int) * (usize::MAX as int)) by (nonlinear_arith)
                requires
                    0 <= elapsed_ms as int <= u64::MAX as int,
                    0 <= remaining as int <= usize::MAX as int,
            ;
            assert((self.done as int) * 1000 <= (usize::MAX as int) * 1000);
        }
        let num: u128 = (elapsed_ms as u128) * (remaining as u128);
        let den: u128 = (self.done as u128) * 1000;
        let q = num / den;
        if q > u64::MAX as u128 {
            Some(u64::MAX)
        } else {
            Some(q as u64)
        }
    }

    /// The estimate as the interface shows it: `eta MM:SS`, empty when no
    /// estimate is available.
    pub fn eta_string(&self, elapsed_ms: u64) -> (r: String)
        requires
            self.wf(),
        ensures
            r@ == eta_string_spec(*self, elapsed_ms),
    {
        match self.estimate_remaining(elapsed_ms) {
            None => String::new(),
            Some(secs) => {
                let m = secs / 60;
                let s2 = secs % 60;
                let mut out = "eta ".to_owned();
                let mm = u64_to_string2(m);
                out.append(mm.as_str());
                out.append(":");
                let ss = u64_to_string2(s2);
                out.append(ss.as_str());
                out
            },
        }
    }
}

} // verus!
