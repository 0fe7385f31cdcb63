//! The download orchestrator: registering a tracked download, folding each
//! upstream progress chunk into the store, terminal handling for transport
//! failures, and cooperative cancellation.
//!
//! The host opens the upstream pull stream and feeds every line of its
//! chunked body to [`process_pull_line`]; everything decided about a line is
//! verified here.

use vstd::prelude::*;
use vstd::string::StringExecFns;
use crate::fmt::{speed_label, speed_label_view};
use crate::record::{
    cancelled_view, fresh_view, invalid_name_view, transport_error_view, ProgressView,
    PullProgress,
};
use crate::store::ProgressStore;
use crate::text::{str_eq, trim_seq, trim_str};
use crate::upstream::{parse_pull_chunk, pull_chunk_of, PullChunk, PullChunkView};

verus! {

/// The chunk's phase label; an absent field reads as the empty label.
pub open spec fn chunk_status(c: PullChunkView) -> Seq<char> {
    match c.status {
        Some(s) => s,
        None => Seq::empty(),
    }
}

/// The chunk's total byte count; an absent field reads as zero.
pub open spec fn chunk_total(c: PullChunkView) -> u64 {
    match c.total {
        Some(t) => t,
        None => 0,
    }
}

/// The chunk's completed byte count; an absent field reads as zero.
pub open spec fn chunk_completed(c: PullChunkView) -> u64 {
    match c.completed {
        Some(n) => n,
        None => 0,
    }
}

/// The chunk carries an error field.
pub open spec fn chunk_is_error(c: PullChunkView) -> bool {
    c.error is Some
}

/// The chunk's failure description; empty when absent.
pub open spec fn chunk_error_message(c: PullChunkView) -> Seq<char> {
    match c.error {
        Some(e) => e,
        None => Seq::empty(),
    }
}

/// The chunk reports successful completion.
pub open spec fn chunk_is_success(c: PullChunkView) -> bool {
    chunk_status(c) == "success"@
}

/// The chunk ends the download, successfully or not.
pub open spec fn chunk_is_terminal(c: PullChunkView) -> bool {
    chunk_is_success(c) || chunk_is_error(c)
}

/// The completion estimate for `completed` of `total` bytes, in whole
/// percent, clamped to `0..=100`; zero when the total is unknown.
pub open spec fn percent_of(completed: u64, total: u64) -> u64 {
    if total == 0 {
        0
    } else if completed * 100 / (total as int) > 100 {
        100
    } else {
        (completed * 100 / (total as int)) as u64
    }
}

/// The record that one parsed upstream chunk produces for `model` at time
/// `now`: an error field wins and is terminal; a success status is terminal
/// at one hundred percent; anything else is a live update.
pub open spec fn chunk_record_view(model: Seq<char>, c: PullChunkView, now: i64) -> ProgressView {
    let percent = percent_of(chunk_completed(c), chunk_total(c));
    let speed = speed_label_view(chunk_completed(c), chunk_total(c));
    if chunk_is_error(c) {
        ProgressView {
            model,
            status: "Error"@,
            percent,
            done: true,
            error: Some(chunk_error_message(c)),
            bytes_downloaded: chunk_completed(c),
            speed,
            last_update: now,
        }
    } else if chunk_is_success(c) {
        ProgressView {
            model,
            status: "Complete"@,
            percent: 100,
            done: true,
            error: None,
            bytes_downloaded: chunk_completed(c),
            speed,
            last_update: now,
        }
    } else {
        ProgressView {
            model,
            status: chunk_status(c),
            percent,
            done: false,
            error: None,
            bytes_downloaded: chunk_completed(c),
            speed,
            last_update: now,
        }
    }
}

/// Compute [`percent_of`] without overflow.
pub fn compute_percent(completed: u64, total: u64) -> (r: u64)
    ensures
        r == percent_of(completed, total),
        r <= 100,
{
    if total == 0 {
        0
    } else {
        let p: u128 = (completed as u128) * 100 / (total as u128);
        if p > 100 {
            100
        } else {
            p as u64
        }
    }
}

/// Build the record that one parsed upstream chunk produces, as
/// [`chunk_record_view`] states it.
pub fn apply_chunk(model: &str, chunk: &PullChunk, now: i64) -> (r: PullProgress)
    ensures
        r@ == chunk_record_view(model@, chunk@, now),
{
    let total = match &chunk.total {
        Some(t) => *t,
        None => 0,
    };
    let completed = match &chunk.completed {
        Some(n) => *n,
        None => 0,
    };
    let percent = compute_percent(completed, total);
    let speed = speed_label(completed, total);
    match &chunk.error {
        Some(e) => PullProgress {
            model: String::from_str(model),
            status: String::from_str("Error"),
            percent,
            done: true,
            error: Some(e.clone()),
            bytes_downloaded: completed,
            speed,
            last_update: now,
        },
        None => {
            let status_str: &str = match &chunk.status {
                Some(s) => s.as_str(),
                None => "",
            };
            proof {
                reveal_strlit("");
                assert(""@ =~= Seq::<char>::empty());
            }
            if str_eq(status_str, "success") {
                PullProgress {
                    model: String::from_str(model),
                    status: String::from_str("Complete"),
                    percent: 100,
                    done: true,
                    error: None,
                    bytes_downloaded: completed,
                    speed,
                    last_update: now,
                }
            } else {
                let status = match &chunk.status {
                    Some(s) => s.clone(),
                    None => String::new(),
                };
                PullProgress {
                    model: String::from_str(model),
                    status,
                    percent,
                    done: false,
                    error: None,
                    bytes_downloaded: completed,
                    speed,
                    last_update: now,
                }
            }
        },
    }
}

/// Begin tracking a download. An all-whitespace or empty name is rejected
/// with a synchronous terminal error record and the store is untouched;
/// otherwise a fresh record is registered under the trimmed name,
/// overwriting any prior record for that model, and a copy is returned.
pub fn start_model_pull(store: &mut ProgressStore, model_name: &str) -> (r: PullProgress)
    ensures
        trim_seq(model_name@).len() == 0 ==> r@ == invalid_name_view(model_name@),
        trim_seq(model_name@).len() == 0 ==> forall|k: Seq<char>| #[trigger]
            final(store).spec_get(k) == old(store).spec_get(k),
        trim_seq(model_name@).len() > 0 ==> r@ == fresh_view(trim_seq(model_name@)),
        trim_seq(model_name@).len() > 0 ==> forall|k: Seq<char>| #[trigger]
            final(store).spec_get(k) == if k == trim_seq(model_name@) {
                Some(fresh_view(trim_seq(model_name@)))
            } else {
                old(store).spec_get(k)
            },
{
    let trimmed = trim_str(model_name);
    if trimmed.unicode_len() == 0 {
        return PullProgress::invalid_name(model_name);
    }
    let rec = PullProgress::fresh(trimmed);
    let copy = rec.clone();
    store.set(copy);
    rec
}

/// Fold one line of the upstream pull stream into the store. A line that is
/// not valid JSON is skipped; a terminal record for the model is frozen and
/// never overwritten; otherwise the parsed chunk's record replaces the
/// model's entry.
pub fn process_pull_line(store: &mut ProgressStore, model: &str, line: &str, now: i64)
    ensures
        ({
            let parsed = pull_chunk_of(line@);
            let prior = old(store).spec_get(model@);
            if parsed is Some && !(prior is Some && prior->0.done) {
                forall|k: Seq<char>| #[trigger]
                    final(store).spec_get(k) == if k == model@ {
                        Some(chunk_record_view(model@, parsed->0, now))
                    } else {
                        old(store).spec_get(k)
                    }
            } else {
                forall|k: Seq<char>| #[trigger] final(store).spec_get(k) == old(store).spec_get(k)
            }
        }),
{
    match parse_pull_chunk(line) {
        None => {},
        Some(chunk) => {
            let frozen = match store.get(model) {
                Some(p) => p.done,
                None => false,
            };
            if !frozen {
                let rec = apply_chunk(model, &chunk, now);
                store.set(rec);
            }
        },
    }
}

/// Record a transport-level failure of the upstream pull connection as a
/// terminal error record, unless the model's record is already terminal.
pub fn fail_download(store: &mut ProgressStore, model: &str, message: &str)
    ensures
        ({
            let prior = old(store).spec_get(model@);
            if !(prior is Some && prior->0.done) {
                forall|k: Seq<char>| #[trigger]
                    final(store).spec_get(k) == if k == model@ {
                        Some(transport_error_view(model@, message@))
                    } else {
                        old(store).spec_get(k)
                    }
            } else {
                forall|k: Seq<char>| #[trigger] final(store).spec_get(k) == old(store).spec_get(k)
            }
        }),
{
    let frozen = match store.get(model) {
        Some(p) => p.done,
        None => false,
    };
    if !frozen {
        store.set(PullProgress::transport_error(model, message));
    }
}

/// Cancel a tracked download: an existing non-terminal record for the
/// trimmed name becomes terminal with a cancelled label; a missing or
/// already terminal record is left alone. The call is always acknowledged
/// with `true`.
pub fn cancel_model_pull(store: &mut ProgressStore, model_name: &str) -> (r: bool)
    ensures
        r == true,
        ({
            let k0 = trim_seq(model_name@);
            let prior = old(store).spec_get(k0);
            if prior is Some && !prior->0.done {
                forall|k: Seq<char>| #[trigger]
                    final(store).spec_get(k) == if k == k0 {
                        Some(cancelled_view(prior->0))
                    } else {
                        old(store).spec_get(k)
                    }
            } else {
                forall|k: Seq<char>| #[trigger] final(store).spec_get(k) == old(store).spec_get(k)
            }
        }),
{
    let trimmed = trim_str(model_name);
    let update = match store.get(trimmed) {
        Some(p) => if p.done {
            None
        } else {
            Some(p.clone().into_cancelled())
        },
        None => None,
    };
    match update {
        Some(rec) => {
            proof {
                store.lemma_get_key(trim_seq(model_name@));
            }
            store.set(rec);
        },
        None => {},
    }
    true
}

/// Percentages never leave `0..=100`.
pub proof fn lemma_percent_bounds(completed: u64, total: u64)
    ensures
        percent_of(completed, total) <= 100,
{
}

/// With a fixed positive total, the completion estimate is monotone in the
/// completed byte count.
pub proof fn lemma_percent_monotonic(c1: u64, c2: u64, total: u64)
    requires
        total > 0,
        c1 <= c2,
    ensures
        percent_of(c1, total) <= percent_of(c2, total),
{
    vstd::arithmetic::div_mod::lemma_div_is_ordered(
        (c1 as int) * 100,
        (c2 as int) * 100,
        total as int,
    );
}

proof fn lemma_completed_chain(chunks: Seq<PullChunkView>, i: int, j: int)
    requires
        0 <= i <= j < chunks.len(),
        forall|n: int|
            0 <= n < chunks.len() - 1 ==> chunk_completed(#[trigger] chunks[n]) < chunk_completed(
                chunks[n + 1],
            ),
    ensures
        chunk_completed(chunks[i]) <= chunk_completed(chunks[j]),
    decreases j - i,
{
    if i < j {
        lemma_completed_chain(chunks, i, j - 1);
        assert(chunk_completed(chunks[j - 1]) < chunk_completed(chunks[j]));
    }
}

/// Over any run of non-terminal progress chunks with strictly increasing
/// completed byte counts and one fixed positive total, the records the
/// store successively holds (each chunk's record, per
/// [`chunk_record_view`]) carry non-decreasing completion estimates that
/// stay within `0..=100` — so the percent sequence a poller observes is
/// monotone and bounded.
pub proof fn lemma_poll_percents_monotonic(
    model: Seq<char>,
    chunks: Seq<PullChunkView>,
    total: u64,
    now: i64,
)
    requires
        total > 0,
        forall|n: int| 0 <= n < chunks.len() ==> !chunk_is_terminal(#[trigger] chunks[n]),
        forall|n: int| 0 <= n < chunks.len() ==> chunk_total(#[trigger] chunks[n]) == total,
        forall|n: int|
            0 <= n < chunks.len() - 1 ==> chunk_completed(#[trigger] chunks[n]) < chunk_completed(
                chunks[n + 1],
            ),
    ensures
        forall|n: int|
            0 <= n < chunks.len() ==> chunk_record_view(model, #[trigger] chunks[n], now).percent
                == percent_of(chunk_completed(chunks[n]), total),
        forall|i: int, j: int|
            0 <= i <= j < chunks.len() ==> chunk_record_view(
                model,
                #[trigger] chunks[i],
                now,
            ).percent <= chunk_record_view(model, #[trigger] chunks[j], now).percent,
        forall|n: int|
            0 <= n < chunks.len() ==> chunk_record_view(model, #[trigger] chunks[n], now).percent
                <= 100,
{
    assert forall|i: int, j: int| 0 <= i <= j < chunks.len() implies chunk_record_view(
        model,
        #[trigger] chunks[i],
        now,
    ).percent <= chunk_record_view(model, #[trigger] chunks[j], now).percent by {
        lemma_completed_chain(chunks, i, j);
        lemma_percent_monotonic(chunk_completed(chunks[i]), chunk_completed(chunks[j]), total);
    }
}

/// A chunk whose status is `success` and which carries no error field
/// produces a terminal record at one hundred percent with no error,
/// whatever byte counts it reports.
pub proof fn lemma_success_chunk_forces_complete(model: Seq<char>, c: PullChunkView, now: i64)
    requires
        chunk_is_success(c),
        !chunk_is_error(c),
    ensures
        chunk_record_view(model, c, now).percent == 100,
        chunk_record_view(model, c, now).done,
        chunk_record_view(model, c, now).error is None,
        chunk_record_view(model, c, now).status == "Complete"@,
{
}

/// A chunk carrying a non-empty error field produces a terminal record
/// labelled `Error` whose error description is that non-empty text.
pub proof fn lemma_error_chunk_forces_error(model: Seq<char>, c: PullChunkView, now: i64)
    requires
        chunk_is_error(c),
        chunk_error_message(c).len() > 0,
    ensures
        chunk_record_view(model, c, now).done,
        chunk_record_view(model, c, now).status == "Error"@,
        chunk_record_view(model, c, now).error is Some,
        chunk_record_view(model, c, now).error->0.len() > 0,
{
}

} // verus!
