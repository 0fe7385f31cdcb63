//! The read-only polling surface over the progress store, with the fallback
//! reconciliation path against the upstream model list.

use vstd::prelude::*;
use crate::record::{already_complete_view, fresh_view, waiting_view, ProgressView, PullProgress};
use crate::store::ProgressStore;
use crate::text::{contains_seq, str_contains, trim_seq, trim_str};

verus! {

/// The trimmed name matches some installed model, exactly or as a
/// substring.
pub open spec fn model_listed(models: Seq<Seq<char>>, name: Seq<char>) -> bool {
    exists|i: int| 0 <= i < models.len() && contains_seq(#[trigger] models[i], name)
}

/// What a poll for `name` reports: the stored record verbatim when one
/// exists; otherwise a completed record when the model list knows the name,
/// and a waiting record when nothing does.
pub open spec fn check_result_view(
    store: ProgressStore,
    models: Seq<Seq<char>>,
    name: Seq<char>,
) -> ProgressView {
    let k = trim_seq(name);
    if store.spec_get(k) is Some {
        store.spec_get(k)->0
    } else if model_listed(models, k) {
        already_complete_view(k)
    } else {
        waiting_view(k)
    }
}

/// Poll the progress of `model_name`'s download, as [`check_result_view`]
/// states it. Never mutates the store; `models` is the installed-model list
/// the host fetched from the upstream status endpoint.
pub fn check_pull_progress(
    store: &ProgressStore,
    models: &Vec<String>,
    model_name: &str,
) -> (r: PullProgress)
    ensures
        r@ == check_result_view(*store, models.deep_view(), model_name@),
{
    let trimmed = trim_str(model_name);
    match store.get(trimmed) {
        Some(p) => p.clone(),
        None => {
            let n = models.len();
            let mut i: usize = 0;
            while i < n
                invariant
                    store.spec_get(trim_seq(model_name@)) is None,
                    n == models@.len(),
                    0 <= i <= n,
                    trimmed@ == trim_seq(model_name@),
                    forall|j: int|
                        0 <= j < i ==> !contains_seq(#[trigger] models.deep_view()[j], trimmed@),
                decreases n - i,
            {
                if str_contains(models[i].as_str(), trimmed) {
                    proof {
                        assert(models.deep_view()[i as int] == models@[i as int]@);
                        assert(model_listed(models.deep_view(), trimmed@));
                    }
                    return PullProgress::already_complete(trimmed);
                }
                i = i + 1;
            }
            proof {
                assert(!model_listed(models.deep_view(), trimmed@));
            }
            PullProgress::waiting(trimmed)
        },
    }
}

/// Starting a download and polling it before any upstream chunk lands
/// reports the fresh record: not terminal, at zero percent. The store
/// condition is exactly what a start for a non-empty name ensures; an empty
/// or all-whitespace name registers nothing and is outside this law.
pub proof fn lemma_start_then_poll(store: ProgressStore, models: Seq<Seq<char>>, name: Seq<char>)
    requires
        store.spec_get(trim_seq(name)) == Some(fresh_view(trim_seq(name))),
    ensures
        check_result_view(store, models, name).percent == 0,
        !check_result_view(store, models, name).done,
        check_result_view(store, models, name).status == "Starting..."@,
{
}

} // verus!
