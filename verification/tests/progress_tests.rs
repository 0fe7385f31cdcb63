use ollama_core::poll::check_pull_progress;
use ollama_core::pull::{cancel_model_pull, fail_download, process_pull_line, start_model_pull};
use ollama_core::store::ProgressStore;

fn no_models() -> Vec<String> {
    Vec::new()
}

#[test]
fn start_then_check_is_non_terminal_at_zero() {
    let mut store = ProgressStore::new();
    let r = start_model_pull(&mut store, "llama3");
    assert_eq!(r.model, "llama3");
    assert_eq!(r.status, "Starting...");
    assert_eq!(r.percent, 0);
    assert!(!r.done);
    assert!(r.error.is_none());

    let c = check_pull_progress(&store, &no_models(), "llama3");
    assert_eq!(c.percent, 0);
    assert!(!c.done);
    assert_eq!(c.status, "Starting...");
}

#[test]
fn start_trims_the_model_name() {
    let mut store = ProgressStore::new();
    let r = start_model_pull(&mut store, "  llama3  ");
    assert_eq!(r.model, "llama3");
    let c = check_pull_progress(&store, &no_models(), "llama3");
    assert_eq!(c.status, "Starting...");
}

#[test]
fn start_with_empty_name_is_rejected_synchronously() {
    let mut store = ProgressStore::new();
    let r = start_model_pull(&mut store, "   ");
    assert!(r.done);
    assert_eq!(r.status, "Error");
    assert_eq!(r.error.as_deref(), Some("Model name cannot be empty"));
    // The store was not touched: nothing is tracked.
    let c = check_pull_progress(&store, &no_models(), "anything");
    assert_eq!(c.status, "Waiting...");
}

#[test]
fn progress_chunk_updates_the_record() {
    let mut store = ProgressStore::new();
    start_model_pull(&mut store, "llama3");
    process_pull_line(
        &mut store,
        "llama3",
        "{\"status\":\"pulling\",\"total\":1000,\"completed\":250}",
        7,
    );
    let c = check_pull_progress(&store, &no_models(), "llama3");
    assert_eq!(c.status, "pulling");
    assert_eq!(c.percent, 25);
    assert!(!c.done);
    assert_eq!(c.bytes_downloaded, 250);
    assert_eq!(c.speed, "250 B / 1000 B");
    assert_eq!(c.last_update, 7);
}

#[test]
fn success_chunk_forces_complete_at_hundred() {
    let mut store = ProgressStore::new();
    start_model_pull(&mut store, "llama3");
    process_pull_line(
        &mut store,
        "llama3",
        "{\"status\":\"pulling\",\"total\":1000,\"completed\":250}",
        1,
    );
    // The last reported completed/total says 25%; success still forces 100.
    process_pull_line(&mut store, "llama3", "{\"status\":\"success\"}", 2);
    let c = check_pull_progress(&store, &no_models(), "llama3");
    assert_eq!(c.status, "Complete");
    assert_eq!(c.percent, 100);
    assert!(c.done);
    assert!(c.error.is_none());
}

#[test]
fn error_chunk_forces_terminal_error() {
    let mut store = ProgressStore::new();
    start_model_pull(&mut store, "llama3");
    process_pull_line(&mut store, "llama3", "{\"error\":\"manifest not found\"}", 3);
    let c = check_pull_progress(&store, &no_models(), "llama3");
    assert!(c.done);
    assert_eq!(c.status, "Error");
    assert_eq!(c.error.as_deref(), Some("manifest not found"));
}

#[test]
fn malformed_line_is_skipped() {
    let mut store = ProgressStore::new();
    start_model_pull(&mut store, "llama3");
    process_pull_line(&mut store, "llama3", "this is not json", 9);
    let c = check_pull_progress(&store, &no_models(), "llama3");
    assert_eq!(c.status, "Starting...");
    assert_eq!(c.percent, 0);
    assert_eq!(c.last_update, 0);
}

#[test]
fn terminal_record_is_frozen_against_later_chunks() {
    let mut store = ProgressStore::new();
    start_model_pull(&mut store, "llama3");
    process_pull_line(&mut store, "llama3", "{\"status\":\"success\"}", 1);
    process_pull_line(
        &mut store,
        "llama3",
        "{\"status\":\"pulling\",\"total\":1000,\"completed\":10}",
        2,
    );
    let c = check_pull_progress(&store, &no_models(), "llama3");
    assert_eq!(c.status, "Complete");
    assert_eq!(c.percent, 100);
    assert!(c.done);
}

#[test]
fn restart_overwrites_with_a_fresh_record() {
    let mut store = ProgressStore::new();
    start_model_pull(&mut store, "llama3");
    process_pull_line(
        &mut store,
        "llama3",
        "{\"status\":\"pulling\",\"total\":1000,\"completed\":900}",
        4,
    );
    let r = start_model_pull(&mut store, "llama3");
    assert_eq!(r.status, "Starting...");
    assert_eq!(r.percent, 0);
    let c = check_pull_progress(&store, &no_models(), "llama3");
    assert_eq!(c.status, "Starting...");
    assert_eq!(c.percent, 0);
    assert!(!c.done);
    assert_eq!(c.bytes_downloaded, 0);
}

#[test]
fn cancel_marks_a_live_download_cancelled() {
    let mut store = ProgressStore::new();
    start_model_pull(&mut store, "llama3");
    let ok = cancel_model_pull(&mut store, "llama3");
    assert!(ok);
    let c = check_pull_progress(&store, &no_models(), "llama3");
    assert!(c.done);
    assert_eq!(c.status, "Cancelled");
    assert_eq!(c.error.as_deref(), Some("Download cancelled by user"));
}

#[test]
fn cancel_without_a_record_acknowledges_and_creates_nothing() {
    let mut store = ProgressStore::new();
    let ok = cancel_model_pull(&mut store, "ghost");
    assert!(ok);
    let c = check_pull_progress(&store, &no_models(), "ghost");
    assert_eq!(c.status, "Waiting...");
    assert!(!c.done);
}

#[test]
fn cancel_leaves_a_terminal_record_alone() {
    let mut store = ProgressStore::new();
    start_model_pull(&mut store, "llama3");
    process_pull_line(&mut store, "llama3", "{\"status\":\"success\"}", 1);
    let ok = cancel_model_pull(&mut store, "llama3");
    assert!(ok);
    let c = check_pull_progress(&store, &no_models(), "llama3");
    assert_eq!(c.status, "Complete");
    assert!(c.error.is_none());
}

#[test]
fn transport_failure_becomes_a_terminal_error_record() {
    let mut store = ProgressStore::new();
    start_model_pull(&mut store, "llama3");
    fail_download(&mut store, "llama3", "connection refused");
    let c = check_pull_progress(&store, &no_models(), "llama3");
    assert!(c.done);
    assert_eq!(c.status, "Error");
    assert_eq!(c.error.as_deref(), Some("connection refused"));
}

#[test]
fn fallback_reports_complete_for_an_installed_model() {
    let store = ProgressStore::new();
    let models = vec!["llama3:latest".to_string(), "mistral".to_string()];
    let c = check_pull_progress(&store, &models, "llama3");
    assert!(c.done);
    assert_eq!(c.percent, 100);
    assert_eq!(c.status, "Complete");
    assert!(c.error.is_none());
}

#[test]
fn fallback_reports_waiting_for_an_unknown_model() {
    let store = ProgressStore::new();
    let models = vec!["mistral".to_string()];
    let c = check_pull_progress(&store, &models, "llama3");
    assert!(!c.done);
    assert_eq!(c.percent, 0);
    assert_eq!(c.status, "Waiting...");
}

#[test]
fn polled_percents_are_monotonic_and_bounded() {
    let mut store = ProgressStore::new();
    start_model_pull(&mut store, "llama3");
    let mut last = 0;
    for completed in [100u64, 400, 900, 1000] {
        let line = format!("{{\"status\":\"pulling\",\"total\":1000,\"completed\":{}}}", completed);
        process_pull_line(&mut store, "llama3", &line, 1);
        let c = check_pull_progress(&store, &no_models(), "llama3");
        assert!(c.percent >= last);
        assert!(c.percent <= 100);
        last = c.percent;
    }
    assert_eq!(last, 100);
}

#[test]
fn percent_is_clamped_and_zero_without_total() {
    let mut store = ProgressStore::new();
    start_model_pull(&mut store, "llama3");
    process_pull_line(
        &mut store,
        "llama3",
        "{\"status\":\"pulling\",\"total\":1000,\"completed\":2000}",
        1,
    );
    let c = check_pull_progress(&store, &no_models(), "llama3");
    assert_eq!(c.percent, 100);

    let mut store2 = ProgressStore::new();
    start_model_pull(&mut store2, "m");
    process_pull_line(&mut store2, "m", "{\"status\":\"pulling\",\"completed\":5}", 1);
    let c2 = check_pull_progress(&store2, &no_models(), "m");
    assert_eq!(c2.percent, 0);
}

#[test]
fn two_downloads_are_tracked_independently() {
    let mut store = ProgressStore::new();
    start_model_pull(&mut store, "llama3");
    start_model_pull(&mut store, "mistral");
    process_pull_line(
        &mut store,
        "mistral",
        "{\"status\":\"pulling\",\"total\":200,\"completed\":100}",
        1,
    );
    let a = check_pull_progress(&store, &no_models(), "llama3");
    let b = check_pull_progress(&store, &no_models(), "mistral");
    assert_eq!(a.percent, 0);
    assert_eq!(a.status, "Starting...");
    assert_eq!(b.percent, 50);
    assert_eq!(b.status, "pulling");
}
