//! The progress record: the tracked state of one download attempt, keyed by
//! model name.

use vstd::prelude::*;
use vstd::string::StringExecFns;

verus! {

/// One download's tracked state, as the poll surface reports it.
pub struct PullProgress {
    /// Model identifier; the key under which the record is stored.
    pub model: String,
    /// Short human-readable phase label.
    pub status: String,
    /// Completion estimate in whole percent, always within `0..=100`.
    pub percent: u64,
    /// Terminal flag; once set the record is frozen.
    pub done: bool,
    /// Failure description, present exactly when the attempt failed.
    pub error: Option<String>,
    /// Bytes reported downloaded by the last upstream chunk.
    pub bytes_downloaded: u64,
    /// Coarse progress label derived from the byte counts.
    pub speed: String,
    /// Timestamp (seconds) of the last mutation, supplied by the caller.
    pub last_update: i64,
}

/// The mathematical value of a [`PullProgress`].
pub struct ProgressView {
    pub model: Seq<char>,
    pub status: Seq<char>,
    pub percent: u64,
    pub done: bool,
    pub error: Option<Seq<char>>,
    pub bytes_downloaded: u64,
    pub speed: Seq<char>,
    pub last_update: i64,
}

impl View for PullProgress {
    type V = ProgressView;

    open spec fn view(&self) -> ProgressView {
        ProgressView {
            model: self.model@,
            status: self.status@,
            percent: self.percent,
            done: self.done,
            error: match self.error {
                Some(e) => Some(e@),
                None => None,
            },
            bytes_downloaded: self.bytes_downloaded,
            speed: self.speed@,
            last_update: self.last_update,
        }
    }
}

impl Clone for PullProgress {
    fn clone(&self) -> (r: Self)
        ensures
            r@ == self@,
    {
        PullProgress {
            model: self.model.clone(),
            status: self.status.clone(),
            percent: self.percent,
            done: self.done,
            error: match &self.error {
                Some(e) => Some(e.clone()),
                None => None,
            },
            bytes_downloaded: self.bytes_downloaded,
            speed: self.speed.clone(),
            last_update: self.last_update,
        }
    }
}

/// The record registered when tracking of a download begins.
pub open spec fn fresh_view(model: Seq<char>) -> ProgressView {
    ProgressView {
        model,
        status: "Starting..."@,
        percent: 0,
        done: false,
        error: None,
        bytes_downloaded: 0,
        speed: Seq::empty(),
        last_update: 0,
    }
}

/// The terminal record returned for a rejected (empty) model name.
pub open spec fn invalid_name_view(model: Seq<char>) -> ProgressView {
    ProgressView {
        model,
        status: "Error"@,
        percent: 0,
        done: true,
        error: Some("Model name cannot be empty"@),
        bytes_downloaded: 0,
        speed: Seq::empty(),
        last_update: 0,
    }
}

/// The terminal record written when the upstream connection itself fails.
pub open spec fn transport_error_view(model: Seq<char>, msg: Seq<char>) -> ProgressView {
    ProgressView {
        model,
        status: "Error"@,
        percent: 0,
        done: true,
        error: Some(msg),
        bytes_downloaded: 0,
        speed: Seq::empty(),
        last_update: 0,
    }
}

/// The record reported for a model that is already installed upstream but has
/// no tracked download.
pub open spec fn already_complete_view(model: Seq<char>) -> ProgressView {
    ProgressView {
        model,
        status: "Complete"@,
        percent: 100,
        done: true,
        error: None,
        bytes_downloaded: 0,
        speed: Seq::empty(),
        last_update: 0,
    }
}

/// The record reported when neither the store nor the upstream model list
/// knows the name.
pub open spec fn waiting_view(model: Seq<char>) -> ProgressView {
    ProgressView {
        model,
        status: "Waiting..."@,
        percent: 0,
        done: false,
        error: None,
        bytes_downloaded: 0,
        speed: Seq::empty(),
        last_update: 0,
    }
}

/// `v` after cancellation: terminal, labelled cancelled, everything else kept.
pub open spec fn cancelled_view(v: ProgressView) -> ProgressView {
    ProgressView {
        status: "Cancelled"@,
        done: true,
        error: Some("Download cancelled by user"@),
        ..v
    }
}

impl PullProgress {
    /// Build the record registered when tracking of a download begins.
    pub fn fresh(model: &str) -> (r: Self)
        ensures
            r@ == fresh_view(model@),
    {
        PullProgress {
            model: String::from_str(model),
            status: String::from_str("Starting..."),
            percent: 0,
            done: false,
            error: None,
            bytes_downloaded: 0,
            speed: String::new(),
            last_update: 0,
        }
    }

    /// Build the terminal record for a rejected (empty) model name.
    pub fn invalid_name(model: &str) -> (r: Self)
        ensures
            r@ == invalid_name_view(model@),
    {
        PullProgress {
            model: String::from_str(model),
            status: String::from_str("Error"),
            percent: 0,
            done: true,
            error: Some(String::from_str("Model name cannot be empty")),
            bytes_downloaded: 0,
            speed: String::new(),
            last_update: 0,
        }
    }

    /// Build the terminal record for an upstream transport failure.
    pub fn transport_error(model: &str, msg: &str) -> (r: Self)
        ensures
            r@ == transport_error_view(model@, msg@),
    {
        PullProgress {
            model: String::from_str(model),
            status: String::from_str("Error"),
            percent: 0,
            done: true,
            error: Some(String::from_str(msg)),
            bytes_downloaded: 0,
            speed: String::new(),
            last_update: 0,
        }
    }

    /// Build the record for a model already installed upstream.
    pub fn already_complete(model: &str) -> (r: Self)
        ensures
            r@ == already_complete_view(model@),
    {
        PullProgress {
            model: String::from_str(model),
            status: String::from_str("Complete"),
            percent: 100,
            done: true,
            error: None,
            bytes_downloaded: 0,
            speed: String::new(),
            last_update: 0,
        }
    }

    /// Build the record for a model known neither to the store nor upstream.
    pub fn waiting(model: &str) -> (r: Self)
        ensures
            r@ == waiting_view(model@),
    {
        PullProgress {
            model: String::from_str(model),
            status: String::from_str("Waiting..."),
            percent: 0,
            done: false,
            error: None,
            bytes_downloaded: 0,
            speed: String::new(),
            last_update: 0,
        }
    }

    /// This record after cancellation: terminal and labelled cancelled.
    pub fn into_cancelled(self) -> (r: Self)
        ensures
            r@ == cancelled_view(self@),
    {
        PullProgress {
            status: String::from_str("Cancelled"),
            done: true,
            error: Some(String::from_str("Download cancelled by user")),
            ..self
        }
    }
}

} // verus!
