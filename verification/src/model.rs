//! Data model: checkpoints, tracking results, queries and the fetch error
//! taxonomy, together with their mathematical models.

use vstd::prelude::*;

verus! {

/// Mathematical model of one tracking-history event.
pub struct CheckpointModel {
    pub time: Seq<char>,
    pub status_raw: Seq<char>,
}

/// One tracking-history event: an opaque upstream timestamp and an opaque
/// upstream status code.
pub struct Checkpoint {
    pub time: String,
    pub status_raw: String,
}

impl View for Checkpoint {
    type V = CheckpointModel;

    open spec fn view(&self) -> CheckpointModel {
        CheckpointModel { time: self.time@, status_raw: self.status_raw@ }
    }
}

/// The checkpoint history of one successful lookup, in the order the
/// upstream API delivered it; never re-sorted.
pub struct TrackingResult {
    pub checkpoints: Vec<Checkpoint>,
}

impl View for TrackingResult {
    type V = Seq<CheckpointModel>;

    open spec fn view(&self) -> Seq<CheckpointModel> {
        Seq::new(self.checkpoints@.len(), |i: int| self.checkpoints@[i]@)
    }
}

/// The pair of user-editable inputs that selects one lookup.
pub struct TrackingQuery {
    pub tracking_number: String,
    pub provider: String,
}

/// Mathematical model of a query.
pub struct TrackingQueryModel {
    pub tracking_number: Seq<char>,
    pub provider: Seq<char>,
}

impl View for TrackingQuery {
    type V = TrackingQueryModel;

    open spec fn view(&self) -> TrackingQueryModel {
        TrackingQueryModel {
            tracking_number: self.tracking_number@,
            provider: self.provider@,
        }
    }
}

/// Mathematical model of a fetch error.
pub enum FetchErrorModel {
    Http { status: u16, body: Seq<char> },
    Decode { message: Seq<char> },
    Network { message: Seq<char> },
    Timeout,
}

/// Why one lookup failed. Every variant is terminal for that attempt: the
/// only retry is a fresh query.
pub enum FetchError {
    /// The upstream returned a non-success status; carries the status code
    /// and the body text the server sent.
    Http { status: u16, body: String },
    /// The body of a success response was not valid JSON or lacked the
    /// expected checkpoint shape.
    Decode { message: String },
    /// The transport failed before any response arrived.
    Network { message: String },
    /// The bounded request timeout elapsed.
    Timeout,
}

impl View for FetchError {
    type V = FetchErrorModel;

    open spec fn view(&self) -> FetchErrorModel {
        match self {
            FetchError::Http { status, body } => FetchErrorModel::Http {
                status: *status,
                body: body@,
            },
            FetchError::Decode { message } => FetchErrorModel::Decode { message: message@ },
            FetchError::Network { message } => FetchErrorModel::Network { message: message@ },
            FetchError::Timeout => FetchErrorModel::Timeout,
        }
    }
}

} // verus!
