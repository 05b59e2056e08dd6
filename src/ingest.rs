//! Ingestion of one access event: the authorization decision, the record that
//! is stored, and the reply to the device that sent it.
//!
//! The caller looks the user up, stores the record, and hands each outcome back
//! here. The two store operations are not atomic: a user's authorization may
//! change between the lookup and the insert, and the record keeps what the
//! lookup saw.

use crate::clock::{is_stored_time, normalize_device_time, parsed_clock_time, TimeOfDay};
use vstd::prelude::*;

verus! {

/// The display name given to a user who is not in the authorized set.
pub const UNKNOWN_USER: &'static str = "unknown";

/// Prefix of the error text sent back when the event could not be stored.
pub const WRITE_ERROR_PREFIX: &'static str = "write error: ";

/// The transport status of every reply to an upload: the outcome is in the body.
pub const UPLOAD_STATUS: u16 = 200;

/// An event as a device reports it.
pub struct UploadData {
    pub user_id: String,
    pub direction: String,
    pub device_name: String,
    /// A local date and time, `YYYY-MM-DDTHH:MM`, if the device sent one.
    pub device_timestamp: Option<String>,
}

/// What the lookup of a user id among the authorized users came to.
pub enum LookupOutcome {
    /// The user is authorized, under this display name.
    Found(String),
    /// No authorized user has the id.
    NotFound,
    /// The lookup itself failed, with this error text.
    Failed(String),
}

/// Whether a user is authorized, and the name that the reply gives them.
pub struct Authorization {
    pub authorized: bool,
    pub user: String,
}

impl View for Authorization {
    type V = (bool, Seq<char>);

    open spec fn view(&self) -> (bool, Seq<char>) {
        (self.authorized, self.user@)
    }
}

/// The record of one event, as it is inserted into the event store.
pub struct NewAccessEvent {
    pub user_id: String,
    pub direction: String,
    pub device_name: String,
    pub device_time: Option<TimeOfDay>,
    pub authorized: bool,
}

/// The record to insert for an event, and the decision to report once it is in.
pub struct PendingInsert {
    pub event: NewAccessEvent,
    pub decision: Authorization,
}

/// The body of the reply to an upload.
pub enum UploadReply {
    /// The event was stored; `success` is true.
    Recorded { authorized: bool, user: String },
    /// The event could not be stored; `success` is false.
    Rejected { error: String },
}

/// An upload reply as values.
pub enum UploadOutcome {
    Recorded { authorized: bool, user: Seq<char> },
    Rejected { error: Seq<char> },
}

impl View for UploadReply {
    type V = UploadOutcome;

    open spec fn view(&self) -> UploadOutcome {
        match self {
            UploadReply::Recorded { authorized, user } => UploadOutcome::Recorded {
                authorized: *authorized,
                user: user@,
            },
            UploadReply::Rejected { error } => UploadOutcome::Rejected { error: error@ },
        }
    }
}

/// The decision that a lookup leads to. Only a found user is authorized; a
/// failed lookup counts as no match.
pub open spec fn decision_of(lookup: LookupOutcome) -> (bool, Seq<char>) {
    match lookup {
        LookupOutcome::Found(name) => (true, name@),
        _ => (false, UNKNOWN_USER@),
    }
}

/// The reply to an upload, from the decision and the outcome of the insert.
pub open spec fn upload_outcome(decision: (bool, Seq<char>), insert: Result<(), String>) -> UploadOutcome {
    match insert {
        Ok(()) => UploadOutcome::Recorded { authorized: decision.0, user: decision.1 },
        Err(e) => UploadOutcome::Rejected { error: WRITE_ERROR_PREFIX@ + e@ },
    }
}

/// `pending` is what the ingestion of `data` prepares, given the outcome of the
/// lookup: the event as sent, with the time of day that its timestamp is stored
/// as, and the decision that the lookup leads to, frozen into the record.
pub open spec fn is_prepared(pending: PendingInsert, data: UploadData, lookup: LookupOutcome) -> bool {
    &&& pending.decision@ == decision_of(lookup)
    &&& pending.event.authorized == pending.decision.authorized
    &&& pending.event.user_id == data.user_id
    &&& pending.event.direction == data.direction
    &&& pending.event.device_name == data.device_name
    &&& is_stored_time(pending.event.device_time, data.device_timestamp)
}

/// Decides whether a user is authorized, from the outcome of the lookup.
pub fn decide_authorization(lookup: LookupOutcome) -> (r: Authorization)
    ensures
        r@ == decision_of(lookup),
{
    match lookup {
        LookupOutcome::Found(name) => Authorization { authorized: true, user: name },
        LookupOutcome::NotFound => Authorization {
            authorized: false,
            user: String::from_str(UNKNOWN_USER),
        },
        // Fail closed: a lookup that could not be made is taken as no match.
        LookupOutcome::Failed(_) => Authorization {
            authorized: false,
            user: String::from_str(UNKNOWN_USER),
        },
    }
}

impl NewAccessEvent {
    /// The authorization flag as the store keeps it: 1 or 0.
    pub fn authorized_flag(&self) -> (r: i32)
        ensures
            r == (if self.authorized { 1i32 } else { 0i32 }),
    {
        if self.authorized {
            1
        } else {
            0
        }
    }
}

/// The record to insert for an uploaded event, given the outcome of its lookup,
/// and the decision to report. The record is made whatever the lookup came to,
/// and carries the decision as it stands now, frozen.
pub fn prepare_insert(data: UploadData, lookup: LookupOutcome) -> (r: PendingInsert)
    ensures
        is_prepared(r, data, lookup),
{
    let device_time = normalize_device_time(&data.device_timestamp);
    let decision = decide_authorization(lookup);
    let event = NewAccessEvent {
        user_id: data.user_id,
        direction: data.direction,
        device_name: data.device_name,
        device_time,
        authorized: decision.authorized,
    };
    PendingInsert { event, decision }
}

/// The reply to an upload, once the insert has been tried. A failed insert is
/// reported in the body, never by the transport status.
pub fn finish_upload(decision: Authorization, insert: Result<(), String>) -> (r: UploadReply)
    ensures
        r@ == upload_outcome(decision@, insert),
{
    match insert {
        Ok(()) => UploadReply::Recorded { authorized: decision.authorized, user: decision.user },
        Err(e) => {
            let error = String::from_str(WRITE_ERROR_PREFIX).concat(e.as_str());
            UploadReply::Rejected { error }
        },
    }
}

impl UploadReply {
    /// The `success` field of the reply.
    pub fn success(&self) -> (r: bool)
        ensures
            r == (self is Recorded),
    {
        match self {
            UploadReply::Recorded { .. } => true,
            UploadReply::Rejected { .. } => false,
        }
    }

    /// The transport status of the reply: success-class, whatever the outcome.
    pub fn status(&self) -> (r: u16)
        ensures
            r == UPLOAD_STATUS,
    {
        UPLOAD_STATUS
    }
}

/// A user found among the authorized users is recorded and reported as
/// authorized, under their display name, whatever the event.
pub proof fn lemma_listed_user_is_authorized(pending: PendingInsert, data: UploadData, name: String)
    requires
        is_prepared(pending, data, LookupOutcome::Found(name)),
    ensures
        pending.event.authorized,
        upload_outcome(pending.decision@, Ok(())) == (UploadOutcome::Recorded {
            authorized: true,
            user: name@,
        }),
{
}

/// A user who is not found among the authorized users, or whose lookup failed,
/// is recorded and reported as not authorized, under the name "unknown",
/// whatever the event.
pub proof fn lemma_unlisted_user_is_unknown(pending: PendingInsert, data: UploadData, lookup: LookupOutcome)
    requires
        !(lookup is Found),
        is_prepared(pending, data, lookup),
    ensures
        !pending.event.authorized,
        upload_outcome(pending.decision@, Ok(())) == (UploadOutcome::Recorded {
            authorized: false,
            user: UNKNOWN_USER@,
        }),
{
}

/// An absent or unparseable timestamp is stored as no time, and the event is
/// still recorded: once it is in, the reply reports success.
pub proof fn lemma_bad_timestamp_still_recorded(pending: PendingInsert, data: UploadData, lookup: LookupOutcome)
    requires
        is_prepared(pending, data, lookup),
        data.device_timestamp matches Some(s) ==> parsed_clock_time(s@) is None,
    ensures
        pending.event.device_time is None,
        upload_outcome(pending.decision@, Ok(())) is Recorded,
{
}

} // verus!
