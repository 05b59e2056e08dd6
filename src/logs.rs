//! Retrieval of recent activity: stored rows, joined with the current display
//! name of their user, as a bounded page, newest first.

use crate::clock::TimeOfDay;
use crate::ingest::{decision_of, is_prepared, LookupOutcome, NewAccessEvent, PendingInsert, UploadData};
use vstd::prelude::*;

verus! {

/// The most rows that one retrieval returns.
pub const PAGE_SIZE: usize = 50;

/// The transport status of a page of events.
pub const LOGS_OK_STATUS: u16 = 200;

/// The transport status of a failed retrieval.
pub const LOGS_ERROR_STATUS: u16 = 500;

/// One stored event, with the display name that its user has now, if any.
pub struct LogEntry {
    pub id: i64,
    pub uid: String,
    pub direction: String,
    pub device_name: String,
    pub device_time: Option<TimeOfDay>,
    /// The authorization decision made at ingestion: 1 or 0.
    pub authorized: i32,
    pub username: Option<String>,
}

/// One row of the join of stored events with authorized users, as the store
/// hands it out: the time of day and the display name are each either a decoded
/// value or the error text of their decoding.
pub struct RawLogRow {
    pub id: i64,
    pub uid: String,
    pub direction: String,
    pub device_name: String,
    pub device_time: Result<Option<TimeOfDay>, String>,
    pub authorized: i32,
    pub username: Result<String, String>,
}

/// The reply to a retrieval.
pub enum LogsReply {
    /// The page of events.
    Page(Vec<LogEntry>),
    /// The retrieval failed, with the underlying error text.
    ServerError(String),
}

/// The entry that a row is read as, or the error that aborts the retrieval: a
/// time of day that does not decode is an error, while a display name that does
/// not decode (no authorized user matches) is read as no name.
pub open spec fn entry_of(row: RawLogRow) -> Result<LogEntry, String> {
    match row.device_time {
        Ok(device_time) => Ok(
            LogEntry {
                id: row.id,
                uid: row.uid,
                direction: row.direction,
                device_name: row.device_name,
                device_time,
                authorized: row.authorized,
                username: match row.username {
                    Ok(name) => Some(name),
                    Err(_) => None,
                },
            },
        ),
        Err(e) => Err(e),
    }
}

/// Ids strictly decrease along `s`.
pub open spec fn strictly_newest_first(s: Seq<LogEntry>) -> bool {
    forall|i: int| 0 <= i < s.len() - 1 ==> #[trigger] s[i].id > s[i + 1].id
}

/// `page` is the page shown of `rows`, the rows as the store returned them:
/// their longest prefix whose ids strictly decrease, cut at the page size.
pub open spec fn is_page_of(page: Seq<LogEntry>, rows: Seq<LogEntry>) -> bool {
    &&& page.len() <= PAGE_SIZE
    &&& page == rows.take(page.len() as int)
    &&& strictly_newest_first(page)
    &&& page.len() < PAGE_SIZE && page.len() < rows.len() ==> (page.len() > 0 && rows[page.len()
        as int].id >= rows[page.len() - 1].id)
}

/// Reads one row of the join.
pub fn map_row(row: RawLogRow) -> (r: Result<LogEntry, String>)
    ensures
        r == entry_of(row),
{
    let username = match row.username {
        Ok(name) => Some(name),
        // A missing or undecodable name is shown as none, not as an error.
        Err(_) => None,
    };
    match row.device_time {
        Ok(device_time) => Ok(
            LogEntry {
                id: row.id,
                uid: row.uid,
                direction: row.direction,
                device_name: row.device_name,
                device_time,
                authorized: row.authorized,
                username,
            },
        ),
        Err(e) => Err(e),
    }
}

/// The page shown of the rows that the store returned: at most `PAGE_SIZE`
/// rows, newest first, with no row out of order.
pub fn recent_page(rows: Vec<LogEntry>) -> (r: Vec<LogEntry>)
    ensures
        is_page_of(r@, rows@),
{
    let mut page = rows;
    let mut k: usize = 0;
    let mut out_of_order = false;
    while !out_of_order && k < PAGE_SIZE && k < page.len()
        invariant
            k <= PAGE_SIZE,
            k <= page@.len(),
            page@ == rows@,
            strictly_newest_first(page@.take(k as int)),
            out_of_order ==> (0 < k < page@.len() && page@[k as int].id >= page@[k - 1].id),
        decreases page@.len() - k + (if out_of_order { 0int } else { 1int }),
    {
        if k > 0 && page[k].id >= page[k - 1].id {
            out_of_order = true;
        } else {
            k = k + 1;
        }
    }
    page.truncate(k);
    page
}

/// The entries that rows are read as, in order, or the error of the first row
/// that cannot be read.
pub open spec fn entries_of(rows: Seq<RawLogRow>) -> Result<Seq<LogEntry>, String>
    decreases rows.len(),
{
    if rows.len() == 0 {
        Ok(Seq::empty())
    } else {
        match entries_of(rows.drop_last()) {
            Ok(read) => match entry_of(rows.last()) {
                Ok(entry) => Ok(read.push(entry)),
                Err(e) => Err(e),
            },
            Err(e) => Err(e),
        }
    }
}

/// The reply to a retrieval, from what the store returned: its error, or the
/// page shown of the rows it returned.
pub open spec fn is_logs_reply(r: LogsReply, fetched: Result<Vec<RawLogRow>, String>) -> bool {
    match fetched {
        Err(e) => r == LogsReply::ServerError(e),
        Ok(rows) => match entries_of(rows@) {
            Err(e) => r == LogsReply::ServerError(e),
            Ok(entries) => r matches LogsReply::Page(page) && is_page_of(page@, entries),
        },
    }
}

/// Once rows fail to be read, more rows after them change nothing.
proof fn lemma_read_error_sticks(rows: Seq<RawLogRow>, m: int, e: String)
    requires
        0 <= m <= rows.len(),
        entries_of(rows.take(m)) == Err::<Seq<LogEntry>, String>(e),
    ensures
        entries_of(rows) == Err::<Seq<LogEntry>, String>(e),
    decreases rows.len() - m,
{
    if m < rows.len() {
        assert(rows.take(m + 1).drop_last() == rows.take(m));
        lemma_read_error_sticks(rows, m + 1, e);
    } else {
        assert(rows.take(m) == rows);
    }
}

/// Reads the rows that the store returned and makes the reply: the page shown
/// of them, or a server error with the underlying error text where the query
/// failed or a row could not be read.
pub fn logs_reply(fetched: Result<Vec<RawLogRow>, String>) -> (r: LogsReply)
    ensures
        is_logs_reply(r, fetched),
{
    match fetched {
        Err(e) => LogsReply::ServerError(e),
        Ok(rows) => {
            let ghost all = rows@;
            let mut entries: Vec<LogEntry> = Vec::new();
            for row in it: rows
                invariant
                    it.seq() == all,
                    fetched is Ok && fetched->Ok_0@ == all,
                    Ok::<Seq<LogEntry>, String>(entries@) == entries_of(all.take(it.index() as int)),
            {
                let ghost i = it.index() as int;
                proof {
                    assert(all.take(i + 1).drop_last() == all.take(i));
                }
                match map_row(row) {
                    Ok(entry) => entries.push(entry),
                    Err(e) => {
                        proof {
                            lemma_read_error_sticks(all, i + 1, e);
                        }
                        return LogsReply::ServerError(e);
                    },
                }
            }
            proof {
                assert(all.take(all.len() as int) == all);
            }
            LogsReply::Page(recent_page(entries))
        },
    }
}

impl LogsReply {
    /// The transport status of the reply.
    pub fn status(&self) -> (r: u16)
        ensures
            r == (if self is Page { LOGS_OK_STATUS } else { LOGS_ERROR_STATUS }),
    {
        match self {
            LogsReply::Page(_) => LOGS_OK_STATUS,
            LogsReply::ServerError(_) => LOGS_ERROR_STATUS,
        }
    }
}

/// `row` holds the stored record of `event`, joined with whatever display name
/// the user has now: each column as the insert wrote it.
pub open spec fn is_stored_row(row: RawLogRow, event: NewAccessEvent) -> bool {
    &&& row.uid == event.user_id
    &&& row.direction == event.direction
    &&& row.device_name == event.device_name
    &&& row.device_time == Ok::<Option<TimeOfDay>, String>(event.device_time)
    &&& row.authorized == (if event.authorized { 1i32 } else { 0i32 })
}

/// An ingested event is read back with the user id, direction and device name
/// it was sent with, and with the authorization decided at its ingestion, even
/// where the user has since lost their authorization or their name.
pub proof fn lemma_ingested_event_reads_back(
    data: UploadData,
    lookup: LookupOutcome,
    pending: PendingInsert,
    row: RawLogRow,
)
    requires
        is_prepared(pending, data, lookup),
        is_stored_row(row, pending.event),
    ensures
        entry_of(row) is Ok,
        entry_of(row)->Ok_0.uid == data.user_id,
        entry_of(row)->Ok_0.direction == data.direction,
        entry_of(row)->Ok_0.device_name == data.device_name,
        entry_of(row)->Ok_0.device_time == pending.event.device_time,
        entry_of(row)->Ok_0.authorized == (if decision_of(lookup).0 { 1i32 } else { 0i32 }),
{
}

} // verus!
