use vstd::prelude::*;
use crate::record::{reads_as, row_error, ParseReminderError, PersistedReminder};

verus! {

/// One row of the reminders table, as storage hands it back: the key, the
/// user id in decimal, the message as the JSON of a chat message and the
/// due time in RFC 3339.
#[derive(Debug)]
pub struct StoredRow {
    pub id: i64,
    pub user_id: String,
    pub message: String,
    pub remind_at: String,
}

/// The first stored row that did not read, and why.
#[derive(Debug, Clone, Copy, PartialEq, Eq, Structural)]
pub struct RowError {
    pub index: usize,
    pub kind: ParseReminderError,
}

/// Why the row does not read as a reminder; `None` when it does.
pub open spec fn stored_row_error(row: StoredRow) -> Option<ParseReminderError> {
    row_error(row.user_id@, row.message@, row.remind_at@)
}

/// Whether `rec` is what the row says.
pub open spec fn stored_row_reads_as(row: StoredRow, rec: PersistedReminder) -> bool {
    reads_as(rec, row.id, row.user_id@, row.message@, row.remind_at@)
}

/// Reads every stored row back as a reminder, in order. A row that does not
/// read stops recovery: the error names the first such row and why.
pub fn parse_rows(rows: Vec<StoredRow>) -> (r: Result<Vec<PersistedReminder>, RowError>)
    ensures
        match r {
            Ok(recs) => {
                &&& recs@.len() == rows@.len()
                &&& forall|i: int| 0 <= i < rows@.len() ==> stored_row_error(#[trigger] rows@[i]) is None
                &&& forall|i: int| 0 <= i < rows@.len() ==> stored_row_reads_as(
                    #[trigger] rows@[i],
                    recs@[i],
                )
            },
            Err(e) => {
                &&& e.index < rows@.len()
                &&& stored_row_error(rows@[e.index as int]) == Some(e.kind)
                &&& forall|i: int| 0 <= i < e.index ==> stored_row_error(#[trigger] rows@[i]) is None
            },
        },
{
    let n = rows.len();
    let ghost all = rows@;
    let mut recs: Vec<PersistedReminder> = Vec::new();
    let mut index: usize = 0;
    for row in it: rows.into_iter()
        invariant
            it.seq() == all,
            all.len() == n,
            index == it.index(),
            recs@.len() == index,
            forall|i: int| 0 <= i < index ==> stored_row_error(#[trigger] all[i]) is None,
            forall|i: int| 0 <= i < index ==> stored_row_reads_as(#[trigger] all[i], recs@[i]),
    {
        match PersistedReminder::from_row(row.id, row.user_id, row.message, row.remind_at) {
            Ok(rec) => {
                recs.push(rec);
            },
            Err(kind) => {
                return Err(RowError { index, kind });
            },
        }
        index = index + 1;
    }
    Ok(recs)
}

/// Whether deleting a delivered reminder's row removed exactly one row;
/// any other count means storage and the pending reminders disagree.
pub fn deleted_exactly_one(rows_changed: usize) -> (r: bool)
    ensures
        r == (rows_changed == 1),
{
    rows_changed == 1
}

/// What the delivery loop does once it has tried to delete the row of a
/// reminder it handed out. Whether the send before succeeded plays no part:
/// a reminder that could not be sent is not retried, and its row goes all
/// the same.
#[derive(Debug, Clone, Copy, PartialEq, Eq, Structural)]
pub enum AfterDelete {
    /// Exactly one row went: carry on.
    Done,
    /// Storage failed; the row may be delivered again after a restart. Log
    /// it and carry on.
    StorageFailed,
    /// Some other number of rows went: storage and the pending reminders
    /// disagree, which is fatal.
    RowCountMismatch(usize),
}

/// The loop's next step after a delete that removed `rows_deleted` rows,
/// or failed (`None`).
pub fn after_delete(rows_deleted: Option<usize>) -> (r: AfterDelete)
    ensures
        r == match rows_deleted {
            None => AfterDelete::StorageFailed,
            Some(n) => if n == 1 {
                AfterDelete::Done
            } else {
                AfterDelete::RowCountMismatch(n)
            },
        },
{
    match rows_deleted {
        None => AfterDelete::StorageFailed,
        Some(n) => if deleted_exactly_one(n) {
            AfterDelete::Done
        } else {
            AfterDelete::RowCountMismatch(n)
        },
    }
}

} // verus!
