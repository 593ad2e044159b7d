//! The reply to a request, from how the work for it went.
//!
//! How an encoded key is read is the caller's affair: a function from the bytes
//! to the key, or to nothing where they encode none, is handed in.

use vstd::prelude::*;

use crate::debug_text::{db_err, db_err_view};
use crate::error::{
    missing_row_error, required, required_or, BackendErrorView, OhosRdbResult,
};
use crate::model::{IndexedDBRecord, ObjectDataModel, ReplyKind};
use crate::reply::{
    failed_reply, items_view, records_view, Answer, RecordView, Reply, ReplyView,
};
use crate::work::WorkOutcome;

verus! {

/// What a record's key is reported as when it cannot be decoded.
pub const KEY_DECODE_CONTEXT: &'static str = "object data key decode";

/// `decode` may read `data` as `key`, or as nothing.
pub open spec fn decodes<K, F: Fn(&Vec<u8>) -> Option<K>>(
    decode: F,
    data: Vec<u8>,
    key: Option<K>,
) -> bool {
    call_ensures(decode, (&data,), key)
}

/// `decode` takes any bytes.
pub open spec fn takes_any<K, F: Fn(&Vec<u8>) -> Option<K>>(decode: F) -> bool {
    forall|data: &Vec<u8>| #[trigger] call_requires(decode, (data,))
}

/// Reads an encoded key; bytes that encode none are an error.
pub fn decode_key<K, F: Fn(&Vec<u8>) -> Option<K>>(
    data: &Vec<u8>,
    context: &'static str,
    decode: &F,
) -> (result: OhosRdbResult<K>)
    requires
        takes_any(*decode),
    ensures
        exists|key: Option<K>| #[trigger]
            decodes(*decode, *data, key) && result == required_or(key, context),
{
    let key = decode(data);
    assert(decodes(*decode, *data, key));
    required(key, context)
}

/// The key of every row in `rows` before position `end` was read, in order, as `keys`.
pub open spec fn keys_read<K, F: Fn(&Vec<u8>) -> Option<K>>(
    decode: F,
    rows: Seq<ObjectDataModel>,
    end: int,
    keys: Seq<K>,
) -> bool {
    &&& keys.len() == end
    &&& forall|i: int|
        #![trigger keys[i]]
        0 <= i < end ==> decodes(decode, rows[i].key, Some(keys[i]))
}

/// The first row whose key could not be read is the one at position `at`.
pub open spec fn unreadable_at<K, F: Fn(&Vec<u8>) -> Option<K>>(
    decode: F,
    rows: Seq<ObjectDataModel>,
    at: int,
) -> bool {
    &&& 0 <= at < rows.len()
    &&& decodes(decode, rows[at].key, None::<K>)
    &&& exists|keys: Seq<K>| #[trigger] keys_read(decode, rows, at, keys)
}

/// Some row has a key that could not be read.
pub open spec fn some_unreadable<K, F: Fn(&Vec<u8>) -> Option<K>>(
    decode: F,
    rows: Seq<ObjectDataModel>,
) -> bool {
    exists|at: int| #[trigger] unreadable_at::<K, F>(decode, rows, at)
}

/// The keys of all rows, in order; the first key that cannot be read is an error.
pub fn decode_keys<K, F: Fn(&Vec<u8>) -> Option<K>>(
    rows: &Vec<ObjectDataModel>,
    decode: &F,
) -> (result: OhosRdbResult<Vec<K>>)
    requires
        takes_any(*decode),
    ensures
        match result {
            Ok(keys) => keys_read(*decode, rows@, rows@.len() as int, keys@),
            Err(error) => {
                &&& error == missing_row_error(KEY_DECODE_CONTEXT)
                &&& some_unreadable::<K, F>(*decode, rows@)
            },
        },
{
    let mut keys: Vec<K> = Vec::new();
    let mut index: usize = 0;
    while index < rows.len()
        invariant
            index <= rows.len(),
            takes_any(*decode),
            keys_read(*decode, rows@, index as int, keys@),
        decreases rows.len() - index,
    {
        match decode_key(&rows[index].key, KEY_DECODE_CONTEXT, decode) {
            Ok(key) => {
                keys.push(key);
            },
            Err(error) => {
                assert(keys_read(*decode, rows@, index as int, keys@));
                assert(unreadable_at::<K, F>(*decode, rows@, index as int));
                return Err(error);
            },
        }
        index = index + 1;
    }
    Ok(keys)
}

/// The values of all rows, in order.
pub open spec fn row_items(rows: Seq<ObjectDataModel>) -> Seq<Seq<u8>> {
    rows.map_values(|row: ObjectDataModel| row.data@)
}

/// The values of all rows, in order.
pub fn into_items(rows: Vec<ObjectDataModel>) -> (items: Vec<Vec<u8>>)
    ensures
        items_view(items@) == row_items(rows@),
{
    let mut items: Vec<Vec<u8>> = Vec::new();
    for row in iter: rows
        invariant
            iter.seq() == rows@,
            items_view(items@) == row_items(rows@.take(iter.index())),
    {
        assert(row == rows@[iter.index()]);
        let ghost before = items_view(items@);
        items.push(row.data);
        assert(items_view(items@) =~= before.push(row.data@));
        assert(row_items(rows@.take(iter.index() + 1)) =~= before.push(row.data@));
    }
    assert(rows@.take(rows@.len() as int) =~= rows@);
    items
}

/// Every row in `rows` before position `end` was turned, in order, into a record:
/// its key was read, its value is the row's.
pub open spec fn records_read<K: Clone, F: Fn(&Vec<u8>) -> Option<K>>(
    decode: F,
    rows: Seq<ObjectDataModel>,
    end: int,
    records: Seq<RecordView<K>>,
) -> bool {
    &&& records.len() == end
    &&& forall|i: int|
        #![trigger records[i]]
        0 <= i < end ==> {
            &&& decodes(decode, rows[i].key, Some(records[i].primary_key))
            &&& cloned(records[i].primary_key, records[i].key)
            &&& records[i].value == rows[i].data@
        }
}

/// The records of all rows, in order; the first key that cannot be read is an error.
pub fn into_records<K: Clone, F: Fn(&Vec<u8>) -> Option<K>>(
    rows: Vec<ObjectDataModel>,
    decode: &F,
) -> (result: OhosRdbResult<Vec<IndexedDBRecord<K>>>)
    requires
        takes_any(*decode),
    ensures
        match result {
            Ok(records) => records_read(
                *decode,
                rows@,
                rows@.len() as int,
                records_view(records@),
            ),
            Err(error) => {
                &&& error == missing_row_error(KEY_DECODE_CONTEXT)
                &&& some_unreadable::<K, F>(*decode, rows@)
            },
        },
{
    let mut records: Vec<IndexedDBRecord<K>> = Vec::new();
    for row in iter: rows
        invariant
            iter.seq() == rows@,
            takes_any(*decode),
            records_read(*decode, rows@, iter.index(), records_view(records@)),
    {
        assert(row == rows@[iter.index()]);
        match decode_key(&row.key, KEY_DECODE_CONTEXT, decode) {
            Ok(key) => {
                let ghost before = records_view(records@);
                let copy = key.clone();
                let record = IndexedDBRecord { key: copy, primary_key: key, value: row.data };
                records.push(record);
                assert(records_view(records@) =~= before.push(record@));
            },
            Err(error) => {
                proof {
                    let keys = records_view(records@).map_values(
                        |record: RecordView<K>| record.primary_key,
                    );
                    assert forall|i: int| #![trigger keys[i]] 0 <= i < iter.index() implies decodes(
                        *decode,
                        rows@[i].key,
                        Some(keys[i]),
                    ) by {
                        assert(keys[i] == records_view(records@)[i].primary_key);
                    }
                    assert(keys_read(*decode, rows@, iter.index(), keys));
                    assert(unreadable_at::<K, F>(*decode, rows@, iter.index()));
                }
                return Err(error);
            },
        }
    }
    Ok(records)
}

/// The outcome is that of the work that a request of the given kind asks for.
pub open spec fn outcome_fits<P>(kind: ReplyKind, outcome: WorkOutcome<P>) -> bool {
    match outcome {
        WorkOutcome::Put(_) => kind == ReplyKind::PutItem,
        WorkOutcome::Rows(_) => kind == ReplyKind::GetKey || kind == ReplyKind::GetItem || kind
            == ReplyKind::GetAllKeys || kind == ReplyKind::GetAllItems || kind
            == ReplyKind::Iterate,
        WorkOutcome::Deleted(_) => kind == ReplyKind::RemoveItem,
        WorkOutcome::Cleared(_) => kind == ReplyKind::Clear,
        WorkOutcome::Counted(_) => kind == ReplyKind::Count,
    }
}

/// `answer` is what a request of the given kind brings when its work went well.
pub open spec fn answers_with<K: Clone, P, F: Fn(&Vec<u8>) -> Option<K>>(
    kind: ReplyKind,
    outcome: WorkOutcome<P>,
    decode: F,
    answer: Answer<K, P>,
) -> bool {
    match outcome {
        WorkOutcome::Put(Ok(put)) => answer == Answer::<K, P>::Put(put),
        WorkOutcome::Deleted(Ok(_)) => answer is Removed,
        WorkOutcome::Cleared(Ok(_)) => answer is Cleared,
        WorkOutcome::Counted(Ok(count)) => answer == Answer::<K, P>::Number(count as u64),
        WorkOutcome::Rows(Ok(rows)) => match kind {
            ReplyKind::GetItem => answer == Answer::<K, P>::Item(
                if rows@.len() == 0 {
                    None
                } else {
                    Some(rows@.last().data@)
                },
            ),
            ReplyKind::GetAllItems => answer == Answer::<K, P>::Items(row_items(rows@)),
            ReplyKind::GetKey => match answer {
                Answer::Key(None) => rows@.len() == 0,
                Answer::Key(Some(key)) => rows@.len() > 0 && decodes(
                    decode,
                    rows@.last().key,
                    Some(key),
                ),
                _ => false,
            },
            ReplyKind::GetAllKeys => match answer {
                Answer::Keys(keys) => keys_read(decode, rows@, rows@.len() as int, keys),
                _ => false,
            },
            ReplyKind::Iterate => match answer {
                Answer::Records(records) => records_read(
                    decode,
                    rows@,
                    rows@.len() as int,
                    records,
                ),
                _ => false,
            },
            _ => false,
        },
        _ => false,
    }
}

/// `error` is how a request of the given kind fails: with the error that ended its
/// work, or because a key that it asks for could not be read.
pub open spec fn fails_with<K, P, F: Fn(&Vec<u8>) -> Option<K>>(
    kind: ReplyKind,
    outcome: WorkOutcome<P>,
    decode: F,
    error: BackendErrorView,
) -> bool {
    match outcome {
        WorkOutcome::Put(Err(cause)) => error == db_err_view(cause),
        WorkOutcome::Rows(Err(cause)) => error == db_err_view(cause),
        WorkOutcome::Deleted(Err(cause)) => error == db_err_view(cause),
        WorkOutcome::Cleared(Err(cause)) => error == db_err_view(cause),
        WorkOutcome::Counted(Err(cause)) => error == db_err_view(cause),
        WorkOutcome::Rows(Ok(rows)) => {
            &&& error == db_err_view(missing_row_error(KEY_DECODE_CONTEXT))
            &&& match kind {
                ReplyKind::GetKey => rows@.len() > 0 && decodes(
                    decode,
                    rows@.last().key,
                    None::<K>,
                ),
                ReplyKind::GetAllKeys | ReplyKind::Iterate => some_unreadable::<K, F>(
                    decode,
                    rows@,
                ),
                _ => false,
            }
        },
        _ => false,
    }
}

/// `reply` is the reply to a request of the given kind whose work went as `outcome` says.
pub open spec fn replies_to<K: Clone, P, F: Fn(&Vec<u8>) -> Option<K>>(
    kind: ReplyKind,
    outcome: WorkOutcome<P>,
    decode: F,
    reply: ReplyView<K, P>,
) -> bool {
    &&& reply.kind == kind
    &&& match reply.outcome {
        Ok(answer) => answers_with(kind, outcome, decode, answer),
        Err(error) => fails_with::<K, P, F>(kind, outcome, decode, error),
    }
}

/// The key of the last row, if there is a row; a key that cannot be read is an error.
fn last_key<K, F: Fn(&Vec<u8>) -> Option<K>>(
    rows: Vec<ObjectDataModel>,
    decode: &F,
) -> (result: OhosRdbResult<Option<K>>)
    requires
        takes_any(*decode),
    ensures
        match result {
            Ok(None) => rows@.len() == 0,
            Ok(Some(key)) => rows@.len() > 0 && decodes(*decode, rows@.last().key, Some(key)),
            Err(error) => {
                &&& error == missing_row_error(KEY_DECODE_CONTEXT)
                &&& rows@.len() > 0
                &&& decodes(*decode, rows@.last().key, None::<K>)
            },
        },
{
    let mut rows = rows;
    match rows.pop() {
        Some(row) => match decode_key(&row.key, KEY_DECODE_CONTEXT, decode) {
            Ok(key) => Ok(Some(key)),
            Err(error) => Err(error),
        },
        None => Ok(None),
    }
}

/// The value of the last row, if there is a row.
fn last_item(rows: Vec<ObjectDataModel>) -> (item: Option<Vec<u8>>)
    ensures
        match item {
            Some(data) => rows@.len() > 0 && data == rows@.last().data,
            None => rows@.len() == 0,
        },
{
    let mut rows = rows;
    match rows.pop() {
        Some(row) => Some(row.data),
        None => None,
    }
}

/// The reply to a request that asks for rows.
fn reply_to_rows<K: Clone, P, F: Fn(&Vec<u8>) -> Option<K>>(
    kind: ReplyKind,
    rows: Vec<ObjectDataModel>,
    decode: &F,
) -> (reply: Reply<K, P>)
    requires
        takes_any(*decode),
        outcome_fits(kind, WorkOutcome::<P>::Rows(Ok(rows))),
    ensures
        replies_to(kind, WorkOutcome::<P>::Rows(Ok(rows)), *decode, reply@),
{
    match kind {
        ReplyKind::GetItem => Reply::GetItem(Ok(last_item(rows))),
        ReplyKind::GetAllItems => Reply::GetAllItems(Ok(into_items(rows))),
        ReplyKind::GetAllKeys => match decode_keys(&rows, decode) {
            Ok(keys) => Reply::GetAllKeys(Ok(keys)),
            Err(error) => Reply::GetAllKeys(Err(db_err(&error))),
        },
        ReplyKind::Iterate => match into_records(rows, decode) {
            Ok(records) => Reply::Iterate(Ok(records)),
            Err(error) => Reply::Iterate(Err(db_err(&error))),
        },
        _ => match last_key(rows, decode) {
            Ok(key) => Reply::GetKey(Ok(key)),
            Err(error) => Reply::GetKey(Err(db_err(&error))),
        },
    }
}

/// The reply to a request of the given kind whose work went as `outcome` says.
pub fn reply_to<K: Clone, P, F: Fn(&Vec<u8>) -> Option<K>>(
    kind: ReplyKind,
    outcome: WorkOutcome<P>,
    decode: &F,
) -> (reply: Reply<K, P>)
    requires
        takes_any(*decode),
        outcome_fits(kind, outcome),
    ensures
        replies_to(kind, outcome, *decode, reply@),
{
    match outcome {
        WorkOutcome::Put(Ok(put)) => Reply::PutItem(Ok(put)),
        WorkOutcome::Rows(Ok(rows)) => reply_to_rows(kind, rows, decode),
        WorkOutcome::Deleted(Ok(_)) => Reply::RemoveItem(Ok(())),
        WorkOutcome::Cleared(Ok(_)) => Reply::Clear(Ok(())),
        WorkOutcome::Counted(Ok(count)) => Reply::Count(Ok(count as u64)),
        WorkOutcome::Put(Err(error)) => failed_reply(kind, db_err(&error)),
        WorkOutcome::Rows(Err(error)) => failed_reply(kind, db_err(&error)),
        WorkOutcome::Deleted(Err(error)) => failed_reply(kind, db_err(&error)),
        WorkOutcome::Cleared(Err(error)) => failed_reply(kind, db_err(&error)),
        WorkOutcome::Counted(Err(error)) => failed_reply(kind, db_err(&error)),
    }
}

} // verus!
