//! What a request is answered with, whatever the store layer found.
//!
//! Where a reply depends on how keys are read, `read` is the function from bytes to keys
//! that the reader computes ([`computes`]).

use vstd::prelude::*;

use crate::answer::{
    decode_key, decode_keys, into_items, into_records, outcome_fits, replies_to, reply_to,
    row_items, some_unreadable, takes_any, unreadable_at,
};
use crate::error::{missing_row, BackendError, OhosRdbError, OhosRdbResult};
use crate::model::{IndexedDBRecord, ObjectDataModel, ReplyKind};
use crate::reply::{failed_reply, items_view, records_view, reply_kind, Answer, Reply, ReplyView};
use crate::text_laws::reports_missing;
use crate::work::WorkOutcome;

verus! {

/// `decode` reads bytes as the key, or as nothing, that `read` gives for them.
pub open spec fn computes<K, F: Fn(&Vec<u8>) -> Option<K>>(
    decode: F,
    read: spec_fn(Seq<u8>) -> Option<K>,
) -> bool {
    forall|data: Vec<u8>, key: Option<K>| #[trigger]
        call_ensures(decode, (&data,), key) ==> key == read(data@)
}

/// A cloned key equals its source.
pub open spec fn copies<K: Clone>() -> bool {
    forall|key: K, copy: K| #[trigger] cloned(key, copy) ==> copy == key
}

/// Which request a reply is for.
pub open spec fn variant_of<K, P>(reply: Reply<K, P>) -> ReplyKind {
    match reply {
        Reply::GetKey(_) => ReplyKind::GetKey,
        Reply::GetItem(_) => ReplyKind::GetItem,
        Reply::GetAllKeys(_) => ReplyKind::GetAllKeys,
        Reply::GetAllItems(_) => ReplyKind::GetAllItems,
        Reply::Count(_) => ReplyKind::Count,
        Reply::Iterate(_) => ReplyKind::Iterate,
        Reply::PutItem(_) => ReplyKind::PutItem,
        Reply::RemoveItem(_) => ReplyKind::RemoveItem,
        Reply::Clear(_) => ReplyKind::Clear,
    }
}

/// How a reply says that its request failed; nothing where it succeeded.
pub open spec fn failure_of<K, P>(reply: Reply<K, P>) -> Option<BackendError> {
    match reply {
        Reply::GetKey(Err(error)) => Some(error),
        Reply::GetItem(Err(error)) => Some(error),
        Reply::GetAllKeys(Err(error)) => Some(error),
        Reply::GetAllItems(Err(error)) => Some(error),
        Reply::Count(Err(error)) => Some(error),
        Reply::Iterate(Err(error)) => Some(error),
        Reply::PutItem(Err(error)) => Some(error),
        Reply::RemoveItem(Err(error)) => Some(error),
        Reply::Clear(Err(error)) => Some(error),
        _ => None,
    }
}

/// The reply is for a request of the given kind and says that it failed, with this text.
pub open spec fn fails_as<K, P>(reply: Reply<K, P>, kind: ReplyKind, text: Seq<char>) -> bool {
    &&& variant_of(reply) == kind
    &&& failure_of(reply) matches Some(BackendError::DbErr(told)) && told@ == text
}

/// The error that ended a piece of work, where one did.
pub open spec fn cause_of<P>(outcome: WorkOutcome<P>) -> Option<OhosRdbError> {
    match outcome {
        WorkOutcome::Put(Err(error)) => Some(error),
        WorkOutcome::Rows(Err(error)) => Some(error),
        WorkOutcome::Deleted(Err(error)) => Some(error),
        WorkOutcome::Cleared(Err(error)) => Some(error),
        WorkOutcome::Counted(Err(error)) => Some(error),
        _ => None,
    }
}

/// The number that a count is answered with is the number that the store counted.
pub proof fn law_count_is_what_was_counted<K: Clone, P, F: Fn(&Vec<u8>) -> Option<K>>(
    count: usize,
    decode: F,
    reply: Reply<K, P>,
)
    requires
        takes_any(decode),
        call_ensures(
            reply_to::<K, P, F>,
            (ReplyKind::Count, WorkOutcome::<P>::Counted(Ok(count)), &decode),
            reply,
        ),
    ensures
        reply matches Reply::Count(Ok(told)) && told as int == count as int,
{
    assert(reply@.outcome is Ok);
    assert(reply@.outcome->Ok_0 is Number);
}

/// The same of every reply that a count can get in a batch.
pub proof fn law_count_reply_is_what_was_counted<K: Clone, P, F: Fn(&Vec<u8>) -> Option<K>>(
    count: usize,
    decode: F,
    reply: ReplyView<K, P>,
)
    requires
        replies_to(ReplyKind::Count, WorkOutcome::<P>::Counted(Ok(count)), decode, reply),
    ensures
        reply.kind == ReplyKind::Count,
        reply.outcome matches Ok(Answer::Number(told)) && told as int == count as int,
{
}

/// Where the store counts the rows that it selects, a count is as long as the list of
/// values of the same records.
pub proof fn law_count_is_the_length_of_the_list<K: Clone, P, F: Fn(&Vec<u8>) -> Option<K>>(
    rows: Vec<ObjectDataModel>,
    count: usize,
    decode: F,
    counted: Reply<K, P>,
    listed: Reply<K, P>,
)
    requires
        takes_any(decode),
        count == rows@.len(),
        call_ensures(
            reply_to::<K, P, F>,
            (ReplyKind::Count, WorkOutcome::<P>::Counted(Ok(count)), &decode),
            counted,
        ),
        call_ensures(
            reply_to::<K, P, F>,
            (ReplyKind::GetAllItems, WorkOutcome::<P>::Rows(Ok(rows)), &decode),
            listed,
        ),
    ensures
        counted matches Reply::Count(Ok(told)) && listed matches Reply::GetAllItems(Ok(items))
            && told as int == items@.len(),
{
    law_count_is_what_was_counted(count, decode, counted);
    law_values_are_those_of_the_rows(rows, decode, listed);
}

/// A put is answered with what the store layer says of it; a removal and a clearing are
/// answered with success.
pub proof fn law_writes_are_answered_as_they_went<K: Clone, P, F: Fn(&Vec<u8>) -> Option<K>>(
    put: P,
    decode: F,
    stored: Reply<K, P>,
    removed: Reply<K, P>,
    cleared: Reply<K, P>,
)
    requires
        takes_any(decode),
        call_ensures(
            reply_to::<K, P, F>,
            (ReplyKind::PutItem, WorkOutcome::<P>::Put(Ok(put)), &decode),
            stored,
        ),
        call_ensures(
            reply_to::<K, P, F>,
            (ReplyKind::RemoveItem, WorkOutcome::<P>::Deleted(Ok(())), &decode),
            removed,
        ),
        call_ensures(
            reply_to::<K, P, F>,
            (ReplyKind::Clear, WorkOutcome::<P>::Cleared(Ok(())), &decode),
            cleared,
        ),
    ensures
        stored == Reply::<K, P>::PutItem(Ok(put)),
        removed matches Reply::RemoveItem(Ok(_)),
        cleared matches Reply::Clear(Ok(_)),
{
    assert(stored@.outcome is Ok);
    assert(removed@.outcome is Ok);
    assert(cleared@.outcome is Ok);
}

/// Work that failed fails its request, whichever it was, with the debug text of the error
/// that ended the work.
pub proof fn law_failed_work_fails_its_request<K: Clone, P, F: Fn(&Vec<u8>) -> Option<K>>(
    kind: ReplyKind,
    outcome: WorkOutcome<P>,
    decode: F,
    error: OhosRdbError,
    text: String,
    reply: Reply<K, P>,
)
    requires
        takes_any(decode),
        outcome_fits(kind, outcome),
        cause_of(outcome) == Some(error),
        call_ensures(OhosRdbError::debug_text, (&error,), text),
        call_ensures(reply_to::<K, P, F>, (kind, outcome, &decode), reply),
    ensures
        fails_as(reply, kind, text@),
{
    assert(reply@.outcome is Err);
}

/// The values of a list are those of the rows, one for one and in order.
pub proof fn law_values_are_those_of_the_rows<K: Clone, P, F: Fn(&Vec<u8>) -> Option<K>>(
    rows: Vec<ObjectDataModel>,
    decode: F,
    reply: Reply<K, P>,
)
    requires
        takes_any(decode),
        call_ensures(
            reply_to::<K, P, F>,
            (ReplyKind::GetAllItems, WorkOutcome::<P>::Rows(Ok(rows)), &decode),
            reply,
        ),
    ensures
        reply matches Reply::GetAllItems(Ok(items)) && {
            &&& items@.len() == rows@.len()
            &&& forall|i: int| 0 <= i < rows@.len() ==> (#[trigger] items@[i])@ == rows@[i].data@
        },
{
    assert(reply@.outcome is Ok);
    assert(reply@.outcome->Ok_0 is Items);
    let items = reply->GetAllItems_0->Ok_0;
    let seen = items_view(items@);
    let held = row_items(rows@);
    assert(seen == held);
    assert forall|i: int| 0 <= i < rows@.len() implies (#[trigger] items@[i])@
        == rows@[i].data@ by {
        assert(seen[i] == held[i]);
    }
}

/// The one value is that of the last row that was found; nothing where there is none.
pub proof fn law_value_is_that_of_the_last_row<K: Clone, P, F: Fn(&Vec<u8>) -> Option<K>>(
    rows: Vec<ObjectDataModel>,
    decode: F,
    reply: Reply<K, P>,
)
    requires
        takes_any(decode),
        call_ensures(
            reply_to::<K, P, F>,
            (ReplyKind::GetItem, WorkOutcome::<P>::Rows(Ok(rows)), &decode),
            reply,
        ),
    ensures
        reply matches Reply::GetItem(Ok(item)) && match item {
            None => rows@.len() == 0,
            Some(value) => rows@.len() > 0 && value@ == rows@[rows@.len() - 1].data@,
        },
{
    assert(reply@.outcome is Ok);
    assert(reply@.outcome->Ok_0 is Item);
}

/// The one key is what the last row's key reads as; nothing where there is no row, and a
/// failure exactly where that key cannot be read.
pub proof fn law_key_is_that_of_the_last_row<K: Clone, P, F: Fn(&Vec<u8>) -> Option<K>>(
    rows: Vec<ObjectDataModel>,
    decode: F,
    read: spec_fn(Seq<u8>) -> Option<K>,
    missing: OhosRdbError,
    text: String,
    reply: Reply<K, P>,
)
    requires
        takes_any(decode),
        computes(decode, read),
        call_ensures(missing_row, ("object data key decode",), missing),
        call_ensures(OhosRdbError::debug_text, (&missing,), text),
        call_ensures(
            reply_to::<K, P, F>,
            (ReplyKind::GetKey, WorkOutcome::<P>::Rows(Ok(rows)), &decode),
            reply,
        ),
    ensures
        rows@.len() == 0 ==> reply == Reply::<K, P>::GetKey(Ok(None)),
        rows@.len() > 0 ==> match read(rows@[rows@.len() - 1].key@) {
            Some(key) => reply == Reply::<K, P>::GetKey(Ok(Some(key))),
            None => fails_as(reply, ReplyKind::GetKey, text@),
        },
{
    assert(variant_of(reply) == ReplyKind::GetKey);
    match reply@.outcome {
        Ok(answer) => {
            assert(answer is Key);
        },
        Err(_) => {},
    }
}

/// The keys of a list are what the rows' keys read as, one for one and in order; a single
/// key that cannot be read fails the whole request, and nothing else does.
pub proof fn law_keys_are_those_of_the_rows<K: Clone, P, F: Fn(&Vec<u8>) -> Option<K>>(
    rows: Vec<ObjectDataModel>,
    decode: F,
    read: spec_fn(Seq<u8>) -> Option<K>,
    missing: OhosRdbError,
    text: String,
    reply: Reply<K, P>,
)
    requires
        takes_any(decode),
        computes(decode, read),
        call_ensures(missing_row, ("object data key decode",), missing),
        call_ensures(OhosRdbError::debug_text, (&missing,), text),
        call_ensures(
            reply_to::<K, P, F>,
            (ReplyKind::GetAllKeys, WorkOutcome::<P>::Rows(Ok(rows)), &decode),
            reply,
        ),
    ensures
        match reply {
            Reply::GetAllKeys(Ok(keys)) => {
                &&& keys@.len() == rows@.len()
                &&& forall|i: int|
                    0 <= i < rows@.len() ==> read(rows@[i].key@) == Some(#[trigger] keys@[i])
            },
            _ => {
                &&& fails_as(reply, ReplyKind::GetAllKeys, text@)
                &&& exists|i: int| 0 <= i < rows@.len() && read((#[trigger] rows@[i]).key@) is None
            },
        },
{
    assert(variant_of(reply) == ReplyKind::GetAllKeys);
    match reply@.outcome {
        Ok(answer) => {
            assert(answer is Keys);
            let keys = reply->GetAllKeys_0->Ok_0;
            assert forall|i: int| 0 <= i < rows@.len() implies read(rows@[i].key@) == Some(
                #[trigger] keys@[i],
            ) by {
                assert(call_ensures(decode, (&rows@[i].key,), Some(keys@[i])));
            }
        },
        Err(_) => {
            lemma_unreadable_row(rows@, decode, read);
        },
    }
}

proof fn lemma_unreadable_row<K, F: Fn(&Vec<u8>) -> Option<K>>(
    rows: Seq<ObjectDataModel>,
    decode: F,
    read: spec_fn(Seq<u8>) -> Option<K>,
)
    requires
        computes(decode, read),
        some_unreadable::<K, F>(decode, rows),
    ensures
        exists|i: int| 0 <= i < rows.len() && read((#[trigger] rows[i]).key@) is None,
{
    let at = choose|at: int| #[trigger] unreadable_at::<K, F>(decode, rows, at);
    assert(unreadable_at::<K, F>(decode, rows, at));
    assert(call_ensures(decode, (&rows[at].key,), None::<K>));
    assert(read(rows[at].key@) is None);
}

/// The records of an iteration are the rows, one for one and in order: each has the row's
/// value, and the row's key both as its key and as its primary key. A single key that
/// cannot be read fails the whole request, and nothing else does.
pub proof fn law_records_are_the_rows<K: Clone, P, F: Fn(&Vec<u8>) -> Option<K>>(
    rows: Vec<ObjectDataModel>,
    decode: F,
    read: spec_fn(Seq<u8>) -> Option<K>,
    missing: OhosRdbError,
    text: String,
    reply: Reply<K, P>,
)
    requires
        takes_any(decode),
        computes(decode, read),
        copies::<K>(),
        call_ensures(missing_row, ("object data key decode",), missing),
        call_ensures(OhosRdbError::debug_text, (&missing,), text),
        call_ensures(
            reply_to::<K, P, F>,
            (ReplyKind::Iterate, WorkOutcome::<P>::Rows(Ok(rows)), &decode),
            reply,
        ),
    ensures
        match reply {
            Reply::Iterate(Ok(records)) => {
                &&& records@.len() == rows@.len()
                &&& forall|i: int|
                    0 <= i < rows@.len() ==> {
                        &&& read(rows@[i].key@) == Some((#[trigger] records@[i]).primary_key)
                        &&& records@[i].key == records@[i].primary_key
                        &&& records@[i].value@ == rows@[i].data@
                    }
            },
            _ => {
                &&& fails_as(reply, ReplyKind::Iterate, text@)
                &&& exists|i: int| 0 <= i < rows@.len() && read((#[trigger] rows@[i]).key@) is None
            },
        },
{
    assert(variant_of(reply) == ReplyKind::Iterate);
    match reply@.outcome {
        Ok(answer) => {
            assert(answer is Records);
            let records = reply->Iterate_0->Ok_0;
            let seen = records_view(records@);
            assert(seen.len() == rows@.len());
            assert forall|i: int| 0 <= i < rows@.len() implies {
                &&& read(rows@[i].key@) == Some((#[trigger] records@[i]).primary_key)
                &&& records@[i].key == records@[i].primary_key
                &&& records@[i].value@ == rows@[i].data@
            } by {
                assert(seen[i] == records@[i]@);
                assert(call_ensures(decode, (&rows@[i].key,), Some(records@[i].primary_key)));
                assert(cloned(records@[i].primary_key, records@[i].key));
            }
        },
        Err(_) => {
            lemma_unreadable_row(rows@, decode, read);
        },
    }
}

/// Reading a key gives what its bytes read as; bytes that encode no key are reported as
/// missing under the context that was given.
pub proof fn law_key_is_what_its_bytes_read_as<K, F: Fn(&Vec<u8>) -> Option<K>>(
    data: Vec<u8>,
    context: &'static str,
    decode: F,
    read: spec_fn(Seq<u8>) -> Option<K>,
    result: OhosRdbResult<K>,
)
    requires
        takes_any(decode),
        computes(decode, read),
        call_ensures(decode_key::<K, F>, (&data, context, &decode), result),
    ensures
        match read(data@) {
            Some(key) => result == Ok::<K, OhosRdbError>(key),
            None => result matches Err(error) && reports_missing(error, context),
        },
{
}

/// The keys of rows are what their bytes read as, one for one and in order, or none at all
/// where one of them cannot be read.
pub proof fn law_decoded_keys_are_those_of_the_rows<K, F: Fn(&Vec<u8>) -> Option<K>>(
    rows: Vec<ObjectDataModel>,
    decode: F,
    read: spec_fn(Seq<u8>) -> Option<K>,
    result: OhosRdbResult<Vec<K>>,
)
    requires
        takes_any(decode),
        computes(decode, read),
        call_ensures(decode_keys::<K, F>, (&rows, &decode), result),
    ensures
        match result {
            Ok(keys) => {
                &&& keys@.len() == rows@.len()
                &&& forall|i: int|
                    0 <= i < rows@.len() ==> read(rows@[i].key@) == Some(#[trigger] keys@[i])
            },
            Err(error) => {
                &&& reports_missing(error, "object data key decode")
                &&& exists|i: int| 0 <= i < rows@.len() && read((#[trigger] rows@[i]).key@) is None
            },
        },
{
    match result {
        Ok(keys) => {
            assert forall|i: int| 0 <= i < rows@.len() implies read(rows@[i].key@) == Some(
                #[trigger] keys@[i],
            ) by {
                assert(call_ensures(decode, (&rows@[i].key,), Some(keys@[i])));
            }
        },
        Err(_) => {
            lemma_unreadable_row(rows@, decode, read);
        },
    }
}

/// The values of rows are their data, one for one and in order.
pub proof fn law_items_are_those_of_the_rows(rows: Vec<ObjectDataModel>, items: Vec<Vec<u8>>)
    requires
        call_ensures(into_items, (rows,), items),
    ensures
        items@.len() == rows@.len(),
        forall|i: int| 0 <= i < rows@.len() ==> (#[trigger] items@[i])@ == rows@[i].data@,
{
    let seen = items_view(items@);
    let held = row_items(rows@);
    assert(seen == held);
    assert(seen.len() == held.len());
    assert forall|i: int| 0 <= i < rows@.len() implies (#[trigger] items@[i])@
        == rows@[i].data@ by {
        assert(seen[i] == held[i]);
    }
}

/// The records of rows hold their keys and their data, one for one and in order, or there
/// are none at all where a key cannot be read.
pub proof fn law_made_records_are_the_rows<K: Clone, F: Fn(&Vec<u8>) -> Option<K>>(
    rows: Vec<ObjectDataModel>,
    decode: F,
    read: spec_fn(Seq<u8>) -> Option<K>,
    result: OhosRdbResult<Vec<IndexedDBRecord<K>>>,
)
    requires
        takes_any(decode),
        computes(decode, read),
        copies::<K>(),
        call_ensures(into_records::<K, F>, (rows, &decode), result),
    ensures
        match result {
            Ok(records) => {
                &&& records@.len() == rows@.len()
                &&& forall|i: int|
                    0 <= i < rows@.len() ==> {
                        &&& read(rows@[i].key@) == Some((#[trigger] records@[i]).primary_key)
                        &&& records@[i].key == records@[i].primary_key
                        &&& records@[i].value@ == rows@[i].data@
                    }
            },
            Err(error) => {
                &&& reports_missing(error, "object data key decode")
                &&& exists|i: int| 0 <= i < rows@.len() && read((#[trigger] rows@[i]).key@) is None
            },
        },
{
    match result {
        Ok(records) => {
            let seen = records_view(records@);
            assert(seen.len() == rows@.len());
            assert forall|i: int| 0 <= i < rows@.len() implies {
                &&& read(rows@[i].key@) == Some((#[trigger] records@[i]).primary_key)
                &&& records@[i].key == records@[i].primary_key
                &&& records@[i].value@ == rows@[i].data@
            } by {
                assert(seen[i] == records@[i]@);
                assert(call_ensures(decode, (&rows@[i].key,), Some(records@[i].primary_key)));
                assert(cloned(records@[i].primary_key, records@[i].key));
            }
        },
        Err(_) => {
            lemma_unreadable_row(rows@, decode, read);
        },
    }
}

/// A reply that tells of a failure is of the kind that was asked for, and tells of that
/// failure.
pub proof fn law_failed_reply_tells_the_failure<K, P>(
    kind: ReplyKind,
    error: BackendError,
    reply: Reply<K, P>,
)
    requires
        call_ensures(failed_reply::<K, P>, (kind, error), reply),
    ensures
        variant_of(reply) == kind,
        match error {
            BackendError::DbErr(text) => failure_of(reply) matches Some(BackendError::DbErr(told))
                && told@ == text@,
            BackendError::StoreNotFound => failure_of(reply) == Some(BackendError::StoreNotFound),
        },
{
    assert(reply@.outcome is Err);
}

/// The kind of a reply is that of the request which it is for.
pub proof fn law_reply_kind_is_its_variant<K, P>(reply: Reply<K, P>, kind: ReplyKind)
    requires
        call_ensures(reply_kind::<K, P>, (&reply,), kind),
    ensures
        kind == variant_of(reply),
{
}

} // verus!
