//! How the replies to different requests for the same records agree.
//!
//! What the database finds is not decided here, nor how a key is read or cloned. The laws
//! take it as given that the database answers the same question with the same rows as long
//! as nothing is written in between ([`answers_reads_alike`]), that the same bytes are read
//! as the same key ([`reads_alike`]), and, where a record holds a cloned key, that a clone
//! equals its source ([`clones_alike`]).

use vstd::prelude::*;

use crate::answer::{
    decodes, keys_read, records_read, replies_to, row_items, some_unreadable, unreadable_at,
    KEY_DECODE_CONTEXT,
};
use crate::batch_course::{law_each_reply_stands_on_its_own, BatchAnswers};
use crate::batch_laws::BatchRun;
use crate::debug_text::db_err_view;
use crate::error::{missing_row_error, BackendErrorView};
use crate::model::{
    AsyncOperation, AsyncReadOnlyOperation, KvsOperation, ObjectDataModel, ObjectStoreModel,
    ReplyKind,
};
use crate::reply::{Answer, RecordView, ReplyView};
use crate::work::{work_view, Work, WorkOutcome};

verus! {

/// `decode` reads the same bytes alike, each time.
pub open spec fn reads_alike<K, F: Fn(&Vec<u8>) -> Option<K>>(decode: F) -> bool {
    forall|a: Vec<u8>, b: Vec<u8>, x: Option<K>, y: Option<K>|
        #![trigger decodes(decode, a, x), decodes(decode, b, y)]
        decodes(decode, a, x) && decodes(decode, b, y) && a@ == b@ ==> x == y
}

/// A cloned key equals its source.
pub open spec fn clones_alike<K: Clone>() -> bool {
    forall|key: K, copy: K| #[trigger] cloned(key, copy) ==> copy == key
}

/// The two lists hold the same records in the same order.
pub open spec fn same_rows(a: Seq<ObjectDataModel>, b: Seq<ObjectDataModel>) -> bool {
    &&& a.len() == b.len()
    &&& forall|i: int|
        #![trigger a[i]]
        #![trigger b[i]]
        0 <= i < a.len() ==> {
            &&& a[i].object_store_id == b[i].object_store_id
            &&& a[i].key@ == b[i].key@
            &&& a[i].data@ == b[i].data@
        }
}

/// `reply` is the reply to a request of the given kind that found `rows`.
pub open spec fn replies_to_rows<K: Clone, P, F: Fn(&Vec<u8>) -> Option<K>>(
    kind: ReplyKind,
    rows: Vec<ObjectDataModel>,
    decode: F,
    reply: ReplyView<K, P>,
) -> bool {
    replies_to(kind, WorkOutcome::<P>::Rows(Ok(rows)), decode, reply)
}

/// How a request fails that found a key which cannot be read.
pub open spec fn key_failure<K, P>() -> Result<Answer<K, P>, BackendErrorView> {
    Err(db_err_view(missing_row_error(KEY_DECODE_CONTEXT)))
}

/// The last of a list, if there is one.
pub open spec fn last_of<T>(list: Seq<T>) -> Option<T> {
    if list.len() == 0 {
        None
    } else {
        Some(list.last())
    }
}

/// What a request for one key, for one value, for all keys and for all values is
/// answered, agrees: as many values as keys, the one key the last of the keys, and the
/// one value the last of the values. A range without records is no failure: there is no
/// key, no value, and the lists are empty.
pub open spec fn single_reads_agree<K, P>(
    found: nat,
    key: Result<Answer<K, P>, BackendErrorView>,
    keys: Result<Answer<K, P>, BackendErrorView>,
    item: Result<Answer<K, P>, BackendErrorView>,
    items: Result<Answer<K, P>, BackendErrorView>,
) -> bool {
    &&& items matches Ok(Answer::Items(values)) && {
        &&& values.len() == found
        &&& item == Ok::<Answer<K, P>, BackendErrorView>(Answer::Item(last_of(values)))
        &&& match keys {
            Ok(Answer::Keys(all)) => {
                &&& all.len() == values.len()
                &&& key == Ok::<Answer<K, P>, BackendErrorView>(Answer::Key(last_of(all)))
            },
            Ok(_) => false,
            Err(_) => keys == key_failure::<K, P>() && found > 0,
        }
    }
    // A key that cannot be read fails both requests that ask for it.
    &&& key is Err ==> key == keys
    &&& found <= 1 ==> (key is Err <==> keys is Err)
    &&& found == 0 ==> {
        &&& key == Ok::<Answer<K, P>, BackendErrorView>(Answer::Key(None))
        &&& keys == Ok::<Answer<K, P>, BackendErrorView>(Answer::Keys(Seq::empty()))
        &&& item == Ok::<Answer<K, P>, BackendErrorView>(Answer::Item(None))
        &&& items == Ok::<Answer<K, P>, BackendErrorView>(Answer::Items(Seq::empty()))
    }
}

/// What an iteration, a request for all keys and a request for all values are answered,
/// agrees: the records, keys and values match position by position, and both keys of a
/// record are its key. The iteration and the keys fail exactly if some key cannot be
/// read, and no list is cut short; the values are there either way.
pub open spec fn list_reads_agree<K, P, F: Fn(&Vec<u8>) -> Option<K>>(
    rows: Seq<ObjectDataModel>,
    decode: F,
    records: Result<Answer<K, P>, BackendErrorView>,
    keys: Result<Answer<K, P>, BackendErrorView>,
    items: Result<Answer<K, P>, BackendErrorView>,
) -> bool {
    &&& items == Ok::<Answer<K, P>, BackendErrorView>(Answer::Items(row_items(rows)))
    &&& match (records, keys) {
        (Ok(Answer::Records(records)), Ok(Answer::Keys(keys))) => {
            &&& records.len() == rows.len()
            &&& keys.len() == rows.len()
            &&& forall|i: int|
                #![trigger records[i]]
                #![trigger keys[i]]
                0 <= i < rows.len() ==> {
                    &&& records[i].key == keys[i]
                    &&& records[i].primary_key == keys[i]
                    &&& records[i].value == row_items(rows)[i]
                }
        },
        (Err(_), Err(_)) => {
            &&& records == key_failure::<K, P>()
            &&& keys == key_failure::<K, P>()
            &&& some_unreadable::<K, F>(decode, rows)
        },
        _ => false,
    }
    &&& forall|i: int|
        0 <= i < rows.len() && #[trigger] decodes(decode, rows[i].key, None::<K>) ==> records is Err
            && keys is Err
}

/// Where the keys of the same records were all read, none of these records has a key that
/// encodes nothing.
proof fn lemma_read_is_not_unreadable<K, F: Fn(&Vec<u8>) -> Option<K>>(
    decode: F,
    rows: Seq<ObjectDataModel>,
    at: int,
    others: Seq<ObjectDataModel>,
    keys: Seq<K>,
)
    requires
        reads_alike::<K, F>(decode),
        same_rows(rows, others),
        0 <= at < rows.len(),
        keys_read(decode, others, others.len() as int, keys),
    ensures
        !decodes(decode, rows[at].key, None::<K>),
{
    let key = keys[at];
    assert(decodes(decode, others[at].key, Some(key)));
    assert(rows[at].key@ == others[at].key@);
}

/// The keys of records are keys that were read.
proof fn lemma_records_have_keys<K: Clone, F: Fn(&Vec<u8>) -> Option<K>>(
    decode: F,
    rows: Seq<ObjectDataModel>,
    records: Seq<RecordView<K>>,
) -> (keys: Seq<K>)
    requires
        records_read(decode, rows, rows.len() as int, records),
    ensures
        keys_read(decode, rows, rows.len() as int, keys),
        forall|i: int| 0 <= i < rows.len() ==> #[trigger] keys[i] == records[i].primary_key,
{
    let keys = records.map_values(|record: RecordView<K>| record.primary_key);
    assert forall|i: int| #![trigger keys[i]] 0 <= i < rows.len() implies decodes(
        decode,
        rows[i].key,
        Some(keys[i]),
    ) by {
        assert(keys[i] == records[i].primary_key);
    }
    keys
}

/// For the same records, the one key and the one value are the last of the keys and the
/// last of the values, and a range without records gives none of them.
pub proof fn law_single_reads_agree_with_lists<K: Clone, P, F: Fn(&Vec<u8>) -> Option<K>>(
    decode: F,
    key_rows: Vec<ObjectDataModel>,
    keys_rows: Vec<ObjectDataModel>,
    item_rows: Vec<ObjectDataModel>,
    items_rows: Vec<ObjectDataModel>,
    key: ReplyView<K, P>,
    keys: ReplyView<K, P>,
    item: ReplyView<K, P>,
    items: ReplyView<K, P>,
)
    requires
        reads_alike::<K, F>(decode),
        same_rows(key_rows@, keys_rows@),
        same_rows(key_rows@, item_rows@),
        same_rows(key_rows@, items_rows@),
        replies_to_rows(ReplyKind::GetKey, key_rows, decode, key),
        replies_to_rows(ReplyKind::GetAllKeys, keys_rows, decode, keys),
        replies_to_rows(ReplyKind::GetItem, item_rows, decode, item),
        replies_to_rows(ReplyKind::GetAllItems, items_rows, decode, items),
    ensures
        single_reads_agree(
            key_rows@.len(),
            key.outcome,
            keys.outcome,
            item.outcome,
            items.outcome,
        ),
{
    let last = key_rows@.len() - 1;
    if last >= 0 {
        assert(key_rows@[last].key@ == keys_rows@[last].key@);
        assert(key_rows@[last].data@ == item_rows@[last].data@);
        assert(key_rows@[last].data@ == items_rows@[last].data@);
        assert(row_items(items_rows@).last() == items_rows@[last].data@);
    }
    assert(items.outcome->Ok_0->Items_0 == row_items(items_rows@));
    match keys.outcome {
        Ok(Answer::Keys(all)) => {
            if last >= 0 {
                assert(decodes(decode, keys_rows@[last].key, Some(all[last])));
            } else {
                assert(all =~= Seq::empty());
            }
        },
        _ => {
            let at = choose|at: int| #[trigger] unreadable_at::<K, F>(decode, keys_rows@, at);
            assert(unreadable_at::<K, F>(decode, keys_rows@, at));
            assert(key_rows@[at].key@ == keys_rows@[at].key@);
        },
    }
    if last < 0 {
        assert(row_items(items_rows@) =~= Seq::empty());
    }
}

/// For the same records, the records of an iteration, the keys and the values match
/// position by position; a key that cannot be read fails the first two as a whole and
/// leaves the values alone.
pub proof fn law_list_reads_agree<K: Clone, P, F: Fn(&Vec<u8>) -> Option<K>>(
    decode: F,
    records_rows: Vec<ObjectDataModel>,
    keys_rows: Vec<ObjectDataModel>,
    items_rows: Vec<ObjectDataModel>,
    records: ReplyView<K, P>,
    keys: ReplyView<K, P>,
    items: ReplyView<K, P>,
)
    requires
        reads_alike::<K, F>(decode),
        clones_alike::<K>(),
        same_rows(records_rows@, keys_rows@),
        same_rows(records_rows@, items_rows@),
        replies_to_rows(ReplyKind::Iterate, records_rows, decode, records),
        replies_to_rows(ReplyKind::GetAllKeys, keys_rows, decode, keys),
        replies_to_rows(ReplyKind::GetAllItems, items_rows, decode, items),
    ensures
        list_reads_agree(records_rows@, decode, records.outcome, keys.outcome, items.outcome),
{
    let rows = records_rows@;
    assert(row_items(items_rows@) =~= row_items(rows)) by {
        assert forall|i: int| 0 <= i < rows.len() implies row_items(items_rows@)[i] == row_items(
            rows,
        )[i] by {
            assert(rows[i].data@ == items_rows@[i].data@);
        }
    }
    assert(same_rows(rows, rows));
    assert forall|i: int|
        0 <= i < rows.len() && #[trigger] decodes(
            decode,
            rows[i].key,
            None::<K>,
        ) implies records.outcome is Err && keys.outcome is Err by {
        if let Ok(Answer::Records(read)) = records.outcome {
            let read_keys = lemma_records_have_keys::<K, F>(decode, rows, read);
            lemma_read_is_not_unreadable(decode, rows, i, rows, read_keys);
        }
        if let Ok(Answer::Keys(read)) = keys.outcome {
            lemma_read_is_not_unreadable(decode, rows, i, keys_rows@, read);
        }
    }
    match (records.outcome, keys.outcome) {
        (Ok(Answer::Records(read)), Ok(Answer::Keys(all))) => {
            assert forall|i: int|
                #![trigger read[i]]
                #![trigger all[i]]
                0 <= i < rows.len() implies {
                &&& read[i].key == all[i]
                &&& read[i].primary_key == all[i]
                &&& read[i].value == row_items(rows)[i]
            } by {
                let record = read[i];
                let key = all[i];
                assert(rows[i].key@ == keys_rows@[i].key@);
                assert(decodes(decode, rows[i].key, Some(record.primary_key)));
                assert(decodes(decode, keys_rows@[i].key, Some(key)));
                assert(cloned(record.primary_key, record.key));
            }
        },
        (Ok(_), Err(_)) => {
            let read = records.outcome->Ok_0->Records_0;
            let read_keys = lemma_records_have_keys::<K, F>(decode, rows, read);
            let at = choose|at: int| #[trigger] unreadable_at::<K, F>(decode, keys_rows@, at);
            assert(unreadable_at::<K, F>(decode, keys_rows@, at));
            assert(same_rows(keys_rows@, rows));
            lemma_read_is_not_unreadable(decode, keys_rows@, at, rows, read_keys);
        },
        (Err(_), _) => {
            let at = choose|at: int| #[trigger] unreadable_at::<K, F>(decode, rows, at);
            assert(unreadable_at::<K, F>(decode, rows, at));
        },
        _ => {},
    }
}

/// Requests for the same range of an object store ask for the same work: those for one
/// key, one value, and a list of one at most; and those for all records, all keys and all
/// values.
pub proof fn law_reads_of_a_range_ask_for_the_same_rows<C, K, G>(
    store: ObjectStoreModel,
    key_range: G,
    callback: C,
)
    ensures
        ({
            let one = Ok::<Work<K, G>, BackendErrorView>(
                Work::SelectRows { store, key_range, count: Some(1) },
            );
            let count = Some(1u32);
            &&& work_view(
                store,
                AsyncOperation::<C, K, G>::ReadOnly(
                    AsyncReadOnlyOperation::GetKey { callback, key_range },
                ),
            ) == one
            &&& work_view(
                store,
                AsyncOperation::<C, K, G>::ReadOnly(
                    AsyncReadOnlyOperation::GetItem { callback, key_range },
                ),
            ) == one
            &&& work_view(
                store,
                AsyncOperation::<C, K, G>::ReadOnly(
                    AsyncReadOnlyOperation::GetAllKeys { callback, key_range, count },
                ),
            ) == one
            &&& work_view(
                store,
                AsyncOperation::<C, K, G>::ReadOnly(
                    AsyncReadOnlyOperation::GetAllItems { callback, key_range, count },
                ),
            ) == one
        }),
        ({
            let all = Ok::<Work<K, G>, BackendErrorView>(
                Work::SelectRows { store, key_range, count: None },
            );
            let count = None::<u32>;
            &&& work_view(
                store,
                AsyncOperation::<C, K, G>::ReadOnly(
                    AsyncReadOnlyOperation::Iterate { callback, key_range },
                ),
            ) == all
            &&& work_view(
                store,
                AsyncOperation::<C, K, G>::ReadOnly(
                    AsyncReadOnlyOperation::GetAllKeys { callback, key_range, count },
                ),
            ) == all
            &&& work_view(
                store,
                AsyncOperation::<C, K, G>::ReadOnly(
                    AsyncReadOnlyOperation::GetAllItems { callback, key_range, count },
                ),
            ) == all
        }),
{
}

/// The request at position `at` is of the given kind and asked the object store with the
/// given id for the records in the range, at most `count` of them; it found `rows`.
pub open spec fn found_rows<C, K, G, P>(
    requests: Seq<KvsOperation<C, K, G>>,
    answers: BatchAnswers<P>,
    at: int,
    kind: ReplyKind,
    store_id: i64,
    key_range: G,
    count: Option<u32>,
    rows: Vec<ObjectDataModel>,
) -> bool {
    &&& 0 <= at < requests.len()
    &&& requests[at].operation.kind() == kind
    &&& answers.lookups[at] matches Ok(Some(store)) && {
        &&& store.id == store_id
        &&& work_view(store, requests[at].operation) == Ok::<Work<K, G>, BackendErrorView>(
            Work::SelectRows { store, key_range, count },
        )
    }
    &&& answers.outcomes[at] == WorkOutcome::<P>::Rows(Ok(rows))
}

/// No request from the one position to the other writes.
pub open spec fn no_write_between<C, K, G>(
    requests: Seq<KvsOperation<C, K, G>>,
    a: int,
    b: int,
) -> bool {
    forall|i: int|
        #![trigger requests[i]]
        0 <= i < requests.len() && (a <= i <= b || b <= i <= a) ==> requests[i].operation
            is ReadOnly
}

/// The database answers the same question with the same rows, as long as nothing is
/// written in between.
pub open spec fn answers_reads_alike<C, K, G, P>(
    requests: Seq<KvsOperation<C, K, G>>,
    answers: BatchAnswers<P>,
) -> bool {
    forall|
        a: int,
        b: int,
        a_kind: ReplyKind,
        b_kind: ReplyKind,
        store_id: i64,
        key_range: G,
        count: Option<u32>,
        a_rows: Vec<ObjectDataModel>,
        b_rows: Vec<ObjectDataModel>,
    |
        #![trigger
            found_rows(requests, answers, a, a_kind, store_id, key_range, count, a_rows),
            found_rows(requests, answers, b, b_kind, store_id, key_range, count, b_rows)]
        found_rows(requests, answers, a, a_kind, store_id, key_range, count, a_rows)
            && found_rows(requests, answers, b, b_kind, store_id, key_range, count, b_rows)
            && no_write_between(requests, a, b) ==> same_rows(a_rows@, b_rows@)
}

/// A batch of the given requests came to its end with the given answers, and was
/// committed.
pub open spec fn committed<C, K: Clone, G, P, F: Fn(&Vec<u8>) -> Option<K>>(
    run: BatchRun<C, K, G, P>,
    requests: Seq<KvsOperation<C, K, G>>,
    decode: F,
    answers: BatchAnswers<P>,
) -> bool {
    &&& run.of(requests, decode)
    &&& run.answered_by(answers)
    &&& run.finished()
    &&& answers.created is Ok
    &&& answers.committed is Ok
}

proof fn lemma_reply_to_rows<C, K: Clone, G, P, F: Fn(&Vec<u8>) -> Option<K>>(
    run: BatchRun<C, K, G, P>,
    requests: Seq<KvsOperation<C, K, G>>,
    decode: F,
    answers: BatchAnswers<P>,
    at: int,
    kind: ReplyKind,
    store_id: i64,
    key_range: G,
    count: Option<u32>,
    rows: Vec<ObjectDataModel>,
)
    requires
        committed(run, requests, decode, answers),
        found_rows(requests, answers, at, kind, store_id, key_range, count, rows),
        kind == ReplyKind::GetKey || kind == ReplyKind::GetItem || kind == ReplyKind::GetAllKeys
            || kind == ReplyKind::GetAllItems || kind == ReplyKind::Iterate,
    ensures
        replies_to_rows(kind, rows, decode, run.deliveries()[at].reply),
{
    law_each_reply_stands_on_its_own(run, requests, decode, answers, at);
}

/// In a batch that was committed, requests for the one key, the one value, and at most one
/// key and one value in the same range of the same object store, with no write between
/// them, are answered alike: the one key and the one value are the last of the keys and the
/// last of the values, and where there are no records there is no key, no value, and the
/// lists are empty.
pub proof fn law_batch_single_reads_agree_with_lists<
    C,
    K: Clone,
    G,
    P,
    F: Fn(&Vec<u8>) -> Option<K>,
>(
    run: BatchRun<C, K, G, P>,
    requests: Seq<KvsOperation<C, K, G>>,
    decode: F,
    answers: BatchAnswers<P>,
    store_id: i64,
    key_range: G,
    at: (int, int, int, int),
    rows: (
        Vec<ObjectDataModel>,
        Vec<ObjectDataModel>,
        Vec<ObjectDataModel>,
        Vec<ObjectDataModel>,
    ),
)
    requires
        committed(run, requests, decode, answers),
        answers_reads_alike(requests, answers),
        reads_alike::<K, F>(decode),
        found_rows(
            requests,
            answers,
            at.0,
            ReplyKind::GetKey,
            store_id,
            key_range,
            Some(1),
            rows.0,
        ),
        found_rows(
            requests,
            answers,
            at.1,
            ReplyKind::GetAllKeys,
            store_id,
            key_range,
            Some(1),
            rows.1,
        ),
        found_rows(
            requests,
            answers,
            at.2,
            ReplyKind::GetItem,
            store_id,
            key_range,
            Some(1),
            rows.2,
        ),
        found_rows(
            requests,
            answers,
            at.3,
            ReplyKind::GetAllItems,
            store_id,
            key_range,
            Some(1),
            rows.3,
        ),
        no_write_between(requests, at.0, at.1),
        no_write_between(requests, at.0, at.2),
        no_write_between(requests, at.0, at.3),
    ensures
        single_reads_agree(
            rows.0@.len(),
            run.deliveries()[at.0].reply.outcome,
            run.deliveries()[at.1].reply.outcome,
            run.deliveries()[at.2].reply.outcome,
            run.deliveries()[at.3].reply.outcome,
        ),
{
    let one = Some(1u32);
    let (key, keys) = (ReplyKind::GetKey, ReplyKind::GetAllKeys);
    let (item, items) = (ReplyKind::GetItem, ReplyKind::GetAllItems);
    lemma_reply_to_rows(
        run, requests, decode, answers, at.0, key, store_id, key_range, one, rows.0,
    );
    lemma_reply_to_rows(
        run, requests, decode, answers, at.1, keys, store_id, key_range, one, rows.1,
    );
    lemma_reply_to_rows(
        run, requests, decode, answers, at.2, item, store_id, key_range, one, rows.2,
    );
    lemma_reply_to_rows(
        run, requests, decode, answers, at.3, items, store_id, key_range, one, rows.3,
    );
    law_single_reads_agree_with_lists(
        decode,
        rows.0,
        rows.1,
        rows.2,
        rows.3,
        run.deliveries()[at.0].reply,
        run.deliveries()[at.1].reply,
        run.deliveries()[at.2].reply,
        run.deliveries()[at.3].reply,
    );
}

/// In a batch that was committed, an iteration, a request for all keys and a request for
/// all values in the same range of the same object store, with no write between them, are
/// answered alike, position by position; a key that cannot be read fails the first two as a
/// whole and leaves the values alone.
pub proof fn law_batch_list_reads_agree<C, K: Clone, G, P, F: Fn(&Vec<u8>) -> Option<K>>(
    run: BatchRun<C, K, G, P>,
    requests: Seq<KvsOperation<C, K, G>>,
    decode: F,
    answers: BatchAnswers<P>,
    store_id: i64,
    key_range: G,
    at: (int, int, int),
    rows: (Vec<ObjectDataModel>, Vec<ObjectDataModel>, Vec<ObjectDataModel>),
)
    requires
        committed(run, requests, decode, answers),
        answers_reads_alike(requests, answers),
        reads_alike::<K, F>(decode),
        clones_alike::<K>(),
        found_rows(
            requests,
            answers,
            at.0,
            ReplyKind::Iterate,
            store_id,
            key_range,
            None,
            rows.0,
        ),
        found_rows(
            requests,
            answers,
            at.1,
            ReplyKind::GetAllKeys,
            store_id,
            key_range,
            None,
            rows.1,
        ),
        found_rows(
            requests,
            answers,
            at.2,
            ReplyKind::GetAllItems,
            store_id,
            key_range,
            None,
            rows.2,
        ),
        no_write_between(requests, at.0, at.1),
        no_write_between(requests, at.0, at.2),
    ensures
        list_reads_agree(
            rows.0@,
            decode,
            run.deliveries()[at.0].reply.outcome,
            run.deliveries()[at.1].reply.outcome,
            run.deliveries()[at.2].reply.outcome,
        ),
{
    let all = None::<u32>;
    let (records, keys) = (ReplyKind::Iterate, ReplyKind::GetAllKeys);
    let items = ReplyKind::GetAllItems;
    lemma_reply_to_rows(
        run, requests, decode, answers, at.0, records, store_id, key_range, all, rows.0,
    );
    lemma_reply_to_rows(
        run, requests, decode, answers, at.1, keys, store_id, key_range, all, rows.1,
    );
    lemma_reply_to_rows(
        run, requests, decode, answers, at.2, items, store_id, key_range, all, rows.2,
    );
    law_list_reads_agree(
        decode,
        rows.0,
        rows.1,
        rows.2,
        run.deliveries()[at.0].reply,
        run.deliveries()[at.1].reply,
        run.deliveries()[at.2].reply,
    );
}

} // verus!
