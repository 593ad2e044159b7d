//! What the engine's methods hand on, whatever they are called with.

use std::collections::VecDeque;

use vstd::prelude::*;

use crate::batch::{BatchStep, TransactionBatch};
use crate::engine::{LookupCall, OhosRdbEngine, StoreCall};
use crate::error::{OhosRdbError, OhosRdbResult};
use crate::lookup::{Lookup, LookupStep};
use crate::model::{IndexedDBTxnMode, KeyPath, KvsOperation, KvsTransaction};
use crate::session::{SessionStep, StoreSession};
use crate::text_laws::reports_missing;

verus! {

/// The session has yet to lock the store, asks for just that, and is to make this call.
pub open spec fn will_call<R>(step: SessionStep<StoreCall, R>, call: StoreCall) -> bool {
    &&& step.0 matches StoreSession::Locking { body } && body == call
    &&& step.1 is Lock
}

/// The lookup has yet to lock the store, asks for just that, and is to make this call.
pub open spec fn will_look_up<T>(step: LookupStep<LookupCall, T>, call: LookupCall) -> bool {
    &&& step.0 matches Lookup::Locking { body } && body == call
    &&& step.1 is Lock
}

/// Transactions that only read run on the pool for reading; all others run on the pool for
/// writing. Whatever its mode, a transaction starts with all its requests, in order.
pub proof fn law_transactions_run_on_the_pool_of_their_mode<S, P, C, K: Clone, G, R>(
    engine: &OhosRdbEngine<S, P>,
    transaction: KvsTransaction<C, K, G>,
    started: (&P, BatchStep<C, K, G, R>),
)
    requires
        call_ensures(
            OhosRdbEngine::<S, P>::process_transaction::<C, K, G, R>,
            (engine, transaction),
            started,
        ),
    ensures
        transaction.mode == IndexedDBTxnMode::Readonly ==> *started.0 == engine.read_pool,
        transaction.mode == IndexedDBTxnMode::Readwrite ==> *started.0 == engine.write_pool,
        transaction.mode == IndexedDBTxnMode::Versionchange ==> *started.0 == engine.write_pool,
        started.1.0 matches TransactionBatch::Creating { requests } && requests@
            == transaction.requests@,
        started.1.1 is CreateTransaction,
{
}

/// A batch starts with all its requests, in order, and asks for its transaction first.
pub proof fn law_batch_starts_with_all_requests<C, K: Clone, G, P>(
    requests: VecDeque<KvsOperation<C, K, G>>,
    step: BatchStep<C, K, G, P>,
)
    requires
        call_ensures(TransactionBatch::<C, K, G, P>::start, (requests,), step),
    ensures
        step.0 matches TransactionBatch::Creating { requests: held } && held@ == requests@,
        step.1 is CreateTransaction,
{
}

/// A new engine holds the store and the pool that it was made with, and says of its
/// directory what it was told.
pub proof fn law_new_engine_holds_what_it_was_given<S, P: Clone>(
    store: S,
    created: bool,
    pool: P,
    engine: OhosRdbEngine<S, P>,
    told: bool,
)
    requires
        call_ensures(OhosRdbEngine::<S, P>::new, (store, created, pool), engine),
        call_ensures(OhosRdbEngine::<S, P>::created_db_path, (&engine,), told),
    ensures
        engine.store == store,
        engine.write_pool == pool,
        cloned(pool, engine.read_pool),
        told == created,
{
}

/// Creating a store hands on its name, its key path and whether it generates keys.
pub proof fn law_create_store_hands_on<S, P, R>(
    engine: &OhosRdbEngine<S, P>,
    store_name: String,
    key_path: Option<KeyPath>,
    auto_increment: bool,
    step: SessionStep<StoreCall, R>,
)
    requires
        call_ensures(
            OhosRdbEngine::<S, P>::create_store::<R>,
            (engine, store_name, key_path, auto_increment),
            step,
        ),
    ensures
        will_call(step, StoreCall::CreateStore { store_name, key_path, auto_increment }),
{
}

/// Deleting a store hands on its name.
pub proof fn law_delete_store_hands_on<S, P>(
    engine: &OhosRdbEngine<S, P>,
    store_name: String,
    step: SessionStep<StoreCall, ()>,
)
    requires
        call_ensures(OhosRdbEngine::<S, P>::delete_store, (engine, store_name), step),
    ensures
        will_call(step, StoreCall::DeleteStore { store_name }),
{
}

/// Setting a key generator hands on the store's name and the number.
pub proof fn law_set_key_generator_hands_on<S, P>(
    engine: &OhosRdbEngine<S, P>,
    store_name: String,
    current_number: i64,
    step: SessionStep<StoreCall, ()>,
)
    requires
        call_ensures(
            OhosRdbEngine::<S, P>::set_key_generator_current_number,
            (engine, store_name, current_number),
            step,
        ),
    ensures
        will_call(step, StoreCall::SetKeyGeneratorCurrentNumber { store_name, current_number }),
{
}

/// Listing the stores, and listing the indexes of one, make just these calls.
pub proof fn law_listings_hand_on<S, P, I>(
    engine: &OhosRdbEngine<S, P>,
    store_name: String,
    names: SessionStep<StoreCall, Vec<String>>,
    indexes: SessionStep<StoreCall, Vec<I>>,
)
    requires
        call_ensures(OhosRdbEngine::<S, P>::object_store_names, (engine,), names),
        call_ensures(OhosRdbEngine::<S, P>::indexes::<I>, (engine, store_name), indexes),
    ensures
        will_call(names, StoreCall::ObjectStoreNames),
        will_call(indexes, StoreCall::Indexes { store_name }),
{
}

/// Creating an index hands on both names, the key path, and the two flags as they are.
pub proof fn law_create_index_hands_on<S, P, R>(
    engine: &OhosRdbEngine<S, P>,
    store_name: String,
    index_name: String,
    key_path: KeyPath,
    unique: bool,
    multi_entry: bool,
    step: SessionStep<StoreCall, R>,
)
    requires
        call_ensures(
            OhosRdbEngine::<S, P>::create_index::<R>,
            (engine, store_name, index_name, key_path, unique, multi_entry),
            step,
        ),
    ensures
        will_call(
            step,
            StoreCall::CreateIndex { store_name, index_name, key_path, unique, multi_entry },
        ),
{
}

/// Deleting an index hands on both names.
pub proof fn law_delete_index_hands_on<S, P>(
    engine: &OhosRdbEngine<S, P>,
    store_name: String,
    index_name: String,
    step: SessionStep<StoreCall, ()>,
)
    requires
        call_ensures(OhosRdbEngine::<S, P>::delete_index, (engine, store_name, index_name), step),
    ensures
        will_call(step, StoreCall::DeleteIndex { store_name, index_name }),
{
}

/// Reading the version and setting it make just these calls, with the number given.
pub proof fn law_versions_hand_on<S, P>(
    engine: &OhosRdbEngine<S, P>,
    version: u64,
    reading: SessionStep<StoreCall, u64>,
    setting: SessionStep<StoreCall, ()>,
)
    requires
        call_ensures(OhosRdbEngine::<S, P>::version, (engine,), reading),
        call_ensures(OhosRdbEngine::<S, P>::set_version, (engine, version), setting),
    ensures
        will_call(reading, StoreCall::Version),
        will_call(setting, StoreCall::SetVersion { version }),
{
}

/// The two lookups hand on the store's name.
pub proof fn law_lookups_hand_on<S, P>(
    engine: &OhosRdbEngine<S, P>,
    store_name: String,
    number: LookupStep<LookupCall, i64>,
    path: LookupStep<LookupCall, KeyPath>,
)
    requires
        call_ensures(
            OhosRdbEngine::<S, P>::key_generator_current_number,
            (engine, store_name),
            number,
        ),
        call_ensures(OhosRdbEngine::<S, P>::key_path, (engine, store_name), path),
    ensures
        will_look_up(number, LookupCall::KeyGeneratorCurrentNumber { store_name }),
        will_look_up(path, LookupCall::KeyPath { store_name }),
{
}

/// Closing a store always succeeds.
pub proof fn law_close_store_succeeds<S, P>(
    engine: &OhosRdbEngine<S, P>,
    store_name: &str,
    result: OhosRdbResult<()>,
)
    requires
        call_ensures(OhosRdbEngine::<S, P>::close_store, (engine, store_name), result),
    ensures
        result is Ok,
{
}

/// A call that finds no row reports what it was looking for: the version where it reads or
/// sets the version, the object store where it works on one; only where a store is created,
/// or the stores are listed, is it what the call itself speaks of.
pub proof fn law_missing_rows_are_named_after_the_call(
    call: StoreCall,
    context: &'static str,
    error: OhosRdbError,
)
    requires
        call_ensures(StoreCall::row_error, (&call, context), error),
    ensures
        match call {
            StoreCall::CreateStore { .. } => reports_missing(error, context),
            StoreCall::ObjectStoreNames => reports_missing(error, context),
            StoreCall::Version => reports_missing(error, "database version lookup"),
            StoreCall::SetVersion { .. } => reports_missing(error, "database version update"),
            StoreCall::DeleteStore { .. } => reports_missing(error, "object store lookup"),
            StoreCall::SetKeyGeneratorCurrentNumber { .. } => reports_missing(
                error,
                "object store lookup",
            ),
            StoreCall::Indexes { .. } => reports_missing(error, "object store lookup"),
            StoreCall::CreateIndex { .. } => reports_missing(error, "object store lookup"),
            StoreCall::DeleteIndex { .. } => reports_missing(error, "object store lookup"),
        },
{
}

} // verus!
