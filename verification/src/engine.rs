//! The engine: what its methods do to the database, and on which pool of threads a
//! transaction is run.

use vstd::prelude::*;

use crate::batch::{BatchActionView, BatchStep, BatchView, TransactionBatch};
use crate::error::{missing_row, missing_row_error, OhosRdbError, OhosRdbResult};
use crate::lookup::{Lookup, LookupAction, LookupStep};
use crate::model::{IndexedDBTxnMode, KeyPath, KvsTransaction};
use crate::session::{SessionAction, SessionStep, StoreSession};

verus! {

/// What is reported when an object store has no row.
pub const STORE_LOOKUP_CONTEXT: &'static str = "object store lookup";

/// What is reported when the database has no row for its version.
pub const VERSION_LOOKUP_CONTEXT: &'static str = "database version lookup";

/// What is reported when the database's version cannot be set.
pub const VERSION_UPDATE_CONTEXT: &'static str = "database version update";

/// A call that is made in a transaction of its own, and rolled back if it fails.
#[allow(inconsistent_fields)]
#[derive(Debug, PartialEq, Eq)]
pub enum StoreCall {
    CreateStore { store_name: String, key_path: Option<KeyPath>, auto_increment: bool },
    DeleteStore { store_name: String },
    SetKeyGeneratorCurrentNumber { store_name: String, current_number: i64 },
    ObjectStoreNames,
    Indexes { store_name: String },
    CreateIndex {
        store_name: String,
        index_name: String,
        key_path: KeyPath,
        unique: bool,
        multi_entry: bool,
    },
    DeleteIndex { store_name: String, index_name: String },
    Version,
    SetVersion { version: u64 },
}

impl StoreCall {
    /// What is reported as missing when the call finds no row, where the call itself
    /// speaks of `context`.
    pub open spec fn missing_context(self, context: &'static str) -> &'static str {
        match self {
            StoreCall::CreateStore { .. } => context,
            StoreCall::ObjectStoreNames => context,
            StoreCall::Version => VERSION_LOOKUP_CONTEXT,
            StoreCall::SetVersion { .. } => VERSION_UPDATE_CONTEXT,
            _ => STORE_LOOKUP_CONTEXT,
        }
    }

    /// The error of a call that finds no row, where the call itself speaks of
    /// `context`: creating a store reports what the call says, the others report what
    /// they were looking for.
    pub fn row_error(&self, context: &'static str) -> (error: OhosRdbError)
        ensures
            error == missing_row_error(self.missing_context(context)),
    {
        match self {
            StoreCall::CreateStore { .. } => missing_row(context),
            StoreCall::ObjectStoreNames => missing_row(context),
            StoreCall::Version => missing_row(VERSION_LOOKUP_CONTEXT),
            StoreCall::SetVersion { .. } => missing_row(VERSION_UPDATE_CONTEXT),
            _ => missing_row(STORE_LOOKUP_CONTEXT),
        }
    }
}

/// A call that only looks something up.
#[derive(Debug, PartialEq, Eq)]
pub enum LookupCall {
    KeyGeneratorCurrentNumber { store_name: String },
    KeyPath { store_name: String },
}

/// An engine on a store `S`, with pools of threads `P`.
#[derive(Debug, PartialEq, Eq)]
pub struct OhosRdbEngine<S, P> {
    pub store: S,
    pub read_pool: P,
    pub write_pool: P,
    pub created_db_path: bool,
}

impl<S, P> OhosRdbEngine<S, P> {
    /// An engine on an open store. Reading and writing transactions share the pool;
    /// `created` says whether the database's directory was made for it.
    pub fn new(store: S, created: bool, pool: P) -> (engine: Self) where P: Clone
        ensures
            engine.store == store,
            cloned(pool, engine.read_pool),
            engine.write_pool == pool,
            engine.created_db_path == created,
    {
        OhosRdbEngine { store, read_pool: pool.clone(), write_pool: pool, created_db_path: created }
    }

    /// Whether the database's directory was made for this engine.
    pub fn created_db_path(&self) -> (created: bool)
        ensures
            created == self.created_db_path,
    {
        self.created_db_path
    }

    /// The pool that transactions of the given mode run on.
    pub open spec fn pool_for(self, mode: IndexedDBTxnMode) -> P {
        if mode == IndexedDBTxnMode::Readonly {
            self.read_pool
        } else {
            self.write_pool
        }
    }

    /// Starts a transaction: the pool that it is to run on, and the batch of its
    /// requests with what it asks for first.
    pub fn process_transaction<C, K: Clone, G, R>(&self, transaction: KvsTransaction<C, K, G>) -> (
        started: (&P, BatchStep<C, K, G, R>))
        ensures
            *started.0 == self.pool_for(transaction.mode),
            started.1.0@ == (BatchView::<C, K, G, R>::Creating {
                requests: transaction.requests@,
            }),
            started.1.1@ == BatchActionView::<C, K, G, R>::CreateTransaction,
    {
        let pool = match transaction.mode {
            IndexedDBTxnMode::Readonly => &self.read_pool,
            _ => &self.write_pool,
        };
        (pool, TransactionBatch::start(transaction.requests))
    }

    /// Creates an object store.
    pub fn create_store<R>(
        &self,
        store_name: String,
        key_path: Option<KeyPath>,
        auto_increment: bool,
    ) -> (step: SessionStep<StoreCall, R>)
        ensures
            step.0 == (StoreSession::<StoreCall, R>::Locking {
                body: StoreCall::CreateStore { store_name, key_path, auto_increment },
            }),
            step.1 == SessionAction::<StoreCall, R>::Lock,
    {
        StoreSession::with_store(StoreCall::CreateStore { store_name, key_path, auto_increment })
    }

    /// Deletes an object store.
    pub fn delete_store(&self, store_name: String) -> (step: SessionStep<StoreCall, ()>)
        ensures
            step.0 == (StoreSession::<StoreCall, ()>::Locking {
                body: StoreCall::DeleteStore { store_name },
            }),
            step.1 == SessionAction::<StoreCall, ()>::Lock,
    {
        StoreSession::with_store(StoreCall::DeleteStore { store_name })
    }

    /// Looks up the current number of an object store's key generator.
    pub fn key_generator_current_number(&self, store_name: String) -> (step: LookupStep<
        LookupCall,
        i64,
    >)
        ensures
            step.0 == (Lookup::<LookupCall, i64>::Locking {
                body: LookupCall::KeyGeneratorCurrentNumber { store_name },
            }),
            step.1 == LookupAction::<LookupCall, i64>::Lock,
    {
        Lookup::start(LookupCall::KeyGeneratorCurrentNumber { store_name })
    }

    /// Sets the current number of an object store's key generator.
    pub fn set_key_generator_current_number(&self, store_name: String, current_number: i64) -> (step:
        SessionStep<StoreCall, ()>)
        ensures
            step.0 == (StoreSession::<StoreCall, ()>::Locking {
                body: StoreCall::SetKeyGeneratorCurrentNumber { store_name, current_number },
            }),
            step.1 == SessionAction::<StoreCall, ()>::Lock,
    {
        StoreSession::with_store(
            StoreCall::SetKeyGeneratorCurrentNumber { store_name, current_number },
        )
    }

    /// Looks up the key path of an object store.
    pub fn key_path(&self, store_name: String) -> (step: LookupStep<LookupCall, KeyPath>)
        ensures
            step.0 == (Lookup::<LookupCall, KeyPath>::Locking {
                body: LookupCall::KeyPath { store_name },
            }),
            step.1 == LookupAction::<LookupCall, KeyPath>::Lock,
    {
        Lookup::start(LookupCall::KeyPath { store_name })
    }

    /// Closes an object store: nothing is held open for one.
    pub fn close_store(&self, store_name: &str) -> (result: OhosRdbResult<()>)
        ensures
            result == Ok::<(), OhosRdbError>(()),
    {
        Ok(())
    }

    /// Lists the names of the object stores.
    pub fn object_store_names(&self) -> (step: SessionStep<StoreCall, Vec<String>>)
        ensures
            step.0 == (StoreSession::<StoreCall, Vec<String>>::Locking {
                body: StoreCall::ObjectStoreNames,
            }),
            step.1 == SessionAction::<StoreCall, Vec<String>>::Lock,
    {
        StoreSession::with_store(StoreCall::ObjectStoreNames)
    }

    /// Lists the indexes of an object store.
    pub fn indexes<I>(&self, store_name: String) -> (step: SessionStep<StoreCall, Vec<I>>)
        ensures
            step.0 == (StoreSession::<StoreCall, Vec<I>>::Locking {
                body: StoreCall::Indexes { store_name },
            }),
            step.1 == SessionAction::<StoreCall, Vec<I>>::Lock,
    {
        StoreSession::with_store(StoreCall::Indexes { store_name })
    }

    /// Creates an index of an object store.
    pub fn create_index<R>(
        &self,
        store_name: String,
        index_name: String,
        key_path: KeyPath,
        unique: bool,
        multi_entry: bool,
    ) -> (step: SessionStep<StoreCall, R>)
        ensures
            step.0 == (StoreSession::<StoreCall, R>::Locking {
                body: StoreCall::CreateIndex {
                    store_name,
                    index_name,
                    key_path,
                    unique,
                    multi_entry,
                },
            }),
            step.1 == SessionAction::<StoreCall, R>::Lock,
    {
        StoreSession::with_store(
            StoreCall::CreateIndex { store_name, index_name, key_path, unique, multi_entry },
        )
    }

    /// Deletes an index of an object store.
    pub fn delete_index(&self, store_name: String, index_name: String) -> (step: SessionStep<
        StoreCall,
        (),
    >)
        ensures
            step.0 == (StoreSession::<StoreCall, ()>::Locking {
                body: StoreCall::DeleteIndex { store_name, index_name },
            }),
            step.1 == SessionAction::<StoreCall, ()>::Lock,
    {
        StoreSession::with_store(StoreCall::DeleteIndex { store_name, index_name })
    }

    /// Looks up the database's version.
    pub fn version(&self) -> (step: SessionStep<StoreCall, u64>)
        ensures
            step.0 == (StoreSession::<StoreCall, u64>::Locking { body: StoreCall::Version }),
            step.1 == SessionAction::<StoreCall, u64>::Lock,
    {
        StoreSession::with_store(StoreCall::Version)
    }

    /// Sets the database's version.
    pub fn set_version(&self, version: u64) -> (step: SessionStep<StoreCall, ()>)
        ensures
            step.0 == (StoreSession::<StoreCall, ()>::Locking {
                body: StoreCall::SetVersion { version },
            }),
            step.1 == SessionAction::<StoreCall, ()>::Lock,
    {
        StoreSession::with_store(StoreCall::SetVersion { version })
    }
}

} // verus!
