//! Persistent state of the remote side: the registry of accounts and the slot
//! that holds the sender of the request in flight.

use vstd::prelude::*;
use vstd::utf8::encode_utf8;
use cosmwasm_std::MemoryStorage;
use crate::error::{ContractError, StdError};
use crate::msg::{AccountInfo, AccountInfoView};
use crate::order::AccountKey;
use crate::page::{cursor_key, is_page, lemma_records_of_registry, select_page};

verus! {

/// Id of the reply to a dispatched message.
pub const RECEIVE_DISPATCH_ID: u64 = 1234;

/// Id of the reply to an instantiation.
pub const INIT_CALLBACK_ID: u64 = 7890;

/// Id of the reply to a migration.
pub const MIGRATE_CALLBACK_ID: u64 = 7899;

/// Length of a page of accounts where the caller names none.
pub const DEFAULT_LIMIT: u64 = 50;

/// Longest page of accounts.
pub const MAX_LIMIT: u64 = 300;

/// Namespace of the registry in storage.
pub const ACCOUNTS_NAMESPACE: &'static str = "accounts";

/// Key of the pending slot in storage.
pub const PENDING_KEY: &'static str = "pending";

/// Longest connection id or port id that the registry can frame in a key, in bytes.
pub const MAX_KEY_PART: usize = 0xFFFF;

/// Who sent the request that is in flight, and under which job.
#[derive(Clone, Debug, PartialEq, Eq)]
pub struct SenderInfo {
    /// The sender's light client on this chain.
    pub connection_id: String,
    /// The sender's module or contract.
    pub port_id: String,
    /// The sender's account on its own chain.
    pub controller: String,
    /// The job that the sending chain knows the request by.
    pub job_id: Option<String>,
}

/// A `SenderInfo` over sequences of characters.
pub struct SenderInfoView {
    pub connection_id: Seq<char>,
    pub port_id: Seq<char>,
    pub controller: Seq<char>,
    pub job_id: Option<Seq<char>>,
}

impl SenderInfoView {
    /// The registry key of the sender.
    pub open spec fn key(self) -> AccountKey {
        (self.connection_id, self.port_id, self.controller)
    }
}

impl DeepView for SenderInfo {
    type V = SenderInfoView;

    open spec fn deep_view(&self) -> SenderInfoView {
        SenderInfoView {
            connection_id: self.connection_id@,
            port_id: self.port_id@,
            controller: self.controller@,
            job_id: self.job_id.deep_view(),
        }
    }
}

/// Whether a connection id or port id is short enough to stand in a key.
pub open spec fn key_part_fits(part: Seq<char>) -> bool {
    encode_utf8(part).len() <= MAX_KEY_PART
}

/// The registry without accounts.
pub open spec fn empty_registry() -> Map<AccountKey, Seq<char>> {
    Map::empty()
}

/// Whether `records` holds every account of `registry` once, and nothing else.
pub open spec fn holds_each_once(
    records: Seq<AccountInfoView>,
    registry: Map<AccountKey, Seq<char>>,
) -> bool {
    &&& forall|i: int|
        0 <= i < records.len() ==> registry.contains_key(#[trigger] records[i].key())
            && registry[records[i].key()] == records[i].account
    &&& forall|key: AccountKey| #[trigger]
        registry.contains_key(key) ==> exists|i: int|
            0 <= i < records.len() && #[trigger] records[i].key() == key
    &&& forall|i: int, j: int|
        0 <= i < j < records.len() ==> #[trigger] records[i].key() != #[trigger] records[j].key()
}

/// `cosmwasm_std::MemoryStorage`: a store of bytes under keys of bytes. The
/// registry and the pending slot live in one, behind the typed keys of
/// `cw_storage_plus`.
#[verifier::external_type_specification]
#[verifier::external_body]
pub struct ExMemoryStorage(cosmwasm_std::MemoryStorage);

/// The accounts that a storage holds in the registry's namespace, by key.
pub uninterp spec fn stored_accounts(storage: MemoryStorage) -> Map<AccountKey, Seq<char>>;

/// The sender that a storage holds in the pending slot, if any.
pub uninterp spec fn stored_pending(storage: MemoryStorage) -> Option<SenderInfoView>;

/// Whether a storage holds, in the registry's namespace and in the pending
/// slot, only what was saved there as an account or as a sender: then
/// whatever is there reads back as it was saved.
pub uninterp spec fn intact(storage: MemoryStorage) -> bool;

/// `MemoryStorage::new`: a storage that holds nothing.
#[verifier::external_body]
fn storage_new() -> (storage: MemoryStorage)
    ensures
        intact(storage),
        stored_accounts(storage) == empty_registry(),
        stored_pending(storage) is None,
{
    MemoryStorage::new()
}

/// `cw_storage_plus::Map::load` on the registry: the account under a key, or
/// the error that nothing is found there. Where the storage is intact, what is
/// there reads back, so no other error comes.
#[verifier::external_body]
fn accounts_load(storage: &MemoryStorage, connection: &str, port: &str, controller: &str) -> (loaded:
    Result<String, StdError>)
    requires
        intact(*storage),
        key_part_fits(connection@),
        key_part_fits(port@),
    ensures
        stored_accounts(*storage).contains_key((connection@, port@, controller@)) ==> loaded is Ok
            && loaded->Ok_0@ == stored_accounts(*storage)[(connection@, port@, controller@)],
        !stored_accounts(*storage).contains_key((connection@, port@, controller@)) ==> loaded is Err
            && loaded->Err_0 is NotFound,
{
    match cw_storage_plus::Map::<(&str, &str, &str), cosmwasm_std::Addr>::new(ACCOUNTS_NAMESPACE)
        .load(storage, (connection, port, controller))
    {
        Ok(account) => Ok(account.into_string()),
        Err(cosmwasm_std::StdError::NotFound { kind, .. }) => Err(StdError::NotFound { kind }),
        Err(e) => Err(StdError::Other { message: e.to_string() }),
    }
}

/// `cw_storage_plus::Map::may_load` on the registry: the account under a key,
/// if there is one. Where the storage is intact, what is there reads back, so
/// no error comes.
#[verifier::external_body]
fn accounts_may_load(storage: &MemoryStorage, connection: &str, port: &str, controller: &str) -> (loaded:
    Result<Option<String>, StdError>)
    requires
        intact(*storage),
        key_part_fits(connection@),
        key_part_fits(port@),
    ensures
        loaded is Ok,
        stored_accounts(*storage).contains_key((connection@, port@, controller@)) ==> loaded->Ok_0 is Some
            && loaded->Ok_0->Some_0@ == stored_accounts(*storage)[(connection@, port@, controller@)],
        !stored_accounts(*storage).contains_key((connection@, port@, controller@)) ==> loaded->Ok_0 is None,
{
    match cw_storage_plus::Map::<(&str, &str, &str), cosmwasm_std::Addr>::new(ACCOUNTS_NAMESPACE)
        .may_load(storage, (connection, port, controller))
    {
        Ok(account) => Ok(account.map(cosmwasm_std::Addr::into_string)),
        Err(cosmwasm_std::StdError::NotFound { kind, .. }) => Err(StdError::NotFound { kind }),
        Err(e) => Err(StdError::Other { message: e.to_string() }),
    }
}

/// `cw_storage_plus::Map::save` on the registry: puts the account under the
/// key, in place of what was there, and leaves the rest as it was. The only
/// error that `save` passes on is one of writing the value as JSON, and the
/// JSON writer has none for a text; nor does the storage stop, since the
/// key parts fit and the JSON of a text is never empty.
#[verifier::external_body]
fn accounts_save(
    storage: &mut MemoryStorage,
    connection: &str,
    port: &str,
    controller: &str,
    account: &str,
) -> (saved: Result<(), StdError>)
    requires
        intact(*old(storage)),
        key_part_fits(connection@),
        key_part_fits(port@),
    ensures
        saved is Ok,
        intact(*final(storage)),
        stored_accounts(*final(storage)) == stored_accounts(*old(storage)).insert(
            (connection@, port@, controller@),
            account@,
        ),
        stored_pending(*final(storage)) == stored_pending(*old(storage)),
    no_unwind
{
    match cw_storage_plus::Map::<(&str, &str, &str), cosmwasm_std::Addr>::new(ACCOUNTS_NAMESPACE)
        .save(storage, (connection, port, controller), &cosmwasm_std::Addr::unchecked(account))
    {
        Ok(()) => Ok(()),
        Err(cosmwasm_std::StdError::NotFound { kind, .. }) => Err(StdError::NotFound { kind }),
        Err(e) => Err(StdError::Other { message: e.to_string() }),
    }
}

/// `cw_storage_plus::Map::range` over the whole registry: every account once,
/// with its key. Where the storage is intact, every entry reads back, so no
/// error comes.
#[verifier::external_body]
fn accounts_range(storage: &MemoryStorage) -> (listed: Result<Vec<AccountInfo>, StdError>)
    requires
        intact(*storage),
    ensures
        listed is Ok,
        holds_each_once(listed->Ok_0.deep_view(), stored_accounts(*storage)),
{
    match cw_storage_plus::Map::<(&str, &str, &str), cosmwasm_std::Addr>::new(ACCOUNTS_NAMESPACE)
        .range(storage, None, None, cosmwasm_std::Order::Ascending)
        .map(|item| item.map(|((connection, port, controller), account)| AccountInfo { account: account.into_string(), connection, port, controller }))
        .collect::<Result<Vec<AccountInfo>, cosmwasm_std::StdError>>()
    {
        Ok(records) => Ok(records),
        Err(cosmwasm_std::StdError::NotFound { kind, .. }) => Err(StdError::NotFound { kind }),
        Err(e) => Err(StdError::Other { message: e.to_string() }),
    }
}

/// `cw_storage_plus::Item::save` on the pending slot: puts the sender there,
/// in place of what was there, and leaves the registry as it was. The sender
/// is written as the JSON list of its four parts. The only error that `save`
/// passes on is one of writing the value as JSON, and the JSON writer has
/// none for texts; nor does the storage stop, since such a list is never
/// empty.
#[verifier::external_body]
fn pending_save(storage: &mut MemoryStorage, info: &SenderInfo) -> (saved: Result<(), StdError>)
    requires
        intact(*old(storage)),
    ensures
        saved is Ok,
        intact(*final(storage)),
        stored_pending(*final(storage)) == Some(info.deep_view()),
        stored_accounts(*final(storage)) == stored_accounts(*old(storage)),
    no_unwind
{
    match cw_storage_plus::Item::<(String, String, String, Option<String>)>::new(PENDING_KEY).save(
        storage,
        &(info.connection_id.clone(), info.port_id.clone(), info.controller.clone(), info.job_id.clone()),
    ) {
        Ok(()) => Ok(()),
        Err(cosmwasm_std::StdError::NotFound { kind, .. }) => Err(StdError::NotFound { kind }),
        Err(e) => Err(StdError::Other { message: e.to_string() }),
    }
}

/// `cw_storage_plus::Item::load` on the pending slot: the sender that is
/// there, or the error that nothing is found. Where the storage is intact,
/// what is there reads back, so no other error comes.
#[verifier::external_body]
fn pending_load(storage: &MemoryStorage) -> (loaded: Result<SenderInfo, StdError>)
    requires
        intact(*storage),
    ensures
        stored_pending(*storage) is Some ==> loaded is Ok && Some(loaded->Ok_0.deep_view())
            == stored_pending(*storage),
        stored_pending(*storage) is None ==> loaded is Err && loaded->Err_0 is NotFound,
{
    match cw_storage_plus::Item::<(String, String, String, Option<String>)>::new(PENDING_KEY).load(
        storage,
    ) {
        Ok((connection_id, port_id, controller, job_id)) => Ok(
            SenderInfo { connection_id, port_id, controller, job_id },
        ),
        Err(cosmwasm_std::StdError::NotFound { kind, .. }) => Err(StdError::NotFound { kind }),
        Err(e) => Err(StdError::Other { message: e.to_string() }),
    }
}

/// `cw_storage_plus::Item::remove` on the pending slot: empties it, whether
/// it held a sender or not, and leaves the registry as it was.
#[verifier::external_body]
fn pending_remove(storage: &mut MemoryStorage)
    requires
        intact(*old(storage)),
    ensures
        intact(*final(storage)),
        stored_pending(*final(storage)) is None,
        stored_accounts(*final(storage)) == stored_accounts(*old(storage)),
    no_unwind
{
    cw_storage_plus::Item::<(String, String, String, Option<String>)>::new(PENDING_KEY).remove(
        storage,
    )
}

/// The state of the remote side: the registry of accounts and the pending
/// slot. What it holds reads back as it was saved, and a pending sender has
/// a connection and a port that fit in a key.
pub struct Store {
    storage: MemoryStorage,
}

impl Store {
    #[verifier::type_invariant]
    spec fn inv(&self) -> bool {
        &&& intact(self.storage)
        &&& stored_pending(self.storage) matches Some(info) ==> key_part_fits(info.connection_id)
            && key_part_fits(info.port_id)
    }

    /// The registry: the account of each registered sender, by key.
    pub closed spec fn accounts(&self) -> Map<AccountKey, Seq<char>> {
        stored_accounts(self.storage)
    }

    /// The sender of the request in flight, if any.
    pub closed spec fn pending(&self) -> Option<SenderInfoView> {
        stored_pending(self.storage)
    }

    /// A state without accounts and with nothing in flight.
    pub fn new() -> (store: Store)
        ensures
            store.accounts() == empty_registry(),
            store.pending() is None,
    {
        Store { storage: storage_new() }
    }

    /// The account registered under a key, or the error that none is found.
    pub fn load(&self, connection: &str, port: &str, controller: &str) -> (loaded: Result<
        String,
        StdError,
    >)
        requires
            key_part_fits(connection@),
            key_part_fits(port@),
        ensures
            self.accounts().contains_key((connection@, port@, controller@)) ==> (loaded matches Ok(
                account,
            ) && account@ == self.accounts()[(connection@, port@, controller@)]),
            !self.accounts().contains_key((connection@, port@, controller@)) ==> (loaded matches Err(
                e,
            ) && e is NotFound),
    {
        proof {
            use_type_invariant(self);
        }
        accounts_load(&self.storage, connection, port, controller)
    }

    /// The account registered under a key, if there is one.
    pub fn get(&self, connection: &str, port: &str, controller: &str) -> (found: Option<String>)
        requires
            key_part_fits(connection@),
            key_part_fits(port@),
        ensures
            self.accounts().contains_key((connection@, port@, controller@)) ==> (found matches Some(
                account,
            ) && account@ == self.accounts()[(connection@, port@, controller@)]),
            !self.accounts().contains_key((connection@, port@, controller@)) ==> found is None,
    {
        proof {
            use_type_invariant(self);
        }
        match accounts_may_load(&self.storage, connection, port, controller) {
            Ok(found) => found,
            Err(_) => None,
        }
    }

    /// Every account of the registry once, with its key, in no stated order.
    fn records(&self) -> (records: Vec<AccountInfo>)
        ensures
            holds_each_once(records.deep_view(), self.accounts()),
    {
        proof {
            use_type_invariant(self);
        }
        match accounts_range(&self.storage) {
            Ok(records) => records,
            Err(_) => Vec::new(),
        }
    }

    /// The page of at most `limit` accounts that starts behind the key
    /// `start_after`, or at the first account where no key is given.
    pub fn list(&self, start_after: &Option<(String, String, String)>, limit: usize) -> (page: Vec<
        AccountInfo,
    >)
        ensures
            is_page(self.accounts(), cursor_key(*start_after), limit as nat, page.deep_view()),
    {
        let records = self.records();
        proof {
            lemma_records_of_registry(records.deep_view(), self.accounts());
        }
        select_page(records, start_after, limit)
    }

    /// Registers an account under a key that has none. A key that has one
    /// keeps it, and the call fails.
    pub fn insert_if_absent(&mut self, connection: &str, port: &str, controller: &str, account: &str) -> (inserted:
        Result<(), ContractError>)
        requires
            key_part_fits(connection@),
            key_part_fits(port@),
        ensures
            final(self).pending() == old(self).pending(),
            old(self).accounts().contains_key((connection@, port@, controller@)) ==> inserted == Err::<
                (),
                ContractError,
            >(ContractError::ChannelAlreadyRegistered) && final(self).accounts() == old(
                self,
            ).accounts(),
            !old(self).accounts().contains_key((connection@, port@, controller@)) ==> inserted is Ok
                && final(self).accounts() == old(self).accounts().insert(
                (connection@, port@, controller@),
                account@,
            ),
    {
        proof {
            use_type_invariant(&*self);
        }
        match accounts_may_load(&self.storage, connection, port, controller) {
            Ok(Some(_)) => Err(ContractError::ChannelAlreadyRegistered),
            Ok(None) => match accounts_save(&mut self.storage, connection, port, controller, account) {
                Ok(()) => Ok(()),
                Err(e) => Err(ContractError::Std(e)),
            },
            Err(e) => Err(ContractError::Std(e)),
        }
    }

    /// Puts a sender in the pending slot, in place of any that was there.
    pub fn set_pending(&mut self, info: &SenderInfo) -> (saved: Result<(), StdError>)
        requires
            key_part_fits(info.connection_id@),
            key_part_fits(info.port_id@),
        ensures
            saved is Ok,
            final(self).pending() == Some(info.deep_view()),
            final(self).accounts() == old(self).accounts(),
    {
        proof {
            use_type_invariant(&*self);
        }
        pending_save(&mut self.storage, info)
    }

    /// Takes the sender out of the pending slot, or fails where the slot is empty.
    pub fn take_pending(&mut self) -> (taken: Result<SenderInfo, StdError>)
        ensures
            final(self).pending() is None,
            final(self).accounts() == old(self).accounts(),
            old(self).pending() is Some ==> (taken matches Ok(info) && Some(info.deep_view()) == old(
                self,
            ).pending() && key_part_fits(info.connection_id@) && key_part_fits(info.port_id@)),
            old(self).pending() is None ==> (taken matches Err(e) && e is NotFound),
    {
        proof {
            use_type_invariant(&*self);
        }
        let loaded = pending_load(&self.storage);
        pending_remove(&mut self.storage);
        loaded
    }
}

} // verus!
