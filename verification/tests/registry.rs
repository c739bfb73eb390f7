use cosmwasm_tunnel::error::{ContractError, StdError};
use cosmwasm_tunnel::msg::{AccountInfo, AccountResponse, ListAccountsResponse, QueryMsg, QueryResponse};
use cosmwasm_tunnel::remote::{query, query_account, query_list_accounts};
use cosmwasm_tunnel::state::{
    SenderInfo, Store, DEFAULT_LIMIT, INIT_CALLBACK_ID, MAX_KEY_PART, MAX_LIMIT, MIGRATE_CALLBACK_ID,
    RECEIVE_DISPATCH_ID,
};

fn info(connection: &str, port: &str, controller: &str, account: &str) -> AccountInfo {
    AccountInfo {
        account: account.to_string(),
        connection: connection.to_string(),
        port: port.to_string(),
        controller: controller.to_string(),
    }
}

fn cursor(connection: &str, port: &str, controller: &str) -> Option<(String, String, String)> {
    Some((connection.to_string(), port.to_string(), controller.to_string()))
}

fn store_with(records: &[(&str, &str, &str, &str)]) -> Store {
    let mut store = Store::new();
    for (connection, port, controller, account) in records {
        assert_eq!(store.insert_if_absent(connection, port, controller, account), Ok(()));
    }
    store
}

fn five() -> Store {
    store_with(&[
        ("conn-1", "port-a", "carol", "addr3"),
        ("conn-0", "port-b", "alice", "addr2"),
        ("conn-1", "port-a", "bob", "addr4"),
        ("conn-0", "port-a", "dave", "addr1"),
        ("conn-2", "port-a", "alice", "addr5"),
    ])
}

#[test]
fn state_constants_have_their_values() {
    assert_eq!(RECEIVE_DISPATCH_ID, 1234);
    assert_eq!(INIT_CALLBACK_ID, 7890);
    assert_eq!(MIGRATE_CALLBACK_ID, 7899);
    assert_eq!(DEFAULT_LIMIT, 50);
    assert_eq!(MAX_LIMIT, 300);
}

#[test]
fn empty_store_has_no_account() {
    let store = Store::new();
    assert_eq!(store.get("conn-0", "wasm.port", "alice"), None);
    assert!(matches!(store.load("conn-0", "wasm.port", "alice"), Err(StdError::NotFound { .. })));
    assert!(store.list(&None, usize::MAX).is_empty());
    assert!(store.list(&None, 10).is_empty());
}

#[test]
fn insert_then_get_returns_the_account() {
    let mut store = Store::new();
    assert_eq!(store.insert_if_absent("conn-0", "wasm.port", "alice", "addr1"), Ok(()));
    assert_eq!(store.get("conn-0", "wasm.port", "alice"), Some("addr1".to_string()));
    assert_eq!(store.load("conn-0", "wasm.port", "alice"), Ok("addr1".to_string()));
    assert_eq!(store.get("conn-0", "wasm.port", "bob"), None);
    assert_eq!(store.get("conn-0", "other.port", "alice"), None);
    assert_eq!(store.get("conn-1", "wasm.port", "alice"), None);
}

#[test]
fn second_insert_is_refused_and_keeps_the_first() {
    let mut store = Store::new();
    assert_eq!(store.insert_if_absent("conn-0", "wasm.port", "alice", "addr1"), Ok(()));
    assert_eq!(
        store.insert_if_absent("conn-0", "wasm.port", "alice", "addr2"),
        Err(ContractError::ChannelAlreadyRegistered)
    );
    assert_eq!(store.get("conn-0", "wasm.port", "alice"), Some("addr1".to_string()));
    assert_eq!(store.list(&None, usize::MAX).len(), 1);
}

#[test]
fn same_principal_on_other_identity_is_another_record() {
    let mut store = Store::new();
    assert_eq!(store.insert_if_absent("conn-0", "wasm.port", "alice", "addr1"), Ok(()));
    assert_eq!(store.insert_if_absent("conn-1", "wasm.port", "alice", "addr2"), Ok(()));
    assert_eq!(store.get("conn-0", "wasm.port", "alice"), Some("addr1".to_string()));
    assert_eq!(store.get("conn-1", "wasm.port", "alice"), Some("addr2".to_string()));
}

#[test]
fn key_parts_are_kept_apart() {
    let mut store = Store::new();
    assert_eq!(store.insert_if_absent("ab", "c", "d", "addr1"), Ok(()));
    assert_eq!(store.get("a", "bc", "d"), None);
    assert_eq!(store.get("ab", "", "cd"), None);
    assert_eq!(store.insert_if_absent("a", "bc", "d", "addr2"), Ok(()));
    assert_eq!(store.get("ab", "c", "d"), Some("addr1".to_string()));
    assert_eq!(store.get("a", "bc", "d"), Some("addr2".to_string()));
}

#[test]
fn texts_with_quotes_and_escapes_read_back() {
    let mut store = Store::new();
    let controller = "al\"ice\\\n\u{1}é日";
    assert_eq!(store.insert_if_absent("conn-0", "wasm.port", controller, "ad\"dr\\1"), Ok(()));
    assert_eq!(store.get("conn-0", "wasm.port", controller), Some("ad\"dr\\1".to_string()));
    assert_eq!(store.list(&None, usize::MAX), vec![info("conn-0", "wasm.port", controller, "ad\"dr\\1")]);
}

#[test]
fn pending_slot_holds_one_sender() {
    let mut store = Store::new();
    assert!(matches!(store.take_pending(), Err(StdError::NotFound { .. })));
    let first = SenderInfo {
        connection_id: "conn-0".to_string(),
        port_id: "wasm.port".to_string(),
        controller: "alice".to_string(),
        job_id: Some("job-1".to_string()),
    };
    let second = SenderInfo {
        connection_id: "conn-1".to_string(),
        port_id: "wasm.port".to_string(),
        controller: "bob \"the\" builder".to_string(),
        job_id: None,
    };
    assert_eq!(store.set_pending(&first), Ok(()));
    assert_eq!(store.set_pending(&second), Ok(()));
    assert_eq!(store.take_pending(), Ok(second));
    assert!(matches!(store.take_pending(), Err(StdError::NotFound { .. })));
}

#[test]
fn pending_slot_and_registry_do_not_touch_each_other() {
    let mut store = Store::new();
    let sender = SenderInfo {
        connection_id: "conn-0".to_string(),
        port_id: "wasm.port".to_string(),
        controller: "alice".to_string(),
        job_id: None,
    };
    assert_eq!(store.set_pending(&sender), Ok(()));
    assert!(store.list(&None, usize::MAX).is_empty());
    assert_eq!(store.insert_if_absent("conn-0", "wasm.port", "alice", "addr1"), Ok(()));
    assert_eq!(store.take_pending(), Ok(sender));
    assert_eq!(store.list(&None, usize::MAX), vec![info("conn-0", "wasm.port", "alice", "addr1")]);
}

#[test]
fn records_hold_each_account_once() {
    let mut records = five().list(&None, usize::MAX);
    records.sort_by(|a, b| a.account.cmp(&b.account));
    assert_eq!(
        records,
        vec![
            info("conn-0", "port-a", "dave", "addr1"),
            info("conn-0", "port-b", "alice", "addr2"),
            info("conn-1", "port-a", "carol", "addr3"),
            info("conn-1", "port-a", "bob", "addr4"),
            info("conn-2", "port-a", "alice", "addr5"),
        ]
    );
}

#[test]
fn list_returns_the_first_records_in_key_order() {
    let store = five();
    assert_eq!(
        store.list(&None, 2),
        vec![info("conn-0", "port-a", "dave", "addr1"), info("conn-0", "port-b", "alice", "addr2")]
    );
    assert_eq!(
        store.list(&None, 10),
        vec![
            info("conn-0", "port-a", "dave", "addr1"),
            info("conn-0", "port-b", "alice", "addr2"),
            info("conn-1", "port-a", "bob", "addr4"),
            info("conn-1", "port-a", "carol", "addr3"),
            info("conn-2", "port-a", "alice", "addr5"),
        ]
    );
    assert_eq!(store.list(&None, 5).len(), 5);
    assert!(store.list(&None, 0).is_empty());
}

#[test]
fn cursor_is_exclusive_and_pages_neither_overlap_nor_skip() {
    let store = five();
    let first = store.list(&None, 2);
    let last = first.last().unwrap();
    let second = store.list(&cursor(&last.connection, &last.port, &last.controller), 2);
    assert_eq!(
        second,
        vec![info("conn-1", "port-a", "bob", "addr4"), info("conn-1", "port-a", "carol", "addr3")]
    );
    let last = second.last().unwrap();
    let third = store.list(&cursor(&last.connection, &last.port, &last.controller), 2);
    assert_eq!(third, vec![info("conn-2", "port-a", "alice", "addr5")]);
    let last = third.last().unwrap();
    assert!(store.list(&cursor(&last.connection, &last.port, &last.controller), 2).is_empty());
    let mut all = first;
    all.extend(second);
    all.extend(third);
    assert_eq!(all, store.list(&None, 5));
}

#[test]
fn cursor_need_not_be_a_registered_key() {
    let store = five();
    assert_eq!(
        store.list(&cursor("conn-1", "", ""), 1),
        vec![info("conn-1", "port-a", "bob", "addr4")]
    );
    assert!(store.list(&cursor("conn-9", "", ""), 5).is_empty());
}

#[test]
fn keys_of_different_lengths_are_listed_lexicographically() {
    let store = store_with(&[
        ("b", "p", "x", "addr1"),
        ("aa", "p", "x", "addr2"),
        ("a", "q", "x", "addr3"),
        ("a", "pp", "x", "addr4"),
    ]);
    assert_eq!(
        store.list(&None, 10),
        vec![
            info("a", "pp", "x", "addr4"),
            info("a", "q", "x", "addr3"),
            info("aa", "p", "x", "addr2"),
            info("b", "p", "x", "addr1"),
        ]
    );
    assert_eq!(
        store.list(&cursor("a", "q", "x"), 10),
        vec![info("aa", "p", "x", "addr2"), info("b", "p", "x", "addr1")]
    );
}

#[test]
fn query_account_finds_a_registered_account() {
    let store = five();
    assert_eq!(
        query_account(&store, "conn-1".to_string(), "port-a".to_string(), "bob".to_string()),
        Ok(AccountResponse { account: Some("addr4".to_string()) })
    );
}

#[test]
fn query_account_fails_for_an_unregistered_key() {
    let store = five();
    assert!(matches!(
        query_account(&store, "conn-1".to_string(), "port-a".to_string(), "eve".to_string()),
        Err(StdError::NotFound { .. })
    ));
}

#[test]
fn query_list_uses_the_default_limit() {
    let mut store = Store::new();
    for i in 0..60 {
        let controller = format!("user-{i:03}");
        assert_eq!(store.insert_if_absent("conn-0", "wasm.port", &controller, "addr"), Ok(()));
    }
    let page = query_list_accounts(&store, None, None).unwrap().accounts;
    assert_eq!(page.len(), 50);
    assert_eq!(page[0].controller, "user-000");
    assert_eq!(page[49].controller, "user-049");
    let rest = query_list_accounts(&store, cursor("conn-0", "wasm.port", "user-049"), None).unwrap().accounts;
    assert_eq!(rest.len(), 10);
    assert_eq!(rest[0].controller, "user-050");
    assert_eq!(rest[9].controller, "user-059");
}

#[test]
fn query_list_clamps_the_limit_to_the_maximum() {
    let mut store = Store::new();
    for i in 0..305 {
        let controller = format!("user-{i:03}");
        assert_eq!(store.insert_if_absent("conn-0", "wasm.port", &controller, "addr"), Ok(()));
    }
    assert_eq!(query_list_accounts(&store, None, Some(1000)).unwrap().accounts.len(), 300);
    assert_eq!(query_list_accounts(&store, None, Some(301)).unwrap().accounts.len(), 300);
    assert_eq!(query_list_accounts(&store, None, Some(300)).unwrap().accounts.len(), 300);
    assert_eq!(query_list_accounts(&store, None, Some(299)).unwrap().accounts.len(), 299);
    assert_eq!(query_list_accounts(&store, None, Some(0)).unwrap().accounts.len(), 0);
    assert_eq!(query_list_accounts(&store, None, Some(u64::MAX)).unwrap().accounts.len(), 300);
}

#[test]
fn query_routes_by_message() {
    let store = five();
    assert_eq!(
        query(
            &store,
            QueryMsg::Account {
                connection_id: "conn-2".to_string(),
                port_id: "port-a".to_string(),
                controller: "alice".to_string(),
            }
        ),
        Ok(QueryResponse::Account(AccountResponse { account: Some("addr5".to_string()) }))
    );
    assert_eq!(
        query(&store, QueryMsg::ListAccounts { start_after: cursor("conn-1", "port-a", "carol"), limit: Some(3) }),
        Ok(QueryResponse::ListAccounts(ListAccountsResponse {
            accounts: vec![info("conn-2", "port-a", "alice", "addr5")]
        }))
    );
}

#[test]
fn empty_key_parts_are_keys_like_any_other() {
    let mut store = Store::new();
    assert_eq!(store.insert_if_absent("", "", "", "addr0"), Ok(()));
    assert_eq!(store.insert_if_absent("", "", "x", "addr1"), Ok(()));
    assert_eq!(store.insert_if_absent("", "x", "", "addr2"), Ok(()));
    assert_eq!(store.insert_if_absent("x", "", "", "addr3"), Ok(()));
    assert_eq!(store.get("", "", ""), Some("addr0".to_string()));
    assert_eq!(store.get("", "x", ""), Some("addr2".to_string()));
    assert_eq!(
        store.list(&None, 10),
        vec![info("", "", "", "addr0"), info("", "", "x", "addr1"), info("", "x", "", "addr2"), info("x", "", "", "addr3")]
    );
    assert_eq!(store.list(&cursor("", "", ""), 10).len(), 3);
}

#[test]
fn key_parts_of_the_greatest_length_are_held() {
    let long = "a".repeat(MAX_KEY_PART);
    let mut store = Store::new();
    assert_eq!(store.insert_if_absent(&long, &long, &long.repeat(2), "addr1"), Ok(()));
    assert_eq!(store.get(&long, &long, &long.repeat(2)), Some("addr1".to_string()));
    assert_eq!(store.get(&long, &long, &long), None);
    assert_eq!(store.list(&None, 10), vec![info(&long, &long, &long.repeat(2), "addr1")]);
    let sender = SenderInfo {
        connection_id: long.clone(),
        port_id: long.clone(),
        controller: long.clone(),
        job_id: Some(long.clone()),
    };
    assert_eq!(store.set_pending(&sender), Ok(()));
    assert_eq!(store.take_pending(), Ok(sender));
}

#[test]
fn an_account_named_like_the_slot_does_not_fill_the_slot() {
    let mut store = Store::new();
    assert_eq!(store.insert_if_absent("pending", "pending", "pending", "pending"), Ok(()));
    assert!(matches!(store.take_pending(), Err(StdError::NotFound { .. })));
    assert_eq!(store.list(&None, 10), vec![info("pending", "pending", "pending", "pending")]);
}
