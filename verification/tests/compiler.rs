//! Tests of the request compiler: section inclusion rules, labels,
//! verbatim copying, defaults, and determinism.

use geyser_sub::config::ClientConfig;
use geyser_sub::config::ConnectionConfig;
use geyser_sub::filters::AccountDataFilter;
use geyser_sub::filters::AccountFilter;
use geyser_sub::filters::EventCategory;
use geyser_sub::filters::EventTypeFilter;
use geyser_sub::filters::TransactionFilter;
use geyser_sub::labels::dec_string;
use geyser_sub::labels::make_label;
use geyser_sub::manager::SubscriptionManager;
use geyser_sub::request::CommitmentLevel;

fn test_config() -> ClientConfig {
    ClientConfig {
        connection: ConnectionConfig {
            max_decoding_message_size: 1024 * 1024,
            connect_timeout: 10,
            request_timeout: 30,
        },
        enable_metrics: false,
    }
}

fn test_manager() -> SubscriptionManager {
    SubscriptionManager::new(
        String::from("https://example.invalid:443"),
        Some(String::from("token")),
        test_config(),
    )
}

fn account_filter(owners: Vec<&str>) -> AccountFilter {
    AccountFilter {
        account: Vec::new(),
        owner: owners.into_iter().map(String::from).collect(),
        filters: Vec::new(),
    }
}

fn tx_filter(included: Vec<&str>) -> TransactionFilter {
    TransactionFilter {
        account_include: included.into_iter().map(String::from).collect(),
        account_exclude: Vec::new(),
        account_required: Vec::new(),
    }
}

#[test]
fn manager_keeps_its_fields() {
    let manager = test_manager();
    assert_eq!(manager.endpoint, "https://example.invalid:443");
    assert_eq!(manager.x_token, Some(String::from("token")));
    assert_eq!(*manager.get_config(), test_config());
}

#[test]
fn dec_string_renders_decimal() {
    assert_eq!(dec_string(0), "0");
    assert_eq!(dec_string(7), "7");
    assert_eq!(dec_string(10), "10");
    assert_eq!(dec_string(905), "905");
    assert_eq!(dec_string(1000000), "1000000");
}

#[test]
fn labels_follow_position() {
    assert_eq!(make_label("account_", 0), "account_0");
    assert_eq!(make_label("account_", 12), "account_12");
    assert_eq!(make_label("transaction_", 3), "transaction_3");
}

#[test]
fn commitment_wire_codes() {
    assert_eq!(CommitmentLevel::Processed.wire_code(), 0);
    assert_eq!(CommitmentLevel::Confirmed.wire_code(), 1);
    assert_eq!(CommitmentLevel::Finalized.wire_code(), 2);
}

#[test]
fn block_sections_empty_when_excluded() {
    let manager = test_manager();
    let etf = EventTypeFilter {
        categories: vec![EventCategory::Account, EventCategory::Transaction],
    };
    let request = manager.compile_subscription(
        vec![account_filter(vec!["PGM1"])],
        vec![tx_filter(vec!["PGM1"])],
        None,
        Some(&etf),
    );
    assert!(request.blocks.is_empty());
    assert!(request.blocks_meta.is_empty());
}

#[test]
fn block_sections_default_when_filter_absent() {
    let manager = test_manager();
    let request = manager.compile_subscription(Vec::new(), Vec::new(), None, None);
    assert_eq!(request.blocks.len(), 1);
    assert_eq!(request.blocks[0].label, "");
    assert!(request.blocks[0].account_include.is_empty());
    assert_eq!(request.blocks[0].include_transactions, Some(true));
    assert_eq!(request.blocks[0].include_accounts, Some(false));
    assert_eq!(request.blocks[0].include_entries, Some(false));
    assert_eq!(request.blocks_meta.len(), 1);
    assert_eq!(request.blocks_meta[0].label, "");
}

#[test]
fn block_sections_present_when_block_category_included() {
    let manager = test_manager();
    let etf = EventTypeFilter { categories: vec![EventCategory::Block] };
    let request = manager.compile_subscription(Vec::new(), Vec::new(), None, Some(&etf));
    assert_eq!(request.blocks.len(), 1);
    assert_eq!(request.blocks_meta.len(), 1);
}

#[test]
fn accounts_section_preserves_filters_verbatim() {
    let manager = test_manager();
    let filters = vec![
        AccountFilter {
            account: vec![String::from("Acc1"), String::from("Acc2")],
            owner: vec![String::from("Owner1")],
            filters: vec![
                AccountDataFilter::Memcmp { offset: 4, bytes: vec![1, 2, 3] },
                AccountDataFilter::DataSize(165),
            ],
        },
        account_filter(vec!["Owner2"]),
        account_filter(vec!["Owner3", "Owner4"]),
    ];
    let section = manager
        .subscribe_with_account_request(filters.clone(), None)
        .expect("account events are allowed and the input is non-empty");
    assert_eq!(section.len(), 3);
    for (i, entry) in section.iter().enumerate() {
        assert_eq!(entry.label, format!("account_{}", i));
        assert_eq!(entry.account, filters[i].account);
        assert_eq!(entry.owner, filters[i].owner);
        assert_eq!(entry.filters, filters[i].filters);
        assert_eq!(entry.nonempty_txn_signature, None);
    }
}

#[test]
fn accounts_section_absent_without_input() {
    let manager = test_manager();
    assert!(manager.subscribe_with_account_request(Vec::new(), None).is_none());
}

#[test]
fn accounts_section_absent_when_excluded() {
    let manager = test_manager();
    let etf = EventTypeFilter { categories: vec![EventCategory::Transaction] };
    let section =
        manager.subscribe_with_account_request(vec![account_filter(vec!["PGM1"])], Some(&etf));
    assert!(section.is_none());
}

#[test]
fn transactions_section_fixes_vote_and_failed() {
    let manager = test_manager();
    let filters = vec![
        TransactionFilter {
            account_include: vec![String::from("A")],
            account_exclude: vec![String::from("B")],
            account_required: vec![String::from("C"), String::from("D")],
        },
        tx_filter(vec!["E"]),
    ];
    let section = manager
        .get_subscribe_request_filter(filters.clone(), None)
        .expect("transaction events are allowed");
    assert_eq!(section.len(), 2);
    for (i, entry) in section.iter().enumerate() {
        assert_eq!(entry.label, format!("transaction_{}", i));
        assert_eq!(entry.vote, Some(false));
        assert_eq!(entry.failed, Some(false));
        assert_eq!(entry.signature, None);
        assert_eq!(entry.account_include, filters[i].account_include);
        assert_eq!(entry.account_exclude, filters[i].account_exclude);
        assert_eq!(entry.account_required, filters[i].account_required);
    }
}

#[test]
fn transactions_section_empty_when_excluded() {
    let manager = test_manager();
    let etf = EventTypeFilter { categories: vec![EventCategory::Account] };
    let section =
        manager.get_subscribe_request_filter(vec![tx_filter(vec!["PGM1"])], Some(&etf));
    assert!(section.is_none());
    let request = manager.compile_subscription(
        Vec::new(),
        vec![tx_filter(vec!["PGM1"]), tx_filter(vec!["PGM2"])],
        None,
        Some(&etf),
    );
    assert!(request.transactions.is_empty());
}

#[test]
fn transactions_section_present_but_empty_without_input() {
    let manager = test_manager();
    let section = manager
        .get_subscribe_request_filter(Vec::new(), None)
        .expect("transaction events are allowed");
    assert!(section.is_empty());
}

#[test]
fn compiling_twice_yields_identical_requests() {
    let manager = test_manager();
    let etf = EventTypeFilter {
        categories: vec![EventCategory::Account, EventCategory::Block],
    };
    let accounts = vec![account_filter(vec!["PGM1"]), account_filter(vec!["PGM2"])];
    let transactions = vec![tx_filter(vec!["PGM1"])];
    let first = manager.compile_subscription(
        accounts.clone(),
        transactions.clone(),
        Some(CommitmentLevel::Confirmed),
        Some(&etf),
    );
    let second = manager.compile_subscription(
        accounts,
        transactions,
        Some(CommitmentLevel::Confirmed),
        Some(&etf),
    );
    assert_eq!(first, second);
}

#[test]
fn scenario_all_sections_with_defaults() {
    let manager = test_manager();
    let request = manager.compile_subscription(
        vec![account_filter(vec!["PGM1"])],
        vec![tx_filter(vec!["PGM1"])],
        None,
        None,
    );
    assert_eq!(request.accounts.len(), 1);
    assert_eq!(request.transactions.len(), 1);
    assert_eq!(request.blocks.len(), 1);
    assert_eq!(request.blocks_meta.len(), 1);
    assert_eq!(request.commitment, CommitmentLevel::Processed);
    assert_eq!(request.accounts[0].label, "account_0");
    assert_eq!(request.accounts[0].owner, vec![String::from("PGM1")]);
    assert_eq!(request.transactions[0].label, "transaction_0");
}

#[test]
fn scenario_transactions_only() {
    let manager = test_manager();
    let etf = EventTypeFilter { categories: vec![EventCategory::Transaction] };
    let request = manager.compile_subscription(
        vec![account_filter(vec!["PGM1"])],
        vec![tx_filter(vec!["PGM1"])],
        None,
        Some(&etf),
    );
    assert_eq!(request.accounts.len(), 0);
    assert_eq!(request.transactions.len(), 1);
    assert_eq!(request.blocks.len(), 0);
    assert_eq!(request.blocks_meta.len(), 0);
}

#[test]
fn caller_commitment_is_kept() {
    let manager = test_manager();
    let request = manager.compile_subscription(
        Vec::new(),
        Vec::new(),
        Some(CommitmentLevel::Finalized),
        None,
    );
    assert_eq!(request.commitment, CommitmentLevel::Finalized);
}

#[test]
fn event_type_filter_category_queries() {
    let etf = EventTypeFilter {
        categories: vec![EventCategory::Account, EventCategory::Block],
    };
    assert!(etf.include_account_event());
    assert!(!etf.include_transaction_event());
    assert!(etf.include_block_event());
    let empty = EventTypeFilter { categories: Vec::new() };
    assert!(!empty.include_account_event());
    assert!(!empty.include_transaction_event());
    assert!(!empty.include_block_event());
}
