//! The subscription manager: the immutable identity of a subscription
//! target (endpoint, token, configuration) and the request compiler that
//! turns declarative filters into a wire-level subscription request.

use vstd::prelude::*;
use crate::config::ClientConfig;
use crate::filters::AccountFilter;
use crate::filters::EventTypeFilter;
use crate::filters::TransactionFilter;
use crate::filters::allows_account;
use crate::filters::allows_transaction;
use crate::filters::etf_view;
use crate::filters::lemma_cloned_filter_vec;
use crate::filters::lemma_cloned_string_vec;
use crate::labels::make_label;
use crate::request::AccountsEntry;
use crate::request::AccountsFilterMap;
use crate::request::BlocksEntry;
use crate::request::BlocksMetaEntry;
use crate::request::CommitmentLevel;
use crate::request::TransactionsEntry;
use crate::request::TransactionsFilterMap;
use crate::request::WireSubscriptionRequest;
use crate::request::spec_account_entry;
use crate::request::spec_accounts_section;
use crate::request::spec_blocks_meta_section;
use crate::request::spec_blocks_section;
use crate::request::default_blocks_entry;
use crate::request::default_blocks_meta_entry;
use crate::request::spec_commitment;
use crate::request::spec_compile;
use crate::request::spec_transaction_entry;
use crate::request::spec_transactions_section;

verus! {

/// Subscription manager: endpoint, optional access token, and client
/// configuration. All fields are immutable after construction; a clone is
/// an equivalent handle on the same target.
#[derive(Clone, Debug)]
pub struct SubscriptionManager {
    /// The feed endpoint URL.
    pub endpoint: String,
    /// Optional access token sent with each request.
    pub x_token: Option<String>,
    /// Connection limits and feature toggles.
    pub config: ClientConfig,
}

impl SubscriptionManager {
    /// Create a new subscription manager.
    pub fn new(endpoint: String, x_token: Option<String>, config: ClientConfig) -> (r: Self)
        ensures
            r.endpoint == endpoint,
            r.x_token == x_token,
            r.config == config,
    {
        SubscriptionManager { endpoint, x_token, config }
    }

    /// Get the configuration.
    pub fn get_config(&self) -> (r: &ClientConfig)
        ensures
            *r == self.config,
    {
        &self.config
    }

    /// Compile the accounts section of a subscription request.
    ///
    /// Returns `None` when the event-type filter excludes account events
    /// or the input sequence is empty; otherwise one entry per input
    /// filter, labeled `account_<i>` by position, with the filter's
    /// account, owner, and byte-filter sets copied verbatim and no
    /// signature constraint.
    pub fn subscribe_with_account_request(
        &self,
        account_filter: Vec<AccountFilter>,
        event_type_filter: Option<&EventTypeFilter>,
    ) -> (r: Option<AccountsFilterMap>)
        ensures
            (r is Some) == (allows_account(etf_view(event_type_filter))
                && account_filter@.len() > 0),
            r matches Some(section) ==> section.deep_view() == spec_accounts_section(
                account_filter.deep_view(),
                etf_view(event_type_filter),
            ),
    {
        if let Some(etf) = event_type_filter {
            if !etf.include_account_event() {
                return None;
            }
        }
        if account_filter.len() == 0 {
            return None;
        }
        let ghost fsv = account_filter.deep_view();
        let mut accounts: Vec<AccountsEntry> = Vec::new();
        let mut index: usize = 0;
        while index < account_filter.len()
            invariant
                index <= account_filter.len(),
                fsv == account_filter.deep_view(),
                accounts.len() == index,
                forall|j: int|
                    0 <= j < index ==> accounts.deep_view()[j] == spec_account_entry(
                        j as nat,
                        fsv[j],
                    ),
            decreases account_filter.len() - index,
        {
            let af = &account_filter[index];
            let label = make_label("account_", index);
            let account = af.account.clone();
            let owner = af.owner.clone();
            let filters = af.filters.clone();
            proof {
                lemma_cloned_string_vec(af.account, account);
                lemma_cloned_string_vec(af.owner, owner);
                lemma_cloned_filter_vec(af.filters, filters);
            }
            let entry = AccountsEntry {
                label,
                account,
                owner,
                filters,
                nonempty_txn_signature: None,
            };
            proof {
                assert(entry@ == spec_account_entry(index as nat, fsv[index as int]));
            }
            let ghost prev = accounts@;
            let ghost prevdeep = accounts.deep_view();
            accounts.push(entry);
            proof {
                assert forall|j: int|
                    0 <= j <= index implies accounts.deep_view()[j] == spec_account_entry(
                    j as nat,
                    fsv[j],
                ) by {
                    assert(accounts.deep_view()[j] == accounts@[j].deep_view());
                    if j < index {
                        assert(prevdeep[j] == spec_account_entry(j as nat, fsv[j]));
                        assert(prevdeep[j] == prev[j].deep_view());
                        assert(accounts@[j] == prev[j]);
                    } else {
                        assert(accounts@[j] == entry);
                    }
                }
            }
            index = index + 1;
        }
        proof {
            assert(accounts.deep_view() =~= spec_accounts_section(
                fsv,
                etf_view(event_type_filter),
            ));
        }
        Some(accounts)
    }

    /// Compile the transactions section of a subscription request.
    ///
    /// Returns `None` when the event-type filter excludes transaction
    /// events; otherwise one entry per input filter, labeled
    /// `transaction_<i>` by position, with vote and failed transactions
    /// excluded, no signature constraint, and the filter's three identifier
    /// sets copied verbatim.
    pub fn get_subscribe_request_filter(
        &self,
        transaction_filter: Vec<TransactionFilter>,
        event_type_filter: Option<&EventTypeFilter>,
    ) -> (r: Option<TransactionsFilterMap>)
        ensures
            (r is Some) == allows_transaction(etf_view(event_type_filter)),
            r matches Some(section) ==> section.deep_view() == spec_transactions_section(
                transaction_filter.deep_view(),
                etf_view(event_type_filter),
            ),
    {
        if let Some(etf) = event_type_filter {
            if !etf.include_transaction_event() {
                return None;
            }
        }
        let ghost fsv = transaction_filter.deep_view();
        let mut transactions: Vec<TransactionsEntry> = Vec::new();
        let mut index: usize = 0;
        while index < transaction_filter.len()
            invariant
                index <= transaction_filter.len(),
                fsv == transaction_filter.deep_view(),
                transactions.len() == index,
                forall|j: int|
                    0 <= j < index ==> transactions.deep_view()[j] == spec_transaction_entry(
                        j as nat,
                        fsv[j],
                    ),
            decreases transaction_filter.len() - index,
        {
            let tf = &transaction_filter[index];
            let label = make_label("transaction_", index);
            let account_include = tf.account_include.clone();
            let account_exclude = tf.account_exclude.clone();
            let account_required = tf.account_required.clone();
            proof {
                lemma_cloned_string_vec(tf.account_include, account_include);
                lemma_cloned_string_vec(tf.account_exclude, account_exclude);
                lemma_cloned_string_vec(tf.account_required, account_required);
            }
            let entry = TransactionsEntry {
                label,
                vote: Some(false),
                failed: Some(false),
                signature: None,
                account_include,
                account_exclude,
                account_required,
            };
            proof {
                assert(entry@ == spec_transaction_entry(index as nat, fsv[index as int]));
            }
            let ghost prev = transactions@;
            let ghost prevdeep = transactions.deep_view();
            transactions.push(entry);
            proof {
                assert forall|j: int|
                    0 <= j <= index implies transactions.deep_view()[j] == spec_transaction_entry(
                    j as nat,
                    fsv[j],
                ) by {
                    assert(transactions.deep_view()[j] == transactions@[j].deep_view());
                    if j < index {
                        assert(prevdeep[j] == spec_transaction_entry(j as nat, fsv[j]));
                        assert(prevdeep[j] == prev[j].deep_view());
                        assert(transactions@[j] == prev[j]);
                    } else {
                        assert(transactions@[j] == entry);
                    }
                }
            }
            index = index + 1;
        }
        proof {
            assert(transactions.deep_view() =~= spec_transactions_section(
                fsv,
                etf_view(event_type_filter),
            ));
        }
        Some(transactions)
    }

    /// Assemble the wire request from pre-compiled account and transaction
    /// sections.
    ///
    /// The blocks and block-metadata sections each hold one default entry
    /// when the event-type filter is absent or includes the block
    /// category, and are empty otherwise. An absent section argument
    /// becomes an empty section, never an omitted one. The commitment
    /// level defaults to the weakest level when the caller supplies none.
    pub fn build_subscribe_request(
        &self,
        transactions: Option<TransactionsFilterMap>,
        accounts: Option<AccountsFilterMap>,
        commitment: Option<CommitmentLevel>,
        event_type_filter: Option<&EventTypeFilter>,
    ) -> (r: WireSubscriptionRequest)
        ensures
            r.blocks.deep_view() == spec_blocks_section(etf_view(event_type_filter)),
            r.blocks_meta.deep_view() == spec_blocks_meta_section(etf_view(event_type_filter)),
            r.commitment == spec_commitment(commitment),
            match accounts {
                Some(section) => r.accounts == section,
                None => r.accounts@.len() == 0,
            },
            match transactions {
                Some(section) => r.transactions == section,
                None => r.transactions@.len() == 0,
            },
    {
        let subscribe_blocks = match event_type_filter {
            Some(etf) => etf.include_block_event(),
            None => true,
        };
        let mut blocks: Vec<BlocksEntry> = Vec::new();
        let mut blocks_meta: Vec<BlocksMetaEntry> = Vec::new();
        if subscribe_blocks {
            let entry = BlocksEntry {
                label: String::new(),
                account_include: Vec::new(),
                include_transactions: Some(true),
                include_accounts: Some(false),
                include_entries: Some(false),
            };
            proof {
                assert(entry@ =~~= default_blocks_entry());
            }
            blocks.push(entry);
            let meta_entry = BlocksMetaEntry { label: String::new() };
            proof {
                assert(meta_entry@ =~~= default_blocks_meta_entry());
            }
            blocks_meta.push(meta_entry);
        }
        proof {
            assert(blocks.deep_view() =~= spec_blocks_section(etf_view(event_type_filter)));
            assert(blocks_meta.deep_view() =~= spec_blocks_meta_section(
                etf_view(event_type_filter),
            ));
        }
        let commitment_level = match commitment {
            Some(level) => level,
            None => CommitmentLevel::Processed,
        };
        let accounts_section = match accounts {
            Some(section) => section,
            None => Vec::new(),
        };
        let transactions_section = match transactions {
            Some(section) => section,
            None => Vec::new(),
        };
        WireSubscriptionRequest {
            accounts: accounts_section,
            transactions: transactions_section,
            blocks,
            blocks_meta,
            commitment: commitment_level,
        }
    }

    /// Compile a full subscription request from declarative filters.
    ///
    /// This is a pure, total transformation: it cannot fail, and the
    /// result is exactly the compiled model of the inputs, so compiling
    /// the same inputs twice yields identical requests.
    pub fn compile_subscription(
        &self,
        account_filters: Vec<AccountFilter>,
        transaction_filters: Vec<TransactionFilter>,
        commitment: Option<CommitmentLevel>,
        event_type_filter: Option<&EventTypeFilter>,
    ) -> (r: WireSubscriptionRequest)
        ensures
            r@ == spec_compile(
                account_filters.deep_view(),
                transaction_filters.deep_view(),
                etf_view(event_type_filter),
                commitment,
            ),
    {
        let ghost afv = account_filters.deep_view();
        let ghost tfv = transaction_filters.deep_view();
        let accounts = self.subscribe_with_account_request(account_filters, event_type_filter);
        let transactions = self.get_subscribe_request_filter(
            transaction_filters,
            event_type_filter,
        );
        let r = self.build_subscribe_request(
            transactions,
            accounts,
            commitment,
            event_type_filter,
        );
        proof {
            let etf = etf_view(event_type_filter);
            assert(r@.accounts =~= spec_accounts_section(afv, etf));
            assert(r@.transactions =~= spec_transactions_section(tfv, etf));
        }
        r
    }
}

} // verus!
