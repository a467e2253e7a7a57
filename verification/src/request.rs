//! Wire-level subscription request model and the compiler's specification.
//!
//! A request holds four independent labeled sections (accounts,
//! transactions, blocks, block-metadata) and a commitment level. A section
//! compiled empty means "do not subscribe to that category"; it is always
//! present, never omitted, so the transport cannot default to subscribing
//! to everything.

use vstd::prelude::*;
use crate::filters::AccountDataFilter;
use crate::filters::AccountDataFilterV;
use crate::filters::AccountFilterV;
use crate::filters::EventCategory;
use crate::filters::TransactionFilterV;
use crate::filters::allows_account;
use crate::filters::allows_block;
use crate::filters::allows_transaction;
use crate::labels::account_label;
use crate::labels::lemma_label_injective;
use crate::labels::transaction_label;

verus! {

/// How finalized an update must be before delivery. `Processed` is the
/// weakest and fastest level.
#[derive(Clone, Copy, Debug, PartialEq, Eq, Structural)]
pub enum CommitmentLevel {
    /// The update was processed by a node.
    Processed,
    /// The update was confirmed by the cluster.
    Confirmed,
    /// The update is finalized.
    Finalized,
}

impl CommitmentLevel {
    /// The numeric code this level carries on the wire.
    pub open spec fn spec_wire_code(self) -> i32 {
        match self {
            CommitmentLevel::Processed => 0,
            CommitmentLevel::Confirmed => 1,
            CommitmentLevel::Finalized => 2,
        }
    }

    /// Returns the numeric code this level carries on the wire.
    pub fn wire_code(&self) -> (r: i32)
        ensures
            r == self.spec_wire_code(),
    {
        match self {
            CommitmentLevel::Processed => 0,
            CommitmentLevel::Confirmed => 1,
            CommitmentLevel::Finalized => 2,
        }
    }
}

/// One labeled entry of the accounts section.
#[derive(Clone, Debug, PartialEq)]
pub struct AccountsEntry {
    /// The entry's key in the section, unique within the request.
    pub label: String,
    /// Explicit account identifiers, copied verbatim from the input filter.
    pub account: Vec<String>,
    /// Owner-program identifiers, copied verbatim from the input filter.
    pub owner: Vec<String>,
    /// Byte-level sub-filters, copied verbatim from the input filter.
    pub filters: Vec<AccountDataFilter>,
    /// Whether a non-empty transaction signature is required; the compiler
    /// never sets this.
    pub nonempty_txn_signature: Option<bool>,
}

/// Mathematical model of an [`AccountsEntry`].
#[verifier::ext_equal]
pub ghost struct AccountsEntryV {
    pub label: Seq<char>,
    pub account: Seq<Seq<char>>,
    pub owner: Seq<Seq<char>>,
    pub filters: Seq<AccountDataFilterV>,
    pub nonempty_txn_signature: Option<bool>,
}

impl View for AccountsEntry {
    type V = AccountsEntryV;

    open spec fn view(&self) -> AccountsEntryV {
        AccountsEntryV {
            label: self.label@,
            account: self.account.deep_view(),
            owner: self.owner.deep_view(),
            filters: self.filters.deep_view(),
            nonempty_txn_signature: self.nonempty_txn_signature,
        }
    }
}

impl DeepView for AccountsEntry {
    type V = AccountsEntryV;

    open spec fn deep_view(&self) -> AccountsEntryV {
        self.view()
    }
}

/// One labeled entry of the transactions section. Vote and failed
/// transactions are always excluded: the compiler fixes `vote` and
/// `failed` to `Some(false)`.
#[derive(Clone, Debug, PartialEq)]
pub struct TransactionsEntry {
    /// The entry's key in the section, unique within the request.
    pub label: String,
    /// Whether vote transactions match; fixed to `Some(false)`.
    pub vote: Option<bool>,
    /// Whether failed transactions match; fixed to `Some(false)`.
    pub failed: Option<bool>,
    /// An explicit signature constraint; the compiler never sets one.
    pub signature: Option<String>,
    /// The transaction must touch at least one of these accounts.
    pub account_include: Vec<String>,
    /// The transaction must touch none of these accounts.
    pub account_exclude: Vec<String>,
    /// The transaction must touch all of these accounts.
    pub account_required: Vec<String>,
}

/// Mathematical model of a [`TransactionsEntry`].
#[verifier::ext_equal]
pub ghost struct TransactionsEntryV {
    pub label: Seq<char>,
    pub vote: Option<bool>,
    pub failed: Option<bool>,
    pub signature: Option<Seq<char>>,
    pub account_include: Seq<Seq<char>>,
    pub account_exclude: Seq<Seq<char>>,
    pub account_required: Seq<Seq<char>>,
}

impl View for TransactionsEntry {
    type V = TransactionsEntryV;

    open spec fn view(&self) -> TransactionsEntryV {
        TransactionsEntryV {
            label: self.label@,
            vote: self.vote,
            failed: self.failed,
            signature: self.signature.deep_view(),
            account_include: self.account_include.deep_view(),
            account_exclude: self.account_exclude.deep_view(),
            account_required: self.account_required.deep_view(),
        }
    }
}

impl DeepView for TransactionsEntry {
    type V = TransactionsEntryV;

    open spec fn deep_view(&self) -> TransactionsEntryV {
        self.view()
    }
}

/// One labeled entry of the full-blocks section.
#[derive(Clone, Debug, PartialEq)]
pub struct BlocksEntry {
    /// The entry's key in the section.
    pub label: String,
    /// Restrict to blocks touching these accounts; empty means all blocks.
    pub account_include: Vec<String>,
    /// Whether transaction details are delivered with each block.
    pub include_transactions: Option<bool>,
    /// Whether account updates are delivered with each block.
    pub include_accounts: Option<bool>,
    /// Whether ledger entries are delivered with each block.
    pub include_entries: Option<bool>,
}

/// Mathematical model of a [`BlocksEntry`].
#[verifier::ext_equal]
pub ghost struct BlocksEntryV {
    pub label: Seq<char>,
    pub account_include: Seq<Seq<char>>,
    pub include_transactions: Option<bool>,
    pub include_accounts: Option<bool>,
    pub include_entries: Option<bool>,
}

impl View for BlocksEntry {
    type V = BlocksEntryV;

    open spec fn view(&self) -> BlocksEntryV {
        BlocksEntryV {
            label: self.label@,
            account_include: self.account_include.deep_view(),
            include_transactions: self.include_transactions,
            include_accounts: self.include_accounts,
            include_entries: self.include_entries,
        }
    }
}

impl DeepView for BlocksEntry {
    type V = BlocksEntryV;

    open spec fn deep_view(&self) -> BlocksEntryV {
        self.view()
    }
}

/// One labeled entry of the block-metadata section. It carries no options.
#[derive(Clone, Debug, PartialEq)]
pub struct BlocksMetaEntry {
    /// The entry's key in the section.
    pub label: String,
}

/// Mathematical model of a [`BlocksMetaEntry`].
#[verifier::ext_equal]
pub ghost struct BlocksMetaEntryV {
    pub label: Seq<char>,
}

impl View for BlocksMetaEntry {
    type V = BlocksMetaEntryV;

    open spec fn view(&self) -> BlocksMetaEntryV {
        BlocksMetaEntryV { label: self.label@ }
    }
}

impl DeepView for BlocksMetaEntry {
    type V = BlocksMetaEntryV;

    open spec fn deep_view(&self) -> BlocksMetaEntryV {
        self.view()
    }
}

/// The accounts section of a compiled request, one labeled entry per input
/// filter.
pub type AccountsFilterMap = Vec<AccountsEntry>;

/// The transactions section of a compiled request, one labeled entry per
/// input filter.
pub type TransactionsFilterMap = Vec<TransactionsEntry>;

/// A compiled wire-level subscription request: four labeled sections and a
/// commitment level. An empty section means "do not subscribe to that
/// category".
#[derive(Clone, Debug, PartialEq)]
pub struct WireSubscriptionRequest {
    /// Account-change subscriptions, keyed `account_<i>`.
    pub accounts: Vec<AccountsEntry>,
    /// Transaction subscriptions, keyed `transaction_<i>`.
    pub transactions: Vec<TransactionsEntry>,
    /// Full-block subscriptions.
    pub blocks: Vec<BlocksEntry>,
    /// Block-metadata subscriptions.
    pub blocks_meta: Vec<BlocksMetaEntry>,
    /// How finalized an update must be before delivery.
    pub commitment: CommitmentLevel,
}

/// Mathematical model of a [`WireSubscriptionRequest`].
#[verifier::ext_equal]
pub ghost struct WireSubscriptionRequestV {
    pub accounts: Seq<AccountsEntryV>,
    pub transactions: Seq<TransactionsEntryV>,
    pub blocks: Seq<BlocksEntryV>,
    pub blocks_meta: Seq<BlocksMetaEntryV>,
    pub commitment: CommitmentLevel,
}

impl View for WireSubscriptionRequest {
    type V = WireSubscriptionRequestV;

    open spec fn view(&self) -> WireSubscriptionRequestV {
        WireSubscriptionRequestV {
            accounts: self.accounts.deep_view(),
            transactions: self.transactions.deep_view(),
            blocks: self.blocks.deep_view(),
            blocks_meta: self.blocks_meta.deep_view(),
            commitment: self.commitment,
        }
    }
}

impl DeepView for WireSubscriptionRequest {
    type V = WireSubscriptionRequestV;

    open spec fn deep_view(&self) -> WireSubscriptionRequestV {
        self.view()
    }
}

/// The accounts-section entry compiled from the `i`-th input filter: label
/// `account_<i>`, the filter's sets verbatim, and no signature constraint.
pub open spec fn spec_account_entry(i: nat, f: AccountFilterV) -> AccountsEntryV {
    AccountsEntryV {
        label: account_label(i),
        account: f.account,
        owner: f.owner,
        filters: f.filters,
        nonempty_txn_signature: None,
    }
}

/// The compiled accounts section: empty when the event-type filter
/// excludes account events or no account filter was given, else one entry
/// per input filter, in input order.
pub open spec fn spec_accounts_section(
    fs: Seq<AccountFilterV>,
    etf: Option<Seq<EventCategory>>,
) -> Seq<AccountsEntryV> {
    if allows_account(etf) && fs.len() > 0 {
        Seq::new(fs.len(), |i: int| spec_account_entry(i as nat, fs[i]))
    } else {
        Seq::empty()
    }
}

/// The transactions-section entry compiled from the `i`-th input filter:
/// label `transaction_<i>`, vote and failed transactions excluded, no
/// signature constraint, and the filter's three sets verbatim.
pub open spec fn spec_transaction_entry(i: nat, f: TransactionFilterV) -> TransactionsEntryV {
    TransactionsEntryV {
        label: transaction_label(i),
        vote: Some(false),
        failed: Some(false),
        signature: None,
        account_include: f.account_include,
        account_exclude: f.account_exclude,
        account_required: f.account_required,
    }
}

/// The compiled transactions section: empty when the event-type filter
/// excludes transaction events, else one entry per input filter, in input
/// order.
pub open spec fn spec_transactions_section(
    fs: Seq<TransactionFilterV>,
    etf: Option<Seq<EventCategory>>,
) -> Seq<TransactionsEntryV> {
    if allows_transaction(etf) {
        Seq::new(fs.len(), |i: int| spec_transaction_entry(i as nat, fs[i]))
    } else {
        Seq::empty()
    }
}

/// The single default entry of the full-blocks section: transaction
/// details on, account updates and ledger entries off.
pub open spec fn default_blocks_entry() -> BlocksEntryV {
    BlocksEntryV {
        label: Seq::empty(),
        account_include: Seq::empty(),
        include_transactions: Some(true),
        include_accounts: Some(false),
        include_entries: Some(false),
    }
}

/// The single default entry of the block-metadata section.
pub open spec fn default_blocks_meta_entry() -> BlocksMetaEntryV {
    BlocksMetaEntryV { label: Seq::empty() }
}

/// The compiled full-blocks section: one default entry when the
/// event-type filter is absent or includes the block category, else empty.
pub open spec fn spec_blocks_section(etf: Option<Seq<EventCategory>>) -> Seq<BlocksEntryV> {
    if allows_block(etf) {
        seq![default_blocks_entry()]
    } else {
        Seq::empty()
    }
}

/// The compiled block-metadata section: one default entry when the
/// event-type filter is absent or includes the block category, else empty.
pub open spec fn spec_blocks_meta_section(
    etf: Option<Seq<EventCategory>>,
) -> Seq<BlocksMetaEntryV> {
    if allows_block(etf) {
        seq![default_blocks_meta_entry()]
    } else {
        Seq::empty()
    }
}

/// The commitment level of a compiled request: the caller's, or the
/// weakest level when the caller supplied none.
pub open spec fn spec_commitment(c: Option<CommitmentLevel>) -> CommitmentLevel {
    match c {
        Some(level) => level,
        None => CommitmentLevel::Processed,
    }
}

/// The compiled request for the given filter sequences, optional
/// event-type filter, and optional commitment level. The compilation is a
/// total function of its inputs: it cannot fail, and equal inputs yield
/// equal requests.
pub open spec fn spec_compile(
    accounts: Seq<AccountFilterV>,
    transactions: Seq<TransactionFilterV>,
    etf: Option<Seq<EventCategory>>,
    commitment: Option<CommitmentLevel>,
) -> WireSubscriptionRequestV {
    WireSubscriptionRequestV {
        accounts: spec_accounts_section(accounts, etf),
        transactions: spec_transactions_section(transactions, etf),
        blocks: spec_blocks_section(etf),
        blocks_meta: spec_blocks_meta_section(etf),
        commitment: spec_commitment(commitment),
    }
}

/// Law: an event-type filter that excludes the block category compiles to
/// empty blocks and block-metadata sections, whatever the other inputs.
pub proof fn lemma_block_sections_excluded(
    accounts: Seq<AccountFilterV>,
    transactions: Seq<TransactionFilterV>,
    cats: Seq<EventCategory>,
    commitment: Option<CommitmentLevel>,
)
    requires
        !cats.contains(EventCategory::Block),
    ensures
        spec_compile(accounts, transactions, Some(cats), commitment).blocks.len() == 0,
        spec_compile(accounts, transactions, Some(cats), commitment).blocks_meta.len() == 0,
{
}

/// Law: an absent event-type filter compiles to exactly one default entry
/// in each of the blocks and block-metadata sections.
pub proof fn lemma_block_sections_default(
    accounts: Seq<AccountFilterV>,
    transactions: Seq<TransactionFilterV>,
    commitment: Option<CommitmentLevel>,
)
    ensures
        spec_compile(accounts, transactions, None, commitment).blocks == seq![
            default_blocks_entry(),
        ],
        spec_compile(accounts, transactions, None, commitment).blocks_meta == seq![
            default_blocks_meta_entry(),
        ],
{
}

/// Law: when the event-type filter allows account events and the input is
/// non-empty, the compiled accounts section has exactly one entry per
/// input filter; the `i`-th carries the label `account_<i>`, the `i`-th
/// filter's account, owner, and byte-filter sets verbatim, and no
/// signature constraint.
pub proof fn lemma_accounts_section_verbatim(
    fs: Seq<AccountFilterV>,
    etf: Option<Seq<EventCategory>>,
    i: int,
)
    requires
        allows_account(etf),
        fs.len() > 0,
        0 <= i < fs.len(),
    ensures
        spec_accounts_section(fs, etf).len() == fs.len(),
        spec_accounts_section(fs, etf)[i].label == account_label(i as nat),
        spec_accounts_section(fs, etf)[i].account == fs[i].account,
        spec_accounts_section(fs, etf)[i].owner == fs[i].owner,
        spec_accounts_section(fs, etf)[i].filters == fs[i].filters,
        spec_accounts_section(fs, etf)[i].nonempty_txn_signature is None,
{
}

/// Law: when the event-type filter excludes transaction events, the
/// compiled transactions section is empty regardless of the input filters.
pub proof fn lemma_transactions_section_excluded(
    transactions: Seq<TransactionFilterV>,
    cats: Seq<EventCategory>,
)
    requires
        !cats.contains(EventCategory::Transaction),
    ensures
        spec_transactions_section(transactions, Some(cats)).len() == 0,
{
}

/// Law: two entries of the compiled accounts section at distinct
/// positions carry distinct labels, so the section's keys are unique.
pub proof fn lemma_accounts_labels_unique(
    fs: Seq<AccountFilterV>,
    etf: Option<Seq<EventCategory>>,
    i: int,
    j: int,
)
    requires
        allows_account(etf),
        fs.len() > 0,
        0 <= i < fs.len(),
        0 <= j < fs.len(),
        i != j,
    ensures
        spec_accounts_section(fs, etf)[i].label != spec_accounts_section(fs, etf)[j].label,
{
    if spec_accounts_section(fs, etf)[i].label == spec_accounts_section(fs, etf)[j].label {
        lemma_label_injective("account_"@, i as nat, j as nat);
    }
}

/// Law: two entries of the compiled transactions section at distinct
/// positions carry distinct labels, so the section's keys are unique.
pub proof fn lemma_transactions_labels_unique(
    fs: Seq<TransactionFilterV>,
    etf: Option<Seq<EventCategory>>,
    i: int,
    j: int,
)
    requires
        allows_transaction(etf),
        0 <= i < fs.len(),
        0 <= j < fs.len(),
        i != j,
    ensures
        spec_transactions_section(fs, etf)[i].label != spec_transactions_section(fs, etf)[j].label,
{
    if spec_transactions_section(fs, etf)[i].label == spec_transactions_section(fs, etf)[j].label {
        lemma_label_injective("transaction_"@, i as nat, j as nat);
    }
}

/// Law: compilation is deterministic. Any two requests whose models were
/// compiled from the same inputs are identical, so re-compiling the same
/// filter sequence for an idempotent reconnection yields an identical
/// request.
pub proof fn lemma_compile_deterministic(
    r1: WireSubscriptionRequestV,
    r2: WireSubscriptionRequestV,
    accounts: Seq<AccountFilterV>,
    transactions: Seq<TransactionFilterV>,
    etf: Option<Seq<EventCategory>>,
    commitment: Option<CommitmentLevel>,
)
    requires
        r1 == spec_compile(accounts, transactions, etf, commitment),
        r2 == spec_compile(accounts, transactions, etf, commitment),
    ensures
        r1 == r2,
{
}

} // verus!
