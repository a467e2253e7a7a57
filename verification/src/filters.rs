//! Declarative filter model: what the caller wants to receive.
//!
//! These value types describe per-account filters, per-transaction filters,
//! and an optional filter over domain event categories. They carry plain
//! values only; the request compiler turns them into wire-level sections.

use vstd::prelude::*;

verus! {

/// A recognized domain event category.
#[derive(Clone, Copy, Debug, PartialEq, Eq, Structural)]
pub enum EventCategory {
    /// Account-change events.
    Account,
    /// Transaction events.
    Transaction,
    /// Block and block-metadata events.
    Block,
}

/// A byte-level sub-filter applied to an account's data.
#[derive(Debug, PartialEq)]
pub enum AccountDataFilter {
    /// The account's data must hold the given bytes at the given offset.
    Memcmp { offset: u64, bytes: Vec<u8> },
    /// The account's data must have exactly the given size.
    DataSize(u64),
    /// The account must (or must not) be a token account.
    TokenAccountState(bool),
}

/// Mathematical model of a byte-level sub-filter.
#[verifier::ext_equal]
pub ghost enum AccountDataFilterV {
    Memcmp { offset: u64, bytes: Seq<u8> },
    DataSize(u64),
    TokenAccountState(bool),
}

impl View for AccountDataFilter {
    type V = AccountDataFilterV;

    open spec fn view(&self) -> AccountDataFilterV {
        match self {
            AccountDataFilter::Memcmp { offset, bytes } => AccountDataFilterV::Memcmp {
                offset: *offset,
                bytes: bytes@,
            },
            AccountDataFilter::DataSize(n) => AccountDataFilterV::DataSize(*n),
            AccountDataFilter::TokenAccountState(b) => AccountDataFilterV::TokenAccountState(*b),
        }
    }
}

impl DeepView for AccountDataFilter {
    type V = AccountDataFilterV;

    open spec fn deep_view(&self) -> AccountDataFilterV {
        self.view()
    }
}

/// A declarative filter over account-change updates.
///
/// An empty `account` set with a non-empty `owner` set means "match by
/// owner". The sets are passed through to the wire request verbatim.
#[derive(Clone, Debug, PartialEq)]
pub struct AccountFilter {
    /// Explicit account identifiers to match.
    pub account: Vec<String>,
    /// Owner-program identifiers to match.
    pub owner: Vec<String>,
    /// Byte-level sub-filters on the account's data.
    pub filters: Vec<AccountDataFilter>,
}

/// Mathematical model of an [`AccountFilter`].
#[verifier::ext_equal]
pub ghost struct AccountFilterV {
    pub account: Seq<Seq<char>>,
    pub owner: Seq<Seq<char>>,
    pub filters: Seq<AccountDataFilterV>,
}

impl View for AccountFilter {
    type V = AccountFilterV;

    open spec fn view(&self) -> AccountFilterV {
        AccountFilterV {
            account: self.account.deep_view(),
            owner: self.owner.deep_view(),
            filters: self.filters.deep_view(),
        }
    }
}

impl DeepView for AccountFilter {
    type V = AccountFilterV;

    open spec fn deep_view(&self) -> AccountFilterV {
        self.view()
    }
}

/// A declarative filter over transaction updates, as three identifier sets
/// applied to the set of accounts a transaction touches.
#[derive(Clone, Debug, PartialEq)]
pub struct TransactionFilter {
    /// The transaction must touch at least one of these accounts.
    pub account_include: Vec<String>,
    /// The transaction must touch none of these accounts.
    pub account_exclude: Vec<String>,
    /// The transaction must touch all of these accounts.
    pub account_required: Vec<String>,
}

/// Mathematical model of a [`TransactionFilter`].
#[verifier::ext_equal]
pub ghost struct TransactionFilterV {
    pub account_include: Seq<Seq<char>>,
    pub account_exclude: Seq<Seq<char>>,
    pub account_required: Seq<Seq<char>>,
}

impl View for TransactionFilter {
    type V = TransactionFilterV;

    open spec fn view(&self) -> TransactionFilterV {
        TransactionFilterV {
            account_include: self.account_include.deep_view(),
            account_exclude: self.account_exclude.deep_view(),
            account_required: self.account_required.deep_view(),
        }
    }
}

impl DeepView for TransactionFilter {
    type V = TransactionFilterV;

    open spec fn deep_view(&self) -> TransactionFilterV {
        self.view()
    }
}

/// An optional filter over domain event categories: the caller wants only
/// events whose category is listed. An absent `EventTypeFilter`
/// (an `Option::None` at the call sites) means "decode everything,
/// including block-level events".
#[derive(Clone, Debug, PartialEq)]
pub struct EventTypeFilter {
    /// The event categories the caller wants decoded.
    pub categories: Vec<EventCategory>,
}

impl View for EventTypeFilter {
    type V = Seq<EventCategory>;

    open spec fn view(&self) -> Seq<EventCategory> {
        self.categories@
    }
}

impl DeepView for EventTypeFilter {
    type V = Seq<EventCategory>;

    open spec fn deep_view(&self) -> Seq<EventCategory> {
        self.categories@
    }
}

impl EventTypeFilter {
    /// Whether this filter allows account-change events.
    pub fn include_account_event(&self) -> (r: bool)
        ensures
            r == self@.contains(EventCategory::Account),
    {
        self.contains_category(EventCategory::Account)
    }

    /// Whether this filter allows transaction events.
    pub fn include_transaction_event(&self) -> (r: bool)
        ensures
            r == self@.contains(EventCategory::Transaction),
    {
        self.contains_category(EventCategory::Transaction)
    }

    /// Whether this filter allows block and block-metadata events.
    pub fn include_block_event(&self) -> (r: bool)
        ensures
            r == self@.contains(EventCategory::Block),
    {
        self.contains_category(EventCategory::Block)
    }

    /// Whether `category` is among the included categories.
    pub fn contains_category(&self, category: EventCategory) -> (r: bool)
        ensures
            r == self@.contains(category),
    {
        let mut i: usize = 0;
        while i < self.categories.len()
            invariant
                0 <= i <= self.categories.len(),
                forall|j: int| 0 <= j < i ==> self.categories@[j] != category,
            decreases self.categories.len() - i,
        {
            if self.categories[i] == category {
                assert(self@[i as int] == category);
                return true;
            }
            i = i + 1;
        }
        assert(forall|j: int| 0 <= j < self@.len() ==> self@[j] != category);
        false
    }
}

impl Clone for AccountDataFilter {
    /// Clones the sub-filter; the clone has the same model.
    fn clone(&self) -> (r: Self)
        ensures
            r@ == self@,
    {
        match self {
            AccountDataFilter::Memcmp { offset, bytes } => {
                let cloned_bytes = bytes.clone();
                proof {
                    lemma_cloned_byte_vec(*bytes, cloned_bytes);
                }
                AccountDataFilter::Memcmp { offset: *offset, bytes: cloned_bytes }
            },
            AccountDataFilter::DataSize(n) => AccountDataFilter::DataSize(*n),
            AccountDataFilter::TokenAccountState(b) => AccountDataFilter::TokenAccountState(*b),
        }
    }
}

/// A clone of a byte vector has the same view.
pub proof fn lemma_cloned_byte_vec(a: Vec<u8>, b: Vec<u8>)
    requires
        b.len() == a.len(),
        forall|i: int| #![all_triggers] 0 <= i < a.len() ==> cloned::<u8>(a[i], b[i]),
    ensures
        b@ == a@,
{
    assert forall|i: int| 0 <= i < a.len() implies b@[i] == a@[i] by {
        assert(cloned::<u8>(a[i], b[i]));
    }
    assert(b@ =~= a@);
}

/// A clone of a vector of strings has the same deep view.
pub proof fn lemma_cloned_string_vec(a: Vec<String>, b: Vec<String>)
    requires
        b.len() == a.len(),
        forall|i: int| #![all_triggers] 0 <= i < a.len() ==> cloned::<String>(a[i], b[i]),
    ensures
        b.deep_view() == a.deep_view(),
{
    assert forall|i: int| 0 <= i < a.len() implies b.deep_view()[i] == a.deep_view()[i] by {
        assert(cloned::<String>(a[i], b[i]));
        assert(b[i]@ == a[i]@);
    }
    assert(b.deep_view() =~= a.deep_view());
}

/// A clone of a vector of byte-level sub-filters has the same deep view.
pub proof fn lemma_cloned_filter_vec(a: Vec<AccountDataFilter>, b: Vec<AccountDataFilter>)
    requires
        b.len() == a.len(),
        forall|i: int| #![all_triggers] 0 <= i < a.len() ==> cloned::<AccountDataFilter>(a[i], b[i]),
    ensures
        b.deep_view() == a.deep_view(),
{
    assert forall|i: int| 0 <= i < a.len() implies b.deep_view()[i] == a.deep_view()[i] by {
        assert(cloned::<AccountDataFilter>(a[i], b[i]));
        assert(b[i]@ == a[i]@);
    }
    assert(b.deep_view() =~= a.deep_view());
}

/// The model of an optional event-type filter as seen by the compiler:
/// `None` when the caller supplied none.
pub open spec fn etf_view(etf: Option<&EventTypeFilter>) -> Option<Seq<EventCategory>> {
    match etf {
        Some(f) => Some(f@),
        None => None,
    }
}

/// Whether the (optional) event-type filter allows account events:
/// it is absent, or includes the account category.
pub open spec fn allows_account(etf: Option<Seq<EventCategory>>) -> bool {
    match etf {
        Some(cats) => cats.contains(EventCategory::Account),
        None => true,
    }
}

/// Whether the (optional) event-type filter allows transaction events.
pub open spec fn allows_transaction(etf: Option<Seq<EventCategory>>) -> bool {
    match etf {
        Some(cats) => cats.contains(EventCategory::Transaction),
        None => true,
    }
}

/// Whether the (optional) event-type filter allows block and block-metadata
/// events.
pub open spec fn allows_block(etf: Option<Seq<EventCategory>>) -> bool {
    match etf {
        Some(cats) => cats.contains(EventCategory::Block),
        None => true,
    }
}

} // verus!
