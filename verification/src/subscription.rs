//! What a session subscribes to, and the requests it writes to the feed.

use crate::text::copy_texts;
use vstd::prelude::*;

verus! {

/// How settled the feed's view of a transaction must be before it is delivered.
#[derive(Clone, Copy, Debug, PartialEq, Eq, Structural)]
pub enum Commitment {
    /// Least durable: processed by the node.
    Processed,
    /// Voted on by a supermajority.
    Confirmed,
    /// Most durable: rooted.
    Finalized,
}

impl Commitment {
    /// The number that stands for this level on the wire.
    pub open spec fn wire_value_spec(self) -> i32 {
        match self {
            Commitment::Processed => 0,
            Commitment::Confirmed => 1,
            Commitment::Finalized => 2,
        }
    }

    /// The number that stands for this level on the wire.
    pub fn wire_value(self) -> (value: i32)
        ensures
            value == self.wire_value_spec(),
    {
        match self {
            Commitment::Processed => 0,
            Commitment::Confirmed => 1,
            Commitment::Finalized => 2,
        }
    }

    /// The level asked for, or the most durable one where none was.
    pub fn or_default(chosen: Option<Commitment>) -> (level: Commitment)
        ensures
            level == match chosen {
                Some(given) => given,
                None => Commitment::Finalized,
            },
    {
        match chosen {
            Some(given) => given,
            None => Commitment::Finalized,
        }
    }
}

impl Default for Commitment {
    fn default() -> (level: Commitment)
        ensures
            level == Commitment::Finalized,
    {
        Commitment::Finalized
    }
}

/// The configuration of one subscription. Made once, never changed.
#[derive(Clone, Debug, PartialEq, Eq)]
pub struct SubscriptionSpec {
    /// Only transactions that mention one of these accounts are delivered.
    pub accounts: Vec<String>,
    /// How settled a transaction must be.
    pub commitment: Commitment,
}

/// The mathematical content of a [`SubscriptionSpec`].
pub struct SubscriptionView {
    pub accounts: Seq<Seq<char>>,
    pub commitment: Commitment,
}

impl View for SubscriptionSpec {
    type V = SubscriptionView;

    open spec fn view(&self) -> SubscriptionView {
        SubscriptionView { accounts: self.accounts.deep_view(), commitment: self.commitment }
    }
}

impl SubscriptionSpec {
    /// A subscription to the transactions of `accounts`, at the level asked
    /// for or at the most durable one.
    pub fn new(accounts: Vec<String>, commitment: Option<Commitment>) -> (spec: SubscriptionSpec)
        ensures
            spec@.accounts == accounts.deep_view(),
            spec@.commitment == match commitment {
                Some(given) => given,
                None => Commitment::Finalized,
            },
    {
        SubscriptionSpec { accounts, commitment: Commitment::or_default(commitment) }
    }

    /// A copy of this subscription.
    pub fn duplicate(&self) -> (copy: SubscriptionSpec)
        ensures
            copy@ == self@,
    {
        SubscriptionSpec { accounts: copy_texts(&self.accounts), commitment: self.commitment }
    }
}

/// Which transactions a subscription selects.
#[derive(Clone, Debug, PartialEq, Eq)]
pub struct TransactionFilter {
    /// Whether vote transactions are wanted.
    pub vote: Option<bool>,
    /// Whether failed transactions are wanted.
    pub failed: Option<bool>,
    /// A single signature to watch.
    pub signature: Option<String>,
    /// Accounts of which one must be mentioned.
    pub account_include: Vec<String>,
    /// Accounts of which none may be mentioned.
    pub account_exclude: Vec<String>,
    /// Accounts that must all be mentioned.
    pub account_required: Vec<String>,
}

/// The mathematical content of a [`TransactionFilter`].
pub struct FilterView {
    pub vote: Option<bool>,
    pub failed: Option<bool>,
    pub signature: Option<Seq<char>>,
    pub account_include: Seq<Seq<char>>,
    pub account_exclude: Seq<Seq<char>>,
    pub account_required: Seq<Seq<char>>,
}

impl View for TransactionFilter {
    type V = FilterView;

    open spec fn view(&self) -> FilterView {
        FilterView {
            vote: self.vote,
            failed: self.failed,
            signature: match self.signature {
                Some(text) => Some(text@),
                None => None,
            },
            account_include: self.account_include.deep_view(),
            account_exclude: self.account_exclude.deep_view(),
            account_required: self.account_required.deep_view(),
        }
    }
}

/// A request written to the outbound side of the stream.
#[derive(Clone, Debug, PartialEq, Eq)]
pub enum OutboundRequest {
    /// Opens the subscription.
    Subscribe {
        /// The name under which the feed reports matches of the filter.
        filter_name: String,
        /// The transactions to deliver.
        filter: TransactionFilter,
        /// The commitment level, as its wire number.
        commitment: i32,
    },
    /// Answers a ping of the feed.
    Ping {
        /// The identifier that the answer carries.
        id: i32,
    },
}

/// The mathematical content of an [`OutboundRequest`].
pub enum RequestView {
    Subscribe { filter_name: Seq<char>, filter: FilterView, commitment: i32 },
    Ping { id: i32 },
}

impl View for OutboundRequest {
    type V = RequestView;

    open spec fn view(&self) -> RequestView {
        match self {
            OutboundRequest::Subscribe { filter_name, filter, commitment } => RequestView::Subscribe {
                filter_name: filter_name@,
                filter: filter@,
                commitment: *commitment,
            },
            OutboundRequest::Ping { id } => RequestView::Ping { id: *id },
        }
    }
}

/// The identifier carried by every answer to a ping.
pub const PING_ID: i32 = 1;

/// The name of the one filter that a subscription registers.
pub open spec fn filter_name() -> Seq<char> {
    "client"@
}

/// The request that opens the subscription described by `spec`.
///
/// It registers one filter: transactions that are neither votes nor failed
/// and that mention one of the accounts of `spec`.
pub open spec fn subscribe_request_of(spec: SubscriptionView) -> RequestView {
    RequestView::Subscribe {
        filter_name: filter_name(),
        filter: FilterView {
            vote: Some(false),
            failed: Some(false),
            signature: None,
            account_include: spec.accounts,
            account_exclude: Seq::empty(),
            account_required: Seq::empty(),
        },
        commitment: spec.commitment.wire_value_spec(),
    }
}

/// The answer to a ping.
pub open spec fn pong_request_of() -> RequestView {
    RequestView::Ping { id: PING_ID }
}

/// Builds the request that opens the subscription described by `spec`.
pub fn subscribe_request(spec: &SubscriptionSpec) -> (request: OutboundRequest)
    ensures
        request@ == subscribe_request_of(spec@),
{
    let filter = TransactionFilter {
        vote: Some(false),
        failed: Some(false),
        signature: None,
        account_include: copy_texts(&spec.accounts),
        account_exclude: Vec::new(),
        account_required: Vec::new(),
    };
    let request = OutboundRequest::Subscribe {
        filter_name: "client".to_owned(),
        filter,
        commitment: spec.commitment.wire_value(),
    };
    assert(filter.account_exclude.deep_view() =~= Seq::empty());
    assert(filter.account_required.deep_view() =~= Seq::empty());
    request
}

/// Builds the answer to a ping of the feed.
pub fn pong_request() -> (request: OutboundRequest)
    ensures
        request@ == pong_request_of(),
{
    OutboundRequest::Ping { id: PING_ID }
}

impl OutboundRequest {
    /// A copy of this request.
    pub fn duplicate(&self) -> (copy: OutboundRequest)
        ensures
            copy@ == self@,
    {
        match self {
            OutboundRequest::Subscribe { filter_name, filter, commitment } => {
                let signature = match &filter.signature {
                    Some(text) => Some(text.clone()),
                    None => None,
                };
                OutboundRequest::Subscribe {
                    filter_name: filter_name.clone(),
                    filter: TransactionFilter {
                        vote: filter.vote,
                        failed: filter.failed,
                        signature,
                        account_include: copy_texts(&filter.account_include),
                        account_exclude: copy_texts(&filter.account_exclude),
                        account_required: copy_texts(&filter.account_required),
                    },
                    commitment: *commitment,
                }
            },
            OutboundRequest::Ping { id } => OutboundRequest::Ping { id: *id },
        }
    }
}

} // verus!
