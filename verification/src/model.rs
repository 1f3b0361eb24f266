//! The four record shapes fetched from the provider, and the bundle that
//! groups one result of each kind.
//!
//! Every entity is an immutable snapshot once constructed. Optional fields
//! (`usage_unit` on a usage record, `price` on message and call records) are
//! absent for some records; rendering turns an absent field into an empty
//! cell, never an error.

use vstd::prelude::*;

verus! {

/// Details of the account the report is about. Exactly one instance per
/// fetch, or the explicit empty sentinel from [`AccountDetails::empty`]
/// before population.
#[derive(Debug, Clone, PartialEq)]
pub struct AccountDetails {
    pub friendly_name: String,
    pub sid: String,
    pub date_created: String,
    pub status: String,
    pub account_type: String,
}

impl AccountDetails {
    /// The empty sentinel: every field is the empty string.
    pub fn empty() -> (r: Self)
        ensures
            r.friendly_name@ == Seq::<char>::empty(),
            r.sid@ == Seq::<char>::empty(),
            r.date_created@ == Seq::<char>::empty(),
            r.status@ == Seq::<char>::empty(),
            r.account_type@ == Seq::<char>::empty(),
    {
        AccountDetails {
            friendly_name: String::new(),
            sid: String::new(),
            date_created: String::new(),
            status: String::new(),
            account_type: String::new(),
        }
    }
}

/// One line of the account's usage summary. The usage unit is absent for
/// some categories.
#[derive(Debug, Clone, PartialEq)]
pub struct UsageRecord {
    pub account_sid: String,
    pub category: String,
    pub description: String,
    pub usage_unit: Option<String>,
    pub usage: String,
    pub price: String,
}

/// One message sent or received by the account. The price is absent while
/// it has not yet been computed.
#[derive(Debug, Clone, PartialEq)]
pub struct MessageRecord {
    pub sid: String,
    pub account_sid: String,
    pub date_created: String,
    pub date_sent: String,
    pub from: String,
    pub to: String,
    pub status: String,
    pub num_segments: String,
    pub num_media: String,
    pub price: Option<String>,
}

/// One call made or received by the account. The price is absent while it
/// has not yet been computed.
#[derive(Debug, Clone, PartialEq)]
pub struct CallRecord {
    pub sid: String,
    pub account_sid: String,
    pub date_created: String,
    pub from: String,
    pub to: String,
    pub status: String,
    pub start_time: String,
    pub end_time: String,
    pub price: Option<String>,
}

/// The complete, consistent result of one fetch run: all four resources,
/// fully populated. This is the only shape ever handed to the report
/// writer — a bundle either holds every result or it does not exist.
#[derive(Debug, Clone, PartialEq)]
pub struct ResultBundle {
    pub account_details: AccountDetails,
    pub usage_records: Vec<UsageRecord>,
    pub message_records: Vec<MessageRecord>,
    pub call_records: Vec<CallRecord>,
}

} // verus!
