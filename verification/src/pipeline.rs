//! The fetch pipeline: coordination of the four independent resource
//! fetches and the assembly of their results into one [`ResultBundle`].
//!
//! Two modes exist. Sequential mode ([`SequentialFetch`]) asks for one
//! resource at a time in the fixed order account, usage, messages, calls,
//! and stops asking at the first failure. Concurrent mode
//! ([`ConcurrentJoin`]) accepts the four terminal outcomes in any order,
//! one per resource, and decides only once all four have arrived; if any
//! failed it reports the first failing resource in the same fixed order and
//! discards the rest. Both modes yield the same outcome for the same
//! responses ([`lemma_mode_equivalence`]), and neither ever yields a
//! partially populated bundle.
//!
//! The fetches themselves (network, decoding) are external collaborators:
//! the caller performs them and feeds each outcome into a coordinator as a
//! plain `Result`.

use vstd::prelude::*;

use crate::error::{tag_failure, FetchFailure, ReportGenerationError, ResourceKind};
use crate::model::{AccountDetails, CallRecord, MessageRecord, ResultBundle, UsageRecord};

verus! {

/// What one run of the record source and record parser would yield for each
/// of the four resources: the outcome of each fetch, had it been attempted.
#[derive(Debug, PartialEq)]
pub struct FetchResponses {
    pub account: Result<AccountDetails, FetchFailure>,
    pub usage: Result<Vec<UsageRecord>, FetchFailure>,
    pub messages: Result<Vec<MessageRecord>, FetchFailure>,
    pub calls: Result<Vec<CallRecord>, FetchFailure>,
}

/// True when every one of the four fetches succeeded.
pub open spec fn all_succeeded(responses: FetchResponses) -> bool {
    &&& responses.account is Ok
    &&& responses.usage is Ok
    &&& responses.messages is Ok
    &&& responses.calls is Ok
}

/// The bundle assembled from four successful fetches.
pub open spec fn bundle_of(responses: FetchResponses) -> ResultBundle
    recommends
        all_succeeded(responses),
{
    ResultBundle {
        account_details: responses.account->Ok_0,
        usage_records: responses.usage->Ok_0,
        message_records: responses.messages->Ok_0,
        call_records: responses.calls->Ok_0,
    }
}

/// The first failure among the four responses, in the fixed resource order
/// account, usage, messages, calls, already tagged with its resource kind;
/// `None` when every fetch succeeded.
pub open spec fn first_failure(responses: FetchResponses) -> Option<ReportGenerationError> {
    if responses.account is Err {
        Some(tag_failure(ResourceKind::Account, responses.account->Err_0))
    } else if responses.usage is Err {
        Some(tag_failure(ResourceKind::Usage, responses.usage->Err_0))
    } else if responses.messages is Err {
        Some(tag_failure(ResourceKind::Messages, responses.messages->Err_0))
    } else if responses.calls is Err {
        Some(tag_failure(ResourceKind::Calls, responses.calls->Err_0))
    } else {
        None
    }
}

/// The outcome of sequential mode: fetch one resource at a time in the
/// fixed order, short-circuiting on the first failure.
pub open spec fn sequential_outcome(responses: FetchResponses) -> Result<
    ResultBundle,
    ReportGenerationError,
> {
    match responses.account {
        Err(failure) => Err(tag_failure(ResourceKind::Account, failure)),
        Ok(account) => match responses.usage {
            Err(failure) => Err(tag_failure(ResourceKind::Usage, failure)),
            Ok(usage) => match responses.messages {
                Err(failure) => Err(tag_failure(ResourceKind::Messages, failure)),
                Ok(messages) => match responses.calls {
                    Err(failure) => Err(tag_failure(ResourceKind::Calls, failure)),
                    Ok(calls) => Ok(
                        ResultBundle {
                            account_details: account,
                            usage_records: usage,
                            message_records: messages,
                            call_records: calls,
                        },
                    ),
                },
            },
        },
    }
}

/// The outcome of concurrent mode: all four fetches run to completion; the
/// bundle is assembled when all succeeded, and otherwise the first failure
/// in the fixed resource order is reported and every other result is
/// discarded.
pub open spec fn concurrent_outcome(responses: FetchResponses) -> Result<
    ResultBundle,
    ReportGenerationError,
> {
    if all_succeeded(responses) {
        Ok(bundle_of(responses))
    } else {
        Err(first_failure(responses)->Some_0)
    }
}

/// The resources sequential mode actually fetches, in order: the fixed
/// order up to and including the first failing resource, or all four when
/// every fetch succeeds.
pub open spec fn sequential_attempts(responses: FetchResponses) -> Seq<ResourceKind> {
    if responses.account is Err {
        seq![ResourceKind::Account]
    } else if responses.usage is Err {
        seq![ResourceKind::Account, ResourceKind::Usage]
    } else if responses.messages is Err {
        seq![ResourceKind::Account, ResourceKind::Usage, ResourceKind::Messages]
    } else {
        seq![
            ResourceKind::Account,
            ResourceKind::Usage,
            ResourceKind::Messages,
            ResourceKind::Calls,
        ]
    }
}

/// The two fetch modes are observably equivalent: for every backend state,
/// sequential mode and concurrent mode yield the same outcome — the same
/// bundle when all four fetches succeed, and the same tagged first failure
/// otherwise. They differ only in which fetches are attempted.
pub proof fn lemma_mode_equivalence(responses: FetchResponses)
    ensures
        sequential_outcome(responses) == concurrent_outcome(responses),
{
}

/// Sequential mode short-circuits: when a resource fails, no resource after
/// it in the fixed order is attempted, and the outcome identifies the
/// failing resource. Stated here for a failing usage fetch (the second of
/// the four): messages and calls are never attempted.
pub proof fn lemma_sequential_short_circuit(responses: FetchResponses)
    requires
        responses.account is Ok,
        responses.usage is Err,
    ensures
        sequential_outcome(responses) == Err::<ResultBundle, ReportGenerationError>(
            tag_failure(ResourceKind::Usage, responses.usage->Err_0),
        ),
        sequential_attempts(responses) == seq![ResourceKind::Account, ResourceKind::Usage],
        !sequential_attempts(responses).contains(ResourceKind::Messages),
        !sequential_attempts(responses).contains(ResourceKind::Calls),
{
    let attempts = sequential_attempts(responses);
    assert forall|i: int| 0 <= i < attempts.len() implies attempts[i] != ResourceKind::Messages
        && attempts[i] != ResourceKind::Calls by {
        assert(attempts.len() == 2);
    }
}

/// Atomic hand-off: either mode yields a bundle exactly when every one of
/// the four fetches succeeded, and then the bundle carries all four results;
/// any failure yields no bundle at all. The report writer can therefore
/// never observe a partially populated bundle.
pub proof fn lemma_atomic_handoff(responses: FetchResponses)
    ensures
        sequential_outcome(responses) is Ok <==> all_succeeded(responses),
        concurrent_outcome(responses) is Ok <==> all_succeeded(responses),
        sequential_outcome(responses) matches Ok(bundle) ==> bundle == bundle_of(responses),
        concurrent_outcome(responses) matches Ok(bundle) ==> bundle == bundle_of(responses),
{
}

/// The coordinator of sequential mode, one step per resource. It asks for
/// exactly one resource at a time, in the fixed order; feeding it a failed
/// outcome moves it to `Failed` and it asks for nothing further, so the
/// resources after the failing one are never fetched.
#[derive(Debug, PartialEq)]
pub enum SequentialFetch {
    AwaitingAccount,
    AwaitingUsage { account: AccountDetails },
    AwaitingMessages { account: AccountDetails, usage: Vec<UsageRecord> },
    AwaitingCalls {
        account: AccountDetails,
        usage: Vec<UsageRecord>,
        messages: Vec<MessageRecord>,
    },
    Completed { bundle: ResultBundle },
    Failed { error: ReportGenerationError },
}

/// The resource a sequential coordinator asks for next; `None` once it has
/// reached a terminal state.
pub open spec fn pending_request(state: SequentialFetch) -> Option<ResourceKind> {
    match state {
        SequentialFetch::AwaitingAccount => Some(ResourceKind::Account),
        SequentialFetch::AwaitingUsage { .. } => Some(ResourceKind::Usage),
        SequentialFetch::AwaitingMessages { .. } => Some(ResourceKind::Messages),
        SequentialFetch::AwaitingCalls { .. } => Some(ResourceKind::Calls),
        SequentialFetch::Completed { .. } => None,
        SequentialFetch::Failed { .. } => None,
    }
}

impl SequentialFetch {
    /// A fresh sequential coordinator, about to ask for the account.
    pub fn start() -> (r: Self)
        ensures
            r == SequentialFetch::AwaitingAccount,
    {
        SequentialFetch::AwaitingAccount
    }

    /// The resource to fetch next, or `None` when the run is over.
    pub fn next_request(&self) -> (r: Option<ResourceKind>)
        ensures
            r == pending_request(*self),
    {
        match self {
            SequentialFetch::AwaitingAccount => Some(ResourceKind::Account),
            SequentialFetch::AwaitingUsage { .. } => Some(ResourceKind::Usage),
            SequentialFetch::AwaitingMessages { .. } => Some(ResourceKind::Messages),
            SequentialFetch::AwaitingCalls { .. } => Some(ResourceKind::Calls),
            SequentialFetch::Completed { .. } => None,
            SequentialFetch::Failed { .. } => None,
        }
    }

    /// True once the run is over, in success or failure.
    pub fn is_terminal(&self) -> (r: bool)
        ensures
            r == (pending_request(*self) is None),
    {
        match self {
            SequentialFetch::Completed { .. } => true,
            SequentialFetch::Failed { .. } => true,
            _ => false,
        }
    }

    /// Feeds the outcome of the account fetch: success advances to the
    /// usage fetch, failure ends the run with the tagged error.
    pub fn supply_account(self, outcome: Result<AccountDetails, FetchFailure>) -> (r: Self)
        requires
            self is AwaitingAccount,
        ensures
            outcome matches Ok(account) ==> r == (SequentialFetch::AwaitingUsage { account }),
            outcome matches Err(failure) ==> r == (SequentialFetch::Failed {
                error: tag_failure(ResourceKind::Account, failure),
            }),
    {
        match outcome {
            Ok(account) => SequentialFetch::AwaitingUsage { account },
            Err(failure) => SequentialFetch::Failed {
                error: ReportGenerationError::from_failure(ResourceKind::Account, failure),
            },
        }
    }

    /// Feeds the outcome of the usage fetch.
    pub fn supply_usage(self, outcome: Result<Vec<UsageRecord>, FetchFailure>) -> (r: Self)
        requires
            self is AwaitingUsage,
        ensures
            outcome matches Ok(usage) ==> r == (SequentialFetch::AwaitingMessages {
                account: self->AwaitingUsage_account,
                usage,
            }),
            outcome matches Err(failure) ==> r == (SequentialFetch::Failed {
                error: tag_failure(ResourceKind::Usage, failure),
            }),
    {
        match self {
            SequentialFetch::AwaitingUsage { account } => match outcome {
                Ok(usage) => SequentialFetch::AwaitingMessages { account, usage },
                Err(failure) => SequentialFetch::Failed {
                    error: ReportGenerationError::from_failure(ResourceKind::Usage, failure),
                },
            },
            _ => self,
        }
    }

    /// Feeds the outcome of the messages fetch.
    pub fn supply_messages(self, outcome: Result<Vec<MessageRecord>, FetchFailure>) -> (r: Self)
        requires
            self is AwaitingMessages,
        ensures
            outcome matches Ok(messages) ==> r == (SequentialFetch::AwaitingCalls {
                account: self->AwaitingMessages_account,
                usage: self->AwaitingMessages_usage,
                messages,
            }),
            outcome matches Err(failure) ==> r == (SequentialFetch::Failed {
                error: tag_failure(ResourceKind::Messages, failure),
            }),
    {
        match self {
            SequentialFetch::AwaitingMessages { account, usage } => match outcome {
                Ok(messages) => SequentialFetch::AwaitingCalls { account, usage, messages },
                Err(failure) => SequentialFetch::Failed {
                    error: ReportGenerationError::from_failure(ResourceKind::Messages, failure),
                },
            },
            _ => self,
        }
    }

    /// Feeds the outcome of the calls fetch: success completes the bundle,
    /// failure ends the run with the tagged error.
    pub fn supply_calls(self, outcome: Result<Vec<CallRecord>, FetchFailure>) -> (r: Self)
        requires
            self is AwaitingCalls,
        ensures
            outcome matches Ok(calls) ==> r == (SequentialFetch::Completed {
                bundle: ResultBundle {
                    account_details: self->AwaitingCalls_account,
                    usage_records: self->AwaitingCalls_usage,
                    message_records: self->AwaitingCalls_messages,
                    call_records: calls,
                },
            }),
            outcome matches Err(failure) ==> r == (SequentialFetch::Failed {
                error: tag_failure(ResourceKind::Calls, failure),
            }),
    {
        match self {
            SequentialFetch::AwaitingCalls { account, usage, messages } => match outcome {
                Ok(calls) => SequentialFetch::Completed {
                    bundle: ResultBundle {
                        account_details: account,
                        usage_records: usage,
                        message_records: messages,
                        call_records: calls,
                    },
                },
                Err(failure) => SequentialFetch::Failed {
                    error: ReportGenerationError::from_failure(ResourceKind::Calls, failure),
                },
            },
            _ => self,
        }
    }

    /// The outcome of a finished run: the fully populated bundle, or the
    /// first (and only observed) failure.
    pub fn into_result(self) -> (r: Result<ResultBundle, ReportGenerationError>)
        requires
            pending_request(self) is None,
        ensures
            self matches SequentialFetch::Completed { bundle } ==> r == Ok::<
                ResultBundle,
                ReportGenerationError,
            >(bundle),
            self matches SequentialFetch::Failed { error } ==> r == Err::<
                ResultBundle,
                ReportGenerationError,
            >(error),
    {
        match self {
            SequentialFetch::Completed { bundle } => Ok(bundle),
            SequentialFetch::Failed { error } => Err(error),
            _ => unreached(),
        }
    }
}

/// Runs the whole sequential protocol against the given responses: each
/// resource is consumed in the fixed order until the first failure, and no
/// response after the failing one is touched. Returns the outcome and the
/// resources attempted, in order.
pub fn generate_report_synchronously(responses: FetchResponses) -> (r: (
    Result<ResultBundle, ReportGenerationError>,
    Vec<ResourceKind>,
))
    ensures
        r.0 == sequential_outcome(responses),
        r.1@ == sequential_attempts(responses),
        r.0 is Ok <==> all_succeeded(responses),
        r.0 matches Ok(bundle) ==> bundle == bundle_of(responses),
{
    let FetchResponses { account, usage, messages, calls } = responses;
    let mut attempts: Vec<ResourceKind> = Vec::new();
    let mut machine = SequentialFetch::start();

    attempts.push(ResourceKind::Account);
    machine = machine.supply_account(account);

    if !machine.is_terminal() {
        attempts.push(ResourceKind::Usage);
        machine = machine.supply_usage(usage);
    }
    if !machine.is_terminal() {
        attempts.push(ResourceKind::Messages);
        machine = machine.supply_messages(messages);
    }
    if !machine.is_terminal() {
        attempts.push(ResourceKind::Calls);
        machine = machine.supply_calls(calls);
    }
    proof {
        assert(attempts@ =~= sequential_attempts(responses));
    }
    (machine.into_result(), attempts)
}

/// The coordinator of concurrent mode: one slot per resource, each written
/// exactly once with its task's terminal outcome, in any order. No decision
/// is reachable until every slot is filled — the join barrier — and the
/// decision discards every other result if any task failed.
#[derive(Debug, PartialEq)]
pub struct ConcurrentJoin {
    pub account: Option<Result<AccountDetails, FetchFailure>>,
    pub usage: Option<Result<Vec<UsageRecord>, FetchFailure>>,
    pub messages: Option<Result<Vec<MessageRecord>, FetchFailure>>,
    pub calls: Option<Result<Vec<CallRecord>, FetchFailure>>,
}

/// True when every one of the four tasks has reached a terminal state and
/// its outcome has been recorded.
pub open spec fn all_terminal(join: ConcurrentJoin) -> bool {
    &&& join.account is Some
    &&& join.usage is Some
    &&& join.messages is Some
    &&& join.calls is Some
}

/// The four recorded outcomes, once all tasks are terminal.
pub open spec fn joined_responses(join: ConcurrentJoin) -> FetchResponses
    recommends
        all_terminal(join),
{
    FetchResponses {
        account: join.account->Some_0,
        usage: join.usage->Some_0,
        messages: join.messages->Some_0,
        calls: join.calls->Some_0,
    }
}

impl ConcurrentJoin {
    /// A fresh coordinator: no task has completed, every slot is empty.
    pub fn new() -> (r: Self)
        ensures
            r.account is None,
            r.usage is None,
            r.messages is None,
            r.calls is None,
    {
        ConcurrentJoin { account: None, usage: None, messages: None, calls: None }
    }

    /// Records the terminal outcome of the account task. Its slot has a
    /// single writer: recording twice is impossible.
    pub fn record_account(self, outcome: Result<AccountDetails, FetchFailure>) -> (r: Self)
        requires
            self.account is None,
        ensures
            r == (ConcurrentJoin { account: Some(outcome), ..self }),
    {
        ConcurrentJoin { account: Some(outcome), ..self }
    }

    /// Records the terminal outcome of the usage task.
    pub fn record_usage(self, outcome: Result<Vec<UsageRecord>, FetchFailure>) -> (r: Self)
        requires
            self.usage is None,
        ensures
            r == (ConcurrentJoin { usage: Some(outcome), ..self }),
    {
        ConcurrentJoin { usage: Some(outcome), ..self }
    }

    /// Records the terminal outcome of the messages task.
    pub fn record_messages(self, outcome: Result<Vec<MessageRecord>, FetchFailure>) -> (r: Self)
        requires
            self.messages is None,
        ensures
            r == (ConcurrentJoin { messages: Some(outcome), ..self }),
    {
        ConcurrentJoin { messages: Some(outcome), ..self }
    }

    /// Records the terminal outcome of the calls task.
    pub fn record_calls(self, outcome: Result<Vec<CallRecord>, FetchFailure>) -> (r: Self)
        requires
            self.calls is None,
        ensures
            r == (ConcurrentJoin { calls: Some(outcome), ..self }),
    {
        ConcurrentJoin { calls: Some(outcome), ..self }
    }

    /// True once every task's outcome has been recorded; only then may the
    /// coordinator decide.
    pub fn all_complete(&self) -> (r: bool)
        ensures
            r == all_terminal(*self),
    {
        match (&self.account, &self.usage, &self.messages, &self.calls) {
            (Some(_), Some(_), Some(_), Some(_)) => true,
            _ => false,
        }
    }

    /// Decides the run after the join barrier: the fully populated bundle
    /// when every task succeeded, otherwise the first failure in the fixed
    /// resource order, every other result discarded. Callable only once all
    /// four outcomes are recorded, so the report writer can never observe a
    /// partial bundle.
    pub fn conclude(self) -> (r: Result<ResultBundle, ReportGenerationError>)
        requires
            all_terminal(self),
        ensures
            r == concurrent_outcome(joined_responses(self)),
            r is Ok <==> all_succeeded(joined_responses(self)),
            r matches Ok(bundle) ==> bundle == bundle_of(joined_responses(self)),
    {
        let ConcurrentJoin { account, usage, messages, calls } = self;
        let (account, usage, messages, calls) = match (account, usage, messages, calls) {
            (Some(account), Some(usage), Some(messages), Some(calls)) => (
                account,
                usage,
                messages,
                calls,
            ),
            _ => {
                unreached()
            },
        };
        match (account, usage, messages, calls) {
            (Ok(account), Ok(usage), Ok(messages), Ok(calls)) => Ok(
                ResultBundle {
                    account_details: account,
                    usage_records: usage,
                    message_records: messages,
                    call_records: calls,
                },
            ),
            (Err(failure), _, _, _) => Err(
                ReportGenerationError::from_failure(ResourceKind::Account, failure),
            ),
            (_, Err(failure), _, _) => Err(
                ReportGenerationError::from_failure(ResourceKind::Usage, failure),
            ),
            (_, _, Err(failure), _) => Err(
                ReportGenerationError::from_failure(ResourceKind::Messages, failure),
            ),
            (_, _, _, Err(failure)) => Err(
                ReportGenerationError::from_failure(ResourceKind::Calls, failure),
            ),
        }
    }
}

} // verus!
