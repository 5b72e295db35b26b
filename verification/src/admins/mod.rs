//! Topic administration: what a description of a topic means, and the
//! steps of creating a topic only where it does not exist yet.

pub mod rdkafka_impl;

use vstd::prelude::*;
use crate::messages::kafka_message::{same_text, KafkaError, Text};

verus! {

/// What a resource of the broker is.
#[derive(Debug, Clone, PartialEq, Eq)]
pub enum ResourceSpecifier {
    /// The topic of this name.
    Topic(String),
    /// Anything that is no topic.
    Other,
}

/// What the broker said of one resource that it was asked to describe.
#[derive(Debug, Clone, PartialEq, Eq)]
pub enum DescribeResult {
    /// The resource, and how many configuration entries it has.
    Described { specifier: ResourceSpecifier, entries: usize },
    /// The broker could not describe the resource; the text is its code.
    Failed(String),
}

/// What came of a request to describe resources.
#[derive(Debug, Clone, PartialEq, Eq)]
pub enum DescribeResponse {
    /// One result for each resource.
    Results(Vec<DescribeResult>),
    /// The request as a whole failed; the text is the diagnostic.
    Failed(String),
}

/// The result says that the topic of this name has a configuration.
pub open spec fn describes_topic(result: DescribeResult, topic: Text) -> bool {
    result matches DescribeResult::Described { specifier: ResourceSpecifier::Topic(name), entries }
        && name@ == topic && entries > 0
}

/// Some result says that the topic has a configuration.
pub open spec fn some_result_describes(results: Seq<DescribeResult>, topic: Text) -> bool {
    exists|i: int| 0 <= i < results.len() && describes_topic(#[trigger] results[i], topic)
}

/// No result is a failure.
pub open spec fn all_results_succeeded(results: Seq<DescribeResult>) -> bool {
    forall|i: int| 0 <= i < results.len() ==> (#[trigger] results[i]) is Described
}

/// The topic exists: the broker answered, and some result holds a
/// configuration that is not empty under exactly this name. A request
/// that failed says that the topic does not exist.
pub open spec fn topic_exists(response: DescribeResponse, topic: Text) -> bool {
    match response {
        DescribeResponse::Results(results) => some_result_describes(results@, topic),
        DescribeResponse::Failed(_) => false,
    }
}

/// The topic is live: it exists, and no result of the answer is a failure.
pub open spec fn topic_is_live(response: DescribeResponse, topic: Text) -> bool {
    match response {
        DescribeResponse::Results(results) => all_results_succeeded(results@)
            && some_result_describes(results@, topic),
        DescribeResponse::Failed(_) => false,
    }
}

/// Whether one result says that the topic has a configuration.
fn result_describes(result: &DescribeResult, topic: &str) -> (found: bool)
    ensures
        found == describes_topic(*result, topic@),
{
    match result {
        DescribeResult::Described { specifier, entries } => match specifier {
            ResourceSpecifier::Topic(name) => same_text(name.as_str(), topic) && *entries > 0,
            ResourceSpecifier::Other => false,
        },
        DescribeResult::Failed(_) => false,
    }
}

/// Whether the topic exists, given the broker's answer to a request to
/// describe it.
pub fn verify_topic_existence(response: &DescribeResponse, topic: &str) -> (exists: bool)
    ensures
        exists == topic_exists(*response, topic@),
{
    match response {
        DescribeResponse::Failed(_) => false,
        DescribeResponse::Results(results) => {
            let mut index: usize = 0;
            while index < results.len()
                invariant
                    index <= results.len(),
                    *response == DescribeResponse::Results(*results),
                    forall|i: int| 0 <= i < index ==> !describes_topic(#[trigger] results@[i], topic@),
                decreases results.len() - index,
            {
                if result_describes(&results[index], topic) {
                    assert(describes_topic(results@[index as int], topic@));
                    return true;
                }
                index = index + 1;
            }
            false
        },
    }
}

/// Whether the topic is live, given the broker's answer to a request to
/// describe it.
pub fn check_topic_liveness(response: &DescribeResponse, topic: &str) -> (live: bool)
    ensures
        live == topic_is_live(*response, topic@),
{
    match response {
        DescribeResponse::Failed(_) => false,
        DescribeResponse::Results(results) => {
            let mut found = false;
            let mut index: usize = 0;
            while index < results.len()
                invariant
                    index <= results.len(),
                    *response == DescribeResponse::Results(*results),
                    forall|i: int| 0 <= i < index ==> (#[trigger] results@[i]) is Described,
                    found == some_result_describes(results@.take(index as int), topic@),
                decreases results.len() - index,
            {
                let ghost seen = results@.take(index as int);
                let ghost next = results@.take(index + 1);
                match &results[index] {
                    DescribeResult::Failed(_) => {
                        assert(!(results@[index as int] is Described));
                        return false;
                    },
                    DescribeResult::Described { .. } => {},
                }
                let here = result_describes(&results[index], topic);
                proof {
                    if some_result_describes(seen, topic@) {
                        let i = choose|i: int|
                            0 <= i < seen.len() && describes_topic(#[trigger] seen[i], topic@);
                        assert(describes_topic(next[i], topic@));
                    }
                    if here {
                        assert(describes_topic(next[index as int], topic@));
                    }
                    if some_result_describes(next, topic@) {
                        let i = choose|i: int|
                            0 <= i < next.len() && describes_topic(#[trigger] next[i], topic@);
                        if i < index {
                            assert(describes_topic(seen[i], topic@));
                        }
                    }
                }
                found = found || here;
                index = index + 1;
            }
            assert(results@.take(index as int) =~= results@);
            found
        },
    }
}

/// A topic to create: its name, the number of its partitions, and the
/// fixed number of replicas of each.
#[derive(Debug, Clone, PartialEq, Eq)]
pub struct NewTopic {
    pub name: String,
    pub partitions: i32,
    pub replication_factor: i32,
}

/// What the broker said of one topic that it was asked to create.
#[derive(Debug, Clone, PartialEq, Eq)]
pub enum CreateResult {
    /// The topic of this name was created.
    Created(String),
    /// The topic was not created; `code` is the broker's reason.
    Failed { topic: String, code: String },
}

/// What came of a request to create topics.
#[derive(Debug, Clone, PartialEq, Eq)]
pub enum CreateResponse {
    /// One result for each topic.
    Results(Vec<CreateResult>),
    /// The request as a whole failed; the text is the diagnostic.
    Failed(String),
}

/// The time, in milliseconds, that the broker is given for a request that
/// belongs to the creation of a topic.
pub const PROVISIONING_TIMEOUT_MS: u64 = 1000;

/// Where the creation of a topic stands.
#[derive(Debug, PartialEq, Eq)]
pub enum ProvisioningState {
    /// The broker is being asked whether the topic exists.
    Checking(NewTopic),
    /// The broker is being asked to create the topic.
    Creating,
    /// Nothing is left to do.
    Finished,
}

/// What the broker answered.
#[derive(Debug, PartialEq, Eq)]
pub enum AdminEvent {
    Described(DescribeResponse),
    Created(CreateResponse),
}

/// What is to be asked of the broker, or how it all ended.
#[derive(Debug, PartialEq, Eq)]
pub enum AdminAction {
    /// Describe the configuration of this topic.
    Describe { topic: String, request_timeout_ms: u64 },
    /// Create this topic.
    Create { topic: NewTopic, request_timeout_ms: u64, operation_timeout_ms: u64 },
    /// Report this outcome to the caller.
    Finish(Result<(), KafkaError>),
    /// Nothing new: the event did not belong to the current state.
    Nothing,
}

/// The outcome of one step of the creation of a topic.
#[derive(Debug, PartialEq, Eq)]
pub struct ProvisioningStep {
    pub state: ProvisioningState,
    pub action: AdminAction,
}

/// `index` is the first result that is a failure.
pub open spec fn is_first_failure(results: Seq<CreateResult>, index: int) -> bool {
    &&& 0 <= index < results.len()
    &&& results[index] is Failed
    &&& forall|earlier: int| 0 <= earlier < index ==> (#[trigger] results[earlier]) is Created
}

/// What an answer to a creation request means for the caller: a request
/// that failed, or the first topic that was not created, is the error.
pub open spec fn creation_settled(response: CreateResponse, res: Result<(), KafkaError>) -> bool {
    match response {
        CreateResponse::Failed(diagnostic) => res == Err::<(), KafkaError>(
            KafkaError::Broker(diagnostic),
        ),
        CreateResponse::Results(results) => match res {
            Ok(()) => forall|i: int| 0 <= i < results@.len() ==> (#[trigger] results@[i]) is Created,
            Err(error) => exists|i: int|
                #![trigger results@[i]]
                is_first_failure(results@, i) && error == KafkaError::Broker(
                    results@[i]->Failed_code,
                ),
        },
    }
}

/// The outcome of a creation request, given the broker's answer.
pub fn creation_outcome(response: CreateResponse) -> (res: Result<(), KafkaError>)
    ensures
        creation_settled(response, res),
{
    match response {
        CreateResponse::Failed(diagnostic) => Err(KafkaError::Broker(diagnostic)),
        CreateResponse::Results(results) => {
            let ghost all = results@;
            let mut index: usize = 0;
            while index < results.len()
                invariant
                    index <= results.len(),
                    results@ == all,
                    response == CreateResponse::Results(results),
                    forall|earlier: int| 0 <= earlier < index ==> (#[trigger] all[earlier]) is Created,
                decreases results.len() - index,
            {
                match &results[index] {
                    CreateResult::Failed { topic: _, code } => {
                        let reason = code.clone();
                        assert(is_first_failure(all, index as int));
                        assert(all[index as int]->Failed_code == reason);
                        return Err(KafkaError::Broker(reason));
                    },
                    CreateResult::Created(_) => {},
                }
                index = index + 1;
            }
            Ok(())
        },
    }
}

/// The first step of creating a topic only where it does not exist: the
/// broker is asked to describe it.
pub fn create_topic_if_not_exists(topic: &str, partitions: i32, replication_factor: i32) -> (step:
    ProvisioningStep)
    ensures
        step.state matches ProvisioningState::Checking(wanted) && wanted.name@ == topic@
            && wanted.partitions == partitions && wanted.replication_factor == replication_factor,
        step.action matches AdminAction::Describe { topic: described, request_timeout_ms }
            && described@ == topic@ && request_timeout_ms == PROVISIONING_TIMEOUT_MS,
{
    ProvisioningStep {
        state: ProvisioningState::Checking(
            NewTopic { name: topic.to_owned(), partitions, replication_factor },
        ),
        action: AdminAction::Describe {
            topic: topic.to_owned(),
            request_timeout_ms: PROVISIONING_TIMEOUT_MS,
        },
    }
}

/// What a step of the creation of a topic leads to. A topic that exists
/// is not created again; one that does not is created once, as asked for;
/// the answer to the creation is the outcome.
pub open spec fn provisioning_moves(
    state: ProvisioningState,
    event: AdminEvent,
    step: ProvisioningStep,
) -> bool {
    match (state, event) {
        (ProvisioningState::Checking(wanted), AdminEvent::Described(response)) => if topic_exists(
            response,
            wanted.name@,
        ) {
            step == (ProvisioningStep {
                state: ProvisioningState::Finished,
                action: AdminAction::Finish(Ok(())),
            })
        } else {
            step == (ProvisioningStep {
                state: ProvisioningState::Creating,
                action: AdminAction::Create {
                    topic: wanted,
                    request_timeout_ms: PROVISIONING_TIMEOUT_MS,
                    operation_timeout_ms: PROVISIONING_TIMEOUT_MS,
                },
            })
        },
        (ProvisioningState::Creating, AdminEvent::Created(response)) => {
            &&& step.state == ProvisioningState::Finished
            &&& step.action matches AdminAction::Finish(res) && creation_settled(response, res)
        },
        (state, _) => step == (ProvisioningStep { state, action: AdminAction::Nothing }),
    }
}

/// Takes the next step of the creation of a topic, given the broker's
/// answer to the last request.
pub fn provisioning_step(state: ProvisioningState, event: AdminEvent) -> (step: ProvisioningStep)
    ensures
        provisioning_moves(state, event, step),
{
    match (state, event) {
        (ProvisioningState::Checking(wanted), AdminEvent::Described(response)) => {
            if verify_topic_existence(&response, wanted.name.as_str()) {
                ProvisioningStep {
                    state: ProvisioningState::Finished,
                    action: AdminAction::Finish(Ok(())),
                }
            } else {
                ProvisioningStep {
                    state: ProvisioningState::Creating,
                    action: AdminAction::Create {
                        topic: wanted,
                        request_timeout_ms: PROVISIONING_TIMEOUT_MS,
                        operation_timeout_ms: PROVISIONING_TIMEOUT_MS,
                    },
                }
            }
        },
        (ProvisioningState::Creating, AdminEvent::Created(response)) => ProvisioningStep {
            state: ProvisioningState::Finished,
            action: AdminAction::Finish(creation_outcome(response)),
        },
        (state, _) => ProvisioningStep { state, action: AdminAction::Nothing },
    }
}

/// Creating a topic twice in a row creates it once. Where the first run
/// found the topic absent and created it, and the broker then reports it
/// as existing, the first run asked for exactly one creation and the
/// second run asks for none: it ends with the answer to its check.
pub proof fn lemma_second_creation_is_no_op(
    wanted: NewTopic,
    first_check: DescribeResponse,
    creation: CreateResponse,
    second_check: DescribeResponse,
    first_checked: ProvisioningStep,
    first_created: ProvisioningStep,
    second_checked: ProvisioningStep,
)
    requires
        !topic_exists(first_check, wanted.name@),
        topic_exists(second_check, wanted.name@),
        provisioning_moves(
            ProvisioningState::Checking(wanted),
            AdminEvent::Described(first_check),
            first_checked,
        ),
        provisioning_moves(first_checked.state, AdminEvent::Created(creation), first_created),
        provisioning_moves(
            ProvisioningState::Checking(wanted),
            AdminEvent::Described(second_check),
            second_checked,
        ),
    ensures
        first_checked.action matches AdminAction::Create { topic, .. } && topic == wanted,
        !(first_created.action is Create),
        first_created.state == ProvisioningState::Finished,
        second_checked.state == ProvisioningState::Finished,
        second_checked.action == AdminAction::Finish(Ok(())),
{
}

/// A topic that exists is never created: whatever else the answer to the
/// check holds, the step after it ends the run successfully.
pub proof fn lemma_existing_topic_is_not_created(
    wanted: NewTopic,
    check: DescribeResponse,
    step: ProvisioningStep,
)
    requires
        provisioning_moves(ProvisioningState::Checking(wanted), AdminEvent::Described(check), step),
    ensures
        step.action is Create <==> !topic_exists(check, wanted.name@),
        topic_exists(check, wanted.name@) ==> step.action == AdminAction::Finish(Ok(())),
{
}

} // verus!
