//! What holds of every run of the flow that decides which connector carries a
//! payout, whatever the outside replies.

use vstd::prelude::*;

use crate::errors::ApiErrorResponse;
use crate::payout_routing::{
    decide_payout_connector, decide_resumed, decide_started, get_default_payout_connector,
    is_choosing, resume_decide_payout_connector, routed, to_look_up, AlgorithmSource,
    ConnectorChoice, ConnectorData, DecideContext, DecideReply, DecideRequest, DecideState,
    DecideStep, RoutableConnectorChoice, RoutingData, StraightThroughAlgorithm,
};
use crate::payout_types::PayoutData;

verus! {

/// Whether `next` is what the flow does once the request of `step` was replied
/// to with `reply`.
pub open spec fn follows(step: DecideStep, reply: DecideReply, next: DecideStep) -> bool {
    step matches DecideStep::Ask(state, _) && state.awaits(reply) && decide_resumed(
        state,
        reply,
        next,
    )
}

/// Whether these are the first steps of the flow, with the reply to each of
/// them but the last.
pub open spec fn is_run(
    context: DecideContext,
    eligible_connectors: Option<Vec<String>>,
    replies: Seq<DecideReply>,
    steps: Seq<DecideStep>,
) -> bool {
    &&& steps.len() == replies.len() + 1
    &&& steps[0] == decide_started(context, eligible_connectors)
    &&& forall|i: int|
        0 <= i < replies.len() ==> follows(steps[i], #[trigger] replies[i], steps[i + 1])
}

/// Whether a rule that names connectors decides, and where it comes from.
pub open spec fn rule_source(context: DecideContext) -> Option<AlgorithmSource> {
    if context.payout_data.payout_attempt.connector is Some {
        None
    } else if context.request_straight_through is Some {
        Some(AlgorithmSource::Request)
    } else if context.routing_data.algorithm is Some {
        Some(AlgorithmSource::RoutingData)
    } else {
        None
    }
}

/// Whether these connectors are what the rule gave: those it named, or, where
/// they were still to be checked, those that came out of the check.
pub open spec fn are_given(
    replies: Seq<DecideReply>,
    connectors: Seq<RoutableConnectorChoice>,
) -> bool {
    &&& replies.len() > 0
    &&& replies[0] matches DecideReply::RoutedStraightThrough(Ok((named, check_eligibility))) && {
        if check_eligibility {
            &&& replies.len() > 1
            &&& replies[1] matches DecideReply::EligibilityAnalysed(Ok(eligible))
            &&& connectors == eligible@
        } else {
            connectors == named@
        }
    }
}

/// How many replies it takes to learn what the rule gives.
pub open spec fn replies_of_rule(replies: Seq<DecideReply>) -> int {
    match replies[0] {
        DecideReply::RoutedStraightThrough(Ok((_, true))) => 2,
        _ => 1,
    }
}

/// Whether these are the connectors that were found, in the order in which they
/// were asked for, by the replies from position `start` on.
pub open spec fn are_found(
    replies: Seq<DecideReply>,
    start: int,
    found: Seq<ConnectorData>,
) -> bool {
    &&& start + found.len() == replies.len()
    &&& forall|i: int|
        0 <= i < found.len() ==> #[trigger] replies[start + i]
            == DecideReply::PayoutConnectorFound(Ok(found[i]))
}

/// Whether a rule has decided: what it gave is known, and those of its
/// connectors that are to be looked up were found.
pub open spec fn is_decided_by_rule(
    context: DecideContext,
    source: AlgorithmSource,
    replies: Seq<DecideReply>,
    connectors: Seq<RoutableConnectorChoice>,
    found: Seq<ConnectorData>,
    routing_data: RoutingData,
) -> bool {
    &&& are_given(replies, connectors)
    &&& connectors.len() > 0
    &&& are_found(replies, replies_of_rule(replies), found)
    &&& found.len() == to_look_up(source, connectors).len()
    &&& routing_data == routed(context, source, connectors[0])
}

/// What a step of a run owes to the replies before it.
spec fn step_is_sound(
    context: DecideContext,
    replies: Seq<DecideReply>,
    step: DecideStep,
) -> bool {
    match step {
        DecideStep::Done(outcome) => {
            &&& replies.len() > 0
            &&& match outcome.result {
                Err(_) => {
                    ||| outcome.routing_data == context.routing_data
                    ||| replies.last() == DecideReply::ConnectorRouted(
                        outcome.routing_data,
                        outcome.result,
                    )
                },
                Ok(call_type) => match rule_source(context) {
                    Some(source) => exists|connectors: Seq<RoutableConnectorChoice>|
                        {
                            &&& call_type is Retryable
                            &&& #[trigger] is_decided_by_rule(
                                context,
                                source,
                                replies,
                                connectors,
                                call_type->Retryable_0@,
                                outcome.routing_data,
                            )
                        },
                    None => match context.payout_data.payout_attempt.connector {
                        Some(name) => {
                            &&& outcome.routing_data == RoutingData {
                                routed_through: Some(name),
                                ..context.routing_data
                            }
                            &&& call_type is PreDetermined
                            &&& replies.last() == DecideReply::PayoutConnectorFound(
                                Ok(call_type->PreDetermined_0),
                            )
                        },
                        None => replies.last() == DecideReply::ConnectorRouted(
                            outcome.routing_data,
                            outcome.result,
                        ),
                    },
                },
            }
        },
        DecideStep::Ask(state, request) => match state {
            DecideState::LookingUpStored { context: held, connector_name } => {
                &&& held == context
                &&& replies.len() == 0
                &&& context.payout_data.payout_attempt.connector == Some(connector_name)
                &&& request == DecideRequest::GetPayoutConnector {
                    connector_name,
                    merchant_connector_id: context.payout_data.payout_attempt.merchant_connector_id,
                }
            },
            DecideState::RoutingStraightThrough { context: held, source, .. } => {
                &&& held == context
                &&& replies.len() == 0
                &&& rule_source(context) == Some(source)
                &&& request is PerformStraightThroughRouting
            },
            DecideState::CheckingEligibility { context: held, source } => {
                &&& held == context
                &&& replies.len() == 1
                &&& rule_source(context) == Some(source)
                &&& replies[0] matches DecideReply::RoutedStraightThrough(Ok((named, true)))
                    && (request matches DecideRequest::PerformEligibilityAnalysis {
                    connectors,
                    ..
                } && connectors == named)
            },
            DecideState::LookingUp { context: held, source, first, pending, found } => {
                &&& held == context
                &&& replies.len() > 0
                &&& rule_source(context) == Some(source)
                &&& are_found(replies, replies_of_rule(replies), found@)
                &&& found@.len() < pending@.len()
                &&& is_pending(replies, source, first, pending@)
                &&& request == DecideRequest::GetPayoutConnector {
                    connector_name: pending@[found@.len() as int].connector,
                    merchant_connector_id: context.payout_data.payout_attempt.merchant_connector_id,
                }
            },
            DecideState::RoutingByRules => {
                &&& replies.len() == 0
                &&& rule_source(context) is None
                &&& context.payout_data.payout_attempt.connector is None
                &&& request is RouteConnector
            },
        },
    }
}

spec fn is_pending(
    replies: Seq<DecideReply>,
    source: AlgorithmSource,
    first: RoutableConnectorChoice,
    pending: Seq<RoutableConnectorChoice>,
) -> bool {
    exists|connectors: Seq<RoutableConnectorChoice>|
        {
            &&& #[trigger] are_given(replies, connectors)
            &&& connectors.len() > 0
            &&& first == connectors[0]
            &&& pending == to_look_up(source, connectors)
        }
}

/// A step that follows a sound one is sound.
proof fn soundness_is_kept(
    context: DecideContext,
    replies: Seq<DecideReply>,
    step: DecideStep,
    reply: DecideReply,
    next: DecideStep,
)
    requires
        step_is_sound(context, replies, step),
        follows(step, reply, next),
    ensures
        step_is_sound(context, replies.push(reply), next),
{
    let after = replies.push(reply);
    assert(after.last() == reply);
    match step {
        DecideStep::Ask(state, _) => match state {
            DecideState::RoutingStraightThrough { source, .. } => match reply {
                DecideReply::RoutedStraightThrough(Ok((named, check_eligibility))) => {
                    if !check_eligibility {
                        begin_looking_up(context, source, after, named@, next);
                    }
                },
                _ => {},
            },
            DecideState::CheckingEligibility { source, .. } => {
                assert(after[0] == replies[0]);
                match reply {
                    DecideReply::EligibilityAnalysed(Ok(eligible)) => {
                        begin_looking_up(context, source, after, eligible@, next);
                    },
                    _ => {},
                }
            },
            DecideState::LookingUp { source, first, pending, found, .. } => {
                assert(after[0] == replies[0]);
                let connectors = choose|connectors: Seq<RoutableConnectorChoice>|
                    {
                        &&& #[trigger] are_given(replies, connectors)
                        &&& connectors.len() > 0
                        &&& first == connectors[0]
                        &&& pending@ == to_look_up(source, connectors)
                    };
                assert(are_given(after, connectors)) by {
                    if replies.len() > 1 {
                        assert(after[1] == replies[1]);
                    }
                }
                match reply {
                    DecideReply::PayoutConnectorFound(Ok(connector_data)) => {
                        let start = replies_of_rule(replies);
                        let more = found@.push(connector_data);
                        assert forall|i: int| 0 <= i < more.len() implies #[trigger] after[start
                            + i] == DecideReply::PayoutConnectorFound(Ok(more[i])) by {
                            if i < found@.len() {
                                assert(after[start + i] == replies[start + i]);
                            }
                        }
                        assert(are_found(after, start, more));
                        match next {
                            DecideStep::Done(outcome) => {
                                assert(is_decided_by_rule(
                                    context,
                                    source,
                                    after,
                                    connectors,
                                    more,
                                    outcome.routing_data,
                                ));
                            },
                            _ => {},
                        }
                    },
                    _ => {},
                }
            },
            _ => {},
        },
        _ => {},
    }
}

/// The step that takes up what a rule gave is sound.
proof fn begin_looking_up(
    context: DecideContext,
    source: AlgorithmSource,
    replies: Seq<DecideReply>,
    connectors: Seq<RoutableConnectorChoice>,
    next: DecideStep,
)
    requires
        replies.len() == replies_of_rule(replies),
        are_given(replies, connectors),
        rule_source(context) == Some(source),
        is_choosing(next, context, source, connectors),
    ensures
        step_is_sound(context, replies, next),
{
    assert(are_found(replies, replies_of_rule(replies), Seq::empty()));
    match next {
        DecideStep::Done(outcome) => {
            if outcome.result is Ok {
                assert(is_decided_by_rule(
                    context,
                    source,
                    replies,
                    connectors,
                    Seq::empty(),
                    outcome.routing_data,
                ));
            }
        },
        _ => {},
    }
}

/// Every step of a run is sound.
proof fn steps_are_sound(
    context: DecideContext,
    eligible_connectors: Option<Vec<String>>,
    replies: Seq<DecideReply>,
    steps: Seq<DecideStep>,
    i: int,
)
    requires
        is_run(context, eligible_connectors, replies, steps),
        0 <= i <= replies.len(),
    ensures
        step_is_sound(context, replies.take(i), steps[i]),
    decreases i,
{
    if i > 0 {
        steps_are_sound(context, eligible_connectors, replies, steps, i - 1);
        let reply = replies[i - 1];
        assert(follows(steps[i - 1], reply, steps[i - 1 + 1]));
        assert(replies.take(i - 1).push(reply) =~= replies.take(i));
        soundness_is_kept(context, replies.take(i - 1), steps[i - 1], reply, steps[i]);
    }
}

/// A connector that was decided on before is used again: the flow makes one
/// request, for that connector, and where it succeeds the routing data names it
/// and is otherwise unchanged.
pub proof fn a_stored_connector_is_used_again(
    context: DecideContext,
    eligible_connectors: Option<Vec<String>>,
    replies: Seq<DecideReply>,
    steps: Seq<DecideStep>,
)
    requires
        is_run(context, eligible_connectors, replies, steps),
        context.payout_data.payout_attempt.connector is Some,
    ensures
        steps[0] matches DecideStep::Ask(_, request) && request
            == (DecideRequest::GetPayoutConnector {
            connector_name: context.payout_data.payout_attempt.connector->0,
            merchant_connector_id: context.payout_data.payout_attempt.merchant_connector_id,
        }),
        replies.len() <= 1,
        replies.len() == 1 ==> steps[1] is Done,
        steps.last() matches DecideStep::Done(outcome) ==> (outcome.result matches Ok(call_type)
            ==> {
            &&& call_type is PreDetermined
            &&& replies[0] == DecideReply::PayoutConnectorFound(Ok(call_type->PreDetermined_0))
            &&& outcome.routing_data == RoutingData {
                routed_through: context.payout_data.payout_attempt.connector,
                ..context.routing_data
            }
        }),
{
    if replies.len() > 0 {
        assert(follows(steps[0], replies[0], steps[0int + 1]));
    }
    if replies.len() > 1 {
        assert(follows(steps[1], replies[1], steps[1int + 1]));
    }
}

/// Where a rule that names connectors decides and the flow succeeds, the
/// connectors it may call are those that the rule gave, each looked up in its
/// turn, and the routing data names the first one.
pub proof fn a_rule_decides_in_its_order(
    context: DecideContext,
    eligible_connectors: Option<Vec<String>>,
    replies: Seq<DecideReply>,
    steps: Seq<DecideStep>,
    source: AlgorithmSource,
)
    requires
        is_run(context, eligible_connectors, replies, steps),
        rule_source(context) == Some(source),
        steps.last() is Done,
        steps.last()->Done_0.result is Ok,
    ensures
        steps.last()->Done_0.result->Ok_0 is Retryable,
        exists|connectors: Seq<RoutableConnectorChoice>| #[trigger]
            is_decided_by_rule(
                context,
                source,
                replies,
                connectors,
                steps.last()->Done_0.result->Ok_0->Retryable_0@,
                steps.last()->Done_0.routing_data,
            ),
{
    let n = replies.len() as int;
    steps_are_sound(context, eligible_connectors, replies, steps, n);
    assert(replies.take(n) =~= replies);
}

/// Whether the connector at position `j` of those to look up has this name.
pub open spec fn is_looked_up_as(
    source: AlgorithmSource,
    connectors: Seq<RoutableConnectorChoice>,
    j: int,
    connector_name: String,
) -> bool {
    &&& 0 <= j < to_look_up(source, connectors).len()
    &&& to_look_up(source, connectors)[j].connector == connector_name
}

/// A connector is looked up only where the attempt names it or where it is its
/// turn among those that a rule gave, and always for the account of the attempt.
pub proof fn connectors_are_looked_up_in_turn(
    context: DecideContext,
    eligible_connectors: Option<Vec<String>>,
    replies: Seq<DecideReply>,
    steps: Seq<DecideStep>,
    i: int,
)
    requires
        is_run(context, eligible_connectors, replies, steps),
        0 <= i < steps.len(),
        steps[i] matches DecideStep::Ask(_, request) && request is GetPayoutConnector,
    ensures
        steps[i]->Ask_1->merchant_connector_id
            == context.payout_data.payout_attempt.merchant_connector_id,
        match rule_source(context) {
            None => context.payout_data.payout_attempt.connector == Some(
                steps[i]->Ask_1->connector_name,
            ),
            Some(source) => exists|connectors: Seq<RoutableConnectorChoice>|
                {
                    &&& #[trigger] are_given(replies, connectors)
                    &&& is_looked_up_as(
                        source,
                        connectors,
                        i - replies_of_rule(replies),
                        steps[i]->Ask_1->connector_name,
                    )
                },
        },
{
    steps_are_sound(context, eligible_connectors, replies, steps, i);
    match steps[i] {
        DecideStep::Ask(DecideState::LookingUp { source, first, pending, .. }, _) => {
            let before = replies.take(i);
            let connectors = choose|connectors: Seq<RoutableConnectorChoice>|
                {
                    &&& #[trigger] are_given(before, connectors)
                    &&& connectors.len() > 0
                    &&& first == connectors[0]
                    &&& pending@ == to_look_up(source, connectors)
                };
            assert(before[0] == replies[0]);
            if i > 1 {
                assert(before[1] == replies[1]);
            }
            assert(are_given(replies, connectors));
        },
        _ => {},
    }
}

/// The rules of the merchant are asked only where the attempt has no connector
/// and neither the request nor the routing data has a rule.
pub proof fn merchant_rules_come_last(
    context: DecideContext,
    eligible_connectors: Option<Vec<String>>,
    replies: Seq<DecideReply>,
    steps: Seq<DecideStep>,
    i: int,
)
    requires
        is_run(context, eligible_connectors, replies, steps),
        0 <= i < steps.len(),
        steps[i] matches DecideStep::Ask(_, request) && request is RouteConnector,
    ensures
        i == 0,
        context.payout_data.payout_attempt.connector is None,
        context.request_straight_through is None,
        context.routing_data.algorithm is None,
{
    steps_are_sound(context, eligible_connectors, replies, steps, i);
}

/// A run that fails leaves the routing data as it was, except where the rules
/// of the merchant failed: then it is as they left it.
pub proof fn failure_leaves_the_routing_data(
    context: DecideContext,
    eligible_connectors: Option<Vec<String>>,
    replies: Seq<DecideReply>,
    steps: Seq<DecideStep>,
)
    requires
        is_run(context, eligible_connectors, replies, steps),
        steps.last() is Done,
        steps.last()->Done_0.result is Err,
    ensures
        replies.len() > 0,
        !(replies.last() is ConnectorRouted) ==> steps.last()->Done_0.routing_data
            == context.routing_data,
        replies.last() matches DecideReply::ConnectorRouted(routing_data, _)
            ==> steps.last()->Done_0.routing_data == routing_data,
{
    let n = replies.len() as int;
    steps_are_sound(context, eligible_connectors, replies, steps, n);
    assert(replies.take(n) =~= replies);
    assert(follows(steps[n - 1], replies[n - 1], steps[n - 1 + 1]));
}

/// How many connectors are looked up where the rule gave these.
pub open spec fn lookups(
    source: AlgorithmSource,
    connectors: Seq<RoutableConnectorChoice>,
) -> int {
    if connectors.len() == 0 {
        0
    } else {
        to_look_up(source, connectors).len() as int
    }
}

/// While connectors are looked up, what the rule gave is known, and not all of
/// them have been replied to.
proof fn lookups_are_awaited(
    context: DecideContext,
    eligible_connectors: Option<Vec<String>>,
    replies: Seq<DecideReply>,
    steps: Seq<DecideStep>,
    i: int,
)
    requires
        is_run(context, eligible_connectors, replies, steps),
        0 <= i <= replies.len(),
    ensures
        steps[i] matches DecideStep::Ask(DecideState::LookingUp { source, .. }, _) ==> exists|
            connectors: Seq<RoutableConnectorChoice>,
        |
            {
                &&& #[trigger] are_given(replies, connectors)
                &&& i < replies_of_rule(replies) + lookups(source, connectors)
            },
{
    steps_are_sound(context, eligible_connectors, replies, steps, i);
    match steps[i] {
        DecideStep::Ask(DecideState::LookingUp { source, first, pending, .. }, _) => {
            let before = replies.take(i);
            let connectors = choose|connectors: Seq<RoutableConnectorChoice>|
                {
                    &&& #[trigger] are_given(before, connectors)
                    &&& connectors.len() > 0
                    &&& first == connectors[0]
                    &&& pending@ == to_look_up(source, connectors)
                };
            assert(before[0] == replies[0]);
            if i > 1 {
                assert(before[1] == replies[1]);
            }
            assert(are_given(replies, connectors));
        },
        _ => {},
    }
}

/// The flow ends. Where no rule names connectors it has ended after one request.
/// Else it has ended after the requests that it takes to learn the connectors
/// and to look each of them up, or, where these cannot be learnt, after those
/// that it takes to find that out.
pub proof fn every_run_ends(
    context: DecideContext,
    eligible_connectors: Option<Vec<String>>,
    replies: Seq<DecideReply>,
    steps: Seq<DecideStep>,
)
    requires
        is_run(context, eligible_connectors, replies, steps),
    ensures
        match rule_source(context) {
            None => {
                &&& replies.len() <= 1
                &&& replies.len() == 1 ==> steps.last() is Done
            },
            Some(source) => {
                &&& forall|connectors: Seq<RoutableConnectorChoice>| #[trigger]
                    are_given(replies, connectors) ==> {
                        let most = replies_of_rule(replies) + lookups(source, connectors);
                        &&& replies.len() <= most
                        &&& replies.len() == most ==> steps.last() is Done
                    }
                &&& (forall|connectors: Seq<RoutableConnectorChoice>|
                    !(#[trigger] are_given(replies, connectors))) ==> {
                    &&& replies.len() <= replies_of_rule(replies)
                    &&& replies.len() == replies_of_rule(replies) ==> steps.last() is Done
                }
            },
        },
{
    let n = replies.len() as int;
    steps_are_sound(context, eligible_connectors, replies, steps, n);
    assert(replies.take(n) =~= replies);
    lookups_are_awaited(context, eligible_connectors, replies, steps, n);
    if n > 0 {
        steps_are_sound(context, eligible_connectors, replies, steps, n - 1);
        assert(follows(steps[n - 1], replies[n - 1], steps[n - 1 + 1]));
        assert(n > 1 ==> replies.take(n - 1)[0] == replies[0]);
        lookups_are_awaited(context, eligible_connectors, replies, steps, n - 1);
    }
}

/// Whether two flows are started alike, but for where their rule comes from: the
/// first has it in the request, the second has the same one in the routing data.
pub open spec fn differ_in_source(
    in_request: DecideContext,
    in_routing_data: DecideContext,
) -> bool {
    &&& in_request.payout_data == in_routing_data.payout_data
    &&& in_request.payout_data.payout_attempt.connector is None
    &&& in_request.request_straight_through is Some
    &&& in_routing_data.request_straight_through is None
    &&& in_routing_data.routing_data == RoutingData {
        algorithm: in_request.request_straight_through,
        ..in_request.routing_data
    }
}

/// Whether the outside answers the second run as it does the first: what the
/// rule gives is the same, and the lookups of the first run are those of the
/// second with one more in front.
pub open spec fn are_answered_alike(
    replies: Seq<DecideReply>,
    other_replies: Seq<DecideReply>,
) -> bool {
    let start = replies_of_rule(replies);
    &&& forall|i: int|
        0 <= i < start && i < replies.len() && i < other_replies.len() ==> #[trigger] replies[i]
            == other_replies[i]
    &&& forall|i: int|
        start <= i < other_replies.len() && i + 1 < replies.len() ==> replies[i + 1]
            == #[trigger] other_replies[i]
}

/// A rule that decides from the routing data leaves out the connector that it
/// gives first, which the same rule in the request does not; the routing data
/// names the same connector and the same account either way.
pub proof fn a_rule_in_the_routing_data_leaves_out_the_first(
    in_request: DecideContext,
    in_routing_data: DecideContext,
    eligible_connectors: Option<Vec<String>>,
    replies: Seq<DecideReply>,
    steps: Seq<DecideStep>,
    other_replies: Seq<DecideReply>,
    other_steps: Seq<DecideStep>,
)
    requires
        differ_in_source(in_request, in_routing_data),
        is_run(in_request, eligible_connectors, replies, steps),
        is_run(in_routing_data, eligible_connectors, other_replies, other_steps),
        are_answered_alike(replies, other_replies),
        steps.last() is Done,
        steps.last()->Done_0.result is Ok,
        other_steps.last() is Done,
        other_steps.last()->Done_0.result is Ok,
    ensures
        steps.last()->Done_0.result->Ok_0 is Retryable,
        other_steps.last()->Done_0.result->Ok_0 is Retryable,
        ({
            let outcome = steps.last()->Done_0;
            let other = other_steps.last()->Done_0;
            let list = outcome.result->Ok_0->Retryable_0@;
            let other_list = other.result->Ok_0->Retryable_0@;
            &&& list.len() > 0
            &&& other_list == list.drop_first()
            &&& outcome.routing_data.routed_through == other.routing_data.routed_through
            &&& outcome.routing_data.merchant_connector_id
                == other.routing_data.merchant_connector_id
        }),
{
    let source = AlgorithmSource::Request;
    let other_source = AlgorithmSource::RoutingData;
    a_rule_decides_in_its_order(in_request, eligible_connectors, replies, steps, source);
    a_rule_decides_in_its_order(
        in_routing_data,
        eligible_connectors,
        other_replies,
        other_steps,
        other_source,
    );
    let found = steps.last()->Done_0.result->Ok_0->Retryable_0@;
    let other_found = other_steps.last()->Done_0.result->Ok_0->Retryable_0@;
    let connectors = choose|connectors: Seq<RoutableConnectorChoice>| #[trigger]
        is_decided_by_rule(
            in_request,
            source,
            replies,
            connectors,
            found,
            steps.last()->Done_0.routing_data,
        );
    let other_connectors = choose|connectors: Seq<RoutableConnectorChoice>| #[trigger]
        is_decided_by_rule(
            in_routing_data,
            other_source,
            other_replies,
            connectors,
            other_found,
            other_steps.last()->Done_0.routing_data,
        );
    let start = replies_of_rule(replies);
    assert(replies[0] == other_replies[0]);
    if start > 1 {
        assert(replies[1] == other_replies[1]);
    }
    assert(connectors == other_connectors);
    assert forall|j: int| 0 <= j < other_found.len() implies #[trigger] other_found[j] == found[j
        + 1] by {
        assert(other_replies[start + j] == DecideReply::PayoutConnectorFound(Ok(other_found[j])));
        assert(replies[start + (j + 1)] == DecideReply::PayoutConnectorFound(Ok(found[j + 1])));
        assert(replies[start + j + 1] == other_replies[start + j]);
    }
    assert(other_found =~= found.drop_first());
}

/// Whether the outside answers equal requests of the two runs equally.
pub open spec fn equal_requests_have_equal_answers(
    replies: Seq<DecideReply>,
    steps: Seq<DecideStep>,
    other_replies: Seq<DecideReply>,
    other_steps: Seq<DecideStep>,
) -> bool {
    forall|i: int, j: int|
        0 <= i < replies.len() && 0 <= j < other_replies.len() && steps[i] is Ask
            && other_steps[j] is Ask && steps[i]->Ask_1 == other_steps[j]->Ask_1
            ==> #[trigger] replies[i] == #[trigger] other_replies[j]
}

/// From the position at which what the rule gives is known, a run asks for
/// nothing but connectors.
proof fn lookups_follow_the_rule(
    context: DecideContext,
    eligible_connectors: Option<Vec<String>>,
    replies: Seq<DecideReply>,
    steps: Seq<DecideStep>,
    i: int,
)
    requires
        is_run(context, eligible_connectors, replies, steps),
        rule_source(context) is Some,
        replies_of_rule(replies) <= i < replies.len(),
    ensures
        steps[i] is Ask,
        steps[i]->Ask_1 is GetPayoutConnector,
{
    steps_are_sound(context, eligible_connectors, replies, steps, i);
    assert(follows(steps[i], replies[i], steps[i + 1]));
    assert(replies.take(i)[0] == replies[0]);
}

/// Two runs that differ in where their rule comes from make the same requests,
/// but for the lookup of the first connector; so an outside that answers equal
/// requests equally answers them alike.
pub proof fn equal_answers_are_alike(
    in_request: DecideContext,
    in_routing_data: DecideContext,
    eligible_connectors: Option<Vec<String>>,
    replies: Seq<DecideReply>,
    steps: Seq<DecideStep>,
    other_replies: Seq<DecideReply>,
    other_steps: Seq<DecideStep>,
)
    requires
        differ_in_source(in_request, in_routing_data),
        is_run(in_request, eligible_connectors, replies, steps),
        is_run(in_routing_data, eligible_connectors, other_replies, other_steps),
        equal_requests_have_equal_answers(replies, steps, other_replies, other_steps),
        replies.len() > 0,
        other_replies.len() > 0,
    ensures
        are_answered_alike(replies, other_replies),
{
    let start = replies_of_rule(replies);
    assert(replies[0] == other_replies[0]);
    assert(follows(steps[0], replies[0], steps[0int + 1]));
    assert(follows(other_steps[0], other_replies[0], other_steps[0int + 1]));
    assert forall|i: int|
        0 <= i < start && i < replies.len() && i < other_replies.len() implies #[trigger] replies[i]
        == other_replies[i] by {
        if i == 1 {
            assert(steps[1]->Ask_1 == other_steps[1]->Ask_1);
        }
    }
    assert forall|i: int|
        start <= i < other_replies.len() && i + 1 < replies.len() implies replies[i + 1]
        == #[trigger] other_replies[i] by {
        lookups_follow_the_rule(in_request, eligible_connectors, replies, steps, i + 1);
        lookups_follow_the_rule(
            in_routing_data,
            eligible_connectors,
            other_replies,
            other_steps,
            i,
        );
        connectors_are_looked_up_in_turn(in_request, eligible_connectors, replies, steps, i + 1);
        connectors_are_looked_up_in_turn(
            in_routing_data,
            eligible_connectors,
            other_replies,
            other_steps,
            i,
        );
        if start > 1 {
            assert(replies[1] == other_replies[1]);
        }
        assert(steps[i + 1]->Ask_1 == other_steps[i]->Ask_1);
    }
}

/// What comes first: a connector that the attempt names is set up for the
/// account of the attempt; else the rule in the request is worked out, else the
/// rule in the routing data, and else the rules of the merchant are asked, with
/// all that was handed in.
pub proof fn the_nearest_rule_counts(
    request_straight_through: Option<StraightThroughAlgorithm>,
    routing_data: RoutingData,
    payout_data: PayoutData,
    eligible_connectors: Option<Vec<String>>,
    first: DecideStep,
)
    requires
        call_ensures(
            decide_payout_connector,
            (request_straight_through, routing_data, payout_data, eligible_connectors),
            first,
        ),
    ensures
        first is Ask,
        first->Ask_1 == (match payout_data.payout_attempt.connector {
            Some(connector_name) => DecideRequest::GetPayoutConnector {
                connector_name,
                merchant_connector_id: payout_data.payout_attempt.merchant_connector_id,
            },
            None => if request_straight_through is Some {
                DecideRequest::PerformStraightThroughRouting {
                    algorithm: request_straight_through->0,
                }
            } else if routing_data.algorithm is Some {
                DecideRequest::PerformStraightThroughRouting {
                    algorithm: routing_data.algorithm->0,
                }
            } else {
                DecideRequest::RouteConnector { payout_data, routing_data, eligible_connectors }
            },
        }),
        is_run(
            DecideContext { payout_data, request_straight_through, routing_data },
            eligible_connectors,
            Seq::empty(),
            seq![first],
        ),
{
}

/// The way in which the connector of a payout is found is by the rule in the
/// request exactly where there is one.
pub proof fn a_requested_rule_is_taken(
    request_connector: Option<serde_json::Value>,
    r: Result<ConnectorChoice, ApiErrorResponse>,
)
    requires
        call_ensures(get_default_payout_connector, (request_connector,), r),
    ensures
        r is Ok,
        r->Ok_0 is Decide <==> request_connector is None,
        request_connector matches Some(rule) ==> r->Ok_0 == ConnectorChoice::StraightThrough(rule),
{
}

/// The function that carries on the flow makes the steps that its laws speak of.
pub proof fn the_flow_is_carried_on(state: DecideState, reply: DecideReply, next: DecideStep)
    requires
        state.awaits(reply),
        call_ensures(resume_decide_payout_connector, (state, reply), next),
    ensures
        forall|request: DecideRequest| #[trigger]
            follows(DecideStep::Ask(state, request), reply, next),
{
}

/// Connectors are checked as the rule named them, for the payout and its profile,
/// among those that were handed in as eligible, and exactly where the rule says
/// that they are to be checked.
pub proof fn named_connectors_are_checked(
    context: DecideContext,
    eligible_connectors: Option<Vec<String>>,
    replies: Seq<DecideReply>,
    steps: Seq<DecideStep>,
)
    requires
        is_run(context, eligible_connectors, replies, steps),
        rule_source(context) is Some,
        replies.len() > 0,
    ensures
        replies[0] is RoutedStraightThrough,
        replies[0]->RoutedStraightThrough_0 matches Ok((named, check_eligibility)) ==> {
            let asks = steps[1] is Ask && steps[1]->Ask_1 is PerformEligibilityAnalysis;
            &&& asks <==> check_eligibility
            &&& asks ==> steps[1]->Ask_1 == (DecideRequest::PerformEligibilityAnalysis {
                connectors: named,
                payout_data: context.payout_data,
                eligible_connectors,
                profile_id: Some(context.payout_data.payout_attempt.profile_id),
            })
        },
{
    assert(follows(steps[0], replies[0], steps[0int + 1]));
}

/// A rule that has decided names its first connector in the routing data, with
/// the account that belongs to it. The rule is recorded where it came with the
/// request, and everything else stays as it was. The connectors to call are those
/// that were found, in turn: all that the rule gave, and all but the first where
/// it came from the routing data.
pub proof fn a_rule_names_its_first_connector(
    context: DecideContext,
    eligible_connectors: Option<Vec<String>>,
    replies: Seq<DecideReply>,
    steps: Seq<DecideStep>,
    connectors: Seq<RoutableConnectorChoice>,
)
    requires
        is_run(context, eligible_connectors, replies, steps),
        rule_source(context) is Some,
        are_given(replies, connectors),
        steps.last() is Done,
        steps.last()->Done_0.result is Ok,
    ensures
        ({
            let outcome = steps.last()->Done_0;
            let data = outcome.routing_data;
            let before = context.routing_data;
            let list = outcome.result->Ok_0->Retryable_0@;
            let start = replies_of_rule(replies);
            &&& connectors.len() > 0
            &&& outcome.result->Ok_0 is Retryable
            &&& data.routed_through == Some(connectors[0].connector)
            &&& data.merchant_connector_id == connectors[0].merchant_connector_id
            &&& data.routing_info.pre_routing_results == before.routing_info.pre_routing_results
            &&& data.algorithm == before.algorithm
            &&& if context.request_straight_through is Some {
                &&& data.routing_info.algorithm == context.request_straight_through
                &&& list.len() == connectors.len()
            } else {
                &&& data.routing_info.algorithm == before.routing_info.algorithm
                &&& list.len() == connectors.len() - 1
            }
            &&& replies.len() == start + list.len()
            &&& forall|j: int|
                0 <= j < list.len() ==> #[trigger] replies[start + j]
                    == DecideReply::PayoutConnectorFound(Ok(list[j]))
        }),
{
    let source = rule_source(context)->0;
    a_rule_decides_in_its_order(context, eligible_connectors, replies, steps, source);
    let outcome = steps.last()->Done_0;
    let decided = choose|decided: Seq<RoutableConnectorChoice>| #[trigger]
        is_decided_by_rule(
            context,
            source,
            replies,
            decided,
            outcome.result->Ok_0->Retryable_0@,
            outcome.routing_data,
        );
    assert(decided == connectors);
}

/// The connectors that a rule gave are set up one after the other by their names,
/// from the first where the rule came with the request, else from the second, and
/// always for the account of the attempt.
pub proof fn connectors_are_set_up_by_name(
    context: DecideContext,
    eligible_connectors: Option<Vec<String>>,
    replies: Seq<DecideReply>,
    steps: Seq<DecideStep>,
    connectors: Seq<RoutableConnectorChoice>,
    i: int,
)
    requires
        is_run(context, eligible_connectors, replies, steps),
        rule_source(context) is Some,
        are_given(replies, connectors),
        replies_of_rule(replies) <= i < steps.len(),
        steps[i] is Ask,
    ensures
        ({
            let j = i - replies_of_rule(replies) + if context.request_straight_through is Some {
                0int
            } else {
                1int
            };
            &&& 0 <= j < connectors.len()
            &&& steps[i]->Ask_1 == (DecideRequest::GetPayoutConnector {
                connector_name: connectors[j].connector,
                merchant_connector_id: context.payout_data.payout_attempt.merchant_connector_id,
            })
        }),
{
    steps_are_sound(context, eligible_connectors, replies, steps, i);
    if i > 0 {
        assert(replies.take(i)[0] == replies[0]);
    }
    connectors_are_looked_up_in_turn(context, eligible_connectors, replies, steps, i);
    let source = rule_source(context)->0;
    let given = choose|given: Seq<RoutableConnectorChoice>|
        {
            &&& #[trigger] are_given(replies, given)
            &&& is_looked_up_as(
                source,
                given,
                i - replies_of_rule(replies),
                steps[i]->Ask_1->connector_name,
            )
        };
    assert(given == connectors);
}

/// What could not be worked out, checked or set up is an internal error that
/// leaves the routing data as it was; a rule that gives no connector is a wrong
/// configuration; what the rules of the merchant answer is the end.
pub proof fn failures_are_told(
    context: DecideContext,
    eligible_connectors: Option<Vec<String>>,
    replies: Seq<DecideReply>,
    steps: Seq<DecideStep>,
    i: int,
)
    requires
        is_run(context, eligible_connectors, replies, steps),
        0 <= i < replies.len(),
    ensures
        ({
            let next = steps[i + 1];
            let is_failure = match replies[i] {
                DecideReply::PayoutConnectorFound(Err(_)) => true,
                DecideReply::RoutedStraightThrough(Err(_)) => true,
                DecideReply::EligibilityAnalysed(Err(_)) => true,
                _ => false,
            };
            let gives_nothing = match replies[i] {
                DecideReply::RoutedStraightThrough(Ok((named, false))) => named@.len() == 0,
                DecideReply::EligibilityAnalysed(Ok(eligible)) => eligible@.len() == 0,
                _ => false,
            };
            &&& is_failure ==> {
                &&& next is Done
                &&& next->Done_0.result is Err
                &&& next->Done_0.result->Err_0 is InternalServerError
                &&& next->Done_0.routing_data == context.routing_data
            }
            &&& gives_nothing ==> {
                &&& next is Done
                &&& next->Done_0.result is Err
                &&& next->Done_0.result->Err_0 is IncorrectPaymentMethodConfiguration
                &&& next->Done_0.routing_data == context.routing_data
            }
            &&& replies[i] matches DecideReply::ConnectorRouted(routing_data, result) ==> {
                &&& next is Done
                &&& next->Done_0.result == result
                &&& next->Done_0.routing_data == routing_data
            }
            &&& !is_failure && !gives_nothing && !(replies[i] is ConnectorRouted) ==> next is Ask
                || next->Done_0.result is Ok
        }),
{
    steps_are_sound(context, eligible_connectors, replies, steps, i);
    assert(follows(steps[i], replies[i], steps[i + 1]));
}

} // verus!
