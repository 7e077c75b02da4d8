//! Deciding which connector carries a payout.
//!
//! The flow asks for one outside operation at a time and is resumed with the
//! reply, until it is done.

use vstd::prelude::*;
use vstd::pervasive::unreached;

use crate::errors::{ApiErrorResponse, OperationFailed};
use crate::payout_types::{MerchantConnectorAccountId, PayoutData, ProfileId};

verus! {

/// A routing rule that names connectors outright, as JSON.
#[derive(Debug, PartialEq, Eq)]
pub struct StraightThroughAlgorithm {
    pub json: serde_json::Value,
}

impl Clone for StraightThroughAlgorithm {
    fn clone(&self) -> (r: Self)
        ensures
            r == *self,
    {
        StraightThroughAlgorithm {
            json: self.json.clone(),
        }
    }
}

/// A connector that a payout can be routed to.
#[derive(Debug, PartialEq, Eq)]
pub struct RoutableConnectorChoice {
    pub connector: String,
    pub merchant_connector_id: Option<MerchantConnectorAccountId>,
}

impl Clone for RoutableConnectorChoice {
    fn clone(&self) -> (r: Self)
        ensures
            r == *self,
    {
        RoutableConnectorChoice {
            connector: self.connector.clone(),
            merchant_connector_id: self.merchant_connector_id.clone(),
        }
    }
}

/// A connector that is set up to be called.
#[derive(Debug, PartialEq, Eq)]
pub struct ConnectorData {
    pub connector_name: String,
    pub merchant_connector_id: Option<MerchantConnectorAccountId>,
}

impl Clone for ConnectorData {
    fn clone(&self) -> (r: Self)
        ensures
            r == *self,
    {
        ConnectorData {
            connector_name: self.connector_name.clone(),
            merchant_connector_id: self.merchant_connector_id.clone(),
        }
    }
}

/// What is recorded of how a payout was routed.
#[derive(Debug, PartialEq, Eq)]
pub struct PaymentRoutingInfo {
    pub algorithm: Option<StraightThroughAlgorithm>,
    pub pre_routing_results: Option<serde_json::Value>,
}

impl Clone for PaymentRoutingInfo {
    fn clone(&self) -> (r: Self)
        ensures
            r == *self,
    {
        PaymentRoutingInfo {
            algorithm: self.algorithm.clone(),
            pre_routing_results: self.pre_routing_results.clone(),
        }
    }
}

/// How a payout is routed.
#[derive(Debug, PartialEq, Eq)]
pub struct RoutingData {
    /// The connector that was decided on.
    pub routed_through: Option<String>,
    pub merchant_connector_id: Option<MerchantConnectorAccountId>,
    pub routing_info: PaymentRoutingInfo,
    /// The rule that was chosen for the payout earlier.
    pub algorithm: Option<StraightThroughAlgorithm>,
}

impl Clone for RoutingData {
    fn clone(&self) -> (r: Self)
        ensures
            r == *self,
    {
        RoutingData {
            routed_through: self.routed_through.clone(),
            merchant_connector_id: self.merchant_connector_id.clone(),
            routing_info: self.routing_info.clone(),
            algorithm: self.algorithm.clone(),
        }
    }
}

/// The connectors to call.
#[derive(Debug, PartialEq, Eq)]
pub enum ConnectorCallType {
    /// This one.
    PreDetermined(ConnectorData),
    /// These, each where the ones before it failed.
    Retryable(Vec<ConnectorData>),
    /// All of these, for a session.
    SessionMultiple(serde_json::Value),
}

/// How the connector of a payout is found.
#[derive(Debug, PartialEq, Eq)]
pub enum ConnectorChoice {
    /// By the rule that came with the request.
    StraightThrough(serde_json::Value),
    /// By the rules of the merchant.
    Decide,
}

/// The way in which the connector of a payout is found: by the rule in the
/// request, where it has one.
pub fn get_default_payout_connector(request_connector: Option<serde_json::Value>) -> (r: Result<
    ConnectorChoice,
    ApiErrorResponse,
>)
    ensures
        r == Ok::<ConnectorChoice, ApiErrorResponse>(
            match request_connector {
                Some(rule) => ConnectorChoice::StraightThrough(rule),
                None => ConnectorChoice::Decide,
            },
        ),
{
    match request_connector {
        Some(rule) => Ok(ConnectorChoice::StraightThrough(rule)),
        None => Ok(ConnectorChoice::Decide),
    }
}

/// What the flow was started with.
#[derive(Debug, PartialEq, Eq)]
pub struct DecideContext {
    pub payout_data: PayoutData,
    pub request_straight_through: Option<StraightThroughAlgorithm>,
    pub routing_data: RoutingData,
}

/// Where a rule that names connectors came from.
#[derive(Clone, Copy, Debug, PartialEq, Eq, Structural)]
pub enum AlgorithmSource {
    Request,
    RoutingData,
}

/// Where the flow waits for a reply.
#[derive(Debug, PartialEq, Eq)]
pub enum DecideState {
    LookingUpStored { context: DecideContext, connector_name: String },
    RoutingStraightThrough {
        context: DecideContext,
        source: AlgorithmSource,
        eligible_connectors: Option<Vec<String>>,
    },
    CheckingEligibility { context: DecideContext, source: AlgorithmSource },
    LookingUp {
        context: DecideContext,
        source: AlgorithmSource,
        first: RoutableConnectorChoice,
        /// The connectors to look up.
        pending: Vec<RoutableConnectorChoice>,
        /// What was found of them so far.
        found: Vec<ConnectorData>,
    },
    RoutingByRules,
}

/// An outside operation that the flow asks for.
#[derive(Debug, PartialEq, Eq)]
pub enum DecideRequest {
    /// Set up a connector for payouts, with a token of its own.
    GetPayoutConnector {
        connector_name: String,
        merchant_connector_id: Option<MerchantConnectorAccountId>,
    },
    /// Work out which connectors the rule names.
    PerformStraightThroughRouting { algorithm: StraightThroughAlgorithm },
    /// Leave out the connectors that cannot carry the payout, or fall back.
    PerformEligibilityAnalysis {
        connectors: Vec<RoutableConnectorChoice>,
        payout_data: PayoutData,
        eligible_connectors: Option<Vec<String>>,
        profile_id: Option<ProfileId>,
    },
    /// Route by the rules of the merchant.
    RouteConnector {
        payout_data: PayoutData,
        routing_data: RoutingData,
        eligible_connectors: Option<Vec<String>>,
    },
}

/// The outcome of an outside operation.
#[derive(Debug, PartialEq, Eq)]
pub enum DecideReply {
    PayoutConnectorFound(Result<ConnectorData, OperationFailed>),
    /// The connectors, and whether they are still to be checked.
    RoutedStraightThrough(Result<(Vec<RoutableConnectorChoice>, bool), OperationFailed>),
    EligibilityAnalysed(Result<Vec<RoutableConnectorChoice>, OperationFailed>),
    /// The routing data as it was left.
    ConnectorRouted(RoutingData, Result<ConnectorCallType, ApiErrorResponse>),
}

/// How the flow ended, and the routing data as it is then.
#[derive(Debug, PartialEq, Eq)]
pub struct DecideOutcome {
    pub routing_data: RoutingData,
    pub result: Result<ConnectorCallType, ApiErrorResponse>,
}

/// What the flow does next.
#[derive(Debug, PartialEq, Eq)]
pub enum DecideStep {
    Ask(DecideState, DecideRequest),
    Done(DecideOutcome),
}

impl DecideState {
    /// Whether the reply is one to what the flow asked for in this state.
    pub open spec fn awaits(self, reply: DecideReply) -> bool {
        match self {
            DecideState::LookingUpStored { .. } => reply is PayoutConnectorFound,
            DecideState::RoutingStraightThrough { .. } => reply is RoutedStraightThrough,
            DecideState::CheckingEligibility { .. } => reply is EligibilityAnalysed,
            DecideState::LookingUp { .. } => reply is PayoutConnectorFound,
            DecideState::RoutingByRules => reply is ConnectorRouted,
        }
    }
}

/// The flow gives up, and the routing data stays as it was.
pub open spec fn failed_with(context: DecideContext, error: ApiErrorResponse) -> DecideStep {
    DecideStep::Done(DecideOutcome { routing_data: context.routing_data, result: Err(error) })
}

fn fail(context: DecideContext, error: ApiErrorResponse) -> (r: DecideStep)
    ensures
        r == failed_with(context, error),
{
    DecideStep::Done(DecideOutcome { routing_data: context.routing_data, result: Err(error) })
}

/// The first step. A connector that was decided on before is used again; else
/// the rule in the request counts, then the one in the routing data, then the
/// rules of the merchant.
pub open spec fn decide_started(
    context: DecideContext,
    eligible_connectors: Option<Vec<String>>,
) -> DecideStep {
    let attempt = context.payout_data.payout_attempt;
    match (attempt.connector, context.request_straight_through, context.routing_data.algorithm) {
        (Some(connector_name), _, _) => DecideStep::Ask(
            DecideState::LookingUpStored { context, connector_name },
            DecideRequest::GetPayoutConnector {
                connector_name,
                merchant_connector_id: attempt.merchant_connector_id,
            },
        ),
        (None, Some(algorithm), _) => DecideStep::Ask(
            DecideState::RoutingStraightThrough {
                context,
                source: AlgorithmSource::Request,
                eligible_connectors,
            },
            DecideRequest::PerformStraightThroughRouting { algorithm },
        ),
        (None, None, Some(algorithm)) => DecideStep::Ask(
            DecideState::RoutingStraightThrough {
                context,
                source: AlgorithmSource::RoutingData,
                eligible_connectors,
            },
            DecideRequest::PerformStraightThroughRouting { algorithm },
        ),
        (None, None, None) => DecideStep::Ask(
            DecideState::RoutingByRules,
            DecideRequest::RouteConnector {
                payout_data: context.payout_data,
                routing_data: context.routing_data,
                eligible_connectors,
            },
        ),
    }
}

/// Starts to decide which connector carries a payout.
pub fn decide_payout_connector(
    request_straight_through: Option<StraightThroughAlgorithm>,
    routing_data: RoutingData,
    payout_data: PayoutData,
    eligible_connectors: Option<Vec<String>>,
) -> (r: DecideStep)
    ensures
        r == decide_started(
            DecideContext { payout_data, request_straight_through, routing_data },
            eligible_connectors,
        ),
{
    let context = DecideContext { payout_data, request_straight_through, routing_data };
    if let Some(connector_name) = context.payout_data.payout_attempt.connector.clone() {
        let request = DecideRequest::GetPayoutConnector {
            connector_name: connector_name.clone(),
            merchant_connector_id: context.payout_data.payout_attempt.merchant_connector_id.clone(),
        };
        return DecideStep::Ask(DecideState::LookingUpStored { context, connector_name }, request);
    }
    if let Some(algorithm) = context.request_straight_through.clone() {
        let source = AlgorithmSource::Request;
        return DecideStep::Ask(
            DecideState::RoutingStraightThrough { context, source, eligible_connectors },
            DecideRequest::PerformStraightThroughRouting { algorithm },
        );
    }
    if let Some(algorithm) = context.routing_data.algorithm.clone() {
        let source = AlgorithmSource::RoutingData;
        return DecideStep::Ask(
            DecideState::RoutingStraightThrough { context, source, eligible_connectors },
            DecideRequest::PerformStraightThroughRouting { algorithm },
        );
    }
    DecideStep::Ask(
        DecideState::RoutingByRules,
        DecideRequest::RouteConnector {
            payout_data: context.payout_data,
            routing_data: context.routing_data,
            eligible_connectors,
        },
    )
}

/// The routing data once a rule has decided: it names the first connector, and
/// records the rule where that came with the request.
pub open spec fn routed(
    context: DecideContext,
    source: AlgorithmSource,
    first: RoutableConnectorChoice,
) -> RoutingData {
    RoutingData {
        routed_through: Some(first.connector),
        merchant_connector_id: first.merchant_connector_id,
        routing_info: match source {
            AlgorithmSource::Request => PaymentRoutingInfo {
                algorithm: context.request_straight_through,
                ..context.routing_data.routing_info
            },
            AlgorithmSource::RoutingData => context.routing_data.routing_info,
        },
        algorithm: context.routing_data.algorithm,
    }
}

/// Whether the step looks up the first connector that is not found yet, or
/// ends the flow where all are found.
pub open spec fn is_looking_up(
    r: DecideStep,
    context: DecideContext,
    source: AlgorithmSource,
    first: RoutableConnectorChoice,
    pending: Seq<RoutableConnectorChoice>,
    found: Seq<ConnectorData>,
) -> bool {
    match r {
        DecideStep::Done(outcome) => {
            &&& found.len() >= pending.len()
            &&& outcome.routing_data == routed(context, source, first)
            &&& outcome.result matches Ok(ConnectorCallType::Retryable(connectors))
                && connectors@ == found
        },
        DecideStep::Ask(state, request) => {
            &&& found.len() < pending.len()
            &&& state is LookingUp
            &&& state->LookingUp_context == context
            &&& state->LookingUp_source == source
            &&& state->LookingUp_first == first
            &&& state->LookingUp_pending@ == pending
            &&& state->LookingUp_found@ == found
            &&& request == DecideRequest::GetPayoutConnector {
                connector_name: pending[found.len() as int].connector,
                merchant_connector_id: context.payout_data.payout_attempt.merchant_connector_id,
            }
        },
    }
}

fn look_up(
    context: DecideContext,
    source: AlgorithmSource,
    first: RoutableConnectorChoice,
    pending: Vec<RoutableConnectorChoice>,
    found: Vec<ConnectorData>,
) -> (r: DecideStep)
    ensures
        is_looking_up(r, context, source, first, pending@, found@),
{
    if found.len() < pending.len() {
        let request = DecideRequest::GetPayoutConnector {
            connector_name: pending[found.len()].connector.clone(),
            merchant_connector_id: context.payout_data.payout_attempt.merchant_connector_id.clone(),
        };
        return DecideStep::Ask(
            DecideState::LookingUp { context, source, first, pending, found },
            request,
        );
    }
    let mut routing_data = context.routing_data;
    routing_data.routed_through = Some(first.connector);
    routing_data.merchant_connector_id = first.merchant_connector_id;
    match source {
        AlgorithmSource::Request => {
            routing_data.routing_info.algorithm = context.request_straight_through;
        },
        AlgorithmSource::RoutingData => {},
    }
    DecideStep::Done(
        DecideOutcome { routing_data, result: Ok(ConnectorCallType::Retryable(found)) },
    )
}

/// The connectors to look up among those that a rule gave. The one that a rule
/// in the routing data gave first is not looked up.
pub open spec fn to_look_up(
    source: AlgorithmSource,
    connectors: Seq<RoutableConnectorChoice>,
) -> Seq<RoutableConnectorChoice> {
    match source {
        AlgorithmSource::Request => connectors,
        AlgorithmSource::RoutingData => connectors.drop_first(),
    }
}

/// Whether the step goes on with the connectors that a rule gave.
pub open spec fn is_choosing(
    r: DecideStep,
    context: DecideContext,
    source: AlgorithmSource,
    connectors: Seq<RoutableConnectorChoice>,
) -> bool {
    if connectors.len() == 0 {
        r == failed_with(context, ApiErrorResponse::IncorrectPaymentMethodConfiguration)
    } else {
        is_looking_up(
            r,
            context,
            source,
            connectors[0],
            to_look_up(source, connectors),
            Seq::empty(),
        )
    }
}

fn choose_connectors(
    context: DecideContext,
    source: AlgorithmSource,
    connectors: Vec<RoutableConnectorChoice>,
) -> (r: DecideStep)
    ensures
        is_choosing(r, context, source, connectors@),
{
    if connectors.len() == 0 {
        return fail(context, ApiErrorResponse::IncorrectPaymentMethodConfiguration);
    }
    let first = connectors[0].clone();
    let mut pending = connectors;
    match source {
        AlgorithmSource::Request => {},
        AlgorithmSource::RoutingData => {
            pending.remove(0);
        },
    }
    assert(pending@ =~= to_look_up(source, connectors@));
    look_up(context, source, first, pending, Vec::new())
}

/// What the flow does in `state` on `reply`.
pub open spec fn decide_resumed(state: DecideState, reply: DecideReply, r: DecideStep) -> bool {
    match (state, reply) {
        (
            DecideState::LookingUpStored { context, connector_name },
            DecideReply::PayoutConnectorFound(found),
        ) => r == (match found {
            Err(_) => failed_with(context, ApiErrorResponse::InternalServerError),
            Ok(connector_data) => DecideStep::Done(
                DecideOutcome {
                    routing_data: RoutingData {
                        routed_through: Some(connector_name),
                        ..context.routing_data
                    },
                    result: Ok(ConnectorCallType::PreDetermined(connector_data)),
                },
            ),
        }),
        (
            DecideState::RoutingStraightThrough { context, source, eligible_connectors },
            DecideReply::RoutedStraightThrough(routed),
        ) => match routed {
            Err(_) => r == failed_with(context, ApiErrorResponse::InternalServerError),
            Ok((connectors, check_eligibility)) => if check_eligibility {
                r == DecideStep::Ask(
                    DecideState::CheckingEligibility { context, source },
                    DecideRequest::PerformEligibilityAnalysis {
                        connectors,
                        payout_data: context.payout_data,
                        eligible_connectors,
                        profile_id: Some(context.payout_data.payout_attempt.profile_id),
                    },
                )
            } else {
                is_choosing(r, context, source, connectors@)
            },
        },
        (
            DecideState::CheckingEligibility { context, source },
            DecideReply::EligibilityAnalysed(analysed),
        ) => match analysed {
            Err(_) => r == failed_with(context, ApiErrorResponse::InternalServerError),
            Ok(connectors) => is_choosing(r, context, source, connectors@),
        },
        (
            DecideState::LookingUp { context, source, first, pending, found },
            DecideReply::PayoutConnectorFound(looked_up),
        ) => match looked_up {
            Err(_) => r == failed_with(context, ApiErrorResponse::InternalServerError),
            Ok(connector_data) => is_looking_up(
                r,
                context,
                source,
                first,
                pending@,
                found@.push(connector_data),
            ),
        },
        (DecideState::RoutingByRules, DecideReply::ConnectorRouted(routing_data, result)) => r
            == DecideStep::Done(DecideOutcome { routing_data, result }),
        _ => false,
    }
}

/// Goes on with the flow once the reply to what it asked for is there.
pub fn resume_decide_payout_connector(state: DecideState, reply: DecideReply) -> (r: DecideStep)
    requires
        state.awaits(reply),
    ensures
        decide_resumed(state, reply, r),
{
    match (state, reply) {
        (
            DecideState::LookingUpStored { context, connector_name },
            DecideReply::PayoutConnectorFound(found),
        ) => match found {
            Err(_) => fail(context, ApiErrorResponse::InternalServerError),
            Ok(connector_data) => {
                let mut routing_data = context.routing_data;
                routing_data.routed_through = Some(connector_name);
                DecideStep::Done(
                    DecideOutcome {
                        routing_data,
                        result: Ok(ConnectorCallType::PreDetermined(connector_data)),
                    },
                )
            },
        },
        (
            DecideState::RoutingStraightThrough { context, source, eligible_connectors },
            DecideReply::RoutedStraightThrough(routed),
        ) => match routed {
            Err(_) => fail(context, ApiErrorResponse::InternalServerError),
            Ok((connectors, check_eligibility)) => if check_eligibility {
                let request = DecideRequest::PerformEligibilityAnalysis {
                    connectors,
                    payout_data: context.payout_data.clone(),
                    eligible_connectors,
                    profile_id: Some(context.payout_data.payout_attempt.profile_id.clone()),
                };
                DecideStep::Ask(DecideState::CheckingEligibility { context, source }, request)
            } else {
                choose_connectors(context, source, connectors)
            },
        },
        (
            DecideState::CheckingEligibility { context, source },
            DecideReply::EligibilityAnalysed(analysed),
        ) => match analysed {
            Err(_) => fail(context, ApiErrorResponse::InternalServerError),
            Ok(connectors) => choose_connectors(context, source, connectors),
        },
        (
            DecideState::LookingUp { context, source, first, pending, found },
            DecideReply::PayoutConnectorFound(looked_up),
        ) => match looked_up {
            Err(_) => fail(context, ApiErrorResponse::InternalServerError),
            Ok(connector_data) => {
                let mut found = found;
                found.push(connector_data);
                look_up(context, source, first, pending, found)
            },
        },
        (DecideState::RoutingByRules, DecideReply::ConnectorRouted(routing_data, result)) => {
            DecideStep::Done(DecideOutcome { routing_data, result })
        },
        _ => unreached(),
    }
}

} // verus!
