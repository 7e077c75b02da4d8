use router_core::enums::{PayoutEntityType, PayoutStatus, PayoutType};
use router_core::errors::{ApiErrorResponse, OperationFailed};
use router_core::payout_routing::{
    decide_payout_connector, get_default_payout_connector, resume_decide_payout_connector,
    ConnectorCallType, ConnectorChoice, ConnectorData, DecideOutcome, DecideReply, DecideRequest,
    DecideState, DecideStep, PaymentRoutingInfo, RoutableConnectorChoice, RoutingData,
    StraightThroughAlgorithm,
};
use router_core::payout_types::{MinorUnit, PayoutAttempt, PayoutData, Payouts};

fn text(t: &str) -> String {
    t.to_string()
}

fn payout(connector: Option<&str>) -> PayoutData {
    PayoutData {
        payout_attempt: PayoutAttempt {
            payout_attempt_id: text("payout_1_1"),
            payout_id: text("payout_1"),
            customer_id: text("cus_1"),
            profile_id: text("pro_1"),
            connector: connector.map(text),
            merchant_connector_id: Some(text("mca_attempt")),
            payout_token: None,
            status: PayoutStatus::RequiresCreation,
            business_country: None,
            business_label: None,
        },
        payouts: Payouts {
            payout_id: text("payout_1"),
            payout_method_id: None,
            amount: MinorUnit { value: 100 },
            destination_currency: text("EUR"),
            source_currency: text("EUR"),
            description: None,
            recurring: false,
            auto_fulfill: false,
            return_url: None,
            entity_type: PayoutEntityType::Individual,
            metadata: None,
            payout_type: Some(PayoutType::Card),
        },
    }
}

fn rule(name: &str) -> StraightThroughAlgorithm {
    StraightThroughAlgorithm { json: serde_json::Value::String(text(name)) }
}

fn routing(algorithm: Option<StraightThroughAlgorithm>) -> RoutingData {
    RoutingData {
        routed_through: None,
        merchant_connector_id: None,
        routing_info: PaymentRoutingInfo {
            algorithm: None,
            pre_routing_results: Some(serde_json::Value::Null),
        },
        algorithm,
    }
}

fn choice(name: &str) -> RoutableConnectorChoice {
    RoutableConnectorChoice {
        connector: text(name),
        merchant_connector_id: Some(format!("mca_{}", name)),
    }
}

fn connector(name: &str) -> ConnectorData {
    ConnectorData { connector_name: text(name), merchant_connector_id: Some(text("mca_attempt")) }
}

fn lookup(name: &str) -> DecideRequest {
    DecideRequest::GetPayoutConnector {
        connector_name: text(name),
        merchant_connector_id: Some(text("mca_attempt")),
    }
}

fn asked(step: DecideStep) -> (DecideState, DecideRequest) {
    match step {
        DecideStep::Ask(state, request) => (state, request),
        DecideStep::Done(outcome) => panic!("ended with {:?}", outcome),
    }
}

fn ended(step: DecideStep) -> DecideOutcome {
    match step {
        DecideStep::Done(outcome) => outcome,
        DecideStep::Ask(_, request) => panic!("asked for {:?}", request),
    }
}

fn found(name: &str) -> DecideReply {
    DecideReply::PayoutConnectorFound(Ok(connector(name)))
}

#[test]
fn rule_in_the_request_goes_straight_through() {
    assert_eq!(get_default_payout_connector(None), Ok(ConnectorChoice::Decide));
    assert_eq!(
        get_default_payout_connector(Some(serde_json::Value::Bool(true))),
        Ok(ConnectorChoice::StraightThrough(serde_json::Value::Bool(true)))
    );
}

#[test]
fn stored_connector_is_used_again() {
    let (state, request) = asked(decide_payout_connector(
        Some(rule("r")),
        routing(Some(rule("s"))),
        payout(Some("adyen")),
        None,
    ));
    assert_eq!(request, lookup("adyen"));
    let outcome = ended(resume_decide_payout_connector(state, found("adyen")));
    assert_eq!(outcome.result, Ok(ConnectorCallType::PreDetermined(connector("adyen"))));
    assert_eq!(
        outcome.routing_data,
        RoutingData { routed_through: Some(text("adyen")), ..routing(Some(rule("s"))) }
    );
}

#[test]
fn unknown_stored_connector_is_internal() {
    let (state, _) =
        asked(decide_payout_connector(None, routing(None), payout(Some("adyen")), None));
    let outcome = ended(resume_decide_payout_connector(
        state,
        DecideReply::PayoutConnectorFound(Err(OperationFailed)),
    ));
    assert_eq!(outcome.result, Err(ApiErrorResponse::InternalServerError));
    assert_eq!(outcome.routing_data, routing(None));
}

#[test]
fn rule_of_the_request_decides_in_its_order() {
    let (state, request) = asked(decide_payout_connector(
        Some(rule("r")),
        routing(Some(rule("s"))),
        payout(None),
        Some(vec![text("wise")]),
    ));
    assert_eq!(request, DecideRequest::PerformStraightThroughRouting { algorithm: rule("r") });
    let (state, request) = asked(resume_decide_payout_connector(
        state,
        DecideReply::RoutedStraightThrough(Ok((vec![choice("adyen"), choice("wise")], true))),
    ));
    assert_eq!(
        request,
        DecideRequest::PerformEligibilityAnalysis {
            connectors: vec![choice("adyen"), choice("wise")],
            payout_data: payout(None),
            eligible_connectors: Some(vec![text("wise")]),
            profile_id: Some(text("pro_1")),
        }
    );
    let (state, request) = asked(resume_decide_payout_connector(
        state,
        DecideReply::EligibilityAnalysed(Ok(vec![choice("wise"), choice("stripe")])),
    ));
    assert_eq!(request, lookup("wise"));
    let (state, request) = asked(resume_decide_payout_connector(state, found("wise")));
    assert_eq!(request, lookup("stripe"));
    let outcome = ended(resume_decide_payout_connector(state, found("stripe")));
    assert_eq!(
        outcome.result,
        Ok(ConnectorCallType::Retryable(vec![connector("wise"), connector("stripe")]))
    );
    assert_eq!(
        outcome.routing_data,
        RoutingData {
            routed_through: Some(text("wise")),
            merchant_connector_id: Some(text("mca_wise")),
            routing_info: PaymentRoutingInfo {
                algorithm: Some(rule("r")),
                pre_routing_results: Some(serde_json::Value::Null),
            },
            algorithm: Some(rule("s")),
        }
    );
}

#[test]
fn rule_of_the_routing_data_leaves_out_the_first() {
    let (state, request) =
        asked(decide_payout_connector(None, routing(Some(rule("s"))), payout(None), None));
    assert_eq!(request, DecideRequest::PerformStraightThroughRouting { algorithm: rule("s") });
    let (state, request) = asked(resume_decide_payout_connector(
        state,
        DecideReply::RoutedStraightThrough(Ok((vec![choice("adyen"), choice("wise")], false))),
    ));
    assert_eq!(request, lookup("wise"));
    let outcome = ended(resume_decide_payout_connector(state, found("wise")));
    assert_eq!(outcome.result, Ok(ConnectorCallType::Retryable(vec![connector("wise")])));
    assert_eq!(
        outcome.routing_data,
        RoutingData {
            routed_through: Some(text("adyen")),
            merchant_connector_id: Some(text("mca_adyen")),
            ..routing(Some(rule("s")))
        }
    );
}

#[test]
fn single_connector_of_the_routing_data_needs_no_lookup() {
    let (state, _) =
        asked(decide_payout_connector(None, routing(Some(rule("s"))), payout(None), None));
    let outcome = ended(resume_decide_payout_connector(
        state,
        DecideReply::RoutedStraightThrough(Ok((vec![choice("adyen")], false))),
    ));
    assert_eq!(outcome.result, Ok(ConnectorCallType::Retryable(vec![])));
    assert_eq!(outcome.routing_data.routed_through, Some(text("adyen")));
}

#[test]
fn empty_list_is_a_configuration_error() {
    for source in [Some(rule("r")), None] {
        let (state, _) =
            asked(decide_payout_connector(source, routing(Some(rule("s"))), payout(None), None));
        let outcome = ended(resume_decide_payout_connector(
            state,
            DecideReply::RoutedStraightThrough(Ok((vec![], false))),
        ));
        assert_eq!(outcome.result, Err(ApiErrorResponse::IncorrectPaymentMethodConfiguration));
        assert_eq!(outcome.routing_data, routing(Some(rule("s"))));
    }
}

#[test]
fn routing_failures_are_internal() {
    let begin = || asked(decide_payout_connector(Some(rule("r")), routing(None), payout(None), None)).0;
    let outcome = ended(resume_decide_payout_connector(
        begin(),
        DecideReply::RoutedStraightThrough(Err(OperationFailed)),
    ));
    assert_eq!(outcome.result, Err(ApiErrorResponse::InternalServerError));
    let (state, _) = asked(resume_decide_payout_connector(
        begin(),
        DecideReply::RoutedStraightThrough(Ok((vec![], true))),
    ));
    let outcome = ended(resume_decide_payout_connector(
        state,
        DecideReply::EligibilityAnalysed(Err(OperationFailed)),
    ));
    assert_eq!(outcome.result, Err(ApiErrorResponse::InternalServerError));
    let (state, _) = asked(resume_decide_payout_connector(
        begin(),
        DecideReply::RoutedStraightThrough(Ok((vec![choice("a"), choice("b")], false))),
    ));
    let (state, _) = asked(resume_decide_payout_connector(state, found("a")));
    let outcome = ended(resume_decide_payout_connector(
        state,
        DecideReply::PayoutConnectorFound(Err(OperationFailed)),
    ));
    assert_eq!(outcome.result, Err(ApiErrorResponse::InternalServerError));
    assert_eq!(outcome.routing_data, routing(None));
}

#[test]
fn merchant_rules_are_handed_on() {
    let (state, request) = asked(decide_payout_connector(
        None,
        routing(None),
        payout(None),
        Some(vec![text("wise")]),
    ));
    assert_eq!(
        request,
        DecideRequest::RouteConnector {
            payout_data: payout(None),
            routing_data: routing(None),
            eligible_connectors: Some(vec![text("wise")]),
        }
    );
    let left = RoutingData { routed_through: Some(text("wise")), ..routing(None) };
    let outcome = ended(resume_decide_payout_connector(
        state,
        DecideReply::ConnectorRouted(
            left.clone(),
            Err(ApiErrorResponse::IncorrectPaymentMethodConfiguration),
        ),
    ));
    assert_eq!(outcome.result, Err(ApiErrorResponse::IncorrectPaymentMethodConfiguration));
    assert_eq!(outcome.routing_data, left);
}

#[test]
fn same_rule_in_the_routing_data_leaves_out_the_first() {
    let decide = |request: Option<StraightThroughAlgorithm>,
                  stored: Option<StraightThroughAlgorithm>| {
        let mut step = decide_payout_connector(request, routing(stored), payout(None), None);
        loop {
            match step {
                DecideStep::Done(outcome) => break outcome,
                DecideStep::Ask(state, request) => {
                    let reply = match request {
                        DecideRequest::PerformStraightThroughRouting { .. } => {
                            DecideReply::RoutedStraightThrough(Ok((vec![choice("x")], true)))
                        }
                        DecideRequest::PerformEligibilityAnalysis { .. } => {
                            DecideReply::EligibilityAnalysed(Ok(vec![
                                choice("adyen"),
                                choice("wise"),
                                choice("stripe"),
                            ]))
                        }
                        DecideRequest::GetPayoutConnector { connector_name, .. } => {
                            found(&connector_name)
                        }
                        other => panic!("asked for {:?}", other),
                    };
                    step = resume_decide_payout_connector(state, reply);
                }
            }
        }
    };
    let first = decide(Some(rule("r")), None);
    let second = decide(None, Some(rule("r")));
    assert_eq!(
        first.result,
        Ok(ConnectorCallType::Retryable(vec![
            connector("adyen"),
            connector("wise"),
            connector("stripe"),
        ]))
    );
    assert_eq!(
        second.result,
        Ok(ConnectorCallType::Retryable(vec![connector("wise"), connector("stripe")]))
    );
    assert_eq!(first.routing_data.routed_through, Some(text("adyen")));
    assert_eq!(second.routing_data.routed_through, Some(text("adyen")));
    assert_eq!(first.routing_data.merchant_connector_id, Some(text("mca_adyen")));
    assert_eq!(second.routing_data.merchant_connector_id, Some(text("mca_adyen")));
}

#[test]
fn routing_ends_after_its_last_lookup() {
    for given in 0..4usize {
        for (request, stored, lookups) in [
            (Some(rule("r")), None, given),
            (None, Some(rule("s")), given.saturating_sub(1)),
        ] {
            let mut replies = 0usize;
            let mut step = decide_payout_connector(request, routing(stored), payout(None), None);
            while let DecideStep::Ask(state, request) = step {
                let reply = match request {
                    DecideRequest::PerformStraightThroughRouting { .. } => {
                        let connectors = (0..given).map(|i| choice(&format!("c{}", i))).collect();
                        DecideReply::RoutedStraightThrough(Ok((connectors, false)))
                    }
                    DecideRequest::GetPayoutConnector { connector_name, .. } => {
                        found(&connector_name)
                    }
                    other => panic!("asked for {:?}", other),
                };
                replies += 1;
                step = resume_decide_payout_connector(state, reply);
            }
            assert_eq!(replies, 1 + lookups);
        }
    }
}
