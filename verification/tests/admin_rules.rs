//! The administrative module-identities endpoint rules.

use azure_iot_mqtt::admin::body_status;
use azure_iot_mqtt::admin::plan_create_or_list;
use azure_iot_mqtt::admin::plan_get_identities;
use azure_iot_mqtt::admin::rejection_status;
use azure_iot_mqtt::admin::AdminMethod;
use azure_iot_mqtt::admin::RoutePlan;

fn chars(s: &str) -> Vec<char> {
    s.chars().collect()
}

#[test]
fn other_paths_are_forwarded() {
    let plan = plan_create_or_list(&chars("/identities/devices"), AdminMethod::Get, &None);
    assert_eq!(plan, RoutePlan::Forward);
    let plan = plan_get_identities(&chars("/"), AdminMethod::Get, &None);
    assert_eq!(plan, RoutePlan::Forward);
}

#[test]
fn create_or_list_get_lists_without_content_type() {
    let plan = plan_create_or_list(&chars("/identities/modules"), AdminMethod::Get, &None);
    assert_eq!(plan, RoutePlan::List);
}

#[test]
fn create_or_list_post_requires_json() {
    let plan = plan_create_or_list(
        &chars("/identities/modules"),
        AdminMethod::Post,
        &Some(chars("application/json")),
    );
    assert_eq!(plan, RoutePlan::Create);

    let plan = plan_create_or_list(
        &chars("/identities/modules"),
        AdminMethod::Post,
        &Some(chars("text/plain")),
    );
    assert_eq!(plan, RoutePlan::UnsupportedMediaType);

    let plan = plan_create_or_list(&chars("/identities/modules"), AdminMethod::Post, &None);
    assert_eq!(plan, RoutePlan::UnsupportedMediaType);
}

#[test]
fn create_or_list_other_method_refused() {
    let plan = plan_create_or_list(&chars("/identities/modules"), AdminMethod::Other, &None);
    assert_eq!(plan, RoutePlan::MethodNotAllowed);
}

#[test]
fn get_identities_requires_get_and_json() {
    let plan = plan_get_identities(
        &chars("/identities/modules"),
        AdminMethod::Get,
        &Some(chars("application/json")),
    );
    assert_eq!(plan, RoutePlan::List);

    let plan = plan_get_identities(
        &chars("/identities/modules"),
        AdminMethod::Post,
        &Some(chars("application/json")),
    );
    assert_eq!(plan, RoutePlan::MethodNotAllowed);

    let plan = plan_get_identities(
        &chars("/identities/modules"),
        AdminMethod::Get,
        &Some(chars("text/plain")),
    );
    assert_eq!(plan, RoutePlan::UnsupportedMediaType);
}

#[test]
fn rejection_statuses_match_contract() {
    assert_eq!(rejection_status(RoutePlan::MethodNotAllowed), Some(405));
    assert_eq!(rejection_status(RoutePlan::UnsupportedMediaType), Some(415));
    assert_eq!(rejection_status(RoutePlan::List), None);
    assert_eq!(rejection_status(RoutePlan::Create), None);
    assert_eq!(rejection_status(RoutePlan::Forward), None);
}

#[test]
fn body_statuses_match_contract() {
    assert_eq!(body_status(false, false), 400);
    assert_eq!(body_status(true, false), 422);
    assert_eq!(body_status(true, true), 200);
}
