//! Topic grammar: parsers and builders on concrete topics.

use azure_iot_mqtt::chars::format_u64;
use azure_iot_mqtt::topics::build_method_res_topic;
use azure_iot_mqtt::topics::build_report_topic;
use azure_iot_mqtt::topics::build_twin_get_topic;
use azure_iot_mqtt::topics::parse_direct_method;
use azure_iot_mqtt::topics::parse_patch;
use azure_iot_mqtt::topics::parse_twin_res;

fn chars(s: &str) -> Vec<char> {
    s.chars().collect()
}

fn string_of(v: &Vec<char>) -> String {
    v.iter().collect()
}

#[test]
fn direct_method_topic_parses() {
    let t = chars("$iothub/methods/POST/my-method/?$rid=1");
    let (name, rid) = parse_direct_method(&t).expect("should parse");
    assert_eq!(string_of(&name), "my-method");
    assert_eq!(string_of(&rid), "1");
}

#[test]
fn direct_method_rid_may_contain_slashes() {
    let t = chars("$iothub/methods/POST/m/?$rid=a/b");
    let (name, rid) = parse_direct_method(&t).expect("should parse");
    assert_eq!(string_of(&name), "m");
    assert_eq!(string_of(&rid), "a/b");
}

#[test]
fn direct_method_empty_name_rejected() {
    let t = chars("$iothub/methods/POST//?$rid=1");
    assert!(parse_direct_method(&t).is_none());
}

#[test]
fn direct_method_empty_rid_rejected() {
    let t = chars("$iothub/methods/POST/m/?$rid=");
    assert!(parse_direct_method(&t).is_none());
}

#[test]
fn direct_method_name_with_segment_rejected() {
    let t = chars("$iothub/methods/POST/a/b/?$rid=1");
    assert!(parse_direct_method(&t).is_none());
}

#[test]
fn direct_method_wrong_prefix_rejected() {
    let t = chars("$iothub/methods/GET/m/?$rid=1");
    assert!(parse_direct_method(&t).is_none());
}

#[test]
fn twin_response_without_version_parses() {
    let t = chars("$iothub/twin/res/200/?$rid=1");
    let (status, rid, version) = parse_twin_res(&t).expect("should parse");
    assert_eq!(status, 200);
    assert_eq!(string_of(&rid), "1");
    assert_eq!(version, None);
}

#[test]
fn twin_response_with_version_parses() {
    let t = chars("$iothub/twin/res/204/?$rid=17&$version=9");
    let (status, rid, version) = parse_twin_res(&t).expect("should parse");
    assert_eq!(status, 204);
    assert_eq!(string_of(&rid), "17");
    assert_eq!(version, Some(9));
}

#[test]
fn twin_response_leading_zero_status_rejected() {
    let t = chars("$iothub/twin/res/0200/?$rid=1");
    assert!(parse_twin_res(&t).is_none());
}

#[test]
fn twin_response_empty_rid_rejected() {
    let t = chars("$iothub/twin/res/200/?$rid=");
    assert!(parse_twin_res(&t).is_none());
}

#[test]
fn twin_response_unknown_parameter_rejected() {
    let t = chars("$iothub/twin/res/204/?$rid=1&bogus=2");
    assert!(parse_twin_res(&t).is_none());
}

#[test]
fn twin_response_huge_status_rejected() {
    let t = chars("$iothub/twin/res/99999999999999999999999/?$rid=1");
    assert!(parse_twin_res(&t).is_none());
}

#[test]
fn patch_topic_parses() {
    let t = chars("$iothub/twin/PATCH/properties/desired/?$version=8");
    assert_eq!(parse_patch(&t), Some(8));
}

#[test]
fn patch_topic_without_version_rejected() {
    let t = chars("$iothub/twin/PATCH/properties/desired/?$version=");
    assert_eq!(parse_patch(&t), None);
}

#[test]
fn patch_topic_trailing_junk_rejected() {
    let t = chars("$iothub/twin/PATCH/properties/desired/?$version=8x");
    assert_eq!(parse_patch(&t), None);
}

#[test]
fn twin_get_topic_built_exactly() {
    assert_eq!(string_of(&build_twin_get_topic(0)), "$iothub/twin/GET/?$rid=0");
    assert_eq!(string_of(&build_twin_get_topic(255)), "$iothub/twin/GET/?$rid=255");
}

#[test]
fn report_topic_built_exactly() {
    assert_eq!(
        string_of(&build_report_topic(7)),
        "$iothub/twin/PATCH/properties/reported/?$rid=7"
    );
}

#[test]
fn method_response_topic_built_exactly() {
    let rid = chars("12");
    assert_eq!(
        string_of(&build_method_res_topic(200, &rid)),
        "$iothub/methods/res/200/?$rid=12"
    );
}

#[test]
fn decimal_rendering_exact() {
    assert_eq!(string_of(&format_u64(0)), "0");
    assert_eq!(string_of(&format_u64(10)), "10");
    assert_eq!(string_of(&format_u64(255)), "255");
    assert_eq!(string_of(&format_u64(u64::MAX)), "18446744073709551615");
}
