use demo_actions::params::{decode_params, ActionParams};

fn decoded(text: &str) -> ActionParams {
    match decode_params(text) {
        Ok(params) => params,
        Err(error) => panic!("{} was refused: {}", text, error.message),
    }
}

fn nothing() -> ActionParams {
    ActionParams { amount: None, count: None, show_counter: None, show_stats: None }
}

#[test]
fn empty_object_gives_no_parameter() {
    assert_eq!(decoded("{}"), nothing());
}

#[test]
fn numbers_are_read_under_their_own_keys() {
    assert_eq!(
        decoded(r#"{"count": 7, "amount": 5}"#),
        ActionParams { amount: Some(5), count: Some(7), ..nothing() }
    );
    assert_eq!(decoded(r#"{"amount": 5}"#), ActionParams { amount: Some(5), ..nothing() });
    assert_eq!(decoded(r#"{"count": -12}"#), ActionParams { count: Some(-12), ..nothing() });
}

#[test]
fn flags_are_read_under_their_own_keys() {
    assert_eq!(
        decoded(r#"{"showCounter": true, "showStats": false}"#),
        ActionParams { show_counter: Some(true), show_stats: Some(false), ..nothing() }
    );
    assert_eq!(
        decoded(r#"{"showStats": true}"#),
        ActionParams { show_stats: Some(true), ..nothing() }
    );
}

#[test]
fn all_four_parameters_together() {
    assert_eq!(
        decoded(r#"{"showStats": true, "count": 1, "showCounter": false, "amount": 2}"#),
        ActionParams {
            amount: Some(2),
            count: Some(1),
            show_counter: Some(false),
            show_stats: Some(true),
        }
    );
}

#[test]
fn other_members_are_ignored() {
    assert_eq!(
        decoded(r#"{"Count": 1, "counts": 2, "note": "x", "count": 3}"#),
        ActionParams { count: Some(3), ..nothing() }
    );
}

#[test]
fn fractions_are_dropped() {
    assert_eq!(decoded(r#"{"count": 5.7}"#).count, Some(5));
    assert_eq!(decoded(r#"{"count": -5.7}"#).count, Some(-5));
    assert_eq!(decoded(r#"{"count": 0.999}"#).count, Some(0));
    assert_eq!(decoded(r#"{"amount": 2.0}"#).amount, Some(2));
    assert_eq!(decoded(r#"{"amount": 1e2}"#).amount, Some(100));
}

#[test]
fn numbers_beyond_thirty_two_bits_stop_at_the_ends() {
    assert_eq!(decoded(r#"{"count": 2147483647}"#).count, Some(i32::MAX));
    assert_eq!(decoded(r#"{"count": 2147483648}"#).count, Some(i32::MAX));
    assert_eq!(decoded(r#"{"count": 3000000000}"#).count, Some(i32::MAX));
    assert_eq!(decoded(r#"{"count": 1e300}"#).count, Some(i32::MAX));
    assert_eq!(decoded(r#"{"count": -2147483648}"#).count, Some(i32::MIN));
    assert_eq!(decoded(r#"{"count": -2147483649}"#).count, Some(i32::MIN));
    assert_eq!(decoded(r#"{"count": -1e300}"#).count, Some(i32::MIN));
}

#[test]
fn a_member_of_another_type_counts_as_absent() {
    assert_eq!(
        decoded(r#"{"count": "7", "amount": true, "showCounter": 1, "showStats": "true"}"#),
        nothing()
    );
    assert_eq!(decoded(r#"{"count": null, "amount": [1], "showCounter": {}}"#), nothing());
}

#[test]
fn a_document_that_is_no_object_gives_no_parameter() {
    assert_eq!(decoded("5"), nothing());
    assert_eq!(decoded("[1, 2]"), nothing());
    assert_eq!(decoded("\"count\""), nothing());
    assert_eq!(decoded("null"), nothing());
    assert_eq!(decoded("true"), nothing());
}

#[test]
fn the_last_of_two_members_of_one_name_is_read() {
    assert_eq!(decoded(r#"{"count": 1, "count": 2}"#).count, Some(2));
}

#[test]
fn text_that_is_not_json_is_refused() {
    for text in ["", "{", "{count: 1}", "{\"count\": }", "{} {}", "nonsense", "{\"count\": 1,}"] {
        let error = match decode_params(text) {
            Ok(params) => panic!("{:?} was read as {:?}", text, params),
            Err(error) => error,
        };
        assert!(error.message.starts_with("Failed to parse params: "), "{}", error.message);
        assert!(error.message.len() > "Failed to parse params: ".len());
    }
}

#[test]
fn the_refusal_says_what_the_parser_said() {
    let text = "{\"count\": ";
    let said = match serde_json::from_str::<serde_json::Value>(text) {
        Ok(value) => panic!("{:?}", value),
        Err(error) => error.to_string(),
    };
    let error = decode_params(text).unwrap_err();
    assert_eq!(error.message, format!("Failed to parse params: {}", said));
    assert_eq!(
        error.message,
        "Failed to parse params: EOF while parsing a value at line 1 column 10"
    );
}

#[test]
fn decoding_agrees_with_the_parser() {
    let text = r#"{"count": 12.75, "amount": 3, "showCounter": true}"#;
    let doc: serde_json::Value = serde_json::from_str(text).unwrap();
    let params = decoded(text);
    assert_eq!(params.count, doc.get("count").and_then(|v| v.as_f64()).map(|x| x as i32));
    assert_eq!(params.amount, doc.get("amount").and_then(|v| v.as_f64()).map(|x| x as i32));
    assert_eq!(params.show_counter, doc.get("showCounter").and_then(|v| v.as_bool()));
    assert_eq!(params.show_stats, doc.get("showStats").and_then(|v| v.as_bool()));
    assert_eq!(params.count, Some(12));
}
