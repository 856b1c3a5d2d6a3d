use graphql_int64::client::DecodeError;
use graphql_int64::server::ParseError;
use graphql_int64::value::{GraphValue, ValueTag};
use graphql_int64::{Int64Scalar, UInt64Scalar};

#[test]
fn async_graphql_with_i64() {
    assert_eq!(
        Int64Scalar(i64::MAX).to_value(),
        GraphValue::String("9223372036854775807".to_owned())
    );
    assert_eq!(
        Int64Scalar::parse(GraphValue::String("9223372036854775807".to_owned())).unwrap(),
        Int64Scalar(i64::MAX)
    );
}

#[test]
fn async_graphql_with_u64() {
    assert_eq!(
        UInt64Scalar(u64::MAX).to_value(),
        GraphValue::String("18446744073709551615".to_owned())
    );
    assert_eq!(
        UInt64Scalar::parse(GraphValue::String("18446744073709551615".to_owned())).unwrap(),
        UInt64Scalar(u64::MAX)
    );
}

#[test]
fn cynic_with_i64() {
    assert_eq!(
        Int64Scalar(i64::MAX).encode().unwrap(),
        GraphValue::String("9223372036854775807".to_owned())
    );
    assert_eq!(
        Int64Scalar::decode(&GraphValue::String("9223372036854775807".to_owned())).unwrap(),
        Int64Scalar(i64::MAX)
    );
    assert_eq!(
        Int64Scalar(i64::MAX).serialize().unwrap(),
        GraphValue::String("9223372036854775807".to_owned())
    );
}

#[test]
fn cynic_with_u64() {
    assert_eq!(
        UInt64Scalar(u64::MAX).encode().unwrap(),
        GraphValue::String("18446744073709551615".to_owned())
    );
    assert_eq!(
        UInt64Scalar::decode(&GraphValue::String("18446744073709551615".to_owned())).unwrap(),
        UInt64Scalar(u64::MAX)
    );
    assert_eq!(
        UInt64Scalar(u64::MAX).serialize().unwrap(),
        GraphValue::String("18446744073709551615".to_owned())
    );
}

#[test]
fn server_to_client_round_trip() {
    let sent = UInt64Scalar(18446744073709551615);
    let node = sent.to_value();
    assert_eq!(node, GraphValue::String("18446744073709551615".to_owned()));
    assert_eq!(UInt64Scalar::decode(&node).unwrap(), sent);
}

#[test]
fn parse_rejects_non_string_nodes() {
    assert_eq!(
        Int64Scalar::parse(GraphValue::Number),
        Err(ParseError::TypeMismatch(GraphValue::Number))
    );
    assert_eq!(
        Int64Scalar::parse(GraphValue::Null),
        Err(ParseError::TypeMismatch(GraphValue::Null))
    );
    assert_eq!(
        UInt64Scalar::parse(GraphValue::Number),
        Err(ParseError::TypeMismatch(GraphValue::Number))
    );
    assert_eq!(
        UInt64Scalar::parse(GraphValue::Boolean(true)),
        Err(ParseError::TypeMismatch(GraphValue::Boolean(true)))
    );
    assert_eq!(
        UInt64Scalar::parse(GraphValue::List(vec![GraphValue::Null])),
        Err(ParseError::TypeMismatch(GraphValue::List(vec![GraphValue::Null])))
    );
}

#[test]
fn decode_rejects_non_string_nodes() {
    match Int64Scalar::decode(&GraphValue::Number) {
        Err(DecodeError::IncorrectType { expected, actual }) => {
            assert_eq!(expected, "String");
            assert_eq!(actual, ValueTag::Number);
        }
        other => panic!("expected a type mismatch, got {:?}", other),
    }
    match UInt64Scalar::decode(&GraphValue::Null) {
        Err(DecodeError::IncorrectType { expected, actual }) => {
            assert_eq!(expected, "String");
            assert_eq!(actual, ValueTag::Null);
        }
        other => panic!("expected a type mismatch, got {:?}", other),
    }
    match UInt64Scalar::decode(&GraphValue::Object(vec![(
        "echo".to_owned(),
        GraphValue::Number,
    )])) {
        Err(DecodeError::IncorrectType { expected, actual }) => {
            assert_eq!(expected, "String");
            assert_eq!(actual, ValueTag::Object);
        }
        other => panic!("expected a type mismatch, got {:?}", other),
    }
}
