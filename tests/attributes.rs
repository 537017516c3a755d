use samael::attribute::{
    Attribute, AttributeValue, GIVEN_NAME_URI, MAIL_URI, NAME_FORMAT_URI, SURNAME_URI,
};
use samael::schema::assertion::{Assertion, Error};
use samael::schema::attribute_statement::AttributeStatement;

fn uri_attribute(name: &str, values: Vec<AttributeValue>) -> Attribute {
    Attribute {
        name: Some(name.to_owned()),
        name_format: Some(NAME_FORMAT_URI.to_owned()),
        values,
        ..Default::default()
    }
}

fn untyped(v: &str) -> AttributeValue {
    AttributeValue {
        value: Some(v.to_owned()),
        ..Default::default()
    }
}

#[test]
fn attribute_value() {
    let statement = AttributeStatement {
        attributes: vec![
            Attribute {
                name: Some("urn:dummy".to_owned()),
                name_format: Some(NAME_FORMAT_URI.to_owned()),
                values: vec![AttributeValue {
                    attribute_type: Some("XSInteger".to_owned()),
                    value: Some("23".to_owned()),
                }],
                ..Default::default()
            },
            Attribute {
                name: Some(MAIL_URI.to_owned()),
                name_format: Some(NAME_FORMAT_URI.to_owned()),
                values: vec![AttributeValue {
                    attribute_type: Some("XSString".to_owned()),
                    value: Some("foo@example.com".to_owned()),
                }],
                ..Default::default()
            },
            Attribute {
                name: Some(SURNAME_URI.to_owned()),
                name_format: Some(NAME_FORMAT_URI.to_owned()),
                values: vec![AttributeValue {
                    value: Some("doe".to_owned()),
                    ..Default::default()
                }],
                ..Default::default()
            },
            Attribute {
                name: Some(GIVEN_NAME_URI.to_owned()),
                name_format: Some(NAME_FORMAT_URI.to_owned()),
                values: vec![AttributeValue {
                    value: Some("john".to_owned()),
                    ..Default::default()
                }],
                ..Default::default()
            },
            Attribute {
                name: Some(GIVEN_NAME_URI.to_owned()),
                name_format: Some(NAME_FORMAT_URI.to_owned()),
                values: vec![AttributeValue {
                    value: Some("colin".to_owned()),
                    ..Default::default()
                }],
                ..Default::default()
            },
        ],
    };
    let assertion = Assertion {
        attribute_statements: vec![statement],
        ..Default::default()
    };
    // With explicit xsi:type=XSString
    assert_eq!(
        assertion.attribute_value(MAIL_URI).unwrap(),
        "foo@example.com"
    );
    // Without explicit xsi:type
    assert_eq!(assertion.attribute_value(SURNAME_URI).unwrap(), "doe");
    // With explicit xsi:type=XSInteger
    assert!(matches!(
        assertion.attribute_value("urn:dummy"),
        Err(Error::NotFound { .. })
    ));
    // With multiple results
    assert!(matches!(
        assertion.attribute_value(GIVEN_NAME_URI),
        Err(Error::NotUnique { count: 2, .. })
    ));
    // With multiple results
    assert_eq!(
        assertion.attribute_values(GIVEN_NAME_URI),
        vec!["john", "colin"],
    );
}

#[test]
fn given_name_twice_is_not_unique_and_values_keep_statement_order() {
    let assertion = Assertion {
        attribute_statements: vec![
            AttributeStatement {
                attributes: vec![uri_attribute("given_name", vec![untyped("john")])],
            },
            AttributeStatement {
                attributes: vec![uri_attribute("given_name", vec![untyped("colin")])],
            },
        ],
        ..Default::default()
    };
    match assertion.attribute_value("given_name") {
        Err(Error::NotUnique { uri, count }) => {
            assert_eq!(uri, "given_name");
            assert_eq!(count, 2);
        }
        _ => panic!("expected NotUnique"),
    }
    assert_eq!(assertion.attribute_values("given_name"), vec!["john", "colin"]);
}

#[test]
fn lone_integer_value_is_not_found() {
    let assertion = Assertion {
        attribute_statements: vec![AttributeStatement {
            attributes: vec![uri_attribute(
                "urn:dummy",
                vec![AttributeValue {
                    attribute_type: Some("XSInteger".to_owned()),
                    value: Some("23".to_owned()),
                }],
            )],
        }],
        ..Default::default()
    };
    match assertion.attribute_value("urn:dummy") {
        Err(Error::NotFound { uri }) => assert_eq!(uri, "urn:dummy"),
        _ => panic!("expected NotFound"),
    }
    assert!(assertion.attribute_values("urn:dummy").is_empty());
}

#[test]
fn values_filter_types_and_missing_text() {
    let assertion = Assertion {
        attribute_statements: vec![AttributeStatement {
            attributes: vec![uri_attribute(
                "urn:x",
                vec![
                    untyped("a"),
                    AttributeValue {
                        attribute_type: Some("XSInteger".to_owned()),
                        value: Some("1".to_owned()),
                    },
                    AttributeValue {
                        attribute_type: Some("XSString".to_owned()),
                        value: Some("b".to_owned()),
                    },
                    AttributeValue {
                        attribute_type: None,
                        value: None,
                    },
                    AttributeValue {
                        attribute_type: Some("xsstring".to_owned()),
                        value: Some("c".to_owned()),
                    },
                ],
            )],
        }],
        ..Default::default()
    };
    assert_eq!(assertion.attribute_values("urn:x"), vec!["a", "b"]);
}

#[test]
fn lookup_matches_name_and_format_exactly() {
    let other_format = Attribute {
        name: Some("urn:x".to_owned()),
        name_format: Some("urn:oasis:names:tc:SAML:2.0:attrname-format:basic".to_owned()),
        values: vec![untyped("basic")],
        ..Default::default()
    };
    let no_format = Attribute {
        name: Some("urn:x".to_owned()),
        values: vec![untyped("none")],
        ..Default::default()
    };
    let assertion = Assertion {
        attribute_statements: vec![AttributeStatement {
            attributes: vec![
                other_format,
                uri_attribute("URN:X", vec![untyped("upper")]),
                no_format,
                uri_attribute("urn:x", vec![untyped("uri")]),
            ],
        }],
        ..Default::default()
    };
    let found = assertion.attributes_by_uri("urn:x");
    assert_eq!(found.len(), 1);
    assert_eq!(found[0].values[0].value.as_deref(), Some("uri"));
    let basic = assertion.attributes_by_name_and_format(
        "urn:x",
        "urn:oasis:names:tc:SAML:2.0:attrname-format:basic",
    );
    assert_eq!(basic.len(), 1);
    assert_eq!(basic[0].values[0].value.as_deref(), Some("basic"));
    assert_eq!(assertion.attribute_value("urn:x").unwrap(), "uri");
}

#[test]
fn no_statements_means_nothing_found() {
    let assertion = Assertion::default();
    assert!(assertion.attributes_by_uri(MAIL_URI).is_empty());
    assert!(matches!(
        assertion.attribute_value(MAIL_URI),
        Err(Error::NotFound { .. })
    ));
}
