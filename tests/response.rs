use reqwest::header::HeaderMap;
use serde::de::Error as _;
use serde_json::Value;
use sf_client::response::{classify, classify_deleted, is_expected, Expected, SfResponse};
use sf_client::{
    CreateObjectResponse, ObjectDescription, ObjectDescriptionResponse,
    ObjectDescriptionsResponse, SfApiError, SfError,
};

fn field(v: &Value, name: &str) -> Result<String, serde_json::Error> {
    match v.get(name).and_then(Value::as_str) {
        Some(s) => Ok(s.to_string()),
        None => Err(serde_json::Error::missing_field("field")),
    }
}

fn description(v: &Value) -> Result<ObjectDescription, serde_json::Error> {
    Ok(ObjectDescription { name: field(v, "name")?, label: field(v, "label")? })
}

fn decode_description(body: &str) -> Result<ObjectDescriptionResponse, serde_json::Error> {
    let v: Value = serde_json::from_str(body)?;
    match v.get("objectDescribe") {
        Some(d) => Ok(ObjectDescriptionResponse { object_describe: description(d)? }),
        None => Err(serde_json::Error::missing_field("objectDescribe")),
    }
}

fn decode_errors(body: &str) -> Result<Vec<SfApiError>, serde_json::Error> {
    let v: Vec<Value> = serde_json::from_str(body)?;
    let mut out = Vec::new();
    for e in v.iter() {
        out.push(SfApiError { error_code: field(e, "errorCode")?, message: field(e, "message")? });
    }
    Ok(out)
}

fn decode_created(body: &str) -> Result<CreateObjectResponse, serde_json::Error> {
    let v: Value = serde_json::from_str(body)?;
    let id = v.get("id").and_then(Value::as_str).map(|s| s.to_string());
    let success = match v.get("success").and_then(Value::as_bool) {
        Some(b) => b,
        None => return Err(serde_json::Error::missing_field("success")),
    };
    Ok(CreateObjectResponse { id, errors: vec![], success })
}

#[test]
fn test_describe_object() {
    let expected_response = ObjectDescriptionResponse {
        object_describe: ObjectDescription { name: "Lead".to_string(), label: "Lead".to_string() },
    };
    let body = r#"{"objectDescribe": {"name": "Lead", "label": "Lead"}}"#;
    let response = classify(
        Expected::Fetched,
        200,
        HeaderMap::new(),
        body,
        false,
        decode_description(body),
        decode_errors(body),
    );
    assert_eq!(expected_response, response.unwrap().body.unwrap());
}

#[test]
fn test_describe_objects() {
    let expected_response = ObjectDescriptionsResponse {
        encoding: "None".to_string(),
        max_batch_size: 200,
        sobjects: vec![ObjectDescription { name: "Lead".to_string(), label: "Lead".to_string() }],
    };
    let parsed = Ok(ObjectDescriptionsResponse {
        encoding: "None".to_string(),
        max_batch_size: 200,
        sobjects: vec![ObjectDescription { name: "Lead".to_string(), label: "Lead".to_string() }],
    });
    let body = r#"{"encoding":"None","maxBatchSize":200,"sobjects":[{"name":"Lead","label":"Lead"}]}"#;
    let response =
        classify(Expected::Fetched, 200, HeaderMap::new(), body, false, parsed, decode_errors(body));
    assert_eq!(expected_response, response.unwrap().body.unwrap());
}

#[test]
fn test_create_object_ok() {
    let expected_response =
        CreateObjectResponse { id: Some("12345".to_string()), errors: vec![], success: true };
    let body = r#"{"id": "12345", "errors": [], "success": true}"#;
    let response = classify(
        Expected::Created,
        201,
        HeaderMap::new(),
        body,
        false,
        decode_created(body),
        decode_errors(body),
    );
    let response = response.unwrap();
    assert_eq!(201, response.status);
    assert_eq!(expected_response, response.body.unwrap());
}

#[test]
fn test_create_object_err() {
    let expected_response = vec![SfApiError {
        error_code: "INVALID_NAME".to_string(),
        message: "Name contains invalid characters".to_string(),
    }];
    let body = r#"[{"errorCode":"INVALID_NAME","message":"Name contains invalid characters"}]"#;
    let response = classify(
        Expected::Created,
        400,
        HeaderMap::new(),
        body,
        false,
        decode_created(body),
        decode_errors(body),
    );
    let err = response.unwrap_err();

    assert!(matches!(err, SfError::ApiFailure(_)));

    if let SfError::ApiFailure(err) = err {
        assert_eq!(400, err.status);
        assert_eq!(expected_response, err.body.unwrap());
    }
}

#[test]
fn test_returns_body_on_deser_failure() {
    let expected_body = r#"{"invalid":"notvalid"}"#.to_string();
    let parsed: Result<String, serde_json::Error> =
        serde_json::from_str::<Value>(&expected_body).and_then(|v| field(&v, "id"));
    let response = classify(
        Expected::Fetched,
        200,
        HeaderMap::new(),
        &expected_body,
        false,
        parsed,
        decode_errors(&expected_body),
    );

    let err = response.unwrap_err();

    assert!(matches!(err, SfError::UnexpectedBody { .. }));

    if let SfError::UnexpectedBody { body, .. } = err {
        assert_eq!(expected_body, body);
    }
}

#[test]
fn update_with_empty_body_and_unit_type_has_no_body() {
    let parsed: Result<(), serde_json::Error> = serde_json::from_str("");
    let response =
        classify(Expected::Changed, 204, HeaderMap::new(), "", true, parsed, decode_errors(""));
    let response = response.unwrap();
    assert_eq!(204, response.status);
    assert_eq!(None, response.body);
}

#[test]
fn update_with_empty_body_and_other_type_is_malformed() {
    let parsed: Result<String, serde_json::Error> = serde_json::from_str("");
    let response =
        classify(Expected::Changed, 204, HeaderMap::new(), "", false, parsed, decode_errors(""));
    match response.unwrap_err() {
        SfError::UnexpectedBody { body, .. } => assert_eq!("", body),
        other => panic!("unexpected error {:?}", other),
    }
}

#[test]
fn update_accepts_ok_created_and_no_content() {
    for status in [200u16, 201, 204] {
        assert!(is_expected(Expected::Changed, status));
        let response =
            classify(Expected::Changed, status, HeaderMap::new(), "\"x\"", false, Ok(7u32), decode_errors("\"x\""));
        assert_eq!(Some(7), response.unwrap().body);
    }
    assert!(!is_expected(Expected::Changed, 202));
    assert!(!is_expected(Expected::Fetched, 201));
    assert!(!is_expected(Expected::Created, 200));
}

#[test]
fn unit_update_with_a_body_decodes_it() {
    let parsed: Result<(), serde_json::Error> = serde_json::from_str("null");
    let response =
        classify(Expected::Changed, 200, HeaderMap::new(), "null", true, parsed, decode_errors("null"));
    assert_eq!(Some(()), response.unwrap().body);
}

#[test]
fn failure_with_undecodable_errors_keeps_raw_body() {
    let body = "<html>gateway</html>";
    let response = classify(
        Expected::Fetched,
        502,
        HeaderMap::new(),
        body,
        false,
        Ok(1u8),
        decode_errors(body),
    );
    match response.unwrap_err() {
        SfError::UnexpectedBody { body: b, .. } => assert_eq!(body, b),
        other => panic!("unexpected error {:?}", other),
    }
}

#[test]
fn delete_succeeds_only_on_no_content() {
    let ok = classify_deleted(204, HeaderMap::new(), "", decode_errors(""));
    let ok: SfResponse<()> = ok.unwrap();
    assert_eq!(Some(()), ok.body);
    let body = r#"[{"errorCode":"ENTITY_IS_DELETED","message":"gone"}]"#;
    match classify_deleted(200, HeaderMap::new(), body, decode_errors(body)).unwrap_err() {
        SfError::ApiFailure(resp) => {
            assert_eq!(200, resp.status);
            assert_eq!("ENTITY_IS_DELETED", resp.body.unwrap()[0].error_code);
        }
        other => panic!("unexpected error {:?}", other),
    }
}
