use charted::auth::ApiKeyStrategy;
use charted::containers::indexes::decimal_text;
use charted::containers::{IndexesContainer, Lookup};
use charted::models::{APIResponse, ApiError, ChartIndexYaml, Empty, Timestamp};
use charted::{APIClient, ClientError, Method};

fn envelope_of(payload: &str) -> Result<APIResponse<Empty>, serde_json::Error> {
    let value: serde_json::Value = serde_json::from_str(payload)?;
    let errors = value.get("errors").and_then(|listed| listed.as_array()).map(|listed| {
        listed
            .iter()
            .map(|error| ApiError {
                code: error["code"].as_str().unwrap().to_string(),
                message: error["message"].as_str().unwrap().to_string(),
            })
            .collect()
    });
    Ok(APIResponse { success: value["success"].as_bool().unwrap(), data: None, errors })
}

fn yaml_failure(payload: &str) -> ClientError {
    let decoded: Result<Vec<u32>, serde_yaml::Error> = serde_yaml::from_str(payload);
    APIClient::request_yaml(payload.to_string(), decoded).unwrap_err()
}

fn lookup(payload: &str) -> Result<Option<ChartIndexYaml>, ClientError> {
    match IndexesContainer::first_reading::<ChartIndexYaml>(Err(yaml_failure(payload))) {
        Lookup::Reparse { payload } => {
            let envelope = envelope_of(&payload);
            IndexesContainer::second_reading(payload, envelope)
        }
        Lookup::Found(document) => Ok(Some(document)),
        Lookup::Failed(failure) => Err(failure),
    }
}

#[test]
fn decimal_notation() {
    assert_eq!(decimal_text(0), "0");
    assert_eq!(decimal_text(7), "7");
    assert_eq!(decimal_text(10), "10");
    assert_eq!(decimal_text(123), "123");
    assert_eq!(decimal_text(1002003), "1002003");
    assert_eq!(decimal_text(u64::MAX), "18446744073709551615");
}

#[test]
fn request_by_id() {
    let container = APIClient::default_with_url("http://h").indexes();
    let request = container.get_by_id_request(123).unwrap();
    assert_eq!(request.url, "http://h/indexes/123");
    assert_eq!(request.method, Method::Get);
    assert!(request.body.is_none());
    assert!(request.headers.is_empty());
}

#[test]
fn request_by_name() {
    let container = APIClient::default_with_auth(ApiKeyStrategy::new("k")).indexes();
    let request = container.get_request("noel").unwrap();
    assert_eq!(request.url, "https://charts.noelware.org/api/indexes/noel");
    assert_eq!(request.headers.get("authorization").unwrap(), "ApiKey k");
}

#[test]
fn document_is_found() {
    let document = ChartIndexYaml {
        api_version: "v1".to_string(),
        entries: Default::default(),
        generated: Timestamp { seconds: 1672531200, nanoseconds: 5 },
    };
    match IndexesContainer::first_reading(Ok(document)) {
        Lookup::Found(found) => {
            assert_eq!(found.api_version, "v1");
            assert_eq!(found.generated, Timestamp { seconds: 1672531200, nanoseconds: 5 });
            assert!(found.entries.is_empty());
        }
        other => panic!("unexpected step: {other:?}"),
    }
}

#[test]
fn payload_that_is_no_document_is_read_again() {
    let payload = "{\"success\":false,\"errors\":[]}";
    match IndexesContainer::first_reading::<ChartIndexYaml>(Err(yaml_failure(payload))) {
        Lookup::Reparse { payload: kept } => assert_eq!(kept, payload),
        other => panic!("unexpected step: {other:?}"),
    }
}

#[test]
fn other_failures_stand() {
    let failure = ClientError::String("down".to_string());
    match IndexesContainer::first_reading::<ChartIndexYaml>(Err(failure)) {
        Lookup::Failed(ClientError::String(message)) => assert_eq!(message, "down"),
        other => panic!("unexpected step: {other:?}"),
    }
    let decoded: Result<u32, serde_json::Error> = serde_json::from_str("x");
    let failure = APIClient::request_json("x".to_string(), decoded).unwrap_err();
    match IndexesContainer::first_reading::<ChartIndexYaml>(Err(failure)) {
        Lookup::Failed(ClientError::JsonSerialization { payload, .. }) => assert_eq!(payload, "x"),
        other => panic!("unexpected step: {other:?}"),
    }
}

#[test]
fn not_found_is_absence() {
    let payload = "{\"success\":false,\"errors\":[{\"code\":\"REST_HANDLER_NOT_FOUND\",\"message\":\"Route was not found\"}]}";
    assert!(matches!(lookup(payload), Ok(None)));
}

#[test]
fn not_found_counts_only_in_first_place() {
    let payload = "{\"success\":false,\"errors\":[{\"code\":\"OTHER\",\"message\":\"a\"},{\"code\":\"REST_HANDLER_NOT_FOUND\",\"message\":\"b\"}]}";
    match lookup(payload) {
        Err(ClientError::APIServer { errors }) => {
            assert_eq!(errors.len(), 2);
            assert_eq!(errors[0].code, "OTHER");
            assert_eq!(errors[1].code, "REST_HANDLER_NOT_FOUND");
        }
        other => panic!("unexpected outcome: {other:?}"),
    }
}

#[test]
fn other_code_is_a_failure_of_the_registry() {
    let payload =
        "{\"success\":false,\"errors\":[{\"code\":\"INTERNAL_SERVER_ERROR\",\"message\":\"boom\"}]}";
    match lookup(payload) {
        Err(ClientError::APIServer { errors }) => {
            assert_eq!(errors.len(), 1);
            assert_eq!(errors[0].code, "INTERNAL_SERVER_ERROR");
            assert_eq!(errors[0].message, "boom");
        }
        other => panic!("unexpected outcome: {other:?}"),
    }
}

#[test]
fn code_is_compared_exactly() {
    for code in ["rest_handler_not_found", "REST_HANDLER_NOT_FOUND ", "REST_HANDLER_NOT_FOUN"] {
        let envelope = APIResponse {
            success: false,
            data: None,
            errors: Some(vec![ApiError { code: code.to_string(), message: String::new() }]),
        };
        let found = IndexesContainer::second_reading::<ChartIndexYaml>(String::new(), Ok(envelope));
        assert!(matches!(found, Err(ClientError::APIServer { .. })));
    }
}

#[test]
fn success_in_an_envelope_is_a_failure_of_the_registry() {
    let envelope = APIResponse {
        success: true,
        data: Some(Empty {}),
        errors: Some(vec![ApiError {
            code: "REST_HANDLER_NOT_FOUND".to_string(),
            message: String::new(),
        }]),
    };
    match IndexesContainer::second_reading::<ChartIndexYaml>("p".to_string(), Ok(envelope)) {
        Err(ClientError::APIServer { errors }) => {
            assert_eq!(errors.len(), 1);
            assert_eq!(errors[0].code, "REST_HANDLER_NOT_FOUND");
        }
        other => panic!("unexpected outcome: {other:?}"),
    }
}

#[test]
fn envelope_without_errors_is_a_failure_with_none() {
    for success in [true, false] {
        let envelope = APIResponse { success, data: None, errors: None };
        match IndexesContainer::second_reading::<ChartIndexYaml>(String::new(), Ok(envelope)) {
            Err(ClientError::APIServer { errors }) => assert!(errors.is_empty()),
            other => panic!("unexpected outcome: {other:?}"),
        }
    }
    let envelope = APIResponse { success: false, data: None, errors: Some(Vec::new()) };
    match IndexesContainer::second_reading::<ChartIndexYaml>(String::new(), Ok(envelope)) {
        Err(ClientError::APIServer { errors }) => assert!(errors.is_empty()),
        other => panic!("unexpected outcome: {other:?}"),
    }
}

#[test]
fn payload_that_is_neither_fails_with_the_second_diagnostic() {
    let payload = ": not yaml for a list, {not json either";
    let second = serde_json::from_str::<serde_json::Value>(payload).unwrap_err().to_string();
    match lookup(payload) {
        Err(ClientError::JsonSerialization { error, payload: kept }) => {
            assert_eq!(kept, payload);
            assert_eq!(error.to_string(), second);
        }
        other => panic!("unexpected outcome: {other:?}"),
    }
}

#[test]
fn lookups_repeat() {
    let payload = "{\"success\":false,\"errors\":[{\"code\":\"REST_HANDLER_NOT_FOUND\",\"message\":\"m\"}]}";
    assert!(matches!(lookup(payload), Ok(None)));
    assert!(matches!(lookup(payload), Ok(None)));
    let payload = "{\"success\":false,\"errors\":[{\"code\":\"E\",\"message\":\"m\"}]}";
    let codes = |outcome: Result<Option<ChartIndexYaml>, ClientError>| match outcome {
        Err(ClientError::APIServer { errors }) => {
            errors.into_iter().map(|error| (error.code, error.message)).collect::<Vec<_>>()
        }
        other => panic!("unexpected outcome: {other:?}"),
    };
    assert_eq!(codes(lookup(payload)), codes(lookup(payload)));
}
