use metahttp::body::{read_body_as_text, AggregatedBody};
use metahttp::engine::{on_transport_result, Exchange, Response, Step, TransportResult};
use metahttp::error::HttpError;
use metahttp::json::{decode_credential, Credential};

#[test]
fn read_body_round_trips_utf8() {
    let body = AggregatedBody::new("caf\u{e9} 123".as_bytes().to_vec());
    let text: Result<String, HttpError<String>> = read_body_as_text(body);
    assert_eq!(text.ok(), Some("caf\u{e9} 123".to_string()));
}

#[test]
fn read_body_invalid_utf8_fails() {
    let body = AggregatedBody::new(vec![b'a', 0xFF, b'b']);
    let text: Result<String, HttpError<String>> = read_body_as_text(body);
    assert!(matches!(text, Err(HttpError::InvalidUTF8)));
}

#[test]
fn aggregated_body_hands_its_bytes_back() {
    let body = AggregatedBody::new(vec![0, 159, 146, 150]);
    assert_eq!(body.into_bytes(), vec![0, 159, 146, 150]);
}

#[test]
fn read_body_empty_is_empty_text() {
    let body = AggregatedBody::new(Vec::new());
    let text: Result<String, HttpError<String>> = read_body_as_text(body);
    assert_eq!(text.ok(), Some(String::new()));
}

#[test]
fn token_fetch_scenario_reads_body_text() {
    let ex = Exchange::get("/token".to_string(), Vec::new());
    let resp: Response<Vec<u8>> = Response {
        status: 200,
        headers: Vec::new(),
        body: b"abc123".to_vec(),
    };
    let step = on_transport_result::<Vec<u8>, String>(ex, TransportResult::Delivered(resp));
    let done = match step {
        Step::Done(r) => r,
        _ => panic!("a 200 response ends the exchange"),
    };
    let text: Result<String, HttpError<String>> =
        read_body_as_text(AggregatedBody::new(done.body));
    assert_eq!(text.ok(), Some("abc123".to_string()));
}

fn decode(bytes: &[u8]) -> Result<Credential, HttpError<String>> {
    decode_credential(AggregatedBody::new(bytes.to_vec()))
}

#[test]
fn decode_rejects_malformed_json() {
    assert!(matches!(decode(b"{invalid"), Err(HttpError::Parsing(_))));
}

#[test]
fn decode_populates_credential_without_token() {
    let cred = decode(b"{\"AccessKeyId\":\"AK\",\"SecretAccessKey\":\"SK\"}").unwrap_or_else(
        |_| panic!("a credential object with both key fields decodes"),
    );
    assert_eq!(cred.access_key, "AK");
    assert_eq!(cred.secret_key, "SK");
    assert_eq!(cred.session_token, None);
}

#[test]
fn decode_populates_credential_with_token() {
    let cred = decode(b"{\"AccessKeyId\":\"AK\",\"SecretAccessKey\":\"SK\",\"Token\":\"T0\"}")
        .unwrap_or_else(|_| panic!("a credential object with a token decodes"));
    assert_eq!(cred.access_key, "AK");
    assert_eq!(cred.secret_key, "SK");
    assert_eq!(cred.session_token, Some("T0".to_string()));
}

#[test]
fn decode_treats_null_token_as_absent() {
    let cred = decode(b"{\"AccessKeyId\":\"AK\",\"SecretAccessKey\":\"SK\",\"Token\":null}")
        .unwrap_or_else(|_| panic!("a null token reads as no token"));
    assert_eq!(cred.session_token, None);
}

#[test]
fn decode_rejects_non_text_token() {
    assert!(matches!(
        decode(b"{\"AccessKeyId\":\"AK\",\"SecretAccessKey\":\"SK\",\"Token\":7}"),
        Err(HttpError::Parsing(_))
    ));
}

#[test]
fn decode_rejects_missing_secret_key() {
    assert!(matches!(decode(b"{\"AccessKeyId\":\"AK\"}"), Err(HttpError::Parsing(_))));
}

#[test]
fn decode_rejects_non_object_document() {
    assert!(matches!(decode(b"[1,2]"), Err(HttpError::Parsing(_))));
}

#[test]
fn redirected_credential_discovery_scenario() {
    let ex = Exchange::get("/creds/".to_string(), Vec::new());
    let first: Response<Vec<u8>> = Response {
        status: 301,
        headers: vec![(b"location".to_vec(), b"/role-name".to_vec())],
        body: Vec::new(),
    };
    let step = on_transport_result::<Vec<u8>, String>(ex, TransportResult::Delivered(first));
    let next = match step {
        Step::Follow(next) => next,
        _ => panic!("the relocation must be followed"),
    };
    assert_eq!(next.uri, "/creds//role-name");
    let second: Response<Vec<u8>> = Response {
        status: 200,
        headers: Vec::new(),
        body: b"{\"AccessKeyId\":\"A\",\"SecretAccessKey\":\"B\"}".to_vec(),
    };
    let step = on_transport_result::<Vec<u8>, String>(next, TransportResult::Delivered(second));
    let done = match step {
        Step::Done(r) => r,
        _ => panic!("a 200 response ends the exchange"),
    };
    let cred: Result<Credential, HttpError<String>> =
        decode_credential(AggregatedBody::new(done.body));
    let cred = cred.unwrap_or_else(|_| panic!("the delivered credential object decodes"));
    assert_eq!(cred.access_key, "A");
    assert_eq!(cred.secret_key, "B");
    assert_eq!(cred.session_token, None);
}
