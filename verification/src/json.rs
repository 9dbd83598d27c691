use vstd::prelude::*;
use crate::body::AggregatedBody;
use crate::error::HttpError;

verus! {

#[verifier::external_type_specification]
#[verifier::external_body]
pub struct ExSerdeJsonError(serde_json::Error);

#[verifier::external_type_specification]
#[verifier::external_body]
pub struct ExSerdeJsonValue(serde_json::Value);

#[verifier::external_type_specification]
#[verifier::external_body]
#[verifier::reject_recursive_types(K)]
#[verifier::reject_recursive_types(V)]
pub struct ExSerdeJsonMap<K, V>(serde_json::Map<K, V>);

/// What one field of a decoded JSON object holds, as far as this library
/// reads it: a JSON null, a JSON string, or a value of any other kind.
pub enum JsonField {
    Null,
    Text(Seq<char>),
    Other,
}

/// The object that decoding the given bytes as JSON yields: `None` when
/// the bytes are not a well-formed JSON object, otherwise each key mapped
/// to what its field holds.
pub uninterp spec fn parsed_object(bytes: Seq<u8>) -> Option<Map<Seq<char>, JsonField>>;

/// What a decoded `serde_json::Map` holds: each key mapped to what its
/// field holds.
pub uninterp spec fn object_entries(m: serde_json::Map<String, serde_json::Value>) -> Map<
    Seq<char>,
    JsonField,
>;

/// Relies on serde_json::from_slice: it decodes the bytes as a single
/// JSON object (an error for any other input), and what it decodes
/// depends on the bytes alone.
#[verifier::external_body]
fn parse_object(bytes: &Vec<u8>) -> (r: Result<
    serde_json::Map<String, serde_json::Value>,
    serde_json::Error,
>)
    ensures
        r is Ok <==> parsed_object(bytes@) is Some,
        r is Ok ==> object_entries(r->Ok_0) == parsed_object(bytes@)->Some_0,
{
    serde_json::from_slice(bytes)
}

/// The outcome of looking one key up in a decoded JSON object.
enum FieldLookup {
    /// The object has no field of that key.
    Absent,
    /// The field holds a JSON null.
    NullValue,
    /// The field holds this text.
    Text(String),
    /// The field holds a value of any other kind.
    Other,
}

/// The field of the given key in a decoded JSON object, if the object
/// has one.
pub open spec fn entry_of(m: serde_json::Map<String, serde_json::Value>, key: Seq<char>) -> Option<
    JsonField,
> {
    if object_entries(m).contains_key(key) {
        Some(object_entries(m)[key])
    } else {
        None
    }
}

/// Relies on serde_json::Map::get, Value::as_str and Value::is_null: it
/// looks the key up, tells the value's kind apart, and hands a string
/// value out as owned text.
#[verifier::external_body]
fn field_of(m: &serde_json::Map<String, serde_json::Value>, key: &str) -> (r: FieldLookup)
    ensures
        r is Absent <==> entry_of(*m, key@) is None,
        r is NullValue <==> entry_of(*m, key@) == Some(JsonField::Null),
        r is Text <==> (entry_of(*m, key@) matches Some(f) && f is Text),
        r is Text ==> entry_of(*m, key@) == Some(JsonField::Text(r->Text_0@)),
        r is Other <==> (entry_of(*m, key@) matches Some(f) && f is Other),
{
    match m.get(key) {
        None => FieldLookup::Absent,
        Some(v) => match v.as_str() {
            Some(s) => FieldLookup::Text(s.to_owned()),
            None => if v.is_null() {
                FieldLookup::NullValue
            } else {
                FieldLookup::Other
            },
        },
    }
}

/// Relies on serde's de::Error::custom: it makes a decoding error that
/// carries the given message.
#[verifier::external_body]
fn shape_error(msg: &str) -> serde_json::Error {
    <serde_json::Error as serde::de::Error>::custom(msg)
}

/// A set of temporary credentials, as decoded from the metadata service.
pub struct Credential {
    pub access_key: String,
    pub secret_key: String,
    pub session_token: Option<String>,
}

/// The mathematical content of a `Credential`.
pub struct CredentialView {
    pub access_key: Seq<char>,
    pub secret_key: Seq<char>,
    pub session_token: Option<Seq<char>>,
}

impl View for Credential {
    type V = CredentialView;

    open spec fn view(&self) -> CredentialView {
        CredentialView {
            access_key: self.access_key@,
            secret_key: self.secret_key@,
            session_token: match self.session_token {
                Option::None => Option::None,
                Option::Some(t) => Option::Some(t@),
            },
        }
    }
}

/// The key of the access-key field of a credential object.
pub open spec fn access_key_field() -> Seq<char> {
    "AccessKeyId"@
}

/// The key of the secret-key field of a credential object.
pub open spec fn secret_key_field() -> Seq<char> {
    "SecretAccessKey"@
}

/// The key of the session-token field of a credential object.
pub open spec fn token_field() -> Seq<char> {
    "Token"@
}

/// The credential that a decoded JSON object describes: the access-key
/// and secret-key fields must hold text; the session-token field may be
/// absent or null (no token) or hold text; any other shape is rejected.
pub open spec fn credential_of(m: Map<Seq<char>, JsonField>) -> Option<CredentialView> {
    if m.contains_key(access_key_field()) && m[access_key_field()] is Text && m.contains_key(
        secret_key_field(),
    ) && m[secret_key_field()] is Text && (!m.contains_key(token_field()) || m[token_field()]
        is Null || m[token_field()] is Text) {
        Some(
            CredentialView {
                access_key: m[access_key_field()]->Text_0,
                secret_key: m[secret_key_field()]->Text_0,
                session_token: if m.contains_key(token_field()) && m[token_field()] is Text {
                    Some(m[token_field()]->Text_0)
                } else {
                    None
                },
            },
        )
    } else {
        None
    }
}

/// Decodes an aggregated response body as a credential object: the
/// decode-body-as-JSON interpretation of a finished response, fixed to
/// the credential shape this system retrieves. Consumes the body, so its
/// bytes are interpreted at most once.
pub fn decode_credential<E>(body: AggregatedBody) -> (r: Result<Credential, HttpError<E>>)
    ensures
        (match parsed_object(body@) {
            None => r is Err && r->Err_0 is Parsing,
            Some(m) => match credential_of(m) {
                None => r is Err && r->Err_0 is Parsing,
                Some(c) => r is Ok && r->Ok_0@ == c,
            },
        }),
{
    let bytes = body.into_bytes();
    match parse_object(&bytes) {
        Err(e) => Err(HttpError::Parsing(e)),
        Ok(obj) => {
            let access = field_of(&obj, "AccessKeyId");
            let secret = field_of(&obj, "SecretAccessKey");
            let token = field_of(&obj, "Token");
            match access {
                FieldLookup::Text(access_key) => match secret {
                    FieldLookup::Text(secret_key) => match token {
                        FieldLookup::Absent | FieldLookup::NullValue => Ok(
                            Credential { access_key, secret_key, session_token: None },
                        ),
                        FieldLookup::Text(t) => Ok(
                            Credential { access_key, secret_key, session_token: Some(t) },
                        ),
                        FieldLookup::Other => Err(
                            HttpError::Parsing(
                                shape_error("credential session-token field holds neither text nor null"),
                            ),
                        ),
                    },
                    _ => Err(
                        HttpError::Parsing(
                            shape_error("credential object lacks a textual secret-key field"),
                        ),
                    ),
                },
                _ => Err(
                    HttpError::Parsing(
                        shape_error("credential object lacks a textual access-key field"),
                    ),
                ),
            }
        },
    }
}

} // verus!
