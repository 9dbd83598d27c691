use vstd::prelude::*;
use crate::body::append_str;

verus! {

/// The URI of the container-role credential endpoint for the given
/// caller-supplied relative path.
pub fn container_credentials_uri(relative_uri: &str) -> (r: String)
    ensures
        r@ == "http://169.254.170.2/"@ + relative_uri@,
{
    let mut uri = "http://169.254.170.2/".to_owned();
    append_str(&mut uri, relative_uri);
    uri
}

/// The URI whose PUT grants a short-lived session token on the
/// instance-role flow.
pub fn instance_token_uri() -> (r: String)
    ensures
        r@ == "http://169.254.169.254/latest/api/token"@,
{
    "http://169.254.169.254/latest/api/token".to_owned()
}

/// The URI whose GET names the active role on the instance-role flow.
pub fn instance_role_name_uri() -> (r: String)
    ensures
        r@ == "http://169.254.169.254/latest/meta-data/iam/security-credentials/"@,
{
    "http://169.254.169.254/latest/meta-data/iam/security-credentials/".to_owned()
}

/// The credential URI of the given role on the instance-role flow.
pub fn instance_credentials_uri(role_name: &str) -> (r: String)
    ensures
        r@ == "http://169.254.169.254/latest/meta-data/iam/security-credentials/"@ + "/"@
            + role_name@,
{
    let mut uri = instance_role_name_uri();
    append_str(&mut uri, "/");
    append_str(&mut uri, role_name);
    uri
}

/// The header list of the token-granting PUT: the requested token
/// time-to-live, in seconds.
pub fn token_request_headers() -> (r: Vec<(String, String)>)
    ensures
        r@.len() == 1,
        r@[0].0@ == "X-aws-ec2-metadata-token-ttl-seconds"@,
        r@[0].1@ == "30"@,
{
    let mut headers: Vec<(String, String)> = Vec::new();
    headers.push(("X-aws-ec2-metadata-token-ttl-seconds".to_owned(), "30".to_owned()));
    headers
}

/// The header list that presents a session token on the instance-role
/// GETs.
pub fn token_headers(token: &str) -> (r: Vec<(String, String)>)
    ensures
        r@.len() == 1,
        r@[0].0@ == "X-aws-ec2-metadata-token"@,
        r@[0].1@ == token@,
{
    let mut headers: Vec<(String, String)> = Vec::new();
    headers.push(("X-aws-ec2-metadata-token".to_owned(), token.to_owned()));
    headers
}

} // verus!
