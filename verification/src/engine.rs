use vstd::prelude::*;
use vstd::utf8::{decode_utf8, is_leading_byte_width_1, pop_first_scalar, valid_first_scalar,
    valid_utf8};
use crate::body::{append_str, string_from_utf8};
use crate::error::HttpError;

verus! {

/// An HTTP method of this system's closed set.
#[derive(Clone, Copy, Debug, PartialEq, Eq, Structural)]
pub enum Method {
    Get,
    Put,
}

/// One pending exchange: the request that is about to be handed to the
/// transport. The header list is ordered; duplicates are allowed and
/// insertion order is kept.
pub struct Exchange {
    pub method: Method,
    pub uri: String,
    pub headers: Vec<(String, String)>,
}

impl Exchange {
    /// Builds a GET exchange for the given target.
    pub fn get(uri: String, headers: Vec<(String, String)>) -> (r: Exchange)
        ensures
            r.method == Method::Get,
            r.uri == uri,
            r.headers == headers,
    {
        Exchange { method: Method::Get, uri, headers }
    }

    /// Builds a PUT exchange for the given target.
    pub fn put(uri: String, headers: Vec<(String, String)>) -> (r: Exchange)
        ensures
            r.method == Method::Put,
            r.uri == uri,
            r.headers == headers,
    {
        Exchange { method: Method::Put, uri, headers }
    }
}

/// A response as the transport hands it back: a status code, the ordered
/// header list (names and values as raw octets), and the body, carried
/// through in whatever form the transport keeps it.
pub struct Response<B> {
    pub status: u16,
    pub headers: Vec<(Vec<u8>, Vec<u8>)>,
    pub body: B,
}

/// What the transport reports for one exchange.
pub enum TransportResult<B, E> {
    /// A response arrived.
    Delivered(Response<B>),
    /// The transport failed to carry the exchange; the cause is preserved.
    Failed(E),
    /// The exchange could not form a request that the transport accepts.
    Unbuildable,
}

/// What the engine decides after one transport round.
pub enum Step<B, E> {
    /// Hand this relocated exchange to the transport and decide again.
    Follow(Exchange),
    /// The exchange is finished with this response.
    Done(Response<B>),
    /// The exchange failed.
    Fail(HttpError<E>),
}

/// True when a status code is in the redirection class.
pub open spec fn is_redirect(status: u16) -> bool {
    300 <= status <= 399
}

/// An ASCII upper-case letter mapped to lower case; any other byte kept.
pub open spec fn lower_byte(b: u8) -> u8 {
    if 65 <= b <= 90 {
        (b + 32) as u8
    } else {
        b
    }
}

/// The name of the Location header, in lower case.
pub open spec fn location_name() -> Seq<u8> {
    seq![108u8, 111u8, 99u8, 97u8, 116u8, 105u8, 111u8, 110u8]
}

/// True when a header name is `Location`, compared without regard to
/// ASCII case.
pub open spec fn is_location_name(name: Seq<u8>) -> bool {
    name.map_values(|b: u8| lower_byte(b)) == location_name()
}

/// The value of the first `Location` header of the list, if any.
pub open spec fn find_location(headers: Seq<(Vec<u8>, Vec<u8>)>) -> Option<Vec<u8>>
    decreases headers.len(),
{
    if headers.len() == 0 {
        None
    } else if is_location_name(headers[0].0@) {
        Some(headers[0].1)
    } else {
        find_location(headers.drop_first())
    }
}

/// True when a byte may stand in header text: visible ASCII, space or
/// horizontal tab.
pub open spec fn is_visible_ascii(b: u8) -> bool {
    (32 <= b < 127) || b == 9
}

/// True when every byte of a header value may stand in header text.
pub open spec fn all_visible_ascii(bytes: Seq<u8>) -> bool {
    forall|i: int| 0 <= i < bytes.len() ==> is_visible_ascii(bytes[i])
}

/// Bytes that may stand in header text are one-byte UTF-8 scalars, so a
/// run of them is a valid UTF-8 encoding.
pub proof fn lemma_visible_ascii_valid_utf8(bytes: Seq<u8>)
    requires
        all_visible_ascii(bytes),
    ensures
        valid_utf8(bytes),
    decreases bytes.len(),
{
    if bytes.len() != 0 {
        let b = bytes[0];
        assert(is_visible_ascii(b));
        assert(b & 0x7f == b) by (bit_vector)
            requires
                b < 128,
        ;
        assert(is_leading_byte_width_1(b));
        assert(valid_first_scalar(bytes));
        assert(pop_first_scalar(bytes) =~= bytes.drop_first());
        assert(all_visible_ascii(bytes.drop_first())) by {
            assert forall|i: int| 0 <= i < bytes.drop_first().len()
                implies is_visible_ascii(bytes.drop_first()[i]) by {
                assert(bytes.drop_first()[i] == bytes[i + 1]);
            }
        }
        lemma_visible_ascii_valid_utf8(bytes.drop_first());
    }
}

/// Maps an ASCII upper-case letter to lower case.
fn lower(b: u8) -> (r: u8)
    ensures
        r == lower_byte(b),
{
    if 65 <= b && b <= 90 {
        b + 32
    } else {
        b
    }
}

/// True when the given header name is `Location`, compared without regard
/// to ASCII case.
fn name_is_location(name: &Vec<u8>) -> (r: bool)
    ensures
        r == is_location_name(name@),
{
    if name.len() != 8 {
        assert(name@.map_values(|b: u8| lower_byte(b)).len() == name@.len());
        return false;
    }
    let matched = lower(name[0]) == 108 && lower(name[1]) == 111 && lower(name[2]) == 99
        && lower(name[3]) == 97 && lower(name[4]) == 116 && lower(name[5]) == 105
        && lower(name[6]) == 111 && lower(name[7]) == 110;
    proof {
        let mapped = name@.map_values(|b: u8| lower_byte(b));
        assert(mapped.len() == 8);
        if matched {
            assert(mapped =~= location_name());
        } else {
            assert(mapped != location_name());
        }
    }
    matched
}

/// Finds the first `Location` header of the list, handing its position
/// back.
fn find_location_index(headers: &Vec<(Vec<u8>, Vec<u8>)>) -> (r: Option<usize>)
    ensures
        (r matches Some(i) ==> i < headers.len() && find_location(headers@) == Some(
            headers[i as int].1,
        )),
        r is None ==> find_location(headers@) is None,
{
    let n = headers.len();
    let mut k: usize = 0;
    proof {
        assert(headers@.subrange(0, n as int) =~= headers@);
    }
    while k < n
        invariant
            n == headers.len(),
            k <= n,
            find_location(headers@) == find_location(headers@.subrange(k as int, n as int)),
        decreases n - k,
    {
        let ghost tail = headers@.subrange(k as int, n as int);
        if name_is_location(&headers[k].0) {
            proof {
                assert(tail[0] == headers@[k as int]);
                assert(find_location(tail) == Some(headers@[k as int].1));
            }
            return Some(k);
        }
        proof {
            assert(tail[0] == headers@[k as int]);
            assert(tail.drop_first() =~= headers@.subrange(k as int + 1, n as int));
            assert(find_location(tail) == find_location(tail.drop_first()));
        }
        k += 1;
    }
    proof {
        assert(headers@.subrange(n as int, n as int).len() == 0);
    }
    None
}

/// True when every byte of the value may stand in header text.
fn bytes_all_visible_ascii(bytes: &Vec<u8>) -> (r: bool)
    ensures
        r == all_visible_ascii(bytes@),
{
    let n = bytes.len();
    let mut k: usize = 0;
    while k < n
        invariant
            n == bytes.len(),
            k <= n,
            forall|i: int| 0 <= i < k ==> is_visible_ascii(bytes@[i]),
        decreases n - k,
    {
        let b = bytes[k];
        if !((32 <= b && b < 127) || b == 9) {
            assert(!is_visible_ascii(bytes@[k as int]));
            return false;
        }
        k += 1;
    }
    true
}

/// Acts on what the transport reported for the given exchange: carries a
/// build failure or a transport failure into the error taxonomy; follows
/// a redirection that names a relocation by concatenating the Location
/// value onto the original URI, with the method and headers unchanged;
/// and hands any other response back as it stands.
pub fn on_transport_result<B, E>(ex: Exchange, res: TransportResult<B, E>) -> (r: Step<B, E>)
    ensures
        (res matches TransportResult::Unbuildable ==> r == Step::<B, E>::Fail(
            HttpError::BuildingRequest,
        )),
        (res matches TransportResult::Failed(e) ==> r == Step::<B, E>::Fail(HttpError::Request(e))),
        (res matches TransportResult::Delivered(resp) ==> (if is_redirect(resp.status)
            && find_location(resp.headers@) is Some {
            let loc = find_location(resp.headers@)->Some_0;
            if all_visible_ascii(loc@) {
                &&& r is Follow
                &&& r->Follow_0.method == ex.method
                &&& r->Follow_0.headers == ex.headers
                &&& r->Follow_0.uri@ == ex.uri@ + decode_utf8(loc@)
            } else {
                r == Step::<B, E>::Fail(HttpError::BuildingRequest)
            }
        } else {
            r == Step::<B, E>::Done(resp)
        })),
{
    match res {
        TransportResult::Unbuildable => Step::Fail(HttpError::BuildingRequest),
        TransportResult::Failed(e) => Step::Fail(HttpError::Request(e)),
        TransportResult::Delivered(mut resp) => {
            if !(300 <= resp.status && resp.status <= 399) {
                return Step::Done(resp);
            }
            match find_location_index(&resp.headers) {
                None => Step::Done(resp),
                Some(i) => {
                    let loc: Vec<u8> = resp.headers.remove(i).1;
                    if !bytes_all_visible_ascii(&loc) {
                        return Step::Fail(HttpError::BuildingRequest);
                    }
                    proof {
                        lemma_visible_ascii_valid_utf8(loc@);
                    }
                    match string_from_utf8(loc) {
                        Some(text) => {
                            let Exchange { method, mut uri, headers } = ex;
                            append_str(&mut uri, text.as_str());
                            Step::Follow(Exchange { method, uri, headers })
                        },
                        None => {
                            proof {
                                assert(false);
                            }
                            Step::Fail(HttpError::BuildingRequest)
                        },
                    }
                },
            }
        },
    }
}

} // verus!
