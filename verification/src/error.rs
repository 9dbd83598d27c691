use vstd::prelude::*;

verus! {

/// The closed failure taxonomy of the request engine.
///
/// `E` is the transport's own error type; the engine carries a transport
/// cause through without inspecting or classifying it further.
pub enum HttpError<E> {
    /// The method, URI and headers could not form a request, or a redirect
    /// Location value was not valid header text.
    BuildingRequest,
    /// The transport failed to carry the exchange; the cause is preserved.
    Request(E),
    /// The response body was not valid UTF-8 where text was requested.
    InvalidUTF8,
    /// The response body was not well-formed JSON, or did not match the
    /// requested shape; the cause is preserved.
    Parsing(serde_json::Error),
}

} // verus!
