//! The reply to a request: a status and, for a successful request, a payload.
//!
//! On the wire a reply is a pair: the code of the status, then a dictionary.
//! [`decode`] reads such a pair and [`encode`] writes one. Both leave the
//! payload's own codec to the caller, so that they serve every payload type.

use vstd::prelude::*;

verus! {

/// Why a portal request did not succeed.
#[derive(Debug, Copy, Clone, PartialEq, Eq, Hash, Structural)]
pub enum ResponseError {
    /// The user cancelled the request.
    Cancelled,
    /// The request ended in some other way.
    Other,
}

/// The status that opens every reply.
#[derive(Debug, Copy, Clone, PartialEq, Eq, Structural)]
pub enum ResponseType {
    /// The request was carried out.
    Success,
    /// The user cancelled the interaction.
    Cancelled,
    /// The interaction ended in some other way.
    Other,
}

/// What is wrong with a reply, whatever its payload type.
#[derive(Debug, Copy, Clone, PartialEq, Eq, Structural)]
pub enum ProtocolError {
    /// The first element is not the code of a status.
    MalformedHeader,
    /// The status is `Success` and the second element is absent.
    MissingPayload,
}

/// Why a reply could not be decoded.
#[derive(Debug, PartialEq, Eq)]
pub enum DecodeError<E> {
    /// The reply breaks the protocol.
    Protocol(ProtocolError),
    /// The payload's own decoder refused the second element, with this error.
    PayloadDecodeFailure(E),
}

/// A decoded reply: the payload of a successful request, or the reason why
/// the request did not succeed.
pub type Response<T> = Result<T, ResponseError>;

/// A reply as it crosses the wire: the code of a status, then the slot of the
/// payload dictionary.
#[derive(Debug, PartialEq, Eq)]
pub struct Envelope<W> {
    /// The first element.
    pub status: u32,
    /// The second element, `None` where the reply holds none.
    pub payload: Option<W>,
}

impl ResponseError {
    /// The name of the reason: `Cancelled` or `Other`.
    pub fn to_string(&self) -> (text: String)
        ensures
            text@ == match *self {
                ResponseError::Cancelled => "Cancelled"@,
                ResponseError::Other => "Other"@,
            },
    {
        match self {
            ResponseError::Cancelled => String::from_str("Cancelled"),
            ResponseError::Other => String::from_str("Other"),
        }
    }
}

impl ProtocolError {
    /// What the reply lacks, in words.
    pub fn to_string(&self) -> (text: String)
        ensures
            text@ == match *self {
                ProtocolError::MalformedHeader =>
                    "Failed to deserialize the response. Expected a numeric (u) value as the first item of the returned tuple"@,
                ProtocolError::MissingPayload =>
                    "Failed to deserialize the response. Expected a vardict (a{sv}) with the returned results"@,
            },
    {
        match self {
            ProtocolError::MalformedHeader => String::from_str(
                "Failed to deserialize the response. Expected a numeric (u) value as the first item of the returned tuple",
            ),
            ProtocolError::MissingPayload => String::from_str(
                "Failed to deserialize the response. Expected a vardict (a{sv}) with the returned results",
            ),
        }
    }
}

impl ResponseType {
    /// The number that stands for a status on the wire.
    pub open spec fn spec_code(self) -> u32 {
        match self {
            ResponseType::Success => 0,
            ResponseType::Cancelled => 1,
            ResponseType::Other => 2,
        }
    }

    /// The status that a number stands for, `None` where it stands for none.
    pub open spec fn spec_from_code(code: u32) -> Option<ResponseType> {
        if code == 0 {
            Some(ResponseType::Success)
        } else if code == 1 {
            Some(ResponseType::Cancelled)
        } else if code == 2 {
            Some(ResponseType::Other)
        } else {
            None
        }
    }

    /// The number that stands for this status on the wire.
    pub fn code(self) -> (code: u32)
        ensures
            code == self.spec_code(),
    {
        match self {
            ResponseType::Success => 0,
            ResponseType::Cancelled => 1,
            ResponseType::Other => 2,
        }
    }

    /// Reads a status from its number. Only the three known numbers are
    /// accepted: an unknown one is an error, not `Other`.
    pub fn from_code(code: u32) -> (r: Result<ResponseType, ProtocolError>)
        ensures
            r == match ResponseType::spec_from_code(code) {
                Some(status) => Ok::<ResponseType, ProtocolError>(status),
                None => Err(ProtocolError::MalformedHeader),
            },
    {
        if code == 0 {
            Ok(ResponseType::Success)
        } else if code == 1 {
            Ok(ResponseType::Cancelled)
        } else if code == 2 {
            Ok(ResponseType::Other)
        } else {
            Err(ProtocolError::MalformedHeader)
        }
    }

    /// Reads a status from the first element of a reply, which may be absent.
    /// An absent element is an error as an unknown number is.
    pub fn from_element(first: Option<u32>) -> (r: Result<ResponseType, ProtocolError>)
        ensures
            r == match first {
                Some(code) => match ResponseType::spec_from_code(code) {
                    Some(status) => Ok::<ResponseType, ProtocolError>(status),
                    None => Err(ProtocolError::MalformedHeader),
                },
                None => Err(ProtocolError::MalformedHeader),
            },
    {
        match first {
            Some(code) => ResponseType::from_code(code),
            None => Err(ProtocolError::MalformedHeader),
        }
    }

    /// Whether a reply with this status carries a payload that is to be
    /// decoded: only a successful one does.
    pub fn carries_payload(self) -> (b: bool)
        ensures
            b == (self == ResponseType::Success),
    {
        match self {
            ResponseType::Success => true,
            _ => false,
        }
    }
}

impl From<ResponseError> for ResponseType {
    /// The status under which a failure crosses the wire.
    fn from(err: ResponseError) -> (status: ResponseType) {
        match err {
            ResponseError::Other => ResponseType::Other,
            ResponseError::Cancelled => ResponseType::Cancelled,
        }
    }
}

impl vstd::std_specs::convert::FromSpecImpl<ResponseError> for ResponseType {
    open spec fn obeys_from_spec() -> bool {
        true
    }

    open spec fn from_spec(err: ResponseError) -> ResponseType {
        match err {
            ResponseError::Other => ResponseType::Other,
            ResponseError::Cancelled => ResponseType::Cancelled,
        }
    }
}

/// The status under which a reply crosses the wire.
pub open spec fn spec_status<T>(response: Response<T>) -> ResponseType {
    match response {
        Ok(_) => ResponseType::Success,
        Err(ResponseError::Cancelled) => ResponseType::Cancelled,
        Err(ResponseError::Other) => ResponseType::Other,
    }
}

/// The reply that a status and the decoded payload, if there is one, make.
/// A payload beside a failure is dropped; success without a payload is an
/// error.
pub open spec fn spec_from_parts<T>(status: ResponseType, payload: Option<T>) -> Result<
    Response<T>,
    ProtocolError,
> {
    match status {
        ResponseType::Success => match payload {
            Some(payload) => Ok(Response::Ok(payload)),
            None => Err(ProtocolError::MissingPayload),
        },
        ResponseType::Cancelled => Ok(Response::Err(ResponseError::Cancelled)),
        ResponseType::Other => Ok(Response::Err(ResponseError::Other)),
    }
}

/// The status under which `response` crosses the wire.
pub fn status_of<T>(response: &Response<T>) -> (status: ResponseType)
    ensures
        status == spec_status(*response),
{
    match response {
        Ok(_) => ResponseType::Success,
        Err(err) => ResponseType::from(*err),
    }
}

/// Joins a status and the decoded payload, if there is one, into a reply.
pub fn from_parts<T>(status: ResponseType, payload: Option<T>) -> (r: Result<
    Response<T>,
    ProtocolError,
>)
    ensures
        r == spec_from_parts(status, payload),
{
    match status {
        ResponseType::Success => match payload {
            Some(payload) => Ok(Response::Ok(payload)),
            None => Err(ProtocolError::MissingPayload),
        },
        ResponseType::Cancelled => Ok(Response::Err(ResponseError::Cancelled)),
        ResponseType::Other => Ok(Response::Err(ResponseError::Other)),
    }
}

/// The most basic payload: the bare dictionary of a reply, for requests of
/// which only the status matters. Its default, the dictionary's own default,
/// fills the payload slot of a failure.
#[derive(Debug, PartialEq, Eq)]
pub struct BasicResponse<W>(pub W);

impl<W: Default> Default for BasicResponse<W> {
    /// The payload of the dictionary's default value: for a map, the empty one.
    fn default() -> (basic: Self)
        ensures
            W::default.ensures((), basic.0),
    {
        BasicResponse(W::default())
    }
}

/// Whether `decoded` is an outcome of decoding `wire` with `decode_payload` as
/// the payload's own decoder.
///
/// The status is read strictly. A failure decodes to its reason without a
/// look at the second element. A success needs the second element, and its
/// outcome is that of the payload's decoder on it.
pub open spec fn decodes_to<W, T, E, F: FnOnce(W) -> Result<T, E>>(
    wire: Envelope<W>,
    decode_payload: F,
    decoded: Result<Response<T>, DecodeError<E>>,
) -> bool {
    match ResponseType::spec_from_code(wire.status) {
        None => decoded == Err::<Response<T>, DecodeError<E>>(
            DecodeError::Protocol(ProtocolError::MalformedHeader),
        ),
        Some(ResponseType::Cancelled) => decoded == Ok::<Response<T>, DecodeError<E>>(
            Err(ResponseError::Cancelled),
        ),
        Some(ResponseType::Other) => decoded == Ok::<Response<T>, DecodeError<E>>(
            Err(ResponseError::Other),
        ),
        Some(ResponseType::Success) => match wire.payload {
            None => decoded == Err::<Response<T>, DecodeError<E>>(
                DecodeError::Protocol(ProtocolError::MissingPayload),
            ),
            Some(dict) => match decoded {
                Ok(Ok(payload)) => decode_payload.ensures((dict,), Ok(payload)),
                Err(DecodeError::PayloadDecodeFailure(e)) => decode_payload.ensures(
                    (dict,),
                    Err(e),
                ),
                _ => false,
            },
        },
    }
}

/// Whether `wire` is an outcome of encoding `response` with `encode_payload`
/// as the payload's own encoder.
///
/// The status is that of the reply. The payload slot is always filled: with
/// the encoded payload of a success, with the default dictionary of a failure.
pub open spec fn encodes_to<W: Default, T, F: FnOnce(&T) -> W>(
    response: Response<T>,
    encode_payload: F,
    wire: Envelope<W>,
) -> bool {
    &&& wire.status == spec_status(response).spec_code()
    &&& wire.payload matches Some(dict) && match response {
        Ok(payload) => encode_payload.ensures((&payload,), dict),
        Err(_) => W::default.ensures((), dict),
    }
}

/// Decodes a reply. `decode_payload` is the payload's own decoder; it runs
/// only on the second element of a successful reply.
pub fn decode<W, T, E, F>(wire: Envelope<W>, decode_payload: F) -> (decoded: Result<
    Response<T>,
    DecodeError<E>,
>) where F: FnOnce(W) -> Result<T, E>
    requires
        wire.status == 0 ==> (wire.payload matches Some(dict) ==> decode_payload.requires(
            (dict,),
        )),
    ensures
        decodes_to(wire, decode_payload, decoded),
        wire.status == 1 ==> decoded == Ok::<Response<T>, DecodeError<E>>(
            Err(ResponseError::Cancelled),
        ),
        wire.status == 2 ==> decoded == Ok::<Response<T>, DecodeError<E>>(
            Err(ResponseError::Other),
        ),
        wire.status > 2 ==> decoded == Err::<Response<T>, DecodeError<E>>(
            DecodeError::Protocol(ProtocolError::MalformedHeader),
        ),
        wire.status == 0 && wire.payload is None ==> decoded == Err::<Response<T>, DecodeError<E>>(
            DecodeError::Protocol(ProtocolError::MissingPayload),
        ),
{
    let status = match ResponseType::from_code(wire.status) {
        Ok(status) => status,
        Err(e) => {
            return Err(DecodeError::Protocol(e));
        },
    };
    let payload = if status.carries_payload() {
        match wire.payload {
            Some(dict) => match decode_payload(dict) {
                Ok(payload) => Some(payload),
                Err(e) => {
                    return Err(DecodeError::PayloadDecodeFailure(e));
                },
            },
            None => None,
        }
    } else {
        None
    };
    match from_parts(status, payload) {
        Ok(response) => Ok(response),
        Err(e) => Err(DecodeError::Protocol(e)),
    }
}

/// Encodes a reply. `encode_payload` is the payload's own encoder; it runs only
/// on the payload of a success.
pub fn encode<W, T, F>(response: &Response<T>, encode_payload: F) -> (wire: Envelope<W>) where
    W: Default,
    F: FnOnce(&T) -> W,

    requires
        response matches Ok(payload) ==> encode_payload.requires((&payload,)),
    ensures
        encodes_to(*response, encode_payload, wire),
{
    let status = status_of(response).code();
    let dict = match response {
        Ok(payload) => encode_payload(payload),
        Err(_) => BasicResponse::<W>::default().0,
    };
    Envelope { status, payload: Some(dict) }
}

/// Whether the payload's decoder restores `payload` from whatever the
/// payload's encoder makes of it.
pub open spec fn restores<W, T, E, Enc: FnOnce(&T) -> W, Dec: FnOnce(W) -> Result<T, E>>(
    encode_payload: Enc,
    decode_payload: Dec,
    payload: T,
) -> bool {
    forall|dict: W, back: Result<T, E>|
        encode_payload.ensures((&payload,), dict) && #[trigger] decode_payload.ensures(
            (dict,),
            back,
        ) ==> back == Ok::<T, E>(payload)
}

/// A success survives the wire: where the payload's own codec restores
/// `payload`, whatever `Ok(payload)` is encoded to decodes to `Ok(payload)`.
pub proof fn lemma_round_trip_success<W, T, E, Enc, Dec>(
    payload: T,
    encode_payload: Enc,
    decode_payload: Dec,
    wire: Envelope<W>,
    decoded: Result<Response<T>, DecodeError<E>>,
) where W: Default, Enc: FnOnce(&T) -> W, Dec: FnOnce(W) -> Result<T, E>
    requires
        restores(encode_payload, decode_payload, payload),
        encodes_to(Ok(payload), encode_payload, wire),
        decodes_to(wire, decode_payload, decoded),
    ensures
        decoded == Ok::<Response<T>, DecodeError<E>>(Ok(payload)),
{
}

/// A failure survives the wire: whatever `Err(reason)` is encoded to decodes
/// to `Err(reason)`, with any payload codec.
pub proof fn lemma_round_trip_failure<W, T, E, Enc, Dec>(
    reason: ResponseError,
    encode_payload: Enc,
    decode_payload: Dec,
    wire: Envelope<W>,
    decoded: Result<Response<T>, DecodeError<E>>,
) where W: Default, Enc: FnOnce(&T) -> W, Dec: FnOnce(W) -> Result<T, E>
    requires
        encodes_to(Err::<T, ResponseError>(reason), encode_payload, wire),
        decodes_to(wire, decode_payload, decoded),
    ensures
        decoded == Ok::<Response<T>, DecodeError<E>>(Err(reason)),
{
}

} // verus!
