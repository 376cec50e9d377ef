//! The messages exchanged with the broker, and their framing.
//!
//! A frame is a four-byte length in the byte order of the machine, followed
//! by that many bytes of JSON. The JSON itself is produced and read by the
//! `greetd_ipc` crate; this module names what it produces and checks the
//! frame around it.
use greetd_ipc::codec::Error as CodecError;
use greetd_ipc::codec::SyncCodec;
use greetd_ipc::AuthMessageType as BrokerMessageType;
use greetd_ipc::ErrorType as BrokerErrorType;
use greetd_ipc::Response as BrokerResponse;
use vstd::prelude::*;
use vstd::string::*;

verus! {

/// Why the broker refused a request.
#[derive(Debug, Clone, Copy, PartialEq, Eq, Structural)]
pub enum ErrorType {
    /// A failure that the description explains.
    Error,
    /// The credentials were not accepted.
    AuthError,
}

/// What kind of answer, if any, an authentication message asks for.
#[derive(Debug, Clone, Copy, PartialEq, Eq, Structural)]
pub enum AuthMessageType {
    /// A question whose answer may be shown while it is typed.
    Visible,
    /// A question whose answer must stay hidden.
    Secret,
    /// A notice.
    Info,
    /// A complaint.
    Error,
}

impl AuthMessageType {
    /// The name of the kind, as diagnostics print it.
    pub open spec fn spec_name(self) -> Seq<char> {
        match self {
            AuthMessageType::Visible => "Visible"@,
            AuthMessageType::Secret => "Secret"@,
            AuthMessageType::Info => "Info"@,
            AuthMessageType::Error => "Error"@,
        }
    }

    /// The name of the kind, as diagnostics print it.
    pub fn name(self) -> (name: &'static str)
        ensures
            name@ == self.spec_name(),
    {
        match self {
            AuthMessageType::Visible => "Visible",
            AuthMessageType::Secret => "Secret",
            AuthMessageType::Info => "Info",
            AuthMessageType::Error => "Error",
        }
    }
}

/// A message from the greeter to the broker.
#[derive(Debug, Clone, PartialEq, Eq)]
pub enum Request {
    /// Opens a login attempt for `username`.
    CreateSession { username: String },
    /// Answers the last authentication message.
    PostAuthMessageResponse { response: Option<String> },
    /// Starts the session of an authenticated user with the command `cmd`.
    StartSession { cmd: Vec<String> },
    /// Abandons the login attempt.
    CancelSession,
}

/// A message from the broker to the greeter.
#[derive(Debug, Clone, PartialEq, Eq)]
pub enum Response {
    /// The request was carried out.
    Success,
    /// The request failed.
    Error { error_type: ErrorType, description: String },
    /// The broker wants something shown or answered.
    AuthMessage { auth_message_type: AuthMessageType, auth_message: String },
}

/// The mathematical content of a [`Request`].
pub enum RequestView {
    CreateSession { username: Seq<char> },
    PostAuthMessageResponse { response: Option<Seq<char>> },
    StartSession { cmd: Seq<Seq<char>> },
    CancelSession,
}

/// The mathematical content of a [`Response`].
pub enum ResponseView {
    Success,
    Error { error_type: ErrorType, description: Seq<char> },
    AuthMessage { auth_message_type: AuthMessageType, auth_message: Seq<char> },
}

impl View for Request {
    type V = RequestView;

    open spec fn view(&self) -> RequestView {
        match *self {
            Request::CreateSession { username } => RequestView::CreateSession { username: username@ },
            Request::PostAuthMessageResponse { response } => RequestView::PostAuthMessageResponse {
                response: match response {
                    Some(text) => Some(text@),
                    None => None,
                },
            },
            Request::StartSession { cmd } => RequestView::StartSession { cmd: cmd.deep_view() },
            Request::CancelSession => RequestView::CancelSession,
        }
    }
}

impl View for Response {
    type V = ResponseView;

    open spec fn view(&self) -> ResponseView {
        match *self {
            Response::Success => ResponseView::Success,
            Response::Error { error_type, description } => ResponseView::Error {
                error_type,
                description: description@,
            },
            Response::AuthMessage { auth_message_type, auth_message } => ResponseView::AuthMessage {
                auth_message_type,
                auth_message: auth_message@,
            },
        }
    }
}

/// What went wrong between a message and its bytes.
#[derive(Debug, Clone, PartialEq, Eq)]
pub enum FramingError {
    /// The bytes end before the header, or before the payload that the
    /// header declares.
    Truncated,
    /// Bytes follow the payload that the header declares.
    Overlong,
    /// The payload is too long for a 32-bit length.
    Oversized,
    /// The payload is not a response; the text is what the JSON reader
    /// found wrong with it.
    Malformed(String),
    /// The request could not be encoded; the text is the encoder's complaint.
    Unrepresentable(String),
}

/// The mathematical content of a [`FramingError`].
pub enum FramingErrorView {
    Truncated,
    Overlong,
    Oversized,
    Malformed(Seq<char>),
    Unrepresentable(Seq<char>),
}

impl View for FramingError {
    type V = FramingErrorView;

    open spec fn view(&self) -> FramingErrorView {
        match *self {
            FramingError::Truncated => FramingErrorView::Truncated,
            FramingError::Overlong => FramingErrorView::Overlong,
            FramingError::Oversized => FramingErrorView::Oversized,
            FramingError::Malformed(text) => FramingErrorView::Malformed(text@),
            FramingError::Unrepresentable(text) => FramingErrorView::Unrepresentable(text@),
        }
    }
}

impl FramingErrorView {
    /// The text shown for the error.
    pub open spec fn message(self) -> Seq<char> {
        match self {
            FramingErrorView::Truncated => "truncated frame"@,
            FramingErrorView::Overlong => "bytes after the end of the frame"@,
            FramingErrorView::Oversized => "message too long for a frame"@,
            FramingErrorView::Malformed(text) => "serialization error: "@ + text,
            FramingErrorView::Unrepresentable(text) => text,
        }
    }
}

impl FramingError {
    /// The text shown for the error.
    pub fn message(&self) -> (text: String)
        ensures
            text@ == self@.message(),
    {
        match self {
            FramingError::Truncated => String::from_str("truncated frame"),
            FramingError::Overlong => String::from_str("bytes after the end of the frame"),
            FramingError::Oversized => String::from_str("message too long for a frame"),
            FramingError::Malformed(text) => String::from_str("serialization error: ").concat(
                text.as_str(),
            ),
            FramingError::Unrepresentable(text) => text.clone(),
        }
    }
}

/// Why the decoder of `greetd_ipc` gave no response, as it reports it.
#[derive(Debug, Clone, PartialEq, Eq)]
pub enum DecodeFault {
    /// The payload was read in full and is not the JSON of a response; the
    /// text is what the JSON reader found wrong with it.
    Serialization(String),
    /// The bytes could not be read; the text is the cause.
    Io(String),
    /// The bytes ended within the header.
    Eof,
}

/// The mathematical content of a [`DecodeFault`].
pub enum DecodeFaultView {
    Serialization(Seq<char>),
    Io(Seq<char>),
    Eof,
}

impl View for DecodeFault {
    type V = DecodeFaultView;

    open spec fn view(&self) -> DecodeFaultView {
        match *self {
            DecodeFault::Serialization(text) => DecodeFaultView::Serialization(text@),
            DecodeFault::Io(text) => DecodeFaultView::Io(text@),
            DecodeFault::Eof => DecodeFaultView::Eof,
        }
    }
}

/// The number of bytes in a frame's header.
pub const HEADER_LEN: usize = 4;

/// The largest payload that a header can declare.
pub const MAX_PAYLOAD: usize = 0xffff_ffff;

/// The number that four bytes spell, least significant byte first.
pub open spec fn le_value(bytes: Seq<u8>) -> int
    recommends
        bytes.len() == 4,
{
    bytes[0] + 0x100 * bytes[1] + 0x1_0000 * bytes[2] + 0x100_0000 * bytes[3]
}

/// The number that four bytes spell, most significant byte first.
pub open spec fn be_value(bytes: Seq<u8>) -> int
    recommends
        bytes.len() == 4,
{
    bytes[3] + 0x100 * bytes[2] + 0x1_0000 * bytes[1] + 0x100_0000 * bytes[0]
}

/// Whether `header` is a length prefix that spells `n` in one of the two
/// byte orders. Which of the two a machine uses is not known to the proofs,
/// so every statement about a header allows for both.
pub open spec fn declares(header: Seq<u8>, n: int) -> bool {
    header.len() == 4 && (le_value(header) == n || be_value(header) == n)
}

/// Whether `frame` is `payload` behind a header that declares its length.
pub open spec fn is_frame(frame: Seq<u8>, payload: Seq<u8>) -> bool {
    &&& frame.len() == 4 + payload.len()
    &&& payload.len() <= 0xffff_ffff
    &&& declares(frame.take(4), payload.len() as int)
    &&& frame.skip(4) == payload
}

/// The JSON text that `greetd_ipc` writes for a request.
pub uninterp spec fn request_json(request: RequestView) -> Seq<u8>;

/// The response that `greetd_ipc` reads from a JSON text, if it reads one.
pub uninterp spec fn response_json(payload: Seq<u8>) -> Option<ResponseView>;

/// Calls `greetd_ipc::Request::write_to` on an empty byte vector.
///
/// The call succeeds on every request: the outside function serialises
/// with `serde_json`, whose serialiser fails only where the writer fails or
/// a map has a key that is no string, and it writes into a vector; a
/// request holds texts and lists of texts. The vector then holds four bytes
/// followed by the JSON text of the request; the four bytes spell the
/// length of that text, cut to 32 bits, in the machine's byte order.
#[verifier::external_body]
fn write_request(request: &Request) -> (written: Result<Vec<u8>, String>)
    ensures
        written is Ok,
        written matches Ok(bytes) ==> {
            &&& bytes@.len() == 4 + request_json(request@).len()
            &&& bytes@.skip(4) == request_json(request@)
            &&& declares(bytes@.take(4), (request_json(request@).len() % 0x1_0000_0000) as int)
        },
{
    let outside = match request {
        Request::CreateSession { username } => greetd_ipc::Request::CreateSession { username: username.clone() },
        Request::PostAuthMessageResponse { response } => greetd_ipc::Request::PostAuthMessageResponse { response: response.clone() },
        Request::StartSession { cmd } => greetd_ipc::Request::StartSession { cmd: cmd.clone() },
        Request::CancelSession => greetd_ipc::Request::CancelSession,
    };
    let mut bytes = Vec::new();
    match outside.write_to(&mut bytes) {
        Ok(()) => Ok(bytes),
        Err(fault) => Err(fault.to_string()),
    }
}

/// Turns what the encoder wrote into a frame, or into the reason why there
/// is none: bytes that are shorter than a header are no frame, and a
/// payload that a header cannot declare is refused.
pub fn finish_frame(written: Result<Vec<u8>, String>) -> (frame: Result<Vec<u8>, FramingError>)
    ensures
        match written {
            Ok(bytes) => if bytes@.len() < 4 {
                frame matches Err(e) && e@ is Truncated
            } else if bytes@.len() > 4 + 0xffff_ffff {
                frame matches Err(e) && e@ is Oversized
            } else {
                frame == Ok::<Vec<u8>, FramingError>(bytes)
            },
            Err(text) => frame matches Err(e) && e@ == FramingErrorView::Unrepresentable(text@),
        },
{
    match written {
        Ok(bytes) => {
            if bytes.len() < HEADER_LEN {
                Err(FramingError::Truncated)
            } else if bytes.len() - HEADER_LEN > MAX_PAYLOAD {
                Err(FramingError::Oversized)
            } else {
                Ok(bytes)
            }
        },
        Err(text) => Err(FramingError::Unrepresentable(text)),
    }
}

/// Encodes a request as one frame.
///
/// Every request whose JSON text a header can declare gives a frame, which
/// holds that text behind a header that declares its length. A longer text
/// is refused as `Oversized`.
pub fn encode_request(request: &Request) -> (frame: Result<Vec<u8>, FramingError>)
    ensures
        request_json(request@).len() <= 0xffff_ffff ==> (frame matches Ok(bytes) && is_frame(
            bytes@,
            request_json(request@),
        )),
        request_json(request@).len() > 0xffff_ffff ==> (frame matches Err(e) && e@ is Oversized),
{
    let written = write_request(request);
    finish_frame(written)
}

/// Calls `u32::from_ne_bytes`.
///
/// The result is the number that the four bytes spell in the machine's byte
/// order, which is one of the two orders.
#[verifier::external_body]
fn native_u32(header: [u8; 4]) -> (n: u32)
    ensures
        declares(header@, n as int),
{
    u32::from_ne_bytes(header)
}

/// Calls `greetd_ipc::Response::read_from` on a byte slice, which it leaves
/// at the bytes that the outside function did not read.
///
/// The outside function takes a four-byte header, then as many bytes as the
/// header spells in the machine's byte order, and reads those as JSON. So
/// where a response comes back, or the fault is `Serialization`, the JSON
/// reader has seen the bytes between the header and the unread rest, and
/// the header declares their number. Any other fault means that the bytes
/// ended before the payload did, which happens only where the header spells
/// more than the frame holds. Nothing is claimed of a fault's text. The
/// precondition keeps the buffer that the outside function allocates as
/// long as a payload that already is in memory: its caller has compared
/// the header, read by `native_u32`, with the length of the frame.
#[verifier::external_body]
fn read_response(rest: &mut &[u8]) -> (parsed: Result<Response, DecodeFault>)
    requires
        old(rest)@.len() >= 4,
        declares(old(rest)@.take(4), old(rest)@.len() - 4),
    ensures
        final(rest)@.len() <= old(rest)@.len() - 4,
        parsed matches Ok(response) ==> {
            &&& declares(old(rest)@.take(4), old(rest)@.len() - 4 - final(rest)@.len())
            &&& response_json(old(rest)@.subrange(4, old(rest)@.len() - final(rest)@.len()))
                == Some(response@)
        },
        parsed matches Err(DecodeFault::Serialization(_)) ==> {
            &&& declares(old(rest)@.take(4), old(rest)@.len() - 4 - final(rest)@.len())
            &&& response_json(old(rest)@.subrange(4, old(rest)@.len() - final(rest)@.len()))
                is None
        },
        parsed matches Err(fault) && !(fault is Serialization) ==> le_value(old(rest)@.take(4))
            > old(rest)@.len() - 4 || be_value(old(rest)@.take(4)) > old(rest)@.len() - 4,
{
    match BrokerResponse::read_from(rest) {
        Ok(BrokerResponse::Success) => Ok(Response::Success),
        Ok(BrokerResponse::Error { error_type, description }) => Ok(Response::Error {
            error_type: match error_type { BrokerErrorType::Error => ErrorType::Error, BrokerErrorType::AuthError => ErrorType::AuthError },
            description }),
        Ok(BrokerResponse::AuthMessage { auth_message_type, auth_message }) => Ok(Response::AuthMessage {
            auth_message_type: match auth_message_type {
                BrokerMessageType::Visible => AuthMessageType::Visible, BrokerMessageType::Secret => AuthMessageType::Secret,
                BrokerMessageType::Info => AuthMessageType::Info, BrokerMessageType::Error => AuthMessageType::Error },
            auth_message }),
        Err(CodecError::Serialization(text)) => Err(DecodeFault::Serialization(text)),
        Err(CodecError::Io(text)) => Err(DecodeFault::Io(text)),
        Err(CodecError::Eof) => Err(DecodeFault::Eof),
    }
}

/// Reads the payload length from the first four bytes of `bytes`.
///
/// The answer is the number that those bytes spell in the machine's byte
/// order; with fewer than four bytes there is no header to read.
pub fn declared_length(bytes: &[u8]) -> (length: Result<usize, FramingError>)
    ensures
        bytes@.len() < 4 ==> (length matches Err(e) && e@ is Truncated),
        bytes@.len() >= 4 ==> (length matches Ok(n) && declares(bytes@.take(4), n as int)),
{
    if bytes.len() < HEADER_LEN {
        return Err(FramingError::Truncated);
    }
    let header: [u8; 4] = [bytes[0], bytes[1], bytes[2], bytes[3]];
    assert(header@ =~= bytes@.take(4));
    let n: u32 = native_u32(header);
    Ok(n as usize)
}

/// Compares the payload length that a header declares with the number of
/// bytes that follow the header.
pub fn check_length(declared: usize, available: usize) -> (checked: Result<(), FramingError>)
    ensures
        declared == available ==> checked is Ok,
        declared > available ==> (checked matches Err(e) && e@ is Truncated),
        declared < available ==> (checked matches Err(e) && e@ is Overlong),
{
    if declared > available {
        Err(FramingError::Truncated)
    } else if declared < available {
        Err(FramingError::Overlong)
    } else {
        Ok(())
    }
}

/// What the decoder's answer on a frame, and the number of bytes that it
/// left unread, come to.
///
/// * A fault other than `Serialization` says that the bytes ended early:
///   `Truncated`.
/// * Unread bytes say that the decoder looked at less than the frame
///   holds: `Overlong`.
/// * Otherwise a response stands, and a `Serialization` fault is
///   `Malformed` with the same text.
pub open spec fn settled(parsed: Result<ResponseView, DecodeFaultView>, unread: int) -> Result<
    ResponseView,
    FramingErrorView,
> {
    match parsed {
        Err(DecodeFaultView::Io(_)) => Err(FramingErrorView::Truncated),
        Err(DecodeFaultView::Eof) => Err(FramingErrorView::Truncated),
        _ if unread != 0 => Err(FramingErrorView::Overlong),
        Ok(response) => Ok(response),
        Err(DecodeFaultView::Serialization(text)) => Err(FramingErrorView::Malformed(text)),
    }
}

/// The mathematical content of what the decoder read.
pub open spec fn read_view(parsed: Result<Response, DecodeFault>) -> Result<
    ResponseView,
    DecodeFaultView,
> {
    match parsed {
        Ok(response) => Ok(response@),
        Err(fault) => Err(fault@),
    }
}

/// The mathematical content of a decoded frame.
pub open spec fn decoded_view(decoded: Result<Response, FramingError>) -> Result<
    ResponseView,
    FramingErrorView,
> {
    match decoded {
        Ok(response) => Ok(response@),
        Err(error) => Err(error@),
    }
}

/// Turns what the decoder read from a frame, and the number of bytes that
/// it left unread, into the response or into the reason why there is none.
pub fn settle_response(parsed: Result<Response, DecodeFault>, unread: usize) -> (outcome: Result<
    Response,
    FramingError,
>)
    ensures
        decoded_view(outcome) == settled(read_view(parsed), unread as int),
{
    match parsed {
        Err(DecodeFault::Io(_)) => Err(FramingError::Truncated),
        Err(DecodeFault::Eof) => Err(FramingError::Truncated),
        Ok(response) => {
            if unread == 0 {
                Ok(response)
            } else {
                Err(FramingError::Overlong)
            }
        },
        Err(DecodeFault::Serialization(text)) => {
            if unread == 0 {
                Err(FramingError::Malformed(text))
            } else {
                Err(FramingError::Overlong)
            }
        },
    }
}

/// Whether decoding `frame` can give `response`: the frame is a payload
/// behind a header that declares its length, and the payload reads as that
/// response.
pub open spec fn decodes_to(frame: Seq<u8>, response: ResponseView) -> bool {
    &&& frame.len() >= 4
    &&& is_frame(frame, frame.skip(4))
    &&& response_json(frame.skip(4)) == Some(response)
}

/// Whether decoding `frame` can fail with `error`. The header is read in
/// the machine's byte order, so a frame counts as cut short, or as too
/// long, where it is so in one of the two orders. A frame is malformed only
/// where it is well formed as a frame and its payload reads as no response.
pub open spec fn rejected_as(frame: Seq<u8>, error: FramingErrorView) -> bool {
    match error {
        FramingErrorView::Truncated => frame.len() < 4 || le_value(frame.take(4)) > frame.len()
            - 4 || be_value(frame.take(4)) > frame.len() - 4,
        FramingErrorView::Overlong => frame.len() >= 4 && (le_value(frame.take(4)) < frame.len()
            - 4 || be_value(frame.take(4)) < frame.len() - 4),
        FramingErrorView::Malformed(_) => frame.len() >= 4 && declares(
            frame.take(4),
            frame.len() - 4,
        ) && response_json(frame.skip(4)) is None,
        FramingErrorView::Oversized => false,
        FramingErrorView::Unrepresentable(_) => false,
    }
}

/// Decodes one frame into a response.
///
/// A partial frame is never interpreted: bytes that end before the header
/// or the declared payload does are `Truncated`, bytes that go on behind
/// the declared payload are `Overlong`. A response that comes back was read
/// from the whole payload of a well-formed frame; `Malformed` says that the
/// whole payload of a well-formed frame reads as no response.
pub fn decode_response(frame: &[u8]) -> (decoded: Result<Response, FramingError>)
    ensures
        match decoded {
            Ok(response) => decodes_to(frame@, response@),
            Err(error) => rejected_as(frame@, error@),
        },
{
    let declared = match declared_length(frame) {
        Ok(n) => n,
        Err(e) => {
            return Err(e);
        },
    };
    match check_length(declared, frame.len() - HEADER_LEN) {
        Ok(()) => {},
        Err(e) => {
            return Err(e);
        },
    }
    let mut rest = frame;
    let parsed = read_response(&mut rest);
    proof {
        if rest@.len() == 0 {
            assert(frame@.subrange(4, frame@.len() - rest@.len()) =~= frame@.skip(4));
        }
    }
    settle_response(parsed, rest.len())
}

/// A partial frame is never interpreted. Bytes that end before the header
/// does, or before the payload does in whichever order the header is read,
/// decode to no response and are rejected as `Truncated` only; bytes that
/// go on behind the payload in either order decode to no response and are
/// rejected as `Overlong` only.
pub proof fn law_partial_frames_rejected(frame: Seq<u8>)
    ensures
        frame.len() < 4 || (le_value(frame.take(4)) > frame.len() - 4 && be_value(frame.take(4))
            > frame.len() - 4) ==> (forall|response: ResponseView| !decodes_to(frame, response))
            && (forall|error: FramingErrorView| #[trigger]
            rejected_as(frame, error) ==> error is Truncated),
        frame.len() >= 4 && le_value(frame.take(4)) < frame.len() - 4 && be_value(frame.take(4))
            < frame.len() - 4 ==> (forall|response: ResponseView| !decodes_to(frame, response))
            && (forall|error: FramingErrorView| #[trigger]
            rejected_as(frame, error) ==> error is Overlong),
{
    if frame.len() >= 4 {
        assert(frame.skip(4).len() == frame.len() - 4);
    }
}

/// A frame fixes its payload: two payloads behind the same frame are the
/// same payload.
pub proof fn law_frame_fixes_payload(frame: Seq<u8>, first: Seq<u8>, second: Seq<u8>)
    requires
        is_frame(frame, first),
        is_frame(frame, second),
    ensures
        first == second,
{
}

} // verus!
