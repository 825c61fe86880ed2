//! The execution context: the record of one step's execution that the driver builds and
//! the step's hooks change.

use crate::request::{codes_view, plain_request, text_view, Method, Request, RequestView};
use crate::requester::{
    initial_settings, HttpRequester, RequestHandle, RequestHandleView, SettingsView,
};
use bytes::Bytes;
use serde::de::DeserializeOwned;
use vstd::prelude::*;

verus! {

/// `bytes::Bytes`, a shared buffer of bytes; what it holds is [`bytes_content`].
#[verifier::external_type_specification]
#[verifier::external_body]
pub struct ExBytes(bytes::Bytes);

/// `serde_json::Error`, the decoder's account of a failure; it is carried through unread.
#[verifier::external_type_specification]
#[verifier::external_body]
pub struct ExJsonError(serde_json::Error);

/// The bytes that a `bytes::Bytes` buffer holds, in order.
pub uninterp spec fn bytes_content(buffer: Bytes) -> Seq<u8>;

/// The text that `encoding_rs` decodes `bytes` to when asked for UTF-8.
pub uninterp spec fn utf8_decoded(bytes: Seq<u8>) -> Seq<char>;

/// `Clone::clone` of `bytes::Bytes`: the copy holds the same bytes as the buffer it was
/// made from.
pub assume_specification[ <Bytes as Clone>::clone ](buffer: &Bytes) -> (copy: Bytes)
    ensures
        bytes_content(copy) == bytes_content(*buffer),
;

/// `AsRef::<[u8]>::as_ref` of `bytes::Bytes`: the slice is the whole content of the buffer.
pub assume_specification[ <Bytes as AsRef<[u8]>>::as_ref ](buffer: &Bytes) -> (slice: &[u8])
    ensures
        slice@ == bytes_content(*buffer),
;

/// Whether a body of `len` bytes is short enough to be decoded: the decoder sizes its
/// output at three bytes for each byte of input and fifteen more, and a buffer
/// holds at most half the address space.
pub open spec fn decodable_len(len: nat) -> bool {
    3 * len + 15 <= usize::MAX / 2
}

/// Whether `bytes` start with a byte-order mark that the decoder looks for: that of
/// UTF-8, of UTF-16 little-endian or of UTF-16 big-endian.
pub open spec fn starts_with_bom(bytes: Seq<u8>) -> bool {
    ||| bytes.len() >= 3 && bytes[0] == 0xEF && bytes[1] == 0xBB && bytes[2] == 0xBF
    ||| bytes.len() >= 2 && bytes[0] == 0xFF && bytes[1] == 0xFE
    ||| bytes.len() >= 2 && bytes[0] == 0xFE && bytes[1] == 0xFF
}

/// Whether `bytes` are a text in UTF-8 as it stands: well-formed, with no byte-order mark
/// in front.
pub open spec fn plain_utf8(bytes: Seq<u8>) -> bool {
    vstd::utf8::valid_utf8(bytes) && !starts_with_bom(bytes)
}

/// The bytes of a text that does not begin with a byte-order mark are plain UTF-8, and
/// the text that they stand for is that text.
pub proof fn lemma_plain_utf8_of_text(text: Seq<char>)
    requires
        !starts_with_bom(vstd::utf8::encode_utf8(text)),
    ensures
        plain_utf8(vstd::utf8::encode_utf8(text)),
        vstd::utf8::decode_utf8(vstd::utf8::encode_utf8(text)) == text,
{
    vstd::utf8::encode_utf8_valid_utf8(text);
    vstd::utf8::encode_utf8_decode_utf8(text);
}

/// `encoding_rs::Encoding::decode` on `encoding_rs::UTF_8`: decodes the complete input
/// with BOM sniffing, a BOM left out of the text and each malformed sequence replaced
/// by U+FFFD. The text is a function of the bytes alone. Bytes that are well-formed UTF-8
/// with no byte-order mark in front are handed back as the text that they stand for. The
/// input must be short enough for the decoder's size calculation.
#[verifier::external_body]
fn decode_utf8(bytes: &[u8]) -> (text: String)
    requires
        decodable_len(bytes@.len()),
    ensures
        text@ == utf8_decoded(bytes@),
        plain_utf8(bytes@) ==> text@ == vstd::utf8::decode_utf8(bytes@),
{
    let (text, _, _) = encoding_rs::UTF_8.decode(bytes);
    text.into_owned()
}

/// `serde_json::from_slice`: reads one JSON value of the shape `T` from the bytes. What it
/// makes of given bytes depends on the shape, so nothing is said of the result here.
pub assume_specification<'a, T: serde::de::Deserialize<'a>>[ serde_json::from_slice::<'a, T> ](
    v: &'a [u8],
) -> (parsed: Result<T, serde_json::Error>)
;

/// Why the body of a response could not be read as JSON.
#[derive(Debug)]
pub enum BodyError {
    /// The context holds no response.
    NoResponse,
    /// The body is not valid JSON for the shape asked for.
    Decode(serde_json::Error),
}

/// What reading a body as JSON hands back for each result of the decoder: the value as it
/// is, and the decoder's error as a [`BodyError::Decode`].
pub fn decoded_body<T>(parsed: Result<T, serde_json::Error>) -> (result: Result<T, BodyError>)
    ensures
        result == match parsed {
            Ok(value) => Ok::<T, BodyError>(value),
            Err(error) => Err(BodyError::Decode(error)),
        },
{
    match parsed {
        Ok(value) => Ok(value),
        Err(error) => Err(BodyError::Decode(error)),
    }
}

/// The model of an optional request handle.
pub open spec fn handle_view(handle: Option<RequestHandle>) -> Option<RequestHandleView> {
    match handle {
        Some(h) => Some(h@),
        None => None,
    }
}

/// The model of an optional response body.
pub open spec fn body_view(response: Option<Bytes>) -> Option<Seq<u8>> {
    match response {
        Some(buffer) => Some(bytes_content(buffer)),
        None => None,
    }
}

/// Mathematical model of a [`Context`].
pub struct ContextView {
    pub request: RequestView,
    pub current_step: Option<Seq<char>>,
    pub requester: SettingsView,
    pub request_builder: Option<RequestHandleView>,
    pub response: Option<Seq<u8>>,
    pub next_step: Option<Seq<char>>,
    pub status_codes: Option<Seq<u16>>,
    pub time_elapsed: u64,
}

/// The context of the execution of one step. It is handed to the step's hooks, which
/// change it, most often to name the step to run next.
#[derive(Debug)]
pub struct Context {
    /// The request that the step asked for.
    pub request: Request,
    /// The name of the step that is being executed.
    pub current_step: Option<String>,
    /// The requester that prepared the request.
    pub http_requester: HttpRequester,
    /// The request as it is ready to be sent; taken out when it is sent.
    pub request_builder: Option<RequestHandle>,
    /// The body of the response.
    pub response: Option<Bytes>,
    /// The step to execute next. Only a step's hooks set it.
    pub next_step: Option<String>,
    /// If present, the status code of the response must be one of these.
    pub status_codes: Option<Vec<u16>>,
    /// The time that the request took, in milliseconds.
    pub time_elapsed: u64,
}

impl View for Context {
    type V = ContextView;

    open spec fn view(&self) -> ContextView {
        ContextView {
            request: self.request@,
            current_step: text_view(self.current_step),
            requester: self.http_requester@,
            request_builder: handle_view(self.request_builder),
            response: body_view(self.response),
            next_step: text_view(self.next_step),
            status_codes: codes_view(self.status_codes),
            time_elapsed: self.time_elapsed,
        }
    }
}

/// The model of the context that is built around `request`, with `requester` as the
/// settings of its requester: the request is ready to be sent, the accepted status codes
/// are those of the request, and nothing else is set.
pub open spec fn fresh_context(request: RequestView, requester: SettingsView) -> ContextView {
    ContextView {
        request,
        current_step: None,
        requester,
        request_builder: Some(RequestHandleView { request, settings: requester }),
        response: None,
        next_step: None,
        status_codes: request.status_codes,
        time_elapsed: 0,
    }
}

impl Context {
    /// The accepted status codes are those of the request.
    pub open spec fn well_formed(&self) -> bool {
        self@.status_codes == self@.request.status_codes
    }

    /// A context around the default request, prepared by a requester with its initial
    /// settings.
    pub fn new() -> (context: Self)
        ensures
            context@ == fresh_context(
                plain_request(Method::GET, Seq::empty()),
                initial_settings(),
            ),
            context.well_formed(),
    {
        let request = Request::default();
        let http_requester = HttpRequester::new();
        let request_builder = http_requester.build_request(request.clone());
        Context {
            request,
            current_step: None,
            http_requester,
            request_builder: Some(request_builder),
            response: None,
            next_step: None,
            status_codes: None,
            time_elapsed: 0,
        }
    }

    pub fn set_next_step(&mut self, step: String)
        ensures
            final(self)@ == (ContextView { next_step: Some(step@), ..old(self)@ }),
    {
        self.next_step = Some(step);
    }

    pub fn clear_next_step(&mut self)
        ensures
            final(self)@ == (ContextView { next_step: None, ..old(self)@ }),
    {
        self.next_step = None;
    }

    pub fn get_next_step(&self) -> (next: Option<String>)
        ensures
            text_view(next) == self@.next_step,
    {
        match &self.next_step {
            Some(name) => Some(name.clone()),
            None => None,
        }
    }

    pub fn get_time_elapsed(&self) -> (millis: u64)
        ensures
            millis == self@.time_elapsed,
    {
        self.time_elapsed
    }

    pub fn set_time_elapsed(&mut self, time_elapsed: u64)
        ensures
            final(self)@ == (ContextView { time_elapsed, ..old(self)@ }),
    {
        self.time_elapsed = time_elapsed;
    }

    pub fn set_response(&mut self, res: Bytes)
        ensures
            final(self)@ == (ContextView { response: Some(bytes_content(res)), ..old(self)@ }),
    {
        self.response = Some(res);
    }

    pub fn set_request_builder(&mut self, req_builder: RequestHandle)
        ensures
            final(self)@ == (ContextView { request_builder: Some(req_builder@), ..old(self)@ }),
    {
        self.request_builder = Some(req_builder);
    }

    /// Takes the request out to be sent. A context gives its request out once: after the
    /// call it holds none.
    pub fn take_request_builder(&mut self) -> (handle: Option<RequestHandle>)
        ensures
            handle_view(handle) == old(self)@.request_builder,
            final(self)@ == (ContextView { request_builder: None, ..old(self)@ }),
    {
        self.request_builder.take()
    }

    /// A copy of the response body, if the context holds one.
    pub fn body_bytes(&self) -> (body: Option<Bytes>)
        ensures
            body_view(body) == self@.response,
    {
        match &self.response {
            Some(buffer) => Some(buffer.clone()),
            None => None,
        }
    }

    /// The body decoded as UTF-8; the empty text if the context holds no response. A
    /// body that is plain UTF-8 gives the text that its bytes stand for.
    pub fn body_text(&self) -> (text: String)
        requires
            self@.response matches Some(body) ==> decodable_len(body.len()),
        ensures
            text@ == match self@.response {
                Some(body) => utf8_decoded(body),
                None => Seq::<char>::empty(),
            },
            self@.response matches Some(body) ==> (plain_utf8(body) ==> text@
                == vstd::utf8::decode_utf8(body)),
    {
        match &self.response {
            Some(buffer) => decode_utf8(buffer.as_ref()),
            None => String::new(),
        }
    }

    /// [`Context::body_text`] for a body of any length: `None` if the body is too long to
    /// be decoded.
    pub fn try_body_text(&self) -> (text: Option<String>)
        ensures
            match self@.response {
                Some(body) => if decodable_len(body.len()) {
                    text matches Some(t) && t@ == utf8_decoded(body)
                } else {
                    text is None
                },
                None => text matches Some(t) && t@ == Seq::<char>::empty(),
            },
            self@.response matches Some(body) ==> (plain_utf8(body) && text is Some
                ==> text->Some_0@ == vstd::utf8::decode_utf8(body)),
    {
        let short_enough = match &self.response {
            Some(buffer) => buffer.as_ref().len() <= (usize::MAX / 2 - 15) / 3,
            None => true,
        };
        if short_enough {
            Some(self.body_text())
        } else {
            None
        }
    }

    /// The body read as one JSON value of the shape `T`. Without a response the result
    /// is [`BodyError::NoResponse`]; with one, it is what [`decoded_body`] makes of the
    /// decoder's result.
    pub fn body_json<T: DeserializeOwned>(&self) -> (result: Result<T, BodyError>)
        ensures
            self@.response is None ==> result matches Err(BodyError::NoResponse),
            self@.response is Some ==> !(result matches Err(BodyError::NoResponse)),
            self@.response matches Some(body) ==> exists|
                slice: &[u8],
                parsed: Result<T, serde_json::Error>,
            |
                {
                    &&& slice@ == body
                    &&& #[trigger] serde_json::from_slice::<T>.ensures((slice,), parsed)
                    &&& result == match parsed {
                        Ok(value) => Ok::<T, BodyError>(value),
                        Err(error) => Err(BodyError::Decode(error)),
                    }
                },
    {
        match &self.response {
            Some(buffer) => {
                let slice = buffer.as_ref();
                let parsed = serde_json::from_slice::<T>(slice);
                let ghost decoded = parsed;
                let result = decoded_body(parsed);
                assert(slice@ == self@.response->Some_0 && serde_json::from_slice::<T>.ensures(
                    (slice,),
                    decoded,
                ) && result == match decoded {
                    Ok(value) => Ok::<T, BodyError>(value),
                    Err(error) => Err(BodyError::Decode(error)),
                });
                result
            },
            None => Err(BodyError::NoResponse),
        }
    }
}

} // verus!
