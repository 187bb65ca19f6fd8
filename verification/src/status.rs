//! The status with which an interceptor refuses a request, and the response that it becomes.

use http::{Extensions, HeaderMap, HeaderValue, Version};
use tonic::metadata::MetadataMap;
use vstd::prelude::*;

use crate::external::{
    header_fields, is_default, is_the_default, metadata_fields, Fields,
};

verus! {

/// A gRPC status: the parts of a `tonic::Status`.
#[derive(Debug)]
pub struct Status {
    /// The number of the gRPC status code. A number that is no code stands for `Unknown`.
    pub code: i32,
    pub message: String,
    pub details: Vec<u8>,
    pub metadata: MetadataMap,
}

/// An HTTP response: the parts of an `http::Response`, the status code as a number.
#[derive(Debug)]
pub struct HttpResponse<B> {
    pub status: u16,
    pub version: Version,
    pub headers: HeaderMap<HeaderValue>,
    pub extensions: Extensions,
    pub body: B,
}

/// How many names the metadata of a status may have.
///
/// An `http::HeaderMap` panics when it has to grow beyond its largest table. Where many names fall
/// on the same place of the table that can happen from 6554 names on, and the status adds four
/// names of its own to those of its metadata.
pub const MAX_METADATA_NAMES: usize = 6550;

/// Whether a byte of a message is written in percent-encoding: a control character, a byte that is
/// not ASCII, the space, or one of eight punctuation marks.
pub open spec fn is_escaped(byte: u8) -> bool {
    ||| byte < 0x20
    ||| byte >= 0x7f
    ||| byte == ' ' as u8
    ||| byte == '"' as u8
    ||| byte == '#' as u8
    ||| byte == '<' as u8
    ||| byte == '>' as u8
    ||| byte == '?' as u8
    ||| byte == '`' as u8
    ||| byte == '{' as u8
    ||| byte == '}' as u8
}

/// A hexadecimal digit, in upper case.
pub open spec fn hex_digit(n: int) -> u8 {
    if n < 10 {
        (48 + n) as u8
    } else {
        (55 + n) as u8
    }
}

/// Bytes in percent-encoding: each byte that is escaped as `%` and its two hexadecimal digits, each
/// other one as it is.
pub open spec fn percent_encoded(bytes: Seq<u8>) -> Seq<u8>
    decreases bytes.len(),
{
    if bytes.len() == 0 {
        seq![]
    } else if is_escaped(bytes[0]) {
        seq![37u8, hex_digit(bytes[0] as int / 16), hex_digit(bytes[0] as int % 16)]
            + percent_encoded(bytes.skip(1))
    } else {
        seq![bytes[0]] + percent_encoded(bytes.skip(1))
    }
}

/// A digit of the standard Base64 alphabet.
pub open spec fn base64_digit(n: int) -> u8 {
    if n < 26 {
        (65 + n) as u8
    } else if n < 52 {
        (97 + n - 26) as u8
    } else if n < 62 {
        (48 + n - 52) as u8
    } else if n == 62 {
        43
    } else {
        47
    }
}

/// Bytes in Base64, without padding: the bits of each three bytes as four digits of six bits. One
/// or two bytes at the end are filled up with zero bits to two or three digits.
pub open spec fn base64(bytes: Seq<u8>) -> Seq<u8>
    decreases bytes.len(),
{
    let (a, b, c) = (bytes[0] as int, bytes[1] as int, bytes[2] as int);
    if bytes.len() == 0 {
        seq![]
    } else if bytes.len() == 1 {
        seq![base64_digit(a / 4), base64_digit(a % 4 * 16)]
    } else if bytes.len() == 2 {
        seq![base64_digit(a / 4), base64_digit(a % 4 * 16 + b / 16), base64_digit(b % 16 * 4)]
    } else {
        seq![
            base64_digit(a / 4),
            base64_digit(a % 4 * 16 + b / 16),
            base64_digit(b % 16 * 4 + c / 64),
            base64_digit(c % 64),
        ] + base64(bytes.skip(3))
    }
}

/// The bytes of an ASCII text.
pub open spec fn ascii(text: Seq<char>) -> Seq<u8> {
    text.map_values(|c: char| c as u8)
}

/// A field with one value, which is not marked as sensitive.
pub open spec fn single(value: Seq<u8>) -> Seq<(Seq<u8>, bool)> {
    seq![(value, false)]
}

/// The status code that a number stands for: the number itself from 0 to 16, else 2, the number of
/// `Unknown`.
pub open spec fn known_code(code: int) -> int {
    if 0 <= code <= 16 {
        code
    } else {
        2
    }
}

/// A number below 100 in decimal digits.
pub open spec fn decimal(n: int) -> Seq<u8> {
    if n < 10 {
        seq![(48 + n) as u8]
    } else {
        seq![(48 + n / 10) as u8, (48 + n % 10) as u8]
    }
}

/// The names that the metadata of a status cannot set.
pub open spec fn reserved_names() -> Set<Seq<char>> {
    set![
        "te"@,
        "user-agent"@,
        "content-type"@,
        "grpc-message"@,
        "grpc-message-type"@,
        "grpc-status"@,
    ]
}

/// The header fields of the response that a status becomes: the fields of its metadata whose names
/// are not reserved, the content type of gRPC, the code, and, where they are not empty, the message
/// in percent-encoding and the details in Base64.
pub open spec fn status_fields(status: Status) -> Fields {
    let fields = metadata_fields(status.metadata).remove_keys(reserved_names()).insert(
        "content-type"@,
        single(ascii("application/grpc"@)),
    ).insert("grpc-status"@, single(decimal(known_code(status.code as int))));
    let fields = if status.message@.len() > 0 {
        fields.insert(
            "grpc-message"@,
            single(percent_encoded(vstd::utf8::encode_utf8(status.message@))),
        )
    } else {
        fields
    };
    if status.details@.len() > 0 {
        fields.insert("grpc-status-details-bin"@, single(base64(status.details@)))
    } else {
        fields
    }
}

/// Whether `res` is the response that `status` becomes: HTTP status 200, the default HTTP version,
/// the fields of the status, no extensions, and a default body.
pub open spec fn answers<B: Default>(status: Status, res: HttpResponse<B>) -> bool {
    &&& res.status == 200
    &&& is_the_default(res.version)
    &&& header_fields(res.headers) == status_fields(status)
    &&& is_the_default(res.extensions)
    &&& is_default(res.body)
}

/// `tonic::Status::into_http`, its response without the body, which is empty: HTTP status 200, the
/// one version that `http::Version::default` gives, which is HTTP/1.1, the fields that
/// [`status_fields`] lists, and the one value that `http::Extensions::default` gives, which holds
/// nothing. The number of the code goes through `tonic::Code::from_i32`.
///
/// A status whose metadata has more than [`MAX_METADATA_NAMES`] names is left out: the call may
/// panic on it.
#[verifier::external_body]
fn status_into_http(status: Status) -> (res: HttpResponse<()>)
    requires
        status.is_answerable(),
    ensures
        res.status == 200,
        is_the_default(res.version),
        header_fields(res.headers) == status_fields(status),
        is_the_default(res.extensions),
{
    let Status { code, message, details, metadata } = status;
    let (code, details) = (tonic::Code::from_i32(code), bytes::Bytes::from(details));
    let status = tonic::Status::with_details_and_metadata(code, message, details, metadata);
    let (parts, _) = status.into_http().into_parts();
    HttpResponse {
        status: parts.status.as_u16(),
        version: parts.version,
        headers: parts.headers,
        extensions: parts.extensions,
        body: (),
    }
}

/// The response with a default body in place of none.
pub fn with_default_body<B: Default>(response: HttpResponse<()>) -> (res: HttpResponse<B>)
    ensures
        res.status == response.status,
        res.version == response.version,
        res.headers == response.headers,
        res.extensions == response.extensions,
        is_default(res.body),
        call_ensures(B::default, (), res.body),
{
    HttpResponse {
        status: response.status,
        version: response.version,
        headers: response.headers,
        extensions: response.extensions,
        body: B::default(),
    }
}

impl Status {
    /// Whether the metadata has at most [`MAX_METADATA_NAMES`] names.
    pub open spec fn is_answerable(&self) -> bool {
        metadata_fields(self.metadata).dom().len() <= MAX_METADATA_NAMES
    }

    /// Whether the status can be made a response without a panic, however its names are spread.
    pub fn answerable(&self) -> (res: bool)
        ensures
            res == self.is_answerable(),
    {
        self.metadata.keys_len() <= MAX_METADATA_NAMES
    }

    /// The HTTP response that the status becomes, with a default body.
    pub fn into_http<B: Default>(self) -> (res: HttpResponse<B>)
        requires
            self.is_answerable(),
        ensures
            answers(self, res),
            res.status == 200,
            header_fields(res.headers) == status_fields(self),
            call_ensures(B::default, (), res.body),
    {
        with_default_body(status_into_http(self))
    }
}

} // verus!
