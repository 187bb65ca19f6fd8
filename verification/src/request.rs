//! Taking an HTTP request apart for the interceptor, and putting it together again.

use http::{Extensions, HeaderMap, HeaderValue, Method, Uri, Version};
use tonic::metadata::MetadataMap;
use vstd::prelude::*;

use crate::external::{header_fields, metadata_fields};

verus! {

/// An HTTP request: the parts of an `http::Request`.
#[derive(Debug)]
pub struct HttpRequest<B> {
    pub method: Method,
    pub uri: Uri,
    pub version: Version,
    pub headers: HeaderMap<HeaderValue>,
    pub extensions: Extensions,
    pub body: B,
}

/// A gRPC request: the parts of a `tonic::Request`.
#[derive(Debug)]
pub struct Request<Msg> {
    pub metadata: MetadataMap,
    pub extensions: Extensions,
    pub message: Msg,
}

/// Components and attributes of a request, without metadata or extensions.
#[derive(Debug)]
pub struct DecomposedRequest<ReqBody> {
    pub uri: Uri,
    pub method: Method,
    pub http_version: Version,
    pub msg: ReqBody,
}

/// Whether `given` is the gRPC request that the interceptor gets of `req`: the headers as metadata,
/// the extensions, and no body.
pub open spec fn without_body<B>(req: HttpRequest<B>, given: Request<()>) -> bool {
    &&& metadata_fields(given.metadata) == header_fields(req.headers)
    &&& given.extensions == req.extensions
}

/// What is taken aside of `req` before the interceptor gets the rest.
pub open spec fn taken_aside<B>(req: HttpRequest<B>) -> DecomposedRequest<B> {
    DecomposedRequest {
        uri: req.uri,
        method: req.method,
        http_version: req.version,
        msg: req.body,
    }
}

/// Whether `res` is the HTTP request made of what was taken aside and of the metadata and the
/// extensions that the interceptor handed back.
pub open spec fn recomposed<B>(
    dreq: DecomposedRequest<B>,
    modified_req: Request<()>,
    res: HttpRequest<B>,
) -> bool {
    &&& res.method == dreq.method
    &&& res.uri == dreq.uri
    &&& res.version == dreq.http_version
    &&& header_fields(res.headers) == metadata_fields(modified_req.metadata)
    &&& res.extensions == modified_req.extensions
    &&& res.body == dreq.msg
}

/// Whether two HTTP requests agree in every part.
pub open spec fn same_request<B>(a: HttpRequest<B>, b: HttpRequest<B>) -> bool {
    &&& a.method == b.method
    &&& a.uri == b.uri
    &&& a.version == b.version
    &&& header_fields(a.headers) == header_fields(b.headers)
    &&& a.extensions == b.extensions
    &&& a.body == b.body
}

/// `tonic::Request::from_http`: the headers become the metadata, nothing added and nothing left
/// out; the extensions and the body are kept; the method, the URI and the version are lost.
#[verifier::external_body]
fn request_from_http<B>(req: HttpRequest<B>) -> (res: Request<B>)
    ensures
        metadata_fields(res.metadata) == header_fields(req.headers),
        res.extensions == req.extensions,
        res.message == req.body,
{
    let mut http_req = http::Request::new(req.body);
    *http_req.method_mut() = req.method;
    *http_req.uri_mut() = req.uri;
    *http_req.version_mut() = req.version;
    *http_req.headers_mut() = req.headers;
    *http_req.extensions_mut() = req.extensions;
    let (metadata, extensions, message) = tonic::Request::from_http(http_req).into_parts();
    Request { metadata, extensions, message }
}

/// The metadata, the extensions and the message of a gRPC request.
pub fn request_into_parts<Msg>(req: Request<Msg>) -> (res: (MetadataMap, Extensions, Msg))
    ensures
        res == (req.metadata, req.extensions, req.message),
{
    (req.metadata, req.extensions, req.message)
}

/// The gRPC request with these parts.
pub fn request_from_parts<Msg>(
    msg: Msg,
    metadata: MetadataMap,
    extensions: Extensions,
) -> (res: Request<Msg>)
    ensures
        res == (Request { metadata, extensions, message: msg }),
{
    Request { metadata, extensions, message: msg }
}

/// The HTTP request with these parts, the metadata as its headers.
pub fn request_into_http<Msg>(
    msg: Msg,
    uri: Uri,
    method: Method,
    version: Version,
    metadata: MetadataMap,
    extensions: Extensions,
) -> (res: HttpRequest<Msg>)
    ensures
        res.method == method,
        res.uri == uri,
        res.version == version,
        header_fields(res.headers) == metadata_fields(metadata),
        res.extensions == extensions,
        res.body == msg,
{
    HttpRequest { method, uri, version, headers: metadata.into_headers(), extensions, body: msg }
}

/// Decompose the request into its contents and properties, and create a new request without a body.
///
/// It is bad practice to modify the body (i.e. Message) of the request via an interceptor.
/// To avoid exposing the body of the request to the interceptor function, we first remove it
/// here, allow the interceptor to modify the metadata and extensions, and then recreate the
/// HTTP request with the original message body with the `recompose` function. Also note that gRPC
/// requests do not preserve the URI, HTTP version, and HTTP method of the HTTP request, so we
/// extract them here and then add them back in `recompose`.
pub fn decompose<ReqBody>(req: HttpRequest<ReqBody>) -> (res: (
    DecomposedRequest<ReqBody>,
    Request<()>,
))
    ensures
        res.0 == taken_aside(req),
        without_body(req, res.1),
        res.0.uri == req.uri,
        res.0.method == req.method,
        res.0.http_version == req.version,
        res.0.msg == req.body,
        metadata_fields(res.1.metadata) == header_fields(req.headers),
        res.1.extensions == req.extensions,
{
    let uri = req.uri.clone();
    let method = req.method.clone();
    let http_version = req.version;
    let req = request_from_http(req);
    let (metadata, extensions, msg) = request_into_parts(req);

    let dreq = DecomposedRequest { uri, method, http_version, msg };
    let req_without_body = request_from_parts((), metadata, extensions);

    (dreq, req_without_body)
}

/// Combine the modified metadata and extensions with the original message body and attributes.
pub fn recompose<ReqBody>(
    dreq: DecomposedRequest<ReqBody>,
    modified_req: Request<()>,
) -> (res: HttpRequest<ReqBody>)
    ensures
        recomposed(dreq, modified_req, res),
        res.method == dreq.method,
        res.uri == dreq.uri,
        res.version == dreq.http_version,
        header_fields(res.headers) == metadata_fields(modified_req.metadata),
        res.extensions == modified_req.extensions,
        res.body == dreq.msg,
{
    let (metadata, extensions, _) = request_into_parts(modified_req);

    request_into_http(dreq.msg, dreq.uri, dreq.method, dreq.http_version, metadata, extensions)
}

} // verus!
