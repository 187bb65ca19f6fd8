//! The types of `http` and `tonic` that requests and responses are made of, and what is taken for
//! granted of their functions.

use vstd::prelude::*;

verus! {

/// `http::Uri`: the target of a request. It is carried through unread.
#[verifier::external_type_specification]
#[verifier::external_body]
pub struct ExUri(http::Uri);

/// `http::Method`: the method of a request. It is carried through unread.
#[verifier::external_type_specification]
#[verifier::external_body]
pub struct ExMethod(http::Method);

/// `http::Version`: the HTTP version of a request or a response. It is carried through unread.
#[verifier::external_type_specification]
#[verifier::external_body]
pub struct ExVersion(http::Version);

/// `http::Extensions`: values of any type that travel with a request or a response. They are
/// carried through unread.
#[verifier::external_type_specification]
#[verifier::external_body]
pub struct ExExtensions(http::Extensions);

/// `http::HeaderValue`: the value of one header field.
#[verifier::external_type_specification]
#[verifier::external_body]
pub struct ExHeaderValue(http::HeaderValue);

/// `http::HeaderMap`: the header fields of an HTTP message.
#[verifier::external_type_specification]
#[verifier::external_body]
#[verifier::reject_recursive_types(T)]
pub struct ExHeaderMap<T>(http::HeaderMap<T>);

/// `tonic::metadata::MetadataMap`: the metadata of a gRPC message.
#[verifier::external_type_specification]
#[verifier::external_body]
pub struct ExMetadataMap(tonic::metadata::MetadataMap);

/// One value of a header field: its bytes, and whether it is marked as sensitive.
pub type Value = (Seq<u8>, bool);

/// What a header map or a metadata map holds: for each name that occurs, in lower case, the values
/// that it has, in their order. No name has an empty list of values.
pub type Fields = Map<Seq<char>, Seq<Value>>;

/// Whether `value` is one that `T::default` returns.
pub open spec fn is_default<T: Default>(value: T) -> bool {
    call_ensures(T::default, (), value)
}

/// Whether `value` is what `T::default` returns, every time.
pub open spec fn is_the_default<T: Default>(value: T) -> bool {
    &&& is_default(value)
    &&& forall|other: T| #[trigger] is_default(other) ==> other == value
}

/// What an `http::HeaderMap` holds.
pub uninterp spec fn header_fields(headers: http::HeaderMap<http::HeaderValue>) -> Map<
    Seq<char>,
    Seq<(Seq<u8>, bool)>,
>;

/// What a `tonic::metadata::MetadataMap` holds.
pub uninterp spec fn metadata_fields(metadata: tonic::metadata::MetadataMap) -> Map<
    Seq<char>,
    Seq<(Seq<u8>, bool)>,
>;

/// `http::Uri::clone` returns the same URI.
pub assume_specification[ <http::Uri as Clone>::clone ](uri: &http::Uri) -> (res: http::Uri)
    ensures
        res == *uri,
;

/// `http::Method::clone` returns the same method.
pub assume_specification[ <http::Method as Clone>::clone ](method: &http::Method) -> (res:
    http::Method)
    ensures
        res == *method,
;

/// `MetadataMap::into_headers` returns a header map that holds what the metadata map held, nothing
/// added and nothing left out.
pub assume_specification[ tonic::metadata::MetadataMap::into_headers ](
    metadata: tonic::metadata::MetadataMap,
) -> (res: http::HeaderMap<http::HeaderValue>)
    ensures
        header_fields(res) == metadata_fields(metadata),
;

/// `MetadataMap::keys_len` counts the names in the map, each once however many values it has.
pub assume_specification[ tonic::metadata::MetadataMap::keys_len ](
    metadata: &tonic::metadata::MetadataMap,
) -> (res: usize)
    ensures
        res == metadata_fields(*metadata).dom().len(),
;

} // verus!
