//! Collecting a response body from the chunks of a response stream, and the
//! decisions of the plain (non-browser) fetchers.

use vstd::prelude::*;
use crate::redirect::{opt_text, redirect_of, response_redirect};

verus! {

#[verifier::external_type_specification]
#[verifier::external_body]
pub struct ExBytes(bytes::Bytes);

#[verifier::external_type_specification]
#[verifier::external_body]
pub struct ExBytesMut(bytes::BytesMut);

/// The bytes that a `bytes::Bytes` holds.
pub uninterp spec fn bytes_contents(b: bytes::Bytes) -> Seq<u8>;

/// The bytes that a `bytes::BytesMut` holds (its length, not its capacity).
pub uninterp spec fn bytes_mut_contents(b: bytes::BytesMut) -> Seq<u8>;

/// Calls `BytesMut::new`, which makes an empty buffer.
#[verifier::external_body]
pub(crate) fn bytes_mut_new() -> (r: bytes::BytesMut)
    ensures
        bytes_mut_contents(r) == Seq::<u8>::empty(),
{
    bytes::BytesMut::new()
}

/// Calls `BufMut::put` on a `BytesMut` with a `Bytes` source: the bytes of
/// the source are appended after those already held.
#[verifier::external_body]
pub(crate) fn bytes_mut_put(buf: &mut bytes::BytesMut, chunk: bytes::Bytes)
    ensures
        bytes_mut_contents(*final(buf)) == bytes_mut_contents(*old(buf)) + bytes_contents(chunk),
{
    bytes::BufMut::put(buf, chunk)
}

/// Calls `BytesMut::capacity`.  The capacity is what the allocator gave; all
/// that is stated is that it covers the bytes held.
#[verifier::external_body]
pub(crate) fn bytes_mut_capacity(buf: &bytes::BytesMut) -> (r: usize)
    ensures
        r >= bytes_mut_contents(*buf).len(),
{
    buf.capacity()
}

/// Calls `BytesMut::clear`, which removes all the bytes held.
#[verifier::external_body]
pub(crate) fn bytes_mut_clear(buf: &mut bytes::BytesMut)
    ensures
        bytes_mut_contents(*final(buf)) == Seq::<u8>::empty(),
{
    buf.clear()
}

/// Dereferences a `BytesMut` to the slice of the bytes it holds.
#[verifier::external_body]
pub(crate) fn bytes_mut_as_slice(buf: &bytes::BytesMut) -> (r: &[u8])
    ensures
        r@ == bytes_mut_contents(*buf),
{
    &buf[..]
}

/// Calls `BytesMut::freeze`, which turns the buffer into a `Bytes` holding
/// the same bytes.
#[verifier::external_body]
pub(crate) fn bytes_mut_freeze(buf: bytes::BytesMut) -> (r: bytes::Bytes)
    ensures
        bytes_contents(r) == bytes_mut_contents(buf),
{
    buf.freeze()
}

/// Calls `Bytes::from(Vec<u8>)`, which takes over the vector's bytes.
#[verifier::external_body]
pub(crate) fn bytes_from_vec(v: Vec<u8>) -> (r: bytes::Bytes)
    ensures
        bytes_contents(r) == v@,
{
    bytes::Bytes::from(v)
}

/// Dereferences a `Bytes` to the slice of the bytes it holds.
#[verifier::external_body]
pub(crate) fn bytes_as_slice(b: &bytes::Bytes) -> (r: &[u8])
    ensures
        r@ == bytes_contents(*b),
{
    &b[..]
}

/// The bytes that one item of a response stream contributes: a chunk that
/// arrived contributes its bytes, a failed read contributes nothing.
pub open spec fn item_bytes(item: Option<bytes::Bytes>) -> Seq<u8> {
    match item {
        Some(chunk) => bytes_contents(chunk),
        None => Seq::empty(),
    }
}

/// A chunk that arrived adds exactly its bytes; a failed read adds none.
pub proof fn lemma_item_bytes(chunk: bytes::Bytes)
    ensures
        item_bytes(Some(chunk)) == bytes_contents(chunk),
        item_bytes(None).len() == 0,
{
}

/// A response body being collected in memory from a stream of chunks.
pub struct PageBody {
    data: bytes::BytesMut,
}

impl PageBody {
    /// The bytes collected so far.
    pub closed spec fn contents(&self) -> Seq<u8> {
        bytes_mut_contents(self.data)
    }

    /// An empty body.
    pub fn new() -> (r: PageBody)
        ensures
            r.contents() == Seq::<u8>::empty(),
    {
        PageBody { data: bytes_mut_new() }
    }

    /// Takes the next item of the response stream: a chunk that arrived
    /// (`Some`) is appended, a failed read (`None`) is skipped.
    pub fn accept(&mut self, item: Option<bytes::Bytes>)
        ensures
            final(self).contents() == old(self).contents() + item_bytes(item),
    {
        match item {
            Some(chunk) => bytes_mut_put(&mut self.data, chunk),
            None => {
                assert(old(self).contents() + item_bytes(item) =~= old(self).contents());
            },
        }
    }

    /// The collected body.
    pub fn into_bytes(self) -> (r: bytes::Bytes)
        ensures
            bytes_contents(r) == self.contents(),
    {
        bytes_mut_freeze(self.data)
    }
}

/// How a request ended before its body was read.
pub enum ResponseOutcome {
    /// The request could not be sent or no response came.
    SendFailed,
    /// A response came with a status that is not a success.
    Unsuccessful,
    /// A response came with a success status; `final_url` is the url it was
    /// finally served from, after redirects.
    Success { final_url: String },
}

/// The message logged when a page request fails while fetching html.
pub const HTML_REQUEST_FAILED: &'static str = "- error parsing html text {}";

/// The message logged when a page request fails while fetching bytes.
pub const BYTES_REQUEST_FAILED: &'static str = "- error parsing html bytes {}";

/// The message logged when the body of a successful response cannot be read.
pub const BODY_READ_FAILED: &'static str = "- error fetching {}";

/// What the streaming fetcher does once the request ended.
pub enum StreamStep {
    /// Read the body stream; the page came from `redirect` when that is set.
    Stream { redirect: Option<String> },
    /// Return no body and no redirect.
    Empty,
    /// Log `HTML_REQUEST_FAILED` with the url, then return no body and no
    /// redirect.
    LogAndEmpty,
}

/// The decision of the streaming fetcher on how its request ended.
pub fn fetch_page_html_raw_step(target_url: &str, outcome: &ResponseOutcome) -> (r: StreamStep)
    ensures
        match outcome {
            ResponseOutcome::SendFailed => r is LogAndEmpty,
            ResponseOutcome::Unsuccessful => r is Empty,
            ResponseOutcome::Success { final_url } => match r {
                StreamStep::Stream { redirect } => opt_text(redirect) == redirect_of(
                    target_url@,
                    final_url@,
                ),
                _ => false,
            },
        },
{
    match outcome {
        ResponseOutcome::SendFailed => StreamStep::LogAndEmpty,
        ResponseOutcome::Unsuccessful => StreamStep::Empty,
        ResponseOutcome::Success { final_url } => StreamStep::Stream {
            redirect: response_redirect(target_url, final_url.as_str()),
        },
    }
}

/// What the whole-body fetcher does once the request ended.
pub enum BodyStep {
    /// Read the whole body.
    ReadBody,
    /// Return nothing.
    Nothing,
    /// Log `BYTES_REQUEST_FAILED` with the url, then return nothing.
    LogAndNothing,
}

/// The decision of the whole-body fetcher on how its request ended.
pub fn fetch_page_step(outcome: &ResponseOutcome) -> (r: BodyStep)
    ensures
        outcome is SendFailed ==> r is LogAndNothing,
        outcome is Unsuccessful ==> r is Nothing,
        outcome is Success ==> r is ReadBody,
{
    match outcome {
        ResponseOutcome::SendFailed => BodyStep::LogAndNothing,
        ResponseOutcome::Unsuccessful => BodyStep::Nothing,
        ResponseOutcome::Success { .. } => BodyStep::ReadBody,
    }
}

/// The result of the whole-body fetcher once the body was read (`Some`) or
/// its read failed (`None`), with whether `BODY_READ_FAILED` is to be logged.
pub fn fetch_page_finish(body: Option<bytes::Bytes>) -> (r: (Option<bytes::Bytes>, bool))
    ensures
        r.0 == body,
        r.1 == body is None,
{
    let failed: bool = body.is_none();
    (body, failed)
}

} // verus!
