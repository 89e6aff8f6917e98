//! Reading and decoding a response body.

use crate::error::ForecastError;
use vstd::prelude::*;

verus! {

/// Whether `serde_json` reads the bytes `b` as one JSON document.
pub uninterp spec fn json_accepts(b: Seq<u8>) -> bool;

/// Relies on `serde_json::from_slice` into a `serde_json::Value`: it reads the
/// bytes alone, so whether it succeeds is a function of the bytes.
#[verifier::external_body]
fn parse_json(b: &[u8]) -> (r: Result<serde_json::Value, serde_json::Error>)
    ensures
        r is Ok <==> json_accepts(b@),
{
    serde_json::from_slice(b)
}

/// Decodes a complete response body: the whole document or an error, never
/// part of one.
pub fn decode(body: &[u8]) -> (r: Result<serde_json::Value, ForecastError>)
    ensures
        r is Ok <==> json_accepts(body@),
        r is Err ==> r matches Err(ForecastError::Decode(_)),
{
    match parse_json(body) {
        Ok(v) => Ok(v),
        Err(why) => Err(ForecastError::Decode(why)),
    }
}

/// What the HTTP backend reports while a body is read.
pub enum BodyEvent {
    /// The next chunk of the body.
    Chunk(Vec<u8>),
    /// Reading the body failed; the backend's description of the failure.
    Failed(String),
    /// The body has no more bytes.
    End,
    /// The caller gave up on the fetch.
    Cancelled,
}

/// What a [`BodyReader`] asks of the backend after an event.
pub enum BodyStep {
    /// Read on and report the next event.
    Pending,
    /// The fetch is over, with this outcome.
    Done(Result<serde_json::Value, ForecastError>),
    /// The fetch was abandoned: drop the connection's body.
    Released,
}

/// The bytes held after the chunks were received one by one, each appended
/// to what came before.
pub open spec fn streamed(chunks: Seq<Seq<u8>>) -> Seq<u8>
    decreases chunks.len(),
{
    if chunks.len() == 0 {
        Seq::empty()
    } else {
        streamed(chunks.drop_last()) + chunks.last()
    }
}

/// Accumulating a body chunk by chunk gives the same bytes as receiving it in
/// one buffer, and so the same decoding outcome.
pub proof fn lemma_streamed_is_single_buffer(chunks: Seq<Seq<u8>>)
    ensures
        streamed(chunks) == chunks.flatten(),
        json_accepts(streamed(chunks)) == json_accepts(chunks.flatten()),
    decreases chunks.len(),
{
    if chunks.len() > 0 {
        lemma_streamed_is_single_buffer(chunks.drop_last());
    }
    chunks.lemma_flatten_and_flatten_alt_are_equivalent();
    assert(streamed(chunks) == chunks.flatten_alt()) by {
        lemma_streamed_is_flatten_alt(chunks);
    }
}

proof fn lemma_streamed_is_flatten_alt(chunks: Seq<Seq<u8>>)
    ensures
        streamed(chunks) == chunks.flatten_alt(),
    decreases chunks.len(),
{
    if chunks.len() > 0 {
        lemma_streamed_is_flatten_alt(chunks.drop_last());
    }
}

/// Collects a response body as the backend hands it over, and decodes it
/// once it is complete.
pub struct BodyReader {
    data: Vec<u8>,
    open: bool,
}

impl BodyReader {
    /// The bytes received so far.
    pub closed spec fn received(&self) -> Seq<u8> {
        self.data@
    }

    /// Whether the reader still takes events.
    pub closed spec fn reading(&self) -> bool {
        self.open
    }

    /// A reader that has received nothing.
    pub fn new() -> (r: BodyReader)
        ensures
            r.reading(),
            r.received() == Seq::<u8>::empty(),
    {
        BodyReader { data: Vec::new(), open: true }
    }

    /// Whether the reader still takes events.
    pub fn is_reading(&self) -> (r: bool)
        ensures
            r == self.reading(),
    {
        self.open
    }

    /// Takes one event of the backend.
    ///
    /// A chunk is appended to the body. At the end the whole body is decoded.
    /// A failed read becomes [`ForecastError::Transport`]. On cancellation
    /// the partial body is dropped and nothing is decoded.
    pub fn step(&mut self, event: BodyEvent) -> (r: BodyStep)
        requires
            old(self).reading(),
        ensures
            match event {
                BodyEvent::Chunk(c) => {
                    &&& r is Pending
                    &&& final(self).reading()
                    &&& final(self).received() == old(self).received() + c@
                },
                BodyEvent::Failed(m) => {
                    &&& r matches BodyStep::Done(Err(ForecastError::Transport(e)))
                    &&& e@ == m@
                    &&& !final(self).reading()
                    &&& final(self).received() == Seq::<u8>::empty()
                },
                BodyEvent::End => {
                    &&& r matches BodyStep::Done(res)
                    &&& (res is Ok <==> json_accepts(old(self).received()))
                    &&& (res is Err ==> res matches Err(ForecastError::Decode(_)))
                    &&& !final(self).reading()
                    &&& final(self).received() == old(self).received()
                },
                BodyEvent::Cancelled => {
                    &&& r is Released
                    &&& !final(self).reading()
                    &&& final(self).received() == Seq::<u8>::empty()
                },
            },
    {
        match event {
            BodyEvent::Chunk(c) => {
                self.data.extend_from_slice(c.as_slice());
                BodyStep::Pending
            },
            BodyEvent::Failed(m) => {
                self.open = false;
                self.data = Vec::new();
                BodyStep::Done(Err(ForecastError::Transport(m)))
            },
            BodyEvent::End => {
                self.open = false;
                BodyStep::Done(decode(self.data.as_slice()))
            },
            BodyEvent::Cancelled => {
                self.open = false;
                self.data = Vec::new();
                BodyStep::Released
            },
        }
    }
}

} // verus!
