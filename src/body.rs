//! Reading a response body under a deadline, as a state machine: the caller
//! races the next chunk against the deadline and reports what happened.
use vstd::prelude::*;

verus! {

/// What the body stream did since the last step.
pub enum BodyEvent {
    /// A chunk of bytes arrived.
    Chunk(Vec<u8>),
    /// Reading the next chunk failed.
    ReadError,
    /// The stream ended.
    End,
    /// The body deadline passed before the next chunk.
    Deadline,
}

/// The bytes read so far.
pub struct BoundedBodyReader {
    body: Vec<u8>,
}

impl View for BoundedBodyReader {
    type V = Seq<u8>;

    closed spec fn view(&self) -> Seq<u8> {
        self.body@
    }
}

impl BoundedBodyReader {
    /// A reader that has read nothing.
    pub fn new() -> (r: BoundedBodyReader)
        ensures
            r@.len() == 0,
    {
        BoundedBodyReader { body: Vec::new() }
    }

    /// Takes one event. `None`: keep reading. `Some(truncated)`: stop; the
    /// body is cut short after a deadline, or after a read error once some
    /// bytes have arrived; a clean end, or an error before any byte, is not
    /// a truncation.
    pub fn step(&mut self, event: BodyEvent) -> (r: Option<bool>)
        ensures
            match event {
                BodyEvent::Chunk(bytes) => final(self)@ == old(self)@ + bytes@ && r is None,
                BodyEvent::ReadError => final(self)@ == old(self)@ && r == Some(old(self)@.len() > 0),
                BodyEvent::End => final(self)@ == old(self)@ && r == Some(false),
                BodyEvent::Deadline => final(self)@ == old(self)@ && r == Some(true),
            },
    {
        match event {
            BodyEvent::Chunk(bytes) => {
                let mut bytes = bytes;
                self.body.append(&mut bytes);
                None
            },
            BodyEvent::ReadError => Some(self.body.len() > 0),
            BodyEvent::End => Some(false),
            BodyEvent::Deadline => Some(true),
        }
    }

    /// The bytes read.
    pub fn into_body(self) -> (r: Vec<u8>)
        ensures
            r@ == self@,
    {
        self.body
    }
}

} // verus!
