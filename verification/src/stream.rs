//! The body of a file response, chunk by chunk.
//!
//! A driver pulls: `next` says whether to read the file, what to send, or that the body
//! has ended, and `file_gave` takes what a read returned. The chunks come out in the
//! order in which the file gave them, the trailer comes once and after all of them, and
//! nothing is kept of the file beyond the chunk in hand.

use vstd::prelude::*;
use vstd::string::*;
use vstd::utf8::*;
use crate::response::{Body, StreamedBody};

verus! {

/// The most that is read from the file at once.
pub const CHUNK_SIZE: usize = 8192;

/// How far a body has come.
#[derive(Clone, Copy, Debug, PartialEq, Eq, Structural)]
pub enum Phase {
    /// The file has not ended yet.
    File,
    /// The file has ended and the trailer is still to be sent.
    Trailer,
    /// Everything has been handed out.
    Ended,
}

/// What the driver is to do next.
#[derive(Debug, PartialEq, Eq)]
pub enum Pull {
    /// Read from the file, at most so many bytes, and report what came with `file_gave`.
    ReadFile { at_most: usize },
    /// Send these bytes.
    Send(Vec<u8>),
    /// The body has ended.
    End,
}

/// A streamed body in the course of being sent.
pub struct BodyStream {
    trailer: Vec<u8>,
    phase: Phase,
    read: Ghost<Seq<u8>>,
}

impl BodyStream {
    /// The bytes that are sent after the file.
    pub closed spec fn trailer(self) -> Seq<u8> {
        self.trailer@
    }

    /// How far the body has come.
    pub closed spec fn phase(self) -> Phase {
        self.phase
    }

    /// The bytes that the file has given so far, in order.
    pub closed spec fn read(self) -> Seq<u8> {
        self.read@
    }

    /// The bytes that were handed out for sending so far, in order.
    pub closed spec fn sent(self) -> Seq<u8> {
        if self.phase == Phase::Ended {
            self.read@ + self.trailer@
        } else {
            self.read@
        }
    }

    /// Begins the streaming of a body: nothing is read and nothing is sent yet.
    pub fn new(body: &StreamedBody) -> (s: BodyStream)
        ensures
            s.trailer() == encode_utf8(body.trailer@),
            s.phase() == Phase::File,
            s.read() == Seq::<u8>::empty(),
            s.sent() == Seq::<u8>::empty(),
    {
        BodyStream {
            trailer: body.trailer.as_str().as_bytes_vec(),
            phase: Phase::File,
            read: Ghost(Seq::empty()),
        }
    }

    /// Says what to do next.
    ///
    /// While the file has not ended, that is to read it. Once it has, the trailer is
    /// handed out, once and whole, unless it is empty; after that the body has ended
    /// and stays so.
    pub fn next(&mut self) -> (p: Pull)
        ensures
            final(self).trailer() == old(self).trailer(),
            final(self).read() == old(self).read(),
            p is End ==> final(self).phase() == Phase::Ended,
            match old(self).phase() {
                Phase::File => {
                    &&& p == (Pull::ReadFile { at_most: CHUNK_SIZE })
                    &&& final(self).phase() == Phase::File
                    &&& final(self).sent() == old(self).sent()
                },
                Phase::Trailer => {
                    &&& final(self).phase() == Phase::Ended
                    &&& final(self).sent() == old(self).sent() + old(self).trailer()
                    &&& old(self).trailer().len() == 0 ==> p == Pull::End
                    &&& old(self).trailer().len() > 0 ==> p is Send && p->Send_0@ == old(
                        self,
                    ).trailer()
                },
                Phase::Ended => {
                    &&& p == Pull::End
                    &&& final(self).phase() == Phase::Ended
                    &&& final(self).sent() == old(self).sent()
                },
            },
            final(self).phase() == Phase::Ended ==> final(self).sent() == final(self).read()
                + final(self).trailer(),
            final(self).phase() != Phase::Ended ==> final(self).sent() == final(self).read(),
    {
        match self.phase {
            Phase::File => Pull::ReadFile { at_most: CHUNK_SIZE },
            Phase::Trailer => {
                self.phase = Phase::Ended;
                if self.trailer.len() == 0 {
                    Pull::End
                } else {
                    Pull::Send(self.trailer.clone())
                }
            },
            Phase::Ended => Pull::End,
        }
    }

    /// Takes what a read of the file returned, and hands it back for sending.
    ///
    /// An empty chunk says that the file has ended: nothing is to be sent for it. Once
    /// the file has ended, further chunks are dropped.
    pub fn file_gave(&mut self, chunk: Vec<u8>) -> (r: Option<Vec<u8>>)
        ensures
            final(self).trailer() == old(self).trailer(),
            old(self).phase() == Phase::File && chunk@.len() > 0 ==> {
                &&& r == Some(chunk)
                &&& final(self).phase() == Phase::File
                &&& final(self).read() == old(self).read() + chunk@
                &&& final(self).sent() == old(self).sent() + chunk@
            },
            old(self).phase() == Phase::File && chunk@.len() == 0 ==> {
                &&& r is None
                &&& final(self).phase() == Phase::Trailer
                &&& final(self).read() == old(self).read()
                &&& final(self).sent() == old(self).sent()
            },
            old(self).phase() != Phase::File ==> {
                &&& r is None
                &&& final(self).phase() == old(self).phase()
                &&& final(self).read() == old(self).read()
                &&& final(self).sent() == old(self).sent()
            },
            final(self).phase() == Phase::Ended ==> final(self).sent() == final(self).read()
                + final(self).trailer(),
            final(self).phase() != Phase::Ended ==> final(self).sent() == final(self).read(),
    {
        match self.phase {
            Phase::File => {
                if chunk.len() == 0 {
                    self.phase = Phase::Trailer;
                    None
                } else {
                    proof {
                        self.read@ = self.read@ + chunk@;
                    }
                    Some(chunk)
                }
            },
            _ => None,
        }
    }
}

/// A body that has ended has sent what the file gave, in order, and the trailer after
/// it. Where the file gave as many bytes as its length had said, that is exactly the
/// number of bytes that the response announced as its content length.
pub proof fn lemma_ended_body_is_complete(stream: BodyStream, body: StreamedBody)
    requires
        stream.trailer() == encode_utf8(body.trailer@),
        stream.phase() == Phase::Ended,
    ensures
        stream.sent() == stream.read() + encode_utf8(body.trailer@),
        stream.read().len() == body.file_len ==> stream.sent().len() == Body::File(
            body,
        )@.byte_len(),
{
}

} // verus!
