//! Forwarding the chunks of one streaming call to the client, one send at a
//! time. The session decides what is sent next, when a heartbeat is due and
//! when the stream ends; the host opens the channel, performs each send and
//! reports whether the client took it.

use vstd::prelude::*;
use crate::server::KEEP_ALIVE_SECONDS;
use crate::wire::{chunk_models, ChunkModel, CopilotStreamChunk};

verus! {

/// Why a stream has ended.
#[derive(Debug, Clone, Copy, PartialEq, Eq, Structural)]
pub enum StreamEnd {
    /// The last chunk sent marked itself as final.
    Final,
    /// The client went away: a send failed.
    Disconnected,
    /// Every chunk was sent and none was final.
    Exhausted,
}

/// One streaming call: the channel to the client is open from the start,
/// the chunks arrive when the call has settled, and they are forwarded one
/// by one.
#[derive(Debug)]
pub struct StreamSession {
    chunks: Vec<CopilotStreamChunk>,
    settled: bool,
    sent: usize,
    end: Option<StreamEnd>,
}

impl StreamSession {
    /// The chunks that the engine produced, in its order; none before the
    /// call has settled.
    pub closed spec fn planned(&self) -> Seq<ChunkModel> {
        chunk_models(self.chunks@)
    }

    /// Whether the call has settled.
    pub closed spec fn settled(&self) -> bool {
        self.settled
    }

    /// How many chunks the client has taken.
    pub closed spec fn sent(&self) -> nat {
        self.sent as nat
    }

    /// Why the stream has ended; nothing while it goes on.
    pub closed spec fn end(&self) -> Option<StreamEnd> {
        self.end
    }

    /// The chunks that the client has taken, in the order of sending.
    pub open spec fn emitted(&self) -> Seq<ChunkModel> {
        self.planned().take(self.sent() as int)
    }

    /// What holds of every session: the chunks emitted are the first of
    /// those planned; none but the last emitted can be final; and the end
    /// says truly why nothing more is sent.
    pub open spec fn wf(&self) -> bool {
        &&& self.sent() <= self.planned().len()
        &&& !self.settled() ==> self.planned().len() == 0 && (self.end() is None || self.end()
            == Some(StreamEnd::Disconnected))
        &&& forall|i: int| 0 <= i < self.sent() - 1 ==> !(#[trigger] self.planned()[i]).is_final()
        &&& match self.end() {
            None => self.settled() ==> self.sent() < self.planned().len() && (self.sent() > 0
                ==> !self.planned()[self.sent() - 1].is_final()),
            Some(StreamEnd::Final) => self.sent() > 0 && self.planned()[self.sent() - 1].is_final(),
            Some(StreamEnd::Disconnected) => self.sent() > 0 ==> !self.planned()[self.sent()
                - 1].is_final(),
            Some(StreamEnd::Exhausted) => self.sent() == self.planned().len() && (self.sent() > 0
                ==> !self.planned()[self.sent() - 1].is_final()),
        }
    }

    /// A session whose channel has just been opened: the call has not
    /// settled and nothing has been sent.
    pub fn open() -> (s: StreamSession)
        ensures
            s.wf(),
            !s.settled(),
            s.planned().len() == 0,
            s.sent() == 0,
            s.end() is None,
    {
        let s = StreamSession { chunks: Vec::new(), settled: false, sent: 0, end: None };
        assert(s.planned().len() == 0);
        s
    }

    /// Takes over the chunks of the settled call. The stream is at its end
    /// at once where there is nothing to send. A session that has settled
    /// before, or has ended, stays as it is.
    pub fn settle(&mut self, chunks: Vec<CopilotStreamChunk>)
        requires
            old(self).wf(),
        ensures
            final(self).wf(),
            final(self).sent() == old(self).sent(),
            old(self).settled() || old(self).end() is Some ==> final(self).planned() == old(self).planned() && final(self).settled() == old(self).settled() && final(self).end() == old(self).end(),
            !old(self).settled() && old(self).end() is None ==> final(self).settled() && final(self).planned() == chunk_models(chunks@) && final(self).end() == (if chunks@.len() == 0 {
                Some(StreamEnd::Exhausted)
            } else {
                None
            }),
    {
        if self.settled || self.end.is_some() {
            return ;
        }
        let none = chunks.len() == 0;
        self.chunks = chunks;
        self.settled = true;
        if none {
            self.end = Some(StreamEnd::Exhausted);
        }
    }

    /// The chunk to send next; nothing before the call has settled and once
    /// the stream has ended.
    pub fn next(&self) -> (r: Option<&CopilotStreamChunk>)
        requires
            self.wf(),
        ensures
            self.settled() && self.end() is None ==> (r matches Some(c) && c@ == self.planned()[self.sent() as int]),
            !self.settled() || self.end() is Some ==> r is None,
    {
        if self.settled && self.end.is_none() {
            Some(&self.chunks[self.sent])
        } else {
            None
        }
    }

    /// Records what became of the send of the next chunk. A send that the
    /// client did not take ends the stream. One that it took counts as
    /// emitted, and ends the stream where the chunk is final or the last.
    /// Where there is no chunk to send nothing changes.
    pub fn record(&mut self, delivered: bool)
        requires
            old(self).wf(),
        ensures
            final(self).wf(),
            final(self).planned() == old(self).planned(),
            final(self).settled() == old(self).settled(),
            !old(self).settled() || old(self).end() is Some ==> final(self).sent() == old(self).sent() && final(self).end() == old(self).end(),
            old(self).settled() && old(self).end() is None && !delivered ==> final(self).sent()
                == old(self).sent() && final(self).end() == Some(StreamEnd::Disconnected),
            old(self).settled() && old(self).end() is None && delivered ==> final(self).sent()
                == old(self).sent() + 1 && final(self).end() == (if old(self).planned()[old(self).sent() as int].is_final() {
                Some(StreamEnd::Final)
            } else if old(self).sent() + 1 == old(self).planned().len() {
                Some(StreamEnd::Exhausted)
            } else {
                None
            }),
    {
        if !self.settled || self.end.is_some() {
            return ;
        }
        if !delivered {
            self.end = Some(StreamEnd::Disconnected);
            return ;
        }
        let total = self.chunks.len();
        assert(self.planned().len() == total);
        let last = self.chunks[self.sent].is_final();
        self.sent = self.sent + 1;
        if last {
            self.end = Some(StreamEnd::Final);
        } else if self.sent == total {
            self.end = Some(StreamEnd::Exhausted);
        }
    }

    /// Records that the client went away while nothing was being sent to
    /// it: the stream ends, unless it has ended before.
    pub fn disconnected(&mut self)
        requires
            old(self).wf(),
        ensures
            final(self).wf(),
            final(self).planned() == old(self).planned(),
            final(self).settled() == old(self).settled(),
            final(self).sent() == old(self).sent(),
            final(self).end() == (if old(self).end() is None {
                Some(StreamEnd::Disconnected)
            } else {
                old(self).end()
            }),
    {
        if self.end.is_none() {
            self.end = Some(StreamEnd::Disconnected);
        }
    }

    /// Whether a heartbeat is due on a channel that has been idle for the
    /// given seconds: only while the stream goes on and no chunk has been
    /// sent, and only after the keep-alive interval.
    pub fn heartbeat_due(&self, idle_seconds: u64) -> (b: bool)
        ensures
            b == (self.end() is None && self.sent() == 0 && idle_seconds >= KEEP_ALIVE_SECONDS),
    {
        self.end.is_none() && self.sent == 0 && idle_seconds >= KEEP_ALIVE_SECONDS
    }

    /// Whether the call has settled.
    pub fn is_settled(&self) -> (b: bool)
        ensures
            b == self.settled(),
    {
        self.settled
    }

    /// How many chunks the client has taken.
    pub fn sent_count(&self) -> (n: usize)
        ensures
            n == self.sent(),
    {
        self.sent
    }

    /// Why the stream has ended; nothing while it goes on.
    pub fn ended(&self) -> (r: Option<StreamEnd>)
        ensures
            r == self.end(),
    {
        self.end
    }
}

/// No chunk is emitted after a final one: of the chunks emitted, only the
/// last can be final.
pub proof fn nothing_after_final(s: StreamSession)
    requires
        s.wf(),
    ensures
        forall|i: int| 0 <= i < s.emitted().len() - 1 ==> !(#[trigger] s.emitted()[i]).is_final(),
{
    assert forall|i: int| 0 <= i < s.emitted().len() - 1 implies !(#[trigger] s.emitted()[
        i
    ]).is_final() by {
        assert(s.emitted()[i] == s.planned()[i]);
    }
}

/// A stream that has ended has ended on a final chunk, or because the
/// client went away, or, where the engine marked no chunk as final, because
/// every chunk was sent.
pub proof fn stream_ends_properly(s: StreamSession)
    requires
        s.wf(),
        s.end() is Some,
    ensures
        s.end() == Some(StreamEnd::Final) ==> s.emitted().len() > 0 && s.emitted().last().is_final(),
        s.end() == Some(StreamEnd::Exhausted) ==> s.emitted() == s.planned() && forall|i: int|
            0 <= i < s.planned().len() ==> !(#[trigger] s.planned()[i]).is_final(),
        (exists|i: int| 0 <= i < s.planned().len() && (#[trigger] s.planned()[i]).is_final())
            ==> s.end() == Some(StreamEnd::Final) || s.end() == Some(StreamEnd::Disconnected),
{
    if s.end() == Some(StreamEnd::Exhausted) {
        assert(s.emitted() =~= s.planned());
        assert forall|i: int| 0 <= i < s.planned().len() implies !(#[trigger] s.planned()[i]).is_final() by {
            if i < s.sent() - 1 {
            } else {
                assert(i == s.sent() - 1);
            }
        }
    }
}

} // verus!
