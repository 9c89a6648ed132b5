//! Per-connection multiplexer state: the unframed byte buffer, the queue of
//! parsed frames, the table of streams with their flow-control windows, and
//! the one-shot termination outcome.

use vstd::prelude::*;
use std::collections::VecDeque;

use crate::yamux_frame::{
    StreamId, YamuxFrame, YamuxFrameParseError, YamuxFrameParseResult, YamuxSessionError,
};

verus! {

/// Default per-stream flow-control window, in bytes.
pub const DEFAULT_WINDOW: u32 = 256 * 1024;

/// Lifecycle and flow-control state of one multiplexed stream.
#[derive(Clone, Copy, Debug, PartialEq, Eq, Structural)]
pub struct YamuxStreamState {
    pub incoming: bool,
    pub syn_sent: bool,
    pub established: bool,
    pub readable: bool,
    pub writable: bool,
    pub window_theirs: u32,
    pub window_ours: u32,
}

/// The stream state every stream starts from: closed in both directions with
/// default windows.
pub open spec fn default_stream_state() -> YamuxStreamState {
    YamuxStreamState {
        incoming: false,
        syn_sent: false,
        established: false,
        readable: false,
        writable: false,
        window_theirs: DEFAULT_WINDOW,
        window_ours: DEFAULT_WINDOW,
    }
}

impl Default for YamuxStreamState {
    /// The initial stream state with default windows.
    fn default() -> (r: YamuxStreamState)
        ensures
            r == default_stream_state(),
    {
        YamuxStreamState {
            incoming: false,
            syn_sent: false,
            established: false,
            readable: false,
            writable: false,
            window_theirs: DEFAULT_WINDOW,
            window_ours: DEFAULT_WINDOW,
        }
    }
}

impl YamuxStreamState {
    /// The state of a stream opened by the remote side.
    pub fn incoming() -> (r: YamuxStreamState)
        ensures
            r == (YamuxStreamState { incoming: true, ..default_stream_state() }),
    {
        YamuxStreamState { incoming: true, ..Default::default() }
    }
}

/// True of ids the client side owns: the odd ones.
pub open spec fn id_is_client(id: StreamId) -> bool {
    id % 2 == 1
}

/// The streams table is sorted by strictly increasing stream id.
pub open spec fn streams_sorted(s: Seq<(StreamId, YamuxStreamState)>) -> bool {
    forall|i: int, j: int| 0 <= i < j < s.len() ==> s[i].0 < s[j].0
}

/// Some stream in the table has the given id.
pub open spec fn has_stream(s: Seq<(StreamId, YamuxStreamState)>, id: StreamId) -> bool {
    exists|i: int| 0 <= i < s.len() && s[i].0 == id
}

/// The last id in the table that belongs to the given side; on a sorted
/// table this is that side's largest id.
pub open spec fn last_own_stream_id(s: Seq<(StreamId, YamuxStreamState)>, client: bool) -> Option<
    StreamId,
>
    decreases s.len(),
{
    if s.len() == 0 {
        None
    } else if id_is_client(s.last().0) == client {
        Some(s.last().0)
    } else {
        last_own_stream_id(s.drop_last(), client)
    }
}

/// On a sorted table, `last_own_stream_id` is a bound for every id of the
/// side, has the side's parity, and is absent exactly when the side owns no
/// stream.
pub proof fn lemma_last_own_stream_id(s: Seq<(StreamId, YamuxStreamState)>, client: bool)
    requires
        streams_sorted(s),
    ensures
        last_own_stream_id(s, client) matches Some(m) ==> id_is_client(m) == client && has_stream(
            s,
            m,
        ) && forall|i: int|
            0 <= i < s.len() && id_is_client(s[i].0) == client ==> s[i].0 <= m,
        last_own_stream_id(s, client) is None ==> forall|i: int|
            0 <= i < s.len() ==> id_is_client(s[i].0) != client,
    decreases s.len(),
{
    if s.len() > 0 {
        let t = s.drop_last();
        assert(forall|i: int| 0 <= i < t.len() ==> t[i] == s[i]);
        assert(streams_sorted(t));
        lemma_last_own_stream_id(t, client);
        if id_is_client(s.last().0) == client {
            let m = s.last().0;
            assert(s[s.len() - 1].0 == m);
            assert forall|i: int|
                0 <= i < s.len() && id_is_client(s[i].0) == client implies s[i].0 <= m by {
                if i < s.len() - 1 {
                    assert(s[i].0 < s[s.len() - 1].0);
                }
            }
        } else {
            match last_own_stream_id(t, client) {
                Some(m) => {
                    let k = choose|i: int| 0 <= i < t.len() && t[i].0 == m;
                    assert(s[k].0 == m);
                    assert forall|i: int|
                        0 <= i < s.len() && id_is_client(s[i].0) == client implies s[i].0 <= m by {
                        assert(i < s.len() - 1);
                        assert(t[i] == s[i]);
                    }
                },
                None => {
                    assert forall|i: int| 0 <= i < s.len() implies id_is_client(s[i].0)
                        != client by {
                        if i < s.len() - 1 {
                            assert(t[i] == s[i]);
                        }
                    }
                },
            }
        }
    }
}

/// Every stream this side sent a SYN on carries an id of this side's parity.
pub open spec fn syn_parity_ok(s: Seq<(StreamId, YamuxStreamState)>, client: bool) -> bool {
    forall|i: int| 0 <= i < s.len() && s[i].1.syn_sent ==> id_is_client(s[i].0) == client
}

/// State of one multiplexed session.
#[derive(Debug)]
pub struct P2pNetworkYamuxState {
    /// Bytes read from the transport, not yet framed.
    pub buffer: Vec<u8>,
    /// Parsed frames awaiting dispatch.
    pub incoming: VecDeque<YamuxFrame>,
    /// Streams by id, sorted by strictly increasing id.
    pub streams: Vec<(StreamId, YamuxStreamState)>,
    /// Set once, on clean go-away (`Ok(Ok(()))`), peer-fatal go-away
    /// (`Ok(Err(..))`) or local framing violation (`Err(..)`).
    pub terminated: Option<Result<Result<(), YamuxSessionError>, YamuxFrameParseError>>,
    /// Whether the opening handshake frame has been processed.
    pub init: bool,
}

impl Default for P2pNetworkYamuxState {
    /// An empty, not yet initialised session.
    fn default() -> (r: P2pNetworkYamuxState)
        ensures
            r.buffer@ == Seq::<u8>::empty(),
            r.incoming@ == Seq::<YamuxFrame>::empty(),
            r.streams@ == Seq::<(StreamId, YamuxStreamState)>::empty(),
            r.terminated is None,
            !r.init,
    {
        P2pNetworkYamuxState {
            buffer: Vec::new(),
            incoming: VecDeque::new(),
            streams: Vec::new(),
            terminated: None,
            init: false,
        }
    }
}

/// The id the side would use for its next outgoing stream: its largest id
/// plus two, or the side's seed (1 for the client, 2 for the server) when it
/// owns none.
pub open spec fn spec_next_stream_id(
    s: Seq<(StreamId, YamuxStreamState)>,
    client: bool,
) -> StreamId {
    match last_own_stream_id(s, client) {
        None => if client {
            1
        } else {
            2
        },
        Some(m) => (m + 2) as StreamId,
    }
}

/// How many buffered bytes one whole frame at the front takes: the header
/// and, for a data frame, its payload.
pub open spec fn spec_frame_size(b: Seq<u8>) -> int {
    if crate::yamux_frame::header_type(b) == 0 {
        12 + crate::yamux_frame::header_value(b)
    } else {
        12
    }
}

impl P2pNetworkYamuxState {
    /// Appends bytes read from the transport to the unframed buffer.
    pub fn buffer_incoming_bytes(&mut self, mut data: Vec<u8>)
        ensures
            final(self).buffer@ == old(self).buffer@ + data@,
            final(self).incoming == old(self).incoming,
            final(self).streams == old(self).streams,
            final(self).terminated == old(self).terminated,
            final(self).init == old(self).init,
    {
        self.buffer.append(&mut data);
    }

    /// Tries to frame one buffered message: a whole frame moves from the
    /// front of the buffer to the incoming queue, a framing violation
    /// terminates the session, and a short buffer waits for more bytes.
    /// Returns whether a frame was taken, so callers can drain the buffer
    /// by repeating the step.
    pub fn process_buffer_once(&mut self) -> (took: bool)
        ensures
            old(self).terminated is Some ==> *final(self) == *old(self) && !took,
            old(self).terminated is None && crate::yamux_frame::spec_incomplete(old(self).buffer@)
                ==> *final(self) == *old(self) && !took,
            old(self).terminated is None && old(self).buffer@.len() >= 12
                && crate::yamux_frame::spec_parse_failure(old(self).buffer@) is Some ==> {
                &&& !took
                &&& final(self).terminated matches Some(Err(e)) && Some(e)
                    == crate::yamux_frame::spec_parse_failure(old(self).buffer@)
                &&& final(self).buffer == old(self).buffer
                &&& final(self).incoming == old(self).incoming
                &&& final(self).streams == old(self).streams
                &&& final(self).init == old(self).init
            },
            took ==> {
                &&& old(self).terminated is None
                &&& final(self).incoming@.len() == old(self).incoming@.len() + 1
                &&& final(self).incoming@.drop_last() == old(self).incoming@
                &&& crate::yamux_frame::parses_to(
                    old(self).buffer@,
                    final(self).incoming@.last(),
                    spec_frame_size(old(self).buffer@),
                )
                &&& final(self).buffer@ == old(self).buffer@.subrange(
                    spec_frame_size(old(self).buffer@),
                    old(self).buffer@.len() as int,
                )
                &&& final(self).streams == old(self).streams
                &&& final(self).terminated == old(self).terminated
                &&& final(self).init == old(self).init
            },
            old(self).terminated is None && !crate::yamux_frame::spec_incomplete(
                old(self).buffer@,
            ) && crate::yamux_frame::spec_parse_failure(old(self).buffer@) is None && old(
                self,
            ).buffer@.len() >= 12 ==> took,
    {
        if self.terminated.is_some() {
            return false;
        }
        match crate::yamux_frame::parse(&self.buffer) {
            YamuxFrameParseResult::Incomplete => false,
            YamuxFrameParseResult::Failed(e) => {
                self.terminated = Some(Err(e));
                false
            },
            YamuxFrameParseResult::Parsed { frame, consumed } => {
                let ghost orig = self.buffer@;
                let mut rest: Vec<u8> = Vec::new();
                let mut i: usize = consumed;
                proof {
                    assert(orig.subrange(consumed as int, consumed as int) =~= Seq::<
                        u8,
                    >::empty());
                }
                while i < self.buffer.len()
                    invariant
                        consumed <= i <= orig.len(),
                        self.buffer@ == orig,
                        rest@ == orig.subrange(consumed as int, i as int),
                    decreases orig.len() - i,
                {
                    rest.push(self.buffer[i]);
                    proof {
                        assert(rest@ =~= orig.subrange(consumed as int, i + 1 as int));
                    }
                    i = i + 1;
                }
                self.buffer = rest;
                self.incoming.push_back(frame);
                proof {
                    assert(self.incoming@.drop_last() =~= old(self).incoming@);
                    assert(consumed == spec_frame_size(orig));
                }
                true
            },
        }
    }

    /// Calculates and returns the next available stream id for outgoing
    /// communication; none once the session is terminated or before it is
    /// initialised.
    pub fn next_stream_id(&self, client: bool) -> (r: Option<StreamId>)
        requires
            last_own_stream_id(self.streams@, client) matches Some(m) ==> m + 2 <= u32::MAX,
        ensures
            r is Some <==> self.init && self.terminated is None,
            r matches Some(id) ==> id == spec_next_stream_id(self.streams@, client),
    {
        if !(self.init && self.terminated.is_none()) {
            return None;
        }
        let mut found: Option<StreamId> = None;
        let mut i: usize = 0;
        while i < self.streams.len()
            invariant
                i <= self.streams@.len(),
                last_own_stream_id(self.streams@, client) matches Some(m) ==> m + 2 <= u32::MAX,
                found == last_own_stream_id(self.streams@.subrange(0, i as int), client),
            decreases self.streams@.len() - i,
        {
            let key = self.streams[i].0;
            proof {
                assert(self.streams@.subrange(0, i + 1 as int).drop_last() =~= self.streams@
                    .subrange(0, i as int));
                assert(self.streams@.subrange(0, i + 1 as int).last() == self.streams@[i as int]);
            }
            if (key % 2 == 1) == client {
                found = Some(key);
            }
            i = i + 1;
        }
        proof {
            assert(self.streams@.subrange(0, self.streams@.len() as int) =~= self.streams@);
        }
        match found {
            None => if client {
                Some(1)
            } else {
                Some(2)
            },
            Some(m) => Some(m + 2),
        }
    }

    /// Inserts a stream under a fresh id, keeping the table sorted.
    pub fn insert_stream(&mut self, id: StreamId, st: YamuxStreamState)
        requires
            streams_sorted(old(self).streams@),
            !has_stream(old(self).streams@, id),
        ensures
            streams_sorted(final(self).streams@),
            final(self).streams@.len() == old(self).streams@.len() + 1,
            exists|k: int|
                0 <= k <= old(self).streams@.len() && final(self).streams@ == old(
                    self,
                ).streams@.subrange(0, k) + seq![(id, st)] + old(self).streams@.subrange(
                    k,
                    old(self).streams@.len() as int,
                ),
            final(self).buffer == old(self).buffer,
            final(self).incoming == old(self).incoming,
            final(self).terminated == old(self).terminated,
            final(self).init == old(self).init,
    {
        let ghost orig = self.streams@;
        let mut idx: usize = 0;
        while idx < self.streams.len() && self.streams[idx].0 < id
            invariant
                self.streams@ == orig,
                idx <= orig.len(),
                forall|i: int| 0 <= i < idx ==> orig[i].0 < id,
            decreases orig.len() - idx,
        {
            idx = idx + 1;
        }
        proof {
            assert forall|i: int| idx <= i < orig.len() implies orig[i].0 > id by {
                assert(streams_sorted(orig));
                if i > idx {
                    assert(orig[idx as int].0 < orig[i].0);
                }
                assert(orig[i].0 != id);
            }
        }
        self.streams.insert(idx, (id, st));
        proof {
            let s = self.streams@;
            assert(s == orig.subrange(0, idx as int) + seq![(id, st)] + orig.subrange(
                idx as int,
                orig.len() as int,
            ));
            assert forall|i: int, j: int| 0 <= i < j < s.len() implies s[i].0 < s[j].0 by {
                if i < idx {
                    assert(s[i] == orig[i]);
                }
                if i > idx {
                    assert(s[i] == orig[i - 1]);
                }
                if j < idx {
                    assert(s[j] == orig[j]);
                }
                if j > idx {
                    assert(s[j] == orig[j - 1]);
                }
            }
        }
    }

    /// Opens an outgoing stream: allocates the side's next id and records
    /// that a SYN is being sent on it.  Keeps the rule that only ids of this
    /// side's parity ever have `syn_sent`.
    pub fn open_outgoing_stream(&mut self, client: bool) -> (r: Option<StreamId>)
        requires
            streams_sorted(old(self).streams@),
            syn_parity_ok(old(self).streams@, client),
            last_own_stream_id(old(self).streams@, client) matches Some(m) ==> m + 2 <= u32::MAX,
        ensures
            r is Some <==> old(self).init && old(self).terminated is None,
            r is None ==> *final(self) == *old(self),
            r matches Some(id) ==> {
                &&& id == spec_next_stream_id(old(self).streams@, client)
                &&& id_is_client(id) == client
                &&& streams_sorted(final(self).streams@)
                &&& syn_parity_ok(final(self).streams@, client)
                &&& has_stream(final(self).streams@, id)
                &&& final(self).streams@.len() == old(self).streams@.len() + 1
            },
    {
        let id = match self.next_stream_id(client) {
            None => {
                return None;
            },
            Some(id) => id,
        };
        proof {
            lemma_last_own_stream_id(self.streams@, client);
            assert(!has_stream(self.streams@, id));
        }
        let st = YamuxStreamState { syn_sent: true, ..YamuxStreamState::default() };
        let ghost orig = self.streams@;
        self.insert_stream(id, st);
        proof {
            let s = self.streams@;
            let k = choose|k: int|
                0 <= k <= orig.len() && s == orig.subrange(0, k) + seq![(id, st)] + orig.subrange(
                    k,
                    orig.len() as int,
                );
            assert(s[k] == (id, st));
            assert forall|i: int| 0 <= i < s.len() && s[i].1.syn_sent implies id_is_client(s[i].0)
                == client by {
                if i < k {
                    assert(s[i] == orig[i]);
                } else if i > k {
                    assert(s[i] == orig[i - 1]);
                }
            }
        }
        Some(id)
    }

    /// Records a stream the remote side opened with a SYN.  The new stream
    /// has `syn_sent` false, so the parity rule is kept.
    pub fn accept_incoming_stream(&mut self, id: StreamId, client: bool)
        requires
            streams_sorted(old(self).streams@),
            syn_parity_ok(old(self).streams@, client),
            !has_stream(old(self).streams@, id),
        ensures
            streams_sorted(final(self).streams@),
            syn_parity_ok(final(self).streams@, client),
            has_stream(final(self).streams@, id),
            final(self).streams@.len() == old(self).streams@.len() + 1,
    {
        let st = YamuxStreamState::incoming();
        let ghost orig = self.streams@;
        self.insert_stream(id, st);
        proof {
            let s = self.streams@;
            let k = choose|k: int|
                0 <= k <= orig.len() && s == orig.subrange(0, k) + seq![(id, st)] + orig.subrange(
                    k,
                    orig.len() as int,
                );
            assert(s[k] == (id, st));
            assert forall|i: int| 0 <= i < s.len() && s[i].1.syn_sent implies id_is_client(s[i].0)
                == client by {
                if i < k {
                    assert(s[i] == orig[i]);
                } else if i > k {
                    assert(s[i] == orig[i - 1]);
                }
            }
        }
    }
}

} // verus!
