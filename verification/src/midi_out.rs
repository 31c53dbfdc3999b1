//! MIDI an Audio Unit emits: walking its packet lists, splitting each packet's
//! byte stream into messages, and batching what was found.
use vstd::prelude::*;
use crate::bytes::{read_u16, read_u32, read_u64, u16_of, u32_at, u64_at};
use crate::error::{outcome, status_outcome, AuError};
use crate::ffi::check;
use crate::types::NO_ERR;

verus! {

/// Bytes of a packet before its payload: an eight-byte time stamp and a
/// two-byte length.
pub const PACKET_HEADER_SIZE: usize = 10;

/// Where the packet's time stamp stands.
pub const PACKET_TIME_STAMP_OFFSET: usize = 0;

/// Where the packet's length stands.
pub const PACKET_LENGTH_OFFSET: usize = 8;

/// Where the list's packet count stands.
pub const PACKET_LIST_COUNT_OFFSET: usize = 0;

/// Where the first packet of a list begins, right after the count.
pub const PACKET_LIST_PACKETS_OFFSET: usize = 4;

/// What the framework's packet type occupies, with its full payload array and
/// two bytes of padding.
pub const PACKET_SIZE: usize = 268;

/// The largest payload a packet may legally declare. The framework declares the
/// payload as an array of this length; a larger claim is not honoured.
pub const MAX_PACKET_PAYLOAD: u16 = 256;

/// How many messages are gathered before a batch is handed on. A longer list is
/// delivered in several batches, never truncated.
pub const DECODE_BATCH: usize = 64;

// ---------------------------------------------------------------------------
// The vocabulary of MIDI bytes
// ---------------------------------------------------------------------------
/// Whether `b` is a system real-time byte, which may stand anywhere in the
/// stream without disturbing what surrounds it.
pub open spec fn is_real_time(b: u8) -> bool {
    b >= 0xF8
}

/// Whether `b` is a system common status, which cancels running status.
pub open spec fn is_system_common(b: u8) -> bool {
    0xF0 <= b < 0xF8
}

/// Whether `b` is a channel-voice status, which stays in effect as the running
/// status.
pub open spec fn is_channel_voice(b: u8) -> bool {
    0x80 <= b < 0xF0
}

/// How many data bytes follow the status byte `status`, or `None` for a byte
/// that introduces no message delivered here: system exclusive, the undefined
/// system common bytes, and data bytes.
pub open spec fn data_bytes_of(status: u8) -> Option<nat> {
    if 0xC0 <= status < 0xE0 {
        Some(1)
    } else if 0x80 <= status < 0xF0 {
        Some(2)
    } else if status == 0xF1 || status == 0xF3 {
        Some(1)
    } else if status == 0xF2 {
        Some(2)
    } else if status == 0xF6 || status >= 0xF8 {
        Some(0)
    } else {
        None
    }
}

/// Whether `m` is one complete message: a status byte and exactly the data
/// bytes that it calls for.
pub open spec fn is_message(m: Seq<u8>) -> bool {
    &&& m.len() > 0
    &&& data_bytes_of(m[0]) == Some((m.len() - 1) as nat)
    &&& forall|i: int| 1 <= i < m.len() ==> #[trigger] m[i] < 0x80
}

/// Where the reading of a byte stream stands between two bytes.
pub ghost struct SplitState {
    /// The status that a data byte without one of its own belongs to.
    pub running: Option<u8>,
    /// The message that is being read: empty, or a status byte and some, not
    /// all, of its data bytes.
    pub partial: Seq<u8>,
}

impl SplitState {
    /// The state at the start of every packet.
    pub open spec fn start() -> SplitState {
        SplitState { running: None, partial: Seq::empty() }
    }

    /// What holds of every state that reading can reach.
    pub open spec fn wf(self) -> bool {
        &&& self.running matches Some(s) ==> is_channel_voice(s)
        &&& self.partial.len() > 0 ==> {
            &&& 0x80 <= self.partial[0] < 0xF8
            &&& data_bytes_of(self.partial[0]) matches Some(n) && self.partial.len() <= n
            &&& forall|i: int| 1 <= i < self.partial.len() ==> #[trigger] self.partial[i] < 0x80
        }
    }

    /// The state after the byte `b`, and the message that `b` completes.
    ///
    /// A real-time byte is a message by itself and leaves the state alone. Any
    /// other status byte abandons an unfinished message and begins its own. A
    /// data byte continues the unfinished message, or begins one under the
    /// running status, or belongs to nothing and is passed over.
    pub open spec fn step(self, b: u8) -> (SplitState, Option<Seq<u8>>) {
        if is_real_time(b) {
            (self, Some(seq![b]))
        } else if b >= 0x80 {
            let running = if is_channel_voice(b) {
                Some(b)
            } else {
                None
            };
            match data_bytes_of(b) {
                None => (SplitState { running, partial: Seq::empty() }, None),
                Some(n) => if n == 0 {
                    (SplitState { running, partial: Seq::empty() }, Some(seq![b]))
                } else {
                    (SplitState { running, partial: seq![b] }, None)
                },
            }
        } else if self.partial.len() > 0 {
            self.with_data(self.partial.push(b))
        } else if self.running is Some {
            self.with_data(seq![self.running->0, b])
        } else {
            (self, None)
        }
    }

    /// The state once the bytes of the message being read are `read`.
    pub open spec fn with_data(self, read: Seq<u8>) -> (SplitState, Option<Seq<u8>>) {
        if is_message(read) {
            (SplitState { running: self.running, partial: Seq::empty() }, Some(read))
        } else {
            (SplitState { running: self.running, partial: read }, None)
        }
    }

    /// The state after all of `bytes`, and the messages completed on the way.
    pub open spec fn scan(self, bytes: Seq<u8>) -> (SplitState, Seq<Seq<u8>>)
        decreases bytes.len(),
    {
        if bytes.len() == 0 {
            (self, Seq::empty())
        } else {
            let (before, found) = self.scan(bytes.drop_last());
            let (after, message) = before.step(bytes.last());
            match message {
                Some(m) => (after, found.push(m)),
                None => (after, found),
            }
        }
    }
}

/// The messages in one packet's bytes.
pub open spec fn messages_in(bytes: Seq<u8>) -> Seq<Seq<u8>> {
    SplitState::start().scan(bytes).1
}

// ---------------------------------------------------------------------------
// Laws of the split
// ---------------------------------------------------------------------------
/// Reading two stretches of bytes one after the other is reading them joined.
pub proof fn scan_concat(s: SplitState, a: Seq<u8>, b: Seq<u8>)
    ensures
        s.scan(a + b).0 == s.scan(a).0.scan(b).0,
        s.scan(a + b).1 == s.scan(a).1 + s.scan(a).0.scan(b).1,
    decreases b.len(),
{
    if b.len() == 0 {
        assert(a + b =~= a);
    } else {
        scan_concat(s, a, b.drop_last());
        assert((a + b).drop_last() =~= a + b.drop_last());
        assert((a + b).last() == b.last());
    }
}

/// Reading a single byte is one step.
proof fn scan_one(s: SplitState, b: u8)
    ensures
        s.scan(seq![b]).0 == s.step(b).0,
        s.scan(seq![b]).1 == (match s.step(b).1 {
            Some(m) => seq![m],
            None => Seq::<Seq<u8>>::empty(),
        }),
{
    reveal_with_fuel(SplitState::scan, 2);
    assert(seq![b].drop_last() =~= Seq::empty());
    assert(seq![b].last() == b);
}

/// One byte keeps the state well formed, and completes only a whole message.
proof fn step_wf(s: SplitState, b: u8)
    requires
        s.wf(),
    ensures
        s.step(b).0.wf(),
        s.step(b).1 matches Some(m) ==> is_message(m),
{
    if b < 0x80 {
        if s.partial.len() > 0 {
            let read = s.partial.push(b);
            assert(read[0] == s.partial[0]);
            assert forall|i: int| 1 <= i < read.len() implies #[trigger] read[i] < 0x80 by {
                if i < s.partial.len() {
                    assert(read[i] == s.partial[i]);
                }
            }
        } else if s.running is Some {
            let read = seq![s.running->0, b];
            assert(read[0] == s.running->0);
        }
    }
}

/// Every message that comes out of a packet is complete: a status byte and
/// exactly its data bytes, none of which is a status byte.
pub proof fn every_message_is_complete(s: SplitState, bytes: Seq<u8>)
    requires
        s.wf(),
    ensures
        s.scan(bytes).0.wf(),
        forall|i: int| 0 <= i < s.scan(bytes).1.len() ==> is_message(#[trigger] s.scan(bytes).1[i]),
    decreases bytes.len(),
{
    if bytes.len() > 0 {
        every_message_is_complete(s, bytes.drop_last());
        step_wf(s.scan(bytes.drop_last()).0, bytes.last());
    }
}

/// Real-time bytes are transparent: without them the stream holds the same
/// other messages and leaves the reader in the same state, and each of them is
/// delivered as a message of its own, in order.
pub proof fn real_time_bytes_are_transparent(s: SplitState, bytes: Seq<u8>)
    requires
        s.wf(),
    ensures
        ({
            let stripped = bytes.filter(|b: u8| !is_real_time(b));
            let pulses = bytes.filter(|b: u8| is_real_time(b));
            &&& s.scan(stripped).0 == s.scan(bytes).0
            &&& s.scan(stripped).1 == s.scan(bytes).1.filter(|m: Seq<u8>| !is_real_time(m[0]))
            &&& s.scan(bytes).1.filter(|m: Seq<u8>| is_real_time(m[0])) == pulses.map_values(
                |b: u8| seq![b],
            )
        }),
    decreases bytes.len(),
{
    reveal(Seq::filter);
    if bytes.len() > 0 {
        let front = bytes.drop_last();
        let b = bytes.last();
        real_time_bytes_are_transparent(s, front);
        every_message_is_complete(s, front);
        step_wf(s.scan(front).0, b);
        let other = |m: Seq<u8>| !is_real_time(m[0]);
        let pulse = |m: Seq<u8>| is_real_time(m[0]);
        let as_message = |b: u8| seq![b];
        let stripped = front.filter(|b: u8| !is_real_time(b));
        let pulses = front.filter(|b: u8| is_real_time(b));
        let found = s.scan(front).1;
        let (_, message) = s.scan(front).0.step(b);
        if message is Some {
            let all = found.push(message->0);
            assert(all.drop_last() =~= found);
            assert(is_real_time(message->0[0]) == is_real_time(b)) by {
                step_starts(s.scan(front).0, b);
            }
        }
        if is_real_time(b) {
            assert(pulses.push(b).map_values(as_message) =~= pulses.map_values(as_message).push(
                seq![b],
            ));
        } else {
            assert(stripped.push(b).drop_last() =~= stripped);
        }
    } else {
        assert(Seq::<u8>::empty().map_values(|b: u8| seq![b]) =~= Seq::<Seq<u8>>::empty());
    }
}

/// What a byte completes begins with a real-time byte only where the byte
/// itself is one.
proof fn step_starts(s: SplitState, b: u8)
    requires
        s.wf(),
    ensures
        s.step(b).1 matches Some(m) ==> is_real_time(m[0]) == is_real_time(b),
{
    if b < 0x80 && s.partial.len() > 0 {
        assert(s.partial.push(b)[0] == s.partial[0]);
    }
}

/// Part of a message, read from any state, completes nothing, and is all that
/// the reader holds.
pub proof fn a_truncated_message_is_dropped(s: SplitState, m: Seq<u8>, n: int)
    requires
        is_message(m),
        !is_real_time(m[0]),
        1 <= n < m.len(),
    ensures
        s.scan(m.take(n)).1 == Seq::<Seq<u8>>::empty(),
        s.scan(m.take(n)).0.partial == m.take(n),
    decreases n,
{
    let part = m.take(n);
    if n == 1 {
        assert(part =~= seq![m[0]]);
        scan_one(s, m[0]);
    } else {
        a_truncated_message_is_dropped(s, m, n - 1);
        assert(part.drop_last() =~= m.take(n - 1));
        assert(m.take(n - 1).push(m[n - 1]) =~= part);
        assert(part[0] == m[0]);
    }
}

/// A whole message is read as itself, whatever stood before it.
pub proof fn a_message_is_read_whole(s: SplitState, m: Seq<u8>)
    requires
        is_message(m),
    ensures
        s.scan(m).1 == seq![m],
        !is_real_time(m[0]) ==> s.scan(m).0.partial.len() == 0,
        !is_real_time(m[0]) ==> s.scan(m).0.running == (if is_channel_voice(m[0]) {
            Some(m[0])
        } else {
            None::<u8>
        }),
    decreases m.len(),
{
    if m.len() == 1 {
        assert(m =~= seq![m[0]]);
        scan_one(s, m[0]);
    } else {
        let n = m.len() - 1;
        a_truncated_message_is_dropped(s, m, n);
        running_after_part(s, m, n);
        assert(m.drop_last() =~= m.take(n));
        assert(m.take(n).push(m[n]) =~= m);
    }
}

/// The running status while a message is being read is that message's own.
proof fn running_after_part(s: SplitState, m: Seq<u8>, n: int)
    requires
        is_message(m),
        !is_real_time(m[0]),
        1 <= n < m.len(),
    ensures
        s.scan(m.take(n)).0.running == (if is_channel_voice(m[0]) {
            Some(m[0])
        } else {
            None::<u8>
        }),
    decreases n,
{
    let part = m.take(n);
    if n == 1 {
        assert(part =~= seq![m[0]]);
        scan_one(s, m[0]);
    } else {
        running_after_part(s, m, n - 1);
        a_truncated_message_is_dropped(s, m, n - 1);
        assert(part.drop_last() =~= m.take(n - 1));
    }
}

/// The bytes of several messages, one after the other.
pub open spec fn joined(messages: Seq<Seq<u8>>) -> Seq<u8>
    decreases messages.len(),
{
    if messages.len() == 0 {
        Seq::empty()
    } else {
        joined(messages.drop_last()) + messages.last()
    }
}

/// Splitting undoes joining: a packet made of whole messages gives back those
/// messages, all of them, in order.
pub proof fn splitting_undoes_joining(s: SplitState, messages: Seq<Seq<u8>>)
    requires
        forall|i: int| 0 <= i < messages.len() ==> is_message(#[trigger] messages[i]),
    ensures
        s.scan(joined(messages)).1 == messages,
    decreases messages.len(),
{
    if messages.len() > 0 {
        let front = messages.drop_last();
        splitting_undoes_joining(s, front);
        scan_concat(s, joined(front), messages.last());
        a_message_is_read_whole(s.scan(joined(front)).0, messages.last());
        assert(front + seq![messages.last()] =~= messages);
    }
}

/// Running status: after a channel-voice message, one with the same status
/// reads the same whether it repeats the status byte or leaves it out.
pub proof fn running_status_repeats_the_status(s: SplitState, m: Seq<u8>, next: Seq<u8>)
    requires
        is_message(m),
        is_message(next),
        is_channel_voice(m[0]),
        next[0] == m[0],
    ensures
        s.scan(m + next.skip(1)) == s.scan(m + next),
        s.scan(m + next.skip(1)).1 == seq![m, next],
{
    let mid = s.scan(m).0;
    scan_concat(s, m, next);
    scan_concat(s, m, next.skip(1));
    a_message_is_read_whole(s, m);
    a_message_is_read_whole(mid, next);
    let data = next.skip(1);
    if next.len() == 2 {
        assert(data =~= seq![next[1]]);
        scan_one(mid, next[1]);
        assert(seq![m[0], next[1]] =~= next);
    } else {
        assert(data =~= seq![next[1]] + seq![next[2]]);
        scan_concat(mid, seq![next[1]], seq![next[2]]);
        scan_one(mid, next[1]);
        scan_one(mid.step(next[1]).0, next[2]);
        assert(seq![m[0], next[1]].push(next[2]) =~= next);
        assert(seq![m[0], next[1]][0] == m[0]);
    }
    assert(mid.scan(data).1 =~= seq![next]);
    assert(seq![m] + seq![next] =~= seq![m, next]);
}

/// Data bytes that follow no status produce nothing.
pub proof fn data_without_status_is_dropped(s: SplitState, data: Seq<u8>)
    requires
        s.running is None,
        s.partial.len() == 0,
        forall|i: int| 0 <= i < data.len() ==> #[trigger] data[i] < 0x80,
    ensures
        s.scan(data) == (s, Seq::<Seq<u8>>::empty()),
    decreases data.len(),
{
    if data.len() > 0 {
        data_without_status_is_dropped(s, data.drop_last());
    }
}

/// A system common byte cancels running status wherever it stands, so the data
/// bytes of a system exclusive message are attributed to nothing.
pub proof fn system_common_cancels_running_status(s: SplitState, b: u8, data: Seq<u8>)
    requires
        is_system_common(b),
        forall|i: int| 0 <= i < data.len() ==> #[trigger] data[i] < 0x80,
    ensures
        s.scan(seq![b]).0.running is None,
        data_bytes_of(b) is None ==> s.scan(seq![b] + data).1 == Seq::<Seq<u8>>::empty(),
{
    scan_one(s, b);
    if data_bytes_of(b) is None {
        scan_concat(s, seq![b], data);
        data_without_status_is_dropped(s.scan(seq![b]).0, data);
    }
}

// ---------------------------------------------------------------------------
// Splitting a packet
// ---------------------------------------------------------------------------
/// The executable form of [`data_bytes_of`].
pub fn data_len(status: u8) -> (n: Option<usize>)
    ensures
        n == (match data_bytes_of(status) {
            Some(k) => Some(k as usize),
            None => None,
        }),
{
    if 0xC0 <= status && status < 0xE0 {
        Some(1)
    } else if 0x80 <= status && status < 0xF0 {
        Some(2)
    } else if status == 0xF1 || status == 0xF3 {
        Some(1)
    } else if status == 0xF2 {
        Some(2)
    } else if status == 0xF6 || status >= 0xF8 {
        Some(0)
    } else {
        None
    }
}

/// A message of one to three bytes, held in place so that none of the render
/// thread's work allocates.
#[derive(Clone, Copy, Debug, PartialEq, Eq, Structural)]
pub struct ShortMessage {
    status: u8,
    data1: u8,
    data2: u8,
    data_len: u8,
}

impl ShortMessage {
    /// The bytes of the message.
    pub closed spec fn view(&self) -> Seq<u8> {
        seq![self.status, self.data1, self.data2].take(1 + self.data_len)
    }

    #[verifier::type_invariant]
    closed spec fn inv(&self) -> bool {
        self.data_len <= 2
    }

    /// The number of bytes, one to three.
    pub fn len(&self) -> (n: usize)
        ensures
            n == self.view().len(),
            1 <= n <= 3,
    {
        proof {
            use_type_invariant(self);
        }
        1 + self.data_len as usize
    }

    /// The byte at `at`.
    pub fn byte(&self, at: usize) -> (b: u8)
        requires
            at < self.view().len(),
        ensures
            b == self.view()[at as int],
    {
        proof {
            use_type_invariant(self);
        }
        if at == 0 {
            self.status
        } else if at == 1 {
            self.data1
        } else {
            self.data2
        }
    }

    /// The bytes of the message as a vector.
    pub fn to_vec(&self) -> (bytes: Vec<u8>)
        ensures
            bytes@ == self.view(),
    {
        let n: usize = self.len();
        let mut bytes: Vec<u8> = Vec::new();
        for i in 0..n
            invariant
                n == self.view().len(),
                bytes@ == self.view().take(i as int),
        {
            let b: u8 = self.byte(i);
            bytes.push(b);
            assert(self.view().take(i + 1) =~= self.view().take(i as int).push(b));
        }
        assert(self.view().take(n as int) =~= self.view());
        bytes
    }
}

/// Reads one packet's bytes, one at a time.
pub struct MidiSplitter {
    running: Option<u8>,
    head: u8,
    first: u8,
    held: u8,
}

impl MidiSplitter {
    /// Where the reading stands.
    pub closed spec fn view(&self) -> SplitState {
        SplitState {
            running: self.running,
            partial: seq![self.head, self.first].take(self.held as int),
        }
    }

    /// What holds of every splitter.
    pub closed spec fn inv(&self) -> bool {
        self.held <= 2 && self.view().wf()
    }

    /// A splitter at the start of a packet.
    pub fn new() -> (s: MidiSplitter)
        ensures
            s.inv(),
            s.view() == SplitState::start(),
    {
        let s = MidiSplitter { running: None, head: 0, first: 0, held: 0 };
        assert(s.view().partial =~= Seq::empty());
        s
    }

    /// Takes the next byte of the packet and returns the message it completes.
    pub fn push(&mut self, b: u8) -> (message: Option<ShortMessage>)
        requires
            old(self).inv(),
        ensures
            final(self).inv(),
            final(self).view() == old(self).view().step(b).0,
            message is Some == old(self).view().step(b).1 is Some,
            message matches Some(m) ==> m.view() == old(self).view().step(b).1->0,
    {
        let ghost before = self.view();
        proof {
            step_wf(before, b);
        }
        if b >= 0xF8 {
            let m = ShortMessage { status: b, data1: 0, data2: 0, data_len: 0 };
            assert(m.view() =~= seq![b]);
            return Some(m);
        }
        if b >= 0x80 {
            self.running = if b < 0xF0 {
                Some(b)
            } else {
                None
            };
            let n = data_len(b);
            match n {
                None => {
                    self.held = 0;
                    assert(self.view().partial =~= Seq::empty());
                    None
                },
                Some(0) => {
                    self.held = 0;
                    assert(self.view().partial =~= Seq::empty());
                    let m = ShortMessage { status: b, data1: 0, data2: 0, data_len: 0 };
                    assert(m.view() =~= seq![b]);
                    Some(m)
                },
                Some(_) => {
                    self.head = b;
                    self.held = 1;
                    assert(self.view().partial =~= seq![b]);
                    None
                },
            }
        } else if self.held == 2 {
            let m = ShortMessage { status: self.head, data1: self.first, data2: b, data_len: 2 };
            assert(m.view() =~= before.partial.push(b));
            self.held = 0;
            assert(self.view().partial =~= Seq::empty());
            assert(before.partial[0] == self.head);
            Some(m)
        } else {
            if self.held == 0 {
                match self.running {
                    None => {
                        return None;
                    },
                    Some(status) => {
                        self.head = status;
                    },
                }
            } else {
                assert(before.partial =~= seq![self.head]);
            }
            let ghost read = seq![self.head, b];
            assert(before.partial.len() > 0 ==> before.partial.push(b) =~= read);
            let n = data_len(self.head);
            if let Some(1) = n {
                let m = ShortMessage { status: self.head, data1: b, data2: 0, data_len: 1 };
                assert(m.view() =~= read);
                self.held = 0;
                assert(self.view().partial =~= Seq::empty());
                Some(m)
            } else {
                self.first = b;
                self.held = 2;
                assert(self.view().partial =~= read);
                None
            }
        }
    }
}

/// One message and where in the render block it falls.
#[derive(Clone, Copy, Debug, PartialEq, Eq, Structural)]
pub struct TimedMessage {
    pub frame_offset: u32,
    pub message: ShortMessage,
}

impl TimedMessage {
    /// The frame offset and the bytes.
    pub open spec fn view(&self) -> (u32, Seq<u8>) {
        (self.frame_offset, self.message.view())
    }

    /// The frame offset and the bytes as a vector.
    pub fn to_pair(&self) -> (pair: (u32, Vec<u8>))
        ensures
            (pair.0, pair.1@) == self.view(),
    {
        (self.frame_offset, self.message.to_vec())
    }
}

/// What a list of timed messages stands for.
pub open spec fn timed_view(messages: Seq<TimedMessage>) -> Seq<(u32, Seq<u8>)> {
    messages.map_values(|t: TimedMessage| t.view())
}

/// What a list of offsets and byte vectors stands for.
pub open spec fn found_view(found: Seq<(u32, Vec<u8>)>) -> Seq<(u32, Seq<u8>)> {
    found.map_values(|f: (u32, Vec<u8>)| (f.0, f.1@))
}

/// Messages, each with a frame offset.
pub open spec fn stamped(frame_offset: u32, messages: Seq<Seq<u8>>) -> Seq<(u32, Seq<u8>)> {
    messages.map_values(|m: Seq<u8>| (frame_offset, m))
}

/// The messages of one packet, each with the packet's frame offset.
pub open spec fn packet_messages(packet: (u32, Seq<u8>)) -> Seq<(u32, Seq<u8>)> {
    stamped(packet.0, messages_in(packet.1))
}

/// Appends the messages of one packet to `found`.
///
/// Running status is expanded, real-time bytes come out where they stand
/// without disturbing the message around them, and system exclusive data,
/// data without a status and an unfinished message are dropped.
fn append_messages(bytes: &[u8], frame_offset: u32, found: &mut Vec<TimedMessage>)
    ensures
        timed_view(final(found)@) == timed_view(old(found)@) + packet_messages(
            (frame_offset, bytes@),
        ),
{
    let ghost before = timed_view(found@);
    let mut splitter = MidiSplitter::new();
    assert(packet_messages((frame_offset, bytes@.take(0))) =~= Seq::empty());
    assert(before + Seq::<(u32, Seq<u8>)>::empty() =~= before);
    assert(bytes@.take(0) =~= Seq::empty());
    for i in 0..bytes.len()
        invariant
            splitter.inv(),
            splitter.view() == SplitState::start().scan(bytes@.take(i as int)).0,
            timed_view(found@) == before + packet_messages((frame_offset, bytes@.take(i as int))),
    {
        let ghost so_far = bytes@.take(i as int);
        let ghost next = bytes@.take(i + 1);
        let ghost held = found@;
        assert(next.drop_last() =~= so_far);
        assert(next.last() == bytes@[i as int]);
        let b: u8 = bytes[i];
        if let Some(message) = splitter.push(b) {
            let timed = TimedMessage { frame_offset, message };
            found.push(timed);
            proof {
                assert(timed_view(held.push(timed)) =~= timed_view(held).push(timed.view()));
                assert(packet_messages((frame_offset, next)) =~= packet_messages(
                    (frame_offset, so_far),
                ).push(timed.view()));
            }
        }
    }
    assert(bytes@.take(bytes@.len() as int) =~= bytes@);
}

/// Each timed message as its frame offset and its bytes.
fn to_pairs(messages: &Vec<TimedMessage>) -> (found: Vec<(u32, Vec<u8>)>)
    ensures
        found_view(found@) == timed_view(messages@),
{
    let mut found: Vec<(u32, Vec<u8>)> = Vec::new();
    for i in 0..messages.len()
        invariant
            found@.len() == i,
            forall|j: int|
                0 <= j < i ==> ((#[trigger] found@[j]).0, found@[j].1@) == messages@[j].view(),
    {
        found.push(messages[i].to_pair());
    }
    assert(found_view(found@) =~= timed_view(messages@));
    found
}

/// Splits one packet's bytes into messages, each with the packet's frame
/// offset.
pub fn split_messages(bytes: &[u8], frame_offset: u32) -> (found: Vec<(u32, Vec<u8>)>)
    ensures
        found_view(found@) == packet_messages((frame_offset, bytes@)),
{
    let mut messages: Vec<TimedMessage> = Vec::new();
    append_messages(bytes, frame_offset, &mut messages);
    assert(timed_view(Seq::empty()) + packet_messages((frame_offset, bytes@)) =~= packet_messages(
        (frame_offset, bytes@),
    ));
    to_pairs(&messages)
}

// ---------------------------------------------------------------------------
// Walking a packet list
// ---------------------------------------------------------------------------
/// How packets follow one another in a list.
#[derive(Clone, Copy, Debug, PartialEq, Eq, Structural)]
pub enum PacketAlignment {
    /// Each packet starts on the next four-byte boundary, as on ARM.
    FourByte,
    /// Each packet starts right where the one before it ends, as on Intel.
    Packed,
}

/// Where the packet after one that ends at `raw_next` starts.
pub open spec fn packet_after(raw_next: int, alignment: PacketAlignment) -> int {
    match alignment {
        PacketAlignment::FourByte => (raw_next + 3) / 4 * 4,
        PacketAlignment::Packed => raw_next,
    }
}

/// Advances an end-of-packet position to where the next packet starts.
pub fn next_packet(raw_next: usize, alignment: PacketAlignment) -> (next: usize)
    requires
        raw_next + 3 <= usize::MAX,
    ensures
        next == packet_after(raw_next as int, alignment),
        alignment == PacketAlignment::FourByte ==> next % 4 == 0 && raw_next <= next < raw_next + 4,
{
    match alignment {
        PacketAlignment::FourByte => (raw_next + 3) / 4 * 4,
        PacketAlignment::Packed => raw_next,
    }
}

/// The frame offset that a packet's time stamp stands for. Time stamps in a
/// list are sample offsets; one beyond the range of an offset is taken as the
/// largest, never wrapped to the start of the block.
pub open spec fn frame_offset_of(time_stamp: int) -> u32 {
    if time_stamp <= u32::MAX {
        time_stamp as u32
    } else {
        u32::MAX
    }
}

/// The payload length that a declared length is honoured as.
pub open spec fn payload_len_of(declared: int) -> int {
    if declared <= MAX_PACKET_PAYLOAD {
        declared
    } else {
        MAX_PACKET_PAYLOAD as int
    }
}

/// What a packet's header says.
#[derive(Clone, Copy, Debug, PartialEq, Eq, Structural)]
pub struct PacketHeader {
    /// The offset into the render block of every message of the packet.
    pub frame_offset: u32,
    /// How many payload bytes are read.
    pub length: usize,
}

/// The header of the packet at `at`.
pub open spec fn header_at(list: Seq<u8>, at: int) -> PacketHeader {
    PacketHeader {
        frame_offset: frame_offset_of(u64_at(list, at)),
        length: payload_len_of(u16_of(list[at + 8], list[at + 9])) as usize,
    }
}

/// Reads a packet's header: the time stamp saturated to a frame offset, the
/// declared length bounded by the largest legal payload.
pub fn packet_header(list: &[u8], at: usize) -> (header: PacketHeader)
    requires
        at + PACKET_HEADER_SIZE <= list@.len(),
    ensures
        header == header_at(list@, at as int),
        header.length <= MAX_PACKET_PAYLOAD,
{
    assert(list@.len() == list.len());
    let time_stamp: u64 = read_u64(list, at + PACKET_TIME_STAMP_OFFSET);
    let declared: u16 = read_u16(list, at + PACKET_LENGTH_OFFSET);
    let frame_offset: u32 = if time_stamp <= u32::MAX as u64 {
        time_stamp as u32
    } else {
        u32::MAX
    };
    let length: usize = if declared <= MAX_PACKET_PAYLOAD {
        declared as usize
    } else {
        MAX_PACKET_PAYLOAD as usize
    };
    PacketHeader { frame_offset, length }
}

/// The packets of a list from position `at` on, at most `count` of them, each
/// as its frame offset and its payload. A packet that does not lie inside the
/// list ends the walk.
pub open spec fn packets_from(
    list: Seq<u8>,
    at: int,
    count: nat,
    alignment: PacketAlignment,
) -> Seq<(u32, Seq<u8>)>
    decreases count,
{
    let data = at + PACKET_HEADER_SIZE;
    let end = data + header_at(list, at).length;
    if count == 0 || data > list.len() || end > list.len() {
        Seq::empty()
    } else {
        seq![(header_at(list, at).frame_offset, list.subrange(data, end))] + packets_from(
            list,
            packet_after(end, alignment),
            (count - 1) as nat,
            alignment,
        )
    }
}

/// The packets of a list.
pub open spec fn packets_of(list: Seq<u8>, alignment: PacketAlignment) -> Seq<(u32, Seq<u8>)> {
    if list.len() < PACKET_LIST_PACKETS_OFFSET {
        Seq::empty()
    } else {
        packets_from(
            list,
            PACKET_LIST_PACKETS_OFFSET as int,
            u32_at(list, PACKET_LIST_COUNT_OFFSET as int) as nat,
            alignment,
        )
    }
}

/// The messages of several packets, in order.
pub open spec fn all_messages(packets: Seq<(u32, Seq<u8>)>) -> Seq<(u32, Seq<u8>)>
    decreases packets.len(),
{
    if packets.len() == 0 {
        Seq::empty()
    } else {
        packet_messages(packets[0]) + all_messages(packets.skip(1))
    }
}

/// Whether `packets`, each a time stamp and a payload, are written one after
/// the other in `list` from position `at` on.
pub open spec fn laid_out(
    list: Seq<u8>,
    at: int,
    packets: Seq<(u64, Seq<u8>)>,
    alignment: PacketAlignment,
) -> bool
    decreases packets.len(),
{
    packets.len() > 0 ==> {
        let (time_stamp, payload) = packets[0];
        let data = at + PACKET_HEADER_SIZE;
        let end = data + payload.len();
        &&& end <= list.len()
        &&& u64_at(list, at) == time_stamp
        &&& u16_of(list[at + 8], list[at + 9]) == payload.len()
        &&& payload.len() <= MAX_PACKET_PAYLOAD
        &&& list.subrange(data, end) == payload
        &&& laid_out(list, packet_after(end, alignment), packets.skip(1), alignment)
    }
}

/// The walk finds exactly the packets that were written: every payload whole,
/// in order, under its time stamp's frame offset.
pub proof fn the_walk_finds_what_was_written(
    list: Seq<u8>,
    packets: Seq<(u64, Seq<u8>)>,
    alignment: PacketAlignment,
)
    requires
        list.len() >= PACKET_LIST_PACKETS_OFFSET,
        u32_at(list, PACKET_LIST_COUNT_OFFSET as int) == packets.len(),
        laid_out(list, PACKET_LIST_PACKETS_OFFSET as int, packets, alignment),
    ensures
        packets_of(list, alignment) == packets.map_values(
            |p: (u64, Seq<u8>)| (frame_offset_of(p.0 as int), p.1),
        ),
{
    walk_from(list, PACKET_LIST_PACKETS_OFFSET as int, packets, alignment);
}

proof fn walk_from(
    list: Seq<u8>,
    at: int,
    packets: Seq<(u64, Seq<u8>)>,
    alignment: PacketAlignment,
)
    requires
        laid_out(list, at, packets, alignment),
    ensures
        packets_from(list, at, packets.len(), alignment) == packets.map_values(
            |p: (u64, Seq<u8>)| (frame_offset_of(p.0 as int), p.1),
        ),
    decreases packets.len(),
{
    let read = |p: (u64, Seq<u8>)| (frame_offset_of(p.0 as int), p.1);
    if packets.len() > 0 {
        let end = at + PACKET_HEADER_SIZE + packets[0].1.len();
        walk_from(list, packet_after(end, alignment), packets.skip(1), alignment);
        assert(packets.map_values(read) =~= seq![read(packets[0])] + packets.skip(1).map_values(
            read,
        ));
    } else {
        assert(packets.map_values(read) =~= Seq::empty());
    }
}

/// Every message of a packet list, in order, with its frame offset.
///
/// The list is walked by the bytes it holds: a packet is read only where all
/// of it lies inside `list`, and nothing is read beyond.
pub fn decode_packet_list_for_test(list: &[u8], alignment: PacketAlignment) -> (found: Vec<TimedMessage>)
    ensures
        timed_view(found@) == all_messages(packets_of(list@, alignment)),
{
    let mut found: Vec<TimedMessage> = Vec::new();
    assert(timed_view(found@) =~= Seq::empty());
    let len: usize = list.len();
    if len < PACKET_LIST_PACKETS_OFFSET {
        return found;
    }
    let mut remaining: u32 = read_u32(list, PACKET_LIST_COUNT_OFFSET);
    let mut at: usize = PACKET_LIST_PACKETS_OFFSET;
    let ghost total = packets_of(list@, alignment);
    assert(Seq::<(u32, Seq<u8>)>::empty() + all_messages(total) =~= all_messages(total));
    while remaining > 0
        invariant_except_break
            all_messages(total) == timed_view(found@) + all_messages(
                packets_from(list@, at as int, remaining as nat, alignment),
            ),
        invariant
            len == list@.len(),
            at <= len,
        ensures
            all_messages(total) == timed_view(found@),
        decreases remaining,
    {
        let ghost rest = packets_from(list@, at as int, remaining as nat, alignment);
        if len - at < PACKET_HEADER_SIZE {
            break;
        }
        let header = packet_header(list, at);
        let data: usize = at + PACKET_HEADER_SIZE;
        if len - data < header.length {
            break;
        }
        let end: usize = data + header.length;
        let payload = vstd::slice::slice_subrange(list, data, end);
        let ghost before = timed_view(found@);
        let ghost packet = (header.frame_offset, payload@);
        let ghost tail = packets_from(
            list@,
            packet_after(end as int, alignment),
            (remaining - 1) as nat,
            alignment,
        );
        append_messages(payload, header.frame_offset, &mut found);
        proof {
            assert(rest =~= seq![packet] + tail);
            assert(rest.skip(1) =~= tail);
            assert(before + (packet_messages(packet) + all_messages(tail)) =~= (before
                + packet_messages(packet)) + all_messages(tail));
        }
        remaining = remaining - 1;
        let pad: usize = match alignment {
            PacketAlignment::FourByte => (4 - end % 4) % 4,
            PacketAlignment::Packed => 0,
        };
        assert(packet_after(end as int, alignment) == end + pad);
        if len - end < pad {
            assert(tail =~= Seq::empty());
            break;
        }
        at = next_packet_within(end, len, alignment);
    }
    found
}

/// Every message of a packet list as its frame offset and its bytes.
pub fn split_packet_list_for_test(list: &[u8], alignment: PacketAlignment) -> (found: Vec<
    (u32, Vec<u8>),
>)
    ensures
        found_view(found@) == all_messages(packets_of(list@, alignment)),
{
    let messages = decode_packet_list_for_test(list, alignment);
    to_pairs(&messages)
}

/// Where the next packet starts, for one that is known to start inside the
/// list.
fn next_packet_within(end: usize, len: usize, alignment: PacketAlignment) -> (at: usize)
    requires
        packet_after(end as int, alignment) <= len,
    ensures
        at == packet_after(end as int, alignment),
{
    if end <= usize::MAX - 3 {
        next_packet(end, alignment)
    } else {
        match alignment {
            PacketAlignment::FourByte => end + (4 - end % 4) % 4,
            PacketAlignment::Packed => end,
        }
    }
}

// ---------------------------------------------------------------------------
// Batches
// ---------------------------------------------------------------------------
/// Messages gathered for one delivery.
pub struct MidiBatch {
    messages: Vec<TimedMessage>,
}

impl MidiBatch {
    /// The messages gathered since the last delivery.
    pub closed spec fn view(&self) -> Seq<TimedMessage> {
        self.messages@
    }

    /// An empty batch, with room for a full one already set aside.
    pub fn new() -> (b: MidiBatch)
        ensures
            b.view().len() == 0,
    {
        MidiBatch { messages: Vec::with_capacity(DECODE_BATCH) }
    }

    /// Adds a message and says whether the batch is now full, and so has to be
    /// delivered before the next message.
    pub fn push(&mut self, message: TimedMessage) -> (full: bool)
        requires
            old(self).view().len() < DECODE_BATCH,
        ensures
            final(self).view() == old(self).view().push(message),
            full == (final(self).view().len() == DECODE_BATCH),
    {
        self.messages.push(message);
        self.messages.len() == DECODE_BATCH
    }

    /// Reads a packet's payload from `from` on until the batch is full or the
    /// payload is at its end, and returns how far that was. The messages read are
    /// added to the batch, and the splitter stands where the reading stopped.
    pub fn fill(
        &mut self,
        splitter: &mut MidiSplitter,
        payload: &[u8],
        from: usize,
        frame_offset: u32,
    ) -> (next: usize)
        requires
            old(self).view().len() < DECODE_BATCH,
            old(splitter).inv(),
            from <= payload@.len(),
        ensures
            from <= next <= payload@.len(),
            final(splitter).inv(),
            final(splitter).view() == old(splitter).view().scan(
                payload@.subrange(from as int, next as int),
            ).0,
            timed_view(final(self).view()) == timed_view(old(self).view()) + stamped(
                frame_offset,
                old(splitter).view().scan(payload@.subrange(from as int, next as int)).1,
            ),
            final(self).view().len() <= DECODE_BATCH,
            next < payload@.len() ==> final(self).view().len() == DECODE_BATCH,
    {
        let ghost start = splitter.view();
        let ghost before = self.view();
        let mut next: usize = from;
        assert(payload@.subrange(from as int, from as int) =~= Seq::empty());
        assert(timed_view(before) + stamped(frame_offset, Seq::empty()) =~= timed_view(before));
        while next < payload.len() && self.messages.len() < DECODE_BATCH
            invariant
                from <= next <= payload@.len(),
                splitter.inv(),
                splitter.view() == start.scan(payload@.subrange(from as int, next as int)).0,
                timed_view(self.view()) == timed_view(before) + stamped(
                    frame_offset,
                    start.scan(payload@.subrange(from as int, next as int)).1,
                ),
                self.view().len() <= DECODE_BATCH,
            decreases payload@.len() - next,
        {
            let ghost so_far = payload@.subrange(from as int, next as int);
            let ghost longer = payload@.subrange(from as int, next + 1);
            let ghost held = self.view();
            assert(longer.drop_last() =~= so_far);
            assert(longer.last() == payload@[next as int]);
            if let Some(message) = splitter.push(payload[next]) {
                let timed = TimedMessage { frame_offset, message };
                self.push(timed);
                proof {
                    assert(timed_view(held.push(timed)) =~= timed_view(held).push(timed.view()));
                    assert(stamped(frame_offset, start.scan(longer).1) =~= stamped(
                        frame_offset,
                        start.scan(so_far).1,
                    ).push(timed.view()));
                }
            }
            next = next + 1;
        }
        next
    }

    /// Whether the batch has to be delivered before the next message.
    pub fn is_full(&self) -> (full: bool)
        ensures
            full == (self.view().len() >= DECODE_BATCH),
    {
        self.messages.len() >= DECODE_BATCH
    }

    /// Whether nothing waits for delivery.
    pub fn is_empty(&self) -> (empty: bool)
        ensures
            empty == (self.view().len() == 0),
    {
        self.messages.len() == 0
    }

    /// What is to be delivered.
    pub fn messages(&self) -> (m: &[TimedMessage])
        ensures
            m@ == self.view(),
    {
        self.messages.as_slice()
    }

    /// Copies out what is to be delivered and starts over.
    pub fn take(&mut self) -> (contents: Vec<TimedMessage>)
        ensures
            contents@ == old(self).view(),
            final(self).view().len() == 0,
    {
        let contents = vstd::slice::slice_to_vec(self.messages.as_slice());
        self.messages.clear();
        contents
    }

    /// Starts over, keeping the room.
    pub fn clear(&mut self)
        ensures
            final(self).view().len() == 0,
    {
        self.messages.clear();
    }
}

/// The messages of all batches, one batch after the other.
pub open spec fn delivered(batches: Seq<Vec<TimedMessage>>) -> Seq<TimedMessage>
    decreases batches.len(),
{
    if batches.len() == 0 {
        Seq::empty()
    } else {
        delivered(batches.drop_last()) + batches.last()@
    }
}

/// The batches in which the messages of a packet list are handed on.
///
/// Nothing is lost and nothing reordered: the batches joined are the messages
/// of the list. Every batch but the last is full, and none is empty.
pub fn decode_and_dispatch(list: &[u8], alignment: PacketAlignment) -> (batches: Vec<
    Vec<TimedMessage>,
>)
    ensures
        timed_view(delivered(batches@)) == all_messages(packets_of(list@, alignment)),
        forall|i: int|
            0 <= i < batches@.len() - 1 ==> (#[trigger] batches@[i])@.len() == DECODE_BATCH,
        batches@.len() > 0 ==> 1 <= batches@.last()@.len() <= DECODE_BATCH,
{
    let messages = decode_packet_list_for_test(list, alignment);
    let mut batches: Vec<Vec<TimedMessage>> = Vec::new();
    let mut batch = MidiBatch::new();
    assert(delivered(batches@) + batch.view() =~= messages@.take(0));
    for i in 0..messages.len()
        invariant
            batch.view().len() < DECODE_BATCH,
            delivered(batches@) + batch.view() == messages@.take(i as int),
            forall|j: int|
                0 <= j < batches@.len() ==> (#[trigger] batches@[j])@.len() == DECODE_BATCH,
    {
        let ghost so_far = batches@;
        let ghost held = batch.view();
        let message = messages[i];
        let full = batch.push(message);
        assert(messages@.take(i + 1) =~= messages@.take(i as int).push(message));
        assert(delivered(so_far) + held.push(message) =~= (delivered(so_far) + held).push(message));
        if full {
            let contents = batch.take();
            batches.push(contents);
            assert(batches@.drop_last() =~= so_far);
            assert(delivered(batches@) + batch.view() =~= delivered(batches@));
        }
    }
    assert(messages@.take(messages@.len() as int) =~= messages@);
    if !batch.is_empty() {
        let ghost so_far = batches@;
        let contents = batch.take();
        batches.push(contents);
        assert(batches@.drop_last() =~= so_far);
    } else {
        assert(delivered(batches@) + batch.view() =~= delivered(batches@));
    }
    batches
}

// ---------------------------------------------------------------------------
// Registration
// ---------------------------------------------------------------------------
/// The status of a delivery, given whether there is a registration behind the
/// call and a list in it. A withdrawn registration has nothing behind it, so
/// nothing is touched.
pub fn dispatch_status(has_state: bool, has_list: bool) -> (status: i32)
    ensures
        status == (if has_state && has_list {
            NO_ERR
        } else {
            -1i32
        }),
{
    if has_state && has_list {
        NO_ERR
    } else {
        -1
    }
}

/// A host's registration for the MIDI that a unit emits.
#[derive(Debug, PartialEq, Eq, Structural)]
pub struct AuMidiOutput {
    pub installed: bool,
}

impl AuMidiOutput {
    /// The registration, given the status of installing it.
    pub fn install(status: i32) -> (r: Result<AuMidiOutput, AuError>)
        ensures
            outcome(r) == (match status_outcome("AudioUnitSetProperty"@, status) {
                Ok(_) => Ok(AuMidiOutput { installed: true }),
                Err(e) => Err(e),
            }),
    {
        match check("AudioUnitSetProperty", status) {
            Ok(()) => Ok(AuMidiOutput { installed: true }),
            Err(e) => Err(e),
        }
    }

    /// Whether the unit has to be told to let go before the state behind the
    /// registration is freed. A registration that is already withdrawn does not.
    pub fn must_withdraw(&self) -> (yes: bool)
        ensures
            yes == self.installed,
    {
        self.installed
    }

    /// Takes the status of telling the unit to let go. The state behind the
    /// registration is freed then, whatever the unit answered; the answer is what
    /// the caller is told.
    pub fn withdrawn(&mut self, status: i32) -> (r: Result<(), AuError>)
        ensures
            !final(self).installed,
            outcome(r) == (if old(self).installed {
                status_outcome("AudioUnitSetProperty"@, status)
            } else {
                Ok(())
            }),
    {
        if !self.installed {
            return Ok(());
        }
        self.installed = false;
        check("AudioUnitSetProperty", status)
    }
}

/// What an Audio Unit says of its MIDI output streams.
#[derive(Clone, Debug, PartialEq, Eq)]
pub struct MidiOutputInfo {
    /// One name per output stream, in the unit's order; `None` where the unit
    /// published something that is not a name. The index is the stream number
    /// that the unit passes with its messages, so no slot is ever left out.
    pub names: Vec<Option<String>>,
}

/// The contents of an optional list of stream names.
pub open spec fn stream_names(info: Option<MidiOutputInfo>) -> Option<Seq<Option<String>>> {
    match info {
        Some(i) => Some(i.names@),
        None => None,
    }
}

/// What a unit says of its MIDI output streams, given its answer. `None` means
/// that it is no source of MIDI; an empty list means that it has no streams at
/// present. A slot whose name is not a text stays in its place.
pub fn midi_output_info(answer: Option<Vec<Option<String>>>) -> (info: Option<MidiOutputInfo>)
    ensures
        stream_names(info) == (match answer {
            Some(names) => Some(names@),
            None => None,
        }),
{
    match answer {
        Some(names) => Some(MidiOutputInfo { names }),
        None => None,
    }
}

impl MidiOutputInfo {
    /// How many MIDI output streams the unit offers.
    pub fn stream_count(&self) -> (n: usize)
        ensures
            n == self.names@.len(),
    {
        self.names.len()
    }
}

// ---------------------------------------------------------------------------
// Laws of messages, packets and batches
// ---------------------------------------------------------------------------
/// How many data bytes each kind of message has: two for notes, key pressure,
/// controllers and bends, one for programs and channel pressure; one for a quarter
/// frame and a song selection, two for a song position, none for a tune request
/// and for real-time messages. Nothing else begins a message.
pub proof fn each_command_has_its_data_bytes(b: u8)
    ensures
        b < 0x80 ==> data_bytes_of(b) is None,
        0x80 <= b <= 0xBF ==> data_bytes_of(b) == Some(2nat),
        0xC0 <= b <= 0xDF ==> data_bytes_of(b) == Some(1nat),
        0xE0 <= b <= 0xEF ==> data_bytes_of(b) == Some(2nat),
        b == 0xF1 || b == 0xF3 ==> data_bytes_of(b) == Some(1nat),
        b == 0xF2 ==> data_bytes_of(b) == Some(2nat),
        b == 0xF6 || b >= 0xF8 ==> data_bytes_of(b) == Some(0nat),
        b == 0xF0 || b == 0xF4 || b == 0xF5 || b == 0xF7 ==> data_bytes_of(b) is None,
        is_channel_voice(b) <==> 0x80 <= b <= 0xEF,
        is_system_common(b) <==> 0xF0 <= b <= 0xF7,
        is_real_time(b) <==> 0xF8 <= b,
{
}

/// A channel-voice message stays in effect: any number of data pairs, or single
/// data bytes where its command has one, that follow it are messages of the same
/// command on the same channel.
pub proof fn a_status_stays_in_effect(s: SplitState, status: u8, data: Seq<Seq<u8>>)
    requires
        0x80 <= status <= 0xEF,
        s.running == Some(status),
        s.partial.len() == 0,
        forall|i: int|
            0 <= i < data.len() ==> is_message(seq![status] + #[trigger] data[i]),
    ensures
        s.scan(joined(data)).1 == data.map_values(|d: Seq<u8>| seq![status] + d),
        s.scan(joined(data)).0 == s,
    decreases data.len(),
{
    let with_status = |d: Seq<u8>| seq![status] + d;
    if data.len() == 0 {
        assert(data.map_values(with_status) =~= Seq::empty());
    } else {
        let front = data.drop_last();
        let last = data.last();
        assert forall|i: int| 0 <= i < front.len() implies is_message(
            seq![status] + #[trigger] front[i],
        ) by {
            assert(front[i] == data[i]);
        }
        a_status_stays_in_effect(s, status, front);
        scan_concat(s, joined(front), last);
        let next = seq![status] + last;
        assert(is_message(next));
        assert(next[0] == status);
        assert(next[1] == last[0]);
        if last.len() == 1 {
            assert(last =~= seq![last[0]]);
            scan_one(s, last[0]);
            assert(seq![status, last[0]] =~= next);
        } else {
            assert(next[2] == last[1]);
            assert(last =~= seq![last[0]] + seq![last[1]]);
            scan_concat(s, seq![last[0]], seq![last[1]]);
            scan_one(s, last[0]);
            scan_one(s.step(last[0]).0, last[1]);
            assert(seq![status, last[0]].push(last[1]) =~= next);
            assert(seq![status, last[0]][0] == status);
        }
        assert(s.scan(last).1 =~= seq![next]);
        assert(s.scan(last).0.partial =~= s.partial);
        assert(data.map_values(with_status) =~= front.map_values(with_status).push(next));
        assert(s.scan(joined(data)).1 =~= data.map_values(with_status));
    }
}

/// The header of a packet: its eight-byte time stamp, lowest byte first, is the
/// place in the block, and at most the largest place there is; its two-byte length
/// is how much is read, and at most 256 bytes.
pub proof fn a_header_says_where_and_how_much(list: Seq<u8>, at: int)
    requires
        0 <= at,
        at + 10 <= list.len(),
    ensures
        ({
            let low = list[at] + 256 * (list[at + 1] + 256 * (list[at + 2] + 256 * list[at + 3]));
            let high = list[at + 4] + 256 * (list[at + 5] + 256 * (list[at + 6] + 256 * list[at
                + 7]));
            let declared = list[at + 8] + 256 * list[at + 9];
            let header = header_at(list, at);
            &&& high == 0 ==> header.frame_offset == low
            &&& high > 0 ==> header.frame_offset == u32::MAX
            &&& declared <= 256 ==> header.length == declared
            &&& declared > 256 ==> header.length == 256
        }),
{
}

/// A time stamp is a place in the block up to the largest there is, and a declared
/// length is honoured up to the largest payload.
pub proof fn a_place_and_a_length_are_bounded(n: nat)
    ensures
        n <= u32::MAX ==> frame_offset_of(n as int) == n,
        n > u32::MAX ==> frame_offset_of(n as int) == u32::MAX,
        n <= 256 ==> payload_len_of(n as int) == n,
        n > 256 ==> payload_len_of(n as int) == 256,
{
}

/// The next packet begins where this one ends, or at the next multiple of four.
pub proof fn packets_follow_one_another(end: nat)
    ensures
        packet_after(end as int, PacketAlignment::Packed) == end,
        packet_after(end as int, PacketAlignment::FourByte) % 4 == 0,
        end <= packet_after(end as int, PacketAlignment::FourByte) < end + 4,
{
}

/// The packets of a list are those that its count announces, one after the other:
/// each takes the ten bytes of its header and its payload, and the rest are the
/// packets that follow it. A packet that is not all there ends the list.
pub proof fn a_list_is_its_packets(
    list: Seq<u8>,
    at: int,
    count: nat,
    alignment: PacketAlignment,
)
    requires
        0 <= at,
    ensures
        count == 0 ==> packets_from(list, at, count, alignment).len() == 0,
        count > 0 && at + 10 <= list.len() && at + 10 + header_at(list, at).length <= list.len()
            ==> {
            let end = at + 10 + header_at(list, at).length;
            let packets = packets_from(list, at, count, alignment);
            &&& packets.len() > 0
            &&& packets[0].0 == header_at(list, at).frame_offset
            &&& packets[0].1 == list.subrange(at + 10, end)
            &&& packets.skip(1) == packets_from(
                list,
                packet_after(end, alignment),
                (count - 1) as nat,
                alignment,
            )
        },
        at + 10 > list.len() || at + 10 + header_at(list, at).length > list.len() ==> packets_from(
            list,
            at,
            count,
            alignment,
        ).len() == 0,
        list.len() >= 4 ==> packets_of(list, alignment) == packets_from(
            list,
            4,
            (list[0] + 256 * (list[1] + 256 * (list[2] + 256 * list[3]))) as nat,
            alignment,
        ),
        list.len() < 4 ==> packets_of(list, alignment).len() == 0,
{
    let packets = packets_from(list, at, count, alignment);
    if count > 0 && at + 10 <= list.len() && at + 10 + header_at(list, at).length <= list.len() {
        let end = at + 10 + header_at(list, at).length;
        assert(packets.skip(1) =~= packets_from(
            list,
            packet_after(end, alignment),
            (count - 1) as nat,
            alignment,
        ));
    }
}

/// The messages of several packets are those of each, in order, all of a packet's
/// at that packet's place in the block.
pub proof fn every_packet_gives_its_messages(packets: Seq<(u32, Seq<u8>)>, k: int)
    requires
        packets.len() > 0,
        0 <= k < messages_in(packets[0].1).len(),
    ensures
        all_messages(packets).len() == messages_in(packets[0].1).len() + all_messages(
            packets.skip(1),
        ).len(),
        all_messages(packets)[k].0 == packets[0].0,
        all_messages(packets)[k].1 == messages_in(packets[0].1)[k],
        all_messages(packets).skip(messages_in(packets[0].1).len() as int) == all_messages(
            packets.skip(1),
        ),
{
    assert(all_messages(packets).skip(messages_in(packets[0].1).len() as int) =~= all_messages(
        packets.skip(1),
    ));
}

/// Packets without messages give none, and a packet that holds none changes
/// nothing.
pub proof fn an_empty_packet_gives_nothing(packets: Seq<(u32, Seq<u8>)>)
    ensures
        packets.len() == 0 ==> all_messages(packets).len() == 0,
        packets.len() > 0 && messages_in(packets[0].1).len() == 0 ==> all_messages(packets)
            == all_messages(packets.skip(1)),
{
    if packets.len() > 0 && messages_in(packets[0].1).len() == 0 {
        assert(all_messages(packets) =~= all_messages(packets.skip(1)));
    }
}

/// What stands for a list of messages: each of them, at its place, by its bytes.
pub proof fn messages_stand_for_themselves(
    timed: Seq<TimedMessage>,
    found: Seq<(u32, Vec<u8>)>,
    plain: Seq<Seq<u8>>,
    offset: u32,
    i: int,
)
    requires
        0 <= i,
    ensures
        timed_view(timed).len() == timed.len(),
        i < timed.len() ==> timed_view(timed)[i].0 == timed[i].frame_offset
            && timed_view(timed)[i].1 == timed[i].message.view(),
        found_view(found).len() == found.len(),
        i < found.len() ==> found_view(found)[i].0 == found[i].0 && found_view(found)[i].1
            == found[i].1@,
        stamped(offset, plain).len() == plain.len(),
        i < plain.len() ==> stamped(offset, plain)[i].0 == offset && stamped(offset, plain)[i].1
            == plain[i],
{
}

/// What is delivered is every batch, whole and in order.
pub proof fn every_batch_is_delivered(batches: Seq<Vec<TimedMessage>>)
    ensures
        batches.len() == 0 ==> delivered(batches).len() == 0,
        batches.len() > 0 ==> delivered(batches) == delivered(batches.take(batches.len() - 1))
            + batches[batches.len() - 1]@,
{
    if batches.len() > 0 {
        assert(batches.drop_last() =~= batches.take(batches.len() - 1));
    }
}

/// A reader starts with nothing read and no status in effect.
pub proof fn reading_starts_with_nothing()
    ensures
        SplitState::start().running is None,
        SplitState::start().partial.len() == 0,
        SplitState::start().wf(),
        messages_in(Seq::empty()).len() == 0,
{
}

/// A message is a status byte that begins one, followed by as many bytes below 0x80
/// as it calls for, and by nothing else.
pub proof fn a_message_is_a_status_and_its_data(m: Seq<u8>)
    ensures
        is_message(m) && m[0] < 0xF0 ==> 0x80 <= m[0] && (m.len() == 2 <==> 0xC0 <= m[0] <= 0xDF)
            && (m.len() == 2 || m.len() == 3),
        m.len() == 3 && (0x80 <= m[0] <= 0xBF || 0xE0 <= m[0] <= 0xEF || m[0] == 0xF2) && m[1]
            < 0x80 && m[2] < 0x80 ==> is_message(m),
        m.len() == 2 && (0xC0 <= m[0] <= 0xDF || m[0] == 0xF1 || m[0] == 0xF3) && m[1] < 0x80
            ==> is_message(m),
        m.len() == 1 && (m[0] == 0xF6 || m[0] >= 0xF8) ==> is_message(m),
        is_message(m) ==> 1 <= m.len() <= 3 && m[0] >= 0x80,
        is_message(m) && m.len() > 1 ==> m[1] < 0x80,
        is_message(m) && m.len() > 2 ==> m[2] < 0x80,
{
}

/// What a unit says of its streams is kept: every name in its place.
pub proof fn every_stream_keeps_its_name(info: MidiOutputInfo)
    ensures
        stream_names(Some(info)) == Some(info.names@),
        stream_names(None) is None,
{
}

} // verus!
