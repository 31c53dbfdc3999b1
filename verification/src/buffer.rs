//! Buffers of the pull render path: the storage that AudioToolbox is pointed
//! at, and the copying of samples into and out of it.
//!
//! Samples are moved, never computed with, so everything here is written for
//! any sample type and a value that stands for silence.
use vstd::prelude::*;
use crate::bus::ChannelLayout;
use crate::stream::AuBusLayout;
use crate::types::NO_ERR;

verus! {

/// Bytes of one buffer descriptor of a buffer list.
pub const AUDIO_BUFFER_SIZE: usize = 16;

/// Where the descriptors of a buffer list begin: behind the four-byte count and
/// four bytes of padding, since a descriptor holds a pointer.
pub const BUFFER_LIST_HEADER: usize = 8;

/// Bytes of a buffer list with its one declared descriptor.
pub const BUFFER_LIST_SIZE: usize = 24;

/// Bytes of one sample.
pub const SAMPLE_SIZE: usize = 4;

/// The smaller of two numbers.
pub open spec fn smaller(a: int, b: int) -> int {
    if a <= b {
        a
    } else {
        b
    }
}

/// `dst` with its first `n` samples replaced by those of `src`.
pub open spec fn overwritten<T>(dst: Seq<T>, src: Seq<T>, n: int) -> Seq<T> {
    src.take(n) + dst.skip(n)
}

/// How many samples a bounded copy moves.
pub open spec fn copied(frames: u32, a: nat, b: nat) -> int {
    smaller(frames as int, smaller(a as int, b as int))
}

/// The bound of a copy: the frames asked for, and the length of either side.
pub fn bounded(frames: u32, a: usize, b: usize) -> (n: usize)
    ensures
        n == copied(frames, a as nat, b as nat),
{
    let mut n: usize = frames as usize;
    if a < n {
        n = a;
    }
    if b < n {
        n = b;
    }
    n
}

/// Copies the first `n` samples of `src` over those of `dst`.
pub fn copy_front<T: Copy>(dst: &mut [T], src: &[T], n: usize)
    requires
        n <= old(dst)@.len(),
        n <= src@.len(),
    ensures
        final(dst)@ == overwritten(old(dst)@, src@, n as int),
{
    let ghost before = dst@;
    for i in 0..n
        invariant
            n <= src@.len(),
            n <= before.len(),
            dst@ == overwritten(before, src@, i as int),
    {
        dst[i] = src[i];
        assert(dst@ =~= overwritten(before, src@, i + 1));
    }
}

/// `dst` with the samples from `from` up to `to` replaced by `v`.
pub open spec fn filled_between<T>(dst: Seq<T>, from: int, to: int, v: T) -> Seq<T> {
    Seq::new(
        dst.len(),
        |i: int|
            if from <= i < to {
                v
            } else {
                dst[i]
            },
    )
}

/// Writes `v` over the samples from `from` up to `to`.
pub fn fill_between<T: Copy>(dst: &mut [T], from: usize, to: usize, v: T)
    requires
        from <= to <= old(dst)@.len(),
    ensures
        final(dst)@ == filled_between(old(dst)@, from as int, to as int, v),
{
    let ghost before = dst@;
    let mut i: usize = from;
    while i < to
        invariant
            from <= i <= to <= before.len(),
            dst@ == filled_between(before, from as int, i as int, v),
        decreases to - i,
    {
        dst[i] = v;
        i = i + 1;
        assert(dst@ =~= filled_between(before, from as int, i as int, v));
    }
}

/// `dst` with its first `n` samples replaced by those of `src`, and by silence
/// where `src` is shorter.
pub open spec fn padded<T>(dst: Seq<T>, src: Seq<T>, n: int, silence: T) -> Seq<T> {
    Seq::new(
        dst.len(),
        |i: int|
            if i >= n {
                dst[i]
            } else if i < src.len() {
                src[i]
            } else {
                silence
            },
    )
}

/// Copies `src` over the first `n` samples of `dst`, and silence where `src` is
/// shorter: nothing of an earlier block is left among them.
pub fn pad_front<T: Copy>(dst: &mut [T], src: &[T], n: usize, silence: T)
    requires
        n <= old(dst)@.len(),
    ensures
        final(dst)@ == padded(old(dst)@, src@, n as int, silence),
{
    let ghost before = dst@;
    let len: usize = if n <= src.len() {
        n
    } else {
        src.len()
    };
    copy_front(dst, src, len);
    fill_between(dst, len, n, silence);
    assert(dst@ =~= padded(before, src@, n as int, silence));
}

/// Writes silence over the first `n` samples of `dst`.
pub fn silence_front<T: Copy>(dst: &mut [T], n: usize, silence: T)
    requires
        n <= old(dst)@.len(),
    ensures
        final(dst)@ == padded(old(dst)@, Seq::empty(), n as int, silence),
{
    let ghost before = dst@;
    fill_between(dst, 0, n, silence);
    assert(dst@ =~= padded(before, Seq::empty(), n as int, silence));
}

/// The samples of channel `ch`, or none where the bus lacks it.
pub open spec fn channel_or_none<T>(bus: Seq<Vec<T>>, ch: int) -> Seq<T> {
    if 0 <= ch < bus.len() {
        bus[ch]@
    } else {
        Seq::empty()
    }
}

/// Whether `after` is `before` with its first `n` samples replaced by
/// conversions of those of `src`.
pub open spec fn converted<S, T, F: Fn(S) -> T>(
    before: Seq<T>,
    after: Seq<T>,
    src: Seq<S>,
    n: int,
    convert: F,
) -> bool {
    &&& after.len() == before.len()
    &&& forall|i: int| 0 <= i < n ==> convert.ensures((src[i],), #[trigger] after[i])
    &&& forall|i: int| n <= i < before.len() ==> #[trigger] after[i] == before[i]
}

/// Writes the conversions of the first `n` samples of `src` over those of
/// `dst`.
pub fn convert_front<S: Copy, T, F: Fn(S) -> T>(dst: &mut [T], src: &[S], n: usize, convert: &F)
    requires
        n <= old(dst)@.len(),
        n <= src@.len(),
        forall|s: S| convert.requires((s,)),
    ensures
        converted(old(dst)@, final(dst)@, src@, n as int, *convert),
{
    let ghost before = dst@;
    for i in 0..n
        invariant
            n <= src@.len(),
            n <= before.len(),
            forall|s: S| convert.requires((s,)),
            converted(before, dst@, src@, i as int, *convert),
    {
        let s = src[i];
        let t = convert(s);
        dst[i] = t;
    }
}

/// Bytes of a buffer list with `n` descriptors.
pub open spec fn list_bytes(n: int) -> int {
    BUFFER_LIST_HEADER + n * AUDIO_BUFFER_SIZE
}

/// Bytes of a buffer list with `n` descriptors. The header counts with its
/// padding: without those four bytes the last descriptor would end beyond the
/// storage.
pub fn buffer_list_bytes(n: usize) -> (bytes: usize)
    requires
        list_bytes(n as int) <= usize::MAX,
    ensures
        bytes == list_bytes(n as int),
{
    BUFFER_LIST_HEADER + n * AUDIO_BUFFER_SIZE
}

/// How many eight-byte words hold a buffer list with `n` descriptors.
pub open spec fn slab_words(n: int) -> int {
    (list_bytes(n) + 7) / 8
}

/// The words of the storage for a buffer list of `n` descriptors. Words of
/// eight bytes give it the alignment that the list needs.
pub fn slab_word_count(n: u16) -> (words: usize)
    ensures
        words == slab_words(n as int),
        8 * words >= list_bytes(n as int),
{
    let bytes: usize = buffer_list_bytes(n as usize);
    (bytes + 7) / 8
}

/// The byte size of so many frames, as large as the field can say.
pub open spec fn frame_bytes(frames: u32) -> int {
    smaller(frames * SAMPLE_SIZE, u32::MAX as int)
}

/// The byte size of so many frames. It is computed in full width and then
/// bounded, so a huge frame count never wraps to a small size.
pub fn byte_size(frames: u32) -> (bytes: u32)
    ensures
        bytes == frame_bytes(frames),
{
    let bytes: u64 = 4 * (frames as u64);
    if bytes <= u32::MAX as u64 {
        bytes as u32
    } else {
        u32::MAX
    }
}

/// The first word of a descriptor: one channel in its low half, the byte size in
/// its high half.
pub open spec fn slot_word(frames: u32) -> int {
    1 + 0x1_0000_0000 * frame_bytes(frames)
}

/// Whether `after` is the list `before` bound to the buffers at `addresses`: it
/// announces `width` buffers, the descriptor of each channel that has a buffer
/// says one channel of `frames` samples at its address, and no other word
/// changed.
pub open spec fn is_bound(
    before: Seq<u64>,
    after: Seq<u64>,
    width: u16,
    addresses: Seq<u64>,
    frames: u32,
) -> bool {
    &&& after.len() == before.len()
    &&& after[0] == width
    &&& forall|ch: int|
        0 <= ch < smaller(addresses.len() as int, width as int) ==> #[trigger] after[1 + 2 * ch]
            == slot_word(frames) && after[2 + 2 * ch] == addresses[ch]
    &&& forall|w: int|
        1 + 2 * smaller(addresses.len() as int, width as int) <= w < before.len()
            ==> #[trigger] after[w] == before[w]
}

/// Points a buffer list at channel buffers, one descriptor per channel. The list
/// is written as the words it occupies; every write lies inside them.
pub fn bind_list(list: &mut [u64], channels: ChannelLayout, addresses: &[u64], frames: u32)
    requires
        old(list)@.len() >= slab_words(channels.width() as int),
    ensures
        is_bound(old(list)@, final(list)@, channels.width(), addresses@, frames),
{
    let ghost before = list@;
    let width: usize = channels.count() as usize;
    let bound: usize = if addresses.len() <= width {
        addresses.len()
    } else {
        width
    };
    let slot: u64 = 1 + 0x1_0000_0000 * (byte_size(frames) as u64);
    list[0] = width as u64;
    for ch in 0..bound
        invariant
            bound == smaller(addresses@.len() as int, width as int),
            width == channels.width(),
            before.len() >= slab_words(width as int),
            list@.len() == before.len(),
            slot == slot_word(frames),
            list@[0] == width,
            forall|c: int|
                0 <= c < ch ==> #[trigger] list@[1 + 2 * c] == slot && list@[2 + 2 * c]
                    == addresses@[c],
            forall|w: int| 1 + 2 * ch <= w < before.len() ==> #[trigger] list@[w] == before[w],
    {
        list[1 + 2 * ch] = slot;
        list[2 + 2 * ch] = addresses[ch];
    }
}

/// How many descriptors a list announces, as far as its words reach.
pub open spec fn announced(list: Seq<u64>) -> int {
    if list.len() == 0 {
        0
    } else {
        smaller(list[0] as int % 0x1_0000_0000, (list.len() - 1) / 2)
    }
}

/// The byte sizes that the descriptors of a list state.
pub open spec fn stated_sizes(list: Seq<u64>) -> Seq<u32> {
    Seq::new(announced(list) as nat, |ch: int| (list[1 + 2 * ch] / 0x1_0000_0000) as u32)
}

/// Appends the byte sizes that the descriptors of a list state.
pub fn push_stated_sizes(list: &[u64], sizes: &mut Vec<u32>)
    ensures
        final(sizes)@ == old(sizes)@ + stated_sizes(list@),
{
    let ghost before = sizes@;
    if list.len() == 0 {
        assert(before + stated_sizes(list@) =~= before);
        return;
    }
    let count: u64 = list[0] % 0x1_0000_0000;
    let room: usize = (list.len() - 1) / 2;
    let n: usize = if count <= room as u64 {
        count as usize
    } else {
        room
    };
    assert(before =~= before + stated_sizes(list@).take(0));
    for ch in 0..n
        invariant
            n == announced(list@),
            n <= (list@.len() - 1) / 2,
            list@.len() <= usize::MAX,
            sizes@ == before + stated_sizes(list@).take(ch as int),
    {
        let size: u32 = (list[1 + 2 * ch] / 0x1_0000_0000) as u32;
        sizes.push(size);
        assert(stated_sizes(list@).take(ch + 1) =~= stated_sizes(list@).take(ch as int).push(size));
    }
    assert(stated_sizes(list@).take(n as int) =~= stated_sizes(list@));
}

/// A bound list states for every channel the size it was bound with.
pub proof fn a_bound_list_states_its_sizes(
    before: Seq<u64>,
    after: Seq<u64>,
    width: u16,
    addresses: Seq<u64>,
    frames: u32,
)
    requires
        before.len() == slab_words(width as int),
        addresses.len() == width,
        is_bound(before, after, width, addresses, frames),
    ensures
        stated_sizes(after) == Seq::new(width as nat, |ch: int| frame_bytes(frames) as u32),
{
    assert forall|ch: int| 0 <= ch < width implies #[trigger] stated_sizes(after)[ch]
        == frame_bytes(frames) by {
        assert(after[1 + 2 * ch] == slot_word(frames));
    }
    assert(stated_sizes(after) =~= Seq::new(width as nat, |ch: int| frame_bytes(frames) as u32));
}

/// The storage of a buffer list.
pub struct RenderBufferList {
    /// The words that the list occupies.
    pub storage: Vec<u64>,
    /// The width of the bus that the list is for.
    pub channels: ChannelLayout,
}

impl RenderBufferList {
    /// Whether every descriptor of the list lies inside its storage.
    pub open spec fn holds_all(&self) -> bool {
        self.storage@.len() == slab_words(self.channels.width() as int)
    }

    /// Storage for the list of a bus, all of it zero.
    pub fn new(channels: ChannelLayout) -> (list: RenderBufferList)
        ensures
            list.channels == channels,
            list.holds_all(),
            8 * list.storage@.len() >= list_bytes(channels.width() as int),
            forall|w: int| 0 <= w < list.storage@.len() ==> #[trigger] list.storage@[w] == 0,
    {
        RenderBufferList { storage: zeroed_slab(channels), channels }
    }

    /// Points the list at channel buffers.
    pub fn bind(&mut self, addresses: &[u64], frames: u32)
        requires
            old(self).holds_all(),
        ensures
            final(self).channels == old(self).channels,
            final(self).holds_all(),
            is_bound(
                old(self).storage@,
                final(self).storage@,
                old(self).channels.width(),
                addresses@,
                frames,
            ),
    {
        bind_list(self.storage.as_mut_slice(), self.channels, addresses, frames);
    }
}

/// The storage of the list of a bus, all of it zero.
pub fn zeroed_slab(channels: ChannelLayout) -> (words: Vec<u64>)
    ensures
        words@.len() == slab_words(channels.width() as int),
        8 * words@.len() >= list_bytes(channels.width() as int),
        forall|w: int| 0 <= w < words@.len() ==> #[trigger] words@[w] == 0,
{
    let n: usize = slab_word_count(channels.count());
    vec![0u64; n]
}

/// `n` channels of `frames` samples of `silence` each.
pub open spec fn is_silent_bus<T>(bus: Seq<Vec<T>>, n: int, frames: int, silence: T) -> bool {
    &&& bus.len() == n
    &&& forall|ch: int, i: int|
        0 <= ch < n && 0 <= i < frames ==> #[trigger] bus[ch]@[i] == silence
    &&& forall|ch: int| 0 <= ch < n ==> (#[trigger] bus[ch])@.len() == frames
}

fn silent_channel<T: Copy>(frames: usize, silence: T) -> (channel: Vec<T>)
    ensures
        channel@ == Seq::new(frames as nat, |i: int| silence),
{
    let mut channel: Vec<T> = Vec::with_capacity(frames);
    for i in 0..frames
        invariant
            channel@ == Seq::new(i as nat, |i: int| silence),
    {
        channel.push(silence);
        assert(channel@ =~= Seq::new((i + 1) as nat, |i: int| silence));
    }
    channel
}

/// Allocates `n` channels of `frames` samples of silence.
pub fn silent_bus<T: Copy>(n: usize, frames: usize, silence: T) -> (bus: Vec<Vec<T>>)
    ensures
        is_silent_bus(bus@, n as int, frames as int, silence),
{
    let mut bus: Vec<Vec<T>> = Vec::with_capacity(n);
    for i in 0..n
        invariant
            is_silent_bus(bus@, i as int, frames as int, silence),
    {
        let ghost before = bus@;
        let channel = silent_channel(frames, silence);
        bus.push(channel);
        assert forall|ch: int, j: int| 0 <= ch < i + 1 && 0 <= j < frames implies
            #[trigger] bus@[ch]@[j] == silence by {
            if ch < i {
                assert(bus@[ch] == before[ch]);
            }
        }
    }
    bus
}

/// The buffers of the pull render path, and the position its blocks are stamped
/// with.
pub struct RenderScratch<T> {
    /// The list that the output buffers are bound to.
    pub list: RenderBufferList,
    /// What the unit rendered, by channel.
    pub outputs: Vec<Vec<T>>,
    /// What the unit is to be fed, by channel.
    pub inputs: Vec<Vec<T>>,
    /// The position that the next block is stamped with.
    pub sample_position: u64,
    /// The value that stands for silence.
    pub silence: T,
}

/// How many input channels a scratch has for a layout: never fewer than
/// outputs, so that a unit that declares no input and pulls some anyway finds
/// buffers.
pub open spec fn staged_inputs(layout: AuBusLayout) -> int {
    let declared: int = if layout.has_input {
        layout.inputs.width() as int
    } else {
        0
    };
    if declared >= layout.outputs.width() {
        declared
    } else {
        layout.outputs.width() as int
    }
}

/// What staging makes of the input channels: each channel that the caller
/// supplies is overwritten as far as it, the buffer and the frame count reach,
/// everything else stays.
pub open spec fn staged<T>(before: Seq<Vec<T>>, after: Seq<Vec<T>>, input: Seq<&[T]>, frames: u32) -> bool {
    &&& after.len() == before.len()
    &&& forall|ch: int|
        0 <= ch < before.len() ==> (#[trigger] after[ch])@ == (if ch < input.len() {
            overwritten(
                before[ch]@,
                input[ch]@,
                copied(frames, input[ch]@.len(), before[ch]@.len()),
            )
        } else {
            before[ch]@
        })
}

/// What emitting makes of the caller's channel `ch`: it is overwritten as far as
/// it, the buffer and the frame count reach.
pub open spec fn emitted<T>(dst: Seq<T>, sources: Seq<Vec<T>>, ch: int, frames: u32) -> Seq<T> {
    if ch < sources.len() {
        overwritten(dst, sources[ch]@, copied(frames, dst.len(), sources[ch]@.len()))
    } else {
        dst
    }
}

impl<T: Copy> RenderScratch<T> {
    /// Whether the buffers fit a layout and a block size: the unit is given as
    /// many channels, and as long ones, as it was told of.
    pub open spec fn fits(&self, layout: AuBusLayout, block_size: u32) -> bool {
        &&& self.list.channels == layout.outputs
        &&& self.list.holds_all()
        &&& self.outputs@.len() == layout.outputs.width()
        &&& self.inputs@.len() == staged_inputs(layout)
        &&& forall|ch: int|
            0 <= ch < self.outputs@.len() ==> (#[trigger] self.outputs@[ch])@.len() == block_size
        &&& forall|ch: int|
            0 <= ch < self.inputs@.len() ==> (#[trigger] self.inputs@[ch])@.len() == block_size
    }

    /// Whether the buffers are as they were made: silent, bound to nothing and
    /// positioned at zero.
    pub open spec fn is_fresh(&self, layout: AuBusLayout, block_size: u32, silence: T) -> bool {
        &&& self.fits(layout, block_size)
        &&& self.sample_position == 0
        &&& self.silence == silence
        &&& is_silent_bus(
            self.outputs@,
            layout.outputs.width() as int,
            block_size as int,
            silence,
        )
        &&& is_silent_bus(self.inputs@, staged_inputs(layout), block_size as int, silence)
        &&& forall|w: int|
            0 <= w < self.list.storage@.len() ==> #[trigger] self.list.storage@[w] == 0
    }

    /// Silent buffers for a layout and a block size, positioned at zero.
    pub fn new(layout: AuBusLayout, block_size: u32, silence: T) -> (s: RenderScratch<T>)
        ensures
            s.is_fresh(layout, block_size, silence),
    {
        let out_ch: usize = layout.outputs.count() as usize;
        let in_ch: usize = if layout.has_input {
            layout.inputs.count() as usize
        } else {
            0
        };
        let size: usize = block_size as usize;
        let staged: usize = if in_ch >= out_ch {
            in_ch
        } else {
            out_ch
        };
        RenderScratch {
            list: RenderBufferList::new(layout.outputs),
            outputs: silent_bus(out_ch, size, silence),
            inputs: silent_bus(staged, size, silence),
            sample_position: 0,
            silence,
        }
    }

    /// Points the output list at the output buffers, which stand at
    /// `addresses`.
    pub fn bind_output(&mut self, addresses: &[u64], frames: u32)
        requires
            old(self).list.holds_all(),
        ensures
            final(self).list.holds_all(),
            final(self).list.channels == old(self).list.channels,
            is_bound(
                old(self).list.storage@,
                final(self).list.storage@,
                old(self).list.channels.width(),
                addresses@,
                frames,
            ),
            final(self).outputs == old(self).outputs,
            final(self).inputs == old(self).inputs,
            final(self).sample_position == old(self).sample_position,
            final(self).silence == old(self).silence,
    {
        self.list.bind(addresses, frames);
    }

    /// Copies the caller's input into the input buffers. Channels beyond the
    /// buffers are dropped, and no copy goes beyond the frame count, the
    /// caller's slice or the buffer.
    pub fn stage_input(&mut self, input: &[&[T]], frames: u32)
        ensures
            staged(old(self).inputs@, final(self).inputs@, input@, frames),
            forall|ch: int, i: int|
                0 <= ch < old(self).inputs@.len() && 0 <= i < old(self).inputs@[ch]@.len()
                    ==> #[trigger] final(self).inputs@[ch]@[i] == (if ch < input@.len() && i < frames
                    && i < input@[ch]@.len() {
                    input@[ch]@[i]
                } else {
                    old(self).inputs@[ch]@[i]
                }),
            final(self).outputs == old(self).outputs,
            final(self).list == old(self).list,
            final(self).sample_position == old(self).sample_position,
            final(self).silence == old(self).silence,
    {
        let ghost before = self.inputs@;
        let channels: usize = if input.len() <= self.inputs.len() {
            input.len()
        } else {
            self.inputs.len()
        };
        for ch in 0..channels
            invariant
                channels == smaller(input@.len() as int, before.len() as int),
                self.inputs@.len() == before.len(),
                forall|c: int|
                    0 <= c < ch ==> (#[trigger] self.inputs@[c])@ == overwritten(
                        before[c]@,
                        input@[c]@,
                        copied(frames, input@[c]@.len(), before[c]@.len()),
                    ),
                forall|c: int| ch <= c < before.len() ==> #[trigger] self.inputs@[c] == before[c],
                self.outputs == old(self).outputs,
                self.list == old(self).list,
                self.sample_position == old(self).sample_position,
                self.silence == old(self).silence,
        {
            let src: &[T] = input[ch];
            let len: usize = bounded(frames, src.len(), self.inputs[ch].len());
            copy_front(self.inputs[ch].as_mut_slice(), src, len);
        }
    }

    /// Copies what was rendered into the caller's output. Channels that the
    /// scratch lacks stay untouched, and no copy goes beyond the frame count,
    /// the caller's slice or the buffer.
    pub fn emit_output(&self, output: &mut [&mut [T]], frames: u32)
        ensures
            final(output)@.len() == old(output)@.len(),
            forall|ch: int|
                0 <= ch < old(output)@.len() ==> (*(#[trigger] final(output)@[ch]))@ == emitted(
                    (*old(output)@[ch])@,
                    self.outputs@,
                    ch,
                    frames,
                ),
            forall|ch: int, i: int|
                0 <= ch < old(output)@.len() && 0 <= i < (*old(output)@[ch])@.len()
                    ==> #[trigger] (*final(output)@[ch])@[i] == (if ch < self.outputs@.len() && i
                    < frames && i < self.outputs@[ch]@.len() {
                    self.outputs@[ch]@[i]
                } else {
                    (*old(output)@[ch])@[i]
                }),
            forall|ch: int|
                0 <= ch < old(output)@.len() ==> final(#[trigger] final(output)@[ch])@
                    == final(old(output)@[ch])@,
    {
        let ghost before = output@;
        let n: usize = output.len();
        for ch in 0..n
            invariant
                n == before.len(),
                output@.len() == n,
                forall|c: int|
                    0 <= c < ch ==> (*(#[trigger] output@[c]))@ == emitted(
                        (*before[c])@,
                        self.outputs@,
                        c,
                        frames,
                    ),
                forall|c: int| ch <= c < n ==> #[trigger] output@[c] == before[c],
                forall|c: int| 0 <= c < n ==> final(#[trigger] output@[c])@ == final(before[c])@,
        {
            if ch < self.outputs.len() {
                let src = &self.outputs[ch];
                let len: usize = bounded(frames, output[ch].len(), src.len());
                copy_front(output[ch], src.as_slice(), len);
            }
        }
    }

    /// [`Self::stage_input`] for a caller with samples of another width, which
    /// are narrowed one by one.
    pub fn stage_input_f64<S: Copy, F: Fn(S) -> T>(
        &mut self,
        input: &[&[S]],
        frames: u32,
        narrow: F,
    )
        requires
            forall|s: S| narrow.requires((s,)),
        ensures
            final(self).inputs@.len() == old(self).inputs@.len(),
            forall|ch: int|
                0 <= ch < old(self).inputs@.len() ==> (if ch < input@.len() {
                    converted(
                        old(self).inputs@[ch]@,
                        (#[trigger] final(self).inputs@[ch])@,
                        input@[ch]@,
                        copied(frames, input@[ch]@.len(), old(self).inputs@[ch]@.len()),
                        narrow,
                    )
                } else {
                    final(self).inputs@[ch] == old(self).inputs@[ch]
                }),
            final(self).outputs == old(self).outputs,
            final(self).list == old(self).list,
            final(self).sample_position == old(self).sample_position,
            final(self).silence == old(self).silence,
    {
        let ghost before = self.inputs@;
        let channels: usize = if input.len() <= self.inputs.len() {
            input.len()
        } else {
            self.inputs.len()
        };
        for ch in 0..channels
            invariant
                forall|s: S| narrow.requires((s,)),
                channels == smaller(input@.len() as int, before.len() as int),
                self.inputs@.len() == before.len(),
                forall|c: int|
                    0 <= c < ch ==> converted(
                        before[c]@,
                        (#[trigger] self.inputs@[c])@,
                        input@[c]@,
                        copied(frames, input@[c]@.len(), before[c]@.len()),
                        narrow,
                    ),
                forall|c: int| ch <= c < before.len() ==> #[trigger] self.inputs@[c] == before[c],
                self.outputs == old(self).outputs,
                self.list == old(self).list,
                self.sample_position == old(self).sample_position,
                self.silence == old(self).silence,
        {
            let src: &[S] = input[ch];
            let len: usize = bounded(frames, src.len(), self.inputs[ch].len());
            convert_front(self.inputs[ch].as_mut_slice(), src, len, &narrow);
        }
    }

    /// [`Self::emit_output`] for a caller with samples of another width, which
    /// are widened one by one.
    pub fn emit_output_f64<S, F: Fn(T) -> S>(
        &self,
        output: &mut [&mut [S]],
        frames: u32,
        widen: F,
    )
        requires
            forall|t: T| widen.requires((t,)),
        ensures
            final(output)@.len() == old(output)@.len(),
            forall|ch: int|
                0 <= ch < old(output)@.len() ==> (if ch < self.outputs@.len() {
                    converted(
                        (*old(output)@[ch])@,
                        (*(#[trigger] final(output)@[ch]))@,
                        self.outputs@[ch]@,
                        copied(frames, (*old(output)@[ch])@.len(), self.outputs@[ch]@.len()),
                        widen,
                    )
                } else {
                    (*final(output)@[ch])@ == (*old(output)@[ch])@
                }),
            forall|ch: int|
                0 <= ch < old(output)@.len() ==> final(#[trigger] final(output)@[ch])@
                    == final(old(output)@[ch])@,
    {
        let ghost before = output@;
        let n: usize = output.len();
        for ch in 0..n
            invariant
                forall|t: T| widen.requires((t,)),
                n == before.len(),
                output@.len() == n,
                forall|c: int|
                    0 <= c < ch ==> (if c < self.outputs@.len() {
                        converted(
                            (*before[c])@,
                            (*(#[trigger] output@[c]))@,
                            self.outputs@[c]@,
                            copied(frames, (*before[c])@.len(), self.outputs@[c]@.len()),
                            widen,
                        )
                    } else {
                        (*output@[c])@ == (*before[c])@
                    }),
                forall|c: int| ch <= c < n ==> #[trigger] output@[c] == before[c],
                forall|c: int| 0 <= c < n ==> final(#[trigger] output@[c])@ == final(before[c])@,
        {
            if ch < self.outputs.len() {
                let src = &self.outputs[ch];
                let len: usize = bounded(frames, output[ch].len(), src.len());
                convert_front(output[ch], src.as_slice(), len, &widen);
            }
        }
    }

    /// The position of the block about to be rendered; the cursor moves on by
    /// `frames`, and stays at the end of its range rather than wrapping.
    pub fn advance(&mut self, frames: u32) -> (start: u64)
        ensures
            start == old(self).sample_position,
            final(self).sample_position == smaller(
                old(self).sample_position + frames,
                u64::MAX as int,
            ),
            start + frames <= u64::MAX ==> final(self).sample_position == start + frames,
            final(self).outputs == old(self).outputs,
            final(self).inputs == old(self).inputs,
            final(self).list == old(self).list,
            final(self).silence == old(self).silence,
    {
        let start: u64 = self.sample_position;
        self.sample_position = start.saturating_add(frames as u64);
        start
    }

    /// Sends the cursor back to zero: the next block begins a new run.
    pub fn reset_position(&mut self)
        ensures
            final(self).sample_position == 0,
            final(self).outputs == old(self).outputs,
            final(self).inputs == old(self).inputs,
            final(self).list == old(self).list,
            final(self).silence == old(self).silence,
    {
        self.sample_position = 0;
    }

    /// The position that the next block will be stamped with.
    pub fn position(&self) -> (p: u64)
        ensures
            p == self.sample_position,
    {
        self.sample_position
    }
}

// ---------------------------------------------------------------------------
// Feeding the unit
// ---------------------------------------------------------------------------
/// A buffer that the unit offers to be filled with input.
pub struct IoBuffer<T> {
    /// How many channels the unit says the buffer holds.
    pub number_channels: u32,
    /// How many bytes the unit says the buffer has, and after the call, how many
    /// were filled.
    pub data_byte_size: u32,
    /// The samples, or `None` where the unit gave no memory.
    pub data: Option<Vec<T>>,
}

/// How many interleaved channels a buffer is taken to have.
pub open spec fn channels_in(number_channels: u32) -> int {
    if number_channels == 0 {
        1
    } else {
        number_channels as int
    }
}

/// How many frames a buffer has room for.
pub open spec fn capacity(number_channels: u32, data_byte_size: u32) -> int {
    data_byte_size as int / (SAMPLE_SIZE * channels_in(number_channels))
}

/// How many frames are written into a buffer: what was asked for, but no more
/// than the buffer itself has room for.
pub open spec fn frames_to_write(requested: u32, number_channels: u32, data_byte_size: u32) -> int {
    smaller(requested as int, capacity(number_channels, data_byte_size))
}

/// How many frames to write into a buffer. The unit's own statement of its size
/// bounds the request.
pub fn input_frames(requested: u32, number_channels: u32, data_byte_size: u32) -> (n: usize)
    ensures
        n == frames_to_write(requested, number_channels, data_byte_size),
{
    let channels: u64 = if number_channels == 0 {
        1
    } else {
        number_channels as u64
    };
    let room: u64 = data_byte_size as u64 / (SAMPLE_SIZE as u64 * channels);
    proof {
        assert(0 <= data_byte_size as int / (4 * channels as int) <= data_byte_size) by (
            nonlinear_arith)
            requires
                channels >= 1,
        ;
    }
    if requested as u64 <= room {
        requested as usize
    } else {
        room as usize
    }
}

/// The byte size reported for a buffer into which so many frames were written.
pub fn written_bytes(
    frames: usize,
    number_channels: u32,
    data_byte_size: u32,
) -> (bytes: u32)
    requires
        frames <= capacity(number_channels, data_byte_size),
    ensures
        bytes == frames * SAMPLE_SIZE * channels_in(number_channels),
        bytes <= data_byte_size,
{
    let channels: u64 = if number_channels == 0 {
        1
    } else {
        number_channels as u64
    };
    proof {
        let unit: int = 4 * channels as int;
        assert(0 <= frames * unit <= data_byte_size) by (nonlinear_arith)
            requires
                unit >= 4,
                frames as int <= data_byte_size as int / unit,
        ;
        assert(frames * 4 * channels == frames * unit) by (nonlinear_arith)
            requires
                unit == 4 * channels as int,
        ;
        assert(frames as int <= data_byte_size as int) by (nonlinear_arith)
            requires
                unit >= 4,
                0 <= frames * unit <= data_byte_size,
        ;
    }
    (frames as u64 * SAMPLE_SIZE as u64 * channels) as u32
}

/// Whether a buffer is what it says: its memory covers the size it declares.
pub open spec fn honest<T>(buf: IoBuffer<T>) -> bool {
    buf.data matches Some(data) ==> data@.len() >= capacity(
        buf.number_channels,
        buf.data_byte_size,
    )
}

/// Whether `after` is the buffer `before` once it was fed.
pub open spec fn fed_buffer<T>(
    inputs: Seq<Vec<T>>,
    silence: T,
    ch: int,
    requested: u32,
    before: IoBuffer<T>,
    after: IoBuffer<T>,
) -> bool {
    let n = frames_to_write(requested, before.number_channels, before.data_byte_size);
    &&& after.number_channels == before.number_channels
    &&& after.data is Some == before.data is Some
    &&& after.data_byte_size == (if before.data is Some {
        n * SAMPLE_SIZE * channels_in(before.number_channels)
    } else {
        0
    })
    &&& before.data matches Some(data) ==> after.data->0@ == padded(
        data@,
        channel_or_none(inputs, ch),
        n,
        silence,
    )
}

impl<T: Copy> RenderScratch<T> {
    /// Fills the first `frames` samples of `dst` with the staged input of channel
    /// `ch`, and with silence where there is none.
    pub fn feed_channel(&self, ch: usize, dst: &mut [T], frames: usize)
        requires
            frames <= old(dst)@.len(),
        ensures
            final(dst)@ == padded(
                old(dst)@,
                channel_or_none(self.inputs@, ch as int),
                frames as int,
                self.silence,
            ),
    {
        if ch < self.inputs.len() {
            pad_front(dst, self.inputs[ch].as_slice(), frames, self.silence);
        } else {
            silence_front(dst, frames, self.silence);
        }
    }

    /// Feeds one buffer that the unit offers with the staged input of channel `ch`,
    /// and returns the byte size to report for it. A buffer without memory is
    /// reported empty, and a short one is filled only as far as it goes.
    pub fn feed_buffer(
        &self,
        ch: usize,
        requested: u32,
        number_channels: u32,
        data_byte_size: u32,
        data: Option<&mut [T]>,
    ) -> (written: u32)
        requires
            data matches Some(d) ==> d@.len() >= frames_to_write(
                requested,
                number_channels,
                data_byte_size,
            ),
        ensures
            written == (if data is Some {
                frames_to_write(requested, number_channels, data_byte_size) * SAMPLE_SIZE
                    * channels_in(number_channels)
            } else {
                0
            }),
            data matches Some(d) ==> final(d)@ == padded(
                d@,
                channel_or_none(self.inputs@, ch as int),
                frames_to_write(requested, number_channels, data_byte_size),
                self.silence,
            ),
    {
        match data {
            None => 0,
            Some(data) => {
                let frames: usize = input_frames(requested, number_channels, data_byte_size);
                self.feed_channel(ch, data, frames);
                written_bytes(frames, number_channels, data_byte_size)
            },
        }
    }

    /// Feeds the unit: fills each buffer it offers with the staged input of the
    /// same channel. A buffer without memory is reported empty, a short one is
    /// filled only as far as it goes, and the reported sizes are what was
    /// written.
    pub fn feed(&self, requested: u32, io: &mut Vec<IoBuffer<T>>)
        requires
            forall|ch: int| 0 <= ch < old(io)@.len() ==> honest(#[trigger] old(io)@[ch]),
        ensures
            final(io)@.len() == old(io)@.len(),
            forall|ch: int|
                0 <= ch < old(io)@.len() ==> fed_buffer(
                    self.inputs@,
                    self.silence,
                    ch,
                    requested,
                    old(io)@[ch],
                    #[trigger] final(io)@[ch],
                ),
    {
        let ghost before = io@;
        let n: usize = io.len();
        for ch in 0..n
            invariant
                n == before.len(),
                io@.len() == n,
                forall|c: int| 0 <= c < n ==> honest(#[trigger] before[c]),
                forall|c: int|
                    0 <= c < ch ==> fed_buffer(
                        self.inputs@,
                        self.silence,
                        c,
                        requested,
                        before[c],
                        #[trigger] io@[c],
                    ),
                forall|c: int| ch <= c < n ==> #[trigger] io@[c] == before[c],
        {
            assert(honest(before[ch as int]));
            self.feed_one(ch, requested, &mut io[ch]);
        }
    }

    fn feed_one(&self, ch: usize, requested: u32, buf: &mut IoBuffer<T>)
        requires
            honest(*old(buf)),
        ensures
            fed_buffer(self.inputs@, self.silence, ch as int, requested, *old(buf), *final(buf)),
    {
        let number_channels: u32 = buf.number_channels;
        let offered: u32 = buf.data_byte_size;
        let written: u32 = match &mut buf.data {
            None => self.feed_buffer(ch, requested, number_channels, offered, None),
            Some(data) => self.feed_buffer(
                ch,
                requested,
                number_channels,
                offered,
                Some(data.as_mut_slice()),
            ),
        };
        buf.data_byte_size = written;
    }
}

/// The status of a pull for input, given whether the host's buffers and the
/// unit's list are there at all: without either nothing may be touched.
pub open spec fn pull_status(has_scratch: bool, has_list: bool) -> i32 {
    if has_scratch && has_list {
        NO_ERR
    } else {
        -1i32
    }
}

/// The status of a pull for input.
pub fn pull_status_of(has_scratch: bool, has_list: bool) -> (status: i32)
    ensures
        status == pull_status(has_scratch, has_list),
{
    if has_scratch && has_list {
        NO_ERR
    } else {
        -1
    }
}

/// Answers a unit's pull for input. A call without buffers or without a list is
/// rejected before anything is read.
pub fn render_input<T: Copy>(
    scratch: Option<&RenderScratch<T>>,
    requested: u32,
    io: Option<&mut Vec<IoBuffer<T>>>,
) -> (status: i32)
    requires
        io matches Some(list) ==> forall|ch: int|
            0 <= ch < list@.len() ==> honest(#[trigger] list@[ch]),
    ensures
        status == pull_status(scratch is Some, io is Some),
        io matches Some(list) ==> scratch is None ==> final(list)@ == list@,
        io matches Some(list) ==> scratch matches Some(s) ==> final(list)@.len() == list@.len()
            && forall|ch: int|
            0 <= ch < list@.len() ==> fed_buffer(
                s.inputs@,
                s.silence,
                ch,
                requested,
                list@[ch],
                #[trigger] final(list)@[ch],
            ),
{
    let status: i32 = pull_status_of(scratch.is_some(), io.is_some());
    if let (Some(scratch), Some(list)) = (scratch, io) {
        scratch.feed(requested, list);
    }
    status
}

// ---------------------------------------------------------------------------
// Laws
// ---------------------------------------------------------------------------
/// Of two numbers the smaller is one of them, and exceeds neither.
pub proof fn the_smaller_exceeds_neither(a: int, b: int)
    ensures
        smaller(a, b) <= a,
        smaller(a, b) <= b,
        smaller(a, b) == a || smaller(a, b) == b,
{
}

/// A copy moves exactly the samples that both sides have within the frames asked
/// for.
pub proof fn a_copy_reaches_as_far_as_both_sides(frames: u32, a: nat, b: nat, i: nat)
    ensures
        i < copied(frames, a, b) <==> i < frames && i < a && i < b,
        copied(frames, a, b) >= 0,
{
}

/// Emitting: every sample that the unit rendered, that lies within the frames
/// asked for and that the caller has room for comes out unchanged. Every other
/// sample of the caller's stays as it was.
pub proof fn every_rendered_sample_is_emitted<T>(
    dst: Seq<T>,
    rendered: Seq<Vec<T>>,
    ch: int,
    frames: u32,
    i: int,
)
    requires
        0 <= ch,
        0 <= i < dst.len(),
    ensures
        emitted(dst, rendered, ch, frames).len() == dst.len(),
        ch < rendered.len() && i < frames && i < rendered[ch]@.len() ==> emitted(
            dst,
            rendered,
            ch,
            frames,
        )[i] == rendered[ch]@[i],
        ch >= rendered.len() || i >= frames || i >= rendered[ch]@.len() ==> emitted(
            dst,
            rendered,
            ch,
            frames,
        )[i] == dst[i],
{
}

/// Staging: every sample that the caller supplies, that lies within the frames
/// asked for and that the buffers have room for is what the unit is fed. Every
/// other sample of the buffers stays as it was.
pub proof fn every_supplied_sample_is_staged<T>(
    before: Seq<Vec<T>>,
    after: Seq<Vec<T>>,
    input: Seq<&[T]>,
    frames: u32,
    ch: int,
    i: int,
)
    requires
        staged(before, after, input, frames),
        0 <= ch < before.len(),
        0 <= i < before[ch]@.len(),
    ensures
        after.len() == before.len(),
        after[ch]@.len() == before[ch]@.len(),
        ch < input.len() && i < frames && i < input[ch]@.len() ==> after[ch]@[i]
            == input[ch]@[i],
        ch >= input.len() || i >= frames || i >= input[ch]@.len() ==> after[ch]@[i]
            == before[ch]@[i],
{
}

/// Converting copies: each of the first samples is a conversion of the sample at
/// the same place, and no other changes.
pub proof fn every_sample_is_converted_in_place<S, T, F: Fn(S) -> T>(
    before: Seq<T>,
    after: Seq<T>,
    src: Seq<S>,
    n: int,
    convert: F,
    i: int,
)
    requires
        converted(before, after, src, n, convert),
        0 <= i < before.len(),
        n <= src.len(),
    ensures
        after.len() == before.len(),
        i < n ==> convert.ensures((src[i],), after[i]),
        i >= n ==> after[i] == before[i],
{
}

/// Padding: the first samples are those supplied and, beyond them, silence. What
/// lies behind stays as it was.
pub proof fn padding_supplies_or_silences<T>(dst: Seq<T>, src: Seq<T>, n: int, silence: T, i: int)
    requires
        0 <= i < dst.len(),
    ensures
        padded(dst, src, n, silence).len() == dst.len(),
        i < n && i < src.len() ==> padded(dst, src, n, silence)[i] == src[i],
        i < n && i >= src.len() ==> padded(dst, src, n, silence)[i] == silence,
        i >= n ==> padded(dst, src, n, silence)[i] == dst[i],
{
}

/// Feeding: a buffer is filled with as many whole frames as were asked for, or
/// as it has room for, whichever is less. It holds the staged samples of its
/// channel and silence where there are none, and says how many bytes were
/// filled; a buffer without memory says none.
pub proof fn a_fed_buffer_holds_the_staged_input<T>(
    inputs: Seq<Vec<T>>,
    silence: T,
    ch: int,
    requested: u32,
    before: IoBuffer<T>,
    after: IoBuffer<T>,
)
    requires
        fed_buffer(inputs, silence, ch, requested, before, after),
        0 <= ch,
    ensures
        ({
            let n = frames_to_write(requested, before.number_channels, before.data_byte_size);
            let c: int = if before.number_channels == 0 {
                1
            } else {
                before.number_channels as int
            };
            &&& 0 <= n <= requested
            &&& n * (4 * c) <= before.data_byte_size
            &&& n == requested || (n + 1) * (4 * c) > before.data_byte_size
            &&& after.number_channels == before.number_channels
            &&& before.data is None ==> after.data is None && after.data_byte_size == 0
            &&& before.data is Some ==> {
                &&& after.data is Some
                &&& after.data_byte_size == n * (4 * c)
                &&& after.data->0@.len() == before.data->0@.len()
                &&& forall|i: int|
                    0 <= i < before.data->0@.len() ==> #[trigger] after.data->0@[i] == (if i >= n {
                        before.data->0@[i]
                    } else if ch < inputs.len() && i < inputs[ch]@.len() {
                        inputs[ch]@[i]
                    } else {
                        silence
                    })
            }
        }),
{
    let n = frames_to_write(requested, before.number_channels, before.data_byte_size);
    let c: int = if before.number_channels == 0 {
        1
    } else {
        before.number_channels as int
    };
    let unit = 4 * c;
    let size = before.data_byte_size as int;
    let most = size / unit;
    assert(0 <= most && most * unit <= size && (most + 1) * unit > size) by (nonlinear_arith)
        requires
            most == size / unit,
            unit >= 4,
            size >= 0,
    ;
    assert(0 <= n * unit <= most * unit) by (nonlinear_arith)
        requires
            0 <= n <= most,
            unit >= 4,
    ;
    assert(n * SAMPLE_SIZE * c == n * unit) by (nonlinear_arith)
        requires
            unit == 4 * c,
            SAMPLE_SIZE == 4,
    ;
}

/// Binding: the list announces as many buffers as the bus is wide. The descriptor
/// of each takes two words: one channel and the bytes of the block, four to a
/// frame, and the buffer's address. Nothing else is written.
pub proof fn a_bound_list_describes_each_buffer(
    before: Seq<u64>,
    after: Seq<u64>,
    width: u16,
    addresses: Seq<u64>,
    frames: u32,
    ch: int,
)
    requires
        is_bound(before, after, width, addresses, frames),
        0 <= ch < addresses.len(),
        ch < width,
    ensures
        after.len() == before.len(),
        after[0] == width,
        after[1 + 2 * ch] % 0x1_0000_0000 == 1,
        4 * frames <= u32::MAX ==> after[1 + 2 * ch] / 0x1_0000_0000 == 4 * frames,
        4 * frames > u32::MAX ==> after[1 + 2 * ch] / 0x1_0000_0000 == u32::MAX,
        after[2 + 2 * ch] == addresses[ch],
        forall|w: int|
            1 + 2 * width <= w < before.len() ==> #[trigger] after[w] == before[w],
{
    assert(after[1 + 2 * ch] == slot_word(frames));
}

/// The storage of a list has room for an eight-byte head and sixteen bytes for
/// each buffer, and less than one word to spare.
pub proof fn the_storage_has_room_for_every_buffer(n: u16)
    ensures
        8 * slab_words(n as int) >= 8 + 16 * n,
        8 * slab_words(n as int) < 8 + 16 * n + 8,
        list_bytes(n as int) == 8 + 16 * n,
{
}

/// A list says of each buffer that it announces the size in the upper half of the
/// descriptor's first word.
pub proof fn a_list_states_the_sizes_it_holds(list: Seq<u64>, ch: int)
    requires
        0 <= ch,
        3 + 2 * ch <= list.len(),
    ensures
        ch < list[0] % 0x1_0000_0000 <==> ch < stated_sizes(list).len(),
        ch < stated_sizes(list).len() ==> stated_sizes(list)[ch] == list[1 + 2 * ch]
            / 0x1_0000_0000,
{
}

/// Fresh buffers: one of the block's length for each output and for each input,
/// no fewer inputs than outputs, all of it silence, and the clock at zero.
pub proof fn fresh_buffers_are_silent<T: Copy>(
    s: RenderScratch<T>,
    layout: AuBusLayout,
    block_size: u32,
    silence: T,
)
    requires
        s.is_fresh(layout, block_size, silence),
    ensures
        s.sample_position == 0,
        s.silence == silence,
        s.list.channels == layout.outputs,
        s.outputs@.len() == layout.outputs.width(),
        s.inputs@.len() >= s.outputs@.len(),
        layout.has_input ==> s.inputs@.len() >= layout.inputs.width(),
        s.inputs@.len() == s.outputs@.len() || (layout.has_input && s.inputs@.len()
            == layout.inputs.width()),
        forall|ch: int|
            0 <= ch < s.outputs@.len() ==> (#[trigger] s.outputs@[ch])@.len() == block_size,
        forall|ch: int| 0 <= ch < s.inputs@.len() ==> (#[trigger] s.inputs@[ch])@.len() == block_size,
        forall|ch: int, i: int|
            0 <= ch < s.outputs@.len() && 0 <= i < block_size ==> #[trigger] s.outputs@[ch]@[i]
                == silence,
        forall|ch: int, i: int|
            0 <= ch < s.inputs@.len() && 0 <= i < block_size ==> #[trigger] s.inputs@[ch]@[i]
                == silence,
{
}

/// A pull is answered with success exactly where there are buffers to feed from
/// and a list to feed.
pub proof fn a_pull_needs_both_sides(has_scratch: bool, has_list: bool)
    ensures
        pull_status(has_scratch, has_list) == 0 <==> has_scratch && has_list,
        pull_status(has_scratch, has_list) == 0 || pull_status(has_scratch, has_list) == -1,
{
}

/// A list holds all of its buffers where it has a word for its head and two for
/// each of them.
pub proof fn a_list_holds_all_of_its_buffers(list: RenderBufferList)
    ensures
        list.holds_all() <==> list.storage@.len() == 1 + 2 * list.channels.width(),
{
}

} // verus!
