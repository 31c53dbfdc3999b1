//! The push render path, in which the host hands input in and takes output out
//! of one call, and the settings of a bounce.
use vstd::prelude::*;
use vstd::string::*;
use crate::buffer::{
    a_bound_list_describes_each_buffer,
    bind_list,
    bounded,
    channel_or_none,
    copied,
    copy_front,
    emitted,
    is_bound,
    is_silent_bus,
    pad_front,
    padded,
    push_stated_sizes,
    silence_front,
    silent_bus,
    slab_words,
    smaller,
    stated_sizes,
    zeroed_slab,
};
use crate::bus::ChannelLayout;
use crate::error::{outcome, AuError, ErrorView};
use crate::text::{decimal, push_decimal};
use crate::types::{K_AUDIO_UNIT_RENDER_ACTION_OUTPUT_IS_SILENCE, NO_ERR};

verus! {

/// The largest render quality that is ever written. Most units store whatever
/// they are given, so the bound is kept here.
pub const RENDER_QUALITY_MAX: u32 = 127;

/// How a quality beyond the maximum is refused.
pub open spec fn quality_refusal(quality: u32) -> ErrorView {
    ErrorView::InvalidBuffer {
        reason: "render quality "@ + decimal(quality as int) + " exceeds the maximum "@ + decimal(
            RENDER_QUALITY_MAX as int,
        ),
    }
}

/// The render quality to write, or a refusal of one beyond the maximum.
pub fn render_quality_to_write(quality: u32) -> (r: Result<u32, AuError>)
    ensures
        r is Ok <==> quality <= 127,
        r matches Ok(q) ==> q == quality,
        outcome(r) == (if quality <= RENDER_QUALITY_MAX {
            Ok(quality)
        } else {
            Err(quality_refusal(quality))
        }),
{
    if quality > RENDER_QUALITY_MAX {
        let mut t = "render quality ".to_owned();
        push_decimal(&mut t, quality as i64);
        t.append(" exceeds the maximum ");
        push_decimal(&mut t, RENDER_QUALITY_MAX as i64);
        return Err(AuError::InvalidBuffer(t));
    }
    Ok(quality)
}

/// A switch as the four-byte number that such properties take.
pub fn flag_value(on: bool) -> (v: u32)
    ensures
        v == (if on {
            1u32
        } else {
            0u32
        }),
{
    if on {
        1
    } else {
        0
    }
}

/// The switch that a four-byte property value states: anything but zero is on.
pub fn flag_of(value: u32) -> (on: bool)
    ensures
        on == (value != 0),
{
    value != 0
}

/// What a unit recorded of its last failed render, given its answer to reading
/// that: nothing where it does not say or says success.
pub fn last_render_error(status: i32, recorded: i32) -> (e: Option<i32>)
    ensures
        e == (if status == NO_ERR && recorded != NO_ERR {
            Some(recorded)
        } else {
            None
        }),
{
    if status == NO_ERR && recorded != NO_ERR {
        Some(recorded)
    } else {
        None
    }
}

/// Whether a render says that its output is silent. The buffers then hold
/// nothing to be trusted.
pub open spec fn says_silence(flags: u32) -> bool {
    flags & K_AUDIO_UNIT_RENDER_ACTION_OUTPUT_IS_SILENCE != 0
}

/// Whether a render says that its output is silent.
pub fn output_is_silence(flags: u32) -> (silent: bool)
    ensures
        silent == says_silence(flags),
{
    flags & K_AUDIO_UNIT_RENDER_ACTION_OUTPUT_IS_SILENCE != 0
}

/// How a block larger than the configured one is refused.
pub open spec fn frames_refusal(name: Seq<char>, frames: u32, block_size: u32) -> ErrorView {
    ErrorView::InvalidBuffer {
        reason: name + " ("@ + decimal(frames as int) + ") > block_size ("@ + decimal(
            block_size as int,
        ) + ")"@,
    }
}

/// Refuses a block larger than the configured one.
pub fn check_frames(name: &str, frames: u32, block_size: u32) -> (r: Result<(), AuError>)
    ensures
        r is Ok <==> frames <= block_size,
        outcome(r) == (if frames <= block_size {
            Ok(())
        } else {
            Err(frames_refusal(name@, frames, block_size))
        }),
{
    if frames <= block_size {
        return Ok(());
    }
    let mut t = name.to_owned();
    t.append(" (");
    push_decimal(&mut t, frames as i64);
    t.append(") > block_size (");
    push_decimal(&mut t, block_size as i64);
    t.append(")");
    Err(AuError::InvalidBuffer(t))
}

/// The buffers of the push render path: one buffer list per bus, all allocated
/// when it is made.
pub struct PushScratch<T> {
    /// The words of each input bus's buffer list.
    pub input_slabs: Vec<Vec<u64>>,
    /// The samples of each input bus, by channel.
    pub input_audio: Vec<Vec<Vec<T>>>,
    /// The words of each output bus's buffer list.
    pub output_slabs: Vec<Vec<u64>>,
    /// The samples of each output bus, by channel.
    pub output_audio: Vec<Vec<Vec<T>>>,
    /// The width of each input bus.
    pub input_widths: Vec<ChannelLayout>,
    /// The width of each output bus.
    pub output_widths: Vec<ChannelLayout>,
    /// How many frames each channel holds.
    pub block_size: u32,
    /// The position that the next block is stamped with. The push path has its
    /// own: it is a render session apart from the pull path.
    pub sample_position: u64,
    /// The value that stands for silence.
    pub silence: T,
}

/// Whether slabs and samples are those of buses of the given widths.
pub open spec fn buses_fit<T>(
    slabs: Seq<Vec<u64>>,
    audio: Seq<Vec<Vec<T>>>,
    widths: Seq<ChannelLayout>,
    block_size: u32,
) -> bool {
    &&& slabs.len() == widths.len()
    &&& audio.len() == widths.len()
    &&& forall|bus: int|
        0 <= bus < widths.len() ==> (#[trigger] slabs[bus])@.len() == slab_words(
            widths[bus].width() as int,
        )
    &&& forall|bus: int|
        0 <= bus < widths.len() ==> bus_fits(
            #[trigger] audio[bus]@,
            widths[bus].width() as int,
            block_size,
        )
}

/// Whether a bus has `width` channels of `block_size` samples.
pub open spec fn bus_fits<T>(bus: Seq<Vec<T>>, width: int, block_size: u32) -> bool {
    &&& bus.len() == width
    &&& forall|ch: int| 0 <= ch < width ==> (#[trigger] bus[ch])@.len() == block_size
}

/// How many frames of a block the scratch has room for.
pub open spec fn room(frames: u32, block_size: u32) -> int {
    smaller(frames as int, block_size as int)
}

/// What staging makes of an input bus: every channel holds what the caller
/// supplies, and silence where the caller supplies nothing, over the frames of
/// the block.
pub open spec fn bus_staged<T>(
    before: Seq<Vec<T>>,
    after: Seq<Vec<T>>,
    src: Seq<&[T]>,
    n: int,
    silence: T,
) -> bool {
    &&& after.len() == before.len()
    &&& forall|ch: int|
        0 <= ch < before.len() ==> (#[trigger] after[ch])@ == padded(
            before[ch]@,
            if ch < src.len() {
                src[ch]@
            } else {
                Seq::empty()
            },
            smaller(n, before[ch]@.len() as int),
            silence,
        )
}

/// What a bus holds once another was copied over it, or silence.
pub open spec fn bus_copied<T>(
    before: Seq<Vec<T>>,
    after: Seq<Vec<T>>,
    src: Seq<Vec<T>>,
    silent: bool,
    n: int,
    silence: T,
) -> bool {
    &&& after.len() == before.len()
    &&& forall|ch: int|
        0 <= ch < before.len() ==> (#[trigger] after[ch])@ == padded(
            before[ch]@,
            if silent {
                Seq::empty()
            } else {
                channel_or_none(src, ch)
            },
            smaller(n, before[ch]@.len() as int),
            silence,
        )
}

fn stage_bus<T: Copy>(channels: &mut Vec<Vec<T>>, src: &[&[T]], n: usize, silence: T)
    ensures
        bus_staged(old(channels)@, final(channels)@, src@, n as int, silence),
{
    let ghost before = channels@;
    let count: usize = channels.len();
    for ch in 0..count
        invariant
            count == before.len(),
            channels@.len() == before.len(),
            forall|c: int|
                0 <= c < ch ==> (#[trigger] channels@[c])@ == padded(
                    before[c]@,
                    if c < src@.len() {
                        src@[c]@
                    } else {
                        Seq::empty()
                    },
                    smaller(n as int, before[c]@.len() as int),
                    silence,
                ),
            forall|c: int| ch <= c < before.len() ==> #[trigger] channels@[c] == before[c],
    {
        let len: usize = channels[ch].len();
        let limit: usize = if n <= len {
            n
        } else {
            len
        };
        if ch < src.len() {
            pad_front(channels[ch].as_mut_slice(), src[ch], limit, silence);
        } else {
            silence_front(channels[ch].as_mut_slice(), limit, silence);
        }
    }
}

fn copy_bus<T: Copy>(
    dst: &mut Vec<Vec<T>>,
    src: &Vec<Vec<T>>,
    silent: bool,
    n: usize,
    silence: T,
)
    ensures
        bus_copied(old(dst)@, final(dst)@, src@, silent, n as int, silence),
{
    let ghost before = dst@;
    let count: usize = dst.len();
    for ch in 0..count
        invariant
            count == before.len(),
            dst@.len() == before.len(),
            forall|c: int|
                0 <= c < ch ==> (#[trigger] dst@[c])@ == padded(
                    before[c]@,
                    if silent {
                        Seq::empty()
                    } else {
                        channel_or_none(src@, c)
                    },
                    smaller(n as int, before[c]@.len() as int),
                    silence,
                ),
            forall|c: int| ch <= c < before.len() ==> #[trigger] dst@[c] == before[c],
    {
        let len: usize = dst[ch].len();
        let limit: usize = if n <= len {
            n
        } else {
            len
        };
        if !silent && ch < src.len() {
            pad_front(dst[ch].as_mut_slice(), src[ch].as_slice(), limit, silence);
        } else {
            silence_front(dst[ch].as_mut_slice(), limit, silence);
        }
    }
}

fn bind_buses(
    slabs: &mut Vec<Vec<u64>>,
    widths: &Vec<ChannelLayout>,
    addresses: &Vec<Vec<u64>>,
    frames: u32,
)
    requires
        old(slabs)@.len() == widths@.len(),
        addresses@.len() == widths@.len(),
        forall|bus: int|
            0 <= bus < widths@.len() ==> (#[trigger] old(slabs)@[bus])@.len() == slab_words(
                widths@[bus].width() as int,
            ),
    ensures
        buses_bound(old(slabs)@, final(slabs)@, widths@, addresses@, frames),
{
    let ghost before = slabs@;
    let count: usize = slabs.len();
    for bus in 0..count
        invariant
            count == before.len(),
            slabs@.len() == before.len(),
            before.len() == widths@.len(),
            addresses@.len() == widths@.len(),
            forall|b: int|
                0 <= b < widths@.len() ==> (#[trigger] before[b])@.len() == slab_words(
                    widths@[b].width() as int,
                ),
            forall|b: int|
                0 <= b < bus ==> is_bound(
                    before[b]@,
                    (#[trigger] slabs@[b])@,
                    widths@[b].width(),
                    addresses@[b]@,
                    frames,
                ),
            forall|b: int| bus <= b < before.len() ==> #[trigger] slabs@[b] == before[b],
    {
        bind_list(slabs[bus].as_mut_slice(), widths[bus], addresses[bus].as_slice(), frames);
    }
}

/// Whether every bus's list is bound to its buffers.
pub open spec fn buses_bound(
    before: Seq<Vec<u64>>,
    after: Seq<Vec<u64>>,
    widths: Seq<ChannelLayout>,
    addresses: Seq<Vec<u64>>,
    frames: u32,
) -> bool {
    &&& after.len() == before.len()
    &&& forall|bus: int|
        0 <= bus < before.len() ==> is_bound(
            before[bus]@,
            (#[trigger] after[bus])@,
            widths[bus].width(),
            addresses[bus]@,
            frames,
        )
}

fn allocate_slabs(widths: &[ChannelLayout]) -> (slabs: Vec<Vec<u64>>)
    ensures
        slabs@.len() == widths@.len(),
        forall|bus: int|
            0 <= bus < widths@.len() ==> (#[trigger] slabs@[bus])@.len() == slab_words(
                widths@[bus].width() as int,
            ) && forall|w: int| 0 <= w < slabs@[bus]@.len() ==> #[trigger] slabs@[bus]@[w] == 0,
{
    let mut slabs: Vec<Vec<u64>> = Vec::new();
    for bus in 0..widths.len()
        invariant
            slabs@.len() == bus,
            forall|b: int|
                0 <= b < bus ==> (#[trigger] slabs@[b])@.len() == slab_words(
                    widths@[b].width() as int,
                ) && forall|w: int| 0 <= w < slabs@[b]@.len() ==> #[trigger] slabs@[b]@[w] == 0,
    {
        slabs.push(zeroed_slab(widths[bus]));
    }
    slabs
}

fn allocate_audio<T: Copy>(widths: &[ChannelLayout], frames: u32, silence: T) -> (audio: Vec<
    Vec<Vec<T>>,
>)
    ensures
        audio@.len() == widths@.len(),
        forall|bus: int|
            0 <= bus < widths@.len() ==> is_silent_bus(
                (#[trigger] audio@[bus])@,
                widths@[bus].width() as int,
                frames as int,
                silence,
            ),
{
    let mut audio: Vec<Vec<Vec<T>>> = Vec::new();
    for bus in 0..widths.len()
        invariant
            audio@.len() == bus,
            forall|b: int|
                0 <= b < bus ==> is_silent_bus(
                    (#[trigger] audio@[b])@,
                    widths@[b].width() as int,
                    frames as int,
                    silence,
                ),
    {
        audio.push(silent_bus(widths[bus].count() as usize, frames as usize, silence));
    }
    audio
}

impl<T: Copy> PushScratch<T> {
    /// Whether every bus has a list and samples of its width, and blocks are not
    /// empty.
    pub open spec fn wf(&self) -> bool {
        &&& self.block_size > 0
        &&& buses_fit(
            self.input_slabs@,
            self.input_audio@,
            self.input_widths@,
            self.block_size,
        )
        &&& buses_fit(
            self.output_slabs@,
            self.output_audio@,
            self.output_widths@,
            self.block_size,
        )
    }

    /// Whether two states differ in nothing but buffers, lists and position.
    pub open spec fn same_shape(&self, other: &PushScratch<T>) -> bool {
        &&& self.input_widths == other.input_widths
        &&& self.output_widths == other.output_widths
        &&& self.block_size == other.block_size
        &&& self.silence == other.silence
    }

    /// Silent buffers for buses of the given widths. A unit without input buses
    /// gets none.
    pub fn new(
        inputs: &[ChannelLayout],
        outputs: &[ChannelLayout],
        block_size: u32,
        silence: T,
    ) -> (s: PushScratch<T>)
        requires
            block_size > 0,
        ensures
            s.wf(),
            s.input_widths@ == inputs@,
            s.output_widths@ == outputs@,
            s.block_size == block_size,
            s.sample_position == 0,
            s.silence == silence,
            forall|bus: int|
                0 <= bus < inputs@.len() ==> is_silent_bus(
                    (#[trigger] s.input_audio@[bus])@,
                    inputs@[bus].width() as int,
                    block_size as int,
                    silence,
                ),
            forall|bus: int|
                0 <= bus < outputs@.len() ==> is_silent_bus(
                    (#[trigger] s.output_audio@[bus])@,
                    outputs@[bus].width() as int,
                    block_size as int,
                    silence,
                ),
            forall|bus: int, w: int|
                0 <= bus < inputs@.len() && 0 <= w < s.input_slabs@[bus]@.len()
                    ==> #[trigger] s.input_slabs@[bus]@[w] == 0,
            forall|bus: int, w: int|
                0 <= bus < outputs@.len() && 0 <= w < s.output_slabs@[bus]@.len()
                    ==> #[trigger] s.output_slabs@[bus]@[w] == 0,
    {
        PushScratch {
            input_slabs: allocate_slabs(inputs),
            input_audio: allocate_audio(inputs, block_size, silence),
            output_slabs: allocate_slabs(outputs),
            output_audio: allocate_audio(outputs, block_size, silence),
            input_widths: vstd::slice::slice_to_vec(inputs),
            output_widths: vstd::slice::slice_to_vec(outputs),
            block_size,
            sample_position: 0,
            silence,
        }
    }

    /// How many frames the scratch was made for.
    pub fn block_size(&self) -> (n: u32)
        ensures
            n == self.block_size,
    {
        self.block_size
    }

    /// How many input buses the scratch has.
    pub fn input_bus_count(&self) -> (n: usize)
        ensures
            n == self.input_audio@.len(),
    {
        self.input_audio.len()
    }

    /// How many output buses the scratch has.
    pub fn output_bus_count(&self) -> (n: usize)
        ensures
            n == self.output_audio@.len(),
    {
        self.output_audio.len()
    }

    /// Sends the cursor back to zero.
    pub fn reset_position(&mut self)
        ensures
            final(self).sample_position == 0,
            final(self).input_audio == old(self).input_audio,
            final(self).output_audio == old(self).output_audio,
            final(self).input_slabs == old(self).input_slabs,
            final(self).output_slabs == old(self).output_slabs,
            final(self).same_shape(old(self)),
    {
        self.sample_position = 0;
    }

    /// Copies the caller's input into an input bus. What the caller does not
    /// supply, a channel or the end of one, is silenced over the block rather
    /// than left from the block before. `false` says that there is no such bus.
    pub fn stage_input(&mut self, bus: usize, src: &[&[T]], frames: u32) -> (staged: bool)
        requires
            old(self).wf(),
        ensures
            staged == (bus < old(self).input_audio@.len()),
            final(self).wf(),
            final(self).same_shape(old(self)),
            final(self).sample_position == old(self).sample_position,
            final(self).input_slabs == old(self).input_slabs,
            final(self).output_slabs == old(self).output_slabs,
            final(self).output_audio == old(self).output_audio,
            final(self).input_audio@.len() == old(self).input_audio@.len(),
            staged ==> bus_staged(
                old(self).input_audio@[bus as int]@,
                final(self).input_audio@[bus as int]@,
                src@,
                room(frames, old(self).block_size),
                old(self).silence,
            ),
            forall|b: int|
                0 <= b < old(self).input_audio@.len() && b != bus
                    ==> #[trigger] final(self).input_audio@[b] == old(self).input_audio@[b],
    {
        if bus >= self.input_audio.len() {
            return false;
        }
        let n: usize = if frames <= self.block_size {
            frames as usize
        } else {
            self.block_size as usize
        };
        let ghost held = self.input_audio@[bus as int]@;
        assert(bus_fits(held, self.input_widths@[bus as int].width() as int, self.block_size));
        let silence = self.silence;
        stage_bus(&mut self.input_audio[bus], src, n, silence);
        assert forall|b: int| 0 <= b < self.input_widths@.len() implies bus_fits(
            #[trigger] self.input_audio@[b]@,
            self.input_widths@[b].width() as int,
            self.block_size,
        ) by {
            if b != bus {
                assert(self.input_audio@[b] == old(self).input_audio@[b]);
            }
        }
        true
    }

    /// Copies an output bus into the caller's output, as far as the block, the
    /// caller's slices and the channels of the bus reach. `false` says that there
    /// is no such bus.
    pub fn emit_output(&self, bus: usize, dst: &mut [&mut [T]], frames: u32) -> (emitted_bus: bool)
        ensures
            emitted_bus == (bus < self.output_audio@.len()),
            final(dst)@.len() == old(dst)@.len(),
            forall|ch: int|
                0 <= ch < old(dst)@.len() ==> (*(#[trigger] final(dst)@[ch]))@ == (
                if emitted_bus {
                    emitted(
                        (*old(dst)@[ch])@,
                        self.output_audio@[bus as int]@,
                        ch,
                        room(frames, self.block_size) as u32,
                    )
                } else {
                    (*old(dst)@[ch])@
                }),
            forall|ch: int, i: int|
                0 <= ch < old(dst)@.len() && 0 <= i < (*old(dst)@[ch])@.len()
                    ==> #[trigger] (*final(dst)@[ch])@[i] == (if emitted_bus && ch
                    < self.output_audio@[bus as int]@.len() && i < frames && i < self.block_size && i
                    < self.output_audio@[bus as int]@[ch]@.len() {
                    self.output_audio@[bus as int]@[ch]@[i]
                } else {
                    (*old(dst)@[ch])@[i]
                }),
            forall|ch: int|
                0 <= ch < old(dst)@.len() ==> final(#[trigger] final(dst)@[ch])@
                    == final(old(dst)@[ch])@,
    {
        if bus >= self.output_audio.len() {
            return false;
        }
        let n: u32 = if frames <= self.block_size {
            frames
        } else {
            self.block_size
        };
        let channels = &self.output_audio[bus];
        let ghost before = dst@;
        let count: usize = dst.len();
        for ch in 0..count
            invariant
                count == before.len(),
                dst@.len() == count,
                forall|c: int|
                    0 <= c < ch ==> (*(#[trigger] dst@[c]))@ == emitted(
                        (*before[c])@,
                        channels@,
                        c,
                        n,
                    ),
                forall|c: int| ch <= c < count ==> #[trigger] dst@[c] == before[c],
                forall|c: int| 0 <= c < count ==> final(#[trigger] dst@[c])@ == final(before[c])@,
        {
            if ch < channels.len() {
                let src = &channels[ch];
                let len: usize = bounded(n, dst[ch].len(), src.len());
                copy_front(dst[ch], src.as_slice(), len);
            }
        }
        true
    }

    /// The position of the block about to be rendered; the cursor moves on by
    /// `frames`, and stays at the end of its range rather than wrapping.
    fn advance(&mut self, frames: u32) -> (start: u64)
        ensures
            start == old(self).sample_position,
            final(self).sample_position == smaller(
                old(self).sample_position + frames,
                u64::MAX as int,
            ),
            start + frames <= u64::MAX ==> final(self).sample_position == start + frames,
            final(self).input_audio == old(self).input_audio,
            final(self).output_audio == old(self).output_audio,
            final(self).input_slabs == old(self).input_slabs,
            final(self).output_slabs == old(self).output_slabs,
            final(self).same_shape(old(self)),
    {
        let start: u64 = self.sample_position;
        self.sample_position = start.saturating_add(frames as u64);
        start
    }
}

// ---------------------------------------------------------------------------
// Rendering
// ---------------------------------------------------------------------------
/// Whether a scratch can be rendered with the single-list call, and if not, why.
pub open spec fn push_refusal<T>(s: PushScratch<T>, frames: u32) -> Option<ErrorView> {
    if frames > s.block_size {
        Some(frames_refusal("frames"@, frames, s.block_size))
    } else if s.input_audio@.len() == 0 || s.output_audio@.len() == 0 {
        Some(
            ErrorView::InvalidBuffer {
                reason: "AudioUnitProcess needs one input bus and one output bus"@,
            },
        )
    } else {
        None
    }
}

/// Whether a scratch can be rendered with the many-list call, and if not, why.
pub open spec fn push_multiple_refusal<T>(s: PushScratch<T>, frames: u32) -> Option<ErrorView> {
    if frames > s.block_size {
        Some(frames_refusal("frames"@, frames, s.block_size))
    } else if s.output_audio@.len() == 0 {
        Some(
            ErrorView::InvalidBuffer {
                reason: "AudioUnitProcessMultiple needs at least one output bus"@,
            },
        )
    } else {
        None
    }
}

/// What a finished push render comes to: the render's flags, or the failure of
/// the call with what the unit recorded of it.
pub open spec fn push_outcome(
    function: Seq<char>,
    status: i32,
    last_render_error: Option<i32>,
    flags: u32,
) -> Result<u32, ErrorView> {
    if status == NO_ERR {
        Ok(flags)
    } else {
        Err(ErrorView::RenderFailed { function, code: status, last_render_error })
    }
}

/// Whether every channel of every bus is silenced over the first `n` frames.
pub open spec fn buses_silenced<T>(
    before: Seq<Vec<Vec<T>>>,
    after: Seq<Vec<Vec<T>>>,
    n: int,
    silence: T,
) -> bool {
    &&& after.len() == before.len()
    &&& forall|bus: int|
        0 <= bus < before.len() ==> bus_copied(
            before[bus]@,
            (#[trigger] after[bus])@,
            Seq::empty(),
            true,
            n,
            silence,
        )
}

fn silence_buses<T: Copy>(buses: &mut Vec<Vec<Vec<T>>>, n: usize, silence: T)
    ensures
        buses_silenced(old(buses)@, final(buses)@, n as int, silence),
{
    let ghost before = buses@;
    let count: usize = buses.len();
    let nothing: Vec<Vec<T>> = Vec::new();
    for bus in 0..count
        invariant
            count == before.len(),
            nothing@ == Seq::<Vec<T>>::empty(),
            buses@.len() == before.len(),
            forall|b: int|
                0 <= b < bus ==> bus_copied(
                    before[b]@,
                    (#[trigger] buses@[b])@,
                    Seq::empty(),
                    true,
                    n as int,
                    silence,
                ),
            forall|b: int| bus <= b < before.len() ==> #[trigger] buses@[b] == before[b],
    {
        copy_bus(&mut buses[bus], &nothing, true, n, silence);
    }
}

impl<T: Copy> PushScratch<T> {
    /// Prepares a render with the single-list call: the input lists point at
    /// their buffers and the block's position is taken. The first input list is
    /// what the call reads, and writes its result over.
    ///
    /// `addresses` are those of the input buffers, by bus.
    pub fn begin_process_push(&mut self, addresses: &Vec<Vec<u64>>, frames: u32) -> (r: Result<
        u64,
        AuError,
    >)
        requires
            old(self).wf(),
            addresses@.len() == old(self).input_audio@.len(),
        ensures
            final(self).wf(),
            final(self).same_shape(old(self)),
            final(self).input_audio == old(self).input_audio,
            final(self).output_audio == old(self).output_audio,
            final(self).output_slabs == old(self).output_slabs,
            push_refusal(*old(self), frames) matches Some(e) ==> outcome(r) == Err::<u64, ErrorView>(
                e,
            ) && final(self).input_slabs == old(self).input_slabs && final(self).sample_position
                == old(self).sample_position,
            push_refusal(*old(self), frames) is None ==> r == Ok::<u64, AuError>(
                old(self).sample_position,
            ) && buses_bound(
                old(self).input_slabs@,
                final(self).input_slabs@,
                old(self).input_widths@,
                addresses@,
                frames,
            ) && final(self).sample_position == smaller(
                old(self).sample_position + frames,
                u64::MAX as int,
            ),
            r is Ok && old(self).sample_position + frames <= u64::MAX
                ==> final(self).sample_position == old(self).sample_position + frames,
    {
        match check_frames("frames", frames, self.block_size) {
            Err(e) => {
                return Err(e);
            },
            Ok(()) => {},
        }
        if self.input_audio.len() == 0 || self.output_audio.len() == 0 {
            return Err(
                AuError::InvalidBuffer(
                    "AudioUnitProcess needs one input bus and one output bus".to_owned(),
                ),
            );
        }
        bind_buses(&mut self.input_slabs, &self.input_widths, addresses, frames);
        Ok(self.advance(frames))
    }

    /// Finishes a render with the single-list call: its result, which stands in
    /// the first input bus, is copied to the first output bus; where the unit
    /// says it is silent, silence is written instead.
    pub fn finish_process_push(
        &mut self,
        status: i32,
        last_render_error: Option<i32>,
        flags: u32,
        frames: u32,
    ) -> (r: Result<u32, AuError>)
        requires
            old(self).wf(),
        ensures
            outcome(r) == push_outcome("AudioUnitProcess"@, status, last_render_error, flags),
            final(self).wf(),
            final(self).same_shape(old(self)),
            final(self).sample_position == old(self).sample_position,
            final(self).input_slabs == old(self).input_slabs,
            final(self).output_slabs == old(self).output_slabs,
            final(self).input_audio == old(self).input_audio,
            final(self).output_audio@.len() == old(self).output_audio@.len(),
            forall|b: int|
                1 <= b < old(self).output_audio@.len() ==> #[trigger] final(self).output_audio@[b]
                    == old(self).output_audio@[b],
            status != NO_ERR ==> final(self).output_audio == old(self).output_audio,
            status == NO_ERR && old(self).input_audio@.len() > 0 && old(self).output_audio@.len() > 0
                ==> bus_copied(
                old(self).output_audio@[0]@,
                final(self).output_audio@[0]@,
                old(self).input_audio@[0]@,
                says_silence(flags),
                room(frames, old(self).block_size),
                old(self).silence,
            ),
    {
        if status != NO_ERR {
            return Err(AuError::render_failed("AudioUnitProcess", status, last_render_error));
        }
        let silent = output_is_silence(flags);
        self.copy_in_bus0_to_out_bus0(silent, frames);
        Ok(flags)
    }

    fn copy_in_bus0_to_out_bus0(&mut self, silent: bool, frames: u32)
        requires
            old(self).wf(),
        ensures
            final(self).wf(),
            final(self).same_shape(old(self)),
            final(self).sample_position == old(self).sample_position,
            final(self).input_slabs == old(self).input_slabs,
            final(self).output_slabs == old(self).output_slabs,
            final(self).input_audio == old(self).input_audio,
            final(self).output_audio@.len() == old(self).output_audio@.len(),
            forall|b: int|
                1 <= b < old(self).output_audio@.len() ==> #[trigger] final(self).output_audio@[b]
                    == old(self).output_audio@[b],
            old(self).input_audio@.len() > 0 && old(self).output_audio@.len() > 0 ==> bus_copied(
                old(self).output_audio@[0]@,
                final(self).output_audio@[0]@,
                old(self).input_audio@[0]@,
                silent,
                room(frames, old(self).block_size),
                old(self).silence,
            ),
    {
        if self.input_audio.len() == 0 || self.output_audio.len() == 0 {
            return;
        }
        let n: usize = if frames <= self.block_size {
            frames as usize
        } else {
            self.block_size as usize
        };
        let silence = self.silence;
        assert(bus_fits(
            self.output_audio@[0]@,
            self.output_widths@[0].width() as int,
            self.block_size,
        ));
        copy_bus(&mut self.output_audio[0], &self.input_audio[0], silent, n, silence);
        assert forall|b: int| 0 <= b < self.output_widths@.len() implies bus_fits(
            #[trigger] self.output_audio@[b]@,
            self.output_widths@[b].width() as int,
            self.block_size,
        ) by {
            if b != 0 {
                assert(self.output_audio@[b] == old(self).output_audio@[b]);
            }
        }
    }

    /// Prepares a render with the many-list call: every input and output list
    /// points at its buffers and the block's position is taken. Input and output
    /// do not share memory.
    pub fn begin_process_push_multiple(
        &mut self,
        input_addresses: &Vec<Vec<u64>>,
        output_addresses: &Vec<Vec<u64>>,
        frames: u32,
    ) -> (r: Result<u64, AuError>)
        requires
            old(self).wf(),
            input_addresses@.len() == old(self).input_audio@.len(),
            output_addresses@.len() == old(self).output_audio@.len(),
        ensures
            final(self).wf(),
            final(self).same_shape(old(self)),
            final(self).input_audio == old(self).input_audio,
            final(self).output_audio == old(self).output_audio,
            push_multiple_refusal(*old(self), frames) matches Some(e) ==> outcome(r) == Err::<
                u64,
                ErrorView,
            >(e) && final(self).input_slabs == old(self).input_slabs && final(self).output_slabs
                == old(self).output_slabs && final(self).sample_position
                == old(self).sample_position,
            push_multiple_refusal(*old(self), frames) is None ==> r == Ok::<u64, AuError>(
                old(self).sample_position,
            ) && buses_bound(
                old(self).input_slabs@,
                final(self).input_slabs@,
                old(self).input_widths@,
                input_addresses@,
                frames,
            ) && buses_bound(
                old(self).output_slabs@,
                final(self).output_slabs@,
                old(self).output_widths@,
                output_addresses@,
                frames,
            ) && final(self).sample_position == smaller(
                old(self).sample_position + frames,
                u64::MAX as int,
            ),
            r is Ok && old(self).sample_position + frames <= u64::MAX
                ==> final(self).sample_position == old(self).sample_position + frames,
    {
        match check_frames("frames", frames, self.block_size) {
            Err(e) => {
                return Err(e);
            },
            Ok(()) => {},
        }
        if self.output_audio.len() == 0 {
            return Err(
                AuError::InvalidBuffer(
                    "AudioUnitProcessMultiple needs at least one output bus".to_owned(),
                ),
            );
        }
        bind_buses(&mut self.input_slabs, &self.input_widths, input_addresses, frames);
        bind_buses(&mut self.output_slabs, &self.output_widths, output_addresses, frames);
        Ok(self.advance(frames))
    }

    /// Finishes a render with the many-list call. The unit wrote into the output
    /// buses itself; where it says they are silent, silence is written over them.
    pub fn finish_process_push_multiple(
        &mut self,
        status: i32,
        last_render_error: Option<i32>,
        flags: u32,
        frames: u32,
    ) -> (r: Result<u32, AuError>)
        requires
            old(self).wf(),
        ensures
            outcome(r) == push_outcome(
                "AudioUnitProcessMultiple"@,
                status,
                last_render_error,
                flags,
            ),
            final(self).wf(),
            final(self).same_shape(old(self)),
            final(self).sample_position == old(self).sample_position,
            final(self).input_slabs == old(self).input_slabs,
            final(self).output_slabs == old(self).output_slabs,
            final(self).input_audio == old(self).input_audio,
            status != NO_ERR || !says_silence(flags) ==> final(self).output_audio
                == old(self).output_audio,
            status == NO_ERR && says_silence(flags) ==> buses_silenced(
                old(self).output_audio@,
                final(self).output_audio@,
                room(frames, old(self).block_size),
                old(self).silence,
            ),
    {
        if status != NO_ERR {
            return Err(
                AuError::render_failed("AudioUnitProcessMultiple", status, last_render_error),
            );
        }
        if output_is_silence(flags) {
            let n: usize = if frames <= self.block_size {
                frames as usize
            } else {
                self.block_size as usize
            };
            let silence = self.silence;
            silence_buses(&mut self.output_audio, n, silence);
            assert forall|b: int| 0 <= b < self.output_widths@.len() implies bus_fits(
                #[trigger] self.output_audio@[b]@,
                self.output_widths@[b].width() as int,
                self.block_size,
            ) by {
                assert(bus_fits(
                    old(self).output_audio@[b]@,
                    self.output_widths@[b].width() as int,
                    self.block_size,
                ));
            }
        }
        Ok(flags)
    }

    /// The byte sizes that the unit left in the output lists, bus after bus. A
    /// unit that rendered fewer frames than it was asked for says so here.
    pub fn output_byte_sizes(&self) -> (sizes: Vec<u32>)
        ensures
            sizes@ == all_stated_sizes(self.output_slabs@),
    {
        let mut sizes: Vec<u32> = Vec::new();
        assert(all_stated_sizes(self.output_slabs@.take(0)) =~= sizes@);
        for bus in 0..self.output_slabs.len()
            invariant
                sizes@ == all_stated_sizes(self.output_slabs@.take(bus as int)),
        {
            push_stated_sizes(self.output_slabs[bus].as_slice(), &mut sizes);
            assert(self.output_slabs@.take(bus + 1).drop_last() =~= self.output_slabs@.take(
                bus as int,
            ));
        }
        assert(self.output_slabs@.take(self.output_slabs@.len() as int) =~= self.output_slabs@);
        sizes
    }
}

/// The byte sizes that several lists state, one list after the other.
pub open spec fn all_stated_sizes(slabs: Seq<Vec<u64>>) -> Seq<u32>
    decreases slabs.len(),
{
    if slabs.len() == 0 {
        Seq::empty()
    } else {
        all_stated_sizes(slabs.drop_last()) + stated_sizes(slabs.last()@)
    }
}

/// Lists that are still zero state no sizes: nothing is read off a scratch that
/// was never rendered with.
pub proof fn fresh_lists_state_no_sizes(slabs: Seq<Vec<u64>>)
    requires
        forall|bus: int| 0 <= bus < slabs.len() ==> (#[trigger] slabs[bus])@.len() > 0,
        forall|bus: int, w: int|
            0 <= bus < slabs.len() && 0 <= w < slabs[bus]@.len() ==> #[trigger] slabs[bus]@[w] == 0,
    ensures
        all_stated_sizes(slabs) == Seq::<u32>::empty(),
    decreases slabs.len(),
{
    if slabs.len() > 0 {
        let front = slabs.drop_last();
        assert forall|bus: int, w: int|
            0 <= bus < front.len() && 0 <= w < front[bus]@.len() implies #[trigger] front[bus]@[w]
            == 0 by {
            assert(slabs[bus]@[w] == 0);
        }
        fresh_lists_state_no_sizes(front);
        assert(slabs[slabs.len() - 1]@[0] == 0);
        assert(stated_sizes(slabs.last()@) =~= Seq::<u32>::empty());
    }
}

/// Nothing of an earlier block outlives a staging: over the frames of the block,
/// what a staged bus holds depends on what the caller supplied alone.
pub proof fn staging_leaves_nothing_stale<T>(
    a: Seq<Vec<T>>,
    b: Seq<Vec<T>>,
    after_a: Seq<Vec<T>>,
    after_b: Seq<Vec<T>>,
    src: Seq<&[T]>,
    frames: u32,
    block_size: u32,
    silence: T,
    ch: int,
    i: int,
)
    requires
        bus_fits(a, a.len() as int, block_size),
        bus_fits(b, a.len() as int, block_size),
        bus_staged(a, after_a, src, room(frames, block_size), silence),
        bus_staged(b, after_b, src, room(frames, block_size), silence),
        0 <= ch < a.len(),
        0 <= i < room(frames, block_size),
    ensures
        after_a[ch]@[i] == after_b[ch]@[i],
{
    assert(after_a[ch]@.len() == block_size);
    assert(after_b[ch]@.len() == block_size);
}

/// A block has room for the frames asked for, up to its size.
pub proof fn a_block_bounds_the_frames(frames: u32, block_size: u32, i: nat)
    ensures
        i < room(frames, block_size) <==> i < frames && i < block_size,
{
}

/// Staging a bus: within the block every channel holds the caller's samples, and
/// silence where the caller supplies none; beyond it nothing changes.
pub proof fn a_staged_bus_holds_what_was_supplied<T>(
    before: Seq<Vec<T>>,
    after: Seq<Vec<T>>,
    src: Seq<&[T]>,
    n: int,
    silence: T,
    ch: int,
    i: int,
)
    requires
        bus_staged(before, after, src, n, silence),
        0 <= ch < before.len(),
        0 <= i < before[ch]@.len(),
    ensures
        after.len() == before.len(),
        after[ch]@.len() == before[ch]@.len(),
        i < n && ch < src.len() && i < src[ch]@.len() ==> after[ch]@[i] == src[ch]@[i],
        i < n && (ch >= src.len() || i >= src[ch]@.len()) ==> after[ch]@[i] == silence,
        i >= n ==> after[ch]@[i] == before[ch]@[i],
{
}

/// Taking over what a unit rendered: within the block every channel holds the
/// rendered samples, or silence where the render says so or rendered none; beyond
/// it nothing changes.
pub proof fn a_copied_bus_holds_what_was_rendered<T>(
    before: Seq<Vec<T>>,
    after: Seq<Vec<T>>,
    rendered: Seq<Vec<T>>,
    silent: bool,
    n: int,
    silence: T,
    ch: int,
    i: int,
)
    requires
        bus_copied(before, after, rendered, silent, n, silence),
        0 <= ch < before.len(),
        0 <= i < before[ch]@.len(),
    ensures
        after.len() == before.len(),
        after[ch]@.len() == before[ch]@.len(),
        i < n && !silent && ch < rendered.len() && i < rendered[ch]@.len() ==> after[ch]@[i]
            == rendered[ch]@[i],
        i < n && (silent || ch >= rendered.len() || i >= rendered[ch]@.len()) ==> after[ch]@[i]
            == silence,
        i >= n ==> after[ch]@[i] == before[ch]@[i],
{
}

/// Silencing: every sample of every channel of every bus within the block.
pub proof fn silenced_buses_are_silent<T>(
    before: Seq<Vec<Vec<T>>>,
    after: Seq<Vec<Vec<T>>>,
    n: int,
    silence: T,
    bus: int,
    ch: int,
    i: int,
)
    requires
        buses_silenced(before, after, n, silence),
        0 <= bus < before.len(),
        0 <= ch < before[bus]@.len(),
        0 <= i < before[bus]@[ch]@.len(),
    ensures
        after.len() == before.len(),
        after[bus]@.len() == before[bus]@.len(),
        after[bus]@[ch]@.len() == before[bus]@[ch]@.len(),
        i < n ==> after[bus]@[ch]@[i] == silence,
        i >= n ==> after[bus]@[ch]@[i] == before[bus]@[ch]@[i],
{
    assert(bus_copied(before[bus]@, after[bus]@, Seq::empty(), true, n, silence));
}

/// Binding buses: the list of every bus announces its width and describes each of
/// its buffers.
pub proof fn every_bus_is_bound(
    before: Seq<Vec<u64>>,
    after: Seq<Vec<u64>>,
    widths: Seq<ChannelLayout>,
    addresses: Seq<Vec<u64>>,
    frames: u32,
    bus: int,
    ch: int,
)
    requires
        buses_bound(before, after, widths, addresses, frames),
        0 <= bus < before.len(),
        0 <= ch < addresses[bus]@.len(),
        ch < widths[bus].width(),
    ensures
        after.len() == before.len(),
        after[bus]@[0] == widths[bus].width(),
        after[bus]@[1 + 2 * ch] % 0x1_0000_0000 == 1,
        4 * frames <= u32::MAX ==> after[bus]@[1 + 2 * ch] / 0x1_0000_0000 == 4 * frames,
        after[bus]@[2 + 2 * ch] == addresses[bus]@[ch],
{
    a_bound_list_describes_each_buffer(
        before[bus]@,
        after[bus]@,
        widths[bus].width(),
        addresses[bus]@,
        frames,
        ch,
    );
}

/// A render with one list is refused for a block that is too large and for a
/// missing side, and for nothing else; with many lists, only an output is needed.
/// The size is what is complained of first.
pub proof fn a_push_is_refused_for_a_reason<T>(s: PushScratch<T>, frames: u32)
    ensures
        push_refusal(s, frames) is None <==> frames <= s.block_size && s.input_audio@.len() > 0
            && s.output_audio@.len() > 0,
        push_multiple_refusal(s, frames) is None <==> frames <= s.block_size
            && s.output_audio@.len() > 0,
        push_refusal(s, frames) is Some ==> push_refusal(s, frames)->0 is InvalidBuffer,
        push_multiple_refusal(s, frames) is Some ==> push_multiple_refusal(s, frames)->0
            is InvalidBuffer,
        frames > s.block_size ==> push_refusal(s, frames) == push_multiple_refusal(s, frames)
            && push_refusal(s, frames) == Some(frames_refusal("frames"@, frames, s.block_size)),
        frames <= s.block_size && push_refusal(s, frames) is Some ==> push_refusal(s, frames)->0
            == (ErrorView::InvalidBuffer {
            reason: "AudioUnitProcess needs one input bus and one output bus"@,
        }),
        frames <= s.block_size && push_multiple_refusal(s, frames) is Some
            ==> push_multiple_refusal(s, frames)->0 == (ErrorView::InvalidBuffer {
            reason: "AudioUnitProcessMultiple needs at least one output bus"@,
        }),
{
}

/// A push render comes to its flags exactly where the call succeeded; a failed
/// one is reported with its own status and what the unit recorded.
pub proof fn a_failed_push_is_reported(
    function: Seq<char>,
    status: i32,
    last: Option<i32>,
    flags: u32,
)
    ensures
        push_outcome(function, status, last, flags) is Ok <==> status == 0,
        status == 0 ==> push_outcome(function, status, last, flags)->Ok_0 == flags,
        status != 0 ==> {
            let e = push_outcome(function, status, last, flags)->Err_0;
            &&& e is RenderFailed
            &&& e->RenderFailed_function == function
            &&& e->RenderFailed_code == status
            &&& e->last_render_error == last
        },
{
}

/// A render says that it is silent by the fifth bit of its flags.
pub proof fn silence_is_one_flag(flags: u32)
    ensures
        says_silence(flags) <==> flags / 16 % 2 == 1,
{
    assert(flags & 16 != 0 <==> flags / 16 % 2 == 1) by (bit_vector);
}

/// Buffers of a scratch: one list and one set of channels for each bus, of its
/// width, and every channel as long as a block, which is not empty.
pub proof fn a_scratch_fits_its_buses<T: Copy>(s: PushScratch<T>, bus: int, ch: int)
    requires
        s.wf(),
        0 <= bus,
        0 <= ch,
    ensures
        s.block_size > 0,
        s.input_audio@.len() == s.input_widths@.len(),
        s.input_slabs@.len() == s.input_widths@.len(),
        s.output_audio@.len() == s.output_widths@.len(),
        s.output_slabs@.len() == s.output_widths@.len(),
        bus < s.input_widths@.len() ==> s.input_audio@[bus]@.len() == s.input_widths@[bus].width()
            && 8 * s.input_slabs@[bus]@.len() >= 8 + 16 * s.input_widths@[bus].width() && (ch
            < s.input_audio@[bus]@.len() ==> s.input_audio@[bus]@[ch]@.len() == s.block_size),
        bus < s.output_widths@.len() ==> s.output_audio@[bus]@.len() == s.output_widths@[bus].width()
            && 8 * s.output_slabs@[bus]@.len() >= 8 + 16 * s.output_widths@[bus].width() && (ch
            < s.output_audio@[bus]@.len() ==> s.output_audio@[bus]@[ch]@.len() == s.block_size),
{
    if bus < s.input_widths@.len() {
        assert(bus_fits(s.input_audio@[bus]@, s.input_widths@[bus].width() as int, s.block_size));
        assert(s.input_slabs@[bus]@.len() == slab_words(s.input_widths@[bus].width() as int));
    }
    if bus < s.output_widths@.len() {
        assert(bus_fits(s.output_audio@[bus]@, s.output_widths@[bus].width() as int, s.block_size));
        assert(s.output_slabs@[bus]@.len() == slab_words(s.output_widths@[bus].width() as int));
    }
}

/// The sizes of all buses are those of the first ones, followed by those of the
/// last.
pub proof fn sizes_are_stated_bus_after_bus(slabs: Seq<Vec<u64>>)
    requires
        slabs.len() > 0,
    ensures
        all_stated_sizes(slabs) == all_stated_sizes(slabs.take(slabs.len() - 1)) + stated_sizes(
            slabs[slabs.len() - 1]@,
        ),
        all_stated_sizes(slabs.take(0)).len() == 0,
{
    assert(slabs.drop_last() =~= slabs.take(slabs.len() - 1));
}

/// What is refused says what was asked for and what there is.
pub proof fn a_refusal_names_both_numbers(name: Seq<char>, frames: u32, limit: u32)
    ensures
        frames_refusal(name, frames, limit) == (ErrorView::InvalidBuffer {
            reason: name + " ("@ + decimal(frames as int) + ") > block_size ("@ + decimal(
                limit as int,
            ) + ")"@,
        }),
        quality_refusal(frames) == (ErrorView::InvalidBuffer {
            reason: "render quality "@ + decimal(frames as int) + " exceeds the maximum "@
                + decimal(127),
        }),
{
}

/// What a render leaves alone: the widths of the buses, the size of a block and the
/// silence value.
pub proof fn a_shape_is_widths_size_and_silence<T: Copy>(a: PushScratch<T>, b: PushScratch<T>)
    requires
        a.same_shape(&b),
    ensures
        a.input_widths == b.input_widths,
        a.output_widths == b.output_widths,
        a.block_size == b.block_size,
        a.silence == b.silence,
{
}

} // verus!
