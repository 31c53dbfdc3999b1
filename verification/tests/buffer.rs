use tutti_au_host::buffer::{
    buffer_list_bytes, byte_size, input_frames, push_stated_sizes, render_input, written_bytes,
    IoBuffer, RenderBufferList, RenderScratch, AUDIO_BUFFER_SIZE, BUFFER_LIST_HEADER,
    BUFFER_LIST_SIZE,
};
use tutti_au_host::bus::ChannelLayout;
use tutti_au_host::stream::AuBusLayout;
use tutti_au_host::types::NO_ERR;

fn stereo_layout() -> AuBusLayout {
    AuBusLayout {
        inputs: ChannelLayout::stereo(),
        outputs: ChannelLayout::stereo(),
        has_input: true,
    }
}

fn stereo_scratch(block: u32) -> RenderScratch<f32> {
    RenderScratch::new(stereo_layout(), block, 0.0f32)
}

fn narrow(s: f64) -> f32 {
    s as f32
}

fn widen(s: f32) -> f64 {
    s as f64
}

#[test]
fn buffer_list_size_matches_the_c_abi() {
    assert_eq!(AUDIO_BUFFER_SIZE, 16);
    assert_eq!(BUFFER_LIST_HEADER, 8);
    assert_eq!(BUFFER_LIST_SIZE, 24);

    assert!(
        BUFFER_LIST_HEADER > std::mem::size_of::<u32>(),
        "if these were equal the old formula would have been correct"
    );
    assert!(buffer_list_bytes(1) >= BUFFER_LIST_SIZE);

    for n in 0..=8usize {
        assert_eq!(
            buffer_list_bytes(n),
            BUFFER_LIST_HEADER + n * AUDIO_BUFFER_SIZE,
        );
    }
    assert_eq!(buffer_list_bytes(2), 40);
    assert_eq!(buffer_list_bytes(1), 24);
}

#[test]
fn slab_is_large_enough_and_aligned() {
    for layout in [
        ChannelLayout::mono(),
        ChannelLayout::stereo(),
        ChannelLayout::quad(),
        ChannelLayout::new(8),
    ] {
        let list = RenderBufferList::new(layout);
        let n = layout.count() as usize;
        let required = BUFFER_LIST_HEADER + n * AUDIO_BUFFER_SIZE;
        let bytes = std::mem::size_of_val(list.storage.as_slice());
        assert!(
            bytes >= required,
            "slab {bytes} bytes < required {required} for {n} channels"
        );
        assert_eq!(
            list.storage.as_ptr() as usize % std::mem::align_of::<u64>(),
            0,
            "slab must be aligned for a buffer list"
        );
    }
}

#[test]
fn the_render_cursor_advances_and_restarts() {
    let mut scratch = stereo_scratch(64);

    assert_eq!(scratch.position(), 0, "a fresh cursor starts at zero");
    assert_eq!(scratch.advance(64), 0, "the first block starts at frame 0");
    assert_eq!(scratch.advance(64), 64, "the second starts one block on");
    assert_eq!(scratch.position(), 128);

    scratch.reset_position();
    assert_eq!(scratch.position(), 0);
    assert_eq!(scratch.advance(64), 0);
    assert_eq!(scratch.advance(64), 64);
}

#[test]
fn the_cursor_stays_at_the_end_of_its_range() {
    let mut scratch = stereo_scratch(64);
    scratch.sample_position = u64::MAX - 10;
    assert_eq!(scratch.advance(64), u64::MAX - 10);
    assert_eq!(scratch.position(), u64::MAX);
}

#[test]
fn f64_staging_round_trips_through_the_f32_scratch() {
    let mut scratch = stereo_scratch(4);

    let l: [f64; 4] = [0.25, -0.5, 0.75, -1.0];
    let r: [f64; 4] = [1.0, 0.5, -0.25, 0.125];
    scratch.stage_input_f64(&[&l[..], &r[..]], 4, narrow);

    assert_eq!(scratch.inputs[0][..4], [0.25f32, -0.5, 0.75, -1.0]);
    assert_eq!(scratch.inputs[1][..4], [1.0f32, 0.5, -0.25, 0.125]);

    scratch.outputs[0][..4].copy_from_slice(&[0.25, -0.5, 0.75, -1.0]);
    scratch.outputs[1][..4].copy_from_slice(&[1.0, 0.5, -0.25, 0.125]);

    let (mut out_l, mut out_r) = ([0.0f64; 4], [0.0f64; 4]);
    let mut outs: Vec<&mut [f64]> = vec![&mut out_l, &mut out_r];
    scratch.emit_output_f64(&mut outs, 4, widen);

    assert_eq!(out_l, [0.25, -0.5, 0.75, -1.0]);
    assert_eq!(out_r, [1.0, 0.5, -0.25, 0.125]);
}

#[test]
fn f64_staging_narrows_to_the_aus_own_precision() {
    const EXACT: f64 = 1.0 + f64::EPSILON;
    assert_ne!(
        EXACT as f32 as f64, EXACT,
        "the fixture is vacuous unless this value actually rounds in f32"
    );

    let mut scratch = stereo_scratch(4);
    let src = [EXACT; 4];
    scratch.stage_input_f64(&[&src[..]], 4, narrow);

    assert_eq!(
        scratch.inputs[0][0], EXACT as f32,
        "staged at the AU's precision, not the caller's"
    );
}

#[test]
fn f64_staging_is_bounded_on_both_sides() {
    let mut scratch = stereo_scratch(8);

    let short = [1.0f64; 3];
    scratch.stage_input_f64(&[&short[..]], 8, narrow);
    assert_eq!(&scratch.inputs[0][..3], &[1.0f32; 3]);

    let long = [2.0f64; 32];
    scratch.stage_input_f64(&[&long[..]], 8, narrow);
    assert_eq!(&scratch.inputs[0][..8], &[2.0f32; 8]);

    for ch in scratch.outputs.iter_mut() {
        ch.fill(0.5);
    }

    let mut out_short = [0.0f64; 3];
    let mut outs: Vec<&mut [f64]> = vec![&mut out_short];
    scratch.emit_output_f64(&mut outs, 8, widen);
    assert_eq!(out_short, [0.5f64; 3], "filled as far as the caller goes");

    let mut out_long = [-1.0f64; 12];
    let mut outs: Vec<&mut [f64]> = vec![&mut out_long];
    scratch.emit_output_f64(&mut outs, 8, widen);
    assert_eq!(&out_long[..8], &[0.5f64; 8]);
    assert!(
        out_long[8..].iter().all(|&v| v == -1.0),
        "past the block stays untouched"
    );
}

#[test]
fn f64_staging_ignores_channels_the_scratch_lacks() {
    let mut scratch = RenderScratch::new(
        AuBusLayout {
            inputs: ChannelLayout::mono(),
            outputs: ChannelLayout::mono(),
            has_input: true,
        },
        4,
        0.0f32,
    );

    let (a, b) = ([1.0f64; 4], [2.0f64; 4]);
    scratch.stage_input_f64(&[&a[..], &b[..]], 4, narrow);
    assert_eq!(&scratch.inputs[0][..4], &[1.0f32; 4]);

    scratch.outputs[0][..4].fill(0.25);
    let (mut out_a, mut out_b) = ([0.0f64; 4], [-1.0f64; 4]);
    let mut outs: Vec<&mut [f64]> = vec![&mut out_a, &mut out_b];
    scratch.emit_output_f64(&mut outs, 4, widen);

    assert_eq!(out_a, [0.25f64; 4]);
    assert_eq!(out_b, [-1.0f64; 4], "channel 1 has no scratch behind it");
}

#[test]
fn staging_and_emitting_are_bounded_on_all_sides() {
    let mut scratch = stereo_scratch(4);
    let (a, b, c) = ([1.0f32; 2], [2.0f32; 8], [3.0f32; 4]);
    scratch.stage_input(&[&a[..], &b[..], &c[..]], 3);
    assert_eq!(scratch.inputs[0], vec![1.0, 1.0, 0.0, 0.0]);
    assert_eq!(scratch.inputs[1], vec![2.0, 2.0, 2.0, 0.0]);

    scratch.outputs[0].copy_from_slice(&[5.0, 6.0, 7.0, 8.0]);
    let (mut out_a, mut out_b, mut out_c) = ([0.0f32; 2], [0.0f32; 8], [9.0f32; 1]);
    let mut outs: Vec<&mut [f32]> = vec![&mut out_a, &mut out_b, &mut out_c];
    scratch.emit_output(&mut outs, 3);
    assert_eq!(out_a, [5.0, 6.0]);
    assert_eq!(out_b, [0.0; 8]);
    assert_eq!(out_c, [9.0], "a channel the scratch lacks is left alone");
}

#[test]
fn a_unit_without_input_still_has_input_buffers() {
    let scratch = RenderScratch::new(
        AuBusLayout {
            inputs: ChannelLayout::new(0),
            outputs: ChannelLayout::stereo(),
            has_input: false,
        },
        16,
        0.0f32,
    );
    assert_eq!(scratch.outputs.len(), 2);
    assert_eq!(scratch.inputs.len(), 2);
    assert!(scratch.inputs.iter().all(|ch| ch.len() == 16));
}

#[test]
fn bind_writes_stay_inside_the_slab() {
    for layout in [
        ChannelLayout::mono(),
        ChannelLayout::stereo(),
        ChannelLayout::new(6),
    ] {
        let n = layout.count() as usize;
        let mut list = RenderBufferList::new(layout);
        let words = list.storage.len();
        let addresses: Vec<u64> = (0..n as u64).map(|ch| 0x7000 + 64 * ch).collect();
        list.bind(&addresses, 64);

        assert_eq!(list.storage.len(), words);
        assert_eq!(list.storage[0] as usize, n);
        for ch in 0..n {
            let start = BUFFER_LIST_HEADER + ch * AUDIO_BUFFER_SIZE;
            assert!(start + AUDIO_BUFFER_SIZE <= 8 * words);
            let head = list.storage[1 + 2 * ch];
            assert_eq!(head as u32, 1, "one channel per buffer");
            assert_eq!((head >> 32) as u32, 64 * 4);
            assert_eq!(list.storage[2 + 2 * ch], addresses[ch]);
        }
    }
}

#[test]
fn a_bound_list_states_the_sizes_it_was_bound_with() {
    let mut list = RenderBufferList::new(ChannelLayout::new(3));
    list.bind(&[1, 2, 3], 10);
    let mut sizes = vec![7u32];
    push_stated_sizes(&list.storage, &mut sizes);
    assert_eq!(sizes, vec![7, 40, 40, 40]);

    let mut none: Vec<u32> = Vec::new();
    push_stated_sizes(&[], &mut none);
    push_stated_sizes(&[0, 0, 0], &mut none);
    assert!(none.is_empty());
}

#[test]
fn a_huge_frame_count_does_not_wrap() {
    assert_eq!(byte_size(512), 2048);
    assert_eq!(byte_size(u32::MAX / 4), u32::MAX - 3);
    assert_eq!(byte_size(u32::MAX), u32::MAX);
}

#[test]
fn the_offered_size_bounds_what_is_written() {
    assert_eq!(input_frames(64, 1, 32), 8);
    assert_eq!(input_frames(4, 1, 32), 4);
    assert_eq!(input_frames(64, 2, 32), 4);
    assert_eq!(input_frames(64, 0, 32), 8);
    assert_eq!(written_bytes(4, 2, 32), 32);
    assert_eq!(written_bytes(3, 0, 32), 12);
}

fn sentinel() -> f32 {
    f32::from_bits(0xDEAD_BEEF)
}

fn io(samples: usize, byte_size: u32) -> IoBuffer<f32> {
    IoBuffer {
        number_channels: 1,
        data_byte_size: byte_size,
        data: Some(vec![sentinel(); samples]),
    }
}

#[test]
fn render_callback_respects_a_short_buffer() {
    let scratch = stereo_scratch(512);
    const CAPACITY: usize = 8;
    const REQUESTED: u32 = 64;
    let mut list = vec![io(32, (CAPACITY * 4) as u32)];

    let status = render_input(Some(&scratch), REQUESTED, Some(&mut list));
    assert_eq!(status, NO_ERR);

    let chan = list[0].data.as_ref().unwrap();
    for (i, s) in chan.iter().enumerate().skip(CAPACITY) {
        assert_eq!(
            s.to_bits(),
            0xDEAD_BEEF,
            "frame {i} past the declared {CAPACITY}-frame capacity was overwritten"
        );
    }
    assert!(chan[..CAPACITY].iter().all(|s| *s == 0.0));
    assert_eq!(list[0].data_byte_size as usize, CAPACITY * 4);
}

#[test]
fn render_callback_survives_a_null_buffer() {
    let scratch = stereo_scratch(512);
    let mut list = vec![IoBuffer::<f32> {
        number_channels: 1,
        data_byte_size: 256,
        data: None,
    }];

    let status = render_input(Some(&scratch), 64, Some(&mut list));
    assert_eq!(status, NO_ERR);
    assert_eq!(
        list[0].data_byte_size, 0,
        "a null buffer must report zero bytes written, not the requested size"
    );
}

#[test]
fn render_callback_handles_zero_capacity() {
    let scratch = stereo_scratch(512);
    let mut list = vec![io(8, 0)];

    let status = render_input(Some(&scratch), 64, Some(&mut list));
    assert_eq!(status, NO_ERR);
    let chan = list[0].data.as_ref().unwrap();
    assert!(chan.iter().all(|s| s.to_bits() == 0xDEAD_BEEF));
}

#[test]
fn render_callback_rejects_null_arguments() {
    let scratch = stereo_scratch(512);
    let mut list = vec![IoBuffer::<f32> {
        number_channels: 1,
        data_byte_size: 0,
        data: None,
    }];
    assert_eq!(render_input(None, 64, Some(&mut list)), -1);
    assert_eq!(render_input(Some(&scratch), 64, None), -1);
}

#[test]
fn the_guarded_callback_returns_a_status_for_every_malformed_input() {
    let scratch = stereo_scratch(512);
    let null = IoBuffer::<f32> {
        number_channels: 1,
        data_byte_size: 256,
        data: None,
    };
    let mut cases: Vec<(Vec<IoBuffer<f32>>, u32)> = vec![
        (vec![io(32, 8 * 4)], 64),
        (vec![null], 64),
        (vec![io(8, 0)], 64),
        (vec![io(32, 32 * 4)], u32::MAX),
    ];
    for (list, frames) in cases.iter_mut() {
        assert_eq!(
            render_input(Some(&scratch), *frames, Some(list)),
            NO_ERR,
            "a malformed-but-handleable buffer list should render silence, not fail"
        );
    }
    let mut list: Vec<IoBuffer<f32>> = Vec::new();
    assert_eq!(render_input(None, 64, Some(&mut list)), -1);
    assert_eq!(render_input(Some(&scratch), 64, None), -1);
}

#[test]
fn the_unit_is_fed_what_was_staged() {
    let mut scratch = stereo_scratch(4);
    scratch.stage_input(&[&[1.0, 2.0, 3.0, 4.0][..]], 4);
    let mut list = vec![io(6, 6 * 4), io(2, 2 * 4), io(2, 2 * 4)];
    assert_eq!(render_input(Some(&scratch), 6, Some(&mut list)), NO_ERR);
    assert_eq!(
        list[0].data.as_ref().unwrap().as_slice(),
        &[1.0, 2.0, 3.0, 4.0, 0.0, 0.0]
    );
    assert_eq!(list[0].data_byte_size, 24);
    assert_eq!(list[1].data.as_ref().unwrap().as_slice(), &[0.0, 0.0]);
    assert_eq!(list[2].data.as_ref().unwrap().as_slice(), &[0.0, 0.0]);
}

#[test]
fn one_buffer_is_fed_as_far_as_it_goes() {
    let layout = AuBusLayout {
        inputs: ChannelLayout::mono(),
        outputs: ChannelLayout::mono(),
        has_input: true,
    };
    let mut scratch = RenderScratch::new(layout, 4, 0.0f32);
    scratch.stage_input(&[&[1.0, 2.0, 3.0, 4.0]], 4);
    let mut dst = [9.0f32; 3];
    assert_eq!(scratch.feed_buffer(0, 64, 1, 8, Some(&mut dst)), 8);
    assert_eq!(dst, [1.0, 2.0, 9.0]);
    assert_eq!(scratch.feed_buffer(3, 2, 1, 8, Some(&mut dst)), 8);
    assert_eq!(dst, [0.0, 0.0, 9.0]);
    assert_eq!(scratch.feed_buffer(0, 64, 1, 8, None), 0);
    assert_eq!(scratch.feed_buffer(0, 64, 1, 3, Some(&mut dst)), 0);
    assert_eq!(dst, [0.0, 0.0, 9.0]);
}
