use tutti_au_host::bus::ChannelLayout;
use tutti_au_host::error::AuError;
use tutti_au_host::offline::{
    check_frames, flag_of, flag_value, last_render_error, output_is_silence,
    render_quality_to_write, PushScratch, RENDER_QUALITY_MAX,
};

fn sidechain() -> PushScratch<f32> {
    PushScratch::new(
        &[ChannelLayout::stereo(), ChannelLayout::mono()],
        &[ChannelLayout::stereo()],
        8,
        0.0,
    )
}

fn addresses(scratch: &PushScratch<f32>) -> (Vec<Vec<u64>>, Vec<Vec<u64>>) {
    let of = |buses: &Vec<Vec<Vec<f32>>>| {
        buses
            .iter()
            .enumerate()
            .map(|(b, chs)| (0..chs.len() as u64).map(|c| 100 * b as u64 + c).collect())
            .collect()
    };
    (of(&scratch.input_audio), of(&scratch.output_audio))
}

fn reason<T>(r: Result<T, AuError>) -> String {
    match r {
        Err(AuError::InvalidBuffer(reason)) => reason,
        _ => panic!("expected an invalid buffer"),
    }
}

#[test]
fn buses_are_allocated_once_and_silent() {
    let scratch = sidechain();
    assert_eq!(scratch.block_size(), 8);
    assert_eq!(scratch.input_bus_count(), 2);
    assert_eq!(scratch.output_bus_count(), 1);
    assert_eq!(scratch.input_audio[0].len(), 2);
    assert_eq!(scratch.input_audio[1].len(), 1);
    assert!(scratch.input_audio.iter().flatten().all(|ch| ch.len() == 8));
    assert!(scratch.output_byte_sizes().is_empty());
    let instrument: PushScratch<f32> = PushScratch::new(&[], &[ChannelLayout::stereo()], 8, 0.0);
    assert_eq!(instrument.input_bus_count(), 0);
}

#[test]
fn what_is_not_supplied_is_silenced() {
    let mut scratch = sidechain();
    let full = [1.0f32; 8];
    assert!(scratch.stage_input(0, &[&full[..], &full[..]], 8));
    let short = [2.0f32; 3];
    assert!(scratch.stage_input(0, &[&short[..]], 6));
    assert_eq!(
        scratch.input_audio[0][0],
        vec![2.0, 2.0, 2.0, 0.0, 0.0, 0.0, 1.0, 1.0]
    );
    assert_eq!(
        scratch.input_audio[0][1],
        vec![0.0, 0.0, 0.0, 0.0, 0.0, 0.0, 1.0, 1.0]
    );
    assert!(!scratch.stage_input(2, &[&full[..]], 8), "no such bus");
    assert!(scratch.stage_input(1, &[&full[..], &full[..]], 99));
    assert_eq!(scratch.input_audio[1][0], vec![1.0; 8]);
}

#[test]
fn an_output_bus_is_copied_out() {
    let mut scratch = sidechain();
    scratch.output_audio[0][0].fill(4.0);
    let (mut a, mut b, mut c) = ([0.0f32; 4], [0.0f32; 16], [9.0f32; 2]);
    let mut outs: Vec<&mut [f32]> = vec![&mut a, &mut b, &mut c];
    assert!(scratch.emit_output(0, &mut outs, 99));
    assert!(!scratch.emit_output(1, &mut outs, 8));
    assert_eq!(a, [4.0; 4]);
    assert_eq!(b, [0.0; 16]);
    assert_eq!(c, [9.0; 2]);
}

#[test]
fn a_push_copies_the_result_to_the_output_bus() {
    let mut scratch = sidechain();
    let (ins, _) = addresses(&scratch);
    scratch.stage_input(0, &[&[1.0f32; 8][..], &[2.0f32; 8][..]], 8);
    assert_eq!(scratch.begin_process_push(&ins, 8).unwrap(), 0);
    assert_eq!(scratch.input_slabs[0][0], 2);
    assert_eq!(scratch.input_slabs[0][1], 1 + (32u64 << 32));
    assert_eq!(scratch.input_slabs[1][0], 1);
    // The unit writes its result over its input.
    scratch.input_audio[0][0].fill(7.0);
    assert_eq!(scratch.finish_process_push(0, None, 0, 8).unwrap(), 0);
    assert_eq!(scratch.output_audio[0][0], vec![7.0; 8]);
    assert_eq!(scratch.output_audio[0][1], vec![2.0; 8]);

    assert_eq!(scratch.begin_process_push(&ins, 4).unwrap(), 8);
    assert_eq!(scratch.finish_process_push(0, None, 16, 4).unwrap(), 16);
    assert_eq!(
        scratch.output_audio[0][0],
        vec![0.0, 0.0, 0.0, 0.0, 7.0, 7.0, 7.0, 7.0]
    );
    assert_eq!(scratch.begin_process_push(&ins, 1).unwrap(), 12);
    scratch.reset_position();
    assert_eq!(scratch.begin_process_push(&ins, 1).unwrap(), 0);
}

#[test]
fn a_failed_push_says_what_the_unit_recorded() {
    let mut scratch = sidechain();
    scratch.output_audio[0][0].fill(5.0);
    assert!(matches!(
        scratch.finish_process_push(-4, Some(-50), 16, 8),
        Err(AuError::RenderFailed {
            function: "AudioUnitProcess",
            code: -4,
            last_render_error: Some(-50)
        })
    ));
    assert!(matches!(
        scratch.finish_process_push_multiple(-10877, None, 16, 8),
        Err(AuError::RenderFailed {
            function: "AudioUnitProcessMultiple",
            code: -10877,
            last_render_error: None
        })
    ));
    assert_eq!(scratch.output_audio[0][0], vec![5.0; 8]);
}

#[test]
fn a_push_that_cannot_be_made_is_refused() {
    let mut scratch = sidechain();
    let (ins, outs) = addresses(&scratch);
    assert_eq!(
        reason(scratch.begin_process_push(&ins, 9)),
        "frames (9) > block_size (8)"
    );
    assert_eq!(
        reason(scratch.begin_process_push_multiple(&ins, &outs, 9)),
        "frames (9) > block_size (8)"
    );
    assert_eq!(scratch.sample_position, 0);
    let mut deaf: PushScratch<f32> = PushScratch::new(&[], &[ChannelLayout::mono()], 8, 0.0);
    assert_eq!(
        reason(deaf.begin_process_push(&vec![], 8)),
        "AudioUnitProcess needs one input bus and one output bus"
    );
    assert!(deaf
        .begin_process_push_multiple(&vec![], &vec![vec![1]], 8)
        .is_ok());
    let mut mute: PushScratch<f32> = PushScratch::new(&[ChannelLayout::mono()], &[], 8, 0.0);
    assert_eq!(
        reason(mute.begin_process_push_multiple(&vec![vec![1]], &vec![], 8)),
        "AudioUnitProcessMultiple needs at least one output bus"
    );
}

#[test]
fn every_output_bus_of_a_silent_render_is_silenced() {
    let mut scratch: PushScratch<f32> = PushScratch::new(
        &[ChannelLayout::mono()],
        &[ChannelLayout::mono(), ChannelLayout::stereo()],
        4,
        0.0,
    );
    let (ins, outs) = addresses(&scratch);
    assert_eq!(
        scratch.begin_process_push_multiple(&ins, &outs, 4).unwrap(),
        0
    );
    assert_eq!(scratch.output_byte_sizes(), vec![16, 16, 16]);
    for bus in scratch.output_audio.iter_mut() {
        for ch in bus.iter_mut() {
            ch.fill(1.0);
        }
    }
    assert_eq!(
        scratch.finish_process_push_multiple(0, None, 0, 4).unwrap(),
        0
    );
    assert!(scratch
        .output_audio
        .iter()
        .flatten()
        .flatten()
        .all(|s| *s == 1.0));
    assert_eq!(
        scratch.finish_process_push_multiple(0, None, 16, 3).unwrap(),
        16
    );
    assert!(scratch
        .output_audio
        .iter()
        .flatten()
        .all(|ch| ch == &vec![0.0, 0.0, 0.0, 1.0]));
}

#[test]
fn a_render_quality_is_bounded() {
    assert_eq!(
        render_quality_to_write(RENDER_QUALITY_MAX).unwrap(),
        RENDER_QUALITY_MAX
    );
    assert_eq!(
        reason(render_quality_to_write(999)),
        "render quality 999 exceeds the maximum 127"
    );
    assert_eq!(
        reason(render_quality_to_write(u32::MAX)),
        "render quality 4294967295 exceeds the maximum 127"
    );
}

#[test]
fn switches_are_numbers() {
    assert_eq!(flag_value(true), 1);
    assert_eq!(flag_value(false), 0);
    assert!(flag_of(2));
    assert!(!flag_of(0));
    assert!(output_is_silence(16 | 4));
    assert!(!output_is_silence(15));
    assert_eq!(last_render_error(0, -50), Some(-50));
    assert_eq!(last_render_error(0, 0), None);
    assert_eq!(last_render_error(-10879, -50), None);
    assert!(check_frames("frames", 8, 8).is_ok());
}
