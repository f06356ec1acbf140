use steamaudio::error::Error;
use steamaudio::buffer::{
    reserved, Buffer, SpeakerLayout, SpeakerLayoutSettings, SPEAKER_LAYOUT_CUSTOM, SPEAKER_LAYOUT_MONO,
    SPEAKER_LAYOUT_QUADRAPHONIC, SPEAKER_LAYOUT_STEREO, SPEAKER_LAYOUT_SURROUND_5_1,
    SPEAKER_LAYOUT_SURROUND_7_1,
};

#[test]
fn allocate_gives_silence_in_the_requested_shape() {
    let buffer = Buffer::allocate(3, 5, 0.0f32).unwrap();
    assert_eq!(buffer.channels(), 3);
    assert_eq!(buffer.samples(), 5);
    for channel in 0..3 {
        for sample in 0..5 {
            assert_eq!(buffer.read(channel, sample), 0.0);
        }
    }
    assert_eq!(buffer.data(), &vec![vec![0.0f32; 5]; 3]);
}

#[test]
fn allocate_uses_the_given_silence() {
    let buffer = Buffer::allocate(2, 2, 7i16).unwrap();
    assert_eq!(buffer.data(), &vec![vec![7i16, 7], vec![7, 7]]);
}

#[test]
fn allocate_accepts_an_empty_frame() {
    let buffer = Buffer::allocate(2, 0, 0.0f32).unwrap();
    assert_eq!(buffer.channels(), 2);
    assert_eq!(buffer.samples(), 0);
}

#[test]
fn allocate_reports_memory_that_cannot_be_had() {
    let result = Buffer::allocate(1, u32::MAX, [0u64; 8192]);
    assert!(matches!(result, Err(Error::OutOfMemory)));
}

#[test]
fn a_failed_reservation_is_out_of_memory() {
    let mut samples: Vec<u64> = Vec::new();
    assert_eq!(reserved(samples.try_reserve(usize::MAX)), Err(Error::OutOfMemory));
    assert_eq!(reserved(samples.try_reserve(16)), Ok(()));
}

#[test]
fn copy_channel_from_replaces_one_channel() {
    let mut buffer = Buffer::from(vec![vec![1.0f32, 2.0, 3.0], vec![4.0, 5.0, 6.0]]);
    buffer.copy_channel_from(0, &[7.0, 8.0, 9.0]);
    assert_eq!(buffer.data(), &vec![vec![7.0f32, 8.0, 9.0], vec![4.0, 5.0, 6.0]]);
    assert_eq!(buffer.channels(), 2);
    assert_eq!(buffer.samples(), 3);
}

#[test]
fn from_keeps_the_channel_data() {
    let buffer = Buffer::from(vec![vec![1.0f32, 2.0, 3.0], vec![4.0, 5.0, 6.0]]);
    assert_eq!(buffer.channels(), 2);
    assert_eq!(buffer.samples(), 3);
    assert_eq!(buffer.read(0, 0), 1.0);
    assert_eq!(buffer.read(0, 2), 3.0);
    assert_eq!(buffer.read(1, 1), 5.0);
}

#[test]
fn write_changes_one_sample_only() {
    let mut buffer = Buffer::from(vec![vec![1.0f32, 2.0, 3.0], vec![4.0, 5.0, 6.0]]);
    buffer.write(1, 2, 9.5);
    assert_eq!(buffer.data(), &vec![vec![1.0f32, 2.0, 3.0], vec![4.0, 5.0, 9.5]]);
    assert_eq!(buffer.channels(), 2);
    assert_eq!(buffer.samples(), 3);
}

#[test]
fn write_then_read_gives_the_value_back() {
    let mut buffer = Buffer::allocate(4, 8, 0.0f32).unwrap();
    buffer.write(3, 7, -0.25);
    assert_eq!(buffer.read(3, 7), -0.25);
    assert_eq!(buffer.read(3, 6), 0.0);
    assert_eq!(buffer.read(2, 7), 0.0);
}

#[test]
fn standard_layouts_list_no_speakers() {
    let layouts: Vec<(SpeakerLayout<[f32; 3]>, u32)> = vec![
        (SpeakerLayout::Mono, SPEAKER_LAYOUT_MONO),
        (SpeakerLayout::Stereo, SPEAKER_LAYOUT_STEREO),
        (SpeakerLayout::Quadraphonic, SPEAKER_LAYOUT_QUADRAPHONIC),
        (SpeakerLayout::Surround5_1, SPEAKER_LAYOUT_SURROUND_5_1),
        (SpeakerLayout::Surround7_1, SPEAKER_LAYOUT_SURROUND_7_1),
    ];
    for (layout, kind) in layouts {
        assert_eq!(layout.settings(), SpeakerLayoutSettings { kind, speakers: 0 });
    }
}

#[test]
fn layout_codes_are_those_of_the_native_library() {
    assert_eq!(SPEAKER_LAYOUT_MONO, 0);
    assert_eq!(SPEAKER_LAYOUT_STEREO, 1);
    assert_eq!(SPEAKER_LAYOUT_QUADRAPHONIC, 2);
    assert_eq!(SPEAKER_LAYOUT_SURROUND_5_1, 3);
    assert_eq!(SPEAKER_LAYOUT_SURROUND_7_1, 4);
    assert_eq!(SPEAKER_LAYOUT_CUSTOM, 5);
}

#[test]
fn custom_layout_counts_its_speakers() {
    let layout = SpeakerLayout::Custom(vec![[1.0f32, 0.0, 0.0], [0.0, 1.0, 0.0], [0.0, 0.0, 1.0]]);
    assert_eq!(
        layout.settings(),
        SpeakerLayoutSettings { kind: SPEAKER_LAYOUT_CUSTOM, speakers: 3 }
    );
}
