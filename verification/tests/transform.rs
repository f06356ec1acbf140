use std::cell::{Cell, RefCell};
use std::rc::Rc;
use std::time::Duration;

use steamaudio::buffer::Buffer;
use steamaudio::error::Error;
use steamaudio::stream::{FrameProcessor, Passthrough, SampleStream, Samples};
use steamaudio::transform::{read_frame, transform, Frame};

fn drain<S: SampleStream<f32>>(stream: &mut S) -> Vec<f32> {
    let mut samples = Vec::new();
    while let Some(sample) = stream.next() {
        samples.push(sample);
    }
    samples
}

fn ramp(length: usize) -> Vec<f32> {
    (1..=length).map(|value| value as f32).collect()
}

/// Copies channel by channel, repeating the last input channel where the
/// output has more, and keeps what it was shown.
struct Recorder {
    shown: Rc<RefCell<Vec<Vec<Vec<f32>>>>>,
}

impl FrameProcessor<f32> for Recorder {
    fn process(&mut self, input: &Buffer<f32>, output: &mut Buffer<f32>) {
        self.shown.borrow_mut().push(input.data().clone());
        let last = input.channels() as usize - 1;
        for channel in 0..output.channels() as usize {
            for sample in 0..output.samples() as usize {
                output.write(channel, sample, input.read(channel.min(last), sample));
            }
        }
    }
}

fn recorder() -> (Recorder, Rc<RefCell<Vec<Vec<Vec<f32>>>>>) {
    let shown = Rc::new(RefCell::new(Vec::new()));
    (Recorder { shown: shown.clone() }, shown)
}

/// Doubles every sample.
struct Double;

impl FrameProcessor<f32> for Double {
    fn process(&mut self, input: &Buffer<f32>, output: &mut Buffer<f32>) {
        for channel in 0..output.channels() as usize {
            for sample in 0..output.samples() as usize {
                output.write(channel, sample, 2.0 * input.read(channel, sample));
            }
        }
    }
}

/// A stream that counts how often it is pulled from and reports a duration.
/// It gives no hint unless it is told to pass on the hint of its samples.
struct Watched {
    inner: Samples<f32>,
    pulls: Rc<Cell<usize>>,
    duration: Option<Duration>,
    hints: bool,
}

impl SampleStream<f32> for Watched {
    fn channels(&self) -> u16 {
        self.inner.channels()
    }

    fn sample_rate(&self) -> u32 {
        self.inner.sample_rate()
    }

    fn current_frame_len(&self) -> Option<usize> {
        if self.hints {
            self.inner.current_frame_len()
        } else {
            None
        }
    }

    fn next(&mut self) -> Option<f32> {
        self.pulls.set(self.pulls.get() + 1);
        self.inner.next()
    }

    fn total_duration(&self) -> Option<Duration> {
        self.duration
    }
}

fn watched(channels: u16, data: Vec<f32>, duration: Option<Duration>) -> (Watched, Rc<Cell<usize>>) {
    let pulls = Rc::new(Cell::new(0));
    let inner = Samples::new(channels, 48000, data);
    (Watched { inner, pulls: pulls.clone(), duration, hints: false }, pulls)
}

#[test]
fn samples_yield_their_data_in_order() {
    let mut stream = Samples::new(2, 22050, vec![0.5f32, -0.5, 0.25]);
    assert_eq!(stream.channels(), 2);
    assert_eq!(stream.sample_rate(), 22050);
    assert_eq!(stream.total_duration(), None);
    assert_eq!(stream.current_frame_len(), Some(3));
    assert_eq!(stream.next(), Some(0.5));
    assert_eq!(stream.current_frame_len(), Some(2));
    assert_eq!(stream.next(), Some(-0.5));
    assert_eq!(stream.next(), Some(0.25));
    assert_eq!(stream.current_frame_len(), Some(0));
    assert_eq!(stream.next(), None);
    assert_eq!(stream.next(), None);
}

#[test]
fn passthrough_copies_the_frame() {
    let input = Buffer::from(vec![vec![1.0f32, 2.0], vec![3.0, 4.0]]);
    let mut output = Buffer::allocate(2, 2, 0.0f32).unwrap();
    Passthrough.process(&input, &mut output);
    assert_eq!(output.data(), &vec![vec![1.0f32, 2.0], vec![3.0, 4.0]]);
}

#[test]
fn read_frame_distributes_round_robin() {
    let mut stream = Samples::new(2, 44100, vec![10.0f32, 20.0, 11.0, 21.0, 12.0, 22.0]);
    let mut buffer = Buffer::allocate(2, 3, 0.0f32).unwrap();
    assert_eq!(read_frame(&mut stream, &mut buffer, 0.0), 3);
    assert_eq!(buffer.data(), &vec![vec![10.0f32, 11.0, 12.0], vec![20.0, 21.0, 22.0]]);
    assert_eq!(stream.next(), None);
}

#[test]
fn read_frame_takes_no_more_than_a_frame() {
    let mut stream = Samples::new(1, 44100, ramp(7));
    let mut buffer = Buffer::allocate(1, 4, 0.0f32).unwrap();
    assert_eq!(read_frame(&mut stream, &mut buffer, 0.0), 4);
    assert_eq!(buffer.data(), &vec![vec![1.0f32, 2.0, 3.0, 4.0]]);
    assert_eq!(stream.next(), Some(5.0));
}

#[test]
fn read_frame_pads_a_short_read_with_silence() {
    let mut stream = Samples::new(1, 44100, ramp(2));
    let mut buffer = Buffer::from(vec![vec![9.0f32, 9.0, 9.0, 9.0]]);
    assert_eq!(read_frame(&mut stream, &mut buffer, 0.0), 2);
    assert_eq!(buffer.data(), &vec![vec![1.0f32, 2.0, 0.0, 0.0]]);
}

#[test]
fn read_frame_pads_with_the_given_silence() {
    let mut stream = Samples::new(2, 44100, vec![1i16, 2, 3]);
    let mut buffer = Buffer::allocate(2, 3, 0i16).unwrap();
    assert_eq!(read_frame(&mut stream, &mut buffer, -1), 1);
    assert_eq!(buffer.data(), &vec![vec![1i16, 3, -1], vec![2, -1, -1]]);
}

#[test]
fn read_frame_of_an_ended_stream_is_all_silence() {
    let mut stream = Samples::new(2, 44100, Vec::new());
    let mut buffer = Buffer::from(vec![vec![9.0f32, 9.0], vec![9.0, 9.0]]);
    assert_eq!(read_frame(&mut stream, &mut buffer, 0.0), 0);
    assert_eq!(buffer.data(), &vec![vec![0.0f32, 0.0], vec![0.0, 0.0]]);
}

#[test]
fn construction_reports_memory_that_cannot_be_had() {
    let source = Samples::new(1, 44100, vec![[0u64; 8192]; 1]);
    let result = transform(source, Passthrough, 1, u32::MAX, [0u64; 8192]);
    assert!(matches!(result, Err(Error::OutOfMemory)));
}

#[test]
fn identity_reproduces_a_single_channel_stream() {
    for length in 0..=13 {
        let source = Samples::new(1, 44100, ramp(length));
        let mut adapter = transform(source, Passthrough, 1, 4, 0.0f32).unwrap();
        assert_eq!(drain(&mut adapter), ramp(length));
    }
}

#[test]
fn identity_reproduces_a_two_channel_stream() {
    let source = Samples::new(2, 44100, ramp(12));
    let mut adapter = transform(source, Passthrough, 2, 4, 0.0f32).unwrap();
    assert_eq!(drain(&mut adapter), ramp(12));
}

#[test]
fn identity_yields_whole_rounds_only() {
    let source = Samples::new(2, 44100, ramp(7));
    let mut adapter = transform(source, Passthrough, 2, 4, 0.0f32).unwrap();
    assert_eq!(drain(&mut adapter), ramp(6));
    let source = Samples::new(3, 44100, ramp(11));
    let mut adapter = transform(source, Passthrough, 3, 2, 0.0f32).unwrap();
    assert_eq!(drain(&mut adapter), ramp(9));
}

#[test]
fn processor_is_applied_once_per_frame() {
    for frames in 0..6usize {
        let (processor, shown) = recorder();
        let source = Samples::new(1, 44100, ramp(frames * 4));
        let mut adapter = transform(source, processor, 1, 4, 0.0f32).unwrap();
        assert_eq!(drain(&mut adapter).len(), frames * 4);
        assert_eq!(shown.borrow().len(), frames);
        assert_eq!(adapter.next(), None);
        assert_eq!(shown.borrow().len(), frames);
    }
}

#[test]
fn nothing_happens_before_the_first_pull() {
    let (processor, shown) = recorder();
    let (source, pulls) = watched(1, ramp(10), None);
    let adapter = transform(source, processor, 1, 4, 0.0f32).unwrap();
    assert_eq!(pulls.get(), 0);
    assert_eq!(shown.borrow().len(), 0);
    drop(adapter);
    assert_eq!(pulls.get(), 0);
    assert_eq!(shown.borrow().len(), 0);
}

#[test]
fn a_frame_is_made_only_when_a_sample_needs_it() {
    let (processor, shown) = recorder();
    let (source, pulls) = watched(1, ramp(10), None);
    let mut adapter = transform(source, processor, 1, 4, 0.0f32).unwrap();
    assert_eq!(adapter.next(), Some(1.0));
    assert_eq!((pulls.get(), shown.borrow().len()), (4, 1));
    assert_eq!(adapter.next(), Some(2.0));
    assert_eq!(adapter.next(), Some(3.0));
    assert_eq!(adapter.next(), Some(4.0));
    assert_eq!((pulls.get(), shown.borrow().len()), (4, 1));
    assert_eq!(adapter.next(), Some(5.0));
    assert_eq!((pulls.get(), shown.borrow().len()), (8, 2));
    assert_eq!(drain(&mut adapter), vec![6.0, 7.0, 8.0, 9.0, 10.0]);
    assert_eq!(shown.borrow().len(), 3);
}

#[test]
fn a_short_final_frame_is_padded_with_silence() {
    let (processor, shown) = recorder();
    let source = Samples::new(1, 44100, ramp(6));
    let mut adapter = transform(source, processor, 1, 4, 0.0f32).unwrap();
    assert_eq!(drain(&mut adapter), ramp(6));
    assert_eq!(
        *shown.borrow(),
        vec![vec![vec![1.0f32, 2.0, 3.0, 4.0]], vec![vec![5.0, 6.0, 0.0, 0.0]]]
    );
}

#[test]
fn channels_are_presented_round_robin() {
    let (processor, shown) = recorder();
    let left_right = vec![0.0f32, 100.0, 1.0, 101.0, 2.0, 102.0, 3.0, 103.0, 4.0, 104.0];
    let source = Samples::new(2, 44100, left_right.clone());
    let mut adapter = transform(source, processor, 2, 3, 0.0f32).unwrap();
    assert_eq!(drain(&mut adapter), left_right);
    assert_eq!(
        *shown.borrow(),
        vec![
            vec![vec![0.0f32, 1.0, 2.0], vec![100.0, 101.0, 102.0]],
            vec![vec![3.0, 4.0, 0.0], vec![103.0, 104.0, 0.0]],
        ]
    );
}

#[test]
fn a_trailing_sample_without_its_round_is_presented_but_not_yielded() {
    let (processor, shown) = recorder();
    let source = Samples::new(2, 44100, ramp(3));
    let mut adapter = transform(source, processor, 2, 4, 0.0f32).unwrap();
    assert_eq!(drain(&mut adapter), ramp(2));
    assert_eq!(
        *shown.borrow(),
        vec![vec![vec![1.0f32, 3.0, 0.0, 0.0], vec![2.0, 0.0, 0.0, 0.0]]]
    );
}

#[test]
fn the_end_is_final() {
    let (processor, shown) = recorder();
    let (source, pulls) = watched(1, ramp(5), None);
    let mut adapter = transform(source, processor, 1, 4, 0.0f32).unwrap();
    assert_eq!(drain(&mut adapter), ramp(5));
    let pulled = pulls.get();
    for _ in 0..100 {
        assert_eq!(adapter.next(), None);
        assert_eq!(adapter.current_frame_len(), Some(0));
    }
    assert_eq!(pulls.get(), pulled);
    assert_eq!(shown.borrow().len(), 2);
}

#[test]
fn an_upstream_that_says_it_has_ended_is_not_pulled_from() {
    let (mut source, pulls) = watched(1, ramp(4), None);
    source.hints = true;
    let mut adapter = transform(source, Passthrough, 1, 4, 0.0f32).unwrap();
    assert_eq!(drain(&mut adapter), ramp(4));
    assert_eq!(pulls.get(), 4);
    assert_eq!(adapter.next(), None);
    assert_eq!(pulls.get(), 4);
}

#[test]
fn a_hint_does_not_shorten_a_frame() {
    let (processor, shown) = recorder();
    let mut stream = Samples::new(1, 44100, ramp(3));
    assert_eq!(stream.next(), Some(1.0));
    assert_eq!(stream.current_frame_len(), Some(2));
    let mut adapter = transform(stream, processor, 1, 4, 0.0f32).unwrap();
    assert_eq!(drain(&mut adapter), vec![2.0, 3.0]);
    assert_eq!(*shown.borrow(), vec![vec![vec![2.0f32, 3.0, 0.0, 0.0]]]);
}

#[test]
fn an_empty_upstream_ends_at_once() {
    let (processor, shown) = recorder();
    let source = Samples::new(2, 44100, Vec::new());
    let mut adapter = transform(source, processor, 2, 4, 0.0f32).unwrap();
    assert_eq!(adapter.next(), None);
    assert_eq!(adapter.next(), None);
    assert_eq!(shown.borrow().len(), 0);
}

#[test]
fn an_upstream_without_a_whole_round_ends_at_once() {
    let (processor, shown) = recorder();
    let source = Samples::new(2, 44100, ramp(1));
    let mut adapter = transform(source, processor, 2, 4, 0.0f32).unwrap();
    assert_eq!(adapter.next(), None);
    assert_eq!(shown.borrow().len(), 0);
}

#[test]
fn a_frame_length_of_zero_yields_nothing() {
    let (processor, shown) = recorder();
    let (source, pulls) = watched(1, ramp(5), None);
    let mut adapter = transform(source, processor, 1, 0, 0.0f32).unwrap();
    assert_eq!(adapter.next(), None);
    assert_eq!(adapter.next(), None);
    assert_eq!(pulls.get(), 0);
    assert_eq!(shown.borrow().len(), 0);
}

#[test]
fn output_channels_are_yielded_round_robin() {
    let (processor, _shown) = recorder();
    let source = Samples::new(1, 44100, ramp(3));
    let mut adapter = transform(source, processor, 2, 2, 0.0f32).unwrap();
    assert_eq!(adapter.channels(), 2);
    assert_eq!(drain(&mut adapter), vec![1.0, 1.0, 2.0, 2.0, 3.0, 3.0]);
}

#[test]
fn the_processor_output_is_what_is_yielded() {
    let source = Samples::new(2, 44100, ramp(6));
    let mut adapter = transform(source, Double, 2, 2, 0.0f32).unwrap();
    assert_eq!(drain(&mut adapter), vec![2.0, 4.0, 6.0, 8.0, 10.0, 12.0]);
}

#[test]
fn adapters_stack() {
    let (outer, shown) = recorder();
    let source = Samples::new(1, 44100, ramp(7));
    let inner = transform(source, Double, 1, 2, 0.0f32).unwrap();
    let middle = transform(inner, Double, 1, 3, 0.0f32).unwrap();
    let mut adapter = transform(middle, outer, 1, 4, 0.0f32).unwrap();
    assert_eq!(drain(&mut adapter), vec![4.0, 8.0, 12.0, 16.0, 20.0, 24.0, 28.0]);
    assert_eq!(
        *shown.borrow(),
        vec![vec![vec![4.0f32, 8.0, 12.0, 16.0]], vec![vec![20.0, 24.0, 28.0, 0.0]]]
    );
}

#[test]
fn stream_attributes_are_fixed_when_the_adapter_is_made() {
    let duration = Some(Duration::from_millis(1500));
    let (source, _pulls) = watched(1, ramp(5), duration);
    let mut adapter = transform(source, Passthrough, 1, 4, 0.0f32).unwrap();
    assert_eq!(adapter.channels(), 1);
    assert_eq!(adapter.sample_rate(), 48000);
    assert_eq!(adapter.total_duration(), duration);
    drain(&mut adapter);
    assert_eq!(adapter.next(), None);
    assert_eq!(adapter.channels(), 1);
    assert_eq!(adapter.sample_rate(), 48000);
    assert_eq!(adapter.total_duration(), duration);
}

#[test]
fn output_channel_count_is_the_one_asked_for() {
    let (processor, _shown) = recorder();
    let source = Samples::new(1, 8000, ramp(4));
    let mut adapter = transform(source, processor, 9, 4, 0.0f32).unwrap();
    assert_eq!(adapter.channels(), 9);
    assert_eq!(adapter.sample_rate(), 8000);
    assert_eq!(drain(&mut adapter).len(), 36);
    assert_eq!(adapter.channels(), 9);
}

#[test]
fn the_hint_counts_what_is_left_of_the_frame() {
    let source = Samples::new(1, 44100, ramp(6));
    let mut adapter = transform(source, Passthrough, 1, 4, 0.0f32).unwrap();
    assert_eq!(adapter.current_frame_len(), None);
    assert_eq!(adapter.next(), Some(1.0));
    assert_eq!(adapter.current_frame_len(), Some(3));
    assert_eq!(adapter.next(), Some(2.0));
    assert_eq!(adapter.next(), Some(3.0));
    assert_eq!(adapter.current_frame_len(), Some(1));
    assert_eq!(adapter.next(), Some(4.0));
    assert_eq!(adapter.current_frame_len(), None);
    assert_eq!(adapter.next(), Some(5.0));
    assert_eq!(adapter.current_frame_len(), Some(1));
    assert_eq!(adapter.next(), Some(6.0));
    assert_eq!(adapter.current_frame_len(), None);
    assert_eq!(adapter.next(), None);
    assert_eq!(adapter.current_frame_len(), Some(0));
}

#[test]
fn a_long_chain_is_taken_apart_without_deep_recursion() {
    let mut head: Frame<Samples<f32>> = Frame::Input(Samples::new(1, 44100, ramp(3)));
    for _ in 0..1_000_000 {
        head = Frame::data(4, 1, 44100, head);
    }
    drop(head);
    let mut head: Frame<Samples<f32>> = Frame::End;
    for _ in 0..10_000 {
        head = Frame::data(4, 1, 44100, head);
    }
    drop(head);
}

#[test]
fn a_long_stream_runs_in_constant_space_and_drops_cleanly() {
    let frames = 20_000usize;
    let (processor, shown) = recorder();
    let source = Samples::new(1, 44100, vec![0.5f32; frames * 2]);
    let mut adapter = transform(source, Passthrough, 1, 2, 0.0f32).unwrap();
    let mut yielded = 0usize;
    while let Some(sample) = adapter.next() {
        assert_eq!(sample, 0.5);
        yielded += 1;
    }
    assert_eq!(yielded, frames * 2);
    drop(adapter);
    let source = Samples::new(1, 44100, vec![0.5f32; frames * 2]);
    let mut adapter = transform(source, processor, 1, 2, 0.0f32).unwrap();
    for _ in 0..frames {
        adapter.next();
    }
    drop(adapter);
    assert_eq!(shown.borrow().len(), frames / 2);
}

#[test]
fn identity_yields_the_whole_rounds_of_upstream_in_every_shape() {
    for channels in 1..=4u16 {
        for frame_length in 1..=5u32 {
            for length in 0..=30usize {
                let source = Samples::new(channels, 44100, ramp(length));
                let mut adapter =
                    transform(source, Passthrough, channels, frame_length, 0.0f32).unwrap();
                let whole = channels as usize * (length / channels as usize);
                assert_eq!(drain(&mut adapter), ramp(whole));
                assert_eq!(adapter.next(), None);
            }
        }
    }
}

#[test]
fn frames_are_presented_no_faster_than_samples_are_pulled() {
    for channels in 1..=3u16 {
        for frame_length in 1..=4u32 {
            let full = channels as usize * frame_length as usize;
            let (processor, shown) = recorder();
            let source = Samples::new(1, 44100, ramp(11));
            let mut adapter = transform(source, processor, channels, frame_length, 0.0f32).unwrap();
            assert_eq!(shown.borrow().len(), 0);
            for pulls in 1..=40usize {
                adapter.next();
                let presented = shown.borrow().len();
                assert!(presented <= (pulls + full - 1) / full);
                assert!(presented <= (11 + frame_length as usize - 1) / frame_length as usize);
            }
            assert_eq!(shown.borrow().len(), (11 + frame_length as usize - 1) / frame_length as usize);
        }
    }
}

#[test]
fn every_presented_frame_is_its_run_of_upstream_padded_with_silence() {
    let channels = 3usize;
    let frame_length = 4usize;
    let upstream = ramp(29);
    let (processor, shown) = recorder();
    let source = Samples::new(channels as u16, 44100, upstream.clone());
    let mut adapter = transform(source, processor, 1, frame_length as u32, 0.0f32).unwrap();
    drain(&mut adapter);
    let shown = shown.borrow();
    assert_eq!(shown.len(), 3);
    for (index, frame) in shown.iter().enumerate() {
        for channel in 0..channels {
            for sample in 0..frame_length {
                let place = index * channels * frame_length + sample * channels + channel;
                let expected = upstream.get(place).copied().unwrap_or(0.0);
                assert_eq!(frame[channel][sample], expected);
            }
        }
    }
}
