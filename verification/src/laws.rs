//! What holds of every run of the adapter.
//!
//! The statements are about [`TransformView`], the mathematical state of a
//! [`Transform`](crate::transform::Transform): its `next` is, step for step,
//! what a pull does to the adapter, and `after(n)` is the state after `n`
//! pulls.

use crate::stream::{FrameProcessor, Passthrough};
use crate::transform::TransformView;
use vstd::prelude::*;

verus! {

/// The input frames that the processor is yet to be shown if the stream is
/// drained, in the order in which it will be shown them.
pub open spec fn to_present<T: Copy, P: FrameProcessor<T>>(view: TransformView<T, P>) -> Seq<
    Seq<Seq<T>>,
>
    decreases view.upstream.len(),
{
    if view.rounds() == 0 {
        Seq::empty()
    } else {
        seq![view.next_input()] + to_present(view.advance())
    }
}

/// Whether two states differ at most in the current frame and the place in
/// it: what is ahead of them is the same.
pub open spec fn same_ahead<T: Copy, P: FrameProcessor<T>>(
    a: TransformView<T, P>,
    b: TransformView<T, P>,
) -> bool {
    &&& a.processor == b.processor
    &&& a.upstream == b.upstream
    &&& a.presented == b.presented
    &&& a.channels == b.channels
    &&& a.input_channels == b.input_channels
    &&& a.frame_length == b.frame_length
    &&& a.silence == b.silence
}

/// What is ahead does not depend on the current frame nor on the place in
/// it.
pub proof fn lemma_ahead_ignores_cursor<T: Copy, P: FrameProcessor<T>>(
    a: TransformView<T, P>,
    b: TransformView<T, P>,
)
    requires
        same_ahead(a, b),
    ensures
        a.rounds() == b.rounds(),
        a.rounds() > 0 ==> a.advance() == b.advance(),
        a.ahead() == b.ahead(),
        to_present(a) == to_present(b),
{
}

/// End-state idempotence: once the stream has ended, a pull yields nothing
/// and changes nothing, however often it is repeated.
pub proof fn law_end_is_absorbing<T: Copy, P: FrameProcessor<T>>(
    view: TransformView<T, P>,
    calls: nat,
)
    requires
        view.frame_size is None,
    ensures
        view.next() == (None::<T>, view),
        view.after(calls) == view,
    decreases calls,
{
    if calls > 0 {
        law_end_is_absorbing(view, (calls - 1) as nat);
    }
}

/// The state stays well-formed over any number of pulls.
pub proof fn lemma_after_is_wf<T: Copy, P: FrameProcessor<T>>(
    view: TransformView<T, P>,
    calls: nat,
)
    requires
        view.wf(),
    ensures
        view.after(calls).wf(),
    decreases calls,
{
    if calls > 0 {
        crate::transform::lemma_next_yields_pending(view);
        lemma_after_is_wf(view.next().1, (calls - 1) as nat);
    }
}

/// Pulls consume what is pending from the front: after `calls` pulls, what
/// was pending without its first `calls` samples is pending, and nothing
/// once there were no more than `calls`.
pub proof fn lemma_after_consumes_pending<T: Copy, P: FrameProcessor<T>>(
    view: TransformView<T, P>,
    calls: nat,
)
    requires
        view.wf(),
    ensures
        calls <= view.pending().len() ==> view.after(calls).pending() == view.pending().skip(
            calls as int,
        ),
        calls >= view.pending().len() ==> view.after(calls).pending().len() == 0,
    decreases calls,
{
    crate::transform::lemma_next_yields_pending(view);
    if calls > 0 {
        let stepped = view.next().1;
        lemma_after_consumes_pending(stepped, (calls - 1) as nat);
        if calls <= view.pending().len() {
            assert(view.pending().skip(1).skip(calls - 1) =~= view.pending().skip(calls as int));
        }
    } else {
        assert(view.pending().skip(0) =~= view.pending());
    }
}

/// Once nothing is pending, every pull yields nothing.
pub proof fn law_drained_stays_drained<T: Copy, P: FrameProcessor<T>>(
    view: TransformView<T, P>,
    calls: nat,
)
    requires
        view.wf(),
        view.pending().len() == 0,
    ensures
        view.after(calls).next().0 is None,
        view.after(calls).pending().len() == 0,
{
    lemma_after_is_wf(view, calls);
    lemma_after_consumes_pending(view, calls);
    crate::transform::lemma_next_yields_pending(view.after(calls));
}

/// The number of samples in the whole rounds of `count` round-robin samples
/// of `channels` channels, a round being one sample of every channel.
pub open spec fn whole_part(count: nat, channels: nat) -> nat {
    channels * (count / channels)
}

/// Reading a frame that was loaded from a chunk back in stream order gives
/// the chunk again, as far as its whole rounds reach.
pub proof fn lemma_interleaved_loaded<T>(
    chunk: Seq<T>,
    channels: nat,
    samples: nat,
    silence: T,
    rounds: nat,
)
    requires
        channels >= 1,
        rounds <= samples,
        channels * rounds <= chunk.len(),
    ensures
        crate::transform::interleaved(
            crate::transform::loaded_frame(chunk, channels, samples, silence),
            channels,
            channels * rounds,
        ) == chunk.take((channels * rounds) as int),
{
    let loaded = crate::transform::loaded_frame(chunk, channels, samples, silence);
    let read = crate::transform::interleaved(loaded, channels, channels * rounds);
    assert forall|p: int| 0 <= p < channels * rounds implies read[p] == chunk[p] by {
        crate::transform::lemma_position_in_frame(p, channels as int, rounds as int);
        vstd::arithmetic::div_mod::lemma_fundamental_div_mod(p, channels as int);
        let c = p % (channels as int);
        let i = p / (channels as int);
        assert(i * channels + c == p) by (nonlinear_arith)
            requires
                p == channels * i + c,
        ;
        assert(loaded[c][i] == chunk[i * channels + c]);
    }
    assert(read =~= chunk.take((channels * rounds) as int));
}

/// With the copying processor and as many channels out as in, what is
/// ahead is upstream as far as its whole rounds reach.
pub proof fn lemma_identity_ahead<T: Copy>(view: TransformView<T, Passthrough>)
    requires
        view.channels >= 1,
        view.input_channels == view.channels,
        view.frame_length >= 1,
    ensures
        view.ahead() == view.upstream.take(
            whole_part(view.upstream.len(), view.channels) as int,
        ),
    decreases view.upstream.len(),
{
    let channels = view.channels;
    let length = view.upstream.len();
    let capacity = channels * view.frame_length;
    let pulled = view.pulled();
    let rounds = view.rounds();
    assert(capacity >= channels) by (nonlinear_arith)
        requires
            capacity == channels * view.frame_length,
            view.frame_length >= 1,
    ;
    vstd::arithmetic::div_mod::lemma_fundamental_div_mod(pulled as int, channels as int);
    vstd::arithmetic::div_mod::lemma_mod_bound(pulled as int, channels as int);
    vstd::arithmetic::div_mod::lemma_fundamental_div_mod(length as int, channels as int);
    vstd::arithmetic::div_mod::lemma_mod_bound(length as int, channels as int);
    if rounds == 0 {
        assert(channels * 0 == 0);
        assert(pulled < channels);
        assert(length == pulled);
        assert(length / channels == 0);
        assert(view.upstream.take(0) =~= Seq::<T>::empty());
    } else {
        let made = view.advance();
        assert(rounds <= view.frame_length) by (nonlinear_arith)
            requires
                pulled == channels * rounds + pulled % channels,
                0 <= pulled % channels,
                pulled <= channels * view.frame_length,
                channels >= 1,
        ;
        lemma_interleaved_loaded(
            view.upstream.take(pulled as int),
            channels,
            view.frame_length,
            view.silence,
            rounds,
        );
        let first = crate::transform::interleaved(made.output, channels, channels * rounds);
        assert(first =~= view.upstream.take((channels * rounds) as int));
        lemma_identity_ahead(made);
        if pulled == length {
            crate::transform::lemma_nothing_ahead_of_nothing(made);
            assert(view.ahead() =~= view.upstream.take((channels * rounds) as int));
        } else {
            assert(pulled == capacity);
            assert(pulled == view.frame_length * channels + 0) by (nonlinear_arith)
                requires
                    pulled == channels * view.frame_length,
            ;
            vstd::arithmetic::div_mod::lemma_fundamental_div_mod_converse(
                pulled as int,
                channels as int,
                view.frame_length as int,
                0,
            );
            assert(rounds == view.frame_length);
            let rest = (length - pulled) as nat;
            vstd::arithmetic::div_mod::lemma_fundamental_div_mod(rest as int, channels as int);
            vstd::arithmetic::div_mod::lemma_mod_bound(rest as int, channels as int);
            assert(length == (view.frame_length + rest / channels) * channels + rest % channels)
                by (nonlinear_arith)
                requires
                    length == pulled + rest,
                    pulled == channels * view.frame_length,
                    rest == channels * (rest / channels) + rest % channels,
            ;
            vstd::arithmetic::div_mod::lemma_fundamental_div_mod_converse(
                length as int,
                channels as int,
                (view.frame_length + rest / channels) as int,
                (rest % channels) as int,
            );
            assert(whole_part(length, channels) == pulled + whole_part(rest, channels))
                by (nonlinear_arith)
                requires
                    whole_part(length, channels) == channels * (view.frame_length + rest
                        / channels),
                    whole_part(rest, channels) == channels * (rest / channels),
                    pulled == channels * view.frame_length,
            ;
            assert(view.ahead() =~= view.upstream.take(whole_part(length, channels) as int));
        }
    }
}

/// Identity transform: an adapter with the copying processor and as many
/// channels out as in yields its upstream, sample for sample, as far as the
/// whole rounds of upstream reach; all of it where upstream ends on a whole
/// round, as every single-channel stream does. A round is one sample of
/// every channel.
pub proof fn law_identity_reproduces_upstream<T: Copy>(view: TransformView<T, Passthrough>)
    requires
        view.is_fresh(),
        view.input_channels == view.channels,
        view.frame_length >= 1,
    ensures
        view.pending() == view.upstream.take(
            whole_part(view.upstream.len(), view.channels) as int,
        ),
        view.upstream.len() % view.channels == 0 ==> view.pending() == view.upstream,
{
    lemma_identity_ahead(view);
    assert(view.buffered().len() == 0);
    assert(view.pending() =~= view.ahead());
    if view.upstream.len() % view.channels == 0 {
        vstd::arithmetic::div_mod::lemma_fundamental_div_mod(
            view.upstream.len() as int,
            view.channels as int,
        );
        assert(view.upstream.take(view.upstream.len() as int) =~= view.upstream);
    }
}

/// A pull moves at most one frame from those yet to be presented to those
/// presented, and never changes the frames themselves: the presented
/// frames followed by those yet to be presented stay the same.
pub proof fn lemma_next_keeps_frames<T: Copy, P: FrameProcessor<T>>(view: TransformView<T, P>)
    requires
        view.wf(),
    ensures
        view.next().1.presented + to_present(view.next().1) == view.presented + to_present(view),
{
    let stepped = view.next().1;
    match view.frame_size {
        None => {},
        Some(size) => {
            if view.position < size {
                lemma_ahead_ignores_cursor(stepped, view);
            } else {
                let made = view.advance();
                if view.rounds() == 0 {
                    crate::transform::lemma_nothing_ahead_of_nothing(made);
                    assert(to_present(made) =~= Seq::<Seq<Seq<T>>>::empty());
                    assert(to_present(view) =~= Seq::<Seq<Seq<T>>>::empty());
                } else {
                    lemma_ahead_ignores_cursor(stepped, made);
                    assert(stepped.presented + to_present(stepped) =~= view.presented
                        + to_present(view));
                }
            }
        },
    }
}

/// Over any number of pulls, the presented frames followed by those yet to
/// be presented stay the same.
pub proof fn lemma_after_keeps_frames<T: Copy, P: FrameProcessor<T>>(
    view: TransformView<T, P>,
    calls: nat,
)
    requires
        view.wf(),
    ensures
        view.after(calls).presented + to_present(view.after(calls)) == view.presented
            + to_present(view),
    decreases calls,
{
    if calls > 0 {
        crate::transform::lemma_next_yields_pending(view);
        lemma_next_keeps_frames(view);
        lemma_after_keeps_frames(view.next().1, (calls - 1) as nat);
    }
}

/// Where nothing is pending, no frame is yet to be presented.
pub proof fn lemma_drained_has_presented_all<T: Copy, P: FrameProcessor<T>>(
    view: TransformView<T, P>,
)
    requires
        view.wf(),
        view.pending().len() == 0,
    ensures
        to_present(view).len() == 0,
{
    if view.rounds() > 0 {
        crate::transform::lemma_made_frame_is_not_empty(view);
        assert(view.ahead().len() >= view.channels * view.rounds());
    }
}

/// A single-channel upstream of `count` whole frames is presented as
/// `count` frames.
pub proof fn lemma_whole_frames_to_present<T: Copy, P: FrameProcessor<T>>(
    view: TransformView<T, P>,
    count: nat,
)
    requires
        view.input_channels == 1,
        view.frame_length >= 1,
        view.upstream.len() == count * view.frame_length,
    ensures
        to_present(view).len() == count,
    decreases count,
{
    let length = view.frame_length;
    if count == 0 {
        assert(0 * length == 0);
        crate::transform::lemma_nothing_ahead_of_nothing(view);
    } else {
        assert(count * length == (count - 1) * length + length) by (nonlinear_arith);
        assert((count - 1) * length >= 0) by (nonlinear_arith)
            requires
                count >= 1,
                length >= 1,
        ;
        assert(1 * length == length);
        assert(view.pulled() == length);
        assert(view.rounds() == length);
        let made = view.advance();
        assert(made.upstream.len() == (count - 1) * length);
        lemma_whole_frames_to_present(made, (count - 1) as nat);
    }
}

/// Frame-size invariance of the call count: on a single-channel upstream
/// of exactly `count` frames of samples, the processor is applied `count`
/// times by the time the stream is drained, never more than that before,
/// and never again after.
pub proof fn law_one_call_per_frame<T: Copy, P: FrameProcessor<T>>(
    view: TransformView<T, P>,
    count: nat,
    calls: nat,
)
    requires
        view.is_fresh(),
        view.input_channels == 1,
        view.frame_length >= 1,
        view.upstream.len() == count * view.frame_length,
    ensures
        view.after(calls).presented.len() <= count,
        calls >= view.pending().len() ==> view.after(calls).presented.len() == count,
{
    lemma_whole_frames_to_present(view, count);
    lemma_after_keeps_frames(view, calls);
    let reached = view.after(calls);
    assert((reached.presented + to_present(reached)).len() == (view.presented + to_present(
        view,
    )).len());
    if calls >= view.pending().len() {
        lemma_after_is_wf(view, calls);
        lemma_after_consumes_pending(view, calls);
        lemma_drained_has_presented_all(reached);
    }
}

/// Of an adapter that started fresh, the frames presented so far are the
/// first of the frames that were to be presented at the start.
pub proof fn lemma_presented_is_prefix<T: Copy, P: FrameProcessor<T>>(
    view: TransformView<T, P>,
    calls: nat,
)
    requires
        view.is_fresh(),
    ensures
        view.after(calls).presented.len() <= to_present(view).len(),
        view.after(calls).presented == to_present(view).take(
            view.after(calls).presented.len() as int,
        ),
{
    lemma_after_keeps_frames(view, calls);
    let reached = view.after(calls);
    let all = reached.presented + to_present(reached);
    assert(view.presented + to_present(view) =~= to_present(view));
    assert(all.len() == reached.presented.len() + to_present(reached).len());
    assert(all.take(reached.presented.len() as int) =~= reached.presented);
}

/// Whether the number of frames presented keeps pace with the number of
/// pulls, `calls`, and no more: every presented frame but the current one
/// was yielded in full, and the current one was needed.
pub open spec fn paced<T: Copy, P: FrameProcessor<T>>(
    view: TransformView<T, P>,
    calls: nat,
) -> bool {
    let shown = view.presented.len();
    let full = view.channels * view.frame_length;
    match view.frame_size {
        Some(size) => {
            ||| shown == 0 && size == 0 && calls == 0
            ||| {
                &&& shown >= 1
                &&& 1 <= view.position
                &&& view.position <= size
                &&& size <= full
                &&& calls + (size - view.position) == (shown - 1) * full + size
                &&& (size < full ==> view.upstream.len() == 0)
            }
        },
        None => shown == 0 || (shown - 1) * full < calls,
    }
}

/// A pull keeps the pace.
pub proof fn lemma_next_keeps_pace<T: Copy, P: FrameProcessor<T>>(
    view: TransformView<T, P>,
    calls: nat,
)
    requires
        view.wf(),
        paced(view, calls),
    ensures
        paced(view.next().1, calls + 1),
{
    let shown = view.presented.len();
    let full = view.channels * view.frame_length;
    let stepped = view.next().1;
    match view.frame_size {
        None => {},
        Some(size) => {
            if view.position < size {
            } else if view.rounds() == 0 {
                if shown >= 1 {
                    assert((shown - 1) * full >= 0) by (nonlinear_arith)
                        requires
                            shown >= 1,
                            full >= 0,
                    ;
                }
            } else {
                let channels = view.channels;
                let inputs = view.input_channels;
                let pulled = view.pulled();
                let rounds = view.rounds();
                crate::transform::lemma_made_frame_is_not_empty(view);
                vstd::arithmetic::div_mod::lemma_fundamental_div_mod(pulled as int, inputs as int);
                vstd::arithmetic::div_mod::lemma_mod_bound(pulled as int, inputs as int);
                assert(rounds <= view.frame_length) by (nonlinear_arith)
                    requires
                        pulled == inputs * rounds + pulled % inputs,
                        0 <= pulled % inputs,
                        pulled <= inputs * view.frame_length,
                        inputs >= 1,
                ;
                assert(channels * rounds <= full) by (nonlinear_arith)
                    requires
                        rounds <= view.frame_length,
                        full == channels * view.frame_length,
                ;
                if channels * rounds < full {
                    assert(rounds < view.frame_length) by (nonlinear_arith)
                        requires
                            channels * rounds < channels * view.frame_length,
                            rounds <= view.frame_length,
                    ;
                    assert(pulled < inputs * view.frame_length) by (nonlinear_arith)
                        requires
                            pulled == inputs * rounds + pulled % inputs,
                            pulled % inputs < inputs,
                            rounds + 1 <= view.frame_length,
                            inputs >= 1,
                    ;
                    assert(stepped.upstream.len() == 0);
                }
                assert(view.upstream.len() > 0);
                assert(calls == shown * full) by {
                    if shown >= 1 {
                        assert(size == full);
                        assert((shown - 1) * full + full == shown * full) by (nonlinear_arith);
                    } else {
                        assert(0 * full == 0);
                    }
                }
                assert((shown + 1 - 1) * full == shown * full);
            }
        },
    }
}

/// Pulls keep the pace.
pub proof fn lemma_after_keeps_pace<T: Copy, P: FrameProcessor<T>>(
    view: TransformView<T, P>,
    done: nat,
    calls: nat,
)
    requires
        view.wf(),
        paced(view, done),
    ensures
        paced(view.after(calls), done + calls),
    decreases calls,
{
    if calls > 0 {
        crate::transform::lemma_next_yields_pending(view);
        lemma_next_keeps_pace(view, done);
        lemma_after_keeps_pace(view.next().1, done + 1, (calls - 1) as nat);
    }
}

/// Laziness: a fresh adapter has applied its processor to nothing, and
/// after `calls` pulls it has applied it no more often than `calls` samples
/// need: to no frame before the first pull, and to a further frame only
/// when every sample of the frames before was pulled. With `full` samples
/// in a full frame, that is at most `calls / full`, rounded up.
pub proof fn law_no_frame_before_it_is_needed<T: Copy, P: FrameProcessor<T>>(
    view: TransformView<T, P>,
    calls: nat,
)
    requires
        view.is_fresh(),
    ensures
        view.presented.len() == 0,
        view.after(0).presented.len() == 0,
        view.after(calls).presented.len() == 0 || (view.after(calls).presented.len() - 1) * (
        view.channels * view.frame_length) < calls,
{
    lemma_after_keeps_pace(view, 0, calls);
    lemma_after_keeps_constants(view, calls);
}

/// Pulls change neither the channel counts, nor the frame length, nor the
/// silence.
pub proof fn lemma_after_keeps_constants<T: Copy, P: FrameProcessor<T>>(
    view: TransformView<T, P>,
    calls: nat,
)
    ensures
        view.after(calls).channels == view.channels,
        view.after(calls).input_channels == view.input_channels,
        view.after(calls).frame_length == view.frame_length,
        view.after(calls).silence == view.silence,
    decreases calls,
{
    if calls > 0 {
        lemma_after_keeps_constants(view.next().1, (calls - 1) as nat);
    }
}

/// Laziness, step by step: a pull that finds a sample left in the current
/// frame yields it and does nothing else. Upstream is not pulled from and
/// the processor is not applied.
pub proof fn law_buffered_pull_does_no_work<T: Copy, P: FrameProcessor<T>>(
    view: TransformView<T, P>,
)
    requires
        view.frame_size matches Some(size) && view.position < size,
    ensures
        view.next().1 == (TransformView { position: view.position + 1, ..view }),
        view.next().1.upstream == view.upstream,
        view.next().1.processor == view.processor,
        view.next().1.presented == view.presented,
        view.next().1.output == view.output,
{
}

/// The run of upstream samples that goes into frame number `index`:
/// frame after frame takes as many samples as an input frame holds, and the
/// last takes what is left.
pub open spec fn chunk_of<T>(upstream: Seq<T>, capacity: nat, index: nat) -> Seq<T> {
    upstream.subrange(
        (index * capacity) as int,
        crate::transform::at_most(upstream.len(), (index + 1) * capacity) as int,
    )
}

/// Every frame that is presented is a run of upstream samples, distributed
/// round-robin over the channels and padded with silence: frame number
/// `index` is loaded from the run of that number.
pub proof fn lemma_frame_to_present<T: Copy, P: FrameProcessor<T>>(
    view: TransformView<T, P>,
    index: nat,
)
    requires
        view.input_channels >= 1,
        index < to_present(view).len(),
    ensures
        (index + 1) * (view.input_channels * view.frame_length) <= view.upstream.len() || index
            + 1 == to_present(view).len(),
        index * (view.input_channels * view.frame_length) < view.upstream.len(),
        to_present(view)[index as int] == crate::transform::loaded_frame(
            chunk_of(view.upstream, view.input_channels * view.frame_length, index),
            view.input_channels,
            view.frame_length,
            view.silence,
        ),
    decreases index,
{
    let capacity = view.input_channels * view.frame_length;
    let pulled = view.pulled();
    let made = view.advance();
    assert(view.rounds() > 0);
    assert(pulled > 0) by {
        if pulled == 0 {
            assert(0nat / view.input_channels == 0) by (nonlinear_arith)
                requires
                    view.input_channels >= 1,
            ;
        }
    }
    assert(0 * capacity == 0);
    assert(1 * capacity == capacity);
    if index == 0 {
        assert(chunk_of(view.upstream, capacity, 0) =~= view.upstream.take(pulled as int));
        if capacity > view.upstream.len() {
            crate::transform::lemma_nothing_ahead_of_nothing(made);
            assert(to_present(made) =~= Seq::<Seq<Seq<T>>>::empty());
        }
    } else {
        let before = (index - 1) as nat;
        assert(to_present(view)[index as int] == to_present(made)[before as int]);
        assert(made.upstream.len() > 0) by {
            if made.upstream.len() == 0 {
                crate::transform::lemma_nothing_ahead_of_nothing(made);
            }
        }
        assert(pulled == capacity);
        lemma_frame_to_present(made, before);
        assert((before + 1) * capacity == index * capacity);
        assert((index + 1) * capacity == index * capacity + capacity) by (nonlinear_arith);
        assert(index * capacity == before * capacity + capacity) by (nonlinear_arith)
            requires
                index == before + 1,
        ;
        assert(before * capacity >= 0) by (nonlinear_arith)
            requires
                before >= 0,
                capacity >= 0,
        ;
        assert(chunk_of(made.upstream, capacity, before) =~= chunk_of(
            view.upstream,
            capacity,
            index,
        ));
    }
}

/// Multi-channel round-robin correctness: in every frame that the
/// processor is shown, sample `i` of channel `c` is the upstream sample
/// that came at place `i * channels + c` of the frame's run. For two
/// channels that yield `L0, R0, L1, R1, ...` channel 0 holds `L0, L1, ...`
/// and channel 1 holds `R0, R1, ...`. A place that the run does not reach
/// holds silence.
pub proof fn law_round_robin<T: Copy, P: FrameProcessor<T>>(
    view: TransformView<T, P>,
    index: nat,
    channel: nat,
    sample: nat,
)
    requires
        view.input_channels >= 1,
        index < to_present(view).len(),
        channel < view.input_channels,
        sample < view.frame_length,
    ensures
        ({
            let capacity = view.input_channels * view.frame_length;
            let place = index * capacity + sample * view.input_channels + channel;
            to_present(view)[index as int][channel as int][sample as int] == (if place
                < view.upstream.len() {
                view.upstream[place as int]
            } else {
                view.silence
            })
        }),
{
    let inputs = view.input_channels;
    let capacity = inputs * view.frame_length;
    lemma_frame_to_present(view, index);
    let chunk = chunk_of(view.upstream, capacity, index);
    let within = sample * inputs + channel;
    assert(within < capacity) by (nonlinear_arith)
        requires
            channel < inputs,
            sample + 1 <= view.frame_length,
            capacity == inputs * view.frame_length,
            within == sample * inputs + channel,
    ;
    assert((index + 1) * capacity == index * capacity + capacity) by (nonlinear_arith);
    assert(index * capacity >= 0) by (nonlinear_arith)
        requires
            index >= 0,
            capacity >= 0,
    ;
}

/// Silence padding: where a single-channel upstream holds one full frame
/// and `rest` samples more, fewer than a frame, the second frame that the
/// processor is shown holds silence from place `rest` on.
pub proof fn law_short_frame_is_padded<T: Copy, P: FrameProcessor<T>>(
    view: TransformView<T, P>,
    rest: nat,
    sample: nat,
)
    requires
        view.input_channels == 1,
        0 < rest < view.frame_length,
        view.upstream.len() == view.frame_length + rest,
        rest <= sample < view.frame_length,
    ensures
        to_present(view).len() == 2,
        to_present(view)[1][0][sample as int] == view.silence,
{
    let length = view.frame_length;
    assert(1 * length == length);
    let made = view.advance();
    assert(view.pulled() == length);
    assert(view.rounds() == length);
    assert(made.upstream.len() == rest);
    assert(made.pulled() == rest);
    assert(made.rounds() == rest);
    let last = made.advance();
    crate::transform::lemma_nothing_ahead_of_nothing(last);
    assert(to_present(last) =~= Seq::<Seq<Seq<T>>>::empty());
    assert(to_present(made).len() == 1);
    assert(to_present(view).len() == 2);
    law_round_robin(view, 1, 0, sample);
    assert(1 * (1 * length) + sample * 1 + 0 == length + sample);
}

/// What the processor was shown, it was shown as planned: of an adapter
/// that started fresh, frame number `index` of those presented after any
/// number of pulls is frame number `index` of those that were to be
/// presented at the start.
pub proof fn law_presented_as_planned<T: Copy, P: FrameProcessor<T>>(
    view: TransformView<T, P>,
    calls: nat,
    index: nat,
)
    requires
        view.is_fresh(),
        index < view.after(calls).presented.len(),
    ensures
        index < to_present(view).len(),
        view.after(calls).presented[index as int] == to_present(view)[index as int],
{
    lemma_presented_is_prefix(view, calls);
}

} // verus!
