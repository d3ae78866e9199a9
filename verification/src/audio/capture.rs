//! What the capture path does with each buffer that the device hands over:
//! drop it if the session has ended, mix its channels down to one, convert
//! it to the target rate.

use vstd::prelude::*;
use vstd::string::StringExecFns;
use crate::audio::resampler::{Resampler, resampled, carried};
use crate::error::{AppError, AppErrorView, prefixed};

verus! {

/// The rate at which the transcription engines take audio.
pub const TARGET_SAMPLE_RATE: u32 = 16000;

/// The sum of the samples.
pub open spec fn sample_sum(frame: Seq<i16>) -> int
    decreases frame.len(),
{
    if frame.len() == 0 {
        0
    } else {
        sample_sum(frame.drop_last()) + frame.last() as int
    }
}

/// The quotient rounded toward zero.
pub open spec fn quotient_toward_zero(a: int, b: int) -> int {
    if a >= 0 {
        a / b
    } else {
        -((-a) / b)
    }
}

/// One output sample for a frame: the frame's sum over the channel count,
/// rounded toward zero. A last frame that is short is still divided by the
/// channel count.
pub open spec fn frame_mean(frame: Seq<i16>, channels: int) -> i16 {
    quotient_toward_zero(sample_sum(frame), channels) as i16
}

/// The interleaved samples mixed down frame by frame.
pub open spec fn mixed_frames(data: Seq<i16>, channels: int) -> Seq<i16>
    decreases data.len(),
{
    if data.len() == 0 || channels <= 0 {
        Seq::empty()
    } else {
        let n = if channels < data.len() {
            channels
        } else {
            data.len() as int
        };
        seq![frame_mean(data.take(n), channels)] + mixed_frames(data.skip(n), channels)
    }
}

/// The mono signal of interleaved samples: with more than one channel the
/// frames' means, else the samples themselves.
pub open spec fn mono(data: Seq<i16>, channels: int) -> Seq<i16> {
    if channels > 1 {
        mixed_frames(data, channels)
    } else {
        data
    }
}

/// A frame's sum stays within the frame's length times the sample range.
pub proof fn lemma_sample_sum_bounds(frame: Seq<i16>)
    ensures
        -32768 * frame.len() <= sample_sum(frame) <= 32767 * frame.len(),
    decreases frame.len(),
{
    if frame.len() > 0 {
        lemma_sample_sum_bounds(frame.drop_last());
    }
}

/// A frame's mean is a sample: it lies within the sample range.
pub proof fn lemma_frame_mean_in_range(frame: Seq<i16>, channels: int)
    requires
        0 < channels,
        frame.len() <= channels,
    ensures
        -32768 <= quotient_toward_zero(sample_sum(frame), channels) <= 32767,
{
    lemma_sample_sum_bounds(frame);
    let sum = sample_sum(frame);
    let len = frame.len() as int;
    assert(32767 * len <= 32767 * channels) by (nonlinear_arith)
        requires
            len <= channels,
    ;
    assert(32768 * len <= 32768 * channels) by (nonlinear_arith)
        requires
            len <= channels,
    ;
    if sum >= 0 {
        assert(sum / channels <= 32767) by (nonlinear_arith)
            requires
                0 <= sum <= 32767 * channels,
                channels > 0,
        ;
        assert(sum / channels >= 0) by (nonlinear_arith)
            requires
                0 <= sum,
                channels > 0,
        ;
    } else {
        assert((-sum) / channels <= 32768) by (nonlinear_arith)
            requires
                0 <= -sum <= 32768 * channels,
                channels > 0,
        ;
        assert((-sum) / channels >= 0) by (nonlinear_arith)
            requires
                0 <= -sum,
                channels > 0,
        ;
    }
}

/// Mixes interleaved samples down to one channel.
pub fn mix_to_mono(data: &[i16], channels: u16) -> (out: Vec<i16>)
    ensures
        out@ == mono(data@, channels as int),
        out@.len() <= data@.len(),
{
    if channels <= 1 {
        return vstd::slice::slice_to_vec(data);
    }
    let len: usize = data.len();
    let width: usize = channels as usize;
    let divisor: i32 = channels as i32;
    let mut out: Vec<i16> = Vec::new();
    let mut start: usize = 0;
    assert(data@.skip(0) =~= data@);
    while start < len
        invariant
            len == data@.len(),
            width == channels,
            divisor == channels,
            channels > 1,
            0 <= start <= len,
            out@.len() <= start,
            mixed_frames(data@, channels as int) == out@ + mixed_frames(
                data@.skip(start as int),
                channels as int,
            ),
        decreases len - start,
    {
        let end: usize = if len - start > width {
            start + width
        } else {
            len
        };
        let ghost frame = data@.subrange(start as int, end as int);
        let mut sum: i32 = 0;
        let mut j: usize = start;
        while j < end
            invariant
                start <= j <= end <= len,
                len == data@.len(),
                end - start <= 65535,
                frame == data@.subrange(start as int, end as int),
                sum as int == sample_sum(frame.take(j - start)),
            decreases end - j,
        {
            proof {
                let upto = frame.take(j - start + 1);
                assert(upto.drop_last() =~= frame.take(j - start));
                assert(upto.last() == data@[j as int]);
                lemma_sample_sum_bounds(frame.take(j - start));
            }
            sum = sum + data[j] as i32;
            j += 1;
        }
        proof {
            assert(frame.take(end - start) =~= frame);
            lemma_sample_sum_bounds(frame);
            lemma_frame_mean_in_range(frame, channels as int);
            assert(-2147450880 <= sum <= 2147450880);
        }
        let ghost before = out@;
        let mean: i32 = if sum >= 0 {
            sum / divisor
        } else {
            -((-sum) / divisor)
        };
        out.push(mean as i16);
        proof {
            let rest = data@.skip(start as int);
            assert(rest.take(end - start) =~= frame);
            assert(rest.skip(end - start) =~= data@.skip(end as int));
            assert(out@ + mixed_frames(data@.skip(end as int), channels as int) =~= before
                + mixed_frames(rest, channels as int)) by {
                assert(mixed_frames(rest, channels as int) == seq![
                    frame_mean(frame, channels as int),
                ] + mixed_frames(data@.skip(end as int), channels as int));
            }
        }
        start = end;
    }
    assert(data@.skip(len as int) =~= Seq::<i16>::empty());
    assert(out@ + Seq::<i16>::empty() =~= out@);
    out
}

/// One open microphone stream, as the capture path sees it.
pub struct CaptureSession {
    active: bool,
    channels: u16,
    resampler: Resampler,
}

impl CaptureSession {
    /// The rate to which the session converts.
    pub closed spec fn target_rate(&self) -> int {
        self.resampler.target_rate()
    }

    /// Whether buffers are still taken.
    pub closed spec fn active(&self) -> bool {
        self.active
    }

    /// The number of interleaved channels that the device delivers.
    pub closed spec fn channels(&self) -> int {
        self.channels as int
    }

    /// The rate at which the device delivers.
    pub closed spec fn source_rate(&self) -> int {
        self.resampler.source_rate()
    }

    /// The converter's accumulator.
    pub closed spec fn accumulator(&self) -> int {
        self.resampler.accumulator()
    }

    /// What an active session hands on for a mono buffer.
    pub open spec fn converted(&self, mono: Seq<i16>) -> Seq<i16> {
        resampled(self.accumulator(), self.source_rate(), self.target_rate(), mono)
    }

    /// The session for a stream that was just opened: active, at the start
    /// of the stream.
    pub fn open(source_rate: u32, channels: u16) -> (s: Self)
        ensures
            s.active(),
            s.channels() == channels,
            s.source_rate() == source_rate,
            s.target_rate() == TARGET_SAMPLE_RATE,
            s.accumulator() == 0,
    {
        CaptureSession {
            active: true,
            channels,
            resampler: Resampler::new(source_rate, TARGET_SAMPLE_RATE),
        }
    }

    /// Whether buffers are still taken.
    pub fn is_active(&self) -> (b: bool)
        ensures
            b == self.active(),
    {
        self.active
    }

    /// Ends the session: buffers that still arrive are dropped. Ending an
    /// ended session changes nothing.
    pub fn stop(&mut self)
        ensures
            !final(self).active(),
            final(self).channels() == old(self).channels(),
            final(self).source_rate() == old(self).source_rate(),
            final(self).target_rate() == old(self).target_rate(),
            final(self).accumulator() == old(self).accumulator(),
    {
        self.active = false;
    }

    /// Takes a buffer that is already mono.
    ///
    /// An ended session drops it and stays as it is. An active one returns
    /// it converted to the target rate.
    pub fn on_mono(&mut self, mono: &[i16]) -> (chunk: Option<Vec<i16>>)
        ensures
            final(self).active() == old(self).active(),
            final(self).channels() == old(self).channels(),
            final(self).source_rate() == old(self).source_rate(),
            final(self).target_rate() == old(self).target_rate(),
            chunk is Some == old(self).active(),
            chunk matches Some(c) ==> c@ == old(self).converted(mono@),
            final(self).accumulator() == if old(self).active() {
                carried(
                    old(self).accumulator(),
                    old(self).source_rate(),
                    old(self).target_rate(),
                    mono@,
                )
            } else {
                old(self).accumulator()
            },
    {
        if !self.active {
            return None;
        }
        let out: Vec<i16> = self.resampler.resample(mono);
        Some(out)
    }

    /// Takes a buffer of interleaved samples as the device delivers it.
    ///
    /// An ended session drops it and stays as it is. An active one mixes
    /// it down to one channel and returns that converted to the target
    /// rate.
    pub fn on_samples(&mut self, data: &[i16]) -> (chunk: Option<Vec<i16>>)
        ensures
            final(self).active() == old(self).active(),
            final(self).channels() == old(self).channels(),
            final(self).source_rate() == old(self).source_rate(),
            final(self).target_rate() == old(self).target_rate(),
            chunk is Some == old(self).active(),
            chunk matches Some(c) ==> c@ == old(self).converted(
                mono(data@, old(self).channels()),
            ),
            final(self).accumulator() == if old(self).active() {
                carried(
                    old(self).accumulator(),
                    old(self).source_rate(),
                    old(self).target_rate(),
                    mono(data@, old(self).channels()),
                )
            } else {
                old(self).accumulator()
            },
    {
        if !self.active {
            return None;
        }
        let mixed: Vec<i16> = mix_to_mono(data, self.channels);
        self.on_mono(mixed.as_slice())
    }
}

/// Why a stream could not be opened.
#[derive(Debug, Clone, PartialEq, Eq)]
pub enum CaptureFailure {
    /// The host has no default input device.
    NoInputDevice,
    /// The device gave no default input configuration.
    InputConfig(String),
    /// The device delivers samples in a format that is not taken.
    UnsupportedFormat(String),
    /// The stream could not be built.
    BuildStream(String),
    /// The stream could not be started.
    StartStream(String),
}

/// The message of the audio error for a failure.
pub open spec fn capture_failure_text(failure: CaptureFailure) -> Seq<char> {
    match failure {
        CaptureFailure::NoInputDevice => "No input device available"@,
        CaptureFailure::InputConfig(cause) => "Failed to get input config: "@ + cause@,
        CaptureFailure::UnsupportedFormat(name) => "Unsupported sample format: "@ + name@,
        CaptureFailure::BuildStream(cause) => "Failed to build stream: "@ + cause@,
        CaptureFailure::StartStream(cause) => "Failed to start stream: "@ + cause@,
    }
}

/// The error that a failed start reports.
pub fn capture_error(failure: &CaptureFailure) -> (e: AppError)
    ensures
        e@ == AppErrorView::Audio(capture_failure_text(*failure)),
{
    let text: String = match failure {
        CaptureFailure::NoInputDevice => String::from_str("No input device available"),
        CaptureFailure::InputConfig(cause) => prefixed(
            "Failed to get input config: ",
            cause.as_str(),
        ),
        CaptureFailure::UnsupportedFormat(name) => prefixed(
            "Unsupported sample format: ",
            name.as_str(),
        ),
        CaptureFailure::BuildStream(cause) => prefixed("Failed to build stream: ", cause.as_str()),
        CaptureFailure::StartStream(cause) => prefixed("Failed to start stream: ", cause.as_str()),
    };
    AppError::Audio(text)
}

} // verus!
