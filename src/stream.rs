use vstd::prelude::*;

use crate::error::RenderError;

verus! {

/// Nanoseconds in one second.
pub const NANOS_PER_SECOND: u64 = 1_000_000_000;

/// Frame rate assumed when a stream declares a degenerate rate.
pub const FALLBACK_FPS: u64 = 30;

/// The upper half of a packed 64-bit attribute (Media Foundation keeps the
/// width, or the rate's numerator, there).
pub open spec fn high_half(packed: u64) -> nat {
    (packed as nat) / 0x1_0000_0000
}

/// The lower half of a packed 64-bit attribute (the height, or the rate's
/// denominator).
pub open spec fn low_half(packed: u64) -> nat {
    (packed as nat) % 0x1_0000_0000
}

/// A declared rate is degenerate when either side of the fraction is zero.
pub open spec fn rate_is_degenerate(numerator: nat, denominator: nat) -> bool {
    numerator == 0 || denominator == 0
}

/// Spacing between two frames, in nanoseconds, for a rate of
/// `numerator / denominator` frames per second.
pub open spec fn duration_for_rate(numerator: nat, denominator: nat) -> nat {
    if rate_is_degenerate(numerator, denominator) {
        NANOS_PER_SECOND as nat / FALLBACK_FPS as nat
    } else {
        (NANOS_PER_SECOND as nat * denominator) / numerator
    }
}

/// What one open stream reports: its native resolution and the spacing
/// between frames. Fixed for the life of the stream.
#[derive(Clone, Copy, Debug, PartialEq, Eq)]
pub struct StreamInfo {
    pub width: u32,
    pub height: u32,
    pub frame_duration_ns: u64,
}

impl StreamInfo {
    /// Builds the stream description from the packed frame-size attribute and
    /// the packed frame-rate attribute (`None` when the stream declares none,
    /// which counts as degenerate).
    pub fn from_attributes(frame_size: u64, frame_rate: Option<u64>) -> (r: StreamInfo)
        ensures
            r.width as nat == high_half(frame_size),
            r.height as nat == low_half(frame_size),
            r.frame_duration_ns as nat == match frame_rate {
                Some(rate) => duration_for_rate(high_half(rate), low_half(rate)),
                None => duration_for_rate(0, 0),
            },
    {
        let (width, height) = split_packed(frame_size);
        let frame_duration_ns = match frame_rate {
            Some(rate) => {
                let (numerator, denominator) = split_packed(rate);
                frame_duration_ns(numerator, denominator)
            },
            None => frame_duration_ns(0, 0),
        };
        StreamInfo { width, height, frame_duration_ns }
    }

    /// The native `(width, height)` of the stream.
    pub fn native_resolution(&self) -> (r: (u32, u32))
        ensures
            r == (self.width, self.height),
    {
        (self.width, self.height)
    }

    /// The spacing between frames, in nanoseconds.
    pub fn frame_duration(&self) -> (r: u64)
        ensures
            r == self.frame_duration_ns,
    {
        self.frame_duration_ns
    }
}

/// Splits a packed attribute into its upper and lower 32-bit halves.
pub fn split_packed(packed: u64) -> (r: (u32, u32))
    ensures
        r.0 as nat == high_half(packed),
        r.1 as nat == low_half(packed),
{
    ((packed / 0x1_0000_0000) as u32, (packed % 0x1_0000_0000) as u32)
}

/// Spacing between frames for a declared rate of `numerator / denominator`
/// frames per second; a degenerate rate falls back to thirty frames a second
/// instead of dividing by zero.
pub fn frame_duration_ns(numerator: u32, denominator: u32) -> (r: u64)
    ensures
        r as nat == duration_for_rate(numerator as nat, denominator as nat),
{
    if numerator == 0 || denominator == 0 {
        NANOS_PER_SECOND / FALLBACK_FPS
    } else {
        let scaled: u64 = NANOS_PER_SECOND * (denominator as u64);
        assert(scaled as nat == NANOS_PER_SECOND as nat * denominator as nat);
        scaled / (numerator as u64)
    }
}

/// Output pixel formats, in the order in which they are offered to the decoder.
#[derive(Clone, Copy, Debug, PartialEq, Eq)]
pub enum PixelFormat {
    Rgb32,
    Rgb24,
    Nv12,
    Yuy2,
}

/// The formats offered to the decoder, most preferred first.
pub open spec fn format_priority() -> Seq<PixelFormat> {
    seq![PixelFormat::Rgb32, PixelFormat::Rgb24, PixelFormat::Nv12, PixelFormat::Yuy2]
}

/// The format offered at a given attempt, if any is left.
pub fn format_at(attempt: usize) -> (r: Option<PixelFormat>)
    ensures
        attempt < format_priority().len() ==> r == Some(format_priority()[attempt as int]),
        attempt >= format_priority().len() ==> r is None,
{
    match attempt {
        0 => Some(PixelFormat::Rgb32),
        1 => Some(PixelFormat::Rgb24),
        2 => Some(PixelFormat::Nv12),
        3 => Some(PixelFormat::Yuy2),
        _ => None,
    }
}

/// Where the format negotiation stands.
#[derive(Clone, Copy, Debug, PartialEq, Eq)]
pub enum Negotiation {
    /// The format at this attempt is to be offered next.
    Trying(usize),
    /// The decoder accepted this format.
    Settled(PixelFormat),
    /// The decoder accepted none of the formats.
    Exhausted,
}

/// The result of negotiating against the decoder's answers, one per format
/// offered, in priority order.
pub open spec fn negotiated(answers: Seq<bool>) -> Negotiation {
    negotiated_from(answers, 0)
}

/// The result of negotiating from attempt `from` on.
pub open spec fn negotiated_from(answers: Seq<bool>, from: nat) -> Negotiation
    decreases format_priority().len() - from,
{
    if from >= format_priority().len() {
        Negotiation::Exhausted
    } else if from >= answers.len() {
        Negotiation::Trying(from as usize)
    } else if answers[from as int] {
        Negotiation::Settled(format_priority()[from as int])
    } else {
        negotiated_from(answers, from + 1)
    }
}

/// One step of the negotiation: the decoder's answer to the pending format.
pub open spec fn recorded(n: Negotiation, accepted: bool) -> Negotiation {
    match n {
        Negotiation::Trying(i) => if i >= format_priority().len() {
            Negotiation::Exhausted
        } else if accepted {
            Negotiation::Settled(format_priority()[i as int])
        } else if i + 1 >= format_priority().len() {
            Negotiation::Exhausted
        } else {
            Negotiation::Trying((i + 1) as usize)
        },
        _ => n,
    }
}

impl Negotiation {
    /// A negotiation that has offered nothing yet.
    pub fn start() -> (r: Negotiation)
        ensures
            r == negotiated(Seq::empty()),
    {
        Negotiation::Trying(0)
    }

    /// The format to offer next, while the negotiation goes on.
    pub fn pending_format(&self) -> (r: Option<PixelFormat>)
        ensures
            match *self {
                Negotiation::Trying(i) => r == if i < format_priority().len() {
                    Some(format_priority()[i as int])
                } else {
                    None::<PixelFormat>
                },
                _ => r is None,
            },
    {
        match *self {
            Negotiation::Trying(i) => format_at(i),
            _ => None,
        }
    }

    /// The format a finished negotiation settled on; a negotiation that
    /// settled on none (exhausted, or abandoned while still trying) fails to
    /// open the stream, and no default format is guessed.
    pub fn outcome(&self) -> (r: Result<PixelFormat, RenderError>)
        ensures
            match *self {
                Negotiation::Settled(f) => r == Ok::<PixelFormat, RenderError>(f),
                _ => r == Err::<PixelFormat, RenderError>(RenderError::OpenFailed),
            },
    {
        match *self {
            Negotiation::Settled(f) => Ok(f),
            _ => Err(RenderError::OpenFailed),
        }
    }

    /// Records the decoder's answer to the format offered last: the first
    /// accepted format settles the negotiation, and running out of formats
    /// exhausts it.
    pub fn record(self, accepted: bool) -> (r: Negotiation)
        ensures
            r == recorded(self, accepted),
    {
        match self {
            Negotiation::Trying(i) => {
                match format_at(i) {
                    None => Negotiation::Exhausted,
                    Some(format) => {
                        if accepted {
                            Negotiation::Settled(format)
                        } else if i + 1 >= 4 {
                            Negotiation::Exhausted
                        } else {
                            Negotiation::Trying(i + 1)
                        }
                    },
                }
            },
            _ => self,
        }
    }
}

/// Negotiation from attempt `from` on, one answer longer, is one more step.
proof fn lemma_negotiated_from_push(answers: Seq<bool>, accepted: bool, from: nat)
    requires
        from <= answers.len(),
    ensures
        negotiated_from(answers.push(accepted), from) == recorded(
            negotiated_from(answers, from),
            accepted,
        ),
    decreases format_priority().len() - from,
{
    if from < format_priority().len() && from < answers.len() {
        assert(answers.push(accepted)[from as int] == answers[from as int]);
        if !answers[from as int] {
            lemma_negotiated_from_push(answers, accepted, from + 1);
        }
    } else if from < format_priority().len() {
        assert(answers.push(accepted)[from as int] == accepted);
        if !accepted && from + 1 < format_priority().len() {
            assert(negotiated_from(answers.push(accepted), from + 1) == Negotiation::Trying(
                (from + 1) as usize,
            ));
        }
    }
}

/// Offering the formats in priority order and recording the decoder's answers
/// one at a time ends exactly where `negotiated` says for those answers: on the
/// first format the decoder accepted, or exhausted once all four were refused.
pub proof fn lemma_negotiation_follows_answers(answers: Seq<bool>, accepted: bool)
    ensures
        negotiated(answers.push(accepted)) == recorded(negotiated(answers), accepted),
{
    lemma_negotiated_from_push(answers, accepted, 0);
}

} // verus!
