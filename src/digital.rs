//! The packed digital port word of one frame: bits `0..16` hold each pin's
//! direction (0 = output, 1 = input), bits `16..32` each pin's level.

use vstd::prelude::*;

verus! {

/// The number of digital pins that one port word describes.
pub const PINS: usize = 16;

/// The direction of a digital pin.
#[derive(Debug, Clone, Copy, PartialEq, Eq, Structural)]
pub enum DigitalDirection {
    INPUT,
    OUTPUT,
}

/// Whether bit `bit` of `word` is set.
pub open spec fn bit_set(word: u32, bit: u32) -> bool {
    (word >> bit) & 1u32 == 1u32
}

/// `word` with bit `bit` set when `on`, cleared otherwise.
pub open spec fn with_bit(word: u32, bit: u32, on: bool) -> u32 {
    if on {
        word | (1u32 << bit)
    } else {
        word & !(1u32 << bit)
    }
}

/// The bit that holds the level of pin `channel`.
pub open spec fn level_bit(channel: usize) -> u32 {
    (channel + 16) as u32
}

/// The logic level of pin `channel` in `word`.
pub open spec fn level(word: u32, channel: usize) -> bool {
    bit_set(word, level_bit(channel))
}

/// The direction of pin `channel` in `word`.
pub open spec fn direction(word: u32, channel: usize) -> DigitalDirection {
    if bit_set(word, channel as u32) {
        DigitalDirection::INPUT
    } else {
        DigitalDirection::OUTPUT
    }
}

/// `word` with the level of pin `channel` set to `value`.
pub open spec fn with_level(word: u32, channel: usize, value: bool) -> u32 {
    with_bit(word, level_bit(channel), value)
}

/// `word` with the direction of pin `channel` set to `mode`.
pub open spec fn with_direction(word: u32, channel: usize, mode: DigitalDirection) -> u32 {
    with_bit(word, channel as u32, mode == DigitalDirection::INPUT)
}

/// The port words after the level of pin `channel` is set to `value` from
/// frame `frame` to the end.
pub open spec fn written(s: Seq<u32>, frame: int, channel: usize, value: bool) -> Seq<u32> {
    Seq::new(s.len(), |i: int| if i >= frame { with_level(s[i], channel, value) } else { s[i] })
}

/// The port words after the level of pin `channel` is set to `value` at
/// frame `frame` alone.
pub open spec fn written_once(s: Seq<u32>, frame: int, channel: usize, value: bool) -> Seq<u32> {
    s.update(frame, with_level(s[frame], channel, value))
}

/// The port words after the direction of pin `channel` is set to `mode`
/// from frame `frame` to the end.
pub open spec fn moded(s: Seq<u32>, frame: int, channel: usize, mode: DigitalDirection) -> Seq<u32> {
    Seq::new(s.len(), |i: int| if i >= frame { with_direction(s[i], channel, mode) } else { s[i] })
}

/// The port words after the direction of pin `channel` is set to `mode` at
/// frame `frame` alone.
pub open spec fn moded_once(s: Seq<u32>, frame: int, channel: usize, mode: DigitalDirection) -> Seq<u32> {
    s.update(frame, with_direction(s[frame], channel, mode))
}

/// Setting one bit of a word sets that bit as asked and keeps every other bit.
pub proof fn lemma_with_bit(word: u32, bit: u32, on: bool)
    requires
        bit < 32,
    ensures
        bit_set(with_bit(word, bit, on), bit) == on,
        forall|b: u32| b < 32 && b != bit ==> bit_set(#[trigger] with_bit(word, bit, on), b) == bit_set(word, b),
{
    if on {
        assert(((word | (1u32 << bit)) >> bit) & 1u32 == 1u32) by (bit_vector)
            requires bit < 32;
    } else {
        assert(((word & !(1u32 << bit)) >> bit) & 1u32 != 1u32) by (bit_vector)
            requires bit < 32;
    }
    assert forall|b: u32| b < 32 && b != bit implies bit_set(#[trigger] with_bit(word, bit, on), b) == bit_set(word, b) by {
        if on {
            assert((((word | (1u32 << bit)) >> b) & 1u32 == 1u32) == (((word >> b) & 1u32) == 1u32)) by (bit_vector)
                requires bit < 32, b < 32, b != bit;
        } else {
            assert((((word & !(1u32 << bit)) >> b) & 1u32 == 1u32) == (((word >> b) & 1u32) == 1u32)) by (bit_vector)
                requires bit < 32, b < 32, b != bit;
        }
    }
}

/// Setting the level of a pin sets that level and keeps every other bit of
/// the word, the pin's direction included.
pub proof fn lemma_with_level(word: u32, channel: usize, value: bool)
    requires
        channel < PINS,
    ensures
        level(with_level(word, channel, value), channel) == value,
        direction(with_level(word, channel, value), channel) == direction(word, channel),
        forall|b: u32| b < 32 && b != level_bit(channel)
            ==> bit_set(#[trigger] with_level(word, channel, value), b) == bit_set(word, b),
{
    lemma_with_bit(word, level_bit(channel), value);
}

/// Setting the direction of a pin sets that direction and keeps every other
/// bit of the word, the pin's level included.
pub proof fn lemma_with_direction(word: u32, channel: usize, mode: DigitalDirection)
    requires
        channel < PINS,
    ensures
        direction(with_direction(word, channel, mode), channel) == mode,
        level(with_direction(word, channel, mode), channel) == level(word, channel),
        forall|b: u32| b < 32 && b != channel as u32
            ==> bit_set(#[trigger] with_direction(word, channel, mode), b) == bit_set(word, b),
{
    lemma_with_bit(word, channel as u32, mode == DigitalDirection::INPUT);
}

/// Setting a pin's direction at one frame and then its level at that same
/// frame leaves the pin, at that frame, with that direction and that level;
/// every other frame is untouched.
pub proof fn lemma_mode_then_write_once(
    s: Seq<u32>,
    frame: int,
    channel: usize,
    mode: DigitalDirection,
    value: bool,
)
    requires
        0 <= frame < s.len(),
        channel < PINS,
    ensures
        ({
            let t = written_once(moded_once(s, frame, channel, mode), frame, channel, value);
            &&& t.len() == s.len()
            &&& level(t[frame], channel) == value
            &&& direction(t[frame], channel) == mode
            &&& forall|i: int| 0 <= i < s.len() && i != frame ==> t[i] == s[i]
        }),
{
    let m = with_direction(s[frame], channel, mode);
    lemma_with_direction(s[frame], channel, mode);
    lemma_with_level(m, channel, value);
}

/// A persistent direction change sets the pin's direction bit at `frame` and
/// at every later frame, keeps every other bit of those words, and leaves the
/// earlier frames untouched; the single-frame form changes `frame` alone.
pub proof fn lemma_pin_mode_span(s: Seq<u32>, frame: int, channel: usize, mode: DigitalDirection)
    requires
        0 <= frame <= s.len(),
        channel < PINS,
    ensures
        moded(s, frame, channel, mode).len() == s.len(),
        forall|i: int|
            frame <= i < s.len() ==> direction(#[trigger] moded(s, frame, channel, mode)[i], channel)
                == mode,
        forall|i: int, b: u32|
            frame <= i < s.len() && b < 32 && b != channel as u32 ==> #[trigger] bit_set(
                moded(s, frame, channel, mode)[i],
                b,
            ) == bit_set(s[i], b),
        forall|i: int| 0 <= i < frame ==> #[trigger] moded(s, frame, channel, mode)[i] == s[i],
        frame < s.len() ==> direction(moded_once(s, frame, channel, mode)[frame], channel) == mode,
        forall|i: int|
            frame < s.len() && 0 <= i < s.len() && i != frame ==> #[trigger] moded_once(
                s,
                frame,
                channel,
                mode,
            )[i] == s[i],
{
    let t = moded(s, frame, channel, mode);
    assert forall|i: int| frame <= i < s.len() implies direction(#[trigger] t[i], channel) == mode by {
        lemma_with_direction(s[i], channel, mode);
    }
    assert forall|i: int, b: u32| frame <= i < s.len() && b < 32 && b != channel as u32 implies #[trigger] bit_set(
        t[i],
        b,
    ) == bit_set(s[i], b) by {
        lemma_with_direction(s[i], channel, mode);
    }
    if frame < s.len() {
        lemma_with_direction(s[frame], channel, mode);
    }
}

/// A later persistent write overrides an earlier one from its own frame on:
/// after setting a pin high from `first` and then low from `second`, the pin
/// is low from `second` on, high from `first` up to `second`, and the frames
/// before `first` are untouched.
pub proof fn lemma_later_write_overrides(s: Seq<u32>, first: int, second: int, channel: usize)
    requires
        0 <= first < second <= s.len(),
        channel < PINS,
    ensures
        ({
            let t = written(written(s, first, channel, true), second, channel, false);
            &&& t.len() == s.len()
            &&& forall|i: int| second <= i < s.len() ==> !level(#[trigger] t[i], channel)
            &&& forall|i: int| first <= i < second ==> level(#[trigger] t[i], channel)
            &&& forall|i: int| 0 <= i < first ==> #[trigger] t[i] == s[i]
        }),
{
    let h = written(s, first, channel, true);
    let t = written(h, second, channel, false);
    assert forall|i: int| second <= i < s.len() implies !level(#[trigger] t[i], channel) by {
        lemma_with_level(h[i], channel, false);
    }
    assert forall|i: int| first <= i < second implies level(#[trigger] t[i], channel) by {
        lemma_with_level(s[i], channel, true);
    }
}

} // verus!
