//! A display front-end that shrugs off controller failures, and the ticker
//! that scrolls a message across it.
use crate::font::{glyph, glyph_of};
use crate::frame::{compose_frame, scroll_frame};
use crate::panel::{intensity_for, scaled_brightness, DataError, Panel};
use vstd::prelude::*;
use vstd::string::StringSliceAdditionalSpecFns;

verus! {

/// Drives a matrix panel, keeping track of whether it is powered and of the
/// brightness last asked for. Failures of the controller are not reported:
/// the display keeps going as if each call had worked.
pub struct DotDisplay<P> {
    display: P,
    display_is_on: bool,
    brightness: usize,
}

impl<P: Panel> DotDisplay<P> {
    /// Whether the panel is powered, as far as this display knows.
    pub closed spec fn spec_is_on(&self) -> bool {
        self.display_is_on
    }

    /// Brightness last set, scaled to `0..=255` (above 255 for requests above
    /// 100 %).
    pub closed spec fn spec_brightness(&self) -> usize {
        self.brightness
    }

    /// Takes over a panel and brings it to a known state: cleared and powered
    /// off, at brightness 0.
    pub fn from(display: P) -> (r: Result<DotDisplay<P>, DataError>)
        ensures
            r matches Ok(d) && !d.spec_is_on() && d.spec_brightness() == 0,
    {
        let mut controller = DotDisplay { display, display_is_on: true, brightness: 0 };
        let _ = controller.reset_display();
        let _ = controller.turn_off_display();
        Ok(controller)
    }

    /// Shows a frame, powering the panel on first if it is off.
    pub fn write_display(&mut self, input: &[u8; 8]) -> (r: Result<(), DataError>)
        ensures
            r is Ok,
            final(self).spec_is_on(),
            final(self).spec_brightness() == old(self).spec_brightness(),
    {
        if !self.display_is_on {
            let _ = self.turn_on_display();
        }
        let _ = self.display.write_raw(input);
        Ok(())
    }

    /// Powers the panel off.
    pub fn turn_off_display(&mut self) -> (r: Result<(), DataError>)
        ensures
            r is Ok,
            !final(self).spec_is_on(),
            final(self).spec_brightness() == old(self).spec_brightness(),
    {
        let _ = self.display.power_off();
        self.display_is_on = false;
        Ok(())
    }

    /// Powers the panel on.
    pub fn turn_on_display(&mut self) -> (r: Result<(), DataError>)
        ensures
            r is Ok,
            final(self).spec_is_on(),
            final(self).spec_brightness() == old(self).spec_brightness(),
    {
        let _ = self.display.power_on();
        self.display_is_on = true;
        Ok(())
    }

    /// Powers the panel off if it is on, and on if it is off.
    pub fn toggle_display(&mut self) -> (r: Result<(), DataError>)
        ensures
            r is Ok,
            final(self).spec_is_on() == !old(self).spec_is_on(),
            final(self).spec_brightness() == old(self).spec_brightness(),
    {
        if self.display_is_on {
            let _ = self.turn_off_display();
        } else {
            let _ = self.turn_on_display();
        }
        Ok(())
    }

    /// Blanks the panel.
    pub fn reset_display(&mut self) -> (r: Result<(), DataError>)
        ensures
            r is Ok,
            final(self).spec_is_on() == old(self).spec_is_on(),
            final(self).spec_brightness() == old(self).spec_brightness(),
    {
        let _ = self.display.clear_display();
        Ok(())
    }

    /// Sets the brightness in percent. A request above 100 % is not refused:
    /// the panel gets its full intensity and the recorded brightness goes above
    /// 255.
    pub fn set_brightness(&mut self, brightness: u8) -> (r: Result<(), DataError>)
        ensures
            r is Ok,
            final(self).spec_is_on() == old(self).spec_is_on(),
            final(self).spec_brightness() as int == scaled_brightness(brightness),
    {
        let _ = self.display.set_intensity(intensity_for(brightness));
        self.brightness = brightness as usize * 255 / 100;
        Ok(())
    }

    /// Brightness last set, scaled to `0..=255`.
    #[verifier::when_used_as_spec(spec_brightness)]
    pub fn brightness(&self) -> (r: usize)
        ensures
            r == self.spec_brightness(),
    {
        self.brightness
    }

    /// Whether the panel is powered, as far as this display knows.
    #[verifier::when_used_as_spec(spec_is_on)]
    pub fn is_on(&self) -> (r: bool)
        ensures
            r == self.spec_is_on(),
    {
        self.display_is_on
    }
}

/// Number of bytes a ticker's message buffer holds, the separator included.
pub const MESSAGE_CAPACITY: usize = 100;

/// Time between two ticks that makes the scroll look smooth, in milliseconds.
pub const DEFAULT_SPEED_MS: usize = 70;

/// Byte appended to every message, to leave a gap before it repeats.
pub const SEPARATOR: u8 = 32;

/// Why a ticker refused a request.
#[derive(Debug, Clone, Copy, PartialEq, Eq, Structural)]
pub enum TickerError {
    /// The message was empty.
    EmptyMessage,
    /// The message and its separator do not fit in the buffer.
    MessageTooLong,
    /// No message has been set yet, so there is nothing to scroll.
    NoMessage,
}

/// All-dark bitmap, shown before the first character of the message.
pub open spec fn blank() -> Seq<u8> {
    Seq::new(8, |i: int| 0u8)
}

/// The frame shown at scroll position `(index, sub)` of `text`: the character
/// at `index` coming in `sub` pixels behind the one before it (or behind a
/// blank at the start of the text).
pub open spec fn frame_at(text: Seq<u8>, index: int, sub: int) -> Seq<u8> {
    scroll_frame(
        if index == 0 {
            blank()
        } else {
            glyph_of(text[index - 1])
        },
        glyph_of(text[index]),
        sub as u32,
    )
}

/// The scroll position that follows `p` in a cycle of `period` positions.
pub open spec fn next_position(p: int, period: int) -> int {
    if p + 1 >= period {
        0
    } else {
        p + 1
    }
}

/// The scroll position reached from `p` after `n` ticks.
pub open spec fn position_after(p: int, n: nat, period: int) -> int
    decreases n,
{
    if n == 0 {
        p
    } else {
        next_position(position_after(p, (n - 1) as nat, period), period)
    }
}

/// Where `n` ticks lead from position `p`, for `n` at most one cycle.
proof fn lemma_position_after(p: int, n: nat, period: int)
    requires
        0 <= p < period,
        n <= period,
    ensures
        position_after(p, n, period) == if p + n < period {
            p + n
        } else {
            p + n - period
        },
    decreases n,
{
    if n > 0 {
        lemma_position_after(p, (n - 1) as nat, period);
    }
}

/// Scrolling is periodic: from any position of a message of `len` bytes,
/// `8 * len` ticks lead back to that same position, and so to the same
/// character index and pixel offset.
pub proof fn lemma_scroll_is_periodic(p: int, len: int)
    requires
        len >= 1,
        0 <= p < 8 * len,
    ensures
        position_after(p, (8 * len) as nat, 8 * len) == p,
{
    lemma_position_after(p, (8 * len) as nat, 8 * len);
}

/// Scrolls a message across a display, one pixel column per tick.
///
/// When the message is replaced, the scroll goes on from where it was as long
/// as that place lies within the new message; otherwise it starts over.
pub struct Ticker<P> {
    shift: u32,
    index: usize,
    speed_ms: usize,
    message: Vec<u8>,
    display: DotDisplay<P>,
}

impl<P: Panel> Ticker<P> {
    /// The message being scrolled, separator included; empty until one is set.
    pub closed spec fn text(&self) -> Seq<u8> {
        self.message@
    }

    /// Time between two ticks, in milliseconds.
    pub closed spec fn spec_speed_ms(&self) -> usize {
        self.speed_ms
    }

    /// The display the frames go to.
    pub closed spec fn panel(&self) -> DotDisplay<P> {
        self.display
    }

    /// The scroll cursor: index of the character coming in, and how many
    /// pixels of it are in view, below 8.
    pub closed spec fn cursor(&self) -> (int, int) {
        if self.shift >= 8 {
            (
                if self.index + 1 >= self.message@.len() {
                    0
                } else {
                    self.index + 1
                },
                0,
            )
        } else {
            (self.index as int, self.shift as int)
        }
    }

    /// The cursor as a single number: `8 * index + sub`.
    pub open spec fn position(&self) -> int {
        8 * self.cursor().0 + self.cursor().1
    }

    /// Number of positions in one scroll cycle.
    pub open spec fn period(&self) -> int {
        8 * self.text().len() as int
    }

    /// The ticker's own invariant.
    pub closed spec fn wf(&self) -> bool {
        &&& self.shift <= 8
        &&& self.message@.len() <= MESSAGE_CAPACITY
        &&& self.message@.len() == 0 ==> self.index == 0 && self.shift == 0
        &&& self.message@.len() > 0 ==> self.index < self.message@.len()
    }

    /// With a message set, the cursor lies inside the message and so inside
    /// one scroll cycle.
    pub proof fn lemma_cursor_in_cycle(&self)
        requires
            self.wf(),
            self.text().len() > 0,
        ensures
            0 <= self.cursor().0 < self.text().len(),
            0 <= self.cursor().1 < 8,
            0 <= self.position() < self.period(),
    {
    }

    /// A ticker with no message, at the start of the scroll.
    pub fn new(display: DotDisplay<P>) -> (r: Ticker<P>)
        ensures
            r.wf(),
            r.text().len() == 0,
            r.cursor() == (0int, 0int),
            r.spec_speed_ms() == DEFAULT_SPEED_MS,
            r.panel() == display,
    {
        Ticker { shift: 0, index: 0, speed_ms: DEFAULT_SPEED_MS, message: Vec::new(), display }
    }

    /// Time between two ticks, in milliseconds.
    #[verifier::when_used_as_spec(spec_speed_ms)]
    pub fn speed_ms(&self) -> (r: usize)
        ensures
            r == self.spec_speed_ms(),
    {
        self.speed_ms
    }

    /// Changes the time between two ticks.
    pub fn set_speed_ms(&mut self, speed_ms: usize)
        requires
            old(self).wf(),
        ensures
            final(self).wf(),
            final(self).spec_speed_ms() == speed_ms,
            final(self).text() == old(self).text(),
            final(self).cursor() == old(self).cursor(),
            final(self).panel() == old(self).panel(),
    {
        self.speed_ms = speed_ms;
    }

    /// The message being scrolled, separator included.
    pub fn message(&self) -> (r: &[u8])
        ensures
            r@ == self.text(),
    {
        self.message.as_slice()
    }

    /// The display the frames go to.
    pub fn display(&self) -> (r: &DotDisplay<P>)
        ensures
            *r == self.panel(),
    {
        &self.display
    }

    /// The display the frames go to, to change it in place (its brightness,
    /// its power); the message and the scroll are not affected.
    pub fn display_mut(&mut self) -> (r: &mut DotDisplay<P>)
        requires
            old(self).wf(),
        ensures
            *r == old(self).panel(),
            final(self).panel() == *final(r),
            final(self).wf(),
            final(self).text() == old(self).text(),
            final(self).cursor() == old(self).cursor(),
            final(self).spec_speed_ms() == old(self).spec_speed_ms(),
    {
        &mut self.display
    }

    /// Number of bytes of the message, separator included.
    pub fn message_len(&self) -> (r: usize)
        ensures
            r == self.text().len(),
    {
        self.message.len()
    }

    /// Replaces the message with `message` followed by a space.
    pub fn set_message(&mut self, message: &str) -> (r: Result<(), TickerError>)
        requires
            old(self).wf(),
        ensures
            final(self).wf(),
            final(self).panel() == old(self).panel(),
            final(self).spec_speed_ms() == old(self).spec_speed_ms(),
            message.spec_bytes().len() == 0 ==> r == Err::<(), TickerError>(
                TickerError::EmptyMessage,
            ),
            message.spec_bytes().len() + 1 > MESSAGE_CAPACITY ==> r == Err::<(), TickerError>(
                TickerError::MessageTooLong,
            ),
            r is Err ==> final(self).text() == old(self).text() && final(self).cursor() == old(
                self,
            ).cursor(),
            1 <= message.spec_bytes().len() < MESSAGE_CAPACITY ==> {
                &&& r is Ok
                &&& final(self).text() == message.spec_bytes().push(SEPARATOR)
                &&& final(self).cursor() == if old(self).cursor().0 < final(self).text().len() {
                    old(self).cursor()
                } else {
                    (0int, 0int)
                }
            },
    {
        let bytes = message.as_bytes();
        if bytes.len() == 0 {
            return Err(TickerError::EmptyMessage);
        }
        if bytes.len() >= MESSAGE_CAPACITY {
            return Err(TickerError::MessageTooLong);
        }
        let mut text: Vec<u8> = Vec::new();
        let mut i: usize = 0;
        while i < bytes.len()
            invariant
                i <= bytes@.len(),
                text@ == bytes@.subrange(0, i as int),
            decreases bytes@.len() - i,
        {
            text.push(bytes[i]);
            i = i + 1;
        }
        text.push(SEPARATOR);
        assert(bytes@.subrange(0, bytes@.len() as int) == bytes@);
        if self.shift >= 8 {
            self.shift = 0;
            self.index = if self.index + 1 >= self.message.len() {
                0
            } else {
                self.index + 1
            };
        }
        if self.index >= text.len() {
            self.index = 0;
            self.shift = 0;
        }
        self.message = text;
        Ok(())
    }

    /// Composes the frame at the cursor and moves the cursor one pixel on.
    /// Without a message there is nothing to show: the ticker is left as it is.
    pub fn next_frame(&mut self) -> (r: Result<[u8; 8], TickerError>)
        requires
            old(self).wf(),
        ensures
            final(self).wf(),
            final(self).text() == old(self).text(),
            final(self).panel() == old(self).panel(),
            final(self).spec_speed_ms() == old(self).spec_speed_ms(),
            old(self).text().len() == 0 ==> r == Err::<[u8; 8], TickerError>(
                TickerError::NoMessage,
            ) && final(self).cursor() == old(self).cursor(),
            old(self).text().len() > 0 ==> {
                &&& r matches Ok(frame) && frame@ == frame_at(
                    old(self).text(),
                    old(self).cursor().0,
                    old(self).cursor().1,
                )
                &&& final(self).position() == next_position(
                    old(self).position(),
                    old(self).period(),
                )
            },
    {
        if self.message.len() == 0 {
            return Err(TickerError::NoMessage);
        }
        if self.shift >= 8 {
            self.shift = 0;
            self.index = if self.index + 1 >= self.message.len() {
                0
            } else {
                self.index + 1
            };
        }
        let previous: [u8; 8] = if self.index > 0 {
            glyph(self.message[self.index - 1])
        } else {
            [0u8; 8]
        };
        let next = glyph(self.message[self.index]);
        proof {
            if self.index == 0 {
                assert(previous@ =~= blank());
            }
        }
        let frame = compose_frame(previous, next, self.shift);
        self.shift = self.shift + 1;
        Ok(frame)
    }

    /// Composes the frame at the cursor, shows it, and moves the cursor one
    /// pixel on. Without a message nothing is shown and the ticker is left as
    /// it is.
    pub fn tick(&mut self) -> (r: Result<(), TickerError>)
        requires
            old(self).wf(),
        ensures
            final(self).wf(),
            final(self).text() == old(self).text(),
            final(self).spec_speed_ms() == old(self).spec_speed_ms(),
            final(self).panel().spec_brightness() == old(self).panel().spec_brightness(),
            old(self).text().len() == 0 ==> r == Err::<(), TickerError>(TickerError::NoMessage)
                && final(self).cursor() == old(self).cursor() && final(self).panel() == old(
                self,
            ).panel(),
            old(self).text().len() > 0 ==> {
                &&& r is Ok
                &&& final(self).panel().spec_is_on()
                &&& final(self).position() == next_position(
                    old(self).position(),
                    old(self).period(),
                )
            },
    {
        let frame = self.next_frame()?;
        let _ = self.display.write_display(&frame);
        Ok(())
    }
}

} // verus!
