//! Driver-side encoder for HD44780-class character LCD displays reached
//! through a Linux auxiliary-display character device.
//!
//! The crate turns a closed vocabulary of display operations (clear, cursor
//! movement, backlight control, custom glyph definition, ...) into the exact
//! escape-sequence byte stream the kernel `charlcd` driver expects, and hands
//! those bytes to a buffered byte sink.  The encoding itself is specified
//! byte-for-byte and proved: every operation maps to exactly one sequence,
//! and a ghost decoder witnesses that the mapping loses nothing.

use vstd::prelude::*;

pub mod codes;
pub mod custom_char;
pub mod decode;
pub mod of_node;
pub mod sink;

use crate::codes::SpecialCode;
use crate::codes::WriteInto;
use crate::codes::spec_encoding;
use crate::codes::spec_valid;
use crate::custom_char::spec_pack_rows;
use crate::custom_char::lemma_pack_rows_fits;
use crate::sink::MemSink;
use crate::sink::Sink;

verus! {

/// How an operation on the display can fail.
///
/// Transport failures come from the underlying byte sink; validation
/// failures are raised by the encoder itself, before any byte reaches the
/// sink, so the two are always distinguishable.
#[derive(Clone, Copy, Debug, PartialEq, Eq)]
pub enum ScreenError {
    /// The underlying sink refused the bytes.
    Transport,
    /// A custom-glyph slot index outside the 8 hardware slots was given.
    BadCharIndex,
}

/// A screen that sends commands to a charlcd driver through any byte sink.
///
/// The screen holds no display state of its own: cursor, blink, backlight
/// and font modes live in the hardware, and the screen only emits the byte
/// sequences that change them.  Everything the screen has ever handed to its
/// sink is visible in specifications through [`Screen::sent`].
pub struct Screen<T> {
    writer: T,
}

impl<T: Sink> Screen<T> {
    /// All bytes this screen has handed to its sink, oldest first.
    pub closed spec fn sent(&self) -> Seq<u8> {
        self.writer.accepted()
    }

    /// Create a new [`Screen`] that will use the provided sink to send
    /// commands.
    pub fn new(writer: T) -> (s: Screen<T>)
        ensures
            s.sent() == writer.accepted(),
    {
        Screen { writer }
    }

    /// Encode one operation and hand its bytes to the sink.
    fn send(&mut self, code: SpecialCode) -> (r: Result<(), ScreenError>)
        ensures
            match r {
                Ok(_) => spec_valid(code) && final(self).sent() == old(self).sent()
                    + spec_encoding(code),
                Err(e) => final(self).sent() == old(self).sent() && (match e {
                    ScreenError::Transport => spec_valid(code),
                    ScreenError::BadCharIndex => !spec_valid(code),
                }),
            },
    {
        match code.write_into(&mut self.writer) {
            Ok(_) => Ok(()),
            Err(e) => Err(e),
        }
    }

    /// Clean the rest of the current line, from the current cursor position.
    pub fn kill_eol(&mut self) -> (r: Result<(), ScreenError>)
        ensures
            match r {
                Ok(_) => final(self).sent() == old(self).sent()
                    + spec_encoding(SpecialCode::KillEndOfLine),
                Err(e) => e == ScreenError::Transport && final(self).sent() == old(self).sent(),
            },
    {
        self.send(SpecialCode::KillEndOfLine)
    }

    /// Reinitialize the display to its default hardware values.
    pub fn reinit(&mut self) -> (r: Result<(), ScreenError>)
        ensures
            match r {
                Ok(_) => final(self).sent() == old(self).sent()
                    + spec_encoding(SpecialCode::ReinitializeDisplay),
                Err(e) => e == ScreenError::Transport && final(self).sent() == old(self).sent(),
            },
    {
        self.send(SpecialCode::ReinitializeDisplay)
    }

    /// Disable the display; the content is kept in the screen buffer.
    pub fn display_off(&mut self) -> (r: Result<(), ScreenError>)
        ensures
            match r {
                Ok(_) => final(self).sent() == old(self).sent()
                    + spec_encoding(SpecialCode::DisplayOff),
                Err(e) => e == ScreenError::Transport && final(self).sent() == old(self).sent(),
            },
    {
        self.send(SpecialCode::DisplayOff)
    }

    /// Enable the display, showing the buffered content again.
    pub fn display_on(&mut self) -> (r: Result<(), ScreenError>)
        ensures
            match r {
                Ok(_) => final(self).sent() == old(self).sent()
                    + spec_encoding(SpecialCode::DisplayOn),
                Err(e) => e == ScreenError::Transport && final(self).sent() == old(self).sent(),
            },
    {
        self.send(SpecialCode::DisplayOn)
    }

    /// Enable the underscore cursor (independent of the blinking cursor).
    pub fn cursor_on(&mut self) -> (r: Result<(), ScreenError>)
        ensures
            match r {
                Ok(_) => final(self).sent() == old(self).sent()
                    + spec_encoding(SpecialCode::CursorOn),
                Err(e) => e == ScreenError::Transport && final(self).sent() == old(self).sent(),
            },
    {
        self.send(SpecialCode::CursorOn)
    }

    /// Disable the underscore cursor (independent of the blinking cursor).
    pub fn cursor_off(&mut self) -> (r: Result<(), ScreenError>)
        ensures
            match r {
                Ok(_) => final(self).sent() == old(self).sent()
                    + spec_encoding(SpecialCode::CursorOff),
                Err(e) => e == ScreenError::Transport && final(self).sent() == old(self).sent(),
            },
    {
        self.send(SpecialCode::CursorOff)
    }

    /// Enable the blinking cursor (independent of the underscore cursor).
    pub fn blink_on(&mut self) -> (r: Result<(), ScreenError>)
        ensures
            match r {
                Ok(_) => final(self).sent() == old(self).sent()
                    + spec_encoding(SpecialCode::BlinkOn),
                Err(e) => e == ScreenError::Transport && final(self).sent() == old(self).sent(),
            },
    {
        self.send(SpecialCode::BlinkOn)
    }

    /// Disable the blinking cursor (independent of the underscore cursor).
    pub fn blink_off(&mut self) -> (r: Result<(), ScreenError>)
        ensures
            match r {
                Ok(_) => final(self).sent() == old(self).sent()
                    + spec_encoding(SpecialCode::BlinkOff),
                Err(e) => e == ScreenError::Transport && final(self).sent() == old(self).sent(),
            },
    {
        self.send(SpecialCode::BlinkOff)
    }

    /// Enable the backlight.
    pub fn backlight_on(&mut self) -> (r: Result<(), ScreenError>)
        ensures
            match r {
                Ok(_) => final(self).sent() == old(self).sent()
                    + spec_encoding(SpecialCode::BacklightOn),
                Err(e) => e == ScreenError::Transport && final(self).sent() == old(self).sent(),
            },
    {
        self.send(SpecialCode::BacklightOn)
    }

    /// Disable the backlight.
    pub fn backlight_off(&mut self) -> (r: Result<(), ScreenError>)
        ensures
            match r {
                Ok(_) => final(self).sent() == old(self).sent()
                    + spec_encoding(SpecialCode::BacklightOff),
                Err(e) => e == ScreenError::Transport && final(self).sent() == old(self).sent(),
            },
    {
        self.send(SpecialCode::BacklightOff)
    }

    /// Flash the backlight for the driver-defined duration.
    pub fn flash_backlight(&mut self) -> (r: Result<(), ScreenError>)
        ensures
            match r {
                Ok(_) => final(self).sent() == old(self).sent()
                    + spec_encoding(SpecialCode::FlashBacklight),
                Err(e) => e == ScreenError::Transport && final(self).sent() == old(self).sent(),
            },
    {
        self.send(SpecialCode::FlashBacklight)
    }

    /// Clear the screen and return the cursor to the (0, 0) position.
    ///
    /// This is not an escape sequence: the display understands the single
    /// form-feed byte `0x0C` natively.
    pub fn clear(&mut self) -> (r: Result<(), ScreenError>)
        ensures
            match r {
                Ok(_) => final(self).sent() == old(self).sent() + seq![0x0cu8],
                Err(e) => e == ScreenError::Transport && final(self).sent() == old(self).sent(),
            },
    {
        let bytes: Vec<u8> = vec![0x0c];
        match self.writer.write(bytes.as_slice()) {
            Ok(_) => Ok(()),
            Err(e) => Err(e),
        }
    }

    /// Move the cursor back one character and delete the character there.
    ///
    /// This is not an escape sequence: the display understands the single
    /// backspace byte `0x08` natively.
    pub fn back(&mut self) -> (r: Result<(), ScreenError>)
        ensures
            match r {
                Ok(_) => final(self).sent() == old(self).sent() + seq![0x08u8],
                Err(e) => e == ScreenError::Transport && final(self).sent() == old(self).sent(),
            },
    {
        let bytes: Vec<u8> = vec![0x08];
        match self.writer.write(bytes.as_slice()) {
            Ok(_) => Ok(()),
            Err(e) => Err(e),
        }
    }

    /// Shift the cursor left.
    pub fn shift_cursor_left(&mut self) -> (r: Result<(), ScreenError>)
        ensures
            match r {
                Ok(_) => final(self).sent() == old(self).sent()
                    + spec_encoding(SpecialCode::ShiftCursorLeft),
                Err(e) => e == ScreenError::Transport && final(self).sent() == old(self).sent(),
            },
    {
        self.send(SpecialCode::ShiftCursorLeft)
    }

    /// Shift the cursor right.
    pub fn shift_cursor_right(&mut self) -> (r: Result<(), ScreenError>)
        ensures
            match r {
                Ok(_) => final(self).sent() == old(self).sent()
                    + spec_encoding(SpecialCode::ShiftCursorRight),
                Err(e) => e == ScreenError::Transport && final(self).sent() == old(self).sent(),
            },
    {
        self.send(SpecialCode::ShiftCursorRight)
    }

    /// Shift the whole display left.
    pub fn shift_display_left(&mut self) -> (r: Result<(), ScreenError>)
        ensures
            match r {
                Ok(_) => final(self).sent() == old(self).sent()
                    + spec_encoding(SpecialCode::ShiftDisplayLeft),
                Err(e) => e == ScreenError::Transport && final(self).sent() == old(self).sent(),
            },
    {
        self.send(SpecialCode::ShiftDisplayLeft)
    }

    /// Shift the whole display right.
    pub fn shift_display_right(&mut self) -> (r: Result<(), ScreenError>)
        ensures
            match r {
                Ok(_) => final(self).sent() == old(self).sent()
                    + spec_encoding(SpecialCode::ShiftDisplayRight),
                Err(e) => e == ScreenError::Transport && final(self).sent() == old(self).sent(),
            },
    {
        self.send(SpecialCode::ShiftDisplayRight)
    }

    /// Enable one-line mode.
    pub fn one_line(&mut self) -> (r: Result<(), ScreenError>)
        ensures
            match r {
                Ok(_) => final(self).sent() == old(self).sent()
                    + spec_encoding(SpecialCode::OneLine),
                Err(e) => e == ScreenError::Transport && final(self).sent() == old(self).sent(),
            },
    {
        self.send(SpecialCode::OneLine)
    }

    /// Enable two-lines mode.
    pub fn two_lines(&mut self) -> (r: Result<(), ScreenError>)
        ensures
            match r {
                Ok(_) => final(self).sent() == old(self).sent()
                    + spec_encoding(SpecialCode::TwoLines),
                Err(e) => e == ScreenError::Transport && final(self).sent() == old(self).sent(),
            },
    {
        self.send(SpecialCode::TwoLines)
    }

    /// Enable small font mode (a no-op on most hardware, kept for protocol
    /// completeness).
    pub fn small_font(&mut self) -> (r: Result<(), ScreenError>)
        ensures
            match r {
                Ok(_) => final(self).sent() == old(self).sent()
                    + spec_encoding(SpecialCode::SmallFont),
                Err(e) => e == ScreenError::Transport && final(self).sent() == old(self).sent(),
            },
    {
        self.send(SpecialCode::SmallFont)
    }

    /// Enable large font mode (a no-op on most hardware, kept for protocol
    /// completeness).
    pub fn large_font(&mut self) -> (r: Result<(), ScreenError>)
        ensures
            match r {
                Ok(_) => final(self).sent() == old(self).sent()
                    + spec_encoding(SpecialCode::LargeFont),
                Err(e) => e == ScreenError::Transport && final(self).sent() == old(self).sent(),
            },
    {
        self.send(SpecialCode::LargeFont)
    }

    /// Define the custom glyph `code` from `value`, eight rows of five
    /// pixels each, top row first.
    ///
    /// The rows are packed most-significant-row-first into one 64-bit
    /// bitmap, so row 0 becomes the highest byte and row 7 the lowest, and
    /// the bitmap is sent as a `Generator` escape sequence.  Only slots 0
    /// through 7 exist in hardware; a larger `code` is refused before any
    /// byte reaches the sink.
    pub fn custom_char(&mut self, code: u8, value: [u8; 8]) -> (r: Result<(), ScreenError>)
        ensures
            match r {
                Ok(_) => code <= 7 && final(self).sent() == old(self).sent()
                    + spec_encoding(SpecialCode::Generator(code, spec_pack_rows(value@) as u64)),
                Err(e) => final(self).sent() == old(self).sent() && (match e {
                    ScreenError::Transport => code <= 7,
                    ScreenError::BadCharIndex => code > 7,
                }),
            },
    {
        let mut res: u64 = 0;
        let mut i: usize = 0;
        while i < 8
            invariant
                i <= 8,
                res == spec_pack_rows(value@.take(i as int)),
            decreases 8 - i,
        {
            proof {
                lemma_pack_rows_fits(value@.take(i as int));
                assert(value@.take(i as int).len() == i as int);
                assert(value@.take(i as int + 1).drop_last() =~= value@.take(i as int));
                assert(value@.take(i as int + 1).last() == value@[i as int]);
            }
            res = res * 256 + (value[i] as u64);
            i = i + 1;
        }
        proof {
            assert(value@.take(8) =~= value@);
        }
        self.send(SpecialCode::Generator(code, res))
    }

    /// Move the cursor to column `x`, row `y`.
    pub fn gotoxy(&mut self, x: u32, y: u32) -> (r: Result<(), ScreenError>)
        ensures
            match r {
                Ok(_) => final(self).sent() == old(self).sent()
                    + spec_encoding(SpecialCode::GotoXY(Some(x), Some(y))),
                Err(e) => e == ScreenError::Transport && final(self).sent() == old(self).sent(),
            },
    {
        self.send(SpecialCode::GotoXY(Some(x), Some(y)))
    }

    /// Move the cursor to column `x`, keeping the current row.
    pub fn gotox(&mut self, x: u32) -> (r: Result<(), ScreenError>)
        ensures
            match r {
                Ok(_) => final(self).sent() == old(self).sent()
                    + spec_encoding(SpecialCode::GotoXY(Some(x), None)),
                Err(e) => e == ScreenError::Transport && final(self).sent() == old(self).sent(),
            },
    {
        self.send(SpecialCode::GotoXY(Some(x), None))
    }

    /// Move the cursor to row `y`, keeping the current column.
    pub fn gotoy(&mut self, y: u32) -> (r: Result<(), ScreenError>)
        ensures
            match r {
                Ok(_) => final(self).sent() == old(self).sent()
                    + spec_encoding(SpecialCode::GotoXY(None, Some(y))),
                Err(e) => e == ScreenError::Transport && final(self).sent() == old(self).sent(),
            },
    {
        self.send(SpecialCode::GotoXY(None, Some(y)))
    }

    /// Hand arbitrary bytes to the sink unchanged, so that free-form text
    /// and control sequences share one stream in call order.
    pub fn write(&mut self, buf: &[u8]) -> (r: Result<usize, ScreenError>)
        ensures
            match r {
                Ok(n) => n == buf@.len() && final(self).sent() == old(self).sent() + buf@,
                Err(e) => e == ScreenError::Transport && final(self).sent() == old(self).sent(),
            },
    {
        self.writer.write(buf)
    }

    /// Ask the sink to push everything it has accepted to the transport.
    pub fn flush(&mut self) -> (r: Result<(), ScreenError>)
        ensures
            match r {
                Ok(_) => final(self).sent() == old(self).sent(),
                Err(e) => e == ScreenError::Transport && final(self).sent() == old(self).sent(),
            },
    {
        self.writer.flush()
    }
}

impl Screen<MemSink> {
    /// Drain everything an in-memory screen has sent so far, leaving the
    /// buffer empty.  Unverified transports wrap a `Screen<MemSink>` and
    /// forward these bytes to the real device.
    pub fn take_bytes(&mut self) -> (r: Vec<u8>)
        ensures
            r@ == old(self).sent(),
            final(self).sent() == Seq::<u8>::empty(),
    {
        self.writer.take()
    }
}

} // verus!
