//! The console as its callers see it: a byte-stream interface over the cell
//! grid. A batch of bytes is written by disabling the cursor overlay, feeding
//! every byte through the escape-sequence recognizer, and re-enabling the
//! overlay; the effect of the whole batch is pinned down by
//! [`write_bstr_spec`], a fold of the machine's transition function.

use vstd::prelude::*;
use vstd::string::StringSliceAdditionalSpecFns;
use crate::ansi::AnsiParser;
use crate::ansi::AnsiState;
use crate::ansi::ParserView;
use crate::ansi::advance_spec;
use crate::ansi::anywhere_step;
use crate::ansi::csi_entry_step;
use crate::ansi::csi_ignore_step;
use crate::ansi::csi_intermediate_step;
use crate::ansi::csi_param_step;
use crate::ansi::dcs_body_step;
use crate::ansi::dcs_header_step;
use crate::ansi::escape_intermediate_step;
use crate::ansi::escape_step;
use crate::ansi::ground_step;
use crate::ansi::is_anywhere;
use crate::ansi::is_seq_c0;
use crate::ansi::osc_step;
use crate::ansi::process_seq;
use crate::ansi::sos_step;
use crate::ansi::utf8_step;
use crate::attr::Attr;
use crate::console::Console;
use crate::console::ConsoleView;

verus! {

/// The effect of one whole batch of bytes: the overlay is lifted, every byte
/// is fed to the recognizer, and the overlay is put back.
pub open spec fn write_bstr_spec(c: ConsoleView, p: ParserView, bytes: Seq<u8>) -> (
    ConsoleView,
    ParserView,
) {
    let step = process_seq(c.cursor_disable_spec(), p, bytes);
    (step.0.cursor_enable_spec(), step.1)
}

/// Feeding one more byte extends the fold by one transition.
pub proof fn lemma_process_seq_snoc(c: ConsoleView, p: ParserView, bytes: Seq<u8>, i: int)
    requires
        0 <= i < bytes.len(),
    ensures
        process_seq(c, p, bytes.take(i + 1)) == {
            let mid = process_seq(c, p, bytes.take(i));
            advance_spec(mid.0, mid.1, bytes[i])
        },
    decreases i,
{
    if i == 0 {
        assert(bytes.take(0) =~= Seq::<u8>::empty());
        assert(bytes.take(1).drop_first() =~= Seq::<u8>::empty());
        assert(bytes.take(1)[0] == bytes[0]);
        let step = advance_spec(c, p, bytes[0]);
        assert(process_seq(c, p, bytes.take(1)) == process_seq(step.0, step.1, Seq::empty()));
    } else {
        let tail = bytes.drop_first();
        let step = advance_spec(c, p, bytes[0]);
        assert(bytes.take(i + 1).drop_first() =~= tail.take(i));
        assert(bytes.take(i).drop_first() =~= tail.take(i - 1));
        assert(bytes.take(i + 1)[0] == bytes[0]);
        assert(bytes.take(i)[0] == bytes[0]);
        assert(process_seq(c, p, bytes.take(i + 1)) == process_seq(step.0, step.1, tail.take(i)));
        assert(process_seq(c, p, bytes.take(i)) == process_seq(step.0, step.1, tail.take(i - 1)));
        lemma_process_seq_snoc(step.0, step.1, tail, i - 1);
        assert(tail[i - 1] == bytes[i]);
    }
}

/// A DEC-style ANSI video terminal over a character-cell buffer.
pub struct VgaConsole {
    pub inner: Console,
    pub parser: AnsiParser,
}

impl VgaConsole {
    /// The resting-state invariant of the console: the state is well formed
    /// and no batch write is in progress.
    pub open spec fn ready(self) -> bool {
        &&& self.inner@.wf()
        &&& self.parser@.wf()
        &&& self.inner@.cursor_depth == 0
    }

    /// The invariant that holds while a batch write is in progress: the
    /// overlay has been lifted.
    pub open spec fn mid_write(self) -> bool {
        &&& self.inner@.wf()
        &&& self.parser@.wf()
        &&& self.inner@.cursor_holder is None
    }

    /// Build a console of the given character geometry over a zeroed buffer.
    pub fn new(width: usize, height: usize) -> (r: VgaConsole)
        requires
            1 <= width,
            1 <= height,
            width * height * 2 <= usize::MAX,
        ensures
            r.ready(),
            r.inner@.width == width,
            r.inner@.height == height,
            r.inner@.glyphs == Seq::new((width * height) as nat, |i: int| 0u8),
            r.inner@.attrs == Seq::new((width * height) as nat, |i: int| 0u8),
            r.inner@.row == 0,
            r.inner@.col == 0,
            r.inner@.attr == Attr::default_attr_spec(),
            !r.inner@.bright,
            !r.inner@.reverse,
            !r.inner@.cursor_wanted,
            r.inner@.cursor_holder is None,
            r.parser@.state == AnsiState::Ground,
    {
        VgaConsole { inner: Console::new(width, height), parser: AnsiParser::new() }
    }

    /// The shared CAN/SUB/ESC handling of every escape-family state.
    fn step_anywhere(&mut self, b: u8)
        requires
            old(self).mid_write(),
            is_anywhere(b),
        ensures
            final(self).inner@ == anywhere_step(old(self).inner@, old(self).parser@, b).0,
            final(self).parser@ == anywhere_step(old(self).inner@, old(self).parser@, b).1,
            final(self).mid_write(),
            final(self).inner@.cursor_depth == old(self).inner@.cursor_depth,
    {
        if b == 0x1B {
            self.parser.enter_reset(AnsiState::Escape);
        } else {
            self.inner.ctrl(b);
            self.parser.enter(AnsiState::Ground);
        }
    }

    /// One byte in the ground state.
    fn step_ground(&mut self, b: u8)
        requires
            old(self).mid_write(),
        ensures
            final(self).inner@ == ground_step(old(self).inner@, old(self).parser@, b).0,
            final(self).parser@ == ground_step(old(self).inner@, old(self).parser@, b).1,
            final(self).mid_write(),
            final(self).inner@.cursor_depth == old(self).inner@.cursor_depth,
    {
        if b == 0x1B {
            self.parser.enter_reset(AnsiState::Escape);
        } else if b <= 0x1F {
            self.inner.ctrl(b);
        } else if b <= 0x7F {
            self.inner.print_code(b as u32);
        } else if b <= 0x9F {
            self.inner.ctrl(b);
        } else if b <= 0xC1 {
            self.inner.print_code(0xFFFD);
        } else if b <= 0xDF {
            self.parser.state = AnsiState::Utf8;
            self.parser.utf8_acc = (b - 0xC0) as u32;
            self.parser.utf8_rem = 1;
            self.parser.utf8_lo = 0x80;
            self.parser.utf8_hi = 0xBF;
        } else if b <= 0xEF {
            self.parser.state = AnsiState::Utf8;
            self.parser.utf8_acc = (b - 0xE0) as u32;
            self.parser.utf8_rem = 2;
            self.parser.utf8_lo = if b == 0xE0 {
                0xA0
            } else {
                0x80
            };
            self.parser.utf8_hi = if b == 0xED {
                0x9F
            } else {
                0xBF
            };
        } else if b <= 0xF4 {
            self.parser.state = AnsiState::Utf8;
            self.parser.utf8_acc = (b - 0xF0) as u32;
            self.parser.utf8_rem = 3;
            self.parser.utf8_lo = if b == 0xF0 {
                0x90
            } else {
                0x80
            };
            self.parser.utf8_hi = if b == 0xF4 {
                0x8F
            } else {
                0xBF
            };
        } else {
            self.inner.print_code(0xFFFD);
        }
    }

    /// One byte inside a multi-byte UTF-8 sequence.
    fn step_utf8(&mut self, b: u8)
        requires
            old(self).mid_write(),
            old(self).parser@.state == AnsiState::Utf8,
        ensures
            final(self).inner@ == utf8_step(old(self).inner@, old(self).parser@, b).0,
            final(self).parser@ == utf8_step(old(self).inner@, old(self).parser@, b).1,
            final(self).mid_write(),
            final(self).inner@.cursor_depth == old(self).inner@.cursor_depth,
    {
        if self.parser.utf8_lo <= b && b <= self.parser.utf8_hi {
            let acc = self.parser.utf8_acc * 64 + (b - 0x80) as u32;
            if self.parser.utf8_rem <= 1 {
                self.parser.state = AnsiState::Ground;
                if acc <= 0x9F {
                    self.inner.ctrl(acc as u8);
                } else {
                    self.inner.print_code(acc);
                }
            } else {
                self.parser.utf8_acc = acc;
                self.parser.utf8_rem = self.parser.utf8_rem - 1;
                self.parser.utf8_lo = 0x80;
                self.parser.utf8_hi = 0xBF;
            }
        } else {
            self.inner.print_code(0xFFFD);
            self.parser.state = AnsiState::Ground;
            self.step_ground(b);
        }
    }

    /// One byte after ESC.
    fn step_escape(&mut self, b: u8)
        requires
            old(self).mid_write(),
        ensures
            final(self).inner@ == escape_step(old(self).inner@, old(self).parser@, b).0,
            final(self).parser@ == escape_step(old(self).inner@, old(self).parser@, b).1,
            final(self).mid_write(),
            final(self).inner@.cursor_depth == old(self).inner@.cursor_depth,
    {
        if b == 0x18 || b == 0x1A || b == 0x1B {
            self.step_anywhere(b);
        } else if b <= 0x17 || b == 0x19 || (0x1C <= b && b <= 0x1F) {
            self.inner.ctrl(b);
        } else if 0x20 <= b && b <= 0x2F {
            self.parser.collect(b);
            self.parser.enter(AnsiState::EscapeIntermediate);
        } else if b == 0x50 {
            self.parser.enter_reset(AnsiState::DcsHeader);
        } else if b == 0x58 || b == 0x5E || b == 0x5F {
            self.parser.enter(AnsiState::SosPmApcString);
        } else if b == 0x5B {
            self.parser.enter_reset(AnsiState::CsiEntry);
        } else if b == 0x5D {
            self.parser.enter(AnsiState::OscString);
        } else if 0x30 <= b && b <= 0x7E {
            self.parser.enter(AnsiState::Ground);
        }
    }

    /// One byte after ESC and an intermediate.
    fn step_escape_intermediate(&mut self, b: u8)
        requires
            old(self).mid_write(),
        ensures
            final(self).inner@ == escape_intermediate_step(
                old(self).inner@,
                old(self).parser@,
                b,
            ).0,
            final(self).parser@ == escape_intermediate_step(
                old(self).inner@,
                old(self).parser@,
                b,
            ).1,
            final(self).mid_write(),
            final(self).inner@.cursor_depth == old(self).inner@.cursor_depth,
    {
        if b == 0x18 || b == 0x1A || b == 0x1B {
            self.step_anywhere(b);
        } else if b <= 0x17 || b == 0x19 || (0x1C <= b && b <= 0x1F) {
            self.inner.ctrl(b);
        } else if 0x20 <= b && b <= 0x2F {
            self.parser.collect(b);
        } else if 0x30 <= b && b <= 0x7E {
            self.parser.enter(AnsiState::Ground);
        }
    }

    /// Finish a CSI sequence on its final byte.
    fn dispatch(&mut self, b: u8)
        requires
            old(self).mid_write(),
        ensures
            final(self).inner@ == old(self).inner@.csi_step(
                old(self).parser@.param_finish().params,
                old(self).parser@.param_finish().inters,
                b,
            ),
            final(self).parser@ == old(self).parser@.param_finish().to(AnsiState::Ground),
            final(self).mid_write(),
            final(self).inner@.cursor_depth == old(self).inner@.cursor_depth,
    {
        self.parser.param_finish();
        self.inner.csi_dispatch(&self.parser.params, &self.parser.inters, b);
        self.parser.enter(AnsiState::Ground);
    }

    /// One byte at the start of a CSI sequence.
    fn step_csi_entry(&mut self, b: u8)
        requires
            old(self).mid_write(),
        ensures
            final(self).inner@ == csi_entry_step(old(self).inner@, old(self).parser@, b).0,
            final(self).parser@ == csi_entry_step(old(self).inner@, old(self).parser@, b).1,
            final(self).mid_write(),
            final(self).inner@.cursor_depth == old(self).inner@.cursor_depth,
    {
        if b == 0x18 || b == 0x1A || b == 0x1B {
            self.step_anywhere(b);
        } else if b <= 0x17 || b == 0x19 || (0x1C <= b && b <= 0x1F) {
            self.inner.ctrl(b);
        } else if 0x20 <= b && b <= 0x2F {
            self.parser.collect(b);
            self.parser.enter(AnsiState::CsiIntermediate);
        } else if 0x30 <= b && b <= 0x39 {
            self.parser.param_digit(b);
            self.parser.enter(AnsiState::CsiParam);
        } else if b == 0x3A {
            self.parser.param_sub();
            self.parser.enter(AnsiState::CsiParam);
        } else if b == 0x3B {
            self.parser.param_sep();
            self.parser.enter(AnsiState::CsiParam);
        } else if 0x3C <= b && b <= 0x3F {
            self.parser.collect(b);
            self.parser.enter(AnsiState::CsiParam);
        } else if 0x40 <= b && b <= 0x7E {
            self.dispatch(b);
        }
    }

    /// One byte among the CSI parameters.
    fn step_csi_param(&mut self, b: u8)
        requires
            old(self).mid_write(),
        ensures
            final(self).inner@ == csi_param_step(old(self).inner@, old(self).parser@, b).0,
            final(self).parser@ == csi_param_step(old(self).inner@, old(self).parser@, b).1,
            final(self).mid_write(),
            final(self).inner@.cursor_depth == old(self).inner@.cursor_depth,
    {
        if b == 0x18 || b == 0x1A || b == 0x1B {
            self.step_anywhere(b);
        } else if b <= 0x17 || b == 0x19 || (0x1C <= b && b <= 0x1F) {
            self.inner.ctrl(b);
        } else if 0x20 <= b && b <= 0x2F {
            self.parser.collect(b);
            self.parser.enter(AnsiState::CsiIntermediate);
        } else if 0x30 <= b && b <= 0x39 {
            self.parser.param_digit(b);
        } else if b == 0x3A {
            self.parser.param_sub();
        } else if b == 0x3B {
            self.parser.param_sep();
        } else if 0x3C <= b && b <= 0x3F {
            self.parser.enter(AnsiState::CsiIgnore);
        } else if 0x40 <= b && b <= 0x7E {
            self.dispatch(b);
        }
    }

    /// One byte among the CSI intermediates.
    fn step_csi_intermediate(&mut self, b: u8)
        requires
            old(self).mid_write(),
        ensures
            final(self).inner@ == csi_intermediate_step(old(self).inner@, old(self).parser@, b).0,
            final(self).parser@ == csi_intermediate_step(old(self).inner@, old(self).parser@, b).1,
            final(self).mid_write(),
            final(self).inner@.cursor_depth == old(self).inner@.cursor_depth,
    {
        if b == 0x18 || b == 0x1A || b == 0x1B {
            self.step_anywhere(b);
        } else if b <= 0x17 || b == 0x19 || (0x1C <= b && b <= 0x1F) {
            self.inner.ctrl(b);
        } else if 0x20 <= b && b <= 0x2F {
            self.parser.collect(b);
        } else if 0x30 <= b && b <= 0x3F {
            self.parser.enter(AnsiState::CsiIgnore);
        } else if 0x40 <= b && b <= 0x7E {
            self.dispatch(b);
        }
    }

    /// One byte of a malformed CSI sequence.
    fn step_csi_ignore(&mut self, b: u8)
        requires
            old(self).mid_write(),
        ensures
            final(self).inner@ == csi_ignore_step(old(self).inner@, old(self).parser@, b).0,
            final(self).parser@ == csi_ignore_step(old(self).inner@, old(self).parser@, b).1,
            final(self).mid_write(),
            final(self).inner@.cursor_depth == old(self).inner@.cursor_depth,
    {
        if b == 0x18 || b == 0x1A || b == 0x1B {
            self.step_anywhere(b);
        } else if b <= 0x17 || b == 0x19 || (0x1C <= b && b <= 0x1F) {
            self.inner.ctrl(b);
        } else if 0x40 <= b && b <= 0x7E {
            self.parser.enter(AnsiState::Ground);
        }
    }

    /// One byte of an operating-system-command string.
    fn step_osc(&mut self, b: u8)
        requires
            old(self).mid_write(),
        ensures
            final(self).inner@ == osc_step(old(self).inner@, old(self).parser@, b).0,
            final(self).parser@ == osc_step(old(self).inner@, old(self).parser@, b).1,
            final(self).mid_write(),
            final(self).inner@.cursor_depth == old(self).inner@.cursor_depth,
    {
        if b == 0x18 || b == 0x1A || b == 0x1B {
            self.step_anywhere(b);
        } else if b == 0x07 {
            self.parser.enter(AnsiState::Ground);
        }
    }

    /// One byte of a device-control string header.
    fn step_dcs_header(&mut self, b: u8)
        requires
            old(self).mid_write(),
        ensures
            final(self).inner@ == dcs_header_step(old(self).inner@, old(self).parser@, b).0,
            final(self).parser@ == dcs_header_step(old(self).inner@, old(self).parser@, b).1,
            final(self).mid_write(),
            final(self).inner@.cursor_depth == old(self).inner@.cursor_depth,
    {
        if b == 0x18 || b == 0x1A || b == 0x1B {
            self.step_anywhere(b);
        } else if 0x40 <= b && b <= 0x7E {
            self.parser.enter(AnsiState::DcsBody);
        }
    }

    /// One byte of a device-control string body.
    fn step_dcs_body(&mut self, b: u8)
        requires
            old(self).mid_write(),
        ensures
            final(self).inner@ == dcs_body_step(old(self).inner@, old(self).parser@, b).0,
            final(self).parser@ == dcs_body_step(old(self).inner@, old(self).parser@, b).1,
            final(self).mid_write(),
            final(self).inner@.cursor_depth == old(self).inner@.cursor_depth,
    {
        if b == 0x18 || b == 0x1A || b == 0x1B {
            self.step_anywhere(b);
        } else if b == 0x9C {
            self.parser.enter(AnsiState::Ground);
        }
    }

    /// One byte of a SOS, PM or APC string.
    fn step_sos(&mut self, b: u8)
        requires
            old(self).mid_write(),
        ensures
            final(self).inner@ == sos_step(old(self).inner@, old(self).parser@, b).0,
            final(self).parser@ == sos_step(old(self).inner@, old(self).parser@, b).1,
            final(self).mid_write(),
            final(self).inner@.cursor_depth == old(self).inner@.cursor_depth,
    {
        if b == 0x18 || b == 0x1A || b == 0x1B {
            self.step_anywhere(b);
        }
    }

    /// Feed one byte to the recognizer while the cursor overlay is lifted.
    fn process_byte(&mut self, b: u8)
        requires
            old(self).mid_write(),
        ensures
            final(self).inner@ == advance_spec(old(self).inner@, old(self).parser@, b).0,
            final(self).parser@ == advance_spec(old(self).inner@, old(self).parser@, b).1,
            final(self).mid_write(),
            final(self).inner@.cursor_depth == old(self).inner@.cursor_depth,
    {
        match self.parser.state {
            AnsiState::Ground => self.step_ground(b),
            AnsiState::Utf8 => self.step_utf8(b),
            AnsiState::Escape => self.step_escape(b),
            AnsiState::EscapeIntermediate => self.step_escape_intermediate(b),
            AnsiState::CsiEntry => self.step_csi_entry(b),
            AnsiState::CsiParam => self.step_csi_param(b),
            AnsiState::CsiIntermediate => self.step_csi_intermediate(b),
            AnsiState::CsiIgnore => self.step_csi_ignore(b),
            AnsiState::OscString => self.step_osc(b),
            AnsiState::DcsHeader => self.step_dcs_header(b),
            AnsiState::DcsBody => self.step_dcs_body(b),
            AnsiState::SosPmApcString => self.step_sos(b),
        }
    }

    /// Write a byte string to the console.
    ///
    /// The bytes are parsed for ANSI escape codes, UTF-8 text is decoded, and
    /// glyphs land in the cell buffer; the cursor overlay is lifted around the
    /// whole batch.
    pub fn write_bstr(&mut self, bstr: &[u8])
        requires
            old(self).ready(),
        ensures
            final(self).inner@ == write_bstr_spec(old(self).inner@, old(self).parser@, bstr@).0,
            final(self).parser@ == write_bstr_spec(old(self).inner@, old(self).parser@, bstr@).1,
            final(self).ready(),
    {
        let ghost c0 = self.inner@;
        let ghost p0 = self.parser@;
        self.inner.cursor_disable();
        let ghost c1 = self.inner@;
        let mut i: usize = 0;
        while i < bstr.len()
            invariant
                i <= bstr@.len(),
                self.mid_write(),
                c1 == c0.cursor_disable_spec(),
                self.inner@ == process_seq(c1, p0, bstr@.take(i as int)).0,
                self.parser@ == process_seq(c1, p0, bstr@.take(i as int)).1,
                self.inner@.cursor_depth == c1.cursor_depth,
                c1.cursor_depth == c0.cursor_depth + 1,
            decreases bstr@.len() - i,
        {
            proof {
                lemma_process_seq_snoc(c1, p0, bstr@, i as int);
            }
            self.process_byte(bstr[i]);
            i = i + 1;
        }
        proof {
            assert(bstr@.take(bstr@.len() as int) =~= bstr@);
        }
        self.inner.cursor_enable();
    }

    /// Write a string slice to the console: the UTF-8 bytes of the string,
    /// parsed exactly as by [`VgaConsole::write_bstr`].
    pub fn write_str(&mut self, data: &str)
        requires
            old(self).ready(),
        ensures
            final(self).inner@ == write_bstr_spec(
                old(self).inner@,
                old(self).parser@,
                data.spec_bytes(),
            ).0,
            final(self).parser@ == write_bstr_spec(
                old(self).inner@,
                old(self).parser@,
                data.spec_bytes(),
            ).1,
            final(self).ready(),
    {
        self.write_bstr(data.as_bytes());
    }

    /// Clear the screen: every cell becomes a space drawn with the attribute
    /// in force, and the cursor returns to the origin.
    pub fn clear(&mut self)
        requires
            old(self).ready(),
        ensures
            final(self).inner@ == old(self).inner@.cursor_disable_spec().clear_spec()
                .cursor_enable_spec(),
            final(self).parser@ == old(self).parser@,
            final(self).ready(),
    {
        self.inner.cursor_disable();
        self.inner.clear();
        self.inner.cursor_enable();
    }

    /// Set the attribute for any future text.
    pub fn set_attr(&mut self, attr: Attr)
        requires
            old(self).ready(),
            attr.wf(),
        ensures
            final(self).inner@ == (ConsoleView { attr, ..old(self).inner@ }),
            final(self).parser@ == old(self).parser@,
            final(self).ready(),
    {
        self.inner.set_attr(attr);
    }

    /// Change the character geometry of the console. The grid is rebuilt for
    /// the new geometry and fully cleared, and the cursor returns to the
    /// origin.
    pub fn change_mode(&mut self, width: usize, height: usize)
        requires
            old(self).ready(),
            1 <= width,
            1 <= height,
            width * height * 2 <= usize::MAX,
        ensures
            final(self).inner@ == (ConsoleView {
                width: width as int,
                height: height as int,
                glyphs: Seq::new((width * height) as nat, |i: int| 0u8),
                attrs: Seq::new((width * height) as nat, |i: int| 0u8),
                row: 0,
                col: 0,
                ..old(self).inner@.cursor_disable_spec()
            }).clear_spec().cursor_enable_spec(),
            final(self).parser@ == old(self).parser@,
            final(self).ready(),
    {
        self.inner.cursor_disable();
        self.inner.width = width;
        self.inner.height = height;
        self.inner.row = 0;
        self.inner.col = 0;
        let n = width * height;
        let mut glyphs: Vec<u8> = Vec::new();
        let mut attrs: Vec<u8> = Vec::new();
        let mut i: usize = 0;
        while i < n
            invariant
                i <= n,
                glyphs@.len() == i,
                attrs@.len() == i,
                forall|k: int| 0 <= k < i ==> glyphs@[k] == 0u8,
                forall|k: int| 0 <= k < i ==> attrs@[k] == 0u8,
            decreases n - i,
        {
            glyphs.push(0);
            attrs.push(0);
            i = i + 1;
        }
        proof {
            assert(glyphs@ =~= Seq::new((width * height) as nat, |i: int| 0u8));
            assert(attrs@ =~= Seq::new((width * height) as nat, |i: int| 0u8));
        }
        self.inner.glyphs = glyphs;
        self.inner.attrs = attrs;
        self.inner.clear();
        self.inner.cursor_enable();
    }

    /// The buffer contents as interleaved glyph and attribute bytes, row by
    /// row: the memory layout of the video buffer this console drives.
    pub fn buffer(&self) -> (r: Vec<u8>)
        requires
            self.inner@.wf(),
        ensures
            r@.len() == 2 * self.inner@.glyphs.len(),
            forall|i: int|
                0 <= i < self.inner@.glyphs.len() ==> r@[2 * i] == self.inner@.glyphs[i]
                    && r@[2 * i + 1] == self.inner@.attrs[i],
    {
        let n = self.inner.glyphs.len();
        let mut r: Vec<u8> = Vec::new();
        let mut i: usize = 0;
        while i < n
            invariant
                i <= n,
                n == self.inner@.glyphs.len(),
                n == self.inner@.attrs.len(),
                r@.len() == 2 * i,
                forall|k: int|
                    0 <= k < i ==> r@[2 * k] == self.inner@.glyphs[k] && r@[2 * k + 1]
                        == self.inner@.attrs[k],
            decreases n - i,
        {
            r.push(self.inner.glyphs[i]);
            r.push(self.inner.attrs[i]);
            i = i + 1;
        }
        r
    }
}

} // verus!
