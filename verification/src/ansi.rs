//! The byte-oriented ANSI/DEC escape-sequence recognizer.
//!
//! The grammar follows the classic DEC ANSI parser: a ground state that
//! decodes UTF-8 text and executes C0 control codes, escape and CSI states
//! that collect numeric parameters and intermediate bytes until a final byte
//! dispatches the sequence, and string states (OSC, DCS and friends) whose
//! contents are consumed without effect. ANSI escape bytes are all ASCII and
//! never appear inside a multi-byte UTF-8 sequence, so escape recognition is
//! independent of UTF-8 boundaries.
//!
//! The whole machine is specified by [`advance_spec`], a transition function
//! over the parser and console models, which every executable step is proved
//! to implement.

use vstd::prelude::*;
use crate::console::ConsoleView;

verus! {

/// How many parameter slots one sequence may use, counting subparameters.
pub const MAX_PARAM_SLOTS: u8 = 32;

/// How many intermediate bytes one sequence may collect.
pub const MAX_INTERMEDIATES: usize = 2;

/// The states of the escape-sequence recognizer.
#[derive(Clone, Copy, PartialEq, Eq, Structural, Debug)]
pub enum AnsiState {
    /// Plain text: print what is printable, execute control codes.
    Ground,
    /// Seen ESC, waiting for the introducer.
    Escape,
    /// Seen ESC and an intermediate byte.
    EscapeIntermediate,
    /// Seen ESC `[`; no parameter byte yet.
    CsiEntry,
    /// Collecting CSI parameters.
    CsiParam,
    /// Collecting CSI intermediates after the parameters.
    CsiIntermediate,
    /// A malformed CSI sequence, consumed without dispatch.
    CsiIgnore,
    /// An operating-system-command string, consumed without effect.
    OscString,
    /// A device-control string header, consumed without effect.
    DcsHeader,
    /// A device-control string body, consumed without effect.
    DcsBody,
    /// A SOS/PM/APC string, consumed without effect.
    SosPmApcString,
    /// Inside a multi-byte UTF-8 sequence.
    Utf8,
}

/// The mathematical model of the recognizer state.
#[verifier::ext_equal]
pub ghost struct ParserView {
    pub state: AnsiState,
    /// The first value of each completed parameter group.
    pub params: Seq<u16>,
    /// The value being accumulated for the current parameter.
    pub param: u16,
    /// The collected intermediate bytes (including a private marker).
    pub inters: Seq<u8>,
    /// Parameter slots consumed so far, subparameters included.
    pub slots: int,
    /// Whether the current group's first value is already recorded and the
    /// bytes now arriving belong to a subparameter.
    pub in_subparam: bool,
    /// The code point being accumulated by the UTF-8 decoder.
    pub utf8_acc: u32,
    /// Continuation bytes still expected.
    pub utf8_rem: int,
    /// The allowed range of the next continuation byte.
    pub utf8_lo: u8,
    pub utf8_hi: u8,
}

impl ParserView {
    /// The limits the recognizer never exceeds.
    pub open spec fn wf(self) -> bool {
        &&& self.params.len() <= self.slots <= MAX_PARAM_SLOTS
        &&& self.inters.len() <= MAX_INTERMEDIATES
        &&& 0 <= self.utf8_rem <= 3
        &&& (self.utf8_rem == 3 ==> self.utf8_acc <= 0x7)
        &&& (self.utf8_rem == 2 ==> self.utf8_acc <= 0x1FF)
        &&& (self.utf8_rem == 1 ==> self.utf8_acc <= 0x7FFF)
        &&& (self.state == AnsiState::Utf8 ==> 1 <= self.utf8_rem && 0x80 <= self.utf8_lo && self.utf8_hi <= 0xBF)
    }

    /// Begin a fresh escape sequence: parameters and intermediates cleared.
    pub open spec fn reset_seq(self) -> ParserView {
        ParserView {
            params: Seq::empty(),
            param: 0,
            inters: Seq::empty(),
            slots: 0,
            in_subparam: false,
            ..self
        }
    }

    /// Enter a state after clearing the sequence in progress.
    pub open spec fn to_reset(self, state: AnsiState) -> ParserView {
        ParserView { state, ..self.reset_seq() }
    }

    /// Stay as-is but for the state.
    pub open spec fn to(self, state: AnsiState) -> ParserView {
        ParserView { state, ..self }
    }

    /// Collect one intermediate byte; past the limit it is dropped.
    pub open spec fn collect(self, b: u8) -> ParserView {
        if self.inters.len() >= MAX_INTERMEDIATES {
            self
        } else {
            ParserView { inters: self.inters.push(b), ..self }
        }
    }

    /// One decimal digit of the current parameter, saturating at the
    /// parameter type's maximum; digits of a subparameter are discarded.
    pub open spec fn param_digit(self, b: u8) -> ParserView {
        if self.slots >= MAX_PARAM_SLOTS || self.in_subparam {
            self
        } else {
            let v = self.param * 10 + (b - 48);
            ParserView { param: if v > 65535 { 65535u16 } else { v as u16 }, ..self }
        }
    }

    /// A `;` separator: finish the current group. The group's first value is
    /// what the group contributes; if a subparameter was in progress the
    /// first value is already recorded.
    pub open spec fn param_sep(self) -> ParserView {
        if self.slots >= MAX_PARAM_SLOTS {
            self
        } else if self.in_subparam {
            ParserView { slots: self.slots + 1, param: 0, in_subparam: false, ..self }
        } else {
            ParserView {
                params: self.params.push(self.param),
                slots: self.slots + 1,
                param: 0,
                ..self
            }
        }
    }

    /// A `:` separator: the value so far becomes the group's first value and
    /// the bytes that follow belong to a subparameter of the same group.
    pub open spec fn param_sub(self) -> ParserView {
        if self.slots >= MAX_PARAM_SLOTS {
            self
        } else if self.in_subparam {
            ParserView { slots: self.slots + 1, param: 0, ..self }
        } else {
            ParserView {
                params: self.params.push(self.param),
                slots: self.slots + 1,
                param: 0,
                in_subparam: true,
                ..self
            }
        }
    }

    /// The final byte arrives: the pending value joins the parameter list
    /// (unless the slots are exhausted or it belongs to a subparameter).
    pub open spec fn param_finish(self) -> ParserView {
        if self.slots >= MAX_PARAM_SLOTS || self.in_subparam {
            self
        } else {
            ParserView { params: self.params.push(self.param), slots: self.slots + 1, ..self }
        }
    }
}

/// Does this byte belong to the C0 set that is executed from within an
/// escape sequence without disturbing it?
pub open spec fn is_seq_c0(b: u8) -> bool {
    b <= 0x17 || b == 0x19 || (0x1C <= b && b <= 0x1F)
}

/// One byte in the ground state.
pub open spec fn ground_step(c: ConsoleView, p: ParserView, b: u8) -> (ConsoleView, ParserView) {
    if b == 0x1B {
        (c, p.to_reset(AnsiState::Escape))
    } else if b <= 0x1F {
        (c.ctrl_spec(b), p)
    } else if b <= 0x7F {
        (c.print_code_spec(b as u32), p)
    } else if b <= 0x9F {
        // A lone C1 byte is invalid UTF-8 and is executed as a control code.
        (c.ctrl_spec(b), p)
    } else if b <= 0xC1 {
        // A lone continuation byte or an overlong lead is invalid UTF-8.
        (c.print_code_spec(0xFFFD), p)
    } else if b <= 0xDF {
        (c, ParserView {
            utf8_acc: (b - 0xC0) as u32,
            utf8_rem: 1,
            utf8_lo: 0x80,
            utf8_hi: 0xBF,
            ..p.to(AnsiState::Utf8)
        })
    } else if b <= 0xEF {
        (c, ParserView {
            utf8_acc: (b - 0xE0) as u32,
            utf8_rem: 2,
            utf8_lo: if b == 0xE0 { 0xA0u8 } else { 0x80u8 },
            utf8_hi: if b == 0xED { 0x9Fu8 } else { 0xBFu8 },
            ..p.to(AnsiState::Utf8)
        })
    } else if b <= 0xF4 {
        (c, ParserView {
            utf8_acc: (b - 0xF0) as u32,
            utf8_rem: 3,
            utf8_lo: if b == 0xF0 { 0x90u8 } else { 0x80u8 },
            utf8_hi: if b == 0xF4 { 0x8Fu8 } else { 0xBFu8 },
            ..p.to(AnsiState::Utf8)
        })
    } else {
        (c.print_code_spec(0xFFFD), p)
    }
}

/// One byte inside a multi-byte UTF-8 sequence. An invalid byte yields the
/// replacement character and is then reconsidered in the ground state.
pub open spec fn utf8_step(c: ConsoleView, p: ParserView, b: u8) -> (ConsoleView, ParserView) {
    if p.utf8_lo <= b && b <= p.utf8_hi {
        let acc = (p.utf8_acc * 64 + (b - 0x80)) as u32;
        if p.utf8_rem <= 1 {
            let pg = p.to(AnsiState::Ground);
            if acc <= 0x9F {
                // Only reachable for the C1 range, which is executed.
                (c.ctrl_spec(acc as u8), pg)
            } else {
                (c.print_code_spec(acc), pg)
            }
        } else {
            (c, ParserView {
                utf8_acc: acc,
                utf8_rem: p.utf8_rem - 1,
                utf8_lo: 0x80,
                utf8_hi: 0xBF,
                ..p
            })
        }
    } else {
        ground_step(c.print_code_spec(0xFFFD), p.to(AnsiState::Ground), b)
    }
}

/// The transitions shared by every escape-family state: CAN and SUB abort
/// the sequence and are executed, ESC restarts one.
pub open spec fn is_anywhere(b: u8) -> bool {
    b == 0x18 || b == 0x1A || b == 0x1B
}

pub open spec fn anywhere_step(c: ConsoleView, p: ParserView, b: u8) -> (ConsoleView, ParserView) {
    if b == 0x1B {
        (c, p.to_reset(AnsiState::Escape))
    } else {
        (c.ctrl_spec(b), p.to(AnsiState::Ground))
    }
}

/// One byte after ESC.
pub open spec fn escape_step(c: ConsoleView, p: ParserView, b: u8) -> (ConsoleView, ParserView) {
    if is_anywhere(b) {
        anywhere_step(c, p, b)
    } else if is_seq_c0(b) {
        (c.ctrl_spec(b), p)
    } else if 0x20 <= b && b <= 0x2F {
        (c, p.collect(b).to(AnsiState::EscapeIntermediate))
    } else if b == 0x50 {
        (c, p.to_reset(AnsiState::DcsHeader))
    } else if b == 0x58 || b == 0x5E || b == 0x5F {
        (c, p.to(AnsiState::SosPmApcString))
    } else if b == 0x5B {
        (c, p.to_reset(AnsiState::CsiEntry))
    } else if b == 0x5D {
        (c, p.to(AnsiState::OscString))
    } else if 0x30 <= b && b <= 0x7E {
        // Plain escape sequences select character sets and similar modes this
        // console does not have; they are recognized and ignored.
        (c, p.to(AnsiState::Ground))
    } else {
        (c, p)
    }
}

/// One byte after ESC and an intermediate.
pub open spec fn escape_intermediate_step(c: ConsoleView, p: ParserView, b: u8) -> (
    ConsoleView,
    ParserView,
) {
    if is_anywhere(b) {
        anywhere_step(c, p, b)
    } else if is_seq_c0(b) {
        (c.ctrl_spec(b), p)
    } else if 0x20 <= b && b <= 0x2F {
        (c, p.collect(b))
    } else if 0x30 <= b && b <= 0x7E {
        (c, p.to(AnsiState::Ground))
    } else {
        (c, p)
    }
}

/// One byte at the start of a CSI sequence.
pub open spec fn csi_entry_step(c: ConsoleView, p: ParserView, b: u8) -> (
    ConsoleView,
    ParserView,
) {
    if is_anywhere(b) {
        anywhere_step(c, p, b)
    } else if is_seq_c0(b) {
        (c.ctrl_spec(b), p)
    } else if 0x20 <= b && b <= 0x2F {
        (c, p.collect(b).to(AnsiState::CsiIntermediate))
    } else if 0x30 <= b && b <= 0x39 {
        (c, p.param_digit(b).to(AnsiState::CsiParam))
    } else if b == 0x3A {
        (c, p.param_sub().to(AnsiState::CsiParam))
    } else if b == 0x3B {
        (c, p.param_sep().to(AnsiState::CsiParam))
    } else if 0x3C <= b && b <= 0x3F {
        (c, p.collect(b).to(AnsiState::CsiParam))
    } else if 0x40 <= b && b <= 0x7E {
        let pf = p.param_finish();
        (c.csi_step(pf.params, pf.inters, b), pf.to(AnsiState::Ground))
    } else {
        (c, p)
    }
}

/// One byte among the CSI parameters.
pub open spec fn csi_param_step(c: ConsoleView, p: ParserView, b: u8) -> (
    ConsoleView,
    ParserView,
) {
    if is_anywhere(b) {
        anywhere_step(c, p, b)
    } else if is_seq_c0(b) {
        (c.ctrl_spec(b), p)
    } else if 0x20 <= b && b <= 0x2F {
        (c, p.collect(b).to(AnsiState::CsiIntermediate))
    } else if 0x30 <= b && b <= 0x39 {
        (c, p.param_digit(b))
    } else if b == 0x3A {
        (c, p.param_sub())
    } else if b == 0x3B {
        (c, p.param_sep())
    } else if 0x3C <= b && b <= 0x3F {
        (c, p.to(AnsiState::CsiIgnore))
    } else if 0x40 <= b && b <= 0x7E {
        let pf = p.param_finish();
        (c.csi_step(pf.params, pf.inters, b), pf.to(AnsiState::Ground))
    } else {
        (c, p)
    }
}

/// One byte among the CSI intermediates.
pub open spec fn csi_intermediate_step(c: ConsoleView, p: ParserView, b: u8) -> (
    ConsoleView,
    ParserView,
) {
    if is_anywhere(b) {
        anywhere_step(c, p, b)
    } else if is_seq_c0(b) {
        (c.ctrl_spec(b), p)
    } else if 0x20 <= b && b <= 0x2F {
        (c, p.collect(b))
    } else if 0x30 <= b && b <= 0x3F {
        (c, p.to(AnsiState::CsiIgnore))
    } else if 0x40 <= b && b <= 0x7E {
        let pf = p.param_finish();
        (c.csi_step(pf.params, pf.inters, b), pf.to(AnsiState::Ground))
    } else {
        (c, p)
    }
}

/// One byte of a malformed CSI sequence: consumed, and the final byte ends
/// the sequence without dispatching it.
pub open spec fn csi_ignore_step(c: ConsoleView, p: ParserView, b: u8) -> (
    ConsoleView,
    ParserView,
) {
    if is_anywhere(b) {
        anywhere_step(c, p, b)
    } else if is_seq_c0(b) {
        (c.ctrl_spec(b), p)
    } else if 0x40 <= b && b <= 0x7E {
        (c, p.to(AnsiState::Ground))
    } else {
        (c, p)
    }
}

/// One byte of an operating-system-command string: consumed until BEL or a
/// new escape.
pub open spec fn osc_step(c: ConsoleView, p: ParserView, b: u8) -> (ConsoleView, ParserView) {
    if is_anywhere(b) {
        anywhere_step(c, p, b)
    } else if b == 0x07 {
        (c, p.to(AnsiState::Ground))
    } else {
        (c, p)
    }
}

/// One byte of a device-control string header: consumed until a final byte
/// starts the body.
pub open spec fn dcs_header_step(c: ConsoleView, p: ParserView, b: u8) -> (
    ConsoleView,
    ParserView,
) {
    if is_anywhere(b) {
        anywhere_step(c, p, b)
    } else if 0x40 <= b && b <= 0x7E {
        (c, p.to(AnsiState::DcsBody))
    } else {
        (c, p)
    }
}

/// One byte of a device-control string body: consumed until the string
/// terminator or a new escape.
pub open spec fn dcs_body_step(c: ConsoleView, p: ParserView, b: u8) -> (ConsoleView, ParserView) {
    if is_anywhere(b) {
        anywhere_step(c, p, b)
    } else if b == 0x9C {
        (c, p.to(AnsiState::Ground))
    } else {
        (c, p)
    }
}

/// One byte of a SOS, PM or APC string: consumed.
pub open spec fn sos_step(c: ConsoleView, p: ParserView, b: u8) -> (ConsoleView, ParserView) {
    if is_anywhere(b) {
        anywhere_step(c, p, b)
    } else {
        (c, p)
    }
}

/// One byte fed to the recognizer: the transition function of the whole
/// console state machine.
pub open spec fn advance_spec(c: ConsoleView, p: ParserView, b: u8) -> (ConsoleView, ParserView) {
    match p.state {
        AnsiState::Ground => ground_step(c, p, b),
        AnsiState::Utf8 => utf8_step(c, p, b),
        AnsiState::Escape => escape_step(c, p, b),
        AnsiState::EscapeIntermediate => escape_intermediate_step(c, p, b),
        AnsiState::CsiEntry => csi_entry_step(c, p, b),
        AnsiState::CsiParam => csi_param_step(c, p, b),
        AnsiState::CsiIntermediate => csi_intermediate_step(c, p, b),
        AnsiState::CsiIgnore => csi_ignore_step(c, p, b),
        AnsiState::OscString => osc_step(c, p, b),
        AnsiState::DcsHeader => dcs_header_step(c, p, b),
        AnsiState::DcsBody => dcs_body_step(c, p, b),
        AnsiState::SosPmApcString => sos_step(c, p, b),
    }
}

/// A whole byte sequence fed to the recognizer, byte by byte.
pub open spec fn process_seq(c: ConsoleView, p: ParserView, bytes: Seq<u8>) -> (
    ConsoleView,
    ParserView,
)
    decreases bytes.len(),
{
    if bytes.len() == 0 {
        (c, p)
    } else {
        let step = advance_spec(c, p, bytes[0]);
        process_seq(step.0, step.1, bytes.drop_first())
    }
}

/// The escape-sequence recognizer state.
pub struct AnsiParser {
    pub state: AnsiState,
    pub params: Vec<u16>,
    pub param: u16,
    pub inters: Vec<u8>,
    pub slots: u8,
    pub in_subparam: bool,
    pub utf8_acc: u32,
    pub utf8_rem: u8,
    pub utf8_lo: u8,
    pub utf8_hi: u8,
}

impl View for AnsiParser {
    type V = ParserView;

    open spec fn view(&self) -> ParserView {
        ParserView {
            state: self.state,
            params: self.params@,
            param: self.param,
            inters: self.inters@,
            slots: self.slots as int,
            in_subparam: self.in_subparam,
            utf8_acc: self.utf8_acc,
            utf8_rem: self.utf8_rem as int,
            utf8_lo: self.utf8_lo,
            utf8_hi: self.utf8_hi,
        }
    }
}

impl AnsiParser {
    /// A recognizer in the ground state with nothing collected.
    pub fn new() -> (r: AnsiParser)
        ensures
            r@.wf(),
            r@.state == AnsiState::Ground,
            r@ == (ParserView {
                state: AnsiState::Ground,
                params: Seq::<u16>::empty(),
                param: 0u16,
                inters: Seq::<u8>::empty(),
                slots: 0int,
                in_subparam: false,
                utf8_acc: 0u32,
                utf8_rem: 0int,
                utf8_lo: 0u8,
                utf8_hi: 0u8,
            }),
    {
        let r = AnsiParser {
            state: AnsiState::Ground,
            params: Vec::new(),
            param: 0,
            inters: Vec::new(),
            slots: 0,
            in_subparam: false,
            utf8_acc: 0,
            utf8_rem: 0,
            utf8_lo: 0,
            utf8_hi: 0,
        };
        proof {
            assert(r@.params =~= Seq::<u16>::empty());
            assert(r@.inters =~= Seq::<u8>::empty());
        }
        r
    }

    /// Clear the sequence in progress and move to `state`.
    pub fn enter_reset(&mut self, state: AnsiState)
        requires
            old(self)@.wf(),
            state != AnsiState::Utf8,
        ensures
            final(self)@ == old(self)@.to_reset(state),
            final(self)@.wf(),
    {
        self.params.clear();
        self.param = 0;
        self.inters.clear();
        self.slots = 0;
        self.in_subparam = false;
        self.state = state;
        proof {
            assert(self@.params =~= Seq::<u16>::empty());
            assert(self@.inters =~= Seq::<u8>::empty());
        }
    }

    /// Move to `state`, keeping everything collected.
    pub fn enter(&mut self, state: AnsiState)
        requires
            old(self)@.wf(),
            state != AnsiState::Utf8,
        ensures
            final(self)@ == old(self)@.to(state),
            final(self)@.wf(),
    {
        self.state = state;
    }

    /// Collect one intermediate byte.
    pub fn collect(&mut self, b: u8)
        requires
            old(self)@.wf(),
        ensures
            final(self)@ == old(self)@.collect(b),
            final(self)@.wf(),
    {
        if self.inters.len() < MAX_INTERMEDIATES {
            self.inters.push(b);
        }
    }

    /// Take one decimal digit of the current parameter.
    pub fn param_digit(&mut self, b: u8)
        requires
            old(self)@.wf(),
            48 <= b <= 57,
        ensures
            final(self)@ == old(self)@.param_digit(b),
            final(self)@.wf(),
    {
        if self.slots >= MAX_PARAM_SLOTS || self.in_subparam {
            return;
        }
        let v: u32 = self.param as u32 * 10 + (b - 48) as u32;
        self.param = if v > 65535 {
            65535
        } else {
            v as u16
        };
    }

    /// Take a `;` parameter separator.
    pub fn param_sep(&mut self)
        requires
            old(self)@.wf(),
        ensures
            final(self)@ == old(self)@.param_sep(),
            final(self)@.wf(),
    {
        if self.slots >= MAX_PARAM_SLOTS {
            return;
        }
        if self.in_subparam {
            self.in_subparam = false;
        } else {
            self.params.push(self.param);
        }
        self.slots = self.slots + 1;
        self.param = 0;
    }

    /// Take a `:` subparameter separator.
    pub fn param_sub(&mut self)
        requires
            old(self)@.wf(),
        ensures
            final(self)@ == old(self)@.param_sub(),
            final(self)@.wf(),
    {
        if self.slots >= MAX_PARAM_SLOTS {
            return;
        }
        if !self.in_subparam {
            self.params.push(self.param);
            self.in_subparam = true;
        }
        self.slots = self.slots + 1;
        self.param = 0;
    }

    /// Finish the parameter list on the final byte.
    pub fn param_finish(&mut self)
        requires
            old(self)@.wf(),
        ensures
            final(self)@ == old(self)@.param_finish(),
            final(self)@.wf(),
    {
        if self.slots >= MAX_PARAM_SLOTS || self.in_subparam {
            return;
        }
        self.params.push(self.param);
        self.slots = self.slots + 1;
    }
}

} // verus!
