//! The character-cell console state: a `width x height` grid of glyph and
//! attribute bytes, a cursor, the current drawing attribute with its bright
//! and reverse modifiers, and the transient cursor-overlay bookkeeping.
//!
//! Every operation is specified against [`ConsoleView`], the mathematical
//! model of the console, by a matching spec-level transition function, so the
//! behaviour of a whole byte stream can be stated and proved as a fold of
//! those transitions.

use vstd::prelude::*;
use crate::attr::Attr;
use crate::glyph::glyph_from_code_spec;
use crate::glyph::glyph_from_code;

verus! {

/// The glyph drawn for the cursor overlay.
pub const CURSOR_GLYPH: u8 = 95;

/// The glyph used to blank a cell.
pub const BLANK_GLYPH: u8 = 32;

/// The mathematical model of the console state.
#[verifier::ext_equal]
pub ghost struct ConsoleView {
    pub width: int,
    pub height: int,
    pub glyphs: Seq<u8>,
    pub attrs: Seq<u8>,
    pub row: int,
    pub col: int,
    pub attr: Attr,
    pub bright: bool,
    pub reverse: bool,
    pub cursor_wanted: bool,
    pub cursor_depth: int,
    pub cursor_holder: Option<u8>,
}

/// An in-range cell has an in-range index.
pub proof fn lemma_cell_in_range(w: int, h: int, r: int, c: int)
    by (nonlinear_arith)
    requires
        1 <= w,
        1 <= h,
        0 <= r < h,
        0 <= c < w,
    ensures
        0 <= r * w + c,
        r * w + c < w * h,
{
}

impl ConsoleView {
    /// Well-formedness: the grid matches the geometry, the cursor is inside
    /// the grid except for the transient one-past positions that are resolved
    /// lazily, and the attribute fields are in range.
    pub open spec fn wf(self) -> bool {
        &&& 1 <= self.width
        &&& 1 <= self.height
        &&& self.width * self.height * 2 <= usize::MAX
        &&& self.glyphs.len() == self.width * self.height
        &&& self.attrs.len() == self.width * self.height
        &&& 0 <= self.row <= self.height
        &&& 0 <= self.col <= self.width
        &&& (self.col == self.width ==> self.row < self.height)
        &&& self.attr.wf()
        &&& 0 <= self.cursor_depth
    }

    /// The linear index of cell `(r, c)`.
    pub open spec fn cell(self, r: int, c: int) -> int {
        r * self.width + c
    }

    /// The attribute in force at write time: reverse video swaps foreground
    /// and background without changing the stored attribute.
    pub open spec fn effective_attr(self) -> Attr {
        if self.reverse {
            self.attr.swapped_spec()
        } else {
            self.attr
        }
    }

    /// The packed byte written beside every glyph.
    pub open spec fn effective_attr_byte(self) -> u8 {
        self.effective_attr().byte_spec()
    }

    /// Write one glyph at `(r, c)` with the current effective attribute.
    pub open spec fn with_cell(self, r: int, c: int, glyph: u8) -> ConsoleView {
        ConsoleView {
            glyphs: self.glyphs.update(self.cell(r, c), glyph),
            attrs: self.attrs.update(self.cell(r, c), self.effective_attr_byte()),
            ..self
        }
    }

    /// Move every row up by one, losing the top row; the bottom row becomes
    /// blanks drawn with the current effective attribute.
    pub open spec fn scroll_page_spec(self) -> ConsoleView {
        let w = self.width;
        let keep = w * (self.height - 1);
        ConsoleView {
            glyphs: Seq::new(
                self.glyphs.len(),
                |i: int| if i < keep { self.glyphs[i + w] } else { BLANK_GLYPH },
            ),
            attrs: Seq::new(
                self.attrs.len(),
                |i: int| if i < keep { self.attrs[i + w] } else { self.effective_attr_byte() },
            ),
            ..self
        }
    }

    /// Resolve a pending column overflow or off-bottom row: wrap the column,
    /// then scroll if the cursor sits one past the last row. Deferred so that
    /// writing the last cell of the last row does not scroll prematurely.
    pub open spec fn scroll_fix(self) -> ConsoleView {
        let s = if self.col >= self.width {
            ConsoleView { col: 0, row: self.row + 1, ..self }
        } else {
            self
        };
        if s.row == s.height {
            ConsoleView { row: s.height - 1, ..s }.scroll_page_spec()
        } else {
            s
        }
    }

    /// Move the cursor relative to its current position, clamped to the grid.
    pub open spec fn move_rel_spec(self, dr: int, dc: int) -> ConsoleView {
        let r0 = self.row + dr;
        let c0 = self.col + dc;
        let r1 = if r0 < 0 { 0 } else { r0 };
        let c1 = if c0 < 0 { 0 } else { c0 };
        let r2 = if r1 >= self.height { self.height - 1 } else { r1 };
        let c2 = if c1 >= self.width { self.width - 1 } else { c1 };
        ConsoleView { row: r2, col: c2, ..self }
    }

    /// Move the cursor to the given position, clamped to the grid.
    pub open spec fn move_abs_spec(self, r: int, c: int) -> ConsoleView {
        ConsoleView { row: r, col: c, ..self }.move_rel_spec(0, 0)
    }

    /// Print one decoded code point: resolve any pending scroll, place the
    /// glyph, and step the column (possibly to one past the last column).
    pub open spec fn print_code_spec(self, cp: u32) -> ConsoleView {
        let s = self.scroll_fix();
        let s2 = s.with_cell(s.row, s.col, glyph_from_code_spec(cp));
        ConsoleView { col: s2.col + 1, ..s2 }
    }

    /// Execute a C0 control code: backspace, carriage return and line feed
    /// are interpreted; anything else only resolves a pending scroll.
    pub open spec fn ctrl_spec(self, b: u8) -> ConsoleView {
        let s = self.scroll_fix();
        if b == 8 {
            if s.col > 0 {
                ConsoleView { col: s.col - 1, ..s }
            } else {
                s
            }
        } else if b == 13 {
            ConsoleView { col: 0, ..s }
        } else if b == 10 {
            ConsoleView { col: 0, row: s.row + 1, ..s }
        } else {
            s
        }
    }

    /// Blank every cell for which `p(row, col)` holds, drawing with the
    /// current effective attribute; everything else is untouched.
    pub open spec fn erase_region(self, p: spec_fn(int, int) -> bool) -> ConsoleView {
        let w = self.width;
        ConsoleView {
            glyphs: Seq::new(
                self.glyphs.len(),
                |i: int| if p(i / w, i % w) { BLANK_GLYPH } else { self.glyphs[i] },
            ),
            attrs: Seq::new(
                self.attrs.len(),
                |i: int| if p(i / w, i % w) { self.effective_attr_byte() } else { self.attrs[i] },
            ),
            ..self
        }
    }

    /// The cells blanked by erase-in-display: mode `0` is the cursor through
    /// the end of the display, `1` the start of the display through the
    /// cursor, `2` the whole display.
    pub open spec fn erased_in_display(self, mode: u16, r: int, c: int) -> bool {
        if mode == 0 {
            r > self.row || (r == self.row && c >= self.col)
        } else if mode == 1 {
            r < self.row || (r == self.row && c <= self.col)
        } else {
            true
        }
    }

    /// The cells blanked by erase-in-line: the same modes as erase-in-display,
    /// restricted to the cursor row.
    pub open spec fn erased_in_line(self, mode: u16, r: int, c: int) -> bool {
        if mode == 0 {
            r == self.row && c >= self.col
        } else if mode == 1 {
            r == self.row && c <= self.col
        } else {
            r == self.row
        }
    }

    /// Erase in display; the cursor stays put, and an unknown mode changes
    /// nothing.
    pub open spec fn erase_in_display_spec(self, mode: u16) -> ConsoleView {
        if mode <= 2 {
            self.erase_region(|r: int, c: int| self.erased_in_display(mode, r, c))
        } else {
            self
        }
    }

    /// Erase in line; the cursor stays put, and an unknown mode changes
    /// nothing.
    pub open spec fn erase_in_line_spec(self, mode: u16) -> ConsoleView {
        if mode <= 2 {
            self.erase_region(|r: int, c: int| self.erased_in_line(mode, r, c))
        } else {
            self
        }
    }

    /// Blank the whole screen and home the cursor.
    pub open spec fn clear_spec(self) -> ConsoleView {
        self.erase_region(|r: int, c: int| true).move_abs_spec(0, 0)
    }

    /// The parameter at position `i`, or `default` where the list is shorter.
    pub open spec fn param_or(params: Seq<u16>, i: int, default: int) -> int {
        if params.len() > i {
            params[i] as int
        } else {
            default
        }
    }

    /// Relative-motion parameters treat `0` as `1`.
    pub open spec fn at_least_one(p: int) -> int {
        if p == 0 {
            1
        } else {
            p
        }
    }

    /// One Select Graphic Rendition code applied to the attribute state.
    pub open spec fn sgr_one(self, code: u16) -> ConsoleView {
        if code == 0 {
            ConsoleView {
                attr: Attr::default_attr_spec(),
                bright: false,
                reverse: false,
                ..self
            }
        } else if code == 1 {
            ConsoleView { bright: true, ..self }
        } else if code == 7 {
            ConsoleView { reverse: true, ..self }
        } else if code == 22 {
            ConsoleView { bright: false, ..self }
        } else if code == 30 {
            ConsoleView { attr: Attr { fg: 0, ..self.attr }, ..self }
        } else if code == 31 {
            ConsoleView { attr: Attr { fg: 4, ..self.attr }, ..self }
        } else if code == 32 {
            ConsoleView { attr: Attr { fg: 2, ..self.attr }, ..self }
        } else if code == 33 {
            ConsoleView { attr: Attr { fg: 6, ..self.attr }, ..self }
        } else if code == 34 {
            ConsoleView { attr: Attr { fg: 1, ..self.attr }, ..self }
        } else if code == 35 {
            ConsoleView { attr: Attr { fg: 5, ..self.attr }, ..self }
        } else if code == 36 {
            ConsoleView { attr: Attr { fg: 3, ..self.attr }, ..self }
        } else if code == 37 || code == 39 {
            ConsoleView { attr: Attr { fg: 7, ..self.attr }, ..self }
        } else if code == 40 {
            ConsoleView { attr: Attr { bg: 0, ..self.attr }, ..self }
        } else if code == 41 {
            ConsoleView { attr: Attr { bg: 4, ..self.attr }, ..self }
        } else if code == 42 {
            ConsoleView { attr: Attr { bg: 2, ..self.attr }, ..self }
        } else if code == 43 {
            ConsoleView { attr: Attr { bg: 6, ..self.attr }, ..self }
        } else if code == 44 {
            ConsoleView { attr: Attr { bg: 1, ..self.attr }, ..self }
        } else if code == 45 {
            ConsoleView { attr: Attr { bg: 5, ..self.attr }, ..self }
        } else if code == 46 {
            ConsoleView { attr: Attr { bg: 3, ..self.attr }, ..self }
        } else if code == 47 || code == 49 {
            ConsoleView { attr: Attr { bg: 7, ..self.attr }, ..self }
        } else {
            self
        }
    }

    /// All codes of one SGR sequence applied left to right.
    pub open spec fn sgr_fold(self, params: Seq<u16>) -> ConsoleView
        decreases params.len(),
    {
        if params.len() == 0 {
            self
        } else {
            self.sgr_one(params[0]).sgr_fold(params.drop_first())
        }
    }

    /// A whole SGR sequence: apply every code, then, if bright is set,
    /// promote the foreground to its brighter sibling. The promotion comes
    /// last because the colour may be set before the bright bit in the same
    /// sequence.
    pub open spec fn sgr_spec(self, params: Seq<u16>) -> ConsoleView {
        let s = self.sgr_fold(params);
        if s.bright {
            ConsoleView { attr: Attr { fg: Attr::brightened_fg_spec(s.attr.fg), ..s.attr }, ..s }
        } else {
            s
        }
    }

    /// One complete CSI sequence dispatched on its final byte. Parameters
    /// default to `1` when omitted; a literal `0` is treated as `1` for
    /// relative motions but kept as `0` for the erase operations, where it
    /// selects a mode. Unknown sequences change nothing. The device status
    /// report is deliberately among them: the interpreter has no input channel
    /// to send a reply through, so the request is recognized and dropped.
    pub open spec fn csi_step(self, params: Seq<u16>, inters: Seq<u8>, action: u8) -> ConsoleView {
        let first = ConsoleView::param_or(params, 0, 1);
        let second = ConsoleView::param_or(params, 1, 1);
        let first1 = ConsoleView::at_least_one(first);
        let second1 = ConsoleView::at_least_one(second);
        if action == 109 {  // m
            self.sgr_spec(params)
        } else if action == 65 {  // A
            self.move_rel_spec(-first1, 0)
        } else if action == 66 {  // B
            self.move_rel_spec(first1, 0)
        } else if action == 67 {  // C
            self.move_rel_spec(0, first1)
        } else if action == 68 {  // D
            self.move_rel_spec(0, -first1)
        } else if action == 69 {  // E
            self.move_abs_spec(self.row + first1, 0)
        } else if action == 70 {  // F
            self.move_abs_spec(self.row - first1, 0)
        } else if action == 71 {  // G
            self.move_abs_spec(self.row, first1 - 1)
        } else if action == 72 || action == 102 {  // H and f
            self.move_abs_spec(first1 - 1, second1 - 1)
        } else if action == 74 {  // J
            self.erase_in_display_spec(if params.len() > 0 { params[0] } else { 1 })
        } else if action == 75 {  // K
            self.erase_in_line_spec(if params.len() > 0 { params[0] } else { 1 })
        } else if action == 104 && inters.len() >= 1 && inters[0] == 63 {  // ? h
            ConsoleView { cursor_wanted: true, ..self }
        } else if action == 108 && inters.len() >= 1 && inters[0] == 63 {  // ? l
            ConsoleView { cursor_wanted: false, ..self }
        } else {
            self
        }
    }

    /// Restore whatever the cursor overlay was covering (if it was on screen)
    /// and count one more level of disabling.
    pub open spec fn cursor_disable_spec(self) -> ConsoleView {
        let s = match self.cursor_holder {
            Option::Some(g) => {
                if 0 <= self.row < self.height && 0 <= self.col < self.width {
                    ConsoleView { cursor_holder: Option::None, ..self }.with_cell(
                        self.row,
                        self.col,
                        g,
                    )
                } else {
                    self
                }
            },
            Option::None => self,
        };
        ConsoleView { cursor_holder: Option::None, cursor_depth: self.cursor_depth + 1, ..s }
    }

    /// Undo one level of disabling; at depth zero, if the cursor is wanted
    /// and not already drawn, draw it and remember what was underneath
    /// (or a made-up blank if the cursor is off screen).
    pub open spec fn cursor_enable_spec(self) -> ConsoleView {
        let s = ConsoleView { cursor_depth: self.cursor_depth - 1, ..self };
        if s.cursor_depth == 0 && s.cursor_wanted && s.cursor_holder is None {
            if 0 <= s.row < s.height && 0 <= s.col < s.width {
                let covered = s.glyphs[s.cell(s.row, s.col)];
                ConsoleView {
                    cursor_holder: Option::Some(covered),
                    ..s.with_cell(s.row, s.col, CURSOR_GLYPH)
                }
            } else {
                ConsoleView { cursor_holder: Option::Some(BLANK_GLYPH), ..s }
            }
        } else {
            s
        }
    }
}

/// The console state itself. The fields are the direct realization of
/// [`ConsoleView`]; `wf()` on the view is the invariant every operation
/// preserves.
pub struct Console {
    pub width: usize,
    pub height: usize,
    pub glyphs: Vec<u8>,
    pub attrs: Vec<u8>,
    pub row: usize,
    pub col: usize,
    pub attr: Attr,
    pub bright: bool,
    pub reverse: bool,
    pub cursor_wanted: bool,
    pub cursor_depth: u8,
    pub cursor_holder: Option<u8>,
}

impl View for Console {
    type V = ConsoleView;

    open spec fn view(&self) -> ConsoleView {
        ConsoleView {
            width: self.width as int,
            height: self.height as int,
            glyphs: self.glyphs@,
            attrs: self.attrs@,
            row: self.row as int,
            col: self.col as int,
            attr: self.attr,
            bright: self.bright,
            reverse: self.reverse,
            cursor_wanted: self.cursor_wanted,
            cursor_depth: self.cursor_depth as int,
            cursor_holder: self.cursor_holder,
        }
    }
}

impl Console {
    /// Build a console of the given geometry with every cell zeroed, the
    /// cursor at the origin and the default attribute, as over freshly
    /// blanked video memory.
    pub fn new(width: usize, height: usize) -> (r: Console)
        requires
            1 <= width,
            1 <= height,
            width * height * 2 <= usize::MAX,
        ensures
            r@.wf(),
            r@.width == width,
            r@.height == height,
            r@.glyphs == Seq::new((width * height) as nat, |i: int| 0u8),
            r@.attrs == Seq::new((width * height) as nat, |i: int| 0u8),
            r@.row == 0,
            r@.col == 0,
            r@.attr == Attr::default_attr_spec(),
            !r@.bright,
            !r@.reverse,
            !r@.cursor_wanted,
            r@.cursor_depth == 0,
            r@.cursor_holder is None,
    {
        let n = width * height;
        let mut glyphs: Vec<u8> = Vec::new();
        let mut attrs: Vec<u8> = Vec::new();
        let mut i: usize = 0;
        while i < n
            invariant
                i <= n,
                glyphs@.len() == i,
                attrs@.len() == i,
                forall|k: int| 0 <= k < i ==> glyphs@[k] == 0u8,
                forall|k: int| 0 <= k < i ==> attrs@[k] == 0u8,
            decreases n - i,
        {
            glyphs.push(0);
            attrs.push(0);
            i = i + 1;
        }
        proof {
            assert(glyphs@ =~= Seq::new((width * height) as nat, |i: int| 0u8));
            assert(attrs@ =~= Seq::new((width * height) as nat, |i: int| 0u8));
        }
        Console {
            width,
            height,
            glyphs,
            attrs,
            row: 0,
            col: 0,
            attr: Attr::default_attr(),
            bright: false,
            reverse: false,
            cursor_wanted: false,
            cursor_depth: 0,
            cursor_holder: None,
        }
    }

    /// Put a glyph at the given position, together with the effective
    /// attribute byte. The cursor overlay must be disabled for ordinary
    /// writes, so that the overlay bookkeeping cannot be corrupted.
    pub fn write_at(&mut self, row: usize, col: usize, glyph: u8, is_cursor: bool)
        requires
            old(self)@.wf(),
            row < old(self)@.height,
            col < old(self)@.width,
            !is_cursor ==> old(self).cursor_holder is None,
        ensures
            final(self)@ == old(self)@.with_cell(row as int, col as int, glyph),
            final(self)@.wf(),
    {
        proof {
            lemma_cell_in_range(self@.width, self@.height, row as int, col as int);
        }
        let idx = row * self.width + col;
        self.glyphs.set(idx, glyph);
        let a = if self.reverse {
            self.attr.swapped()
        } else {
            self.attr
        };
        self.attrs.set(idx, a.as_byte());
    }

    /// Put a glyph at the current cursor position.
    pub fn write(&mut self, glyph: u8)
        requires
            old(self)@.wf(),
            old(self)@.row < old(self)@.height,
            old(self)@.col < old(self)@.width,
            old(self).cursor_holder is None,
        ensures
            final(self)@ == old(self)@.with_cell(old(self)@.row, old(self)@.col, glyph),
            final(self)@.wf(),
    {
        let r = self.row;
        let c = self.col;
        self.write_at(r, c, glyph, false);
    }

    /// Read the glyph at the given position.
    pub fn read_at(&self, row: usize, col: usize) -> (r: u8)
        requires
            self@.wf(),
            row < self@.height,
            col < self@.width,
        ensures
            r == self@.glyphs[self@.cell(row as int, col as int)],
    {
        proof {
            lemma_cell_in_range(self@.width, self@.height, row as int, col as int);
        }
        let idx = row * self.width + col;
        self.glyphs[idx]
    }

    /// Move everything on screen up one row, losing the top row and blanking
    /// the bottom row.
    pub fn scroll_page(&mut self)
        requires
            old(self)@.wf(),
            old(self).cursor_holder is None,
        ensures
            final(self)@ == old(self)@.scroll_page_spec(),
            final(self)@.wf(),
    {
        let w = self.width;
        let ghost pre = self@;
        proof {
            assert(0 <= pre.width * (pre.height - 1) && pre.width * (pre.height - 1) + pre.width
                == pre.width * pre.height) by (nonlinear_arith)
                requires 1 <= pre.width && 1 <= pre.height;
        }
        let keep = w * (self.height - 1);
        let mut j: usize = 0;
        while j < keep
            invariant
                self@.wf(),
                self@ == (ConsoleView { glyphs: self@.glyphs, attrs: self@.attrs, ..pre }),
                w == pre.width,
                keep == pre.width * (pre.height - 1),
                keep + w == pre.glyphs.len(),
                j <= keep,
                self@.glyphs.len() == pre.glyphs.len(),
                self@.attrs.len() == pre.attrs.len(),
                forall|i: int| 0 <= i < j ==> self@.glyphs[i] == pre.glyphs[i + w],
                forall|i: int| 0 <= i < j ==> self@.attrs[i] == pre.attrs[i + w],
                forall|i: int| j <= i < pre.glyphs.len() ==> self@.glyphs[i] == pre.glyphs[i],
                forall|i: int| j <= i < pre.attrs.len() ==> self@.attrs[i] == pre.attrs[i],
            decreases keep - j,
        {
            let g = self.glyphs[j + w];
            let a = self.attrs[j + w];
            self.glyphs.set(j, g);
            self.attrs.set(j, a);
            j = j + 1;
        }
        let blank_attr = if self.reverse {
            self.attr.swapped()
        } else {
            self.attr
        };
        let ab = blank_attr.as_byte();
        let total = keep + w;
        while j < total
            invariant
                self@.wf(),
                self@ == (ConsoleView { glyphs: self@.glyphs, attrs: self@.attrs, ..pre }),
                w == pre.width,
                keep == pre.width * (pre.height - 1),
                total == keep + w,
                total == pre.glyphs.len(),
                keep <= j <= total,
                ab == pre.effective_attr_byte(),
                self@.glyphs.len() == pre.glyphs.len(),
                self@.attrs.len() == pre.attrs.len(),
                forall|i: int| 0 <= i < keep ==> self@.glyphs[i] == pre.glyphs[i + w],
                forall|i: int| 0 <= i < keep ==> self@.attrs[i] == pre.attrs[i + w],
                forall|i: int| keep <= i < j ==> self@.glyphs[i] == BLANK_GLYPH,
                forall|i: int| keep <= i < j ==> self@.attrs[i] == ab,
            decreases total - j,
        {
            self.glyphs.set(j, BLANK_GLYPH);
            self.attrs.set(j, ab);
            j = j + 1;
        }
        proof {
            assert(self@.glyphs =~= pre.scroll_page_spec().glyphs);
            assert(self@.attrs =~= pre.scroll_page_spec().attrs);
            assert(self@ == pre.scroll_page_spec());
        }
    }

    /// If the cursor is past the right edge, wrap it; if it is then past the
    /// bottom edge, scroll.
    pub fn scroll_as_required(&mut self)
        requires
            old(self)@.wf(),
            old(self).cursor_holder is None,
        ensures
            final(self)@ == old(self)@.scroll_fix(),
            final(self)@.wf(),
            final(self)@.row < final(self)@.height,
            final(self)@.col < final(self)@.width,
    {
        if self.col >= self.width {
            self.col = 0;
            self.row = self.row + 1;
        }
        if self.row == self.height {
            self.row = self.row - 1;
            self.scroll_page();
        }
    }

    /// Print one decoded code point at the cursor, stepping the column.
    pub fn print_code(&mut self, cp: u32)
        requires
            old(self)@.wf(),
            old(self).cursor_holder is None,
        ensures
            final(self)@ == old(self)@.print_code_spec(cp),
            final(self)@.wf(),
    {
        self.scroll_as_required();
        let g = glyph_from_code(cp);
        self.write(g);
        self.col = self.col + 1;
    }

    /// Execute a C0 control code.
    pub fn ctrl(&mut self, b: u8)
        requires
            old(self)@.wf(),
            old(self).cursor_holder is None,
        ensures
            final(self)@ == old(self)@.ctrl_spec(b),
            final(self)@.wf(),
    {
        self.scroll_as_required();
        if b == 8 {
            // Backspace: one column left, never wrapping to the previous row.
            if self.col > 0 {
                self.col = self.col - 1;
            }
        } else if b == 13 {
            self.col = 0;
        } else if b == 10 {
            self.col = 0;
            self.row = self.row + 1;
        }
    }

    /// Move the cursor to the given position, clamped to the grid.
    pub fn move_cursor_absolute(&mut self, row: usize, col: usize)
        requires
            old(self)@.wf(),
        ensures
            final(self)@ == old(self)@.move_abs_spec(row as int, col as int),
            final(self)@.wf(),
    {
        self.row = if row >= self.height {
            self.height - 1
        } else {
            row
        };
        self.col = if col >= self.width {
            self.width - 1
        } else {
            col
        };
    }

    /// The row is at most half the address space, so cursor sums cannot
    /// overflow.
    proof fn lemma_height_small(self)
        requires
            self@.wf(),
        ensures
            self@.height * 2 <= usize::MAX,
    {
        assert(self@.height * 2 <= self@.width * self@.height * 2) by (nonlinear_arith)
            requires 1 <= self@.width && 1 <= self@.height;
    }

    /// Move the cursor up by `n` rows, clamped to the grid.
    pub fn cursor_up(&mut self, n: u16)
        requires
            old(self)@.wf(),
            1 <= n,
        ensures
            final(self)@ == old(self)@.move_rel_spec(-(n as int), 0),
            final(self)@.wf(),
    {
        let nn = n as usize;
        self.row = if nn >= self.row {
            0
        } else {
            self.row - nn
        };
        if self.col >= self.width {
            self.col = self.width - 1;
        }
    }

    /// Move the cursor down by `n` rows, clamped to the grid.
    pub fn cursor_down(&mut self, n: u16)
        requires
            old(self)@.wf(),
            1 <= n,
        ensures
            final(self)@ == old(self)@.move_rel_spec(n as int, 0),
            final(self)@.wf(),
    {
        proof {
            self.lemma_height_small();
        }
        let nn = n as usize;
        let lim = self.height - 1;
        self.row = if nn > lim || self.row > lim - nn {
            lim
        } else {
            self.row + nn
        };
        if self.col >= self.width {
            self.col = self.width - 1;
        }
    }

    /// Move the cursor right by `n` columns, clamped to the grid.
    pub fn cursor_right(&mut self, n: u16)
        requires
            old(self)@.wf(),
            1 <= n,
        ensures
            final(self)@ == old(self)@.move_rel_spec(0, n as int),
            final(self)@.wf(),
    {
        proof {
            assert(self@.width * 2 <= self@.width * self@.height * 2) by (nonlinear_arith)
                requires 1 <= self@.width && 1 <= self@.height;
        }
        let nn = n as usize;
        let lim = self.width - 1;
        self.col = if nn > lim || self.col > lim - nn {
            lim
        } else {
            self.col + nn
        };
        if self.row >= self.height {
            self.row = self.height - 1;
        }
    }

    /// Move the cursor left by `n` columns, clamped to the grid.
    pub fn cursor_left(&mut self, n: u16)
        requires
            old(self)@.wf(),
            1 <= n,
        ensures
            final(self)@ == old(self)@.move_rel_spec(0, -(n as int)),
            final(self)@.wf(),
    {
        let nn = n as usize;
        self.col = if nn >= self.col {
            0
        } else {
            self.col - nn
        };
        if self.col >= self.width {
            self.col = self.width - 1;
        }
        if self.row >= self.height {
            self.row = self.height - 1;
        }
    }

    /// Erase in display: mode `0` from the cursor to the end of the screen,
    /// `1` from the start of the screen through the cursor, `2` everything.
    /// Cells whose write would fall outside the grid are skipped rather than
    /// faulted on, and the cursor does not move.
    pub fn erase_in_display(&mut self, mode: u16)
        requires
            old(self)@.wf(),
            old(self).cursor_holder is None,
        ensures
            final(self)@ == old(self)@.erase_in_display_spec(mode),
            final(self)@.wf(),
    {
        let ghost pre = self@;
        if mode > 2 {
            proof {
                assert(pre.erase_in_display_spec(mode) == pre);
            }
            return;
        }
        let w = self.width;
        let n = self.glyphs.len();
        let blank_attr = if self.reverse {
            self.attr.swapped()
        } else {
            self.attr
        };
        let ab = blank_attr.as_byte();
        let row = self.row;
        let col = self.col;
        let mut j: usize = 0;
        while j < n
            invariant
                self@.wf(),
                self@ == (ConsoleView { glyphs: self@.glyphs, attrs: self@.attrs, ..pre }),
                w == pre.width,
                row == pre.row,
                col == pre.col,
                mode <= 2,
                ab == pre.effective_attr_byte(),
                n == pre.glyphs.len(),
                j <= n,
                self@.glyphs.len() == n,
                self@.attrs.len() == n,
                forall|i: int| 0 <= i < j ==> #[trigger] self@.glyphs[i] == (
                    if pre.erased_in_display(mode, i / pre.width, i % pre.width) {
                        BLANK_GLYPH
                    } else {
                        pre.glyphs[i]
                    }),
                forall|i: int| 0 <= i < j ==> #[trigger] self@.attrs[i] == (
                    if pre.erased_in_display(mode, i / pre.width, i % pre.width) {
                        pre.effective_attr_byte()
                    } else {
                        pre.attrs[i]
                    }),
                forall|i: int| j <= i < n ==> self@.glyphs[i] == pre.glyphs[i],
                forall|i: int| j <= i < n ==> self@.attrs[i] == pre.attrs[i],
            decreases n - j,
        {
            let r = j / w;
            let c = j % w;
            let hit = if mode == 0 {
                r > row || (r == row && c >= col)
            } else if mode == 1 {
                r < row || (r == row && c <= col)
            } else {
                true
            };
            if hit {
                self.glyphs.set(j, BLANK_GLYPH);
                self.attrs.set(j, ab);
            }
            j = j + 1;
        }
        proof {
            assert(self@.glyphs =~= pre.erase_in_display_spec(mode).glyphs);
            assert(self@.attrs =~= pre.erase_in_display_spec(mode).attrs);
            assert(self@ == pre.erase_in_display_spec(mode));
        }
    }

    /// Erase in line: the same three modes as erase in display, restricted to
    /// the cursor row.
    pub fn erase_in_line(&mut self, mode: u16)
        requires
            old(self)@.wf(),
            old(self).cursor_holder is None,
        ensures
            final(self)@ == old(self)@.erase_in_line_spec(mode),
            final(self)@.wf(),
    {
        let ghost pre = self@;
        if mode > 2 {
            proof {
                assert(pre.erase_in_line_spec(mode) == pre);
            }
            return;
        }
        let w = self.width;
        let n = self.glyphs.len();
        let blank_attr = if self.reverse {
            self.attr.swapped()
        } else {
            self.attr
        };
        let ab = blank_attr.as_byte();
        let row = self.row;
        let col = self.col;
        let mut j: usize = 0;
        while j < n
            invariant
                self@.wf(),
                self@ == (ConsoleView { glyphs: self@.glyphs, attrs: self@.attrs, ..pre }),
                w == pre.width,
                row == pre.row,
                col == pre.col,
                mode <= 2,
                ab == pre.effective_attr_byte(),
                n == pre.glyphs.len(),
                j <= n,
                self@.glyphs.len() == n,
                self@.attrs.len() == n,
                forall|i: int| 0 <= i < j ==> #[trigger] self@.glyphs[i] == (
                    if pre.erased_in_line(mode, i / pre.width, i % pre.width) {
                        BLANK_GLYPH
                    } else {
                        pre.glyphs[i]
                    }),
                forall|i: int| 0 <= i < j ==> #[trigger] self@.attrs[i] == (
                    if pre.erased_in_line(mode, i / pre.width, i % pre.width) {
                        pre.effective_attr_byte()
                    } else {
                        pre.attrs[i]
                    }),
                forall|i: int| j <= i < n ==> self@.glyphs[i] == pre.glyphs[i],
                forall|i: int| j <= i < n ==> self@.attrs[i] == pre.attrs[i],
            decreases n - j,
        {
            let r = j / w;
            let c = j % w;
            let hit = if mode == 0 {
                r == row && c >= col
            } else if mode == 1 {
                r == row && c <= col
            } else {
                r == row
            };
            if hit {
                self.glyphs.set(j, BLANK_GLYPH);
                self.attrs.set(j, ab);
            }
            j = j + 1;
        }
        proof {
            assert(self@.glyphs =~= pre.erase_in_line_spec(mode).glyphs);
            assert(self@.attrs =~= pre.erase_in_line_spec(mode).attrs);
            assert(self@ == pre.erase_in_line_spec(mode));
        }
    }

    /// Blank the whole screen and home the cursor.
    pub fn clear(&mut self)
        requires
            old(self)@.wf(),
            old(self).cursor_holder is None,
        ensures
            final(self)@ == old(self)@.clear_spec(),
            final(self)@.wf(),
    {
        let ghost pre = self@;
        self.erase_in_display(2);
        self.move_cursor_absolute(0, 0);
        proof {
            assert(self@.glyphs =~= pre.clear_spec().glyphs);
            assert(self@.attrs =~= pre.clear_spec().attrs);
            assert(self@ == pre.clear_spec());
        }
    }

    /// Set the attribute for any future text.
    pub fn set_attr(&mut self, attr: Attr)
        requires
            old(self)@.wf(),
            attr.wf(),
        ensures
            final(self)@ == (ConsoleView { attr, ..old(self)@ }),
            final(self)@.wf(),
    {
        self.attr = attr;
    }

    /// Apply one Select Graphic Rendition code to the attribute state.
    fn sgr_apply_one(&mut self, code: u16)
        requires
            old(self)@.wf(),
        ensures
            final(self)@ == old(self)@.sgr_one(code),
            final(self)@.wf(),
            final(self).cursor_holder == old(self).cursor_holder,
            final(self)@.cursor_depth == old(self)@.cursor_depth,
    {
        if code == 0 {
            self.attr = Attr::default_attr();
            self.bright = false;
            self.reverse = false;
        } else if code == 1 {
            self.bright = true;
        } else if code == 7 {
            self.reverse = true;
        } else if code == 22 {
            self.bright = false;
        } else if code == 30 {
            self.attr = self.attr.with_fg(0);
        } else if code == 31 {
            self.attr = self.attr.with_fg(4);
        } else if code == 32 {
            self.attr = self.attr.with_fg(2);
        } else if code == 33 {
            self.attr = self.attr.with_fg(6);
        } else if code == 34 {
            self.attr = self.attr.with_fg(1);
        } else if code == 35 {
            self.attr = self.attr.with_fg(5);
        } else if code == 36 {
            self.attr = self.attr.with_fg(3);
        } else if code == 37 || code == 39 {
            self.attr = self.attr.with_fg(7);
        } else if code == 40 {
            self.attr = self.attr.with_bg(0);
        } else if code == 41 {
            self.attr = self.attr.with_bg(4);
        } else if code == 42 {
            self.attr = self.attr.with_bg(2);
        } else if code == 43 {
            self.attr = self.attr.with_bg(6);
        } else if code == 44 {
            self.attr = self.attr.with_bg(1);
        } else if code == 45 {
            self.attr = self.attr.with_bg(5);
        } else if code == 46 {
            self.attr = self.attr.with_bg(3);
        } else if code == 47 || code == 49 {
            self.attr = self.attr.with_bg(7);
        }
    }

    /// Apply a whole Select Graphic Rendition sequence.
    pub fn sgr(&mut self, params: &Vec<u16>)
        requires
            old(self)@.wf(),
        ensures
            final(self)@ == old(self)@.sgr_spec(params@),
            final(self)@.wf(),
            final(self).cursor_holder == old(self).cursor_holder,
            final(self)@.cursor_depth == old(self)@.cursor_depth,
    {
        let ghost pre = self@;
        let mut i: usize = 0;
        while i < params.len()
            invariant
                i <= params@.len(),
                self@ == pre.sgr_fold(params@.take(i as int)),
                pre.wf(),
                self@.wf(),
                self.cursor_holder == pre.cursor_holder,
                self@.cursor_depth == pre.cursor_depth,
            decreases params@.len() - i,
        {
            let code = params[i];
            proof {
                lemma_sgr_fold_snoc(pre, params@, i as int);
            }
            self.sgr_apply_one(code);
            i = i + 1;
        }
        proof {
            assert(params@.take(params@.len() as int) =~= params@);
        }
        if self.bright {
            self.attr = self.attr.brightened();
        }
    }

    /// Restore whatever the cursor overlay was covering, if it is on
    /// screen, and count one more level of disabling.
    pub fn cursor_disable(&mut self)
        requires
            old(self)@.wf(),
            old(self)@.cursor_depth < 255,
        ensures
            final(self)@ == old(self)@.cursor_disable_spec(),
            final(self)@.wf(),
            final(self).cursor_holder is None,
    {
        if let Some(glyph) = self.cursor_holder {
            self.cursor_holder = None;
            if self.row < self.height && self.col < self.width {
                let r = self.row;
                let c = self.col;
                self.write_at(r, c, glyph, false);
            }
        }
        self.cursor_depth = self.cursor_depth + 1;
    }

    /// Undo one level of disabling; back at depth zero, if the cursor is
    /// wanted and not already drawn, draw the cursor glyph and remember what
    /// was underneath (or a made-up blank when the cursor is off screen).
    pub fn cursor_enable(&mut self)
        requires
            old(self)@.wf(),
            1 <= old(self)@.cursor_depth,
        ensures
            final(self)@ == old(self)@.cursor_enable_spec(),
            final(self)@.wf(),
    {
        self.cursor_depth = self.cursor_depth - 1;
        if self.cursor_depth == 0 && self.cursor_wanted && self.cursor_holder.is_none() {
            if self.row < self.height && self.col < self.width {
                let r = self.row;
                let c = self.col;
                let value = self.read_at(r, c);
                self.write_at(r, c, CURSOR_GLYPH, true);
                self.cursor_holder = Some(value);
            } else {
                self.cursor_holder = Some(BLANK_GLYPH);
            }
        }
    }

    /// Dispatch one complete CSI sequence on its final byte.
    pub fn csi_dispatch(&mut self, params: &Vec<u16>, inters: &Vec<u8>, action: u8)
        requires
            old(self)@.wf(),
            old(self).cursor_holder is None,
        ensures
            final(self)@ == old(self)@.csi_step(params@, inters@, action),
            final(self)@.wf(),
            final(self).cursor_holder == old(self).cursor_holder,
            final(self)@.cursor_depth == old(self)@.cursor_depth,
    {
        proof {
            self.lemma_height_small();
        }
        let first: u16 = if params.len() >= 1 {
            params[0]
        } else {
            1
        };
        let second: u16 = if params.len() >= 2 {
            params[1]
        } else {
            1
        };
        let first1: u16 = if first == 0 {
            1
        } else {
            first
        };
        let second1: u16 = if second == 0 {
            1
        } else {
            second
        };
        if action == 109 {
            self.sgr(params);
        } else if action == 65 {
            self.cursor_up(first1);
        } else if action == 66 {
            self.cursor_down(first1);
        } else if action == 67 {
            self.cursor_right(first1);
        } else if action == 68 {
            self.cursor_left(first1);
        } else if action == 69 {
            let target = self.row + first1 as usize;
            self.move_cursor_absolute(target, 0);
        } else if action == 70 {
            let nn = first1 as usize;
            let target = if nn >= self.row {
                0
            } else {
                self.row - nn
            };
            self.move_cursor_absolute(target, 0);
        } else if action == 71 {
            let r = self.row;
            self.move_cursor_absolute(r, (first1 - 1) as usize);
        } else if action == 72 || action == 102 {
            self.move_cursor_absolute((first1 - 1) as usize, (second1 - 1) as usize);
        } else if action == 74 {
            self.erase_in_display(first);
        } else if action == 75 {
            self.erase_in_line(first);
        } else if action == 104 {
            if inters.len() >= 1 && inters[0] == 63 {
                self.cursor_wanted = true;
            }
        } else if action == 108 {
            if inters.len() >= 1 && inters[0] == 63 {
                self.cursor_wanted = false;
            }
        }
    }
}

/// Lifting or restoring the cursor overlay keeps the console well formed and
/// does not change the size of the grid.
pub proof fn lemma_overlay_wf(v: ConsoleView)
    requires
        v.wf(),
    ensures
        v.cursor_disable_spec().wf(),
        v.cursor_disable_spec().glyphs.len() == v.glyphs.len(),
        v.cursor_disable_spec().attrs.len() == v.attrs.len(),
        v.cursor_depth >= 1 ==> v.cursor_enable_spec().wf(),
        v.cursor_enable_spec().glyphs.len() == v.glyphs.len(),
        v.cursor_enable_spec().attrs.len() == v.attrs.len(),
{
    if 0 <= v.row < v.height && 0 <= v.col < v.width {
        lemma_cell_in_range(v.width, v.height, v.row, v.col);
    }
}

/// Appending one code to an SGR sequence applies it after the rest.
pub proof fn lemma_sgr_fold_snoc(v: ConsoleView, ps: Seq<u16>, i: int)
    requires
        0 <= i < ps.len(),
    ensures
        v.sgr_fold(ps.take(i + 1)) == v.sgr_fold(ps.take(i)).sgr_one(ps[i]),
    decreases i,
{
    if i == 0 {
        assert(ps.take(0) =~= Seq::<u16>::empty());
        assert(ps.take(1).drop_first() =~= Seq::<u16>::empty());
        assert(ps.take(1)[0] == ps[0]);
        assert(v.sgr_fold(ps.take(1)) == v.sgr_one(ps[0]).sgr_fold(ps.take(1).drop_first()));
        assert(v.sgr_fold(ps.take(0)) == v);
    } else {
        let tail = ps.drop_first();
        let w1 = v.sgr_one(ps[0]);
        assert(ps.take(i + 1).drop_first() =~= tail.take(i));
        assert(ps.take(i).drop_first() =~= tail.take(i - 1));
        assert(ps.take(i + 1)[0] == ps[0]);
        assert(ps.take(i)[0] == ps[0]);
        assert(v.sgr_fold(ps.take(i + 1)) == w1.sgr_fold(tail.take(i)));
        assert(v.sgr_fold(ps.take(i)) == w1.sgr_fold(tail.take(i - 1)));
        lemma_sgr_fold_snoc(w1, tail, i - 1);
        assert(tail[i - 1] == ps[i]);
    }
}

} // verus!
