//! The laws of the console and program area that relate several operations,
//! stated over the spec-level models and proved once and for all.

use vstd::prelude::*;
use crate::ansi::advance_spec;
use crate::ansi::AnsiState;
use crate::ansi::ParserView;
use crate::ansi::process_seq;
use crate::attr::Attr;
use crate::console::lemma_cell_in_range;
use crate::console::BLANK_GLYPH;
use crate::console::ConsoleView;
use crate::glyph::glyph_from_code_spec;

verus! {

/// Feeding two byte strings one after the other is the same as feeding their
/// concatenation.
pub proof fn lemma_process_seq_append(c: ConsoleView, p: ParserView, a: Seq<u8>, b: Seq<u8>)
    ensures
        process_seq(c, p, a + b) == ({
            let m = process_seq(c, p, a);
            process_seq(m.0, m.1, b)
        }),
    decreases a.len(),
{
    if a.len() == 0 {
        assert(a + b =~= b);
    } else {
        let step = advance_spec(c, p, a[0]);
        assert((a + b).len() > 0);
        assert((a + b)[0] == a[0]);
        assert((a + b).drop_first() =~= a.drop_first() + b);
        lemma_process_seq_append(step.0, step.1, a.drop_first(), b);
    }
}

/// What one scroll does, cell by cell: every row moves up one, and the bottom
/// row becomes blanks drawn with the attribute in force.
pub proof fn lemma_scroll_page_cells(s: ConsoleView)
    requires
        s.wf(),
    ensures
        forall|r: int, c: int|
            0 <= r < s.height - 1 && 0 <= c < s.width ==> s.scroll_page_spec().glyphs[
                #[trigger] s.cell(r, c)
            ] == s.glyphs[s.cell(r + 1, c)],
        forall|r: int, c: int|
            0 <= r < s.height - 1 && 0 <= c < s.width ==> s.scroll_page_spec().attrs[
                #[trigger] s.cell(r, c)
            ] == s.attrs[s.cell(r + 1, c)],
        forall|c: int|
            0 <= c < s.width ==> s.scroll_page_spec().glyphs[#[trigger] s.cell(s.height - 1, c)]
                == BLANK_GLYPH,
        forall|c: int|
            0 <= c < s.width ==> s.scroll_page_spec().attrs[#[trigger] s.cell(s.height - 1, c)]
                == s.effective_attr_byte(),
{
    let w = s.width;
    let h = s.height;
    assert forall|r: int, c: int| 0 <= r < h - 1 && 0 <= c < w implies s.scroll_page_spec().glyphs[
        #[trigger] s.cell(r, c)
    ] == s.glyphs[s.cell(r + 1, c)] && s.scroll_page_spec().attrs[s.cell(r, c)] == s.attrs[s.cell(
        r + 1,
        c,
    )] by {
        lemma_cell_in_range(w, h, r, c);
        assert(r * w + c < w * (h - 1) && r * w + c + w == (r + 1) * w + c) by (nonlinear_arith)
            requires 0 <= r < h - 1 && 0 <= c < w && 1 <= w;
    }
    assert forall|c: int| 0 <= c < w implies s.scroll_page_spec().glyphs[
        #[trigger] s.cell(h - 1, c)
    ] == BLANK_GLYPH && s.scroll_page_spec().attrs[s.cell(h - 1, c)]
        == s.effective_attr_byte() by {
        lemma_cell_in_range(w, h, h - 1, c);
        assert((h - 1) * w + c >= w * (h - 1)) by (nonlinear_arith)
            requires 0 <= c && 1 <= w;
    }
}

/// One cell placed, seen cell by cell: the written cell holds the glyph and
/// the attribute in force, and nothing else moves.
pub proof fn lemma_with_cell_cells(s: ConsoleView, row: int, col: int, g: u8)
    requires
        s.wf(),
        0 <= row < s.height,
        0 <= col < s.width,
    ensures
        s.with_cell(row, col, g).glyphs.len() == s.glyphs.len(),
        s.with_cell(row, col, g).attrs.len() == s.attrs.len(),
        s.with_cell(row, col, g).glyphs[s.cell(row, col)] == g,
        s.with_cell(row, col, g).attrs[s.cell(row, col)] == s.effective_attr_byte(),
        forall|r: int, c: int|
            0 <= r < s.height && 0 <= c < s.width && !(r == row && c == col) ==> s.with_cell(
                row,
                col,
                g,
            ).glyphs[#[trigger] s.cell(r, c)] == s.glyphs[s.cell(r, c)],
        forall|r: int, c: int|
            0 <= r < s.height && 0 <= c < s.width && !(r == row && c == col) ==> s.with_cell(
                row,
                col,
                g,
            ).attrs[#[trigger] s.cell(r, c)] == s.attrs[s.cell(r, c)],
{
    lemma_cell_in_range(s.width, s.height, row, col);
    assert forall|r: int, c: int|
        0 <= r < s.height && 0 <= c < s.width && !(r == row && c == col) implies s.with_cell(
        row,
        col,
        g,
    ).glyphs[#[trigger] s.cell(r, c)] == s.glyphs[s.cell(r, c)] && s.with_cell(row, col, g).attrs[
        s.cell(r, c)
    ] == s.attrs[s.cell(r, c)] by {
        lemma_cell_in_range(s.width, s.height, r, c);
        assert(r * s.width + c != row * s.width + col) by (nonlinear_arith)
            requires
                1 <= s.width,
                0 <= r && 0 <= c < s.width && 0 <= row && 0 <= col < s.width,
                !(r == row && c == col),
        ;
    }
}

/// Clearing the console twice in a row leaves exactly the state that clearing
/// it once leaves: the whole public clear operation, overlay handling
/// included, is idempotent.
pub proof fn lemma_clear_idempotent(v: ConsoleView)
    requires
        v.wf(),
        v.cursor_depth == 0,
    ensures
        ({
            let once = v.cursor_disable_spec().clear_spec().cursor_enable_spec();
            let twice = once.cursor_disable_spec().clear_spec().cursor_enable_spec();
            twice == once
        }),
{
    let d1 = v.cursor_disable_spec();
    let a = d1.clear_spec();
    let once = a.cursor_enable_spec();
    let d2 = once.cursor_disable_spec();
    let b = d2.clear_spec();
    let twice = b.cursor_enable_spec();
    crate::console::lemma_overlay_wf(v);
    assert(a.wf());
    crate::console::lemma_overlay_wf(a);
    assert(once.wf());
    crate::console::lemma_overlay_wf(once);
    assert forall|i: int| 0 <= i < a.glyphs.len() implies a.glyphs[i]
        == crate::console::BLANK_GLYPH by {
        assert(d1.erase_region(|r: int, c: int| true).glyphs[i] == crate::console::BLANK_GLYPH);
    }
    assert forall|i: int| 0 <= i < b.glyphs.len() implies b.glyphs[i]
        == crate::console::BLANK_GLYPH by {
        assert(d2.erase_region(|r: int, c: int| true).glyphs[i] == crate::console::BLANK_GLYPH);
    }
    assert forall|i: int| 0 <= i < a.attrs.len() implies a.attrs[i]
        == d1.effective_attr_byte() by {
        assert(d1.erase_region(|r: int, c: int| true).attrs[i] == d1.effective_attr_byte());
    }
    assert forall|i: int| 0 <= i < b.attrs.len() implies b.attrs[i]
        == d2.effective_attr_byte() by {
        assert(d2.erase_region(|r: int, c: int| true).attrs[i] == d2.effective_attr_byte());
    }
    assert(d2.effective_attr_byte() == d1.effective_attr_byte());
    assert(d1.glyphs.len() == v.glyphs.len());
    assert(d2.glyphs.len() == once.glyphs.len());
    assert(once.glyphs.len() == a.glyphs.len());
    assert(a.glyphs.len() == d1.glyphs.len());
    assert(b.glyphs.len() == d2.glyphs.len());
    assert(a.glyphs.len() == v.glyphs.len());
    assert(b.glyphs.len() == v.glyphs.len());
    assert(a.attrs.len() == v.attrs.len());
    assert(b.attrs.len() == v.attrs.len());
    assert(a.glyphs =~= b.glyphs);
    assert(a.attrs =~= b.attrs);
    assert(a =~= b);
    assert(twice == once);
}

/// After clearing, every cell is a blank drawn with the attribute in force
/// and the cursor is at the origin; with the cursor overlay off, the overlay
/// pass around the clear touches nothing.
pub proof fn lemma_clear_blanks(v: ConsoleView)
    requires
        v.wf(),
        v.cursor_depth == 0,
        !v.cursor_wanted,
        v.cursor_holder is None,
    ensures
        ({
            let once = v.cursor_disable_spec().clear_spec().cursor_enable_spec();
            &&& once.row == 0
            &&& once.col == 0
            &&& forall|i: int|
                0 <= i < once.glyphs.len() ==> once.glyphs[i] == crate::console::BLANK_GLYPH
            &&& forall|i: int|
                0 <= i < once.attrs.len() ==> once.attrs[i] == v.effective_attr_byte()
        }),
{
    let d1 = v.cursor_disable_spec();
    let a = d1.clear_spec();
    let once = a.cursor_enable_spec();
    crate::console::lemma_overlay_wf(v);
    assert(once == (ConsoleView { cursor_depth: 0, ..a }));
    assert forall|i: int| 0 <= i < a.glyphs.len() implies a.glyphs[i]
        == crate::console::BLANK_GLYPH by {
        assert(d1.erase_region(|r: int, c: int| true).glyphs[i] == crate::console::BLANK_GLYPH);
    }
    assert forall|i: int| 0 <= i < a.attrs.len() implies a.attrs[i] == v.effective_attr_byte() by {
        assert(d1.erase_region(|r: int, c: int| true).attrs[i] == d1.effective_attr_byte());
    }
}

/// A cursor-motion sequence with no parameter behaves exactly as with
/// parameter one, and a literal zero is also treated as one: here for
/// cursor-up, fed through the whole byte parser as `ESC [ A`, `ESC [ 0 A`
/// and `ESC [ 1 A`.
pub proof fn lemma_cursor_up_parameter_defaulting(v: ConsoleView, p: ParserView)
    requires
        v.wf(),
        p.wf(),
        p.state == AnsiState::Ground,
    ensures
        process_seq(v, p, seq![0x1Bu8, 0x5Bu8, 0x41u8]).0 == process_seq(
            v,
            p,
            seq![0x1Bu8, 0x5Bu8, 0x31u8, 0x41u8],
        ).0,
        process_seq(v, p, seq![0x1Bu8, 0x5Bu8, 0x30u8, 0x41u8]).0 == process_seq(
            v,
            p,
            seq![0x1Bu8, 0x5Bu8, 0x31u8, 0x41u8],
        ).0,
        process_seq(v, p, seq![0x1Bu8, 0x5Bu8, 0x41u8]).0 == v.move_rel_spec(-1, 0),
{
    reveal_with_fuel(process_seq, 8);
    let bytes0 = seq![0x1Bu8, 0x5Bu8, 0x41u8];
    let bytes1 = seq![0x1Bu8, 0x5Bu8, 0x31u8, 0x41u8];
    let bytes2 = seq![0x1Bu8, 0x5Bu8, 0x30u8, 0x41u8];
    assert(bytes0.drop_first() =~= seq![0x5Bu8, 0x41u8]);
    assert(seq![0x5Bu8, 0x41u8].drop_first() =~= seq![0x41u8]);
    assert(seq![0x41u8].drop_first() =~= Seq::<u8>::empty());
    assert(bytes1.drop_first() =~= seq![0x5Bu8, 0x31u8, 0x41u8]);
    assert(seq![0x5Bu8, 0x31u8, 0x41u8].drop_first() =~= seq![0x31u8, 0x41u8]);
    assert(seq![0x31u8, 0x41u8].drop_first() =~= seq![0x41u8]);
    assert(bytes2.drop_first() =~= seq![0x5Bu8, 0x30u8, 0x41u8]);
    assert(seq![0x5Bu8, 0x30u8, 0x41u8].drop_first() =~= seq![0x30u8, 0x41u8]);
    assert(seq![0x30u8, 0x41u8].drop_first() =~= seq![0x41u8]);
    let pe = p.to_reset(AnsiState::Escape);
    let pc = pe.to_reset(AnsiState::CsiEntry);
    assert(pc.param_finish().params =~= seq![0u16]);
    assert(pc.param_digit(0x31).param_finish().params =~= seq![1u16]);
    assert(pc.param_digit(0x30).param_finish().params =~= seq![0u16]);
}

/// The erase operations do not treat a zero parameter as one: `ESC [ 0 J`
/// (equivalently the parameterless `ESC [ J`) selects the cursor-to-end
/// erase, while `ESC [ 1 J` selects start-through-cursor, and likewise for
/// erase-in-line.
pub proof fn lemma_erase_parameter_zero_is_meaningful(v: ConsoleView, p: ParserView)
    requires
        v.wf(),
        p.wf(),
        p.state == AnsiState::Ground,
    ensures
        process_seq(v, p, seq![0x1Bu8, 0x5Bu8, 0x30u8, 0x4Au8]).0 == v.erase_in_display_spec(0),
        process_seq(v, p, seq![0x1Bu8, 0x5Bu8, 0x4Au8]).0 == v.erase_in_display_spec(0),
        process_seq(v, p, seq![0x1Bu8, 0x5Bu8, 0x31u8, 0x4Au8]).0 == v.erase_in_display_spec(1),
        process_seq(v, p, seq![0x1Bu8, 0x5Bu8, 0x30u8, 0x4Bu8]).0 == v.erase_in_line_spec(0),
        process_seq(v, p, seq![0x1Bu8, 0x5Bu8, 0x4Bu8]).0 == v.erase_in_line_spec(0),
        process_seq(v, p, seq![0x1Bu8, 0x5Bu8, 0x31u8, 0x4Bu8]).0 == v.erase_in_line_spec(1),
{
    reveal_with_fuel(process_seq, 8);
    let pe = p.to_reset(AnsiState::Escape);
    let pc = pe.to_reset(AnsiState::CsiEntry);
    assert(seq![0x1Bu8, 0x5Bu8, 0x30u8, 0x4Au8].drop_first() =~= seq![0x5Bu8, 0x30u8, 0x4Au8]);
    assert(seq![0x5Bu8, 0x30u8, 0x4Au8].drop_first() =~= seq![0x30u8, 0x4Au8]);
    assert(seq![0x30u8, 0x4Au8].drop_first() =~= seq![0x4Au8]);
    assert(seq![0x4Au8].drop_first() =~= Seq::<u8>::empty());
    assert(seq![0x1Bu8, 0x5Bu8, 0x4Au8].drop_first() =~= seq![0x5Bu8, 0x4Au8]);
    assert(seq![0x5Bu8, 0x4Au8].drop_first() =~= seq![0x4Au8]);
    assert(seq![0x1Bu8, 0x5Bu8, 0x31u8, 0x4Au8].drop_first() =~= seq![0x5Bu8, 0x31u8, 0x4Au8]);
    assert(seq![0x5Bu8, 0x31u8, 0x4Au8].drop_first() =~= seq![0x31u8, 0x4Au8]);
    assert(seq![0x31u8, 0x4Au8].drop_first() =~= seq![0x4Au8]);
    assert(seq![0x1Bu8, 0x5Bu8, 0x30u8, 0x4Bu8].drop_first() =~= seq![0x5Bu8, 0x30u8, 0x4Bu8]);
    assert(seq![0x5Bu8, 0x30u8, 0x4Bu8].drop_first() =~= seq![0x30u8, 0x4Bu8]);
    assert(seq![0x30u8, 0x4Bu8].drop_first() =~= seq![0x4Bu8]);
    assert(seq![0x4Bu8].drop_first() =~= Seq::<u8>::empty());
    assert(seq![0x1Bu8, 0x5Bu8, 0x4Bu8].drop_first() =~= seq![0x5Bu8, 0x4Bu8]);
    assert(seq![0x5Bu8, 0x4Bu8].drop_first() =~= seq![0x4Bu8]);
    assert(seq![0x1Bu8, 0x5Bu8, 0x31u8, 0x4Bu8].drop_first() =~= seq![0x5Bu8, 0x31u8, 0x4Bu8]);
    assert(seq![0x5Bu8, 0x31u8, 0x4Bu8].drop_first() =~= seq![0x31u8, 0x4Bu8]);
    assert(seq![0x31u8, 0x4Bu8].drop_first() =~= seq![0x4Bu8]);
    assert(pc.param_finish().params =~= seq![0u16]);
    assert(pc.param_digit(0x30).param_finish().params =~= seq![0u16]);
    assert(pc.param_digit(0x31).param_finish().params =~= seq![1u16]);
}

/// A bright-and-coloured rendition followed by a reset leaves the attribute
/// state exactly at its defaults, whatever it was before.
pub proof fn lemma_sgr_reset_round_trip(v: ConsoleView)
    requires
        v.wf(),
    ensures
        ({
            let v1 = v.csi_step(seq![1u16, 33u16, 44u16], Seq::empty(), 109);
            let v2 = v1.csi_step(seq![0u16], Seq::empty(), 109);
            &&& v2.attr == Attr::default_attr_spec()
            &&& !v2.bright
            &&& !v2.reverse
            &&& v2.glyphs == v.glyphs
            &&& v2.attrs == v.attrs
            &&& v2.row == v.row
            &&& v2.col == v.col
        }),
{
    reveal_with_fuel(ConsoleView::sgr_fold, 6);
    let params1 = seq![1u16, 33u16, 44u16];
    assert(params1.drop_first() =~= seq![33u16, 44u16]);
    assert(seq![33u16, 44u16].drop_first() =~= seq![44u16]);
    assert(seq![44u16].drop_first() =~= Seq::<u16>::empty());
    let params0 = seq![0u16];
    assert(params0.drop_first() =~= Seq::<u16>::empty());
}

/// With bright set, each of the eight base foreground codes yields the
/// brighter sibling colour, not the plain colour.
pub proof fn lemma_sgr_bright_siblings(v: ConsoleView)
    requires
        v.wf(),
    ensures
        v.csi_step(seq![1u16, 30u16], Seq::empty(), 109).attr.fg == crate::attr::FG_DARK_GRAY,
        v.csi_step(seq![1u16, 31u16], Seq::empty(), 109).attr.fg == crate::attr::FG_LIGHT_RED,
        v.csi_step(seq![1u16, 32u16], Seq::empty(), 109).attr.fg == crate::attr::FG_LIGHT_GREEN,
        v.csi_step(seq![1u16, 33u16], Seq::empty(), 109).attr.fg == crate::attr::FG_YELLOW,
        v.csi_step(seq![1u16, 34u16], Seq::empty(), 109).attr.fg == crate::attr::FG_LIGHT_BLUE,
        v.csi_step(seq![1u16, 35u16], Seq::empty(), 109).attr.fg == crate::attr::FG_PINK,
        v.csi_step(seq![1u16, 36u16], Seq::empty(), 109).attr.fg == crate::attr::FG_LIGHT_CYAN,
        v.csi_step(seq![1u16, 37u16], Seq::empty(), 109).attr.fg == crate::attr::FG_WHITE,
{
    reveal_with_fuel(ConsoleView::sgr_fold, 6);
    let inters = Seq::<u8>::empty();
    assert(seq![1u16, 30u16].drop_first() =~= seq![30u16]);
    assert(seq![30u16].drop_first() =~= Seq::<u16>::empty());
    assert(seq![1u16, 31u16].drop_first() =~= seq![31u16]);
    assert(seq![31u16].drop_first() =~= Seq::<u16>::empty());
    assert(seq![1u16, 32u16].drop_first() =~= seq![32u16]);
    assert(seq![32u16].drop_first() =~= Seq::<u16>::empty());
    assert(seq![1u16, 33u16].drop_first() =~= seq![33u16]);
    assert(seq![33u16].drop_first() =~= Seq::<u16>::empty());
    assert(seq![1u16, 34u16].drop_first() =~= seq![34u16]);
    assert(seq![34u16].drop_first() =~= Seq::<u16>::empty());
    assert(seq![1u16, 35u16].drop_first() =~= seq![35u16]);
    assert(seq![35u16].drop_first() =~= Seq::<u16>::empty());
    assert(seq![1u16, 36u16].drop_first() =~= seq![36u16]);
    assert(seq![36u16].drop_first() =~= Seq::<u16>::empty());
    assert(seq![1u16, 37u16].drop_first() =~= seq![37u16]);
    assert(seq![37u16].drop_first() =~= Seq::<u16>::empty());
}

/// Reverse video is applied at write time only: printing a character never
/// changes the stored attribute state, and after a reset the stored colours
/// written beside new glyphs are the pre-reverse ones again.
pub proof fn lemma_reverse_video_nondestructive(v: ConsoleView, cp1: u32, cp2: u32)
    requires
        v.wf(),
        v.attr == Attr::default_attr_spec(),
        !v.bright,
        !v.reverse,
    ensures
        ({
            let v1 = v.csi_step(seq![7u16], Seq::empty(), 109);  // reverse on
            let v2 = v1.print_code_spec(cp1);  // drawn with swapped colours
            let v3 = v2.csi_step(seq![0u16], Seq::empty(), 109);  // reset
            let v4 = v3.print_code_spec(cp2);  // drawn with the original colours
            &&& v1.attr == v.attr  // engaging reverse did not swap the stored colours
            &&& v2.attr == v.attr  // writing under reverse did not either
            &&& v2.effective_attr_byte() == v.attr.swapped_spec().byte_spec()
            &&& v3.attr == v.attr
            &&& !v3.reverse
            &&& v3.effective_attr_byte() == v.attr.byte_spec()
            &&& v4.attr == v.attr
        }),
{
    reveal_with_fuel(ConsoleView::sgr_fold, 6);
    let params7 = seq![7u16];
    assert(params7.drop_first() =~= Seq::<u16>::empty());
    let params0 = seq![0u16];
    assert(params0.drop_first() =~= Seq::<u16>::empty());
}

/// A run of printable characters, none of which overflows the current row:
/// each lands in its own column of the cursor row with the attribute in
/// force, the cursor ends just past the run (possibly one past the last
/// column), and nothing else on screen or in the state changes.
pub proof fn lemma_print_run(v: ConsoleView, p: ParserView, chars: Seq<u8>)
    requires
        v.wf(),
        p.state == AnsiState::Ground,
        v.row < v.height,
        v.col + chars.len() <= v.width,
        forall|i: int| 0 <= i < chars.len() ==> 0x20 <= #[trigger] chars[i] <= 0x7E,
    ensures
        ({
            let r = process_seq(v, p, chars);
            &&& r.1 == p
            &&& r.0 == (ConsoleView { glyphs: r.0.glyphs, attrs: r.0.attrs, col: v.col
                + chars.len(), ..v })
            &&& r.0.glyphs.len() == v.glyphs.len()
            &&& r.0.attrs.len() == v.attrs.len()
            &&& forall|j: int|
                0 <= j < chars.len() ==> r.0.glyphs[#[trigger] v.cell(v.row, v.col + j)]
                    == glyph_from_code_spec(chars[j] as u32)
            &&& forall|j: int|
                0 <= j < chars.len() ==> r.0.attrs[#[trigger] v.cell(v.row, v.col + j)]
                    == v.effective_attr_byte()
            &&& forall|r2: int, c2: int|
                0 <= r2 < v.height && 0 <= c2 < v.width && !(r2 == v.row && v.col <= c2 < v.col
                    + chars.len()) ==> r.0.glyphs[#[trigger] v.cell(r2, c2)] == v.glyphs[v.cell(
                    r2,
                    c2,
                )]
            &&& forall|r2: int, c2: int|
                0 <= r2 < v.height && 0 <= c2 < v.width && !(r2 == v.row && v.col <= c2 < v.col
                    + chars.len()) ==> r.0.attrs[#[trigger] v.cell(r2, c2)] == v.attrs[v.cell(
                    r2,
                    c2,
                )]
        }),
    decreases chars.len(),
{
    if chars.len() == 0 {
        assert(process_seq(v, p, chars).0 =~= v);
    } else {
        let b = chars[0];
        let v1 = v.print_code_spec(b as u32);
        assert(v.scroll_fix() == v);
        lemma_with_cell_cells(v, v.row, v.col, glyph_from_code_spec(b as u32));
        assert(advance_spec(v, p, b) == (v1, p));
        lemma_print_run(v1, p, chars.drop_first());
        assert(process_seq(v, p, chars) == process_seq(v1, p, chars.drop_first()));
        let r = process_seq(v1, p, chars.drop_first());
        assert forall|j: int| 0 <= j < chars.len() implies r.0.glyphs[
            #[trigger] v.cell(v.row, v.col + j)
        ] == glyph_from_code_spec(chars[j] as u32) && r.0.attrs[v.cell(v.row, v.col + j)]
            == v.effective_attr_byte() by {
            if j == 0 {
                assert(v.cell(v.row, v.col + 0) == v1.cell(v.row, v1.col - 1));
                assert(!(v.row == v.row && v1.col <= v.col + 0 < v1.col + chars.drop_first().len()));
                assert(r.0.glyphs[v.cell(v.row, v.col)] == v1.glyphs[v.cell(v.row, v.col)]);
            } else {
                assert(v.cell(v.row, v.col + j) == v1.cell(v.row, v1.col + (j - 1)));
                assert(chars.drop_first()[j - 1] == chars[j]);
            }
        }
        assert forall|r2: int, c2: int|
            0 <= r2 < v.height && 0 <= c2 < v.width && !(r2 == v.row && v.col <= c2 < v.col
                + chars.len()) implies r.0.glyphs[#[trigger] v.cell(r2, c2)] == v.glyphs[v.cell(
            r2,
            c2,
        )] && r.0.attrs[v.cell(r2, c2)] == v.attrs[v.cell(r2, c2)] by {
            assert(r.0.glyphs[v1.cell(r2, c2)] == v1.glyphs[v1.cell(r2, c2)]);
            assert(v1.glyphs[v.cell(r2, c2)] == v.glyphs[v.cell(r2, c2)]);
        }
    }
}

/// The column wrap is lazy: writing exactly one full row of characters leaves
/// the cursor logically one past the last column without having scrolled, and
/// only the next character first wraps (and scrolls if the cursor row was the
/// bottom one) and then lands at the start of the next line.
pub proof fn lemma_lazy_column_wrap(v: ConsoleView, p: ParserView, chars: Seq<u8>, extra: u8)
    requires
        v.wf(),
        p.state == AnsiState::Ground,
        v.row < v.height,
        v.col == 0,
        chars.len() == v.width,
        forall|i: int| 0 <= i < chars.len() ==> 0x20 <= #[trigger] chars[i] <= 0x7E,
        0x20 <= extra <= 0x7E,
    ensures
        ({
            let r = process_seq(v, p, chars);
            let r2 = advance_spec(r.0, r.1, extra);
            &&& r.0.col == v.width  // one past the last column
            &&& r.0.row == v.row  // and nothing has scrolled
            &&& forall|j: int|
                0 <= j < v.width ==> r.0.glyphs[#[trigger] v.cell(v.row, j)]
                    == glyph_from_code_spec(chars[j] as u32)
            &&& forall|r2i: int, c2: int|
                0 <= r2i < v.height && 0 <= c2 < v.width && r2i != v.row ==> r.0.glyphs[
                    #[trigger] v.cell(r2i, c2)
                ] == v.glyphs[v.cell(r2i, c2)]
            &&& (v.row + 1 < v.height ==> {
                // the next character wraps to the next row and lands there
                &&& r2.0.row == v.row + 1
                &&& r2.0.col == 1
                &&& r2.0.glyphs[v.cell(v.row + 1, 0)] == glyph_from_code_spec(extra as u32)
            })
            &&& (v.row + 1 == v.height ==> {
                // the wrap goes off the bottom, so the screen scrolls first
                &&& r2.0.row == v.height - 1
                &&& r2.0.col == 1
                &&& r2.0.glyphs[v.cell(v.height - 1, 0)] == glyph_from_code_spec(extra as u32)
            })
        }),
{
    lemma_print_run(v, p, chars);
    let r = process_seq(v, p, chars);
    assert forall|j: int| 0 <= j < v.width implies r.0.glyphs[#[trigger] v.cell(v.row, j)]
        == glyph_from_code_spec(chars[j] as u32) by {
        assert(r.0.glyphs[v.cell(v.row, v.col + j)] == glyph_from_code_spec(chars[j] as u32));
        assert(v.cell(v.row, v.col + j) == v.cell(v.row, j));
    }
    let wrapped = ConsoleView { col: 0, row: r.0.row + 1, ..r.0 };
    if v.row + 1 < v.height {
        assert(r.0.scroll_fix() == wrapped);
        lemma_with_cell_cells(wrapped, wrapped.row, 0, glyph_from_code_spec(extra as u32));
    } else {
        let scrolled = ConsoleView { row: v.height - 1, ..wrapped }.scroll_page_spec();
        assert(r.0.scroll_fix() == scrolled);
        crate::console::lemma_overlay_wf(r.0);
        assert(scrolled.wf()) by {
            assert(scrolled.glyphs.len() == r.0.glyphs.len());
            assert(scrolled.attrs.len() == r.0.attrs.len());
        }
        lemma_with_cell_cells(scrolled, v.height - 1, 0, glyph_from_code_spec(extra as u32));
    }
}

/// The byte stream that writes each character as its own line.
pub open spec fn lines_bytes(chars: Seq<u8>) -> Seq<u8>
    decreases chars.len(),
{
    if chars.len() == 0 {
        Seq::empty()
    } else {
        seq![chars[0], 10u8] + lines_bytes(chars.drop_first())
    }
}

/// Writing lines that all fit on screen: each character lands in column zero
/// of its own row, the cursor ends at column zero of the row after the last
/// line (possibly one past the bottom), and nothing else changes.
#[verifier::rlimit(80)]
pub proof fn lemma_lines_no_scroll(v: ConsoleView, p: ParserView, chars: Seq<u8>)
    requires
        v.wf(),
        p.state == AnsiState::Ground,
        2 <= v.width,
        v.col == 0,
        v.row + chars.len() <= v.height,
        forall|i: int| 0 <= i < chars.len() ==> 0x20 <= #[trigger] chars[i] <= 0x7E,
    ensures
        ({
            let r = process_seq(v, p, lines_bytes(chars));
            &&& r.1 == p
            &&& r.0 == (ConsoleView { glyphs: r.0.glyphs, attrs: r.0.attrs, row: v.row
                + chars.len(), ..v })
            &&& r.0.glyphs.len() == v.glyphs.len()
            &&& r.0.attrs.len() == v.attrs.len()
            &&& forall|j: int|
                0 <= j < chars.len() ==> r.0.glyphs[#[trigger] v.cell(v.row + j, 0)]
                    == glyph_from_code_spec(chars[j] as u32)
            &&& forall|j: int|
                0 <= j < chars.len() ==> r.0.attrs[#[trigger] v.cell(v.row + j, 0)]
                    == v.effective_attr_byte()
            &&& forall|r2: int, c2: int|
                0 <= r2 < v.height && 0 <= c2 < v.width && !(v.row <= r2 < v.row + chars.len()
                    && c2 == 0) ==> r.0.glyphs[#[trigger] v.cell(r2, c2)] == v.glyphs[v.cell(
                    r2,
                    c2,
                )]
            &&& forall|r2: int, c2: int|
                0 <= r2 < v.height && 0 <= c2 < v.width && !(v.row <= r2 < v.row + chars.len()
                    && c2 == 0) ==> r.0.attrs[#[trigger] v.cell(r2, c2)] == v.attrs[v.cell(
                    r2,
                    c2,
                )]
        }),
    decreases chars.len(),
{
    if chars.len() == 0 {
        assert(process_seq(v, p, lines_bytes(chars)).0 =~= v);
    } else {
        reveal_with_fuel(process_seq, 6);
        reveal_with_fuel(lines_bytes, 4);
        let b = chars[0];
        let g = glyph_from_code_spec(b as u32);
        let line = seq![b, 10u8];
        lemma_process_seq_append(v, p, line, lines_bytes(chars.drop_first()));
        assert(line.drop_first() =~= seq![10u8]);
        assert(seq![10u8].drop_first() =~= Seq::<u8>::empty());
        assert(v.scroll_fix() == v);
        let vg = v.print_code_spec(b as u32);
        lemma_with_cell_cells(v, v.row, 0, g);
        assert(vg.scroll_fix() == vg);
        let v1 = vg.ctrl_spec(10);
        assert(v1 == (ConsoleView { glyphs: vg.glyphs, attrs: vg.attrs, row: v.row + 1, col: 0,
            ..v }));
        assert(process_seq(v, p, line) == (v1, p));
        lemma_lines_no_scroll(v1, p, chars.drop_first());
        let r = process_seq(v1, p, lines_bytes(chars.drop_first()));
        assert(process_seq(v, p, lines_bytes(chars)) == r);
        assert forall|j: int| 0 <= j < chars.len() implies r.0.glyphs[
            #[trigger] v.cell(v.row + j, 0)
        ] == glyph_from_code_spec(chars[j] as u32) && r.0.attrs[v.cell(v.row + j, 0)]
            == v.effective_attr_byte() by {
            if j == 0 {
                assert(!(v1.row <= v.row < v1.row + chars.drop_first().len() && 0 == 0));
                assert(r.0.glyphs[v1.cell(v.row, 0)] == v1.glyphs[v1.cell(v.row, 0)]);
                assert(r.0.attrs[v1.cell(v.row, 0)] == v1.attrs[v1.cell(v.row, 0)]);
                assert(v1.glyphs[v.cell(v.row, 0)] == g);
            } else {
                assert(v.cell(v.row + j, 0) == v1.cell(v1.row + (j - 1), 0));
                assert(chars.drop_first()[j - 1] == chars[j]);
                assert(v1.effective_attr_byte() == v.effective_attr_byte());
            }
        }
        assert forall|r2: int, c2: int|
            0 <= r2 < v.height && 0 <= c2 < v.width && !(v.row <= r2 < v.row + chars.len() && c2
                == 0) implies r.0.glyphs[#[trigger] v.cell(r2, c2)] == v.glyphs[v.cell(r2, c2)]
            && r.0.attrs[v.cell(r2, c2)] == v.attrs[v.cell(r2, c2)] by {
            assert(r.0.glyphs[v1.cell(r2, c2)] == v1.glyphs[v1.cell(r2, c2)]);
            assert(r.0.attrs[v1.cell(r2, c2)] == v1.attrs[v1.cell(r2, c2)]);
            assert(v1.glyphs[v.cell(r2, c2)] == v.glyphs[v.cell(r2, c2)]);
            assert(v1.attrs[v.cell(r2, c2)] == v.attrs[v.cell(r2, c2)]);
        }
    }
}

/// Writing one more single-character line than the screen has rows, starting
/// from a blank screen, scrolls exactly once: the first line's character is
/// no longer anywhere on screen, the remaining lines sit one row higher than
/// they were written, every other cell is still blank, and the cursor rests
/// at column zero, logically one row past the bottom.
#[verifier::rlimit(80)]
pub proof fn lemma_scroll_shifts_lines_once(v: ConsoleView, p: ParserView, chars: Seq<u8>)
    requires
        v.wf(),
        p.state == AnsiState::Ground,
        2 <= v.width,
        v.row == 0,
        v.col == 0,
        chars.len() == v.height + 1,
        forall|i: int| 0 <= i < chars.len() ==> 0x20 <= #[trigger] chars[i] <= 0x7E,
        chars[0] != BLANK_GLYPH,
        forall|i: int| 1 <= i < chars.len() ==> #[trigger] chars[i] != chars[0],
        forall|r2: int, c2: int|
            0 <= r2 < v.height && 0 <= c2 < v.width ==> v.glyphs[#[trigger] v.cell(r2, c2)]
                == BLANK_GLYPH,
    ensures
        ({
            let r = process_seq(v, p, lines_bytes(chars));
            &&& r.0.row == v.height
            &&& r.0.col == 0
            &&& forall|j: int|
                0 <= j < v.height ==> r.0.glyphs[#[trigger] v.cell(j, 0)] == glyph_from_code_spec(
                    chars[j + 1] as u32,
                )
            &&& forall|r2: int, c2: int|
                0 <= r2 < v.height && 1 <= c2 < v.width ==> r.0.glyphs[#[trigger] v.cell(r2, c2)]
                    == BLANK_GLYPH
            &&& forall|r2: int, c2: int|
                0 <= r2 < v.height && 0 <= c2 < v.width ==> r.0.glyphs[#[trigger] v.cell(r2, c2)]
                    != chars[0]
        }),
{
    reveal_with_fuel(process_seq, 6);
    reveal_with_fuel(lines_bytes, 4);
    let h = v.height;
    let front = chars.take(h);
    let back = chars.skip(h);
    assert(chars =~= front + back);
    lemma_lines_bytes_append(front, back);
    lemma_process_seq_append(v, p, lines_bytes(front), lines_bytes(back));
    lemma_lines_no_scroll(v, p, front);
    let s1 = process_seq(v, p, lines_bytes(front)).0;
    assert(s1.row == h && s1.col == 0);
    // The last line: its character forces the pending scroll first.
    let last = chars[h];
    assert(back =~= seq![last]);
    assert(lines_bytes(seq![last]) =~= seq![last, 10u8]);
    assert(seq![last, 10u8].drop_first() =~= seq![10u8]);
    assert(seq![10u8].drop_first() =~= Seq::<u8>::empty());
    let s_pre = ConsoleView { row: h - 1, ..s1 };
    let scrolled = s_pre.scroll_page_spec();
    assert(s1.scroll_fix() == scrolled);
    assert(s_pre.wf());
    lemma_scroll_page_cells(s_pre);
    assert(scrolled.glyphs.len() == s1.glyphs.len());
    assert(scrolled.wf());
    let g_last = glyph_from_code_spec(last as u32);
    lemma_with_cell_cells(scrolled, h - 1, 0, g_last);
    let placed = scrolled.with_cell(h - 1, 0, g_last);
    let s2 = ConsoleView { col: 1, ..placed };
    assert(s1.print_code_spec(last as u32) == s2);
    assert(s2.scroll_fix() == s2);
    let s3 = s2.ctrl_spec(10);
    let r = process_seq(v, p, lines_bytes(chars));
    assert(r.0 == s3);
    // Each surviving line sits one row higher; everything else is blank.
    assert forall|j: int| 0 <= j < h implies r.0.glyphs[#[trigger] v.cell(j, 0)]
        == glyph_from_code_spec(chars[j + 1] as u32) by {
        if j < h - 1 {
            assert(scrolled.glyphs[s_pre.cell(j, 0)] == s1.glyphs[s_pre.cell(j + 1, 0)]);
            assert(s1.glyphs[v.cell(0 + (j + 1), 0)] == glyph_from_code_spec(
                front[j + 1] as u32,
            ));
            assert(front[j + 1] == chars[j + 1]);
            assert(r.0.glyphs[scrolled.cell(j, 0)] == scrolled.glyphs[scrolled.cell(j, 0)]);
        } else {
            assert(r.0.glyphs[scrolled.cell(h - 1, 0)] == g_last);
        }
    }
    assert forall|r2: int, c2: int| 0 <= r2 < h && 1 <= c2 < v.width implies r.0.glyphs[
        #[trigger] v.cell(r2, c2)
    ] == BLANK_GLYPH by {
        assert(r.0.glyphs[scrolled.cell(r2, c2)] == scrolled.glyphs[scrolled.cell(r2, c2)]);
        if r2 < h - 1 {
            assert(scrolled.glyphs[s_pre.cell(r2, c2)] == s1.glyphs[s_pre.cell(r2 + 1, c2)]);
            assert(!(v.row <= r2 + 1 < v.row + front.len() && c2 == 0));
            assert(s1.glyphs[v.cell(r2 + 1, c2)] == v.glyphs[v.cell(r2 + 1, c2)]);
        } else {
            assert(scrolled.glyphs[s_pre.cell(h - 1, c2)] == BLANK_GLYPH);
        }
    }
    assert forall|r2: int, c2: int| 0 <= r2 < h && 0 <= c2 < v.width implies r.0.glyphs[
        #[trigger] v.cell(r2, c2)
    ] != chars[0] by {
        if c2 == 0 {
            assert(r.0.glyphs[v.cell(r2, 0)] == glyph_from_code_spec(chars[r2 + 1] as u32));
            assert(glyph_from_code_spec(chars[r2 + 1] as u32) == chars[r2 + 1]);
        } else {
            assert(r.0.glyphs[v.cell(r2, c2)] == BLANK_GLYPH);
        }
    }
}

/// Lines of a concatenation are the concatenation of the lines.
pub proof fn lemma_lines_bytes_append(a: Seq<u8>, b: Seq<u8>)
    ensures
        lines_bytes(a + b) == lines_bytes(a) + lines_bytes(b),
    decreases a.len(),
{
    if a.len() == 0 {
        assert(a + b =~= b);
        assert(lines_bytes(a) =~= Seq::<u8>::empty());
        assert(lines_bytes(a) + lines_bytes(b) =~= lines_bytes(b));
    } else {
        assert((a + b).len() > 0);
        assert((a + b)[0] == a[0]);
        assert((a + b).drop_first() =~= a.drop_first() + b);
        lemma_lines_bytes_append(a.drop_first(), b);
        assert(lines_bytes(a + b) =~= seq![a[0], 10u8] + (lines_bytes(a.drop_first())
            + lines_bytes(b)));
        assert(seq![a[0], 10u8] + (lines_bytes(a.drop_first()) + lines_bytes(b)) =~= (seq![
            a[0],
            10u8,
        ] + lines_bytes(a.drop_first())) + lines_bytes(b));
    }
}

} // verus!
