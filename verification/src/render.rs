//! Read-only rendering of positions to text: a bordered 5x5 grid, each cell
//! showing a kind glyph and a side arrow, with each reserve listed as a glyph
//! row above or below the grid. Rendering is a pure projection of the
//! position: the output is a function of the position alone, so rendering
//! the same position twice yields identical text, and nothing is mutated.

use vstd::prelude::*;
use vstd::string::StrSliceExecFns;
use vstd::string::StringExecFns;

use crate::board::Board;
use crate::board::Occupant;
use crate::board::board_wf;
use crate::engine::State;
use crate::engine::StateModel;
use crate::engine::state_wf;
use crate::kinds::Captured;
use crate::kinds::Profession;
use crate::kinds::Side;

verus! {

/// The display glyph of a piece kind.
pub open spec fn prof_glyph(p: Profession) -> Seq<char> {
    match p {
        Profession::Kyo => "香"@,
        Profession::To => "と"@,
        Profession::Gin => "銀"@,
        Profession::Kaku => "角"@,
        Profession::Kin => "金"@,
        Profession::Kei => "桂"@,
        Profession::Hi => "飛"@,
        Profession::Fu => "歩"@,
        Profession::Ou => "王"@,
    }
}

/// The display glyphs of a reserve category: both kinds of its pair.
pub open spec fn captured_glyph(c: Captured) -> Seq<char> {
    match c {
        Captured::KyoTo => "香と"@,
        Captured::GinKaku => "銀角"@,
        Captured::KinKei => "金桂"@,
        Captured::HiFu => "飛歩"@,
    }
}

/// The arrow that marks a side: the first mover points up the page.
pub open spec fn side_glyph(s: Side) -> Seq<char> {
    match s {
        Side::Sente => "↑"@,
        Side::Gote => "↓"@,
    }
}

impl Profession {
    /// The display glyph of this kind.
    pub fn serialize(self) -> (r: &'static str)
        ensures
            r@ == prof_glyph(self),
    {
        match self {
            Profession::Kyo => "香",
            Profession::To => "と",
            Profession::Gin => "銀",
            Profession::Kaku => "角",
            Profession::Kin => "金",
            Profession::Kei => "桂",
            Profession::Hi => "飛",
            Profession::Fu => "歩",
            Profession::Ou => "王",
        }
    }
}

impl Captured {
    /// The display glyphs of this category.
    pub fn serialize(self) -> (r: &'static str)
        ensures
            r@ == captured_glyph(self),
    {
        match self {
            Captured::KyoTo => "香と",
            Captured::GinKaku => "銀角",
            Captured::KinKei => "金桂",
            Captured::HiFu => "飛歩",
        }
    }
}

impl Side {
    /// The arrow that marks this side.
    pub fn serialize(self) -> (r: &'static str)
        ensures
            r@ == side_glyph(self),
    {
        match self {
            Side::Sente => "↑",
            Side::Gote => "↓",
        }
    }
}

/// The text of one cell: a blank of two ideographic spaces, or kind glyph
/// followed by side arrow.
pub open spec fn cell_glyph(a: Option<Occupant>) -> Seq<char> {
    match a {
        None => "　　"@,
        Some((p, sd)) => prof_glyph(p) + side_glyph(sd),
    }
}

/// The horizontal border line between board ranks.
pub open spec fn border() -> Seq<char> {
    "-－－-－－-－－-－－-－－-\n"@
}

/// The text of one board rank: five cells separated by bars.
pub open spec fn row_glyphs(b: Seq<Option<Occupant>>, i: int) -> Seq<char> {
    "|"@ + cell_glyph(b[5 * i + 0]) + "|"@ + cell_glyph(b[5 * i + 1]) + "|"@ + cell_glyph(
        b[5 * i + 2],
    ) + "|"@ + cell_glyph(b[5 * i + 3]) + "|"@ + cell_glyph(b[5 * i + 4]) + "|"@ + "\n"@
}

/// The text of a whole board: five ranks between six border lines.
pub open spec fn render_board_spec(b: Seq<Option<Occupant>>) -> Seq<char> {
    border() + row_glyphs(b, 0) + border() + row_glyphs(b, 1) + border() + row_glyphs(b, 2)
        + border() + row_glyphs(b, 3) + border() + row_glyphs(b, 4) + border()
}

/// The text of a reserve: each entry's glyphs followed by a space.
pub open spec fn hand_glyphs(h: Seq<Captured>) -> Seq<char>
    decreases h.len(),
{
    if h.len() == 0 {
        Seq::empty()
    } else {
        hand_glyphs(h.drop_last()) + captured_glyph(h.last()) + " "@
    }
}

/// The text of a whole position: the second mover's reserve above the board,
/// the first mover's below, each reserve line ended by a newline.
pub open spec fn render_state_spec(s: StateModel) -> Seq<char> {
    hand_glyphs(s.gote_hand) + "\n"@ + render_board_spec(s.board) + hand_glyphs(s.sente_hand)
        + "\n"@
}

/// The text of one cell.
fn cell_string(a: Option<Occupant>) -> (r: String)
    ensures
        r@ == cell_glyph(a),
{
    match a {
        None => "　　".to_owned(),
        Some((p, sd)) => {
            let mut t = p.serialize().to_owned();
            t.append(sd.serialize());
            t
        },
    }
}

/// The text of one board rank.
fn render_row(b: &Board, i: usize) -> (r: String)
    requires
        board_wf(b@),
        i < 5,
    ensures
        r@ == row_glyphs(b@, i as int),
{
    let mut out = "|".to_owned();
    let c0 = cell_string(b.cell_at(5 * i));
    out.append(c0.as_str());
    out.append("|");
    let c1 = cell_string(b.cell_at(5 * i + 1));
    out.append(c1.as_str());
    out.append("|");
    let c2 = cell_string(b.cell_at(5 * i + 2));
    out.append(c2.as_str());
    out.append("|");
    let c3 = cell_string(b.cell_at(5 * i + 3));
    out.append(c3.as_str());
    out.append("|");
    let c4 = cell_string(b.cell_at(5 * i + 4));
    out.append(c4.as_str());
    out.append("|");
    out.append("\n");
    proof {
        assert(out@ =~= row_glyphs(b@, i as int));
    }
    out
}

/// Renders a board as a bordered text grid; the output is a function of the
/// board alone.
pub fn render_board(b: &Board) -> (r: String)
    requires
        board_wf(b@),
    ensures
        r@ == render_board_spec(b@),
{
    let mut out = String::new();
    out.append("-－－-－－-－－-－－-－－-\n");
    let r0 = render_row(b, 0);
    out.append(r0.as_str());
    out.append("-－－-－－-－－-－－-－－-\n");
    let r1 = render_row(b, 1);
    out.append(r1.as_str());
    out.append("-－－-－－-－－-－－-－－-\n");
    let r2 = render_row(b, 2);
    out.append(r2.as_str());
    out.append("-－－-－－-－－-－－-－－-\n");
    let r3 = render_row(b, 3);
    out.append(r3.as_str());
    out.append("-－－-－－-－－-－－-－－-\n");
    let r4 = render_row(b, 4);
    out.append(r4.as_str());
    out.append("-－－-－－-－－-－－-－－-\n");
    proof {
        assert(out@ =~= render_board_spec(b@));
    }
    out
}

/// The text of a reserve row.
fn render_hand(h: &Vec<Captured>) -> (r: String)
    ensures
        r@ == hand_glyphs(h@),
{
    let mut out = String::new();
    let mut i: usize = 0;
    while i < h.len()
        invariant
            i <= h@.len(),
            out@ == hand_glyphs(h@.take(i as int)),
        decreases h@.len() - i,
    {
        let g = h[i].serialize();
        out.append(g);
        out.append(" ");
        proof {
            let t = h@.take(i as int + 1);
            assert(t.drop_last() =~= h@.take(i as int));
            assert(t.last() == h@[i as int]);
        }
        i = i + 1;
    }
    proof {
        assert(h@.take(h@.len() as int) =~= h@);
    }
    out
}

/// Renders a whole position: reserves above and below the board grid; a pure
/// read that leaves the position untouched, so rendering the same position
/// twice yields identical text.
pub fn render_state(s: &State) -> (r: String)
    requires
        state_wf(s@),
    ensures
        r@ == render_state_spec(s@),
{
    let mut out = render_hand(&s.gote_hand);
    out.append("\n");
    let b = render_board(&s.b);
    out.append(b.as_str());
    let sente = render_hand(&s.sente_hand);
    out.append(sente.as_str());
    out.append("\n");
    proof {
        assert(out@ =~= render_state_spec(s@));
    }
    out
}

} // verus!
