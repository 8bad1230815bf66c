//! The state transition engine: turn order, move application, captures,
//! reserves, conjugation, and king-capture detection.
//!
//! Every accepted move produces a brand-new `State`; the prior one stays
//! valid. A captured King immediately ends the game with a `Victory` for the
//! mover; any other capture collapses to its reserve category and joins the
//! mover's hand. Every piece moved from a square converts into its conjugate
//! form; a dropped piece does not.

use vstd::prelude::*;

use crate::board::Board;
use crate::board::Occupant;
use crate::board::board_at;
use crate::board::board_wf;
use crate::coord::Coord;
use crate::coord::coord_index;
use crate::kinds::Captured;
use crate::kinds::Profession;
use crate::kinds::Side;
use crate::kinds::category_spec;
use crate::kinds::conjugate_spec;
use crate::kinds::opposite_spec;
use crate::parser::Movement;
use crate::rules::between;
use crate::rules::dx_abs_spec;
use crate::rules::dy_spec;
use crate::rules::offset_permitted;

verus! {

/// A full game position: board, side to move, and both reserves.
#[derive(Debug, Clone, PartialEq, Eq)]
pub struct State {
    pub b: Board,
    pub whose_turn: Side,
    pub sente_hand: Vec<Captured>,
    pub gote_hand: Vec<Captured>,
}

/// The mathematical model of a game position.
#[verifier::ext_equal]
pub struct StateModel {
    pub board: Seq<Option<Occupant>>,
    pub whose_turn: Side,
    pub sente_hand: Seq<Captured>,
    pub gote_hand: Seq<Captured>,
}

impl View for State {
    type V = StateModel;

    open spec fn view(&self) -> StateModel {
        StateModel {
            board: self.b@,
            whose_turn: self.whose_turn,
            sente_hand: self.sente_hand@,
            gote_hand: self.gote_hand@,
        }
    }
}

/// A well-formed position holds a 25-cell board.
pub open spec fn state_wf(s: StateModel) -> bool {
    board_wf(s.board)
}

/// The outcome of a legal move: a next position, or a terminal victory.
#[derive(Debug, Clone, PartialEq, Eq)]
pub enum StateOrVictory {
    State(State),
    Victory(Side),
}

/// The mathematical model of an outcome.
pub enum Outcome {
    Next(StateModel),
    Win(Side),
}

/// The reserve of a side.
pub open spec fn hand_of(s: StateModel, side: Side) -> Seq<Captured> {
    if side == Side::Sente {
        s.sente_hand
    } else {
        s.gote_hand
    }
}

/// A reserve with the first entry equal to `cap` removed; unchanged when no
/// entry matches.
pub open spec fn hand_remove_first(h: Seq<Captured>, cap: Captured) -> Seq<Captured>
    decreases h.len(),
{
    if h.len() == 0 {
        Seq::empty()
    } else if h[0] == cap {
        h.drop_first()
    } else {
        seq![h[0]] + hand_remove_first(h.drop_first(), cap)
    }
}

/// The occupant with its kind conjugated; a vacant square stays vacant.
pub open spec fn conj_spec(a: Option<Occupant>) -> Option<Occupant> {
    match a {
        None => None,
        Some((p, sd)) => Some((conjugate_spec(p), sd)),
    }
}

/// Conjugates the kind of an occupant, if any.
pub fn conj(a: Option<Occupant>) -> (r: Option<Occupant>)
    ensures
        r == conj_spec(a),
{
    match a {
        None => None,
        Some((p, sd)) => Some((p.conjugate(), sd)),
    }
}

/// Whether a drop of `prof` on `dst` is legal for the side to move: the
/// destination is vacant and the mover's reserve holds an entry of the
/// kind's category (the King has no category, so it can never be dropped).
pub open spec fn drop_allowed(s: StateModel, dst: Coord, prof: Profession) -> bool {
    &&& board_at(s.board, dst) is None
    &&& category_spec(prof) is Some
    &&& hand_of(s, s.whose_turn).contains(category_spec(prof)->Some_0)
}

/// The position after a legal drop: the declared kind appears, unconjugated,
/// on the destination owned by the mover; one matching reserve entry leaves
/// the mover's hand; the turn flips.
pub open spec fn drop_result(s: StateModel, dst: Coord, prof: Profession) -> StateModel {
    let cap = category_spec(prof)->Some_0;
    StateModel {
        board: s.board.update(coord_index(dst), Some((prof, s.whose_turn))),
        whose_turn: opposite_spec(s.whose_turn),
        sente_hand: if s.whose_turn == Side::Sente {
            hand_remove_first(s.sente_hand, cap)
        } else {
            s.sente_hand
        },
        gote_hand: if s.whose_turn == Side::Gote {
            hand_remove_first(s.gote_hand, cap)
        } else {
            s.gote_hand
        },
    }
}

/// Whether a board move is legal apart from what stands on the destination:
/// the displacement is in the moving kind's table, no square strictly
/// between source and destination is occupied, the source holds exactly the
/// declared kind owned by the side to move, and the destination does not
/// hold the mover's own piece.
pub open spec fn board_move_allowed(s: StateModel, m: Movement, src: Coord) -> bool {
    &&& offset_permitted(m.prof, dx_abs_spec(src, m.dst), dy_spec(m.side, src, m.dst))
    &&& !(exists|c: Coord| between(src, m.dst, c) && board_at(s.board, c) is Some)
    &&& board_at(s.board, src) == Some((m.prof, s.whose_turn))
    &&& match board_at(s.board, m.dst) {
        Some((_, sd)) => sd != s.whose_turn,
        None => true,
    }
}

/// The board after the moving piece leaves its source and lands, conjugated,
/// on the destination.
pub open spec fn moved_board(s: StateModel, m: Movement, src: Coord) -> Seq<Option<Occupant>> {
    s.board.update(coord_index(m.dst), conj_spec(board_at(s.board, src))).update(
        coord_index(src),
        None,
    )
}

/// The position after a legal non-terminal board move: the piece lands
/// conjugated, a captured occupant's category joins the mover's reserve, and
/// the turn flips.
pub open spec fn board_move_result(s: StateModel, m: Movement, src: Coord) -> StateModel {
    let captured = match board_at(s.board, m.dst) {
        None => Seq::<Captured>::empty(),
        Some((dp, _)) => seq![category_spec(dp)->Some_0],
    };
    StateModel {
        board: moved_board(s, m, src),
        whose_turn: opposite_spec(s.whose_turn),
        sente_hand: if s.whose_turn == Side::Sente {
            s.sente_hand + captured
        } else {
            s.sente_hand
        },
        gote_hand: if s.whose_turn == Side::Gote {
            s.gote_hand + captured
        } else {
            s.gote_hand
        },
    }
}

/// The transition function: what applying a move to a position yields.
/// `None` is an illegal move; `Some(Win(side))` is the terminal king-capture
/// outcome; `Some(Next(s2))` is the next position.
pub open spec fn apply_spec(m: Movement, s: StateModel) -> Option<Outcome> {
    if s.whose_turn != m.side {
        None
    } else {
        match m.src {
            None => if drop_allowed(s, m.dst, m.prof) {
                Some(Outcome::Next(drop_result(s, m.dst, m.prof)))
            } else {
                None
            },
            Some(src) => if !board_move_allowed(s, m, src) {
                None
            } else {
                match board_at(s.board, m.dst) {
                    Some((dp, _)) => if dp == Profession::Ou {
                        Some(Outcome::Win(s.whose_turn))
                    } else {
                        Some(Outcome::Next(board_move_result(s, m, src)))
                    },
                    None => Some(Outcome::Next(board_move_result(s, m, src))),
                }
            },
        }
    }
}

/// The fixed initial board, row-major from the second mover's back rank:
/// each back rank holds Pawn, Gold, King, Silver, Promoted-Lance mirrored
/// for the two sides, with three empty ranks between.
pub open spec fn initial_board_spec() -> Seq<Option<Occupant>> {
    seq![
        Some((Profession::Fu, Side::Gote)),
        Some((Profession::Kin, Side::Gote)),
        Some((Profession::Ou, Side::Gote)),
        Some((Profession::Gin, Side::Gote)),
        Some((Profession::To, Side::Gote)),
        None,
        None,
        None,
        None,
        None,
        None,
        None,
        None,
        None,
        None,
        None,
        None,
        None,
        None,
        None,
        Some((Profession::To, Side::Sente)),
        Some((Profession::Gin, Side::Sente)),
        Some((Profession::Ou, Side::Sente)),
        Some((Profession::Kin, Side::Sente)),
        Some((Profession::Fu, Side::Sente)),
    ]
}

/// The fixed starting position: the initial board, empty reserves, and the
/// first mover to move.
pub open spec fn initial_state_spec() -> StateModel {
    StateModel {
        board: initial_board_spec(),
        whose_turn: Side::Sente,
        sente_hand: Seq::empty(),
        gote_hand: Seq::empty(),
    }
}

/// The fixed starting position.
pub fn initial_state() -> (r: State)
    ensures
        r@ == initial_state_spec(),
        state_wf(r@),
{
    let mut cells: Vec<Option<Occupant>> = Vec::new();
    cells.push(Some((Profession::Fu, Side::Gote)));
    cells.push(Some((Profession::Kin, Side::Gote)));
    cells.push(Some((Profession::Ou, Side::Gote)));
    cells.push(Some((Profession::Gin, Side::Gote)));
    cells.push(Some((Profession::To, Side::Gote)));
    let mut i: usize = 0;
    while i < 15
        invariant
            i <= 15,
            cells@.len() == 5 + i,
            forall|k: int| 0 <= k < 5 ==> cells@[k] == initial_board_spec()[k],
            forall|k: int| 5 <= k < 5 + i ==> cells@[k] is None,
        decreases 15 - i,
    {
        cells.push(None);
        i = i + 1;
    }
    cells.push(Some((Profession::To, Side::Sente)));
    cells.push(Some((Profession::Gin, Side::Sente)));
    cells.push(Some((Profession::Ou, Side::Sente)));
    cells.push(Some((Profession::Kin, Side::Sente)));
    cells.push(Some((Profession::Fu, Side::Sente)));
    proof {
        assert(cells@ =~= initial_board_spec());
    }
    let b = Board::from_cells(cells);
    let ns = State { b, whose_turn: Side::Sente, sente_hand: Vec::new(), gote_hand: Vec::new() };
    proof {
        assert(ns@ =~= initial_state_spec());
    }
    ns
}

/// Whether a reserve holds an entry of a category.
fn hand_contains(h: &Vec<Captured>, cap: Captured) -> (r: bool)
    ensures
        r == h@.contains(cap),
{
    let mut i: usize = 0;
    while i < h.len()
        invariant
            i <= h@.len(),
            forall|k: int| 0 <= k < i ==> h@[k] != cap,
        decreases h@.len() - i,
    {
        if h[i] == cap {
            return true;
        }
        i = i + 1;
    }
    false
}

/// An independent copy of a reserve.
fn copy_hand(h: &Vec<Captured>) -> (r: Vec<Captured>)
    ensures
        r@ == h@,
{
    let mut out: Vec<Captured> = Vec::new();
    let mut i: usize = 0;
    while i < h.len()
        invariant
            i <= h@.len(),
            out@.len() == i,
            forall|k: int| 0 <= k < i ==> out@[k] == h@[k],
        decreases h@.len() - i,
    {
        out.push(h[i]);
        i = i + 1;
    }
    proof {
        assert(out@ =~= h@);
    }
    out
}

/// A reserve that holds no matching entry loses nothing.
proof fn lemma_remove_absent(h: Seq<Captured>, cap: Captured)
    requires
        !h.contains(cap),
    ensures
        hand_remove_first(h, cap) == h,
    decreases h.len(),
{
    if h.len() > 0 {
        assert(h[0] != cap);
        assert(forall|k: int| 0 <= k < h.drop_first().len() ==> h.drop_first()[k] == h[k + 1]);
        lemma_remove_absent(h.drop_first(), cap);
        assert(seq![h[0]] + h.drop_first() =~= h);
    }
}

/// Removing the first matching entry removes exactly the entry at the first
/// matching index.
proof fn lemma_remove_first_at(h: Seq<Captured>, cap: Captured, j: int)
    requires
        0 <= j < h.len(),
        h[j] == cap,
        forall|k: int| 0 <= k < j ==> h[k] != cap,
    ensures
        hand_remove_first(h, cap) == h.remove(j),
    decreases j,
{
    if j == 0 {
        assert(hand_remove_first(h, cap) == h.drop_first());
        assert(h.drop_first() =~= h.remove(0));
    } else {
        assert(h[0] != cap);
        let t = h.drop_first();
        assert(forall|k: int| 0 <= k < t.len() ==> t[k] == h[k + 1]);
        lemma_remove_first_at(t, cap, j - 1);
        assert(hand_remove_first(h, cap) == seq![h[0]] + t.remove(j - 1));
        assert(seq![h[0]] + t.remove(j - 1) =~= h.remove(j));
    }
}

/// Consuming one matching entry takes exactly one copy of the category out
/// of the reserve, seen as a multiset, and leaves every other count alone.
pub proof fn lemma_remove_first_multiset(h: Seq<Captured>, cap: Captured)
    requires
        h.contains(cap),
    ensures
        hand_remove_first(h, cap).to_multiset() == h.to_multiset().remove(cap),
        hand_remove_first(h, cap).len() == h.len() - 1,
{
    let w = choose|w: int| 0 <= w < h.len() && h[w] == cap;
    lemma_first_match_exists(h, cap, w);
    let j = choose|j: int|
        0 <= j < h.len() && h[j] == cap && (forall|k: int| 0 <= k < j ==> h[k] != cap);
    lemma_remove_first_at(h, cap, j);
    h.to_multiset_ensures();
    assert(h.remove(j).to_multiset() =~= h.to_multiset().remove(h[j]));
}

/// Ahead of any matching index stands a first matching index.
proof fn lemma_first_match_exists(h: Seq<Captured>, cap: Captured, w: int)
    requires
        0 <= w < h.len(),
        h[w] == cap,
    ensures
        exists|j: int|
            0 <= j < h.len() && h[j] == cap && (forall|k: int| 0 <= k < j ==> h[k] != cap),
    decreases w,
{
    if forall|k: int| 0 <= k < w ==> h[k] != cap {
        assert(0 <= w < h.len() && h[w] == cap && (forall|k: int| 0 <= k < w ==> h[k] != cap));
    } else {
        let w2 = choose|w2: int| 0 <= w2 < w && h[w2] == cap;
        lemma_first_match_exists(h, cap, w2);
    }
}

/// A copy of a reserve with the first entry matching `cap` removed.
fn hand_remove(h: &Vec<Captured>, cap: Captured) -> (r: Vec<Captured>)
    ensures
        r@ == hand_remove_first(h@, cap),
{
    let mut out: Vec<Captured> = Vec::new();
    let mut i: usize = 0;
    let mut removed = false;
    let ghost mut j: int = 0;
    while i < h.len()
        invariant
            i <= h@.len(),
            !removed ==> {
                &&& out@ == h@.subrange(0, i as int)
                &&& forall|k: int| 0 <= k < i ==> h@[k] != cap
            },
            removed ==> {
                &&& 0 <= j < i
                &&& h@[j] == cap
                &&& forall|k: int| 0 <= k < j ==> h@[k] != cap
                &&& out@ == h@.subrange(0, j) + h@.subrange(j + 1, i as int)
            },
        decreases h@.len() - i,
    {
        if !removed && h[i] == cap {
            removed = true;
            proof {
                j = i as int;
                assert(out@ =~= h@.subrange(0, j) + h@.subrange(j + 1, i as int + 1));
            }
        } else {
            out.push(h[i]);
            proof {
                if removed {
                    assert(out@ =~= h@.subrange(0, j) + h@.subrange(j + 1, i as int + 1));
                } else {
                    assert(out@ =~= h@.subrange(0, i as int + 1));
                }
            }
        }
        i = i + 1;
    }
    proof {
        if removed {
            lemma_remove_first_at(h@, cap, j);
            assert(out@ =~= h@.remove(j));
        } else {
            assert(out@ =~= h@);
            assert(!h@.contains(cap));
            lemma_remove_absent(h@, cap);
        }
    }
    out
}

/// Applies a drop of `prof` on `dst` for the side to move: legal exactly
/// when the destination is vacant and the mover's reserve holds a matching
/// category entry, which is then consumed; the dropped piece keeps its kind
/// and the turn flips.
pub fn apply_parachute(dst: Coord, prof: Profession, s: &State) -> (r: Option<State>)
    requires
        state_wf(s@),
    ensures
        r is Some <==> drop_allowed(s@, dst, prof),
        r matches Some(ns) ==> ns@ == drop_result(s@, dst, prof) && state_wf(ns@),
{
    if s.b.get(dst).is_some() {
        return None;
    }

    let cap = match prof.to_captured() {
        Some(cap) => cap,
        None => {
            return None;
        },
    };

    match s.whose_turn {
        Side::Sente => {
            if !hand_contains(&s.sente_hand, cap) {
                return None;
            }
            let mut b = s.b.duplicate();
            b.set(dst, Some((prof, Side::Sente)));
            let ns = State {
                whose_turn: Side::Gote,
                b,
                sente_hand: hand_remove(&s.sente_hand, cap),
                gote_hand: copy_hand(&s.gote_hand),
            };
            proof {
                assert(ns@ =~= drop_result(s@, dst, prof));
            }
            Some(ns)
        },
        Side::Gote => {
            if !hand_contains(&s.gote_hand, cap) {
                return None;
            }
            let mut b = s.b.duplicate();
            b.set(dst, Some((prof, Side::Gote)));
            let ns = State {
                whose_turn: Side::Sente,
                b,
                sente_hand: copy_hand(&s.sente_hand),
                gote_hand: hand_remove(&s.gote_hand, cap),
            };
            proof {
                assert(ns@ =~= drop_result(s@, dst, prof));
            }
            Some(ns)
        },
    }
}

/// Applies a move to a position. `None` is an illegal move; a captured King
/// yields `Victory` for the mover with no new position; otherwise a
/// brand-new position is returned and the prior one stays valid.
pub fn apply_movement(m: Movement, s: &State) -> (r: Option<StateOrVictory>)
    requires
        state_wf(s@),
    ensures
        match apply_spec(m, s@) {
            None => r is None,
            Some(Outcome::Win(w)) => r == Some(StateOrVictory::Victory(w)),
            Some(Outcome::Next(sm)) => match r {
                Some(StateOrVictory::State(ns)) => ns@ == sm && state_wf(ns@),
                _ => false,
            },
        },
{
    if s.whose_turn != m.side {
        return None;
    }

    if let Some(src) = m.src {
        let intervening_squares = match crate::rules::validate_move_legality(
            m.side,
            src,
            m.dst,
            m.prof,
        ) {
            Some(v) => v,
            None => {
                return None;
            },
        };

        let mut i: usize = 0;
        while i < intervening_squares.len()
            invariant
                state_wf(s@),
                s@.whose_turn == m.side,
                m.src == Some(src),
                i <= intervening_squares@.len(),
                forall|c: Coord| intervening_squares@.contains(c) <==> between(src, m.dst, c),
                forall|k: int|
                    0 <= k < i ==> board_at(s@.board, intervening_squares@[k]) is None,
            decreases intervening_squares@.len() - i,
        {
            if s.b.get(intervening_squares[i]).is_some() {
                proof {
                    let c = intervening_squares@[i as int];
                    assert(intervening_squares@.contains(c));
                    assert(between(src, m.dst, c) && board_at(s@.board, c) is Some);
                    assert(!board_move_allowed(s@, m, src));
                }
                return None;
            }
            i = i + 1;
        }
        proof {
            assert forall|c: Coord| between(src, m.dst, c) implies board_at(
                s@.board,
                c,
            ) is None by {
                assert(intervening_squares@.contains(c));
                let k = choose|k: int|
                    0 <= k < intervening_squares@.len() && intervening_squares@[k] == c;
                assert(board_at(s@.board, intervening_squares@[k]) is None);
            }
        }

        match s.b.get(src) {
            None => {
                return None;
            },
            Some((prof, side)) => {
                if side != s.whose_turn {
                    return None;
                }
                if prof != m.prof {
                    return None;
                }
            },
        }

        match s.b.get(m.dst) {
            None => {
                let mut b = s.b.duplicate();
                b.set(m.dst, conj(s.b.get(src)));
                b.set(src, None);
                let ns = State {
                    whose_turn: s.whose_turn.opposite(),
                    b,
                    sente_hand: copy_hand(&s.sente_hand),
                    gote_hand: copy_hand(&s.gote_hand),
                };
                proof {
                    assert(ns@ =~= board_move_result(s@, m, src));
                }
                Some(StateOrVictory::State(ns))
            },
            Some((dst_prof, side)) => {
                if side == s.whose_turn {
                    return None;
                }

                let cap = match dst_prof.to_captured() {
                    None => {
                        return Some(StateOrVictory::Victory(s.whose_turn));
                    },
                    Some(cap) => cap,
                };

                let mut b = s.b.duplicate();
                b.set(m.dst, conj(s.b.get(src)));
                b.set(src, None);
                let mut sente_hand = copy_hand(&s.sente_hand);
                let mut gote_hand = copy_hand(&s.gote_hand);
                if matches!(s.whose_turn, Side::Sente) {
                    sente_hand.push(cap);
                } else {
                    gote_hand.push(cap);
                }
                let ns = State { whose_turn: s.whose_turn.opposite(), b, sente_hand, gote_hand };
                proof {
                    assert(ns@ =~= board_move_result(s@, m, src));
                }
                Some(StateOrVictory::State(ns))
            },
        }
    } else {
        match apply_parachute(m.dst, m.prof, s) {
            Some(ns) => Some(StateOrVictory::State(ns)),
            None => None,
        }
    }
}

/// A sliding move whose line holds an occupied square strictly between
/// source and destination is illegal.
pub proof fn lemma_blocked_move_is_illegal(m: Movement, s: StateModel, c: Coord)
    requires
        m.src is Some,
        between(m.src->Some_0, m.dst, c),
        board_at(s.board, c) is Some,
    ensures
        apply_spec(m, s) is None,
{
    let src = m.src->Some_0;
    assert(exists|d: Coord| between(src, m.dst, d) && board_at(s.board, d) is Some);
}

/// A permitted move whose line is clear, whose source holds the declared
/// piece, and whose destination holds no piece of the mover's own side nor a
/// King, yields a new position.
pub proof fn lemma_clear_move_succeeds(m: Movement, s: StateModel)
    requires
        state_wf(s),
        s.whose_turn == m.side,
        m.src is Some,
        board_move_allowed(s, m, m.src->Some_0),
        match board_at(s.board, m.dst) {
            Some((p, _)) => p != Profession::Ou,
            None => true,
        },
    ensures
        apply_spec(m, s) == Some(Outcome::Next(board_move_result(s, m, m.src->Some_0))),
{
}

/// Every successful board move replaces the moved piece by its conjugate on
/// the destination, vacates the source, and flips the side to move.
pub proof fn lemma_move_conjugates(m: Movement, s: StateModel, s2: StateModel)
    requires
        state_wf(s),
        m.src is Some,
        apply_spec(m, s) == Some(Outcome::Next(s2)),
    ensures
        m.src->Some_0 != m.dst,
        board_at(s2.board, m.dst) == Some((conjugate_spec(m.prof), m.side)),
        board_at(s2.board, m.src->Some_0) is None,
        s2.whose_turn == opposite_spec(m.side),
{
    let src = m.src->Some_0;
    assert(offset_permitted(m.prof, dx_abs_spec(src, m.dst), dy_spec(m.side, src, m.dst)));
    if src == m.dst {
        assert(dx_abs_spec(src, m.dst) == 0 && dy_spec(m.side, src, m.dst) == 0);
        assert(false);
    }
    crate::coord::lemma_coord_index_bijective(src, 0);
    crate::coord::lemma_coord_index_bijective(m.dst, 0);
}

/// Every successful drop places the declared kind unconjugated and flips the
/// side to move.
pub proof fn lemma_drop_keeps_kind(m: Movement, s: StateModel, s2: StateModel)
    requires
        state_wf(s),
        m.src is None,
        apply_spec(m, s) == Some(Outcome::Next(s2)),
    ensures
        board_at(s2.board, m.dst) == Some((m.prof, m.side)),
        s2.whose_turn == opposite_spec(m.side),
{
}

/// Capturing a King yields Victory for the mover, and no new position.
pub proof fn lemma_king_capture_is_victory(m: Movement, s: StateModel)
    requires
        s.whose_turn == m.side,
        m.src is Some,
        board_move_allowed(s, m, m.src->Some_0),
        board_at(s.board, m.dst) matches Some((Profession::Ou, _)),
    ensures
        apply_spec(m, s) == Some(Outcome::Win(m.side)),
{
}

/// A Victory arises only from a board move onto the opponent's King, and it
/// belongs to the mover.
pub proof fn lemma_victory_only_by_king_capture(m: Movement, s: StateModel, w: Side)
    requires
        apply_spec(m, s) == Some(Outcome::Win(w)),
    ensures
        w == m.side,
        m.src is Some,
        board_at(s.board, m.dst) == Some((Profession::Ou, opposite_spec(m.side))),
{
}

/// Capturing a non-King piece appends exactly one entry of the captured
/// piece's category to the mover's reserve, leaves the opponent's reserve
/// alone, and replaces the captured occupant by the mover's conjugated
/// piece.
pub proof fn lemma_capture_bookkeeping(m: Movement, s: StateModel, s2: StateModel)
    requires
        state_wf(s),
        m.src is Some,
        board_at(s.board, m.dst) is Some,
        apply_spec(m, s) == Some(Outcome::Next(s2)),
    ensures
        ({
            let occ = board_at(s.board, m.dst)->Some_0;
            &&& category_spec(occ.0) is Some
            &&& hand_of(s2, m.side) == hand_of(s, m.side).push(category_spec(occ.0)->Some_0)
            &&& hand_of(s2, opposite_spec(m.side)) == hand_of(s, opposite_spec(m.side))
            &&& board_at(s2.board, m.dst) == Some((conjugate_spec(m.prof), m.side))
        }),
{
    let occ = board_at(s.board, m.dst)->Some_0;
    let cap = category_spec(occ.0)->Some_0;
    assert(hand_of(s, m.side) + seq![cap] =~= hand_of(s, m.side).push(cap));
    lemma_move_conjugates(m, s, s2);
}

/// A drop is legal only with a matching reserve entry and a vacant
/// destination; it consumes exactly one matching entry, counted as a
/// multiset, and leaves the opponent's reserve alone.
pub proof fn lemma_drop_bookkeeping(m: Movement, s: StateModel, s2: StateModel)
    requires
        state_wf(s),
        m.src is None,
        apply_spec(m, s) == Some(Outcome::Next(s2)),
    ensures
        board_at(s.board, m.dst) is None,
        category_spec(m.prof) is Some,
        hand_of(s, m.side).contains(category_spec(m.prof)->Some_0),
        hand_of(s2, m.side).to_multiset() == hand_of(s, m.side).to_multiset().remove(
            category_spec(m.prof)->Some_0,
        ),
        hand_of(s2, m.side).len() == hand_of(s, m.side).len() - 1,
        hand_of(s2, opposite_spec(m.side)) == hand_of(s, opposite_spec(m.side)),
{
    lemma_remove_first_multiset(hand_of(s, m.side), category_spec(m.prof)->Some_0);
}

/// A drop without a matching reserve entry, or onto an occupied square, is
/// illegal.
pub proof fn lemma_drop_needs_reserve_and_room(m: Movement, s: StateModel)
    requires
        s.whose_turn == m.side,
        m.src is None,
        !drop_allowed(s, m.dst, m.prof),
    ensures
        apply_spec(m, s) is None,
{
}

/// Every legal move preserves well-formedness of the position.
pub proof fn lemma_apply_preserves_wf(m: Movement, s: StateModel, s2: StateModel)
    requires
        state_wf(s),
        apply_spec(m, s) == Some(Outcome::Next(s2)),
    ensures
        state_wf(s2),
{
}

} // verus!
