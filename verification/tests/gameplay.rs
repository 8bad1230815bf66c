use kyoto_ginkaku::Board;
use kyoto_ginkaku::Captured;
use kyoto_ginkaku::Column;
use kyoto_ginkaku::M;
use kyoto_ginkaku::Profession;
use kyoto_ginkaku::Row;
use kyoto_ginkaku::Side;
use kyoto_ginkaku::State;
use kyoto_ginkaku::StateOrVictory;
use kyoto_ginkaku::apply_movement;
use kyoto_ginkaku::initial_state;

fn col(c: usize) -> Column {
    match c {
        1 => Column::_1,
        2 => Column::_2,
        3 => Column::_3,
        4 => Column::_4,
        _ => Column::_5,
    }
}

fn row(r: usize) -> Row {
    match r {
        1 => Row::Yi,
        2 => Row::Er,
        3 => Row::San,
        4 => Row::Si,
        _ => Row::Wu,
    }
}

/// Builds a board from (display column, display row, kind, side) entries.
fn board_of(pieces: &[(usize, usize, Profession, Side)]) -> Board {
    let mut cells: Vec<Option<(Profession, Side)>> = vec![None; 25];
    for &(c, r, p, s) in pieces {
        cells[(r - 1) * 5 + (5 - c)] = Some((p, s));
    }
    Board::from_cells(cells)
}

fn next_state(s: &State, notation: &str) -> State {
    match apply_movement(M(notation), s).expect("move should be legal") {
        StateOrVictory::State(ns) => ns,
        StateOrVictory::Victory(w) => panic!("unexpected victory for {:?}", w),
    }
}

#[test]
fn initial_layout() {
    let s = initial_state();
    assert_eq!(s.whose_turn, Side::Sente);
    assert!(s.sente_hand.is_empty());
    assert!(s.gote_hand.is_empty());
    assert_eq!(s.b.get((col(5), row(1))), Some((Profession::Fu, Side::Gote)));
    assert_eq!(s.b.get((col(4), row(1))), Some((Profession::Kin, Side::Gote)));
    assert_eq!(s.b.get((col(3), row(1))), Some((Profession::Ou, Side::Gote)));
    assert_eq!(s.b.get((col(2), row(1))), Some((Profession::Gin, Side::Gote)));
    assert_eq!(s.b.get((col(1), row(1))), Some((Profession::To, Side::Gote)));
    assert_eq!(s.b.get((col(5), row(5))), Some((Profession::To, Side::Sente)));
    assert_eq!(s.b.get((col(2), row(5))), Some((Profession::Kin, Side::Sente)));
    assert_eq!(s.b.get((col(3), row(3))), None);
}

#[test]
fn conjugation_is_involutive() {
    let all = [
        Profession::Kyo,
        Profession::To,
        Profession::Gin,
        Profession::Kaku,
        Profession::Kin,
        Profession::Kei,
        Profession::Hi,
        Profession::Fu,
        Profession::Ou,
    ];
    for p in all {
        assert_eq!(p.conjugate().conjugate(), p);
        assert_eq!(p.conjugate().to_captured(), p.to_captured());
    }
    assert_eq!(Profession::Ou.conjugate(), Profession::Ou);
    assert_eq!(Profession::Kyo.conjugate(), Profession::To);
    assert_eq!(Profession::Gin.conjugate(), Profession::Kaku);
    assert_eq!(Profession::Kin.conjugate(), Profession::Kei);
    assert_eq!(Profession::Hi.conjugate(), Profession::Fu);
}

#[test]
fn moved_piece_conjugates_and_turn_flips() {
    let s = initial_state();
    let s1 = next_state(&s, "☗4四玉(35)");
    assert_eq!(s1.whose_turn, Side::Gote);
    assert_eq!(s1.b.get((col(4), row(4))), Some((Profession::Ou, Side::Sente)));
    assert_eq!(s1.b.get((col(3), row(5))), None);
    let s2 = next_state(&s1, "☖4二玉(31)");
    assert_eq!(s2.whose_turn, Side::Sente);
    let s3 = next_state(&s2, "☗5四と(55)");
    // the promoted lance converts back into a lance as it moves
    assert_eq!(s3.b.get((col(5), row(4))), Some((Profession::Kyo, Side::Sente)));
    assert_eq!(s3.whose_turn, Side::Gote);
}

#[test]
fn wrong_side_to_move_is_illegal() {
    let s = initial_state();
    assert_eq!(apply_movement(M("☖4二玉(31)"), &s), None);
}

#[test]
fn geometry_violations_are_illegal() {
    let s = initial_state();
    // a king cannot jump like a knight
    assert_eq!(apply_movement(M("☗2三玉(35)"), &s), None);
    // the source square is empty
    assert_eq!(apply_movement(M("☗4三玉(33)"), &s), None);
    // the source square holds a different kind than declared
    assert_eq!(apply_movement(M("☗4四金(35)"), &s), None);
    // the destination holds the mover's own piece
    assert_eq!(apply_movement(M("☗2五玉(35)"), &s), None);
}

#[test]
fn sliding_move_blocked_and_clear() {
    // a first-mover rook on 3-five aims at 3-two; 3-three blocks the line
    let blocked = State {
        b: board_of(&[
            (3, 5, Profession::Hi, Side::Sente),
            (3, 3, Profession::Fu, Side::Gote),
            (3, 1, Profession::Ou, Side::Gote),
        ]),
        whose_turn: Side::Sente,
        sente_hand: vec![],
        gote_hand: vec![],
    };
    assert_eq!(apply_movement(M("☗3二飛(35)"), &blocked), None);

    let clear = State {
        b: board_of(&[
            (3, 5, Profession::Hi, Side::Sente),
            (3, 1, Profession::Ou, Side::Gote),
        ]),
        whose_turn: Side::Sente,
        sente_hand: vec![],
        gote_hand: vec![],
    };
    match apply_movement(M("☗3二飛(35)"), &clear).unwrap() {
        StateOrVictory::State(ns) => {
            // the rook lands conjugated into a pawn
            assert_eq!(ns.b.get((col(3), row(2))), Some((Profession::Fu, Side::Sente)));
            assert_eq!(ns.whose_turn, Side::Gote);
        },
        StateOrVictory::Victory(_) => panic!("no king was captured"),
    }
}

#[test]
fn capturing_the_king_is_victory() {
    let s = State {
        b: board_of(&[
            (3, 5, Profession::Hi, Side::Sente),
            (3, 1, Profession::Ou, Side::Gote),
        ]),
        whose_turn: Side::Sente,
        sente_hand: vec![],
        gote_hand: vec![],
    };
    assert_eq!(
        apply_movement(M("☗3一飛(35)"), &s),
        Some(StateOrVictory::Victory(Side::Sente))
    );
}

#[test]
fn capture_joins_the_movers_reserve_as_a_category() {
    let s = State {
        b: board_of(&[
            (3, 5, Profession::Hi, Side::Sente),
            (3, 3, Profession::Kaku, Side::Gote),
        ]),
        whose_turn: Side::Sente,
        sente_hand: vec![],
        gote_hand: vec![],
    };
    let ns = next_state(&s, "☗3三飛(35)");
    // the captured bishop collapses to its silver-or-bishop category
    assert_eq!(ns.sente_hand, vec![Captured::GinKaku]);
    assert_eq!(ns.gote_hand, vec![]);
    assert_eq!(ns.b.get((col(3), row(3))), Some((Profession::Fu, Side::Sente)));
    assert_eq!(ns.b.get((col(3), row(5))), None);
}

#[test]
fn drop_requires_reserve_and_vacancy() {
    // no reserve entry at all
    let s = initial_state();
    assert_eq!(apply_movement(M("☗5三飛打"), &s), None);

    // a matching entry, but the destination is occupied
    let occupied = State {
        b: initial_state().b,
        whose_turn: Side::Sente,
        sente_hand: vec![Captured::HiFu],
        gote_hand: vec![],
    };
    assert_eq!(apply_movement(M("☗5五飛打"), &occupied), None);

    // an entry of the wrong category
    let wrong = State {
        b: initial_state().b,
        whose_turn: Side::Sente,
        sente_hand: vec![Captured::KinKei],
        gote_hand: vec![],
    };
    assert_eq!(apply_movement(M("☗5三飛打"), &wrong), None);

    // the king has no category, so it can never be dropped
    let king = State {
        b: initial_state().b,
        whose_turn: Side::Sente,
        sente_hand: vec![Captured::KinKei],
        gote_hand: vec![],
    };
    assert_eq!(apply_movement(M("☗3三王打"), &king), None);
}

#[test]
fn drop_consumes_one_entry_and_keeps_the_kind() {
    let s = State {
        b: initial_state().b,
        whose_turn: Side::Sente,
        sente_hand: vec![Captured::HiFu, Captured::HiFu],
        gote_hand: vec![],
    };
    let ns = next_state(&s, "☗5三飛打");
    // the dropped piece keeps its declared kind: no conjugation on drops
    assert_eq!(ns.b.get((col(5), row(3))), Some((Profession::Hi, Side::Sente)));
    assert_eq!(ns.sente_hand, vec![Captured::HiFu]);
    assert_eq!(ns.whose_turn, Side::Gote);
}

#[test]
fn either_form_of_a_pair_can_be_dropped() {
    let s = State {
        b: initial_state().b,
        whose_turn: Side::Sente,
        sente_hand: vec![Captured::KyoTo],
        gote_hand: vec![],
    };
    let ns = next_state(&s, "☗3三と打");
    assert_eq!(ns.b.get((col(3), row(3))), Some((Profession::To, Side::Sente)));
    assert!(ns.sente_hand.is_empty());
}

#[test]
fn second_mover_drop_flips_the_turn() {
    let s = State {
        b: initial_state().b,
        whose_turn: Side::Gote,
        sente_hand: vec![],
        gote_hand: vec![Captured::HiFu],
    };
    let ns = match apply_movement(M("☖5三歩打"), &s).unwrap() {
        StateOrVictory::State(ns) => ns,
        StateOrVictory::Victory(_) => panic!("a drop cannot capture"),
    };
    assert_eq!(ns.whose_turn, Side::Sente);
    assert!(ns.gote_hand.is_empty());
    assert_eq!(ns.b.get((col(5), row(3))), Some((Profession::Fu, Side::Gote)));
}

#[test]
fn fifteen_move_exchange_stays_in_play() {
    let mut state = initial_state();
    let moves = [
        "☗4四玉(35)",
        "☖4二玉(31)",
        "☗5四と(55)",
        "☖5二歩(51)",
        "☗5二香(54)",
        "☖5二玉(42)",
        "☗5三飛打",
        "☖4二玉(52)",
        "☗3四金(25)",
        "☖3二玉(42)",
        "☗5四銀(45)",
        "☖3一玉(32)",
        "☗3三玉(44)",
        "☖4二金(41)",
        "☗4二桂(34)",
    ];
    for (k, mv) in moves.iter().enumerate() {
        state = match apply_movement(M(mv), &state).expect("every move in the line is legal") {
            StateOrVictory::State(ns) => ns,
            StateOrVictory::Victory(w) => panic!("move {} ended the game for {:?}", k + 1, w),
        };
        if k == 4 {
            // the lance took the rook on 5-two: a rook-or-pawn entry
            assert_eq!(state.sente_hand, vec![Captured::HiFu]);
        }
        if k == 5 {
            // the king took back: a lance-or-promoted-lance entry
            assert_eq!(state.gote_hand, vec![Captured::KyoTo]);
        }
        if k == 6 {
            // the rook drop consumed the rook-or-pawn entry
            assert!(state.sente_hand.is_empty());
            assert_eq!(state.b.get((col(5), row(3))), Some((Profession::Hi, Side::Sente)));
        }
    }
    // the final capture took the gold-turned-knight on 4-two, not the king
    assert_eq!(state.b.get((col(4), row(2))), Some((Profession::Kin, Side::Sente)));
    assert_eq!(state.sente_hand, vec![Captured::KinKei]);
    assert_eq!(state.whose_turn, Side::Gote);
    // both kings are still on the board, so play continues
    assert_eq!(state.b.get((col(3), row(1))), Some((Profession::Ou, Side::Gote)));
    assert_eq!(state.b.get((col(3), row(3))), Some((Profession::Ou, Side::Sente)));
}

#[test]
fn prior_state_stays_valid_after_a_move() {
    let s = initial_state();
    let _ = next_state(&s, "☗4四玉(35)");
    // the original position is untouched
    assert_eq!(s, initial_state());
}
