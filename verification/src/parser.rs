//! The move-notation mini-language.
//!
//! A move string is, in fixed order with no whitespace: a side glyph (a
//! display-style or annotation-style variant for each side), a destination
//! column digit '1'..'5', a destination row (kanji numeral or digit), a piece
//! glyph (two glyphs alias to the King), and either the drop glyph or a
//! parenthesised source (column, row) pair. Characters after a structurally
//! complete move are ignored.

use vstd::prelude::*;

use crate::coord::Column;
use crate::coord::Coord;
use crate::coord::Row;
use crate::kinds::Profession;
use crate::kinds::Side;

verus! {

/// A parsed move: who moves, to where, which kind, and from where; an absent
/// source means a drop from the reserve.
#[derive(Copy, Clone, Debug, PartialEq, Eq)]
pub struct Movement {
    pub side: Side,
    pub dst: Coord,
    pub prof: Profession,
    pub src: Option<Coord>,
}

/// The column a digit denotes, if any.
pub open spec fn col_of_char(c: char) -> Option<Column> {
    if c == '1' {
        Some(Column::_1)
    } else if c == '2' {
        Some(Column::_2)
    } else if c == '3' {
        Some(Column::_3)
    } else if c == '4' {
        Some(Column::_4)
    } else if c == '5' {
        Some(Column::_5)
    } else {
        None
    }
}

/// The row a kanji numeral or digit denotes, if any.
pub open spec fn row_of_char(c: char) -> Option<Row> {
    if c == '一' || c == '1' {
        Some(Row::Yi)
    } else if c == '二' || c == '2' {
        Some(Row::Er)
    } else if c == '三' || c == '3' {
        Some(Row::San)
    } else if c == '四' || c == '4' {
        Some(Row::Si)
    } else if c == '五' || c == '5' {
        Some(Row::Wu)
    } else {
        None
    }
}

/// The side a glyph denotes, if any; each side has a display-style and an
/// annotation-style glyph.
pub open spec fn side_of_char(c: char) -> Option<Side> {
    if c == '☗' || c == '▲' {
        Some(Side::Sente)
    } else if c == '☖' || c == '△' {
        Some(Side::Gote)
    } else {
        None
    }
}

/// The piece kind a glyph denotes, if any; two glyphs alias to the King.
pub open spec fn prof_of_char(c: char) -> Option<Profession> {
    if c == '香' {
        Some(Profession::Kyo)
    } else if c == 'と' {
        Some(Profession::To)
    } else if c == '銀' {
        Some(Profession::Gin)
    } else if c == '角' {
        Some(Profession::Kaku)
    } else if c == '金' {
        Some(Profession::Kin)
    } else if c == '桂' {
        Some(Profession::Kei)
    } else if c == '飛' {
        Some(Profession::Hi)
    } else if c == '歩' {
        Some(Profession::Fu)
    } else if c == '王' || c == '玉' {
        Some(Profession::Ou)
    } else {
        None
    }
}

/// The square a (column char, row char) pair denotes, if both are valid.
pub open spec fn parse_coord_spec(a: char, b: char) -> Option<Coord> {
    match col_of_char(a) {
        None => None,
        Some(col) => match row_of_char(b) {
            None => None,
            Some(row) => Some((col, row)),
        },
    }
}

/// The move a character sequence denotes under the notation grammar, or
/// `None` if the sequence is not a structurally complete move. Characters
/// after a complete move are ignored.
pub open spec fn parse_movement_spec(s: Seq<char>) -> Option<Movement> {
    if s.len() < 5 {
        None
    } else {
        match side_of_char(s[0]) {
            None => None,
            Some(side) => match parse_coord_spec(s[1], s[2]) {
                None => None,
                Some(dst) => match prof_of_char(s[3]) {
                    None => None,
                    Some(prof) => if s[4] == '打' {
                        Some(Movement { side, dst, prof, src: None })
                    } else if s[4] == '(' {
                        if s.len() < 8 {
                            None
                        } else {
                            match parse_coord_spec(s[5], s[6]) {
                                None => None,
                                Some(src) => if s[7] == ')' {
                                    Some(Movement { side, dst, prof, src: Some(src) })
                                } else {
                                    None
                                },
                            }
                        }
                    } else {
                        None
                    },
                },
            },
        }
    }
}

/// Parses a (column char, row char) pair into a square.
pub fn parse_coord(a: char, b: char) -> (r: Option<Coord>)
    ensures
        r == parse_coord_spec(a, b),
{
    let col = match a {
        '1' => Column::_1,
        '2' => Column::_2,
        '3' => Column::_3,
        '4' => Column::_4,
        '5' => Column::_5,
        _ => {
            return None;
        },
    };
    let row = match b {
        '一' => Row::Yi,
        '二' => Row::Er,
        '三' => Row::San,
        '四' => Row::Si,
        '五' => Row::Wu,
        '1' => Row::Yi,
        '2' => Row::Er,
        '3' => Row::San,
        '4' => Row::Si,
        '5' => Row::Wu,
        _ => {
            return None;
        },
    };
    Some((col, row))
}

/// Parses a move string under the notation grammar; pure, total, and
/// deterministic: the result is exactly what the grammar assigns to the
/// string's characters, with `None` for every malformed or truncated input.
pub fn parse_movement(s: &str) -> (r: Option<Movement>)
    ensures
        r == parse_movement_spec(s@),
{
    let n = s.unicode_len();
    if n < 5 {
        return None;
    }
    let side = match s.get_char(0) {
        '☗' => Side::Sente,
        '☖' => Side::Gote,
        '▲' => Side::Sente,
        '△' => Side::Gote,
        _ => {
            return None;
        },
    };
    let dst = match parse_coord(s.get_char(1), s.get_char(2)) {
        Some(c) => c,
        None => {
            return None;
        },
    };
    let prof = match s.get_char(3) {
        '香' => Profession::Kyo,
        'と' => Profession::To,
        '銀' => Profession::Gin,
        '角' => Profession::Kaku,
        '金' => Profession::Kin,
        '桂' => Profession::Kei,
        '飛' => Profession::Hi,
        '歩' => Profession::Fu,
        '王' => Profession::Ou,
        '玉' => Profession::Ou,
        _ => {
            return None;
        },
    };
    let src = match s.get_char(4) {
        '打' => None,
        '(' => {
            if n < 8 {
                return None;
            }
            let loc = match parse_coord(s.get_char(5), s.get_char(6)) {
                Some(c) => c,
                None => {
                    return None;
                },
            };
            if s.get_char(7) != ')' {
                return None;
            }
            Some(loc)
        },
        _ => {
            return None;
        },
    };
    Some(Movement { side, dst, prof, src })
}

/// Parses a move string that is known to be well-formed.
pub fn M(s: &str) -> (r: Movement)
    requires
        parse_movement_spec(s@) is Some,
    ensures
        Some(r) == parse_movement_spec(s@),
{
    parse_movement(s).unwrap()
}

} // verus!
