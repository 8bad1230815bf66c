//! Piece kinds, capture categories, and the two sides.

use vstd::prelude::*;

verus! {

/// The nine piece kinds. Each non-King kind belongs to one of four conjugate
/// pairs (Kyo/To, Gin/Kaku, Kin/Kei, Hi/Fu); the King (Ou) is self-conjugate.
#[derive(Copy, Clone, Debug, PartialEq, Eq, Structural)]
pub enum Profession {
    Kyo,
    To,
    Gin,
    Kaku,
    Kin,
    Kei,
    Hi,
    Fu,
    Ou,
}

/// The four reserve categories. A captured non-King piece loses its specific
/// identity and collapses to its pair's category.
#[derive(Copy, Clone, Debug, PartialEq, Eq, Structural)]
pub enum Captured {
    KyoTo,
    GinKaku,
    KinKei,
    HiFu,
}

/// The two players: Sente moves first, Gote second.
#[derive(Copy, Clone, Debug, PartialEq, Eq, Structural)]
pub enum Side {
    Sente,
    Gote,
}

/// The conjugate of a kind: the other member of its pair; the King is fixed.
pub open spec fn conjugate_spec(p: Profession) -> Profession {
    match p {
        Profession::Kyo => Profession::To,
        Profession::To => Profession::Kyo,
        Profession::Gin => Profession::Kaku,
        Profession::Kaku => Profession::Gin,
        Profession::Kin => Profession::Kei,
        Profession::Kei => Profession::Kin,
        Profession::Hi => Profession::Fu,
        Profession::Fu => Profession::Hi,
        Profession::Ou => Profession::Ou,
    }
}

/// The reserve category of a kind; the King has none (its capture ends the
/// game instead of entering a reserve).
pub open spec fn category_spec(p: Profession) -> Option<Captured> {
    match p {
        Profession::Kyo => Some(Captured::KyoTo),
        Profession::To => Some(Captured::KyoTo),
        Profession::Gin => Some(Captured::GinKaku),
        Profession::Kaku => Some(Captured::GinKaku),
        Profession::Kin => Some(Captured::KinKei),
        Profession::Kei => Some(Captured::KinKei),
        Profession::Hi => Some(Captured::HiFu),
        Profession::Fu => Some(Captured::HiFu),
        Profession::Ou => None,
    }
}

/// The opponent of a side.
pub open spec fn opposite_spec(s: Side) -> Side {
    match s {
        Side::Sente => Side::Gote,
        Side::Gote => Side::Sente,
    }
}

impl Profession {
    /// The paired alternate form this kind converts into when it moves.
    pub fn conjugate(self) -> (r: Profession)
        ensures
            r == conjugate_spec(self),
    {
        match self {
            Profession::Kyo => Profession::To,
            Profession::To => Profession::Kyo,
            Profession::Gin => Profession::Kaku,
            Profession::Kaku => Profession::Gin,
            Profession::Kin => Profession::Kei,
            Profession::Kei => Profession::Kin,
            Profession::Hi => Profession::Fu,
            Profession::Fu => Profession::Hi,
            Profession::Ou => Profession::Ou,
        }
    }

    /// The reserve category a captured piece of this kind joins; `None` for
    /// the King.
    pub fn to_captured(self) -> (r: Option<Captured>)
        ensures
            r == category_spec(self),
    {
        match self {
            Profession::Kyo => Some(Captured::KyoTo),
            Profession::To => Some(Captured::KyoTo),
            Profession::Gin => Some(Captured::GinKaku),
            Profession::Kaku => Some(Captured::GinKaku),
            Profession::Kin => Some(Captured::KinKei),
            Profession::Kei => Some(Captured::KinKei),
            Profession::Hi => Some(Captured::HiFu),
            Profession::Fu => Some(Captured::HiFu),
            Profession::Ou => None,
        }
    }
}

impl Side {
    /// The opponent of this side.
    pub fn opposite(self) -> (r: Side)
        ensures
            r == opposite_spec(self),
    {
        match self {
            Side::Sente => Side::Gote,
            Side::Gote => Side::Sente,
        }
    }
}

/// Conjugation is an involution: applying it twice returns the original kind,
/// and the King is its own conjugate. Two kinds share a capture category
/// exactly when they are conjugates of one another or equal.
pub proof fn lemma_conjugate_involutive(p: Profession)
    ensures
        conjugate_spec(conjugate_spec(p)) == p,
        conjugate_spec(Profession::Ou) == Profession::Ou,
        category_spec(conjugate_spec(p)) == category_spec(p),
{
}

/// The opponent operation is an involution and never fixes a side.
pub proof fn lemma_opposite_involutive(s: Side)
    ensures
        opposite_spec(opposite_spec(s)) == s,
        opposite_spec(s) != s,
{
}

} // verus!
