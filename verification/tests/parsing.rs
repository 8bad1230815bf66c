use kyoto_ginkaku::Column;
use kyoto_ginkaku::M;
use kyoto_ginkaku::Profession;
use kyoto_ginkaku::Row;
use kyoto_ginkaku::Side;
use kyoto_ginkaku::parse_movement;

#[test]
fn it_works() {
    parse_movement("☗4四玉(35)").unwrap();
}

#[test]
fn parses_board_move_fields() {
    let m = M("☗4四玉(35)");
    assert_eq!(m.side, Side::Sente);
    assert_eq!(m.dst, (Column::_4, Row::Si));
    assert_eq!(m.prof, Profession::Ou);
    assert_eq!(m.src, Some((Column::_3, Row::Wu)));
}

#[test]
fn parses_drop_fields() {
    let m = M("☗5三飛打");
    assert_eq!(m.side, Side::Sente);
    assert_eq!(m.dst, (Column::_5, Row::San));
    assert_eq!(m.prof, Profession::Hi);
    assert_eq!(m.src, None);
}

#[test]
fn both_side_glyph_styles_parse_alike() {
    assert_eq!(M("☗4四玉(35)"), M("▲4四玉(35)"));
    assert_eq!(M("☖4二玉(31)"), M("△4二玉(31)"));
    assert_eq!(M("☖4二玉(31)").side, Side::Gote);
}

#[test]
fn kanji_and_digit_rows_parse_alike() {
    assert_eq!(M("☗4四玉(35)"), M("☗44玉(3五)"));
}

#[test]
fn king_glyphs_alias() {
    assert_eq!(M("☗4四玉(35)").prof, Profession::Ou);
    assert_eq!(M("☗4四王(35)").prof, Profession::Ou);
}

#[test]
fn trailing_characters_are_ignored() {
    assert_eq!(M("☗5三飛打です"), M("☗5三飛打"));
    assert_eq!(M("☗4四玉(35)!!"), M("☗4四玉(35)"));
}

#[test]
fn malformed_moves_fail() {
    assert_eq!(parse_movement(""), None);
    assert_eq!(parse_movement("☗"), None);
    assert_eq!(parse_movement("☗4"), None);
    assert_eq!(parse_movement("☗4四"), None);
    assert_eq!(parse_movement("☗4四玉"), None);
    // unknown side glyph
    assert_eq!(parse_movement("x4四玉打"), None);
    // column out of range
    assert_eq!(parse_movement("☗6四玉打"), None);
    assert_eq!(parse_movement("☗0四玉打"), None);
    // unknown row glyph
    assert_eq!(parse_movement("☗4六玉打"), None);
    // unknown piece glyph
    assert_eq!(parse_movement("☗4四馬打"), None);
    // neither drop glyph nor parenthesis
    assert_eq!(parse_movement("☗4四玉x35)"), None);
    // truncated source
    assert_eq!(parse_movement("☗4四玉("), None);
    assert_eq!(parse_movement("☗4四玉(3"), None);
    assert_eq!(parse_movement("☗4四玉(35"), None);
    // unmatched closing parenthesis
    assert_eq!(parse_movement("☗4四玉(35x"), None);
    // bad source coordinate
    assert_eq!(parse_movement("☗4四玉(85)"), None);
}
