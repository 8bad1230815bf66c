use kyoto_ginkaku::Captured;
use kyoto_ginkaku::Profession;
use kyoto_ginkaku::Side;
use kyoto_ginkaku::State;
use kyoto_ginkaku::initial_state;
use kyoto_ginkaku::render_board;
use kyoto_ginkaku::render_state;

#[test]
fn renders_the_initial_board() {
    let s = initial_state();
    let line = "-－－-－－-－－-－－-－－-\n";
    let blank = "|　　|　　|　　|　　|　　|\n";
    let expected = format!(
        "{}|歩↓|金↓|王↓|銀↓|と↓|\n{}{}{}{}{}{}{}|と↑|銀↑|王↑|金↑|歩↑|\n{}",
        line, line, blank, line, blank, line, blank, line, line
    );
    assert_eq!(render_board(&s.b), expected);
}

#[test]
fn renders_reserves_above_and_below() {
    let s = State {
        b: initial_state().b,
        whose_turn: Side::Sente,
        sente_hand: vec![Captured::HiFu, Captured::KyoTo],
        gote_hand: vec![Captured::GinKaku],
    };
    let text = render_state(&s);
    assert!(text.starts_with("銀角 \n"));
    assert!(text.ends_with("飛歩 香と \n"));
}

#[test]
fn rendering_is_repeatable_and_does_not_mutate() {
    let s = initial_state();
    let first = render_state(&s);
    let second = render_state(&s);
    assert_eq!(first, second);
    assert_eq!(s, initial_state());
    assert_eq!(render_board(&s.b), render_board(&s.b));
}

#[test]
fn glyphs_of_kinds_and_categories() {
    assert_eq!(Profession::Kyo.serialize(), "香");
    assert_eq!(Profession::Ou.serialize(), "王");
    assert_eq!(Captured::HiFu.serialize(), "飛歩");
    assert_eq!(Side::Sente.serialize(), "↑");
    assert_eq!(Side::Gote.serialize(), "↓");
}
