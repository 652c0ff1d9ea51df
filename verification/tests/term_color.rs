use term_color::{colors_16_sequence, colors_256_sequence, true_colors_sequence};
use term_color::{Color, TermColor};

fn all_colors() -> Vec<Color> {
    vec![
        Color::Reset,
        Color::Red,
        Color::Green,
        Color::Gray,
        Color::Yellow,
        Color::Orange,
        Color::Blue,
        Color::Purple,
        Color::Cyan,
        Color::RedBg,
        Color::YellowBg,
        Color::OrangeBg,
        Color::NonText,
        Color::Invert,
    ]
}

fn all_tiers() -> Vec<TermColor> {
    vec![TermColor::TrueColors, TermColor::Colors256, TermColor::Colors16]
}

#[test]
fn true_colors_table() {
    let t = TermColor::TrueColors;
    assert_eq!(
        t.sequence(Color::Reset),
        b"\x1b[39;0m\x1b[38;2;251;241;199m\x1b[48;2;40;40;40m".to_vec()
    );
    assert_eq!(t.sequence(Color::Red), b"\x1b[38;2;251;73;52m".to_vec());
    assert_eq!(t.sequence(Color::Green), b"\x1b[38;2;184;187;38m".to_vec());
    assert_eq!(t.sequence(Color::Gray), b"\x1b[38;2;168;153;132m".to_vec());
    assert_eq!(t.sequence(Color::Yellow), b"\x1b[38;2;250;189;47m".to_vec());
    assert_eq!(t.sequence(Color::Orange), b"\x1b[38;2;254;128;25m".to_vec());
    assert_eq!(t.sequence(Color::Blue), b"\x1b[38;2;131;165;152m".to_vec());
    assert_eq!(t.sequence(Color::Purple), b"\x1b[38;2;211;134;155m".to_vec());
    assert_eq!(t.sequence(Color::Cyan), b"\x1b[38;2;142;192;124m".to_vec());
    assert_eq!(
        t.sequence(Color::RedBg),
        b"\x1b[38;2;251;241;199m\x1b[48;2;204;36;29m".to_vec()
    );
    assert_eq!(
        t.sequence(Color::YellowBg),
        b"\x1b[38;2;40;40;40m\x1b[48;2;215;153;33m".to_vec()
    );
    assert_eq!(
        t.sequence(Color::OrangeBg),
        b"\x1b[38;2;40;40;40m\x1b[48;2;214;93;14m".to_vec()
    );
    assert_eq!(t.sequence(Color::NonText), b"\x1b[38;2;102;92;84m".to_vec());
    assert_eq!(t.sequence(Color::Invert), b"\x1b[7m".to_vec());
}

#[test]
fn colors_256_table() {
    let t = TermColor::Colors256;
    assert_eq!(
        t.sequence(Color::Reset),
        b"\x1b[39;0m\x1b[38;5;230m\x1b[48;5;235m".to_vec()
    );
    assert_eq!(t.sequence(Color::Red), b"\x1b[38;5;167m".to_vec());
    assert_eq!(t.sequence(Color::Green), b"\x1b[38;5;142m".to_vec());
    assert_eq!(t.sequence(Color::Gray), b"\x1b[38;5;246m".to_vec());
    assert_eq!(t.sequence(Color::Yellow), b"\x1b[38;5;214m".to_vec());
    assert_eq!(t.sequence(Color::Orange), b"\x1b[38;5;208m".to_vec());
    assert_eq!(t.sequence(Color::Blue), b"\x1b[38;5;109m".to_vec());
    assert_eq!(t.sequence(Color::Purple), b"\x1b[38;5;175m".to_vec());
    assert_eq!(t.sequence(Color::Cyan), b"\x1b[38;5;108m".to_vec());
    assert_eq!(
        t.sequence(Color::RedBg),
        b"\x1b[38;5;230m\x1b[48;5;124m".to_vec()
    );
    assert_eq!(
        t.sequence(Color::YellowBg),
        b"\x1b[38;5;235m\x1b[48;5;214m".to_vec()
    );
    assert_eq!(
        t.sequence(Color::OrangeBg),
        b"\x1b[38;5;235m\x1b[48;5;166m".to_vec()
    );
    assert_eq!(t.sequence(Color::NonText), b"\x1b[38;5;241m".to_vec());
    assert_eq!(t.sequence(Color::Invert), b"\x1b[7m".to_vec());
}

#[test]
fn colors_16_table() {
    let t = TermColor::Colors16;
    assert_eq!(t.sequence(Color::Reset), b"\x1b[39;0m".to_vec());
    assert_eq!(t.sequence(Color::Red), b"\x1b[91m".to_vec());
    assert_eq!(t.sequence(Color::Green), b"\x1b[32m".to_vec());
    assert_eq!(t.sequence(Color::Gray), b"\x1b[90m".to_vec());
    assert_eq!(t.sequence(Color::Yellow), b"\x1b[93m".to_vec());
    assert_eq!(t.sequence(Color::Orange), b"\x1b[33m".to_vec());
    assert_eq!(t.sequence(Color::Blue), b"\x1b[94m".to_vec());
    assert_eq!(t.sequence(Color::Purple), b"\x1b[95m".to_vec());
    assert_eq!(t.sequence(Color::Cyan), b"\x1b[96m".to_vec());
    assert_eq!(t.sequence(Color::RedBg), b"\x1b[97m\x1b[41m".to_vec());
    assert_eq!(t.sequence(Color::YellowBg), b"\x1b[103m\x1b[30m".to_vec());
    assert_eq!(t.sequence(Color::OrangeBg), b"\x1b[107m\x1b[30m".to_vec());
    assert_eq!(t.sequence(Color::NonText), b"\x1b[37m".to_vec());
    assert_eq!(t.sequence(Color::Invert), b"\x1b[7m".to_vec());
}

#[test]
fn standalone_tables_match_dispatch() {
    for color in all_colors() {
        assert_eq!(TermColor::TrueColors.sequence(color), true_colors_sequence(color));
        assert_eq!(TermColor::Colors256.sequence(color), colors_256_sequence(color));
        assert_eq!(TermColor::Colors16.sequence(color), colors_16_sequence(color));
    }
}

#[test]
fn every_pair_nonempty_and_deterministic() {
    for tier in all_tiers() {
        for color in all_colors() {
            let first = tier.sequence(color);
            let second = tier.sequence(color);
            assert!(!first.is_empty());
            assert_eq!(first, second);
        }
    }
}

#[test]
fn background_fill_variants() {
    for color in all_colors() {
        let expected = matches!(color, Color::RedBg | Color::YellowBg | Color::OrangeBg);
        assert_eq!(color.has_bg_color(), expected);
    }
}

#[test]
fn detect_truecolor_wins_over_database() {
    assert_eq!(
        TermColor::detect(Some("truecolor".to_string()), None),
        TermColor::TrueColors
    );
    assert_eq!(
        TermColor::detect(Some("truecolor".to_string()), Some(256)),
        TermColor::TrueColors
    );
    assert_eq!(
        TermColor::detect(Some("truecolor".to_string()), Some(8)),
        TermColor::TrueColors
    );
}

#[test]
fn detect_non_matching_variable_falls_through() {
    assert_eq!(
        TermColor::detect(Some("24bit".to_string()), Some(256)),
        TermColor::Colors256
    );
    assert_eq!(
        TermColor::detect(Some("TRUECOLOR".to_string()), None),
        TermColor::Colors16
    );
    assert_eq!(
        TermColor::detect(Some(String::new()), Some(88)),
        TermColor::Colors16
    );
}

#[test]
fn detect_database_reports_256() {
    assert_eq!(TermColor::detect(None, Some(256)), TermColor::Colors256);
}

#[test]
fn detect_conservative_default() {
    assert_eq!(TermColor::detect(None, None), TermColor::Colors16);
    assert_eq!(TermColor::detect(None, Some(8)), TermColor::Colors16);
    assert_eq!(TermColor::detect(None, Some(88)), TermColor::Colors16);
    assert_eq!(TermColor::detect(None, Some(16777216)), TermColor::Colors16);
}

#[test]
fn scenario_truecolor_session() {
    let tier = TermColor::detect(Some("truecolor".to_string()), Some(8));
    assert_eq!(tier, TermColor::TrueColors);
    assert_eq!(tier.sequence(Color::Red), b"\x1b[38;2;251;73;52m".to_vec());
}

#[test]
fn scenario_256_color_session() {
    let tier = TermColor::detect(None, Some(256));
    assert_eq!(tier, TermColor::Colors256);
    let invert = tier.sequence(Color::Invert);
    assert_eq!(invert, b"\x1b[7m".to_vec());
    assert_eq!(invert, TermColor::TrueColors.sequence(Color::Invert));
    assert_eq!(invert, TermColor::Colors16.sequence(Color::Invert));
}

#[test]
fn scenario_no_database_session() {
    let tier = TermColor::detect(None, None);
    assert_eq!(tier, TermColor::Colors16);
    assert_eq!(tier.sequence(Color::OrangeBg), b"\x1b[107m\x1b[30m".to_vec());
}

#[test]
fn reset_is_never_a_bare_attribute_clear() {
    for tier in all_tiers() {
        let reset = tier.sequence(Color::Reset);
        assert!(reset.starts_with(b"\x1b[39;0m"));
        assert_ne!(reset, b"\x1b[0m".to_vec());
    }
}
