use colorful::ansi::{Color, Style, Symbol};
use colorful::decimal::{decimal_string, push_decimal};

fn palette() -> Vec<Color> {
    vec![
        Color::Black, Color::Red, Color::Green, Color::Yellow,
        Color::Blue, Color::Magenta, Color::Cyan, Color::LightGray,
        Color::DarkGray, Color::LightRed, Color::LightGreen, Color::LightYellow,
        Color::LightBlue, Color::LightMagenta, Color::LightCyan, Color::White,
        Color::Grey0, Color::NavyBlue, Color::DarkBlue, Color::Blue3A,
        Color::Blue3B, Color::Blue1, Color::DarkGreen, Color::DeepSkyBlue4A,
        Color::DeepSkyBlue4B, Color::DeepSkyBlue4C, Color::DodgerBlue3, Color::DodgerBlue2,
        Color::Green4, Color::SpringGreen4, Color::Turquoise4, Color::DeepSkyBlue3A,
        Color::DeepSkyBlue3B, Color::DodgerBlue1, Color::Green3A, Color::SpringGreen3A,
        Color::DarkCyan, Color::LightSeaGreen, Color::DeepSkyBlue2, Color::DeepSkyBlue1,
        Color::Green3B, Color::SpringGreen3B, Color::SpringGreen2A, Color::Cyan3,
        Color::DarkTurquoise, Color::Turquoise2, Color::Green1, Color::SpringGreen2B,
        Color::SpringGreen1, Color::MediumSpringGreen, Color::Cyan2, Color::Cyan1,
        Color::DarkRedA, Color::DeepPink4A, Color::Purple4A, Color::Purple4B,
        Color::Purple3, Color::BlueViolet, Color::Orange4A, Color::Grey37,
        Color::MediumPurple4, Color::SlateBlue3A, Color::SlateBlue3B, Color::RoyalBlue1,
        Color::Chartreuse4, Color::DarkSeaGreen4A, Color::PaleTurquoise4, Color::SteelBlue,
        Color::SteelBlue3, Color::CornflowerBlue, Color::Chartreuse3A, Color::DarkSeaGreen4B,
        Color::CadetBlueA, Color::CadetBlueB, Color::SkyBlue3, Color::SteelBlue1A,
        Color::Chartreuse3B, Color::PaleGreen3A, Color::SeaGreen3, Color::Aquamarine3,
        Color::MediumTurquoise, Color::SteelBlue1B, Color::Chartreuse2A, Color::SeaGreen2,
        Color::SeaGreen1A, Color::SeaGreen1B, Color::Aquamarine1A, Color::DarkSlateGray2,
        Color::DarkRedB, Color::DeepPink4B, Color::DarkMagentaA, Color::DarkMagentaB,
        Color::DarkVioletA, Color::PurpleA, Color::Orange4B, Color::LightPink4,
        Color::Plum4, Color::MediumPurple3A, Color::MediumPurple3B, Color::SlateBlue1,
        Color::Yellow4A, Color::Wheat4, Color::Grey53, Color::LightSlateGrey,
        Color::MediumPurple, Color::LightSlateBlue, Color::Yellow4B, Color::DarkOliveGreen3A,
        Color::DarkSeaGreen, Color::LightSkyBlue3A, Color::LightSkyBlue3B, Color::SkyBlue2,
        Color::Chartreuse2B, Color::DarkOliveGreen3B, Color::PaleGreen3B, Color::DarkSeaGreen3A,
        Color::DarkSlateGray3, Color::SkyBlue1, Color::Chartreuse1, Color::LightGreenA,
        Color::LightGreenB, Color::PaleGreen1A, Color::Aquamarine1B, Color::DarkSlateGray1,
        Color::Red3A, Color::DeepPink4C, Color::MediumVioletRed, Color::Magenta3A,
        Color::DarkVioletB, Color::PurpleB, Color::DarkOrange3A, Color::IndianRedA,
        Color::HotPink3A, Color::MediumOrchid3, Color::MediumOrchid, Color::MediumPurple2A,
        Color::DarkGoldenrod, Color::LightSalmon3A, Color::RosyBrown, Color::Grey63,
        Color::MediumPurple2B, Color::MediumPurple1, Color::Gold3A, Color::DarkKhaki,
        Color::NavajoWhite3, Color::Grey69, Color::LightSteelBlue3, Color::LightSteelBlue,
        Color::Yellow3A, Color::DarkOliveGreen3C, Color::DarkSeaGreen3B, Color::DarkSeaGreen2A,
        Color::LightCyan3, Color::LightSkyBlue1, Color::GreenYellow, Color::DarkOliveGreen2,
        Color::PaleGreen1B, Color::DarkSeaGreen2B, Color::DarkSeaGreen1A, Color::PaleTurquoise1,
        Color::Red3B, Color::DeepPink3A, Color::DeepPink3B, Color::Magenta3B,
        Color::Magenta3C, Color::Magenta2A, Color::DarkOrange3B, Color::IndianRedB,
        Color::HotPink3B, Color::HotPink2, Color::Orchid, Color::MediumOrchid1A,
        Color::Orange3, Color::LightSalmon3B, Color::LightPink3, Color::Pink3,
        Color::Plum3, Color::Violet, Color::Gold3B, Color::LightGoldenrod3,
        Color::Tan, Color::MistyRose3, Color::Thistle3, Color::Plum2,
        Color::Yellow3B, Color::Khaki3, Color::LightGoldenrod2A, Color::LightYellow3,
        Color::Grey84, Color::LightSteelBlue1, Color::Yellow2, Color::DarkOliveGreen1A,
        Color::DarkOliveGreen1B, Color::DarkSeaGreen1B, Color::Honeydew2, Color::LightCyan1,
        Color::Red1, Color::DeepPink2, Color::DeepPink1A, Color::DeepPink1B,
        Color::Magenta2B, Color::Magenta1, Color::OrangeRed1, Color::IndianRed1A,
        Color::IndianRed1B, Color::HotPinkA, Color::HotPinkB, Color::MediumOrchid1B,
        Color::DarkOrange, Color::Salmon1, Color::LightCoral, Color::PaleVioletRed1,
        Color::Orchid2, Color::Orchid1, Color::Orange1, Color::SandyBrown,
        Color::LightSalmon1, Color::LightPink1, Color::Pink1, Color::Plum1,
        Color::Gold1, Color::LightGoldenrod2B, Color::LightGoldenrod2C, Color::NavajoWhite1,
        Color::MistyRose1, Color::Thistle1, Color::Yellow1, Color::LightGoldenrod1,
        Color::Khaki1, Color::Wheat1, Color::Cornsilk1, Color::Grey100,
        Color::Grey3, Color::Grey7, Color::Grey11, Color::Grey15,
        Color::Grey19, Color::Grey23, Color::Grey27, Color::Grey30,
        Color::Grey35, Color::Grey39, Color::Grey42, Color::Grey46,
        Color::Grey50, Color::Grey54, Color::Grey58, Color::Grey62,
        Color::Grey66, Color::Grey70, Color::Grey74, Color::Grey78,
        Color::Grey82, Color::Grey85, Color::Grey89, Color::Grey93,
    ]
}

#[test]
fn palette_has_one_color_for_each_index() {
    let all = palette();
    assert_eq!(256, all.len());
    for (position, color) in all.iter().enumerate() {
        assert_eq!(position, color.code() as usize);
    }
}

#[test]
fn palette_index_is_written_in_decimal() {
    for color in palette() {
        assert_eq!(format!("{}", color.code()), color.to_str());
    }
}

#[test]
fn basic_colors_have_the_first_sixteen_indices() {
    assert_eq!(0, Color::Black.code());
    assert_eq!(1, Color::Red.code());
    assert_eq!(2, Color::Green.code());
    assert_eq!(3, Color::Yellow.code());
    assert_eq!(4, Color::Blue.code());
    assert_eq!(5, Color::Magenta.code());
    assert_eq!(6, Color::Cyan.code());
    assert_eq!(7, Color::LightGray.code());
    assert_eq!(8, Color::DarkGray.code());
    assert_eq!(9, Color::LightRed.code());
    assert_eq!(10, Color::LightGreen.code());
    assert_eq!(11, Color::LightYellow.code());
    assert_eq!(12, Color::LightBlue.code());
    assert_eq!(13, Color::LightMagenta.code());
    assert_eq!(14, Color::LightCyan.code());
    assert_eq!(15, Color::White.code());
}

#[test]
fn extended_colors_have_their_chart_indices() {
    assert_eq!(16, Color::Grey0.code());
    assert_eq!(220, Color::Gold1.code());
    assert_eq!(231, Color::Grey100.code());
    assert_eq!(232, Color::Grey3.code());
    assert_eq!(255, Color::Grey93.code());
}

#[test]
fn color_to_str_gives_the_index_digits() {
    assert_eq!("0".to_owned(), Color::Black.to_str());
    assert_eq!("1".to_owned(), Color::Red.to_str());
    assert_eq!("16".to_owned(), Color::Grey0.to_str());
    assert_eq!("220".to_owned(), Color::Gold1.to_str());
    assert_eq!("255".to_owned(), Color::Grey93.to_str());
}

#[test]
fn style_codes_are_the_rendition_parameters() {
    assert_eq!(1, Style::Bold.code());
    assert_eq!(2, Style::Dim.code());
    assert_eq!(4, Style::Underlined.code());
    assert_eq!(5, Style::Blink.code());
    assert_eq!(7, Style::Reverse.code());
    assert_eq!(8, Style::Hidden.code());
}

#[test]
fn style_to_string_gives_the_parameter_digits() {
    assert_eq!("1".to_owned(), Style::Bold.to_string());
    assert_eq!("2".to_owned(), Style::Dim.to_string());
    assert_eq!("4".to_owned(), Style::Underlined.to_string());
    assert_eq!("5".to_owned(), Style::Blink.to_string());
    assert_eq!("7".to_owned(), Style::Reverse.to_string());
    assert_eq!("8".to_owned(), Style::Hidden.to_string());
}

#[test]
fn style_codes_are_distinct() {
    let all = vec![
        Style::Bold,
        Style::Dim,
        Style::Underlined,
        Style::Blink,
        Style::Reverse,
        Style::Hidden,
    ];
    for (i, a) in all.iter().enumerate() {
        for (j, b) in all.iter().enumerate() {
            assert_eq!(i == j, a.code() == b.code());
        }
    }
}

#[test]
fn symbols_are_the_escape_fragments() {
    assert_eq!("m", Symbol::Mode.to_str());
    assert_eq!(";", Symbol::Semicolon.to_str());
    assert_eq!("[", Symbol::LeftBrackets.to_str());
    assert_eq!("\x1B", Symbol::Esc.to_str());
    assert_eq!("\x1B[0m", Symbol::Reset.to_str());
    assert_eq!("\x1B[38;5;", Symbol::Screen256Foreground.to_str());
    assert_eq!("\x1B[48;5;", Symbol::Screen256Background.to_str());
}

#[test]
fn decimal_has_no_leading_zero() {
    assert_eq!("0".to_owned(), decimal_string(0));
    assert_eq!("7".to_owned(), decimal_string(7));
    assert_eq!("9".to_owned(), decimal_string(9));
    assert_eq!("10".to_owned(), decimal_string(10));
    assert_eq!("42".to_owned(), decimal_string(42));
    assert_eq!("99".to_owned(), decimal_string(99));
    assert_eq!("100".to_owned(), decimal_string(100));
    assert_eq!("101".to_owned(), decimal_string(101));
    assert_eq!("110".to_owned(), decimal_string(110));
    assert_eq!("200".to_owned(), decimal_string(200));
    assert_eq!("255".to_owned(), decimal_string(255));
}

#[test]
fn decimal_agrees_with_the_formatter_on_every_byte() {
    for n in 0..=255u8 {
        assert_eq!(format!("{}", n), decimal_string(n));
    }
}

#[test]
fn push_decimal_appends_to_what_is_there() {
    let mut out = "x=".to_owned();
    push_decimal(&mut out, 38);
    assert_eq!("x=38".to_owned(), out);
    push_decimal(&mut out, 5);
    assert_eq!("x=385".to_owned(), out);
    push_decimal(&mut out, 0);
    assert_eq!("x=3850".to_owned(), out);
}
