//! The colours of the 256-colour terminal palette.

use vstd::prelude::*;
use crate::decimal::{decimal, decimal_string};

verus! {

/// A colour of the 256-colour palette, named after the terminal's colour
/// chart. The first sixteen are the basic and the light colours; where the
/// chart gives one name to several entries, a trailing letter tells them
/// apart.
#[derive(Clone, Copy, Debug, PartialEq, Eq, Hash)]
pub enum Color {
    Black,
    Red,
    Green,
    Yellow,
    Blue,
    Magenta,
    Cyan,
    LightGray,
    DarkGray,
    LightRed,
    LightGreen,
    LightYellow,
    LightBlue,
    LightMagenta,
    LightCyan,
    White,
    Grey0,
    NavyBlue,
    DarkBlue,
    Blue3A,
    Blue3B,
    Blue1,
    DarkGreen,
    DeepSkyBlue4A,
    DeepSkyBlue4B,
    DeepSkyBlue4C,
    DodgerBlue3,
    DodgerBlue2,
    Green4,
    SpringGreen4,
    Turquoise4,
    DeepSkyBlue3A,
    DeepSkyBlue3B,
    DodgerBlue1,
    Green3A,
    SpringGreen3A,
    DarkCyan,
    LightSeaGreen,
    DeepSkyBlue2,
    DeepSkyBlue1,
    Green3B,
    SpringGreen3B,
    SpringGreen2A,
    Cyan3,
    DarkTurquoise,
    Turquoise2,
    Green1,
    SpringGreen2B,
    SpringGreen1,
    MediumSpringGreen,
    Cyan2,
    Cyan1,
    DarkRedA,
    DeepPink4A,
    Purple4A,
    Purple4B,
    Purple3,
    BlueViolet,
    Orange4A,
    Grey37,
    MediumPurple4,
    SlateBlue3A,
    SlateBlue3B,
    RoyalBlue1,
    Chartreuse4,
    DarkSeaGreen4A,
    PaleTurquoise4,
    SteelBlue,
    SteelBlue3,
    CornflowerBlue,
    Chartreuse3A,
    DarkSeaGreen4B,
    CadetBlueA,
    CadetBlueB,
    SkyBlue3,
    SteelBlue1A,
    Chartreuse3B,
    PaleGreen3A,
    SeaGreen3,
    Aquamarine3,
    MediumTurquoise,
    SteelBlue1B,
    Chartreuse2A,
    SeaGreen2,
    SeaGreen1A,
    SeaGreen1B,
    Aquamarine1A,
    DarkSlateGray2,
    DarkRedB,
    DeepPink4B,
    DarkMagentaA,
    DarkMagentaB,
    DarkVioletA,
    PurpleA,
    Orange4B,
    LightPink4,
    Plum4,
    MediumPurple3A,
    MediumPurple3B,
    SlateBlue1,
    Yellow4A,
    Wheat4,
    Grey53,
    LightSlateGrey,
    MediumPurple,
    LightSlateBlue,
    Yellow4B,
    DarkOliveGreen3A,
    DarkSeaGreen,
    LightSkyBlue3A,
    LightSkyBlue3B,
    SkyBlue2,
    Chartreuse2B,
    DarkOliveGreen3B,
    PaleGreen3B,
    DarkSeaGreen3A,
    DarkSlateGray3,
    SkyBlue1,
    Chartreuse1,
    LightGreenA,
    LightGreenB,
    PaleGreen1A,
    Aquamarine1B,
    DarkSlateGray1,
    Red3A,
    DeepPink4C,
    MediumVioletRed,
    Magenta3A,
    DarkVioletB,
    PurpleB,
    DarkOrange3A,
    IndianRedA,
    HotPink3A,
    MediumOrchid3,
    MediumOrchid,
    MediumPurple2A,
    DarkGoldenrod,
    LightSalmon3A,
    RosyBrown,
    Grey63,
    MediumPurple2B,
    MediumPurple1,
    Gold3A,
    DarkKhaki,
    NavajoWhite3,
    Grey69,
    LightSteelBlue3,
    LightSteelBlue,
    Yellow3A,
    DarkOliveGreen3C,
    DarkSeaGreen3B,
    DarkSeaGreen2A,
    LightCyan3,
    LightSkyBlue1,
    GreenYellow,
    DarkOliveGreen2,
    PaleGreen1B,
    DarkSeaGreen2B,
    DarkSeaGreen1A,
    PaleTurquoise1,
    Red3B,
    DeepPink3A,
    DeepPink3B,
    Magenta3B,
    Magenta3C,
    Magenta2A,
    DarkOrange3B,
    IndianRedB,
    HotPink3B,
    HotPink2,
    Orchid,
    MediumOrchid1A,
    Orange3,
    LightSalmon3B,
    LightPink3,
    Pink3,
    Plum3,
    Violet,
    Gold3B,
    LightGoldenrod3,
    Tan,
    MistyRose3,
    Thistle3,
    Plum2,
    Yellow3B,
    Khaki3,
    LightGoldenrod2A,
    LightYellow3,
    Grey84,
    LightSteelBlue1,
    Yellow2,
    DarkOliveGreen1A,
    DarkOliveGreen1B,
    DarkSeaGreen1B,
    Honeydew2,
    LightCyan1,
    Red1,
    DeepPink2,
    DeepPink1A,
    DeepPink1B,
    Magenta2B,
    Magenta1,
    OrangeRed1,
    IndianRed1A,
    IndianRed1B,
    HotPinkA,
    HotPinkB,
    MediumOrchid1B,
    DarkOrange,
    Salmon1,
    LightCoral,
    PaleVioletRed1,
    Orchid2,
    Orchid1,
    Orange1,
    SandyBrown,
    LightSalmon1,
    LightPink1,
    Pink1,
    Plum1,
    Gold1,
    LightGoldenrod2B,
    LightGoldenrod2C,
    NavajoWhite1,
    MistyRose1,
    Thistle1,
    Yellow1,
    LightGoldenrod1,
    Khaki1,
    Wheat1,
    Cornsilk1,
    Grey100,
    Grey3,
    Grey7,
    Grey11,
    Grey15,
    Grey19,
    Grey23,
    Grey27,
    Grey30,
    Grey35,
    Grey39,
    Grey42,
    Grey46,
    Grey50,
    Grey54,
    Grey58,
    Grey62,
    Grey66,
    Grey70,
    Grey74,
    Grey78,
    Grey82,
    Grey85,
    Grey89,
    Grey93,
}

impl Color {
    /// The position of this colour in the palette.
    pub open spec fn index(self) -> nat {
        match self {
            Color::Black => 0,
            Color::Red => 1,
            Color::Green => 2,
            Color::Yellow => 3,
            Color::Blue => 4,
            Color::Magenta => 5,
            Color::Cyan => 6,
            Color::LightGray => 7,
            Color::DarkGray => 8,
            Color::LightRed => 9,
            Color::LightGreen => 10,
            Color::LightYellow => 11,
            Color::LightBlue => 12,
            Color::LightMagenta => 13,
            Color::LightCyan => 14,
            Color::White => 15,
            Color::Grey0 => 16,
            Color::NavyBlue => 17,
            Color::DarkBlue => 18,
            Color::Blue3A => 19,
            Color::Blue3B => 20,
            Color::Blue1 => 21,
            Color::DarkGreen => 22,
            Color::DeepSkyBlue4A => 23,
            Color::DeepSkyBlue4B => 24,
            Color::DeepSkyBlue4C => 25,
            Color::DodgerBlue3 => 26,
            Color::DodgerBlue2 => 27,
            Color::Green4 => 28,
            Color::SpringGreen4 => 29,
            Color::Turquoise4 => 30,
            Color::DeepSkyBlue3A => 31,
            Color::DeepSkyBlue3B => 32,
            Color::DodgerBlue1 => 33,
            Color::Green3A => 34,
            Color::SpringGreen3A => 35,
            Color::DarkCyan => 36,
            Color::LightSeaGreen => 37,
            Color::DeepSkyBlue2 => 38,
            Color::DeepSkyBlue1 => 39,
            Color::Green3B => 40,
            Color::SpringGreen3B => 41,
            Color::SpringGreen2A => 42,
            Color::Cyan3 => 43,
            Color::DarkTurquoise => 44,
            Color::Turquoise2 => 45,
            Color::Green1 => 46,
            Color::SpringGreen2B => 47,
            Color::SpringGreen1 => 48,
            Color::MediumSpringGreen => 49,
            Color::Cyan2 => 50,
            Color::Cyan1 => 51,
            Color::DarkRedA => 52,
            Color::DeepPink4A => 53,
            Color::Purple4A => 54,
            Color::Purple4B => 55,
            Color::Purple3 => 56,
            Color::BlueViolet => 57,
            Color::Orange4A => 58,
            Color::Grey37 => 59,
            Color::MediumPurple4 => 60,
            Color::SlateBlue3A => 61,
            Color::SlateBlue3B => 62,
            Color::RoyalBlue1 => 63,
            Color::Chartreuse4 => 64,
            Color::DarkSeaGreen4A => 65,
            Color::PaleTurquoise4 => 66,
            Color::SteelBlue => 67,
            Color::SteelBlue3 => 68,
            Color::CornflowerBlue => 69,
            Color::Chartreuse3A => 70,
            Color::DarkSeaGreen4B => 71,
            Color::CadetBlueA => 72,
            Color::CadetBlueB => 73,
            Color::SkyBlue3 => 74,
            Color::SteelBlue1A => 75,
            Color::Chartreuse3B => 76,
            Color::PaleGreen3A => 77,
            Color::SeaGreen3 => 78,
            Color::Aquamarine3 => 79,
            Color::MediumTurquoise => 80,
            Color::SteelBlue1B => 81,
            Color::Chartreuse2A => 82,
            Color::SeaGreen2 => 83,
            Color::SeaGreen1A => 84,
            Color::SeaGreen1B => 85,
            Color::Aquamarine1A => 86,
            Color::DarkSlateGray2 => 87,
            Color::DarkRedB => 88,
            Color::DeepPink4B => 89,
            Color::DarkMagentaA => 90,
            Color::DarkMagentaB => 91,
            Color::DarkVioletA => 92,
            Color::PurpleA => 93,
            Color::Orange4B => 94,
            Color::LightPink4 => 95,
            Color::Plum4 => 96,
            Color::MediumPurple3A => 97,
            Color::MediumPurple3B => 98,
            Color::SlateBlue1 => 99,
            Color::Yellow4A => 100,
            Color::Wheat4 => 101,
            Color::Grey53 => 102,
            Color::LightSlateGrey => 103,
            Color::MediumPurple => 104,
            Color::LightSlateBlue => 105,
            Color::Yellow4B => 106,
            Color::DarkOliveGreen3A => 107,
            Color::DarkSeaGreen => 108,
            Color::LightSkyBlue3A => 109,
            Color::LightSkyBlue3B => 110,
            Color::SkyBlue2 => 111,
            Color::Chartreuse2B => 112,
            Color::DarkOliveGreen3B => 113,
            Color::PaleGreen3B => 114,
            Color::DarkSeaGreen3A => 115,
            Color::DarkSlateGray3 => 116,
            Color::SkyBlue1 => 117,
            Color::Chartreuse1 => 118,
            Color::LightGreenA => 119,
            Color::LightGreenB => 120,
            Color::PaleGreen1A => 121,
            Color::Aquamarine1B => 122,
            Color::DarkSlateGray1 => 123,
            Color::Red3A => 124,
            Color::DeepPink4C => 125,
            Color::MediumVioletRed => 126,
            Color::Magenta3A => 127,
            Color::DarkVioletB => 128,
            Color::PurpleB => 129,
            Color::DarkOrange3A => 130,
            Color::IndianRedA => 131,
            Color::HotPink3A => 132,
            Color::MediumOrchid3 => 133,
            Color::MediumOrchid => 134,
            Color::MediumPurple2A => 135,
            Color::DarkGoldenrod => 136,
            Color::LightSalmon3A => 137,
            Color::RosyBrown => 138,
            Color::Grey63 => 139,
            Color::MediumPurple2B => 140,
            Color::MediumPurple1 => 141,
            Color::Gold3A => 142,
            Color::DarkKhaki => 143,
            Color::NavajoWhite3 => 144,
            Color::Grey69 => 145,
            Color::LightSteelBlue3 => 146,
            Color::LightSteelBlue => 147,
            Color::Yellow3A => 148,
            Color::DarkOliveGreen3C => 149,
            Color::DarkSeaGreen3B => 150,
            Color::DarkSeaGreen2A => 151,
            Color::LightCyan3 => 152,
            Color::LightSkyBlue1 => 153,
            Color::GreenYellow => 154,
            Color::DarkOliveGreen2 => 155,
            Color::PaleGreen1B => 156,
            Color::DarkSeaGreen2B => 157,
            Color::DarkSeaGreen1A => 158,
            Color::PaleTurquoise1 => 159,
            Color::Red3B => 160,
            Color::DeepPink3A => 161,
            Color::DeepPink3B => 162,
            Color::Magenta3B => 163,
            Color::Magenta3C => 164,
            Color::Magenta2A => 165,
            Color::DarkOrange3B => 166,
            Color::IndianRedB => 167,
            Color::HotPink3B => 168,
            Color::HotPink2 => 169,
            Color::Orchid => 170,
            Color::MediumOrchid1A => 171,
            Color::Orange3 => 172,
            Color::LightSalmon3B => 173,
            Color::LightPink3 => 174,
            Color::Pink3 => 175,
            Color::Plum3 => 176,
            Color::Violet => 177,
            Color::Gold3B => 178,
            Color::LightGoldenrod3 => 179,
            Color::Tan => 180,
            Color::MistyRose3 => 181,
            Color::Thistle3 => 182,
            Color::Plum2 => 183,
            Color::Yellow3B => 184,
            Color::Khaki3 => 185,
            Color::LightGoldenrod2A => 186,
            Color::LightYellow3 => 187,
            Color::Grey84 => 188,
            Color::LightSteelBlue1 => 189,
            Color::Yellow2 => 190,
            Color::DarkOliveGreen1A => 191,
            Color::DarkOliveGreen1B => 192,
            Color::DarkSeaGreen1B => 193,
            Color::Honeydew2 => 194,
            Color::LightCyan1 => 195,
            Color::Red1 => 196,
            Color::DeepPink2 => 197,
            Color::DeepPink1A => 198,
            Color::DeepPink1B => 199,
            Color::Magenta2B => 200,
            Color::Magenta1 => 201,
            Color::OrangeRed1 => 202,
            Color::IndianRed1A => 203,
            Color::IndianRed1B => 204,
            Color::HotPinkA => 205,
            Color::HotPinkB => 206,
            Color::MediumOrchid1B => 207,
            Color::DarkOrange => 208,
            Color::Salmon1 => 209,
            Color::LightCoral => 210,
            Color::PaleVioletRed1 => 211,
            Color::Orchid2 => 212,
            Color::Orchid1 => 213,
            Color::Orange1 => 214,
            Color::SandyBrown => 215,
            Color::LightSalmon1 => 216,
            Color::LightPink1 => 217,
            Color::Pink1 => 218,
            Color::Plum1 => 219,
            Color::Gold1 => 220,
            Color::LightGoldenrod2B => 221,
            Color::LightGoldenrod2C => 222,
            Color::NavajoWhite1 => 223,
            Color::MistyRose1 => 224,
            Color::Thistle1 => 225,
            Color::Yellow1 => 226,
            Color::LightGoldenrod1 => 227,
            Color::Khaki1 => 228,
            Color::Wheat1 => 229,
            Color::Cornsilk1 => 230,
            Color::Grey100 => 231,
            Color::Grey3 => 232,
            Color::Grey7 => 233,
            Color::Grey11 => 234,
            Color::Grey15 => 235,
            Color::Grey19 => 236,
            Color::Grey23 => 237,
            Color::Grey27 => 238,
            Color::Grey30 => 239,
            Color::Grey35 => 240,
            Color::Grey39 => 241,
            Color::Grey42 => 242,
            Color::Grey46 => 243,
            Color::Grey50 => 244,
            Color::Grey54 => 245,
            Color::Grey58 => 246,
            Color::Grey62 => 247,
            Color::Grey66 => 248,
            Color::Grey70 => 249,
            Color::Grey74 => 250,
            Color::Grey78 => 251,
            Color::Grey82 => 252,
            Color::Grey85 => 253,
            Color::Grey89 => 254,
            Color::Grey93 => 255,
        }
    }

    /// The palette index that selects this colour.
    pub fn code(&self) -> (c: u8)
        ensures
            c as nat == self.index(),
    {
        match self {
            Color::Black => 0,
            Color::Red => 1,
            Color::Green => 2,
            Color::Yellow => 3,
            Color::Blue => 4,
            Color::Magenta => 5,
            Color::Cyan => 6,
            Color::LightGray => 7,
            Color::DarkGray => 8,
            Color::LightRed => 9,
            Color::LightGreen => 10,
            Color::LightYellow => 11,
            Color::LightBlue => 12,
            Color::LightMagenta => 13,
            Color::LightCyan => 14,
            Color::White => 15,
            Color::Grey0 => 16,
            Color::NavyBlue => 17,
            Color::DarkBlue => 18,
            Color::Blue3A => 19,
            Color::Blue3B => 20,
            Color::Blue1 => 21,
            Color::DarkGreen => 22,
            Color::DeepSkyBlue4A => 23,
            Color::DeepSkyBlue4B => 24,
            Color::DeepSkyBlue4C => 25,
            Color::DodgerBlue3 => 26,
            Color::DodgerBlue2 => 27,
            Color::Green4 => 28,
            Color::SpringGreen4 => 29,
            Color::Turquoise4 => 30,
            Color::DeepSkyBlue3A => 31,
            Color::DeepSkyBlue3B => 32,
            Color::DodgerBlue1 => 33,
            Color::Green3A => 34,
            Color::SpringGreen3A => 35,
            Color::DarkCyan => 36,
            Color::LightSeaGreen => 37,
            Color::DeepSkyBlue2 => 38,
            Color::DeepSkyBlue1 => 39,
            Color::Green3B => 40,
            Color::SpringGreen3B => 41,
            Color::SpringGreen2A => 42,
            Color::Cyan3 => 43,
            Color::DarkTurquoise => 44,
            Color::Turquoise2 => 45,
            Color::Green1 => 46,
            Color::SpringGreen2B => 47,
            Color::SpringGreen1 => 48,
            Color::MediumSpringGreen => 49,
            Color::Cyan2 => 50,
            Color::Cyan1 => 51,
            Color::DarkRedA => 52,
            Color::DeepPink4A => 53,
            Color::Purple4A => 54,
            Color::Purple4B => 55,
            Color::Purple3 => 56,
            Color::BlueViolet => 57,
            Color::Orange4A => 58,
            Color::Grey37 => 59,
            Color::MediumPurple4 => 60,
            Color::SlateBlue3A => 61,
            Color::SlateBlue3B => 62,
            Color::RoyalBlue1 => 63,
            Color::Chartreuse4 => 64,
            Color::DarkSeaGreen4A => 65,
            Color::PaleTurquoise4 => 66,
            Color::SteelBlue => 67,
            Color::SteelBlue3 => 68,
            Color::CornflowerBlue => 69,
            Color::Chartreuse3A => 70,
            Color::DarkSeaGreen4B => 71,
            Color::CadetBlueA => 72,
            Color::CadetBlueB => 73,
            Color::SkyBlue3 => 74,
            Color::SteelBlue1A => 75,
            Color::Chartreuse3B => 76,
            Color::PaleGreen3A => 77,
            Color::SeaGreen3 => 78,
            Color::Aquamarine3 => 79,
            Color::MediumTurquoise => 80,
            Color::SteelBlue1B => 81,
            Color::Chartreuse2A => 82,
            Color::SeaGreen2 => 83,
            Color::SeaGreen1A => 84,
            Color::SeaGreen1B => 85,
            Color::Aquamarine1A => 86,
            Color::DarkSlateGray2 => 87,
            Color::DarkRedB => 88,
            Color::DeepPink4B => 89,
            Color::DarkMagentaA => 90,
            Color::DarkMagentaB => 91,
            Color::DarkVioletA => 92,
            Color::PurpleA => 93,
            Color::Orange4B => 94,
            Color::LightPink4 => 95,
            Color::Plum4 => 96,
            Color::MediumPurple3A => 97,
            Color::MediumPurple3B => 98,
            Color::SlateBlue1 => 99,
            Color::Yellow4A => 100,
            Color::Wheat4 => 101,
            Color::Grey53 => 102,
            Color::LightSlateGrey => 103,
            Color::MediumPurple => 104,
            Color::LightSlateBlue => 105,
            Color::Yellow4B => 106,
            Color::DarkOliveGreen3A => 107,
            Color::DarkSeaGreen => 108,
            Color::LightSkyBlue3A => 109,
            Color::LightSkyBlue3B => 110,
            Color::SkyBlue2 => 111,
            Color::Chartreuse2B => 112,
            Color::DarkOliveGreen3B => 113,
            Color::PaleGreen3B => 114,
            Color::DarkSeaGreen3A => 115,
            Color::DarkSlateGray3 => 116,
            Color::SkyBlue1 => 117,
            Color::Chartreuse1 => 118,
            Color::LightGreenA => 119,
            Color::LightGreenB => 120,
            Color::PaleGreen1A => 121,
            Color::Aquamarine1B => 122,
            Color::DarkSlateGray1 => 123,
            Color::Red3A => 124,
            Color::DeepPink4C => 125,
            Color::MediumVioletRed => 126,
            Color::Magenta3A => 127,
            Color::DarkVioletB => 128,
            Color::PurpleB => 129,
            Color::DarkOrange3A => 130,
            Color::IndianRedA => 131,
            Color::HotPink3A => 132,
            Color::MediumOrchid3 => 133,
            Color::MediumOrchid => 134,
            Color::MediumPurple2A => 135,
            Color::DarkGoldenrod => 136,
            Color::LightSalmon3A => 137,
            Color::RosyBrown => 138,
            Color::Grey63 => 139,
            Color::MediumPurple2B => 140,
            Color::MediumPurple1 => 141,
            Color::Gold3A => 142,
            Color::DarkKhaki => 143,
            Color::NavajoWhite3 => 144,
            Color::Grey69 => 145,
            Color::LightSteelBlue3 => 146,
            Color::LightSteelBlue => 147,
            Color::Yellow3A => 148,
            Color::DarkOliveGreen3C => 149,
            Color::DarkSeaGreen3B => 150,
            Color::DarkSeaGreen2A => 151,
            Color::LightCyan3 => 152,
            Color::LightSkyBlue1 => 153,
            Color::GreenYellow => 154,
            Color::DarkOliveGreen2 => 155,
            Color::PaleGreen1B => 156,
            Color::DarkSeaGreen2B => 157,
            Color::DarkSeaGreen1A => 158,
            Color::PaleTurquoise1 => 159,
            Color::Red3B => 160,
            Color::DeepPink3A => 161,
            Color::DeepPink3B => 162,
            Color::Magenta3B => 163,
            Color::Magenta3C => 164,
            Color::Magenta2A => 165,
            Color::DarkOrange3B => 166,
            Color::IndianRedB => 167,
            Color::HotPink3B => 168,
            Color::HotPink2 => 169,
            Color::Orchid => 170,
            Color::MediumOrchid1A => 171,
            Color::Orange3 => 172,
            Color::LightSalmon3B => 173,
            Color::LightPink3 => 174,
            Color::Pink3 => 175,
            Color::Plum3 => 176,
            Color::Violet => 177,
            Color::Gold3B => 178,
            Color::LightGoldenrod3 => 179,
            Color::Tan => 180,
            Color::MistyRose3 => 181,
            Color::Thistle3 => 182,
            Color::Plum2 => 183,
            Color::Yellow3B => 184,
            Color::Khaki3 => 185,
            Color::LightGoldenrod2A => 186,
            Color::LightYellow3 => 187,
            Color::Grey84 => 188,
            Color::LightSteelBlue1 => 189,
            Color::Yellow2 => 190,
            Color::DarkOliveGreen1A => 191,
            Color::DarkOliveGreen1B => 192,
            Color::DarkSeaGreen1B => 193,
            Color::Honeydew2 => 194,
            Color::LightCyan1 => 195,
            Color::Red1 => 196,
            Color::DeepPink2 => 197,
            Color::DeepPink1A => 198,
            Color::DeepPink1B => 199,
            Color::Magenta2B => 200,
            Color::Magenta1 => 201,
            Color::OrangeRed1 => 202,
            Color::IndianRed1A => 203,
            Color::IndianRed1B => 204,
            Color::HotPinkA => 205,
            Color::HotPinkB => 206,
            Color::MediumOrchid1B => 207,
            Color::DarkOrange => 208,
            Color::Salmon1 => 209,
            Color::LightCoral => 210,
            Color::PaleVioletRed1 => 211,
            Color::Orchid2 => 212,
            Color::Orchid1 => 213,
            Color::Orange1 => 214,
            Color::SandyBrown => 215,
            Color::LightSalmon1 => 216,
            Color::LightPink1 => 217,
            Color::Pink1 => 218,
            Color::Plum1 => 219,
            Color::Gold1 => 220,
            Color::LightGoldenrod2B => 221,
            Color::LightGoldenrod2C => 222,
            Color::NavajoWhite1 => 223,
            Color::MistyRose1 => 224,
            Color::Thistle1 => 225,
            Color::Yellow1 => 226,
            Color::LightGoldenrod1 => 227,
            Color::Khaki1 => 228,
            Color::Wheat1 => 229,
            Color::Cornsilk1 => 230,
            Color::Grey100 => 231,
            Color::Grey3 => 232,
            Color::Grey7 => 233,
            Color::Grey11 => 234,
            Color::Grey15 => 235,
            Color::Grey19 => 236,
            Color::Grey23 => 237,
            Color::Grey27 => 238,
            Color::Grey30 => 239,
            Color::Grey35 => 240,
            Color::Grey39 => 241,
            Color::Grey42 => 242,
            Color::Grey46 => 243,
            Color::Grey50 => 244,
            Color::Grey54 => 245,
            Color::Grey58 => 246,
            Color::Grey62 => 247,
            Color::Grey66 => 248,
            Color::Grey70 => 249,
            Color::Grey74 => 250,
            Color::Grey78 => 251,
            Color::Grey82 => 252,
            Color::Grey85 => 253,
            Color::Grey89 => 254,
            Color::Grey93 => 255,
        }
    }

    /// The palette index in decimal notation, as it stands in an escape
    /// sequence.
    pub fn to_str(&self) -> (s: String)
        ensures
            s@ == decimal(self.index()),
    {
        decimal_string(self.code())
    }
}

/// Every colour has a palette index below 256.
pub proof fn lemma_index_in_palette(c: Color)
    ensures
        c.index() < 256,
{
}

/// No two colours share a palette index.
pub proof fn lemma_index_unique(a: Color, b: Color)
    requires
        a.index() == b.index(),
    ensures
        a == b,
{
}

} // verus!
