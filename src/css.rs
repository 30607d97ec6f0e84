//! CSS named colors. They render as direct (24-bit) colors.

use vstd::prelude::*;

use crate::rgb::RgbColor;

verus! {

/// A named CSS color
#[derive(Clone, Copy, Debug, PartialEq, Eq, Hash, Structural)]
pub enum CssColor {
    AliceBlue,
    AntiqueWhite,
    Aqua,
    Aquamarine,
    Azure,
    Beige,
    Bisque,
    Black,
    BlanchedAlmond,
    Blue,
    BlueViolet,
    Brown,
    BurlyWood,
    CadetBlue,
    Chartreuse,
    Chocolate,
    Coral,
    CornflowerBlue,
    Cornsilk,
    Crimson,
    DarkBlue,
    DarkCyan,
    DarkGoldenRod,
    DarkGray,
    DarkGrey,
    DarkGreen,
    DarkKhaki,
    DarkMagenta,
    DarkOliveGreen,
    DarkOrange,
    DarkOrchid,
    DarkRed,
    DarkSalmon,
    DarkSeaGreen,
    DarkSlateBlue,
    DarkSlateGray,
    DarkSlateGrey,
    DarkTurquoise,
    DarkViolet,
    DeepPink,
    DeepSkyBlue,
    DimGray,
    DimGrey,
    DodgerBlue,
    FireBrick,
    FloralWhite,
    ForestGreen,
    Fuchsia,
    Gainsboro,
    GhostWhite,
    Gold,
    GoldenRod,
    Gray,
    Grey,
    Green,
    GreenYellow,
    HoneyDew,
    HotPink,
    IndianRed,
    Indigo,
    Ivory,
    Khaki,
    Lavender,
    LavenderBlush,
    LawnGreen,
    LemonChiffon,
    LightBlue,
    LightCoral,
    LightCyan,
    LightGoldenRodYellow,
    LightGray,
    LightGrey,
    LightGreen,
    LightPink,
    LightSalmon,
    LightSeaGreen,
    LightSkyBlue,
    LightSlateGray,
    LightSlateGrey,
    LightSteelBlue,
    LightYellow,
    Lime,
    LimeGreen,
    Linen,
    Magenta,
    Maroon,
    MediumAquaMarine,
    MediumBlue,
    MediumOrchid,
    MediumPurple,
    MediumSeaGreen,
    MediumSlateBlue,
    MediumSpringGreen,
    MediumTurquoise,
    MediumVioletRed,
    MidnightBlue,
    MintCream,
    MistyRose,
    Moccasin,
    NavajoWhite,
    Navy,
    OldLace,
    Olive,
    OliveDrab,
    Orange,
    OrangeRed,
    Orchid,
    PaleGoldenRod,
    PaleGreen,
    PaleTurquoise,
    PaleVioletRed,
    PapayaWhip,
    PeachPuff,
    Peru,
    Pink,
    Plum,
    PowderBlue,
    Purple,
    RebeccaPurple,
    Red,
    RosyBrown,
    RoyalBlue,
    SaddleBrown,
    Salmon,
    SandyBrown,
    SeaGreen,
    SeaShell,
    Sienna,
    Silver,
    SkyBlue,
    SlateBlue,
    SlateGray,
    SlateGrey,
    Snow,
    SpringGreen,
    SteelBlue,
    Tan,
    Teal,
    Thistle,
    Tomato,
    Turquoise,
    Violet,
    Wheat,
    White,
    WhiteSmoke,
    Yellow,
    YellowGreen,
}

impl CssColor {
    /// The channels of this named color.
    pub open spec fn rgb(self) -> RgbColor {
        match self {
            CssColor::AliceBlue => RgbColor { red: 240, green: 248, blue: 255 },
            CssColor::AntiqueWhite => RgbColor { red: 250, green: 235, blue: 215 },
            CssColor::Aqua => RgbColor { red: 0, green: 255, blue: 255 },
            CssColor::Aquamarine => RgbColor { red: 127, green: 255, blue: 212 },
            CssColor::Azure => RgbColor { red: 240, green: 255, blue: 255 },
            CssColor::Beige => RgbColor { red: 245, green: 245, blue: 220 },
            CssColor::Bisque => RgbColor { red: 255, green: 228, blue: 196 },
            CssColor::Black => RgbColor { red: 0, green: 0, blue: 0 },
            CssColor::BlanchedAlmond => RgbColor { red: 255, green: 235, blue: 205 },
            CssColor::Blue => RgbColor { red: 0, green: 0, blue: 255 },
            CssColor::BlueViolet => RgbColor { red: 138, green: 43, blue: 226 },
            CssColor::Brown => RgbColor { red: 165, green: 42, blue: 42 },
            CssColor::BurlyWood => RgbColor { red: 222, green: 184, blue: 135 },
            CssColor::CadetBlue => RgbColor { red: 95, green: 158, blue: 160 },
            CssColor::Chartreuse => RgbColor { red: 127, green: 255, blue: 0 },
            CssColor::Chocolate => RgbColor { red: 210, green: 105, blue: 30 },
            CssColor::Coral => RgbColor { red: 255, green: 127, blue: 80 },
            CssColor::CornflowerBlue => RgbColor { red: 100, green: 149, blue: 237 },
            CssColor::Cornsilk => RgbColor { red: 255, green: 248, blue: 220 },
            CssColor::Crimson => RgbColor { red: 220, green: 20, blue: 60 },
            CssColor::DarkBlue => RgbColor { red: 0, green: 0, blue: 139 },
            CssColor::DarkCyan => RgbColor { red: 0, green: 139, blue: 139 },
            CssColor::DarkGoldenRod => RgbColor { red: 184, green: 134, blue: 11 },
            CssColor::DarkGray => RgbColor { red: 169, green: 169, blue: 169 },
            CssColor::DarkGrey => RgbColor { red: 169, green: 169, blue: 169 },
            CssColor::DarkGreen => RgbColor { red: 0, green: 100, blue: 0 },
            CssColor::DarkKhaki => RgbColor { red: 189, green: 183, blue: 107 },
            CssColor::DarkMagenta => RgbColor { red: 139, green: 0, blue: 139 },
            CssColor::DarkOliveGreen => RgbColor { red: 85, green: 107, blue: 47 },
            CssColor::DarkOrange => RgbColor { red: 255, green: 140, blue: 0 },
            CssColor::DarkOrchid => RgbColor { red: 153, green: 50, blue: 204 },
            CssColor::DarkRed => RgbColor { red: 139, green: 0, blue: 0 },
            CssColor::DarkSalmon => RgbColor { red: 233, green: 150, blue: 122 },
            CssColor::DarkSeaGreen => RgbColor { red: 143, green: 188, blue: 143 },
            CssColor::DarkSlateBlue => RgbColor { red: 72, green: 61, blue: 139 },
            CssColor::DarkSlateGray => RgbColor { red: 47, green: 79, blue: 79 },
            CssColor::DarkSlateGrey => RgbColor { red: 47, green: 79, blue: 79 },
            CssColor::DarkTurquoise => RgbColor { red: 0, green: 206, blue: 209 },
            CssColor::DarkViolet => RgbColor { red: 148, green: 0, blue: 211 },
            CssColor::DeepPink => RgbColor { red: 255, green: 20, blue: 147 },
            CssColor::DeepSkyBlue => RgbColor { red: 0, green: 191, blue: 255 },
            CssColor::DimGray => RgbColor { red: 105, green: 105, blue: 105 },
            CssColor::DimGrey => RgbColor { red: 105, green: 105, blue: 105 },
            CssColor::DodgerBlue => RgbColor { red: 30, green: 144, blue: 255 },
            CssColor::FireBrick => RgbColor { red: 178, green: 34, blue: 34 },
            CssColor::FloralWhite => RgbColor { red: 255, green: 250, blue: 240 },
            CssColor::ForestGreen => RgbColor { red: 34, green: 139, blue: 34 },
            CssColor::Fuchsia => RgbColor { red: 255, green: 0, blue: 255 },
            CssColor::Gainsboro => RgbColor { red: 220, green: 220, blue: 220 },
            CssColor::GhostWhite => RgbColor { red: 248, green: 248, blue: 255 },
            CssColor::Gold => RgbColor { red: 255, green: 215, blue: 0 },
            CssColor::GoldenRod => RgbColor { red: 218, green: 165, blue: 32 },
            CssColor::Gray => RgbColor { red: 128, green: 128, blue: 128 },
            CssColor::Grey => RgbColor { red: 128, green: 128, blue: 128 },
            CssColor::Green => RgbColor { red: 0, green: 128, blue: 0 },
            CssColor::GreenYellow => RgbColor { red: 173, green: 255, blue: 47 },
            CssColor::HoneyDew => RgbColor { red: 240, green: 255, blue: 240 },
            CssColor::HotPink => RgbColor { red: 255, green: 105, blue: 180 },
            CssColor::IndianRed => RgbColor { red: 205, green: 92, blue: 92 },
            CssColor::Indigo => RgbColor { red: 75, green: 0, blue: 130 },
            CssColor::Ivory => RgbColor { red: 255, green: 255, blue: 240 },
            CssColor::Khaki => RgbColor { red: 240, green: 230, blue: 140 },
            CssColor::Lavender => RgbColor { red: 230, green: 230, blue: 250 },
            CssColor::LavenderBlush => RgbColor { red: 255, green: 240, blue: 245 },
            CssColor::LawnGreen => RgbColor { red: 124, green: 252, blue: 0 },
            CssColor::LemonChiffon => RgbColor { red: 255, green: 250, blue: 205 },
            CssColor::LightBlue => RgbColor { red: 173, green: 216, blue: 230 },
            CssColor::LightCoral => RgbColor { red: 240, green: 128, blue: 128 },
            CssColor::LightCyan => RgbColor { red: 224, green: 255, blue: 255 },
            CssColor::LightGoldenRodYellow => RgbColor { red: 250, green: 250, blue: 210 },
            CssColor::LightGray => RgbColor { red: 211, green: 211, blue: 211 },
            CssColor::LightGrey => RgbColor { red: 211, green: 211, blue: 211 },
            CssColor::LightGreen => RgbColor { red: 144, green: 238, blue: 144 },
            CssColor::LightPink => RgbColor { red: 255, green: 182, blue: 193 },
            CssColor::LightSalmon => RgbColor { red: 255, green: 160, blue: 122 },
            CssColor::LightSeaGreen => RgbColor { red: 32, green: 178, blue: 170 },
            CssColor::LightSkyBlue => RgbColor { red: 135, green: 206, blue: 250 },
            CssColor::LightSlateGray => RgbColor { red: 119, green: 136, blue: 153 },
            CssColor::LightSlateGrey => RgbColor { red: 119, green: 136, blue: 153 },
            CssColor::LightSteelBlue => RgbColor { red: 176, green: 196, blue: 222 },
            CssColor::LightYellow => RgbColor { red: 255, green: 255, blue: 224 },
            CssColor::Lime => RgbColor { red: 0, green: 255, blue: 0 },
            CssColor::LimeGreen => RgbColor { red: 50, green: 205, blue: 50 },
            CssColor::Linen => RgbColor { red: 250, green: 240, blue: 230 },
            CssColor::Magenta => RgbColor { red: 255, green: 0, blue: 255 },
            CssColor::Maroon => RgbColor { red: 128, green: 0, blue: 0 },
            CssColor::MediumAquaMarine => RgbColor { red: 102, green: 205, blue: 170 },
            CssColor::MediumBlue => RgbColor { red: 0, green: 0, blue: 205 },
            CssColor::MediumOrchid => RgbColor { red: 186, green: 85, blue: 211 },
            CssColor::MediumPurple => RgbColor { red: 147, green: 112, blue: 219 },
            CssColor::MediumSeaGreen => RgbColor { red: 60, green: 179, blue: 113 },
            CssColor::MediumSlateBlue => RgbColor { red: 123, green: 104, blue: 238 },
            CssColor::MediumSpringGreen => RgbColor { red: 0, green: 250, blue: 154 },
            CssColor::MediumTurquoise => RgbColor { red: 72, green: 209, blue: 204 },
            CssColor::MediumVioletRed => RgbColor { red: 199, green: 21, blue: 133 },
            CssColor::MidnightBlue => RgbColor { red: 25, green: 25, blue: 112 },
            CssColor::MintCream => RgbColor { red: 245, green: 255, blue: 250 },
            CssColor::MistyRose => RgbColor { red: 255, green: 228, blue: 225 },
            CssColor::Moccasin => RgbColor { red: 255, green: 228, blue: 181 },
            CssColor::NavajoWhite => RgbColor { red: 255, green: 222, blue: 173 },
            CssColor::Navy => RgbColor { red: 0, green: 0, blue: 128 },
            CssColor::OldLace => RgbColor { red: 253, green: 245, blue: 230 },
            CssColor::Olive => RgbColor { red: 128, green: 128, blue: 0 },
            CssColor::OliveDrab => RgbColor { red: 107, green: 142, blue: 35 },
            CssColor::Orange => RgbColor { red: 255, green: 165, blue: 0 },
            CssColor::OrangeRed => RgbColor { red: 255, green: 69, blue: 0 },
            CssColor::Orchid => RgbColor { red: 218, green: 112, blue: 214 },
            CssColor::PaleGoldenRod => RgbColor { red: 238, green: 232, blue: 170 },
            CssColor::PaleGreen => RgbColor { red: 152, green: 251, blue: 152 },
            CssColor::PaleTurquoise => RgbColor { red: 175, green: 238, blue: 238 },
            CssColor::PaleVioletRed => RgbColor { red: 219, green: 112, blue: 147 },
            CssColor::PapayaWhip => RgbColor { red: 255, green: 239, blue: 213 },
            CssColor::PeachPuff => RgbColor { red: 255, green: 218, blue: 185 },
            CssColor::Peru => RgbColor { red: 205, green: 133, blue: 63 },
            CssColor::Pink => RgbColor { red: 255, green: 192, blue: 203 },
            CssColor::Plum => RgbColor { red: 221, green: 160, blue: 221 },
            CssColor::PowderBlue => RgbColor { red: 176, green: 224, blue: 230 },
            CssColor::Purple => RgbColor { red: 128, green: 0, blue: 128 },
            CssColor::RebeccaPurple => RgbColor { red: 102, green: 51, blue: 153 },
            CssColor::Red => RgbColor { red: 255, green: 0, blue: 0 },
            CssColor::RosyBrown => RgbColor { red: 188, green: 143, blue: 143 },
            CssColor::RoyalBlue => RgbColor { red: 65, green: 105, blue: 225 },
            CssColor::SaddleBrown => RgbColor { red: 139, green: 69, blue: 19 },
            CssColor::Salmon => RgbColor { red: 250, green: 128, blue: 114 },
            CssColor::SandyBrown => RgbColor { red: 244, green: 164, blue: 96 },
            CssColor::SeaGreen => RgbColor { red: 46, green: 139, blue: 87 },
            CssColor::SeaShell => RgbColor { red: 255, green: 245, blue: 238 },
            CssColor::Sienna => RgbColor { red: 160, green: 82, blue: 45 },
            CssColor::Silver => RgbColor { red: 192, green: 192, blue: 192 },
            CssColor::SkyBlue => RgbColor { red: 135, green: 206, blue: 235 },
            CssColor::SlateBlue => RgbColor { red: 106, green: 90, blue: 205 },
            CssColor::SlateGray => RgbColor { red: 112, green: 128, blue: 144 },
            CssColor::SlateGrey => RgbColor { red: 112, green: 128, blue: 144 },
            CssColor::Snow => RgbColor { red: 255, green: 250, blue: 250 },
            CssColor::SpringGreen => RgbColor { red: 0, green: 255, blue: 127 },
            CssColor::SteelBlue => RgbColor { red: 70, green: 130, blue: 180 },
            CssColor::Tan => RgbColor { red: 210, green: 180, blue: 140 },
            CssColor::Teal => RgbColor { red: 0, green: 128, blue: 128 },
            CssColor::Thistle => RgbColor { red: 216, green: 191, blue: 216 },
            CssColor::Tomato => RgbColor { red: 255, green: 99, blue: 71 },
            CssColor::Turquoise => RgbColor { red: 64, green: 224, blue: 208 },
            CssColor::Violet => RgbColor { red: 238, green: 130, blue: 238 },
            CssColor::Wheat => RgbColor { red: 245, green: 222, blue: 179 },
            CssColor::White => RgbColor { red: 255, green: 255, blue: 255 },
            CssColor::WhiteSmoke => RgbColor { red: 245, green: 245, blue: 245 },
            CssColor::Yellow => RgbColor { red: 255, green: 255, blue: 0 },
            CssColor::YellowGreen => RgbColor { red: 154, green: 205, blue: 50 },
        }
    }

    /// The channels of this named color
    pub fn to_rgb(self) -> (r: RgbColor)
        ensures
            r == self.rgb(),
    {
        match self {
            CssColor::AliceBlue => RgbColor { red: 240, green: 248, blue: 255 },
            CssColor::AntiqueWhite => RgbColor { red: 250, green: 235, blue: 215 },
            CssColor::Aqua => RgbColor { red: 0, green: 255, blue: 255 },
            CssColor::Aquamarine => RgbColor { red: 127, green: 255, blue: 212 },
            CssColor::Azure => RgbColor { red: 240, green: 255, blue: 255 },
            CssColor::Beige => RgbColor { red: 245, green: 245, blue: 220 },
            CssColor::Bisque => RgbColor { red: 255, green: 228, blue: 196 },
            CssColor::Black => RgbColor { red: 0, green: 0, blue: 0 },
            CssColor::BlanchedAlmond => RgbColor { red: 255, green: 235, blue: 205 },
            CssColor::Blue => RgbColor { red: 0, green: 0, blue: 255 },
            CssColor::BlueViolet => RgbColor { red: 138, green: 43, blue: 226 },
            CssColor::Brown => RgbColor { red: 165, green: 42, blue: 42 },
            CssColor::BurlyWood => RgbColor { red: 222, green: 184, blue: 135 },
            CssColor::CadetBlue => RgbColor { red: 95, green: 158, blue: 160 },
            CssColor::Chartreuse => RgbColor { red: 127, green: 255, blue: 0 },
            CssColor::Chocolate => RgbColor { red: 210, green: 105, blue: 30 },
            CssColor::Coral => RgbColor { red: 255, green: 127, blue: 80 },
            CssColor::CornflowerBlue => RgbColor { red: 100, green: 149, blue: 237 },
            CssColor::Cornsilk => RgbColor { red: 255, green: 248, blue: 220 },
            CssColor::Crimson => RgbColor { red: 220, green: 20, blue: 60 },
            CssColor::DarkBlue => RgbColor { red: 0, green: 0, blue: 139 },
            CssColor::DarkCyan => RgbColor { red: 0, green: 139, blue: 139 },
            CssColor::DarkGoldenRod => RgbColor { red: 184, green: 134, blue: 11 },
            CssColor::DarkGray => RgbColor { red: 169, green: 169, blue: 169 },
            CssColor::DarkGrey => RgbColor { red: 169, green: 169, blue: 169 },
            CssColor::DarkGreen => RgbColor { red: 0, green: 100, blue: 0 },
            CssColor::DarkKhaki => RgbColor { red: 189, green: 183, blue: 107 },
            CssColor::DarkMagenta => RgbColor { red: 139, green: 0, blue: 139 },
            CssColor::DarkOliveGreen => RgbColor { red: 85, green: 107, blue: 47 },
            CssColor::DarkOrange => RgbColor { red: 255, green: 140, blue: 0 },
            CssColor::DarkOrchid => RgbColor { red: 153, green: 50, blue: 204 },
            CssColor::DarkRed => RgbColor { red: 139, green: 0, blue: 0 },
            CssColor::DarkSalmon => RgbColor { red: 233, green: 150, blue: 122 },
            CssColor::DarkSeaGreen => RgbColor { red: 143, green: 188, blue: 143 },
            CssColor::DarkSlateBlue => RgbColor { red: 72, green: 61, blue: 139 },
            CssColor::DarkSlateGray => RgbColor { red: 47, green: 79, blue: 79 },
            CssColor::DarkSlateGrey => RgbColor { red: 47, green: 79, blue: 79 },
            CssColor::DarkTurquoise => RgbColor { red: 0, green: 206, blue: 209 },
            CssColor::DarkViolet => RgbColor { red: 148, green: 0, blue: 211 },
            CssColor::DeepPink => RgbColor { red: 255, green: 20, blue: 147 },
            CssColor::DeepSkyBlue => RgbColor { red: 0, green: 191, blue: 255 },
            CssColor::DimGray => RgbColor { red: 105, green: 105, blue: 105 },
            CssColor::DimGrey => RgbColor { red: 105, green: 105, blue: 105 },
            CssColor::DodgerBlue => RgbColor { red: 30, green: 144, blue: 255 },
            CssColor::FireBrick => RgbColor { red: 178, green: 34, blue: 34 },
            CssColor::FloralWhite => RgbColor { red: 255, green: 250, blue: 240 },
            CssColor::ForestGreen => RgbColor { red: 34, green: 139, blue: 34 },
            CssColor::Fuchsia => RgbColor { red: 255, green: 0, blue: 255 },
            CssColor::Gainsboro => RgbColor { red: 220, green: 220, blue: 220 },
            CssColor::GhostWhite => RgbColor { red: 248, green: 248, blue: 255 },
            CssColor::Gold => RgbColor { red: 255, green: 215, blue: 0 },
            CssColor::GoldenRod => RgbColor { red: 218, green: 165, blue: 32 },
            CssColor::Gray => RgbColor { red: 128, green: 128, blue: 128 },
            CssColor::Grey => RgbColor { red: 128, green: 128, blue: 128 },
            CssColor::Green => RgbColor { red: 0, green: 128, blue: 0 },
            CssColor::GreenYellow => RgbColor { red: 173, green: 255, blue: 47 },
            CssColor::HoneyDew => RgbColor { red: 240, green: 255, blue: 240 },
            CssColor::HotPink => RgbColor { red: 255, green: 105, blue: 180 },
            CssColor::IndianRed => RgbColor { red: 205, green: 92, blue: 92 },
            CssColor::Indigo => RgbColor { red: 75, green: 0, blue: 130 },
            CssColor::Ivory => RgbColor { red: 255, green: 255, blue: 240 },
            CssColor::Khaki => RgbColor { red: 240, green: 230, blue: 140 },
            CssColor::Lavender => RgbColor { red: 230, green: 230, blue: 250 },
            CssColor::LavenderBlush => RgbColor { red: 255, green: 240, blue: 245 },
            CssColor::LawnGreen => RgbColor { red: 124, green: 252, blue: 0 },
            CssColor::LemonChiffon => RgbColor { red: 255, green: 250, blue: 205 },
            CssColor::LightBlue => RgbColor { red: 173, green: 216, blue: 230 },
            CssColor::LightCoral => RgbColor { red: 240, green: 128, blue: 128 },
            CssColor::LightCyan => RgbColor { red: 224, green: 255, blue: 255 },
            CssColor::LightGoldenRodYellow => RgbColor { red: 250, green: 250, blue: 210 },
            CssColor::LightGray => RgbColor { red: 211, green: 211, blue: 211 },
            CssColor::LightGrey => RgbColor { red: 211, green: 211, blue: 211 },
            CssColor::LightGreen => RgbColor { red: 144, green: 238, blue: 144 },
            CssColor::LightPink => RgbColor { red: 255, green: 182, blue: 193 },
            CssColor::LightSalmon => RgbColor { red: 255, green: 160, blue: 122 },
            CssColor::LightSeaGreen => RgbColor { red: 32, green: 178, blue: 170 },
            CssColor::LightSkyBlue => RgbColor { red: 135, green: 206, blue: 250 },
            CssColor::LightSlateGray => RgbColor { red: 119, green: 136, blue: 153 },
            CssColor::LightSlateGrey => RgbColor { red: 119, green: 136, blue: 153 },
            CssColor::LightSteelBlue => RgbColor { red: 176, green: 196, blue: 222 },
            CssColor::LightYellow => RgbColor { red: 255, green: 255, blue: 224 },
            CssColor::Lime => RgbColor { red: 0, green: 255, blue: 0 },
            CssColor::LimeGreen => RgbColor { red: 50, green: 205, blue: 50 },
            CssColor::Linen => RgbColor { red: 250, green: 240, blue: 230 },
            CssColor::Magenta => RgbColor { red: 255, green: 0, blue: 255 },
            CssColor::Maroon => RgbColor { red: 128, green: 0, blue: 0 },
            CssColor::MediumAquaMarine => RgbColor { red: 102, green: 205, blue: 170 },
            CssColor::MediumBlue => RgbColor { red: 0, green: 0, blue: 205 },
            CssColor::MediumOrchid => RgbColor { red: 186, green: 85, blue: 211 },
            CssColor::MediumPurple => RgbColor { red: 147, green: 112, blue: 219 },
            CssColor::MediumSeaGreen => RgbColor { red: 60, green: 179, blue: 113 },
            CssColor::MediumSlateBlue => RgbColor { red: 123, green: 104, blue: 238 },
            CssColor::MediumSpringGreen => RgbColor { red: 0, green: 250, blue: 154 },
            CssColor::MediumTurquoise => RgbColor { red: 72, green: 209, blue: 204 },
            CssColor::MediumVioletRed => RgbColor { red: 199, green: 21, blue: 133 },
            CssColor::MidnightBlue => RgbColor { red: 25, green: 25, blue: 112 },
            CssColor::MintCream => RgbColor { red: 245, green: 255, blue: 250 },
            CssColor::MistyRose => RgbColor { red: 255, green: 228, blue: 225 },
            CssColor::Moccasin => RgbColor { red: 255, green: 228, blue: 181 },
            CssColor::NavajoWhite => RgbColor { red: 255, green: 222, blue: 173 },
            CssColor::Navy => RgbColor { red: 0, green: 0, blue: 128 },
            CssColor::OldLace => RgbColor { red: 253, green: 245, blue: 230 },
            CssColor::Olive => RgbColor { red: 128, green: 128, blue: 0 },
            CssColor::OliveDrab => RgbColor { red: 107, green: 142, blue: 35 },
            CssColor::Orange => RgbColor { red: 255, green: 165, blue: 0 },
            CssColor::OrangeRed => RgbColor { red: 255, green: 69, blue: 0 },
            CssColor::Orchid => RgbColor { red: 218, green: 112, blue: 214 },
            CssColor::PaleGoldenRod => RgbColor { red: 238, green: 232, blue: 170 },
            CssColor::PaleGreen => RgbColor { red: 152, green: 251, blue: 152 },
            CssColor::PaleTurquoise => RgbColor { red: 175, green: 238, blue: 238 },
            CssColor::PaleVioletRed => RgbColor { red: 219, green: 112, blue: 147 },
            CssColor::PapayaWhip => RgbColor { red: 255, green: 239, blue: 213 },
            CssColor::PeachPuff => RgbColor { red: 255, green: 218, blue: 185 },
            CssColor::Peru => RgbColor { red: 205, green: 133, blue: 63 },
            CssColor::Pink => RgbColor { red: 255, green: 192, blue: 203 },
            CssColor::Plum => RgbColor { red: 221, green: 160, blue: 221 },
            CssColor::PowderBlue => RgbColor { red: 176, green: 224, blue: 230 },
            CssColor::Purple => RgbColor { red: 128, green: 0, blue: 128 },
            CssColor::RebeccaPurple => RgbColor { red: 102, green: 51, blue: 153 },
            CssColor::Red => RgbColor { red: 255, green: 0, blue: 0 },
            CssColor::RosyBrown => RgbColor { red: 188, green: 143, blue: 143 },
            CssColor::RoyalBlue => RgbColor { red: 65, green: 105, blue: 225 },
            CssColor::SaddleBrown => RgbColor { red: 139, green: 69, blue: 19 },
            CssColor::Salmon => RgbColor { red: 250, green: 128, blue: 114 },
            CssColor::SandyBrown => RgbColor { red: 244, green: 164, blue: 96 },
            CssColor::SeaGreen => RgbColor { red: 46, green: 139, blue: 87 },
            CssColor::SeaShell => RgbColor { red: 255, green: 245, blue: 238 },
            CssColor::Sienna => RgbColor { red: 160, green: 82, blue: 45 },
            CssColor::Silver => RgbColor { red: 192, green: 192, blue: 192 },
            CssColor::SkyBlue => RgbColor { red: 135, green: 206, blue: 235 },
            CssColor::SlateBlue => RgbColor { red: 106, green: 90, blue: 205 },
            CssColor::SlateGray => RgbColor { red: 112, green: 128, blue: 144 },
            CssColor::SlateGrey => RgbColor { red: 112, green: 128, blue: 144 },
            CssColor::Snow => RgbColor { red: 255, green: 250, blue: 250 },
            CssColor::SpringGreen => RgbColor { red: 0, green: 255, blue: 127 },
            CssColor::SteelBlue => RgbColor { red: 70, green: 130, blue: 180 },
            CssColor::Tan => RgbColor { red: 210, green: 180, blue: 140 },
            CssColor::Teal => RgbColor { red: 0, green: 128, blue: 128 },
            CssColor::Thistle => RgbColor { red: 216, green: 191, blue: 216 },
            CssColor::Tomato => RgbColor { red: 255, green: 99, blue: 71 },
            CssColor::Turquoise => RgbColor { red: 64, green: 224, blue: 208 },
            CssColor::Violet => RgbColor { red: 238, green: 130, blue: 238 },
            CssColor::Wheat => RgbColor { red: 245, green: 222, blue: 179 },
            CssColor::White => RgbColor { red: 255, green: 255, blue: 255 },
            CssColor::WhiteSmoke => RgbColor { red: 245, green: 245, blue: 245 },
            CssColor::Yellow => RgbColor { red: 255, green: 255, blue: 0 },
            CssColor::YellowGreen => RgbColor { red: 154, green: 205, blue: 50 },
        }
    }
}

} // verus!
