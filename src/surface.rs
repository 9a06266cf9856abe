//! The fixed 16-colour palette that the presentation side maps colour indices through.
use vstd::prelude::*;

verus! {

/// A palette entry; index 0 is transparent.
#[derive(Debug, Clone, Copy, PartialEq, Eq, Structural)]
pub enum Color {
    Transparent,
    Black,
    Gray,
    Red,
    Pink,
    DarkBrown,
    Brown,
    Orange,
    Yellow,
    Green,
    LightGreen,
    DarkBlue,
    Blue,
    LightBlue,
    SkyBlue,
    White,
    /// Any index above 15.
    Unknown,
}

/// The 24-bit RGB value of a palette entry.
pub open spec fn rgb_of(c: Color) -> u32 {
    match c {
        Color::Transparent => 0x000000,
        Color::Black => 0x000000,
        Color::Gray => 0x888888,
        Color::Red => 0xbf3932,
        Color::Pink => 0xde7aae,
        Color::DarkBrown => 0x4c3d21,
        Color::Brown => 0x905f25,
        Color::Orange => 0xe49452,
        Color::Yellow => 0xead979,
        Color::Green => 0x537a3b,
        Color::LightGreen => 0xabd54a,
        Color::DarkBlue => 0x252e38,
        Color::Blue => 0x00467f,
        Color::LightBlue => 0x68abcc,
        Color::SkyBlue => 0xbcdee4,
        Color::White => 0xffffff,
        Color::Unknown => 0x000000,
    }
}

/// The palette entry for a colour index.
pub open spec fn color_of(i: u8) -> Color {
    match i {
        0x0 => Color::Transparent,
        0x1 => Color::Black,
        0x2 => Color::Gray,
        0x3 => Color::Red,
        0x4 => Color::Pink,
        0x5 => Color::DarkBrown,
        0x6 => Color::Brown,
        0x7 => Color::Orange,
        0x8 => Color::Yellow,
        0x9 => Color::Green,
        0xa => Color::LightGreen,
        0xb => Color::DarkBlue,
        0xc => Color::Blue,
        0xd => Color::LightBlue,
        0xe => Color::SkyBlue,
        0xf => Color::White,
        _ => Color::Unknown,
    }
}

/// The colour index of a palette entry; the unknown entry counts as transparent.
pub open spec fn index_of(c: Color) -> u8 {
    match c {
        Color::Transparent => 0x0,
        Color::Black => 0x1,
        Color::Gray => 0x2,
        Color::Red => 0x3,
        Color::Pink => 0x4,
        Color::DarkBrown => 0x5,
        Color::Brown => 0x6,
        Color::Orange => 0x7,
        Color::Yellow => 0x8,
        Color::Green => 0x9,
        Color::LightGreen => 0xa,
        Color::DarkBlue => 0xb,
        Color::Blue => 0xc,
        Color::LightBlue => 0xd,
        Color::SkyBlue => 0xe,
        Color::White => 0xf,
        Color::Unknown => 0x0,
    }
}

impl Color {
    /// The 24-bit RGB value.
    pub fn rgb(&self) -> (r: u32)
        ensures
            r == rgb_of(*self),
            r < 0x1000000,
    {
        match self {
            Color::Transparent => 0x000000,
            Color::Black => 0x000000,
            Color::Gray => 0x888888,
            Color::Red => 0xbf3932,
            Color::Pink => 0xde7aae,
            Color::DarkBrown => 0x4c3d21,
            Color::Brown => 0x905f25,
            Color::Orange => 0xe49452,
            Color::Yellow => 0xead979,
            Color::Green => 0x537a3b,
            Color::LightGreen => 0xabd54a,
            Color::DarkBlue => 0x252e38,
            Color::Blue => 0x00467f,
            Color::LightBlue => 0x68abcc,
            Color::SkyBlue => 0xbcdee4,
            Color::White => 0xffffff,
            Color::Unknown => 0x000000,
        }
    }

    /// The 32-bit ARGB value: fully opaque, but zero for the transparent and unknown
    /// entries.
    pub fn argb(&self) -> (r: u32)
        ensures
            r == match *self {
                Color::Transparent | Color::Unknown => 0,
                _ => 0xff000000 + rgb_of(*self),
            },
    {
        match self {
            Color::Transparent | Color::Unknown => 0x0,
            _ => 0xff00_0000u32 + self.rgb(),
        }
    }

    /// Red, green, blue and alpha bytes; alpha is 0 for the transparent entry and for the
    /// unknown one, which counts as transparent.
    pub fn to_tuple(&self) -> (r: (u8, u8, u8, u8))
        ensures
            r.0 == rgb_of(*self) / 0x10000,
            r.1 == (rgb_of(*self) / 0x100) % 0x100,
            r.2 == rgb_of(*self) % 0x100,
            r.3 == if *self == Color::Transparent || *self == Color::Unknown {
                0u8
            } else {
                0xffu8
            },
    {
        let rgb = self.rgb();
        let r = (rgb / 0x10000) as u8;
        let g = ((rgb / 0x100) % 0x100) as u8;
        let b = (rgb % 0x100) as u8;
        let a: u8 = match self {
            Color::Transparent | Color::Unknown => 0,
            _ => 0xff,
        };
        (r, g, b, a)
    }

    /// The palette entry for colour index `i`.
    pub fn from_u8(i: u8) -> (r: Color)
        ensures
            r == color_of(i),
    {
        match i {
            0x0 => Color::Transparent,
            0x1 => Color::Black,
            0x2 => Color::Gray,
            0x3 => Color::Red,
            0x4 => Color::Pink,
            0x5 => Color::DarkBrown,
            0x6 => Color::Brown,
            0x7 => Color::Orange,
            0x8 => Color::Yellow,
            0x9 => Color::Green,
            0xa => Color::LightGreen,
            0xb => Color::DarkBlue,
            0xc => Color::Blue,
            0xd => Color::LightBlue,
            0xe => Color::SkyBlue,
            0xf => Color::White,
            _ => Color::Unknown,
        }
    }

    /// The colour index of this entry.
    pub fn index(&self) -> (r: u8)
        ensures
            r == index_of(*self),
            r < 16,
    {
        match self {
            Color::Transparent => 0x0,
            Color::Black => 0x1,
            Color::Gray => 0x2,
            Color::Red => 0x3,
            Color::Pink => 0x4,
            Color::DarkBrown => 0x5,
            Color::Brown => 0x6,
            Color::Orange => 0x7,
            Color::Yellow => 0x8,
            Color::Green => 0x9,
            Color::LightGreen => 0xa,
            Color::DarkBlue => 0xb,
            Color::Blue => 0xc,
            Color::LightBlue => 0xd,
            Color::SkyBlue => 0xe,
            Color::White => 0xf,
            Color::Unknown => 0x0,
        }
    }
}

} // verus!
