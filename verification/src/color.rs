//! The engine's packed 16-bit colour and the abstract colours it converts to.
//!
//! The engine stores a pixel as RGB565: five bits of red in the high bits, six
//! bits of green, five bits of blue in the low bits. A render target works with
//! an abstract colour of its own depth; this module supplies the two
//! conversions for a 16-bit and a 24-bit target and shows that going from the
//! native value to the abstract one and back loses nothing.

use vstd::prelude::*;
use vstd::std_specs::convert::FromSpec;

verus! {

/// Red channel of a packed RGB565 value: the top five bits.
pub open spec fn red_of(raw: u16) -> u8 {
    ((raw >> 11) & 0x1f) as u8
}

/// Green channel of a packed RGB565 value: the middle six bits.
pub open spec fn green_of(raw: u16) -> u8 {
    ((raw >> 5) & 0x3f) as u8
}

/// Blue channel of a packed RGB565 value: the low five bits.
pub open spec fn blue_of(raw: u16) -> u8 {
    (raw & 0x1f) as u8
}

/// Packs three channels into RGB565. Bits above a channel's width are dropped.
pub open spec fn pack565(r: u8, g: u8, b: u8) -> u16 {
    (((r & 0x1f) as u16) << 11) | (((g & 0x3f) as u16) << 5) | ((b & 0x1f) as u16)
}

/// A colour in the engine's native packed format.
#[derive(Clone, Copy, Debug, PartialEq, Eq, Structural)]
pub struct Color {
    /// The packed RGB565 value.
    pub raw: u16,
}

impl View for Color {
    type V = u16;

    open spec fn view(&self) -> u16 {
        self.raw
    }
}

impl Color {
    /// Wraps a packed value as the engine delivers it.
    pub fn from_raw(raw: u16) -> (color: Color)
        ensures
            color == (Color { raw }),
    {
        Color { raw }
    }

    /// Builds a colour from 8-bit channels, keeping of each the most
    /// significant bits that fit the native depth.
    pub fn from_rgb(rgb: (u8, u8, u8)) -> (color: Color)
        ensures
            color@ == pack565(rgb.0 >> 3, rgb.1 >> 2, rgb.2 >> 3),
    {
        let r: u16 = ((rgb.0 >> 3) & 0x1f) as u16;
        let g: u16 = ((rgb.1 >> 2) & 0x3f) as u16;
        let b: u16 = ((rgb.2 >> 3) & 0x1f) as u16;
        Color { raw: (r << 11) | (g << 5) | b }
    }

    /// Red channel, 0 to 31.
    pub fn r(&self) -> (r: u8)
        ensures
            r == red_of(self@),
            r <= 31,
    {
        let raw: u16 = self.raw;
        assert(((raw >> 11) & 0x1f) <= 31) by (bit_vector);
        ((raw >> 11) & 0x1f) as u8
    }

    /// Green channel, 0 to 63.
    pub fn g(&self) -> (g: u8)
        ensures
            g == green_of(self@),
            g <= 63,
    {
        let raw: u16 = self.raw;
        assert(((raw >> 5) & 0x3f) <= 63) by (bit_vector);
        ((raw >> 5) & 0x3f) as u8
    }

    /// Blue channel, 0 to 31.
    pub fn b(&self) -> (b: u8)
        ensures
            b == blue_of(self@),
            b <= 31,
    {
        let raw: u16 = self.raw;
        assert((raw & 0x1f) <= 31) by (bit_vector);
        (raw & 0x1f) as u8
    }
}

/// An abstract 16-bit colour: five bits of red, six of green, five of blue.
#[derive(Clone, Copy, Debug, PartialEq, Eq, Structural)]
pub struct Rgb565 {
    /// The three channels, packed.
    pub storage: u16,
}

impl Rgb565 {
    /// The colour with the given channels. Bits above a channel's width are
    /// dropped.
    pub fn new(r: u8, g: u8, b: u8) -> (color: Rgb565)
        ensures
            color.storage == pack565(r, g, b),
    {
        let rs: u16 = (r & 0x1f) as u16;
        let gs: u16 = (g & 0x3f) as u16;
        let bs: u16 = (b & 0x1f) as u16;
        Rgb565 { storage: (rs << 11) | (gs << 5) | bs }
    }

    /// Red channel, 0 to 31.
    pub fn r(&self) -> (r: u8)
        ensures
            r == red_of(self.storage),
    {
        let raw: u16 = self.storage;
        assert(((raw >> 11) & 0x1f) <= 31) by (bit_vector);
        ((raw >> 11) & 0x1f) as u8
    }

    /// Green channel, 0 to 63.
    pub fn g(&self) -> (g: u8)
        ensures
            g == green_of(self.storage),
    {
        let raw: u16 = self.storage;
        assert(((raw >> 5) & 0x3f) <= 63) by (bit_vector);
        ((raw >> 5) & 0x3f) as u8
    }

    /// Blue channel, 0 to 31.
    pub fn b(&self) -> (b: u8)
        ensures
            b == blue_of(self.storage),
    {
        let raw: u16 = self.storage;
        assert((raw & 0x1f) <= 31) by (bit_vector);
        (raw & 0x1f) as u8
    }
}

/// An abstract 24-bit colour: eight bits for each channel.
#[derive(Clone, Copy, Debug, PartialEq, Eq, Structural)]
pub struct Rgb888 {
    /// Red channel.
    pub r: u8,
    /// Green channel.
    pub g: u8,
    /// Blue channel.
    pub b: u8,
}

impl From<Color> for Rgb565 {
    /// The same channels at the same depth: the packed value stays as it is.
    fn from(color: Color) -> (out: Rgb565) {
        proof {
            lemma_pack_channels(color@);
        }
        Rgb565::new(color.r(), color.g(), color.b())
    }
}

impl vstd::std_specs::convert::FromSpecImpl<Color> for Rgb565 {
    open spec fn obeys_from_spec() -> bool {
        true
    }

    open spec fn from_spec(color: Color) -> Rgb565 {
        Rgb565 { storage: color@ }
    }
}

impl From<Rgb565> for Color {
    /// The same channels at the same depth: the packed value stays as it is.
    fn from(color: Rgb565) -> (out: Color) {
        proof {
            lemma_pack_channels(color.storage);
        }
        let r: u16 = (color.r() & 0x1f) as u16;
        let g: u16 = (color.g() & 0x3f) as u16;
        let b: u16 = (color.b() & 0x1f) as u16;
        Color { raw: (r << 11) | (g << 5) | b }
    }
}

impl vstd::std_specs::convert::FromSpecImpl<Rgb565> for Color {
    open spec fn obeys_from_spec() -> bool {
        true
    }

    open spec fn from_spec(color: Rgb565) -> Color {
        Color { raw: color.storage }
    }
}

impl From<Color> for Rgb888 {
    /// Each channel moves to the high bits of its byte; the low bits are zero.
    fn from(color: Color) -> (out: Rgb888) {
        let r: u8 = color.r();
        let g: u8 = color.g();
        let b: u8 = color.b();
        Rgb888 { r: r << 3, g: g << 2, b: b << 3 }
    }
}

impl vstd::std_specs::convert::FromSpecImpl<Color> for Rgb888 {
    open spec fn obeys_from_spec() -> bool {
        true
    }

    open spec fn from_spec(color: Color) -> Rgb888 {
        Rgb888 { r: red_of(color@) << 3, g: green_of(color@) << 2, b: blue_of(color@) << 3 }
    }
}

impl From<Rgb888> for Color {
    /// Keeps of each channel the most significant bits that fit the native
    /// depth.
    fn from(color: Rgb888) -> (out: Color) {
        Color::from_rgb((color.r, color.g, color.b))
    }
}

impl vstd::std_specs::convert::FromSpecImpl<Rgb888> for Color {
    open spec fn obeys_from_spec() -> bool {
        true
    }

    open spec fn from_spec(color: Rgb888) -> Color {
        Color { raw: pack565(color.r >> 3, color.g >> 2, color.b >> 3) }
    }
}

/// Splitting a packed value into its channels and packing them again gives
/// the value back.
pub proof fn lemma_pack_channels(raw: u16)
    ensures
        pack565(red_of(raw), green_of(raw), blue_of(raw)) == raw,
{
    let r: u8 = red_of(raw);
    let g: u8 = green_of(raw);
    let b: u8 = blue_of(raw);
    assert(((r & 0x1f) as u16) << 11 | ((g & 0x3f) as u16) << 5 | (b & 0x1f) as u16 == raw)
        by (bit_vector)
        requires
            r == ((raw >> 11) & 0x1f) as u8,
            g == ((raw >> 5) & 0x3f) as u8,
            b == (raw & 0x1f) as u8,
    ;
}

/// Packing channels and splitting the result gives each channel back, cut to
/// its width.
pub proof fn lemma_channels_of_pack(r: u8, g: u8, b: u8)
    ensures
        red_of(pack565(r, g, b)) == r & 0x1f,
        green_of(pack565(r, g, b)) == g & 0x3f,
        blue_of(pack565(r, g, b)) == b & 0x1f,
{
    let p: u16 = pack565(r, g, b);
    assert(((p >> 11) & 0x1f) as u8 == r & 0x1f && ((p >> 5) & 0x3f) as u8 == g & 0x3f && (p
        & 0x1f) as u8 == b & 0x1f) by (bit_vector)
        requires
            p == ((r & 0x1f) as u16) << 11 | ((g & 0x3f) as u16) << 5 | (b & 0x1f) as u16,
    ;
}

/// A native colour converted to the 16-bit abstract colour and back is the
/// colour it was.
pub proof fn lemma_rgb565_round_trip(color: Color)
    ensures
        Color::from_spec(Rgb565::from_spec(color)) == color,
        Rgb565::from_spec(color).storage == pack565(
            red_of(color@),
            green_of(color@),
            blue_of(color@),
        ),
{
    lemma_pack_channels(color@);
}

/// A native colour converted to the 24-bit abstract colour and back is the
/// colour it was: the way back reads only the bits that the way there wrote.
pub proof fn lemma_rgb888_round_trip(color: Color)
    ensures
        Color::from_spec(Rgb888::from_spec(color)) == color,
{
    let raw: u16 = color@;
    let r: u8 = red_of(raw);
    let g: u8 = green_of(raw);
    let b: u8 = blue_of(raw);
    assert((r << 3) >> 3 == r && (g << 2) >> 2 == g && (b << 3) >> 3 == b) by (bit_vector)
        requires
            r == ((raw >> 11) & 0x1f) as u8,
            g == ((raw >> 5) & 0x3f) as u8,
            b == (raw & 0x1f) as u8,
    ;
    lemma_pack_channels(raw);
}

/// A 16-bit abstract colour converted to the native colour and back is the
/// colour it was.
pub proof fn lemma_rgb565_round_trip_back(color: Rgb565)
    ensures
        Rgb565::from_spec(Color::from_spec(color)) == color,
{
}

/// A 24-bit abstract colour loses, on the way to the native colour and back,
/// exactly the low bits that the native depth has no room for.
pub proof fn lemma_rgb888_round_trip_back(color: Rgb888)
    ensures
        Rgb888::from_spec(Color::from_spec(color)) == (Rgb888 {
            r: color.r & 0xf8,
            g: color.g & 0xfc,
            b: color.b & 0xf8,
        }),
{
    let r: u8 = color.r;
    let g: u8 = color.g;
    let b: u8 = color.b;
    lemma_channels_of_pack(r >> 3, g >> 2, b >> 3);
    assert(((r >> 3) & 0x1f) << 3 == r & 0xf8) by (bit_vector);
    assert(((g >> 2) & 0x3f) << 2 == g & 0xfc) by (bit_vector);
    assert(((b >> 3) & 0x1f) << 3 == b & 0xf8) by (bit_vector);
}

} // verus!
