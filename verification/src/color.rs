//! Packing of 8-bit RGBA colors into `u32` words (`0xRRGGBBAA`) and back.
use vstd::prelude::*;

verus! {

/// The word `0xRRGGBBAA` whose bytes, from the most significant one down, are the
/// first four entries of `rgba`.
pub open spec fn rgba8_packed(rgba: Seq<u8>) -> int
    recommends
        rgba.len() >= 4,
{
    rgba[0] * 0x1000000 + rgba[1] * 0x10000 + rgba[2] * 0x100 + rgba[3]
}

/// The four bytes of `value`, most significant first: red, green, blue, alpha.
pub open spec fn rgba8_of(value: u32) -> Seq<u8> {
    seq![
        (value / 0x1000000) as u8,
        ((value / 0x10000) % 0x100) as u8,
        ((value / 0x100) % 0x100) as u8,
        (value % 0x100) as u8,
    ]
}

/// Packs the first four bytes of `rgba` (red, green, blue, alpha) into one word,
/// red in the most significant byte.
pub fn pack_rgba8_to_u32(rgba: &[u8]) -> (packed: u32)
    requires
        rgba@.len() >= 4,
    ensures
        packed == rgba8_packed(rgba@),
        packed == rgba@[0] * 0x1000000 + rgba@[1] * 0x10000 + rgba@[2] * 0x100 + rgba@[3],
{
    let r = rgba[0] as u32;
    let g = rgba[1] as u32;
    let b = rgba[2] as u32;
    let a = rgba[3] as u32;
    let packed = (r << 24) | (g << 16) | (b << 8) | a;
    assert(packed == r * 0x1000000 + g * 0x10000 + b * 0x100 + a) by (bit_vector)
        requires
            r < 256,
            g < 256,
            b < 256,
            a < 256,
            packed == (r << 24) | (g << 16) | (b << 8) | a,
    ;
    packed
}

/// Splits a word `0xRRGGBBAA` into its bytes `[RR, GG, BB, AA]`.
pub fn unpack_u32_to_rgba8(value: u32) -> (rgba: [u8; 4])
    ensures
        rgba@ == rgba8_of(value),
        rgba[0] == value / 0x1000000,
        rgba[1] == (value / 0x10000) % 0x100,
        rgba[2] == (value / 0x100) % 0x100,
        rgba[3] == value % 0x100,
{
    let r = ((value >> 24) & 0xff) as u8;
    let g = ((value >> 16) & 0xff) as u8;
    let b = ((value >> 8) & 0xff) as u8;
    let a = (value & 0xff) as u8;
    assert(r == value / 0x1000000 && g == (value / 0x10000) % 0x100 && b == (value / 0x100)
        % 0x100 && a == value % 0x100) by (bit_vector)
        requires
            r == ((value >> 24) & 0xff) as u8,
            g == ((value >> 16) & 0xff) as u8,
            b == ((value >> 8) & 0xff) as u8,
            a == (value & 0xff) as u8,
    ;
    let rgba = [r, g, b, a];
    assert(rgba@ =~= rgba8_of(value));
    rgba
}

/// Unpacking a packed color gives back the four bytes that were packed.
pub proof fn lemma_unpack_after_pack(rgba: Seq<u8>)
    requires
        rgba.len() >= 4,
    ensures
        0 <= rgba8_packed(rgba) <= u32::MAX,
        rgba8_of(rgba8_packed(rgba) as u32) == rgba.take(4),
{
    let r = rgba[0];
    let g = rgba[1];
    let b = rgba[2];
    let a = rgba[3];
    let v = rgba8_packed(rgba);
    assert(0 <= v <= u32::MAX);
    let w = v as u32;
    assert(w / 0x1000000 == r && (w / 0x10000) % 0x100 == g && (w / 0x100) % 0x100 == b && w
        % 0x100 == a) by (nonlinear_arith)
        requires
            w == r * 0x1000000 + g * 0x10000 + b * 0x100 + a,
            r < 256,
            g < 256,
            b < 256,
            a < 256,
    ;
    assert(rgba8_of(w) =~= rgba.take(4));
}

/// Packing the bytes of a word gives back the word.
pub proof fn lemma_pack_after_unpack(value: u32)
    ensures
        rgba8_packed(rgba8_of(value)) == value,
{
    let s = rgba8_of(value);
    assert(s[0] * 0x1000000 + s[1] * 0x10000 + s[2] * 0x100 + s[3] == value) by (nonlinear_arith)
        requires
            s[0] == value / 0x1000000,
            s[1] == (value / 0x10000) % 0x100,
            s[2] == (value / 0x100) % 0x100,
            s[3] == value % 0x100,
    ;
}

/// A palette of iOS-style colors, each packed as `0xRRGGBBAA`.
pub const VISION_COLORS: [u32; 29] = [
    0xE2CF95ff, 0xC9E1A0ff, 0xEBC6B2ff, 0x8cacdaff, 0xbed35eff, 0xcad8bbff, 0xbdb8a7, 0xd8c19fff,
    0xf2e175ff, 0xafcdf3ff, 0xfdf2bdff, 0xfffec2ff, 0xff4962ff, 0x36C2D8ff, 0x21FEFEff, 0x565656ff,
    0x42F2FFff, 0x1597F5ff, 0x48D7FFff, 0x9AF47Aff, 0x8DDFFEff, 0xFFA94Eff, 0xF3D82Dff, 0xFEC859ff,
    0x8ADECFff, 0xFD9CC0ff, 0xC773D6ff, 0x71C3FDff, 0x8961F6ff,
];

} // verus!
