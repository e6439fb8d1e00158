//! RGBA colors and the four-slot palettes that tint generated and recoloured
//! imagery.

use crate::stream::{after_byte, drawn_byte, seeded_state, SeedStream};
use vstd::prelude::*;

verus! {

/// One RGBA8 pixel value.
#[derive(Clone, Copy, Debug, PartialEq, Eq, Structural)]
pub struct Color {
    pub r: u8,
    pub g: u8,
    pub b: u8,
    pub a: u8,
}

impl Color {
    /// The four channel bytes in storage order.
    pub open spec fn bytes(self) -> Seq<u8> {
        seq![self.r, self.g, self.b, self.a]
    }

    /// The color stored in four consecutive bytes of `data`, starting at `at`.
    pub open spec fn at(data: Seq<u8>, at: int) -> Color {
        Color { r: data[at], g: data[at + 1], b: data[at + 2], a: data[at + 3] }
    }

    pub fn new(r: u8, g: u8, b: u8, a: u8) -> (c: Color)
        ensures
            c == (Color { r, g, b, a }),
    {
        Color { r, g, b, a }
    }

    /// Reads a color from exactly four bytes.
    pub fn from_raw(bytes: &[u8]) -> (c: Color)
        requires
            bytes@.len() == 4,
        ensures
            c == Color::at(bytes@, 0),
            c.bytes() == bytes@,
    {
        let c = Color { r: bytes[0], g: bytes[1], b: bytes[2], a: bytes[3] };
        assert(c.bytes() =~= bytes@);
        c
    }
}

/// The four channel bytes of a color, in storage order.
impl From<Color> for Vec<u8> {
    fn from(val: Color) -> (out: Vec<u8>)
        ensures
            out@ == val.bytes(),
    {
        vec![val.r, val.g, val.b, val.a]
    }
}

/// A vector cannot be written down in a specification: what the conversion
/// returns is said by the `ensures` of `from`, over the vector's view.
impl vstd::std_specs::convert::FromSpecImpl<Color> for Vec<u8> {
    open spec fn obeys_from_spec() -> bool {
        false
    }

    open spec fn from_spec(val: Color) -> Vec<u8> {
        arbitrary()
    }
}

/// The four channel bytes of a color, in storage order.
impl From<Color> for [u8; 4] {
    fn from(val: Color) -> (out: [u8; 4])
    {
        [val.r, val.g, val.b, val.a]
    }
}

impl vstd::std_specs::convert::FromSpecImpl<Color> for [u8; 4] {
    open spec fn obeys_from_spec() -> bool {
        true
    }

    open spec fn from_spec(val: Color) -> [u8; 4] {
        [val.r, val.g, val.b, val.a]
    }
}

/// A byte rounded down to a multiple of sixteen.
pub open spec fn quantized(byte: u8) -> u8 {
    (byte / 16 * 16) as u8
}

/// The color that a stream in `state` draws: red, green and blue in turn,
/// each a byte rounded down to a multiple of sixteen, and full alpha.
pub open spec fn drawn_color(state: Seq<u64>) -> Color {
    let at_green = after_byte(state, 0, 255);
    let at_blue = after_byte(at_green, 0, 255);
    Color {
        r: quantized(drawn_byte(state, 0, 255)),
        g: quantized(drawn_byte(at_green, 0, 255)),
        b: quantized(drawn_byte(at_blue, 0, 255)),
        a: 255,
    }
}

/// The state of a stream after it drew a color in `state`.
pub open spec fn after_color(state: Seq<u64>) -> Seq<u64> {
    after_byte(after_byte(after_byte(state, 0, 255), 0, 255), 0, 255)
}

/// The opaque color whose channels are the given bytes, each rounded down to
/// a multiple of sixteen.
pub fn opaque_in_steps(r: u8, g: u8, b: u8) -> (c: Color)
    ensures
        c == (Color { r: quantized(r), g: quantized(g), b: quantized(b), a: 255 }),
        c.r % 16 == 0 && c.g % 16 == 0 && c.b % 16 == 0,
        c.r <= r && c.g <= g && c.b <= b,
{
    Color::new(r / 16 * 16, g / 16 * 16, b / 16 * 16, 255)
}

/// Draws an opaque color with channels in steps of sixteen.
pub fn draw_color(rng: &mut SeedStream) -> (c: Color)
    ensures
        c == drawn_color(old(rng)@),
        final(rng)@ == after_color(old(rng)@),
        c.a == 255,
        c.r % 16 == 0 && c.g % 16 == 0 && c.b % 16 == 0,
{
    let r: u8 = rng.byte_range(0, 255);
    let g: u8 = rng.byte_range(0, 255);
    let b: u8 = rng.byte_range(0, 255);
    opaque_in_steps(r, g, b)
}

/// Four named colors that tint a creature.
#[derive(Clone, Copy, Debug, PartialEq, Eq, Structural)]
pub struct GreacherColorPalette {
    pub dark: Color,
    pub darkish: Color,
    pub basic: Color,
    pub highlight: Color,
}

impl GreacherColorPalette {
    /// Marker for the `dark` slot in an indexed sprite: pure red.
    pub open spec fn spec_dark_map() -> Color {
        Color { r: 255, g: 0, b: 0, a: 255 }
    }

    /// Marker for the `darkish` slot in an indexed sprite: pure green.
    pub open spec fn spec_darkish_map() -> Color {
        Color { r: 0, g: 255, b: 0, a: 255 }
    }

    /// Marker for the `basic` slot in an indexed sprite: pure blue.
    pub open spec fn spec_basic_map() -> Color {
        Color { r: 0, g: 0, b: 255, a: 255 }
    }

    /// Marker for the `highlight` slot in an indexed sprite: pure yellow.
    pub open spec fn spec_highlight_map() -> Color {
        Color { r: 255, g: 255, b: 0, a: 255 }
    }

    #[verifier::when_used_as_spec(spec_dark_map)]
    pub fn dark_map() -> (c: Color)
        ensures
            c == Self::spec_dark_map(),
    {
        Color { r: 255, g: 0, b: 0, a: 255 }
    }

    #[verifier::when_used_as_spec(spec_darkish_map)]
    pub fn darkish_map() -> (c: Color)
        ensures
            c == Self::spec_darkish_map(),
    {
        Color { r: 0, g: 255, b: 0, a: 255 }
    }

    #[verifier::when_used_as_spec(spec_basic_map)]
    pub fn basic_map() -> (c: Color)
        ensures
            c == Self::spec_basic_map(),
    {
        Color { r: 0, g: 0, b: 255, a: 255 }
    }

    #[verifier::when_used_as_spec(spec_highlight_map)]
    pub fn highlight_map() -> (c: Color)
        ensures
            c == Self::spec_highlight_map(),
    {
        Color { r: 255, g: 255, b: 0, a: 255 }
    }

    /// Whether `color` is one of the four slot markers.
    pub open spec fn is_marker(color: Color) -> bool {
        color == Self::dark_map() || color == Self::darkish_map() || color == Self::basic_map()
            || color == Self::highlight_map()
    }

    /// What `color` becomes under this palette: a marker turns into its slot,
    /// anything else stays.
    pub open spec fn mapped(self, color: Color) -> Color {
        if color == Self::dark_map() {
            self.dark
        } else if color == Self::darkish_map() {
            self.darkish
        } else if color == Self::basic_map() {
            self.basic
        } else if color == Self::highlight_map() {
            self.highlight
        } else {
            color
        }
    }

    /// The palette whose slots are the four markers themselves.
    pub open spec fn markers() -> GreacherColorPalette {
        GreacherColorPalette {
            dark: Self::dark_map(),
            darkish: Self::darkish_map(),
            basic: Self::basic_map(),
            highlight: Self::highlight_map(),
        }
    }

    /// The palette stored in sixteen consecutive bytes of `data`, starting at
    /// `at`: dark, darkish, basic, highlight.
    pub open spec fn at(data: Seq<u8>, at: int) -> GreacherColorPalette {
        GreacherColorPalette {
            dark: Color::at(data, at),
            darkish: Color::at(data, at + 4),
            basic: Color::at(data, at + 8),
            highlight: Color::at(data, at + 12),
        }
    }

    /// Reads a palette from exactly sixteen bytes.
    pub fn from_raw(bytes: &[u8]) -> (p: GreacherColorPalette)
        requires
            bytes@.len() == 16,
        ensures
            p == Self::at(bytes@, 0),
    {
        GreacherColorPalette {
            dark: Color::from_raw(&bytes[0..4]),
            darkish: Color::from_raw(&bytes[4..8]),
            basic: Color::from_raw(&bytes[8..12]),
            highlight: Color::from_raw(&bytes[12..16]),
        }
    }

    /// The palette that a stream in `state` draws: for each slot in turn a
    /// color drawn from the stream.
    pub open spec fn random(state: Seq<u64>) -> GreacherColorPalette {
        let at_darkish = after_color(state);
        let at_basic = after_color(at_darkish);
        let at_highlight = after_color(at_basic);
        GreacherColorPalette {
            dark: drawn_color(state),
            darkish: drawn_color(at_darkish),
            basic: drawn_color(at_basic),
            highlight: drawn_color(at_highlight),
        }
    }

    /// The state of a stream after it drew a palette in `state`.
    pub open spec fn after_random(state: Seq<u64>) -> Seq<u64> {
        after_color(after_color(after_color(after_color(state))))
    }

    /// The palette that belongs to a seed.
    pub fn from_seed(seed: u64) -> (p: GreacherColorPalette)
        ensures
            p == Self::random(seeded_state(seed)),
    {
        let mut rng = SeedStream::new(seed);
        Self::from_rng(&mut rng)
    }

    /// Draws a palette: four opaque colors with channels in steps of
    /// sixteen.
    pub fn from_rng(rng: &mut SeedStream) -> (p: GreacherColorPalette)
        ensures
            p == Self::random(old(rng)@),
            final(rng)@ == Self::after_random(old(rng)@),
    {
        let dark = draw_color(rng);
        let darkish = draw_color(rng);
        let basic = draw_color(rng);
        let highlight = draw_color(rng);
        GreacherColorPalette { dark, darkish, basic, highlight }
    }

    /// Recolours one pixel of an indexed sprite.
    pub fn map(&self, color: Color) -> (out: Color)
        ensures
            out == self.mapped(color),
    {
        if color == Self::dark_map() {
            self.dark
        } else if color == Self::darkish_map() {
            self.darkish
        } else if color == Self::basic_map() {
            self.basic
        } else if color == Self::highlight_map() {
            self.highlight
        } else {
            color
        }
    }
}

impl Default for GreacherColorPalette {
    fn default() -> (p: GreacherColorPalette)
        ensures
            p == GreacherColorPalette::markers(),
    {
        GreacherColorPalette {
            dark: Color::new(255, 0, 0, 255),
            darkish: Color::new(0, 255, 0, 255),
            basic: Color::new(0, 0, 255, 255),
            highlight: Color::new(255, 255, 0, 255),
        }
    }
}

} // verus!
