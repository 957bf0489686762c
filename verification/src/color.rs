use vstd::prelude::*;

verus! {

/// A color of the fixed 8-entry palette the two draw attributes are chosen
/// from. Slots 0 and 7 both name white, as the palette repeats it.
#[derive(Clone, Copy, Debug, PartialEq, Eq, Structural)]
pub enum PaletteColor {
    White,
    Blue,
    Green,
    Cyan,
    Red,
    Magenta,
    Yellow,
}

/// The fixed palette: index 0 through 7 in order white, blue, green, cyan,
/// red, magenta, yellow, white.
pub open spec fn palette_entry(i: int) -> PaletteColor {
    if i == 0 {
        PaletteColor::White
    } else if i == 1 {
        PaletteColor::Blue
    } else if i == 2 {
        PaletteColor::Green
    } else if i == 3 {
        PaletteColor::Cyan
    } else if i == 4 {
        PaletteColor::Red
    } else if i == 5 {
        PaletteColor::Magenta
    } else if i == 6 {
        PaletteColor::Yellow
    } else {
        PaletteColor::White
    }
}

/// Reduces a configured color slot to its palette index: the slot taken
/// modulo the palette size of 8.
pub fn resolve_slot(slot: usize) -> (i: usize)
    ensures
        i == slot % 8,
        i < 8,
{
    slot % 8
}

/// The palette color a configured slot resolves to: entry `slot % 8` of the
/// fixed palette.
pub fn palette_color(slot: usize) -> (color: PaletteColor)
    ensures
        color == palette_entry((slot % 8) as int),
{
    let i = resolve_slot(slot);
    if i == 0 {
        PaletteColor::White
    } else if i == 1 {
        PaletteColor::Blue
    } else if i == 2 {
        PaletteColor::Green
    } else if i == 3 {
        PaletteColor::Cyan
    } else if i == 4 {
        PaletteColor::Red
    } else if i == 5 {
        PaletteColor::Magenta
    } else if i == 6 {
        PaletteColor::Yellow
    } else {
        PaletteColor::White
    }
}

} // verus!
