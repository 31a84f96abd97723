use vstd::prelude::*;

use vstd::string::*;

verus! {

/// The number of colours in the group palette.
pub const PALETTE_LEN: usize = 10;

/// The colour at a position of the group palette.
pub open spec fn palette_color(i: nat) -> (u8, u8, u8) {
    if i == 0 {
        (231, 76, 60)
    } else if i == 1 {
        (230, 126, 34)
    } else if i == 2 {
        (241, 196, 15)
    } else if i == 3 {
        (46, 204, 113)
    } else if i == 4 {
        (26, 188, 156)
    } else if i == 5 {
        (52, 152, 219)
    } else if i == 6 {
        (155, 89, 182)
    } else if i == 7 {
        (236, 240, 241)
    } else if i == 8 {
        (149, 165, 166)
    } else {
        (44, 62, 80)
    }
}

/// The colour at a position of the palette: red, orange, yellow, green, teal,
/// blue, purple, light gray, gray, dark.
pub fn color_palette(i: usize) -> (r: (u8, u8, u8))
    requires
        i < PALETTE_LEN,
    ensures
        r == palette_color(i as nat),
{
    match i {
        0 => (231, 76, 60),
        1 => (230, 126, 34),
        2 => (241, 196, 15),
        3 => (46, 204, 113),
        4 => (26, 188, 156),
        5 => (52, 152, 219),
        6 => (155, 89, 182),
        7 => (236, 240, 241),
        8 => (149, 165, 166),
        _ => (44, 62, 80),
    }
}

/// A track group for organising tracks and linking their controls.
#[derive(Debug)]
pub struct TrackGroup {
    pub id: u64,
    pub name: String,
    pub color: (u8, u8, u8),
    pub collapsed: bool,
    pub link_volume: bool,
    pub link_mute: bool,
    pub link_solo: bool,
}

impl Default for TrackGroup {
    fn default() -> (r: Self)
        ensures
            r.id == 0,
            r.name@ == "New Group"@,
            r.color == palette_color(5),
            !r.collapsed,
            r.link_volume,
            r.link_mute,
            r.link_solo,
    {
        TrackGroup {
            id: 0,
            name: String::from_str("New Group"),
            color: color_palette(5),
            collapsed: false,
            link_volume: true,
            link_mute: true,
            link_solo: true,
        }
    }
}

impl TrackGroup {
    /// A group with the given id and name, coloured by its id.
    pub fn new(id: u64, name: String) -> (r: Self)
        ensures
            r.id == id,
            r.name == name,
            r.color == palette_color((id % 10) as nat),
            !r.collapsed,
            r.link_volume,
            r.link_mute,
            r.link_solo,
    {
        let color_idx = (id % 10) as usize;
        TrackGroup {
            id,
            name,
            color: color_palette(color_idx),
            collapsed: false,
            link_volume: true,
            link_mute: true,
            link_solo: true,
        }
    }
}

} // verus!
