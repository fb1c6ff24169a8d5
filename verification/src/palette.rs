use vstd::prelude::*;

verus! {

/// The fixed 64-entry system palette: the red, green and blue channels of
/// each colour the picture processor can emit.  Entries past the palette
/// read as black.
pub open spec fn spec_system_palette(index: u8) -> (u8, u8, u8) {
    match index {
        0u8 => (0x80, 0x80, 0x80),
        1u8 => (0x00, 0x3D, 0xA6),
        2u8 => (0x00, 0x12, 0xB0),
        3u8 => (0x44, 0x00, 0x96),
        4u8 => (0xA1, 0x00, 0x5E),
        5u8 => (0xC7, 0x00, 0x28),
        6u8 => (0xBA, 0x06, 0x00),
        7u8 => (0x8C, 0x17, 0x00),
        8u8 => (0x5C, 0x2F, 0x00),
        9u8 => (0x10, 0x45, 0x00),
        10u8 => (0x05, 0x4A, 0x00),
        11u8 => (0x00, 0x47, 0x2E),
        12u8 => (0x00, 0x41, 0x66),
        13u8 => (0x00, 0x00, 0x00),
        14u8 => (0x05, 0x05, 0x05),
        15u8 => (0x05, 0x05, 0x05),
        16u8 => (0xC7, 0xC7, 0xC7),
        17u8 => (0x00, 0x77, 0xFF),
        18u8 => (0x21, 0x55, 0xFF),
        19u8 => (0x82, 0x37, 0xFA),
        20u8 => (0xEB, 0x2F, 0xB5),
        21u8 => (0xFF, 0x29, 0x50),
        22u8 => (0xFF, 0x22, 0x00),
        23u8 => (0xD6, 0x32, 0x00),
        24u8 => (0xC4, 0x62, 0x00),
        25u8 => (0x35, 0x80, 0x00),
        26u8 => (0x05, 0x8F, 0x00),
        27u8 => (0x00, 0x8A, 0x55),
        28u8 => (0x00, 0x99, 0xCC),
        29u8 => (0x21, 0x21, 0x21),
        30u8 => (0x09, 0x09, 0x09),
        31u8 => (0x09, 0x09, 0x09),
        32u8 => (0xFF, 0xFF, 0xFF),
        33u8 => (0x0F, 0xD7, 0xFF),
        34u8 => (0x69, 0xA2, 0xFF),
        35u8 => (0xD4, 0x80, 0xFF),
        36u8 => (0xFF, 0x45, 0xF3),
        37u8 => (0xFF, 0x61, 0x8B),
        38u8 => (0xFF, 0x88, 0x33),
        39u8 => (0xFF, 0x9C, 0x12),
        40u8 => (0xFA, 0xBC, 0x20),
        41u8 => (0x9F, 0xE3, 0x0E),
        42u8 => (0x2B, 0xF0, 0x35),
        43u8 => (0x0C, 0xF0, 0xA4),
        44u8 => (0x05, 0xFB, 0xFF),
        45u8 => (0x5E, 0x5E, 0x5E),
        46u8 => (0x0D, 0x0D, 0x0D),
        47u8 => (0x0D, 0x0D, 0x0D),
        48u8 => (0xFF, 0xFF, 0xFF),
        49u8 => (0xA6, 0xFC, 0xFF),
        50u8 => (0xB3, 0xEC, 0xFF),
        51u8 => (0xDA, 0xAB, 0xEB),
        52u8 => (0xFF, 0xA8, 0xF9),
        53u8 => (0xFF, 0xAB, 0xB3),
        54u8 => (0xFF, 0xD2, 0xB0),
        55u8 => (0xFF, 0xEF, 0xA6),
        56u8 => (0xFF, 0xF7, 0x9C),
        57u8 => (0xD7, 0xE8, 0x95),
        58u8 => (0xA6, 0xED, 0xAF),
        59u8 => (0xA2, 0xF2, 0xDA),
        60u8 => (0x99, 0xFF, 0xFC),
        61u8 => (0xDD, 0xDD, 0xDD),
        62u8 => (0x11, 0x11, 0x11),
        63u8 => (0x11, 0x11, 0x11),
        _ => (0x00, 0x00, 0x00),
    }
}

/// The system palette lookup, executable form.
pub fn system_palette_color(index: u8) -> (r: (u8, u8, u8))
    ensures
        r == spec_system_palette(index),
{
    match index {
        0u8 => (0x80, 0x80, 0x80),
        1u8 => (0x00, 0x3D, 0xA6),
        2u8 => (0x00, 0x12, 0xB0),
        3u8 => (0x44, 0x00, 0x96),
        4u8 => (0xA1, 0x00, 0x5E),
        5u8 => (0xC7, 0x00, 0x28),
        6u8 => (0xBA, 0x06, 0x00),
        7u8 => (0x8C, 0x17, 0x00),
        8u8 => (0x5C, 0x2F, 0x00),
        9u8 => (0x10, 0x45, 0x00),
        10u8 => (0x05, 0x4A, 0x00),
        11u8 => (0x00, 0x47, 0x2E),
        12u8 => (0x00, 0x41, 0x66),
        13u8 => (0x00, 0x00, 0x00),
        14u8 => (0x05, 0x05, 0x05),
        15u8 => (0x05, 0x05, 0x05),
        16u8 => (0xC7, 0xC7, 0xC7),
        17u8 => (0x00, 0x77, 0xFF),
        18u8 => (0x21, 0x55, 0xFF),
        19u8 => (0x82, 0x37, 0xFA),
        20u8 => (0xEB, 0x2F, 0xB5),
        21u8 => (0xFF, 0x29, 0x50),
        22u8 => (0xFF, 0x22, 0x00),
        23u8 => (0xD6, 0x32, 0x00),
        24u8 => (0xC4, 0x62, 0x00),
        25u8 => (0x35, 0x80, 0x00),
        26u8 => (0x05, 0x8F, 0x00),
        27u8 => (0x00, 0x8A, 0x55),
        28u8 => (0x00, 0x99, 0xCC),
        29u8 => (0x21, 0x21, 0x21),
        30u8 => (0x09, 0x09, 0x09),
        31u8 => (0x09, 0x09, 0x09),
        32u8 => (0xFF, 0xFF, 0xFF),
        33u8 => (0x0F, 0xD7, 0xFF),
        34u8 => (0x69, 0xA2, 0xFF),
        35u8 => (0xD4, 0x80, 0xFF),
        36u8 => (0xFF, 0x45, 0xF3),
        37u8 => (0xFF, 0x61, 0x8B),
        38u8 => (0xFF, 0x88, 0x33),
        39u8 => (0xFF, 0x9C, 0x12),
        40u8 => (0xFA, 0xBC, 0x20),
        41u8 => (0x9F, 0xE3, 0x0E),
        42u8 => (0x2B, 0xF0, 0x35),
        43u8 => (0x0C, 0xF0, 0xA4),
        44u8 => (0x05, 0xFB, 0xFF),
        45u8 => (0x5E, 0x5E, 0x5E),
        46u8 => (0x0D, 0x0D, 0x0D),
        47u8 => (0x0D, 0x0D, 0x0D),
        48u8 => (0xFF, 0xFF, 0xFF),
        49u8 => (0xA6, 0xFC, 0xFF),
        50u8 => (0xB3, 0xEC, 0xFF),
        51u8 => (0xDA, 0xAB, 0xEB),
        52u8 => (0xFF, 0xA8, 0xF9),
        53u8 => (0xFF, 0xAB, 0xB3),
        54u8 => (0xFF, 0xD2, 0xB0),
        55u8 => (0xFF, 0xEF, 0xA6),
        56u8 => (0xFF, 0xF7, 0x9C),
        57u8 => (0xD7, 0xE8, 0x95),
        58u8 => (0xA6, 0xED, 0xAF),
        59u8 => (0xA2, 0xF2, 0xDA),
        60u8 => (0x99, 0xFF, 0xFC),
        61u8 => (0xDD, 0xDD, 0xDD),
        62u8 => (0x11, 0x11, 0x11),
        63u8 => (0x11, 0x11, 0x11),
        _ => (0x00, 0x00, 0x00),
    }
}

} // verus!
