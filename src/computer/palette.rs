use vstd::prelude::*;

verus! {

/// The 64-entry system palette of the 2C02: each palette index as RGB.
pub open spec fn system_palette(index: u8) -> (u8, u8, u8) {
    if index == 0 {
        (0x80, 0x80, 0x80)
    } else if index == 1 {
        (0x00, 0x3D, 0xA6)
    } else if index == 2 {
        (0x00, 0x12, 0xB0)
    } else if index == 3 {
        (0x44, 0x00, 0x96)
    } else if index == 4 {
        (0xA1, 0x00, 0x5E)
    } else if index == 5 {
        (0xC7, 0x00, 0x28)
    } else if index == 6 {
        (0xBA, 0x06, 0x00)
    } else if index == 7 {
        (0x8C, 0x17, 0x00)
    } else if index == 8 {
        (0x5C, 0x2F, 0x00)
    } else if index == 9 {
        (0x10, 0x45, 0x00)
    } else if index == 10 {
        (0x05, 0x4A, 0x00)
    } else if index == 11 {
        (0x00, 0x47, 0x2E)
    } else if index == 12 {
        (0x00, 0x41, 0x66)
    } else if index == 13 {
        (0x00, 0x00, 0x00)
    } else if index == 14 {
        (0x05, 0x05, 0x05)
    } else if index == 15 {
        (0x05, 0x05, 0x05)
    } else if index == 16 {
        (0xC7, 0xC7, 0xC7)
    } else if index == 17 {
        (0x00, 0x77, 0xFF)
    } else if index == 18 {
        (0x21, 0x55, 0xFF)
    } else if index == 19 {
        (0x82, 0x37, 0xFA)
    } else if index == 20 {
        (0xEB, 0x2F, 0xB5)
    } else if index == 21 {
        (0xFF, 0x29, 0x50)
    } else if index == 22 {
        (0xFF, 0x22, 0x00)
    } else if index == 23 {
        (0xD6, 0x32, 0x00)
    } else if index == 24 {
        (0xC4, 0x62, 0x00)
    } else if index == 25 {
        (0x35, 0x80, 0x00)
    } else if index == 26 {
        (0x05, 0x8F, 0x00)
    } else if index == 27 {
        (0x00, 0x8A, 0x55)
    } else if index == 28 {
        (0x00, 0x99, 0xCC)
    } else if index == 29 {
        (0x21, 0x21, 0x21)
    } else if index == 30 {
        (0x09, 0x09, 0x09)
    } else if index == 31 {
        (0x09, 0x09, 0x09)
    } else if index == 32 {
        (0xFF, 0xFF, 0xFF)
    } else if index == 33 {
        (0x0F, 0xD7, 0xFF)
    } else if index == 34 {
        (0x69, 0xA2, 0xFF)
    } else if index == 35 {
        (0xD4, 0x80, 0xFF)
    } else if index == 36 {
        (0xFF, 0x45, 0xF3)
    } else if index == 37 {
        (0xFF, 0x61, 0x8B)
    } else if index == 38 {
        (0xFF, 0x88, 0x33)
    } else if index == 39 {
        (0xFF, 0x9C, 0x12)
    } else if index == 40 {
        (0xFA, 0xBC, 0x20)
    } else if index == 41 {
        (0x9F, 0xE3, 0x0E)
    } else if index == 42 {
        (0x2B, 0xF0, 0x35)
    } else if index == 43 {
        (0x0C, 0xF0, 0xA4)
    } else if index == 44 {
        (0x05, 0xFB, 0xFF)
    } else if index == 45 {
        (0x5E, 0x5E, 0x5E)
    } else if index == 46 {
        (0x0D, 0x0D, 0x0D)
    } else if index == 47 {
        (0x0D, 0x0D, 0x0D)
    } else if index == 48 {
        (0xFF, 0xFF, 0xFF)
    } else if index == 49 {
        (0xA6, 0xFC, 0xFF)
    } else if index == 50 {
        (0xB3, 0xEC, 0xFF)
    } else if index == 51 {
        (0xDA, 0xAB, 0xEB)
    } else if index == 52 {
        (0xFF, 0xA8, 0xF9)
    } else if index == 53 {
        (0xFF, 0xAB, 0xB3)
    } else if index == 54 {
        (0xFF, 0xD2, 0xB0)
    } else if index == 55 {
        (0xFF, 0xEF, 0xA6)
    } else if index == 56 {
        (0xFF, 0xF7, 0x9C)
    } else if index == 57 {
        (0xD7, 0xE8, 0x95)
    } else if index == 58 {
        (0xA6, 0xED, 0xAF)
    } else if index == 59 {
        (0xA2, 0xF2, 0xDA)
    } else if index == 60 {
        (0x99, 0xFF, 0xFC)
    } else if index == 61 {
        (0xDD, 0xDD, 0xDD)
    } else if index == 62 {
        (0x11, 0x11, 0x11)
    } else {
        (0x11, 0x11, 0x11)
    }
}

/// The RGB color of a system palette index.
pub fn system_color(index: u8) -> (r: (u8, u8, u8))
    requires
        index < 64,
    ensures
        r == system_palette(index),
{
    match index {
        0 => (0x80, 0x80, 0x80),
        1 => (0x00, 0x3D, 0xA6),
        2 => (0x00, 0x12, 0xB0),
        3 => (0x44, 0x00, 0x96),
        4 => (0xA1, 0x00, 0x5E),
        5 => (0xC7, 0x00, 0x28),
        6 => (0xBA, 0x06, 0x00),
        7 => (0x8C, 0x17, 0x00),
        8 => (0x5C, 0x2F, 0x00),
        9 => (0x10, 0x45, 0x00),
        10 => (0x05, 0x4A, 0x00),
        11 => (0x00, 0x47, 0x2E),
        12 => (0x00, 0x41, 0x66),
        13 => (0x00, 0x00, 0x00),
        14 => (0x05, 0x05, 0x05),
        15 => (0x05, 0x05, 0x05),
        16 => (0xC7, 0xC7, 0xC7),
        17 => (0x00, 0x77, 0xFF),
        18 => (0x21, 0x55, 0xFF),
        19 => (0x82, 0x37, 0xFA),
        20 => (0xEB, 0x2F, 0xB5),
        21 => (0xFF, 0x29, 0x50),
        22 => (0xFF, 0x22, 0x00),
        23 => (0xD6, 0x32, 0x00),
        24 => (0xC4, 0x62, 0x00),
        25 => (0x35, 0x80, 0x00),
        26 => (0x05, 0x8F, 0x00),
        27 => (0x00, 0x8A, 0x55),
        28 => (0x00, 0x99, 0xCC),
        29 => (0x21, 0x21, 0x21),
        30 => (0x09, 0x09, 0x09),
        31 => (0x09, 0x09, 0x09),
        32 => (0xFF, 0xFF, 0xFF),
        33 => (0x0F, 0xD7, 0xFF),
        34 => (0x69, 0xA2, 0xFF),
        35 => (0xD4, 0x80, 0xFF),
        36 => (0xFF, 0x45, 0xF3),
        37 => (0xFF, 0x61, 0x8B),
        38 => (0xFF, 0x88, 0x33),
        39 => (0xFF, 0x9C, 0x12),
        40 => (0xFA, 0xBC, 0x20),
        41 => (0x9F, 0xE3, 0x0E),
        42 => (0x2B, 0xF0, 0x35),
        43 => (0x0C, 0xF0, 0xA4),
        44 => (0x05, 0xFB, 0xFF),
        45 => (0x5E, 0x5E, 0x5E),
        46 => (0x0D, 0x0D, 0x0D),
        47 => (0x0D, 0x0D, 0x0D),
        48 => (0xFF, 0xFF, 0xFF),
        49 => (0xA6, 0xFC, 0xFF),
        50 => (0xB3, 0xEC, 0xFF),
        51 => (0xDA, 0xAB, 0xEB),
        52 => (0xFF, 0xA8, 0xF9),
        53 => (0xFF, 0xAB, 0xB3),
        54 => (0xFF, 0xD2, 0xB0),
        55 => (0xFF, 0xEF, 0xA6),
        56 => (0xFF, 0xF7, 0x9C),
        57 => (0xD7, 0xE8, 0x95),
        58 => (0xA6, 0xED, 0xAF),
        59 => (0xA2, 0xF2, 0xDA),
        60 => (0x99, 0xFF, 0xFC),
        61 => (0xDD, 0xDD, 0xDD),
        62 => (0x11, 0x11, 0x11),
        _ => (0x11, 0x11, 0x11),
    }
}

} // verus!
