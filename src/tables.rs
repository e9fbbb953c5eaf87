//! Classification of code points for display width, after the Unicode
//! Character Database (version 17.0.0): East_Asian_Width,
//! Default_Ignorable_Code_Point, Grapheme_Extend, Hangul_Syllable_Type,
//! Emoji_Presentation and the emoji variation sequences.
//!
//! Each property is stated as a union of code point ranges; each lookup is a
//! binary decision tree over the same ranges, proved to agree with it.
use vstd::prelude::*;

verus! {

/// The width class that the tables assign to a code point at or above U+00A0.
#[derive(Clone, Copy, Debug, PartialEq, Eq, Structural)]
pub enum WidthClass {
    /// No columns.
    Zero,
    /// One column.
    One,
    /// Two columns.
    Two,
    /// East Asian Ambiguous: one column, or two in a CJK context.
    Ambiguous,
}

/// The version of the Unicode Standard that the tables follow.
pub const UNICODE_VERSION: (u8, u8, u8) = (17, 0, 0);

/// The width class of a code point, as the tables give it.
pub open spec fn width_class_of(cp: u32) -> WidthClass {
    if is_zero_width(cp) {
        WidthClass::Zero
    } else if is_wide(cp) {
        WidthClass::Two
    } else if is_ambiguous(cp) {
        WidthClass::Ambiguous
    } else {
        WidthClass::One
    }
}

/// Code points of width zero: default ignorable, grapheme extenders, the vowel signs whose canonical decomposition is two extenders, and medial or final Hangul jamo (U+00AD excepted).
pub open spec fn is_zero_width(cp: u32) -> bool {
    is_zero_width_0(cp)
        || is_zero_width_1(cp)
        || is_zero_width_2(cp)
        || is_zero_width_3(cp)
        || is_zero_width_4(cp)
        || is_zero_width_5(cp)
        || is_zero_width_6(cp)
        || is_zero_width_7(cp)
        || is_zero_width_8(cp)
        || is_zero_width_9(cp)
        || is_zero_width_10(cp)
        || is_zero_width_11(cp)
        || is_zero_width_12(cp)
}

/// Ranges 0x300 to 0x94D of [`is_zero_width`].
pub open spec fn is_zero_width_0(cp: u32) -> bool {
    (0x300 <= cp <= 0x36F)
        || (0x483 <= cp <= 0x489)
        || (0x591 <= cp <= 0x5BD)
        || cp == 0x5BF
        || (0x5C1 <= cp <= 0x5C2)
        || (0x5C4 <= cp <= 0x5C5)
        || cp == 0x5C7
        || (0x610 <= cp <= 0x61A)
        || cp == 0x61C
        || (0x64B <= cp <= 0x65F)
        || cp == 0x670
        || (0x6D6 <= cp <= 0x6DC)
        || (0x6DF <= cp <= 0x6E4)
        || (0x6E7 <= cp <= 0x6E8)
        || (0x6EA <= cp <= 0x6ED)
        || cp == 0x711
        || (0x730 <= cp <= 0x74A)
        || (0x7A6 <= cp <= 0x7B0)
        || (0x7EB <= cp <= 0x7F3)
        || cp == 0x7FD
        || (0x816 <= cp <= 0x819)
        || (0x81B <= cp <= 0x823)
        || (0x825 <= cp <= 0x827)
        || (0x829 <= cp <= 0x82D)
        || (0x859 <= cp <= 0x85B)
        || (0x897 <= cp <= 0x89F)
        || (0x8CA <= cp <= 0x8E1)
        || (0x8E3 <= cp <= 0x902)
        || cp == 0x93A
        || cp == 0x93C
        || (0x941 <= cp <= 0x948)
        || cp == 0x94D
}

/// Ranges 0x951 to 0xB63 of [`is_zero_width`].
pub open spec fn is_zero_width_1(cp: u32) -> bool {
    (0x951 <= cp <= 0x957)
        || (0x962 <= cp <= 0x963)
        || cp == 0x981
        || cp == 0x9BC
        || cp == 0x9BE
        || (0x9C1 <= cp <= 0x9C4)
        || cp == 0x9CD
        || cp == 0x9D7
        || (0x9E2 <= cp <= 0x9E3)
        || cp == 0x9FE
        || (0xA01 <= cp <= 0xA02)
        || cp == 0xA3C
        || (0xA41 <= cp <= 0xA42)
        || (0xA47 <= cp <= 0xA48)
        || (0xA4B <= cp <= 0xA4D)
        || cp == 0xA51
        || (0xA70 <= cp <= 0xA71)
        || cp == 0xA75
        || (0xA81 <= cp <= 0xA82)
        || cp == 0xABC
        || (0xAC1 <= cp <= 0xAC5)
        || (0xAC7 <= cp <= 0xAC8)
        || cp == 0xACD
        || (0xAE2 <= cp <= 0xAE3)
        || (0xAFA <= cp <= 0xAFF)
        || cp == 0xB01
        || cp == 0xB3C
        || (0xB3E <= cp <= 0xB3F)
        || (0xB41 <= cp <= 0xB44)
        || cp == 0xB4D
        || (0xB55 <= cp <= 0xB57)
        || (0xB62 <= cp <= 0xB63)
}

/// Ranges 0xB82 to 0xDD4 of [`is_zero_width`].
pub open spec fn is_zero_width_2(cp: u32) -> bool {
    cp == 0xB82
        || cp == 0xBBE
        || cp == 0xBC0
        || cp == 0xBCD
        || cp == 0xBD7
        || cp == 0xC00
        || cp == 0xC04
        || cp == 0xC3C
        || (0xC3E <= cp <= 0xC40)
        || (0xC46 <= cp <= 0xC48)
        || (0xC4A <= cp <= 0xC4D)
        || (0xC55 <= cp <= 0xC56)
        || (0xC62 <= cp <= 0xC63)
        || cp == 0xC81
        || cp == 0xCBC
        || (0xCBF <= cp <= 0xCC0)
        || cp == 0xCC2
        || (0xCC6 <= cp <= 0xCC8)
        || (0xCCA <= cp <= 0xCCD)
        || (0xCD5 <= cp <= 0xCD6)
        || (0xCE2 <= cp <= 0xCE3)
        || (0xD00 <= cp <= 0xD01)
        || (0xD3B <= cp <= 0xD3C)
        || cp == 0xD3E
        || (0xD41 <= cp <= 0xD44)
        || cp == 0xD4D
        || cp == 0xD57
        || (0xD62 <= cp <= 0xD63)
        || cp == 0xD81
        || cp == 0xDCA
        || cp == 0xDCF
        || (0xDD2 <= cp <= 0xDD4)
}

/// Ranges 0xDD6 to 0x1715 of [`is_zero_width`].
pub open spec fn is_zero_width_3(cp: u32) -> bool {
    cp == 0xDD6
        || cp == 0xDDF
        || cp == 0xE31
        || (0xE34 <= cp <= 0xE3A)
        || (0xE47 <= cp <= 0xE4E)
        || cp == 0xEB1
        || (0xEB4 <= cp <= 0xEBC)
        || (0xEC8 <= cp <= 0xECE)
        || (0xF18 <= cp <= 0xF19)
        || cp == 0xF35
        || cp == 0xF37
        || cp == 0xF39
        || (0xF71 <= cp <= 0xF7E)
        || (0xF80 <= cp <= 0xF84)
        || (0xF86 <= cp <= 0xF87)
        || (0xF8D <= cp <= 0xF97)
        || (0xF99 <= cp <= 0xFBC)
        || cp == 0xFC6
        || (0x102D <= cp <= 0x1030)
        || (0x1032 <= cp <= 0x1037)
        || (0x1039 <= cp <= 0x103A)
        || (0x103D <= cp <= 0x103E)
        || (0x1058 <= cp <= 0x1059)
        || (0x105E <= cp <= 0x1060)
        || (0x1071 <= cp <= 0x1074)
        || cp == 0x1082
        || (0x1085 <= cp <= 0x1086)
        || cp == 0x108D
        || cp == 0x109D
        || (0x1160 <= cp <= 0x11FF)
        || (0x135D <= cp <= 0x135F)
        || (0x1712 <= cp <= 0x1715)
}

/// Ranges 0x1732 to 0x1BA5 of [`is_zero_width`].
pub open spec fn is_zero_width_4(cp: u32) -> bool {
    (0x1732 <= cp <= 0x1734)
        || (0x1752 <= cp <= 0x1753)
        || (0x1772 <= cp <= 0x1773)
        || (0x17B4 <= cp <= 0x17B5)
        || (0x17B7 <= cp <= 0x17BD)
        || cp == 0x17C6
        || (0x17C9 <= cp <= 0x17D3)
        || cp == 0x17DD
        || (0x180B <= cp <= 0x180F)
        || (0x1885 <= cp <= 0x1886)
        || cp == 0x18A9
        || (0x1920 <= cp <= 0x1922)
        || (0x1927 <= cp <= 0x1928)
        || cp == 0x1932
        || (0x1939 <= cp <= 0x193B)
        || (0x1A17 <= cp <= 0x1A18)
        || cp == 0x1A1B
        || cp == 0x1A56
        || (0x1A58 <= cp <= 0x1A5E)
        || cp == 0x1A60
        || cp == 0x1A62
        || (0x1A65 <= cp <= 0x1A6C)
        || (0x1A73 <= cp <= 0x1A7C)
        || cp == 0x1A7F
        || (0x1AB0 <= cp <= 0x1ADD)
        || (0x1AE0 <= cp <= 0x1AEB)
        || (0x1B00 <= cp <= 0x1B03)
        || (0x1B34 <= cp <= 0x1B3D)
        || (0x1B42 <= cp <= 0x1B44)
        || (0x1B6B <= cp <= 0x1B73)
        || (0x1B80 <= cp <= 0x1B81)
        || (0x1BA2 <= cp <= 0x1BA5)
}

/// Ranges 0x1BA8 to 0xA826 of [`is_zero_width`].
pub open spec fn is_zero_width_5(cp: u32) -> bool {
    (0x1BA8 <= cp <= 0x1BAD)
        || cp == 0x1BE6
        || (0x1BE8 <= cp <= 0x1BE9)
        || cp == 0x1BED
        || (0x1BEF <= cp <= 0x1BF3)
        || (0x1C2C <= cp <= 0x1C33)
        || (0x1C36 <= cp <= 0x1C37)
        || (0x1CD0 <= cp <= 0x1CD2)
        || (0x1CD4 <= cp <= 0x1CE0)
        || (0x1CE2 <= cp <= 0x1CE8)
        || cp == 0x1CED
        || cp == 0x1CF4
        || (0x1CF8 <= cp <= 0x1CF9)
        || (0x1DC0 <= cp <= 0x1DFF)
        || (0x200B <= cp <= 0x200F)
        || (0x202A <= cp <= 0x202E)
        || (0x2060 <= cp <= 0x206F)
        || (0x20D0 <= cp <= 0x20F0)
        || (0x2CEF <= cp <= 0x2CF1)
        || cp == 0x2D7F
        || (0x2DE0 <= cp <= 0x2DFF)
        || (0x302A <= cp <= 0x302F)
        || (0x3099 <= cp <= 0x309A)
        || cp == 0x3164
        || (0xA66F <= cp <= 0xA672)
        || (0xA674 <= cp <= 0xA67D)
        || (0xA69E <= cp <= 0xA69F)
        || (0xA6F0 <= cp <= 0xA6F1)
        || cp == 0xA802
        || cp == 0xA806
        || cp == 0xA80B
        || (0xA825 <= cp <= 0xA826)
}

/// Ranges 0xA82C to 0xFB1E of [`is_zero_width`].
pub open spec fn is_zero_width_6(cp: u32) -> bool {
    cp == 0xA82C
        || (0xA8C4 <= cp <= 0xA8C5)
        || (0xA8E0 <= cp <= 0xA8F1)
        || cp == 0xA8FF
        || (0xA926 <= cp <= 0xA92D)
        || (0xA947 <= cp <= 0xA951)
        || cp == 0xA953
        || (0xA980 <= cp <= 0xA982)
        || cp == 0xA9B3
        || (0xA9B6 <= cp <= 0xA9B9)
        || (0xA9BC <= cp <= 0xA9BD)
        || cp == 0xA9C0
        || cp == 0xA9E5
        || (0xAA29 <= cp <= 0xAA2E)
        || (0xAA31 <= cp <= 0xAA32)
        || (0xAA35 <= cp <= 0xAA36)
        || cp == 0xAA43
        || cp == 0xAA4C
        || cp == 0xAA7C
        || cp == 0xAAB0
        || (0xAAB2 <= cp <= 0xAAB4)
        || (0xAAB7 <= cp <= 0xAAB8)
        || (0xAABE <= cp <= 0xAABF)
        || cp == 0xAAC1
        || (0xAAEC <= cp <= 0xAAED)
        || cp == 0xAAF6
        || cp == 0xABE5
        || cp == 0xABE8
        || cp == 0xABED
        || (0xD7B0 <= cp <= 0xD7C6)
        || (0xD7CB <= cp <= 0xD7FB)
        || cp == 0xFB1E
}

/// Ranges 0xFE00 to 0x11173 of [`is_zero_width`].
pub open spec fn is_zero_width_7(cp: u32) -> bool {
    (0xFE00 <= cp <= 0xFE0F)
        || (0xFE20 <= cp <= 0xFE2F)
        || cp == 0xFEFF
        || (0xFF9E <= cp <= 0xFFA0)
        || (0xFFF0 <= cp <= 0xFFF8)
        || cp == 0x101FD
        || cp == 0x102E0
        || (0x10376 <= cp <= 0x1037A)
        || (0x10A01 <= cp <= 0x10A03)
        || (0x10A05 <= cp <= 0x10A06)
        || (0x10A0C <= cp <= 0x10A0F)
        || (0x10A38 <= cp <= 0x10A3A)
        || cp == 0x10A3F
        || (0x10AE5 <= cp <= 0x10AE6)
        || (0x10D24 <= cp <= 0x10D27)
        || (0x10D69 <= cp <= 0x10D6D)
        || (0x10EAB <= cp <= 0x10EAC)
        || (0x10EFA <= cp <= 0x10EFF)
        || (0x10F46 <= cp <= 0x10F50)
        || (0x10F82 <= cp <= 0x10F85)
        || cp == 0x11001
        || (0x11038 <= cp <= 0x11046)
        || cp == 0x11070
        || (0x11073 <= cp <= 0x11074)
        || (0x1107F <= cp <= 0x11081)
        || (0x110B3 <= cp <= 0x110B6)
        || (0x110B9 <= cp <= 0x110BA)
        || cp == 0x110C2
        || (0x11100 <= cp <= 0x11102)
        || (0x11127 <= cp <= 0x1112B)
        || (0x1112D <= cp <= 0x11134)
        || cp == 0x11173
}

/// Ranges 0x11180 to 0x114B0 of [`is_zero_width`].
pub open spec fn is_zero_width_8(cp: u32) -> bool {
    (0x11180 <= cp <= 0x11181)
        || (0x111B6 <= cp <= 0x111BE)
        || cp == 0x111C0
        || (0x111C9 <= cp <= 0x111CC)
        || cp == 0x111CF
        || (0x1122F <= cp <= 0x11231)
        || (0x11234 <= cp <= 0x11237)
        || cp == 0x1123E
        || cp == 0x11241
        || cp == 0x112DF
        || (0x112E3 <= cp <= 0x112EA)
        || (0x11300 <= cp <= 0x11301)
        || (0x1133B <= cp <= 0x1133C)
        || cp == 0x1133E
        || cp == 0x11340
        || cp == 0x1134D
        || cp == 0x11357
        || (0x11366 <= cp <= 0x1136C)
        || (0x11370 <= cp <= 0x11374)
        || cp == 0x113B8
        || (0x113BB <= cp <= 0x113C0)
        || cp == 0x113C2
        || cp == 0x113C5
        || (0x113C7 <= cp <= 0x113C9)
        || (0x113CE <= cp <= 0x113D0)
        || cp == 0x113D2
        || (0x113E1 <= cp <= 0x113E2)
        || (0x11438 <= cp <= 0x1143F)
        || (0x11442 <= cp <= 0x11444)
        || cp == 0x11446
        || cp == 0x1145E
        || cp == 0x114B0
}

/// Ranges 0x114B3 to 0x11A47 of [`is_zero_width`].
pub open spec fn is_zero_width_9(cp: u32) -> bool {
    (0x114B3 <= cp <= 0x114B8)
        || cp == 0x114BA
        || cp == 0x114BD
        || (0x114BF <= cp <= 0x114C0)
        || (0x114C2 <= cp <= 0x114C3)
        || cp == 0x115AF
        || (0x115B2 <= cp <= 0x115B5)
        || (0x115BC <= cp <= 0x115BD)
        || (0x115BF <= cp <= 0x115C0)
        || (0x115DC <= cp <= 0x115DD)
        || (0x11633 <= cp <= 0x1163A)
        || cp == 0x1163D
        || (0x1163F <= cp <= 0x11640)
        || cp == 0x116AB
        || cp == 0x116AD
        || (0x116B0 <= cp <= 0x116B7)
        || cp == 0x1171D
        || cp == 0x1171F
        || (0x11722 <= cp <= 0x11725)
        || (0x11727 <= cp <= 0x1172B)
        || (0x1182F <= cp <= 0x11837)
        || (0x11839 <= cp <= 0x1183A)
        || cp == 0x11930
        || (0x1193B <= cp <= 0x1193E)
        || cp == 0x11943
        || (0x119D4 <= cp <= 0x119D7)
        || (0x119DA <= cp <= 0x119DB)
        || cp == 0x119E0
        || (0x11A01 <= cp <= 0x11A0A)
        || (0x11A33 <= cp <= 0x11A38)
        || (0x11A3B <= cp <= 0x11A3E)
        || cp == 0x11A47
}

/// Ranges 0x11A51 to 0x16AF4 of [`is_zero_width`].
pub open spec fn is_zero_width_10(cp: u32) -> bool {
    (0x11A51 <= cp <= 0x11A56)
        || (0x11A59 <= cp <= 0x11A5B)
        || (0x11A8A <= cp <= 0x11A96)
        || (0x11A98 <= cp <= 0x11A99)
        || cp == 0x11B60
        || (0x11B62 <= cp <= 0x11B64)
        || cp == 0x11B66
        || (0x11C30 <= cp <= 0x11C36)
        || (0x11C38 <= cp <= 0x11C3D)
        || cp == 0x11C3F
        || (0x11C92 <= cp <= 0x11CA7)
        || (0x11CAA <= cp <= 0x11CB0)
        || (0x11CB2 <= cp <= 0x11CB3)
        || (0x11CB5 <= cp <= 0x11CB6)
        || (0x11D31 <= cp <= 0x11D36)
        || cp == 0x11D3A
        || (0x11D3C <= cp <= 0x11D3D)
        || (0x11D3F <= cp <= 0x11D45)
        || cp == 0x11D47
        || (0x11D90 <= cp <= 0x11D91)
        || cp == 0x11D95
        || cp == 0x11D97
        || (0x11EF3 <= cp <= 0x11EF4)
        || (0x11F00 <= cp <= 0x11F01)
        || (0x11F36 <= cp <= 0x11F3A)
        || (0x11F40 <= cp <= 0x11F42)
        || cp == 0x11F5A
        || cp == 0x13440
        || (0x13447 <= cp <= 0x13455)
        || (0x1611E <= cp <= 0x16129)
        || (0x1612D <= cp <= 0x1612F)
        || (0x16AF0 <= cp <= 0x16AF4)
}

/// Ranges 0x16B30 to 0x1E6E3 of [`is_zero_width`].
pub open spec fn is_zero_width_11(cp: u32) -> bool {
    (0x16B30 <= cp <= 0x16B36)
        || cp == 0x16F4F
        || (0x16F8F <= cp <= 0x16F92)
        || cp == 0x16FE4
        || (0x16FF0 <= cp <= 0x16FF1)
        || (0x1BC9D <= cp <= 0x1BC9E)
        || (0x1BCA0 <= cp <= 0x1BCA3)
        || (0x1CF00 <= cp <= 0x1CF2D)
        || (0x1CF30 <= cp <= 0x1CF46)
        || (0x1D165 <= cp <= 0x1D169)
        || (0x1D16D <= cp <= 0x1D182)
        || (0x1D185 <= cp <= 0x1D18B)
        || (0x1D1AA <= cp <= 0x1D1AD)
        || (0x1D242 <= cp <= 0x1D244)
        || (0x1DA00 <= cp <= 0x1DA36)
        || (0x1DA3B <= cp <= 0x1DA6C)
        || cp == 0x1DA75
        || cp == 0x1DA84
        || (0x1DA9B <= cp <= 0x1DA9F)
        || (0x1DAA1 <= cp <= 0x1DAAF)
        || (0x1E000 <= cp <= 0x1E006)
        || (0x1E008 <= cp <= 0x1E018)
        || (0x1E01B <= cp <= 0x1E021)
        || (0x1E023 <= cp <= 0x1E024)
        || (0x1E026 <= cp <= 0x1E02A)
        || cp == 0x1E08F
        || (0x1E130 <= cp <= 0x1E136)
        || cp == 0x1E2AE
        || (0x1E2EC <= cp <= 0x1E2EF)
        || (0x1E4EC <= cp <= 0x1E4EF)
        || (0x1E5EE <= cp <= 0x1E5EF)
        || cp == 0x1E6E3
}

/// Ranges 0x1E6E6 to 0xE0FFF of [`is_zero_width`].
pub open spec fn is_zero_width_12(cp: u32) -> bool {
    cp == 0x1E6E6
        || (0x1E6EE <= cp <= 0x1E6EF)
        || cp == 0x1E6F5
        || (0x1E8D0 <= cp <= 0x1E8D6)
        || (0x1E944 <= cp <= 0x1E94A)
        || (0xE0000 <= cp <= 0xE0FFF)
}

/// Code points of width two: East Asian Wide or Fullwidth, and U+115F, when not of width zero.
pub open spec fn is_wide(cp: u32) -> bool {
    is_wide_0(cp)
        || is_wide_1(cp)
        || is_wide_2(cp)
        || is_wide_3(cp)
        || is_wide_4(cp)
        || is_wide_5(cp)
        || is_wide_6(cp)
        || is_wide_7(cp)
        || is_wide_8(cp)
        || is_wide_9(cp)
        || is_wide_10(cp)
        || is_wide_11(cp)
        || is_wide_12(cp)
        || is_wide_13(cp)
        || is_wide_14(cp)
        || is_wide_15(cp)
        || is_wide_16(cp)
        || is_wide_17(cp)
        || is_wide_18(cp)
        || is_wide_19(cp)
        || is_wide_20(cp)
        || is_wide_21(cp)
        || is_wide_22(cp)
        || is_wide_23(cp)
}

/// Ranges 0x378 to 0x9D6 of [`is_wide`].
pub open spec fn is_wide_0(cp: u32) -> bool {
    (0x378 <= cp <= 0x379)
        || (0x380 <= cp <= 0x383)
        || cp == 0x38B
        || cp == 0x38D
        || cp == 0x3A2
        || cp == 0x530
        || (0x557 <= cp <= 0x558)
        || (0x58B <= cp <= 0x58C)
        || cp == 0x590
        || (0x5C8 <= cp <= 0x5CF)
        || (0x5EB <= cp <= 0x5EE)
        || (0x5F5 <= cp <= 0x5FF)
        || cp == 0x70E
        || (0x74B <= cp <= 0x74C)
        || (0x7B2 <= cp <= 0x7BF)
        || (0x7FB <= cp <= 0x7FC)
        || (0x82E <= cp <= 0x82F)
        || cp == 0x83F
        || (0x85C <= cp <= 0x85D)
        || cp == 0x85F
        || (0x86B <= cp <= 0x86F)
        || (0x892 <= cp <= 0x896)
        || cp == 0x984
        || (0x98D <= cp <= 0x98E)
        || (0x991 <= cp <= 0x992)
        || cp == 0x9A9
        || cp == 0x9B1
        || (0x9B3 <= cp <= 0x9B5)
        || (0x9BA <= cp <= 0x9BB)
        || (0x9C5 <= cp <= 0x9C6)
        || (0x9C9 <= cp <= 0x9CA)
        || (0x9CF <= cp <= 0x9D6)
}

/// Ranges 0x9D8 to 0xAE5 of [`is_wide`].
pub open spec fn is_wide_1(cp: u32) -> bool {
    (0x9D8 <= cp <= 0x9DB)
        || cp == 0x9DE
        || (0x9E4 <= cp <= 0x9E5)
        || (0x9FF <= cp <= 0xA00)
        || cp == 0xA04
        || (0xA0B <= cp <= 0xA0E)
        || (0xA11 <= cp <= 0xA12)
        || cp == 0xA29
        || cp == 0xA31
        || cp == 0xA34
        || cp == 0xA37
        || (0xA3A <= cp <= 0xA3B)
        || cp == 0xA3D
        || (0xA43 <= cp <= 0xA46)
        || (0xA49 <= cp <= 0xA4A)
        || (0xA4E <= cp <= 0xA50)
        || (0xA52 <= cp <= 0xA58)
        || cp == 0xA5D
        || (0xA5F <= cp <= 0xA65)
        || (0xA77 <= cp <= 0xA80)
        || cp == 0xA84
        || cp == 0xA8E
        || cp == 0xA92
        || cp == 0xAA9
        || cp == 0xAB1
        || cp == 0xAB4
        || (0xABA <= cp <= 0xABB)
        || cp == 0xAC6
        || cp == 0xACA
        || (0xACE <= cp <= 0xACF)
        || (0xAD1 <= cp <= 0xADF)
        || (0xAE4 <= cp <= 0xAE5)
}

/// Ranges 0xAF2 to 0xBFF of [`is_wide`].
pub open spec fn is_wide_2(cp: u32) -> bool {
    (0xAF2 <= cp <= 0xAF8)
        || cp == 0xB00
        || cp == 0xB04
        || (0xB0D <= cp <= 0xB0E)
        || (0xB11 <= cp <= 0xB12)
        || cp == 0xB29
        || cp == 0xB31
        || cp == 0xB34
        || (0xB3A <= cp <= 0xB3B)
        || (0xB45 <= cp <= 0xB46)
        || (0xB49 <= cp <= 0xB4A)
        || (0xB4E <= cp <= 0xB54)
        || (0xB58 <= cp <= 0xB5B)
        || cp == 0xB5E
        || (0xB64 <= cp <= 0xB65)
        || (0xB78 <= cp <= 0xB81)
        || cp == 0xB84
        || (0xB8B <= cp <= 0xB8D)
        || cp == 0xB91
        || (0xB96 <= cp <= 0xB98)
        || cp == 0xB9B
        || cp == 0xB9D
        || (0xBA0 <= cp <= 0xBA2)
        || (0xBA5 <= cp <= 0xBA7)
        || (0xBAB <= cp <= 0xBAD)
        || (0xBBA <= cp <= 0xBBD)
        || (0xBC3 <= cp <= 0xBC5)
        || cp == 0xBC9
        || (0xBCE <= cp <= 0xBCF)
        || (0xBD1 <= cp <= 0xBD6)
        || (0xBD8 <= cp <= 0xBE5)
        || (0xBFB <= cp <= 0xBFF)
}

/// Ranges 0xC0D to 0xD80 of [`is_wide`].
pub open spec fn is_wide_3(cp: u32) -> bool {
    cp == 0xC0D
        || cp == 0xC11
        || cp == 0xC29
        || (0xC3A <= cp <= 0xC3B)
        || cp == 0xC45
        || cp == 0xC49
        || (0xC4E <= cp <= 0xC54)
        || cp == 0xC57
        || cp == 0xC5B
        || (0xC5E <= cp <= 0xC5F)
        || (0xC64 <= cp <= 0xC65)
        || (0xC70 <= cp <= 0xC76)
        || cp == 0xC8D
        || cp == 0xC91
        || cp == 0xCA9
        || cp == 0xCB4
        || (0xCBA <= cp <= 0xCBB)
        || cp == 0xCC5
        || cp == 0xCC9
        || (0xCCE <= cp <= 0xCD4)
        || (0xCD7 <= cp <= 0xCDB)
        || cp == 0xCDF
        || (0xCE4 <= cp <= 0xCE5)
        || cp == 0xCF0
        || (0xCF4 <= cp <= 0xCFF)
        || cp == 0xD0D
        || cp == 0xD11
        || cp == 0xD45
        || cp == 0xD49
        || (0xD50 <= cp <= 0xD53)
        || (0xD64 <= cp <= 0xD65)
        || cp == 0xD80
}

/// Ranges 0xD84 to 0x10C6 of [`is_wide`].
pub open spec fn is_wide_4(cp: u32) -> bool {
    cp == 0xD84
        || (0xD97 <= cp <= 0xD99)
        || cp == 0xDB2
        || cp == 0xDBC
        || (0xDBE <= cp <= 0xDBF)
        || (0xDC7 <= cp <= 0xDC9)
        || (0xDCB <= cp <= 0xDCE)
        || cp == 0xDD5
        || cp == 0xDD7
        || (0xDE0 <= cp <= 0xDE5)
        || (0xDF0 <= cp <= 0xDF1)
        || (0xDF5 <= cp <= 0xE00)
        || (0xE3B <= cp <= 0xE3E)
        || (0xE5C <= cp <= 0xE80)
        || cp == 0xE83
        || cp == 0xE85
        || cp == 0xE8B
        || cp == 0xEA4
        || cp == 0xEA6
        || (0xEBE <= cp <= 0xEBF)
        || cp == 0xEC5
        || cp == 0xEC7
        || cp == 0xECF
        || (0xEDA <= cp <= 0xEDB)
        || (0xEE0 <= cp <= 0xEFF)
        || cp == 0xF48
        || (0xF6D <= cp <= 0xF70)
        || cp == 0xF98
        || cp == 0xFBD
        || cp == 0xFCD
        || (0xFDB <= cp <= 0xFFF)
        || cp == 0x10C6
}

/// Ranges 0x10C8 to 0x17DF of [`is_wide`].
pub open spec fn is_wide_5(cp: u32) -> bool {
    (0x10C8 <= cp <= 0x10CC)
        || (0x10CE <= cp <= 0x10CF)
        || (0x1100 <= cp <= 0x115F)
        || cp == 0x1249
        || (0x124E <= cp <= 0x124F)
        || cp == 0x1257
        || cp == 0x1259
        || (0x125E <= cp <= 0x125F)
        || cp == 0x1289
        || (0x128E <= cp <= 0x128F)
        || cp == 0x12B1
        || (0x12B6 <= cp <= 0x12B7)
        || cp == 0x12BF
        || cp == 0x12C1
        || (0x12C6 <= cp <= 0x12C7)
        || cp == 0x12D7
        || cp == 0x1311
        || (0x1316 <= cp <= 0x1317)
        || (0x135B <= cp <= 0x135C)
        || (0x137D <= cp <= 0x137F)
        || (0x139A <= cp <= 0x139F)
        || (0x13F6 <= cp <= 0x13F7)
        || (0x13FE <= cp <= 0x13FF)
        || (0x169D <= cp <= 0x169F)
        || (0x16F9 <= cp <= 0x16FF)
        || (0x1716 <= cp <= 0x171E)
        || (0x1737 <= cp <= 0x173F)
        || (0x1754 <= cp <= 0x175F)
        || cp == 0x176D
        || cp == 0x1771
        || (0x1774 <= cp <= 0x177F)
        || (0x17DE <= cp <= 0x17DF)
}

/// Ranges 0x17EA to 0x1F17 of [`is_wide`].
pub open spec fn is_wide_6(cp: u32) -> bool {
    (0x17EA <= cp <= 0x17EF)
        || (0x17FA <= cp <= 0x17FF)
        || (0x181A <= cp <= 0x181F)
        || (0x1879 <= cp <= 0x187F)
        || (0x18AB <= cp <= 0x18AF)
        || (0x18F6 <= cp <= 0x18FF)
        || cp == 0x191F
        || (0x192C <= cp <= 0x192F)
        || (0x193C <= cp <= 0x193F)
        || (0x1941 <= cp <= 0x1943)
        || (0x196E <= cp <= 0x196F)
        || (0x1975 <= cp <= 0x197F)
        || (0x19AC <= cp <= 0x19AF)
        || (0x19CA <= cp <= 0x19CF)
        || (0x19DB <= cp <= 0x19DD)
        || (0x1A1C <= cp <= 0x1A1D)
        || cp == 0x1A5F
        || (0x1A7D <= cp <= 0x1A7E)
        || (0x1A8A <= cp <= 0x1A8F)
        || (0x1A9A <= cp <= 0x1A9F)
        || (0x1AAE <= cp <= 0x1AAF)
        || (0x1ADE <= cp <= 0x1ADF)
        || (0x1AEC <= cp <= 0x1AFF)
        || cp == 0x1B4D
        || (0x1BF4 <= cp <= 0x1BFB)
        || (0x1C38 <= cp <= 0x1C3A)
        || (0x1C4A <= cp <= 0x1C4C)
        || (0x1C8B <= cp <= 0x1C8F)
        || (0x1CBB <= cp <= 0x1CBC)
        || (0x1CC8 <= cp <= 0x1CCF)
        || (0x1CFB <= cp <= 0x1CFF)
        || (0x1F16 <= cp <= 0x1F17)
}

/// Ranges 0x1F1E to 0x2653 of [`is_wide`].
pub open spec fn is_wide_7(cp: u32) -> bool {
    (0x1F1E <= cp <= 0x1F1F)
        || (0x1F46 <= cp <= 0x1F47)
        || (0x1F4E <= cp <= 0x1F4F)
        || cp == 0x1F58
        || cp == 0x1F5A
        || cp == 0x1F5C
        || cp == 0x1F5E
        || (0x1F7E <= cp <= 0x1F7F)
        || cp == 0x1FB5
        || cp == 0x1FC5
        || (0x1FD4 <= cp <= 0x1FD5)
        || cp == 0x1FDC
        || (0x1FF0 <= cp <= 0x1FF1)
        || cp == 0x1FF5
        || cp == 0x1FFF
        || (0x2072 <= cp <= 0x2073)
        || cp == 0x208F
        || (0x209D <= cp <= 0x209F)
        || (0x20C2 <= cp <= 0x20CF)
        || (0x20F1 <= cp <= 0x20FF)
        || (0x218C <= cp <= 0x218F)
        || (0x231A <= cp <= 0x231B)
        || (0x2329 <= cp <= 0x232A)
        || (0x23E9 <= cp <= 0x23EC)
        || cp == 0x23F0
        || cp == 0x23F3
        || (0x242A <= cp <= 0x243F)
        || (0x244B <= cp <= 0x245F)
        || (0x25FD <= cp <= 0x25FE)
        || (0x2614 <= cp <= 0x2615)
        || (0x2630 <= cp <= 0x2637)
        || (0x2648 <= cp <= 0x2653)
}

/// Ranges 0x267F to 0x2D2F of [`is_wide`].
pub open spec fn is_wide_8(cp: u32) -> bool {
    cp == 0x267F
        || (0x268A <= cp <= 0x268F)
        || cp == 0x2693
        || cp == 0x26A1
        || (0x26AA <= cp <= 0x26AB)
        || (0x26BD <= cp <= 0x26BE)
        || (0x26C4 <= cp <= 0x26C5)
        || cp == 0x26CE
        || cp == 0x26D4
        || cp == 0x26EA
        || (0x26F2 <= cp <= 0x26F3)
        || cp == 0x26F5
        || cp == 0x26FA
        || cp == 0x26FD
        || cp == 0x2705
        || (0x270A <= cp <= 0x270B)
        || cp == 0x2728
        || cp == 0x274C
        || cp == 0x274E
        || (0x2753 <= cp <= 0x2755)
        || cp == 0x2757
        || (0x2795 <= cp <= 0x2797)
        || cp == 0x27B0
        || cp == 0x27BF
        || (0x2B1B <= cp <= 0x2B1C)
        || cp == 0x2B50
        || cp == 0x2B55
        || (0x2B74 <= cp <= 0x2B75)
        || (0x2CF4 <= cp <= 0x2CF8)
        || cp == 0x2D26
        || (0x2D28 <= cp <= 0x2D2C)
        || (0x2D2E <= cp <= 0x2D2F)
}

/// Ranges 0x2D68 to 0xAA4F of [`is_wide`].
pub open spec fn is_wide_9(cp: u32) -> bool {
    (0x2D68 <= cp <= 0x2D6E)
        || (0x2D71 <= cp <= 0x2D7E)
        || (0x2D97 <= cp <= 0x2D9F)
        || cp == 0x2DA7
        || cp == 0x2DAF
        || cp == 0x2DB7
        || cp == 0x2DBF
        || cp == 0x2DC7
        || cp == 0x2DCF
        || cp == 0x2DD7
        || cp == 0x2DDF
        || (0x2E5E <= cp <= 0x3029)
        || (0x3030 <= cp <= 0x303E)
        || (0x3040 <= cp <= 0x3098)
        || (0x309B <= cp <= 0x3163)
        || (0x3165 <= cp <= 0x3247)
        || (0x3250 <= cp <= 0xA4CF)
        || (0xA62C <= cp <= 0xA63F)
        || (0xA6F8 <= cp <= 0xA6FF)
        || (0xA7DD <= cp <= 0xA7F0)
        || (0xA82D <= cp <= 0xA82F)
        || (0xA83A <= cp <= 0xA83F)
        || (0xA878 <= cp <= 0xA87F)
        || (0xA8C6 <= cp <= 0xA8CD)
        || (0xA8DA <= cp <= 0xA8DF)
        || (0xA954 <= cp <= 0xA95E)
        || (0xA960 <= cp <= 0xA97F)
        || cp == 0xA9CE
        || (0xA9DA <= cp <= 0xA9DD)
        || cp == 0xA9FF
        || (0xAA37 <= cp <= 0xAA3F)
        || (0xAA4E <= cp <= 0xAA4F)
}

/// Ranges 0xAA5A to 0xFFE7 of [`is_wide`].
pub open spec fn is_wide_10(cp: u32) -> bool {
    (0xAA5A <= cp <= 0xAA5B)
        || (0xAAC3 <= cp <= 0xAADA)
        || (0xAAF7 <= cp <= 0xAB00)
        || (0xAB07 <= cp <= 0xAB08)
        || (0xAB0F <= cp <= 0xAB10)
        || (0xAB17 <= cp <= 0xAB1F)
        || cp == 0xAB27
        || cp == 0xAB2F
        || (0xAB6C <= cp <= 0xAB6F)
        || (0xABEE <= cp <= 0xABEF)
        || (0xABFA <= cp <= 0xD7AF)
        || (0xD7C7 <= cp <= 0xD7CA)
        || (0xD7FC <= cp <= 0xD7FF)
        || (0xF900 <= cp <= 0xFAFF)
        || (0xFB07 <= cp <= 0xFB12)
        || (0xFB18 <= cp <= 0xFB1C)
        || cp == 0xFB37
        || cp == 0xFB3D
        || cp == 0xFB3F
        || cp == 0xFB42
        || cp == 0xFB45
        || (0xFDD0 <= cp <= 0xFDEF)
        || (0xFE10 <= cp <= 0xFE1F)
        || (0xFE30 <= cp <= 0xFE6F)
        || cp == 0xFE75
        || (0xFEFD <= cp <= 0xFEFE)
        || (0xFF00 <= cp <= 0xFF60)
        || (0xFFBF <= cp <= 0xFFC1)
        || (0xFFC8 <= cp <= 0xFFC9)
        || (0xFFD0 <= cp <= 0xFFD1)
        || (0xFFD8 <= cp <= 0xFFD9)
        || (0xFFDD <= cp <= 0xFFE7)
}

/// Ranges 0xFFEF to 0x1058B of [`is_wide`].
pub open spec fn is_wide_11(cp: u32) -> bool {
    cp == 0xFFEF
        || (0xFFFE <= cp <= 0xFFFF)
        || cp == 0x1000C
        || cp == 0x10027
        || cp == 0x1003B
        || cp == 0x1003E
        || (0x1004E <= cp <= 0x1004F)
        || (0x1005E <= cp <= 0x1007F)
        || (0x100FB <= cp <= 0x100FF)
        || (0x10103 <= cp <= 0x10106)
        || (0x10134 <= cp <= 0x10136)
        || cp == 0x1018F
        || (0x1019D <= cp <= 0x1019F)
        || (0x101A1 <= cp <= 0x101CF)
        || (0x101FE <= cp <= 0x1027F)
        || (0x1029D <= cp <= 0x1029F)
        || (0x102D1 <= cp <= 0x102DF)
        || (0x102FC <= cp <= 0x102FF)
        || (0x10324 <= cp <= 0x1032C)
        || (0x1034B <= cp <= 0x1034F)
        || (0x1037B <= cp <= 0x1037F)
        || cp == 0x1039E
        || (0x103C4 <= cp <= 0x103C7)
        || (0x103D6 <= cp <= 0x103FF)
        || (0x1049E <= cp <= 0x1049F)
        || (0x104AA <= cp <= 0x104AF)
        || (0x104D4 <= cp <= 0x104D7)
        || (0x104FC <= cp <= 0x104FF)
        || (0x10528 <= cp <= 0x1052F)
        || (0x10564 <= cp <= 0x1056E)
        || cp == 0x1057B
        || cp == 0x1058B
}

/// Ranges 0x10593 to 0x10A18 of [`is_wide`].
pub open spec fn is_wide_12(cp: u32) -> bool {
    cp == 0x10593
        || cp == 0x10596
        || cp == 0x105A2
        || cp == 0x105B2
        || cp == 0x105BA
        || (0x105BD <= cp <= 0x105BF)
        || (0x105F4 <= cp <= 0x105FF)
        || (0x10737 <= cp <= 0x1073F)
        || (0x10756 <= cp <= 0x1075F)
        || (0x10768 <= cp <= 0x1077F)
        || cp == 0x10786
        || cp == 0x107B1
        || (0x107BB <= cp <= 0x107FF)
        || (0x10806 <= cp <= 0x10807)
        || cp == 0x10809
        || cp == 0x10836
        || (0x10839 <= cp <= 0x1083B)
        || (0x1083D <= cp <= 0x1083E)
        || cp == 0x10856
        || (0x1089F <= cp <= 0x108A6)
        || (0x108B0 <= cp <= 0x108DF)
        || cp == 0x108F3
        || (0x108F6 <= cp <= 0x108FA)
        || (0x1091C <= cp <= 0x1091E)
        || (0x1093A <= cp <= 0x1093E)
        || (0x1095A <= cp <= 0x1097F)
        || (0x109B8 <= cp <= 0x109BB)
        || (0x109D0 <= cp <= 0x109D1)
        || cp == 0x10A04
        || (0x10A07 <= cp <= 0x10A0B)
        || cp == 0x10A14
        || cp == 0x10A18
}

/// Ranges 0x10A36 to 0x10FFF of [`is_wide`].
pub open spec fn is_wide_13(cp: u32) -> bool {
    (0x10A36 <= cp <= 0x10A37)
        || (0x10A3B <= cp <= 0x10A3E)
        || (0x10A49 <= cp <= 0x10A4F)
        || (0x10A59 <= cp <= 0x10A5F)
        || (0x10AA0 <= cp <= 0x10ABF)
        || (0x10AE7 <= cp <= 0x10AEA)
        || (0x10AF7 <= cp <= 0x10AFF)
        || (0x10B36 <= cp <= 0x10B38)
        || (0x10B56 <= cp <= 0x10B57)
        || (0x10B73 <= cp <= 0x10B77)
        || (0x10B92 <= cp <= 0x10B98)
        || (0x10B9D <= cp <= 0x10BA8)
        || (0x10BB0 <= cp <= 0x10BFF)
        || (0x10C49 <= cp <= 0x10C7F)
        || (0x10CB3 <= cp <= 0x10CBF)
        || (0x10CF3 <= cp <= 0x10CF9)
        || (0x10D28 <= cp <= 0x10D2F)
        || (0x10D3A <= cp <= 0x10D3F)
        || (0x10D66 <= cp <= 0x10D68)
        || (0x10D86 <= cp <= 0x10D8D)
        || (0x10D90 <= cp <= 0x10E5F)
        || cp == 0x10E7F
        || cp == 0x10EAA
        || (0x10EAE <= cp <= 0x10EAF)
        || (0x10EB2 <= cp <= 0x10EC1)
        || (0x10EC8 <= cp <= 0x10ECF)
        || (0x10ED9 <= cp <= 0x10EF9)
        || (0x10F28 <= cp <= 0x10F2F)
        || (0x10F5A <= cp <= 0x10F6F)
        || (0x10F8A <= cp <= 0x10FAF)
        || (0x10FCC <= cp <= 0x10FDF)
        || (0x10FF7 <= cp <= 0x10FFF)
}

/// Ranges 0x1104E to 0x1135C of [`is_wide`].
pub open spec fn is_wide_14(cp: u32) -> bool {
    (0x1104E <= cp <= 0x11051)
        || (0x11076 <= cp <= 0x1107E)
        || (0x110C3 <= cp <= 0x110CC)
        || (0x110CE <= cp <= 0x110CF)
        || (0x110E9 <= cp <= 0x110EF)
        || (0x110FA <= cp <= 0x110FF)
        || cp == 0x11135
        || (0x11148 <= cp <= 0x1114F)
        || (0x11177 <= cp <= 0x1117F)
        || cp == 0x111E0
        || (0x111F5 <= cp <= 0x111FF)
        || cp == 0x11212
        || (0x11242 <= cp <= 0x1127F)
        || cp == 0x11287
        || cp == 0x11289
        || cp == 0x1128E
        || cp == 0x1129E
        || (0x112AA <= cp <= 0x112AF)
        || (0x112EB <= cp <= 0x112EF)
        || (0x112FA <= cp <= 0x112FF)
        || cp == 0x11304
        || (0x1130D <= cp <= 0x1130E)
        || (0x11311 <= cp <= 0x11312)
        || cp == 0x11329
        || cp == 0x11331
        || cp == 0x11334
        || cp == 0x1133A
        || (0x11345 <= cp <= 0x11346)
        || (0x11349 <= cp <= 0x1134A)
        || (0x1134E <= cp <= 0x1134F)
        || (0x11351 <= cp <= 0x11356)
        || (0x11358 <= cp <= 0x1135C)
}

/// Ranges 0x11364 to 0x11908 of [`is_wide`].
pub open spec fn is_wide_15(cp: u32) -> bool {
    (0x11364 <= cp <= 0x11365)
        || (0x1136D <= cp <= 0x1136F)
        || (0x11375 <= cp <= 0x1137F)
        || cp == 0x1138A
        || (0x1138C <= cp <= 0x1138D)
        || cp == 0x1138F
        || cp == 0x113B6
        || cp == 0x113C1
        || (0x113C3 <= cp <= 0x113C4)
        || cp == 0x113C6
        || cp == 0x113CB
        || cp == 0x113D6
        || (0x113D9 <= cp <= 0x113E0)
        || (0x113E3 <= cp <= 0x113FF)
        || cp == 0x1145C
        || (0x11462 <= cp <= 0x1147F)
        || (0x114C8 <= cp <= 0x114CF)
        || (0x114DA <= cp <= 0x1157F)
        || (0x115B6 <= cp <= 0x115B7)
        || (0x115DE <= cp <= 0x115FF)
        || (0x11645 <= cp <= 0x1164F)
        || (0x1165A <= cp <= 0x1165F)
        || (0x1166D <= cp <= 0x1167F)
        || (0x116BA <= cp <= 0x116BF)
        || (0x116CA <= cp <= 0x116CF)
        || (0x116E4 <= cp <= 0x116FF)
        || (0x1171B <= cp <= 0x1171C)
        || (0x1172C <= cp <= 0x1172F)
        || (0x11747 <= cp <= 0x117FF)
        || (0x1183C <= cp <= 0x1189F)
        || (0x118F3 <= cp <= 0x118FE)
        || (0x11907 <= cp <= 0x11908)
}

/// Ranges 0x1190A to 0x11D66 of [`is_wide`].
pub open spec fn is_wide_16(cp: u32) -> bool {
    (0x1190A <= cp <= 0x1190B)
        || cp == 0x11914
        || cp == 0x11917
        || cp == 0x11936
        || (0x11939 <= cp <= 0x1193A)
        || (0x11947 <= cp <= 0x1194F)
        || (0x1195A <= cp <= 0x1199F)
        || (0x119A8 <= cp <= 0x119A9)
        || (0x119D8 <= cp <= 0x119D9)
        || (0x119E5 <= cp <= 0x119FF)
        || (0x11A48 <= cp <= 0x11A4F)
        || (0x11AA3 <= cp <= 0x11AAF)
        || (0x11AF9 <= cp <= 0x11AFF)
        || (0x11B0A <= cp <= 0x11B5F)
        || (0x11B68 <= cp <= 0x11BBF)
        || (0x11BE2 <= cp <= 0x11BEF)
        || (0x11BFA <= cp <= 0x11BFF)
        || cp == 0x11C09
        || cp == 0x11C37
        || (0x11C46 <= cp <= 0x11C4F)
        || (0x11C6D <= cp <= 0x11C6F)
        || (0x11C90 <= cp <= 0x11C91)
        || cp == 0x11CA8
        || (0x11CB7 <= cp <= 0x11CFF)
        || cp == 0x11D07
        || cp == 0x11D0A
        || (0x11D37 <= cp <= 0x11D39)
        || cp == 0x11D3B
        || cp == 0x11D3E
        || (0x11D48 <= cp <= 0x11D4F)
        || (0x11D5A <= cp <= 0x11D5F)
        || cp == 0x11D66
}

/// Ranges 0x11D69 to 0x16B62 of [`is_wide`].
pub open spec fn is_wide_17(cp: u32) -> bool {
    cp == 0x11D69
        || cp == 0x11D8F
        || cp == 0x11D92
        || (0x11D99 <= cp <= 0x11D9F)
        || (0x11DAA <= cp <= 0x11DAF)
        || (0x11DDC <= cp <= 0x11DDF)
        || (0x11DEA <= cp <= 0x11EDF)
        || (0x11EF9 <= cp <= 0x11EFF)
        || cp == 0x11F11
        || (0x11F3B <= cp <= 0x11F3D)
        || (0x11F5B <= cp <= 0x11FAF)
        || (0x11FB1 <= cp <= 0x11FBF)
        || (0x11FF2 <= cp <= 0x11FFE)
        || (0x1239A <= cp <= 0x123FF)
        || cp == 0x1246F
        || (0x12475 <= cp <= 0x1247F)
        || (0x12544 <= cp <= 0x12F8F)
        || (0x12FF3 <= cp <= 0x12FFF)
        || (0x13456 <= cp <= 0x1345F)
        || (0x143FB <= cp <= 0x143FF)
        || (0x14647 <= cp <= 0x160FF)
        || (0x1613A <= cp <= 0x167FF)
        || (0x16A39 <= cp <= 0x16A3F)
        || cp == 0x16A5F
        || (0x16A6A <= cp <= 0x16A6D)
        || cp == 0x16ABF
        || (0x16ACA <= cp <= 0x16ACF)
        || (0x16AEE <= cp <= 0x16AEF)
        || (0x16AF6 <= cp <= 0x16AFF)
        || (0x16B46 <= cp <= 0x16B4F)
        || cp == 0x16B5A
        || cp == 0x16B62
}

/// Ranges 0x16B78 to 0x1D49D of [`is_wide`].
pub open spec fn is_wide_18(cp: u32) -> bool {
    (0x16B78 <= cp <= 0x16B7C)
        || (0x16B90 <= cp <= 0x16D3F)
        || (0x16D7A <= cp <= 0x16E3F)
        || (0x16E9B <= cp <= 0x16E9F)
        || (0x16EB9 <= cp <= 0x16EBA)
        || (0x16ED4 <= cp <= 0x16EFF)
        || (0x16F4B <= cp <= 0x16F4E)
        || (0x16F88 <= cp <= 0x16F8E)
        || (0x16FA0 <= cp <= 0x16FE3)
        || (0x16FE5 <= cp <= 0x16FEF)
        || (0x16FF2 <= cp <= 0x1BBFF)
        || (0x1BC6B <= cp <= 0x1BC6F)
        || (0x1BC7D <= cp <= 0x1BC7F)
        || (0x1BC89 <= cp <= 0x1BC8F)
        || (0x1BC9A <= cp <= 0x1BC9B)
        || (0x1BCA4 <= cp <= 0x1CBFF)
        || (0x1CCFD <= cp <= 0x1CCFF)
        || (0x1CEB4 <= cp <= 0x1CEB9)
        || (0x1CED1 <= cp <= 0x1CEDF)
        || (0x1CEF1 <= cp <= 0x1CEFF)
        || (0x1CF2E <= cp <= 0x1CF2F)
        || (0x1CF47 <= cp <= 0x1CF4F)
        || (0x1CFC4 <= cp <= 0x1CFFF)
        || (0x1D0F6 <= cp <= 0x1D0FF)
        || (0x1D127 <= cp <= 0x1D128)
        || (0x1D1EB <= cp <= 0x1D1FF)
        || (0x1D246 <= cp <= 0x1D2BF)
        || (0x1D2D4 <= cp <= 0x1D2DF)
        || (0x1D2F4 <= cp <= 0x1D376)
        || (0x1D379 <= cp <= 0x1D3FF)
        || cp == 0x1D455
        || cp == 0x1D49D
}

/// Ranges 0x1D4A0 to 0x1E13F of [`is_wide`].
pub open spec fn is_wide_19(cp: u32) -> bool {
    (0x1D4A0 <= cp <= 0x1D4A1)
        || (0x1D4A3 <= cp <= 0x1D4A4)
        || (0x1D4A7 <= cp <= 0x1D4A8)
        || cp == 0x1D4AD
        || cp == 0x1D4BA
        || cp == 0x1D4BC
        || cp == 0x1D4C4
        || cp == 0x1D506
        || (0x1D50B <= cp <= 0x1D50C)
        || cp == 0x1D515
        || cp == 0x1D51D
        || cp == 0x1D53A
        || cp == 0x1D53F
        || cp == 0x1D545
        || (0x1D547 <= cp <= 0x1D549)
        || cp == 0x1D551
        || (0x1D6A6 <= cp <= 0x1D6A7)
        || (0x1D7CC <= cp <= 0x1D7CD)
        || (0x1DA8C <= cp <= 0x1DA9A)
        || cp == 0x1DAA0
        || (0x1DAB0 <= cp <= 0x1DEFF)
        || (0x1DF1F <= cp <= 0x1DF24)
        || (0x1DF2B <= cp <= 0x1DFFF)
        || cp == 0x1E007
        || (0x1E019 <= cp <= 0x1E01A)
        || cp == 0x1E022
        || cp == 0x1E025
        || (0x1E02B <= cp <= 0x1E02F)
        || (0x1E06E <= cp <= 0x1E08E)
        || (0x1E090 <= cp <= 0x1E0FF)
        || (0x1E12D <= cp <= 0x1E12F)
        || (0x1E13E <= cp <= 0x1E13F)
}

/// Ranges 0x1E14A to 0x1EE46 of [`is_wide`].
pub open spec fn is_wide_20(cp: u32) -> bool {
    (0x1E14A <= cp <= 0x1E14D)
        || (0x1E150 <= cp <= 0x1E28F)
        || (0x1E2AF <= cp <= 0x1E2BF)
        || (0x1E2FA <= cp <= 0x1E2FE)
        || (0x1E300 <= cp <= 0x1E4CF)
        || (0x1E4FA <= cp <= 0x1E5CF)
        || (0x1E5FB <= cp <= 0x1E5FE)
        || (0x1E600 <= cp <= 0x1E6BF)
        || cp == 0x1E6DF
        || (0x1E6F6 <= cp <= 0x1E6FD)
        || (0x1E700 <= cp <= 0x1E7DF)
        || cp == 0x1E7E7
        || cp == 0x1E7EC
        || cp == 0x1E7EF
        || cp == 0x1E7FF
        || (0x1E8C5 <= cp <= 0x1E8C6)
        || (0x1E8D7 <= cp <= 0x1E8FF)
        || (0x1E94C <= cp <= 0x1E94F)
        || (0x1E95A <= cp <= 0x1E95D)
        || (0x1E960 <= cp <= 0x1EC70)
        || (0x1ECB5 <= cp <= 0x1ED00)
        || (0x1ED3E <= cp <= 0x1EDFF)
        || cp == 0x1EE04
        || cp == 0x1EE20
        || cp == 0x1EE23
        || (0x1EE25 <= cp <= 0x1EE26)
        || cp == 0x1EE28
        || cp == 0x1EE33
        || cp == 0x1EE38
        || cp == 0x1EE3A
        || (0x1EE3C <= cp <= 0x1EE41)
        || (0x1EE43 <= cp <= 0x1EE46)
}

/// Ranges 0x1EE48 to 0x1F18E of [`is_wide`].
pub open spec fn is_wide_21(cp: u32) -> bool {
    cp == 0x1EE48
        || cp == 0x1EE4A
        || cp == 0x1EE4C
        || cp == 0x1EE50
        || cp == 0x1EE53
        || (0x1EE55 <= cp <= 0x1EE56)
        || cp == 0x1EE58
        || cp == 0x1EE5A
        || cp == 0x1EE5C
        || cp == 0x1EE5E
        || cp == 0x1EE60
        || cp == 0x1EE63
        || (0x1EE65 <= cp <= 0x1EE66)
        || cp == 0x1EE6B
        || cp == 0x1EE73
        || cp == 0x1EE78
        || cp == 0x1EE7D
        || cp == 0x1EE7F
        || cp == 0x1EE8A
        || (0x1EE9C <= cp <= 0x1EEA0)
        || cp == 0x1EEA4
        || cp == 0x1EEAA
        || (0x1EEBC <= cp <= 0x1EEEF)
        || (0x1EEF2 <= cp <= 0x1EFFF)
        || cp == 0x1F004
        || (0x1F02C <= cp <= 0x1F02F)
        || (0x1F094 <= cp <= 0x1F09F)
        || (0x1F0AF <= cp <= 0x1F0B0)
        || cp == 0x1F0C0
        || (0x1F0CF <= cp <= 0x1F0D0)
        || (0x1F0F6 <= cp <= 0x1F0FF)
        || cp == 0x1F18E
}

/// Ranges 0x1F191 to 0x1F8AF of [`is_wide`].
pub open spec fn is_wide_22(cp: u32) -> bool {
    (0x1F191 <= cp <= 0x1F19A)
        || (0x1F1AE <= cp <= 0x1F1E5)
        || (0x1F200 <= cp <= 0x1F320)
        || (0x1F32D <= cp <= 0x1F335)
        || (0x1F337 <= cp <= 0x1F37C)
        || (0x1F37E <= cp <= 0x1F393)
        || (0x1F3A0 <= cp <= 0x1F3CA)
        || (0x1F3CF <= cp <= 0x1F3D3)
        || (0x1F3E0 <= cp <= 0x1F3F0)
        || cp == 0x1F3F4
        || (0x1F3F8 <= cp <= 0x1F43E)
        || cp == 0x1F440
        || (0x1F442 <= cp <= 0x1F4FC)
        || (0x1F4FF <= cp <= 0x1F53D)
        || (0x1F54B <= cp <= 0x1F54E)
        || (0x1F550 <= cp <= 0x1F567)
        || cp == 0x1F57A
        || (0x1F595 <= cp <= 0x1F596)
        || cp == 0x1F5A4
        || (0x1F5FB <= cp <= 0x1F64F)
        || (0x1F680 <= cp <= 0x1F6C5)
        || cp == 0x1F6CC
        || (0x1F6D0 <= cp <= 0x1F6D2)
        || (0x1F6D5 <= cp <= 0x1F6DF)
        || (0x1F6EB <= cp <= 0x1F6EF)
        || (0x1F6F4 <= cp <= 0x1F6FF)
        || (0x1F7DA <= cp <= 0x1F7FF)
        || (0x1F80C <= cp <= 0x1F80F)
        || (0x1F848 <= cp <= 0x1F84F)
        || (0x1F85A <= cp <= 0x1F85F)
        || (0x1F888 <= cp <= 0x1F88F)
        || (0x1F8AE <= cp <= 0x1F8AF)
}

/// Ranges 0x1F8BC to 0x10FFFF of [`is_wide`].
pub open spec fn is_wide_23(cp: u32) -> bool {
    (0x1F8BC <= cp <= 0x1F8BF)
        || (0x1F8C2 <= cp <= 0x1F8CF)
        || (0x1F8D9 <= cp <= 0x1F8FF)
        || (0x1F90C <= cp <= 0x1F93A)
        || (0x1F93C <= cp <= 0x1F945)
        || (0x1F947 <= cp <= 0x1F9FF)
        || (0x1FA58 <= cp <= 0x1FA5F)
        || (0x1FA6E <= cp <= 0x1FAFF)
        || cp == 0x1FB93
        || (0x1FBFB <= cp <= 0xDFFFF)
        || (0xE1000 <= cp <= 0xEFFFF)
        || (0xFFFFE <= cp <= 0xFFFFF)
        || (0x10FFFE <= cp <= 0x10FFFF)
}

/// Code points of East Asian Ambiguous width that are neither of width zero nor wide.
pub open spec fn is_ambiguous(cp: u32) -> bool {
    is_ambiguous_0(cp)
        || is_ambiguous_1(cp)
        || is_ambiguous_2(cp)
        || is_ambiguous_3(cp)
        || is_ambiguous_4(cp)
        || is_ambiguous_5(cp)
}

/// Ranges 0xA1 to 0x14D of [`is_ambiguous`].
pub open spec fn is_ambiguous_0(cp: u32) -> bool {
    cp == 0xA1
        || cp == 0xA4
        || (0xA7 <= cp <= 0xA8)
        || cp == 0xAA
        || cp == 0xAE
        || (0xB0 <= cp <= 0xB4)
        || (0xB6 <= cp <= 0xBA)
        || (0xBC <= cp <= 0xBF)
        || cp == 0xC6
        || cp == 0xD0
        || (0xD7 <= cp <= 0xD8)
        || (0xDE <= cp <= 0xE1)
        || cp == 0xE6
        || (0xE8 <= cp <= 0xEA)
        || (0xEC <= cp <= 0xED)
        || cp == 0xF0
        || (0xF2 <= cp <= 0xF3)
        || (0xF7 <= cp <= 0xFA)
        || cp == 0xFC
        || cp == 0xFE
        || cp == 0x101
        || cp == 0x111
        || cp == 0x113
        || cp == 0x11B
        || (0x126 <= cp <= 0x127)
        || cp == 0x12B
        || (0x131 <= cp <= 0x133)
        || cp == 0x138
        || (0x13F <= cp <= 0x142)
        || cp == 0x144
        || (0x148 <= cp <= 0x14B)
        || cp == 0x14D
}

/// Ranges 0x152 to 0x201D of [`is_ambiguous`].
pub open spec fn is_ambiguous_1(cp: u32) -> bool {
    (0x152 <= cp <= 0x153)
        || (0x166 <= cp <= 0x167)
        || cp == 0x16B
        || cp == 0x1CE
        || cp == 0x1D0
        || cp == 0x1D2
        || cp == 0x1D4
        || cp == 0x1D6
        || cp == 0x1D8
        || cp == 0x1DA
        || cp == 0x1DC
        || cp == 0x251
        || cp == 0x261
        || cp == 0x2C4
        || cp == 0x2C7
        || (0x2C9 <= cp <= 0x2CB)
        || cp == 0x2CD
        || cp == 0x2D0
        || (0x2D8 <= cp <= 0x2DB)
        || cp == 0x2DD
        || cp == 0x2DF
        || (0x391 <= cp <= 0x3A1)
        || (0x3A3 <= cp <= 0x3A9)
        || (0x3B1 <= cp <= 0x3C1)
        || (0x3C3 <= cp <= 0x3C9)
        || cp == 0x401
        || (0x410 <= cp <= 0x44F)
        || cp == 0x451
        || cp == 0x2010
        || (0x2013 <= cp <= 0x2016)
        || (0x2018 <= cp <= 0x2019)
        || (0x201C <= cp <= 0x201D)
}

/// Ranges 0x2020 to 0x2208 of [`is_ambiguous`].
pub open spec fn is_ambiguous_2(cp: u32) -> bool {
    (0x2020 <= cp <= 0x2022)
        || (0x2024 <= cp <= 0x2027)
        || cp == 0x2030
        || (0x2032 <= cp <= 0x2033)
        || cp == 0x2035
        || cp == 0x203B
        || cp == 0x203E
        || cp == 0x2074
        || cp == 0x207F
        || (0x2081 <= cp <= 0x2084)
        || cp == 0x20AC
        || cp == 0x2103
        || cp == 0x2105
        || cp == 0x2109
        || cp == 0x2113
        || cp == 0x2116
        || (0x2121 <= cp <= 0x2122)
        || cp == 0x2126
        || cp == 0x212B
        || (0x2153 <= cp <= 0x2154)
        || (0x215B <= cp <= 0x215E)
        || (0x2160 <= cp <= 0x216B)
        || (0x2170 <= cp <= 0x2179)
        || cp == 0x2189
        || (0x2190 <= cp <= 0x2199)
        || (0x21B8 <= cp <= 0x21B9)
        || cp == 0x21D2
        || cp == 0x21D4
        || cp == 0x21E7
        || cp == 0x2200
        || (0x2202 <= cp <= 0x2203)
        || (0x2207 <= cp <= 0x2208)
}

/// Ranges 0x220B to 0x25A1 of [`is_ambiguous`].
pub open spec fn is_ambiguous_3(cp: u32) -> bool {
    cp == 0x220B
        || cp == 0x220F
        || cp == 0x2211
        || cp == 0x2215
        || cp == 0x221A
        || (0x221D <= cp <= 0x2220)
        || cp == 0x2223
        || cp == 0x2225
        || (0x2227 <= cp <= 0x222C)
        || cp == 0x222E
        || (0x2234 <= cp <= 0x2237)
        || (0x223C <= cp <= 0x223D)
        || cp == 0x2248
        || cp == 0x224C
        || cp == 0x2252
        || (0x2260 <= cp <= 0x2261)
        || (0x2264 <= cp <= 0x2267)
        || (0x226A <= cp <= 0x226B)
        || (0x226E <= cp <= 0x226F)
        || (0x2282 <= cp <= 0x2283)
        || (0x2286 <= cp <= 0x2287)
        || cp == 0x2295
        || cp == 0x2299
        || cp == 0x22A5
        || cp == 0x22BF
        || cp == 0x2312
        || (0x2460 <= cp <= 0x24E9)
        || (0x24EB <= cp <= 0x254B)
        || (0x2550 <= cp <= 0x2573)
        || (0x2580 <= cp <= 0x258F)
        || (0x2592 <= cp <= 0x2595)
        || (0x25A0 <= cp <= 0x25A1)
}

/// Ranges 0x25A3 to 0x26F9 of [`is_ambiguous`].
pub open spec fn is_ambiguous_4(cp: u32) -> bool {
    (0x25A3 <= cp <= 0x25A9)
        || (0x25B2 <= cp <= 0x25B3)
        || (0x25B6 <= cp <= 0x25B7)
        || (0x25BC <= cp <= 0x25BD)
        || (0x25C0 <= cp <= 0x25C1)
        || (0x25C6 <= cp <= 0x25C8)
        || cp == 0x25CB
        || (0x25CE <= cp <= 0x25D1)
        || (0x25E2 <= cp <= 0x25E5)
        || cp == 0x25EF
        || (0x2605 <= cp <= 0x2606)
        || cp == 0x2609
        || (0x260E <= cp <= 0x260F)
        || cp == 0x261C
        || cp == 0x261E
        || cp == 0x2640
        || cp == 0x2642
        || (0x2660 <= cp <= 0x2661)
        || (0x2663 <= cp <= 0x2665)
        || (0x2667 <= cp <= 0x266A)
        || (0x266C <= cp <= 0x266D)
        || cp == 0x266F
        || (0x269E <= cp <= 0x269F)
        || cp == 0x26BF
        || (0x26C6 <= cp <= 0x26CD)
        || (0x26CF <= cp <= 0x26D3)
        || (0x26D5 <= cp <= 0x26E1)
        || cp == 0x26E3
        || (0x26E8 <= cp <= 0x26E9)
        || (0x26EB <= cp <= 0x26F1)
        || cp == 0x26F4
        || (0x26F6 <= cp <= 0x26F9)
}

/// Ranges 0x26FB to 0x10FFFD of [`is_ambiguous`].
pub open spec fn is_ambiguous_5(cp: u32) -> bool {
    (0x26FB <= cp <= 0x26FC)
        || (0x26FE <= cp <= 0x26FF)
        || cp == 0x273D
        || (0x2776 <= cp <= 0x277F)
        || (0x2B56 <= cp <= 0x2B59)
        || (0x3248 <= cp <= 0x324F)
        || (0xE000 <= cp <= 0xF8FF)
        || cp == 0xFFFD
        || (0x1F100 <= cp <= 0x1F10A)
        || (0x1F110 <= cp <= 0x1F12D)
        || (0x1F130 <= cp <= 0x1F169)
        || (0x1F170 <= cp <= 0x1F18D)
        || (0x1F18F <= cp <= 0x1F190)
        || (0x1F19B <= cp <= 0x1F1AC)
        || (0xF0000 <= cp <= 0xFFFFD)
        || (0x100000 <= cp <= 0x10FFFD)
}

/// Code points that begin an emoji presentation sequence (followed by U+FE0F).
pub open spec fn is_emoji_presentation_base(cp: u32) -> bool {
    is_emoji_presentation_base_0(cp)
        || is_emoji_presentation_base_1(cp)
        || is_emoji_presentation_base_2(cp)
        || is_emoji_presentation_base_3(cp)
        || is_emoji_presentation_base_4(cp)
        || is_emoji_presentation_base_5(cp)
}

/// Ranges 0x23 to 0x262A of [`is_emoji_presentation_base`].
pub open spec fn is_emoji_presentation_base_0(cp: u32) -> bool {
    cp == 0x23
        || cp == 0x2A
        || (0x30 <= cp <= 0x39)
        || cp == 0xA9
        || cp == 0xAE
        || cp == 0x203C
        || cp == 0x2049
        || cp == 0x2122
        || cp == 0x2139
        || (0x2194 <= cp <= 0x2199)
        || (0x21A9 <= cp <= 0x21AA)
        || (0x231A <= cp <= 0x231B)
        || cp == 0x2328
        || cp == 0x23CF
        || (0x23E9 <= cp <= 0x23EA)
        || (0x23ED <= cp <= 0x23F3)
        || (0x23F8 <= cp <= 0x23FA)
        || cp == 0x24C2
        || (0x25AA <= cp <= 0x25AB)
        || cp == 0x25B6
        || cp == 0x25C0
        || (0x25FB <= cp <= 0x25FE)
        || (0x2600 <= cp <= 0x2604)
        || cp == 0x260E
        || cp == 0x2611
        || (0x2614 <= cp <= 0x2615)
        || cp == 0x2618
        || cp == 0x261D
        || cp == 0x2620
        || (0x2622 <= cp <= 0x2623)
        || cp == 0x2626
        || cp == 0x262A
}

/// Ranges 0x262E to 0x270D of [`is_emoji_presentation_base`].
pub open spec fn is_emoji_presentation_base_1(cp: u32) -> bool {
    (0x262E <= cp <= 0x262F)
        || (0x2638 <= cp <= 0x263A)
        || cp == 0x2640
        || cp == 0x2642
        || (0x2648 <= cp <= 0x2653)
        || (0x265F <= cp <= 0x2660)
        || cp == 0x2663
        || (0x2665 <= cp <= 0x2666)
        || cp == 0x2668
        || cp == 0x267B
        || (0x267E <= cp <= 0x267F)
        || (0x2692 <= cp <= 0x2697)
        || cp == 0x2699
        || (0x269B <= cp <= 0x269C)
        || (0x26A0 <= cp <= 0x26A1)
        || cp == 0x26A7
        || (0x26AA <= cp <= 0x26AB)
        || (0x26B0 <= cp <= 0x26B1)
        || (0x26BD <= cp <= 0x26BE)
        || (0x26C4 <= cp <= 0x26C5)
        || cp == 0x26C8
        || cp == 0x26CF
        || cp == 0x26D1
        || (0x26D3 <= cp <= 0x26D4)
        || (0x26E9 <= cp <= 0x26EA)
        || (0x26F0 <= cp <= 0x26F5)
        || (0x26F7 <= cp <= 0x26FA)
        || cp == 0x26FD
        || cp == 0x2702
        || cp == 0x2705
        || (0x2708 <= cp <= 0x2709)
        || (0x270C <= cp <= 0x270D)
}

/// Ranges 0x270F to 0x1F393 of [`is_emoji_presentation_base`].
pub open spec fn is_emoji_presentation_base_2(cp: u32) -> bool {
    cp == 0x270F
        || cp == 0x2712
        || cp == 0x2714
        || cp == 0x2716
        || cp == 0x271D
        || cp == 0x2721
        || (0x2733 <= cp <= 0x2734)
        || cp == 0x2744
        || cp == 0x2747
        || cp == 0x2753
        || cp == 0x2757
        || (0x2763 <= cp <= 0x2764)
        || cp == 0x27A1
        || (0x2934 <= cp <= 0x2935)
        || (0x2B05 <= cp <= 0x2B07)
        || (0x2B1B <= cp <= 0x2B1C)
        || cp == 0x2B50
        || cp == 0x2B55
        || cp == 0x1F004
        || (0x1F170 <= cp <= 0x1F171)
        || (0x1F17E <= cp <= 0x1F17F)
        || cp == 0x1F21A
        || cp == 0x1F22F
        || (0x1F30D <= cp <= 0x1F30F)
        || cp == 0x1F315
        || cp == 0x1F31C
        || cp == 0x1F321
        || (0x1F324 <= cp <= 0x1F32C)
        || cp == 0x1F336
        || cp == 0x1F378
        || cp == 0x1F37D
        || cp == 0x1F393
}

/// Ranges 0x1F396 to 0x1F4DA of [`is_emoji_presentation_base`].
pub open spec fn is_emoji_presentation_base_3(cp: u32) -> bool {
    (0x1F396 <= cp <= 0x1F397)
        || (0x1F399 <= cp <= 0x1F39B)
        || (0x1F39E <= cp <= 0x1F39F)
        || cp == 0x1F3A7
        || (0x1F3AC <= cp <= 0x1F3AE)
        || cp == 0x1F3C2
        || cp == 0x1F3C4
        || cp == 0x1F3C6
        || (0x1F3CA <= cp <= 0x1F3CE)
        || (0x1F3D4 <= cp <= 0x1F3E0)
        || cp == 0x1F3ED
        || cp == 0x1F3F3
        || cp == 0x1F3F5
        || cp == 0x1F3F7
        || cp == 0x1F408
        || cp == 0x1F415
        || cp == 0x1F41F
        || cp == 0x1F426
        || cp == 0x1F43F
        || (0x1F441 <= cp <= 0x1F442)
        || (0x1F446 <= cp <= 0x1F449)
        || (0x1F44D <= cp <= 0x1F44E)
        || cp == 0x1F453
        || cp == 0x1F46A
        || cp == 0x1F47D
        || cp == 0x1F4A3
        || cp == 0x1F4B0
        || cp == 0x1F4B3
        || cp == 0x1F4BB
        || cp == 0x1F4BF
        || cp == 0x1F4CB
        || cp == 0x1F4DA
}

/// Ranges 0x1F4DF to 0x1F614 of [`is_emoji_presentation_base`].
pub open spec fn is_emoji_presentation_base_4(cp: u32) -> bool {
    cp == 0x1F4DF
        || (0x1F4E4 <= cp <= 0x1F4E6)
        || (0x1F4EA <= cp <= 0x1F4ED)
        || cp == 0x1F4F7
        || (0x1F4F9 <= cp <= 0x1F4FB)
        || cp == 0x1F4FD
        || cp == 0x1F508
        || cp == 0x1F50D
        || (0x1F512 <= cp <= 0x1F513)
        || (0x1F549 <= cp <= 0x1F54A)
        || (0x1F550 <= cp <= 0x1F567)
        || (0x1F56F <= cp <= 0x1F570)
        || (0x1F573 <= cp <= 0x1F579)
        || cp == 0x1F587
        || (0x1F58A <= cp <= 0x1F58D)
        || cp == 0x1F590
        || cp == 0x1F5A5
        || cp == 0x1F5A8
        || (0x1F5B1 <= cp <= 0x1F5B2)
        || cp == 0x1F5BC
        || (0x1F5C2 <= cp <= 0x1F5C4)
        || (0x1F5D1 <= cp <= 0x1F5D3)
        || (0x1F5DC <= cp <= 0x1F5DE)
        || cp == 0x1F5E1
        || cp == 0x1F5E3
        || cp == 0x1F5E8
        || cp == 0x1F5EF
        || cp == 0x1F5F3
        || cp == 0x1F5FA
        || cp == 0x1F610
        || cp == 0x1F612
        || cp == 0x1F614
}

/// Ranges 0x1F61E to 0x1F6F3 of [`is_emoji_presentation_base`].
pub open spec fn is_emoji_presentation_base_5(cp: u32) -> bool {
    cp == 0x1F61E
        || cp == 0x1F620
        || (0x1F622 <= cp <= 0x1F623)
        || cp == 0x1F628
        || cp == 0x1F62A
        || cp == 0x1F62D
        || cp == 0x1F630
        || cp == 0x1F633
        || cp == 0x1F637
        || cp == 0x1F687
        || cp == 0x1F68D
        || cp == 0x1F691
        || cp == 0x1F694
        || cp == 0x1F698
        || cp == 0x1F6AD
        || cp == 0x1F6B2
        || (0x1F6B9 <= cp <= 0x1F6BA)
        || cp == 0x1F6BC
        || cp == 0x1F6CB
        || (0x1F6CD <= cp <= 0x1F6CF)
        || (0x1F6E0 <= cp <= 0x1F6E5)
        || cp == 0x1F6E9
        || cp == 0x1F6F0
        || cp == 0x1F6F3
}

/// Code points with Emoji_Presentation, outside the Enclosed Ideographic Supplement, that begin a text presentation sequence (followed by U+FE0E).
pub open spec fn is_text_presentation_base(cp: u32) -> bool {
    is_text_presentation_base_0(cp)
        || is_text_presentation_base_1(cp)
        || is_text_presentation_base_2(cp)
}

/// Ranges 0x231A to 0x1F3A7 of [`is_text_presentation_base`].
pub open spec fn is_text_presentation_base_0(cp: u32) -> bool {
    (0x231A <= cp <= 0x231B)
        || (0x23E9 <= cp <= 0x23EA)
        || cp == 0x23F0
        || cp == 0x23F3
        || (0x25FD <= cp <= 0x25FE)
        || (0x2614 <= cp <= 0x2615)
        || (0x2648 <= cp <= 0x2653)
        || cp == 0x267F
        || cp == 0x2693
        || cp == 0x26A1
        || (0x26AA <= cp <= 0x26AB)
        || (0x26BD <= cp <= 0x26BE)
        || (0x26C4 <= cp <= 0x26C5)
        || cp == 0x26D4
        || cp == 0x26EA
        || (0x26F2 <= cp <= 0x26F3)
        || cp == 0x26F5
        || cp == 0x26FA
        || cp == 0x26FD
        || cp == 0x2705
        || cp == 0x2753
        || cp == 0x2757
        || (0x2B1B <= cp <= 0x2B1C)
        || cp == 0x2B50
        || cp == 0x2B55
        || cp == 0x1F004
        || (0x1F30D <= cp <= 0x1F30F)
        || cp == 0x1F315
        || cp == 0x1F31C
        || cp == 0x1F378
        || cp == 0x1F393
        || cp == 0x1F3A7
}

/// Ranges 0x1F3AC to 0x1F513 of [`is_text_presentation_base`].
pub open spec fn is_text_presentation_base_1(cp: u32) -> bool {
    (0x1F3AC <= cp <= 0x1F3AE)
        || cp == 0x1F3C2
        || cp == 0x1F3C4
        || cp == 0x1F3C6
        || cp == 0x1F3CA
        || cp == 0x1F3E0
        || cp == 0x1F3ED
        || cp == 0x1F408
        || cp == 0x1F415
        || cp == 0x1F41F
        || cp == 0x1F426
        || cp == 0x1F442
        || (0x1F446 <= cp <= 0x1F449)
        || (0x1F44D <= cp <= 0x1F44E)
        || cp == 0x1F453
        || cp == 0x1F46A
        || cp == 0x1F47D
        || cp == 0x1F4A3
        || cp == 0x1F4B0
        || cp == 0x1F4B3
        || cp == 0x1F4BB
        || cp == 0x1F4BF
        || cp == 0x1F4CB
        || cp == 0x1F4DA
        || cp == 0x1F4DF
        || (0x1F4E4 <= cp <= 0x1F4E6)
        || (0x1F4EA <= cp <= 0x1F4ED)
        || cp == 0x1F4F7
        || (0x1F4F9 <= cp <= 0x1F4FB)
        || cp == 0x1F508
        || cp == 0x1F50D
        || (0x1F512 <= cp <= 0x1F513)
}

/// Ranges 0x1F550 to 0x1F6BC of [`is_text_presentation_base`].
pub open spec fn is_text_presentation_base_2(cp: u32) -> bool {
    (0x1F550 <= cp <= 0x1F567)
        || cp == 0x1F610
        || cp == 0x1F612
        || cp == 0x1F614
        || cp == 0x1F61E
        || cp == 0x1F620
        || (0x1F622 <= cp <= 0x1F623)
        || cp == 0x1F628
        || cp == 0x1F62A
        || cp == 0x1F62D
        || cp == 0x1F630
        || cp == 0x1F633
        || cp == 0x1F637
        || cp == 0x1F687
        || cp == 0x1F68D
        || cp == 0x1F691
        || cp == 0x1F694
        || cp == 0x1F698
        || cp == 0x1F6AD
        || cp == 0x1F6B2
        || (0x1F6B9 <= cp <= 0x1F6BA)
        || cp == 0x1F6BC
}

/// Looks up the width class of a code point at or above U+00A0.
pub fn lookup_width_class(cp: u32) -> (r: WidthClass)
    requires
        cp <= 0x10FFFF,
    ensures
        r == width_class_of(cp),
{
    if cp < 0xA69E {
        lookup_width_class_0(cp)
    } else {
        lookup_width_class_1(cp)
    }
}

fn lookup_width_class_1(cp: u32) -> (r: WidthClass)
    requires
        0xA69E <= cp <= 0x10FFFF,
    ensures
        r == width_class_of(cp),
{
    if cp < 0x11838 {
        lookup_width_class_64(cp)
    } else {
        lookup_width_class_65(cp)
    }
}

fn lookup_width_class_65(cp: u32) -> (r: WidthClass)
    requires
        0x11838 <= cp <= 0x10FFFF,
    ensures
        r == width_class_of(cp),
{
    if cp < 0x1D515 {
        lookup_width_class_96(cp)
    } else {
        lookup_width_class_97(cp)
    }
}

fn lookup_width_class_97(cp: u32) -> (r: WidthClass)
    requires
        0x1D515 <= cp <= 0x10FFFF,
    ensures
        r == width_class_of(cp),
{
    if cp < 0x1EE58 {
        lookup_width_class_112(cp)
    } else {
        lookup_width_class_113(cp)
    }
}

fn lookup_width_class_113(cp: u32) -> (r: WidthClass)
    requires
        0x1EE58 <= cp <= 0x10FFFF,
    ensures
        r == width_class_of(cp),
{
    if cp < 0x1F3D4 {
        lookup_width_class_120(cp)
    } else {
        lookup_width_class_121(cp)
    }
}

fn lookup_width_class_121(cp: u32) -> (r: WidthClass)
    requires
        0x1F3D4 <= cp <= 0x10FFFF,
    ensures
        r == width_class_of(cp),
{
    if cp < 0x1F7DA {
        lookup_width_class_124(cp)
    } else {
        lookup_width_class_125(cp)
    }
}

fn lookup_width_class_125(cp: u32) -> (r: WidthClass)
    requires
        0x1F7DA <= cp <= 0x10FFFF,
    ensures
        r == width_class_of(cp),
{
    if cp < 0x1F90C {
        if cp < 0x1F890 {
            if cp < 0x1F848 {
                if cp < 0x1F80C {
                    if cp < 0x1F800 {
                        WidthClass::Two
                    } else {
                        WidthClass::One
                    }
                } else {
                    if cp < 0x1F810 {
                        WidthClass::Two
                    } else {
                        WidthClass::One
                    }
                }
            } else {
                if cp < 0x1F85A {
                    if cp < 0x1F850 {
                        WidthClass::Two
                    } else {
                        WidthClass::One
                    }
                } else {
                    if cp < 0x1F860 {
                        WidthClass::Two
                    } else {
                        if cp < 0x1F888 {
                            WidthClass::One
                        } else {
                            WidthClass::Two
                        }
                    }
                }
            }
        } else {
            if cp < 0x1F8C0 {
                if cp < 0x1F8B0 {
                    if cp < 0x1F8AE {
                        WidthClass::One
                    } else {
                        WidthClass::Two
                    }
                } else {
                    if cp < 0x1F8BC {
                        WidthClass::One
                    } else {
                        WidthClass::Two
                    }
                }
            } else {
                if cp < 0x1F8D0 {
                    if cp < 0x1F8C2 {
                        WidthClass::One
                    } else {
                        WidthClass::Two
                    }
                } else {
                    if cp < 0x1F8D9 {
                        WidthClass::One
                    } else {
                        if cp < 0x1F900 {
                            WidthClass::Two
                        } else {
                            WidthClass::One
                        }
                    }
                }
            }
        }
    } else {
        if cp < 0x1FB00 {
            if cp < 0x1F947 {
                if cp < 0x1F93C {
                    if cp < 0x1F93B {
                        WidthClass::Two
                    } else {
                        WidthClass::One
                    }
                } else {
                    if cp < 0x1F946 {
                        WidthClass::Two
                    } else {
                        WidthClass::One
                    }
                }
            } else {
                if cp < 0x1FA58 {
                    if cp < 0x1FA00 {
                        WidthClass::Two
                    } else {
                        WidthClass::One
                    }
                } else {
                    if cp < 0x1FA60 {
                        WidthClass::Two
                    } else {
                        if cp < 0x1FA6E {
                            WidthClass::One
                        } else {
                            WidthClass::Two
                        }
                    }
                }
            }
        } else {
            if cp < 0xE1000 {
                if cp < 0x1FB94 {
                    if cp < 0x1FB93 {
                        WidthClass::One
                    } else {
                        WidthClass::Two
                    }
                } else {
                    if cp < 0x1FBFB {
                        WidthClass::One
                    } else {
                        if cp < 0xE0000 {
                            WidthClass::Two
                        } else {
                            WidthClass::Zero
                        }
                    }
                }
            } else {
                if cp < 0xFFFFE {
                    if cp < 0xF0000 {
                        WidthClass::Two
                    } else {
                        WidthClass::Ambiguous
                    }
                } else {
                    if cp < 0x100000 {
                        WidthClass::Two
                    } else {
                        if cp < 0x10FFFE {
                            WidthClass::Ambiguous
                        } else {
                            WidthClass::Two
                        }
                    }
                }
            }
        }
    }
}

fn lookup_width_class_124(cp: u32) -> (r: WidthClass)
    requires
        0x1F3D4 <= cp <= 0x1F7D9,
    ensures
        r == width_class_of(cp),
{
    if cp < 0x1F57B {
        if cp < 0x1F442 {
            if cp < 0x1F3F5 {
                if cp < 0x1F3F1 {
                    if cp < 0x1F3E0 {
                        WidthClass::One
                    } else {
                        WidthClass::Two
                    }
                } else {
                    if cp < 0x1F3F4 {
                        WidthClass::One
                    } else {
                        WidthClass::Two
                    }
                }
            } else {
                if cp < 0x1F43F {
                    if cp < 0x1F3F8 {
                        WidthClass::One
                    } else {
                        WidthClass::Two
                    }
                } else {
                    if cp < 0x1F440 {
                        WidthClass::One
                    } else {
                        if cp < 0x1F441 {
                            WidthClass::Two
                        } else {
                            WidthClass::One
                        }
                    }
                }
            }
        } else {
            if cp < 0x1F54B {
                if cp < 0x1F4FF {
                    if cp < 0x1F4FD {
                        WidthClass::Two
                    } else {
                        WidthClass::One
                    }
                } else {
                    if cp < 0x1F53E {
                        WidthClass::Two
                    } else {
                        WidthClass::One
                    }
                }
            } else {
                if cp < 0x1F550 {
                    if cp < 0x1F54F {
                        WidthClass::Two
                    } else {
                        WidthClass::One
                    }
                } else {
                    if cp < 0x1F568 {
                        WidthClass::Two
                    } else {
                        if cp < 0x1F57A {
                            WidthClass::One
                        } else {
                            WidthClass::Two
                        }
                    }
                }
            }
        }
    } else {
        if cp < 0x1F6CC {
            if cp < 0x1F5A5 {
                if cp < 0x1F597 {
                    if cp < 0x1F595 {
                        WidthClass::One
                    } else {
                        WidthClass::Two
                    }
                } else {
                    if cp < 0x1F5A4 {
                        WidthClass::One
                    } else {
                        WidthClass::Two
                    }
                }
            } else {
                if cp < 0x1F650 {
                    if cp < 0x1F5FB {
                        WidthClass::One
                    } else {
                        WidthClass::Two
                    }
                } else {
                    if cp < 0x1F680 {
                        WidthClass::One
                    } else {
                        if cp < 0x1F6C6 {
                            WidthClass::Two
                        } else {
                            WidthClass::One
                        }
                    }
                }
            }
        } else {
            if cp < 0x1F6E0 {
                if cp < 0x1F6D0 {
                    if cp < 0x1F6CD {
                        WidthClass::Two
                    } else {
                        WidthClass::One
                    }
                } else {
                    if cp < 0x1F6D3 {
                        WidthClass::Two
                    } else {
                        if cp < 0x1F6D5 {
                            WidthClass::One
                        } else {
                            WidthClass::Two
                        }
                    }
                }
            } else {
                if cp < 0x1F6F0 {
                    if cp < 0x1F6EB {
                        WidthClass::One
                    } else {
                        WidthClass::Two
                    }
                } else {
                    if cp < 0x1F6F4 {
                        WidthClass::One
                    } else {
                        if cp < 0x1F700 {
                            WidthClass::Two
                        } else {
                            WidthClass::One
                        }
                    }
                }
            }
        }
    }
}

fn lookup_width_class_120(cp: u32) -> (r: WidthClass)
    requires
        0x1EE58 <= cp <= 0x1F3D3,
    ensures
        r == width_class_of(cp),
{
    if cp < 0x1F005 {
        lookup_width_class_122(cp)
    } else {
        lookup_width_class_123(cp)
    }
}

fn lookup_width_class_123(cp: u32) -> (r: WidthClass)
    requires
        0x1F005 <= cp <= 0x1F3D3,
    ensures
        r == width_class_of(cp),
{
    if cp < 0x1F170 {
        if cp < 0x1F0CF {
            if cp < 0x1F0A0 {
                if cp < 0x1F030 {
                    if cp < 0x1F02C {
                        WidthClass::One
                    } else {
                        WidthClass::Two
                    }
                } else {
                    if cp < 0x1F094 {
                        WidthClass::One
                    } else {
                        WidthClass::Two
                    }
                }
            } else {
                if cp < 0x1F0B1 {
                    if cp < 0x1F0AF {
                        WidthClass::One
                    } else {
                        WidthClass::Two
                    }
                } else {
                    if cp < 0x1F0C0 {
                        WidthClass::One
                    } else {
                        if cp < 0x1F0C1 {
                            WidthClass::Two
                        } else {
                            WidthClass::One
                        }
                    }
                }
            }
        } else {
            if cp < 0x1F10B {
                if cp < 0x1F0F6 {
                    if cp < 0x1F0D1 {
                        WidthClass::Two
                    } else {
                        WidthClass::One
                    }
                } else {
                    if cp < 0x1F100 {
                        WidthClass::Two
                    } else {
                        WidthClass::Ambiguous
                    }
                }
            } else {
                if cp < 0x1F12E {
                    if cp < 0x1F110 {
                        WidthClass::One
                    } else {
                        WidthClass::Ambiguous
                    }
                } else {
                    if cp < 0x1F130 {
                        WidthClass::One
                    } else {
                        if cp < 0x1F16A {
                            WidthClass::Ambiguous
                        } else {
                            WidthClass::One
                        }
                    }
                }
            }
        }
    } else {
        if cp < 0x1F321 {
            if cp < 0x1F19B {
                if cp < 0x1F18F {
                    if cp < 0x1F18E {
                        WidthClass::Ambiguous
                    } else {
                        WidthClass::Two
                    }
                } else {
                    if cp < 0x1F191 {
                        WidthClass::Ambiguous
                    } else {
                        WidthClass::Two
                    }
                }
            } else {
                if cp < 0x1F1AE {
                    if cp < 0x1F1AD {
                        WidthClass::Ambiguous
                    } else {
                        WidthClass::One
                    }
                } else {
                    if cp < 0x1F1E6 {
                        WidthClass::Two
                    } else {
                        if cp < 0x1F200 {
                            WidthClass::One
                        } else {
                            WidthClass::Two
                        }
                    }
                }
            }
        } else {
            if cp < 0x1F37E {
                if cp < 0x1F336 {
                    if cp < 0x1F32D {
                        WidthClass::One
                    } else {
                        WidthClass::Two
                    }
                } else {
                    if cp < 0x1F337 {
                        WidthClass::One
                    } else {
                        if cp < 0x1F37D {
                            WidthClass::Two
                        } else {
                            WidthClass::One
                        }
                    }
                }
            } else {
                if cp < 0x1F3A0 {
                    if cp < 0x1F394 {
                        WidthClass::Two
                    } else {
                        WidthClass::One
                    }
                } else {
                    if cp < 0x1F3CB {
                        WidthClass::Two
                    } else {
                        if cp < 0x1F3CF {
                            WidthClass::One
                        } else {
                            WidthClass::Two
                        }
                    }
                }
            }
        }
    }
}

fn lookup_width_class_122(cp: u32) -> (r: WidthClass)
    requires
        0x1EE58 <= cp <= 0x1F004,
    ensures
        r == width_class_of(cp),
{
    if cp < 0x1EE78 {
        if cp < 0x1EE61 {
            if cp < 0x1EE5C {
                if cp < 0x1EE5A {
                    if cp < 0x1EE59 {
                        WidthClass::Two
                    } else {
                        WidthClass::One
                    }
                } else {
                    if cp < 0x1EE5B {
                        WidthClass::Two
                    } else {
                        WidthClass::One
                    }
                }
            } else {
                if cp < 0x1EE5E {
                    if cp < 0x1EE5D {
                        WidthClass::Two
                    } else {
                        WidthClass::One
                    }
                } else {
                    if cp < 0x1EE5F {
                        WidthClass::Two
                    } else {
                        if cp < 0x1EE60 {
                            WidthClass::One
                        } else {
                            WidthClass::Two
                        }
                    }
                }
            }
        } else {
            if cp < 0x1EE67 {
                if cp < 0x1EE64 {
                    if cp < 0x1EE63 {
                        WidthClass::One
                    } else {
                        WidthClass::Two
                    }
                } else {
                    if cp < 0x1EE65 {
                        WidthClass::One
                    } else {
                        WidthClass::Two
                    }
                }
            } else {
                if cp < 0x1EE6C {
                    if cp < 0x1EE6B {
                        WidthClass::One
                    } else {
                        WidthClass::Two
                    }
                } else {
                    if cp < 0x1EE73 {
                        WidthClass::One
                    } else {
                        if cp < 0x1EE74 {
                            WidthClass::Two
                        } else {
                            WidthClass::One
                        }
                    }
                }
            }
        }
    } else {
        if cp < 0x1EEA1 {
            if cp < 0x1EE7F {
                if cp < 0x1EE7D {
                    if cp < 0x1EE79 {
                        WidthClass::Two
                    } else {
                        WidthClass::One
                    }
                } else {
                    if cp < 0x1EE7E {
                        WidthClass::Two
                    } else {
                        WidthClass::One
                    }
                }
            } else {
                if cp < 0x1EE8A {
                    if cp < 0x1EE80 {
                        WidthClass::Two
                    } else {
                        WidthClass::One
                    }
                } else {
                    if cp < 0x1EE8B {
                        WidthClass::Two
                    } else {
                        if cp < 0x1EE9C {
                            WidthClass::One
                        } else {
                            WidthClass::Two
                        }
                    }
                }
            }
        } else {
            if cp < 0x1EEBC {
                if cp < 0x1EEA5 {
                    if cp < 0x1EEA4 {
                        WidthClass::One
                    } else {
                        WidthClass::Two
                    }
                } else {
                    if cp < 0x1EEAA {
                        WidthClass::One
                    } else {
                        if cp < 0x1EEAB {
                            WidthClass::Two
                        } else {
                            WidthClass::One
                        }
                    }
                }
            } else {
                if cp < 0x1EEF2 {
                    if cp < 0x1EEF0 {
                        WidthClass::Two
                    } else {
                        WidthClass::One
                    }
                } else {
                    if cp < 0x1F000 {
                        WidthClass::Two
                    } else {
                        if cp < 0x1F004 {
                            WidthClass::One
                        } else {
                            WidthClass::Two
                        }
                    }
                }
            }
        }
    }
}

fn lookup_width_class_112(cp: u32) -> (r: WidthClass)
    requires
        0x1D515 <= cp <= 0x1EE57,
    ensures
        r == width_class_of(cp),
{
    if cp < 0x1E5FB {
        lookup_width_class_114(cp)
    } else {
        lookup_width_class_115(cp)
    }
}

fn lookup_width_class_115(cp: u32) -> (r: WidthClass)
    requires
        0x1E5FB <= cp <= 0x1EE57,
    ensures
        r == width_class_of(cp),
{
    if cp < 0x1EC71 {
        lookup_width_class_118(cp)
    } else {
        lookup_width_class_119(cp)
    }
}

fn lookup_width_class_119(cp: u32) -> (r: WidthClass)
    requires
        0x1EC71 <= cp <= 0x1EE57,
    ensures
        r == width_class_of(cp),
{
    if cp < 0x1EE39 {
        if cp < 0x1EE23 {
            if cp < 0x1EE00 {
                if cp < 0x1ED01 {
                    if cp < 0x1ECB5 {
                        WidthClass::One
                    } else {
                        WidthClass::Two
                    }
                } else {
                    if cp < 0x1ED3E {
                        WidthClass::One
                    } else {
                        WidthClass::Two
                    }
                }
            } else {
                if cp < 0x1EE05 {
                    if cp < 0x1EE04 {
                        WidthClass::One
                    } else {
                        WidthClass::Two
                    }
                } else {
                    if cp < 0x1EE20 {
                        WidthClass::One
                    } else {
                        if cp < 0x1EE21 {
                            WidthClass::Two
                        } else {
                            WidthClass::One
                        }
                    }
                }
            }
        } else {
            if cp < 0x1EE28 {
                if cp < 0x1EE25 {
                    if cp < 0x1EE24 {
                        WidthClass::Two
                    } else {
                        WidthClass::One
                    }
                } else {
                    if cp < 0x1EE27 {
                        WidthClass::Two
                    } else {
                        WidthClass::One
                    }
                }
            } else {
                if cp < 0x1EE33 {
                    if cp < 0x1EE29 {
                        WidthClass::Two
                    } else {
                        WidthClass::One
                    }
                } else {
                    if cp < 0x1EE34 {
                        WidthClass::Two
                    } else {
                        if cp < 0x1EE38 {
                            WidthClass::One
                        } else {
                            WidthClass::Two
                        }
                    }
                }
            }
        }
    } else {
        if cp < 0x1EE4A {
            if cp < 0x1EE42 {
                if cp < 0x1EE3B {
                    if cp < 0x1EE3A {
                        WidthClass::One
                    } else {
                        WidthClass::Two
                    }
                } else {
                    if cp < 0x1EE3C {
                        WidthClass::One
                    } else {
                        WidthClass::Two
                    }
                }
            } else {
                if cp < 0x1EE47 {
                    if cp < 0x1EE43 {
                        WidthClass::One
                    } else {
                        WidthClass::Two
                    }
                } else {
                    if cp < 0x1EE48 {
                        WidthClass::One
                    } else {
                        if cp < 0x1EE49 {
                            WidthClass::Two
                        } else {
                            WidthClass::One
                        }
                    }
                }
            }
        } else {
            if cp < 0x1EE51 {
                if cp < 0x1EE4C {
                    if cp < 0x1EE4B {
                        WidthClass::Two
                    } else {
                        WidthClass::One
                    }
                } else {
                    if cp < 0x1EE4D {
                        WidthClass::Two
                    } else {
                        if cp < 0x1EE50 {
                            WidthClass::One
                        } else {
                            WidthClass::Two
                        }
                    }
                }
            } else {
                if cp < 0x1EE54 {
                    if cp < 0x1EE53 {
                        WidthClass::One
                    } else {
                        WidthClass::Two
                    }
                } else {
                    if cp < 0x1EE55 {
                        WidthClass::One
                    } else {
                        if cp < 0x1EE57 {
                            WidthClass::Two
                        } else {
                            WidthClass::One
                        }
                    }
                }
            }
        }
    }
}

fn lookup_width_class_118(cp: u32) -> (r: WidthClass)
    requires
        0x1E5FB <= cp <= 0x1EC70,
    ensures
        r == width_class_of(cp),
{
    if cp < 0x1E7E8 {
        if cp < 0x1E6E7 {
            if cp < 0x1E6DF {
                if cp < 0x1E600 {
                    if cp < 0x1E5FF {
                        WidthClass::Two
                    } else {
                        WidthClass::One
                    }
                } else {
                    if cp < 0x1E6C0 {
                        WidthClass::Two
                    } else {
                        WidthClass::One
                    }
                }
            } else {
                if cp < 0x1E6E3 {
                    if cp < 0x1E6E0 {
                        WidthClass::Two
                    } else {
                        WidthClass::One
                    }
                } else {
                    if cp < 0x1E6E4 {
                        WidthClass::Zero
                    } else {
                        if cp < 0x1E6E6 {
                            WidthClass::One
                        } else {
                            WidthClass::Zero
                        }
                    }
                }
            }
        } else {
            if cp < 0x1E6F6 {
                if cp < 0x1E6F0 {
                    if cp < 0x1E6EE {
                        WidthClass::One
                    } else {
                        WidthClass::Zero
                    }
                } else {
                    if cp < 0x1E6F5 {
                        WidthClass::One
                    } else {
                        WidthClass::Zero
                    }
                }
            } else {
                if cp < 0x1E700 {
                    if cp < 0x1E6FE {
                        WidthClass::Two
                    } else {
                        WidthClass::One
                    }
                } else {
                    if cp < 0x1E7E0 {
                        WidthClass::Two
                    } else {
                        if cp < 0x1E7E7 {
                            WidthClass::One
                        } else {
                            WidthClass::Two
                        }
                    }
                }
            }
        }
    } else {
        if cp < 0x1E8D0 {
            if cp < 0x1E7F0 {
                if cp < 0x1E7ED {
                    if cp < 0x1E7EC {
                        WidthClass::One
                    } else {
                        WidthClass::Two
                    }
                } else {
                    if cp < 0x1E7EF {
                        WidthClass::One
                    } else {
                        WidthClass::Two
                    }
                }
            } else {
                if cp < 0x1E800 {
                    if cp < 0x1E7FF {
                        WidthClass::One
                    } else {
                        WidthClass::Two
                    }
                } else {
                    if cp < 0x1E8C5 {
                        WidthClass::One
                    } else {
                        if cp < 0x1E8C7 {
                            WidthClass::Two
                        } else {
                            WidthClass::One
                        }
                    }
                }
            }
        } else {
            if cp < 0x1E94C {
                if cp < 0x1E900 {
                    if cp < 0x1E8D7 {
                        WidthClass::Zero
                    } else {
                        WidthClass::Two
                    }
                } else {
                    if cp < 0x1E944 {
                        WidthClass::One
                    } else {
                        if cp < 0x1E94B {
                            WidthClass::Zero
                        } else {
                            WidthClass::One
                        }
                    }
                }
            } else {
                if cp < 0x1E95A {
                    if cp < 0x1E950 {
                        WidthClass::Two
                    } else {
                        WidthClass::One
                    }
                } else {
                    if cp < 0x1E95E {
                        WidthClass::Two
                    } else {
                        if cp < 0x1E960 {
                            WidthClass::One
                        } else {
                            WidthClass::Two
                        }
                    }
                }
            }
        }
    }
}

fn lookup_width_class_114(cp: u32) -> (r: WidthClass)
    requires
        0x1D515 <= cp <= 0x1E5FA,
    ensures
        r == width_class_of(cp),
{
    if cp < 0x1E008 {
        lookup_width_class_116(cp)
    } else {
        lookup_width_class_117(cp)
    }
}

fn lookup_width_class_117(cp: u32) -> (r: WidthClass)
    requires
        0x1E008 <= cp <= 0x1E5FA,
    ensures
        r == width_class_of(cp),
{
    if cp < 0x1E14A {
        if cp < 0x1E06E {
            if cp < 0x1E023 {
                if cp < 0x1E01B {
                    if cp < 0x1E019 {
                        WidthClass::Zero
                    } else {
                        WidthClass::Two
                    }
                } else {
                    if cp < 0x1E022 {
                        WidthClass::Zero
                    } else {
                        WidthClass::Two
                    }
                }
            } else {
                if cp < 0x1E026 {
                    if cp < 0x1E025 {
                        WidthClass::Zero
                    } else {
                        WidthClass::Two
                    }
                } else {
                    if cp < 0x1E02B {
                        WidthClass::Zero
                    } else {
                        if cp < 0x1E030 {
                            WidthClass::Two
                        } else {
                            WidthClass::One
                        }
                    }
                }
            }
        } else {
            if cp < 0x1E12D {
                if cp < 0x1E090 {
                    if cp < 0x1E08F {
                        WidthClass::Two
                    } else {
                        WidthClass::Zero
                    }
                } else {
                    if cp < 0x1E100 {
                        WidthClass::Two
                    } else {
                        WidthClass::One
                    }
                }
            } else {
                if cp < 0x1E137 {
                    if cp < 0x1E130 {
                        WidthClass::Two
                    } else {
                        WidthClass::Zero
                    }
                } else {
                    if cp < 0x1E13E {
                        WidthClass::One
                    } else {
                        if cp < 0x1E140 {
                            WidthClass::Two
                        } else {
                            WidthClass::One
                        }
                    }
                }
            }
        }
    } else {
        if cp < 0x1E2FA {
            if cp < 0x1E2AE {
                if cp < 0x1E150 {
                    if cp < 0x1E14E {
                        WidthClass::Two
                    } else {
                        WidthClass::One
                    }
                } else {
                    if cp < 0x1E290 {
                        WidthClass::Two
                    } else {
                        WidthClass::One
                    }
                }
            } else {
                if cp < 0x1E2C0 {
                    if cp < 0x1E2AF {
                        WidthClass::Zero
                    } else {
                        WidthClass::Two
                    }
                } else {
                    if cp < 0x1E2EC {
                        WidthClass::One
                    } else {
                        if cp < 0x1E2F0 {
                            WidthClass::Zero
                        } else {
                            WidthClass::One
                        }
                    }
                }
            }
        } else {
            if cp < 0x1E4F0 {
                if cp < 0x1E300 {
                    if cp < 0x1E2FF {
                        WidthClass::Two
                    } else {
                        WidthClass::One
                    }
                } else {
                    if cp < 0x1E4D0 {
                        WidthClass::Two
                    } else {
                        if cp < 0x1E4EC {
                            WidthClass::One
                        } else {
                            WidthClass::Zero
                        }
                    }
                }
            } else {
                if cp < 0x1E5D0 {
                    if cp < 0x1E4FA {
                        WidthClass::One
                    } else {
                        WidthClass::Two
                    }
                } else {
                    if cp < 0x1E5EE {
                        WidthClass::One
                    } else {
                        if cp < 0x1E5F0 {
                            WidthClass::Zero
                        } else {
                            WidthClass::One
                        }
                    }
                }
            }
        }
    }
}

fn lookup_width_class_116(cp: u32) -> (r: WidthClass)
    requires
        0x1D515 <= cp <= 0x1E007,
    ensures
        r == width_class_of(cp),
{
    if cp < 0x1DA00 {
        if cp < 0x1D546 {
            if cp < 0x1D53A {
                if cp < 0x1D51D {
                    if cp < 0x1D516 {
                        WidthClass::Two
                    } else {
                        WidthClass::One
                    }
                } else {
                    if cp < 0x1D51E {
                        WidthClass::Two
                    } else {
                        WidthClass::One
                    }
                }
            } else {
                if cp < 0x1D53F {
                    if cp < 0x1D53B {
                        WidthClass::Two
                    } else {
                        WidthClass::One
                    }
                } else {
                    if cp < 0x1D540 {
                        WidthClass::Two
                    } else {
                        if cp < 0x1D545 {
                            WidthClass::One
                        } else {
                            WidthClass::Two
                        }
                    }
                }
            }
        } else {
            if cp < 0x1D552 {
                if cp < 0x1D54A {
                    if cp < 0x1D547 {
                        WidthClass::One
                    } else {
                        WidthClass::Two
                    }
                } else {
                    if cp < 0x1D551 {
                        WidthClass::One
                    } else {
                        WidthClass::Two
                    }
                }
            } else {
                if cp < 0x1D6A8 {
                    if cp < 0x1D6A6 {
                        WidthClass::One
                    } else {
                        WidthClass::Two
                    }
                } else {
                    if cp < 0x1D7CC {
                        WidthClass::One
                    } else {
                        if cp < 0x1D7CE {
                            WidthClass::Two
                        } else {
                            WidthClass::One
                        }
                    }
                }
            }
        }
    } else {
        if cp < 0x1DA9B {
            if cp < 0x1DA75 {
                if cp < 0x1DA3B {
                    if cp < 0x1DA37 {
                        WidthClass::Zero
                    } else {
                        WidthClass::One
                    }
                } else {
                    if cp < 0x1DA6D {
                        WidthClass::Zero
                    } else {
                        WidthClass::One
                    }
                }
            } else {
                if cp < 0x1DA84 {
                    if cp < 0x1DA76 {
                        WidthClass::Zero
                    } else {
                        WidthClass::One
                    }
                } else {
                    if cp < 0x1DA85 {
                        WidthClass::Zero
                    } else {
                        if cp < 0x1DA8C {
                            WidthClass::One
                        } else {
                            WidthClass::Two
                        }
                    }
                }
            }
        } else {
            if cp < 0x1DF1F {
                if cp < 0x1DAA1 {
                    if cp < 0x1DAA0 {
                        WidthClass::Zero
                    } else {
                        WidthClass::Two
                    }
                } else {
                    if cp < 0x1DAB0 {
                        WidthClass::Zero
                    } else {
                        if cp < 0x1DF00 {
                            WidthClass::Two
                        } else {
                            WidthClass::One
                        }
                    }
                }
            } else {
                if cp < 0x1DF2B {
                    if cp < 0x1DF25 {
                        WidthClass::Two
                    } else {
                        WidthClass::One
                    }
                } else {
                    if cp < 0x1E000 {
                        WidthClass::Two
                    } else {
                        if cp < 0x1E007 {
                            WidthClass::Zero
                        } else {
                            WidthClass::Two
                        }
                    }
                }
            }
        }
    }
}

fn lookup_width_class_96(cp: u32) -> (r: WidthClass)
    requires
        0x11838 <= cp <= 0x1D514,
    ensures
        r == width_class_of(cp),
{
    if cp < 0x11FC0 {
        lookup_width_class_98(cp)
    } else {
        lookup_width_class_99(cp)
    }
}

fn lookup_width_class_99(cp: u32) -> (r: WidthClass)
    requires
        0x11FC0 <= cp <= 0x1D514,
    ensures
        r == width_class_of(cp),
{
    if cp < 0x1BC00 {
        lookup_width_class_106(cp)
    } else {
        lookup_width_class_107(cp)
    }
}

fn lookup_width_class_107(cp: u32) -> (r: WidthClass)
    requires
        0x1BC00 <= cp <= 0x1D514,
    ensures
        r == width_class_of(cp),
{
    if cp < 0x1D18C {
        lookup_width_class_110(cp)
    } else {
        lookup_width_class_111(cp)
    }
}

fn lookup_width_class_111(cp: u32) -> (r: WidthClass)
    requires
        0x1D18C <= cp <= 0x1D514,
    ensures
        r == width_class_of(cp),
{
    if cp < 0x1D49E {
        if cp < 0x1D2D4 {
            if cp < 0x1D200 {
                if cp < 0x1D1AE {
                    if cp < 0x1D1AA {
                        WidthClass::One
                    } else {
                        WidthClass::Zero
                    }
                } else {
                    if cp < 0x1D1EB {
                        WidthClass::One
                    } else {
                        WidthClass::Two
                    }
                }
            } else {
                if cp < 0x1D245 {
                    if cp < 0x1D242 {
                        WidthClass::One
                    } else {
                        WidthClass::Zero
                    }
                } else {
                    if cp < 0x1D246 {
                        WidthClass::One
                    } else {
                        if cp < 0x1D2C0 {
                            WidthClass::Two
                        } else {
                            WidthClass::One
                        }
                    }
                }
            }
        } else {
            if cp < 0x1D379 {
                if cp < 0x1D2F4 {
                    if cp < 0x1D2E0 {
                        WidthClass::Two
                    } else {
                        WidthClass::One
                    }
                } else {
                    if cp < 0x1D377 {
                        WidthClass::Two
                    } else {
                        WidthClass::One
                    }
                }
            } else {
                if cp < 0x1D455 {
                    if cp < 0x1D400 {
                        WidthClass::Two
                    } else {
                        WidthClass::One
                    }
                } else {
                    if cp < 0x1D456 {
                        WidthClass::Two
                    } else {
                        if cp < 0x1D49D {
                            WidthClass::One
                        } else {
                            WidthClass::Two
                        }
                    }
                }
            }
        }
    } else {
        if cp < 0x1D4BA {
            if cp < 0x1D4A5 {
                if cp < 0x1D4A2 {
                    if cp < 0x1D4A0 {
                        WidthClass::One
                    } else {
                        WidthClass::Two
                    }
                } else {
                    if cp < 0x1D4A3 {
                        WidthClass::One
                    } else {
                        WidthClass::Two
                    }
                }
            } else {
                if cp < 0x1D4A9 {
                    if cp < 0x1D4A7 {
                        WidthClass::One
                    } else {
                        WidthClass::Two
                    }
                } else {
                    if cp < 0x1D4AD {
                        WidthClass::One
                    } else {
                        if cp < 0x1D4AE {
                            WidthClass::Two
                        } else {
                            WidthClass::One
                        }
                    }
                }
            }
        } else {
            if cp < 0x1D4C5 {
                if cp < 0x1D4BC {
                    if cp < 0x1D4BB {
                        WidthClass::Two
                    } else {
                        WidthClass::One
                    }
                } else {
                    if cp < 0x1D4BD {
                        WidthClass::Two
                    } else {
                        if cp < 0x1D4C4 {
                            WidthClass::One
                        } else {
                            WidthClass::Two
                        }
                    }
                }
            } else {
                if cp < 0x1D507 {
                    if cp < 0x1D506 {
                        WidthClass::One
                    } else {
                        WidthClass::Two
                    }
                } else {
                    if cp < 0x1D50B {
                        WidthClass::One
                    } else {
                        if cp < 0x1D50D {
                            WidthClass::Two
                        } else {
                            WidthClass::One
                        }
                    }
                }
            }
        }
    }
}

fn lookup_width_class_110(cp: u32) -> (r: WidthClass)
    requires
        0x1BC00 <= cp <= 0x1D18B,
    ensures
        r == width_class_of(cp),
{
    if cp < 0x1CED1 {
        if cp < 0x1BC9D {
            if cp < 0x1BC80 {
                if cp < 0x1BC70 {
                    if cp < 0x1BC6B {
                        WidthClass::One
                    } else {
                        WidthClass::Two
                    }
                } else {
                    if cp < 0x1BC7D {
                        WidthClass::One
                    } else {
                        WidthClass::Two
                    }
                }
            } else {
                if cp < 0x1BC90 {
                    if cp < 0x1BC89 {
                        WidthClass::One
                    } else {
                        WidthClass::Two
                    }
                } else {
                    if cp < 0x1BC9A {
                        WidthClass::One
                    } else {
                        if cp < 0x1BC9C {
                            WidthClass::Two
                        } else {
                            WidthClass::One
                        }
                    }
                }
            }
        } else {
            if cp < 0x1CC00 {
                if cp < 0x1BCA0 {
                    if cp < 0x1BC9F {
                        WidthClass::Zero
                    } else {
                        WidthClass::One
                    }
                } else {
                    if cp < 0x1BCA4 {
                        WidthClass::Zero
                    } else {
                        WidthClass::Two
                    }
                }
            } else {
                if cp < 0x1CD00 {
                    if cp < 0x1CCFD {
                        WidthClass::One
                    } else {
                        WidthClass::Two
                    }
                } else {
                    if cp < 0x1CEB4 {
                        WidthClass::One
                    } else {
                        if cp < 0x1CEBA {
                            WidthClass::Two
                        } else {
                            WidthClass::One
                        }
                    }
                }
            }
        }
    } else {
        if cp < 0x1D000 {
            if cp < 0x1CF2E {
                if cp < 0x1CEF1 {
                    if cp < 0x1CEE0 {
                        WidthClass::Two
                    } else {
                        WidthClass::One
                    }
                } else {
                    if cp < 0x1CF00 {
                        WidthClass::Two
                    } else {
                        WidthClass::Zero
                    }
                }
            } else {
                if cp < 0x1CF47 {
                    if cp < 0x1CF30 {
                        WidthClass::Two
                    } else {
                        WidthClass::Zero
                    }
                } else {
                    if cp < 0x1CF50 {
                        WidthClass::Two
                    } else {
                        if cp < 0x1CFC4 {
                            WidthClass::One
                        } else {
                            WidthClass::Two
                        }
                    }
                }
            }
        } else {
            if cp < 0x1D165 {
                if cp < 0x1D100 {
                    if cp < 0x1D0F6 {
                        WidthClass::One
                    } else {
                        WidthClass::Two
                    }
                } else {
                    if cp < 0x1D127 {
                        WidthClass::One
                    } else {
                        if cp < 0x1D129 {
                            WidthClass::Two
                        } else {
                            WidthClass::One
                        }
                    }
                }
            } else {
                if cp < 0x1D16D {
                    if cp < 0x1D16A {
                        WidthClass::Zero
                    } else {
                        WidthClass::One
                    }
                } else {
                    if cp < 0x1D183 {
                        WidthClass::Zero
                    } else {
                        if cp < 0x1D185 {
                            WidthClass::One
                        } else {
                            WidthClass::Zero
                        }
                    }
                }
            }
        }
    }
}

fn lookup_width_class_106(cp: u32) -> (r: WidthClass)
    requires
        0x11FC0 <= cp <= 0x1BBFF,
    ensures
        r == width_class_of(cp),
{
    if cp < 0x16AD0 {
        lookup_width_class_108(cp)
    } else {
        lookup_width_class_109(cp)
    }
}

fn lookup_width_class_109(cp: u32) -> (r: WidthClass)
    requires
        0x16AD0 <= cp <= 0x1BBFF,
    ensures
        r == width_class_of(cp),
{
    if cp < 0x16D7A {
        if cp < 0x16B50 {
            if cp < 0x16AF6 {
                if cp < 0x16AF0 {
                    if cp < 0x16AEE {
                        WidthClass::One
                    } else {
                        WidthClass::Two
                    }
                } else {
                    if cp < 0x16AF5 {
                        WidthClass::Zero
                    } else {
                        WidthClass::One
                    }
                }
            } else {
                if cp < 0x16B30 {
                    if cp < 0x16B00 {
                        WidthClass::Two
                    } else {
                        WidthClass::One
                    }
                } else {
                    if cp < 0x16B37 {
                        WidthClass::Zero
                    } else {
                        if cp < 0x16B46 {
                            WidthClass::One
                        } else {
                            WidthClass::Two
                        }
                    }
                }
            }
        } else {
            if cp < 0x16B63 {
                if cp < 0x16B5B {
                    if cp < 0x16B5A {
                        WidthClass::One
                    } else {
                        WidthClass::Two
                    }
                } else {
                    if cp < 0x16B62 {
                        WidthClass::One
                    } else {
                        WidthClass::Two
                    }
                }
            } else {
                if cp < 0x16B7D {
                    if cp < 0x16B78 {
                        WidthClass::One
                    } else {
                        WidthClass::Two
                    }
                } else {
                    if cp < 0x16B90 {
                        WidthClass::One
                    } else {
                        if cp < 0x16D40 {
                            WidthClass::Two
                        } else {
                            WidthClass::One
                        }
                    }
                }
            }
        }
    } else {
        if cp < 0x16F4F {
            if cp < 0x16EB9 {
                if cp < 0x16E9B {
                    if cp < 0x16E40 {
                        WidthClass::Two
                    } else {
                        WidthClass::One
                    }
                } else {
                    if cp < 0x16EA0 {
                        WidthClass::Two
                    } else {
                        WidthClass::One
                    }
                }
            } else {
                if cp < 0x16ED4 {
                    if cp < 0x16EBB {
                        WidthClass::Two
                    } else {
                        WidthClass::One
                    }
                } else {
                    if cp < 0x16F00 {
                        WidthClass::Two
                    } else {
                        if cp < 0x16F4B {
                            WidthClass::One
                        } else {
                            WidthClass::Two
                        }
                    }
                }
            }
        } else {
            if cp < 0x16FA0 {
                if cp < 0x16F88 {
                    if cp < 0x16F50 {
                        WidthClass::Zero
                    } else {
                        WidthClass::One
                    }
                } else {
                    if cp < 0x16F8F {
                        WidthClass::Two
                    } else {
                        if cp < 0x16F93 {
                            WidthClass::Zero
                        } else {
                            WidthClass::One
                        }
                    }
                }
            } else {
                if cp < 0x16FE5 {
                    if cp < 0x16FE4 {
                        WidthClass::Two
                    } else {
                        WidthClass::Zero
                    }
                } else {
                    if cp < 0x16FF0 {
                        WidthClass::Two
                    } else {
                        if cp < 0x16FF2 {
                            WidthClass::Zero
                        } else {
                            WidthClass::Two
                        }
                    }
                }
            }
        }
    }
}

fn lookup_width_class_108(cp: u32) -> (r: WidthClass)
    requires
        0x11FC0 <= cp <= 0x16ACF,
    ensures
        r == width_class_of(cp),
{
    if cp < 0x143FB {
        if cp < 0x12544 {
            if cp < 0x12400 {
                if cp < 0x11FFF {
                    if cp < 0x11FF2 {
                        WidthClass::One
                    } else {
                        WidthClass::Two
                    }
                } else {
                    if cp < 0x1239A {
                        WidthClass::One
                    } else {
                        WidthClass::Two
                    }
                }
            } else {
                if cp < 0x12470 {
                    if cp < 0x1246F {
                        WidthClass::One
                    } else {
                        WidthClass::Two
                    }
                } else {
                    if cp < 0x12475 {
                        WidthClass::One
                    } else {
                        if cp < 0x12480 {
                            WidthClass::Two
                        } else {
                            WidthClass::One
                        }
                    }
                }
            }
        } else {
            if cp < 0x13440 {
                if cp < 0x12FF3 {
                    if cp < 0x12F90 {
                        WidthClass::Two
                    } else {
                        WidthClass::One
                    }
                } else {
                    if cp < 0x13000 {
                        WidthClass::Two
                    } else {
                        WidthClass::One
                    }
                }
            } else {
                if cp < 0x13447 {
                    if cp < 0x13441 {
                        WidthClass::Zero
                    } else {
                        WidthClass::One
                    }
                } else {
                    if cp < 0x13456 {
                        WidthClass::Zero
                    } else {
                        if cp < 0x13460 {
                            WidthClass::Two
                        } else {
                            WidthClass::One
                        }
                    }
                }
            }
        }
    } else {
        if cp < 0x16800 {
            if cp < 0x1611E {
                if cp < 0x14647 {
                    if cp < 0x14400 {
                        WidthClass::Two
                    } else {
                        WidthClass::One
                    }
                } else {
                    if cp < 0x16100 {
                        WidthClass::Two
                    } else {
                        WidthClass::One
                    }
                }
            } else {
                if cp < 0x1612D {
                    if cp < 0x1612A {
                        WidthClass::Zero
                    } else {
                        WidthClass::One
                    }
                } else {
                    if cp < 0x16130 {
                        WidthClass::Zero
                    } else {
                        if cp < 0x1613A {
                            WidthClass::One
                        } else {
                            WidthClass::Two
                        }
                    }
                }
            }
        } else {
            if cp < 0x16A6A {
                if cp < 0x16A40 {
                    if cp < 0x16A39 {
                        WidthClass::One
                    } else {
                        WidthClass::Two
                    }
                } else {
                    if cp < 0x16A5F {
                        WidthClass::One
                    } else {
                        if cp < 0x16A60 {
                            WidthClass::Two
                        } else {
                            WidthClass::One
                        }
                    }
                }
            } else {
                if cp < 0x16ABF {
                    if cp < 0x16A6E {
                        WidthClass::Two
                    } else {
                        WidthClass::One
                    }
                } else {
                    if cp < 0x16AC0 {
                        WidthClass::Two
                    } else {
                        if cp < 0x16ACA {
                            WidthClass::One
                        } else {
                            WidthClass::Two
                        }
                    }
                }
            }
        }
    }
}

fn lookup_width_class_98(cp: u32) -> (r: WidthClass)
    requires
        0x11838 <= cp <= 0x11FBF,
    ensures
        r == width_class_of(cp),
{
    if cp < 0x11C30 {
        lookup_width_class_100(cp)
    } else {
        lookup_width_class_101(cp)
    }
}

fn lookup_width_class_101(cp: u32) -> (r: WidthClass)
    requires
        0x11C30 <= cp <= 0x11FBF,
    ensures
        r == width_class_of(cp),
{
    if cp < 0x11D60 {
        lookup_width_class_104(cp)
    } else {
        lookup_width_class_105(cp)
    }
}

fn lookup_width_class_105(cp: u32) -> (r: WidthClass)
    requires
        0x11D60 <= cp <= 0x11FBF,
    ensures
        r == width_class_of(cp),
{
    if cp < 0x11DE0 {
        if cp < 0x11D95 {
            if cp < 0x11D6A {
                if cp < 0x11D67 {
                    if cp < 0x11D66 {
                        WidthClass::One
                    } else {
                        WidthClass::Two
                    }
                } else {
                    if cp < 0x11D69 {
                        WidthClass::One
                    } else {
                        WidthClass::Two
                    }
                }
            } else {
                if cp < 0x11D90 {
                    if cp < 0x11D8F {
                        WidthClass::One
                    } else {
                        WidthClass::Two
                    }
                } else {
                    if cp < 0x11D92 {
                        WidthClass::Zero
                    } else {
                        if cp < 0x11D93 {
                            WidthClass::Two
                        } else {
                            WidthClass::One
                        }
                    }
                }
            }
        } else {
            if cp < 0x11D99 {
                if cp < 0x11D97 {
                    if cp < 0x11D96 {
                        WidthClass::Zero
                    } else {
                        WidthClass::One
                    }
                } else {
                    if cp < 0x11D98 {
                        WidthClass::Zero
                    } else {
                        WidthClass::One
                    }
                }
            } else {
                if cp < 0x11DAA {
                    if cp < 0x11DA0 {
                        WidthClass::Two
                    } else {
                        WidthClass::One
                    }
                } else {
                    if cp < 0x11DB0 {
                        WidthClass::Two
                    } else {
                        if cp < 0x11DDC {
                            WidthClass::One
                        } else {
                            WidthClass::Two
                        }
                    }
                }
            }
        }
    } else {
        if cp < 0x11F12 {
            if cp < 0x11EF5 {
                if cp < 0x11EE0 {
                    if cp < 0x11DEA {
                        WidthClass::One
                    } else {
                        WidthClass::Two
                    }
                } else {
                    if cp < 0x11EF3 {
                        WidthClass::One
                    } else {
                        WidthClass::Zero
                    }
                }
            } else {
                if cp < 0x11F00 {
                    if cp < 0x11EF9 {
                        WidthClass::One
                    } else {
                        WidthClass::Two
                    }
                } else {
                    if cp < 0x11F02 {
                        WidthClass::Zero
                    } else {
                        if cp < 0x11F11 {
                            WidthClass::One
                        } else {
                            WidthClass::Two
                        }
                    }
                }
            }
        } else {
            if cp < 0x11F43 {
                if cp < 0x11F3B {
                    if cp < 0x11F36 {
                        WidthClass::One
                    } else {
                        WidthClass::Zero
                    }
                } else {
                    if cp < 0x11F3E {
                        WidthClass::Two
                    } else {
                        if cp < 0x11F40 {
                            WidthClass::One
                        } else {
                            WidthClass::Zero
                        }
                    }
                }
            } else {
                if cp < 0x11F5B {
                    if cp < 0x11F5A {
                        WidthClass::One
                    } else {
                        WidthClass::Zero
                    }
                } else {
                    if cp < 0x11FB0 {
                        WidthClass::Two
                    } else {
                        if cp < 0x11FB1 {
                            WidthClass::One
                        } else {
                            WidthClass::Two
                        }
                    }
                }
            }
        }
    }
}

fn lookup_width_class_104(cp: u32) -> (r: WidthClass)
    requires
        0x11C30 <= cp <= 0x11D5F,
    ensures
        r == width_class_of(cp),
{
    if cp < 0x11CB5 {
        if cp < 0x11C70 {
            if cp < 0x11C3F {
                if cp < 0x11C38 {
                    if cp < 0x11C37 {
                        WidthClass::Zero
                    } else {
                        WidthClass::Two
                    }
                } else {
                    if cp < 0x11C3E {
                        WidthClass::Zero
                    } else {
                        WidthClass::One
                    }
                }
            } else {
                if cp < 0x11C46 {
                    if cp < 0x11C40 {
                        WidthClass::Zero
                    } else {
                        WidthClass::One
                    }
                } else {
                    if cp < 0x11C50 {
                        WidthClass::Two
                    } else {
                        if cp < 0x11C6D {
                            WidthClass::One
                        } else {
                            WidthClass::Two
                        }
                    }
                }
            }
        } else {
            if cp < 0x11CA9 {
                if cp < 0x11C92 {
                    if cp < 0x11C90 {
                        WidthClass::One
                    } else {
                        WidthClass::Two
                    }
                } else {
                    if cp < 0x11CA8 {
                        WidthClass::Zero
                    } else {
                        WidthClass::Two
                    }
                }
            } else {
                if cp < 0x11CB1 {
                    if cp < 0x11CAA {
                        WidthClass::One
                    } else {
                        WidthClass::Zero
                    }
                } else {
                    if cp < 0x11CB2 {
                        WidthClass::One
                    } else {
                        if cp < 0x11CB4 {
                            WidthClass::Zero
                        } else {
                            WidthClass::One
                        }
                    }
                }
            }
        }
    } else {
        if cp < 0x11D3A {
            if cp < 0x11D08 {
                if cp < 0x11D00 {
                    if cp < 0x11CB7 {
                        WidthClass::Zero
                    } else {
                        WidthClass::Two
                    }
                } else {
                    if cp < 0x11D07 {
                        WidthClass::One
                    } else {
                        WidthClass::Two
                    }
                }
            } else {
                if cp < 0x11D0B {
                    if cp < 0x11D0A {
                        WidthClass::One
                    } else {
                        WidthClass::Two
                    }
                } else {
                    if cp < 0x11D31 {
                        WidthClass::One
                    } else {
                        if cp < 0x11D37 {
                            WidthClass::Zero
                        } else {
                            WidthClass::Two
                        }
                    }
                }
            }
        } else {
            if cp < 0x11D46 {
                if cp < 0x11D3C {
                    if cp < 0x11D3B {
                        WidthClass::Zero
                    } else {
                        WidthClass::Two
                    }
                } else {
                    if cp < 0x11D3E {
                        WidthClass::Zero
                    } else {
                        if cp < 0x11D3F {
                            WidthClass::Two
                        } else {
                            WidthClass::Zero
                        }
                    }
                }
            } else {
                if cp < 0x11D48 {
                    if cp < 0x11D47 {
                        WidthClass::One
                    } else {
                        WidthClass::Zero
                    }
                } else {
                    if cp < 0x11D50 {
                        WidthClass::Two
                    } else {
                        if cp < 0x11D5A {
                            WidthClass::One
                        } else {
                            WidthClass::Two
                        }
                    }
                }
            }
        }
    }
}

fn lookup_width_class_100(cp: u32) -> (r: WidthClass)
    requires
        0x11838 <= cp <= 0x11C2F,
    ensures
        r == width_class_of(cp),
{
    if cp < 0x11A00 {
        lookup_width_class_102(cp)
    } else {
        lookup_width_class_103(cp)
    }
}

fn lookup_width_class_103(cp: u32) -> (r: WidthClass)
    requires
        0x11A00 <= cp <= 0x11C2F,
    ensures
        r == width_class_of(cp),
{
    if cp < 0x11AA3 {
        if cp < 0x11A50 {
            if cp < 0x11A39 {
                if cp < 0x11A0B {
                    if cp < 0x11A01 {
                        WidthClass::One
                    } else {
                        WidthClass::Zero
                    }
                } else {
                    if cp < 0x11A33 {
                        WidthClass::One
                    } else {
                        WidthClass::Zero
                    }
                }
            } else {
                if cp < 0x11A3F {
                    if cp < 0x11A3B {
                        WidthClass::One
                    } else {
                        WidthClass::Zero
                    }
                } else {
                    if cp < 0x11A47 {
                        WidthClass::One
                    } else {
                        if cp < 0x11A48 {
                            WidthClass::Zero
                        } else {
                            WidthClass::Two
                        }
                    }
                }
            }
        } else {
            if cp < 0x11A5C {
                if cp < 0x11A57 {
                    if cp < 0x11A51 {
                        WidthClass::One
                    } else {
                        WidthClass::Zero
                    }
                } else {
                    if cp < 0x11A59 {
                        WidthClass::One
                    } else {
                        WidthClass::Zero
                    }
                }
            } else {
                if cp < 0x11A97 {
                    if cp < 0x11A8A {
                        WidthClass::One
                    } else {
                        WidthClass::Zero
                    }
                } else {
                    if cp < 0x11A98 {
                        WidthClass::One
                    } else {
                        if cp < 0x11A9A {
                            WidthClass::Zero
                        } else {
                            WidthClass::One
                        }
                    }
                }
            }
        }
    } else {
        if cp < 0x11B66 {
            if cp < 0x11B0A {
                if cp < 0x11AF9 {
                    if cp < 0x11AB0 {
                        WidthClass::Two
                    } else {
                        WidthClass::One
                    }
                } else {
                    if cp < 0x11B00 {
                        WidthClass::Two
                    } else {
                        WidthClass::One
                    }
                }
            } else {
                if cp < 0x11B61 {
                    if cp < 0x11B60 {
                        WidthClass::Two
                    } else {
                        WidthClass::Zero
                    }
                } else {
                    if cp < 0x11B62 {
                        WidthClass::One
                    } else {
                        if cp < 0x11B65 {
                            WidthClass::Zero
                        } else {
                            WidthClass::One
                        }
                    }
                }
            }
        } else {
            if cp < 0x11BF0 {
                if cp < 0x11B68 {
                    if cp < 0x11B67 {
                        WidthClass::Zero
                    } else {
                        WidthClass::One
                    }
                } else {
                    if cp < 0x11BC0 {
                        WidthClass::Two
                    } else {
                        if cp < 0x11BE2 {
                            WidthClass::One
                        } else {
                            WidthClass::Two
                        }
                    }
                }
            } else {
                if cp < 0x11C00 {
                    if cp < 0x11BFA {
                        WidthClass::One
                    } else {
                        WidthClass::Two
                    }
                } else {
                    if cp < 0x11C09 {
                        WidthClass::One
                    } else {
                        if cp < 0x11C0A {
                            WidthClass::Two
                        } else {
                            WidthClass::One
                        }
                    }
                }
            }
        }
    }
}

fn lookup_width_class_102(cp: u32) -> (r: WidthClass)
    requires
        0x11838 <= cp <= 0x119FF,
    ensures
        r == width_class_of(cp),
{
    if cp < 0x11937 {
        if cp < 0x1190A {
            if cp < 0x118A0 {
                if cp < 0x1183B {
                    if cp < 0x11839 {
                        WidthClass::One
                    } else {
                        WidthClass::Zero
                    }
                } else {
                    if cp < 0x1183C {
                        WidthClass::One
                    } else {
                        WidthClass::Two
                    }
                }
            } else {
                if cp < 0x118FF {
                    if cp < 0x118F3 {
                        WidthClass::One
                    } else {
                        WidthClass::Two
                    }
                } else {
                    if cp < 0x11907 {
                        WidthClass::One
                    } else {
                        if cp < 0x11909 {
                            WidthClass::Two
                        } else {
                            WidthClass::One
                        }
                    }
                }
            }
        } else {
            if cp < 0x11917 {
                if cp < 0x11914 {
                    if cp < 0x1190C {
                        WidthClass::Two
                    } else {
                        WidthClass::One
                    }
                } else {
                    if cp < 0x11915 {
                        WidthClass::Two
                    } else {
                        WidthClass::One
                    }
                }
            } else {
                if cp < 0x11930 {
                    if cp < 0x11918 {
                        WidthClass::Two
                    } else {
                        WidthClass::One
                    }
                } else {
                    if cp < 0x11931 {
                        WidthClass::Zero
                    } else {
                        if cp < 0x11936 {
                            WidthClass::One
                        } else {
                            WidthClass::Two
                        }
                    }
                }
            }
        }
    } else {
        if cp < 0x119A0 {
            if cp < 0x11943 {
                if cp < 0x1193B {
                    if cp < 0x11939 {
                        WidthClass::One
                    } else {
                        WidthClass::Two
                    }
                } else {
                    if cp < 0x1193F {
                        WidthClass::Zero
                    } else {
                        WidthClass::One
                    }
                }
            } else {
                if cp < 0x11947 {
                    if cp < 0x11944 {
                        WidthClass::Zero
                    } else {
                        WidthClass::One
                    }
                } else {
                    if cp < 0x11950 {
                        WidthClass::Two
                    } else {
                        if cp < 0x1195A {
                            WidthClass::One
                        } else {
                            WidthClass::Two
                        }
                    }
                }
            }
        } else {
            if cp < 0x119DA {
                if cp < 0x119AA {
                    if cp < 0x119A8 {
                        WidthClass::One
                    } else {
                        WidthClass::Two
                    }
                } else {
                    if cp < 0x119D4 {
                        WidthClass::One
                    } else {
                        if cp < 0x119D8 {
                            WidthClass::Zero
                        } else {
                            WidthClass::Two
                        }
                    }
                }
            } else {
                if cp < 0x119E0 {
                    if cp < 0x119DC {
                        WidthClass::Zero
                    } else {
                        WidthClass::One
                    }
                } else {
                    if cp < 0x119E1 {
                        WidthClass::Zero
                    } else {
                        if cp < 0x119E5 {
                            WidthClass::One
                        } else {
                            WidthClass::Two
                        }
                    }
                }
            }
        }
    }
}

fn lookup_width_class_64(cp: u32) -> (r: WidthClass)
    requires
        0xA69E <= cp <= 0x11837,
    ensures
        r == width_class_of(cp),
{
    if cp < 0x10A38 {
        lookup_width_class_66(cp)
    } else {
        lookup_width_class_67(cp)
    }
}

fn lookup_width_class_67(cp: u32) -> (r: WidthClass)
    requires
        0x10A38 <= cp <= 0x11837,
    ensures
        r == width_class_of(cp),
{
    if cp < 0x112EB {
        lookup_width_class_82(cp)
    } else {
        lookup_width_class_83(cp)
    }
}

fn lookup_width_class_83(cp: u32) -> (r: WidthClass)
    requires
        0x112EB <= cp <= 0x11837,
    ensures
        r == width_class_of(cp),
{
    if cp < 0x11445 {
        lookup_width_class_90(cp)
    } else {
        lookup_width_class_91(cp)
    }
}

fn lookup_width_class_91(cp: u32) -> (r: WidthClass)
    requires
        0x11445 <= cp <= 0x11837,
    ensures
        r == width_class_of(cp),
{
    if cp < 0x11633 {
        lookup_width_class_94(cp)
    } else {
        lookup_width_class_95(cp)
    }
}

fn lookup_width_class_95(cp: u32) -> (r: WidthClass)
    requires
        0x11633 <= cp <= 0x11837,
    ensures
        r == width_class_of(cp),
{
    if cp < 0x116BA {
        if cp < 0x11660 {
            if cp < 0x1163F {
                if cp < 0x1163D {
                    if cp < 0x1163B {
                        WidthClass::Zero
                    } else {
                        WidthClass::One
                    }
                } else {
                    if cp < 0x1163E {
                        WidthClass::Zero
                    } else {
                        WidthClass::One
                    }
                }
            } else {
                if cp < 0x11645 {
                    if cp < 0x11641 {
                        WidthClass::Zero
                    } else {
                        WidthClass::One
                    }
                } else {
                    if cp < 0x11650 {
                        WidthClass::Two
                    } else {
                        if cp < 0x1165A {
                            WidthClass::One
                        } else {
                            WidthClass::Two
                        }
                    }
                }
            }
        } else {
            if cp < 0x116AC {
                if cp < 0x11680 {
                    if cp < 0x1166D {
                        WidthClass::One
                    } else {
                        WidthClass::Two
                    }
                } else {
                    if cp < 0x116AB {
                        WidthClass::One
                    } else {
                        WidthClass::Zero
                    }
                }
            } else {
                if cp < 0x116AE {
                    if cp < 0x116AD {
                        WidthClass::One
                    } else {
                        WidthClass::Zero
                    }
                } else {
                    if cp < 0x116B0 {
                        WidthClass::One
                    } else {
                        if cp < 0x116B8 {
                            WidthClass::Zero
                        } else {
                            WidthClass::One
                        }
                    }
                }
            }
        }
    } else {
        if cp < 0x1171F {
            if cp < 0x116E4 {
                if cp < 0x116CA {
                    if cp < 0x116C0 {
                        WidthClass::Two
                    } else {
                        WidthClass::One
                    }
                } else {
                    if cp < 0x116D0 {
                        WidthClass::Two
                    } else {
                        WidthClass::One
                    }
                }
            } else {
                if cp < 0x1171B {
                    if cp < 0x11700 {
                        WidthClass::Two
                    } else {
                        WidthClass::One
                    }
                } else {
                    if cp < 0x1171D {
                        WidthClass::Two
                    } else {
                        if cp < 0x1171E {
                            WidthClass::Zero
                        } else {
                            WidthClass::One
                        }
                    }
                }
            }
        } else {
            if cp < 0x1172C {
                if cp < 0x11722 {
                    if cp < 0x11720 {
                        WidthClass::Zero
                    } else {
                        WidthClass::One
                    }
                } else {
                    if cp < 0x11726 {
                        WidthClass::Zero
                    } else {
                        if cp < 0x11727 {
                            WidthClass::One
                        } else {
                            WidthClass::Zero
                        }
                    }
                }
            } else {
                if cp < 0x11747 {
                    if cp < 0x11730 {
                        WidthClass::Two
                    } else {
                        WidthClass::One
                    }
                } else {
                    if cp < 0x11800 {
                        WidthClass::Two
                    } else {
                        if cp < 0x1182F {
                            WidthClass::One
                        } else {
                            WidthClass::Zero
                        }
                    }
                }
            }
        }
    }
}

fn lookup_width_class_94(cp: u32) -> (r: WidthClass)
    requires
        0x11445 <= cp <= 0x11632,
    ensures
        r == width_class_of(cp),
{
    if cp < 0x114C1 {
        if cp < 0x114B0 {
            if cp < 0x1145D {
                if cp < 0x11447 {
                    if cp < 0x11446 {
                        WidthClass::One
                    } else {
                        WidthClass::Zero
                    }
                } else {
                    if cp < 0x1145C {
                        WidthClass::One
                    } else {
                        WidthClass::Two
                    }
                }
            } else {
                if cp < 0x1145F {
                    if cp < 0x1145E {
                        WidthClass::One
                    } else {
                        WidthClass::Zero
                    }
                } else {
                    if cp < 0x11462 {
                        WidthClass::One
                    } else {
                        if cp < 0x11480 {
                            WidthClass::Two
                        } else {
                            WidthClass::One
                        }
                    }
                }
            }
        } else {
            if cp < 0x114BA {
                if cp < 0x114B3 {
                    if cp < 0x114B1 {
                        WidthClass::Zero
                    } else {
                        WidthClass::One
                    }
                } else {
                    if cp < 0x114B9 {
                        WidthClass::Zero
                    } else {
                        WidthClass::One
                    }
                }
            } else {
                if cp < 0x114BD {
                    if cp < 0x114BB {
                        WidthClass::Zero
                    } else {
                        WidthClass::One
                    }
                } else {
                    if cp < 0x114BE {
                        WidthClass::Zero
                    } else {
                        if cp < 0x114BF {
                            WidthClass::One
                        } else {
                            WidthClass::Zero
                        }
                    }
                }
            }
        }
    } else {
        if cp < 0x115B2 {
            if cp < 0x114D0 {
                if cp < 0x114C4 {
                    if cp < 0x114C2 {
                        WidthClass::One
                    } else {
                        WidthClass::Zero
                    }
                } else {
                    if cp < 0x114C8 {
                        WidthClass::One
                    } else {
                        WidthClass::Two
                    }
                }
            } else {
                if cp < 0x11580 {
                    if cp < 0x114DA {
                        WidthClass::One
                    } else {
                        WidthClass::Two
                    }
                } else {
                    if cp < 0x115AF {
                        WidthClass::One
                    } else {
                        if cp < 0x115B0 {
                            WidthClass::Zero
                        } else {
                            WidthClass::One
                        }
                    }
                }
            }
        } else {
            if cp < 0x115BF {
                if cp < 0x115B8 {
                    if cp < 0x115B6 {
                        WidthClass::Zero
                    } else {
                        WidthClass::Two
                    }
                } else {
                    if cp < 0x115BC {
                        WidthClass::One
                    } else {
                        if cp < 0x115BE {
                            WidthClass::Zero
                        } else {
                            WidthClass::One
                        }
                    }
                }
            } else {
                if cp < 0x115DC {
                    if cp < 0x115C1 {
                        WidthClass::Zero
                    } else {
                        WidthClass::One
                    }
                } else {
                    if cp < 0x115DE {
                        WidthClass::Zero
                    } else {
                        if cp < 0x11600 {
                            WidthClass::Two
                        } else {
                            WidthClass::One
                        }
                    }
                }
            }
        }
    }
}

fn lookup_width_class_90(cp: u32) -> (r: WidthClass)
    requires
        0x112EB <= cp <= 0x11444,
    ensures
        r == width_class_of(cp),
{
    if cp < 0x1136D {
        lookup_width_class_92(cp)
    } else {
        lookup_width_class_93(cp)
    }
}

fn lookup_width_class_93(cp: u32) -> (r: WidthClass)
    requires
        0x1136D <= cp <= 0x11444,
    ensures
        r == width_class_of(cp),
{
    if cp < 0x113C5 {
        if cp < 0x11390 {
            if cp < 0x1138A {
                if cp < 0x11375 {
                    if cp < 0x11370 {
                        WidthClass::Two
                    } else {
                        WidthClass::Zero
                    }
                } else {
                    if cp < 0x11380 {
                        WidthClass::Two
                    } else {
                        WidthClass::One
                    }
                }
            } else {
                if cp < 0x1138C {
                    if cp < 0x1138B {
                        WidthClass::Two
                    } else {
                        WidthClass::One
                    }
                } else {
                    if cp < 0x1138E {
                        WidthClass::Two
                    } else {
                        if cp < 0x1138F {
                            WidthClass::One
                        } else {
                            WidthClass::Two
                        }
                    }
                }
            }
        } else {
            if cp < 0x113B9 {
                if cp < 0x113B7 {
                    if cp < 0x113B6 {
                        WidthClass::One
                    } else {
                        WidthClass::Two
                    }
                } else {
                    if cp < 0x113B8 {
                        WidthClass::One
                    } else {
                        WidthClass::Zero
                    }
                }
            } else {
                if cp < 0x113C1 {
                    if cp < 0x113BB {
                        WidthClass::One
                    } else {
                        WidthClass::Zero
                    }
                } else {
                    if cp < 0x113C2 {
                        WidthClass::Two
                    } else {
                        if cp < 0x113C3 {
                            WidthClass::Zero
                        } else {
                            WidthClass::Two
                        }
                    }
                }
            }
        }
    } else {
        if cp < 0x113D3 {
            if cp < 0x113CB {
                if cp < 0x113C7 {
                    if cp < 0x113C6 {
                        WidthClass::Zero
                    } else {
                        WidthClass::Two
                    }
                } else {
                    if cp < 0x113CA {
                        WidthClass::Zero
                    } else {
                        WidthClass::One
                    }
                }
            } else {
                if cp < 0x113CE {
                    if cp < 0x113CC {
                        WidthClass::Two
                    } else {
                        WidthClass::One
                    }
                } else {
                    if cp < 0x113D1 {
                        WidthClass::Zero
                    } else {
                        if cp < 0x113D2 {
                            WidthClass::One
                        } else {
                            WidthClass::Zero
                        }
                    }
                }
            }
        } else {
            if cp < 0x113E3 {
                if cp < 0x113D7 {
                    if cp < 0x113D6 {
                        WidthClass::One
                    } else {
                        WidthClass::Two
                    }
                } else {
                    if cp < 0x113D9 {
                        WidthClass::One
                    } else {
                        if cp < 0x113E1 {
                            WidthClass::Two
                        } else {
                            WidthClass::Zero
                        }
                    }
                }
            } else {
                if cp < 0x11438 {
                    if cp < 0x11400 {
                        WidthClass::Two
                    } else {
                        WidthClass::One
                    }
                } else {
                    if cp < 0x11440 {
                        WidthClass::Zero
                    } else {
                        if cp < 0x11442 {
                            WidthClass::One
                        } else {
                            WidthClass::Zero
                        }
                    }
                }
            }
        }
    }
}

fn lookup_width_class_92(cp: u32) -> (r: WidthClass)
    requires
        0x112EB <= cp <= 0x1136C,
    ensures
        r == width_class_of(cp),
{
    if cp < 0x1133B {
        if cp < 0x11311 {
            if cp < 0x11302 {
                if cp < 0x112FA {
                    if cp < 0x112F0 {
                        WidthClass::Two
                    } else {
                        WidthClass::One
                    }
                } else {
                    if cp < 0x11300 {
                        WidthClass::Two
                    } else {
                        WidthClass::Zero
                    }
                }
            } else {
                if cp < 0x11305 {
                    if cp < 0x11304 {
                        WidthClass::One
                    } else {
                        WidthClass::Two
                    }
                } else {
                    if cp < 0x1130D {
                        WidthClass::One
                    } else {
                        if cp < 0x1130F {
                            WidthClass::Two
                        } else {
                            WidthClass::One
                        }
                    }
                }
            }
        } else {
            if cp < 0x11331 {
                if cp < 0x11329 {
                    if cp < 0x11313 {
                        WidthClass::Two
                    } else {
                        WidthClass::One
                    }
                } else {
                    if cp < 0x1132A {
                        WidthClass::Two
                    } else {
                        WidthClass::One
                    }
                }
            } else {
                if cp < 0x11334 {
                    if cp < 0x11332 {
                        WidthClass::Two
                    } else {
                        WidthClass::One
                    }
                } else {
                    if cp < 0x11335 {
                        WidthClass::Two
                    } else {
                        if cp < 0x1133A {
                            WidthClass::One
                        } else {
                            WidthClass::Two
                        }
                    }
                }
            }
        }
    } else {
        if cp < 0x1134B {
            if cp < 0x11340 {
                if cp < 0x1133E {
                    if cp < 0x1133D {
                        WidthClass::Zero
                    } else {
                        WidthClass::One
                    }
                } else {
                    if cp < 0x1133F {
                        WidthClass::Zero
                    } else {
                        WidthClass::One
                    }
                }
            } else {
                if cp < 0x11345 {
                    if cp < 0x11341 {
                        WidthClass::Zero
                    } else {
                        WidthClass::One
                    }
                } else {
                    if cp < 0x11347 {
                        WidthClass::Two
                    } else {
                        if cp < 0x11349 {
                            WidthClass::One
                        } else {
                            WidthClass::Two
                        }
                    }
                }
            }
        } else {
            if cp < 0x11357 {
                if cp < 0x1134E {
                    if cp < 0x1134D {
                        WidthClass::One
                    } else {
                        WidthClass::Zero
                    }
                } else {
                    if cp < 0x11350 {
                        WidthClass::Two
                    } else {
                        if cp < 0x11351 {
                            WidthClass::One
                        } else {
                            WidthClass::Two
                        }
                    }
                }
            } else {
                if cp < 0x1135D {
                    if cp < 0x11358 {
                        WidthClass::Zero
                    } else {
                        WidthClass::Two
                    }
                } else {
                    if cp < 0x11364 {
                        WidthClass::One
                    } else {
                        if cp < 0x11366 {
                            WidthClass::Two
                        } else {
                            WidthClass::Zero
                        }
                    }
                }
            }
        }
    }
}

fn lookup_width_class_82(cp: u32) -> (r: WidthClass)
    requires
        0x10A38 <= cp <= 0x112EA,
    ensures
        r == width_class_of(cp),
{
    if cp < 0x11002 {
        lookup_width_class_84(cp)
    } else {
        lookup_width_class_85(cp)
    }
}

fn lookup_width_class_85(cp: u32) -> (r: WidthClass)
    requires
        0x11002 <= cp <= 0x112EA,
    ensures
        r == width_class_of(cp),
{
    if cp < 0x11182 {
        lookup_width_class_88(cp)
    } else {
        lookup_width_class_89(cp)
    }
}

fn lookup_width_class_89(cp: u32) -> (r: WidthClass)
    requires
        0x11182 <= cp <= 0x112EA,
    ensures
        r == width_class_of(cp),
{
    if cp < 0x11238 {
        if cp < 0x111E0 {
            if cp < 0x111C1 {
                if cp < 0x111BF {
                    if cp < 0x111B6 {
                        WidthClass::One
                    } else {
                        WidthClass::Zero
                    }
                } else {
                    if cp < 0x111C0 {
                        WidthClass::One
                    } else {
                        WidthClass::Zero
                    }
                }
            } else {
                if cp < 0x111CD {
                    if cp < 0x111C9 {
                        WidthClass::One
                    } else {
                        WidthClass::Zero
                    }
                } else {
                    if cp < 0x111CF {
                        WidthClass::One
                    } else {
                        if cp < 0x111D0 {
                            WidthClass::Zero
                        } else {
                            WidthClass::One
                        }
                    }
                }
            }
        } else {
            if cp < 0x11212 {
                if cp < 0x111F5 {
                    if cp < 0x111E1 {
                        WidthClass::Two
                    } else {
                        WidthClass::One
                    }
                } else {
                    if cp < 0x11200 {
                        WidthClass::Two
                    } else {
                        WidthClass::One
                    }
                }
            } else {
                if cp < 0x1122F {
                    if cp < 0x11213 {
                        WidthClass::Two
                    } else {
                        WidthClass::One
                    }
                } else {
                    if cp < 0x11232 {
                        WidthClass::Zero
                    } else {
                        if cp < 0x11234 {
                            WidthClass::One
                        } else {
                            WidthClass::Zero
                        }
                    }
                }
            }
        }
    } else {
        if cp < 0x1128A {
            if cp < 0x11242 {
                if cp < 0x1123F {
                    if cp < 0x1123E {
                        WidthClass::One
                    } else {
                        WidthClass::Zero
                    }
                } else {
                    if cp < 0x11241 {
                        WidthClass::One
                    } else {
                        WidthClass::Zero
                    }
                }
            } else {
                if cp < 0x11287 {
                    if cp < 0x11280 {
                        WidthClass::Two
                    } else {
                        WidthClass::One
                    }
                } else {
                    if cp < 0x11288 {
                        WidthClass::Two
                    } else {
                        if cp < 0x11289 {
                            WidthClass::One
                        } else {
                            WidthClass::Two
                        }
                    }
                }
            }
        } else {
            if cp < 0x112AA {
                if cp < 0x1128F {
                    if cp < 0x1128E {
                        WidthClass::One
                    } else {
                        WidthClass::Two
                    }
                } else {
                    if cp < 0x1129E {
                        WidthClass::One
                    } else {
                        if cp < 0x1129F {
                            WidthClass::Two
                        } else {
                            WidthClass::One
                        }
                    }
                }
            } else {
                if cp < 0x112DF {
                    if cp < 0x112B0 {
                        WidthClass::Two
                    } else {
                        WidthClass::One
                    }
                } else {
                    if cp < 0x112E0 {
                        WidthClass::Zero
                    } else {
                        if cp < 0x112E3 {
                            WidthClass::One
                        } else {
                            WidthClass::Zero
                        }
                    }
                }
            }
        }
    }
}

fn lookup_width_class_88(cp: u32) -> (r: WidthClass)
    requires
        0x11002 <= cp <= 0x11181,
    ensures
        r == width_class_of(cp),
{
    if cp < 0x110CD {
        if cp < 0x11076 {
            if cp < 0x11052 {
                if cp < 0x11047 {
                    if cp < 0x11038 {
                        WidthClass::One
                    } else {
                        WidthClass::Zero
                    }
                } else {
                    if cp < 0x1104E {
                        WidthClass::One
                    } else {
                        WidthClass::Two
                    }
                }
            } else {
                if cp < 0x11071 {
                    if cp < 0x11070 {
                        WidthClass::One
                    } else {
                        WidthClass::Zero
                    }
                } else {
                    if cp < 0x11073 {
                        WidthClass::One
                    } else {
                        if cp < 0x11075 {
                            WidthClass::Zero
                        } else {
                            WidthClass::One
                        }
                    }
                }
            }
        } else {
            if cp < 0x110B7 {
                if cp < 0x11082 {
                    if cp < 0x1107F {
                        WidthClass::Two
                    } else {
                        WidthClass::Zero
                    }
                } else {
                    if cp < 0x110B3 {
                        WidthClass::One
                    } else {
                        WidthClass::Zero
                    }
                }
            } else {
                if cp < 0x110BB {
                    if cp < 0x110B9 {
                        WidthClass::One
                    } else {
                        WidthClass::Zero
                    }
                } else {
                    if cp < 0x110C2 {
                        WidthClass::One
                    } else {
                        if cp < 0x110C3 {
                            WidthClass::Zero
                        } else {
                            WidthClass::Two
                        }
                    }
                }
            }
        }
    } else {
        if cp < 0x1112C {
            if cp < 0x110F0 {
                if cp < 0x110D0 {
                    if cp < 0x110CE {
                        WidthClass::One
                    } else {
                        WidthClass::Two
                    }
                } else {
                    if cp < 0x110E9 {
                        WidthClass::One
                    } else {
                        WidthClass::Two
                    }
                }
            } else {
                if cp < 0x11100 {
                    if cp < 0x110FA {
                        WidthClass::One
                    } else {
                        WidthClass::Two
                    }
                } else {
                    if cp < 0x11103 {
                        WidthClass::Zero
                    } else {
                        if cp < 0x11127 {
                            WidthClass::One
                        } else {
                            WidthClass::Zero
                        }
                    }
                }
            }
        } else {
            if cp < 0x11150 {
                if cp < 0x11135 {
                    if cp < 0x1112D {
                        WidthClass::One
                    } else {
                        WidthClass::Zero
                    }
                } else {
                    if cp < 0x11136 {
                        WidthClass::Two
                    } else {
                        if cp < 0x11148 {
                            WidthClass::One
                        } else {
                            WidthClass::Two
                        }
                    }
                }
            } else {
                if cp < 0x11174 {
                    if cp < 0x11173 {
                        WidthClass::One
                    } else {
                        WidthClass::Zero
                    }
                } else {
                    if cp < 0x11177 {
                        WidthClass::One
                    } else {
                        if cp < 0x11180 {
                            WidthClass::Two
                        } else {
                            WidthClass::Zero
                        }
                    }
                }
            }
        }
    }
}

fn lookup_width_class_84(cp: u32) -> (r: WidthClass)
    requires
        0x10A38 <= cp <= 0x11001,
    ensures
        r == width_class_of(cp),
{
    if cp < 0x10D40 {
        lookup_width_class_86(cp)
    } else {
        lookup_width_class_87(cp)
    }
}

fn lookup_width_class_87(cp: u32) -> (r: WidthClass)
    requires
        0x10D40 <= cp <= 0x11001,
    ensures
        r == width_class_of(cp),
{
    if cp < 0x10ED0 {
        if cp < 0x10E80 {
            if cp < 0x10D86 {
                if cp < 0x10D69 {
                    if cp < 0x10D66 {
                        WidthClass::One
                    } else {
                        WidthClass::Two
                    }
                } else {
                    if cp < 0x10D6E {
                        WidthClass::Zero
                    } else {
                        WidthClass::One
                    }
                }
            } else {
                if cp < 0x10D90 {
                    if cp < 0x10D8E {
                        WidthClass::Two
                    } else {
                        WidthClass::One
                    }
                } else {
                    if cp < 0x10E60 {
                        WidthClass::Two
                    } else {
                        if cp < 0x10E7F {
                            WidthClass::One
                        } else {
                            WidthClass::Two
                        }
                    }
                }
            }
        } else {
            if cp < 0x10EAE {
                if cp < 0x10EAB {
                    if cp < 0x10EAA {
                        WidthClass::One
                    } else {
                        WidthClass::Two
                    }
                } else {
                    if cp < 0x10EAD {
                        WidthClass::Zero
                    } else {
                        WidthClass::One
                    }
                }
            } else {
                if cp < 0x10EB2 {
                    if cp < 0x10EB0 {
                        WidthClass::Two
                    } else {
                        WidthClass::One
                    }
                } else {
                    if cp < 0x10EC2 {
                        WidthClass::Two
                    } else {
                        if cp < 0x10EC8 {
                            WidthClass::One
                        } else {
                            WidthClass::Two
                        }
                    }
                }
            }
        }
    } else {
        if cp < 0x10F70 {
            if cp < 0x10F28 {
                if cp < 0x10EFA {
                    if cp < 0x10ED9 {
                        WidthClass::One
                    } else {
                        WidthClass::Two
                    }
                } else {
                    if cp < 0x10F00 {
                        WidthClass::Zero
                    } else {
                        WidthClass::One
                    }
                }
            } else {
                if cp < 0x10F46 {
                    if cp < 0x10F30 {
                        WidthClass::Two
                    } else {
                        WidthClass::One
                    }
                } else {
                    if cp < 0x10F51 {
                        WidthClass::Zero
                    } else {
                        if cp < 0x10F5A {
                            WidthClass::One
                        } else {
                            WidthClass::Two
                        }
                    }
                }
            }
        } else {
            if cp < 0x10FCC {
                if cp < 0x10F86 {
                    if cp < 0x10F82 {
                        WidthClass::One
                    } else {
                        WidthClass::Zero
                    }
                } else {
                    if cp < 0x10F8A {
                        WidthClass::One
                    } else {
                        if cp < 0x10FB0 {
                            WidthClass::Two
                        } else {
                            WidthClass::One
                        }
                    }
                }
            } else {
                if cp < 0x10FF7 {
                    if cp < 0x10FE0 {
                        WidthClass::Two
                    } else {
                        WidthClass::One
                    }
                } else {
                    if cp < 0x11000 {
                        WidthClass::Two
                    } else {
                        if cp < 0x11001 {
                            WidthClass::One
                        } else {
                            WidthClass::Zero
                        }
                    }
                }
            }
        }
    }
}

fn lookup_width_class_86(cp: u32) -> (r: WidthClass)
    requires
        0x10A38 <= cp <= 0x10D3F,
    ensures
        r == width_class_of(cp),
{
    if cp < 0x10B58 {
        if cp < 0x10AC0 {
            if cp < 0x10A49 {
                if cp < 0x10A3F {
                    if cp < 0x10A3B {
                        WidthClass::Zero
                    } else {
                        WidthClass::Two
                    }
                } else {
                    if cp < 0x10A40 {
                        WidthClass::Zero
                    } else {
                        WidthClass::One
                    }
                }
            } else {
                if cp < 0x10A59 {
                    if cp < 0x10A50 {
                        WidthClass::Two
                    } else {
                        WidthClass::One
                    }
                } else {
                    if cp < 0x10A60 {
                        WidthClass::Two
                    } else {
                        if cp < 0x10AA0 {
                            WidthClass::One
                        } else {
                            WidthClass::Two
                        }
                    }
                }
            }
        } else {
            if cp < 0x10AF7 {
                if cp < 0x10AE7 {
                    if cp < 0x10AE5 {
                        WidthClass::One
                    } else {
                        WidthClass::Zero
                    }
                } else {
                    if cp < 0x10AEB {
                        WidthClass::Two
                    } else {
                        WidthClass::One
                    }
                }
            } else {
                if cp < 0x10B36 {
                    if cp < 0x10B00 {
                        WidthClass::Two
                    } else {
                        WidthClass::One
                    }
                } else {
                    if cp < 0x10B39 {
                        WidthClass::Two
                    } else {
                        if cp < 0x10B56 {
                            WidthClass::One
                        } else {
                            WidthClass::Two
                        }
                    }
                }
            }
        }
    } else {
        if cp < 0x10C49 {
            if cp < 0x10B99 {
                if cp < 0x10B78 {
                    if cp < 0x10B73 {
                        WidthClass::One
                    } else {
                        WidthClass::Two
                    }
                } else {
                    if cp < 0x10B92 {
                        WidthClass::One
                    } else {
                        WidthClass::Two
                    }
                }
            } else {
                if cp < 0x10BA9 {
                    if cp < 0x10B9D {
                        WidthClass::One
                    } else {
                        WidthClass::Two
                    }
                } else {
                    if cp < 0x10BB0 {
                        WidthClass::One
                    } else {
                        if cp < 0x10C00 {
                            WidthClass::Two
                        } else {
                            WidthClass::One
                        }
                    }
                }
            }
        } else {
            if cp < 0x10CFA {
                if cp < 0x10CB3 {
                    if cp < 0x10C80 {
                        WidthClass::Two
                    } else {
                        WidthClass::One
                    }
                } else {
                    if cp < 0x10CC0 {
                        WidthClass::Two
                    } else {
                        if cp < 0x10CF3 {
                            WidthClass::One
                        } else {
                            WidthClass::Two
                        }
                    }
                }
            } else {
                if cp < 0x10D28 {
                    if cp < 0x10D24 {
                        WidthClass::One
                    } else {
                        WidthClass::Zero
                    }
                } else {
                    if cp < 0x10D30 {
                        WidthClass::Two
                    } else {
                        if cp < 0x10D3A {
                            WidthClass::One
                        } else {
                            WidthClass::Two
                        }
                    }
                }
            }
        }
    }
}

fn lookup_width_class_66(cp: u32) -> (r: WidthClass)
    requires
        0xA69E <= cp <= 0x10A37,
    ensures
        r == width_class_of(cp),
{
    if cp < 0xFF9E {
        lookup_width_class_68(cp)
    } else {
        lookup_width_class_69(cp)
    }
}

fn lookup_width_class_69(cp: u32) -> (r: WidthClass)
    requires
        0xFF9E <= cp <= 0x10A37,
    ensures
        r == width_class_of(cp),
{
    if cp < 0x10530 {
        lookup_width_class_76(cp)
    } else {
        lookup_width_class_77(cp)
    }
}

fn lookup_width_class_77(cp: u32) -> (r: WidthClass)
    requires
        0x10530 <= cp <= 0x10A37,
    ensures
        r == width_class_of(cp),
{
    if cp < 0x10836 {
        lookup_width_class_80(cp)
    } else {
        lookup_width_class_81(cp)
    }
}

fn lookup_width_class_81(cp: u32) -> (r: WidthClass)
    requires
        0x10836 <= cp <= 0x10A37,
    ensures
        r == width_class_of(cp),
{
    if cp < 0x1093A {
        if cp < 0x108A7 {
            if cp < 0x1083D {
                if cp < 0x10839 {
                    if cp < 0x10837 {
                        WidthClass::Two
                    } else {
                        WidthClass::One
                    }
                } else {
                    if cp < 0x1083C {
                        WidthClass::Two
                    } else {
                        WidthClass::One
                    }
                }
            } else {
                if cp < 0x10856 {
                    if cp < 0x1083F {
                        WidthClass::Two
                    } else {
                        WidthClass::One
                    }
                } else {
                    if cp < 0x10857 {
                        WidthClass::Two
                    } else {
                        if cp < 0x1089F {
                            WidthClass::One
                        } else {
                            WidthClass::Two
                        }
                    }
                }
            }
        } else {
            if cp < 0x108F4 {
                if cp < 0x108E0 {
                    if cp < 0x108B0 {
                        WidthClass::One
                    } else {
                        WidthClass::Two
                    }
                } else {
                    if cp < 0x108F3 {
                        WidthClass::One
                    } else {
                        WidthClass::Two
                    }
                }
            } else {
                if cp < 0x108FB {
                    if cp < 0x108F6 {
                        WidthClass::One
                    } else {
                        WidthClass::Two
                    }
                } else {
                    if cp < 0x1091C {
                        WidthClass::One
                    } else {
                        if cp < 0x1091F {
                            WidthClass::Two
                        } else {
                            WidthClass::One
                        }
                    }
                }
            }
        }
    } else {
        if cp < 0x10A04 {
            if cp < 0x109B8 {
                if cp < 0x1095A {
                    if cp < 0x1093F {
                        WidthClass::Two
                    } else {
                        WidthClass::One
                    }
                } else {
                    if cp < 0x10980 {
                        WidthClass::Two
                    } else {
                        WidthClass::One
                    }
                }
            } else {
                if cp < 0x109D0 {
                    if cp < 0x109BC {
                        WidthClass::Two
                    } else {
                        WidthClass::One
                    }
                } else {
                    if cp < 0x109D2 {
                        WidthClass::Two
                    } else {
                        if cp < 0x10A01 {
                            WidthClass::One
                        } else {
                            WidthClass::Zero
                        }
                    }
                }
            }
        } else {
            if cp < 0x10A14 {
                if cp < 0x10A07 {
                    if cp < 0x10A05 {
                        WidthClass::Two
                    } else {
                        WidthClass::Zero
                    }
                } else {
                    if cp < 0x10A0C {
                        WidthClass::Two
                    } else {
                        if cp < 0x10A10 {
                            WidthClass::Zero
                        } else {
                            WidthClass::One
                        }
                    }
                }
            } else {
                if cp < 0x10A18 {
                    if cp < 0x10A15 {
                        WidthClass::Two
                    } else {
                        WidthClass::One
                    }
                } else {
                    if cp < 0x10A19 {
                        WidthClass::Two
                    } else {
                        if cp < 0x10A36 {
                            WidthClass::One
                        } else {
                            WidthClass::Two
                        }
                    }
                }
            }
        }
    }
}

fn lookup_width_class_80(cp: u32) -> (r: WidthClass)
    requires
        0x10530 <= cp <= 0x10835,
    ensures
        r == width_class_of(cp),
{
    if cp < 0x105C0 {
        if cp < 0x10596 {
            if cp < 0x1057C {
                if cp < 0x1056F {
                    if cp < 0x10564 {
                        WidthClass::One
                    } else {
                        WidthClass::Two
                    }
                } else {
                    if cp < 0x1057B {
                        WidthClass::One
                    } else {
                        WidthClass::Two
                    }
                }
            } else {
                if cp < 0x1058C {
                    if cp < 0x1058B {
                        WidthClass::One
                    } else {
                        WidthClass::Two
                    }
                } else {
                    if cp < 0x10593 {
                        WidthClass::One
                    } else {
                        if cp < 0x10594 {
                            WidthClass::Two
                        } else {
                            WidthClass::One
                        }
                    }
                }
            }
        } else {
            if cp < 0x105B2 {
                if cp < 0x105A2 {
                    if cp < 0x10597 {
                        WidthClass::Two
                    } else {
                        WidthClass::One
                    }
                } else {
                    if cp < 0x105A3 {
                        WidthClass::Two
                    } else {
                        WidthClass::One
                    }
                }
            } else {
                if cp < 0x105BA {
                    if cp < 0x105B3 {
                        WidthClass::Two
                    } else {
                        WidthClass::One
                    }
                } else {
                    if cp < 0x105BB {
                        WidthClass::Two
                    } else {
                        if cp < 0x105BD {
                            WidthClass::One
                        } else {
                            WidthClass::Two
                        }
                    }
                }
            }
        }
    } else {
        if cp < 0x10786 {
            if cp < 0x10740 {
                if cp < 0x10600 {
                    if cp < 0x105F4 {
                        WidthClass::One
                    } else {
                        WidthClass::Two
                    }
                } else {
                    if cp < 0x10737 {
                        WidthClass::One
                    } else {
                        WidthClass::Two
                    }
                }
            } else {
                if cp < 0x10760 {
                    if cp < 0x10756 {
                        WidthClass::One
                    } else {
                        WidthClass::Two
                    }
                } else {
                    if cp < 0x10768 {
                        WidthClass::One
                    } else {
                        if cp < 0x10780 {
                            WidthClass::Two
                        } else {
                            WidthClass::One
                        }
                    }
                }
            }
        } else {
            if cp < 0x10800 {
                if cp < 0x107B1 {
                    if cp < 0x10787 {
                        WidthClass::Two
                    } else {
                        WidthClass::One
                    }
                } else {
                    if cp < 0x107B2 {
                        WidthClass::Two
                    } else {
                        if cp < 0x107BB {
                            WidthClass::One
                        } else {
                            WidthClass::Two
                        }
                    }
                }
            } else {
                if cp < 0x10808 {
                    if cp < 0x10806 {
                        WidthClass::One
                    } else {
                        WidthClass::Two
                    }
                } else {
                    if cp < 0x10809 {
                        WidthClass::One
                    } else {
                        if cp < 0x1080A {
                            WidthClass::Two
                        } else {
                            WidthClass::One
                        }
                    }
                }
            }
        }
    }
}

fn lookup_width_class_76(cp: u32) -> (r: WidthClass)
    requires
        0xFF9E <= cp <= 0x1052F,
    ensures
        r == width_class_of(cp),
{
    if cp < 0x10190 {
        lookup_width_class_78(cp)
    } else {
        lookup_width_class_79(cp)
    }
}

fn lookup_width_class_79(cp: u32) -> (r: WidthClass)
    requires
        0x10190 <= cp <= 0x1052F,
    ensures
        r == width_class_of(cp),
{
    if cp < 0x10350 {
        if cp < 0x102A0 {
            if cp < 0x101D0 {
                if cp < 0x101A0 {
                    if cp < 0x1019D {
                        WidthClass::One
                    } else {
                        WidthClass::Two
                    }
                } else {
                    if cp < 0x101A1 {
                        WidthClass::One
                    } else {
                        WidthClass::Two
                    }
                }
            } else {
                if cp < 0x101FE {
                    if cp < 0x101FD {
                        WidthClass::One
                    } else {
                        WidthClass::Zero
                    }
                } else {
                    if cp < 0x10280 {
                        WidthClass::Two
                    } else {
                        if cp < 0x1029D {
                            WidthClass::One
                        } else {
                            WidthClass::Two
                        }
                    }
                }
            }
        } else {
            if cp < 0x102FC {
                if cp < 0x102E0 {
                    if cp < 0x102D1 {
                        WidthClass::One
                    } else {
                        WidthClass::Two
                    }
                } else {
                    if cp < 0x102E1 {
                        WidthClass::Zero
                    } else {
                        WidthClass::One
                    }
                }
            } else {
                if cp < 0x10324 {
                    if cp < 0x10300 {
                        WidthClass::Two
                    } else {
                        WidthClass::One
                    }
                } else {
                    if cp < 0x1032D {
                        WidthClass::Two
                    } else {
                        if cp < 0x1034B {
                            WidthClass::One
                        } else {
                            WidthClass::Two
                        }
                    }
                }
            }
        }
    } else {
        if cp < 0x10400 {
            if cp < 0x1039E {
                if cp < 0x1037B {
                    if cp < 0x10376 {
                        WidthClass::One
                    } else {
                        WidthClass::Zero
                    }
                } else {
                    if cp < 0x10380 {
                        WidthClass::Two
                    } else {
                        WidthClass::One
                    }
                }
            } else {
                if cp < 0x103C4 {
                    if cp < 0x1039F {
                        WidthClass::Two
                    } else {
                        WidthClass::One
                    }
                } else {
                    if cp < 0x103C8 {
                        WidthClass::Two
                    } else {
                        if cp < 0x103D6 {
                            WidthClass::One
                        } else {
                            WidthClass::Two
                        }
                    }
                }
            }
        } else {
            if cp < 0x104D4 {
                if cp < 0x104A0 {
                    if cp < 0x1049E {
                        WidthClass::One
                    } else {
                        WidthClass::Two
                    }
                } else {
                    if cp < 0x104AA {
                        WidthClass::One
                    } else {
                        if cp < 0x104B0 {
                            WidthClass::Two
                        } else {
                            WidthClass::One
                        }
                    }
                }
            } else {
                if cp < 0x104FC {
                    if cp < 0x104D8 {
                        WidthClass::Two
                    } else {
                        WidthClass::One
                    }
                } else {
                    if cp < 0x10500 {
                        WidthClass::Two
                    } else {
                        if cp < 0x10528 {
                            WidthClass::One
                        } else {
                            WidthClass::Two
                        }
                    }
                }
            }
        }
    }
}

fn lookup_width_class_78(cp: u32) -> (r: WidthClass)
    requires
        0xFF9E <= cp <= 0x1018F,
    ensures
        r == width_class_of(cp),
{
    if cp < 0x1000C {
        if cp < 0xFFDA {
            if cp < 0xFFC8 {
                if cp < 0xFFBF {
                    if cp < 0xFFA1 {
                        WidthClass::Zero
                    } else {
                        WidthClass::One
                    }
                } else {
                    if cp < 0xFFC2 {
                        WidthClass::Two
                    } else {
                        WidthClass::One
                    }
                }
            } else {
                if cp < 0xFFD0 {
                    if cp < 0xFFCA {
                        WidthClass::Two
                    } else {
                        WidthClass::One
                    }
                } else {
                    if cp < 0xFFD2 {
                        WidthClass::Two
                    } else {
                        if cp < 0xFFD8 {
                            WidthClass::One
                        } else {
                            WidthClass::Two
                        }
                    }
                }
            }
        } else {
            if cp < 0xFFF0 {
                if cp < 0xFFE8 {
                    if cp < 0xFFDD {
                        WidthClass::One
                    } else {
                        WidthClass::Two
                    }
                } else {
                    if cp < 0xFFEF {
                        WidthClass::One
                    } else {
                        WidthClass::Two
                    }
                }
            } else {
                if cp < 0xFFFD {
                    if cp < 0xFFF9 {
                        WidthClass::Zero
                    } else {
                        WidthClass::One
                    }
                } else {
                    if cp < 0xFFFE {
                        WidthClass::Ambiguous
                    } else {
                        if cp < 0x10000 {
                            WidthClass::Two
                        } else {
                            WidthClass::One
                        }
                    }
                }
            }
        }
    } else {
        if cp < 0x10050 {
            if cp < 0x1003B {
                if cp < 0x10027 {
                    if cp < 0x1000D {
                        WidthClass::Two
                    } else {
                        WidthClass::One
                    }
                } else {
                    if cp < 0x10028 {
                        WidthClass::Two
                    } else {
                        WidthClass::One
                    }
                }
            } else {
                if cp < 0x1003E {
                    if cp < 0x1003C {
                        WidthClass::Two
                    } else {
                        WidthClass::One
                    }
                } else {
                    if cp < 0x1003F {
                        WidthClass::Two
                    } else {
                        if cp < 0x1004E {
                            WidthClass::One
                        } else {
                            WidthClass::Two
                        }
                    }
                }
            }
        } else {
            if cp < 0x10103 {
                if cp < 0x10080 {
                    if cp < 0x1005E {
                        WidthClass::One
                    } else {
                        WidthClass::Two
                    }
                } else {
                    if cp < 0x100FB {
                        WidthClass::One
                    } else {
                        if cp < 0x10100 {
                            WidthClass::Two
                        } else {
                            WidthClass::One
                        }
                    }
                }
            } else {
                if cp < 0x10134 {
                    if cp < 0x10107 {
                        WidthClass::Two
                    } else {
                        WidthClass::One
                    }
                } else {
                    if cp < 0x10137 {
                        WidthClass::Two
                    } else {
                        if cp < 0x1018F {
                            WidthClass::One
                        } else {
                            WidthClass::Two
                        }
                    }
                }
            }
        }
    }
}

fn lookup_width_class_68(cp: u32) -> (r: WidthClass)
    requires
        0xA69E <= cp <= 0xFF9D,
    ensures
        r == width_class_of(cp),
{
    if cp < 0xAAB0 {
        lookup_width_class_70(cp)
    } else {
        lookup_width_class_71(cp)
    }
}

fn lookup_width_class_71(cp: u32) -> (r: WidthClass)
    requires
        0xAAB0 <= cp <= 0xFF9D,
    ensures
        r == width_class_of(cp),
{
    if cp < 0xD7B0 {
        lookup_width_class_74(cp)
    } else {
        lookup_width_class_75(cp)
    }
}

fn lookup_width_class_75(cp: u32) -> (r: WidthClass)
    requires
        0xD7B0 <= cp <= 0xFF9D,
    ensures
        r == width_class_of(cp),
{
    if cp < 0xFB3F {
        if cp < 0xFB13 {
            if cp < 0xD800 {
                if cp < 0xD7CB {
                    if cp < 0xD7C7 {
                        WidthClass::Zero
                    } else {
                        WidthClass::Two
                    }
                } else {
                    if cp < 0xD7FC {
                        WidthClass::Zero
                    } else {
                        WidthClass::Two
                    }
                }
            } else {
                if cp < 0xF900 {
                    if cp < 0xE000 {
                        WidthClass::One
                    } else {
                        WidthClass::Ambiguous
                    }
                } else {
                    if cp < 0xFB00 {
                        WidthClass::Two
                    } else {
                        if cp < 0xFB07 {
                            WidthClass::One
                        } else {
                            WidthClass::Two
                        }
                    }
                }
            }
        } else {
            if cp < 0xFB1F {
                if cp < 0xFB1D {
                    if cp < 0xFB18 {
                        WidthClass::One
                    } else {
                        WidthClass::Two
                    }
                } else {
                    if cp < 0xFB1E {
                        WidthClass::One
                    } else {
                        WidthClass::Zero
                    }
                }
            } else {
                if cp < 0xFB38 {
                    if cp < 0xFB37 {
                        WidthClass::One
                    } else {
                        WidthClass::Two
                    }
                } else {
                    if cp < 0xFB3D {
                        WidthClass::One
                    } else {
                        if cp < 0xFB3E {
                            WidthClass::Two
                        } else {
                            WidthClass::One
                        }
                    }
                }
            }
        }
    } else {
        if cp < 0xFE10 {
            if cp < 0xFB45 {
                if cp < 0xFB42 {
                    if cp < 0xFB40 {
                        WidthClass::Two
                    } else {
                        WidthClass::One
                    }
                } else {
                    if cp < 0xFB43 {
                        WidthClass::Two
                    } else {
                        WidthClass::One
                    }
                }
            } else {
                if cp < 0xFDD0 {
                    if cp < 0xFB46 {
                        WidthClass::Two
                    } else {
                        WidthClass::One
                    }
                } else {
                    if cp < 0xFDF0 {
                        WidthClass::Two
                    } else {
                        if cp < 0xFE00 {
                            WidthClass::One
                        } else {
                            WidthClass::Zero
                        }
                    }
                }
            }
        } else {
            if cp < 0xFE76 {
                if cp < 0xFE30 {
                    if cp < 0xFE20 {
                        WidthClass::Two
                    } else {
                        WidthClass::Zero
                    }
                } else {
                    if cp < 0xFE70 {
                        WidthClass::Two
                    } else {
                        if cp < 0xFE75 {
                            WidthClass::One
                        } else {
                            WidthClass::Two
                        }
                    }
                }
            } else {
                if cp < 0xFEFF {
                    if cp < 0xFEFD {
                        WidthClass::One
                    } else {
                        WidthClass::Two
                    }
                } else {
                    if cp < 0xFF00 {
                        WidthClass::Zero
                    } else {
                        if cp < 0xFF61 {
                            WidthClass::Two
                        } else {
                            WidthClass::One
                        }
                    }
                }
            }
        }
    }
}

fn lookup_width_class_74(cp: u32) -> (r: WidthClass)
    requires
        0xAAB0 <= cp <= 0xD7AF,
    ensures
        r == width_class_of(cp),
{
    if cp < 0xAB09 {
        if cp < 0xAAC2 {
            if cp < 0xAAB7 {
                if cp < 0xAAB2 {
                    if cp < 0xAAB1 {
                        WidthClass::Zero
                    } else {
                        WidthClass::One
                    }
                } else {
                    if cp < 0xAAB5 {
                        WidthClass::Zero
                    } else {
                        WidthClass::One
                    }
                }
            } else {
                if cp < 0xAABE {
                    if cp < 0xAAB9 {
                        WidthClass::Zero
                    } else {
                        WidthClass::One
                    }
                } else {
                    if cp < 0xAAC0 {
                        WidthClass::Zero
                    } else {
                        if cp < 0xAAC1 {
                            WidthClass::One
                        } else {
                            WidthClass::Zero
                        }
                    }
                }
            }
        } else {
            if cp < 0xAAEE {
                if cp < 0xAADB {
                    if cp < 0xAAC3 {
                        WidthClass::One
                    } else {
                        WidthClass::Two
                    }
                } else {
                    if cp < 0xAAEC {
                        WidthClass::One
                    } else {
                        WidthClass::Zero
                    }
                }
            } else {
                if cp < 0xAAF7 {
                    if cp < 0xAAF6 {
                        WidthClass::One
                    } else {
                        WidthClass::Zero
                    }
                } else {
                    if cp < 0xAB01 {
                        WidthClass::Two
                    } else {
                        if cp < 0xAB07 {
                            WidthClass::One
                        } else {
                            WidthClass::Two
                        }
                    }
                }
            }
        }
    } else {
        if cp < 0xAB6C {
            if cp < 0xAB20 {
                if cp < 0xAB11 {
                    if cp < 0xAB0F {
                        WidthClass::One
                    } else {
                        WidthClass::Two
                    }
                } else {
                    if cp < 0xAB17 {
                        WidthClass::One
                    } else {
                        WidthClass::Two
                    }
                }
            } else {
                if cp < 0xAB28 {
                    if cp < 0xAB27 {
                        WidthClass::One
                    } else {
                        WidthClass::Two
                    }
                } else {
                    if cp < 0xAB2F {
                        WidthClass::One
                    } else {
                        if cp < 0xAB30 {
                            WidthClass::Two
                        } else {
                            WidthClass::One
                        }
                    }
                }
            }
        } else {
            if cp < 0xABE9 {
                if cp < 0xABE5 {
                    if cp < 0xAB70 {
                        WidthClass::Two
                    } else {
                        WidthClass::One
                    }
                } else {
                    if cp < 0xABE6 {
                        WidthClass::Zero
                    } else {
                        if cp < 0xABE8 {
                            WidthClass::One
                        } else {
                            WidthClass::Zero
                        }
                    }
                }
            } else {
                if cp < 0xABEE {
                    if cp < 0xABED {
                        WidthClass::One
                    } else {
                        WidthClass::Zero
                    }
                } else {
                    if cp < 0xABF0 {
                        WidthClass::Two
                    } else {
                        if cp < 0xABFA {
                            WidthClass::One
                        } else {
                            WidthClass::Two
                        }
                    }
                }
            }
        }
    }
}

fn lookup_width_class_70(cp: u32) -> (r: WidthClass)
    requires
        0xA69E <= cp <= 0xAAAF,
    ensures
        r == width_class_of(cp),
{
    if cp < 0xA95F {
        lookup_width_class_72(cp)
    } else {
        lookup_width_class_73(cp)
    }
}

fn lookup_width_class_73(cp: u32) -> (r: WidthClass)
    requires
        0xA95F <= cp <= 0xAAAF,
    ensures
        r == width_class_of(cp),
{
    if cp < 0xA9FF {
        if cp < 0xA9BE {
            if cp < 0xA9B3 {
                if cp < 0xA980 {
                    if cp < 0xA960 {
                        WidthClass::One
                    } else {
                        WidthClass::Two
                    }
                } else {
                    if cp < 0xA983 {
                        WidthClass::Zero
                    } else {
                        WidthClass::One
                    }
                }
            } else {
                if cp < 0xA9B6 {
                    if cp < 0xA9B4 {
                        WidthClass::Zero
                    } else {
                        WidthClass::One
                    }
                } else {
                    if cp < 0xA9BA {
                        WidthClass::Zero
                    } else {
                        if cp < 0xA9BC {
                            WidthClass::One
                        } else {
                            WidthClass::Zero
                        }
                    }
                }
            }
        } else {
            if cp < 0xA9CF {
                if cp < 0xA9C1 {
                    if cp < 0xA9C0 {
                        WidthClass::One
                    } else {
                        WidthClass::Zero
                    }
                } else {
                    if cp < 0xA9CE {
                        WidthClass::One
                    } else {
                        WidthClass::Two
                    }
                }
            } else {
                if cp < 0xA9DE {
                    if cp < 0xA9DA {
                        WidthClass::One
                    } else {
                        WidthClass::Two
                    }
                } else {
                    if cp < 0xA9E5 {
                        WidthClass::One
                    } else {
                        if cp < 0xA9E6 {
                            WidthClass::Zero
                        } else {
                            WidthClass::One
                        }
                    }
                }
            }
        }
    } else {
        if cp < 0xAA43 {
            if cp < 0xAA31 {
                if cp < 0xAA29 {
                    if cp < 0xAA00 {
                        WidthClass::Two
                    } else {
                        WidthClass::One
                    }
                } else {
                    if cp < 0xAA2F {
                        WidthClass::Zero
                    } else {
                        WidthClass::One
                    }
                }
            } else {
                if cp < 0xAA35 {
                    if cp < 0xAA33 {
                        WidthClass::Zero
                    } else {
                        WidthClass::One
                    }
                } else {
                    if cp < 0xAA37 {
                        WidthClass::Zero
                    } else {
                        if cp < 0xAA40 {
                            WidthClass::Two
                        } else {
                            WidthClass::One
                        }
                    }
                }
            }
        } else {
            if cp < 0xAA50 {
                if cp < 0xAA4C {
                    if cp < 0xAA44 {
                        WidthClass::Zero
                    } else {
                        WidthClass::One
                    }
                } else {
                    if cp < 0xAA4D {
                        WidthClass::Zero
                    } else {
                        if cp < 0xAA4E {
                            WidthClass::One
                        } else {
                            WidthClass::Two
                        }
                    }
                }
            } else {
                if cp < 0xAA5C {
                    if cp < 0xAA5A {
                        WidthClass::One
                    } else {
                        WidthClass::Two
                    }
                } else {
                    if cp < 0xAA7C {
                        WidthClass::One
                    } else {
                        if cp < 0xAA7D {
                            WidthClass::Zero
                        } else {
                            WidthClass::One
                        }
                    }
                }
            }
        }
    }
}

fn lookup_width_class_72(cp: u32) -> (r: WidthClass)
    requires
        0xA69E <= cp <= 0xA95E,
    ensures
        r == width_class_of(cp),
{
    if cp < 0xA830 {
        if cp < 0xA803 {
            if cp < 0xA6F8 {
                if cp < 0xA6F0 {
                    if cp < 0xA6A0 {
                        WidthClass::Zero
                    } else {
                        WidthClass::One
                    }
                } else {
                    if cp < 0xA6F2 {
                        WidthClass::Zero
                    } else {
                        WidthClass::One
                    }
                }
            } else {
                if cp < 0xA7DD {
                    if cp < 0xA700 {
                        WidthClass::Two
                    } else {
                        WidthClass::One
                    }
                } else {
                    if cp < 0xA7F1 {
                        WidthClass::Two
                    } else {
                        if cp < 0xA802 {
                            WidthClass::One
                        } else {
                            WidthClass::Zero
                        }
                    }
                }
            }
        } else {
            if cp < 0xA80C {
                if cp < 0xA807 {
                    if cp < 0xA806 {
                        WidthClass::One
                    } else {
                        WidthClass::Zero
                    }
                } else {
                    if cp < 0xA80B {
                        WidthClass::One
                    } else {
                        WidthClass::Zero
                    }
                }
            } else {
                if cp < 0xA827 {
                    if cp < 0xA825 {
                        WidthClass::One
                    } else {
                        WidthClass::Zero
                    }
                } else {
                    if cp < 0xA82C {
                        WidthClass::One
                    } else {
                        if cp < 0xA82D {
                            WidthClass::Zero
                        } else {
                            WidthClass::Two
                        }
                    }
                }
            }
        }
    } else {
        if cp < 0xA8E0 {
            if cp < 0xA880 {
                if cp < 0xA840 {
                    if cp < 0xA83A {
                        WidthClass::One
                    } else {
                        WidthClass::Two
                    }
                } else {
                    if cp < 0xA878 {
                        WidthClass::One
                    } else {
                        WidthClass::Two
                    }
                }
            } else {
                if cp < 0xA8C6 {
                    if cp < 0xA8C4 {
                        WidthClass::One
                    } else {
                        WidthClass::Zero
                    }
                } else {
                    if cp < 0xA8CE {
                        WidthClass::Two
                    } else {
                        if cp < 0xA8DA {
                            WidthClass::One
                        } else {
                            WidthClass::Two
                        }
                    }
                }
            }
        } else {
            if cp < 0xA92E {
                if cp < 0xA8FF {
                    if cp < 0xA8F2 {
                        WidthClass::Zero
                    } else {
                        WidthClass::One
                    }
                } else {
                    if cp < 0xA900 {
                        WidthClass::Zero
                    } else {
                        if cp < 0xA926 {
                            WidthClass::One
                        } else {
                            WidthClass::Zero
                        }
                    }
                }
            } else {
                if cp < 0xA952 {
                    if cp < 0xA947 {
                        WidthClass::One
                    } else {
                        WidthClass::Zero
                    }
                } else {
                    if cp < 0xA953 {
                        WidthClass::One
                    } else {
                        if cp < 0xA954 {
                            WidthClass::Zero
                        } else {
                            WidthClass::Two
                        }
                    }
                }
            }
        }
    }
}

fn lookup_width_class_0(cp: u32) -> (r: WidthClass)
    requires
        0x0 <= cp <= 0xA69D,
    ensures
        r == width_class_of(cp),
{
    if cp < 0x1038 {
        lookup_width_class_2(cp)
    } else {
        lookup_width_class_3(cp)
    }
}

fn lookup_width_class_3(cp: u32) -> (r: WidthClass)
    requires
        0x1038 <= cp <= 0xA69D,
    ensures
        r == width_class_of(cp),
{
    if cp < 0x20D0 {
        lookup_width_class_34(cp)
    } else {
        lookup_width_class_35(cp)
    }
}

fn lookup_width_class_35(cp: u32) -> (r: WidthClass)
    requires
        0x20D0 <= cp <= 0xA69D,
    ensures
        r == width_class_of(cp),
{
    if cp < 0x260A {
        lookup_width_class_50(cp)
    } else {
        lookup_width_class_51(cp)
    }
}

fn lookup_width_class_51(cp: u32) -> (r: WidthClass)
    requires
        0x260A <= cp <= 0xA69D,
    ensures
        r == width_class_of(cp),
{
    if cp < 0x274F {
        lookup_width_class_58(cp)
    } else {
        lookup_width_class_59(cp)
    }
}

fn lookup_width_class_59(cp: u32) -> (r: WidthClass)
    requires
        0x274F <= cp <= 0xA69D,
    ensures
        r == width_class_of(cp),
{
    if cp < 0x2D97 {
        lookup_width_class_62(cp)
    } else {
        lookup_width_class_63(cp)
    }
}

fn lookup_width_class_63(cp: u32) -> (r: WidthClass)
    requires
        0x2D97 <= cp <= 0xA69D,
    ensures
        r == width_class_of(cp),
{
    if cp < 0x2E00 {
        if cp < 0x2DC0 {
            if cp < 0x2DAF {
                if cp < 0x2DA7 {
                    if cp < 0x2DA0 {
                        WidthClass::Two
                    } else {
                        WidthClass::One
                    }
                } else {
                    if cp < 0x2DA8 {
                        WidthClass::Two
                    } else {
                        WidthClass::One
                    }
                }
            } else {
                if cp < 0x2DB7 {
                    if cp < 0x2DB0 {
                        WidthClass::Two
                    } else {
                        WidthClass::One
                    }
                } else {
                    if cp < 0x2DB8 {
                        WidthClass::Two
                    } else {
                        if cp < 0x2DBF {
                            WidthClass::One
                        } else {
                            WidthClass::Two
                        }
                    }
                }
            }
        } else {
            if cp < 0x2DD0 {
                if cp < 0x2DC8 {
                    if cp < 0x2DC7 {
                        WidthClass::One
                    } else {
                        WidthClass::Two
                    }
                } else {
                    if cp < 0x2DCF {
                        WidthClass::One
                    } else {
                        WidthClass::Two
                    }
                }
            } else {
                if cp < 0x2DD8 {
                    if cp < 0x2DD7 {
                        WidthClass::One
                    } else {
                        WidthClass::Two
                    }
                } else {
                    if cp < 0x2DDF {
                        WidthClass::One
                    } else {
                        if cp < 0x2DE0 {
                            WidthClass::Two
                        } else {
                            WidthClass::Zero
                        }
                    }
                }
            }
        }
    } else {
        if cp < 0x3165 {
            if cp < 0x303F {
                if cp < 0x302A {
                    if cp < 0x2E5E {
                        WidthClass::One
                    } else {
                        WidthClass::Two
                    }
                } else {
                    if cp < 0x3030 {
                        WidthClass::Zero
                    } else {
                        WidthClass::Two
                    }
                }
            } else {
                if cp < 0x3099 {
                    if cp < 0x3040 {
                        WidthClass::One
                    } else {
                        WidthClass::Two
                    }
                } else {
                    if cp < 0x309B {
                        WidthClass::Zero
                    } else {
                        if cp < 0x3164 {
                            WidthClass::Two
                        } else {
                            WidthClass::Zero
                        }
                    }
                }
            }
        } else {
            if cp < 0xA640 {
                if cp < 0x3250 {
                    if cp < 0x3248 {
                        WidthClass::Two
                    } else {
                        WidthClass::Ambiguous
                    }
                } else {
                    if cp < 0xA4D0 {
                        WidthClass::Two
                    } else {
                        if cp < 0xA62C {
                            WidthClass::One
                        } else {
                            WidthClass::Two
                        }
                    }
                }
            } else {
                if cp < 0xA673 {
                    if cp < 0xA66F {
                        WidthClass::One
                    } else {
                        WidthClass::Zero
                    }
                } else {
                    if cp < 0xA674 {
                        WidthClass::One
                    } else {
                        if cp < 0xA67E {
                            WidthClass::Zero
                        } else {
                            WidthClass::One
                        }
                    }
                }
            }
        }
    }
}

fn lookup_width_class_62(cp: u32) -> (r: WidthClass)
    requires
        0x274F <= cp <= 0x2D96,
    ensures
        r == width_class_of(cp),
{
    if cp < 0x2B56 {
        if cp < 0x27B0 {
            if cp < 0x2758 {
                if cp < 0x2756 {
                    if cp < 0x2753 {
                        WidthClass::One
                    } else {
                        WidthClass::Two
                    }
                } else {
                    if cp < 0x2757 {
                        WidthClass::One
                    } else {
                        WidthClass::Two
                    }
                }
            } else {
                if cp < 0x2780 {
                    if cp < 0x2776 {
                        WidthClass::One
                    } else {
                        WidthClass::Ambiguous
                    }
                } else {
                    if cp < 0x2795 {
                        WidthClass::One
                    } else {
                        if cp < 0x2798 {
                            WidthClass::Two
                        } else {
                            WidthClass::One
                        }
                    }
                }
            }
        } else {
            if cp < 0x2B1B {
                if cp < 0x27BF {
                    if cp < 0x27B1 {
                        WidthClass::Two
                    } else {
                        WidthClass::One
                    }
                } else {
                    if cp < 0x27C0 {
                        WidthClass::Two
                    } else {
                        WidthClass::One
                    }
                }
            } else {
                if cp < 0x2B50 {
                    if cp < 0x2B1D {
                        WidthClass::Two
                    } else {
                        WidthClass::One
                    }
                } else {
                    if cp < 0x2B51 {
                        WidthClass::Two
                    } else {
                        if cp < 0x2B55 {
                            WidthClass::One
                        } else {
                            WidthClass::Two
                        }
                    }
                }
            }
        }
    } else {
        if cp < 0x2D27 {
            if cp < 0x2CEF {
                if cp < 0x2B74 {
                    if cp < 0x2B5A {
                        WidthClass::Ambiguous
                    } else {
                        WidthClass::One
                    }
                } else {
                    if cp < 0x2B76 {
                        WidthClass::Two
                    } else {
                        WidthClass::One
                    }
                }
            } else {
                if cp < 0x2CF4 {
                    if cp < 0x2CF2 {
                        WidthClass::Zero
                    } else {
                        WidthClass::One
                    }
                } else {
                    if cp < 0x2CF9 {
                        WidthClass::Two
                    } else {
                        if cp < 0x2D26 {
                            WidthClass::One
                        } else {
                            WidthClass::Two
                        }
                    }
                }
            }
        } else {
            if cp < 0x2D68 {
                if cp < 0x2D2D {
                    if cp < 0x2D28 {
                        WidthClass::One
                    } else {
                        WidthClass::Two
                    }
                } else {
                    if cp < 0x2D2E {
                        WidthClass::One
                    } else {
                        if cp < 0x2D30 {
                            WidthClass::Two
                        } else {
                            WidthClass::One
                        }
                    }
                }
            } else {
                if cp < 0x2D71 {
                    if cp < 0x2D6F {
                        WidthClass::Two
                    } else {
                        WidthClass::One
                    }
                } else {
                    if cp < 0x2D7F {
                        WidthClass::Two
                    } else {
                        if cp < 0x2D80 {
                            WidthClass::Zero
                        } else {
                            WidthClass::One
                        }
                    }
                }
            }
        }
    }
}

fn lookup_width_class_58(cp: u32) -> (r: WidthClass)
    requires
        0x260A <= cp <= 0x274E,
    ensures
        r == width_class_of(cp),
{
    if cp < 0x26AA {
        lookup_width_class_60(cp)
    } else {
        lookup_width_class_61(cp)
    }
}

fn lookup_width_class_61(cp: u32) -> (r: WidthClass)
    requires
        0x26AA <= cp <= 0x274E,
    ensures
        r == width_class_of(cp),
{
    if cp < 0x26F4 {
        if cp < 0x26D4 {
            if cp < 0x26C0 {
                if cp < 0x26BD {
                    if cp < 0x26AC {
                        WidthClass::Two
                    } else {
                        WidthClass::One
                    }
                } else {
                    if cp < 0x26BF {
                        WidthClass::Two
                    } else {
                        WidthClass::Ambiguous
                    }
                }
            } else {
                if cp < 0x26C6 {
                    if cp < 0x26C4 {
                        WidthClass::One
                    } else {
                        WidthClass::Two
                    }
                } else {
                    if cp < 0x26CE {
                        WidthClass::Ambiguous
                    } else {
                        if cp < 0x26CF {
                            WidthClass::Two
                        } else {
                            WidthClass::Ambiguous
                        }
                    }
                }
            }
        } else {
            if cp < 0x26E4 {
                if cp < 0x26E2 {
                    if cp < 0x26D5 {
                        WidthClass::Two
                    } else {
                        WidthClass::Ambiguous
                    }
                } else {
                    if cp < 0x26E3 {
                        WidthClass::One
                    } else {
                        WidthClass::Ambiguous
                    }
                }
            } else {
                if cp < 0x26EA {
                    if cp < 0x26E8 {
                        WidthClass::One
                    } else {
                        WidthClass::Ambiguous
                    }
                } else {
                    if cp < 0x26EB {
                        WidthClass::Two
                    } else {
                        if cp < 0x26F2 {
                            WidthClass::Ambiguous
                        } else {
                            WidthClass::Two
                        }
                    }
                }
            }
        }
    } else {
        if cp < 0x2706 {
            if cp < 0x26FB {
                if cp < 0x26F6 {
                    if cp < 0x26F5 {
                        WidthClass::Ambiguous
                    } else {
                        WidthClass::Two
                    }
                } else {
                    if cp < 0x26FA {
                        WidthClass::Ambiguous
                    } else {
                        WidthClass::Two
                    }
                }
            } else {
                if cp < 0x26FE {
                    if cp < 0x26FD {
                        WidthClass::Ambiguous
                    } else {
                        WidthClass::Two
                    }
                } else {
                    if cp < 0x2700 {
                        WidthClass::Ambiguous
                    } else {
                        if cp < 0x2705 {
                            WidthClass::One
                        } else {
                            WidthClass::Two
                        }
                    }
                }
            }
        } else {
            if cp < 0x273D {
                if cp < 0x270C {
                    if cp < 0x270A {
                        WidthClass::One
                    } else {
                        WidthClass::Two
                    }
                } else {
                    if cp < 0x2728 {
                        WidthClass::One
                    } else {
                        if cp < 0x2729 {
                            WidthClass::Two
                        } else {
                            WidthClass::One
                        }
                    }
                }
            } else {
                if cp < 0x274C {
                    if cp < 0x273E {
                        WidthClass::Ambiguous
                    } else {
                        WidthClass::One
                    }
                } else {
                    if cp < 0x274D {
                        WidthClass::Two
                    } else {
                        if cp < 0x274E {
                            WidthClass::One
                        } else {
                            WidthClass::Two
                        }
                    }
                }
            }
        }
    }
}

fn lookup_width_class_60(cp: u32) -> (r: WidthClass)
    requires
        0x260A <= cp <= 0x26A9,
    ensures
        r == width_class_of(cp),
{
    if cp < 0x2662 {
        if cp < 0x2630 {
            if cp < 0x2616 {
                if cp < 0x2610 {
                    if cp < 0x260E {
                        WidthClass::One
                    } else {
                        WidthClass::Ambiguous
                    }
                } else {
                    if cp < 0x2614 {
                        WidthClass::One
                    } else {
                        WidthClass::Two
                    }
                }
            } else {
                if cp < 0x261D {
                    if cp < 0x261C {
                        WidthClass::One
                    } else {
                        WidthClass::Ambiguous
                    }
                } else {
                    if cp < 0x261E {
                        WidthClass::One
                    } else {
                        if cp < 0x261F {
                            WidthClass::Ambiguous
                        } else {
                            WidthClass::One
                        }
                    }
                }
            }
        } else {
            if cp < 0x2642 {
                if cp < 0x2640 {
                    if cp < 0x2638 {
                        WidthClass::Two
                    } else {
                        WidthClass::One
                    }
                } else {
                    if cp < 0x2641 {
                        WidthClass::Ambiguous
                    } else {
                        WidthClass::One
                    }
                }
            } else {
                if cp < 0x2648 {
                    if cp < 0x2643 {
                        WidthClass::Ambiguous
                    } else {
                        WidthClass::One
                    }
                } else {
                    if cp < 0x2654 {
                        WidthClass::Two
                    } else {
                        if cp < 0x2660 {
                            WidthClass::One
                        } else {
                            WidthClass::Ambiguous
                        }
                    }
                }
            }
        }
    } else {
        if cp < 0x267F {
            if cp < 0x266B {
                if cp < 0x2666 {
                    if cp < 0x2663 {
                        WidthClass::One
                    } else {
                        WidthClass::Ambiguous
                    }
                } else {
                    if cp < 0x2667 {
                        WidthClass::One
                    } else {
                        WidthClass::Ambiguous
                    }
                }
            } else {
                if cp < 0x266E {
                    if cp < 0x266C {
                        WidthClass::One
                    } else {
                        WidthClass::Ambiguous
                    }
                } else {
                    if cp < 0x266F {
                        WidthClass::One
                    } else {
                        if cp < 0x2670 {
                            WidthClass::Ambiguous
                        } else {
                            WidthClass::One
                        }
                    }
                }
            }
        } else {
            if cp < 0x2694 {
                if cp < 0x268A {
                    if cp < 0x2680 {
                        WidthClass::Two
                    } else {
                        WidthClass::One
                    }
                } else {
                    if cp < 0x2690 {
                        WidthClass::Two
                    } else {
                        if cp < 0x2693 {
                            WidthClass::One
                        } else {
                            WidthClass::Two
                        }
                    }
                }
            } else {
                if cp < 0x26A0 {
                    if cp < 0x269E {
                        WidthClass::One
                    } else {
                        WidthClass::Ambiguous
                    }
                } else {
                    if cp < 0x26A1 {
                        WidthClass::One
                    } else {
                        if cp < 0x26A2 {
                            WidthClass::Two
                        } else {
                            WidthClass::One
                        }
                    }
                }
            }
        }
    }
}

fn lookup_width_class_50(cp: u32) -> (r: WidthClass)
    requires
        0x20D0 <= cp <= 0x2609,
    ensures
        r == width_class_of(cp),
{
    if cp < 0x2252 {
        lookup_width_class_52(cp)
    } else {
        lookup_width_class_53(cp)
    }
}

fn lookup_width_class_53(cp: u32) -> (r: WidthClass)
    requires
        0x2252 <= cp <= 0x2609,
    ensures
        r == width_class_of(cp),
{
    if cp < 0x2460 {
        lookup_width_class_56(cp)
    } else {
        lookup_width_class_57(cp)
    }
}

fn lookup_width_class_57(cp: u32) -> (r: WidthClass)
    requires
        0x2460 <= cp <= 0x2609,
    ensures
        r == width_class_of(cp),
{
    if cp < 0x25BC {
        if cp < 0x2596 {
            if cp < 0x2550 {
                if cp < 0x24EB {
                    if cp < 0x24EA {
                        WidthClass::Ambiguous
                    } else {
                        WidthClass::One
                    }
                } else {
                    if cp < 0x254C {
                        WidthClass::Ambiguous
                    } else {
                        WidthClass::One
                    }
                }
            } else {
                if cp < 0x2580 {
                    if cp < 0x2574 {
                        WidthClass::Ambiguous
                    } else {
                        WidthClass::One
                    }
                } else {
                    if cp < 0x2590 {
                        WidthClass::Ambiguous
                    } else {
                        if cp < 0x2592 {
                            WidthClass::One
                        } else {
                            WidthClass::Ambiguous
                        }
                    }
                }
            }
        } else {
            if cp < 0x25AA {
                if cp < 0x25A2 {
                    if cp < 0x25A0 {
                        WidthClass::One
                    } else {
                        WidthClass::Ambiguous
                    }
                } else {
                    if cp < 0x25A3 {
                        WidthClass::One
                    } else {
                        WidthClass::Ambiguous
                    }
                }
            } else {
                if cp < 0x25B4 {
                    if cp < 0x25B2 {
                        WidthClass::One
                    } else {
                        WidthClass::Ambiguous
                    }
                } else {
                    if cp < 0x25B6 {
                        WidthClass::One
                    } else {
                        if cp < 0x25B8 {
                            WidthClass::Ambiguous
                        } else {
                            WidthClass::One
                        }
                    }
                }
            }
        }
    } else {
        if cp < 0x25D2 {
            if cp < 0x25C6 {
                if cp < 0x25C0 {
                    if cp < 0x25BE {
                        WidthClass::Ambiguous
                    } else {
                        WidthClass::One
                    }
                } else {
                    if cp < 0x25C2 {
                        WidthClass::Ambiguous
                    } else {
                        WidthClass::One
                    }
                }
            } else {
                if cp < 0x25CB {
                    if cp < 0x25C9 {
                        WidthClass::Ambiguous
                    } else {
                        WidthClass::One
                    }
                } else {
                    if cp < 0x25CC {
                        WidthClass::Ambiguous
                    } else {
                        if cp < 0x25CE {
                            WidthClass::One
                        } else {
                            WidthClass::Ambiguous
                        }
                    }
                }
            }
        } else {
            if cp < 0x25FD {
                if cp < 0x25E6 {
                    if cp < 0x25E2 {
                        WidthClass::One
                    } else {
                        WidthClass::Ambiguous
                    }
                } else {
                    if cp < 0x25EF {
                        WidthClass::One
                    } else {
                        if cp < 0x25F0 {
                            WidthClass::Ambiguous
                        } else {
                            WidthClass::One
                        }
                    }
                }
            } else {
                if cp < 0x2605 {
                    if cp < 0x25FF {
                        WidthClass::Two
                    } else {
                        WidthClass::One
                    }
                } else {
                    if cp < 0x2607 {
                        WidthClass::Ambiguous
                    } else {
                        if cp < 0x2609 {
                            WidthClass::One
                        } else {
                            WidthClass::Ambiguous
                        }
                    }
                }
            }
        }
    }
}

fn lookup_width_class_56(cp: u32) -> (r: WidthClass)
    requires
        0x2252 <= cp <= 0x245F,
    ensures
        r == width_class_of(cp),
{
    if cp < 0x22A5 {
        if cp < 0x2270 {
            if cp < 0x2264 {
                if cp < 0x2260 {
                    if cp < 0x2253 {
                        WidthClass::Ambiguous
                    } else {
                        WidthClass::One
                    }
                } else {
                    if cp < 0x2262 {
                        WidthClass::Ambiguous
                    } else {
                        WidthClass::One
                    }
                }
            } else {
                if cp < 0x226A {
                    if cp < 0x2268 {
                        WidthClass::Ambiguous
                    } else {
                        WidthClass::One
                    }
                } else {
                    if cp < 0x226C {
                        WidthClass::Ambiguous
                    } else {
                        if cp < 0x226E {
                            WidthClass::One
                        } else {
                            WidthClass::Ambiguous
                        }
                    }
                }
            }
        } else {
            if cp < 0x2288 {
                if cp < 0x2284 {
                    if cp < 0x2282 {
                        WidthClass::One
                    } else {
                        WidthClass::Ambiguous
                    }
                } else {
                    if cp < 0x2286 {
                        WidthClass::One
                    } else {
                        WidthClass::Ambiguous
                    }
                }
            } else {
                if cp < 0x2296 {
                    if cp < 0x2295 {
                        WidthClass::One
                    } else {
                        WidthClass::Ambiguous
                    }
                } else {
                    if cp < 0x2299 {
                        WidthClass::One
                    } else {
                        if cp < 0x229A {
                            WidthClass::Ambiguous
                        } else {
                            WidthClass::One
                        }
                    }
                }
            }
        }
    } else {
        if cp < 0x232B {
            if cp < 0x2312 {
                if cp < 0x22BF {
                    if cp < 0x22A6 {
                        WidthClass::Ambiguous
                    } else {
                        WidthClass::One
                    }
                } else {
                    if cp < 0x22C0 {
                        WidthClass::Ambiguous
                    } else {
                        WidthClass::One
                    }
                }
            } else {
                if cp < 0x231A {
                    if cp < 0x2313 {
                        WidthClass::Ambiguous
                    } else {
                        WidthClass::One
                    }
                } else {
                    if cp < 0x231C {
                        WidthClass::Two
                    } else {
                        if cp < 0x2329 {
                            WidthClass::One
                        } else {
                            WidthClass::Two
                        }
                    }
                }
            }
        } else {
            if cp < 0x23F3 {
                if cp < 0x23ED {
                    if cp < 0x23E9 {
                        WidthClass::One
                    } else {
                        WidthClass::Two
                    }
                } else {
                    if cp < 0x23F0 {
                        WidthClass::One
                    } else {
                        if cp < 0x23F1 {
                            WidthClass::Two
                        } else {
                            WidthClass::One
                        }
                    }
                }
            } else {
                if cp < 0x242A {
                    if cp < 0x23F4 {
                        WidthClass::Two
                    } else {
                        WidthClass::One
                    }
                } else {
                    if cp < 0x2440 {
                        WidthClass::Two
                    } else {
                        if cp < 0x244B {
                            WidthClass::One
                        } else {
                            WidthClass::Two
                        }
                    }
                }
            }
        }
    }
}

fn lookup_width_class_52(cp: u32) -> (r: WidthClass)
    requires
        0x20D0 <= cp <= 0x2251,
    ensures
        r == width_class_of(cp),
{
    if cp < 0x21D5 {
        lookup_width_class_54(cp)
    } else {
        lookup_width_class_55(cp)
    }
}

fn lookup_width_class_55(cp: u32) -> (r: WidthClass)
    requires
        0x21D5 <= cp <= 0x2251,
    ensures
        r == width_class_of(cp),
{
    if cp < 0x221B {
        if cp < 0x220B {
            if cp < 0x2201 {
                if cp < 0x21E8 {
                    if cp < 0x21E7 {
                        WidthClass::One
                    } else {
                        WidthClass::Ambiguous
                    }
                } else {
                    if cp < 0x2200 {
                        WidthClass::One
                    } else {
                        WidthClass::Ambiguous
                    }
                }
            } else {
                if cp < 0x2204 {
                    if cp < 0x2202 {
                        WidthClass::One
                    } else {
                        WidthClass::Ambiguous
                    }
                } else {
                    if cp < 0x2207 {
                        WidthClass::One
                    } else {
                        if cp < 0x2209 {
                            WidthClass::Ambiguous
                        } else {
                            WidthClass::One
                        }
                    }
                }
            }
        } else {
            if cp < 0x2211 {
                if cp < 0x220F {
                    if cp < 0x220C {
                        WidthClass::Ambiguous
                    } else {
                        WidthClass::One
                    }
                } else {
                    if cp < 0x2210 {
                        WidthClass::Ambiguous
                    } else {
                        WidthClass::One
                    }
                }
            } else {
                if cp < 0x2215 {
                    if cp < 0x2212 {
                        WidthClass::Ambiguous
                    } else {
                        WidthClass::One
                    }
                } else {
                    if cp < 0x2216 {
                        WidthClass::Ambiguous
                    } else {
                        if cp < 0x221A {
                            WidthClass::One
                        } else {
                            WidthClass::Ambiguous
                        }
                    }
                }
            }
        }
    } else {
        if cp < 0x222E {
            if cp < 0x2224 {
                if cp < 0x2221 {
                    if cp < 0x221D {
                        WidthClass::One
                    } else {
                        WidthClass::Ambiguous
                    }
                } else {
                    if cp < 0x2223 {
                        WidthClass::One
                    } else {
                        WidthClass::Ambiguous
                    }
                }
            } else {
                if cp < 0x2226 {
                    if cp < 0x2225 {
                        WidthClass::One
                    } else {
                        WidthClass::Ambiguous
                    }
                } else {
                    if cp < 0x2227 {
                        WidthClass::One
                    } else {
                        if cp < 0x222D {
                            WidthClass::Ambiguous
                        } else {
                            WidthClass::One
                        }
                    }
                }
            }
        } else {
            if cp < 0x223E {
                if cp < 0x2234 {
                    if cp < 0x222F {
                        WidthClass::Ambiguous
                    } else {
                        WidthClass::One
                    }
                } else {
                    if cp < 0x2238 {
                        WidthClass::Ambiguous
                    } else {
                        if cp < 0x223C {
                            WidthClass::One
                        } else {
                            WidthClass::Ambiguous
                        }
                    }
                }
            } else {
                if cp < 0x2249 {
                    if cp < 0x2248 {
                        WidthClass::One
                    } else {
                        WidthClass::Ambiguous
                    }
                } else {
                    if cp < 0x224C {
                        WidthClass::One
                    } else {
                        if cp < 0x224D {
                            WidthClass::Ambiguous
                        } else {
                            WidthClass::One
                        }
                    }
                }
            }
        }
    }
}

fn lookup_width_class_54(cp: u32) -> (r: WidthClass)
    requires
        0x20D0 <= cp <= 0x21D4,
    ensures
        r == width_class_of(cp),
{
    if cp < 0x212C {
        if cp < 0x2113 {
            if cp < 0x2104 {
                if cp < 0x2100 {
                    if cp < 0x20F1 {
                        WidthClass::Zero
                    } else {
                        WidthClass::Two
                    }
                } else {
                    if cp < 0x2103 {
                        WidthClass::One
                    } else {
                        WidthClass::Ambiguous
                    }
                }
            } else {
                if cp < 0x2106 {
                    if cp < 0x2105 {
                        WidthClass::One
                    } else {
                        WidthClass::Ambiguous
                    }
                } else {
                    if cp < 0x2109 {
                        WidthClass::One
                    } else {
                        if cp < 0x210A {
                            WidthClass::Ambiguous
                        } else {
                            WidthClass::One
                        }
                    }
                }
            }
        } else {
            if cp < 0x2121 {
                if cp < 0x2116 {
                    if cp < 0x2114 {
                        WidthClass::Ambiguous
                    } else {
                        WidthClass::One
                    }
                } else {
                    if cp < 0x2117 {
                        WidthClass::Ambiguous
                    } else {
                        WidthClass::One
                    }
                }
            } else {
                if cp < 0x2126 {
                    if cp < 0x2123 {
                        WidthClass::Ambiguous
                    } else {
                        WidthClass::One
                    }
                } else {
                    if cp < 0x2127 {
                        WidthClass::Ambiguous
                    } else {
                        if cp < 0x212B {
                            WidthClass::One
                        } else {
                            WidthClass::Ambiguous
                        }
                    }
                }
            }
        }
    } else {
        if cp < 0x2189 {
            if cp < 0x215F {
                if cp < 0x2155 {
                    if cp < 0x2153 {
                        WidthClass::One
                    } else {
                        WidthClass::Ambiguous
                    }
                } else {
                    if cp < 0x215B {
                        WidthClass::One
                    } else {
                        WidthClass::Ambiguous
                    }
                }
            } else {
                if cp < 0x216C {
                    if cp < 0x2160 {
                        WidthClass::One
                    } else {
                        WidthClass::Ambiguous
                    }
                } else {
                    if cp < 0x2170 {
                        WidthClass::One
                    } else {
                        if cp < 0x217A {
                            WidthClass::Ambiguous
                        } else {
                            WidthClass::One
                        }
                    }
                }
            }
        } else {
            if cp < 0x21B8 {
                if cp < 0x218C {
                    if cp < 0x218A {
                        WidthClass::Ambiguous
                    } else {
                        WidthClass::One
                    }
                } else {
                    if cp < 0x2190 {
                        WidthClass::Two
                    } else {
                        if cp < 0x219A {
                            WidthClass::Ambiguous
                        } else {
                            WidthClass::One
                        }
                    }
                }
            } else {
                if cp < 0x21D2 {
                    if cp < 0x21BA {
                        WidthClass::Ambiguous
                    } else {
                        WidthClass::One
                    }
                } else {
                    if cp < 0x21D3 {
                        WidthClass::Ambiguous
                    } else {
                        if cp < 0x21D4 {
                            WidthClass::One
                        } else {
                            WidthClass::Ambiguous
                        }
                    }
                }
            }
        }
    }
}

fn lookup_width_class_34(cp: u32) -> (r: WidthClass)
    requires
        0x1038 <= cp <= 0x20CF,
    ensures
        r == width_class_of(cp),
{
    if cp < 0x1A57 {
        lookup_width_class_36(cp)
    } else {
        lookup_width_class_37(cp)
    }
}

fn lookup_width_class_37(cp: u32) -> (r: WidthClass)
    requires
        0x1A57 <= cp <= 0x20CF,
    ensures
        r == width_class_of(cp),
{
    if cp < 0x1E00 {
        lookup_width_class_44(cp)
    } else {
        lookup_width_class_45(cp)
    }
}

fn lookup_width_class_45(cp: u32) -> (r: WidthClass)
    requires
        0x1E00 <= cp <= 0x20CF,
    ensures
        r == width_class_of(cp),
{
    if cp < 0x2017 {
        lookup_width_class_48(cp)
    } else {
        lookup_width_class_49(cp)
    }
}

fn lookup_width_class_49(cp: u32) -> (r: WidthClass)
    requires
        0x2017 <= cp <= 0x20CF,
    ensures
        r == width_class_of(cp),
{
    if cp < 0x203C {
        if cp < 0x202A {
            if cp < 0x201E {
                if cp < 0x201A {
                    if cp < 0x2018 {
                        WidthClass::One
                    } else {
                        WidthClass::Ambiguous
                    }
                } else {
                    if cp < 0x201C {
                        WidthClass::One
                    } else {
                        WidthClass::Ambiguous
                    }
                }
            } else {
                if cp < 0x2023 {
                    if cp < 0x2020 {
                        WidthClass::One
                    } else {
                        WidthClass::Ambiguous
                    }
                } else {
                    if cp < 0x2024 {
                        WidthClass::One
                    } else {
                        if cp < 0x2028 {
                            WidthClass::Ambiguous
                        } else {
                            WidthClass::One
                        }
                    }
                }
            }
        } else {
            if cp < 0x2032 {
                if cp < 0x2030 {
                    if cp < 0x202F {
                        WidthClass::Zero
                    } else {
                        WidthClass::One
                    }
                } else {
                    if cp < 0x2031 {
                        WidthClass::Ambiguous
                    } else {
                        WidthClass::One
                    }
                }
            } else {
                if cp < 0x2035 {
                    if cp < 0x2034 {
                        WidthClass::Ambiguous
                    } else {
                        WidthClass::One
                    }
                } else {
                    if cp < 0x2036 {
                        WidthClass::Ambiguous
                    } else {
                        if cp < 0x203B {
                            WidthClass::One
                        } else {
                            WidthClass::Ambiguous
                        }
                    }
                }
            }
        }
    } else {
        if cp < 0x2080 {
            if cp < 0x2070 {
                if cp < 0x203F {
                    if cp < 0x203E {
                        WidthClass::One
                    } else {
                        WidthClass::Ambiguous
                    }
                } else {
                    if cp < 0x2060 {
                        WidthClass::One
                    } else {
                        WidthClass::Zero
                    }
                }
            } else {
                if cp < 0x2074 {
                    if cp < 0x2072 {
                        WidthClass::One
                    } else {
                        WidthClass::Two
                    }
                } else {
                    if cp < 0x2075 {
                        WidthClass::Ambiguous
                    } else {
                        if cp < 0x207F {
                            WidthClass::One
                        } else {
                            WidthClass::Ambiguous
                        }
                    }
                }
            }
        } else {
            if cp < 0x209D {
                if cp < 0x2085 {
                    if cp < 0x2081 {
                        WidthClass::One
                    } else {
                        WidthClass::Ambiguous
                    }
                } else {
                    if cp < 0x208F {
                        WidthClass::One
                    } else {
                        if cp < 0x2090 {
                            WidthClass::Two
                        } else {
                            WidthClass::One
                        }
                    }
                }
            } else {
                if cp < 0x20AC {
                    if cp < 0x20A0 {
                        WidthClass::Two
                    } else {
                        WidthClass::One
                    }
                } else {
                    if cp < 0x20AD {
                        WidthClass::Ambiguous
                    } else {
                        if cp < 0x20C2 {
                            WidthClass::One
                        } else {
                            WidthClass::Two
                        }
                    }
                }
            }
        }
    }
}

fn lookup_width_class_48(cp: u32) -> (r: WidthClass)
    requires
        0x1E00 <= cp <= 0x2016,
    ensures
        r == width_class_of(cp),
{
    if cp < 0x1F80 {
        if cp < 0x1F58 {
            if cp < 0x1F20 {
                if cp < 0x1F18 {
                    if cp < 0x1F16 {
                        WidthClass::One
                    } else {
                        WidthClass::Two
                    }
                } else {
                    if cp < 0x1F1E {
                        WidthClass::One
                    } else {
                        WidthClass::Two
                    }
                }
            } else {
                if cp < 0x1F48 {
                    if cp < 0x1F46 {
                        WidthClass::One
                    } else {
                        WidthClass::Two
                    }
                } else {
                    if cp < 0x1F4E {
                        WidthClass::One
                    } else {
                        if cp < 0x1F50 {
                            WidthClass::Two
                        } else {
                            WidthClass::One
                        }
                    }
                }
            }
        } else {
            if cp < 0x1F5C {
                if cp < 0x1F5A {
                    if cp < 0x1F59 {
                        WidthClass::Two
                    } else {
                        WidthClass::One
                    }
                } else {
                    if cp < 0x1F5B {
                        WidthClass::Two
                    } else {
                        WidthClass::One
                    }
                }
            } else {
                if cp < 0x1F5E {
                    if cp < 0x1F5D {
                        WidthClass::Two
                    } else {
                        WidthClass::One
                    }
                } else {
                    if cp < 0x1F5F {
                        WidthClass::Two
                    } else {
                        if cp < 0x1F7E {
                            WidthClass::One
                        } else {
                            WidthClass::Two
                        }
                    }
                }
            }
        }
    } else {
        if cp < 0x1FF0 {
            if cp < 0x1FC6 {
                if cp < 0x1FB6 {
                    if cp < 0x1FB5 {
                        WidthClass::One
                    } else {
                        WidthClass::Two
                    }
                } else {
                    if cp < 0x1FC5 {
                        WidthClass::One
                    } else {
                        WidthClass::Two
                    }
                }
            } else {
                if cp < 0x1FD6 {
                    if cp < 0x1FD4 {
                        WidthClass::One
                    } else {
                        WidthClass::Two
                    }
                } else {
                    if cp < 0x1FDC {
                        WidthClass::One
                    } else {
                        if cp < 0x1FDD {
                            WidthClass::Two
                        } else {
                            WidthClass::One
                        }
                    }
                }
            }
        } else {
            if cp < 0x2000 {
                if cp < 0x1FF5 {
                    if cp < 0x1FF2 {
                        WidthClass::Two
                    } else {
                        WidthClass::One
                    }
                } else {
                    if cp < 0x1FF6 {
                        WidthClass::Two
                    } else {
                        if cp < 0x1FFF {
                            WidthClass::One
                        } else {
                            WidthClass::Two
                        }
                    }
                }
            } else {
                if cp < 0x2010 {
                    if cp < 0x200B {
                        WidthClass::One
                    } else {
                        WidthClass::Zero
                    }
                } else {
                    if cp < 0x2011 {
                        WidthClass::Ambiguous
                    } else {
                        if cp < 0x2013 {
                            WidthClass::One
                        } else {
                            WidthClass::Ambiguous
                        }
                    }
                }
            }
        }
    }
}

fn lookup_width_class_44(cp: u32) -> (r: WidthClass)
    requires
        0x1A57 <= cp <= 0x1DFF,
    ensures
        r == width_class_of(cp),
{
    if cp < 0x1BAE {
        lookup_width_class_46(cp)
    } else {
        lookup_width_class_47(cp)
    }
}

fn lookup_width_class_47(cp: u32) -> (r: WidthClass)
    requires
        0x1BAE <= cp <= 0x1DFF,
    ensures
        r == width_class_of(cp),
{
    if cp < 0x1C90 {
        if cp < 0x1BFC {
            if cp < 0x1BEA {
                if cp < 0x1BE7 {
                    if cp < 0x1BE6 {
                        WidthClass::One
                    } else {
                        WidthClass::Zero
                    }
                } else {
                    if cp < 0x1BE8 {
                        WidthClass::One
                    } else {
                        WidthClass::Zero
                    }
                }
            } else {
                if cp < 0x1BEE {
                    if cp < 0x1BED {
                        WidthClass::One
                    } else {
                        WidthClass::Zero
                    }
                } else {
                    if cp < 0x1BEF {
                        WidthClass::One
                    } else {
                        if cp < 0x1BF4 {
                            WidthClass::Zero
                        } else {
                            WidthClass::Two
                        }
                    }
                }
            }
        } else {
            if cp < 0x1C38 {
                if cp < 0x1C34 {
                    if cp < 0x1C2C {
                        WidthClass::One
                    } else {
                        WidthClass::Zero
                    }
                } else {
                    if cp < 0x1C36 {
                        WidthClass::One
                    } else {
                        WidthClass::Zero
                    }
                }
            } else {
                if cp < 0x1C4A {
                    if cp < 0x1C3B {
                        WidthClass::Two
                    } else {
                        WidthClass::One
                    }
                } else {
                    if cp < 0x1C4D {
                        WidthClass::Two
                    } else {
                        if cp < 0x1C8B {
                            WidthClass::One
                        } else {
                            WidthClass::Two
                        }
                    }
                }
            }
        }
    } else {
        if cp < 0x1CE9 {
            if cp < 0x1CD0 {
                if cp < 0x1CBD {
                    if cp < 0x1CBB {
                        WidthClass::One
                    } else {
                        WidthClass::Two
                    }
                } else {
                    if cp < 0x1CC8 {
                        WidthClass::One
                    } else {
                        WidthClass::Two
                    }
                }
            } else {
                if cp < 0x1CD4 {
                    if cp < 0x1CD3 {
                        WidthClass::Zero
                    } else {
                        WidthClass::One
                    }
                } else {
                    if cp < 0x1CE1 {
                        WidthClass::Zero
                    } else {
                        if cp < 0x1CE2 {
                            WidthClass::One
                        } else {
                            WidthClass::Zero
                        }
                    }
                }
            }
        } else {
            if cp < 0x1CF8 {
                if cp < 0x1CEE {
                    if cp < 0x1CED {
                        WidthClass::One
                    } else {
                        WidthClass::Zero
                    }
                } else {
                    if cp < 0x1CF4 {
                        WidthClass::One
                    } else {
                        if cp < 0x1CF5 {
                            WidthClass::Zero
                        } else {
                            WidthClass::One
                        }
                    }
                }
            } else {
                if cp < 0x1CFB {
                    if cp < 0x1CFA {
                        WidthClass::Zero
                    } else {
                        WidthClass::One
                    }
                } else {
                    if cp < 0x1D00 {
                        WidthClass::Two
                    } else {
                        if cp < 0x1DC0 {
                            WidthClass::One
                        } else {
                            WidthClass::Zero
                        }
                    }
                }
            }
        }
    }
}

fn lookup_width_class_46(cp: u32) -> (r: WidthClass)
    requires
        0x1A57 <= cp <= 0x1BAD,
    ensures
        r == width_class_of(cp),
{
    if cp < 0x1AB0 {
        if cp < 0x1A73 {
            if cp < 0x1A61 {
                if cp < 0x1A5F {
                    if cp < 0x1A58 {
                        WidthClass::One
                    } else {
                        WidthClass::Zero
                    }
                } else {
                    if cp < 0x1A60 {
                        WidthClass::Two
                    } else {
                        WidthClass::Zero
                    }
                }
            } else {
                if cp < 0x1A63 {
                    if cp < 0x1A62 {
                        WidthClass::One
                    } else {
                        WidthClass::Zero
                    }
                } else {
                    if cp < 0x1A65 {
                        WidthClass::One
                    } else {
                        if cp < 0x1A6D {
                            WidthClass::Zero
                        } else {
                            WidthClass::One
                        }
                    }
                }
            }
        } else {
            if cp < 0x1A8A {
                if cp < 0x1A7F {
                    if cp < 0x1A7D {
                        WidthClass::Zero
                    } else {
                        WidthClass::Two
                    }
                } else {
                    if cp < 0x1A80 {
                        WidthClass::Zero
                    } else {
                        WidthClass::One
                    }
                }
            } else {
                if cp < 0x1A9A {
                    if cp < 0x1A90 {
                        WidthClass::Two
                    } else {
                        WidthClass::One
                    }
                } else {
                    if cp < 0x1AA0 {
                        WidthClass::Two
                    } else {
                        if cp < 0x1AAE {
                            WidthClass::One
                        } else {
                            WidthClass::Two
                        }
                    }
                }
            }
        }
    } else {
        if cp < 0x1B45 {
            if cp < 0x1B00 {
                if cp < 0x1AE0 {
                    if cp < 0x1ADE {
                        WidthClass::Zero
                    } else {
                        WidthClass::Two
                    }
                } else {
                    if cp < 0x1AEC {
                        WidthClass::Zero
                    } else {
                        WidthClass::Two
                    }
                }
            } else {
                if cp < 0x1B34 {
                    if cp < 0x1B04 {
                        WidthClass::Zero
                    } else {
                        WidthClass::One
                    }
                } else {
                    if cp < 0x1B3E {
                        WidthClass::Zero
                    } else {
                        if cp < 0x1B42 {
                            WidthClass::One
                        } else {
                            WidthClass::Zero
                        }
                    }
                }
            }
        } else {
            if cp < 0x1B80 {
                if cp < 0x1B4E {
                    if cp < 0x1B4D {
                        WidthClass::One
                    } else {
                        WidthClass::Two
                    }
                } else {
                    if cp < 0x1B6B {
                        WidthClass::One
                    } else {
                        if cp < 0x1B74 {
                            WidthClass::Zero
                        } else {
                            WidthClass::One
                        }
                    }
                }
            } else {
                if cp < 0x1BA2 {
                    if cp < 0x1B82 {
                        WidthClass::Zero
                    } else {
                        WidthClass::One
                    }
                } else {
                    if cp < 0x1BA6 {
                        WidthClass::Zero
                    } else {
                        if cp < 0x1BA8 {
                            WidthClass::One
                        } else {
                            WidthClass::Zero
                        }
                    }
                }
            }
        }
    }
}

fn lookup_width_class_36(cp: u32) -> (r: WidthClass)
    requires
        0x1038 <= cp <= 0x1A56,
    ensures
        r == width_class_of(cp),
{
    if cp < 0x1716 {
        lookup_width_class_38(cp)
    } else {
        lookup_width_class_39(cp)
    }
}

fn lookup_width_class_39(cp: u32) -> (r: WidthClass)
    requires
        0x1716 <= cp <= 0x1A56,
    ensures
        r == width_class_of(cp),
{
    if cp < 0x1887 {
        lookup_width_class_42(cp)
    } else {
        lookup_width_class_43(cp)
    }
}

fn lookup_width_class_43(cp: u32) -> (r: WidthClass)
    requires
        0x1887 <= cp <= 0x1A56,
    ensures
        r == width_class_of(cp),
{
    if cp < 0x1940 {
        if cp < 0x1923 {
            if cp < 0x18B0 {
                if cp < 0x18AA {
                    if cp < 0x18A9 {
                        WidthClass::One
                    } else {
                        WidthClass::Zero
                    }
                } else {
                    if cp < 0x18AB {
                        WidthClass::One
                    } else {
                        WidthClass::Two
                    }
                }
            } else {
                if cp < 0x1900 {
                    if cp < 0x18F6 {
                        WidthClass::One
                    } else {
                        WidthClass::Two
                    }
                } else {
                    if cp < 0x191F {
                        WidthClass::One
                    } else {
                        if cp < 0x1920 {
                            WidthClass::Two
                        } else {
                            WidthClass::Zero
                        }
                    }
                }
            }
        } else {
            if cp < 0x1930 {
                if cp < 0x1929 {
                    if cp < 0x1927 {
                        WidthClass::One
                    } else {
                        WidthClass::Zero
                    }
                } else {
                    if cp < 0x192C {
                        WidthClass::One
                    } else {
                        WidthClass::Two
                    }
                }
            } else {
                if cp < 0x1933 {
                    if cp < 0x1932 {
                        WidthClass::One
                    } else {
                        WidthClass::Zero
                    }
                } else {
                    if cp < 0x1939 {
                        WidthClass::One
                    } else {
                        if cp < 0x193C {
                            WidthClass::Zero
                        } else {
                            WidthClass::Two
                        }
                    }
                }
            }
        }
    } else {
        if cp < 0x19CA {
            if cp < 0x1970 {
                if cp < 0x1944 {
                    if cp < 0x1941 {
                        WidthClass::One
                    } else {
                        WidthClass::Two
                    }
                } else {
                    if cp < 0x196E {
                        WidthClass::One
                    } else {
                        WidthClass::Two
                    }
                }
            } else {
                if cp < 0x1980 {
                    if cp < 0x1975 {
                        WidthClass::One
                    } else {
                        WidthClass::Two
                    }
                } else {
                    if cp < 0x19AC {
                        WidthClass::One
                    } else {
                        if cp < 0x19B0 {
                            WidthClass::Two
                        } else {
                            WidthClass::One
                        }
                    }
                }
            }
        } else {
            if cp < 0x1A19 {
                if cp < 0x19DB {
                    if cp < 0x19D0 {
                        WidthClass::Two
                    } else {
                        WidthClass::One
                    }
                } else {
                    if cp < 0x19DE {
                        WidthClass::Two
                    } else {
                        if cp < 0x1A17 {
                            WidthClass::One
                        } else {
                            WidthClass::Zero
                        }
                    }
                }
            } else {
                if cp < 0x1A1C {
                    if cp < 0x1A1B {
                        WidthClass::One
                    } else {
                        WidthClass::Zero
                    }
                } else {
                    if cp < 0x1A1E {
                        WidthClass::Two
                    } else {
                        if cp < 0x1A56 {
                            WidthClass::One
                        } else {
                            WidthClass::Zero
                        }
                    }
                }
            }
        }
    }
}

fn lookup_width_class_42(cp: u32) -> (r: WidthClass)
    requires
        0x1716 <= cp <= 0x1886,
    ensures
        r == width_class_of(cp),
{
    if cp < 0x17BE {
        if cp < 0x176D {
            if cp < 0x1737 {
                if cp < 0x1732 {
                    if cp < 0x171F {
                        WidthClass::Two
                    } else {
                        WidthClass::One
                    }
                } else {
                    if cp < 0x1735 {
                        WidthClass::Zero
                    } else {
                        WidthClass::One
                    }
                }
            } else {
                if cp < 0x1752 {
                    if cp < 0x1740 {
                        WidthClass::Two
                    } else {
                        WidthClass::One
                    }
                } else {
                    if cp < 0x1754 {
                        WidthClass::Zero
                    } else {
                        if cp < 0x1760 {
                            WidthClass::Two
                        } else {
                            WidthClass::One
                        }
                    }
                }
            }
        } else {
            if cp < 0x1774 {
                if cp < 0x1771 {
                    if cp < 0x176E {
                        WidthClass::Two
                    } else {
                        WidthClass::One
                    }
                } else {
                    if cp < 0x1772 {
                        WidthClass::Two
                    } else {
                        WidthClass::Zero
                    }
                }
            } else {
                if cp < 0x17B4 {
                    if cp < 0x1780 {
                        WidthClass::Two
                    } else {
                        WidthClass::One
                    }
                } else {
                    if cp < 0x17B6 {
                        WidthClass::Zero
                    } else {
                        if cp < 0x17B7 {
                            WidthClass::One
                        } else {
                            WidthClass::Zero
                        }
                    }
                }
            }
        }
    } else {
        if cp < 0x17F0 {
            if cp < 0x17D4 {
                if cp < 0x17C7 {
                    if cp < 0x17C6 {
                        WidthClass::One
                    } else {
                        WidthClass::Zero
                    }
                } else {
                    if cp < 0x17C9 {
                        WidthClass::One
                    } else {
                        WidthClass::Zero
                    }
                }
            } else {
                if cp < 0x17DE {
                    if cp < 0x17DD {
                        WidthClass::One
                    } else {
                        WidthClass::Zero
                    }
                } else {
                    if cp < 0x17E0 {
                        WidthClass::Two
                    } else {
                        if cp < 0x17EA {
                            WidthClass::One
                        } else {
                            WidthClass::Two
                        }
                    }
                }
            }
        } else {
            if cp < 0x181A {
                if cp < 0x1800 {
                    if cp < 0x17FA {
                        WidthClass::One
                    } else {
                        WidthClass::Two
                    }
                } else {
                    if cp < 0x180B {
                        WidthClass::One
                    } else {
                        if cp < 0x1810 {
                            WidthClass::Zero
                        } else {
                            WidthClass::One
                        }
                    }
                }
            } else {
                if cp < 0x1879 {
                    if cp < 0x1820 {
                        WidthClass::Two
                    } else {
                        WidthClass::One
                    }
                } else {
                    if cp < 0x1880 {
                        WidthClass::Two
                    } else {
                        if cp < 0x1885 {
                            WidthClass::One
                        } else {
                            WidthClass::Zero
                        }
                    }
                }
            }
        }
    }
}

fn lookup_width_class_38(cp: u32) -> (r: WidthClass)
    requires
        0x1038 <= cp <= 0x1715,
    ensures
        r == width_class_of(cp),
{
    if cp < 0x1260 {
        lookup_width_class_40(cp)
    } else {
        lookup_width_class_41(cp)
    }
}

fn lookup_width_class_41(cp: u32) -> (r: WidthClass)
    requires
        0x1260 <= cp <= 0x1715,
    ensures
        r == width_class_of(cp),
{
    if cp < 0x1312 {
        if cp < 0x12BF {
            if cp < 0x1290 {
                if cp < 0x128A {
                    if cp < 0x1289 {
                        WidthClass::One
                    } else {
                        WidthClass::Two
                    }
                } else {
                    if cp < 0x128E {
                        WidthClass::One
                    } else {
                        WidthClass::Two
                    }
                }
            } else {
                if cp < 0x12B2 {
                    if cp < 0x12B1 {
                        WidthClass::One
                    } else {
                        WidthClass::Two
                    }
                } else {
                    if cp < 0x12B6 {
                        WidthClass::One
                    } else {
                        if cp < 0x12B8 {
                            WidthClass::Two
                        } else {
                            WidthClass::One
                        }
                    }
                }
            }
        } else {
            if cp < 0x12C6 {
                if cp < 0x12C1 {
                    if cp < 0x12C0 {
                        WidthClass::Two
                    } else {
                        WidthClass::One
                    }
                } else {
                    if cp < 0x12C2 {
                        WidthClass::Two
                    } else {
                        WidthClass::One
                    }
                }
            } else {
                if cp < 0x12D7 {
                    if cp < 0x12C8 {
                        WidthClass::Two
                    } else {
                        WidthClass::One
                    }
                } else {
                    if cp < 0x12D8 {
                        WidthClass::Two
                    } else {
                        if cp < 0x1311 {
                            WidthClass::One
                        } else {
                            WidthClass::Two
                        }
                    }
                }
            }
        }
    } else {
        if cp < 0x13A0 {
            if cp < 0x135D {
                if cp < 0x1318 {
                    if cp < 0x1316 {
                        WidthClass::One
                    } else {
                        WidthClass::Two
                    }
                } else {
                    if cp < 0x135B {
                        WidthClass::One
                    } else {
                        WidthClass::Two
                    }
                }
            } else {
                if cp < 0x137D {
                    if cp < 0x1360 {
                        WidthClass::Zero
                    } else {
                        WidthClass::One
                    }
                } else {
                    if cp < 0x1380 {
                        WidthClass::Two
                    } else {
                        if cp < 0x139A {
                            WidthClass::One
                        } else {
                            WidthClass::Two
                        }
                    }
                }
            }
        } else {
            if cp < 0x169D {
                if cp < 0x13F8 {
                    if cp < 0x13F6 {
                        WidthClass::One
                    } else {
                        WidthClass::Two
                    }
                } else {
                    if cp < 0x13FE {
                        WidthClass::One
                    } else {
                        if cp < 0x1400 {
                            WidthClass::Two
                        } else {
                            WidthClass::One
                        }
                    }
                }
            } else {
                if cp < 0x16F9 {
                    if cp < 0x16A0 {
                        WidthClass::Two
                    } else {
                        WidthClass::One
                    }
                } else {
                    if cp < 0x1700 {
                        WidthClass::Two
                    } else {
                        if cp < 0x1712 {
                            WidthClass::One
                        } else {
                            WidthClass::Zero
                        }
                    }
                }
            }
        }
    }
}

fn lookup_width_class_40(cp: u32) -> (r: WidthClass)
    requires
        0x1038 <= cp <= 0x125F,
    ensures
        r == width_class_of(cp),
{
    if cp < 0x109E {
        if cp < 0x1071 {
            if cp < 0x103F {
                if cp < 0x103B {
                    if cp < 0x1039 {
                        WidthClass::One
                    } else {
                        WidthClass::Zero
                    }
                } else {
                    if cp < 0x103D {
                        WidthClass::One
                    } else {
                        WidthClass::Zero
                    }
                }
            } else {
                if cp < 0x105A {
                    if cp < 0x1058 {
                        WidthClass::One
                    } else {
                        WidthClass::Zero
                    }
                } else {
                    if cp < 0x105E {
                        WidthClass::One
                    } else {
                        if cp < 0x1061 {
                            WidthClass::Zero
                        } else {
                            WidthClass::One
                        }
                    }
                }
            }
        } else {
            if cp < 0x1085 {
                if cp < 0x1082 {
                    if cp < 0x1075 {
                        WidthClass::Zero
                    } else {
                        WidthClass::One
                    }
                } else {
                    if cp < 0x1083 {
                        WidthClass::Zero
                    } else {
                        WidthClass::One
                    }
                }
            } else {
                if cp < 0x108D {
                    if cp < 0x1087 {
                        WidthClass::Zero
                    } else {
                        WidthClass::One
                    }
                } else {
                    if cp < 0x108E {
                        WidthClass::Zero
                    } else {
                        if cp < 0x109D {
                            WidthClass::One
                        } else {
                            WidthClass::Zero
                        }
                    }
                }
            }
        }
    } else {
        if cp < 0x1200 {
            if cp < 0x10CD {
                if cp < 0x10C7 {
                    if cp < 0x10C6 {
                        WidthClass::One
                    } else {
                        WidthClass::Two
                    }
                } else {
                    if cp < 0x10C8 {
                        WidthClass::One
                    } else {
                        WidthClass::Two
                    }
                }
            } else {
                if cp < 0x10D0 {
                    if cp < 0x10CE {
                        WidthClass::One
                    } else {
                        WidthClass::Two
                    }
                } else {
                    if cp < 0x1100 {
                        WidthClass::One
                    } else {
                        if cp < 0x1160 {
                            WidthClass::Two
                        } else {
                            WidthClass::Zero
                        }
                    }
                }
            }
        } else {
            if cp < 0x1257 {
                if cp < 0x124A {
                    if cp < 0x1249 {
                        WidthClass::One
                    } else {
                        WidthClass::Two
                    }
                } else {
                    if cp < 0x124E {
                        WidthClass::One
                    } else {
                        if cp < 0x1250 {
                            WidthClass::Two
                        } else {
                            WidthClass::One
                        }
                    }
                }
            } else {
                if cp < 0x1259 {
                    if cp < 0x1258 {
                        WidthClass::Two
                    } else {
                        WidthClass::One
                    }
                } else {
                    if cp < 0x125A {
                        WidthClass::Two
                    } else {
                        if cp < 0x125E {
                            WidthClass::One
                        } else {
                            WidthClass::Two
                        }
                    }
                }
            }
        }
    }
}

fn lookup_width_class_2(cp: u32) -> (r: WidthClass)
    requires
        0x0 <= cp <= 0x1037,
    ensures
        r == width_class_of(cp),
{
    if cp < 0xA72 {
        lookup_width_class_4(cp)
    } else {
        lookup_width_class_5(cp)
    }
}

fn lookup_width_class_5(cp: u32) -> (r: WidthClass)
    requires
        0xA72 <= cp <= 0x1037,
    ensures
        r == width_class_of(cp),
{
    if cp < 0xC92 {
        lookup_width_class_20(cp)
    } else {
        lookup_width_class_21(cp)
    }
}

fn lookup_width_class_21(cp: u32) -> (r: WidthClass)
    requires
        0xC92 <= cp <= 0x1037,
    ensures
        r == width_class_of(cp),
{
    if cp < 0xDD8 {
        lookup_width_class_28(cp)
    } else {
        lookup_width_class_29(cp)
    }
}

fn lookup_width_class_29(cp: u32) -> (r: WidthClass)
    requires
        0xDD8 <= cp <= 0x1037,
    ensures
        r == width_class_of(cp),
{
    if cp < 0xECF {
        lookup_width_class_32(cp)
    } else {
        lookup_width_class_33(cp)
    }
}

fn lookup_width_class_33(cp: u32) -> (r: WidthClass)
    requires
        0xECF <= cp <= 0x1037,
    ensures
        r == width_class_of(cp),
{
    if cp < 0xF7F {
        if cp < 0xF36 {
            if cp < 0xEE0 {
                if cp < 0xEDA {
                    if cp < 0xED0 {
                        WidthClass::Two
                    } else {
                        WidthClass::One
                    }
                } else {
                    if cp < 0xEDC {
                        WidthClass::Two
                    } else {
                        WidthClass::One
                    }
                }
            } else {
                if cp < 0xF18 {
                    if cp < 0xF00 {
                        WidthClass::Two
                    } else {
                        WidthClass::One
                    }
                } else {
                    if cp < 0xF1A {
                        WidthClass::Zero
                    } else {
                        if cp < 0xF35 {
                            WidthClass::One
                        } else {
                            WidthClass::Zero
                        }
                    }
                }
            }
        } else {
            if cp < 0xF3A {
                if cp < 0xF38 {
                    if cp < 0xF37 {
                        WidthClass::One
                    } else {
                        WidthClass::Zero
                    }
                } else {
                    if cp < 0xF39 {
                        WidthClass::One
                    } else {
                        WidthClass::Zero
                    }
                }
            } else {
                if cp < 0xF49 {
                    if cp < 0xF48 {
                        WidthClass::One
                    } else {
                        WidthClass::Two
                    }
                } else {
                    if cp < 0xF6D {
                        WidthClass::One
                    } else {
                        if cp < 0xF71 {
                            WidthClass::Two
                        } else {
                            WidthClass::Zero
                        }
                    }
                }
            }
        }
    } else {
        if cp < 0xFBE {
            if cp < 0xF88 {
                if cp < 0xF85 {
                    if cp < 0xF80 {
                        WidthClass::One
                    } else {
                        WidthClass::Zero
                    }
                } else {
                    if cp < 0xF86 {
                        WidthClass::One
                    } else {
                        WidthClass::Zero
                    }
                }
            } else {
                if cp < 0xF98 {
                    if cp < 0xF8D {
                        WidthClass::One
                    } else {
                        WidthClass::Zero
                    }
                } else {
                    if cp < 0xF99 {
                        WidthClass::Two
                    } else {
                        if cp < 0xFBD {
                            WidthClass::Zero
                        } else {
                            WidthClass::Two
                        }
                    }
                }
            }
        } else {
            if cp < 0xFDB {
                if cp < 0xFC7 {
                    if cp < 0xFC6 {
                        WidthClass::One
                    } else {
                        WidthClass::Zero
                    }
                } else {
                    if cp < 0xFCD {
                        WidthClass::One
                    } else {
                        if cp < 0xFCE {
                            WidthClass::Two
                        } else {
                            WidthClass::One
                        }
                    }
                }
            } else {
                if cp < 0x102D {
                    if cp < 0x1000 {
                        WidthClass::Two
                    } else {
                        WidthClass::One
                    }
                } else {
                    if cp < 0x1031 {
                        WidthClass::Zero
                    } else {
                        if cp < 0x1032 {
                            WidthClass::One
                        } else {
                            WidthClass::Zero
                        }
                    }
                }
            }
        }
    }
}

fn lookup_width_class_32(cp: u32) -> (r: WidthClass)
    requires
        0xDD8 <= cp <= 0xECE,
    ensures
        r == width_class_of(cp),
{
    if cp < 0xE84 {
        if cp < 0xE32 {
            if cp < 0xDF0 {
                if cp < 0xDE0 {
                    if cp < 0xDDF {
                        WidthClass::One
                    } else {
                        WidthClass::Zero
                    }
                } else {
                    if cp < 0xDE6 {
                        WidthClass::Two
                    } else {
                        WidthClass::One
                    }
                }
            } else {
                if cp < 0xDF5 {
                    if cp < 0xDF2 {
                        WidthClass::Two
                    } else {
                        WidthClass::One
                    }
                } else {
                    if cp < 0xE01 {
                        WidthClass::Two
                    } else {
                        if cp < 0xE31 {
                            WidthClass::One
                        } else {
                            WidthClass::Zero
                        }
                    }
                }
            }
        } else {
            if cp < 0xE47 {
                if cp < 0xE3B {
                    if cp < 0xE34 {
                        WidthClass::One
                    } else {
                        WidthClass::Zero
                    }
                } else {
                    if cp < 0xE3F {
                        WidthClass::Two
                    } else {
                        WidthClass::One
                    }
                }
            } else {
                if cp < 0xE5C {
                    if cp < 0xE4F {
                        WidthClass::Zero
                    } else {
                        WidthClass::One
                    }
                } else {
                    if cp < 0xE81 {
                        WidthClass::Two
                    } else {
                        if cp < 0xE83 {
                            WidthClass::One
                        } else {
                            WidthClass::Two
                        }
                    }
                }
            }
        }
    } else {
        if cp < 0xEB1 {
            if cp < 0xE8C {
                if cp < 0xE86 {
                    if cp < 0xE85 {
                        WidthClass::One
                    } else {
                        WidthClass::Two
                    }
                } else {
                    if cp < 0xE8B {
                        WidthClass::One
                    } else {
                        WidthClass::Two
                    }
                }
            } else {
                if cp < 0xEA5 {
                    if cp < 0xEA4 {
                        WidthClass::One
                    } else {
                        WidthClass::Two
                    }
                } else {
                    if cp < 0xEA6 {
                        WidthClass::One
                    } else {
                        if cp < 0xEA7 {
                            WidthClass::Two
                        } else {
                            WidthClass::One
                        }
                    }
                }
            }
        } else {
            if cp < 0xEC0 {
                if cp < 0xEB4 {
                    if cp < 0xEB2 {
                        WidthClass::Zero
                    } else {
                        WidthClass::One
                    }
                } else {
                    if cp < 0xEBD {
                        WidthClass::Zero
                    } else {
                        if cp < 0xEBE {
                            WidthClass::One
                        } else {
                            WidthClass::Two
                        }
                    }
                }
            } else {
                if cp < 0xEC6 {
                    if cp < 0xEC5 {
                        WidthClass::One
                    } else {
                        WidthClass::Two
                    }
                } else {
                    if cp < 0xEC7 {
                        WidthClass::One
                    } else {
                        if cp < 0xEC8 {
                            WidthClass::Two
                        } else {
                            WidthClass::Zero
                        }
                    }
                }
            }
        }
    }
}

fn lookup_width_class_28(cp: u32) -> (r: WidthClass)
    requires
        0xC92 <= cp <= 0xDD7,
    ensures
        r == width_class_of(cp),
{
    if cp < 0xD3F {
        lookup_width_class_30(cp)
    } else {
        lookup_width_class_31(cp)
    }
}

fn lookup_width_class_31(cp: u32) -> (r: WidthClass)
    requires
        0xD3F <= cp <= 0xDD7,
    ensures
        r == width_class_of(cp),
{
    if cp < 0xD84 {
        if cp < 0xD54 {
            if cp < 0xD49 {
                if cp < 0xD45 {
                    if cp < 0xD41 {
                        WidthClass::One
                    } else {
                        WidthClass::Zero
                    }
                } else {
                    if cp < 0xD46 {
                        WidthClass::Two
                    } else {
                        WidthClass::One
                    }
                }
            } else {
                if cp < 0xD4D {
                    if cp < 0xD4A {
                        WidthClass::Two
                    } else {
                        WidthClass::One
                    }
                } else {
                    if cp < 0xD4E {
                        WidthClass::Zero
                    } else {
                        if cp < 0xD50 {
                            WidthClass::One
                        } else {
                            WidthClass::Two
                        }
                    }
                }
            }
        } else {
            if cp < 0xD64 {
                if cp < 0xD58 {
                    if cp < 0xD57 {
                        WidthClass::One
                    } else {
                        WidthClass::Zero
                    }
                } else {
                    if cp < 0xD62 {
                        WidthClass::One
                    } else {
                        WidthClass::Zero
                    }
                }
            } else {
                if cp < 0xD80 {
                    if cp < 0xD66 {
                        WidthClass::Two
                    } else {
                        WidthClass::One
                    }
                } else {
                    if cp < 0xD81 {
                        WidthClass::Two
                    } else {
                        if cp < 0xD82 {
                            WidthClass::Zero
                        } else {
                            WidthClass::One
                        }
                    }
                }
            }
        }
    } else {
        if cp < 0xDC0 {
            if cp < 0xDB2 {
                if cp < 0xD97 {
                    if cp < 0xD85 {
                        WidthClass::Two
                    } else {
                        WidthClass::One
                    }
                } else {
                    if cp < 0xD9A {
                        WidthClass::Two
                    } else {
                        WidthClass::One
                    }
                }
            } else {
                if cp < 0xDBC {
                    if cp < 0xDB3 {
                        WidthClass::Two
                    } else {
                        WidthClass::One
                    }
                } else {
                    if cp < 0xDBD {
                        WidthClass::Two
                    } else {
                        if cp < 0xDBE {
                            WidthClass::One
                        } else {
                            WidthClass::Two
                        }
                    }
                }
            }
        } else {
            if cp < 0xDD0 {
                if cp < 0xDCA {
                    if cp < 0xDC7 {
                        WidthClass::One
                    } else {
                        WidthClass::Two
                    }
                } else {
                    if cp < 0xDCB {
                        WidthClass::Zero
                    } else {
                        if cp < 0xDCF {
                            WidthClass::Two
                        } else {
                            WidthClass::Zero
                        }
                    }
                }
            } else {
                if cp < 0xDD5 {
                    if cp < 0xDD2 {
                        WidthClass::One
                    } else {
                        WidthClass::Zero
                    }
                } else {
                    if cp < 0xDD6 {
                        WidthClass::Two
                    } else {
                        if cp < 0xDD7 {
                            WidthClass::Zero
                        } else {
                            WidthClass::Two
                        }
                    }
                }
            }
        }
    }
}

fn lookup_width_class_30(cp: u32) -> (r: WidthClass)
    requires
        0xC92 <= cp <= 0xD3E,
    ensures
        r == width_class_of(cp),
{
    if cp < 0xCD7 {
        if cp < 0xCC1 {
            if cp < 0xCB5 {
                if cp < 0xCAA {
                    if cp < 0xCA9 {
                        WidthClass::One
                    } else {
                        WidthClass::Two
                    }
                } else {
                    if cp < 0xCB4 {
                        WidthClass::One
                    } else {
                        WidthClass::Two
                    }
                }
            } else {
                if cp < 0xCBC {
                    if cp < 0xCBA {
                        WidthClass::One
                    } else {
                        WidthClass::Two
                    }
                } else {
                    if cp < 0xCBD {
                        WidthClass::Zero
                    } else {
                        if cp < 0xCBF {
                            WidthClass::One
                        } else {
                            WidthClass::Zero
                        }
                    }
                }
            }
        } else {
            if cp < 0xCC6 {
                if cp < 0xCC3 {
                    if cp < 0xCC2 {
                        WidthClass::One
                    } else {
                        WidthClass::Zero
                    }
                } else {
                    if cp < 0xCC5 {
                        WidthClass::One
                    } else {
                        WidthClass::Two
                    }
                }
            } else {
                if cp < 0xCCA {
                    if cp < 0xCC9 {
                        WidthClass::Zero
                    } else {
                        WidthClass::Two
                    }
                } else {
                    if cp < 0xCCE {
                        WidthClass::Zero
                    } else {
                        if cp < 0xCD5 {
                            WidthClass::Two
                        } else {
                            WidthClass::Zero
                        }
                    }
                }
            }
        }
    } else {
        if cp < 0xCF4 {
            if cp < 0xCE2 {
                if cp < 0xCDF {
                    if cp < 0xCDC {
                        WidthClass::Two
                    } else {
                        WidthClass::One
                    }
                } else {
                    if cp < 0xCE0 {
                        WidthClass::Two
                    } else {
                        WidthClass::One
                    }
                }
            } else {
                if cp < 0xCE6 {
                    if cp < 0xCE4 {
                        WidthClass::Zero
                    } else {
                        WidthClass::Two
                    }
                } else {
                    if cp < 0xCF0 {
                        WidthClass::One
                    } else {
                        if cp < 0xCF1 {
                            WidthClass::Two
                        } else {
                            WidthClass::One
                        }
                    }
                }
            }
        } else {
            if cp < 0xD11 {
                if cp < 0xD02 {
                    if cp < 0xD00 {
                        WidthClass::Two
                    } else {
                        WidthClass::Zero
                    }
                } else {
                    if cp < 0xD0D {
                        WidthClass::One
                    } else {
                        if cp < 0xD0E {
                            WidthClass::Two
                        } else {
                            WidthClass::One
                        }
                    }
                }
            } else {
                if cp < 0xD3B {
                    if cp < 0xD12 {
                        WidthClass::Two
                    } else {
                        WidthClass::One
                    }
                } else {
                    if cp < 0xD3D {
                        WidthClass::Zero
                    } else {
                        if cp < 0xD3E {
                            WidthClass::One
                        } else {
                            WidthClass::Zero
                        }
                    }
                }
            }
        }
    }
}

fn lookup_width_class_20(cp: u32) -> (r: WidthClass)
    requires
        0xA72 <= cp <= 0xC91,
    ensures
        r == width_class_of(cp),
{
    if cp < 0xB82 {
        lookup_width_class_22(cp)
    } else {
        lookup_width_class_23(cp)
    }
}

fn lookup_width_class_23(cp: u32) -> (r: WidthClass)
    requires
        0xB82 <= cp <= 0xC91,
    ensures
        r == width_class_of(cp),
{
    if cp < 0xC00 {
        lookup_width_class_26(cp)
    } else {
        lookup_width_class_27(cp)
    }
}

fn lookup_width_class_27(cp: u32) -> (r: WidthClass)
    requires
        0xC00 <= cp <= 0xC91,
    ensures
        r == width_class_of(cp),
{
    if cp < 0xC4A {
        if cp < 0xC2A {
            if cp < 0xC0D {
                if cp < 0xC04 {
                    if cp < 0xC01 {
                        WidthClass::Zero
                    } else {
                        WidthClass::One
                    }
                } else {
                    if cp < 0xC05 {
                        WidthClass::Zero
                    } else {
                        WidthClass::One
                    }
                }
            } else {
                if cp < 0xC11 {
                    if cp < 0xC0E {
                        WidthClass::Two
                    } else {
                        WidthClass::One
                    }
                } else {
                    if cp < 0xC12 {
                        WidthClass::Two
                    } else {
                        if cp < 0xC29 {
                            WidthClass::One
                        } else {
                            WidthClass::Two
                        }
                    }
                }
            }
        } else {
            if cp < 0xC3E {
                if cp < 0xC3C {
                    if cp < 0xC3A {
                        WidthClass::One
                    } else {
                        WidthClass::Two
                    }
                } else {
                    if cp < 0xC3D {
                        WidthClass::Zero
                    } else {
                        WidthClass::One
                    }
                }
            } else {
                if cp < 0xC45 {
                    if cp < 0xC41 {
                        WidthClass::Zero
                    } else {
                        WidthClass::One
                    }
                } else {
                    if cp < 0xC46 {
                        WidthClass::Two
                    } else {
                        if cp < 0xC49 {
                            WidthClass::Zero
                        } else {
                            WidthClass::Two
                        }
                    }
                }
            }
        }
    } else {
        if cp < 0xC62 {
            if cp < 0xC58 {
                if cp < 0xC55 {
                    if cp < 0xC4E {
                        WidthClass::Zero
                    } else {
                        WidthClass::Two
                    }
                } else {
                    if cp < 0xC57 {
                        WidthClass::Zero
                    } else {
                        WidthClass::Two
                    }
                }
            } else {
                if cp < 0xC5C {
                    if cp < 0xC5B {
                        WidthClass::One
                    } else {
                        WidthClass::Two
                    }
                } else {
                    if cp < 0xC5E {
                        WidthClass::One
                    } else {
                        if cp < 0xC60 {
                            WidthClass::Two
                        } else {
                            WidthClass::One
                        }
                    }
                }
            }
        } else {
            if cp < 0xC81 {
                if cp < 0xC66 {
                    if cp < 0xC64 {
                        WidthClass::Zero
                    } else {
                        WidthClass::Two
                    }
                } else {
                    if cp < 0xC70 {
                        WidthClass::One
                    } else {
                        if cp < 0xC77 {
                            WidthClass::Two
                        } else {
                            WidthClass::One
                        }
                    }
                }
            } else {
                if cp < 0xC8D {
                    if cp < 0xC82 {
                        WidthClass::Zero
                    } else {
                        WidthClass::One
                    }
                } else {
                    if cp < 0xC8E {
                        WidthClass::Two
                    } else {
                        if cp < 0xC91 {
                            WidthClass::One
                        } else {
                            WidthClass::Two
                        }
                    }
                }
            }
        }
    }
}

fn lookup_width_class_26(cp: u32) -> (r: WidthClass)
    requires
        0xB82 <= cp <= 0xBFF,
    ensures
        r == width_class_of(cp),
{
    if cp < 0xBAB {
        if cp < 0xB99 {
            if cp < 0xB8B {
                if cp < 0xB84 {
                    if cp < 0xB83 {
                        WidthClass::Zero
                    } else {
                        WidthClass::One
                    }
                } else {
                    if cp < 0xB85 {
                        WidthClass::Two
                    } else {
                        WidthClass::One
                    }
                }
            } else {
                if cp < 0xB91 {
                    if cp < 0xB8E {
                        WidthClass::Two
                    } else {
                        WidthClass::One
                    }
                } else {
                    if cp < 0xB92 {
                        WidthClass::Two
                    } else {
                        if cp < 0xB96 {
                            WidthClass::One
                        } else {
                            WidthClass::Two
                        }
                    }
                }
            }
        } else {
            if cp < 0xB9E {
                if cp < 0xB9C {
                    if cp < 0xB9B {
                        WidthClass::One
                    } else {
                        WidthClass::Two
                    }
                } else {
                    if cp < 0xB9D {
                        WidthClass::One
                    } else {
                        WidthClass::Two
                    }
                }
            } else {
                if cp < 0xBA3 {
                    if cp < 0xBA0 {
                        WidthClass::One
                    } else {
                        WidthClass::Two
                    }
                } else {
                    if cp < 0xBA5 {
                        WidthClass::One
                    } else {
                        if cp < 0xBA8 {
                            WidthClass::Two
                        } else {
                            WidthClass::One
                        }
                    }
                }
            }
        }
    } else {
        if cp < 0xBC9 {
            if cp < 0xBBF {
                if cp < 0xBBA {
                    if cp < 0xBAE {
                        WidthClass::Two
                    } else {
                        WidthClass::One
                    }
                } else {
                    if cp < 0xBBE {
                        WidthClass::Two
                    } else {
                        WidthClass::Zero
                    }
                }
            } else {
                if cp < 0xBC1 {
                    if cp < 0xBC0 {
                        WidthClass::One
                    } else {
                        WidthClass::Zero
                    }
                } else {
                    if cp < 0xBC3 {
                        WidthClass::One
                    } else {
                        if cp < 0xBC6 {
                            WidthClass::Two
                        } else {
                            WidthClass::One
                        }
                    }
                }
            }
        } else {
            if cp < 0xBD1 {
                if cp < 0xBCD {
                    if cp < 0xBCA {
                        WidthClass::Two
                    } else {
                        WidthClass::One
                    }
                } else {
                    if cp < 0xBCE {
                        WidthClass::Zero
                    } else {
                        if cp < 0xBD0 {
                            WidthClass::Two
                        } else {
                            WidthClass::One
                        }
                    }
                }
            } else {
                if cp < 0xBD8 {
                    if cp < 0xBD7 {
                        WidthClass::Two
                    } else {
                        WidthClass::Zero
                    }
                } else {
                    if cp < 0xBE6 {
                        WidthClass::Two
                    } else {
                        if cp < 0xBFB {
                            WidthClass::One
                        } else {
                            WidthClass::Two
                        }
                    }
                }
            }
        }
    }
}

fn lookup_width_class_22(cp: u32) -> (r: WidthClass)
    requires
        0xA72 <= cp <= 0xB81,
    ensures
        r == width_class_of(cp),
{
    if cp < 0xAFA {
        lookup_width_class_24(cp)
    } else {
        lookup_width_class_25(cp)
    }
}

fn lookup_width_class_25(cp: u32) -> (r: WidthClass)
    requires
        0xAFA <= cp <= 0xB81,
    ensures
        r == width_class_of(cp),
{
    if cp < 0xB3D {
        if cp < 0xB13 {
            if cp < 0xB04 {
                if cp < 0xB01 {
                    if cp < 0xB00 {
                        WidthClass::Zero
                    } else {
                        WidthClass::Two
                    }
                } else {
                    if cp < 0xB02 {
                        WidthClass::Zero
                    } else {
                        WidthClass::One
                    }
                }
            } else {
                if cp < 0xB0D {
                    if cp < 0xB05 {
                        WidthClass::Two
                    } else {
                        WidthClass::One
                    }
                } else {
                    if cp < 0xB0F {
                        WidthClass::Two
                    } else {
                        if cp < 0xB11 {
                            WidthClass::One
                        } else {
                            WidthClass::Two
                        }
                    }
                }
            }
        } else {
            if cp < 0xB32 {
                if cp < 0xB2A {
                    if cp < 0xB29 {
                        WidthClass::One
                    } else {
                        WidthClass::Two
                    }
                } else {
                    if cp < 0xB31 {
                        WidthClass::One
                    } else {
                        WidthClass::Two
                    }
                }
            } else {
                if cp < 0xB35 {
                    if cp < 0xB34 {
                        WidthClass::One
                    } else {
                        WidthClass::Two
                    }
                } else {
                    if cp < 0xB3A {
                        WidthClass::One
                    } else {
                        if cp < 0xB3C {
                            WidthClass::Two
                        } else {
                            WidthClass::Zero
                        }
                    }
                }
            }
        }
    } else {
        if cp < 0xB4E {
            if cp < 0xB45 {
                if cp < 0xB40 {
                    if cp < 0xB3E {
                        WidthClass::One
                    } else {
                        WidthClass::Zero
                    }
                } else {
                    if cp < 0xB41 {
                        WidthClass::One
                    } else {
                        WidthClass::Zero
                    }
                }
            } else {
                if cp < 0xB49 {
                    if cp < 0xB47 {
                        WidthClass::Two
                    } else {
                        WidthClass::One
                    }
                } else {
                    if cp < 0xB4B {
                        WidthClass::Two
                    } else {
                        if cp < 0xB4D {
                            WidthClass::One
                        } else {
                            WidthClass::Zero
                        }
                    }
                }
            }
        } else {
            if cp < 0xB5F {
                if cp < 0xB58 {
                    if cp < 0xB55 {
                        WidthClass::Two
                    } else {
                        WidthClass::Zero
                    }
                } else {
                    if cp < 0xB5C {
                        WidthClass::Two
                    } else {
                        if cp < 0xB5E {
                            WidthClass::One
                        } else {
                            WidthClass::Two
                        }
                    }
                }
            } else {
                if cp < 0xB64 {
                    if cp < 0xB62 {
                        WidthClass::One
                    } else {
                        WidthClass::Zero
                    }
                } else {
                    if cp < 0xB66 {
                        WidthClass::Two
                    } else {
                        if cp < 0xB78 {
                            WidthClass::One
                        } else {
                            WidthClass::Two
                        }
                    }
                }
            }
        }
    }
}

fn lookup_width_class_24(cp: u32) -> (r: WidthClass)
    requires
        0xA72 <= cp <= 0xAF9,
    ensures
        r == width_class_of(cp),
{
    if cp < 0xABA {
        if cp < 0xA8F {
            if cp < 0xA81 {
                if cp < 0xA76 {
                    if cp < 0xA75 {
                        WidthClass::One
                    } else {
                        WidthClass::Zero
                    }
                } else {
                    if cp < 0xA77 {
                        WidthClass::One
                    } else {
                        WidthClass::Two
                    }
                }
            } else {
                if cp < 0xA84 {
                    if cp < 0xA83 {
                        WidthClass::Zero
                    } else {
                        WidthClass::One
                    }
                } else {
                    if cp < 0xA85 {
                        WidthClass::Two
                    } else {
                        if cp < 0xA8E {
                            WidthClass::One
                        } else {
                            WidthClass::Two
                        }
                    }
                }
            }
        } else {
            if cp < 0xAAA {
                if cp < 0xA93 {
                    if cp < 0xA92 {
                        WidthClass::One
                    } else {
                        WidthClass::Two
                    }
                } else {
                    if cp < 0xAA9 {
                        WidthClass::One
                    } else {
                        WidthClass::Two
                    }
                }
            } else {
                if cp < 0xAB2 {
                    if cp < 0xAB1 {
                        WidthClass::One
                    } else {
                        WidthClass::Two
                    }
                } else {
                    if cp < 0xAB4 {
                        WidthClass::One
                    } else {
                        if cp < 0xAB5 {
                            WidthClass::Two
                        } else {
                            WidthClass::One
                        }
                    }
                }
            }
        }
    } else {
        if cp < 0xACD {
            if cp < 0xAC6 {
                if cp < 0xABD {
                    if cp < 0xABC {
                        WidthClass::Two
                    } else {
                        WidthClass::Zero
                    }
                } else {
                    if cp < 0xAC1 {
                        WidthClass::One
                    } else {
                        WidthClass::Zero
                    }
                }
            } else {
                if cp < 0xAC9 {
                    if cp < 0xAC7 {
                        WidthClass::Two
                    } else {
                        WidthClass::Zero
                    }
                } else {
                    if cp < 0xACA {
                        WidthClass::One
                    } else {
                        if cp < 0xACB {
                            WidthClass::Two
                        } else {
                            WidthClass::One
                        }
                    }
                }
            }
        } else {
            if cp < 0xAE2 {
                if cp < 0xAD0 {
                    if cp < 0xACE {
                        WidthClass::Zero
                    } else {
                        WidthClass::Two
                    }
                } else {
                    if cp < 0xAD1 {
                        WidthClass::One
                    } else {
                        if cp < 0xAE0 {
                            WidthClass::Two
                        } else {
                            WidthClass::One
                        }
                    }
                }
            } else {
                if cp < 0xAE6 {
                    if cp < 0xAE4 {
                        WidthClass::Zero
                    } else {
                        WidthClass::Two
                    }
                } else {
                    if cp < 0xAF2 {
                        WidthClass::One
                    } else {
                        if cp < 0xAF9 {
                            WidthClass::Two
                        } else {
                            WidthClass::One
                        }
                    }
                }
            }
        }
    }
}

fn lookup_width_class_4(cp: u32) -> (r: WidthClass)
    requires
        0x0 <= cp <= 0xA71,
    ensures
        r == width_class_of(cp),
{
    if cp < 0x5C6 {
        lookup_width_class_6(cp)
    } else {
        lookup_width_class_7(cp)
    }
}

fn lookup_width_class_7(cp: u32) -> (r: WidthClass)
    requires
        0x5C6 <= cp <= 0xA71,
    ensures
        r == width_class_of(cp),
{
    if cp < 0x958 {
        lookup_width_class_14(cp)
    } else {
        lookup_width_class_15(cp)
    }
}

fn lookup_width_class_15(cp: u32) -> (r: WidthClass)
    requires
        0x958 <= cp <= 0xA71,
    ensures
        r == width_class_of(cp),
{
    if cp < 0x9E6 {
        lookup_width_class_18(cp)
    } else {
        lookup_width_class_19(cp)
    }
}

fn lookup_width_class_19(cp: u32) -> (r: WidthClass)
    requires
        0x9E6 <= cp <= 0xA71,
    ensures
        r == width_class_of(cp),
{
    if cp < 0xA38 {
        if cp < 0xA11 {
            if cp < 0xA03 {
                if cp < 0x9FF {
                    if cp < 0x9FE {
                        WidthClass::One
                    } else {
                        WidthClass::Zero
                    }
                } else {
                    if cp < 0xA01 {
                        WidthClass::Two
                    } else {
                        WidthClass::Zero
                    }
                }
            } else {
                if cp < 0xA05 {
                    if cp < 0xA04 {
                        WidthClass::One
                    } else {
                        WidthClass::Two
                    }
                } else {
                    if cp < 0xA0B {
                        WidthClass::One
                    } else {
                        if cp < 0xA0F {
                            WidthClass::Two
                        } else {
                            WidthClass::One
                        }
                    }
                }
            }
        } else {
            if cp < 0xA31 {
                if cp < 0xA29 {
                    if cp < 0xA13 {
                        WidthClass::Two
                    } else {
                        WidthClass::One
                    }
                } else {
                    if cp < 0xA2A {
                        WidthClass::Two
                    } else {
                        WidthClass::One
                    }
                }
            } else {
                if cp < 0xA34 {
                    if cp < 0xA32 {
                        WidthClass::Two
                    } else {
                        WidthClass::One
                    }
                } else {
                    if cp < 0xA35 {
                        WidthClass::Two
                    } else {
                        if cp < 0xA37 {
                            WidthClass::One
                        } else {
                            WidthClass::Two
                        }
                    }
                }
            }
        }
    } else {
        if cp < 0xA4B {
            if cp < 0xA3E {
                if cp < 0xA3C {
                    if cp < 0xA3A {
                        WidthClass::One
                    } else {
                        WidthClass::Two
                    }
                } else {
                    if cp < 0xA3D {
                        WidthClass::Zero
                    } else {
                        WidthClass::Two
                    }
                }
            } else {
                if cp < 0xA43 {
                    if cp < 0xA41 {
                        WidthClass::One
                    } else {
                        WidthClass::Zero
                    }
                } else {
                    if cp < 0xA47 {
                        WidthClass::Two
                    } else {
                        if cp < 0xA49 {
                            WidthClass::Zero
                        } else {
                            WidthClass::Two
                        }
                    }
                }
            }
        } else {
            if cp < 0xA5D {
                if cp < 0xA51 {
                    if cp < 0xA4E {
                        WidthClass::Zero
                    } else {
                        WidthClass::Two
                    }
                } else {
                    if cp < 0xA52 {
                        WidthClass::Zero
                    } else {
                        if cp < 0xA59 {
                            WidthClass::Two
                        } else {
                            WidthClass::One
                        }
                    }
                }
            } else {
                if cp < 0xA5F {
                    if cp < 0xA5E {
                        WidthClass::Two
                    } else {
                        WidthClass::One
                    }
                } else {
                    if cp < 0xA66 {
                        WidthClass::Two
                    } else {
                        if cp < 0xA70 {
                            WidthClass::One
                        } else {
                            WidthClass::Zero
                        }
                    }
                }
            }
        }
    }
}

fn lookup_width_class_18(cp: u32) -> (r: WidthClass)
    requires
        0x958 <= cp <= 0x9E5,
    ensures
        r == width_class_of(cp),
{
    if cp < 0x9BC {
        if cp < 0x991 {
            if cp < 0x982 {
                if cp < 0x964 {
                    if cp < 0x962 {
                        WidthClass::One
                    } else {
                        WidthClass::Zero
                    }
                } else {
                    if cp < 0x981 {
                        WidthClass::One
                    } else {
                        WidthClass::Zero
                    }
                }
            } else {
                if cp < 0x985 {
                    if cp < 0x984 {
                        WidthClass::One
                    } else {
                        WidthClass::Two
                    }
                } else {
                    if cp < 0x98D {
                        WidthClass::One
                    } else {
                        if cp < 0x98F {
                            WidthClass::Two
                        } else {
                            WidthClass::One
                        }
                    }
                }
            }
        } else {
            if cp < 0x9B1 {
                if cp < 0x9A9 {
                    if cp < 0x993 {
                        WidthClass::Two
                    } else {
                        WidthClass::One
                    }
                } else {
                    if cp < 0x9AA {
                        WidthClass::Two
                    } else {
                        WidthClass::One
                    }
                }
            } else {
                if cp < 0x9B3 {
                    if cp < 0x9B2 {
                        WidthClass::Two
                    } else {
                        WidthClass::One
                    }
                } else {
                    if cp < 0x9B6 {
                        WidthClass::Two
                    } else {
                        if cp < 0x9BA {
                            WidthClass::One
                        } else {
                            WidthClass::Two
                        }
                    }
                }
            }
        }
    } else {
        if cp < 0x9CD {
            if cp < 0x9C1 {
                if cp < 0x9BE {
                    if cp < 0x9BD {
                        WidthClass::Zero
                    } else {
                        WidthClass::One
                    }
                } else {
                    if cp < 0x9BF {
                        WidthClass::Zero
                    } else {
                        WidthClass::One
                    }
                }
            } else {
                if cp < 0x9C7 {
                    if cp < 0x9C5 {
                        WidthClass::Zero
                    } else {
                        WidthClass::Two
                    }
                } else {
                    if cp < 0x9C9 {
                        WidthClass::One
                    } else {
                        if cp < 0x9CB {
                            WidthClass::Two
                        } else {
                            WidthClass::One
                        }
                    }
                }
            }
        } else {
            if cp < 0x9DC {
                if cp < 0x9CF {
                    if cp < 0x9CE {
                        WidthClass::Zero
                    } else {
                        WidthClass::One
                    }
                } else {
                    if cp < 0x9D7 {
                        WidthClass::Two
                    } else {
                        if cp < 0x9D8 {
                            WidthClass::Zero
                        } else {
                            WidthClass::Two
                        }
                    }
                }
            } else {
                if cp < 0x9DF {
                    if cp < 0x9DE {
                        WidthClass::One
                    } else {
                        WidthClass::Two
                    }
                } else {
                    if cp < 0x9E2 {
                        WidthClass::One
                    } else {
                        if cp < 0x9E4 {
                            WidthClass::Zero
                        } else {
                            WidthClass::Two
                        }
                    }
                }
            }
        }
    }
}

fn lookup_width_class_14(cp: u32) -> (r: WidthClass)
    requires
        0x5C6 <= cp <= 0x957,
    ensures
        r == width_class_of(cp),
{
    if cp < 0x7FB {
        lookup_width_class_16(cp)
    } else {
        lookup_width_class_17(cp)
    }
}

fn lookup_width_class_17(cp: u32) -> (r: WidthClass)
    requires
        0x7FB <= cp <= 0x957,
    ensures
        r == width_class_of(cp),
{
    if cp < 0x860 {
        if cp < 0x829 {
            if cp < 0x81A {
                if cp < 0x7FE {
                    if cp < 0x7FD {
                        WidthClass::Two
                    } else {
                        WidthClass::Zero
                    }
                } else {
                    if cp < 0x816 {
                        WidthClass::One
                    } else {
                        WidthClass::Zero
                    }
                }
            } else {
                if cp < 0x824 {
                    if cp < 0x81B {
                        WidthClass::One
                    } else {
                        WidthClass::Zero
                    }
                } else {
                    if cp < 0x825 {
                        WidthClass::One
                    } else {
                        if cp < 0x828 {
                            WidthClass::Zero
                        } else {
                            WidthClass::One
                        }
                    }
                }
            }
        } else {
            if cp < 0x840 {
                if cp < 0x830 {
                    if cp < 0x82E {
                        WidthClass::Zero
                    } else {
                        WidthClass::Two
                    }
                } else {
                    if cp < 0x83F {
                        WidthClass::One
                    } else {
                        WidthClass::Two
                    }
                }
            } else {
                if cp < 0x85C {
                    if cp < 0x859 {
                        WidthClass::One
                    } else {
                        WidthClass::Zero
                    }
                } else {
                    if cp < 0x85E {
                        WidthClass::Two
                    } else {
                        if cp < 0x85F {
                            WidthClass::One
                        } else {
                            WidthClass::Two
                        }
                    }
                }
            }
        }
    } else {
        if cp < 0x903 {
            if cp < 0x897 {
                if cp < 0x870 {
                    if cp < 0x86B {
                        WidthClass::One
                    } else {
                        WidthClass::Two
                    }
                } else {
                    if cp < 0x892 {
                        WidthClass::One
                    } else {
                        WidthClass::Two
                    }
                }
            } else {
                if cp < 0x8CA {
                    if cp < 0x8A0 {
                        WidthClass::Zero
                    } else {
                        WidthClass::One
                    }
                } else {
                    if cp < 0x8E2 {
                        WidthClass::Zero
                    } else {
                        if cp < 0x8E3 {
                            WidthClass::One
                        } else {
                            WidthClass::Zero
                        }
                    }
                }
            }
        } else {
            if cp < 0x941 {
                if cp < 0x93B {
                    if cp < 0x93A {
                        WidthClass::One
                    } else {
                        WidthClass::Zero
                    }
                } else {
                    if cp < 0x93C {
                        WidthClass::One
                    } else {
                        if cp < 0x93D {
                            WidthClass::Zero
                        } else {
                            WidthClass::One
                        }
                    }
                }
            } else {
                if cp < 0x94D {
                    if cp < 0x949 {
                        WidthClass::Zero
                    } else {
                        WidthClass::One
                    }
                } else {
                    if cp < 0x94E {
                        WidthClass::Zero
                    } else {
                        if cp < 0x951 {
                            WidthClass::One
                        } else {
                            WidthClass::Zero
                        }
                    }
                }
            }
        }
    }
}

fn lookup_width_class_16(cp: u32) -> (r: WidthClass)
    requires
        0x5C6 <= cp <= 0x7FA,
    ensures
        r == width_class_of(cp),
{
    if cp < 0x6DF {
        if cp < 0x61B {
            if cp < 0x5EB {
                if cp < 0x5C8 {
                    if cp < 0x5C7 {
                        WidthClass::One
                    } else {
                        WidthClass::Zero
                    }
                } else {
                    if cp < 0x5D0 {
                        WidthClass::Two
                    } else {
                        WidthClass::One
                    }
                }
            } else {
                if cp < 0x5F5 {
                    if cp < 0x5EF {
                        WidthClass::Two
                    } else {
                        WidthClass::One
                    }
                } else {
                    if cp < 0x600 {
                        WidthClass::Two
                    } else {
                        if cp < 0x610 {
                            WidthClass::One
                        } else {
                            WidthClass::Zero
                        }
                    }
                }
            }
        } else {
            if cp < 0x660 {
                if cp < 0x61D {
                    if cp < 0x61C {
                        WidthClass::One
                    } else {
                        WidthClass::Zero
                    }
                } else {
                    if cp < 0x64B {
                        WidthClass::One
                    } else {
                        WidthClass::Zero
                    }
                }
            } else {
                if cp < 0x671 {
                    if cp < 0x670 {
                        WidthClass::One
                    } else {
                        WidthClass::Zero
                    }
                } else {
                    if cp < 0x6D6 {
                        WidthClass::One
                    } else {
                        if cp < 0x6DD {
                            WidthClass::Zero
                        } else {
                            WidthClass::One
                        }
                    }
                }
            }
        }
    } else {
        if cp < 0x712 {
            if cp < 0x6EA {
                if cp < 0x6E7 {
                    if cp < 0x6E5 {
                        WidthClass::Zero
                    } else {
                        WidthClass::One
                    }
                } else {
                    if cp < 0x6E9 {
                        WidthClass::Zero
                    } else {
                        WidthClass::One
                    }
                }
            } else {
                if cp < 0x70E {
                    if cp < 0x6EE {
                        WidthClass::Zero
                    } else {
                        WidthClass::One
                    }
                } else {
                    if cp < 0x70F {
                        WidthClass::Two
                    } else {
                        if cp < 0x711 {
                            WidthClass::One
                        } else {
                            WidthClass::Zero
                        }
                    }
                }
            }
        } else {
            if cp < 0x7B1 {
                if cp < 0x74B {
                    if cp < 0x730 {
                        WidthClass::One
                    } else {
                        WidthClass::Zero
                    }
                } else {
                    if cp < 0x74D {
                        WidthClass::Two
                    } else {
                        if cp < 0x7A6 {
                            WidthClass::One
                        } else {
                            WidthClass::Zero
                        }
                    }
                }
            } else {
                if cp < 0x7C0 {
                    if cp < 0x7B2 {
                        WidthClass::One
                    } else {
                        WidthClass::Two
                    }
                } else {
                    if cp < 0x7EB {
                        WidthClass::One
                    } else {
                        if cp < 0x7F4 {
                            WidthClass::Zero
                        } else {
                            WidthClass::One
                        }
                    }
                }
            }
        }
    }
}

fn lookup_width_class_6(cp: u32) -> (r: WidthClass)
    requires
        0x0 <= cp <= 0x5C5,
    ensures
        r == width_class_of(cp),
{
    if cp < 0x1D0 {
        lookup_width_class_8(cp)
    } else {
        lookup_width_class_9(cp)
    }
}

fn lookup_width_class_9(cp: u32) -> (r: WidthClass)
    requires
        0x1D0 <= cp <= 0x5C5,
    ensures
        r == width_class_of(cp),
{
    if cp < 0x37A {
        lookup_width_class_12(cp)
    } else {
        lookup_width_class_13(cp)
    }
}

fn lookup_width_class_13(cp: u32) -> (r: WidthClass)
    requires
        0x37A <= cp <= 0x5C5,
    ensures
        r == width_class_of(cp),
{
    if cp < 0x450 {
        if cp < 0x3A3 {
            if cp < 0x38C {
                if cp < 0x384 {
                    if cp < 0x380 {
                        WidthClass::One
                    } else {
                        WidthClass::Two
                    }
                } else {
                    if cp < 0x38B {
                        WidthClass::One
                    } else {
                        WidthClass::Two
                    }
                }
            } else {
                if cp < 0x38E {
                    if cp < 0x38D {
                        WidthClass::One
                    } else {
                        WidthClass::Two
                    }
                } else {
                    if cp < 0x391 {
                        WidthClass::One
                    } else {
                        if cp < 0x3A2 {
                            WidthClass::Ambiguous
                        } else {
                            WidthClass::Two
                        }
                    }
                }
            }
        } else {
            if cp < 0x3C3 {
                if cp < 0x3B1 {
                    if cp < 0x3AA {
                        WidthClass::Ambiguous
                    } else {
                        WidthClass::One
                    }
                } else {
                    if cp < 0x3C2 {
                        WidthClass::Ambiguous
                    } else {
                        WidthClass::One
                    }
                }
            } else {
                if cp < 0x401 {
                    if cp < 0x3CA {
                        WidthClass::Ambiguous
                    } else {
                        WidthClass::One
                    }
                } else {
                    if cp < 0x402 {
                        WidthClass::Ambiguous
                    } else {
                        if cp < 0x410 {
                            WidthClass::One
                        } else {
                            WidthClass::Ambiguous
                        }
                    }
                }
            }
        }
    } else {
        if cp < 0x58B {
            if cp < 0x48A {
                if cp < 0x452 {
                    if cp < 0x451 {
                        WidthClass::One
                    } else {
                        WidthClass::Ambiguous
                    }
                } else {
                    if cp < 0x483 {
                        WidthClass::One
                    } else {
                        WidthClass::Zero
                    }
                }
            } else {
                if cp < 0x531 {
                    if cp < 0x530 {
                        WidthClass::One
                    } else {
                        WidthClass::Two
                    }
                } else {
                    if cp < 0x557 {
                        WidthClass::One
                    } else {
                        if cp < 0x559 {
                            WidthClass::Two
                        } else {
                            WidthClass::One
                        }
                    }
                }
            }
        } else {
            if cp < 0x5BF {
                if cp < 0x590 {
                    if cp < 0x58D {
                        WidthClass::Two
                    } else {
                        WidthClass::One
                    }
                } else {
                    if cp < 0x591 {
                        WidthClass::Two
                    } else {
                        if cp < 0x5BE {
                            WidthClass::Zero
                        } else {
                            WidthClass::One
                        }
                    }
                }
            } else {
                if cp < 0x5C1 {
                    if cp < 0x5C0 {
                        WidthClass::Zero
                    } else {
                        WidthClass::One
                    }
                } else {
                    if cp < 0x5C3 {
                        WidthClass::Zero
                    } else {
                        if cp < 0x5C4 {
                            WidthClass::One
                        } else {
                            WidthClass::Zero
                        }
                    }
                }
            }
        }
    }
}

fn lookup_width_class_12(cp: u32) -> (r: WidthClass)
    requires
        0x1D0 <= cp <= 0x379,
    ensures
        r == width_class_of(cp),
{
    if cp < 0x2C4 {
        if cp < 0x1D9 {
            if cp < 0x1D4 {
                if cp < 0x1D2 {
                    if cp < 0x1D1 {
                        WidthClass::Ambiguous
                    } else {
                        WidthClass::One
                    }
                } else {
                    if cp < 0x1D3 {
                        WidthClass::Ambiguous
                    } else {
                        WidthClass::One
                    }
                }
            } else {
                if cp < 0x1D6 {
                    if cp < 0x1D5 {
                        WidthClass::Ambiguous
                    } else {
                        WidthClass::One
                    }
                } else {
                    if cp < 0x1D7 {
                        WidthClass::Ambiguous
                    } else {
                        if cp < 0x1D8 {
                            WidthClass::One
                        } else {
                            WidthClass::Ambiguous
                        }
                    }
                }
            }
        } else {
            if cp < 0x1DD {
                if cp < 0x1DB {
                    if cp < 0x1DA {
                        WidthClass::One
                    } else {
                        WidthClass::Ambiguous
                    }
                } else {
                    if cp < 0x1DC {
                        WidthClass::One
                    } else {
                        WidthClass::Ambiguous
                    }
                }
            } else {
                if cp < 0x252 {
                    if cp < 0x251 {
                        WidthClass::One
                    } else {
                        WidthClass::Ambiguous
                    }
                } else {
                    if cp < 0x261 {
                        WidthClass::One
                    } else {
                        if cp < 0x262 {
                            WidthClass::Ambiguous
                        } else {
                            WidthClass::One
                        }
                    }
                }
            }
        }
    } else {
        if cp < 0x2D1 {
            if cp < 0x2C9 {
                if cp < 0x2C7 {
                    if cp < 0x2C5 {
                        WidthClass::Ambiguous
                    } else {
                        WidthClass::One
                    }
                } else {
                    if cp < 0x2C8 {
                        WidthClass::Ambiguous
                    } else {
                        WidthClass::One
                    }
                }
            } else {
                if cp < 0x2CD {
                    if cp < 0x2CC {
                        WidthClass::Ambiguous
                    } else {
                        WidthClass::One
                    }
                } else {
                    if cp < 0x2CE {
                        WidthClass::Ambiguous
                    } else {
                        if cp < 0x2D0 {
                            WidthClass::One
                        } else {
                            WidthClass::Ambiguous
                        }
                    }
                }
            }
        } else {
            if cp < 0x2DF {
                if cp < 0x2DC {
                    if cp < 0x2D8 {
                        WidthClass::One
                    } else {
                        WidthClass::Ambiguous
                    }
                } else {
                    if cp < 0x2DD {
                        WidthClass::One
                    } else {
                        if cp < 0x2DE {
                            WidthClass::Ambiguous
                        } else {
                            WidthClass::One
                        }
                    }
                }
            } else {
                if cp < 0x300 {
                    if cp < 0x2E0 {
                        WidthClass::Ambiguous
                    } else {
                        WidthClass::One
                    }
                } else {
                    if cp < 0x370 {
                        WidthClass::Zero
                    } else {
                        if cp < 0x378 {
                            WidthClass::One
                        } else {
                            WidthClass::Two
                        }
                    }
                }
            }
        }
    }
}

fn lookup_width_class_8(cp: u32) -> (r: WidthClass)
    requires
        0x0 <= cp <= 0x1CF,
    ensures
        r == width_class_of(cp),
{
    if cp < 0xFB {
        lookup_width_class_10(cp)
    } else {
        lookup_width_class_11(cp)
    }
}

fn lookup_width_class_11(cp: u32) -> (r: WidthClass)
    requires
        0xFB <= cp <= 0x1CF,
    ensures
        r == width_class_of(cp),
{
    if cp < 0x134 {
        if cp < 0x113 {
            if cp < 0xFF {
                if cp < 0xFD {
                    if cp < 0xFC {
                        WidthClass::One
                    } else {
                        WidthClass::Ambiguous
                    }
                } else {
                    if cp < 0xFE {
                        WidthClass::One
                    } else {
                        WidthClass::Ambiguous
                    }
                }
            } else {
                if cp < 0x102 {
                    if cp < 0x101 {
                        WidthClass::One
                    } else {
                        WidthClass::Ambiguous
                    }
                } else {
                    if cp < 0x111 {
                        WidthClass::One
                    } else {
                        if cp < 0x112 {
                            WidthClass::Ambiguous
                        } else {
                            WidthClass::One
                        }
                    }
                }
            }
        } else {
            if cp < 0x126 {
                if cp < 0x11B {
                    if cp < 0x114 {
                        WidthClass::Ambiguous
                    } else {
                        WidthClass::One
                    }
                } else {
                    if cp < 0x11C {
                        WidthClass::Ambiguous
                    } else {
                        WidthClass::One
                    }
                }
            } else {
                if cp < 0x12B {
                    if cp < 0x128 {
                        WidthClass::Ambiguous
                    } else {
                        WidthClass::One
                    }
                } else {
                    if cp < 0x12C {
                        WidthClass::Ambiguous
                    } else {
                        if cp < 0x131 {
                            WidthClass::One
                        } else {
                            WidthClass::Ambiguous
                        }
                    }
                }
            }
        }
    } else {
        if cp < 0x14D {
            if cp < 0x143 {
                if cp < 0x139 {
                    if cp < 0x138 {
                        WidthClass::One
                    } else {
                        WidthClass::Ambiguous
                    }
                } else {
                    if cp < 0x13F {
                        WidthClass::One
                    } else {
                        WidthClass::Ambiguous
                    }
                }
            } else {
                if cp < 0x145 {
                    if cp < 0x144 {
                        WidthClass::One
                    } else {
                        WidthClass::Ambiguous
                    }
                } else {
                    if cp < 0x148 {
                        WidthClass::One
                    } else {
                        if cp < 0x14C {
                            WidthClass::Ambiguous
                        } else {
                            WidthClass::One
                        }
                    }
                }
            }
        } else {
            if cp < 0x168 {
                if cp < 0x152 {
                    if cp < 0x14E {
                        WidthClass::Ambiguous
                    } else {
                        WidthClass::One
                    }
                } else {
                    if cp < 0x154 {
                        WidthClass::Ambiguous
                    } else {
                        if cp < 0x166 {
                            WidthClass::One
                        } else {
                            WidthClass::Ambiguous
                        }
                    }
                }
            } else {
                if cp < 0x16C {
                    if cp < 0x16B {
                        WidthClass::One
                    } else {
                        WidthClass::Ambiguous
                    }
                } else {
                    if cp < 0x1CE {
                        WidthClass::One
                    } else {
                        if cp < 0x1CF {
                            WidthClass::Ambiguous
                        } else {
                            WidthClass::One
                        }
                    }
                }
            }
        }
    }
}

fn lookup_width_class_10(cp: u32) -> (r: WidthClass)
    requires
        0x0 <= cp <= 0xFA,
    ensures
        r == width_class_of(cp),
{
    if cp < 0xC7 {
        if cp < 0xAE {
            if cp < 0xA5 {
                if cp < 0xA2 {
                    if cp < 0xA1 {
                        WidthClass::One
                    } else {
                        WidthClass::Ambiguous
                    }
                } else {
                    if cp < 0xA4 {
                        WidthClass::One
                    } else {
                        WidthClass::Ambiguous
                    }
                }
            } else {
                if cp < 0xA9 {
                    if cp < 0xA7 {
                        WidthClass::One
                    } else {
                        WidthClass::Ambiguous
                    }
                } else {
                    if cp < 0xAA {
                        WidthClass::One
                    } else {
                        if cp < 0xAB {
                            WidthClass::Ambiguous
                        } else {
                            WidthClass::One
                        }
                    }
                }
            }
        } else {
            if cp < 0xB6 {
                if cp < 0xB0 {
                    if cp < 0xAF {
                        WidthClass::Ambiguous
                    } else {
                        WidthClass::One
                    }
                } else {
                    if cp < 0xB5 {
                        WidthClass::Ambiguous
                    } else {
                        WidthClass::One
                    }
                }
            } else {
                if cp < 0xBC {
                    if cp < 0xBB {
                        WidthClass::Ambiguous
                    } else {
                        WidthClass::One
                    }
                } else {
                    if cp < 0xC0 {
                        WidthClass::Ambiguous
                    } else {
                        if cp < 0xC6 {
                            WidthClass::One
                        } else {
                            WidthClass::Ambiguous
                        }
                    }
                }
            }
        }
    } else {
        if cp < 0xE8 {
            if cp < 0xD9 {
                if cp < 0xD1 {
                    if cp < 0xD0 {
                        WidthClass::One
                    } else {
                        WidthClass::Ambiguous
                    }
                } else {
                    if cp < 0xD7 {
                        WidthClass::One
                    } else {
                        WidthClass::Ambiguous
                    }
                }
            } else {
                if cp < 0xE2 {
                    if cp < 0xDE {
                        WidthClass::One
                    } else {
                        WidthClass::Ambiguous
                    }
                } else {
                    if cp < 0xE6 {
                        WidthClass::One
                    } else {
                        if cp < 0xE7 {
                            WidthClass::Ambiguous
                        } else {
                            WidthClass::One
                        }
                    }
                }
            }
        } else {
            if cp < 0xF0 {
                if cp < 0xEC {
                    if cp < 0xEB {
                        WidthClass::Ambiguous
                    } else {
                        WidthClass::One
                    }
                } else {
                    if cp < 0xEE {
                        WidthClass::Ambiguous
                    } else {
                        WidthClass::One
                    }
                }
            } else {
                if cp < 0xF2 {
                    if cp < 0xF1 {
                        WidthClass::Ambiguous
                    } else {
                        WidthClass::One
                    }
                } else {
                    if cp < 0xF4 {
                        WidthClass::Ambiguous
                    } else {
                        if cp < 0xF7 {
                            WidthClass::One
                        } else {
                            WidthClass::Ambiguous
                        }
                    }
                }
            }
        }
    }
}


/// Whether `cp` begins an emoji presentation sequence.
pub fn lookup_emoji_presentation_base(cp: u32) -> (r: bool)
    requires
        cp <= 0x10FFFF,
    ensures
        r == is_emoji_presentation_base(cp),
{
    if cp < 0x1F32D {
        lookup_emoji_presentation_base_0(cp)
    } else {
        lookup_emoji_presentation_base_1(cp)
    }
}

fn lookup_emoji_presentation_base_1(cp: u32) -> (r: bool)
    requires
        0x1F32D <= cp <= 0x10FFFF,
    ensures
        r == is_emoji_presentation_base(cp),
{
    if cp < 0x1F54B {
        lookup_emoji_presentation_base_8(cp)
    } else {
        lookup_emoji_presentation_base_9(cp)
    }
}

fn lookup_emoji_presentation_base_9(cp: u32) -> (r: bool)
    requires
        0x1F54B <= cp <= 0x10FFFF,
    ensures
        r == is_emoji_presentation_base(cp),
{
    if cp < 0x1F61F {
        lookup_emoji_presentation_base_12(cp)
    } else {
        lookup_emoji_presentation_base_13(cp)
    }
}

fn lookup_emoji_presentation_base_13(cp: u32) -> (r: bool)
    requires
        0x1F61F <= cp <= 0x10FFFF,
    ensures
        r == is_emoji_presentation_base(cp),
{
    if cp < 0x1F694 {
        if cp < 0x1F630 {
            if cp < 0x1F628 {
                if cp < 0x1F621 {
                    if cp < 0x1F620 {
                        false
                    } else {
                        true
                    }
                } else {
                    if cp < 0x1F622 {
                        false
                    } else {
                        if cp < 0x1F624 {
                            true
                        } else {
                            false
                        }
                    }
                }
            } else {
                if cp < 0x1F62B {
                    if cp < 0x1F629 {
                        true
                    } else {
                        if cp < 0x1F62A {
                            false
                        } else {
                            true
                        }
                    }
                } else {
                    if cp < 0x1F62D {
                        false
                    } else {
                        if cp < 0x1F62E {
                            true
                        } else {
                            false
                        }
                    }
                }
            }
        } else {
            if cp < 0x1F687 {
                if cp < 0x1F634 {
                    if cp < 0x1F631 {
                        true
                    } else {
                        if cp < 0x1F633 {
                            false
                        } else {
                            true
                        }
                    }
                } else {
                    if cp < 0x1F637 {
                        false
                    } else {
                        if cp < 0x1F638 {
                            true
                        } else {
                            false
                        }
                    }
                }
            } else {
                if cp < 0x1F68E {
                    if cp < 0x1F688 {
                        true
                    } else {
                        if cp < 0x1F68D {
                            false
                        } else {
                            true
                        }
                    }
                } else {
                    if cp < 0x1F691 {
                        false
                    } else {
                        if cp < 0x1F692 {
                            true
                        } else {
                            false
                        }
                    }
                }
            }
        }
    } else {
        if cp < 0x1F6CB {
            if cp < 0x1F6B2 {
                if cp < 0x1F699 {
                    if cp < 0x1F695 {
                        true
                    } else {
                        if cp < 0x1F698 {
                            false
                        } else {
                            true
                        }
                    }
                } else {
                    if cp < 0x1F6AD {
                        false
                    } else {
                        if cp < 0x1F6AE {
                            true
                        } else {
                            false
                        }
                    }
                }
            } else {
                if cp < 0x1F6BB {
                    if cp < 0x1F6B3 {
                        true
                    } else {
                        if cp < 0x1F6B9 {
                            false
                        } else {
                            true
                        }
                    }
                } else {
                    if cp < 0x1F6BC {
                        false
                    } else {
                        if cp < 0x1F6BD {
                            true
                        } else {
                            false
                        }
                    }
                }
            }
        } else {
            if cp < 0x1F6E9 {
                if cp < 0x1F6D0 {
                    if cp < 0x1F6CC {
                        true
                    } else {
                        if cp < 0x1F6CD {
                            false
                        } else {
                            true
                        }
                    }
                } else {
                    if cp < 0x1F6E0 {
                        false
                    } else {
                        if cp < 0x1F6E6 {
                            true
                        } else {
                            false
                        }
                    }
                }
            } else {
                if cp < 0x1F6F1 {
                    if cp < 0x1F6EA {
                        true
                    } else {
                        if cp < 0x1F6F0 {
                            false
                        } else {
                            true
                        }
                    }
                } else {
                    if cp < 0x1F6F3 {
                        false
                    } else {
                        if cp < 0x1F6F4 {
                            true
                        } else {
                            false
                        }
                    }
                }
            }
        }
    }
}

fn lookup_emoji_presentation_base_12(cp: u32) -> (r: bool)
    requires
        0x1F54B <= cp <= 0x1F61E,
    ensures
        r == is_emoji_presentation_base(cp),
{
    if cp < 0x1F5D1 {
        if cp < 0x1F590 {
            if cp < 0x1F573 {
                if cp < 0x1F568 {
                    if cp < 0x1F550 {
                        false
                    } else {
                        true
                    }
                } else {
                    if cp < 0x1F56F {
                        false
                    } else {
                        if cp < 0x1F571 {
                            true
                        } else {
                            false
                        }
                    }
                }
            } else {
                if cp < 0x1F588 {
                    if cp < 0x1F57A {
                        true
                    } else {
                        if cp < 0x1F587 {
                            false
                        } else {
                            true
                        }
                    }
                } else {
                    if cp < 0x1F58A {
                        false
                    } else {
                        if cp < 0x1F58E {
                            true
                        } else {
                            false
                        }
                    }
                }
            }
        } else {
            if cp < 0x1F5B1 {
                if cp < 0x1F5A6 {
                    if cp < 0x1F591 {
                        true
                    } else {
                        if cp < 0x1F5A5 {
                            false
                        } else {
                            true
                        }
                    }
                } else {
                    if cp < 0x1F5A8 {
                        false
                    } else {
                        if cp < 0x1F5A9 {
                            true
                        } else {
                            false
                        }
                    }
                }
            } else {
                if cp < 0x1F5BD {
                    if cp < 0x1F5B3 {
                        true
                    } else {
                        if cp < 0x1F5BC {
                            false
                        } else {
                            true
                        }
                    }
                } else {
                    if cp < 0x1F5C2 {
                        false
                    } else {
                        if cp < 0x1F5C5 {
                            true
                        } else {
                            false
                        }
                    }
                }
            }
        }
    } else {
        if cp < 0x1F5F0 {
            if cp < 0x1F5E2 {
                if cp < 0x1F5DC {
                    if cp < 0x1F5D4 {
                        true
                    } else {
                        false
                    }
                } else {
                    if cp < 0x1F5DF {
                        true
                    } else {
                        if cp < 0x1F5E1 {
                            false
                        } else {
                            true
                        }
                    }
                }
            } else {
                if cp < 0x1F5E8 {
                    if cp < 0x1F5E3 {
                        false
                    } else {
                        if cp < 0x1F5E4 {
                            true
                        } else {
                            false
                        }
                    }
                } else {
                    if cp < 0x1F5E9 {
                        true
                    } else {
                        if cp < 0x1F5EF {
                            false
                        } else {
                            true
                        }
                    }
                }
            }
        } else {
            if cp < 0x1F611 {
                if cp < 0x1F5FA {
                    if cp < 0x1F5F3 {
                        false
                    } else {
                        if cp < 0x1F5F4 {
                            true
                        } else {
                            false
                        }
                    }
                } else {
                    if cp < 0x1F5FB {
                        true
                    } else {
                        if cp < 0x1F610 {
                            false
                        } else {
                            true
                        }
                    }
                }
            } else {
                if cp < 0x1F614 {
                    if cp < 0x1F612 {
                        false
                    } else {
                        if cp < 0x1F613 {
                            true
                        } else {
                            false
                        }
                    }
                } else {
                    if cp < 0x1F615 {
                        true
                    } else {
                        if cp < 0x1F61E {
                            false
                        } else {
                            true
                        }
                    }
                }
            }
        }
    }
}

fn lookup_emoji_presentation_base_8(cp: u32) -> (r: bool)
    requires
        0x1F32D <= cp <= 0x1F54A,
    ensures
        r == is_emoji_presentation_base(cp),
{
    if cp < 0x1F440 {
        lookup_emoji_presentation_base_10(cp)
    } else {
        lookup_emoji_presentation_base_11(cp)
    }
}

fn lookup_emoji_presentation_base_11(cp: u32) -> (r: bool)
    requires
        0x1F440 <= cp <= 0x1F54A,
    ensures
        r == is_emoji_presentation_base(cp),
{
    if cp < 0x1F4CB {
        if cp < 0x1F47D {
            if cp < 0x1F44D {
                if cp < 0x1F443 {
                    if cp < 0x1F441 {
                        false
                    } else {
                        true
                    }
                } else {
                    if cp < 0x1F446 {
                        false
                    } else {
                        if cp < 0x1F44A {
                            true
                        } else {
                            false
                        }
                    }
                }
            } else {
                if cp < 0x1F454 {
                    if cp < 0x1F44F {
                        true
                    } else {
                        if cp < 0x1F453 {
                            false
                        } else {
                            true
                        }
                    }
                } else {
                    if cp < 0x1F46A {
                        false
                    } else {
                        if cp < 0x1F46B {
                            true
                        } else {
                            false
                        }
                    }
                }
            }
        } else {
            if cp < 0x1F4B3 {
                if cp < 0x1F4A4 {
                    if cp < 0x1F47E {
                        true
                    } else {
                        if cp < 0x1F4A3 {
                            false
                        } else {
                            true
                        }
                    }
                } else {
                    if cp < 0x1F4B0 {
                        false
                    } else {
                        if cp < 0x1F4B1 {
                            true
                        } else {
                            false
                        }
                    }
                }
            } else {
                if cp < 0x1F4BC {
                    if cp < 0x1F4B4 {
                        true
                    } else {
                        if cp < 0x1F4BB {
                            false
                        } else {
                            true
                        }
                    }
                } else {
                    if cp < 0x1F4BF {
                        false
                    } else {
                        if cp < 0x1F4C0 {
                            true
                        } else {
                            false
                        }
                    }
                }
            }
        }
    } else {
        if cp < 0x1F4F8 {
            if cp < 0x1F4E0 {
                if cp < 0x1F4DA {
                    if cp < 0x1F4CC {
                        true
                    } else {
                        false
                    }
                } else {
                    if cp < 0x1F4DB {
                        true
                    } else {
                        if cp < 0x1F4DF {
                            false
                        } else {
                            true
                        }
                    }
                }
            } else {
                if cp < 0x1F4EA {
                    if cp < 0x1F4E4 {
                        false
                    } else {
                        if cp < 0x1F4E7 {
                            true
                        } else {
                            false
                        }
                    }
                } else {
                    if cp < 0x1F4EE {
                        true
                    } else {
                        if cp < 0x1F4F7 {
                            false
                        } else {
                            true
                        }
                    }
                }
            }
        } else {
            if cp < 0x1F509 {
                if cp < 0x1F4FD {
                    if cp < 0x1F4F9 {
                        false
                    } else {
                        if cp < 0x1F4FC {
                            true
                        } else {
                            false
                        }
                    }
                } else {
                    if cp < 0x1F4FE {
                        true
                    } else {
                        if cp < 0x1F508 {
                            false
                        } else {
                            true
                        }
                    }
                }
            } else {
                if cp < 0x1F512 {
                    if cp < 0x1F50D {
                        false
                    } else {
                        if cp < 0x1F50E {
                            true
                        } else {
                            false
                        }
                    }
                } else {
                    if cp < 0x1F514 {
                        true
                    } else {
                        if cp < 0x1F549 {
                            false
                        } else {
                            true
                        }
                    }
                }
            }
        }
    }
}

fn lookup_emoji_presentation_base_10(cp: u32) -> (r: bool)
    requires
        0x1F32D <= cp <= 0x1F43F,
    ensures
        r == is_emoji_presentation_base(cp),
{
    if cp < 0x1F3C6 {
        if cp < 0x1F399 {
            if cp < 0x1F37D {
                if cp < 0x1F337 {
                    if cp < 0x1F336 {
                        false
                    } else {
                        true
                    }
                } else {
                    if cp < 0x1F378 {
                        false
                    } else {
                        if cp < 0x1F379 {
                            true
                        } else {
                            false
                        }
                    }
                }
            } else {
                if cp < 0x1F394 {
                    if cp < 0x1F37E {
                        true
                    } else {
                        if cp < 0x1F393 {
                            false
                        } else {
                            true
                        }
                    }
                } else {
                    if cp < 0x1F396 {
                        false
                    } else {
                        if cp < 0x1F398 {
                            true
                        } else {
                            false
                        }
                    }
                }
            }
        } else {
            if cp < 0x1F3AC {
                if cp < 0x1F3A0 {
                    if cp < 0x1F39C {
                        true
                    } else {
                        if cp < 0x1F39E {
                            false
                        } else {
                            true
                        }
                    }
                } else {
                    if cp < 0x1F3A7 {
                        false
                    } else {
                        if cp < 0x1F3A8 {
                            true
                        } else {
                            false
                        }
                    }
                }
            } else {
                if cp < 0x1F3C3 {
                    if cp < 0x1F3AF {
                        true
                    } else {
                        if cp < 0x1F3C2 {
                            false
                        } else {
                            true
                        }
                    }
                } else {
                    if cp < 0x1F3C4 {
                        false
                    } else {
                        if cp < 0x1F3C5 {
                            true
                        } else {
                            false
                        }
                    }
                }
            }
        }
    } else {
        if cp < 0x1F3F6 {
            if cp < 0x1F3E1 {
                if cp < 0x1F3CA {
                    if cp < 0x1F3C7 {
                        true
                    } else {
                        false
                    }
                } else {
                    if cp < 0x1F3CF {
                        true
                    } else {
                        if cp < 0x1F3D4 {
                            false
                        } else {
                            true
                        }
                    }
                }
            } else {
                if cp < 0x1F3F3 {
                    if cp < 0x1F3ED {
                        false
                    } else {
                        if cp < 0x1F3EE {
                            true
                        } else {
                            false
                        }
                    }
                } else {
                    if cp < 0x1F3F4 {
                        true
                    } else {
                        if cp < 0x1F3F5 {
                            false
                        } else {
                            true
                        }
                    }
                }
            }
        } else {
            if cp < 0x1F416 {
                if cp < 0x1F408 {
                    if cp < 0x1F3F7 {
                        false
                    } else {
                        if cp < 0x1F3F8 {
                            true
                        } else {
                            false
                        }
                    }
                } else {
                    if cp < 0x1F409 {
                        true
                    } else {
                        if cp < 0x1F415 {
                            false
                        } else {
                            true
                        }
                    }
                }
            } else {
                if cp < 0x1F426 {
                    if cp < 0x1F41F {
                        false
                    } else {
                        if cp < 0x1F420 {
                            true
                        } else {
                            false
                        }
                    }
                } else {
                    if cp < 0x1F427 {
                        true
                    } else {
                        if cp < 0x1F43F {
                            false
                        } else {
                            true
                        }
                    }
                }
            }
        }
    }
}

fn lookup_emoji_presentation_base_0(cp: u32) -> (r: bool)
    requires
        0x0 <= cp <= 0x1F32C,
    ensures
        r == is_emoji_presentation_base(cp),
{
    if cp < 0x269D {
        lookup_emoji_presentation_base_2(cp)
    } else {
        lookup_emoji_presentation_base_3(cp)
    }
}

fn lookup_emoji_presentation_base_3(cp: u32) -> (r: bool)
    requires
        0x269D <= cp <= 0x1F32C,
    ensures
        r == is_emoji_presentation_base(cp),
{
    if cp < 0x271E {
        lookup_emoji_presentation_base_6(cp)
    } else {
        lookup_emoji_presentation_base_7(cp)
    }
}

fn lookup_emoji_presentation_base_7(cp: u32) -> (r: bool)
    requires
        0x271E <= cp <= 0x1F32C,
    ensures
        r == is_emoji_presentation_base(cp),
{
    if cp < 0x2B50 {
        if cp < 0x2757 {
            if cp < 0x2744 {
                if cp < 0x2722 {
                    if cp < 0x2721 {
                        false
                    } else {
                        true
                    }
                } else {
                    if cp < 0x2733 {
                        false
                    } else {
                        if cp < 0x2735 {
                            true
                        } else {
                            false
                        }
                    }
                }
            } else {
                if cp < 0x2748 {
                    if cp < 0x2745 {
                        true
                    } else {
                        if cp < 0x2747 {
                            false
                        } else {
                            true
                        }
                    }
                } else {
                    if cp < 0x2753 {
                        false
                    } else {
                        if cp < 0x2754 {
                            true
                        } else {
                            false
                        }
                    }
                }
            }
        } else {
            if cp < 0x2934 {
                if cp < 0x2765 {
                    if cp < 0x2758 {
                        true
                    } else {
                        if cp < 0x2763 {
                            false
                        } else {
                            true
                        }
                    }
                } else {
                    if cp < 0x27A1 {
                        false
                    } else {
                        if cp < 0x27A2 {
                            true
                        } else {
                            false
                        }
                    }
                }
            } else {
                if cp < 0x2B08 {
                    if cp < 0x2936 {
                        true
                    } else {
                        if cp < 0x2B05 {
                            false
                        } else {
                            true
                        }
                    }
                } else {
                    if cp < 0x2B1B {
                        false
                    } else {
                        if cp < 0x2B1D {
                            true
                        } else {
                            false
                        }
                    }
                }
            }
        }
    } else {
        if cp < 0x1F21B {
            if cp < 0x1F005 {
                if cp < 0x2B55 {
                    if cp < 0x2B51 {
                        true
                    } else {
                        false
                    }
                } else {
                    if cp < 0x2B56 {
                        true
                    } else {
                        if cp < 0x1F004 {
                            false
                        } else {
                            true
                        }
                    }
                }
            } else {
                if cp < 0x1F17E {
                    if cp < 0x1F170 {
                        false
                    } else {
                        if cp < 0x1F172 {
                            true
                        } else {
                            false
                        }
                    }
                } else {
                    if cp < 0x1F180 {
                        true
                    } else {
                        if cp < 0x1F21A {
                            false
                        } else {
                            true
                        }
                    }
                }
            }
        } else {
            if cp < 0x1F316 {
                if cp < 0x1F30D {
                    if cp < 0x1F22F {
                        false
                    } else {
                        if cp < 0x1F230 {
                            true
                        } else {
                            false
                        }
                    }
                } else {
                    if cp < 0x1F310 {
                        true
                    } else {
                        if cp < 0x1F315 {
                            false
                        } else {
                            true
                        }
                    }
                }
            } else {
                if cp < 0x1F321 {
                    if cp < 0x1F31C {
                        false
                    } else {
                        if cp < 0x1F31D {
                            true
                        } else {
                            false
                        }
                    }
                } else {
                    if cp < 0x1F322 {
                        true
                    } else {
                        if cp < 0x1F324 {
                            false
                        } else {
                            true
                        }
                    }
                }
            }
        }
    }
}

fn lookup_emoji_presentation_base_6(cp: u32) -> (r: bool)
    requires
        0x269D <= cp <= 0x271D,
    ensures
        r == is_emoji_presentation_base(cp),
{
    if cp < 0x26F0 {
        if cp < 0x26C4 {
            if cp < 0x26AA {
                if cp < 0x26A2 {
                    if cp < 0x26A0 {
                        false
                    } else {
                        true
                    }
                } else {
                    if cp < 0x26A7 {
                        false
                    } else {
                        if cp < 0x26A8 {
                            true
                        } else {
                            false
                        }
                    }
                }
            } else {
                if cp < 0x26B2 {
                    if cp < 0x26AC {
                        true
                    } else {
                        if cp < 0x26B0 {
                            false
                        } else {
                            true
                        }
                    }
                } else {
                    if cp < 0x26BD {
                        false
                    } else {
                        if cp < 0x26BF {
                            true
                        } else {
                            false
                        }
                    }
                }
            }
        } else {
            if cp < 0x26D1 {
                if cp < 0x26C9 {
                    if cp < 0x26C6 {
                        true
                    } else {
                        if cp < 0x26C8 {
                            false
                        } else {
                            true
                        }
                    }
                } else {
                    if cp < 0x26CF {
                        false
                    } else {
                        if cp < 0x26D0 {
                            true
                        } else {
                            false
                        }
                    }
                }
            } else {
                if cp < 0x26D5 {
                    if cp < 0x26D2 {
                        true
                    } else {
                        if cp < 0x26D3 {
                            false
                        } else {
                            true
                        }
                    }
                } else {
                    if cp < 0x26E9 {
                        false
                    } else {
                        if cp < 0x26EB {
                            true
                        } else {
                            false
                        }
                    }
                }
            }
        }
    } else {
        if cp < 0x270A {
            if cp < 0x26FE {
                if cp < 0x26F7 {
                    if cp < 0x26F6 {
                        true
                    } else {
                        false
                    }
                } else {
                    if cp < 0x26FB {
                        true
                    } else {
                        if cp < 0x26FD {
                            false
                        } else {
                            true
                        }
                    }
                }
            } else {
                if cp < 0x2705 {
                    if cp < 0x2702 {
                        false
                    } else {
                        if cp < 0x2703 {
                            true
                        } else {
                            false
                        }
                    }
                } else {
                    if cp < 0x2706 {
                        true
                    } else {
                        if cp < 0x2708 {
                            false
                        } else {
                            true
                        }
                    }
                }
            }
        } else {
            if cp < 0x2713 {
                if cp < 0x270F {
                    if cp < 0x270C {
                        false
                    } else {
                        if cp < 0x270E {
                            true
                        } else {
                            false
                        }
                    }
                } else {
                    if cp < 0x2710 {
                        true
                    } else {
                        if cp < 0x2712 {
                            false
                        } else {
                            true
                        }
                    }
                }
            } else {
                if cp < 0x2716 {
                    if cp < 0x2714 {
                        false
                    } else {
                        if cp < 0x2715 {
                            true
                        } else {
                            false
                        }
                    }
                } else {
                    if cp < 0x2717 {
                        true
                    } else {
                        if cp < 0x271D {
                            false
                        } else {
                            true
                        }
                    }
                }
            }
        }
    }
}

fn lookup_emoji_presentation_base_2(cp: u32) -> (r: bool)
    requires
        0x0 <= cp <= 0x269C,
    ensures
        r == is_emoji_presentation_base(cp),
{
    if cp < 0x2605 {
        lookup_emoji_presentation_base_4(cp)
    } else {
        lookup_emoji_presentation_base_5(cp)
    }
}

fn lookup_emoji_presentation_base_5(cp: u32) -> (r: bool)
    requires
        0x2605 <= cp <= 0x269C,
    ensures
        r == is_emoji_presentation_base(cp),
{
    if cp < 0x2640 {
        if cp < 0x2620 {
            if cp < 0x2614 {
                if cp < 0x260F {
                    if cp < 0x260E {
                        false
                    } else {
                        true
                    }
                } else {
                    if cp < 0x2611 {
                        false
                    } else {
                        if cp < 0x2612 {
                            true
                        } else {
                            false
                        }
                    }
                }
            } else {
                if cp < 0x2619 {
                    if cp < 0x2616 {
                        true
                    } else {
                        if cp < 0x2618 {
                            false
                        } else {
                            true
                        }
                    }
                } else {
                    if cp < 0x261D {
                        false
                    } else {
                        if cp < 0x261E {
                            true
                        } else {
                            false
                        }
                    }
                }
            }
        } else {
            if cp < 0x262A {
                if cp < 0x2624 {
                    if cp < 0x2621 {
                        true
                    } else {
                        if cp < 0x2622 {
                            false
                        } else {
                            true
                        }
                    }
                } else {
                    if cp < 0x2626 {
                        false
                    } else {
                        if cp < 0x2627 {
                            true
                        } else {
                            false
                        }
                    }
                }
            } else {
                if cp < 0x2630 {
                    if cp < 0x262B {
                        true
                    } else {
                        if cp < 0x262E {
                            false
                        } else {
                            true
                        }
                    }
                } else {
                    if cp < 0x2638 {
                        false
                    } else {
                        if cp < 0x263B {
                            true
                        } else {
                            false
                        }
                    }
                }
            }
        }
    } else {
        if cp < 0x2667 {
            if cp < 0x2654 {
                if cp < 0x2642 {
                    if cp < 0x2641 {
                        true
                    } else {
                        false
                    }
                } else {
                    if cp < 0x2643 {
                        true
                    } else {
                        if cp < 0x2648 {
                            false
                        } else {
                            true
                        }
                    }
                }
            } else {
                if cp < 0x2663 {
                    if cp < 0x265F {
                        false
                    } else {
                        if cp < 0x2661 {
                            true
                        } else {
                            false
                        }
                    }
                } else {
                    if cp < 0x2664 {
                        true
                    } else {
                        if cp < 0x2665 {
                            false
                        } else {
                            true
                        }
                    }
                }
            }
        } else {
            if cp < 0x2680 {
                if cp < 0x267B {
                    if cp < 0x2668 {
                        false
                    } else {
                        if cp < 0x2669 {
                            true
                        } else {
                            false
                        }
                    }
                } else {
                    if cp < 0x267C {
                        true
                    } else {
                        if cp < 0x267E {
                            false
                        } else {
                            true
                        }
                    }
                }
            } else {
                if cp < 0x2699 {
                    if cp < 0x2692 {
                        false
                    } else {
                        if cp < 0x2698 {
                            true
                        } else {
                            false
                        }
                    }
                } else {
                    if cp < 0x269A {
                        true
                    } else {
                        if cp < 0x269B {
                            false
                        } else {
                            true
                        }
                    }
                }
            }
        }
    }
}

fn lookup_emoji_presentation_base_4(cp: u32) -> (r: bool)
    requires
        0x0 <= cp <= 0x2604,
    ensures
        r == is_emoji_presentation_base(cp),
{
    if cp < 0x231A {
        if cp < 0x203C {
            if cp < 0x30 {
                if cp < 0x24 {
                    if cp < 0x23 {
                        false
                    } else {
                        true
                    }
                } else {
                    if cp < 0x2A {
                        false
                    } else {
                        if cp < 0x2B {
                            true
                        } else {
                            false
                        }
                    }
                }
            } else {
                if cp < 0xAA {
                    if cp < 0x3A {
                        true
                    } else {
                        if cp < 0xA9 {
                            false
                        } else {
                            true
                        }
                    }
                } else {
                    if cp < 0xAE {
                        false
                    } else {
                        if cp < 0xAF {
                            true
                        } else {
                            false
                        }
                    }
                }
            }
        } else {
            if cp < 0x2139 {
                if cp < 0x204A {
                    if cp < 0x203D {
                        true
                    } else {
                        if cp < 0x2049 {
                            false
                        } else {
                            true
                        }
                    }
                } else {
                    if cp < 0x2122 {
                        false
                    } else {
                        if cp < 0x2123 {
                            true
                        } else {
                            false
                        }
                    }
                }
            } else {
                if cp < 0x219A {
                    if cp < 0x213A {
                        true
                    } else {
                        if cp < 0x2194 {
                            false
                        } else {
                            true
                        }
                    }
                } else {
                    if cp < 0x21A9 {
                        false
                    } else {
                        if cp < 0x21AB {
                            true
                        } else {
                            false
                        }
                    }
                }
            }
        }
    } else {
        if cp < 0x23FB {
            if cp < 0x23D0 {
                if cp < 0x2328 {
                    if cp < 0x231C {
                        true
                    } else {
                        false
                    }
                } else {
                    if cp < 0x2329 {
                        true
                    } else {
                        if cp < 0x23CF {
                            false
                        } else {
                            true
                        }
                    }
                }
            } else {
                if cp < 0x23ED {
                    if cp < 0x23E9 {
                        false
                    } else {
                        if cp < 0x23EB {
                            true
                        } else {
                            false
                        }
                    }
                } else {
                    if cp < 0x23F4 {
                        true
                    } else {
                        if cp < 0x23F8 {
                            false
                        } else {
                            true
                        }
                    }
                }
            }
        } else {
            if cp < 0x25B7 {
                if cp < 0x25AA {
                    if cp < 0x24C2 {
                        false
                    } else {
                        if cp < 0x24C3 {
                            true
                        } else {
                            false
                        }
                    }
                } else {
                    if cp < 0x25AC {
                        true
                    } else {
                        if cp < 0x25B6 {
                            false
                        } else {
                            true
                        }
                    }
                }
            } else {
                if cp < 0x25FB {
                    if cp < 0x25C0 {
                        false
                    } else {
                        if cp < 0x25C1 {
                            true
                        } else {
                            false
                        }
                    }
                } else {
                    if cp < 0x25FF {
                        true
                    } else {
                        if cp < 0x2600 {
                            false
                        } else {
                            true
                        }
                    }
                }
            }
        }
    }
}


/// Whether `cp` begins a text presentation sequence.
pub fn lookup_text_presentation_base(cp: u32) -> (r: bool)
    requires
        cp <= 0x10FFFF,
    ensures
        r == is_text_presentation_base(cp),
{
    if cp < 0x1F427 {
        lookup_text_presentation_base_0(cp)
    } else {
        lookup_text_presentation_base_1(cp)
    }
}

fn lookup_text_presentation_base_1(cp: u32) -> (r: bool)
    requires
        0x1F427 <= cp <= 0x10FFFF,
    ensures
        r == is_text_presentation_base(cp),
{
    if cp < 0x1F550 {
        lookup_text_presentation_base_4(cp)
    } else {
        lookup_text_presentation_base_5(cp)
    }
}

fn lookup_text_presentation_base_5(cp: u32) -> (r: bool)
    requires
        0x1F550 <= cp <= 0x10FFFF,
    ensures
        r == is_text_presentation_base(cp),
{
    if cp < 0x1F633 {
        if cp < 0x1F621 {
            if cp < 0x1F613 {
                if cp < 0x1F610 {
                    if cp < 0x1F568 {
                        true
                    } else {
                        false
                    }
                } else {
                    if cp < 0x1F611 {
                        true
                    } else {
                        if cp < 0x1F612 {
                            false
                        } else {
                            true
                        }
                    }
                }
            } else {
                if cp < 0x1F61E {
                    if cp < 0x1F614 {
                        false
                    } else {
                        if cp < 0x1F615 {
                            true
                        } else {
                            false
                        }
                    }
                } else {
                    if cp < 0x1F61F {
                        true
                    } else {
                        if cp < 0x1F620 {
                            false
                        } else {
                            true
                        }
                    }
                }
            }
        } else {
            if cp < 0x1F62A {
                if cp < 0x1F624 {
                    if cp < 0x1F622 {
                        false
                    } else {
                        true
                    }
                } else {
                    if cp < 0x1F628 {
                        false
                    } else {
                        if cp < 0x1F629 {
                            true
                        } else {
                            false
                        }
                    }
                }
            } else {
                if cp < 0x1F62E {
                    if cp < 0x1F62B {
                        true
                    } else {
                        if cp < 0x1F62D {
                            false
                        } else {
                            true
                        }
                    }
                } else {
                    if cp < 0x1F630 {
                        false
                    } else {
                        if cp < 0x1F631 {
                            true
                        } else {
                            false
                        }
                    }
                }
            }
        }
    } else {
        if cp < 0x1F695 {
            if cp < 0x1F688 {
                if cp < 0x1F637 {
                    if cp < 0x1F634 {
                        true
                    } else {
                        false
                    }
                } else {
                    if cp < 0x1F638 {
                        true
                    } else {
                        if cp < 0x1F687 {
                            false
                        } else {
                            true
                        }
                    }
                }
            } else {
                if cp < 0x1F691 {
                    if cp < 0x1F68D {
                        false
                    } else {
                        if cp < 0x1F68E {
                            true
                        } else {
                            false
                        }
                    }
                } else {
                    if cp < 0x1F692 {
                        true
                    } else {
                        if cp < 0x1F694 {
                            false
                        } else {
                            true
                        }
                    }
                }
            }
        } else {
            if cp < 0x1F6B2 {
                if cp < 0x1F699 {
                    if cp < 0x1F698 {
                        false
                    } else {
                        true
                    }
                } else {
                    if cp < 0x1F6AD {
                        false
                    } else {
                        if cp < 0x1F6AE {
                            true
                        } else {
                            false
                        }
                    }
                }
            } else {
                if cp < 0x1F6BB {
                    if cp < 0x1F6B3 {
                        true
                    } else {
                        if cp < 0x1F6B9 {
                            false
                        } else {
                            true
                        }
                    }
                } else {
                    if cp < 0x1F6BC {
                        false
                    } else {
                        if cp < 0x1F6BD {
                            true
                        } else {
                            false
                        }
                    }
                }
            }
        }
    }
}

fn lookup_text_presentation_base_4(cp: u32) -> (r: bool)
    requires
        0x1F427 <= cp <= 0x1F54F,
    ensures
        r == is_text_presentation_base(cp),
{
    if cp < 0x1F4BF {
        if cp < 0x1F46B {
            if cp < 0x1F44D {
                if cp < 0x1F443 {
                    if cp < 0x1F442 {
                        false
                    } else {
                        true
                    }
                } else {
                    if cp < 0x1F446 {
                        false
                    } else {
                        if cp < 0x1F44A {
                            true
                        } else {
                            false
                        }
                    }
                }
            } else {
                if cp < 0x1F453 {
                    if cp < 0x1F44F {
                        true
                    } else {
                        false
                    }
                } else {
                    if cp < 0x1F454 {
                        true
                    } else {
                        if cp < 0x1F46A {
                            false
                        } else {
                            true
                        }
                    }
                }
            }
        } else {
            if cp < 0x1F4B0 {
                if cp < 0x1F47E {
                    if cp < 0x1F47D {
                        false
                    } else {
                        true
                    }
                } else {
                    if cp < 0x1F4A3 {
                        false
                    } else {
                        if cp < 0x1F4A4 {
                            true
                        } else {
                            false
                        }
                    }
                }
            } else {
                if cp < 0x1F4B4 {
                    if cp < 0x1F4B1 {
                        true
                    } else {
                        if cp < 0x1F4B3 {
                            false
                        } else {
                            true
                        }
                    }
                } else {
                    if cp < 0x1F4BB {
                        false
                    } else {
                        if cp < 0x1F4BC {
                            true
                        } else {
                            false
                        }
                    }
                }
            }
        }
    } else {
        if cp < 0x1F4EE {
            if cp < 0x1F4DB {
                if cp < 0x1F4CB {
                    if cp < 0x1F4C0 {
                        true
                    } else {
                        false
                    }
                } else {
                    if cp < 0x1F4CC {
                        true
                    } else {
                        if cp < 0x1F4DA {
                            false
                        } else {
                            true
                        }
                    }
                }
            } else {
                if cp < 0x1F4E4 {
                    if cp < 0x1F4DF {
                        false
                    } else {
                        if cp < 0x1F4E0 {
                            true
                        } else {
                            false
                        }
                    }
                } else {
                    if cp < 0x1F4E7 {
                        true
                    } else {
                        if cp < 0x1F4EA {
                            false
                        } else {
                            true
                        }
                    }
                }
            }
        } else {
            if cp < 0x1F508 {
                if cp < 0x1F4F8 {
                    if cp < 0x1F4F7 {
                        false
                    } else {
                        true
                    }
                } else {
                    if cp < 0x1F4F9 {
                        false
                    } else {
                        if cp < 0x1F4FC {
                            true
                        } else {
                            false
                        }
                    }
                }
            } else {
                if cp < 0x1F50E {
                    if cp < 0x1F509 {
                        true
                    } else {
                        if cp < 0x1F50D {
                            false
                        } else {
                            true
                        }
                    }
                } else {
                    if cp < 0x1F512 {
                        false
                    } else {
                        if cp < 0x1F514 {
                            true
                        } else {
                            false
                        }
                    }
                }
            }
        }
    }
}

fn lookup_text_presentation_base_0(cp: u32) -> (r: bool)
    requires
        0x0 <= cp <= 0x1F426,
    ensures
        r == is_text_presentation_base(cp),
{
    if cp < 0x2757 {
        lookup_text_presentation_base_2(cp)
    } else {
        lookup_text_presentation_base_3(cp)
    }
}

fn lookup_text_presentation_base_3(cp: u32) -> (r: bool)
    requires
        0x2757 <= cp <= 0x1F426,
    ensures
        r == is_text_presentation_base(cp),
{
    if cp < 0x1F3A8 {
        if cp < 0x1F30D {
            if cp < 0x2B51 {
                if cp < 0x2B1B {
                    if cp < 0x2758 {
                        true
                    } else {
                        false
                    }
                } else {
                    if cp < 0x2B1D {
                        true
                    } else {
                        if cp < 0x2B50 {
                            false
                        } else {
                            true
                        }
                    }
                }
            } else {
                if cp < 0x2B56 {
                    if cp < 0x2B55 {
                        false
                    } else {
                        true
                    }
                } else {
                    if cp < 0x1F004 {
                        false
                    } else {
                        if cp < 0x1F005 {
                            true
                        } else {
                            false
                        }
                    }
                }
            }
        } else {
            if cp < 0x1F31D {
                if cp < 0x1F315 {
                    if cp < 0x1F310 {
                        true
                    } else {
                        false
                    }
                } else {
                    if cp < 0x1F316 {
                        true
                    } else {
                        if cp < 0x1F31C {
                            false
                        } else {
                            true
                        }
                    }
                }
            } else {
                if cp < 0x1F393 {
                    if cp < 0x1F378 {
                        false
                    } else {
                        if cp < 0x1F379 {
                            true
                        } else {
                            false
                        }
                    }
                } else {
                    if cp < 0x1F394 {
                        true
                    } else {
                        if cp < 0x1F3A7 {
                            false
                        } else {
                            true
                        }
                    }
                }
            }
        }
    } else {
        if cp < 0x1F3E0 {
            if cp < 0x1F3C4 {
                if cp < 0x1F3AF {
                    if cp < 0x1F3AC {
                        false
                    } else {
                        true
                    }
                } else {
                    if cp < 0x1F3C2 {
                        false
                    } else {
                        if cp < 0x1F3C3 {
                            true
                        } else {
                            false
                        }
                    }
                }
            } else {
                if cp < 0x1F3C7 {
                    if cp < 0x1F3C5 {
                        true
                    } else {
                        if cp < 0x1F3C6 {
                            false
                        } else {
                            true
                        }
                    }
                } else {
                    if cp < 0x1F3CA {
                        false
                    } else {
                        if cp < 0x1F3CB {
                            true
                        } else {
                            false
                        }
                    }
                }
            }
        } else {
            if cp < 0x1F409 {
                if cp < 0x1F3ED {
                    if cp < 0x1F3E1 {
                        true
                    } else {
                        false
                    }
                } else {
                    if cp < 0x1F3EE {
                        true
                    } else {
                        if cp < 0x1F408 {
                            false
                        } else {
                            true
                        }
                    }
                }
            } else {
                if cp < 0x1F41F {
                    if cp < 0x1F415 {
                        false
                    } else {
                        if cp < 0x1F416 {
                            true
                        } else {
                            false
                        }
                    }
                } else {
                    if cp < 0x1F420 {
                        true
                    } else {
                        if cp < 0x1F426 {
                            false
                        } else {
                            true
                        }
                    }
                }
            }
        }
    }
}

fn lookup_text_presentation_base_2(cp: u32) -> (r: bool)
    requires
        0x0 <= cp <= 0x2756,
    ensures
        r == is_text_presentation_base(cp),
{
    if cp < 0x26AA {
        if cp < 0x25FF {
            if cp < 0x23F0 {
                if cp < 0x231C {
                    if cp < 0x231A {
                        false
                    } else {
                        true
                    }
                } else {
                    if cp < 0x23E9 {
                        false
                    } else {
                        if cp < 0x23EB {
                            true
                        } else {
                            false
                        }
                    }
                }
            } else {
                if cp < 0x23F3 {
                    if cp < 0x23F1 {
                        true
                    } else {
                        false
                    }
                } else {
                    if cp < 0x23F4 {
                        true
                    } else {
                        if cp < 0x25FD {
                            false
                        } else {
                            true
                        }
                    }
                }
            }
        } else {
            if cp < 0x267F {
                if cp < 0x2616 {
                    if cp < 0x2614 {
                        false
                    } else {
                        true
                    }
                } else {
                    if cp < 0x2648 {
                        false
                    } else {
                        if cp < 0x2654 {
                            true
                        } else {
                            false
                        }
                    }
                }
            } else {
                if cp < 0x2694 {
                    if cp < 0x2680 {
                        true
                    } else {
                        if cp < 0x2693 {
                            false
                        } else {
                            true
                        }
                    }
                } else {
                    if cp < 0x26A1 {
                        false
                    } else {
                        if cp < 0x26A2 {
                            true
                        } else {
                            false
                        }
                    }
                }
            }
        }
    } else {
        if cp < 0x26F4 {
            if cp < 0x26C6 {
                if cp < 0x26BD {
                    if cp < 0x26AC {
                        true
                    } else {
                        false
                    }
                } else {
                    if cp < 0x26BF {
                        true
                    } else {
                        if cp < 0x26C4 {
                            false
                        } else {
                            true
                        }
                    }
                }
            } else {
                if cp < 0x26EA {
                    if cp < 0x26D4 {
                        false
                    } else {
                        if cp < 0x26D5 {
                            true
                        } else {
                            false
                        }
                    }
                } else {
                    if cp < 0x26EB {
                        true
                    } else {
                        if cp < 0x26F2 {
                            false
                        } else {
                            true
                        }
                    }
                }
            }
        } else {
            if cp < 0x26FD {
                if cp < 0x26F6 {
                    if cp < 0x26F5 {
                        false
                    } else {
                        true
                    }
                } else {
                    if cp < 0x26FA {
                        false
                    } else {
                        if cp < 0x26FB {
                            true
                        } else {
                            false
                        }
                    }
                }
            } else {
                if cp < 0x2706 {
                    if cp < 0x26FE {
                        true
                    } else {
                        if cp < 0x2705 {
                            false
                        } else {
                            true
                        }
                    }
                } else {
                    if cp < 0x2753 {
                        false
                    } else {
                        if cp < 0x2754 {
                            true
                        } else {
                            false
                        }
                    }
                }
            }
        }
    }
}


} // verus!
