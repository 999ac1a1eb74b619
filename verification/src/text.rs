//! Character classes, terminal display widths and the string building blocks
//! that the renderer and the style helpers share.

use vstd::prelude::*;

use crate::width_tables::{is_wide, is_wide_char, is_zero_width, is_zero_width_char};

verus! {

broadcast use vstd::string::group_string_axioms;

/// The escape character that starts every ANSI control sequence.
pub const ESC: char = '\x1b';

// ---------------------------------------------------------------------------
// Character classes
// ---------------------------------------------------------------------------

/// Unicode general category `Cc`: C0 controls, DEL and C1 controls.
pub open spec fn is_control(c: char) -> bool {
    c <= '\u{1F}' || ('\u{7F}' <= c && c <= '\u{9F}')
}

/// Whether `ch` is a control character (general category `Cc`).
pub fn is_control_char(ch: char) -> (r: bool)
    ensures
        r == is_control(ch),
{
    ch <= '\u{1F}' || ('\u{7F}' <= ch && ch <= '\u{9F}')
}

/// The characters with the Unicode `White_Space` property.
pub open spec fn is_whitespace(c: char) -> bool {
    ||| ('\u{9}' <= c && c <= '\u{D}')
    ||| c == ' '
    ||| c == '\u{85}'
    ||| c == '\u{A0}'
    ||| c == '\u{1680}'
    ||| ('\u{2000}' <= c && c <= '\u{200A}')
    ||| c == '\u{2028}'
    ||| c == '\u{2029}'
    ||| c == '\u{202F}'
    ||| c == '\u{205F}'
    ||| c == '\u{3000}'
}

/// Whether `ch` has the Unicode `White_Space` property.
pub fn is_whitespace_char(ch: char) -> (r: bool)
    ensures
        r == is_whitespace(ch),
{
    ('\u{9}' <= ch && ch <= '\u{D}') || ch == ' ' || ch == '\u{85}' || ch == '\u{A0}' || ch
        == '\u{1680}' || ('\u{2000}' <= ch && ch <= '\u{200A}') || ch == '\u{2028}' || ch
        == '\u{2029}' || ch == '\u{202F}' || ch == '\u{205F}' || ch == '\u{3000}'
}

/// ASCII upper-case letters become lower case; every other character is kept.
pub open spec fn ascii_lower(c: char) -> char {
    if 'A' <= c && c <= 'Z' {
        ((c as u32) + 32) as char
    } else {
        c
    }
}

/// The ASCII lower-case form of `ch`.
pub fn to_ascii_lower(ch: char) -> (r: char)
    ensures
        r == ascii_lower(ch),
{
    if 'A' <= ch && ch <= 'Z' {
        let u: u32 = (ch as u32) + 32;
        proof {
            assert(0x61 <= u <= 0x7a);
        }
        char_from_ascii(u as u8)
    } else {
        ch
    }
}

/// The ASCII lower-case form of every character of `s`.
pub open spec fn lower(s: Seq<char>) -> Seq<char> {
    s.map_values(|c: char| ascii_lower(c))
}

/// `p` is a prefix of `s`.
pub open spec fn has_prefix(s: Seq<char>, p: Seq<char>) -> bool {
    p.len() <= s.len() && s.take(p.len() as int) == p
}

/// The character whose code point is the ASCII value `b`.
pub fn char_from_ascii(b: u8) -> (c: char)
    requires
        b < 128,
    ensures
        c as u32 == b as u32,
{
    b as char
}

// ---------------------------------------------------------------------------
// Display widths
// ---------------------------------------------------------------------------

/// Number of terminal columns a character occupies: controls and zero-width
/// characters take none, wide characters two, every other character one.
pub open spec fn char_width(c: char) -> nat {
    if is_control(c) || is_zero_width(c) {
        0
    } else if is_wide(c) {
        2
    } else {
        1
    }
}

/// Every character of the East Asian wide and fullwidth blocks (Hangul Jamo
/// and syllables, CJK ideographs and punctuation, kana, Bopomofo, Yi, the
/// fullwidth forms, Tangut, wide emoji, the supplementary ideographic planes)
/// takes two columns, except the combining marks among them, which take none.
pub proof fn law_wide_blocks_take_two_columns(c: char)
    requires
        ({
            ||| ('\u{1100}' <= c && c <= '\u{115F}')
            ||| ('\u{231A}' <= c && c <= '\u{231B}')
            ||| ('\u{2329}' <= c && c <= '\u{232A}')
            ||| ('\u{23E9}' <= c && c <= '\u{23EC}')
            ||| c == '\u{23F0}'
            ||| c == '\u{23F3}'
            ||| ('\u{25FD}' <= c && c <= '\u{25FE}')
            ||| ('\u{2614}' <= c && c <= '\u{2615}')
            ||| ('\u{2648}' <= c && c <= '\u{2653}')
            ||| c == '\u{267F}'
            ||| c == '\u{2693}'
            ||| c == '\u{26A1}'
            ||| ('\u{26AA}' <= c && c <= '\u{26AB}')
            ||| ('\u{26BD}' <= c && c <= '\u{26BE}')
            ||| ('\u{26C4}' <= c && c <= '\u{26C5}')
            ||| c == '\u{26CE}'
            ||| c == '\u{26D4}'
            ||| c == '\u{26EA}'
            ||| ('\u{26F2}' <= c && c <= '\u{26F3}')
            ||| c == '\u{26F5}'
            ||| c == '\u{26FA}'
            ||| c == '\u{26FD}'
            ||| c == '\u{2705}'
            ||| ('\u{270A}' <= c && c <= '\u{270B}')
            ||| c == '\u{2728}'
            ||| c == '\u{274C}'
            ||| c == '\u{274E}'
            ||| ('\u{2753}' <= c && c <= '\u{2755}')
            ||| c == '\u{2757}'
            ||| ('\u{2795}' <= c && c <= '\u{2797}')
            ||| c == '\u{27B0}'
            ||| c == '\u{27BF}'
            ||| ('\u{2B1B}' <= c && c <= '\u{2B1C}')
            ||| c == '\u{2B50}'
            ||| c == '\u{2B55}'
            ||| ('\u{2E80}' <= c && c <= '\u{2E99}')
            ||| ('\u{2E9B}' <= c && c <= '\u{2EF3}')
            ||| ('\u{2F00}' <= c && c <= '\u{2FD5}')
            ||| ('\u{2FF0}' <= c && c <= '\u{2FFB}')
            ||| ('\u{3000}' <= c && c <= '\u{3029}')
            ||| ('\u{3030}' <= c && c <= '\u{303E}')
            ||| ('\u{3041}' <= c && c <= '\u{3096}')
            ||| ('\u{309B}' <= c && c <= '\u{30FF}')
            ||| ('\u{3105}' <= c && c <= '\u{312F}')
            ||| ('\u{3131}' <= c && c <= '\u{318E}')
            ||| ('\u{3190}' <= c && c <= '\u{31E3}')
            ||| ('\u{31F0}' <= c && c <= '\u{321E}')
            ||| ('\u{3220}' <= c && c <= '\u{3247}')
            ||| ('\u{3250}' <= c && c <= '\u{4DBF}')
            ||| ('\u{4E00}' <= c && c <= '\u{A48C}')
            ||| ('\u{A490}' <= c && c <= '\u{A4C6}')
            ||| ('\u{A960}' <= c && c <= '\u{A97C}')
            ||| ('\u{AC00}' <= c && c <= '\u{D7A3}')
            ||| ('\u{F900}' <= c && c <= '\u{FAFF}')
            ||| ('\u{FE10}' <= c && c <= '\u{FE19}')
            ||| ('\u{FE30}' <= c && c <= '\u{FE52}')
            ||| ('\u{FE54}' <= c && c <= '\u{FE66}')
            ||| ('\u{FE68}' <= c && c <= '\u{FE6B}')
            ||| ('\u{FF01}' <= c && c <= '\u{FF60}')
            ||| ('\u{FFE0}' <= c && c <= '\u{FFE6}')
            ||| ('\u{16FE0}' <= c && c <= '\u{16FE4}')
            ||| ('\u{17000}' <= c && c <= '\u{187F7}')
            ||| ('\u{18800}' <= c && c <= '\u{18CD5}')
            ||| ('\u{18D00}' <= c && c <= '\u{18D08}')
            ||| ('\u{1B000}' <= c && c <= '\u{1B11E}')
            ||| ('\u{1B170}' <= c && c <= '\u{1B2FB}')
            ||| c == '\u{1F004}'
            ||| c == '\u{1F0CF}'
            ||| c == '\u{1F18E}'
            ||| ('\u{1F191}' <= c && c <= '\u{1F19A}')
            ||| ('\u{1F200}' <= c && c <= '\u{1F202}')
            ||| ('\u{1F210}' <= c && c <= '\u{1F23B}')
            ||| ('\u{1F240}' <= c && c <= '\u{1F248}')
            ||| ('\u{1F250}' <= c && c <= '\u{1F251}')
            ||| ('\u{1F260}' <= c && c <= '\u{1F265}')
            ||| ('\u{1F300}' <= c && c <= '\u{1F320}')
            ||| ('\u{1F32D}' <= c && c <= '\u{1F335}')
            ||| ('\u{1F337}' <= c && c <= '\u{1F37C}')
            ||| ('\u{1F37E}' <= c && c <= '\u{1F393}')
            ||| ('\u{1F3A0}' <= c && c <= '\u{1F3CA}')
            ||| ('\u{1F3CF}' <= c && c <= '\u{1F3D3}')
            ||| ('\u{1F3E0}' <= c && c <= '\u{1F3F0}')
            ||| c == '\u{1F3F4}'
            ||| ('\u{1F3F8}' <= c && c <= '\u{1F43E}')
            ||| c == '\u{1F440}'
            ||| ('\u{1F442}' <= c && c <= '\u{1F4FC}')
            ||| ('\u{1F4FF}' <= c && c <= '\u{1F53D}')
            ||| ('\u{1F54B}' <= c && c <= '\u{1F54E}')
            ||| ('\u{1F550}' <= c && c <= '\u{1F567}')
            ||| c == '\u{1F57A}'
            ||| ('\u{1F595}' <= c && c <= '\u{1F596}')
            ||| c == '\u{1F5A4}'
            ||| ('\u{1F5FB}' <= c && c <= '\u{1F64F}')
            ||| ('\u{1F680}' <= c && c <= '\u{1F6C5}')
            ||| c == '\u{1F6CC}'
            ||| ('\u{1F6D0}' <= c && c <= '\u{1F6D2}')
            ||| ('\u{1F6EB}' <= c && c <= '\u{1F6EC}')
            ||| ('\u{1F6F4}' <= c && c <= '\u{1F6F9}')
            ||| ('\u{1F910}' <= c && c <= '\u{1F93E}')
            ||| ('\u{1F940}' <= c && c <= '\u{1F970}')
            ||| ('\u{1F973}' <= c && c <= '\u{1F976}')
            ||| c == '\u{1F97A}'
            ||| ('\u{1F97C}' <= c && c <= '\u{1F9A2}')
            ||| ('\u{1F9B0}' <= c && c <= '\u{1F9B9}')
            ||| ('\u{1F9C0}' <= c && c <= '\u{1F9C2}')
            ||| ('\u{1F9D0}' <= c && c <= '\u{1F9FF}')
            ||| ('\u{20000}' <= c && c <= '\u{2FFFD}')
            ||| ('\u{30000}' <= c && c <= '\u{3FFFD}')
        }),
    ensures
        char_width(c) == 2,
{
}

/// Control characters, combining marks, joiners, variation selectors and the
/// other zero-width characters take no column.
pub proof fn law_zero_width_takes_no_column(c: char)
    requires
        ({
            ||| c <= '\u{1F}'
            ||| ('\u{7F}' <= c && c <= '\u{9F}')
            ||| ('\u{300}' <= c && c <= '\u{36F}')
            ||| ('\u{483}' <= c && c <= '\u{489}')
            ||| ('\u{591}' <= c && c <= '\u{5BD}')
            ||| c == '\u{5BF}'
            ||| ('\u{5C1}' <= c && c <= '\u{5C2}')
            ||| ('\u{5C4}' <= c && c <= '\u{5C5}')
            ||| c == '\u{5C7}'
            ||| ('\u{610}' <= c && c <= '\u{61A}')
            ||| ('\u{64B}' <= c && c <= '\u{65F}')
            ||| c == '\u{670}'
            ||| ('\u{6D6}' <= c && c <= '\u{6DC}')
            ||| ('\u{6DF}' <= c && c <= '\u{6E4}')
            ||| ('\u{6E7}' <= c && c <= '\u{6E8}')
            ||| ('\u{6EA}' <= c && c <= '\u{6ED}')
            ||| c == '\u{711}'
            ||| ('\u{730}' <= c && c <= '\u{74A}')
            ||| ('\u{7A6}' <= c && c <= '\u{7B0}')
            ||| ('\u{7EB}' <= c && c <= '\u{7F3}')
            ||| ('\u{816}' <= c && c <= '\u{819}')
            ||| ('\u{81B}' <= c && c <= '\u{823}')
            ||| ('\u{825}' <= c && c <= '\u{827}')
            ||| ('\u{829}' <= c && c <= '\u{82D}')
            ||| ('\u{859}' <= c && c <= '\u{85B}')
            ||| ('\u{8D3}' <= c && c <= '\u{8E1}')
            ||| ('\u{8E3}' <= c && c <= '\u{902}')
            ||| c == '\u{93A}'
            ||| c == '\u{93C}'
            ||| ('\u{941}' <= c && c <= '\u{948}')
            ||| c == '\u{94D}'
            ||| ('\u{951}' <= c && c <= '\u{957}')
            ||| ('\u{962}' <= c && c <= '\u{963}')
            ||| c == '\u{981}'
            ||| c == '\u{9BC}'
            ||| ('\u{9C1}' <= c && c <= '\u{9C4}')
            ||| c == '\u{9CD}'
            ||| ('\u{9E2}' <= c && c <= '\u{9E3}')
            ||| ('\u{A01}' <= c && c <= '\u{A02}')
            ||| c == '\u{A3C}'
            ||| ('\u{A41}' <= c && c <= '\u{A42}')
            ||| ('\u{A47}' <= c && c <= '\u{A48}')
            ||| ('\u{A4B}' <= c && c <= '\u{A4D}')
            ||| c == '\u{A51}'
            ||| ('\u{A70}' <= c && c <= '\u{A71}')
            ||| c == '\u{A75}'
            ||| ('\u{A81}' <= c && c <= '\u{A82}')
            ||| c == '\u{ABC}'
            ||| ('\u{AC1}' <= c && c <= '\u{AC5}')
            ||| ('\u{AC7}' <= c && c <= '\u{AC8}')
            ||| c == '\u{ACD}'
            ||| ('\u{AE2}' <= c && c <= '\u{AE3}')
            ||| c == '\u{B01}'
            ||| c == '\u{B3C}'
            ||| c == '\u{B3F}'
            ||| ('\u{B41}' <= c && c <= '\u{B44}')
            ||| c == '\u{B4D}'
            ||| c == '\u{B56}'
            ||| ('\u{B62}' <= c && c <= '\u{B63}')
            ||| c == '\u{B82}'
            ||| c == '\u{BC0}'
            ||| c == '\u{BCD}'
            ||| c == '\u{C00}'
            ||| c == '\u{C04}'
            ||| ('\u{C3E}' <= c && c <= '\u{C40}')
            ||| ('\u{C46}' <= c && c <= '\u{C48}')
            ||| ('\u{C4A}' <= c && c <= '\u{C4D}')
            ||| ('\u{C55}' <= c && c <= '\u{C56}')
            ||| ('\u{C62}' <= c && c <= '\u{C63}')
            ||| c == '\u{C81}'
            ||| c == '\u{CBC}'
            ||| c == '\u{CBF}'
            ||| c == '\u{CC6}'
            ||| ('\u{CCC}' <= c && c <= '\u{CCD}')
            ||| ('\u{CE2}' <= c && c <= '\u{CE3}')
            ||| ('\u{D00}' <= c && c <= '\u{D01}')
            ||| ('\u{D3B}' <= c && c <= '\u{D3C}')
            ||| ('\u{D41}' <= c && c <= '\u{D44}')
            ||| c == '\u{D4D}'
            ||| ('\u{D62}' <= c && c <= '\u{D63}')
            ||| c == '\u{DCA}'
            ||| ('\u{DD2}' <= c && c <= '\u{DD4}')
            ||| c == '\u{DD6}'
            ||| c == '\u{E31}'
            ||| ('\u{E34}' <= c && c <= '\u{E3A}')
            ||| ('\u{E47}' <= c && c <= '\u{E4E}')
            ||| c == '\u{EB1}'
            ||| ('\u{EB4}' <= c && c <= '\u{EBC}')
            ||| ('\u{EC8}' <= c && c <= '\u{ECE}')
            ||| ('\u{F18}' <= c && c <= '\u{F19}')
            ||| c == '\u{F35}'
            ||| c == '\u{F37}'
            ||| c == '\u{F39}'
            ||| ('\u{F71}' <= c && c <= '\u{F7E}')
            ||| ('\u{F80}' <= c && c <= '\u{F84}')
            ||| ('\u{F86}' <= c && c <= '\u{F87}')
            ||| ('\u{F8D}' <= c && c <= '\u{F97}')
            ||| ('\u{F99}' <= c && c <= '\u{FBC}')
            ||| c == '\u{FC6}'
            ||| ('\u{102D}' <= c && c <= '\u{1030}')
            ||| ('\u{1032}' <= c && c <= '\u{1037}')
            ||| ('\u{1039}' <= c && c <= '\u{103A}')
            ||| ('\u{103D}' <= c && c <= '\u{103E}')
            ||| ('\u{1058}' <= c && c <= '\u{1059}')
            ||| ('\u{105E}' <= c && c <= '\u{1060}')
            ||| ('\u{1071}' <= c && c <= '\u{1074}')
            ||| c == '\u{1082}'
            ||| ('\u{1085}' <= c && c <= '\u{1086}')
            ||| c == '\u{108D}'
            ||| c == '\u{109D}'
            ||| ('\u{135D}' <= c && c <= '\u{135F}')
            ||| ('\u{1712}' <= c && c <= '\u{1714}')
            ||| ('\u{1732}' <= c && c <= '\u{1734}')
            ||| ('\u{1752}' <= c && c <= '\u{1753}')
            ||| ('\u{1772}' <= c && c <= '\u{1773}')
            ||| ('\u{17B4}' <= c && c <= '\u{17B5}')
            ||| ('\u{17B7}' <= c && c <= '\u{17BD}')
            ||| c == '\u{17C6}'
            ||| ('\u{17C9}' <= c && c <= '\u{17D3}')
            ||| c == '\u{17DD}'
            ||| ('\u{180B}' <= c && c <= '\u{180F}')
            ||| ('\u{1885}' <= c && c <= '\u{1886}')
            ||| c == '\u{18A9}'
            ||| ('\u{1920}' <= c && c <= '\u{1922}')
            ||| ('\u{1927}' <= c && c <= '\u{1928}')
            ||| c == '\u{1932}'
            ||| ('\u{1939}' <= c && c <= '\u{193B}')
            ||| ('\u{1A17}' <= c && c <= '\u{1A18}')
            ||| c == '\u{1A1B}'
            ||| c == '\u{1A56}'
            ||| ('\u{1A58}' <= c && c <= '\u{1A5E}')
            ||| c == '\u{1A60}'
            ||| c == '\u{1A62}'
            ||| ('\u{1A65}' <= c && c <= '\u{1A6C}')
            ||| ('\u{1A73}' <= c && c <= '\u{1A7C}')
            ||| c == '\u{1A7F}'
            ||| ('\u{1AB0}' <= c && c <= '\u{1ACE}')
            ||| ('\u{1B00}' <= c && c <= '\u{1B03}')
            ||| c == '\u{1B34}'
            ||| ('\u{1B36}' <= c && c <= '\u{1B3A}')
            ||| c == '\u{1B3C}'
            ||| c == '\u{1B42}'
            ||| ('\u{1B6B}' <= c && c <= '\u{1B73}')
            ||| ('\u{1B80}' <= c && c <= '\u{1B81}')
            ||| ('\u{1BA2}' <= c && c <= '\u{1BA5}')
            ||| ('\u{1BA8}' <= c && c <= '\u{1BA9}')
            ||| ('\u{1BAB}' <= c && c <= '\u{1BAD}')
            ||| c == '\u{1BE6}'
            ||| ('\u{1BE8}' <= c && c <= '\u{1BE9}')
            ||| c == '\u{1BED}'
            ||| ('\u{1BEF}' <= c && c <= '\u{1BF1}')
            ||| ('\u{1C2C}' <= c && c <= '\u{1C33}')
            ||| ('\u{1C36}' <= c && c <= '\u{1C37}')
            ||| ('\u{1CD0}' <= c && c <= '\u{1CD2}')
            ||| ('\u{1CD4}' <= c && c <= '\u{1CE0}')
            ||| ('\u{1CE2}' <= c && c <= '\u{1CE8}')
            ||| c == '\u{1CED}'
            ||| c == '\u{1CF4}'
            ||| ('\u{1CF8}' <= c && c <= '\u{1CF9}')
            ||| ('\u{1DC0}' <= c && c <= '\u{1DFF}')
            ||| ('\u{200B}' <= c && c <= '\u{200F}')
            ||| ('\u{202A}' <= c && c <= '\u{202E}')
            ||| ('\u{2060}' <= c && c <= '\u{2064}')
            ||| ('\u{2066}' <= c && c <= '\u{206F}')
            ||| ('\u{20D0}' <= c && c <= '\u{20F0}')
            ||| ('\u{2CEF}' <= c && c <= '\u{2CF1}')
            ||| c == '\u{2D7F}'
            ||| ('\u{2DE0}' <= c && c <= '\u{2DFF}')
            ||| ('\u{302A}' <= c && c <= '\u{302F}')
            ||| ('\u{3099}' <= c && c <= '\u{309A}')
            ||| c == '\u{A66F}'
            ||| ('\u{A674}' <= c && c <= '\u{A67D}')
            ||| ('\u{A69E}' <= c && c <= '\u{A69F}')
            ||| ('\u{A6F0}' <= c && c <= '\u{A6F1}')
            ||| c == '\u{A802}'
            ||| c == '\u{A806}'
            ||| c == '\u{A80B}'
            ||| ('\u{A825}' <= c && c <= '\u{A826}')
            ||| c == '\u{A82C}'
            ||| ('\u{A8C4}' <= c && c <= '\u{A8C5}')
            ||| ('\u{A8E0}' <= c && c <= '\u{A8F1}')
            ||| ('\u{A8FF}' <= c && c <= '\u{A901}')
            ||| ('\u{A926}' <= c && c <= '\u{A92D}')
            ||| ('\u{A947}' <= c && c <= '\u{A951}')
            ||| ('\u{A980}' <= c && c <= '\u{A982}')
            ||| c == '\u{A9B3}'
            ||| ('\u{A9B6}' <= c && c <= '\u{A9B9}')
            ||| c == '\u{A9BC}'
            ||| c == '\u{A9E5}'
            ||| ('\u{AA29}' <= c && c <= '\u{AA2E}')
            ||| ('\u{AA31}' <= c && c <= '\u{AA32}')
            ||| ('\u{AA35}' <= c && c <= '\u{AA36}')
            ||| c == '\u{AA43}'
            ||| c == '\u{AA4C}'
            ||| c == '\u{AA7C}'
            ||| c == '\u{AAB0}'
            ||| ('\u{AAB2}' <= c && c <= '\u{AAB4}')
            ||| ('\u{AAB7}' <= c && c <= '\u{AAB8}')
            ||| ('\u{AABE}' <= c && c <= '\u{AABF}')
            ||| c == '\u{AAC1}'
            ||| ('\u{AAEC}' <= c && c <= '\u{AAED}')
            ||| c == '\u{AAF6}'
            ||| c == '\u{ABE5}'
            ||| c == '\u{ABE8}'
            ||| c == '\u{ABED}'
            ||| c == '\u{FB1E}'
            ||| ('\u{FE00}' <= c && c <= '\u{FE0F}')
            ||| ('\u{FE20}' <= c && c <= '\u{FE2F}')
            ||| c == '\u{FEFF}'
            ||| ('\u{FFF9}' <= c && c <= '\u{FFFB}')
            ||| c == '\u{101FD}'
            ||| c == '\u{102E0}'
            ||| ('\u{10376}' <= c && c <= '\u{1037A}')
            ||| ('\u{10A01}' <= c && c <= '\u{10A03}')
            ||| ('\u{10A05}' <= c && c <= '\u{10A06}')
            ||| ('\u{10A0C}' <= c && c <= '\u{10A0F}')
            ||| ('\u{10A38}' <= c && c <= '\u{10A3A}')
            ||| c == '\u{10A3F}'
            ||| ('\u{10AE5}' <= c && c <= '\u{10AE6}')
            ||| ('\u{11000}' <= c && c <= '\u{11002}')
            ||| ('\u{11038}' <= c && c <= '\u{11046}')
            ||| ('\u{1107F}' <= c && c <= '\u{11082}')
            ||| ('\u{110B3}' <= c && c <= '\u{110B6}')
            ||| ('\u{110B9}' <= c && c <= '\u{110BA}')
            ||| ('\u{11100}' <= c && c <= '\u{11102}')
            ||| ('\u{11127}' <= c && c <= '\u{1112B}')
            ||| ('\u{1112D}' <= c && c <= '\u{11134}')
            ||| c == '\u{11173}'
            ||| ('\u{11180}' <= c && c <= '\u{11181}')
            ||| ('\u{111B6}' <= c && c <= '\u{111BE}')
            ||| ('\u{111C9}' <= c && c <= '\u{111CC}')
            ||| ('\u{1122F}' <= c && c <= '\u{11231}')
            ||| c == '\u{11234}'
            ||| ('\u{11236}' <= c && c <= '\u{11237}')
            ||| c == '\u{1123E}'
            ||| c == '\u{112DF}'
            ||| ('\u{112E3}' <= c && c <= '\u{112EA}')
            ||| ('\u{11300}' <= c && c <= '\u{11301}')
            ||| c == '\u{1133C}'
            ||| c == '\u{11340}'
            ||| ('\u{11366}' <= c && c <= '\u{1136C}')
            ||| ('\u{11370}' <= c && c <= '\u{11374}')
            ||| ('\u{11438}' <= c && c <= '\u{1143F}')
            ||| ('\u{11442}' <= c && c <= '\u{11444}')
            ||| c == '\u{11446}'
            ||| ('\u{114B3}' <= c && c <= '\u{114B8}')
            ||| c == '\u{114BA}'
            ||| ('\u{114BF}' <= c && c <= '\u{114C0}')
            ||| ('\u{114C2}' <= c && c <= '\u{114C3}')
            ||| ('\u{115B2}' <= c && c <= '\u{115B5}')
            ||| ('\u{115BC}' <= c && c <= '\u{115BD}')
            ||| ('\u{115BF}' <= c && c <= '\u{115C0}')
            ||| ('\u{115DC}' <= c && c <= '\u{115DD}')
            ||| ('\u{11633}' <= c && c <= '\u{1163A}')
            ||| c == '\u{1163D}'
            ||| ('\u{1163F}' <= c && c <= '\u{11640}')
            ||| c == '\u{116AB}'
            ||| c == '\u{116AD}'
            ||| ('\u{116B0}' <= c && c <= '\u{116B5}')
            ||| c == '\u{116B7}'
            ||| ('\u{1171D}' <= c && c <= '\u{1171F}')
            ||| ('\u{11722}' <= c && c <= '\u{11725}')
            ||| ('\u{11727}' <= c && c <= '\u{1172B}')
            ||| ('\u{1182F}' <= c && c <= '\u{11837}')
            ||| ('\u{11839}' <= c && c <= '\u{1183A}')
            ||| ('\u{11A01}' <= c && c <= '\u{11A0A}')
            ||| ('\u{11A33}' <= c && c <= '\u{11A38}')
            ||| ('\u{11A3B}' <= c && c <= '\u{11A3E}')
            ||| c == '\u{11A47}'
            ||| ('\u{11A51}' <= c && c <= '\u{11A56}')
            ||| ('\u{11A59}' <= c && c <= '\u{11A5B}')
            ||| ('\u{11A8A}' <= c && c <= '\u{11A96}')
            ||| ('\u{11A98}' <= c && c <= '\u{11A99}')
            ||| ('\u{11C30}' <= c && c <= '\u{11C36}')
            ||| ('\u{11C38}' <= c && c <= '\u{11C3D}')
            ||| c == '\u{11C3F}'
            ||| ('\u{11C92}' <= c && c <= '\u{11CA7}')
            ||| ('\u{11CAA}' <= c && c <= '\u{11CB0}')
            ||| ('\u{11CB2}' <= c && c <= '\u{11CB3}')
            ||| ('\u{11CB5}' <= c && c <= '\u{11CB6}')
            ||| ('\u{16AF0}' <= c && c <= '\u{16AF4}')
            ||| ('\u{16B30}' <= c && c <= '\u{16B36}')
            ||| ('\u{16F8F}' <= c && c <= '\u{16F92}')
            ||| ('\u{1BC9D}' <= c && c <= '\u{1BC9E}')
            ||| ('\u{1D167}' <= c && c <= '\u{1D169}')
            ||| ('\u{1D17B}' <= c && c <= '\u{1D182}')
            ||| ('\u{1D185}' <= c && c <= '\u{1D18B}')
            ||| ('\u{1D1AA}' <= c && c <= '\u{1D1AD}')
            ||| ('\u{1D242}' <= c && c <= '\u{1D244}')
            ||| ('\u{1DA00}' <= c && c <= '\u{1DA36}')
            ||| ('\u{1DA3B}' <= c && c <= '\u{1DA6C}')
            ||| c == '\u{1DA75}'
            ||| c == '\u{1DA84}'
            ||| ('\u{1DA9B}' <= c && c <= '\u{1DA9F}')
            ||| ('\u{1DAA1}' <= c && c <= '\u{1DAAF}')
            ||| ('\u{1E000}' <= c && c <= '\u{1E006}')
            ||| ('\u{1E008}' <= c && c <= '\u{1E018}')
            ||| ('\u{1E01B}' <= c && c <= '\u{1E021}')
            ||| ('\u{1E023}' <= c && c <= '\u{1E024}')
            ||| ('\u{1E026}' <= c && c <= '\u{1E02A}')
            ||| ('\u{1E8D0}' <= c && c <= '\u{1E8D6}')
            ||| ('\u{1E944}' <= c && c <= '\u{1E94A}')
            ||| ('\u{E0100}' <= c && c <= '\u{E01EF}')
        }),
    ensures
        char_width(c) == 0,
{
}

/// Only characters from U+1100 on can take two columns; printable ASCII takes
/// one.
pub proof fn law_narrow_below_hangul_jamo(c: char)
    ensures
        char_width(c) == 2 ==> c >= '\u{1100}',
        (' ' <= c && c <= '~') ==> char_width(c) == 1,
{
}

/// Number of terminal columns that `ch` occupies.
pub fn char_display_width(ch: char) -> (w: usize)
    ensures
        w == char_width(ch),
{
    if is_control_char(ch) || is_zero_width_char(ch) {
        return 0;
    }
    if is_wide_char(ch) {
        2
    } else {
        1
    }
}

/// Sum of the display widths of the characters of `s`.
pub open spec fn text_width(s: Seq<char>) -> nat
    decreases s.len(),
{
    if s.len() == 0 {
        0
    } else {
        text_width(s.drop_last()) + char_width(s.last())
    }
}

/// A text never needs more than two columns per character.
pub proof fn lemma_text_width_bound(s: Seq<char>)
    ensures
        text_width(s) <= 2 * s.len(),
    decreases s.len(),
{
    if s.len() > 0 {
        lemma_text_width_bound(s.drop_last());
    }
}

/// The width of a concatenation is the sum of the widths.
pub proof fn lemma_text_width_concat(a: Seq<char>, b: Seq<char>)
    ensures
        text_width(a + b) == text_width(a) + text_width(b),
    decreases b.len(),
{
    if b.len() == 0 {
        assert(a + b =~= a);
    } else {
        lemma_text_width_concat(a, b.drop_last());
        assert((a + b).drop_last() =~= a + b.drop_last());
    }
}

/// Display width of the characters `v[0..n)`.
pub fn width_of_prefix(v: &Vec<char>, n: usize) -> (w: usize)
    requires
        n <= v@.len(),
        v@.len() <= isize::MAX,
    ensures
        w == text_width(v@.take(n as int)),
{
    let mut w: usize = 0;
    let mut i: usize = 0;
    while i < n
        invariant
            i <= n <= v@.len() <= isize::MAX,
            w == text_width(v@.take(i as int)),
        decreases n - i,
    {
        proof {
            lemma_text_width_bound(v@.take(i as int));
            assert(v@.take(i + 1).drop_last() =~= v@.take(i as int));
        }
        w = w + char_display_width(v[i]);
        i = i + 1;
    }
    w
}

/// Display width of a whole character vector.
pub fn width_of(v: &Vec<char>) -> (w: usize)
    requires
        v@.len() <= isize::MAX,
    ensures
        w == text_width(v@),
{
    let w = width_of_prefix(v, v.len());
    assert(v@.take(v@.len() as int) =~= v@);
    w
}

/// Display width of `text` in terminal columns.
pub fn text_display_width(text: &str) -> (w: usize)
    ensures
        w == text_width(text@),
{
    let v = chars_of(text);
    width_of(&v)
}

/// Display width of the first `char_count` characters of `text`.
pub fn text_display_width_up_to(text: &str, char_count: usize) -> (w: usize)
    ensures
        w == text_width(text@.take(min_nat(char_count as nat, text@.len()) as int)),
{
    let v = chars_of(text);
    let n = if char_count < v.len() {
        char_count
    } else {
        v.len()
    };
    width_of_prefix(&v, n)
}

/// The smaller of two naturals.
pub open spec fn min_nat(a: nat, b: nat) -> nat {
    if a <= b {
        a
    } else {
        b
    }
}

/// A final byte of a control sequence: a character in `'@'..='~'`.
pub open spec fn is_csi_final(c: char) -> bool {
    '@' <= c && c <= '~'
}

/// Columns taken by `s[i..]` on a terminal that interprets escape sequences:
/// `ESC [` starts a control sequence that runs up to and including its final
/// character, `ESC` followed by any other character hides both characters,
/// control characters take no column, and every other character takes its
/// display width. `in_csi` says whether `s[i..]` starts inside a control sequence.
pub open spec fn visible_from(s: Seq<char>, i: int, in_csi: bool) -> nat
    decreases s.len() - i,
{
    if i < 0 || i >= s.len() {
        0
    } else if in_csi {
        visible_from(s, i + 1, !is_csi_final(s[i]))
    } else if s[i] == ESC {
        if i + 1 >= s.len() {
            0
        } else {
            visible_from(s, i + 2, s[i + 1] == '[')
        }
    } else if is_control(s[i]) {
        visible_from(s, i + 1, false)
    } else {
        char_width(s[i]) + visible_from(s, i + 1, false)
    }
}

/// Columns that `s` occupies once its escape sequences are interpreted.
pub open spec fn visible_width(s: Seq<char>) -> nat {
    visible_from(s, 0, false)
}

/// The visible part of a text never needs more than two columns per character.
pub proof fn lemma_visible_from_bound(s: Seq<char>, i: int, in_csi: bool)
    requires
        0 <= i <= s.len(),
    ensures
        visible_from(s, i, in_csi) <= 2 * (s.len() - i),
    decreases s.len() - i,
{
    if i < s.len() {
        if in_csi {
            lemma_visible_from_bound(s, i + 1, !is_csi_final(s[i]));
        } else if s[i] == ESC {
            if i + 1 < s.len() {
                lemma_visible_from_bound(s, i + 2, s[i + 1] == '[');
            }
        } else {
            lemma_visible_from_bound(s, i + 1, false);
        }
    }
}

/// Number of terminal columns that `text` occupies once its ANSI escape
/// sequences are interpreted.
pub fn visible_text_width(text: &str) -> (w: usize)
    ensures
        w == visible_width(text@),
{
    let v = chars_of(text);
    let n = v.len();
    let mut i: usize = 0;
    let mut in_csi = false;
    let mut w: usize = 0;
    proof {
        lemma_visible_from_bound(v@, 0, false);
    }
    while i < n
        invariant
            n == v@.len(),
            v@.len() <= isize::MAX,
            i <= n,
            visible_width(v@) == w + visible_from(v@, i as int, in_csi),
            w + 2 * (n - i) <= 2 * n,
        decreases n - i,
    {
        let ch = v[i];
        proof {
            lemma_visible_from_bound(v@, i as int, in_csi);
        }
        if in_csi {
            in_csi = !('@' <= ch && ch <= '~');
            i = i + 1;
        } else if ch == ESC {
            if i + 1 >= n {
                i = n;
            } else {
                in_csi = v[i + 1] == '[';
                i = i + 2;
            }
        } else if is_control_char(ch) {
            i = i + 1;
        } else {
            proof {
                lemma_visible_from_bound(v@, i + 1, false);
            }
            w = w + char_display_width(ch);
            i = i + 1;
        }
    }
    w
}

/// Scanning a concatenation past its first part continues as scanning the
/// second part alone.
pub proof fn lemma_visible_from_shift(a: Seq<char>, b: Seq<char>, j: int, in_csi: bool)
    requires
        0 <= j <= b.len(),
    ensures
        visible_from(a + b, a.len() + j, in_csi) == visible_from(b, j, in_csi),
    decreases b.len() - j,
{
    let s = a + b;
    let i = a.len() + j;
    if j < b.len() {
        assert(s[i] == b[j]);
        if in_csi {
            lemma_visible_from_shift(a, b, j + 1, !is_csi_final(b[j]));
        } else if b[j] == ESC {
            if j + 1 < b.len() {
                assert(s[i + 1] == b[j + 1]);
                lemma_visible_from_shift(a, b, j + 2, b[j + 1] == '[');
            }
        } else {
            lemma_visible_from_shift(a, b, j + 1, false);
        }
    }
}

/// A character that is neither a control character nor the end of a
/// control sequence parameter list: digits, `;` and `?` among them.
pub open spec fn is_csi_parameter(c: char) -> bool {
    '0' <= c && c <= '?'
}

/// An SGR escape: `ESC [`, parameter characters, `m`.
pub open spec fn is_sgr_escape(e: Seq<char>) -> bool {
    &&& e.len() >= 3
    &&& e[0] == ESC
    &&& e[1] == '['
    &&& e[e.len() - 1] == 'm'
    &&& forall|k: int| 2 <= k < e.len() - 1 ==> is_csi_parameter(#[trigger] e[k])
}

/// An SGR escape takes no column, and the text after it is scanned from its start.
pub proof fn lemma_visible_escape_prefix(e: Seq<char>, rest: Seq<char>)
    requires
        is_sgr_escape(e),
    ensures
        visible_from(e + rest, 0, false) == visible_from(rest, 0, false),
{
    let params = e.subrange(2, e.len() - 1);
    let s = e + rest;
    assert(s[0] == ESC);
    assert(s[1] == '[');
    assert forall|k: int| 0 <= k < params.len() implies #[trigger] e[k + 2] == params[k] by {}
    assert forall|k: int| 0 <= k < params.len() implies is_csi_parameter(#[trigger] params[k]) by {
        assert(params[k] == e[k + 2]);
    }
    assert(is_csi_final(e[params.len() + 2int]));
    lemma_visible_csi_params(e, rest, params, 2);
    lemma_visible_from_shift(e, rest, 0, false);
}

/// `ESC [ digits m` is an SGR escape.
pub proof fn lemma_sgr_of_digits(params: Seq<char>)
    requires
        forall|k: int| 0 <= k < params.len() ==> is_csi_parameter(#[trigger] params[k]),
    ensures
        is_sgr_escape(seq![ESC, '['] + params + seq!['m']),
{
    let e = seq![ESC, '['] + params + seq!['m'];
    assert forall|k: int| 2 <= k < e.len() - 1 implies is_csi_parameter(#[trigger] e[k]) by {
        assert(e[k] == params[k - 2]);
    }
}

/// Inside a control sequence, parameter characters are skipped up to the final one.
proof fn lemma_visible_csi_params(e: Seq<char>, rest: Seq<char>, params: Seq<char>, i: int)
    requires
        e.len() == params.len() + 3,
        2 <= i <= params.len() + 2,
        forall|k: int| 0 <= k < params.len() ==> #[trigger] e[k + 2] == params[k],
        forall|k: int| 0 <= k < params.len() ==> is_csi_parameter(#[trigger] params[k]),
        is_csi_final(e[params.len() + 2int]),
    ensures
        visible_from(e + rest, i, true) == visible_from(e + rest, e.len() as int, false),
    decreases params.len() + 2 - i,
{
    let s = e + rest;
    assert(s[i] == e[i]);
    if i < params.len() + 2 {
        assert(e[(i - 2) + 2] == params[i - 2]);
        assert(!is_csi_final(s[i]));
        lemma_visible_csi_params(e, rest, params, i + 1);
    }
}

/// Text without control characters shows its display width, and what follows
/// it is scanned from its start.
pub proof fn lemma_visible_plain_prefix(t: Seq<char>, rest: Seq<char>)
    requires
        forall|k: int| 0 <= k < t.len() ==> !is_control(#[trigger] t[k]),
    ensures
        visible_from(t + rest, 0, false) == text_width(t) + visible_from(rest, 0, false),
    decreases t.len(),
{
    if t.len() == 0 {
        assert(t + rest =~= rest);
    } else {
        let c = t[0];
        let u = t.drop_first();
        let s = t + rest;
        assert(s =~= seq![c] + (u + rest));
        assert(!is_control(c));
        assert(c != ESC);
        assert(s[0] == c);
        assert(visible_from(s, 0, false) == char_width(c) + visible_from(s, 1, false));
        lemma_visible_from_shift(seq![c], u + rest, 0, false);
        assert(visible_from(s, 1, false) == visible_from(u + rest, 0, false));
        assert forall|k: int| 0 <= k < u.len() implies !is_control(#[trigger] u[k]) by {
            assert(u[k] == t[k + 1]);
        }
        lemma_visible_plain_prefix(u, rest);
        lemma_text_width_concat(seq![c], u);
        assert(seq![c] + u =~= t);
        assert(seq![c].drop_last() =~= Seq::<char>::empty());
        assert(text_width(Seq::<char>::empty()) == 0);
        assert(seq![c].last() == c);
        assert(text_width(seq![c]) == char_width(c));
    }
}

/// For text without control characters, the visible width is the display width.
pub proof fn law_visible_width_of_plain_text(t: Seq<char>)
    requires
        forall|k: int| 0 <= k < t.len() ==> !is_control(#[trigger] t[k]),
    ensures
        visible_width(t) == text_width(t),
{
    lemma_visible_plain_prefix(t, Seq::empty());
    assert(t + Seq::<char>::empty() =~= t);
}

/// The digits of a decimal number are parameter characters.
pub proof fn lemma_decimal_digits(n: nat)
    ensures
        forall|k: int| 0 <= k < decimal(n).len() ==> is_csi_parameter(#[trigger] decimal(n)[k]),
        decimal(n).len() >= 1,
    decreases n,
{
    if n >= 10 {
        lemma_decimal_digits(n / 10);
        let prev = decimal(n / 10);
        assert forall|k: int| 0 <= k < decimal(n).len() implies is_csi_parameter(
            #[trigger] decimal(n)[k],
        ) by {
            if k < prev.len() {
                assert(decimal(n)[k] == prev[k]);
            }
        }
    }
}

// ---------------------------------------------------------------------------
// Strings
// ---------------------------------------------------------------------------

/// Number of characters in `s`, as `str::chars().count()` counts them.
/// A `str` spans at most `isize::MAX` bytes and every character takes at
/// least one byte, so the count is at most `isize::MAX`.
#[verifier::external_body]
fn char_count(s: &str) -> (n: usize)
    ensures
        n == s@.len(),
        n <= isize::MAX,
{
    s.chars().count()
}

/// The characters of `s`, in order.
pub fn chars_of(s: &str) -> (v: Vec<char>)
    ensures
        v@ == s@,
        v@.len() <= isize::MAX,
{
    let n = char_count(s);
    let mut v: Vec<char> = Vec::new();
    for c in it: s.chars()
        invariant
            v@ == it.seq().take(it.index() as int),
            it.seq() == s@,
    {
        v.push(c);
    }
    v
}

/// `String::push`: appends `c` to the end of `s`.
#[verifier::external_body]
pub fn string_push(s: &mut String, c: char)
    ensures
        final(s)@ == old(s)@.push(c),
{
    s.push(c);
}

/// Appends the characters `v[lo..hi)` to `s`.
pub fn push_range(s: &mut String, v: &Vec<char>, lo: usize, hi: usize)
    requires
        lo <= hi <= v@.len(),
    ensures
        final(s)@ == old(s)@ + v@.subrange(lo as int, hi as int),
{
    let mut i = lo;
    while i < hi
        invariant
            lo <= i <= hi <= v@.len(),
            s@ == old(s)@ + v@.subrange(lo as int, i as int),
        decreases hi - i,
    {
        string_push(s, v[i]);
        i = i + 1;
        assert(s@ =~= old(s)@ + v@.subrange(lo as int, i as int));
    }
}

/// A string holding the characters `v[lo..hi)`.
pub fn string_of_range(v: &Vec<char>, lo: usize, hi: usize) -> (s: String)
    requires
        lo <= hi <= v@.len(),
    ensures
        s@ == v@.subrange(lo as int, hi as int),
{
    let mut s = String::new();
    push_range(&mut s, v, lo, hi);
    assert(s@ =~= v@.subrange(lo as int, hi as int));
    s
}

/// Appends the characters of `text` to `s`.
pub fn push_str(s: &mut String, text: &str)
    ensures
        final(s)@ == old(s)@ + text@,
{
    s.append(text);
}

/// `n` copies of `c`.
pub open spec fn repeat_char(c: char, n: nat) -> Seq<char> {
    Seq::new(n, |_i: int| c)
}

/// Appends `n` copies of `c` to `s`.
pub fn push_repeat(s: &mut String, c: char, n: usize)
    ensures
        final(s)@ == old(s)@ + repeat_char(c, n as nat),
{
    let mut i: usize = 0;
    while i < n
        invariant
            i <= n,
            s@ == old(s)@ + repeat_char(c, i as nat),
        decreases n - i,
    {
        string_push(s, c);
        i = i + 1;
        assert(s@ =~= old(s)@ + repeat_char(c, i as nat));
    }
}

/// A string of `n` spaces.
pub fn spaces(n: usize) -> (s: String)
    ensures
        s@ == repeat_char(' ', n as nat),
{
    let mut s = String::new();
    push_repeat(&mut s, ' ', n);
    assert(s@ =~= repeat_char(' ', n as nat));
    s
}

/// The decimal digit character for `d < 10`.
pub open spec fn digit_char(d: nat) -> char {
    (d + 48) as char
}

/// Decimal representation of `n`, without leading zeros.
pub open spec fn decimal(n: nat) -> Seq<char>
    decreases n,
{
    if n < 10 {
        seq![digit_char(n)]
    } else {
        decimal(n / 10).push(digit_char(n % 10))
    }
}

/// Appends the decimal representation of `n` to `s`.
pub fn push_decimal(s: &mut String, n: u64)
    ensures
        final(s)@ == old(s)@ + decimal(n as nat),
    decreases n,
{
    if n >= 10 {
        push_decimal(s, n / 10);
    }
    let d: u8 = (n % 10) as u8;
    let c = char_from_ascii(d + 48);
    string_push(s, c);
    assert(c == digit_char((n % 10) as nat));
    if n >= 10 {
        assert(s@ =~= old(s)@ + decimal(n as nat));
    } else {
        assert(s@ =~= old(s)@ + decimal(n as nat));
    }
}

/// `s` with its leading characters for which `strip` holds removed.
pub open spec fn trim_start_by(s: Seq<char>, strip: spec_fn(char) -> bool) -> Seq<char>
    decreases s.len(),
{
    if s.len() > 0 && strip(s[0]) {
        trim_start_by(s.drop_first(), strip)
    } else {
        s
    }
}

/// `s` with its trailing characters for which `strip` holds removed.
pub open spec fn trim_end_by(s: Seq<char>, strip: spec_fn(char) -> bool) -> Seq<char>
    decreases s.len(),
{
    if s.len() > 0 && strip(s.last()) {
        trim_end_by(s.drop_last(), strip)
    } else {
        s
    }
}

/// The white space test as a predicate value.
pub open spec fn whitespace_pred() -> spec_fn(char) -> bool {
    |c: char| is_whitespace(c)
}

/// `s` without leading and trailing white space, as `str::trim` gives it.
pub open spec fn trim(s: Seq<char>) -> Seq<char> {
    trim_end_by(trim_start_by(s, whitespace_pred()), whitespace_pred())
}

pub proof fn lemma_trim_start_index(s: Seq<char>, i: int, strip: spec_fn(char) -> bool)
    requires
        0 <= i <= s.len(),
        forall|k: int| 0 <= k < i ==> strip(#[trigger] s[k]),
    ensures
        trim_start_by(s, strip) == trim_start_by(s.skip(i), strip),
    decreases i,
{
    if i > 0 {
        assert(strip(s[0]));
        assert(s.drop_first().skip(i - 1) =~= s.skip(i));
        lemma_trim_start_index(s.drop_first(), i - 1, strip);
    } else {
        assert(s.skip(0) =~= s);
    }
}

pub proof fn lemma_trim_end_index(s: Seq<char>, j: int, strip: spec_fn(char) -> bool)
    requires
        0 <= j <= s.len(),
        forall|k: int| j <= k < s.len() ==> strip(#[trigger] s[k]),
    ensures
        trim_end_by(s, strip) == trim_end_by(s.take(j), strip),
    decreases s.len() - j,
{
    if j < s.len() {
        assert(strip(s.last()));
        assert(s.drop_last().take(j) =~= s.take(j));
        lemma_trim_end_index(s.drop_last(), j, strip);
    } else {
        assert(s.take(j) =~= s);
    }
}

/// The characters `v[lo..hi)` without leading and trailing white space.
pub fn trimmed_range(v: &Vec<char>, lo: usize) -> (r: (usize, usize))
    requires
        lo <= v@.len(),
    ensures
        lo <= r.0 <= r.1 <= v@.len(),
        v@.subrange(r.0 as int, r.1 as int) == trim(v@.skip(lo as int)),
{
    let n = v.len();
    let ghost ws = whitespace_pred();
    let mut start = lo;
    while start < n && is_whitespace_char(v[start])
        invariant
            lo <= start <= n == v@.len(),
            forall|k: int| lo <= k < start ==> is_whitespace(#[trigger] v@[k]),
        decreases n - start,
    {
        start = start + 1;
    }
    let ghost rest = v@.skip(lo as int);
    proof {
        assert forall|k: int| 0 <= k < start - lo implies ws(#[trigger] rest[k]) by {
            assert(rest[k] == v@[lo + k]);
        }
        lemma_trim_start_index(rest, start - lo, ws);
        assert(rest.skip(start - lo) =~= v@.skip(start as int));
        assert(start == n || !ws(v@[start as int]));
        if start < n {
            assert(v@.skip(start as int)[0] == v@[start as int]);
        }
    }
    let ghost head = v@.skip(start as int);
    assert(trim_start_by(head, ws) == head);
    let mut end = n;
    while end > start && is_whitespace_char(v[end - 1])
        invariant
            start <= end <= n == v@.len(),
            forall|k: int| end <= k < n ==> is_whitespace(#[trigger] v@[k]),
        decreases end,
    {
        end = end - 1;
    }
    proof {
        assert forall|k: int| end - start <= k < head.len() implies ws(#[trigger] head[k]) by {
            assert(head[k] == v@[start + k]);
        }
        lemma_trim_end_index(head, end - start, ws);
        let t = head.take(end - start);
        assert(t =~= v@.subrange(start as int, end as int));
        if end > start {
            assert(t.last() == v@[end - 1]);
        }
        assert(trim_end_by(t, ws) == t);
    }
    (start, end)
}

} // verus!
