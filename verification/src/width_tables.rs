//! Tables of the characters that take no column or two columns on a terminal.

use vstd::prelude::*;

verus! {

/// Characters that occupy no terminal column: combining marks, zero-width
/// spaces and joiners, directional formatting characters and variation selectors.
pub open spec fn is_zero_width(c: char) -> bool {
    ||| ('\u{0300}' <= c && c <= '\u{036F}')
    ||| ('\u{0483}' <= c && c <= '\u{0489}')
    ||| ('\u{0591}' <= c && c <= '\u{05BD}')
    ||| c == '\u{05BF}'
    ||| ('\u{05C1}' <= c && c <= '\u{05C2}')
    ||| ('\u{05C4}' <= c && c <= '\u{05C5}')
    ||| c == '\u{05C7}'
    ||| ('\u{0610}' <= c && c <= '\u{061A}')
    ||| ('\u{064B}' <= c && c <= '\u{065F}')
    ||| c == '\u{0670}'
    ||| ('\u{06D6}' <= c && c <= '\u{06DC}')
    ||| ('\u{06DF}' <= c && c <= '\u{06E4}')
    ||| ('\u{06E7}' <= c && c <= '\u{06E8}')
    ||| ('\u{06EA}' <= c && c <= '\u{06ED}')
    ||| c == '\u{0711}'
    ||| ('\u{0730}' <= c && c <= '\u{074A}')
    ||| ('\u{07A6}' <= c && c <= '\u{07B0}')
    ||| ('\u{07EB}' <= c && c <= '\u{07F3}')
    ||| ('\u{0816}' <= c && c <= '\u{0819}')
    ||| ('\u{081B}' <= c && c <= '\u{0823}')
    ||| ('\u{0825}' <= c && c <= '\u{0827}')
    ||| ('\u{0829}' <= c && c <= '\u{082D}')
    ||| ('\u{0859}' <= c && c <= '\u{085B}')
    ||| ('\u{08D3}' <= c && c <= '\u{08E1}')
    ||| ('\u{08E3}' <= c && c <= '\u{0902}')
    ||| c == '\u{093A}'
    ||| c == '\u{093C}'
    ||| ('\u{0941}' <= c && c <= '\u{0948}')
    ||| c == '\u{094D}'
    ||| ('\u{0951}' <= c && c <= '\u{0957}')
    ||| ('\u{0962}' <= c && c <= '\u{0963}')
    ||| c == '\u{0981}'
    ||| c == '\u{09BC}'
    ||| ('\u{09C1}' <= c && c <= '\u{09C4}')
    ||| c == '\u{09CD}'
    ||| ('\u{09E2}' <= c && c <= '\u{09E3}')
    ||| ('\u{0A01}' <= c && c <= '\u{0A02}')
    ||| c == '\u{0A3C}'
    ||| ('\u{0A41}' <= c && c <= '\u{0A42}')
    ||| ('\u{0A47}' <= c && c <= '\u{0A48}')
    ||| ('\u{0A4B}' <= c && c <= '\u{0A4D}')
    ||| c == '\u{0A51}'
    ||| ('\u{0A70}' <= c && c <= '\u{0A71}')
    ||| c == '\u{0A75}'
    ||| ('\u{0A81}' <= c && c <= '\u{0A82}')
    ||| c == '\u{0ABC}'
    ||| ('\u{0AC1}' <= c && c <= '\u{0AC5}')
    ||| ('\u{0AC7}' <= c && c <= '\u{0AC8}')
    ||| c == '\u{0ACD}'
    ||| ('\u{0AE2}' <= c && c <= '\u{0AE3}')
    ||| c == '\u{0B01}'
    ||| c == '\u{0B3C}'
    ||| c == '\u{0B3F}'
    ||| ('\u{0B41}' <= c && c <= '\u{0B44}')
    ||| c == '\u{0B4D}'
    ||| c == '\u{0B56}'
    ||| ('\u{0B62}' <= c && c <= '\u{0B63}')
    ||| c == '\u{0B82}'
    ||| c == '\u{0BC0}'
    ||| c == '\u{0BCD}'
    ||| c == '\u{0C00}'
    ||| c == '\u{0C04}'
    ||| ('\u{0C3E}' <= c && c <= '\u{0C40}')
    ||| ('\u{0C46}' <= c && c <= '\u{0C48}')
    ||| ('\u{0C4A}' <= c && c <= '\u{0C4D}')
    ||| ('\u{0C55}' <= c && c <= '\u{0C56}')
    ||| ('\u{0C62}' <= c && c <= '\u{0C63}')
    ||| c == '\u{0C81}'
    ||| c == '\u{0CBC}'
    ||| c == '\u{0CBF}'
    ||| c == '\u{0CC6}'
    ||| ('\u{0CCC}' <= c && c <= '\u{0CCD}')
    ||| ('\u{0CE2}' <= c && c <= '\u{0CE3}')
    ||| ('\u{0D00}' <= c && c <= '\u{0D01}')
    ||| ('\u{0D3B}' <= c && c <= '\u{0D3C}')
    ||| ('\u{0D41}' <= c && c <= '\u{0D44}')
    ||| c == '\u{0D4D}'
    ||| ('\u{0D62}' <= c && c <= '\u{0D63}')
    ||| c == '\u{0DCA}'
    ||| ('\u{0DD2}' <= c && c <= '\u{0DD4}')
    ||| c == '\u{0DD6}'
    ||| c == '\u{0E31}'
    ||| ('\u{0E34}' <= c && c <= '\u{0E3A}')
    ||| ('\u{0E47}' <= c && c <= '\u{0E4E}')
    ||| c == '\u{0EB1}'
    ||| ('\u{0EB4}' <= c && c <= '\u{0EBC}')
    ||| ('\u{0EC8}' <= c && c <= '\u{0ECE}')
    ||| ('\u{0F18}' <= c && c <= '\u{0F19}')
    ||| c == '\u{0F35}'
    ||| c == '\u{0F37}'
    ||| c == '\u{0F39}'
    ||| ('\u{0F71}' <= c && c <= '\u{0F7E}')
    ||| ('\u{0F80}' <= c && c <= '\u{0F84}')
    ||| ('\u{0F86}' <= c && c <= '\u{0F87}')
    ||| ('\u{0F8D}' <= c && c <= '\u{0F97}')
    ||| ('\u{0F99}' <= c && c <= '\u{0FBC}')
    ||| c == '\u{0FC6}'
    ||| ('\u{102D}' <= c && c <= '\u{1030}')
    ||| ('\u{1032}' <= c && c <= '\u{1037}')
    ||| ('\u{1039}' <= c && c <= '\u{103A}')
    ||| ('\u{103D}' <= c && c <= '\u{103E}')
    ||| ('\u{1058}' <= c && c <= '\u{1059}')
    ||| ('\u{105E}' <= c && c <= '\u{1060}')
    ||| ('\u{1071}' <= c && c <= '\u{1074}')
    ||| c == '\u{1082}'
    ||| ('\u{1085}' <= c && c <= '\u{1086}')
    ||| c == '\u{108D}'
    ||| c == '\u{109D}'
    ||| ('\u{135D}' <= c && c <= '\u{135F}')
    ||| ('\u{1712}' <= c && c <= '\u{1714}')
    ||| ('\u{1732}' <= c && c <= '\u{1734}')
    ||| ('\u{1752}' <= c && c <= '\u{1753}')
    ||| ('\u{1772}' <= c && c <= '\u{1773}')
    ||| ('\u{17B4}' <= c && c <= '\u{17B5}')
    ||| ('\u{17B7}' <= c && c <= '\u{17BD}')
    ||| c == '\u{17C6}'
    ||| ('\u{17C9}' <= c && c <= '\u{17D3}')
    ||| c == '\u{17DD}'
    ||| ('\u{180B}' <= c && c <= '\u{180F}')
    ||| ('\u{1885}' <= c && c <= '\u{1886}')
    ||| c == '\u{18A9}'
    ||| ('\u{1920}' <= c && c <= '\u{1922}')
    ||| ('\u{1927}' <= c && c <= '\u{1928}')
    ||| c == '\u{1932}'
    ||| ('\u{1939}' <= c && c <= '\u{193B}')
    ||| ('\u{1A17}' <= c && c <= '\u{1A18}')
    ||| c == '\u{1A1B}'
    ||| c == '\u{1A56}'
    ||| ('\u{1A58}' <= c && c <= '\u{1A5E}')
    ||| c == '\u{1A60}'
    ||| c == '\u{1A62}'
    ||| ('\u{1A65}' <= c && c <= '\u{1A6C}')
    ||| ('\u{1A73}' <= c && c <= '\u{1A7C}')
    ||| c == '\u{1A7F}'
    ||| ('\u{1AB0}' <= c && c <= '\u{1ACE}')
    ||| ('\u{1B00}' <= c && c <= '\u{1B03}')
    ||| c == '\u{1B34}'
    ||| ('\u{1B36}' <= c && c <= '\u{1B3A}')
    ||| c == '\u{1B3C}'
    ||| c == '\u{1B42}'
    ||| ('\u{1B6B}' <= c && c <= '\u{1B73}')
    ||| ('\u{1B80}' <= c && c <= '\u{1B81}')
    ||| ('\u{1BA2}' <= c && c <= '\u{1BA5}')
    ||| ('\u{1BA8}' <= c && c <= '\u{1BA9}')
    ||| ('\u{1BAB}' <= c && c <= '\u{1BAD}')
    ||| c == '\u{1BE6}'
    ||| ('\u{1BE8}' <= c && c <= '\u{1BE9}')
    ||| c == '\u{1BED}'
    ||| ('\u{1BEF}' <= c && c <= '\u{1BF1}')
    ||| ('\u{1C2C}' <= c && c <= '\u{1C33}')
    ||| ('\u{1C36}' <= c && c <= '\u{1C37}')
    ||| ('\u{1CD0}' <= c && c <= '\u{1CD2}')
    ||| ('\u{1CD4}' <= c && c <= '\u{1CE0}')
    ||| ('\u{1CE2}' <= c && c <= '\u{1CE8}')
    ||| c == '\u{1CED}'
    ||| c == '\u{1CF4}'
    ||| ('\u{1CF8}' <= c && c <= '\u{1CF9}')
    ||| ('\u{1DC0}' <= c && c <= '\u{1DFF}')
    ||| ('\u{200B}' <= c && c <= '\u{200F}')
    ||| ('\u{202A}' <= c && c <= '\u{202E}')
    ||| ('\u{2060}' <= c && c <= '\u{2064}')
    ||| ('\u{2066}' <= c && c <= '\u{206F}')
    ||| ('\u{20D0}' <= c && c <= '\u{20F0}')
    ||| ('\u{2CEF}' <= c && c <= '\u{2CF1}')
    ||| c == '\u{2D7F}'
    ||| ('\u{2DE0}' <= c && c <= '\u{2DFF}')
    ||| ('\u{302A}' <= c && c <= '\u{302F}')
    ||| ('\u{3099}' <= c && c <= '\u{309A}')
    ||| c == '\u{A66F}'
    ||| ('\u{A674}' <= c && c <= '\u{A67D}')
    ||| ('\u{A69E}' <= c && c <= '\u{A69F}')
    ||| ('\u{A6F0}' <= c && c <= '\u{A6F1}')
    ||| c == '\u{A802}'
    ||| c == '\u{A806}'
    ||| c == '\u{A80B}'
    ||| ('\u{A825}' <= c && c <= '\u{A826}')
    ||| c == '\u{A82C}'
    ||| ('\u{A8C4}' <= c && c <= '\u{A8C5}')
    ||| ('\u{A8E0}' <= c && c <= '\u{A8F1}')
    ||| ('\u{A8FF}' <= c && c <= '\u{A901}')
    ||| ('\u{A926}' <= c && c <= '\u{A92D}')
    ||| ('\u{A947}' <= c && c <= '\u{A951}')
    ||| ('\u{A980}' <= c && c <= '\u{A982}')
    ||| c == '\u{A9B3}'
    ||| ('\u{A9B6}' <= c && c <= '\u{A9B9}')
    ||| c == '\u{A9BC}'
    ||| c == '\u{A9E5}'
    ||| ('\u{AA29}' <= c && c <= '\u{AA2E}')
    ||| ('\u{AA31}' <= c && c <= '\u{AA32}')
    ||| ('\u{AA35}' <= c && c <= '\u{AA36}')
    ||| c == '\u{AA43}'
    ||| c == '\u{AA4C}'
    ||| c == '\u{AA7C}'
    ||| c == '\u{AAB0}'
    ||| ('\u{AAB2}' <= c && c <= '\u{AAB4}')
    ||| ('\u{AAB7}' <= c && c <= '\u{AAB8}')
    ||| ('\u{AABE}' <= c && c <= '\u{AABF}')
    ||| c == '\u{AAC1}'
    ||| ('\u{AAEC}' <= c && c <= '\u{AAED}')
    ||| c == '\u{AAF6}'
    ||| c == '\u{ABE5}'
    ||| c == '\u{ABE8}'
    ||| c == '\u{ABED}'
    ||| c == '\u{FB1E}'
    ||| ('\u{FE00}' <= c && c <= '\u{FE0F}')
    ||| ('\u{FE20}' <= c && c <= '\u{FE2F}')
    ||| c == '\u{FEFF}'
    ||| ('\u{FFF9}' <= c && c <= '\u{FFFB}')
    ||| c == '\u{101FD}'
    ||| c == '\u{102E0}'
    ||| ('\u{10376}' <= c && c <= '\u{1037A}')
    ||| ('\u{10A01}' <= c && c <= '\u{10A03}')
    ||| ('\u{10A05}' <= c && c <= '\u{10A06}')
    ||| ('\u{10A0C}' <= c && c <= '\u{10A0F}')
    ||| ('\u{10A38}' <= c && c <= '\u{10A3A}')
    ||| c == '\u{10A3F}'
    ||| ('\u{10AE5}' <= c && c <= '\u{10AE6}')
    ||| ('\u{11000}' <= c && c <= '\u{11002}')
    ||| ('\u{11038}' <= c && c <= '\u{11046}')
    ||| ('\u{1107F}' <= c && c <= '\u{11082}')
    ||| ('\u{110B3}' <= c && c <= '\u{110B6}')
    ||| ('\u{110B9}' <= c && c <= '\u{110BA}')
    ||| ('\u{11100}' <= c && c <= '\u{11102}')
    ||| ('\u{11127}' <= c && c <= '\u{1112B}')
    ||| ('\u{1112D}' <= c && c <= '\u{11134}')
    ||| c == '\u{11173}'
    ||| ('\u{11180}' <= c && c <= '\u{11181}')
    ||| ('\u{111B6}' <= c && c <= '\u{111BE}')
    ||| ('\u{111C9}' <= c && c <= '\u{111CC}')
    ||| ('\u{1122F}' <= c && c <= '\u{11231}')
    ||| c == '\u{11234}'
    ||| ('\u{11236}' <= c && c <= '\u{11237}')
    ||| c == '\u{1123E}'
    ||| c == '\u{112DF}'
    ||| ('\u{112E3}' <= c && c <= '\u{112EA}')
    ||| ('\u{11300}' <= c && c <= '\u{11301}')
    ||| c == '\u{1133C}'
    ||| c == '\u{11340}'
    ||| ('\u{11366}' <= c && c <= '\u{1136C}')
    ||| ('\u{11370}' <= c && c <= '\u{11374}')
    ||| ('\u{11438}' <= c && c <= '\u{1143F}')
    ||| ('\u{11442}' <= c && c <= '\u{11444}')
    ||| c == '\u{11446}'
    ||| ('\u{114B3}' <= c && c <= '\u{114B8}')
    ||| c == '\u{114BA}'
    ||| ('\u{114BF}' <= c && c <= '\u{114C0}')
    ||| ('\u{114C2}' <= c && c <= '\u{114C3}')
    ||| ('\u{115B2}' <= c && c <= '\u{115B5}')
    ||| ('\u{115BC}' <= c && c <= '\u{115BD}')
    ||| ('\u{115BF}' <= c && c <= '\u{115C0}')
    ||| ('\u{115DC}' <= c && c <= '\u{115DD}')
    ||| ('\u{11633}' <= c && c <= '\u{1163A}')
    ||| c == '\u{1163D}'
    ||| ('\u{1163F}' <= c && c <= '\u{11640}')
    ||| c == '\u{116AB}'
    ||| c == '\u{116AD}'
    ||| ('\u{116B0}' <= c && c <= '\u{116B5}')
    ||| c == '\u{116B7}'
    ||| ('\u{1171D}' <= c && c <= '\u{1171F}')
    ||| ('\u{11722}' <= c && c <= '\u{11725}')
    ||| ('\u{11727}' <= c && c <= '\u{1172B}')
    ||| ('\u{1182F}' <= c && c <= '\u{11837}')
    ||| ('\u{11839}' <= c && c <= '\u{1183A}')
    ||| ('\u{11A01}' <= c && c <= '\u{11A0A}')
    ||| ('\u{11A33}' <= c && c <= '\u{11A38}')
    ||| ('\u{11A3B}' <= c && c <= '\u{11A3E}')
    ||| c == '\u{11A47}'
    ||| ('\u{11A51}' <= c && c <= '\u{11A56}')
    ||| ('\u{11A59}' <= c && c <= '\u{11A5B}')
    ||| ('\u{11A8A}' <= c && c <= '\u{11A96}')
    ||| ('\u{11A98}' <= c && c <= '\u{11A99}')
    ||| ('\u{11C30}' <= c && c <= '\u{11C36}')
    ||| ('\u{11C38}' <= c && c <= '\u{11C3D}')
    ||| c == '\u{11C3F}'
    ||| ('\u{11C92}' <= c && c <= '\u{11CA7}')
    ||| ('\u{11CAA}' <= c && c <= '\u{11CB0}')
    ||| ('\u{11CB2}' <= c && c <= '\u{11CB3}')
    ||| ('\u{11CB5}' <= c && c <= '\u{11CB6}')
    ||| ('\u{16AF0}' <= c && c <= '\u{16AF4}')
    ||| ('\u{16B30}' <= c && c <= '\u{16B36}')
    ||| ('\u{16F8F}' <= c && c <= '\u{16F92}')
    ||| ('\u{1BC9D}' <= c && c <= '\u{1BC9E}')
    ||| ('\u{1D167}' <= c && c <= '\u{1D169}')
    ||| ('\u{1D17B}' <= c && c <= '\u{1D182}')
    ||| ('\u{1D185}' <= c && c <= '\u{1D18B}')
    ||| ('\u{1D1AA}' <= c && c <= '\u{1D1AD}')
    ||| ('\u{1D242}' <= c && c <= '\u{1D244}')
    ||| ('\u{1DA00}' <= c && c <= '\u{1DA36}')
    ||| ('\u{1DA3B}' <= c && c <= '\u{1DA6C}')
    ||| c == '\u{1DA75}'
    ||| c == '\u{1DA84}'
    ||| ('\u{1DA9B}' <= c && c <= '\u{1DA9F}')
    ||| ('\u{1DAA1}' <= c && c <= '\u{1DAAF}')
    ||| ('\u{1E000}' <= c && c <= '\u{1E006}')
    ||| ('\u{1E008}' <= c && c <= '\u{1E018}')
    ||| ('\u{1E01B}' <= c && c <= '\u{1E021}')
    ||| ('\u{1E023}' <= c && c <= '\u{1E024}')
    ||| ('\u{1E026}' <= c && c <= '\u{1E02A}')
    ||| ('\u{1E8D0}' <= c && c <= '\u{1E8D6}')
    ||| ('\u{1E944}' <= c && c <= '\u{1E94A}')
    ||| ('\u{E0100}' <= c && c <= '\u{E01EF}')
}

/// Whether `ch` occupies no terminal column.
pub fn is_zero_width_char(ch: char) -> (r: bool)
    ensures
        r == is_zero_width(ch),
{
    ('\u{0300}' <= ch && ch <= '\u{036F}')
        || ('\u{0483}' <= ch && ch <= '\u{0489}')
        || ('\u{0591}' <= ch && ch <= '\u{05BD}')
        || ch == '\u{05BF}'
        || ('\u{05C1}' <= ch && ch <= '\u{05C2}')
        || ('\u{05C4}' <= ch && ch <= '\u{05C5}')
        || ch == '\u{05C7}'
        || ('\u{0610}' <= ch && ch <= '\u{061A}')
        || ('\u{064B}' <= ch && ch <= '\u{065F}')
        || ch == '\u{0670}'
        || ('\u{06D6}' <= ch && ch <= '\u{06DC}')
        || ('\u{06DF}' <= ch && ch <= '\u{06E4}')
        || ('\u{06E7}' <= ch && ch <= '\u{06E8}')
        || ('\u{06EA}' <= ch && ch <= '\u{06ED}')
        || ch == '\u{0711}'
        || ('\u{0730}' <= ch && ch <= '\u{074A}')
        || ('\u{07A6}' <= ch && ch <= '\u{07B0}')
        || ('\u{07EB}' <= ch && ch <= '\u{07F3}')
        || ('\u{0816}' <= ch && ch <= '\u{0819}')
        || ('\u{081B}' <= ch && ch <= '\u{0823}')
        || ('\u{0825}' <= ch && ch <= '\u{0827}')
        || ('\u{0829}' <= ch && ch <= '\u{082D}')
        || ('\u{0859}' <= ch && ch <= '\u{085B}')
        || ('\u{08D3}' <= ch && ch <= '\u{08E1}')
        || ('\u{08E3}' <= ch && ch <= '\u{0902}')
        || ch == '\u{093A}'
        || ch == '\u{093C}'
        || ('\u{0941}' <= ch && ch <= '\u{0948}')
        || ch == '\u{094D}'
        || ('\u{0951}' <= ch && ch <= '\u{0957}')
        || ('\u{0962}' <= ch && ch <= '\u{0963}')
        || ch == '\u{0981}'
        || ch == '\u{09BC}'
        || ('\u{09C1}' <= ch && ch <= '\u{09C4}')
        || ch == '\u{09CD}'
        || ('\u{09E2}' <= ch && ch <= '\u{09E3}')
        || ('\u{0A01}' <= ch && ch <= '\u{0A02}')
        || ch == '\u{0A3C}'
        || ('\u{0A41}' <= ch && ch <= '\u{0A42}')
        || ('\u{0A47}' <= ch && ch <= '\u{0A48}')
        || ('\u{0A4B}' <= ch && ch <= '\u{0A4D}')
        || ch == '\u{0A51}'
        || ('\u{0A70}' <= ch && ch <= '\u{0A71}')
        || ch == '\u{0A75}'
        || ('\u{0A81}' <= ch && ch <= '\u{0A82}')
        || ch == '\u{0ABC}'
        || ('\u{0AC1}' <= ch && ch <= '\u{0AC5}')
        || ('\u{0AC7}' <= ch && ch <= '\u{0AC8}')
        || ch == '\u{0ACD}'
        || ('\u{0AE2}' <= ch && ch <= '\u{0AE3}')
        || ch == '\u{0B01}'
        || ch == '\u{0B3C}'
        || ch == '\u{0B3F}'
        || ('\u{0B41}' <= ch && ch <= '\u{0B44}')
        || ch == '\u{0B4D}'
        || ch == '\u{0B56}'
        || ('\u{0B62}' <= ch && ch <= '\u{0B63}')
        || ch == '\u{0B82}'
        || ch == '\u{0BC0}'
        || ch == '\u{0BCD}'
        || ch == '\u{0C00}'
        || ch == '\u{0C04}'
        || ('\u{0C3E}' <= ch && ch <= '\u{0C40}')
        || ('\u{0C46}' <= ch && ch <= '\u{0C48}')
        || ('\u{0C4A}' <= ch && ch <= '\u{0C4D}')
        || ('\u{0C55}' <= ch && ch <= '\u{0C56}')
        || ('\u{0C62}' <= ch && ch <= '\u{0C63}')
        || ch == '\u{0C81}'
        || ch == '\u{0CBC}'
        || ch == '\u{0CBF}'
        || ch == '\u{0CC6}'
        || ('\u{0CCC}' <= ch && ch <= '\u{0CCD}')
        || ('\u{0CE2}' <= ch && ch <= '\u{0CE3}')
        || ('\u{0D00}' <= ch && ch <= '\u{0D01}')
        || ('\u{0D3B}' <= ch && ch <= '\u{0D3C}')
        || ('\u{0D41}' <= ch && ch <= '\u{0D44}')
        || ch == '\u{0D4D}'
        || ('\u{0D62}' <= ch && ch <= '\u{0D63}')
        || ch == '\u{0DCA}'
        || ('\u{0DD2}' <= ch && ch <= '\u{0DD4}')
        || ch == '\u{0DD6}'
        || ch == '\u{0E31}'
        || ('\u{0E34}' <= ch && ch <= '\u{0E3A}')
        || ('\u{0E47}' <= ch && ch <= '\u{0E4E}')
        || ch == '\u{0EB1}'
        || ('\u{0EB4}' <= ch && ch <= '\u{0EBC}')
        || ('\u{0EC8}' <= ch && ch <= '\u{0ECE}')
        || ('\u{0F18}' <= ch && ch <= '\u{0F19}')
        || ch == '\u{0F35}'
        || ch == '\u{0F37}'
        || ch == '\u{0F39}'
        || ('\u{0F71}' <= ch && ch <= '\u{0F7E}')
        || ('\u{0F80}' <= ch && ch <= '\u{0F84}')
        || ('\u{0F86}' <= ch && ch <= '\u{0F87}')
        || ('\u{0F8D}' <= ch && ch <= '\u{0F97}')
        || ('\u{0F99}' <= ch && ch <= '\u{0FBC}')
        || ch == '\u{0FC6}'
        || ('\u{102D}' <= ch && ch <= '\u{1030}')
        || ('\u{1032}' <= ch && ch <= '\u{1037}')
        || ('\u{1039}' <= ch && ch <= '\u{103A}')
        || ('\u{103D}' <= ch && ch <= '\u{103E}')
        || ('\u{1058}' <= ch && ch <= '\u{1059}')
        || ('\u{105E}' <= ch && ch <= '\u{1060}')
        || ('\u{1071}' <= ch && ch <= '\u{1074}')
        || ch == '\u{1082}'
        || ('\u{1085}' <= ch && ch <= '\u{1086}')
        || ch == '\u{108D}'
        || ch == '\u{109D}'
        || ('\u{135D}' <= ch && ch <= '\u{135F}')
        || ('\u{1712}' <= ch && ch <= '\u{1714}')
        || ('\u{1732}' <= ch && ch <= '\u{1734}')
        || ('\u{1752}' <= ch && ch <= '\u{1753}')
        || ('\u{1772}' <= ch && ch <= '\u{1773}')
        || ('\u{17B4}' <= ch && ch <= '\u{17B5}')
        || ('\u{17B7}' <= ch && ch <= '\u{17BD}')
        || ch == '\u{17C6}'
        || ('\u{17C9}' <= ch && ch <= '\u{17D3}')
        || ch == '\u{17DD}'
        || ('\u{180B}' <= ch && ch <= '\u{180F}')
        || ('\u{1885}' <= ch && ch <= '\u{1886}')
        || ch == '\u{18A9}'
        || ('\u{1920}' <= ch && ch <= '\u{1922}')
        || ('\u{1927}' <= ch && ch <= '\u{1928}')
        || ch == '\u{1932}'
        || ('\u{1939}' <= ch && ch <= '\u{193B}')
        || ('\u{1A17}' <= ch && ch <= '\u{1A18}')
        || ch == '\u{1A1B}'
        || ch == '\u{1A56}'
        || ('\u{1A58}' <= ch && ch <= '\u{1A5E}')
        || ch == '\u{1A60}'
        || ch == '\u{1A62}'
        || ('\u{1A65}' <= ch && ch <= '\u{1A6C}')
        || ('\u{1A73}' <= ch && ch <= '\u{1A7C}')
        || ch == '\u{1A7F}'
        || ('\u{1AB0}' <= ch && ch <= '\u{1ACE}')
        || ('\u{1B00}' <= ch && ch <= '\u{1B03}')
        || ch == '\u{1B34}'
        || ('\u{1B36}' <= ch && ch <= '\u{1B3A}')
        || ch == '\u{1B3C}'
        || ch == '\u{1B42}'
        || ('\u{1B6B}' <= ch && ch <= '\u{1B73}')
        || ('\u{1B80}' <= ch && ch <= '\u{1B81}')
        || ('\u{1BA2}' <= ch && ch <= '\u{1BA5}')
        || ('\u{1BA8}' <= ch && ch <= '\u{1BA9}')
        || ('\u{1BAB}' <= ch && ch <= '\u{1BAD}')
        || ch == '\u{1BE6}'
        || ('\u{1BE8}' <= ch && ch <= '\u{1BE9}')
        || ch == '\u{1BED}'
        || ('\u{1BEF}' <= ch && ch <= '\u{1BF1}')
        || ('\u{1C2C}' <= ch && ch <= '\u{1C33}')
        || ('\u{1C36}' <= ch && ch <= '\u{1C37}')
        || ('\u{1CD0}' <= ch && ch <= '\u{1CD2}')
        || ('\u{1CD4}' <= ch && ch <= '\u{1CE0}')
        || ('\u{1CE2}' <= ch && ch <= '\u{1CE8}')
        || ch == '\u{1CED}'
        || ch == '\u{1CF4}'
        || ('\u{1CF8}' <= ch && ch <= '\u{1CF9}')
        || ('\u{1DC0}' <= ch && ch <= '\u{1DFF}')
        || ('\u{200B}' <= ch && ch <= '\u{200F}')
        || ('\u{202A}' <= ch && ch <= '\u{202E}')
        || ('\u{2060}' <= ch && ch <= '\u{2064}')
        || ('\u{2066}' <= ch && ch <= '\u{206F}')
        || ('\u{20D0}' <= ch && ch <= '\u{20F0}')
        || ('\u{2CEF}' <= ch && ch <= '\u{2CF1}')
        || ch == '\u{2D7F}'
        || ('\u{2DE0}' <= ch && ch <= '\u{2DFF}')
        || ('\u{302A}' <= ch && ch <= '\u{302F}')
        || ('\u{3099}' <= ch && ch <= '\u{309A}')
        || ch == '\u{A66F}'
        || ('\u{A674}' <= ch && ch <= '\u{A67D}')
        || ('\u{A69E}' <= ch && ch <= '\u{A69F}')
        || ('\u{A6F0}' <= ch && ch <= '\u{A6F1}')
        || ch == '\u{A802}'
        || ch == '\u{A806}'
        || ch == '\u{A80B}'
        || ('\u{A825}' <= ch && ch <= '\u{A826}')
        || ch == '\u{A82C}'
        || ('\u{A8C4}' <= ch && ch <= '\u{A8C5}')
        || ('\u{A8E0}' <= ch && ch <= '\u{A8F1}')
        || ('\u{A8FF}' <= ch && ch <= '\u{A901}')
        || ('\u{A926}' <= ch && ch <= '\u{A92D}')
        || ('\u{A947}' <= ch && ch <= '\u{A951}')
        || ('\u{A980}' <= ch && ch <= '\u{A982}')
        || ch == '\u{A9B3}'
        || ('\u{A9B6}' <= ch && ch <= '\u{A9B9}')
        || ch == '\u{A9BC}'
        || ch == '\u{A9E5}'
        || ('\u{AA29}' <= ch && ch <= '\u{AA2E}')
        || ('\u{AA31}' <= ch && ch <= '\u{AA32}')
        || ('\u{AA35}' <= ch && ch <= '\u{AA36}')
        || ch == '\u{AA43}'
        || ch == '\u{AA4C}'
        || ch == '\u{AA7C}'
        || ch == '\u{AAB0}'
        || ('\u{AAB2}' <= ch && ch <= '\u{AAB4}')
        || ('\u{AAB7}' <= ch && ch <= '\u{AAB8}')
        || ('\u{AABE}' <= ch && ch <= '\u{AABF}')
        || ch == '\u{AAC1}'
        || ('\u{AAEC}' <= ch && ch <= '\u{AAED}')
        || ch == '\u{AAF6}'
        || ch == '\u{ABE5}'
        || ch == '\u{ABE8}'
        || ch == '\u{ABED}'
        || ch == '\u{FB1E}'
        || ('\u{FE00}' <= ch && ch <= '\u{FE0F}')
        || ('\u{FE20}' <= ch && ch <= '\u{FE2F}')
        || ch == '\u{FEFF}'
        || ('\u{FFF9}' <= ch && ch <= '\u{FFFB}')
        || ch == '\u{101FD}'
        || ch == '\u{102E0}'
        || ('\u{10376}' <= ch && ch <= '\u{1037A}')
        || ('\u{10A01}' <= ch && ch <= '\u{10A03}')
        || ('\u{10A05}' <= ch && ch <= '\u{10A06}')
        || ('\u{10A0C}' <= ch && ch <= '\u{10A0F}')
        || ('\u{10A38}' <= ch && ch <= '\u{10A3A}')
        || ch == '\u{10A3F}'
        || ('\u{10AE5}' <= ch && ch <= '\u{10AE6}')
        || ('\u{11000}' <= ch && ch <= '\u{11002}')
        || ('\u{11038}' <= ch && ch <= '\u{11046}')
        || ('\u{1107F}' <= ch && ch <= '\u{11082}')
        || ('\u{110B3}' <= ch && ch <= '\u{110B6}')
        || ('\u{110B9}' <= ch && ch <= '\u{110BA}')
        || ('\u{11100}' <= ch && ch <= '\u{11102}')
        || ('\u{11127}' <= ch && ch <= '\u{1112B}')
        || ('\u{1112D}' <= ch && ch <= '\u{11134}')
        || ch == '\u{11173}'
        || ('\u{11180}' <= ch && ch <= '\u{11181}')
        || ('\u{111B6}' <= ch && ch <= '\u{111BE}')
        || ('\u{111C9}' <= ch && ch <= '\u{111CC}')
        || ('\u{1122F}' <= ch && ch <= '\u{11231}')
        || ch == '\u{11234}'
        || ('\u{11236}' <= ch && ch <= '\u{11237}')
        || ch == '\u{1123E}'
        || ch == '\u{112DF}'
        || ('\u{112E3}' <= ch && ch <= '\u{112EA}')
        || ('\u{11300}' <= ch && ch <= '\u{11301}')
        || ch == '\u{1133C}'
        || ch == '\u{11340}'
        || ('\u{11366}' <= ch && ch <= '\u{1136C}')
        || ('\u{11370}' <= ch && ch <= '\u{11374}')
        || ('\u{11438}' <= ch && ch <= '\u{1143F}')
        || ('\u{11442}' <= ch && ch <= '\u{11444}')
        || ch == '\u{11446}'
        || ('\u{114B3}' <= ch && ch <= '\u{114B8}')
        || ch == '\u{114BA}'
        || ('\u{114BF}' <= ch && ch <= '\u{114C0}')
        || ('\u{114C2}' <= ch && ch <= '\u{114C3}')
        || ('\u{115B2}' <= ch && ch <= '\u{115B5}')
        || ('\u{115BC}' <= ch && ch <= '\u{115BD}')
        || ('\u{115BF}' <= ch && ch <= '\u{115C0}')
        || ('\u{115DC}' <= ch && ch <= '\u{115DD}')
        || ('\u{11633}' <= ch && ch <= '\u{1163A}')
        || ch == '\u{1163D}'
        || ('\u{1163F}' <= ch && ch <= '\u{11640}')
        || ch == '\u{116AB}'
        || ch == '\u{116AD}'
        || ('\u{116B0}' <= ch && ch <= '\u{116B5}')
        || ch == '\u{116B7}'
        || ('\u{1171D}' <= ch && ch <= '\u{1171F}')
        || ('\u{11722}' <= ch && ch <= '\u{11725}')
        || ('\u{11727}' <= ch && ch <= '\u{1172B}')
        || ('\u{1182F}' <= ch && ch <= '\u{11837}')
        || ('\u{11839}' <= ch && ch <= '\u{1183A}')
        || ('\u{11A01}' <= ch && ch <= '\u{11A0A}')
        || ('\u{11A33}' <= ch && ch <= '\u{11A38}')
        || ('\u{11A3B}' <= ch && ch <= '\u{11A3E}')
        || ch == '\u{11A47}'
        || ('\u{11A51}' <= ch && ch <= '\u{11A56}')
        || ('\u{11A59}' <= ch && ch <= '\u{11A5B}')
        || ('\u{11A8A}' <= ch && ch <= '\u{11A96}')
        || ('\u{11A98}' <= ch && ch <= '\u{11A99}')
        || ('\u{11C30}' <= ch && ch <= '\u{11C36}')
        || ('\u{11C38}' <= ch && ch <= '\u{11C3D}')
        || ch == '\u{11C3F}'
        || ('\u{11C92}' <= ch && ch <= '\u{11CA7}')
        || ('\u{11CAA}' <= ch && ch <= '\u{11CB0}')
        || ('\u{11CB2}' <= ch && ch <= '\u{11CB3}')
        || ('\u{11CB5}' <= ch && ch <= '\u{11CB6}')
        || ('\u{16AF0}' <= ch && ch <= '\u{16AF4}')
        || ('\u{16B30}' <= ch && ch <= '\u{16B36}')
        || ('\u{16F8F}' <= ch && ch <= '\u{16F92}')
        || ('\u{1BC9D}' <= ch && ch <= '\u{1BC9E}')
        || ('\u{1D167}' <= ch && ch <= '\u{1D169}')
        || ('\u{1D17B}' <= ch && ch <= '\u{1D182}')
        || ('\u{1D185}' <= ch && ch <= '\u{1D18B}')
        || ('\u{1D1AA}' <= ch && ch <= '\u{1D1AD}')
        || ('\u{1D242}' <= ch && ch <= '\u{1D244}')
        || ('\u{1DA00}' <= ch && ch <= '\u{1DA36}')
        || ('\u{1DA3B}' <= ch && ch <= '\u{1DA6C}')
        || ch == '\u{1DA75}'
        || ch == '\u{1DA84}'
        || ('\u{1DA9B}' <= ch && ch <= '\u{1DA9F}')
        || ('\u{1DAA1}' <= ch && ch <= '\u{1DAAF}')
        || ('\u{1E000}' <= ch && ch <= '\u{1E006}')
        || ('\u{1E008}' <= ch && ch <= '\u{1E018}')
        || ('\u{1E01B}' <= ch && ch <= '\u{1E021}')
        || ('\u{1E023}' <= ch && ch <= '\u{1E024}')
        || ('\u{1E026}' <= ch && ch <= '\u{1E02A}')
        || ('\u{1E8D0}' <= ch && ch <= '\u{1E8D6}')
        || ('\u{1E944}' <= ch && ch <= '\u{1E94A}')
        || ('\u{E0100}' <= ch && ch <= '\u{E01EF}')
}

/// Characters that occupy two terminal columns: East Asian wide and
/// full-width characters and wide emoji.
pub open spec fn is_wide(c: char) -> bool {
    ||| ('\u{1100}' <= c && c <= '\u{115F}')
    ||| ('\u{231A}' <= c && c <= '\u{231B}')
    ||| ('\u{2329}' <= c && c <= '\u{232A}')
    ||| ('\u{23E9}' <= c && c <= '\u{23EC}')
    ||| c == '\u{23F0}'
    ||| c == '\u{23F3}'
    ||| ('\u{25FD}' <= c && c <= '\u{25FE}')
    ||| ('\u{2614}' <= c && c <= '\u{2615}')
    ||| ('\u{2648}' <= c && c <= '\u{2653}')
    ||| c == '\u{267F}'
    ||| c == '\u{2693}'
    ||| c == '\u{26A1}'
    ||| ('\u{26AA}' <= c && c <= '\u{26AB}')
    ||| ('\u{26BD}' <= c && c <= '\u{26BE}')
    ||| ('\u{26C4}' <= c && c <= '\u{26C5}')
    ||| c == '\u{26CE}'
    ||| c == '\u{26D4}'
    ||| c == '\u{26EA}'
    ||| ('\u{26F2}' <= c && c <= '\u{26F3}')
    ||| c == '\u{26F5}'
    ||| c == '\u{26FA}'
    ||| c == '\u{26FD}'
    ||| c == '\u{2705}'
    ||| ('\u{270A}' <= c && c <= '\u{270B}')
    ||| c == '\u{2728}'
    ||| c == '\u{274C}'
    ||| c == '\u{274E}'
    ||| ('\u{2753}' <= c && c <= '\u{2755}')
    ||| c == '\u{2757}'
    ||| ('\u{2795}' <= c && c <= '\u{2797}')
    ||| c == '\u{27B0}'
    ||| c == '\u{27BF}'
    ||| ('\u{2B1B}' <= c && c <= '\u{2B1C}')
    ||| c == '\u{2B50}'
    ||| c == '\u{2B55}'
    ||| ('\u{2E80}' <= c && c <= '\u{2E99}')
    ||| ('\u{2E9B}' <= c && c <= '\u{2EF3}')
    ||| ('\u{2F00}' <= c && c <= '\u{2FD5}')
    ||| ('\u{2FF0}' <= c && c <= '\u{2FFB}')
    ||| ('\u{3000}' <= c && c <= '\u{303E}')
    ||| ('\u{3041}' <= c && c <= '\u{3096}')
    ||| ('\u{3099}' <= c && c <= '\u{30FF}')
    ||| ('\u{3105}' <= c && c <= '\u{312F}')
    ||| ('\u{3131}' <= c && c <= '\u{318E}')
    ||| ('\u{3190}' <= c && c <= '\u{31E3}')
    ||| ('\u{31F0}' <= c && c <= '\u{321E}')
    ||| ('\u{3220}' <= c && c <= '\u{3247}')
    ||| ('\u{3250}' <= c && c <= '\u{4DBF}')
    ||| ('\u{4E00}' <= c && c <= '\u{A48C}')
    ||| ('\u{A490}' <= c && c <= '\u{A4C6}')
    ||| ('\u{A960}' <= c && c <= '\u{A97C}')
    ||| ('\u{AC00}' <= c && c <= '\u{D7A3}')
    ||| ('\u{F900}' <= c && c <= '\u{FAFF}')
    ||| ('\u{FE10}' <= c && c <= '\u{FE19}')
    ||| ('\u{FE30}' <= c && c <= '\u{FE52}')
    ||| ('\u{FE54}' <= c && c <= '\u{FE66}')
    ||| ('\u{FE68}' <= c && c <= '\u{FE6B}')
    ||| ('\u{FF01}' <= c && c <= '\u{FF60}')
    ||| ('\u{FFE0}' <= c && c <= '\u{FFE6}')
    ||| ('\u{16FE0}' <= c && c <= '\u{16FE4}')
    ||| ('\u{17000}' <= c && c <= '\u{187F7}')
    ||| ('\u{18800}' <= c && c <= '\u{18CD5}')
    ||| ('\u{18D00}' <= c && c <= '\u{18D08}')
    ||| ('\u{1B000}' <= c && c <= '\u{1B11E}')
    ||| ('\u{1B170}' <= c && c <= '\u{1B2FB}')
    ||| c == '\u{1F004}'
    ||| c == '\u{1F0CF}'
    ||| c == '\u{1F18E}'
    ||| ('\u{1F191}' <= c && c <= '\u{1F19A}')
    ||| ('\u{1F200}' <= c && c <= '\u{1F202}')
    ||| ('\u{1F210}' <= c && c <= '\u{1F23B}')
    ||| ('\u{1F240}' <= c && c <= '\u{1F248}')
    ||| ('\u{1F250}' <= c && c <= '\u{1F251}')
    ||| ('\u{1F260}' <= c && c <= '\u{1F265}')
    ||| ('\u{1F300}' <= c && c <= '\u{1F320}')
    ||| ('\u{1F32D}' <= c && c <= '\u{1F335}')
    ||| ('\u{1F337}' <= c && c <= '\u{1F37C}')
    ||| ('\u{1F37E}' <= c && c <= '\u{1F393}')
    ||| ('\u{1F3A0}' <= c && c <= '\u{1F3CA}')
    ||| ('\u{1F3CF}' <= c && c <= '\u{1F3D3}')
    ||| ('\u{1F3E0}' <= c && c <= '\u{1F3F0}')
    ||| c == '\u{1F3F4}'
    ||| ('\u{1F3F8}' <= c && c <= '\u{1F43E}')
    ||| c == '\u{1F440}'
    ||| ('\u{1F442}' <= c && c <= '\u{1F4FC}')
    ||| ('\u{1F4FF}' <= c && c <= '\u{1F53D}')
    ||| ('\u{1F54B}' <= c && c <= '\u{1F54E}')
    ||| ('\u{1F550}' <= c && c <= '\u{1F567}')
    ||| c == '\u{1F57A}'
    ||| ('\u{1F595}' <= c && c <= '\u{1F596}')
    ||| c == '\u{1F5A4}'
    ||| ('\u{1F5FB}' <= c && c <= '\u{1F64F}')
    ||| ('\u{1F680}' <= c && c <= '\u{1F6C5}')
    ||| c == '\u{1F6CC}'
    ||| ('\u{1F6D0}' <= c && c <= '\u{1F6D2}')
    ||| ('\u{1F6EB}' <= c && c <= '\u{1F6EC}')
    ||| ('\u{1F6F4}' <= c && c <= '\u{1F6F9}')
    ||| ('\u{1F910}' <= c && c <= '\u{1F93E}')
    ||| ('\u{1F940}' <= c && c <= '\u{1F970}')
    ||| ('\u{1F973}' <= c && c <= '\u{1F976}')
    ||| c == '\u{1F97A}'
    ||| ('\u{1F97C}' <= c && c <= '\u{1F9A2}')
    ||| ('\u{1F9B0}' <= c && c <= '\u{1F9B9}')
    ||| ('\u{1F9C0}' <= c && c <= '\u{1F9C2}')
    ||| ('\u{1F9D0}' <= c && c <= '\u{1F9FF}')
    ||| ('\u{20000}' <= c && c <= '\u{2FFFD}')
    ||| ('\u{30000}' <= c && c <= '\u{3FFFD}')
}

/// Whether `ch` occupies two terminal columns.
pub fn is_wide_char(ch: char) -> (r: bool)
    ensures
        r == is_wide(ch),
{
    ('\u{1100}' <= ch && ch <= '\u{115F}')
        || ('\u{231A}' <= ch && ch <= '\u{231B}')
        || ('\u{2329}' <= ch && ch <= '\u{232A}')
        || ('\u{23E9}' <= ch && ch <= '\u{23EC}')
        || ch == '\u{23F0}'
        || ch == '\u{23F3}'
        || ('\u{25FD}' <= ch && ch <= '\u{25FE}')
        || ('\u{2614}' <= ch && ch <= '\u{2615}')
        || ('\u{2648}' <= ch && ch <= '\u{2653}')
        || ch == '\u{267F}'
        || ch == '\u{2693}'
        || ch == '\u{26A1}'
        || ('\u{26AA}' <= ch && ch <= '\u{26AB}')
        || ('\u{26BD}' <= ch && ch <= '\u{26BE}')
        || ('\u{26C4}' <= ch && ch <= '\u{26C5}')
        || ch == '\u{26CE}'
        || ch == '\u{26D4}'
        || ch == '\u{26EA}'
        || ('\u{26F2}' <= ch && ch <= '\u{26F3}')
        || ch == '\u{26F5}'
        || ch == '\u{26FA}'
        || ch == '\u{26FD}'
        || ch == '\u{2705}'
        || ('\u{270A}' <= ch && ch <= '\u{270B}')
        || ch == '\u{2728}'
        || ch == '\u{274C}'
        || ch == '\u{274E}'
        || ('\u{2753}' <= ch && ch <= '\u{2755}')
        || ch == '\u{2757}'
        || ('\u{2795}' <= ch && ch <= '\u{2797}')
        || ch == '\u{27B0}'
        || ch == '\u{27BF}'
        || ('\u{2B1B}' <= ch && ch <= '\u{2B1C}')
        || ch == '\u{2B50}'
        || ch == '\u{2B55}'
        || ('\u{2E80}' <= ch && ch <= '\u{2E99}')
        || ('\u{2E9B}' <= ch && ch <= '\u{2EF3}')
        || ('\u{2F00}' <= ch && ch <= '\u{2FD5}')
        || ('\u{2FF0}' <= ch && ch <= '\u{2FFB}')
        || ('\u{3000}' <= ch && ch <= '\u{303E}')
        || ('\u{3041}' <= ch && ch <= '\u{3096}')
        || ('\u{3099}' <= ch && ch <= '\u{30FF}')
        || ('\u{3105}' <= ch && ch <= '\u{312F}')
        || ('\u{3131}' <= ch && ch <= '\u{318E}')
        || ('\u{3190}' <= ch && ch <= '\u{31E3}')
        || ('\u{31F0}' <= ch && ch <= '\u{321E}')
        || ('\u{3220}' <= ch && ch <= '\u{3247}')
        || ('\u{3250}' <= ch && ch <= '\u{4DBF}')
        || ('\u{4E00}' <= ch && ch <= '\u{A48C}')
        || ('\u{A490}' <= ch && ch <= '\u{A4C6}')
        || ('\u{A960}' <= ch && ch <= '\u{A97C}')
        || ('\u{AC00}' <= ch && ch <= '\u{D7A3}')
        || ('\u{F900}' <= ch && ch <= '\u{FAFF}')
        || ('\u{FE10}' <= ch && ch <= '\u{FE19}')
        || ('\u{FE30}' <= ch && ch <= '\u{FE52}')
        || ('\u{FE54}' <= ch && ch <= '\u{FE66}')
        || ('\u{FE68}' <= ch && ch <= '\u{FE6B}')
        || ('\u{FF01}' <= ch && ch <= '\u{FF60}')
        || ('\u{FFE0}' <= ch && ch <= '\u{FFE6}')
        || ('\u{16FE0}' <= ch && ch <= '\u{16FE4}')
        || ('\u{17000}' <= ch && ch <= '\u{187F7}')
        || ('\u{18800}' <= ch && ch <= '\u{18CD5}')
        || ('\u{18D00}' <= ch && ch <= '\u{18D08}')
        || ('\u{1B000}' <= ch && ch <= '\u{1B11E}')
        || ('\u{1B170}' <= ch && ch <= '\u{1B2FB}')
        || ch == '\u{1F004}'
        || ch == '\u{1F0CF}'
        || ch == '\u{1F18E}'
        || ('\u{1F191}' <= ch && ch <= '\u{1F19A}')
        || ('\u{1F200}' <= ch && ch <= '\u{1F202}')
        || ('\u{1F210}' <= ch && ch <= '\u{1F23B}')
        || ('\u{1F240}' <= ch && ch <= '\u{1F248}')
        || ('\u{1F250}' <= ch && ch <= '\u{1F251}')
        || ('\u{1F260}' <= ch && ch <= '\u{1F265}')
        || ('\u{1F300}' <= ch && ch <= '\u{1F320}')
        || ('\u{1F32D}' <= ch && ch <= '\u{1F335}')
        || ('\u{1F337}' <= ch && ch <= '\u{1F37C}')
        || ('\u{1F37E}' <= ch && ch <= '\u{1F393}')
        || ('\u{1F3A0}' <= ch && ch <= '\u{1F3CA}')
        || ('\u{1F3CF}' <= ch && ch <= '\u{1F3D3}')
        || ('\u{1F3E0}' <= ch && ch <= '\u{1F3F0}')
        || ch == '\u{1F3F4}'
        || ('\u{1F3F8}' <= ch && ch <= '\u{1F43E}')
        || ch == '\u{1F440}'
        || ('\u{1F442}' <= ch && ch <= '\u{1F4FC}')
        || ('\u{1F4FF}' <= ch && ch <= '\u{1F53D}')
        || ('\u{1F54B}' <= ch && ch <= '\u{1F54E}')
        || ('\u{1F550}' <= ch && ch <= '\u{1F567}')
        || ch == '\u{1F57A}'
        || ('\u{1F595}' <= ch && ch <= '\u{1F596}')
        || ch == '\u{1F5A4}'
        || ('\u{1F5FB}' <= ch && ch <= '\u{1F64F}')
        || ('\u{1F680}' <= ch && ch <= '\u{1F6C5}')
        || ch == '\u{1F6CC}'
        || ('\u{1F6D0}' <= ch && ch <= '\u{1F6D2}')
        || ('\u{1F6EB}' <= ch && ch <= '\u{1F6EC}')
        || ('\u{1F6F4}' <= ch && ch <= '\u{1F6F9}')
        || ('\u{1F910}' <= ch && ch <= '\u{1F93E}')
        || ('\u{1F940}' <= ch && ch <= '\u{1F970}')
        || ('\u{1F973}' <= ch && ch <= '\u{1F976}')
        || ch == '\u{1F97A}'
        || ('\u{1F97C}' <= ch && ch <= '\u{1F9A2}')
        || ('\u{1F9B0}' <= ch && ch <= '\u{1F9B9}')
        || ('\u{1F9C0}' <= ch && ch <= '\u{1F9C2}')
        || ('\u{1F9D0}' <= ch && ch <= '\u{1F9FF}')
        || ('\u{20000}' <= ch && ch <= '\u{2FFFD}')
        || ('\u{30000}' <= ch && ch <= '\u{3FFFD}')
}

} // verus!
