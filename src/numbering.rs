use vstd::prelude::*;

use crate::numerals::{
    additive, additive_spec, alphabetic, alphabetic_spec, fixed, fixed_spec, numeric, numeric_spec,
    symbolic, symbolic_spec,
};

verus! {

/// A kind of numbering, named by a representative character.
#[derive(Debug, Clone, Copy, PartialEq, Eq, Hash, Structural)]
pub enum NumberingKind {
    /// Arabic numerals (1, 2, 3, ...).
    Arabic,
    /// Lowercase Latin letters; beyond z in base 26.
    LowerLatin,
    /// Uppercase Latin letters; beyond Z in base 26.
    UpperLatin,
    /// Lowercase Roman numerals.
    LowerRoman,
    /// Uppercase Roman numerals.
    UpperRoman,
    /// Lowercase Greek letters.
    LowerGreek,
    /// Uppercase Greek letters.
    UpperGreek,
    /// Note symbols: *, dagger, double dagger, section, pilcrow, double bar; then repeated.
    Symbol,
    /// Hebrew numerals.
    Hebrew,
    /// Simplified Chinese standard numerals.
    LowerSimplifiedChinese,
    /// Simplified Chinese banknote numerals.
    UpperSimplifiedChinese,
    /// Traditional Chinese standard numerals.
    LowerTraditionalChinese,
    /// Traditional Chinese banknote numerals.
    UpperTraditionalChinese,
    /// Hiragana in gojuon order.
    HiraganaAiueo,
    /// Hiragana in iroha order.
    HiraganaIroha,
    /// Katakana in gojuon order.
    KatakanaAiueo,
    /// Katakana in iroha order.
    KatakanaIroha,
    /// Korean jamo.
    KoreanJamo,
    /// Korean syllables.
    KoreanSyllable,
    /// Eastern Arabic numerals.
    EasternArabic,
    /// Eastern Arabic numerals as used in Persian and Urdu.
    EasternArabicPersian,
    /// Devanagari numerals.
    DevanagariNumber,
    /// Bengali numerals.
    BengaliNumber,
    /// Bengali letters.
    BengaliLetter,
    /// Circled numbers, up to 50.
    CircledNumber,
    /// Double-circled numbers, up to 10.
    DoubleCircledNumber,
}

/// The kind that a representative character names.
pub open spec fn kind_of_char(c: char) -> Option<NumberingKind> {
    if c == '1' {
        Some(NumberingKind::Arabic)
    } else if c == 'a' {
        Some(NumberingKind::LowerLatin)
    } else if c == 'A' {
        Some(NumberingKind::UpperLatin)
    } else if c == 'i' {
        Some(NumberingKind::LowerRoman)
    } else if c == 'I' {
        Some(NumberingKind::UpperRoman)
    } else if c == '\u{03B1}' {
        Some(NumberingKind::LowerGreek)
    } else if c == '\u{0391}' {
        Some(NumberingKind::UpperGreek)
    } else if c == '*' {
        Some(NumberingKind::Symbol)
    } else if c == '\u{05D0}' {
        Some(NumberingKind::Hebrew)
    } else if c == '\u{4E00}' {
        Some(NumberingKind::LowerSimplifiedChinese)
    } else if c == '\u{58F9}' {
        Some(NumberingKind::UpperSimplifiedChinese)
    } else if c == '\u{3042}' {
        Some(NumberingKind::HiraganaAiueo)
    } else if c == '\u{3044}' {
        Some(NumberingKind::HiraganaIroha)
    } else if c == '\u{30A2}' {
        Some(NumberingKind::KatakanaAiueo)
    } else if c == '\u{30A4}' {
        Some(NumberingKind::KatakanaIroha)
    } else if c == '\u{3131}' {
        Some(NumberingKind::KoreanJamo)
    } else if c == '\u{AC00}' {
        Some(NumberingKind::KoreanSyllable)
    } else if c == '\u{0661}' {
        Some(NumberingKind::EasternArabic)
    } else if c == '\u{06F1}' {
        Some(NumberingKind::EasternArabicPersian)
    } else if c == '\u{0967}' {
        Some(NumberingKind::DevanagariNumber)
    } else if c == '\u{09E7}' {
        Some(NumberingKind::BengaliNumber)
    } else if c == '\u{0995}' {
        Some(NumberingKind::BengaliLetter)
    } else if c == '\u{2460}' {
        Some(NumberingKind::CircledNumber)
    } else if c == '\u{24F5}' {
        Some(NumberingKind::DoubleCircledNumber)
    } else {
        None
    }
}

/// The representative character of a kind.
pub open spec fn char_of_kind(k: NumberingKind) -> char {
    match k {
        NumberingKind::Arabic => '1',
        NumberingKind::LowerLatin => 'a',
        NumberingKind::UpperLatin => 'A',
        NumberingKind::LowerRoman => 'i',
        NumberingKind::UpperRoman => 'I',
        NumberingKind::LowerGreek => '\u{03B1}',
        NumberingKind::UpperGreek => '\u{0391}',
        NumberingKind::Symbol => '*',
        NumberingKind::Hebrew => '\u{05D0}',
        NumberingKind::LowerSimplifiedChinese => '\u{4E00}',
        NumberingKind::UpperSimplifiedChinese => '\u{58F9}',
        NumberingKind::LowerTraditionalChinese => '\u{4E00}',
        NumberingKind::UpperTraditionalChinese => '\u{58F9}',
        NumberingKind::HiraganaAiueo => '\u{3042}',
        NumberingKind::HiraganaIroha => '\u{3044}',
        NumberingKind::KatakanaAiueo => '\u{30A2}',
        NumberingKind::KatakanaIroha => '\u{30A4}',
        NumberingKind::KoreanJamo => '\u{3131}',
        NumberingKind::KoreanSyllable => '\u{AC00}',
        NumberingKind::EasternArabic => '\u{0661}',
        NumberingKind::EasternArabicPersian => '\u{06F1}',
        NumberingKind::DevanagariNumber => '\u{0967}',
        NumberingKind::BengaliNumber => '\u{09E7}',
        NumberingKind::BengaliLetter => '\u{0995}',
        NumberingKind::CircledNumber => '\u{2460}',
        NumberingKind::DoubleCircledNumber => '\u{24F5}',
    }
}

impl NumberingKind {
    /// The numbering kind that a representative character names. The
    /// traditional Chinese kinds share their characters with the simplified
    /// ones, which are the ones chosen.
    pub fn from_char(c: char) -> (r: Option<NumberingKind>)
        ensures
            r == kind_of_char(c),
    {
        match c {
            '1' => Some(NumberingKind::Arabic),
            'a' => Some(NumberingKind::LowerLatin),
            'A' => Some(NumberingKind::UpperLatin),
            'i' => Some(NumberingKind::LowerRoman),
            'I' => Some(NumberingKind::UpperRoman),
            '\u{03B1}' => Some(NumberingKind::LowerGreek),
            '\u{0391}' => Some(NumberingKind::UpperGreek),
            '*' => Some(NumberingKind::Symbol),
            '\u{05D0}' => Some(NumberingKind::Hebrew),
            '\u{4E00}' => Some(NumberingKind::LowerSimplifiedChinese),
            '\u{58F9}' => Some(NumberingKind::UpperSimplifiedChinese),
            '\u{3042}' => Some(NumberingKind::HiraganaAiueo),
            '\u{3044}' => Some(NumberingKind::HiraganaIroha),
            '\u{30A2}' => Some(NumberingKind::KatakanaAiueo),
            '\u{30A4}' => Some(NumberingKind::KatakanaIroha),
            '\u{3131}' => Some(NumberingKind::KoreanJamo),
            '\u{AC00}' => Some(NumberingKind::KoreanSyllable),
            '\u{0661}' => Some(NumberingKind::EasternArabic),
            '\u{06F1}' => Some(NumberingKind::EasternArabicPersian),
            '\u{0967}' => Some(NumberingKind::DevanagariNumber),
            '\u{09E7}' => Some(NumberingKind::BengaliNumber),
            '\u{0995}' => Some(NumberingKind::BengaliLetter),
            '\u{2460}' => Some(NumberingKind::CircledNumber),
            '\u{24F5}' => Some(NumberingKind::DoubleCircledNumber),
            _ => None,
        }
    }

    /// The representative character of this numbering kind.
    pub fn to_char(self) -> (r: char)
        ensures
            r == char_of_kind(self),
    {
        match self {
            NumberingKind::Arabic => '1',
            NumberingKind::LowerLatin => 'a',
            NumberingKind::UpperLatin => 'A',
            NumberingKind::LowerRoman => 'i',
            NumberingKind::UpperRoman => 'I',
            NumberingKind::LowerGreek => '\u{03B1}',
            NumberingKind::UpperGreek => '\u{0391}',
            NumberingKind::Symbol => '*',
            NumberingKind::Hebrew => '\u{05D0}',
            NumberingKind::LowerSimplifiedChinese => '\u{4E00}',
            NumberingKind::UpperSimplifiedChinese => '\u{58F9}',
            NumberingKind::LowerTraditionalChinese => '\u{4E00}',
            NumberingKind::UpperTraditionalChinese => '\u{58F9}',
            NumberingKind::HiraganaAiueo => '\u{3042}',
            NumberingKind::HiraganaIroha => '\u{3044}',
            NumberingKind::KatakanaAiueo => '\u{30A2}',
            NumberingKind::KatakanaIroha => '\u{30A4}',
            NumberingKind::KoreanJamo => '\u{3131}',
            NumberingKind::KoreanSyllable => '\u{AC00}',
            NumberingKind::EasternArabic => '\u{0661}',
            NumberingKind::EasternArabicPersian => '\u{06F1}',
            NumberingKind::DevanagariNumber => '\u{0967}',
            NumberingKind::BengaliNumber => '\u{09E7}',
            NumberingKind::BengaliLetter => '\u{0995}',
            NumberingKind::CircledNumber => '\u{2460}',
            NumberingKind::DoubleCircledNumber => '\u{24F5}',
        }
    }
}

/// A character that names a kind is that kind's representative character.
pub proof fn char_of_named_kind(c: char)
    requires
        kind_of_char(c) is Some,
    ensures
        char_of_kind(kind_of_char(c)->0) == c,
{
}

/// The representative character of a kind names it back, except for the
/// traditional Chinese kinds, whose characters name the simplified ones.
pub proof fn kind_of_representative(k: NumberingKind)
    ensures
        k != NumberingKind::LowerTraditionalChinese && k != NumberingKind::UpperTraditionalChinese
            ==> kind_of_char(char_of_kind(k)) == Some(k),
        k == NumberingKind::LowerTraditionalChinese ==> kind_of_char(char_of_kind(k)) == Some(
            NumberingKind::LowerSimplifiedChinese,
        ),
        k == NumberingKind::UpperTraditionalChinese ==> kind_of_char(char_of_kind(k)) == Some(
            NumberingKind::UpperSimplifiedChinese,
        ),
{
}


/// The digits or symbols of a kind that writes numbers with single
/// characters.
pub open spec fn symbols_of(kind: NumberingKind) -> Seq<char> {
    match kind {
        NumberingKind::Arabic => seq!['0', '1', '2', '3', '4', '5', '6', '7', '8', '9'],
        NumberingKind::LowerLatin => seq![
            'a', 'b', 'c', 'd', 'e', 'f', 'g', 'h', 'i', 'j', 'k', 'l', 'm', 'n', 'o', 'p',
            'q', 'r', 's', 't', 'u', 'v', 'w', 'x', 'y', 'z',
        ],
        NumberingKind::UpperLatin => seq![
            'A', 'B', 'C', 'D', 'E', 'F', 'G', 'H', 'I', 'J', 'K', 'L', 'M', 'N', 'O', 'P',
            'Q', 'R', 'S', 'T', 'U', 'V', 'W', 'X', 'Y', 'Z',
        ],
        NumberingKind::HiraganaAiueo => seq![
            '\u{3042}', '\u{3044}', '\u{3046}', '\u{3048}', '\u{304A}', '\u{304B}', '\u{304D}',
            '\u{304F}', '\u{3051}', '\u{3053}', '\u{3055}', '\u{3057}', '\u{3059}', '\u{305B}',
            '\u{305D}', '\u{305F}', '\u{3061}', '\u{3064}', '\u{3066}', '\u{3068}', '\u{306A}',
            '\u{306B}', '\u{306C}', '\u{306D}', '\u{306E}', '\u{306F}', '\u{3072}', '\u{3075}',
            '\u{3078}', '\u{307B}', '\u{307E}', '\u{307F}', '\u{3080}', '\u{3081}', '\u{3082}',
            '\u{3084}', '\u{3086}', '\u{3088}', '\u{3089}', '\u{308A}', '\u{308B}', '\u{308C}',
            '\u{308D}', '\u{308F}', '\u{3092}', '\u{3093}',
        ],
        NumberingKind::HiraganaIroha => seq![
            '\u{3044}', '\u{308D}', '\u{306F}', '\u{306B}', '\u{307B}', '\u{3078}', '\u{3068}',
            '\u{3061}', '\u{308A}', '\u{306C}', '\u{308B}', '\u{3092}', '\u{308F}', '\u{304B}',
            '\u{3088}', '\u{305F}', '\u{308C}', '\u{305D}', '\u{3064}', '\u{306D}', '\u{306A}',
            '\u{3089}', '\u{3080}', '\u{3046}', '\u{3090}', '\u{306E}', '\u{304A}', '\u{304F}',
            '\u{3084}', '\u{307E}', '\u{3051}', '\u{3075}', '\u{3053}', '\u{3048}', '\u{3066}',
            '\u{3042}', '\u{3055}', '\u{304D}', '\u{3086}', '\u{3081}', '\u{307F}', '\u{3057}',
            '\u{3091}', '\u{3072}', '\u{3082}', '\u{305B}', '\u{3059}',
        ],
        NumberingKind::KatakanaAiueo => seq![
            '\u{30A2}', '\u{30A4}', '\u{30A6}', '\u{30A8}', '\u{30AA}', '\u{30AB}', '\u{30AD}',
            '\u{30AF}', '\u{30B1}', '\u{30B3}', '\u{30B5}', '\u{30B7}', '\u{30B9}', '\u{30BB}',
            '\u{30BD}', '\u{30BF}', '\u{30C1}', '\u{30C4}', '\u{30C6}', '\u{30C8}', '\u{30CA}',
            '\u{30CB}', '\u{30CC}', '\u{30CD}', '\u{30CE}', '\u{30CF}', '\u{30D2}', '\u{30D5}',
            '\u{30D8}', '\u{30DB}', '\u{30DE}', '\u{30DF}', '\u{30E0}', '\u{30E1}', '\u{30E2}',
            '\u{30E4}', '\u{30E6}', '\u{30E8}', '\u{30E9}', '\u{30EA}', '\u{30EB}', '\u{30EC}',
            '\u{30ED}', '\u{30EF}', '\u{30F2}', '\u{30F3}',
        ],
        NumberingKind::KatakanaIroha => seq![
            '\u{30A4}', '\u{30ED}', '\u{30CF}', '\u{30CB}', '\u{30DB}', '\u{30D8}', '\u{30C8}',
            '\u{30C1}', '\u{30EA}', '\u{30CC}', '\u{30EB}', '\u{30F2}', '\u{30EF}', '\u{30AB}',
            '\u{30E8}', '\u{30BF}', '\u{30EC}', '\u{30BD}', '\u{30C4}', '\u{30CD}', '\u{30CA}',
            '\u{30E9}', '\u{30E0}', '\u{30A6}', '\u{30F0}', '\u{30CE}', '\u{30AA}', '\u{30AF}',
            '\u{30E4}', '\u{30DE}', '\u{30B1}', '\u{30D5}', '\u{30B3}', '\u{30A8}', '\u{30C6}',
            '\u{30A2}', '\u{30B5}', '\u{30AD}', '\u{30E6}', '\u{30E1}', '\u{30DF}', '\u{30B7}',
            '\u{30F1}', '\u{30D2}', '\u{30E2}', '\u{30BB}', '\u{30B9}',
        ],
        NumberingKind::KoreanJamo => seq![
            '\u{3131}', '\u{3134}', '\u{3137}', '\u{3139}', '\u{3141}', '\u{3142}', '\u{3145}',
            '\u{3147}', '\u{3148}', '\u{314A}', '\u{314B}', '\u{314C}', '\u{314D}', '\u{314E}',
        ],
        NumberingKind::KoreanSyllable => seq![
            '\u{AC00}', '\u{B098}', '\u{B2E4}', '\u{B77C}', '\u{B9C8}', '\u{BC14}', '\u{C0AC}',
            '\u{C544}', '\u{C790}', '\u{CC28}', '\u{CE74}', '\u{D0C0}', '\u{D30C}', '\u{D558}',
        ],
        NumberingKind::BengaliLetter => seq![
            '\u{995}', '\u{996}', '\u{997}', '\u{998}', '\u{999}', '\u{99A}', '\u{99B}',
            '\u{99C}', '\u{99D}', '\u{99E}', '\u{99F}', '\u{9A0}', '\u{9A1}', '\u{9A2}',
            '\u{9A3}', '\u{9A4}', '\u{9A5}', '\u{9A6}', '\u{9A7}', '\u{9A8}', '\u{9AA}',
            '\u{9AB}', '\u{9AC}', '\u{9AD}', '\u{9AE}', '\u{9AF}', '\u{9B0}', '\u{9B2}',
            '\u{9B6}', '\u{9B7}', '\u{9B8}', '\u{9B9}',
        ],
        NumberingKind::CircledNumber => seq![
            '\u{24EA}', '\u{2460}', '\u{2461}', '\u{2462}', '\u{2463}', '\u{2464}', '\u{2465}',
            '\u{2466}', '\u{2467}', '\u{2468}', '\u{2469}', '\u{246A}', '\u{246B}', '\u{246C}',
            '\u{246D}', '\u{246E}', '\u{246F}', '\u{2470}', '\u{2471}', '\u{2472}', '\u{2473}',
            '\u{3251}', '\u{3252}', '\u{3253}', '\u{3254}', '\u{3255}', '\u{3256}', '\u{3257}',
            '\u{3258}', '\u{3259}', '\u{325A}', '\u{325B}', '\u{325C}', '\u{325D}', '\u{325E}',
            '\u{325F}', '\u{32B1}', '\u{32B2}', '\u{32B3}', '\u{32B4}', '\u{32B5}', '\u{32B6}',
            '\u{32B7}', '\u{32B8}', '\u{32B9}', '\u{32BA}', '\u{32BB}', '\u{32BC}', '\u{32BD}',
            '\u{32BE}', '\u{32BF}',
        ],
        NumberingKind::DoubleCircledNumber => seq![
            '0', '\u{24F5}', '\u{24F6}', '\u{24F7}', '\u{24F8}', '\u{24F9}', '\u{24FA}',
            '\u{24FB}', '\u{24FC}', '\u{24FD}', '\u{24FE}',
        ],
        NumberingKind::EasternArabic => seq![
            '\u{660}', '\u{661}', '\u{662}', '\u{663}', '\u{664}', '\u{665}', '\u{666}',
            '\u{667}', '\u{668}', '\u{669}',
        ],
        NumberingKind::EasternArabicPersian => seq![
            '\u{6F0}', '\u{6F1}', '\u{6F2}', '\u{6F3}', '\u{6F4}', '\u{6F5}', '\u{6F6}',
            '\u{6F7}', '\u{6F8}', '\u{6F9}',
        ],
        NumberingKind::DevanagariNumber => seq![
            '\u{966}', '\u{967}', '\u{968}', '\u{969}', '\u{96A}', '\u{96B}', '\u{96C}',
            '\u{96D}', '\u{96E}', '\u{96F}',
        ],
        NumberingKind::BengaliNumber => seq![
            '\u{9E6}', '\u{9E7}', '\u{9E8}', '\u{9E9}', '\u{9EA}', '\u{9EB}', '\u{9EC}',
            '\u{9ED}', '\u{9EE}', '\u{9EF}',
        ],
        NumberingKind::Symbol => seq!['*', '\u{2020}', '\u{2021}', '\u{A7}', '\u{B6}', '\u{2016}'],
        _ => Seq::empty(),
    }
}

/// The weighted symbols of a kind that writes numbers additively.
pub open spec fn weights_of(kind: NumberingKind) -> Seq<(&'static str, u64)> {
    match kind {
        NumberingKind::LowerRoman => seq![
            ("m\u{305}", 1000000), ("d\u{305}", 500000), ("c\u{305}", 100000),
            ("l\u{305}", 50000), ("x\u{305}", 10000), ("v\u{305}", 5000),
            ("i\u{305}v\u{305}", 4000), ("m", 1000), ("cm", 900), ("d", 500), ("cd", 400),
            ("c", 100), ("xc", 90), ("l", 50), ("xl", 40), ("x", 10), ("ix", 9), ("v", 5),
            ("iv", 4), ("i", 1), ("n", 0),
        ],
        NumberingKind::UpperRoman => seq![
            ("M\u{305}", 1000000), ("D\u{305}", 500000), ("C\u{305}", 100000),
            ("L\u{305}", 50000), ("X\u{305}", 10000), ("V\u{305}", 5000),
            ("I\u{305}V\u{305}", 4000), ("M", 1000), ("CM", 900), ("D", 500), ("CD", 400),
            ("C", 100), ("XC", 90), ("L", 50), ("XL", 40), ("X", 10), ("IX", 9), ("V", 5),
            ("IV", 4), ("I", 1), ("N", 0),
        ],
        NumberingKind::LowerGreek => seq![
            ("\u{375}\u{3B8}", 9000), ("\u{375}\u{3B7}", 8000), ("\u{375}\u{3B6}", 7000),
            ("\u{375}\u{3DB}", 6000), ("\u{375}\u{3B5}", 5000), ("\u{375}\u{3B4}", 4000),
            ("\u{375}\u{3B3}", 3000), ("\u{375}\u{3B2}", 2000), ("\u{375}\u{3B1}", 1000),
            ("\u{3E1}", 900), ("\u{3C9}", 800), ("\u{3C8}", 700), ("\u{3C7}", 600),
            ("\u{3C6}", 500), ("\u{3C5}", 400), ("\u{3C4}", 300), ("\u{3C3}", 200),
            ("\u{3C1}", 100), ("\u{3DF}", 90), ("\u{3C0}", 80), ("\u{3BF}", 70),
            ("\u{3BE}", 60), ("\u{3BD}", 50), ("\u{3BC}", 40), ("\u{3BB}", 30),
            ("\u{3BA}", 20), ("\u{3B9}", 10), ("\u{3B8}", 9), ("\u{3B7}", 8), ("\u{3B6}", 7),
            ("\u{3DB}", 6), ("\u{3B5}", 5), ("\u{3B4}", 4), ("\u{3B3}", 3), ("\u{3B2}", 2),
            ("\u{3B1}", 1), ("\u{1018A}", 0),
        ],
        NumberingKind::UpperGreek => seq![
            ("\u{375}\u{398}", 9000), ("\u{375}\u{397}", 8000), ("\u{375}\u{396}", 7000),
            ("\u{375}\u{3DA}", 6000), ("\u{375}\u{395}", 5000), ("\u{375}\u{394}", 4000),
            ("\u{375}\u{393}", 3000), ("\u{375}\u{392}", 2000), ("\u{375}\u{391}", 1000),
            ("\u{3E0}", 900), ("\u{3A9}", 800), ("\u{3A8}", 700), ("\u{3A7}", 600),
            ("\u{3A6}", 500), ("\u{3A5}", 400), ("\u{3A4}", 300), ("\u{3A3}", 200),
            ("\u{3A1}", 100), ("\u{3DE}", 90), ("\u{3A0}", 80), ("\u{39F}", 70),
            ("\u{39E}", 60), ("\u{39D}", 50), ("\u{39C}", 40), ("\u{39B}", 30),
            ("\u{39A}", 20), ("\u{399}", 10), ("\u{398}", 9), ("\u{397}", 8), ("\u{396}", 7),
            ("\u{3DA}", 6), ("\u{395}", 5), ("\u{394}", 4), ("\u{393}", 3), ("\u{392}", 2),
            ("\u{391}", 1), ("\u{1018A}", 0),
        ],
        NumberingKind::Hebrew => seq![
            ("\u{5EA}", 400), ("\u{5E9}", 300), ("\u{5E8}", 200), ("\u{5E7}", 100),
            ("\u{5E6}", 90), ("\u{5E4}", 80), ("\u{5E2}", 70), ("\u{5E1}", 60),
            ("\u{5E0}", 50), ("\u{5DE}", 40), ("\u{5DC}", 30), ("\u{5DB}", 20),
            ("\u{5D9}\u{5D8}", 19), ("\u{5D9}\u{5D7}", 18), ("\u{5D9}\u{5D6}", 17),
            ("\u{5D8}\u{5D6}", 16), ("\u{5D8}\u{5D5}", 15), ("\u{5D9}", 10), ("\u{5D8}", 9),
            ("\u{5D7}", 8), ("\u{5D6}", 7), ("\u{5D5}", 6), ("\u{5D4}", 5), ("\u{5D3}", 4),
            ("\u{5D2}", 3), ("\u{5D1}", 2), ("\u{5D0}", 1), ("-", 0),
        ],
        _ => Seq::empty(),
    }
}

/// What `n` is in a numbering kind.
pub open spec fn apply_spec(kind: NumberingKind, n: u64) -> Seq<char> {
    match kind {
        NumberingKind::Arabic => numeric_spec(symbols_of(kind), n as nat),
        NumberingKind::LowerRoman => additive_spec(weights_of(kind), n as nat),
        NumberingKind::UpperRoman => additive_spec(weights_of(kind), n as nat),
        NumberingKind::LowerGreek => additive_spec(weights_of(kind), n as nat),
        NumberingKind::UpperGreek => additive_spec(weights_of(kind), n as nat),
        NumberingKind::Hebrew => additive_spec(weights_of(kind), n as nat),
        NumberingKind::LowerLatin => alphabetic_spec(symbols_of(kind), n as nat),
        NumberingKind::UpperLatin => alphabetic_spec(symbols_of(kind), n as nat),
        NumberingKind::HiraganaAiueo => alphabetic_spec(symbols_of(kind), n as nat),
        NumberingKind::HiraganaIroha => alphabetic_spec(symbols_of(kind), n as nat),
        NumberingKind::KatakanaAiueo => alphabetic_spec(symbols_of(kind), n as nat),
        NumberingKind::KatakanaIroha => alphabetic_spec(symbols_of(kind), n as nat),
        NumberingKind::KoreanJamo => alphabetic_spec(symbols_of(kind), n as nat),
        NumberingKind::KoreanSyllable => alphabetic_spec(symbols_of(kind), n as nat),
        NumberingKind::BengaliLetter => alphabetic_spec(symbols_of(kind), n as nat),
        NumberingKind::CircledNumber => fixed_spec(symbols_of(kind), n as nat),
        NumberingKind::DoubleCircledNumber => fixed_spec(symbols_of(kind), n as nat),
        NumberingKind::LowerSimplifiedChinese => chinese_numeral(false, false, n),
        NumberingKind::UpperSimplifiedChinese => chinese_numeral(false, true, n),
        NumberingKind::LowerTraditionalChinese => chinese_numeral(true, false, n),
        NumberingKind::UpperTraditionalChinese => chinese_numeral(true, true, n),
        NumberingKind::EasternArabic => numeric_spec(symbols_of(kind), n as nat),
        NumberingKind::EasternArabicPersian => numeric_spec(symbols_of(kind), n as nat),
        NumberingKind::DevanagariNumber => numeric_spec(symbols_of(kind), n as nat),
        NumberingKind::BengaliNumber => numeric_spec(symbols_of(kind), n as nat),
        NumberingKind::Symbol => symbolic_spec(symbols_of(kind), n as nat),
    }
}

/// What `chinese_number::from_u64_to_chinese_ten_thousand` returns for the
/// variant (traditional or simplified), the case (upper or lower) and the
/// number.
pub uninterp spec fn chinese_numeral(traditional: bool, upper: bool, n: u64) -> Seq<char>;

/// Relies on `chinese_number::from_u64_to_chinese_ten_thousand`: the
/// Chinese numeral of `n`, grouped by ten thousands, in the variant and
/// case; it depends on its arguments alone.
#[verifier::external_body]
fn chinese(traditional: bool, upper: bool, n: u64) -> (r: String)
    ensures
        r@ == chinese_numeral(traditional, upper, n),
{
    let variant = if traditional {
        chinese_number::ChineseVariant::Traditional
    } else {
        chinese_number::ChineseVariant::Simple
    };
    let case = if upper {
        chinese_number::ChineseCase::Upper
    } else {
        chinese_number::ChineseCase::Lower
    };
    chinese_number::from_u64_to_chinese_ten_thousand(variant, case, n)
}

impl NumberingKind {
    /// `n` written in this numbering kind.
    pub fn apply(self, n: u64) -> (r: String)
        ensures
            r@ == apply_spec(self, n),
    {
        match self {
            NumberingKind::Arabic => {
                let t: [char; 10] = ['0', '1', '2', '3', '4', '5', '6', '7', '8', '9'];
                assert(t@ =~= symbols_of(self));
                numeric(&t, n)
            },
            NumberingKind::LowerRoman => {
                let t: [(&'static str, u64); 21] = [
                    ("m\u{305}", 1000000), ("d\u{305}", 500000), ("c\u{305}", 100000),
                    ("l\u{305}", 50000), ("x\u{305}", 10000), ("v\u{305}", 5000),
                    ("i\u{305}v\u{305}", 4000), ("m", 1000), ("cm", 900), ("d", 500),
                    ("cd", 400), ("c", 100), ("xc", 90), ("l", 50), ("xl", 40), ("x", 10),
                    ("ix", 9), ("v", 5), ("iv", 4), ("i", 1), ("n", 0),
                ];
                assert(t@ =~= weights_of(self));
                additive(&t, n)
            },
            NumberingKind::UpperRoman => {
                let t: [(&'static str, u64); 21] = [
                    ("M\u{305}", 1000000), ("D\u{305}", 500000), ("C\u{305}", 100000),
                    ("L\u{305}", 50000), ("X\u{305}", 10000), ("V\u{305}", 5000),
                    ("I\u{305}V\u{305}", 4000), ("M", 1000), ("CM", 900), ("D", 500),
                    ("CD", 400), ("C", 100), ("XC", 90), ("L", 50), ("XL", 40), ("X", 10),
                    ("IX", 9), ("V", 5), ("IV", 4), ("I", 1), ("N", 0),
                ];
                assert(t@ =~= weights_of(self));
                additive(&t, n)
            },
            NumberingKind::LowerGreek => {
                let t: [(&'static str, u64); 37] = [
                    ("\u{375}\u{3B8}", 9000), ("\u{375}\u{3B7}", 8000),
                    ("\u{375}\u{3B6}", 7000), ("\u{375}\u{3DB}", 6000),
                    ("\u{375}\u{3B5}", 5000), ("\u{375}\u{3B4}", 4000),
                    ("\u{375}\u{3B3}", 3000), ("\u{375}\u{3B2}", 2000),
                    ("\u{375}\u{3B1}", 1000), ("\u{3E1}", 900), ("\u{3C9}", 800),
                    ("\u{3C8}", 700), ("\u{3C7}", 600), ("\u{3C6}", 500), ("\u{3C5}", 400),
                    ("\u{3C4}", 300), ("\u{3C3}", 200), ("\u{3C1}", 100), ("\u{3DF}", 90),
                    ("\u{3C0}", 80), ("\u{3BF}", 70), ("\u{3BE}", 60), ("\u{3BD}", 50),
                    ("\u{3BC}", 40), ("\u{3BB}", 30), ("\u{3BA}", 20), ("\u{3B9}", 10),
                    ("\u{3B8}", 9), ("\u{3B7}", 8), ("\u{3B6}", 7), ("\u{3DB}", 6),
                    ("\u{3B5}", 5), ("\u{3B4}", 4), ("\u{3B3}", 3), ("\u{3B2}", 2),
                    ("\u{3B1}", 1), ("\u{1018A}", 0),
                ];
                assert(t@ =~= weights_of(self));
                additive(&t, n)
            },
            NumberingKind::UpperGreek => {
                let t: [(&'static str, u64); 37] = [
                    ("\u{375}\u{398}", 9000), ("\u{375}\u{397}", 8000),
                    ("\u{375}\u{396}", 7000), ("\u{375}\u{3DA}", 6000),
                    ("\u{375}\u{395}", 5000), ("\u{375}\u{394}", 4000),
                    ("\u{375}\u{393}", 3000), ("\u{375}\u{392}", 2000),
                    ("\u{375}\u{391}", 1000), ("\u{3E0}", 900), ("\u{3A9}", 800),
                    ("\u{3A8}", 700), ("\u{3A7}", 600), ("\u{3A6}", 500), ("\u{3A5}", 400),
                    ("\u{3A4}", 300), ("\u{3A3}", 200), ("\u{3A1}", 100), ("\u{3DE}", 90),
                    ("\u{3A0}", 80), ("\u{39F}", 70), ("\u{39E}", 60), ("\u{39D}", 50),
                    ("\u{39C}", 40), ("\u{39B}", 30), ("\u{39A}", 20), ("\u{399}", 10),
                    ("\u{398}", 9), ("\u{397}", 8), ("\u{396}", 7), ("\u{3DA}", 6),
                    ("\u{395}", 5), ("\u{394}", 4), ("\u{393}", 3), ("\u{392}", 2),
                    ("\u{391}", 1), ("\u{1018A}", 0),
                ];
                assert(t@ =~= weights_of(self));
                additive(&t, n)
            },
            NumberingKind::Hebrew => {
                let t: [(&'static str, u64); 28] = [
                    ("\u{5EA}", 400), ("\u{5E9}", 300), ("\u{5E8}", 200), ("\u{5E7}", 100),
                    ("\u{5E6}", 90), ("\u{5E4}", 80), ("\u{5E2}", 70), ("\u{5E1}", 60),
                    ("\u{5E0}", 50), ("\u{5DE}", 40), ("\u{5DC}", 30), ("\u{5DB}", 20),
                    ("\u{5D9}\u{5D8}", 19), ("\u{5D9}\u{5D7}", 18), ("\u{5D9}\u{5D6}", 17),
                    ("\u{5D8}\u{5D6}", 16), ("\u{5D8}\u{5D5}", 15), ("\u{5D9}", 10),
                    ("\u{5D8}", 9), ("\u{5D7}", 8), ("\u{5D6}", 7), ("\u{5D5}", 6),
                    ("\u{5D4}", 5), ("\u{5D3}", 4), ("\u{5D2}", 3), ("\u{5D1}", 2),
                    ("\u{5D0}", 1), ("-", 0),
                ];
                assert(t@ =~= weights_of(self));
                additive(&t, n)
            },
            NumberingKind::LowerLatin => {
                let t: [char; 26] = [
                    'a', 'b', 'c', 'd', 'e', 'f', 'g', 'h', 'i', 'j', 'k', 'l', 'm', 'n', 'o',
                    'p', 'q', 'r', 's', 't', 'u', 'v', 'w', 'x', 'y', 'z',
                ];
                assert(t@ =~= symbols_of(self));
                alphabetic(&t, n)
            },
            NumberingKind::UpperLatin => {
                let t: [char; 26] = [
                    'A', 'B', 'C', 'D', 'E', 'F', 'G', 'H', 'I', 'J', 'K', 'L', 'M', 'N', 'O',
                    'P', 'Q', 'R', 'S', 'T', 'U', 'V', 'W', 'X', 'Y', 'Z',
                ];
                assert(t@ =~= symbols_of(self));
                alphabetic(&t, n)
            },
            NumberingKind::HiraganaAiueo => {
                let t: [char; 46] = [
                    '\u{3042}', '\u{3044}', '\u{3046}', '\u{3048}', '\u{304A}', '\u{304B}',
                    '\u{304D}', '\u{304F}', '\u{3051}', '\u{3053}', '\u{3055}', '\u{3057}',
                    '\u{3059}', '\u{305B}', '\u{305D}', '\u{305F}', '\u{3061}', '\u{3064}',
                    '\u{3066}', '\u{3068}', '\u{306A}', '\u{306B}', '\u{306C}', '\u{306D}',
                    '\u{306E}', '\u{306F}', '\u{3072}', '\u{3075}', '\u{3078}', '\u{307B}',
                    '\u{307E}', '\u{307F}', '\u{3080}', '\u{3081}', '\u{3082}', '\u{3084}',
                    '\u{3086}', '\u{3088}', '\u{3089}', '\u{308A}', '\u{308B}', '\u{308C}',
                    '\u{308D}', '\u{308F}', '\u{3092}', '\u{3093}',
                ];
                assert(t@ =~= symbols_of(self));
                alphabetic(&t, n)
            },
            NumberingKind::HiraganaIroha => {
                let t: [char; 47] = [
                    '\u{3044}', '\u{308D}', '\u{306F}', '\u{306B}', '\u{307B}', '\u{3078}',
                    '\u{3068}', '\u{3061}', '\u{308A}', '\u{306C}', '\u{308B}', '\u{3092}',
                    '\u{308F}', '\u{304B}', '\u{3088}', '\u{305F}', '\u{308C}', '\u{305D}',
                    '\u{3064}', '\u{306D}', '\u{306A}', '\u{3089}', '\u{3080}', '\u{3046}',
                    '\u{3090}', '\u{306E}', '\u{304A}', '\u{304F}', '\u{3084}', '\u{307E}',
                    '\u{3051}', '\u{3075}', '\u{3053}', '\u{3048}', '\u{3066}', '\u{3042}',
                    '\u{3055}', '\u{304D}', '\u{3086}', '\u{3081}', '\u{307F}', '\u{3057}',
                    '\u{3091}', '\u{3072}', '\u{3082}', '\u{305B}', '\u{3059}',
                ];
                assert(t@ =~= symbols_of(self));
                alphabetic(&t, n)
            },
            NumberingKind::KatakanaAiueo => {
                let t: [char; 46] = [
                    '\u{30A2}', '\u{30A4}', '\u{30A6}', '\u{30A8}', '\u{30AA}', '\u{30AB}',
                    '\u{30AD}', '\u{30AF}', '\u{30B1}', '\u{30B3}', '\u{30B5}', '\u{30B7}',
                    '\u{30B9}', '\u{30BB}', '\u{30BD}', '\u{30BF}', '\u{30C1}', '\u{30C4}',
                    '\u{30C6}', '\u{30C8}', '\u{30CA}', '\u{30CB}', '\u{30CC}', '\u{30CD}',
                    '\u{30CE}', '\u{30CF}', '\u{30D2}', '\u{30D5}', '\u{30D8}', '\u{30DB}',
                    '\u{30DE}', '\u{30DF}', '\u{30E0}', '\u{30E1}', '\u{30E2}', '\u{30E4}',
                    '\u{30E6}', '\u{30E8}', '\u{30E9}', '\u{30EA}', '\u{30EB}', '\u{30EC}',
                    '\u{30ED}', '\u{30EF}', '\u{30F2}', '\u{30F3}',
                ];
                assert(t@ =~= symbols_of(self));
                alphabetic(&t, n)
            },
            NumberingKind::KatakanaIroha => {
                let t: [char; 47] = [
                    '\u{30A4}', '\u{30ED}', '\u{30CF}', '\u{30CB}', '\u{30DB}', '\u{30D8}',
                    '\u{30C8}', '\u{30C1}', '\u{30EA}', '\u{30CC}', '\u{30EB}', '\u{30F2}',
                    '\u{30EF}', '\u{30AB}', '\u{30E8}', '\u{30BF}', '\u{30EC}', '\u{30BD}',
                    '\u{30C4}', '\u{30CD}', '\u{30CA}', '\u{30E9}', '\u{30E0}', '\u{30A6}',
                    '\u{30F0}', '\u{30CE}', '\u{30AA}', '\u{30AF}', '\u{30E4}', '\u{30DE}',
                    '\u{30B1}', '\u{30D5}', '\u{30B3}', '\u{30A8}', '\u{30C6}', '\u{30A2}',
                    '\u{30B5}', '\u{30AD}', '\u{30E6}', '\u{30E1}', '\u{30DF}', '\u{30B7}',
                    '\u{30F1}', '\u{30D2}', '\u{30E2}', '\u{30BB}', '\u{30B9}',
                ];
                assert(t@ =~= symbols_of(self));
                alphabetic(&t, n)
            },
            NumberingKind::KoreanJamo => {
                let t: [char; 14] = [
                    '\u{3131}', '\u{3134}', '\u{3137}', '\u{3139}', '\u{3141}', '\u{3142}',
                    '\u{3145}', '\u{3147}', '\u{3148}', '\u{314A}', '\u{314B}', '\u{314C}',
                    '\u{314D}', '\u{314E}',
                ];
                assert(t@ =~= symbols_of(self));
                alphabetic(&t, n)
            },
            NumberingKind::KoreanSyllable => {
                let t: [char; 14] = [
                    '\u{AC00}', '\u{B098}', '\u{B2E4}', '\u{B77C}', '\u{B9C8}', '\u{BC14}',
                    '\u{C0AC}', '\u{C544}', '\u{C790}', '\u{CC28}', '\u{CE74}', '\u{D0C0}',
                    '\u{D30C}', '\u{D558}',
                ];
                assert(t@ =~= symbols_of(self));
                alphabetic(&t, n)
            },
            NumberingKind::BengaliLetter => {
                let t: [char; 32] = [
                    '\u{995}', '\u{996}', '\u{997}', '\u{998}', '\u{999}', '\u{99A}',
                    '\u{99B}', '\u{99C}', '\u{99D}', '\u{99E}', '\u{99F}', '\u{9A0}',
                    '\u{9A1}', '\u{9A2}', '\u{9A3}', '\u{9A4}', '\u{9A5}', '\u{9A6}',
                    '\u{9A7}', '\u{9A8}', '\u{9AA}', '\u{9AB}', '\u{9AC}', '\u{9AD}',
                    '\u{9AE}', '\u{9AF}', '\u{9B0}', '\u{9B2}', '\u{9B6}', '\u{9B7}',
                    '\u{9B8}', '\u{9B9}',
                ];
                assert(t@ =~= symbols_of(self));
                alphabetic(&t, n)
            },
            NumberingKind::CircledNumber => {
                let t: [char; 51] = [
                    '\u{24EA}', '\u{2460}', '\u{2461}', '\u{2462}', '\u{2463}', '\u{2464}',
                    '\u{2465}', '\u{2466}', '\u{2467}', '\u{2468}', '\u{2469}', '\u{246A}',
                    '\u{246B}', '\u{246C}', '\u{246D}', '\u{246E}', '\u{246F}', '\u{2470}',
                    '\u{2471}', '\u{2472}', '\u{2473}', '\u{3251}', '\u{3252}', '\u{3253}',
                    '\u{3254}', '\u{3255}', '\u{3256}', '\u{3257}', '\u{3258}', '\u{3259}',
                    '\u{325A}', '\u{325B}', '\u{325C}', '\u{325D}', '\u{325E}', '\u{325F}',
                    '\u{32B1}', '\u{32B2}', '\u{32B3}', '\u{32B4}', '\u{32B5}', '\u{32B6}',
                    '\u{32B7}', '\u{32B8}', '\u{32B9}', '\u{32BA}', '\u{32BB}', '\u{32BC}',
                    '\u{32BD}', '\u{32BE}', '\u{32BF}',
                ];
                assert(t@ =~= symbols_of(self));
                fixed(&t, n)
            },
            NumberingKind::DoubleCircledNumber => {
                let t: [char; 11] = [
                    '0', '\u{24F5}', '\u{24F6}', '\u{24F7}', '\u{24F8}', '\u{24F9}',
                    '\u{24FA}', '\u{24FB}', '\u{24FC}', '\u{24FD}', '\u{24FE}',
                ];
                assert(t@ =~= symbols_of(self));
                fixed(&t, n)
            },
            NumberingKind::LowerSimplifiedChinese => chinese(false, false, n),
            NumberingKind::UpperSimplifiedChinese => chinese(false, true, n),
            NumberingKind::LowerTraditionalChinese => chinese(true, false, n),
            NumberingKind::UpperTraditionalChinese => chinese(true, true, n),
            NumberingKind::EasternArabic => {
                let t: [char; 10] = [
                    '\u{660}', '\u{661}', '\u{662}', '\u{663}', '\u{664}', '\u{665}',
                    '\u{666}', '\u{667}', '\u{668}', '\u{669}',
                ];
                assert(t@ =~= symbols_of(self));
                numeric(&t, n)
            },
            NumberingKind::EasternArabicPersian => {
                let t: [char; 10] = [
                    '\u{6F0}', '\u{6F1}', '\u{6F2}', '\u{6F3}', '\u{6F4}', '\u{6F5}',
                    '\u{6F6}', '\u{6F7}', '\u{6F8}', '\u{6F9}',
                ];
                assert(t@ =~= symbols_of(self));
                numeric(&t, n)
            },
            NumberingKind::DevanagariNumber => {
                let t: [char; 10] = [
                    '\u{966}', '\u{967}', '\u{968}', '\u{969}', '\u{96A}', '\u{96B}',
                    '\u{96C}', '\u{96D}', '\u{96E}', '\u{96F}',
                ];
                assert(t@ =~= symbols_of(self));
                numeric(&t, n)
            },
            NumberingKind::BengaliNumber => {
                let t: [char; 10] = [
                    '\u{9E6}', '\u{9E7}', '\u{9E8}', '\u{9E9}', '\u{9EA}', '\u{9EB}',
                    '\u{9EC}', '\u{9ED}', '\u{9EE}', '\u{9EF}',
                ];
                assert(t@ =~= symbols_of(self));
                numeric(&t, n)
            },
            NumberingKind::Symbol => {
                let t: [char; 6] = ['*', '\u{2020}', '\u{2021}', '\u{A7}', '\u{B6}', '\u{2016}'];
                assert(t@ =~= symbols_of(self));
                symbolic(&t, n)
            },
        }
    }
}

} // verus!
