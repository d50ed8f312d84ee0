//! Script tags and the classifier used when the shaper cannot name a run's script.
use vstd::prelude::*;

verus! {

/// The shaper's "no script" value.
pub const SCRIPT_INVALID: u32 = 0x00000000;

// Scripts as the shaper names them: ISO 15924 codes packed big-endian.
pub const SCRIPT_ARABIC: u32 = 0x41726162;
pub const SCRIPT_SYRIAC: u32 = 0x53797263;
pub const SCRIPT_MEROITIC_CURSIVE: u32 = 0x4D657263;
pub const SCRIPT_MEROITIC_HIEROGLYPHS: u32 = 0x4D65726F;
pub const SCRIPT_ADLAM: u32 = 0x41646C6D;
pub const SCRIPT_AHOM: u32 = 0x41686F6D;
pub const SCRIPT_ANATOLIAN_HIEROGLYPHS: u32 = 0x486C7577;
pub const SCRIPT_ARMENIAN: u32 = 0x41726D6E;
pub const SCRIPT_AVESTAN: u32 = 0x41767374;
pub const SCRIPT_BALINESE: u32 = 0x42616C69;
pub const SCRIPT_BAMUM: u32 = 0x42616D75;
pub const SCRIPT_BASSA_VAH: u32 = 0x42617373;
pub const SCRIPT_BATAK: u32 = 0x4261746B;
pub const SCRIPT_BENGALI: u32 = 0x42656E67;
pub const SCRIPT_BHAIKSUKI: u32 = 0x42686B73;
pub const SCRIPT_BRAHMI: u32 = 0x42726168;
pub const SCRIPT_BUGINESE: u32 = 0x42756769;
pub const SCRIPT_BUHID: u32 = 0x42756864;
pub const SCRIPT_CANADIAN_SYLLABICS: u32 = 0x43616E73;
pub const SCRIPT_CARIAN: u32 = 0x43617269;
pub const SCRIPT_CHAKMA: u32 = 0x43616B6D;
pub const SCRIPT_CHAM: u32 = 0x4368616D;
pub const SCRIPT_CHEROKEE: u32 = 0x43686572;
pub const SCRIPT_COPTIC: u32 = 0x436F7074;
pub const SCRIPT_CUNEIFORM: u32 = 0x58737578;
pub const SCRIPT_CYPRIOT: u32 = 0x43707274;
pub const SCRIPT_DESERET: u32 = 0x44737274;
pub const SCRIPT_DEVANAGARI: u32 = 0x44657661;
pub const SCRIPT_EGYPTIAN_HIEROGLYPHS: u32 = 0x45677970;
pub const SCRIPT_ELBASAN: u32 = 0x456C6261;
pub const SCRIPT_ETHIOPIC: u32 = 0x45746869;
pub const SCRIPT_GEORGIAN: u32 = 0x47656F72;
pub const SCRIPT_GLAGOLITIC: u32 = 0x476C6167;
pub const SCRIPT_GOTHIC: u32 = 0x476F7468;
pub const SCRIPT_GUJARATI: u32 = 0x47756A72;
pub const SCRIPT_GURMUKHI: u32 = 0x47757275;
pub const SCRIPT_HANUNOO: u32 = 0x48616E6F;
pub const SCRIPT_HATRAN: u32 = 0x48617472;
pub const SCRIPT_HEBREW: u32 = 0x48656272;
pub const SCRIPT_IMPERIAL_ARAMAIC: u32 = 0x41726D69;
pub const SCRIPT_INSCRIPTIONAL_PAHLAVI: u32 = 0x50686C69;
pub const SCRIPT_INSCRIPTIONAL_PARTHIAN: u32 = 0x50727469;
pub const SCRIPT_JAVANESE: u32 = 0x4A617661;
pub const SCRIPT_KAITHI: u32 = 0x4B746869;
pub const SCRIPT_KANNADA: u32 = 0x4B6E6461;
pub const SCRIPT_KAYAH_LI: u32 = 0x4B616C69;
pub const SCRIPT_KHAROSHTHI: u32 = 0x4B686172;
pub const SCRIPT_KHMER: u32 = 0x4B686D72;
pub const SCRIPT_LAO: u32 = 0x4C616F6F;
pub const SCRIPT_LEPCHA: u32 = 0x4C657063;
pub const SCRIPT_LIMBU: u32 = 0x4C696D62;
pub const SCRIPT_LINEAR_A: u32 = 0x4C696E61;
pub const SCRIPT_LINEAR_B: u32 = 0x4C696E62;
pub const SCRIPT_LISU: u32 = 0x4C697375;
pub const SCRIPT_LYCIAN: u32 = 0x4C796369;
pub const SCRIPT_LYDIAN: u32 = 0x4C796469;
pub const SCRIPT_MALAYALAM: u32 = 0x4D6C796D;
pub const SCRIPT_MANDAIC: u32 = 0x4D616E64;
pub const SCRIPT_MANICHAEAN: u32 = 0x4D616E69;
pub const SCRIPT_MARCHEN: u32 = 0x4D617263;
pub const SCRIPT_MEETEI_MAYEK: u32 = 0x4D746569;
pub const SCRIPT_MENDE_KIKAKUI: u32 = 0x4D656E64;
pub const SCRIPT_MIAO: u32 = 0x506C7264;
pub const SCRIPT_MONGOLIAN: u32 = 0x4D6F6E67;
pub const SCRIPT_MRO: u32 = 0x4D726F6F;
pub const SCRIPT_MULTANI: u32 = 0x4D756C74;
pub const SCRIPT_MYANMAR: u32 = 0x4D796D72;
pub const SCRIPT_NABATAEAN: u32 = 0x4E626174;
pub const SCRIPT_NEWA: u32 = 0x4E657761;
pub const SCRIPT_NEW_TAI_LUE: u32 = 0x54616C75;
pub const SCRIPT_NKO: u32 = 0x4E6B6F6F;
pub const SCRIPT_OGHAM: u32 = 0x4F67616D;
pub const SCRIPT_OLD_ITALIC: u32 = 0x4974616C;
pub const SCRIPT_OLD_NORTH_ARABIAN: u32 = 0x4E617262;
pub const SCRIPT_OLD_PERMIC: u32 = 0x5065726D;
pub const SCRIPT_OLD_PERSIAN: u32 = 0x5870656F;
pub const SCRIPT_OLD_SOUTH_ARABIAN: u32 = 0x53617262;
pub const SCRIPT_OLD_TURKIC: u32 = 0x4F726B68;
pub const SCRIPT_OL_CHIKI: u32 = 0x4F6C636B;
pub const SCRIPT_ORIYA: u32 = 0x4F727961;
pub const SCRIPT_OSAGE: u32 = 0x4F736765;
pub const SCRIPT_OSMANYA: u32 = 0x4F736D61;
pub const SCRIPT_PAHAWH_HMONG: u32 = 0x486D6E67;
pub const SCRIPT_PALMYRENE: u32 = 0x50616C6D;
pub const SCRIPT_PAU_CIN_HAU: u32 = 0x50617563;
pub const SCRIPT_PHAGS_PA: u32 = 0x50686167;
pub const SCRIPT_PHOENICIAN: u32 = 0x50686E78;
pub const SCRIPT_REJANG: u32 = 0x526A6E67;
pub const SCRIPT_RUNIC: u32 = 0x52756E72;
pub const SCRIPT_SAMARITAN: u32 = 0x53616D72;
pub const SCRIPT_SAURASHTRA: u32 = 0x53617572;
pub const SCRIPT_SHARADA: u32 = 0x53687264;
pub const SCRIPT_SHAVIAN: u32 = 0x53686177;
pub const SCRIPT_SINHALA: u32 = 0x53696E68;
pub const SCRIPT_SORA_SOMPENG: u32 = 0x536F7261;
pub const SCRIPT_SUNDANESE: u32 = 0x53756E64;
pub const SCRIPT_SYLOTI_NAGRI: u32 = 0x53796C6F;
pub const SCRIPT_TAGALOG: u32 = 0x54676C67;
pub const SCRIPT_TAGBANWA: u32 = 0x54616762;
pub const SCRIPT_TAI_LE: u32 = 0x54616C65;
pub const SCRIPT_TAI_THAM: u32 = 0x4C616E61;
pub const SCRIPT_TAI_VIET: u32 = 0x54617674;
pub const SCRIPT_TAMIL: u32 = 0x54616D6C;
pub const SCRIPT_TELUGU: u32 = 0x54656C75;
pub const SCRIPT_THAANA: u32 = 0x54686161;
pub const SCRIPT_THAI: u32 = 0x54686169;
pub const SCRIPT_TIBETAN: u32 = 0x54696274;
pub const SCRIPT_TIFINAGH: u32 = 0x54666E67;
pub const SCRIPT_UGARITIC: u32 = 0x55676172;
pub const SCRIPT_VAI: u32 = 0x56616969;
pub const SCRIPT_YI: u32 = 0x59696969;
pub const SCRIPT_BRAILLE: u32 = 0x42726169;
pub const SCRIPT_HANGUL: u32 = 0x48616E67;
pub const SCRIPT_HIRAGANA: u32 = 0x48697261;
pub const SCRIPT_KATAKANA: u32 = 0x4B616E61;
pub const SCRIPT_BOPOMOFO: u32 = 0x426F706F;
pub const SCRIPT_HAN: u32 = 0x48616E69;
pub const SCRIPT_LATIN: u32 = 0x4C61746E;
pub const SCRIPT_COMMON: u32 = 0x5A797979;
pub const SCRIPT_UNKNOWN: u32 = 0x5A7A7A7A;

// Symbol classes that the shaper never reports; they only select a fallback face.
pub const SYMBOL_ARROW: u32 = 0x59617277;
pub const SYMBOL_TECHNICAL: u32 = 0x59746563;
pub const SYMBOL_GEOMETRIC: u32 = 0x5967656F;
pub const SYMBOL_DINGBAT: u32 = 0x5964696E;
pub const SYMBOL_EMOTICON: u32 = 0x59656D6F;
pub const SYMBOL_GAME_CHESS: u32 = 0x59636873;
pub const SYMBOL_GAME_DOMINO: u32 = 0x59646F6D;
pub const SYMBOL_GAME_PLAYING_CARD: u32 = 0x59637264;
pub const SYMBOL_GRAPHIC_FORM: u32 = 0x59676678;
pub const PUNCTUATION_BRACKET_CJK: u32 = 0x5962726B;

/// A four-byte tag, first byte most significant.
pub open spec fn tag_value(c1: u8, c2: u8, c3: u8, c4: u8) -> int {
    c1 as int * 0x1000000 + c2 as int * 0x10000 + c3 as int * 0x100 + c4 as int
}

/// Packs four bytes into a big-endian tag.
pub fn tag(c1: u8, c2: u8, c3: u8, c4: u8) -> (r: u32)
    ensures
        r as int == tag_value(c1, c2, c3, c4),
{
    let r: u32 = ((c1 as u32) << 24) | ((c2 as u32) << 16) | ((c3 as u32) << 8) | c4 as u32;
    assert(r == (c1 as u32) * 0x1000000u32 + (c2 as u32) * 0x10000u32 + (c3 as u32) * 0x100u32
        + (c4 as u32)) by (bit_vector)
        requires
            r == ((c1 as u32) << 24) | ((c2 as u32) << 16) | ((c3 as u32) << 8) | c4 as u32,
            c1 < 256,
            c2 < 256,
            c3 < 256,
            c4 < 256,
    ;
    r
}

pub open spec fn is_arrow(c: u32) -> bool {
    (0x2190 <= c <= 0x21FF) || (0x2B00 <= c <= 0x2B0D) || (0x2B4D <= c <= 0x2B4F)
        || (0x2B5A <= c <= 0x2B73) || (0x2B76 <= c <= 0x2B95) || (0x2B98 <= c <= 0x2BB9)
        || (0x2BEC <= c <= 0x2BEF) || (0x2900 <= c <= 0x297F)
}

pub open spec fn is_technical(c: u32) -> bool {
    c == 0x2318 || c == 0x231A || c == 0x231B || c == 0x232B || (0x2324 <= c <= 0x2328)
        || c == 0x2394 || c == 0x23CE || c == 0x23CF || c == 0x23E9 || c == 0x23EA
        || (0x23ED <= c <= 0x23EF) || (0x23F1 <= c <= 0x23FE) || (0x2BBD <= c <= 0x2BBF)
}

pub open spec fn is_geometric(c: u32) -> bool {
    (0x25A0 <= c <= 0x25EF) || (0x25F8 <= c <= 0x25FF) || (0x26AA <= c <= 0x26AC)
        || (0x2B12 <= c <= 0x2B2F) || (0x2B53 <= c <= 0x2B54) || (0x2BC0 <= c <= 0x2BD1)
}

pub open spec fn is_dingbat(c: u32) -> bool {
    (0x2722 <= c <= 0x274B) || c == 0x274D || c == 0x274F || (0x2750 <= c <= 0x2753)
        || (0x2756 <= c <= 0x2775) || c == 0x2794 || (0x2798 <= c <= 0x27AF)
        || (0x27B1 <= c <= 0x27BE)
}

pub open spec fn is_cjk_bracket(c: u32) -> bool {
    (0x3008 <= c <= 0x3011) || (0x3014 <= c <= 0x301B) || (0xFF5F <= c <= 0xFF60)
        || (0xFF62 <= c <= 0xFF63)
}

/// The symbol class of a code point, in the order the ranges are tried.
pub open spec fn script_of_code(c: u32) -> u32 {
    if is_arrow(c) {
        SYMBOL_ARROW
    } else if is_technical(c) {
        SYMBOL_TECHNICAL
    } else if 0x2654 <= c <= 0x265F {
        SYMBOL_GAME_CHESS
    } else if 0x1F030 <= c <= 0x1F093 {
        SYMBOL_GAME_DOMINO
    } else if 0x1F0A0 <= c <= 0x1F0F5 {
        SYMBOL_GAME_PLAYING_CARD
    } else if 0x2500 <= c <= 0x257F {
        SYMBOL_GRAPHIC_FORM
    } else if is_geometric(c) {
        SYMBOL_GEOMETRIC
    } else if is_dingbat(c) {
        SYMBOL_DINGBAT
    } else if is_cjk_bracket(c) {
        PUNCTUATION_BRACKET_CJK
    } else if 0x1F600 <= c <= 0x1F64F {
        SYMBOL_EMOTICON
    } else {
        SCRIPT_UNKNOWN
    }
}

/// Classifies a code point into one of the symbol classes, or `SCRIPT_UNKNOWN`.
pub fn script_from_code(code: u32) -> (r: u32)
    ensures
        r == script_of_code(code),
{
    match code {
        0x2190..=0x21FF | 0x2B00..=0x2B0D | 0x2B4D..=0x2B4F | 0x2B5A..=0x2B73
        | 0x2B76..=0x2B95 | 0x2B98..=0x2BB9 | 0x2BEC..=0x2BEF | 0x2900..=0x297F => SYMBOL_ARROW,
        0x2318 | 0x231A | 0x231B | 0x232B | 0x2324..=0x2328 | 0x2394 | 0x23CE | 0x23CF | 0x23E9
        | 0x23EA | 0x23ED..=0x23EF | 0x23F1..=0x23FE | 0x2BBD..=0x2BBF => SYMBOL_TECHNICAL,
        0x2654..=0x265F => SYMBOL_GAME_CHESS,
        0x1F030..=0x1F093 => SYMBOL_GAME_DOMINO,
        0x1F0A0..=0x1F0F5 => SYMBOL_GAME_PLAYING_CARD,
        0x2500..=0x257F => SYMBOL_GRAPHIC_FORM,
        0x25A0..=0x25EF | 0x25F8..=0x25FF | 0x26AA..=0x26AC | 0x2B12..=0x2B2F | 0x2B53..=0x2B54
        | 0x2BC0..=0x2BD1 => SYMBOL_GEOMETRIC,
        0x2722..=0x274B | 0x274D | 0x274F | 0x2750..=0x2753 | 0x2756..=0x2775 | 0x2794
        | 0x2798..=0x27AF | 0x27B1..=0x27BE => SYMBOL_DINGBAT,
        0x3008..=0x3011 | 0x3014..=0x301B | 0xFF5F..=0xFF60 | 0xFF62..=0xFF63 => PUNCTUATION_BRACKET_CJK,
        0x1F600..=0x1F64F => SYMBOL_EMOTICON,
        _ => SCRIPT_UNKNOWN,
    }
}

/// The script a fallback run is shaped under: the shaper's guess, unless it
/// could not decide, in which case the first character of the run is classified.
pub open spec fn run_script(guess: u32, first: Option<char>) -> u32 {
    if guess == SCRIPT_INVALID || guess == SCRIPT_UNKNOWN {
        match first {
            Some(c) => script_of_code(c as u32),
            None => guess,
        }
    } else {
        guess
    }
}

/// Picks the script of a fallback run from the shaper's guess and the run's first character.
pub fn choose_script(guess: u32, first: Option<char>) -> (r: u32)
    ensures
        r == run_script(guess, first),
{
    if guess == SCRIPT_INVALID || guess == SCRIPT_UNKNOWN {
        match first {
            Some(c) => script_from_code(c as u32),
            None => guess,
        }
    } else {
        guess
    }
}

} // verus!
