//! The embedded faces that stand in for the primary face, one per script.
use vstd::prelude::*;
use crate::script::{
    PUNCTUATION_BRACKET_CJK,
    SCRIPT_ADLAM,
    SCRIPT_AHOM,
    SCRIPT_ANATOLIAN_HIEROGLYPHS,
    SCRIPT_ARABIC,
    SCRIPT_ARMENIAN,
    SCRIPT_AVESTAN,
    SCRIPT_BALINESE,
    SCRIPT_BAMUM,
    SCRIPT_BASSA_VAH,
    SCRIPT_BATAK,
    SCRIPT_BENGALI,
    SCRIPT_BHAIKSUKI,
    SCRIPT_BOPOMOFO,
    SCRIPT_BRAHMI,
    SCRIPT_BRAILLE,
    SCRIPT_BUGINESE,
    SCRIPT_BUHID,
    SCRIPT_CANADIAN_SYLLABICS,
    SCRIPT_CARIAN,
    SCRIPT_CHAKMA,
    SCRIPT_CHAM,
    SCRIPT_CHEROKEE,
    SCRIPT_COPTIC,
    SCRIPT_CUNEIFORM,
    SCRIPT_CYPRIOT,
    SCRIPT_DESERET,
    SCRIPT_DEVANAGARI,
    SCRIPT_EGYPTIAN_HIEROGLYPHS,
    SCRIPT_ELBASAN,
    SCRIPT_ETHIOPIC,
    SCRIPT_GEORGIAN,
    SCRIPT_GLAGOLITIC,
    SCRIPT_GOTHIC,
    SCRIPT_GUJARATI,
    SCRIPT_GURMUKHI,
    SCRIPT_HAN,
    SCRIPT_HANGUL,
    SCRIPT_HANUNOO,
    SCRIPT_HATRAN,
    SCRIPT_HEBREW,
    SCRIPT_HIRAGANA,
    SCRIPT_IMPERIAL_ARAMAIC,
    SCRIPT_INSCRIPTIONAL_PAHLAVI,
    SCRIPT_INSCRIPTIONAL_PARTHIAN,
    SCRIPT_JAVANESE,
    SCRIPT_KAITHI,
    SCRIPT_KANNADA,
    SCRIPT_KATAKANA,
    SCRIPT_KAYAH_LI,
    SCRIPT_KHAROSHTHI,
    SCRIPT_KHMER,
    SCRIPT_LAO,
    SCRIPT_LEPCHA,
    SCRIPT_LIMBU,
    SCRIPT_LINEAR_A,
    SCRIPT_LINEAR_B,
    SCRIPT_LISU,
    SCRIPT_LYCIAN,
    SCRIPT_LYDIAN,
    SCRIPT_MALAYALAM,
    SCRIPT_MANDAIC,
    SCRIPT_MANICHAEAN,
    SCRIPT_MARCHEN,
    SCRIPT_MEETEI_MAYEK,
    SCRIPT_MENDE_KIKAKUI,
    SCRIPT_MEROITIC_CURSIVE,
    SCRIPT_MEROITIC_HIEROGLYPHS,
    SCRIPT_MIAO,
    SCRIPT_MONGOLIAN,
    SCRIPT_MRO,
    SCRIPT_MULTANI,
    SCRIPT_MYANMAR,
    SCRIPT_NABATAEAN,
    SCRIPT_NEWA,
    SCRIPT_NEW_TAI_LUE,
    SCRIPT_NKO,
    SCRIPT_OGHAM,
    SCRIPT_OLD_ITALIC,
    SCRIPT_OLD_NORTH_ARABIAN,
    SCRIPT_OLD_PERMIC,
    SCRIPT_OLD_PERSIAN,
    SCRIPT_OLD_SOUTH_ARABIAN,
    SCRIPT_OLD_TURKIC,
    SCRIPT_OL_CHIKI,
    SCRIPT_ORIYA,
    SCRIPT_OSAGE,
    SCRIPT_OSMANYA,
    SCRIPT_PAHAWH_HMONG,
    SCRIPT_PALMYRENE,
    SCRIPT_PAU_CIN_HAU,
    SCRIPT_PHAGS_PA,
    SCRIPT_PHOENICIAN,
    SCRIPT_REJANG,
    SCRIPT_RUNIC,
    SCRIPT_SAMARITAN,
    SCRIPT_SAURASHTRA,
    SCRIPT_SHARADA,
    SCRIPT_SHAVIAN,
    SCRIPT_SINHALA,
    SCRIPT_SORA_SOMPENG,
    SCRIPT_SUNDANESE,
    SCRIPT_SYLOTI_NAGRI,
    SCRIPT_SYRIAC,
    SCRIPT_TAGALOG,
    SCRIPT_TAGBANWA,
    SCRIPT_TAI_LE,
    SCRIPT_TAI_THAM,
    SCRIPT_TAI_VIET,
    SCRIPT_TAMIL,
    SCRIPT_TELUGU,
    SCRIPT_THAANA,
    SCRIPT_THAI,
    SCRIPT_TIBETAN,
    SCRIPT_TIFINAGH,
    SCRIPT_UGARITIC,
    SCRIPT_VAI,
    SCRIPT_YI,
    SYMBOL_ARROW,
    SYMBOL_DINGBAT,
    SYMBOL_EMOTICON,
    SYMBOL_GAME_CHESS,
    SYMBOL_GAME_DOMINO,
    SYMBOL_GAME_PLAYING_CARD,
    SYMBOL_GEOMETRIC,
    SYMBOL_GRAPHIC_FORM,
    SYMBOL_TECHNICAL,
};

verus! {

/// An embedded fallback face.
#[derive(Debug, Clone, Copy, PartialEq, Eq, Structural)]
pub enum FallbackFont {
    DroidSansFallback,
    NotoNaskhArabic,
    NotoSansSyriacWestern,
    NotoSansMeroitic,
    NotoSansAdlam,
    NotoSansAhom,
    NotoSansAnatolianHieroglyphs,
    NotoSerifArmenian,
    NotoSansAvestan,
    NotoSerifBalinese,
    NotoSansBamum,
    NotoSansBassaVah,
    NotoSansBatak,
    NotoSansBengali,
    NotoSansBhaiksuki,
    NotoSansBrahmi,
    NotoSansBuginese,
    NotoSansBuhid,
    NotoSansCanadianAboriginal,
    NotoSansCarian,
    NotoSansChakma,
    NotoSansCham,
    NotoSansCherokee,
    NotoSansCoptic,
    NotoSansCuneiform,
    NotoSansCypriot,
    NotoSansDeseret,
    NotoSansDevanagari,
    NotoSansEgyptianHieroglyphs,
    NotoSansElbasan,
    NotoSerifEthiopic,
    NotoSerifGeorgian,
    NotoSansGlagolitic,
    NotoSansGothic,
    NotoSerifGujarati,
    NotoSerifGurmukhi,
    NotoSansHanunoo,
    NotoSansHatran,
    NotoSerifHebrew,
    NotoSansImperialAramaic,
    NotoSansInscriptionalPahlavi,
    NotoSansInscriptionalParthian,
    NotoSansJavanese,
    NotoSansKaithi,
    NotoSerifKannada,
    NotoSansKayahLi,
    NotoSansKharoshthi,
    NotoSerifKhmer,
    NotoSerifLao,
    NotoSansLepcha,
    NotoSansLimbu,
    NotoSansLinearA,
    NotoSansLinearB,
    NotoSansLisu,
    NotoSansLycian,
    NotoSansLydian,
    NotoSansMalayalam,
    NotoSansMandaic,
    NotoSansManichaean,
    NotoSansMarchen,
    NotoSansMeeteiMayek,
    NotoSansMendeKikakui,
    NotoSansMiao,
    NotoSansMongolian,
    NotoSansMro,
    NotoSansMultani,
    NotoSerifMyanmar,
    NotoSansNabataean,
    NotoSansNewa,
    NotoSansNewTaiLue,
    NotoSansNKo,
    NotoSansOgham,
    NotoSansOldItalic,
    NotoSansOldNorthArabian,
    NotoSansOldPermic,
    NotoSansOldPersian,
    NotoSansOldSouthArabian,
    NotoSansOldTurkic,
    NotoSansOlChiki,
    NotoSansOriya,
    NotoSansOsage,
    NotoSansOsmanya,
    NotoSansPahawhHmong,
    NotoSansPalmyrene,
    NotoSansPauCinHau,
    NotoSansPhagsPa,
    NotoSansPhoenician,
    NotoSansRejang,
    NotoSansRunic,
    NotoSansSamaritan,
    NotoSansSaurashtra,
    NotoSansSharada,
    NotoSansShavian,
    NotoSerifSinhala,
    NotoSansSoraSompeng,
    NotoSansSundanese,
    NotoSansSylotiNagri,
    NotoSansTagalog,
    NotoSansTagbanwa,
    NotoSansTaiLe,
    NotoSansTaiTham,
    NotoSansTaiViet,
    NotoSerifTamil,
    NotoSerifTelugu,
    NotoSansThaana,
    NotoSerifThai,
    NotoSansTibetan,
    NotoSansTifinagh,
    NotoSansUgaritic,
    NotoSansVai,
    NotoSansYi,
    NotoSansSymbols2,
    NotoEmoji,
    NotoSansSymbols,
}

/// The face that covers a script: a pan-CJK face for Han, Kana, Hangul and
/// Bopomofo, a face per script for the others listed, symbol faces for the
/// symbol classes, and the general symbols face for anything else.
pub open spec fn fallback_font_of(script: u32) -> FallbackFont {
    match script {
        SCRIPT_HANGUL | SCRIPT_HIRAGANA | SCRIPT_KATAKANA | SCRIPT_BOPOMOFO | SCRIPT_HAN => FallbackFont::DroidSansFallback,
        SCRIPT_ARABIC => FallbackFont::NotoNaskhArabic,
        SCRIPT_SYRIAC => FallbackFont::NotoSansSyriacWestern,
        SCRIPT_MEROITIC_CURSIVE | SCRIPT_MEROITIC_HIEROGLYPHS => FallbackFont::NotoSansMeroitic,
        SCRIPT_ADLAM => FallbackFont::NotoSansAdlam,
        SCRIPT_AHOM => FallbackFont::NotoSansAhom,
        SCRIPT_ANATOLIAN_HIEROGLYPHS => FallbackFont::NotoSansAnatolianHieroglyphs,
        SCRIPT_ARMENIAN => FallbackFont::NotoSerifArmenian,
        SCRIPT_AVESTAN => FallbackFont::NotoSansAvestan,
        SCRIPT_BALINESE => FallbackFont::NotoSerifBalinese,
        SCRIPT_BAMUM => FallbackFont::NotoSansBamum,
        SCRIPT_BASSA_VAH => FallbackFont::NotoSansBassaVah,
        SCRIPT_BATAK => FallbackFont::NotoSansBatak,
        SCRIPT_BENGALI => FallbackFont::NotoSansBengali,
        SCRIPT_BHAIKSUKI => FallbackFont::NotoSansBhaiksuki,
        SCRIPT_BRAHMI => FallbackFont::NotoSansBrahmi,
        SCRIPT_BUGINESE => FallbackFont::NotoSansBuginese,
        SCRIPT_BUHID => FallbackFont::NotoSansBuhid,
        SCRIPT_CANADIAN_SYLLABICS => FallbackFont::NotoSansCanadianAboriginal,
        SCRIPT_CARIAN => FallbackFont::NotoSansCarian,
        SCRIPT_CHAKMA => FallbackFont::NotoSansChakma,
        SCRIPT_CHAM => FallbackFont::NotoSansCham,
        SCRIPT_CHEROKEE => FallbackFont::NotoSansCherokee,
        SCRIPT_COPTIC => FallbackFont::NotoSansCoptic,
        SCRIPT_CUNEIFORM => FallbackFont::NotoSansCuneiform,
        SCRIPT_CYPRIOT => FallbackFont::NotoSansCypriot,
        SCRIPT_DESERET => FallbackFont::NotoSansDeseret,
        SCRIPT_DEVANAGARI => FallbackFont::NotoSansDevanagari,
        SCRIPT_EGYPTIAN_HIEROGLYPHS => FallbackFont::NotoSansEgyptianHieroglyphs,
        SCRIPT_ELBASAN => FallbackFont::NotoSansElbasan,
        SCRIPT_ETHIOPIC => FallbackFont::NotoSerifEthiopic,
        SCRIPT_GEORGIAN => FallbackFont::NotoSerifGeorgian,
        SCRIPT_GLAGOLITIC => FallbackFont::NotoSansGlagolitic,
        SCRIPT_GOTHIC => FallbackFont::NotoSansGothic,
        SCRIPT_GUJARATI => FallbackFont::NotoSerifGujarati,
        SCRIPT_GURMUKHI => FallbackFont::NotoSerifGurmukhi,
        SCRIPT_HANUNOO => FallbackFont::NotoSansHanunoo,
        SCRIPT_HATRAN => FallbackFont::NotoSansHatran,
        SCRIPT_HEBREW => FallbackFont::NotoSerifHebrew,
        SCRIPT_IMPERIAL_ARAMAIC => FallbackFont::NotoSansImperialAramaic,
        SCRIPT_INSCRIPTIONAL_PAHLAVI => FallbackFont::NotoSansInscriptionalPahlavi,
        SCRIPT_INSCRIPTIONAL_PARTHIAN => FallbackFont::NotoSansInscriptionalParthian,
        SCRIPT_JAVANESE => FallbackFont::NotoSansJavanese,
        SCRIPT_KAITHI => FallbackFont::NotoSansKaithi,
        SCRIPT_KANNADA => FallbackFont::NotoSerifKannada,
        SCRIPT_KAYAH_LI => FallbackFont::NotoSansKayahLi,
        SCRIPT_KHAROSHTHI => FallbackFont::NotoSansKharoshthi,
        SCRIPT_KHMER => FallbackFont::NotoSerifKhmer,
        SCRIPT_LAO => FallbackFont::NotoSerifLao,
        SCRIPT_LEPCHA => FallbackFont::NotoSansLepcha,
        SCRIPT_LIMBU => FallbackFont::NotoSansLimbu,
        SCRIPT_LINEAR_A => FallbackFont::NotoSansLinearA,
        SCRIPT_LINEAR_B => FallbackFont::NotoSansLinearB,
        SCRIPT_LISU => FallbackFont::NotoSansLisu,
        SCRIPT_LYCIAN => FallbackFont::NotoSansLycian,
        SCRIPT_LYDIAN => FallbackFont::NotoSansLydian,
        SCRIPT_MALAYALAM => FallbackFont::NotoSansMalayalam,
        SCRIPT_MANDAIC => FallbackFont::NotoSansMandaic,
        SCRIPT_MANICHAEAN => FallbackFont::NotoSansManichaean,
        SCRIPT_MARCHEN => FallbackFont::NotoSansMarchen,
        SCRIPT_MEETEI_MAYEK => FallbackFont::NotoSansMeeteiMayek,
        SCRIPT_MENDE_KIKAKUI => FallbackFont::NotoSansMendeKikakui,
        SCRIPT_MIAO => FallbackFont::NotoSansMiao,
        SCRIPT_MONGOLIAN => FallbackFont::NotoSansMongolian,
        SCRIPT_MRO => FallbackFont::NotoSansMro,
        SCRIPT_MULTANI => FallbackFont::NotoSansMultani,
        SCRIPT_MYANMAR => FallbackFont::NotoSerifMyanmar,
        SCRIPT_NABATAEAN => FallbackFont::NotoSansNabataean,
        SCRIPT_NEWA => FallbackFont::NotoSansNewa,
        SCRIPT_NEW_TAI_LUE => FallbackFont::NotoSansNewTaiLue,
        SCRIPT_NKO => FallbackFont::NotoSansNKo,
        SCRIPT_OGHAM => FallbackFont::NotoSansOgham,
        SCRIPT_OLD_ITALIC => FallbackFont::NotoSansOldItalic,
        SCRIPT_OLD_NORTH_ARABIAN => FallbackFont::NotoSansOldNorthArabian,
        SCRIPT_OLD_PERMIC => FallbackFont::NotoSansOldPermic,
        SCRIPT_OLD_PERSIAN => FallbackFont::NotoSansOldPersian,
        SCRIPT_OLD_SOUTH_ARABIAN => FallbackFont::NotoSansOldSouthArabian,
        SCRIPT_OLD_TURKIC => FallbackFont::NotoSansOldTurkic,
        SCRIPT_OL_CHIKI => FallbackFont::NotoSansOlChiki,
        SCRIPT_ORIYA => FallbackFont::NotoSansOriya,
        SCRIPT_OSAGE => FallbackFont::NotoSansOsage,
        SCRIPT_OSMANYA => FallbackFont::NotoSansOsmanya,
        SCRIPT_PAHAWH_HMONG => FallbackFont::NotoSansPahawhHmong,
        SCRIPT_PALMYRENE => FallbackFont::NotoSansPalmyrene,
        SCRIPT_PAU_CIN_HAU => FallbackFont::NotoSansPauCinHau,
        SCRIPT_PHAGS_PA => FallbackFont::NotoSansPhagsPa,
        SCRIPT_PHOENICIAN => FallbackFont::NotoSansPhoenician,
        SCRIPT_REJANG => FallbackFont::NotoSansRejang,
        SCRIPT_RUNIC => FallbackFont::NotoSansRunic,
        SCRIPT_SAMARITAN => FallbackFont::NotoSansSamaritan,
        SCRIPT_SAURASHTRA => FallbackFont::NotoSansSaurashtra,
        SCRIPT_SHARADA => FallbackFont::NotoSansSharada,
        SCRIPT_SHAVIAN => FallbackFont::NotoSansShavian,
        SCRIPT_SINHALA => FallbackFont::NotoSerifSinhala,
        SCRIPT_SORA_SOMPENG => FallbackFont::NotoSansSoraSompeng,
        SCRIPT_SUNDANESE => FallbackFont::NotoSansSundanese,
        SCRIPT_SYLOTI_NAGRI => FallbackFont::NotoSansSylotiNagri,
        SCRIPT_TAGALOG => FallbackFont::NotoSansTagalog,
        SCRIPT_TAGBANWA => FallbackFont::NotoSansTagbanwa,
        SCRIPT_TAI_LE => FallbackFont::NotoSansTaiLe,
        SCRIPT_TAI_THAM => FallbackFont::NotoSansTaiTham,
        SCRIPT_TAI_VIET => FallbackFont::NotoSansTaiViet,
        SCRIPT_TAMIL => FallbackFont::NotoSerifTamil,
        SCRIPT_TELUGU => FallbackFont::NotoSerifTelugu,
        SCRIPT_THAANA => FallbackFont::NotoSansThaana,
        SCRIPT_THAI => FallbackFont::NotoSerifThai,
        SCRIPT_TIBETAN => FallbackFont::NotoSansTibetan,
        SCRIPT_TIFINAGH => FallbackFont::NotoSansTifinagh,
        SCRIPT_UGARITIC => FallbackFont::NotoSansUgaritic,
        SCRIPT_VAI => FallbackFont::NotoSansVai,
        SCRIPT_YI => FallbackFont::NotoSansYi,
        SCRIPT_BRAILLE | SYMBOL_GEOMETRIC | SYMBOL_ARROW | SYMBOL_TECHNICAL | SYMBOL_DINGBAT
        | SYMBOL_GAME_CHESS | SYMBOL_GAME_DOMINO | SYMBOL_GAME_PLAYING_CARD => FallbackFont::NotoSansSymbols2,
        SYMBOL_EMOTICON => FallbackFont::NotoEmoji,
        SYMBOL_GRAPHIC_FORM | PUNCTUATION_BRACKET_CJK => FallbackFont::DroidSansFallback,
        _ => FallbackFont::NotoSansSymbols,
    }
}

/// Looks up the embedded face for a script.
pub fn font_data_from_script(script: u32) -> (r: FallbackFont)
    ensures
        r == fallback_font_of(script),
{
    match script {
        SCRIPT_HANGUL | SCRIPT_HIRAGANA | SCRIPT_KATAKANA | SCRIPT_BOPOMOFO | SCRIPT_HAN => FallbackFont::DroidSansFallback,
        SCRIPT_ARABIC => FallbackFont::NotoNaskhArabic,
        SCRIPT_SYRIAC => FallbackFont::NotoSansSyriacWestern,
        SCRIPT_MEROITIC_CURSIVE | SCRIPT_MEROITIC_HIEROGLYPHS => FallbackFont::NotoSansMeroitic,
        SCRIPT_ADLAM => FallbackFont::NotoSansAdlam,
        SCRIPT_AHOM => FallbackFont::NotoSansAhom,
        SCRIPT_ANATOLIAN_HIEROGLYPHS => FallbackFont::NotoSansAnatolianHieroglyphs,
        SCRIPT_ARMENIAN => FallbackFont::NotoSerifArmenian,
        SCRIPT_AVESTAN => FallbackFont::NotoSansAvestan,
        SCRIPT_BALINESE => FallbackFont::NotoSerifBalinese,
        SCRIPT_BAMUM => FallbackFont::NotoSansBamum,
        SCRIPT_BASSA_VAH => FallbackFont::NotoSansBassaVah,
        SCRIPT_BATAK => FallbackFont::NotoSansBatak,
        SCRIPT_BENGALI => FallbackFont::NotoSansBengali,
        SCRIPT_BHAIKSUKI => FallbackFont::NotoSansBhaiksuki,
        SCRIPT_BRAHMI => FallbackFont::NotoSansBrahmi,
        SCRIPT_BUGINESE => FallbackFont::NotoSansBuginese,
        SCRIPT_BUHID => FallbackFont::NotoSansBuhid,
        SCRIPT_CANADIAN_SYLLABICS => FallbackFont::NotoSansCanadianAboriginal,
        SCRIPT_CARIAN => FallbackFont::NotoSansCarian,
        SCRIPT_CHAKMA => FallbackFont::NotoSansChakma,
        SCRIPT_CHAM => FallbackFont::NotoSansCham,
        SCRIPT_CHEROKEE => FallbackFont::NotoSansCherokee,
        SCRIPT_COPTIC => FallbackFont::NotoSansCoptic,
        SCRIPT_CUNEIFORM => FallbackFont::NotoSansCuneiform,
        SCRIPT_CYPRIOT => FallbackFont::NotoSansCypriot,
        SCRIPT_DESERET => FallbackFont::NotoSansDeseret,
        SCRIPT_DEVANAGARI => FallbackFont::NotoSansDevanagari,
        SCRIPT_EGYPTIAN_HIEROGLYPHS => FallbackFont::NotoSansEgyptianHieroglyphs,
        SCRIPT_ELBASAN => FallbackFont::NotoSansElbasan,
        SCRIPT_ETHIOPIC => FallbackFont::NotoSerifEthiopic,
        SCRIPT_GEORGIAN => FallbackFont::NotoSerifGeorgian,
        SCRIPT_GLAGOLITIC => FallbackFont::NotoSansGlagolitic,
        SCRIPT_GOTHIC => FallbackFont::NotoSansGothic,
        SCRIPT_GUJARATI => FallbackFont::NotoSerifGujarati,
        SCRIPT_GURMUKHI => FallbackFont::NotoSerifGurmukhi,
        SCRIPT_HANUNOO => FallbackFont::NotoSansHanunoo,
        SCRIPT_HATRAN => FallbackFont::NotoSansHatran,
        SCRIPT_HEBREW => FallbackFont::NotoSerifHebrew,
        SCRIPT_IMPERIAL_ARAMAIC => FallbackFont::NotoSansImperialAramaic,
        SCRIPT_INSCRIPTIONAL_PAHLAVI => FallbackFont::NotoSansInscriptionalPahlavi,
        SCRIPT_INSCRIPTIONAL_PARTHIAN => FallbackFont::NotoSansInscriptionalParthian,
        SCRIPT_JAVANESE => FallbackFont::NotoSansJavanese,
        SCRIPT_KAITHI => FallbackFont::NotoSansKaithi,
        SCRIPT_KANNADA => FallbackFont::NotoSerifKannada,
        SCRIPT_KAYAH_LI => FallbackFont::NotoSansKayahLi,
        SCRIPT_KHAROSHTHI => FallbackFont::NotoSansKharoshthi,
        SCRIPT_KHMER => FallbackFont::NotoSerifKhmer,
        SCRIPT_LAO => FallbackFont::NotoSerifLao,
        SCRIPT_LEPCHA => FallbackFont::NotoSansLepcha,
        SCRIPT_LIMBU => FallbackFont::NotoSansLimbu,
        SCRIPT_LINEAR_A => FallbackFont::NotoSansLinearA,
        SCRIPT_LINEAR_B => FallbackFont::NotoSansLinearB,
        SCRIPT_LISU => FallbackFont::NotoSansLisu,
        SCRIPT_LYCIAN => FallbackFont::NotoSansLycian,
        SCRIPT_LYDIAN => FallbackFont::NotoSansLydian,
        SCRIPT_MALAYALAM => FallbackFont::NotoSansMalayalam,
        SCRIPT_MANDAIC => FallbackFont::NotoSansMandaic,
        SCRIPT_MANICHAEAN => FallbackFont::NotoSansManichaean,
        SCRIPT_MARCHEN => FallbackFont::NotoSansMarchen,
        SCRIPT_MEETEI_MAYEK => FallbackFont::NotoSansMeeteiMayek,
        SCRIPT_MENDE_KIKAKUI => FallbackFont::NotoSansMendeKikakui,
        SCRIPT_MIAO => FallbackFont::NotoSansMiao,
        SCRIPT_MONGOLIAN => FallbackFont::NotoSansMongolian,
        SCRIPT_MRO => FallbackFont::NotoSansMro,
        SCRIPT_MULTANI => FallbackFont::NotoSansMultani,
        SCRIPT_MYANMAR => FallbackFont::NotoSerifMyanmar,
        SCRIPT_NABATAEAN => FallbackFont::NotoSansNabataean,
        SCRIPT_NEWA => FallbackFont::NotoSansNewa,
        SCRIPT_NEW_TAI_LUE => FallbackFont::NotoSansNewTaiLue,
        SCRIPT_NKO => FallbackFont::NotoSansNKo,
        SCRIPT_OGHAM => FallbackFont::NotoSansOgham,
        SCRIPT_OLD_ITALIC => FallbackFont::NotoSansOldItalic,
        SCRIPT_OLD_NORTH_ARABIAN => FallbackFont::NotoSansOldNorthArabian,
        SCRIPT_OLD_PERMIC => FallbackFont::NotoSansOldPermic,
        SCRIPT_OLD_PERSIAN => FallbackFont::NotoSansOldPersian,
        SCRIPT_OLD_SOUTH_ARABIAN => FallbackFont::NotoSansOldSouthArabian,
        SCRIPT_OLD_TURKIC => FallbackFont::NotoSansOldTurkic,
        SCRIPT_OL_CHIKI => FallbackFont::NotoSansOlChiki,
        SCRIPT_ORIYA => FallbackFont::NotoSansOriya,
        SCRIPT_OSAGE => FallbackFont::NotoSansOsage,
        SCRIPT_OSMANYA => FallbackFont::NotoSansOsmanya,
        SCRIPT_PAHAWH_HMONG => FallbackFont::NotoSansPahawhHmong,
        SCRIPT_PALMYRENE => FallbackFont::NotoSansPalmyrene,
        SCRIPT_PAU_CIN_HAU => FallbackFont::NotoSansPauCinHau,
        SCRIPT_PHAGS_PA => FallbackFont::NotoSansPhagsPa,
        SCRIPT_PHOENICIAN => FallbackFont::NotoSansPhoenician,
        SCRIPT_REJANG => FallbackFont::NotoSansRejang,
        SCRIPT_RUNIC => FallbackFont::NotoSansRunic,
        SCRIPT_SAMARITAN => FallbackFont::NotoSansSamaritan,
        SCRIPT_SAURASHTRA => FallbackFont::NotoSansSaurashtra,
        SCRIPT_SHARADA => FallbackFont::NotoSansSharada,
        SCRIPT_SHAVIAN => FallbackFont::NotoSansShavian,
        SCRIPT_SINHALA => FallbackFont::NotoSerifSinhala,
        SCRIPT_SORA_SOMPENG => FallbackFont::NotoSansSoraSompeng,
        SCRIPT_SUNDANESE => FallbackFont::NotoSansSundanese,
        SCRIPT_SYLOTI_NAGRI => FallbackFont::NotoSansSylotiNagri,
        SCRIPT_TAGALOG => FallbackFont::NotoSansTagalog,
        SCRIPT_TAGBANWA => FallbackFont::NotoSansTagbanwa,
        SCRIPT_TAI_LE => FallbackFont::NotoSansTaiLe,
        SCRIPT_TAI_THAM => FallbackFont::NotoSansTaiTham,
        SCRIPT_TAI_VIET => FallbackFont::NotoSansTaiViet,
        SCRIPT_TAMIL => FallbackFont::NotoSerifTamil,
        SCRIPT_TELUGU => FallbackFont::NotoSerifTelugu,
        SCRIPT_THAANA => FallbackFont::NotoSansThaana,
        SCRIPT_THAI => FallbackFont::NotoSerifThai,
        SCRIPT_TIBETAN => FallbackFont::NotoSansTibetan,
        SCRIPT_TIFINAGH => FallbackFont::NotoSansTifinagh,
        SCRIPT_UGARITIC => FallbackFont::NotoSansUgaritic,
        SCRIPT_VAI => FallbackFont::NotoSansVai,
        SCRIPT_YI => FallbackFont::NotoSansYi,
        SCRIPT_BRAILLE | SYMBOL_GEOMETRIC | SYMBOL_ARROW | SYMBOL_TECHNICAL | SYMBOL_DINGBAT
        | SYMBOL_GAME_CHESS | SYMBOL_GAME_DOMINO | SYMBOL_GAME_PLAYING_CARD => FallbackFont::NotoSansSymbols2,
        SYMBOL_EMOTICON => FallbackFont::NotoEmoji,
        SYMBOL_GRAPHIC_FORM | PUNCTUATION_BRACKET_CJK => FallbackFont::DroidSansFallback,
        _ => FallbackFont::NotoSansSymbols,
    }
}

} // verus!
