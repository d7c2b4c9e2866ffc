//! The table of supported language codes: for each language its
//! bibliographic three-letter code, its two-letter code and, where it has
//! one, its terminological three-letter code.
use vstd::prelude::*;

verus! {

/// A language, by its ISO 639-2 code.
#[derive(Clone, Copy, Debug, PartialEq, Eq, Hash, Structural)]
pub enum LangCode {
    /// Undetermined
    Und,
    /// Afar
    Aar,
    /// Abkhazian
    Abk,
    /// Afrikaans
    Afr,
    /// Akan
    Aka,
    /// Albanian
    Alb,
    /// Amharic
    Amh,
    /// Arabic
    Ara,
    /// Aragonese
    Arg,
    /// Armenian
    Arm,
    /// Assamese
    Asm,
    /// Avaric
    Ava,
    /// Avestan
    Ave,
    /// Aymara
    Aym,
    /// Azerbaijani
    Aze,
    /// Bashkir
    Bak,
    /// Bambara
    Bam,
    /// Basque
    Baq,
    /// Belarusian
    Bel,
    /// Bengali
    Ben,
    /// Bislama
    Bis,
    /// Bosnian
    Bos,
    /// Breton
    Bre,
    /// Bulgarian
    Bul,
    /// Burmese
    Bur,
    /// Catalan
    Cat,
    /// Chamorro
    Cha,
    /// Chechen
    Che,
    /// Chinese
    Chi,
    /// Church Slavic
    Chu,
    /// Chuvash
    Chv,
    /// Cornish
    Cor,
    /// Corsican
    Cos,
    /// Cree
    Cre,
    /// Czech
    Cze,
    /// Danish
    Dan,
    /// Dhivehi
    Div,
    /// Dutch
    Dut,
    /// Dzongkha
    Dzo,
    /// English
    Eng,
    /// Esperanto
    Epo,
    /// Estonian
    Est,
    /// Ewe
    Ewe,
    /// Faroese
    Fao,
    /// Fijian
    Fij,
    /// Finnish
    Fin,
    /// French
    Fre,
    /// Western Frisian
    Fry,
    /// Fulah
    Ful,
    /// Georgian
    Geo,
    /// German
    Ger,
    /// Scottish Gaelic
    Gla,
    /// Irish
    Gle,
    /// Galician
    Glg,
    /// Manx
    Glv,
    /// Greek (modern, 1453-)
    Gre,
    /// Guarani
    Grn,
    /// Gujarati
    Guj,
    /// Haitian
    Hat,
    /// Hausa
    Hau,
    /// Serbo-Croatian
    Hbs,
    /// Hebrew
    Heb,
    /// Herero
    Her,
    /// Hindi
    Hin,
    /// Hiri Motu
    Hmo,
    /// Croatian
    Hrv,
    /// Hungarian
    Hun,
    /// Igbo
    Ibo,
    /// Icelandic
    Ice,
    /// Ido
    Ido,
    /// Sichuan Yi
    Iii,
    /// Inuktitut
    Iku,
    /// Interlingue
    Ile,
    /// Interlingua (IALA)
    Ina,
    /// Indonesian
    Ind,
    /// Inupiaq
    Ipk,
    /// Italian
    Ita,
    /// Javanese
    Jav,
    /// Japanese
    Jpn,
    /// Kalaallisut
    Kal,
    /// Kannada
    Kan,
    /// Kashmiri
    Kas,
    /// Kanuri
    Kau,
    /// Kazakh
    Kaz,
    /// Khmer
    Khm,
    /// Kikuyu
    Kik,
    /// Kinyarwanda
    Kin,
    /// Kirghiz
    Kir,
    /// Komi
    Kom,
    /// Kongo
    Kon,
    /// Korean
    Kor,
    /// Kuanyama
    Kua,
    /// Kurdish
    Kur,
    /// Lao
    Lao,
    /// Latin
    Lat,
    /// Latvian
    Lav,
    /// Limburgan
    Lim,
    /// Lingala
    Lin,
    /// Lithuanian
    Lit,
    /// Luxembourgish
    Ltz,
    /// Luba-Katanga
    Lub,
    /// Ganda
    Lug,
    /// Macedonian
    Mac,
    /// Marshallese
    Mah,
    /// Malayalam
    Mal,
    /// Maori
    Mao,
    /// Marathi
    Mar,
    /// Malay (macrolanguage)
    May,
    /// Malagasy
    Mlg,
    /// Maltese
    Mlt,
    /// Mongolian
    Mon,
    /// Nauru
    Nau,
    /// Navajo
    Nav,
    /// South Ndebele
    Nbl,
    /// North Ndebele
    Nde,
    /// Ndonga
    Ndo,
    /// Nepali (macrolanguage)
    Nep,
    /// Norwegian Nynorsk
    Nno,
    /// Norwegian Bokmål
    Nob,
    /// Norwegian
    Nor,
    /// Nyanja
    Nya,
    /// Occitan (post 1500)
    Oci,
    /// Ojibwa
    Oji,
    /// Oriya (macrolanguage)
    Ori,
    /// Oromo
    Orm,
    /// Ossetian
    Oss,
    /// Panjabi
    Pan,
    /// Persian
    Per,
    /// Pali
    Pli,
    /// Polish
    Pol,
    /// Portuguese
    Por,
    /// Pushto
    Pus,
    /// Quechua
    Que,
    /// Romansh
    Roh,
    /// Romanian
    Rum,
    /// Rundi
    Run,
    /// Russian
    Rus,
    /// Sango
    Sag,
    /// Sanskrit
    San,
    /// Sinhala
    Sin,
    /// Slovak
    Slo,
    /// Slovenian
    Slv,
    /// Northern Sami
    Sme,
    /// Samoan
    Smo,
    /// Shona
    Sna,
    /// Sindhi
    Snd,
    /// Somali
    Som,
    /// Southern Sotho
    Sot,
    /// Spanish
    Spa,
    /// Sardinian
    Srd,
    /// Serbian
    Srp,
    /// Swati
    Ssw,
    /// Sundanese
    Sun,
    /// Swahili (macrolanguage)
    Swa,
    /// Swedish
    Swe,
    /// Tahitian
    Tah,
    /// Tamil
    Tam,
    /// Tatar
    Tat,
    /// Telugu
    Tel,
    /// Tajik
    Tgk,
    /// Tagalog
    Tgl,
    /// Thai
    Tha,
    /// Tibetan
    Tib,
    /// Tigrinya
    Tir,
    /// Tonga (Tonga Islands)
    Ton,
    /// Tswana
    Tsn,
    /// Tsonga
    Tso,
    /// Turkmen
    Tuk,
    /// Turkish
    Tur,
    /// Twi
    Twi,
    /// Uighur
    Uig,
    /// Ukrainian
    Ukr,
    /// Urdu
    Urd,
    /// Uzbek
    Uzb,
    /// Venda
    Ven,
    /// Vietnamese
    Vie,
    /// Volapük
    Vol,
    /// Welsh
    Wel,
    /// Walloon
    Wln,
    /// Wolof
    Wol,
    /// Xhosa
    Xho,
    /// Yiddish
    Yid,
    /// Yoruba
    Yor,
    /// Zhuang
    Zha,
    /// Zulu
    Zul,
}

/// The three-letter code of a language, as written when it is displayed.
pub open spec fn spec_code_chars(c: LangCode) -> (char, char, char) {
    match c {
            LangCode::Und => ('u', 'n', 'd'),
            LangCode::Aar => ('a', 'a', 'r'),
            LangCode::Abk => ('a', 'b', 'k'),
            LangCode::Afr => ('a', 'f', 'r'),
            LangCode::Aka => ('a', 'k', 'a'),
            LangCode::Alb => ('a', 'l', 'b'),
            LangCode::Amh => ('a', 'm', 'h'),
            LangCode::Ara => ('a', 'r', 'a'),
            LangCode::Arg => ('a', 'r', 'g'),
            LangCode::Arm => ('a', 'r', 'm'),
            LangCode::Asm => ('a', 's', 'm'),
            LangCode::Ava => ('a', 'v', 'a'),
            LangCode::Ave => ('a', 'v', 'e'),
            LangCode::Aym => ('a', 'y', 'm'),
            LangCode::Aze => ('a', 'z', 'e'),
            LangCode::Bak => ('b', 'a', 'k'),
            LangCode::Bam => ('b', 'a', 'm'),
            LangCode::Baq => ('b', 'a', 'q'),
            LangCode::Bel => ('b', 'e', 'l'),
            LangCode::Ben => ('b', 'e', 'n'),
            LangCode::Bis => ('b', 'i', 's'),
            LangCode::Bos => ('b', 'o', 's'),
            LangCode::Bre => ('b', 'r', 'e'),
            LangCode::Bul => ('b', 'u', 'l'),
            LangCode::Bur => ('b', 'u', 'r'),
            LangCode::Cat => ('c', 'a', 't'),
            LangCode::Cha => ('c', 'h', 'a'),
            LangCode::Che => ('c', 'h', 'e'),
            LangCode::Chi => ('c', 'h', 'i'),
            LangCode::Chu => ('c', 'h', 'u'),
            LangCode::Chv => ('c', 'h', 'v'),
            LangCode::Cor => ('c', 'o', 'r'),
            LangCode::Cos => ('c', 'o', 's'),
            LangCode::Cre => ('c', 'r', 'e'),
            LangCode::Cze => ('c', 'z', 'e'),
            LangCode::Dan => ('d', 'a', 'n'),
            LangCode::Div => ('d', 'i', 'v'),
            LangCode::Dut => ('d', 'u', 't'),
            LangCode::Dzo => ('d', 'z', 'o'),
            LangCode::Eng => ('e', 'n', 'g'),
            LangCode::Epo => ('e', 'p', 'o'),
            LangCode::Est => ('e', 's', 't'),
            LangCode::Ewe => ('e', 'w', 'e'),
            LangCode::Fao => ('f', 'a', 'o'),
            LangCode::Fij => ('f', 'i', 'j'),
            LangCode::Fin => ('f', 'i', 'n'),
            LangCode::Fre => ('f', 'r', 'e'),
            LangCode::Fry => ('f', 'r', 'y'),
            LangCode::Ful => ('f', 'u', 'l'),
            LangCode::Geo => ('g', 'e', 'o'),
            LangCode::Ger => ('g', 'e', 'r'),
            LangCode::Gla => ('g', 'l', 'a'),
            LangCode::Gle => ('g', 'l', 'e'),
            LangCode::Glg => ('g', 'l', 'g'),
            LangCode::Glv => ('g', 'l', 'v'),
            LangCode::Gre => ('g', 'r', 'e'),
            LangCode::Grn => ('g', 'r', 'n'),
            LangCode::Guj => ('g', 'u', 'j'),
            LangCode::Hat => ('h', 'a', 't'),
            LangCode::Hau => ('h', 'a', 'u'),
            LangCode::Hbs => ('h', 'b', 's'),
            LangCode::Heb => ('h', 'e', 'b'),
            LangCode::Her => ('h', 'e', 'r'),
            LangCode::Hin => ('h', 'i', 'n'),
            LangCode::Hmo => ('h', 'm', 'o'),
            LangCode::Hrv => ('h', 'r', 'v'),
            LangCode::Hun => ('h', 'u', 'n'),
            LangCode::Ibo => ('i', 'b', 'o'),
            LangCode::Ice => ('i', 'c', 'e'),
            LangCode::Ido => ('i', 'd', 'o'),
            LangCode::Iii => ('i', 'i', 'i'),
            LangCode::Iku => ('i', 'k', 'u'),
            LangCode::Ile => ('i', 'l', 'e'),
            LangCode::Ina => ('i', 'n', 'a'),
            LangCode::Ind => ('i', 'n', 'd'),
            LangCode::Ipk => ('i', 'p', 'k'),
            LangCode::Ita => ('i', 't', 'a'),
            LangCode::Jav => ('j', 'a', 'v'),
            LangCode::Jpn => ('j', 'p', 'n'),
            LangCode::Kal => ('k', 'a', 'l'),
            LangCode::Kan => ('k', 'a', 'n'),
            LangCode::Kas => ('k', 'a', 's'),
            LangCode::Kau => ('k', 'a', 'u'),
            LangCode::Kaz => ('k', 'a', 'z'),
            LangCode::Khm => ('k', 'h', 'm'),
            LangCode::Kik => ('k', 'i', 'k'),
            LangCode::Kin => ('k', 'i', 'n'),
            LangCode::Kir => ('k', 'i', 'r'),
            LangCode::Kom => ('k', 'o', 'm'),
            LangCode::Kon => ('k', 'o', 'n'),
            LangCode::Kor => ('k', 'o', 'r'),
            LangCode::Kua => ('k', 'u', 'a'),
            LangCode::Kur => ('k', 'u', 'r'),
            LangCode::Lao => ('l', 'a', 'o'),
            LangCode::Lat => ('l', 'a', 't'),
            LangCode::Lav => ('l', 'a', 'v'),
            LangCode::Lim => ('l', 'i', 'm'),
            LangCode::Lin => ('l', 'i', 'n'),
            LangCode::Lit => ('l', 'i', 't'),
            LangCode::Ltz => ('l', 't', 'z'),
            LangCode::Lub => ('l', 'u', 'b'),
            LangCode::Lug => ('l', 'u', 'g'),
            LangCode::Mac => ('m', 'a', 'c'),
            LangCode::Mah => ('m', 'a', 'h'),
            LangCode::Mal => ('m', 'a', 'l'),
            LangCode::Mao => ('m', 'a', 'o'),
            LangCode::Mar => ('m', 'a', 'r'),
            LangCode::May => ('m', 'a', 'y'),
            LangCode::Mlg => ('m', 'l', 'g'),
            LangCode::Mlt => ('m', 'l', 't'),
            LangCode::Mon => ('m', 'o', 'n'),
            LangCode::Nau => ('n', 'a', 'u'),
            LangCode::Nav => ('n', 'a', 'v'),
            LangCode::Nbl => ('n', 'b', 'l'),
            LangCode::Nde => ('n', 'd', 'e'),
            LangCode::Ndo => ('n', 'd', 'o'),
            LangCode::Nep => ('n', 'e', 'p'),
            LangCode::Nno => ('n', 'n', 'o'),
            LangCode::Nob => ('n', 'o', 'b'),
            LangCode::Nor => ('n', 'o', 'r'),
            LangCode::Nya => ('n', 'y', 'a'),
            LangCode::Oci => ('o', 'c', 'i'),
            LangCode::Oji => ('o', 'j', 'i'),
            LangCode::Ori => ('o', 'r', 'i'),
            LangCode::Orm => ('o', 'r', 'm'),
            LangCode::Oss => ('o', 's', 's'),
            LangCode::Pan => ('p', 'a', 'n'),
            LangCode::Per => ('p', 'e', 'r'),
            LangCode::Pli => ('p', 'l', 'i'),
            LangCode::Pol => ('p', 'o', 'l'),
            LangCode::Por => ('p', 'o', 'r'),
            LangCode::Pus => ('p', 'u', 's'),
            LangCode::Que => ('q', 'u', 'e'),
            LangCode::Roh => ('r', 'o', 'h'),
            LangCode::Rum => ('r', 'u', 'm'),
            LangCode::Run => ('r', 'u', 'n'),
            LangCode::Rus => ('r', 'u', 's'),
            LangCode::Sag => ('s', 'a', 'g'),
            LangCode::San => ('s', 'a', 'n'),
            LangCode::Sin => ('s', 'i', 'n'),
            LangCode::Slo => ('s', 'l', 'o'),
            LangCode::Slv => ('s', 'l', 'v'),
            LangCode::Sme => ('s', 'm', 'e'),
            LangCode::Smo => ('s', 'm', 'o'),
            LangCode::Sna => ('s', 'n', 'a'),
            LangCode::Snd => ('s', 'n', 'd'),
            LangCode::Som => ('s', 'o', 'm'),
            LangCode::Sot => ('s', 'o', 't'),
            LangCode::Spa => ('s', 'p', 'a'),
            LangCode::Srd => ('s', 'r', 'd'),
            LangCode::Srp => ('s', 'r', 'p'),
            LangCode::Ssw => ('s', 's', 'w'),
            LangCode::Sun => ('s', 'u', 'n'),
            LangCode::Swa => ('s', 'w', 'a'),
            LangCode::Swe => ('s', 'w', 'e'),
            LangCode::Tah => ('t', 'a', 'h'),
            LangCode::Tam => ('t', 'a', 'm'),
            LangCode::Tat => ('t', 'a', 't'),
            LangCode::Tel => ('t', 'e', 'l'),
            LangCode::Tgk => ('t', 'g', 'k'),
            LangCode::Tgl => ('t', 'g', 'l'),
            LangCode::Tha => ('t', 'h', 'a'),
            LangCode::Tib => ('t', 'i', 'b'),
            LangCode::Tir => ('t', 'i', 'r'),
            LangCode::Ton => ('t', 'o', 'n'),
            LangCode::Tsn => ('t', 's', 'n'),
            LangCode::Tso => ('t', 's', 'o'),
            LangCode::Tuk => ('t', 'u', 'k'),
            LangCode::Tur => ('t', 'u', 'r'),
            LangCode::Twi => ('t', 'w', 'i'),
            LangCode::Uig => ('u', 'i', 'g'),
            LangCode::Ukr => ('u', 'k', 'r'),
            LangCode::Urd => ('u', 'r', 'd'),
            LangCode::Uzb => ('u', 'z', 'b'),
            LangCode::Ven => ('v', 'e', 'n'),
            LangCode::Vie => ('v', 'i', 'e'),
            LangCode::Vol => ('v', 'o', 'l'),
            LangCode::Wel => ('w', 'e', 'l'),
            LangCode::Wln => ('w', 'l', 'n'),
            LangCode::Wol => ('w', 'o', 'l'),
            LangCode::Xho => ('x', 'h', 'o'),
            LangCode::Yid => ('y', 'i', 'd'),
            LangCode::Yor => ('y', 'o', 'r'),
            LangCode::Zha => ('z', 'h', 'a'),
            LangCode::Zul => ('z', 'u', 'l'),
    }
}

/// The language whose two-letter code is `ab` (in lowercase).
pub open spec fn spec_code_of_duo(a: char, b: char) -> Option<LangCode> {
    match (a, b) {
        ('a', 'a') => Some(LangCode::Aar),
        ('a', 'b') => Some(LangCode::Abk),
        ('a', 'f') => Some(LangCode::Afr),
        ('a', 'k') => Some(LangCode::Aka),
        ('s', 'q') => Some(LangCode::Alb),
        ('a', 'm') => Some(LangCode::Amh),
        ('a', 'r') => Some(LangCode::Ara),
        ('a', 'n') => Some(LangCode::Arg),
        ('h', 'y') => Some(LangCode::Arm),
        ('a', 's') => Some(LangCode::Asm),
        ('a', 'v') => Some(LangCode::Ava),
        ('a', 'e') => Some(LangCode::Ave),
        ('a', 'y') => Some(LangCode::Aym),
        ('a', 'z') => Some(LangCode::Aze),
        ('b', 'a') => Some(LangCode::Bak),
        ('b', 'm') => Some(LangCode::Bam),
        ('e', 'u') => Some(LangCode::Baq),
        ('b', 'e') => Some(LangCode::Bel),
        ('b', 'n') => Some(LangCode::Ben),
        ('b', 'i') => Some(LangCode::Bis),
        ('b', 's') => Some(LangCode::Bos),
        ('b', 'r') => Some(LangCode::Bre),
        ('b', 'g') => Some(LangCode::Bul),
        ('m', 'y') => Some(LangCode::Bur),
        ('c', 'a') => Some(LangCode::Cat),
        ('c', 'h') => Some(LangCode::Cha),
        ('c', 'e') => Some(LangCode::Che),
        ('z', 'h') => Some(LangCode::Chi),
        ('c', 'u') => Some(LangCode::Chu),
        ('c', 'v') => Some(LangCode::Chv),
        ('k', 'w') => Some(LangCode::Cor),
        ('c', 'o') => Some(LangCode::Cos),
        ('c', 'r') => Some(LangCode::Cre),
        ('c', 's') => Some(LangCode::Cze),
        ('d', 'a') => Some(LangCode::Dan),
        ('d', 'v') => Some(LangCode::Div),
        ('n', 'l') => Some(LangCode::Dut),
        ('d', 'z') => Some(LangCode::Dzo),
        ('e', 'n') => Some(LangCode::Eng),
        ('e', 'o') => Some(LangCode::Epo),
        ('e', 't') => Some(LangCode::Est),
        ('e', 'e') => Some(LangCode::Ewe),
        ('f', 'o') => Some(LangCode::Fao),
        ('f', 'j') => Some(LangCode::Fij),
        ('f', 'i') => Some(LangCode::Fin),
        ('f', 'r') => Some(LangCode::Fre),
        ('f', 'y') => Some(LangCode::Fry),
        ('f', 'f') => Some(LangCode::Ful),
        ('k', 'a') => Some(LangCode::Geo),
        ('d', 'e') => Some(LangCode::Ger),
        ('g', 'd') => Some(LangCode::Gla),
        ('g', 'a') => Some(LangCode::Gle),
        ('g', 'l') => Some(LangCode::Glg),
        ('g', 'v') => Some(LangCode::Glv),
        ('e', 'l') => Some(LangCode::Gre),
        ('g', 'n') => Some(LangCode::Grn),
        ('g', 'u') => Some(LangCode::Guj),
        ('h', 't') => Some(LangCode::Hat),
        ('h', 'a') => Some(LangCode::Hau),
        ('s', 'h') => Some(LangCode::Hbs),
        ('h', 'e') => Some(LangCode::Heb),
        ('h', 'z') => Some(LangCode::Her),
        ('h', 'i') => Some(LangCode::Hin),
        ('h', 'o') => Some(LangCode::Hmo),
        ('h', 'r') => Some(LangCode::Hrv),
        ('h', 'u') => Some(LangCode::Hun),
        ('i', 'g') => Some(LangCode::Ibo),
        ('i', 's') => Some(LangCode::Ice),
        ('i', 'o') => Some(LangCode::Ido),
        ('i', 'i') => Some(LangCode::Iii),
        ('i', 'u') => Some(LangCode::Iku),
        ('i', 'e') => Some(LangCode::Ile),
        ('i', 'a') => Some(LangCode::Ina),
        ('i', 'd') => Some(LangCode::Ind),
        ('i', 'k') => Some(LangCode::Ipk),
        ('i', 't') => Some(LangCode::Ita),
        ('j', 'v') => Some(LangCode::Jav),
        ('j', 'a') => Some(LangCode::Jpn),
        ('k', 'l') => Some(LangCode::Kal),
        ('k', 'n') => Some(LangCode::Kan),
        ('k', 's') => Some(LangCode::Kas),
        ('k', 'r') => Some(LangCode::Kau),
        ('k', 'k') => Some(LangCode::Kaz),
        ('k', 'm') => Some(LangCode::Khm),
        ('k', 'i') => Some(LangCode::Kik),
        ('r', 'w') => Some(LangCode::Kin),
        ('k', 'y') => Some(LangCode::Kir),
        ('k', 'v') => Some(LangCode::Kom),
        ('k', 'g') => Some(LangCode::Kon),
        ('k', 'o') => Some(LangCode::Kor),
        ('k', 'j') => Some(LangCode::Kua),
        ('k', 'u') => Some(LangCode::Kur),
        ('l', 'o') => Some(LangCode::Lao),
        ('l', 'a') => Some(LangCode::Lat),
        ('l', 'v') => Some(LangCode::Lav),
        ('l', 'i') => Some(LangCode::Lim),
        ('l', 'n') => Some(LangCode::Lin),
        ('l', 't') => Some(LangCode::Lit),
        ('l', 'b') => Some(LangCode::Ltz),
        ('l', 'u') => Some(LangCode::Lub),
        ('l', 'g') => Some(LangCode::Lug),
        ('m', 'k') => Some(LangCode::Mac),
        ('m', 'h') => Some(LangCode::Mah),
        ('m', 'l') => Some(LangCode::Mal),
        ('m', 'i') => Some(LangCode::Mao),
        ('m', 'r') => Some(LangCode::Mar),
        ('m', 's') => Some(LangCode::May),
        ('m', 'g') => Some(LangCode::Mlg),
        ('m', 't') => Some(LangCode::Mlt),
        ('m', 'n') => Some(LangCode::Mon),
        ('n', 'a') => Some(LangCode::Nau),
        ('n', 'v') => Some(LangCode::Nav),
        ('n', 'r') => Some(LangCode::Nbl),
        ('n', 'd') => Some(LangCode::Nde),
        ('n', 'g') => Some(LangCode::Ndo),
        ('n', 'e') => Some(LangCode::Nep),
        ('n', 'n') => Some(LangCode::Nno),
        ('n', 'b') => Some(LangCode::Nob),
        ('n', 'o') => Some(LangCode::Nor),
        ('n', 'y') => Some(LangCode::Nya),
        ('o', 'c') => Some(LangCode::Oci),
        ('o', 'j') => Some(LangCode::Oji),
        ('o', 'r') => Some(LangCode::Ori),
        ('o', 'm') => Some(LangCode::Orm),
        ('o', 's') => Some(LangCode::Oss),
        ('p', 'a') => Some(LangCode::Pan),
        ('f', 'a') => Some(LangCode::Per),
        ('p', 'i') => Some(LangCode::Pli),
        ('p', 'l') => Some(LangCode::Pol),
        ('p', 't') => Some(LangCode::Por),
        ('p', 's') => Some(LangCode::Pus),
        ('q', 'u') => Some(LangCode::Que),
        ('r', 'm') => Some(LangCode::Roh),
        ('r', 'o') => Some(LangCode::Rum),
        ('r', 'n') => Some(LangCode::Run),
        ('r', 'u') => Some(LangCode::Rus),
        ('s', 'g') => Some(LangCode::Sag),
        ('s', 'a') => Some(LangCode::San),
        ('s', 'i') => Some(LangCode::Sin),
        ('s', 'k') => Some(LangCode::Slo),
        ('s', 'l') => Some(LangCode::Slv),
        ('s', 'e') => Some(LangCode::Sme),
        ('s', 'm') => Some(LangCode::Smo),
        ('s', 'n') => Some(LangCode::Sna),
        ('s', 'd') => Some(LangCode::Snd),
        ('s', 'o') => Some(LangCode::Som),
        ('s', 't') => Some(LangCode::Sot),
        ('e', 's') => Some(LangCode::Spa),
        ('s', 'c') => Some(LangCode::Srd),
        ('s', 'r') => Some(LangCode::Srp),
        ('s', 's') => Some(LangCode::Ssw),
        ('s', 'u') => Some(LangCode::Sun),
        ('s', 'w') => Some(LangCode::Swa),
        ('s', 'v') => Some(LangCode::Swe),
        ('t', 'y') => Some(LangCode::Tah),
        ('t', 'a') => Some(LangCode::Tam),
        ('t', 't') => Some(LangCode::Tat),
        ('t', 'e') => Some(LangCode::Tel),
        ('t', 'g') => Some(LangCode::Tgk),
        ('t', 'l') => Some(LangCode::Tgl),
        ('t', 'h') => Some(LangCode::Tha),
        ('b', 'o') => Some(LangCode::Tib),
        ('t', 'i') => Some(LangCode::Tir),
        ('t', 'o') => Some(LangCode::Ton),
        ('t', 'n') => Some(LangCode::Tsn),
        ('t', 's') => Some(LangCode::Tso),
        ('t', 'k') => Some(LangCode::Tuk),
        ('t', 'r') => Some(LangCode::Tur),
        ('t', 'w') => Some(LangCode::Twi),
        ('u', 'g') => Some(LangCode::Uig),
        ('u', 'k') => Some(LangCode::Ukr),
        ('u', 'r') => Some(LangCode::Urd),
        ('u', 'z') => Some(LangCode::Uzb),
        ('v', 'e') => Some(LangCode::Ven),
        ('v', 'i') => Some(LangCode::Vie),
        ('v', 'o') => Some(LangCode::Vol),
        ('c', 'y') => Some(LangCode::Wel),
        ('w', 'a') => Some(LangCode::Wln),
        ('w', 'o') => Some(LangCode::Wol),
        ('x', 'h') => Some(LangCode::Xho),
        ('y', 'i') => Some(LangCode::Yid),
        ('y', 'o') => Some(LangCode::Yor),
        ('z', 'a') => Some(LangCode::Zha),
        ('z', 'u') => Some(LangCode::Zul),
        _ => None,
    }
}

/// The language whose three-letter code is `abc` (in lowercase).
pub open spec fn spec_code_of_triple(a: char, b: char, c: char) -> Option<LangCode> {
    match (a, b, c) {
        ('u', 'n', 'd') => Some(LangCode::Und),
        ('a', 'a', 'r') => Some(LangCode::Aar),
        ('a', 'b', 'k') => Some(LangCode::Abk),
        ('a', 'f', 'r') => Some(LangCode::Afr),
        ('a', 'k', 'a') => Some(LangCode::Aka),
        ('a', 'l', 'b') | ('s', 'q', 'i') => Some(LangCode::Alb),
        ('a', 'm', 'h') => Some(LangCode::Amh),
        ('a', 'r', 'a') => Some(LangCode::Ara),
        ('a', 'r', 'g') => Some(LangCode::Arg),
        ('a', 'r', 'm') | ('h', 'y', 'e') => Some(LangCode::Arm),
        ('a', 's', 'm') => Some(LangCode::Asm),
        ('a', 'v', 'a') => Some(LangCode::Ava),
        ('a', 'v', 'e') => Some(LangCode::Ave),
        ('a', 'y', 'm') => Some(LangCode::Aym),
        ('a', 'z', 'e') => Some(LangCode::Aze),
        ('b', 'a', 'k') => Some(LangCode::Bak),
        ('b', 'a', 'm') => Some(LangCode::Bam),
        ('b', 'a', 'q') | ('e', 'u', 's') => Some(LangCode::Baq),
        ('b', 'e', 'l') => Some(LangCode::Bel),
        ('b', 'e', 'n') => Some(LangCode::Ben),
        ('b', 'i', 's') => Some(LangCode::Bis),
        ('b', 'o', 's') => Some(LangCode::Bos),
        ('b', 'r', 'e') => Some(LangCode::Bre),
        ('b', 'u', 'l') => Some(LangCode::Bul),
        ('b', 'u', 'r') | ('m', 'y', 'a') => Some(LangCode::Bur),
        ('c', 'a', 't') => Some(LangCode::Cat),
        ('c', 'h', 'a') => Some(LangCode::Cha),
        ('c', 'h', 'e') => Some(LangCode::Che),
        ('c', 'h', 'i') | ('z', 'h', 'o') => Some(LangCode::Chi),
        ('c', 'h', 'u') => Some(LangCode::Chu),
        ('c', 'h', 'v') => Some(LangCode::Chv),
        ('c', 'o', 'r') => Some(LangCode::Cor),
        ('c', 'o', 's') => Some(LangCode::Cos),
        ('c', 'r', 'e') => Some(LangCode::Cre),
        ('c', 'z', 'e') | ('c', 'e', 's') => Some(LangCode::Cze),
        ('d', 'a', 'n') => Some(LangCode::Dan),
        ('d', 'i', 'v') => Some(LangCode::Div),
        ('d', 'u', 't') | ('n', 'l', 'd') => Some(LangCode::Dut),
        ('d', 'z', 'o') => Some(LangCode::Dzo),
        ('e', 'n', 'g') => Some(LangCode::Eng),
        ('e', 'p', 'o') => Some(LangCode::Epo),
        ('e', 's', 't') => Some(LangCode::Est),
        ('e', 'w', 'e') => Some(LangCode::Ewe),
        ('f', 'a', 'o') => Some(LangCode::Fao),
        ('f', 'i', 'j') => Some(LangCode::Fij),
        ('f', 'i', 'n') => Some(LangCode::Fin),
        ('f', 'r', 'e') | ('f', 'r', 'a') => Some(LangCode::Fre),
        ('f', 'r', 'y') => Some(LangCode::Fry),
        ('f', 'u', 'l') => Some(LangCode::Ful),
        ('g', 'e', 'o') | ('k', 'a', 't') => Some(LangCode::Geo),
        ('g', 'e', 'r') | ('d', 'e', 'u') => Some(LangCode::Ger),
        ('g', 'l', 'a') => Some(LangCode::Gla),
        ('g', 'l', 'e') => Some(LangCode::Gle),
        ('g', 'l', 'g') => Some(LangCode::Glg),
        ('g', 'l', 'v') => Some(LangCode::Glv),
        ('g', 'r', 'e') | ('e', 'l', 'l') => Some(LangCode::Gre),
        ('g', 'r', 'n') => Some(LangCode::Grn),
        ('g', 'u', 'j') => Some(LangCode::Guj),
        ('h', 'a', 't') => Some(LangCode::Hat),
        ('h', 'a', 'u') => Some(LangCode::Hau),
        ('h', 'b', 's') => Some(LangCode::Hbs),
        ('h', 'e', 'b') => Some(LangCode::Heb),
        ('h', 'e', 'r') => Some(LangCode::Her),
        ('h', 'i', 'n') => Some(LangCode::Hin),
        ('h', 'm', 'o') => Some(LangCode::Hmo),
        ('h', 'r', 'v') => Some(LangCode::Hrv),
        ('h', 'u', 'n') => Some(LangCode::Hun),
        ('i', 'b', 'o') => Some(LangCode::Ibo),
        ('i', 'c', 'e') | ('i', 's', 'l') => Some(LangCode::Ice),
        ('i', 'd', 'o') => Some(LangCode::Ido),
        ('i', 'i', 'i') => Some(LangCode::Iii),
        ('i', 'k', 'u') => Some(LangCode::Iku),
        ('i', 'l', 'e') => Some(LangCode::Ile),
        ('i', 'n', 'a') => Some(LangCode::Ina),
        ('i', 'n', 'd') => Some(LangCode::Ind),
        ('i', 'p', 'k') => Some(LangCode::Ipk),
        ('i', 't', 'a') => Some(LangCode::Ita),
        ('j', 'a', 'v') => Some(LangCode::Jav),
        ('j', 'p', 'n') => Some(LangCode::Jpn),
        ('k', 'a', 'l') => Some(LangCode::Kal),
        ('k', 'a', 'n') => Some(LangCode::Kan),
        ('k', 'a', 's') => Some(LangCode::Kas),
        ('k', 'a', 'u') => Some(LangCode::Kau),
        ('k', 'a', 'z') => Some(LangCode::Kaz),
        ('k', 'h', 'm') => Some(LangCode::Khm),
        ('k', 'i', 'k') => Some(LangCode::Kik),
        ('k', 'i', 'n') => Some(LangCode::Kin),
        ('k', 'i', 'r') => Some(LangCode::Kir),
        ('k', 'o', 'm') => Some(LangCode::Kom),
        ('k', 'o', 'n') => Some(LangCode::Kon),
        ('k', 'o', 'r') => Some(LangCode::Kor),
        ('k', 'u', 'a') => Some(LangCode::Kua),
        ('k', 'u', 'r') => Some(LangCode::Kur),
        ('l', 'a', 'o') => Some(LangCode::Lao),
        ('l', 'a', 't') => Some(LangCode::Lat),
        ('l', 'a', 'v') => Some(LangCode::Lav),
        ('l', 'i', 'm') => Some(LangCode::Lim),
        ('l', 'i', 'n') => Some(LangCode::Lin),
        ('l', 'i', 't') => Some(LangCode::Lit),
        ('l', 't', 'z') => Some(LangCode::Ltz),
        ('l', 'u', 'b') => Some(LangCode::Lub),
        ('l', 'u', 'g') => Some(LangCode::Lug),
        ('m', 'a', 'c') | ('m', 'k', 'd') => Some(LangCode::Mac),
        ('m', 'a', 'h') => Some(LangCode::Mah),
        ('m', 'a', 'l') => Some(LangCode::Mal),
        ('m', 'a', 'o') | ('m', 'r', 'i') => Some(LangCode::Mao),
        ('m', 'a', 'r') => Some(LangCode::Mar),
        ('m', 'a', 'y') | ('m', 's', 'a') => Some(LangCode::May),
        ('m', 'l', 'g') => Some(LangCode::Mlg),
        ('m', 'l', 't') => Some(LangCode::Mlt),
        ('m', 'o', 'n') => Some(LangCode::Mon),
        ('n', 'a', 'u') => Some(LangCode::Nau),
        ('n', 'a', 'v') => Some(LangCode::Nav),
        ('n', 'b', 'l') => Some(LangCode::Nbl),
        ('n', 'd', 'e') => Some(LangCode::Nde),
        ('n', 'd', 'o') => Some(LangCode::Ndo),
        ('n', 'e', 'p') => Some(LangCode::Nep),
        ('n', 'n', 'o') => Some(LangCode::Nno),
        ('n', 'o', 'b') => Some(LangCode::Nob),
        ('n', 'o', 'r') => Some(LangCode::Nor),
        ('n', 'y', 'a') => Some(LangCode::Nya),
        ('o', 'c', 'i') => Some(LangCode::Oci),
        ('o', 'j', 'i') => Some(LangCode::Oji),
        ('o', 'r', 'i') => Some(LangCode::Ori),
        ('o', 'r', 'm') => Some(LangCode::Orm),
        ('o', 's', 's') => Some(LangCode::Oss),
        ('p', 'a', 'n') => Some(LangCode::Pan),
        ('p', 'e', 'r') | ('f', 'a', 's') => Some(LangCode::Per),
        ('p', 'l', 'i') => Some(LangCode::Pli),
        ('p', 'o', 'l') => Some(LangCode::Pol),
        ('p', 'o', 'r') => Some(LangCode::Por),
        ('p', 'u', 's') => Some(LangCode::Pus),
        ('q', 'u', 'e') => Some(LangCode::Que),
        ('r', 'o', 'h') => Some(LangCode::Roh),
        ('r', 'u', 'm') | ('r', 'o', 'n') => Some(LangCode::Rum),
        ('r', 'u', 'n') => Some(LangCode::Run),
        ('r', 'u', 's') => Some(LangCode::Rus),
        ('s', 'a', 'g') => Some(LangCode::Sag),
        ('s', 'a', 'n') => Some(LangCode::San),
        ('s', 'i', 'n') => Some(LangCode::Sin),
        ('s', 'l', 'o') | ('s', 'l', 'k') => Some(LangCode::Slo),
        ('s', 'l', 'v') => Some(LangCode::Slv),
        ('s', 'm', 'e') => Some(LangCode::Sme),
        ('s', 'm', 'o') => Some(LangCode::Smo),
        ('s', 'n', 'a') => Some(LangCode::Sna),
        ('s', 'n', 'd') => Some(LangCode::Snd),
        ('s', 'o', 'm') => Some(LangCode::Som),
        ('s', 'o', 't') => Some(LangCode::Sot),
        ('s', 'p', 'a') => Some(LangCode::Spa),
        ('s', 'r', 'd') => Some(LangCode::Srd),
        ('s', 'r', 'p') => Some(LangCode::Srp),
        ('s', 's', 'w') => Some(LangCode::Ssw),
        ('s', 'u', 'n') => Some(LangCode::Sun),
        ('s', 'w', 'a') => Some(LangCode::Swa),
        ('s', 'w', 'e') => Some(LangCode::Swe),
        ('t', 'a', 'h') => Some(LangCode::Tah),
        ('t', 'a', 'm') => Some(LangCode::Tam),
        ('t', 'a', 't') => Some(LangCode::Tat),
        ('t', 'e', 'l') => Some(LangCode::Tel),
        ('t', 'g', 'k') => Some(LangCode::Tgk),
        ('t', 'g', 'l') => Some(LangCode::Tgl),
        ('t', 'h', 'a') => Some(LangCode::Tha),
        ('t', 'i', 'b') | ('b', 'o', 'd') => Some(LangCode::Tib),
        ('t', 'i', 'r') => Some(LangCode::Tir),
        ('t', 'o', 'n') => Some(LangCode::Ton),
        ('t', 's', 'n') => Some(LangCode::Tsn),
        ('t', 's', 'o') => Some(LangCode::Tso),
        ('t', 'u', 'k') => Some(LangCode::Tuk),
        ('t', 'u', 'r') => Some(LangCode::Tur),
        ('t', 'w', 'i') => Some(LangCode::Twi),
        ('u', 'i', 'g') => Some(LangCode::Uig),
        ('u', 'k', 'r') => Some(LangCode::Ukr),
        ('u', 'r', 'd') => Some(LangCode::Urd),
        ('u', 'z', 'b') => Some(LangCode::Uzb),
        ('v', 'e', 'n') => Some(LangCode::Ven),
        ('v', 'i', 'e') => Some(LangCode::Vie),
        ('v', 'o', 'l') => Some(LangCode::Vol),
        ('w', 'e', 'l') | ('c', 'y', 'm') => Some(LangCode::Wel),
        ('w', 'l', 'n') => Some(LangCode::Wln),
        ('w', 'o', 'l') => Some(LangCode::Wol),
        ('x', 'h', 'o') => Some(LangCode::Xho),
        ('y', 'i', 'd') => Some(LangCode::Yid),
        ('y', 'o', 'r') => Some(LangCode::Yor),
        ('z', 'h', 'a') => Some(LangCode::Zha),
        ('z', 'u', 'l') => Some(LangCode::Zul),
        _ => None,
    }
}

impl LangCode {
    /// The three-letter code of the language.
    pub fn code_chars(self) -> (r: (char, char, char))
        ensures
            r == spec_code_chars(self),
    {
        match self {
            LangCode::Und => ('u', 'n', 'd'),
            LangCode::Aar => ('a', 'a', 'r'),
            LangCode::Abk => ('a', 'b', 'k'),
            LangCode::Afr => ('a', 'f', 'r'),
            LangCode::Aka => ('a', 'k', 'a'),
            LangCode::Alb => ('a', 'l', 'b'),
            LangCode::Amh => ('a', 'm', 'h'),
            LangCode::Ara => ('a', 'r', 'a'),
            LangCode::Arg => ('a', 'r', 'g'),
            LangCode::Arm => ('a', 'r', 'm'),
            LangCode::Asm => ('a', 's', 'm'),
            LangCode::Ava => ('a', 'v', 'a'),
            LangCode::Ave => ('a', 'v', 'e'),
            LangCode::Aym => ('a', 'y', 'm'),
            LangCode::Aze => ('a', 'z', 'e'),
            LangCode::Bak => ('b', 'a', 'k'),
            LangCode::Bam => ('b', 'a', 'm'),
            LangCode::Baq => ('b', 'a', 'q'),
            LangCode::Bel => ('b', 'e', 'l'),
            LangCode::Ben => ('b', 'e', 'n'),
            LangCode::Bis => ('b', 'i', 's'),
            LangCode::Bos => ('b', 'o', 's'),
            LangCode::Bre => ('b', 'r', 'e'),
            LangCode::Bul => ('b', 'u', 'l'),
            LangCode::Bur => ('b', 'u', 'r'),
            LangCode::Cat => ('c', 'a', 't'),
            LangCode::Cha => ('c', 'h', 'a'),
            LangCode::Che => ('c', 'h', 'e'),
            LangCode::Chi => ('c', 'h', 'i'),
            LangCode::Chu => ('c', 'h', 'u'),
            LangCode::Chv => ('c', 'h', 'v'),
            LangCode::Cor => ('c', 'o', 'r'),
            LangCode::Cos => ('c', 'o', 's'),
            LangCode::Cre => ('c', 'r', 'e'),
            LangCode::Cze => ('c', 'z', 'e'),
            LangCode::Dan => ('d', 'a', 'n'),
            LangCode::Div => ('d', 'i', 'v'),
            LangCode::Dut => ('d', 'u', 't'),
            LangCode::Dzo => ('d', 'z', 'o'),
            LangCode::Eng => ('e', 'n', 'g'),
            LangCode::Epo => ('e', 'p', 'o'),
            LangCode::Est => ('e', 's', 't'),
            LangCode::Ewe => ('e', 'w', 'e'),
            LangCode::Fao => ('f', 'a', 'o'),
            LangCode::Fij => ('f', 'i', 'j'),
            LangCode::Fin => ('f', 'i', 'n'),
            LangCode::Fre => ('f', 'r', 'e'),
            LangCode::Fry => ('f', 'r', 'y'),
            LangCode::Ful => ('f', 'u', 'l'),
            LangCode::Geo => ('g', 'e', 'o'),
            LangCode::Ger => ('g', 'e', 'r'),
            LangCode::Gla => ('g', 'l', 'a'),
            LangCode::Gle => ('g', 'l', 'e'),
            LangCode::Glg => ('g', 'l', 'g'),
            LangCode::Glv => ('g', 'l', 'v'),
            LangCode::Gre => ('g', 'r', 'e'),
            LangCode::Grn => ('g', 'r', 'n'),
            LangCode::Guj => ('g', 'u', 'j'),
            LangCode::Hat => ('h', 'a', 't'),
            LangCode::Hau => ('h', 'a', 'u'),
            LangCode::Hbs => ('h', 'b', 's'),
            LangCode::Heb => ('h', 'e', 'b'),
            LangCode::Her => ('h', 'e', 'r'),
            LangCode::Hin => ('h', 'i', 'n'),
            LangCode::Hmo => ('h', 'm', 'o'),
            LangCode::Hrv => ('h', 'r', 'v'),
            LangCode::Hun => ('h', 'u', 'n'),
            LangCode::Ibo => ('i', 'b', 'o'),
            LangCode::Ice => ('i', 'c', 'e'),
            LangCode::Ido => ('i', 'd', 'o'),
            LangCode::Iii => ('i', 'i', 'i'),
            LangCode::Iku => ('i', 'k', 'u'),
            LangCode::Ile => ('i', 'l', 'e'),
            LangCode::Ina => ('i', 'n', 'a'),
            LangCode::Ind => ('i', 'n', 'd'),
            LangCode::Ipk => ('i', 'p', 'k'),
            LangCode::Ita => ('i', 't', 'a'),
            LangCode::Jav => ('j', 'a', 'v'),
            LangCode::Jpn => ('j', 'p', 'n'),
            LangCode::Kal => ('k', 'a', 'l'),
            LangCode::Kan => ('k', 'a', 'n'),
            LangCode::Kas => ('k', 'a', 's'),
            LangCode::Kau => ('k', 'a', 'u'),
            LangCode::Kaz => ('k', 'a', 'z'),
            LangCode::Khm => ('k', 'h', 'm'),
            LangCode::Kik => ('k', 'i', 'k'),
            LangCode::Kin => ('k', 'i', 'n'),
            LangCode::Kir => ('k', 'i', 'r'),
            LangCode::Kom => ('k', 'o', 'm'),
            LangCode::Kon => ('k', 'o', 'n'),
            LangCode::Kor => ('k', 'o', 'r'),
            LangCode::Kua => ('k', 'u', 'a'),
            LangCode::Kur => ('k', 'u', 'r'),
            LangCode::Lao => ('l', 'a', 'o'),
            LangCode::Lat => ('l', 'a', 't'),
            LangCode::Lav => ('l', 'a', 'v'),
            LangCode::Lim => ('l', 'i', 'm'),
            LangCode::Lin => ('l', 'i', 'n'),
            LangCode::Lit => ('l', 'i', 't'),
            LangCode::Ltz => ('l', 't', 'z'),
            LangCode::Lub => ('l', 'u', 'b'),
            LangCode::Lug => ('l', 'u', 'g'),
            LangCode::Mac => ('m', 'a', 'c'),
            LangCode::Mah => ('m', 'a', 'h'),
            LangCode::Mal => ('m', 'a', 'l'),
            LangCode::Mao => ('m', 'a', 'o'),
            LangCode::Mar => ('m', 'a', 'r'),
            LangCode::May => ('m', 'a', 'y'),
            LangCode::Mlg => ('m', 'l', 'g'),
            LangCode::Mlt => ('m', 'l', 't'),
            LangCode::Mon => ('m', 'o', 'n'),
            LangCode::Nau => ('n', 'a', 'u'),
            LangCode::Nav => ('n', 'a', 'v'),
            LangCode::Nbl => ('n', 'b', 'l'),
            LangCode::Nde => ('n', 'd', 'e'),
            LangCode::Ndo => ('n', 'd', 'o'),
            LangCode::Nep => ('n', 'e', 'p'),
            LangCode::Nno => ('n', 'n', 'o'),
            LangCode::Nob => ('n', 'o', 'b'),
            LangCode::Nor => ('n', 'o', 'r'),
            LangCode::Nya => ('n', 'y', 'a'),
            LangCode::Oci => ('o', 'c', 'i'),
            LangCode::Oji => ('o', 'j', 'i'),
            LangCode::Ori => ('o', 'r', 'i'),
            LangCode::Orm => ('o', 'r', 'm'),
            LangCode::Oss => ('o', 's', 's'),
            LangCode::Pan => ('p', 'a', 'n'),
            LangCode::Per => ('p', 'e', 'r'),
            LangCode::Pli => ('p', 'l', 'i'),
            LangCode::Pol => ('p', 'o', 'l'),
            LangCode::Por => ('p', 'o', 'r'),
            LangCode::Pus => ('p', 'u', 's'),
            LangCode::Que => ('q', 'u', 'e'),
            LangCode::Roh => ('r', 'o', 'h'),
            LangCode::Rum => ('r', 'u', 'm'),
            LangCode::Run => ('r', 'u', 'n'),
            LangCode::Rus => ('r', 'u', 's'),
            LangCode::Sag => ('s', 'a', 'g'),
            LangCode::San => ('s', 'a', 'n'),
            LangCode::Sin => ('s', 'i', 'n'),
            LangCode::Slo => ('s', 'l', 'o'),
            LangCode::Slv => ('s', 'l', 'v'),
            LangCode::Sme => ('s', 'm', 'e'),
            LangCode::Smo => ('s', 'm', 'o'),
            LangCode::Sna => ('s', 'n', 'a'),
            LangCode::Snd => ('s', 'n', 'd'),
            LangCode::Som => ('s', 'o', 'm'),
            LangCode::Sot => ('s', 'o', 't'),
            LangCode::Spa => ('s', 'p', 'a'),
            LangCode::Srd => ('s', 'r', 'd'),
            LangCode::Srp => ('s', 'r', 'p'),
            LangCode::Ssw => ('s', 's', 'w'),
            LangCode::Sun => ('s', 'u', 'n'),
            LangCode::Swa => ('s', 'w', 'a'),
            LangCode::Swe => ('s', 'w', 'e'),
            LangCode::Tah => ('t', 'a', 'h'),
            LangCode::Tam => ('t', 'a', 'm'),
            LangCode::Tat => ('t', 'a', 't'),
            LangCode::Tel => ('t', 'e', 'l'),
            LangCode::Tgk => ('t', 'g', 'k'),
            LangCode::Tgl => ('t', 'g', 'l'),
            LangCode::Tha => ('t', 'h', 'a'),
            LangCode::Tib => ('t', 'i', 'b'),
            LangCode::Tir => ('t', 'i', 'r'),
            LangCode::Ton => ('t', 'o', 'n'),
            LangCode::Tsn => ('t', 's', 'n'),
            LangCode::Tso => ('t', 's', 'o'),
            LangCode::Tuk => ('t', 'u', 'k'),
            LangCode::Tur => ('t', 'u', 'r'),
            LangCode::Twi => ('t', 'w', 'i'),
            LangCode::Uig => ('u', 'i', 'g'),
            LangCode::Ukr => ('u', 'k', 'r'),
            LangCode::Urd => ('u', 'r', 'd'),
            LangCode::Uzb => ('u', 'z', 'b'),
            LangCode::Ven => ('v', 'e', 'n'),
            LangCode::Vie => ('v', 'i', 'e'),
            LangCode::Vol => ('v', 'o', 'l'),
            LangCode::Wel => ('w', 'e', 'l'),
            LangCode::Wln => ('w', 'l', 'n'),
            LangCode::Wol => ('w', 'o', 'l'),
            LangCode::Xho => ('x', 'h', 'o'),
            LangCode::Yid => ('y', 'i', 'd'),
            LangCode::Yor => ('y', 'o', 'r'),
            LangCode::Zha => ('z', 'h', 'a'),
            LangCode::Zul => ('z', 'u', 'l'),
        }
    }
}

/// The language whose two-letter code is `ab` (in lowercase).
pub fn code_of_duo(a: char, b: char) -> (r: Option<LangCode>)
    ensures
        r == spec_code_of_duo(a, b),
{
    match (a, b) {
        ('a', 'a') => Some(LangCode::Aar),
        ('a', 'b') => Some(LangCode::Abk),
        ('a', 'f') => Some(LangCode::Afr),
        ('a', 'k') => Some(LangCode::Aka),
        ('s', 'q') => Some(LangCode::Alb),
        ('a', 'm') => Some(LangCode::Amh),
        ('a', 'r') => Some(LangCode::Ara),
        ('a', 'n') => Some(LangCode::Arg),
        ('h', 'y') => Some(LangCode::Arm),
        ('a', 's') => Some(LangCode::Asm),
        ('a', 'v') => Some(LangCode::Ava),
        ('a', 'e') => Some(LangCode::Ave),
        ('a', 'y') => Some(LangCode::Aym),
        ('a', 'z') => Some(LangCode::Aze),
        ('b', 'a') => Some(LangCode::Bak),
        ('b', 'm') => Some(LangCode::Bam),
        ('e', 'u') => Some(LangCode::Baq),
        ('b', 'e') => Some(LangCode::Bel),
        ('b', 'n') => Some(LangCode::Ben),
        ('b', 'i') => Some(LangCode::Bis),
        ('b', 's') => Some(LangCode::Bos),
        ('b', 'r') => Some(LangCode::Bre),
        ('b', 'g') => Some(LangCode::Bul),
        ('m', 'y') => Some(LangCode::Bur),
        ('c', 'a') => Some(LangCode::Cat),
        ('c', 'h') => Some(LangCode::Cha),
        ('c', 'e') => Some(LangCode::Che),
        ('z', 'h') => Some(LangCode::Chi),
        ('c', 'u') => Some(LangCode::Chu),
        ('c', 'v') => Some(LangCode::Chv),
        ('k', 'w') => Some(LangCode::Cor),
        ('c', 'o') => Some(LangCode::Cos),
        ('c', 'r') => Some(LangCode::Cre),
        ('c', 's') => Some(LangCode::Cze),
        ('d', 'a') => Some(LangCode::Dan),
        ('d', 'v') => Some(LangCode::Div),
        ('n', 'l') => Some(LangCode::Dut),
        ('d', 'z') => Some(LangCode::Dzo),
        ('e', 'n') => Some(LangCode::Eng),
        ('e', 'o') => Some(LangCode::Epo),
        ('e', 't') => Some(LangCode::Est),
        ('e', 'e') => Some(LangCode::Ewe),
        ('f', 'o') => Some(LangCode::Fao),
        ('f', 'j') => Some(LangCode::Fij),
        ('f', 'i') => Some(LangCode::Fin),
        ('f', 'r') => Some(LangCode::Fre),
        ('f', 'y') => Some(LangCode::Fry),
        ('f', 'f') => Some(LangCode::Ful),
        ('k', 'a') => Some(LangCode::Geo),
        ('d', 'e') => Some(LangCode::Ger),
        ('g', 'd') => Some(LangCode::Gla),
        ('g', 'a') => Some(LangCode::Gle),
        ('g', 'l') => Some(LangCode::Glg),
        ('g', 'v') => Some(LangCode::Glv),
        ('e', 'l') => Some(LangCode::Gre),
        ('g', 'n') => Some(LangCode::Grn),
        ('g', 'u') => Some(LangCode::Guj),
        ('h', 't') => Some(LangCode::Hat),
        ('h', 'a') => Some(LangCode::Hau),
        ('s', 'h') => Some(LangCode::Hbs),
        ('h', 'e') => Some(LangCode::Heb),
        ('h', 'z') => Some(LangCode::Her),
        ('h', 'i') => Some(LangCode::Hin),
        ('h', 'o') => Some(LangCode::Hmo),
        ('h', 'r') => Some(LangCode::Hrv),
        ('h', 'u') => Some(LangCode::Hun),
        ('i', 'g') => Some(LangCode::Ibo),
        ('i', 's') => Some(LangCode::Ice),
        ('i', 'o') => Some(LangCode::Ido),
        ('i', 'i') => Some(LangCode::Iii),
        ('i', 'u') => Some(LangCode::Iku),
        ('i', 'e') => Some(LangCode::Ile),
        ('i', 'a') => Some(LangCode::Ina),
        ('i', 'd') => Some(LangCode::Ind),
        ('i', 'k') => Some(LangCode::Ipk),
        ('i', 't') => Some(LangCode::Ita),
        ('j', 'v') => Some(LangCode::Jav),
        ('j', 'a') => Some(LangCode::Jpn),
        ('k', 'l') => Some(LangCode::Kal),
        ('k', 'n') => Some(LangCode::Kan),
        ('k', 's') => Some(LangCode::Kas),
        ('k', 'r') => Some(LangCode::Kau),
        ('k', 'k') => Some(LangCode::Kaz),
        ('k', 'm') => Some(LangCode::Khm),
        ('k', 'i') => Some(LangCode::Kik),
        ('r', 'w') => Some(LangCode::Kin),
        ('k', 'y') => Some(LangCode::Kir),
        ('k', 'v') => Some(LangCode::Kom),
        ('k', 'g') => Some(LangCode::Kon),
        ('k', 'o') => Some(LangCode::Kor),
        ('k', 'j') => Some(LangCode::Kua),
        ('k', 'u') => Some(LangCode::Kur),
        ('l', 'o') => Some(LangCode::Lao),
        ('l', 'a') => Some(LangCode::Lat),
        ('l', 'v') => Some(LangCode::Lav),
        ('l', 'i') => Some(LangCode::Lim),
        ('l', 'n') => Some(LangCode::Lin),
        ('l', 't') => Some(LangCode::Lit),
        ('l', 'b') => Some(LangCode::Ltz),
        ('l', 'u') => Some(LangCode::Lub),
        ('l', 'g') => Some(LangCode::Lug),
        ('m', 'k') => Some(LangCode::Mac),
        ('m', 'h') => Some(LangCode::Mah),
        ('m', 'l') => Some(LangCode::Mal),
        ('m', 'i') => Some(LangCode::Mao),
        ('m', 'r') => Some(LangCode::Mar),
        ('m', 's') => Some(LangCode::May),
        ('m', 'g') => Some(LangCode::Mlg),
        ('m', 't') => Some(LangCode::Mlt),
        ('m', 'n') => Some(LangCode::Mon),
        ('n', 'a') => Some(LangCode::Nau),
        ('n', 'v') => Some(LangCode::Nav),
        ('n', 'r') => Some(LangCode::Nbl),
        ('n', 'd') => Some(LangCode::Nde),
        ('n', 'g') => Some(LangCode::Ndo),
        ('n', 'e') => Some(LangCode::Nep),
        ('n', 'n') => Some(LangCode::Nno),
        ('n', 'b') => Some(LangCode::Nob),
        ('n', 'o') => Some(LangCode::Nor),
        ('n', 'y') => Some(LangCode::Nya),
        ('o', 'c') => Some(LangCode::Oci),
        ('o', 'j') => Some(LangCode::Oji),
        ('o', 'r') => Some(LangCode::Ori),
        ('o', 'm') => Some(LangCode::Orm),
        ('o', 's') => Some(LangCode::Oss),
        ('p', 'a') => Some(LangCode::Pan),
        ('f', 'a') => Some(LangCode::Per),
        ('p', 'i') => Some(LangCode::Pli),
        ('p', 'l') => Some(LangCode::Pol),
        ('p', 't') => Some(LangCode::Por),
        ('p', 's') => Some(LangCode::Pus),
        ('q', 'u') => Some(LangCode::Que),
        ('r', 'm') => Some(LangCode::Roh),
        ('r', 'o') => Some(LangCode::Rum),
        ('r', 'n') => Some(LangCode::Run),
        ('r', 'u') => Some(LangCode::Rus),
        ('s', 'g') => Some(LangCode::Sag),
        ('s', 'a') => Some(LangCode::San),
        ('s', 'i') => Some(LangCode::Sin),
        ('s', 'k') => Some(LangCode::Slo),
        ('s', 'l') => Some(LangCode::Slv),
        ('s', 'e') => Some(LangCode::Sme),
        ('s', 'm') => Some(LangCode::Smo),
        ('s', 'n') => Some(LangCode::Sna),
        ('s', 'd') => Some(LangCode::Snd),
        ('s', 'o') => Some(LangCode::Som),
        ('s', 't') => Some(LangCode::Sot),
        ('e', 's') => Some(LangCode::Spa),
        ('s', 'c') => Some(LangCode::Srd),
        ('s', 'r') => Some(LangCode::Srp),
        ('s', 's') => Some(LangCode::Ssw),
        ('s', 'u') => Some(LangCode::Sun),
        ('s', 'w') => Some(LangCode::Swa),
        ('s', 'v') => Some(LangCode::Swe),
        ('t', 'y') => Some(LangCode::Tah),
        ('t', 'a') => Some(LangCode::Tam),
        ('t', 't') => Some(LangCode::Tat),
        ('t', 'e') => Some(LangCode::Tel),
        ('t', 'g') => Some(LangCode::Tgk),
        ('t', 'l') => Some(LangCode::Tgl),
        ('t', 'h') => Some(LangCode::Tha),
        ('b', 'o') => Some(LangCode::Tib),
        ('t', 'i') => Some(LangCode::Tir),
        ('t', 'o') => Some(LangCode::Ton),
        ('t', 'n') => Some(LangCode::Tsn),
        ('t', 's') => Some(LangCode::Tso),
        ('t', 'k') => Some(LangCode::Tuk),
        ('t', 'r') => Some(LangCode::Tur),
        ('t', 'w') => Some(LangCode::Twi),
        ('u', 'g') => Some(LangCode::Uig),
        ('u', 'k') => Some(LangCode::Ukr),
        ('u', 'r') => Some(LangCode::Urd),
        ('u', 'z') => Some(LangCode::Uzb),
        ('v', 'e') => Some(LangCode::Ven),
        ('v', 'i') => Some(LangCode::Vie),
        ('v', 'o') => Some(LangCode::Vol),
        ('c', 'y') => Some(LangCode::Wel),
        ('w', 'a') => Some(LangCode::Wln),
        ('w', 'o') => Some(LangCode::Wol),
        ('x', 'h') => Some(LangCode::Xho),
        ('y', 'i') => Some(LangCode::Yid),
        ('y', 'o') => Some(LangCode::Yor),
        ('z', 'a') => Some(LangCode::Zha),
        ('z', 'u') => Some(LangCode::Zul),
        _ => None,
    }
}

/// The language whose three-letter code is `abc` (in lowercase).
pub fn code_of_triple(a: char, b: char, c: char) -> (r: Option<LangCode>)
    ensures
        r == spec_code_of_triple(a, b, c),
{
    match (a, b, c) {
        ('u', 'n', 'd') => Some(LangCode::Und),
        ('a', 'a', 'r') => Some(LangCode::Aar),
        ('a', 'b', 'k') => Some(LangCode::Abk),
        ('a', 'f', 'r') => Some(LangCode::Afr),
        ('a', 'k', 'a') => Some(LangCode::Aka),
        ('a', 'l', 'b') | ('s', 'q', 'i') => Some(LangCode::Alb),
        ('a', 'm', 'h') => Some(LangCode::Amh),
        ('a', 'r', 'a') => Some(LangCode::Ara),
        ('a', 'r', 'g') => Some(LangCode::Arg),
        ('a', 'r', 'm') | ('h', 'y', 'e') => Some(LangCode::Arm),
        ('a', 's', 'm') => Some(LangCode::Asm),
        ('a', 'v', 'a') => Some(LangCode::Ava),
        ('a', 'v', 'e') => Some(LangCode::Ave),
        ('a', 'y', 'm') => Some(LangCode::Aym),
        ('a', 'z', 'e') => Some(LangCode::Aze),
        ('b', 'a', 'k') => Some(LangCode::Bak),
        ('b', 'a', 'm') => Some(LangCode::Bam),
        ('b', 'a', 'q') | ('e', 'u', 's') => Some(LangCode::Baq),
        ('b', 'e', 'l') => Some(LangCode::Bel),
        ('b', 'e', 'n') => Some(LangCode::Ben),
        ('b', 'i', 's') => Some(LangCode::Bis),
        ('b', 'o', 's') => Some(LangCode::Bos),
        ('b', 'r', 'e') => Some(LangCode::Bre),
        ('b', 'u', 'l') => Some(LangCode::Bul),
        ('b', 'u', 'r') | ('m', 'y', 'a') => Some(LangCode::Bur),
        ('c', 'a', 't') => Some(LangCode::Cat),
        ('c', 'h', 'a') => Some(LangCode::Cha),
        ('c', 'h', 'e') => Some(LangCode::Che),
        ('c', 'h', 'i') | ('z', 'h', 'o') => Some(LangCode::Chi),
        ('c', 'h', 'u') => Some(LangCode::Chu),
        ('c', 'h', 'v') => Some(LangCode::Chv),
        ('c', 'o', 'r') => Some(LangCode::Cor),
        ('c', 'o', 's') => Some(LangCode::Cos),
        ('c', 'r', 'e') => Some(LangCode::Cre),
        ('c', 'z', 'e') | ('c', 'e', 's') => Some(LangCode::Cze),
        ('d', 'a', 'n') => Some(LangCode::Dan),
        ('d', 'i', 'v') => Some(LangCode::Div),
        ('d', 'u', 't') | ('n', 'l', 'd') => Some(LangCode::Dut),
        ('d', 'z', 'o') => Some(LangCode::Dzo),
        ('e', 'n', 'g') => Some(LangCode::Eng),
        ('e', 'p', 'o') => Some(LangCode::Epo),
        ('e', 's', 't') => Some(LangCode::Est),
        ('e', 'w', 'e') => Some(LangCode::Ewe),
        ('f', 'a', 'o') => Some(LangCode::Fao),
        ('f', 'i', 'j') => Some(LangCode::Fij),
        ('f', 'i', 'n') => Some(LangCode::Fin),
        ('f', 'r', 'e') | ('f', 'r', 'a') => Some(LangCode::Fre),
        ('f', 'r', 'y') => Some(LangCode::Fry),
        ('f', 'u', 'l') => Some(LangCode::Ful),
        ('g', 'e', 'o') | ('k', 'a', 't') => Some(LangCode::Geo),
        ('g', 'e', 'r') | ('d', 'e', 'u') => Some(LangCode::Ger),
        ('g', 'l', 'a') => Some(LangCode::Gla),
        ('g', 'l', 'e') => Some(LangCode::Gle),
        ('g', 'l', 'g') => Some(LangCode::Glg),
        ('g', 'l', 'v') => Some(LangCode::Glv),
        ('g', 'r', 'e') | ('e', 'l', 'l') => Some(LangCode::Gre),
        ('g', 'r', 'n') => Some(LangCode::Grn),
        ('g', 'u', 'j') => Some(LangCode::Guj),
        ('h', 'a', 't') => Some(LangCode::Hat),
        ('h', 'a', 'u') => Some(LangCode::Hau),
        ('h', 'b', 's') => Some(LangCode::Hbs),
        ('h', 'e', 'b') => Some(LangCode::Heb),
        ('h', 'e', 'r') => Some(LangCode::Her),
        ('h', 'i', 'n') => Some(LangCode::Hin),
        ('h', 'm', 'o') => Some(LangCode::Hmo),
        ('h', 'r', 'v') => Some(LangCode::Hrv),
        ('h', 'u', 'n') => Some(LangCode::Hun),
        ('i', 'b', 'o') => Some(LangCode::Ibo),
        ('i', 'c', 'e') | ('i', 's', 'l') => Some(LangCode::Ice),
        ('i', 'd', 'o') => Some(LangCode::Ido),
        ('i', 'i', 'i') => Some(LangCode::Iii),
        ('i', 'k', 'u') => Some(LangCode::Iku),
        ('i', 'l', 'e') => Some(LangCode::Ile),
        ('i', 'n', 'a') => Some(LangCode::Ina),
        ('i', 'n', 'd') => Some(LangCode::Ind),
        ('i', 'p', 'k') => Some(LangCode::Ipk),
        ('i', 't', 'a') => Some(LangCode::Ita),
        ('j', 'a', 'v') => Some(LangCode::Jav),
        ('j', 'p', 'n') => Some(LangCode::Jpn),
        ('k', 'a', 'l') => Some(LangCode::Kal),
        ('k', 'a', 'n') => Some(LangCode::Kan),
        ('k', 'a', 's') => Some(LangCode::Kas),
        ('k', 'a', 'u') => Some(LangCode::Kau),
        ('k', 'a', 'z') => Some(LangCode::Kaz),
        ('k', 'h', 'm') => Some(LangCode::Khm),
        ('k', 'i', 'k') => Some(LangCode::Kik),
        ('k', 'i', 'n') => Some(LangCode::Kin),
        ('k', 'i', 'r') => Some(LangCode::Kir),
        ('k', 'o', 'm') => Some(LangCode::Kom),
        ('k', 'o', 'n') => Some(LangCode::Kon),
        ('k', 'o', 'r') => Some(LangCode::Kor),
        ('k', 'u', 'a') => Some(LangCode::Kua),
        ('k', 'u', 'r') => Some(LangCode::Kur),
        ('l', 'a', 'o') => Some(LangCode::Lao),
        ('l', 'a', 't') => Some(LangCode::Lat),
        ('l', 'a', 'v') => Some(LangCode::Lav),
        ('l', 'i', 'm') => Some(LangCode::Lim),
        ('l', 'i', 'n') => Some(LangCode::Lin),
        ('l', 'i', 't') => Some(LangCode::Lit),
        ('l', 't', 'z') => Some(LangCode::Ltz),
        ('l', 'u', 'b') => Some(LangCode::Lub),
        ('l', 'u', 'g') => Some(LangCode::Lug),
        ('m', 'a', 'c') | ('m', 'k', 'd') => Some(LangCode::Mac),
        ('m', 'a', 'h') => Some(LangCode::Mah),
        ('m', 'a', 'l') => Some(LangCode::Mal),
        ('m', 'a', 'o') | ('m', 'r', 'i') => Some(LangCode::Mao),
        ('m', 'a', 'r') => Some(LangCode::Mar),
        ('m', 'a', 'y') | ('m', 's', 'a') => Some(LangCode::May),
        ('m', 'l', 'g') => Some(LangCode::Mlg),
        ('m', 'l', 't') => Some(LangCode::Mlt),
        ('m', 'o', 'n') => Some(LangCode::Mon),
        ('n', 'a', 'u') => Some(LangCode::Nau),
        ('n', 'a', 'v') => Some(LangCode::Nav),
        ('n', 'b', 'l') => Some(LangCode::Nbl),
        ('n', 'd', 'e') => Some(LangCode::Nde),
        ('n', 'd', 'o') => Some(LangCode::Ndo),
        ('n', 'e', 'p') => Some(LangCode::Nep),
        ('n', 'n', 'o') => Some(LangCode::Nno),
        ('n', 'o', 'b') => Some(LangCode::Nob),
        ('n', 'o', 'r') => Some(LangCode::Nor),
        ('n', 'y', 'a') => Some(LangCode::Nya),
        ('o', 'c', 'i') => Some(LangCode::Oci),
        ('o', 'j', 'i') => Some(LangCode::Oji),
        ('o', 'r', 'i') => Some(LangCode::Ori),
        ('o', 'r', 'm') => Some(LangCode::Orm),
        ('o', 's', 's') => Some(LangCode::Oss),
        ('p', 'a', 'n') => Some(LangCode::Pan),
        ('p', 'e', 'r') | ('f', 'a', 's') => Some(LangCode::Per),
        ('p', 'l', 'i') => Some(LangCode::Pli),
        ('p', 'o', 'l') => Some(LangCode::Pol),
        ('p', 'o', 'r') => Some(LangCode::Por),
        ('p', 'u', 's') => Some(LangCode::Pus),
        ('q', 'u', 'e') => Some(LangCode::Que),
        ('r', 'o', 'h') => Some(LangCode::Roh),
        ('r', 'u', 'm') | ('r', 'o', 'n') => Some(LangCode::Rum),
        ('r', 'u', 'n') => Some(LangCode::Run),
        ('r', 'u', 's') => Some(LangCode::Rus),
        ('s', 'a', 'g') => Some(LangCode::Sag),
        ('s', 'a', 'n') => Some(LangCode::San),
        ('s', 'i', 'n') => Some(LangCode::Sin),
        ('s', 'l', 'o') | ('s', 'l', 'k') => Some(LangCode::Slo),
        ('s', 'l', 'v') => Some(LangCode::Slv),
        ('s', 'm', 'e') => Some(LangCode::Sme),
        ('s', 'm', 'o') => Some(LangCode::Smo),
        ('s', 'n', 'a') => Some(LangCode::Sna),
        ('s', 'n', 'd') => Some(LangCode::Snd),
        ('s', 'o', 'm') => Some(LangCode::Som),
        ('s', 'o', 't') => Some(LangCode::Sot),
        ('s', 'p', 'a') => Some(LangCode::Spa),
        ('s', 'r', 'd') => Some(LangCode::Srd),
        ('s', 'r', 'p') => Some(LangCode::Srp),
        ('s', 's', 'w') => Some(LangCode::Ssw),
        ('s', 'u', 'n') => Some(LangCode::Sun),
        ('s', 'w', 'a') => Some(LangCode::Swa),
        ('s', 'w', 'e') => Some(LangCode::Swe),
        ('t', 'a', 'h') => Some(LangCode::Tah),
        ('t', 'a', 'm') => Some(LangCode::Tam),
        ('t', 'a', 't') => Some(LangCode::Tat),
        ('t', 'e', 'l') => Some(LangCode::Tel),
        ('t', 'g', 'k') => Some(LangCode::Tgk),
        ('t', 'g', 'l') => Some(LangCode::Tgl),
        ('t', 'h', 'a') => Some(LangCode::Tha),
        ('t', 'i', 'b') | ('b', 'o', 'd') => Some(LangCode::Tib),
        ('t', 'i', 'r') => Some(LangCode::Tir),
        ('t', 'o', 'n') => Some(LangCode::Ton),
        ('t', 's', 'n') => Some(LangCode::Tsn),
        ('t', 's', 'o') => Some(LangCode::Tso),
        ('t', 'u', 'k') => Some(LangCode::Tuk),
        ('t', 'u', 'r') => Some(LangCode::Tur),
        ('t', 'w', 'i') => Some(LangCode::Twi),
        ('u', 'i', 'g') => Some(LangCode::Uig),
        ('u', 'k', 'r') => Some(LangCode::Ukr),
        ('u', 'r', 'd') => Some(LangCode::Urd),
        ('u', 'z', 'b') => Some(LangCode::Uzb),
        ('v', 'e', 'n') => Some(LangCode::Ven),
        ('v', 'i', 'e') => Some(LangCode::Vie),
        ('v', 'o', 'l') => Some(LangCode::Vol),
        ('w', 'e', 'l') | ('c', 'y', 'm') => Some(LangCode::Wel),
        ('w', 'l', 'n') => Some(LangCode::Wln),
        ('w', 'o', 'l') => Some(LangCode::Wol),
        ('x', 'h', 'o') => Some(LangCode::Xho),
        ('y', 'i', 'd') => Some(LangCode::Yid),
        ('y', 'o', 'r') => Some(LangCode::Yor),
        ('z', 'h', 'a') => Some(LangCode::Zha),
        ('z', 'u', 'l') => Some(LangCode::Zul),
        _ => None,
    }
}

} // verus!
