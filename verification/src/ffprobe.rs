//! What `ffprobe` reports of a media file: its streams, its container format
//! and the languages of its audio and subtitle tracks.
use vstd::prelude::*;

use crate::streams::{AudioStream, DataStream, SubtitleStream, VideoStream};
use crate::text::{
    ascii_lowercase, chars_eq_str, chars_of, decimal_digits, push_decimal, string_from_chars,
    to_ascii_lowercase,
};

verus! {

/// Languages of audio and subtitle streams.
#[derive(Debug, Clone)]
pub enum Language {
    English,
    Japanese,
    German,
    French,
    Italian,
    Spanish,
    Portuguese,
    Portuguese_BR,
    Chinese,
    Chinese_Hans,
    Chinese_Hant,
    Korean,
    Russian,
    Ukrainian,
    Polish,
    Czech,
    Slovak,
    Dutch,
    Swedish,
    Norwegian,
    Danish,
    Finnish,
    Turkish,
    Greek,
    Hebrew,
    Arabic,
    Hindi,
    Thai,
    Vietnamese,
    Indonesian,
    Malay,
    Romanian,
    Hungarian,
    Bulgarian,
    Croatian,
    Serbian,
    Slovenian,
    Catalan,
    Undetermined,
    Other(String),
}

/// The language a lowercase language code names, if it is a known one.
pub open spec fn known_language(c: Seq<char>) -> Option<Language> {
    if c == "eng"@ || c == "en"@ || c == "en-us"@ || c == "en_us"@ || c == "en-br"@ || c == "en_br"@ {
        Some(Language::English)
    } else if c == "jpn"@ || c == "ja"@ {
        Some(Language::Japanese)
    } else if c == "deu"@ || c == "ger"@ || c == "de"@ {
        Some(Language::German)
    } else if c == "fra"@ || c == "fre"@ || c == "fr"@ {
        Some(Language::French)
    } else if c == "ita"@ || c == "it"@ {
        Some(Language::Italian)
    } else if c == "spa"@ || c == "es"@ {
        Some(Language::Spanish)
    } else if c == "por"@ || c == "pt"@ {
        Some(Language::Portuguese)
    } else if c == "pt-br"@ || c == "pt_br"@ {
        Some(Language::Portuguese_BR)
    } else if c == "zho"@ || c == "chi"@ || c == "zh"@ {
        Some(Language::Chinese)
    } else if c == "zh-hans"@ || c == "zh_cn"@ || c == "zh-sg"@ {
        Some(Language::Chinese_Hans)
    } else if c == "zh-hant"@ || c == "zh_tw"@ || c == "zh-hk"@ {
        Some(Language::Chinese_Hant)
    } else if c == "kor"@ || c == "ko"@ {
        Some(Language::Korean)
    } else if c == "rus"@ || c == "ru"@ {
        Some(Language::Russian)
    } else if c == "ukr"@ || c == "uk"@ {
        Some(Language::Ukrainian)
    } else if c == "pol"@ || c == "pl"@ {
        Some(Language::Polish)
    } else if c == "ces"@ || c == "cze"@ || c == "cs"@ {
        Some(Language::Czech)
    } else if c == "slk"@ || c == "slo"@ || c == "sk"@ {
        Some(Language::Slovak)
    } else if c == "bul"@ || c == "bg"@ {
        Some(Language::Bulgarian)
    } else if c == "hrv"@ || c == "hr"@ {
        Some(Language::Croatian)
    } else if c == "srp"@ || c == "sr"@ {
        Some(Language::Serbian)
    } else if c == "slv"@ || c == "sl"@ {
        Some(Language::Slovenian)
    } else if c == "nld"@ || c == "dut"@ || c == "nl"@ {
        Some(Language::Dutch)
    } else if c == "swe"@ || c == "sv"@ {
        Some(Language::Swedish)
    } else if c == "nor"@ || c == "no"@ {
        Some(Language::Norwegian)
    } else if c == "dan"@ || c == "da"@ {
        Some(Language::Danish)
    } else if c == "fin"@ || c == "fi"@ {
        Some(Language::Finnish)
    } else if c == "tur"@ || c == "tr"@ {
        Some(Language::Turkish)
    } else if c == "ell"@ || c == "gre"@ || c == "el"@ {
        Some(Language::Greek)
    } else if c == "heb"@ || c == "he"@ || c == "iw"@ {
        Some(Language::Hebrew)
    } else if c == "ron"@ || c == "rum"@ || c == "ro"@ {
        Some(Language::Romanian)
    } else if c == "hun"@ || c == "hu"@ {
        Some(Language::Hungarian)
    } else if c == "cat"@ || c == "ca"@ {
        Some(Language::Catalan)
    } else if c == "ara"@ || c == "ar"@ {
        Some(Language::Arabic)
    } else if c == "hin"@ || c == "hi"@ {
        Some(Language::Hindi)
    } else if c == "tha"@ || c == "th"@ {
        Some(Language::Thai)
    } else if c == "vie"@ || c == "vi"@ {
        Some(Language::Vietnamese)
    } else if c == "ind"@ || c == "id"@ {
        Some(Language::Indonesian)
    } else if c == "msa"@ || c == "may"@ || c == "ms"@ {
        Some(Language::Malay)
    } else if c == "und"@ {
        Some(Language::Undetermined)
    } else {
        None
    }
}

/// The ISO 639-1 code a language is written as; `Unknown` when there is none.
pub open spec fn language_code(l: Language) -> Seq<char> {
    match l {
        Language::English => "en"@,
        Language::Japanese => "ja"@,
        Language::German => "de"@,
        Language::French => "fr"@,
        Language::Italian => "it"@,
        Language::Spanish => "es"@,
        Language::Portuguese => "pt"@,
        Language::Portuguese_BR => "pt-br"@,
        Language::Chinese => "zh"@,
        Language::Chinese_Hans => "zh-hans"@,
        Language::Chinese_Hant => "zh-hant"@,
        Language::Korean => "ko"@,
        Language::Russian => "ru"@,
        Language::Ukrainian => "uk"@,
        Language::Polish => "pl"@,
        Language::Czech => "cs"@,
        Language::Slovak => "sk"@,
        Language::Bulgarian => "bg"@,
        Language::Croatian => "hr"@,
        Language::Serbian => "sr"@,
        Language::Slovenian => "sl"@,
        Language::Dutch => "nl"@,
        Language::Swedish => "sv"@,
        Language::Norwegian => "no"@,
        Language::Danish => "da"@,
        Language::Finnish => "fi"@,
        Language::Turkish => "tr"@,
        Language::Greek => "el"@,
        Language::Hebrew => "he"@,
        Language::Romanian => "ro"@,
        Language::Hungarian => "hu"@,
        Language::Catalan => "ca"@,
        Language::Arabic => "ar"@,
        Language::Hindi => "hi"@,
        Language::Thai => "th"@,
        Language::Vietnamese => "vi"@,
        Language::Indonesian => "id"@,
        Language::Malay => "ms"@,
        Language::Undetermined => "Unknown"@,
        Language::Other(_) => "Unknown"@,
    }
}

/// Whether the language is one with a code of its own.
pub open spec fn has_code(l: Language) -> bool {
    !(l is Undetermined) && !(l is Other)
}

impl Language {
    /// The language of a code, compared without regard to ASCII case; an unknown
    /// code gives `Other` with the lowercase code.
    pub fn from(value: &str) -> (res: Language)
        ensures
            match known_language(ascii_lowercase(value@)) {
                Some(l) => res == l,
                None => res matches Language::Other(o) && o@ == ascii_lowercase(value@),
            },
    {
        let raw = chars_of(value);
        let c = to_ascii_lowercase(&raw);
        if chars_eq_str(&c, "eng") || chars_eq_str(&c, "en") || chars_eq_str(&c, "en-us") || chars_eq_str(&c, "en_us") || chars_eq_str(&c, "en-br") || chars_eq_str(&c, "en_br") {
            Language::English
        } else if chars_eq_str(&c, "jpn") || chars_eq_str(&c, "ja") {
            Language::Japanese
        } else if chars_eq_str(&c, "deu") || chars_eq_str(&c, "ger") || chars_eq_str(&c, "de") {
            Language::German
        } else if chars_eq_str(&c, "fra") || chars_eq_str(&c, "fre") || chars_eq_str(&c, "fr") {
            Language::French
        } else if chars_eq_str(&c, "ita") || chars_eq_str(&c, "it") {
            Language::Italian
        } else if chars_eq_str(&c, "spa") || chars_eq_str(&c, "es") {
            Language::Spanish
        } else if chars_eq_str(&c, "por") || chars_eq_str(&c, "pt") {
            Language::Portuguese
        } else if chars_eq_str(&c, "pt-br") || chars_eq_str(&c, "pt_br") {
            Language::Portuguese_BR
        } else if chars_eq_str(&c, "zho") || chars_eq_str(&c, "chi") || chars_eq_str(&c, "zh") {
            Language::Chinese
        } else if chars_eq_str(&c, "zh-hans") || chars_eq_str(&c, "zh_cn") || chars_eq_str(&c, "zh-sg") {
            Language::Chinese_Hans
        } else if chars_eq_str(&c, "zh-hant") || chars_eq_str(&c, "zh_tw") || chars_eq_str(&c, "zh-hk") {
            Language::Chinese_Hant
        } else if chars_eq_str(&c, "kor") || chars_eq_str(&c, "ko") {
            Language::Korean
        } else if chars_eq_str(&c, "rus") || chars_eq_str(&c, "ru") {
            Language::Russian
        } else if chars_eq_str(&c, "ukr") || chars_eq_str(&c, "uk") {
            Language::Ukrainian
        } else if chars_eq_str(&c, "pol") || chars_eq_str(&c, "pl") {
            Language::Polish
        } else if chars_eq_str(&c, "ces") || chars_eq_str(&c, "cze") || chars_eq_str(&c, "cs") {
            Language::Czech
        } else if chars_eq_str(&c, "slk") || chars_eq_str(&c, "slo") || chars_eq_str(&c, "sk") {
            Language::Slovak
        } else if chars_eq_str(&c, "bul") || chars_eq_str(&c, "bg") {
            Language::Bulgarian
        } else if chars_eq_str(&c, "hrv") || chars_eq_str(&c, "hr") {
            Language::Croatian
        } else if chars_eq_str(&c, "srp") || chars_eq_str(&c, "sr") {
            Language::Serbian
        } else if chars_eq_str(&c, "slv") || chars_eq_str(&c, "sl") {
            Language::Slovenian
        } else if chars_eq_str(&c, "nld") || chars_eq_str(&c, "dut") || chars_eq_str(&c, "nl") {
            Language::Dutch
        } else if chars_eq_str(&c, "swe") || chars_eq_str(&c, "sv") {
            Language::Swedish
        } else if chars_eq_str(&c, "nor") || chars_eq_str(&c, "no") {
            Language::Norwegian
        } else if chars_eq_str(&c, "dan") || chars_eq_str(&c, "da") {
            Language::Danish
        } else if chars_eq_str(&c, "fin") || chars_eq_str(&c, "fi") {
            Language::Finnish
        } else if chars_eq_str(&c, "tur") || chars_eq_str(&c, "tr") {
            Language::Turkish
        } else if chars_eq_str(&c, "ell") || chars_eq_str(&c, "gre") || chars_eq_str(&c, "el") {
            Language::Greek
        } else if chars_eq_str(&c, "heb") || chars_eq_str(&c, "he") || chars_eq_str(&c, "iw") {
            Language::Hebrew
        } else if chars_eq_str(&c, "ron") || chars_eq_str(&c, "rum") || chars_eq_str(&c, "ro") {
            Language::Romanian
        } else if chars_eq_str(&c, "hun") || chars_eq_str(&c, "hu") {
            Language::Hungarian
        } else if chars_eq_str(&c, "cat") || chars_eq_str(&c, "ca") {
            Language::Catalan
        } else if chars_eq_str(&c, "ara") || chars_eq_str(&c, "ar") {
            Language::Arabic
        } else if chars_eq_str(&c, "hin") || chars_eq_str(&c, "hi") {
            Language::Hindi
        } else if chars_eq_str(&c, "tha") || chars_eq_str(&c, "th") {
            Language::Thai
        } else if chars_eq_str(&c, "vie") || chars_eq_str(&c, "vi") {
            Language::Vietnamese
        } else if chars_eq_str(&c, "ind") || chars_eq_str(&c, "id") {
            Language::Indonesian
        } else if chars_eq_str(&c, "msa") || chars_eq_str(&c, "may") || chars_eq_str(&c, "ms") {
            Language::Malay
        } else if chars_eq_str(&c, "und") {
            Language::Undetermined
        } else {
            Language::Other(string_from_chars(&c))
        }
    }

    /// The ISO 639-1 code of the language (`Unknown` for undetermined and other ones).
    pub fn into(self) -> (res: &'static str)
        ensures
            res@ == language_code(self),
    {
        code_of(&self)
    }
}

fn code_of(l: &Language) -> (res: &'static str)
    ensures
        res@ == language_code(*l),
{
    {
        match l {
            Language::English => "en",
            Language::Japanese => "ja",
            Language::German => "de",
            Language::French => "fr",
            Language::Italian => "it",
            Language::Spanish => "es",
            Language::Portuguese => "pt",
            Language::Portuguese_BR => "pt-br",
            Language::Chinese => "zh",
            Language::Chinese_Hans => "zh-hans",
            Language::Chinese_Hant => "zh-hant",
            Language::Korean => "ko",
            Language::Russian => "ru",
            Language::Ukrainian => "uk",
            Language::Polish => "pl",
            Language::Czech => "cs",
            Language::Slovak => "sk",
            Language::Bulgarian => "bg",
            Language::Croatian => "hr",
            Language::Serbian => "sr",
            Language::Slovenian => "sl",
            Language::Dutch => "nl",
            Language::Swedish => "sv",
            Language::Norwegian => "no",
            Language::Danish => "da",
            Language::Finnish => "fi",
            Language::Turkish => "tr",
            Language::Greek => "el",
            Language::Hebrew => "he",
            Language::Romanian => "ro",
            Language::Hungarian => "hu",
            Language::Catalan => "ca",
            Language::Arabic => "ar",
            Language::Hindi => "hi",
            Language::Thai => "th",
            Language::Vietnamese => "vi",
            Language::Indonesian => "id",
            Language::Malay => "ms",
            Language::Undetermined => "Unknown",
            Language::Other(_) => "Unknown",
        }
    }
}

/// The ISO 639-2 codes of a language: its bibliographic code and its
/// terminology code (the same code where the two agree). `None` for the
/// regional variants, which have none of their own, and for languages
/// without a code.
pub open spec fn iso639_2_codes(l: Language) -> Option<(Seq<char>, Seq<char>)> {
    match l {
        Language::English => Some(("eng"@, "eng"@)),
        Language::Japanese => Some(("jpn"@, "jpn"@)),
        Language::German => Some(("ger"@, "deu"@)),
        Language::French => Some(("fre"@, "fra"@)),
        Language::Italian => Some(("ita"@, "ita"@)),
        Language::Spanish => Some(("spa"@, "spa"@)),
        Language::Portuguese => Some(("por"@, "por"@)),
        Language::Chinese => Some(("chi"@, "zho"@)),
        Language::Korean => Some(("kor"@, "kor"@)),
        Language::Russian => Some(("rus"@, "rus"@)),
        Language::Ukrainian => Some(("ukr"@, "ukr"@)),
        Language::Polish => Some(("pol"@, "pol"@)),
        Language::Czech => Some(("cze"@, "ces"@)),
        Language::Slovak => Some(("slo"@, "slk"@)),
        Language::Bulgarian => Some(("bul"@, "bul"@)),
        Language::Croatian => Some(("hrv"@, "hrv"@)),
        Language::Serbian => Some(("srp"@, "srp"@)),
        Language::Slovenian => Some(("slv"@, "slv"@)),
        Language::Dutch => Some(("dut"@, "nld"@)),
        Language::Swedish => Some(("swe"@, "swe"@)),
        Language::Norwegian => Some(("nor"@, "nor"@)),
        Language::Danish => Some(("dan"@, "dan"@)),
        Language::Finnish => Some(("fin"@, "fin"@)),
        Language::Turkish => Some(("tur"@, "tur"@)),
        Language::Greek => Some(("gre"@, "ell"@)),
        Language::Hebrew => Some(("heb"@, "heb"@)),
        Language::Romanian => Some(("rum"@, "ron"@)),
        Language::Hungarian => Some(("hun"@, "hun"@)),
        Language::Catalan => Some(("cat"@, "cat"@)),
        Language::Arabic => Some(("ara"@, "ara"@)),
        Language::Hindi => Some(("hin"@, "hin"@)),
        Language::Thai => Some(("tha"@, "tha"@)),
        Language::Vietnamese => Some(("vie"@, "vie"@)),
        Language::Indonesian => Some(("ind"@, "ind"@)),
        Language::Malay => Some(("may"@, "msa"@)),
        _ => None,
    }
}

/// The regional and older codes that also name a language (country
/// variants such as `en-us`, and the withdrawn `iw` for Hebrew).
pub open spec fn regional_codes(l: Language) -> Seq<Seq<char>> {
    match l {
        Language::English => seq!["en-us"@, "en_us"@, "en-br"@, "en_br"@],
        Language::Portuguese_BR => seq!["pt_br"@],
        Language::Chinese_Hans => seq!["zh_cn"@, "zh-sg"@],
        Language::Chinese_Hant => seq!["zh_tw"@, "zh-hk"@],
        Language::Hebrew => seq!["iw"@],
        _ => Seq::empty(),
    }
}

/// Both ISO 639-2 codes of a language, its regional codes and its ISO 639-1
/// code all read as that language: a file tagged `ger` or `deu` has German
/// audio, as one tagged `de`, and one tagged `fre` or `fra` has French. So
/// two codes of one language never read as two languages.
pub proof fn lemma_language_codes_agree(l: Language)
    requires
        has_code(l),
    ensures
        iso639_2_codes(l) matches Some((b, t)) ==> known_language(b) == Some(l) && known_language(t)
            == Some(l),
        forall|i: int| 0 <= i < regional_codes(l).len() ==> known_language(#[trigger] regional_codes(l)[i]) == Some(l),
        known_language(ascii_lowercase(language_code(l))) == Some(l),
{
    lemma_language_code_reads_back(l);
    reveal_strlit("ar");
    reveal_strlit("ara");
    reveal_strlit("bg");
    reveal_strlit("bul");
    reveal_strlit("ca");
    reveal_strlit("cat");
    reveal_strlit("ces");
    reveal_strlit("chi");
    reveal_strlit("cs");
    reveal_strlit("cze");
    reveal_strlit("da");
    reveal_strlit("dan");
    reveal_strlit("de");
    reveal_strlit("deu");
    reveal_strlit("dut");
    reveal_strlit("el");
    reveal_strlit("ell");
    reveal_strlit("en");
    reveal_strlit("en-br");
    reveal_strlit("en-us");
    reveal_strlit("en_br");
    reveal_strlit("en_us");
    reveal_strlit("eng");
    reveal_strlit("es");
    reveal_strlit("fi");
    reveal_strlit("fin");
    reveal_strlit("fr");
    reveal_strlit("fra");
    reveal_strlit("fre");
    reveal_strlit("ger");
    reveal_strlit("gre");
    reveal_strlit("he");
    reveal_strlit("heb");
    reveal_strlit("hi");
    reveal_strlit("hin");
    reveal_strlit("hr");
    reveal_strlit("hrv");
    reveal_strlit("hu");
    reveal_strlit("hun");
    reveal_strlit("id");
    reveal_strlit("ind");
    reveal_strlit("it");
    reveal_strlit("ita");
    reveal_strlit("iw");
    reveal_strlit("ja");
    reveal_strlit("jpn");
    reveal_strlit("ko");
    reveal_strlit("kor");
    reveal_strlit("may");
    reveal_strlit("ms");
    reveal_strlit("msa");
    reveal_strlit("nl");
    reveal_strlit("nld");
    reveal_strlit("no");
    reveal_strlit("nor");
    reveal_strlit("pl");
    reveal_strlit("pol");
    reveal_strlit("por");
    reveal_strlit("pt");
    reveal_strlit("pt-br");
    reveal_strlit("pt_br");
    reveal_strlit("ro");
    reveal_strlit("ron");
    reveal_strlit("ru");
    reveal_strlit("rum");
    reveal_strlit("rus");
    reveal_strlit("sk");
    reveal_strlit("sl");
    reveal_strlit("slk");
    reveal_strlit("slo");
    reveal_strlit("slv");
    reveal_strlit("spa");
    reveal_strlit("sr");
    reveal_strlit("srp");
    reveal_strlit("sv");
    reveal_strlit("swe");
    reveal_strlit("th");
    reveal_strlit("tha");
    reveal_strlit("tr");
    reveal_strlit("tur");
    reveal_strlit("uk");
    reveal_strlit("ukr");
    reveal_strlit("vi");
    reveal_strlit("vie");
    reveal_strlit("zh");
    reveal_strlit("zh-hans");
    reveal_strlit("zh-hant");
    reveal_strlit("zh-hk");
    reveal_strlit("zh-sg");
    reveal_strlit("zh_cn");
    reveal_strlit("zh_tw");
    reveal_strlit("zho");

    match l {
        Language::English => {
            assert(known_language("eng"@) == Some(Language::English));
            assert("en-us"@.len() != "eng"@.len());
            assert("en-us"@.len() != "en"@.len());
            assert(known_language("en-us"@) == Some(Language::English));
            assert("en_us"@.len() != "eng"@.len());
            assert("en_us"@.len() != "en"@.len());
            assert(known_language("en_us"@) == Some(Language::English));
            assert("en-br"@.len() != "eng"@.len());
            assert("en-br"@.len() != "en"@.len());
            assert(known_language("en-br"@) == Some(Language::English));
            assert("en_br"@.len() != "eng"@.len());
            assert("en_br"@.len() != "en"@.len());
            assert(known_language("en_br"@) == Some(Language::English));
            assert(regional_codes(l) =~= seq!["en-us"@, "en_us"@, "en-br"@, "en_br"@]);
        },
        Language::Japanese => {
            assert("jpn"@[0] != "eng"@[0]);
            assert(known_language("jpn"@) == Some(Language::Japanese));
        },
        Language::German => {
            assert("ger"@[0] != "eng"@[0]);
            assert("ger"@[0] != "jpn"@[0]);
            assert(known_language("ger"@) == Some(Language::German));
            assert("deu"@[0] != "eng"@[0]);
            assert("deu"@[0] != "jpn"@[0]);
            assert(known_language("deu"@) == Some(Language::German));
        },
        Language::French => {
            assert("fre"@[0] != "eng"@[0]);
            assert("fre"@[0] != "jpn"@[0]);
            assert("fre"@[0] != "deu"@[0]);
            assert("fre"@[0] != "ger"@[0]);
            assert(known_language("fre"@) == Some(Language::French));
            assert("fra"@[0] != "eng"@[0]);
            assert("fra"@[0] != "jpn"@[0]);
            assert("fra"@[0] != "deu"@[0]);
            assert("fra"@[0] != "ger"@[0]);
            assert(known_language("fra"@) == Some(Language::French));
        },
        Language::Italian => {
            assert("ita"@[0] != "eng"@[0]);
            assert("ita"@[0] != "jpn"@[0]);
            assert("ita"@[0] != "deu"@[0]);
            assert("ita"@[0] != "ger"@[0]);
            assert("ita"@[0] != "fra"@[0]);
            assert("ita"@[0] != "fre"@[0]);
            assert(known_language("ita"@) == Some(Language::Italian));
        },
        Language::Spanish => {
            assert("spa"@[0] != "eng"@[0]);
            assert("spa"@[0] != "jpn"@[0]);
            assert("spa"@[0] != "deu"@[0]);
            assert("spa"@[0] != "ger"@[0]);
            assert("spa"@[0] != "fra"@[0]);
            assert("spa"@[0] != "fre"@[0]);
            assert("spa"@[0] != "ita"@[0]);
            assert(known_language("spa"@) == Some(Language::Spanish));
        },
        Language::Portuguese => {
            assert("por"@[0] != "eng"@[0]);
            assert("por"@[0] != "jpn"@[0]);
            assert("por"@[0] != "deu"@[0]);
            assert("por"@[0] != "ger"@[0]);
            assert("por"@[0] != "fra"@[0]);
            assert("por"@[0] != "fre"@[0]);
            assert("por"@[0] != "ita"@[0]);
            assert("por"@[0] != "spa"@[0]);
            assert(known_language("por"@) == Some(Language::Portuguese));
        },
        Language::Portuguese_BR => {
            assert("pt_br"@[0] != "en-us"@[0]);
            assert("pt_br"@[0] != "en_us"@[0]);
            assert("pt_br"@[0] != "en-br"@[0]);
            assert("pt_br"@[0] != "en_br"@[0]);
            assert("pt_br"@.len() != "pt"@.len());
            assert("pt_br"@.len() != "por"@.len());
            assert("pt_br"@.len() != "pt"@.len());
            assert(known_language("pt_br"@) == Some(Language::Portuguese_BR));
            assert(regional_codes(l) =~= seq!["pt_br"@]);
        },
        Language::Chinese => {
            assert("chi"@[0] != "eng"@[0]);
            assert("chi"@[0] != "jpn"@[0]);
            assert("chi"@[0] != "deu"@[0]);
            assert("chi"@[0] != "ger"@[0]);
            assert("chi"@[0] != "fra"@[0]);
            assert("chi"@[0] != "fre"@[0]);
            assert("chi"@[0] != "ita"@[0]);
            assert("chi"@[0] != "spa"@[0]);
            assert("chi"@[0] != "por"@[0]);
            assert(known_language("chi"@) == Some(Language::Chinese));
            assert("zho"@[0] != "eng"@[0]);
            assert("zho"@[0] != "jpn"@[0]);
            assert("zho"@[0] != "deu"@[0]);
            assert("zho"@[0] != "ger"@[0]);
            assert("zho"@[0] != "fra"@[0]);
            assert("zho"@[0] != "fre"@[0]);
            assert("zho"@[0] != "ita"@[0]);
            assert("zho"@[0] != "spa"@[0]);
            assert("zho"@[0] != "por"@[0]);
            assert(known_language("zho"@) == Some(Language::Chinese));
        },
        Language::Chinese_Hans => {
            assert("zh_cn"@[0] != "en-us"@[0]);
            assert("zh_cn"@[0] != "en_us"@[0]);
            assert("zh_cn"@[0] != "en-br"@[0]);
            assert("zh_cn"@[0] != "en_br"@[0]);
            assert("zh_cn"@[0] != "pt-br"@[0]);
            assert("zh_cn"@[0] != "pt_br"@[0]);
            assert("zh_cn"@.len() != "zh"@.len());
            assert("zh_cn"@.len() != "zho"@.len());
            assert("zh_cn"@.len() != "zh"@.len());
            assert("zh_cn"@.len() != "zh-hans"@.len());
            assert(known_language("zh_cn"@) == Some(Language::Chinese_Hans));
            assert("zh-sg"@[0] != "en-us"@[0]);
            assert("zh-sg"@[0] != "en_us"@[0]);
            assert("zh-sg"@[0] != "en-br"@[0]);
            assert("zh-sg"@[0] != "en_br"@[0]);
            assert("zh-sg"@[0] != "pt-br"@[0]);
            assert("zh-sg"@[0] != "pt_br"@[0]);
            assert("zh-sg"@.len() != "zho"@.len());
            assert("zh-sg"@.len() != "zh"@.len());
            assert("zh-sg"@.len() != "zh-hans"@.len());
            assert(known_language("zh-sg"@) == Some(Language::Chinese_Hans));
            assert(regional_codes(l) =~= seq!["zh_cn"@, "zh-sg"@]);
        },
        Language::Chinese_Hant => {
            assert("zh_tw"@[0] != "en-us"@[0]);
            assert("zh_tw"@[0] != "en_us"@[0]);
            assert("zh_tw"@[0] != "en-br"@[0]);
            assert("zh_tw"@[0] != "en_br"@[0]);
            assert("zh_tw"@[0] != "pt-br"@[0]);
            assert("zh_tw"@[0] != "pt_br"@[0]);
            assert("zh_tw"@[3] != "zh_cn"@[3]);
            assert("zh_tw"@[2] != "zh-sg"@[2]);
            assert("zh_tw"@.len() != "zho"@.len());
            assert("zh_tw"@.len() != "zh"@.len());
            assert("zh_tw"@.len() != "zh-hans"@.len());
            assert("zh_tw"@.len() != "zh-hant"@.len());
            assert(known_language("zh_tw"@) == Some(Language::Chinese_Hant));
            assert("zh-hk"@[0] != "en-us"@[0]);
            assert("zh-hk"@[0] != "en_us"@[0]);
            assert("zh-hk"@[0] != "en-br"@[0]);
            assert("zh-hk"@[0] != "en_br"@[0]);
            assert("zh-hk"@[0] != "pt-br"@[0]);
            assert("zh-hk"@[0] != "pt_br"@[0]);
            assert("zh-hk"@[2] != "zh_cn"@[2]);
            assert("zh-hk"@[3] != "zh-sg"@[3]);
            assert("zh-hk"@.len() != "zho"@.len());
            assert("zh-hk"@.len() != "zh"@.len());
            assert("zh-hk"@.len() != "zh-hans"@.len());
            assert("zh-hk"@.len() != "zh-hant"@.len());
            assert(known_language("zh-hk"@) == Some(Language::Chinese_Hant));
            assert(regional_codes(l) =~= seq!["zh_tw"@, "zh-hk"@]);
        },
        Language::Korean => {
            assert("kor"@[0] != "eng"@[0]);
            assert("kor"@[0] != "jpn"@[0]);
            assert("kor"@[0] != "deu"@[0]);
            assert("kor"@[0] != "ger"@[0]);
            assert("kor"@[0] != "fra"@[0]);
            assert("kor"@[0] != "fre"@[0]);
            assert("kor"@[0] != "ita"@[0]);
            assert("kor"@[0] != "spa"@[0]);
            assert("kor"@[0] != "por"@[0]);
            assert("kor"@[0] != "zho"@[0]);
            assert("kor"@[0] != "chi"@[0]);
            assert(known_language("kor"@) == Some(Language::Korean));
        },
        Language::Russian => {
            assert("rus"@[0] != "eng"@[0]);
            assert("rus"@[0] != "jpn"@[0]);
            assert("rus"@[0] != "deu"@[0]);
            assert("rus"@[0] != "ger"@[0]);
            assert("rus"@[0] != "fra"@[0]);
            assert("rus"@[0] != "fre"@[0]);
            assert("rus"@[0] != "ita"@[0]);
            assert("rus"@[0] != "spa"@[0]);
            assert("rus"@[0] != "por"@[0]);
            assert("rus"@[0] != "zho"@[0]);
            assert("rus"@[0] != "chi"@[0]);
            assert("rus"@[0] != "kor"@[0]);
            assert(known_language("rus"@) == Some(Language::Russian));
        },
        Language::Ukrainian => {
            assert("ukr"@[0] != "eng"@[0]);
            assert("ukr"@[0] != "jpn"@[0]);
            assert("ukr"@[0] != "deu"@[0]);
            assert("ukr"@[0] != "ger"@[0]);
            assert("ukr"@[0] != "fra"@[0]);
            assert("ukr"@[0] != "fre"@[0]);
            assert("ukr"@[0] != "ita"@[0]);
            assert("ukr"@[0] != "spa"@[0]);
            assert("ukr"@[0] != "por"@[0]);
            assert("ukr"@[0] != "zho"@[0]);
            assert("ukr"@[0] != "chi"@[0]);
            assert("ukr"@[0] != "kor"@[0]);
            assert("ukr"@[0] != "rus"@[0]);
            assert(known_language("ukr"@) == Some(Language::Ukrainian));
        },
        Language::Polish => {
            assert("pol"@[0] != "eng"@[0]);
            assert("pol"@[0] != "jpn"@[0]);
            assert("pol"@[0] != "deu"@[0]);
            assert("pol"@[0] != "ger"@[0]);
            assert("pol"@[0] != "fra"@[0]);
            assert("pol"@[0] != "fre"@[0]);
            assert("pol"@[0] != "ita"@[0]);
            assert("pol"@[0] != "spa"@[0]);
            assert("pol"@[2] != "por"@[2]);
            assert("pol"@[0] != "zho"@[0]);
            assert("pol"@[0] != "chi"@[0]);
            assert("pol"@[0] != "kor"@[0]);
            assert("pol"@[0] != "rus"@[0]);
            assert("pol"@[0] != "ukr"@[0]);
            assert("pol"@.len() != "pt"@.len());
            assert("pol"@.len() != "pt-br"@.len());
            assert("pol"@.len() != "pt_br"@.len());
            assert(known_language("pol"@) == Some(Language::Polish));
        },
        Language::Czech => {
            assert("cze"@[0] != "eng"@[0]);
            assert("cze"@[0] != "jpn"@[0]);
            assert("cze"@[0] != "deu"@[0]);
            assert("cze"@[0] != "ger"@[0]);
            assert("cze"@[0] != "fra"@[0]);
            assert("cze"@[0] != "fre"@[0]);
            assert("cze"@[0] != "ita"@[0]);
            assert("cze"@[0] != "spa"@[0]);
            assert("cze"@[0] != "por"@[0]);
            assert("cze"@[0] != "zho"@[0]);
            assert("cze"@[1] != "chi"@[1]);
            assert("cze"@[0] != "kor"@[0]);
            assert("cze"@[0] != "rus"@[0]);
            assert("cze"@[0] != "ukr"@[0]);
            assert("cze"@[0] != "pol"@[0]);
            assert(known_language("cze"@) == Some(Language::Czech));
            assert("ces"@[0] != "eng"@[0]);
            assert("ces"@[0] != "jpn"@[0]);
            assert("ces"@[0] != "deu"@[0]);
            assert("ces"@[0] != "ger"@[0]);
            assert("ces"@[0] != "fra"@[0]);
            assert("ces"@[0] != "fre"@[0]);
            assert("ces"@[0] != "ita"@[0]);
            assert("ces"@[0] != "spa"@[0]);
            assert("ces"@[0] != "por"@[0]);
            assert("ces"@[0] != "zho"@[0]);
            assert("ces"@[1] != "chi"@[1]);
            assert("ces"@[0] != "kor"@[0]);
            assert("ces"@[0] != "rus"@[0]);
            assert("ces"@[0] != "ukr"@[0]);
            assert("ces"@[0] != "pol"@[0]);
            assert(known_language("ces"@) == Some(Language::Czech));
        },
        Language::Slovak => {
            assert("slo"@[0] != "eng"@[0]);
            assert("slo"@[0] != "jpn"@[0]);
            assert("slo"@[0] != "deu"@[0]);
            assert("slo"@[0] != "ger"@[0]);
            assert("slo"@[0] != "fra"@[0]);
            assert("slo"@[0] != "fre"@[0]);
            assert("slo"@[0] != "ita"@[0]);
            assert("slo"@[1] != "spa"@[1]);
            assert("slo"@[0] != "por"@[0]);
            assert("slo"@[0] != "zho"@[0]);
            assert("slo"@[0] != "chi"@[0]);
            assert("slo"@[0] != "kor"@[0]);
            assert("slo"@[0] != "rus"@[0]);
            assert("slo"@[0] != "ukr"@[0]);
            assert("slo"@[0] != "pol"@[0]);
            assert("slo"@[0] != "ces"@[0]);
            assert("slo"@[0] != "cze"@[0]);
            assert(known_language("slo"@) == Some(Language::Slovak));
            assert("slk"@[0] != "eng"@[0]);
            assert("slk"@[0] != "jpn"@[0]);
            assert("slk"@[0] != "deu"@[0]);
            assert("slk"@[0] != "ger"@[0]);
            assert("slk"@[0] != "fra"@[0]);
            assert("slk"@[0] != "fre"@[0]);
            assert("slk"@[0] != "ita"@[0]);
            assert("slk"@[1] != "spa"@[1]);
            assert("slk"@[0] != "por"@[0]);
            assert("slk"@[0] != "zho"@[0]);
            assert("slk"@[0] != "chi"@[0]);
            assert("slk"@[0] != "kor"@[0]);
            assert("slk"@[0] != "rus"@[0]);
            assert("slk"@[0] != "ukr"@[0]);
            assert("slk"@[0] != "pol"@[0]);
            assert("slk"@[0] != "ces"@[0]);
            assert("slk"@[0] != "cze"@[0]);
            assert(known_language("slk"@) == Some(Language::Slovak));
        },
        Language::Bulgarian => {
            assert("bul"@[0] != "eng"@[0]);
            assert("bul"@[0] != "jpn"@[0]);
            assert("bul"@[0] != "deu"@[0]);
            assert("bul"@[0] != "ger"@[0]);
            assert("bul"@[0] != "fra"@[0]);
            assert("bul"@[0] != "fre"@[0]);
            assert("bul"@[0] != "ita"@[0]);
            assert("bul"@[0] != "spa"@[0]);
            assert("bul"@[0] != "por"@[0]);
            assert("bul"@[0] != "zho"@[0]);
            assert("bul"@[0] != "chi"@[0]);
            assert("bul"@[0] != "kor"@[0]);
            assert("bul"@[0] != "rus"@[0]);
            assert("bul"@[0] != "ukr"@[0]);
            assert("bul"@[0] != "pol"@[0]);
            assert("bul"@[0] != "ces"@[0]);
            assert("bul"@[0] != "cze"@[0]);
            assert("bul"@[0] != "slk"@[0]);
            assert("bul"@[0] != "slo"@[0]);
            assert(known_language("bul"@) == Some(Language::Bulgarian));
        },
        Language::Croatian => {
            assert("hrv"@[0] != "eng"@[0]);
            assert("hrv"@[0] != "jpn"@[0]);
            assert("hrv"@[0] != "deu"@[0]);
            assert("hrv"@[0] != "ger"@[0]);
            assert("hrv"@[0] != "fra"@[0]);
            assert("hrv"@[0] != "fre"@[0]);
            assert("hrv"@[0] != "ita"@[0]);
            assert("hrv"@[0] != "spa"@[0]);
            assert("hrv"@[0] != "por"@[0]);
            assert("hrv"@[0] != "zho"@[0]);
            assert("hrv"@[0] != "chi"@[0]);
            assert("hrv"@[0] != "kor"@[0]);
            assert("hrv"@[0] != "rus"@[0]);
            assert("hrv"@[0] != "ukr"@[0]);
            assert("hrv"@[0] != "pol"@[0]);
            assert("hrv"@[0] != "ces"@[0]);
            assert("hrv"@[0] != "cze"@[0]);
            assert("hrv"@[0] != "slk"@[0]);
            assert("hrv"@[0] != "slo"@[0]);
            assert("hrv"@[0] != "bul"@[0]);
            assert(known_language("hrv"@) == Some(Language::Croatian));
        },
        Language::Serbian => {
            assert("srp"@[0] != "eng"@[0]);
            assert("srp"@[0] != "jpn"@[0]);
            assert("srp"@[0] != "deu"@[0]);
            assert("srp"@[0] != "ger"@[0]);
            assert("srp"@[0] != "fra"@[0]);
            assert("srp"@[0] != "fre"@[0]);
            assert("srp"@[0] != "ita"@[0]);
            assert("srp"@[1] != "spa"@[1]);
            assert("srp"@[0] != "por"@[0]);
            assert("srp"@[0] != "zho"@[0]);
            assert("srp"@[0] != "chi"@[0]);
            assert("srp"@[0] != "kor"@[0]);
            assert("srp"@[0] != "rus"@[0]);
            assert("srp"@[0] != "ukr"@[0]);
            assert("srp"@[0] != "pol"@[0]);
            assert("srp"@[0] != "ces"@[0]);
            assert("srp"@[0] != "cze"@[0]);
            assert("srp"@[1] != "slk"@[1]);
            assert("srp"@[1] != "slo"@[1]);
            assert("srp"@[0] != "bul"@[0]);
            assert("srp"@[0] != "hrv"@[0]);
            assert("srp"@.len() != "sk"@.len());
            assert(known_language("srp"@) == Some(Language::Serbian));
        },
        Language::Slovenian => {
            assert("slv"@[0] != "eng"@[0]);
            assert("slv"@[0] != "jpn"@[0]);
            assert("slv"@[0] != "deu"@[0]);
            assert("slv"@[0] != "ger"@[0]);
            assert("slv"@[0] != "fra"@[0]);
            assert("slv"@[0] != "fre"@[0]);
            assert("slv"@[0] != "ita"@[0]);
            assert("slv"@[1] != "spa"@[1]);
            assert("slv"@[0] != "por"@[0]);
            assert("slv"@[0] != "zho"@[0]);
            assert("slv"@[0] != "chi"@[0]);
            assert("slv"@[0] != "kor"@[0]);
            assert("slv"@[0] != "rus"@[0]);
            assert("slv"@[0] != "ukr"@[0]);
            assert("slv"@[0] != "pol"@[0]);
            assert("slv"@[0] != "ces"@[0]);
            assert("slv"@[0] != "cze"@[0]);
            assert("slv"@[2] != "slk"@[2]);
            assert("slv"@[2] != "slo"@[2]);
            assert("slv"@[0] != "bul"@[0]);
            assert("slv"@[0] != "hrv"@[0]);
            assert("slv"@[1] != "srp"@[1]);
            assert("slv"@.len() != "sk"@.len());
            assert("slv"@.len() != "sr"@.len());
            assert(known_language("slv"@) == Some(Language::Slovenian));
        },
        Language::Dutch => {
            assert("dut"@[0] != "eng"@[0]);
            assert("dut"@[0] != "jpn"@[0]);
            assert("dut"@[1] != "deu"@[1]);
            assert("dut"@[0] != "ger"@[0]);
            assert("dut"@[0] != "fra"@[0]);
            assert("dut"@[0] != "fre"@[0]);
            assert("dut"@[0] != "ita"@[0]);
            assert("dut"@[0] != "spa"@[0]);
            assert("dut"@[0] != "por"@[0]);
            assert("dut"@[0] != "zho"@[0]);
            assert("dut"@[0] != "chi"@[0]);
            assert("dut"@[0] != "kor"@[0]);
            assert("dut"@[0] != "rus"@[0]);
            assert("dut"@[0] != "ukr"@[0]);
            assert("dut"@[0] != "pol"@[0]);
            assert("dut"@[0] != "ces"@[0]);
            assert("dut"@[0] != "cze"@[0]);
            assert("dut"@[0] != "slk"@[0]);
            assert("dut"@[0] != "slo"@[0]);
            assert("dut"@[0] != "bul"@[0]);
            assert("dut"@[0] != "hrv"@[0]);
            assert("dut"@[0] != "srp"@[0]);
            assert("dut"@[0] != "slv"@[0]);
            assert("dut"@.len() != "de"@.len());
            assert(known_language("dut"@) == Some(Language::Dutch));
            assert("nld"@[0] != "eng"@[0]);
            assert("nld"@[0] != "jpn"@[0]);
            assert("nld"@[0] != "deu"@[0]);
            assert("nld"@[0] != "ger"@[0]);
            assert("nld"@[0] != "fra"@[0]);
            assert("nld"@[0] != "fre"@[0]);
            assert("nld"@[0] != "ita"@[0]);
            assert("nld"@[0] != "spa"@[0]);
            assert("nld"@[0] != "por"@[0]);
            assert("nld"@[0] != "zho"@[0]);
            assert("nld"@[0] != "chi"@[0]);
            assert("nld"@[0] != "kor"@[0]);
            assert("nld"@[0] != "rus"@[0]);
            assert("nld"@[0] != "ukr"@[0]);
            assert("nld"@[0] != "pol"@[0]);
            assert("nld"@[0] != "ces"@[0]);
            assert("nld"@[0] != "cze"@[0]);
            assert("nld"@[0] != "slk"@[0]);
            assert("nld"@[0] != "slo"@[0]);
            assert("nld"@[0] != "bul"@[0]);
            assert("nld"@[0] != "hrv"@[0]);
            assert("nld"@[0] != "srp"@[0]);
            assert("nld"@[0] != "slv"@[0]);
            assert(known_language("nld"@) == Some(Language::Dutch));
        },
        Language::Swedish => {
            assert("swe"@[0] != "eng"@[0]);
            assert("swe"@[0] != "jpn"@[0]);
            assert("swe"@[0] != "deu"@[0]);
            assert("swe"@[0] != "ger"@[0]);
            assert("swe"@[0] != "fra"@[0]);
            assert("swe"@[0] != "fre"@[0]);
            assert("swe"@[0] != "ita"@[0]);
            assert("swe"@[1] != "spa"@[1]);
            assert("swe"@[0] != "por"@[0]);
            assert("swe"@[0] != "zho"@[0]);
            assert("swe"@[0] != "chi"@[0]);
            assert("swe"@[0] != "kor"@[0]);
            assert("swe"@[0] != "rus"@[0]);
            assert("swe"@[0] != "ukr"@[0]);
            assert("swe"@[0] != "pol"@[0]);
            assert("swe"@[0] != "ces"@[0]);
            assert("swe"@[0] != "cze"@[0]);
            assert("swe"@[1] != "slk"@[1]);
            assert("swe"@[1] != "slo"@[1]);
            assert("swe"@[0] != "bul"@[0]);
            assert("swe"@[0] != "hrv"@[0]);
            assert("swe"@[1] != "srp"@[1]);
            assert("swe"@[1] != "slv"@[1]);
            assert("swe"@[0] != "nld"@[0]);
            assert("swe"@[0] != "dut"@[0]);
            assert("swe"@.len() != "sk"@.len());
            assert("swe"@.len() != "sr"@.len());
            assert("swe"@.len() != "sl"@.len());
            assert(known_language("swe"@) == Some(Language::Swedish));
        },
        Language::Norwegian => {
            assert("nor"@[0] != "eng"@[0]);
            assert("nor"@[0] != "jpn"@[0]);
            assert("nor"@[0] != "deu"@[0]);
            assert("nor"@[0] != "ger"@[0]);
            assert("nor"@[0] != "fra"@[0]);
            assert("nor"@[0] != "fre"@[0]);
            assert("nor"@[0] != "ita"@[0]);
            assert("nor"@[0] != "spa"@[0]);
            assert("nor"@[0] != "por"@[0]);
            assert("nor"@[0] != "zho"@[0]);
            assert("nor"@[0] != "chi"@[0]);
            assert("nor"@[0] != "kor"@[0]);
            assert("nor"@[0] != "rus"@[0]);
            assert("nor"@[0] != "ukr"@[0]);
            assert("nor"@[0] != "pol"@[0]);
            assert("nor"@[0] != "ces"@[0]);
            assert("nor"@[0] != "cze"@[0]);
            assert("nor"@[0] != "slk"@[0]);
            assert("nor"@[0] != "slo"@[0]);
            assert("nor"@[0] != "bul"@[0]);
            assert("nor"@[0] != "hrv"@[0]);
            assert("nor"@[0] != "srp"@[0]);
            assert("nor"@[0] != "slv"@[0]);
            assert("nor"@[1] != "nld"@[1]);
            assert("nor"@[0] != "dut"@[0]);
            assert("nor"@[0] != "swe"@[0]);
            assert("nor"@.len() != "nl"@.len());
            assert(known_language("nor"@) == Some(Language::Norwegian));
        },
        Language::Danish => {
            assert("dan"@[0] != "eng"@[0]);
            assert("dan"@[0] != "jpn"@[0]);
            assert("dan"@[1] != "deu"@[1]);
            assert("dan"@[0] != "ger"@[0]);
            assert("dan"@[0] != "fra"@[0]);
            assert("dan"@[0] != "fre"@[0]);
            assert("dan"@[0] != "ita"@[0]);
            assert("dan"@[0] != "spa"@[0]);
            assert("dan"@[0] != "por"@[0]);
            assert("dan"@[0] != "zho"@[0]);
            assert("dan"@[0] != "chi"@[0]);
            assert("dan"@[0] != "kor"@[0]);
            assert("dan"@[0] != "rus"@[0]);
            assert("dan"@[0] != "ukr"@[0]);
            assert("dan"@[0] != "pol"@[0]);
            assert("dan"@[0] != "ces"@[0]);
            assert("dan"@[0] != "cze"@[0]);
            assert("dan"@[0] != "slk"@[0]);
            assert("dan"@[0] != "slo"@[0]);
            assert("dan"@[0] != "bul"@[0]);
            assert("dan"@[0] != "hrv"@[0]);
            assert("dan"@[0] != "srp"@[0]);
            assert("dan"@[0] != "slv"@[0]);
            assert("dan"@[0] != "nld"@[0]);
            assert("dan"@[1] != "dut"@[1]);
            assert("dan"@[0] != "swe"@[0]);
            assert("dan"@[0] != "nor"@[0]);
            assert("dan"@.len() != "de"@.len());
            assert(known_language("dan"@) == Some(Language::Danish));
        },
        Language::Finnish => {
            assert("fin"@[0] != "eng"@[0]);
            assert("fin"@[0] != "jpn"@[0]);
            assert("fin"@[0] != "deu"@[0]);
            assert("fin"@[0] != "ger"@[0]);
            assert("fin"@[1] != "fra"@[1]);
            assert("fin"@[1] != "fre"@[1]);
            assert("fin"@[0] != "ita"@[0]);
            assert("fin"@[0] != "spa"@[0]);
            assert("fin"@[0] != "por"@[0]);
            assert("fin"@[0] != "zho"@[0]);
            assert("fin"@[0] != "chi"@[0]);
            assert("fin"@[0] != "kor"@[0]);
            assert("fin"@[0] != "rus"@[0]);
            assert("fin"@[0] != "ukr"@[0]);
            assert("fin"@[0] != "pol"@[0]);
            assert("fin"@[0] != "ces"@[0]);
            assert("fin"@[0] != "cze"@[0]);
            assert("fin"@[0] != "slk"@[0]);
            assert("fin"@[0] != "slo"@[0]);
            assert("fin"@[0] != "bul"@[0]);
            assert("fin"@[0] != "hrv"@[0]);
            assert("fin"@[0] != "srp"@[0]);
            assert("fin"@[0] != "slv"@[0]);
            assert("fin"@[0] != "nld"@[0]);
            assert("fin"@[0] != "dut"@[0]);
            assert("fin"@[0] != "swe"@[0]);
            assert("fin"@[0] != "nor"@[0]);
            assert("fin"@[0] != "dan"@[0]);
            assert("fin"@.len() != "fr"@.len());
            assert(known_language("fin"@) == Some(Language::Finnish));
        },
        Language::Turkish => {
            assert("tur"@[0] != "eng"@[0]);
            assert("tur"@[0] != "jpn"@[0]);
            assert("tur"@[0] != "deu"@[0]);
            assert("tur"@[0] != "ger"@[0]);
            assert("tur"@[0] != "fra"@[0]);
            assert("tur"@[0] != "fre"@[0]);
            assert("tur"@[0] != "ita"@[0]);
            assert("tur"@[0] != "spa"@[0]);
            assert("tur"@[0] != "por"@[0]);
            assert("tur"@[0] != "zho"@[0]);
            assert("tur"@[0] != "chi"@[0]);
            assert("tur"@[0] != "kor"@[0]);
            assert("tur"@[0] != "rus"@[0]);
            assert("tur"@[0] != "ukr"@[0]);
            assert("tur"@[0] != "pol"@[0]);
            assert("tur"@[0] != "ces"@[0]);
            assert("tur"@[0] != "cze"@[0]);
            assert("tur"@[0] != "slk"@[0]);
            assert("tur"@[0] != "slo"@[0]);
            assert("tur"@[0] != "bul"@[0]);
            assert("tur"@[0] != "hrv"@[0]);
            assert("tur"@[0] != "srp"@[0]);
            assert("tur"@[0] != "slv"@[0]);
            assert("tur"@[0] != "nld"@[0]);
            assert("tur"@[0] != "dut"@[0]);
            assert("tur"@[0] != "swe"@[0]);
            assert("tur"@[0] != "nor"@[0]);
            assert("tur"@[0] != "dan"@[0]);
            assert("tur"@[0] != "fin"@[0]);
            assert(known_language("tur"@) == Some(Language::Turkish));
        },
        Language::Greek => {
            assert("gre"@[0] != "eng"@[0]);
            assert("gre"@[0] != "jpn"@[0]);
            assert("gre"@[0] != "deu"@[0]);
            assert("gre"@[1] != "ger"@[1]);
            assert("gre"@[0] != "fra"@[0]);
            assert("gre"@[0] != "fre"@[0]);
            assert("gre"@[0] != "ita"@[0]);
            assert("gre"@[0] != "spa"@[0]);
            assert("gre"@[0] != "por"@[0]);
            assert("gre"@[0] != "zho"@[0]);
            assert("gre"@[0] != "chi"@[0]);
            assert("gre"@[0] != "kor"@[0]);
            assert("gre"@[0] != "rus"@[0]);
            assert("gre"@[0] != "ukr"@[0]);
            assert("gre"@[0] != "pol"@[0]);
            assert("gre"@[0] != "ces"@[0]);
            assert("gre"@[0] != "cze"@[0]);
            assert("gre"@[0] != "slk"@[0]);
            assert("gre"@[0] != "slo"@[0]);
            assert("gre"@[0] != "bul"@[0]);
            assert("gre"@[0] != "hrv"@[0]);
            assert("gre"@[0] != "srp"@[0]);
            assert("gre"@[0] != "slv"@[0]);
            assert("gre"@[0] != "nld"@[0]);
            assert("gre"@[0] != "dut"@[0]);
            assert("gre"@[0] != "swe"@[0]);
            assert("gre"@[0] != "nor"@[0]);
            assert("gre"@[0] != "dan"@[0]);
            assert("gre"@[0] != "fin"@[0]);
            assert("gre"@[0] != "tur"@[0]);
            assert(known_language("gre"@) == Some(Language::Greek));
            assert("ell"@[1] != "eng"@[1]);
            assert("ell"@[0] != "jpn"@[0]);
            assert("ell"@[0] != "deu"@[0]);
            assert("ell"@[0] != "ger"@[0]);
            assert("ell"@[0] != "fra"@[0]);
            assert("ell"@[0] != "fre"@[0]);
            assert("ell"@[0] != "ita"@[0]);
            assert("ell"@[0] != "spa"@[0]);
            assert("ell"@[0] != "por"@[0]);
            assert("ell"@[0] != "zho"@[0]);
            assert("ell"@[0] != "chi"@[0]);
            assert("ell"@[0] != "kor"@[0]);
            assert("ell"@[0] != "rus"@[0]);
            assert("ell"@[0] != "ukr"@[0]);
            assert("ell"@[0] != "pol"@[0]);
            assert("ell"@[0] != "ces"@[0]);
            assert("ell"@[0] != "cze"@[0]);
            assert("ell"@[0] != "slk"@[0]);
            assert("ell"@[0] != "slo"@[0]);
            assert("ell"@[0] != "bul"@[0]);
            assert("ell"@[0] != "hrv"@[0]);
            assert("ell"@[0] != "srp"@[0]);
            assert("ell"@[0] != "slv"@[0]);
            assert("ell"@[0] != "nld"@[0]);
            assert("ell"@[0] != "dut"@[0]);
            assert("ell"@[0] != "swe"@[0]);
            assert("ell"@[0] != "nor"@[0]);
            assert("ell"@[0] != "dan"@[0]);
            assert("ell"@[0] != "fin"@[0]);
            assert("ell"@[0] != "tur"@[0]);
            assert("ell"@.len() != "en"@.len());
            assert("ell"@.len() != "en-us"@.len());
            assert("ell"@.len() != "en_us"@.len());
            assert("ell"@.len() != "en-br"@.len());
            assert("ell"@.len() != "en_br"@.len());
            assert("ell"@.len() != "es"@.len());
            assert(known_language("ell"@) == Some(Language::Greek));
        },
        Language::Hebrew => {
            assert("heb"@[0] != "eng"@[0]);
            assert("heb"@[0] != "jpn"@[0]);
            assert("heb"@[0] != "deu"@[0]);
            assert("heb"@[0] != "ger"@[0]);
            assert("heb"@[0] != "fra"@[0]);
            assert("heb"@[0] != "fre"@[0]);
            assert("heb"@[0] != "ita"@[0]);
            assert("heb"@[0] != "spa"@[0]);
            assert("heb"@[0] != "por"@[0]);
            assert("heb"@[0] != "zho"@[0]);
            assert("heb"@[0] != "chi"@[0]);
            assert("heb"@[0] != "kor"@[0]);
            assert("heb"@[0] != "rus"@[0]);
            assert("heb"@[0] != "ukr"@[0]);
            assert("heb"@[0] != "pol"@[0]);
            assert("heb"@[0] != "ces"@[0]);
            assert("heb"@[0] != "cze"@[0]);
            assert("heb"@[0] != "slk"@[0]);
            assert("heb"@[0] != "slo"@[0]);
            assert("heb"@[0] != "bul"@[0]);
            assert("heb"@[1] != "hrv"@[1]);
            assert("heb"@[0] != "srp"@[0]);
            assert("heb"@[0] != "slv"@[0]);
            assert("heb"@[0] != "nld"@[0]);
            assert("heb"@[0] != "dut"@[0]);
            assert("heb"@[0] != "swe"@[0]);
            assert("heb"@[0] != "nor"@[0]);
            assert("heb"@[0] != "dan"@[0]);
            assert("heb"@[0] != "fin"@[0]);
            assert("heb"@[0] != "tur"@[0]);
            assert("heb"@[0] != "ell"@[0]);
            assert("heb"@[0] != "gre"@[0]);
            assert("heb"@.len() != "hr"@.len());
            assert(known_language("heb"@) == Some(Language::Hebrew));
            assert("iw"@[0] != "en"@[0]);
            assert("iw"@[0] != "ja"@[0]);
            assert("iw"@[0] != "de"@[0]);
            assert("iw"@[0] != "fr"@[0]);
            assert("iw"@[1] != "it"@[1]);
            assert("iw"@[0] != "es"@[0]);
            assert("iw"@[0] != "pt"@[0]);
            assert("iw"@[0] != "zh"@[0]);
            assert("iw"@[0] != "ko"@[0]);
            assert("iw"@[0] != "ru"@[0]);
            assert("iw"@[0] != "uk"@[0]);
            assert("iw"@[0] != "pl"@[0]);
            assert("iw"@[0] != "cs"@[0]);
            assert("iw"@[0] != "sk"@[0]);
            assert("iw"@[0] != "bg"@[0]);
            assert("iw"@[0] != "hr"@[0]);
            assert("iw"@[0] != "sr"@[0]);
            assert("iw"@[0] != "sl"@[0]);
            assert("iw"@[0] != "nl"@[0]);
            assert("iw"@[0] != "sv"@[0]);
            assert("iw"@[0] != "no"@[0]);
            assert("iw"@[0] != "da"@[0]);
            assert("iw"@[0] != "fi"@[0]);
            assert("iw"@[0] != "tr"@[0]);
            assert("iw"@[0] != "el"@[0]);
            assert("iw"@.len() != "ita"@.len());
            assert(known_language("iw"@) == Some(Language::Hebrew));
            assert(regional_codes(l) =~= seq!["iw"@]);
        },
        Language::Romanian => {
            assert("rum"@[0] != "eng"@[0]);
            assert("rum"@[0] != "jpn"@[0]);
            assert("rum"@[0] != "deu"@[0]);
            assert("rum"@[0] != "ger"@[0]);
            assert("rum"@[0] != "fra"@[0]);
            assert("rum"@[0] != "fre"@[0]);
            assert("rum"@[0] != "ita"@[0]);
            assert("rum"@[0] != "spa"@[0]);
            assert("rum"@[0] != "por"@[0]);
            assert("rum"@[0] != "zho"@[0]);
            assert("rum"@[0] != "chi"@[0]);
            assert("rum"@[0] != "kor"@[0]);
            assert("rum"@[2] != "rus"@[2]);
            assert("rum"@[0] != "ukr"@[0]);
            assert("rum"@[0] != "pol"@[0]);
            assert("rum"@[0] != "ces"@[0]);
            assert("rum"@[0] != "cze"@[0]);
            assert("rum"@[0] != "slk"@[0]);
            assert("rum"@[0] != "slo"@[0]);
            assert("rum"@[0] != "bul"@[0]);
            assert("rum"@[0] != "hrv"@[0]);
            assert("rum"@[0] != "srp"@[0]);
            assert("rum"@[0] != "slv"@[0]);
            assert("rum"@[0] != "nld"@[0]);
            assert("rum"@[0] != "dut"@[0]);
            assert("rum"@[0] != "swe"@[0]);
            assert("rum"@[0] != "nor"@[0]);
            assert("rum"@[0] != "dan"@[0]);
            assert("rum"@[0] != "fin"@[0]);
            assert("rum"@[0] != "tur"@[0]);
            assert("rum"@[0] != "ell"@[0]);
            assert("rum"@[0] != "gre"@[0]);
            assert("rum"@[0] != "heb"@[0]);
            assert("rum"@.len() != "ru"@.len());
            assert(known_language("rum"@) == Some(Language::Romanian));
            assert("ron"@[0] != "eng"@[0]);
            assert("ron"@[0] != "jpn"@[0]);
            assert("ron"@[0] != "deu"@[0]);
            assert("ron"@[0] != "ger"@[0]);
            assert("ron"@[0] != "fra"@[0]);
            assert("ron"@[0] != "fre"@[0]);
            assert("ron"@[0] != "ita"@[0]);
            assert("ron"@[0] != "spa"@[0]);
            assert("ron"@[0] != "por"@[0]);
            assert("ron"@[0] != "zho"@[0]);
            assert("ron"@[0] != "chi"@[0]);
            assert("ron"@[0] != "kor"@[0]);
            assert("ron"@[1] != "rus"@[1]);
            assert("ron"@[0] != "ukr"@[0]);
            assert("ron"@[0] != "pol"@[0]);
            assert("ron"@[0] != "ces"@[0]);
            assert("ron"@[0] != "cze"@[0]);
            assert("ron"@[0] != "slk"@[0]);
            assert("ron"@[0] != "slo"@[0]);
            assert("ron"@[0] != "bul"@[0]);
            assert("ron"@[0] != "hrv"@[0]);
            assert("ron"@[0] != "srp"@[0]);
            assert("ron"@[0] != "slv"@[0]);
            assert("ron"@[0] != "nld"@[0]);
            assert("ron"@[0] != "dut"@[0]);
            assert("ron"@[0] != "swe"@[0]);
            assert("ron"@[0] != "nor"@[0]);
            assert("ron"@[0] != "dan"@[0]);
            assert("ron"@[0] != "fin"@[0]);
            assert("ron"@[0] != "tur"@[0]);
            assert("ron"@[0] != "ell"@[0]);
            assert("ron"@[0] != "gre"@[0]);
            assert("ron"@[0] != "heb"@[0]);
            assert("ron"@.len() != "ru"@.len());
            assert(known_language("ron"@) == Some(Language::Romanian));
        },
        Language::Hungarian => {
            assert("hun"@[0] != "eng"@[0]);
            assert("hun"@[0] != "jpn"@[0]);
            assert("hun"@[0] != "deu"@[0]);
            assert("hun"@[0] != "ger"@[0]);
            assert("hun"@[0] != "fra"@[0]);
            assert("hun"@[0] != "fre"@[0]);
            assert("hun"@[0] != "ita"@[0]);
            assert("hun"@[0] != "spa"@[0]);
            assert("hun"@[0] != "por"@[0]);
            assert("hun"@[0] != "zho"@[0]);
            assert("hun"@[0] != "chi"@[0]);
            assert("hun"@[0] != "kor"@[0]);
            assert("hun"@[0] != "rus"@[0]);
            assert("hun"@[0] != "ukr"@[0]);
            assert("hun"@[0] != "pol"@[0]);
            assert("hun"@[0] != "ces"@[0]);
            assert("hun"@[0] != "cze"@[0]);
            assert("hun"@[0] != "slk"@[0]);
            assert("hun"@[0] != "slo"@[0]);
            assert("hun"@[0] != "bul"@[0]);
            assert("hun"@[1] != "hrv"@[1]);
            assert("hun"@[0] != "srp"@[0]);
            assert("hun"@[0] != "slv"@[0]);
            assert("hun"@[0] != "nld"@[0]);
            assert("hun"@[0] != "dut"@[0]);
            assert("hun"@[0] != "swe"@[0]);
            assert("hun"@[0] != "nor"@[0]);
            assert("hun"@[0] != "dan"@[0]);
            assert("hun"@[0] != "fin"@[0]);
            assert("hun"@[0] != "tur"@[0]);
            assert("hun"@[0] != "ell"@[0]);
            assert("hun"@[0] != "gre"@[0]);
            assert("hun"@[1] != "heb"@[1]);
            assert("hun"@[0] != "ron"@[0]);
            assert("hun"@[0] != "rum"@[0]);
            assert("hun"@.len() != "hr"@.len());
            assert("hun"@.len() != "he"@.len());
            assert(known_language("hun"@) == Some(Language::Hungarian));
        },
        Language::Catalan => {
            assert("cat"@[0] != "eng"@[0]);
            assert("cat"@[0] != "jpn"@[0]);
            assert("cat"@[0] != "deu"@[0]);
            assert("cat"@[0] != "ger"@[0]);
            assert("cat"@[0] != "fra"@[0]);
            assert("cat"@[0] != "fre"@[0]);
            assert("cat"@[0] != "ita"@[0]);
            assert("cat"@[0] != "spa"@[0]);
            assert("cat"@[0] != "por"@[0]);
            assert("cat"@[0] != "zho"@[0]);
            assert("cat"@[1] != "chi"@[1]);
            assert("cat"@[0] != "kor"@[0]);
            assert("cat"@[0] != "rus"@[0]);
            assert("cat"@[0] != "ukr"@[0]);
            assert("cat"@[0] != "pol"@[0]);
            assert("cat"@[1] != "ces"@[1]);
            assert("cat"@[1] != "cze"@[1]);
            assert("cat"@[0] != "slk"@[0]);
            assert("cat"@[0] != "slo"@[0]);
            assert("cat"@[0] != "bul"@[0]);
            assert("cat"@[0] != "hrv"@[0]);
            assert("cat"@[0] != "srp"@[0]);
            assert("cat"@[0] != "slv"@[0]);
            assert("cat"@[0] != "nld"@[0]);
            assert("cat"@[0] != "dut"@[0]);
            assert("cat"@[0] != "swe"@[0]);
            assert("cat"@[0] != "nor"@[0]);
            assert("cat"@[0] != "dan"@[0]);
            assert("cat"@[0] != "fin"@[0]);
            assert("cat"@[0] != "tur"@[0]);
            assert("cat"@[0] != "ell"@[0]);
            assert("cat"@[0] != "gre"@[0]);
            assert("cat"@[0] != "heb"@[0]);
            assert("cat"@[0] != "ron"@[0]);
            assert("cat"@[0] != "rum"@[0]);
            assert("cat"@[0] != "hun"@[0]);
            assert("cat"@.len() != "cs"@.len());
            assert(known_language("cat"@) == Some(Language::Catalan));
        },
        Language::Arabic => {
            assert("ara"@[0] != "eng"@[0]);
            assert("ara"@[0] != "jpn"@[0]);
            assert("ara"@[0] != "deu"@[0]);
            assert("ara"@[0] != "ger"@[0]);
            assert("ara"@[0] != "fra"@[0]);
            assert("ara"@[0] != "fre"@[0]);
            assert("ara"@[0] != "ita"@[0]);
            assert("ara"@[0] != "spa"@[0]);
            assert("ara"@[0] != "por"@[0]);
            assert("ara"@[0] != "zho"@[0]);
            assert("ara"@[0] != "chi"@[0]);
            assert("ara"@[0] != "kor"@[0]);
            assert("ara"@[0] != "rus"@[0]);
            assert("ara"@[0] != "ukr"@[0]);
            assert("ara"@[0] != "pol"@[0]);
            assert("ara"@[0] != "ces"@[0]);
            assert("ara"@[0] != "cze"@[0]);
            assert("ara"@[0] != "slk"@[0]);
            assert("ara"@[0] != "slo"@[0]);
            assert("ara"@[0] != "bul"@[0]);
            assert("ara"@[0] != "hrv"@[0]);
            assert("ara"@[0] != "srp"@[0]);
            assert("ara"@[0] != "slv"@[0]);
            assert("ara"@[0] != "nld"@[0]);
            assert("ara"@[0] != "dut"@[0]);
            assert("ara"@[0] != "swe"@[0]);
            assert("ara"@[0] != "nor"@[0]);
            assert("ara"@[0] != "dan"@[0]);
            assert("ara"@[0] != "fin"@[0]);
            assert("ara"@[0] != "tur"@[0]);
            assert("ara"@[0] != "ell"@[0]);
            assert("ara"@[0] != "gre"@[0]);
            assert("ara"@[0] != "heb"@[0]);
            assert("ara"@[0] != "ron"@[0]);
            assert("ara"@[0] != "rum"@[0]);
            assert("ara"@[0] != "hun"@[0]);
            assert("ara"@[0] != "cat"@[0]);
            assert(known_language("ara"@) == Some(Language::Arabic));
        },
        Language::Hindi => {
            assert("hin"@[0] != "eng"@[0]);
            assert("hin"@[0] != "jpn"@[0]);
            assert("hin"@[0] != "deu"@[0]);
            assert("hin"@[0] != "ger"@[0]);
            assert("hin"@[0] != "fra"@[0]);
            assert("hin"@[0] != "fre"@[0]);
            assert("hin"@[0] != "ita"@[0]);
            assert("hin"@[0] != "spa"@[0]);
            assert("hin"@[0] != "por"@[0]);
            assert("hin"@[0] != "zho"@[0]);
            assert("hin"@[0] != "chi"@[0]);
            assert("hin"@[0] != "kor"@[0]);
            assert("hin"@[0] != "rus"@[0]);
            assert("hin"@[0] != "ukr"@[0]);
            assert("hin"@[0] != "pol"@[0]);
            assert("hin"@[0] != "ces"@[0]);
            assert("hin"@[0] != "cze"@[0]);
            assert("hin"@[0] != "slk"@[0]);
            assert("hin"@[0] != "slo"@[0]);
            assert("hin"@[0] != "bul"@[0]);
            assert("hin"@[1] != "hrv"@[1]);
            assert("hin"@[0] != "srp"@[0]);
            assert("hin"@[0] != "slv"@[0]);
            assert("hin"@[0] != "nld"@[0]);
            assert("hin"@[0] != "dut"@[0]);
            assert("hin"@[0] != "swe"@[0]);
            assert("hin"@[0] != "nor"@[0]);
            assert("hin"@[0] != "dan"@[0]);
            assert("hin"@[0] != "fin"@[0]);
            assert("hin"@[0] != "tur"@[0]);
            assert("hin"@[0] != "ell"@[0]);
            assert("hin"@[0] != "gre"@[0]);
            assert("hin"@[1] != "heb"@[1]);
            assert("hin"@[0] != "ron"@[0]);
            assert("hin"@[0] != "rum"@[0]);
            assert("hin"@[1] != "hun"@[1]);
            assert("hin"@[0] != "cat"@[0]);
            assert("hin"@[0] != "ara"@[0]);
            assert("hin"@.len() != "hr"@.len());
            assert("hin"@.len() != "he"@.len());
            assert("hin"@.len() != "hu"@.len());
            assert(known_language("hin"@) == Some(Language::Hindi));
        },
        Language::Thai => {
            assert("tha"@[0] != "eng"@[0]);
            assert("tha"@[0] != "jpn"@[0]);
            assert("tha"@[0] != "deu"@[0]);
            assert("tha"@[0] != "ger"@[0]);
            assert("tha"@[0] != "fra"@[0]);
            assert("tha"@[0] != "fre"@[0]);
            assert("tha"@[0] != "ita"@[0]);
            assert("tha"@[0] != "spa"@[0]);
            assert("tha"@[0] != "por"@[0]);
            assert("tha"@[0] != "zho"@[0]);
            assert("tha"@[0] != "chi"@[0]);
            assert("tha"@[0] != "kor"@[0]);
            assert("tha"@[0] != "rus"@[0]);
            assert("tha"@[0] != "ukr"@[0]);
            assert("tha"@[0] != "pol"@[0]);
            assert("tha"@[0] != "ces"@[0]);
            assert("tha"@[0] != "cze"@[0]);
            assert("tha"@[0] != "slk"@[0]);
            assert("tha"@[0] != "slo"@[0]);
            assert("tha"@[0] != "bul"@[0]);
            assert("tha"@[0] != "hrv"@[0]);
            assert("tha"@[0] != "srp"@[0]);
            assert("tha"@[0] != "slv"@[0]);
            assert("tha"@[0] != "nld"@[0]);
            assert("tha"@[0] != "dut"@[0]);
            assert("tha"@[0] != "swe"@[0]);
            assert("tha"@[0] != "nor"@[0]);
            assert("tha"@[0] != "dan"@[0]);
            assert("tha"@[0] != "fin"@[0]);
            assert("tha"@[1] != "tur"@[1]);
            assert("tha"@[0] != "ell"@[0]);
            assert("tha"@[0] != "gre"@[0]);
            assert("tha"@[0] != "heb"@[0]);
            assert("tha"@[0] != "ron"@[0]);
            assert("tha"@[0] != "rum"@[0]);
            assert("tha"@[0] != "hun"@[0]);
            assert("tha"@[0] != "cat"@[0]);
            assert("tha"@[0] != "ara"@[0]);
            assert("tha"@[0] != "hin"@[0]);
            assert("tha"@.len() != "tr"@.len());
            assert(known_language("tha"@) == Some(Language::Thai));
        },
        Language::Vietnamese => {
            assert("vie"@[0] != "eng"@[0]);
            assert("vie"@[0] != "jpn"@[0]);
            assert("vie"@[0] != "deu"@[0]);
            assert("vie"@[0] != "ger"@[0]);
            assert("vie"@[0] != "fra"@[0]);
            assert("vie"@[0] != "fre"@[0]);
            assert("vie"@[0] != "ita"@[0]);
            assert("vie"@[0] != "spa"@[0]);
            assert("vie"@[0] != "por"@[0]);
            assert("vie"@[0] != "zho"@[0]);
            assert("vie"@[0] != "chi"@[0]);
            assert("vie"@[0] != "kor"@[0]);
            assert("vie"@[0] != "rus"@[0]);
            assert("vie"@[0] != "ukr"@[0]);
            assert("vie"@[0] != "pol"@[0]);
            assert("vie"@[0] != "ces"@[0]);
            assert("vie"@[0] != "cze"@[0]);
            assert("vie"@[0] != "slk"@[0]);
            assert("vie"@[0] != "slo"@[0]);
            assert("vie"@[0] != "bul"@[0]);
            assert("vie"@[0] != "hrv"@[0]);
            assert("vie"@[0] != "srp"@[0]);
            assert("vie"@[0] != "slv"@[0]);
            assert("vie"@[0] != "nld"@[0]);
            assert("vie"@[0] != "dut"@[0]);
            assert("vie"@[0] != "swe"@[0]);
            assert("vie"@[0] != "nor"@[0]);
            assert("vie"@[0] != "dan"@[0]);
            assert("vie"@[0] != "fin"@[0]);
            assert("vie"@[0] != "tur"@[0]);
            assert("vie"@[0] != "ell"@[0]);
            assert("vie"@[0] != "gre"@[0]);
            assert("vie"@[0] != "heb"@[0]);
            assert("vie"@[0] != "ron"@[0]);
            assert("vie"@[0] != "rum"@[0]);
            assert("vie"@[0] != "hun"@[0]);
            assert("vie"@[0] != "cat"@[0]);
            assert("vie"@[0] != "ara"@[0]);
            assert("vie"@[0] != "hin"@[0]);
            assert("vie"@[0] != "tha"@[0]);
            assert(known_language("vie"@) == Some(Language::Vietnamese));
        },
        Language::Indonesian => {
            assert("ind"@[0] != "eng"@[0]);
            assert("ind"@[0] != "jpn"@[0]);
            assert("ind"@[0] != "deu"@[0]);
            assert("ind"@[0] != "ger"@[0]);
            assert("ind"@[0] != "fra"@[0]);
            assert("ind"@[0] != "fre"@[0]);
            assert("ind"@[1] != "ita"@[1]);
            assert("ind"@[0] != "spa"@[0]);
            assert("ind"@[0] != "por"@[0]);
            assert("ind"@[0] != "zho"@[0]);
            assert("ind"@[0] != "chi"@[0]);
            assert("ind"@[0] != "kor"@[0]);
            assert("ind"@[0] != "rus"@[0]);
            assert("ind"@[0] != "ukr"@[0]);
            assert("ind"@[0] != "pol"@[0]);
            assert("ind"@[0] != "ces"@[0]);
            assert("ind"@[0] != "cze"@[0]);
            assert("ind"@[0] != "slk"@[0]);
            assert("ind"@[0] != "slo"@[0]);
            assert("ind"@[0] != "bul"@[0]);
            assert("ind"@[0] != "hrv"@[0]);
            assert("ind"@[0] != "srp"@[0]);
            assert("ind"@[0] != "slv"@[0]);
            assert("ind"@[0] != "nld"@[0]);
            assert("ind"@[0] != "dut"@[0]);
            assert("ind"@[0] != "swe"@[0]);
            assert("ind"@[0] != "nor"@[0]);
            assert("ind"@[0] != "dan"@[0]);
            assert("ind"@[0] != "fin"@[0]);
            assert("ind"@[0] != "tur"@[0]);
            assert("ind"@[0] != "ell"@[0]);
            assert("ind"@[0] != "gre"@[0]);
            assert("ind"@[0] != "heb"@[0]);
            assert("ind"@[0] != "ron"@[0]);
            assert("ind"@[0] != "rum"@[0]);
            assert("ind"@[0] != "hun"@[0]);
            assert("ind"@[0] != "cat"@[0]);
            assert("ind"@[0] != "ara"@[0]);
            assert("ind"@[0] != "hin"@[0]);
            assert("ind"@[0] != "tha"@[0]);
            assert("ind"@[0] != "vie"@[0]);
            assert("ind"@.len() != "it"@.len());
            assert("ind"@.len() != "iw"@.len());
            assert(known_language("ind"@) == Some(Language::Indonesian));
        },
        Language::Malay => {
            assert("may"@[0] != "eng"@[0]);
            assert("may"@[0] != "jpn"@[0]);
            assert("may"@[0] != "deu"@[0]);
            assert("may"@[0] != "ger"@[0]);
            assert("may"@[0] != "fra"@[0]);
            assert("may"@[0] != "fre"@[0]);
            assert("may"@[0] != "ita"@[0]);
            assert("may"@[0] != "spa"@[0]);
            assert("may"@[0] != "por"@[0]);
            assert("may"@[0] != "zho"@[0]);
            assert("may"@[0] != "chi"@[0]);
            assert("may"@[0] != "kor"@[0]);
            assert("may"@[0] != "rus"@[0]);
            assert("may"@[0] != "ukr"@[0]);
            assert("may"@[0] != "pol"@[0]);
            assert("may"@[0] != "ces"@[0]);
            assert("may"@[0] != "cze"@[0]);
            assert("may"@[0] != "slk"@[0]);
            assert("may"@[0] != "slo"@[0]);
            assert("may"@[0] != "bul"@[0]);
            assert("may"@[0] != "hrv"@[0]);
            assert("may"@[0] != "srp"@[0]);
            assert("may"@[0] != "slv"@[0]);
            assert("may"@[0] != "nld"@[0]);
            assert("may"@[0] != "dut"@[0]);
            assert("may"@[0] != "swe"@[0]);
            assert("may"@[0] != "nor"@[0]);
            assert("may"@[0] != "dan"@[0]);
            assert("may"@[0] != "fin"@[0]);
            assert("may"@[0] != "tur"@[0]);
            assert("may"@[0] != "ell"@[0]);
            assert("may"@[0] != "gre"@[0]);
            assert("may"@[0] != "heb"@[0]);
            assert("may"@[0] != "ron"@[0]);
            assert("may"@[0] != "rum"@[0]);
            assert("may"@[0] != "hun"@[0]);
            assert("may"@[0] != "cat"@[0]);
            assert("may"@[0] != "ara"@[0]);
            assert("may"@[0] != "hin"@[0]);
            assert("may"@[0] != "tha"@[0]);
            assert("may"@[0] != "vie"@[0]);
            assert("may"@[0] != "ind"@[0]);
            assert(known_language("may"@) == Some(Language::Malay));
            assert("msa"@[0] != "eng"@[0]);
            assert("msa"@[0] != "jpn"@[0]);
            assert("msa"@[0] != "deu"@[0]);
            assert("msa"@[0] != "ger"@[0]);
            assert("msa"@[0] != "fra"@[0]);
            assert("msa"@[0] != "fre"@[0]);
            assert("msa"@[0] != "ita"@[0]);
            assert("msa"@[0] != "spa"@[0]);
            assert("msa"@[0] != "por"@[0]);
            assert("msa"@[0] != "zho"@[0]);
            assert("msa"@[0] != "chi"@[0]);
            assert("msa"@[0] != "kor"@[0]);
            assert("msa"@[0] != "rus"@[0]);
            assert("msa"@[0] != "ukr"@[0]);
            assert("msa"@[0] != "pol"@[0]);
            assert("msa"@[0] != "ces"@[0]);
            assert("msa"@[0] != "cze"@[0]);
            assert("msa"@[0] != "slk"@[0]);
            assert("msa"@[0] != "slo"@[0]);
            assert("msa"@[0] != "bul"@[0]);
            assert("msa"@[0] != "hrv"@[0]);
            assert("msa"@[0] != "srp"@[0]);
            assert("msa"@[0] != "slv"@[0]);
            assert("msa"@[0] != "nld"@[0]);
            assert("msa"@[0] != "dut"@[0]);
            assert("msa"@[0] != "swe"@[0]);
            assert("msa"@[0] != "nor"@[0]);
            assert("msa"@[0] != "dan"@[0]);
            assert("msa"@[0] != "fin"@[0]);
            assert("msa"@[0] != "tur"@[0]);
            assert("msa"@[0] != "ell"@[0]);
            assert("msa"@[0] != "gre"@[0]);
            assert("msa"@[0] != "heb"@[0]);
            assert("msa"@[0] != "ron"@[0]);
            assert("msa"@[0] != "rum"@[0]);
            assert("msa"@[0] != "hun"@[0]);
            assert("msa"@[0] != "cat"@[0]);
            assert("msa"@[0] != "ara"@[0]);
            assert("msa"@[0] != "hin"@[0]);
            assert("msa"@[0] != "tha"@[0]);
            assert("msa"@[0] != "vie"@[0]);
            assert("msa"@[0] != "ind"@[0]);
            assert(known_language("msa"@) == Some(Language::Malay));
        },
        _ => {},
    }
}

/// ASCII lowercasing twice is lowercasing once.
pub proof fn lemma_ascii_lowercase_idempotent(s: Seq<char>)
    ensures
        ascii_lowercase(ascii_lowercase(s)) == ascii_lowercase(s),
{
    assert(ascii_lowercase(ascii_lowercase(s)) =~= ascii_lowercase(s));
}

/// Reading a language code does not depend on ASCII case: a code and its
/// lowercase form name the same language.
pub proof fn lemma_language_case_insensitive(code: Seq<char>)
    ensures
        known_language(ascii_lowercase(ascii_lowercase(code))) == known_language(
            ascii_lowercase(code),
        ),
{
    lemma_ascii_lowercase_idempotent(code);
}

/// A language's code reads back as the same language, for every language
/// that has a code: `Language::from` of the code (`into`), and of the code
/// written in capitals, is that language.
pub proof fn lemma_language_code_roundtrip(l: Language)
    requires
        has_code(l),
    ensures
        known_language(ascii_lowercase(language_code(l))) == Some(l),
        known_language(ascii_lowercase(crate::text::ascii_uppercase(language_code(l)))) == Some(l),
{
    crate::text::lemma_lowercase_of_uppercase(language_code(l));
    lemma_language_code_reads_back(l);
}

proof fn lemma_language_code_reads_back(l: Language)
    requires
        has_code(l),
    ensures
        known_language(ascii_lowercase(language_code(l))) == Some(l),
{
    reveal_strlit("ar");
    reveal_strlit("ara");
    reveal_strlit("bg");
    reveal_strlit("bul");
    reveal_strlit("ca");
    reveal_strlit("cat");
    reveal_strlit("ces");
    reveal_strlit("chi");
    reveal_strlit("cs");
    reveal_strlit("cze");
    reveal_strlit("da");
    reveal_strlit("dan");
    reveal_strlit("de");
    reveal_strlit("deu");
    reveal_strlit("dut");
    reveal_strlit("el");
    reveal_strlit("ell");
    reveal_strlit("en");
    reveal_strlit("en-br");
    reveal_strlit("en-us");
    reveal_strlit("en_br");
    reveal_strlit("en_us");
    reveal_strlit("eng");
    reveal_strlit("es");
    reveal_strlit("fi");
    reveal_strlit("fin");
    reveal_strlit("fr");
    reveal_strlit("fra");
    reveal_strlit("fre");
    reveal_strlit("ger");
    reveal_strlit("gre");
    reveal_strlit("he");
    reveal_strlit("heb");
    reveal_strlit("hi");
    reveal_strlit("hin");
    reveal_strlit("hr");
    reveal_strlit("hrv");
    reveal_strlit("hu");
    reveal_strlit("hun");
    reveal_strlit("id");
    reveal_strlit("ind");
    reveal_strlit("it");
    reveal_strlit("ita");
    reveal_strlit("iw");
    reveal_strlit("ja");
    reveal_strlit("jpn");
    reveal_strlit("ko");
    reveal_strlit("kor");
    reveal_strlit("may");
    reveal_strlit("ms");
    reveal_strlit("msa");
    reveal_strlit("nl");
    reveal_strlit("nld");
    reveal_strlit("no");
    reveal_strlit("nor");
    reveal_strlit("pl");
    reveal_strlit("pol");
    reveal_strlit("por");
    reveal_strlit("pt");
    reveal_strlit("pt-br");
    reveal_strlit("pt_br");
    reveal_strlit("ro");
    reveal_strlit("ron");
    reveal_strlit("ru");
    reveal_strlit("rum");
    reveal_strlit("rus");
    reveal_strlit("sk");
    reveal_strlit("sl");
    reveal_strlit("slk");
    reveal_strlit("slo");
    reveal_strlit("slv");
    reveal_strlit("spa");
    reveal_strlit("sr");
    reveal_strlit("srp");
    reveal_strlit("sv");
    reveal_strlit("swe");
    reveal_strlit("th");
    reveal_strlit("tha");
    reveal_strlit("tr");
    reveal_strlit("tur");
    reveal_strlit("uk");
    reveal_strlit("ukr");
    reveal_strlit("und");
    reveal_strlit("vi");
    reveal_strlit("vie");
    reveal_strlit("zh");
    reveal_strlit("zh-hans");
    reveal_strlit("zh-hant");
    reveal_strlit("zh-hk");
    reveal_strlit("zh-sg");
    reveal_strlit("zh_cn");
    reveal_strlit("zh_tw");
    reveal_strlit("zho");
    match l {
        Language::English => {
            assert(ascii_lowercase("en"@) =~= "en"@);
        },
        Language::Japanese => {
            assert(ascii_lowercase("ja"@) =~= "ja"@);
            assert("ja"@[0] != "en"@[0]);
        },
        Language::German => {
            assert(ascii_lowercase("de"@) =~= "de"@);
            assert("de"@[0] != "en"@[0]);
            assert("de"@[0] != "ja"@[0]);
        },
        Language::French => {
            assert(ascii_lowercase("fr"@) =~= "fr"@);
            assert("fr"@[0] != "en"@[0]);
            assert("fr"@[0] != "ja"@[0]);
            assert("fr"@[0] != "de"@[0]);
        },
        Language::Italian => {
            assert(ascii_lowercase("it"@) =~= "it"@);
            assert("it"@[0] != "en"@[0]);
            assert("it"@[0] != "ja"@[0]);
            assert("it"@[0] != "de"@[0]);
            assert("it"@[0] != "fr"@[0]);
        },
        Language::Spanish => {
            assert(ascii_lowercase("es"@) =~= "es"@);
            assert("es"@[1] != "en"@[1]);
            assert("es"@[0] != "ja"@[0]);
            assert("es"@[0] != "de"@[0]);
            assert("es"@[0] != "fr"@[0]);
            assert("es"@[0] != "it"@[0]);
        },
        Language::Portuguese => {
            assert(ascii_lowercase("pt"@) =~= "pt"@);
            assert("pt"@[0] != "en"@[0]);
            assert("pt"@[0] != "ja"@[0]);
            assert("pt"@[0] != "de"@[0]);
            assert("pt"@[0] != "fr"@[0]);
            assert("pt"@[0] != "it"@[0]);
            assert("pt"@[0] != "es"@[0]);
        },
        Language::Portuguese_BR => {
            assert(ascii_lowercase("pt-br"@) =~= "pt-br"@);
            assert("pt-br"@[0] != "en-us"@[0]);
            assert("pt-br"@[0] != "en_us"@[0]);
            assert("pt-br"@[0] != "en-br"@[0]);
            assert("pt-br"@[0] != "en_br"@[0]);
        },
        Language::Chinese => {
            assert(ascii_lowercase("zh"@) =~= "zh"@);
            assert("zh"@[0] != "en"@[0]);
            assert("zh"@[0] != "ja"@[0]);
            assert("zh"@[0] != "de"@[0]);
            assert("zh"@[0] != "fr"@[0]);
            assert("zh"@[0] != "it"@[0]);
            assert("zh"@[0] != "es"@[0]);
            assert("zh"@[0] != "pt"@[0]);
        },
        Language::Chinese_Hans => {
            assert(ascii_lowercase("zh-hans"@) =~= "zh-hans"@);
        },
        Language::Chinese_Hant => {
            assert(ascii_lowercase("zh-hant"@) =~= "zh-hant"@);
            assert("zh-hant"@[6] != "zh-hans"@[6]);
        },
        Language::Korean => {
            assert(ascii_lowercase("ko"@) =~= "ko"@);
            assert("ko"@[0] != "en"@[0]);
            assert("ko"@[0] != "ja"@[0]);
            assert("ko"@[0] != "de"@[0]);
            assert("ko"@[0] != "fr"@[0]);
            assert("ko"@[0] != "it"@[0]);
            assert("ko"@[0] != "es"@[0]);
            assert("ko"@[0] != "pt"@[0]);
            assert("ko"@[0] != "zh"@[0]);
        },
        Language::Russian => {
            assert(ascii_lowercase("ru"@) =~= "ru"@);
            assert("ru"@[0] != "en"@[0]);
            assert("ru"@[0] != "ja"@[0]);
            assert("ru"@[0] != "de"@[0]);
            assert("ru"@[0] != "fr"@[0]);
            assert("ru"@[0] != "it"@[0]);
            assert("ru"@[0] != "es"@[0]);
            assert("ru"@[0] != "pt"@[0]);
            assert("ru"@[0] != "zh"@[0]);
            assert("ru"@[0] != "ko"@[0]);
        },
        Language::Ukrainian => {
            assert(ascii_lowercase("uk"@) =~= "uk"@);
            assert("uk"@[0] != "en"@[0]);
            assert("uk"@[0] != "ja"@[0]);
            assert("uk"@[0] != "de"@[0]);
            assert("uk"@[0] != "fr"@[0]);
            assert("uk"@[0] != "it"@[0]);
            assert("uk"@[0] != "es"@[0]);
            assert("uk"@[0] != "pt"@[0]);
            assert("uk"@[0] != "zh"@[0]);
            assert("uk"@[0] != "ko"@[0]);
            assert("uk"@[0] != "ru"@[0]);
        },
        Language::Polish => {
            assert(ascii_lowercase("pl"@) =~= "pl"@);
            assert("pl"@[0] != "en"@[0]);
            assert("pl"@[0] != "ja"@[0]);
            assert("pl"@[0] != "de"@[0]);
            assert("pl"@[0] != "fr"@[0]);
            assert("pl"@[0] != "it"@[0]);
            assert("pl"@[0] != "es"@[0]);
            assert("pl"@[1] != "pt"@[1]);
            assert("pl"@[0] != "zh"@[0]);
            assert("pl"@[0] != "ko"@[0]);
            assert("pl"@[0] != "ru"@[0]);
            assert("pl"@[0] != "uk"@[0]);
        },
        Language::Czech => {
            assert(ascii_lowercase("cs"@) =~= "cs"@);
            assert("cs"@[0] != "en"@[0]);
            assert("cs"@[0] != "ja"@[0]);
            assert("cs"@[0] != "de"@[0]);
            assert("cs"@[0] != "fr"@[0]);
            assert("cs"@[0] != "it"@[0]);
            assert("cs"@[0] != "es"@[0]);
            assert("cs"@[0] != "pt"@[0]);
            assert("cs"@[0] != "zh"@[0]);
            assert("cs"@[0] != "ko"@[0]);
            assert("cs"@[0] != "ru"@[0]);
            assert("cs"@[0] != "uk"@[0]);
            assert("cs"@[0] != "pl"@[0]);
        },
        Language::Slovak => {
            assert(ascii_lowercase("sk"@) =~= "sk"@);
            assert("sk"@[0] != "en"@[0]);
            assert("sk"@[0] != "ja"@[0]);
            assert("sk"@[0] != "de"@[0]);
            assert("sk"@[0] != "fr"@[0]);
            assert("sk"@[0] != "it"@[0]);
            assert("sk"@[0] != "es"@[0]);
            assert("sk"@[0] != "pt"@[0]);
            assert("sk"@[0] != "zh"@[0]);
            assert("sk"@[0] != "ko"@[0]);
            assert("sk"@[0] != "ru"@[0]);
            assert("sk"@[0] != "uk"@[0]);
            assert("sk"@[0] != "pl"@[0]);
            assert("sk"@[0] != "cs"@[0]);
        },
        Language::Bulgarian => {
            assert(ascii_lowercase("bg"@) =~= "bg"@);
            assert("bg"@[0] != "en"@[0]);
            assert("bg"@[0] != "ja"@[0]);
            assert("bg"@[0] != "de"@[0]);
            assert("bg"@[0] != "fr"@[0]);
            assert("bg"@[0] != "it"@[0]);
            assert("bg"@[0] != "es"@[0]);
            assert("bg"@[0] != "pt"@[0]);
            assert("bg"@[0] != "zh"@[0]);
            assert("bg"@[0] != "ko"@[0]);
            assert("bg"@[0] != "ru"@[0]);
            assert("bg"@[0] != "uk"@[0]);
            assert("bg"@[0] != "pl"@[0]);
            assert("bg"@[0] != "cs"@[0]);
            assert("bg"@[0] != "sk"@[0]);
        },
        Language::Croatian => {
            assert(ascii_lowercase("hr"@) =~= "hr"@);
            assert("hr"@[0] != "en"@[0]);
            assert("hr"@[0] != "ja"@[0]);
            assert("hr"@[0] != "de"@[0]);
            assert("hr"@[0] != "fr"@[0]);
            assert("hr"@[0] != "it"@[0]);
            assert("hr"@[0] != "es"@[0]);
            assert("hr"@[0] != "pt"@[0]);
            assert("hr"@[0] != "zh"@[0]);
            assert("hr"@[0] != "ko"@[0]);
            assert("hr"@[0] != "ru"@[0]);
            assert("hr"@[0] != "uk"@[0]);
            assert("hr"@[0] != "pl"@[0]);
            assert("hr"@[0] != "cs"@[0]);
            assert("hr"@[0] != "sk"@[0]);
            assert("hr"@[0] != "bg"@[0]);
        },
        Language::Serbian => {
            assert(ascii_lowercase("sr"@) =~= "sr"@);
            assert("sr"@[0] != "en"@[0]);
            assert("sr"@[0] != "ja"@[0]);
            assert("sr"@[0] != "de"@[0]);
            assert("sr"@[0] != "fr"@[0]);
            assert("sr"@[0] != "it"@[0]);
            assert("sr"@[0] != "es"@[0]);
            assert("sr"@[0] != "pt"@[0]);
            assert("sr"@[0] != "zh"@[0]);
            assert("sr"@[0] != "ko"@[0]);
            assert("sr"@[0] != "ru"@[0]);
            assert("sr"@[0] != "uk"@[0]);
            assert("sr"@[0] != "pl"@[0]);
            assert("sr"@[0] != "cs"@[0]);
            assert("sr"@[1] != "sk"@[1]);
            assert("sr"@[0] != "bg"@[0]);
            assert("sr"@[0] != "hr"@[0]);
        },
        Language::Slovenian => {
            assert(ascii_lowercase("sl"@) =~= "sl"@);
            assert("sl"@[0] != "en"@[0]);
            assert("sl"@[0] != "ja"@[0]);
            assert("sl"@[0] != "de"@[0]);
            assert("sl"@[0] != "fr"@[0]);
            assert("sl"@[0] != "it"@[0]);
            assert("sl"@[0] != "es"@[0]);
            assert("sl"@[0] != "pt"@[0]);
            assert("sl"@[0] != "zh"@[0]);
            assert("sl"@[0] != "ko"@[0]);
            assert("sl"@[0] != "ru"@[0]);
            assert("sl"@[0] != "uk"@[0]);
            assert("sl"@[0] != "pl"@[0]);
            assert("sl"@[0] != "cs"@[0]);
            assert("sl"@[1] != "sk"@[1]);
            assert("sl"@[0] != "bg"@[0]);
            assert("sl"@[0] != "hr"@[0]);
            assert("sl"@[1] != "sr"@[1]);
        },
        Language::Dutch => {
            assert(ascii_lowercase("nl"@) =~= "nl"@);
            assert("nl"@[0] != "en"@[0]);
            assert("nl"@[0] != "ja"@[0]);
            assert("nl"@[0] != "de"@[0]);
            assert("nl"@[0] != "fr"@[0]);
            assert("nl"@[0] != "it"@[0]);
            assert("nl"@[0] != "es"@[0]);
            assert("nl"@[0] != "pt"@[0]);
            assert("nl"@[0] != "zh"@[0]);
            assert("nl"@[0] != "ko"@[0]);
            assert("nl"@[0] != "ru"@[0]);
            assert("nl"@[0] != "uk"@[0]);
            assert("nl"@[0] != "pl"@[0]);
            assert("nl"@[0] != "cs"@[0]);
            assert("nl"@[0] != "sk"@[0]);
            assert("nl"@[0] != "bg"@[0]);
            assert("nl"@[0] != "hr"@[0]);
            assert("nl"@[0] != "sr"@[0]);
            assert("nl"@[0] != "sl"@[0]);
        },
        Language::Swedish => {
            assert(ascii_lowercase("sv"@) =~= "sv"@);
            assert("sv"@[0] != "en"@[0]);
            assert("sv"@[0] != "ja"@[0]);
            assert("sv"@[0] != "de"@[0]);
            assert("sv"@[0] != "fr"@[0]);
            assert("sv"@[0] != "it"@[0]);
            assert("sv"@[0] != "es"@[0]);
            assert("sv"@[0] != "pt"@[0]);
            assert("sv"@[0] != "zh"@[0]);
            assert("sv"@[0] != "ko"@[0]);
            assert("sv"@[0] != "ru"@[0]);
            assert("sv"@[0] != "uk"@[0]);
            assert("sv"@[0] != "pl"@[0]);
            assert("sv"@[0] != "cs"@[0]);
            assert("sv"@[1] != "sk"@[1]);
            assert("sv"@[0] != "bg"@[0]);
            assert("sv"@[0] != "hr"@[0]);
            assert("sv"@[1] != "sr"@[1]);
            assert("sv"@[1] != "sl"@[1]);
            assert("sv"@[0] != "nl"@[0]);
        },
        Language::Norwegian => {
            assert(ascii_lowercase("no"@) =~= "no"@);
            assert("no"@[0] != "en"@[0]);
            assert("no"@[0] != "ja"@[0]);
            assert("no"@[0] != "de"@[0]);
            assert("no"@[0] != "fr"@[0]);
            assert("no"@[0] != "it"@[0]);
            assert("no"@[0] != "es"@[0]);
            assert("no"@[0] != "pt"@[0]);
            assert("no"@[0] != "zh"@[0]);
            assert("no"@[0] != "ko"@[0]);
            assert("no"@[0] != "ru"@[0]);
            assert("no"@[0] != "uk"@[0]);
            assert("no"@[0] != "pl"@[0]);
            assert("no"@[0] != "cs"@[0]);
            assert("no"@[0] != "sk"@[0]);
            assert("no"@[0] != "bg"@[0]);
            assert("no"@[0] != "hr"@[0]);
            assert("no"@[0] != "sr"@[0]);
            assert("no"@[0] != "sl"@[0]);
            assert("no"@[1] != "nl"@[1]);
            assert("no"@[0] != "sv"@[0]);
        },
        Language::Danish => {
            assert(ascii_lowercase("da"@) =~= "da"@);
            assert("da"@[0] != "en"@[0]);
            assert("da"@[0] != "ja"@[0]);
            assert("da"@[1] != "de"@[1]);
            assert("da"@[0] != "fr"@[0]);
            assert("da"@[0] != "it"@[0]);
            assert("da"@[0] != "es"@[0]);
            assert("da"@[0] != "pt"@[0]);
            assert("da"@[0] != "zh"@[0]);
            assert("da"@[0] != "ko"@[0]);
            assert("da"@[0] != "ru"@[0]);
            assert("da"@[0] != "uk"@[0]);
            assert("da"@[0] != "pl"@[0]);
            assert("da"@[0] != "cs"@[0]);
            assert("da"@[0] != "sk"@[0]);
            assert("da"@[0] != "bg"@[0]);
            assert("da"@[0] != "hr"@[0]);
            assert("da"@[0] != "sr"@[0]);
            assert("da"@[0] != "sl"@[0]);
            assert("da"@[0] != "nl"@[0]);
            assert("da"@[0] != "sv"@[0]);
            assert("da"@[0] != "no"@[0]);
        },
        Language::Finnish => {
            assert(ascii_lowercase("fi"@) =~= "fi"@);
            assert("fi"@[0] != "en"@[0]);
            assert("fi"@[0] != "ja"@[0]);
            assert("fi"@[0] != "de"@[0]);
            assert("fi"@[1] != "fr"@[1]);
            assert("fi"@[0] != "it"@[0]);
            assert("fi"@[0] != "es"@[0]);
            assert("fi"@[0] != "pt"@[0]);
            assert("fi"@[0] != "zh"@[0]);
            assert("fi"@[0] != "ko"@[0]);
            assert("fi"@[0] != "ru"@[0]);
            assert("fi"@[0] != "uk"@[0]);
            assert("fi"@[0] != "pl"@[0]);
            assert("fi"@[0] != "cs"@[0]);
            assert("fi"@[0] != "sk"@[0]);
            assert("fi"@[0] != "bg"@[0]);
            assert("fi"@[0] != "hr"@[0]);
            assert("fi"@[0] != "sr"@[0]);
            assert("fi"@[0] != "sl"@[0]);
            assert("fi"@[0] != "nl"@[0]);
            assert("fi"@[0] != "sv"@[0]);
            assert("fi"@[0] != "no"@[0]);
            assert("fi"@[0] != "da"@[0]);
        },
        Language::Turkish => {
            assert(ascii_lowercase("tr"@) =~= "tr"@);
            assert("tr"@[0] != "en"@[0]);
            assert("tr"@[0] != "ja"@[0]);
            assert("tr"@[0] != "de"@[0]);
            assert("tr"@[0] != "fr"@[0]);
            assert("tr"@[0] != "it"@[0]);
            assert("tr"@[0] != "es"@[0]);
            assert("tr"@[0] != "pt"@[0]);
            assert("tr"@[0] != "zh"@[0]);
            assert("tr"@[0] != "ko"@[0]);
            assert("tr"@[0] != "ru"@[0]);
            assert("tr"@[0] != "uk"@[0]);
            assert("tr"@[0] != "pl"@[0]);
            assert("tr"@[0] != "cs"@[0]);
            assert("tr"@[0] != "sk"@[0]);
            assert("tr"@[0] != "bg"@[0]);
            assert("tr"@[0] != "hr"@[0]);
            assert("tr"@[0] != "sr"@[0]);
            assert("tr"@[0] != "sl"@[0]);
            assert("tr"@[0] != "nl"@[0]);
            assert("tr"@[0] != "sv"@[0]);
            assert("tr"@[0] != "no"@[0]);
            assert("tr"@[0] != "da"@[0]);
            assert("tr"@[0] != "fi"@[0]);
        },
        Language::Greek => {
            assert(ascii_lowercase("el"@) =~= "el"@);
            assert("el"@[1] != "en"@[1]);
            assert("el"@[0] != "ja"@[0]);
            assert("el"@[0] != "de"@[0]);
            assert("el"@[0] != "fr"@[0]);
            assert("el"@[0] != "it"@[0]);
            assert("el"@[1] != "es"@[1]);
            assert("el"@[0] != "pt"@[0]);
            assert("el"@[0] != "zh"@[0]);
            assert("el"@[0] != "ko"@[0]);
            assert("el"@[0] != "ru"@[0]);
            assert("el"@[0] != "uk"@[0]);
            assert("el"@[0] != "pl"@[0]);
            assert("el"@[0] != "cs"@[0]);
            assert("el"@[0] != "sk"@[0]);
            assert("el"@[0] != "bg"@[0]);
            assert("el"@[0] != "hr"@[0]);
            assert("el"@[0] != "sr"@[0]);
            assert("el"@[0] != "sl"@[0]);
            assert("el"@[0] != "nl"@[0]);
            assert("el"@[0] != "sv"@[0]);
            assert("el"@[0] != "no"@[0]);
            assert("el"@[0] != "da"@[0]);
            assert("el"@[0] != "fi"@[0]);
            assert("el"@[0] != "tr"@[0]);
        },
        Language::Hebrew => {
            assert(ascii_lowercase("he"@) =~= "he"@);
            assert("he"@[0] != "en"@[0]);
            assert("he"@[0] != "ja"@[0]);
            assert("he"@[0] != "de"@[0]);
            assert("he"@[0] != "fr"@[0]);
            assert("he"@[0] != "it"@[0]);
            assert("he"@[0] != "es"@[0]);
            assert("he"@[0] != "pt"@[0]);
            assert("he"@[0] != "zh"@[0]);
            assert("he"@[0] != "ko"@[0]);
            assert("he"@[0] != "ru"@[0]);
            assert("he"@[0] != "uk"@[0]);
            assert("he"@[0] != "pl"@[0]);
            assert("he"@[0] != "cs"@[0]);
            assert("he"@[0] != "sk"@[0]);
            assert("he"@[0] != "bg"@[0]);
            assert("he"@[1] != "hr"@[1]);
            assert("he"@[0] != "sr"@[0]);
            assert("he"@[0] != "sl"@[0]);
            assert("he"@[0] != "nl"@[0]);
            assert("he"@[0] != "sv"@[0]);
            assert("he"@[0] != "no"@[0]);
            assert("he"@[0] != "da"@[0]);
            assert("he"@[0] != "fi"@[0]);
            assert("he"@[0] != "tr"@[0]);
            assert("he"@[0] != "el"@[0]);
        },
        Language::Romanian => {
            assert(ascii_lowercase("ro"@) =~= "ro"@);
            assert("ro"@[0] != "en"@[0]);
            assert("ro"@[0] != "ja"@[0]);
            assert("ro"@[0] != "de"@[0]);
            assert("ro"@[0] != "fr"@[0]);
            assert("ro"@[0] != "it"@[0]);
            assert("ro"@[0] != "es"@[0]);
            assert("ro"@[0] != "pt"@[0]);
            assert("ro"@[0] != "zh"@[0]);
            assert("ro"@[0] != "ko"@[0]);
            assert("ro"@[1] != "ru"@[1]);
            assert("ro"@[0] != "uk"@[0]);
            assert("ro"@[0] != "pl"@[0]);
            assert("ro"@[0] != "cs"@[0]);
            assert("ro"@[0] != "sk"@[0]);
            assert("ro"@[0] != "bg"@[0]);
            assert("ro"@[0] != "hr"@[0]);
            assert("ro"@[0] != "sr"@[0]);
            assert("ro"@[0] != "sl"@[0]);
            assert("ro"@[0] != "nl"@[0]);
            assert("ro"@[0] != "sv"@[0]);
            assert("ro"@[0] != "no"@[0]);
            assert("ro"@[0] != "da"@[0]);
            assert("ro"@[0] != "fi"@[0]);
            assert("ro"@[0] != "tr"@[0]);
            assert("ro"@[0] != "el"@[0]);
            assert("ro"@[0] != "he"@[0]);
            assert("ro"@[0] != "iw"@[0]);
        },
        Language::Hungarian => {
            assert(ascii_lowercase("hu"@) =~= "hu"@);
            assert("hu"@[0] != "en"@[0]);
            assert("hu"@[0] != "ja"@[0]);
            assert("hu"@[0] != "de"@[0]);
            assert("hu"@[0] != "fr"@[0]);
            assert("hu"@[0] != "it"@[0]);
            assert("hu"@[0] != "es"@[0]);
            assert("hu"@[0] != "pt"@[0]);
            assert("hu"@[0] != "zh"@[0]);
            assert("hu"@[0] != "ko"@[0]);
            assert("hu"@[0] != "ru"@[0]);
            assert("hu"@[0] != "uk"@[0]);
            assert("hu"@[0] != "pl"@[0]);
            assert("hu"@[0] != "cs"@[0]);
            assert("hu"@[0] != "sk"@[0]);
            assert("hu"@[0] != "bg"@[0]);
            assert("hu"@[1] != "hr"@[1]);
            assert("hu"@[0] != "sr"@[0]);
            assert("hu"@[0] != "sl"@[0]);
            assert("hu"@[0] != "nl"@[0]);
            assert("hu"@[0] != "sv"@[0]);
            assert("hu"@[0] != "no"@[0]);
            assert("hu"@[0] != "da"@[0]);
            assert("hu"@[0] != "fi"@[0]);
            assert("hu"@[0] != "tr"@[0]);
            assert("hu"@[0] != "el"@[0]);
            assert("hu"@[1] != "he"@[1]);
            assert("hu"@[0] != "iw"@[0]);
            assert("hu"@[0] != "ro"@[0]);
        },
        Language::Catalan => {
            assert(ascii_lowercase("ca"@) =~= "ca"@);
            assert("ca"@[0] != "en"@[0]);
            assert("ca"@[0] != "ja"@[0]);
            assert("ca"@[0] != "de"@[0]);
            assert("ca"@[0] != "fr"@[0]);
            assert("ca"@[0] != "it"@[0]);
            assert("ca"@[0] != "es"@[0]);
            assert("ca"@[0] != "pt"@[0]);
            assert("ca"@[0] != "zh"@[0]);
            assert("ca"@[0] != "ko"@[0]);
            assert("ca"@[0] != "ru"@[0]);
            assert("ca"@[0] != "uk"@[0]);
            assert("ca"@[0] != "pl"@[0]);
            assert("ca"@[1] != "cs"@[1]);
            assert("ca"@[0] != "sk"@[0]);
            assert("ca"@[0] != "bg"@[0]);
            assert("ca"@[0] != "hr"@[0]);
            assert("ca"@[0] != "sr"@[0]);
            assert("ca"@[0] != "sl"@[0]);
            assert("ca"@[0] != "nl"@[0]);
            assert("ca"@[0] != "sv"@[0]);
            assert("ca"@[0] != "no"@[0]);
            assert("ca"@[0] != "da"@[0]);
            assert("ca"@[0] != "fi"@[0]);
            assert("ca"@[0] != "tr"@[0]);
            assert("ca"@[0] != "el"@[0]);
            assert("ca"@[0] != "he"@[0]);
            assert("ca"@[0] != "iw"@[0]);
            assert("ca"@[0] != "ro"@[0]);
            assert("ca"@[0] != "hu"@[0]);
        },
        Language::Arabic => {
            assert(ascii_lowercase("ar"@) =~= "ar"@);
            assert("ar"@[0] != "en"@[0]);
            assert("ar"@[0] != "ja"@[0]);
            assert("ar"@[0] != "de"@[0]);
            assert("ar"@[0] != "fr"@[0]);
            assert("ar"@[0] != "it"@[0]);
            assert("ar"@[0] != "es"@[0]);
            assert("ar"@[0] != "pt"@[0]);
            assert("ar"@[0] != "zh"@[0]);
            assert("ar"@[0] != "ko"@[0]);
            assert("ar"@[0] != "ru"@[0]);
            assert("ar"@[0] != "uk"@[0]);
            assert("ar"@[0] != "pl"@[0]);
            assert("ar"@[0] != "cs"@[0]);
            assert("ar"@[0] != "sk"@[0]);
            assert("ar"@[0] != "bg"@[0]);
            assert("ar"@[0] != "hr"@[0]);
            assert("ar"@[0] != "sr"@[0]);
            assert("ar"@[0] != "sl"@[0]);
            assert("ar"@[0] != "nl"@[0]);
            assert("ar"@[0] != "sv"@[0]);
            assert("ar"@[0] != "no"@[0]);
            assert("ar"@[0] != "da"@[0]);
            assert("ar"@[0] != "fi"@[0]);
            assert("ar"@[0] != "tr"@[0]);
            assert("ar"@[0] != "el"@[0]);
            assert("ar"@[0] != "he"@[0]);
            assert("ar"@[0] != "iw"@[0]);
            assert("ar"@[0] != "ro"@[0]);
            assert("ar"@[0] != "hu"@[0]);
            assert("ar"@[0] != "ca"@[0]);
        },
        Language::Hindi => {
            assert(ascii_lowercase("hi"@) =~= "hi"@);
            assert("hi"@[0] != "en"@[0]);
            assert("hi"@[0] != "ja"@[0]);
            assert("hi"@[0] != "de"@[0]);
            assert("hi"@[0] != "fr"@[0]);
            assert("hi"@[0] != "it"@[0]);
            assert("hi"@[0] != "es"@[0]);
            assert("hi"@[0] != "pt"@[0]);
            assert("hi"@[0] != "zh"@[0]);
            assert("hi"@[0] != "ko"@[0]);
            assert("hi"@[0] != "ru"@[0]);
            assert("hi"@[0] != "uk"@[0]);
            assert("hi"@[0] != "pl"@[0]);
            assert("hi"@[0] != "cs"@[0]);
            assert("hi"@[0] != "sk"@[0]);
            assert("hi"@[0] != "bg"@[0]);
            assert("hi"@[1] != "hr"@[1]);
            assert("hi"@[0] != "sr"@[0]);
            assert("hi"@[0] != "sl"@[0]);
            assert("hi"@[0] != "nl"@[0]);
            assert("hi"@[0] != "sv"@[0]);
            assert("hi"@[0] != "no"@[0]);
            assert("hi"@[0] != "da"@[0]);
            assert("hi"@[0] != "fi"@[0]);
            assert("hi"@[0] != "tr"@[0]);
            assert("hi"@[0] != "el"@[0]);
            assert("hi"@[1] != "he"@[1]);
            assert("hi"@[0] != "iw"@[0]);
            assert("hi"@[0] != "ro"@[0]);
            assert("hi"@[1] != "hu"@[1]);
            assert("hi"@[0] != "ca"@[0]);
            assert("hi"@[0] != "ar"@[0]);
        },
        Language::Thai => {
            assert(ascii_lowercase("th"@) =~= "th"@);
            assert("th"@[0] != "en"@[0]);
            assert("th"@[0] != "ja"@[0]);
            assert("th"@[0] != "de"@[0]);
            assert("th"@[0] != "fr"@[0]);
            assert("th"@[0] != "it"@[0]);
            assert("th"@[0] != "es"@[0]);
            assert("th"@[0] != "pt"@[0]);
            assert("th"@[0] != "zh"@[0]);
            assert("th"@[0] != "ko"@[0]);
            assert("th"@[0] != "ru"@[0]);
            assert("th"@[0] != "uk"@[0]);
            assert("th"@[0] != "pl"@[0]);
            assert("th"@[0] != "cs"@[0]);
            assert("th"@[0] != "sk"@[0]);
            assert("th"@[0] != "bg"@[0]);
            assert("th"@[0] != "hr"@[0]);
            assert("th"@[0] != "sr"@[0]);
            assert("th"@[0] != "sl"@[0]);
            assert("th"@[0] != "nl"@[0]);
            assert("th"@[0] != "sv"@[0]);
            assert("th"@[0] != "no"@[0]);
            assert("th"@[0] != "da"@[0]);
            assert("th"@[0] != "fi"@[0]);
            assert("th"@[1] != "tr"@[1]);
            assert("th"@[0] != "el"@[0]);
            assert("th"@[0] != "he"@[0]);
            assert("th"@[0] != "iw"@[0]);
            assert("th"@[0] != "ro"@[0]);
            assert("th"@[0] != "hu"@[0]);
            assert("th"@[0] != "ca"@[0]);
            assert("th"@[0] != "ar"@[0]);
            assert("th"@[0] != "hi"@[0]);
        },
        Language::Vietnamese => {
            assert(ascii_lowercase("vi"@) =~= "vi"@);
            assert("vi"@[0] != "en"@[0]);
            assert("vi"@[0] != "ja"@[0]);
            assert("vi"@[0] != "de"@[0]);
            assert("vi"@[0] != "fr"@[0]);
            assert("vi"@[0] != "it"@[0]);
            assert("vi"@[0] != "es"@[0]);
            assert("vi"@[0] != "pt"@[0]);
            assert("vi"@[0] != "zh"@[0]);
            assert("vi"@[0] != "ko"@[0]);
            assert("vi"@[0] != "ru"@[0]);
            assert("vi"@[0] != "uk"@[0]);
            assert("vi"@[0] != "pl"@[0]);
            assert("vi"@[0] != "cs"@[0]);
            assert("vi"@[0] != "sk"@[0]);
            assert("vi"@[0] != "bg"@[0]);
            assert("vi"@[0] != "hr"@[0]);
            assert("vi"@[0] != "sr"@[0]);
            assert("vi"@[0] != "sl"@[0]);
            assert("vi"@[0] != "nl"@[0]);
            assert("vi"@[0] != "sv"@[0]);
            assert("vi"@[0] != "no"@[0]);
            assert("vi"@[0] != "da"@[0]);
            assert("vi"@[0] != "fi"@[0]);
            assert("vi"@[0] != "tr"@[0]);
            assert("vi"@[0] != "el"@[0]);
            assert("vi"@[0] != "he"@[0]);
            assert("vi"@[0] != "iw"@[0]);
            assert("vi"@[0] != "ro"@[0]);
            assert("vi"@[0] != "hu"@[0]);
            assert("vi"@[0] != "ca"@[0]);
            assert("vi"@[0] != "ar"@[0]);
            assert("vi"@[0] != "hi"@[0]);
            assert("vi"@[0] != "th"@[0]);
        },
        Language::Indonesian => {
            assert(ascii_lowercase("id"@) =~= "id"@);
            assert("id"@[0] != "en"@[0]);
            assert("id"@[0] != "ja"@[0]);
            assert("id"@[0] != "de"@[0]);
            assert("id"@[0] != "fr"@[0]);
            assert("id"@[1] != "it"@[1]);
            assert("id"@[0] != "es"@[0]);
            assert("id"@[0] != "pt"@[0]);
            assert("id"@[0] != "zh"@[0]);
            assert("id"@[0] != "ko"@[0]);
            assert("id"@[0] != "ru"@[0]);
            assert("id"@[0] != "uk"@[0]);
            assert("id"@[0] != "pl"@[0]);
            assert("id"@[0] != "cs"@[0]);
            assert("id"@[0] != "sk"@[0]);
            assert("id"@[0] != "bg"@[0]);
            assert("id"@[0] != "hr"@[0]);
            assert("id"@[0] != "sr"@[0]);
            assert("id"@[0] != "sl"@[0]);
            assert("id"@[0] != "nl"@[0]);
            assert("id"@[0] != "sv"@[0]);
            assert("id"@[0] != "no"@[0]);
            assert("id"@[0] != "da"@[0]);
            assert("id"@[0] != "fi"@[0]);
            assert("id"@[0] != "tr"@[0]);
            assert("id"@[0] != "el"@[0]);
            assert("id"@[0] != "he"@[0]);
            assert("id"@[1] != "iw"@[1]);
            assert("id"@[0] != "ro"@[0]);
            assert("id"@[0] != "hu"@[0]);
            assert("id"@[0] != "ca"@[0]);
            assert("id"@[0] != "ar"@[0]);
            assert("id"@[0] != "hi"@[0]);
            assert("id"@[0] != "th"@[0]);
            assert("id"@[0] != "vi"@[0]);
        },
        Language::Malay => {
            assert(ascii_lowercase("ms"@) =~= "ms"@);
            assert("ms"@[0] != "en"@[0]);
            assert("ms"@[0] != "ja"@[0]);
            assert("ms"@[0] != "de"@[0]);
            assert("ms"@[0] != "fr"@[0]);
            assert("ms"@[0] != "it"@[0]);
            assert("ms"@[0] != "es"@[0]);
            assert("ms"@[0] != "pt"@[0]);
            assert("ms"@[0] != "zh"@[0]);
            assert("ms"@[0] != "ko"@[0]);
            assert("ms"@[0] != "ru"@[0]);
            assert("ms"@[0] != "uk"@[0]);
            assert("ms"@[0] != "pl"@[0]);
            assert("ms"@[0] != "cs"@[0]);
            assert("ms"@[0] != "sk"@[0]);
            assert("ms"@[0] != "bg"@[0]);
            assert("ms"@[0] != "hr"@[0]);
            assert("ms"@[0] != "sr"@[0]);
            assert("ms"@[0] != "sl"@[0]);
            assert("ms"@[0] != "nl"@[0]);
            assert("ms"@[0] != "sv"@[0]);
            assert("ms"@[0] != "no"@[0]);
            assert("ms"@[0] != "da"@[0]);
            assert("ms"@[0] != "fi"@[0]);
            assert("ms"@[0] != "tr"@[0]);
            assert("ms"@[0] != "el"@[0]);
            assert("ms"@[0] != "he"@[0]);
            assert("ms"@[0] != "iw"@[0]);
            assert("ms"@[0] != "ro"@[0]);
            assert("ms"@[0] != "hu"@[0]);
            assert("ms"@[0] != "ca"@[0]);
            assert("ms"@[0] != "ar"@[0]);
            assert("ms"@[0] != "hi"@[0]);
            assert("ms"@[0] != "th"@[0]);
            assert("ms"@[0] != "vi"@[0]);
            assert("ms"@[0] != "id"@[0]);
        },
        _ => {},
    }
}

/// Why probing a media file failed.
#[derive(Debug)]
pub enum FFprobeFailure {
    FFprobeExecutableNotFound,
    FailedToSpawnProcess,
    InputDoesNotExist,
    InputIsNotAFile,
    /// The probe printed nothing.
    NoJsonOutput,
    FailedToParseJson(serde_json::Error),
}

pub open spec fn failure_message(f: FFprobeFailure) -> Seq<char> {
    match f {
        FFprobeFailure::FFprobeExecutableNotFound => "Failed to locate `ffprobe` executable"@,
        FFprobeFailure::FailedToSpawnProcess => "Failed to spawn sub-process"@,
        FFprobeFailure::InputDoesNotExist => "`ffprobe` input does not exist"@,
        FFprobeFailure::InputIsNotAFile => "`ffprobe` input is not a file"@,
        FFprobeFailure::NoJsonOutput => "No JSON output from `ffprobe` command (internal error)"@,
        FFprobeFailure::FailedToParseJson(_) => "Failed to parse JSON output from `ffprobe` (internal error)"@,
    }
}

impl FFprobeFailure {
    /// The message shown to the user for this failure.
    pub fn message(&self) -> (res: &'static str)
        ensures
            res@ == failure_message(*self),
    {
        match self {
            FFprobeFailure::FFprobeExecutableNotFound => "Failed to locate `ffprobe` executable",
            FFprobeFailure::FailedToSpawnProcess => "Failed to spawn sub-process",
            FFprobeFailure::InputDoesNotExist => "`ffprobe` input does not exist",
            FFprobeFailure::InputIsNotAFile => "`ffprobe` input is not a file",
            FFprobeFailure::NoJsonOutput => "No JSON output from `ffprobe` command (internal error)",
            FFprobeFailure::FailedToParseJson(_) => "Failed to parse JSON output from `ffprobe` (internal error)",
        }
    }
}

/// The kind of a stream, by the `codec_type` that `ffprobe` gives it.
#[derive(Debug, Clone, Copy, PartialEq, Eq, Structural)]
pub enum StreamKind {
    Video,
    Audio,
    Subtitle,
    Data,
}

pub open spec fn stream_kind_of(codec_type: Seq<char>) -> Option<StreamKind> {
    if codec_type == "video"@ {
        Some(StreamKind::Video)
    } else if codec_type == "audio"@ {
        Some(StreamKind::Audio)
    } else if codec_type == "subtitle"@ {
        Some(StreamKind::Subtitle)
    } else if codec_type == "data"@ {
        Some(StreamKind::Data)
    } else {
        None
    }
}

/// The kind of stream a `codec_type` names; `None` for an unknown one, which
/// fails the reading of the probe's output.
pub fn stream_kind(codec_type: &str) -> (res: Option<StreamKind>)
    ensures
        res == stream_kind_of(codec_type@),
{
    let c = crate::text::chars_of(codec_type);
    if crate::text::chars_eq_str(&c, "video") {
        Some(StreamKind::Video)
    } else if crate::text::chars_eq_str(&c, "audio") {
        Some(StreamKind::Audio)
    } else if crate::text::chars_eq_str(&c, "subtitle") {
        Some(StreamKind::Subtitle)
    } else if crate::text::chars_eq_str(&c, "data") {
        Some(StreamKind::Data)
    } else {
        None
    }
}

/// The message for a stream with an unknown `codec_type`.
pub fn unknown_codec_message(codec_type: &str) -> (res: String)
    ensures
        res@ == "unknown codec: "@ + codec_type@,
{
    let mut out: Vec<char> = Vec::new();
    crate::text::extend_str(&mut out, "unknown codec: ");
    crate::text::extend_str(&mut out, codec_type);
    crate::text::string_from_chars(&out)
}

/// The bit rate of a video or audio stream: its own, else the `BPS` tag that
/// some muxers write.
pub fn bit_rate_or_bps(bit_rate: Option<size::Size>, bps: Option<size::Size>) -> (res: Option<
    size::Size,
>)
    ensures
        bit_rate is Some ==> res == bit_rate,
        bit_rate is None ==> res == bps,
{
    match bit_rate {
        Some(b) => Some(b),
        None => bps,
    }
}

/// One stream of a media file.
#[derive(Debug)]
pub enum FFprobeStream {
    Video(VideoStream),
    Audio(AudioStream),
    Subtitle(SubtitleStream),
    Data(DataStream),
    Other(String),
}

/// The container of a media file.
#[derive(Debug)]
pub struct FFprobeFormat {
    pub size: size::Size,
    pub bit_rate: size::Size,
    pub language: Option<Language>,
}

/// Everything `ffprobe` reports of a media file.
#[derive(Debug)]
pub struct FFprobeMediaInfo {
    pub streams: Vec<FFprobeStream>,
    pub format: FFprobeFormat,
}

/// `WIDTHxHEIGHT` for each video stream, in order.
pub open spec fn video_resolutions(s: Seq<FFprobeStream>) -> Seq<Seq<char>>
    decreases s.len(),
{
    if s.len() == 0 {
        Seq::empty()
    } else {
        let rest = video_resolutions(s.drop_last());
        match s.last() {
            FFprobeStream::Video(v) => rest.push(
                decimal_digits(v.width as nat) + seq!['x'] + decimal_digits(v.height as nat),
            ),
            _ => rest,
        }
    }
}

/// The language code of each audio stream that has a language, in order.
pub open spec fn audio_languages(s: Seq<FFprobeStream>) -> Seq<Seq<char>>
    decreases s.len(),
{
    if s.len() == 0 {
        Seq::empty()
    } else {
        let rest = audio_languages(s.drop_last());
        match s.last() {
            FFprobeStream::Audio(a) => match a.language {
                Some(l) => rest.push(language_code(l)),
                None => rest,
            },
            _ => rest,
        }
    }
}

/// The first `n` elements of `s` (all of them when there are fewer).
pub open spec fn first_n<T>(s: Seq<T>, n: nat) -> Seq<T> {
    if s.len() <= n {
        s
    } else {
        s.take(n as int)
    }
}

pub open spec fn strings_view(v: Seq<String>) -> Seq<Seq<char>> {
    v.map_values(|t: String| t@)
}

impl FFprobeMediaInfo {
    /// The checks made before the probe runs: the input must exist and be a file.
    pub fn check_input(exists: bool, is_file: bool) -> (res: Result<(), FFprobeFailure>)
        ensures
            !exists ==> res matches Err(FFprobeFailure::InputDoesNotExist),
            exists && !is_file ==> res matches Err(FFprobeFailure::InputIsNotAFile),
            exists && is_file ==> res is Ok,
    {
        if !exists {
            return Err(FFprobeFailure::InputDoesNotExist);
        }
        if !is_file {
            return Err(FFprobeFailure::InputIsNotAFile);
        }
        Ok(())
    }

    /// The result of a probe from what it printed and what reading that as JSON gave.
    pub fn from_json_output(stdout: &str, parsed: Result<FFprobeMediaInfo, serde_json::Error>) -> (res: Result<
        FFprobeMediaInfo,
        FFprobeFailure,
    >)
        ensures
            stdout@.len() == 0 ==> res matches Err(FFprobeFailure::NoJsonOutput),
            stdout@.len() > 0 ==> match parsed {
                Ok(info) => res == Ok::<FFprobeMediaInfo, FFprobeFailure>(info),
                Err(e) => res == Err::<FFprobeMediaInfo, FFprobeFailure>(
                    FFprobeFailure::FailedToParseJson(e),
                ),
            },
    {
        if stdout.unicode_len() == 0 {
            return Err(FFprobeFailure::NoJsonOutput);
        }
        match parsed {
            Ok(info) => Ok(info),
            Err(e) => Err(FFprobeFailure::FailedToParseJson(e)),
        }
    }

    /// The resolution row of the media summary: its label and the resolution of
    /// the first video stream, if there is one.
    pub fn resolution_row(&self) -> (res: Vec<String>)
        ensures
            strings_view(res@) == seq!["Resolution"@] + first_n(video_resolutions(self.streams@), 1),
    {
        let mut out: Vec<String> = Vec::new();
        out.push(String::from_str("Resolution"));
        let mut i: usize = 0;
        assert(self.streams@.take(0) =~= Seq::<FFprobeStream>::empty());
        assert(strings_view(out@) =~= seq!["Resolution"@]);
        while i < self.streams.len()
            invariant
                i <= self.streams.len(),
                1 <= out.len() <= 2,
                strings_view(out@) == seq!["Resolution"@] + first_n(video_resolutions(
                    self.streams@.take(i as int),
                ), 1),
            decreases self.streams.len() - i,
        {
            proof {
                lemma_video_resolutions_prefix(self.streams@, i as int);
            }
            if out.len() <= 1 {
                match &self.streams[i] {
                    FFprobeStream::Video(v) => {
                        let mut text: Vec<char> = Vec::new();
                        push_decimal(v.width, &mut text);
                        text.push('x');
                        push_decimal(v.height, &mut text);
                        assert(text@ =~= decimal_digits(v.width as nat) + seq!['x'] + decimal_digits(
                            v.height as nat,
                        ));
                        let ghost before = strings_view(out@);
                        out.push(string_from_chars(&text));
                        assert(strings_view(out@) =~= before.push(text@));
                    },
                    _ => {},
                }
            }
            proof {
                let r = video_resolutions(self.streams@.take(i as int));
                let r2 = video_resolutions(self.streams@.take(i + 1));
                assert(self.streams@.take(i + 1).drop_last() =~= self.streams@.take(i as int));
                assert(self.streams@.take(i + 1).last() == self.streams@[i as int]);
                if r.len() >= 1 {
                    assert(first_n(r2, 1) =~= first_n(r, 1));
                } else {
                    assert(first_n(r, 1) =~= r);
                    if r2.len() == 1 {
                        assert(first_n(r2, 1) =~= r2);
                    } else {
                        assert(r2 =~= r);
                    }
                }
            }
            i = i + 1;
        }
        assert(self.streams@.take(self.streams@.len() as int) =~= self.streams@);
        out
    }

    /// The language row of the media summary: its label and the languages of
    /// the first five audio streams that have one.
    pub fn language_row(&self) -> (res: Vec<&'static str>)
        ensures
            res@.map_values(|t: &str| t@) == seq!["Languages: "@] + first_n(audio_languages(
                self.streams@,
            ), 5),
    {
        let mut out: Vec<&'static str> = Vec::new();
        out.push("Languages: ");
        let mut i: usize = 0;
        assert(self.streams@.take(0) =~= Seq::<FFprobeStream>::empty());
        assert(out@.map_values(|t: &str| t@) =~= seq!["Languages: "@]);
        while i < self.streams.len()
            invariant
                i <= self.streams.len(),
                1 <= out.len() <= 6,
                out@.map_values(|t: &str| t@) == seq!["Languages: "@] + first_n(audio_languages(
                    self.streams@.take(i as int),
                ), 5),
            decreases self.streams.len() - i,
        {
            if out.len() <= 5 {
                match &self.streams[i] {
                    FFprobeStream::Audio(a) => {
                        match &a.language {
                            Some(l) => {
                                let ghost before = out@.map_values(|t: &str| t@);
                                out.push(code_of(l));
                                assert(out@.map_values(|t: &str| t@) =~= before.push(
                                    language_code(*l),
                                ));
                            },
                            None => {},
                        }
                    },
                    _ => {},
                }
            }
            proof {
                let r = audio_languages(self.streams@.take(i as int));
                let r2 = audio_languages(self.streams@.take(i + 1));
                assert(self.streams@.take(i + 1).drop_last() =~= self.streams@.take(i as int));
                assert(self.streams@.take(i + 1).last() == self.streams@[i as int]);
                if r.len() >= 5 {
                    assert(first_n(r2, 5) =~= first_n(r, 5));
                }
            }
            i = i + 1;
        }
        assert(self.streams@.take(self.streams@.len() as int) =~= self.streams@);
        out
    }
}

proof fn lemma_video_resolutions_prefix(s: Seq<FFprobeStream>, i: int)
    requires
        0 <= i < s.len(),
    ensures
        s.take(i + 1).drop_last() == s.take(i),
{
    assert(s.take(i + 1).drop_last() =~= s.take(i));
}

proof fn lemma_audio_languages_len(s: Seq<FFprobeStream>)
    ensures
        audio_languages(s).len() <= s.len(),
    decreases s.len(),
{
    if s.len() > 0 {
        lemma_audio_languages_len(s.drop_last());
    }
}

} // verus!
