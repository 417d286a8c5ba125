use vstd::prelude::*;

use crate::text::str_equal;

verus! {

/// The writing direction of a language.
#[derive(Clone, Copy, Debug, PartialEq, Eq, Structural)]
pub enum TextDirection {
    Ltr,
    Rtl,
}

/// The language codes that are written right to left.
pub open spec fn is_rtl_code(code: Seq<char>) -> bool {
    ||| code == "ar"@
    ||| code == "arc"@
    ||| code == "arz"@
    ||| code == "ckb"@
    ||| code == "dv"@
    ||| code == "fa"@
    ||| code == "ha"@
    ||| code == "he"@
    ||| code == "khw"@
    ||| code == "ks"@
    ||| code == "ku"@
    ||| code == "ps"@
    ||| code == "sd"@
    ||| code == "ur"@
    ||| code == "uz_AF"@
    ||| code == "yi"@
}

impl TextDirection {
    /// The text direction of a language given by its code; codes not known
    /// to be written right to left are taken as left to right.
    pub fn from_code(code: &str) -> (direction: TextDirection)
        ensures
            direction == (if is_rtl_code(code@) { TextDirection::Rtl } else { TextDirection::Ltr }),
    {
        let rtl_codes: [&str; 16] = [
            "ar",
            "arc",
            "arz",
            "ckb",
            "dv",
            "fa",
            "ha",
            "he",
            "khw",
            "ks",
            "ku",
            "ps",
            "sd",
            "ur",
            "uz_AF",
            "yi",
        ];
        let mut i: usize = 0;
        while i < 16
            invariant
                i <= 16,
                rtl_codes@ == seq![
                    "ar",
                    "arc",
                    "arz",
                    "ckb",
                    "dv",
                    "fa",
                    "ha",
                    "he",
                    "khw",
                    "ks",
                    "ku",
                    "ps",
                    "sd",
                    "ur",
                    "uz_AF",
                    "yi",
                ],
                forall|j: int| 0 <= j < i ==> code@ != (#[trigger] rtl_codes@[j])@,
            decreases 16 - i,
        {
            if crate::text::str_equal(code, rtl_codes[i]) {
                return TextDirection::Rtl;
            }
            i = i + 1;
        }
        TextDirection::Ltr
    }

    /// Whether the direction is right to left.
    pub fn is_rtl(&self) -> (rtl: bool)
        ensures
            rtl == (*self == TextDirection::Rtl),
    {
        match self {
            TextDirection::Ltr => false,
            TextDirection::Rtl => true,
        }
    }
}


/// The sets of interface translations that the site can be built with
/// (standing for the translation tables of the same names), and the set of
/// bare translation keys.
#[derive(Clone, Copy, Debug, PartialEq, Eq, Structural)]
pub enum TranslationSet {
    Ca,
    Da,
    De,
    En,
    Es,
    Fi,
    Fr,
    He,
    It,
    Ja,
    Lt,
    Nb,
    Nl,
    Pl,
    PtPt,
    Ru,
    SrCyrl,
    SrLatn,
    Sv,
    Tr,
    Uk,
    ZhHansCn,
    ZhHantTw,
    Keys,
}

/// The language of a site: its code (as the pages' `lang` attribute
/// states it), its writing direction, and its interface translations.
#[derive(Clone, Debug)]
pub struct Locale {
    pub language: String,
    pub text_direction: TextDirection,
    pub translations: TranslationSet,
}

/// The translations and writing direction of the languages that have
/// translations of their own.
pub open spec fn known_locale(code: Seq<char>) -> Option<(TranslationSet, TextDirection)> {
    if code == "ca"@ {
        Some((TranslationSet::Ca, TextDirection::Ltr))
    } else if code == "da"@ {
        Some((TranslationSet::Da, TextDirection::Ltr))
    } else if code == "de"@ {
        Some((TranslationSet::De, TextDirection::Ltr))
    } else if code == "en"@ {
        Some((TranslationSet::En, TextDirection::Ltr))
    } else if code == "es"@ {
        Some((TranslationSet::Es, TextDirection::Ltr))
    } else if code == "fi"@ {
        Some((TranslationSet::Fi, TextDirection::Ltr))
    } else if code == "fr"@ {
        Some((TranslationSet::Fr, TextDirection::Ltr))
    } else if code == "he"@ {
        Some((TranslationSet::He, TextDirection::Rtl))
    } else if code == "it"@ {
        Some((TranslationSet::It, TextDirection::Ltr))
    } else if code == "ja"@ {
        Some((TranslationSet::Ja, TextDirection::Ltr))
    } else if code == "lt"@ {
        Some((TranslationSet::Lt, TextDirection::Ltr))
    } else if code == "nb"@ {
        Some((TranslationSet::Nb, TextDirection::Ltr))
    } else if code == "nl"@ {
        Some((TranslationSet::Nl, TextDirection::Ltr))
    } else if code == "pl"@ {
        Some((TranslationSet::Pl, TextDirection::Ltr))
    } else if code == "pt-pt"@ {
        Some((TranslationSet::PtPt, TextDirection::Ltr))
    } else if code == "ru"@ {
        Some((TranslationSet::Ru, TextDirection::Ltr))
    } else if code == "sr-cyrl"@ {
        Some((TranslationSet::SrCyrl, TextDirection::Ltr))
    } else if code == "sr-latn"@ {
        Some((TranslationSet::SrLatn, TextDirection::Ltr))
    } else if code == "sv"@ {
        Some((TranslationSet::Sv, TextDirection::Ltr))
    } else if code == "tr"@ {
        Some((TranslationSet::Tr, TextDirection::Ltr))
    } else if code == "uk"@ {
        Some((TranslationSet::Uk, TextDirection::Ltr))
    } else if code == "zh-hans-cn"@ {
        Some((TranslationSet::ZhHansCn, TextDirection::Ltr))
    } else if code == "zh-hant-tw"@ {
        Some((TranslationSet::ZhHantTw, TextDirection::Ltr))
    } else {
        None
    }
}

fn lookup_locale(code: &str) -> (known: Option<(TranslationSet, TextDirection)>)
    ensures
        known == known_locale(code@),
{
    if str_equal(code, "ca") {
            Some((TranslationSet::Ca, TextDirection::Ltr))
        } else if str_equal(code, "da") {
            Some((TranslationSet::Da, TextDirection::Ltr))
        } else if str_equal(code, "de") {
            Some((TranslationSet::De, TextDirection::Ltr))
        } else if str_equal(code, "en") {
            Some((TranslationSet::En, TextDirection::Ltr))
        } else if str_equal(code, "es") {
            Some((TranslationSet::Es, TextDirection::Ltr))
        } else if str_equal(code, "fi") {
            Some((TranslationSet::Fi, TextDirection::Ltr))
        } else if str_equal(code, "fr") {
            Some((TranslationSet::Fr, TextDirection::Ltr))
        } else if str_equal(code, "he") {
            Some((TranslationSet::He, TextDirection::Rtl))
        } else if str_equal(code, "it") {
            Some((TranslationSet::It, TextDirection::Ltr))
        } else if str_equal(code, "ja") {
            Some((TranslationSet::Ja, TextDirection::Ltr))
        } else if str_equal(code, "lt") {
            Some((TranslationSet::Lt, TextDirection::Ltr))
        } else if str_equal(code, "nb") {
            Some((TranslationSet::Nb, TextDirection::Ltr))
        } else if str_equal(code, "nl") {
            Some((TranslationSet::Nl, TextDirection::Ltr))
        } else if str_equal(code, "pl") {
            Some((TranslationSet::Pl, TextDirection::Ltr))
        } else if str_equal(code, "pt-pt") {
            Some((TranslationSet::PtPt, TextDirection::Ltr))
        } else if str_equal(code, "ru") {
            Some((TranslationSet::Ru, TextDirection::Ltr))
        } else if str_equal(code, "sr-cyrl") {
            Some((TranslationSet::SrCyrl, TextDirection::Ltr))
        } else if str_equal(code, "sr-latn") {
            Some((TranslationSet::SrLatn, TextDirection::Ltr))
        } else if str_equal(code, "sv") {
            Some((TranslationSet::Sv, TextDirection::Ltr))
        } else if str_equal(code, "tr") {
            Some((TranslationSet::Tr, TextDirection::Ltr))
        } else if str_equal(code, "uk") {
            Some((TranslationSet::Uk, TextDirection::Ltr))
        } else if str_equal(code, "zh-hans-cn") {
            Some((TranslationSet::ZhHansCn, TextDirection::Ltr))
        } else if str_equal(code, "zh-hant-tw") {
            Some((TranslationSet::ZhHantTw, TextDirection::Ltr))
        } else {
            None
        }
}

impl Locale {
    /// English, the language used where none is configured.
    pub fn default() -> (locale: Locale)
        ensures
            locale.language@ == "en"@,
            locale.text_direction == TextDirection::Ltr,
            locale.translations == TranslationSet::En,
    {
        Locale { language: String::from_str("en"), text_direction: TextDirection::Ltr, translations: TranslationSet::En }
    }

    /// The locale that shows the bare translation keys, for translators.
    pub fn keys() -> (locale: Locale)
        ensures
            locale.language@ == "en"@,
            locale.text_direction == TextDirection::Ltr,
            locale.translations == TranslationSet::Keys,
    {
        Locale { language: String::from_str("en"), text_direction: TextDirection::Ltr, translations: TranslationSet::Keys }
    }

    /// The locale for a language code: the language's own translations and
    /// direction where it has translations; else English translations, with
    /// the direction that the code is known to be written in. The code is
    /// kept as the language either way.
    pub fn from_code(language: &str) -> (locale: Locale)
        ensures
            locale.language@ == language@,
            locale.text_direction == spec_direction(language@),
            match known_locale(language@) {
                Some((translations, direction)) => locale.translations == translations && locale.text_direction
                    == direction,
                None => locale.translations == TranslationSet::En && locale.text_direction == (if is_rtl_code(
                    language@,
                ) {
                    TextDirection::Rtl
                } else {
                    TextDirection::Ltr
                }),
            },
    {
        proof {
            lemma_locale_direction_follows_code(language@);
        }
        match lookup_locale(language) {
            Some((translations, text_direction)) => Locale {
                language: String::from_str(language),
                text_direction,
                translations,
            },
            None => Locale {
                language: String::from_str(language),
                text_direction: TextDirection::from_code(language),
                translations: TranslationSet::En,
            },
        }
    }
}


/// What `TextDirection::from_code` gives for a language code.
pub open spec fn spec_direction(code: Seq<char>) -> TextDirection {
    if is_rtl_code(code) {
        TextDirection::Rtl
    } else {
        TextDirection::Ltr
    }
}

/// A locale keeps its language code, and its text direction is the one
/// that `TextDirection::from_code` gives for the code: the languages that
/// have translations are written in the direction their code has, and
/// every other code gets English translations and its own direction.
pub proof fn lemma_locale_direction_follows_code(code: Seq<char>)
    ensures
        match known_locale(code) {
            Some((_, direction)) => direction == spec_direction(code),
            None => true,
        },
{
    reveal_strlit("ar");
    assert("ar"@ =~= seq!['a', 'r']);
    reveal_strlit("arc");
    assert("arc"@ =~= seq!['a', 'r', 'c']);
    reveal_strlit("arz");
    assert("arz"@ =~= seq!['a', 'r', 'z']);
    reveal_strlit("ca");
    assert("ca"@ =~= seq!['c', 'a']);
    reveal_strlit("ckb");
    assert("ckb"@ =~= seq!['c', 'k', 'b']);
    reveal_strlit("da");
    assert("da"@ =~= seq!['d', 'a']);
    reveal_strlit("de");
    assert("de"@ =~= seq!['d', 'e']);
    reveal_strlit("dv");
    assert("dv"@ =~= seq!['d', 'v']);
    reveal_strlit("en");
    assert("en"@ =~= seq!['e', 'n']);
    reveal_strlit("es");
    assert("es"@ =~= seq!['e', 's']);
    reveal_strlit("fa");
    assert("fa"@ =~= seq!['f', 'a']);
    reveal_strlit("fi");
    assert("fi"@ =~= seq!['f', 'i']);
    reveal_strlit("fr");
    assert("fr"@ =~= seq!['f', 'r']);
    reveal_strlit("ha");
    assert("ha"@ =~= seq!['h', 'a']);
    reveal_strlit("he");
    assert("he"@ =~= seq!['h', 'e']);
    reveal_strlit("it");
    assert("it"@ =~= seq!['i', 't']);
    reveal_strlit("ja");
    assert("ja"@ =~= seq!['j', 'a']);
    reveal_strlit("khw");
    assert("khw"@ =~= seq!['k', 'h', 'w']);
    reveal_strlit("ks");
    assert("ks"@ =~= seq!['k', 's']);
    reveal_strlit("ku");
    assert("ku"@ =~= seq!['k', 'u']);
    reveal_strlit("lt");
    assert("lt"@ =~= seq!['l', 't']);
    reveal_strlit("nb");
    assert("nb"@ =~= seq!['n', 'b']);
    reveal_strlit("nl");
    assert("nl"@ =~= seq!['n', 'l']);
    reveal_strlit("pl");
    assert("pl"@ =~= seq!['p', 'l']);
    reveal_strlit("ps");
    assert("ps"@ =~= seq!['p', 's']);
    reveal_strlit("pt-pt");
    assert("pt-pt"@ =~= seq!['p', 't', '-', 'p', 't']);
    reveal_strlit("ru");
    assert("ru"@ =~= seq!['r', 'u']);
    reveal_strlit("sd");
    assert("sd"@ =~= seq!['s', 'd']);
    reveal_strlit("sr-cyrl");
    assert("sr-cyrl"@ =~= seq!['s', 'r', '-', 'c', 'y', 'r', 'l']);
    reveal_strlit("sr-latn");
    assert("sr-latn"@ =~= seq!['s', 'r', '-', 'l', 'a', 't', 'n']);
    reveal_strlit("sv");
    assert("sv"@ =~= seq!['s', 'v']);
    reveal_strlit("tr");
    assert("tr"@ =~= seq!['t', 'r']);
    reveal_strlit("uk");
    assert("uk"@ =~= seq!['u', 'k']);
    reveal_strlit("ur");
    assert("ur"@ =~= seq!['u', 'r']);
    reveal_strlit("uz_AF");
    assert("uz_AF"@ =~= seq!['u', 'z', '_', 'A', 'F']);
    reveal_strlit("yi");
    assert("yi"@ =~= seq!['y', 'i']);
    reveal_strlit("zh-hans-cn");
    assert("zh-hans-cn"@ =~= seq!['z', 'h', '-', 'h', 'a', 'n', 's', '-', 'c', 'n']);
    reveal_strlit("zh-hant-tw");
    assert("zh-hant-tw"@ =~= seq!['z', 'h', '-', 'h', 'a', 'n', 't', '-', 't', 'w']);
    if code == "ca"@ {
        assert(!is_rtl_code(code));
    }
    if code == "da"@ {
        assert(!is_rtl_code(code));
    }
    if code == "de"@ {
        assert(!is_rtl_code(code));
    }
    if code == "en"@ {
        assert(!is_rtl_code(code));
    }
    if code == "es"@ {
        assert(!is_rtl_code(code));
    }
    if code == "fi"@ {
        assert(!is_rtl_code(code));
    }
    if code == "fr"@ {
        assert(!is_rtl_code(code));
    }
    if code == "he"@ {
        assert(is_rtl_code(code));
    }
    if code == "it"@ {
        assert(!is_rtl_code(code));
    }
    if code == "ja"@ {
        assert(!is_rtl_code(code));
    }
    if code == "lt"@ {
        assert(!is_rtl_code(code));
    }
    if code == "nb"@ {
        assert(!is_rtl_code(code));
    }
    if code == "nl"@ {
        assert(!is_rtl_code(code));
    }
    if code == "pl"@ {
        assert(!is_rtl_code(code));
    }
    if code == "pt-pt"@ {
        assert(!is_rtl_code(code));
    }
    if code == "ru"@ {
        assert(!is_rtl_code(code));
    }
    if code == "sr-cyrl"@ {
        assert(!is_rtl_code(code));
    }
    if code == "sr-latn"@ {
        assert(!is_rtl_code(code));
    }
    if code == "sv"@ {
        assert(!is_rtl_code(code));
    }
    if code == "tr"@ {
        assert(!is_rtl_code(code));
    }
    if code == "uk"@ {
        assert(!is_rtl_code(code));
    }
    if code == "zh-hans-cn"@ {
        assert(!is_rtl_code(code));
    }
    if code == "zh-hant-tw"@ {
        assert(!is_rtl_code(code));
    }
}

} // verus!
