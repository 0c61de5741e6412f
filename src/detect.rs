use vstd::prelude::*;
use crate::text::starts_with;

verus! {

/// What `str::to_lowercase` makes of a character sequence.
pub uninterp spec fn lower_of(s: Seq<char>) -> Seq<char>;

/// Relies on `str::to_lowercase`: the lowercase form of `s`, which depends on
/// its characters alone.
#[verifier::external_body]
fn lowercase(s: &str) -> (r: String)
    ensures
        r@ == lower_of(s@),
{
    s.to_lowercase()
}

/// Relies on `sys_locale::get_locale`: the host's preferred locale, if it has
/// one. Nothing is promised of its value.
pub assume_specification[ sys_locale::get_locale ]() -> Option<String>;

/// The language code of an already lowercased locale: `uk` or `ru` by prefix,
/// `en` for everything else.
pub open spec fn code_of_lowered(s: Seq<char>) -> Seq<char> {
    if "uk"@.is_prefix_of(s) {
        "uk"@
    } else if "ru"@.is_prefix_of(s) {
        "ru"@
    } else {
        "en"@
    }
}

/// The language code detected from what the host reports: `en` when it reports
/// nothing, else the code of the report's lowercase form.
pub open spec fn detected_code(locale: Option<Seq<char>>) -> Seq<char> {
    match locale {
        Some(l) => code_of_lowered(lower_of(l)),
        None => "en"@,
    }
}

/// The language code of an already lowercased locale.
pub fn code_for_lowered(s: &str) -> (r: String)
    ensures
        r@ == code_of_lowered(s@),
{
    if starts_with(s, "uk") {
        "uk".to_string()
    } else if starts_with(s, "ru") {
        "ru".to_string()
    } else if starts_with(s, "en") {
        "en".to_string()
    } else {
        "en".to_string()
    }
}

/// The language code for a locale as the host reports it, or for its absence.
pub fn code_for_locale(locale: Option<String>) -> (r: String)
    ensures
        r@ == detected_code(
            match locale {
                Some(l) => Some(l@),
                None => None,
            },
        ),
{
    match locale {
        Some(l) => {
            let lowered = lowercase(l.as_str());
            code_for_lowered(lowered.as_str())
        },
        None => "en".to_string(),
    }
}

/// The language code of the host's preferred locale: always `uk`, `ru` or `en`.
pub fn get_locale_from_system() -> (r: String)
    ensures
        r@ == "uk"@ || r@ == "ru"@ || r@ == "en"@,
{
    code_for_locale(sys_locale::get_locale())
}

/// Detection reads a locale only through its lowercase form: two locales with the
/// same lowercase form give the same code.
pub proof fn lemma_detection_ignores_case(a: Seq<char>, b: Seq<char>)
    requires
        lower_of(a) == lower_of(b),
    ensures
        detected_code(Some(a)) == detected_code(Some(b)),
{
}

/// A locale whose lowercase form starts with `en` gives the English code.
pub proof fn lemma_english_prefix_gives_english(locale: Seq<char>)
    requires
        "en"@.is_prefix_of(lower_of(locale)),
    ensures
        detected_code(Some(locale)) == "en"@,
{
    reveal_strlit("en");
    reveal_strlit("uk");
    reveal_strlit("ru");
    let l = lower_of(locale);
    assert(l[0] == "en"@[0]);
}

/// When the host reports no locale, the English code is detected.
pub proof fn lemma_absent_locale_gives_english()
    ensures
        detected_code(None) == "en"@,
{
}

} // verus!
