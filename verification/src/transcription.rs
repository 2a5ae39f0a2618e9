//! The decisions a transcription makes around its backends: which language
//! name a backend is asked for, and which Chinese script the result ends in.

use vstd::prelude::*;
use vstd::string::{StringExecFns, StrSliceExecFns};
use crate::chinese::{ChineseConverter, has_no_ideograph, Script, converted, convert_script, looks_chinese, looks_chinese_spec};

verus! {

broadcast use vstd::string::group_string_axioms;

/// The settings that a transcription reads.
#[derive(Debug)]
pub struct AppSettings {
    /// The language code the user selected, such as `"en"`, `"zh-TW"` or `"auto"`.
    pub selected_language: String,
    /// Whether the backend is asked to translate into English.
    pub translate_to_english: bool,
}

/// The view of an optional string.
pub open spec fn opt_str_view(o: Option<&str>) -> Option<Seq<char>> {
    match o {
        Some(s) => Some(s@),
        None => None,
    }
}

/// Whether two strings hold the same characters.
pub fn str_eq(a: &str, b: &str) -> (res: bool)
    ensures
        res == (a@ == b@),
{
    let n = a.unicode_len();
    if n != b.unicode_len() {
        return false;
    }
    let mut i: usize = 0;
    while i < n
        invariant
            n == a@.len(),
            n == b@.len(),
            i <= n,
            forall|j: int| 0 <= j < i ==> a@[j] == b@[j],
        decreases n - i,
    {
        if a.get_char(i) != b.get_char(i) {
            return false;
        }
        i = i + 1;
    }
    assert(a@ =~= b@);
    true
}

/// The code point of `c` after ASCII lowercasing.
pub open spec fn ascii_lower_code(c: char) -> int {
    if 'A' <= c && c <= 'Z' {
        c as int + 32
    } else {
        c as int
    }
}

/// Whether lowercasing the ASCII letters of `s` gives exactly `lower`.
pub open spec fn ascii_lowercase_is(s: Seq<char>, lower: Seq<char>) -> bool {
    &&& s.len() == lower.len()
    &&& forall|i: int| 0 <= i < s.len() ==> ascii_lower_code(#[trigger] s[i]) == lower[i] as int
}

/// Whether lowercasing the ASCII letters of `s` gives exactly `lower`.
pub fn ascii_lowercase_eq(s: &str, lower: &str) -> (res: bool)
    ensures
        res == ascii_lowercase_is(s@, lower@),
{
    let n = s.unicode_len();
    if n != lower.unicode_len() {
        return false;
    }
    let mut i: usize = 0;
    while i < n
        invariant
            n == s@.len(),
            n == lower@.len(),
            i <= n,
            forall|j: int| 0 <= j < i ==> ascii_lower_code(#[trigger] s@[j]) == lower@[j] as int,
        decreases n - i,
    {
        let c = s.get_char(i);
        let l = lower.get_char(i);
        let code: u32 = if 'A' <= c && c <= 'Z' { (c as u32) + 32 } else { c as u32 };
        if code != (l as u32) {
            return false;
        }
        i = i + 1;
    }
    true
}

/// The Qwen3-ASR language name for a language code; `None` asks the model to
/// detect the language.
pub open spec fn qwen_language_spec(code: Seq<char>) -> Option<Seq<char>> {
    if code == "zh"@ || code == "zh-TW"@ || code == "zh-CN"@ {
        Some("Chinese"@)
    } else if code == "yue"@ {
        Some("Cantonese"@)
    } else if code == "en"@ {
        Some("English"@)
    } else if code == "ar"@ {
        Some("Arabic"@)
    } else if code == "cs"@ {
        Some("Czech"@)
    } else if code == "da"@ {
        Some("Danish"@)
    } else if code == "de"@ {
        Some("German"@)
    } else if code == "el"@ {
        Some("Greek"@)
    } else if code == "es"@ {
        Some("Spanish"@)
    } else if code == "fa"@ {
        Some("Persian"@)
    } else if code == "fi"@ {
        Some("Finnish"@)
    } else if code == "fil"@ {
        Some("Filipino"@)
    } else if code == "fr"@ {
        Some("French"@)
    } else if code == "hi"@ {
        Some("Hindi"@)
    } else if code == "hu"@ {
        Some("Hungarian"@)
    } else if code == "id"@ {
        Some("Indonesian"@)
    } else if code == "it"@ {
        Some("Italian"@)
    } else if code == "ja"@ {
        Some("Japanese"@)
    } else if code == "ko"@ {
        Some("Korean"@)
    } else if code == "mk"@ {
        Some("Macedonian"@)
    } else if code == "ms"@ {
        Some("Malay"@)
    } else if code == "nl"@ {
        Some("Dutch"@)
    } else if code == "pl"@ {
        Some("Polish"@)
    } else if code == "pt"@ {
        Some("Portuguese"@)
    } else if code == "ro"@ {
        Some("Romanian"@)
    } else if code == "ru"@ {
        Some("Russian"@)
    } else if code == "sv"@ {
        Some("Swedish"@)
    } else if code == "th"@ {
        Some("Thai"@)
    } else if code == "tr"@ {
        Some("Turkish"@)
    } else if code == "vi"@ {
        Some("Vietnamese"@)
    } else {
        None
    }
}

/// Map a language code to a Qwen3-ASR language name.
///
/// `None` means "detect it": that is the right answer both for the auto modes
/// and for the languages Qwen3-ASR does not list, where passing the code
/// through would land in the prompt as a bogus language name.
pub fn qwen_language(code: &str) -> (res: Option<&'static str>)
    ensures
        opt_str_view(res) == qwen_language_spec(code@),
{
    if str_eq(code, "zh") || str_eq(code, "zh-TW") || str_eq(code, "zh-CN") {
        Some("Chinese")
    } else if str_eq(code, "yue") {
        Some("Cantonese")
    } else if str_eq(code, "en") {
        Some("English")
    } else if str_eq(code, "ar") {
        Some("Arabic")
    } else if str_eq(code, "cs") {
        Some("Czech")
    } else if str_eq(code, "da") {
        Some("Danish")
    } else if str_eq(code, "de") {
        Some("German")
    } else if str_eq(code, "el") {
        Some("Greek")
    } else if str_eq(code, "es") {
        Some("Spanish")
    } else if str_eq(code, "fa") {
        Some("Persian")
    } else if str_eq(code, "fi") {
        Some("Finnish")
    } else if str_eq(code, "fil") {
        Some("Filipino")
    } else if str_eq(code, "fr") {
        Some("French")
    } else if str_eq(code, "hi") {
        Some("Hindi")
    } else if str_eq(code, "hu") {
        Some("Hungarian")
    } else if str_eq(code, "id") {
        Some("Indonesian")
    } else if str_eq(code, "it") {
        Some("Italian")
    } else if str_eq(code, "ja") {
        Some("Japanese")
    } else if str_eq(code, "ko") {
        Some("Korean")
    } else if str_eq(code, "mk") {
        Some("Macedonian")
    } else if str_eq(code, "ms") {
        Some("Malay")
    } else if str_eq(code, "nl") {
        Some("Dutch")
    } else if str_eq(code, "pl") {
        Some("Polish")
    } else if str_eq(code, "pt") {
        Some("Portuguese")
    } else if str_eq(code, "ro") {
        Some("Romanian")
    } else if str_eq(code, "ru") {
        Some("Russian")
    } else if str_eq(code, "sv") {
        Some("Swedish")
    } else if str_eq(code, "th") {
        Some("Thai")
    } else if str_eq(code, "tr") {
        Some("Turkish")
    } else if str_eq(code, "vi") {
        Some("Vietnamese")
    } else {
        None
    }
}


/// The Whisper language for a language code: the auto modes detect it
/// (`None`), and the Chinese variants share Whisper's one language, `"zh"`;
/// every other code is passed through.
pub open spec fn whisper_language_spec(code: Seq<char>) -> Option<Seq<char>> {
    if code == "auto"@ || code == "auto-zh-TW"@ || code == "auto-zh-CN"@ {
        None
    } else if code == "zh-TW"@ || code == "zh-CN"@ {
        Some("zh"@)
    } else {
        Some(code)
    }
}

/// Map a language code to the language Whisper is asked for.
///
/// Chinese variants share one Whisper language; which script comes out is
/// decided after transcription, in `apply_chinese_script`.
pub fn whisper_language<'a>(code: &'a str) -> (res: Option<&'a str>)
    ensures
        opt_str_view(res) == whisper_language_spec(code@),
{
    if str_eq(code, "auto") || str_eq(code, "auto-zh-TW") || str_eq(code, "auto-zh-CN") {
        None
    } else if str_eq(code, "zh-TW") || str_eq(code, "zh-CN") {
        Some("zh")
    } else {
        Some(code)
    }
}

/// The script a selected language asks for: Traditional for `zh-TW` and
/// `auto-zh-TW`, Simplified for `zh-CN` and `auto-zh-CN`, none otherwise
/// (`zh` is "Chinese (Auto)" and keeps the model's own script).
pub open spec fn script_preference(language: Seq<char>) -> Option<Script> {
    if language == "zh-TW"@ || language == "auto-zh-TW"@ {
        Some(Script::Traditional)
    } else if language == "zh-CN"@ || language == "auto-zh-CN"@ {
        Some(Script::Simplified)
    } else {
        None
    }
}

/// Whether a language the backend reported is Chinese: `chinese` or
/// `cantonese`, in any ASCII case.
pub open spec fn reported_chinese(language: Seq<char>) -> bool {
    ascii_lowercase_is(language, "chinese"@) || ascii_lowercase_is(language, "cantonese"@)
}

/// Whether the transcription is taken to be Chinese: the reported language
/// decides when there is one, the script of the text otherwise.
pub open spec fn transcript_is_chinese(reported: Option<Seq<char>>, text: Seq<char>) -> bool {
    match reported {
        Some(language) => reported_chinese(language),
        None => looks_chinese_spec(text),
    }
}

/// Whether `c` has the Unicode `White_Space` property, the white space that
/// `str::trim` removes: tab, line feed, vertical tab, form feed, carriage
/// return, space, next line, no-break space, ogham space mark, the spaces
/// from en quad to hair space, line and paragraph separator, narrow no-break
/// space, medium mathematical space and ideographic space.
pub open spec fn unicode_white_space(c: char) -> bool {
    ||| ('\u{0009}' <= c && c <= '\u{000D}')
    ||| c == '\u{0020}'
    ||| c == '\u{0085}'
    ||| c == '\u{00A0}'
    ||| c == '\u{1680}'
    ||| ('\u{2000}' <= c && c <= '\u{200A}')
    ||| c == '\u{2028}'
    ||| c == '\u{2029}'
    ||| c == '\u{202F}'
    ||| c == '\u{205F}'
    ||| c == '\u{3000}'
}

/// Whether `c` has the Unicode `White_Space` property.
pub fn is_white_space(c: char) -> (res: bool)
    ensures
        res == unicode_white_space(c),
{
    ('\u{0009}' <= c && c <= '\u{000D}') || c == '\u{0020}' || c == '\u{0085}' || c
        == '\u{00A0}' || c == '\u{1680}' || ('\u{2000}' <= c && c <= '\u{200A}') || c
        == '\u{2028}' || c == '\u{2029}' || c == '\u{202F}' || c == '\u{205F}' || c
        == '\u{3000}'
}

/// `s` without its leading white space.
pub open spec fn trim_start_spec(s: Seq<char>) -> Seq<char>
    decreases s.len(),
{
    if s.len() > 0 && unicode_white_space(s[0]) {
        trim_start_spec(s.drop_first())
    } else {
        s
    }
}

/// `s` without its trailing white space.
pub open spec fn trim_end_spec(s: Seq<char>) -> Seq<char>
    decreases s.len(),
{
    if s.len() > 0 && unicode_white_space(s.last()) {
        trim_end_spec(s.drop_last())
    } else {
        s
    }
}

/// `s` without its leading and trailing white space.
pub open spec fn trim_spec(s: Seq<char>) -> Seq<char> {
    trim_end_spec(trim_start_spec(s))
}

/// The characters of `s`, in a vector.
fn chars_of(s: &str) -> (res: Vec<char>)
    ensures
        res@ == s@,
{
    let mut chars: Vec<char> = Vec::new();
    for c in it: s.chars()
        invariant
            it.seq() == s@,
            chars@ == s@.take(it.index()),
    {
        chars.push(c);
    }
    assert(chars@ =~= s@);
    chars
}

/// `s` without its leading and trailing white space.
pub fn trim_white_space(s: &str) -> (res: &str)
    ensures
        res@ == trim_spec(s@),
{
    let chars = chars_of(s);
    let n = chars.len();
    let mut i: usize = 0;
    assert(s@.subrange(0, n as int) =~= s@);
    while i < n
        invariant
            chars@ == s@,
            n == s@.len(),
            i <= n,
            trim_start_spec(s@) == trim_start_spec(s@.subrange(i as int, n as int)),
        ensures
            i < n ==> !unicode_white_space(s@[i as int]),
        decreases n - i,
    {
        if !is_white_space(chars[i]) {
            break;
        }
        assert(s@.subrange(i as int, n as int).drop_first() =~= s@.subrange(i + 1, n as int));
        i = i + 1;
    }
    assert(trim_start_spec(s@) == s@.subrange(i as int, n as int));
    let mut j: usize = n;
    while j > i
        invariant
            chars@ == s@,
            n == s@.len(),
            i <= j <= n,
            trim_end_spec(s@.subrange(i as int, n as int)) == trim_end_spec(
                s@.subrange(i as int, j as int),
            ),
        ensures
            i < j ==> !unicode_white_space(s@[j - 1]),
        decreases j - i,
    {
        if !is_white_space(chars[j - 1]) {
            break;
        }
        assert(s@.subrange(i as int, j as int).drop_last() =~= s@.subrange(i as int, j - 1));
        j = j - 1;
    }
    assert(trim_end_spec(s@.subrange(i as int, j as int)) == s@.subrange(i as int, j as int));
    s.substring_char(i, j)
}

/// The text of a sequence of segments, joined in order.
pub open spec fn joined_segments(segments: Seq<String>) -> Seq<char>
    decreases segments.len(),
{
    if segments.len() == 0 {
        Seq::empty()
    } else {
        joined_segments(segments.drop_last()) + segments.last()@
    }
}

/// The transcription Whisper's segments make: their text joined, trimmed of
/// white space, in the script the settings select. Whisper does not report
/// the language it detected, so the auto modes fall back to the script of
/// the text.
pub fn whisper_transcript(
    converter: &ChineseConverter,
    segments: &Vec<String>,
    settings: &AppSettings,
) -> (res: String)
    ensures
        res@ == apply_chinese_script_spec(
            trim_spec(joined_segments(segments@)),
            settings.selected_language@,
            settings.translate_to_english,
            None,
        ),
{
    let mut joined = String::new();
    let n = segments.len();
    for i in 0..n
        invariant
            n == segments@.len(),
            joined@ == joined_segments(segments@.take(i as int)),
    {
        assert(segments@.take(i + 1).drop_last() =~= segments@.take(i as int));
        joined.append(segments[i].as_str());
    }
    assert(segments@.take(n as int) =~= segments@);
    let trimmed = trim_white_space(joined.as_str());
    apply_chinese_script_with(converter, String::from_str(trimmed), settings, None)
}

/// The script a transcription is converted to, if any.
///
/// A translation request outranks a script preference, and only text taken
/// to be Chinese is converted.
pub open spec fn script_target_spec(
    language: Seq<char>,
    translate_to_english: bool,
    reported: Option<Seq<char>>,
    text: Seq<char>,
) -> Option<Script> {
    match script_preference(language) {
        Some(script) => {
            if !translate_to_english && transcript_is_chinese(reported, text) {
                Some(script)
            } else {
                None
            }
        },
        None => None,
    }
}

/// What enforcing the selected script makes of a transcription.
pub open spec fn apply_chinese_script_spec(
    text: Seq<char>,
    language: Seq<char>,
    translate_to_english: bool,
    reported: Option<Seq<char>>,
) -> Seq<char> {
    match script_target_spec(language, translate_to_english, reported, text) {
        Some(script) => converted(script, text),
        None => text,
    }
}

/// The script `text` is to be converted to under `settings`, given the
/// language the backend reported, if it reported one.
pub fn script_target(settings: &AppSettings, reported_language: Option<&str>, text: &str) -> (res:
    Option<Script>)
    ensures
        res == script_target_spec(
            settings.selected_language@,
            settings.translate_to_english,
            opt_str_view(reported_language),
            text@,
        ),
{
    let language = settings.selected_language.as_str();
    let script = if str_eq(language, "zh-TW") || str_eq(language, "auto-zh-TW") {
        Script::Traditional
    } else if str_eq(language, "zh-CN") || str_eq(language, "auto-zh-CN") {
        Script::Simplified
    } else {
        return None;
    };
    if settings.translate_to_english {
        return None;
    }
    let is_chinese = match reported_language {
        Some(reported) => ascii_lowercase_eq(reported, "chinese") || ascii_lowercase_eq(
            reported,
            "cantonese",
        ),
        None => looks_chinese(text),
    };
    if is_chinese {
        Some(script)
    } else {
        None
    }
}

/// Enforce the Chinese script the user selected.
///
/// Neither backend can be talked into a script, so the conversion happens
/// here. `reported_language` is the language the backend says it
/// transcribed, when it says; otherwise the script of the text decides, which
/// keeps Japanese and Korean output (shared Han characters) untouched.
pub fn apply_chinese_script(text: String, settings: &AppSettings, reported_language: Option<&str>) -> (res:
    String)
    ensures
        res@ == apply_chinese_script_spec(
            text@,
            settings.selected_language@,
            settings.translate_to_english,
            opt_str_view(reported_language),
        ),
        has_no_ideograph(text@) ==> res@ == text@,
{
    match script_target(settings, reported_language, text.as_str()) {
        Some(script) => convert_script(script, text.as_str()),
        None => text,
    }
}

/// Enforce the Chinese script the user selected, with rulesets that
/// `converter` has already loaded; the same as `apply_chinese_script`.
pub fn apply_chinese_script_with(
    converter: &ChineseConverter,
    text: String,
    settings: &AppSettings,
    reported_language: Option<&str>,
) -> (res: String)
    ensures
        res@ == apply_chinese_script_spec(
            text@,
            settings.selected_language@,
            settings.translate_to_english,
            opt_str_view(reported_language),
        ),
        has_no_ideograph(text@) ==> res@ == text@,
{
    match script_target(settings, reported_language, text.as_str()) {
        Some(script) => converter.convert(script, text.as_str()),
        None => text,
    }
}

/// A translation request outranks the script preference: translated output
/// is English and is never converted.
pub proof fn translation_outranks_script_preference(
    text: Seq<char>,
    language: Seq<char>,
    reported: Option<Seq<char>>,
)
    ensures
        apply_chinese_script_spec(text, language, true, reported) == text,
{
}

/// Only `zh-TW`, `auto-zh-TW`, `zh-CN` and `auto-zh-CN` touch the script:
/// under any other language, `zh` ("Chinese (Auto)") included, the text is
/// left as the model wrote it.
pub proof fn other_languages_keep_the_script(
    text: Seq<char>,
    language: Seq<char>,
    translate_to_english: bool,
    reported: Option<Seq<char>>,
)
    requires
        language != "zh-TW"@,
        language != "auto-zh-TW"@,
        language != "zh-CN"@,
        language != "auto-zh-CN"@,
    ensures
        apply_chinese_script_spec(text, language, translate_to_english, reported) == text,
{
}

/// When the backend reports a language that is not `chinese` or
/// `cantonese` in any ASCII case (`Japanese`, say), the text is not
/// converted.
pub proof fn reported_non_chinese_is_left_alone(
    text: Seq<char>,
    language: Seq<char>,
    translate_to_english: bool,
    reported: Seq<char>,
)
    requires
        !ascii_lowercase_is(reported, "chinese"@),
        !ascii_lowercase_is(reported, "cantonese"@),
    ensures
        apply_chinese_script_spec(text, language, translate_to_english, Some(reported)) == text,
{
}

/// When the backend reports nothing, text holding any kana or Hangul is
/// Japanese or Korean and its shared Han characters are left untouched.
pub proof fn kana_or_hangul_text_is_left_alone(
    text: Seq<char>,
    language: Seq<char>,
    translate_to_english: bool,
    i: int,
)
    requires
        0 <= i < text.len(),
        crate::chinese::is_kana(text[i]) || crate::chinese::is_hangul(text[i]),
    ensures
        apply_chinese_script_spec(text, language, translate_to_english, None) == text,
{
    assert(!looks_chinese_spec(text));
}

/// Under `zh-TW` or `auto-zh-TW`, Chinese text without a translation
/// request comes out as `to_traditional` gives it.
pub proof fn traditional_selection_converts_chinese(
    text: Seq<char>,
    language: Seq<char>,
    reported: Option<Seq<char>>,
)
    requires
        language == "zh-TW"@ || language == "auto-zh-TW"@,
        match reported {
            Some(r) => ascii_lowercase_is(r, "chinese"@) || ascii_lowercase_is(r, "cantonese"@),
            None => looks_chinese_spec(text),
        },
    ensures
        apply_chinese_script_spec(text, language, false, reported) == converted(
            Script::Traditional,
            text,
        ),
{
}

/// Under `zh-CN` or `auto-zh-CN`, Chinese text without a translation
/// request comes out as `to_simplified` gives it.
pub proof fn simplified_selection_converts_chinese(
    text: Seq<char>,
    language: Seq<char>,
    reported: Option<Seq<char>>,
)
    requires
        language == "zh-CN"@ || language == "auto-zh-CN"@,
        match reported {
            Some(r) => ascii_lowercase_is(r, "chinese"@) || ascii_lowercase_is(r, "cantonese"@),
            None => looks_chinese_spec(text),
        },
    ensures
        apply_chinese_script_spec(text, language, false, reported) == converted(
            Script::Simplified,
            text,
        ),
{
    reveal_strlit("zh-CN");
    reveal_strlit("auto-zh-CN");
    reveal_strlit("zh-TW");
    reveal_strlit("auto-zh-TW");
    assert(language != "zh-TW"@ && language != "auto-zh-TW"@) by {
        if language == "zh-CN"@ {
            assert(language.len() != "auto-zh-TW"@.len());
            assert(language[3] != "zh-TW"@[3]);
        } else {
            assert(language.len() != "zh-TW"@.len());
            assert(language[8] != "auto-zh-TW"@[8]);
        }
    }
}

/// The Chinese variants share one Whisper language: a script-selecting code
/// asks Whisper for `zh`, or, in its auto form, lets Whisper detect.
pub proof fn chinese_variants_share_whisper_language(code: Seq<char>)
    requires
        code == "zh-TW"@ || code == "auto-zh-TW"@ || code == "zh-CN"@ || code == "auto-zh-CN"@,
    ensures
        whisper_language_spec(code) is None || whisper_language_spec(code) == Some("zh"@),
{
}

/// Qwen3-ASR takes a language, not a script: every Chinese code asks for
/// `Chinese`.
pub proof fn chinese_variants_share_qwen_language(code: Seq<char>)
    requires
        code == "zh"@ || code == "zh-TW"@ || code == "zh-CN"@,
    ensures
        qwen_language_spec(code) == Some("Chinese"@),
{
}

/// A reported language matches a lowercase name exactly when the two have
/// the same length and each character is the name's, or its ASCII capital.
pub proof fn ascii_lowercase_match_is_caseless_equality(s: Seq<char>, lower: Seq<char>)
    ensures
        ascii_lowercase_is(s, lower) <==> (s.len() == lower.len() && forall|i: int|
            0 <= i < s.len() ==> if 'A' <= #[trigger] s[i] && s[i] <= 'Z' {
                lower[i] as int == s[i] as int + 32
            } else {
                lower[i] == s[i]
            }),
{
    if s.len() == lower.len() {
        if ascii_lowercase_is(s, lower) {
            assert forall|i: int| 0 <= i < s.len() implies (if 'A' <= #[trigger] s[i] && s[i]
                <= 'Z' {
                lower[i] as int == s[i] as int + 32
            } else {
                lower[i] == s[i]
            }) by {
                assert(ascii_lower_code(s[i]) == lower[i] as int);
            }
        }
    }
}

/// Joining one more segment appends exactly its text: nothing of the
/// earlier segments is lost, whatever the new segment holds.
pub proof fn joining_appends_each_segment(segments: Seq<String>, segment: String)
    ensures
        joined_segments(segments.push(segment)) == joined_segments(segments) + segment@,
{
    assert(segments.push(segment).drop_last() =~= segments);
}

/// Trimming the start drops exactly the leading run of white space.
proof fn trim_start_drops_the_leading_run(s: Seq<char>) -> (i: int)
    ensures
        0 <= i <= s.len(),
        trim_start_spec(s) == s.subrange(i, s.len() as int),
        forall|k: int| 0 <= k < i ==> unicode_white_space(#[trigger] s[k]),
        i < s.len() ==> !unicode_white_space(s[i]),
    decreases s.len(),
{
    if s.len() > 0 && unicode_white_space(s[0]) {
        let rest = s.drop_first();
        let j = trim_start_drops_the_leading_run(rest);
        assert(rest.subrange(j, rest.len() as int) =~= s.subrange(j + 1, s.len() as int));
        assert forall|k: int| 0 <= k < j + 1 implies unicode_white_space(#[trigger] s[k]) by {
            if k > 0 {
                assert(s[k] == rest[k - 1]);
            }
        }
        j + 1
    } else {
        assert(s.subrange(0, s.len() as int) =~= s);
        0
    }
}

/// Trimming the end drops exactly the trailing run of white space.
proof fn trim_end_drops_the_trailing_run(s: Seq<char>) -> (j: int)
    ensures
        0 <= j <= s.len(),
        trim_end_spec(s) == s.subrange(0, j),
        forall|k: int| j <= k < s.len() ==> unicode_white_space(#[trigger] s[k]),
        j > 0 ==> !unicode_white_space(s[j - 1]),
    decreases s.len(),
{
    if s.len() > 0 && unicode_white_space(s.last()) {
        let rest = s.drop_last();
        let j = trim_end_drops_the_trailing_run(rest);
        assert(rest.subrange(0, j) =~= s.subrange(0, j));
        assert forall|k: int| j <= k < s.len() implies unicode_white_space(#[trigger] s[k]) by {
            if k < s.len() - 1 {
                assert(s[k] == rest[k]);
            }
        }
        j
    } else {
        assert(s.subrange(0, s.len() as int) =~= s);
        s.len() as int
    }
}

/// Trimming keeps one contiguous stretch of the text and drops only white
/// space around it: everything before and after the stretch is white space,
/// and the stretch neither starts nor ends with white space.
pub proof fn trim_keeps_the_text_between_outer_white_space(s: Seq<char>)
    ensures
        exists|i: int, j: int|
            {
                &&& 0 <= i <= j <= s.len()
                &&& trim_spec(s) == s.subrange(i, j)
                &&& forall|k: int| 0 <= k < i ==> unicode_white_space(#[trigger] s[k])
                &&& forall|k: int| j <= k < s.len() ==> unicode_white_space(#[trigger] s[k])
                &&& i < j ==> !unicode_white_space(s[i]) && !unicode_white_space(s[j - 1])
            },
{
    let i = trim_start_drops_the_leading_run(s);
    let t = s.subrange(i, s.len() as int);
    let j = trim_end_drops_the_trailing_run(t);
    assert(t.subrange(0, j) =~= s.subrange(i, i + j));
    assert forall|k: int| i + j <= k < s.len() implies unicode_white_space(#[trigger] s[k]) by {
        assert(s[k] == t[k - i]);
    }
    if j > 0 {
        assert(s[i + j - 1] == t[j - 1]);
        assert(s[i] == t[0]);
    }
    assert({
        &&& 0 <= i <= i + j <= s.len()
        &&& trim_spec(s) == s.subrange(i, i + j)
        &&& forall|k: int| 0 <= k < i ==> unicode_white_space(#[trigger] s[k])
        &&& forall|k: int| i + j <= k < s.len() ==> unicode_white_space(#[trigger] s[k])
        &&& i < i + j ==> !unicode_white_space(s[i]) && !unicode_white_space(s[i + j - 1])
    });
}

} // verus!
