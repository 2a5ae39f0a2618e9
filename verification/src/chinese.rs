//! Simplified ⇄ Traditional Chinese conversion for transcription output.
//!
//! Speech models emit whichever script dominates their training data, so the
//! script is fixed after the fact with the OpenCC rulesets.

use vstd::prelude::*;
use vstd::std_specs::iter::IteratorSpec;

verus! {

broadcast use vstd::string::group_string_axioms;

/// Hiragana, katakana and the katakana phonetic extensions.
pub open spec fn is_kana(c: char) -> bool {
    ('\u{3040}' <= c && c <= '\u{30FF}') || ('\u{31F0}' <= c && c <= '\u{31FF}')
}

/// Hangul syllables, jamo and compatibility jamo.
pub open spec fn is_hangul(c: char) -> bool {
    ||| ('\u{AC00}' <= c && c <= '\u{D7AF}')
    ||| ('\u{1100}' <= c && c <= '\u{11FF}')
    ||| ('\u{3130}' <= c && c <= '\u{318F}')
}

/// CJK unified ideographs, extension A and compatibility ideographs.
pub open spec fn is_han(c: char) -> bool {
    ||| ('\u{4E00}' <= c && c <= '\u{9FFF}')
    ||| ('\u{3400}' <= c && c <= '\u{4DBF}')
    ||| ('\u{F900}' <= c && c <= '\u{FAFF}')
}

/// A text looks Chinese when it holds no kana and no Hangul, and at least
/// one Han character.
pub open spec fn looks_chinese_spec(s: Seq<char>) -> bool {
    &&& forall|i: int| 0 <= i < s.len() ==> !is_kana(#[trigger] s[i]) && !is_hangul(s[i])
    &&& exists|i: int| 0 <= i < s.len() && is_han(#[trigger] s[i])
}

/// Whether `text` looks like Chinese rather than Japanese or Korean.
///
/// Kana or Hangul means the utterance was not Chinese, and converting it
/// would corrupt shared Han characters.
pub fn looks_chinese(text: &str) -> (res: bool)
    ensures
        res == looks_chinese_spec(text@),
{
    let mut has_han = false;
    for c in it: text.chars()
        invariant
            it.seq() == text@,
            forall|j: int| 0 <= j < it.index() ==> !is_kana(#[trigger] text@[j]) && !is_hangul(text@[j]),
            has_han <==> exists|j: int| 0 <= j < it.index() && is_han(#[trigger] text@[j]),
    {
        if ('\u{3040}' <= c && c <= '\u{30FF}') || ('\u{31F0}' <= c && c <= '\u{31FF}') {
            return false;
        }
        if ('\u{AC00}' <= c && c <= '\u{D7AF}') || ('\u{1100}' <= c && c <= '\u{11FF}')
            || ('\u{3130}' <= c && c <= '\u{318F}') {
            return false;
        }
        if ('\u{4E00}' <= c && c <= '\u{9FFF}') || ('\u{3400}' <= c && c <= '\u{4DBF}')
            || ('\u{F900}' <= c && c <= '\u{FAFF}') {
            has_han = true;
        }
    }
    has_han
}


/// The script a conversion produces.
#[derive(Clone, Copy, Debug, PartialEq, Eq, Structural)]
pub enum Script {
    /// Traditional Chinese with Taiwan vocabulary (OpenCC `s2twp`: 软件 → 軟體).
    Traditional,
    /// Simplified Chinese with mainland vocabulary (OpenCC `tw2sp`).
    Simplified,
}

#[verifier::external_type_specification]
#[verifier::external_body]
pub struct ExOpenCC(ferrous_opencc::OpenCC);

#[verifier::external_type_specification]
#[verifier::external_body]
pub struct ExOpenCCError(ferrous_opencc::error::OpenCCError);

/// An OpenCC converter together with the script its ruleset produces.
///
/// Only `load_opencc` builds one, so `script` always names the ruleset that
/// `cc` was loaded from.
pub struct ScriptConverter {
    cc: ferrous_opencc::OpenCC,
    script: Script,
}

impl View for ScriptConverter {
    type V = Script;

    closed spec fn view(&self) -> Script {
        self.script
    }
}

/// Whether `OpenCC::from_config` succeeds for the built-in ruleset of
/// `script`. It reads only data embedded in the crate, so the answer depends
/// on the ruleset alone.
pub uninterp spec fn opencc_loads(script: Script) -> bool;

/// What `OpenCC::convert` returns for `text` under the built-in ruleset of
/// `script`: a longest-prefix dictionary rewrite, fixed by that ruleset's
/// embedded dictionaries.
pub uninterp spec fn opencc_convert(script: Script, text: Seq<char>) -> Seq<char>;

/// Loads the ruleset of `script` with `ferrous_opencc::OpenCC::from_config`
/// (`S2twp` for Traditional, `Tw2sp` for Simplified).
///
/// Trusted: the load succeeds exactly when `opencc_loads(script)`, and the
/// converter it yields is tagged with `script`.
#[verifier::external_body]
fn load_opencc(script: Script) -> (res: Result<ScriptConverter, ferrous_opencc::error::OpenCCError>)
    ensures
        res is Ok <==> opencc_loads(script),
        res matches Ok(c) ==> c@ == script,
{
    let config = match script {
        Script::Traditional => ferrous_opencc::config::BuiltinConfig::S2twp,
        Script::Simplified => ferrous_opencc::config::BuiltinConfig::Tw2sp,
    };
    match ferrous_opencc::OpenCC::from_config(config) {
        Ok(cc) => Ok(ScriptConverter { cc, script }),
        Err(e) => Err(e),
    }
}

/// A CJK ideograph: the unified ideographs, extension A, the compatibility
/// ideographs, and the supplementary ideographic planes.
pub open spec fn cjk_ideograph(c: char) -> bool {
    ||| ('\u{3400}' <= c && c <= '\u{4DBF}')
    ||| ('\u{4E00}' <= c && c <= '\u{9FFF}')
    ||| ('\u{F900}' <= c && c <= '\u{FAFF}')
    ||| ('\u{20000}' <= c && c <= '\u{3FFFF}')
}

/// Whether `s` holds no CJK ideograph: nothing that OpenCC converts.
pub open spec fn has_no_ideograph(s: Seq<char>) -> bool {
    forall|i: int| 0 <= i < s.len() ==> !cjk_ideograph(#[trigger] s[i])
}

/// Runs `ferrous_opencc::OpenCC::convert` on `text`.
///
/// Trusted: the result is `opencc_convert` of the converter's ruleset and the
/// text. Text without CJK ideographs comes back unchanged: the conversion
/// only rewrites dictionary keys that prefix the rest of the text, byte for
/// byte, and every key of the dictionaries of both rulesets holds a CJK
/// ideograph.
#[verifier::external_body]
fn convert_with(converter: &ScriptConverter, text: &str) -> (res: String)
    ensures
        res@ == opencc_convert(converter@, text@),
        has_no_ideograph(text@) ==> res@ == text@,
{
    converter.cc.convert(text)
}

/// The converter for `script`, or `None` when its ruleset cannot be loaded:
/// a transcription is never failed over this, the text then passes through.
fn converter(script: Script) -> (res: Option<ScriptConverter>)
    ensures
        res is Some <==> opencc_loads(script),
        res matches Some(c) ==> c@ == script,
{
    match load_opencc(script) {
        Ok(cc) => Some(cc),
        Err(_) => None,
    }
}

/// What converting `text` to `script` yields: OpenCC's rewrite when the
/// ruleset loads, the text unchanged when it does not.
pub open spec fn converted(script: Script, text: Seq<char>) -> Seq<char> {
    if opencc_loads(script) {
        opencc_convert(script, text)
    } else {
        text
    }
}

/// Converts `text` to `script`, passing it through unchanged when the
/// ruleset is unavailable.
pub(crate) fn convert_script(script: Script, text: &str) -> (res: String)
    ensures
        res@ == converted(script, text@),
        has_no_ideograph(text@) ==> res@ == text@,
{
    match converter(script) {
        Some(cc) => convert_with(&cc, text),
        None => text.to_string(),
    }
}

/// Convert to Traditional Chinese (Taiwan). Non-Chinese text passes through.
///
/// Each call loads the ruleset; `ChineseConverter` loads it once.
pub fn to_traditional(text: &str) -> (res: String)
    ensures
        res@ == converted(Script::Traditional, text@),
        has_no_ideograph(text@) ==> res@ == text@,
{
    convert_script(Script::Traditional, text)
}

/// Convert to Simplified Chinese. Non-Chinese text passes through.
///
/// Each call loads the ruleset; `ChineseConverter` loads it once.
pub fn to_simplified(text: &str) -> (res: String)
    ensures
        res@ == converted(Script::Simplified, text@),
        has_no_ideograph(text@) ==> res@ == text@,
{
    convert_script(Script::Simplified, text)
}

/// The text of an OpenCC error, as its `Display` writes it.
///
/// Trusted only to return; nothing is stated of the text.
#[verifier::external_body]
fn opencc_error_text(e: &ferrous_opencc::error::OpenCCError) -> String {
    format!("{}", e)
}

/// The start of the warning given when the ruleset of `script` cannot be
/// loaded; the loader's error follows it.
pub open spec fn load_warning_prefix(script: Script) -> Seq<char> {
    match script {
        Script::Traditional => "OpenCC S2twp unavailable, leaving text as-is: "@,
        Script::Simplified => "OpenCC Tw2sp unavailable, leaving text as-is: "@,
    }
}

/// Whether `s` begins with `prefix`.
pub open spec fn starts_with(s: Seq<char>, prefix: Seq<char>) -> bool {
    prefix.len() <= s.len() && s.subrange(0, prefix.len() as int) == prefix
}

/// Whether `loaded` is what loading the ruleset of `script` gives: its
/// converter when the ruleset loads, a warning when it does not.
pub open spec fn loaded_as(loaded: Result<ScriptConverter, String>, script: Script) -> bool {
    match loaded {
        Ok(c) => opencc_loads(script) && c@ == script,
        Err(m) => !opencc_loads(script) && starts_with(m@, load_warning_prefix(script)),
    }
}

/// Loads the ruleset of `script`, or says why it could not.
fn load_ruleset(script: Script) -> (res: Result<ScriptConverter, String>)
    ensures
        loaded_as(res, script),
{
    match load_opencc(script) {
        Ok(cc) => Ok(cc),
        Err(e) => {
            let mut m = match script {
                Script::Traditional => String::from_str(
                    "OpenCC S2twp unavailable, leaving text as-is: ",
                ),
                Script::Simplified => String::from_str(
                    "OpenCC Tw2sp unavailable, leaving text as-is: ",
                ),
            };
            let ghost prefix = m@;
            m.append(opencc_error_text(&e).as_str());
            assert(m@.subrange(0, prefix.len() as int) =~= prefix);
            Err(m)
        },
    }
}

/// Both rulesets, each loaded once for the life of the converter. A ruleset
/// that cannot be loaded leaves text unchanged, and keeps the warning that
/// says why.
pub struct ChineseConverter {
    traditional: Result<ScriptConverter, String>,
    simplified: Result<ScriptConverter, String>,
}

impl ChineseConverter {
    #[verifier::type_invariant]
    closed spec fn loaded_rulesets(self) -> bool {
        &&& loaded_as(self.traditional, Script::Traditional)
        &&& loaded_as(self.simplified, Script::Simplified)
    }

    /// Loads both rulesets.
    pub fn new() -> (res: ChineseConverter) {
        ChineseConverter {
            traditional: load_ruleset(Script::Traditional),
            simplified: load_ruleset(Script::Simplified),
        }
    }

    /// The warning for the ruleset of `script`, when it could not be loaded.
    pub fn load_warning(&self, script: Script) -> (res: Option<String>)
        ensures
            res is Some <==> !opencc_loads(script),
            res matches Some(m) ==> starts_with(m@, load_warning_prefix(script)),
    {
        proof {
            use_type_invariant(self);
        }
        let loaded = match script {
            Script::Traditional => &self.traditional,
            Script::Simplified => &self.simplified,
        };
        match loaded {
            Ok(_) => None,
            Err(m) => Some(m.clone()),
        }
    }

    /// Converts `text` to `script`, passing it through unchanged when the
    /// ruleset is unavailable.
    pub fn convert(&self, script: Script, text: &str) -> (res: String)
        ensures
            res@ == converted(script, text@),
            has_no_ideograph(text@) ==> res@ == text@,
    {
        proof {
            use_type_invariant(self);
        }
        let loaded = match script {
            Script::Traditional => &self.traditional,
            Script::Simplified => &self.simplified,
        };
        match loaded {
            Ok(cc) => convert_with(cc, text),
            Err(_) => text.to_string(),
        }
    }

    /// Convert to Traditional Chinese (Taiwan). Non-Chinese text passes
    /// through.
    pub fn to_traditional(&self, text: &str) -> (res: String)
        ensures
            res@ == converted(Script::Traditional, text@),
            has_no_ideograph(text@) ==> res@ == text@,
    {
        self.convert(Script::Traditional, text)
    }

    /// Convert to Simplified Chinese. Non-Chinese text passes through.
    pub fn to_simplified(&self, text: &str) -> (res: String)
        ensures
            res@ == converted(Script::Simplified, text@),
            has_no_ideograph(text@) ==> res@ == text@,
    {
        self.convert(Script::Simplified, text)
    }
}

/// The verdict of `looks_chinese`, character by character: no hiragana,
/// katakana or katakana extension (U+3040–30FF, U+31F0–31FF), no Hangul
/// (U+AC00–D7AF, U+1100–11FF, U+3130–318F), and a Han character (U+4E00–9FFF,
/// U+3400–4DBF, U+F900–FAFF) at some position, wherever it stands.
pub proof fn looks_chinese_by_characters(s: Seq<char>)
    ensures
        looks_chinese_spec(s) <==> ((forall|i: int|
            0 <= i < s.len() ==> !(('\u{3040}' <= #[trigger] s[i] && s[i] <= '\u{30FF}') || (
            '\u{31F0}' <= s[i] && s[i] <= '\u{31FF}') || ('\u{AC00}' <= s[i] && s[i]
                <= '\u{D7AF}') || ('\u{1100}' <= s[i] && s[i] <= '\u{11FF}') || ('\u{3130}'
                <= s[i] && s[i] <= '\u{318F}'))) && (exists|i: int|
            0 <= i < s.len() && (('\u{4E00}' <= #[trigger] s[i] && s[i] <= '\u{9FFF}') || (
            '\u{3400}' <= s[i] && s[i] <= '\u{4DBF}') || ('\u{F900}' <= s[i] && s[i]
                <= '\u{FAFF}')))),
{
    if looks_chinese_spec(s) {
        let k = choose|k: int| 0 <= k < s.len() && is_han(#[trigger] s[k]);
        assert(0 <= k < s.len() && is_han(s[k]));
    } else if forall|i: int| 0 <= i < s.len() ==> !is_kana(#[trigger] s[i]) && !is_hangul(s[i]) {
        assert forall|i: int| 0 <= i < s.len() implies !(('\u{4E00}' <= #[trigger] s[i] && s[i]
            <= '\u{9FFF}') || ('\u{3400}' <= s[i] && s[i] <= '\u{4DBF}') || ('\u{F900}' <= s[i]
            && s[i] <= '\u{FAFF}')) by {
            assert(!is_han(s[i]));
        }
    } else {
        let k = choose|k: int| 0 <= k < s.len() && !(!is_kana(#[trigger] s[k]) && !is_hangul(s[k]));
        assert(0 <= k < s.len() && (is_kana(s[k]) || is_hangul(s[k])));
    }
}

/// Whether a text looks Chinese does not depend on the order of its parts.
pub proof fn looks_chinese_ignores_order(a: Seq<char>, b: Seq<char>)
    ensures
        looks_chinese_spec(a + b) == looks_chinese_spec(b + a),
{
    let ab = a + b;
    let ba = b + a;
    assert forall|i: int| 0 <= i < ab.len() implies occurs_in(#[trigger] ab[i], ba) by {
        if i < a.len() {
            assert(ba[b.len() + i] == ab[i]);
        } else {
            assert(ba[i - a.len()] == ab[i]);
        }
    }
    assert forall|i: int| 0 <= i < ba.len() implies occurs_in(#[trigger] ba[i], ab) by {
        if i < b.len() {
            assert(ab[a.len() + i] == ba[i]);
        } else {
            assert(ab[i - b.len()] == ba[i]);
        }
    }
    same_characters_keep_the_verdict(ab, ba);
    same_characters_keep_the_verdict(ba, ab);
}

/// Whether `c` occurs in `s`.
spec fn occurs_in(c: char, s: Seq<char>) -> bool {
    exists|j: int| 0 <= j < s.len() && s[j] == c
}

/// A text that looks Chinese passes the verdict on to any text made of the
/// same characters.
proof fn same_characters_keep_the_verdict(x: Seq<char>, y: Seq<char>)
    requires
        forall|i: int| 0 <= i < x.len() ==> occurs_in(#[trigger] x[i], y),
        forall|i: int| 0 <= i < y.len() ==> occurs_in(#[trigger] y[i], x),
    ensures
        looks_chinese_spec(x) ==> looks_chinese_spec(y),
{
    if looks_chinese_spec(x) {
        assert forall|i: int| 0 <= i < y.len() implies !is_kana(#[trigger] y[i]) && !is_hangul(
            y[i],
        ) by {
            assert(occurs_in(y[i], x));
            let j = choose|j: int| 0 <= j < x.len() && x[j] == y[i];
            assert(!is_kana(x[j]) && !is_hangul(x[j]));
        }
        let k = choose|k: int| 0 <= k < x.len() && is_han(#[trigger] x[k]);
        assert(occurs_in(x[k], y));
        let j = choose|j: int| 0 <= j < y.len() && y[j] == x[k];
        assert(is_han(y[j]));
    }
}

/// When the ruleset loads, converting gives OpenCC's conversion of the whole
/// text, whatever characters it holds; when it does not, the text.
pub proof fn conversion_is_opencc_on_the_whole_text(script: Script, text: Seq<char>)
    ensures
        opencc_loads(script) ==> converted(script, text) == opencc_convert(script, text),
        !opencc_loads(script) ==> converted(script, text) == text,
{
}

} // verus!
