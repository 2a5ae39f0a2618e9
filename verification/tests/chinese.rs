use handy::chinese::{looks_chinese, to_simplified, to_traditional, ChineseConverter, Script};

#[test]
fn converts_simplified_to_traditional() {
    // The exact sentence Qwen3-ASR returns for Qwen's own asr_zh.wav sample.
    assert_eq!(
        to_traditional("甚至出现交易几乎停滞的情况。"),
        "甚至出現交易幾乎停滯的情況。"
    );
}

#[test]
fn converts_taiwan_vocabulary() {
    assert_eq!(to_traditional("这个软件的服务器"), "這個軟體的伺服器");
}

#[test]
fn converts_traditional_to_simplified() {
    assert_eq!(to_simplified("這個軟體的伺服器"), "这个软件的服务器");
}

#[test]
fn leaves_ascii_alone() {
    let text = "Handy transcribes speech at 16 kHz.";
    assert_eq!(to_traditional(text), text);
}

#[test]
fn detects_chinese_but_not_japanese_or_korean() {
    assert!(looks_chinese("这是中文"));
    assert!(looks_chinese("混合 English 的中文"));
    assert!(!looks_chinese("これは日本語です"));
    assert!(!looks_chinese("漢字とかな"));
    assert!(!looks_chinese("한국어입니다"));
    assert!(!looks_chinese("pure english"));
    assert!(!looks_chinese(""));
}

#[test]
fn simplified_leaves_ascii_alone() {
    let text = "Whisper and Qwen3-ASR, 2 backends.";
    assert_eq!(to_simplified(text), text);
}

#[test]
fn empty_text_converts_to_empty() {
    assert_eq!(to_traditional(""), "");
    assert_eq!(to_simplified(""), "");
}

#[test]
fn conversion_changes_chinese_text() {
    // Neither direction hands its argument back for text it has rules for.
    assert_ne!(to_traditional("软件"), "软件");
    assert_ne!(to_simplified("軟體"), "軟體");
}

#[test]
fn looks_chinese_edges_of_the_ranges() {
    // Han ranges: unified, extension A, compatibility.
    assert!(looks_chinese("\u{4E00}"));
    assert!(looks_chinese("\u{9FFF}"));
    assert!(looks_chinese("\u{3400}"));
    assert!(looks_chinese("\u{4DBF}"));
    assert!(looks_chinese("\u{F900}"));
    assert!(looks_chinese("\u{FAFF}"));
    assert!(!looks_chinese("\u{4DC0}"));
    // Kana and Hangul anywhere rule Chinese out, before or after Han.
    assert!(!looks_chinese("中\u{3040}"));
    assert!(!looks_chinese("\u{30FF}中"));
    assert!(!looks_chinese("中\u{31F0}"));
    assert!(!looks_chinese("中\u{1100}"));
    assert!(!looks_chinese("中\u{318F}"));
    assert!(!looks_chinese("中\u{D7AF}"));
    // Just outside the Hangul and kana ranges does not.
    assert!(looks_chinese("中\u{3190}"));
    assert!(looks_chinese("中\u{1200}"));
}

#[test]
fn text_without_ideographs_passes_through() {
    let text = "こんにちは、안녕하세요, café — naïve «quotes» ½";
    assert_eq!(to_traditional(text), text);
    assert_eq!(to_simplified(text), text);
}

#[test]
fn a_converter_loads_both_rulesets_once() {
    let converter = ChineseConverter::new();
    assert_eq!(converter.load_warning(Script::Traditional), None);
    assert_eq!(converter.load_warning(Script::Simplified), None);
    assert_eq!(converter.to_traditional("这个软件的服务器"), "這個軟體的伺服器");
    assert_eq!(converter.to_simplified("這個軟體的伺服器"), "这个软件的服务器");
    assert_eq!(converter.convert(Script::Traditional, "软件"), to_traditional("软件"));
    assert_eq!(converter.to_traditional("Handy at 16 kHz."), "Handy at 16 kHz.");
    // The converter keeps working across calls.
    assert_eq!(converter.to_traditional("甚至出现交易几乎停滞的情况。"), "甚至出現交易幾乎停滯的情況。");
}
