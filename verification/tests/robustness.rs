use what_anime::pairing::score_names;
use what_anime::text::{normalize_text, process_possible_japanese, process_similarity};

fn samples() -> Vec<String> {
    let mut all: Vec<String> = [
        "", " ", "\n", "々", "々々々", "あ々", "日々", "時々刻々", "ー", "ーー", "あー", "アー", "っ", "ッ", "ん",
        "ゔ", "ヷヸヹヺ", "ｶﾞｷﾞｸﾞ", "ﾊﾟ", "㍍", "㈱", "①", "Ⅳ", "ﬁ", "…", "‥", "。", "、", "「」", "『日本』",
        "日本語のテキスト。次の文。", "3.14と2,5", "東京タワー", "東京  \t タワー", "kanji 漢字 kana かな",
        "𠮷野家", "𝓗𝓮𝓵𝓵𝓸", "🦄☣", "👨‍👩‍👧‍👦", "e\u{301}", "\u{301}", "\u{200b}", "\u{feff}", "\u{0}", "\u{7f}",
        "\u{80}", "\u{10ffff}", "\u{e000}", "ß", "ǅ", "İ", "ı", "Σ", "ς", "½", "²", "٣", "한국어", "ไทย",
        "عربى", "עברית", "Ω≈ç√∫", "a\u{3000}b", "(CV: 声優)", "キャラ (CV: 声優)", "A.B.C.", "1,000.5",
        "ｱｲｳｴｵ", "ヶ月", "一ヶ月", "は", "へ", "を", "きゃ", "っか", "んあ", "ぁ", "ゎ", "ゐゑ", "ヽヾゝゞ",
        "々あ", "〆", "〇", "ー々", "・", "・・・", "＿", "＃", "！？", "（）", "~", "〜",
    ]
    .iter()
    .map(|s| s.to_string())
    .collect();
    all.push("あ".repeat(300));
    all.push("漢".repeat(300));
    all.push("a ".repeat(300));
    all.push("々".repeat(50));
    all
}

#[test]
fn any_text_can_be_romanised_and_normalised() {
    for s in samples() {
        let roman = process_possible_japanese(&s);
        let normal = normalize_text(&roman);
        assert!(normal.is_ascii(), "{:?}", s);
        let direct = normalize_text(&s);
        assert!(direct.is_ascii(), "{:?}", s);
    }
}

#[test]
fn any_two_texts_can_be_compared() {
    let all = samples();
    for (i, a) in all.iter().enumerate() {
        for b in all.iter().skip(i % 7).step_by(7) {
            assert!(process_similarity(a, b) <= 100, "{:?} {:?}", a, b);
            assert!(score_names(a, b) <= 100, "{:?} {:?}", a, b);
        }
        assert_eq!(process_similarity(a, a), 100, "{:?}", a);
        assert_eq!(score_names(a, a), 100, "{:?}", a);
    }
}
