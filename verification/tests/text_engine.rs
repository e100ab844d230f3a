use what_anime::names::process_artist_name;
use what_anime::patterns::{create_artist_regex, create_regex};
use what_anime::strings::{is_alnum_char, is_blank_char, lower};
use what_anime::text::{
    is_japanese, normalize_text, process_possible_japanese, process_similarity, remove_consonants,
    remove_vowels, IsJapanese,
};

const TESTING_LIST: &[(&str, &str)] = &[
    ("デート ・ ア ・ ライブ", "Date A Live"),
    ("モンスター ハンター", "Monster Hunter"),
    ("ファイナル ファンタジー", "Final Fantasy"),
    ("オンライン ゲーム", "Online Game"),
    ("レジェンド オブ ゼルダ", "Legend of Zelda"),
    ("ポケット モンスター", "Pocket Monster"),
    ("ドラゴン クエスト", "Dragon Quest"),
    ("キングダム ハーツ", "Kingdom Hearts"),
    ("ストリート ファイター", "Street Fighter"),
    ("スーパーマリオ", "Super Mario"),
];

const TEST_LIST_FAIL: &[(&str, &str)] = &[
    ("又三郎", "Shayou"),
    ("こんにちは", "Hello"),
    ("ありがとう", "Thank You"),
    ("バナナ", "Bandana"),
    ("コーヒー", "Cough"),
    ("ホテル", "Hostel"),
    ("スピーカー", "Spiker"),
    ("マイク", "Mice"),
    ("バイク", "Back"),
    ("チェック", "Chick"),
];

fn test_similarity(test: (&str, &str), success_function: impl Fn(f32) -> bool) -> f32 {
    let score: f32 = process_similarity(test.0, test.1) as f32;
    if !success_function(score) {
        println!("Failed Test: {:?}, Score: {}", test, score);
    }
    println!("{}", score);
    score
}

fn test_all(tests: &[(&str, &str)], success_function: impl Fn(f32) -> bool) -> f64 {
    let mut total_score = 0.0;
    for test in tests {
        total_score += test_similarity(*test, &success_function);
    }
    total_score as f64 / tests.len() as f64
}

#[test]
fn test_deltas() {
    let fail_limit = 60.0;

    println!("--------------- Doing match tests ---------------");
    let average_success_score = test_all(&TESTING_LIST, |a| a > fail_limit);

    println!("--------------- Doing False Match tests ---------------");
    let average_fail_score = test_all(&TEST_LIST_FAIL, |a| a < fail_limit);

    println!("Average Success Score: {}", average_success_score);
    println!("Average Fail Score: {}", average_fail_score);
    let delta = average_success_score - average_fail_score;
    println!("Delta: {}", delta);
    assert!(delta > 10.0);
}

#[test]
fn similarity_of_a_title_and_of_a_stranger() {
    // "deeto a raibu" against "date a live", and "matasaburou" against "shayou".
    assert_eq!(process_similarity("デート・ア・ライブ", "Date A Live"), 50);
    assert_eq!(process_similarity("又三郎", "Shayou"), 47);
    assert!(process_similarity("又三郎", "Shayou") < 60);
    assert!(
        process_similarity("デート・ア・ライブ", "Date A Live")
            > process_similarity("又三郎", "Shayou")
    );
}

#[test]
fn similarity_of_a_text_with_itself_is_100() {
    for s in ["idol", "Date A Live", "デート・ア・ライブ", "又三郎", "!!!", "a", " "] {
        assert_eq!(process_similarity(s, s), 100, "{:?}", s);
    }
}

#[test]
fn similarity_exact_values() {
    assert_eq!(process_similarity("hello test", "hello world"), 57);
    assert_eq!(process_similarity("Hello, Test!", "hello test"), 100);
    assert_eq!(process_similarity("abc", "xyz"), 0);
}

#[test]
fn script_detection_follows_the_code_points() {
    assert_eq!(is_japanese("Abc"), IsJapanese::False);
    assert_eq!(is_japanese("日本"), IsJapanese::Maybe);
    assert_eq!(is_japanese("ラスト"), IsJapanese::True);
    assert_eq!(is_japanese("日本 ラスト"), IsJapanese::True);
    assert_eq!(is_japanese(""), IsJapanese::False);
    assert_eq!(is_japanese("\u{3041}"), IsJapanese::True);
    assert_eq!(is_japanese("\u{3096}"), IsJapanese::True);
    assert_eq!(is_japanese("\u{3097}"), IsJapanese::False);
    assert_eq!(is_japanese("\u{30A1}"), IsJapanese::True);
    assert_eq!(is_japanese("\u{30FA}"), IsJapanese::True);
    assert_eq!(is_japanese("\u{30FB}"), IsJapanese::False);
    assert_eq!(is_japanese("\u{4E00}"), IsJapanese::Maybe);
    assert_eq!(is_japanese("\u{9FAF}"), IsJapanese::Maybe);
    assert_eq!(is_japanese("\u{9FB0}"), IsJapanese::False);
}

#[test]
fn script_detection_agrees_with_kakasi() {
    let samples = [
        "", "Abc", "日本", "ラスト", "こんにちは世界!", "東京 tower", "ー", "・", "々", "ｶﾞ", "한국어",
        "\u{3040}", "\u{3041}", "\u{3096}", "\u{3097}", "\u{30A0}", "\u{30A1}", "\u{30FA}", "\u{30FB}",
        "\u{4DFF}", "\u{4E00}", "\u{9FAF}", "\u{9FB0}",
    ];
    for s in samples {
        let expected = match kakasi::is_japanese(s) {
            kakasi::IsJapanese::False => IsJapanese::False,
            kakasi::IsJapanese::Maybe => IsJapanese::Maybe,
            kakasi::IsJapanese::True => IsJapanese::True,
        };
        assert_eq!(is_japanese(s), expected, "{:?}", s);
    }
}

#[test]
fn romanisation_leaves_ascii_alone() {
    for s in ["", "idol", "Date A Live", "LiSA (CV: x)", "x\ty\n", "~!@#$%^&*()_+"] {
        assert_eq!(process_possible_japanese(s), s);
    }
}

#[test]
fn romanisation_transliterates_japanese() {
    assert_eq!(process_possible_japanese("こんにちは世界!"), "konnichiha sekai!");
    assert_ne!(process_possible_japanese("ラスト"), "ラスト");
}

#[test]
fn normalisation_exact_values() {
    assert_eq!(normalize_text("Hello, World!"), "hello world");
    assert_eq!(normalize_text("étude"), "etude");
    assert_eq!(normalize_text("LiSA"), "lisa");
    assert_eq!(normalize_text("a_b-c d"), "abc d");
    assert_eq!(normalize_text(""), "");
    assert_eq!(normalize_text("idol 2"), "idol 2");
    assert_eq!(normalize_text("Æneid"), "aeneid");
}

#[test]
fn normalisation_is_idempotent_on_plain_results() {
    for s in ["Hello, World!", "étude", "LiSA", "idol", "Sumire Uesaka", "a  b", "x-1"] {
        let once = normalize_text(s);
        assert!(once.chars().all(|c| c.is_ascii_lowercase() || c.is_ascii_digit() || c == ' '));
        assert_eq!(normalize_text(&once), once);
    }
}

#[test]
fn normalisation_of_an_ideograph_is_not_plain() {
    let once = normalize_text("北");
    assert_eq!(once, "Bei");
    assert_eq!(normalize_text(&once), "bei");
}

#[test]
fn vowels_and_consonants() {
    assert_eq!(remove_vowels("Audio Engine"), "d ngn");
    assert_eq!(remove_consonants("Audio Engine"), "AuioEie");
    assert_eq!(remove_vowels(""), "");
    assert_eq!(remove_consonants("xyz"), "");
}

#[test]
fn regex_for_ou_accepts_the_long_vowel() {
    let pattern = create_regex("ou", false);
    assert!(pattern.contains("(ou|ō|o)"));
    assert_eq!(pattern, "(ou|ō|o)");
    let re = regex::RegexBuilder::new(&pattern).case_insensitive(true).build().unwrap();
    assert!(re.is_match("tōkyō"));
}

#[test]
fn regex_exact_values() {
    assert_eq!(create_regex("", false), "");
    assert_eq!(create_regex("", true), "^$");
    assert_eq!(create_regex("l", false), "[l˥ļĻΛ]");
    assert_eq!(create_regex("ō", false), "[Ōō]");
    assert_eq!(create_regex(" ", false), "([^\\w]+|_+)");
    assert_eq!(create_regex("a", false), "([aäãά@âàáạåæā∀Λ]|aa)");
    assert_eq!(create_regex("t", true), "^t$");
    assert_eq!(create_regex("T", false), "T");
    assert_eq!(create_regex("woo", false), "(wo|o)([oōŌóòöôøӨΦο]|ou|oo|oh|wo)");
    assert_eq!(create_regex("ooo", false), "(oo|ō|o)([oōŌóòöôøӨΦο]|ou|oo|oh|wo)");
    assert_eq!(
        create_regex("idol", true),
        "^([iíίɪ]|ii)d([oōŌóòöôøӨΦο]|ou|oo|oh|wo)[l˥ļĻΛ]$"
    );
    assert_eq!(create_regex("x*2", false), "[x×][*✻＊✳︎][2²₂]");
}

#[test]
fn regex_for_idol_matches_stylisations() {
    let strict = regex::Regex::new(&create_regex("idol", true)).unwrap();
    assert!(strict.is_match("idol"));
    assert!(strict.is_match("idōl"));
    assert!(!strict.is_match("Idol"));
    assert!(!strict.is_match("my idol"));
    let loose = regex::RegexBuilder::new(&create_regex("idol", false))
        .case_insensitive(true)
        .build()
        .unwrap();
    for name in ["idol", "idōl", "Idol", "my idol", "IDOL story"] {
        assert!(loose.is_match(name), "{:?}", name);
    }
}

#[test]
fn artist_regex_joins_the_names() {
    let lisa = "LiSA".to_string();
    let sumire = "Sumire Uesaka".to_string();
    let pattern = create_artist_regex(vec![&lisa, &sumire], true);
    assert_eq!(
        pattern,
        format!("{}|{}", create_regex("LiSA", true), create_regex("Sumire Uesaka", true))
    );
    assert_eq!(create_artist_regex(vec![], true), "");
    assert_eq!(create_artist_regex(vec![&lisa], false), create_regex("LiSA", false));
    let re = regex::Regex::new(&pattern).unwrap();
    assert!(re.is_match("LiSA"));
    assert!(re.is_match("Sumire Uesaka"));
    assert!(re.is_match("Sumire_Uesaka"));
    assert!(!re.is_match("Sumire"));
}

#[test]
fn artist_regex_uses_the_actor() {
    let credited = "Anya Forger (CV: Atsumi Tanezaki)".to_string();
    assert_eq!(
        create_artist_regex(vec![&credited], false),
        create_regex("Atsumi Tanezaki", false)
    );
}

#[test]
fn artist_name_exact_values() {
    assert_eq!(process_artist_name("Perhaps a character (CV: Actual Artist)"), "Actual Artist");
    assert_eq!(process_artist_name("Character (Vo. Actor)"), "Actor");
    assert_eq!(process_artist_name("Character (CV.Actor)"), "Actor");
    assert_eq!(process_artist_name("Character (Vo:   Actor )"), "Actor");
    assert_eq!(process_artist_name("LiSA"), "LiSA");
    assert_eq!(process_artist_name(" LiSA "), " LiSA ");
    assert_eq!(process_artist_name("A (cv: b)"), "A (cv: b)");
    assert_eq!(process_artist_name("A (CV: b"), "A (CV: b");
    assert_eq!(process_artist_name("A (CV: b) & C (CV: d)"), "bd");
    assert_eq!(process_artist_name("A (CV: b)\n& C (CV: d)"), "b\nd");
    assert_eq!(process_artist_name("x\nA (CV: b) y"), "x\nb y");
    assert_eq!(process_artist_name("(CV:)"), "");
    assert_eq!(process_artist_name(""), "");
}

fn attribution() -> regex::Regex {
    regex::Regex::new(r".*?\((CV|Vo)(:|\.)\s*(?P<a>.*?)\)").unwrap()
}

#[test]
fn artist_name_agrees_with_the_pattern() {
    let re = attribution();
    let samples = [
        "Perhaps a character (CV: Actual Artist)",
        "Character (Vo. Actor)",
        "A (CV: b) & C (CV: d)",
        "A (CV: b) (Vo. c) tail",
        "x\nA (CV: b) y",
        "A (CV:\n b) y",
        "A (CV: b\n) (CV: c)",
        "A (CV: (CV: b)) c",
        "(CV:)(Vo.)",
        "((((CV: a)",
        "A (CV: b",
        "A (CV b)",
        "A (Vo: \u{3000}b\u{a0})",
        "前 (CV: 声優)",
        "a (CV: b) \n c (Vo. d)\n",
        ") (CV: x",
        "(CV: a) ",
    ];
    for s in samples {
        if re.is_match(s) {
            let expected = re.replace_all(s, "$a").trim().to_string();
            assert_eq!(process_artist_name(s), expected, "{:?}", s);
        } else {
            assert_eq!(process_artist_name(s), s, "{:?}", s);
        }
    }
}

#[test]
fn an_ascii_text_is_lowered_and_stripped() {
    let all: String = (0u8..128).map(|b| b as char).collect();
    let samples = [
        all.as_str(),
        "Hello, World!",
        "A-b 1",
        "a\u{7f}b",
        "\u{7f}",
        "\u{1}\u{7f}\u{2}",
        "tab\there",
        "  two  spaces  ",
        "UPPER lower 0123456789",
        "(CV: x)",
        "",
    ];
    for s in samples {
        let expected: String = s
            .chars()
            .map(|c| c.to_ascii_lowercase())
            .filter(|c| c.is_ascii_alphanumeric() || *c == ' ')
            .collect();
        let once = normalize_text(s);
        assert_eq!(once, expected, "{:?}", s);
        assert_eq!(normalize_text(&once), once, "{:?}", s);
    }
    assert_eq!(normalize_text("a\u{7f}b"), "ab");
    assert_eq!(normalize_text("A-b 1"), "ab 1");
}

#[test]
fn characters_are_classed_as_the_standard_library_classes_them() {
    for code in (0u32..0x3100).chain(0xFF00..0xFFFF) {
        let Some(c) = char::from_u32(code) else { continue };
        assert_eq!(is_alnum_char(c), c.is_alphanumeric(), "{:?}", c);
        assert_eq!(is_blank_char(c), c.is_whitespace(), "{:?}", c);
        if c.is_ascii() {
            assert_eq!(is_alnum_char(c), c.is_ascii_alphanumeric(), "{:?}", c);
            assert_eq!(lower(&c.to_string()), c.to_ascii_lowercase().to_string(), "{:?}", c);
        }
        if c.is_ascii_alphanumeric() {
            assert!(!is_blank_char(c), "{:?}", c);
        }
    }
    assert!(is_blank_char(' '));
    assert_eq!(lower("ÀB c"), "àb c");
}
