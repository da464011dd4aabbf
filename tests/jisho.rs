use weeb_bot::jisho::{
    attach_furigana, format_sense, is_convertible, is_hiragana, suggestions_for, word_suggestions, JishoCommand, JishoError,
    JishoJapanese, JishoSense, JishoSenseLink, JishoWord, JishoWordAttribution, WORD_COLOR,
};

fn strings(xs: &[&str]) -> Vec<String> {
    xs.iter().map(|x| x.to_string()).collect()
}

fn sense(pos: &[&str], defs: &[&str]) -> JishoSense {
    JishoSense {
        english_definitions: strings(defs),
        parts_of_speech: strings(pos),
        links: Vec::new(),
        tags: Vec::new(),
        restrictions: Vec::new(),
        see_also: Vec::new(),
        antonyms: Vec::new(),
        source: Vec::new(),
        info: Vec::new(),
    }
}

fn form(word: Option<&str>, reading: Option<&str>) -> JishoJapanese {
    JishoJapanese {
        word: word.map(|w| w.to_string()),
        reading: reading.map(|r| r.to_string()),
        furigana: Vec::new(),
    }
}

fn word(is_common: Option<bool>, tags: &[&str], japanese: Vec<JishoJapanese>, senses: Vec<JishoSense>) -> JishoWord {
    JishoWord {
        slug: "食べる".to_string(),
        is_common,
        tags: strings(tags),
        jlpt: Vec::new(),
        japanese,
        senses,
        attribution: JishoWordAttribution { jmdict: true, jmnedict: false, dbpedia: None },
    }
}

#[test]
fn tags_show_common_and_wanikani_levels() {
    let w = word(Some(true), &["wanikani12", "jlpt-n5"], vec![form(Some("食べる"), Some("たべる"))], Vec::new());
    assert_eq!(JishoCommand::process_tags(&w), strings(&["common word", "wanikani lvl12"]));
    let w = word(None, &["wanikani3"], vec![form(Some("食べる"), Some("たべる"))], Vec::new());
    assert_eq!(JishoCommand::process_tags(&w), strings(&["wanikani lvl3"]));
    let w = word(Some(false), &[], vec![form(Some("食べる"), Some("たべる"))], Vec::new());
    assert!(JishoCommand::process_tags(&w).is_empty());
}

#[test]
fn sense_text_has_every_part() {
    let mut s = sense(&["Ichidan verb"], &["to eat", "to live on"]);
    s.tags = strings(&["Usually written using kana alone"]);
    s.restrictions = strings(&["食べる"]);
    s.see_also = strings(&["食う"]);
    s.info = strings(&["polite"]);
    s.links = vec![JishoSenseLink { text: "Wiki".to_string(), url: "https://w".to_string() }];
    assert_eq!(
        format_sense(0, &s),
        "1. **to eat; to live on**Usually written using kana aloneOnly applies to 食べる[食う](https://jisho.org/search/食う)polite[Wiki](https://w)"
    );
    assert_eq!(format_sense(9, &sense(&[], &["x"])), "10. **x**");
}

#[test]
fn embed_merges_meanings_without_part_of_speech() {
    let w = word(
        Some(true),
        &["wanikani5"],
        vec![form(Some("食べる"), Some("たべる")), form(Some("喰べる"), Some("たべる")), form(None, Some("たべる"))],
        vec![sense(&["Ichidan verb", "Transitive verb"], &["to eat"]), sense(&[], &["to live on"]), sense(&["Noun"], &["food"])],
    );
    let e = JishoCommand::make_embed(&w).ok().unwrap();
    assert_eq!(e.title, "食べる");
    assert_eq!(e.url, "https://jisho.org/word/食べる");
    assert_eq!(e.color, WORD_COLOR);
    assert_eq!(e.description, Some("**common word - wanikani lvl5**".to_string()));
    let fields: Vec<(String, String)> = e.fields.into_iter().map(|f| (f.name, f.value)).collect();
    assert_eq!(
        fields,
        vec![
            ("Ichidan verb, Transitive verb".to_string(), "1. **to eat**\n2. **to live on**".to_string()),
            ("Noun".to_string(), "3. **food**".to_string()),
            ("Other forms".to_string(), "喰べる 【たべる】".to_string()),
        ]
    );
}

#[test]
fn embed_first_meaning_without_part_of_speech_gets_blank_name() {
    let w = word(None, &[], vec![form(Some("食べる"), Some("たべる"))], vec![sense(&[], &["to eat"])]);
    let e = JishoCommand::make_embed(&w).ok().unwrap();
    assert_eq!(e.description, None);
    assert_eq!(e.fields.len(), 1);
    assert_eq!(e.fields[0].name, "\u{200b}");
    assert_eq!(e.fields[0].value, "1. **to eat**");
}

#[test]
fn embed_other_forms_joined() {
    let w = word(
        None,
        &[],
        vec![form(Some("a"), Some("b")), form(Some("c"), Some("d")), form(Some("e"), None), form(Some("f"), Some("g"))],
        Vec::new(),
    );
    let e = JishoCommand::make_embed(&w).ok().unwrap();
    assert_eq!(e.fields.len(), 1);
    assert_eq!(e.fields[0].name, "Other forms");
    assert_eq!(e.fields[0].value, "c 【d】、f 【g】");
}

#[test]
fn embed_refuses_a_field_made_too_long() {
    let long = "a".repeat(1000);
    let w = word(None, &[], vec![form(Some("x"), Some("y"))], vec![sense(&["Noun"], &[&long]), sense(&[], &["bbbbbbbbbbbbbbbbbbbbbbbbbbbbbbbbbbbbbbbbbb"])]);
    assert!(matches!(JishoCommand::make_embed(&w), Err(JishoError::FieldTooLong)));
}

#[test]
fn suggestions_for_empty_input_give_an_example() {
    assert_eq!(suggestions_for("", ""), strings(&["例え"]));
}

#[test]
fn suggestions_quote_hiragana_readings() {
    assert_eq!(suggestions_for("taberu", "たべる"), strings(&["taberu", "\"taberu\""]));
    assert_eq!(suggestions_for("cat", "cat"), strings(&["cat"]));
}

#[test]
fn word_suggestions_convert_to_hiragana() {
    assert_eq!(word_suggestions("タベル"), strings(&["タベル", "\"タベル\""]));
    assert_eq!(word_suggestions("taberu"), strings(&["taberu", "\"taberu\""]));
    assert_eq!(word_suggestions("123"), strings(&["123"]));
    assert_eq!(word_suggestions(""), strings(&["例え"]));
}

#[test]
fn hiragana_check() {
    assert!(is_hiragana("げーむ"));
    assert!(is_hiragana("たべる"));
    assert!(!is_hiragana("ア"));
    assert!(!is_hiragana("あア"));
    assert!(!is_hiragana(""));
    assert!(!is_hiragana("a"));
}

#[test]
fn unconvertible_input_is_offered_alone() {
    assert!(!is_convertible("\u{FF9E}"));
    assert!(!is_convertible("a\u{FF9F}"));
    assert!(is_convertible("ｶ"));
    assert_eq!(word_suggestions("\u{FF9E}"), strings(&["\u{FF9E}"]));
    assert_eq!(word_suggestions("a\u{FF9E}"), strings(&["a\u{FF9E}"]));
}

#[test]
fn furigana_goes_to_the_first_form_of_each_word() {
    let words = vec![
        word(None, &[], vec![form(Some("食べる"), Some("たべる")), form(Some("喰べる"), None)], Vec::new()),
        word(None, &[], Vec::new(), Vec::new()),
        word(None, &[], vec![form(Some("犬"), Some("いぬ"))], Vec::new()),
    ];
    let furiganas = vec![strings(&["た"]), strings(&["x"])];
    let out = attach_furigana(words, furiganas);
    assert_eq!(out.len(), 3);
    assert_eq!(out[0].japanese[0].furigana, strings(&["た"]));
    assert_eq!(out[0].japanese[0].word.as_deref(), Some("食べる"));
    assert!(out[0].japanese[1].furigana.is_empty());
    assert!(out[1].japanese.is_empty());
    assert!(out[2].japanese[0].furigana.is_empty());
}
