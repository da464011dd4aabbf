use weeb_bot::i18n::split_message_key;
use weeb_bot::interaction::{
    autocomplete_kind, command_kind, error_report, no_results_message, CommandKind,
};
use weeb_bot::saucenao::{
    describe_answer, index_kind, is_censored, outcome_message, search_outcome, ExtUrls,
    SauceIndex, SearchOutcome,
};
use weeb_bot::text::{join_strings, utf16_longer_than};
use weeb_bot::timestamp::{seconds_to_timestamp, to_decimal};
use weeb_bot::tracemoe::{AnilistResult, AnilistTitle};
use weeb_bot::yandex::{UploadBlock, UploadBlockName, UploadBlockParameters, UploadResponse};

#[test]
fn timestamps() {
    assert_eq!(seconds_to_timestamp(0), "0");
    assert_eq!(seconds_to_timestamp(59), "59");
    assert_eq!(seconds_to_timestamp(75), "1:15");
    assert_eq!(seconds_to_timestamp(3600), "1:0");
    assert_eq!(seconds_to_timestamp(3605), "1:5");
    assert_eq!(seconds_to_timestamp(3661), "1:1:1");
    assert_eq!(seconds_to_timestamp(u32::MAX), "1193046:28:15");
}

#[test]
fn decimals() {
    assert_eq!(to_decimal(0), "0");
    assert_eq!(to_decimal(1234567890123), "1234567890123");
    assert_eq!(to_decimal(u64::MAX), "18446744073709551615");
}

#[test]
fn joining() {
    let v: Vec<String> = vec!["a".into(), "b".into(), "c".into()];
    assert_eq!(join_strings(&v, ", "), "a, b, c");
    assert_eq!(join_strings(&Vec::new(), ", "), "");
    assert_eq!(join_strings(&vec!["x".to_string()], "-"), "x");
}

#[test]
fn utf16_lengths() {
    assert!(utf16_longer_than("😀", 1));
    assert!(!utf16_longer_than("😀", 2));
    assert!(utf16_longer_than("abc", 2));
    assert!(!utf16_longer_than("abc", 3));
    assert!(!utf16_longer_than("", 0));
}

#[test]
fn message_keys() {
    assert_eq!(split_message_key("greeting"), ("greeting".to_string(), None));
    assert_eq!(split_message_key("greeting.title"), ("greeting".to_string(), Some("title".to_string())));
    assert_eq!(split_message_key("a.b.c"), ("a".to_string(), Some("b".to_string())));
    assert_eq!(split_message_key("a."), ("a".to_string(), Some("".to_string())));
}

#[test]
fn command_routing() {
    assert_eq!(command_kind("japanese"), Some(CommandKind::Japanese));
    assert_eq!(command_kind("op"), Some(CommandKind::Op));
    assert_eq!(command_kind("sauce"), Some(CommandKind::Sauce));
    assert_eq!(command_kind("draw"), Some(CommandKind::Draw));
    assert_eq!(command_kind("ping"), None);
    assert_eq!(autocomplete_kind("op"), Some(CommandKind::Op));
    assert_eq!(autocomplete_kind("japanese"), Some(CommandKind::Japanese));
    assert_eq!(autocomplete_kind("sauce"), None);
}

#[test]
fn error_report_text() {
    assert_eq!(
        error_report(":(", "boom"),
        "An error occurred, it has been reported and will be fixed soon :(\n```\nboom\n```"
    );
}

#[test]
fn sauce_indexes() {
    assert_eq!(index_kind(0), Some(SauceIndex::HMagazines));
    assert_eq!(index_kind(5), Some(SauceIndex::Pixiv));
    assert_eq!(index_kind(6), Some(SauceIndex::Pixiv));
    assert_eq!(index_kind(371), Some(SauceIndex::Mangadex));
    assert_eq!(index_kind(44), Some(SauceIndex::Skeb));
    assert_eq!(index_kind(1), None);
    assert_eq!(SauceIndex::Drawr.ext_urls(), ExtUrls::Never);
    assert_eq!(SauceIndex::EHentai.ext_urls(), ExtUrls::Optional);
    assert_eq!(SauceIndex::Pixiv.ext_urls(), ExtUrls::Always);
}

#[test]
fn sauce_status_handling() {
    assert_eq!(search_outcome(1, true), SearchOutcome::Unavailable);
    assert_eq!(search_outcome(1, false), SearchOutcome::Results);
    assert_eq!(search_outcome(-2, false), SearchOutcome::Failed);
    assert_eq!(search_outcome(0, true), SearchOutcome::NoResults);
    assert_eq!(search_outcome(0, false), SearchOutcome::Results);
    assert_eq!(
        outcome_message(SearchOutcome::NoResults, ":(", 0),
        Some("No results were found :(".to_string())
    );
    assert_eq!(
        outcome_message(SearchOutcome::Unavailable, ":(", 3),
        Some("Seems that SauceNAO is not having a good time currently :( ``(status code: 3)``".to_string())
    );
    assert_eq!(
        outcome_message(SearchOutcome::Failed, ":(", -1),
        Some("Sorry, an error happened :( ``(status code: -1)``\nDid you send a valid image?".to_string())
    );
    assert_eq!(outcome_message(SearchOutcome::Results, ":(", 0), None);
}

#[test]
fn sauce_answer_description() {
    assert!(is_censored(1, false));
    assert!(!is_censored(1, true));
    assert!(!is_censored(0, false));
    assert_eq!(
        describe_answer("87.5", true),
        "Similarity 87.5%\n**WARNING:** Image is NSFW so it's been censored!"
    );
    assert_eq!(describe_answer("50", false), "Similarity 50%");
}

#[test]
fn anilist_texts() {
    let mut a = AnilistResult {
        id: 21,
        id_mal: None,
        title: AnilistTitle { native: None, romaji: "Wan Pisu".to_string(), english: Some("One Piece".to_string()) },
        synonyms: Vec::new(),
        is_adult: true,
    };
    assert_eq!(a.url(), "https://anilist.co/anime/21/");
    assert_eq!(a.title.shown(), "One Piece");
    assert!(a.must_censor(false));
    assert!(!a.must_censor(true));
    a.title.english = None;
    assert_eq!(a.title.shown(), "Wan Pisu");
}

#[test]
fn yandex_search_url() {
    let upload = UploadResponse {
        blocks: vec![UploadBlock {
            name: UploadBlockName { block: "b".to_string() },
            params: UploadBlockParameters {
                url: "cbir_id=1&rpt=imagelike".to_string(),
                original_image_url: "o".to_string(),
                cbir_id: "1".to_string(),
            },
            html: String::new(),
        }],
    };
    assert_eq!(upload.search_url(), Some("https://yandex.ru/images/search?cbir_id=1&rpt=imagelike".to_string()));
    assert_eq!(UploadResponse { blocks: Vec::new() }.search_url(), None);
}

#[test]
fn no_results_text() {
    assert_eq!(no_results_message(":("), "No results were found :(");
}
