use gtranslate::request::build_query;
use gtranslate::request::match_language;
use gtranslate::request::str_eq;

#[test]
fn known_languages_map_to_codes() {
    assert_eq!(match_language("Chinese").as_deref(), Some("ZH-CN"));
    assert_eq!(match_language("English").as_deref(), Some("EN"));
    assert_eq!(match_language("Esperanto").as_deref(), Some("EO"));
    assert_eq!(match_language("French").as_deref(), Some("FR"));
    assert_eq!(match_language("German").as_deref(), Some("DE"));
    assert_eq!(match_language("Italian").as_deref(), Some("IT"));
    assert_eq!(match_language("Japanese").as_deref(), Some("JA"));
    assert_eq!(match_language("Korean").as_deref(), Some("KO"));
    assert_eq!(match_language("Russian").as_deref(), Some("RU"));
    assert_eq!(match_language("Spanish").as_deref(), Some("ES"));
}

#[test]
fn unknown_language_is_refused() {
    assert_eq!(match_language("Klingon"), None);
    assert_eq!(match_language("english"), None);
    assert_eq!(match_language(""), None);
}

#[test]
fn query_is_endpoint_language_and_phrase() {
    let url = build_query("Mi estas ne vin.", "EN");
    assert_eq!(
        url.as_str(),
        "http://translate.googleapis.com/translate_a/single?client=gtx&sl=auto&tl=EN&dt=t&q=Mi estas ne vin."
    );
}

#[test]
fn str_eq_compares_contents() {
    assert!(str_eq("abc", "abc"));
    assert!(str_eq("", ""));
    assert!(!str_eq("abc", "abd"));
    assert!(!str_eq("abc", "ab"));
    assert!(!str_eq("ab", "abc"));
}
