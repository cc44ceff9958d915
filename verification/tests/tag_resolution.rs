use corpus_sampler::tag::{
    assemble_tag, classify_subtag, dataset_version, resolve_tag, subtag_kind, LanguageTag,
    SubtagKind, TagError,
};

fn tag(language: &str, script: Option<&str>, locale: Option<&str>) -> LanguageTag {
    LanguageTag {
        language: language.to_string(),
        script: script.map(|s| s.to_string()),
        locale: locale.map(|s| s.to_string()),
    }
}

#[test]
fn three_parts_are_language_script_locale() {
    assert_eq!(resolve_tag("fra_Latn_CA"), Ok(tag("fra", Some("Latn"), Some("CA"))));
}

#[test]
fn two_uppercase_letters_are_a_locale() {
    assert_eq!(resolve_tag("fra_CA"), Ok(tag("fra", None, Some("CA"))));
}

#[test]
fn a_longer_second_part_is_a_script() {
    assert_eq!(resolve_tag("fra_Latn"), Ok(tag("fra", Some("Latn"), None)));
}

#[test]
fn one_part_has_neither_script_nor_locale() {
    assert_eq!(resolve_tag("fra"), Ok(tag("fra", None, None)));
    assert_eq!(resolve_tag("deu"), Ok(tag("deu", None, None)));
}

#[test]
fn a_two_letter_code_is_mapped_to_three_letters() {
    assert_eq!(resolve_tag("fr"), Ok(tag("fra", None, None)));
    assert_eq!(resolve_tag("de_Latn_DE"), Ok(tag("deu", Some("Latn"), Some("DE"))));
}

#[test]
fn three_parts_ignore_case() {
    assert_eq!(resolve_tag("fra_CA_latn"), Ok(tag("fra", Some("CA"), Some("latn"))));
    assert_eq!(resolve_tag("fra_ca_LATN"), Ok(tag("fra", Some("ca"), Some("LATN"))));
}

#[test]
fn four_parts_are_refused() {
    assert_eq!(resolve_tag("fra_Latn_CA_x"), Err(TagError::InvalidTagFormat));
    assert_eq!(resolve_tag("fra_a_b_c_d"), Err(TagError::InvalidTagFormat));
}

#[test]
fn four_parts_are_refused_before_the_language_is_looked_up() {
    assert_eq!(resolve_tag("zzzz_a_b_c"), Err(TagError::InvalidTagFormat));
}

#[test]
fn an_unknown_language_is_refused() {
    assert_eq!(resolve_tag("zzzz"), Err(TagError::UnknownLanguageCode));
    assert_eq!(resolve_tag("q_Latn"), Err(TagError::UnknownLanguageCode));
}

#[test]
fn the_empty_name_has_one_empty_part() {
    assert_eq!(resolve_tag(""), Err(TagError::UnknownLanguageCode));
}

#[test]
fn an_empty_second_part_is_a_script() {
    assert_eq!(resolve_tag("fra_"), Ok(tag("fra", Some(""), None)));
    assert_eq!(resolve_tag("fra__CA"), Ok(tag("fra", Some(""), Some("CA"))));
}

#[test]
fn lowercase_or_mixed_two_letters_are_a_script() {
    assert_eq!(resolve_tag("fra_ca"), Ok(tag("fra", Some("ca"), None)));
    assert_eq!(resolve_tag("fra_Ca"), Ok(tag("fra", Some("Ca"), None)));
}

#[test]
fn only_alphabetic_characters_are_counted() {
    // two uppercase letters and a digit: still exactly two alphabetic characters
    assert_eq!(resolve_tag("fra_C1A"), Ok(tag("fra", None, Some("C1A"))));
    // no alphabetic character at all
    assert_eq!(resolve_tag("fra_12"), Ok(tag("fra", Some("12"), None)));
    // three uppercase letters
    assert_eq!(resolve_tag("fra_CAN"), Ok(tag("fra", Some("CAN"), None)));
    // one uppercase letter
    assert_eq!(resolve_tag("fra_C"), Ok(tag("fra", Some("C"), None)));
}

#[test]
fn letters_outside_ascii_are_letters() {
    assert_eq!(classify_subtag("ÉÀ"), SubtagKind::Locale);
    assert_eq!(classify_subtag("éà"), SubtagKind::Script);
    assert_eq!(classify_subtag("ΔΩ"), SubtagKind::Locale);
}

#[test]
fn subtag_kind_by_counts() {
    assert_eq!(subtag_kind(2, 2), SubtagKind::Locale);
    assert_eq!(subtag_kind(2, 1), SubtagKind::Script);
    assert_eq!(subtag_kind(2, 0), SubtagKind::Script);
    assert_eq!(subtag_kind(3, 3), SubtagKind::Script);
    assert_eq!(subtag_kind(1, 1), SubtagKind::Script);
    assert_eq!(subtag_kind(0, 0), SubtagKind::Script);
}

#[test]
fn classify_subtag_examples() {
    assert_eq!(classify_subtag("CA"), SubtagKind::Locale);
    assert_eq!(classify_subtag("Latn"), SubtagKind::Script);
    assert_eq!(classify_subtag(""), SubtagKind::Script);
}

#[test]
fn assemble_refuses_no_part_and_four_parts() {
    let none: Vec<String> = vec![];
    assert_eq!(
        assemble_tag(&none, Some("fra".to_string()), SubtagKind::Script),
        Err(TagError::InvalidTagFormat)
    );
    let four: Vec<String> = vec!["a".into(), "b".into(), "c".into(), "d".into()];
    assert_eq!(
        assemble_tag(&four, Some("fra".to_string()), SubtagKind::Script),
        Err(TagError::InvalidTagFormat)
    );
}

#[test]
fn assemble_uses_the_answer_of_the_table() {
    let two: Vec<String> = vec!["xx".into(), "YY".into()];
    assert_eq!(
        assemble_tag(&two, Some("abc".to_string()), SubtagKind::Locale),
        Ok(tag("abc", None, Some("YY")))
    );
    assert_eq!(
        assemble_tag(&two, Some("abc".to_string()), SubtagKind::Script),
        Ok(tag("abc", Some("YY"), None))
    );
    assert_eq!(assemble_tag(&two, None, SubtagKind::Script), Err(TagError::UnknownLanguageCode));
    let three: Vec<String> = vec!["xx".into(), "s".into(), "l".into()];
    assert_eq!(
        assemble_tag(&three, Some("abc".to_string()), SubtagKind::Locale),
        Ok(tag("abc", Some("s"), Some("l")))
    );
    let one: Vec<String> = vec!["xx".into()];
    assert_eq!(
        assemble_tag(&one, Some("abc".to_string()), SubtagKind::Locale),
        Ok(tag("abc", None, None))
    );
}

#[test]
fn the_path_tells_the_release() {
    assert_eq!(dataset_version("/corpus/data-v1p5/fra_Latn"), "v1.5");
    assert_eq!(dataset_version("/corpus/data/fra_Latn"), "v1");
    assert_eq!(dataset_version("data-v1p5"), "v1.5");
    assert_eq!(dataset_version("data-v1p"), "v1");
    assert_eq!(dataset_version(""), "v1");
}
