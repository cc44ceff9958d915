use corpus_sampler::layout::{
    file_language, is_clean_source, is_columnar_file, is_noisy_source, is_record_file,
    language_of_stem, FileNameError,
};
use corpus_sampler::text::{chars_of, contains, ends_with, split, starts_with};
use corpus_sampler::unicode::letter_counts;

#[test]
fn split_at_every_separator() {
    assert_eq!(split("fra_Latn_CA", '_'), vec!["fra", "Latn", "CA"]);
    assert_eq!(split("fra", '_'), vec!["fra"]);
    assert_eq!(split("", '_'), vec![""]);
    assert_eq!(split("_", '_'), vec!["", ""]);
    assert_eq!(split("a__b", '_'), vec!["a", "", "b"]);
    assert_eq!(split("_a_", '_'), vec!["", "a", ""]);
}

#[test]
fn split_agrees_with_std() {
    for name in ["x_y", "é_ü_ß", "__", "a_b_c_d_e", "no separator"] {
        let expected: Vec<String> = name.split('_').map(|p| p.to_string()).collect();
        assert_eq!(split(name, '_'), expected);
    }
}

#[test]
fn chars_are_kept_in_order() {
    assert_eq!(chars_of("aé_"), vec!['a', 'é', '_']);
    assert!(chars_of("").is_empty());
}

#[test]
fn substring_search() {
    assert!(contains("abcabd", "abd"));
    assert!(contains("abc", ""));
    assert!(contains("", ""));
    assert!(!contains("", "a"));
    assert!(!contains("abc", "abcd"));
    assert!(!contains("aab", "aba"));
    assert!(contains("xclean_y", "clean_"));
}

#[test]
fn prefixes_and_suffixes() {
    assert!(starts_with("en_meta.jsonl", "en_meta"));
    assert!(!starts_with("xen_meta.jsonl", "en_meta"));
    assert!(starts_with("abc", ""));
    assert!(!starts_with("ab", "abc"));
    assert!(ends_with("fr_meta.jsonl", ".jsonl"));
    assert!(!ends_with("fr_meta.jsonl.gz", ".jsonl"));
    assert!(ends_with("abc", ""));
    assert!(!ends_with("bc", "abc"));
}

#[test]
fn letters_are_counted() {
    assert_eq!(letter_counts("CA"), (2, 2));
    assert_eq!(letter_counts("Latn"), (4, 1));
    assert_eq!(letter_counts("c-1A"), (2, 1));
    assert_eq!(letter_counts("1234"), (0, 0));
    assert_eq!(letter_counts(""), (0, 0));
}

#[test]
fn clean_and_noisy_sources_by_name() {
    assert!(is_clean_source("/data/fra_Latn/clean_0000.jsonl.gz"));
    assert!(!is_clean_source("/data/fra_Latn/noisy_0000.jsonl.gz"));
    assert!(is_noisy_source("/data/fra_Latn/noisy_0000.jsonl.gz"));
    assert!(!is_noisy_source("/data/fra_Latn/clean_0000.jsonl.gz"));
    assert!(!is_clean_source("/data/fra_Latn/clean.jsonl.gz"));
}

#[test]
fn columnar_files_by_name() {
    assert!(is_columnar_file("part-0.parquet"));
    assert!(!is_columnar_file("part-0.parquet.tmp"));
}

#[test]
fn record_files_by_name() {
    assert!(is_record_file("fr_meta.jsonl"));
    assert!(is_record_file("als_meta.jsonl"));
    assert!(!is_record_file("fr_meta.jsonl.gz"));
    assert!(!is_record_file("en_meta.jsonl"));
    assert!(!is_record_file("x-eml_meta.jsonl"));
    assert!(!is_record_file("multi_meta.jsonl"));
    assert!(is_record_file("men_meta.jsonl"));
}

#[test]
fn the_language_of_a_record_file() {
    assert_eq!(file_language("fr_meta.jsonl"), Ok("fra".to_string()));
    assert_eq!(file_language("de_meta.jsonl"), Ok("deu".to_string()));
    assert_eq!(file_language("als_meta.jsonl"), Ok("als".to_string()));
    assert_eq!(file_language("zh-classical_meta.jsonl"), Ok("zh-classical".to_string()));
    assert_eq!(file_language("_meta.jsonl"), Ok("".to_string()));
    assert_eq!(file_language("zz_meta.jsonl"), Err(FileNameError::UnknownLanguageCode));
    assert_eq!(file_language("fr.jsonl"), Err(FileNameError::NotARecordFile));
    assert_eq!(file_language(""), Err(FileNameError::NotARecordFile));
}

#[test]
fn the_language_of_a_stem() {
    assert_eq!(language_of_stem("fr", Some("fra".to_string())), Ok("fra".to_string()));
    assert_eq!(language_of_stem("fr", None), Err(FileNameError::UnknownLanguageCode));
    assert_eq!(language_of_stem("als", None), Ok("als".to_string()));
    assert_eq!(language_of_stem("als", Some("xyz".to_string())), Ok("als".to_string()));
    assert_eq!(language_of_stem("éü", Some("abc".to_string())), Ok("abc".to_string()));
}
