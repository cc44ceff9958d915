use corpus_sampler::errors::MadError;
use corpus_sampler::filter::{FilterPolicy, Metadata};
use corpus_sampler::pipeline::{directory_outcome, process_lang, DirectoryOutcome, RunReport};
use corpus_sampler::sampler::{
    sample_directory, Offer, SampleBudget, Sampler, SourceLine, Stratum, CLEAN_CAP,
};
use corpus_sampler::schemas::{process_jsonline, Document, MadDocument};
use corpus_sampler::tag::{LanguageTag, TagError};

fn french() -> LanguageTag {
    LanguageTag { language: "fra".to_string(), script: Some("Latn".to_string()), locale: None }
}

fn record(text: &str) -> MadDocument {
    MadDocument { text: text.to_string(), timestamp: None, url: None }
}

fn line(text: &str) -> SourceLine {
    SourceLine { record: Some(record(text)), meta: Metadata::none() }
}

fn blocked(text: &str, category: &str) -> SourceLine {
    SourceLine {
        record: Some(record(text)),
        meta: Metadata {
            quality_warnings: None,
            categories: Some(vec![category.to_string()]),
            harmful_pp: None,
        },
    }
}

fn undecodable() -> SourceLine {
    SourceLine { record: None, meta: Metadata::none() }
}

fn lines(prefix: &str, n: usize) -> Vec<SourceLine> {
    (0..n).map(|i| line(&format!("{prefix}{i}"))).collect()
}

fn sampler(cap: usize) -> Sampler {
    Sampler::new(french(), "v1".to_string(), cap, FilterPolicy::standard())
}

fn json_error() -> serde_json::Error {
    serde_json::from_str::<serde_json::Value>("{").unwrap_err()
}

fn texts(docs: &[Document]) -> Vec<String> {
    docs.iter().map(|d| d.text.clone()).collect()
}

#[test]
fn the_clean_cap_is_a_thousand() {
    assert_eq!(CLEAN_CAP, 1000);
}

#[test]
fn more_clean_lines_than_the_cap() {
    let clean = lines("c", 1500);
    let noisy = lines("n", 5000);
    let docs =
        sample_directory(french(), "v1".to_string(), 1000, FilterPolicy::standard(), &clean, &noisy);
    assert_eq!(docs.iter().filter(|d| d.clean).count(), 1000);
    assert_eq!(docs.iter().filter(|d| !d.clean).count(), 2000);
    assert_eq!(docs.len(), 3000);
    assert_eq!(docs[0].text, "c0");
    assert_eq!(docs[999].text, "c999");
    assert_eq!(docs[1000].text, "n0");
    assert_eq!(docs[2999].text, "n1999");
    assert!(docs[..1000].iter().all(|d| d.clean));
    assert!(docs[1000..].iter().all(|d| !d.clean));
}

#[test]
fn fewer_noisy_lines_than_twice_the_clean_ones() {
    let clean = lines("c", 1500);
    let noisy = lines("n", 700);
    let docs =
        sample_directory(french(), "v1".to_string(), 1000, FilterPolicy::standard(), &clean, &noisy);
    assert_eq!(docs.len(), 1700);
    assert_eq!(docs.iter().filter(|d| !d.clean).count(), 700);
}

#[test]
fn the_noisy_cap_follows_the_clean_count_not_the_clean_cap() {
    let clean = lines("c", 3);
    let noisy = lines("n", 100);
    let docs =
        sample_directory(french(), "v1".to_string(), 1000, FilterPolicy::standard(), &clean, &noisy);
    assert_eq!(texts(&docs), vec!["c0", "c1", "c2", "n0", "n1", "n2", "n3", "n4", "n5"]);
}

#[test]
fn without_a_clean_document_there_is_no_noisy_one() {
    let clean = vec![line(""), undecodable(), blocked("x", "adult")];
    let noisy = lines("n", 10);
    let docs =
        sample_directory(french(), "v1".to_string(), 1000, FilterPolicy::standard(), &clean, &noisy);
    assert!(docs.is_empty());
}

#[test]
fn a_cap_of_zero_takes_nothing() {
    let docs = sample_directory(
        french(),
        "v1".to_string(),
        0,
        FilterPolicy::standard(),
        &lines("c", 5),
        &lines("n", 5),
    );
    assert!(docs.is_empty());
}

#[test]
fn ineligible_lines_are_skipped_and_the_rest_keeps_its_order() {
    let clean = vec![
        line("a"),
        line(""),
        undecodable(),
        blocked("b", "porn"),
        line("c"),
        blocked("d", "news"),
    ];
    let noisy = vec![line(""), line("x"), blocked("y", "sect"), line("z")];
    let docs =
        sample_directory(french(), "v1.5".to_string(), 10, FilterPolicy::standard(), &clean, &noisy);
    assert_eq!(texts(&docs), vec!["a", "c", "d", "x", "z"]);
    assert!(docs.iter().all(|d| !d.text.is_empty()));
}

#[test]
fn every_blocked_category_keeps_a_document_out() {
    let policy = FilterPolicy::standard();
    for entry in policy.blocklist.clone() {
        let clean = vec![blocked("bad", &entry), line("good")];
        let docs = sample_directory(
            french(),
            "v1".to_string(),
            10,
            FilterPolicy::standard(),
            &clean,
            &vec![blocked("bad too", &entry)],
        );
        assert_eq!(texts(&docs), vec!["good"], "{}", entry);
    }
}

#[test]
fn documents_are_stamped() {
    let clean = vec![SourceLine {
        record: Some(MadDocument {
            text: "bonjour".to_string(),
            timestamp: Some("2020".to_string()),
            url: Some("http://a.fr/".to_string()),
        }),
        meta: Metadata::none(),
    }];
    let noisy = vec![line("salut")];
    let tag = LanguageTag {
        language: "fra".to_string(),
        script: Some("Latn".to_string()),
        locale: Some("CA".to_string()),
    };
    let docs =
        sample_directory(tag, "v1.5".to_string(), 1000, FilterPolicy::standard(), &clean, &noisy);
    assert_eq!(
        docs,
        vec![
            Document {
                text: "bonjour".to_string(),
                lang: "fra".to_string(),
                script: Some("Latn".to_string()),
                locale: Some("CA".to_string()),
                timestamp: Some("2020".to_string()),
                url: Some("http://a.fr/".to_string()),
                clean: true,
                source: "MADLAD".to_string(),
                version: "v1.5".to_string(),
            },
            Document {
                text: "salut".to_string(),
                lang: "fra".to_string(),
                script: Some("Latn".to_string()),
                locale: Some("CA".to_string()),
                timestamp: None,
                url: None,
                clean: false,
                source: "MADLAD".to_string(),
                version: "v1.5".to_string(),
            },
        ]
    );
}

#[test]
fn the_sampler_says_what_became_of_each_record() {
    let mut s = sampler(2);
    assert_eq!(s.stratum(), Stratum::Clean);
    assert_eq!(s.consider(record(""), &Metadata::none()), Offer::EmptyText);
    let bad = blocked("x", "warez");
    assert_eq!(s.consider(record("x"), &bad.meta), Offer::Refused);
    assert_eq!(s.consider(record("a"), &Metadata::none()), Offer::Accepted);
    assert!(!s.is_full());
    assert_eq!(s.consider(record("b"), &Metadata::none()), Offer::Accepted);
    assert!(s.is_full());
    assert_eq!(s.consider(record("c"), &Metadata::none()), Offer::StratumFull);
    assert_eq!(s.consider(record(""), &Metadata::none()), Offer::StratumFull);
    assert_eq!(s.budget(), SampleBudget { clean_cap: 2, clean_count: 2, noisy_count: 0 });
    s.begin_noisy();
    assert_eq!(s.stratum(), Stratum::Noisy);
    assert!(!s.is_full());
    for text in ["n1", "n2", "n3", "n4"] {
        assert_eq!(s.consider(record(text), &Metadata::none()), Offer::Accepted);
    }
    assert!(s.is_full());
    assert_eq!(s.consider(record("n5"), &Metadata::none()), Offer::StratumFull);
    assert_eq!(s.budget(), SampleBudget { clean_cap: 2, clean_count: 2, noisy_count: 4 });
    assert_eq!(texts(&s.finish()), vec!["a", "b", "n1", "n2", "n3", "n4"]);
}

#[test]
fn the_counts_stay_within_their_caps_in_every_state() {
    let mut s = sampler(3);
    let all = lines("x", 20);
    for l in &all {
        s.consider(l.record.clone().unwrap(), &l.meta);
        let b = s.budget();
        assert!(b.clean_count <= b.clean_cap);
        assert!(b.noisy_count <= 2 * b.clean_count);
        assert_eq!(b.noisy_count, 0);
    }
    s.begin_noisy();
    for l in &all {
        s.consider(l.record.clone().unwrap(), &l.meta);
        let b = s.budget();
        assert_eq!(b.clean_count, 3);
        assert!(b.noisy_count <= 6);
    }
    assert_eq!(s.budget().noisy_count, 6);
}

#[test]
fn a_noisy_stratum_without_clean_documents_is_full_at_once() {
    let mut s = sampler(5);
    s.begin_noisy();
    assert!(s.is_full());
    assert_eq!(s.consider(record("n"), &Metadata::none()), Offer::StratumFull);
    assert!(s.finish().is_empty());
}

#[test]
fn a_line_that_does_not_decode_is_skipped() {
    let mut s = sampler(5);
    let r = s.offer(Err(json_error()), &Metadata::none());
    assert!(matches!(r, Err(MadError::SerdeJson(_))));
    assert_eq!(s.budget().clean_count, 0);
    let ok = s.offer(Ok(record("a")), &Metadata::none());
    assert!(matches!(ok, Ok(Offer::Accepted)));
    let empty = s.offer(Ok(record("")), &Metadata::none());
    assert!(matches!(empty, Ok(Offer::EmptyText)));
    assert_eq!(texts(&s.finish()), vec!["a"]);
}

#[test]
fn feeding_stops_at_the_cap() {
    let mut s = sampler(2);
    s.feed(&lines("c", 5));
    assert_eq!(s.budget().clean_count, 2);
    s.feed(&lines("d", 5));
    assert_eq!(s.budget().clean_count, 2);
    s.begin_noisy();
    s.feed(&lines("n", 3));
    s.feed(&lines("m", 3));
    assert_eq!(texts(&s.finish()), vec!["c0", "c1", "n0", "n1", "n2", "m0"]);
}

#[test]
fn budget_caps() {
    let b = SampleBudget { clean_cap: 3, clean_count: 2, noisy_count: 3 };
    assert!(!b.clean_full());
    assert!(!b.noisy_full());
    let full = SampleBudget { clean_cap: 3, clean_count: 3, noisy_count: 6 };
    assert!(full.clean_full());
    assert!(full.noisy_full());
    let none = SampleBudget { clean_cap: 3, clean_count: 0, noisy_count: 0 };
    assert!(none.noisy_full());
    let large = SampleBudget { clean_cap: usize::MAX, clean_count: usize::MAX, noisy_count: usize::MAX };
    assert!(large.clean_full());
    assert!(!large.noisy_full());
}

#[test]
fn a_decoded_line_becomes_a_row() {
    let doc = process_jsonline(
        Ok(MadDocument {
            text: "hallo".to_string(),
            timestamp: Some("t".to_string()),
            url: None,
        }),
        "deu".to_string(),
        None,
        Some("DE".to_string()),
        false,
        "v1".to_string(),
    )
    .unwrap();
    assert_eq!(
        doc,
        Document {
            text: "hallo".to_string(),
            lang: "deu".to_string(),
            script: None,
            locale: Some("DE".to_string()),
            timestamp: Some("t".to_string()),
            url: None,
            clean: false,
            source: "MADLAD".to_string(),
            version: "v1".to_string(),
        }
    );
}

#[test]
fn a_line_that_did_not_decode_gives_the_decoders_error() {
    let expected = json_error().to_string();
    let r = process_jsonline(Err(json_error()), "deu".to_string(), None, None, true, "v1".to_string());
    match r {
        Err(MadError::SerdeJson(e)) => assert_eq!(e.to_string(), expected),
        _ => panic!("expected the decoder's error"),
    }
}

#[test]
fn stamping_and_copies() {
    let r = MadDocument { text: "a".to_string(), timestamp: None, url: Some("u".to_string()) };
    assert_eq!(r.duplicate(), r);
    assert_eq!(french().duplicate(), french());
    let doc = Document::stamp(r, &french(), true, &"v1".to_string());
    assert_eq!(doc.lang, "fra");
    assert_eq!(doc.script, Some("Latn".to_string()));
    assert_eq!(doc.locale, None);
    assert_eq!(doc.url, Some("u".to_string()));
    assert!(doc.clean);
    assert_eq!(doc.source, "MADLAD");
    assert_eq!(doc.version, "v1");
}

#[test]
fn a_directory_from_its_name_to_its_sample() {
    let docs = process_lang(
        "fra_Latn_CA",
        "/corpus/data-v1p5/fra_Latn_CA",
        FilterPolicy::standard(),
        &lines("c", 2),
        &lines("n", 9),
    )
    .unwrap();
    assert_eq!(texts(&docs), vec!["c0", "c1", "n0", "n1", "n2", "n3"]);
    assert!(docs.iter().all(|d| d.lang == "fra"
        && d.script == Some("Latn".to_string())
        && d.locale == Some("CA".to_string())
        && d.version == "v1.5"));
}

#[test]
fn a_directory_whose_name_does_not_resolve_is_skipped() {
    let r = process_lang("a_b_c_d", "/x", FilterPolicy::standard(), &lines("c", 2), &vec![]);
    assert_eq!(r, Err(TagError::InvalidTagFormat));
    let r = process_lang("zzzz", "/x", FilterPolicy::standard(), &lines("c", 2), &vec![]);
    assert_eq!(r, Err(TagError::UnknownLanguageCode));
}

#[test]
fn the_outcome_of_a_directory() {
    assert_eq!(
        directory_outcome(&Err(TagError::InvalidTagFormat)),
        DirectoryOutcome::Skipped(TagError::InvalidTagFormat)
    );
    assert_eq!(directory_outcome(&Ok(vec![])), DirectoryOutcome::Empty);
    let docs = sample_directory(
        french(),
        "v1".to_string(),
        10,
        FilterPolicy::standard(),
        &lines("c", 2),
        &vec![],
    );
    assert_eq!(directory_outcome(&Ok(docs)), DirectoryOutcome::Sampled(2));
}

#[test]
fn the_account_of_a_run() {
    let mut report = RunReport::new();
    report.note(DirectoryOutcome::Skipped(TagError::UnknownLanguageCode));
    report.note(DirectoryOutcome::Empty);
    report.note(DirectoryOutcome::Sampled(7));
    report.note(DirectoryOutcome::Sampled(5));
    assert_eq!(report, RunReport { skipped: 1, empty: 1, sampled: 2, documents: 12 });
    let other = RunReport { skipped: 2, empty: 0, sampled: 1, documents: u64::MAX };
    assert_eq!(
        report.merge(other),
        RunReport { skipped: 3, empty: 1, sampled: 3, documents: u64::MAX }
    );
    assert_eq!(report.merge(other), other.merge(report));
}
