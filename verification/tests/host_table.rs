use arrow::array::{Array, StringArray};
use corpus_sampler::filter::{FilterPolicy, Metadata};
use corpus_sampler::hosts::{
    extract_row, extract_rows, lotes_to_batch, process_file, row_from_answer, Extraction,
    HostExtractor, HostRecord, Lote, LoteBuilder, HOST_COLUMNS,
};
use corpus_sampler::layout::FileNameError;
use url::Url;

fn lote(host: &str, url: &str) -> Lote {
    Lote { host: host.to_string(), lang: "fra".to_string(), url: Some(url.to_string()) }
}

fn strings(column: &dyn Array) -> Vec<Option<String>> {
    let a = column.as_any().downcast_ref::<StringArray>().expect("a column of strings");
    (0..a.len()).map(|i| if a.is_null(i) { None } else { Some(a.value(i).to_string()) }).collect()
}

fn refused_meta() -> Metadata {
    Metadata { quality_warnings: None, categories: Some(vec!["phishing".to_string()]), harmful_pp: None }
}

#[test]
fn a_record_gives_the_host_of_its_address() {
    let r = extract_row(
        &FilterPolicy::standard(),
        "fra",
        &Metadata::none(),
        Some("https://www.example.fr/a/b?c=d".to_string()),
    );
    assert_eq!(r, Extraction::Row(lote("www.example.fr", "https://www.example.fr/a/b?c=d")));
}

#[test]
fn the_host_is_what_the_parser_finds() {
    for address in ["http://Example.COM:8080/x", "ftp://rms@example.com", "https://127.0.0.1/"] {
        let expected = Url::parse(address).unwrap().host_str().unwrap().to_string();
        let r = extract_row(
            &FilterPolicy::standard(),
            "deu",
            &Metadata::none(),
            Some(address.to_string()),
        );
        assert_eq!(
            r,
            Extraction::Row(Lote {
                host: expected,
                lang: "deu".to_string(),
                url: Some(address.to_string())
            })
        );
    }
    let r = extract_row(
        &FilterPolicy::standard(),
        "deu",
        &Metadata::none(),
        Some("http://Example.COM:8080/x".to_string()),
    );
    assert!(matches!(r, Extraction::Row(row) if row.host == "example.com"));
}

#[test]
fn records_that_give_nothing() {
    let policy = FilterPolicy::standard();
    assert_eq!(extract_row(&policy, "fra", &Metadata::none(), None), Extraction::NoUrl);
    assert_eq!(
        extract_row(&policy, "fra", &Metadata::none(), Some("not an address".to_string())),
        Extraction::UnparsableUrl
    );
    assert_eq!(
        extract_row(&policy, "fra", &Metadata::none(), Some("".to_string())),
        Extraction::UnparsableUrl
    );
    assert_eq!(
        extract_row(&policy, "fra", &Metadata::none(), Some("data:text/plain,Stuff".to_string())),
        Extraction::NoHost
    );
    assert_eq!(
        extract_row(&policy, "fra", &Metadata::none(), Some("unix:/run/foo.socket".to_string())),
        Extraction::NoHost
    );
}

#[test]
fn the_filter_is_asked_first() {
    let policy = FilterPolicy::standard();
    assert_eq!(
        extract_row(&policy, "fra", &refused_meta(), Some("https://a.fr/".to_string())),
        Extraction::Refused
    );
    assert_eq!(extract_row(&policy, "fra", &refused_meta(), None), Extraction::Refused);
    let low = Metadata { quality_warnings: None, categories: None, harmful_pp: Some(24_999) };
    assert_eq!(
        extract_row(&policy, "fra", &low, Some("https://a.fr/".to_string())),
        Extraction::Refused
    );
    let warned = Metadata { quality_warnings: Some(vec![]), categories: None, harmful_pp: None };
    assert_eq!(
        extract_row(&policy, "fra", &warned, Some("https://a.fr/".to_string())),
        Extraction::Refused
    );
}

#[test]
fn a_row_from_the_answer_of_the_parser() {
    assert_eq!(
        row_from_answer("fra", "u".to_string(), Ok(Some("h".to_string()))),
        Extraction::Row(lote("h", "u"))
    );
    assert_eq!(row_from_answer("fra", "u".to_string(), Ok(None)), Extraction::NoHost);
    let error = Url::parse("").unwrap_err();
    assert_eq!(row_from_answer("fra", "u".to_string(), Err(error)), Extraction::UnparsableUrl);
}

#[test]
fn the_buffer_is_handed_out_at_the_threshold() {
    let mut x = HostExtractor::new("fra".to_string(), FilterPolicy::standard(), 3);
    assert_eq!(x.offer(&Metadata::none(), Some("https://a.fr/1".to_string())), None);
    assert_eq!(x.offer(&refused_meta(), Some("https://b.fr/".to_string())), None);
    assert_eq!(x.offer(&Metadata::none(), None), None);
    assert_eq!(x.offer(&Metadata::none(), Some("https://a.fr/2".to_string())), None);
    let flushed = x.offer(&Metadata::none(), Some("https://c.fr/3".to_string()));
    assert_eq!(
        flushed,
        Some(vec![
            lote("a.fr", "https://a.fr/1"),
            lote("a.fr", "https://a.fr/2"),
            lote("c.fr", "https://c.fr/3"),
        ])
    );
    assert_eq!(x.offer(&Metadata::none(), Some("https://d.fr/4".to_string())), None);
    assert_eq!(x.documents(), 6);
    assert_eq!(x.records(), 4);
    assert_eq!(x.finish(), vec![lote("d.fr", "https://d.fr/4")]);
}

#[test]
fn an_extractor_that_saw_nothing_useful_has_no_records() {
    let mut x = HostExtractor::new("fra".to_string(), FilterPolicy::standard(), 1_000_000);
    assert_eq!(x.offer(&refused_meta(), Some("https://b.fr/".to_string())), None);
    assert_eq!(x.take(Extraction::NoHost), None);
    assert_eq!(x.documents(), 2);
    assert_eq!(x.records(), 0);
    assert!(x.finish().is_empty());
}

#[test]
fn a_threshold_of_one_hands_out_every_row() {
    let mut x = HostExtractor::new("fra".to_string(), FilterPolicy::standard(), 1);
    assert_eq!(x.take(Extraction::Row(lote("a", "u"))), Some(vec![lote("a", "u")]));
    assert_eq!(x.take(Extraction::Row(lote("b", "v"))), Some(vec![lote("b", "v")]));
    assert!(x.finish().is_empty());
}

#[test]
fn the_host_table_has_three_columns() {
    assert_eq!(HOST_COLUMNS, 3);
    let rows = vec![
        lote("a.fr", "https://a.fr/1"),
        Lote { host: "b.de".to_string(), lang: "deu".to_string(), url: None },
    ];
    let batch = lotes_to_batch(&rows).expect("two short rows fit").batch;
    let schema = batch.schema();
    let fields: Vec<(String, bool)> =
        schema.fields().iter().map(|f| (f.name().clone(), f.is_nullable())).collect();
    assert_eq!(
        fields,
        vec![("host".to_string(), false), ("lang".to_string(), false), ("url".to_string(), true)]
    );
    assert_eq!(batch.num_rows(), 2);
    assert_eq!(strings(batch.column(0)), vec![Some("a.fr".to_string()), Some("b.de".to_string())]);
    assert_eq!(strings(batch.column(1)), vec![Some("fra".to_string()), Some("deu".to_string())]);
    assert_eq!(strings(batch.column(2)), vec![Some("https://a.fr/1".to_string()), None]);
}

#[test]
fn an_empty_host_table_is_a_batch_without_rows() {
    let batch = lotes_to_batch(&[]).expect("no rows fit").batch;
    assert_eq!(batch.num_rows(), 0);
    assert_eq!(batch.num_columns(), 3);
}

#[test]
fn a_host_builder_finishes_what_was_appended() {
    let mut builder = LoteBuilder::new();
    assert!(builder.append(&lote("a", "u")));
    assert!(builder.append(&lote("b", "v")));
    let first = builder.finish().array;
    assert_eq!(strings(first.column(0).as_ref()), vec![Some("a".to_string()), Some("b".to_string())]);
    assert_eq!(LoteBuilder::new().finish().array.len(), 0);
}

fn records() -> Vec<HostRecord> {
    vec![
        HostRecord { meta: Metadata::none(), url: Some("https://a.fr/1".to_string()) },
        HostRecord { meta: refused_meta(), url: Some("https://bad.fr/".to_string()) },
        HostRecord { meta: Metadata::none(), url: None },
        HostRecord { meta: Metadata::none(), url: Some("no address".to_string()) },
        HostRecord { meta: Metadata::none(), url: Some("data:text/plain,x".to_string()) },
        HostRecord { meta: Metadata::none(), url: Some("http://b.fr/2".to_string()) },
    ]
}

#[test]
fn the_rows_of_a_file_keep_the_order_of_its_records() {
    let rows = extract_rows(&FilterPolicy::standard(), "fra", &records());
    assert_eq!(rows, vec![lote("a.fr", "https://a.fr/1"), lote("b.fr", "http://b.fr/2")]);
    assert!(extract_rows(&FilterPolicy::standard(), "fra", &vec![]).is_empty());
}

#[test]
fn a_file_from_its_name_to_its_rows() {
    let rows = process_file("fr_meta.jsonl", &FilterPolicy::standard(), &records());
    assert_eq!(rows, Ok(vec![lote("a.fr", "https://a.fr/1"), lote("b.fr", "http://b.fr/2")]));
    let rows = process_file("als_meta.jsonl", &FilterPolicy::standard(), &records()).unwrap();
    assert!(rows.iter().all(|r| r.lang == "als"));
    assert_eq!(rows.len(), 2);
}

#[test]
fn a_file_whose_name_tells_no_language_is_skipped() {
    assert_eq!(
        process_file("zz_meta.jsonl", &FilterPolicy::standard(), &records()),
        Err(FileNameError::UnknownLanguageCode)
    );
    assert_eq!(
        process_file("fr.jsonl", &FilterPolicy::standard(), &records()),
        Err(FileNameError::NotARecordFile)
    );
}

#[test]
fn a_line_that_is_no_record_is_counted_and_skipped() {
    let mut x = HostExtractor::new("fra".to_string(), FilterPolicy::standard(), 2);
    let error = serde_json::from_str::<serde_json::Value>("{").unwrap_err();
    let expected = error.to_string();
    match x.offer_decoded(Err(error)) {
        Err(e) => assert_eq!(e.message(), expected),
        Ok(_) => panic!("the line did not decode"),
    }
    assert_eq!(x.documents(), 1);
    assert_eq!(x.records(), 0);
    let first = x.offer_decoded(Ok(HostRecord {
        meta: Metadata::none(),
        url: Some("https://a.fr/1".to_string()),
    }));
    assert!(matches!(first, Ok(None)));
    let second = x.offer_decoded(Ok(HostRecord {
        meta: Metadata::none(),
        url: Some("https://b.fr/2".to_string()),
    }));
    match second {
        Ok(Some(rows)) => {
            assert_eq!(rows, vec![lote("a.fr", "https://a.fr/1"), lote("b.fr", "https://b.fr/2")])
        }
        _ => panic!("the second row fills the buffer"),
    }
    assert_eq!(x.take(Extraction::Undecodable), None);
    assert_eq!((x.documents(), x.records()), (4, 2));
    assert!(x.finish().is_empty());
}

#[test]
fn over_a_whole_file_no_row_is_lost() {
    let mut all = records();
    for i in 0..7 {
        all.push(HostRecord { meta: Metadata::none(), url: Some(format!("https://h{i}.fr/")) });
    }
    let expected = extract_rows(&FilterPolicy::standard(), "fra", &all);
    assert_eq!(expected.len(), 9);
    for threshold in [0, 1, 2, 3, 4, 9, 10, 1_000_000] {
        let mut x = HostExtractor::new("fra".to_string(), FilterPolicy::standard(), threshold);
        let mut seen: Vec<Lote> = vec![];
        for r in &all {
            if let Some(rows) = x.offer(&r.meta, r.url.clone()) {
                assert!(rows.len() >= threshold.min(1));
                seen.extend(rows);
            }
        }
        seen.extend(x.finish());
        assert_eq!(seen, expected, "threshold {}", threshold);
    }
}
