use currency_pipeline::engine::{resolve_currency, DestKey};
use currency_pipeline::model::{
    Currency, CurrencyDefinition, CurrencySourceInfo, Source, SourceEntry,
};
use currency_pipeline::pipeline::{run_pipeline, PipelineError};
use currency_pipeline::registry::SourceRegistry;
use currency_pipeline::render::{escape_json_string, render_artifact, render_currency, render_path};
use currency_pipeline::{Args, LogLevel};

fn source(id: &str, name: &str, homepage: &str) -> Source {
    Source {
        id: id.to_string(),
        name: name.to_string(),
        homepage: homepage.to_string(),
    }
}

fn entry(key: &str, local: &str) -> SourceEntry {
    SourceEntry {
        source_key: key.to_string(),
        info: CurrencySourceInfo { id: local.to_string() },
    }
}

fn definition(id: &str, name: &str, entries: Vec<SourceEntry>) -> CurrencyDefinition {
    CurrencyDefinition {
        id: id.to_string(),
        name: name.to_string(),
        sources: entries,
    }
}

#[test]
fn duplicate_source_id_rejected_and_first_retained() {
    let mut reg = SourceRegistry::new();
    assert!(reg.add_new(source("src1", "Exchange A", "https://a.example")).is_ok());
    let r = reg.add_new(source("src1", "Exchange B", "https://b.example"));
    match r {
        Err(e) => assert_eq!(e.source_id, "src1"),
        Ok(()) => panic!("second add under the same id must fail"),
    }
    let kept = reg.get_by_source_id(&"src1".to_string()).expect("src1 must stay registered");
    assert_eq!(kept.name, "Exchange A");
    assert_eq!(kept.homepage, "https://a.example");
}

#[test]
fn lookup_of_unknown_id_is_none() {
    let reg = SourceRegistry::new();
    assert!(reg.get_by_source_id(&"nope".to_string()).is_none());
}

#[test]
fn fanout_yields_one_instruction_per_source_plus_canonical() {
    let mut reg = SourceRegistry::new();
    for id in ["s1", "s2", "s3"] {
        reg.add_new(source(id, id, "https://x.example")).unwrap();
    }
    let def = definition(
        "22222222-2222-2222-2222-222222222222",
        "Coin",
        vec![entry("s1", "C1"), entry("s2", "C2"), entry("s3", "C3")],
    );
    let out = resolve_currency(&def, &reg).expect("all keys registered");
    assert_eq!(out.len(), 4);
    match &out[0].key {
        DestKey::Canonical { currency_id } => {
            assert_eq!(currency_id, "22222222-2222-2222-2222-222222222222")
        }
        _ => panic!("first instruction must be canonical"),
    }
    let expected = [("s1", "C1"), ("s2", "C2"), ("s3", "C3")];
    for (k, w) in expected.iter().zip(&out[1..]) {
        match &w.key {
            DestKey::SourceScoped { source_id, local_id } => {
                assert_eq!(source_id, k.0);
                assert_eq!(local_id, k.1);
            }
            _ => panic!("instruction after the first must be source-scoped"),
        }
        assert_eq!(w.value.id, "22222222-2222-2222-2222-222222222222");
        assert_eq!(w.value.name, "Coin");
    }
}

#[test]
fn dangling_reference_fails_naming_currency_and_key() {
    let mut reg = SourceRegistry::new();
    reg.add_new(source("known", "Known", "https://k.example")).unwrap();
    let def = definition(
        "33333333-3333-3333-3333-333333333333",
        "Coin",
        vec![entry("known", "C1"), entry("missing", "C2")],
    );
    match resolve_currency(&def, &reg) {
        Ok(_) => panic!("a dangling reference must fail"),
        Err(e) => {
            assert_eq!(e.currency_id, "33333333-3333-3333-3333-333333333333");
            assert_eq!(e.source_key, "missing");
        }
    }
}

#[test]
fn projection_carries_only_id_and_name() {
    let with_entries = definition("id-1", "Name One", vec![entry("a", "A"), entry("b", "B")]);
    let c = with_entries.to_currency();
    assert_eq!(c.id, "id-1");
    assert_eq!(c.name, "Name One");
    let rendered = render_currency(&c);
    assert!(!rendered.contains("sources"));
    assert!(!rendered.contains("\"a\""));

    let empty = definition("id-2", "Name Two", vec![]);
    let c2 = empty.to_currency();
    assert_eq!(c2.id, "id-2");
    assert_eq!(c2.name, "Name Two");
    assert!(!render_currency(&c2).contains("sources"));
}

#[test]
fn empty_sources_mapping_yields_canonical_only() {
    let reg = SourceRegistry::new();
    let def = definition("44444444-4444-4444-4444-444444444444", "Lonely", vec![]);
    let out = resolve_currency(&def, &reg).expect("no references to resolve");
    assert_eq!(out.len(), 1);
    match &out[0].key {
        DestKey::Canonical { currency_id } => {
            assert_eq!(currency_id, "44444444-4444-4444-4444-444444444444")
        }
        _ => panic!("the only instruction must be canonical"),
    }
}

#[test]
fn scenario_single_source_single_currency() {
    let sources = vec![source("src1", "Exchange A", "https://a.example")];
    let defs = vec![definition(
        "11111111-1111-1111-1111-111111111111",
        "Coin",
        vec![entry("src1", "COIN-A")],
    )];
    let out = run_pipeline(sources, &defs).expect("scenario resolves");
    assert_eq!(out.len(), 2);
    let expected_json = "{\"id\":\"11111111-1111-1111-1111-111111111111\",\"name\":\"Coin\"}";
    let (canonical_path, canonical_body) = render_artifact(&out[0]);
    assert_eq!(canonical_path, "currencies/11111111-1111-1111-1111-111111111111");
    assert_eq!(canonical_body, expected_json);
    let (scoped_path, scoped_body) = render_artifact(&out[1]);
    assert_eq!(scoped_path, "sources/src1/currencies/COIN-A");
    assert_eq!(scoped_body, expected_json);
}

#[test]
fn pipeline_duplicate_source_aborts() {
    let sources = vec![
        source("dup", "First", "https://1.example"),
        source("dup", "Second", "https://2.example"),
    ];
    match run_pipeline(sources, &vec![]) {
        Err(PipelineError::DuplicateSource { source_id }) => assert_eq!(source_id, "dup"),
        _ => panic!("a duplicate source id must abort the batch"),
    }
}

#[test]
fn pipeline_dangling_reference_aborts() {
    let sources = vec![source("here", "Here", "https://h.example")];
    let defs = vec![
        definition("id-ok", "Fine", vec![entry("here", "F")]),
        definition("id-bad", "Broken", vec![entry("gone", "G")]),
    ];
    match run_pipeline(sources, &defs) {
        Err(PipelineError::UnresolvedSourceReference { currency_id, source_key }) => {
            assert_eq!(currency_id, "id-bad");
            assert_eq!(source_key, "gone");
        }
        _ => panic!("a dangling reference must abort the batch"),
    }
}

fn artifacts(sources: Vec<Source>, defs: &Vec<CurrencyDefinition>) -> Vec<(String, String)> {
    run_pipeline(sources, defs)
        .expect("input resolves")
        .iter()
        .map(render_artifact)
        .collect()
}

#[test]
fn two_runs_over_unchanged_input_are_byte_identical() {
    let make_sources = || {
        vec![
            source("s1", "Exchange A", "https://a.example"),
            source("s2", "Exchange B", "https://b.example"),
        ]
    };
    let defs = vec![
        definition("id-1", "Coin", vec![entry("s1", "C-A"), entry("s2", "C-B")]),
        definition("id-2", "Token", vec![]),
    ];
    let first = artifacts(make_sources(), &defs);
    let second = artifacts(make_sources(), &defs);
    assert_eq!(first, second);
    assert_eq!(first.len(), 4);
}

#[test]
fn json_escaping_of_quotes_and_backslashes() {
    assert_eq!(escape_json_string("plain"), "plain");
    assert_eq!(escape_json_string("a\"b"), "a\\\"b");
    assert_eq!(escape_json_string("a\\b"), "a\\\\b");
    assert_eq!(escape_json_string("a\nb\tc\rd"), "a\\nb\\tc\\rd");
    assert_eq!(escape_json_string("\u{8}\u{c}"), "\\b\\f");
    assert_eq!(escape_json_string("\u{1}\u{1f}"), "\\u0001\\u001f");
    assert_eq!(escape_json_string(""), "");
}

#[test]
fn rendered_json_round_trips_through_a_json_parser() {
    let c = Currency {
        id: "id \"quoted\" \\ here".to_string(),
        name: "line\nbreak and \u{3} control".to_string(),
    };
    let rendered = render_currency(&c);
    let parsed: serde_json::Value = serde_json::from_str(&rendered).expect("valid JSON");
    assert_eq!(parsed["id"].as_str().unwrap(), c.id);
    assert_eq!(parsed["name"].as_str().unwrap(), c.name);
    assert_eq!(parsed.as_object().unwrap().len(), 2);
}

#[test]
fn paths_follow_the_output_layout() {
    let canonical = DestKey::Canonical { currency_id: "abc".to_string() };
    assert_eq!(render_path(&canonical), "currencies/abc");
    let scoped = DestKey::SourceScoped {
        source_id: "src1".to_string(),
        local_id: "COIN-A".to_string(),
    };
    assert_eq!(render_path(&scoped), "sources/src1/currencies/COIN-A");
}

#[test]
fn default_configuration() {
    let a = Args::new();
    assert_eq!(a.data_path, "data");
    assert_eq!(a.output_path, "output");
    assert!(matches!(a.log_level, LogLevel::Debug));
    assert!(!a.log_json);
}

#[test]
fn empty_batch_yields_no_instructions() {
    let out = run_pipeline(vec![], &vec![]).expect("nothing to resolve");
    assert!(out.is_empty());
}

#[test]
fn empty_strings_render_as_empty_json_fields() {
    let c = Currency { id: "".to_string(), name: "".to_string() };
    assert_eq!(render_currency(&c), "{\"id\":\"\",\"name\":\"\"}");
}

#[test]
fn source_duplicate_copies_every_field() {
    let s = source("src1", "Exchange A", "https://a.example");
    let copy = s.duplicate();
    assert_eq!(copy.id, s.id);
    assert_eq!(copy.name, s.name);
    assert_eq!(copy.homepage, s.homepage);
}
