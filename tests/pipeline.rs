use mojiman::batch::{finish_run, Batch};
use mojiman::catalog::{parse_entry, CatalogError};
use mojiman::config::Config;
use mojiman::find_emotes;
use mojiman::json::indexjson::{build_manifest, generate, Emote as IndexEmote};
use mojiman::plan::{orphans, plan, PlanError};
use mojiman::staleness::{is_stale, ArtifactProbe, Dimensions, StaleError};
use mojiman::{is_newer_than, Emote};

fn names(entries: &[&str]) -> Vec<String> {
    entries.iter().map(|s| s.to_string()).collect()
}

fn catalog(entries: &[&str]) -> Vec<Emote> {
    find_emotes(&names(entries)).unwrap()
}

fn file_names(c: &[Emote]) -> Vec<String> {
    c.iter().map(|e| e.file_name.clone()).collect()
}

fn unknown() -> ArtifactProbe {
    ArtifactProbe { source_mtime: None, output_mtime: None, output_size: None }
}

fn seen(source: i128, output: i128, w: usize, h: usize) -> ArtifactProbe {
    ArtifactProbe {
        source_mtime: Some(source),
        output_mtime: Some(output),
        output_size: Some(Dimensions { width: w, height: h }),
    }
}

#[test]
fn fresh_output_regenerates_everything() {
    let source = catalog(&["a.png", "b.gif"]);
    let output = catalog(&[]);
    let probes = vec![unknown(), unknown()];
    let p = plan(&source, &output, &probes, 48).unwrap();
    assert_eq!(file_names(&p.regenerate), names(&["a.png", "b.gif"]));
    assert!(p.delete.is_empty());
    assert!(p.keep.is_empty());
    let m = build_manifest(&"repo".to_string(), &p.source);
    let entries: Vec<(String, String)> = m.emotes.iter().map(|e| (e.name.clone(), e.typ.clone())).collect();
    assert_eq!(
        entries,
        vec![("a".to_string(), ".png".to_string()), ("b".to_string(), ".gif".to_string())]
    );
    assert_eq!(m.path, "emotes");
    assert_eq!(m.name, "repo");
}

#[test]
fn up_to_date_output_keeps_and_removes_orphans() {
    let source = catalog(&["a.png"]);
    let output = catalog(&["a.png", "stale.png"]);
    let probes = vec![seen(100, 200, 48, 48)];
    let p = plan(&source, &output, &probes, 48).unwrap();
    assert!(p.regenerate.is_empty());
    assert_eq!(file_names(&p.keep), names(&["a.png"]));
    assert_eq!(file_names(&p.delete), names(&["stale.png"]));
    let m = build_manifest(&"repo".to_string(), &p.source);
    assert_eq!(m.emotes.len(), 1);
    assert_eq!(m.emotes[0].name, "a");
    assert_eq!(m.emotes[0].typ, ".png");
}

#[test]
fn second_run_has_nothing_to_do() {
    let source = catalog(&["a.png", "b.jpg"]);
    let before = catalog(&["b.jpg", "gone.gif"]);
    let first = plan(&source, &before, &vec![unknown(), seen(10, 5, 48, 48)], 48).unwrap();
    assert_eq!(file_names(&first.regenerate), names(&["a.png", "b.jpg"]));
    assert_eq!(file_names(&first.delete), names(&["gone.gif"]));
    let after = catalog(&["a.png", "b.jpg"]);
    let second = plan(&source, &after, &vec![seen(10, 20, 48, 30), seen(10, 10, 30, 48)], 48).unwrap();
    assert!(second.regenerate.is_empty());
    assert!(second.delete.is_empty());
}

#[test]
fn unreadable_mtime_stops_the_plan() {
    let source = catalog(&["a.png", "b.png"]);
    let output = catalog(&["a.png", "b.png"]);
    let bad = ArtifactProbe { source_mtime: Some(1), output_mtime: None, output_size: None };
    let r = plan(&source, &output, &vec![seen(1, 2, 48, 48), bad], 48);
    assert!(matches!(r, Err(PlanError::MtimeUnreadable { index: 1 })));
}

#[test]
fn missing_artifact_ignores_probe() {
    let source = catalog(&["a.png"]);
    let output = catalog(&["other.png"]);
    let p = plan(&source, &output, &vec![unknown()], 48).unwrap();
    assert_eq!(file_names(&p.regenerate), names(&["a.png"]));
    assert_eq!(file_names(&p.delete), names(&["other.png"]));
}

#[test]
fn orphans_by_file_name() {
    let source = catalog(&["a.png", "b.gif"]);
    let output = catalog(&["a.png", "b.png", "c.jpg"]);
    assert_eq!(file_names(&orphans(&output, &source)), names(&["b.png", "c.jpg"]));
}

#[test]
fn catalog_skips_other_entries() {
    let c = catalog(&["a.png", ".hidden", "noext", "notes.txt", "B.GIF", "c.Jpg", "d.tar.png", "e.", ".png"]);
    assert_eq!(file_names(&c), names(&["a.png", "B.GIF", "c.Jpg", "d.tar.png"]));
    assert_eq!(c[1].name, "B");
    assert_eq!(c[1].extension, "gif");
    assert_eq!(c[2].extension, "jpg");
    assert_eq!(c[3].name, "d.tar");
    assert_eq!(c[3].extension, "png");
}

#[test]
fn catalog_of_empty_directory() {
    assert!(catalog(&[]).is_empty());
}

#[test]
fn catalog_rejects_duplicate_names() {
    let r = find_emotes(&names(&["a.png", "x.txt", "a.png"]));
    assert_eq!(r, Err(CatalogError::DuplicateFileName { index: 2 }));
}

#[test]
fn parse_entry_splits_at_last_dot() {
    let e = parse_entry("..png").unwrap();
    assert_eq!(e.name, ".");
    assert_eq!(e.extension, "png");
    assert!(parse_entry("a.bmp").is_none());
    assert_eq!(
        parse_entry("smile.png"),
        Some(Emote { name: "smile".to_string(), extension: "png".to_string(), file_name: "smile.png".to_string() })
    );
}

#[test]
fn staleness_oracle() {
    assert_eq!(is_stale(false, &unknown(), 48), Ok(true));
    assert_eq!(is_stale(true, &seen(20, 10, 48, 48), 48), Ok(true));
    assert_eq!(is_stale(true, &seen(10, 20, 48, 48), 48), Ok(false));
    assert_eq!(is_stale(true, &seen(10, 10, 48, 48), 48), Ok(false));
    assert_eq!(is_stale(true, &seen(10, 20, 64, 64), 48), Ok(true));
    assert_eq!(is_stale(true, &seen(10, 20, 48, 20), 48), Ok(false));
    assert_eq!(is_stale(true, &seen(10, 20, 20, 48), 48), Ok(false));
    let unmeasured = ArtifactProbe { source_mtime: Some(1), output_mtime: Some(2), output_size: None };
    assert_eq!(is_stale(true, &unmeasured, 48), Ok(true));
    let no_source = ArtifactProbe { source_mtime: None, output_mtime: Some(2), output_size: None };
    assert_eq!(is_stale(true, &no_source, 48), Err(StaleError::MtimeUnreadable));
}

#[test]
fn newer_is_strict() {
    assert!(is_newer_than(2, 1));
    assert!(!is_newer_than(1, 1));
    assert!(!is_newer_than(-5, 1));
}

#[test]
fn index_json_text() {
    let emotes = vec![
        IndexEmote::from(parse_entry("a.png").unwrap()),
        IndexEmote::from(parse_entry("b.GIF").unwrap()),
    ];
    let text = generate(&"bobamoji".to_string(), &emotes);
    let expected = "{\n  \"emotes\": [\n    {\n      \"name\": \"a\",\n      \"type\": \".png\"\n    },\n    {\n      \"name\": \"b\",\n      \"type\": \".gif\"\n    }\n  ],\n  \"name\": \"bobamoji\",\n  \"path\": \"emotes\"\n}";
    assert_eq!(text, expected);
}

#[test]
fn index_json_empty_and_escaped() {
    let text = generate(&"say \"hi\"".to_string(), &vec![]);
    assert_eq!(text, "{\n  \"emotes\": [],\n  \"name\": \"say \\\"hi\\\"\",\n  \"path\": \"emotes\"\n}");
}

#[test]
fn index_json_matches_serde_json() {
    let emotes = vec![IndexEmote::from(parse_entry("x\\y.jpg").unwrap())];
    let text = generate(&"Nitroless Repo".to_string(), &emotes);
    let mut entry = serde_json::Map::new();
    entry.insert("name".to_string(), serde_json::Value::String("x\\y".to_string()));
    entry.insert("type".to_string(), serde_json::Value::String(".jpg".to_string()));
    let mut root = serde_json::Map::new();
    root.insert("name".to_string(), serde_json::Value::String("Nitroless Repo".to_string()));
    root.insert("path".to_string(), serde_json::Value::String("emotes".to_string()));
    root.insert("emotes".to_string(), serde_json::Value::Array(vec![serde_json::Value::Object(entry)]));
    let expected = serde_json::to_string_pretty(&serde_json::Value::Object(root)).unwrap();
    assert_eq!(text, expected);
}

#[test]
fn batch_records_every_outcome() {
    let items = catalog(&["a.png", "b.png", "c.png"]);
    let mut b = Batch::new(items);
    let mut seen_items = Vec::new();
    while let Some(e) = b.pending() {
        let name = e.file_name.clone();
        let outcome = if name == "b.png" { Some("broken".to_string()) } else { None };
        seen_items.push(name);
        b.record(outcome);
    }
    assert!(b.is_complete());
    assert_eq!(seen_items, names(&["a.png", "b.png", "c.png"]));
    let f = b.failures();
    assert_eq!(f.len(), 1);
    assert_eq!(f[0].file_name, "b.png");
    assert_eq!(f[0].message, "broken");
}

#[test]
fn index_lists_source_despite_failures() {
    let source = catalog(&["a.png", "b.gif"]);
    let output = catalog(&[]);
    let p = plan(&source, &output, &vec![unknown(), unknown()], 48).unwrap();
    let mut transforms = Batch::new(p.regenerate.iter().map(|e| e.duplicate()).collect());
    while transforms.pending().is_some() {
        transforms.record(Some("failed".to_string()));
    }
    let mut removals = Batch::new(p.delete.iter().map(|e| e.duplicate()).collect());
    assert!(removals.is_complete());
    while removals.pending().is_some() {
        removals.record(None);
    }
    let m = finish_run(&"r".to_string(), &p, &transforms, &removals);
    assert_eq!(transforms.failures().len(), 2);
    assert_eq!(m.emotes.len(), 2);
    assert_eq!(m.to_json(), generate(&"r".to_string(), &m.emotes));
}

#[test]
fn default_config() {
    let c = Config::default();
    assert_eq!(c.repo_name, "Nitroless Repo");
    assert_eq!(c.emote_size, 48);
    assert_eq!(c.source_dir, "emotes");
    assert_eq!(c.public_dir, "public");
}
