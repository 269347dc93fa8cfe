use tarmac::cache_map::{plan_cache_map, render_asset_list, render_cache_index, uploaded_ids};
use tarmac::manifest::{needs_upload, InputManifest, Manifest};

fn entry(name: &str, id: Option<u64>) -> (String, InputManifest) {
    (name.to_owned(), InputManifest { id, hash: None })
}

#[test]
fn cache_map_scenario_with_shared_and_sole_ids() {
    let manifest = Manifest {
        inputs: vec![
            entry("sword.png", Some(42)),
            entry("shield.png", Some(42)),
            entry("helmet.png", Some(7)),
        ],
    };
    let plan = plan_cache_map(&manifest, "/tmp/c");
    let index: Vec<(u64, String)> = plan.index;
    assert_eq!(
        index,
        vec![(7, "helmet.png".to_owned()), (42, "/tmp/c/42".to_owned())]
    );
    assert_eq!(plan.downloads, vec![42]);
}

#[test]
fn sole_contributor_needs_no_download() {
    let manifest = Manifest {
        inputs: vec![entry("a.png", Some(5)), entry("b.png", Some(6)), entry("c.png", None)],
    };
    let plan = plan_cache_map(&manifest, "/cache");
    assert_eq!(
        plan.index,
        vec![(5, "a.png".to_owned()), (6, "b.png".to_owned())]
    );
    assert!(plan.downloads.is_empty());
}

#[test]
fn shared_id_is_downloaded_exactly_once() {
    let manifest = Manifest {
        inputs: vec![
            entry("a.png", Some(9)),
            entry("b.png", Some(9)),
            entry("c.png", Some(9)),
            entry("d.png", Some(9)),
        ],
    };
    let plan = plan_cache_map(&manifest, "/c");
    assert_eq!(plan.index, vec![(9, "/c/9".to_owned())]);
    assert_eq!(plan.downloads, vec![9]);
}

#[test]
fn uploaded_ids_are_sorted_and_unique() {
    let manifest = Manifest {
        inputs: vec![
            entry("a", Some(30)),
            entry("b", Some(7)),
            entry("c", Some(30)),
            entry("d", None),
            entry("e", Some(19)),
        ],
    };
    assert_eq!(uploaded_ids(&manifest), vec![7, 19, 30]);
}

#[test]
fn asset_list_renders_one_id_per_line() {
    assert_eq!(render_asset_list(&vec![7, 19, 30]), "7\n19\n30\n");
    assert_eq!(render_asset_list(&vec![]), "");
}

#[test]
fn cache_index_renders_pretty_json() {
    let index = vec![(7u64, "helmet.png".to_owned()), (42u64, "/tmp/c/42".to_owned())];
    assert_eq!(
        render_cache_index(&index),
        "{\n  \"7\": \"helmet.png\",\n  \"42\": \"/tmp/c/42\"\n}"
    );
}

#[test]
fn cache_index_renders_empty_object() {
    assert_eq!(render_cache_index(&vec![]), "{}");
}

#[test]
fn cache_index_escapes_path_characters() {
    let index = vec![(1u64, "a\"b\\c\nd".to_owned())];
    assert_eq!(
        render_cache_index(&index),
        "{\n  \"1\": \"a\\\"b\\\\c\\nd\"\n}"
    );
}

#[test]
fn manifest_lookup_and_update() {
    let mut manifest = Manifest::new();
    manifest.record_upload("a.png", 5, "h1".to_owned());
    manifest.record_upload("b.png", 6, "h2".to_owned());
    manifest.record_upload("a.png", 9, "h3".to_owned());
    assert_eq!(manifest.inputs.len(), 2);
    let a = manifest.get("a.png").unwrap();
    assert_eq!(a.id, Some(9));
    assert_eq!(a.hash.as_deref(), Some("h3"));
    let b = manifest.get("b.png").unwrap();
    assert_eq!(b.id, Some(6));
    assert!(manifest.get("c.png").is_none());
}

#[test]
fn needs_upload_on_changed_hash_or_missing_id() {
    let uploaded = InputManifest { id: Some(3), hash: Some("h".to_owned()) };
    assert!(!needs_upload(&uploaded, "h"));
    assert!(needs_upload(&uploaded, "other"));
    let never = InputManifest { id: None, hash: Some("h".to_owned()) };
    assert!(needs_upload(&never, "h"));
    let no_hash = InputManifest { id: Some(3), hash: None };
    assert!(needs_upload(&no_hash, "h"));
}
