use model_viewer::catalog::{
    classify_entry, Catalog, EntryOutcome, ModelDescriptor, ScanEntry, ScanEntryError,
    ASSET_ROOT, MODEL_EXTENSION,
};
use model_viewer::path::{normalize_separators, path_has_extension, relative_identifier};

fn file(path: &str) -> ScanEntry {
    ScanEntry::Found { path: path.to_string(), is_file: true }
}

fn directory(path: &str) -> ScanEntry {
    ScanEntry::Found { path: path.to_string(), is_file: false }
}

fn unreadable(reason: &str) -> ScanEntry {
    ScanEntry::Unreadable { reason: reason.to_string() }
}

fn identifiers(catalog: &Catalog) -> Vec<String> {
    let mut out = Vec::new();
    let mut i = 0;
    while let Some(d) = catalog.get(i) {
        out.push(d.identifier().to_string());
        i += 1;
    }
    out
}

#[test]
fn normalize_keeps_every_other_character() {
    assert_eq!(normalize_separators("mod\u{e8}les\\caf\u{e9}.gltf"), "mod\u{e8}les/caf\u{e9}.gltf");
    assert_eq!(normalize_separators("a b\\c#d"), "a b/c#d");
}

#[test]
fn normalize_replaces_every_backslash() {
    assert_eq!(normalize_separators("assets\\models\\Box\\Box.gltf"), "assets/models/Box/Box.gltf");
    assert_eq!(normalize_separators("assets/models\\Box.gltf"), "assets/models/Box.gltf");
    assert_eq!(normalize_separators("plain.gltf"), "plain.gltf");
    assert_eq!(normalize_separators("a\\\\b"), "a//b");
    assert_eq!(normalize_separators(""), "");
}

#[test]
fn normalize_is_idempotent_on_an_example() {
    let once = normalize_separators("a\\b/c\\d.gltf");
    let twice = normalize_separators(&once);
    assert_eq!(once, twice);
    assert!(!once.contains('\\'));
}

#[test]
fn extension_is_what_follows_the_last_dot_of_the_file_name() {
    assert!(path_has_extension("assets/models/Box/Box.gltf", "gltf"));
    assert!(path_has_extension("Box.gltf", "gltf"));
    assert!(path_has_extension("assets\\models\\Box.gltf", "gltf"));
    assert!(path_has_extension("archive.tar.gltf", "gltf"));
    assert!(path_has_extension("models/A.model", "model"));
    assert!(path_has_extension("a/..gltf", "gltf"));
}

#[test]
fn extension_mismatches_are_told_apart() {
    assert!(!path_has_extension("assets/models/Box/Box.glb", "gltf"));
    assert!(!path_has_extension("assets/models/Box/Box.gltf.bak", "gltf"));
    assert!(!path_has_extension("assets/models/Box/Box.GLTF", "gltf"));
    assert!(!path_has_extension("assets/models/Box/Boxgltf", "gltf"));
    assert!(!path_has_extension("assets/models/Box/gltf", "gltf"));
    assert!(!path_has_extension("assets/models.gltf/readme", "gltf"));
    assert!(!path_has_extension("", "gltf"));
    assert!(!path_has_extension("gltf", "gltf"));
}

#[test]
fn a_leading_dot_is_no_extension() {
    assert!(!path_has_extension(".gltf", "gltf"));
    assert!(!path_has_extension("assets/models/.gltf", "gltf"));
    assert!(!path_has_extension("assets\\models\\.gltf", "gltf"));
}

#[test]
fn an_extension_holds_no_dot_and_no_separator() {
    assert!(!path_has_extension("Box.tar.gltf", "tar.gltf"));
    assert!(!path_has_extension("a.b/c", "b/c"));
    assert!(!path_has_extension("a.b\\c", "b\\c"));
    assert!(path_has_extension("Box.", ""));
    assert!(!path_has_extension(".", ""));
}

#[test]
fn identifier_is_relative_to_the_root() {
    assert_eq!(relative_identifier("assets/models/Box/Box.gltf", "assets"), "models/Box/Box.gltf");
    assert_eq!(relative_identifier("assets/models/Box/Box.gltf", "assets/"), "models/Box/Box.gltf");
    assert_eq!(relative_identifier("assets\\models\\Box\\Box.gltf", "assets"), "models/Box/Box.gltf");
    assert_eq!(relative_identifier("assets\\models\\Box\\Box.gltf", "assets\\"), "models/Box/Box.gltf");
    assert_eq!(relative_identifier("assets/models\\Box\\Box.gltf", "assets/models"), "Box/Box.gltf");
}

#[test]
fn identifier_strips_the_root_once() {
    assert_eq!(relative_identifier("assets/assets/Box.gltf", "assets"), "assets/Box.gltf");
    assert_eq!(relative_identifier("assets/assets/Box.gltf", "assets/"), "assets/Box.gltf");
}

#[test]
fn identifier_outside_the_root_is_only_normalized() {
    assert_eq!(relative_identifier("other\\models\\Box.gltf", "assets"), "other/models/Box.gltf");
    assert_eq!(relative_identifier("assetsfoo/Box.gltf", "assets"), "assetsfoo/Box.gltf");
    assert_eq!(relative_identifier("assets", "assets"), "assets");
    assert_eq!(relative_identifier("asset", "assets"), "asset");
    assert_eq!(relative_identifier("models\\Box.gltf", ""), "models/Box.gltf");
    assert_eq!(relative_identifier("", "assets"), "");
}

#[test]
fn descriptor_keeps_its_identifier() {
    let d = ModelDescriptor::new("models/Box/Box.gltf".to_string());
    assert_eq!(d.identifier(), "models/Box/Box.gltf");
    assert_eq!(d.label(), "models/Box/Box.gltf");
}

#[test]
fn sub_resource_is_appended_after_a_hash() {
    let d = ModelDescriptor::new("models/Box/Box.gltf".to_string());
    let scene = d.with_sub_resource("Scene0");
    assert_eq!(scene.identifier(), "models/Box/Box.gltf#Scene0");
    assert_eq!(d.identifier(), "models/Box/Box.gltf");
    assert_eq!(d.with_sub_resource("").identifier(), "models/Box/Box.gltf#");
}

#[test]
fn classify_tells_the_three_kinds_apart() {
    assert_eq!(
        classify_entry(&file("assets/models/Box.gltf"), "assets", "gltf"),
        EntryOutcome::Model(ModelDescriptor::new("models/Box.gltf".to_string()))
    );
    assert_eq!(classify_entry(&file("assets/models/Box.png"), "assets", "gltf"), EntryOutcome::Ignored);
    assert_eq!(classify_entry(&directory("assets/models/Box.gltf"), "assets", "gltf"), EntryOutcome::Ignored);
    assert_eq!(
        classify_entry(&unreadable("permission denied"), "assets", "gltf"),
        EntryOutcome::Skipped(ScanEntryError { reason: "permission denied".to_string() })
    );
}

#[test]
fn new_catalog_is_empty() {
    let c = Catalog::new();
    assert_eq!(c.len(), 0);
    assert!(c.get(0).is_none());
}

#[test]
fn scan_of_nothing_is_empty() {
    let report = Catalog::scan(&Vec::new(), ASSET_ROOT, MODEL_EXTENSION);
    assert_eq!(report.catalog.len(), 0);
    assert!(report.skipped.is_empty());
}

#[test]
fn scan_lists_exactly_the_model_files() {
    let entries = vec![
        directory("assets/models"),
        directory("assets/models/Box"),
        file("assets/models/Box/Box.gltf"),
        file("assets/models/Box/Box.bin"),
        file("assets/models/Box/texture.png"),
        directory("assets/models/Deep"),
        directory("assets/models/Deep/er"),
        file("assets/models/Deep/er/Nested.gltf"),
        file("assets/models/Deep/er/notes.txt"),
        file("assets/models/Top.gltf"),
        file("assets/models/README"),
    ];
    let report = Catalog::scan(&entries, "assets", "gltf");
    assert_eq!(report.catalog.len(), 3);
    assert_eq!(
        identifiers(&report.catalog),
        vec!["models/Box/Box.gltf", "models/Deep/er/Nested.gltf", "models/Top.gltf"]
    );
    assert!(report.skipped.is_empty());
}

#[test]
fn scan_normalizes_whatever_the_platform_wrote() {
    let entries = vec![
        directory("assets/models\\Box"),
        file("assets/models\\Box\\Box.gltf"),
        file("assets\\models\\Duck\\Duck.gltf"),
        file("assets/models/Lamp/Lamp.gltf"),
        file("assets\\models\\Duck\\Duck.bin"),
    ];
    let report = Catalog::scan(&entries, "assets", "gltf");
    let ids = identifiers(&report.catalog);
    assert_eq!(ids, vec!["models/Box/Box.gltf", "models/Duck/Duck.gltf", "models/Lamp/Lamp.gltf"]);
    for id in ids.iter() {
        assert!(!id.contains('\\'));
    }
}

#[test]
fn scan_keeps_walk_order() {
    let entries = vec![file("assets/z.gltf"), file("assets/a.gltf"), file("assets/m.gltf")];
    let report = Catalog::scan(&entries, "assets", "gltf");
    assert_eq!(identifiers(&report.catalog), vec!["z.gltf", "a.gltf", "m.gltf"]);
}

#[test]
fn scan_passes_over_a_directory_named_like_a_model() {
    let entries = vec![directory("assets/models/Folder.gltf"), file("assets/models/Folder.gltf/inner.gltf")];
    let report = Catalog::scan(&entries, "assets", "gltf");
    assert_eq!(identifiers(&report.catalog), vec!["models/Folder.gltf/inner.gltf"]);
}

#[test]
fn scan_survives_an_unreadable_entry() {
    let readable = vec![
        file("assets/models/A.gltf"),
        file("assets/models/B.gltf"),
        file("assets/models/C.gltf"),
    ];
    let expected = vec!["models/A.gltf", "models/B.gltf", "models/C.gltf"];
    for position in 0..=readable.len() {
        let mut entries = readable.clone();
        entries.insert(position, unreadable("permission denied"));
        let report = Catalog::scan(&entries, "assets", "gltf");
        assert_eq!(report.catalog.len(), 3);
        assert_eq!(identifiers(&report.catalog), expected);
        assert_eq!(report.skipped, vec![ScanEntryError { reason: "permission denied".to_string() }]);
    }
}

#[test]
fn scan_reports_every_unreadable_entry_in_order() {
    let entries = vec![
        unreadable("broken symlink"),
        file("assets/models/A.gltf"),
        unreadable("permission denied"),
        unreadable("vanished"),
    ];
    let report = Catalog::scan(&entries, "assets", "gltf");
    assert_eq!(identifiers(&report.catalog), vec!["models/A.gltf"]);
    let reasons: Vec<&str> = report.skipped.iter().map(|e| e.reason.as_str()).collect();
    assert_eq!(reasons, vec!["broken symlink", "permission denied", "vanished"]);
}

#[test]
fn scan_with_another_extension() {
    let entries = vec![file("assets/models/A.model"), file("assets/models/B.model"), file("assets/models/C.gltf")];
    let report = Catalog::scan(&entries, "assets", "model");
    assert_eq!(identifiers(&report.catalog), vec!["models/A.model", "models/B.model"]);
}

#[test]
fn catalog_descriptors_are_in_walk_order() {
    let entries = vec![file("assets/models/B.gltf"), directory("assets/models"), file("assets/models/A.gltf")];
    let report = Catalog::scan(&entries, "assets", "gltf");
    let ids: Vec<&str> = report.catalog.descriptors().iter().map(|d| d.identifier()).collect();
    assert_eq!(ids, vec!["models/B.gltf", "models/A.gltf"]);
    assert_eq!(report.catalog.descriptors().len(), report.catalog.len());
}

#[test]
fn catalog_get_is_none_past_the_end() {
    let entries = vec![file("assets/models/A.gltf")];
    let report = Catalog::scan(&entries, "assets", "gltf");
    assert_eq!(report.catalog.get(0).map(|d| d.identifier()), Some("models/A.gltf"));
    assert!(report.catalog.get(1).is_none());
    assert!(report.catalog.get(usize::MAX).is_none());
}

#[test]
fn the_viewer_lists_gltf_under_assets() {
    assert_eq!(MODEL_EXTENSION, "gltf");
    assert_eq!(ASSET_ROOT, "assets");
}
