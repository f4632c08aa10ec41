use jarvis_ui::widgets::{
    default_trust_status, discover_widgets, load_manifest_from_dir, scan_widgets_dir,
    WidgetEntry, WidgetManifest,
};

/// A descriptor as parsing yields it (defaults filled in).
fn parsed(id: &str, name: &str, entry: &str) -> WidgetManifest {
    WidgetManifest {
        id: id.into(),
        name: name.into(),
        description: String::new(),
        icon: None,
        entry: entry.into(),
        trust_status: default_trust_status(),
        subscribed_events: vec![],
        source: String::new(),
        dir: String::new(),
    }
}

fn widget_dir(base: &str, name: &str, manifest: Option<WidgetManifest>) -> WidgetEntry {
    WidgetEntry { path: format!("{base}/{name}"), is_dir: true, manifest }
}

#[test]
fn discovers_a_valid_widget() {
    let m = WidgetManifest {
        description: "desc".into(),
        trust_status: "verified".into(),
        subscribed_events: vec!["ipc-state".into()],
        ..parsed("wake-word-orb", "Wake Word Indicator", "index.html")
    };
    let listing = vec![widget_dir("/w", "wake-word-orb", Some(m))];

    let widgets = discover_widgets(Some(Some(listing)), None);

    assert_eq!(widgets.len(), 1);
    assert_eq!(widgets[0].id, "wake-word-orb");
    assert_eq!(widgets[0].name, "Wake Word Indicator");
    assert_eq!(widgets[0].trust_status, "verified");
    assert_eq!(widgets[0].subscribed_events, vec!["ipc-state".to_string()]);
    assert_eq!(widgets[0].source, "bundled");
    assert_eq!(widgets[0].dir, "/w/wake-word-orb");
}

#[test]
fn defaults_trust_status_when_omitted() {
    let listing = vec![widget_dir("/w", "plain", Some(parsed("plain", "Plain", "index.html")))];

    let widgets = discover_widgets(Some(Some(listing)), None);

    assert_eq!(widgets.len(), 1);
    assert_eq!(widgets[0].trust_status, "unreviewed");
    assert_eq!(widgets[0].description, "");
    assert!(widgets[0].subscribed_events.is_empty());
}

#[test]
fn skips_a_widget_missing_required_fields() {
    // A descriptor without `entry` does not parse.
    let listing = vec![
        widget_dir("/w", "broken", None),
        widget_dir("/w", "ok", Some(parsed("ok", "OK", "index.html"))),
    ];

    let widgets = discover_widgets(Some(Some(listing)), None);

    assert_eq!(widgets.len(), 1);
    assert_eq!(widgets[0].id, "ok");
}

#[test]
fn skips_a_directory_with_invalid_json() {
    let listing = vec![widget_dir("/w", "bad", None)];
    assert_eq!(discover_widgets(Some(Some(listing)), None), Vec::new());
}

#[test]
fn ignores_a_directory_with_no_manifest() {
    let listing = vec![widget_dir("/w", "not-a-widget", None)];
    assert_eq!(discover_widgets(Some(Some(listing)), None), Vec::new());
}

#[test]
fn combines_bundled_and_installed_scopes() {
    let bundled = vec![widget_dir(
        "/b",
        "wake-word-orb",
        Some(parsed("wake-word-orb", "Wake Word", "index.html")),
    )];
    let installed = vec![widget_dir(
        "/i",
        "custom-widget",
        Some(parsed("custom-widget", "Custom", "index.html")),
    )];

    let widgets = discover_widgets(Some(Some(bundled)), Some(Some(installed)));

    assert_eq!(widgets.len(), 2);
    assert!(widgets.iter().any(|w| w.id == "wake-word-orb" && w.source == "bundled"));
    assert!(widgets.iter().any(|w| w.id == "custom-widget" && w.source == "installed"));
}

#[test]
fn missing_directories_return_empty_not_error() {
    assert_eq!(discover_widgets(Some(None), None), Vec::new());
    assert_eq!(discover_widgets(None, None), Vec::new());
}

#[test]
fn scan_sorts_by_id_and_keeps_duplicates() {
    let listing = vec![
        widget_dir("/w", "c", Some(parsed("c", "C", "i.html"))),
        WidgetEntry { path: "/w/file.txt".into(), is_dir: false, manifest: Some(parsed("f", "F", "i.html")) },
        widget_dir("/w", "a2", Some(WidgetManifest { name: "second".into(), ..parsed("a", "A", "i.html") })),
        widget_dir("/w", "b", Some(parsed("b", "B", "i.html"))),
        widget_dir("/w", "a1", Some(WidgetManifest { name: "third".into(), ..parsed("a", "A", "i.html") })),
    ];
    let widgets = scan_widgets_dir(Some(listing), "installed");
    let ids: Vec<&str> = widgets.iter().map(|w| w.id.as_str()).collect();
    assert_eq!(ids, vec!["a", "a", "b", "c"]);
    assert_eq!(widgets[0].name, "second");
    assert_eq!(widgets[1].name, "third");
    assert_eq!(widgets[0].dir, "/w/a2");
    assert!(widgets.iter().all(|w| w.source == "installed"));
}

#[test]
fn bundled_come_before_installed_even_out_of_order() {
    let bundled = vec![widget_dir("/b", "z", Some(parsed("z", "Z", "i.html")))];
    let installed = vec![widget_dir("/i", "a", Some(parsed("a", "A", "i.html")))];
    let widgets = discover_widgets(Some(Some(bundled)), Some(Some(installed)));
    assert_eq!(widgets[0].id, "z");
    assert_eq!(widgets[1].id, "a");
}

#[test]
fn skips_widgets_with_blank_required_fields() {
    let listing = vec![
        widget_dir("/w", "blank-entry", Some(parsed("blank-entry", "Blank", "  "))),
        widget_dir("/w", "blank-id", Some(parsed(" ", "Blank", "index.html"))),
        widget_dir("/w", "ok", Some(parsed("ok", "OK", "index.html"))),
    ];
    let widgets = discover_widgets(Some(Some(listing)), None);
    assert_eq!(widgets.len(), 1);
    assert_eq!(widgets[0].id, "ok");
}

#[test]
fn load_fills_in_scope_and_directory() {
    let m = load_manifest_from_dir(Some(parsed("x", "X", "i.html")), "/w/x", "bundled").unwrap();
    assert_eq!(m.source, "bundled");
    assert_eq!(m.dir, "/w/x");
    assert_eq!(load_manifest_from_dir(Some(parsed("", "X", "i.html")), "/w/x", "bundled"), None);
    assert_eq!(load_manifest_from_dir(Some(parsed("x", "\t", "i.html")), "/w/x", "bundled"), None);
    assert_eq!(load_manifest_from_dir(None, "/w/x", "bundled"), None);
}
