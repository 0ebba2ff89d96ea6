use noctig::collapsible::{load_licenses, Collapsible, LicenseData, LICENSE_ICON};
use noctig::database::{get_migrations, recent_project_id, DB_VERSION, MIGRATION_V2};
use noctig::project::{
    illegal_path_char_positions, sanitize_file_name, Project, ProjectConfiguration,
    ProjectSignals, ProjectType, Scorings, SignalSource, Stage,
};

fn signal(name: &str, is_reference: bool) -> ProjectSignals {
    ProjectSignals {
        timestamp: 0,
        duration: 60,
        signal_count: 2,
        path: format!("/data/{}", name),
        name: name.to_string(),
        is_reference,
    }
}

#[test]
fn sanitizing_file_names() {
    assert_eq!(sanitize_file_name("a<b>c:d\"e/f\\g|h?i*j"), "abcdefghij");
    assert_eq!(sanitize_file_name("night\u{7}\tone"), "nightone");
    assert_eq!(sanitize_file_name("Schlaf über Nacht"), "Schlaf über Nacht");
    assert_eq!(illegal_path_char_positions("a/b"), vec![1]);
    assert_eq!(illegal_path_char_positions("é<ü*"), vec![2, 5]);
    assert_eq!(illegal_path_char_positions("fine"), Vec::<usize>::new());
}

#[test]
fn stage_labels() {
    assert_eq!(Stage::W.map_str(), "W");
    assert_eq!(Stage::N3.map_str(), "N3");
    assert_eq!(Stage::Unset.map_str(), "?");
}

#[test]
fn project_from_configuration() {
    let config = ProjectConfiguration {
        name: "Study".to_string(),
        path: "/projects".to_string(),
        new_tag: String::new(),
        tags: vec!["a".to_string(), "b".to_string()],
        data: vec![signal("one.edf", false), signal("two.edf", true)],
        filter_signal: true,
        clip_signal: false,
        auto_align_signals: true,
    };
    let p = Project::from_config(&config);
    assert_eq!(p.name, "Study");
    assert_eq!(p.project_type, ProjectType::SleepScoring);
    assert_eq!(p.epoch_duration, 30);
    assert_eq!((p.epochs_before_current, p.epochs_after_current), (1, 1));
    assert_eq!(p.tags, vec!["a".to_string(), "b".to_string()]);
    assert!(p.filter_signal && !p.clip_signal && p.auto_align_signals);
    assert_eq!(p.signals.len(), 2);
    assert_eq!(p.signals[0].path, std::path::Path::new("sources").join("one.edf").to_string_lossy());
    assert!(!p.signals[0].read_only);
    assert_eq!(p.signals[1].path, "/data/two.edf");
    assert!(p.signals[1].read_only);
    let s = SignalSource::from_config(&signal("x.edf", false));
    assert_ne!(s.path, "x.edf");
}

#[test]
fn migrations_by_version() {
    assert!(get_migrations(DB_VERSION).is_none());
    let m = get_migrations(1).unwrap();
    assert_eq!(m, vec![(2, MIGRATION_V2.to_string())]);
    assert_eq!(get_migrations(0).unwrap().len(), 1);
}

#[test]
fn recent_project_key_is_md5() {
    assert_eq!(recent_project_id("abc"), "900150983CD24FB0D6963F7D28E17F72");
    assert_eq!(recent_project_id(""), "D41D8CD98F00B204E9800998ECF8427E");
}

#[test]
fn collapsible_entries() {
    let mut c = Collapsible::new("Title", "Sub", 7u32, [Some("icon"), None]);
    assert_eq!(c.title(), "Title");
    assert_eq!(c.subtitle(), "Sub");
    assert_eq!(*c.content_data(), 7);
    assert_eq!(c.icon(0).as_deref(), Some("icon"));
    assert!(c.icon(1).is_none());
    assert!(!c.is_expanded());
    c.set_expanded(true);
    assert!(c.is_expanded());
    let data = LicenseData::new("https://example.org", &["A", "B"]);
    assert_eq!(data.license_files, vec!["A".to_string(), "B".to_string()]);
}

#[test]
fn license_catalogue() {
    let groups = load_licenses();
    assert_eq!([groups[0].len(), groups[1].len(), groups[2].len()], [4, 21, 1]);
    assert_eq!(groups[0][0].title(), "lspopt");
    assert_eq!(groups[2][0].subtitle(), "CC BY 4.0 / SIL OFL 1.1");
    assert!(groups.iter().flatten().all(|e| !e.is_expanded() && e.icon(1).as_deref() == Some(LICENSE_ICON)));
}

#[test]
fn scoring_epochs() {
    let mut s = Scorings { epoch_duration: 30, values: std::collections::BTreeMap::new() };
    s.rate(4, Stage::N2);
    s.rate(4, Stage::R);
    s.rate(7, Stage::W);
    assert_eq!(s.values.len(), 2);
    assert_eq!(s.values.get(&4), Some(&Stage::R));
    s.rate(4, Stage::Unset);
    assert_eq!(s.values.get(&4), None);
    assert_eq!(s.values.get(&7), Some(&Stage::W));
    assert_eq!(s.epoch_duration, 30);
}

#[test]
fn editing_a_configuration() {
    let mut c = ProjectConfiguration::new();
    assert!(c.name.is_empty() && c.tags.is_empty() && c.data.is_empty());
    assert!(c.filter_signal && c.clip_signal && c.auto_align_signals);
    c.tags = vec!["a".to_string(), "b".to_string(), "c".to_string()];
    c.remove_tag(1);
    assert_eq!(c.tags, vec!["a".to_string(), "c".to_string()]);
    c.data = vec![signal("one.edf", false), signal("two.edf", false), signal("one.edf", true)];
    c.remove_signal("/data/one.edf");
    assert_eq!(c.data.len(), 2);
    assert_eq!(c.data[0].name, "two.edf");
    assert!(c.data[1].is_reference);
    c.remove_signal("/nowhere.edf");
    assert_eq!(c.data.len(), 2);
}
