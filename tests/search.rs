use noctig::search::{contains_str, filter_recent_projects, matches_folded, RecentProject};

fn project(name: &str, path: &str, t: i64) -> RecentProject {
    RecentProject { name: name.to_string(), path: path.to_string(), last_opened: t }
}

#[test]
fn substring_search() {
    assert!(contains_str("night study", "study"));
    assert!(contains_str("abc", ""));
    assert!(!contains_str("abc", "abcd"));
    assert!(!contains_str("abc", "ac"));
    assert!(contains_str("ääb", "äb"));
}

#[test]
fn folded_matching() {
    assert!(matches_folded("sleep", "sleep lab", "/data"));
    assert!(matches_folded("data", "x", "/data/x.ngp"));
    assert!(!matches_folded("sleep", "Sleep lab", "/data"));
}

#[test]
fn filtering_ignores_case_and_keeps_order() {
    let projects = vec![
        project("Sleep Lab", "/home/a/one.ngp", 3),
        project("Cardio", "/home/b/two.ngp", 2),
        project("other", "/SLEEP/three.ngp", 1),
    ];
    assert!(filter_recent_projects(&projects, "").is_none());
    let found = filter_recent_projects(&projects, "sLeEp").unwrap();
    let names: Vec<&str> = found.iter().map(|p| p.name.as_str()).collect();
    assert_eq!(names, vec!["Sleep Lab", "other"]);
    assert_eq!(found[1].last_opened, 1);
    assert!(filter_recent_projects(&projects, "zzz").unwrap().is_empty());
}
