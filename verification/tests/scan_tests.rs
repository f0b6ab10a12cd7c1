use nvenv::paths::{is_hidden, join_path};
use nvenv::scan::{contains_init_file, scan_candidates, EntryInfo, Probe};

fn entry(name: &str, is_dir: bool, lua: Probe, vim: Probe) -> EntryInfo {
    EntryInfo { name: String::from(name), is_dir, lua_probe: lua, vim_probe: vim }
}

#[test]
fn join_path_inserts_one_separator() {
    assert_eq!(join_path("a", "b"), "a/b");
    assert_eq!(join_path("/home/u/.config", "nvim"), "/home/u/.config/nvim");
}

#[test]
fn hidden_names_start_with_a_dot() {
    assert!(is_hidden(".git"));
    assert!(!is_hidden("alt1"));
    assert!(!is_hidden(""));
}

#[test]
fn marker_priority_first_name_wins() {
    // The first recognized name decides alone when any entry by it exists.
    assert!(contains_init_file(Probe::FileFound, Probe::Absent));
    assert!(contains_init_file(Probe::FileFound, Probe::DirFound));
    assert!(!contains_init_file(Probe::DirFound, Probe::FileFound));
    assert!(!contains_init_file(Probe::DirFound, Probe::Absent));
    // Only a wholly absent first name lets the second name decide.
    assert!(contains_init_file(Probe::Absent, Probe::FileFound));
    assert!(!contains_init_file(Probe::Absent, Probe::DirFound));
    assert!(!contains_init_file(Probe::Absent, Probe::Absent));
}

#[test]
fn scan_with_nothing_qualifying_is_empty() {
    let entries = vec![
        entry("plain", true, Probe::Absent, Probe::Absent),
        entry("file.txt", false, Probe::FileFound, Probe::FileFound),
        entry(".hidden", true, Probe::FileFound, Probe::Absent),
        entry("dir_marker_only", true, Probe::DirFound, Probe::DirFound),
    ];
    let cs = scan_candidates("/root/.config", &entries, Probe::Absent, Probe::Absent);
    assert!(cs.is_empty());
}

#[test]
fn base_marker_included_alongside_children() {
    let entries = vec![entry("alt1", true, Probe::FileFound, Probe::Absent)];
    let cs = scan_candidates("/root/.config", &entries, Probe::Absent, Probe::FileFound);
    assert_eq!(cs.len(), 2);
    assert_eq!(cs[0].name, "nvim/alt1");
    assert_eq!(cs[1].name, "nvim");
}

#[test]
fn hidden_child_never_a_candidate() {
    let entries = vec![
        entry(".secret", true, Probe::FileFound, Probe::FileFound),
        entry("ok", true, Probe::FileFound, Probe::Absent),
    ];
    let cs = scan_candidates("/root/.config", &entries, Probe::Absent, Probe::Absent);
    assert_eq!(cs.len(), 1);
    assert_eq!(cs[0].name, "nvim/ok");
}

#[test]
fn non_directory_child_never_a_candidate() {
    let entries = vec![entry("notes", false, Probe::FileFound, Probe::FileFound)];
    let cs = scan_candidates("/root/.config", &entries, Probe::Absent, Probe::Absent);
    assert!(cs.is_empty());
}

#[test]
fn candidate_names_are_relative_to_the_root() {
    let entries = vec![entry("alt1", true, Probe::Absent, Probe::FileFound)];
    let cs = scan_candidates("/home/u/.config", &entries, Probe::FileFound, Probe::Absent);
    assert_eq!(cs[0].name, "nvim/alt1");
    assert_eq!(cs[0].abs_path, "/home/u/.config/nvim/alt1");
    assert_eq!(cs[1].name, "nvim");
    assert_eq!(cs[1].abs_path, "/home/u/.config/nvim");
}

#[test]
fn round_trip_root_joined_with_name_is_the_absolute_path() {
    let root = "/home/u/.config";
    let entries = vec![
        entry("alt1", true, Probe::FileFound, Probe::Absent),
        entry("alt2", true, Probe::Absent, Probe::FileFound),
    ];
    let cs = scan_candidates(root, &entries, Probe::FileFound, Probe::FileFound);
    assert_eq!(cs.len(), 3);
    for c in &cs {
        assert_eq!(join_path(root, &c.name), c.abs_path);
    }
}

#[test]
fn listing_order_is_kept() {
    let entries = vec![
        entry("zeta", true, Probe::FileFound, Probe::Absent),
        entry("alpha", true, Probe::FileFound, Probe::Absent),
        entry("mid", true, Probe::FileFound, Probe::Absent),
    ];
    let cs = scan_candidates("/r", &entries, Probe::Absent, Probe::Absent);
    let names: Vec<&str> = cs.iter().map(|c| c.name.as_str()).collect();
    assert_eq!(names, vec!["nvim/zeta", "nvim/alpha", "nvim/mid"]);
}
