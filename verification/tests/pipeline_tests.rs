use nvenv::launch::launch_plan;
use nvenv::root::{get_system_config_dir_path, RootError};
use nvenv::scan::{scan_candidates, EntryInfo, Probe};
use nvenv::select::{interpret_picker_output, selection_plan, SelectorAction};

fn entry(name: &str, is_dir: bool, lua: Probe, vim: Probe) -> EntryInfo {
    EntryInfo { name: String::from(name), is_dir, lua_probe: lua, vim_probe: vim }
}

#[test]
fn override_variable_wins_even_when_empty() {
    let r = get_system_config_dir_path(Some(String::from("/custom/root")), Some(String::from("/home/u")));
    assert_eq!(r.unwrap(), "/custom/root");
    // Presence alone decides: an empty override is taken verbatim.
    let r = get_system_config_dir_path(Some(String::new()), Some(String::from("/home/u")));
    assert_eq!(r.unwrap(), "");
}

#[test]
fn home_fallback_appends_the_config_directory() {
    let r = get_system_config_dir_path(None, Some(String::from("/home/u")));
    assert_eq!(r.unwrap(), "/home/u/.config");
}

#[test]
fn no_root_at_all_is_a_fatal_configuration_error() {
    let r = get_system_config_dir_path(None, None);
    assert_eq!(r.unwrap_err(), RootError::NoHomeDirectory);
    assert_eq!(
        RootError::NoHomeDirectory.message(),
        "HOME system variable is not defined, cannot proceed"
    );
}

#[test]
fn launch_plan_injects_the_selection_variable_and_forwards_arguments() {
    let args = vec![String::from("--clean"), String::from("file.txt")];
    let p = launch_plan(String::from("nvim/alt2"), args.clone());
    assert_eq!(p.program, "nvim");
    assert_eq!(p.env_var_name, "NVIM_APPNAME");
    assert_eq!(p.env_var_value, "nvim/alt2");
    assert_eq!(p.args, args);
}

#[test]
fn scenario_base_marker_only_short_circuits_to_the_base_name() {
    // The base directory holds a marker file and has no subdirectories.
    let entries: Vec<EntryInfo> = Vec::new();
    let cs = scan_candidates("/home/u/.config", &entries, Probe::FileFound, Probe::Absent);
    let names: Vec<&str> = cs.iter().map(|c| c.name.as_str()).collect();
    assert_eq!(names, vec!["nvim"]);
    let chosen = match selection_plan(&cs) {
        SelectorAction::Chosen(name) => name,
        SelectorAction::RunPicker(_) => panic!("one candidate must not reach the picker"),
    };
    assert_eq!(chosen, "nvim");
    let p = launch_plan(chosen, Vec::new());
    assert_eq!(p.env_var_value, "nvim");
}

#[test]
fn scenario_two_children_picker_decides() {
    // Two qualifying subdirectories, no marker in the base directory itself.
    let entries = vec![
        entry("alt1", true, Probe::FileFound, Probe::Absent),
        entry("alt2", true, Probe::FileFound, Probe::Absent),
    ];
    let cs = scan_candidates("/home/u/.config", &entries, Probe::Absent, Probe::Absent);
    let names: Vec<&str> = cs.iter().map(|c| c.name.as_str()).collect();
    assert_eq!(names, vec!["nvim/alt1", "nvim/alt2"]);
    let input = match selection_plan(&cs) {
        SelectorAction::Chosen(_) => panic!("two candidates must reach the picker"),
        SelectorAction::RunPicker(input) => input,
    };
    assert_eq!(input, "nvim/alt1\nnvim/alt2");
    // The picker echoes the second line back.
    let chosen = interpret_picker_output("nvim/alt2\n").unwrap();
    let p = launch_plan(chosen, Vec::new());
    assert_eq!(p.env_var_value, "nvim/alt2");
}

#[test]
fn scenario_aborted_picker_yields_no_choice() {
    // An empty picker output is the abort signal: no launch may follow.
    assert!(interpret_picker_output("").is_none());
    assert!(interpret_picker_output("   \n").is_none());
}
