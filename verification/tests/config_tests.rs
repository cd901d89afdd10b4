use enki::config::settings::{data_dir, global_config_path, project_config_path, save_dir, Settings};

fn custom() -> Settings {
    let mut s = Settings::defaults();
    s.ollama_url = "http://gpu:11434".to_string();
    s.max_iterations = 5;
    s.bash_deny_patterns = vec!["shutdown".to_string()];
    s
}

#[test]
fn defaults_are_documented_values() {
    let d = Settings::defaults();
    assert_eq!(d.ollama_url, "http://127.0.0.1:11434");
    assert_eq!(d.default_model, "qwen3.5:27b");
    assert_eq!(d.max_iterations, 25);
    assert!(d.auto_approve_reads);
    assert_eq!(d.context_reserve_tokens, 4096);
    assert_eq!(d.bash_timeout_secs, 120);
    assert_eq!(
        d.bash_deny_patterns,
        vec!["rm -rf /", "rm -rf ~", "mkfs", "> /dev/sd", "dd if="]
    );
    let e = Settings::default();
    assert_eq!(e.ollama_url, d.ollama_url);
}

#[test]
fn merge_takes_non_default_values() {
    let mut base = Settings::defaults();
    base.default_model = "llama3".to_string();
    base.merge(custom());
    assert_eq!(base.ollama_url, "http://gpu:11434");
    assert_eq!(base.max_iterations, 5);
    assert_eq!(base.bash_deny_patterns, vec!["shutdown".to_string()]);
    // a default value in the other settings does not override
    assert_eq!(base.default_model, "llama3");
    assert_eq!(base.bash_timeout_secs, 120);
}

#[test]
fn merge_with_defaults_changes_nothing() {
    let mut s = custom();
    s.merge(Settings::defaults());
    assert_eq!(s.ollama_url, "http://gpu:11434");
    assert_eq!(s.max_iterations, 5);
    assert_eq!(s.bash_deny_patterns, vec!["shutdown".to_string()]);
}

#[test]
fn merge_twice_is_merge_once() {
    let mut once = Settings::defaults();
    once.merge(custom());
    let mut twice = Settings::defaults();
    twice.merge(custom());
    twice.merge(custom());
    assert_eq!(once.ollama_url, twice.ollama_url);
    assert_eq!(once.max_iterations, twice.max_iterations);
    assert_eq!(once.bash_deny_patterns, twice.bash_deny_patterns);
}

#[test]
fn project_settings_override_global() {
    let mut global = Settings::defaults();
    global.default_model = "global-model".to_string();
    global.bash_timeout_secs = 30;
    let mut project = Settings::defaults();
    project.default_model = "project-model".to_string();
    let r = Settings::layered(Some(global), Some(project));
    assert_eq!(r.default_model, "project-model");
    assert_eq!(r.bash_timeout_secs, 30);
    let none = Settings::layered(None, None);
    assert_eq!(none.max_iterations, 25);
}

#[test]
fn merge_cannot_restore_a_default() {
    // a value set to the default in a later layer does not reset an earlier one
    let mut project = Settings::defaults();
    project.auto_approve_reads = true;
    let mut global = Settings::defaults();
    global.auto_approve_reads = false;
    let r = Settings::layered(Some(global), Some(project));
    assert!(!r.auto_approve_reads);
}

#[test]
fn configuration_locations() {
    assert_eq!(global_config_path(Some("/home/u/.config")).as_deref(), Some("/home/u/.config/enki/config.toml"));
    assert_eq!(global_config_path(None), None);
    assert_eq!(data_dir(Some("/d")).as_deref(), Some("/d/enki"));
    assert_eq!(project_config_path("/p"), "/p/enki.toml");
    assert_eq!(save_dir(None), ".enki");
    assert_eq!(save_dir(Some("/d/")), "/d/enki");
    assert_eq!(
        enki::agent::conversation::session_file("/d/enki", "abc"),
        "/d/enki/sessions/abc.json"
    );
}
