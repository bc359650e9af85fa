use iron_button::args::{join, Args, CONFIG_FILE};
use iron_button::config::{same_text, Action, Bind, Configuration, Run};
use iron_button::registration::{collect_shortcuts, ShortcutRequest};

fn bind(description: Option<&str>, suggest: Option<&str>) -> Bind {
    Bind {
        description: description.map(|s| s.to_string()),
        suggest: suggest.map(|s| s.to_string()),
        on_down: None,
        on_up: None,
    }
}

#[test]
fn insert_replaces_existing_bind() {
    let mut config = Configuration::new();
    config.insert("a".to_string(), bind(Some("first"), None));
    config.insert("b".to_string(), bind(None, None));
    config.insert("a".to_string(), bind(Some("second"), None));
    assert_eq!(config.len(), 2);
    assert_eq!(config.get("a").unwrap().description.as_deref(), Some("second"));
    assert!(config.get("b").is_some());
    assert!(config.get("c").is_none());
}

#[test]
fn entries_are_listed() {
    let mut config = Configuration::new();
    assert_eq!(config.len(), 0);
    config.insert("x".to_string(), bind(None, Some("CTRL+x")));
    let (id, b) = config.entry(0);
    assert_eq!(id, "x");
    assert_eq!(b.suggest.as_deref(), Some("CTRL+x"));
}

#[test]
fn requests_label_defaults_to_identifier() {
    let mut config = Configuration::new();
    config.insert("play".to_string(), bind(None, Some("<Super>p")));
    config.insert("mute".to_string(), bind(Some("Mute audio"), None));
    let mut requests = collect_shortcuts(&config);
    requests.sort_by(|a, b| a.id.cmp(&b.id));
    assert_eq!(
        requests,
        vec![
            ShortcutRequest {
                id: "mute".to_string(),
                label: "Mute audio".to_string(),
                suggest: None,
            },
            ShortcutRequest {
                id: "play".to_string(),
                label: "play".to_string(),
                suggest: Some("<Super>p".to_string()),
            },
        ]
    );
}

#[test]
fn empty_configuration_requests_nothing() {
    assert!(collect_shortcuts(&Configuration::new()).is_empty());
}

#[test]
fn duplicate_copies_action() {
    let a = Action::Run(Run {
        program: "/bin/x".to_string(),
        arguments: Some(vec!["-y".to_string()]),
    });
    assert_eq!(a.duplicate(), a);
}

#[test]
fn same_text_compares_characters() {
    assert!(same_text("abc", "abc"));
    assert!(same_text("", ""));
    assert!(!same_text("abc", "abd"));
    assert!(!same_text("ab", "abc"));
    assert!(same_text("é", "é"));
}

fn args(config: Option<&str>) -> Args {
    Args { verbose: false, show_portal_config: false, config: config.map(|s| s.to_string()) }
}

#[test]
fn override_path_wins() {
    let a = args(Some("/etc/keys.yml"));
    assert_eq!(a.config_path(Some("/home/u/.config".to_string())), Some("/etc/keys.yml".to_string()));
    assert_eq!(a.config_path(None), Some("/etc/keys.yml".to_string()));
}

#[test]
fn default_path_is_in_config_directory() {
    let a = args(None);
    assert_eq!(CONFIG_FILE, "iron-button/config.yml");
    assert_eq!(
        a.config_path(Some("/home/u/.config".to_string())),
        Some("/home/u/.config/iron-button/config.yml".to_string())
    );
    assert_eq!(
        a.config_path(Some("/home/u/.config/".to_string())),
        Some("/home/u/.config/iron-button/config.yml".to_string())
    );
    assert_eq!(a.config_path(None), None);
}

#[test]
fn join_adds_separator_only_where_needed() {
    assert_eq!(join("a".to_string(), "b"), "a/b");
    assert_eq!(join("a/".to_string(), "b"), "a/b");
    assert_eq!(join(String::new(), "b"), "b");
}
