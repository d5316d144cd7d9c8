use maypaper::display::{DisplayAction, DisplayRegistry};
use maypaper::event::{ReleaseServer, SetWebview, UiCmd, UiEvent};

fn registry(connectors: &[&str]) -> DisplayRegistry {
    DisplayRegistry::new(connectors.iter().map(|c| c.to_string()).collect())
}

fn show(url: &str, path: Option<&str>, connector: Option<&str>) -> UiCmd {
    UiCmd::SetWebview(SetWebview {
        url: url.to_string(),
        path: path.map(|p| p.to_string()),
        connector: connector.map(|c| c.to_string()),
    })
}

fn describe(actions: &[DisplayAction]) -> Vec<String> {
    actions
        .iter()
        .map(|a| match a {
            DisplayAction::Notify(UiEvent::ReleaseServer(ReleaseServer { path })) => format!("release {path}"),
            DisplayAction::Load { instance, url } => format!("load {instance} {url}"),
        })
        .collect()
}

fn paths(registry: &DisplayRegistry) -> Vec<Option<String>> {
    (0..registry.len()).map(|i| registry.wallpaper_path(i)).collect()
}

#[test]
fn new_displays_show_no_served_path() {
    let registry = registry(&["DP-1", "HDMI-A-1", ""]);
    assert_eq!(registry.len(), 3);
    assert_eq!(registry.connector(0), "DP-1");
    assert_eq!(registry.connector(1), "HDMI-A-1");
    assert_eq!(registry.connector(2), "");
    assert_eq!(paths(&registry), vec![None, None, None]);
    assert_eq!(DisplayRegistry::new(Vec::new()).len(), 0);
}

#[test]
fn a_command_without_connector_is_for_every_display() {
    let mut registry = registry(&["DP-1", "DP-2"]);
    let actions = registry.apply(show("http://127.0.0.1:1/", Some("/a"), None));
    assert_eq!(describe(&actions), vec!["load 0 http://127.0.0.1:1/", "load 1 http://127.0.0.1:1/"]);
    assert_eq!(paths(&registry), vec![Some("/a".to_string()), Some("/a".to_string())]);
}

#[test]
fn switching_from_one_path_to_another_releases_the_old_one_once() {
    let mut registry = registry(&["DP-1"]);
    registry.apply(show("http://127.0.0.1:1/", Some("/a"), None));
    let actions = registry.apply(show("http://127.0.0.1:2/", Some("/b"), None));
    assert_eq!(describe(&actions), vec!["release /a", "load 0 http://127.0.0.1:2/"]);
    assert_eq!(paths(&registry), vec![Some("/b".to_string())]);
    let releases = actions.iter().filter(|a| matches!(a, DisplayAction::Notify(_))).count();
    assert_eq!(releases, 1);
}

#[test]
fn the_same_path_again_releases_nothing() {
    let mut registry = registry(&["DP-1", "DP-2"]);
    registry.apply(show("http://127.0.0.1:1/", Some("/a"), None));
    let actions = registry.apply(show("http://127.0.0.1:1/", Some("/a"), None));
    assert_eq!(describe(&actions), vec!["load 0 http://127.0.0.1:1/", "load 1 http://127.0.0.1:1/"]);
    assert_eq!(paths(&registry), vec![Some("/a".to_string()), Some("/a".to_string())]);
}

#[test]
fn a_remote_address_releases_the_served_path() {
    let mut registry = registry(&["DP-1", "DP-2"]);
    registry.apply(show("http://127.0.0.1:1/", Some("/a"), None));
    let actions = registry.apply(show("https://example.org/", None, None));
    assert_eq!(
        describe(&actions),
        vec!["release /a", "load 0 https://example.org/", "release /a", "load 1 https://example.org/"]
    );
    assert_eq!(paths(&registry), vec![None, None]);
    let actions = registry.apply(show("https://example.com/", None, None));
    assert_eq!(describe(&actions), vec!["load 0 https://example.com/", "load 1 https://example.com/"]);
}

#[test]
fn a_command_with_connector_is_for_the_display_of_that_name() {
    let mut registry = registry(&["DP-1", "DP-2", "DP-3"]);
    registry.apply(show("http://127.0.0.1:1/", Some("/a"), None));
    let actions = registry.apply(show("http://127.0.0.1:2/", Some("/b"), Some("DP-2")));
    assert_eq!(describe(&actions), vec!["release /a", "load 1 http://127.0.0.1:2/"]);
    assert_eq!(
        paths(&registry),
        vec![Some("/a".to_string()), Some("/b".to_string()), Some("/a".to_string())]
    );
}

#[test]
fn a_command_for_an_unknown_connector_does_nothing() {
    let mut registry = registry(&["DP-1", "DP-2"]);
    registry.apply(show("http://127.0.0.1:1/", Some("/a"), None));
    let actions = registry.apply(show("http://127.0.0.1:2/", Some("/b"), Some("DP-9")));
    assert!(actions.is_empty());
    assert_eq!(paths(&registry), vec![Some("/a".to_string()), Some("/a".to_string())]);
    let actions = registry.apply(show("http://127.0.0.1:2/", Some("/b"), Some("dp-1")));
    assert!(actions.is_empty());
}

#[test]
fn displays_of_one_name_are_all_addressed() {
    let mut registry = registry(&["", "DP-1", ""]);
    let actions = registry.apply(show("u", Some("/a"), Some("")));
    assert_eq!(describe(&actions), vec!["load 0 u", "load 2 u"]);
    assert_eq!(paths(&registry), vec![Some("/a".to_string()), None, Some("/a".to_string())]);
}

#[test]
fn each_display_releases_what_it_showed() {
    let mut registry = registry(&["DP-1", "DP-2", "DP-3"]);
    registry.apply(show("ua", Some("/a"), Some("DP-1")));
    registry.apply(show("ub", Some("/b"), Some("DP-2")));
    let actions = registry.apply(show("ub", Some("/b"), None));
    assert_eq!(describe(&actions), vec!["release /a", "load 0 ub", "load 1 ub", "load 2 ub"]);
    assert_eq!(
        paths(&registry),
        vec![Some("/b".to_string()), Some("/b".to_string()), Some("/b".to_string())]
    );
}

#[test]
fn an_empty_registry_asks_for_nothing() {
    let mut registry = registry(&[]);
    assert!(registry.apply(show("u", Some("/a"), None)).is_empty());
}
