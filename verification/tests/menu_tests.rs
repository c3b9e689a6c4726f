use system_tray_linux_aio::config::{MenuConfig, MenuItem};
use system_tray_linux_aio::menu::{render, resolve, MenuAction, MenuRow};

fn spec_with(
    custom: Vec<(&str, &str, bool, bool)>,
    about: bool,
    settings: bool,
    quit: bool,
) -> MenuConfig {
    MenuConfig {
        show_about: about,
        show_settings: settings,
        show_quit: quit,
        custom_items: custom
            .into_iter()
            .map(|(label, action, enabled, separator_after)| MenuItem {
                label: label.to_string(),
                action: action.to_string(),
                enabled,
                separator_after,
            })
            .collect(),
    }
}

fn item(id: i32, label: &str, enabled: bool) -> MenuRow {
    MenuRow::Item { id, label: label.to_string(), enabled }
}

#[test]
fn test_scenario_all_defaults() {
    // No custom entries, all three defaults enabled: 1=About, 2=Settings,
    // 3=Quit, a separator before Quit and none before About.
    let spec = spec_with(vec![], true, true, true);
    let rows = render(&spec);
    assert_eq!(
        rows,
        vec![
            item(1, "About", true),
            item(2, "Settings", true),
            MenuRow::Separator,
            item(3, "Quit", true),
        ]
    );
    assert_eq!(resolve(&spec, 1), Some(MenuAction::About));
    assert_eq!(resolve(&spec, 2), Some(MenuAction::Settings));
    assert_eq!(resolve(&spec, 3), Some(MenuAction::Quit));
    assert_eq!(resolve(&spec, 4), None);
}

#[test]
fn test_scenario_quit_only() {
    // Quit alone must take identifier 1, not 3, and no leading separator.
    let spec = spec_with(vec![], false, false, true);
    let rows = render(&spec);
    assert_eq!(rows, vec![item(1, "Quit", true)]);
    assert_eq!(resolve(&spec, 1), Some(MenuAction::Quit));
    assert_eq!(resolve(&spec, 2), None);
    assert_eq!(resolve(&spec, 3), None);
}

#[test]
fn test_scenario_custom_and_defaults() {
    // Two custom entries, Settings disabled: About and Quit stay adjacent in
    // the identifier space (3 and 4) but a separator is still emitted before
    // Quit because About is enabled.
    let spec = spec_with(
        vec![("Open", "open", true, false), ("Check Updates", "check", true, true)],
        true,
        false,
        true,
    );
    let rows = render(&spec);
    assert_eq!(
        rows,
        vec![
            item(1, "Open", true),
            item(2, "Check Updates", true),
            MenuRow::Separator,
            MenuRow::Separator,
            item(3, "About", true),
            MenuRow::Separator,
            item(4, "Quit", true),
        ]
    );
    assert_eq!(resolve(&spec, 1), Some(MenuAction::Custom("open".to_string())));
    assert_eq!(resolve(&spec, 2), Some(MenuAction::Custom("check".to_string())));
    assert_eq!(resolve(&spec, 3), Some(MenuAction::About));
    assert_eq!(resolve(&spec, 4), Some(MenuAction::Quit));
    assert_eq!(resolve(&spec, 5), None);
}

#[test]
fn test_scenario_stale_identifier() {
    // A configuration change between render and resolve: identifier 3 was
    // Quit under the old spec, but against the new spec it is simply
    // unassigned and resolves to nothing; the new spec's Quit is 1.
    let old_spec = spec_with(vec![], true, true, true);
    let old_rows = render(&old_spec);
    assert_eq!(old_rows[3], item(3, "Quit", true));
    assert_eq!(resolve(&old_spec, 3), Some(MenuAction::Quit));

    let new_spec = spec_with(vec![], false, false, true);
    assert_eq!(resolve(&new_spec, 3), None);
    assert_eq!(resolve(&new_spec, 1), Some(MenuAction::Quit));
}

#[test]
fn test_render_idempotent() {
    let spec = spec_with(
        vec![("One", "one", true, true), ("Two", "two", false, false)],
        true,
        true,
        true,
    );
    let first = render(&spec);
    let second = render(&spec);
    assert_eq!(first, second);
}

#[test]
fn test_render_empty_menu() {
    // No custom entries and every default disabled: a valid, empty menu.
    let spec = spec_with(vec![], false, false, false);
    assert_eq!(render(&spec), vec![]);
    assert_eq!(resolve(&spec, 1), None);
    assert_eq!(resolve(&spec, 0), None);
    assert_eq!(resolve(&spec, -5), None);
}

#[test]
fn test_disabled_custom_entry_keeps_identifier() {
    // A disabled custom entry still owns its identifier and still resolves.
    let spec = spec_with(vec![("Paused", "paused", false, false)], false, false, false);
    let rows = render(&spec);
    assert_eq!(rows, vec![item(1, "Paused", false)]);
    assert_eq!(resolve(&spec, 1), Some(MenuAction::Custom("paused".to_string())));
    assert_eq!(resolve(&spec, 2), None);
}

#[test]
fn test_settings_only() {
    let spec = spec_with(vec![("Open", "open", true, false)], false, true, false);
    let rows = render(&spec);
    assert_eq!(
        rows,
        vec![item(1, "Open", true), MenuRow::Separator, item(2, "Settings", true)]
    );
    assert_eq!(resolve(&spec, 2), Some(MenuAction::Settings));
    assert_eq!(resolve(&spec, 3), None);
}

#[test]
fn test_duplicate_action_tokens_pass_through() {
    // Duplicate tokens are permitted: each identifier still resolves to its
    // own entry's token.
    let spec = spec_with(
        vec![("First", "same", true, false), ("Second", "same", true, false)],
        false,
        false,
        false,
    );
    assert_eq!(resolve(&spec, 1), Some(MenuAction::Custom("same".to_string())));
    assert_eq!(resolve(&spec, 2), Some(MenuAction::Custom("same".to_string())));
}
