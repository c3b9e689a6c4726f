use system_tray_linux_aio::config::{AppConfig, MenuConfig};

#[test]
fn test_default_config() {
    let config = AppConfig::default();
    assert_eq!(config.app_name, "System Tray App");
    assert_eq!(config.tooltip, "Click to open menu");
    assert!(config.start_minimized);
    assert!(!config.auto_start);
}

#[test]
fn test_menu_config_default() {
    let menu_config = MenuConfig::default();
    assert!(menu_config.show_about);
    assert!(menu_config.show_settings);
    assert!(menu_config.show_quit);
    assert!(menu_config.custom_items.is_empty());
}

#[test]
fn test_config_creation() {
    let config = AppConfig {
        app_name: "Integration Test App".to_string(),
        tooltip: "Test tooltip".to_string(),
        ..Default::default()
    };

    assert_eq!(config.app_name, "Integration Test App");
    assert_eq!(config.tooltip, "Test tooltip");
    assert!(config.start_minimized);
}

#[test]
fn test_default_icon_path() {
    let config = AppConfig::default();
    assert_eq!(config.icon_path, "assets/icons/default.png");
    assert!(config.dark_icon_path.is_none());
}
