use vstd::prelude::*;

verus! {

use vstd::string::StringExecFns;

/// One user-supplied menu entry: a display label, an opaque action token
/// handed back on click, an enabled flag, and whether a separator row is
/// inserted after the entry.
#[derive(Debug, Clone)]
pub struct MenuItem {
    pub label: String,
    pub action: String,
    pub enabled: bool,
    pub separator_after: bool,
}

/// Mathematical model of a `MenuItem`.
pub struct MenuItemView {
    pub label: Seq<char>,
    pub action: Seq<char>,
    pub enabled: bool,
    pub separator_after: bool,
}

impl View for MenuItem {
    type V = MenuItemView;

    open spec fn view(&self) -> MenuItemView {
        MenuItemView {
            label: self.label@,
            action: self.action@,
            enabled: self.enabled,
            separator_after: self.separator_after,
        }
    }
}

/// The immutable input of the menu resolver: the ordered custom entries and
/// the three flags for the optional default entries.
#[derive(Debug, Clone)]
pub struct MenuConfig {
    pub show_about: bool,
    pub show_settings: bool,
    pub show_quit: bool,
    pub custom_items: Vec<MenuItem>,
}

/// Mathematical model of a `MenuConfig`.
pub struct MenuConfigView {
    pub show_about: bool,
    pub show_settings: bool,
    pub show_quit: bool,
    pub custom_items: Seq<MenuItemView>,
}

impl View for MenuConfig {
    type V = MenuConfigView;

    open spec fn view(&self) -> MenuConfigView {
        MenuConfigView {
            show_about: self.show_about,
            show_settings: self.show_settings,
            show_quit: self.show_quit,
            custom_items: self.custom_items@.map_values(|item: MenuItem| item@),
        }
    }
}

impl Default for MenuConfig {
    /// All three default entries enabled, no custom entries.
    fn default() -> (config: MenuConfig)
        ensures
            config.show_about,
            config.show_settings,
            config.show_quit,
            config@.custom_items.len() == 0,
    {
        MenuConfig {
            show_about: true,
            show_settings: true,
            show_quit: true,
            custom_items: Vec::new(),
        }
    }
}

/// The application configuration as the resolver consumes it: already
/// deserialized, with paths held as plain strings.
#[derive(Debug, Clone)]
pub struct AppConfig {
    pub app_name: String,
    pub tooltip: String,
    pub icon_path: String,
    pub dark_icon_path: Option<String>,
    pub start_minimized: bool,
    pub auto_start: bool,
    pub menu_config: MenuConfig,
}

impl Default for AppConfig {
    fn default() -> (config: AppConfig)
        ensures
            config.app_name@ == "System Tray App"@,
            config.tooltip@ == "Click to open menu"@,
            config.icon_path@ == "assets/icons/default.png"@,
            config.dark_icon_path is None,
            config.start_minimized,
            !config.auto_start,
            config.menu_config.show_about,
            config.menu_config.show_settings,
            config.menu_config.show_quit,
            config.menu_config@.custom_items.len() == 0,
    {
        AppConfig {
            app_name: String::from_str("System Tray App"),
            tooltip: String::from_str("Click to open menu"),
            icon_path: String::from_str("assets/icons/default.png"),
            dark_icon_path: None,
            start_minimized: true,
            auto_start: false,
            menu_config: MenuConfig::default(),
        }
    }
}

} // verus!
