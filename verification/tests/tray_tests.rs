use system_tray_linux_aio::aloe_compat::{create_icon_image, Image};
use system_tray_linux_aio::config::AppConfig;
use system_tray_linux_aio::error::TrayError;
use system_tray_linux_aio::stray_impl::create_system_icon_name;
use system_tray_linux_aio::tray::linux_impl::LinuxTrayIcon;
use system_tray_linux_aio::tray::Rectangle;

fn pixel(data: &[u8], x: usize, y: usize) -> [u8; 4] {
    let base = (y * 32 + x) * 4;
    [data[base], data[base + 1], data[base + 2], data[base + 3]]
}

#[test]
fn test_create_icon_image_shape() {
    let img = create_icon_image();
    assert_eq!(img.width(), 32);
    assert_eq!(img.height(), 32);
    assert_eq!(img.data().len(), 4096);
}

#[test]
fn test_create_icon_image_pixels() {
    let img = create_icon_image();
    let data = img.data();
    // Corner: outside the disc, blue background.
    assert_eq!(pixel(data, 0, 0), [52, 152, 219, 255]);
    // Centre of the disc, off the glyph: white.
    assert_eq!(pixel(data, 16, 12), [255, 255, 255, 255]);
    // On the glyph's left stroke: blue again.
    assert_eq!(pixel(data, 15, 15), [52, 152, 219, 255]);
    // Just inside the disc's rim on the horizontal axis: white.
    assert_eq!(pixel(data, 4, 16), [255, 255, 255, 255]);
    // Just outside the rim: blue.
    assert_eq!(pixel(data, 3, 16), [52, 152, 219, 255]);
}

#[test]
fn test_image_new_zeroed() {
    let img = Image::new(3, 2);
    assert_eq!(img.width(), 3);
    assert_eq!(img.height(), 2);
    assert_eq!(img.data().len(), 24);
    assert!(img.data().iter().all(|&b| b == 0));
}

#[test]
fn test_image_from_rgba() {
    let bytes = vec![1, 2, 3, 4];
    let img = Image::from_rgba(bytes.clone(), 1, 1);
    assert_eq!(img.width(), 1);
    assert_eq!(img.height(), 1);
    assert_eq!(img.data(), &bytes);
}

#[test]
fn test_create_system_icon_name() {
    assert_eq!(create_system_icon_name(), "application-x-executable");
}

#[test]
fn test_rectangle_getters() {
    let r = Rectangle::new(5, -7, 32, 24);
    assert_eq!(r.get_x(), 5);
    assert_eq!(r.get_y(), -7);
    assert_eq!(r.get_width(), 32);
    assert_eq!(r.get_height(), 24);
}

#[test]
fn test_linux_tray_icon_accepts_requests() {
    let config = AppConfig::default();
    let tray = LinuxTrayIcon::new(config);
    assert!(tray.is_ok());
    let mut tray = tray.unwrap();
    assert!(tray.set_icon(&[0, 0, 0, 0]).is_ok());
    assert!(tray.set_tooltip("hello").is_ok());
    assert!(tray.show_menu().is_ok());
}

#[test]
fn test_tray_error_variants() {
    let errors = vec![
        TrayError::InitializationError("init".to_string()),
        TrayError::IconLoadError("icon".to_string()),
        TrayError::MenuError("menu".to_string()),
        TrayError::EventError("event".to_string()),
        TrayError::ConfigError("config".to_string()),
    ];
    let mut seen: usize = 0;
    for e in errors {
        match e {
            TrayError::InitializationError(m) => {
                assert_eq!(m, "init");
                seen += 1;
            }
            TrayError::IconLoadError(m) => {
                assert_eq!(m, "icon");
                seen += 1;
            }
            TrayError::MenuError(m) => {
                assert_eq!(m, "menu");
                seen += 1;
            }
            TrayError::EventError(m) => {
                assert_eq!(m, "event");
                seen += 1;
            }
            TrayError::ConfigError(m) => {
                assert_eq!(m, "config");
                seen += 1;
            }
        }
    }
    assert_eq!(seen, 5);
}
