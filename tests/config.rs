use flakeshot::cli::LogLevel;
use flakeshot::config::{Clipboard, Config, Wayland, X11};

#[test]
fn default_config_uses_xclip_and_wl_copy() {
    let config = Config::default();
    assert_eq!(config.x11.clipboard.cmd(), "xclip");
    assert_eq!(
        config.x11.clipboard.args(),
        &["-selection", "clipboard", "-target", "image/png"].map(String::from)[..]
    );
    assert_eq!(config.wayland.clipboard.cmd(), "wl-copy");
    assert!(config.wayland.clipboard.args().is_empty());
    assert_eq!(X11::default().clipboard.cmd, "xclip");
    assert_eq!(Wayland::default().clipboard.cmd, "wl-copy");
}

#[test]
fn clipboard_keeps_command_and_arguments() {
    let c = Clipboard::new("xsel", &["-b", "-i"]);
    assert_eq!(c.cmd(), "xsel");
    assert_eq!(c.args(), &[String::from("-b"), String::from("-i")][..]);
}

#[test]
fn clipboard_without_command_is_refused() {
    assert!(Clipboard::from_parts(String::new(), vec![String::from("-x")]).is_none());
    let c = Clipboard::from_parts(String::from("wl-copy"), vec![]).unwrap();
    assert_eq!(c.cmd(), "wl-copy");
    assert!(c.args().is_empty());
}

#[test]
fn log_levels_are_ordered_by_verbosity() {
    assert!(LogLevel::Error < LogLevel::Warn);
    assert!(LogLevel::Warn < LogLevel::Info);
    assert!(LogLevel::Debug < LogLevel::Trace);
    assert!(LogLevel::Trace < LogLevel::Off);
}
