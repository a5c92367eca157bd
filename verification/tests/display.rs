use copypasta_ext::display::is_tty;
use copypasta_ext::display::Backend;
use copypasta_ext::ClipError;
use copypasta_ext::ClipboardContext;
use copypasta_ext::Config;
use copypasta_ext::display::is_wayland;
use copypasta_ext::display::is_x11;
use copypasta_ext::display::DisplayServer;
use copypasta_ext::display::Environment;
use copypasta_ext::display::Platform;

fn unix(session: Option<&str>, wayland: Option<&str>, display: Option<&str>) -> Environment {
    Environment {
        platform: Platform::Unix,
        session_type: session.map(String::from),
        wayland_display: wayland.map(String::from),
        display: display.map(String::from),
    }
}

#[test]
fn explicit_x11_wins_over_wayland_display() {
    let env = unix(Some("x11"), Some("wayland-0"), None);
    assert_eq!(DisplayServer::select(&env), DisplayServer::X11);
    assert!(is_x11(&env));
    assert!(!is_wayland(&env));
}

#[test]
fn explicit_wayland_wins_over_display() {
    let env = unix(Some("wayland"), None, Some(":0"));
    assert_eq!(DisplayServer::select(&env), DisplayServer::Wayland);
    assert!(is_wayland(&env));
    assert!(!is_x11(&env));
}

#[test]
fn explicit_tty_wins_over_display_variables() {
    let env = unix(Some("tty"), Some("wayland-0"), Some(":0"));
    assert_eq!(DisplayServer::select(&env), DisplayServer::Tty);
    assert!(is_tty(&env));
    assert!(!is_x11(&env));
    assert!(!is_wayland(&env));
}

#[test]
fn silent_session_type_falls_back_to_presence() {
    assert_eq!(DisplayServer::select(&unix(None, Some("wayland-0"), Some(":0"))), DisplayServer::Wayland);
    assert_eq!(DisplayServer::select(&unix(None, None, Some(":0"))), DisplayServer::X11);
    assert_eq!(DisplayServer::select(&unix(Some("mir"), Some("wayland-1"), None)), DisplayServer::Wayland);
    assert!(is_x11(&unix(Some("mir"), None, Some(":1"))));
}

#[test]
fn empty_variables_do_not_count() {
    let env = unix(None, Some(""), Some(""));
    assert!(!is_wayland(&env));
    assert!(!is_x11(&env));
    assert!(!is_tty(&env));
    assert_eq!(DisplayServer::select(&env), DisplayServer::X11);
}

#[test]
fn nothing_set_defaults_to_x11() {
    assert_eq!(DisplayServer::select(&unix(None, None, None)), DisplayServer::X11);
}

#[test]
fn session_type_is_compared_exactly() {
    let env = unix(Some("X11"), Some("wayland-0"), None);
    assert_eq!(DisplayServer::select(&env), DisplayServer::Wayland);
    let env = unix(Some("tty "), None, None);
    assert!(!is_tty(&env));
}

#[test]
fn platform_decides_on_macos_and_windows() {
    let mut env = unix(Some("wayland"), Some("wayland-0"), Some(":0"));
    env.platform = Platform::MacOs;
    assert_eq!(DisplayServer::select(&env), DisplayServer::MacOs);
    env.platform = Platform::Windows;
    assert_eq!(DisplayServer::select(&env), DisplayServer::Windows);
    assert!(!is_x11(&env));
    assert!(!is_wayland(&env));
}

#[test]
fn x11_prefers_fork_when_native_connects() {
    let config = Config::default();
    let made = DisplayServer::X11.try_context(Ok(()), &config);
    assert!(matches!(made, Some(ClipboardContext::X11Fork(_))));
}

#[test]
fn x11_falls_back_to_helpers_without_native() {
    let config = Config::default();
    let made = DisplayServer::X11.try_context(Err(String::from("no display")), &config);
    assert!(matches!(made, Some(ClipboardContext::X11Bin(_))));
}

#[test]
fn wayland_never_falls_back_to_x11() {
    let config = Config {
        xclip_path: Some(String::from("/usr/bin/xclip")),
        xsel_path: None,
        wl_copy_path: None,
        wl_paste_path: Some(String::from("/opt/wl-paste")),
    };
    let made = DisplayServer::Wayland.try_context(Ok(()), &config);
    let expected = copypasta_ext::wayland_bin::WaylandBinClipboardContext(
        copypasta_ext::wayland_bin::ClipboardType::WlClipboard(None, Some(String::from("/opt/wl-paste"))),
    );
    assert_eq!(made, Some(ClipboardContext::WaylandBin(expected)));
    for backend in DisplayServer::Wayland.backends() {
        assert_eq!(backend, Backend::WaylandBin);
    }
}

#[test]
fn native_platforms_give_native_or_nothing() {
    let config = Config::default();
    for server in [DisplayServer::MacOs, DisplayServer::Windows] {
        let made = server.try_context(Ok(()), &config);
        assert_eq!(
            made,
            Some(ClipboardContext::Native(
                copypasta_ext::native::NativeClipboardContext
            ))
        );
        assert_eq!(server.try_context(Err(String::from("denied")), &config), None);
    }
}

#[test]
fn tty_gives_escape_sequence_backend() {
    let config = Config::default();
    let made = DisplayServer::Tty.try_context(Err(String::from("unused")), &config);
    assert_eq!(
        made,
        Some(ClipboardContext::Osc52(copypasta_ext::osc52::Osc52ClipboardContext))
    );
}

#[test]
fn candidate_lists_are_in_priority_order() {
    assert_eq!(DisplayServer::X11.backends(), vec![Backend::X11Fork, Backend::X11Bin]);
    assert_eq!(DisplayServer::Wayland.backends(), vec![Backend::WaylandBin]);
    assert_eq!(DisplayServer::MacOs.backends(), vec![Backend::Native]);
    assert_eq!(DisplayServer::Windows.backends(), vec![Backend::Native]);
    assert_eq!(DisplayServer::Tty.backends(), vec![Backend::Osc52]);
    assert!(DisplayServer::X11.wants_native());
    assert!(!DisplayServer::Wayland.wants_native());
    assert!(DisplayServer::MacOs.wants_native());
    assert!(DisplayServer::Windows.wants_native());
    assert!(!DisplayServer::Tty.wants_native());
}

#[test]
fn try_context_detects_then_selects() {
    let config = Config::default();
    let env = unix(Some("tty"), None, Some(":0"));
    let made = copypasta_ext::try_context(&env, Ok(()), &config);
    assert!(matches!(made, Some(ClipboardContext::Osc52(_))));
    let env = unix(Some("x11"), Some("wayland-0"), None);
    let made = copypasta_ext::try_context(&env, Ok(()), &config);
    assert_eq!(made.map(|c| c.kind()), Some(Backend::X11Fork));
    let mut env = unix(None, None, None);
    env.platform = Platform::Windows;
    assert_eq!(copypasta_ext::try_context(&env, Err(String::from("x")), &config), None);
}

#[test]
fn build_fails_only_for_native_backends_without_connection() {
    let config = Config::default();
    let broken: Result<(), String> = Err(String::from("cannot open display"));
    assert_eq!(
        ClipboardContext::build(Backend::X11Fork, &broken, &config),
        Err(ClipError::Native(String::from("cannot open display")))
    );
    assert_eq!(
        ClipboardContext::build(Backend::Native, &broken, &config),
        Err(ClipError::Native(String::from("cannot open display")))
    );
    assert!(ClipboardContext::build(Backend::X11Bin, &broken, &config).is_ok());
    assert!(ClipboardContext::build(Backend::WaylandBin, &broken, &config).is_ok());
    assert!(ClipboardContext::build(Backend::Osc52, &broken, &config).is_ok());
    assert!(ClipboardContext::build(Backend::X11Fork, &Ok(()), &config).is_ok());
}
