use copypasta_ext::prelude::ClipboardProvider;
use copypasta_ext::process::ExitStatus;
use copypasta_ext::process::FeedOutcome;
use copypasta_ext::process::Invocation;
use copypasta_ext::process::IoFailure;
use copypasta_ext::process::Output;
use copypasta_ext::provider::Request;
use copypasta_ext::x11_bin::sys_cmd_get;
use copypasta_ext::x11_bin::sys_cmd_set;
use copypasta_ext::x11_bin::ClipboardType;
use copypasta_ext::x11_bin::Error;
use copypasta_ext::x11_bin::X11BinClipboardContext;
use copypasta_ext::ClipError;
use copypasta_ext::Config;

fn missing() -> IoFailure {
    IoFailure { not_found: true, message: String::from("No such file or directory (os error 2)") }
}

fn denied() -> IoFailure {
    IoFailure { not_found: false, message: String::from("Permission denied (os error 13)") }
}

fn ended(success: bool, code: Option<i32>) -> ExitStatus {
    ExitStatus { success, code }
}

fn printed(bytes: &[u8]) -> Result<Output, IoFailure> {
    Ok(Output { status: ended(true, Some(0)), stdout: bytes.to_vec() })
}

#[test]
fn x11_get_decodes_captured_output() {
    assert_eq!(sys_cmd_get("xclip", printed(b"hello")), Ok(String::from("hello")));
    assert_eq!(sys_cmd_get("xsel", printed(b"")), Ok(String::new()));
    assert_eq!(
        sys_cmd_get("xclip", printed("gr\u{fc}n \u{1f600}".as_bytes())),
        Ok(String::from("gr\u{fc}n \u{1f600}"))
    );
    assert_eq!(sys_cmd_get("xclip", printed(b"a\x07b")), Ok(String::from("a\u{7}b")));
}

#[test]
fn x11_get_missing_binary_is_no_binary() {
    assert_eq!(sys_cmd_get("xclip", Err(missing())), Err(Error::NoBinary));
}

#[test]
fn x11_get_other_spawn_error_is_binary_io() {
    assert_eq!(sys_cmd_get("xsel", Err(denied())), Err(Error::BinaryIo("xsel", denied())));
}

#[test]
fn x11_get_failure_status_wins_over_output() {
    let output = Output { status: ended(false, Some(1)), stdout: b"captured".to_vec() };
    assert_eq!(sys_cmd_get("xclip", Ok(output)), Err(Error::BinaryStatus("xclip", 1)));
    let killed = Output { status: ended(false, None), stdout: Vec::new() };
    assert_eq!(sys_cmd_get("xclip", Ok(killed)), Err(Error::BinaryStatus("xclip", 0)));
    let broken = Output { status: ended(false, Some(4)), stdout: vec![0xff] };
    assert_eq!(sys_cmd_get("xsel", Ok(broken)), Err(Error::BinaryStatus("xsel", 4)));
}

#[test]
fn x11_get_invalid_utf8_is_no_utf8() {
    let expected = String::from_utf8(vec![b'a', 0xff, b'b']).unwrap_err();
    assert_eq!(sys_cmd_get("xclip", printed(&[b'a', 0xff, b'b'])), Err(Error::NoUtf8(expected)));
    assert!(matches!(sys_cmd_get("xclip", printed(&[0xc0, 0x80])), Err(Error::NoUtf8(_))));
    assert!(matches!(sys_cmd_get("xclip", printed(&[0xed, 0xa0, 0x80])), Err(Error::NoUtf8(_))));
    assert!(matches!(sys_cmd_get("xclip", printed(&[0xe2, 0x82])), Err(Error::NoUtf8(_))));
}

#[test]
fn x11_set_outcomes() {
    assert_eq!(sys_cmd_set("xclip", FeedOutcome::Exited(ended(true, Some(0)))), Ok(()));
    assert_eq!(sys_cmd_set("xclip", FeedOutcome::SpawnFailed(missing())), Err(Error::NoBinary));
    assert_eq!(
        sys_cmd_set("xclip", FeedOutcome::SpawnFailed(denied())),
        Err(Error::BinaryIo("xclip", denied()))
    );
    assert_eq!(
        sys_cmd_set("xsel", FeedOutcome::WriteFailed(missing())),
        Err(Error::BinaryIo("xsel", missing()))
    );
    assert_eq!(
        sys_cmd_set("xsel", FeedOutcome::WaitFailed(denied())),
        Err(Error::BinaryIo("xsel", denied()))
    );
    assert_eq!(
        sys_cmd_set("xclip", FeedOutcome::Exited(ended(false, Some(2)))),
        Err(Error::BinaryStatus("xclip", 2))
    );
    assert_eq!(
        sys_cmd_set("xclip", FeedOutcome::Exited(ended(false, None))),
        Err(Error::BinaryStatus("xclip", 0))
    );
}

#[test]
fn x11_resolve_follows_priority() {
    let none = Config::default();
    assert_eq!(ClipboardType::resolve(&none, true, true), ClipboardType::Xclip(None));
    assert_eq!(ClipboardType::resolve(&none, true, false), ClipboardType::Xclip(None));
    assert_eq!(ClipboardType::resolve(&none, false, true), ClipboardType::Xsel(None));
    assert_eq!(ClipboardType::resolve(&none, false, false), ClipboardType::Xclip(None));

    let both = Config {
        xclip_path: Some(String::from("/a/xclip")),
        xsel_path: Some(String::from("/b/xsel")),
        wl_copy_path: None,
        wl_paste_path: None,
    };
    assert_eq!(
        ClipboardType::resolve(&both, false, true),
        ClipboardType::Xclip(Some(String::from("/a/xclip")))
    );
    let xsel_only = Config { xclip_path: None, ..both.clone() };
    assert_eq!(
        ClipboardType::resolve(&xsel_only, true, true),
        ClipboardType::Xsel(Some(String::from("/b/xsel")))
    );
    let blank_xclip = Config { xclip_path: Some(String::from("  ")), ..both.clone() };
    assert_eq!(
        ClipboardType::resolve(&blank_xclip, true, true),
        ClipboardType::Xsel(Some(String::from("/b/xsel")))
    );
    let all_blank = Config {
        xclip_path: Some(String::new()),
        xsel_path: Some(String::from("\t")),
        wl_copy_path: None,
        wl_paste_path: None,
    };
    assert_eq!(ClipboardType::resolve(&all_blank, false, true), ClipboardType::Xsel(None));
}

#[test]
fn x11_select_uses_configured_path_without_lookup() {
    let config = Config {
        xclip_path: None,
        xsel_path: Some(String::from("/nowhere/xsel")),
        wl_copy_path: None,
        wl_paste_path: None,
    };
    assert_eq!(ClipboardType::select(&config), ClipboardType::Xsel(Some(String::from("/nowhere/xsel"))));
}

#[test]
fn x11_select_agrees_with_lookup_on_path() {
    let config = Config::default();
    let xclip = which::which("xclip").is_ok();
    let xsel = which::which("xsel").is_ok();
    assert_eq!(ClipboardType::select(&config), ClipboardType::resolve(&config, xclip, xsel));
}

#[test]
fn x11_commands() {
    let xclip = ClipboardType::Xclip(None);
    assert_eq!(
        xclip.get_command(),
        Invocation { program: String::from("xclip"), args: vec!["-sel", "clip", "-out"] }
    );
    assert_eq!(
        xclip.set_command(),
        Invocation { program: String::from("xclip"), args: vec!["-sel", "clip"] }
    );
    let xsel = ClipboardType::Xsel(Some(String::from("/opt/bin/xsel")));
    assert_eq!(
        xsel.get_command(),
        Invocation { program: String::from("/opt/bin/xsel"), args: vec!["--clipboard", "--output"] }
    );
    assert_eq!(
        xsel.set_command(),
        Invocation { program: String::from("/opt/bin/xsel"), args: vec!["--clipboard"] }
    );
    assert_eq!(xclip.bin(), "xclip");
    assert_eq!(xsel.bin(), "xsel");
    assert_eq!(ClipboardType::Xsel(None).command_program(), "xsel");
    assert_eq!(ClipboardType::Xclip(Some(String::from("./x"))).command_program(), "./x");
}

#[test]
fn x11_type_reports_its_own_helper() {
    let xsel = ClipboardType::Xsel(Some(String::from("/opt/bin/xsel")));
    assert_eq!(xsel.get(Err(denied())), Err(Error::BinaryIo("xsel", denied())));
    assert_eq!(
        xsel.set(FeedOutcome::Exited(ended(false, Some(3)))),
        Err(Error::BinaryStatus("xsel", 3))
    );
    let xclip = ClipboardType::Xclip(None);
    assert_eq!(xclip.get(printed(b"text")), Ok(String::from("text")));
    assert_eq!(xclip.set(FeedOutcome::WriteFailed(denied())), Err(Error::BinaryIo("xclip", denied())));
}

#[test]
fn x11_context_requests_and_results() {
    let context = X11BinClipboardContext(ClipboardType::Xclip(None));
    assert_eq!(
        context.get_request(),
        Request::Capture(Invocation { program: String::from("xclip"), args: vec!["-sel", "clip", "-out"] })
    );
    assert_eq!(
        context.set_request(String::from("h\u{e9}")),
        Request::Feed(
            Invocation { program: String::from("xclip"), args: vec!["-sel", "clip"] },
            vec![b'h', 0xc3, 0xa9]
        )
    );
    assert_eq!(context.get_contents(Err(missing())), Err(ClipError::X11Bin(Error::NoBinary)));
    assert_eq!(context.get_contents(printed(b"ok")), Ok(String::from("ok")));
    assert_eq!(context.set_contents(FeedOutcome::SpawnFailed(missing())), Err(ClipError::X11Bin(Error::NoBinary)));
    assert_eq!(context.set_contents(FeedOutcome::Exited(ended(true, Some(0)))), Ok(()));
    assert_eq!(context.display_server(), Some(copypasta_ext::display::DisplayServer::X11));
    assert!(!context.has_bin_lifetime());
}

#[test]
fn x11_round_trip_through_helper_bytes() {
    let context = X11BinClipboardContext(ClipboardType::Xsel(None));
    for text in ["", "plain", "bell \u{7} inside", "\u{1b}]52;c;", "multi\nline", "\u{1f980} crab"] {
        let fed = match context.set_request(String::from(text)) {
            Request::Feed(_, bytes) => bytes,
            other => panic!("unexpected request {:?}", other),
        };
        let back = Ok(Output { status: ended(true, Some(0)), stdout: fed });
        assert_eq!(context.get_contents(back), Ok(String::from(text)));
    }
}

#[test]
fn x11_new_never_fails() {
    let made = X11BinClipboardContext::new(&Config::default()).unwrap();
    assert!(made.0 == ClipboardType::Xclip(None) || made.0 == ClipboardType::Xsel(None));
    let config = Config {
        xclip_path: Some(String::from("/x/xclip")),
        xsel_path: None,
        wl_copy_path: None,
        wl_paste_path: None,
    };
    assert_eq!(
        X11BinClipboardContext::new(&config),
        Ok(X11BinClipboardContext(ClipboardType::Xclip(Some(String::from("/x/xclip")))))
    );
}

#[test]
fn x11_combined_with_native() {
    let config = Config {
        xclip_path: Some(String::from("/x/xclip")),
        xsel_path: None,
        wl_copy_path: None,
        wl_paste_path: None,
    };
    let combined = X11BinClipboardContext::new_with_x11(&config, Ok(())).unwrap();
    assert_eq!(combined.get_request(), Request::NativeGet);
    assert!(matches!(combined.set_request(String::from("a")), Request::Feed(_, _)));
    assert_eq!(
        X11BinClipboardContext::new_with_x11(&config, Err(String::from("no display"))),
        Err(ClipError::Native(String::from("no display")))
    );
    let bin = X11BinClipboardContext(ClipboardType::Xsel(None));
    assert_eq!(
        bin.clone().with_x11(Err(String::from("closed"))),
        Err(ClipError::Native(String::from("closed")))
    );
    let made = bin.clone().with_x11(Ok(())).unwrap();
    assert_eq!(made.1, bin);
}

#[test]
fn x11_error_messages() {
    assert_eq!(Error::NoBinary.message(), "Could not find xclip or xsel binary for clipboard support");
    assert_eq!(
        Error::BinaryIo("xclip", denied()).message(),
        "Failed to access clipboard using xclip: Permission denied (os error 13)"
    );
    assert_eq!(
        Error::BinaryStatus("xsel", -3).message(),
        "Failed to use clipboard, xsel exited with status code -3"
    );
    let error = String::from_utf8(vec![0xff]).unwrap_err();
    let expected = format!("Failed to parse clipboard contents as valid UTF-8: {}", error);
    assert_eq!(Error::NoUtf8(error).message(), expected);
}

#[test]
fn x11_error_sources() {
    assert_eq!(Error::NoBinary.source(), None);
    assert_eq!(Error::BinaryStatus("xclip", 1).source(), None);
    assert_eq!(
        Error::BinaryIo("xclip", denied()).source(),
        Some(String::from("Permission denied (os error 13)"))
    );
    let error = String::from_utf8(vec![0xff]).unwrap_err();
    let expected = error.to_string();
    assert_eq!(Error::NoUtf8(error).source(), Some(expected));
}
