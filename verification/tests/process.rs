use copypasta_ext::osc52::frame;
use copypasta_ext::process::io_message_text;
use copypasta_ext::process::status_message_text;
use copypasta_ext::process::text_bytes;
use copypasta_ext::process::utf8_message_text;
use copypasta_ext::process::ExitStatus;
use copypasta_ext::process::IoFailure;
use copypasta_ext::ClipError;

#[test]
fn exit_code_defaults_to_zero() {
    assert_eq!(ExitStatus { success: false, code: Some(7) }.reported_code(), 7);
    assert_eq!(ExitStatus { success: false, code: None }.reported_code(), 0);
    assert_eq!(ExitStatus { success: true, code: Some(0) }.reported_code(), 0);
    assert_eq!(ExitStatus { success: false, code: Some(-1) }.reported_code(), -1);
}

#[test]
fn text_bytes_are_utf8() {
    assert_eq!(text_bytes(""), Vec::<u8>::new());
    assert_eq!(text_bytes("a\u{7}"), vec![b'a', 7]);
    assert_eq!(text_bytes("\u{20ac}"), vec![0xe2, 0x82, 0xac]);
}

#[test]
fn helper_messages() {
    let failure = IoFailure { not_found: false, message: String::from("Broken pipe") };
    assert_eq!(
        io_message_text("xsel", &failure),
        "Failed to access clipboard using xsel: Broken pipe"
    );
    assert_eq!(
        status_message_text("wl-copy", i32::MIN),
        "Failed to use clipboard, wl-copy exited with status code -2147483648"
    );
    assert_eq!(
        utf8_message_text("invalid utf-8 sequence of 1 bytes from index 0"),
        "Failed to parse clipboard contents as valid UTF-8: invalid utf-8 sequence of 1 bytes from index 0"
    );
    assert_eq!(utf8_message_text(""), "Failed to parse clipboard contents as valid UTF-8: ");
}

#[test]
fn frame_wraps_any_payload() {
    assert_eq!(frame(""), "\u{1b}]52;c;\u{7}");
    assert_eq!(frame("YQ=="), "\u{1b}]52;c;YQ==\u{7}");
}

#[test]
fn library_error_messages_come_from_the_backends() {
    let failure = IoFailure { not_found: false, message: String::from("Broken pipe") };
    assert_eq!(
        ClipError::X11Bin(copypasta_ext::x11_bin::Error::BinaryIo("xclip", failure)).message(),
        "Failed to access clipboard using xclip: Broken pipe"
    );
    assert_eq!(
        ClipError::WaylandBin(copypasta_ext::wayland_bin::Error::NoBinary).message(),
        "Could not find wl-copy or wl-paste binary for clipboard support"
    );
    assert_eq!(
        ClipError::X11Bin(copypasta_ext::x11_bin::Error::BinaryStatus("xsel", 12)).message(),
        "Failed to use clipboard, xsel exited with status code 12"
    );
}
