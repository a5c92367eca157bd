use copypasta_ext::native::NativeClipboardContext;
use copypasta_ext::osc52::Error;
use copypasta_ext::osc52::Osc52ClipboardContext;
use copypasta_ext::prelude::ClipboardProvider;
use copypasta_ext::provider::Request;
use copypasta_ext::ClipError;
use copypasta_ext::CombinedClipboardContext;

#[test]
fn osc52_get_is_never_supported() {
    let context = Osc52ClipboardContext::new().unwrap();
    assert_eq!(context.get_request(), Request::Nothing);
    assert_eq!(context.get_contents(()), Err(ClipError::Osc52(Error::Unsupported)));
    context.set_contents(()).unwrap();
    assert_eq!(context.get_contents(()), Err(ClipError::Osc52(Error::Unsupported)));
}

#[test]
fn osc52_sequence_frames_base64() {
    assert_eq!(Osc52ClipboardContext::sequence("hello"), "\u{1b}]52;c;aGVsbG8=\u{7}");
    assert_eq!(Osc52ClipboardContext::sequence(""), "\u{1b}]52;c;\u{7}");
    assert_eq!(Osc52ClipboardContext::sequence("a"), "\u{1b}]52;c;YQ==\u{7}");
    assert_eq!(Osc52ClipboardContext::sequence("ab"), "\u{1b}]52;c;YWI=\u{7}");
    assert_eq!(Osc52ClipboardContext::sequence("abc"), "\u{1b}]52;c;YWJj\u{7}");
    assert_eq!(Osc52ClipboardContext::sequence("some string"), "\u{1b}]52;c;c29tZSBzdHJpbmc=\u{7}");
    assert_eq!(Osc52ClipboardContext::sequence("\u{fb}\u{ff}"), "\u{1b}]52;c;w7vDvw==\u{7}");
}

#[test]
fn osc52_sequence_length() {
    for (text, bytes) in [("", 0usize), ("a", 1), ("ab", 2), ("abc", 3), ("abcd", 4), ("\u{20ac}", 3), ("\u{1f600}!", 5)] {
        assert_eq!(text.len(), bytes);
        let sequence = Osc52ClipboardContext::sequence(text);
        assert_eq!(sequence.chars().count(), 8 + (bytes + 2) / 3 * 4);
    }
}

#[test]
fn osc52_bell_in_contents_keeps_the_frame() {
    for text in ["\u{7}", "a\u{7}b\u{7}", "\u{1b}]52;c;evil\u{7}", "\u{1b}\u{1b}"] {
        let sequence = Osc52ClipboardContext::sequence(text);
        let chars: Vec<char> = sequence.chars().collect();
        assert_eq!(chars[0], '\u{1b}');
        assert_eq!(chars[chars.len() - 1], '\u{7}');
        assert_eq!(chars.iter().filter(|c| **c == '\u{7}').count(), 1);
        assert_eq!(chars.iter().filter(|c| **c == '\u{1b}').count(), 1);
    }
    assert_eq!(Osc52ClipboardContext::sequence("\u{7}"), "\u{1b}]52;c;Bw==\u{7}");
}

#[test]
fn osc52_set_emits_the_sequence() {
    let context = Osc52ClipboardContext;
    assert_eq!(
        context.set_request(String::from("hi")),
        Request::Emit(String::from("\u{1b}]52;c;aGk=\u{7}"))
    );
    assert_eq!(context.set_contents(()), Ok(()));
}

#[test]
fn osc52_constructors() {
    assert_eq!(Osc52ClipboardContext::new(), Ok(Osc52ClipboardContext));
    assert_eq!(
        Osc52ClipboardContext::new_with(NativeClipboardContext),
        Ok(CombinedClipboardContext(NativeClipboardContext, Osc52ClipboardContext))
    );
    assert_eq!(
        Osc52ClipboardContext.with(NativeClipboardContext),
        Ok(CombinedClipboardContext(NativeClipboardContext, Osc52ClipboardContext))
    );
}

#[test]
fn osc52_error_message() {
    assert_eq!(
        Error::Unsupported.message(),
        "Getting clipboard contents is not supported through this context"
    );
    assert_eq!(Error::Unsupported.source(), None);
    assert_eq!(
        ClipError::Osc52(Error::Unsupported).message(),
        "Getting clipboard contents is not supported through this context"
    );
}

#[test]
fn osc52_ordinary_contents_are_encodable() {
    for text in ["", "a", "ab", "abc", "some string", "\u{7}", "\u{1f600}"] {
        assert!(copypasta_ext::osc52::is_encodable(text));
    }
    let long = "x".repeat(100_000);
    assert!(copypasta_ext::osc52::is_encodable(&long));
    assert_eq!(Osc52ClipboardContext::sequence(&long).len(), 8 + 133_336);
}
