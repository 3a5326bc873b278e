use pdf_page_text::{
    error_kind, extract_pdf_text_by_pages, strip_leading_breaks, strip_pages, EngineCause, EngineFailure,
    ErrorKind, ExtractError,
};

fn owned(pages: &[&str]) -> Vec<String> {
    pages.iter().map(|p| p.to_string()).collect()
}

#[test]
fn protection_causes_are_unsupported_encryption() {
    assert_eq!(error_kind(EngineCause::Decryption), ErrorKind::UnsupportedEncryption);
    assert_eq!(error_kind(EngineCause::SecurityHandler), ErrorKind::UnsupportedEncryption);
    assert_eq!(error_kind(EngineCause::Password), ErrorKind::UnsupportedEncryption);
}

#[test]
fn other_causes_are_unrecognized_format() {
    assert_eq!(error_kind(EngineCause::Document), ErrorKind::UnrecognizedFormat);
    assert_eq!(error_kind(EngineCause::Format), ErrorKind::UnrecognizedFormat);
    assert_eq!(error_kind(EngineCause::Io), ErrorKind::UnrecognizedFormat);
}

#[test]
fn pages_keep_count_and_order() {
    let result = extract_pdf_text_by_pages(Ok(owned(&["b", "a", "", "c", "a"])));
    assert_eq!(result, Ok(owned(&["b", "a", "", "c", "a"])));
    assert_eq!(extract_pdf_text_by_pages(Ok(Vec::new())), Ok(Vec::new()));
}

#[test]
fn each_page_is_stripped_on_its_own() {
    let result = extract_pdf_text_by_pages(Ok(owned(&["\n\nHello World", "\n", "plain", "\nTwo\nAgain\n"])));
    assert_eq!(result, Ok(owned(&["Hello World", "", "plain", "Two\nAgain\n"])));
}

#[test]
fn failure_carries_the_message_word_for_word() {
    let failure = EngineFailure { cause: EngineCause::Decryption, text: "\nPDF error: locked \n".to_string() };
    assert_eq!(
        extract_pdf_text_by_pages(Err(failure)),
        Err(ExtractError { kind: ErrorKind::UnsupportedEncryption, description: "\nPDF error: locked \n".to_string() })
    );
    let failure = EngineFailure { cause: EngineCause::Document, text: String::new() };
    assert_eq!(
        extract_pdf_text_by_pages(Err(failure)),
        Err(ExtractError { kind: ErrorKind::UnrecognizedFormat, description: String::new() })
    );
}

#[test]
fn every_cause_fails_the_whole_call() {
    let causes = [
        (EngineCause::Format, ErrorKind::UnrecognizedFormat),
        (EngineCause::Io, ErrorKind::UnrecognizedFormat),
        (EngineCause::Document, ErrorKind::UnrecognizedFormat),
        (EngineCause::Decryption, ErrorKind::UnsupportedEncryption),
        (EngineCause::SecurityHandler, ErrorKind::UnsupportedEncryption),
        (EngineCause::Password, ErrorKind::UnsupportedEncryption),
    ];
    for (cause, kind) in causes {
        let failure = EngineFailure { cause, text: "PDF error: gone".to_string() };
        assert_eq!(
            extract_pdf_text_by_pages(Err(failure)),
            Err(ExtractError { kind, description: "PDF error: gone".to_string() })
        );
    }
}

#[test]
fn empty_page_keeps_its_place() {
    let result = extract_pdf_text_by_pages(Ok(owned(&["A", "", "B"])));
    assert_eq!(result, Ok(owned(&["A", "", "B"])));
    let result = extract_pdf_text_by_pages(Ok(owned(&["\n\nA", "\n\n", "\nB"])));
    assert_eq!(result, Ok(owned(&["A", "", "B"])));
}

#[test]
fn strip_removes_leading_line_breaks_only() {
    assert_eq!(strip_leading_breaks(""), "");
    assert_eq!(strip_leading_breaks("\n"), "");
    assert_eq!(strip_leading_breaks("\n\n\n"), "");
    assert_eq!(strip_leading_breaks("Hello World"), "Hello World");
    assert_eq!(strip_leading_breaks("\n\nHello World"), "Hello World");
    assert_eq!(strip_leading_breaks("\nHello\n\nWorld\n"), "Hello\n\nWorld\n");
}

#[test]
fn strip_leaves_other_white_space() {
    assert_eq!(strip_leading_breaks(" \nHello"), " \nHello");
    assert_eq!(strip_leading_breaks("\n \nHello"), " \nHello");
    assert_eq!(strip_leading_breaks("\r\nHello"), "\r\nHello");
    assert_eq!(strip_leading_breaks("\n\tHello"), "\tHello");
}

#[test]
fn strip_counts_characters_not_bytes() {
    assert_eq!(strip_leading_breaks("\n\u{e9}t\u{e9}"), "\u{e9}t\u{e9}");
    assert_eq!(strip_leading_breaks("\n\n\u{4f60}\u{597d}\n\u{1f600}"), "\u{4f60}\u{597d}\n\u{1f600}");
    assert_eq!(strip_leading_breaks("\u{1f600}\n"), "\u{1f600}\n");
}

#[test]
fn strip_pages_keeps_every_page_in_place() {
    let pages = owned(&["\nOne", "", "\n\n", "Four", "\n\nFive\n"]);
    assert_eq!(strip_pages(&pages), owned(&["One", "", "", "Four", "Five\n"]));
    assert_eq!(strip_pages(&Vec::new()), Vec::<String>::new());
}
