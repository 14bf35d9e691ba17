use mp::content::{checked_content, content_source, missing_source, ContentError, ContentSource};

fn some(text: &str) -> Option<String> {
    Some(text.to_string())
}

#[test]
fn standard_input_comes_first() {
    for file in [None, some("post.md")] {
        for content in [None, some("text")] {
            assert!(matches!(content_source(true, file.clone(), content), ContentSource::Stdin));
        }
    }
}

#[test]
fn file_comes_before_argument() {
    for content in [None, some("text")] {
        assert!(matches!(
            content_source(false, some("post.md"), content),
            ContentSource::File(path) if path == "post.md"
        ));
    }
}

#[test]
fn argument_comes_last() {
    assert!(matches!(
        content_source(false, None, some("text")),
        ContentSource::Argument(text) if text == "text"
    ));
    assert!(matches!(
        content_source(false, None, some("")),
        ContentSource::Argument(text) if text.is_empty()
    ));
}

#[test]
fn no_source_named() {
    assert!(matches!(content_source(false, None, None), ContentSource::Missing));
    assert_eq!(
        missing_source(),
        "Either provide content as an argument, use --file with a path, or use --stdin."
    );
}

#[test]
fn content_is_checked() {
    assert_eq!(checked_content(None), Err(ContentError::Unreadable));
    for text in ["", " ", "\n\t\r\n", "\u{2028}"] {
        assert_eq!(checked_content(some(text)), Err(ContentError::Empty), "text {:?}", text);
    }
    for text in ["a", " a ", "\n# Title\n"] {
        assert_eq!(checked_content(some(text)), Ok(text.to_string()));
    }
    assert_eq!(ContentError::Unreadable.message(), "Failed to read content");
    assert_eq!(ContentError::Empty.message(), "Content cannot be empty");
}
