//! Where the text of a post comes from, and whether what was read will do.
//!
//! The command line can name three sources. Standard input comes before a
//! file, and a file before the text given as an argument.

use vstd::prelude::*;
use vstd::string::*;
use crate::text::{blank, is_blank};

verus! {

/// The place to read the text of a post from.
#[derive(Debug)]
pub enum ContentSource {
    /// Standard input, read to its end.
    Stdin,
    /// The file at this path.
    File(String),
    /// This text, given on the command line.
    Argument(String),
    /// The command line named no source.
    Missing,
}

/// What a `ContentSource` holds, as plain values.
pub enum ContentSourceView {
    Stdin,
    File(Seq<char>),
    Argument(Seq<char>),
    Missing,
}

impl View for ContentSource {
    type V = ContentSourceView;

    open spec fn view(&self) -> ContentSourceView {
        match self {
            ContentSource::Stdin => ContentSourceView::Stdin,
            ContentSource::File(path) => ContentSourceView::File(path@),
            ContentSource::Argument(text) => ContentSourceView::Argument(text@),
            ContentSource::Missing => ContentSourceView::Missing,
        }
    }
}

/// The source that the command line names.
pub open spec fn source_of(stdin: bool, file: Option<Seq<char>>, content: Option<Seq<char>>)
    -> ContentSourceView {
    if stdin {
        ContentSourceView::Stdin
    } else if file is Some {
        ContentSourceView::File(file->0)
    } else if content is Some {
        ContentSourceView::Argument(content->0)
    } else {
        ContentSourceView::Missing
    }
}

/// What is said where the command line names no source.
pub open spec fn missing_source_message() -> Seq<char> {
    "Either provide content as an argument, use --file with a path, or use --stdin."@
}

/// Picks the source from the `--stdin` flag, the `--file` option and the
/// text argument.
pub fn content_source(stdin: bool, file: Option<String>, content: Option<String>) -> (source:
    ContentSource)
    ensures
        source@ == source_of(stdin, file.deep_view(), content.deep_view()),
{
    if stdin {
        return ContentSource::Stdin;
    }
    match file {
        Some(path) => ContentSource::File(path),
        None => match content {
            Some(text) => ContentSource::Argument(text),
            None => ContentSource::Missing,
        },
    }
}

/// The message for a command line that names no source.
pub fn missing_source() -> (message: &'static str)
    ensures
        message@ == missing_source_message(),
{
    "Either provide content as an argument, use --file with a path, or use --stdin."
}

/// Why what was read cannot be the text of a post.
#[derive(Debug, Clone, Copy, PartialEq, Eq, Structural)]
pub enum ContentError {
    /// Nothing could be read.
    Unreadable,
    /// What was read holds nothing but whitespace.
    Empty,
}

impl ContentError {
    pub open spec fn message_text(self) -> Seq<char> {
        match self {
            ContentError::Unreadable => "Failed to read content"@,
            ContentError::Empty => "Content cannot be empty"@,
        }
    }

    /// The error in words.
    pub fn message(&self) -> (message: &'static str)
        ensures
            message@ == self.message_text(),
    {
        match self {
            ContentError::Unreadable => "Failed to read content",
            ContentError::Empty => "Content cannot be empty",
        }
    }
}

/// Accepts what was read as the text of a post, unless nothing was read or
/// it holds nothing but whitespace. The text is not changed.
pub fn checked_content(read: Option<String>) -> (res: Result<String, ContentError>)
    ensures
        match read {
            None => res == Err::<String, ContentError>(ContentError::Unreadable),
            Some(text) => if blank(text@) {
                res == Err::<String, ContentError>(ContentError::Empty)
            } else {
                res == Ok::<String, ContentError>(text)
            },
        },
{
    match read {
        None => Err(ContentError::Unreadable),
        Some(text) => if is_blank(text.as_str()) {
            Err(ContentError::Empty)
        } else {
            Ok(text)
        },
    }
}

} // verus!
