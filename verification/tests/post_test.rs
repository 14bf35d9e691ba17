use mp::post::post_from_args;
use mp::{Post, PostStatus};

#[test]
fn test_is_empty_with_empty_string() {
    let post = Post::from_body("   \n\t  ".to_string(), PostStatus::Draft);
    assert!(post.is_empty());
}

#[test]
fn test_is_empty_with_whitespace_only() {
    let post = Post::from_body("   \n\t  ".to_string(), PostStatus::Draft);
    assert!(post.is_empty());
}

#[test]
fn test_is_empty_with_content() {
    let post = Post::from_body("Some content".to_string(), PostStatus::Draft);
    assert!(!post.is_empty());
}

#[test]
fn test_from_body_creates_post_without_title() {
    let post = Post::from_body("Body text".to_string(), PostStatus::Published);
    assert_eq!(post.body, "Body text");
    assert_eq!(post.title, None);
    assert_eq!(post.status, PostStatus::Published);
}

#[test]
fn test_from_body_and_title_creates_post_with_title() {
    let post =
        Post::from_body_and_title("Body".to_string(), "Title".to_string(), PostStatus::Draft);
    assert_eq!(post.body, "Body");
    assert_eq!(post.title, Some("Title".to_string()));
    assert_eq!(post.status, PostStatus::Draft);
}

#[test]
fn test_from_body_with_title_extraction_extracts_title() {
    let post = Post::from_body_with_title_extraction(
        "# Title\n\nBody".to_string(),
        PostStatus::Published,
    );
    assert_eq!(post.title, Some("Title".to_string()));
    assert_eq!(post.body, "Body");
    assert_eq!(post.status, PostStatus::Published);
}

#[test]
fn test_from_body_with_title_extraction_no_title() {
    let post =
        Post::from_body_with_title_extraction("Just body".to_string(), PostStatus::Draft);
    assert_eq!(post.title, None);
    assert_eq!(post.body, "Just body");
}

#[test]
fn test_separate_title_from_body_heading_1_in_first_line() {
    let body = "# My Title\nThis is the body".to_string();
    let (remaining_body, title) = Post::separate_title_from_body(body);
    assert_eq!(title, Some("My Title".to_string()));
    assert_eq!(remaining_body, "This is the body");
}

#[test]
fn test_separate_title_from_body_heading_2_in_first_line() {
    let body = "## My Title\nThis is the body".to_string();
    let (remaining_body, title) = Post::separate_title_from_body(body);
    assert_eq!(title, None);
    assert_eq!(remaining_body, "## My Title\nThis is the body");
}

#[test]
fn test_separate_title_from_body_blank_line_then_heading_1() {
    let body = "\n# My Title\nThis is the body".to_string();
    let (remaining_body, title) = Post::separate_title_from_body(body);
    assert_eq!(title, None);
    assert_eq!(remaining_body, "\n# My Title\nThis is the body");
}

#[test]
fn test_separate_title_from_body_no_blank_line_between() {
    let body = "# My Title\nThis is the body".to_string();
    let (remaining_body, title) = Post::separate_title_from_body(body);
    assert_eq!(title, Some("My Title".to_string()));
    assert_eq!(remaining_body, "This is the body");
}

#[test]
fn test_separate_title_from_body_one_blank_line_between() {
    let body = "# My Title\n\nThis is the body".to_string();
    let (remaining_body, title) = Post::separate_title_from_body(body);
    assert_eq!(title, Some("My Title".to_string()));
    assert_eq!(remaining_body, "This is the body");
}

#[test]
fn test_separate_title_from_body_multiple_blank_lines_between() {
    let body = "# My Title\n\n\n\nThis is the body".to_string();
    let (remaining_body, title) = Post::separate_title_from_body(body);
    assert_eq!(title, Some("My Title".to_string()));
    assert_eq!(remaining_body, "This is the body");
}

fn separate(text: &str) -> (String, Option<String>) {
    Post::separate_title_from_body(text.to_string())
}

#[test]
fn separate_collapses_blank_lines_after_heading() {
    assert_eq!(separate("# Title\n\n\n\nBody"), ("Body".to_string(), Some("Title".to_string())));
}

#[test]
fn separate_leaves_level_two_heading_alone() {
    assert_eq!(separate("## Title\nBody"), ("## Title\nBody".to_string(), None));
}

#[test]
fn separate_returns_text_without_heading_unchanged() {
    for text in ["", "#", "# ", "#Title\nBody", " # Title\nBody", "Body\n# Title", "\n", "#\n x"] {
        if text == "# " {
            continue;
        }
        assert_eq!(separate(text), (text.to_string(), None), "text {:?}", text);
    }
}

#[test]
fn separate_heading_only() {
    assert_eq!(separate("# "), (String::new(), Some(String::new())));
    assert_eq!(separate("# Title"), (String::new(), Some("Title".to_string())));
    assert_eq!(separate("# Title\n"), (String::new(), Some("Title".to_string())));
    assert_eq!(separate("# Title\n \n\t\n  "), (String::new(), Some("Title".to_string())));
}

#[test]
fn separate_trims_the_title() {
    assert_eq!(separate("#   My  Title \t\nBody").1, Some("My  Title".to_string()));
    assert_eq!(separate("# \u{00A0}Titre\u{3000}\nBody").1, Some("Titre".to_string()));
    assert_eq!(separate("# Title\r\nBody"), ("Body".to_string(), Some("Title".to_string())));
}

#[test]
fn separate_keeps_the_body_from_its_first_line_that_is_not_blank() {
    assert_eq!(separate("# T\nfirst\n\nsecond\n").0, "first\n\nsecond\n");
    assert_eq!(separate("# T\n  \n\t\n  indented\nlast").0, "  indented\nlast");
    assert_eq!(separate("# T\n\nBody\n\n").0, "Body\n\n");
    assert_eq!(separate("# T\n# Second heading\nBody").0, "# Second heading\nBody");
}

#[test]
fn separate_handles_text_beyond_ascii() {
    assert_eq!(
        separate("# Grüße aus Köln ✈\n\nÜber den Wolken …\n"),
        ("Über den Wolken …\n".to_string(), Some("Grüße aus Köln ✈".to_string()))
    );
}

#[test]
fn heading_then_rest_gives_trimmed_title_and_rest() {
    for title in ["Title", " spaced out ", "", "x"] {
        for rest in ["Body", "Body\nmore\n", "", "\n\nBody", " \n\t\nBody\n", "   "] {
            let text = format!("# {}\n{}", title, rest);
            let (body, found) = separate(&text);
            assert_eq!(found, Some(title.trim().to_string()));
            let mut expected = rest;
            loop {
                let (line, tail) = match expected.split_once('\n') {
                    Some((line, tail)) => (line, Some(tail)),
                    None => (expected, None),
                };
                if !line.trim().is_empty() {
                    break;
                }
                match tail {
                    Some(tail) => expected = tail,
                    None => {
                        expected = "";
                        break;
                    }
                }
            }
            assert_eq!(body, expected, "text {:?}", text);
        }
    }
}

#[test]
fn is_empty_matches_trimming() {
    for body in ["", " ", "\n", "\t\r\n \u{2003}", "a", " a ", "\n.\n", "\u{200B}"] {
        let post = Post::from_body(body.to_string(), PostStatus::Published);
        assert_eq!(post.is_empty(), body.trim().is_empty(), "body {:?}", body);
    }
}

#[test]
fn explicit_title_rules_extraction_out() {
    for extract in [false, true] {
        let post = post_from_args(
            "# Heading\n\nBody".to_string(),
            Some("Given".to_string()),
            PostStatus::Draft,
            extract,
        );
        assert_eq!(post.body, "# Heading\n\nBody");
        assert_eq!(post.title, Some("Given".to_string()));
        assert_eq!(post.status, PostStatus::Draft);
    }
}

#[test]
fn extraction_happens_only_on_request() {
    let post = post_from_args("# Heading\n\nBody".to_string(), None, PostStatus::Published, true);
    assert_eq!(post.body, "Body");
    assert_eq!(post.title, Some("Heading".to_string()));
    assert_eq!(post.status, PostStatus::Published);

    let post = post_from_args("# Heading\n\nBody".to_string(), None, PostStatus::Published, false);
    assert_eq!(post.body, "# Heading\n\nBody");
    assert_eq!(post.title, None);
}
