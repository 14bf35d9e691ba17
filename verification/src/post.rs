//! The post to be published, and how a title is lifted out of its text.
//!
//! A text whose first line starts with `"# "` carries its title in that line.
//! The title is the rest of the line, trimmed; the body is what follows the
//! line, from the first line on that is not blank.

use vstd::prelude::*;
use vstd::string::*;
use crate::post_status::PostStatus;
use crate::text::{
    blank, chars_of, find_line_end, first_line, is_blank, is_whitespace, lemma_line_end_at,
    line_end, skip_whitespace, trimmed, trimmed_bounds, without_leading_blank_lines,
};

verus! {

/// A post: its text, an optional title, and the status to submit it with.
pub struct Post {
    pub body: String,
    pub title: Option<String>,
    pub status: PostStatus,
}

/// What a `Post` holds, as plain values.
pub struct PostView {
    pub body: Seq<char>,
    pub title: Option<Seq<char>>,
    pub status: PostStatus,
}

impl View for Post {
    type V = PostView;

    open spec fn view(&self) -> PostView {
        PostView { body: self.body@, title: self.title.deep_view(), status: self.status }
    }
}

impl PostView {
    /// A post is empty when its body holds nothing but whitespace.
    pub open spec fn is_empty(self) -> bool {
        trimmed(self.body).len() == 0
    }
}

/// The text starts with a number sign and a space.
pub open spec fn has_heading(s: Seq<char>) -> bool {
    s.len() >= 2 && s[0] == '#' && s[1] == ' '
}

/// The title in the first line of a text that has a heading.
pub open spec fn heading_title(s: Seq<char>) -> Seq<char> {
    trimmed(s.subrange(2, line_end(s)))
}

/// What follows the first line, from the first line on that is not blank.
pub open spec fn body_after_heading(s: Seq<char>) -> Seq<char> {
    let e = line_end(s);
    if 0 <= e < s.len() {
        without_leading_blank_lines(s.skip(e + 1))
    } else {
        Seq::empty()
    }
}

/// The body and the title that a text is split into.
pub open spec fn separated(s: Seq<char>) -> (Seq<char>, Option<Seq<char>>) {
    if has_heading(s) {
        (body_after_heading(s), Some(heading_title(s)))
    } else {
        (s, None)
    }
}

/// The post built from a text, an explicit title, and the request to look
/// for a title in the text. An explicit title rules the search out.
pub open spec fn built(
    body: Seq<char>,
    title: Option<Seq<char>>,
    status: PostStatus,
    extract_title: bool,
) -> PostView {
    match title {
        Some(t) => PostView { body, title: Some(t), status },
        None => if extract_title {
            PostView { body: separated(body).0, title: separated(body).1, status }
        } else {
            PostView { body, title: None, status }
        },
    }
}

/// A heading line `"# "`, `title`, line feed, followed by `rest`, is split
/// into the trimmed title and `rest` from its first line that is not blank.
/// Where the first line of `rest` is not blank, the body is `rest` itself.
pub proof fn lemma_heading_then_rest(title: Seq<char>, rest: Seq<char>)
    requires
        forall|k: int| 0 <= k < title.len() ==> #[trigger] title[k] != '\n',
    ensures
        separated(seq!['#', ' '] + title + seq!['\n'] + rest) == (
            without_leading_blank_lines(rest),
            Some(trimmed(title)),
        ),
        !blank(first_line(rest)) ==> separated(seq!['#', ' '] + title + seq!['\n'] + rest) == (
            rest,
            Some(trimmed(title)),
        ),
{
    let s = seq!['#', ' '] + title + seq!['\n'] + rest;
    let e = 2 + title.len() as int;
    assert(s[0] == '#' && s[1] == ' ');
    assert forall|k: int| 0 <= k < e implies #[trigger] s[k] != '\n' by {
        if k >= 2 {
            assert(s[k] == title[k - 2]);
        }
    }
    assert(s[e] == '\n');
    lemma_line_end_at(s, e);
    assert(s.subrange(2, e) =~= title);
    assert(s.skip(e + 1) =~= rest);
}

/// A text without a heading in its first line is its own body, untitled.
pub proof fn lemma_no_heading_unchanged(s: Seq<char>)
    requires
        !has_heading(s),
    ensures
        separated(s) == (s, None::<Seq<char>>),
{
}

/// The start of the first line at or after `from` that is not blank, or the
/// length of `v` where all of them are.
fn skip_blank_lines(v: &Vec<char>, from: usize) -> (start: usize)
    requires
        from <= v.len(),
    ensures
        from <= start <= v.len(),
        v@.skip(start as int) == without_leading_blank_lines(v@.skip(from as int)),
{
    let mut pos: usize = from;
    loop
        invariant
            from <= pos <= v.len(),
            without_leading_blank_lines(v@.skip(pos as int)) == without_leading_blank_lines(
                v@.skip(from as int),
            ),
        decreases v.len() - pos,
    {
        let e = find_line_end(v, pos);
        let i = skip_whitespace(v, pos, e);
        let ghost t = v@.skip(pos as int);
        proof {
            assert forall|k: int| 0 <= k < i - pos implies is_whitespace(
                #[trigger] t.take(e - pos)[k],
            ) by {
                assert(t.take(e - pos)[k] == v@[k + pos]);
            }
        }
        if i < e {
            proof {
                assert(t.take(e - pos)[i - pos] == v@[i as int]);
            }
            return pos;
        }
        if e == v.len() {
            proof {
                assert(v@.skip(v.len() as int) =~= Seq::<char>::empty());
            }
            return e;
        }
        proof {
            assert(t.skip(e - pos + 1) =~= v@.skip(e + 1));
        }
        pos = e + 1;
    }
}

impl Post {
    /// A post without a title.
    pub fn from_body(body: String, status: PostStatus) -> (post: Post)
        ensures
            post@ == (PostView { body: body@, title: None, status }),
    {
        Post { body, title: None, status }
    }

    /// A post with the title given.
    pub fn from_body_and_title(body: String, title: String, status: PostStatus) -> (post: Post)
        ensures
            post@ == (PostView { body: body@, title: Some(title@), status }),
    {
        Post { body, title: Some(title), status }
    }

    /// A post whose title is taken from the first line of the text, where
    /// that line is a heading.
    pub fn from_body_with_title_extraction(body: String, status: PostStatus) -> (post: Post)
        ensures
            post@ == (PostView { body: separated(body@).0, title: separated(body@).1, status }),
    {
        let (body, title) = Self::separate_title_from_body(body);
        Post { body, title, status }
    }

    /// Splits a text into body and title. A text whose first line is no
    /// heading comes back as it is, without a title.
    pub fn separate_title_from_body(body: String) -> (res: (String, Option<String>))
        ensures
            res.deep_view() == separated(body@),
            !has_heading(body@) ==> res.0@ == body@ && res.1 is None,
    {
        let v = chars_of(body.as_str());
        if v.len() >= 2 && v[0] == '#' && v[1] == ' ' {
            let e = find_line_end(&v, 0);
            assert(v@.skip(0) =~= v@);
            let (lo, hi) = trimmed_bounds(&v, 2, e);
            let title = body.as_str().substring_char(lo, hi).to_owned();
            let rest = if e < v.len() {
                let start = skip_blank_lines(&v, e + 1);
                assert(v@.subrange(start as int, v.len() as int) =~= v@.skip(start as int));
                body.as_str().substring_char(start, v.len()).to_owned()
            } else {
                String::new()
            };
            (rest, Some(title))
        } else {
            (body, None)
        }
    }

    /// Whether the body holds nothing but whitespace.
    pub fn is_empty(&self) -> (b: bool)
        ensures
            b == self@.is_empty(),
            b == blank(self.body@),
    {
        is_blank(self.body.as_str())
    }
}

/// Builds the post from what the command line gave: the text, the title if
/// one was given, the status, and whether to look for a title in the text.
/// A title that was given is used as it is and the text is left alone.
pub fn post_from_args(
    body: String,
    title: Option<String>,
    status: PostStatus,
    extract_title: bool,
) -> (post: Post)
    ensures
        post@ == built(body@, title.deep_view(), status, extract_title),
        title is Some ==> post.body@ == body@ && post.title.deep_view() == title.deep_view(),
{
    match title {
        Some(t) => Post::from_body_and_title(body, t, status),
        None => if extract_title {
            Post::from_body_with_title_extraction(body, status)
        } else {
            Post::from_body(body, status)
        },
    }
}

} // verus!
