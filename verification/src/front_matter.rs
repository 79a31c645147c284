//! Splitting the raw text of a content file into its metadata block and its
//! markdown body.

use crate::error::SiteError;
use crate::error::SiteErrorView;
use crate::text::chars_of;
use crate::text::find_from;
use crate::text::first_from;
use crate::text::matches_at;
use crate::text::occurs_at;
use crate::text::occurs_from;
use vstd::prelude::*;
use vstd::string::StrSliceExecFns;
use vstd::string::StringExecFns;

verus! {

/// The two parts of a content file.
#[derive(Clone, Debug, PartialEq, Eq)]
pub struct FrontMatter {
    /// The text between the opening and the closing marker, if the file
    /// opens with the marker.
    pub metadata: Option<String>,
    /// The markdown that follows.
    pub body: String,
}

/// A [`FrontMatter`] as contracts see it.
pub struct FrontMatterView {
    pub metadata: Option<Seq<char>>,
    pub body: Seq<char>,
}

impl View for FrontMatter {
    type V = FrontMatterView;

    open spec fn view(&self) -> FrontMatterView {
        FrontMatterView {
            metadata: match self.metadata {
                Some(block) => Some(block@),
                None => None,
            },
            body: self.body@,
        }
    }
}

/// The marker that opens and closes a metadata block: three hyphens.
pub open spec fn marker() -> Seq<char> {
    seq!['-', '-', '-']
}

/// The text begins with the marker.
pub open spec fn opens_with_marker(text: Seq<char>) -> bool {
    occurs_at(text, marker(), 0)
}

/// The marker stands somewhere after the opening one.
pub open spec fn has_closing_marker(text: Seq<char>) -> bool {
    occurs_from(text, marker(), 3)
}

/// Where the closing marker begins: the first marker after the opening one.
pub open spec fn closing_marker(text: Seq<char>) -> int {
    choose|i: int| first_from(text, marker(), 3, i)
}

/// The parts of `text`, or `None` where the block that it opens is never
/// closed.
///
/// A text that does not begin with the marker is all body. Otherwise the
/// block runs from behind the opening marker to the next marker, and the body
/// from behind that one to the end. A marker inside a metadata value is taken
/// for the closing one.
pub open spec fn split_spec(text: Seq<char>) -> Option<FrontMatterView> {
    if !opens_with_marker(text) {
        Some(FrontMatterView { metadata: None, body: text })
    } else if !has_closing_marker(text) {
        None
    } else {
        let close = closing_marker(text);
        Some(
            FrontMatterView {
                metadata: Some(text.subrange(3, close)),
                body: text.subrange(close + 3, text.len() as int),
            },
        )
    }
}

/// Only one position can be the first occurrence.
pub proof fn lemma_first_from_unique(s: Seq<char>, pat: Seq<char>, from: int, i: int, j: int)
    requires
        first_from(s, pat, from, i),
        first_from(s, pat, from, j),
    ensures
        i == j,
{
}

/// Splits the text of a content file into metadata block and body.
///
/// Fails with `MalformedFrontMatter` exactly when the text opens a metadata
/// block and never closes it.
pub fn split_front_matter(text: &str) -> (parts: Result<FrontMatter, SiteError>)
    ensures
        match parts {
            Ok(found) => split_spec(text@) == Some(found@),
            Err(e) => split_spec(text@) is None && e@ == SiteErrorView::MalformedFrontMatter,
        },
{
    let chars = chars_of(text);
    let mark = chars_of("---");
    proof {
        reveal_strlit("---");
        assert(mark@ =~= marker());
    }
    if !matches_at(&chars, &mark, 0) {
        return Ok(FrontMatter { metadata: None, body: String::from_str(text) });
    }
    match find_from(&chars, &mark, 3) {
        None => Err(SiteError::MalformedFrontMatter),
        Some(close) => {
            proof {
                lemma_first_from_unique(
                    text@,
                    marker(),
                    3,
                    close as int,
                    closing_marker(text@),
                );
                assert(marker().len() == 3);
                assert(close + 3 <= chars.len());
            }
            let block = String::from_str(text.substring_char(3, close));
            let body = String::from_str(text.substring_char(close + 3, chars.len()));
            Ok(FrontMatter { metadata: Some(block), body })
        },
    }
}

} // verus!
