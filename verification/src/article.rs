//! An article of the site.

use crate::text::strings_view;
use crate::time::Timestamp;
use vstd::prelude::*;
use vstd::string::StringExecFns;

verus! {

/// One article of the site. An article is made once and never changed.
#[derive(Debug, PartialEq, Eq)]
pub struct Article {
    slug: String,
    created_at: Timestamp,
    updated_at: Timestamp,
    categories: Vec<String>,
    content_html: String,
}

/// An [`Article`] as contracts see it.
pub struct ArticleView {
    /// What identifies the article: a segment of its URL and the stem of its
    /// page's file name.
    pub slug: Seq<char>,
    pub created_at: Timestamp,
    pub updated_at: Timestamp,
    /// Never empty.
    pub categories: Seq<Seq<char>>,
    /// The rendered body, as it goes into the page.
    pub content_html: Seq<char>,
}

impl View for Article {
    type V = ArticleView;

    closed spec fn view(&self) -> ArticleView {
        ArticleView {
            slug: self.slug@,
            created_at: self.created_at,
            updated_at: self.updated_at,
            categories: strings_view(self.categories@),
            content_html: self.content_html@,
        }
    }
}

/// The category of an article that names none.
pub const DEFAULT_CATEGORY: &'static str = "Others";

/// The categories of an article that names none.
pub open spec fn default_categories() -> Seq<Seq<char>> {
    seq![DEFAULT_CATEGORY@]
}

/// The categories of an article that names none.
pub fn default_category_list() -> (categories: Vec<String>)
    ensures
        categories@.len() == 1,
        strings_view(categories@) == default_categories(),
{
    let mut categories: Vec<String> = Vec::new();
    categories.push(String::from_str(DEFAULT_CATEGORY));
    proof {
        assert(strings_view(categories@) =~= default_categories());
    }
    categories
}

/// The categories of an article that is given `categories`: those, or the
/// default where there are none.
pub open spec fn categories_or_default(categories: Seq<Seq<char>>) -> Seq<Seq<char>> {
    if categories.len() == 0 {
        default_categories()
    } else {
        categories
    }
}

impl Clone for Article {
    fn clone(&self) -> (copy: Article)
        ensures
            copy@ == self@,
    {
        proof {
            use_type_invariant(self);
        }
        let categories = self.categories.clone();
        proof {
            assert(categories@ =~= self.categories@);
        }
        Article {
            slug: self.slug.clone(),
            created_at: self.created_at,
            updated_at: self.updated_at,
            categories,
            content_html: self.content_html.clone(),
        }
    }
}

impl Article {
    #[verifier::type_invariant]
    spec fn has_a_category(self) -> bool {
        self.categories@.len() > 0
    }

    /// An article of the given fields. Without a category it gets the
    /// default one.
    pub fn new(
        slug: String,
        created_at: Timestamp,
        updated_at: Timestamp,
        categories: Vec<String>,
        content_html: String,
    ) -> (article: Article)
        ensures
            article@ == (ArticleView {
                slug: slug@,
                created_at,
                updated_at,
                categories: categories_or_default(strings_view(categories@)),
                content_html: content_html@,
            }),
    {
        if categories.len() == 0 {
            let categories = default_category_list();
            Article { slug, created_at, updated_at, categories, content_html }
        } else {
            Article { slug, created_at, updated_at, categories, content_html }
        }
    }

    pub fn slug(&self) -> (slug: &String)
        ensures
            slug@ == self@.slug,
    {
        &self.slug
    }

    pub fn created_at(&self) -> (created_at: Timestamp)
        ensures
            created_at == self@.created_at,
    {
        self.created_at
    }

    pub fn updated_at(&self) -> (updated_at: Timestamp)
        ensures
            updated_at == self@.updated_at,
    {
        self.updated_at
    }

    /// The categories of the article, of which there is at least one.
    pub fn categories(&self) -> (categories: &Vec<String>)
        ensures
            strings_view(categories@) == self@.categories,
            categories@.len() > 0,
    {
        proof {
            use_type_invariant(self);
        }
        &self.categories
    }

    pub fn content_html(&self) -> (content_html: &String)
        ensures
            content_html@ == self@.content_html,
    {
        &self.content_html
    }
}

} // verus!
