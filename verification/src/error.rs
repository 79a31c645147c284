//! The ways in which ingesting a content file or building the site fails.

use vstd::prelude::*;
use vstd::string::StringExecFns;

verus! {

/// A field of the metadata block that the decoder knows.
#[derive(Clone, Copy, Debug, PartialEq, Eq, Structural)]
pub enum MetaField {
    Title,
    CreatedAt,
    UpdatedAt,
    Categories,
}

impl MetaField {
    /// The key under which the field stands in a metadata block.
    pub open spec fn key(self) -> Seq<char> {
        match self {
            MetaField::Title => "title"@,
            MetaField::CreatedAt => "created_at"@,
            MetaField::UpdatedAt => "updated_at"@,
            MetaField::Categories => "categories"@,
        }
    }

    /// The key under which the field stands in a metadata block.
    pub fn name(&self) -> (name: &'static str)
        ensures
            name@ == self.key(),
    {
        match self {
            MetaField::Title => "title",
            MetaField::CreatedAt => "created_at",
            MetaField::UpdatedAt => "updated_at",
            MetaField::Categories => "categories",
        }
    }
}

/// Why a content file was not ingested, or a site not built. Every one of
/// them ends the run: no file is skipped and no page overwritten.
#[derive(Clone, Debug, PartialEq, Eq)]
pub enum SiteError {
    /// The text opens with the metadata marker and never closes it, or
    /// has no metadata block where one is required.
    MalformedFrontMatter,
    /// The metadata block is not a well-formed document, or nests too
    /// deep to be read.
    MetadataSyntaxError,
    /// A field that the configuration requires is not in the metadata block.
    MissingRequiredField(MetaField),
    /// A field of the metadata block holds a value of the wrong kind.
    InvalidFieldShape(MetaField),
    /// An element of `categories` is not a string.
    InvalidCategory,
    /// Two articles have this slug.
    DuplicateSlug(String),
}

/// A [`SiteError`] as contracts see it.
pub enum SiteErrorView {
    MalformedFrontMatter,
    MetadataSyntaxError,
    MissingRequiredField(MetaField),
    InvalidFieldShape(MetaField),
    InvalidCategory,
    DuplicateSlug(Seq<char>),
}

impl View for SiteError {
    type V = SiteErrorView;

    open spec fn view(&self) -> SiteErrorView {
        match self {
            SiteError::MalformedFrontMatter => SiteErrorView::MalformedFrontMatter,
            SiteError::MetadataSyntaxError => SiteErrorView::MetadataSyntaxError,
            SiteError::MissingRequiredField(field) => SiteErrorView::MissingRequiredField(*field),
            SiteError::InvalidFieldShape(field) => SiteErrorView::InvalidFieldShape(*field),
            SiteError::InvalidCategory => SiteErrorView::InvalidCategory,
            SiteError::DuplicateSlug(slug) => SiteErrorView::DuplicateSlug(slug@),
        }
    }
}

impl SiteErrorView {
    /// The message that names the file part, field or slug at fault.
    pub open spec fn message(self) -> Seq<char> {
        match self {
            SiteErrorView::MalformedFrontMatter => "metadata block is missing or not closed"@,
            SiteErrorView::MetadataSyntaxError => "metadata block is not well-formed or nests too deep"@,
            SiteErrorView::MissingRequiredField(field) => "missing required field: "@ + field.key(),
            SiteErrorView::InvalidFieldShape(field) => "field has the wrong shape: "@ + field.key(),
            SiteErrorView::InvalidCategory => "every category must be a string"@,
            SiteErrorView::DuplicateSlug(slug) => "duplicate slug: "@ + slug,
        }
    }
}

impl SiteError {
    /// A message for the user that names the field or slug at fault.
    pub fn message(&self) -> (text: String)
        ensures
            text@ == self@.message(),
    {
        match self {
            SiteError::MalformedFrontMatter => String::from_str(
                "metadata block is missing or not closed",
            ),
            SiteError::MetadataSyntaxError => String::from_str("metadata block is not well-formed or nests too deep"),
            SiteError::MissingRequiredField(field) => String::from_str(
                "missing required field: ",
            ).concat(field.name()),
            SiteError::InvalidFieldShape(field) => String::from_str(
                "field has the wrong shape: ",
            ).concat(field.name()),
            SiteError::InvalidCategory => String::from_str("every category must be a string"),
            SiteError::DuplicateSlug(slug) => String::from_str("duplicate slug: ").concat(
                slug.as_str(),
            ),
        }
    }
}

} // verus!
