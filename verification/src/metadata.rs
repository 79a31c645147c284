//! The metadata block of a content file: what it holds under the keys that
//! the decoder knows, and the fields of an article that follow from it.

use crate::article::default_categories;
use crate::article::default_category_list;
use crate::config::FieldRule;
use crate::config::IngestConfig;
use crate::error::MetaField;
use crate::error::SiteError;
use crate::error::SiteErrorView;
use crate::nesting::check_plain;
use crate::nesting::is_plain;
use crate::text::strings_view;
use crate::time::rfc3339_instant;
use crate::time::Timestamp;
use vstd::prelude::*;
use vstd::string::StringExecFns;
use yaml_rust::Yaml;
use yaml_rust::YamlLoader;

verus! {

/// What a metadata block holds under one key.
#[derive(Clone, Debug, PartialEq, Eq)]
pub enum MetaValue {
    /// Nothing that can be read: the key is not there, or the document is
    /// not a mapping.
    Missing,
    /// A string.
    Text(String),
    /// A sequence. Of each element, the string that it is, or `None` for an
    /// element of any other kind.
    List(Vec<Option<String>>),
    /// A value of any other kind: a number, a boolean, null, a mapping.
    Other,
}

/// A [`MetaValue`] as contracts see it.
pub enum MetaValueView {
    Missing,
    Text(Seq<char>),
    List(Seq<Option<Seq<char>>>),
    Other,
}

/// The characters of an optional string.
pub open spec fn text_of(item: Option<String>) -> Option<Seq<char>> {
    match item {
        Some(text) => Some(text@),
        None => None,
    }
}

/// The characters of each string of a sequence of optional strings.
pub open spec fn texts_of(items: Seq<Option<String>>) -> Seq<Option<Seq<char>>> {
    items.map_values(|item: Option<String>| text_of(item))
}

impl View for MetaValue {
    type V = MetaValueView;

    open spec fn view(&self) -> MetaValueView {
        match self {
            MetaValue::Missing => MetaValueView::Missing,
            MetaValue::Text(text) => MetaValueView::Text(text@),
            MetaValue::List(items) => MetaValueView::List(texts_of(items@)),
            MetaValue::Other => MetaValueView::Other,
        }
    }
}

/// The values of a sequence, as contracts see them.
pub open spec fn values_view(values: Seq<MetaValue>) -> Seq<MetaValueView> {
    values.map_values(|value: MetaValue| value@)
}

/// The outcome of looking keys up in a metadata block, as contracts see it:
/// `None` where the block is not well-formed, `Some(None)` where it holds no
/// document, else what its first document holds under each of the keys.
pub open spec fn lookup_view(found: Option<Option<Vec<MetaValue>>>) -> Option<
    Option<Seq<MetaValueView>>,
> {
    match found {
        None => None,
        Some(None) => Some(None),
        Some(Some(values)) => Some(Some(values_view(values@))),
    }
}

/// The characters of each key of a sequence.
pub open spec fn keys_view(keys: Seq<&str>) -> Seq<Seq<char>> {
    keys.map_values(|key: &str| key@)
}

/// What `yaml_rust` finds under each of `keys` in the first document of
/// `block`: `None` where `YamlLoader::load_from_str` rejects the block,
/// `Some(None)` where it loads no document at all.
pub uninterp spec fn yaml_fields(block: Seq<char>, keys: Seq<Seq<char>>) -> Option<
    Option<Seq<MetaValueView>>,
>;

/// Calls `yaml_rust::YamlLoader::load_from_str` on the block and indexes its
/// first document by each of `keys`.
///
/// Trusted: the outcome depends on the texts alone, so that it is
/// [`yaml_fields`] of them, and there is one value for each key. Indexing
/// yields `Yaml::BadValue` for a key that is not there and for a document
/// that is no mapping; that is `MetaValue::Missing`. The elements of an array
/// are handed out through `Yaml::as_str`.
///
/// The loader follows the nesting of the block by recursion, and the tree
/// that it builds is copied and let go by recursion too. On a block that
/// nests some hundred levels deep it has been seen to run out of stack, so
/// the block must be plain: then neither goes deeper than
/// [`MAX_DEPTH`](crate::nesting::MAX_DEPTH), and the loader is trusted to
/// return. That the estimate of [`nesting`](crate::nesting) is never below
/// the depth that the loader finds is part of this trust: it follows from how
/// the loader reads indentation and indicators, and is not proved.
#[verifier::external_body]
fn load_fields(block: &str, keys: &Vec<&str>) -> (found: Option<Option<Vec<MetaValue>>>)
    requires
        is_plain(block@),
    ensures
        lookup_view(found) == yaml_fields(block@, keys_view(keys@)),
        found matches Some(Some(values)) ==> values.len() == keys.len(),
{
    let pick = |doc: &Yaml, key: &str| match &doc[key] {
        Yaml::BadValue => MetaValue::Missing,
        Yaml::String(text) => MetaValue::Text(text.clone()),
        Yaml::Array(items) => MetaValue::List(
            items.iter().map(|item| item.as_str().map(String::from)).collect(),
        ),
        Yaml::Real(_) | Yaml::Integer(_) | Yaml::Boolean(_) => MetaValue::Other,
        Yaml::Hash(_) | Yaml::Alias(_) | Yaml::Null => MetaValue::Other,
    };
    let docs = YamlLoader::load_from_str(block).ok()?;
    Some(docs.first().map(|doc| keys.iter().map(|key| pick(doc, key)).collect()))
}

/// What a metadata block holds under a key that stands for an instant.
#[derive(Clone, Copy, Debug, PartialEq, Eq, Structural)]
pub enum TimeValue {
    /// Nothing that can be read.
    Missing,
    /// A string that is an RFC 3339 date and time.
    At(Timestamp),
    /// Anything else.
    Invalid,
}

/// The instant that a value of the block stands for.
pub open spec fn time_value_spec(value: MetaValueView) -> TimeValue {
    match value {
        MetaValueView::Missing => TimeValue::Missing,
        MetaValueView::Text(text) => match rfc3339_instant(text) {
            Some(instant) => TimeValue::At(instant),
            None => TimeValue::Invalid,
        },
        _ => TimeValue::Invalid,
    }
}

/// Reads a value of the block as an instant.
pub fn time_value(value: &MetaValue) -> (read: TimeValue)
    ensures
        read == time_value_spec(value@),
{
    match value {
        MetaValue::Missing => TimeValue::Missing,
        MetaValue::Text(text) => match Timestamp::parse(text.as_str()) {
            Some(instant) => TimeValue::At(instant),
            None => TimeValue::Invalid,
        },
        _ => TimeValue::Invalid,
    }
}

/// What a metadata block holds under the four keys that the decoder knows.
#[derive(Clone, Debug, PartialEq, Eq)]
pub struct RawMetadata {
    pub title: MetaValue,
    pub created_at: TimeValue,
    pub updated_at: TimeValue,
    pub categories: MetaValue,
}

/// A [`RawMetadata`] as contracts see it.
pub struct RawMetadataView {
    pub title: MetaValueView,
    pub created_at: TimeValue,
    pub updated_at: TimeValue,
    pub categories: MetaValueView,
}

impl View for RawMetadata {
    type V = RawMetadataView;

    open spec fn view(&self) -> RawMetadataView {
        RawMetadataView {
            title: self.title@,
            created_at: self.created_at,
            updated_at: self.updated_at,
            categories: self.categories@,
        }
    }
}

impl RawMetadata {
    /// The metadata of a file that has no metadata block.
    pub fn absent() -> (raw: RawMetadata)
        ensures
            raw@ == absent_spec(),
    {
        RawMetadata {
            title: MetaValue::Missing,
            created_at: TimeValue::Missing,
            updated_at: TimeValue::Missing,
            categories: MetaValue::Missing,
        }
    }
}

/// The metadata of a file that has no metadata block: every field missing.
pub open spec fn absent_spec() -> RawMetadataView {
    RawMetadataView {
        title: MetaValueView::Missing,
        created_at: TimeValue::Missing,
        updated_at: TimeValue::Missing,
        categories: MetaValueView::Missing,
    }
}

/// The keys that the decoder knows, in the order in which it asks for them.
pub open spec fn known_keys() -> Seq<Seq<char>> {
    seq![
        MetaField::Categories.key(),
        MetaField::Title.key(),
        MetaField::CreatedAt.key(),
        MetaField::UpdatedAt.key(),
    ]
}

/// What a metadata block holds under the four keys; `None` where the block
/// cannot be read: where it is not plain enough, or not well-formed. A
/// block without a document holds nothing.
pub open spec fn read_spec(block: Seq<char>) -> Option<RawMetadataView> {
    if !is_plain(block) {
        None
    } else {
        match yaml_fields(block, known_keys()) {
            None => None,
            Some(None) => Some(absent_spec()),
            Some(Some(values)) => Some(
                RawMetadataView {
                    categories: values[0],
                    title: values[1],
                    created_at: time_value_spec(values[2]),
                    updated_at: time_value_spec(values[3]),
                },
            ),
        }
    }
}

/// Reads a metadata block. Fails with `MetadataSyntaxError` exactly when the
/// block cannot be read: when it is not plain enough, or not well-formed.
pub fn read_metadata(block: &str) -> (read: Result<RawMetadata, SiteError>)
    ensures
        match read {
            Ok(raw) => read_spec(block@) == Some(raw@),
            Err(e) => read_spec(block@) is None && e@ == SiteErrorView::MetadataSyntaxError,
        },
{
    if !check_plain(block) {
        return Err(SiteError::MetadataSyntaxError);
    }
    let mut keys: Vec<&str> = Vec::new();
    keys.push(MetaField::Categories.name());
    keys.push(MetaField::Title.name());
    keys.push(MetaField::CreatedAt.name());
    keys.push(MetaField::UpdatedAt.name());
    proof {
        assert(keys_view(keys@) =~= known_keys());
    }
    match load_fields(block, &keys) {
        None => Err(SiteError::MetadataSyntaxError),
        Some(None) => Ok(RawMetadata::absent()),
        Some(Some(mut values)) => {
            let ghost found = values_view(values@);
            assert(found.len() == 4);
            assert(forall|i: int| 0 <= i < 4 ==> found[i] == (#[trigger] values@[i])@);
            let updated_at = values.remove(3);
            let created_at = values.remove(2);
            let title = values.remove(1);
            let categories = values.remove(0);
            Ok(
                RawMetadata {
                    title,
                    created_at: time_value(&created_at),
                    updated_at: time_value(&updated_at),
                    categories,
                },
            )
        },
    }
}

/// The fields of an article that its metadata block and its file decide.
#[derive(Clone, Debug, PartialEq, Eq)]
pub struct Metadata {
    pub slug: String,
    pub created_at: Timestamp,
    pub updated_at: Timestamp,
    pub categories: Vec<String>,
}

/// A [`Metadata`] as contracts see it.
pub struct MetadataView {
    pub slug: Seq<char>,
    pub created_at: Timestamp,
    pub updated_at: Timestamp,
    pub categories: Seq<Seq<char>>,
}

impl View for Metadata {
    type V = MetadataView;

    open spec fn view(&self) -> MetadataView {
        MetadataView {
            slug: self.slug@,
            created_at: self.created_at,
            updated_at: self.updated_at,
            categories: strings_view(self.categories@),
        }
    }
}

/// Some element of the sequence is not a string.
pub open spec fn has_non_string(items: Seq<Option<Seq<char>>>) -> bool {
    exists|i: int| 0 <= i < items.len() && items[i] is None
}

/// The strings of a sequence whose elements are all strings.
pub open spec fn all_strings(items: Seq<Option<Seq<char>>>) -> Seq<Seq<char>> {
    items.map_values(|item: Option<Seq<char>>| item.unwrap())
}

/// The categories that the value under `categories` gives.
///
/// A block without the field gives the default, and so does an empty
/// sequence. A sequence of strings gives those strings. A sequence with an
/// element that is no string is an `InvalidCategory`, and a value that is no
/// sequence an `InvalidFieldShape`.
pub open spec fn categories_spec(value: MetaValueView) -> Result<Seq<Seq<char>>, SiteErrorView> {
    match value {
        MetaValueView::Missing => Ok(default_categories()),
        MetaValueView::List(items) => if has_non_string(items) {
            Err(SiteErrorView::InvalidCategory)
        } else if items.len() == 0 {
            Ok(default_categories())
        } else {
            Ok(all_strings(items))
        },
        _ => Err(SiteErrorView::InvalidFieldShape(MetaField::Categories)),
    }
}

/// The slug that the value under `title` and the stem of the file's name
/// give.
pub open spec fn slug_spec(rule: FieldRule, value: MetaValueView, stem: Seq<char>) -> Result<
    Seq<char>,
    SiteErrorView,
> {
    if rule == FieldRule::FromFile {
        Ok(stem)
    } else {
        match value {
            MetaValueView::Missing => if rule == FieldRule::Required {
                Err(SiteErrorView::MissingRequiredField(MetaField::Title))
            } else {
                Ok(stem)
            },
            MetaValueView::Text(title) => Ok(title),
            _ => Err(SiteErrorView::InvalidFieldShape(MetaField::Title)),
        }
    }
}

/// The instant that the value under `field` and the file's creation time
/// give.
pub open spec fn instant_spec(
    rule: FieldRule,
    field: MetaField,
    value: TimeValue,
    file_time: Timestamp,
) -> Result<Timestamp, SiteErrorView> {
    if rule == FieldRule::FromFile {
        Ok(file_time)
    } else {
        match value {
            TimeValue::Missing => if rule == FieldRule::Required {
                Err(SiteErrorView::MissingRequiredField(field))
            } else {
                Ok(file_time)
            },
            TimeValue::At(instant) => Ok(instant),
            TimeValue::Invalid => Err(SiteErrorView::InvalidFieldShape(field)),
        }
    }
}

/// The fields of an article, from what its metadata block holds, the stem of
/// its file's name and the file's creation time.
///
/// The fields are taken in the order `categories`, `title`, `created_at`,
/// `updated_at`, and the first that fails decides the error.
pub open spec fn resolve_spec(
    raw: RawMetadataView,
    config: IngestConfig,
    stem: Seq<char>,
    file_time: Timestamp,
) -> Result<MetadataView, SiteErrorView> {
    match categories_spec(raw.categories) {
        Err(e) => Err(e),
        Ok(categories) => match slug_spec(config.title, raw.title, stem) {
            Err(e) => Err(e),
            Ok(slug) => match instant_spec(
                config.created_at,
                MetaField::CreatedAt,
                raw.created_at,
                file_time,
            ) {
                Err(e) => Err(e),
                Ok(created_at) => match instant_spec(
                    config.updated_at,
                    MetaField::UpdatedAt,
                    raw.updated_at,
                    file_time,
                ) {
                    Err(e) => Err(e),
                    Ok(updated_at) => Ok(MetadataView { slug, created_at, updated_at, categories }),
                },
            },
        },
    }
}

/// The categories that the value under `categories` gives.
pub fn resolve_categories(value: &MetaValue) -> (resolved: Result<Vec<String>, SiteError>)
    ensures
        match resolved {
            Ok(categories) => categories_spec(value@) == Ok::<Seq<Seq<char>>, SiteErrorView>(
                strings_view(categories@),
            ),
            Err(e) => categories_spec(value@) == Err::<Seq<Seq<char>>, SiteErrorView>(e@),
        },
{
    match value {
        MetaValue::Missing => Ok(default_category_list()),
        MetaValue::List(items) => {
            let ghost texts = texts_of(items@);
            let mut categories: Vec<String> = Vec::new();
            let mut i: usize = 0;
            while i < items.len()
                invariant
                    i <= items.len(),
                    texts == texts_of(items@),
                    value@ == MetaValueView::List(texts),
                    categories.len() == i,
                    forall|j: int| 0 <= j < i ==> #[trigger] texts[j] == Some(categories@[j]@),
                decreases items.len() - i,
            {
                match &items[i] {
                    None => {
                        proof {
                            assert(texts[i as int] is None);
                            assert(has_non_string(texts));
                        }
                        return Err(SiteError::InvalidCategory);
                    },
                    Some(text) => {
                        categories.push(text.clone());
                    },
                }
                i += 1;
            }
            if categories.len() == 0 {
                Ok(default_category_list())
            } else {
                proof {
                    assert(strings_view(categories@) =~= all_strings(texts));
                }
                Ok(categories)
            }
        },
        _ => Err(SiteError::InvalidFieldShape(MetaField::Categories)),
    }
}

/// The slug that the value under `title` and the stem of the file's name
/// give.
pub fn resolve_slug(rule: FieldRule, value: &MetaValue, stem: &str) -> (resolved: Result<String, SiteError>)
    ensures
        match resolved {
            Ok(slug) => slug_spec(rule, value@, stem@) == Ok::<Seq<char>, SiteErrorView>(slug@),
            Err(e) => slug_spec(rule, value@, stem@) == Err::<Seq<char>, SiteErrorView>(e@),
        },
{
    match rule {
        FieldRule::FromFile => Ok(String::from_str(stem)),
        _ => match value {
            MetaValue::Missing => match rule {
                FieldRule::Required => Err(SiteError::MissingRequiredField(MetaField::Title)),
                _ => Ok(String::from_str(stem)),
            },
            MetaValue::Text(title) => Ok(title.clone()),
            _ => Err(SiteError::InvalidFieldShape(MetaField::Title)),
        },
    }
}

/// The instant that the value under `field` and the file's creation time
/// give.
pub fn resolve_instant(
    rule: FieldRule,
    field: MetaField,
    value: TimeValue,
    file_time: Timestamp,
) -> (resolved: Result<Timestamp, SiteError>)
    ensures
        match resolved {
            Ok(instant) => instant_spec(rule, field, value, file_time) == Ok::<
                Timestamp,
                SiteErrorView,
            >(instant),
            Err(e) => instant_spec(rule, field, value, file_time) == Err::<Timestamp, SiteErrorView>(
                e@,
            ),
        },
{
    match rule {
        FieldRule::FromFile => Ok(file_time),
        _ => match value {
            TimeValue::Missing => match rule {
                FieldRule::Required => Err(SiteError::MissingRequiredField(field)),
                _ => Ok(file_time),
            },
            TimeValue::At(instant) => Ok(instant),
            TimeValue::Invalid => Err(SiteError::InvalidFieldShape(field)),
        },
    }
}

/// The fields of an article, from what its metadata block holds, the stem of
/// its file's name and the file's creation time.
pub fn resolve_metadata(
    raw: &RawMetadata,
    config: &IngestConfig,
    stem: &str,
    file_time: Timestamp,
) -> (resolved: Result<Metadata, SiteError>)
    ensures
        match resolved {
            Ok(metadata) => resolve_spec(raw@, *config, stem@, file_time) == Ok::<
                MetadataView,
                SiteErrorView,
            >(metadata@),
            Err(e) => resolve_spec(raw@, *config, stem@, file_time) == Err::<
                MetadataView,
                SiteErrorView,
            >(e@),
        },
{
    let categories = resolve_categories(&raw.categories)?;
    let slug = resolve_slug(config.title, &raw.title, stem)?;
    let created_at = resolve_instant(
        config.created_at,
        MetaField::CreatedAt,
        raw.created_at,
        file_time,
    )?;
    let updated_at = resolve_instant(
        config.updated_at,
        MetaField::UpdatedAt,
        raw.updated_at,
        file_time,
    )?;
    Ok(Metadata { slug, created_at, updated_at, categories })
}

} // verus!
