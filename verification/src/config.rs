//! What a site asks of its content files.

use vstd::prelude::*;

verus! {

/// Where a field of an article comes from.
#[derive(Clone, Copy, Debug, PartialEq, Eq, Structural)]
pub enum FieldRule {
    /// From the file itself, its name or its creation time. The metadata
    /// block is not asked.
    FromFile,
    /// From the metadata block where the block has the field, else from the
    /// file.
    Optional,
    /// From the metadata block, which must have the field.
    Required,
}

/// The rules by which content files are ingested.
#[derive(Clone, Copy, Debug, PartialEq, Eq, Structural)]
pub struct IngestConfig {
    /// A file without a metadata block is rejected.
    pub front_matter_required: bool,
    /// Where the slug comes from: the `title` field or the file's name.
    pub title: FieldRule,
    /// Where `created_at` comes from: the field or the file's creation time.
    pub created_at: FieldRule,
    /// Where `updated_at` comes from: the field or the file's creation time.
    pub updated_at: FieldRule,
    /// Whether the markdown renderer reads footnotes.
    pub footnotes: bool,
}

impl IngestConfig {
    /// Metadata is optional: a file needs no metadata block and no field of
    /// one.
    pub open spec fn metadata_optional(self) -> bool {
        &&& !self.front_matter_required
        &&& self.title != FieldRule::Required
        &&& self.created_at != FieldRule::Required
        &&& self.updated_at != FieldRule::Required
    }

    /// Every file needs a metadata block, which is asked for its
    /// categories only: slug and times come from the file.
    pub fn from_files() -> (config: IngestConfig)
        ensures
            config == (IngestConfig {
                front_matter_required: true,
                title: FieldRule::FromFile,
                created_at: FieldRule::FromFile,
                updated_at: FieldRule::FromFile,
                footnotes: true,
            }),
    {
        IngestConfig {
            front_matter_required: true,
            title: FieldRule::FromFile,
            created_at: FieldRule::FromFile,
            updated_at: FieldRule::FromFile,
            footnotes: true,
        }
    }

    /// No file needs a metadata block; a field that a block has wins over
    /// what the file gives.
    pub fn optional() -> (config: IngestConfig)
        ensures
            config.metadata_optional(),
            config == (IngestConfig {
                front_matter_required: false,
                title: FieldRule::Optional,
                created_at: FieldRule::Optional,
                updated_at: FieldRule::Optional,
                footnotes: true,
            }),
    {
        IngestConfig {
            front_matter_required: false,
            title: FieldRule::Optional,
            created_at: FieldRule::Optional,
            updated_at: FieldRule::Optional,
            footnotes: true,
        }
    }

    /// Every file needs a metadata block with `title`, `created_at` and
    /// `updated_at`.
    pub fn strict() -> (config: IngestConfig)
        ensures
            config == (IngestConfig {
                front_matter_required: true,
                title: FieldRule::Required,
                created_at: FieldRule::Required,
                updated_at: FieldRule::Required,
                footnotes: true,
            }),
    {
        IngestConfig {
            front_matter_required: true,
            title: FieldRule::Required,
            created_at: FieldRule::Required,
            updated_at: FieldRule::Required,
            footnotes: true,
        }
    }
}

} // verus!
