//! The ingestion of one content file into one article.

use crate::article::default_categories;
use crate::article::Article;
use crate::article::ArticleView;
use crate::config::IngestConfig;
use crate::error::SiteError;
use crate::error::SiteErrorView;
use crate::front_matter::has_closing_marker;
use crate::front_matter::opens_with_marker;
use crate::front_matter::split_front_matter;
use crate::front_matter::split_spec;
use crate::markdown::markdown_html;
use crate::markdown::render_markdown;
use crate::markdown::standard_extensions;
use crate::markdown::Extensions;
use crate::metadata::absent_spec;
use crate::metadata::categories_spec;
use crate::metadata::has_non_string;
use crate::metadata::read_metadata;
use crate::metadata::read_spec;
use crate::metadata::resolve_metadata;
use crate::metadata::resolve_spec;
use crate::metadata::MetaValueView;
use crate::metadata::RawMetadata;
use crate::metadata::RawMetadataView;
use crate::store::has_slug;
use crate::store::unique_slugs;
use crate::store::ArticleStore;
use crate::text::file_stem;
use crate::text::stem_of;
use crate::time::Timestamp;
use vstd::prelude::*;

verus! {

/// What the metadata block of a file holds under the four keys. A file
/// without a block holds nothing, unless the configuration requires a block:
/// then it is malformed.
pub open spec fn raw_spec(block: Option<Seq<char>>, config: IngestConfig) -> Result<
    RawMetadataView,
    SiteErrorView,
> {
    match block {
        None => if config.front_matter_required {
            Err(SiteErrorView::MalformedFrontMatter)
        } else {
            Ok(absent_spec())
        },
        Some(text) => match read_spec(text) {
            None => Err(SiteErrorView::MetadataSyntaxError),
            Some(raw) => Ok(raw),
        },
    }
}

/// The article that a content file becomes, or the error that ends the run.
///
/// The text is split, its metadata block read and resolved against the
/// file's name and creation time, and its body rendered. The first step that
/// fails decides the error.
pub open spec fn ingest_spec(
    file_name: Seq<char>,
    text: Seq<char>,
    file_time: Timestamp,
    config: IngestConfig,
) -> Result<ArticleView, SiteErrorView> {
    match split_spec(text) {
        None => Err(SiteErrorView::MalformedFrontMatter),
        Some(parts) => match raw_spec(parts.metadata, config) {
            Err(e) => Err(e),
            Ok(raw) => match resolve_spec(raw, config, stem_of(file_name), file_time) {
                Err(e) => Err(e),
                Ok(metadata) => Ok(
                    ArticleView {
                        slug: metadata.slug,
                        created_at: metadata.created_at,
                        updated_at: metadata.updated_at,
                        categories: metadata.categories,
                        content_html: markdown_html(
                            parts.body,
                            standard_extensions(config.footnotes),
                        ),
                    },
                ),
            },
        },
    }
}

/// The categories that a metadata block gives are never empty.
pub proof fn lemma_categories_never_empty(value: MetaValueView)
    ensures
        categories_spec(value) matches Ok(categories) ==> categories.len() > 0,
{
}

/// Ingests one content file: the text of the file named `file_name`, which
/// was created at `file_time`.
pub fn ingest_file(
    file_name: &str,
    text: &str,
    file_time: Timestamp,
    config: &IngestConfig,
) -> (ingested: Result<Article, SiteError>)
    ensures
        match ingested {
            Ok(article) => ingest_spec(file_name@, text@, file_time, *config) == Ok::<
                ArticleView,
                SiteErrorView,
            >(article@),
            Err(e) => ingest_spec(file_name@, text@, file_time, *config) == Err::<
                ArticleView,
                SiteErrorView,
            >(e@),
        },
{
    let parts = split_front_matter(text)?;
    let raw = match &parts.metadata {
        None => {
            if config.front_matter_required {
                return Err(SiteError::MalformedFrontMatter);
            }
            RawMetadata::absent()
        },
        Some(block) => read_metadata(block.as_str())?,
    };
    let stem = file_stem(file_name);
    let metadata = resolve_metadata(&raw, config, stem.as_str(), file_time)?;
    let html = render_markdown(parts.body.as_str(), Extensions::standard(config.footnotes));
    proof {
        lemma_categories_never_empty(raw@.categories);
    }
    Ok(
        Article::new(
            metadata.slug,
            metadata.created_at,
            metadata.updated_at,
            metadata.categories,
            html,
        ),
    )
}

/// A file without a metadata block, where metadata is optional, is ingested
/// with the default categories and the stem of its name as slug.
pub proof fn lemma_file_without_metadata(
    file_name: Seq<char>,
    text: Seq<char>,
    file_time: Timestamp,
    config: IngestConfig,
)
    requires
        !opens_with_marker(text),
        config.metadata_optional(),
    ensures
        ingest_spec(file_name, text, file_time, config) matches Ok(article)
            && article.categories == default_categories() && article.slug == stem_of(file_name),
{
}

/// A file that opens a metadata block and never closes it is malformed,
/// whatever the configuration.
pub proof fn lemma_unclosed_block_is_malformed(
    file_name: Seq<char>,
    text: Seq<char>,
    file_time: Timestamp,
    config: IngestConfig,
)
    requires
        opens_with_marker(text),
        !has_closing_marker(text),
    ensures
        ingest_spec(file_name, text, file_time, config) == Err::<ArticleView, SiteErrorView>(
            SiteErrorView::MalformedFrontMatter,
        ),
{
}

/// A file whose metadata block can be read and holds, under `categories`, a
/// sequence with an element that is no string is rejected with
/// `InvalidCategory`, whatever else the block holds and whatever the
/// configuration. A block can be read where it is well-formed and nests no
/// deeper than the decoder goes.
pub proof fn lemma_non_string_category_is_invalid(
    file_name: Seq<char>,
    text: Seq<char>,
    file_time: Timestamp,
    config: IngestConfig,
)
    requires
        split_spec(text) matches Some(parts) && parts.metadata matches Some(block) && read_spec(
            block,
        ) matches Some(raw) && raw.categories matches MetaValueView::List(items) && has_non_string(
            items,
        ),
    ensures
        ingest_spec(file_name, text, file_time, config) == Err::<ArticleView, SiteErrorView>(
            SiteErrorView::InvalidCategory,
        ),
{
}

/// A content file as it was read: its name, its text and when it was
/// created.
#[derive(Clone, Debug, PartialEq, Eq)]
pub struct SourceFile {
    pub name: String,
    pub text: String,
    pub created: Timestamp,
}

/// A [`SourceFile`] as contracts see it.
pub struct SourceFileView {
    pub name: Seq<char>,
    pub text: Seq<char>,
    pub created: Timestamp,
}

impl View for SourceFile {
    type V = SourceFileView;

    open spec fn view(&self) -> SourceFileView {
        SourceFileView { name: self.name@, text: self.text@, created: self.created }
    }
}

/// The files of a sequence, as contracts see them.
pub open spec fn files_view(files: Seq<SourceFile>) -> Seq<SourceFileView> {
    files.map_values(|file: SourceFile| file@)
}

/// The article that one file becomes.
pub open spec fn ingest_one_spec(file: SourceFileView, config: IngestConfig) -> Result<
    ArticleView,
    SiteErrorView,
> {
    ingest_spec(file.name, file.text, file.created, config)
}

/// The articles that the files become, in the order of the files, or the
/// error that ends the pass: that of the first file that is not ingested, or
/// whose slug a file before it has.
pub open spec fn ingest_all_spec(files: Seq<SourceFileView>, config: IngestConfig) -> Result<
    Seq<ArticleView>,
    SiteErrorView,
>
    decreases files.len(),
{
    if files.len() == 0 {
        Ok(Seq::empty())
    } else {
        match ingest_all_spec(files.drop_last(), config) {
            Err(e) => Err(e),
            Ok(articles) => match ingest_one_spec(files.last(), config) {
                Err(e) => Err(e),
                Ok(article) => if has_slug(articles, article.slug) {
                    Err(SiteErrorView::DuplicateSlug(article.slug))
                } else {
                    Ok(articles.push(article))
                },
            },
        }
    }
}

/// A pass that fails on some of its first files fails on all of them, with
/// the same error: the first failure ends the pass.
pub proof fn lemma_first_failure_ends_the_pass(
    files: Seq<SourceFileView>,
    config: IngestConfig,
    n: int,
)
    requires
        0 <= n <= files.len(),
        ingest_all_spec(files.take(n), config) is Err,
    ensures
        ingest_all_spec(files, config) == ingest_all_spec(files.take(n), config),
    decreases files.len() - n,
{
    if n < files.len() {
        assert(files.take(n + 1).drop_last() =~= files.take(n));
        lemma_first_failure_ends_the_pass(files, config, n + 1);
    } else {
        assert(files.take(n) =~= files);
    }
}

/// A pass that succeeds gives one article for each file, in the order of the
/// files, each as its file alone would give it, and no slug twice.
pub proof fn lemma_pass_gives_one_article_for_each_file(
    files: Seq<SourceFileView>,
    config: IngestConfig,
)
    ensures
        ingest_all_spec(files, config) matches Ok(articles) ==> {
            &&& articles.len() == files.len()
            &&& unique_slugs(articles)
            &&& forall|i: int|
                0 <= i < files.len() ==> ingest_one_spec(#[trigger] files[i], config) == Ok::<
                    ArticleView,
                    SiteErrorView,
                >(articles[i])
        },
    decreases files.len(),
{
    if files.len() > 0 {
        let front = files.drop_last();
        lemma_pass_gives_one_article_for_each_file(front, config);
        if let Ok(articles) = ingest_all_spec(files, config) {
            let earlier = ingest_all_spec(front, config)->Ok_0;
            assert(articles == earlier.push(articles.last()));
            assert forall|i: int| 0 <= i < files.len() implies ingest_one_spec(
                #[trigger] files[i],
                config,
            ) == Ok::<ArticleView, SiteErrorView>(articles[i]) by {
                if i < front.len() {
                    assert(files[i] == front[i]);
                    assert(articles[i] == earlier[i]);
                }
            }
            assert forall|i: int, j: int| 0 <= i < j < articles.len() implies #[trigger] articles[i].slug
                != #[trigger] articles[j].slug by {
                assert(articles[i] == earlier[i]);
                if j < earlier.len() {
                    assert(articles[j] == earlier[j]);
                }
            }
        }
    }
}

/// Ingests the files of a pass into a store, in their order.
///
/// Fails with the error of the first file that is not ingested or whose slug
/// a file before it has. No file is skipped.
pub fn ingest_all(files: &Vec<SourceFile>, config: &IngestConfig) -> (built: Result<
    ArticleStore,
    SiteError,
>)
    ensures
        match built {
            Ok(store) => ingest_all_spec(files_view(files@), *config) == Ok::<
                Seq<ArticleView>,
                SiteErrorView,
            >(store@),
            Err(e) => ingest_all_spec(files_view(files@), *config) == Err::<
                Seq<ArticleView>,
                SiteErrorView,
            >(e@),
        },
{
    let ghost all = files_view(files@);
    let mut store = ArticleStore::new();
    let mut i: usize = 0;
    proof {
        assert(all.take(0) =~= Seq::<SourceFileView>::empty());
    }
    while i < files.len()
        invariant
            i <= files.len(),
            all == files_view(files@),
            ingest_all_spec(all.take(i as int), *config) == Ok::<Seq<ArticleView>, SiteErrorView>(
                store@,
            ),
        decreases files.len() - i,
    {
        let file = &files[i];
        proof {
            assert(all.take(i + 1).drop_last() =~= all.take(i as int));
            assert(all.take(i + 1).last() == file@);
        }
        let article = match ingest_file(
            file.name.as_str(),
            file.text.as_str(),
            file.created,
            config,
        ) {
            Ok(article) => article,
            Err(e) => {
                proof {
                    lemma_first_failure_ends_the_pass(all, *config, i + 1);
                }
                return Err(e);
            },
        };
        match store.insert(article) {
            Ok(_) => {},
            Err(e) => {
                proof {
                    lemma_first_failure_ends_the_pass(all, *config, i + 1);
                }
                return Err(e);
            },
        }
        i += 1;
    }
    proof {
        assert(all.take(i as int) =~= all);
    }
    Ok(store)
}

} // verus!
