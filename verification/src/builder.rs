//! The site as a plan: which directories to make, which assets to copy and
//! which pages to write, in that order. Carrying the plan out is left to the
//! caller.

use crate::article::Article;
use crate::article::ArticleView;
use crate::error::SiteError;
use crate::error::SiteErrorView;
use crate::store::borrowed_view;
use crate::store::has_slug;
use crate::store::is_chronological;
use crate::store::unique_slugs;
use crate::store::ArticleStore;
use crate::text::replace_all;
use crate::text::replaced;
use crate::text::str_equal;
use crate::text::strings_view;
use vstd::prelude::*;
use vstd::string::StringExecFns;

verus! {

/// The name of the page template among the static assets.
pub const TEMPLATE_NAME: &'static str = "template.html";

/// The marker of the template that the body of an article replaces.
pub const BODY_PLACEHOLDER: &'static str = "<article></article>";

/// The marker of the template that the social metadata of an article
/// replaces.
pub const OGP_PLACEHOLDER: &'static str = "<ogp></ogp>";

/// What stands before the rendered body of an article in its container
/// element.
pub const BODY_OPEN: &'static str = "<article>\n                ";

/// What stands behind the rendered body of an article.
pub const BODY_CLOSE: &'static str = "\n    </article>";

/// The social metadata of an article up to its title: the site's URL and the
/// type of the content.
pub const OGP_OPEN: &'static str =
    "\n<meta property=\"og:url\" content=\"https://wizlite.jp\">\n<meta property=\"og:type\" content=\"website\">\n<meta property=\"og:title\" content=\"";

/// The social metadata of an article behind its title: the site's image and
/// name, and the tags of the social card.
pub const OGP_CLOSE: &'static str =
    "\">\n<meta property=\"og:image\" content=\"ogp.png\">\n<meta property=\"og:site_name\" content=\"Neuromancy\">\n<meta name=\"twitter:card\" content=\"summary\" />\n<meta name=\"twitter:site\" content=\"@wizlightyear\" />\n<meta name=\"twitter:player\" content=\"@wizlightyear\" />\n                ";

/// The rendered body of an article in its container element.
pub open spec fn body_block(content_html: Seq<char>) -> Seq<char> {
    BODY_OPEN@ + content_html + BODY_CLOSE@
}

/// The social metadata of an article, with the slug for its title.
pub open spec fn ogp_block(title: Seq<char>) -> Seq<char> {
    OGP_OPEN@ + title + OGP_CLOSE@
}

/// The page of an article: the template with every body marker replaced by
/// the article's body block, and then every metadata marker by its metadata
/// block. A template without a marker stays as it is there.
pub open spec fn page_spec(template: Seq<char>, article: ArticleView) -> Seq<char> {
    replaced(
        replaced(template, BODY_PLACEHOLDER@, body_block(article.content_html)),
        OGP_PLACEHOLDER@,
        ogp_block(article.slug),
    )
}

/// Where a static asset goes: into the output directory, under its name.
pub open spec fn asset_path_spec(output_dir: Seq<char>, name: Seq<char>) -> Seq<char> {
    output_dir + "/"@ + name
}

/// The directory of the pages, below the output directory.
pub open spec fn articles_dir_spec(output_dir: Seq<char>) -> Seq<char> {
    output_dir + "/articles"@
}

/// Where the page of the article with this slug goes.
pub open spec fn page_path_spec(output_dir: Seq<char>, slug: Seq<char>) -> Seq<char> {
    output_dir + "/articles/"@ + slug + ".html"@
}

/// Whether the file of this name is the page template.
pub fn is_template(name: &str) -> (is: bool)
    ensures
        is == (name@ == TEMPLATE_NAME@),
{
    str_equal(name, TEMPLATE_NAME)
}

/// Where a static asset goes: into the output directory, under its name.
pub fn asset_path(output_dir: &str, name: &str) -> (path: String)
    ensures
        path@ == asset_path_spec(output_dir@, name@),
{
    let mut path = String::from_str(output_dir);
    path.append("/");
    path.append(name);
    path
}

/// The directory of the pages, below the output directory.
pub fn articles_dir(output_dir: &str) -> (path: String)
    ensures
        path@ == articles_dir_spec(output_dir@),
{
    let mut path = String::from_str(output_dir);
    path.append("/articles");
    path
}

/// Where the page of the article with this slug goes.
pub fn page_path(output_dir: &str, slug: &str) -> (path: String)
    ensures
        path@ == page_path_spec(output_dir@, slug@),
{
    let mut path = String::from_str(output_dir);
    path.append("/articles/");
    path.append(slug);
    path.append(".html");
    path
}

/// The page of an article, from the template.
pub fn render_page(template: &str, article: &Article) -> (html: String)
    ensures
        html@ == page_spec(template@, article@),
{
    let mut body = String::from_str(BODY_OPEN);
    body.append(article.content_html().as_str());
    body.append(BODY_CLOSE);
    let mut ogp = String::from_str(OGP_OPEN);
    ogp.append(article.slug().as_str());
    ogp.append(OGP_CLOSE);
    let with_body = replace_all(template, BODY_PLACEHOLDER, body.as_str());
    replace_all(with_body.as_str(), OGP_PLACEHOLDER, ogp.as_str())
}

/// One page of the site.
#[derive(Clone, Debug, PartialEq, Eq)]
pub struct Page {
    /// Where the page goes.
    pub path: String,
    /// What it holds.
    pub html: String,
}

/// A [`Page`] as contracts see it.
pub struct PageView {
    pub path: Seq<char>,
    pub html: Seq<char>,
}

impl View for Page {
    type V = PageView;

    open spec fn view(&self) -> PageView {
        PageView { path: self.path@, html: self.html@ }
    }
}

/// The pages of a sequence, as contracts see them.
pub open spec fn pages_view(pages: Seq<Page>) -> Seq<PageView> {
    pages.map_values(|page: Page| page@)
}

/// The page of an article, and where it goes.
pub open spec fn page_of(output_dir: Seq<char>, template: Seq<char>, article: ArticleView) -> PageView {
    PageView {
        path: page_path_spec(output_dir, article.slug),
        html: page_spec(template, article),
    }
}

/// The pages of the articles, one for each and in their order.
pub open spec fn pages_spec(
    output_dir: Seq<char>,
    articles: Seq<ArticleView>,
    template: Seq<char>,
) -> Seq<PageView> {
    Seq::new(articles.len(), |i: int| page_of(output_dir, template, articles[i]))
}

/// The article at position `j` is the first whose slug an earlier article
/// has too.
pub open spec fn is_first_duplicate(articles: Seq<ArticleView>, j: int) -> bool {
    &&& 0 <= j < articles.len()
    &&& unique_slugs(articles.take(j))
    &&& has_slug(articles.take(j), articles[j].slug)
}

/// The position of the first article whose slug an earlier article has too;
/// `None` where no two articles have the same slug.
pub fn first_duplicate(articles: &Vec<&Article>) -> (found: Option<usize>)
    ensures
        match found {
            Some(j) => is_first_duplicate(borrowed_view(articles@), j as int),
            None => unique_slugs(borrowed_view(articles@)),
        },
{
    let ghost all = borrowed_view(articles@);
    let mut j: usize = 0;
    while j < articles.len()
        invariant
            all == borrowed_view(articles@),
            j <= articles.len(),
            unique_slugs(all.take(j as int)),
        decreases articles.len() - j,
    {
        let mut i: usize = 0;
        while i < j
            invariant
                all == borrowed_view(articles@),
                i <= j < articles.len(),
                unique_slugs(all.take(j as int)),
                forall|k: int| 0 <= k < i ==> (#[trigger] all[k]).slug != all[j as int].slug,
            decreases j - i,
        {
            assert(all[i as int] == articles@[i as int]@);
            assert(all[j as int] == articles@[j as int]@);
            if str_equal(articles[i].slug().as_str(), articles[j].slug().as_str()) {
                proof {
                    assert(all.take(j as int)[i as int].slug == all[j as int].slug);
                }
                return Some(j);
            }
            i += 1;
        }
        proof {
            assert(all.take(j + 1) =~= all.take(j as int).push(all[j as int]));
        }
        j += 1;
    }
    proof {
        assert(all.take(j as int) =~= all);
    }
    None
}

/// The pages of the first `count` of the articles, one for each and in their
/// order, from the template.
fn render_first_pages(
    output_dir: &str,
    articles: &Vec<&Article>,
    template: &str,
    count: usize,
) -> (pages: Vec<Page>)
    requires
        count <= articles.len(),
    ensures
        pages_view(pages@) == pages_spec(
            output_dir@,
            borrowed_view(articles@).take(count as int),
            template@,
        ),
{
    let ghost first = borrowed_view(articles@).take(count as int);
    let ghost expected = pages_spec(output_dir@, first, template@);
    let mut pages: Vec<Page> = Vec::new();
    let mut j: usize = 0;
    while j < count
        invariant
            count <= articles.len(),
            first == borrowed_view(articles@).take(count as int),
            expected == pages_spec(output_dir@, first, template@),
            j <= count,
            pages.len() == j,
            forall|k: int| 0 <= k < j ==> (#[trigger] pages@[k])@ == expected[k],
        decreases count - j,
    {
        let article = articles[j];
        assert(first[j as int] == article@);
        pages.push(
            Page {
                path: page_path(output_dir, article.slug().as_str()),
                html: render_page(template, article),
            },
        );
        j += 1;
    }
    proof {
        assert(pages_view(pages@) =~= expected);
    }
    pages
}

/// The pages of the articles, one for each and in their order, from the
/// template.
pub fn render_pages(output_dir: &str, articles: &Vec<&Article>, template: &str) -> (pages: Vec<Page>)
    ensures
        pages_view(pages@) == pages_spec(output_dir@, borrowed_view(articles@), template@),
{
    proof {
        assert(borrowed_view(articles@).take(articles.len() as int) =~= borrowed_view(articles@));
    }
    render_first_pages(output_dir, articles, template, articles.len())
}

/// The pages of the articles up to the first that repeats a slug, and the
/// error that this article is.
///
/// Where no two articles have the same slug, every article has its page and
/// there is no error. Otherwise the pages are those of the articles before
/// the first that repeats a slug: they can be written, and the page of that
/// article would go where one of them is.
pub fn generate_until_duplicate(
    output_dir: &str,
    articles: &Vec<&Article>,
    template: &str,
) -> (out: (Vec<Page>, Option<SiteError>))
    ensures
        match out.1 {
            None => unique_slugs(borrowed_view(articles@)) && pages_view(out.0@) == pages_spec(
                output_dir@,
                borrowed_view(articles@),
                template@,
            ),
            Some(e) => exists|j: int| #[trigger]
                is_first_duplicate(borrowed_view(articles@), j) && e@
                    == SiteErrorView::DuplicateSlug(borrowed_view(articles@)[j].slug)
                    && pages_view(out.0@) == pages_spec(
                    output_dir@,
                    borrowed_view(articles@).take(j),
                    template@,
                ),
        },
{
    match first_duplicate(articles) {
        Some(j) => {
            assert(borrowed_view(articles@)[j as int] == articles@[j as int]@);
            let pages = render_first_pages(output_dir, articles, template, j);
            let error = SiteError::DuplicateSlug(articles[j].slug().clone());
            assert(is_first_duplicate(borrowed_view(articles@), j as int));
            (pages, Some(error))
        },
        None => (render_pages(output_dir, articles, template), None),
    }
}

/// The pages of the articles, one for each and in their order, from the
/// template.
///
/// Fails with `DuplicateSlug` exactly when two of the articles have the same
/// slug, and names the slug of the first article that repeats one: its page
/// would go where the page of an earlier article is.
pub fn generate_articles(
    output_dir: &str,
    articles: &Vec<&Article>,
    template: &str,
) -> (generated: Result<Vec<Page>, SiteError>)
    ensures
        match generated {
            Ok(pages) => unique_slugs(borrowed_view(articles@)) && pages_view(pages@) == pages_spec(
                output_dir@,
                borrowed_view(articles@),
                template@,
            ),
            Err(e) => exists|j: int| #[trigger]
                is_first_duplicate(borrowed_view(articles@), j) && e@
                    == SiteErrorView::DuplicateSlug(borrowed_view(articles@)[j].slug),
        },
{
    match first_duplicate(articles) {
        Some(j) => {
            assert(borrowed_view(articles@)[j as int] == articles@[j as int]@);
            Err(SiteError::DuplicateSlug(articles[j].slug().clone()))
        },
        None => Ok(render_pages(output_dir, articles, template)),
    }
}

/// One step of building the site.
#[derive(Clone, Debug, PartialEq, Eq)]
pub enum BuildStep {
    /// Remove the directory with all that is in it, if it is there, and make
    /// it anew.
    ResetDir { path: String },
    /// Copy the static asset of this name to this path.
    CopyAsset { name: String, to: String },
    /// Make the directory.
    CreateDir { path: String },
    /// Write the page to this path, where no file is yet.
    WritePage { path: String, html: String },
}

/// A [`BuildStep`] as contracts see it.
pub enum BuildStepView {
    ResetDir { path: Seq<char> },
    CopyAsset { name: Seq<char>, to: Seq<char> },
    CreateDir { path: Seq<char> },
    WritePage { path: Seq<char>, html: Seq<char> },
}

impl View for BuildStep {
    type V = BuildStepView;

    open spec fn view(&self) -> BuildStepView {
        match self {
            BuildStep::ResetDir { path } => BuildStepView::ResetDir { path: path@ },
            BuildStep::CopyAsset { name, to } => BuildStepView::CopyAsset { name: name@, to: to@ },
            BuildStep::CreateDir { path } => BuildStepView::CreateDir { path: path@ },
            BuildStep::WritePage { path, html } => BuildStepView::WritePage {
                path: path@,
                html: html@,
            },
        }
    }
}

/// The steps of a sequence, as contracts see them.
pub open spec fn steps_view(steps: Seq<BuildStep>) -> Seq<BuildStepView> {
    steps.map_values(|step: BuildStep| step@)
}

/// The copying of the static assets: one step for each name but that of the
/// template, in the order of the names.
pub open spec fn copy_steps(output_dir: Seq<char>, names: Seq<Seq<char>>) -> Seq<BuildStepView>
    decreases names.len(),
{
    if names.len() == 0 {
        Seq::empty()
    } else {
        let earlier = copy_steps(output_dir, names.drop_last());
        if names.last() == TEMPLATE_NAME@ {
            earlier
        } else {
            earlier.push(
                BuildStepView::CopyAsset {
                    name: names.last(),
                    to: asset_path_spec(output_dir, names.last()),
                },
            )
        }
    }
}

/// The writing of the pages, one step for each and in their order.
pub open spec fn page_steps(pages: Seq<PageView>) -> Seq<BuildStepView> {
    Seq::new(
        pages.len(),
        |i: int| BuildStepView::WritePage { path: pages[i].path, html: pages[i].html },
    )
}

/// The steps of a clean build with these pages, in order: the output
/// directory is made anew, the static assets but the template are copied into
/// it, the directory of the pages is made, and each page is written.
pub open spec fn steps_spec(
    output_dir: Seq<char>,
    asset_names: Seq<Seq<char>>,
    pages: Seq<PageView>,
) -> Seq<BuildStepView> {
    seq![BuildStepView::ResetDir { path: output_dir }] + copy_steps(output_dir, asset_names)
        + seq![BuildStepView::CreateDir { path: articles_dir_spec(output_dir) }] + page_steps(
        pages,
    )
}

/// The steps of a clean build of the site of these articles, their pages in
/// the order of the articles.
pub open spec fn plan_spec(
    output_dir: Seq<char>,
    asset_names: Seq<Seq<char>>,
    articles: Seq<ArticleView>,
    template: Seq<char>,
) -> Seq<BuildStepView> {
    steps_spec(output_dir, asset_names, pages_spec(output_dir, articles, template))
}

/// The steps of a clean build with these pages.
pub fn plan_steps(
    output_dir: &str,
    asset_names: &Vec<String>,
    pages: Vec<Page>,
) -> (steps: Vec<BuildStep>)
    ensures
        steps_view(steps@) == steps_spec(
            output_dir@,
            strings_view(asset_names@),
            pages_view(pages@),
        ),
{
    let ghost names = strings_view(asset_names@);
    let ghost wanted = pages_view(pages@);
    let mut steps: Vec<BuildStep> = Vec::new();
    steps.push(BuildStep::ResetDir { path: String::from_str(output_dir) });
    let ghost head = steps_view(steps@);
    proof {
        assert(head =~= seq![BuildStepView::ResetDir { path: output_dir@ }]);
        assert(names.take(0) =~= Seq::<Seq<char>>::empty());
        assert(steps_view(steps@) =~= head + copy_steps(output_dir@, names.take(0)));
    }
    let mut i: usize = 0;
    while i < asset_names.len()
        invariant
            i <= asset_names.len(),
            names == strings_view(asset_names@),
            steps_view(steps@) == head + copy_steps(output_dir@, names.take(i as int)),
        decreases asset_names.len() - i,
    {
        let name = &asset_names[i];
        proof {
            assert(names.take(i + 1).drop_last() =~= names.take(i as int));
            assert(names.take(i + 1).last() == name@);
        }
        if !is_template(name.as_str()) {
            let ghost before = steps@;
            steps.push(
                BuildStep::CopyAsset {
                    name: name.clone(),
                    to: asset_path(output_dir, name.as_str()),
                },
            );
            proof {
                assert(steps_view(steps@) =~= steps_view(before).push(steps@.last()@));
                assert(steps_view(steps@) =~= head + copy_steps(output_dir@, names.take(i + 1)));
            }
        }
        i += 1;
    }
    proof {
        assert(names.take(i as int) =~= names);
    }
    let ghost copied = steps_view(steps@);
    steps.push(BuildStep::CreateDir { path: articles_dir(output_dir) });
    let ghost prepared = steps_view(steps@);
    proof {
        assert(prepared =~= copied + seq![
            BuildStepView::CreateDir { path: articles_dir_spec(output_dir@) },
        ]);
        assert(page_steps(wanted.take(0)) =~= Seq::<BuildStepView>::empty());
        assert(steps_view(steps@) =~= prepared + page_steps(wanted.take(0)));
    }
    for page in it: pages
        invariant
            it.seq().len() == wanted.len(),
            forall|j: int| 0 <= j < wanted.len() ==> (#[trigger] it.seq()[j])@ == wanted[j],
            steps_view(steps@) == prepared + page_steps(wanted.take(it.index())),
    {
        let ghost before = steps@;
        let ghost k = it.index();
        steps.push(BuildStep::WritePage { path: page.path, html: page.html });
        proof {
            assert(steps_view(steps@) =~= steps_view(before).push(steps@.last()@));
            assert(page_steps(wanted.take(k + 1)) =~= page_steps(wanted.take(k)).push(
                steps@.last()@,
            ));
            assert(steps_view(steps@) =~= prepared + page_steps(wanted.take(k + 1)));
        }
    }
    proof {
        assert(wanted.take(wanted.len() as int) =~= wanted);
    }
    steps
}

/// Plans a clean build of the site into `output_dir` as far as it can be
/// carried out, and gives the error that ends it.
///
/// Where no two articles have the same slug, the plan is whole and there is
/// no error. Otherwise the plan ends with the page of the last article before
/// the first that repeats a slug: carried out, it leaves the pages that were
/// written in place, and none is written over.
pub fn plan_until_duplicate(
    output_dir: &str,
    asset_names: &Vec<String>,
    articles: &Vec<&Article>,
    template: &str,
) -> (out: (Vec<BuildStep>, Option<SiteError>))
    ensures
        match out.1 {
            None => unique_slugs(borrowed_view(articles@)) && steps_view(out.0@) == plan_spec(
                output_dir@,
                strings_view(asset_names@),
                borrowed_view(articles@),
                template@,
            ),
            Some(e) => exists|j: int| #[trigger]
                is_first_duplicate(borrowed_view(articles@), j) && e@
                    == SiteErrorView::DuplicateSlug(borrowed_view(articles@)[j].slug)
                    && steps_view(out.0@) == plan_spec(
                    output_dir@,
                    strings_view(asset_names@),
                    borrowed_view(articles@).take(j),
                    template@,
                ),
        },
{
    let (pages, error) = generate_until_duplicate(output_dir, articles, template);
    (plan_steps(output_dir, asset_names, pages), error)
}

/// Plans a clean build of the site into `output_dir`: from the names of the
/// static assets, the articles in the order in which their pages are to be
/// written, and the text of the template.
///
/// Fails with `DuplicateSlug`, as [`generate_articles`] does, exactly when
/// two of the articles have the same slug. Nothing is planned then.
pub fn plan_site(
    output_dir: &str,
    asset_names: &Vec<String>,
    articles: &Vec<&Article>,
    template: &str,
) -> (planned: Result<Vec<BuildStep>, SiteError>)
    ensures
        match planned {
            Ok(steps) => unique_slugs(borrowed_view(articles@)) && steps_view(steps@) == plan_spec(
                output_dir@,
                strings_view(asset_names@),
                borrowed_view(articles@),
                template@,
            ),
            Err(e) => exists|j: int| #[trigger]
                is_first_duplicate(borrowed_view(articles@), j) && e@
                    == SiteErrorView::DuplicateSlug(borrowed_view(articles@)[j].slug),
        },
{
    let pages = generate_articles(output_dir, articles, template)?;
    Ok(plan_steps(output_dir, asset_names, pages))
}

/// `steps` is the clean build of the articles of a store, in chronological
/// order.
pub open spec fn is_site_plan(
    steps: Seq<BuildStepView>,
    articles: Seq<ArticleView>,
    output_dir: Seq<char>,
    asset_names: Seq<Seq<char>>,
    template: Seq<char>,
) -> bool {
    exists|sorted: Seq<ArticleView>| #[trigger]
        is_chronological(sorted, articles) && steps == plan_spec(
            output_dir,
            asset_names,
            sorted,
            template,
        )
}

/// Plans a clean build of the articles of a store into `output_dir`, the
/// pages in chronological order. A store has no slug twice, so no page takes
/// the place of another.
pub fn build_site(
    store: &ArticleStore,
    output_dir: &str,
    asset_names: &Vec<String>,
    template: &str,
) -> (steps: Vec<BuildStep>)
    ensures
        is_site_plan(
            steps_view(steps@),
            store@,
            output_dir@,
            strings_view(asset_names@),
            template@,
        ),
{
    let sorted = store.chronological();
    let pages = render_pages(output_dir, &sorted, template);
    plan_steps(output_dir, asset_names, pages)
}

/// Pages of different slugs go to different paths.
pub proof fn lemma_page_paths_differ(output_dir: Seq<char>, a: Seq<char>, b: Seq<char>)
    requires
        a != b,
    ensures
        page_path_spec(output_dir, a) != page_path_spec(output_dir, b),
{
    let head = output_dir + "/articles/"@;
    let tail = ".html"@;
    let left = page_path_spec(output_dir, a);
    let right = page_path_spec(output_dir, b);
    if left == right {
        assert(left.len() == head.len() + a.len() + tail.len());
        assert(right.len() == head.len() + b.len() + tail.len());
        assert(left.subrange(head.len() as int, (head.len() + a.len()) as int) =~= a);
        assert(right.subrange(head.len() as int, (head.len() + b.len()) as int) =~= b);
        assert(false);
    }
}

/// No page of a build takes the place of another: where no two articles have
/// the same slug, no two of their pages go to the same path.
pub proof fn lemma_pages_do_not_collide(
    output_dir: Seq<char>,
    articles: Seq<ArticleView>,
    template: Seq<char>,
    i: int,
    j: int,
)
    requires
        unique_slugs(articles),
        0 <= i < j < articles.len(),
    ensures
        pages_spec(output_dir, articles, template)[i].path != pages_spec(
            output_dir,
            articles,
            template,
        )[j].path,
{
    assert(articles[i].slug != articles[j].slug);
    lemma_page_paths_differ(output_dir, articles[i].slug, articles[j].slug);
}

/// Two articles of one slug are never built into one site: where the slug of
/// an article is that of an earlier one, there is a first article that
/// repeats a slug, and with it the build fails.
pub proof fn lemma_duplicate_has_a_first(articles: Seq<ArticleView>, i: int, j: int)
    requires
        0 <= i < j < articles.len(),
        articles[i].slug == articles[j].slug,
    ensures
        !unique_slugs(articles),
        exists|first: int| #[trigger] is_first_duplicate(articles, first) && first <= j,
    decreases j,
{
    if unique_slugs(articles.take(j)) {
        assert(articles.take(j)[i].slug == articles[j].slug);
        assert(is_first_duplicate(articles, j));
    } else {
        let (a, b) = choose|a: int, b: int|
            0 <= a < b < articles.take(j).len() && #[trigger] articles.take(j)[a].slug
                == #[trigger] articles.take(j)[b].slug;
        assert(articles[a].slug == articles[b].slug);
        lemma_duplicate_has_a_first(articles, a, b);
    }
}

} // verus!
