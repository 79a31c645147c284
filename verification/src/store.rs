//! The articles of one ingestion pass: kept in the order in which they came,
//! no slug twice, and handed out in chronological order.

use crate::article::Article;
use crate::article::ArticleView;
use crate::error::SiteError;
use crate::error::SiteErrorView;
use crate::text::str_equal;
use vstd::prelude::*;

verus! {

/// The articles of a sequence, as contracts see them.
pub open spec fn articles_view(articles: Seq<Article>) -> Seq<ArticleView> {
    articles.map_values(|article: Article| article@)
}

/// The articles behind a sequence of references, as contracts see them.
pub open spec fn borrowed_view(articles: Seq<&Article>) -> Seq<ArticleView> {
    articles.map_values(|article: &Article| article@)
}

/// Some article of `articles` has the slug `slug`.
pub open spec fn has_slug(articles: Seq<ArticleView>, slug: Seq<char>) -> bool {
    exists|i: int| 0 <= i < articles.len() && #[trigger] articles[i].slug == slug
}

/// No two articles of `articles` have the same slug.
pub open spec fn unique_slugs(articles: Seq<ArticleView>) -> bool {
    forall|i: int, j: int|
        0 <= i < j < articles.len() ==> #[trigger] articles[i].slug != #[trigger] articles[j].slug
}

/// The article at position `i` goes before the one at position `j`: it was
/// created earlier, or at the same instant and came first.
pub open spec fn goes_before(articles: Seq<ArticleView>, i: int, j: int) -> bool {
    articles[i].created_at.before(articles[j].created_at) || (articles[i].created_at
        == articles[j].created_at && i < j)
}

/// `order` lists every position of `articles` once, in chronological
/// order: by ascending `created_at`, and among articles of one instant in
/// the order in which they came.
pub open spec fn is_chronological_order(order: Seq<int>, articles: Seq<ArticleView>) -> bool {
    &&& order.len() == articles.len()
    &&& forall|k: int| 0 <= k < order.len() ==> 0 <= #[trigger] order[k] < articles.len()
    &&& forall|i: int| 0 <= i < articles.len() ==> order.contains(i)
    &&& forall|a: int, b: int|
        0 <= a < b < order.len() ==> goes_before(articles, #[trigger] order[a], #[trigger] order[b])
}

/// The articles of `articles` in the order that `order` lists.
pub open spec fn arranged(articles: Seq<ArticleView>, order: Seq<int>) -> Seq<ArticleView> {
    Seq::new(order.len(), |k: int| articles[order[k]])
}

/// `sorted` is `articles` in chronological order, the stable sort of
/// `articles` by `created_at`.
pub open spec fn is_chronological(sorted: Seq<ArticleView>, articles: Seq<ArticleView>) -> bool {
    exists|order: Seq<int>|
        #[trigger] is_chronological_order(order, articles) && sorted == arranged(articles, order)
}

/// The positions held in a vector, as integers.
pub open spec fn positions(order: Seq<usize>) -> Seq<int> {
    order.map_values(|position: usize| position as int)
}

/// The articles of one ingestion pass.
#[derive(Debug)]
pub struct ArticleStore {
    articles: Vec<Article>,
}

impl View for ArticleStore {
    type V = Seq<ArticleView>;

    /// The articles in the order in which they came.
    closed spec fn view(&self) -> Seq<ArticleView> {
        articles_view(self.articles@)
    }
}

impl ArticleStore {
    #[verifier::type_invariant]
    spec fn no_slug_twice(self) -> bool {
        unique_slugs(articles_view(self.articles@))
    }

    /// A store without articles.
    pub fn new() -> (store: ArticleStore)
        ensures
            store@ == Seq::<ArticleView>::empty(),
    {
        let store = ArticleStore { articles: Vec::new() };
        proof {
            assert(store@ =~= Seq::<ArticleView>::empty());
        }
        store
    }

    /// How many articles the store holds.
    pub fn len(&self) -> (len: usize)
        ensures
            len == self@.len(),
    {
        self.articles.len()
    }

    /// The article that came as the `i`-th, counted from 0.
    pub fn get(&self, i: usize) -> (article: Option<&Article>)
        ensures
            match article {
                Some(found) => i < self@.len() && found@ == self@[i as int],
                None => i >= self@.len(),
            },
    {
        if i < self.articles.len() {
            Some(&self.articles[i])
        } else {
            None
        }
    }

    /// Whether an article of the store has this slug.
    pub fn contains_slug(&self, slug: &str) -> (found: bool)
        ensures
            found == has_slug(self@, slug@),
    {
        let mut i: usize = 0;
        while i < self.articles.len()
            invariant
                i <= self.articles.len(),
                forall|j: int| 0 <= j < i ==> (#[trigger] self@[j]).slug != slug@,
            decreases self.articles.len() - i,
        {
            assert(self@[i as int] == self.articles@[i as int]@);
            if str_equal(self.articles[i].slug().as_str(), slug) {
                return true;
            }
            i += 1;
        }
        false
    }

    /// Takes an article in, behind those that came before.
    ///
    /// Fails with `DuplicateSlug`, naming the slug, exactly when an article of
    /// the store has the slug already; the store is then as it was.
    pub fn insert(&mut self, article: Article) -> (taken: Result<(), SiteError>)
        ensures
            unique_slugs(final(self)@),
            match taken {
                Ok(_) => !has_slug(old(self)@, article@.slug) && final(self)@ == old(self)@.push(
                    article@,
                ),
                Err(e) => has_slug(old(self)@, article@.slug) && final(self)@ == old(self)@ && e@
                    == SiteErrorView::DuplicateSlug(article@.slug),
            },
    {
        proof {
            use_type_invariant(&*self);
        }
        if self.contains_slug(article.slug().as_str()) {
            return Err(SiteError::DuplicateSlug(article.slug().clone()));
        }
        let ghost before = self.articles@;
        let mut articles: Vec<Article> = Vec::new();
        std::mem::swap(&mut self.articles, &mut articles);
        articles.push(article);
        proof {
            assert(articles_view(articles@) =~= articles_view(before).push(article@));
        }
        std::mem::swap(&mut self.articles, &mut articles);
        Ok(())
    }

    /// The positions of the articles in chronological order: a stable sort
    /// of the positions by `created_at`.
    pub fn chronological_order(&self) -> (order: Vec<usize>)
        ensures
            is_chronological_order(positions(order@), self@),
    {
        let n = self.articles.len();
        let mut order: Vec<usize> = Vec::new();
        let mut i: usize = 0;
        while i < n
            invariant
                n == self.articles.len(),
                i <= n,
                order.len() == i,
                forall|k: int| 0 <= k < order.len() ==> 0 <= #[trigger] order@[k] < i,
                forall|p: int| 0 <= p < i ==> positions(order@).contains(p),
                forall|a: int, b: int|
                    0 <= a < b < order.len() ==> goes_before(
                        self@,
                        #[trigger] order@[a] as int,
                        #[trigger] order@[b] as int,
                    ),
            decreases n - i,
        {
            let created_at = self.articles[i].created_at();
            let mut at: usize = order.len();
            while at > 0 && created_at.is_before(&self.articles[order[at - 1]].created_at())
                invariant
                    n == self.articles.len(),
                    i < n,
                    at <= order.len(),
                    order.len() == i,
                    created_at == self@[i as int].created_at,
                    forall|k: int| 0 <= k < order.len() ==> 0 <= #[trigger] order@[k] < i,
                    forall|k: int|
                        at <= k < order.len() ==> goes_before(
                            self@,
                            i as int,
                            #[trigger] order@[k] as int,
                        ),
                decreases at,
            {
                at -= 1;
            }
            let ghost before = order@;
            order.insert(at, i);
            proof {
                let after = order@;
                assert forall|a: int, b: int| 0 <= a < b < after.len() implies goes_before(
                    self@,
                    #[trigger] after[a] as int,
                    #[trigger] after[b] as int,
                ) by {
                    if b < at {
                        assert(after[a] == before[a] && after[b] == before[b]);
                    } else if b == at {
                        assert(after[a] == before[a]);
                        if at > 0 {
                            // the scan stopped at an article that is not later
                            let last = before[at - 1] as int;
                            assert(!created_at.before(self@[last].created_at));
                            assert(goes_before(self@, before[a] as int, last) || a == at - 1);
                        }
                    } else if a < at {
                        assert(after[a] == before[a] && after[b] == before[b - 1]);
                    } else if a == at {
                        assert(after[b] == before[b - 1]);
                    } else {
                        assert(after[a] == before[a - 1] && after[b] == before[b - 1]);
                    }
                }
                assert forall|p: int| 0 <= p < i + 1 implies positions(after).contains(p) by {
                    if p < i {
                        assert(positions(before).contains(p));
                        let k = choose|k: int|
                            0 <= k < positions(before).len() && positions(before)[k] == p;
                        if k < at {
                            assert(positions(after)[k] == p);
                        } else {
                            assert(positions(after)[k + 1] == p);
                        }
                    } else {
                        assert(positions(after)[at as int] == p);
                    }
                }
            }
            i += 1;
        }
        order
    }

    /// The articles in chronological order: by ascending `created_at`, and
    /// among articles of one instant in the order in which they came.
    pub fn chronological(&self) -> (sorted: Vec<&Article>)
        ensures
            is_chronological(borrowed_view(sorted@), self@),
            unique_slugs(self@),
    {
        proof {
            use_type_invariant(self);
        }
        let order = self.chronological_order();
        let mut sorted: Vec<&Article> = Vec::new();
        let mut k: usize = 0;
        while k < order.len()
            invariant
                k <= order.len(),
                sorted.len() == k,
                is_chronological_order(positions(order@), self@),
                self@ == articles_view(self.articles@),
                forall|j: int| 0 <= j < k ==> (#[trigger] sorted@[j])@ == self@[order@[j] as int],
            decreases order.len() - k,
        {
            assert(0 <= positions(order@)[k as int] < self@.len());
            sorted.push(&self.articles[order[k]]);
            k += 1;
        }
        proof {
            assert(borrowed_view(sorted@) =~= arranged(self@, positions(order@)));
        }
        sorted
    }
}

/// Chronological order ascends: no article of the sorted sequence was
/// created before one that stands earlier in it.
pub proof fn lemma_chronological_ascends(
    articles: Seq<ArticleView>,
    sorted: Seq<ArticleView>,
    a: int,
    b: int,
)
    requires
        is_chronological(sorted, articles),
        0 <= a <= b < sorted.len(),
    ensures
        !sorted[b].created_at.before(sorted[a].created_at),
{
    let order = choose|order: Seq<int>| #[trigger]
        is_chronological_order(order, articles) && sorted == arranged(articles, order);
    if a < b {
        assert(goes_before(articles, order[a], order[b]));
    }
}

/// Sorting is stable: of two articles that were created at the same
/// instant, the one that came first stands first in the sorted sequence.
pub proof fn lemma_chronological_is_stable(
    articles: Seq<ArticleView>,
    sorted: Seq<ArticleView>,
    i: int,
    j: int,
)
    requires
        is_chronological(sorted, articles),
        0 <= i < j < articles.len(),
        articles[i].created_at == articles[j].created_at,
    ensures
        sorted.len() == articles.len(),
        exists|a: int, b: int|
            0 <= a < b < sorted.len() && #[trigger] sorted[a] == articles[i] && #[trigger] sorted[b]
                == articles[j],
{
    let order = choose|order: Seq<int>| #[trigger]
        is_chronological_order(order, articles) && sorted == arranged(articles, order);
    lemma_order_is_stable(articles, order, i, j);
    let a = order.index_of(i);
    let b = order.index_of(j);
    assert(sorted[a] == articles[i] && sorted[b] == articles[j]);
}

/// In a chronological order, of two positions whose articles were created
/// at the same instant the smaller one is listed first.
pub proof fn lemma_order_is_stable(articles: Seq<ArticleView>, order: Seq<int>, i: int, j: int)
    requires
        is_chronological_order(order, articles),
        0 <= i < j < articles.len(),
        articles[i].created_at == articles[j].created_at,
    ensures
        order.contains(i),
        order.contains(j),
        order.index_of(i) < order.index_of(j),
{
    assert(order.contains(i));
    assert(order.contains(j));
    let a = order.index_of(i);
    let b = order.index_of(j);
    if b < a {
        assert(goes_before(articles, order[b], order[a]));
    }
}

/// The two orders agree up to position `k`.
proof fn lemma_orders_agree(articles: Seq<ArticleView>, first: Seq<int>, second: Seq<int>, k: int)
    requires
        is_chronological_order(first, articles),
        is_chronological_order(second, articles),
        0 <= k < articles.len(),
    ensures
        first[k] == second[k],
    decreases k,
{
    let x = first[k];
    let y = second[k];
    if x != y {
        assert(goes_before(articles, x, y) || goes_before(articles, y, x));
        if goes_before(articles, x, y) {
            assert(second.contains(x));
            let m = second.index_of(x);
            if m < k {
                lemma_orders_agree(articles, first, second, m);
                assert(goes_before(articles, first[m], first[k]));
            } else {
                assert(goes_before(articles, second[k], second[m]));
            }
        } else {
            assert(first.contains(y));
            let m = first.index_of(y);
            if m < k {
                lemma_orders_agree(articles, first, second, m);
                assert(goes_before(articles, second[m], second[k]));
            } else {
                assert(goes_before(articles, first[k], first[m]));
            }
        }
    }
}

/// A sequence of articles has one chronological order only, and so one
/// chronological arrangement.
pub proof fn lemma_chronological_order_unique(
    articles: Seq<ArticleView>,
    first: Seq<int>,
    second: Seq<int>,
)
    requires
        is_chronological_order(first, articles),
        is_chronological_order(second, articles),
    ensures
        first == second,
{
    assert forall|k: int| 0 <= k < first.len() implies first[k] == second[k] by {
        lemma_orders_agree(articles, first, second, k);
    }
    assert(first =~= second);
}

/// Chronological order keeps the slugs apart: where no two articles have the
/// same slug, no two of the sorted sequence have.
pub proof fn lemma_chronological_keeps_slugs_unique(
    articles: Seq<ArticleView>,
    sorted: Seq<ArticleView>,
)
    requires
        unique_slugs(articles),
        is_chronological(sorted, articles),
    ensures
        unique_slugs(sorted),
{
    let order = choose|order: Seq<int>| #[trigger]
        is_chronological_order(order, articles) && sorted == arranged(articles, order);
    assert forall|a: int, b: int| 0 <= a < b < sorted.len() implies #[trigger] sorted[a].slug
        != #[trigger] sorted[b].slug by {
        assert(goes_before(articles, order[a], order[b]));
        if order[a] < order[b] {
            assert(articles[order[a]].slug != articles[order[b]].slug);
        } else {
            assert(articles[order[b]].slug != articles[order[a]].slug);
        }
    }
}

} // verus!
