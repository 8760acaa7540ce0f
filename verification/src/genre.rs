//! Genres.

use crate::rank::GetId;
use crate::source::Source;
use crate::source::SourceView;
use crate::pagination::page_count;
use crate::pagination::Page;
use crate::pagination::Pagination;
use crate::text::lemma_text_order_total;
use crate::text::lemma_text_order_transitive;
use crate::text::precedes;
use crate::text::text_precedes;
use vstd::prelude::*;

verus! {

/// A genre, as one source classifies books.
#[derive(Debug, PartialEq, Eq)]
pub struct Genre {
    pub id: i32,
    /// The source whose classification this is.
    pub source: Source,
    /// The id that the source gives the genre.
    pub remote_id: i32,
    pub code: String,
    pub description: String,
    /// The tag by which genres are grouped.
    pub meta: String,
}

/// What a `Genre` holds.
pub struct GenreView {
    pub id: i32,
    pub source: SourceView,
    pub remote_id: i32,
    pub code: Seq<char>,
    pub description: Seq<char>,
    pub meta: Seq<char>,
}

impl View for Genre {
    type V = GenreView;

    open spec fn view(&self) -> GenreView {
        GenreView {
            id: self.id,
            source: self.source@,
            remote_id: self.remote_id,
            code: self.code@,
            description: self.description@,
            meta: self.meta@,
        }
    }
}

impl DeepView for Genre {
    type V = GenreView;

    open spec fn deep_view(&self) -> GenreView {
        self@
    }
}

impl Clone for Genre {
    fn clone(&self) -> (copy: Self)
        ensures
            copy@ == self@,
    {
        Genre {
            id: self.id,
            source: self.source.clone(),
            remote_id: self.remote_id,
            code: self.code.clone(),
            description: self.description.clone(),
            meta: self.meta.clone(),
        }
    }
}

impl GetId for Genre {
    open spec fn id(&self) -> i32 {
        self.id
    }

    fn get_id(&self) -> (id: i32) {
        self.id
    }
}

/// `sorted` with `text` filed at its place in the order of texts, unless
/// it holds `text` already.
pub open spec fn filed(sorted: Seq<Seq<char>>, text: Seq<char>) -> Seq<Seq<char>>
    decreases sorted.len(),
{
    if sorted.len() == 0 {
        seq![text]
    } else if sorted.last() == text {
        sorted
    } else if text_precedes(sorted.last(), text) {
        sorted.push(text)
    } else {
        filed(sorted.drop_last(), text).push(sorted.last())
    }
}

/// The tags of `genres`, each once, in the order of texts.
pub open spec fn metas_of(genres: Seq<GenreView>) -> Seq<Seq<char>>
    decreases genres.len(),
{
    if genres.len() == 0 {
        Seq::empty()
    } else {
        filed(metas_of(genres.drop_last()), genres.last().meta)
    }
}

/// Each text of `texts` comes before those behind it.
pub open spec fn strictly_ascending(texts: Seq<Seq<char>>) -> bool {
    forall|i: int, j: int| 0 <= i < j < texts.len() ==> text_precedes(texts[i], texts[j])
}

/// Filing a text is leaving the sequence as it is where the text stands
/// just before the place that separates the texts not behind it from the
/// others, and inserting it at that place otherwise.
pub proof fn lemma_filed_at(sorted: Seq<Seq<char>>, text: Seq<char>, at: int)
    requires
        0 <= at <= sorted.len(),
        at == 0 || sorted[at - 1] == text || text_precedes(sorted[at - 1], text),
        forall|u: int|
            at <= u < sorted.len() ==> sorted[u] != text && !text_precedes(
                #[trigger] sorted[u],
                text,
            ),
    ensures
        filed(sorted, text) == (if at > 0 && sorted[at - 1] == text {
            sorted
        } else {
            sorted.insert(at, text)
        }),
    decreases sorted.len() - at,
{
    if at == sorted.len() {
        if sorted.len() == 0 {
            assert(sorted.insert(at, text) =~= seq![text]);
        } else {
            assert(sorted.last() == sorted[at - 1]);
            assert(sorted.insert(at, text) =~= sorted.push(text));
        }
    } else {
        let shorter = sorted.drop_last();
        assert(sorted.last() == sorted[sorted.len() - 1]);
        assert(!text_precedes(sorted[sorted.len() - 1], text));
        lemma_filed_at(shorter, text, at);
        if at > 0 && sorted[at - 1] == text {
            assert(shorter.push(sorted.last()) =~= sorted);
        } else {
            assert(shorter.insert(at, text).push(sorted.last()) =~= sorted.insert(at, text));
        }
    }
}

/// The page of the list of genres: the genres that the store returned for
/// the page, in its order, under the count that the store gave for the
/// filter.
pub fn get_genres(genres: Vec<Genre>, genres_count: i64, pagination: &Pagination) -> (page: Page<
    Genre,
>)
    requires
        pagination.wf(),
        genres_count >= 0,
    ensures
        page.items == genres,
        page.total == genres_count,
        page.page == pagination.page,
        page.size == pagination.size,
        page.pages == page_count(genres_count as int, pagination.size as int),
{
    Page::new(genres, genres_count, pagination)
}

/// The tags by which the genres are grouped, each once, in the order of
/// texts.
pub fn get_genre_metas(genres: &Vec<Genre>) -> (metas: Vec<String>)
    ensures
        metas.deep_view() == metas_of(genres.deep_view()),
{
    let mut metas: Vec<String> = Vec::new();
    let mut i: usize = 0;
    assert(genres.deep_view().take(0) =~= Seq::empty());
    assert(metas.deep_view() =~= Seq::empty());
    while i < genres.len()
        invariant
            i <= genres.len(),
            metas.deep_view() == metas_of(genres.deep_view().take(i as int)),
        decreases genres.len() - i,
    {
        let meta = &genres[i].meta;
        let ghost before = metas.deep_view();
        proof {
            let all = genres.deep_view();
            assert(all.take(i + 1).drop_last() =~= all.take(i as int));
            assert(all.take(i + 1).last() == genres[i as int]@);
        }
        let mut at: usize = metas.len();
        while at > 0 && !(metas[at - 1] == *meta) && !precedes(&metas[at - 1], meta)
            invariant
                at <= metas.len(),
                before == metas.deep_view(),
                forall|u: int|
                    at <= u < before.len() ==> before[u] != meta@ && !text_precedes(
                        #[trigger] before[u],
                        meta@,
                    ),
            decreases at,
        {
            assert(before[at - 1] == metas[at - 1]@);
            at -= 1;
        }
        proof {
            if at > 0 {
                assert(before[at - 1] == metas[at - 1]@);
            }
            lemma_filed_at(before, meta@, at as int);
        }
        if at == 0 || !(metas[at - 1] == *meta) {
            metas.insert(at, meta.clone());
            assert(metas.deep_view() =~= before.insert(at as int, meta@));
        }
        i += 1;
    }
    assert(genres.deep_view().take(genres.len() as int) =~= genres.deep_view());
    metas
}

/// Filing a text keeps a sequence strictly ascending, and adds the text
/// and nothing else.
pub proof fn lemma_filed(sorted: Seq<Seq<char>>, text: Seq<char>)
    requires
        strictly_ascending(sorted),
    ensures
        strictly_ascending(filed(sorted, text)),
        forall|t: Seq<char>|
            #![trigger filed(sorted, text).contains(t)]
            #![trigger sorted.contains(t)]
            filed(sorted, text).contains(t) <==> sorted.contains(t) || t == text,
        filed(sorted, text).contains(text),
    decreases sorted.len(),
{
    let out = filed(sorted, text);
    if sorted.len() == 0 {
        assert(out[0] == text);
        assert forall|t: Seq<char>| out.contains(t) <==> sorted.contains(t) || t == text by {
            if out.contains(t) {
                let w = choose|w: int| 0 <= w < out.len() && out[w] == t;
            }
        }
    } else if sorted.last() == text {
        assert(sorted[sorted.len() - 1] == text);
    } else if text_precedes(sorted.last(), text) {
        assert forall|i: int, j: int| 0 <= i < j < out.len() implies text_precedes(
            out[i],
            out[j],
        ) by {
            if j == sorted.len() {
                if i < sorted.len() - 1 {
                    assert(text_precedes(sorted[i], sorted[sorted.len() - 1]));
                    lemma_text_order_transitive(sorted[i], sorted.last(), text);
                }
            } else {
                assert(text_precedes(sorted[i], sorted[j]));
            }
        }
        assert forall|t: Seq<char>| out.contains(t) <==> sorted.contains(t) || t == text by {
            if out.contains(t) {
                let w = choose|w: int| 0 <= w < out.len() && out[w] == t;
                if w < sorted.len() {
                    assert(sorted[w] == t);
                }
            }
            if sorted.contains(t) {
                let w = choose|w: int| 0 <= w < sorted.len() && sorted[w] == t;
                assert(out[w] == t);
            }
            if t == text {
                assert(out[sorted.len() as int] == t);
            }
        }
    } else {
        let shorter = sorted.drop_last();
        let last = sorted.last();
        let inner = filed(shorter, text);
        assert(strictly_ascending(shorter)) by {
            assert forall|i: int, j: int| 0 <= i < j < shorter.len() implies text_precedes(
                shorter[i],
                shorter[j],
            ) by {
                assert(text_precedes(sorted[i], sorted[j]));
            }
        }
        lemma_filed(shorter, text);
        lemma_text_order_total(last, text);
        assert(text_precedes(text, last));
        assert forall|i: int, j: int| 0 <= i < j < out.len() implies text_precedes(
            out[i],
            out[j],
        ) by {
            if j < inner.len() {
                assert(text_precedes(inner[i], inner[j]));
            } else {
                assert(out[i] == inner[i]);
                assert(inner.contains(inner[i]));
                if inner[i] != text {
                    let w = choose|w: int| 0 <= w < shorter.len() && shorter[w] == inner[i];
                    assert(text_precedes(sorted[w], sorted[sorted.len() - 1]));
                }
            }
        }
        assert forall|t: Seq<char>| out.contains(t) <==> sorted.contains(t) || t == text by {
            if out.contains(t) {
                let w = choose|w: int| 0 <= w < out.len() && out[w] == t;
                if w < inner.len() {
                    assert(inner[w] == t);
                    assert(inner.contains(t));
                    if t != text {
                        let v = choose|v: int| 0 <= v < shorter.len() && shorter[v] == t;
                        assert(sorted[v] == t);
                    }
                } else {
                    assert(sorted[sorted.len() - 1] == t);
                }
            }
            if sorted.contains(t) {
                let w = choose|w: int| 0 <= w < sorted.len() && sorted[w] == t;
                if w < shorter.len() {
                    assert(shorter[w] == t);
                    assert(inner.contains(t));
                    let v = choose|v: int| 0 <= v < inner.len() && inner[v] == t;
                    assert(out[v] == t);
                } else {
                    assert(out[inner.len() as int] == t);
                }
            }
            if t == text {
                assert(inner.contains(t));
                let v = choose|v: int| 0 <= v < inner.len() && inner[v] == t;
                assert(out[v] == t);
            }
        }
    }
}

/// The tags come strictly ascending in the order of texts, so none comes
/// twice, and they are the tags that the genres carry.
pub proof fn lemma_metas_of(genres: Seq<GenreView>)
    ensures
        strictly_ascending(metas_of(genres)),
        forall|t: Seq<char>| #[trigger]
            metas_of(genres).contains(t) <==> exists|i: int|
                0 <= i < genres.len() && (#[trigger] genres[i]).meta == t,
    decreases genres.len(),
{
    if genres.len() > 0 {
        let shorter = genres.drop_last();
        lemma_metas_of(shorter);
        lemma_filed(metas_of(shorter), genres.last().meta);
        assert forall|t: Seq<char>| #[trigger]
            metas_of(genres).contains(t) <==> exists|i: int|
                0 <= i < genres.len() && (#[trigger] genres[i]).meta == t by {
            if metas_of(genres).contains(t) {
                assert(filed(metas_of(shorter), genres.last().meta).contains(t));
                if metas_of(shorter).contains(t) {
                    let i = choose|i: int|
                        0 <= i < shorter.len() && (#[trigger] shorter[i]).meta == t;
                    assert(genres[i].meta == t);
                } else {
                    assert(genres[genres.len() - 1].meta == t);
                }
            }
            if exists|i: int| 0 <= i < genres.len() && (#[trigger] genres[i]).meta == t {
                let i = choose|i: int| 0 <= i < genres.len() && (#[trigger] genres[i]).meta == t;
                if i < shorter.len() {
                    assert(shorter[i].meta == t);
                    assert(metas_of(shorter).contains(t));
                } else {
                    assert(t == genres.last().meta);
                }
                assert(metas_of(genres).contains(t));
            }
        }
    }
}

} // verus!
