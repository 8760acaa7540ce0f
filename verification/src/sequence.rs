//! Sequences, and the books listed within them.

use chrono::NaiveDate;
use crate::author::Author;
use crate::author::AuthorView;
use crate::rank::GetId;
use vstd::prelude::*;
use vstd::seq_lib::to_multiset_build;

verus! {

/// A series of books.
#[derive(Debug, PartialEq, Eq)]
pub struct Sequence {
    pub id: i32,
    pub name: String,
}

/// What a `Sequence` holds.
pub struct SequenceView {
    pub id: i32,
    pub name: Seq<char>,
}

impl View for Sequence {
    type V = SequenceView;

    open spec fn view(&self) -> SequenceView {
        SequenceView {
            id: self.id,
            name: self.name@,
        }
    }
}

impl DeepView for Sequence {
    type V = SequenceView;

    open spec fn deep_view(&self) -> SequenceView {
        self@
    }
}

impl Clone for Sequence {
    fn clone(&self) -> (copy: Self)
        ensures
            copy@ == self@,
    {
        Sequence {
            id: self.id,
            name: self.name.clone(),
        }
    }
}

impl GetId for Sequence {
    open spec fn id(&self) -> i32 {
        self.id
    }

    fn get_id(&self) -> (id: i32) {
        self.id
    }
}

/// A book as it is listed within one sequence.
#[derive(Debug, PartialEq, Eq)]
pub struct SequenceBook {
    pub id: i32,
    pub title: String,
    /// The language code.
    pub lang: String,
    /// The format in which the book is stored.
    pub file_type: String,
    /// The year of publication.
    pub year: i32,
    /// The formats in which the book is offered.
    pub available_types: Vec<String>,
    /// The day on which the book was uploaded.
    pub uploaded: NaiveDate,
    pub authors: Vec<Author>,
    pub translators: Vec<Author>,
    /// Whether the store holds an annotation for this book.
    pub annotation_exists: bool,
    /// The place of the book in the sequence.
    pub position: i32,
}

/// What a `SequenceBook` holds.
pub struct SequenceBookView {
    pub id: i32,
    pub title: Seq<char>,
    pub lang: Seq<char>,
    pub file_type: Seq<char>,
    pub year: i32,
    pub available_types: Seq<Seq<char>>,
    pub uploaded: NaiveDate,
    pub authors: Seq<AuthorView>,
    pub translators: Seq<AuthorView>,
    pub annotation_exists: bool,
    pub position: i32,
}

impl View for SequenceBook {
    type V = SequenceBookView;

    open spec fn view(&self) -> SequenceBookView {
        SequenceBookView {
            id: self.id,
            title: self.title@,
            lang: self.lang@,
            file_type: self.file_type@,
            year: self.year,
            available_types: self.available_types.deep_view(),
            uploaded: self.uploaded,
            authors: self.authors.deep_view(),
            translators: self.translators.deep_view(),
            annotation_exists: self.annotation_exists,
            position: self.position,
        }
    }
}

impl DeepView for SequenceBook {
    type V = SequenceBookView;

    open spec fn deep_view(&self) -> SequenceBookView {
        self@
    }
}

impl GetId for SequenceBook {
    open spec fn id(&self) -> i32 {
        self.id
    }

    fn get_id(&self) -> (id: i32) {
        self.id
    }
}

/// `book` put into `sorted`: behind every book whose position is not
/// greater than its own, before the others.
pub open spec fn placed_by_position(
    sorted: Seq<SequenceBookView>,
    book: SequenceBookView,
) -> Seq<SequenceBookView>
    decreases sorted.len(),
{
    if sorted.len() == 0 || sorted.last().position <= book.position {
        sorted.push(book)
    } else {
        placed_by_position(sorted.drop_last(), book).push(sorted.last())
    }
}

/// `books` by ascending position. Books at the same position keep the
/// order in which they stand.
pub open spec fn by_position(books: Seq<SequenceBookView>) -> Seq<SequenceBookView>
    decreases books.len(),
{
    if books.len() == 0 {
        Seq::empty()
    } else {
        placed_by_position(by_position(books.drop_last()), books.last())
    }
}

/// No book of `books` stands before one of a lesser position.
pub open spec fn ascending(books: Seq<SequenceBookView>) -> bool {
    forall|i: int, j: int|
        0 <= i <= j < books.len() ==> (#[trigger] books[i]).position <= (
        #[trigger] books[j]).position
}

/// Putting a book into a sequence of books is inserting it at the place
/// that separates the positions not greater than its own from the greater
/// ones.
pub proof fn lemma_placed_at(sorted: Seq<SequenceBookView>, book: SequenceBookView, at: int)
    requires
        0 <= at <= sorted.len(),
        at == 0 || sorted[at - 1].position <= book.position,
        forall|u: int| at <= u < sorted.len() ==> (#[trigger] sorted[u]).position > book.position,
    ensures
        placed_by_position(sorted, book) == sorted.insert(at, book),
    decreases sorted.len() - at,
{
    if at == sorted.len() {
        assert(sorted.insert(at, book) =~= sorted.push(book));
    } else {
        let shorter = sorted.drop_last();
        assert(sorted.last() == sorted[sorted.len() - 1]);
        lemma_placed_at(shorter, book, at);
        assert(shorter.insert(at, book).push(sorted.last()) =~= sorted.insert(at, book));
    }
}

/// Sorts `books` by ascending position. Books at the same position keep
/// the order in which they stand.
pub fn sort_by_position(books: Vec<SequenceBook>) -> (sorted: Vec<SequenceBook>)
    ensures
        sorted.deep_view() == by_position(books.deep_view()),
{
    let ghost orig = books.deep_view();
    let mut rest = books;
    let mut stack: Vec<SequenceBook> = Vec::new();
    while rest.len() > 0
        invariant
            rest.len() + stack.len() == orig.len(),
            forall|i: int| 0 <= i < rest.len() ==> (#[trigger] rest[i])@ == orig[i],
            forall|i: int|
                0 <= i < stack.len() ==> (#[trigger] stack[i])@ == orig[orig.len() - 1 - i],
        decreases rest.len(),
    {
        let book = rest.pop().unwrap();
        stack.push(book);
    }
    let mut sorted: Vec<SequenceBook> = Vec::new();
    assert(orig.take(0) =~= Seq::empty());
    assert(sorted.deep_view() =~= Seq::empty());
    while stack.len() > 0
        invariant
            stack.len() <= orig.len(),
            forall|i: int|
                0 <= i < stack.len() ==> (#[trigger] stack[i])@ == orig[orig.len() - 1 - i],
            sorted.deep_view() == by_position(orig.take(orig.len() - stack.len())),
        decreases stack.len(),
    {
        let ghost done = orig.len() - stack.len();
        let book = stack.pop().unwrap();
        proof {
            assert(book@ == orig[done]);
            assert(orig.take(done + 1).drop_last() =~= orig.take(done));
            assert(orig.take(done + 1).last() == book@);
        }
        let mut at: usize = sorted.len();
        while at > 0 && sorted[at - 1].position > book.position
            invariant
                at <= sorted.len(),
                forall|u: int|
                    at <= u < sorted.len() ==> (#[trigger] sorted.deep_view()[u]).position
                        > book.position,
            decreases at,
        {
            at -= 1;
        }
        let ghost before = sorted.deep_view();
        proof {
            if at > 0 {
                assert(before[at - 1].position == sorted[at - 1].position);
            }
            lemma_placed_at(before, book@, at as int);
        }
        sorted.insert(at, book);
        assert(sorted.deep_view() =~= before.insert(at as int, book@));
    }
    assert(orig.take(orig.len() as int) =~= orig);
    sorted
}

/// Putting a book into an ascending sequence keeps it ascending.
pub proof fn lemma_placed_keeps_ascending(sorted: Seq<SequenceBookView>, book: SequenceBookView)
    requires
        ascending(sorted),
    ensures
        ascending(placed_by_position(sorted, book)),
        placed_by_position(sorted, book).len() == sorted.len() + 1,
        placed_by_position(sorted, book).to_multiset() == sorted.to_multiset().insert(book),
        forall|i: int|
            0 <= i < sorted.len() + 1 ==> (#[trigger] placed_by_position(sorted, book)[i]) == book
                || sorted.contains(placed_by_position(sorted, book)[i]),
    decreases sorted.len(),
{
    broadcast use to_multiset_build;

    let placed = placed_by_position(sorted, book);
    if sorted.len() == 0 || sorted.last().position <= book.position {
        assert forall|i: int, j: int| 0 <= i <= j < placed.len() implies (
        #[trigger] placed[i]).position <= (#[trigger] placed[j]).position by {
            if j == sorted.len() && i < j {
                assert(sorted[i].position <= sorted[sorted.len() - 1].position);
            }
        }
        assert forall|i: int| 0 <= i < sorted.len() + 1 implies (#[trigger] placed[i]) == book
            || sorted.contains(placed[i]) by {
            if i < sorted.len() {
                assert(sorted[i] == placed[i]);
            }
        }
    } else {
        let shorter = sorted.drop_last();
        let last = sorted.last();
        assert(ascending(shorter)) by {
            assert forall|i: int, j: int| 0 <= i <= j < shorter.len() implies (
            #[trigger] shorter[i]).position <= (#[trigger] shorter[j]).position by {
                assert(shorter[i] == sorted[i] && shorter[j] == sorted[j]);
            }
        }
        lemma_placed_keeps_ascending(shorter, book);
        let inner = placed_by_position(shorter, book);
        assert(shorter.push(last) =~= sorted);
        assert(inner.push(last).to_multiset() =~= sorted.to_multiset().insert(book));
        assert forall|i: int| 0 <= i < sorted.len() + 1 implies (#[trigger] placed[i]) == book
            || sorted.contains(placed[i]) by {
            if i < inner.len() {
                assert(placed[i] == inner[i]);
                if inner[i] != book {
                    let w = choose|w: int| 0 <= w < shorter.len() && shorter[w] == inner[i];
                    assert(sorted[w] == placed[i]);
                }
            } else {
                assert(sorted[sorted.len() - 1] == placed[i]);
            }
        }
        assert forall|i: int, j: int| 0 <= i <= j < placed.len() implies (
        #[trigger] placed[i]).position <= (#[trigger] placed[j]).position by {
            if j < inner.len() {
                assert(placed[i] == inner[i] && placed[j] == inner[j]);
            } else if i < inner.len() {
                assert(placed[i] == inner[i]);
                if inner[i] != book {
                    let w = choose|w: int| 0 <= w < shorter.len() && shorter[w] == inner[i];
                    assert(sorted[w].position <= sorted[sorted.len() - 1].position);
                }
            }
        }
    }
}

/// Whatever the order in which the books come, the result is ascending by
/// position and holds the same books, each as often as before.
pub proof fn lemma_by_position_sorts(books: Seq<SequenceBookView>)
    ensures
        ascending(by_position(books)),
        by_position(books).len() == books.len(),
        by_position(books).to_multiset() == books.to_multiset(),
    decreases books.len(),
{
    broadcast use to_multiset_build;

    if books.len() == 0 {
        assert(by_position(books) =~= books);
    } else {
        lemma_by_position_sorts(books.drop_last());
        lemma_placed_keeps_ascending(by_position(books.drop_last()), books.last());
        assert(books.drop_last().push(books.last()) =~= books);
    }
}

/// Books that come in ascending position are left as they are: the sort
/// moves no book past another of the same position.
pub proof fn lemma_by_position_keeps_sorted(books: Seq<SequenceBookView>)
    requires
        ascending(books),
    ensures
        by_position(books) == books,
    decreases books.len(),
{
    if books.len() > 0 {
        let shorter = books.drop_last();
        assert(ascending(shorter)) by {
            assert forall|i: int, j: int| 0 <= i <= j < shorter.len() implies (
            #[trigger] shorter[i]).position <= (#[trigger] shorter[j]).position by {
                assert(shorter[i] == books[i] && shorter[j] == books[j]);
            }
        }
        lemma_by_position_keeps_sorted(shorter);
        if shorter.len() > 0 {
            assert(shorter.last() == books[books.len() - 2]);
            assert(books[books.len() - 2].position <= books[books.len() - 1].position);
        }
        assert(shorter.push(books.last()) =~= books);
    } else {
        assert(by_position(books) =~= books);
    }
}

} // verus!
