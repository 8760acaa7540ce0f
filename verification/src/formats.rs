//! The file formats in which a book can be had.

use crate::book::BaseBook;
use crate::book::BaseBookView;
use vstd::prelude::*;

verus! {

/// The formats in which a book of `file_type` from the source named
/// `source_name` is offered: a book stored as "fb2" by "flibusta" can
/// be converted, every other book is offered as stored.
pub open spec fn available_types(file_type: Seq<char>, source_name: Seq<char>) -> Seq<Seq<char>> {
    if file_type == "fb2"@ && source_name == "flibusta"@ {
        seq!["fb2"@, "fb2zip"@, "epub"@, "mobi"@]
    } else {
        seq![file_type]
    }
}

/// Whether `text` reads `word`.
pub fn reads(text: &String, word: &str) -> (same: bool)
    ensures
        same == (text@ == word@),
{
    let other = String::from_str(word);
    *text == other
}

/// The formats in which a book is offered, in the order in which clients
/// see them.
pub fn get_available_types(file_type: String, source_name: String) -> (types: Vec<String>)
    ensures
        types.deep_view() == available_types(file_type@, source_name@),
{
    if reads(&file_type, "fb2") && reads(&source_name, "flibusta") {
        let mut types: Vec<String> = Vec::new();
        types.push(String::from_str("fb2"));
        types.push(String::from_str("fb2zip"));
        types.push(String::from_str("epub"));
        types.push(String::from_str("mobi"));
        assert(types.deep_view() =~= seq!["fb2"@, "fb2zip"@, "epub"@, "mobi"@]);
        types
    } else {
        let mut types: Vec<String> = Vec::new();
        types.push(file_type);
        assert(types.deep_view() =~= seq![file_type@]);
        types
    }
}

/// A book is always offered in the format in which it is stored.
pub proof fn lemma_own_type_is_available(file_type: Seq<char>, source_name: Seq<char>)
    ensures
        available_types(file_type, source_name).contains(file_type),
        available_types(file_type, source_name).len() >= 1,
        available_types(file_type, source_name)[0] == file_type,
{
    let types = available_types(file_type, source_name);
    assert(types[0] == file_type);
}

/// `texts` with `text` at its end, unless it holds `text` already.
pub open spec fn with_new(texts: Seq<Seq<char>>, text: Seq<char>) -> Seq<Seq<char>> {
    if texts.contains(text) {
        texts
    } else {
        texts.push(text)
    }
}

/// The texts of `texts`, each at its first mention.
pub open spec fn first_mentions(texts: Seq<Seq<char>>) -> Seq<Seq<char>>
    decreases texts.len(),
{
    if texts.len() == 0 {
        Seq::empty()
    } else {
        with_new(first_mentions(texts.drop_last()), texts.last())
    }
}

/// The formats of all of `books`, book after book.
pub open spec fn all_types(books: Seq<BaseBookView>) -> Seq<Seq<char>>
    decreases books.len(),
{
    if books.len() == 0 {
        Seq::empty()
    } else {
        all_types(books.drop_last()) + books.last().available_types
    }
}

/// `types`, and where "fb2" is among them the three formats that can be
/// derived from it.
pub open spec fn with_derived(types: Seq<Seq<char>>) -> Seq<Seq<char>> {
    if types.contains("fb2"@) {
        with_new(with_new(with_new(types, "epub"@), "mobi"@), "fb2zip"@)
    } else {
        types
    }
}

/// The formats in which the books of `books` are offered taken together:
/// every format once, in the order of first mention, and the formats
/// derived from "fb2" where one of the books is offered as "fb2".
pub open spec fn offered_types(books: Seq<BaseBookView>) -> Seq<Seq<char>> {
    with_derived(first_mentions(all_types(books)))
}

/// Whether `texts` holds `text`.
pub fn holds(texts: &Vec<String>, text: &String) -> (found: bool)
    ensures
        found == texts.deep_view().contains(text@),
{
    let mut i: usize = 0;
    while i < texts.len()
        invariant
            i <= texts.len(),
            forall|k: int| 0 <= k < i ==> texts.deep_view()[k] != text@,
        decreases texts.len() - i,
    {
        if texts[i] == *text {
            assert(texts.deep_view()[i as int] == text@);
            return true;
        }
        i += 1;
    }
    false
}

/// Adds `text` to `texts` unless it is there already.
pub fn add_new(texts: &mut Vec<String>, text: String)
    ensures
        final(texts).deep_view() == with_new(old(texts).deep_view(), text@),
{
    let ghost before = texts.deep_view();
    if !holds(texts, &text) {
        texts.push(text);
        assert(texts.deep_view() =~= before.push(text@));
    }
}

/// The formats in which the books of `books` are offered taken together.
pub fn collect_available_types(books: &Vec<BaseBook>) -> (types: Vec<String>)
    ensures
        types.deep_view() == offered_types(books.deep_view()),
{
    let mut types: Vec<String> = Vec::new();
    let mut i: usize = 0;
    assert(books.deep_view().take(0) =~= Seq::empty());
    assert(types.deep_view() =~= Seq::empty());
    while i < books.len()
        invariant
            i <= books.len(),
            types.deep_view() == first_mentions(all_types(books.deep_view().take(i as int))),
        decreases books.len() - i,
    {
        let book = &books[i];
        let ghost done = all_types(books.deep_view().take(i as int));
        let ghost own = book.available_types.deep_view();
        proof {
            let all = books.deep_view();
            assert(all.take(i + 1).drop_last() =~= all.take(i as int));
            assert(all.take(i + 1).last() == book@);
            assert(done + own.take(0) =~= done);
        }
        let mut j: usize = 0;
        while j < book.available_types.len()
            invariant
                j <= book.available_types.len(),
                own == book.available_types.deep_view(),
                types.deep_view() == first_mentions(done + own.take(j as int)),
            decreases book.available_types.len() - j,
        {
            proof {
                assert((done + own.take(j + 1)).drop_last() =~= done + own.take(j as int));
                assert((done + own.take(j + 1)).last() == book.available_types[j as int]@);
            }
            add_new(&mut types, book.available_types[j].clone());
            j += 1;
        }
        proof {
            assert(own.take(own.len() as int) =~= own);
        }
        i += 1;
    }
    assert(books.deep_view().take(books.len() as int) =~= books.deep_view());
    let fb2 = String::from_str("fb2");
    if holds(&types, &fb2) {
        add_new(&mut types, String::from_str("epub"));
        add_new(&mut types, String::from_str("mobi"));
        add_new(&mut types, String::from_str("fb2zip"));
    }
    types
}

/// Adding a text that may be there already keeps a sequence free of
/// repeats.
pub proof fn lemma_with_new(texts: Seq<Seq<char>>, text: Seq<char>)
    requires
        texts.no_duplicates(),
    ensures
        with_new(texts, text).no_duplicates(),
        forall|t: Seq<char>| with_new(texts, text).contains(t) <==> texts.contains(t) || t == text,
{
    let added = with_new(texts, text);
    if !texts.contains(text) {
        assert forall|i: int, j: int|
            0 <= i < added.len() && 0 <= j < added.len() && i != j implies added[i] != added[j] by {
            if i < texts.len() && j < texts.len() {
                assert(texts[i] != texts[j]);
            } else if i < texts.len() {
                assert(texts.contains(texts[i]));
            } else {
                assert(texts.contains(texts[j]));
            }
        }
    }
    assert forall|t: Seq<char>| added.contains(t) <==> texts.contains(t) || t == text by {
        if added.contains(t) {
            let w = choose|w: int| 0 <= w < added.len() && added[w] == t;
            if w < texts.len() {
                assert(texts[w] == t);
            }
        }
        if texts.contains(t) {
            let w = choose|w: int| 0 <= w < texts.len() && texts[w] == t;
            assert(added[w] == t);
        }
        if t == text && !texts.contains(text) {
            assert(added[texts.len() as int] == t);
        }
    }
}

/// The first mentions of a sequence hold what the sequence holds, each
/// text once.
pub proof fn lemma_first_mentions(texts: Seq<Seq<char>>)
    ensures
        first_mentions(texts).no_duplicates(),
        forall|t: Seq<char>| first_mentions(texts).contains(t) <==> texts.contains(t),
    decreases texts.len(),
{
    if texts.len() > 0 {
        let shorter = texts.drop_last();
        lemma_first_mentions(shorter);
        lemma_with_new(first_mentions(shorter), texts.last());
        assert forall|t: Seq<char>| first_mentions(texts).contains(t) <==> texts.contains(t) by {
            if texts.contains(t) {
                let w = choose|w: int| 0 <= w < texts.len() && texts[w] == t;
                if w < shorter.len() {
                    assert(shorter[w] == t);
                }
            }
            if shorter.contains(t) {
                let w = choose|w: int| 0 <= w < shorter.len() && shorter[w] == t;
                assert(texts[w] == t);
            }
            if t == texts.last() {
                assert(texts[texts.len() - 1] == t);
            }
        }
    }
}

/// A format is among those of all the books exactly when one of the books
/// is offered in it.
pub proof fn lemma_all_types(books: Seq<BaseBookView>, text: Seq<char>)
    ensures
        all_types(books).contains(text) <==> exists|i: int|
            0 <= i < books.len() && (#[trigger] books[i]).available_types.contains(text),
    decreases books.len(),
{
    if books.len() > 0 {
        let shorter = books.drop_last();
        let own = books.last().available_types;
        let head = all_types(shorter);
        lemma_all_types(shorter, text);
        if all_types(books).contains(text) {
            let w = choose|w: int| 0 <= w < all_types(books).len() && all_types(books)[w] == text;
            if w < head.len() {
                assert(head[w] == text);
                let i = choose|i: int|
                    0 <= i < shorter.len() && (#[trigger] shorter[i]).available_types.contains(
                        text,
                    );
                assert(books[i].available_types.contains(text));
            } else {
                assert(own[w - head.len()] == text);
                assert(books[books.len() - 1].available_types.contains(text));
            }
        }
        if exists|i: int|
            0 <= i < books.len() && (#[trigger] books[i]).available_types.contains(text) {
            let i = choose|i: int|
                0 <= i < books.len() && (#[trigger] books[i]).available_types.contains(text);
            if i < shorter.len() {
                assert(shorter[i].available_types.contains(text));
                let w = choose|w: int| 0 <= w < head.len() && head[w] == text;
                assert(all_types(books)[w] == text);
            } else {
                let w = choose|w: int| 0 <= w < own.len() && own[w] == text;
                assert(all_types(books)[head.len() + w] == text);
            }
        }
    }
}

/// Whether one of `books` is offered as `text`.
pub open spec fn offered_by_some(books: Seq<BaseBookView>, text: Seq<char>) -> bool {
    exists|i: int| 0 <= i < books.len() && (#[trigger] books[i]).available_types.contains(text)
}

/// The formats offered for a set of books are the union of the formats of
/// the books, with the three derived formats forced in where one of the
/// books is offered as "fb2"; no format is listed twice.
pub proof fn lemma_offered_types(books: Seq<BaseBookView>)
    ensures
        offered_types(books).no_duplicates(),
        forall|t: Seq<char>| #[trigger]
            offered_types(books).contains(t) <==> offered_by_some(books, t) || (offered_by_some(
                books,
                "fb2"@,
            ) && (t == "epub"@ || t == "mobi"@ || t == "fb2zip"@)),
{
    let union = first_mentions(all_types(books));
    lemma_first_mentions(all_types(books));
    lemma_all_types(books, "fb2"@);
    assert forall|t: Seq<char>| #[trigger]
        offered_types(books).contains(t) <==> offered_by_some(books, t) || (offered_by_some(
            books,
            "fb2"@,
        ) && (t == "epub"@ || t == "mobi"@ || t == "fb2zip"@)) by {
        lemma_all_types(books, t);
        if union.contains("fb2"@) {
            let a = with_new(union, "epub"@);
            let b = with_new(a, "mobi"@);
            lemma_with_new(union, "epub"@);
            lemma_with_new(a, "mobi"@);
            lemma_with_new(b, "fb2zip"@);
        }
    }
    if union.contains("fb2"@) {
        let a = with_new(union, "epub"@);
        let b = with_new(a, "mobi"@);
        lemma_with_new(union, "epub"@);
        lemma_with_new(a, "mobi"@);
        lemma_with_new(b, "fb2zip"@);
    }
}

} // verus!
