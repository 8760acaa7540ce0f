//! The filter compiler: from a structured filter with optional fields to
//! the conjunction of predicates that the relational store evaluates.

use crate::text::clone_texts;
use chrono::NaiveDate;
use vstd::prelude::*;

verus! {

/// The language codes that are allowed when a request names none.
pub open spec fn default_lang_codes() -> Seq<Seq<char>> {
    seq!["ru"@, "be"@, "uk"@]
}

/// The language codes that are allowed when a request names none.
pub fn default_langs() -> (langs: Vec<String>)
    ensures
        langs.deep_view() == default_lang_codes(),
{
    let mut langs: Vec<String> = Vec::new();
    langs.push(String::from_str("ru"));
    langs.push(String::from_str("be"));
    langs.push(String::from_str("uk"));
    assert(langs.deep_view() =~= default_lang_codes());
    langs
}

/// The languages in which a request accepts results.
#[derive(Debug, PartialEq, Eq)]
pub struct AllowedLangs {
    pub allowed_langs: Vec<String>,
}

impl Default for AllowedLangs {
    fn default() -> (langs: Self)
        ensures
            langs.allowed_langs.deep_view() == default_lang_codes(),
    {
        AllowedLangs { allowed_langs: default_langs() }
    }
}

/// The column, or the side of a range over one, that a predicate constrains.
#[derive(Clone, Copy, Debug, PartialEq, Eq, Structural)]
pub enum Field {
    Lang,
    Deleted,
    UploadedFrom,
    UploadedUntil,
    IdFrom,
    IdUntil,
    Meta,
}

/// One condition on a row of the store. A set of them is a conjunction.
#[derive(Debug, PartialEq, Eq)]
pub enum Predicate {
    /// The language is one of these codes.
    LangIn(Vec<String>),
    /// The deletion flag has this value.
    Deleted(bool),
    /// The upload date is this day or a later one.
    UploadedFrom(NaiveDate),
    /// The upload date is this day or an earlier one.
    UploadedUntil(NaiveDate),
    /// The id is at least this.
    IdFrom(i32),
    /// The id is at most this.
    IdUntil(i32),
    /// The classification tag reads exactly this.
    MetaIs(String),
}

/// What a `Predicate` holds.
pub enum PredicateView {
    LangIn(Seq<Seq<char>>),
    Deleted(bool),
    UploadedFrom(NaiveDate),
    UploadedUntil(NaiveDate),
    IdFrom(int),
    IdUntil(int),
    MetaIs(Seq<char>),
}

impl PredicateView {
    /// The field that the predicate constrains.
    pub open spec fn field(self) -> Field {
        match self {
            PredicateView::LangIn(_) => Field::Lang,
            PredicateView::Deleted(_) => Field::Deleted,
            PredicateView::UploadedFrom(_) => Field::UploadedFrom,
            PredicateView::UploadedUntil(_) => Field::UploadedUntil,
            PredicateView::IdFrom(_) => Field::IdFrom,
            PredicateView::IdUntil(_) => Field::IdUntil,
            PredicateView::MetaIs(_) => Field::Meta,
        }
    }
}

impl View for Predicate {
    type V = PredicateView;

    open spec fn view(&self) -> PredicateView {
        match *self {
            Predicate::LangIn(langs) => PredicateView::LangIn(langs.deep_view()),
            Predicate::Deleted(deleted) => PredicateView::Deleted(deleted),
            Predicate::UploadedFrom(day) => PredicateView::UploadedFrom(day),
            Predicate::UploadedUntil(day) => PredicateView::UploadedUntil(day),
            Predicate::IdFrom(id) => PredicateView::IdFrom(id as int),
            Predicate::IdUntil(id) => PredicateView::IdUntil(id as int),
            Predicate::MetaIs(meta) => PredicateView::MetaIs(meta@),
        }
    }
}

impl DeepView for Predicate {
    type V = PredicateView;

    open spec fn deep_view(&self) -> PredicateView {
        self@
    }
}

impl Predicate {
    /// The field that the predicate constrains.
    pub fn field(&self) -> (field: Field)
        ensures
            field == self@.field(),
    {
        match self {
            Predicate::LangIn(_) => Field::Lang,
            Predicate::Deleted(_) => Field::Deleted,
            Predicate::UploadedFrom(_) => Field::UploadedFrom,
            Predicate::UploadedUntil(_) => Field::UploadedUntil,
            Predicate::IdFrom(_) => Field::IdFrom,
            Predicate::IdUntil(_) => Field::IdUntil,
            Predicate::MetaIs(_) => Field::Meta,
        }
    }
}

/// The predicate that an optional field contributes: one when the field
/// is present, none when it is absent.
pub open spec fn contribution(predicate: Option<PredicateView>) -> Seq<PredicateView> {
    match predicate {
        Some(p) => seq![p],
        None => Seq::empty(),
    }
}

/// No two predicates of `predicates` constrain the same field.
pub open spec fn one_per_field(predicates: Seq<PredicateView>) -> bool {
    forall|i: int, j: int|
        0 <= i < j < predicates.len() ==> (#[trigger] predicates[i]).field() != (
        #[trigger] predicates[j]).field()
}

/// Some predicate of `predicates` constrains `field`.
pub open spec fn constrains(predicates: Seq<PredicateView>, field: Field) -> bool {
    exists|i: int| 0 <= i < predicates.len() && (#[trigger] predicates[i]).field() == field
}

/// What a request asks of the books it lists.
#[derive(Debug, PartialEq, Eq)]
pub struct BookFilter {
    /// The language codes that are accepted.
    pub allowed_langs: Vec<String>,
    /// The deletion state that is asked for; books that are not deleted
    /// when absent.
    pub is_deleted: Option<bool>,
    /// The first upload date that is accepted.
    pub uploaded_gte: Option<NaiveDate>,
    /// The last upload date that is accepted.
    pub uploaded_lte: Option<NaiveDate>,
    /// The least id that is accepted.
    pub id_gte: Option<i32>,
    /// The greatest id that is accepted.
    pub id_lte: Option<i32>,
}

impl BookFilter {
    /// The predicates that the filter stands for: language membership
    /// and deletion state always, then one for each bound that is
    /// present. A lower bound above its upper bound is kept as it is:
    /// the conjunction then matches nothing.
    pub open spec fn compiled(&self) -> Seq<PredicateView> {
        seq![
            PredicateView::LangIn(self.allowed_langs.deep_view()),
            PredicateView::Deleted(
                match self.is_deleted {
                    Some(deleted) => deleted,
                    None => false,
                },
            ),
        ] + contribution(
            match self.uploaded_gte {
                Some(day) => Some(PredicateView::UploadedFrom(day)),
                None => None,
            },
        ) + contribution(
            match self.uploaded_lte {
                Some(day) => Some(PredicateView::UploadedUntil(day)),
                None => None,
            },
        ) + contribution(
            match self.id_gte {
                Some(id) => Some(PredicateView::IdFrom(id as int)),
                None => None,
            },
        ) + contribution(
            match self.id_lte {
                Some(id) => Some(PredicateView::IdUntil(id as int)),
                None => None,
            },
        )
    }

    /// The filter that a request without parameters stands for: the
    /// default languages and no other field.
    pub fn new() -> (filter: Self)
        ensures
            filter.allowed_langs.deep_view() == default_lang_codes(),
            filter.is_deleted is None,
            filter.uploaded_gte is None,
            filter.uploaded_lte is None,
            filter.id_gte is None,
            filter.id_lte is None,
    {
        BookFilter {
            allowed_langs: default_langs(),
            is_deleted: None,
            uploaded_gte: None,
            uploaded_lte: None,
            id_gte: None,
            id_lte: None,
        }
    }

    /// Compiles the filter into the conjunction that the store evaluates.
    pub fn compile(&self) -> (predicates: Vec<Predicate>)
        ensures
            predicates.deep_view() == self.compiled(),
    {
        let mut predicates: Vec<Predicate> = Vec::new();
        predicates.push(Predicate::LangIn(clone_texts(&self.allowed_langs)));
        let deleted = match self.is_deleted {
            Some(deleted) => deleted,
            None => false,
        };
        predicates.push(Predicate::Deleted(deleted));
        assert(predicates.deep_view() =~= seq![
            PredicateView::LangIn(self.allowed_langs.deep_view()),
            PredicateView::Deleted(deleted),
        ]);
        let ghost mut so_far = predicates.deep_view();
        if let Some(day) = self.uploaded_gte {
            predicates.push(Predicate::UploadedFrom(day));
        }
        assert(predicates.deep_view() =~= so_far + contribution(
            match self.uploaded_gte {
                Some(day) => Some(PredicateView::UploadedFrom(day)),
                None => None,
            },
        ));
        proof {
            so_far = predicates.deep_view();
        }
        if let Some(day) = self.uploaded_lte {
            predicates.push(Predicate::UploadedUntil(day));
        }
        assert(predicates.deep_view() =~= so_far + contribution(
            match self.uploaded_lte {
                Some(day) => Some(PredicateView::UploadedUntil(day)),
                None => None,
            },
        ));
        proof {
            so_far = predicates.deep_view();
        }
        if let Some(id) = self.id_gte {
            predicates.push(Predicate::IdFrom(id));
        }
        assert(predicates.deep_view() =~= so_far + contribution(
            match self.id_gte {
                Some(id) => Some(PredicateView::IdFrom(id as int)),
                None => None,
            },
        ));
        proof {
            so_far = predicates.deep_view();
        }
        if let Some(id) = self.id_lte {
            predicates.push(Predicate::IdUntil(id));
        }
        assert(predicates.deep_view() =~= so_far + contribution(
            match self.id_lte {
                Some(id) => Some(PredicateView::IdUntil(id as int)),
                None => None,
            },
        ));
        predicates
    }
}

/// What a request asks of the genres it lists.
#[derive(Debug, PartialEq, Eq)]
pub struct GenreFilter {
    /// The classification tag that is asked for.
    pub meta: Option<String>,
}

impl GenreFilter {
    /// The predicates that the filter stands for: one on the tag when it
    /// is present, none when it is absent.
    pub open spec fn compiled(&self) -> Seq<PredicateView> {
        contribution(
            match self.meta {
                Some(meta) => Some(PredicateView::MetaIs(meta@)),
                None => None,
            },
        )
    }

    /// Compiles the filter into the conjunction that the store evaluates.
    pub fn compile(&self) -> (predicates: Vec<Predicate>)
        ensures
            predicates.deep_view() == self.compiled(),
    {
        let mut predicates: Vec<Predicate> = Vec::new();
        if let Some(meta) = &self.meta {
            predicates.push(Predicate::MetaIs(meta.clone()));
        }
        assert(predicates.deep_view() =~= self.compiled());
        predicates
    }
}

/// Whatever a book filter holds, its predicates name no field twice, and
/// language membership and deletion state are always among them, first
/// and second.
pub proof fn lemma_book_filter_fields(filter: BookFilter)
    ensures
        one_per_field(filter.compiled()),
        constrains(filter.compiled(), Field::Lang),
        constrains(filter.compiled(), Field::Deleted),
        filter.compiled()[0] == PredicateView::LangIn(filter.allowed_langs.deep_view()),
        filter.compiled()[1] is Deleted,
        2 <= filter.compiled().len() <= 6,
{
    let p = filter.compiled();
    assert(p[0].field() == Field::Lang);
    assert(p[1].field() == Field::Deleted);
    lemma_book_filter_ascending(filter);
    assert forall|i: int, j: int| 0 <= i < j < p.len() implies (#[trigger] p[i]).field() != (
    #[trigger] p[j]).field() by {
        assert(field_rank(p[i].field()) < field_rank(p[j].field()));
    }
}

/// The place of a field in the order in which predicates are emitted.
pub open spec fn field_rank(field: Field) -> int {
    match field {
        Field::Lang => 0,
        Field::Deleted => 1,
        Field::UploadedFrom => 2,
        Field::UploadedUntil => 3,
        Field::IdFrom => 4,
        Field::IdUntil => 5,
        Field::Meta => 6,
    }
}

/// The predicates of a book filter come in the order of their fields.
pub proof fn lemma_book_filter_ascending(filter: BookFilter)
    ensures
        forall|i: int, j: int|
            0 <= i < j < filter.compiled().len() ==> field_rank(
                (#[trigger] filter.compiled()[i]).field(),
            ) < field_rank((#[trigger] filter.compiled()[j]).field()),
        2 <= filter.compiled().len() <= 6,
{
    let a = seq![
        PredicateView::LangIn(filter.allowed_langs.deep_view()),
        PredicateView::Deleted(
            match filter.is_deleted {
                Some(deleted) => deleted,
                None => false,
            },
        ),
    ];
    let b = a + contribution(
        match filter.uploaded_gte {
            Some(day) => Some(PredicateView::UploadedFrom(day)),
            None => None,
        },
    );
    let c = b + contribution(
        match filter.uploaded_lte {
            Some(day) => Some(PredicateView::UploadedUntil(day)),
            None => None,
        },
    );
    let d = c + contribution(
        match filter.id_gte {
            Some(id) => Some(PredicateView::IdFrom(id as int)),
            None => None,
        },
    );
    let e = d + contribution(
        match filter.id_lte {
            Some(id) => Some(PredicateView::IdUntil(id as int)),
            None => None,
        },
    );
    assert(e == filter.compiled());
    assert(forall|i: int| 0 <= i < a.len() ==> field_rank((#[trigger] a[i]).field()) <= 1);
    assert(forall|i: int| 0 <= i < b.len() ==> field_rank((#[trigger] b[i]).field()) <= 2);
    assert(forall|i: int| 0 <= i < c.len() ==> field_rank((#[trigger] c[i]).field()) <= 3);
    assert(forall|i: int| 0 <= i < d.len() ==> field_rank((#[trigger] d[i]).field()) <= 4);
    assert(forall|i: int, j: int|
        0 <= i < j < a.len() ==> field_rank((#[trigger] a[i]).field()) < field_rank(
            (#[trigger] a[j]).field(),
        ));
    assert(forall|i: int, j: int|
        0 <= i < j < b.len() ==> field_rank((#[trigger] b[i]).field()) < field_rank(
            (#[trigger] b[j]).field(),
        ));
    assert(forall|i: int, j: int|
        0 <= i < j < c.len() ==> field_rank((#[trigger] c[i]).field()) < field_rank(
            (#[trigger] c[j]).field(),
        ));
    assert(forall|i: int, j: int|
        0 <= i < j < d.len() ==> field_rank((#[trigger] d[i]).field()) < field_rank(
            (#[trigger] d[j]).field(),
        ));
}

/// A book filter without any optional field compiles to exactly two
/// predicates: membership in its languages, and not deleted.
pub proof fn lemma_bare_filter_compiles_to_two(filter: BookFilter)
    requires
        filter.is_deleted is None,
        filter.uploaded_gte is None,
        filter.uploaded_lte is None,
        filter.id_gte is None,
        filter.id_lte is None,
    ensures
        filter.compiled() == seq![
            PredicateView::LangIn(filter.allowed_langs.deep_view()),
            PredicateView::Deleted(false),
        ],
{
    assert(filter.compiled() =~= seq![
        PredicateView::LangIn(filter.allowed_langs.deep_view()),
        PredicateView::Deleted(false),
    ]);
}

/// Each optional field of a book filter contributes one predicate when it
/// is present and none when it is absent.
pub proof fn lemma_book_filter_length(filter: BookFilter)
    ensures
        filter.compiled().len() == 2 + (if filter.uploaded_gte is Some {
            1int
        } else {
            0
        }) + (if filter.uploaded_lte is Some {
            1int
        } else {
            0
        }) + (if filter.id_gte is Some {
            1int
        } else {
            0
        }) + (if filter.id_lte is Some {
            1int
        } else {
            0
        }),
        filter.uploaded_gte is Some <==> constrains(filter.compiled(), Field::UploadedFrom),
        filter.uploaded_lte is Some <==> constrains(filter.compiled(), Field::UploadedUntil),
        filter.id_gte is Some <==> constrains(filter.compiled(), Field::IdFrom),
        filter.id_lte is Some <==> constrains(filter.compiled(), Field::IdUntil),
        !constrains(filter.compiled(), Field::Meta),
{
    let p = filter.compiled();
    let a = contribution(
        match filter.uploaded_gte {
            Some(day) => Some(PredicateView::UploadedFrom(day)),
            None => None,
        },
    );
    let b = contribution(
        match filter.uploaded_lte {
            Some(day) => Some(PredicateView::UploadedUntil(day)),
            None => None,
        },
    );
    let c = contribution(
        match filter.id_gte {
            Some(id) => Some(PredicateView::IdFrom(id as int)),
            None => None,
        },
    );
    let d = contribution(
        match filter.id_lte {
            Some(id) => Some(PredicateView::IdUntil(id as int)),
            None => None,
        },
    );
    if filter.uploaded_gte is Some {
        assert(p[2].field() == Field::UploadedFrom);
    }
    if filter.uploaded_lte is Some {
        assert(p[2 + a.len() as int].field() == Field::UploadedUntil);
    }
    if filter.id_gte is Some {
        assert(p[2 + a.len() as int + b.len() as int].field() == Field::IdFrom);
    }
    if filter.id_lte is Some {
        assert(p[2 + a.len() as int + b.len() as int + c.len() as int].field() == Field::IdUntil);
    }
    assert forall|i: int| 0 <= i < p.len() implies match (#[trigger] p[i]).field() {
        Field::Lang => true,
        Field::Deleted => true,
        Field::UploadedFrom => filter.uploaded_gte is Some,
        Field::UploadedUntil => filter.uploaded_lte is Some,
        Field::IdFrom => filter.id_gte is Some,
        Field::IdUntil => filter.id_lte is Some,
        Field::Meta => false,
    } by {
        if i < 2 {
        } else if i < 2 + a.len() {
        } else if i < 2 + a.len() + b.len() {
        } else if i < 2 + a.len() + b.len() + c.len() {
        } else {
        }
    }
}

/// A genre filter names its one field at most once.
pub proof fn lemma_genre_filter_fields(filter: GenreFilter)
    ensures
        one_per_field(filter.compiled()),
        filter.compiled().len() == (if filter.meta is Some {
            1int
        } else {
            0
        }),
        filter.meta is Some <==> constrains(filter.compiled(), Field::Meta),
{
    let p = filter.compiled();
    if filter.meta is Some {
        assert(p[0].field() == Field::Meta);
    }
}

} // verus!
