//! The upstream origin of a record.

use vstd::prelude::*;

verus! {

/// The content provider from which a record was taken.
#[derive(Debug, PartialEq, Eq)]
pub struct Source {
    pub id: i32,
    pub name: String,
}

/// What a `Source` holds.
pub struct SourceView {
    pub id: i32,
    pub name: Seq<char>,
}

impl View for Source {
    type V = SourceView;

    open spec fn view(&self) -> SourceView {
        SourceView {
            id: self.id,
            name: self.name@,
        }
    }
}

impl DeepView for Source {
    type V = SourceView;

    open spec fn deep_view(&self) -> SourceView {
        self@
    }
}

impl Clone for Source {
    fn clone(&self) -> (copy: Self)
        ensures
            copy@ == self@,
    {
        Source {
            id: self.id,
            name: self.name.clone(),
        }
    }
}

} // verus!
