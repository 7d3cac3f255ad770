//! The visibility of a generated method.

use vstd::prelude::*;

verus! {

/// The visibility modifier of a generated method.
#[derive(Debug, Clone, PartialEq, Eq)]
pub enum ConstructorVisibility {
    /// `pub`
    Pub,
    /// `pub(path)`, with the path as it was written.
    PubPath(String),
    /// No modifier.
    Private,
}

/// The mathematical value of a [`ConstructorVisibility`].
pub enum ConstructorVisibilityView {
    Pub,
    PubPath(Seq<char>),
    Private,
}

impl DeepView for ConstructorVisibility {
    type V = ConstructorVisibilityView;

    open spec fn deep_view(&self) -> ConstructorVisibilityView {
        match *self {
            ConstructorVisibility::Pub => ConstructorVisibilityView::Pub,
            ConstructorVisibility::PubPath(path) => ConstructorVisibilityView::PubPath(path@),
            ConstructorVisibility::Private => ConstructorVisibilityView::Private,
        }
    }
}

impl View for ConstructorVisibility {
    type V = ConstructorVisibilityView;

    open spec fn view(&self) -> ConstructorVisibilityView {
        self.deep_view()
    }
}

} // verus!
