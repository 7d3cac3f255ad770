//! The input of a generation pass: a record, its fields and their annotations.

use crate::token::{ArgToken, ArgTokenView};
use vstd::prelude::*;

verus! {

/// A named directive attached to a record or to a field.
#[derive(Debug, Clone, PartialEq, Eq)]
pub struct Annotation {
    /// The annotation's name, such as `getters`.
    pub name: String,
    /// Its arguments in source order; `None` where it is written without an
    /// argument list.
    pub args: Option<Vec<ArgToken>>,
}

/// The mathematical value of an [`Annotation`].
pub struct AnnotationView {
    pub name: Seq<char>,
    pub args: Option<Seq<ArgTokenView>>,
}

impl DeepView for Annotation {
    type V = AnnotationView;

    open spec fn deep_view(&self) -> AnnotationView {
        AnnotationView { name: self.name@, args: self.args.deep_view() }
    }
}

impl View for Annotation {
    type V = AnnotationView;

    open spec fn view(&self) -> AnnotationView {
        self.deep_view()
    }
}

/// One member of a record.
#[derive(Debug, Clone, PartialEq, Eq)]
pub struct Field {
    /// The field's name; `None` for a positional field.
    pub name: Option<String>,
    /// The declared type, never looked into.
    pub ty: String,
    /// Whether the field is public.
    pub public: bool,
    /// The annotations on the field, in source order.
    pub attrs: Vec<Annotation>,
}

/// The mathematical value of a [`Field`].
pub struct FieldView {
    pub name: Option<Seq<char>>,
    pub ty: Seq<char>,
    pub public: bool,
    pub attrs: Seq<AnnotationView>,
}

impl DeepView for Field {
    type V = FieldView;

    open spec fn deep_view(&self) -> FieldView {
        FieldView {
            name: self.name.deep_view(),
            ty: self.ty@,
            public: self.public,
            attrs: self.attrs.deep_view(),
        }
    }
}

impl View for Field {
    type V = FieldView;

    open spec fn view(&self) -> FieldView {
        self.deep_view()
    }
}

/// A record definition with everything attached to it.
#[derive(Debug, Clone, PartialEq, Eq)]
pub struct Record {
    /// The annotations on the record itself, in source order.
    pub attrs: Vec<Annotation>,
    /// The fields in declaration order.
    pub fields: Vec<Field>,
}

/// The mathematical value of a [`Record`].
pub struct RecordView {
    pub attrs: Seq<AnnotationView>,
    pub fields: Seq<FieldView>,
}

impl DeepView for Record {
    type V = RecordView;

    open spec fn deep_view(&self) -> RecordView {
        RecordView { attrs: self.attrs.deep_view(), fields: self.fields.deep_view() }
    }
}

impl View for Record {
    type V = RecordView;

    open spec fn view(&self) -> RecordView {
        self.deep_view()
    }
}

/// The names of `fields` in declaration order, where every field has one.
pub open spec fn field_names(fields: Seq<FieldView>) -> Option<Seq<Seq<char>>> {
    if forall|i: int| 0 <= i < fields.len() ==> (#[trigger] fields[i]).name is Some {
        Some(Seq::new(fields.len(), |i: int| fields[i].name->0))
    } else {
        None
    }
}

} // verus!
