//! The output of a generation pass: descriptions of the methods to emit.

use crate::constructor::constructor_visibility::{ConstructorVisibility, ConstructorVisibilityView};
use crate::error::GenerationError;
use crate::modifier::Modifier;
use vstd::prelude::*;

verus! {

/// One parameter of a generated method, besides `self`.
#[derive(Debug, Clone, PartialEq, Eq)]
pub struct Parameter {
    pub name: String,
    /// The parameter's type: that of a field, as declared.
    pub ty: String,
}

/// The mathematical value of a [`Parameter`].
pub struct ParameterView {
    pub name: Seq<char>,
    pub ty: Seq<char>,
}

impl DeepView for Parameter {
    type V = ParameterView;

    open spec fn deep_view(&self) -> ParameterView {
        ParameterView { name: self.name@, ty: self.ty@ }
    }
}

impl View for Parameter {
    type V = ParameterView;

    open spec fn view(&self) -> ParameterView {
        self.deep_view()
    }
}

/// What a generated method returns.
#[derive(Debug, Clone, PartialEq, Eq)]
pub enum ReturnShape {
    /// Nothing.
    Unit,
    /// A field's type `ty`: as it is for `Move`, behind `&` for `Ref`, behind
    /// `&mut` for `MutRef`.
    FieldType { access: Modifier, ty: String },
    /// The record itself.
    Record,
}

/// The mathematical value of a [`ReturnShape`].
pub enum ReturnShapeView {
    Unit,
    FieldType { access: Modifier, ty: Seq<char> },
    Record,
}

impl DeepView for ReturnShape {
    type V = ReturnShapeView;

    open spec fn deep_view(&self) -> ReturnShapeView {
        match *self {
            ReturnShape::Unit => ReturnShapeView::Unit,
            ReturnShape::FieldType { access, ty } => ReturnShapeView::FieldType { access, ty: ty@ },
            ReturnShape::Record => ReturnShapeView::Record,
        }
    }
}

impl View for ReturnShape {
    type V = ReturnShapeView;

    open spec fn view(&self) -> ReturnShapeView {
        self.deep_view()
    }
}

/// What the body of a generated method does.
#[derive(Debug, Clone, PartialEq, Eq)]
pub enum MethodBody {
    /// Hands out the field `field` of `self`, through the access mode `access`.
    Read { access: Modifier, field: String },
    /// Assigns the parameter `parameter` to the field `field` of `self`.
    Assign { field: String, parameter: String },
    /// Builds the record, each field of `fields` from the parameter of the
    /// same name.
    Construct { fields: Vec<String> },
}

/// The mathematical value of a [`MethodBody`].
pub enum MethodBodyView {
    Read { access: Modifier, field: Seq<char> },
    Assign { field: Seq<char>, parameter: Seq<char> },
    Construct { fields: Seq<Seq<char>> },
}

impl DeepView for MethodBody {
    type V = MethodBodyView;

    open spec fn deep_view(&self) -> MethodBodyView {
        match *self {
            MethodBody::Read { access, field } => MethodBodyView::Read { access, field: field@ },
            MethodBody::Assign { field, parameter } => MethodBodyView::Assign {
                field: field@,
                parameter: parameter@,
            },
            MethodBody::Construct { fields } => MethodBodyView::Construct {
                fields: fields.deep_view(),
            },
        }
    }
}

impl View for MethodBody {
    type V = MethodBodyView;

    open spec fn view(&self) -> MethodBodyView {
        self.deep_view()
    }
}

/// One method to attach to a record.
#[derive(Debug, Clone, PartialEq, Eq)]
pub struct GeneratedMethod {
    pub name: String,
    pub visibility: ConstructorVisibility,
    /// How the method takes `self`; `None` where it takes none.
    pub receiver: Option<Modifier>,
    /// The parameters after `self`, in order.
    pub params: Vec<Parameter>,
    pub returns: ReturnShape,
    pub body: MethodBody,
}

/// The mathematical value of a [`GeneratedMethod`].
pub struct GeneratedMethodView {
    pub name: Seq<char>,
    pub visibility: ConstructorVisibilityView,
    pub receiver: Option<Modifier>,
    pub params: Seq<ParameterView>,
    pub returns: ReturnShapeView,
    pub body: MethodBodyView,
}

impl DeepView for GeneratedMethod {
    type V = GeneratedMethodView;

    open spec fn deep_view(&self) -> GeneratedMethodView {
        GeneratedMethodView {
            name: self.name@,
            visibility: self.visibility@,
            receiver: self.receiver,
            params: self.params.deep_view(),
            returns: self.returns@,
            body: self.body@,
        }
    }
}

impl View for GeneratedMethod {
    type V = GeneratedMethodView;

    open spec fn view(&self) -> GeneratedMethodView {
        self.deep_view()
    }
}

/// The mathematical value of the outcome of generating several methods.
pub open spec fn methods_view(r: Result<Vec<GeneratedMethod>, GenerationError>) -> Result<
    Seq<GeneratedMethodView>,
    GenerationError,
> {
    match r {
        Ok(methods) => Ok(methods.deep_view()),
        Err(error) => Err(error),
    }
}

/// The mathematical value of the outcome of generating one method.
pub open spec fn method_view(r: Result<GeneratedMethod, GenerationError>) -> Result<
    GeneratedMethodView,
    GenerationError,
> {
    match r {
        Ok(method) => Ok(method@),
        Err(error) => Err(error),
    }
}

} // verus!
