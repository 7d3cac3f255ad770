//! Field selection, and the shapes of a getter and of a setter.

use crate::accessors::accessor_struct_attrs::{AccessorStructAttrs, AccessorStructAttrsView};
use crate::constructor::constructor_visibility::{ConstructorVisibility, ConstructorVisibilityView};
use crate::error::GenerationError;
use crate::method::{
    GeneratedMethod, GeneratedMethodView, MethodBody, MethodBodyView, Parameter, ParameterView,
    ReturnShape, ReturnShapeView,
};
use crate::modifier::Modifier;
use crate::record::{field_names, Field, FieldView};
use vstd::prelude::*;
use vstd::string::*;

verus! {

/// The list of included names once the default is filled in: a list that
/// names something stays as it is, an empty one becomes the names of all
/// fields in declaration order. Filling in needs every field's name.
pub open spec fn spec_fill_includes(includes: Seq<Seq<char>>, fields: Seq<FieldView>) -> Result<
    Seq<Seq<char>>,
    GenerationError,
> {
    if includes.len() != 0 {
        Ok(includes)
    } else {
        match field_names(fields) {
            Some(names) => Ok(names),
            None => Err(GenerationError::UnsupportedFieldShape),
        }
    }
}

/// The visibility gate: a public field passes only where public fields are
/// asked for.
pub open spec fn spec_should_add_pub(attrs: AccessorStructAttrsView, field: FieldView) -> bool {
    attrs.include_pub || !field.public
}

/// The selection gate: the field's name is among the included names, or none
/// are given, and it is not among the excluded ones. A field without a name
/// cannot be looked up.
pub open spec fn spec_should_include(attrs: AccessorStructAttrsView, field: FieldView) -> Result<
    bool,
    GenerationError,
> {
    match field.name {
        Some(name) => Ok(
            (attrs.includes.len() == 0 || attrs.includes.contains(name))
                && !attrs.excludes.contains(name),
        ),
        None => Err(GenerationError::UnsupportedFieldShape),
    }
}

/// Whether the field gets an accessor: it has to pass both gates. The
/// visibility gate is asked first, and a field that it turns away is never
/// looked up by name.
pub open spec fn spec_should_field_be_added(
    attrs: AccessorStructAttrsView,
    field: FieldView,
) -> Result<bool, GenerationError> {
    if spec_should_add_pub(attrs, field) {
        spec_should_include(attrs, field)
    } else {
        Ok(false)
    }
}

/// The name of the one parameter of a setter.
pub open spec fn setter_parameter() -> Seq<char> {
    "value"@
}

/// A public getter called `name` for the field `field_name` of type `ty`: it
/// takes `self` through `modifier`, returns the field's type through the same
/// mode and reads the field through it.
pub open spec fn getter(
    name: Seq<char>,
    modifier: Modifier,
    field_name: Seq<char>,
    ty: Seq<char>,
) -> GeneratedMethodView {
    GeneratedMethodView {
        name,
        visibility: ConstructorVisibilityView::Pub,
        receiver: Some(modifier),
        params: Seq::empty(),
        returns: ReturnShapeView::FieldType { access: modifier, ty },
        body: MethodBodyView::Read { access: modifier, field: field_name },
    }
}

/// A public setter called `name` for the field `field_name` of type `ty`: it
/// takes `&mut self` and one parameter of the field's type, returns nothing
/// and assigns the parameter to the field.
pub open spec fn setter(
    name: Seq<char>,
    field_name: Seq<char>,
    ty: Seq<char>,
) -> GeneratedMethodView {
    GeneratedMethodView {
        name,
        visibility: ConstructorVisibilityView::Pub,
        receiver: Some(Modifier::MutRef),
        params: seq![ParameterView { name: setter_parameter(), ty }],
        returns: ReturnShapeView::Unit,
        body: MethodBodyView::Assign { field: field_name, parameter: setter_parameter() },
    }
}

/// Whether `name` occurs in `names`.
pub fn contains_name(names: &Vec<String>, name: &String) -> (found: bool)
    ensures
        found == names.deep_view().contains(name@),
{
    for i in 0..names.len()
        invariant
            forall|j: int| 0 <= j < i ==> names.deep_view()[j] != name@,
    {
        if names[i] == *name {
            assert(names.deep_view()[i as int] == name@);
            return true;
        }
    }
    false
}

/// Fills an empty list of included names with the names of all fields, in
/// declaration order. A list that names something is left alone, and so is
/// the list when a field has no name.
pub fn fill_includes_if_empty(includes: &mut Vec<String>, fields: &Vec<Field>) -> (r: Result<
    (),
    GenerationError,
>)
    ensures
        spec_fill_includes(old(includes).deep_view(), fields.deep_view()) matches Ok(filled)
            ==> r is Ok && final(includes).deep_view() == filled,
        spec_fill_includes(old(includes).deep_view(), fields.deep_view()) matches Err(error)
            ==> r == Err::<(), GenerationError>(error)
            && final(includes).deep_view() == old(includes).deep_view(),
{
    if !includes.is_empty() {
        return Ok(());
    }
    let mut names: Vec<String> = Vec::new();
    for i in 0..fields.len()
        invariant
            includes.deep_view().len() == 0,
            names.len() == i,
            forall|j: int| 0 <= j < i ==> (#[trigger] fields.deep_view()[j]).name is Some,
            forall|j: int|
                0 <= j < i ==> (#[trigger] names[j])@ == fields.deep_view()[j].name->0,
    {
        match &fields[i].name {
            Some(name) => names.push(name.clone()),
            None => {
                assert(fields.deep_view()[i as int].name is None);
                assert(field_names(fields.deep_view()) is None);
                return Err(GenerationError::UnsupportedFieldShape);
            },
        }
    }
    assert(names.deep_view() =~= field_names(fields.deep_view())->0);
    *includes = names;
    Ok(())
}

/// The visibility gate of field selection: whether the field is open to
/// accessors as far as its visibility goes.
pub fn should_add_pub(attrs: &AccessorStructAttrs, field: &Field) -> (pass: bool)
    ensures
        pass == spec_should_add_pub(attrs@, field@),
{
    if !attrs.include_pub {
        if field.public {
            return false;
        }
    };

    true
}

/// The selection gate of field selection: checks the field's name against
/// the `includes` and `excludes` arguments. A field without a name is
/// `UnsupportedFieldShape`.
pub fn should_include(attrs: &AccessorStructAttrs, field: &Field) -> (r: Result<
    bool,
    GenerationError,
>)
    ensures
        r == spec_should_include(attrs@, field@),
{
    match &field.name {
        Some(name) => {
            if (!attrs.includes.is_empty() && !contains_name(&attrs.includes, name))
                || contains_name(&attrs.excludes, name) {
                return Ok(false);
            }
            Ok(true)
        },
        None => Err(GenerationError::UnsupportedFieldShape),
    }
}

/// Checks whether the field gets an accessor under a record-level
/// configuration: it has to pass the visibility gate and the selection gate.
pub fn should_field_be_added(attrs: &AccessorStructAttrs, field: &Field) -> (r: Result<
    bool,
    GenerationError,
>)
    ensures
        r == spec_should_field_be_added(attrs@, field@),
{
    if should_add_pub(attrs, field) {
        should_include(attrs, field)
    } else {
        Ok(false)
    }
}

/// Generates a single getter: a public method called `name` that hands out
/// the field `field_name` of type `ty` through the access mode `modifier`.
pub fn generate_getter(
    name: &String,
    modifier: &Modifier,
    field_name: &String,
    ty: &String,
) -> (method: GeneratedMethod)
    ensures
        method@ == getter(name@, *modifier, field_name@, ty@),
{
    let method = GeneratedMethod {
        name: name.clone(),
        visibility: ConstructorVisibility::Pub,
        receiver: Some(*modifier),
        params: Vec::new(),
        returns: ReturnShape::FieldType { access: *modifier, ty: ty.clone() },
        body: MethodBody::Read { access: *modifier, field: field_name.clone() },
    };
    assert(method.params.deep_view() =~= Seq::<ParameterView>::empty());
    method
}

/// Generates a single setter: a public method called `name` that takes
/// `&mut self` and a value of type `ty` and assigns it to the field
/// `field_name`.
pub fn generate_setter(name: &String, field_name: &String, ty: &String) -> (method: GeneratedMethod)
    ensures
        method@ == setter(name@, field_name@, ty@),
{
    let mut params: Vec<Parameter> = Vec::new();
    params.push(Parameter { name: String::from_str("value"), ty: ty.clone() });
    assert(params.deep_view() =~= seq![ParameterView { name: setter_parameter(), ty: ty@ }]);
    GeneratedMethod {
        name: name.clone(),
        visibility: ConstructorVisibility::Pub,
        receiver: Some(Modifier::MutRef),
        params,
        returns: ReturnShape::Unit,
        body: MethodBody::Assign {
            field: field_name.clone(),
            parameter: String::from_str("value"),
        },
    }
}

} // verus!
