//! The constructor that an annotation yields.

use crate::constructor::constructor_struct_attrs::{
    ConstructorStructAttrs, ConstructorStructAttrsView,
};
use crate::error::GenerationError;
use crate::method::{
    method_view, GeneratedMethod, GeneratedMethodView, MethodBody, MethodBodyView, Parameter,
    ParameterView, ReturnShape, ReturnShapeView,
};
use crate::record::{field_names, FieldView, Record};
use vstd::prelude::*;

verus! {

/// One parameter for each field, in declaration order, with the field's name
/// and type.
pub open spec fn constructor_params(fields: Seq<FieldView>) -> Seq<ParameterView> {
    Seq::new(fields.len(), |i: int| ParameterView { name: fields[i].name->0, ty: fields[i].ty })
}

/// What `constructor` yields for a record of named fields: one method with the
/// configured name and visibility that takes no `self`, has one parameter for
/// each field and builds the record from them. A field without a name makes
/// it fail.
pub open spec fn spec_process_constructor(
    attrs: ConstructorStructAttrsView,
    fields: Seq<FieldView>,
) -> Result<GeneratedMethodView, GenerationError> {
    match field_names(fields) {
        Some(names) => Ok(
            GeneratedMethodView {
                name: attrs.name,
                visibility: attrs.visibility,
                receiver: None,
                params: constructor_params(fields),
                returns: ReturnShapeView::Record,
                body: MethodBodyView::Construct { fields: names },
            },
        ),
        None => Err(GenerationError::UnsupportedFieldShape),
    }
}

/// Generates the constructor of a record based on the provided
/// `ConstructorStructAttrs`
pub fn process_constructor(attrs: ConstructorStructAttrs, input: &Record) -> (r: Result<
    GeneratedMethod,
    GenerationError,
>)
    ensures
        method_view(r) == spec_process_constructor(attrs@, input@.fields),
{
    let ghost fields = input@.fields;
    let mut constructor_args: Vec<Parameter> = Vec::new();
    let mut constructor_values: Vec<String> = Vec::new();
    for i in 0..input.fields.len()
        invariant
            fields == input@.fields,
            constructor_args.len() == i,
            constructor_values.len() == i,
            forall|j: int| 0 <= j < i ==> (#[trigger] fields[j]).name is Some,
            forall|j: int|
                0 <= j < i ==> (#[trigger] constructor_args[j])@ == constructor_params(fields)[j],
            forall|j: int| 0 <= j < i ==> (#[trigger] constructor_values[j])@ == fields[j].name->0,
    {
        let field = &input.fields[i];
        assert(field@ == fields[i as int]);
        let field_name = match &field.name {
            Some(name) => name,
            None => {
                assert(field_names(fields) is None);
                return Err(GenerationError::UnsupportedFieldShape);
            },
        };

        constructor_args.push(Parameter { name: field_name.clone(), ty: field.ty.clone() });
        constructor_values.push(field_name.clone());
    }
    assert(constructor_args.deep_view() =~= constructor_params(fields));
    assert(constructor_values.deep_view() =~= field_names(fields)->0);

    Ok(
        GeneratedMethod {
            name: attrs.name,
            visibility: attrs.visibility,
            receiver: None,
            params: constructor_args,
            returns: ReturnShape::Record,
            body: MethodBody::Construct { fields: constructor_values },
        },
    )
}

} // verus!
