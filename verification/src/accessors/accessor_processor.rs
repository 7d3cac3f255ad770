//! The accessor methods that an annotation yields.

use crate::accessors::accessor_field_attrs::{AccessorFieldAttrs, AccessorFieldAttrsView};
use crate::accessors::accessor_struct_attrs::{narrow, AccessorStructAttrs, AccessorStructAttrsView};
use crate::error::GenerationError;
use crate::helpers::{
    fill_includes_if_empty, generate_getter, generate_setter, getter, setter,
    should_field_be_added, spec_fill_includes, spec_should_field_be_added,
};
use crate::method::{method_view, methods_view, GeneratedMethod, GeneratedMethodView};
use crate::record::{Field, FieldView, Record};
use vstd::prelude::*;
use vstd::string::*;

verus! {

/// The name of an accessor of the field called `field_name`: the name that the
/// configuration gives, or else the field's own, behind the prefix.
pub open spec fn accessor_name(attrs: AccessorFieldAttrsView, field_name: Seq<char>) -> Seq<char> {
    attrs.prefix + (if attrs.name.len() != 0 {
        attrs.name
    } else {
        field_name
    })
}

/// The prefix of a setter: `set_` where none is given.
pub open spec fn setter_prefix(prefix: Seq<char>) -> Seq<char> {
    if prefix.len() == 0 {
        "set_"@
    } else {
        prefix
    }
}

/// The getter of a named field under a field-level configuration.
pub open spec fn getter_of(attrs: AccessorFieldAttrsView, field: FieldView) -> GeneratedMethodView {
    getter(accessor_name(attrs, field.name->0), attrs.modifier, field.name->0, field.ty)
}

/// The setter of a named field under a field-level configuration. The access
/// mode of the configuration plays no part.
pub open spec fn setter_of(attrs: AccessorFieldAttrsView, field: FieldView) -> GeneratedMethodView {
    setter(
        accessor_name(
            AccessorFieldAttrsView { prefix: setter_prefix(attrs.prefix), ..attrs },
            field.name->0,
        ),
        field.name->0,
        field.ty,
    )
}

/// What `get` yields for a field: its getter, where the field has a name.
pub open spec fn spec_process_get(attrs: AccessorFieldAttrsView, field: FieldView) -> Result<
    GeneratedMethodView,
    GenerationError,
> {
    match field.name {
        Some(_) => Ok(getter_of(attrs, field)),
        None => Err(GenerationError::UnsupportedFieldShape),
    }
}

/// What `set` yields for a field: its setter, where the field has a name.
pub open spec fn spec_process_set(attrs: AccessorFieldAttrsView, field: FieldView) -> Result<
    GeneratedMethodView,
    GenerationError,
> {
    match field.name {
        Some(_) => Ok(setter_of(attrs, field)),
        None => Err(GenerationError::UnsupportedFieldShape),
    }
}

/// The test "this field gets an accessor" under a record-level configuration.
pub open spec fn selector(attrs: AccessorStructAttrsView) -> spec_fn(FieldView) -> bool {
    |field: FieldView| spec_should_field_be_added(attrs, field) == Ok::<bool, GenerationError>(true)
}

/// Whether selection under `attrs` meets a field that it cannot decide on.
pub open spec fn selection_fails(attrs: AccessorStructAttrsView, fields: Seq<FieldView>) -> bool {
    exists|i: int|
        0 <= i < fields.len() && spec_should_field_be_added(attrs, #[trigger] fields[i]) is Err
}

/// The function from a field to its getter.
pub open spec fn getter_maker(attrs: AccessorFieldAttrsView) -> spec_fn(
    FieldView,
) -> GeneratedMethodView {
    |field: FieldView| getter_of(attrs, field)
}

/// The function from a field to its setter.
pub open spec fn setter_maker(attrs: AccessorFieldAttrsView) -> spec_fn(
    FieldView,
) -> GeneratedMethodView {
    |field: FieldView| setter_of(attrs, field)
}

/// `attrs` with its list of included names filled in for `fields`.
pub open spec fn filled(attrs: AccessorStructAttrsView, fields: Seq<FieldView>) -> Result<
    AccessorStructAttrsView,
    GenerationError,
> {
    match spec_fill_includes(attrs.includes, fields) {
        Ok(includes) => Ok(AccessorStructAttrsView { includes, ..attrs }),
        Err(error) => Err(error),
    }
}

/// What `getters` yields for a record: the getters of the selected fields, in
/// declaration order, each under the configuration narrowed to one field.
/// The list of included names is filled in first; the pass fails where that
/// needs the name of a field that has none, or where selection does.
pub open spec fn spec_process_getters(
    attrs: AccessorStructAttrsView,
    fields: Seq<FieldView>,
) -> Result<Seq<GeneratedMethodView>, GenerationError> {
    match filled(attrs, fields) {
        Ok(attrs) => if selection_fails(attrs, fields) {
            Err(GenerationError::UnsupportedFieldShape)
        } else {
            Ok(fields.filter(selector(attrs)).map_values(getter_maker(narrow(attrs))))
        },
        Err(error) => Err(error),
    }
}

/// `attrs` as `setters` reads it: with the prefix `set_` where none is given.
pub open spec fn with_setter_prefix(attrs: AccessorStructAttrsView) -> AccessorStructAttrsView {
    AccessorStructAttrsView { prefix: setter_prefix(attrs.prefix), ..attrs }
}

/// What `setters` yields for a record: the setters of the selected fields, in
/// declaration order. It fails where `getters` does.
pub open spec fn spec_process_setters(
    attrs: AccessorStructAttrsView,
    fields: Seq<FieldView>,
) -> Result<Seq<GeneratedMethodView>, GenerationError> {
    match filled(attrs, fields) {
        Ok(attrs) => if selection_fails(attrs, fields) {
            Err(GenerationError::UnsupportedFieldShape)
        } else {
            Ok(
                fields.filter(selector(attrs)).map_values(
                    setter_maker(narrow(with_setter_prefix(attrs))),
                ),
            )
        },
        Err(error) => Err(error),
    }
}

/// `prefix` followed by `name`.
fn prefixed(prefix: &String, name: &String) -> (joined: String)
    ensures
        joined@ == prefix@ + name@,
{
    let mut joined = prefix.clone();
    joined.append(name.as_str());
    joined
}

/// The field-level configuration under `attrs`.
fn narrowed(attrs: &AccessorStructAttrs) -> (field_attrs: AccessorFieldAttrs)
    ensures
        field_attrs@ == narrow(attrs@),
{
    AccessorFieldAttrs::from_values(attrs.prefix.clone(), String::new(), attrs.modifier)
}

/// Generates the getters of a record based on the provided
/// `AccessorStructAttrs`: one for each selected field, in declaration order.
pub fn process_getters(attrs: AccessorStructAttrs, input: &Record) -> (r: Result<
    Vec<GeneratedMethod>,
    GenerationError,
>)
    ensures
        methods_view(r) == spec_process_getters(attrs@, input@.fields),
{
    let mut config = attrs;
    let ghost fields = input@.fields;
    match fill_includes_if_empty(&mut config.includes, &input.fields) {
        Ok(()) => {},
        Err(error) => {
            return Err(error);
        },
    }

    let mut result: Vec<GeneratedMethod> = Vec::new();
    assert(fields.take(0).filter(selector(config@)) =~= Seq::<FieldView>::empty()) by {
        reveal(Seq::filter);
    }

    for i in 0..input.fields.len()
        invariant
            fields == input@.fields,
            filled(attrs@, fields) == Ok::<AccessorStructAttrsView, GenerationError>(config@),
            forall|j: int|
                0 <= j < i ==> spec_should_field_be_added(config@, #[trigger] fields[j]) is Ok,
            result.deep_view() == fields.take(i as int).filter(selector(config@)).map_values(
                getter_maker(narrow(config@)),
            ),
    {
        let field = &input.fields[i];
        proof {
            assert(field@ == fields[i as int]);
            assert(fields.take(i + 1) =~= fields.take(i as int).push(fields[i as int]));
            fields.take(i as int).lemma_filter_push(fields[i as int], selector(config@));
        }
        match should_field_be_added(&config, field) {
            Ok(true) => {
                let ghost before = result.deep_view();
                match process_get(narrowed(&config), field) {
                    Ok(method) => {
                        result.push(method);
                        assert(result.deep_view() =~= before.push(method@));
                        assert(result.deep_view() =~= fields.take(i + 1).filter(
                            selector(config@),
                        ).map_values(getter_maker(narrow(config@))));
                    },
                    Err(error) => {
                        return Err(error);
                    },
                }
            },
            Ok(false) => {},
            Err(error) => {
                assert(spec_should_field_be_added(config@, fields[i as int]) is Err);
                return Err(error);
            },
        }
    }
    assert(fields.take(fields.len() as int) =~= fields);

    Ok(result)
}

/// Generates the setters of a record based on the provided
/// `AccessorStructAttrs`: one for each selected field, in declaration order.
pub fn process_setters(attrs: AccessorStructAttrs, input: &Record) -> (r: Result<
    Vec<GeneratedMethod>,
    GenerationError,
>)
    ensures
        methods_view(r) == spec_process_setters(attrs@, input@.fields),
{
    let mut config = attrs;
    let ghost fields = input@.fields;
    match fill_includes_if_empty(&mut config.includes, &input.fields) {
        Ok(()) => {},
        Err(error) => {
            return Err(error);
        },
    }
    let ghost chosen = config@;

    if config.prefix.as_str().is_empty() {
        config.prefix = String::from_str("set_");
    }
    assert(config@ == with_setter_prefix(chosen));
    assert(forall|field: FieldView|
        spec_should_field_be_added(config@, field) == spec_should_field_be_added(chosen, field));

    let mut result: Vec<GeneratedMethod> = Vec::new();
    assert(fields.take(0).filter(selector(chosen)) =~= Seq::<FieldView>::empty()) by {
        reveal(Seq::filter);
    }

    for i in 0..input.fields.len()
        invariant
            fields == input@.fields,
            filled(attrs@, fields) == Ok::<AccessorStructAttrsView, GenerationError>(chosen),
            config@ == with_setter_prefix(chosen),
            forall|field: FieldView|
                spec_should_field_be_added(config@, field) == spec_should_field_be_added(
                    chosen,
                    field,
                ),
            forall|j: int|
                0 <= j < i ==> spec_should_field_be_added(chosen, #[trigger] fields[j]) is Ok,
            result.deep_view() == fields.take(i as int).filter(selector(chosen)).map_values(
                setter_maker(narrow(config@)),
            ),
    {
        let field = &input.fields[i];
        proof {
            assert(field@ == fields[i as int]);
            assert(fields.take(i + 1) =~= fields.take(i as int).push(fields[i as int]));
            fields.take(i as int).lemma_filter_push(fields[i as int], selector(chosen));
        }
        match should_field_be_added(&config, field) {
            Ok(true) => {
                let ghost before = result.deep_view();
                match process_set(narrowed(&config), field) {
                    Ok(method) => {
                        result.push(method);
                        assert(result.deep_view() =~= before.push(method@));
                        assert(result.deep_view() =~= fields.take(i + 1).filter(
                            selector(chosen),
                        ).map_values(setter_maker(narrow(config@))));
                    },
                    Err(error) => {
                        return Err(error);
                    },
                }
            },
            Ok(false) => {},
            Err(error) => {
                assert(spec_should_field_be_added(chosen, fields[i as int]) is Err);
                return Err(error);
            },
        }
    }
    assert(fields.take(fields.len() as int) =~= fields);

    Ok(result)
}

/// Generates the getter of one field based on the provided
/// `AccessorFieldAttrs`. A field without a name is `UnsupportedFieldShape`.
pub fn process_get(attrs: AccessorFieldAttrs, field: &Field) -> (r: Result<
    GeneratedMethod,
    GenerationError,
>)
    ensures
        method_view(r) == spec_process_get(attrs@, field@),
{
    let fin = match &field.name {
        Some(name) => name,
        None => {
            return Err(GenerationError::UnsupportedFieldShape);
        },
    };
    let ty = &field.ty;

    let mut getter_name = fin.clone();

    if !attrs.name.as_str().is_empty() {
        getter_name = attrs.name.clone();
    }

    if !attrs.prefix.as_str().is_empty() {
        getter_name = prefixed(&attrs.prefix, &getter_name);
    }
    assert(getter_name@ =~= accessor_name(attrs@, fin@));

    Ok(generate_getter(&getter_name, &attrs.modifier, fin, ty))
}

/// Generates the setter of one field based on the provided
/// `AccessorFieldAttrs`; the access mode plays no part. A field without a name
/// is `UnsupportedFieldShape`.
pub fn process_set(attrs: AccessorFieldAttrs, field: &Field) -> (r: Result<
    GeneratedMethod,
    GenerationError,
>)
    ensures
        method_view(r) == spec_process_set(attrs@, field@),
{
    let mut attrs = attrs;
    let fin = match &field.name {
        Some(name) => name,
        None => {
            return Err(GenerationError::UnsupportedFieldShape);
        },
    };
    let ty = &field.ty;

    if attrs.prefix.as_str().is_empty() {
        attrs.prefix = String::from_str("set_");
    }

    let mut setter_name = fin.clone();

    if !attrs.name.as_str().is_empty() {
        setter_name = attrs.name.clone();
    }

    setter_name = prefixed(&attrs.prefix, &setter_name);

    Ok(generate_setter(&setter_name, fin, ty))
}

} // verus!
