//! The generation pass: from a record and its annotations to its methods.

use crate::accessors::accessor_arg::AccessorArg;
use crate::accessors::accessor_field_attrs::AccessorFieldAttrs;
use crate::accessors::accessor_processor::{
    process_get, process_getters, process_set, process_setters, spec_process_get,
    spec_process_getters, spec_process_set, spec_process_setters,
};
use crate::accessors::accessor_struct_attrs::AccessorStructAttrs;
use crate::constructor::constructor_arg::ConstructorArg;
use crate::constructor::constructor_processor::{process_constructor, spec_process_constructor};
use crate::constructor::constructor_struct_attrs::ConstructorStructAttrs;
use crate::error::{AnnotationFailure, Failure, GenerationError, Site};
use crate::method::{method_view, methods_view, GeneratedMethod, GeneratedMethodView};
use crate::new_from_args::NewFromArgs;
use crate::record::{Annotation, AnnotationView, Field, FieldView, Record, RecordView};
use crate::token::{is_word, ArgTokenView, ParseArg};
use vstd::prelude::*;

verus! {

/// The failure of an annotation at its `argument`-th argument.
pub open spec fn argument_failure(error: GenerationError, argument: int) -> AnnotationFailure {
    AnnotationFailure { error, argument: Some(argument as usize) }
}

/// The failure of an annotation that no argument is to blame for.
pub open spec fn whole_failure(error: GenerationError) -> AnnotationFailure {
    AnnotationFailure { error, argument: None }
}

/// The arguments that a list of tokens stands for, in order. The first token
/// that stands for none decides the failure.
pub open spec fn parse_all<TArg: ParseArg>(tokens: Seq<ArgTokenView>) -> Result<
    Seq<TArg::V>,
    AnnotationFailure,
>
    decreases tokens.len(),
{
    if tokens.len() == 0 {
        Ok(Seq::empty())
    } else {
        match parse_all::<TArg>(tokens.drop_last()) {
            Ok(args) => match TArg::spec_parse(tokens.last()) {
                Ok(arg) => Ok(args.push(arg)),
                Err(error) => Err(argument_failure(error, tokens.len() - 1)),
            },
            Err(failure) => Err(failure),
        }
    }
}

/// The tokens of an annotation's argument list; none where it has no list.
pub open spec fn tokens_of(attribute: AnnotationView) -> Seq<ArgTokenView> {
    match attribute.args {
        Some(tokens) => tokens,
        None => Seq::empty(),
    }
}

/// The configuration that an annotation resolves to: what its arguments
/// resolve to, which for an annotation without arguments are the defaults.
pub open spec fn spec_load_args<T: NewFromArgs<TArgs>, TArgs: ParseArg>(
    attribute: AnnotationView,
) -> Result<T::V, AnnotationFailure> {
    match parse_all::<TArgs>(tokens_of(attribute)) {
        Ok(args) => Ok(T::spec_new(args)),
        Err(failure) => Err(failure),
    }
}

/// A sequence that holds one method, or the failure of the annotation as a
/// whole.
pub open spec fn single(method: Result<GeneratedMethodView, GenerationError>) -> Result<
    Seq<GeneratedMethodView>,
    AnnotationFailure,
> {
    match method {
        Ok(method) => Ok(seq![method]),
        Err(error) => Err(whole_failure(error)),
    }
}

/// The methods, or the failure of the annotation as a whole.
pub open spec fn several(methods: Result<Seq<GeneratedMethodView>, GenerationError>) -> Result<
    Seq<GeneratedMethodView>,
    AnnotationFailure,
> {
    match methods {
        Ok(methods) => Ok(methods),
        Err(error) => Err(whole_failure(error)),
    }
}

/// The methods that one annotation on the record yields: getters, setters or
/// the constructor for the three names that are known, none for any other.
pub open spec fn struct_attribute_methods(
    attribute: AnnotationView,
    fields: Seq<FieldView>,
) -> Result<Seq<GeneratedMethodView>, AnnotationFailure> {
    if attribute.name == "getters"@ {
        match spec_load_args::<AccessorStructAttrs, AccessorArg>(attribute) {
            Ok(attrs) => several(spec_process_getters(attrs, fields)),
            Err(failure) => Err(failure),
        }
    } else if attribute.name == "setters"@ {
        match spec_load_args::<AccessorStructAttrs, AccessorArg>(attribute) {
            Ok(attrs) => several(spec_process_setters(attrs, fields)),
            Err(failure) => Err(failure),
        }
    } else if attribute.name == "constructor"@ {
        match spec_load_args::<ConstructorStructAttrs, ConstructorArg>(attribute) {
            Ok(attrs) => single(spec_process_constructor(attrs, fields)),
            Err(failure) => Err(failure),
        }
    } else {
        Ok(Seq::empty())
    }
}

/// The methods that one annotation on a field yields: a getter or a setter
/// for the two names that are known, none for any other.
pub open spec fn field_attribute_methods(attribute: AnnotationView, field: FieldView) -> Result<
    Seq<GeneratedMethodView>,
    AnnotationFailure,
> {
    if attribute.name == "get"@ {
        match spec_load_args::<AccessorFieldAttrs, AccessorArg>(attribute) {
            Ok(attrs) => single(spec_process_get(attrs, field)),
            Err(failure) => Err(failure),
        }
    } else if attribute.name == "set"@ {
        match spec_load_args::<AccessorFieldAttrs, AccessorArg>(attribute) {
            Ok(attrs) => single(spec_process_set(attrs, field)),
            Err(failure) => Err(failure),
        }
    } else {
        Ok(Seq::empty())
    }
}

/// The failure of the `annotation`-th annotation of the record.
pub open spec fn struct_failure(failure: AnnotationFailure, annotation: int) -> Failure {
    Failure {
        error: failure.error,
        site: Site { field: None, annotation: annotation as usize, argument: failure.argument },
    }
}

/// The failure of the `annotation`-th annotation of the `field`-th field.
pub open spec fn field_failure(failure: AnnotationFailure, field: int, annotation: int) -> Failure {
    Failure {
        error: failure.error,
        site: Site {
            field: Some(field as usize),
            annotation: annotation as usize,
            argument: failure.argument,
        },
    }
}

/// The methods of the record-level annotations, in source order. The first
/// annotation that fails decides the failure.
pub open spec fn spec_process_struct_attributes(
    attributes: Seq<AnnotationView>,
    fields: Seq<FieldView>,
) -> Result<Seq<GeneratedMethodView>, Failure>
    decreases attributes.len(),
{
    if attributes.len() == 0 {
        Ok(Seq::empty())
    } else {
        match spec_process_struct_attributes(attributes.drop_last(), fields) {
            Ok(methods) => match struct_attribute_methods(attributes.last(), fields) {
                Ok(more) => Ok(methods + more),
                Err(error) => Err(struct_failure(error, attributes.len() - 1)),
            },
            Err(failure) => Err(failure),
        }
    }
}

/// The methods of the first `count` annotations of the `index`-th field, in
/// source order.
pub open spec fn one_field_methods(field: FieldView, index: int, count: int) -> Result<
    Seq<GeneratedMethodView>,
    Failure,
>
    decreases count,
{
    if count <= 0 {
        Ok(Seq::empty())
    } else {
        match one_field_methods(field, index, count - 1) {
            Ok(methods) => match field_attribute_methods(field.attrs[count - 1], field) {
                Ok(more) => Ok(methods + more),
                Err(error) => Err(field_failure(error, index, count - 1)),
            },
            Err(failure) => Err(failure),
        }
    }
}

/// The methods of the field-level annotations: field by field in declaration
/// order, and for each field annotation by annotation in source order. The
/// first annotation that fails decides the failure.
pub open spec fn spec_process_field_attributes(fields: Seq<FieldView>) -> Result<
    Seq<GeneratedMethodView>,
    Failure,
>
    decreases fields.len(),
{
    if fields.len() == 0 {
        Ok(Seq::empty())
    } else {
        match spec_process_field_attributes(fields.drop_last()) {
            Ok(methods) => match one_field_methods(
                fields.last(),
                fields.len() - 1,
                fields.last().attrs.len() as int,
            ) {
                Ok(more) => Ok(methods + more),
                Err(failure) => Err(failure),
            },
            Err(failure) => Err(failure),
        }
    }
}

/// All methods of a record: those of its record-level annotations, then those
/// of its field-level annotations.
pub open spec fn spec_generate(input: RecordView) -> Result<Seq<GeneratedMethodView>, Failure> {
    match spec_process_struct_attributes(input.attrs, input.fields) {
        Ok(methods) => match spec_process_field_attributes(input.fields) {
            Ok(more) => Ok(methods + more),
            Err(failure) => Err(failure),
        },
        Err(failure) => Err(failure),
    }
}

/// The mathematical value of the outcome of reading an argument list.
pub open spec fn args_view<TArg: DeepView>(r: Result<Vec<TArg>, AnnotationFailure>) -> Result<
    Seq<TArg::V>,
    AnnotationFailure,
> {
    match r {
        Ok(args) => Ok(args.deep_view()),
        Err(failure) => Err(failure),
    }
}

/// The mathematical value of the outcome of resolving a configuration.
pub open spec fn attrs_view<T: DeepView>(r: Result<T, AnnotationFailure>) -> Result<
    T::V,
    AnnotationFailure,
> {
    match r {
        Ok(attrs) => Ok(attrs.deep_view()),
        Err(failure) => Err(failure),
    }
}

/// The mathematical value of the outcome of one annotation.
pub open spec fn annotation_view(r: Result<Vec<GeneratedMethod>, AnnotationFailure>) -> Result<
    Seq<GeneratedMethodView>,
    AnnotationFailure,
> {
    match r {
        Ok(methods) => Ok(methods.deep_view()),
        Err(failure) => Err(failure),
    }
}

/// The mathematical value of the outcome of a pass.
pub open spec fn pass_view(r: Result<Vec<GeneratedMethod>, Failure>) -> Result<
    Seq<GeneratedMethodView>,
    Failure,
> {
    match r {
        Ok(methods) => Ok(methods.deep_view()),
        Err(failure) => Err(failure),
    }
}

/// Reads the argument list of an annotation, token by token. An annotation
/// without an argument list has no arguments.
pub fn parse_punctuated_attribute_args<TArg>(attribute: &Annotation) -> (r: Result<
    Vec<TArg>,
    AnnotationFailure,
>) where TArg: ParseArg
    ensures
        args_view(r) == parse_all::<TArg>(tokens_of(attribute@)),
{
    let mut args: Vec<TArg> = Vec::new();
    assert(args.deep_view() =~= Seq::<TArg::V>::empty());
    let tokens = match &attribute.args {
        Some(tokens) => tokens,
        None => {
            return Ok(args);
        },
    };
    let ghost all = tokens.deep_view();
    assert(all.take(0) =~= Seq::<ArgTokenView>::empty());
    for i in 0..tokens.len()
        invariant
            all == tokens.deep_view(),
            all == tokens_of(attribute@),
            parse_all::<TArg>(all.take(i as int)) == Ok::<Seq<TArg::V>, AnnotationFailure>(
                args.deep_view(),
            ),
    {
        proof {
            assert(all.take(i + 1).drop_last() =~= all.take(i as int));
            assert(all.take(i + 1).last() == tokens[i as int]@);
        }
        let ghost before = args.deep_view();
        match TArg::parse(&tokens[i]) {
            Ok(arg) => {
                args.push(arg);
                assert(args.deep_view() =~= before.push(arg.deep_view()));
            },
            Err(error) => {
                proof {
                    lemma_parse_all_fails_on::<TArg>(all, i as int);
                }
                return Err(AnnotationFailure { error, argument: Some(i) });
            },
        }
    }
    assert(all.take(tokens.len() as int) =~= all);
    Ok(args)
}

/// Reading a list fails with the error of the first token that stands for no
/// argument: where the tokens before the `i`-th all stand for arguments and
/// the `i`-th does not, the whole list fails as the `i`-th token does.
pub proof fn lemma_parse_all_fails_on<TArg: ParseArg>(tokens: Seq<ArgTokenView>, i: int)
    requires
        0 <= i < tokens.len(),
        parse_all::<TArg>(tokens.take(i)) is Ok,
        TArg::spec_parse(tokens[i]) is Err,
    ensures
        parse_all::<TArg>(tokens) == Err::<Seq<TArg::V>, AnnotationFailure>(
            argument_failure(TArg::spec_parse(tokens[i])->Err_0, i),
        ),
    decreases tokens.len(),
{
    if i == tokens.len() - 1 {
        assert(tokens.drop_last() =~= tokens.take(i));
    } else {
        assert(tokens.drop_last().take(i) =~= tokens.take(i));
        lemma_parse_all_fails_on::<TArg>(tokens.drop_last(), i);
    }
}

/// Creates the configuration that the arguments resolve to.
pub fn get_attrs_for_args<T, TArgs>(punctuated: Vec<TArgs>) -> (attrs: T) where
    TArgs: DeepView,
    T: NewFromArgs<TArgs>,

    ensures
        attrs.deep_view() == T::spec_new(punctuated.deep_view()),
{
    T::new(punctuated)
}

/// Returns the name of the annotation.
pub fn get_attribute_name(attribute: &Annotation) -> (name: String)
    ensures
        name@ == attribute@.name,
{
    attribute.name.clone()
}

/// Loads the configuration of an annotation from its arguments: the defaults
/// where it has none. The first argument that cannot be read decides the
/// failure.
pub fn load_args_from_attribute<T, TArgs>(attribute: &Annotation) -> (r: Result<
    T,
    AnnotationFailure,
>) where T: NewFromArgs<TArgs>, TArgs: ParseArg
    ensures
        attrs_view(r) == spec_load_args::<T, TArgs>(attribute@),
{
    if attribute.args.is_some() {
        match parse_punctuated_attribute_args::<TArgs>(attribute) {
            Ok(pun) => Ok(get_attrs_for_args::<T, TArgs>(pun)),
            Err(failure) => Err(failure),
        }
    } else {
        let none: Vec<TArgs> = Vec::new();
        assert(none.deep_view() =~= Seq::<TArgs::V>::empty());
        Ok(T::new(none))
    }
}

/// The record-level pass fails at the first annotation that fails: where the
/// annotations before the `i`-th all yield their methods and the `i`-th does
/// not, the pass fails there, with that annotation's error.
pub proof fn lemma_struct_attributes_fail_on(
    attributes: Seq<AnnotationView>,
    fields: Seq<FieldView>,
    i: int,
)
    requires
        0 <= i < attributes.len(),
        spec_process_struct_attributes(attributes.take(i), fields) is Ok,
        struct_attribute_methods(attributes[i], fields) is Err,
    ensures
        spec_process_struct_attributes(attributes, fields) == Err::<
            Seq<GeneratedMethodView>,
            Failure,
        >(struct_failure(struct_attribute_methods(attributes[i], fields)->Err_0, i)),
    decreases attributes.len(),
{
    if i == attributes.len() - 1 {
        assert(attributes.drop_last() =~= attributes.take(i));
    } else {
        assert(attributes.drop_last().take(i) =~= attributes.take(i));
        lemma_struct_attributes_fail_on(attributes.drop_last(), fields, i);
    }
}

/// The pass over one field's annotations fails at the first of them that
/// fails.
pub proof fn lemma_one_field_fails_on(field: FieldView, index: int, count: int, k: int)
    requires
        0 <= k < count,
        one_field_methods(field, index, k) is Ok,
        field_attribute_methods(field.attrs[k], field) is Err,
    ensures
        one_field_methods(field, index, count) == Err::<Seq<GeneratedMethodView>, Failure>(
            field_failure(field_attribute_methods(field.attrs[k], field)->Err_0, index, k),
        ),
    decreases count,
{
    if k < count - 1 {
        lemma_one_field_fails_on(field, index, count - 1, k);
    }
}

/// The field-level pass fails at the first field whose annotations fail.
pub proof fn lemma_field_attributes_fail_on(fields: Seq<FieldView>, i: int)
    requires
        0 <= i < fields.len(),
        spec_process_field_attributes(fields.take(i)) is Ok,
        one_field_methods(fields[i], i, fields[i].attrs.len() as int) is Err,
    ensures
        spec_process_field_attributes(fields) == Err::<Seq<GeneratedMethodView>, Failure>(
            one_field_methods(fields[i], i, fields[i].attrs.len() as int)->Err_0,
        ),
    decreases fields.len(),
{
    if i == fields.len() - 1 {
        assert(fields.drop_last() =~= fields.take(i));
    } else {
        assert(fields.drop_last().take(i) =~= fields.take(i));
        lemma_field_attributes_fail_on(fields.drop_last(), i);
    }
}

/// The methods of one record-level annotation.
fn struct_attribute(attribute: &Annotation, input: &Record) -> (r: Result<
    Vec<GeneratedMethod>,
    AnnotationFailure,
>)
    ensures
        annotation_view(r) == struct_attribute_methods(attribute@, input@.fields),
{
    let name = get_attribute_name(attribute);

    if is_word(&name, "getters") {
        match load_args_from_attribute::<AccessorStructAttrs, AccessorArg>(attribute) {
            Ok(attrs) => all_methods(process_getters(attrs, input)),
            Err(failure) => Err(failure),
        }
    } else if is_word(&name, "setters") {
        match load_args_from_attribute::<AccessorStructAttrs, AccessorArg>(attribute) {
            Ok(attrs) => all_methods(process_setters(attrs, input)),
            Err(failure) => Err(failure),
        }
    } else if is_word(&name, "constructor") {
        match load_args_from_attribute::<ConstructorStructAttrs, ConstructorArg>(attribute) {
            Ok(attrs) => one_method(process_constructor(attrs, input)),
            Err(failure) => Err(failure),
        }
    } else {
        let none: Vec<GeneratedMethod> = Vec::new();
        assert(none.deep_view() =~= Seq::<GeneratedMethodView>::empty());
        Ok(none)
    }
}

/// The methods of one field-level annotation.
fn field_attribute(attribute: &Annotation, field: &Field) -> (r: Result<
    Vec<GeneratedMethod>,
    AnnotationFailure,
>)
    ensures
        annotation_view(r) == field_attribute_methods(attribute@, field@),
{
    let name = get_attribute_name(attribute);

    if is_word(&name, "get") {
        match load_args_from_attribute::<AccessorFieldAttrs, AccessorArg>(attribute) {
            Ok(attrs) => one_method(process_get(attrs, field)),
            Err(failure) => Err(failure),
        }
    } else if is_word(&name, "set") {
        match load_args_from_attribute::<AccessorFieldAttrs, AccessorArg>(attribute) {
            Ok(attrs) => one_method(process_set(attrs, field)),
            Err(failure) => Err(failure),
        }
    } else {
        let none: Vec<GeneratedMethod> = Vec::new();
        assert(none.deep_view() =~= Seq::<GeneratedMethodView>::empty());
        Ok(none)
    }
}

/// A vector that holds the one method, or the failure of the annotation as a
/// whole.
fn one_method(method: Result<GeneratedMethod, GenerationError>) -> (r: Result<
    Vec<GeneratedMethod>,
    AnnotationFailure,
>)
    ensures
        annotation_view(r) == single(method_view(method)),
{
    match method {
        Ok(method) => {
            let mut methods: Vec<GeneratedMethod> = Vec::new();
            methods.push(method);
            assert(methods.deep_view() =~= seq![method@]);
            Ok(methods)
        },
        Err(error) => Err(AnnotationFailure { error, argument: None }),
    }
}

/// The methods, or the failure of the annotation as a whole.
fn all_methods(methods: Result<Vec<GeneratedMethod>, GenerationError>) -> (r: Result<
    Vec<GeneratedMethod>,
    AnnotationFailure,
>)
    ensures
        annotation_view(r) == several(methods_view(methods)),
{
    match methods {
        Ok(methods) => Ok(methods),
        Err(error) => Err(AnnotationFailure { error, argument: None }),
    }
}

/// Moves the methods of `more` to the end of `methods`.
fn extend(methods: &mut Vec<GeneratedMethod>, more: Vec<GeneratedMethod>)
    ensures
        final(methods).deep_view() == old(methods).deep_view() + more.deep_view(),
{
    let mut more = more;
    let ghost added = more.deep_view();
    methods.append(&mut more);
    assert(methods.deep_view() =~= old(methods).deep_view() + added);
}

/// Carries out the record-level annotations in source order: their methods
/// are added to `stream`, or none where one of the annotations fails.
pub fn process_struct_attributes(
    attributes: &Vec<Annotation>,
    input: &Record,
    stream: &mut Vec<GeneratedMethod>,
) -> (r: Result<(), Failure>)
    ensures
        spec_process_struct_attributes(attributes.deep_view(), input@.fields) matches Ok(methods)
            ==> r is Ok && final(stream).deep_view() == old(stream).deep_view() + methods,
        spec_process_struct_attributes(attributes.deep_view(), input@.fields) matches Err(failure)
            ==> r == Err::<(), Failure>(failure)
            && final(stream).deep_view() == old(stream).deep_view(),
{
    let ghost all = attributes.deep_view();
    let ghost fields = input@.fields;
    let mut produced: Vec<GeneratedMethod> = Vec::new();
    assert(all.take(0) =~= Seq::<AnnotationView>::empty());
    assert(produced.deep_view() =~= Seq::<GeneratedMethodView>::empty());

    for i in 0..attributes.len()
        invariant
            all == attributes.deep_view(),
            fields == input@.fields,
            spec_process_struct_attributes(all.take(i as int), fields) == Ok::<
                Seq<GeneratedMethodView>,
                Failure,
            >(produced.deep_view()),
    {
        proof {
            assert(all.take(i + 1).drop_last() =~= all.take(i as int));
            assert(all.take(i + 1).last() == attributes[i as int]@);
        }
        match struct_attribute(&attributes[i], input) {
            Ok(methods) => extend(&mut produced, methods),
            Err(failure) => {
                proof {
                    lemma_struct_attributes_fail_on(all, fields, i as int);
                }
                return Err(
                    Failure {
                        error: failure.error,
                        site: Site { field: None, annotation: i, argument: failure.argument },
                    },
                );
            },
        }
    }
    assert(all.take(attributes.len() as int) =~= all);
    extend(stream, produced);
    Ok(())
}

/// The methods of the annotations of the `index`-th field.
fn one_field(field: &Field, index: usize) -> (r: Result<Vec<GeneratedMethod>, Failure>)
    ensures
        pass_view(r) == one_field_methods(field@, index as int, field@.attrs.len() as int),
{
    let mut produced: Vec<GeneratedMethod> = Vec::new();
    assert(produced.deep_view() =~= Seq::<GeneratedMethodView>::empty());
    let attributes = &field.attrs;

    for k in 0..attributes.len()
        invariant
            attributes == &field.attrs,
            one_field_methods(field@, index as int, k as int) == Ok::<
                Seq<GeneratedMethodView>,
                Failure,
            >(produced.deep_view()),
    {
        assert(field@.attrs[k as int] == attributes[k as int]@);
        match field_attribute(&attributes[k], field) {
            Ok(methods) => extend(&mut produced, methods),
            Err(failure) => {
                proof {
                    lemma_one_field_fails_on(
                        field@,
                        index as int,
                        field@.attrs.len() as int,
                        k as int,
                    );
                }
                return Err(
                    Failure {
                        error: failure.error,
                        site: Site {
                            field: Some(index),
                            annotation: k,
                            argument: failure.argument,
                        },
                    },
                );
            },
        }
    }
    Ok(produced)
}

/// Carries out the field-level annotations, field by field in declaration
/// order: their methods are added to `stream`, or none where one of the
/// annotations fails.
pub fn process_field_attributes(fields: &Vec<Field>, stream: &mut Vec<GeneratedMethod>) -> (r:
    Result<(), Failure>)
    ensures
        spec_process_field_attributes(fields.deep_view()) matches Ok(methods)
            ==> r is Ok && final(stream).deep_view() == old(stream).deep_view() + methods,
        spec_process_field_attributes(fields.deep_view()) matches Err(failure)
            ==> r == Err::<(), Failure>(failure)
            && final(stream).deep_view() == old(stream).deep_view(),
{
    let ghost all = fields.deep_view();
    let mut produced: Vec<GeneratedMethod> = Vec::new();
    assert(all.take(0) =~= Seq::<FieldView>::empty());
    assert(produced.deep_view() =~= Seq::<GeneratedMethodView>::empty());

    for i in 0..fields.len()
        invariant
            all == fields.deep_view(),
            spec_process_field_attributes(all.take(i as int)) == Ok::<
                Seq<GeneratedMethodView>,
                Failure,
            >(produced.deep_view()),
    {
        proof {
            assert(all.take(i + 1).drop_last() =~= all.take(i as int));
            assert(all.take(i + 1).last() == fields[i as int]@);
            assert(all.take(i + 1).len() - 1 == i);
        }
        match one_field(&fields[i], i) {
            Ok(methods) => extend(&mut produced, methods),
            Err(failure) => {
                proof {
                    lemma_field_attributes_fail_on(all, i as int);
                }
                return Err(failure);
            },
        }
    }
    assert(all.take(fields.len() as int) =~= all);
    extend(stream, produced);
    Ok(())
}

/// Generates the methods of a record: those of its record-level annotations
/// in source order, then those of its field-level annotations, field by field.
/// The first annotation that fails ends the pass, and no method is handed out.
pub fn generate_impl_for_struct(input: &Record) -> (r: Result<Vec<GeneratedMethod>, Failure>)
    ensures
        pass_view(r) == spec_generate(input@),
{
    let mut elements: Vec<GeneratedMethod> = Vec::new();
    assert(elements.deep_view() =~= Seq::<GeneratedMethodView>::empty());

    match process_struct_attributes(&input.attrs, input, &mut elements) {
        Ok(()) => {},
        Err(failure) => {
            return Err(failure);
        },
    }

    match process_field_attributes(&input.fields, &mut elements) {
        Ok(()) => {},
        Err(failure) => {
            return Err(failure);
        },
    }

    Ok(elements)
}

} // verus!
