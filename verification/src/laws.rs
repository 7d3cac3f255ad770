//! What holds of every generation pass.

use crate::accessors::accessor_arg::{AccessorArg, AccessorArgView};
use crate::accessors::accessor_field_attrs::{
    apply_field_arg, resolve_field_attrs, AccessorFieldAttrsView,
};
use crate::accessors::accessor_processor::{
    filled, getter_maker, selection_fails, selector, setter_maker, spec_process_set,
    with_setter_prefix,
};
use crate::accessors::accessor_struct_attrs::{
    apply_struct_arg, default_struct_attrs, narrow, resolve_struct_attrs, AccessorStructAttrs,
    AccessorStructAttrsView,
};
use crate::attribute_parser::{
    argument_failure, lemma_parse_all_fails_on, lemma_struct_attributes_fail_on,
    one_field_methods, parse_all, spec_generate, spec_load_args, spec_process_field_attributes,
    spec_process_struct_attributes, struct_attribute_methods, struct_failure, tokens_of,
};
use crate::constructor::constructor_arg::{
    is_scoped, scope_of, visibility_of_text, ConstructorArg, ConstructorArgView,
};
use crate::constructor::constructor_processor::constructor_params;
use crate::constructor::constructor_struct_attrs::{
    apply_constructor_arg, default_constructor_attrs, resolve_constructor_attrs,
    ConstructorStructAttrs, ConstructorStructAttrsView,
};
use crate::constructor::constructor_visibility::ConstructorVisibilityView;
use crate::error::{AnnotationFailure, Failure, GenerationError};
use crate::helpers::{getter, setter, spec_should_field_be_added};
use crate::method::{GeneratedMethodView, MethodBodyView, ReturnShapeView};
use crate::modifier::Modifier;
use crate::new_from_args::NewFromArgs;
use crate::record::{field_names, AnnotationView, FieldView, RecordView};
use crate::token::{ArgTokenView, ArgValueView, NameValueView, ParseArg};
use vstd::prelude::*;

verus! {

/// A record without annotations gets no methods: where neither the record nor
/// any of its fields carries an annotation, the pass succeeds with an empty
/// sequence.
pub proof fn lemma_no_annotations_no_methods(input: RecordView)
    requires
        input.attrs.len() == 0,
        forall|i: int|
            0 <= i < input.fields.len() ==> (#[trigger] input.fields[i]).attrs.len() == 0,
    ensures
        spec_generate(input) == Ok::<Seq<GeneratedMethodView>, Failure>(Seq::empty()),
{
    lemma_bare_fields_no_methods(input.fields);
}

/// Fields without annotations get no methods.
proof fn lemma_bare_fields_no_methods(fields: Seq<FieldView>)
    requires
        forall|i: int| 0 <= i < fields.len() ==> (#[trigger] fields[i]).attrs.len() == 0,
    ensures
        spec_process_field_attributes(fields) == Ok::<Seq<GeneratedMethodView>, Failure>(
            Seq::empty(),
        ),
    decreases fields.len(),
{
    if fields.len() > 0 {
        assert forall|i: int| 0 <= i < fields.drop_last().len() implies (
        #[trigger] fields.drop_last()[i]).attrs.len() == 0 by {
            assert(fields.drop_last()[i] == fields[i]);
        }
        lemma_bare_fields_no_methods(fields.drop_last());
        assert(fields.last() == fields[fields.len() - 1]);
        assert(one_field_methods(fields.last(), fields.len() - 1, 0) == Ok::<
            Seq<GeneratedMethodView>,
            Failure,
        >(Seq::empty()));
        assert(Seq::<GeneratedMethodView>::empty() + Seq::<GeneratedMethodView>::empty()
            =~= Seq::<GeneratedMethodView>::empty());
    }
}

/// Selection is a function of the configuration and the field: two
/// applications of the policy to the same pair give the same answer.
pub proof fn lemma_selection_repeats(
    attrs: AccessorStructAttrsView,
    field: FieldView,
    first: Result<bool, GenerationError>,
    second: Result<bool, GenerationError>,
)
    requires
        first == spec_should_field_be_added(attrs, field),
        second == spec_should_field_be_added(attrs, field),
    ensures
        first == second,
{
}

/// Selecting among the selected fields selects all of them: a second
/// application of the policy changes nothing.
pub proof fn lemma_selection_is_idempotent(attrs: AccessorStructAttrsView, fields: Seq<FieldView>)
    ensures
        fields.filter(selector(attrs)).filter(selector(attrs)) == fields.filter(selector(attrs)),
{
    let chosen = fields.filter(selector(attrs));
    assert forall|i: int| 0 <= i < chosen.len() implies selector(attrs)(#[trigger] chosen[i]) by {
        fields.lemma_filter_pred(selector(attrs), i);
    }
    lemma_filter_keeps_all(chosen, selector(attrs));
}

/// A filter that every element passes leaves the sequence as it is.
proof fn lemma_filter_keeps_all<A>(s: Seq<A>, pred: spec_fn(A) -> bool)
    requires
        forall|i: int| 0 <= i < s.len() ==> pred(#[trigger] s[i]),
    ensures
        s.filter(pred) == s,
    decreases s.len(),
{
    reveal(Seq::filter);
    if s.len() > 0 {
        assert forall|i: int| 0 <= i < s.drop_last().len() implies pred(
            #[trigger] s.drop_last()[i],
        ) by {
            assert(s.drop_last()[i] == s[i]);
        }
        lemma_filter_keeps_all(s.drop_last(), pred);
        assert(pred(s.last())) by {
            assert(s.last() == s[s.len() - 1]);
        }
        assert(s.drop_last().push(s.last()) =~= s);
    }
}

/// Two tests that agree on every element of a sequence filter it alike.
proof fn lemma_filter_agrees<A>(s: Seq<A>, p: spec_fn(A) -> bool, q: spec_fn(A) -> bool)
    requires
        forall|i: int| 0 <= i < s.len() ==> p(#[trigger] s[i]) == q(s[i]),
    ensures
        s.filter(p) == s.filter(q),
    decreases s.len(),
{
    reveal(Seq::filter);
    if s.len() > 0 {
        assert forall|i: int| 0 <= i < s.drop_last().len() implies p(#[trigger] s.drop_last()[i])
            == q(s.drop_last()[i]) by {
            assert(s.drop_last()[i] == s[i]);
        }
        lemma_filter_agrees(s.drop_last(), p, q);
        assert(p(s.last()) == q(s.last())) by {
            assert(s.last() == s[s.len() - 1]);
        }
    }
}

/// Filling in the default drops no field: for a configuration that names no
/// included fields and a record whose fields all have names, the filled list
/// holds exactly the record's field names, so that its intersection with the
/// set of field names is that whole set.
pub proof fn lemma_fill_yields_every_field(attrs: AccessorStructAttrsView, fields: Seq<FieldView>)
    requires
        attrs.includes.len() == 0,
        field_names(fields) is Some,
    ensures
        filled(attrs, fields) is Ok,
        filled(attrs, fields)->Ok_0.includes == field_names(fields)->0,
        filled(attrs, fields)->Ok_0.includes.to_set().intersect(field_names(fields)->0.to_set())
            == field_names(fields)->0.to_set(),
{
    let names = field_names(fields)->0;
    assert(names.to_set().intersect(names.to_set()) =~= names.to_set());
}

/// Filling in the default changes no decision: every field of the record is
/// selected under the filled configuration exactly when it is selected under
/// the configuration as given.
pub proof fn lemma_fill_keeps_selection(
    attrs: AccessorStructAttrsView,
    fields: Seq<FieldView>,
    i: int,
)
    requires
        filled(attrs, fields) is Ok,
        0 <= i < fields.len(),
    ensures
        spec_should_field_be_added(filled(attrs, fields)->Ok_0, fields[i])
            == spec_should_field_be_added(attrs, fields[i]),
{
    if attrs.includes.len() == 0 {
        let names = field_names(fields)->0;
        assert(fields[i].name is Some);
        assert(names[i] == fields[i].name->0);
        assert(names.contains(fields[i].name->0));
    }
}

/// No field affects the decision on another: a field is selected in one
/// record exactly when it is selected in any other record that holds it,
/// under the same configuration filled in for either record.
pub proof fn lemma_selection_is_per_field(
    attrs: AccessorStructAttrsView,
    first: Seq<FieldView>,
    i: int,
    second: Seq<FieldView>,
    j: int,
)
    requires
        filled(attrs, first) is Ok,
        filled(attrs, second) is Ok,
        0 <= i < first.len(),
        0 <= j < second.len(),
        first[i] == second[j],
    ensures
        spec_should_field_be_added(filled(attrs, first)->Ok_0, first[i])
            == spec_should_field_be_added(filled(attrs, second)->Ok_0, second[j]),
{
    lemma_fill_keeps_selection(attrs, first, i);
    lemma_fill_keeps_selection(attrs, second, j);
}

/// A setter does not follow the access mode: whatever mode a configuration
/// holds, the setter of a field is the same.
pub proof fn lemma_setter_ignores_modifier(
    attrs: AccessorFieldAttrsView,
    modifier: Modifier,
    field: FieldView,
)
    ensures
        spec_process_set(AccessorFieldAttrsView { modifier, ..attrs }, field) == spec_process_set(
            attrs,
            field,
        ),
{
}

/// The test "this field is not public".
pub open spec fn is_private() -> spec_fn(FieldView) -> bool {
    |field: FieldView| !field.public
}

/// The getter that a named field gets where nothing is configured: called
/// like the field, with `self` by reference.
pub open spec fn plain_getter() -> spec_fn(FieldView) -> GeneratedMethodView {
    |field: FieldView| getter(field.name->0, Modifier::Ref, field.name->0, field.ty)
}

/// The setter that a named field gets where nothing is configured: called
/// `set_` and the field's name.
pub open spec fn plain_setter() -> spec_fn(FieldView) -> GeneratedMethodView {
    |field: FieldView| setter("set_"@ + field.name->0, field.name->0, field.ty)
}

/// Whether an annotation is written without arguments: with no argument list,
/// or with an empty one.
pub open spec fn without_arguments(attribute: AnnotationView) -> bool {
    attribute.args is None || attribute.args == Some(Seq::<ArgTokenView>::empty())
}

/// An annotation without arguments resolves to the defaults.
proof fn lemma_defaults(attribute: AnnotationView)
    requires
        without_arguments(attribute),
    ensures
        spec_load_args::<AccessorStructAttrs, AccessorArg>(attribute) == Ok::<
            AccessorStructAttrsView,
            AnnotationFailure,
        >(default_struct_attrs()),
        spec_load_args::<ConstructorStructAttrs, ConstructorArg>(attribute) == Ok::<
            ConstructorStructAttrsView,
            AnnotationFailure,
        >(default_constructor_attrs()),
{
    assert(tokens_of(attribute) =~= Seq::<ArgTokenView>::empty());
    assert(parse_all::<AccessorArg>(Seq::empty()) == Ok::<
        Seq<AccessorArgView>,
        AnnotationFailure,
    >(Seq::empty()));
    assert(parse_all::<ConstructorArg>(Seq::empty()) == Ok::<
        Seq<ConstructorArgView>,
        AnnotationFailure,
    >(Seq::empty()));
    assert(AccessorStructAttrs::spec_new(Seq::empty()) == default_struct_attrs());
    assert(ConstructorStructAttrs::spec_new(Seq::empty()) == default_constructor_attrs());
}

/// The three names of record-level annotations are three different names.
proof fn lemma_names_differ()
    ensures
        "getters"@ != "setters"@,
        "getters"@ != "constructor"@,
        "setters"@ != "constructor"@,
{
    reveal_strlit("getters");
    reveal_strlit("setters");
    reveal_strlit("constructor");
    assert("getters"@[0] == 'g');
    assert("setters"@[0] == 's');
    assert("getters"@.len() == 7);
    assert("setters"@.len() == 7);
    assert("constructor"@.len() == 11);
}

/// The accessors of the selected fields where every field has a name and the
/// configuration has no names of its own: without public fields the selected
/// fields are the ones that are not public, with them they are all fields.
proof fn lemma_selected_by_visibility(attrs: AccessorStructAttrsView, fields: Seq<FieldView>)
    requires
        attrs.includes.len() == 0,
        attrs.excludes.len() == 0,
        field_names(fields) is Some,
    ensures
        filled(attrs, fields) is Ok,
        !selection_fails(filled(attrs, fields)->Ok_0, fields),
        !attrs.include_pub ==> fields.filter(selector(filled(attrs, fields)->Ok_0))
            == fields.filter(is_private()),
        attrs.include_pub ==> fields.filter(selector(filled(attrs, fields)->Ok_0)) == fields,
{
    let full = filled(attrs, fields)->Ok_0;
    assert forall|i: int| 0 <= i < fields.len() implies selector(full)(#[trigger] fields[i]) == (
    attrs.include_pub || is_private()(fields[i])) by {
        lemma_fill_keeps_selection(attrs, fields, i);
        assert(fields[i].name is Some);
    }
    if attrs.include_pub {
        lemma_filter_keeps_all(fields, selector(full));
    } else {
        lemma_filter_agrees(fields, selector(full), is_private());
    }
}

/// `getters` without arguments, on a record whose fields all have names,
/// yields one getter for each field that is not public, in declaration order,
/// and none for a public field. Each getter is called like its field and
/// takes `self` by reference.
pub proof fn lemma_getters_without_arguments(attribute: AnnotationView, fields: Seq<FieldView>)
    requires
        attribute.name == "getters"@,
        without_arguments(attribute),
        field_names(fields) is Some,
    ensures
        struct_attribute_methods(attribute, fields) == Ok::<
            Seq<GeneratedMethodView>,
            AnnotationFailure,
        >(fields.filter(is_private()).map_values(plain_getter())),
{
    lemma_defaults(attribute);
    let attrs = default_struct_attrs();
    lemma_selected_by_visibility(attrs, fields);
    let full = filled(attrs, fields)->Ok_0;
    let chosen = fields.filter(is_private());
    assert forall|i: int| 0 <= i < chosen.len() implies getter_maker(narrow(full))(
        #[trigger] chosen[i],
    ) == plain_getter()(chosen[i]) by {
        assert(Seq::<char>::empty() + chosen[i].name->0 =~= chosen[i].name->0);
    }
    assert(chosen.map_values(getter_maker(narrow(full))) =~= chosen.map_values(plain_getter()));
}

/// `getters(pub)`, on a record whose fields all have names, yields one getter
/// for each field, public or not, in declaration order.
pub proof fn lemma_getters_with_public_fields(attribute: AnnotationView, fields: Seq<FieldView>)
    requires
        attribute.name == "getters"@,
        attribute.args == Some(seq![ArgTokenView::Words(seq!["pub"@])]),
        field_names(fields) is Some,
    ensures
        struct_attribute_methods(attribute, fields) == Ok::<
            Seq<GeneratedMethodView>,
            AnnotationFailure,
        >(fields.map_values(plain_getter())),
{
    let tokens = attribute.args->0;
    assert(tokens_of(attribute) == tokens);
    let attrs = AccessorStructAttrsView { include_pub: true, ..default_struct_attrs() };
    assert(spec_load_args::<AccessorStructAttrs, AccessorArg>(attribute) == Ok::<
        AccessorStructAttrsView,
        AnnotationFailure,
    >(attrs)) by {
        reveal_strlit("pub");
        reveal_strlit("mut");
        reveal_strlit("ref");
        reveal_strlit("move");
        assert("pub"@[0] == 'p');
        assert("ref"@[0] == 'r');
        assert(tokens.drop_last() =~= Seq::<ArgTokenView>::empty());
        assert(parse_all::<AccessorArg>(tokens.drop_last()) == Ok::<
            Seq<AccessorArgView>,
            AnnotationFailure,
        >(Seq::empty()));
        assert(AccessorArg::spec_parse(tokens.last()) == Ok::<AccessorArgView, GenerationError>(
            AccessorArgView::Pub,
        ));
        let args = Seq::<AccessorArgView>::empty().push(AccessorArgView::Pub);
        assert(parse_all::<AccessorArg>(tokens) == Ok::<Seq<AccessorArgView>, AnnotationFailure>(
            args,
        ));
        assert(args.drop_last() =~= Seq::<AccessorArgView>::empty());
        assert(resolve_struct_attrs(args.drop_last()) == default_struct_attrs());
        assert(AccessorStructAttrs::spec_new(args) == attrs);
    }
    lemma_selected_by_visibility(attrs, fields);
    let full = filled(attrs, fields)->Ok_0;
    assert forall|i: int| 0 <= i < fields.len() implies getter_maker(narrow(full))(
        #[trigger] fields[i],
    ) == plain_getter()(fields[i]) by {
        assert(Seq::<char>::empty() + fields[i].name->0 =~= fields[i].name->0);
    }
    assert(fields.map_values(getter_maker(narrow(full))) =~= fields.map_values(plain_getter()));
}

/// `setters` without arguments, on a record whose fields all have names,
/// yields one setter for each field that is not public, in declaration order,
/// and none for a public field. Each setter is called `set_` and the name of
/// its field, takes `&mut self` and one parameter of the field's type, and
/// assigns the parameter to the field.
pub proof fn lemma_setters_without_arguments(attribute: AnnotationView, fields: Seq<FieldView>)
    requires
        attribute.name == "setters"@,
        without_arguments(attribute),
        field_names(fields) is Some,
    ensures
        struct_attribute_methods(attribute, fields) == Ok::<
            Seq<GeneratedMethodView>,
            AnnotationFailure,
        >(fields.filter(is_private()).map_values(plain_setter())),
{
    lemma_defaults(attribute);
    lemma_names_differ();
    let attrs = default_struct_attrs();
    lemma_selected_by_visibility(attrs, fields);
    let full = filled(attrs, fields)->Ok_0;
    let chosen = fields.filter(is_private());
    assert(chosen.map_values(setter_maker(narrow(with_setter_prefix(full))))
        =~= chosen.map_values(plain_setter()));
}

/// `constructor` without arguments, on a record whose fields all have names,
/// yields exactly one method: public, called `new`, without `self`, with one
/// parameter for each field in declaration order, named and typed like the
/// field, and a body that builds the record from these parameters.
pub proof fn lemma_constructor_without_arguments(attribute: AnnotationView, fields: Seq<FieldView>)
    requires
        attribute.name == "constructor"@,
        without_arguments(attribute),
        field_names(fields) is Some,
    ensures
        struct_attribute_methods(attribute, fields) == Ok::<
            Seq<GeneratedMethodView>,
            AnnotationFailure,
        >(
            seq![
                GeneratedMethodView {
                    name: "new"@,
                    visibility: ConstructorVisibilityView::Pub,
                    receiver: None,
                    params: constructor_params(fields),
                    returns: ReturnShapeView::Record,
                    body: MethodBodyView::Construct { fields: field_names(fields)->0 },
                },
            ],
        ),
{
    lemma_defaults(attribute);
    lemma_names_differ();
}

/// Whether a text names a visibility: `pub`, `private` or `pub(<path>)`.
pub open spec fn names_visibility(text: Seq<char>) -> bool {
    text == "pub"@ || text == "private"@ || is_scoped(text)
}

/// A list with a token that stands for no argument stands for no arguments.
proof fn lemma_parse_all_fails<TArg: ParseArg>(tokens: Seq<ArgTokenView>, k: int)
    requires
        0 <= k < tokens.len(),
        TArg::spec_parse(tokens[k]) is Err,
    ensures
        parse_all::<TArg>(tokens) is Err,
    decreases tokens.len(),
{
    if k < tokens.len() - 1 {
        assert(tokens.drop_last()[k] == tokens[k]);
        lemma_parse_all_fails::<TArg>(tokens.drop_last(), k);
    }
}

/// A record with a record-level annotation that fails gets no methods.
proof fn lemma_struct_attributes_fail(
    attributes: Seq<AnnotationView>,
    fields: Seq<FieldView>,
    i: int,
)
    requires
        0 <= i < attributes.len(),
        struct_attribute_methods(attributes[i], fields) is Err,
    ensures
        spec_process_struct_attributes(attributes, fields) is Err,
    decreases attributes.len(),
{
    if i < attributes.len() - 1 {
        assert(attributes.drop_last()[i] == attributes[i]);
        lemma_struct_attributes_fail(attributes.drop_last(), fields, i);
    }
}

/// A `constructor` annotation whose `visibility` is a string that names no
/// visibility fails the whole pass, and no method is handed out. Where
/// nothing fails before it, neither an earlier annotation of the record nor
/// an earlier argument of the annotation, the pass fails at this argument of
/// this annotation with `MalformedArgumentValue`.
pub proof fn lemma_bad_visibility_fails(input: RecordView, i: int, k: int, text: Seq<char>)
    requires
        0 <= i < input.attrs.len(),
        input.attrs[i].name == "constructor"@,
        input.attrs[i].args is Some,
        0 <= k < input.attrs[i].args->0.len(),
        input.attrs[i].args->0[k] == ArgTokenView::NameValue(
            NameValueView { name: "visibility"@, value: ArgValueView::Str(text) },
        ),
        !names_visibility(text),
    ensures
        spec_generate(input) is Err,
        spec_process_struct_attributes(input.attrs.take(i), input.fields) is Ok
            && parse_all::<ConstructorArg>(input.attrs[i].args->0.take(k)) is Ok
            ==> spec_generate(input) == Err::<Seq<GeneratedMethodView>, Failure>(
            struct_failure(argument_failure(GenerationError::MalformedArgumentValue, k), i),
        ),
{
    let attribute = input.attrs[i];
    let tokens = attribute.args->0;
    assert(tokens_of(attribute) == tokens);
    lemma_names_differ();
    assert("visibility"@ != "name"@) by {
        reveal_strlit("visibility");
        reveal_strlit("name");
        assert("visibility"@.len() == 10);
        assert("name"@.len() == 4);
    }
    assert(ConstructorArg::spec_parse(tokens[k]) == Err::<ConstructorArgView, GenerationError>(
        GenerationError::MalformedArgumentValue,
    ));
    lemma_parse_all_fails::<ConstructorArg>(tokens, k);
    assert(struct_attribute_methods(attribute, input.fields) is Err);
    lemma_struct_attributes_fail(input.attrs, input.fields, i);
    if spec_process_struct_attributes(input.attrs.take(i), input.fields) is Ok && parse_all::<
        ConstructorArg,
    >(tokens.take(k)) is Ok {
        lemma_parse_all_fails_on::<ConstructorArg>(tokens, k);
        lemma_struct_attributes_fail_on(input.attrs, input.fields, i);
    }
}

/// Whether two accessor arguments are of the same kind, and so set the same
/// part of a configuration.
pub open spec fn same_accessor_key(a: AccessorArgView, b: AccessorArgView) -> bool {
    match (a, b) {
        (AccessorArgView::Includes(_), AccessorArgView::Includes(_)) => true,
        (AccessorArgView::Excludes(_), AccessorArgView::Excludes(_)) => true,
        (AccessorArgView::Prefix(_), AccessorArgView::Prefix(_)) => true,
        (AccessorArgView::Pub, AccessorArgView::Pub) => true,
        (AccessorArgView::Modifier(_), AccessorArgView::Modifier(_)) => true,
        (AccessorArgView::Name(_), AccessorArgView::Name(_)) => true,
        _ => false,
    }
}

/// Whether two constructor arguments are of the same kind.
pub open spec fn same_constructor_key(a: ConstructorArgView, b: ConstructorArgView) -> bool {
    match (a, b) {
        (ConstructorArgView::Name(_), ConstructorArgView::Name(_)) => true,
        (ConstructorArgView::Visibility(_), ConstructorArgView::Visibility(_)) => true,
        _ => false,
    }
}

/// In a record-level accessor configuration the last occurrence of a key
/// wins: the configuration holds what the last argument of each kind gives,
/// so that applying that argument once more changes nothing.
pub proof fn lemma_last_struct_argument_wins(args: Seq<AccessorArgView>, i: int)
    requires
        0 <= i < args.len(),
        forall|j: int| i < j < args.len() ==> !same_accessor_key(#[trigger] args[j], args[i]),
    ensures
        apply_struct_arg(resolve_struct_attrs(args), args[i]) == resolve_struct_attrs(args),
    decreases args.len(),
{
    if i < args.len() - 1 {
        assert(!same_accessor_key(args[args.len() - 1], args[i]));
        assert(args.drop_last()[i] == args[i]);
        assert forall|j: int| i < j < args.drop_last().len() implies !same_accessor_key(
            #[trigger] args.drop_last()[j],
            args.drop_last()[i],
        ) by {
            assert(args.drop_last()[j] == args[j]);
        }
        lemma_last_struct_argument_wins(args.drop_last(), i);
    }
}

/// In a field-level accessor configuration the last occurrence of a key wins.
pub proof fn lemma_last_field_argument_wins(args: Seq<AccessorArgView>, i: int)
    requires
        0 <= i < args.len(),
        forall|j: int| i < j < args.len() ==> !same_accessor_key(#[trigger] args[j], args[i]),
    ensures
        apply_field_arg(resolve_field_attrs(args), args[i]) == resolve_field_attrs(args),
    decreases args.len(),
{
    if i < args.len() - 1 {
        assert(!same_accessor_key(args[args.len() - 1], args[i]));
        assert(args.drop_last()[i] == args[i]);
        assert forall|j: int| i < j < args.drop_last().len() implies !same_accessor_key(
            #[trigger] args.drop_last()[j],
            args.drop_last()[i],
        ) by {
            assert(args.drop_last()[j] == args[j]);
        }
        lemma_last_field_argument_wins(args.drop_last(), i);
    }
}

/// In a constructor configuration the last occurrence of a key wins.
pub proof fn lemma_last_constructor_argument_wins(args: Seq<ConstructorArgView>, i: int)
    requires
        0 <= i < args.len(),
        forall|j: int| i < j < args.len() ==> !same_constructor_key(#[trigger] args[j], args[i]),
    ensures
        apply_constructor_arg(resolve_constructor_attrs(args), args[i])
            == resolve_constructor_attrs(args),
    decreases args.len(),
{
    if i < args.len() - 1 {
        assert(!same_constructor_key(args[args.len() - 1], args[i]));
        assert(args.drop_last()[i] == args[i]);
        assert forall|j: int| i < j < args.drop_last().len() implies !same_constructor_key(
            #[trigger] args.drop_last()[j],
            args.drop_last()[i],
        ) by {
            assert(args.drop_last()[j] == args[j]);
        }
        lemma_last_constructor_argument_wins(args.drop_last(), i);
    }
}

/// A scope is copied as it is written: whatever stands between `pub(` and
/// the closing bracket is the path of the visibility, unchanged.
pub proof fn lemma_scope_is_copied(path: Seq<char>)
    ensures
        is_scoped("pub("@ + path + ")"@),
        visibility_of_text("pub("@ + path + ")"@) == Ok::<
            ConstructorVisibilityView,
            GenerationError,
        >(ConstructorVisibilityView::PubPath(path)),
{
    let text = "pub("@ + path + ")"@;
    reveal_strlit("pub(");
    reveal_strlit(")");
    reveal_strlit("pub");
    reveal_strlit("private");
    assert("pub("@ =~= text.subrange(0, 4));
    assert(")"@ =~= text.subrange(text.len() - 1, text.len() as int));
    assert(scope_of(text) =~= path);
    assert(text[1] == 'u');
    assert("private"@[1] == 'r');
}

} // verus!
