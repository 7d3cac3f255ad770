//! The methods that the annotations yield.

use trl_codegen::accessors::accessor_field_attrs::AccessorFieldAttrs;
use trl_codegen::accessors::accessor_processor::{
    process_get, process_getters, process_set, process_setters,
};
use trl_codegen::accessors::accessor_struct_attrs::AccessorStructAttrs;
use trl_codegen::constructor::constructor_processor::process_constructor;
use trl_codegen::constructor::constructor_struct_attrs::ConstructorStructAttrs;
use trl_codegen::constructor::constructor_visibility::ConstructorVisibility;
use trl_codegen::error::GenerationError;
use trl_codegen::helpers::{generate_getter, generate_setter};
use trl_codegen::method::{GeneratedMethod, MethodBody, Parameter, ReturnShape};
use trl_codegen::modifier::Modifier;
use trl_codegen::record::{Field, Record};

fn strings(list: &[&str]) -> Vec<String> {
    list.iter().map(|item| item.to_string()).collect()
}

fn field(name: &str, ty: &str, public: bool) -> Field {
    Field { name: Some(name.to_string()), ty: ty.to_string(), public, attrs: vec![] }
}

fn positional(ty: &str) -> Field {
    Field { name: None, ty: ty.to_string(), public: false, attrs: vec![] }
}

fn record(fields: Vec<Field>) -> Record {
    Record { attrs: vec![], fields }
}

/// `struct User { id: u64, name: String, email: String, pub phone_number: u64 }`
fn user() -> Record {
    record(vec![
        field("id", "u64", false),
        field("name", "String", false),
        field("email", "String", false),
        field("phone_number", "u64", true),
    ])
}

fn defaults() -> AccessorStructAttrs {
    AccessorStructAttrs {
        includes: vec![],
        excludes: vec![],
        prefix: String::new(),
        modifier: Modifier::Ref,
        include_pub: false,
    }
}

fn field_attrs(prefix: &str, name: &str, modifier: Modifier) -> AccessorFieldAttrs {
    AccessorFieldAttrs { prefix: prefix.to_string(), name: name.to_string(), modifier }
}

fn getter(name: &str, modifier: Modifier, field: &str, ty: &str) -> GeneratedMethod {
    GeneratedMethod {
        name: name.to_string(),
        visibility: ConstructorVisibility::Pub,
        receiver: Some(modifier),
        params: vec![],
        returns: ReturnShape::FieldType { access: modifier, ty: ty.to_string() },
        body: MethodBody::Read { access: modifier, field: field.to_string() },
    }
}

fn setter(name: &str, field: &str, ty: &str) -> GeneratedMethod {
    GeneratedMethod {
        name: name.to_string(),
        visibility: ConstructorVisibility::Pub,
        receiver: Some(Modifier::MutRef),
        params: vec![Parameter { name: "value".to_string(), ty: ty.to_string() }],
        returns: ReturnShape::Unit,
        body: MethodBody::Assign { field: field.to_string(), parameter: "value".to_string() },
    }
}

fn names(methods: &[GeneratedMethod]) -> Vec<String> {
    methods.iter().map(|method| method.name.clone()).collect()
}

#[test]
fn getter_has_the_shape_of_its_modifier() {
    let name = "id".to_string();
    let ty = "u64".to_string();

    for modifier in [Modifier::Move, Modifier::Ref, Modifier::MutRef] {
        let method = generate_getter(&"key".to_string(), &modifier, &name, &ty);

        assert_eq!(method.name, "key");
        assert_eq!(method.visibility, ConstructorVisibility::Pub);
        assert_eq!(method.receiver, Some(modifier));
        assert_eq!(method.params, vec![]);
        assert_eq!(
            method.returns,
            ReturnShape::FieldType { access: modifier, ty: "u64".to_string() }
        );
        assert_eq!(method.body, MethodBody::Read { access: modifier, field: "id".to_string() });
    }
}

#[test]
fn setter_takes_a_value_and_assigns_it() {
    let method = generate_setter(&"set_id".to_string(), &"id".to_string(), &"u64".to_string());

    assert_eq!(method.name, "set_id");
    assert_eq!(method.visibility, ConstructorVisibility::Pub);
    assert_eq!(method.receiver, Some(Modifier::MutRef));
    assert_eq!(method.params, vec![Parameter { name: "value".to_string(), ty: "u64".to_string() }]);
    assert_eq!(method.returns, ReturnShape::Unit);
    assert_eq!(
        method.body,
        MethodBody::Assign { field: "id".to_string(), parameter: "value".to_string() }
    );
}

#[test]
fn getter_is_called_like_its_field_by_default() {
    assert_eq!(
        process_get(field_attrs("", "", Modifier::Ref), &field("id", "u64", false)),
        Ok(getter("id", Modifier::Ref, "id", "u64"))
    );
}

#[test]
fn name_replaces_the_field_name_and_prefix_comes_before_either() {
    let email = field("email", "String", true);

    assert_eq!(
        process_get(field_attrs("get_", "", Modifier::Ref), &email),
        Ok(getter("get_email", Modifier::Ref, "email", "String"))
    );
    assert_eq!(
        process_get(field_attrs("", "address", Modifier::Ref), &email),
        Ok(getter("address", Modifier::Ref, "email", "String"))
    );
    assert_eq!(
        process_get(field_attrs("get_", "address", Modifier::Move), &email),
        Ok(getter("get_address", Modifier::Move, "email", "String"))
    );
}

#[test]
fn getter_follows_the_modifier() {
    let id = field("id", "Vec<u8>", false);

    assert_eq!(
        process_get(field_attrs("", "", Modifier::Move), &id),
        Ok(getter("id", Modifier::Move, "id", "Vec<u8>"))
    );
    assert_eq!(
        process_get(field_attrs("", "", Modifier::MutRef), &id),
        Ok(getter("id", Modifier::MutRef, "id", "Vec<u8>"))
    );
}

#[test]
fn setter_prefix_is_set_by_default() {
    let id = field("id", "u64", false);

    assert_eq!(
        process_set(field_attrs("", "", Modifier::Ref), &id),
        Ok(setter("set_id", "id", "u64"))
    );
    assert_eq!(
        process_set(field_attrs("with_", "", Modifier::Ref), &id),
        Ok(setter("with_id", "id", "u64"))
    );
    assert_eq!(
        process_set(field_attrs("", "key", Modifier::Ref), &id),
        Ok(setter("set_key", "id", "u64"))
    );
    assert_eq!(
        process_set(field_attrs("put_", "key", Modifier::Ref), &id),
        Ok(setter("put_key", "id", "u64"))
    );
}

#[test]
fn setter_does_not_follow_the_modifier() {
    let id = field("id", "u64", false);
    let by_reference = process_set(field_attrs("", "", Modifier::Ref), &id);

    assert_eq!(process_set(field_attrs("", "", Modifier::Move), &id), by_reference);
    assert_eq!(process_set(field_attrs("", "", Modifier::MutRef), &id), by_reference);
}

#[test]
fn accessor_of_a_positional_field_is_refused() {
    let unsupported = Err(GenerationError::UnsupportedFieldShape);

    assert_eq!(
        process_get(field_attrs("", "first", Modifier::Ref), &positional("u64")),
        unsupported
    );
    assert_eq!(
        process_set(field_attrs("", "first", Modifier::Ref), &positional("u64")),
        unsupported
    );
}

#[test]
fn getters_without_arguments_cover_the_fields_that_are_not_public() {
    assert_eq!(
        process_getters(defaults(), &user()),
        Ok(vec![
            getter("id", Modifier::Ref, "id", "u64"),
            getter("name", Modifier::Ref, "name", "String"),
            getter("email", Modifier::Ref, "email", "String"),
        ])
    );
}

#[test]
fn getters_with_pub_cover_public_fields_too() {
    let methods = process_getters(AccessorStructAttrs { include_pub: true, ..defaults() }, &user());

    assert_eq!(
        methods,
        Ok(vec![
            getter("id", Modifier::Ref, "id", "u64"),
            getter("name", Modifier::Ref, "name", "String"),
            getter("email", Modifier::Ref, "email", "String"),
            getter("phone_number", Modifier::Ref, "phone_number", "u64"),
        ])
    );
}

#[test]
fn getters_with_prefix() {
    let record = record(vec![field("id", "u64", false), field("name", "String", false)]);
    let methods =
        process_getters(AccessorStructAttrs { prefix: "get_".to_string(), ..defaults() }, &record)
            .unwrap();

    assert_eq!(names(&methods), strings(&["get_id", "get_name"]));
    assert_eq!(
        methods,
        vec![
            getter("get_id", Modifier::Ref, "id", "u64"),
            getter("get_name", Modifier::Ref, "name", "String"),
        ]
    );
}

#[test]
fn getters_with_includes() {
    let record = record(vec![
        field("id", "u64", false),
        field("name", "String", false),
        field("email", "String", false),
    ]);
    let methods =
        process_getters(AccessorStructAttrs { includes: strings(&["name"]), ..defaults() }, &record);

    assert_eq!(methods, Ok(vec![getter("name", Modifier::Ref, "name", "String")]));
}

#[test]
fn getters_with_excludes() {
    let methods = process_getters(
        AccessorStructAttrs { excludes: strings(&["id", "email"]), include_pub: true, ..defaults() },
        &user(),
    )
    .unwrap();

    assert_eq!(names(&methods), strings(&["name", "phone_number"]));
}

#[test]
fn getters_keep_declaration_order_whatever_the_order_of_includes() {
    let methods = process_getters(
        AccessorStructAttrs { includes: strings(&["email", "id"]), ..defaults() },
        &user(),
    )
    .unwrap();

    assert_eq!(names(&methods), strings(&["id", "email"]));
}

#[test]
fn included_public_field_still_needs_pub() {
    let attrs = AccessorStructAttrs { includes: strings(&["phone_number"]), ..defaults() };

    assert_eq!(process_getters(attrs.clone(), &user()), Ok(vec![]));
    assert_eq!(
        process_getters(AccessorStructAttrs { include_pub: true, ..attrs }, &user()),
        Ok(vec![getter("phone_number", Modifier::Ref, "phone_number", "u64")])
    );
}

#[test]
fn getters_carry_the_modifier_to_every_field() {
    let methods =
        process_getters(AccessorStructAttrs { modifier: Modifier::MutRef, ..defaults() }, &user())
            .unwrap();

    assert_eq!(methods.len(), 3);
    for method in &methods {
        assert_eq!(method.receiver, Some(Modifier::MutRef));
    }
}

#[test]
fn getters_of_a_record_without_fields() {
    assert_eq!(process_getters(defaults(), &record(vec![])), Ok(vec![]));
    assert_eq!(process_setters(defaults(), &record(vec![])), Ok(vec![]));
}

#[test]
fn setters_without_arguments_cover_the_fields_that_are_not_public() {
    assert_eq!(
        process_setters(defaults(), &user()),
        Ok(vec![
            setter("set_id", "id", "u64"),
            setter("set_name", "name", "String"),
            setter("set_email", "email", "String"),
        ])
    );
}

#[test]
fn setters_with_their_own_prefix_and_selection() {
    let attrs = AccessorStructAttrs {
        includes: strings(&["id", "phone_number"]),
        prefix: "put_".to_string(),
        modifier: Modifier::Move,
        include_pub: true,
        ..defaults()
    };

    assert_eq!(
        process_setters(attrs, &user()),
        Ok(vec![setter("put_id", "id", "u64"), setter("put_phone_number", "phone_number", "u64")])
    );
}

#[test]
fn accessors_of_a_record_with_a_positional_field_are_refused() {
    let unsupported = Err(GenerationError::UnsupportedFieldShape);
    let tuple = record(vec![positional("u64"), positional("String")]);
    let mixed = record(vec![field("id", "u64", false), positional("u64")]);

    assert_eq!(process_getters(defaults(), &tuple), unsupported);
    assert_eq!(process_setters(defaults(), &tuple), unsupported);
    assert_eq!(process_getters(defaults(), &mixed), unsupported);
    assert_eq!(
        process_getters(AccessorStructAttrs { includes: strings(&["id"]), ..defaults() }, &mixed),
        unsupported
    );
}

#[test]
fn positional_field_behind_the_visibility_gate_is_never_named() {
    let mut hidden = positional("u64");
    hidden.public = true;
    let mixed = record(vec![field("id", "u64", false), hidden]);
    let attrs = AccessorStructAttrs { includes: strings(&["id"]), ..defaults() };

    assert_eq!(process_getters(attrs, &mixed), Ok(vec![getter("id", Modifier::Ref, "id", "u64")]));
    assert_eq!(process_getters(defaults(), &mixed), Err(GenerationError::UnsupportedFieldShape));
}

#[test]
fn constructor_without_arguments() {
    let attrs = ConstructorStructAttrs { name: "new".to_string(), visibility: ConstructorVisibility::Pub };

    assert_eq!(
        process_constructor(attrs, &user()),
        Ok(GeneratedMethod {
            name: "new".to_string(),
            visibility: ConstructorVisibility::Pub,
            receiver: None,
            params: vec![
                Parameter { name: "id".to_string(), ty: "u64".to_string() },
                Parameter { name: "name".to_string(), ty: "String".to_string() },
                Parameter { name: "email".to_string(), ty: "String".to_string() },
                Parameter { name: "phone_number".to_string(), ty: "u64".to_string() },
            ],
            returns: ReturnShape::Record,
            body: MethodBody::Construct { fields: strings(&["id", "name", "email", "phone_number"]) },
        })
    );
}

#[test]
fn constructor_with_name_and_visibility() {
    let default = process_constructor(
        ConstructorStructAttrs { name: "new".to_string(), visibility: ConstructorVisibility::Pub },
        &user(),
    )
    .unwrap();
    let made = process_constructor(
        ConstructorStructAttrs { name: "make".to_string(), visibility: ConstructorVisibility::Private },
        &user(),
    )
    .unwrap();

    assert_eq!(made.name, "make");
    assert_eq!(made.visibility, ConstructorVisibility::Private);
    assert_eq!(made.receiver, default.receiver);
    assert_eq!(made.params, default.params);
    assert_eq!(made.returns, default.returns);
    assert_eq!(made.body, default.body);
}

#[test]
fn constructor_keeps_the_scope_as_it_was_written() {
    let scope = ConstructorVisibility::PubPath("in no::such::module".to_string());
    let method = process_constructor(
        ConstructorStructAttrs { name: "new".to_string(), visibility: scope.clone() },
        &user(),
    )
    .unwrap();

    assert_eq!(method.visibility, scope);
}

#[test]
fn constructor_of_a_record_without_fields() {
    let attrs = ConstructorStructAttrs { name: "new".to_string(), visibility: ConstructorVisibility::Pub };
    let method = process_constructor(attrs, &record(vec![])).unwrap();

    assert_eq!(method.params, vec![]);
    assert_eq!(method.body, MethodBody::Construct { fields: vec![] });
}

#[test]
fn constructor_of_a_positional_field_is_refused() {
    let attrs = ConstructorStructAttrs { name: "new".to_string(), visibility: ConstructorVisibility::Pub };
    let mixed = record(vec![field("id", "u64", true), positional("u64")]);

    assert_eq!(process_constructor(attrs, &mixed), Err(GenerationError::UnsupportedFieldShape));
}
