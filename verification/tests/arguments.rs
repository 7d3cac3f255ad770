//! Classifying the tokens of an argument list, and resolving the arguments
//! into configurations.

use trl_codegen::accessors::accessor_arg::AccessorArg;
use trl_codegen::accessors::accessor_field_attrs::AccessorFieldAttrs;
use trl_codegen::accessors::accessor_struct_attrs::AccessorStructAttrs;
use trl_codegen::attribute_parser::{
    get_attribute_name, get_attrs_for_args, load_args_from_attribute,
    parse_punctuated_attribute_args,
};
use trl_codegen::constructor::constructor_arg::ConstructorArg;
use trl_codegen::constructor::constructor_struct_attrs::ConstructorStructAttrs;
use trl_codegen::constructor::constructor_visibility::ConstructorVisibility;
use trl_codegen::error::{AnnotationFailure, GenerationError};
use trl_codegen::modifier::Modifier;
use trl_codegen::new_from_args::NewFromArgs;
use trl_codegen::record::Annotation;
use trl_codegen::token::{is_word, ArgToken, ArgValue, NameValue, ParseArg};

fn words(list: &[&str]) -> ArgToken {
    ArgToken::Words(list.iter().map(|word| word.to_string()).collect())
}

fn pair(name: &str, value: ArgValue) -> ArgToken {
    ArgToken::NameValue(NameValue { name: name.to_string(), value })
}

fn ident(text: &str) -> ArgValue {
    ArgValue::Ident(text.to_string())
}

fn text(text: &str) -> ArgValue {
    ArgValue::Str(text.to_string())
}

fn list(elements: &[Option<&str>]) -> ArgValue {
    ArgValue::List(elements.iter().map(|element| element.map(str::to_string)).collect())
}

fn at(argument: usize, error: GenerationError) -> AnnotationFailure {
    AnnotationFailure { error, argument: Some(argument) }
}

fn strings(list: &[&str]) -> Vec<String> {
    list.iter().map(|item| item.to_string()).collect()
}

#[test]
fn modifier_keywords_are_recognized() {
    assert_eq!(Modifier::parse(&words(&["ref"])), Ok(Modifier::Ref));
    assert_eq!(Modifier::parse(&words(&["mut", "ref"])), Ok(Modifier::MutRef));
    assert_eq!(Modifier::parse(&words(&["move"])), Ok(Modifier::Move));
}

#[test]
fn other_words_are_no_modifier() {
    let unrecognized = Err(GenerationError::UnrecognizedToken);

    assert_eq!(Modifier::parse(&words(&["mut"])), unrecognized);
    assert_eq!(Modifier::parse(&words(&["ref", "mut"])), unrecognized);
    assert_eq!(Modifier::parse(&words(&["mut", "ref", "move"])), unrecognized);
    assert_eq!(Modifier::parse(&words(&["pub"])), unrecognized);
    assert_eq!(Modifier::parse(&words(&[])), unrecognized);
    assert_eq!(Modifier::parse(&pair("prefix", ident("get_"))), unrecognized);
    assert_eq!(Modifier::parse(&ArgToken::Other), unrecognized);
}

#[test]
fn is_word_compares_whole_texts() {
    assert!(is_word(&"ref".to_string(), "ref"));
    assert!(!is_word(&"re".to_string(), "ref"));
    assert!(!is_word(&"reff".to_string(), "ref"));
    assert!(is_word(&String::new(), ""));
}

#[test]
fn accessor_argument_is_a_modifier_first() {
    assert_eq!(AccessorArg::parse(&words(&["ref"])), Ok(AccessorArg::Modifier(Modifier::Ref)));
    assert_eq!(
        AccessorArg::parse(&words(&["mut", "ref"])),
        Ok(AccessorArg::Modifier(Modifier::MutRef))
    );
    assert_eq!(AccessorArg::parse(&words(&["move"])), Ok(AccessorArg::Modifier(Modifier::Move)));
}

#[test]
fn accessor_argument_pub_is_the_flag() {
    assert_eq!(AccessorArg::parse(&words(&["pub"])), Ok(AccessorArg::Pub));
}

#[test]
fn accessor_argument_of_unknown_words_is_unrecognized() {
    let unrecognized = Err(GenerationError::UnrecognizedToken);

    assert_eq!(AccessorArg::parse(&words(&["public"])), unrecognized);
    assert_eq!(AccessorArg::parse(&words(&["pub", "pub"])), unrecognized);
    assert_eq!(AccessorArg::parse(&words(&[])), unrecognized);
    assert_eq!(AccessorArg::parse(&ArgToken::Other), unrecognized);
}

#[test]
fn accessor_pairs_are_read_by_key() {
    assert_eq!(
        AccessorArg::parse(&pair("includes", list(&[Some("id"), Some("name")]))),
        Ok(AccessorArg::Includes(strings(&["id", "name"])))
    );
    assert_eq!(
        AccessorArg::parse(&pair("excludes", list(&[Some("email")]))),
        Ok(AccessorArg::Excludes(strings(&["email"])))
    );
    assert_eq!(
        AccessorArg::parse(&pair("prefix", ident("get_"))),
        Ok(AccessorArg::Prefix("get_".to_string()))
    );
    assert_eq!(
        AccessorArg::parse(&pair("name", ident("get_name"))),
        Ok(AccessorArg::Name("get_name".to_string()))
    );
}

#[test]
fn nv_to_arg_reads_what_parse_reads() {
    let nv = NameValue { name: "prefix".to_string(), value: ident("with_") };

    assert_eq!(AccessorArg::nv_to_arg(&nv), Ok(AccessorArg::Prefix("with_".to_string())));
    assert_eq!(AccessorArg::nv_to_arg(&nv), AccessorArg::parse(&ArgToken::NameValue(nv.clone())));
}

#[test]
fn list_element_that_is_no_identifier_becomes_the_empty_string() {
    assert_eq!(
        AccessorArg::brackets_to_vec(&list(&[Some("id"), None, Some("name"), None])),
        Ok(strings(&["id", "", "name", ""]))
    );
    assert_eq!(AccessorArg::brackets_to_vec(&list(&[])), Ok(strings(&[])));
}

#[test]
fn brackets_to_vec_wants_a_list() {
    let malformed = Err(GenerationError::MalformedArgumentValue);

    assert_eq!(AccessorArg::brackets_to_vec(&ident("id")), malformed);
    assert_eq!(AccessorArg::brackets_to_vec(&text("[id]")), malformed);
    assert_eq!(AccessorArg::brackets_to_vec(&ArgValue::Other), malformed);
}

#[test]
fn ident_to_string_wants_one_identifier() {
    let malformed = Err(GenerationError::MalformedArgumentValue);

    assert_eq!(AccessorArg::ident_to_string(&ident("get_")), Ok("get_".to_string()));
    assert_eq!(AccessorArg::ident_to_string(&text("get_")), malformed);
    assert_eq!(AccessorArg::ident_to_string(&list(&[Some("get_")])), malformed);
    assert_eq!(AccessorArg::ident_to_string(&ArgValue::Other), malformed);
}

#[test]
fn accessor_pair_with_a_value_of_the_wrong_shape_is_malformed() {
    let malformed = Err(GenerationError::MalformedArgumentValue);

    assert_eq!(AccessorArg::parse(&pair("includes", ident("id"))), malformed);
    assert_eq!(AccessorArg::parse(&pair("excludes", text("id"))), malformed);
    assert_eq!(AccessorArg::parse(&pair("prefix", list(&[Some("get_")]))), malformed);
    assert_eq!(AccessorArg::parse(&pair("name", ArgValue::Other)), malformed);
}

#[test]
fn accessor_pair_with_an_unknown_key_is_refused_whatever_its_value() {
    let unknown = Err(GenerationError::UnknownArgumentKey);

    assert_eq!(AccessorArg::parse(&pair("include", list(&[Some("id")]))), unknown);
    assert_eq!(AccessorArg::parse(&pair("visibility", text("pub"))), unknown);
    assert_eq!(AccessorArg::parse(&pair("suffix", ArgValue::Other)), unknown);
    assert_eq!(AccessorArg::parse(&pair("", ident("x"))), unknown);
}

#[test]
fn constructor_pairs_are_read_by_key() {
    assert_eq!(
        ConstructorArg::parse(&pair("name", ident("make"))),
        Ok(ConstructorArg::Name("make".to_string()))
    );
    assert_eq!(
        ConstructorArg::parse(&pair("visibility", text("private"))),
        Ok(ConstructorArg::Visibility(ConstructorVisibility::Private))
    );
    assert_eq!(
        ConstructorArg::nv_to_arg(&NameValue { name: "visibility".to_string(), value: text("pub") }),
        Ok(ConstructorArg::Visibility(ConstructorVisibility::Pub))
    );
}

#[test]
fn constructor_takes_pairs_only() {
    let unrecognized = Err(GenerationError::UnrecognizedToken);

    assert_eq!(ConstructorArg::parse(&words(&["pub"])), unrecognized);
    assert_eq!(ConstructorArg::parse(&words(&["mut", "ref"])), unrecognized);
    assert_eq!(ConstructorArg::parse(&ArgToken::Other), unrecognized);
}

#[test]
fn constructor_pair_with_an_accessor_key_is_unknown() {
    let unknown = Err(GenerationError::UnknownArgumentKey);

    assert_eq!(ConstructorArg::parse(&pair("prefix", ident("get_"))), unknown);
    assert_eq!(ConstructorArg::parse(&pair("includes", list(&[]))), unknown);
    assert_eq!(ConstructorArg::parse(&pair("Name", ident("make"))), unknown);
}

#[test]
fn constructor_name_wants_one_identifier() {
    let malformed = Err(GenerationError::MalformedArgumentValue);

    assert_eq!(ConstructorArg::string_from_nv_value(&ident("make")), Ok("make".to_string()));
    assert_eq!(ConstructorArg::string_from_nv_value(&text("make")), malformed);
    assert_eq!(
        ConstructorArg::parse(&pair("name", text("make"))),
        Err(GenerationError::MalformedArgumentValue)
    );
}

#[test]
fn visibility_is_one_of_three_forms() {
    assert_eq!(
        ConstructorArg::visibility_from_nv_value(&text("pub")),
        Ok(ConstructorVisibility::Pub)
    );
    assert_eq!(
        ConstructorArg::visibility_from_nv_value(&text("private")),
        Ok(ConstructorVisibility::Private)
    );
    assert_eq!(
        ConstructorArg::visibility_from_nv_value(&text("pub(crate)")),
        Ok(ConstructorVisibility::PubPath("crate".to_string()))
    );
}

#[test]
fn scope_is_copied_as_it_stands() {
    assert_eq!(
        ConstructorArg::visibility_parse_pub_path(&"pub(in some::module)".to_string()),
        Ok(ConstructorVisibility::PubPath("in some::module".to_string()))
    );
    assert_eq!(
        ConstructorArg::visibility_parse_pub_path(&"pub()".to_string()),
        Ok(ConstructorVisibility::PubPath(String::new()))
    );
    assert_eq!(
        ConstructorArg::visibility_parse_pub_path(&"pub(a)(b))".to_string()),
        Ok(ConstructorVisibility::PubPath("a)(b)".to_string()))
    );
    assert_eq!(
        ConstructorArg::visibility_parse_pub_path(&"pub(süper)".to_string()),
        Ok(ConstructorVisibility::PubPath("süper".to_string()))
    );
}

#[test]
fn text_without_both_brackets_is_no_scope() {
    let malformed = Err(GenerationError::MalformedArgumentValue);

    assert_eq!(ConstructorArg::visibility_parse_pub_path(&"pub(".to_string()), malformed);
    assert_eq!(ConstructorArg::visibility_parse_pub_path(&"pub".to_string()), malformed);
    assert_eq!(ConstructorArg::visibility_parse_pub_path(&"pub(crate".to_string()), malformed);
    assert_eq!(ConstructorArg::visibility_parse_pub_path(&"Pub(crate)".to_string()), malformed);
    assert_eq!(ConstructorArg::visibility_parse_pub_path(&" pub(crate)".to_string()), malformed);
    assert_eq!(ConstructorArg::visibility_parse_pub_path(&"pub(crate) ".to_string()), malformed);
    assert_eq!(ConstructorArg::visibility_parse_pub_path(&String::new()), malformed);
}

#[test]
fn visibility_words() {
    let malformed = Err(GenerationError::MalformedArgumentValue);

    assert_eq!(
        ConstructorArg::visibility_parse_pub(&"pub".to_string()),
        Ok(ConstructorVisibility::Pub)
    );
    assert_eq!(
        ConstructorArg::visibility_parse_pub(&"private".to_string()),
        Ok(ConstructorVisibility::Private)
    );
    assert_eq!(ConstructorArg::visibility_parse_pub(&"pub(crate)".to_string()), malformed);
    assert_eq!(ConstructorArg::visibility_parse_pub(&"public".to_string()), malformed);
}

#[test]
fn visibility_that_names_none_is_malformed() {
    let malformed = Err(GenerationError::MalformedArgumentValue);

    assert_eq!(ConstructorArg::visibility_from_nv_value(&text("public")), malformed);
    assert_eq!(ConstructorArg::visibility_from_nv_value(&text("")), malformed);
    assert_eq!(ConstructorArg::visibility_from_nv_value(&text("crate")), malformed);
    assert_eq!(ConstructorArg::visibility_from_nv_value(&ident("pub")), malformed);
    assert_eq!(ConstructorArg::visibility_from_nv_value(&ArgValue::Other), malformed);
    assert_eq!(
        ConstructorArg::parse(&pair("visibility", text("protected"))),
        Err(GenerationError::MalformedArgumentValue)
    );
}

#[test]
fn record_level_defaults() {
    let attrs = AccessorStructAttrs::new(vec![]);

    assert_eq!(
        attrs,
        AccessorStructAttrs {
            includes: vec![],
            excludes: vec![],
            prefix: String::new(),
            modifier: Modifier::Ref,
            include_pub: false,
        }
    );
}

#[test]
fn record_level_arguments_overwrite_the_defaults() {
    let attrs = AccessorStructAttrs::new(vec![
        AccessorArg::Includes(strings(&["id", "name"])),
        AccessorArg::Excludes(strings(&["name"])),
        AccessorArg::Prefix("get_".to_string()),
        AccessorArg::Modifier(Modifier::Move),
        AccessorArg::Pub,
    ]);

    assert_eq!(
        attrs,
        AccessorStructAttrs {
            includes: strings(&["id", "name"]),
            excludes: strings(&["name"]),
            prefix: "get_".to_string(),
            modifier: Modifier::Move,
            include_pub: true,
        }
    );
}

#[test]
fn last_occurrence_wins() {
    let attrs = AccessorStructAttrs::new(vec![
        AccessorArg::Prefix("first_".to_string()),
        AccessorArg::Includes(strings(&["id"])),
        AccessorArg::Modifier(Modifier::MutRef),
        AccessorArg::Prefix("second_".to_string()),
        AccessorArg::Includes(strings(&["email"])),
        AccessorArg::Modifier(Modifier::Move),
        AccessorArg::Modifier(Modifier::Ref),
    ]);

    assert_eq!(attrs.prefix, "second_");
    assert_eq!(attrs.includes, strings(&["email"]));
    assert_eq!(attrs.modifier, Modifier::Ref);

    let field = AccessorFieldAttrs::new(vec![
        AccessorArg::Name("one".to_string()),
        AccessorArg::Name("two".to_string()),
    ]);
    assert_eq!(field.name, "two");

    let constructor = ConstructorStructAttrs::new(vec![
        ConstructorArg::Visibility(ConstructorVisibility::Private),
        ConstructorArg::Name("make".to_string()),
        ConstructorArg::Name("build".to_string()),
        ConstructorArg::Visibility(ConstructorVisibility::PubPath("crate".to_string())),
    ]);
    assert_eq!(constructor.name, "build");
    assert_eq!(constructor.visibility, ConstructorVisibility::PubPath("crate".to_string()));
}

#[test]
fn record_level_configuration_has_no_name() {
    let attrs = AccessorStructAttrs::new(vec![AccessorArg::Name("other".to_string())]);

    assert_eq!(attrs, AccessorStructAttrs::new(vec![]));
}

#[test]
fn field_level_defaults() {
    let attrs = AccessorFieldAttrs::new(vec![]);

    assert_eq!(
        attrs,
        AccessorFieldAttrs { prefix: String::new(), name: String::new(), modifier: Modifier::Ref }
    );
}

#[test]
fn field_level_configuration_passes_over_what_selects_fields() {
    let attrs = AccessorFieldAttrs::new(vec![
        AccessorArg::Includes(strings(&["id"])),
        AccessorArg::Prefix("get_".to_string()),
        AccessorArg::Excludes(strings(&["id"])),
        AccessorArg::Name("key".to_string()),
        AccessorArg::Pub,
        AccessorArg::Modifier(Modifier::MutRef),
    ]);

    assert_eq!(
        attrs,
        AccessorFieldAttrs {
            prefix: "get_".to_string(),
            name: "key".to_string(),
            modifier: Modifier::MutRef,
        }
    );
}

#[test]
fn from_values_keeps_the_values() {
    let attrs = AccessorFieldAttrs::from_values("p".to_string(), "n".to_string(), Modifier::Move);

    assert_eq!(attrs.prefix, "p");
    assert_eq!(attrs.name, "n");
    assert_eq!(attrs.modifier, Modifier::Move);
}

#[test]
fn narrowing_carries_prefix_and_modifier_and_nothing_else() {
    let attrs = AccessorStructAttrs {
        includes: strings(&["id"]),
        excludes: strings(&["name"]),
        prefix: "get_".to_string(),
        modifier: Modifier::MutRef,
        include_pub: true,
    };

    assert_eq!(
        attrs.into(),
        AccessorFieldAttrs {
            prefix: "get_".to_string(),
            name: String::new(),
            modifier: Modifier::MutRef,
        }
    );
}

#[test]
fn constructor_defaults() {
    let attrs = ConstructorStructAttrs::new(vec![]);

    assert_eq!(
        attrs,
        ConstructorStructAttrs { name: "new".to_string(), visibility: ConstructorVisibility::Pub }
    );
}

#[test]
fn annotation_without_argument_list_resolves_to_the_defaults() {
    let bare = Annotation { name: "getters".to_string(), args: None };
    let empty = Annotation { name: "getters".to_string(), args: Some(vec![]) };

    let record_level = AccessorStructAttrs::new(vec![]);
    assert_eq!(
        load_args_from_attribute::<AccessorStructAttrs,
        AccessorArg>(&bare),
        Ok(record_level.clone())
    );
    assert_eq!(
        load_args_from_attribute::<AccessorStructAttrs,
        AccessorArg>(&empty),
        Ok(record_level)
    );
    assert_eq!(
        load_args_from_attribute::<AccessorFieldAttrs, AccessorArg>(&bare),
        Ok(AccessorFieldAttrs::new(vec![]))
    );
    assert_eq!(
        load_args_from_attribute::<ConstructorStructAttrs, ConstructorArg>(&bare),
        Ok(ConstructorStructAttrs::new(vec![]))
    );
}

#[test]
fn annotation_arguments_are_resolved_in_source_order() {
    let annotation = Annotation {
        name: "getters".to_string(),
        args: Some(vec![
            pair("prefix", ident("a_")),
            words(&["mut", "ref"]),
            words(&["pub"]),
            pair("prefix", ident("b_")),
            pair("excludes", list(&[Some("id"), None])),
        ]),
    };

    assert_eq!(
        load_args_from_attribute::<AccessorStructAttrs, AccessorArg>(&annotation),
        Ok(AccessorStructAttrs {
            includes: vec![],
            excludes: strings(&["id", ""]),
            prefix: "b_".to_string(),
            modifier: Modifier::MutRef,
            include_pub: true,
        })
    );
}

#[test]
fn first_bad_argument_decides_the_failure() {
    let annotation = |args: Vec<ArgToken>| Annotation { name: "getters".to_string(), args: Some(args) };

    assert_eq!(
        load_args_from_attribute::<AccessorStructAttrs, AccessorArg>(&annotation(vec![
            words(&["pub"]),
            pair("prefix", text("get_")),
            pair("colour", ident("red")),
            ArgToken::Other,
        ])),
        Err(at(1, GenerationError::MalformedArgumentValue))
    );
    assert_eq!(
        load_args_from_attribute::<AccessorStructAttrs, AccessorArg>(&annotation(vec![
            pair("colour", ident("red")),
            pair("prefix", text("get_")),
        ])),
        Err(at(0, GenerationError::UnknownArgumentKey))
    );
    assert_eq!(
        load_args_from_attribute::<AccessorFieldAttrs, AccessorArg>(&annotation(vec![
            ArgToken::Other,
            pair("colour", ident("red")),
        ])),
        Err(at(0, GenerationError::UnrecognizedToken))
    );
}

#[test]
fn argument_list_is_read_token_by_token() {
    let annotation = Annotation {
        name: "constructor".to_string(),
        args: Some(vec![pair("name", ident("make")), pair("visibility", text("pub(super)"))]),
    };

    assert_eq!(
        parse_punctuated_attribute_args::<ConstructorArg>(&annotation),
        Ok(vec![
            ConstructorArg::Name("make".to_string()),
            ConstructorArg::Visibility(ConstructorVisibility::PubPath("super".to_string())),
        ])
    );
    assert_eq!(
        parse_punctuated_attribute_args::<AccessorArg>(&annotation),
        Err(at(1, GenerationError::UnknownArgumentKey))
    );
}

#[test]
fn annotation_without_argument_list_has_no_arguments() {
    let bare = Annotation { name: "constructor".to_string(), args: None };

    assert_eq!(parse_punctuated_attribute_args::<ConstructorArg>(&bare), Ok(vec![]));
    assert_eq!(parse_punctuated_attribute_args::<AccessorArg>(&bare), Ok(vec![]));
}

#[test]
fn get_attrs_for_args_resolves() {
    let attrs: ConstructorStructAttrs =
        get_attrs_for_args(vec![ConstructorArg::Name("make".to_string())]);

    assert_eq!(
        attrs,
        ConstructorStructAttrs { name: "make".to_string(), visibility: ConstructorVisibility::Pub }
    );
}

#[test]
fn attribute_name_is_handed_out() {
    let annotation = Annotation { name: "setters".to_string(), args: Some(vec![]) };

    assert_eq!(get_attribute_name(&annotation), "setters");
}

#[test]
fn each_error_has_its_message() {
    assert_eq!(GenerationError::UnknownArgumentKey.message(), "unknown argument name");
    assert_eq!(
        GenerationError::MalformedArgumentValue.message(),
        "the argument's value has the wrong shape"
    );
    assert_eq!(GenerationError::UnrecognizedToken.message(), "could not parse the argument");
    assert_eq!(GenerationError::UnsupportedFieldShape.message(), "expected a named field");
}
