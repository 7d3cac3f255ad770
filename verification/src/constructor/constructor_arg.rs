//! One argument of the `constructor` annotation.

use crate::constructor::constructor_visibility::{ConstructorVisibility, ConstructorVisibilityView};
use crate::error::GenerationError;
use crate::token::{
    is_word, result_view, ArgToken, ArgTokenView, ArgValue, ArgValueView, NameValue, NameValueView,
    ParseArg,
};
use vstd::prelude::*;
use vstd::string::*;

verus! {

/// One argument of `constructor`.
#[derive(Debug, Clone, PartialEq, Eq)]
pub enum ConstructorArg {
    /// The constructor name. The default value is `new`
    Name(String),
    /// The constructor visibility. The default value is `ConstructorVisibility::Pub`
    Visibility(ConstructorVisibility),
}

/// The mathematical value of a [`ConstructorArg`].
pub enum ConstructorArgView {
    Name(Seq<char>),
    Visibility(ConstructorVisibilityView),
}

impl DeepView for ConstructorArg {
    type V = ConstructorArgView;

    open spec fn deep_view(&self) -> ConstructorArgView {
        match *self {
            ConstructorArg::Name(name) => ConstructorArgView::Name(name@),
            ConstructorArg::Visibility(visibility) => ConstructorArgView::Visibility(visibility@),
        }
    }
}

impl View for ConstructorArg {
    type V = ConstructorArgView;

    open spec fn view(&self) -> ConstructorArgView {
        self.deep_view()
    }
}

/// The text of a value that is a single identifier; `MalformedArgumentValue`
/// for any other value.
pub open spec fn spec_string_from_nv_value(e: ArgValueView) -> Result<Seq<char>, GenerationError> {
    match e {
        ArgValueView::Ident(ident) => Ok(ident),
        _ => Err(GenerationError::MalformedArgumentValue),
    }
}

/// The visibility that one of the two plain words names: `pub` or `private`.
pub open spec fn spec_visibility_parse_pub(text: Seq<char>) -> Result<
    ConstructorVisibilityView,
    GenerationError,
> {
    if text == "pub"@ {
        Ok(ConstructorVisibilityView::Pub)
    } else if text == "private"@ {
        Ok(ConstructorVisibilityView::Private)
    } else {
        Err(GenerationError::MalformedArgumentValue)
    }
}

/// Whether `v` has the form `pub(<path>)`.
pub open spec fn is_scoped(v: Seq<char>) -> bool {
    "pub("@.is_prefix_of(v) && ")"@.is_suffix_of(v)
}

/// What stands between `pub(` and the closing bracket of `v`.
pub open spec fn scope_of(v: Seq<char>) -> Seq<char> {
    v.subrange("pub("@.len() as int, v.len() - ")"@.len())
}

/// The scoped visibility that a text of the form `pub(<path>)` names, with
/// the path as it stands.
pub open spec fn spec_visibility_parse_pub_path(v: Seq<char>) -> Result<
    ConstructorVisibilityView,
    GenerationError,
> {
    if is_scoped(v) {
        Ok(ConstructorVisibilityView::PubPath(scope_of(v)))
    } else {
        Err(GenerationError::MalformedArgumentValue)
    }
}

/// The visibility that a text names: `pub`, `private`, or `pub(<path>)`.
pub open spec fn visibility_of_text(text: Seq<char>) -> Result<
    ConstructorVisibilityView,
    GenerationError,
> {
    match spec_visibility_parse_pub(text) {
        Ok(visibility) => Ok(visibility),
        Err(_) => spec_visibility_parse_pub_path(text),
    }
}

/// The visibility that a value names. It has to be a string literal.
pub open spec fn spec_visibility_from_nv_value(e: ArgValueView) -> Result<
    ConstructorVisibilityView,
    GenerationError,
> {
    match e {
        ArgValueView::Str(text) => visibility_of_text(text),
        _ => Err(GenerationError::MalformedArgumentValue),
    }
}

/// The constructor argument that `name = value` stands for. The key decides
/// first: an unknown key is `UnknownArgumentKey` whatever the value is.
pub open spec fn spec_constructor_nv_to_arg(nv: NameValueView) -> Result<
    ConstructorArgView,
    GenerationError,
> {
    if nv.name == "name"@ {
        match spec_string_from_nv_value(nv.value) {
            Ok(name) => Ok(ConstructorArgView::Name(name)),
            Err(error) => Err(error),
        }
    } else if nv.name == "visibility"@ {
        match spec_visibility_from_nv_value(nv.value) {
            Ok(visibility) => Ok(ConstructorArgView::Visibility(visibility)),
            Err(error) => Err(error),
        }
    } else {
        Err(GenerationError::UnknownArgumentKey)
    }
}

impl ConstructorArg {
    /// Turns `name = value` into the argument it stands for.
    pub fn nv_to_arg(nv: &NameValue) -> (r: Result<ConstructorArg, GenerationError>)
        ensures
            result_view(r) == spec_constructor_nv_to_arg(nv@),
    {
        if is_word(&nv.name, "name") {
            match ConstructorArg::string_from_nv_value(&nv.value) {
                Ok(name) => Ok(ConstructorArg::Name(name)),
                Err(error) => Err(error),
            }
        } else if is_word(&nv.name, "visibility") {
            match ConstructorArg::visibility_from_nv_value(&nv.value) {
                Ok(visibility) => Ok(ConstructorArg::Visibility(visibility)),
                Err(error) => Err(error),
            }
        } else {
            Err(GenerationError::UnknownArgumentKey)
        }
    }

    /// Reads a single identifier into a string.
    pub fn string_from_nv_value(e: &ArgValue) -> (r: Result<String, GenerationError>)
        ensures
            result_view(r) == spec_string_from_nv_value(e@),
    {
        if let ArgValue::Ident(ident) = e {
            return Ok(ident.clone());
        }
        return Err(GenerationError::MalformedArgumentValue);
    }

    /// Reads one of the words `pub` and `private`.
    pub fn visibility_parse_pub(p: &String) -> (r: Result<ConstructorVisibility, GenerationError>)
        ensures
            result_view(r) == spec_visibility_parse_pub(p@),
    {
        if is_word(p, "pub") {
            return Ok(ConstructorVisibility::Pub);
        } else if is_word(p, "private") {
            return Ok(ConstructorVisibility::Private);
        } else {
            return Err(GenerationError::MalformedArgumentValue);
        }
    }

    /// Reads a text of the form `pub(<path>)`.
    pub fn visibility_parse_pub_path(v: &String) -> (r: Result<
        ConstructorVisibility,
        GenerationError,
    >)
        ensures
            result_view(r) == spec_visibility_parse_pub_path(v@),
    {
        proof {
            reveal_strlit("pub(");
            reveal_strlit(")");
        }
        let text = v.as_str();
        let len = text.unicode_len();
        if len >= 5 && text.get_char(0) == 'p' && text.get_char(1) == 'u' && text.get_char(2)
            == 'b' && text.get_char(3) == '(' && text.get_char(len - 1) == ')' {
            let path = text.substring_char(4, len - 1);
            assert("pub("@ =~= v@.subrange(0, 4));
            assert(")"@ =~= v@.subrange(len - 1, len as int));
            return Ok(ConstructorVisibility::PubPath(String::from_str(path)));
        }
        assert(!is_scoped(v@)) by {
            if is_scoped(v@) {
                assert("pub("@ == v@.subrange(0, 4));
                assert(v@.subrange(0, 4)[0] == 'p');
                assert(v@.subrange(0, 4)[1] == 'u');
                assert(v@.subrange(0, 4)[2] == 'b');
                assert(v@.subrange(0, 4)[3] == '(');
                assert(")"@ == v@.subrange(len - 1, len as int));
                assert(v@.subrange(len - 1, len as int)[0] == ')');
                assert(v@[3] == '(');
                assert(v@[len - 1] == ')');
            }
        }

        Err(GenerationError::MalformedArgumentValue)
    }

    /// Reads the value of `visibility = ...`.
    pub fn visibility_from_nv_value(e: &ArgValue) -> (r: Result<
        ConstructorVisibility,
        GenerationError,
    >)
        ensures
            result_view(r) == spec_visibility_from_nv_value(e@),
    {
        if let ArgValue::Str(s) = e {
            match ConstructorArg::visibility_parse_pub(s) {
                Ok(visibility) => Ok(visibility),
                Err(_) => ConstructorArg::visibility_parse_pub_path(s),
            }
        } else {
            Err(GenerationError::MalformedArgumentValue)
        }
    }
}

impl ParseArg for ConstructorArg {
    /// Only `key = value` is an argument of a constructor.
    open spec fn spec_parse(token: ArgTokenView) -> Result<ConstructorArgView, GenerationError> {
        match token {
            ArgTokenView::NameValue(nv) => spec_constructor_nv_to_arg(nv),
            _ => Err(GenerationError::UnrecognizedToken),
        }
    }

    fn parse(token: &ArgToken) -> (r: Result<ConstructorArg, GenerationError>)
        ensures
            result_view(r) == ConstructorArg::spec_parse(token@),
    {
        let arg = if let ArgToken::NameValue(nv) = token {
            ConstructorArg::nv_to_arg(nv)?
        } else {
            return Err(GenerationError::UnrecognizedToken);
        };

        Ok(arg)
    }
}

} // verus!
