//! One argument of an accessor annotation.

use crate::error::GenerationError;
use crate::modifier::{modifier_of_words, Modifier};
use crate::token::{
    is_word, result_view, ArgToken, ArgTokenView, ArgValue, ArgValueView, NameValue, NameValueView,
    ParseArg,
};
use vstd::prelude::*;

verus! {

/// One argument of `getters`, `setters`, `get` or `set`.
#[derive(Debug, Clone, PartialEq, Eq)]
pub enum AccessorArg {
    /// Fields to include
    Includes(Vec<String>),
    /// Fields to exclude
    Excludes(Vec<String>),
    /// Prefix of the method name
    Prefix(String),
    /// Include public fields
    Pub,
    /// `self` modifier
    Modifier(Modifier),
    /// Method (getter/setter) name
    Name(String),
}

/// The mathematical value of an [`AccessorArg`].
pub enum AccessorArgView {
    Includes(Seq<Seq<char>>),
    Excludes(Seq<Seq<char>>),
    Prefix(Seq<char>),
    Pub,
    Modifier(Modifier),
    Name(Seq<char>),
}

impl DeepView for AccessorArg {
    type V = AccessorArgView;

    open spec fn deep_view(&self) -> AccessorArgView {
        match *self {
            AccessorArg::Includes(names) => AccessorArgView::Includes(names.deep_view()),
            AccessorArg::Excludes(names) => AccessorArgView::Excludes(names.deep_view()),
            AccessorArg::Prefix(prefix) => AccessorArgView::Prefix(prefix@),
            AccessorArg::Pub => AccessorArgView::Pub,
            AccessorArg::Modifier(modifier) => AccessorArgView::Modifier(modifier),
            AccessorArg::Name(name) => AccessorArgView::Name(name@),
        }
    }
}

impl View for AccessorArg {
    type V = AccessorArgView;

    open spec fn view(&self) -> AccessorArgView {
        self.deep_view()
    }
}

/// The string that a list element stands for: the identifier itself, and the
/// empty string for an element that is no identifier.
pub open spec fn element_text(element: Option<Seq<char>>) -> Seq<char> {
    match element {
        Some(ident) => ident,
        None => Seq::empty(),
    }
}

/// The strings of a bracketed list of identifiers, one for each element and in
/// the list's order; `MalformedArgumentValue` for a value that is no list.
pub open spec fn spec_brackets_to_vec(brackets: ArgValueView) -> Result<
    Seq<Seq<char>>,
    GenerationError,
> {
    match brackets {
        ArgValueView::List(elems) => Ok(Seq::new(elems.len(), |i: int| element_text(elems[i]))),
        _ => Err(GenerationError::MalformedArgumentValue),
    }
}

/// The text of a value that is a single identifier; `MalformedArgumentValue`
/// for any other value.
pub open spec fn spec_ident_to_string(expr: ArgValueView) -> Result<Seq<char>, GenerationError> {
    match expr {
        ArgValueView::Ident(ident) => Ok(ident),
        _ => Err(GenerationError::MalformedArgumentValue),
    }
}

/// The accessor argument that `name = value` stands for. The key decides
/// first: an unknown key is `UnknownArgumentKey` whatever the value is.
pub open spec fn spec_nv_to_arg(nv: NameValueView) -> Result<AccessorArgView, GenerationError> {
    if nv.name == "includes"@ {
        match spec_brackets_to_vec(nv.value) {
            Ok(names) => Ok(AccessorArgView::Includes(names)),
            Err(error) => Err(error),
        }
    } else if nv.name == "excludes"@ {
        match spec_brackets_to_vec(nv.value) {
            Ok(names) => Ok(AccessorArgView::Excludes(names)),
            Err(error) => Err(error),
        }
    } else if nv.name == "prefix"@ {
        match spec_ident_to_string(nv.value) {
            Ok(prefix) => Ok(AccessorArgView::Prefix(prefix)),
            Err(error) => Err(error),
        }
    } else if nv.name == "name"@ {
        match spec_ident_to_string(nv.value) {
            Ok(name) => Ok(AccessorArgView::Name(name)),
            Err(error) => Err(error),
        }
    } else {
        Err(GenerationError::UnknownArgumentKey)
    }
}

/// Whether a run of bare words is the flag `pub`.
pub open spec fn is_pub_flag(words: Seq<Seq<char>>) -> bool {
    words.len() == 1 && words[0] == "pub"@
}

impl AccessorArg {
    /// Turns `name = value` into the argument it stands for.
    pub fn nv_to_arg(nv: &NameValue) -> (r: Result<AccessorArg, GenerationError>)
        ensures
            result_view(r) == spec_nv_to_arg(nv@),
    {
        if is_word(&nv.name, "includes") {
            match AccessorArg::brackets_to_vec(&nv.value) {
                Ok(names) => Ok(AccessorArg::Includes(names)),
                Err(error) => Err(error),
            }
        } else if is_word(&nv.name, "excludes") {
            match AccessorArg::brackets_to_vec(&nv.value) {
                Ok(names) => Ok(AccessorArg::Excludes(names)),
                Err(error) => Err(error),
            }
        } else if is_word(&nv.name, "prefix") {
            match AccessorArg::ident_to_string(&nv.value) {
                Ok(prefix) => Ok(AccessorArg::Prefix(prefix)),
                Err(error) => Err(error),
            }
        } else if is_word(&nv.name, "name") {
            match AccessorArg::ident_to_string(&nv.value) {
                Ok(name) => Ok(AccessorArg::Name(name)),
                Err(error) => Err(error),
            }
        } else {
            Err(GenerationError::UnknownArgumentKey)
        }
    }

    /// Reads a bracketed list `[...]` into a vector of names.
    pub fn brackets_to_vec(brackets: &ArgValue) -> (r: Result<Vec<String>, GenerationError>)
        ensures
            result_view(r) == spec_brackets_to_vec(brackets@),
    {
        match brackets {
            ArgValue::List(elems) => {
                let mut names: Vec<String> = Vec::new();
                for i in 0..elems.len()
                    invariant
                        names.len() == i,
                        forall|j: int|
                            0 <= j < i ==> (#[trigger] names[j])@ == element_text(
                                elems[j].deep_view(),
                            ),
                {
                    match &elems[i] {
                        Some(ident) => names.push(ident.clone()),
                        None => names.push(String::new()),
                    }
                }
                assert(names.deep_view() =~= Seq::new(
                    elems.deep_view().len(),
                    |i: int| element_text(elems.deep_view()[i]),
                ));
                Ok(names)
            },
            _ => Err(GenerationError::MalformedArgumentValue),
        }
    }

    /// Reads a single identifier into a string.
    pub fn ident_to_string(expr: &ArgValue) -> (r: Result<String, GenerationError>)
        ensures
            result_view(r) == spec_ident_to_string(expr@),
    {
        match expr {
            ArgValue::Ident(ident) => Ok(ident.clone()),
            _ => Err(GenerationError::MalformedArgumentValue),
        }
    }
}

impl ParseArg for AccessorArg {
    /// The keywords of an access mode are tried first, then the flag `pub`,
    /// then `key = value`.
    open spec fn spec_parse(token: ArgTokenView) -> Result<AccessorArgView, GenerationError> {
        match token {
            ArgTokenView::Words(words) => match modifier_of_words(words) {
                Some(modifier) => Ok(AccessorArgView::Modifier(modifier)),
                None => if is_pub_flag(words) {
                    Ok(AccessorArgView::Pub)
                } else {
                    Err(GenerationError::UnrecognizedToken)
                },
            },
            ArgTokenView::NameValue(nv) => spec_nv_to_arg(nv),
            ArgTokenView::Other => Err(GenerationError::UnrecognizedToken),
        }
    }

    fn parse(token: &ArgToken) -> (r: Result<AccessorArg, GenerationError>)
        ensures
            result_view(r) == AccessorArg::spec_parse(token@),
    {
        if let Ok(modifier) = Modifier::parse(token) {
            return Ok(AccessorArg::Modifier(modifier));
        }
        match token {
            ArgToken::Words(words) => {
                if words.len() == 1 && is_word(&words[0], "pub") {
                    Ok(AccessorArg::Pub)
                } else {
                    Err(GenerationError::UnrecognizedToken)
                }
            },
            ArgToken::NameValue(nv) => AccessorArg::nv_to_arg(nv),
            ArgToken::Other => Err(GenerationError::UnrecognizedToken),
        }
    }
}

} // verus!
