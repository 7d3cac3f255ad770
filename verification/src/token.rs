//! The generic tokens of an annotation's argument list.
//!
//! An argument list reaches the library already cut at its commas. Each piece
//! is one [`ArgToken`]: a run of bare words, a `key = value` pair, or something
//! else. Nothing here knows which words or keys an annotation accepts.

use crate::error::GenerationError;
use vstd::prelude::*;
use vstd::string::*;

verus! {

/// The right-hand side of a `key = value` argument.
#[derive(Debug, Clone, PartialEq, Eq)]
pub enum ArgValue {
    /// A single bare identifier, such as `get_`.
    Ident(String),
    /// A bracketed list, such as `[id, name]`. An element that is a bare
    /// identifier is `Some` of it, any other element is `None`.
    List(Vec<Option<String>>),
    /// A quoted string literal, without its quotes.
    Str(String),
    /// Any other expression.
    Other,
}

/// The mathematical value of an [`ArgValue`].
pub enum ArgValueView {
    Ident(Seq<char>),
    List(Seq<Option<Seq<char>>>),
    Str(Seq<char>),
    Other,
}

impl DeepView for ArgValue {
    type V = ArgValueView;

    open spec fn deep_view(&self) -> ArgValueView {
        match *self {
            ArgValue::Ident(s) => ArgValueView::Ident(s@),
            ArgValue::List(elems) => ArgValueView::List(elems.deep_view()),
            ArgValue::Str(s) => ArgValueView::Str(s@),
            ArgValue::Other => ArgValueView::Other,
        }
    }
}

impl View for ArgValue {
    type V = ArgValueView;

    open spec fn view(&self) -> ArgValueView {
        self.deep_view()
    }
}

/// A `key = value` argument.
#[derive(Debug, Clone, PartialEq, Eq)]
pub struct NameValue {
    pub name: String,
    pub value: ArgValue,
}

/// The mathematical value of a [`NameValue`].
pub struct NameValueView {
    pub name: Seq<char>,
    pub value: ArgValueView,
}

impl DeepView for NameValue {
    type V = NameValueView;

    open spec fn deep_view(&self) -> NameValueView {
        NameValueView { name: self.name@, value: self.value@ }
    }
}

impl View for NameValue {
    type V = NameValueView;

    open spec fn view(&self) -> NameValueView {
        self.deep_view()
    }
}

/// One argument of an annotation, before anything is known of its meaning.
#[derive(Debug, Clone, PartialEq, Eq)]
pub enum ArgToken {
    /// A run of bare words and nothing else, such as `pub` or `mut ref`.
    Words(Vec<String>),
    /// `key = value`.
    NameValue(NameValue),
    /// Anything else.
    Other,
}

/// The mathematical value of an [`ArgToken`].
pub enum ArgTokenView {
    Words(Seq<Seq<char>>),
    NameValue(NameValueView),
    Other,
}

impl DeepView for ArgToken {
    type V = ArgTokenView;

    open spec fn deep_view(&self) -> ArgTokenView {
        match *self {
            ArgToken::Words(words) => ArgTokenView::Words(words.deep_view()),
            ArgToken::NameValue(nv) => ArgTokenView::NameValue(nv@),
            ArgToken::Other => ArgTokenView::Other,
        }
    }
}

impl View for ArgToken {
    type V = ArgTokenView;

    open spec fn view(&self) -> ArgTokenView {
        self.deep_view()
    }
}

/// Whether `text` holds exactly the characters of `word`.
pub fn is_word(text: &String, word: &str) -> (same: bool)
    ensures
        same == (text@ == word@),
{
    let other = String::from_str(word);
    *text == other
}

/// The mathematical value of a parse result: that of the argument, or the error.
pub open spec fn result_view<T: DeepView>(r: Result<T, GenerationError>) -> Result<
    T::V,
    GenerationError,
> {
    match r {
        Ok(value) => Ok(value.deep_view()),
        Err(error) => Err(error),
    }
}

/// An argument that is recognized from one generic token.
pub trait ParseArg: Sized + DeepView {
    /// What [`ParseArg::parse`] makes of a token: the argument it stands for, or
    /// the reason why it stands for none.
    spec fn spec_parse(token: ArgTokenView) -> Result<Self::V, GenerationError>;

    /// Classifies one token.
    fn parse(token: &ArgToken) -> (r: Result<Self, GenerationError>)
        ensures
            result_view(r) == Self::spec_parse(token@),
    ;
}

} // verus!
