//! The `self` access mode of a generated method.

use crate::error::GenerationError;
use crate::token::{is_word, result_view, ArgToken, ArgTokenView, ParseArg};
use vstd::prelude::*;

verus! {

/// How a generated method takes `self` and hands a field out.
#[derive(Debug, Clone, Copy, PartialEq, Eq, Structural)]
pub enum Modifier {
    /// `fn get(self)`
    Move,
    /// `fn get(&self)`
    Ref,
    /// `fn get(&mut self)`
    MutRef,
}

impl DeepView for Modifier {
    type V = Modifier;

    open spec fn deep_view(&self) -> Modifier {
        *self
    }
}

impl View for Modifier {
    type V = Modifier;

    open spec fn view(&self) -> Modifier {
        *self
    }
}

/// The access mode that a run of bare words names: `mut ref`, `ref` or `move`.
pub open spec fn modifier_of_words(words: Seq<Seq<char>>) -> Option<Modifier> {
    if words.len() == 2 && words[0] == "mut"@ && words[1] == "ref"@ {
        Some(Modifier::MutRef)
    } else if words.len() == 1 && words[0] == "ref"@ {
        Some(Modifier::Ref)
    } else if words.len() == 1 && words[0] == "move"@ {
        Some(Modifier::Move)
    } else {
        None
    }
}

impl ParseArg for Modifier {
    open spec fn spec_parse(token: ArgTokenView) -> Result<Modifier, GenerationError> {
        match token {
            ArgTokenView::Words(words) => match modifier_of_words(words) {
                Some(modifier) => Ok(modifier),
                None => Err(GenerationError::UnrecognizedToken),
            },
            _ => Err(GenerationError::UnrecognizedToken),
        }
    }

    /// Recognizes the keywords `mut ref`, `ref` and `move`, and nothing else.
    fn parse(token: &ArgToken) -> (r: Result<Modifier, GenerationError>)
        ensures
            result_view(r) == Modifier::spec_parse(token@),
    {
        match token {
            ArgToken::Words(words) => {
                if words.len() == 2 && is_word(&words[0], "mut") && is_word(&words[1], "ref") {
                    Ok(Modifier::MutRef)
                } else if words.len() == 1 && is_word(&words[0], "ref") {
                    Ok(Modifier::Ref)
                } else if words.len() == 1 && is_word(&words[0], "move") {
                    Ok(Modifier::Move)
                } else {
                    Err(GenerationError::UnrecognizedToken)
                }
            },
            _ => Err(GenerationError::UnrecognizedToken),
        }
    }
}

} // verus!
