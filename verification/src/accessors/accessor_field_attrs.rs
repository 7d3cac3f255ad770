//! The configuration of one generated accessor.

use crate::accessors::accessor_arg::{AccessorArg, AccessorArgView};
use crate::modifier::Modifier;
use crate::new_from_args::NewFromArgs;
use vstd::prelude::*;

verus! {

/// The configuration of the accessor of one field.
#[derive(Debug, Clone, PartialEq, Eq)]
pub struct AccessorFieldAttrs {
    /// Method prefix
    pub prefix: String,
    /// Method name
    pub name: String,
    /// Method `self` modifier
    pub modifier: Modifier,
}

/// The mathematical value of an [`AccessorFieldAttrs`].
pub struct AccessorFieldAttrsView {
    pub prefix: Seq<char>,
    pub name: Seq<char>,
    pub modifier: Modifier,
}

impl DeepView for AccessorFieldAttrs {
    type V = AccessorFieldAttrsView;

    open spec fn deep_view(&self) -> AccessorFieldAttrsView {
        AccessorFieldAttrsView { prefix: self.prefix@, name: self.name@, modifier: self.modifier }
    }
}

impl View for AccessorFieldAttrs {
    type V = AccessorFieldAttrsView;

    open spec fn view(&self) -> AccessorFieldAttrsView {
        self.deep_view()
    }
}

/// The configuration of an annotation without arguments: no prefix, no name
/// of its own, `self` by reference.
pub open spec fn default_field_attrs() -> AccessorFieldAttrsView {
    AccessorFieldAttrsView { prefix: Seq::empty(), name: Seq::empty(), modifier: Modifier::Ref }
}

/// `attrs` after one more argument: `prefix`, `name` and an access mode
/// overwrite what was there, every other argument leaves `attrs` as it is.
pub open spec fn apply_field_arg(
    attrs: AccessorFieldAttrsView,
    arg: AccessorArgView,
) -> AccessorFieldAttrsView {
    match arg {
        AccessorArgView::Prefix(prefix) => AccessorFieldAttrsView { prefix, ..attrs },
        AccessorArgView::Name(name) => AccessorFieldAttrsView { name, ..attrs },
        AccessorArgView::Modifier(modifier) => AccessorFieldAttrsView { modifier, ..attrs },
        _ => attrs,
    }
}

/// The defaults with the arguments applied from first to last.
pub open spec fn resolve_field_attrs(args: Seq<AccessorArgView>) -> AccessorFieldAttrsView
    decreases args.len(),
{
    if args.len() == 0 {
        default_field_attrs()
    } else {
        apply_field_arg(resolve_field_attrs(args.drop_last()), args.last())
    }
}

impl AccessorFieldAttrs {
    /// The configuration with these three values.
    pub fn from_values(prefix: String, name: String, modifier: Modifier) -> (attrs:
        AccessorFieldAttrs)
        ensures
            attrs@ == (AccessorFieldAttrsView { prefix: prefix@, name: name@, modifier }),
    {
        AccessorFieldAttrs { prefix, name, modifier }
    }
}

impl NewFromArgs<AccessorArg> for AccessorFieldAttrs {
    open spec fn spec_new(args: Seq<AccessorArgView>) -> AccessorFieldAttrsView {
        resolve_field_attrs(args)
    }

    fn new(args: Vec<AccessorArg>) -> (r: AccessorFieldAttrs)
        ensures
            r@ == AccessorFieldAttrs::spec_new(args.deep_view()),
    {
        let mut prefix = String::new();
        let mut name = String::new();
        let mut modifier = Modifier::Ref;
        let ghost raw = args@;
        let ghost all = args.deep_view();

        for arg in it: args
            invariant
                it.seq() == raw,
                all == Seq::new(raw.len(), |i: int| raw[i].deep_view()),
                (AccessorFieldAttrsView { prefix: prefix@, name: name@, modifier })
                    == resolve_field_attrs(all.take(it.index() as int)),
        {
            proof {
                let done = it.index() as int;
                assert(all.take(done + 1).drop_last() =~= all.take(done));
                assert(all.take(done + 1).last() == arg.deep_view());
            }
            match arg {
                AccessorArg::Prefix(p) => prefix = p,
                AccessorArg::Name(n) => name = n,
                AccessorArg::Modifier(m) => modifier = m,
                _ => {},
            }
        }
        proof {
            assert(all.take(raw.len() as int) =~= all);
        }

        AccessorFieldAttrs { prefix, name, modifier }
    }
}

} // verus!
