//! The configuration of the `constructor` annotation.

use crate::constructor::constructor_arg::{ConstructorArg, ConstructorArgView};
use crate::constructor::constructor_visibility::{ConstructorVisibility, ConstructorVisibilityView};
use crate::new_from_args::NewFromArgs;
use vstd::prelude::*;
use vstd::string::*;

verus! {

/// The configuration of `constructor`.
#[derive(Debug, Clone, PartialEq, Eq)]
pub struct ConstructorStructAttrs {
    /// Constructor name
    pub name: String,
    /// Visibility
    pub visibility: ConstructorVisibility,
}

/// The mathematical value of a [`ConstructorStructAttrs`].
pub struct ConstructorStructAttrsView {
    pub name: Seq<char>,
    pub visibility: ConstructorVisibilityView,
}

impl DeepView for ConstructorStructAttrs {
    type V = ConstructorStructAttrsView;

    open spec fn deep_view(&self) -> ConstructorStructAttrsView {
        ConstructorStructAttrsView { name: self.name@, visibility: self.visibility@ }
    }
}

impl View for ConstructorStructAttrs {
    type V = ConstructorStructAttrsView;

    open spec fn view(&self) -> ConstructorStructAttrsView {
        self.deep_view()
    }
}

/// The configuration of `constructor` without arguments: a public method
/// called `new`.
pub open spec fn default_constructor_attrs() -> ConstructorStructAttrsView {
    ConstructorStructAttrsView { name: "new"@, visibility: ConstructorVisibilityView::Pub }
}

/// `attrs` after one more argument, which overwrites its own part of `attrs`.
pub open spec fn apply_constructor_arg(
    attrs: ConstructorStructAttrsView,
    arg: ConstructorArgView,
) -> ConstructorStructAttrsView {
    match arg {
        ConstructorArgView::Name(name) => ConstructorStructAttrsView { name, ..attrs },
        ConstructorArgView::Visibility(visibility) => ConstructorStructAttrsView {
            visibility,
            ..attrs
        },
    }
}

/// The defaults with the arguments applied from first to last.
pub open spec fn resolve_constructor_attrs(
    args: Seq<ConstructorArgView>,
) -> ConstructorStructAttrsView
    decreases args.len(),
{
    if args.len() == 0 {
        default_constructor_attrs()
    } else {
        apply_constructor_arg(resolve_constructor_attrs(args.drop_last()), args.last())
    }
}

impl NewFromArgs<ConstructorArg> for ConstructorStructAttrs {
    open spec fn spec_new(args: Seq<ConstructorArgView>) -> ConstructorStructAttrsView {
        resolve_constructor_attrs(args)
    }

    fn new(args: Vec<ConstructorArg>) -> (r: ConstructorStructAttrs)
        ensures
            r@ == ConstructorStructAttrs::spec_new(args.deep_view()),
    {
        // Constructor's default name is `new`
        let mut name = String::from_str("new");
        // Constructor's default visibility is `pub`
        let mut visibility = ConstructorVisibility::Pub;
        let ghost raw = args@;
        let ghost all = args.deep_view();

        for value in it: args
            invariant
                it.seq() == raw,
                all == Seq::new(raw.len(), |i: int| raw[i].deep_view()),
                (ConstructorStructAttrsView { name: name@, visibility: visibility@ })
                    == resolve_constructor_attrs(all.take(it.index() as int)),
        {
            proof {
                let done = it.index() as int;
                assert(all.take(done + 1).drop_last() =~= all.take(done));
                assert(all.take(done + 1).last() == value.deep_view());
            }
            match value {
                ConstructorArg::Name(n) => name = n,
                ConstructorArg::Visibility(vis) => visibility = vis,
            }
        }
        proof {
            assert(all.take(raw.len() as int) =~= all);
        }

        ConstructorStructAttrs { name, visibility }
    }
}

} // verus!
