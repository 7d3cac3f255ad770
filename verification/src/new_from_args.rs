//! Configurations that are resolved from an annotation's arguments.

use vstd::prelude::*;

verus! {

/// A configuration that is built from the arguments of one annotation.
pub trait NewFromArgs<TArg: DeepView>: Sized + DeepView {
    /// The configuration that the arguments resolve to: the defaults, with
    /// each argument applied in order.
    spec fn spec_new(args: Seq<TArg::V>) -> Self::V;

    /// Resolves the arguments, given in source order, into a configuration.
    fn new(args: Vec<TArg>) -> (r: Self)
        ensures
            r.deep_view() == Self::spec_new(args.deep_view()),
    ;
}

} // verus!
