//! The configuration of a record-level accessor annotation.

use crate::accessors::accessor_arg::{AccessorArg, AccessorArgView};
use crate::accessors::accessor_field_attrs::{AccessorFieldAttrs, AccessorFieldAttrsView};
use crate::modifier::Modifier;
use crate::new_from_args::NewFromArgs;
use vstd::prelude::*;

verus! {

/// The configuration of a record-level accessor annotation, `getters` or
/// `setters`.
#[derive(Debug, Clone, PartialEq, Eq)]
pub struct AccessorStructAttrs {
    /// Fields to include
    pub includes: Vec<String>,
    /// Fields to exclude
    pub excludes: Vec<String>,
    /// Prefix
    pub prefix: String,
    /// `self` modifier
    pub modifier: Modifier,
    /// Whether to include public fields or not
    pub include_pub: bool,
}

/// The mathematical value of an [`AccessorStructAttrs`].
pub struct AccessorStructAttrsView {
    pub includes: Seq<Seq<char>>,
    pub excludes: Seq<Seq<char>>,
    pub prefix: Seq<char>,
    pub modifier: Modifier,
    pub include_pub: bool,
}

impl DeepView for AccessorStructAttrs {
    type V = AccessorStructAttrsView;

    open spec fn deep_view(&self) -> AccessorStructAttrsView {
        AccessorStructAttrsView {
            includes: self.includes.deep_view(),
            excludes: self.excludes.deep_view(),
            prefix: self.prefix@,
            modifier: self.modifier,
            include_pub: self.include_pub,
        }
    }
}

impl View for AccessorStructAttrs {
    type V = AccessorStructAttrsView;

    open spec fn view(&self) -> AccessorStructAttrsView {
        self.deep_view()
    }
}

/// The configuration of an annotation without arguments: every field is
/// included and none excluded, no prefix, `self` by reference, public fields
/// left out.
pub open spec fn default_struct_attrs() -> AccessorStructAttrsView {
    AccessorStructAttrsView {
        includes: Seq::empty(),
        excludes: Seq::empty(),
        prefix: Seq::empty(),
        modifier: Modifier::Ref,
        include_pub: false,
    }
}

/// `attrs` after one more argument: each argument overwrites its own part of
/// `attrs`, the flag `pub` switches public fields on, and `name` leaves
/// `attrs` as it is.
pub open spec fn apply_struct_arg(
    attrs: AccessorStructAttrsView,
    arg: AccessorArgView,
) -> AccessorStructAttrsView {
    match arg {
        AccessorArgView::Includes(includes) => AccessorStructAttrsView { includes, ..attrs },
        AccessorArgView::Excludes(excludes) => AccessorStructAttrsView { excludes, ..attrs },
        AccessorArgView::Prefix(prefix) => AccessorStructAttrsView { prefix, ..attrs },
        AccessorArgView::Modifier(modifier) => AccessorStructAttrsView { modifier, ..attrs },
        AccessorArgView::Pub => AccessorStructAttrsView { include_pub: true, ..attrs },
        AccessorArgView::Name(_) => attrs,
    }
}

/// The defaults with the arguments applied from first to last.
pub open spec fn resolve_struct_attrs(args: Seq<AccessorArgView>) -> AccessorStructAttrsView
    decreases args.len(),
{
    if args.len() == 0 {
        default_struct_attrs()
    } else {
        apply_struct_arg(resolve_struct_attrs(args.drop_last()), args.last())
    }
}

/// The configuration of one field's accessor under a record-level
/// configuration: prefix and access mode are carried over, the name is left
/// to the field, and what selects fields is dropped.
pub open spec fn narrow(attrs: AccessorStructAttrsView) -> AccessorFieldAttrsView {
    AccessorFieldAttrsView { prefix: attrs.prefix, name: Seq::empty(), modifier: attrs.modifier }
}

impl NewFromArgs<AccessorArg> for AccessorStructAttrs {
    open spec fn spec_new(args: Seq<AccessorArgView>) -> AccessorStructAttrsView {
        resolve_struct_attrs(args)
    }

    fn new(punctuated: Vec<AccessorArg>) -> (r: AccessorStructAttrs)
        ensures
            r@ == AccessorStructAttrs::spec_new(punctuated.deep_view()),
    {
        let mut includes: Vec<String> = Vec::new();
        let mut excludes: Vec<String> = Vec::new();
        let mut prefix = String::new();
        let mut modifier = Modifier::Ref;
        let mut include_pub = false;
        let ghost raw = punctuated@;
        let ghost all = punctuated.deep_view();
        assert(includes.deep_view() =~= Seq::<Seq<char>>::empty());
        assert(excludes.deep_view() =~= Seq::<Seq<char>>::empty());

        for value in it: punctuated
            invariant
                it.seq() == raw,
                all == Seq::new(raw.len(), |i: int| raw[i].deep_view()),
                (AccessorStructAttrsView {
                    includes: includes.deep_view(),
                    excludes: excludes.deep_view(),
                    prefix: prefix@,
                    modifier,
                    include_pub,
                }) == resolve_struct_attrs(all.take(it.index() as int)),
        {
            proof {
                let done = it.index() as int;
                assert(all.take(done + 1).drop_last() =~= all.take(done));
                assert(all.take(done + 1).last() == value.deep_view());
            }
            match value {
                AccessorArg::Includes(i) => includes = i,
                AccessorArg::Excludes(e) => excludes = e,
                AccessorArg::Prefix(p) => prefix = p,
                AccessorArg::Modifier(m) => modifier = m,
                AccessorArg::Pub => include_pub = true,
                _ => {},
            };
        }
        proof {
            assert(all.take(raw.len() as int) =~= all);
        }

        AccessorStructAttrs { includes, excludes, prefix, modifier, include_pub }
    }
}

impl AccessorStructAttrs {
    /// Narrows the configuration to that of one field's accessor.
    pub fn into(self) -> (attrs: AccessorFieldAttrs)
        ensures
            attrs@ == narrow(self@),
    {
        AccessorFieldAttrs::from_values(self.prefix, String::new(), self.modifier)
    }
}

} // verus!
