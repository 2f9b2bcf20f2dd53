//! What a badge shows for a source and for the state of its lookup.

use crate::available::Sources;
use vstd::prelude::*;

verus! {

/// The icon that stands for `source`.
pub open spec fn icon_of(source: Sources) -> Seq<char> {
    match source {
        Sources::PackageNpm => "icon-[devicon--npm-wordmark]"@,
        Sources::OrgNpm => "icon-[devicon--npm-wordmark]"@,
        Sources::Github => "icon-[devicon--github]"@,
    }
}

/// The word beside the icon of `source`.
pub open spec fn label_of(source: Sources) -> Seq<char> {
    match source {
        Sources::PackageNpm => "package"@,
        Sources::OrgNpm => "org"@,
        Sources::Github => ""@,
    }
}

/// The mark for the state of a lookup: a spinner while it is loading,
/// else a green check for a free name, a red cross for a taken one and a
/// pale cross where nothing is known.
pub open spec fn status_class(loading: bool, available: Option<bool>) -> Seq<char> {
    if loading {
        "icon-[svg-spinners--270-ring-with-bg] w-5 h-5 relative top-[2px] left-[2px] text-black/70"@
    } else {
        match available {
            Some(true) => "icon-[heroicons--check-circle] w-6 h-6 text-green-800"@,
            Some(false) => "icon-[heroicons--x-circle] w-6 h-6 text-red-800"@,
            None => "icon-[heroicons--x-circle] w-6 h-6 text-black/10"@,
        }
    }
}

/// The icon and the label of the badge for `source`.
pub fn match_source(source: Sources) -> (r: (&'static str, &'static str))
    ensures
        r.0@ == icon_of(source),
        r.1@ == label_of(source),
{
    match source {
        Sources::PackageNpm => ("icon-[devicon--npm-wordmark]", "package"),
        Sources::OrgNpm => ("icon-[devicon--npm-wordmark]", "org"),
        Sources::Github => ("icon-[devicon--github]", ""),
    }
}

/// The mark that a badge shows for the state of a lookup.
pub fn badge_status(loading: bool, available: Option<bool>) -> (r: &'static str)
    ensures
        r@ == status_class(loading, available),
{
    if loading {
        "icon-[svg-spinners--270-ring-with-bg] w-5 h-5 relative top-[2px] left-[2px] text-black/70"
    } else {
        match available {
            Some(true) => "icon-[heroicons--check-circle] w-6 h-6 text-green-800",
            Some(false) => "icon-[heroicons--x-circle] w-6 h-6 text-red-800",
            None => "icon-[heroicons--x-circle] w-6 h-6 text-black/10",
        }
    }
}

} // verus!
