//! `Ordering` between camera-extension build numbers.
use vstd::prelude::*;
use core::cmp::Ordering;
use crate::macos_extension::{compare_versions, version_order, VersionOrder};

verus! {

pub open spec fn ordering_of(o: VersionOrder) -> Ordering {
    match o {
        VersionOrder::Older => Ordering::Less,
        VersionOrder::Same => Ordering::Equal,
        VersionOrder::Newer => Ordering::Greater,
    }
}

/// Compares two dotted build numbers component by component, treating a
/// missing or non-numeric component as zero.
pub fn compare_bundle_versions(left: &str, right: &str) -> (r: Ordering)
    ensures
        r == ordering_of(version_order(left@, right@)),
{
    match compare_versions(left, right) {
        VersionOrder::Older => Ordering::Less,
        VersionOrder::Same => Ordering::Equal,
        VersionOrder::Newer => Ordering::Greater,
    }
}

/// A replacement request is accepted only for a strictly newer build.
pub fn should_replace_extension(existing_build: &str, replacement_build: &str) -> (r: bool)
    ensures
        r == (version_order(replacement_build@, existing_build@) == VersionOrder::Newer),
{
    match compare_bundle_versions(replacement_build, existing_build) {
        Ordering::Greater => true,
        Ordering::Less => false,
        Ordering::Equal => false,
    }
}

} // verus!
