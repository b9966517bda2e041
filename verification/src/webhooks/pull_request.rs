//! The layer that a repository belongs to.

use vstd::prelude::*;
use vstd::string::*;
use crate::text::{contains, contains_text};

verus! {

/// The layer of a repository, read off its name; nothing for a
/// repository that belongs to no layer.
pub open spec fn layer_of(repository: Seq<char>) -> Option<i32> {
    if contains_text(repository, "bllvm-spec"@) || contains_text(repository, "orange-paper"@) {
        Some(1i32)
    } else if contains_text(repository, "bllvm-consensus"@) || contains_text(
        repository,
        "consensus-proof"@,
    ) {
        Some(2i32)
    } else if contains_text(repository, "bllvm-protocol"@) || contains_text(
        repository,
        "protocol-engine"@,
    ) {
        Some(3i32)
    } else if contains_text(repository, "bllvm-node"@) || contains_text(
        repository,
        "reference-node"@,
    ) || contains_text(repository, "/bllvm"@) {
        Some(4i32)
    } else if contains_text(repository, "bllvm-sdk"@) || contains_text(
        repository,
        "developer-sdk"@,
    ) {
        Some(5i32)
    } else if contains_text(repository, "bllvm-commons"@) || contains_text(
        repository,
        "governance-app"@,
    ) {
        Some(6i32)
    } else {
        None
    }
}

/// The layer of a repository, read off its name.
pub fn repository_layer(repository: &str) -> (layer: Option<i32>)
    ensures
        layer == layer_of(repository@),
{
    if contains(repository, "bllvm-spec") || contains(repository, "orange-paper") {
        Some(1)
    } else if contains(repository, "bllvm-consensus") || contains(repository, "consensus-proof") {
        Some(2)
    } else if contains(repository, "bllvm-protocol") || contains(repository, "protocol-engine") {
        Some(3)
    } else if contains(repository, "bllvm-node") || contains(repository, "reference-node")
        || contains(repository, "/bllvm") {
        Some(4)
    } else if contains(repository, "bllvm-sdk") || contains(repository, "developer-sdk") {
        Some(5)
    } else if contains(repository, "bllvm-commons") || contains(repository, "governance-app") {
        Some(6)
    } else {
        None
    }
}

} // verus!
