//! Dependencies found in a workspace's manifests.

use vstd::prelude::*;
use crate::text::{contains, contains_str, starts_with, text_is};

verus! {

/// Where a dependency comes from.
#[derive(Debug, Clone, Copy, PartialEq, Eq, Structural)]
pub enum Ecosystem {
    Rust,
    Node,
    Python,
}

/// One dependency of the workspace.
#[derive(Debug, Clone)]
pub struct Dependency {
    pub name: String,
    pub version: String,
    pub ecosystem: Ecosystem,
}

/// A dependency as plain values.
pub struct DependencyView {
    pub name: Seq<char>,
    pub version: Seq<char>,
    pub ecosystem: Ecosystem,
}

impl DeepView for Dependency {
    type V = DependencyView;

    open spec fn deep_view(&self) -> DependencyView {
        DependencyView { name: self.name@, version: self.version@, ecosystem: self.ecosystem }
    }
}

/// What a Cargo manifest says of one dependency.
#[derive(Debug, Clone)]
pub enum Requirement {
    /// A bare version requirement.
    Version(String),
    /// A table, with its `version` entry if that is a text.
    Table { version: Option<String> },
    /// Anything else.
    Other,
}

/// The version that a manifest entry asks for; `*` where it names none.
pub open spec fn requested_version(requirement: Requirement) -> Seq<char> {
    match requirement {
        Requirement::Version(version) => version@,
        Requirement::Table { version: Some(version) } => version@,
        Requirement::Table { version: None } => "*"@,
        Requirement::Other => "*"@,
    }
}

/// A version that points into the registry, not at a path or at the
/// workspace.
pub open spec fn is_registry_version(version: Seq<char>) -> bool {
    !contains(version, "path"@) && !contains(version, "workspace"@)
}

/// An earlier entry of `deps` has the name of the entry at `at`.
pub open spec fn named_before(deps: Seq<DependencyView>, at: int) -> bool {
    exists|j: int| 0 <= j < at && (#[trigger] deps[j]).name == deps[at].name
}

/// The first dependency of each name, in the order of `deps`.
pub open spec fn first_of_each_name(deps: Seq<DependencyView>) -> Seq<DependencyView>
    decreases deps.len(),
{
    if deps.len() == 0 {
        Seq::empty()
    } else {
        let earlier = first_of_each_name(deps.drop_last());
        if named_before(deps, deps.len() - 1) {
            earlier
        } else {
            earlier.push(deps.last())
        }
    }
}

/// A directory entry that the search for manifests passes over: hidden
/// entries, `node_modules` and `target`.
pub open spec fn is_passed_over(name: Seq<char>) -> bool {
    starts_with(name, "."@) || name == "node_modules"@ || name == "target"@
}

/// A file name that marks a manifest.
pub open spec fn is_manifest_name(name: Seq<char>) -> bool {
    name == "Cargo.toml"@ || name == "package.json"@
}

/// Tests whether the search for manifests passes over the entry `name`.
pub fn passes_over(name: &str) -> (skipped: bool)
    ensures
        skipped == is_passed_over(name@),
{
    let name_chars = crate::text::chars_of(name);
    let dot = crate::text::chars_of(".");
    crate::text::matches_at(name_chars.as_slice(), dot.as_slice(), 0) || text_is(
        name,
        "node_modules",
    ) || text_is(name, "target")
}

/// Tests whether a file called `name` is a manifest.
pub fn names_manifest(name: &str) -> (manifest: bool)
    ensures
        manifest == is_manifest_name(name@),
{
    text_is(name, "Cargo.toml") || text_is(name, "package.json")
}

/// The version that a Cargo manifest entry asks for.
pub fn version_of(requirement: &Requirement) -> (version: String)
    ensures
        version@ == requested_version(*requirement),
{
    match requirement {
        Requirement::Version(version) => version.clone(),
        Requirement::Table { version: Some(version) } => version.clone(),
        Requirement::Table { version: None } => "*".to_owned(),
        Requirement::Other => "*".to_owned(),
    }
}

/// The Rust dependency that a Cargo manifest entry stands for, unless its
/// version points at a path or at the workspace.
pub fn rust_dependency(name: String, requirement: &Requirement) -> (dependency: Option<Dependency>)
    ensures
        match dependency {
            Some(found) => is_registry_version(requested_version(*requirement))
                && found.deep_view() == (DependencyView {
                name: name@,
                version: requested_version(*requirement),
                ecosystem: Ecosystem::Rust,
            }),
            None => !is_registry_version(requested_version(*requirement)),
        },
{
    let version = version_of(requirement);
    if contains_str(version.as_str(), "path") || contains_str(version.as_str(), "workspace") {
        None
    } else {
        Some(Dependency { name, version, ecosystem: Ecosystem::Rust })
    }
}

/// Keeps the first dependency of each name and drops the later ones.
pub fn dedupe_by_name(deps: Vec<Dependency>) -> (kept: Vec<Dependency>)
    ensures
        kept.deep_view() == first_of_each_name(deps.deep_view()),
{
    let ghost all = deps.deep_view();
    let mut kept: Vec<Dependency> = Vec::new();
    let mut i: usize = 0;
    while i < deps.len()
        invariant
            i <= deps.len(),
            all == deps.deep_view(),
            kept.deep_view() == first_of_each_name(all.take(i as int)),
        decreases deps.len() - i,
    {
        let mut seen = false;
        let mut j: usize = 0;
        while j < i
            invariant
                j <= i < deps.len(),
                all == deps.deep_view(),
                seen == (exists|k: int| 0 <= k < j && (#[trigger] all[k]).name == all[i as int].name),
            decreases i - j,
        {
            assert(all[j as int].name == deps@[j as int].name@);
            if text_is(deps[j].name.as_str(), deps[i].name.as_str()) {
                seen = true;
            }
            j += 1;
        }
        proof {
            let upto = all.take(i + 1);
            assert(upto.drop_last() =~= all.take(i as int));
            if seen {
                let k = choose|k: int| 0 <= k < i && (#[trigger] all[k]).name == all[i as int].name;
                assert(upto[k].name == upto[i as int].name);
            }
        }
        if !seen {
            let dependency = Dependency {
                name: deps[i].name.clone(),
                version: deps[i].version.clone(),
                ecosystem: deps[i].ecosystem,
            };
            kept.push(dependency);
        }
        i += 1;
    }
    assert(all.take(i as int) =~= all);
    kept
}

} // verus!
