//! Declarations of the outside types this library carries, and the wrappers
//! around the outside functions it calls.
use crate::manifest::{Manifest, ManifestProject, OptionalGroup};
use vstd::prelude::*;

verus! {

/// pep508_rs's error for a package or extra name that fails validation.
#[verifier::external_type_specification]
#[verifier::external_body]
pub struct ExInvalidNameError(pep508_rs::InvalidNameError);

/// toml's deserialization error, as `pyproject_toml` returns it.
#[verifier::external_type_specification]
#[verifier::external_body]
pub struct ExTomlError(toml::de::Error);

/// A parsed dependency specifier (a `pep508_rs::Requirement`). Verus cannot
/// declare that type, since its generic parameter is bound by an outside
/// trait, so the value is carried inside this struct, unopened.
#[verifier::external_body]
#[derive(Debug)]
pub struct Requirement {
    pub inner: pep508_rs::Requirement,
}

/// What pep508_rs's `ExtraName::from_str` makes of a text: the normalized
/// extra name, or nothing where the text is not a valid name.
pub uninterp spec fn normalized_extra(s: Seq<char>) -> Option<Seq<char>>;

/// What pep508_rs's `PackageName::from_str` makes of a text: the normalized
/// package name, or nothing where the text is not a valid name.
pub uninterp spec fn normalized_package(s: Seq<char>) -> Option<Seq<char>>;

/// Relies on pep508_rs's `Requirement::from_str` to parse one dependency
/// specifier; its error is rendered as text. Nothing is stated of the value:
/// a URL in it has environment variables expanded.
#[verifier::external_body]
pub(crate) fn parse_requirement(input: &str) -> (r: Result<Requirement, String>) {
    <pep508_rs::Requirement as std::str::FromStr>::from_str(input).map(
        |inner| Requirement { inner },
    ).map_err(|e| e.to_string())
}

/// Relies on pep508_rs's `ExtraName::from_str`: it validates and normalizes
/// an extra name, and its result depends on the text alone.
#[verifier::external_body]
pub(crate) fn normalize_extra_name(name: &str) -> (r: Result<String, pep508_rs::InvalidNameError>)
    ensures
        match r {
            Ok(n) => normalized_extra(name@) == Some(n@),
            Err(_) => normalized_extra(name@) is None,
        },
{
    <pep508_rs::ExtraName as std::str::FromStr>::from_str(name).map(|n| n.to_string())
}

/// Relies on pep508_rs's `PackageName::from_str`: it validates and normalizes
/// a package name, and its result depends on the text alone.
#[verifier::external_body]
pub(crate) fn normalize_package_name(name: &str) -> (r: Result<String, pep508_rs::InvalidNameError>)
    ensures
        match r {
            Ok(n) => normalized_package(name@) == Some(n@),
            Err(_) => normalized_package(name@) is None,
        },
{
    <pep508_rs::PackageName as std::str::FromStr>::from_str(name).map(|n| n.to_string())
}

/// Relies on pyproject_toml's `PyProjectToml::new`, which deserializes a
/// `pyproject.toml` with toml; the `[project]` table is moved field by field
/// into the library's own manifest type. Nothing is stated of the value: the
/// specifiers in it are parsed as `Requirement::from_str` parses them.
#[verifier::external_body]
pub(crate) fn parse_pyproject(contents: &str) -> (r: Result<Manifest, toml::de::Error>) {
    let wrap = |v: Vec<pep508_rs::Requirement>| v.into_iter().map(|inner| Requirement { inner }).collect();
    pyproject_toml::PyProjectToml::new(contents).map(|p| Manifest {
        project: p.project.map(|project| ManifestProject {
            name: project.name,
            dependencies: project.dependencies.map(wrap),
            optional_dependencies: project.optional_dependencies.map(|groups| {
                groups.into_iter().map(|(name, v)| OptionalGroup { name, requirements: wrap(v) }).collect()
            }),
        }),
    })
}

} // verus!
