//! Why a source could not be read; each error names its source.
use vstd::prelude::*;

verus! {

/// An error met while reading a source of requirements.
#[derive(Debug)]
#[allow(inconsistent_fields)]
pub enum RequirementsError {
    /// A dependency specifier that does not parse.
    Requirement { input: String, message: String },
    /// A manifest that is not valid TOML, or not a valid `pyproject.toml`.
    Manifest { path: String, error: toml::de::Error },
    /// An optional dependency group of a manifest with an invalid name.
    ExtraName { path: String, name: String, error: pep508_rs::InvalidNameError },
    /// A manifest whose `project.name` is invalid.
    ProjectName { path: String, name: String, error: pep508_rs::InvalidNameError },
}

/// What an error says of its source.
pub enum ErrorView {
    Requirement { input: Seq<char> },
    Manifest { path: Seq<char> },
    ExtraName { path: Seq<char>, name: Seq<char> },
    ProjectName { path: Seq<char>, name: Seq<char> },
}

impl View for RequirementsError {
    type V = ErrorView;

    open spec fn view(&self) -> ErrorView {
        match self {
            RequirementsError::Requirement { input, .. } => ErrorView::Requirement { input: input@ },
            RequirementsError::Manifest { path, .. } => ErrorView::Manifest { path: path@ },
            RequirementsError::ExtraName { path, name, .. } => ErrorView::ExtraName {
                path: path@,
                name: name@,
            },
            RequirementsError::ProjectName { path, name, .. } => ErrorView::ProjectName {
                path: path@,
                name: name@,
            },
        }
    }
}

} // verus!
