//! Gathers the requirements, constraints and overrides of a Python project from
//! heterogeneous sources (a bare specifier, a requirements file, a
//! `pyproject.toml` manifest) into one resolver-ready specification.
pub mod error;
pub mod external;
pub mod extras;
pub mod laws;
pub mod manifest;
pub mod reader;
pub mod source;
pub mod specification;
