use std::str::FromStr;

use puffin_requirements::error::RequirementsError;
use puffin_requirements::external::Requirement;
use puffin_requirements::extras::ExtrasSpecification;
use puffin_requirements::manifest::include_group;
use puffin_requirements::reader::SourceContents;
use puffin_requirements::source::{ends_with_manifest_name, RequirementsSource};
use puffin_requirements::specification::RequirementsSpecification;

fn req(s: &str) -> Requirement {
    Requirement { inner: pep508_rs::Requirement::from_str(s).unwrap() }
}

fn texts(v: &[Requirement]) -> Vec<String> {
    v.iter().map(|r| r.inner.to_string()).collect()
}

fn sorted(v: &[String]) -> Vec<String> {
    let mut v = v.to_vec();
    v.sort();
    v
}

// The parser hands the optional groups over in key order: `Y_Extra`, then `x`.
const MANIFEST: &str = r#"
[project]
name = "Foo_Bar"
version = "0.1.0"
dependencies = ["alpha", "beta>=1.0"]

[project.optional-dependencies]
x = ["gamma"]
Y_Extra = ["delta", "epsilon"]
"#;

fn manifest(contents: &str) -> SourceContents {
    SourceContents::PyprojectToml { path: "dir/pyproject.toml".to_string(), contents: contents.to_string() }
}

fn read(contents: &str, extras: &ExtrasSpecification) -> Result<RequirementsSpecification, RequirementsError> {
    RequirementsSpecification::from_source(manifest(contents), extras)
}

#[test]
fn classify_manifest_paths() {
    for p in ["pyproject.toml", "a/b/pyproject.toml", "/pyproject.toml", "./pyproject.toml", "a/pyproject.toml/", "a/pyproject.toml/."] {
        assert!(matches!(RequirementsSource::from_path(p.to_string()), RequirementsSource::PyprojectToml(ref q) if q == p), "{p}");
    }
}

#[test]
fn classify_other_paths() {
    for p in ["requirements.txt", "pyproject.toml.bak", "Pyproject.toml", "mypyproject.toml", "a/pyproject.tom", "pyproject.toml/..", "", "a/b"] {
        assert!(matches!(RequirementsSource::from_path(p.to_string()), RequirementsSource::RequirementsTxt(ref q) if q == p), "{p}");
    }
    assert!(!ends_with_manifest_name("x/pyproject_toml"));
}

#[test]
fn classify_literal_is_name() {
    assert!(matches!(RequirementsSource::from_name("pyproject.toml".to_string()), RequirementsSource::Name(ref n) if n == "pyproject.toml"));
}

#[test]
fn extras_membership() {
    let x = "x".to_string();
    assert!(ExtrasSpecification::All.contains(&x));
    assert!(!ExtrasSpecification::Nothing.contains(&x));
    assert!(ExtrasSpecification::Selected(vec!["y".to_string(), "x".to_string()]).contains(&x));
    assert!(!ExtrasSpecification::Selected(vec!["y".to_string()]).contains(&x));
    assert!(!ExtrasSpecification::Selected(vec![]).contains(&x));
    assert!(ExtrasSpecification::default().is_nothing());
}

#[test]
fn direct_name_valid() {
    let s = RequirementsSpecification::from_source(SourceContents::Name("flask>=2.0".to_string()), &ExtrasSpecification::All).unwrap();
    assert_eq!(texts(&s.requirements), texts(&[req("flask>=2.0")]));
    assert!(s.constraints.is_empty() && s.overrides.is_empty() && s.extras.is_empty());
    assert!(s.project.is_none());
}

#[test]
fn direct_name_invalid() {
    let r = RequirementsSpecification::from_source(SourceContents::Name("not a valid!!!".to_string()), &ExtrasSpecification::Nothing);
    match r {
        Err(RequirementsError::Requirement { input, message }) => {
            assert_eq!(input, "not a valid!!!");
            assert!(!message.is_empty());
        }
        other => panic!("unexpected {other:?}"),
    }
}

#[test]
fn parsed_requirement_is_kept() {
    let s = RequirementsSpecification::from_parsed_requirement("b".to_string(), Ok(req("b==1"))).unwrap();
    assert_eq!(texts(&s.requirements), vec!["b==1".to_string()]);
    let e = RequirementsSpecification::from_parsed_requirement("b!".to_string(), Err("bad".to_string()));
    assert!(matches!(e, Err(RequirementsError::Requirement { ref input, ref message }) if input == "b!" && message == "bad"));
}

#[test]
fn requirements_file_ignores_extras() {
    let src = SourceContents::RequirementsTxt { requirements: vec![req("a"), req("b")], constraints: vec![req("c<2")] };
    let s = RequirementsSpecification::from_source(src, &ExtrasSpecification::All).unwrap();
    assert_eq!(texts(&s.requirements), vec!["a", "b"]);
    assert_eq!(texts(&s.constraints), vec!["c<2"]);
    assert!(s.overrides.is_empty() && s.extras.is_empty() && s.project.is_none());
}

#[test]
fn manifest_all_extras() {
    let s = read(MANIFEST, &ExtrasSpecification::All).unwrap();
    assert_eq!(s.project.as_deref(), Some("foo-bar"));
    assert_eq!(texts(&s.requirements), vec!["alpha", "beta>=1.0", "delta", "epsilon", "gamma"]);
    assert_eq!(sorted(&s.extras), vec!["x", "y-extra"]);
    assert!(s.constraints.is_empty() && s.overrides.is_empty());
}

#[test]
fn manifest_no_extras() {
    let s = read(MANIFEST, &ExtrasSpecification::Nothing).unwrap();
    assert_eq!(s.project.as_deref(), Some("foo-bar"));
    assert_eq!(texts(&s.requirements), vec!["alpha", "beta>=1.0"]);
    assert!(s.extras.is_empty());
}

#[test]
fn manifest_selected_extra() {
    let s = read(MANIFEST, &ExtrasSpecification::Selected(vec!["x".to_string()])).unwrap();
    assert_eq!(texts(&s.requirements), vec!["alpha", "beta>=1.0", "gamma"]);
    assert_eq!(s.extras, vec!["x".to_string()]);
    let s = read(MANIFEST, &ExtrasSpecification::Selected(vec!["y-extra".to_string()])).unwrap();
    assert_eq!(texts(&s.requirements), vec!["alpha", "beta>=1.0", "delta", "epsilon"]);
    assert_eq!(s.extras, vec!["y-extra".to_string()]);
}

#[test]
fn manifest_absent_extra() {
    let s = read(MANIFEST, &ExtrasSpecification::Selected(vec!["zzz".to_string()])).unwrap();
    assert_eq!(texts(&s.requirements), vec!["alpha", "beta>=1.0"]);
    assert!(s.extras.is_empty());
}

#[test]
fn manifest_without_project() {
    let s = read("[build-system]\nrequires = [\"setuptools\"]\n", &ExtrasSpecification::All).unwrap();
    assert!(s.project.is_none());
    assert!(s.requirements.is_empty() && s.constraints.is_empty() && s.overrides.is_empty() && s.extras.is_empty());
}

#[test]
fn manifest_without_dependencies() {
    let s = read("[project]\nname = \"pkg\"\n", &ExtrasSpecification::All).unwrap();
    assert_eq!(s.project.as_deref(), Some("pkg"));
    assert!(s.requirements.is_empty() && s.extras.is_empty());
}

#[test]
fn manifest_invalid_toml() {
    let r = read("[project\nname = ", &ExtrasSpecification::Nothing);
    assert!(matches!(r, Err(RequirementsError::Manifest { ref path, .. }) if path == "dir/pyproject.toml"));
}

#[test]
fn manifest_invalid_project_name() {
    let contents = "[project]\nname = \"not valid!\"\n[project.optional-dependencies]\n\"bad group!\" = [\"a\"]\n";
    for extras in [ExtrasSpecification::All, ExtrasSpecification::Nothing] {
        match read(contents, &extras) {
            Err(RequirementsError::ProjectName { path, name, .. }) => {
                assert_eq!(path, "dir/pyproject.toml");
                assert_eq!(name, "not valid!");
            }
            other => panic!("unexpected {other:?}"),
        }
    }
}

#[test]
fn manifest_invalid_group_name() {
    let contents = "[project]\nname = \"pkg\"\ndependencies = [\"a\"]\n[project.optional-dependencies]\nok = [\"b\"]\n\"bad group!\" = [\"c\"]\n";
    let r = read(contents, &ExtrasSpecification::Selected(vec!["ok".to_string()]));
    assert!(matches!(r, Err(RequirementsError::ExtraName { ref name, .. }) if name == "bad group!"));
    let s = read(contents, &ExtrasSpecification::Nothing).unwrap();
    assert_eq!(texts(&s.requirements), vec!["a"]);
}

#[test]
fn manifest_read_twice_is_identical() {
    let extras = ExtrasSpecification::All;
    let a = read(MANIFEST, &extras).unwrap();
    let b = read(MANIFEST, &extras).unwrap();
    assert_eq!(a.project, b.project);
    assert_eq!(texts(&a.requirements), texts(&b.requirements));
    assert_eq!(texts(&a.constraints), texts(&b.constraints));
    assert_eq!(texts(&a.overrides), texts(&b.overrides));
    assert_eq!(sorted(&a.extras), sorted(&b.extras));
}

#[test]
fn merge_keeps_order_and_first_project() {
    let first = "[project]\nname = \"first\"\ndependencies = [\"a\"]\n";
    let second = "[project]\nname = \"second\"\ndependencies = [\"b\"]\n";
    let s = RequirementsSpecification::from_sources(
        vec![SourceContents::Name("z".to_string()), manifest(first), manifest(second)],
        vec![],
        vec![],
        &ExtrasSpecification::Nothing,
    )
    .unwrap();
    assert_eq!(texts(&s.requirements), vec!["z", "a", "b"]);
    assert_eq!(s.project.as_deref(), Some("first"));
}

#[test]
fn merge_requirements_file_constraints_stay_constraints() {
    let s = RequirementsSpecification::from_sources(
        vec![SourceContents::RequirementsTxt { requirements: vec![req("a")], constraints: vec![req("b<3")] }],
        vec![],
        vec![],
        &ExtrasSpecification::Nothing,
    )
    .unwrap();
    assert_eq!(texts(&s.requirements), vec!["a"]);
    assert_eq!(texts(&s.constraints), vec!["b<3"]);
}

#[test]
fn merge_constraint_sources_collapse() {
    let s = RequirementsSpecification::from_sources(
        vec![SourceContents::Name("top".to_string())],
        vec![SourceContents::RequirementsTxt { requirements: vec![req("r1")], constraints: vec![req("r2")] }, manifest(MANIFEST)],
        vec![],
        &ExtrasSpecification::All,
    )
    .unwrap();
    assert_eq!(texts(&s.requirements), vec!["top"]);
    assert_eq!(texts(&s.constraints), vec!["r1", "r2", "alpha", "beta>=1.0", "delta", "epsilon", "gamma"]);
    assert!(s.overrides.is_empty());
    assert!(s.project.is_none());
    assert!(s.extras.is_empty());
}

#[test]
fn merge_override_sources_collapse() {
    let s = RequirementsSpecification::from_sources(
        vec![],
        vec![SourceContents::Name("c".to_string())],
        vec![SourceContents::RequirementsTxt { requirements: vec![req("o1")], constraints: vec![req("o2")] }],
        &ExtrasSpecification::Nothing,
    )
    .unwrap();
    assert!(s.requirements.is_empty());
    assert_eq!(texts(&s.constraints), vec!["c"]);
    assert_eq!(texts(&s.overrides), vec!["o1", "o2"]);
}

#[test]
fn merge_extras_union() {
    let s = RequirementsSpecification::from_sources(
        vec![manifest(MANIFEST), manifest(MANIFEST)],
        vec![],
        vec![],
        &ExtrasSpecification::All,
    )
    .unwrap();
    assert_eq!(sorted(&s.extras), vec!["x", "y-extra"]);
    assert_eq!(s.requirements.len(), 10);
}

#[test]
fn merge_fails_on_first_error() {
    let bad = "[project]\nname = \"bad name!\"\n";
    let r = RequirementsSpecification::from_sources(
        vec![SourceContents::Name("a".to_string()), manifest(bad)],
        vec![SourceContents::Name("also bad!!!".to_string())],
        vec![],
        &ExtrasSpecification::Nothing,
    );
    assert!(matches!(r, Err(RequirementsError::ProjectName { ref name, .. }) if name == "bad name!"));
    let r = RequirementsSpecification::from_sources(
        vec![],
        vec![],
        vec![SourceContents::Name("no good!!!".to_string())],
        &ExtrasSpecification::Nothing,
    );
    assert!(matches!(r, Err(RequirementsError::Requirement { ref input, .. }) if input == "no good!!!"));
}

#[test]
fn requirements_only() {
    let v = RequirementsSpecification::requirements(vec![
        SourceContents::Name("a".to_string()),
        SourceContents::RequirementsTxt { requirements: vec![req("b")], constraints: vec![req("c")] },
        manifest(MANIFEST),
    ])
    .unwrap();
    assert_eq!(texts(&v), vec!["a", "b", "alpha", "beta>=1.0"]);
}

#[test]
fn step_functions() {
    let mut s = RequirementsSpecification::empty();
    let mut part = RequirementsSpecification::empty();
    part.requirements.push(req("a"));
    part.constraints.push(req("b"));
    part.overrides.push(req("c"));
    part.project = Some("p".to_string());
    part.extras.push("e".to_string());
    s.add_requirements_source(part);
    let mut part = RequirementsSpecification::empty();
    part.requirements.push(req("d"));
    part.project = Some("q".to_string());
    part.extras.push("e".to_string());
    s.add_requirements_source(part);
    assert_eq!(s.project.as_deref(), Some("p"));
    assert_eq!(s.extras, vec!["e".to_string()]);
    assert_eq!(texts(&s.requirements), vec!["a", "d"]);
    let mut part = RequirementsSpecification::empty();
    part.requirements.push(req("f"));
    part.overrides.push(req("g"));
    s.add_constraints_source(part);
    assert_eq!(texts(&s.constraints), vec!["b", "f", "g"]);
    let mut part = RequirementsSpecification::empty();
    part.constraints.push(req("h"));
    s.add_overrides_source(part);
    assert_eq!(texts(&s.overrides), vec!["c", "h"]);
}

#[test]
fn include_group_by_selection() {
    let mut requirements = vec![req("a")];
    let mut used = vec!["x".to_string()];
    let selected = ExtrasSpecification::Selected(vec!["x".to_string(), "y".to_string()]);
    include_group(&mut requirements, &mut used, "y".to_string(), vec![req("b"), req("c")], &selected);
    assert_eq!(texts(&requirements), vec!["a", "b", "c"]);
    assert_eq!(used, vec!["x".to_string(), "y".to_string()]);
    include_group(&mut requirements, &mut used, "x".to_string(), vec![req("d")], &selected);
    assert_eq!(texts(&requirements), vec!["a", "b", "c", "d"]);
    assert_eq!(used, vec!["x".to_string(), "y".to_string()]);
    include_group(&mut requirements, &mut used, "z".to_string(), vec![req("e")], &selected);
    assert_eq!(texts(&requirements), vec!["a", "b", "c", "d"]);
    assert_eq!(used.len(), 2);
}
