//! The part of a `pyproject.toml` manifest that declares dependencies, and
//! how it is read under an extras selection.
use crate::error::{ErrorView, RequirementsError};
use crate::external::{normalize_extra_name, normalize_package_name, normalized_extra, normalized_package, Requirement};
use crate::extras::ExtrasSpecification;
use crate::specification::{
    distinct_names, empty_view, insert_name, name_set, result_view, RequirementsSpecification,
    SpecView,
};
use vstd::prelude::*;

verus! {

/// A named group of optional dependencies (an extra), as declared.
#[derive(Debug)]
pub struct OptionalGroup {
    pub name: String,
    pub requirements: Vec<Requirement>,
}

/// The `[project]` table of a manifest.
#[derive(Debug)]
pub struct ManifestProject {
    pub name: String,
    pub dependencies: Option<Vec<Requirement>>,
    pub optional_dependencies: Option<Vec<OptionalGroup>>,
}

/// A parsed manifest.
#[derive(Debug)]
pub struct Manifest {
    pub project: Option<ManifestProject>,
}

/// A group of optional dependencies: its declared name and its requirements.
pub type GroupView = (Seq<char>, Seq<Requirement>);

/// The content of a `[project]` table; a list that is absent is empty.
pub struct ProjectView {
    pub name: Seq<char>,
    pub dependencies: Seq<Requirement>,
    pub groups: Seq<GroupView>,
}

impl View for OptionalGroup {
    type V = GroupView;

    open spec fn view(&self) -> GroupView {
        (self.name@, self.requirements@)
    }
}

impl View for ManifestProject {
    type V = ProjectView;

    open spec fn view(&self) -> ProjectView {
        ProjectView {
            name: self.name@,
            dependencies: match self.dependencies {
                Some(d) => d@,
                None => Seq::empty(),
            },
            groups: match self.optional_dependencies {
                Some(g) => g@.map_values(|g: OptionalGroup| g@),
                None => Seq::empty(),
            },
        }
    }
}

impl View for Manifest {
    type V = Option<ProjectView>;

    open spec fn view(&self) -> Option<ProjectView> {
        match self.project {
            Some(p) => Some(p@),
            None => None,
        }
    }
}

/// The index of the first group from `i` on whose name is not a valid extra
/// name, or the number of groups where there is none.
pub open spec fn first_invalid_group(groups: Seq<GroupView>, i: int) -> int
    decreases groups.len() - i,
{
    if i < 0 || i >= groups.len() {
        groups.len() as int
    } else if normalized_extra(groups[i].0) is None {
        i
    } else {
        first_invalid_group(groups, i + 1)
    }
}

/// The requirements of the groups that `extras` selects, in group order.
pub open spec fn selected_requirements(groups: Seq<GroupView>, extras: ExtrasSpecification) -> Seq<
    Requirement,
>
    decreases groups.len(),
{
    if groups.len() == 0 {
        Seq::empty()
    } else {
        let prev = selected_requirements(groups.drop_last(), extras);
        match normalized_extra(groups.last().0) {
            Some(n) => if extras.selects(n) {
                prev + groups.last().1
            } else {
                prev
            },
            None => prev,
        }
    }
}

/// The normalized names of the groups that `extras` selects.
pub open spec fn selected_extras(groups: Seq<GroupView>, extras: ExtrasSpecification) -> Set<
    Seq<char>,
>
    decreases groups.len(),
{
    if groups.len() == 0 {
        Set::empty()
    } else {
        let prev = selected_extras(groups.drop_last(), extras);
        match normalized_extra(groups.last().0) {
            Some(n) => if extras.selects(n) {
                prev.insert(n)
            } else {
                prev
            },
            None => prev,
        }
    }
}

/// What reading the manifest `m`, found at `path`, under `extras` gives.
/// Without a `[project]` table, nothing. Else the project name must be
/// valid; where some extra is wanted, every group name must be valid too, and
/// the requirements of the selected groups follow the dependencies.
pub open spec fn manifest_result(
    path: Seq<char>,
    m: Option<ProjectView>,
    extras: ExtrasSpecification,
) -> Result<SpecView, ErrorView> {
    match m {
        None => Ok(empty_view()),
        Some(p) => match normalized_package(p.name) {
            None => Err(ErrorView::ProjectName { path, name: p.name }),
            Some(package) => if extras is Nothing {
                Ok(SpecView { project: Some(package), requirements: p.dependencies, ..empty_view() })
            } else if first_invalid_group(p.groups, 0) < p.groups.len() {
                Err(ErrorView::ExtraName { path, name: p.groups[first_invalid_group(p.groups, 0)].0 })
            } else {
                Ok(
                    SpecView {
                        project: Some(package),
                        requirements: p.dependencies + selected_requirements(p.groups, extras),
                        extras: selected_extras(p.groups, extras),
                        ..empty_view()
                    },
                )
            },
        },
    }
}

/// Adds a group of optional dependencies, whose name is already normalized,
/// where `extras` selects it: its requirements go after `requirements` and
/// its name joins `used`. Else nothing changes.
pub fn include_group(
    requirements: &mut Vec<Requirement>,
    used: &mut Vec<String>,
    name: String,
    group: Vec<Requirement>,
    extras: &ExtrasSpecification,
)
    requires
        distinct_names(old(used)@),
    ensures
        distinct_names(final(used)@),
        extras.selects(name@) ==> final(requirements)@ == old(requirements)@ + group@ && name_set(
            final(used)@,
        ) == name_set(old(used)@).insert(name@),
        !extras.selects(name@) ==> final(requirements)@ == old(requirements)@ && final(used)@
            == old(used)@,
{
    if extras.contains(&name) {
        insert_name(used, name);
        let mut group = group;
        requirements.append(&mut group);
    }
}

impl RequirementsSpecification {
    /// Reads the manifest found at `path` under an extras selection.
    pub fn from_manifest(path: &String, manifest: Manifest, extras: &ExtrasSpecification) -> (r:
        Result<Self, RequirementsError>)
        ensures
            result_view(r) == manifest_result(path@, manifest@, *extras),
            r is Ok ==> r->Ok_0.wf(),
    {
        let ghost mv = manifest@;
        let project = match manifest.project {
            None => return Ok(Self::empty()),
            Some(p) => p,
        };
        let ghost pv = project@;
        let package = match normalize_package_name(project.name.as_str()) {
            Ok(n) => n,
            Err(error) => {
                return Err(RequirementsError::ProjectName { path: path.clone(), name: project.name, error });
            },
        };
        let mut requirements = match project.dependencies {
            Some(d) => d,
            None => Vec::new(),
        };
        let mut used: Vec<String> = Vec::new();
        assert(name_set(used@) =~= Set::empty());
        if !extras.is_nothing() {
            let mut groups = match project.optional_dependencies {
                Some(g) => g,
                None => Vec::new(),
            };
            let ghost gv = pv.groups;
            let ghost mut i: int = 0;
            assert(groups@.map_values(|g: OptionalGroup| g@) =~= gv.subrange(0, gv.len() as int));
            assert(gv.take(0) =~= Seq::empty());
            while groups.len() > 0
                invariant
                    0 <= i <= gv.len(),
                    mv == Some(pv),
                    mv == manifest@,
                    gv == pv.groups,
                    normalized_package(pv.name) == Some(package@),
                    !(*extras is Nothing),
                    groups@.map_values(|g: OptionalGroup| g@) == gv.subrange(i, gv.len() as int),
                    first_invalid_group(gv, 0) == first_invalid_group(gv, i),
                    requirements@ == pv.dependencies + selected_requirements(gv.take(i), *extras),
                    name_set(used@) == selected_extras(gv.take(i), *extras),
                    distinct_names(used@),
                decreases groups@.len(),
            {
                assert(groups@.map_values(|g: OptionalGroup| g@).len() == groups@.len());
                assert(groups@.map_values(|g: OptionalGroup| g@)[0] == gv.subrange(
                    i,
                    gv.len() as int,
                )[0]);
                assert(groups@[0]@ == gv[i]);
                let ghost before = groups@;
                let group = groups.remove(0);
                assert(group@ == gv[i]);
                let name = match normalize_extra_name(group.name.as_str()) {
                    Ok(n) => n,
                    Err(error) => {
                        assert(first_invalid_group(gv, i) == i);
                        return Err(RequirementsError::ExtraName { path: path.clone(), name: group.name, error });
                    },
                };
                include_group(&mut requirements, &mut used, name, group.requirements, extras);
                proof {
                    assert(gv.take(i + 1).drop_last() =~= gv.take(i));
                    i = i + 1;
                    assert forall|k: int| 0 <= k < groups@.len() implies groups@.map_values(
                        |g: OptionalGroup| g@,
                    )[k] == gv.subrange(i, gv.len() as int)[k] by {
                        assert(groups@[k] == before[k + 1]);
                        assert(before.map_values(|g: OptionalGroup| g@)[k + 1] == gv.subrange(
                            i - 1,
                            gv.len() as int,
                        )[k + 1]);
                    }
                    assert(groups@.map_values(|g: OptionalGroup| g@) =~= gv.subrange(i, gv.len() as int));
                }
            }
            assert(gv.take(i) =~= gv);
        }
        Ok(
            RequirementsSpecification {
                project: Some(package),
                requirements,
                constraints: Vec::new(),
                overrides: Vec::new(),
                extras: used,
            },
        )
    }
}

} // verus!
