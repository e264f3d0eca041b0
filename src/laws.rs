//! Properties of merging and of reading manifests, proved over the models
//! that the functions' contracts use.
use crate::error::{ErrorView, RequirementsError};
use crate::external::{normalized_extra, normalized_package, Requirement};
use crate::extras::ExtrasSpecification;
use crate::manifest::{
    first_invalid_group, manifest_result, selected_extras, selected_requirements, GroupView,
    ProjectView,
};
use crate::specification::{
    add_requirements_part, empty_view, fold_constraints, fold_overrides, fold_requirements, merged,
    result_view,
    RequirementsSpecification, SpecView,
};
use vstd::prelude::*;

verus! {

/// Merging two requirements sources lists the first one's requirements, then
/// the second one's, and keeps the first one's project where it has one.
pub proof fn lemma_requirements_merge_in_order(a: SpecView, b: SpecView)
    ensures
        merged(seq![a, b], Seq::empty(), Seq::empty()).requirements == a.requirements
            + b.requirements,
        merged(seq![a, b], Seq::empty(), Seq::empty()).project == if a.project is Some {
            a.project
        } else {
            b.project
        },
{
    let parts = seq![a, b];
    assert(parts.drop_last() =~= seq![a]);
    assert(seq![a].drop_last() =~= Seq::<SpecView>::empty());
    assert(fold_requirements(empty_view(), Seq::<SpecView>::empty()) == empty_view());
    assert(seq![a].last() == a);
    let first = fold_requirements(empty_view(), seq![a]);
    assert(first == add_requirements_part(empty_view(), a));
    assert(empty_view().requirements + a.requirements =~= a.requirements);
    let both = fold_requirements(empty_view(), parts);
    assert(both == add_requirements_part(first, b));
    assert(fold_constraints(both, Seq::empty()) == both);
    assert(fold_overrides(both, Seq::empty()) == both);
}

/// A constraints source adds its requirements, constraints and overrides, in
/// that order, to the constraints, and nothing to the requirements, the
/// overrides, the project or the extras.
pub proof fn lemma_constraints_collapse(rp: Seq<SpecView>, c: SpecView)
    ensures
        merged(rp, seq![c], Seq::empty()).constraints == merged(rp, Seq::empty(), Seq::empty()).constraints
            + c.requirements + c.constraints + c.overrides,
        merged(rp, seq![c], Seq::empty()).requirements == merged(rp, Seq::empty(), Seq::empty()).requirements,
        merged(rp, seq![c], Seq::empty()).overrides == merged(rp, Seq::empty(), Seq::empty()).overrides,
        merged(rp, seq![c], Seq::empty()).project == merged(rp, Seq::empty(), Seq::empty()).project,
        merged(rp, seq![c], Seq::empty()).extras == merged(rp, Seq::empty(), Seq::empty()).extras,
{
    assert(seq![c].drop_last() =~= Seq::<SpecView>::empty());
}

/// An overrides source adds its requirements, constraints and overrides, in
/// that order, to the overrides, and nothing to the requirements, the
/// constraints, the project or the extras.
pub proof fn lemma_overrides_collapse(rp: Seq<SpecView>, cp: Seq<SpecView>, o: SpecView)
    ensures
        merged(rp, cp, seq![o]).overrides == merged(rp, cp, Seq::empty()).overrides + o.requirements
            + o.constraints + o.overrides,
        merged(rp, cp, seq![o]).requirements == merged(rp, cp, Seq::empty()).requirements,
        merged(rp, cp, seq![o]).constraints == merged(rp, cp, Seq::empty()).constraints,
        merged(rp, cp, seq![o]).project == merged(rp, cp, Seq::empty()).project,
        merged(rp, cp, seq![o]).extras == merged(rp, cp, Seq::empty()).extras,
{
    assert(seq![o].drop_last() =~= Seq::<SpecView>::empty());
}

/// The requirements of all the groups, in order.
pub open spec fn all_group_requirements(groups: Seq<GroupView>) -> Seq<Requirement>
    decreases groups.len(),
{
    if groups.len() == 0 {
        Seq::empty()
    } else {
        all_group_requirements(groups.drop_last()) + groups.last().1
    }
}

/// The normalized names of all the groups.
pub open spec fn all_group_names(groups: Seq<GroupView>) -> Set<Seq<char>>
    decreases groups.len(),
{
    if groups.len() == 0 {
        Set::empty()
    } else {
        all_group_names(groups.drop_last()).insert(normalized_extra(groups.last().0)->Some_0)
    }
}

/// Whether every group name is a valid extra name.
pub open spec fn all_groups_valid(groups: Seq<GroupView>) -> bool {
    forall|i: int| 0 <= i < groups.len() ==> (#[trigger] normalized_extra(groups[i].0)) is Some
}

proof fn lemma_first_invalid_none(groups: Seq<GroupView>, i: int)
    requires
        0 <= i <= groups.len(),
        all_groups_valid(groups),
    ensures
        first_invalid_group(groups, i) == groups.len(),
    decreases groups.len() - i,
{
    if i < groups.len() {
        assert(normalized_extra(groups[i].0) is Some);
        lemma_first_invalid_none(groups, i + 1);
    }
}

proof fn lemma_select_all(groups: Seq<GroupView>)
    requires
        all_groups_valid(groups),
    ensures
        selected_requirements(groups, ExtrasSpecification::All) == all_group_requirements(groups),
        selected_extras(groups, ExtrasSpecification::All) == all_group_names(groups),
    decreases groups.len(),
{
    if groups.len() > 0 {
        assert(normalized_extra(groups[groups.len() - 1].0) is Some);
        lemma_select_all(groups.drop_last());
    }
}

proof fn lemma_select_none_present(groups: Seq<GroupView>, extras: ExtrasSpecification)
    requires
        forall|i: int|
            0 <= i < groups.len() && (#[trigger] normalized_extra(groups[i].0)) is Some
                ==> !extras.selects(normalized_extra(groups[i].0)->Some_0),
    ensures
        selected_requirements(groups, extras) == Seq::<Requirement>::empty(),
        selected_extras(groups, extras) == Set::<Seq<char>>::empty(),
    decreases groups.len(),
{
    if groups.len() > 0 {
        let last = groups.len() - 1;
        assert forall|i: int|
            0 <= i < groups.drop_last().len() && (#[trigger] normalized_extra(
                groups.drop_last()[i].0,
            )) is Some implies !extras.selects(normalized_extra(groups.drop_last()[i].0)->Some_0) by {
            assert(groups.drop_last()[i] == groups[i]);
        }
        assert(normalized_extra(groups[last].0) is Some ==> !extras.selects(
            normalized_extra(groups[last].0)->Some_0,
        ));
        lemma_select_none_present(groups.drop_last(), extras);
    }
}

/// With every extra selected, a manifest whose names are valid gives its
/// dependencies followed by the requirements of every group, and records
/// every group's name.
pub proof fn lemma_all_extras(path: Seq<char>, p: ProjectView)
    requires
        normalized_package(p.name) is Some,
        all_groups_valid(p.groups),
    ensures
        manifest_result(path, Some(p), ExtrasSpecification::All) == Ok::<SpecView, ErrorView>(
            SpecView {
                project: normalized_package(p.name),
                requirements: p.dependencies + all_group_requirements(p.groups),
                extras: all_group_names(p.groups),
                ..empty_view()
            },
        ),
{
    lemma_first_invalid_none(p.groups, 0);
    lemma_select_all(p.groups);
}

/// With no extra selected, a manifest with a valid project name gives its
/// dependencies alone and records no extra, whatever its groups are named.
pub proof fn lemma_no_extras(path: Seq<char>, p: ProjectView)
    requires
        normalized_package(p.name) is Some,
    ensures
        manifest_result(path, Some(p), ExtrasSpecification::Nothing) == Ok::<SpecView, ErrorView>(
            SpecView { project: normalized_package(p.name), requirements: p.dependencies, ..empty_view() },
        ),
{
}

/// A selection that names none of a manifest's groups adds no requirement
/// and records no extra, and is no error where the names are valid.
pub proof fn lemma_absent_extras(path: Seq<char>, p: ProjectView, extras: ExtrasSpecification)
    requires
        normalized_package(p.name) is Some,
        all_groups_valid(p.groups),
        forall|i: int|
            0 <= i < p.groups.len() ==> !extras.selects(
                #[trigger] normalized_extra(p.groups[i].0)->Some_0,
            ),
    ensures
        manifest_result(path, Some(p), extras) == Ok::<SpecView, ErrorView>(
            SpecView { project: normalized_package(p.name), requirements: p.dependencies, ..empty_view() },
        ),
{
    lemma_first_invalid_none(p.groups, 0);
    lemma_select_none_present(p.groups, extras);
    assert(p.dependencies + Seq::<Requirement>::empty() =~= p.dependencies);
}

/// A manifest with an invalid project name is an error that names the
/// manifest and the name, whatever the extras selection and the groups are.
pub proof fn lemma_invalid_project_name(path: Seq<char>, p: ProjectView, extras: ExtrasSpecification)
    requires
        normalized_package(p.name) is None,
    ensures
        manifest_result(path, Some(p), extras) == Err::<SpecView, ErrorView>(
            ErrorView::ProjectName { path, name: p.name },
        ),
{
}

/// Reading the same manifest twice under the same selection gives the same
/// result, field for field and in the same order.
pub proof fn lemma_manifest_read_twice(
    path: Seq<char>,
    m: Option<ProjectView>,
    extras: ExtrasSpecification,
    first: Result<RequirementsSpecification, RequirementsError>,
    second: Result<RequirementsSpecification, RequirementsError>,
)
    requires
        result_view(first) == manifest_result(path, m, extras),
        result_view(second) == manifest_result(path, m, extras),
    ensures
        result_view(first) == result_view(second),
{
}

} // verus!
