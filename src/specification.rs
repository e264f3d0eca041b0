//! The combined requirements, constraints, overrides and extras of a project,
//! and how the parts read from each source are merged into them.
use crate::error::{ErrorView, RequirementsError};
use crate::external::Requirement;
use crate::extras::has_name;
use vstd::prelude::*;

verus! {

/// The mathematical content of a [`RequirementsSpecification`].
pub struct SpecView {
    pub project: Option<Seq<char>>,
    pub requirements: Seq<Requirement>,
    pub constraints: Seq<Requirement>,
    pub overrides: Seq<Requirement>,
    pub extras: Set<Seq<char>>,
}

/// The set of names a list of names holds.
pub open spec fn name_set(names: Seq<String>) -> Set<Seq<char>> {
    Set::new(|n: Seq<char>| has_name(names, n))
}

/// Whether no two entries of `names` are equal.
pub open spec fn distinct_names(names: Seq<String>) -> bool {
    forall|i: int, j: int|
        0 <= i < names.len() && 0 <= j < names.len() && i != j ==> #[trigger] names[i]@
            != #[trigger] names[j]@
}

/// A specification with nothing in it.
pub open spec fn empty_view() -> SpecView {
    SpecView {
        project: None,
        requirements: Seq::empty(),
        constraints: Seq::empty(),
        overrides: Seq::empty(),
        extras: Set::empty(),
    }
}

/// The accumulator after a requirements source: its three lists are appended
/// to the same lists, its extras are added, and its project is taken only
/// where none is set yet.
pub open spec fn add_requirements_part(acc: SpecView, part: SpecView) -> SpecView {
    SpecView {
        project: if acc.project is Some {
            acc.project
        } else {
            part.project
        },
        requirements: acc.requirements + part.requirements,
        constraints: acc.constraints + part.constraints,
        overrides: acc.overrides + part.overrides,
        extras: acc.extras.union(part.extras),
    }
}

/// The accumulator after a constraints source: all three of its lists go to
/// the constraints, in that order; the rest of it is dropped.
pub open spec fn add_constraints_part(acc: SpecView, part: SpecView) -> SpecView {
    SpecView {
        constraints: acc.constraints + part.requirements + part.constraints + part.overrides,
        ..acc
    }
}

/// The accumulator after an overrides source: all three of its lists go to
/// the overrides, in that order; the rest of it is dropped.
pub open spec fn add_overrides_part(acc: SpecView, part: SpecView) -> SpecView {
    SpecView { overrides: acc.overrides + part.requirements + part.constraints + part.overrides, ..acc }
}

/// Folds the parts read from requirements sources, in order, into `acc`.
pub open spec fn fold_requirements(acc: SpecView, parts: Seq<SpecView>) -> SpecView
    decreases parts.len(),
{
    if parts.len() == 0 {
        acc
    } else {
        add_requirements_part(fold_requirements(acc, parts.drop_last()), parts.last())
    }
}

/// Folds the parts read from constraints sources, in order, into `acc`.
pub open spec fn fold_constraints(acc: SpecView, parts: Seq<SpecView>) -> SpecView
    decreases parts.len(),
{
    if parts.len() == 0 {
        acc
    } else {
        add_constraints_part(fold_constraints(acc, parts.drop_last()), parts.last())
    }
}

/// Folds the parts read from overrides sources, in order, into `acc`.
pub open spec fn fold_overrides(acc: SpecView, parts: Seq<SpecView>) -> SpecView
    decreases parts.len(),
{
    if parts.len() == 0 {
        acc
    } else {
        add_overrides_part(fold_overrides(acc, parts.drop_last()), parts.last())
    }
}

/// The specification merged from the parts of the requirements, constraints
/// and overrides sources.
pub open spec fn merged(
    requirements: Seq<SpecView>,
    constraints: Seq<SpecView>,
    overrides: Seq<SpecView>,
) -> SpecView {
    fold_overrides(
        fold_constraints(fold_requirements(empty_view(), requirements), constraints),
        overrides,
    )
}

/// The content of a result.
pub open spec fn result_view(r: Result<RequirementsSpecification, RequirementsError>) -> Result<
    SpecView,
    ErrorView,
> {
    match r {
        Ok(s) => Ok(s@),
        Err(e) => Err(e@),
    }
}

/// The requirements, constraints and overrides of a project, with the extras
/// used to collect them.
#[derive(Debug)]
pub struct RequirementsSpecification {
    /// The normalized name of the project specifying requirements.
    pub project: Option<String>,
    /// The requirements for the project.
    pub requirements: Vec<Requirement>,
    /// The constraints for the project.
    pub constraints: Vec<Requirement>,
    /// The overrides for the project.
    pub overrides: Vec<Requirement>,
    /// The normalized names of the extras used to collect requirements.
    pub extras: Vec<String>,
}

impl View for RequirementsSpecification {
    type V = SpecView;

    open spec fn view(&self) -> SpecView {
        SpecView {
            project: match self.project {
                Some(p) => Some(p@),
                None => None,
            },
            requirements: self.requirements@,
            constraints: self.constraints@,
            overrides: self.overrides@,
            extras: name_set(self.extras@),
        }
    }
}

/// Adds `name` to `names` unless it is there already.
pub fn insert_name(names: &mut Vec<String>, name: String)
    requires
        distinct_names(old(names)@),
    ensures
        distinct_names(final(names)@),
        name_set(final(names)@) == name_set(old(names)@).insert(name@),
{
    let mut i: usize = 0;
    while i < names.len()
        invariant
            i <= names@.len(),
            names@ == old(names)@,
            distinct_names(names@),
            forall|j: int| 0 <= j < i ==> #[trigger] names@[j]@ != name@,
        decreases names@.len() - i,
    {
        if names[i] == name {
            assert(names@[i as int]@ == name@);
            assert(name_set(names@) =~= name_set(names@).insert(name@));
            return;
        }
        i = i + 1;
    }
    let ghost prev = names@;
    names.push(name);
    assert forall|n: Seq<char>|
        #[trigger] name_set(names@).contains(n) == name_set(prev).insert(name@).contains(n) by {
        if has_name(names@, n) {
            let k = choose|k: int| 0 <= k < names@.len() && #[trigger] names@[k]@ == n;
            if k < prev.len() {
                assert(prev[k]@ == n);
            }
        }
        if has_name(prev, n) {
            let k = choose|k: int| 0 <= k < prev.len() && #[trigger] prev[k]@ == n;
            assert(names@[k]@ == n);
        }
        if n == name@ {
            assert(names@[prev.len() as int]@ == n);
        }
    }
    assert(name_set(names@) =~= name_set(prev).insert(name@));
    assert forall|i: int, j: int|
        0 <= i < names@.len() && 0 <= j < names@.len() && i != j implies #[trigger] names@[i]@
            != #[trigger] names@[j]@ by {
        if i < prev.len() && j < prev.len() {
            assert(prev[i]@ != prev[j]@);
        }
    }
}

/// Adds to `names` each of `others` that it does not hold yet.
pub fn insert_names(names: &mut Vec<String>, others: Vec<String>)
    requires
        distinct_names(old(names)@),
    ensures
        distinct_names(final(names)@),
        name_set(final(names)@) == name_set(old(names)@).union(name_set(others@)),
{
    let ghost before = names@;
    let ghost all = others@;
    let mut others = others;
    while others.len() > 0
        invariant
            distinct_names(names@),
            name_set(names@).union(name_set(others@)) == name_set(before).union(name_set(all)),
        decreases others@.len(),
    {
        let ghost rest = others@;
        let name = others.pop().unwrap();
        let ghost prev = names@;
        insert_name(names, name);
        assert forall|n: Seq<char>| has_name(rest, n) == (has_name(others@, n) || n == name@) by {
            if has_name(rest, n) {
                let k = choose|k: int| 0 <= k < rest.len() && #[trigger] rest[k]@ == n;
                if k < others@.len() {
                    assert(others@[k]@ == n);
                }
            }
            if has_name(others@, n) {
                let k = choose|k: int| 0 <= k < others@.len() && #[trigger] others@[k]@ == n;
                assert(rest[k]@ == n);
            }
            if n == name@ {
                assert(rest[rest.len() - 1]@ == n);
            }
        }
        assert(name_set(rest) =~= name_set(others@).insert(name@));
        assert(name_set(names@).union(name_set(others@)) =~= name_set(prev).union(name_set(rest)));
    }
    assert(name_set(others@) =~= Set::empty());
    assert(name_set(names@) =~= name_set(names@).union(name_set(others@)));
}

impl RequirementsSpecification {
    /// Whether the extras are listed once each.
    pub open spec fn wf(&self) -> bool {
        distinct_names(self.extras@)
    }

    /// A specification with nothing in it.
    pub fn empty() -> (r: Self)
        ensures
            r.wf(),
            r@ == empty_view(),
    {
        let r = RequirementsSpecification {
            project: None,
            requirements: Vec::new(),
            constraints: Vec::new(),
            overrides: Vec::new(),
            extras: Vec::new(),
        };
        assert(r@.extras =~= Set::empty());
        r
    }

    /// Adds what a requirements source yielded: its requirements, constraints
    /// and overrides to the same lists, its extras to the extras, and its
    /// project where none is set yet.
    pub fn add_requirements_source(&mut self, part: Self)
        requires
            old(self).wf(),
        ensures
            final(self).wf(),
            final(self)@ == add_requirements_part(old(self)@, part@),
    {
        let mut part = part;
        self.requirements.append(&mut part.requirements);
        self.constraints.append(&mut part.constraints);
        self.overrides.append(&mut part.overrides);
        insert_names(&mut self.extras, part.extras);
        if self.project.is_none() {
            self.project = part.project;
        }
    }

    /// Adds what a constraints source yielded: its requirements, constraints
    /// and overrides all become constraints, in that order.
    pub fn add_constraints_source(&mut self, part: Self)
        requires
            old(self).wf(),
        ensures
            final(self).wf(),
            final(self)@ == add_constraints_part(old(self)@, part@),
    {
        let mut part = part;
        self.constraints.append(&mut part.requirements);
        self.constraints.append(&mut part.constraints);
        self.constraints.append(&mut part.overrides);
    }

    /// Adds what an overrides source yielded: its requirements, constraints
    /// and overrides all become overrides, in that order.
    pub fn add_overrides_source(&mut self, part: Self)
        requires
            old(self).wf(),
        ensures
            final(self).wf(),
            final(self)@ == add_overrides_part(old(self)@, part@),
    {
        let mut part = part;
        self.overrides.append(&mut part.requirements);
        self.overrides.append(&mut part.constraints);
        self.overrides.append(&mut part.overrides);
    }
}

} // verus!
