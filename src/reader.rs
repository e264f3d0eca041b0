//! Reading one source into a partial specification, and merging the sources
//! of requirements, constraints and overrides into one.
use crate::error::{ErrorView, RequirementsError};
use crate::external::{parse_pyproject, parse_requirement, Requirement};
use crate::extras::ExtrasSpecification;
use crate::manifest::{manifest_result, ProjectView};
use crate::specification::{
    add_constraints_part, add_overrides_part, add_requirements_part, empty_view,
    fold_constraints, fold_overrides, fold_requirements, merged, RequirementsSpecification,
    SpecView,
};
use vstd::prelude::*;

verus! {

/// A source of requirements with what lies outside this library already
/// done: a requirements file has been parsed (nested includes resolved), a
/// manifest has been read from disk.
#[derive(Debug)]
pub enum SourceContents {
    /// A dependency specifier given directly.
    Name(String),
    /// The requirements and constraints a requirements file declares.
    RequirementsTxt { requirements: Vec<Requirement>, constraints: Vec<Requirement> },
    /// The text of the manifest found at `path`.
    PyprojectToml { path: String, contents: String },
}

/// The part read from a single parsed specifier.
pub open spec fn single_requirement(req: Requirement) -> SpecView {
    SpecView { requirements: seq![req], ..empty_view() }
}

/// Whether reading `source` under `extras` may give `part`. A specifier
/// gives one requirement, a requirements file exactly what it declares, a
/// manifest what its `[project]` table gives.
pub open spec fn possible_part(source: SourceContents, extras: ExtrasSpecification, part: SpecView) -> bool {
    match source {
        SourceContents::Name(_) => exists|req: Requirement| part == #[trigger] single_requirement(req),
        SourceContents::RequirementsTxt { requirements, constraints } => part == SpecView {
            requirements: requirements@,
            constraints: constraints@,
            ..empty_view()
        },
        SourceContents::PyprojectToml { path, contents: _ } => exists|m: Option<ProjectView>|
            #[trigger] manifest_result(path@, m, extras) == Ok::<SpecView, ErrorView>(part),
    }
}

/// Whether reading `source` under `extras` may fail with `e`: a specifier
/// that does not parse, or a manifest that is not valid or holds an invalid
/// name. A parsed requirements file never fails.
pub open spec fn possible_error(source: SourceContents, extras: ExtrasSpecification, e: ErrorView) -> bool {
    match source {
        SourceContents::Name(input) => e == ErrorView::Requirement { input: input@ },
        SourceContents::RequirementsTxt { .. } => false,
        SourceContents::PyprojectToml { path, contents: _ } => e == ErrorView::Manifest { path: path@ }
            || exists|m: Option<ProjectView>|
            #[trigger] manifest_result(path@, m, extras) == Err::<SpecView, ErrorView>(e),
    }
}

/// Whether `parts` may be what reading each of `sources` gives.
pub open spec fn possible_parts(
    sources: Seq<SourceContents>,
    extras: ExtrasSpecification,
    parts: Seq<SpecView>,
) -> bool {
    parts.len() == sources.len() && forall|i: int|
        0 <= i < parts.len() ==> possible_part(#[trigger] sources[i], extras, parts[i])
}

/// Whether some source of `sources` may fail with `e`.
pub open spec fn some_error(sources: Seq<SourceContents>, extras: ExtrasSpecification, e: ErrorView) -> bool {
    exists|i: int| 0 <= i < sources.len() && possible_error(#[trigger] sources[i], extras, e)
}

/// Whether `s` may be the merge of reading the three lists of sources.
pub open spec fn possible_merge(
    requirements: Seq<SourceContents>,
    constraints: Seq<SourceContents>,
    overrides: Seq<SourceContents>,
    extras: ExtrasSpecification,
    s: SpecView,
) -> bool {
    exists|rp: Seq<SpecView>, cp: Seq<SpecView>, op: Seq<SpecView>|
        possible_parts(requirements, extras, rp) && possible_parts(constraints, extras, cp)
            && possible_parts(overrides, extras, op) && s == #[trigger] merged(rp, cp, op)
}

/// Which list the sources being read feed.
enum Category {
    Requirements,
    Constraints,
    Overrides,
}

spec fn fold_category(category: Category, acc: SpecView, parts: Seq<SpecView>) -> SpecView {
    match category {
        Category::Requirements => fold_requirements(acc, parts),
        Category::Constraints => fold_constraints(acc, parts),
        Category::Overrides => fold_overrides(acc, parts),
    }
}

impl RequirementsSpecification {
    /// What reading a specifier gives once it has been parsed: the one
    /// requirement, or an error that names the specifier.
    pub fn from_parsed_requirement(input: String, parsed: Result<Requirement, String>) -> (r: Result<
        Self,
        RequirementsError,
    >)
        ensures
            match parsed {
                Ok(req) => r matches Ok(s) && s.wf() && s@ == single_requirement(req),
                Err(message) => r matches Err(e) && e == (RequirementsError::Requirement {
                    input,
                    message,
                }),
            },
    {
        match parsed {
            Ok(requirement) => {
                let mut s = Self::empty();
                s.requirements.push(requirement);
                assert(s.requirements@ =~= seq![requirement]);
                Ok(s)
            },
            Err(message) => Err(RequirementsError::Requirement { input, message }),
        }
    }

    /// Reads one source under an extras selection. The selection applies to
    /// manifests only.
    pub fn from_source(source: SourceContents, extras: &ExtrasSpecification) -> (r: Result<
        Self,
        RequirementsError,
    >)
        ensures
            match r {
                Ok(s) => s.wf() && possible_part(source, *extras, s@),
                Err(e) => possible_error(source, *extras, e@),
            },
    {
        let ghost src = source;
        match source {
            SourceContents::Name(name) => {
                let parsed = parse_requirement(name.as_str());
                let ghost p = parsed;
                let r = Self::from_parsed_requirement(name, parsed);
                proof {
                    if p is Ok {
                        assert(r->Ok_0@ == single_requirement(p->Ok_0));
                    }
                }
                r
            },
            SourceContents::RequirementsTxt { requirements, constraints } => {
                let mut s = Self::empty();
                s.requirements = requirements;
                s.constraints = constraints;
                Ok(s)
            },
            SourceContents::PyprojectToml { path, contents } => {
                match parse_pyproject(contents.as_str()) {
                    Ok(manifest) => {
                        let ghost m = manifest@;
                        let r = Self::from_manifest(&path, manifest, extras);
                        proof {
                            if r is Ok {
                                assert(manifest_result(path@, m, *extras) == Ok::<SpecView, ErrorView>(r->Ok_0@));
                            } else {
                                assert(manifest_result(path@, m, *extras) == Err::<SpecView, ErrorView>(r->Err_0@));
                            }
                        }
                        r
                    },
                    Err(error) => Err(RequirementsError::Manifest { path, error }),
                }
            },
        }
    }

    /// Reads each of `sources` in order and adds it to the list that
    /// `category` names; stops at the first error.
    fn add_sources(&mut self, sources: Vec<SourceContents>, category: Category, extras: &ExtrasSpecification) -> (r: Result<
        (),
        RequirementsError,
    >)
        requires
            old(self).wf(),
        ensures
            match r {
                Ok(_) => final(self).wf() && exists|parts: Seq<SpecView>|
                    possible_parts(sources@, *extras, parts) && final(self)@ == #[trigger] fold_category(
                        category,
                        old(self)@,
                        parts,
                    ),
                Err(e) => some_error(sources@, *extras, e@),
            },
    {
        let ghost orig = sources@;
        let ghost start = self@;
        let ghost mut parts: Seq<SpecView> = Seq::empty();
        let mut rest = sources;
        assert(orig.subrange(0, orig.len() as int) =~= orig);
        while rest.len() > 0
            invariant
                self.wf(),
                parts.len() <= orig.len(),
                orig == sources@,
                rest@ == orig.subrange(parts.len() as int, orig.len() as int),
                possible_parts(orig.take(parts.len() as int), *extras, parts),
                self@ == fold_category(category, start, parts),
            decreases rest@.len(),
        {
            let ghost i = parts.len() as int;
            assert(rest@[0] == orig[i]);
            let source = rest.remove(0);
            let part = match Self::from_source(source, extras) {
                Ok(p) => p,
                Err(e) => {
                    assert(possible_error(orig[i], *extras, e@));
                    return Err(e);
                },
            };
            let ghost pv = part@;
            let ghost prev = parts;
            match category {
                Category::Requirements => self.add_requirements_source(part),
                Category::Constraints => self.add_constraints_source(part),
                Category::Overrides => self.add_overrides_source(part),
            }
            proof {
                parts = parts.push(pv);
                assert(parts.drop_last() =~= prev);
                assert(rest@ =~= orig.subrange(parts.len() as int, orig.len() as int));
                assert forall|j: int| 0 <= j < parts.len() implies possible_part(
                    #[trigger] orig.take(parts.len() as int)[j],
                    *extras,
                    parts[j],
                ) by {
                    if j < i {
                        assert(orig.take(i)[j] == orig.take(parts.len() as int)[j]);
                    }
                }
            }
        }
        assert(orig.take(parts.len() as int) =~= orig);
        Ok(())
    }

    /// Reads the requirements sources, then the constraints sources, then the
    /// overrides sources, each in order, and merges what they give: see
    /// [`merged`]. The first error stops the reading and is returned.
    pub fn from_sources(
        requirements: Vec<SourceContents>,
        constraints: Vec<SourceContents>,
        overrides: Vec<SourceContents>,
        extras: &ExtrasSpecification,
    ) -> (r: Result<Self, RequirementsError>)
        ensures
            match r {
                Ok(s) => s.wf() && possible_merge(requirements@, constraints@, overrides@, *extras, s@),
                Err(e) => some_error(requirements@, *extras, e@) || some_error(constraints@, *extras, e@)
                    || some_error(overrides@, *extras, e@),
            },
    {
        let mut spec = Self::empty();
        spec.add_sources(requirements, Category::Requirements, extras)?;
        let ghost rp = choose|parts: Seq<SpecView>|
            possible_parts(requirements@, *extras, parts) && spec@ == #[trigger] fold_category(
                Category::Requirements,
                empty_view(),
                parts,
            );
        let ghost after_requirements = spec@;
        spec.add_sources(constraints, Category::Constraints, extras)?;
        let ghost cp = choose|parts: Seq<SpecView>|
            possible_parts(constraints@, *extras, parts) && spec@ == #[trigger] fold_category(
                Category::Constraints,
                after_requirements,
                parts,
            );
        let ghost after_constraints = spec@;
        spec.add_sources(overrides, Category::Overrides, extras)?;
        let ghost op = choose|parts: Seq<SpecView>|
            possible_parts(overrides@, *extras, parts) && spec@ == #[trigger] fold_category(
                Category::Overrides,
                after_constraints,
                parts,
            );
        assert(spec@ == merged(rp, cp, op));
        Ok(spec)
    }

    /// Reads the requirements of a list of sources, without extras.
    pub fn requirements(sources: Vec<SourceContents>) -> (r: Result<Vec<Requirement>, RequirementsError>)
        ensures
            match r {
                Ok(v) => exists|rp: Seq<SpecView>|
                    possible_parts(sources@, ExtrasSpecification::Nothing, rp) && v@ == (#[trigger] merged(
                        rp,
                        Seq::empty(),
                        Seq::empty(),
                    )).requirements,
                Err(e) => some_error(sources@, ExtrasSpecification::Nothing, e@),
            },
    {
        let nothing = ExtrasSpecification::Nothing;
        let s = Self::from_sources(sources, Vec::new(), Vec::new(), &nothing)?;
        proof {
            let (rp, cp, op) = choose|rp: Seq<SpecView>, cp: Seq<SpecView>, op: Seq<SpecView>|
                possible_parts(sources@, nothing, rp) && possible_parts(Seq::empty(), nothing, cp)
                    && possible_parts(Seq::empty(), nothing, op) && s@ == #[trigger] merged(rp, cp, op);
            assert(cp =~= Seq::<SpecView>::empty());
            assert(op =~= Seq::<SpecView>::empty());
        }
        Ok(s.requirements)
    }
}

} // verus!
