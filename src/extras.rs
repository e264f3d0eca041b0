//! Which optional dependency groups (extras) of a manifest are selected.
use vstd::prelude::*;

verus! {

/// A selection of extras, by normalized name.
#[derive(Debug)]
pub enum ExtrasSpecification {
    /// No extra is selected.
    Nothing,
    /// Every extra is selected.
    All,
    /// The extras named here are selected.
    Selected(Vec<String>),
}

/// Whether `names` holds `name`.
pub open spec fn has_name(names: Seq<String>, name: Seq<char>) -> bool {
    exists|i: int| 0 <= i < names.len() && #[trigger] names[i]@ == name
}

fn contains_name(names: &Vec<String>, name: &String) -> (r: bool)
    ensures
        r == has_name(names@, name@),
{
    let mut i: usize = 0;
    while i < names.len()
        invariant
            i <= names@.len(),
            forall|j: int| 0 <= j < i ==> #[trigger] names@[j]@ != name@,
        decreases names@.len() - i,
    {
        if names[i] == *name {
            assert(names@[i as int]@ == name@);
            return true;
        }
        i = i + 1;
    }
    false
}

impl ExtrasSpecification {
    /// Whether the extra of normalized name `name` is selected.
    pub open spec fn selects(&self, name: Seq<char>) -> bool {
        match self {
            ExtrasSpecification::Nothing => false,
            ExtrasSpecification::All => true,
            ExtrasSpecification::Selected(names) => has_name(names@, name),
        }
    }

    /// Returns true if a name is included in the extras selection.
    pub fn contains(&self, name: &String) -> (r: bool)
        ensures
            r == self.selects(name@),
    {
        match self {
            ExtrasSpecification::Nothing => false,
            ExtrasSpecification::All => true,
            ExtrasSpecification::Selected(names) => contains_name(names, name),
        }
    }

    /// Whether this selection is `Nothing`.
    pub fn is_nothing(&self) -> (r: bool)
        ensures
            r == (self is Nothing),
    {
        match self {
            ExtrasSpecification::Nothing => true,
            _ => false,
        }
    }
}

impl Default for ExtrasSpecification {
    fn default() -> (r: Self)
        ensures
            r is Nothing,
    {
        ExtrasSpecification::Nothing
    }
}

} // verus!
