//! A three-slot container for one semantic field observed from several
//! metadata vocabularies, ranked by source authority.

use vstd::prelude::*;

verus! {

/// One value per authority tier: `first` (Open Graph) outranks `second`
/// (generic meta tags), which outranks `third` (heading heuristics).
#[derive(Debug, Clone)]
pub struct PriorityData<T> {
    pub first: Option<T>,
    pub second: Option<T>,
    pub third: Option<T>,
}

impl<T> PriorityData<T> {
    /// The value the merge resolves to: the highest populated tier,
    /// in fixed authority order, never inspecting lower tiers first.
    pub open spec fn spec_highest(self) -> Option<T> {
        if self.first is Some {
            self.first
        } else if self.second is Some {
            self.second
        } else {
            self.third
        }
    }

    /// An empty container, no tier populated.
    pub open spec fn spec_empty() -> Self {
        PriorityData { first: None, second: None, third: None }
    }

    pub fn highest(self) -> (r: Option<T>)
        ensures
            r == self.spec_highest(),
            self.first is Some ==> r == self.first,
            self.first is None && self.second is Some ==> r == self.second,
            self.first is None && self.second is None ==> r == self.third,
            r is None <==> (self.first is None && self.second is None && self.third is None),
    {
        if self.first.is_some() {
            return self.first;
        }
        if self.second.is_some() {
            return self.second;
        }
        self.third
    }
}

impl<T> Default for PriorityData<T> {
    /// All three tiers start absent.
    fn default() -> (r: Self)
        ensures
            r == Self::spec_empty(),
    {
        PriorityData { first: None, second: None, third: None }
    }
}

/// The highest tier present always wins: `first` whenever it is populated,
/// regardless of the lower tiers; `second` exactly when `first` is absent
/// and `second` is present; nothing only when every tier is absent.
pub proof fn lemma_highest_priority_order<T>(d: PriorityData<T>)
    ensures
        d.first is Some ==> d.spec_highest() == d.first,
        d.first is None && d.second is Some ==> d.spec_highest() == d.second,
        d.first is None && d.second is None ==> d.spec_highest() == d.third,
        d.spec_highest() is None <==> (d.first is None && d.second is None && d.third is None),
{
}

} // verus!
