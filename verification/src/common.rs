//! The plan of a run: the filters to measure through and the stars to visit.

use vstd::prelude::*;

verus! {

/// The model of a star: what contracts say of a [`StarData`].
pub struct Star {
    pub star_type: Seq<char>,
    pub name: Seq<char>,
}

/// One star of a run: a free-form kind and the name it is logged under.
/// Stars of one name share their integration times, whatever their kind.
#[derive(Default, Debug, Clone, PartialEq, Eq)]
pub struct StarData {
    pub star_type: String,
    pub name: String,
}

impl View for StarData {
    type V = Star;

    open spec fn view(&self) -> Star {
        Star { star_type: self.star_type@, name: self.name@ }
    }
}

impl StarData {
    pub fn new(star_type: &String, name: &String) -> (star: StarData)
        ensures
            star@ == (Star { star_type: star_type@, name: name@ }),
    {
        StarData { star_type: star_type.clone(), name: name.clone() }
    }
}

/// The model of a run's plan: what contracts say of a [`PepRun`].
#[verifier::ext_equal]
pub struct Plan {
    pub filters: Seq<u8>,
    pub items: Seq<Star>,
}

impl Plan {
    /// Every filter code names one of the six filters.
    pub open spec fn valid(self) -> bool {
        forall|i: int| 0 <= i < self.filters.len() ==> (#[trigger] self.filters[i]) <= 5
    }
}

/// The filters, by code, and the stars of a run, each in the order in
/// which they are measured.
#[derive(Default, Debug, Clone, PartialEq, Eq)]
pub struct PepRun {
    pub filters: Vec<u8>,
    pub items: Vec<StarData>,
}

impl View for PepRun {
    type V = Plan;

    open spec fn view(&self) -> Plan {
        Plan { filters: self.filters@, items: self.items@.map_values(|star: StarData| star@) }
    }
}

impl PepRun {
    pub fn new(filters: Vec<u8>, items: Vec<StarData>) -> (run: PepRun)
        ensures
            run.filters == filters,
            run.items == items,
            run@ == (Plan { filters: filters@, items: items@.map_values(|star: StarData| star@) }),
    {
        PepRun { filters, items }
    }

    /// Whether every filter code of the run names a filter.
    pub fn is_valid(&self) -> (valid: bool)
        ensures
            valid == self@.valid(),
    {
        let mut i: usize = 0;
        while i < self.filters.len()
            invariant
                i <= self.filters.len(),
                forall|j: int| 0 <= j < i ==> (#[trigger] self.filters@[j]) <= 5,
            decreases self.filters.len() - i,
        {
            if self.filters[i] > 5 {
                assert(self@.filters[i as int] > 5);
                return false;
            }
            i = i + 1;
        }
        true
    }
}

/// The letter that a filter's readings are logged under.
pub open spec fn filter_label_of(filter: u8) -> char {
    if filter == 0 {
        'U'
    } else if filter == 1 {
        'B'
    } else if filter == 2 {
        'V'
    } else if filter == 3 {
        'R'
    } else if filter == 4 {
        'I'
    } else {
        'C'
    }
}

pub fn filter_label(filter: u8) -> (label: char)
    requires
        filter <= 5,
    ensures
        label == filter_label_of(filter),
{
    if filter == 0 {
        'U'
    } else if filter == 1 {
        'B'
    } else if filter == 2 {
        'V'
    } else if filter == 3 {
        'R'
    } else if filter == 4 {
        'I'
    } else {
        'C'
    }
}

} // verus!
