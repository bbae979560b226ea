//! What the main window decides: which filters are chosen, and how a run
//! is put together from what was entered.

use vstd::prelude::*;
use vstd::string::StringExecFns;
use crate::common::{PepRun, Plan, Star, StarData};

verus! {

/// The five filters that can be chosen for a run, each chosen or not.
#[derive(Clone, Copy, Debug, PartialEq, Eq, Structural)]
pub struct FilterSettings {
    pub u: bool,
    pub b: bool,
    pub v: bool,
    pub r: bool,
    pub i: bool,
}

/// The code alone where the filter is chosen, nothing where it is not.
pub open spec fn chosen(flag: bool, code: u8) -> Seq<u8> {
    if flag {
        seq![code]
    } else {
        Seq::empty()
    }
}

impl FilterSettings {
    /// The codes of the chosen filters, in rising order: U is 0, B is 1,
    /// V is 2, R is 3 and I is 4.
    pub open spec fn codes(self) -> Seq<u8> {
        chosen(self.u, 0) + chosen(self.b, 1) + chosen(self.v, 2) + chosen(self.r, 3) + chosen(
            self.i,
            4,
        )
    }

    /// The settings under which exactly the filters of these codes are
    /// chosen.
    pub open spec fn of_codes(codes: Seq<u8>) -> FilterSettings {
        FilterSettings {
            u: codes.contains(0),
            b: codes.contains(1),
            v: codes.contains(2),
            r: codes.contains(3),
            i: codes.contains(4),
        }
    }

    pub fn filters(&self) -> (codes: Vec<u8>)
        ensures
            codes@ == self.codes(),
    {
        let mut codes: Vec<u8> = Vec::new();
        if self.u {
            codes.push(0);
        }
        if self.b {
            codes.push(1);
        }
        if self.v {
            codes.push(2);
        }
        if self.r {
            codes.push(3);
        }
        if self.i {
            codes.push(4);
        }
        assert(codes@ =~= self.codes());
        codes
    }

    /// The settings that show the filters of a run. A run with a filter
    /// that cannot be chosen here gives none.
    pub fn from_filters(filters: &Vec<u8>) -> (settings: Option<FilterSettings>)
        ensures
            settings is Some <==> (forall|k: int|
                0 <= k < filters.len() ==> (#[trigger] filters@[k]) <= 4),
            settings is Some ==> settings->0 == FilterSettings::of_codes(filters@),
    {
        let mut settings = FilterSettings { u: false, b: false, v: false, r: false, i: false };
        let mut k: usize = 0;
        while k < filters.len()
            invariant
                k <= filters.len(),
                forall|j: int| 0 <= j < k ==> (#[trigger] filters@[j]) <= 4,
                settings == FilterSettings::of_codes(filters@.take(k as int)),
            decreases filters.len() - k,
        {
            let code: u8 = filters[k];
            if code > 4 {
                return None;
            }
            proof {
                let before = filters@.take(k as int);
                let after = filters@.take(k + 1);
                assert(after =~= before.push(code));
                assert forall|c: u8| after.contains(c) <==> before.contains(c) || c == code by {
                    if before.contains(c) {
                        let at = choose|at: int| 0 <= at < before.len() && before[at] == c;
                        assert(after[at] == c);
                    }
                    if c == code {
                        assert(after[k as int] == c);
                    }
                }
            }
            if code == 0 {
                settings.u = true;
            } else if code == 1 {
                settings.b = true;
            } else if code == 2 {
                settings.v = true;
            } else if code == 3 {
                settings.r = true;
            } else {
                settings.i = true;
            }
            k = k + 1;
        }
        assert(filters@.take(k as int) =~= filters@);
        Some(settings)
    }
}

/// Choosing the filters of the codes that a choice gives is the same
/// choice again.
pub proof fn law_codes_round_trip(settings: FilterSettings)
    ensures
        FilterSettings::of_codes(settings.codes()) == settings,
        forall|k: int| 0 <= k < settings.codes().len() ==> (#[trigger] settings.codes()[k]) <= 4,
{
    let codes = settings.codes();
    let head = chosen(settings.u, 0) + chosen(settings.b, 1) + chosen(settings.v, 2) + chosen(
        settings.r,
        3,
    );
    assert forall|c: u8| codes.contains(c) implies c == 0 && settings.u || c == 1 && settings.b
        || c == 2 && settings.v || c == 3 && settings.r || c == 4 && settings.i by {}
    if settings.u {
        assert(codes[0] == 0);
    }
    if settings.b {
        assert(codes[chosen(settings.u, 0).len() as int] == 1);
    }
    if settings.v {
        assert(codes[(chosen(settings.u, 0) + chosen(settings.b, 1)).len() as int] == 2);
    }
    if settings.r {
        assert(codes[(chosen(settings.u, 0) + chosen(settings.b, 1) + chosen(
            settings.v,
            2,
        )).len() as int] == 3);
    }
    if settings.i {
        assert(codes[head.len() as int] == 4);
    }
}

/// The run of the chosen filters over `stars`. There is none without a
/// filter or without a star.
pub open spec fn extracted(settings: FilterSettings, stars: Seq<Star>) -> Option<Plan> {
    if settings.codes().len() == 0 || stars.len() == 0 {
        None
    } else {
        Some(Plan { filters: settings.codes(), items: stars })
    }
}

pub fn extract_run(settings: &FilterSettings, stars: Vec<StarData>) -> (run: Option<PepRun>)
    ensures
        match extracted(*settings, stars@.map_values(|star: StarData| star@)) {
            Some(plan) => run is Some && run->0@ == plan && run->0@.valid(),
            None => run is None,
        },
{
    let filters: Vec<u8> = settings.filters();
    if filters.len() == 0 || stars.len() == 0 {
        return None;
    }
    proof {
        law_codes_round_trip(*settings);
    }
    Some(PepRun::new(filters, stars))
}

/// A star of the kind and name.
pub open spec fn star(kind: Seq<char>, name: Seq<char>) -> Seq<Star> {
    seq![Star { star_type: kind, name }]
}

/// A star of the kind and name, if there is a name.
pub open spec fn star_if_named(kind: Seq<char>, name: Seq<char>) -> Seq<Star> {
    if name.len() == 0 {
        Seq::empty()
    } else {
        star(kind, name)
    }
}

/// One round of a generated run: the comparison star, the program star,
/// and the second program star where there is one.
pub open spec fn round(comparison: Seq<char>, program1: Seq<char>, program2: Seq<char>) -> Seq<
    Star,
> {
    star("CMP"@, comparison) + star("PGM"@, program1) + star_if_named("PGM"@, program2)
}

/// The stars of a generated run: three rounds, the comparison star, the
/// check star and the second check star where there is one, and the
/// comparison star once more.
pub open spec fn generated_stars(
    program1: Seq<char>,
    program2: Seq<char>,
    comparison: Seq<char>,
    check1: Seq<char>,
    check2: Seq<char>,
) -> Seq<Star> {
    round(comparison, program1, program2) + round(comparison, program1, program2) + round(
        comparison,
        program1,
        program2,
    ) + star("CMP"@, comparison) + star("CHK"@, check1) + star_if_named("CHK"@, check2) + star(
        "CMP"@,
        comparison,
    )
}

fn push_star(stars: &mut Vec<StarData>, kind: &str, name: &String)
    ensures
        final(stars)@.map_values(|star: StarData| star@) == old(stars)@.map_values(
            |star: StarData| star@,
        ) + star(kind@, name@),
{
    let kind: String = String::from_str(kind);
    stars.push(StarData::new(&kind, name));
    assert(stars@.map_values(|star: StarData| star@) =~= old(stars)@.map_values(
        |star: StarData| star@,
    ) + star(kind@, name@));
}

fn push_star_if_named(stars: &mut Vec<StarData>, kind: &str, name: &String)
    ensures
        final(stars)@.map_values(|star: StarData| star@) == old(stars)@.map_values(
            |star: StarData| star@,
        ) + star_if_named(kind@, name@),
{
    if !name.as_str().is_empty() {
        push_star(stars, kind, name);
    } else {
        assert(stars@.map_values(|star: StarData| star@) =~= old(stars)@.map_values(
            |star: StarData| star@,
        ) + star_if_named(kind@, name@));
    }
}

/// Puts a run together from the names of its stars: the first program
/// star, the comparison star and the first check star must have a name,
/// the second program star and the second check star may be left empty.
pub fn generate_run(
    settings: &FilterSettings,
    program1: &String,
    program2: &String,
    comparison: &String,
    check1: &String,
    check2: &String,
) -> (run: Option<PepRun>)
    ensures
        run is Some <==> program1@.len() > 0 && comparison@.len() > 0 && check1@.len() > 0,
        run is Some ==> run->0@.filters == settings.codes() && run->0@.items == generated_stars(
            program1@,
            program2@,
            comparison@,
            check1@,
            check2@,
        ) && run->0@.valid(),
{
    if program1.as_str().is_empty() || comparison.as_str().is_empty() || check1.as_str().is_empty() {
        return None;
    }
    let filters: Vec<u8> = settings.filters();
    let mut stars: Vec<StarData> = Vec::new();
    assert(stars@.map_values(|star: StarData| star@) =~= Seq::<Star>::empty());
    let mut rounds: usize = 0;
    while rounds < 3
        invariant
            rounds <= 3,
            rounds == 0 ==> stars@.map_values(|star: StarData| star@) == Seq::<Star>::empty(),
            rounds == 1 ==> stars@.map_values(|star: StarData| star@) == round(
                comparison@,
                program1@,
                program2@,
            ),
            rounds == 2 ==> stars@.map_values(|star: StarData| star@) == round(
                comparison@,
                program1@,
                program2@,
            ) + round(comparison@, program1@, program2@),
            rounds == 3 ==> stars@.map_values(|star: StarData| star@) == round(
                comparison@,
                program1@,
                program2@,
            ) + round(comparison@, program1@, program2@) + round(
                comparison@,
                program1@,
                program2@,
            ),
        decreases 3 - rounds,
    {
        let ghost before = stars@.map_values(|star: StarData| star@);
        push_star(&mut stars, "CMP", comparison);
        push_star(&mut stars, "PGM", program1);
        push_star_if_named(&mut stars, "PGM", program2);
        assert(stars@.map_values(|star: StarData| star@) =~= before + round(
            comparison@,
            program1@,
            program2@,
        ));
        rounds = rounds + 1;
    }
    push_star(&mut stars, "CMP", comparison);
    push_star(&mut stars, "CHK", check1);
    push_star_if_named(&mut stars, "CHK", check2);
    push_star(&mut stars, "CMP", comparison);
    proof {
        law_codes_round_trip(*settings);
    }
    Some(PepRun::new(filters, stars))
}

} // verus!
