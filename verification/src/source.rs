//! Occupancy calculator for resource nodes.
//!
//! A resource node sits in a fixed neighborhood of cells. The simulation
//! senses the neighborhood as a list of look results (one cell can yield
//! both a terrain entry and an agent entry), and the functions here turn
//! that list into capacity figures: how many gathering spots the terrain
//! offers, and how many of them are still free.

use vstd::prelude::*;

verus! {

/// Terrain classification of one neighborhood cell.
#[derive(Clone, Copy, PartialEq, Eq, Structural, Debug)]
pub enum Terrain {
    Plain,
    Swamp,
    Wall,
}

/// One sensed entry of a node's neighborhood. A cell occupied by an agent
/// yields both a `Terrain` entry and a `Creep` entry.
#[derive(Clone, Copy, PartialEq, Eq, Structural, Debug)]
pub enum Look {
    Terrain(Terrain),
    Creep,
    Other,
}

/// Whether a look result is passable terrain: open ground or
/// difficult-but-passable ground.
pub open spec fn is_passable(l: Look) -> bool {
    l == Look::Terrain(Terrain::Plain) || l == Look::Terrain(Terrain::Swamp)
}

/// Number of passable-terrain entries in a sensed neighborhood.
pub open spec fn passable_count(looks: Seq<Look>) -> int
    decreases looks.len(),
{
    if looks.len() == 0 {
        0
    } else {
        passable_count(looks.drop_last()) + if is_passable(looks.last()) {
            1int
        } else {
            0int
        }
    }
}

/// Number of agent entries in a sensed neighborhood.
pub open spec fn creep_count(looks: Seq<Look>) -> int
    decreases looks.len(),
{
    if looks.len() == 0 {
        0
    } else {
        creep_count(looks.drop_last()) + if looks.last() == Look::Creep {
            1int
        } else {
            0int
        }
    }
}

/// What `free_source_spots` computes: the passable-terrain count minus one
/// for every agent currently occupying the neighborhood. Negative means
/// "zero or worse": more occupying agents than terrain spots.
pub open spec fn free_spots(looks: Seq<Look>) -> int {
    passable_count(looks) - creep_count(looks)
}

/// The passable count of a neighborhood is between zero and its length.
pub proof fn lemma_passable_count_bounds(looks: Seq<Look>)
    ensures
        0 <= passable_count(looks) <= looks.len(),
    decreases looks.len(),
{
    if looks.len() > 0 {
        lemma_passable_count_bounds(looks.drop_last());
    }
}

/// Number of generally occupiable gathering spots around a node: the count
/// of passable-terrain entries in its sensed neighborhood. A node whose
/// neighborhood could not be sensed yields an empty list, hence 0.
pub fn total_source_spots(looks: &Vec<Look>) -> (n: u32)
    requires
        looks@.len() <= u32::MAX,
    ensures
        n == passable_count(looks@),
{
    let mut n: u32 = 0;
    let mut i: usize = 0;
    proof {
        lemma_passable_count_bounds(looks@);
    }
    while i < looks.len()
        invariant
            0 <= i <= looks@.len() <= u32::MAX,
            n == passable_count(looks@.take(i as int)),
            0 <= passable_count(looks@.take(i as int)) <= i,
        decreases looks@.len() - i,
    {
        proof {
            assert(looks@.take(i + 1).drop_last() =~= looks@.take(i as int));
            assert(looks@.take(i + 1).last() == looks@[i as int]);
            lemma_passable_count_bounds(looks@.take(i + 1));
        }
        match looks[i] {
            Look::Terrain(Terrain::Plain) | Look::Terrain(Terrain::Swamp) => {
                n = n + 1;
            },
            _ => {},
        }
        i = i + 1;
    }
    proof {
        assert(looks@.take(looks@.len() as int) =~= looks@);
    }
    n
}

/// Number of currently available gathering spots around a node: the passable
/// count minus one for every occupying agent. The value is signed; callers
/// must treat a negative result as "zero or worse", never clamp it silently.
pub fn free_source_spots(looks: &Vec<Look>) -> (n: i64)
    requires
        looks@.len() <= u32::MAX,
    ensures
        n == free_spots(looks@),
{
    let mut n: i64 = 0;
    let mut i: usize = 0;
    while i < looks.len()
        invariant
            0 <= i <= looks@.len() <= u32::MAX,
            n == free_spots(looks@.take(i as int)),
            -i <= free_spots(looks@.take(i as int)) <= i,
        decreases looks@.len() - i,
    {
        proof {
            assert(looks@.take(i + 1).drop_last() =~= looks@.take(i as int));
            assert(looks@.take(i + 1).last() == looks@[i as int]);
        }
        match looks[i] {
            Look::Terrain(Terrain::Plain) | Look::Terrain(Terrain::Swamp) => {
                n = n + 1;
            },
            Look::Creep => {
                n = n - 1;
            },
            _ => {},
        }
        i = i + 1;
    }
    proof {
        assert(looks@.take(looks@.len() as int) =~= looks@);
    }
    n
}

/// With no occupying agents, every terrain spot is free: for a neighborhood
/// with N passable entries and 0 agent entries, the total and the free spot
/// counts both equal N.
pub proof fn lemma_unoccupied_spots_all_free(looks: Seq<Look>)
    requires
        creep_count(looks) == 0,
    ensures
        free_spots(looks) == passable_count(looks),
{
}

/// Each occupying agent takes exactly one spot: for a neighborhood with N
/// passable entries and K agent entries, the free count is N - K.
pub proof fn lemma_each_occupant_takes_one_spot(looks: Seq<Look>)
    ensures
        free_spots(looks) == passable_count(looks) - creep_count(looks),
{
}

} // verus!
