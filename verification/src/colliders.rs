//! Colliders come from a scene of named nodes. A node's name says which body
//! its collider is for and what shape it has: `boat-trimesh` is the hull of
//! the player's boat, `island-1-trimesh` the shore of the first island,
//! `island-1-cylinder` the sensor region around it, and so on.

use vstd::prelude::*;

verus! {

/// Half the height of the cylinder that is an island's sensor region: three
/// units, in millionths.
pub const SENSOR_HALF_HEIGHT: i64 = 3_000_000;

/// Radius of the cylinder that is an island's sensor region: one unit, in
/// millionths.
pub const SENSOR_RADIUS: i64 = 1_000_000;

/// Where in the list of node names each collider of the game is found.
#[derive(Clone, Copy, Debug, PartialEq, Eq, Structural)]
pub struct ColliderPlan {
    /// The triangle mesh that is the hull of the player's boat.
    pub boat: usize,
    /// The triangle mesh that is the shore of the first island.
    pub island_1: usize,
    /// The triangle mesh that is the shore of the second island.
    pub island_2: usize,
    /// The node that places the sensor region of the first island.
    pub sensor_1: usize,
    /// The node that places the sensor region of the second island.
    pub sensor_2: usize,
}

/// The first place in `names` that holds `wanted`, if any does.
pub open spec fn position(names: Seq<String>, wanted: Seq<char>) -> Option<int> {
    if exists|i: int| 0 <= i < names.len() && (#[trigger] names[i])@ == wanted {
        Some(
            choose|i: int|
                0 <= i < names.len() && (#[trigger] names[i])@ == wanted && forall|j: int|
                    0 <= j < i ==> (#[trigger] names[j])@ != wanted,
        )
    } else {
        None
    }
}

/// A plan with a given place for each collider, where every one has a place.
pub open spec fn plan_of(
    boat: Option<int>,
    island_1: Option<int>,
    island_2: Option<int>,
    sensor_1: Option<int>,
    sensor_2: Option<int>,
) -> Option<ColliderPlan> {
    if boat is Some && island_1 is Some && island_2 is Some && sensor_1 is Some
        && sensor_2 is Some {
        Some(
            ColliderPlan {
                boat: boat->0 as usize,
                island_1: island_1->0 as usize,
                island_2: island_2->0 as usize,
                sensor_1: sensor_1->0 as usize,
                sensor_2: sensor_2->0 as usize,
            },
        )
    } else {
        None
    }
}

/// The plan that the node names give: each collider at the first place that
/// holds its name, and no plan if one of the five names is missing.
pub open spec fn plan_for(names: Seq<String>) -> Option<ColliderPlan> {
    plan_of(
        position(names, "boat-trimesh"@),
        position(names, "island-1-trimesh"@),
        position(names, "island-2-trimesh"@),
        position(names, "island-1-cylinder"@),
        position(names, "island-2-cylinder"@),
    )
}

/// What [`position`] gives is a place in `names` that holds `wanted`, with no
/// such place before it; and it gives a place whenever there is one.
pub proof fn lemma_position(names: Seq<String>, wanted: Seq<char>)
    ensures
        match position(names, wanted) {
            Some(first) => {
                &&& 0 <= first < names.len()
                &&& names[first]@ == wanted
                &&& forall|j: int| 0 <= j < first ==> (#[trigger] names[j])@ != wanted
            },
            None => forall|j: int| 0 <= j < names.len() ==> (#[trigger] names[j])@ != wanted,
        },
{
    if exists|i: int| 0 <= i < names.len() && (#[trigger] names[i])@ == wanted {
        let witness = choose|i: int| 0 <= i < names.len() && (#[trigger] names[i])@ == wanted;
        lemma_first_exists(names, wanted, witness);
    }
}

/// Below any place that holds `wanted` there is a first one.
proof fn lemma_first_exists(names: Seq<String>, wanted: Seq<char>, at: int)
    requires
        0 <= at < names.len(),
        names[at]@ == wanted,
    ensures
        exists|i: int|
            0 <= i < names.len() && (#[trigger] names[i])@ == wanted && forall|j: int|
                0 <= j < i ==> (#[trigger] names[j])@ != wanted,
    decreases at,
{
    if exists|k: int| 0 <= k < at && (#[trigger] names[k])@ == wanted {
        let earlier = choose|k: int| 0 <= k < at && (#[trigger] names[k])@ == wanted;
        lemma_first_exists(names, wanted, earlier);
    } else {
        assert(0 <= at < names.len() && names[at]@ == wanted && forall|j: int|
            0 <= j < at ==> (#[trigger] names[j])@ != wanted);
    }
}

/// Finds the first place in `names` that holds `wanted`.
pub fn find_node(names: &Vec<String>, wanted: &str) -> (found: Option<usize>)
    ensures
        match found {
            Some(first) => position(names@, wanted@) == Some(first as int),
            None => position(names@, wanted@) is None,
        },
{
    let wanted_name: String = wanted.to_owned();
    let mut index: usize = 0;
    while index < names.len()
        invariant
            index <= names.len(),
            wanted_name@ == wanted@,
            forall|j: int| 0 <= j < index ==> (#[trigger] names@[j])@ != wanted@,
        decreases names.len() - index,
    {
        if names[index] == wanted_name {
            proof {
                assert(names@[index as int]@ == wanted@);
                lemma_position(names@, wanted@);
            }
            return Some(index);
        }
        index += 1;
    }
    None
}

/// Lays out which node of the collider scene serves which body. There is no
/// plan unless the scene names the boat, both islands and both sensor
/// regions.
pub fn plan_colliders(names: &Vec<String>) -> (plan: Option<ColliderPlan>)
    ensures
        plan == plan_for(names@),
{
    let boat = find_node(names, "boat-trimesh");
    let island_1 = find_node(names, "island-1-trimesh");
    let island_2 = find_node(names, "island-2-trimesh");
    let sensor_1 = find_node(names, "island-1-cylinder");
    let sensor_2 = find_node(names, "island-2-cylinder");
    match (boat, island_1, island_2, sensor_1, sensor_2) {
        (Some(boat), Some(island_1), Some(island_2), Some(sensor_1), Some(sensor_2)) => Some(
            ColliderPlan { boat, island_1, island_2, sensor_1, sensor_2 },
        ),
        _ => None,
    }
}

} // verus!
