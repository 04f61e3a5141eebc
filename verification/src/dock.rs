//! Docking: the state machine that follows the boat's approach to an island,
//! and the menu that is shown while the boat is docked.
//!
//! Bodies are named by the 64-bit identifiers that the host gives them.

use vstd::prelude::*;
use crate::vector::{length_xz_squared, Vec3};

verus! {

/// Speed over the water below which a boat close to an island docks: a tenth
/// of a unit.
pub const MAX_DOCK_VEL: u64 = 100_000;

/// Speed over the water above which a docked boat casts off: half a unit. It
/// lies above `MAX_DOCK_VEL`, so that no speed both docks and casts off.
pub const MIN_UNDOCK_VEL: u64 = 500_000;

/// Square of `MAX_DOCK_VEL`.
pub const MAX_DOCK_VEL_SQUARED: u128 = 10_000_000_000;

/// Square of `MIN_UNDOCK_VEL`.
pub const MIN_UNDOCK_VEL_SQUARED: u128 = 250_000_000_000;

/// Where the boat stands with respect to the islands. At most one island is
/// the dock target at any time.
#[derive(Clone, Copy, Debug, PartialEq, Eq, Structural)]
pub enum DockState {
    /// Outside every sensor region.
    TooFar,
    /// Inside the sensor region of the named island, not docked.
    CloseTo(u64),
    /// Docked at the named island.
    DockedTo(u64),
}

impl DockState {
    /// The island that the boat is close or docked to, if any.
    pub open spec fn target(self) -> Option<u64> {
        match self {
            DockState::TooFar => None,
            DockState::CloseTo(sensor) => Some(sensor),
            DockState::DockedTo(sensor) => Some(sensor),
        }
    }

    /// The island that the boat is close or docked to, if any.
    pub fn dock_target(&self) -> (target: Option<u64>)
        ensures
            target == self.target(),
    {
        match self {
            DockState::TooFar => None,
            DockState::CloseTo(sensor) => Some(*sensor),
            DockState::DockedTo(sensor) => Some(*sensor),
        }
    }
}

impl Default for DockState {
    fn default() -> (state: DockState)
        ensures
            state == DockState::TooFar,
    {
        DockState::TooFar
    }
}

/// What a change between close and docked asks of the user interface.
#[derive(Clone, Copy, Debug, PartialEq, Eq, Structural)]
pub enum Dock {
    /// The boat has docked: show the dock menu.
    Docking,
    /// The boat has cast off: hide the dock menu.
    UnDocking,
}

/// What the simulation keeps about the player.
#[derive(Clone, Copy, Debug, PartialEq, Eq, Structural)]
pub struct PlayerData {
    pub dock_state: DockState,
}

impl Default for PlayerData {
    fn default() -> (data: PlayerData)
        ensures
            data.dock_state == DockState::TooFar,
    {
        PlayerData { dock_state: DockState::default() }
    }
}

/// A contact between two bodies that began or ended.
#[derive(Clone, Copy, Debug, PartialEq, Eq, Structural)]
pub enum CollisionEvent {
    Started(u64, u64),
    Stopped(u64, u64),
}

/// Whether a speed over the water, given by its square, is below
/// `MAX_DOCK_VEL`. Speeds are held by their squares, which are whole numbers,
/// so that no rounding of a square root decides a comparison.
pub open spec fn slow(speed_squared: int) -> bool {
    speed_squared < MAX_DOCK_VEL * MAX_DOCK_VEL
}

/// Whether a speed over the water, given by its square, is above
/// `MIN_UNDOCK_VEL`.
pub open spec fn fast(speed_squared: int) -> bool {
    MIN_UNDOCK_VEL * MIN_UNDOCK_VEL < speed_squared
}

/// What one frame at the given speed over the water makes of a dock state,
/// and the event it emits: a boat close to an island docks below
/// `MAX_DOCK_VEL`, a docked boat casts off above `MIN_UNDOCK_VEL`, and nothing
/// else changes. The speed is given by its square.
pub open spec fn speed_step(state: DockState, speed_squared: int) -> (DockState, Option<Dock>) {
    match state {
        DockState::TooFar => (state, None),
        DockState::CloseTo(sensor) => if slow(speed_squared) {
            (DockState::DockedTo(sensor), Some(Dock::Docking))
        } else {
            (state, None)
        },
        DockState::DockedTo(sensor) => if fast(speed_squared) {
            (DockState::CloseTo(sensor), Some(Dock::UnDocking))
        } else {
            (state, None)
        },
    }
}

/// The dock state after a run of frames with the given speeds, first to last,
/// each speed given by its square.
pub open spec fn after_speeds(state: DockState, speeds: Seq<int>) -> DockState
    decreases speeds.len(),
{
    if speeds.len() == 0 {
        state
    } else {
        speed_step(after_speeds(state, speeds.drop_last()), speeds.last()).0
    }
}

/// The sensor region that a contact between `first` and `second` brings the
/// player together with: one of the two bodies is the player and the other a
/// sensor region, in either order.
pub open spec fn touched_sensor(
    first: u64,
    second: u64,
    player: u64,
    sensors: Seq<u64>,
) -> Option<u64> {
    if first == player && sensors.contains(second) {
        Some(second)
    } else if second == player && sensors.contains(first) {
        Some(first)
    } else {
        None
    }
}

/// What one collision event makes of a dock state: a contact of the player
/// with a sensor region that begins brings the boat close to that island, one
/// that ends takes it too far from every island; any other contact changes
/// nothing.
pub open spec fn sensor_step(
    state: DockState,
    event: CollisionEvent,
    player: u64,
    sensors: Seq<u64>,
) -> DockState {
    match event {
        CollisionEvent::Started(first, second) => match touched_sensor(
            first,
            second,
            player,
            sensors,
        ) {
            Some(sensor) => DockState::CloseTo(sensor),
            None => state,
        },
        CollisionEvent::Stopped(first, second) => match touched_sensor(
            first,
            second,
            player,
            sensors,
        ) {
            Some(_) => DockState::TooFar,
            None => state,
        },
    }
}

/// The dock state after a run of collision events, first to last.
pub open spec fn after_collisions(
    state: DockState,
    events: Seq<CollisionEvent>,
    player: u64,
    sensors: Seq<u64>,
) -> DockState
    decreases events.len(),
{
    if events.len() == 0 {
        state
    } else {
        sensor_step(
            after_collisions(state, events.drop_last(), player, sensors),
            events.last(),
            player,
            sensors,
        )
    }
}

/// A boat that is docked stays docked to the same island through every run
/// of frames in which its speed never exceeds `MIN_UNDOCK_VEL`.
pub proof fn lemma_stays_docked(target: u64, speeds: Seq<int>)
    requires
        forall|i: int| 0 <= i < speeds.len() ==> !fast(#[trigger] speeds[i]),
    ensures
        after_speeds(DockState::DockedTo(target), speeds) == DockState::DockedTo(target),
    decreases speeds.len(),
{
    if speeds.len() > 0 {
        lemma_stays_docked(target, speeds.drop_last());
    }
}

/// Docking hysteresis: once a boat close to an island has docked, because a
/// frame found it slower than `MAX_DOCK_VEL`, it is still docked to that
/// island after every further frame up to the first whose speed exceeds
/// `MIN_UNDOCK_VEL`. The speeds are given by their squares.
pub proof fn lemma_docking_hysteresis(target: u64, speeds: Seq<int>)
    requires
        speeds.len() >= 1,
        slow(speeds[0]),
        forall|i: int| 1 <= i < speeds.len() ==> !fast(#[trigger] speeds[i]),
    ensures
        forall|frames: int|
            1 <= frames <= speeds.len() ==> #[trigger] after_speeds(
                DockState::CloseTo(target),
                speeds.take(frames),
            ) == DockState::DockedTo(target),
        after_speeds(DockState::CloseTo(target), speeds) == DockState::DockedTo(target),
{
    assert forall|frames: int| 1 <= frames <= speeds.len() implies #[trigger] after_speeds(
        DockState::CloseTo(target),
        speeds.take(frames),
    ) == DockState::DockedTo(target) by {
        lemma_docks_and_stays(target, speeds.take(frames));
    }
    assert(speeds.take(speeds.len() as int) == speeds);
}

/// The state at the end of a run of frames that docks a close boat with its
/// first frame and never lets it exceed `MIN_UNDOCK_VEL` afterwards.
proof fn lemma_docks_and_stays(target: u64, speeds: Seq<int>)
    requires
        speeds.len() >= 1,
        slow(speeds[0]),
        forall|i: int| 1 <= i < speeds.len() ==> !fast(#[trigger] speeds[i]),
    ensures
        after_speeds(DockState::CloseTo(target), speeds) == DockState::DockedTo(target),
    decreases speeds.len(),
{
    if speeds.len() == 1 {
        assert(speeds.drop_last().len() == 0);
        assert(after_speeds(DockState::CloseTo(target), speeds.drop_last()) == DockState::CloseTo(
            target,
        ));
    } else {
        lemma_docks_and_stays(target, speeds.drop_last());
    }
}

/// A docked boat returns to being close exactly when a frame finds it faster
/// than `MIN_UNDOCK_VEL`, and a close boat docks exactly when a frame finds
/// it slower than `MAX_DOCK_VEL`; the target never changes with speed.
pub proof fn lemma_speed_transitions(target: u64, speed: int)
    ensures
        speed_step(DockState::DockedTo(target), speed).0 == DockState::CloseTo(target) <==> fast(
            speed,
        ),
        speed_step(DockState::DockedTo(target), speed).0 == DockState::DockedTo(target) <==> !fast(
            speed,
        ),
        speed_step(DockState::CloseTo(target), speed).0 == DockState::DockedTo(target) <==> slow(
            speed,
        ),
        speed_step(DockState::CloseTo(target), speed).0 == DockState::CloseTo(target) <==> !slow(
            speed,
        ),
        speed_step(DockState::TooFar, speed).0 == DockState::TooFar,
{
}

/// The thresholds leave a band: no speed is both slow enough to dock and fast
/// enough to cast off.
pub proof fn lemma_band(speed_squared: int)
    ensures
        !(slow(speed_squared) && fast(speed_squared)),
{
}

/// Speed alone never changes the dock target: it neither brings the boat to
/// an island nor takes it from one, however many frames pass.
pub proof fn lemma_speed_keeps_target(state: DockState, speeds: Seq<int>)
    ensures
        after_speeds(state, speeds).target() == state.target(),
    decreases speeds.len(),
{
    if speeds.len() > 0 {
        lemma_speed_keeps_target(state, speeds.drop_last());
    }
}

/// A boat docks only from being close, and at the island it is close to:
/// speed never docks a boat that is too far, and no collision event docks a
/// boat at all.
pub proof fn lemma_docks_only_from_close(
    state: DockState,
    target: u64,
    speed: int,
    event: CollisionEvent,
    player: u64,
    sensors: Seq<u64>,
)
    ensures
        speed_step(state, speed).0 == DockState::DockedTo(target) ==> state == DockState::CloseTo(
            target,
        ) || state == DockState::DockedTo(target),
        sensor_step(state, event, player, sensors) == DockState::DockedTo(target) ==> state
            == DockState::DockedTo(target),
{
}

/// The dock target is always a sensor region: if it was one, or there was
/// none, before a run of collision events, the same holds after the run.
pub proof fn lemma_target_is_sensor(
    state: DockState,
    events: Seq<CollisionEvent>,
    player: u64,
    sensors: Seq<u64>,
)
    requires
        state.target() matches Some(target) ==> sensors.contains(target),
    ensures
        after_collisions(state, events, player, sensors).target() matches Some(target)
            ==> sensors.contains(target),
    decreases events.len(),
{
    if events.len() > 0 {
        lemma_target_is_sensor(state, events.drop_last(), player, sensors);
    }
}

/// No chatter: a second frame at the same speed changes nothing and emits
/// nothing, whatever the first did.
pub proof fn lemma_no_chatter(state: DockState, speed: int)
    ensures
        speed_step(speed_step(state, speed).0, speed) == (speed_step(state, speed).0, None::<Dock>),
{
}

/// Advances the docking state machine by one frame in which the player moves
/// at the linear velocity `linvel`, and returns the event to emit, if any.
/// Only the speed over the water counts: the length of the velocity's
/// projection onto the horizontal plane, which is compared exactly, by its
/// square.
pub fn wire_dock_events(player_data: &mut PlayerData, linvel: &Vec3) -> (event: Option<Dock>)
    ensures
        (final(player_data).dock_state, event) == speed_step(
            old(player_data).dock_state,
            linvel@.norm_xz_squared(),
        ),
{
    let speed_squared: u128 = length_xz_squared(linvel);
    match player_data.dock_state {
        DockState::TooFar => None,
        DockState::CloseTo(sensor) => {
            if speed_squared < MAX_DOCK_VEL_SQUARED {
                player_data.dock_state = DockState::DockedTo(sensor);
                Some(Dock::Docking)
            } else {
                None
            }
        },
        DockState::DockedTo(sensor) => {
            if MIN_UNDOCK_VEL_SQUARED < speed_squared {
                player_data.dock_state = DockState::CloseTo(sensor);
                Some(Dock::UnDocking)
            } else {
                None
            }
        },
    }
}

/// Whether `body` is one of `sensors`.
fn is_sensor(sensors: &Vec<u64>, body: u64) -> (found: bool)
    ensures
        found == sensors@.contains(body),
{
    let mut index: usize = 0;
    while index < sensors.len()
        invariant
            index <= sensors.len(),
            forall|i: int| 0 <= i < index ==> sensors@[i] != body,
        decreases sensors.len() - index,
    {
        if sensors[index] == body {
            return true;
        }
        index += 1;
    }
    false
}

/// Executable form of [`touched_sensor`].
fn sensor_touched(first: u64, second: u64, player: u64, sensors: &Vec<u64>) -> (sensor: Option<u64>)
    ensures
        sensor == touched_sensor(first, second, player, sensors@),
{
    if first == player && is_sensor(sensors, second) {
        Some(second)
    } else if second == player && is_sensor(sensors, first) {
        Some(first)
    } else {
        None
    }
}

/// Feeds the collision events of one frame, first to last, to the docking
/// state machine. `player` names the player's body and `sensors` the sensor
/// regions of the islands.
pub fn wire_sensor_events(
    player_data: &mut PlayerData,
    collision_events: &Vec<CollisionEvent>,
    player: u64,
    sensors: &Vec<u64>,
)
    ensures
        final(player_data).dock_state == after_collisions(
            old(player_data).dock_state,
            collision_events@,
            player,
            sensors@,
        ),
{
    let mut index: usize = 0;
    while index < collision_events.len()
        invariant
            index <= collision_events.len(),
            player_data.dock_state == after_collisions(
                old(player_data).dock_state,
                collision_events@.take(index as int),
                player,
                sensors@,
            ),
        decreases collision_events.len() - index,
    {
        proof {
            let prefix = collision_events@.take(index + 1);
            assert(prefix.drop_last() == collision_events@.take(index as int));
            assert(prefix.last() == collision_events@[index as int]);
        }
        match collision_events[index] {
            CollisionEvent::Started(first, second) => {
                match sensor_touched(first, second, player, sensors) {
                    Some(sensor) => {
                        player_data.dock_state = DockState::CloseTo(sensor);
                    },
                    None => {},
                }
            },
            CollisionEvent::Stopped(first, second) => {
                match sensor_touched(first, second, player, sensors) {
                    Some(_) => {
                        player_data.dock_state = DockState::TooFar;
                    },
                    None => {},
                }
            },
        }
        index += 1;
    }
    proof {
        assert(collision_events@.take(collision_events.len() as int) == collision_events@);
    }
}

/// What is to be done with the dock menu.
#[derive(Clone, Copy, Debug, PartialEq, Eq, Structural)]
pub enum MenuCommand {
    /// Build the menu and show it.
    Spawn,
    /// Take the menu away.
    Despawn,
}

/// What one dock event asks of the menu: docking builds it unless it is
/// there, casting off takes it away if it is there.
pub open spec fn menu_command(event: Dock, menu_open: bool) -> Option<MenuCommand> {
    match event {
        Dock::Docking => if menu_open {
            None
        } else {
            Some(MenuCommand::Spawn)
        },
        Dock::UnDocking => if menu_open {
            Some(MenuCommand::Despawn)
        } else {
            None
        },
    }
}

/// The commands that a frame's dock events give, first to last. Commands take
/// effect after the frame, so every event of the frame sees the same
/// `menu_open`.
pub open spec fn menu_commands(events: Seq<Dock>, menu_open: bool) -> Seq<MenuCommand>
    decreases events.len(),
{
    if events.len() == 0 {
        Seq::empty()
    } else {
        let earlier = menu_commands(events.drop_last(), menu_open);
        match menu_command(events.last(), menu_open) {
            Some(command) => earlier.push(command),
            None => earlier,
        }
    }
}

/// Turns the dock events of one frame into commands on the dock menu.
/// `menu_open` tells whether the menu existed when the frame began.
pub fn dock_menu(events: &Vec<Dock>, menu_open: bool) -> (commands: Vec<MenuCommand>)
    ensures
        commands@ == menu_commands(events@, menu_open),
{
    let mut commands: Vec<MenuCommand> = Vec::new();
    let mut index: usize = 0;
    while index < events.len()
        invariant
            index <= events.len(),
            commands@ == menu_commands(events@.take(index as int), menu_open),
        decreases events.len() - index,
    {
        proof {
            let prefix = events@.take(index + 1);
            assert(prefix.drop_last() == events@.take(index as int));
            assert(prefix.last() == events@[index as int]);
        }
        match events[index] {
            Dock::Docking => {
                if !menu_open {
                    commands.push(MenuCommand::Spawn);
                }
            },
            Dock::UnDocking => {
                if menu_open {
                    commands.push(MenuCommand::Despawn);
                }
            },
        }
        index += 1;
    }
    proof {
        assert(events@.take(events.len() as int) == events@);
    }
    commands
}

/// A card of the dock menu: somebody at the island, and what they ask.
#[derive(Clone, Debug, PartialEq, Eq)]
pub struct Card {
    pub person_name: String,
    pub task: String,
}

impl Default for Card {
    fn default() -> (card: Card)
        ensures
            card.person_name@ == Seq::<char>::empty(),
            card.task@ == Seq::<char>::empty(),
    {
        Card { person_name: String::new(), task: String::new() }
    }
}

/// A card laid out for display: its size in percent of the menu, and its
/// lines of text from top to bottom.
#[derive(Clone, Debug, PartialEq, Eq)]
pub struct CardNode {
    pub width_percent: u32,
    pub height_percent: u32,
    pub texts: Vec<String>,
}

/// The dock menu laid out for display: its size and the position of its left
/// upper corner in percent of the window, and its cards from left to right.
#[derive(Clone, Debug, PartialEq, Eq)]
pub struct MenuNode {
    pub width_percent: u32,
    pub height_percent: u32,
    pub left_percent: u32,
    pub top_percent: u32,
    pub cards: Vec<CardNode>,
}

impl Card {
    /// Width of a card in percent of the menu: the selected card is wider.
    pub open spec fn node_width(selected: bool) -> int {
        if selected {
            50
        } else {
            40
        }
    }

    /// Height of a card in percent of the menu: the selected card is taller.
    pub open spec fn node_height(selected: bool) -> int {
        if selected {
            100
        } else {
            80
        }
    }

    /// Lays the card out for display.
    pub fn spawn_node(&self, selected: bool) -> (node: CardNode)
        ensures
            shows(node, self.person_name@, self.task@, selected),
    {
        let mut texts: Vec<String> = Vec::new();
        texts.push(self.person_name.clone());
        texts.push(self.task.clone());
        CardNode {
            width_percent: if selected {
                50
            } else {
                40
            },
            height_percent: if selected {
                100
            } else {
                80
            },
            texts,
        }
    }
}

/// Whether `node` shows `person_name` asking `task`, selected or not: of the
/// size that the selection gives, with the name above the task.
pub open spec fn shows(
    node: CardNode,
    person_name: Seq<char>,
    task: Seq<char>,
    selected: bool,
) -> bool {
    &&& node.width_percent == Card::node_width(selected)
    &&& node.height_percent == Card::node_height(selected)
    &&& node.texts@.len() == 2
    &&& node.texts@[0]@ == person_name
    &&& node.texts@[1]@ == task
}

/// Builds the dock menu: half the window wide and a quarter of it high, a
/// quarter of the window from its left and upper edges, with three cards of
/// which the middle one is selected.
pub fn dock_menu_node() -> (menu: MenuNode)
    ensures
        menu.width_percent == 50,
        menu.height_percent == 25,
        menu.left_percent == 25,
        menu.top_percent == 25,
        menu.cards@.len() == 3,
        shows(menu.cards@[0], "Bob Arne"@, "Do you want to buy 5 bananas?"@, false),
        shows(menu.cards@[1], "Asbjørn Johann"@, "Do you want to buy 5 bananas?"@, true),
        shows(menu.cards@[2], "Bob Arne"@, "Do you want to buy 5 bananas?"@, false),
{
    let left = Card {
        person_name: "Bob Arne".to_owned(),
        task: "Do you want to buy 5 bananas?".to_owned(),
    };
    let middle = Card {
        person_name: "Asbjørn Johann".to_owned(),
        task: "Do you want to buy 5 bananas?".to_owned(),
    };
    let right = Card {
        person_name: "Bob Arne".to_owned(),
        task: "Do you want to buy 5 bananas?".to_owned(),
    };
    let mut cards: Vec<CardNode> = Vec::new();
    cards.push(left.spawn_node(false));
    cards.push(middle.spawn_node(true));
    cards.push(right.spawn_node(false));
    MenuNode { width_percent: 50, height_percent: 25, left_percent: 25, top_percent: 25, cards }
}

} // verus!
