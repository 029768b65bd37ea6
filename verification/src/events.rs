//! Plain-value snapshots that the host hands to the per-frame update, and
//! the side-effect requests the update hands back.
//!
//! Entities are identified by `EntityId`: the unique player, or a target
//! carrying the counter value its registry name was derived from.

use vstd::prelude::*;
use crate::world::Target;

verus! {

/// A named entity in the engine's registry.
#[derive(Clone, Copy, PartialEq, Eq, Structural, Debug)]
pub enum EntityId {
    /// The player sprite.
    Player,
    /// A collectible target; the payload is the counter value its name was
    /// derived from.
    Target(i32),
}

/// Whether an overlap just began or just ended.
#[derive(Clone, Copy, PartialEq, Eq, Structural, Debug)]
pub enum CollisionState {
    Begin,
    End,
}

/// One collision event between a pair of named entities.
#[derive(Clone, Copy, PartialEq, Eq, Structural, Debug)]
pub struct CollisionEvent {
    pub state: CollisionState,
    pub first: EntityId,
    pub second: EntityId,
}

/// The per-frame snapshot of the directional and reset inputs.
/// Each directional flag is true when any of its bound keys is held;
/// `reset_just_pressed` is edge-triggered.
#[derive(Clone, Copy, PartialEq, Eq, Structural, Debug)]
pub struct InputSnapshot {
    pub up: bool,
    pub down: bool,
    pub left: bool,
    pub right: bool,
    pub reset_just_pressed: bool,
}

impl InputSnapshot {
    /// A snapshot with no key held and no reset.
    pub fn idle() -> (s: InputSnapshot)
        ensures
            s == (InputSnapshot {
                up: false,
                down: false,
                left: false,
                right: false,
                reset_just_pressed: false,
            }),
    {
        InputSnapshot { up: false, down: false, left: false, right: false, reset_just_pressed: false }
    }
}

/// Half the arena's current width and height, in milliunits, queried fresh
/// each frame so layout and spawn bounds track resizes.
#[derive(Clone, Copy, PartialEq, Eq, Structural, Debug)]
pub struct ArenaDims {
    pub half_width: i64,
    pub half_height: i64,
}

/// The side-effect requests one frame's update emits; the host applies them
/// to the engine in order: re-anchor the labels, remove the collided
/// targets, play the hit sounds, set the label texts, spawn the new target.
pub struct FrameOutput {
    /// New anchor of the score label, offset from the top-right corner.
    pub score_text_x: i64,
    pub score_text_y: i64,
    /// New anchor of the high-score label, offset from the top-left corner.
    pub high_text_x: i64,
    pub high_text_y: i64,
    /// Counter values of the targets to remove, in event order.
    pub removed: Vec<i32>,
    /// Number of hit sound-effect requests, one per qualifying collision.
    pub hit_sounds: u32,
    /// New score label text, when the score changed this frame.
    pub score_text: Option<Vec<char>>,
    /// New high-score label text, when the high score was tied or exceeded.
    pub high_text: Option<Vec<char>>,
    /// The target to create, when the spawn timer fired.
    pub spawned: Option<Target>,
}

/// Whether the event is a begun overlap with the player as one member.
pub open spec fn is_player_event(e: CollisionEvent) -> bool {
    e.state == CollisionState::Begin && (e.first == EntityId::Player || e.second
        == EntityId::Player)
}

/// The target hit by one pair member: its counter value if it is a target,
/// nothing if it is the player.
pub open spec fn member_hits(m: EntityId) -> Seq<i32> {
    match m {
        EntityId::Player => Seq::empty(),
        EntityId::Target(id) => seq![id],
    }
}

/// The targets one event removes: both non-player members of a begun
/// overlap involving the player, in pair order; nothing otherwise.
pub open spec fn event_hits(e: CollisionEvent) -> Seq<i32> {
    if is_player_event(e) {
        member_hits(e.first) + member_hits(e.second)
    } else {
        Seq::empty()
    }
}

/// The targets a frame's event sequence removes, in processing order.
pub open spec fn hits(events: Seq<CollisionEvent>) -> Seq<i32>
    decreases events.len(),
{
    if events.len() == 0 {
        Seq::empty()
    } else {
        hits(events.drop_last()) + event_hits(events.last())
    }
}

/// The number of qualifying collisions in the frame: exactly the score
/// increment the frame's collision handling applies.
pub open spec fn hit_count(events: Seq<CollisionEvent>) -> nat {
    hits(events).len()
}

/// Taking one more event appends that event's hits.
pub proof fn lemma_hits_take_succ(events: Seq<CollisionEvent>, i: int)
    requires
        0 <= i < events.len(),
    ensures
        hits(events.take(i + 1)) == hits(events.take(i)) + event_hits(events[i]),
{
    assert(events.take(i + 1).drop_last() =~= events.take(i));
    assert(events.take(i + 1).last() == events[i]);
}

/// A prefix never holds more hits than the whole sequence.
pub proof fn lemma_hits_take_bound(events: Seq<CollisionEvent>, i: int)
    requires
        0 <= i <= events.len(),
    ensures
        hit_count(events.take(i)) <= hit_count(events),
    decreases events.len() - i,
{
    if i == events.len() {
        assert(events.take(i) =~= events);
    } else {
        lemma_hits_take_succ(events, i);
        lemma_hits_take_bound(events, i + 1);
    }
}

} // verus!
