//! The per-frame simulation update: collision-driven scoring and bookkeeping,
//! input-driven player movement, and spawn-timer ticking, in that fixed order.

use vstd::prelude::*;
use crate::events::{
    ArenaDims, CollisionEvent, CollisionState, EntityId, FrameOutput, InputSnapshot, event_hits,
    hit_count, hits, lemma_hits_take_bound, lemma_hits_take_succ,
};
use crate::sampling::{fresh_rng, sample_in_range};
use crate::state::{GameState, SPAWN_PERIOD_MS};
use crate::text::{high_score_text, high_score_text_spec, score_text, score_text_spec};
use crate::world::{
    Direction, Player, Target, World, contains_id, ids_below, ids_unique, lemma_remove_id_facts,
    remove_id, remove_ids,
};

verus! {

/// Movement speed: 200 distance-units per second, which is exactly
/// 200 milliunits per millisecond.
pub const MOVEMENT_SPEED: i64 = 200;

/// Horizontal offset of each score label's anchor from its arena corner,
/// in milliunits (100 units).
pub const LABEL_OFFSET_X: i64 = 100_000;

/// Vertical offset of each score label's anchor below the arena top,
/// in milliunits (50 units).
pub const LABEL_OFFSET_Y: i64 = 50_000;

/// How far below the arena top the spawn area ends, in milliunits (60 units).
pub const SPAWN_TOP_MARGIN: i64 = 60_000;

/// The high score after one more scoring collision: it is tied or exceeded
/// (or still at its zero start value) exactly when the new score reaches it,
/// and then takes the new score.
pub open spec fn high_step(high: nat, new_score: nat) -> nat {
    if high == 0 || high <= new_score {
        new_score
    } else {
        high
    }
}

/// The high score after a frame's collision events: unchanged when nothing
/// was hit, otherwise the larger of the old high score and the new score.
pub open spec fn collisions_high(high: nat, score: nat, events: Seq<CollisionEvent>) -> nat {
    if hit_count(events) == 0 {
        high
    } else if high <= score + hit_count(events) {
        (score + hit_count(events)) as nat
    } else {
        high
    }
}

/// Whether a frame's collision events rewrite the high-score label: some
/// collision scored and the old high score was tied or exceeded (a tie also
/// rewrites, so the label always mirrors a just-tied score).
pub open spec fn high_text_written(high: nat, score: nat, events: Seq<CollisionEvent>) -> bool {
    hit_count(events) >= 1 && high <= score + hit_count(events)
}

/// The player's facing after a frame: each held direction sets it in the
/// fixed order north, south, east, west, so the last held one wins.
pub open spec fn facing_after(f: Direction, input: InputSnapshot) -> Direction {
    if input.right {
        Direction::West
    } else if input.left {
        Direction::East
    } else if input.down {
        Direction::South
    } else if input.up {
        Direction::North
    } else {
        f
    }
}

/// The exact movement delta of a frame, in milliunits.
pub open spec fn move_delta(elapsed_ms: u64) -> int {
    MOVEMENT_SPEED * elapsed_ms
}

/// Process one scoring collision with the target of counter value `id`:
/// remove the target, increment the score, rewrite the score label, take
/// the high score when tied or exceeded, and request one hit sound.
fn apply_hit(state: &mut GameState, world: &mut World, out: &mut FrameOutput, id: i32)
    requires
        old(state).score < u32::MAX,
        old(out).hit_sounds < u32::MAX,
    ensures
        final(state).score == old(state).score + 1,
        final(state).high_score == high_step(
            old(state).high_score as nat,
            (old(state).score + 1) as nat,
        ),
        final(state).ferris_index == old(state).ferris_index,
        final(state).spawn_timer == old(state).spawn_timer,
        final(world).player == old(world).player,
        final(world).targets@ == remove_id(old(world).targets@, id),
        final(out).removed@ == old(out).removed@.push(id),
        final(out).hit_sounds == old(out).hit_sounds + 1,
        (final(out).score_text matches Some(v) && v@ == score_text_spec(
            (old(state).score + 1) as nat,
        )),
        old(state).high_score == 0 || old(state).high_score <= old(state).score + 1 ==> (final(out).high_text matches Some(v) && v@ == high_score_text_spec((old(state).score + 1) as nat)),
        !(old(state).high_score == 0 || old(state).high_score <= old(state).score + 1) ==> final(out).high_text == old(out).high_text,
        final(out).score_text_x == old(out).score_text_x,
        final(out).score_text_y == old(out).score_text_y,
        final(out).high_text_x == old(out).high_text_x,
        final(out).high_text_y == old(out).high_text_y,
        final(out).spawned == old(out).spawned,
{
    world.remove_target(id);
    state.score = state.score + 1;
    out.removed.push(id);
    out.score_text = Some(score_text(state.score));
    if state.high_score == 0 || state.high_score <= state.score {
        state.high_score = state.score;
        out.high_text = Some(high_score_text(state.high_score));
    }
    out.hit_sounds = out.hit_sounds + 1;
}

/// Drain the frame's collision events in order. For every begun overlap
/// with the player as one member, the non-player member is removed and
/// scored independently: the score rises by exactly the number of such
/// events, with no deduplication and no atomicity across events.
fn handle_collisions(
    state: &mut GameState,
    world: &mut World,
    events: &Vec<CollisionEvent>,
    out: &mut FrameOutput,
)
    requires
        old(state).score + hit_count(events@) <= u32::MAX,
        old(out).removed@ == Seq::<i32>::empty(),
        old(out).hit_sounds == 0,
        old(out).score_text is None,
        old(out).high_text is None,
    ensures
        final(state).score == old(state).score + hit_count(events@),
        final(state).high_score == collisions_high(
            old(state).high_score as nat,
            old(state).score as nat,
            events@,
        ),
        final(state).ferris_index == old(state).ferris_index,
        final(state).spawn_timer == old(state).spawn_timer,
        final(world).player == old(world).player,
        final(world).targets@ == remove_ids(old(world).targets@, hits(events@)),
        final(out).removed@ == hits(events@),
        final(out).hit_sounds == hit_count(events@),
        hit_count(events@) == 0 ==> final(out).score_text is None,
        hit_count(events@) >= 1 ==> (final(out).score_text matches Some(v) && v@
            == score_text_spec((old(state).score + hit_count(events@)) as nat)),
        high_text_written(old(state).high_score as nat, old(state).score as nat, events@) ==> (
        final(out).high_text matches Some(v) && v@ == high_score_text_spec(
            (old(state).score + hit_count(events@)) as nat,
        )),
        !high_text_written(old(state).high_score as nat, old(state).score as nat, events@)
            ==> final(out).high_text is None,
        final(out).score_text_x == old(out).score_text_x,
        final(out).score_text_y == old(out).score_text_y,
        final(out).high_text_x == old(out).high_text_x,
        final(out).high_text_y == old(out).high_text_y,
        final(out).spawned == old(out).spawned,
{
    let n: usize = events.len();
    let mut i: usize = 0;
    while i < n
        invariant
            n == events@.len(),
            0 <= i <= n,
            old(state).score + hit_count(events@) <= u32::MAX,
            state.score == old(state).score + hit_count(events@.take(i as int)),
            state.high_score == collisions_high(
                old(state).high_score as nat,
                old(state).score as nat,
                events@.take(i as int),
            ),
            state.ferris_index == old(state).ferris_index,
            state.spawn_timer == old(state).spawn_timer,
            world.player == old(world).player,
            world.targets@ == remove_ids(old(world).targets@, hits(events@.take(i as int))),
            out.removed@ == hits(events@.take(i as int)),
            out.hit_sounds == hit_count(events@.take(i as int)),
            hit_count(events@.take(i as int)) == 0 ==> out.score_text is None,
            hit_count(events@.take(i as int)) >= 1 ==> (out.score_text matches Some(v) && v@
                == score_text_spec(
                (old(state).score + hit_count(events@.take(i as int))) as nat,
            )),
            high_text_written(
                old(state).high_score as nat,
                old(state).score as nat,
                events@.take(i as int),
            ) ==> (out.high_text matches Some(v) && v@ == high_score_text_spec(
                (old(state).score + hit_count(events@.take(i as int))) as nat,
            )),
            !high_text_written(
                old(state).high_score as nat,
                old(state).score as nat,
                events@.take(i as int),
            ) ==> out.high_text is None,
            out.score_text_x == old(out).score_text_x,
            out.score_text_y == old(out).score_text_y,
            out.high_text_x == old(out).high_text_x,
            out.high_text_y == old(out).high_text_y,
            out.spawned == old(out).spawned,
        decreases n - i,
    {
        let e = events[i];
        proof {
            lemma_hits_take_succ(events@, i as int);
            lemma_hits_take_bound(events@, i as int + 1);
        }
        if e.state == CollisionState::Begin && (e.first == EntityId::Player || e.second
            == EntityId::Player) {
            if let EntityId::Target(tid) = e.first {
                proof {
                    assert(event_hits(e) =~= seq![tid]);
                    assert(hits(events@.take(i as int + 1)) =~= hits(
                        events@.take(i as int),
                    ).push(tid));
                    assert(hits(events@.take(i as int + 1)).drop_last() =~= hits(
                        events@.take(i as int),
                    ));
                }
                apply_hit(state, world, out, tid);
            }
            if let EntityId::Target(tid) = e.second {
                proof {
                    assert(event_hits(e) =~= seq![tid]);
                    assert(hits(events@.take(i as int + 1)) =~= hits(
                        events@.take(i as int),
                    ).push(tid));
                    assert(hits(events@.take(i as int + 1)).drop_last() =~= hits(
                        events@.take(i as int),
                    ));
                }
                apply_hit(state, world, out, tid);
            }
        } else {
            proof {
                assert(event_hits(e) =~= Seq::<i32>::empty());
                assert(hits(events@.take(i as int + 1)) =~= hits(events@.take(i as int)));
            }
        }
        i = i + 1;
    }
    proof {
        assert(events@.take(n as int) =~= events@);
    }
}

/// Translate the player along each held direction's axis by exactly
/// speed times elapsed time, each held direction independently (diagonals
/// are unnormalised; opposing keys cancel only because the deltas are equal
/// and opposite), and turn the player to face the matching direction.
fn move_player(p: &mut Player, input: &InputSnapshot, elapsed_ms: u64)
    requires
        move_delta(elapsed_ms) <= i64::MAX,
        input.up ==> old(p).y + move_delta(elapsed_ms) <= i64::MAX,
        input.down && !input.up ==> old(p).y - move_delta(elapsed_ms) >= i64::MIN,
        input.left ==> old(p).x + move_delta(elapsed_ms) <= i64::MAX,
        input.right && !input.left ==> old(p).x - move_delta(elapsed_ms) >= i64::MIN,
    ensures
        final(p).y == old(p).y + (if input.up {
            move_delta(elapsed_ms)
        } else {
            0
        }) - (if input.down {
            move_delta(elapsed_ms)
        } else {
            0
        }),
        final(p).x == old(p).x + (if input.left {
            move_delta(elapsed_ms)
        } else {
            0
        }) - (if input.right {
            move_delta(elapsed_ms)
        } else {
            0
        }),
        final(p).facing == facing_after(old(p).facing, *input),
{
    let delta: i64 = MOVEMENT_SPEED * (elapsed_ms as i64);
    if input.up {
        p.y = p.y + delta;
        p.facing = Direction::North;
    }
    if input.down {
        p.y = p.y - delta;
        p.facing = Direction::South;
    }
    if input.left {
        p.x = p.x + delta;
        p.facing = Direction::East;
    }
    if input.right {
        p.x = p.x - delta;
        p.facing = Direction::West;
    }
}

/// Advance the spawn timer; when it fires, create one target with a fresh
/// name derived from the spawn counter (then incremented) and a position
/// sampled uniformly within the arena bounds, collision enabled.
fn spawn_step(
    state: &mut GameState,
    world: &mut World,
    arena: ArenaDims,
    elapsed_ms: u64,
    out: &mut FrameOutput,
)
    requires
        old(state).wf(),
        old(world).wf(old(state).ferris_index as int),
        old(state).spawn_timer.acc_ms + elapsed_ms <= u64::MAX,
        old(state).spawn_timer.fires_after(elapsed_ms) ==> old(state).ferris_index < i32::MAX
            && arena.half_width >= 1 && arena.half_height >= 30_001,
        old(out).spawned is None,
    ensures
        final(state).score == old(state).score,
        final(state).high_score == old(state).high_score,
        final(state).wf(),
        final(world).wf(final(state).ferris_index as int),
        final(state).spawn_timer.period_ms == SPAWN_PERIOD_MS,
        final(state).spawn_timer.acc_ms == old(state).spawn_timer.acc_ms + elapsed_ms - (if old(state).spawn_timer.fires_after(elapsed_ms) {
            SPAWN_PERIOD_MS as int
        } else {
            0
        }),
        final(world).player == old(world).player,
        old(state).spawn_timer.fires_after(elapsed_ms) ==> final(state).ferris_index == old(state).ferris_index + 1 && (final(out).spawned matches Some(t) && t.id == old(state).ferris_index && -arena.half_width <= t.x < arena.half_width && -arena.half_height <= t.y
            < arena.half_height - SPAWN_TOP_MARGIN && !contains_id(old(world).targets@, t.id)
            && final(world).targets@ == old(world).targets@.push(t)),
        !old(state).spawn_timer.fires_after(elapsed_ms) ==> final(state).ferris_index == old(state).ferris_index && final(out).spawned is None && final(world).targets@ == old(world).targets@,
        final(out).removed@ == old(out).removed@,
        final(out).hit_sounds == old(out).hit_sounds,
        final(out).score_text == old(out).score_text,
        final(out).high_text == old(out).high_text,
        final(out).score_text_x == old(out).score_text_x,
        final(out).score_text_y == old(out).score_text_y,
        final(out).high_text_x == old(out).high_text_x,
        final(out).high_text_y == old(out).high_text_y,
{
    let fired = state.spawn_timer.tick(elapsed_ms);
    if fired {
        let id = state.ferris_index;
        state.ferris_index = state.ferris_index + 1;
        let mut rng = fresh_rng();
        let x = sample_in_range(&mut rng, -arena.half_width, arena.half_width);
        let y = sample_in_range(&mut rng, -arena.half_height, arena.half_height - SPAWN_TOP_MARGIN);
        let t = Target { id, x, y };
        proof {
            let s0 = old(world).targets@;
            assert forall|k: int| 0 <= k < s0.len() implies s0[k].id != t.id by {
                assert(0 <= s0[k].id < old(state).ferris_index);
            }
            assert(!contains_id(s0, t.id));
            assert(ids_unique(s0.push(t)));
            assert(ids_below(s0.push(t), old(state).ferris_index + 1));
        }
        world.add_target(t);
        out.spawned = Some(t);
    }
}

/// One frame of the game: re-anchor the score labels to the arena's top
/// corners, resolve the frame's collision events, apply the edge-triggered
/// score reset, move the player by the held directions, and tick the spawn
/// timer — in that fixed order. Mutates the game state and the registry
/// model, and returns the side-effect requests for the host to apply.
pub fn game_logic(
    state: &mut GameState,
    world: &mut World,
    input: &InputSnapshot,
    events: &Vec<CollisionEvent>,
    arena: ArenaDims,
    elapsed_ms: u64,
) -> (out: FrameOutput)
    requires
        old(state).wf(),
        old(world).wf(old(state).ferris_index as int),
        arena.half_width >= 0,
        arena.half_height >= 0,
        old(state).score + hit_count(events@) <= u32::MAX,
        old(state).spawn_timer.acc_ms + elapsed_ms <= u64::MAX,
        move_delta(elapsed_ms) <= i64::MAX,
        input.up ==> old(world).player.y + move_delta(elapsed_ms) <= i64::MAX,
        input.down && !input.up ==> old(world).player.y - move_delta(elapsed_ms) >= i64::MIN,
        input.left ==> old(world).player.x + move_delta(elapsed_ms) <= i64::MAX,
        input.right && !input.left ==> old(world).player.x - move_delta(elapsed_ms) >= i64::MIN,
        old(state).spawn_timer.fires_after(elapsed_ms) ==> old(state).ferris_index < i32::MAX
            && arena.half_width >= 1 && arena.half_height >= 30_001,
    ensures
        final(state).wf(),
        final(world).wf(final(state).ferris_index as int),
        // Scoring: plus one per qualifying collision, then the edge-triggered reset.
        final(state).score == (if input.reset_just_pressed {
            0int
        } else {
            old(state).score + hit_count(events@)
        }),
        // The high score is tied-or-exceeded bookkeeping only; never reset.
        final(state).high_score == collisions_high(
            old(state).high_score as nat,
            old(state).score as nat,
            events@,
        ),
        final(state).high_score >= old(state).high_score,
        final(state).high_score >= final(state).score,
        // Spawn timer: fires exactly when a full period has accumulated,
        // consumes one period, and stays armed.
        final(state).spawn_timer.period_ms == SPAWN_PERIOD_MS,
        final(state).spawn_timer.acc_ms == old(state).spawn_timer.acc_ms + elapsed_ms - (if old(state).spawn_timer.fires_after(elapsed_ms) {
            SPAWN_PERIOD_MS as int
        } else {
            0
        }),
        // Movement: an exact delta per held direction, no clamping.
        final(world).player.y == old(world).player.y + (if input.up {
            move_delta(elapsed_ms)
        } else {
            0
        }) - (if input.down {
            move_delta(elapsed_ms)
        } else {
            0
        }),
        final(world).player.x == old(world).player.x + (if input.left {
            move_delta(elapsed_ms)
        } else {
            0
        }) - (if input.right {
            move_delta(elapsed_ms)
        } else {
            0
        }),
        final(world).player.facing == facing_after(old(world).player.facing, *input),
        // Registry: collided targets removed in event order, then the
        // spawned target appended.
        old(state).spawn_timer.fires_after(elapsed_ms) ==> final(state).ferris_index == old(state).ferris_index + 1 && (out.spawned matches Some(t) && t.id == old(state).ferris_index
            && -arena.half_width <= t.x < arena.half_width && -arena.half_height <= t.y
            < arena.half_height - SPAWN_TOP_MARGIN && !contains_id(old(world).targets@, t.id)
            && final(world).targets@ == remove_ids(old(world).targets@, hits(events@)).push(t)),
        !old(state).spawn_timer.fires_after(elapsed_ms) ==> final(state).ferris_index == old(state).ferris_index && out.spawned is None && final(world).targets@ == remove_ids(
            old(world).targets@,
            hits(events@),
        ),
        // Side-effect requests.
        out.removed@ == hits(events@),
        out.hit_sounds == hit_count(events@),
        out.score_text_x == arena.half_width - LABEL_OFFSET_X,
        out.score_text_y == arena.half_height - LABEL_OFFSET_Y,
        out.high_text_x == -arena.half_width + LABEL_OFFSET_X,
        out.high_text_y == arena.half_height - LABEL_OFFSET_Y,
        // The score label mirrors the score whenever it changed; a reset
        // rewrites it to the zero-score text.
        input.reset_just_pressed ==> (out.score_text matches Some(v) && v@ == score_text_spec(0)),
        !input.reset_just_pressed && hit_count(events@) >= 1 ==> (out.score_text matches Some(v)
            && v@ == score_text_spec((old(state).score + hit_count(events@)) as nat)),
        !input.reset_just_pressed && hit_count(events@) == 0 ==> out.score_text is None,
        // The high-score label is rewritten exactly when tied or exceeded.
        high_text_written(old(state).high_score as nat, old(state).score as nat, events@) ==> (
        out.high_text matches Some(v) && v@ == high_score_text_spec(
            (old(state).score + hit_count(events@)) as nat,
        )),
        !high_text_written(old(state).high_score as nat, old(state).score as nat, events@)
            ==> out.high_text is None,
{
    let mut out = FrameOutput {
        score_text_x: arena.half_width - LABEL_OFFSET_X,
        score_text_y: arena.half_height - LABEL_OFFSET_Y,
        high_text_x: -arena.half_width + LABEL_OFFSET_X,
        high_text_y: arena.half_height - LABEL_OFFSET_Y,
        removed: Vec::new(),
        hit_sounds: 0,
        score_text: None,
        high_text: None,
        spawned: None,
    };
    handle_collisions(state, world, events, &mut out);
    if input.reset_just_pressed {
        state.score = 0;
        out.score_text = Some(score_text(0));
    }
    move_player(&mut world.player, input, elapsed_ms);
    proof {
        lemma_remove_ids_facts(old(world).targets@, hits(events@));
    }
    spawn_step(state, world, arena, elapsed_ms, &mut out);
    out
}

/// The high score never decreases across a frame's collision bookkeeping,
/// and — as long as it bounded the score going in, which well-formedness
/// guarantees — it still bounds the score coming out. Since the reset
/// leaves it untouched, the high score stays at or above every score the
/// game has ever shown.
pub proof fn lemma_high_score_monotone(high: nat, score: nat, events: Seq<CollisionEvent>)
    ensures
        collisions_high(high, score, events) >= high,
        score <= high ==> collisions_high(high, score, events) >= score + hit_count(events),
{
}

/// Removal by counter values preserves well-formedness of the registry:
/// the survivors all stood in it before, stay unique, and stay below any
/// bound the whole registry was below.
pub proof fn lemma_remove_ids_facts(s: Seq<Target>, ids: Seq<i32>)
    ensures
        forall|i: int|
            0 <= i < remove_ids(s, ids).len() ==> s.contains(#[trigger] remove_ids(s, ids)[i]),
        ids_unique(s) ==> ids_unique(remove_ids(s, ids)),
        forall|b: int| ids_below(s, b) ==> ids_below(remove_ids(s, ids), b),
    decreases ids.len(),
{
    if ids.len() == 0 {
        assert forall|i: int| 0 <= i < remove_ids(s, ids).len() implies s.contains(
            #[trigger] remove_ids(s, ids)[i],
        ) by {
            assert(remove_ids(s, ids) == s);
        }
    } else {
        let prev = remove_ids(s, ids.drop_last());
        lemma_remove_ids_facts(s, ids.drop_last());
        lemma_remove_id_facts(prev, ids.last());
        assert forall|i: int| 0 <= i < remove_ids(s, ids).len() implies s.contains(
            #[trigger] remove_ids(s, ids)[i],
        ) by {
            assert(prev.contains(remove_ids(s, ids)[i]));
            let k = choose|k: int| 0 <= k < prev.len() && prev[k] == remove_ids(s, ids)[i];
            assert(s.contains(prev[k]));
        }
        assert forall|b: int| ids_below(s, b) implies ids_below(remove_ids(s, ids), b) by {
            assert(ids_below(prev, b));
            assert forall|i: int| 0 <= i < remove_ids(s, ids).len() implies 0 <= #[trigger] remove_ids(
                s,
                ids,
            )[i].id < b by {
                assert(prev.contains(remove_ids(s, ids)[i]));
                let k = choose|k: int| 0 <= k < prev.len() && prev[k] == remove_ids(s, ids)[i];
                assert(0 <= prev[k].id < b);
            }
        }
    }
}

} // verus!

