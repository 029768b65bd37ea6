use rusty_game::events::{ArenaDims, CollisionEvent, CollisionState, EntityId, InputSnapshot};
use rusty_game::state::GameState;
use rusty_game::text::{high_score_text, score_text, target_name};
use rusty_game::timer::Timer;
use rusty_game::update::game_logic;
use rusty_game::world::{Direction, Target, World};

fn chars_to_string(v: &[char]) -> String {
    v.iter().collect()
}

fn opt_text(o: &Option<Vec<char>>) -> Option<String> {
    o.as_ref().map(|v| chars_to_string(v))
}

fn fresh_state() -> GameState {
    GameState {
        high_score: 0,
        score: 0,
        ferris_index: 0,
        spawn_timer: Timer::new(1000),
    }
}

fn wide_arena() -> ArenaDims {
    ArenaDims { half_width: 640_000, half_height: 360_000 }
}

fn begin(a: EntityId, b: EntityId) -> CollisionEvent {
    CollisionEvent { state: CollisionState::Begin, first: a, second: b }
}

#[test]
fn default_state_is_all_zero() {
    let s = GameState::default();
    assert_eq!(s.score, 0);
    assert_eq!(s.high_score, 0);
    assert_eq!(s.ferris_index, 0);
    assert_eq!(s.spawn_timer.acc_ms, 0);
    assert_eq!(s.spawn_timer.period_ms, 1000);
}

#[test]
fn timer_fires_once_per_period_and_rearms() {
    let mut t = Timer::new(1000);
    assert!(!t.tick(400));
    assert!(!t.tick(400));
    assert!(t.tick(300));
    assert_eq!(t.acc_ms, 100);
    assert!(t.tick(900));
    assert_eq!(t.acc_ms, 0);
}

#[test]
fn text_rendering_is_exact() {
    assert_eq!(chars_to_string(&score_text(0)), "Score: 0");
    assert_eq!(chars_to_string(&score_text(1)), "Score: 1");
    assert_eq!(chars_to_string(&score_text(12345)), "Score: 12345");
    assert_eq!(chars_to_string(&score_text(u32::MAX)), "Score: 4294967295");
    assert_eq!(chars_to_string(&high_score_text(10)), "High Score: 10");
    assert_eq!(chars_to_string(&target_name(0)), "ferris0");
    assert_eq!(chars_to_string(&target_name(7)), "ferris7");
    assert_eq!(chars_to_string(&target_name(1_000_000)), "ferris1000000");
}

#[test]
fn score_counts_every_player_collision() {
    let mut state = fresh_state();
    state.ferris_index = 3;
    let mut world = World::new();
    world.add_target(Target { id: 0, x: 1_000, y: 2_000 });
    world.add_target(Target { id: 1, x: -5_000, y: 0 });
    world.add_target(Target { id: 2, x: 0, y: 0 });
    let events = vec![
        begin(EntityId::Player, EntityId::Target(0)),
        // an overlap that only ended does not count
        CollisionEvent {
            state: CollisionState::End,
            first: EntityId::Player,
            second: EntityId::Target(2),
        },
        // pair order is irrelevant
        begin(EntityId::Target(1), EntityId::Player),
        // an overlap not involving the player does not count
        begin(EntityId::Target(2), EntityId::Target(2)),
    ];
    let out = game_logic(&mut state, &mut world, &InputSnapshot::idle(), &events, wide_arena(), 0);
    assert_eq!(state.score, 2);
    assert_eq!(state.high_score, 2);
    assert_eq!(out.removed, vec![0, 1]);
    assert_eq!(out.hit_sounds, 2);
    assert!(world.has_target(2));
    assert!(!world.has_target(0));
    assert!(!world.has_target(1));
}

#[test]
fn reset_zeroes_score_but_not_high_score() {
    let mut state = fresh_state();
    state.score = 5;
    state.high_score = 7;
    let mut world = World::new();
    let input = InputSnapshot { reset_just_pressed: true, ..InputSnapshot::idle() };
    let out = game_logic(&mut state, &mut world, &input, &Vec::new(), wide_arena(), 0);
    assert_eq!(state.score, 0);
    assert_eq!(state.high_score, 7);
    assert_eq!(opt_text(&out.score_text), Some("Score: 0".to_string()));
    assert_eq!(opt_text(&out.high_text), None);
}

#[test]
fn movement_delta_is_exactly_speed_times_elapsed() {
    let mut state = fresh_state();
    let mut world = World::new();
    let input = InputSnapshot { up: true, ..InputSnapshot::idle() };
    // 250 ms at 200 units/s is exactly 50 units, i.e. 50_000 milliunits.
    game_logic(&mut state, &mut world, &input, &Vec::new(), wide_arena(), 250);
    assert_eq!(world.player.y, 50_000);
    assert_eq!(world.player.x, 0);
    assert_eq!(world.player.facing, Direction::North);
}

#[test]
fn opposing_keys_apply_two_independent_deltas() {
    let mut state = fresh_state();
    let mut world = World::new();
    world.player.y = 123;
    let input = InputSnapshot { up: true, down: true, ..InputSnapshot::idle() };
    game_logic(&mut state, &mut world, &input, &Vec::new(), wide_arena(), 250);
    // net zero only because the two deltas are equal and opposite
    assert_eq!(world.player.y, 123);
    assert_eq!(world.player.facing, Direction::South);
}

#[test]
fn diagonal_movement_is_unnormalised() {
    let mut state = fresh_state();
    let mut world = World::new();
    let input = InputSnapshot { up: true, left: true, ..InputSnapshot::idle() };
    game_logic(&mut state, &mut world, &input, &Vec::new(), wide_arena(), 100);
    assert_eq!(world.player.y, 20_000);
    assert_eq!(world.player.x, 20_000);
    assert_eq!(world.player.facing, Direction::East);
}

#[test]
fn spawn_fires_after_a_full_period_and_consumes_it() {
    let mut state = fresh_state();
    let mut world = World::new();
    let idle = InputSnapshot::idle();
    // 600 + 399 < 1000: nothing spawns yet
    let out = game_logic(&mut state, &mut world, &idle, &Vec::new(), wide_arena(), 600);
    assert!(out.spawned.is_none());
    let out = game_logic(&mut state, &mut world, &idle, &Vec::new(), wide_arena(), 399);
    assert!(out.spawned.is_none());
    assert_eq!(state.ferris_index, 0);
    assert_eq!(world.targets.len(), 0);
    // one more millisecond accumulates a full period: exactly one target
    let out = game_logic(&mut state, &mut world, &idle, &Vec::new(), wide_arena(), 1);
    let t = out.spawned.expect("the timer fired");
    assert_eq!(t.id, 0);
    assert_eq!(state.ferris_index, 1);
    assert_eq!(state.spawn_timer.acc_ms, 0);
    assert_eq!(world.targets.len(), 1);
    assert!(world.has_target(0));
    let a = wide_arena();
    assert!(-a.half_width <= t.x && t.x < a.half_width);
    assert!(-a.half_height <= t.y && t.y < a.half_height - 60_000);
}

#[test]
fn spawned_names_are_never_reused() {
    let mut state = fresh_state();
    let mut world = World::new();
    let idle = InputSnapshot::idle();
    let out = game_logic(&mut state, &mut world, &idle, &Vec::new(), wide_arena(), 1000);
    let first = out.spawned.expect("spawned").id;
    // collect the first target, so its name falls out of the registry
    let events = vec![begin(EntityId::Player, EntityId::Target(first))];
    game_logic(&mut state, &mut world, &idle, &events, wide_arena(), 0);
    assert!(!world.has_target(first));
    let out = game_logic(&mut state, &mut world, &idle, &Vec::new(), wide_arena(), 1000);
    let second = out.spawned.expect("spawned").id;
    assert_ne!(first, second);
    assert_eq!(second, 1);
}

#[test]
fn spawn_position_respects_tight_bounds() {
    // the tightest arena the update accepts: x in {-1, 0}, y in {-30001, -30000}
    let arena = ArenaDims { half_width: 1, half_height: 30_001 };
    let idle = InputSnapshot::idle();
    for _ in 0..50 {
        let mut state = fresh_state();
        let mut world = World::new();
        let out = game_logic(&mut state, &mut world, &idle, &Vec::new(), arena, 1000);
        let t = out.spawned.expect("spawned");
        assert!(-1 <= t.x && t.x < 1);
        assert!(-30_001 <= t.y && t.y < -29_999);
    }
}

#[test]
fn removing_a_target_twice_is_a_no_op() {
    let mut world = World::new();
    world.add_target(Target { id: 3, x: 10, y: 20 });
    world.add_target(Target { id: 4, x: 30, y: 40 });
    world.remove_target(3);
    assert_eq!(world.targets.len(), 1);
    world.remove_target(3);
    assert_eq!(world.targets.len(), 1);
    assert!(world.has_target(4));
    assert!(!world.has_target(3));
    // removing a name that never existed is also tolerated
    world.remove_target(99);
    assert_eq!(world.targets.len(), 1);
}

#[test]
fn stale_event_for_an_already_removed_target_is_harmless() {
    let mut state = fresh_state();
    state.ferris_index = 8;
    let mut world = World::new();
    world.add_target(Target { id: 7, x: 0, y: 0 });
    // the same pair reported twice in one frame: the second removal is a
    // no-op, but each event still scores independently
    let events = vec![
        begin(EntityId::Player, EntityId::Target(7)),
        begin(EntityId::Player, EntityId::Target(7)),
    ];
    game_logic(&mut state, &mut world, &InputSnapshot::idle(), &events, wide_arena(), 0);
    assert_eq!(state.score, 2);
    assert_eq!(world.targets.len(), 0);
}

#[test]
fn tie_with_high_score_rewrites_the_label() {
    let mut state = fresh_state();
    state.score = 4;
    state.high_score = 5;
    let mut world = World::new();
    world.add_target(Target { id: 0, x: 0, y: 0 });
    let events = vec![begin(EntityId::Player, EntityId::Target(0))];
    let out = game_logic(&mut state, &mut world, &InputSnapshot::idle(), &events, wide_arena(), 0);
    assert_eq!(state.score, 5);
    assert_eq!(state.high_score, 5);
    assert_eq!(opt_text(&out.high_text), Some("High Score: 5".to_string()));
}

#[test]
fn lower_score_leaves_high_score_label_alone() {
    let mut state = fresh_state();
    state.score = 1;
    state.high_score = 5;
    let mut world = World::new();
    world.add_target(Target { id: 0, x: 0, y: 0 });
    let events = vec![begin(EntityId::Player, EntityId::Target(0))];
    let out = game_logic(&mut state, &mut world, &InputSnapshot::idle(), &events, wide_arena(), 0);
    assert_eq!(state.score, 2);
    assert_eq!(state.high_score, 5);
    assert_eq!(opt_text(&out.high_text), None);
    assert_eq!(opt_text(&out.score_text), Some("Score: 2".to_string()));
}

#[test]
fn high_score_never_drops_below_observed_scores() {
    let mut state = fresh_state();
    let mut world = World::new();
    let idle = InputSnapshot::idle();
    let reset = InputSnapshot { reset_just_pressed: true, ..InputSnapshot::idle() };
    let mut observed_high = 0;
    for round in 0..5 {
        world.add_target(Target { id: round, x: 0, y: 0 });
        state.ferris_index = round + 1;
        let events = vec![begin(EntityId::Player, EntityId::Target(round))];
        game_logic(&mut state, &mut world, &idle, &events, wide_arena(), 0);
        assert!(state.high_score >= state.score);
        assert!(state.high_score >= observed_high);
        observed_high = state.high_score;
        if round == 2 {
            game_logic(&mut state, &mut world, &reset, &Vec::new(), wide_arena(), 0);
            assert_eq!(state.score, 0);
            assert_eq!(state.high_score, observed_high);
        }
    }
    assert_eq!(state.high_score, 3);
    assert_eq!(state.score, 2);
}

#[test]
fn labels_anchor_to_the_arena_corners_each_frame() {
    let mut state = fresh_state();
    let mut world = World::new();
    let arena = ArenaDims { half_width: 400_000, half_height: 300_000 };
    let out = game_logic(&mut state, &mut world, &InputSnapshot::idle(), &Vec::new(), arena, 0);
    assert_eq!(out.score_text_x, 300_000);
    assert_eq!(out.score_text_y, 250_000);
    assert_eq!(out.high_text_x, -300_000);
    assert_eq!(out.high_text_y, 250_000);
}

#[test]
fn idle_frame_emits_nothing() {
    let mut state = fresh_state();
    let mut world = World::new();
    let out = game_logic(&mut state, &mut world, &InputSnapshot::idle(), &Vec::new(), wide_arena(), 0);
    assert!(out.removed.is_empty());
    assert_eq!(out.hit_sounds, 0);
    assert!(out.score_text.is_none());
    assert!(out.high_text.is_none());
    assert!(out.spawned.is_none());
}

#[test]
fn end_to_end_single_collision() {
    let mut state = fresh_state();
    state.ferris_index = 8;
    let mut world = World::new();
    world.add_target(Target { id: 7, x: 100, y: 200 });
    let events = vec![begin(EntityId::Player, EntityId::Target(7))];
    let out = game_logic(&mut state, &mut world, &InputSnapshot::idle(), &events, wide_arena(), 0);
    assert!(!world.has_target(7));
    assert_eq!(state.score, 1);
    assert_eq!(state.high_score, 1);
    assert_eq!(opt_text(&out.score_text), Some("Score: 1".to_string()));
    assert_eq!(opt_text(&out.high_text), Some("High Score: 1".to_string()));
    assert_eq!(out.hit_sounds, 1);
    assert_eq!(out.removed, vec![7]);
}
