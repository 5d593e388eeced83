use moonracer::events::Thruster;
use moonracer::game_status::{
    check_goal, handle_input, move_ship, setup, update_ghost, GameStatus, GoalMarker, InputSignals,
};
use moonracer::geom::{Vec2, Vec3};
use moonracer::highscore::HighscoreTable;
use moonracer::level::{initial_ship_pos, Level, Rectangle, Screen};
use moonracer::resources::{GameResources, GhostRun};
use moonracer::ship::{ShipState, Velocity};
use moonracer::sim::compute_ghost;
use moonracer::wall::WallPosition;

fn v2(x: i64, y: i64) -> Vec2 {
    Vec2 { x, y }
}

fn v3(x: i64, y: i64, z: i64) -> Vec3 {
    Vec3 { x, y, z }
}

fn keys(left: bool, right: bool, up: bool, down: bool) -> InputSignals {
    InputSignals { left, right, up, down }
}

fn no_keys() -> InputSignals {
    keys(false, false, false, false)
}

/// A small level: one left wall, a pad near the bottom, two goals.
fn test_level() -> Level {
    Level {
        name: String::from("proving-ground"),
        walls: vec![Rectangle { top_left: v2(0, 0), size: v2(5000, 60000) }],
        pad: Rectangle { top_left: v2(37000, 54500), size: v2(6000, 500) },
        goals: vec![v2(40000, 8000), v2(10000, 16000)],
    }
}

/// A context that just lifted off: flying, nothing recorded yet.
fn flying_context() -> GameResources {
    let mut state = GameResources::default();
    state.status = GameStatus::Flying;
    state
}

#[test]
fn default_context_is_fresh() {
    let state = GameResources::default();
    assert_eq!(state.status, GameStatus::Waiting);
    assert_eq!(state.frame_count, 0);
    assert_eq!(state.score, 0);
    assert!(state.thrust_history.is_empty());
    assert!(state.best_ghost.is_none());
    assert!(!state.made_highscore);
    assert_eq!(state.prev_score(0), usize::MAX);
}

#[test]
fn input_maps_to_unit_thrust() {
    let mut state = flying_context();
    handle_input(&mut state, keys(false, true, false, false));
    assert_eq!((state.thrust.x, state.thrust.y), (1, 0));
    handle_input(&mut state, keys(true, false, false, true));
    assert_eq!((state.thrust.x, state.thrust.y), (-1, -1));
    handle_input(&mut state, keys(false, false, true, false));
    assert_eq!((state.thrust.x, state.thrust.y), (0, 1));
    // Opposite directions together: right wins, up wins.
    handle_input(&mut state, keys(true, true, true, true));
    assert_eq!((state.thrust.x, state.thrust.y), (1, 1));
}

#[test]
fn thruster_events_are_edge_triggered() {
    let mut state = flying_context();
    assert_eq!(handle_input(&mut state, keys(false, true, false, false)), Some(Thruster::Firing));
    // Held thrust: no new event, even when the direction changes.
    assert_eq!(handle_input(&mut state, keys(false, true, true, false)), None);
    assert_eq!(handle_input(&mut state, no_keys()), Some(Thruster::Stopped));
    assert_eq!(handle_input(&mut state, no_keys()), None);
}

#[test]
fn liftoff_resets_frame_count_to_zero() {
    let mut state = GameResources::default();
    let level = test_level();
    let screen = Screen::default();
    setup(&mut state, &level, &screen);
    assert_eq!(state.status, GameStatus::Idling);
    // Idle ticks deliver no thrust and do not count.
    handle_input(&mut state, no_keys());
    assert_eq!(state.status, GameStatus::Idling);
    // The exact tick thrust first becomes non-zero is frame zero.
    handle_input(&mut state, keys(false, false, true, false));
    assert_eq!(state.status, GameStatus::Flying);
    assert_eq!(state.frame_count, 0);
    assert!(state.thrust_history.is_empty());
}

#[test]
fn idle_ticks_do_not_enter_thrust_history() {
    let mut state = GameResources::default();
    let level = test_level();
    let screen = Screen::default();
    let mut ship = setup(&mut state, &level, &screen);
    for _ in 0..5 {
        handle_input(&mut state, no_keys());
    }
    assert!(state.thrust_history.is_empty());
    handle_input(&mut state, keys(false, true, false, false));
    let walls: Vec<WallPosition> = vec![];
    for _ in 0..3 {
        move_ship(&mut state, &mut ship, &walls);
    }
    // Only the three flying ticks are recorded.
    assert_eq!(state.frame_count, 3);
    assert_eq!(state.thrust_history, vec![v2(1, 0); 3]);
}

#[test]
fn move_ship_integrates_and_counts() {
    let mut state = flying_context();
    state.thrust = v2(1, 0);
    let mut ship = ShipState { velocity: Velocity(v2(0, 0)), position: v3(0, 0, 0) };
    let walls: Vec<WallPosition> = vec![];
    move_ship(&mut state, &mut ship, &walls);
    assert_eq!((ship.position.x, ship.position.y), (9, -10));
    assert_eq!(ship.velocity.0.x, 9);
    assert_eq!(state.frame_count, 1);
    assert_eq!(state.thrust_history, vec![v2(1, 0)]);
}

#[test]
fn ghost_is_shown_while_its_recording_lasts() {
    let mut state = flying_context();
    state.best_ghost = Some(GhostRun {
        score: 1,
        frame_count: 2,
        positions: vec![v3(5, 6, 0), v3(7, 8, 0)],
    });
    let mut ship = ShipState { velocity: Velocity(v2(0, 0)), position: v3(0, 0, 0) };
    let walls: Vec<WallPosition> = vec![];
    assert_eq!(move_ship(&mut state, &mut ship, &walls), Some(v3(5, 6, 0)));
    assert_eq!(move_ship(&mut state, &mut ship, &walls), Some(v3(7, 8, 0)));
    // The live run outlasts the recording: no ghost to show.
    assert_eq!(move_ship(&mut state, &mut ship, &walls), None);
}

#[test]
fn score_advances_through_goals_in_order() {
    let mut state = flying_context();
    state.goals = vec![v2(0, 1834), v2(-500, 600)];
    // Away from the first goal: nothing changes.
    let miss = check_goal(&mut state, v2(4000, 0));
    assert_eq!(state.score, 0);
    assert_eq!(miss.goal_marker, GoalMarker::Unchanged);
    assert!(!miss.completed && miss.new_highscore.is_none() && !miss.pad_armed);
    // Touch the first goal: the marker moves to the second.
    let first = check_goal(&mut state, v2(10, 1900));
    assert_eq!(state.score, 1);
    assert_eq!(first.goal_marker, GoalMarker::MoveTo(v2(-500, 600)));
    assert!(!first.pad_armed && !first.completed);
    // Touch the second (last) goal: marker parks, pad arms.
    let last = check_goal(&mut state, v2(-450, 550));
    assert_eq!(state.score, 2);
    assert_eq!(last.goal_marker, GoalMarker::Offscreen);
    assert!(last.pad_armed && !last.completed);
}

#[test]
fn goal_touch_uses_per_axis_radius() {
    let mut state = flying_context();
    state.goals = vec![v2(0, 0)];
    // Exactly at the radius on both axes still counts.
    check_goal(&mut state, v2(100, -100));
    assert_eq!(state.score, 1);
    let mut state2 = flying_context();
    state2.goals = vec![v2(0, 0)];
    // One thousandth beyond on one axis does not.
    check_goal(&mut state2, v2(101, 0));
    assert_eq!(state2.score, 0);
}

#[test]
fn score_never_decreases_and_never_exceeds_goal_count() {
    let mut state = flying_context();
    state.goals = vec![v2(0, 0), v2(0, 0)];
    let mut prev = 0;
    for _ in 0..6 {
        // The ship sits on every goal at once; the pad is elsewhere.
        state.launch_pad = (v3(10_000, 10_000, 0), v2(100, 100));
        check_goal(&mut state, v2(0, 0));
        assert!(state.score >= prev);
        assert!(state.score <= state.goals.len());
        prev = state.score;
    }
    assert_eq!(state.score, 2);
}

#[test]
fn pad_return_completes_the_run() {
    let mut state = flying_context();
    state.launch_pad = (v3(0, -2000, 0), v2(663, 41));
    state.frame_count = 500;
    state.thrust_history = vec![v2(0, 0); 500];
    // All goals reached (there are none), but the ship is elsewhere.
    let away = check_goal(&mut state, v2(4000, 0));
    assert!(!away.completed);
    // Overlapping the pad box completes the run.
    let landed = check_goal(&mut state, v2(100, -1990));
    assert!(landed.completed);
    // A first completion is always a record, but made_highscore marks
    // only improvements over a stored best.
    assert_eq!(landed.new_highscore.map(|e| (e.level, e.score)), Some((0, 500)));
    assert!(!state.made_highscore);
}

#[test]
fn touching_pad_edge_is_not_landing() {
    let mut state = flying_context();
    state.launch_pad = (v3(0, 0, 0), v2(600, 40));
    // Ship box [330, 430]; pad box ends at 300: strictly apart.
    assert!(!check_goal(&mut state, v2(380, 0)).completed);
    // Ship box [300, 400] touches the pad edge exactly: still no.
    assert!(!check_goal(&mut state, v2(350, 0)).completed);
    // One thousandth closer overlaps.
    assert!(check_goal(&mut state, v2(349, 0)).completed);
}

#[test]
fn highscore_needs_strict_improvement() {
    let landed_with = |frames: usize| {
        let mut state = flying_context();
        state.launch_pad = (v3(0, 0, 0), v2(600, 40));
        state.highscores.insert(0, 500);
        state.frame_count = frames;
        state.thrust_history = vec![v2(0, 0); frames];
        let r = check_goal(&mut state, v2(0, 0));
        assert!(r.completed);
        (r.new_highscore, state.made_highscore)
    };

    // Strictly faster: event plus made_highscore.
    let (event, flag) = landed_with(499);
    assert_eq!(event.map(|e| (e.level, e.score)), Some((0, 499)));
    assert!(flag);

    // Exactly the stored best: completed, but no event, no flag.
    let (event, flag) = landed_with(500);
    assert!(event.is_none());
    assert!(!flag);

    // Slower: completed, nothing else.
    let (event, flag) = landed_with(501);
    assert!(event.is_none());
    assert!(!flag);
}

#[test]
fn highscore_table_shadows_per_level() {
    let mut table = HighscoreTable::new();
    assert_eq!(table.get(3), None);
    table.insert(3, 700);
    table.insert(5, 900);
    assert_eq!(table.get(3), Some(700));
    table.insert(3, 650);
    assert_eq!(table.get(3), Some(650));
    assert_eq!(table.get(5), Some(900));
    assert_eq!(table.get(4), None);
}

#[test]
fn elapsed_millis_counts_sixtieths() {
    let mut state = GameResources::default();
    assert_eq!(state.elapsed_millis(), 0);
    state.frame_count = 1;
    assert_eq!(state.elapsed_millis(), 16);
    state.frame_count = 60;
    assert_eq!(state.elapsed_millis(), 1000);
    state.frame_count = 90;
    assert_eq!(state.elapsed_millis(), 1500);
}

#[test]
fn ghost_replaced_only_on_genuine_improvement() {
    let level = Level {
        name: String::from("flat"),
        walls: vec![],
        pad: Rectangle { top_left: v2(37000, 54500), size: v2(6000, 500) },
        goals: vec![v2(1000, 1000), v2(2000, 2000), v2(3000, 3000)],
    };
    let screen = Screen::default();
    let prev = GhostRun { score: 2, frame_count: 500, positions: vec![v3(1, 2, 0); 500] };

    // Higher score replaces, whatever the frame count.
    let mut state = GameResources::default();
    setup(&mut state, &level, &screen);
    state.best_ghost = Some(prev.clone());
    state.score = 3;
    state.frame_count = 900;
    state.thrust_history = vec![v2(1, 0); 900];
    update_ghost(&mut state, &level, &screen);
    let g = state.best_ghost.as_ref().unwrap();
    assert_eq!((g.score, g.frame_count), (3, 900));
    assert_eq!(g.positions.len(), 900);

    // Equal score, strictly fewer frames replaces.
    let mut state = GameResources::default();
    setup(&mut state, &level, &screen);
    state.best_ghost = Some(prev.clone());
    state.score = 2;
    state.frame_count = 499;
    state.thrust_history = vec![v2(1, 0); 499];
    update_ghost(&mut state, &level, &screen);
    let g = state.best_ghost.as_ref().unwrap();
    assert_eq!((g.score, g.frame_count), (2, 499));

    // Equal score, equal frames: the old ghost is retained untouched.
    let mut state = GameResources::default();
    setup(&mut state, &level, &screen);
    state.best_ghost = Some(prev.clone());
    state.score = 2;
    state.frame_count = 500;
    state.thrust_history = vec![v2(1, 0); 500];
    update_ghost(&mut state, &level, &screen);
    let g = state.best_ghost.as_ref().unwrap();
    assert_eq!((g.score, g.frame_count), (2, 500));
    assert_eq!(g.positions, prev.positions);

    // Lower score: retained, even with far fewer frames.
    let mut state = GameResources::default();
    setup(&mut state, &level, &screen);
    state.best_ghost = Some(prev.clone());
    state.score = 1;
    state.frame_count = 10;
    state.thrust_history = vec![v2(1, 0); 10];
    update_ghost(&mut state, &level, &screen);
    let g = state.best_ghost.as_ref().unwrap();
    assert_eq!((g.score, g.frame_count), (2, 500));
}

#[test]
fn equal_result_does_not_replace_first_ghost() {
    // Run A and run B finish with the same (score, frame_count) but
    // different trajectories: whichever ran first owns the ghost.
    let level = Level {
        name: String::from("flat"),
        walls: vec![],
        pad: Rectangle { top_left: v2(37000, 54500), size: v2(6000, 500) },
        goals: vec![v2(1000, 1000), v2(2000, 2000), v2(3000, 3000)],
    };
    let screen = Screen::default();
    let history_a = vec![v2(1, 0); 500];
    let history_b = vec![v2(0, 1); 500];

    // A finishes first; the ghost was not yet set, so A's replay is
    // stored.
    let mut state = GameResources::default();
    setup(&mut state, &level, &screen);
    state.score = 3;
    state.frame_count = 500;
    state.thrust_history = history_a.clone();
    update_ghost(&mut state, &level, &screen);

    let init = initial_ship_pos(&level, &screen);
    let spawn = v2(init.x, init.y + 50);
    let walls: Vec<WallPosition> = vec![];
    let trail_a = compute_ghost(spawn, &history_a, &walls);
    assert_eq!(state.best_ghost.as_ref().unwrap().positions, trail_a);

    // B's equal result then does not replace A's trajectory.
    state.score = 3;
    state.frame_count = 500;
    state.thrust_history = history_b.clone();
    update_ghost(&mut state, &level, &screen);
    assert_eq!(state.best_ghost.as_ref().unwrap().positions, trail_a);

    // Had B run first, the ghost would be B's trajectory.
    let mut other = GameResources::default();
    setup(&mut other, &level, &screen);
    other.score = 3;
    other.frame_count = 500;
    other.thrust_history = history_b;
    update_ghost(&mut other, &level, &screen);
    let trail_b = other.best_ghost.as_ref().unwrap().positions.clone();
    assert_eq!(trail_b.len(), 500);
    assert_ne!(trail_b, trail_a);
}

#[test]
fn setup_resets_run_but_keeps_ghost_and_scores() {
    let level = test_level();
    let screen = Screen::default();
    let mut state = GameResources::default();
    state.status = GameStatus::Flying;
    state.thrust = v2(1, 1);
    state.score = 2;
    state.frame_count = 77;
    state.thrust_history = vec![v2(1, 0); 77];
    state.made_highscore = true;
    state.best_ghost = Some(GhostRun { score: 1, frame_count: 1, positions: vec![v3(0, 0, 0)] });
    state.highscores.insert(0, 123);

    let ship = setup(&mut state, &level, &screen);

    assert_eq!(state.status, GameStatus::Idling);
    assert_eq!((state.thrust.x, state.thrust.y), (0, 0));
    assert_eq!(state.score, 0);
    assert_eq!(state.frame_count, 0);
    assert!(state.thrust_history.is_empty());
    assert!(!state.made_highscore);
    assert!(state.best_ghost.is_some());
    assert_eq!(state.prev_score(0), 123);
    // Goals and pad are projected into screen space.
    assert_eq!(state.goals, vec![v2(0, 1834), v2(-3319, 1167)]);
    assert_eq!(state.launch_pad.0, v3(-1, -2063, 0));
    assert_eq!(state.launch_pad.1, v2(663, 41));
    // The ship spawns at rest, one ship radius above the pad's bottom.
    assert_eq!(ship.velocity.0, v2(0, 0));
    assert_eq!(ship.position, v3(-1, -2033, 0));
}

#[test]
fn zero_goals_level_goes_straight_to_pad_phase() {
    let level = Level {
        name: String::from("empty"),
        walls: vec![],
        pad: Rectangle { top_left: v2(37000, 54500), size: v2(6000, 500) },
        goals: vec![],
    };
    let screen = Screen::default();
    let mut state = GameResources::default();
    let ship = setup(&mut state, &level, &screen);
    state.status = GameStatus::Flying;
    // The spawn position already overlaps the pad: the very first check
    // completes the run.
    let r = check_goal(&mut state, v2(ship.position.x, ship.position.y));
    assert!(r.completed);
    assert_eq!(state.score, 0);
}
