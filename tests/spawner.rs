use rustyrocket::game::{next_state, Game, GameEvent, GameState};
use rustyrocket::geometry::{Sign, Vector2, WorldBounds};
use rustyrocket::items::{build_tunnel, new_gravity_region, SpawnedItem};
use rustyrocket::level::LevelSettings;
use rustyrocket::obstacle_spawner::{ObstacleSpawner, SpawnOption, SpawnStats, LEVEL_UP_SCORE};
use rustyrocket::score::Score;
use rustyrocket::spawner_settings::{ConfigError, GravityRegionSettings, SpawnerSettings, TunnelSpawnSettings};
use rustyrocket::timer::CadenceTimer;

fn bounds() -> WorldBounds {
    WorldBounds::new(Vector2::new(-400, -300), Vector2::new(400, 300)).unwrap()
}

fn fast_level() -> SpawnerSettings {
    let mut s = SpawnerSettings::new();
    s.item_vel = Vector2::new(-300, 0);
    s.millis_per_item = 1500;
    s
}

fn spawner() -> ObstacleSpawner {
    ObstacleSpawner::new(SpawnerSettings::new(), bounds()).unwrap()
}

#[test]
fn tunnel_scenario_a() {
    let t = TunnelSpawnSettings::new();
    let tunnel = build_tunnel(&t, Vector2::new(-200, 0), 420, &bounds(), 0, 250, 1);
    // top barrier: from the gap top (125) up to 300, so 175 tall
    assert_eq!(tunnel.top.top2 - tunnel.top.bottom2, 350);
    assert_eq!(tunnel.top.bottom2, 250);
    assert_eq!(tunnel.top.top2, 600);
    // bottom barrier: from -300 up to the gap bottom (-125), so 175 tall
    assert_eq!(tunnel.bottom.top2 - tunnel.bottom.bottom2, 350);
    assert_eq!(tunnel.bottom.bottom2, -600);
    // scoring region centred at y = 0 and 250 tall
    assert_eq!(tunnel.scoring_region.bottom2 + tunnel.scoring_region.top2, 0);
    assert_eq!(tunnel.scoring_region.top2 - tunnel.scoring_region.bottom2, 500);
    // x placement: barriers span [420, 516], the scoring region [484, 516]
    assert_eq!(tunnel.top.left2, 840);
    assert_eq!(tunnel.top.right2, 1032);
    assert_eq!(tunnel.scoring_region.left2, 968);
    assert_eq!(tunnel.scoring_region.right2, 1032);
    assert_eq!(tunnel.top.remove_when_left, 96);
    assert_eq!(tunnel.scoring_region.remove_when_left, 32);
    assert!(tunnel.top.remove_on_reset && tunnel.bottom.remove_on_reset && tunnel.scoring_region.remove_on_reset);
    assert_eq!(tunnel.score_delta, 1);
    assert_eq!(tunnel.group, 1);
    assert_eq!(tunnel.top.velocity, Vector2::new(-200, 0));
}

#[test]
fn tunnel_heights_fill_the_world_for_odd_gap() {
    let t = TunnelSpawnSettings::new();
    let b = bounds();
    for (c, h) in [(13, 201), (-200, 299), (200, 300), (-7, 200)] {
        let tunnel = build_tunnel(&t, Vector2::new(-200, 0), 0, &b, c, h, 3);
        let top = tunnel.top.top2 - tunnel.top.bottom2;
        let bottom = tunnel.bottom.top2 - tunnel.bottom.bottom2;
        let gap = tunnel.scoring_region.top2 - tunnel.scoring_region.bottom2;
        assert_eq!(gap, 2 * h as i64);
        assert_eq!(top + gap + bottom, 2 * 600);
        assert!(top > 0 && bottom > 0);
        assert_eq!(tunnel.top.bottom2, tunnel.scoring_region.top2);
        assert_eq!(tunnel.bottom.top2, tunnel.scoring_region.bottom2);
    }
}

#[test]
fn gap_past_an_edge_is_moved_inside() {
    let t = TunnelSpawnSettings::new();
    let b = bounds();
    // centre 200 with height 300 would reach 350, past the top edge at 300
    let high = build_tunnel(&t, Vector2::new(-200, 0), 0, &b, 200, 300, 1);
    assert_eq!(high.scoring_region.bottom2 + high.scoring_region.top2, 4 * 149);
    assert_eq!(high.top.top2 - high.top.bottom2, 2);
    assert_eq!(high.scoring_region.top2 - high.scoring_region.bottom2, 600);
    let low = build_tunnel(&t, Vector2::new(-200, 0), 0, &b, -200, 299, 1);
    // lowest centre keeping the bottom barrier: -300 + 149 + 1
    assert_eq!(low.scoring_region.bottom2 + low.scoring_region.top2, 4 * -150);
    assert_eq!(low.bottom.top2 - low.bottom.bottom2, 1);
    let kept = build_tunnel(&t, Vector2::new(-200, 0), 0, &b, 100, 300, 1);
    assert_eq!(kept.scoring_region.bottom2 + kept.scoring_region.top2, 400);
}

#[test]
fn gravity_region_spans_height() {
    let g = GravityRegionSettings { gravity_width: 32 };
    let r = new_gravity_region(Sign::Negative, 420, &g, Vector2::new(-200, 0), &bounds());
    assert_eq!(r.placement.left2, 840);
    assert_eq!(r.placement.right2, 904);
    assert_eq!(r.placement.bottom2, -600);
    assert_eq!(r.placement.top2, 600);
    assert_eq!(r.placement.remove_when_left, 32);
    assert_eq!(r.sign, Sign::Negative);
    assert!(!r.points_down());
    let down = new_gravity_region(Sign::Positive, 0, &g, Vector2::new(-200, 0), &bounds());
    assert!(down.points_down());
}

#[test]
fn start_offset_of_default_level() {
    let s = SpawnerSettings::new();
    assert_eq!(s.start_offset_x(&bounds()), 420);
    let mut odd = SpawnerSettings::new();
    odd.item_vel = Vector2::new(-15, 0);
    odd.start_offset_millis = 100;
    // 1.5 units of travel round down to 1
    assert_eq!(odd.start_offset_x(&bounds()), 401);
}

#[test]
fn default_settings_values() {
    let mut s = SpawnerSettings::new();
    assert_eq!(s.millis_per_item, 2000);
    assert_eq!(s.tunnel_weight, 80);
    assert_eq!(s.gravity_weight, 20);
    assert_eq!(s.min_items_between_gravity, 3);
    assert_eq!(s.tunnel_settings.center_y_range, [-200, 200]);
    assert_eq!(s.tunnel_settings.gap_height_range, [200, 300]);
    s.millis_per_item = 7;
    s.reset();
    assert_eq!(s, SpawnerSettings::new());
    assert_eq!(s.validate(&bounds()), Ok(()));
}

#[test]
fn validation_errors() {
    let b = bounds();
    let mut s = SpawnerSettings::new();
    s.millis_per_item = 0;
    assert_eq!(s.validate(&b), Err(ConfigError::NonPositiveCadence));

    let mut s = SpawnerSettings::new();
    s.item_vel = Vector2::new(5, 0);
    assert_eq!(s.validate(&b), Err(ConfigError::NotLeftward));

    let mut s = SpawnerSettings::new();
    s.tunnel_settings.center_y_range = [10, -10];
    assert_eq!(s.validate(&b), Err(ConfigError::InvertedRange));

    let mut s = SpawnerSettings::new();
    s.tunnel_settings.gap_height_range = [300, 200];
    assert_eq!(s.validate(&b), Err(ConfigError::InvertedRange));

    let mut s = SpawnerSettings::new();
    s.tunnel_settings.obstacle_width = 0;
    assert_eq!(s.validate(&b), Err(ConfigError::NonPositiveSize));

    let mut s = SpawnerSettings::new();
    s.gravity_settings.gravity_width = -1;
    assert_eq!(s.validate(&b), Err(ConfigError::NonPositiveSize));

    let mut s = SpawnerSettings::new();
    s.tunnel_settings.gap_height_range = [0, 300];
    assert_eq!(s.validate(&b), Err(ConfigError::NonPositiveSize));

    // a gap 700 tall does not fit a world 600 tall
    let mut s = SpawnerSettings::new();
    s.tunnel_settings.gap_height_range = [200, 700];
    assert_eq!(s.validate(&b), Err(ConfigError::GapOutsideWorld));

    // a gap 599 tall leaves less than a unit for the two barriers
    let mut s = SpawnerSettings::new();
    s.tunnel_settings.gap_height_range = [200, 599];
    assert_eq!(s.validate(&b), Err(ConfigError::GapOutsideWorld));
    s.tunnel_settings.gap_height_range = [200, 598];
    assert_eq!(s.validate(&b), Ok(()));

    let mut s = SpawnerSettings::new();
    s.tunnel_weight = 0;
    assert_eq!(s.validate(&b), Err(ConfigError::ZeroWeights));

    let mut s = SpawnerSettings::new();
    s.tunnel_weight = 0;
    s.min_items_between_gravity = 0;
    assert_eq!(s.validate(&b), Ok(()));

    assert_eq!(ObstacleSpawner::new(SpawnerSettings { millis_per_item: 0, ..SpawnerSettings::new() }, b).err(),
        Some(ConfigError::NonPositiveCadence));
}

#[test]
fn world_bounds_helpers() {
    assert!(WorldBounds::new(Vector2::new(0, 0), Vector2::new(0, 5)).is_none());
    assert!(WorldBounds::new(Vector2::new(0, 5), Vector2::new(3, 5)).is_none());
    let b = WorldBounds::centered(1024, 576).unwrap();
    assert_eq!(b.max, Vector2::new(512, 288));
    assert_eq!(b.min, Vector2::new(-512, -288));
    assert_eq!(b.height(), 576);
    assert!(WorldBounds::centered(1, 576).is_none());
    assert!(b.contains(Vector2::new(512, -288)));
    assert!(!b.contains(Vector2::new(513, 0)));
    assert!(b.is_past_left(-609, 96));
    assert!(!b.is_past_left(-608, 96));
}

#[test]
fn timer_carries_over() {
    let mut t = CadenceTimer::from_millis(2000);
    assert_eq!(t.tick(1500), 0);
    assert_eq!(t.elapsed, 1500);
    assert_eq!(t.tick(600), 1);
    assert_eq!(t.elapsed, 100);
    assert_eq!(t.tick(4000), 2);
    assert_eq!(t.elapsed, 100);
}

#[test]
fn gravity_scenario_b() {
    let mut level = LevelSettings::new();
    assert_eq!(level.gravity_mult, Sign::Positive);
    assert_eq!(level.gravity_vector(), Vector2::new(0, -500));
    assert_eq!(level.jump_vector(), Vector2::new(0, 300));
    let g = level.on_gravity_event(Sign::Negative);
    assert_eq!(level.gravity_mult, Sign::Negative);
    assert_eq!(g, Vector2::new(0, 500));
    assert_eq!(level.jump_vector(), Vector2::new(0, -300));
    assert_eq!(level.on_gravity_event(Sign::Negative), Vector2::new(0, 500));
    assert_eq!(level.gravity_mult, Sign::Negative);
    level.reset();
    assert_eq!(level.gravity_mult, Sign::Positive);
    assert_eq!(level.explosion_speed, 600);

    // the spawner always asks for the opposite of the current multiplier
    let mut s = spawner();
    s.stats = SpawnStats { num_items: 3, since_last_gravity: 3 };
    for (current, expected) in [(Sign::Positive, Sign::Negative), (Sign::Negative, Sign::Positive)] {
        s.stats.since_last_gravity = 3;
        let out = s.fire(1, 0, 250, current);
        assert_eq!(out.option, SpawnOption::Gravity);
        match out.item {
            SpawnedItem::Gravity(r) => assert_eq!(r.sign, expected),
            SpawnedItem::Tunnel(_) => panic!("expected a gravity region"),
        }
    }
}

#[test]
fn score_scenario_c() {
    let mut game = Game::new(bounds(), SpawnerSettings::new(), fast_level()).unwrap();
    game.handle_event(GameEvent::StartPressed);
    assert_eq!(game.state, GameState::Playing);
    game.on_scoring_region(1);
    assert!(game.spawner.next_level.is_none());
    game.on_scoring_region(1);
    assert_eq!(game.score.score, LEVEL_UP_SCORE);
    assert_eq!(game.spawner.next_level, Some(fast_level()));
    assert_eq!(game.spawner.level.millis_per_item, 2000);

    let first = game.update(2000);
    assert_eq!(first.len(), 1);
    assert!(first[0].level_changed);
    assert_eq!(game.spawner.level.millis_per_item, 1500);
    assert_eq!(game.spawner.timer, CadenceTimer::from_millis(1500));
    assert!(game.spawner.next_level.is_none());

    let second = game.update(1500);
    assert_eq!(second.len(), 1);
    assert!(!second[0].level_changed);
    game.on_scoring_region(1);
    assert!(game.spawner.next_level.is_none());
}

#[test]
fn reset_scenario_d() {
    let mut s = spawner();
    s.queue_config_change(fast_level());
    s.tick(700);
    s.reset();
    assert!(s.next_level.is_none());
    assert_eq!(s.level, SpawnerSettings::new());
    assert_eq!(s.stats, SpawnStats::new());
    assert_eq!(s.timer, CadenceTimer::from_millis(2000));

    let mut game = Game::new(bounds(), SpawnerSettings::new(), fast_level()).unwrap();
    game.handle_event(GameEvent::StartPressed);
    game.on_scoring_region(1);
    game.on_scoring_region(1);
    game.on_gravity_region(Sign::Negative);
    game.handle_event(GameEvent::PlayerHit);
    assert_eq!(game.state, GameState::Dying);
    game.handle_event(GameEvent::Reset);
    assert_eq!(game.state, GameState::Ready);
    assert!(game.spawner.next_level.is_none());
    assert_eq!(game.spawner.level, SpawnerSettings::new());
    assert_eq!(game.score.score, 0);
    assert_eq!(game.level.gravity_mult, Sign::Positive);
}

#[test]
fn reset_twice_is_reset_once() {
    let mut s = spawner();
    s.queue_config_change(fast_level());
    s.tick(1999);
    s.tick(1);
    let _ = s.spawn_items(Sign::Positive);
    let mut once = s;
    once.reset();
    let mut twice = s;
    twice.reset();
    twice.reset();
    assert_eq!(once, twice);
    assert_eq!(twice.stats, SpawnStats { num_items: 0, since_last_gravity: 0 });
    assert!(twice.next_level.is_none());
    assert_eq!(twice.level, twice.base_level);
}

#[test]
fn queued_level_waits_for_firing() {
    let mut s = spawner();
    s.tick(800);
    s.queue_config_change(fast_level());
    assert_eq!(s.timer.duration, 2000);
    assert_eq!(s.level, SpawnerSettings::new());
    assert_eq!(s.tick(1000), 0);
    assert_eq!(s.timer.duration, 2000);
    assert_eq!(s.tick(200), 1);
    let out = s.fire(0, 0, 250, Sign::Positive);
    assert!(out.level_changed);
    match out.item {
        SpawnedItem::Tunnel(t) => {
            // built under the old level: old velocity, old start offset
            assert_eq!(t.top.velocity, Vector2::new(-200, 0));
            assert_eq!(t.top.left2, 840);
        }
        SpawnedItem::Gravity(_) => panic!("expected a tunnel"),
    }
    assert_eq!(s.level, fast_level());
    assert_eq!(s.timer.duration, 1500);
    assert_eq!(s.timer.elapsed, 0);
}

#[test]
fn gravity_spacing_over_many_spawns() {
    let mut s = spawner();
    let mut gravity_seen = 0;
    for _ in 0..2000 {
        let eligible = s.stats.since_last_gravity >= s.level.min_items_between_gravity as u64;
        let before = s.stats;
        let out = s.spawn_items(Sign::Positive);
        assert_eq!(s.stats.num_items, before.num_items + 1);
        match out.option {
            SpawnOption::Gravity => {
                assert!(eligible);
                assert_eq!(s.stats.since_last_gravity, 0);
                gravity_seen += 1;
            }
            SpawnOption::Tunnel => {
                assert_eq!(s.stats.since_last_gravity, before.since_last_gravity + 1);
            }
        }
    }
    assert!(gravity_seen > 0);
}

#[test]
fn weighted_selection_frequencies() {
    let mut level = SpawnerSettings::new();
    level.min_items_between_gravity = 0;
    let mut s = ObstacleSpawner::new(level, bounds()).unwrap();
    let n = 20000;
    let mut tunnels = 0u32;
    for _ in 0..n {
        if s.spawn_items(Sign::Positive).option == SpawnOption::Tunnel {
            tunnels += 1;
        }
    }
    let freq = tunnels as f64 / n as f64;
    assert!((freq - 0.8).abs() < 0.02, "tunnel frequency {}", freq);
}

#[test]
fn zero_weight_candidate_never_drawn() {
    let mut level = SpawnerSettings::new();
    level.tunnel_weight = 0;
    level.min_items_between_gravity = 0;
    let mut s = ObstacleSpawner::new(level, bounds()).unwrap();
    for _ in 0..200 {
        assert_eq!(s.spawn_items(Sign::Negative).option, SpawnOption::Gravity);
    }
    let mut level = SpawnerSettings::new();
    level.gravity_weight = 0;
    level.min_items_between_gravity = 0;
    let mut s = ObstacleSpawner::new(level, bounds()).unwrap();
    for _ in 0..200 {
        assert_eq!(s.spawn_items(Sign::Negative).option, SpawnOption::Tunnel);
    }
}

#[test]
fn random_gaps_stay_in_range_and_vary() {
    let mut level = SpawnerSettings::new();
    level.gravity_weight = 0;
    let mut s = ObstacleSpawner::new(level, bounds()).unwrap();
    let mut centers = std::collections::HashSet::new();
    for _ in 0..300 {
        match s.spawn_items(Sign::Positive).item {
            SpawnedItem::Tunnel(t) => {
                let c4 = t.scoring_region.bottom2 + t.scoring_region.top2;
                let h2 = t.scoring_region.top2 - t.scoring_region.bottom2;
                assert!(c4 % 4 == 0);
                assert!((-800..=800).contains(&c4));
                assert!((400..=600).contains(&h2) && h2 % 2 == 0);
                centers.insert(c4);
            }
            SpawnedItem::Gravity(_) => panic!("gravity weight is zero"),
        }
    }
    assert!(centers.len() > 10);
}

#[test]
fn spawner_choices_follow_spacing() {
    let mut s = spawner();
    assert_eq!(s.spawn_choices(), vec![(SpawnOption::Tunnel, 80)]);
    s.stats = SpawnStats { num_items: 5, since_last_gravity: 3 };
    assert_eq!(s.spawn_choices(), vec![(SpawnOption::Tunnel, 80), (SpawnOption::Gravity, 20)]);
    let out = s.fire(0, -200, 200, Sign::Positive);
    match out.item {
        SpawnedItem::Tunnel(t) => assert_eq!(t.group, 6),
        SpawnedItem::Gravity(_) => panic!("expected a tunnel"),
    }
    assert_eq!(s.stats, SpawnStats { num_items: 6, since_last_gravity: 4 });
    assert!(!out.level_changed);
}

#[test]
fn score_gate_needs_a_change() {
    let mut s = spawner();
    s.update_spawner_by_score(2, false, &fast_level());
    assert!(s.next_level.is_none());
    s.update_spawner_by_score(3, true, &fast_level());
    assert!(s.next_level.is_none());
    s.update_spawner_by_score(2, true, &fast_level());
    assert_eq!(s.next_level, Some(fast_level()));
    let mut s2 = spawner();
    s2.set_level(fast_level());
    assert_eq!(s2.timer.duration, 1500);
    assert!(!s2.advance_queued_level());
    s2.queue_config_change(SpawnerSettings::new());
    assert!(s2.advance_queued_level());
    assert_eq!(s2.level, SpawnerSettings::new());
}

#[test]
fn score_counts() {
    let mut score = Score::new();
    score.add(1);
    score.add(1);
    assert_eq!(score.score, 2);
    score.reset();
    assert_eq!(score.score, 0);
}

#[test]
fn game_phases() {
    assert_eq!(next_state(GameState::AssetLoading, GameEvent::AssetsLoaded), GameState::Ready);
    assert_eq!(next_state(GameState::AssetLoading, GameEvent::StartPressed), GameState::AssetLoading);
    assert_eq!(next_state(GameState::AssetLoading, GameEvent::Reset), GameState::AssetLoading);
    assert_eq!(next_state(GameState::Ready, GameEvent::StartPressed), GameState::Playing);
    assert_eq!(next_state(GameState::Ready, GameEvent::PlayerHit), GameState::Ready);
    assert_eq!(next_state(GameState::Playing, GameEvent::PlayerHit), GameState::Dying);
    assert_eq!(next_state(GameState::Playing, GameEvent::Reset), GameState::Ready);
    assert_eq!(next_state(GameState::Dying, GameEvent::StartPressed), GameState::Dying);
    assert_eq!(next_state(GameState::Dying, GameEvent::Reset), GameState::Ready);
}

#[test]
fn game_spawns_only_while_playing() {
    let mut game = Game::new(bounds(), SpawnerSettings::new(), fast_level()).unwrap();
    assert_eq!(game.state, GameState::Ready);
    assert!(game.update(5000).is_empty());
    assert_eq!(game.spawner.timer.elapsed, 1000);
    game.handle_event(GameEvent::StartPressed);
    let items = game.update(3000);
    assert_eq!(items.len(), 2);
    assert_eq!(game.spawner.stats.num_items, 2);
    assert_eq!(game.spawner.timer.elapsed, 0);
    let mut bad = SpawnerSettings::new();
    bad.tunnel_weight = 0;
    assert_eq!(Game::new(bounds(), SpawnerSettings::new(), bad).err(), Some(ConfigError::ZeroWeights));
    assert_eq!(Game::new(bounds(), bad, SpawnerSettings { millis_per_item: 0, ..bad }).err(),
        Some(ConfigError::ZeroWeights));
}

#[test]
fn sign_helpers() {
    assert_eq!(Sign::Positive.to_i32(), 1);
    assert_eq!(Sign::Negative.to_i32(), -1);
    assert_eq!(Sign::Positive.flipped(), Sign::Negative);
    assert_eq!(Vector2::new(3, -4).scaled(Sign::Negative), Vector2::new(-3, 4));
}
