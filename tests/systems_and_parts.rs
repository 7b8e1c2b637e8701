use cat_dream::animation::{FrameCount, SpriteAnimation, Timer};
use cat_dream::arrows::{
    destroy_out_of_map, handle_arrow_spawning, spawn_arrow_for_draw, ARROW_ENTRY_X, SPAWN_Y_END, SPAWN_Y_START,
};
use cat_dream::environment::{plain, sample_stone, stone_from_draws};
use cat_dream::glitch_effect::{GlitchEffect, EFFECT_DURATION_US};
use cat_dream::guide::GuideMessage;
use cat_dream::level::{Game, NewLevel};
use cat_dream::player::{direction_from_keys, Direction, Player};
use cat_dream::random::{RandomSource, RANDOM_SOURCE_SEED};
use cat_dream::systems::Keys;
use cat_dream::world::{Entity, EntityId, Kind, World};

const SPAWNER_SEED: u64 = 99;

fn player_id(game: &Game) -> EntityId {
    game.world.sole_player().unwrap()
}

#[test]
fn timer_counts_completed_periods() {
    let mut t = Timer::repeating(100);
    assert_eq!(t.tick(50), 0);
    assert_eq!(t.elapsed_us, 50);
    assert_eq!(t.tick(260), 3);
    assert_eq!(t.elapsed_us, 10);
    let mut big = Timer::repeating(1);
    assert_eq!(big.tick(u64::MAX), u64::MAX);
}

#[test]
fn frame_index_after_whole_periods() {
    let a = SpriteAnimation::new(6, false).with_frames(4);
    assert_eq!(a.timer.period_us, 166_666);
    for k in 0..13u64 {
        let mut b = a;
        for _ in 0..k {
            b.tick(166_666, 1);
        }
        assert_eq!(b.index as u64, k % 4);
    }
    let mut c = a;
    c.tick(166_666 * 7, 1);
    assert_eq!(c.index, 3);
}

#[test]
fn atlas_frame_count_and_pause() {
    let mut a = SpriteAnimation::new(10, false);
    assert_eq!(a.frames, FrameCount::FromAtlas(0));
    a.tick(300_000, 2);
    assert_eq!(a.index, 1);
    a.paused = true;
    a.tick(1_000_000, 2);
    assert_eq!(a.index, 1);
    assert_eq!(a.timer.elapsed_us, 0);
}

#[test]
fn keys_give_grid_directions() {
    assert_eq!(direction_from_keys(true, false, false, true), Direction { x: 1, y: 1 });
    assert_eq!(direction_from_keys(false, true, true, false), Direction { x: -1, y: -1 });
    assert_eq!(direction_from_keys(true, true, true, true), Direction { x: 0, y: 0 });
}

#[test]
fn disabled_player_ignores_keys() {
    let mut p = Player::new();
    p.disable_movement = true;
    p.read_keyboard_input(true, false, false, false);
    assert_eq!(p.movement_direction, Direction { x: 0, y: 0 });
    p.disable_movement = false;
    p.read_keyboard_input(true, false, false, false);
    assert_eq!(p.movement_direction, Direction { x: 0, y: 1 });
}

#[test]
fn footsteps_follow_the_walk_timer() {
    let mut random = RandomSource::new(7);
    let mut p = Player::default();
    assert_eq!(p.play_walking_sound(300_000, &mut random), None);
    p.movement_direction = Direction { x: 1, y: 0 };
    assert_eq!(p.play_walking_sound(100_000, &mut random), None);
    let s = p.play_walking_sound(150_000, &mut random).unwrap();
    assert!(120 <= s.volume && s.volume <= 300);
    assert!(250 <= s.speed && s.speed <= 2000);
}

#[test]
fn random_source_stays_in_range_and_varies() {
    let mut r = RandomSource::new(RANDOM_SOURCE_SEED);
    let mut seen = std::collections::HashSet::new();
    for _ in 0..200 {
        let v = r.between(10, 20);
        assert!(10 <= v && v <= 20);
        seen.insert(v);
    }
    assert!(seen.len() > 1);
    assert!(!r.ratio(0, 5));
    assert!(r.ratio(5, 5));
    let mut a = RandomSource::new(42);
    let mut b = RandomSource::new(42);
    for _ in 0..50 {
        assert_eq!(a.between(0, 1_000_000), b.between(0, 1_000_000));
    }
}

#[test]
fn stone_draws_repeat_for_a_seed() {
    let mut a = RandomSource::new(3);
    let mut b = RandomSource::new(3);
    for _ in 0..20 {
        assert_eq!(sample_stone(&mut a), sample_stone(&mut b));
    }
}

#[test]
fn hazards_enter_in_the_band_and_only_with_a_spawner() {
    let mut world = World::new();
    let mut random = RandomSource::new(11);
    for _ in 0..100 {
        assert_eq!(handle_arrow_spawning(&mut world, 1, &mut random), None);
    }
    assert_eq!(world.len(), 0);
    world.spawn(plain(Kind::ArrowSpawner, 0, 0));
    let mut spawned = 0;
    for _ in 0..2000 {
        if let Some(id) = handle_arrow_spawning(&mut world, 2, &mut random) {
            let e = world.get(id).unwrap();
            assert_eq!(e.kind, Kind::Arrow);
            assert_eq!(e.x, ARROW_ENTRY_X);
            assert!(SPAWN_Y_START <= e.y && e.y <= SPAWN_Y_END);
            assert_eq!(e.variant, 1);
            assert_eq!(e.scale, 4000);
            spawned += 1;
        }
    }
    assert!(spawned > 20 && spawned < 400);
}

#[test]
fn hazards_past_the_margin_are_swept() {
    let mut world = World::new();
    let at_edge = world.spawn(plain(Kind::Arrow, -650, 3000));
    let past = world.spawn(plain(Kind::Arrow, -651, 3000));
    let stone = world.spawn(plain(Kind::Stone, -5000, 3000));
    let inside = world.spawn(plain(Kind::Arrow, 0, 3000));
    world.set_position(inside, -700, 3000);
    assert!(world.get(inside).is_some());
    destroy_out_of_map(&mut world);
    assert!(world.get(at_edge).is_some());
    assert_eq!(world.get(past), None);
    assert!(world.get(stone).is_some());
    assert_eq!(world.get(inside), None);
}

#[test]
fn transition_effect_holds_the_player_then_ends() {
    let mut game = Game::new(RANDOM_SOURCE_SEED);
    game.trigger_first_level();
    game.on_new_level(NewLevel(1));
    assert_eq!(game.effect, Some(GlitchEffect { elapsed_us: 0 }));
    game.update_glitch_effect(1_000_000);
    assert_eq!(game.effect, Some(GlitchEffect { elapsed_us: 1_000_000 }));
    assert!(game.player.disable_movement);
    game.read_keyboard_input(Keys { up: true, left: false, down: false, right: false });
    assert_eq!(game.player.movement_direction, Direction { x: 0, y: 0 });
    game.update_glitch_effect(EFFECT_DURATION_US - 1_000_000);
    assert!(game.effect.is_some());
    game.update_glitch_effect(1);
    assert_eq!(game.effect, None);
    assert!(!game.player.disable_movement);
    game.read_keyboard_input(Keys { up: true, left: false, down: false, right: false });
    assert_eq!(game.player.movement_direction, Direction { x: 0, y: 1 });
}

#[test]
fn first_level_has_no_transition_effect() {
    let mut game = Game::new(RANDOM_SOURCE_SEED);
    game.trigger_first_level();
    assert_eq!(game.effect, None);
}

#[test]
fn player_animation_runs_only_while_moving() {
    let mut game = Game::new(RANDOM_SOURCE_SEED);
    game.trigger_first_level();
    let id = player_id(&game);
    game.read_keyboard_input(Keys { up: false, left: false, down: false, right: true });
    game.update_animation();
    let a = game.world.get(id).unwrap().animation.unwrap();
    assert!(!a.paused);
    game.update_animations(166_666 * 2, &vec![4]);
    assert_eq!(game.world.get(id).unwrap().animation.unwrap().index, 2);
    game.read_keyboard_input(Keys { up: false, left: false, down: false, right: false });
    game.update_animation();
    assert!(game.world.get(id).unwrap().animation.unwrap().paused);
}

#[test]
fn tick_spawns_hazards_on_later_levels() {
    let mut game = Game::new(RANDOM_SOURCE_SEED);
    game.trigger_first_level();
    let keys = Keys { up: true, left: false, down: false, right: false };
    for _ in 0..200 {
        assert_eq!(game.tick(16_667, keys, &vec![4]).spawned, None);
    }
    game.on_new_level(NewLevel(1));
    let mut spawned = 0;
    for _ in 0..400 {
        if game.tick(16_667, keys, &vec![4]).spawned.is_some() {
            spawned += 1;
        }
    }
    assert!(spawned > 0);
    assert_eq!(game.level.0, 0);
}

#[test]
fn guide_lines_read_as_written() {
    assert_eq!(GuideMessage::Intro.text(), "You are a cat, your goal is to reach your bed.");
    assert_eq!(GuideMessage::AvoidArrows.text(), "Oh no, avoid the arrows.");
    assert_eq!(GuideMessage::AvoidToasts.text(), "Oh no, avoid the toasts.");
    assert_eq!(GuideMessage::DoorNeedsKey.text(), "Door, how audacious, now you need to return back for key.");
    assert_eq!(GuideMessage::UpAgain.text(), "And now up again...");
}

#[test]
fn entities_keep_their_slots() {
    let mut world = World::new();
    let a = world.spawn(plain(Kind::Road, 0, 0));
    let b = world.spawn(plain(Kind::Stone, 1, 2));
    world.despawn(a);
    let c = world.spawn(plain(Kind::Stone, 3, 4));
    assert_ne!(a, c);
    assert_eq!(world.get(a), None);
    assert_eq!(world.get(b).map(|e: Entity| (e.x, e.y)), Some((1, 2)));
    world.despawn(EntityId(1000));
    assert_eq!(world.len(), 3);
}

#[test]
fn stone_is_built_from_its_draws() {
    let s = stone_from_draws(2, 0, 8192, 359_999, 700);
    assert_eq!((s.kind, s.x, s.y, s.rotation, s.scale, s.variant), (Kind::Stone, -600, 8192, 359_999, 1400, 2));
    let t = stone_from_draws(3, 1200, 0, 0, 1300);
    assert_eq!((t.x, t.y, t.scale, t.variant), (600, 0, 2600, 3));
    assert!(t.destroy_on_new_level);
}

#[test]
fn hazard_follows_its_draw() {
    let mut world = World::new();
    assert_eq!(spawn_arrow_for_draw(&mut world, 1, None), None);
    assert_eq!(world.len(), 0);
    let id = spawn_arrow_for_draw(&mut world, 1, Some(5000)).unwrap();
    assert_eq!(id, EntityId(0));
    let e = world.get(id).unwrap();
    assert_eq!((e.kind, e.x, e.y, e.variant, e.scale), (Kind::Arrow, 1250, 5000, 0, 4000));
    let id = spawn_arrow_for_draw(&mut world, 2, Some(SPAWN_Y_START as u64)).unwrap();
    assert_eq!(world.get(id).unwrap().variant, 1);
}

#[test]
fn two_spawners_launch_nothing_and_draw_nothing() {
    let mut world = World::new();
    world.spawn(plain(Kind::ArrowSpawner, 0, 0));
    world.spawn(plain(Kind::ArrowSpawner, 0, 0));
    let mut random = RandomSource::new(SPAWNER_SEED);
    let mut untouched = RandomSource::new(SPAWNER_SEED);
    for _ in 0..500 {
        assert_eq!(handle_arrow_spawning(&mut world, 1, &mut random), None);
    }
    assert_eq!(world.len(), 2);
    assert_eq!(random.between(0, u64::MAX - 1), untouched.between(0, u64::MAX - 1));
}

#[test]
fn unloaded_atlas_layout_holds_the_frame() {
    let mut world = World::new();
    let anim = SpriteAnimation::new(10, false).with_layout(3);
    let mut e = plain(Kind::Player, 0, 0);
    e.animation = Some(anim);
    let id = world.spawn(e);
    world.update_animations(500_000, &vec![4]);
    assert_eq!(world.get(id).unwrap().animation.unwrap().index, 0);
    world.update_animations(500_000, &vec![4, 4, 4, 3]);
    assert_eq!(world.get(id).unwrap().animation.unwrap().index, 2);
}

#[test]
fn sprites_read_their_own_layouts() {
    let mut world = World::new();
    let mut a = plain(Kind::Player, 0, 0);
    a.animation = Some(SpriteAnimation::new(10, false).with_layout(0));
    let mut b = plain(Kind::Goal, 0, 0);
    b.animation = Some(SpriteAnimation::new(10, false).with_layout(1));
    let mut c = plain(Kind::Key, 0, 0);
    c.animation = Some(SpriteAnimation::new(10, false).with_frames(5));
    let (ia, ib, ic) = (world.spawn(a), world.spawn(b), world.spawn(c));
    world.update_animations(700_000, &vec![4, 2]);
    assert_eq!(world.get(ia).unwrap().animation.unwrap().index, 3);
    assert_eq!(world.get(ib).unwrap().animation.unwrap().index, 1);
    assert_eq!(world.get(ic).unwrap().animation.unwrap().index, 2);
}

#[test]
fn no_footstep_leaves_the_random_source_alone() {
    let mut random = RandomSource::new(5);
    let mut untouched = RandomSource::new(5);
    let mut p = Player::new();
    p.movement_direction = Direction { x: 0, y: 1 };
    assert_eq!(p.play_walking_sound(100_000, &mut random), None);
    assert_eq!(random.between(0, 1_000_000), untouched.between(0, 1_000_000));
}
