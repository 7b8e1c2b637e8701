use cat_dream::collisions::{CollisionStart, Reaction};
use cat_dream::glitch_effect::GlitchEffect;
use cat_dream::guide::GuideMessage;
use cat_dream::level::{Game, LevelRestart, NewLevel, Screen};
use cat_dream::random::RANDOM_SOURCE_SEED;
use cat_dream::world::{Entity, EntityId, Kind};

fn live(game: &Game) -> Vec<(EntityId, Entity)> {
    let mut out = Vec::new();
    for i in 0..game.world.len() {
        if let Some(e) = game.world.get(EntityId(i)) {
            out.push((EntityId(i), e));
        }
    }
    out
}

fn count(game: &Game, kind: Kind) -> usize {
    live(game).iter().filter(|(_, e)| e.kind == kind).count()
}

fn first(game: &Game, kind: Kind) -> EntityId {
    live(game).iter().find(|(_, e)| e.kind == kind).unwrap().0
}

fn kinds(game: &Game) -> Vec<Kind> {
    live(game).iter().map(|(_, e)| e.kind).collect()
}

fn started() -> Game {
    let mut game = Game::new(RANDOM_SOURCE_SEED);
    game.trigger_first_level();
    game
}

#[test]
fn first_level_spawns_environment_player_and_goal() {
    let game = started();
    assert_eq!(game.level.0, 0);
    assert_eq!(game.screen, Screen::Gameplay);
    assert_eq!(game.effect, None);
    assert_eq!(game.guide, GuideMessage::Intro);
    assert_eq!(count(&game, Kind::Road), 1);
    assert_eq!(count(&game, Kind::MoveHint), 1);
    assert_eq!(count(&game, Kind::Stone), 200);
    assert_eq!(count(&game, Kind::Wall), 4);
    assert_eq!(count(&game, Kind::Player), 1);
    assert_eq!(count(&game, Kind::Goal), 1);
    assert_eq!(count(&game, Kind::ArrowSpawner), 0);
    assert_eq!(count(&game, Kind::DoorTrigger), 0);
    assert_eq!(live(&game).len(), 208);
    let player = game.world.get(first(&game, Kind::Player)).unwrap();
    assert_eq!((player.x, player.y, player.scale), (0, 300, 2000));
    let goal = game.world.get(first(&game, Kind::Goal)).unwrap();
    assert_eq!((goal.x, goal.y, goal.scale, goal.variant), (0, 8032, 4000, 0));
}

#[test]
fn stones_stay_inside_the_road() {
    let game = started();
    for (_, e) in live(&game).iter().filter(|(_, e)| e.kind == Kind::Stone) {
        assert!(-600 <= e.x && e.x <= 600);
        assert!(0 <= e.y && e.y <= 8192);
        assert!(e.rotation < 360_000);
        assert!(1400 <= e.scale && e.scale <= 2600);
        assert!(1 <= e.variant && e.variant <= 3);
    }
}

#[test]
fn new_level_leaves_no_tagged_entity_behind() {
    let mut game = started();
    let before: Vec<EntityId> = live(&game).iter().map(|(id, _)| *id).collect();
    game.on_new_level(NewLevel(1));
    for id in before {
        assert_eq!(game.world.get(id), None);
    }
    assert_eq!(count(&game, Kind::Player), 1);
    assert_eq!(count(&game, Kind::Goal), 1);
    assert_eq!(count(&game, Kind::ArrowSpawner), 1);
    assert_eq!(count(&game, Kind::ArrowArea), 1);
    assert_eq!(count(&game, Kind::Stone), 200);
    assert_eq!(live(&game).len(), 210);
    assert_eq!(game.effect, Some(GlitchEffect { elapsed_us: 0 }));
}

#[test]
fn untagged_entities_survive_a_transition() {
    let mut game = started();
    let mut keep = game.world.get(first(&game, Kind::Road)).unwrap();
    keep.destroy_on_new_level = false;
    let id = game.world.spawn(keep);
    game.on_new_level(NewLevel(1));
    assert_eq!(game.world.get(id), Some(keep));
}

#[test]
fn restart_replays_the_same_level() {
    let mut game = started();
    game.level.0 = 1;
    game.on_new_level(NewLevel(1));
    let fresh = kinds(&game);
    game.on_restart(LevelRestart);
    assert_eq!(game.level.0, 1);
    assert_eq!(kinds(&game), fresh);
}

#[test]
fn same_seed_gives_identical_environments() {
    let a = started();
    let b = started();
    assert_eq!(live(&a), live(&b));
    let mut c = Game::new(RANDOM_SOURCE_SEED + 1);
    c.trigger_first_level();
    assert_ne!(live(&a), live(&c));
}

#[test]
fn reaching_the_goal_enters_the_next_level() {
    let mut game = started();
    let goal = first(&game, Kind::Goal);
    let player = first(&game, Kind::Player);
    let r = game.route_collision(CollisionStart { collider1: goal, collider2: player });
    assert_eq!(r, Some(Reaction::GoalReached));
    assert_eq!(game.level.0, 1);
    assert_eq!(game.screen, Screen::Gameplay);
    assert_eq!(count(&game, Kind::ArrowSpawner), 1);
    assert_eq!(game.world.get(goal), None);
}

#[test]
fn reaching_the_winning_level_spawns_nothing() {
    let mut game = started();
    let goal = first(&game, Kind::Goal);
    let player = first(&game, Kind::Player);
    game.route_collision(CollisionStart { collider1: goal, collider2: player });
    let goal = first(&game, Kind::Goal);
    let player = first(&game, Kind::Player);
    let r = game.route_collision(CollisionStart { collider1: goal, collider2: player });
    assert_eq!(r, Some(Reaction::GoalReached));
    assert_eq!(game.level.0, 2);
    assert_eq!(game.screen, Screen::Victory);
    assert_eq!(live(&game).len(), 0);
}

#[test]
fn goal_ignores_the_player_on_the_wrong_side() {
    let mut game = started();
    let goal = first(&game, Kind::Goal);
    let player = first(&game, Kind::Player);
    let r = game.route_collision(CollisionStart { collider1: player, collider2: goal });
    assert_eq!(r, None);
    assert_eq!(game.level.0, 0);
}

#[test]
fn hazard_hit_restarts_without_advancing() {
    let mut game = started();
    game.level.0 = 1;
    game.on_new_level(NewLevel(1));
    let mut spawned = None;
    for _ in 0..2000 {
        spawned = game.handle_arrow_spawning();
        if spawned.is_some() {
            break;
        }
    }
    let arrow = spawned.unwrap();
    let player = first(&game, Kind::Player);
    let before = kinds(&game);
    let r = game.route_collision(CollisionStart { collider1: arrow, collider2: player });
    assert_eq!(r, Some(Reaction::PlayerHit));
    assert_eq!(game.level.0, 1);
    let after: Vec<Kind> = kinds(&game);
    let expected: Vec<Kind> = before.into_iter().filter(|k| *k != Kind::Arrow).collect();
    assert_eq!(after, expected);
}

#[test]
fn arrow_area_warns_once() {
    let mut game = started();
    game.level.0 = 1;
    game.on_new_level(NewLevel(1));
    let area = first(&game, Kind::ArrowArea);
    let player = first(&game, Kind::Player);
    let ev = CollisionStart { collider1: area, collider2: player };
    let r = game.handle_collisions(&vec![ev, ev]);
    assert_eq!(r, vec![Some(Reaction::ArrowAreaEntered), None]);
    assert_eq!(game.guide, GuideMessage::AvoidArrows);
    assert_eq!(count(&game, Kind::ArrowArea), 0);
}

#[test]
fn arrow_area_warns_of_toasts_at_the_second_tier() {
    let mut game = started();
    game.level.0 = 3;
    game.on_new_level(NewLevel(3));
    let area = first(&game, Kind::ArrowArea);
    let player = first(&game, Kind::Player);
    game.route_collision(CollisionStart { collider1: area, collider2: player });
    assert_eq!(game.guide, GuideMessage::AvoidToasts);
}

#[test]
fn door_trigger_fires_once_and_key_opens_the_door() {
    let mut game = started();
    game.level.0 = 3;
    game.on_new_level(NewLevel(3));
    assert_eq!(count(&game, Kind::WallBlock), 1);
    assert_eq!(count(&game, Kind::Door), 1);
    let trigger = first(&game, Kind::DoorTrigger);
    let player = first(&game, Kind::Player);
    let ev = CollisionStart { collider1: trigger, collider2: player };
    let swapped = CollisionStart { collider1: trigger, collider2: trigger };
    let r = game.handle_collisions(&vec![ev, ev, swapped]);
    assert_eq!(r, vec![Some(Reaction::DoorTriggered), None, None]);
    assert_eq!(count(&game, Kind::Key), 1);
    assert_eq!(game.guide, GuideMessage::DoorNeedsKey);
    let key = first(&game, Kind::Key);
    let k = game.world.get(key).unwrap();
    assert_eq!((k.x, k.y), (0, 300));
    let r = game.route_collision(CollisionStart { collider1: key, collider2: player });
    assert_eq!(r, Some(Reaction::KeyCollected));
    assert_eq!(count(&game, Kind::Key), 0);
    assert_eq!(count(&game, Kind::WallBlock), 0);
    assert_eq!(count(&game, Kind::Door), 0);
    assert_eq!(game.guide, GuideMessage::UpAgain);
}

#[test]
fn collisions_without_the_player_reach_nothing() {
    let mut game = started();
    let goal = first(&game, Kind::Goal);
    let road = first(&game, Kind::Road);
    assert_eq!(game.route_collision(CollisionStart { collider1: goal, collider2: road }), None);
    assert_eq!(game.route_collision(CollisionStart { collider1: EntityId(99_999), collider2: road }), None);
}

#[test]
fn victory_restart_click_returns_to_play() {
    let mut game = started();
    game.on_new_level(NewLevel(2));
    assert_eq!(game.screen, Screen::Victory);
    assert_eq!(game.effect, Some(GlitchEffect { elapsed_us: 0 }));
    game.level.0 = 2;
    game.on_restart_click();
    assert_eq!(game.screen, Screen::Gameplay);
    assert_eq!(game.level.0, 0);
    assert_eq!(count(&game, Kind::Player), 1);
    assert_eq!(count(&game, Kind::ArrowSpawner), 0);
}

#[test]
fn winning_level_starts_the_transition_effect() {
    let mut game = started();
    game.on_new_level(NewLevel(2));
    assert_eq!(game.screen, Screen::Victory);
    assert_eq!(game.effect, Some(GlitchEffect { elapsed_us: 0 }));
    assert_eq!(live(&game).len(), 0);
}

#[test]
fn level_kinds_are_counted_per_level() {
    let mut game = started();
    game.on_new_level(NewLevel(3));
    assert_eq!(live(&game).len(), 213);
    assert_eq!(count(&game, Kind::WallBlock), 1);
    assert_eq!(count(&game, Kind::Door), 1);
    assert_eq!(count(&game, Kind::DoorTrigger), 1);
    assert_eq!(count(&game, Kind::ArrowSpawner), 1);
    assert_eq!(count(&game, Kind::Key), 0);
    assert_eq!(count(&game, Kind::Arrow), 0);
}
