use content_registry::entity::movement::{ActionHandle, Controller};
use content_registry::entity::player::{control, spawn_player, Direction, Player, PlayerMarker};
use content_registry::entity::{LivingEntity, RigidBody};
use content_registry::identifier::Identifier;
use content_registry::registry::{
    Commands, IndexConfig, Registry, RegistryAccess, RegistryHandle, RegistryHandles,
    RegistryLoadError, SpriteRef,
};

const CREATURES: &str = r#"{
    "identifier": "creatures",
    "items": { "player": { "sprite": { "file": "player.png", "idx_config": 2 } } }
}"#;

fn creatures(text: &str) -> Registry<LivingEntity> {
    Registry::<LivingEntity>::load(text.as_bytes()).unwrap()
}

#[test]
fn body_starts_dynamic() {
    assert_eq!(RigidBody::default(), RigidBody::Dynamic);
    assert_eq!(Controller::default(), Controller { action: None });
}

#[test]
fn clone_keeps_the_sprite_and_resets_the_rest() {
    let mut controller = Controller::default();
    controller.action(ActionHandle { id: 7 });
    let entity = LivingEntity {
        sprite: SpriteRef { file: Some(String::from("bat.png")), idx_config: IndexConfig::Single(5) },
        controller,
        rb: RigidBody::Kinematic,
    };
    let copy = entity.clone();
    assert_eq!(copy.sprite.file, Some(String::from("bat.png")));
    assert_eq!(copy.sprite.idx_config, IndexConfig::Single(5));
    assert_eq!(copy.controller, Controller { action: None });
    assert_eq!(copy.rb, RigidBody::Dynamic);
    assert_eq!(entity.controller, Controller { action: Some(ActionHandle { id: 7 }) });
    assert_eq!(entity.rb, RigidBody::Kinematic);
}

#[test]
fn controller_hands_its_action_out_once() {
    let mut controller = Controller::default();
    controller.action(ActionHandle { id: 1 });
    controller.action(ActionHandle { id: 2 });
    assert_eq!(controller.take(), Some(ActionHandle { id: 2 }));
    assert_eq!(controller.take(), None);
}

#[test]
fn creature_is_read_with_fresh_steering_and_body() {
    let registry = creatures(CREATURES);
    let player = registry.get(&Identifier::new("player")).unwrap();
    assert_eq!(player.sprite.file, Some(String::from("player.png")));
    assert_eq!(player.sprite.idx_config, IndexConfig::Single(2));
    assert_eq!(player.controller, Controller { action: None });
    assert_eq!(player.rb, RigidBody::Dynamic);
}

#[test]
fn creature_with_other_members_is_refused() {
    let text = r#"{ "identifier": "creatures", "items": { "player": { "sprite": { "idx_config": 2 }, "rb": "Static" } } }"#;
    let loaded = Registry::<LivingEntity>::load(text.as_bytes());
    assert_eq!(loaded.err(), Some(RegistryLoadError::JsonError));
}

#[test]
fn player_is_spawned_once() {
    let registry = creatures(CREATURES);
    let handles: RegistryHandles<LivingEntity> = RegistryHandles::new(RegistryHandle { id: 2 });
    let access = RegistryAccess::new(&handles, Some(&registry));
    let mut commands: Commands<(LivingEntity, Player)> = Commands::new();
    let mut run_once = false;
    for _ in 0..3 {
        spawn_player(&mut commands, &access, &mut run_once);
        assert!(run_once);
        assert_eq!(commands.len(), 1);
    }
    let spawned = commands.into_spawned();
    assert_eq!(spawned[0].0.sprite.idx_config, IndexConfig::Single(2));
    assert_eq!(spawned[0].0.rb, RigidBody::Dynamic);
    assert_eq!(spawned[0].1, Player { marker: PlayerMarker });
}

#[test]
fn player_missing_from_the_catalog_is_not_spawned_but_latched() {
    let registry = creatures(r#"{ "identifier": "creatures", "items": {} }"#);
    let handles: RegistryHandles<LivingEntity> = RegistryHandles::new(RegistryHandle { id: 2 });
    let access = RegistryAccess::new(&handles, Some(&registry));
    let mut commands: Commands<(LivingEntity, Player)> = Commands::new();
    let mut run_once = false;
    spawn_player(&mut commands, &access, &mut run_once);
    assert!(run_once);
    assert_eq!(commands.len(), 0);
}

#[test]
fn latched_spawn_needs_no_catalog() {
    let handles: RegistryHandles<LivingEntity> = RegistryHandles::new(RegistryHandle { id: 2 });
    let access = RegistryAccess::new(&handles, None);
    assert!(access.loaded().is_none());
    let mut commands: Commands<(LivingEntity, Player)> = Commands::new();
    let mut run_once = true;
    spawn_player(&mut commands, &access, &mut run_once);
    assert!(run_once);
    assert_eq!(commands.len(), 0);
}

#[test]
fn keys_are_ranked_up_down_left_right() {
    assert_eq!(control(true, true, true, true), Some(Direction::Y));
    assert_eq!(control(false, true, true, true), Some(Direction::NegY));
    assert_eq!(control(false, false, true, true), Some(Direction::X));
    assert_eq!(control(false, false, false, true), Some(Direction::NegX));
    assert_eq!(control(false, false, false, false), None);
}
