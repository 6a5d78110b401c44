use content_registry::assets::Atlases;
use content_registry::atlas::{AtlasConfig, LayoutHandle, LayoutStore};
use content_registry::identifier::Identifier;
use content_registry::json::Json;
use content_registry::registry::items::Item;
use content_registry::registry::{
    Commands, IndexConfig, Registry, RegistryAccess, RegistryHandle, RegistryHandles,
    RegistryLoadError, Resolution, SpriteRef, Visual,
};
use content_registry::render::animation::{Animated, AnimationConfig};
use content_registry::render::{ImageHandle, Sprite, TextureAtlas};

const ITEMS: &str = r#"{
    "identifier": "items",
    "atlas_layout": { "tile_size": [16, 16], "columns": 8, "rows": 4 },
    "items": {
        "sword": { "sprite": { "idx_config": 3 } },
        "torch": { "sprite": { "file": "torch.png", "idx_config": { "start": 4, "stop": 7, "fps": 10 } } }
    }
}"#;

const PLAIN: &str = r#"{ "identifier": "plain", "items": { "rock": { "sprite": { "idx_config": 0 } } } }"#;

fn load(text: &str) -> Result<Registry<Item>, RegistryLoadError> {
    Registry::<Item>::load(text.as_bytes())
}

#[test]
fn load_reads_items_name_and_grid() {
    let registry = load(ITEMS).unwrap();
    assert_eq!(registry.identifier(), "items");
    assert_eq!(registry.len(), 2);
    assert_eq!(registry.atlas_layout(), AtlasConfig::new((16, 16), 8, 4));
    assert!(registry.contains(&Identifier::new("sword")));
    assert!(registry.contains(&Identifier::new("torch")));
    assert!(!registry.contains(&Identifier::new("shield")));
    let sword = registry.get(&Identifier::new("sword")).unwrap();
    assert_eq!(sword.sprite.file, None);
    assert_eq!(sword.sprite.idx_config, IndexConfig::Single(3));
    let torch = registry.get(&Identifier::new("torch")).unwrap();
    assert_eq!(torch.sprite.file, Some(String::from("torch.png")));
    assert_eq!(torch.sprite.idx_config, IndexConfig::Range(AnimationConfig::new(4, 7, 10)));
}

#[test]
fn load_twice_gives_the_same_catalog() {
    let first = load(ITEMS).unwrap();
    let second = load(ITEMS).unwrap();
    assert_eq!(first.identifier(), second.identifier());
    assert_eq!(first.atlas_layout(), second.atlas_layout());
    assert_eq!(first.len(), second.len());
    for name in ["sword", "torch"] {
        let id = Identifier::new(name);
        let a = first.get(&id).unwrap();
        let b = second.get(&id).unwrap();
        assert_eq!(a.sprite.file, b.sprite.file);
        assert_eq!(a.sprite.idx_config, b.sprite.idx_config);
    }
}

#[test]
fn load_without_grid_declares_none() {
    let registry = load(PLAIN).unwrap();
    assert_eq!(registry.identifier(), "plain");
    assert_eq!(registry.atlas_layout(), None);
    let with_null = load(r#"{ "identifier": "plain", "atlas_layout": null, "items": {} }"#).unwrap();
    assert_eq!(with_null.atlas_layout(), None);
    assert_eq!(with_null.len(), 0);
}

#[test]
fn load_refuses_bytes_that_are_no_text() {
    let loaded = Registry::<Item>::load(&[0x7b, 0xff, 0x7d]);
    assert_eq!(loaded.err(), Some(RegistryLoadError::IoError));
}

#[test]
fn load_refuses_text_that_is_no_json() {
    assert_eq!(load("{ \"identifier\": ").err(), Some(RegistryLoadError::JsonError));
    assert_eq!(load("").err(), Some(RegistryLoadError::JsonError));
    assert_eq!(load("{} trailing").err(), Some(RegistryLoadError::JsonError));
}

#[test]
fn load_refuses_a_missing_identifier() {
    let text = r#"{ "items": { "sword": { "sprite": { "idx_config": 3 } } } }"#;
    assert_eq!(load(text).err(), Some(RegistryLoadError::JsonError));
}

#[test]
fn load_refuses_missing_items() {
    assert_eq!(load(r#"{ "identifier": "items" }"#).err(), Some(RegistryLoadError::JsonError));
}

#[test]
fn load_refuses_members_of_the_wrong_type() {
    for text in [
        r#"{ "identifier": 7, "items": {} }"#,
        r#"{ "identifier": "items", "items": [] }"#,
        r#"{ "identifier": "items", "items": {}, "atlas_layout": 3 }"#,
        r#"{ "identifier": "items", "items": {}, "atlas_layout": { "tile_size": [16], "columns": 8, "rows": 4 } }"#,
        r#"{ "identifier": "items", "items": {}, "atlas_layout": { "tile_size": [16, 16], "columns": 8.5, "rows": 4 } }"#,
        r#"{ "identifier": "items", "items": {}, "atlas_layout": { "tile_size": [16, 16], "columns": -8, "rows": 4 } }"#,
        r#"{ "identifier": "items", "items": {}, "atlas_layout": { "tile_size": [16, 16], "columns": 4294967296, "rows": 4 } }"#,
        r#"{ "identifier": "items", "items": { "sword": 3 } }"#,
        r#"{ "identifier": "items", "items": { "sword": { "sprite": { "idx_config": "3" } } } }"#,
        r#"{ "identifier": "items", "items": { "sword": { "sprite": { "idx_config": -1 } } } }"#,
        r#"{ "identifier": "items", "items": { "sword": { "sprite": { "idx_config": 1.5 } } } }"#,
        r#"{ "identifier": "items", "items": { "sword": { "sprite": { "file": 3, "idx_config": 1 } } } }"#,
        r#"{ "identifier": "items", "items": { "sword": { "sprite": { "idx_config": { "start": 0, "stop": 3 } } } } }"#,
        r#"{ "identifier": "items", "items": { "sword": { "sprite": { "idx_config": { "start": 0, "stop": 3, "fps": 256 } } } } }"#,
        r#"{ "identifier": "items", "items": { "sword": { "sprite": { "idx_config": { "start": 0, "stop": 3, "fps": 0 } } } } }"#,
    ] {
        assert_eq!(load(text).err(), Some(RegistryLoadError::JsonError), "{}", text);
    }
}

#[test]
fn load_refuses_unknown_item_members() {
    for text in [
        r#"{ "identifier": "items", "items": { "sword": { "sprite": { "idx_config": 3 }, "damage": 4 } } }"#,
        r#"{ "identifier": "items", "items": { "sword": { "sprite": { "idx_config": 3, "tint": "red" } } } }"#,
        r#"{ "identifier": "items", "items": { "sword": { "sprite": { "idx_config": { "start": 0, "stop": 3, "fps": 10, "loop": true } } } } }"#,
        r#"{ "identifier": "items", "items": { "sword": {} } }"#,
    ] {
        assert_eq!(load(text).err(), Some(RegistryLoadError::JsonError), "{}", text);
    }
}

#[test]
fn load_passes_over_unknown_members_of_the_catalog() {
    let registry = load(r#"{ "identifier": "items", "items": {}, "version": 2 }"#).unwrap();
    assert_eq!(registry.len(), 0);
}

#[test]
fn load_refuses_a_grid_too_large_for_the_machine() {
    let text = r#"{ "identifier": "items", "items": {}, "atlas_layout": { "tile_size": [65536, 1], "columns": 65536, "rows": 1 } }"#;
    assert_eq!(load(text).err(), Some(RegistryLoadError::JsonError));
}

#[test]
fn from_json_takes_the_last_member_of_a_name() {
    let sprite = |index: u64| {
        Json::Object(vec![(
            String::from("sprite"),
            Json::Object(vec![(String::from("idx_config"), Json::Unsigned(index))]),
        )])
    };
    let doc = Json::Object(vec![
        (String::from("identifier"), Json::Text(String::from("first"))),
        (String::from("identifier"), Json::Text(String::from("second"))),
        (
            String::from("items"),
            Json::Object(vec![(String::from("sword"), sprite(1)), (String::from("sword"), sprite(2))]),
        ),
    ]);
    let registry = Registry::<Item>::from_json(&doc).unwrap();
    assert_eq!(registry.identifier(), "second");
    assert_eq!(registry.len(), 1);
    let sword = registry.get(&Identifier::new("sword")).unwrap();
    assert_eq!(sword.sprite.idx_config, IndexConfig::Single(2));
}

#[test]
fn parse_keeps_whole_numbers_and_drops_the_value_of_others() {
    let doc = Json::parse(r#"{ "a": 18446744073709551615, "b": -3, "c": 1.5, "d": [true, null, "x"] }"#).unwrap();
    assert_eq!(doc.member("a").unwrap().unsigned(), Some(18446744073709551615));
    assert!(matches!(doc.member("b"), Some(Json::Signed(-3))));
    assert!(matches!(doc.member("c"), Some(Json::Real)));
    match doc.member("d") {
        Some(Json::Array(parts)) => {
            assert_eq!(parts.len(), 3);
            assert!(matches!(parts[0], Json::Bool(true)));
            assert!(matches!(parts[1], Json::Null));
            assert!(matches!(&parts[2], Json::Text(s) if s == "x"));
        }
        _ => panic!("d is an array"),
    }
    assert!(doc.member("e").is_none());
    assert!(Json::parse("not json").is_none());
}

#[test]
fn spawn_hands_out_a_copy_with_the_addition() {
    let registry = load(ITEMS).unwrap();
    let mut commands: Commands<(Item, u32)> = Commands::new();
    assert!(registry.spawn(&mut commands, &Identifier::new("sword"), 42));
    assert_eq!(commands.len(), 1);
    let spawned = commands.into_spawned();
    assert_eq!(spawned[0].0.sprite.idx_config, IndexConfig::Single(3));
    assert_eq!(spawned[0].1, 42);
    assert!(registry.contains(&Identifier::new("sword")));
}

#[test]
fn spawn_of_an_unknown_identifier_creates_nothing() {
    let registry = load(ITEMS).unwrap();
    let mut commands: Commands<(Item, u32)> = Commands::new();
    assert!(!registry.spawn(&mut commands, &Identifier::new("unknown"), 42));
    assert_eq!(commands.len(), 0);
}

#[test]
fn layout_is_built_once_however_often_the_step_runs() {
    let registry = load(ITEMS).unwrap();
    let mut handles: RegistryHandles<Item> = RegistryHandles::new(RegistryHandle { id: 1 });
    let mut layouts = LayoutStore::new();
    let mut run_once = false;
    for _ in 0..3 {
        Registry::<Item>::create_atlas_handle(None, &mut handles, &mut layouts, &mut run_once);
    }
    assert_eq!(layouts.len(), 0);
    assert_eq!(handles.atlas_layout(), None);
    assert!(!run_once);
    for _ in 0..5 {
        Registry::create_atlas_handle(Some(&registry), &mut handles, &mut layouts, &mut run_once);
        assert_eq!(layouts.len(), 1);
        assert_eq!(handles.atlas_layout(), Some(LayoutHandle { index: 0 }));
        assert!(run_once);
    }
    assert_eq!(handles.registry(), RegistryHandle { id: 1 });
    assert_eq!(layouts.get(LayoutHandle { index: 0 }).unwrap().len(), 32);
    assert!(layouts.get(LayoutHandle { index: 1 }).is_none());
}

#[test]
fn catalog_without_grid_never_gets_a_layout() {
    let registry = load(PLAIN).unwrap();
    let mut handles: RegistryHandles<Item> = RegistryHandles::new(RegistryHandle { id: 1 });
    let mut layouts = LayoutStore::new();
    let mut run_once = false;
    for _ in 0..5 {
        Registry::create_atlas_handle(Some(&registry), &mut handles, &mut layouts, &mut run_once);
        assert_eq!(layouts.len(), 0);
        assert_eq!(handles.atlas_layout(), None);
        assert!(run_once);
    }
}

fn pending(idx_config: IndexConfig) -> Visual {
    Visual::Pending(SpriteRef { file: None, idx_config })
}

fn sprite(image: u64, layout: usize, index: usize) -> Sprite {
    Sprite {
        image: ImageHandle { id: image },
        texture_atlas: Some(TextureAtlas { layout: LayoutHandle { index: layout }, index }),
    }
}

fn ready(registry: &Registry<Item>) -> (RegistryHandles<Item>, LayoutStore) {
    let mut handles: RegistryHandles<Item> = RegistryHandles::new(RegistryHandle { id: 1 });
    let mut layouts = LayoutStore::new();
    let mut run_once = false;
    Registry::create_atlas_handle(Some(registry), &mut handles, &mut layouts, &mut run_once);
    (handles, layouts)
}

fn assert_static(visual: &Visual, expected: Sprite) {
    match visual {
        Visual::Static(found) => assert_eq!(*found, expected),
        other => panic!("not a static sprite: {:?}", other),
    }
}

#[test]
fn resolver_turns_references_into_sprites() {
    let registry = load(ITEMS).unwrap();
    let (handles, _layouts) = ready(&registry);
    let access = RegistryAccess::new(&handles, Some(&registry));
    let atlases = Atlases { items: ImageHandle { id: 9 } };
    let animation = AnimationConfig::new(4, 7, 10);
    let mut entities = vec![
        pending(IndexConfig::Single(3)),
        Visual::Static(sprite(5, 2, 1)),
        pending(IndexConfig::Range(animation)),
    ];
    let outcome = Registry::<Item>::update_sprite_refs(&mut entities, &access, &atlases);
    assert_eq!(outcome, Resolution::Resolved);
    assert_static(&entities[0], sprite(9, 0, 3));
    assert_static(&entities[1], sprite(5, 2, 1));
    match &entities[2] {
        Visual::Animated(found) => {
            assert_eq!(*found, Animated { sprite: sprite(9, 0, 4), config: animation })
        }
        other => panic!("not animated: {:?}", other),
    }
}

#[test]
fn resolver_run_twice_adds_nothing() {
    let registry = load(ITEMS).unwrap();
    let (handles, _layouts) = ready(&registry);
    let access = RegistryAccess::new(&handles, Some(&registry));
    let atlases = Atlases { items: ImageHandle { id: 9 } };
    let mut entities = vec![pending(IndexConfig::Single(3))];
    assert_eq!(
        Registry::<Item>::update_sprite_refs(&mut entities, &access, &atlases),
        Resolution::Resolved
    );
    assert_eq!(
        Registry::<Item>::update_sprite_refs(&mut entities, &access, &atlases),
        Resolution::Resolved
    );
    assert_eq!(entities.len(), 1);
    assert_static(&entities[0], sprite(9, 0, 3));
}

#[test]
fn resolver_reports_a_catalog_without_grid_and_changes_nothing() {
    let registry = load(PLAIN).unwrap();
    let (handles, _layouts) = ready(&registry);
    let access = RegistryAccess::new(&handles, Some(&registry));
    let atlases = Atlases { items: ImageHandle { id: 9 } };
    let mut entities = vec![pending(IndexConfig::Single(3))];
    let outcome = Registry::<Item>::update_sprite_refs(&mut entities, &access, &atlases);
    assert_eq!(outcome, Resolution::NoAtlas);
    assert!(matches!(entities[0], Visual::Pending(_)));
}

#[test]
fn resolver_before_the_layout_is_built_waits() {
    let registry = load(ITEMS).unwrap();
    let handles: RegistryHandles<Item> = RegistryHandles::new(RegistryHandle { id: 1 });
    let atlases = Atlases { items: ImageHandle { id: 9 } };
    let mut entities = vec![pending(IndexConfig::Single(3))];
    let unloaded = RegistryAccess::new(&handles, None);
    let outcome = Registry::<Item>::update_sprite_refs(&mut entities, &unloaded, &atlases);
    assert_eq!(outcome, Resolution::NotReady);
    let loaded = RegistryAccess::new(&handles, Some(&registry));
    let outcome = Registry::<Item>::update_sprite_refs(&mut entities, &loaded, &atlases);
    assert_eq!(outcome, Resolution::NotReady);
    assert!(matches!(entities[0], Visual::Pending(_)));
}

#[test]
fn resolver_without_image_leaves_references_pending() {
    let text = r#"{ "identifier": "creatures", "atlas_layout": { "tile_size": [16, 16], "columns": 2, "rows": 2 }, "items": {} }"#;
    let registry = load(text).unwrap();
    let (handles, _layouts) = ready(&registry);
    let access = RegistryAccess::new(&handles, Some(&registry));
    let atlases = Atlases { items: ImageHandle { id: 9 } };
    let mut entities = vec![Visual::Static(sprite(5, 2, 1)), pending(IndexConfig::Single(3))];
    let outcome = Registry::<Item>::update_sprite_refs(&mut entities, &access, &atlases);
    assert_eq!(outcome, Resolution::MissingImage);
    assert_static(&entities[0], sprite(5, 2, 1));
    assert!(matches!(entities[1], Visual::Pending(_)));
    let mut resolved = vec![Visual::Static(sprite(5, 2, 1))];
    let outcome = Registry::<Item>::update_sprite_refs(&mut resolved, &access, &atlases);
    assert_eq!(outcome, Resolution::Resolved);
}
