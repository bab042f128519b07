use pumpkin_spawn::float_bits::{F32Bits, F64Bits};
use pumpkin_spawn::math::{BlockPos, Seed};
use pumpkin_spawn::world_info::{
    block_pos_from_int_array, block_pos_to_int_array, default_border_damage_per_block,
    default_border_safe_zone, default_border_size, default_border_warning_blocks,
    default_border_warning_time, default_data_packs, default_difficulty, default_level_name,
    default_level_version, default_spawn_y, BiomeSource, Difficulty, GameRules,
    Dimensions, GeneratorSettings, LevelData, LevelDataSerde, RespawnData, WorldGenSettings, WorldInfoError,
    WorldVersion, MAXIMUM_SUPPORTED_LEVEL_VERSION, MAXIMUM_SUPPORTED_WORLD_DATA_VERSION,
};

#[test]
fn defaults_of_a_new_world() {
    let packs = default_data_packs();
    assert!(packs.disabled.is_empty());
    assert_eq!(packs.enabled, vec!["vanilla".to_string()]);
    assert_eq!(default_difficulty(), Difficulty::Normal);
    assert_eq!(default_level_name(), "world");
    assert_eq!(default_spawn_y(), 200);
    assert_eq!(default_level_version(), 19133);
    assert_eq!(f64::from_bits(default_border_damage_per_block()), 0.2);
    assert_eq!(f64::from_bits(default_border_size()), 60_000_000.0);
    assert_eq!(f64::from_bits(default_border_safe_zone()), 5.0);
    assert_eq!(f64::from_bits(default_border_warning_blocks()), 5.0);
    assert_eq!(f64::from_bits(default_border_warning_time()), 15.0);
    assert_eq!(GameRules::default().respawn_radius, 10);
    assert!(GameRules::default().other_rules.is_empty());
}

#[test]
fn world_version_default() {
    let v = WorldVersion::default();
    assert_eq!(v.name, "1.21.11");
    assert_eq!(v.id, MAXIMUM_SUPPORTED_WORLD_DATA_VERSION);
    assert!(!v.snapshot);
    assert_eq!(v.series, "main");
}

#[test]
fn respawn_data_constructors() {
    let d = RespawnData::default();
    assert_eq!(d.dimension, "minecraft:overworld");
    assert_eq!(d.pos, BlockPos::new(0, 0, 0));
    assert_eq!(f32::from_bits(d.yaw_bits.0), 0.0);
    let r = RespawnData {
        dimension: "minecraft:the_nether".to_string(),
        pos: BlockPos::new(1, 2, 3),
        yaw_bits: F32Bits(90.0f32.to_bits()),
        pitch_bits: F32Bits(10.0f32.to_bits()),
    };
    let moved = r.with_pos(BlockPos::new(7, 8, 9));
    assert_eq!(moved.dimension, "minecraft:the_nether");
    assert_eq!(moved.block_pos(), BlockPos::new(7, 8, 9));
    assert_eq!(moved.yaw_bits, r.yaw_bits);
    assert_eq!(moved.pitch_bits, r.pitch_bits);
}

#[test]
fn world_gen_settings_of_new_world() {
    let s = WorldGenSettings::new(Seed(u64::MAX));
    assert_eq!(s.seed, -1);
    let names: Vec<&str> = s.dimensions.as_slice().iter().map(|(n, _)| n.as_str()).collect();
    assert_eq!(names, vec!["minecraft:overworld", "minecraft:the_nether", "minecraft:the_end"]);
    let nether = &s.dimensions.as_slice()[1].1;
    assert_eq!(nether.dimension_type, "minecraft:the_nether");
    assert_eq!(nether.generator.generator_type, "minecraft:noise");
    assert_eq!(nether.generator.settings, GeneratorSettings::Reference("minecraft:nether".to_string()));
    assert_eq!(
        nether.generator.biome_source,
        Some(BiomeSource::WithPreset {
            preset: "minecraft:nether".to_string(),
            biome_type: "minecraft:multi_noise".to_string()
        })
    );
    assert_eq!(
        s.dimensions.as_slice()[2].1.generator.biome_source,
        Some(BiomeSource::Simple { biome_type: "minecraft:the_end".to_string() })
    );
}

#[test]
fn level_data_default_and_spawn_accessors() {
    let mut d = LevelData::default(Seed(42));
    assert!(d.allow_commands);
    assert_eq!(d.clear_weather_time, -1);
    assert_eq!(d.last_played, -1);
    assert_eq!(d.level_name, "world");
    assert_eq!(d.data_version, MAXIMUM_SUPPORTED_WORLD_DATA_VERSION);
    assert_eq!(d.level_version, MAXIMUM_SUPPORTED_LEVEL_VERSION);
    assert_eq!(d.world_gen_settings.seed, 42);
    assert_eq!(d.spawn_pos(), BlockPos::new(0, 200, 0));
    assert_eq!(d.spawn_dimension(), "minecraft:overworld");
    assert_eq!(d.spawn_rotation(), (F32Bits(0), F32Bits(0)));
    assert_eq!(f64::from_bits(d.border_size_lerp_target_bits.0), 60_000_000.0);

    let before = d.clone();
    d.set_spawn_pos(BlockPos::new(-5, 66, 12));
    assert_eq!(d.spawn_pos(), BlockPos::new(-5, 66, 12));
    assert_eq!(d.spawn_dimension(), "minecraft:overworld");
    assert_eq!(d.level_name, before.level_name);

    let end_spawn = RespawnData {
        dimension: "minecraft:the_end".to_string(),
        pos: BlockPos::new(100, 49, 0),
        yaw_bits: F32Bits(1.5f32.to_bits()),
        pitch_bits: F32Bits(0),
    };
    d.set_spawn(end_spawn.clone());
    assert_eq!(d.spawn, end_spawn);
    assert_eq!(d.spawn_rotation(), (F32Bits(1.5f32.to_bits()), F32Bits(0)));
}

fn stored_without_spawn() -> LevelDataSerde {
    let mut s = LevelDataSerde::from_level_data(LevelData::default(Seed(7)));
    s.spawn = None;
    s
}

#[test]
fn level_data_store_then_read_round_trip() {
    let mut d = LevelData::default(Seed(3));
    d.set_spawn_pos(BlockPos::new(12, 80, -3));
    d.day_time = 6000;
    let stored = LevelDataSerde::from_level_data(d.clone());
    assert_eq!(stored.spawn, Some(d.spawn.clone()));
    assert_eq!(stored.spawn_x, None);
    assert_eq!(LevelData::from_stored(stored), d);
}

#[test]
fn legacy_spawn_fields_are_read() {
    let mut s = stored_without_spawn();
    s.spawn_x = Some(10);
    s.spawn_z = Some(-4);
    s.spawn_yaw_bits = Some(F32Bits(45.0f32.to_bits()));
    let d = LevelData::from_stored(s);
    assert_eq!(d.spawn.dimension, "minecraft:overworld");
    assert_eq!(d.spawn_pos(), BlockPos::new(10, 200, -4));
    assert_eq!(d.spawn_rotation(), (F32Bits(45.0f32.to_bits()), F32Bits(0)));
}

#[test]
fn missing_spawn_defaults() {
    let d = LevelData::from_stored(stored_without_spawn());
    assert_eq!(d.spawn_pos(), BlockPos::new(0, 200, 0));
    assert_eq!(d.spawn_rotation(), (F32Bits(0), F32Bits(0)));
}

#[test]
fn block_pos_int_array() {
    let p = BlockPos::new(-3, 70, 1_000_000);
    let coords = block_pos_to_int_array(p);
    assert_eq!(coords, vec![-3, 70, 1_000_000]);
    assert_eq!(block_pos_from_int_array(&coords), Some(p));
    assert_eq!(block_pos_from_int_array(&[1, 2]), None);
    assert_eq!(block_pos_from_int_array(&[1, 2, 3, 4]), None);
    assert_eq!(block_pos_from_int_array(&[]), None);
}

#[test]
fn world_info_error_variants() {
    let errors = vec![
        WorldInfoError::IoError(std::io::ErrorKind::PermissionDenied),
        WorldInfoError::InfoNotFound,
        WorldInfoError::DeserializationError("bad".to_string()),
        WorldInfoError::UnsupportedDataVersion(100),
        WorldInfoError::UnsupportedLevelVersion(1),
    ];
    assert_eq!(errors.len(), 5);
    assert!(format!("{:?}", errors[0]).contains("PermissionDenied"));
}

#[test]
fn dimensions_insert_replaces_by_name() {
    let base = WorldGenSettings::new(Seed(1)).dimensions;
    let end = base.as_slice()[2].1.clone();
    let mut dims = Dimensions::new();
    dims.insert("minecraft:overworld".to_string(), end.clone());
    dims.insert("minecraft:the_end".to_string(), end.clone());
    let overworld = base.as_slice()[0].1.clone();
    dims.insert("minecraft:overworld".to_string(), overworld.clone());
    let entries = dims.clone().into_entries();
    assert_eq!(entries.len(), 2);
    assert_eq!(entries[0], ("minecraft:overworld".to_string(), overworld));
    assert_eq!(entries[1].0, "minecraft:the_end");
}

#[test]
fn other_game_rules_survive_store_and_read() {
    let mut d = LevelData::default(Seed(9));
    d.game_rules.respawn_radius = 3;
    d.game_rules.other_rules.push(("keepInventory".to_string(), "true".to_string()));
    let back = LevelData::from_stored(LevelDataSerde::from_level_data(d.clone()));
    assert_eq!(back.game_rules, d.game_rules);
}

#[test]
fn float_bits_compare_as_floats() {
    assert_eq!(F32Bits(0.0f32.to_bits()), F32Bits((-0.0f32).to_bits()));
    assert_ne!(F32Bits(f32::NAN.to_bits()), F32Bits(f32::NAN.to_bits()));
    assert_ne!(F32Bits(1.0f32.to_bits()), F32Bits(2.0f32.to_bits()));
    assert_eq!(F64Bits(0.0f64.to_bits()), F64Bits((-0.0f64).to_bits()));
    assert_ne!(F64Bits(f64::NAN.to_bits()), F64Bits(f64::NAN.to_bits()));
    assert_eq!(F64Bits(0.2f64.to_bits()), F64Bits(0.2f64.to_bits()));
    // spawns that differ only in the sign of a zero angle are equal, as the floats are
    let a = RespawnData::overworld(BlockPos::new(1, 2, 3));
    let mut b = a.clone();
    b.yaw_bits = F32Bits((-0.0f32).to_bits());
    assert_eq!(a, b);
    b.pitch_bits = F32Bits(f32::NAN.to_bits());
    assert_ne!(b.clone(), b);
}

#[test]
fn dimensions_clone_keeps_entries() {
    let dims = WorldGenSettings::new(Seed(5)).dimensions;
    assert_eq!(dims.clone(), dims);
    let mut with_compound = Dimensions::new();
    let mut dim = dims.as_slice()[0].1.clone();
    dim.generator.settings = GeneratorSettings::Compound(vec![10, 0, 0]);
    with_compound.insert("custom".to_string(), dim);
    assert_eq!(with_compound.clone(), with_compound);
}
