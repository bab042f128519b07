//! Level metadata of a world (`level.dat`): its spawn, border, generator
//! settings, data packs and versions, with the defaults of a new world and
//! the conversion from and to the stored layout.
//!
//! Floating-point values are carried as the bit patterns of their IEEE 754
//! encoding (`F32Bits`, `F64Bits`), compared as the floats they stand for;
//! nothing here computes with them.

use vstd::prelude::*;
use crate::float_bits::{F32Bits, F64Bits};
use crate::math::{BlockPos, Seed, Vector3};

verus! {

broadcast use vstd::string::to_string_from_display_ensures_for_str;

/// Oldest world data version that can be loaded.
pub const MINIMUM_SUPPORTED_WORLD_DATA_VERSION: i32 = 4435;
/// Newest world data version that can be loaded.
pub const MAXIMUM_SUPPORTED_WORLD_DATA_VERSION: i32 = 4671;
/// Oldest level format version that can be loaded.
pub const MINIMUM_SUPPORTED_LEVEL_VERSION: i32 = 19132;
/// Newest level format version that can be loaded.
pub const MAXIMUM_SUPPORTED_LEVEL_VERSION: i32 = 19133;

/// Bits of the `f64` 0.2.
pub const DEFAULT_BORDER_DAMAGE_PER_BLOCK_BITS: u64 = 0x3fc9_9999_9999_999a;
/// Bits of the `f64` 60 000 000.0.
pub const DEFAULT_BORDER_SIZE_BITS: u64 = 0x418c_9c38_0000_0000;
/// Bits of the `f64` 5.0.
pub const DEFAULT_BORDER_SAFE_ZONE_BITS: u64 = 0x4014_0000_0000_0000;
/// Bits of the `f64` 5.0.
pub const DEFAULT_BORDER_WARNING_BLOCKS_BITS: u64 = 0x4014_0000_0000_0000;
/// Bits of the `f64` 15.0.
pub const DEFAULT_BORDER_WARNING_TIME_BITS: u64 = 0x402e_0000_0000_0000;
/// The height of the spawn of a new world, and of a stored spawn without one.
pub const DEFAULT_SPAWN_Y: i32 = 200;

/// The name of the overworld dimension.
pub open spec fn overworld_name() -> Seq<char> {
    "minecraft:overworld"@
}

/// The version name of the game this world format belongs to.
pub open spec fn current_mc_version() -> Seq<char> {
    "1.21.11"@
}

/// The difficulty of a world.
#[derive(Clone, Copy, Debug, PartialEq, Eq, Structural)]
pub enum Difficulty {
    Peaceful,
    Easy,
    Normal,
    Hard,
}

/// The game rules of a world: the spawn radius, which the spawn search
/// reads, and every other rule by name with its stored value.
#[derive(Clone, Debug, PartialEq, Eq)]
pub struct GameRules {
    /// Radius around the world spawn in which players without a respawn
    /// point are placed (`spawnRadius`).
    pub respawn_radius: i32,
    /// The other rules, by name, with their values as stored; a rule not
    /// listed stands at its default.
    pub other_rules: Vec<(String, String)>,
}

impl Default for GameRules {
    fn default() -> (r: Self)
        ensures
            r.respawn_radius == 10,
            r.other_rules@.len() == 0,
    {
        GameRules { respawn_radius: 10, other_rules: Vec::new() }
    }
}

/// Where players without a respawn point of their own appear.
#[derive(Clone, Debug, PartialEq)]
pub struct RespawnData {
    pub dimension: String,
    pub pos: BlockPos,
    /// Bits of the `f32` yaw.
    pub yaw_bits: F32Bits,
    /// Bits of the `f32` pitch.
    pub pitch_bits: F32Bits,
}

impl Default for RespawnData {
    fn default() -> (r: Self)
        ensures
            r.dimension@ == overworld_name(),
            r.pos == BlockPos(Vector3 { x: 0, y: 0, z: 0 }),
            r.yaw_bits == F32Bits(0),
            r.pitch_bits == F32Bits(0),
    {
        Self::overworld(BlockPos::zero())
    }
}

impl RespawnData {
    /// A spawn in the overworld at `pos`, facing yaw 0 and pitch 0.
    pub fn overworld(pos: BlockPos) -> (r: Self)
        ensures
            r.dimension@ == overworld_name(),
            r.pos == pos,
            r.yaw_bits == F32Bits(0),
            r.pitch_bits == F32Bits(0),
    {
        RespawnData { dimension: "minecraft:overworld".to_string(), pos, yaw_bits: F32Bits(0), pitch_bits: F32Bits(0) }
    }

    /// The same spawn moved to `pos`.
    pub fn with_pos(&self, pos: BlockPos) -> (r: Self)
        ensures
            r.dimension == self.dimension,
            r.pos == pos,
            r.yaw_bits == self.yaw_bits,
            r.pitch_bits == self.pitch_bits,
    {
        RespawnData {
            dimension: self.dimension.clone(),
            pos,
            yaw_bits: self.yaw_bits,
            pitch_bits: self.pitch_bits,
        }
    }

    pub fn block_pos(&self) -> (p: BlockPos)
        ensures
            p == self.pos,
    {
        self.pos
    }
}

/// The data packs of a world.
#[derive(Clone, Debug, PartialEq, Eq)]
pub struct DataPacks {
    pub disabled: Vec<String>,
    pub enabled: Vec<String>,
}

/// The version of the game that last wrote a world.
#[derive(Clone, Debug, PartialEq, Eq)]
pub struct WorldVersion {
    /// The version name, such as "15w32b".
    pub name: String,
    /// The data version.
    pub id: i32,
    /// Whether the version is a snapshot.
    pub snapshot: bool,
    /// The development series, "main" outside experimental snapshots.
    pub series: String,
}

impl Default for WorldVersion {
    fn default() -> (r: Self)
        ensures
            r.name@ == current_mc_version(),
            r.id == MAXIMUM_SUPPORTED_WORLD_DATA_VERSION,
            !r.snapshot,
            r.series@ == "main"@,
    {
        WorldVersion {
            name: "1.21.11".to_string(),
            id: MAXIMUM_SUPPORTED_WORLD_DATA_VERSION,
            snapshot: false,
            series: "main".to_string(),
        }
    }
}

/// The source of biomes of a dimension's generator.
#[derive(Debug, PartialEq, Eq)]
pub enum BiomeSource {
    WithPreset { preset: String, biome_type: String },
    Simple { biome_type: String },
}

/// The settings of a dimension's generator: a reference to built-in settings
/// by name, or an inline compound kept in its NBT binary encoding.
#[derive(Debug, PartialEq)]
pub enum GeneratorSettings {
    Reference(String),
    Compound(Vec<u8>),
}

/// The generator of a dimension.
#[derive(Debug, PartialEq)]
pub struct Generator {
    pub settings: GeneratorSettings,
    pub biome_source: Option<BiomeSource>,
    pub generator_type: String,
}

/// A dimension of a world.
#[derive(Debug, PartialEq)]
pub struct Dimension {
    pub generator: Generator,
    pub dimension_type: String,
}

/// Two generator settings hold the same reference, or compounds with the
/// same bytes.
pub open spec fn same_settings(a: GeneratorSettings, b: GeneratorSettings) -> bool {
    match (a, b) {
        (GeneratorSettings::Reference(x), GeneratorSettings::Reference(y)) => x == y,
        (GeneratorSettings::Compound(x), GeneratorSettings::Compound(y)) => x@ == y@,
        _ => false,
    }
}

/// Two generators agree in every field.
pub open spec fn same_generator(a: Generator, b: Generator) -> bool {
    &&& same_settings(a.settings, b.settings)
    &&& a.biome_source == b.biome_source
    &&& a.generator_type == b.generator_type
}

/// Two dimensions agree in every field.
pub open spec fn same_dimension(a: Dimension, b: Dimension) -> bool {
    &&& same_generator(a.generator, b.generator)
    &&& a.dimension_type == b.dimension_type
}

impl Clone for BiomeSource {
    fn clone(&self) -> (c: Self)
        ensures
            c == *self,
    {
        match self {
            BiomeSource::WithPreset { preset, biome_type } => BiomeSource::WithPreset {
                preset: preset.clone(),
                biome_type: biome_type.clone(),
            },
            BiomeSource::Simple { biome_type } => BiomeSource::Simple { biome_type: biome_type.clone() },
        }
    }
}

impl Clone for GeneratorSettings {
    fn clone(&self) -> (c: Self)
        ensures
            same_settings(c, *self),
    {
        match self {
            GeneratorSettings::Reference(name) => GeneratorSettings::Reference(name.clone()),
            GeneratorSettings::Compound(bytes) => {
                let copy = bytes.clone();
                proof {
                    assert(copy@ =~= bytes@);
                }
                GeneratorSettings::Compound(copy)
            },
        }
    }
}

impl Clone for Generator {
    fn clone(&self) -> (c: Self)
        ensures
            same_generator(c, *self),
    {
        let biome_source = match &self.biome_source {
            Some(source) => Some(source.clone()),
            None => None,
        };
        Generator {
            settings: self.settings.clone(),
            biome_source,
            generator_type: self.generator_type.clone(),
        }
    }
}

impl Clone for Dimension {
    fn clone(&self) -> (c: Self)
        ensures
            same_dimension(c, *self),
    {
        Dimension { generator: self.generator.clone(), dimension_type: self.dimension_type.clone() }
    }
}


/// No dimension name occurs twice.
pub open spec fn dimensions_wf(dimensions: Seq<(String, Dimension)>) -> bool {
    forall|i: int, j: int|
        0 <= i < dimensions.len() && 0 <= j < dimensions.len() && i != j ==> #[trigger] dimensions[i].0@
            != #[trigger] dimensions[j].0@
}

/// The index of the entry named `name`, if there is one.
pub open spec fn name_index(entries: Seq<(String, Dimension)>, name: Seq<char>) -> Option<int> {
    if exists|i: int| 0 <= i < entries.len() && #[trigger] entries[i].0@ == name {
        Some(choose|i: int| 0 <= i < entries.len() && #[trigger] entries[i].0@ == name)
    } else {
        None
    }
}

/// The dimensions of a world by name, each name at most once, in the order
/// their names were first inserted. A vector of entries with unique names
/// stands for a hash map here: with `String` keys, vstd's `HashMap`
/// specification lets nothing be proved about lookups or insertions, while
/// the names in a vector can be compared one by one.
#[derive(Debug, PartialEq)]
pub struct Dimensions {
    entries: Vec<(String, Dimension)>,
}

impl Dimensions {
    #[verifier::type_invariant]
    spec fn names_unique(self) -> bool {
        dimensions_wf(self.entries@)
    }

    /// The entries, name and dimension.
    pub closed spec fn entries(self) -> Seq<(String, Dimension)> {
        self.entries@
    }

    /// No dimensions.
    pub fn new() -> (d: Self)
        ensures
            d.entries() == Seq::<(String, Dimension)>::empty(),
    {
        Dimensions { entries: Vec::new() }
    }

    /// Sets the dimension named `name`: replaces the entry of that name
    /// where there is one, else adds an entry at the end.
    pub fn insert(&mut self, name: String, dimension: Dimension)
        ensures
            dimensions_wf(final(self).entries()),
            match name_index(old(self).entries(), name@) {
                Some(i) => final(self).entries() == old(self).entries().update(i, (name, dimension)),
                None => final(self).entries() == old(self).entries().push((name, dimension)),
            },
    {
        proof {
            use_type_invariant(&*self);
        }
        let mut entries: Vec<(String, Dimension)> = Vec::new();
        std::mem::swap(&mut entries, &mut self.entries);
        let ghost old_entries = entries@;
        let mut index: usize = 0;
        let mut found = false;
        while index < entries.len()
            invariant_except_break
                !found,
            invariant
                entries@ == old_entries,
                dimensions_wf(old_entries),
                0 <= index <= entries.len(),
                forall|k: int| 0 <= k < index ==> #[trigger] old_entries[k].0@ != name@,
            ensures
                entries@ == old_entries,
                0 <= index <= entries.len(),
                forall|k: int| 0 <= k < index ==> #[trigger] old_entries[k].0@ != name@,
                found ==> index < entries.len() && old_entries[index as int].0@ == name@,
                !found ==> index == entries.len(),
            decreases entries.len() - index,
        {
            if entries[index].0 == name {
                found = true;
                break;
            }
            index = index + 1;
        }
        if found {
            proof {
                assert(name_index(old_entries, name@) == Some(index as int));
            }
            let ghost name_view = name@;
            entries.set(index, (name, dimension));
            proof {
                assert forall|i: int, j: int|
                    0 <= i < entries@.len() && 0 <= j < entries@.len() && i != j implies #[trigger] entries@[i].0@
                    != #[trigger] entries@[j].0@ by {
                    assert(entries@[i].0@ == old_entries[i].0@);
                    assert(entries@[j].0@ == old_entries[j].0@);
                }
            }
        } else {
            let ghost name_view = name@;
            entries.push((name, dimension));
            proof {
                assert forall|i: int, j: int|
                    0 <= i < entries@.len() && 0 <= j < entries@.len() && i != j implies #[trigger] entries@[i].0@
                    != #[trigger] entries@[j].0@ by {
                    if i < old_entries.len() && j < old_entries.len() {
                        assert(entries@[i] == old_entries[i]);
                        assert(entries@[j] == old_entries[j]);
                    } else if i < old_entries.len() {
                        assert(entries@[i] == old_entries[i]);
                        assert(entries@[j].0@ == name_view);
                    } else {
                        assert(entries@[j] == old_entries[j]);
                        assert(entries@[i].0@ == name_view);
                    }
                }
            }
        }
        self.entries = entries;
    }

    /// The entries, in order.
    pub fn as_slice(&self) -> (s: &[(String, Dimension)])
        ensures
            s@ == self.entries(),
            dimensions_wf(self.entries()),
    {
        proof {
            use_type_invariant(self);
        }
        self.entries.as_slice()
    }

    /// The entries, in order.
    pub fn into_entries(self) -> (v: Vec<(String, Dimension)>)
        ensures
            v@ == self.entries(),
            dimensions_wf(v@),
    {
        proof {
            use_type_invariant(&self);
        }
        self.entries
    }
}

impl Clone for Dimensions {
    /// A copy with the same entries in the same order.
    fn clone(&self) -> (c: Self)
        ensures
            c.entries().len() == self.entries().len(),
            forall|i: int|
                0 <= i < c.entries().len() ==> #[trigger] c.entries()[i].0 == self.entries()[i].0
                    && same_dimension(c.entries()[i].1, self.entries()[i].1),
    {
        proof {
            use_type_invariant(self);
        }
        let mut entries: Vec<(String, Dimension)> = Vec::new();
        let mut index: usize = 0;
        while index < self.entries.len()
            invariant
                0 <= index <= self.entries.len(),
                dimensions_wf(self.entries@),
                entries.len() == index,
                forall|i: int|
                    0 <= i < index ==> #[trigger] entries@[i].0 == self.entries@[i].0 && same_dimension(
                        entries@[i].1,
                        self.entries@[i].1,
                    ),
            decreases self.entries.len() - index,
        {
            let entry = &self.entries[index];
            entries.push((entry.0.clone(), entry.1.clone()));
            index = index + 1;
        }
        Dimensions { entries }
    }
}

/// The world generation settings of a world.
#[derive(Clone, Debug, PartialEq)]
pub struct WorldGenSettings {
    /// The numerical seed of the world.
    pub seed: i64,
    pub dimensions: Dimensions,
}

/// `entry` is the dimension `name` generated by the noise generator with the
/// built-in settings `settings`, of type `name`, whose biomes come from the
/// source of type `biome_type`, with the preset `preset` when there is one.
pub open spec fn is_noise_dimension(
    entry: (String, Dimension),
    name: Seq<char>,
    settings: Seq<char>,
    preset: Option<Seq<char>>,
    biome_type: Seq<char>,
) -> bool {
    &&& entry.0@ == name
    &&& entry.1.dimension_type@ == name
    &&& entry.1.generator.generator_type@ == "minecraft:noise"@
    &&& (entry.1.generator.settings matches GeneratorSettings::Reference(s) && s@ == settings)
    &&& match entry.1.generator.biome_source {
        Some(BiomeSource::WithPreset { preset: p, biome_type: t }) => preset == Some(p@) && t@
            == biome_type,
        Some(BiomeSource::Simple { biome_type: t }) => preset is None && t@ == biome_type,
        None => false,
    }
}

fn noise_dimension(name: &str, settings: &str, biome_source: BiomeSource) -> (entry: (
    String,
    Dimension,
))
    ensures
        entry.0@ == name@,
        entry.1.dimension_type@ == name@,
        entry.1.generator.generator_type@ == "minecraft:noise"@,
        entry.1.generator.settings matches GeneratorSettings::Reference(s) && s@ == settings@,
        entry.1.generator.biome_source == Some(biome_source),
{
    (
        name.to_string(),
        Dimension {
            generator: Generator {
                settings: GeneratorSettings::Reference(settings.to_string()),
                biome_source: Some(biome_source),
                generator_type: "minecraft:noise".to_string(),
            },
            dimension_type: name.to_string(),
        },
    )
}

impl WorldGenSettings {
    /// The generation settings of a new world: the overworld, the nether and
    /// the end, each generated by the noise generator from its built-in
    /// settings.
    pub fn new(seed: Seed) -> (r: Self)
        ensures
            r.seed == seed.0 as i64,
            r.dimensions.entries().len() == 3,
            dimensions_wf(r.dimensions.entries()),
            is_noise_dimension(
                r.dimensions.entries()[0],
                "minecraft:overworld"@,
                "minecraft:overworld"@,
                Some("minecraft:overworld"@),
                "minecraft:multi_noise"@,
            ),
            is_noise_dimension(
                r.dimensions.entries()[1],
                "minecraft:the_nether"@,
                "minecraft:nether"@,
                Some("minecraft:nether"@),
                "minecraft:multi_noise"@,
            ),
            is_noise_dimension(
                r.dimensions.entries()[2],
                "minecraft:the_end"@,
                "minecraft:end"@,
                None,
                "minecraft:the_end"@,
            ),
    {
        let mut dimensions = Dimensions::new();
        let overworld = noise_dimension(
            "minecraft:overworld",
            "minecraft:overworld",
            BiomeSource::WithPreset {
                preset: "minecraft:overworld".to_string(),
                biome_type: "minecraft:multi_noise".to_string(),
            },
        );
        dimensions.insert(overworld.0, overworld.1);
        let nether = noise_dimension(
            "minecraft:the_nether",
            "minecraft:nether",
            BiomeSource::WithPreset {
                preset: "minecraft:nether".to_string(),
                biome_type: "minecraft:multi_noise".to_string(),
            },
        );
        proof {
            reveal_strlit("minecraft:overworld");
            reveal_strlit("minecraft:the_nether");
            reveal_strlit("minecraft:the_end");
            assert(dimensions.entries()[0].0@[10] != nether.0@[10]);
            assert(name_index(dimensions.entries(), nether.0@) is None);
        }
        dimensions.insert(nether.0, nether.1);
        let end = noise_dimension(
            "minecraft:the_end",
            "minecraft:end",
            BiomeSource::Simple { biome_type: "minecraft:the_end".to_string() },
        );
        proof {
            assert(dimensions.entries()[0].0@[10] != end.0@[10]);
            assert(dimensions.entries()[1].0@[14] != end.0@[14]);
            assert(name_index(dimensions.entries(), end.0@) is None);
        }
        dimensions.insert(end.0, end.1);
        WorldGenSettings { seed: seed.0 as i64, dimensions }
    }
}

pub fn default_border_damage_per_block() -> (bits: u64)
    ensures
        bits == DEFAULT_BORDER_DAMAGE_PER_BLOCK_BITS,
{
    DEFAULT_BORDER_DAMAGE_PER_BLOCK_BITS
}

pub fn default_border_size() -> (bits: u64)
    ensures
        bits == DEFAULT_BORDER_SIZE_BITS,
{
    DEFAULT_BORDER_SIZE_BITS
}

pub fn default_border_safe_zone() -> (bits: u64)
    ensures
        bits == DEFAULT_BORDER_SAFE_ZONE_BITS,
{
    DEFAULT_BORDER_SAFE_ZONE_BITS
}

pub fn default_border_warning_blocks() -> (bits: u64)
    ensures
        bits == DEFAULT_BORDER_WARNING_BLOCKS_BITS,
{
    DEFAULT_BORDER_WARNING_BLOCKS_BITS
}

pub fn default_border_warning_time() -> (bits: u64)
    ensures
        bits == DEFAULT_BORDER_WARNING_TIME_BITS,
{
    DEFAULT_BORDER_WARNING_TIME_BITS
}

/// The data packs of a new world: none disabled, only "vanilla" enabled.
pub fn default_data_packs() -> (packs: DataPacks)
    ensures
        packs.disabled@.len() == 0,
        packs.enabled@.len() == 1,
        packs.enabled@[0]@ == "vanilla"@,
{
    DataPacks { disabled: Vec::new(), enabled: vec!["vanilla".to_string()] }
}

pub fn default_difficulty() -> (d: Difficulty)
    ensures
        d == Difficulty::Normal,
{
    Difficulty::Normal
}

pub fn default_level_name() -> (name: String)
    ensures
        name@ == "world"@,
{
    "world".to_string()
}

pub fn default_spawn_y() -> (y: i32)
    ensures
        y == DEFAULT_SPAWN_Y,
{
    DEFAULT_SPAWN_Y
}

pub fn default_level_version() -> (v: i32)
    ensures
        v == MAXIMUM_SUPPORTED_LEVEL_VERSION,
{
    MAXIMUM_SUPPORTED_LEVEL_VERSION
}

/// The level metadata of a world.
#[derive(Clone, Debug, PartialEq)]
pub struct LevelData {
    pub allow_commands: bool,
    pub border_center_x_bits: F64Bits,
    pub border_center_z_bits: F64Bits,
    pub border_damage_per_block_bits: F64Bits,
    pub border_size_bits: F64Bits,
    pub border_safe_zone_bits: F64Bits,
    pub border_size_lerp_target_bits: F64Bits,
    pub border_size_lerp_time: i64,
    pub border_warning_blocks_bits: F64Bits,
    pub border_warning_time_bits: F64Bits,
    pub clear_weather_time: i32,
    pub data_packs: DataPacks,
    pub data_version: i32,
    pub day_time: i64,
    pub difficulty: Difficulty,
    pub difficulty_locked: bool,
    pub game_rules: GameRules,
    pub world_gen_settings: WorldGenSettings,
    pub last_played: i64,
    pub level_name: String,
    pub spawn: RespawnData,
    pub world_version: WorldVersion,
    pub level_version: i32,
}

/// The level metadata as stored: the spawn either as one record or, in the
/// older layout, as separate coordinates and angles.
#[derive(Clone, Debug, PartialEq)]
pub struct LevelDataSerde {
    pub allow_commands: bool,
    pub border_center_x_bits: F64Bits,
    pub border_center_z_bits: F64Bits,
    pub border_damage_per_block_bits: F64Bits,
    pub border_size_bits: F64Bits,
    pub border_safe_zone_bits: F64Bits,
    pub border_size_lerp_target_bits: F64Bits,
    pub border_size_lerp_time: i64,
    pub border_warning_blocks_bits: F64Bits,
    pub border_warning_time_bits: F64Bits,
    pub clear_weather_time: i32,
    pub data_packs: DataPacks,
    pub data_version: i32,
    pub day_time: i64,
    pub difficulty: Difficulty,
    pub difficulty_locked: bool,
    pub game_rules: GameRules,
    pub world_gen_settings: WorldGenSettings,
    pub last_played: i64,
    pub level_name: String,
    pub spawn: Option<RespawnData>,
    pub spawn_x: Option<i32>,
    pub spawn_y: Option<i32>,
    pub spawn_z: Option<i32>,
    /// Bits of the `f32` yaw.
    pub spawn_yaw_bits: Option<F32Bits>,
    /// Bits of the `f32` pitch.
    pub spawn_pitch_bits: Option<F32Bits>,
    pub world_version: WorldVersion,
    pub level_version: i32,
}

/// Every field but the spawn is carried over unchanged from `s` to `d`.
pub open spec fn same_fields_but_spawn(s: LevelDataSerde, d: LevelData) -> bool {
    &&& d.allow_commands == s.allow_commands
    &&& d.border_center_x_bits == s.border_center_x_bits
    &&& d.border_center_z_bits == s.border_center_z_bits
    &&& d.border_damage_per_block_bits == s.border_damage_per_block_bits
    &&& d.border_size_bits == s.border_size_bits
    &&& d.border_safe_zone_bits == s.border_safe_zone_bits
    &&& d.border_size_lerp_target_bits == s.border_size_lerp_target_bits
    &&& d.border_size_lerp_time == s.border_size_lerp_time
    &&& d.border_warning_blocks_bits == s.border_warning_blocks_bits
    &&& d.border_warning_time_bits == s.border_warning_time_bits
    &&& d.clear_weather_time == s.clear_weather_time
    &&& d.data_packs == s.data_packs
    &&& d.data_version == s.data_version
    &&& d.day_time == s.day_time
    &&& d.difficulty == s.difficulty
    &&& d.difficulty_locked == s.difficulty_locked
    &&& d.game_rules == s.game_rules
    &&& d.world_gen_settings == s.world_gen_settings
    &&& d.last_played == s.last_played
    &&& d.level_name == s.level_name
    &&& d.world_version == s.world_version
    &&& d.level_version == s.level_version
}

/// The spawn read from stored level metadata: the spawn record when there is
/// one, else an overworld spawn at the stored coordinates (x and z 0, y 200
/// where missing) and angles (0 where missing).
pub open spec fn spawn_read_from(s: LevelDataSerde, spawn: RespawnData) -> bool {
    match s.spawn {
        Some(stored) => spawn == stored,
        None => {
            &&& spawn.dimension@ == overworld_name()
            &&& spawn.pos.0.x == (match s.spawn_x { Some(x) => x, None => 0i32 })
            &&& spawn.pos.0.y == (match s.spawn_y { Some(y) => y, None => DEFAULT_SPAWN_Y })
            &&& spawn.pos.0.z == (match s.spawn_z { Some(z) => z, None => 0i32 })
            &&& spawn.yaw_bits == (match s.spawn_yaw_bits { Some(b) => b, None => F32Bits(0) })
            &&& spawn.pitch_bits == (match s.spawn_pitch_bits { Some(b) => b, None => F32Bits(0) })
        },
    }
}

/// The stored layout written for `d`: its spawn as one record and no
/// separate spawn coordinates.
pub open spec fn level_data_to_stored(d: LevelData) -> LevelDataSerde {
    LevelDataSerde {
        allow_commands: d.allow_commands,
        border_center_x_bits: d.border_center_x_bits,
        border_center_z_bits: d.border_center_z_bits,
        border_damage_per_block_bits: d.border_damage_per_block_bits,
        border_size_bits: d.border_size_bits,
        border_safe_zone_bits: d.border_safe_zone_bits,
        border_size_lerp_target_bits: d.border_size_lerp_target_bits,
        border_size_lerp_time: d.border_size_lerp_time,
        border_warning_blocks_bits: d.border_warning_blocks_bits,
        border_warning_time_bits: d.border_warning_time_bits,
        clear_weather_time: d.clear_weather_time,
        data_packs: d.data_packs,
        data_version: d.data_version,
        day_time: d.day_time,
        difficulty: d.difficulty,
        difficulty_locked: d.difficulty_locked,
        game_rules: d.game_rules,
        world_gen_settings: d.world_gen_settings,
        last_played: d.last_played,
        level_name: d.level_name,
        spawn: Some(d.spawn),
        spawn_x: None,
        spawn_y: None,
        spawn_z: None,
        spawn_yaw_bits: None,
        spawn_pitch_bits: None,
        world_version: d.world_version,
        level_version: d.level_version,
    }
}

impl LevelData {
    /// The level metadata of a new world with the given seed.
    pub fn default(seed: Seed) -> (d: Self)
        ensures
            d.allow_commands,
            d.border_center_x_bits == F64Bits(0),
            d.border_center_z_bits == F64Bits(0),
            d.border_damage_per_block_bits == F64Bits(DEFAULT_BORDER_DAMAGE_PER_BLOCK_BITS),
            d.border_size_bits == F64Bits(DEFAULT_BORDER_SIZE_BITS),
            d.border_safe_zone_bits == F64Bits(DEFAULT_BORDER_SAFE_ZONE_BITS),
            d.border_size_lerp_target_bits == F64Bits(DEFAULT_BORDER_SIZE_BITS),
            d.border_size_lerp_time == 0,
            d.border_warning_blocks_bits == F64Bits(DEFAULT_BORDER_WARNING_BLOCKS_BITS),
            d.border_warning_time_bits == F64Bits(DEFAULT_BORDER_WARNING_TIME_BITS),
            d.clear_weather_time == -1,
            d.data_packs.disabled@.len() == 0,
            d.data_packs.enabled@.len() == 1,
            d.data_packs.enabled@[0]@ == "vanilla"@,
            d.data_version == MAXIMUM_SUPPORTED_WORLD_DATA_VERSION,
            d.day_time == 0,
            d.difficulty == Difficulty::Normal,
            !d.difficulty_locked,
            d.game_rules.respawn_radius == 10,
            d.game_rules.other_rules@.len() == 0,
            d.world_gen_settings.seed == seed.0 as i64,
            d.world_gen_settings.dimensions.entries().len() == 3,
            dimensions_wf(d.world_gen_settings.dimensions.entries()),
            is_noise_dimension(
                d.world_gen_settings.dimensions.entries()[0],
                "minecraft:overworld"@,
                "minecraft:overworld"@,
                Some("minecraft:overworld"@),
                "minecraft:multi_noise"@,
            ),
            is_noise_dimension(
                d.world_gen_settings.dimensions.entries()[1],
                "minecraft:the_nether"@,
                "minecraft:nether"@,
                Some("minecraft:nether"@),
                "minecraft:multi_noise"@,
            ),
            is_noise_dimension(
                d.world_gen_settings.dimensions.entries()[2],
                "minecraft:the_end"@,
                "minecraft:end"@,
                None,
                "minecraft:the_end"@,
            ),
            d.last_played == -1,
            d.level_name@ == "world"@,
            d.spawn.dimension@ == overworld_name(),
            d.spawn.pos == BlockPos(Vector3 { x: 0, y: DEFAULT_SPAWN_Y, z: 0 }),
            d.spawn.yaw_bits == F32Bits(0),
            d.spawn.pitch_bits == F32Bits(0),
            d.world_version.name@ == current_mc_version(),
            d.world_version.id == MAXIMUM_SUPPORTED_WORLD_DATA_VERSION,
            !d.world_version.snapshot,
            d.world_version.series@ == "main"@,
            d.level_version == MAXIMUM_SUPPORTED_LEVEL_VERSION,
    {
        LevelData {
            allow_commands: true,
            border_center_x_bits: F64Bits(0),
            border_center_z_bits: F64Bits(0),
            border_damage_per_block_bits: F64Bits(DEFAULT_BORDER_DAMAGE_PER_BLOCK_BITS),
            border_size_bits: F64Bits(DEFAULT_BORDER_SIZE_BITS),
            border_safe_zone_bits: F64Bits(DEFAULT_BORDER_SAFE_ZONE_BITS),
            border_size_lerp_target_bits: F64Bits(DEFAULT_BORDER_SIZE_BITS),
            border_size_lerp_time: 0,
            border_warning_blocks_bits: F64Bits(DEFAULT_BORDER_WARNING_BLOCKS_BITS),
            border_warning_time_bits: F64Bits(DEFAULT_BORDER_WARNING_TIME_BITS),
            clear_weather_time: -1,
            data_packs: default_data_packs(),
            data_version: MAXIMUM_SUPPORTED_WORLD_DATA_VERSION,
            day_time: 0,
            difficulty: Difficulty::Normal,
            difficulty_locked: false,
            game_rules: GameRules::default(),
            world_gen_settings: WorldGenSettings::new(seed),
            last_played: -1,
            level_name: "world".to_string(),
            spawn: RespawnData::overworld(BlockPos::new(0, DEFAULT_SPAWN_Y, 0)),
            world_version: WorldVersion::default(),
            level_version: MAXIMUM_SUPPORTED_LEVEL_VERSION,
        }
    }

    pub fn spawn_pos(&self) -> (p: BlockPos)
        ensures
            p == self.spawn.pos,
    {
        self.spawn.pos
    }

    pub fn spawn_dimension(&self) -> (name: &str)
        ensures
            name@ == self.spawn.dimension@,
    {
        self.spawn.dimension.as_str()
    }

    /// The yaw and pitch of the spawn, as `f32` bits.
    pub fn spawn_rotation(&self) -> (rotation: (F32Bits, F32Bits))
        ensures
            rotation == (self.spawn.yaw_bits, self.spawn.pitch_bits),
    {
        (self.spawn.yaw_bits, self.spawn.pitch_bits)
    }

    pub fn set_spawn(&mut self, spawn: RespawnData)
        ensures
            *final(self) == (LevelData { spawn: spawn, ..*old(self) }),
    {
        self.spawn = spawn;
    }

    /// Moves the spawn to `pos`, keeping its dimension and angles.
    pub fn set_spawn_pos(&mut self, pos: BlockPos)
        ensures
            final(self).spawn.pos == pos,
            final(self).spawn.dimension == old(self).spawn.dimension,
            final(self).spawn.yaw_bits == old(self).spawn.yaw_bits,
            final(self).spawn.pitch_bits == old(self).spawn.pitch_bits,
            *final(self) == (LevelData { spawn: final(self).spawn, ..*old(self) }),
    {
        self.spawn = self.spawn.with_pos(pos);
    }

    /// Reads level metadata from its stored layout.
    pub fn from_stored(value: LevelDataSerde) -> (d: Self)
        ensures
            same_fields_but_spawn(value, d),
            spawn_read_from(value, d.spawn),
    {
        let spawn = match value.spawn {
            Some(spawn) => spawn,
            None => RespawnData {
                dimension: "minecraft:overworld".to_string(),
                pos: BlockPos::new(
                    match value.spawn_x {
                        Some(x) => x,
                        None => 0,
                    },
                    match value.spawn_y {
                        Some(y) => y,
                        None => default_spawn_y(),
                    },
                    match value.spawn_z {
                        Some(z) => z,
                        None => 0,
                    },
                ),
                yaw_bits: match value.spawn_yaw_bits {
                    Some(b) => b,
                    None => F32Bits(0),
                },
                pitch_bits: match value.spawn_pitch_bits {
                    Some(b) => b,
                    None => F32Bits(0),
                },
            },
        };
        LevelData {
            allow_commands: value.allow_commands,
            border_center_x_bits: value.border_center_x_bits,
            border_center_z_bits: value.border_center_z_bits,
            border_damage_per_block_bits: value.border_damage_per_block_bits,
            border_size_bits: value.border_size_bits,
            border_safe_zone_bits: value.border_safe_zone_bits,
            border_size_lerp_target_bits: value.border_size_lerp_target_bits,
            border_size_lerp_time: value.border_size_lerp_time,
            border_warning_blocks_bits: value.border_warning_blocks_bits,
            border_warning_time_bits: value.border_warning_time_bits,
            clear_weather_time: value.clear_weather_time,
            data_packs: value.data_packs,
            data_version: value.data_version,
            day_time: value.day_time,
            difficulty: value.difficulty,
            difficulty_locked: value.difficulty_locked,
            game_rules: value.game_rules,
            world_gen_settings: value.world_gen_settings,
            last_played: value.last_played,
            level_name: value.level_name,
            spawn,
            world_version: value.world_version,
            level_version: value.level_version,
        }
    }
}

impl LevelDataSerde {
    /// The stored layout of level metadata: the spawn as one record.
    pub fn from_level_data(value: LevelData) -> (s: Self)
        ensures
            s == level_data_to_stored(value),
    {
        LevelDataSerde {
            allow_commands: value.allow_commands,
            border_center_x_bits: value.border_center_x_bits,
            border_center_z_bits: value.border_center_z_bits,
            border_damage_per_block_bits: value.border_damage_per_block_bits,
            border_size_bits: value.border_size_bits,
            border_safe_zone_bits: value.border_safe_zone_bits,
            border_size_lerp_target_bits: value.border_size_lerp_target_bits,
            border_size_lerp_time: value.border_size_lerp_time,
            border_warning_blocks_bits: value.border_warning_blocks_bits,
            border_warning_time_bits: value.border_warning_time_bits,
            clear_weather_time: value.clear_weather_time,
            data_packs: value.data_packs,
            data_version: value.data_version,
            day_time: value.day_time,
            difficulty: value.difficulty,
            difficulty_locked: value.difficulty_locked,
            game_rules: value.game_rules,
            world_gen_settings: value.world_gen_settings,
            last_played: value.last_played,
            level_name: value.level_name,
            spawn: Some(value.spawn),
            spawn_x: None,
            spawn_y: None,
            spawn_z: None,
            spawn_yaw_bits: None,
            spawn_pitch_bits: None,
            world_version: value.world_version,
            level_version: value.level_version,
        }
    }
}

/// Level metadata survives being stored and read back: reading the stored
/// layout written for `d` gives back `d`.
pub proof fn level_data_store_then_read(d: LevelData, back: LevelData)
    requires
        same_fields_but_spawn(level_data_to_stored(d), back),
        spawn_read_from(level_data_to_stored(d), back.spawn),
    ensures
        back == d,
{
}

/// The coordinates of a block position as stored: an array of x, y and z.
pub fn block_pos_to_int_array(pos: BlockPos) -> (coords: Vec<i32>)
    ensures
        coords@ == seq![pos.0.x, pos.0.y, pos.0.z],
{
    vec![pos.0.x, pos.0.y, pos.0.z]
}

/// A block position from its stored coordinates; none unless there are
/// exactly three of them.
pub fn block_pos_from_int_array(coords: &[i32]) -> (pos: Option<BlockPos>)
    ensures
        pos is Some <==> coords@.len() == 3,
        pos matches Some(p) ==> seq![p.0.x, p.0.y, p.0.z] == coords@,
{
    if coords.len() == 3 {
        Some(BlockPos::new(coords[0], coords[1], coords[2]))
    } else {
        None
    }
}

/// A block position survives being stored and read back.
pub proof fn block_pos_store_then_read(pos: BlockPos, coords: Seq<i32>, back: Option<BlockPos>)
    requires
        coords == seq![pos.0.x, pos.0.y, pos.0.z],
        back is Some <==> coords.len() == 3,
        back matches Some(p) ==> seq![p.0.x, p.0.y, p.0.z] == coords,
    ensures
        back == Some(pos),
{
    let p = back->0;
    assert(seq![p.0.x, p.0.y, p.0.z][0] == p.0.x);
    assert(seq![p.0.x, p.0.y, p.0.z][1] == p.0.y);
    assert(seq![p.0.x, p.0.y, p.0.z][2] == p.0.z);
}

#[verifier::external_type_specification]
#[verifier::external_body]
pub struct ExIoErrorKind(std::io::ErrorKind);

/// Why level metadata could not be read or written.
#[derive(Debug)]
pub enum WorldInfoError {
    IoError(std::io::ErrorKind),
    InfoNotFound,
    DeserializationError(String),
    UnsupportedDataVersion(i32),
    UnsupportedLevelVersion(i32),
}

} // verus!
