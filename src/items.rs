//! Item and material kinds, as preferences name them.

use vstd::prelude::*;
use crate::flags::{flags_at, FlagArray};
use crate::layout::{MemoryOffsets, OffsetSection};
use crate::memory::{ProcessMemory, POINTER_SIZE};
use crate::race::{bit, set_bit};
use crate::text::{read_string, string_at};

verus! {

/// The state of matter that a material preference names.
#[derive(PartialEq, Eq, Structural, Clone, Copy, Debug)]
pub enum MaterialState {
    Any,
    Solid,
    Liquid,
    Gas,
    Powder,
    Paste,
    Pressed,
}

/// The state of matter numbered `v`; any other number is any state.
pub open spec fn material_state_of(v: int) -> MaterialState {
    if v == 0 {
        MaterialState::Solid
    } else if v == 1 {
        MaterialState::Liquid
    } else if v == 2 {
        MaterialState::Gas
    } else if v == 3 {
        MaterialState::Powder
    } else if v == 4 {
        MaterialState::Paste
    } else if v == 5 {
        MaterialState::Pressed
    } else {
        MaterialState::Any
    }
}

impl MaterialState {
    pub fn from_i32(v: i32) -> (r: MaterialState)
        ensures
            r == material_state_of(v as int),
            v == 0 ==> r == MaterialState::Solid,
            v == 1 ==> r == MaterialState::Liquid,
            v == 2 ==> r == MaterialState::Gas,
            v == 3 ==> r == MaterialState::Powder,
            v == 4 ==> r == MaterialState::Paste,
            v == 5 ==> r == MaterialState::Pressed,
            !(0 <= v <= 5) ==> r == MaterialState::Any,
    {
        match v {
            0 => MaterialState::Solid,
            1 => MaterialState::Liquid,
            2 => MaterialState::Gas,
            3 => MaterialState::Powder,
            4 => MaterialState::Paste,
            5 => MaterialState::Pressed,
            _ => MaterialState::Any,
        }
    }
}

/// The kind of an item, numbered as the simulation numbers it.
#[derive(PartialEq, Eq, Structural, Clone, Copy, Debug)]
pub enum ItemType {
    NoItem,
    Bar,
    SmallGem,
    Blocks,
    Rough,
    Boulder,
    Wood,
    Door,
    FloodGate,
    Bed,
    Chair,
    Chain,
    Flask,
    Goblet,
    Instrument,
    Toy,
    Window,
    Cage,
    Barrel,
    Bucket,
    AnimalTrap,
    Table,
    Coffin,
    Statue,
    Corpse,
    Weapon,
    Armor,
    Shoes,
    Shield,
    Helm,
    Gloves,
    Box,
    Bag,
    Bin,
    ArmorStand,
    WeaponRack,
    Cabinet,
    Figurine,
    Amulet,
    Scepter,
    Ammo,
    Crown,
    Ring,
    Earring,
    Bracelet,
    Gem,
    Anvil,
    CorpsePiece,
    Remains,
    Meat,
    Fish,
    FishRaw,
    Vermin,
    IsPet,
    Seeds,
    Plant,
    SkinTanned,
    LeavesFruit,
    Thread,
    Cloth,
    Totem,
    Pants,
    Backpack,
    Quiver,
    CatapultParts,
    BallistaParts,
    SiegeAmmo,
    BallistaArrowhead,
    TrapParts,
    TrapComp,
    Drink,
    PowderMisc,
    Cheese,
    Food,
    LiquidMisc,
    Coin,
    Glob,
    Rock,
    PipeSection,
    HatchCover,
    Grate,
    Quern,
    Millstone,
    Splint,
    Crutch,
    TractionBench,
    OrthopedicCast,
    Tool,
    Slab,
    Egg,
    Book,
    Sheet,
    NumOfItemTypes,
    Supplies,
    Artifacts,
    MeleeEquipment,
    RangedEquipment,
    Vial,
    Waterskin,
}

impl ItemType {
    /// The simulation's number for the kind; -1 for none.
    pub open spec fn code(self) -> int {
        match self {
            ItemType::NoItem => -1,
            ItemType::Bar => 0,
            ItemType::SmallGem => 1,
            ItemType::Blocks => 2,
            ItemType::Rough => 3,
            ItemType::Boulder => 4,
            ItemType::Wood => 5,
            ItemType::Door => 6,
            ItemType::FloodGate => 7,
            ItemType::Bed => 8,
            ItemType::Chair => 9,
            ItemType::Chain => 10,
            ItemType::Flask => 11,
            ItemType::Goblet => 12,
            ItemType::Instrument => 13,
            ItemType::Toy => 14,
            ItemType::Window => 15,
            ItemType::Cage => 16,
            ItemType::Barrel => 17,
            ItemType::Bucket => 18,
            ItemType::AnimalTrap => 19,
            ItemType::Table => 20,
            ItemType::Coffin => 21,
            ItemType::Statue => 22,
            ItemType::Corpse => 23,
            ItemType::Weapon => 24,
            ItemType::Armor => 25,
            ItemType::Shoes => 26,
            ItemType::Shield => 27,
            ItemType::Helm => 28,
            ItemType::Gloves => 29,
            ItemType::Box => 30,
            ItemType::Bag => 31,
            ItemType::Bin => 32,
            ItemType::ArmorStand => 33,
            ItemType::WeaponRack => 34,
            ItemType::Cabinet => 35,
            ItemType::Figurine => 36,
            ItemType::Amulet => 37,
            ItemType::Scepter => 38,
            ItemType::Ammo => 39,
            ItemType::Crown => 40,
            ItemType::Ring => 41,
            ItemType::Earring => 42,
            ItemType::Bracelet => 43,
            ItemType::Gem => 44,
            ItemType::Anvil => 45,
            ItemType::CorpsePiece => 46,
            ItemType::Remains => 47,
            ItemType::Meat => 48,
            ItemType::Fish => 49,
            ItemType::FishRaw => 50,
            ItemType::Vermin => 51,
            ItemType::IsPet => 52,
            ItemType::Seeds => 53,
            ItemType::Plant => 54,
            ItemType::SkinTanned => 55,
            ItemType::LeavesFruit => 56,
            ItemType::Thread => 57,
            ItemType::Cloth => 58,
            ItemType::Totem => 59,
            ItemType::Pants => 60,
            ItemType::Backpack => 61,
            ItemType::Quiver => 62,
            ItemType::CatapultParts => 63,
            ItemType::BallistaParts => 64,
            ItemType::SiegeAmmo => 65,
            ItemType::BallistaArrowhead => 66,
            ItemType::TrapParts => 67,
            ItemType::TrapComp => 68,
            ItemType::Drink => 69,
            ItemType::PowderMisc => 70,
            ItemType::Cheese => 71,
            ItemType::Food => 72,
            ItemType::LiquidMisc => 73,
            ItemType::Coin => 74,
            ItemType::Glob => 75,
            ItemType::Rock => 76,
            ItemType::PipeSection => 77,
            ItemType::HatchCover => 78,
            ItemType::Grate => 79,
            ItemType::Quern => 80,
            ItemType::Millstone => 81,
            ItemType::Splint => 82,
            ItemType::Crutch => 83,
            ItemType::TractionBench => 84,
            ItemType::OrthopedicCast => 85,
            ItemType::Tool => 86,
            ItemType::Slab => 87,
            ItemType::Egg => 88,
            ItemType::Book => 89,
            ItemType::Sheet => 90,
            ItemType::NumOfItemTypes => 91,
            ItemType::Supplies => 999,
            ItemType::Artifacts => 1000,
            ItemType::MeleeEquipment => 1001,
            ItemType::RangedEquipment => 1002,
            ItemType::Vial => 1006,
            ItemType::Waterskin => 1007,
        }
    }

    /// The kind numbered `value`; an unknown number is no item.
    pub fn from_i32(value: i32) -> (r: ItemType)
        ensures
            r == ItemType::NoItem || r.code() == value,
            r == ItemType::NoItem ==> forall|t: ItemType| t.code() != value || t == ItemType::NoItem,
    {
        match value {
            0 => ItemType::Bar,
            1 => ItemType::SmallGem,
            2 => ItemType::Blocks,
            3 => ItemType::Rough,
            4 => ItemType::Boulder,
            5 => ItemType::Wood,
            6 => ItemType::Door,
            7 => ItemType::FloodGate,
            8 => ItemType::Bed,
            9 => ItemType::Chair,
            10 => ItemType::Chain,
            11 => ItemType::Flask,
            12 => ItemType::Goblet,
            13 => ItemType::Instrument,
            14 => ItemType::Toy,
            15 => ItemType::Window,
            16 => ItemType::Cage,
            17 => ItemType::Barrel,
            18 => ItemType::Bucket,
            19 => ItemType::AnimalTrap,
            20 => ItemType::Table,
            21 => ItemType::Coffin,
            22 => ItemType::Statue,
            23 => ItemType::Corpse,
            24 => ItemType::Weapon,
            25 => ItemType::Armor,
            26 => ItemType::Shoes,
            27 => ItemType::Shield,
            28 => ItemType::Helm,
            29 => ItemType::Gloves,
            30 => ItemType::Box,
            31 => ItemType::Bag,
            32 => ItemType::Bin,
            33 => ItemType::ArmorStand,
            34 => ItemType::WeaponRack,
            35 => ItemType::Cabinet,
            36 => ItemType::Figurine,
            37 => ItemType::Amulet,
            38 => ItemType::Scepter,
            39 => ItemType::Ammo,
            40 => ItemType::Crown,
            41 => ItemType::Ring,
            42 => ItemType::Earring,
            43 => ItemType::Bracelet,
            44 => ItemType::Gem,
            45 => ItemType::Anvil,
            46 => ItemType::CorpsePiece,
            47 => ItemType::Remains,
            48 => ItemType::Meat,
            49 => ItemType::Fish,
            50 => ItemType::FishRaw,
            51 => ItemType::Vermin,
            52 => ItemType::IsPet,
            53 => ItemType::Seeds,
            54 => ItemType::Plant,
            55 => ItemType::SkinTanned,
            56 => ItemType::LeavesFruit,
            57 => ItemType::Thread,
            58 => ItemType::Cloth,
            59 => ItemType::Totem,
            60 => ItemType::Pants,
            61 => ItemType::Backpack,
            62 => ItemType::Quiver,
            63 => ItemType::CatapultParts,
            64 => ItemType::BallistaParts,
            65 => ItemType::SiegeAmmo,
            66 => ItemType::BallistaArrowhead,
            67 => ItemType::TrapParts,
            68 => ItemType::TrapComp,
            69 => ItemType::Drink,
            70 => ItemType::PowderMisc,
            71 => ItemType::Cheese,
            72 => ItemType::Food,
            73 => ItemType::LiquidMisc,
            74 => ItemType::Coin,
            75 => ItemType::Glob,
            76 => ItemType::Rock,
            77 => ItemType::PipeSection,
            78 => ItemType::HatchCover,
            79 => ItemType::Grate,
            80 => ItemType::Quern,
            81 => ItemType::Millstone,
            82 => ItemType::Splint,
            83 => ItemType::Crutch,
            84 => ItemType::TractionBench,
            85 => ItemType::OrthopedicCast,
            86 => ItemType::Tool,
            87 => ItemType::Slab,
            88 => ItemType::Egg,
            89 => ItemType::Book,
            90 => ItemType::Sheet,
            91 => ItemType::NumOfItemTypes,
            999 => ItemType::Supplies,
            1000 => ItemType::Artifacts,
            1001 => ItemType::MeleeEquipment,
            1002 => ItemType::RangedEquipment,
            1006 => ItemType::Vial,
            1007 => ItemType::Waterskin,
            _ => ItemType::NoItem,
        }
    }
}

/// The raw flags of a material, by bit number.
#[derive(PartialEq, Eq, Structural, Clone, Copy, Debug)]
pub enum MaterialFlag {
    Bone,
    Meat,
    EdibleVermin,
    EdibleRaw,
    EdibleCooked,
    Alcohol,
    ItemsMetal,
    ItemsBarred,
    ItemsScaled,
    ItemsLeather,
    ItemsSoft,
    ItemsHard,
    ImpliesAnimalKill,
    AlcoholPlant,
    AlcoholCreature,
    CheesePlant,
    CheeseCreature,
    PowderMiscPlant,
    PowderMiscCreature,
    StockpileGlob,
    LiquidMiscPlant,
    LiquidMiscCreature,
    LiquidMiscOther,
    IsWood,
    ThreadPlant,
    Tooth,
    Horn,
    Pearl,
    Shell,
    Leather,
    Silk,
    Soap,
    Rots,
    IsDye,
    IsPowderMisc,
    IsLiquidMisc,
    StructuralPlantMat,
    SeedMat,
    LeafMat,
    IsCheese,
    EntersBlood,
    BloodMapDescriptor,
    IchorMapDescriptor,
    GooMapDescriptor,
    SlimeMapDescriptor,
    PusMapDescriptor,
    GeneratesMiasma,
    IsMetal,
    IsGem,
    IsGlass,
    CrystalGlassable,
    ItemsWeapon,
    ItemsWeaponRanged,
    ItemsAnvil,
    ItemsAmmo,
    ItemsDigger,
    ItemsArmor,
    ItemsDelicate,
    ItemsSiegeEngine,
    ItemsQuern,
    IsStone,
    Undiggable,
    Yarn,
    StockpileGlobPaste,
    StockpileGlobPressed,
    DisplayUnglazed,
    DoNotCleanGlob,
    NoStoneStockpile,
    StockpileThreadMetal,
}

impl MaterialFlag {
    pub open spec fn spec_index(self) -> int {
        match self {
            MaterialFlag::Bone => 0,
            MaterialFlag::Meat => 1,
            MaterialFlag::EdibleVermin => 2,
            MaterialFlag::EdibleRaw => 3,
            MaterialFlag::EdibleCooked => 4,
            MaterialFlag::Alcohol => 5,
            MaterialFlag::ItemsMetal => 6,
            MaterialFlag::ItemsBarred => 7,
            MaterialFlag::ItemsScaled => 8,
            MaterialFlag::ItemsLeather => 9,
            MaterialFlag::ItemsSoft => 10,
            MaterialFlag::ItemsHard => 11,
            MaterialFlag::ImpliesAnimalKill => 12,
            MaterialFlag::AlcoholPlant => 13,
            MaterialFlag::AlcoholCreature => 14,
            MaterialFlag::CheesePlant => 15,
            MaterialFlag::CheeseCreature => 16,
            MaterialFlag::PowderMiscPlant => 17,
            MaterialFlag::PowderMiscCreature => 18,
            MaterialFlag::StockpileGlob => 19,
            MaterialFlag::LiquidMiscPlant => 20,
            MaterialFlag::LiquidMiscCreature => 21,
            MaterialFlag::LiquidMiscOther => 22,
            MaterialFlag::IsWood => 23,
            MaterialFlag::ThreadPlant => 24,
            MaterialFlag::Tooth => 25,
            MaterialFlag::Horn => 26,
            MaterialFlag::Pearl => 27,
            MaterialFlag::Shell => 28,
            MaterialFlag::Leather => 29,
            MaterialFlag::Silk => 30,
            MaterialFlag::Soap => 31,
            MaterialFlag::Rots => 32,
            MaterialFlag::IsDye => 33,
            MaterialFlag::IsPowderMisc => 34,
            MaterialFlag::IsLiquidMisc => 35,
            MaterialFlag::StructuralPlantMat => 36,
            MaterialFlag::SeedMat => 37,
            MaterialFlag::LeafMat => 38,
            MaterialFlag::IsCheese => 39,
            MaterialFlag::EntersBlood => 40,
            MaterialFlag::BloodMapDescriptor => 41,
            MaterialFlag::IchorMapDescriptor => 42,
            MaterialFlag::GooMapDescriptor => 43,
            MaterialFlag::SlimeMapDescriptor => 44,
            MaterialFlag::PusMapDescriptor => 45,
            MaterialFlag::GeneratesMiasma => 46,
            MaterialFlag::IsMetal => 47,
            MaterialFlag::IsGem => 48,
            MaterialFlag::IsGlass => 49,
            MaterialFlag::CrystalGlassable => 50,
            MaterialFlag::ItemsWeapon => 51,
            MaterialFlag::ItemsWeaponRanged => 52,
            MaterialFlag::ItemsAnvil => 53,
            MaterialFlag::ItemsAmmo => 54,
            MaterialFlag::ItemsDigger => 55,
            MaterialFlag::ItemsArmor => 56,
            MaterialFlag::ItemsDelicate => 57,
            MaterialFlag::ItemsSiegeEngine => 58,
            MaterialFlag::ItemsQuern => 59,
            MaterialFlag::IsStone => 60,
            MaterialFlag::Undiggable => 61,
            MaterialFlag::Yarn => 62,
            MaterialFlag::StockpileGlobPaste => 63,
            MaterialFlag::StockpileGlobPressed => 64,
            MaterialFlag::DisplayUnglazed => 65,
            MaterialFlag::DoNotCleanGlob => 66,
            MaterialFlag::NoStoneStockpile => 67,
            MaterialFlag::StockpileThreadMetal => 68,
        }
    }

    /// The flag's bit number in a material's flag set.
    pub fn index(self) -> (r: usize)
        ensures
            r == self.spec_index(),
    {
        match self {
            MaterialFlag::Bone => 0,
            MaterialFlag::Meat => 1,
            MaterialFlag::EdibleVermin => 2,
            MaterialFlag::EdibleRaw => 3,
            MaterialFlag::EdibleCooked => 4,
            MaterialFlag::Alcohol => 5,
            MaterialFlag::ItemsMetal => 6,
            MaterialFlag::ItemsBarred => 7,
            MaterialFlag::ItemsScaled => 8,
            MaterialFlag::ItemsLeather => 9,
            MaterialFlag::ItemsSoft => 10,
            MaterialFlag::ItemsHard => 11,
            MaterialFlag::ImpliesAnimalKill => 12,
            MaterialFlag::AlcoholPlant => 13,
            MaterialFlag::AlcoholCreature => 14,
            MaterialFlag::CheesePlant => 15,
            MaterialFlag::CheeseCreature => 16,
            MaterialFlag::PowderMiscPlant => 17,
            MaterialFlag::PowderMiscCreature => 18,
            MaterialFlag::StockpileGlob => 19,
            MaterialFlag::LiquidMiscPlant => 20,
            MaterialFlag::LiquidMiscCreature => 21,
            MaterialFlag::LiquidMiscOther => 22,
            MaterialFlag::IsWood => 23,
            MaterialFlag::ThreadPlant => 24,
            MaterialFlag::Tooth => 25,
            MaterialFlag::Horn => 26,
            MaterialFlag::Pearl => 27,
            MaterialFlag::Shell => 28,
            MaterialFlag::Leather => 29,
            MaterialFlag::Silk => 30,
            MaterialFlag::Soap => 31,
            MaterialFlag::Rots => 32,
            MaterialFlag::IsDye => 33,
            MaterialFlag::IsPowderMisc => 34,
            MaterialFlag::IsLiquidMisc => 35,
            MaterialFlag::StructuralPlantMat => 36,
            MaterialFlag::SeedMat => 37,
            MaterialFlag::LeafMat => 38,
            MaterialFlag::IsCheese => 39,
            MaterialFlag::EntersBlood => 40,
            MaterialFlag::BloodMapDescriptor => 41,
            MaterialFlag::IchorMapDescriptor => 42,
            MaterialFlag::GooMapDescriptor => 43,
            MaterialFlag::SlimeMapDescriptor => 44,
            MaterialFlag::PusMapDescriptor => 45,
            MaterialFlag::GeneratesMiasma => 46,
            MaterialFlag::IsMetal => 47,
            MaterialFlag::IsGem => 48,
            MaterialFlag::IsGlass => 49,
            MaterialFlag::CrystalGlassable => 50,
            MaterialFlag::ItemsWeapon => 51,
            MaterialFlag::ItemsWeaponRanged => 52,
            MaterialFlag::ItemsAnvil => 53,
            MaterialFlag::ItemsAmmo => 54,
            MaterialFlag::ItemsDigger => 55,
            MaterialFlag::ItemsArmor => 56,
            MaterialFlag::ItemsDelicate => 57,
            MaterialFlag::ItemsSiegeEngine => 58,
            MaterialFlag::ItemsQuern => 59,
            MaterialFlag::IsStone => 60,
            MaterialFlag::Undiggable => 61,
            MaterialFlag::Yarn => 62,
            MaterialFlag::StockpileGlobPaste => 63,
            MaterialFlag::StockpileGlobPressed => 64,
            MaterialFlag::DisplayUnglazed => 65,
            MaterialFlag::DoNotCleanGlob => 66,
            MaterialFlag::NoStoneStockpile => 67,
            MaterialFlag::StockpileThreadMetal => 68,
        }
    }
}

/// The flags of a plant, by bit number; the last two are derived.
#[derive(PartialEq, Eq, Structural, Clone, Copy, Debug)]
pub enum PlantFlags {
    Spring,
    Summer,
    Autumn,
    Winter,
    Seed,
    Drink,
    ExtractBarrel,
    ExtractVial,
    ExtractStillVial,
    Thread,
    Mill,
    Sapling,
    Tree,
    Crop,
    HasExtracts,
}

impl PlantFlags {
    pub open spec fn spec_index(self) -> int {
        match self {
            PlantFlags::Spring => 0,
            PlantFlags::Summer => 1,
            PlantFlags::Autumn => 2,
            PlantFlags::Winter => 3,
            PlantFlags::Seed => 5,
            PlantFlags::Drink => 7,
            PlantFlags::ExtractBarrel => 8,
            PlantFlags::ExtractVial => 9,
            PlantFlags::ExtractStillVial => 10,
            PlantFlags::Thread => 12,
            PlantFlags::Mill => 13,
            PlantFlags::Sapling => 77,
            PlantFlags::Tree => 78,
            PlantFlags::Crop => 200,
            PlantFlags::HasExtracts => 201,
        }
    }

    /// The flag's bit number in a plant's flag set.
    pub fn index(self) -> (r: usize)
        ensures
            r == self.spec_index(),
    {
        match self {
            PlantFlags::Spring => 0,
            PlantFlags::Summer => 1,
            PlantFlags::Autumn => 2,
            PlantFlags::Winter => 3,
            PlantFlags::Seed => 5,
            PlantFlags::Drink => 7,
            PlantFlags::ExtractBarrel => 8,
            PlantFlags::ExtractVial => 9,
            PlantFlags::ExtractStillVial => 10,
            PlantFlags::Thread => 12,
            PlantFlags::Mill => 13,
            PlantFlags::Sapling => 77,
            PlantFlags::Tree => 78,
            PlantFlags::Crop => 200,
            PlantFlags::HasExtracts => 201,
        }
    }
}

/// A material, with its name in each state of matter.
pub struct Material {
    pub index: i32,
    pub flags: FlagArray,
    pub organic: bool,
    pub prefix: String,
    pub state_names: Vec<(MaterialState, String)>,
    pub is_generated: bool,
}

pub open spec fn moff(layout: &MemoryOffsets, f: Seq<char>) -> int {
    layout.off(OffsetSection::Material, f) as int
}

fn flags_at_sum(mem: &ProcessMemory, base: u64, off: u64) -> (r: FlagArray)
    ensures
        r.wf(),
        r.flags.view() == flags_at(mem, base + off),
{
    match base.checked_add(off) {
        Some(a) => FlagArray::new(mem, a),
        None => {
            proof {
                mem.lemma_high_zero(base + off + POINTER_SIZE, 4);
            }
            let f = FlagArray::default();
            assert(f.flags.view() =~= flags_at(mem, base + off));
            f
        },
    }
}

impl Material {
    /// Decodes the material at `addr`; inorganic materials keep their flags
    /// elsewhere and are generated.
    pub fn new(mem: &ProcessMemory, layout: &MemoryOffsets, index: i32, addr: u64, organic: bool) -> (r: Material)
        ensures
            r.index == index,
            r.organic == organic,
            r.is_generated == !organic,
            r.prefix@ == string_at(mem, addr + moff(layout, "prefix"@)),
            r.flags.wf(),
            r.flags.flags.view() == flags_at(mem, addr + if organic { moff(layout, "flags"@) } else { moff(layout, "inorganic_flags"@) }),
            r.state_names@.len() == 6,
    {
        let prefix = read_string(mem, addr, layout.field_offset(OffsetSection::Material, "prefix"));
        let flags = if organic {
            flags_at_sum(mem, addr, layout.field_offset(OffsetSection::Material, "flags"))
        } else {
            flags_at_sum(mem, addr, layout.field_offset(OffsetSection::Material, "inorganic_flags"))
        };
        let state_names = Self::load_state_names(mem, layout, addr);
        Material { index, flags, organic, prefix, state_names, is_generated: !organic }
    }

    /// The material's name as a solid, liquid, gas, powder, paste and
    /// pressed, in that order.
    pub fn load_state_names(mem: &ProcessMemory, layout: &MemoryOffsets, addr: u64) -> (r: Vec<(MaterialState, String)>)
        ensures
            r@.len() == 6,
            r@[0].0 == MaterialState::Solid && r@[0].1@ == string_at(mem, addr + moff(layout, "solid_name"@)),
            r@[1].0 == MaterialState::Liquid && r@[1].1@ == string_at(mem, addr + moff(layout, "liquid_name"@)),
            r@[2].0 == MaterialState::Gas && r@[2].1@ == string_at(mem, addr + moff(layout, "gas_name"@)),
            r@[3].0 == MaterialState::Powder && r@[3].1@ == string_at(mem, addr + moff(layout, "powder_name"@)),
            r@[4].0 == MaterialState::Paste && r@[4].1@ == string_at(mem, addr + moff(layout, "paste_name"@)),
            r@[5].0 == MaterialState::Pressed && r@[5].1@ == string_at(mem, addr + moff(layout, "pressed_name"@)),
    {
        let mut r: Vec<(MaterialState, String)> = Vec::new();
        r.push((MaterialState::Solid, read_string(mem, addr, layout.field_offset(OffsetSection::Material, "solid_name"))));
        r.push((MaterialState::Liquid, read_string(mem, addr, layout.field_offset(OffsetSection::Material, "liquid_name"))));
        r.push((MaterialState::Gas, read_string(mem, addr, layout.field_offset(OffsetSection::Material, "gas_name"))));
        r.push((MaterialState::Powder, read_string(mem, addr, layout.field_offset(OffsetSection::Material, "powder_name"))));
        r.push((MaterialState::Paste, read_string(mem, addr, layout.field_offset(OffsetSection::Material, "paste_name"))));
        r.push((MaterialState::Pressed, read_string(mem, addr, layout.field_offset(OffsetSection::Material, "pressed_name"))));
        r
    }
}

/// The plant flags with the derived crop and extract flags written in.
pub open spec fn derived_plant_flags(raw: Seq<bool>) -> Seq<bool> {
    let s1 = if bit(raw, 0) || bit(raw, 1) || bit(raw, 2) || bit(raw, 3) { set_bit(raw, 200, true) } else { raw };
    if bit(s1, 8) || bit(s1, 9) || bit(s1, 10) || bit(s1, 12) { set_bit(s1, 201, true) } else { s1 }
}

pub struct Plant {
    pub name: String,
    pub name_plural: String,
    pub leaf_plural: String,
    pub seed_plural: String,
    pub flags: FlagArray,
}

pub open spec fn poff(layout: &MemoryOffsets, f: Seq<char>) -> int {
    layout.off(OffsetSection::Plant, f) as int
}

impl Plant {
    /// Decodes the plant at `addr`.
    pub fn new(mem: &ProcessMemory, layout: &MemoryOffsets, addr: u64) -> (r: Plant)
        ensures
            r.name@ == string_at(mem, addr + poff(layout, "name"@)),
            r.name_plural@ == string_at(mem, addr + poff(layout, "name_plural"@)),
            r.leaf_plural@ == string_at(mem, addr + poff(layout, "name_leaf_plural"@)),
            r.seed_plural@ == string_at(mem, addr + poff(layout, "name_seed_plural"@)),
            r.flags.flags.view() == derived_plant_flags(flags_at(mem, addr + poff(layout, "flags"@))),
    {
        Plant {
            name: read_string(mem, addr, layout.field_offset(OffsetSection::Plant, "name")),
            name_plural: read_string(mem, addr, layout.field_offset(OffsetSection::Plant, "name_plural")),
            leaf_plural: read_string(mem, addr, layout.field_offset(OffsetSection::Plant, "name_leaf_plural")),
            seed_plural: read_string(mem, addr, layout.field_offset(OffsetSection::Plant, "name_seed_plural")),
            flags: Self::get_flags(mem, layout, addr),
        }
    }

    /// The plant's flags: a plant that grows in any season is a crop, and
    /// one with a barrel, vial or still extract, or thread, has extracts.
    pub fn get_flags(mem: &ProcessMemory, layout: &MemoryOffsets, addr: u64) -> (r: FlagArray)
        ensures
            r.wf(),
            r.flags.view() == derived_plant_flags(flags_at(mem, addr + poff(layout, "flags"@))),
    {
        let mut flags = flags_at_sum(mem, addr, layout.field_offset(OffsetSection::Plant, "flags"));
        if flags.flag(PlantFlags::Spring.index()) || flags.flag(PlantFlags::Summer.index()) || flags.flag(
            PlantFlags::Autumn.index(),
        ) || flags.flag(PlantFlags::Winter.index()) {
            let _ = flags.flags.set(PlantFlags::Crop.index(), true);
        }
        if flags.flag(PlantFlags::ExtractBarrel.index()) || flags.flag(PlantFlags::ExtractVial.index())
            || flags.flag(PlantFlags::ExtractStillVial.index()) || flags.flag(PlantFlags::Thread.index()) {
            let _ = flags.flags.set(PlantFlags::HasExtracts.index(), true);
        }
        flags
    }
}

} // verus!
