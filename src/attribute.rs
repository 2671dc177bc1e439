//! Physical and mental attributes of a creature.

use vstd::prelude::*;
use crate::memory::ProcessMemory;

verus! {

/// Distance in bytes between consecutive attribute records.
pub const ATTRIBUTE_STRIDE: u64 = 0x1c;

/// Attribute rating that the value is compared against.
pub const ATTRIBUTE_CTI: i32 = 500;

#[derive(PartialEq, Eq, Structural, Clone, Copy, Debug)]
pub enum AttributeType {
    NoAttribute,
    Strength,
    Agility,
    Toughness,
    Endurance,
    Recuperation,
    DiseaseResistance,
    AnalyticalAbility,
    Focus,
    Willpower,
    Creativity,
    Intuition,
    Patience,
    Memory,
    LinguisticAbility,
    SpatialSense,
    Musicality,
    KinestheticSense,
    Empathy,
    SocialAwareness,
}

/// The display name of an attribute.
pub open spec fn attribute_name(t: AttributeType) -> Seq<char> {
    match t {
        AttributeType::NoAttribute => "None"@,
        AttributeType::Strength => "Strength"@,
        AttributeType::Agility => "Agility"@,
        AttributeType::Toughness => "Toughness"@,
        AttributeType::Endurance => "Endurance"@,
        AttributeType::Recuperation => "Recuperation"@,
        AttributeType::DiseaseResistance => "Disease Resistance"@,
        AttributeType::AnalyticalAbility => "Analytical Ability"@,
        AttributeType::Focus => "Focus"@,
        AttributeType::Willpower => "Willpower"@,
        AttributeType::Creativity => "Creativity"@,
        AttributeType::Intuition => "Intuition"@,
        AttributeType::Patience => "Patience"@,
        AttributeType::Memory => "Memory"@,
        AttributeType::LinguisticAbility => "Linguistic Ability"@,
        AttributeType::SpatialSense => "Spatial Sense"@,
        AttributeType::Musicality => "Musicality"@,
        AttributeType::KinestheticSense => "Kinesthetic Sense"@,
        AttributeType::Empathy => "Empathy"@,
        AttributeType::SocialAwareness => "Social Awareness"@,
    }
}

impl AttributeType {
    /// The simulation's number for the attribute; -1 for none.
    pub open spec fn code(self) -> int {
        match self {
            AttributeType::NoAttribute => -1,
            AttributeType::Strength => 0,
            AttributeType::Agility => 1,
            AttributeType::Toughness => 2,
            AttributeType::Endurance => 3,
            AttributeType::Recuperation => 4,
            AttributeType::DiseaseResistance => 5,
            AttributeType::AnalyticalAbility => 6,
            AttributeType::Focus => 7,
            AttributeType::Willpower => 8,
            AttributeType::Creativity => 9,
            AttributeType::Intuition => 10,
            AttributeType::Patience => 11,
            AttributeType::Memory => 12,
            AttributeType::LinguisticAbility => 13,
            AttributeType::SpatialSense => 14,
            AttributeType::Musicality => 15,
            AttributeType::KinestheticSense => 16,
            AttributeType::Empathy => 17,
            AttributeType::SocialAwareness => 18,
        }
    }

    pub fn from_i32(value: i32) -> (r: AttributeType)
        ensures
            0 <= value < 19 ==> r.code() == value,
            !(0 <= value < 19) ==> r == AttributeType::NoAttribute,
    {
        match value {
            0 => AttributeType::Strength,
            1 => AttributeType::Agility,
            2 => AttributeType::Toughness,
            3 => AttributeType::Endurance,
            4 => AttributeType::Recuperation,
            5 => AttributeType::DiseaseResistance,
            6 => AttributeType::AnalyticalAbility,
            7 => AttributeType::Focus,
            8 => AttributeType::Willpower,
            9 => AttributeType::Creativity,
            10 => AttributeType::Intuition,
            11 => AttributeType::Patience,
            12 => AttributeType::Memory,
            13 => AttributeType::LinguisticAbility,
            14 => AttributeType::SpatialSense,
            15 => AttributeType::Musicality,
            16 => AttributeType::KinestheticSense,
            17 => AttributeType::Empathy,
            18 => AttributeType::SocialAwareness,
            _ => AttributeType::NoAttribute,
        }
    }

    pub fn to_i32(self) -> (r: i32)
        ensures
            r == self.code(),
    {
        match self {
            AttributeType::NoAttribute => -1,
            AttributeType::Strength => 0,
            AttributeType::Agility => 1,
            AttributeType::Toughness => 2,
            AttributeType::Endurance => 3,
            AttributeType::Recuperation => 4,
            AttributeType::DiseaseResistance => 5,
            AttributeType::AnalyticalAbility => 6,
            AttributeType::Focus => 7,
            AttributeType::Willpower => 8,
            AttributeType::Creativity => 9,
            AttributeType::Intuition => 10,
            AttributeType::Patience => 11,
            AttributeType::Memory => 12,
            AttributeType::LinguisticAbility => 13,
            AttributeType::SpatialSense => 14,
            AttributeType::Musicality => 15,
            AttributeType::KinestheticSense => 16,
            AttributeType::Empathy => 17,
            AttributeType::SocialAwareness => 18,
        }
    }

    /// The attribute's display name.
    pub fn name(self) -> (r: &'static str)
        ensures
            r@ == attribute_name(self),
    {
        match self {
            AttributeType::NoAttribute => "None",
            AttributeType::Strength => "Strength",
            AttributeType::Agility => "Agility",
            AttributeType::Toughness => "Toughness",
            AttributeType::Endurance => "Endurance",
            AttributeType::Recuperation => "Recuperation",
            AttributeType::DiseaseResistance => "Disease Resistance",
            AttributeType::AnalyticalAbility => "Analytical Ability",
            AttributeType::Focus => "Focus",
            AttributeType::Willpower => "Willpower",
            AttributeType::Creativity => "Creativity",
            AttributeType::Intuition => "Intuition",
            AttributeType::Patience => "Patience",
            AttributeType::Memory => "Memory",
            AttributeType::LinguisticAbility => "Linguistic Ability",
            AttributeType::SpatialSense => "Spatial Sense",
            AttributeType::Musicality => "Musicality",
            AttributeType::KinestheticSense => "Kinesthetic Sense",
            AttributeType::Empathy => "Empathy",
            AttributeType::SocialAwareness => "Social Awareness",
        }
    }
}

/// The physical attributes, in the order their records are laid out.
pub fn physical_attributes() -> (r: Vec<AttributeType>)
    ensures
        r@.len() == 6,
        forall|k: int| 0 <= k < 6 ==> (#[trigger] r@[k]).code() == k,
{
    let r = vec![
        AttributeType::Strength,
        AttributeType::Agility,
        AttributeType::Toughness,
        AttributeType::Endurance,
        AttributeType::Recuperation,
        AttributeType::DiseaseResistance,
    ];
    r
}

/// The mental attributes, in the order their records are laid out.
pub fn mental_attributes() -> (r: Vec<AttributeType>)
    ensures
        r@.len() == 13,
        forall|k: int| 0 <= k < 13 ==> (#[trigger] r@[k]).code() == k + 6,
{
    let r = vec![
        AttributeType::AnalyticalAbility,
        AttributeType::Focus,
        AttributeType::Willpower,
        AttributeType::Creativity,
        AttributeType::Intuition,
        AttributeType::Patience,
        AttributeType::Memory,
        AttributeType::LinguisticAbility,
        AttributeType::SpatialSense,
        AttributeType::Musicality,
        AttributeType::KinestheticSense,
        AttributeType::Empathy,
        AttributeType::SocialAwareness,
    ];
    r
}

/// An attribute of a creature.
pub struct Attribute {
    pub id: i32,
    pub name: String,
    pub value: i32,
    pub display_value: i32,
    pub max: i32,
    pub cti: i32,
}

impl Attribute {
    /// Decodes the attribute record at `addr`: its value, then its maximum.
    pub fn load(mem: &ProcessMemory, addr: u64, attr_type: AttributeType) -> (r: Attribute)
        ensures
            r.id == attr_type.code(),
            r.value as int == mem.i32_at(addr as int),
            r.display_value == r.value,
            r.max as int == mem.i32_at(addr + 4),
            r.cti == ATTRIBUTE_CTI,
            r.name@ == attribute_name(attr_type),
    {
        let value = mem.read_i32(addr, 0);
        let max = mem.read_i32(addr, 4);
        Attribute {
            id: attr_type.to_i32(),
            name: String::from_str(attr_type.name()),
            value,
            display_value: value,
            max,
            cti: ATTRIBUTE_CTI,
        }
    }
}

} // verus!
