//! Schema-driven decoding of a colony simulation's state out of a captured
//! image of its address space.

pub mod attribute;
pub mod dwarf;
pub mod flags;
pub mod gamedata;
pub mod histfig;
pub mod instance;
pub mod items;
pub mod language;
pub mod layout;
pub mod memory;
pub mod need;
pub mod personality;
pub mod preference;
pub mod race;
pub mod refresh;
pub mod skill;
pub mod squad;
pub mod syndromes;
pub mod text;
pub mod thought;
pub mod time;
