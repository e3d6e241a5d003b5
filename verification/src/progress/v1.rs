//! First storage-stable form of the player's progress: what a save file of
//! version 1 holds.
use vstd::prelude::*;
use crate::progress::SaveError;

verus! {

pub struct ArmorV1 {
    pub name: String,
    pub defense: i32,
}

#[derive(Clone, Copy, PartialEq, Eq, Structural)]
pub enum ItemV1 {
    Salve,
    XSalve,
    Tonic,
    XTonic,
}

pub struct ItemSlotV1 {
    pub item: ItemV1,
    pub amount: i32,
}

#[derive(Clone, Copy, PartialEq, Eq, Structural)]
pub enum MagicV1 {
    Heal,
    EarthEdge,
    WaterEdge,
    FireEdge,
}

pub struct MagicSlotV1 {
    pub magic: MagicV1,
    pub known: bool,
}

pub struct WeaponV1 {
    pub name: String,
    pub attack: i32,
}

pub struct ProgressV1 {
    pub hp: i32,
    pub max_hp: i32,
    pub mp: i32,
    pub max_mp: i32,
    pub attack: i32,
    pub defense: i32,
    pub level: i32,
    pub exp: i32,
    pub base_exp: i32,
    pub weapon: Option<WeaponV1>,
    pub armor: Option<ArmorV1>,
    pub items: Vec<ItemSlotV1>,
    pub magic: Vec<MagicSlotV1>,
    pub collected_chests: Vec<String>,
    pub turned_levers: Vec<String>,
    pub steps: Vec<i32>,
    pub earth_defeated: bool,
    pub water_defeated: bool,
    pub fire_defeated: bool,
}

impl ProgressV1 {
    /// Why data marked with `version` cannot be in this form, if it cannot:
    /// version 0 never existed, and versions after 1 are not known here.
    pub open spec fn version_error(version: u32) -> Option<SaveError> {
        if version < 1 {
            Some(SaveError::InvalidSaveVersion)
        } else if version == 1 {
            None
        } else {
            Some(SaveError::UnknownSaveVersion)
        }
    }

    /// Checks the version that a save file names.
    pub fn check_version(version: u32) -> (r: Result<(), SaveError>)
        ensures
            r is Ok == (ProgressV1::version_error(version) is None),
            r matches Err(e) ==> ProgressV1::version_error(version) == Some(e),
    {
        if version < 1 {
            Err(SaveError::InvalidSaveVersion)
        } else if version == 1 {
            Ok(())
        } else {
            Err(SaveError::UnknownSaveVersion)
        }
    }

    /// The progress held by the data of a save file of the given version,
    /// where `parsed` is what reading the data as version 1 gave, `None`
    /// where it could not be read. The version is judged first.
    pub fn from_parsed(parsed: Option<ProgressV1>, version: u32) -> (r: Result<
        ProgressV1,
        SaveError,
    >)
        ensures
            ProgressV1::version_error(version) matches Some(e) ==> r == Err::<
                ProgressV1,
                SaveError,
            >(e),
            ProgressV1::version_error(version) is None && parsed is None ==> r == Err::<
                ProgressV1,
                SaveError,
            >(SaveError::FailedToParseSaveData),
            ProgressV1::version_error(version) is None && parsed is Some ==> r == Ok::<
                ProgressV1,
                SaveError,
            >(parsed->0),
    {
        match ProgressV1::check_version(version) {
            Err(e) => Err(e),
            Ok(()) => match parsed {
                Some(progress) => Ok(progress),
                None => Err(SaveError::FailedToParseSaveData),
            },
        }
    }
}

} // verus!
