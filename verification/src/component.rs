//! The state of players that the game systems read and change.

use vstd::prelude::*;

verus! {

/// The keys that a player holds down, and whether the player is stealthed.
#[derive(Debug, Copy, Clone, PartialEq, Eq, Default, Hash, Structural)]
pub struct KeyState {
    pub up: bool,
    pub down: bool,
    pub left: bool,
    pub right: bool,
    pub fire: bool,
    pub special: bool,
    pub stealthed: bool,
}

/// The upgrades of a player: the levels bought in each category and the
/// upgrades still to be spent.
#[derive(Debug, Copy, Clone, PartialEq, Eq, Default, Hash, Structural)]
pub struct Upgrades {
    pub unused: u16,
    pub speed: u8,
    pub defense: u8,
    pub energy: u8,
    pub missile: u8,
}

/// The highest level of each upgrade category.
pub const MAX_UPGRADE_LEVEL: u8 = 5;

/// The kind of upgrade that a `PlayerUpgrade` packet reports.
#[derive(Debug, Copy, Clone, PartialEq, Eq, Hash, Structural)]
pub enum UpgradeType {
    NoUpgrade,
    Speed,
    Defense,
    Energy,
    Missile,
}

/// The five planes.
#[derive(Debug, Copy, Clone, PartialEq, Eq, Hash, Structural)]
pub enum PlaneType {
    Predator,
    Goliath,
    Mohawk,
    Tornado,
    Prowler,
}

/// The plane that each number of the protocol stands for.
pub open spec fn spec_plane_of_number(n: u32) -> Option<PlaneType> {
    match n {
        1 => Some(PlaneType::Predator),
        2 => Some(PlaneType::Goliath),
        3 => Some(PlaneType::Mohawk),
        4 => Some(PlaneType::Tornado),
        5 => Some(PlaneType::Prowler),
        _ => None,
    }
}

impl PlaneType {
    /// The plane with the given number, if there is one.
    pub fn try_from_number(n: u32) -> (r: Option<PlaneType>)
        ensures
            r == spec_plane_of_number(n),
    {
        match n {
            1 => Some(PlaneType::Predator),
            2 => Some(PlaneType::Goliath),
            3 => Some(PlaneType::Mohawk),
            4 => Some(PlaneType::Tornado),
            5 => Some(PlaneType::Prowler),
            _ => None,
        }
    }
}

/// The errors that the server reports to a client.
#[derive(Debug, Copy, Clone, PartialEq, Eq, Hash, Structural)]
pub enum ErrorType {
    IncorrectProtocol,
    InvalidLogin,
    IdleRequiredBeforeRespawn,
    IdleRequiredBeforeSpectate,
    Unknown(u8),
}

/// What a spectate command asks for.
#[derive(Debug, Copy, Clone, PartialEq, Eq, Hash, Structural)]
pub enum SpectateTarget {
    /// Switch to the next player.
    Next,
    /// Switch to the previous player.
    Prev,
    /// Go into spectate.
    Force,
    /// Spectate the player with this id.
    Target(u16),
}

} // verus!
