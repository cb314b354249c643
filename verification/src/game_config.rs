//! Flags that enable and disable engine features.

use vstd::prelude::*;

verus! {

/// Flags to enable and/or disable engine features. By default they are set
/// as an FFA game mode needs them.
#[derive(Debug, Copy, Clone, PartialEq, Eq, Structural)]
pub struct GameConfig {
    /// Whether a dead player is respawned automatically after two seconds
    /// unless it decides to spectate.
    pub default_respawn: bool,
    /// Whether players may ask for a respawn (with a new plane) while idle.
    pub allow_respawn: bool,
    /// Whether players can damage each other.
    pub allow_damage: bool,
    /// Whether players occasionally drop upgrades when they die.
    pub spawn_upgrades: bool,
    /// Whether players are always fully upgraded.
    pub always_upgraded: bool,
    /// Whether admin commands are enabled.
    pub admin_enabled: bool,
}

impl Default for GameConfig {
    /// Respawns (automatic and on request), damage and upgrade drops on; full
    /// upgrades and admin commands off.
    fn default() -> (r: Self)
        ensures
            r == (GameConfig {
                default_respawn: true,
                allow_respawn: true,
                allow_damage: true,
                spawn_upgrades: true,
                always_upgraded: false,
                admin_enabled: false,
            }),
    {
        GameConfig {
            default_respawn: true,
            allow_respawn: true,
            allow_damage: true,
            spawn_upgrades: true,
            always_upgraded: false,
            admin_enabled: false,
        }
    }
}

} // verus!
