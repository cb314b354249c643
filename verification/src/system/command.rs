//! The commands that players send: respawning, changing flag, spectating and
//! spending upgrades.

use vstd::prelude::*;
use vstd::utf8::{decode_utf8, valid_utf8};

use crate::component::{
    spec_plane_of_number, PlaneType, SpectateTarget, UpgradeType, Upgrades, MAX_UPGRADE_LEVEL,
};
use crate::protocol::datatypes::flags::{spec_find_flag, FlagCode};
use crate::text::{
    bytes_to_str, bytes_to_str_lossy, lemma_replacement_is_no_number, parse_i32, parse_u32,
    parse_u8, spec_parse_signed, spec_parse_unsigned, str_eq, uppercase,
};

verus! {

/// The minimum time, in nanoseconds, that a player must have been idle before
/// respawning or spectating.
pub const IDLE_BEFORE_ACTION: u64 = 2_000_000_000;

/// The commands that the server acts on.
#[derive(Debug, Copy, Clone, PartialEq, Eq, Structural)]
pub enum CommandKind {
    Respawn,
    Flag,
    Spectate,
    Upgrade,
    Other,
}

/// The text of a command name, when its bytes are valid UTF-8.
pub open spec fn spec_text(b: Seq<u8>) -> Option<Seq<char>> {
    if valid_utf8(b) {
        Some(decode_utf8(b))
    } else {
        None
    }
}

pub open spec fn spec_command_kind(com: Seq<u8>) -> CommandKind {
    match spec_text(com) {
        Some(t) => if t == "respawn"@ {
            CommandKind::Respawn
        } else if t == "flag"@ {
            CommandKind::Flag
        } else if t == "spectate"@ {
            CommandKind::Spectate
        } else if t == "upgrade"@ {
            CommandKind::Upgrade
        } else {
            CommandKind::Other
        },
        None => CommandKind::Other,
    }
}

/// Which command the `com` field of a `Command` packet names.
pub fn command_kind(com: &[u8]) -> (r: CommandKind)
    ensures
        r == spec_command_kind(com@),
{
    let t = match bytes_to_str(com) {
        Some(t) => t,
        None => return CommandKind::Other,
    };
    if str_eq(t, "respawn") {
        CommandKind::Respawn
    } else if str_eq(t, "flag") {
        CommandKind::Flag
    } else if str_eq(t, "spectate") {
        CommandKind::Spectate
    } else if str_eq(t, "upgrade") {
        CommandKind::Upgrade
    } else {
        CommandKind::Other
    }
}

/// Whether an idle period has passed: at least `IDLE_BEFORE_ACTION` from
/// `last_action` to `this_frame` (no time has passed if `last_action` is
/// later).
pub open spec fn spec_idle(last_action: u64, this_frame: u64) -> bool {
    this_frame >= last_action && this_frame - last_action >= IDLE_BEFORE_ACTION
}

/// Whether a player may respawn. A player may not respawn during the cooldown
/// after dying (`cooldown_over` false); otherwise a dead (spectating)
/// player may always respawn, and a living one needs full health and to have
/// been idle.
pub fn respawn_allowed(
    alive: bool,
    cooldown_over: bool,
    full_health: bool,
    last_action: u64,
    this_frame: u64,
) -> (r: bool)
    ensures
        r == (cooldown_over && (!alive || (full_health && spec_idle(last_action, this_frame)))),
{
    if !cooldown_over {
        return false;
    }
    if !alive {
        return true;
    }
    if !full_health {
        return false;
    }
    if this_frame < last_action || this_frame - last_action < IDLE_BEFORE_ACTION {
        return false;
    }
    true
}

/// The plane that the data of a respawn command asks for.
pub open spec fn spec_parse_plane(data: Seq<u8>) -> Option<PlaneType> {
    match spec_text(data) {
        Some(t) => match spec_parse_unsigned(t) {
            Some(v) => if v <= u32::MAX {
                spec_plane_of_number(v as u32)
            } else {
                None
            },
            None => None,
        },
        None => None,
    }
}

/// Reads the data of a respawn command as a plane number.
pub fn parse_plane(data: &[u8]) -> (r: Option<PlaneType>)
    ensures
        r == spec_parse_plane(data@),
{
    let s = bytes_to_str(data)?;
    let num = parse_u32(s)?;
    PlaneType::try_from_number(num)
}

/// The name of a plane, under which the configuration holds its prototype.
pub open spec fn spec_plane_name(p: PlaneType) -> Seq<char> {
    match p {
        PlaneType::Predator => seq!['p', 'r', 'e', 'd', 'a', 't', 'o', 'r'],
        PlaneType::Tornado => seq!['t', 'o', 'r', 'n', 'a', 'd', 'o'],
        PlaneType::Goliath => seq!['g', 'o', 'l', 'i', 'a', 't', 'h'],
        PlaneType::Prowler => seq!['p', 'r', 'o', 'w', 'l', 'e', 'r'],
        PlaneType::Mohawk => seq!['m', 'o', 'h', 'a', 'w', 'k'],
    }
}

/// The name of a plane, under which the configuration holds its prototype.
pub fn plane_name(p: PlaneType) -> (r: &'static str)
    ensures
        r@ == spec_plane_name(p),
{
    match p {
        PlaneType::Predator => {
            proof {
                reveal_strlit("predator");
            }
            "predator"
        },
        PlaneType::Tornado => {
            proof {
                reveal_strlit("tornado");
            }
            "tornado"
        },
        PlaneType::Goliath => {
            proof {
                reveal_strlit("goliath");
            }
            "goliath"
        },
        PlaneType::Prowler => {
            proof {
                reveal_strlit("prowler");
            }
            "prowler"
        },
        PlaneType::Mohawk => {
            proof {
                reveal_strlit("mohawk");
            }
            "mohawk"
        },
    }
}

/// Whether the configuration, given by the names of its plane prototypes,
/// has a prototype named `name`.
pub open spec fn spec_has_name(names: Seq<String>, name: Seq<char>) -> bool {
    exists|i: int| 0 <= i < names.len() && #[trigger] names[i]@ == name
}

/// Whether one of `names` is `name`.
pub fn has_name(names: &Vec<String>, name: &str) -> (r: bool)
    ensures
        r == spec_has_name(names@, name@),
{
    let n = names.len();
    let mut i: usize = 0;
    while i < n
        invariant
            n == names@.len(),
            i <= n,
            forall|j: int| 0 <= j < i ==> names@[j]@ != name@,
        decreases n - i,
    {
        if str_eq(names[i].as_str(), name) {
            return true;
        }
        i = i + 1;
    }
    false
}

/// A respawn that goes ahead.
#[derive(Debug, Copy, Clone, PartialEq, Eq, Structural)]
pub struct Respawn {
    /// The plane that the player now flies.
    pub plane: PlaneType,
    /// The plane whose prototype, from the configuration, the player now
    /// has: the plane it asked for.
    pub prototype: PlaneType,
    /// Whether it was alive before, as the `PlayerRespawn` event reports; it
    /// is alive after.
    pub was_alive: bool,
    /// The plane it had before, when that differs from the new one: then a
    /// `PlayerChangePlane` event follows the `PlayerRespawn` event.
    pub changed_from: Option<PlaneType>,
}

/// What a respawn command leads to.
#[derive(Debug, Copy, Clone, PartialEq, Eq, Structural)]
pub enum RespawnOutcome {
    /// The command is not acted on.
    Ignored,
    /// The player is told that it must be idle first.
    Denied,
    /// The configuration has no prototype for the plane asked for: the player
    /// is sent a banner saying that this plane is not available, and does not
    /// respawn.
    Unavailable(PlaneType),
    /// The player respawns.
    Respawned(Respawn),
}

/// The decision on a command: respawns must be enabled, the command must be
/// `respawn` with a plane number, the player must be allowed to respawn, and
/// the configuration (given by the names of its plane prototypes) must hold
/// the prototype of the plane asked for. `plane` is the player's current
/// plane.
pub fn on_respawn_command(
    allow_respawn: bool,
    com: &[u8],
    data: &[u8],
    alive: bool,
    cooldown_over: bool,
    full_health: bool,
    last_action: u64,
    this_frame: u64,
    plane: PlaneType,
    config_planes: &Vec<String>,
) -> (r: RespawnOutcome)
    ensures
        r == (if !allow_respawn || spec_command_kind(com@) != CommandKind::Respawn {
            RespawnOutcome::Ignored
        } else {
            match spec_parse_plane(data@) {
                None => RespawnOutcome::Ignored,
                Some(p) => if !(cooldown_over && (!alive || (full_health && spec_idle(
                    last_action,
                    this_frame,
                )))) {
                    RespawnOutcome::Denied
                } else if !spec_has_name(config_planes@, spec_plane_name(p)) {
                    RespawnOutcome::Unavailable(p)
                } else {
                    RespawnOutcome::Respawned(
                        Respawn {
                            plane: p,
                            prototype: p,
                            was_alive: alive,
                            changed_from: if plane != p {
                                Some(plane)
                            } else {
                                None
                            },
                        },
                    )
                },
            }
        }),
{
    if !allow_respawn {
        return RespawnOutcome::Ignored;
    }
    match command_kind(com) {
        CommandKind::Respawn => {},
        _ => return RespawnOutcome::Ignored,
    }
    let newplane = match parse_plane(data) {
        Some(p) => p,
        None => return RespawnOutcome::Ignored,
    };
    if !respawn_allowed(alive, cooldown_over, full_health, last_action, this_frame) {
        return RespawnOutcome::Denied;
    }
    if !has_name(config_planes, plane_name(newplane)) {
        return RespawnOutcome::Unavailable(newplane);
    }
    let changed_from = if plane != newplane {
        Some(plane)
    } else {
        None
    };
    RespawnOutcome::Respawned(
        Respawn { plane: newplane, prototype: newplane, was_alive: alive, changed_from },
    )
}

/// Whether a player may spectate: a spectating or dead player always may; a
/// living one needs full health and to have been idle.
pub fn can_spectate(
    is_spec: bool,
    is_alive: bool,
    full_health: bool,
    last_action: u64,
    this_frame: u64,
) -> (r: bool)
    ensures
        r == (is_spec || !is_alive || (full_health && spec_idle(last_action, this_frame))),
{
    if is_spec || !is_alive {
        return true;
    }
    if !full_health {
        return false;
    }
    if this_frame < last_action || this_frame - last_action < IDLE_BEFORE_ACTION {
        return false;
    }
    true
}

/// The target that the number of a spectate command names: -1, -2 and -3
/// are the next player, the previous player and going into spectate, and a
/// number from 0 to 65535 is a player id.
pub open spec fn spec_spectate_target(s: Seq<char>) -> Option<SpectateTarget> {
    match spec_parse_signed(s) {
        Some(v) => if v < i32::MIN || v > i32::MAX || v < -3 || v > u16::MAX {
            None
        } else if v == -1 {
            Some(SpectateTarget::Next)
        } else if v == -2 {
            Some(SpectateTarget::Prev)
        } else if v == -3 {
            Some(SpectateTarget::Force)
        } else {
            Some(SpectateTarget::Target(v as u16))
        },
        None => None,
    }
}

/// Reads the data of a spectate command.
pub fn parse_spectate_data(s: &str) -> (r: Option<SpectateTarget>)
    ensures
        r == spec_spectate_target(s@),
{
    let arg = parse_i32(s)?;
    if arg < -3 || arg > u16::MAX as i32 {
        return None;
    }
    Some(
        match arg {
            -1 => SpectateTarget::Next,
            -2 => SpectateTarget::Prev,
            -3 => SpectateTarget::Force,
            x => SpectateTarget::Target(x as u16),
        },
    )
}

/// What a spectate command leads to.
#[derive(Debug, Copy, Clone, PartialEq, Eq, Structural)]
pub enum SpectateOutcome {
    /// The command is not acted on.
    Ignored,
    /// The player is told that it must be idle first.
    Denied,
    /// The player goes into spectate, asking for the given target.
    Spectate(SpectateTarget),
}

/// The decision on a command: it must be `spectate` with a target, data that
/// is not UTF-8 being read as empty, and the player must be allowed to
/// spectate.
pub fn on_spectate_command(
    com: &[u8],
    data: &[u8],
    is_spec: bool,
    is_alive: bool,
    full_health: bool,
    last_action: u64,
    this_frame: u64,
) -> (r: SpectateOutcome)
    ensures
        r == (if spec_command_kind(com@) != CommandKind::Spectate {
            SpectateOutcome::Ignored
        } else {
            match spec_spectate_target(
                match spec_text(data@) {
                    Some(t) => t,
                    None => Seq::empty(),
                },
            ) {
                None => SpectateOutcome::Ignored,
                Some(t) => if is_spec || !is_alive || (full_health && spec_idle(
                    last_action,
                    this_frame,
                )) {
                    SpectateOutcome::Spectate(t)
                } else {
                    SpectateOutcome::Denied
                },
            }
        }),
{
    match command_kind(com) {
        CommandKind::Spectate => {},
        _ => return SpectateOutcome::Ignored,
    }
    let text = match bytes_to_str(data) {
        Some(t) => t,
        None => {
            proof {
                reveal_strlit("");
            }
            ""
        },
    };
    let tgt = match parse_spectate_data(text) {
        Some(t) => t,
        None => return SpectateOutcome::Ignored,
    };
    if !can_spectate(is_spec, is_alive, full_health, last_action, this_frame) {
        return SpectateOutcome::Denied;
    }
    SpectateOutcome::Spectate(tgt)
}

/// The flag that the data of a flag command asks for: the flag whose code is
/// the text, without regard to case, and the United Nations flag for an
/// unknown code or for data that is not UTF-8 (read as `UN`).
pub fn flag_of_command(data: &[u8]) -> (r: FlagCode)
    ensures
        ({
            let t = match spec_text(data@) {
                Some(t) => t,
                None => seq!['U', 'N'],
            };
            r@ == match spec_find_flag(uppercase(t)) {
                Some(n) => n,
                None => 10,
            }
        }),
{
    let text = match bytes_to_str(data) {
        Some(t) => t,
        None => {
            proof {
                reveal_strlit("UN");
                assert("UN"@ =~= seq!['U', 'N']);
            }
            "UN"
        },
    };
    assert(text@ == match spec_text(data@) {
        Some(t) => t,
        None => seq!['U', 'N'],
    });
    match FlagCode::from_str(text) {
        Some(f) => f,
        None => FlagCode::united_nations(),
    }
}

/// The upgrade category that the data of an upgrade command names, as a
/// number: the data read as text, with invalid UTF-8 replaced, then as a
/// `u8`.
pub open spec fn spec_upgrade_number(data: Seq<u8>) -> Option<u8> {
    match spec_text(data) {
        Some(t) => match spec_parse_unsigned(t) {
            Some(v) => if v <= u8::MAX {
                Some(v as u8)
            } else {
                None
            },
            None => None,
        },
        None => None,
    }
}

/// Reads the data of an upgrade command as a category number.
pub fn upgrade_number(data: &[u8]) -> (r: Option<u8>)
    ensures
        r == spec_upgrade_number(data@),
{
    let text = bytes_to_str_lossy(data);
    proof {
        if !valid_utf8(data@) {
            lemma_replacement_is_no_number(text@);
        }
    }
    parse_u8(text.as_str())
}

/// The level of the category that an upgrade number names: 1 speed,
/// 2 defense, 3 energy, 4 missile.
pub open spec fn spec_level(u: Upgrades, num: u8) -> u8 {
    match num {
        1 => u.speed,
        2 => u.defense,
        3 => u.energy,
        _ => u.missile,
    }
}

pub open spec fn spec_upgrade_type(num: u8) -> UpgradeType {
    match num {
        1 => UpgradeType::Speed,
        2 => UpgradeType::Defense,
        3 => UpgradeType::Energy,
        _ => UpgradeType::Missile,
    }
}

/// The upgrades with the level of category `num` raised by one and one
/// unused upgrade spent.
pub open spec fn spec_upgraded(u: Upgrades, num: u8) -> Upgrades {
    let v = Upgrades { unused: (u.unused - 1) as u16, ..u };
    match num {
        1 => Upgrades { speed: (u.speed + 1) as u8, ..v },
        2 => Upgrades { defense: (u.defense + 1) as u8, ..v },
        3 => Upgrades { energy: (u.energy + 1) as u8, ..v },
        _ => Upgrades { missile: (u.missile + 1) as u8, ..v },
    }
}

/// Whether spending an upgrade on category `num` is possible: an unused
/// upgrade is left, the number names a category, and that category is not at
/// its highest level.
pub open spec fn spec_can_upgrade(u: Upgrades, num: u8) -> bool {
    u.unused > 0 && 1 <= num <= 4 && spec_level(u, num) != MAX_UPGRADE_LEVEL
}

/// Spends one unused upgrade on category `num` when that is possible, and
/// returns the category that was raised.
pub fn apply_upgrade(upgrades: &mut Upgrades, num: u8) -> (r: Option<UpgradeType>)
    requires
        old(upgrades).unused > 0 && 1 <= num <= 4 ==> spec_level(*old(upgrades), num) < u8::MAX,
    ensures
        spec_can_upgrade(*old(upgrades), num) ==> r == Some(spec_upgrade_type(num))
            && *final(upgrades) == spec_upgraded(*old(upgrades), num),
        !spec_can_upgrade(*old(upgrades), num) ==> r is None && *final(upgrades) == *old(
            upgrades,
        ),
{
    if upgrades.unused == 0 {
        return None;
    }
    let ty = match num {
        1 => {
            if upgrades.speed == MAX_UPGRADE_LEVEL {
                return None;
            }
            upgrades.speed = upgrades.speed + 1;
            UpgradeType::Speed
        },
        2 => {
            if upgrades.defense == MAX_UPGRADE_LEVEL {
                return None;
            }
            upgrades.defense = upgrades.defense + 1;
            UpgradeType::Defense
        },
        3 => {
            if upgrades.energy == MAX_UPGRADE_LEVEL {
                return None;
            }
            upgrades.energy = upgrades.energy + 1;
            UpgradeType::Energy
        },
        4 => {
            if upgrades.missile == MAX_UPGRADE_LEVEL {
                return None;
            }
            upgrades.missile = upgrades.missile + 1;
            UpgradeType::Missile
        },
        _ => return None,
    };
    upgrades.unused = upgrades.unused - 1;
    Some(ty)
}

/// The decision on a command: it must be `upgrade` with a category number
/// that can be raised. Returns the category raised; the player's previous
/// upgrades become the new ones so that no second update is sent.
pub fn on_upgrade_command(
    com: &[u8],
    data: &[u8],
    upgrades: &mut Upgrades,
    prev: &mut Upgrades,
) -> (r: Option<UpgradeType>)
    requires
        spec_command_kind(com@) == CommandKind::Upgrade && old(upgrades).unused > 0 && (
        spec_upgrade_number(data@) matches Some(n) && 1 <= n <= 4) ==> spec_level(
            *old(upgrades),
            spec_upgrade_number(data@).unwrap(),
        ) < u8::MAX,
    ensures
        match (spec_command_kind(com@), spec_upgrade_number(data@)) {
            (CommandKind::Upgrade, Some(num)) => if spec_can_upgrade(*old(upgrades), num) {
                &&& r == Some(spec_upgrade_type(num))
                &&& *final(upgrades) == spec_upgraded(*old(upgrades), num)
                &&& *final(prev) == *final(upgrades)
            } else {
                r is None && *final(upgrades) == *old(upgrades) && *final(prev) == *old(prev)
            },
            _ => r is None && *final(upgrades) == *old(upgrades) && *final(prev) == *old(prev),
        },
{
    match command_kind(com) {
        CommandKind::Upgrade => {},
        _ => return None,
    }
    let num = match upgrade_number(data) {
        Some(n) => n,
        None => return None,
    };
    let ty = apply_upgrade(upgrades, num);
    if ty.is_some() {
        *prev = *upgrades;
    }
    ty
}

/// The total of a player's upgrades, spent and unspent.
pub open spec fn spec_upgrade_total(u: Upgrades) -> int {
    u.unused + u.speed + u.defense + u.energy + u.missile
}

/// Spending an upgrade moves it from unused to a category: the total is
/// unchanged, and no category goes past its highest level.
pub proof fn lemma_upgrade_conserves(u: Upgrades, num: u8)
    requires
        spec_can_upgrade(u, num),
        spec_level(u, num) < u8::MAX,
    ensures
        spec_upgrade_total(spec_upgraded(u, num)) == spec_upgrade_total(u),
        spec_upgraded(u, num).unused == u.unused - 1,
        spec_level(u, num) < MAX_UPGRADE_LEVEL ==> spec_level(spec_upgraded(u, num), num)
            <= MAX_UPGRADE_LEVEL,
{
}

} // verus!
