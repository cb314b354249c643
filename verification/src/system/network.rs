//! Admitting connections: which packets are acted on, login checks and
//! giving each player a unique name.

use vstd::prelude::*;

use crate::component::ErrorType;
use crate::rng::random_u32;

verus! {

/// The protocol version that the server speaks.
pub const PROTOCOL_VERSION: u8 = 5;

/// The longest name, in bytes, that a player may log in with.
pub const MAX_LOGIN_NAME: usize = 40;

/// The longest name, in bytes, that a player is given.
pub const MAX_NAME: usize = 255;

/// The packets that clients send.
#[derive(Debug, Copy, Clone, PartialEq, Eq, Structural)]
pub enum ClientPacketKind {
    Login,
    Backup,
    Horizon,
    Ack,
    Pong,
    Key,
    Command,
    ScoreDetailed,
    Chat,
    TeamChat,
    Whisper,
    Say,
    VoteMute,
    LocalPing,
}

/// What becomes of a packet that arrives on a connection.
#[derive(Debug, Copy, Clone, PartialEq, Eq, Structural)]
pub enum PacketRoute {
    /// It is dropped: only a login or a backup may come before the
    /// connection belongs to a player.
    Drop,
    /// It is a login to be handled.
    Login,
    /// It is a backup, which is not acted on.
    Ignore,
    /// It is passed on as an event of the player of the connection.
    Dispatch,
}

/// Where a packet goes, given whether its connection belongs to a player yet.
pub fn route_packet(associated: bool, kind: ClientPacketKind) -> (r: PacketRoute)
    ensures
        r == if !associated && kind != ClientPacketKind::Login && kind != ClientPacketKind::Backup {
            PacketRoute::Drop
        } else if kind == ClientPacketKind::Login {
            PacketRoute::Login
        } else if kind == ClientPacketKind::Backup {
            PacketRoute::Ignore
        } else {
            PacketRoute::Dispatch
        },
{
    if !associated && kind != ClientPacketKind::Login && kind != ClientPacketKind::Backup {
        return PacketRoute::Drop;
    }
    match kind {
        ClientPacketKind::Login => PacketRoute::Login,
        ClientPacketKind::Backup => PacketRoute::Ignore,
        _ => PacketRoute::Dispatch,
    }
}

/// An event of a connection, as the connection manager reports it.
#[derive(Debug, Copy, Clone, PartialEq, Eq, Structural)]
pub enum ConnEvent {
    /// The connection was opened.
    Opened,
    /// Data arrived: the kind of client packet it decodes to, or `None` when
    /// it does not decode.
    Data(Option<ClientPacketKind>),
    /// The connection closed: the entity it belonged to, if any, and whether
    /// that entity still exists as a player.
    Closed(Option<u64>, bool),
}

/// What the server does with one connection event.
#[derive(Debug, Copy, Clone, PartialEq, Eq, Structural)]
pub enum ConnAction {
    /// Nothing is dispatched.
    Ignore,
    /// A decoded packet goes where `route_packet` sends it.
    Packet(PacketRoute),
    /// The player leaves: `PlayerLeave` is dispatched for it, and then it is
    /// despawned.
    LeaveThenDespawn(u64),
}

/// What one connection event leads to, given whether its connection belongs
/// to a player: an opened connection, data that does not decode and a closed
/// connection without a living player lead to nothing; a closed connection of
/// a player makes that player leave; decoded data is routed.
pub fn connection_event(associated: bool, ev: ConnEvent) -> (r: ConnAction)
    ensures
        r == match ev {
            ConnEvent::Opened => ConnAction::Ignore,
            ConnEvent::Data(None) => ConnAction::Ignore,
            ConnEvent::Data(Some(kind)) => ConnAction::Packet(
                if !associated && kind != ClientPacketKind::Login && kind
                    != ClientPacketKind::Backup {
                    PacketRoute::Drop
                } else if kind == ClientPacketKind::Login {
                    PacketRoute::Login
                } else if kind == ClientPacketKind::Backup {
                    PacketRoute::Ignore
                } else {
                    PacketRoute::Dispatch
                },
            ),
            ConnEvent::Closed(Some(e), true) => ConnAction::LeaveThenDespawn(e),
            ConnEvent::Closed(_, _) => ConnAction::Ignore,
        },
{
    match ev {
        ConnEvent::Opened => ConnAction::Ignore,
        ConnEvent::Data(None) => ConnAction::Ignore,
        ConnEvent::Data(Some(kind)) => ConnAction::Packet(route_packet(associated, kind)),
        ConnEvent::Closed(Some(e), true) => ConnAction::LeaveThenDespawn(e),
        ConnEvent::Closed(_, _) => ConnAction::Ignore,
    }
}

/// The checks on a login: the protocol version must be the server's, and the
/// name at most `MAX_LOGIN_NAME` bytes long.
pub fn login_check(protocol: u8, name_len: usize) -> (r: Result<(), ErrorType>)
    ensures
        r == if protocol != PROTOCOL_VERSION {
            Err(ErrorType::IncorrectProtocol)
        } else if name_len > MAX_LOGIN_NAME {
            Err(ErrorType::InvalidLogin)
        } else {
            Ok(())
        },
{
    if protocol != PROTOCOL_VERSION {
        return Err(ErrorType::IncorrectProtocol);
    }
    if name_len > MAX_LOGIN_NAME {
        return Err(ErrorType::InvalidLogin);
    }
    Ok(())
}

/// The id that a new player is known by: the id of its entity, which must fit
/// in the `u16` of the protocol; otherwise the login fails with an unknown
/// error.
pub fn player_id(entity_id: u32) -> (r: Result<u16, ErrorType>)
    ensures
        entity_id <= u16::MAX ==> r == Ok::<u16, ErrorType>(entity_id as u16),
        entity_id > u16::MAX ==> r == Err::<u16, ErrorType>(ErrorType::Unknown(255)),
{
    if entity_id > u16::MAX as u32 {
        return Err(ErrorType::Unknown(255));
    }
    Ok(entity_id as u16)
}

/// The names taken, as byte sequences.
pub open spec fn names_view(names: Seq<Vec<u8>>) -> Seq<Seq<u8>> {
    Seq::new(names.len(), |i: int| names[i]@)
}

/// The length of the longest name.
pub open spec fn max_len(s: Seq<Seq<u8>>) -> nat
    decreases s.len(),
{
    if s.len() == 0 {
        0
    } else {
        let m = max_len(s.drop_last());
        if s.last().len() > m {
            s.last().len()
        } else {
            m
        }
    }
}

proof fn lemma_max_len(s: Seq<Seq<u8>>, x: Seq<u8>)
    requires
        s.contains(x),
    ensures
        x.len() <= max_len(s),
    decreases s.len(),
{
    if s.last() != x {
        let j = choose|j: int| 0 <= j < s.len() && s[j] == x;
        assert(s.drop_last()[j] == x);
        lemma_max_len(s.drop_last(), x);
    }
}

/// The four bytes `#` and three decimal digits that are appended to a taken
/// name.
pub open spec fn spec_tag(ext: u32) -> Seq<u8> {
    seq![35u8, (48 + ext / 100) as u8, (48 + (ext / 10) % 10) as u8, (48 + ext % 10) as u8]
}

/// A run of tags: `#` at every fourth byte, decimal digits in between.
pub open spec fn is_tags(s: Seq<u8>) -> bool {
    &&& s.len() % 4 == 0
    &&& forall|i: int|
        0 <= i < s.len() ==> if i % 4 == 0 {
            s[i] == 35u8
        } else {
            48u8 <= #[trigger] s[i] <= 57u8
        }
}

/// Whether `u` is a name that `make_unique_name` can settle on for `name`:
/// `name` followed by tags, and free.
pub open spec fn spec_unique_extension(names: Seq<Seq<u8>>, name: Seq<u8>, u: Seq<u8>) -> bool {
    &&& u.len() >= name.len()
    &&& u.take(name.len() as int) == name
    &&& is_tags(u.skip(name.len() as int))
    &&& !names.contains(u)
}

/// The first `MAX_NAME` bytes of a name.
pub open spec fn spec_truncated(u: Seq<u8>) -> Seq<u8> {
    if u.len() > MAX_NAME {
        u.take(MAX_NAME as int)
    } else {
        u
    }
}

fn name_taken(names: &Vec<Vec<u8>>, name: &Vec<u8>) -> (r: bool)
    ensures
        r == names_view(names@).contains(name@),
{
    let n = names.len();
    let mut i: usize = 0;
    while i < n
        invariant
            n == names@.len(),
            i <= n,
            forall|j: int| 0 <= j < i ==> names@[j]@ != name@,
        decreases n - i,
    {
        let other = &names[i];
        let mut same = other.len() == name.len();
        if same {
            let mut k: usize = 0;
            while k < name.len()
                invariant
                    other@.len() == name@.len(),
                    k <= name@.len(),
                    same == (forall|m: int| 0 <= m < k ==> other@[m] == name@[m]),
                decreases name@.len() - k,
            {
                if other[k] != name[k] {
                    same = false;
                }
                k = k + 1;
            }
            if same {
                assert(other@ =~= name@);
            }
        }
        if same {
            assert(names_view(names@)[i as int] == name@);
            return true;
        }
        i = i + 1;
    }
    assert forall|j: int| 0 <= j < names_view(names@).len() implies names_view(names@)[j]
        != name@ by {}
    false
}

fn push_tag(name: &mut Vec<u8>, ext: u32)
    requires
        ext < 1000,
    ensures
        final(name)@ == old(name)@ + spec_tag(ext),
{
    name.push(35u8);
    name.push((48 + ext / 100) as u8);
    name.push((48 + (ext / 10) % 10) as u8);
    name.push((48 + ext % 10) as u8);
    assert(name@ =~= old(name)@ + spec_tag(ext));
}

proof fn lemma_tags_append(s: Seq<u8>, ext: u32)
    requires
        is_tags(s),
        ext < 1000,
    ensures
        is_tags(s + spec_tag(ext)),
{
    let t = s + spec_tag(ext);
    let l = s.len() as int;
    assert forall|i: int| 0 <= i < t.len() implies if i % 4 == 0 {
        t[i] == 35u8
    } else {
        48u8 <= #[trigger] t[i] <= 57u8
    } by {
        if i >= l {
            assert((i - l) % 4 == i % 4) by {
                vstd::arithmetic::div_mod::lemma_fundamental_div_mod(l, 4);
                vstd::arithmetic::div_mod::lemma_mod_multiples_vanish(l / 4, i - l, 4);
            }
        }
    }
}

/// Gives a player a name that no other player has: a taken name gets `#` and
/// three random digits appended (up to a hundred draws), and if every draw is
/// taken one of them is kept and the drawing starts again on the longer name.
/// The name is then cut to `MAX_NAME` bytes and recorded as taken.
pub fn make_unique_name(names: &mut Vec<Vec<u8>>, name: &mut Vec<u8>)
    ensures
        exists|u: Seq<u8>|
            spec_unique_extension(names_view(old(names)@), old(name)@, u) && final(name)@
                == spec_truncated(u) && (!names_view(old(names)@).contains(old(name)@) ==> u
                == old(name)@),
        forall|x: Seq<u8>|
            names_view(final(names)@).contains(x) <==> (names_view(old(names)@).contains(x) || x
                == final(name)@),
{
    let ghost n0 = name@;
    let ghost taken = names_view(names@);
    let ghost bound: int = if max_len(taken) > n0.len() {
        max_len(taken) as int
    } else {
        n0.len() as int
    };
    assert(name@.skip(n0.len() as int) =~= Seq::<u8>::empty());
    assert(name@.take(n0.len() as int) =~= n0);
    loop
        invariant_except_break
            names_view(names@) == taken,
            max_len(taken) <= bound,
            name@.len() <= bound + 4,
            name@.len() >= n0.len(),
            name@.take(n0.len() as int) == n0,
            is_tags(name@.skip(n0.len() as int)),
            taken.contains(n0) || name@ == n0,
        ensures
            names_view(names@) == taken,
            spec_unique_extension(taken, n0, name@),
            !taken.contains(n0) ==> name@ == n0,
        decreases bound + 4 - name@.len(),
    {
        if !name_taken(names, name) {
            break;
        }
        proof {
            lemma_max_len(taken, name@);
        }
        let ghost base = name@;
        assert(base.len() <= bound);
        let mut ext: u32 = 0;
        let mut found = false;
        let mut k: u32 = 0;
        while k < 100 && !found
            invariant
                names_view(names@) == taken,
                k <= 100,
                ext < 1000,
                !found ==> name@ == base,
                found ==> name@ == base + spec_tag(ext) && !taken.contains(name@),
            decreases 100 - k,
        {
            ext = random_u32() % 1000;
            push_tag(name, ext);
            if !name_taken(names, name) {
                found = true;
            } else {
                let len = name.len();
                name.truncate(len - 4);
                assert(name@ =~= base);
            }
            k = k + 1;
        }
        if !found {
            push_tag(name, ext);
        }
        assert(name@ == base + spec_tag(ext));
        assert(name@.len() == base.len() + 4);
        proof {
            lemma_tags_append(base.skip(n0.len() as int), ext);
            assert(name@.skip(n0.len() as int) =~= base.skip(n0.len() as int) + spec_tag(ext));
            assert(name@.take(n0.len() as int) =~= base.take(n0.len() as int));
        }
        if found {
            break;
        }
    }
    let ghost u = name@;
    name.truncate(MAX_NAME);
    assert(name@ == spec_truncated(u)) by {
        if u.len() > MAX_NAME {
            assert(name@ =~= u.take(MAX_NAME as int));
        }
    }
    if !name_taken(names, name) {
        let copy = name.clone();
        assert(copy@ =~= name@);
        let ghost before = names@;
        names.push(copy);
        assert(names_view(names@) =~= names_view(before).push(name@));
        assert forall|x: Seq<u8>| names_view(names@).contains(x) <==> (taken.contains(x) || x
            == name@) by {
            if names_view(names@).contains(x) && x != name@ {
                let j = choose|j: int| 0 <= j < names_view(names@).len() && names_view(names@)[j] == x;
                assert(taken[j] == x);
            }
            if taken.contains(x) {
                let j = choose|j: int| 0 <= j < taken.len() && taken[j] == x;
                assert(names_view(names@)[j] == x);
            }
            if x == name@ {
                assert(names_view(names@)[before.len() as int] == x);
            }
        }
    }
}

} // verus!
