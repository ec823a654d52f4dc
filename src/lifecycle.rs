use crate::actor::{spawn_player, Actor, RUN_FRAME_INTERVAL_NS};
use crate::geometry::{Facing, Position, Sprite, Velocity};
use vstd::prelude::*;

verus! {

/// A contact between two entities of the world beginning or ending.
#[derive(Clone, Copy, Debug, PartialEq, Eq, Structural)]
pub enum CollisionEvent {
    Started(u64, u64),
    Stopped(u64, u64),
}

/// A place marked in the level, with the kind of thing it stands for.
pub struct SpawnPoint {
    pub identifier: String,
    pub position: Position,
}

/// The identifier of the places where the character appears.
pub open spec fn player_identifier() -> Seq<char> {
    seq!['P', 'l', 'a', 'y', 'e', 'r']
}

/// Whether a level entity's identifier marks the character's spawn point.
pub fn is_player_identifier(identifier: &String) -> (r: bool)
    ensures
        r == (identifier@ == player_identifier()),
{
    let s = identifier.as_str();
    if s.unicode_len() != 6 {
        return false;
    }
    let r = s.get_char(0) == 'P' && s.get_char(1) == 'l' && s.get_char(2) == 'a' && s.get_char(3)
        == 'y' && s.get_char(4) == 'e' && s.get_char(5) == 'r';
    if !r {
        assert(identifier@ != player_identifier()) by {
            if identifier@ == player_identifier() {
                assert(identifier@[0] == 'P' && identifier@[1] == 'l' && identifier@[2] == 'a');
                assert(identifier@[3] == 'y' && identifier@[4] == 'e' && identifier@[5] == 'r');
            }
        }
    } else {
        assert(identifier@ == player_identifier());
    }
    r
}

/// The entity that an event kills: the other side of a contact that begins
/// with a trap.
pub open spec fn victim(event: CollisionEvent, traps: Seq<u64>) -> Option<u64> {
    match event {
        CollisionEvent::Started(a, b) => if traps.contains(a) {
            Some(b)
        } else if traps.contains(b) {
            Some(a)
        } else {
            None
        },
        CollisionEvent::Stopped(_, _) => None,
    }
}

/// The entities that a frame's events kill, in the order of the events.
pub open spec fn victims(events: Seq<CollisionEvent>, traps: Seq<u64>) -> Seq<u64>
    decreases events.len(),
{
    if events.len() == 0 {
        seq![]
    } else {
        let before = victims(events.drop_last(), traps);
        match victim(events.last(), traps) {
            Some(v) => before.push(v),
            None => before,
        }
    }
}

/// Every entity that an event kills is among those the frame's events kill.
pub proof fn lemma_victims_contains(events: Seq<CollisionEvent>, traps: Seq<u64>, k: int)
    requires
        0 <= k < events.len(),
        victim(events[k], traps) is Some,
    ensures
        victims(events, traps).contains(victim(events[k], traps)->Some_0),
    decreases events.len(),
{
    let v = victim(events[k], traps)->Some_0;
    if k == events.len() - 1 {
        assert(victims(events, traps).last() == v);
    } else {
        lemma_victims_contains(events.drop_last(), traps, k);
        let before = victims(events.drop_last(), traps);
        let j = choose|j: int| 0 <= j < before.len() && before[j] == v;
        match victim(events.last(), traps) {
            Some(w) => assert(before.push(w)[j] == v),
            None => {},
        }
    }
}

/// A character that is not itself a trap and begins to touch a trap in a
/// frame's events does not survive that frame.
pub proof fn lemma_hazard_kills(
    id: u64,
    trap: u64,
    events: Seq<CollisionEvent>,
    traps: Seq<u64>,
    k: int,
)
    requires
        0 <= k < events.len(),
        events[k] == CollisionEvent::Started(trap, id) || events[k] == CollisionEvent::Started(
            id,
            trap,
        ),
        traps.contains(trap),
        !traps.contains(id),
    ensures
        !survives(Some(id), victims(events, traps)),
{
    lemma_victims_contains(events, traps, k);
}

/// The character's handle, if a character exists.
pub open spec fn actor_id(actor: Option<Actor>) -> Option<u64> {
    match actor {
        Some(a) => Some(a.id),
        None => None,
    }
}

/// Whether the character is alive after the killed entities are gone.
pub open spec fn survives(actor: Option<u64>, killed: Seq<u64>) -> bool {
    match actor {
        Some(id) => !killed.contains(id),
        None => false,
    }
}

fn contains_id(ids: &Vec<u64>, id: u64) -> (r: bool)
    ensures
        r == ids@.contains(id),
{
    let mut i: usize = 0;
    while i < ids.len()
        invariant
            i <= ids@.len(),
            forall|j: int| 0 <= j < i ==> ids@[j] != id,
        decreases ids@.len() - i,
    {
        if ids[i] == id {
            return true;
        }
        i = i + 1;
    }
    false
}

/// Reads the frame's collision events: every entity that begins to touch one
/// of `traps` is killed. The killed entities are returned in event order
/// (so that the caller can tear them down with all they own); the character
/// is removed when it is among them.
pub fn player_die(
    actor: &mut Option<Actor>,
    events: &Vec<CollisionEvent>,
    traps: &Vec<u64>,
) -> (killed: Vec<u64>)
    ensures
        killed@ == victims(events@, traps@),
        survives(actor_id(*old(actor)), killed@) ==> *final(actor) == *old(actor),
        !survives(actor_id(*old(actor)), killed@) ==> (*final(actor) is None),
{
    let mut killed: Vec<u64> = Vec::new();
    let n = events.len();
    let mut i: usize = 0;
    while i < n
        invariant
            n == events@.len(),
            i <= n,
            killed@ == victims(events@.take(i as int), traps@),
        decreases n - i,
    {
        assert(events@.take(i + 1).drop_last() == events@.take(i as int));
        match events[i] {
            CollisionEvent::Started(a, b) => {
                if contains_id(traps, a) {
                    killed.push(b);
                } else if contains_id(traps, b) {
                    killed.push(a);
                }
            },
            CollisionEvent::Stopped(_, _) => {},
        }
        i = i + 1;
    }
    assert(events@.take(n as int) == events@);
    let dead = match actor {
        Some(a) => contains_id(&killed, a.id),
        None => false,
    };
    if dead {
        *actor = None;
    }
    killed
}

/// Whether a point plus the level offset stays in machine range.
pub open spec fn offset_fits(p: Position, offset: Position) -> bool {
    &&& i64::MIN <= p.x + offset.x <= i64::MAX
    &&& i64::MIN <= p.y + offset.y <= i64::MAX
}

/// The index of the first character spawn point, if there is one.
pub open spec fn first_player_point(points: Seq<SpawnPoint>) -> Option<int> {
    if exists|i: int| 0 <= i < points.len() && #[trigger] points[i].identifier@ == player_identifier() {
        Some(
            choose|i: int|
                0 <= i < points.len() && points[i].identifier@ == player_identifier() && (forall|
                    j: int,
                | 0 <= j < i ==> #[trigger] points[j].identifier@ != player_identifier()),
        )
    } else {
        None
    }
}

/// The world position of a spawn point.
pub open spec fn translated(p: Position, offset: Position) -> Position {
    Position { x: (p.x + offset.x) as i64, y: (p.y + offset.y) as i64 }
}

/// When no character exists, makes one, with handle `new_id`, at the first
/// spawn point marked for it, moved by the level offset. Otherwise, or with
/// no such point, nothing changes.
pub fn player_revive(
    actor: &mut Option<Actor>,
    spawn_points: &Vec<SpawnPoint>,
    offset: Position,
    new_id: u64,
)
    requires
        forall|i: int|
            0 <= i < spawn_points@.len() ==> offset_fits(
                #[trigger] spawn_points@[i].position,
                offset,
            ),
    ensures
        (*old(actor) is Some || first_player_point(spawn_points@) is None) ==> *final(actor)
            == *old(actor),
        (*old(actor) is None && first_player_point(spawn_points@) is Some) ==> {
            let i = first_player_point(spawn_points@)->Some_0;
            &&& *final(actor) is Some
            &&& (*final(actor))->Some_0.wf()
            &&& (*final(actor))->Some_0.id == new_id
            &&& (*final(actor))->Some_0.position == translated(spawn_points@[i].position, offset)
            &&& (*final(actor))->Some_0.velocity == (Velocity { x: 0, y: 0 })
            &&& (*final(actor))->Some_0.facing == Facing::Right
        },
{
    if actor.is_some() {
        return;
    }
    let mut i: usize = 0;
    while i < spawn_points.len()
        invariant
            i <= spawn_points@.len(),
            *actor == *old(actor),
            *old(actor) is None,
            forall|j: int|
                0 <= j < spawn_points@.len() ==> offset_fits(
                    #[trigger] spawn_points@[j].position,
                    offset,
                ),
            forall|j: int| 0 <= j < i ==> #[trigger] spawn_points@[j].identifier@ != player_identifier(),
        decreases spawn_points@.len() - i,
    {
        if is_player_identifier(&spawn_points[i].identifier) {
            let p = spawn_points[i].position;
            assert(offset_fits(spawn_points@[i as int].position, offset));
            let pos = Position { x: p.x + offset.x, y: p.y + offset.y };
            *actor = Some(spawn_player(new_id, pos));
            proof {
                let k = first_player_point(spawn_points@)->Some_0;
                assert(first_player_point(spawn_points@) is Some);
                assert(k == i as int) by {
                    if k < i {
                    } else if k > i {
                    }
                }
            }
            return;
        }
        i = i + 1;
    }
}

} // verus!
