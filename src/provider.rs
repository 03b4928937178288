use vstd::prelude::*;

use crate::world::{in_range_to, within_range, ObjId, Position};

verus! {

/// Energy held in long-term storage below which it only gets the fixed minimum score.
pub const STORAGE_LOW_RESERVE: u32 = 20000;

/// The score of long-term storage that holds less than the low reserve.
pub const STORAGE_MIN_SCORE: i64 = 1;

/// Energy a terminal keeps for trading; only what lies above it is overflow.
pub const TERMINAL_TRADE_BUFFER: u32 = 10000;

/// The score of a provider whose backing object could not be found this tick.
pub const MISSING_SCORE: i64 = -10000;

/// Range from the controller within which a container buffers energy for upgrading.
pub const CONTROLLER_BUFFER_RANGE: u32 = 3;

#[derive(Clone, Copy, Debug, PartialEq, Eq, Structural)]
pub enum ProviderKind {
    /// The source itself: harvested by an agent that can work.
    EnergyFarm,
    /// A container or a dropped pile next to a source.
    SourceDump,
    /// A container within reach of the controller.
    BufferControllerUpgrade,
    /// Bulk storage.
    LongTermStorage,
    /// What a terminal holds above its trade buffer.
    TerminalOverflow,
}

/// A world object as the registry sees it.
#[derive(Clone, Copy, Debug, PartialEq, Eq, Structural)]
pub enum ObjectClass {
    Container,
    Storage,
    Terminal,
    Source,
    DroppedResource,
    Other,
}

#[derive(Clone, Copy, Debug, PartialEq, Eq, Structural)]
pub struct RoomObject {
    pub id: ObjId,
    pub class: ObjectClass,
    pub pos: Position,
}

/// A classified provider; `litter` tells a dropped pile from a structure.
#[derive(Clone, Copy, Debug, PartialEq, Eq, Structural)]
pub struct ResourceProvider {
    pub kind: ProviderKind,
    pub obj_id: ObjId,
    pub pos: Position,
    pub litter: bool,
}

impl ResourceProvider {
    pub fn ident(&self) -> (r: ObjId)
        ensures
            r == self.obj_id,
    {
        self.obj_id
    }
}

/// What the scorer reads of a provider at scoring time: the energy it holds
/// (`None` when its backing object is gone) and the length of the path to it.
#[derive(Clone, Copy, Debug, PartialEq, Eq, Structural)]
pub struct ProviderReading {
    pub kind: ProviderKind,
    pub fill: Option<u32>,
    pub path_len: u32,
}

pub open spec fn near_any(pos: Position, sources: Seq<Position>) -> bool {
    exists|i: int| 0 <= i < sources.len() && within_range(pos, #[trigger] sources[i], 1)
}

/// The first rule that matches an object decides its provider kind.
pub open spec fn classify_spec(
    obj: RoomObject,
    sources: Seq<Position>,
    controller: Option<Position>,
) -> Option<(ProviderKind, bool)> {
    match obj.class {
        ObjectClass::Container => if near_any(obj.pos, sources) {
            Some((ProviderKind::SourceDump, false))
        } else if controller is Some && within_range(
            obj.pos,
            controller->0,
            CONTROLLER_BUFFER_RANGE as int,
        ) {
            Some((ProviderKind::BufferControllerUpgrade, false))
        } else {
            None
        },
        ObjectClass::Source => Some((ProviderKind::EnergyFarm, false)),
        ObjectClass::Storage => Some((ProviderKind::LongTermStorage, false)),
        ObjectClass::Terminal => Some((ProviderKind::TerminalOverflow, false)),
        ObjectClass::DroppedResource => if near_any(obj.pos, sources) {
            Some((ProviderKind::SourceDump, true))
        } else {
            None
        },
        ObjectClass::Other => None,
    }
}

pub open spec fn provider_of(obj: RoomObject, kl: (ProviderKind, bool)) -> ResourceProvider {
    ResourceProvider { kind: kl.0, obj_id: obj.id, pos: obj.pos, litter: kl.1 }
}

/// The providers of a room: each object that some rule matches, in the objects' order.
pub open spec fn providers_spec(
    objs: Seq<RoomObject>,
    sources: Seq<Position>,
    controller: Option<Position>,
) -> Seq<ResourceProvider>
    decreases objs.len(),
{
    if objs.len() == 0 {
        Seq::empty()
    } else {
        let prefix = providers_spec(objs.drop_last(), sources, controller);
        match classify_spec(objs.last(), sources, controller) {
            Some(kl) => prefix.push(provider_of(objs.last(), kl)),
            None => prefix,
        }
    }
}

fn is_near_any(pos: &Position, sources: &Vec<Position>) -> (r: bool)
    ensures
        r == near_any(*pos, sources@),
{
    let mut i: usize = 0;
    while i < sources.len()
        invariant
            i <= sources.len(),
            forall|j: int| 0 <= j < i ==> !within_range(*pos, #[trigger] sources@[j], 1),
        decreases sources.len() - i,
    {
        if in_range_to(pos, &sources[i], 1) {
            return true;
        }
        i += 1;
    }
    false
}

pub fn classify(obj: &RoomObject, sources: &Vec<Position>, controller: Option<Position>) -> (r:
    Option<ResourceProvider>)
    ensures
        r == (match classify_spec(*obj, sources@, controller) {
            Some(kl) => Some(provider_of(*obj, kl)),
            None => None::<ResourceProvider>,
        }),
{
    let kl: Option<(ProviderKind, bool)> = match obj.class {
        ObjectClass::Container => {
            if is_near_any(&obj.pos, sources) {
                Some((ProviderKind::SourceDump, false))
            } else {
                match controller {
                    Some(c) => {
                        if in_range_to(&obj.pos, &c, CONTROLLER_BUFFER_RANGE) {
                            Some((ProviderKind::BufferControllerUpgrade, false))
                        } else {
                            None
                        }
                    },
                    None => None,
                }
            }
        },
        ObjectClass::Source => Some((ProviderKind::EnergyFarm, false)),
        ObjectClass::Storage => Some((ProviderKind::LongTermStorage, false)),
        ObjectClass::Terminal => Some((ProviderKind::TerminalOverflow, false)),
        ObjectClass::DroppedResource => {
            if is_near_any(&obj.pos, sources) {
                Some((ProviderKind::SourceDump, true))
            } else {
                None
            }
        },
        ObjectClass::Other => None,
    };
    match kl {
        Some(k) => Some(ResourceProvider { kind: k.0, obj_id: obj.id, pos: obj.pos, litter: k.1 }),
        None => None,
    }
}

/// Classifies every object of a room, keeping those that some rule matches.
pub fn calc_resource_providers(
    objs: &Vec<RoomObject>,
    sources: &Vec<Position>,
    controller: Option<Position>,
) -> (r: Vec<ResourceProvider>)
    ensures
        r@ == providers_spec(objs@, sources@, controller),
{
    let mut out: Vec<ResourceProvider> = Vec::new();
    let mut i: usize = 0;
    while i < objs.len()
        invariant
            i <= objs.len(),
            out@ == providers_spec(objs@.take(i as int), sources@, controller),
        decreases objs.len() - i,
    {
        assert(objs@.take(i + 1).drop_last() == objs@.take(i as int));
        assert(objs@.take(i + 1).last() == objs@[i as int]);
        match classify(&objs[i], sources, controller) {
            Some(p) => out.push(p),
            None => {},
        }
        i += 1;
    }
    assert(objs@.take(objs.len() as int) == objs@);
    out
}

/// Whether an agent with these body parts can draw from a provider of this kind:
/// a source needs work parts, everything else carry parts.
pub open spec fn can_use_spec(kind: ProviderKind, work_parts: u32, carry_parts: u32) -> bool {
    if kind == ProviderKind::EnergyFarm {
        work_parts > 0
    } else {
        carry_parts > 0
    }
}

pub fn creep_can_use(kind: ProviderKind, work_parts: u32, carry_parts: u32) -> (r: bool)
    ensures
        r == can_use_spec(kind, work_parts, carry_parts),
{
    match kind {
        ProviderKind::EnergyFarm => work_parts > 0,
        _ => carry_parts > 0,
    }
}

/// `a / b` rounded to the nearest integer, halves upwards.
pub open spec fn round_div(a: int, b: int) -> int {
    (2 * a + b) / (2 * b)
}

/// How the fill level of a source dump moves its score.
pub open spec fn source_dump_fill_term(fill: int) -> int {
    if fill == 0 {
        0
    } else if fill < 100 {
        -fill
    } else if fill < 500 {
        -round_div(fill, 5)
    } else {
        round_div(fill, 100)
    }
}

/// The fill curve of a controller buffer: that of a source dump, with a smaller
/// penalty in the middle band.
pub open spec fn buffer_fill_term(fill: int) -> int {
    if fill == 0 {
        0
    } else if fill < 100 {
        -fill
    } else if fill < 500 {
        -(50 - round_div(fill, 5))
    } else {
        round_div(fill, 100)
    }
}

/// The bonus of a terminal for what it holds above its trade buffer.
pub open spec fn terminal_term(fill: int) -> int {
    let over = fill - TERMINAL_TRADE_BUFFER;
    if over < 0 {
        -250
    } else if over > 1000 {
        if round_div(over, 10000) > 5 {
            round_div(over, 10000)
        } else {
            5
        }
    } else {
        0
    }
}

/// The score of a provider for an agent that gathers energy for its own work.
pub open spec fn score_spec(kind: ProviderKind, fill: int, path: int) -> int {
    match kind {
        ProviderKind::EnergyFarm => 100 - path,
        ProviderKind::SourceDump => 200 + source_dump_fill_term(fill) - 3 * path,
        ProviderKind::BufferControllerUpgrade => 200 + buffer_fill_term(fill) - 3 * path,
        ProviderKind::LongTermStorage => if fill < STORAGE_LOW_RESERVE {
            STORAGE_MIN_SCORE as int
        } else {
            200 - 3 * path
        },
        ProviderKind::TerminalOverflow => 150 + terminal_term(fill) - 3 * path,
    }
}

pub open spec fn reading_score(r: ProviderReading) -> int {
    match r.fill {
        Some(fill) => score_spec(r.kind, fill as int, r.path_len as int),
        None => MISSING_SCORE as int,
    }
}

fn round_div_exec(a: u32, b: u32) -> (r: i64)
    requires
        b > 0,
    ensures
        r == round_div(a as int, b as int),
{
    ((2 * (a as i64) + (b as i64)) / (2 * (b as i64))) as i64
}

pub fn source_dump_fill(fill: u32) -> (r: i64)
    ensures
        r == source_dump_fill_term(fill as int),
{
    if fill == 0 {
        0
    } else if fill < 100 {
        -(fill as i64)
    } else if fill < 500 {
        -round_div_exec(fill, 5)
    } else {
        round_div_exec(fill, 100)
    }
}

pub fn buffer_fill(fill: u32) -> (r: i64)
    ensures
        r == buffer_fill_term(fill as int),
{
    if fill == 0 {
        0
    } else if fill < 100 {
        -(fill as i64)
    } else if fill < 500 {
        -(50 - round_div_exec(fill, 5))
    } else {
        round_div_exec(fill, 100)
    }
}

pub fn terminal_bonus(fill: u32) -> (r: i64)
    ensures
        r == terminal_term(fill as int),
{
    if fill < TERMINAL_TRADE_BUFFER {
        -250
    } else {
        let over: u32 = fill - TERMINAL_TRADE_BUFFER;
        if over > 1000 {
            let b = round_div_exec(over, 10000);
            if b > 5 {
                b
            } else {
                5
            }
        } else {
            0
        }
    }
}

/// Scores a provider for an agent gathering energy for its own work; a provider
/// whose object vanished gets the sentinel score.
pub fn score(reading: &ProviderReading) -> (r: i64)
    ensures
        r == reading_score(*reading),
{
    match reading.fill {
        None => MISSING_SCORE,
        Some(fill) => {
            let p: i64 = reading.path_len as i64;
            match reading.kind {
                ProviderKind::EnergyFarm => 100 - p,
                ProviderKind::SourceDump => 200 + source_dump_fill(fill) - 3 * p,
                ProviderKind::BufferControllerUpgrade => 200 + buffer_fill(fill) - 3 * p,
                ProviderKind::LongTermStorage => {
                    if fill < STORAGE_LOW_RESERVE {
                        STORAGE_MIN_SCORE
                    } else {
                        200 - 3 * p
                    }
                },
                ProviderKind::TerminalOverflow => 150 + terminal_bonus(fill) - 3 * p,
            }
        },
    }
}

/// A provider under consideration: whether the agent can use it, and what was read of it.
#[derive(Clone, Copy, Debug, PartialEq, Eq, Structural)]
pub struct Candidate {
    pub usable: bool,
    pub reading: ProviderReading,
}

/// `best` is the first usable candidate with the highest score.
pub open spec fn is_best(cands: Seq<Candidate>, best: int) -> bool {
    &&& 0 <= best < cands.len()
    &&& cands[best].usable
    &&& forall|j: int|
        0 <= j < cands.len() && (#[trigger] cands[j]).usable ==> reading_score(cands[j].reading)
            <= reading_score(cands[best].reading)
    &&& forall|j: int|
        0 <= j < best && (#[trigger] cands[j]).usable ==> reading_score(cands[j].reading)
            < reading_score(cands[best].reading)
}

/// Picks the provider with the highest score among those the agent can use;
/// ties go to the earlier candidate.
pub fn select_best(cands: &Vec<Candidate>) -> (r: Option<usize>)
    ensures
        r is None <==> forall|j: int| 0 <= j < cands@.len() ==> !(#[trigger] cands@[j]).usable,
        r matches Some(b) ==> is_best(cands@, b as int),
{
    let mut best: Option<usize> = None;
    let mut best_score: i64 = 0;
    let mut i: usize = 0;
    while i < cands.len()
        invariant
            i <= cands.len(),
            best is None <==> forall|j: int| 0 <= j < i ==> !(#[trigger] cands@[j]).usable,
            best matches Some(b) ==> {
                &&& b < i
                &&& is_best(cands@.take(i as int), b as int)
                &&& best_score == reading_score(cands@[b as int].reading)
            },
        decreases cands.len() - i,
    {
        let c = cands[i];
        if c.usable {
            let s = score(&c.reading);
            match best {
                None => {
                    best = Some(i);
                    best_score = s;
                },
                Some(_) => {
                    if s > best_score {
                        best = Some(i);
                        best_score = s;
                    }
                },
            }
        }
        assert(cands@.take(i + 1) =~= cands@.take(i as int).push(cands@[i as int]));
        i += 1;
    }
    assert(cands@.take(cands.len() as int) =~= cands@);
    best
}


/// The score of a provider for a carrier, which fetches to supply others: sources are
/// out of its reach, a source dump is worth more the fuller it is, and distance counts
/// once for dumps, three times for stores.
pub open spec fn carrier_score_spec(kind: ProviderKind, fill: int, path: int) -> int {
    match kind {
        ProviderKind::EnergyFarm => MISSING_SCORE as int,
        ProviderKind::SourceDump => (if fill == 0 {
            0
        } else if fill < 200 {
            50
        } else if fill < 500 {
            200 - (100 - round_div(fill, 5))
        } else {
            200 + round_div(fill, 100)
        }) - path,
        ProviderKind::BufferControllerUpgrade => (if fill == 0 {
            0
        } else if fill < 100 {
            50 - (150 - fill)
        } else if fill < 500 {
            50 - (100 - round_div(fill, 5))
        } else {
            50 + round_div(fill, 100)
        }) - 3 * path,
        ProviderKind::LongTermStorage => 100 - 3 * path,
        ProviderKind::TerminalOverflow => {
            let over = fill - TERMINAL_TRADE_BUFFER;
            (if over < 0 {
                -100
            } else if over > 1000 {
                100 + if round_div(over, 1000) > 5 {
                    round_div(over, 1000)
                } else {
                    5
                }
            } else {
                100
            }) - 3 * path
        },
    }
}

pub open spec fn carrier_reading_score(r: ProviderReading) -> int {
    match r.fill {
        Some(fill) => carrier_score_spec(r.kind, fill as int, r.path_len as int),
        None => MISSING_SCORE as int,
    }
}

/// Scores a provider for a carrier; a provider whose object vanished gets the sentinel.
pub fn carrier_score(reading: &ProviderReading) -> (r: i64)
    ensures
        r == carrier_reading_score(*reading),
{
    match reading.fill {
        None => MISSING_SCORE,
        Some(fill) => {
            let p: i64 = reading.path_len as i64;
            match reading.kind {
                ProviderKind::EnergyFarm => MISSING_SCORE,
                ProviderKind::SourceDump => {
                    let base: i64 = if fill == 0 {
                        0
                    } else if fill < 200 {
                        50
                    } else if fill < 500 {
                        200 - (100 - round_div_exec(fill, 5))
                    } else {
                        200 + round_div_exec(fill, 100)
                    };
                    base - p
                },
                ProviderKind::BufferControllerUpgrade => {
                    let base: i64 = if fill == 0 {
                        0
                    } else if fill < 100 {
                        50 - (150 - fill as i64)
                    } else if fill < 500 {
                        50 - (100 - round_div_exec(fill, 5))
                    } else {
                        50 + round_div_exec(fill, 100)
                    };
                    base - 3 * p
                },
                ProviderKind::LongTermStorage => 100 - 3 * p,
                ProviderKind::TerminalOverflow => {
                    let base: i64 = if fill < TERMINAL_TRADE_BUFFER {
                        -100
                    } else {
                        let over: u32 = fill - TERMINAL_TRADE_BUFFER;
                        if over > 1000 {
                            let b = round_div_exec(over, 1000);
                            100 + if b > 5 {
                                b
                            } else {
                                5
                            }
                        } else {
                            100
                        }
                    };
                    base - 3 * p
                },
            }
        },
    }
}

/// Picks the provider with the highest carrier score among those the carrier can use;
/// ties go to the earlier candidate.
pub fn select_best_for_carrier(cands: &Vec<Candidate>) -> (r: Option<usize>)
    ensures
        r is None <==> forall|j: int| 0 <= j < cands@.len() ==> !(#[trigger] cands@[j]).usable,
        r matches Some(b) ==> {
            &&& 0 <= b < cands@.len()
            &&& cands@[b as int].usable
            &&& forall|j: int|
                0 <= j < cands@.len() && (#[trigger] cands@[j]).usable ==> carrier_reading_score(
                    cands@[j].reading,
                ) <= carrier_reading_score(cands@[b as int].reading)
            &&& forall|j: int|
                0 <= j < b && (#[trigger] cands@[j]).usable ==> carrier_reading_score(
                    cands@[j].reading,
                ) < carrier_reading_score(cands@[b as int].reading)
        },
{
    let mut best: Option<usize> = None;
    let mut best_score: i64 = 0;
    let mut i: usize = 0;
    while i < cands.len()
        invariant
            i <= cands.len(),
            best is None <==> forall|j: int| 0 <= j < i ==> !(#[trigger] cands@[j]).usable,
            best matches Some(b) ==> {
                &&& b < i
                &&& cands@[b as int].usable
                &&& best_score == carrier_reading_score(cands@[b as int].reading)
                &&& forall|j: int|
                    0 <= j < i && (#[trigger] cands@[j]).usable ==> carrier_reading_score(
                        cands@[j].reading,
                    ) <= best_score
                &&& forall|j: int|
                    0 <= j < b && (#[trigger] cands@[j]).usable ==> carrier_reading_score(
                        cands@[j].reading,
                    ) < best_score
            },
        decreases cands.len() - i,
    {
        let c = cands[i];
        if c.usable {
            let s = carrier_score(&c.reading);
            match best {
                None => {
                    best = Some(i);
                    best_score = s;
                },
                Some(_) => {
                    if s > best_score {
                        best = Some(i);
                        best_score = s;
                    }
                },
            }
        }
        i += 1;
    }
    best
}

/// For every provider kind and a fixed fill level, a longer path never raises the
/// carrier's score either.
pub proof fn lemma_carrier_score_falls_with_path(kind: ProviderKind, fill: int, near: int, far: int)
    requires
        0 <= near <= far,
    ensures
        carrier_score_spec(kind, fill, far) <= carrier_score_spec(kind, fill, near),
{
}

/// For every provider kind and a fixed fill level, a longer path never raises the score.
pub proof fn lemma_score_falls_with_path(kind: ProviderKind, fill: int, near: int, far: int)
    requires
        0 <= near <= far,
    ensures
        score_spec(kind, fill, far) <= score_spec(kind, fill, near),
{
}

/// The fill curve of a source dump in its four bands.
pub proof fn lemma_source_dump_curve(fill: int)
    requires
        fill >= 0,
    ensures
        fill == 0 ==> source_dump_fill_term(fill) == 0,
        0 < fill < 100 ==> source_dump_fill_term(fill) == -fill,
        100 <= fill < 500 ==> source_dump_fill_term(fill) == -round_div(fill, 5),
        fill >= 500 ==> source_dump_fill_term(fill) == round_div(fill, 100),
        forall|path: int| score_spec(ProviderKind::SourceDump, fill, path)
            == 200 + source_dump_fill_term(fill) - 3 * path,
{
}

/// Long-term storage below the low reserve scores the fixed minimum, wherever it lies.
pub proof fn lemma_storage_floor(fill: int, path: int)
    requires
        0 <= fill < STORAGE_LOW_RESERVE,
    ensures
        score_spec(ProviderKind::LongTermStorage, fill, path) == STORAGE_MIN_SCORE,
        STORAGE_MIN_SCORE > 0,
{
}

} // verus!
