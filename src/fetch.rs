use vstd::prelude::*;

use crate::provider::TERMINAL_TRADE_BUFFER;
use crate::tasks::{OokTaskRunnableResult, TaskAction, TaskOutcome};
use crate::world::{ObjId, Position, within_range, in_range_to};

verus! {

/// Where a carrier can fetch energy for a consumer.
#[derive(Clone, Copy, Debug, PartialEq, Eq, Structural)]
pub enum FetchKind {
    /// A container that farmers fill.
    FarmerContainer,
    Ruin,
    DroppedSource,
    Terminal,
}

/// Where a carrier delivers energy.
#[derive(Clone, Copy, Debug, PartialEq, Eq, Structural)]
pub enum DeliverKind {
    Extension,
    Tower,
    Spawn,
    /// A container next to the controller that upgraders draw from.
    UpgraderContainer,
    TempStorage,
    /// The terminal, to pay for trades.
    TradeTransactionFee,
}

#[derive(Clone, Copy, Debug, PartialEq, Eq, Structural)]
pub struct FetchTarget {
    pub kind: FetchKind,
    pub id: ObjId,
    pub pos: Position,
    pub provides: u32,
}

#[derive(Clone, Copy, Debug, PartialEq, Eq, Structural)]
pub struct DeliverTarget {
    pub kind: DeliverKind,
    pub id: ObjId,
    pub pos: Position,
    pub requested: u32,
}

/// An object of the room that energy could be fetched from, as seen now.
#[derive(Clone, Copy, Debug, PartialEq, Eq, Structural)]
pub struct FetchCandidate {
    pub kind: FetchKind,
    pub id: ObjId,
    pub pos: Position,
    /// Energy it holds.
    pub energy: u32,
    pub path_len: u32,
    /// Within reach of the controller (such a container feeds upgraders).
    pub near_controller: bool,
    /// Whether what it holds is energy (a dropped pile may hold another resource).
    pub holds_energy: bool,
}

/// An object of the room that could take energy, as seen now.
#[derive(Clone, Copy, Debug, PartialEq, Eq, Structural)]
pub struct DeliverCandidate {
    pub kind: DeliverKind,
    pub id: ObjId,
    pub pos: Position,
    pub free: u32,
    pub used: u32,
    pub path_len: u32,
}

/// A farmer container is worth fetching from above this much energy.
pub const CONTAINER_MIN_ENERGY: u32 = 100;

/// An upgrader container is worth filling with more than this much room.
pub const UPGRADER_CONTAINER_MIN_FREE: u32 = 50;

/// The fetch candidates of a class, in order of preference, and what makes one better.
/// Ruins come first (in the order found), then dropped energy (the largest pile), then
/// farmer containers away from the controller holding enough energy (most energy, less
/// a hundred per step of path), then a terminal above its trade buffer.
pub open spec fn fetch_eligible(c: FetchCandidate, class: int) -> bool {
    if class == 0 {
        c.kind == FetchKind::Ruin && c.energy > 0
    } else if class == 1 {
        c.kind == FetchKind::DroppedSource && c.holds_energy
    } else if class == 2 {
        c.kind == FetchKind::FarmerContainer && c.energy > CONTAINER_MIN_ENERGY && !c.near_controller
    } else {
        c.kind == FetchKind::Terminal && c.energy > TERMINAL_TRADE_BUFFER
    }
}

pub open spec fn fetch_key(c: FetchCandidate, class: int) -> int {
    if class == 1 {
        c.energy as int
    } else if class == 2 {
        c.energy - 100 * c.path_len
    } else {
        0
    }
}

/// The first eligible candidate of a class with the highest key.
pub open spec fn best_fetch(cs: Seq<FetchCandidate>, class: int) -> Option<int>
    decreases cs.len(),
{
    if cs.len() == 0 {
        None
    } else {
        let prev = best_fetch(cs.drop_last(), class);
        let last = cs.len() - 1;
        if fetch_eligible(cs[last], class) && (prev is None || fetch_key(cs[last], class) > fetch_key(
            cs[prev->Some_0],
            class,
        )) {
            Some(last)
        } else {
            prev
        }
    }
}

pub open spec fn fetch_target_of(c: FetchCandidate) -> FetchTarget {
    FetchTarget {
        kind: c.kind,
        id: c.id,
        pos: c.pos,
        provides: if c.kind == FetchKind::Terminal {
            (c.energy - TERMINAL_TRADE_BUFFER) as u32
        } else {
            c.energy
        },
    }
}

pub open spec fn prio_fetch(cs: Seq<FetchCandidate>) -> Option<FetchTarget> {
    match best_fetch(cs, 0) {
        Some(i) => Some(fetch_target_of(cs[i])),
        None => match best_fetch(cs, 1) {
            Some(i) => Some(fetch_target_of(cs[i])),
            None => match best_fetch(cs, 2) {
                Some(i) => Some(fetch_target_of(cs[i])),
                None => match best_fetch(cs, 3) {
                    Some(i) => Some(fetch_target_of(cs[i])),
                    None => None,
                },
            },
        },
    }
}

/// The deliver candidates of a class, in order of preference, and what makes one
/// better: extensions with room (the nearest), spawns with room (the emptiest), towers
/// with room (the emptiest), upgrader containers with enough room, a terminal below its
/// trade buffer, storage with room (each of the last three in the order found).
pub open spec fn deliver_eligible(c: DeliverCandidate, class: int) -> bool {
    if class == 0 {
        c.kind == DeliverKind::Extension && c.free > 0
    } else if class == 1 {
        c.kind == DeliverKind::Spawn && c.free > 0
    } else if class == 2 {
        c.kind == DeliverKind::Tower && c.free > 0
    } else if class == 3 {
        c.kind == DeliverKind::UpgraderContainer && c.free > UPGRADER_CONTAINER_MIN_FREE
    } else if class == 4 {
        c.kind == DeliverKind::TradeTransactionFee && c.used < TERMINAL_TRADE_BUFFER
    } else {
        c.kind == DeliverKind::TempStorage && c.free > 0
    }
}

pub open spec fn deliver_key(c: DeliverCandidate, class: int) -> int {
    if class == 0 {
        -(c.path_len as int)
    } else if class == 1 || class == 2 {
        c.free as int
    } else {
        0
    }
}

pub open spec fn best_deliver(cs: Seq<DeliverCandidate>, class: int) -> Option<int>
    decreases cs.len(),
{
    if cs.len() == 0 {
        None
    } else {
        let prev = best_deliver(cs.drop_last(), class);
        let last = cs.len() - 1;
        if deliver_eligible(cs[last], class) && (prev is None || deliver_key(cs[last], class)
            > deliver_key(cs[prev->Some_0], class)) {
            Some(last)
        } else {
            prev
        }
    }
}

pub open spec fn deliver_target_of(c: DeliverCandidate) -> DeliverTarget {
    DeliverTarget { kind: c.kind, id: c.id, pos: c.pos, requested: c.free }
}

pub open spec fn prio_deliver_from(cs: Seq<DeliverCandidate>, class: int) -> Option<DeliverTarget>
    decreases 6 - class,
{
    if class >= 6 || class < 0 {
        None
    } else {
        match best_deliver(cs, class) {
            Some(i) => Some(deliver_target_of(cs[i])),
            None => prio_deliver_from(cs, class + 1),
        }
    }
}

proof fn lemma_best_fetch_prefix(cs: Seq<FetchCandidate>, class: int, i: int)
    requires
        0 <= i < cs.len(),
    ensures
        best_fetch(cs.take(i + 1), class) == ({
            let prev = best_fetch(cs.take(i), class);
            if fetch_eligible(cs[i], class) && (prev is None || fetch_key(cs[i], class) > fetch_key(
                cs[prev->Some_0],
                class,
            )) {
                Some(i)
            } else {
                prev
            }
        }),
{
    assert(cs.take(i + 1).drop_last() =~= cs.take(i));
    lemma_best_fetch_bounds(cs.take(i), class);
}

proof fn lemma_best_fetch_bounds(cs: Seq<FetchCandidate>, class: int)
    ensures
        best_fetch(cs, class) matches Some(k) ==> 0 <= k < cs.len(),
    decreases cs.len(),
{
    if cs.len() > 0 {
        lemma_best_fetch_bounds(cs.drop_last(), class);
    }
}

proof fn lemma_best_deliver_bounds(cs: Seq<DeliverCandidate>, class: int)
    ensures
        best_deliver(cs, class) matches Some(k) ==> 0 <= k < cs.len(),
    decreases cs.len(),
{
    if cs.len() > 0 {
        lemma_best_deliver_bounds(cs.drop_last(), class);
    }
}

fn fetch_ok(c: &FetchCandidate, class: u8) -> (r: bool)
    requires
        class <= 3,
    ensures
        r == fetch_eligible(*c, class as int),
{
    match class {
        0 => c.kind == FetchKind::Ruin && c.energy > 0,
        1 => c.kind == FetchKind::DroppedSource && c.holds_energy,
        2 => c.kind == FetchKind::FarmerContainer && c.energy > CONTAINER_MIN_ENERGY && !c.near_controller,
        _ => c.kind == FetchKind::Terminal && c.energy > TERMINAL_TRADE_BUFFER,
    }
}

fn fetch_key_exec(c: &FetchCandidate, class: u8) -> (r: i64)
    requires
        class <= 3,
    ensures
        r == fetch_key(*c, class as int),
{
    match class {
        1 => c.energy as i64,
        2 => c.energy as i64 - 100 * (c.path_len as i64),
        _ => 0,
    }
}

fn find_best_fetch(cs: &Vec<FetchCandidate>, class: u8) -> (r: Option<usize>)
    requires
        class <= 3,
    ensures
        r matches Some(k) ==> best_fetch(cs@, class as int) == Some(k as int),
        r is None ==> best_fetch(cs@, class as int) is None,
{
    let mut best: Option<usize> = None;
    let mut best_key: i64 = 0;
    let mut i: usize = 0;
    while i < cs.len()
        invariant
            class <= 3,
            i <= cs.len(),
            best matches Some(k) ==> best_fetch(cs@.take(i as int), class as int) == Some(k as int)
                && k < i && best_key == fetch_key(cs@[k as int], class as int),
            best is None ==> best_fetch(cs@.take(i as int), class as int) is None,
        decreases cs.len() - i,
    {
        proof {
            lemma_best_fetch_prefix(cs@, class as int, i as int);
        }
        if fetch_ok(&cs[i], class) {
            let k = fetch_key_exec(&cs[i], class);
            if best.is_none() || k > best_key {
                best = Some(i);
                best_key = k;
            }
        }
        i += 1;
    }
    assert(cs@.take(cs.len() as int) =~= cs@);
    best
}

fn to_fetch_target(c: &FetchCandidate) -> (r: FetchTarget)
    requires
        c.kind == FetchKind::Terminal ==> c.energy > TERMINAL_TRADE_BUFFER,
    ensures
        r == fetch_target_of(*c),
{
    let provides = match c.kind {
        FetchKind::Terminal => c.energy - TERMINAL_TRADE_BUFFER,
        _ => c.energy,
    };
    FetchTarget { kind: c.kind, id: c.id, pos: c.pos, provides }
}

/// The target a carrier fetches from (see `fetch_eligible` for the order).
pub fn get_prio_fetch_target(cs: &Vec<FetchCandidate>) -> (r: Option<FetchTarget>)
    ensures
        r == prio_fetch(cs@),
{
    let mut class: u8 = 0;
    while class <= 3
        invariant
            class <= 4,
            forall|c: int| 0 <= c < class ==> best_fetch(cs@, c) is None,
        decreases 4 - class,
    {
        match find_best_fetch(cs, class) {
            Some(i) => {
                proof {
                    lemma_best_fetch_bounds(cs@, class as int);
                    lemma_best_fetch_eligible(cs@, class as int);
                }
                return Some(to_fetch_target(&cs[i]));
            },
            None => {},
        }
        class += 1;
    }
    None
}

proof fn lemma_best_fetch_eligible(cs: Seq<FetchCandidate>, class: int)
    ensures
        best_fetch(cs, class) matches Some(k) ==> fetch_eligible(cs[k], class),
    decreases cs.len(),
{
    if cs.len() > 0 {
        lemma_best_fetch_eligible(cs.drop_last(), class);
        lemma_best_fetch_bounds(cs.drop_last(), class);
        let prev = best_fetch(cs.drop_last(), class);
        if prev is Some {
            assert(cs.drop_last()[prev->Some_0] == cs[prev->Some_0]);
        }
    }
}

fn deliver_ok(c: &DeliverCandidate, class: u8) -> (r: bool)
    requires
        class <= 5,
    ensures
        r == deliver_eligible(*c, class as int),
{
    match class {
        0 => c.kind == DeliverKind::Extension && c.free > 0,
        1 => c.kind == DeliverKind::Spawn && c.free > 0,
        2 => c.kind == DeliverKind::Tower && c.free > 0,
        3 => c.kind == DeliverKind::UpgraderContainer && c.free > UPGRADER_CONTAINER_MIN_FREE,
        4 => c.kind == DeliverKind::TradeTransactionFee && c.used < TERMINAL_TRADE_BUFFER,
        _ => c.kind == DeliverKind::TempStorage && c.free > 0,
    }
}

fn deliver_key_exec(c: &DeliverCandidate, class: u8) -> (r: i64)
    requires
        class <= 5,
    ensures
        r == deliver_key(*c, class as int),
{
    match class {
        0 => -(c.path_len as i64),
        1 => c.free as i64,
        2 => c.free as i64,
        _ => 0,
    }
}

fn find_best_deliver(cs: &Vec<DeliverCandidate>, class: u8) -> (r: Option<usize>)
    requires
        class <= 5,
    ensures
        r matches Some(k) ==> best_deliver(cs@, class as int) == Some(k as int),
        r is None ==> best_deliver(cs@, class as int) is None,
{
    let mut best: Option<usize> = None;
    let mut best_key: i64 = 0;
    let mut i: usize = 0;
    while i < cs.len()
        invariant
            class <= 5,
            i <= cs.len(),
            best matches Some(k) ==> best_deliver(cs@.take(i as int), class as int) == Some(k as int)
                && k < i && best_key == deliver_key(cs@[k as int], class as int),
            best is None ==> best_deliver(cs@.take(i as int), class as int) is None,
        decreases cs.len() - i,
    {
        proof {
            assert(cs@.take(i + 1).drop_last() =~= cs@.take(i as int));
            lemma_best_deliver_bounds(cs@.take(i as int), class as int);
            let prev = best_deliver(cs@.take(i as int), class as int);
            if prev is Some {
                assert(cs@.take(i + 1)[prev->Some_0] == cs@[prev->Some_0]);
            }
        }
        if deliver_ok(&cs[i], class) {
            let k = deliver_key_exec(&cs[i], class);
            if best.is_none() || k > best_key {
                best = Some(i);
                best_key = k;
            }
        }
        i += 1;
    }
    assert(cs@.take(cs.len() as int) =~= cs@);
    best
}

/// The target a carrier delivers to (see `deliver_eligible` for the order); it asks for
/// as much as the target has room for.
pub fn get_prio_deliver_target(cs: &Vec<DeliverCandidate>) -> (r: Option<DeliverTarget>)
    ensures
        r == prio_deliver_from(cs@, 0),
{
    let mut class: u8 = 0;
    while class <= 5
        invariant
            class <= 6,
            prio_deliver_from(cs@, class as int) == prio_deliver_from(cs@, 0),
        decreases 6 - class,
    {
        match find_best_deliver(cs, class) {
            Some(i) => {
                proof {
                    lemma_best_deliver_bounds(cs@, class as int);
                }
                let c = cs[i];
                return Some(DeliverTarget { kind: c.kind, id: c.id, pos: c.pos, requested: c.free });
            },
            None => {},
        }
        class += 1;
    }
    None
}

#[derive(Clone, Copy, Debug, PartialEq, Eq, Structural)]
pub enum FetchStep {
    Fetching { from: FetchTarget, to: DeliverTarget },
    Delivering { to: DeliverTarget, provided: u32 },
}

/// What a new run starts with: delivering at once when the energy carried covers the
/// request, else fetching for it; nothing when there is nothing to deliver to, or
/// nothing to fetch from.
pub open spec fn new_run_spec(deliver: Option<DeliverTarget>, fetch: Option<FetchTarget>, used: u32) -> Option<FetchStep> {
    match deliver {
        Some(d) => if d.requested <= used {
            Some(FetchStep::Delivering { to: d, provided: 0 })
        } else {
            match fetch {
                Some(f) => Some(FetchStep::Fetching { from: f, to: d }),
                None => None,
            }
        },
        None => None,
    }
}

pub fn new_run(deliver: Option<DeliverTarget>, fetch: Option<FetchTarget>, used: u32) -> (r: Option<FetchStep>)
    ensures
        r == new_run_spec(deliver, fetch, used),
{
    match deliver {
        Some(d) => {
            if d.requested <= used {
                Some(FetchStep::Delivering { to: d, provided: 0 })
            } else {
                match fetch {
                    Some(f) => Some(FetchStep::Fetching { from: f, to: d }),
                    None => None,
                }
            }
        },
        None => None,
    }
}

/// What a carrier fetching for a consumer sees this tick, and what a new run would be.
#[derive(Clone, Copy, Debug, PartialEq, Eq, Structural)]
pub struct FetchView {
    pub creep_pos: Position,
    pub used: u32,
    pub free: u32,
    /// Whether the object the task fetches from still resolves.
    pub from_present: bool,
    /// Whether the object the task delivers to still resolves.
    pub to_present: bool,
    pub plan: Option<FetchStep>,
}

pub open spec fn fetch_action(from: FetchTarget, free: u32) -> TaskAction {
    if from.kind == FetchKind::DroppedSource {
        TaskAction::Pickup(from.id)
    } else {
        TaskAction::Withdraw { target: from.id, amount: if free < from.provides { free } else { from.provides } }
    }
}

/// A task that fetches energy and delivers it to the consumer that needs it most.
#[derive(Clone, Copy, Debug, PartialEq, Eq, Structural)]
pub struct FetchForConsumer {
    pub state: Option<FetchStep>,
}

impl FetchForConsumer {
    pub fn new(plan: Option<FetchStep>) -> (r: FetchForConsumer)
        ensures
            r.state == plan,
    {
        FetchForConsumer { state: plan }
    }

    /// Advances the task by one tick. A fetch turns into the delivery once the agent is
    /// full or carries what was requested; a delivery finishes the task once all that
    /// was requested is delivered or nothing is carried any more. Without a state the
    /// task takes the planned one, and finishes when there is none. When the object it
    /// delivers to is gone the task cancels; a fetch whose object is gone falls back to
    /// the planned state, or cancels when there is none. No command is issued to a
    /// vanished object.
    pub fn run(&mut self, v: &FetchView) -> (r: TaskOutcome)
        ensures
            ({
                let pre = match old(self).state {
                    Some(FetchStep::Fetching { from, to }) => if v.free == 0 || v.used >= to.requested {
                        Some(FetchStep::Delivering { to, provided: 0 })
                    } else {
                        old(self).state
                    },
                    Some(s) => Some(s),
                    None => v.plan,
                };
                match pre {
                    None => r == (TaskOutcome { action: TaskAction::Wait, result: OokTaskRunnableResult::Finish }),
                    Some(FetchStep::Delivering { to, provided }) => if old(self).state is Some && (v.used == 0 || provided >= to.requested) {
                        r == (TaskOutcome { action: TaskAction::Wait, result: OokTaskRunnableResult::Finish })
                            && final(self).state is None
                    } else if !v.to_present {
                        r == (TaskOutcome { action: TaskAction::Wait, result: OokTaskRunnableResult::CancelAndDoAnother })
                            && final(self).state is None
                    } else if within_range(v.creep_pos, to.pos, 1) {
                        let amount = if to.requested < v.used { to.requested } else { v.used };
                        r == (TaskOutcome {
                            action: TaskAction::Transfer { target: to.id, amount },
                            result: OokTaskRunnableResult::Continue,
                        }) && final(self).state == Some(FetchStep::Delivering {
                            to,
                            provided: if provided + amount > u32::MAX { u32::MAX } else { (provided + amount) as u32 },
                        })
                    } else {
                        r == (TaskOutcome { action: TaskAction::MoveTo(to.pos), result: OokTaskRunnableResult::Continue })
                            && final(self).state == pre
                    },
                    Some(FetchStep::Fetching { from, to }) => if !v.to_present {
                        r == (TaskOutcome { action: TaskAction::Wait, result: OokTaskRunnableResult::CancelAndDoAnother })
                            && final(self).state is None
                    } else if !v.from_present {
                        final(self).state == v.plan && r == (if v.plan is Some {
                            TaskOutcome { action: TaskAction::Wait, result: OokTaskRunnableResult::Continue }
                        } else {
                            TaskOutcome { action: TaskAction::Wait, result: OokTaskRunnableResult::CancelAndDoAnother }
                        })
                    } else if within_range(v.creep_pos, from.pos, 1) {
                        r == (TaskOutcome { action: fetch_action(from, v.free), result: OokTaskRunnableResult::Continue })
                            && final(self).state == pre
                    } else {
                        r == (TaskOutcome { action: TaskAction::MoveTo(from.pos), result: OokTaskRunnableResult::Continue })
                            && final(self).state == pre
                    },
                }
            }),
    {
        let had_state = self.state.is_some();
        let pre = match self.state {
            Some(FetchStep::Fetching { from, to }) => {
                if v.free == 0 || v.used >= to.requested {
                    Some(FetchStep::Delivering { to, provided: 0 })
                } else {
                    self.state
                }
            },
            Some(s) => Some(s),
            None => v.plan,
        };
        match pre {
            None => {
                self.state = None;
                TaskOutcome { action: TaskAction::Wait, result: OokTaskRunnableResult::Finish }
            },
            Some(FetchStep::Delivering { to, provided }) => {
                if had_state && (v.used == 0 || provided >= to.requested) {
                    self.state = None;
                    TaskOutcome { action: TaskAction::Wait, result: OokTaskRunnableResult::Finish }
                } else if !v.to_present {
                    self.state = None;
                    TaskOutcome { action: TaskAction::Wait, result: OokTaskRunnableResult::CancelAndDoAnother }
                } else if in_range_to(&v.creep_pos, &to.pos, 1) {
                    let amount = if to.requested < v.used { to.requested } else { v.used };
                    let total: u32 = if provided as u64 + amount as u64 > u32::MAX as u64 {
                        u32::MAX
                    } else {
                        provided + amount
                    };
                    self.state = Some(FetchStep::Delivering { to, provided: total });
                    TaskOutcome {
                        action: TaskAction::Transfer { target: to.id, amount },
                        result: OokTaskRunnableResult::Continue,
                    }
                } else {
                    self.state = pre;
                    TaskOutcome { action: TaskAction::MoveTo(to.pos), result: OokTaskRunnableResult::Continue }
                }
            },
            Some(FetchStep::Fetching { from, .. }) => {
                if !v.to_present {
                    self.state = None;
                    TaskOutcome { action: TaskAction::Wait, result: OokTaskRunnableResult::CancelAndDoAnother }
                } else if !v.from_present {
                    self.state = v.plan;
                    if v.plan.is_some() {
                        TaskOutcome { action: TaskAction::Wait, result: OokTaskRunnableResult::Continue }
                    } else {
                        TaskOutcome { action: TaskAction::Wait, result: OokTaskRunnableResult::CancelAndDoAnother }
                    }
                } else if in_range_to(&v.creep_pos, &from.pos, 1) {
                    let action = match from.kind {
                        FetchKind::DroppedSource => TaskAction::Pickup(from.id),
                        _ => TaskAction::Withdraw {
                            target: from.id,
                            amount: if v.free < from.provides { v.free } else { from.provides },
                        },
                    };
                    self.state = pre;
                    TaskOutcome { action, result: OokTaskRunnableResult::Continue }
                } else {
                    self.state = pre;
                    TaskOutcome { action: TaskAction::MoveTo(from.pos), result: OokTaskRunnableResult::Continue }
                }
            },
        }
    }
}

} // verus!
