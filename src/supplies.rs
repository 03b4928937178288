use vstd::prelude::*;

use crate::provider::{ProviderKind, ResourceProvider};
use crate::tasks::{EnergyView, OokTaskRunnableResult, TaskAction, TaskOutcome, take_action};
use crate::world::{ObjId, Position, RoomName, within_range, in_range_to};

verus! {

/// A tile from which one or more spawn suppliers (spawns, extensions) are filled.
pub struct SuppliersReachPoint {
    pub pos: Position,
    pub suppliers: Vec<ObjId>,
}

/// The distances a route is planned over: from the agent to each point, and between
/// points (`dist[a][b]` from point `a` to point `b`), with the energy each point needs.
pub struct RouteInput {
    pub start_dist: Vec<u32>,
    pub dist: Vec<Vec<u32>>,
    pub needed: Vec<u32>,
}

impl RouteInput {
    pub open spec fn n(&self) -> nat {
        self.needed@.len()
    }

    pub open spec fn wf(&self) -> bool {
        &&& self.start_dist@.len() == self.n()
        &&& self.dist@.len() == self.n()
        &&& forall|i: int| 0 <= i < self.n() ==> (#[trigger] self.dist@[i])@.len() == self.n()
    }

    /// The distance to point `j` from where the route stands: its last point, or the
    /// agent when it is empty.
    pub open spec fn dist_from(&self, route: Seq<usize>, j: int) -> int {
        if route.len() == 0 {
            self.start_dist@[j] as int
        } else {
            self.dist@[route.last() as int]@[j] as int
        }
    }

    /// The closest point among the first `m` that the route has not visited; the first
    /// of equally close ones.
    pub open spec fn closest_among(&self, route: Seq<usize>, m: int) -> Option<int>
        decreases m,
    {
        if m <= 0 {
            None
        } else {
            let prev = self.closest_among(route, m - 1);
            if route.contains((m - 1) as usize) {
                prev
            } else {
                match prev {
                    None => Some(m - 1),
                    Some(k) => if self.dist_from(route, m - 1) < self.dist_from(route, k) {
                        Some(m - 1)
                    } else {
                        prev
                    },
                }
            }
        }
    }

    /// The route from `route` on: take the closest unvisited point while it needs energy,
    /// and stop once the energy carried would be used up.
    pub open spec fn greedy(&self, route: Seq<usize>, energy_left: int, fuel: nat) -> Seq<usize>
        decreases fuel,
    {
        if fuel == 0 {
            route
        } else {
            match self.closest_among(route, self.n() as int) {
                None => route,
                Some(p) => if self.needed@[p] == 0 {
                    route
                } else if energy_left - self.needed@[p] <= 0 {
                    route.push(p as usize)
                } else {
                    self.greedy(route.push(p as usize), energy_left - self.needed@[p], (fuel - 1) as nat)
                },
            }
        }
    }
}

proof fn lemma_closest_bounds(input: &RouteInput, route: Seq<usize>, m: int)
    ensures
        input.closest_among(route, m) matches Some(k) ==> 0 <= k < m && !route.contains(
            k as usize,
        ),
    decreases m,
{
    if m > 0 {
        lemma_closest_bounds(input, route, m - 1);
    }
}

fn closest_unvisited(input: &RouteInput, route: &Vec<usize>, visited: &Vec<bool>) -> (r: Option<
    usize,
>)
    requires
        input.wf(),
        visited@.len() == input.n(),
        forall|i: int| 0 <= i < input.n() ==> (visited@[i] <==> route@.contains(i as usize)),
        forall|i: int| 0 <= i < route@.len() ==> (route@[i] as int) < input.n(),
    ensures
        r matches Some(k) ==> input.closest_among(route@, input.n() as int) == Some(k as int),
        r is None ==> input.closest_among(route@, input.n() as int) is None,
{
    let n = input.needed.len();
    let mut best: Option<usize> = None;
    let mut best_d: u32 = 0;
    let mut m: usize = 0;
    while m < n
        invariant
            input.wf(),
            n == input.n(),
            m <= n,
            visited@.len() == n,
            forall|i: int| 0 <= i < n ==> (visited@[i] <==> route@.contains(i as usize)),
            forall|i: int| 0 <= i < route@.len() ==> (route@[i] as int) < n,
            best matches Some(k) ==> input.closest_among(route@, m as int) == Some(k as int) && k
                < m && best_d == input.dist_from(route@, k as int),
            best is None ==> input.closest_among(route@, m as int) is None,
        decreases n - m,
    {
        if !visited[m] {
            let d: u32 = if route.len() == 0 {
                input.start_dist[m]
            } else {
                let last = route[route.len() - 1];
                input.dist[last][m]
            };
            match best {
                None => {
                    best = Some(m);
                    best_d = d;
                },
                Some(_) => {
                    if d < best_d {
                        best = Some(m);
                        best_d = d;
                    }
                },
            }
        }
        m += 1;
    }
    best
}

/// Plans a supplies run: from the agent, repeatedly the closest point not yet on the
/// route, as long as that point needs energy, until the energy carried is used up.
pub fn plan_supplies_route(input: &RouteInput, energy: u32) -> (r: Vec<usize>)
    requires
        input.wf(),
    ensures
        r@ == input.greedy(Seq::empty(), energy as int, input.n()),
{
    let n = input.needed.len();
    let mut route: Vec<usize> = Vec::new();
    let mut visited: Vec<bool> = Vec::new();
    let mut i: usize = 0;
    while i < n
        invariant
            i <= n,
            visited@.len() == i,
            forall|k: int| 0 <= k < i ==> !visited@[k],
        decreases n - i,
    {
        visited.push(false);
        i += 1;
    }
    let mut left: i64 = energy as i64;
    let ghost target = input.greedy(Seq::empty(), energy as int, input.n());
    while route.len() < n
        invariant
            input.wf(),
            n == input.n(),
            visited@.len() == n,
            forall|k: int| 0 <= k < n ==> (visited@[k] <==> route@.contains(k as usize)),
            forall|k: int| 0 <= k < route@.len() ==> (route@[k] as int) < n,
            route@.len() <= n,
            0 <= left <= energy,
            input.greedy(route@, left as int, (n - route@.len()) as nat) == target,
            target == input.greedy(Seq::empty(), energy as int, input.n()),
        decreases n - route@.len(),
    {
        let ghost fuel = (n - route@.len()) as nat;
        match closest_unvisited(input, &route, &visited) {
            None => {
                assert(fuel > 0);
                assert(input.greedy(route@, left as int, fuel) == route@);
                return route;
            },
            Some(p) => {
                proof {
                    lemma_closest_bounds(input, route@, n as int);
                }
                let need = input.needed[p];
                if need == 0 {
                    assert(input.greedy(route@, left as int, fuel) == route@);
                    return route;
                }
                assert(input.greedy(route@, left as int, fuel) == (if left - need <= 0 {
                    route@.push(p)
                } else {
                    input.greedy(route@.push(p), left - need, (fuel - 1) as nat)
                }));
                let ghost old_route = route@;
                route.push(p);
                visited.set(p, true);
                proof {
                    assert forall|k: int| 0 <= k < n implies (visited@[k] <==> route@.contains(
                        k as usize,
                    )) by {
                        if route@.contains(k as usize) {
                            let j = choose|j: int| 0 <= j < route@.len() && route@[j] == k as usize;
                            if j < old_route.len() {
                                assert(old_route[j] == k as usize);
                            }
                        }
                        if k != p && old_route.contains(k as usize) {
                            let j = choose|j: int|
                                0 <= j < old_route.len() && old_route[j] == k as usize;
                            assert(route@[j] == k as usize);
                        }
                        if k == p {
                            assert(route@[route@.len() - 1] == p);
                        }
                    }
                }
                if left - (need as i64) <= 0 {
                    return route;
                }
                left = left - need as i64;
            },
        }
    }
    route
}


pub open spec fn point_view(p: SuppliersReachPoint) -> (Position, Seq<ObjId>) {
    (p.pos, p.suppliers@)
}

pub open spec fn points_view(ps: Seq<SuppliersReachPoint>) -> Seq<(Position, Seq<ObjId>)> {
    ps.map_values(|p: SuppliersReachPoint| point_view(p))
}

fn copy_point(p: &SuppliersReachPoint) -> (r: SuppliersReachPoint)
    ensures
        point_view(r) == point_view(*p),
{
    let mut suppliers: Vec<ObjId> = Vec::new();
    let mut i: usize = 0;
    while i < p.suppliers.len()
        invariant
            i <= p.suppliers.len(),
            suppliers@ == p.suppliers@.take(i as int),
        decreases p.suppliers.len() - i,
    {
        suppliers.push(p.suppliers[i]);
        assert(p.suppliers@.take(i + 1) =~= p.suppliers@.take(i as int).push(p.suppliers@[i as int]));
        i += 1;
    }
    assert(p.suppliers@.take(p.suppliers.len() as int) =~= p.suppliers@);
    SuppliersReachPoint { pos: p.pos, suppliers }
}

/// The points of a route, in its order.
pub open spec fn route_points(points: Seq<SuppliersReachPoint>, route: Seq<usize>) -> Seq<
    (Position, Seq<ObjId>),
> {
    route.map_values(|i: usize| point_view(points[i as int]))
}

#[derive(Clone, Copy, Debug, PartialEq, Eq, Structural)]
pub enum SuppliesStepKind {
    Created,
    GetEnergy,
    FillSuppliers,
}

pub enum SuppliesStep {
    Created,
    GetEnergy { target: ResourceProvider },
    FillSuppliers { open: Vec<SuppliersReachPoint>, done: Vec<SuppliersReachPoint> },
}

pub open spec fn step_kind(s: SuppliesStep) -> SuppliesStepKind {
    match s {
        SuppliesStep::Created => SuppliesStepKind::Created,
        SuppliesStep::GetEnergy { .. } => SuppliesStepKind::GetEnergy,
        SuppliesStep::FillSuppliers { .. } => SuppliesStepKind::FillSuppliers,
    }
}

pub open spec fn open_points(s: SuppliesStep) -> Seq<(Position, Seq<ObjId>)> {
    match s {
        SuppliesStep::FillSuppliers { open, .. } => points_view(open@),
        _ => Seq::empty(),
    }
}

pub open spec fn done_points(s: SuppliesStep) -> Seq<(Position, Seq<ObjId>)> {
    match s {
        SuppliesStep::FillSuppliers { done, .. } => points_view(done@),
        _ => Seq::empty(),
    }
}

/// What is seen of the `k`-th supplier of a point: the room it has left, or `None` when
/// it is gone (or nothing was reported for it).
pub open spec fn supplier_room(free: Seq<Option<u32>>, k: int) -> Option<u32> {
    if 0 <= k < free.len() {
        free[k]
    } else {
        None
    }
}

/// The first of the first `m` suppliers at which filling a point stops: one that is gone,
/// or one with room left.
pub open spec fn first_stop(free: Seq<Option<u32>>, m: int) -> Option<int>
    decreases m,
{
    if m <= 0 {
        None
    } else {
        match first_stop(free, m - 1) {
            Some(k) => Some(k),
            None => match supplier_room(free, m - 1) {
                None => Some(m - 1),
                Some(f) => if f > 0 {
                    Some(m - 1)
                } else {
                    None
                },
            },
        }
    }
}

/// One tick of filling, on the open and done points: at the next point, transfer to the
/// first supplier with room (as much as is carried and fits), unless a supplier before
/// it is gone; a point with no room left, or with a supplier gone, is done and the run
/// goes on to the next point or, at the end of the route, cancels. Away from the next
/// point, walk there. With no point left the run is finished.
pub open spec fn fill_spec(
    open: Seq<(Position, Seq<ObjId>)>,
    done: Seq<(Position, Seq<ObjId>)>,
    creep_pos: Position,
    carried: u32,
    free: Seq<Option<u32>>,
) -> (Seq<(Position, Seq<ObjId>)>, Seq<(Position, Seq<ObjId>)>, TaskOutcome) {
    if open.len() == 0 {
        (open, done, TaskOutcome { action: TaskAction::Wait, result: OokTaskRunnableResult::Finish })
    } else if creep_pos != open[0].0 {
        (open, done, TaskOutcome { action: TaskAction::MoveTo(open[0].0), result: OokTaskRunnableResult::Continue })
    } else {
        let stop = first_stop(free, open[0].1.len() as int);
        if stop is Some && supplier_room(free, stop->Some_0) is Some {
            let k = stop->Some_0;
            let f = supplier_room(free, k)->Some_0;
            (
                open,
                done,
                TaskOutcome {
                    action: TaskAction::Transfer { target: open[0].1[k], amount: if carried < f { carried } else { f } },
                    result: OokTaskRunnableResult::Continue,
                },
            )
        } else {
            (
                open.drop_first(),
                done.push(open[0]),
                if open.len() > 1 {
                    TaskOutcome { action: TaskAction::MoveTo(open[1].0), result: OokTaskRunnableResult::Continue }
                } else {
                    TaskOutcome { action: TaskAction::Wait, result: OokTaskRunnableResult::CancelAndDoAnother }
                },
            )
        }
    }
}

/// A supplies run's step as plain values: its kind, the provider it fetches from, and
/// its open and done points.
pub open spec fn step_model(s: SuppliesStep) -> (
    SuppliesStepKind,
    Option<ResourceProvider>,
    Seq<(Position, Seq<ObjId>)>,
    Seq<(Position, Seq<ObjId>)>,
) {
    match s {
        SuppliesStep::Created => (SuppliesStepKind::Created, None, Seq::empty(), Seq::empty()),
        SuppliesStep::GetEnergy { target } => (SuppliesStepKind::GetEnergy, Some(target), Seq::empty(), Seq::empty()),
        SuppliesStep::FillSuppliers { open, done } => (
            SuppliesStepKind::FillSuppliers,
            None,
            points_view(open@),
            points_view(done@),
        ),
    }
}

pub open spec fn filling(open: Seq<(Position, Seq<ObjId>)>, done: Seq<(Position, Seq<ObjId>)>) -> (
    SuppliesStepKind,
    Option<ResourceProvider>,
    Seq<(Position, Seq<ObjId>)>,
    Seq<(Position, Seq<ObjId>)>,
) {
    (SuppliesStepKind::FillSuppliers, None, open, done)
}

/// The route planned for the energy carried, as points.
pub open spec fn planned_open(v: SuppliesView, energy: u32) -> Seq<(Position, Seq<ObjId>)> {
    route_points(v.points@, v.route_input.greedy(Seq::empty(), energy as int, v.route_input.n()))
}

/// The energy carried once a take from a store or a pile has landed.
pub open spec fn energy_after_take(e: EnergyView) -> u32 {
    let gained = if e.target_stored < e.free_capacity { e.target_stored } else { e.free_capacity };
    if e.used_capacity + gained > u32::MAX {
        u32::MAX
    } else {
        (e.used_capacity + gained) as u32
    }
}

/// Fetching from provider `t`: a provider that is gone starts the run over; in reach, take
/// from it, and (but from a source, which is harvested until full) start filling along a
/// route planned for the energy then carried; out of reach, walk there.
pub open spec fn get_energy_spec(t: ResourceProvider, e: EnergyView, v: SuppliesView) -> (
    (SuppliesStepKind, Option<ResourceProvider>, Seq<(Position, Seq<ObjId>)>, Seq<(Position, Seq<ObjId>)>),
    TaskOutcome,
    bool,
) {
    if !e.target_present {
        (
            (SuppliesStepKind::Created, None, Seq::empty(), Seq::empty()),
            TaskOutcome { action: TaskAction::Wait, result: OokTaskRunnableResult::Continue },
            false,
        )
    } else if within_range(e.creep_pos, t.pos, 1) {
        let out = TaskOutcome {
            action: take_action(t, e.target_stored, e.free_capacity),
            result: OokTaskRunnableResult::Continue,
        };
        if t.kind == ProviderKind::EnergyFarm {
            ((SuppliesStepKind::GetEnergy, Some(t), Seq::empty(), Seq::empty()), out, false)
        } else {
            (filling(planned_open(v, energy_after_take(e)), Seq::empty()), out, true)
        }
    } else {
        (
            (SuppliesStepKind::GetEnergy, Some(t), Seq::empty(), Seq::empty()),
            TaskOutcome { action: TaskAction::MoveTo(t.pos), result: OokTaskRunnableResult::Continue },
            false,
        )
    }
}

/// One tick of a supplies run, from its step model: the new model, the outcome, and
/// whether it started filling in this tick.
pub open spec fn run_spec(
    m: (SuppliesStepKind, Option<ResourceProvider>, Seq<(Position, Seq<ObjId>)>, Seq<(Position, Seq<ObjId>)>),
    e: EnergyView,
    v: SuppliesView,
) -> (
    (SuppliesStepKind, Option<ResourceProvider>, Seq<(Position, Seq<ObjId>)>, Seq<(Position, Seq<ObjId>)>),
    TaskOutcome,
    bool,
) {
    match m.0 {
        SuppliesStepKind::Created => match e.best_provider {
            Some(p) => get_energy_spec(p, e, v),
            None => (m, TaskOutcome { action: TaskAction::Wait, result: OokTaskRunnableResult::Continue }, false),
        },
        SuppliesStepKind::GetEnergy => if e.free_capacity == 0 {
            let f = fill_spec(planned_open(v, e.used_capacity), Seq::empty(), e.creep_pos, e.used_capacity, v.free_at_next@);
            (filling(f.0, f.1), f.2, true)
        } else {
            get_energy_spec(m.1->Some_0, e, v)
        },
        SuppliesStepKind::FillSuppliers => if e.used_capacity == 0 || m.2.len() == 0 {
            (m, TaskOutcome { action: TaskAction::Wait, result: OokTaskRunnableResult::CancelAndDoAnother }, false)
        } else {
            let f = fill_spec(m.2, m.3, e.creep_pos, e.used_capacity, v.free_at_next@);
            (filling(f.0, f.1), f.2, false)
        },
    }
}

/// A run that fetches energy and fills the spawn suppliers of a room along a planned
/// route. While it fills, the base lists its agent among the supplier fillers.
pub struct SpawnSuppliesRun {
    pub target_room_name: RoomName,
    pub step: SuppliesStep,
}

/// What a supplies run is told besides its energy view: the open supplier points of the
/// room with the distances to plan over, and the room left in each supplier of the next
/// point on its route.
pub struct SuppliesView {
    pub points: Vec<SuppliersReachPoint>,
    pub route_input: RouteInput,
    /// For each supplier of the next point, the room it has left, or `None` when it is gone.
    pub free_at_next: Vec<Option<u32>>,
}

impl SuppliesView {
    pub open spec fn wf(&self) -> bool {
        &&& self.route_input.wf()
        &&& self.points@.len() == self.route_input.n()
    }
}

impl SpawnSuppliesRun {
    /// Starts a run: it fetches from the best provider when there is one.
    pub fn new(target_room_name: RoomName, best: Option<ResourceProvider>) -> (r: SpawnSuppliesRun)
        ensures
            r.target_room_name == target_room_name,
            best is None ==> r.step is Created,
            best matches Some(p) ==> r.step == (SuppliesStep::GetEnergy { target: p }),
    {
        let step = match best {
            Some(p) => SuppliesStep::GetEnergy { target: p },
            None => SuppliesStep::Created,
        };
        SpawnSuppliesRun { target_room_name, step }
    }

    /// The points this run has taken on, open and done.
    pub fn handling_supplier_points(&self) -> (r: Vec<Position>)
        ensures
            r@ == (open_points(self.step) + done_points(self.step)).map_values(
                |p: (Position, Seq<ObjId>)| p.0,
            ),
    {
        let mut out: Vec<Position> = Vec::new();
        match &self.step {
            SuppliesStep::FillSuppliers { open, done } => {
                let mut i: usize = 0;
                while i < open.len()
                    invariant
                        i <= open.len(),
                        out@ == points_view(open@.take(i as int)).map_values(
                            |p: (Position, Seq<ObjId>)| p.0,
                        ),
                    decreases open.len() - i,
                {
                    out.push(open[i].pos);
                    assert(points_view(open@.take(i + 1)).map_values(
                        |p: (Position, Seq<ObjId>)| p.0,
                    ) =~= points_view(open@.take(i as int)).map_values(
                        |p: (Position, Seq<ObjId>)| p.0,
                    ).push(open@[i as int].pos));
                    i += 1;
                }
                let ghost first = out@;
                let mut j: usize = 0;
                while j < done.len()
                    invariant
                        j <= done.len(),
                        first == points_view(open@).map_values(|p: (Position, Seq<ObjId>)| p.0),
                        out@ == first + points_view(done@.take(j as int)).map_values(
                            |p: (Position, Seq<ObjId>)| p.0,
                        ),
                    decreases done.len() - j,
                {
                    out.push(done[j].pos);
                    assert(points_view(done@.take(j + 1)).map_values(
                        |p: (Position, Seq<ObjId>)| p.0,
                    ) =~= points_view(done@.take(j as int)).map_values(
                        |p: (Position, Seq<ObjId>)| p.0,
                    ).push(done@[j as int].pos));
                    j += 1;
                }
                assert(open@.take(open.len() as int) =~= open@);
                assert(done@.take(done.len() as int) =~= done@);
                assert((points_view(open@) + points_view(done@)).map_values(
                    |p: (Position, Seq<ObjId>)| p.0,
                ) =~= points_view(open@).map_values(|p: (Position, Seq<ObjId>)| p.0)
                    + points_view(done@).map_values(|p: (Position, Seq<ObjId>)| p.0));
            },
            _ => {
                assert((open_points(self.step) + done_points(self.step)).map_values(
                    |p: (Position, Seq<ObjId>)| p.0,
                ) =~= Seq::<Position>::empty());
            },
        }
        out
    }

    /// Plans the route for the energy carried and starts filling along it.
    pub fn start_filling(&mut self, view: &SuppliesView, energy: u32)
        requires
            view.wf(),
        ensures
            final(self).step is FillSuppliers,
            open_points(final(self).step) == route_points(
                view.points@,
                view.route_input.greedy(Seq::empty(), energy as int, view.route_input.n()),
            ),
            done_points(final(self).step).len() == 0,
            final(self).target_room_name == old(self).target_room_name,
    {
        let route = plan_supplies_route(&view.route_input, energy);
        let mut open: Vec<SuppliersReachPoint> = Vec::new();
        let mut i: usize = 0;
        let _n = view.route_input.needed.len();
        proof {
            lemma_greedy_in_bounds(&view.route_input, Seq::empty(), energy as int, view.route_input.n());
        }
        while i < route.len()
            invariant
                view.wf(),
                i <= route.len(),
                forall|k: int| 0 <= k < route@.len() ==> (route@[k] as int) < view.points@.len(),
                points_view(open@) == route_points(view.points@, route@.take(i as int)),
            decreases route.len() - i,
        {
            let p = copy_point(&view.points[route[i]]);
            let ghost before = open@;
            open.push(p);
            assert(route@.take(i + 1) =~= route@.take(i as int).push(route@[i as int]));
            assert(points_view(open@) =~= points_view(before).push(point_view(p)));
            assert(points_view(open@) =~= route_points(view.points@, route@.take(i + 1)));
            i += 1;
        }
        assert(route@.take(route.len() as int) =~= route@);
        self.step = SuppliesStep::FillSuppliers { open, done: Vec::new() };
        assert(points_view(Seq::<SuppliersReachPoint>::empty()) =~= Seq::empty());
    }

    /// One tick of filling (see `fill_spec`).
    pub fn fill_step(&mut self, creep_pos: Position, carried: u32, free_at_next: &Vec<Option<u32>>) -> (r:
        TaskOutcome)
        requires
            old(self).step is FillSuppliers,
        ensures
            final(self).target_room_name == old(self).target_room_name,
            ({
                let f = fill_spec(
                    open_points(old(self).step),
                    done_points(old(self).step),
                    creep_pos,
                    carried,
                    free_at_next@,
                );
                step_model(final(self).step) == filling(f.0, f.1) && r == f.2
            }),
    {
        let mut tmp = SuppliesStep::Created;
        core::mem::swap(&mut self.step, &mut tmp);
        match tmp {
            SuppliesStep::FillSuppliers { mut open, mut done } => {
                if open.len() == 0 {
                    self.step = SuppliesStep::FillSuppliers { open, done };
                    return TaskOutcome { action: TaskAction::Wait, result: OokTaskRunnableResult::Finish };
                }
                let next_pos = open[0].pos;
                if creep_pos != next_pos {
                    self.step = SuppliesStep::FillSuppliers { open, done };
                    return TaskOutcome { action: TaskAction::MoveTo(next_pos), result: OokTaskRunnableResult::Continue };
                }
                let stop = find_stop(open[0].suppliers.len(), free_at_next);
                let room_at_stop: Option<u32> = match stop {
                    Some(k) => if k < free_at_next.len() { free_at_next[k] } else { None },
                    None => None,
                };
                match (stop, room_at_stop) {
                    (Some(k), Some(room_left)) => {
                        let target = open[0].suppliers[k];
                        let amount = if carried < room_left { carried } else { room_left };
                        self.step = SuppliesStep::FillSuppliers { open, done };
                        TaskOutcome { action: TaskAction::Transfer { target, amount }, result: OokTaskRunnableResult::Continue }
                    },
                    _ => {
                        let ghost before = open@;
                        let ghost before_done = done@;
                        let point = open.remove(0);
                        done.push(point);
                        assert(points_view(open@) =~= points_view(before).drop_first());
                        assert(points_view(done@) =~= points_view(before_done).push(point_view(before[0])));
                        let out = if open.len() > 0 {
                            TaskOutcome { action: TaskAction::MoveTo(open[0].pos), result: OokTaskRunnableResult::Continue }
                        } else {
                            TaskOutcome { action: TaskAction::Wait, result: OokTaskRunnableResult::CancelAndDoAnother }
                        };
                        self.step = SuppliesStep::FillSuppliers { open, done };
                        out
                    },
                }
            },
            _ => {
                self.step = tmp;
                TaskOutcome { action: TaskAction::Wait, result: OokTaskRunnableResult::Finish }
            },
        }
    }

    /// Advances the run by one tick (see `run_spec`). Returns what the agent does and
    /// whether it started filling in this tick (its base then lists it among the supplier
    /// fillers). Empty hands, or no point left, cancel a run that fills; a fetch from a
    /// vanished provider starts over.
    pub fn run(&mut self, e: &EnergyView, view: &SuppliesView) -> (r: (TaskOutcome, bool))
        requires
            view.wf(),
        ensures
            final(self).target_room_name == old(self).target_room_name,
            (step_model(final(self).step), r.0, r.1) == run_spec(step_model(old(self).step), *e, *view),
    {
        let target = match &self.step {
            SuppliesStep::Created => {
                match e.best_provider {
                    Some(p) => p,
                    None => {
                        return (TaskOutcome { action: TaskAction::Wait, result: OokTaskRunnableResult::Continue }, false);
                    },
                }
            },
            SuppliesStep::GetEnergy { target } => {
                let t = *target;
                if e.free_capacity == 0 {
                    self.start_filling(view, e.used_capacity);
                    let out = self.fill_step(e.creep_pos, e.used_capacity, &view.free_at_next);
                    return (out, true);
                }
                t
            },
            SuppliesStep::FillSuppliers { open, .. } => {
                if e.used_capacity == 0 || open.len() == 0 {
                    return (TaskOutcome { action: TaskAction::Wait, result: OokTaskRunnableResult::CancelAndDoAnother }, false);
                }
                let out = self.fill_step(e.creep_pos, e.used_capacity, &view.free_at_next);
                return (out, false);
            },
        };
        if !e.target_present {
            self.step = SuppliesStep::Created;
            (TaskOutcome { action: TaskAction::Wait, result: OokTaskRunnableResult::Continue }, false)
        } else if in_range_to(&e.creep_pos, &target.pos, 1) {
            let action = take_from_provider(&target, e.target_stored, e.free_capacity);
            match target.kind {
                ProviderKind::EnergyFarm => {
                    self.step = SuppliesStep::GetEnergy { target };
                    (TaskOutcome { action, result: OokTaskRunnableResult::Continue }, false)
                },
                _ => {
                    let gained = if e.target_stored < e.free_capacity { e.target_stored } else { e.free_capacity };
                    let energy = if e.used_capacity as u64 + gained as u64 > u32::MAX as u64 {
                        u32::MAX
                    } else {
                        e.used_capacity + gained
                    };
                    self.start_filling(view, energy);
                    (TaskOutcome { action, result: OokTaskRunnableResult::Continue }, true)
                },
            }
        } else {
            self.step = SuppliesStep::GetEnergy { target };
            (TaskOutcome { action: TaskAction::MoveTo(target.pos), result: OokTaskRunnableResult::Continue }, false)
        }
    }
}

fn take_from_provider(p: &ResourceProvider, stored: u32, free: u32) -> (r: TaskAction)
    ensures
        r == take_action(*p, stored, free),
{
    match p.kind {
        ProviderKind::EnergyFarm => TaskAction::Harvest(p.obj_id),
        _ => {
            if p.litter {
                TaskAction::Pickup(p.obj_id)
            } else {
                TaskAction::Withdraw { target: p.obj_id, amount: if stored < free { stored } else { free } }
            }
        },
    }
}

fn find_stop(len: usize, free: &Vec<Option<u32>>) -> (r: Option<usize>)
    ensures
        r matches Some(k) ==> first_stop(free@, len as int) == Some(k as int) && k < len,
        r is None ==> first_stop(free@, len as int) is None,
{
    let mut i: usize = 0;
    while i < len
        invariant
            i <= len,
            first_stop(free@, i as int) is None,
        decreases len - i,
    {
        let room: Option<u32> = if i < free.len() { free[i] } else { None };
        let stops = match room {
            None => true,
            Some(f) => f > 0,
        };
        if stops {
            proof {
                assert(first_stop(free@, i + 1) == Some(i as int));
                lemma_first_stop_stable(free@, i + 1, len as int);
            }
            return Some(i);
        }
        i += 1;
    }
    None
}

/// Once filling stops at a supplier, looking at more suppliers does not change where.
proof fn lemma_first_stop_stable(free: Seq<Option<u32>>, a: int, b: int)
    requires
        0 <= a <= b,
        first_stop(free, a) is Some,
    ensures
        first_stop(free, b) == first_stop(free, a),
    decreases b - a,
{
    if b > a {
        lemma_first_stop_stable(free, a, b - 1);
    }
}

proof fn lemma_greedy_in_bounds(input: &RouteInput, route: Seq<usize>, left: int, fuel: nat)
    requires
        input.n() <= usize::MAX,
        forall|k: int| 0 <= k < route.len() ==> (route[k] as int) < input.n(),
    ensures
        forall|k: int| 0 <= k < input.greedy(route, left, fuel).len() ==> (input.greedy(route, left, fuel)[k] as int) < input.n(),
    decreases fuel,
{
    if fuel > 0 {
        lemma_closest_bounds(input, route, input.n() as int);
        match input.closest_among(route, input.n() as int) {
            Some(p) => {
                let r2 = route.push(p as usize);
                assert forall|k: int| 0 <= k < r2.len() implies (r2[k] as int) < input.n() by {
                    if k < route.len() {
                        assert(r2[k] == route[k]);
                    }
                }
                lemma_greedy_in_bounds(input, r2, left - input.needed@[p], (fuel - 1) as nat);
                if input.needed@[p] == 0 {
                    assert(input.greedy(route, left, fuel) == route);
                } else if left - input.needed@[p] <= 0 {
                    assert(input.greedy(route, left, fuel) == r2);
                } else {
                    assert(input.greedy(route, left, fuel) == input.greedy(r2, left - input.needed@[p], (fuel - 1) as nat));
                }
            },
            None => {
                assert(input.greedy(route, left, fuel) == route);
            },
        }
    } else {
        assert(input.greedy(route, left, fuel) == route);
    }
}


/// A spawn supplier (a spawn or an extension) and where it stands.
#[derive(Clone, Copy, Debug, PartialEq, Eq, Structural)]
pub struct SupplierSpot {
    pub id: ObjId,
    pub pos: Position,
}

/// How many suppliers can be filled from a tile.
pub open spec fn reach_count(sup: Seq<SupplierSpot>, t: Position) -> nat
    decreases sup.len(),
{
    if sup.len() == 0 {
        0
    } else {
        reach_count(sup.drop_last(), t) + if within_range(t, sup.last().pos, 1) {
            1nat
        } else {
            0nat
        }
    }
}

/// The unchosen tile, among the first `m`, from which the most suppliers can be filled;
/// the first of equal ones.
pub open spec fn best_tile(tiles: Seq<Position>, sup: Seq<SupplierSpot>, chosen: Seq<usize>, m: int) -> Option<int>
    decreases m,
{
    if m <= 0 {
        None
    } else {
        let prev = best_tile(tiles, sup, chosen, m - 1);
        if chosen.contains((m - 1) as usize) {
            prev
        } else {
            match prev {
                None => Some(m - 1),
                Some(k) => if reach_count(sup, tiles[m - 1]) > reach_count(sup, tiles[k]) {
                    Some(m - 1)
                } else {
                    prev
                },
            }
        }
    }
}

/// The suppliers not yet reached that a tile reaches, in order.
pub open spec fn newly_reached(sup: Seq<SupplierSpot>, reached: Seq<bool>, t: Position) -> Seq<usize>
    decreases sup.len(),
{
    if sup.len() == 0 {
        Seq::empty()
    } else {
        let prev = newly_reached(sup.drop_last(), reached, t);
        if !reached[sup.len() - 1] && within_range(t, sup.last().pos, 1) {
            prev.push((sup.len() - 1) as usize)
        } else {
            prev
        }
    }
}

pub open spec fn holds_index(new: Seq<usize>, i: int) -> bool {
    exists|w: int| 0 <= w < new.len() && new[w] as int == i
}

pub open spec fn mark_reached(reached: Seq<bool>, new: Seq<usize>) -> Seq<bool> {
    Seq::new(reached.len(), |i: int| reached[i] || holds_index(new, i))
}

pub open spec fn none_reached(n: nat) -> Seq<bool> {
    Seq::new(n, |_i: int| false)
}

pub open spec fn partly_marked(reached: Seq<bool>, new: Seq<usize>, k: int) -> Seq<bool> {
    Seq::new(reached.len(), |i: int| reached[i] || holds_index(new.take(k), i))
}

pub open spec fn all_reached(reached: Seq<bool>) -> bool {
    forall|i: int| 0 <= i < reached.len() ==> reached[i]
}

/// Fill points: take tiles in order of how many suppliers each reaches (most first, ties
/// in the given order) and give each tile the suppliers it reaches that no earlier tile
/// took, until every supplier is reached. Tiles that take none are left out.
pub open spec fn fill_plan(
    tiles: Seq<Position>,
    sup: Seq<SupplierSpot>,
    chosen: Seq<usize>,
    reached: Seq<bool>,
    fuel: nat,
) -> Seq<(usize, Seq<usize>)>
    decreases fuel,
{
    if fuel == 0 || all_reached(reached) {
        Seq::empty()
    } else {
        match best_tile(tiles, sup, chosen, tiles.len() as int) {
            None => Seq::empty(),
            Some(t) => {
                let new = newly_reached(sup, reached, tiles[t]);
                let rest = fill_plan(
                    tiles,
                    sup,
                    chosen.push(t as usize),
                    mark_reached(reached, new),
                    (fuel - 1) as nat,
                );
                if new.len() > 0 {
                    seq![(t as usize, new)] + rest
                } else {
                    rest
                }
            },
        }
    }
}

fn count_reach(sup: &Vec<SupplierSpot>, t: &Position) -> (r: u64)
    ensures
        r == reach_count(sup@, *t),
{
    let mut n: u64 = 0;
    let mut i: usize = 0;
    while i < sup.len()
        invariant
            i <= sup.len(),
            n == reach_count(sup@.take(i as int), *t),
            n <= i,
        decreases sup.len() - i,
    {
        assert(sup@.take(i + 1).drop_last() =~= sup@.take(i as int));
        if in_range_to(t, &sup[i].pos, 1) {
            n = n + 1;
        }
        i += 1;
    }
    assert(sup@.take(sup.len() as int) =~= sup@);
    n
}

proof fn lemma_best_tile_bounds(tiles: Seq<Position>, sup: Seq<SupplierSpot>, chosen: Seq<usize>, m: int)
    ensures
        best_tile(tiles, sup, chosen, m) matches Some(k) ==> 0 <= k < m && !chosen.contains(k as usize),
    decreases m,
{
    if m > 0 {
        lemma_best_tile_bounds(tiles, sup, chosen, m - 1);
    }
}

fn find_best_tile(tiles: &Vec<Position>, counts: &Vec<u64>, sup: &Vec<SupplierSpot>, chosen: &Vec<bool>, chosen_seq: Ghost<Seq<usize>>) -> (r: Option<usize>)
    requires
        counts@.len() == tiles@.len(),
        chosen@.len() == tiles@.len(),
        forall|i: int| 0 <= i < tiles@.len() ==> counts@[i] == reach_count(sup@, tiles@[i]),
        forall|i: int| 0 <= i < tiles@.len() ==> (chosen@[i] <==> chosen_seq@.contains(i as usize)),
    ensures
        r matches Some(k) ==> best_tile(tiles@, sup@, chosen_seq@, tiles@.len() as int) == Some(k as int),
        r is None ==> best_tile(tiles@, sup@, chosen_seq@, tiles@.len() as int) is None,
{
    let mut best: Option<usize> = None;
    let mut best_c: u64 = 0;
    let mut m: usize = 0;
    while m < tiles.len()
        invariant
            m <= tiles@.len(),
            counts@.len() == tiles@.len(),
            chosen@.len() == tiles@.len(),
            forall|i: int| 0 <= i < tiles@.len() ==> counts@[i] == reach_count(sup@, tiles@[i]),
            forall|i: int| 0 <= i < tiles@.len() ==> (chosen@[i] <==> chosen_seq@.contains(i as usize)),
            best matches Some(k) ==> best_tile(tiles@, sup@, chosen_seq@, m as int) == Some(k as int) && k < m
                && best_c == reach_count(sup@, tiles@[k as int]),
            best is None ==> best_tile(tiles@, sup@, chosen_seq@, m as int) is None,
        decreases tiles@.len() - m,
    {
        if !chosen[m] {
            match best {
                None => {
                    best = Some(m);
                    best_c = counts[m];
                },
                Some(_) => {
                    if counts[m] > best_c {
                        best = Some(m);
                        best_c = counts[m];
                    }
                },
            }
        }
        m += 1;
    }
    best
}

fn collect_newly_reached(sup: &Vec<SupplierSpot>, reached: &Vec<bool>, t: &Position) -> (r: Vec<usize>)
    requires
        reached@.len() == sup@.len(),
    ensures
        r@ == newly_reached(sup@, reached@, *t),
        forall|k: int| 0 <= k < r@.len() ==> (r@[k] as int) < sup@.len(),
{
    let mut out: Vec<usize> = Vec::new();
    let mut i: usize = 0;
    while i < sup.len()
        invariant
            i <= sup.len(),
            reached@.len() == sup@.len(),
            out@ == newly_reached(sup@.take(i as int), reached@, *t),
            forall|k: int| 0 <= k < out@.len() ==> (out@[k] as int) < i,
        decreases sup.len() - i,
    {
        assert(sup@.take(i + 1).drop_last() =~= sup@.take(i as int));
        if !reached[i] && in_range_to(t, &sup[i].pos, 1) {
            out.push(i);
        }
        i += 1;
    }
    assert(sup@.take(sup.len() as int) =~= sup@);
    out
}

fn is_all_reached(reached: &Vec<bool>) -> (r: bool)
    ensures
        r == all_reached(reached@),
{
    let mut i: usize = 0;
    while i < reached.len()
        invariant
            i <= reached.len(),
            forall|k: int| 0 <= k < i ==> reached@[k],
        decreases reached.len() - i,
    {
        if !reached[i] {
            return false;
        }
        i += 1;
    }
    true
}

/// Groups the spawn suppliers of a room into fill points (see `fill_plan`): for each
/// point the index of its tile and the indices of the suppliers filled from it.
pub fn plan_fill_points(tiles: &Vec<Position>, suppliers: &Vec<SupplierSpot>) -> (r: Vec<(usize, Vec<usize>)>)
    ensures
        r@.len() == fill_plan(tiles@, suppliers@, Seq::empty(), none_reached(suppliers@.len()), tiles@.len()).len(),
        forall|k: int| 0 <= k < r@.len() ==> (#[trigger] r@[k]).0 == fill_plan(tiles@, suppliers@, Seq::empty(), none_reached(suppliers@.len()), tiles@.len())[k].0
            && r@[k].1@ == fill_plan(tiles@, suppliers@, Seq::empty(), none_reached(suppliers@.len()), tiles@.len())[k].1,
{
    let n = tiles.len();
    let mut counts: Vec<u64> = Vec::new();
    let mut chosen: Vec<bool> = Vec::new();
    let mut i: usize = 0;
    while i < n
        invariant
            i <= n,
            n == tiles@.len(),
            counts@.len() == i,
            chosen@.len() == i,
            forall|k: int| 0 <= k < i ==> counts@[k] == reach_count(suppliers@, tiles@[k]),
            forall|k: int| 0 <= k < i ==> !chosen@[k],
        decreases n - i,
    {
        counts.push(count_reach(suppliers, &tiles[i]));
        chosen.push(false);
        i += 1;
    }
    let mut reached: Vec<bool> = Vec::new();
    let mut j: usize = 0;
    while j < suppliers.len()
        invariant
            j <= suppliers.len(),
            reached@.len() == j,
            forall|k: int| 0 <= k < j ==> !reached@[k],
        decreases suppliers.len() - j,
    {
        reached.push(false);
        j += 1;
    }
    assert(reached@ =~= none_reached(suppliers@.len()));
    let ghost target = fill_plan(tiles@, suppliers@, Seq::empty(), reached@, n as nat);
    let ghost mut chosen_seq: Seq<usize> = Seq::empty();
    let mut out: Vec<(usize, Vec<usize>)> = Vec::new();
    let ghost mut out_view: Seq<(usize, Seq<usize>)> = Seq::empty();
    let mut rounds: usize = 0;
    loop
        invariant
            rounds == chosen_seq.len(),
            n == tiles@.len(),
            counts@.len() == n,
            chosen@.len() == n,
            reached@.len() == suppliers@.len(),
            forall|k: int| 0 <= k < n ==> counts@[k] == reach_count(suppliers@, tiles@[k]),
            forall|k: int| 0 <= k < n ==> (chosen@[k] <==> chosen_seq.contains(k as usize)),
            forall|k: int| 0 <= k < chosen_seq.len() ==> (chosen_seq[k] as int) < n,
            chosen_seq.len() <= n,
            target == fill_plan(tiles@, suppliers@, Seq::empty(), none_reached(suppliers@.len()), tiles@.len()),
            target == out_view + fill_plan(tiles@, suppliers@, chosen_seq, reached@, (n - chosen_seq.len()) as nat),
            out@.len() == out_view.len(),
            forall|k: int| 0 <= k < out@.len() ==> (#[trigger] out@[k]).0 == out_view[k].0 && out@[k].1@ == out_view[k].1,
        ensures
            target == out_view,
            target == fill_plan(tiles@, suppliers@, Seq::empty(), none_reached(suppliers@.len()), tiles@.len()),
            out@.len() == out_view.len(),
            forall|k: int| 0 <= k < out@.len() ==> (#[trigger] out@[k]).0 == out_view[k].0 && out@[k].1@ == out_view[k].1,
        decreases n - chosen_seq.len(),
    {
        if rounds >= n || is_all_reached(&reached) {
            assert(fill_plan(tiles@, suppliers@, chosen_seq, reached@, (n - chosen_seq.len()) as nat) =~= Seq::empty());
            assert(target =~= out_view);
            break;
        }
        let ghost fuel = (n - chosen_seq.len()) as nat;
        match find_best_tile(tiles, &counts, suppliers, &chosen, Ghost(chosen_seq)) {
            None => {
                assert(fill_plan(tiles@, suppliers@, chosen_seq, reached@, fuel) =~= Seq::empty());
                assert(target =~= out_view);
                break;
            },
            Some(t) => {
                proof {
                    lemma_best_tile_bounds(tiles@, suppliers@, chosen_seq, n as int);
                }
                let new = collect_newly_reached(suppliers, &reached, &tiles[t]);
                let ghost old_reached = reached@;
                let ghost rest = fill_plan(tiles@, suppliers@, chosen_seq.push(t), mark_reached(old_reached, new@), (fuel - 1) as nat);
                assert(fill_plan(tiles@, suppliers@, chosen_seq, reached@, fuel) == if new@.len() > 0 {
                    seq![(t, new@)] + rest
                } else {
                    rest
                });
                let mut k: usize = 0;
                assert(reached@ =~= partly_marked(old_reached, new@, 0));
                while k < new.len()
                    invariant
                        reached@.len() == old_reached.len(),
                        old_reached.len() == suppliers@.len(),
                        k <= new@.len(),
                        forall|q: int| 0 <= q < new@.len() ==> (new@[q] as int) < suppliers@.len(),
                        reached@ == partly_marked(old_reached, new@, k as int),
                    decreases new@.len() - k,
                {
                    let idx = new[k];
                    let ghost prev = reached@;
                    reached.set(idx, true);
                    proof {
                        let tk = new@.take(k as int);
                        let tk1 = new@.take(k + 1);
                        assert(tk1 =~= tk.push(idx));
                        assert forall|q: int| 0 <= q < reached@.len() implies reached@[q] == (old_reached[q] || holds_index(tk1, q)) by {
                            assert(prev[q] == (old_reached[q] || holds_index(tk, q)));
                            if holds_index(tk, q) {
                                let w = choose|w: int| 0 <= w < tk.len() && tk[w] as int == q;
                                assert(tk1[w] as int == q);
                            }
                            if holds_index(tk1, q) && q != idx as int {
                                let w = choose|w: int| 0 <= w < tk1.len() && tk1[w] as int == q;
                                if w < k {
                                    assert(tk[w] as int == q);
                                }
                            }
                            if q == idx as int {
                                assert(tk1[k as int] == idx);
                            }
                        }
                        assert(reached@ =~= partly_marked(old_reached, new@, k + 1));
                    }
                    k += 1;
                }
                assert(new@.take(new@.len() as int) =~= new@);
                assert(reached@ =~= mark_reached(old_reached, new@));
                chosen.set(t, true);
                proof {
                    let old_chosen = chosen_seq;
                    chosen_seq = chosen_seq.push(t);
                    assert forall|q: int| 0 <= q < n implies (chosen@[q] <==> chosen_seq.contains(q as usize)) by {
                        if q == t {
                            assert(chosen_seq[chosen_seq.len() - 1] == t);
                        } else {
                            if old_chosen.contains(q as usize) {
                                let w = choose|w: int| 0 <= w < old_chosen.len() && old_chosen[w] == q as usize;
                                assert(chosen_seq[w] == q as usize);
                            }
                            if chosen_seq.contains(q as usize) {
                                let w = choose|w: int| 0 <= w < chosen_seq.len() && chosen_seq[w] == q as usize;
                                if w < old_chosen.len() {
                                    assert(old_chosen[w] == q as usize);
                                }
                            }
                        }
                    }
                    assert forall|q: int| 0 <= q < chosen_seq.len() implies (chosen_seq[q] as int) < n by {
                        if q < old_chosen.len() {
                            assert(old_chosen[q] == chosen_seq[q]);
                        }
                    }
                }
                if new.len() > 0 {
                    proof {
                        let old_out = out_view;
                        out_view = out_view.push((t, new@));
                        assert(old_out + (seq![(t, new@)] + rest) =~= out_view + rest);
                    }
                    out.push((t, new));
                } else {
                    assert(new@.len() == 0);
                }
                rounds = rounds + 1;
            },
        }
    }
    out
}


pub open spec fn sum_free(free: Seq<u32>) -> int
    decreases free.len(),
{
    if free.len() == 0 {
        0
    } else {
        sum_free(free.drop_last()) + free.last()
    }
}

/// The energy a point needs: the room left in its suppliers together.
pub fn total_free(free: &Vec<u32>) -> (r: u64)
    requires
        free@.len() <= u32::MAX,
    ensures
        r == sum_free(free@),
{
    let mut total: u64 = 0;
    let mut i: usize = 0;
    while i < free.len()
        invariant
            i <= free.len(),
            free@.len() <= u32::MAX,
            total == sum_free(free@.take(i as int)),
            total <= i * (u32::MAX as int),
        decreases free.len() - i,
    {
        assert(free@.take(i + 1).drop_last() =~= free@.take(i as int));
        proof {
            assert((i + 1) * (u32::MAX as int) == i * (u32::MAX as int) + u32::MAX) by (nonlinear_arith);
            assert((i + 1) * (u32::MAX as int) <= u32::MAX as int * u32::MAX as int) by (nonlinear_arith)
                requires i + 1 <= u32::MAX;
        }
        total = total + free[i] as u64;
        i += 1;
    }
    assert(free@.take(free.len() as int) =~= free@);
    total
}

/// The points still to fill: those that need energy and that no other run has taken on,
/// in their order.
pub open spec fn open_points_spec(pos: Seq<Position>, needed: Seq<u64>, handled: Seq<Position>) -> Seq<usize>
    decreases pos.len(),
{
    if pos.len() == 0 {
        Seq::empty()
    } else {
        let prev = open_points_spec(pos.drop_last(), needed, handled);
        let i = pos.len() - 1;
        if needed[i] > 0 && !handled.contains(pos[i]) {
            prev.push(i as usize)
        } else {
            prev
        }
    }
}

fn contains_pos(v: &Vec<Position>, p: &Position) -> (r: bool)
    ensures
        r == v@.contains(*p),
{
    let mut i: usize = 0;
    while i < v.len()
        invariant
            i <= v.len(),
            forall|j: int| 0 <= j < i ==> v@[j] != *p,
        decreases v.len() - i,
    {
        if v[i] == *p {
            assert(v@[i as int] == *p);
            return true;
        }
        i += 1;
    }
    false
}

/// Picks the supplier points still to fill (see `open_points_spec`).
pub fn open_supplier_points(positions: &Vec<Position>, needed: &Vec<u64>, handled: &Vec<Position>) -> (r: Vec<usize>)
    requires
        needed@.len() == positions@.len(),
    ensures
        r@ == open_points_spec(positions@, needed@, handled@),
{
    let mut out: Vec<usize> = Vec::new();
    let mut i: usize = 0;
    while i < positions.len()
        invariant
            i <= positions.len(),
            needed@.len() == positions@.len(),
            out@ == open_points_spec(positions@.take(i as int), needed@, handled@),
        decreases positions.len() - i,
    {
        assert(positions@.take(i + 1).drop_last() =~= positions@.take(i as int));
        if needed[i] > 0 && !contains_pos(handled, &positions[i]) {
            out.push(i);
        }
        i += 1;
    }
    assert(positions@.take(positions.len() as int) =~= positions@);
    out
}

} // verus!
