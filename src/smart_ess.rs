pub mod rate;
pub mod slot;
pub mod window;

use crate::smart_ess::rate::{Rate, RateDischarge};
use crate::smart_ess::slot::{
    insert_window_slots, lemma_strict_by_start, ordered_by_start, strictly_ordered, window_slot,
    Slot,
};
use crate::smart_ess::window::{
    local_offset_at, span, valid_instant, valid_offset, RateWindowAbsolute,
};
use vstd::prelude::*;

verus! {

/// Grid import, in watts, asked for while charging: as much as the charger wants.
pub const MAX_GRID_IMPORT: i64 = 32_000;

/// Why no dispatch could be computed.
#[derive(Debug)]
pub struct ControllerError(pub String);

/// The tariff table and the battery's depth of discharge, loaded once.
#[derive(Debug)]
pub struct Controller {
    /// Rate tariffs
    pub rates: Vec<Rate>,
    /// Depth of discharge, in thousandths: the state of charge may fall to
    /// `1000 - dod` thousandths and no lower
    pub dod: u16,
}

/// One entry of the merged schedule: an occurrence and the rate it belongs to.
#[derive(Debug, Clone)]
pub struct Schedule<'a> {
    pub rate: &'a Rate,
    pub window: RateWindowAbsolute,
}

/// A snapshot of the system, taken each tick.
#[derive(Debug, Clone)]
pub struct ControllerInputState {
    /// Power usage of the system in watts
    pub system_load: i32,
    /// Battery state of charge, in thousandths
    pub soc: u16,
    /// Battery capacity in Wh
    pub capacity: u32,
    /// Battery voltage, in hundredths of a volt (informational)
    pub voltage: u32,
}

/// What the battery and the grid connection should do this tick.
#[derive(Debug, Clone)]
pub struct ControllerOutputState<'a> {
    pub disable_charge: bool,
    pub disable_feed_in: bool,
    /// State of charge, in thousandths: above the depth-of-discharge floor
    /// while discharging, as measured while charging
    pub soc: u32,
    /// Grid load in watts
    pub grid_load: i64,
    /// Battery load in watts
    pub battery_load: i64,
    /// Target battery usage in Wh
    pub using_capacity: u64,
    /// Reserve capacity for upcoming rates in Wh
    pub reserve_capacity: u128,
    pub current_rate: Schedule<'a>,
    pub next_rate: Schedule<'a>,
    pub next_charge: Schedule<'a>,
}

/// State of charge above the floor `1000 - dod`, in thousandths.
pub open spec fn soc_above_floor(soc: int, dod: int) -> int {
    if soc + dod - 1000 > 0 {
        soc + dod - 1000
    } else {
        0
    }
}

/// Energy, in Wh, above the floor, of a battery of `capacity` Wh.
pub open spec fn usable_energy(capacity: int, soc_above: int) -> int {
    capacity * soc_above / 1000
}

/// Usable energy less the reserve, and never below zero.
pub open spec fn remaining_energy(usable: int, reserve: int) -> int {
    if usable > reserve {
        usable - reserve
    } else {
        0
    }
}

/// Battery load, in watts, under a discharge policy: `remaining` Wh spread
/// evenly over the whole minutes in `secs_to_charge` seconds (none when not a
/// minute is left), or a share, in thousandths, of the system load; never
/// negative.
pub open spec fn battery_load_for(
    discharge: RateDischarge,
    system_load: int,
    remaining: int,
    secs_to_charge: int,
) -> int {
    match discharge {
        RateDischarge::Spread => if secs_to_charge >= 60 {
            remaining * 60 / (secs_to_charge / 60)
        } else {
            0
        },
        RateDischarge::Capacity(f) => if system_load * f > 0 {
            system_load * f / 1000
        } else {
            0
        },
        RateDischarge::Disabled => 0,
    }
}

/// Grid load, in watts: the system load that the battery does not cover.
pub open spec fn grid_load_for(system_load: int, battery_load: int) -> int {
    if system_load - battery_load > 0 {
        system_load - battery_load
    } else {
        0
    }
}

impl Controller {
    /// `x` is an occurrence, relative to `from` at offset `off`, of a window
    /// of the rate at position `x.rate`.
    pub open spec fn is_entry(self, from: int, off: int, x: Slot) -> bool {
        &&& 0 <= x.rate < self.rates@.len()
        &&& window_slot(self.rates@[x.rate as int].windows@, x.rate as int, from, off, x)
    }

    /// `q` is a merged schedule relative to `from` at offset `off`: every
    /// occurrence of every rate, each once, in ascending order of start.
    /// Entries with equal starts (overlapping rates) come in no stated order.
    pub open spec fn is_merged(self, from: int, off: int, q: Seq<Slot>) -> bool {
        &&& ordered_by_start(q)
        &&& q.no_duplicates()
        &&& forall|x: Slot| q.contains(x) <==> self.is_entry(from, off, x)
    }

    /// `r` lists the entries of `q`.
    pub open spec fn lists(self, r: Seq<Schedule>, q: Seq<Slot>) -> bool {
        &&& r.len() == q.len()
        &&& forall|i: int| 0 <= i < r.len() ==> self.shows(#[trigger] r[i], q[i])
    }

    /// `e` is the schedule entry for `x`.
    pub open spec fn shows(self, e: Schedule, x: Slot) -> bool {
        &&& 0 <= x.rate < self.rates@.len()
        &&& *e.rate == self.rates@[x.rate as int]
        &&& e.window == span(x.start as int, x.end as int)
    }

    /// The rate of `x` has charging enabled.
    pub open spec fn charges(self, x: Slot) -> bool {
        self.rates@[x.rate as int].charge.enabled()
    }

    /// `i` is the first position in `q` whose rate charges.
    pub open spec fn is_first_charge(self, q: Seq<Slot>, i: int) -> bool {
        &&& 0 <= i < q.len()
        &&& self.charges(q[i])
        &&& forall|j: int| 0 <= j < i ==> !self.charges(#[trigger] q[j])
    }

    /// Some entry of `q` belongs to a rate that charges.
    pub open spec fn has_charge(self, q: Seq<Slot>) -> bool {
        exists|i: int| 0 <= i < q.len() && self.charges(#[trigger] q[i])
    }

    /// The first position in `q` whose rate charges, where there is one.
    pub open spec fn first_charge(self, q: Seq<Slot>) -> int {
        choose|i: int| self.is_first_charge(q, i)
    }

    /// Sum of the reserves of the first `n` entries of `q` that start before
    /// `before` and are not in effect at `from`.
    pub open spec fn reserve_upto(self, q: Seq<Slot>, n: int, before: int, from: int) -> int
        decreases n,
    {
        if n <= 0 {
            0
        } else {
            let x = q[n - 1];
            self.reserve_upto(q, n - 1, before, from) + if x.start < before && !span(
                x.start as int,
                x.end as int,
            ).contains(from) {
                self.rates@[x.rate as int].reserve as int
            } else {
                0
            }
        }
    }

    /// A controller for the tariff table `rates` and the depth of discharge
    /// `dod`, in thousandths.
    pub fn new(rates: Vec<Rate>, dod: u16) -> (r: Controller)
        ensures
            r.rates == rates,
            r.dod == dod,
    {
        Controller { rates, dod }
    }

    /// The merged occurrences, as positions of rates and windows.
    fn merged_slots(&self, from: i64, offset: i32) -> (r: Vec<Slot>)
        requires
            valid_instant(from as int),
            valid_offset(offset as int),
        ensures
            strictly_ordered(r@),
            self.is_merged(from as int, offset as int, r@),
            forall|x: Slot| r@.contains(x) <==> self.is_entry(from as int, offset as int, x),
    {
        let mut slots: Vec<Slot> = Vec::new();
        let mut i: usize = 0;
        while i < self.rates.len()
            invariant
                i <= self.rates@.len(),
                valid_instant(from as int),
                valid_offset(offset as int),
                strictly_ordered(slots@),
                forall|x: Slot|
                    slots@.contains(x) <==> (self.is_entry(from as int, offset as int, x) && x.rate
                        < i),
            decreases self.rates@.len() - i,
        {
            insert_window_slots(&mut slots, &self.rates[i].windows, i, from, offset);
            i = i + 1;
        }
        proof {
            lemma_strict_by_start(slots@);
        }
        slots
    }

    fn entry<'a>(&'a self, x: &Slot) -> (r: Schedule<'a>)
        requires
            x.rate < self.rates@.len(),
        ensures
            self.shows(r, *x),
    {
        Schedule { rate: &self.rates[x.rate], window: RateWindowAbsolute { start: x.start, end: x.end } }
    }

    /// The merged schedule relative to `from`, with local time `offset`
    /// seconds ahead of UTC: every occurrence of every rate, in ascending
    /// order of start.
    pub fn get_schedule_at(&self, from: i64, offset: i32) -> (r: Vec<Schedule<'_>>)
        requires
            valid_instant(from as int),
            valid_offset(offset as int),
        ensures
            exists|q: Seq<Slot>|
                #[trigger] self.is_merged(from as int, offset as int, q) && self.lists(r@, q),
    {
        let slots = self.merged_slots(from, offset);
        let mut r: Vec<Schedule<'_>> = Vec::new();
        let mut i: usize = 0;
        while i < slots.len()
            invariant
                i <= slots@.len(),
                self.is_merged(from as int, offset as int, slots@),
                r@.len() == i,
                forall|k: int| 0 <= k < i ==> self.shows(#[trigger] r@[k], slots@[k]),
            decreases slots@.len() - i,
        {
            assert(slots@.contains(slots@[i as int]));
            r.push(self.entry(&slots[i]));
            i = i + 1;
        }
        assert(self.is_merged(from as int, offset as int, slots@) && self.lists(r@, slots@));
        r
    }

    /// The merged schedule relative to `from`, in the machine's local time.
    pub fn get_schedule(&self, from: i64) -> (r: Vec<Schedule<'_>>)
        requires
            valid_instant(from as int),
        ensures
            exists|off: int, q: Seq<Slot>|
                valid_offset(off) && #[trigger] self.is_merged(from as int, off, q) && self.lists(
                    r@,
                    q,
                ),
    {
        let offset = local_offset_at(from);
        self.get_schedule_at(from, offset)
    }

    /// Position of the first entry of `q` whose rate charges, if any.
    fn find_charge(&self, q: &Vec<Slot>) -> (r: Option<usize>)
        requires
            forall|i: int| 0 <= i < q@.len() ==> #[trigger] q@[i].rate < self.rates@.len(),
        ensures
            r matches Some(i) ==> self.is_first_charge(q@, i as int),
            r is None ==> !self.has_charge(q@),
    {
        let mut i: usize = 0;
        while i < q.len()
            invariant
                i <= q@.len(),
                forall|i: int| 0 <= i < q@.len() ==> #[trigger] q@[i].rate < self.rates@.len(),
                forall|j: int| 0 <= j < i ==> !self.charges(#[trigger] q@[j]),
            decreases q@.len() - i,
        {
            if self.rates[q[i].rate].charge.charge_enabled() {
                return Some(i);
            }
            i = i + 1;
        }
        None
    }

    /// `r` is the first entry of `q` whose rate charges, or the error for a
    /// schedule where none does.
    pub open spec fn is_next_charge(self, q: Seq<Slot>, r: Result<Schedule, ControllerError>) -> bool {
        &&& r is Ok <==> self.has_charge(q)
        &&& r matches Ok(s) ==> self.shows(s, q[self.first_charge(q)])
        &&& r matches Err(e) ==> e.0@ == "No rate found!"@
    }

    /// The first entry of the merged schedule relative to `from`, with local
    /// time `offset` seconds ahead of UTC, whose rate charges; an error when
    /// none does.
    pub fn next_charge_at(&self, from: i64, offset: i32) -> (r: Result<Schedule<'_>, ControllerError>)
        requires
            valid_instant(from as int),
            valid_offset(offset as int),
        ensures
            exists|q: Seq<Slot>|
                #[trigger] self.is_merged(from as int, offset as int, q) && self.is_next_charge(
                    q,
                    r,
                ),
    {
        let q = self.merged_slots(from, offset);
        proof {
            lemma_slots_in_table(*self, from as int, offset as int, q@);
        }
        let r = match self.find_charge(&q) {
            Some(i) => {
                proof {
                    lemma_first_charge_unique(*self, q@, i as int);
                }
                Ok(self.entry(&q[i]))
            },
            None => Err(ControllerError("No rate found!".to_owned())),
        };
        assert(self.is_merged(from as int, offset as int, q@) && self.is_next_charge(q@, r));
        r
    }

    /// The first entry of the merged schedule relative to `from`, in the
    /// machine's local time, whose rate charges.
    pub fn next_charge(&self, from: i64) -> (r: Result<Schedule<'_>, ControllerError>)
        requires
            valid_instant(from as int),
        ensures
            exists|off: int, q: Seq<Slot>|
                valid_offset(off) && #[trigger] self.is_merged(from as int, off, q)
                    && self.is_next_charge(q, r),
    {
        let offset = local_offset_at(from);
        self.next_charge_at(from, offset)
    }
}

impl Controller {
    /// `o` is the dispatch for the merged schedule `q` (two entries or more,
    /// one of whose rates charges), the reference instant `from` and the
    /// snapshot `input`. While the current rate (the first entry) charges,
    /// the battery charges from the grid; otherwise it discharges, keeping
    /// the reserves of the rates that come before the next charge.
    pub open spec fn dispatches(
        self,
        q: Seq<Slot>,
        from: int,
        input: ControllerInputState,
        o: ControllerOutputState,
    ) -> bool {
        let c = self.first_charge(q);
        &&& self.shows(o.current_rate, q[0])
        &&& self.shows(o.next_rate, q[1])
        &&& self.shows(o.next_charge, q[c])
        &&& if self.charges(q[0]) {
            &&& !o.disable_charge
            &&& o.disable_feed_in
            &&& o.soc == input.soc
            &&& o.grid_load == MAX_GRID_IMPORT
            &&& o.battery_load == 0
            &&& o.using_capacity == 0
            &&& o.reserve_capacity == 0
        } else {
            let reserve = self.reserve_upto(q, q.len() as int, q[c].start as int, from);
            let soc = soc_above_floor(input.soc as int, self.dod as int);
            let remaining = remaining_energy(usable_energy(input.capacity as int, soc), reserve);
            let load = battery_load_for(
                self.rates@[q[0].rate as int].discharge,
                input.system_load as int,
                remaining,
                q[c].start - from,
            );
            &&& o.disable_charge
            &&& o.disable_feed_in == (remaining == 0 || load == 0)
            &&& o.soc == soc
            &&& o.grid_load == grid_load_for(input.system_load as int, load)
            &&& o.battery_load == load
            &&& o.using_capacity == remaining
            &&& o.reserve_capacity == reserve
        }
    }

    /// `r` is the outcome of a tick for the merged schedule `q`: an error
    /// when `q` is empty, when no rate of it charges, or when it has a single
    /// entry; otherwise the dispatch.
    pub open spec fn outcome(
        self,
        q: Seq<Slot>,
        from: int,
        input: ControllerInputState,
        r: Result<ControllerOutputState, ControllerError>,
    ) -> bool {
        &&& q.len() == 0 ==> r is Err && r->Err_0.0@ == "No current rate Found"@
        &&& q.len() > 0 && !self.has_charge(q) ==> r is Err && r->Err_0.0@
            == "No next charge rate Found"@
        &&& q.len() == 1 && self.has_charge(q) ==> r is Err && r->Err_0.0@ == "No next rate found"@
        &&& q.len() >= 2 && self.has_charge(q) ==> r is Ok && self.dispatches(q, from, input, r->Ok_0)
    }

    /// The dispatch for the reference instant `from`, with local time
    /// `offset` seconds ahead of UTC, and the snapshot `current_state`. It
    /// fails when the merged schedule is empty, when no rate charges, or when
    /// the schedule has a single entry.
    pub fn desired_state_at(
        &self,
        from: i64,
        offset: i32,
        current_state: ControllerInputState,
    ) -> (r: Result<ControllerOutputState<'_>, ControllerError>)
        requires
            valid_instant(from as int),
            valid_offset(offset as int),
        ensures
            exists|q: Seq<Slot>|
                #[trigger] self.is_merged(from as int, offset as int, q) && self.outcome(
                    q,
                    from as int,
                    current_state,
                    r,
                ),
    {
        let q = self.merged_slots(from, offset);
        let r = self.dispatch_for(&q, from, current_state);
        assert(self.is_merged(from as int, offset as int, q@) && self.outcome(
            q@,
            from as int,
            current_state,
            r,
        ));
        r
    }

    /// The dispatch for the merged schedule `q` of the reference instant `from`.
    fn dispatch_for(&self, q: &Vec<Slot>, from: i64, current_state: ControllerInputState) -> (r:
        Result<ControllerOutputState<'_>, ControllerError>)
        requires
            forall|x: Slot| q@.contains(x) ==> x.rate < self.rates@.len(),
        ensures
            self.outcome(q@, from as int, current_state, r),
    {
        proof {
            assert forall|k: int| 0 <= k < q@.len() implies #[trigger] q@[k].rate
                < self.rates@.len() by {
                assert(q@.contains(q@[k]));
            }
        }
        if q.len() == 0 {
            return Err(ControllerError("No current rate Found".to_owned()));
        }
        let c = match self.find_charge(&q) {
            Some(i) => i,
            None => {
                return Err(ControllerError("No next charge rate Found".to_owned()));
            },
        };
        proof {
            lemma_first_charge_unique(*self, q@, c as int);
        }
        if q.len() < 2 {
            return Err(ControllerError("No next rate found".to_owned()));
        }
        let current_rate = self.entry(&q[0]);
        let next_rate = self.entry(&q[1]);
        let next_charge = self.entry(&q[c]);
        let rate = &self.rates[q[0].rate];
        if rate.charge.charge_enabled() {
            // the current rate charges: just charge
            return Ok(
                ControllerOutputState {
                    disable_charge: false,
                    disable_feed_in: true,
                    soc: current_state.soc as u32,
                    grid_load: MAX_GRID_IMPORT,
                    battery_load: 0,
                    using_capacity: 0,
                    reserve_capacity: 0,
                    current_rate,
                    next_rate,
                    next_charge,
                },
            );
        }
        // discharging: keep the reserves of the rates before the next charge
        let next_start = q[c].start;
        let mut reserve: u128 = 0;
        let mut i: usize = 0;
        while i < q.len()
            invariant
                i <= q@.len(),
                forall|k: int| 0 <= k < q@.len() ==> #[trigger] q@[k].rate < self.rates@.len(),
                reserve == self.reserve_upto(q@, i as int, next_start as int, from as int),
                reserve <= i * 0xffff_ffff,
            decreases q@.len() - i,
        {
            let x = &q[i];
            if x.start < next_start && !(x.start <= from && from <= x.end) {
                proof {
                    assert(i * 0xffff_ffff < 0xffff_ffff_ffff_ffff * 0xffff_ffff) by (nonlinear_arith)
                        requires
                            i < 0xffff_ffff_ffff_ffff,
                    ;
                }
                reserve = reserve + self.rates[x.rate].reserve as u128;
            }
            i = i + 1;
        }
        let soc_sum = current_state.soc as i64 + self.dod as i64 - 1000;
        let soc: u32 = if soc_sum > 0 {
            soc_sum as u32
        } else {
            0
        };
        proof {
            assert(current_state.capacity * soc <= 0xffff_ffff * 140_000) by (nonlinear_arith)
                requires
                    current_state.capacity <= 0xffff_ffff,
                    soc <= 140_000,
            ;
        }
        let usable: u64 = current_state.capacity as u64 * soc as u64 / 1000;
        let remaining: u64 = if (usable as u128) > reserve {
            (usable as u128 - reserve) as u64
        } else {
            0
        };
        let secs = next_start as i128 - from as i128;
        let load: i64 = match rate.discharge {
            RateDischarge::Spread => {
                if secs >= 60 {
                    let minutes = (secs as u128 / 60) as u64;
                    proof {
                        assert((remaining as int * 60) / (minutes as int) <= remaining as int * 60)
                            by (nonlinear_arith)
                            requires
                                minutes >= 1,
                                remaining >= 0,
                        ;
                    }
                    (remaining * 60 / minutes) as i64
                } else {
                    0
                }
            },
            RateDischarge::Capacity(f) => {
                proof {
                    assert(-0x8000_0000 * 0xffff_ffff <= current_state.system_load * f
                        <= 0x7fff_ffff * 0xffff_ffff) by (nonlinear_arith)
                        requires
                            -0x8000_0000 <= current_state.system_load <= 0x7fff_ffff,
                            0 <= f <= 0xffff_ffff,
                    ;
                }
                let p = current_state.system_load as i64 * f as i64;
                if p > 0 {
                    (p as u64 / 1000) as i64
                } else {
                    0
                }
            },
            RateDischarge::Disabled => 0,
        };
        let gap = current_state.system_load as i64 - load;
        let grid_load = if gap > 0 {
            gap
        } else {
            0
        };
        Ok(
            ControllerOutputState {
                disable_charge: true,
                disable_feed_in: remaining == 0 || load == 0,
                soc,
                grid_load,
                battery_load: load,
                using_capacity: remaining,
                reserve_capacity: reserve,
                current_rate,
                next_rate,
                next_charge,
            },
        )
    }

    /// The dispatch for the reference instant `from`, in the machine's local
    /// time, and the snapshot `current_state`.
    pub fn desired_state(&self, from: i64, current_state: ControllerInputState) -> (r: Result<
        ControllerOutputState<'_>,
        ControllerError,
    >)
        requires
            valid_instant(from as int),
        ensures
            exists|off: int, q: Seq<Slot>|
                valid_offset(off) && #[trigger] self.is_merged(from as int, off, q) && self.outcome(
                    q,
                    from as int,
                    current_state,
                    r,
                ),
    {
        let offset = local_offset_at(from);
        self.desired_state_at(from, offset, current_state)
    }
}

/// While the current rate charges, the charger is enabled, feed-in is
/// disabled and the battery carries no load.
pub proof fn lemma_charging_regime(
    c: Controller,
    q: Seq<Slot>,
    from: int,
    input: ControllerInputState,
    o: ControllerOutputState,
)
    requires
        c.dispatches(q, from, input, o),
        c.charges(q[0]),
    ensures
        !o.disable_charge,
        o.disable_feed_in,
        o.battery_load == 0,
{
}

/// Feed-in is disabled whenever no usable capacity is left.
pub proof fn lemma_no_capacity_no_feed_in(
    c: Controller,
    q: Seq<Slot>,
    from: int,
    input: ControllerInputState,
    o: ControllerOutputState,
)
    requires
        c.dispatches(q, from, input, o),
    ensures
        o.using_capacity == 0 ==> o.disable_feed_in,
{
}

/// Neither the grid load nor the battery load is ever negative.
pub proof fn lemma_loads_nonnegative(
    c: Controller,
    q: Seq<Slot>,
    from: int,
    input: ControllerInputState,
    o: ControllerOutputState,
)
    requires
        c.dispatches(q, from, input, o),
    ensures
        o.grid_load >= 0,
        o.battery_load >= 0,
{
    if !c.charges(q[0]) {
        let k = c.first_charge(q);
        let reserve = c.reserve_upto(q, q.len() as int, q[k].start as int, from);
        let soc = soc_above_floor(input.soc as int, c.dod as int);
        let remaining = remaining_energy(usable_energy(input.capacity as int, soc), reserve);
        lemma_battery_load_nonnegative(
            c.rates@[q[0].rate as int].discharge,
            input.system_load as int,
            remaining,
            q[k].start - from,
        );
    }
}

proof fn lemma_battery_load_nonnegative(
    discharge: RateDischarge,
    system_load: int,
    remaining: int,
    secs_to_charge: int,
)
    requires
        remaining >= 0,
    ensures
        battery_load_for(discharge, system_load, remaining, secs_to_charge) >= 0,
{
    if secs_to_charge >= 60 {
        let m = secs_to_charge / 60;
        assert(remaining * 60 / m >= 0) by (nonlinear_arith)
            requires
                remaining >= 0,
                m >= 1,
        ;
    }
}

/// Each entry of a merged schedule belongs to a rate of the table.
proof fn lemma_slots_in_table(c: Controller, from: int, off: int, q: Seq<Slot>)
    requires
        c.is_merged(from, off, q),
    ensures
        forall|i: int| 0 <= i < q.len() ==> #[trigger] q[i].rate < c.rates@.len(),
        forall|x: Slot| q.contains(x) ==> x.rate < c.rates@.len(),
{
    assert forall|i: int| 0 <= i < q.len() implies #[trigger] q[i].rate < c.rates@.len() by {
        assert(q.contains(q[i]));
        assert(c.is_entry(from, off, q[i]));
    }
}

/// The first position whose rate charges is the one `first_charge` names.
proof fn lemma_first_charge_unique(c: Controller, q: Seq<Slot>, i: int)
    requires
        c.is_first_charge(q, i),
    ensures
        c.first_charge(q) == i,
        c.has_charge(q),
{
    let k = c.first_charge(q);
    assert(c.is_first_charge(q, k));
    if k < i {
        assert(!c.charges(q[k]));
    }
    if i < k {
        assert(!c.charges(q[i]));
    }
}

} // verus!
