use crate::smart_ess::slot::{
    insert_window_slots, lemma_strict_by_start, ordered_by_start, strictly_ordered, window_slot,
    Slot,
};
use crate::smart_ess::window::{
    local_offset_at, span, valid_instant, valid_offset, RateWindow, RateWindowAbsolute,
};
use vstd::prelude::*;

verus! {

/// A tariff: a named policy bound to recurring windows.
#[derive(Debug, Clone)]
pub struct Rate {
    /// Name of this rate
    pub name: String,
    /// Cost of one kWh, in thousandths of the currency unit
    pub unit_cost: u32,
    /// Rate start and end times
    pub windows: Vec<RateWindow>,
    /// Controls stored energy usage during this rate
    pub discharge: RateDischarge,
    /// Controls charging during this rate
    pub charge: RateCharge,
    /// Energy, in Wh, withheld from discharge for this rate until the next charge
    pub reserve: u32,
}

/// How the battery discharges while a rate is current.
#[derive(Debug, Clone, Copy, PartialEq, Eq, Structural)]
pub enum RateDischarge {
    /// Discharge disabled
    Disabled,
    /// The battery supplies this share of the system load, in thousandths
    Capacity(u32),
    /// Usable energy drains evenly until the next charge
    Spread,
}

/// Charger settings of a rate.
#[derive(Debug, Clone, Copy, PartialEq, Eq, Structural)]
pub struct RateCharge {
    /// Charger mode
    pub mode: ChargeMode,
    /// Limit number of units that can be consumed by the charger in this rate.
    pub unit_limit: u16,
}

/// Whether the charger runs during a rate.
#[derive(Debug, Clone, Copy, PartialEq, Eq, Structural)]
pub enum ChargeMode {
    /// Charger is disabled
    Disabled,
    /// Target battery level, in thousandths of capacity, passed on to the charger
    Capacity(u32),
}

impl RateCharge {
    /// The charger is on during the rate.
    pub open spec fn enabled(self) -> bool {
        !(self.mode is Disabled)
    }

    /// The charger is on during the rate; the target level is for the charger alone.
    pub fn charge_enabled(&self) -> (r: bool)
        ensures
            r == self.enabled(),
    {
        !matches!(self.mode, ChargeMode::Disabled)
    }
}

impl Rate {
    /// `x` is an occurrence of one of this rate's windows, relative to `from`
    /// at offset `off`.
    pub open spec fn is_occurrence(self, from: int, off: int, x: Slot) -> bool {
        window_slot(self.windows@, 0, from, off, x)
    }

    /// `q` holds the occurrences of all this rate's windows, relative to
    /// `from` at offset `off`, each once, in ascending order of start.
    pub open spec fn is_schedule(self, from: int, off: int, q: Seq<Slot>) -> bool {
        &&& ordered_by_start(q)
        &&& q.no_duplicates()
        &&& forall|x: Slot| q.contains(x) <==> self.is_occurrence(from, off, x)
    }

    /// `r` lists the occurrences of `q`.
    pub open spec fn lists(r: Seq<RateWindowAbsolute>, q: Seq<Slot>) -> bool {
        &&& r.len() == q.len()
        &&& forall|i: int| 0 <= i < r.len() ==> #[trigger] r[i] == span(q[i].start as int, q[i].end as int)
    }

    /// The occurrences of all windows of this rate relative to `from`, with
    /// local time `offset` seconds ahead of UTC, in ascending order of start.
    pub fn schedule_at(&self, from: i64, offset: i32) -> (r: Vec<RateWindowAbsolute>)
        requires
            valid_instant(from as int),
            valid_offset(offset as int),
        ensures
            exists|q: Seq<Slot>|
                #[trigger] self.is_schedule(from as int, offset as int, q) && Rate::lists(r@, q),
    {
        let mut slots: Vec<Slot> = Vec::new();
        insert_window_slots(&mut slots, &self.windows, 0, from, offset);
        proof {
            lemma_strict_by_start(slots@);
        }
        let mut r: Vec<RateWindowAbsolute> = Vec::new();
        let mut i: usize = 0;
        while i < slots.len()
            invariant
                i <= slots@.len(),
                r@.len() == i,
                forall|k: int|
                    0 <= k < i ==> #[trigger] r@[k] == span(slots@[k].start as int, slots@[k].end as int),
            decreases slots@.len() - i,
        {
            r.push(RateWindowAbsolute { start: slots[i].start, end: slots[i].end });
            i = i + 1;
        }
        assert(self.is_schedule(from as int, offset as int, slots@) && Rate::lists(r@, slots@));
        r
    }

    /// The occurrences of all windows of this rate relative to `from`, in the
    /// machine's local time, in ascending order of start.
    pub fn schedule(&self, from: i64) -> (r: Vec<RateWindowAbsolute>)
        requires
            valid_instant(from as int),
        ensures
            exists|off: int, q: Seq<Slot>|
                valid_offset(off) && #[trigger] self.is_schedule(from as int, off, q) && Rate::lists(
                    r@,
                    q,
                ),
    {
        let offset = local_offset_at(from);
        self.schedule_at(from, offset)
    }
}

} // verus!
