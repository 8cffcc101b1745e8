//! The five interrupt sources, their request bits, their vectors, and the
//! order in which they are served.

use vstd::prelude::*;

verus! {

/// An interrupt source. The order of the variants is the order of
/// priority, highest first.
#[derive(Clone, Copy, Debug, PartialEq, Eq, Structural)]
pub enum Interrupt {
    VBlank,
    LCDStat,
    Timer,
    Serial,
    Joypad,
}

/// Cost in clock ticks of dispatching an interrupt.
pub const DISPATCH_CYCLES: i64 = 80;

impl Interrupt {
    /// The address at which the handler of this interrupt starts.
    pub open spec fn spec_vector(self) -> u16 {
        match self {
            Interrupt::VBlank => 0x0040,
            Interrupt::LCDStat => 0x0048,
            Interrupt::Timer => 0x0050,
            Interrupt::Serial => 0x0058,
            Interrupt::Joypad => 0x0060,
        }
    }

    /// The bit of this interrupt in the request and enable registers.
    pub open spec fn spec_mask(self) -> u8 {
        match self {
            Interrupt::VBlank => 0x01,
            Interrupt::LCDStat => 0x02,
            Interrupt::Timer => 0x04,
            Interrupt::Serial => 0x08,
            Interrupt::Joypad => 0x10,
        }
    }

    /// Whether the bit of this interrupt is set in `flags`.
    pub open spec fn spec_raised(self, flags: u8) -> bool {
        match self {
            Interrupt::VBlank => flags / 0x01 % 2 == 1,
            Interrupt::LCDStat => flags / 0x02 % 2 == 1,
            Interrupt::Timer => flags / 0x04 % 2 == 1,
            Interrupt::Serial => flags / 0x08 % 2 == 1,
            Interrupt::Joypad => flags / 0x10 % 2 == 1,
        }
    }

    /// Whether this interrupt is both requested and enabled.
    pub open spec fn spec_ready(self, requested: u8, enabled: u8) -> bool {
        self.spec_raised(requested) && self.spec_raised(enabled)
    }

    pub fn vector(&self) -> (address: u16)
        ensures
            address == self.spec_vector(),
    {
        match self {
            Interrupt::VBlank => 0x0040,
            Interrupt::LCDStat => 0x0048,
            Interrupt::Timer => 0x0050,
            Interrupt::Serial => 0x0058,
            Interrupt::Joypad => 0x0060,
        }
    }

    pub fn mask(&self) -> (bit: u8)
        ensures
            bit == self.spec_mask(),
    {
        match self {
            Interrupt::VBlank => 0x01,
            Interrupt::LCDStat => 0x02,
            Interrupt::Timer => 0x04,
            Interrupt::Serial => 0x08,
            Interrupt::Joypad => 0x10,
        }
    }

    /// Whether the bit of this interrupt is set in `flags`.
    pub fn raised(&self, flags: u8) -> (set: bool)
        ensures
            set == self.spec_raised(flags),
    {
        flags / self.mask() % 2 == 1
    }
}

/// The interrupt to serve: the first in the order of priority that is
/// both requested and enabled.
pub open spec fn spec_pending(requested: u8, enabled: u8) -> Option<Interrupt> {
    if Interrupt::VBlank.spec_ready(requested, enabled) {
        Some(Interrupt::VBlank)
    } else if Interrupt::LCDStat.spec_ready(requested, enabled) {
        Some(Interrupt::LCDStat)
    } else if Interrupt::Timer.spec_ready(requested, enabled) {
        Some(Interrupt::Timer)
    } else if Interrupt::Serial.spec_ready(requested, enabled) {
        Some(Interrupt::Serial)
    } else if Interrupt::Joypad.spec_ready(requested, enabled) {
        Some(Interrupt::Joypad)
    } else {
        None
    }
}

/// The request register's five bits with the bit of `interrupt` cleared.
pub open spec fn spec_acknowledge(requested: u8, interrupt: Interrupt) -> u8 {
    if interrupt.spec_raised(requested) {
        (requested % 32 - interrupt.spec_mask()) as u8
    } else {
        requested % 32
    }
}

/// The sources in the order in which they are served.
pub fn priority_order() -> (order: [Interrupt; 5])
    ensures
        order@ == seq![
            Interrupt::VBlank,
            Interrupt::LCDStat,
            Interrupt::Timer,
            Interrupt::Serial,
            Interrupt::Joypad,
        ],
{
    [Interrupt::VBlank, Interrupt::LCDStat, Interrupt::Timer, Interrupt::Serial, Interrupt::Joypad]
}

/// Scans the sources in the order of priority; the first that is both
/// requested and enabled wins.
pub fn pending(requested: u8, enabled: u8) -> (found: Option<Interrupt>)
    ensures
        found == spec_pending(requested, enabled),
        found matches Some(interrupt) ==> interrupt.spec_raised(requested),
{
    let order = priority_order();
    let mut i: usize = 0;
    while i < 5
        invariant
            i <= 5,
            order@ == seq![
                Interrupt::VBlank,
                Interrupt::LCDStat,
                Interrupt::Timer,
                Interrupt::Serial,
                Interrupt::Joypad,
            ],
            forall|k: int| 0 <= k < i ==> !(#[trigger] order@[k]).spec_ready(requested, enabled),
        decreases 5 - i,
    {
        let candidate: Interrupt = order[i];
        if candidate.raised(requested) && candidate.raised(enabled) {
            assert(forall|k: int| 0 <= k < i ==> !(#[trigger] order@[k]).spec_ready(requested, enabled));
            assert(i >= 1 ==> !order@[0].spec_ready(requested, enabled));
            assert(i >= 2 ==> !order@[1].spec_ready(requested, enabled));
            assert(i >= 3 ==> !order@[2].spec_ready(requested, enabled));
            assert(i >= 4 ==> !order@[3].spec_ready(requested, enabled));
            return Some(candidate);
        }
        i += 1;
    }
    assert(!order@[0].spec_ready(requested, enabled));
    assert(!order@[1].spec_ready(requested, enabled));
    assert(!order@[2].spec_ready(requested, enabled));
    assert(!order@[3].spec_ready(requested, enabled));
    assert(!order@[4].spec_ready(requested, enabled));
    None
}

/// A bit that is set in a byte weighs in the byte's low five bits.
pub proof fn lemma_raised_weighs(flags: u8)
    by (bit_vector)
    ensures
        flags / 0x01 % 2 == 1 ==> flags % 32 >= 0x01,
        flags / 0x02 % 2 == 1 ==> flags % 32 >= 0x02,
        flags / 0x04 % 2 == 1 ==> flags % 32 >= 0x04,
        flags / 0x08 % 2 == 1 ==> flags % 32 >= 0x08,
        flags / 0x10 % 2 == 1 ==> flags % 32 >= 0x10,
{
}

/// Clears the bit of `interrupt` in the request register's five bits.
pub fn acknowledge(requested: u8, interrupt: Interrupt) -> (cleared: u8)
    ensures
        cleared == spec_acknowledge(requested, interrupt),
{
    if interrupt.raised(requested) {
        proof {
            lemma_raised_weighs(requested);
        }
        requested % 32 - interrupt.mask()
    } else {
        requested % 32
    }
}

} // verus!
