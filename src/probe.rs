use vstd::prelude::*;
use crate::adc::{ProtocolKind, CHIP_A_ADDR, CHIP_B_ADDR};

verus! {

/// Bus identifiers tried by default, in order.
pub const DEFAULT_BUSES: [u8; 3] = [1, 13, 14];

/// Probe rounds on each bus that opens.
pub const DEFAULT_ATTEMPTS: u32 = 3;

/// Pause after a round in which neither converter answered, in milliseconds.
pub const RETRY_DELAY_MS: u64 = 50;

/// Exit status of the process when no converter is found.
pub const DETECTION_FAILURE_EXIT: i32 = -1;

/// Where the prober stands on the current bus.
#[derive(Clone, Copy, Debug, PartialEq, Eq, Structural)]
pub enum ProbeStage {
    /// The current bus is to be opened.
    Open,
    /// ChipA's address is to be tried on the open bus.
    TryA,
    /// ChipB's address is to be tried on the open bus.
    TryB,
    /// Neither answered in this round: wait before the next one.
    Pause,
    /// A converter of this kind answered on the current bus.
    Found(ProtocolKind),
    /// Every bus has been tried without success.
    Exhausted,
}

/// What the caller is to do next on behalf of the prober.
#[derive(Clone, Copy, Debug, PartialEq, Eq, Structural)]
pub enum ProbeAction {
    /// Open this bus; report whether it opened.
    OpenBus(u8),
    /// Select `addr` on `bus` and read one byte; report whether both worked.
    Probe { bus: u8, addr: u16 },
    /// Sleep this many milliseconds; report `true`.
    Sleep(u64),
    /// Detection succeeded: keep the open bus, it carries this converter.
    Found(u8, ProtocolKind),
    /// Detection failed on every bus.
    Failed,
}

/// The abstract state of a prober.
pub ghost struct ProberView {
    pub buses: Seq<u8>,
    pub attempts: nat,
    pub index: nat,
    pub attempt: nat,
    pub stage: ProbeStage,
}

impl ProberView {
    pub open spec fn wf(self) -> bool {
        &&& self.attempts >= 1
        &&& self.attempt < self.attempts
        &&& if self.stage is Exhausted {
            self.index == self.buses.len()
        } else {
            self.index < self.buses.len()
        }
        &&& self.stage is Open ==> self.attempt == 0
    }

    pub open spec fn bus(self) -> u8 {
        self.buses[self.index as int]
    }

    pub open spec fn action(self) -> ProbeAction {
        match self.stage {
            ProbeStage::Open => ProbeAction::OpenBus(self.bus()),
            ProbeStage::TryA => ProbeAction::Probe { bus: self.bus(), addr: CHIP_A_ADDR },
            ProbeStage::TryB => ProbeAction::Probe { bus: self.bus(), addr: CHIP_B_ADDR },
            ProbeStage::Pause => ProbeAction::Sleep(RETRY_DELAY_MS),
            ProbeStage::Found(k) => ProbeAction::Found(self.bus(), k),
            ProbeStage::Exhausted => ProbeAction::Failed,
        }
    }

    /// Moves on to the next bus, or gives up after the last one.
    pub open spec fn next_bus(self) -> ProberView {
        if self.index + 1 < self.buses.len() {
            ProberView { index: self.index + 1, attempt: 0, stage: ProbeStage::Open, ..self }
        } else {
            ProberView {
                index: self.buses.len(),
                attempt: 0,
                stage: ProbeStage::Exhausted,
                ..self
            }
        }
    }

    /// The state after the current action was carried out with outcome `ok`.
    pub open spec fn step(self, ok: bool) -> ProberView {
        match self.stage {
            ProbeStage::Open => if ok {
                ProberView { stage: ProbeStage::TryA, ..self }
            } else {
                self.next_bus()
            },
            ProbeStage::TryA => if ok {
                ProberView { stage: ProbeStage::Found(ProtocolKind::ChipA), ..self }
            } else {
                ProberView { stage: ProbeStage::TryB, ..self }
            },
            ProbeStage::TryB => if ok {
                ProberView { stage: ProbeStage::Found(ProtocolKind::ChipB), ..self }
            } else {
                ProberView { stage: ProbeStage::Pause, ..self }
            },
            ProbeStage::Pause => if self.attempt + 1 < self.attempts {
                ProberView { attempt: self.attempt + 1, stage: ProbeStage::TryA, ..self }
            } else {
                self.next_bus()
            },
            _ => self,
        }
    }
}

/// Searches for a converter over an ordered list of buses: bus by bus, and
/// on each open bus ChipA's address before ChipB's, a fixed number of rounds.
pub struct Prober {
    buses: Vec<u8>,
    attempts: u32,
    index: usize,
    attempt: u32,
    stage: ProbeStage,
}

impl View for Prober {
    type V = ProberView;

    closed spec fn view(&self) -> ProberView {
        ProberView {
            buses: self.buses@,
            attempts: self.attempts as nat,
            index: self.index as nat,
            attempt: self.attempt as nat,
            stage: self.stage,
        }
    }
}

impl Prober {
    /// A prober over `buses`, in order, with `attempts` rounds on each bus.
    pub fn new(buses: Vec<u8>, attempts: u32) -> (r: Prober)
        requires
            attempts >= 1,
        ensures
            r@.wf(),
            r@ == fresh_prober(buses@, attempts as nat),
    {
        let stage = if buses.len() == 0 {
            ProbeStage::Exhausted
        } else {
            ProbeStage::Open
        };
        Prober { buses, attempts, index: 0, attempt: 0, stage }
    }

    /// What to do next.
    pub fn next_action(&self) -> (r: ProbeAction)
        requires
            self@.wf(),
        ensures
            r == self@.action(),
    {
        match self.stage {
            ProbeStage::Open => ProbeAction::OpenBus(self.buses[self.index]),
            ProbeStage::TryA => ProbeAction::Probe { bus: self.buses[self.index], addr: CHIP_A_ADDR },
            ProbeStage::TryB => ProbeAction::Probe { bus: self.buses[self.index], addr: CHIP_B_ADDR },
            ProbeStage::Pause => ProbeAction::Sleep(RETRY_DELAY_MS),
            ProbeStage::Found(k) => ProbeAction::Found(self.buses[self.index], k),
            ProbeStage::Exhausted => ProbeAction::Failed,
        }
    }

    /// Whether the search has ended, found or failed.
    pub fn is_done(&self) -> (r: bool)
        ensures
            r == (self@.stage is Found || self@.stage is Exhausted),
    {
        match self.stage {
            ProbeStage::Found(_) | ProbeStage::Exhausted => true,
            _ => false,
        }
    }

    fn next_bus(&mut self)
        requires
            old(self)@.wf(),
            old(self)@.index < old(self)@.buses.len(),
        ensures
            final(self)@ == old(self)@.next_bus(),
    {
        if self.buses.len() - self.index > 1 {
            self.index = self.index + 1;
            self.attempt = 0;
            self.stage = ProbeStage::Open;
        } else {
            self.index = self.buses.len();
            self.attempt = 0;
            self.stage = ProbeStage::Exhausted;
        }
    }

    /// Takes the outcome of the action last returned by `next_action`.
    pub fn on_outcome(&mut self, ok: bool)
        requires
            old(self)@.wf(),
        ensures
            final(self)@ == old(self)@.step(ok),
            final(self)@.wf(),
    {
        match self.stage {
            ProbeStage::Open => {
                if ok {
                    self.stage = ProbeStage::TryA;
                } else {
                    self.next_bus();
                }
            },
            ProbeStage::TryA => {
                if ok {
                    self.stage = ProbeStage::Found(ProtocolKind::ChipA);
                } else {
                    self.stage = ProbeStage::TryB;
                }
            },
            ProbeStage::TryB => {
                if ok {
                    self.stage = ProbeStage::Found(ProtocolKind::ChipB);
                } else {
                    self.stage = ProbeStage::Pause;
                }
            },
            ProbeStage::Pause => {
                if self.attempt + 1 < self.attempts {
                    self.attempt = self.attempt + 1;
                    self.stage = ProbeStage::TryA;
                } else {
                    self.next_bus();
                }
            },
            _ => {},
        }
    }
}

/// A fixed wiring: the buses that open, and the buses on which each
/// converter answers at its address. Every probe of it gives the same answer.
pub struct BusWiring {
    pub openable: Vec<u8>,
    pub chip_a: Vec<u8>,
    pub chip_b: Vec<u8>,
}

pub open spec fn opens(w: BusWiring, bus: u8) -> bool {
    w.openable@.contains(bus)
}

pub open spec fn answers_a(w: BusWiring, bus: u8) -> bool {
    w.chip_a@.contains(bus)
}

pub open spec fn answers_b(w: BusWiring, bus: u8) -> bool {
    w.chip_b@.contains(bus)
}

/// A bus on which detection cannot succeed: it does not open, or neither
/// converter answers on it.
pub open spec fn bus_fails(w: BusWiring, bus: u8) -> bool {
    !opens(w, bus) || (!answers_a(w, bus) && !answers_b(w, bus))
}

/// The outcome that the wiring gives to an action.
pub open spec fn outcome_spec(w: BusWiring, a: ProbeAction) -> bool {
    match a {
        ProbeAction::OpenBus(b) => opens(w, b),
        ProbeAction::Probe { bus, addr } => (addr == CHIP_A_ADDR && answers_a(w, bus)) || (addr
            == CHIP_B_ADDR && answers_b(w, bus)),
        ProbeAction::Sleep(_) => true,
        _ => false,
    }
}

/// Detection from position `i` on: the first bus that opens and has a
/// converter, with ChipA preferred over ChipB on the same bus.
pub open spec fn detect_from(buses: Seq<u8>, w: BusWiring, i: int) -> Option<(u8, ProtocolKind)>
    decreases buses.len() - i,
{
    if i < 0 || i >= buses.len() {
        None
    } else if opens(w, buses[i]) && answers_a(w, buses[i]) {
        Some((buses[i], ProtocolKind::ChipA))
    } else if opens(w, buses[i]) && answers_b(w, buses[i]) {
        Some((buses[i], ProtocolKind::ChipB))
    } else {
        detect_from(buses, w, i + 1)
    }
}

pub open spec fn detect_spec(buses: Seq<u8>, w: BusWiring) -> Option<(u8, ProtocolKind)> {
    detect_from(buses, w, 0)
}

fn contains_bus(v: &Vec<u8>, bus: u8) -> (r: bool)
    ensures
        r == v@.contains(bus),
{
    let mut i: usize = 0;
    while i < v.len()
        invariant
            i <= v@.len(),
            forall|j: int| 0 <= j < i ==> v@[j] != bus,
        decreases v@.len() - i,
    {
        if v[i] == bus {
            return true;
        }
        i = i + 1;
    }
    false
}

impl BusWiring {
    /// The outcome of carrying out `a` on this wiring.
    pub fn outcome(&self, a: ProbeAction) -> (r: bool)
        ensures
            r == outcome_spec(*self, a),
    {
        match a {
            ProbeAction::OpenBus(b) => contains_bus(&self.openable, b),
            ProbeAction::Probe { bus, addr } => {
                (addr == CHIP_A_ADDR && contains_bus(&self.chip_a, bus)) || (addr == CHIP_B_ADDR
                    && contains_bus(&self.chip_b, bus))
            },
            ProbeAction::Sleep(_) => true,
            _ => false,
        }
    }
}

spec fn stage_rank(s: ProbeStage) -> int {
    match s {
        ProbeStage::Open => 3,
        ProbeStage::TryA => 2,
        ProbeStage::TryB => 1,
        _ => 0,
    }
}

/// What a run from state `v` against the fixed wiring `w` ends with.
pub open spec fn eventual_result(v: ProberView, w: BusWiring) -> Option<(u8, ProtocolKind)> {
    match v.stage {
        ProbeStage::Found(k) => Some((v.bus(), k)),
        ProbeStage::Exhausted => None,
        _ => detect_from(v.buses, w, v.index as int),
    }
}

/// The state agrees with what the wiring has answered on the current bus.
pub open spec fn consistent_with(v: ProberView, w: BusWiring) -> bool {
    &&& v.stage is TryA ==> opens(w, v.bus())
    &&& v.stage is TryB ==> opens(w, v.bus()) && !answers_a(w, v.bus())
    &&& v.stage is Pause ==> opens(w, v.bus()) && !answers_a(w, v.bus()) && !answers_b(
        w,
        v.bus(),
    )
}

/// The state of a new prober over `buses`.
pub open spec fn fresh_prober(buses: Seq<u8>, attempts: nat) -> ProberView {
    ProberView {
        buses,
        attempts,
        index: 0,
        attempt: 0,
        stage: if buses.len() == 0 {
            ProbeStage::Exhausted
        } else {
            ProbeStage::Open
        },
    }
}

/// Detection is repeatable: a new prober, whatever its number of rounds,
/// is bound for the bus-major search result, and every step taken against a
/// fixed wiring keeps that destination. So probing the same wiring again
/// always ends with the same converter on the same bus.
pub proof fn lemma_probe_step_keeps_result(v: ProberView, w: BusWiring)
    requires
        v.wf(),
        consistent_with(v, w),
    ensures
        v.stage is Open && v.index == 0 ==> eventual_result(v, w) == detect_spec(v.buses, w),
        v.buses.len() == 0 && v.stage is Exhausted ==> eventual_result(v, w) == detect_spec(
            v.buses,
            w,
        ),
        v.step(outcome_spec(w, v.action())).wf(),
        consistent_with(v.step(outcome_spec(w, v.action())), w),
        eventual_result(v.step(outcome_spec(w, v.action())), w) == eventual_result(v, w),
{
    let ok = outcome_spec(w, v.action());
    if v.stage is Pause || (v.stage is Open && !ok) {
        assert(detect_from(v.buses, w, v.index as int) == detect_from(
            v.buses,
            w,
            v.index + 1 as int,
        ));
    }
}

/// Runs a prober over `buses` against a fixed wiring until it ends. The
/// result depends on the buses and the wiring alone, not on the number of
/// rounds: probing the same wiring again gives the same converter on the
/// same bus.
pub fn detect(buses: Vec<u8>, attempts: u32, wiring: &BusWiring) -> (r: Option<(u8, ProtocolKind)>)
    requires
        attempts >= 1,
    ensures
        r == detect_spec(buses@, *wiring),
{
    let ghost bv = buses@;
    let ghost w = *wiring;
    let mut p = Prober::new(buses, attempts);
    proof {
        lemma_probe_step_keeps_result(p@, w);
    }
    while !p.is_done()
        invariant
            p@.wf(),
            p@.buses == bv,
            eventual_result(p@, w) == detect_spec(bv, w),
            consistent_with(p@, w),
            w == *wiring,
        decreases p@.buses.len() - p@.index, p@.attempts - p@.attempt, stage_rank(p@.stage),
    {
        let a = p.next_action();
        let ok = wiring.outcome(a);
        proof {
            lemma_probe_step_keeps_result(p@, w);
        }
        p.on_outcome(ok);
    }
    match p.next_action() {
        ProbeAction::Found(b, k) => Some((b, k)),
        _ => None,
    }
}

/// The search is bus-major and address-minor: a result names the first bus
/// in the list on which detection can succeed, with ChipA preferred on it,
/// and no result means that it can succeed on none of them.
pub proof fn lemma_detect_first_match(buses: Seq<u8>, w: BusWiring)
    ensures
        detect_spec(buses, w) matches Some((b, k)) ==> exists|i: int|
            #![trigger buses[i]]
            0 <= i < buses.len() && buses[i] == b && opens(w, b) && (forall|j: int|
                0 <= j < i ==> bus_fails(w, buses[j])) && (k == ProtocolKind::ChipA ==> answers_a(
                w,
                b,
            )) && (k == ProtocolKind::ChipB ==> !answers_a(w, b) && answers_b(w, b)),
        detect_spec(buses, w) is None ==> forall|i: int|
            0 <= i < buses.len() ==> bus_fails(w, buses[i]),
{
    lemma_detect_from(buses, w, 0);
}

proof fn lemma_detect_from(buses: Seq<u8>, w: BusWiring, s: int)
    requires
        0 <= s <= buses.len(),
    ensures
        detect_from(buses, w, s) matches Some((b, k)) ==> exists|i: int|
            #![trigger buses[i]]
            s <= i < buses.len() && buses[i] == b && opens(w, b) && (forall|j: int|
                s <= j < i ==> bus_fails(w, buses[j])) && (k == ProtocolKind::ChipA ==> answers_a(
                w,
                b,
            )) && (k == ProtocolKind::ChipB ==> !answers_a(w, b) && answers_b(w, b)),
        detect_from(buses, w, s) is None ==> forall|i: int|
            s <= i < buses.len() ==> bus_fails(w, buses[i]),
    decreases buses.len() - s,
{
    if s < buses.len() {
        lemma_detect_from(buses, w, s + 1);
        if !(opens(w, buses[s]) && (answers_a(w, buses[s]) || answers_b(w, buses[s]))) {
            if let Some((b, k)) = detect_from(buses, w, s + 1) {
                let i = choose|i: int|
                    #![trigger buses[i]]
                    s + 1 <= i < buses.len() && buses[i] == b && opens(w, b) && (forall|j: int|
                        s + 1 <= j < i ==> bus_fails(w, buses[j])) && (k == ProtocolKind::ChipA
                        ==> answers_a(w, b)) && (k == ProtocolKind::ChipB ==> !answers_a(w, b)
                        && answers_b(w, b));
                assert(forall|j: int| s <= j < i ==> bus_fails(w, buses[j]));
            }
        }
    }
}

} // verus!
