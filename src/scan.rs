//! The scan controller: a state machine that walks every address of the
//! chip, asks for one sample per address, and hands out one dump line per
//! group of sixteen bytes.
//!
//! The machine does no I/O. Each call of [`Scanner::step`] takes the event
//! that answered the previous action and returns the next action for the
//! caller to carry out on the hardware.

use crate::dump::{format_group, group_line};
use crate::lines::{bit_levels, encode_address, low_levels};
use vstd::arithmetic::power2::*;
use vstd::bits::*;
use vstd::prelude::*;

verus! {

/// Bytes per group, and so per dump line.
pub const GROUP_SIZE: usize = 16;

/// The widest address bus the driver can carry.
pub const MAX_ADDRESS_LINES: usize = 32;

/// The fixed facts of one build: chip size, bus width, rendering and timing.
#[derive(Clone, Copy, Debug, PartialEq, Eq)]
pub struct ScanConfig {
    /// Bytes in the chip; every address below it is read.
    pub capacity: u32,
    /// Number of address lines.
    pub address_lines: usize,
    /// Whether each dump line carries the ASCII column.
    pub with_ascii: bool,
    /// Settling delay between driving an address and sampling, in microseconds.
    pub settle_us: u32,
}

/// Why a configuration was refused.
#[derive(Clone, Copy, Debug, PartialEq, Eq)]
pub enum ConfigError {
    /// More address lines than an address can drive.
    TooManyAddressLines,
    /// The capacity does not split into whole groups.
    CapacityNotGroupMultiple,
    /// The address lines cannot reach every byte of the capacity.
    TooFewAddressLines,
}

impl ScanConfig {
    /// A configuration the scan can run on.
    pub open spec fn valid(self) -> bool {
        &&& self.address_lines <= MAX_ADDRESS_LINES
        &&& self.capacity % 16 == 0
        &&& self.capacity <= pow2(self.address_lines as nat)
    }

    /// Number of dump lines a full scan emits.
    pub open spec fn group_count(self) -> nat {
        self.capacity as nat / 16
    }

    /// Checks a configuration once, before any scan.
    pub fn new(capacity: u32, address_lines: usize, with_ascii: bool, settle_us: u32) -> (r: Result<
        ScanConfig,
        ConfigError,
    >)
        ensures
            address_lines > MAX_ADDRESS_LINES ==> r == Err::<ScanConfig, ConfigError>(
                ConfigError::TooManyAddressLines,
            ),
            address_lines <= MAX_ADDRESS_LINES && capacity % 16 != 0 ==> r == Err::<
                ScanConfig,
                ConfigError,
            >(ConfigError::CapacityNotGroupMultiple),
            address_lines <= MAX_ADDRESS_LINES && capacity % 16 == 0 && capacity > pow2(
                address_lines as nat,
            ) ==> r == Err::<ScanConfig, ConfigError>(ConfigError::TooFewAddressLines),
            r is Ok <==> (ScanConfig { capacity, address_lines, with_ascii, settle_us }).valid(),
            r is Ok ==> r->Ok_0 == (ScanConfig { capacity, address_lines, with_ascii, settle_us }),
    {
        if address_lines > MAX_ADDRESS_LINES {
            return Err(ConfigError::TooManyAddressLines);
        }
        if capacity % 16 != 0 {
            return Err(ConfigError::CapacityNotGroupMultiple);
        }
        if address_lines < 32 {
            let reach: u64 = 1u64 << (address_lines as u64);
            proof {
                lemma_u64_pow2_no_overflow(address_lines as nat);
                lemma_u64_shl_is_mul(1, address_lines as u64);
            }
            if capacity as u64 > reach {
                return Err(ConfigError::TooFewAddressLines);
            }
        } else {
            proof {
                lemma2_to64();
            }
        }
        Ok(ScanConfig { capacity, address_lines, with_ascii, settle_us })
    }
}

/// Where the scan stands.
#[derive(Clone, Copy, Debug, PartialEq, Eq)]
pub enum Phase {
    /// Before the lines are set up.
    Init,
    /// Walking the addresses.
    Scanning,
    /// Every address has been reported; nothing more happens.
    Done,
}

/// What answered the previous action.
#[derive(Clone, Copy, Debug, PartialEq, Eq)]
pub enum Event {
    /// The previous action was carried out and returned nothing.
    Ready,
    /// The data lines were sampled and read as this byte.
    Sampled(u8),
}

/// What the caller carries out next.
#[derive(Debug, PartialEq, Eq)]
pub enum Action {
    /// Drive the address lines to these levels (all low), enable the chip
    /// and turn the activity indicator on.
    Setup { address_levels: Vec<bool> },
    /// Drive the address lines to these levels, wait the settling delay,
    /// then sample the data lines and answer with `Event::Sampled`.
    Sample { address: u32, address_levels: Vec<bool> },
    /// Write this line to the output and set the activity indicator to this
    /// level.
    Emit { line: String, indicator: bool },
    /// Turn the activity indicator off: the scan is complete.
    Finish,
    /// Nothing: the scan stays complete.
    Halted,
}

/// The abstract state of a scan.
pub struct ScanState {
    pub config: ScanConfig,
    pub phase: Phase,
    /// The next address to sample.
    pub address: nat,
    /// The bytes of the group being collected, in address order.
    pub group: Seq<u8>,
    /// Dump lines handed out so far.
    pub groups_emitted: nat,
    /// Level of the activity indicator.
    pub indicator: bool,
    /// A `Sample` action is outstanding.
    pub awaiting_sample: bool,
}

impl ScanState {
    /// The invariant of every reachable state.
    pub open spec fn wf(self) -> bool {
        &&& self.config.valid()
        &&& self.group.len() < GROUP_SIZE
        &&& self.address == self.groups_emitted * 16 + self.group.len()
        &&& self.address <= self.config.capacity
        &&& self.phase is Init ==> self.address == 0 && !self.indicator
        &&& !(self.phase is Scanning) ==> !self.awaiting_sample
        &&& self.phase is Scanning ==> self.indicator == (self.groups_emitted % 2 == 0)
        &&& self.awaiting_sample ==> self.address < self.config.capacity
        &&& self.phase is Done ==> {
            &&& self.address == self.config.capacity
            &&& self.group.len() == 0
            &&& self.groups_emitted == self.config.group_count()
            &&& !self.indicator
        }
    }

    /// The events that answer the outstanding action.
    pub open spec fn accepts(self, event: Event) -> bool {
        match self.phase {
            Phase::Init => event is Ready,
            Phase::Scanning => if self.awaiting_sample {
                event is Sampled
            } else {
                event is Ready
            },
            Phase::Done => true,
        }
    }

    /// Whether this event completes a group.
    pub open spec fn emits(self, event: Event) -> bool {
        &&& self.phase is Scanning
        &&& self.awaiting_sample
        &&& event is Sampled
        &&& self.group.len() + 1 == GROUP_SIZE
    }

    /// The state after `event`.
    pub open spec fn after(self, event: Event) -> ScanState {
        match self.phase {
            Phase::Init => ScanState { phase: Phase::Scanning, indicator: true, ..self },
            Phase::Scanning => if !self.awaiting_sample {
                if self.address < self.config.capacity {
                    ScanState { awaiting_sample: true, ..self }
                } else {
                    ScanState { phase: Phase::Done, indicator: false, ..self }
                }
            } else {
                match event {
                    Event::Sampled(b) => if self.group.len() + 1 == GROUP_SIZE {
                        ScanState {
                            address: self.address + 1,
                            group: Seq::empty(),
                            groups_emitted: self.groups_emitted + 1,
                            indicator: !self.indicator,
                            awaiting_sample: false,
                            ..self
                        }
                    } else {
                        ScanState { address: self.address + 1, group: self.group.push(b), ..self }
                    },
                    Event::Ready => self,
                }
            },
            Phase::Done => self,
        }
    }

    /// An upper bound on the steps before the scan is complete.
    pub open spec fn steps_left(self) -> nat {
        match self.phase {
            Phase::Init => 3 * self.config.capacity as nat + 3,
            Phase::Scanning => (3 * (self.config.capacity - self.address) + if self.awaiting_sample {
                1int
            } else {
                2int
            }) as nat,
            Phase::Done => 0,
        }
    }
}

/// The action a step hands out, given the state before it and its event.
pub open spec fn action_for(s: ScanState, event: Event, action: Action) -> bool {
    let lines = s.config.address_lines as nat;
    match s.phase {
        Phase::Init => action matches Action::Setup { address_levels } && address_levels@ == Seq::new(
            lines,
            |i: int| false,
        ),
        Phase::Scanning => if !s.awaiting_sample {
            if s.address < s.config.capacity {
                action matches Action::Sample { address, address_levels } && address == s.address
                    && address_levels@ == bit_levels(s.address, lines)
            } else {
                action is Finish
            }
        } else {
            match event {
                Event::Sampled(b) => if s.group.len() + 1 == GROUP_SIZE {
                    action matches Action::Emit { line, indicator } && line@ == group_line(
                        s.group.push(b),
                        s.config.with_ascii,
                    ) && indicator == !s.indicator
                } else {
                    action matches Action::Sample { address, address_levels } && address
                        == s.address + 1 && address_levels@ == bit_levels(s.address + 1, lines)
                },
                Event::Ready => false,
            }
        },
        Phase::Done => action is Halted,
    }
}

/// A scan emits exactly one line per group. Each step emits at most one
/// line, only while fewer than `capacity / 16` have gone out; each step before
/// completion brings the scan closer to its end; once complete, it stays so
/// with exactly `capacity / 16` lines emitted, and nothing more happens.
pub proof fn lemma_scan_emits_each_group_once(s: ScanState, event: Event)
    requires
        s.wf(),
        s.accepts(event),
    ensures
        s.after(event).wf(),
        s.groups_emitted <= s.config.group_count(),
        s.after(event).groups_emitted == s.groups_emitted + if s.emits(event) {
            1nat
        } else {
            0nat
        },
        s.emits(event) ==> s.groups_emitted < s.config.group_count(),
        !(s.phase is Done) ==> s.after(event).steps_left() < s.steps_left(),
        s.phase is Done <==> s.steps_left() == 0,
        s.phase is Done ==> s.groups_emitted == s.config.group_count() && s.after(event) == s,
{
    let cap = s.config.capacity as nat;
    assert(s.groups_emitted <= cap / 16) by (nonlinear_arith)
        requires
            s.groups_emitted * 16 + s.group.len() <= cap,
            s.group.len() >= 0,
    ;
    if s.emits(event) {
        assert(s.groups_emitted < cap / 16) by (nonlinear_arith)
            requires
                s.groups_emitted * 16 + 15 < cap,
                cap % 16 == 0,
        ;
    }
    if s.phase is Scanning && !s.awaiting_sample && s.address >= cap {
        assert(s.group.len() == 0 && s.groups_emitted == cap / 16) by (nonlinear_arith)
            requires
                s.address == s.groups_emitted * 16 + s.group.len(),
                s.group.len() < 16,
                s.address == cap,
                cap % 16 == 0,
        ;
    }
    if s.phase is Scanning && s.awaiting_sample && s.group.len() + 1 < GROUP_SIZE {
        assert(s.address + 1 < cap) by (nonlinear_arith)
            requires
                s.address == s.groups_emitted * 16 + s.group.len(),
                s.group.len() + 1 < 16,
                s.address < cap,
                cap % 16 == 0,
        ;
    }
}

/// The activity indicator toggles with each emitted line and with nothing
/// else while scanning, and it is off once the scan is complete.
pub proof fn lemma_indicator_toggles_per_group(s: ScanState, event: Event)
    requires
        s.wf(),
        s.accepts(event),
    ensures
        s.phase is Done ==> !s.indicator,
        s.after(event).phase is Done ==> !s.after(event).indicator,
        s.emits(event) ==> s.after(event).indicator == !s.indicator,
        s.phase is Scanning && s.after(event).phase is Scanning && !s.emits(event)
            ==> s.after(event).indicator == s.indicator,
{
    lemma_scan_emits_each_group_once(s, event);
}

/// A scan in progress over one configuration.
pub struct Scanner {
    config: ScanConfig,
    phase: Phase,
    address: u32,
    group: Vec<u8>,
    groups_emitted: u32,
    indicator: bool,
    awaiting_sample: bool,
}

impl View for Scanner {
    type V = ScanState;

    closed spec fn view(&self) -> ScanState {
        ScanState {
            config: self.config,
            phase: self.phase,
            address: self.address as nat,
            group: self.group@,
            groups_emitted: self.groups_emitted as nat,
            indicator: self.indicator,
            awaiting_sample: self.awaiting_sample,
        }
    }
}

impl Scanner {
    /// A scan that has not started: the lines are not set up yet and the
    /// indicator is off.
    pub fn new(config: ScanConfig) -> (r: Scanner)
        requires
            config.valid(),
        ensures
            r@ == (ScanState {
                config,
                phase: Phase::Init,
                address: 0,
                group: Seq::empty(),
                groups_emitted: 0,
                indicator: false,
                awaiting_sample: false,
            }),
            r@.wf(),
    {
        Scanner {
            config,
            phase: Phase::Init,
            address: 0,
            group: Vec::new(),
            groups_emitted: 0,
            indicator: false,
            awaiting_sample: false,
        }
    }

    /// Where the scan stands.
    pub fn phase(&self) -> (r: Phase)
        ensures
            r == self@.phase,
    {
        self.phase
    }

    /// The level of the activity indicator.
    pub fn indicator(&self) -> (r: bool)
        ensures
            r == self@.indicator,
    {
        self.indicator
    }

    /// Dump lines handed out so far.
    pub fn groups_emitted(&self) -> (r: u32)
        ensures
            r == self@.groups_emitted,
    {
        self.groups_emitted
    }

    /// Whether a `Sample` action is outstanding, so that the next event must
    /// be `Event::Sampled`; otherwise it must be `Event::Ready`.
    pub fn expects_sample(&self) -> (r: bool)
        ensures
            r == self@.awaiting_sample,
    {
        self.awaiting_sample
    }

    /// Takes the event that answered the previous action and returns the
    /// next action.
    pub fn step(&mut self, event: Event) -> (action: Action)
        requires
            old(self)@.wf(),
            old(self)@.accepts(event),
        ensures
            final(self)@ == old(self)@.after(event),
            final(self)@.wf(),
            action_for(old(self)@, event, action),
            action is Emit <==> old(self)@.emits(event),
            !(old(self)@.phase is Done) ==> final(self)@.steps_left() < old(self)@.steps_left(),
    {
        match self.phase {
            Phase::Init => {
                self.phase = Phase::Scanning;
                self.indicator = true;
                Action::Setup { address_levels: low_levels(self.config.address_lines) }
            },
            Phase::Scanning => {
                if !self.awaiting_sample {
                    if self.address < self.config.capacity {
                        self.awaiting_sample = true;
                        Action::Sample {
                            address: self.address,
                            address_levels: encode_address(self.address, self.config.address_lines),
                        }
                    } else {
                        proof {
                            assert(self.group@.len() == 0) by (nonlinear_arith)
                                requires
                                    self.address == self.groups_emitted * 16 + self.group@.len(),
                                    self.group@.len() < 16,
                                    self.address == self.config.capacity,
                                    self.config.capacity % 16 == 0,
                            ;
                            assert(self.groups_emitted == self.config.capacity / 16) by (nonlinear_arith)
                                requires
                                    self.address == self.groups_emitted * 16,
                                    self.address == self.config.capacity,
                            ;
                        }
                        self.phase = Phase::Done;
                        self.indicator = false;
                        Action::Finish
                    }
                } else {
                    let b = match event {
                        Event::Sampled(b) => b,
                        Event::Ready => 0,
                    };
                    self.group.push(b);
                    self.address = self.address + 1;
                    if self.group.len() == GROUP_SIZE {
                        let line = format_group(self.group.as_slice(), self.config.with_ascii);
                        self.group = Vec::new();
                        self.groups_emitted = self.groups_emitted + 1;
                        self.indicator = !self.indicator;
                        self.awaiting_sample = false;
                        Action::Emit { line, indicator: self.indicator }
                    } else {
                        proof {
                            assert(self.address < self.config.capacity) by (nonlinear_arith)
                                requires
                                    self.address == self.groups_emitted * 16 + self.group@.len(),
                                    0 < self.group@.len() < 16,
                                    self.address <= self.config.capacity,
                                    self.config.capacity % 16 == 0,
                            ;
                        }
                        Action::Sample {
                            address: self.address,
                            address_levels: encode_address(self.address, self.config.address_lines),
                        }
                    }
                }
            },
            Phase::Done => Action::Halted,
        }
    }
}

} // verus!
