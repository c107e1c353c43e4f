//! An in-memory implementation of the three hardware ports.
//!
//! [`SimBus`] holds the register file and FIFOs of one chip and implements
//! [`BusDevice`] exactly as the model in [`crate::chip`] prescribes, which
//! shows that the port contracts are satisfiable; [`SimPin`] and [`SimDelay`]
//! do the same for the chip-enable line and the delay provider.  The tests
//! run the driver against these.
//!
//! Events a real radio would cause on its own — a packet arriving, a flag
//! latching — are entered through explicit methods, and every port can be
//! switched into a faulting state in which all its operations fail.

use vstd::prelude::*;

verus! {

use crate::chip::ChipState;
use crate::chip::RxPayload;
use crate::chip::chip_after_command;
use crate::chip::chip_after_read;
use crate::chip::chip_wf;
use crate::chip::fifo_status_byte;
use crate::chip::lemma_command_preserves_wf;
use crate::chip::lemma_fixed_opcodes_distinct;
use crate::chip::lemma_read_preserves_wf;
use crate::chip::multibyte_register;
use crate::chip::reg_read_byte;
use crate::chip::reg_store;
use crate::chip::reset_state;
use crate::chip::status_byte;
use crate::chip::valid_command_frame;
use crate::chip::valid_read_frame;
use crate::chip::writable_register;
use crate::device::BusDevice;
use crate::device::ChipEnable;
use crate::device::Delay;

/// The error every faulted simulated port reports.
#[derive(Copy, Clone, PartialEq, Eq, Structural, Debug)]
pub struct SimError;

/// One payload in the simulated receive FIFO.
struct SimPacket {
    pipe: u8,
    data: Vec<u8>,
}

/// The sequence of transmit payloads as the model sees it.
spec fn tx_view(s: Seq<Vec<u8>>) -> Seq<Seq<u8>> {
    Seq::new(s.len(), |i: int| s[i]@)
}

/// The sequence of received payloads as the model sees it.
spec fn rx_view(s: Seq<SimPacket>) -> Seq<RxPayload> {
    Seq::new(s.len(), |i: int| RxPayload { pipe: s[i].pipe, data: s[i].data@ })
}

/// Copy a byte slice into an owned vector.
fn copy_bytes(data: &[u8]) -> (v: Vec<u8>)
    ensures
        v@ == data@,
{
    let mut v: Vec<u8> = Vec::new();
    let mut i: usize = 0;
    while i < data.len()
        invariant
            i <= data@.len(),
            v@ == data@.take(i as int),
        decreases data@.len() - i,
    {
        v.push(data[i]);
        i += 1;
    }
    proof {
        assert(v@ =~= data@);
    }
    v
}

/// A vector of five equal address bytes.
fn addr5(b: u8) -> (v: Vec<u8>)
    ensures
        v@ == seq![b, b, b, b, b],
{
    let mut v: Vec<u8> = Vec::new();
    v.push(b);
    v.push(b);
    v.push(b);
    v.push(b);
    v.push(b);
    proof {
        assert(v@ =~= seq![b, b, b, b, b]);
    }
    v
}

/// A simulated chip on the far end of the bus.
pub struct SimBus {
    config: u8,
    en_aa: u8,
    en_rxaddr: u8,
    setup_aw: u8,
    setup_retr: u8,
    rf_ch: u8,
    rf_setup: u8,
    flags: u8,
    observe_tx: u8,
    cd: u8,
    rx_addr_p0: Vec<u8>,
    rx_addr_p1: Vec<u8>,
    rx_addr_p2: u8,
    rx_addr_p3: u8,
    rx_addr_p4: u8,
    rx_addr_p5: u8,
    tx_addr: Vec<u8>,
    rx_pw_p0: u8,
    rx_pw_p1: u8,
    rx_pw_p2: u8,
    rx_pw_p3: u8,
    rx_pw_p4: u8,
    rx_pw_p5: u8,
    dynpd: u8,
    feature: u8,
    tx_fifo: Vec<Vec<u8>>,
    rx_fifo: Vec<SimPacket>,
    fault: bool,
}

impl SimBus {
    /// The model state this simulated chip is in.
    pub closed spec fn chip_state(&self) -> ChipState {
        ChipState {
            config: self.config,
            en_aa: self.en_aa,
            en_rxaddr: self.en_rxaddr,
            setup_aw: self.setup_aw,
            setup_retr: self.setup_retr,
            rf_ch: self.rf_ch,
            rf_setup: self.rf_setup,
            flags: self.flags,
            observe_tx: self.observe_tx,
            cd: self.cd,
            rx_addr_p0: self.rx_addr_p0@,
            rx_addr_p1: self.rx_addr_p1@,
            rx_addr_p2: self.rx_addr_p2,
            rx_addr_p3: self.rx_addr_p3,
            rx_addr_p4: self.rx_addr_p4,
            rx_addr_p5: self.rx_addr_p5,
            tx_addr: self.tx_addr@,
            rx_pw_p0: self.rx_pw_p0,
            rx_pw_p1: self.rx_pw_p1,
            rx_pw_p2: self.rx_pw_p2,
            rx_pw_p3: self.rx_pw_p3,
            rx_pw_p4: self.rx_pw_p4,
            rx_pw_p5: self.rx_pw_p5,
            dynpd: self.dynpd,
            feature: self.feature,
            tx_fifo: tx_view(self.tx_fifo@),
            rx_fifo: rx_view(self.rx_fifo@),
        }
    }

    /// Whether the bus is in the faulting state.
    pub closed spec fn spec_fault(&self) -> bool {
        self.fault
    }

    /// A chip fresh out of reset.
    pub fn new() -> (r: Self)
        ensures
            r.chip_state() == reset_state(),
            chip_wf(r.chip_state()),
            !r.spec_fault(),
    {
        let r = SimBus {
            config: 0b0000_1000,
            en_aa: 0b0011_1111,
            en_rxaddr: 0b0000_0011,
            setup_aw: 0b0000_0011,
            setup_retr: 0b0000_0011,
            rf_ch: 0b0000_0010,
            rf_setup: 0b0000_1110,
            flags: 0,
            observe_tx: 0,
            cd: 0,
            rx_addr_p0: addr5(0xe7),
            rx_addr_p1: addr5(0xc2),
            rx_addr_p2: 0xc3,
            rx_addr_p3: 0xc4,
            rx_addr_p4: 0xc5,
            rx_addr_p5: 0xc6,
            tx_addr: addr5(0xe7),
            rx_pw_p0: 0,
            rx_pw_p1: 0,
            rx_pw_p2: 0,
            rx_pw_p3: 0,
            rx_pw_p4: 0,
            rx_pw_p5: 0,
            dynpd: 0,
            feature: 0,
            tx_fifo: Vec::new(),
            rx_fifo: Vec::new(),
            fault: false,
        };
        proof {
            assert(0u8 & 0b1000_1111 == 0) by (bit_vector);
            assert(r.chip_state() =~= reset_state());
        }
        r
    }

    /// Switch the bus into or out of the faulting state; the chip itself is
    /// untouched.
    pub fn set_fault(&mut self, fault: bool)
        ensures
            final(self).chip_state() == old(self).chip_state(),
            final(self).spec_fault() == fault,
    {
        self.fault = fault;
    }

    /// A packet arrives over the air on the given pipe: it enters the receive
    /// FIFO and latches the data-ready flag, unless the FIFO is full, in
    /// which case it is lost.
    pub fn push_rx_packet(&mut self, pipe: u8, data: &[u8])
        requires
            pipe < 6,
            1 <= data@.len() <= 32,
        ensures
            final(self).chip_state() == (if old(self).chip_state().rx_fifo.len() < 3 {
                ChipState {
                    flags: old(self).chip_state().flags | 0b0100_0000,
                    rx_fifo: old(self).chip_state().rx_fifo.push(
                        RxPayload { pipe, data: data@ },
                    ),
                    ..old(self).chip_state()
                }
            } else {
                old(self).chip_state()
            }),
            final(self).spec_fault() == old(self).spec_fault(),
    {
        if self.rx_fifo.len() < 3 {
            self.flags = self.flags | 0b0100_0000;
            let packet = SimPacket { pipe, data: copy_bytes(data) };
            self.rx_fifo.push(packet);
            proof {
                assert(rx_view(self.rx_fifo@) =~= rx_view(old(self).rx_fifo@).push(
                    RxPayload { pipe, data: data@ },
                ));
            }
        }
    }

    /// The radio gives up on an unacknowledged packet: the max-retries flag
    /// latches.
    pub fn trigger_max_retries(&mut self)
        ensures
            final(self).chip_state() == (ChipState {
                flags: old(self).chip_state().flags | 0b0001_0000,
                ..old(self).chip_state()
            }),
            final(self).spec_fault() == old(self).spec_fault(),
    {
        self.flags = self.flags | 0b0001_0000;
    }

    /// The radio sends a packet successfully: the data-sent flag latches.
    pub fn trigger_data_sent(&mut self)
        ensures
            final(self).chip_state() == (ChipState {
                flags: old(self).chip_state().flags | 0b0010_0000,
                ..old(self).chip_state()
            }),
            final(self).spec_fault() == old(self).spec_fault(),
    {
        self.flags = self.flags | 0b0010_0000;
    }

    /// Inspect a register, as a single-byte read of it would return it.
    pub fn register(&self, addr: u8) -> (r: u8)
        ensures
            r == reg_read_byte(self.chip_state(), addr),
    {
        self.read_register_byte(addr)
    }

    /// The number of payloads waiting in the transmit FIFO.
    pub fn tx_fifo_len(&self) -> (r: usize)
        ensures
            r == self.chip_state().tx_fifo.len(),
    {
        self.tx_fifo.len()
    }

    /// The number of payloads waiting in the receive FIFO.
    pub fn rx_fifo_len(&self) -> (r: usize)
        ensures
            r == self.chip_state().rx_fifo.len(),
    {
        self.rx_fifo.len()
    }

    /// A copy of the transmit payload at the given queue position.
    pub fn tx_payload(&self, i: usize) -> (r: Vec<u8>)
        requires
            i < self.chip_state().tx_fifo.len(),
        ensures
            r@ == self.chip_state().tx_fifo[i as int],
    {
        copy_bytes(self.tx_fifo[i].as_slice())
    }

    /// The status byte the chip would return right now.
    fn status_byte_now(&self) -> (r: u8)
        ensures
            r == status_byte(self.chip_state()),
    {
        let pipe: u8 = if self.rx_fifo.len() == 0 {
            7
        } else {
            self.rx_fifo[0].pipe
        };
        let txf: u8 = if self.tx_fifo.len() >= 3 {
            1
        } else {
            0
        };
        self.flags | (pipe << 1) | txf
    }

    /// The byte a single-byte read of the given register returns.
    fn read_register_byte(&self, addr: u8) -> (r: u8)
        ensures
            r == reg_read_byte(self.chip_state(), addr),
    {
        if addr == 0x00 {
            self.config
        } else if addr == 0x01 {
            self.en_aa
        } else if addr == 0x02 {
            self.en_rxaddr
        } else if addr == 0x03 {
            self.setup_aw
        } else if addr == 0x04 {
            self.setup_retr
        } else if addr == 0x05 {
            self.rf_ch
        } else if addr == 0x06 {
            self.rf_setup
        } else if addr == 0x07 {
            self.status_byte_now()
        } else if addr == 0x08 {
            self.observe_tx
        } else if addr == 0x09 {
            self.cd
        } else if addr == 0x0a {
            if self.rx_addr_p0.len() > 0 {
                self.rx_addr_p0[0]
            } else {
                0
            }
        } else if addr == 0x0b {
            if self.rx_addr_p1.len() > 0 {
                self.rx_addr_p1[0]
            } else {
                0
            }
        } else if addr == 0x0c {
            self.rx_addr_p2
        } else if addr == 0x0d {
            self.rx_addr_p3
        } else if addr == 0x0e {
            self.rx_addr_p4
        } else if addr == 0x0f {
            self.rx_addr_p5
        } else if addr == 0x10 {
            if self.tx_addr.len() > 0 {
                self.tx_addr[0]
            } else {
                0
            }
        } else if addr == 0x11 {
            self.rx_pw_p0
        } else if addr == 0x12 {
            self.rx_pw_p1
        } else if addr == 0x13 {
            self.rx_pw_p2
        } else if addr == 0x14 {
            self.rx_pw_p3
        } else if addr == 0x15 {
            self.rx_pw_p4
        } else if addr == 0x16 {
            self.rx_pw_p5
        } else if addr == 0x17 {
            let t_full: u8 = if self.tx_fifo.len() >= 3 {
                0b0010_0000
            } else {
                0
            };
            let t_empty: u8 = if self.tx_fifo.len() == 0 {
                0b0001_0000
            } else {
                0
            };
            let r_full: u8 = if self.rx_fifo.len() >= 3 {
                0b0000_0010
            } else {
                0
            };
            let r_empty: u8 = if self.rx_fifo.len() == 0 {
                0b0000_0001
            } else {
                0
            };
            t_full | t_empty | r_full | r_empty
        } else if addr == 0x1c {
            self.dynpd
        } else if addr == 0x1d {
            self.feature
        } else {
            0
        }
    }

    /// Store a register write into the register file.
    fn store_register(&mut self, addr: u8, data: &[u8])
        requires
            writable_register(addr),
            multibyte_register(addr) ==> 1 <= data@.len() <= 5,
            !multibyte_register(addr) ==> data@.len() == 1,
        ensures
            final(self).chip_state() == reg_store(old(self).chip_state(), addr, data@),
            final(self).spec_fault() == old(self).spec_fault(),
    {
        let b = data[0];
        if addr == 0x00 {
            self.config = b;
        } else if addr == 0x01 {
            self.en_aa = b;
        } else if addr == 0x02 {
            self.en_rxaddr = b;
        } else if addr == 0x03 {
            self.setup_aw = b;
        } else if addr == 0x04 {
            self.setup_retr = b;
        } else if addr == 0x05 {
            self.rf_ch = b;
        } else if addr == 0x06 {
            self.rf_setup = b;
        } else if addr == 0x07 {
            self.flags = self.flags & !(b & 0b0111_0000);
        } else if addr == 0x0a {
            self.rx_addr_p0 = copy_bytes(data);
        } else if addr == 0x0b {
            self.rx_addr_p1 = copy_bytes(data);
        } else if addr == 0x0c {
            self.rx_addr_p2 = b;
        } else if addr == 0x0d {
            self.rx_addr_p3 = b;
        } else if addr == 0x0e {
            self.rx_addr_p4 = b;
        } else if addr == 0x0f {
            self.rx_addr_p5 = b;
        } else if addr == 0x10 {
            self.tx_addr = copy_bytes(data);
        } else if addr == 0x11 {
            self.rx_pw_p0 = b;
        } else if addr == 0x12 {
            self.rx_pw_p1 = b;
        } else if addr == 0x13 {
            self.rx_pw_p2 = b;
        } else if addr == 0x14 {
            self.rx_pw_p3 = b;
        } else if addr == 0x15 {
            self.rx_pw_p4 = b;
        } else if addr == 0x16 {
            self.rx_pw_p5 = b;
        } else if addr == 0x1c {
            self.dynpd = b;
        } else if addr == 0x1d {
            self.feature = b;
        }
    }
}

impl BusDevice for SimBus {
    type Error = SimError;

    open spec fn chip(&self) -> ChipState {
        self.chip_state()
    }

    fn transfer_write(&mut self, op: u8, data: &[u8]) -> (r: Result<u8, SimError>) {
        if self.fault {
            return Err(SimError);
        }
        let st = self.status_byte_now();
        proof {
            lemma_fixed_opcodes_distinct();
            if chip_wf(old(self).chip_state()) {
                lemma_command_preserves_wf(old(self).chip_state(), op, data@);
            }
        }
        if (op & 0b1110_0000) == 0b0010_0000 {
            self.store_register(op & 0b0001_1111, data);
        } else if op == 0b1010_0000 {
            if self.tx_fifo.len() < 3 {
                let payload = copy_bytes(data);
                self.tx_fifo.push(payload);
                proof {
                    assert(tx_view(self.tx_fifo@) =~= tx_view(old(self).tx_fifo@).push(data@));
                }
            }
        } else if op == 0b1110_0001 {
            self.tx_fifo.clear();
            proof {
                assert(tx_view(self.tx_fifo@) =~= Seq::empty());
            }
        } else if op == 0b1110_0010 {
            self.rx_fifo.clear();
            proof {
                assert(rx_view(self.rx_fifo@) =~= Seq::empty());
            }
        }
        Ok(st)
    }

    fn transfer_read(&mut self, op: u8, n: usize) -> (r: Result<(u8, Vec<u8>), SimError>) {
        if self.fault {
            return Err(SimError);
        }
        let st = self.status_byte_now();
        proof {
            lemma_fixed_opcodes_distinct();
            if chip_wf(old(self).chip_state()) {
                lemma_read_preserves_wf(old(self).chip_state(), op);
            }
        }
        if op == 0b0110_0001 {
            let mut out: Vec<u8> = Vec::new();
            if self.rx_fifo.len() > 0 {
                let front = self.rx_fifo.remove(0);
                proof {
                    assert(front.data@ == old(self).chip_state().rx_fifo[0].data);
                    assert(rx_view(self.rx_fifo@) =~= rx_view(old(self).rx_fifo@).drop_first());
                }
                let mut i: usize = 0;
                while i < n
                    invariant
                        i <= n,
                        out@.len() == i,
                        forall|j: int|
                            0 <= j < i ==> out@[j] == (if j < front.data@.len() {
                                front.data@[j]
                            } else {
                                0u8
                            }),
                    decreases n - i,
                {
                    let byte: u8 = if i < front.data.len() {
                        front.data[i]
                    } else {
                        0
                    };
                    out.push(byte);
                    i += 1;
                }
                Ok((st, out))
            } else {
                let mut i: usize = 0;
                while i < n
                    invariant
                        i <= n,
                        out@.len() == i,
                    decreases n - i,
                {
                    out.push(0);
                    i += 1;
                }
                Ok((st, out))
            }
        } else {
            let b = self.read_register_byte(op);
            let mut out: Vec<u8> = Vec::new();
            out.push(b);
            Ok((st, out))
        }
    }
}

/// A simulated chip-enable line.
pub struct SimPin {
    high: bool,
    fault: bool,
}

impl SimPin {
    /// The level the line is driven to.
    pub closed spec fn spec_level(&self) -> bool {
        self.high
    }

    /// Whether the line is in the faulting state.
    pub closed spec fn spec_fault(&self) -> bool {
        self.fault
    }

    /// A line driven low.
    pub fn new() -> (r: Self)
        ensures
            !r.spec_level(),
            !r.spec_fault(),
    {
        SimPin { high: false, fault: false }
    }

    /// Switch the line into or out of the faulting state.
    pub fn set_fault(&mut self, fault: bool)
        ensures
            final(self).spec_level() == old(self).spec_level(),
            final(self).spec_fault() == fault,
    {
        self.fault = fault;
    }

    /// The level the line is driven to.
    pub fn is_high(&self) -> (r: bool)
        ensures
            r == self.spec_level(),
    {
        self.high
    }
}

impl ChipEnable for SimPin {
    type Error = SimError;

    open spec fn level(&self) -> bool {
        self.spec_level()
    }

    fn set_high(&mut self) -> (r: Result<(), SimError>) {
        if self.fault {
            Err(SimError)
        } else {
            self.high = true;
            Ok(())
        }
    }

    fn set_low(&mut self) -> (r: Result<(), SimError>) {
        if self.fault {
            Err(SimError)
        } else {
            self.high = false;
            Ok(())
        }
    }
}

/// A simulated delay provider: it keeps count of the time requested and
/// blocks for no real time.
pub struct SimDelay {
    elapsed: Ghost<nat>,
}

impl SimDelay {
    /// A provider with no time requested yet.
    pub fn new() -> (r: Self)
        ensures
            r.elapsed_us() == 0,
    {
        SimDelay { elapsed: Ghost(0) }
    }
}

impl Delay for SimDelay {
    closed spec fn elapsed_us(&self) -> nat {
        self.elapsed@
    }

    fn delay_ms(&mut self, ms: u32) {
        self.elapsed = Ghost(self.elapsed@ + ms as nat * 1000);
    }

    fn delay_us(&mut self, us: u32) {
        self.elapsed = Ghost(self.elapsed@ + us as nat);
    }
}

} // verus!
