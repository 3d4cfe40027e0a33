//! Touch controller (Hynitron CST816S on I2C address 0x15): its bring-up
//! sequence, register framing, and the decoding of its touch reports.
use vstd::prelude::*;

verus! {

/// I2C address of the touch controller.
pub const ADDRESS: u8 = 0x15;

/// Length of a touch report, read from register 0.
pub const REPORT_LEN: usize = 7;

/// A gesture recognised by the touch controller.
#[derive(Clone, Copy, Debug, PartialEq, Eq, Structural, Hash)]
pub enum Gesture {
    SlideDown,
    SlideUp,
    SlideLeft,
    SlideRight,
    SingleTap,
    DoubleTap,
    LongPress,
}

/// The controller's code for each gesture.
pub open spec fn gesture_code(g: Gesture) -> u8 {
    match g {
        Gesture::SlideDown => 0x01,
        Gesture::SlideUp => 0x02,
        Gesture::SlideLeft => 0x03,
        Gesture::SlideRight => 0x04,
        Gesture::SingleTap => 0x05,
        Gesture::DoubleTap => 0x0B,
        Gesture::LongPress => 0x0C,
    }
}

/// The gesture with code `v`, if any.
pub open spec fn gesture_of_code(v: u8) -> Option<Gesture> {
    if v == 0x01 {
        Some(Gesture::SlideDown)
    } else if v == 0x02 {
        Some(Gesture::SlideUp)
    } else if v == 0x03 {
        Some(Gesture::SlideLeft)
    } else if v == 0x04 {
        Some(Gesture::SlideRight)
    } else if v == 0x05 {
        Some(Gesture::SingleTap)
    } else if v == 0x0B {
        Some(Gesture::DoubleTap)
    } else if v == 0x0C {
        Some(Gesture::LongPress)
    } else {
        None
    }
}

impl Gesture {
    /// The controller's code for this gesture.
    pub fn as_u8(self) -> (r: u8)
        ensures
            r == gesture_code(self),
            gesture_of_code(r) == Some(self),
    {
        match self {
            Gesture::SlideDown => 0x01,
            Gesture::SlideUp => 0x02,
            Gesture::SlideLeft => 0x03,
            Gesture::SlideRight => 0x04,
            Gesture::SingleTap => 0x05,
            Gesture::DoubleTap => 0x0B,
            Gesture::LongPress => 0x0C,
        }
    }

    /// The gesture with code `val`; `None` for a code outside the set.
    pub fn from_u8(val: u8) -> (r: Option<Self>)
        ensures
            r == gesture_of_code(val),
            r.is_some() ==> gesture_code(r.unwrap()) == val,
    {
        match val {
            0x01 => Some(Gesture::SlideDown),
            0x02 => Some(Gesture::SlideUp),
            0x03 => Some(Gesture::SlideLeft),
            0x04 => Some(Gesture::SlideRight),
            0x05 => Some(Gesture::SingleTap),
            0x0B => Some(Gesture::DoubleTap),
            0x0C => Some(Gesture::LongPress),
            _ => None,
        }
    }
}

/// A decoded touch report.
#[derive(Clone, Copy, Debug, PartialEq, Eq, Structural)]
pub struct TouchData {
    pub x: u16,
    pub y: u16,
    pub gesture: Option<Gesture>,
    pub is_touching: bool,
}

/// The report that `bytes` encodes: byte 1 is the gesture code, the low
/// nibble of byte 2 the number of touch points, and the coordinates are
/// 12-bit big-endian values in bytes 3-4 (x) and 5-6 (y), of which only the
/// low nibble of the high byte counts.
pub open spec fn touch_of_report(bytes: Seq<u8>) -> TouchData {
    TouchData {
        x: ((bytes[3] % 16) * 256 + bytes[4]) as u16,
        y: ((bytes[5] % 16) * 256 + bytes[6]) as u16,
        gesture: gesture_of_code(bytes[1]),
        is_touching: bytes[2] % 16 > 0,
    }
}

proof fn lemma_twelve_bits(hi: u8, lo: u8)
    ensures
        (lo as u16 | ((hi & 0x0F) as u16) << 8u16) == (hi % 16) as u16 * 256 + lo as u16,
        (hi & 0x0F) == hi % 16,
{
    assert((lo as u16 | ((hi & 0x0F) as u16) << 8u16) == (hi % 16) as u16 * 256 + lo as u16)
        by (bit_vector);
    assert((hi & 0x0F) == hi % 16) by (bit_vector);
}

impl TouchData {
    /// Decodes a touch report.
    pub fn from_le_bytes(bytes: &[u8; 7]) -> (r: Self)
        ensures
            r == touch_of_report(bytes@),
    {
        let gesture = Gesture::from_u8(bytes[1]);
        let num_touch_points = bytes[2] & 0x0F;
        let x_msb = bytes[3] & 0x0F;
        let x_lsb = bytes[4];
        let x = (x_lsb as u16) | ((x_msb as u16) << 8u16);
        let y_msb = bytes[5] & 0x0F;
        let y_lsb = bytes[6];
        let y = (y_lsb as u16) | ((y_msb as u16) << 8u16);
        proof {
            lemma_twelve_bits(bytes[3], bytes[4]);
            lemma_twelve_bits(bytes[5], bytes[6]);
            lemma_twelve_bits(bytes[2], 0);
        }
        TouchData { x, y, gesture, is_touching: num_touch_points > 0 }
    }
}

/// A register of the touch controller used during bring-up.
#[derive(Clone, Copy, Debug, PartialEq, Eq, Structural, Hash)]
pub enum Register {
    Wakeup0,
    Wakeup1,
    Motion,
    IrqCtl,
}

/// The address of each register.
pub open spec fn register_addr(r: Register) -> u8 {
    match r {
        Register::Wakeup0 => 0x15,
        Register::Wakeup1 => 0xA7,
        Register::Motion => 0xEC,
        Register::IrqCtl => 0xFA,
    }
}

impl Register {
    /// The register's address.
    pub fn addr(self) -> (r: u8)
        ensures
            r == register_addr(self),
    {
        match self {
            Register::Wakeup0 => 0x15,
            Register::Wakeup1 => 0xA7,
            Register::Motion => 0xEC,
            Register::IrqCtl => 0xFA,
        }
    }
}

/// One step of talking to the touch controller.
#[derive(Clone, Copy, Debug, PartialEq, Eq, Structural)]
pub enum BusOp {
    /// Drive the reset line high (`true`) or low.
    SetReset(bool),
    /// Wait this many milliseconds.
    DelayMs(u8),
    /// Write the register address, then read one byte.
    ReadRegister(u8),
    /// Write the register address and then the value.
    WriteRegister(u8, u8),
}

/// Motion register: continuous left/right and up/down sliding, double click.
pub const MOTION_CONFIG: u8 = 0b0000_0101;

/// Interrupt control: pulse low on touch, on a change of touch state, and on
/// a gesture.
pub const IRQ_CONFIG: u8 = 0b0111_0000;

/// The bring-up sequence: a reset pulse, two wake-up reads, then the motion
/// and interrupt configuration.
pub open spec fn init_sequence() -> Seq<BusOp> {
    seq![
        BusOp::SetReset(true),
        BusOp::DelayMs(50),
        BusOp::SetReset(false),
        BusOp::DelayMs(5),
        BusOp::SetReset(true),
        BusOp::DelayMs(50),
        BusOp::ReadRegister(0x15),
        BusOp::DelayMs(5),
        BusOp::ReadRegister(0xA7),
        BusOp::DelayMs(5),
        BusOp::WriteRegister(0xEC, MOTION_CONFIG),
        BusOp::WriteRegister(0xFA, IRQ_CONFIG),
    ]
}

/// The bytes written to the bus for an operation (none for the reset line
/// and delays).
pub open spec fn tx_of(op: BusOp) -> Seq<u8> {
    match op {
        BusOp::ReadRegister(a) => seq![a],
        BusOp::WriteRegister(a, v) => seq![a, v],
        _ => Seq::empty(),
    }
}

impl BusOp {
    /// The bytes written to the bus for this operation.
    pub fn tx_bytes(&self) -> (r: Vec<u8>)
        ensures
            r@ == tx_of(*self),
    {
        match *self {
            BusOp::ReadRegister(a) => vec![a],
            BusOp::WriteRegister(a, v) => vec![a, v],
            _ => Vec::new(),
        }
    }
}

/// Where bringing the touch controller up stands, given the outcomes of
/// the operations performed so far.
#[derive(Clone, Copy, Debug, PartialEq, Eq, Structural)]
pub enum InitProgress {
    /// Perform this operation next.
    Next(BusOp),
    /// Every operation succeeded.
    Done,
    /// The operation at this index failed; nothing after it is performed.
    Failed(usize),
}

/// Index of the first failure among the first `n` outcomes, if any.
pub open spec fn first_failure(outcomes: Seq<bool>, n: int) -> Option<int>
    decreases n,
{
    if n <= 0 {
        None
    } else {
        match first_failure(outcomes, n - 1) {
            Some(i) => Some(i),
            None => if !outcomes[n - 1] {
                Some(n - 1)
            } else {
                None
            },
        }
    }
}

/// A failure found among the first `m` outcomes is the first failure among
/// any longer prefix.
proof fn lemma_first_failure_stays(outcomes: Seq<bool>, m: int, n: int)
    requires
        0 <= m <= n,
        first_failure(outcomes, m) is Some,
    ensures
        first_failure(outcomes, n) == first_failure(outcomes, m),
    decreases n - m,
{
    if n > m {
        lemma_first_failure_stays(outcomes, m, n - 1);
    }
}

/// The touch controller: the last report read from it.
#[derive(Clone, Copy, Debug)]
pub struct Cst816s {
    pub buffer: [u8; 7],
}

impl Cst816s {
    /// A controller with an empty report buffer.
    pub fn new() -> (r: Self)
        ensures
            r.buffer@ == seq![0u8; 7],
    {
        let r = Cst816s { buffer: [0u8; 7] };
        assert(r.buffer@ =~= seq![0u8; 7]);
        r
    }

    /// The bus operations that bring the controller up, in order. Running
    /// them stops at the first bus error, which the caller retries.
    pub fn init(&self) -> (r: Vec<BusOp>)
        ensures
            r@ == init_sequence(),
    {
        let mut ops: Vec<BusOp> = Vec::new();
        ops.push(BusOp::SetReset(true));
        ops.push(BusOp::DelayMs(50));
        ops.push(BusOp::SetReset(false));
        ops.push(BusOp::DelayMs(5));
        ops.push(BusOp::SetReset(true));
        ops.push(BusOp::DelayMs(50));
        ops.push(Self::read_register(Register::Wakeup0));
        ops.push(BusOp::DelayMs(5));
        ops.push(Self::read_register(Register::Wakeup1));
        ops.push(BusOp::DelayMs(5));
        ops.push(Self::write_register(Register::Motion, MOTION_CONFIG));
        ops.push(Self::write_register(Register::IrqCtl, IRQ_CONFIG));
        assert(ops@ =~= init_sequence());
        ops
    }

    /// The next step of the bring-up, given the outcome of each operation
    /// performed so far, in order (`true` for success): the first failure
    /// ends it, with nothing after it performed; otherwise the next
    /// operation of the sequence, or `Done` after the last.
    pub fn init_progress(&self, outcomes: &Vec<bool>) -> (r: InitProgress)
        requires
            outcomes@.len() <= init_sequence().len(),
        ensures
            first_failure(outcomes@, outcomes@.len() as int) matches Some(i) ==> r
                == InitProgress::Failed(i as usize),
            first_failure(outcomes@, outcomes@.len() as int) is None && outcomes@.len()
                == init_sequence().len() ==> r == InitProgress::Done,
            first_failure(outcomes@, outcomes@.len() as int) is None && outcomes@.len()
                < init_sequence().len() ==> r == InitProgress::Next(
                init_sequence()[outcomes@.len() as int],
            ),
    {
        let mut i: usize = 0;
        while i < outcomes.len()
            invariant
                i <= outcomes@.len(),
                first_failure(outcomes@, i as int) is None,
            decreases outcomes@.len() - i,
        {
            if !outcomes[i] {
                assert(first_failure(outcomes@, i + 1) == Some(i as int));
                proof {
                    lemma_first_failure_stays(outcomes@, i + 1, outcomes@.len() as int);
                }
                return InitProgress::Failed(i);
            }
            i = i + 1;
        }
        let ops = self.init();
        if outcomes.len() == ops.len() {
            InitProgress::Done
        } else {
            InitProgress::Next(ops[outcomes.len()])
        }
    }

    /// Takes the outcome of reading a report (`None` for a bus error, which
    /// gives no touch data) and decodes it.
    pub fn read_touch_data(&mut self, report: Option<[u8; 7]>) -> (r: Option<TouchData>)
        ensures
            report.is_none() ==> r.is_none() && final(self).buffer@ == old(self).buffer@,
            report.is_some() ==> final(self).buffer@ == report.unwrap()@ && r == Some(
                touch_of_report(report.unwrap()@),
            ),
    {
        match report {
            None => None,
            Some(bytes) => {
                self.buffer = bytes;
                Some(TouchData::from_le_bytes(&self.buffer))
            },
        }
    }

    /// The operation that reads one register.
    pub fn read_register(register: Register) -> (r: BusOp)
        ensures
            r == BusOp::ReadRegister(register_addr(register)),
    {
        BusOp::ReadRegister(register.addr())
    }

    /// The operation that writes one register.
    pub fn write_register(register: Register, value: u8) -> (r: BusOp)
        ensures
            r == BusOp::WriteRegister(register_addr(register), value),
    {
        BusOp::WriteRegister(register.addr(), value)
    }
}

} // verus!
