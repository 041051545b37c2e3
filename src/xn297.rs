use vstd::prelude::*;

verus! {

/// Flag or-ed into a register address to make the transfer a write.
pub const REG_WRITE_CMD: u8 = 0x20;

/// The status register.
pub const STATUS_REG: u8 = 0x07;

/// Reading this address pops a frame from the receive FIFO.
pub const RX_PAYLOAD_REG: u8 = 0x61;

/// Status bit: a received frame is waiting. Writing it back as one clears it.
pub const RX_DATA_READY: u8 = 0x40;

/// Words of a FIFO read: the device status, then the two bytes of a control
/// frame.
pub const RX_FRAME_WORDS: usize = 3;

/// Words of a status transfer: the address, then the status byte.
pub const STATUS_WORDS: usize = 2;

/// The words clocked out to read a register: its address, then zeros. `len`
/// counts the address word, whose reply is the device status.
pub open spec fn read_words(register: u8, len: nat) -> Seq<u8> {
    Seq::new(len, |i: int| if i == 0 { register } else { 0u8 })
}

/// The words clocked out to write a register: `data` starts with the
/// register address, into which the write flag is or-ed.
pub open spec fn write_words(data: Seq<u8>) -> Seq<u8> {
    data.update(0, data[0] | REG_WRITE_CMD)
}

/// Frames a register read of `LEN` words.
pub fn read_command<const LEN: usize>(register: u8) -> (r: [u8; LEN])
    requires
        LEN >= 1,
    ensures
        r@ == read_words(register, LEN as nat),
{
    let mut words = [0u8; LEN];
    words[0] = register;
    assert(words@ =~= read_words(register, LEN as nat));
    words
}

/// Frames a register write: `data` is the address followed by the value.
pub fn write_command<const LEN: usize>(data: [u8; LEN]) -> (r: [u8; LEN])
    requires
        LEN >= 1,
    ensures
        r@ == write_words(data@),
{
    let mut words = data;
    words[0] = data[0] | REG_WRITE_CMD;
    assert(words@ =~= write_words(data@));
    words
}

/// Copies words into a vector.
fn words_vec(words: &[u8]) -> (r: Vec<u8>)
    ensures
        r@ == words@,
{
    let mut r: Vec<u8> = Vec::new();
    let mut i: usize = 0;
    while i < words.len()
        invariant
            i <= words@.len(),
            r@ == words@.subrange(0, i as int),
        decreases words@.len() - i,
    {
        r.push(words[i]);
        i = i + 1;
        assert(r@ =~= words@.subrange(0, i as int));
    }
    assert(r@ =~= words@);
    r
}

/// One step of driving the transceiver.
pub enum BusAction {
    /// Drive the chip-enable line high (`true`) or low.
    ChipEnable(bool),
    /// Lower chip-select, exchange these words, raise chip-select.
    Transfer(Vec<u8>),
}

/// A bus step as a value.
pub enum BusOp {
    ChipEnable(bool),
    Transfer(Seq<u8>),
}

impl View for BusAction {
    type V = BusOp;

    open spec fn view(&self) -> BusOp {
        match self {
            BusAction::ChipEnable(high) => BusOp::ChipEnable(*high),
            BusAction::Transfer(words) => BusOp::Transfer(words@),
        }
    }
}

/// The transfer that writes `data` (address first) to a register.
pub open spec fn write_op(data: Seq<u8>) -> BusOp {
    BusOp::Transfer(write_words(data))
}

/// The power-up sequence: chip-enable low, the register writes of the fixed
/// configuration in order, then chip-enable high to start listening.
pub open spec fn init_plan() -> Seq<BusOp> {
    seq![
        BusOp::ChipEnable(false),
        write_op(seq![0x01u8, 0x8E]),  // Power on.
        write_op(seq![0x07u8, 0x70]),  // Clear every status flag.
        write_op(seq![0x1Du8, 0x00]),  // Chip-enable pin switches between receive and transmit.
        write_op(seq![0x1Fu8, 0x0A, 0x6D, 0x67, 0x9C, 0x46]),  // Baseband calibration.
        write_op(seq![0x1Eu8, 0xF6, 0x37, 0x5D]),  // RF calibration.
        write_op(seq![0x19u8, 0x01]),  // Demodulator calibration.
        write_op(seq![0x1Au8, 0x45, 0x21, 0xEF, 0x2C, 0x5A, 0x40]),  // Second RF calibration block.
        write_op(seq![0x1Bu8, 0x0B, 0xDF, 0x02]),  // Second demodulator calibration block.
        write_op(seq![0x01u8, 0x03]),  // Auto-acknowledge.
        write_op(seq![0x02u8, 0x03]),  // Enable data pipes 0 and 1.
        write_op(seq![0x03u8, 0x03]),  // Address width.
        write_op(seq![0x04u8, 0x02]),  // Auto-retransmit.
        write_op(seq![0x06u8, 0x3F]),  // Data rate 1 Mbps.
        write_op(seq![0x11u8, 0x02]),  // Payload length of pipe 0.
        write_op(seq![0x12u8, 0x02]),  // Payload length of pipe 1.
        write_op(seq![0x1Cu8, 0x00]),  // Dynamic payload length off.
        write_op(seq![0x0Au8, 0xA7, 0x93, 0xB4, 0x55, 0xAA]),  // Address of pipe 0.
        write_op(seq![0x0Bu8, 0x81, 0xC6, 0xB2, 0xAA, 0x55]),  // Address of pipe 1.
        write_op(seq![0x05u8, 0x31]),  // RF channel 49.
        write_op(seq![0x00u8, 0x8F]),  // Power up in receive mode.
        BusOp::ChipEnable(true),
    ]
}

fn write_action<const LEN: usize>(data: [u8; LEN]) -> (r: BusAction)
    requires
        LEN >= 1,
    ensures
        r@ == write_op(data@),
{
    let words = write_command(data);
    BusAction::Transfer(words_vec(&words))
}

/// The bus steps that configure the transceiver and leave it listening. The
/// caller performs them in order and gives up at the first that fails.
pub fn init_sequence() -> (r: Vec<BusAction>)
    ensures
        r@.map_values(|a: BusAction| a@) == init_plan(),
{
    let mut r: Vec<BusAction> = Vec::new();
    r.push(BusAction::ChipEnable(false));
    r.push(write_action([0x01, 0x8E]));
    r.push(write_action([0x07, 0x70]));
    r.push(write_action([0x1D, 0x00]));
    r.push(write_action([0x1F, 0x0A, 0x6D, 0x67, 0x9C, 0x46]));
    r.push(write_action([0x1E, 0xF6, 0x37, 0x5D]));
    r.push(write_action([0x19, 0x01]));
    r.push(write_action([0x1A, 0x45, 0x21, 0xEF, 0x2C, 0x5A, 0x40]));
    r.push(write_action([0x1B, 0x0B, 0xDF, 0x02]));
    r.push(write_action([0x01, 0x03]));
    r.push(write_action([0x02, 0x03]));
    r.push(write_action([0x03, 0x03]));
    r.push(write_action([0x04, 0x02]));
    r.push(write_action([0x06, 0x3F]));
    r.push(write_action([0x11, 0x02]));
    r.push(write_action([0x12, 0x02]));
    r.push(write_action([0x1C, 0x00]));
    r.push(write_action([0x0A, 0xA7, 0x93, 0xB4, 0x55, 0xAA]));
    r.push(write_action([0x0B, 0x81, 0xC6, 0xB2, 0xAA, 0x55]));
    r.push(write_action([0x05, 0x31]));
    r.push(write_action([0x00, 0x8F]));
    r.push(BusAction::ChipEnable(true));
    assert(r@.map_values(|a: BusAction| a@) =~= init_plan());
    r
}

/// Where a poll of the receiver for an `N`-word frame stands.
pub enum RxPhase<const N: usize> {
    /// The status register read is on the bus.
    ReadingStatus,
    /// A frame is waiting (the status byte read is kept); the FIFO read is on
    /// the bus.
    ReadingPayload(u8),
    /// The frame has been read; the write that clears the ready flag is on
    /// the bus.
    Acknowledging([u8; N]),
    /// The poll is over.
    Done,
}

/// A poll phase as a value.
pub enum RxStage {
    ReadingStatus,
    ReadingPayload(u8),
    Acknowledging(Seq<u8>),
    Done,
}

impl<const N: usize> View for RxPhase<N> {
    type V = RxStage;

    open spec fn view(&self) -> RxStage {
        match self {
            RxPhase::ReadingStatus => RxStage::ReadingStatus,
            RxPhase::ReadingPayload(status) => RxStage::ReadingPayload(*status),
            RxPhase::Acknowledging(words) => RxStage::Acknowledging(words@),
            RxPhase::Done => RxStage::Done,
        }
    }
}

/// What a poll asks of its caller next.
pub enum RxAction<const N: usize> {
    /// Exchange these two words on the bus (the status read or the write
    /// that clears the ready flag) and hand back what came in.
    Exchange([u8; 2]),
    /// Exchange these words on the bus (the FIFO read) and hand back what
    /// came in.
    ExchangePayload([u8; N]),
    /// The poll is over: the words read from the FIFO, or `None` when no
    /// frame was waiting.
    Finish(Option<[u8; N]>),
}

/// A poll request as a value.
pub enum RxOp {
    Transfer(Seq<u8>),
    Finish(Option<Seq<u8>>),
}

impl<const N: usize> View for RxAction<N> {
    type V = RxOp;

    open spec fn view(&self) -> RxOp {
        match self {
            RxAction::Exchange(words) => RxOp::Transfer(words@),
            RxAction::ExchangePayload(words) => RxOp::Transfer(words@),
            RxAction::Finish(None) => RxOp::Finish(None),
            RxAction::Finish(Some(words)) => RxOp::Finish(Some(words@)),
        }
    }
}

/// The words that came back from the exchange a poll asked for.
pub enum RxReply<const N: usize> {
    /// The reply to an `Exchange`.
    Short([u8; 2]),
    /// The reply to an `ExchangePayload`.
    Payload([u8; N]),
}

impl<const N: usize> View for RxReply<N> {
    type V = Seq<u8>;

    open spec fn view(&self) -> Seq<u8> {
        match self {
            RxReply::Short(words) => words@,
            RxReply::Payload(words) => words@,
        }
    }
}

/// The status read that opens every poll.
pub open spec fn status_read_op() -> RxOp {
    RxOp::Transfer(read_words(STATUS_REG, STATUS_WORDS as nat))
}

/// Whether the status byte says that a frame is waiting.
pub open spec fn data_ready(status: u8) -> bool {
    status & RX_DATA_READY != 0
}

/// The next phase and request of a poll in `stage`, once the transfer it
/// asked for has come back as `reply`.
pub open spec fn rx_next(stage: RxStage, payload_len: nat, reply: Seq<u8>) -> (RxStage, RxOp) {
    match stage {
        RxStage::ReadingStatus => if data_ready(reply[1]) {
            (
                RxStage::ReadingPayload(reply[1]),
                RxOp::Transfer(read_words(RX_PAYLOAD_REG, payload_len)),
            )
        } else {
            (RxStage::Done, RxOp::Finish(None))
        },
        RxStage::ReadingPayload(status) => (
            RxStage::Acknowledging(reply),
            RxOp::Transfer(write_words(seq![STATUS_REG, status | RX_DATA_READY])),
        ),
        RxStage::Acknowledging(payload) => (RxStage::Done, RxOp::Finish(Some(payload))),
        RxStage::Done => (RxStage::Done, RxOp::Finish(None)),
    }
}

/// One non-blocking check of the receiver for an `N`-word frame (the device
/// status, then the frame): read the status register; if a frame is
/// waiting, read it from the FIFO and clear the ready flag.
///
/// The caller performs each exchange asked for and hands the reply to
/// `step`; a failed exchange ends the poll with that error.
pub struct RxPoll<const N: usize> {
    pub phase: RxPhase<N>,
}

impl<const N: usize> RxPoll<N> {
    /// Starts a poll and asks for the status read.
    pub fn start() -> (r: (RxPoll<N>, RxAction<N>))
        requires
            N >= 1,
        ensures
            r.0.phase@ == RxStage::ReadingStatus,
            r.1@ == status_read_op(),
    {
        (RxPoll { phase: RxPhase::ReadingStatus }, RxAction::Exchange(read_command(STATUS_REG)))
    }

    /// Whether `reply` has the shape of the reply to the pending exchange.
    pub open spec fn fits(self, reply: RxReply<N>) -> bool {
        match self.phase@ {
            RxStage::ReadingStatus => reply is Short,
            RxStage::ReadingPayload(_) => reply is Payload,
            _ => true,
        }
    }

    /// Advances the poll with the reply to the exchange it asked for.
    pub fn step(&mut self, reply: RxReply<N>) -> (r: RxAction<N>)
        requires
            N >= 1,
            old(self).fits(reply),
        ensures
            (final(self).phase@, r@) == rx_next(old(self).phase@, N as nat, reply@),
    {
        let mut phase = RxPhase::Done;
        std::mem::swap(&mut phase, &mut self.phase);
        match (phase, reply) {
            (RxPhase::ReadingStatus, RxReply::Short(words)) => {
                let status = words[1];
                if status & RX_DATA_READY != 0 {
                    self.phase = RxPhase::ReadingPayload(status);
                    RxAction::ExchangePayload(read_command(RX_PAYLOAD_REG))
                } else {
                    RxAction::Finish(None)
                }
            },
            (RxPhase::ReadingPayload(status), RxReply::Payload(words)) => {
                self.phase = RxPhase::Acknowledging(words);
                let clear = write_command([STATUS_REG, status | RX_DATA_READY]);
                proof {
                    let data = [STATUS_REG, status | RX_DATA_READY];
                    assert(data@ =~= seq![STATUS_REG, status | RX_DATA_READY]);
                }
                RxAction::Exchange(clear)
            },
            (RxPhase::Acknowledging(payload), _) => RxAction::Finish(Some(payload)),
            _ => RxAction::Finish(None),
        }
    }
}

/// Whether a request is the write that clears the data-ready flag.
pub open spec fn clears_ready(op: RxOp) -> bool {
    match op {
        RxOp::Transfer(words) => words.len() == 2 && words[0] == STATUS_REG | REG_WRITE_CMD
            && data_ready(words[1]),
        RxOp::Finish(_) => false,
    }
}

/// How many requests of `ops` clear the data-ready flag.
pub open spec fn count_clears(ops: Seq<RxOp>) -> nat
    decreases ops.len(),
{
    if ops.len() == 0 {
        0
    } else {
        count_clears(ops.drop_last()) + if clears_ready(ops.last()) {
            1nat
        } else {
            0nat
        }
    }
}

/// The requests of one whole poll, from the status read to the end, when the
/// status read, the FIFO read and the clearing write come back as the
/// given replies.
pub open spec fn poll_ops(
    payload_len: nat,
    status_reply: Seq<u8>,
    payload_reply: Seq<u8>,
    ack_reply: Seq<u8>,
) -> Seq<RxOp> {
    let (s1, o1) = rx_next(RxStage::ReadingStatus, payload_len, status_reply);
    if s1 is Done {
        seq![status_read_op(), o1]
    } else {
        let (s2, o2) = rx_next(s1, payload_len, payload_reply);
        let (s3, o3) = rx_next(s2, payload_len, ack_reply);
        seq![status_read_op(), o1, o2, o3]
    }
}

/// A poll ends with `None` exactly when the status shows no waiting frame;
/// otherwise it ends with the words read from the FIFO. The data-ready flag
/// is cleared once for each frame fetched, and never when none was.
pub proof fn lemma_poll_clears_ready_once(
    payload_len: nat,
    status_reply: Seq<u8>,
    payload_reply: Seq<u8>,
    ack_reply: Seq<u8>,
)
    requires
        payload_len >= 1,
        status_reply.len() == STATUS_WORDS,
        payload_reply.len() == payload_len,
    ensures
        ({
            let ops = poll_ops(payload_len, status_reply, payload_reply, ack_reply);
            &&& ops[0] == status_read_op()
            &&& (ops.last() == RxOp::Finish(None) <==> !data_ready(status_reply[1]))
            &&& data_ready(status_reply[1]) ==> ops.last() == RxOp::Finish(Some(payload_reply))
            &&& forall|k: int| 0 <= k < ops.len() - 1 ==> #[trigger] ops[k] is Transfer
            &&& count_clears(ops) == if data_ready(status_reply[1]) {
                1nat
            } else {
                0nat
            }
        }),
{
    let ops = poll_ops(payload_len, status_reply, payload_reply, ack_reply);
    let status = status_reply[1];
    assert(STATUS_REG | REG_WRITE_CMD == 0x27u8) by (bit_vector);
    assert(data_ready(status | RX_DATA_READY)) by (bit_vector);
    assert(read_words(STATUS_REG, 2)[0] == STATUS_REG);
    assert(read_words(RX_PAYLOAD_REG, payload_len)[0] == RX_PAYLOAD_REG);
    assert(!clears_ready(status_read_op()));
    if data_ready(status) {
        let w = write_words(seq![STATUS_REG, status | RX_DATA_READY]);
        assert(w[0] == STATUS_REG | REG_WRITE_CMD && w[1] == status | RX_DATA_READY);
        assert(clears_ready(ops[2]));
        assert(!clears_ready(ops[1]));
        assert(ops.drop_last().drop_last().drop_last() =~= seq![ops[0]]);
        assert(ops.drop_last().drop_last() =~= seq![ops[0], ops[1]]);
        assert(ops.drop_last() =~= seq![ops[0], ops[1], ops[2]]);
        assert(seq![ops[0]].drop_last() =~= Seq::<RxOp>::empty());
        reveal_with_fuel(count_clears, 5);
    } else {
        assert(ops.drop_last() =~= seq![ops[0]]);
        assert(seq![ops[0]].drop_last() =~= Seq::<RxOp>::empty());
        reveal_with_fuel(count_clears, 3);
    }
}

} // verus!
