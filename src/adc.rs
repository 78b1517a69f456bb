use vstd::prelude::*;

verus! {

/// Bus address of the PCF8591-style converter.
pub const CHIP_A_ADDR: u16 = 0x48;

/// Bus address of the ADS7830-style converter.
pub const CHIP_B_ADDR: u16 = 0x4b;

/// The two supported converter protocols.
#[derive(Clone, Copy, Debug, PartialEq, Eq, Structural)]
pub enum ProtocolKind {
    /// PCF8591 style: four channels, one stale read before each sample.
    ChipA,
    /// ADS7830 style: eight channels, one read per sample.
    ChipB,
}

/// A channel index that the detected converter does not have.
#[derive(Clone, Copy, Debug, PartialEq, Eq, Structural)]
pub enum AdcError {
    InvalidChannel(u8),
}

/// One bus operation of a sampling transaction.
#[derive(Clone, Copy, Debug, PartialEq, Eq, Structural)]
pub enum BusOp {
    /// Select the device to talk to.
    SetAddress(u16),
    /// Write one command byte.
    Write(u8),
    /// Read one byte.
    Read,
}

pub open spec fn address_spec(kind: ProtocolKind) -> u16 {
    match kind {
        ProtocolKind::ChipA => CHIP_A_ADDR,
        ProtocolKind::ChipB => CHIP_B_ADDR,
    }
}

pub open spec fn channel_count_spec(kind: ProtocolKind) -> int {
    match kind {
        ProtocolKind::ChipA => 4,
        ProtocolKind::ChipB => 8,
    }
}

/// Reads per sample: the first read of ChipA returns the previous conversion.
pub open spec fn reads_per_sample_spec(kind: ProtocolKind) -> int {
    match kind {
        ProtocolKind::ChipA => 2,
        ProtocolKind::ChipB => 1,
    }
}

/// ChipB's multiplexer order: single-ended input, internal reference.
pub open spec fn chip_b_command_spec(channel: int) -> u8 {
    if channel == 0 {
        0x84
    } else if channel == 1 {
        0xc4
    } else if channel == 2 {
        0x94
    } else if channel == 3 {
        0xd4
    } else if channel == 4 {
        0xa4
    } else if channel == 5 {
        0xe4
    } else if channel == 6 {
        0xb4
    } else {
        0xf4
    }
}

pub open spec fn command_spec(kind: ProtocolKind, channel: u8) -> u8 {
    match kind {
        ProtocolKind::ChipA => 0x40u8 | channel,
        ProtocolKind::ChipB => chip_b_command_spec(channel as int),
    }
}

pub open spec fn ops_spec(kind: ProtocolKind, channel: u8) -> Seq<BusOp> {
    let head = seq![BusOp::SetAddress(address_spec(kind)), BusOp::Write(command_spec(kind, channel))];
    match kind {
        ProtocolKind::ChipA => head + seq![BusOp::Read, BusOp::Read],
        ProtocolKind::ChipB => head + seq![BusOp::Read],
    }
}

/// Bus address of a converter.
pub fn chip_address(kind: ProtocolKind) -> (r: u16)
    ensures
        r == address_spec(kind),
{
    match kind {
        ProtocolKind::ChipA => CHIP_A_ADDR,
        ProtocolKind::ChipB => CHIP_B_ADDR,
    }
}

/// Number of input channels of a converter.
pub fn channel_count(kind: ProtocolKind) -> (r: u8)
    ensures
        r == channel_count_spec(kind),
{
    match kind {
        ProtocolKind::ChipA => 4,
        ProtocolKind::ChipB => 8,
    }
}

/// Number of reads in one sampling transaction.
pub fn reads_per_sample(kind: ProtocolKind) -> (r: usize)
    ensures
        r == reads_per_sample_spec(kind),
{
    match kind {
        ProtocolKind::ChipA => 2,
        ProtocolKind::ChipB => 1,
    }
}

/// The command byte that selects `channel` and starts a conversion; a channel
/// that the converter does not have is refused.
pub fn command_byte(kind: ProtocolKind, channel: u8) -> (r: Result<u8, AdcError>)
    ensures
        channel < channel_count_spec(kind) ==> r == Ok::<u8, AdcError>(command_spec(kind, channel)),
        channel >= channel_count_spec(kind) ==> r == Err::<u8, AdcError>(
            AdcError::InvalidChannel(channel),
        ),
{
    match kind {
        ProtocolKind::ChipA => {
            if channel < 4 {
                Ok(0x40u8 | channel)
            } else {
                Err(AdcError::InvalidChannel(channel))
            }
        },
        ProtocolKind::ChipB => {
            match channel {
                0 => Ok(0x84u8),
                1 => Ok(0xc4u8),
                2 => Ok(0x94u8),
                3 => Ok(0xd4u8),
                4 => Ok(0xa4u8),
                5 => Ok(0xe4u8),
                6 => Ok(0xb4u8),
                7 => Ok(0xf4u8),
                _ => Err(AdcError::InvalidChannel(channel)),
            }
        },
    }
}

/// The bus operations that sample `channel`, in order: select the converter,
/// write the command byte, then read as many bytes as the protocol needs.
pub fn sample_ops(kind: ProtocolKind, channel: u8) -> (r: Result<Vec<BusOp>, AdcError>)
    ensures
        channel < channel_count_spec(kind) ==> (r matches Ok(ops) && ops@ == ops_spec(
            kind,
            channel,
        )),
        channel >= channel_count_spec(kind) ==> r == Err::<Vec<BusOp>, AdcError>(
            AdcError::InvalidChannel(channel),
        ),
{
    let cmd = match command_byte(kind, channel) {
        Ok(c) => c,
        Err(e) => {
            return Err(e);
        },
    };
    let mut ops: Vec<BusOp> = Vec::new();
    ops.push(BusOp::SetAddress(chip_address(kind)));
    ops.push(BusOp::Write(cmd));
    ops.push(BusOp::Read);
    if let ProtocolKind::ChipA = kind {
        ops.push(BusOp::Read);
    }
    assert(ops@ =~= ops_spec(kind, channel));
    Ok(ops)
}

/// The sample carried by the bytes read in one transaction: the last read,
/// the earlier one of ChipA being a stale conversion. A transaction cut short
/// by a bus error (fewer reads than the protocol needs) gives no sample.
pub fn finish_sample(kind: ProtocolKind, reads: &Vec<u8>) -> (r: Option<u8>)
    ensures
        reads@.len() == reads_per_sample_spec(kind) ==> r == Some(reads@.last()),
        reads@.len() != reads_per_sample_spec(kind) ==> r is None,
{
    if reads.len() == reads_per_sample(kind) {
        Some(reads[reads.len() - 1])
    } else {
        None
    }
}

/// The duty value of a channel after one sampling transaction: the new
/// sample when the transaction completed, the previous value otherwise.
pub open spec fn next_duty_spec(kind: ProtocolKind, prev: u8, reads: Seq<u8>) -> u8 {
    if reads.len() == reads_per_sample_spec(kind) {
        reads.last()
    } else {
        prev
    }
}

/// Samples a fixed list of channels of the detected converter and keeps the
/// latest duty value of each; a failed transaction keeps the previous value.
pub struct Sampler {
    kind: ProtocolKind,
    channels: Vec<u8>,
    duties: Vec<u8>,
}

impl View for Sampler {
    type V = Seq<u8>;

    /// The duty value of each configured channel, in configuration order.
    closed spec fn view(&self) -> Seq<u8> {
        self.duties@
    }
}

impl Sampler {
    pub closed spec fn kind_spec(&self) -> ProtocolKind {
        self.kind
    }

    pub closed spec fn channels_spec(&self) -> Seq<u8> {
        self.channels@
    }

    pub closed spec fn wf(&self) -> bool {
        &&& self.duties@.len() == self.channels@.len()
        &&& forall|i: int|
            0 <= i < self.channels@.len() ==> self.channels@[i] < channel_count_spec(self.kind)
    }

    /// A sampler for `channels` of a `kind` converter, every duty value at
    /// zero. The first channel that the converter does not have is refused.
    pub fn new(kind: ProtocolKind, channels: Vec<u8>) -> (r: Result<Sampler, AdcError>)
        ensures
            (forall|i: int| 0 <= i < channels@.len() ==> channels@[i] < channel_count_spec(kind))
                ==> (r matches Ok(s) && s.wf() && s.kind_spec() == kind && s.channels_spec()
                == channels@ && s@ == Seq::new(channels@.len(), |i: int| 0u8)),
            r matches Err(AdcError::InvalidChannel(c)) ==> exists|i: int|
                0 <= i < channels@.len() && channels@[i] == c && c >= channel_count_spec(kind)
                    && forall|j: int| 0 <= j < i ==> channels@[j] < channel_count_spec(kind),
            (exists|i: int| 0 <= i < channels@.len() && channels@[i] >= channel_count_spec(kind))
                ==> r is Err,
    {
        let count = channel_count(kind);
        let mut duties: Vec<u8> = Vec::new();
        let mut i: usize = 0;
        while i < channels.len()
            invariant
                i <= channels@.len(),
                count == channel_count_spec(kind),
                duties@ == Seq::new(i as nat, |k: int| 0u8),
                forall|j: int| 0 <= j < i ==> channels@[j] < channel_count_spec(kind),
            decreases channels@.len() - i,
        {
            if channels[i] >= count {
                return Err(AdcError::InvalidChannel(channels[i]));
            }
            duties.push(0);
            assert(duties@ =~= Seq::new((i + 1) as nat, |k: int| 0u8));
            i = i + 1;
        }
        Ok(Sampler { kind, channels, duties })
    }

    /// The converter this sampler talks to.
    pub fn kind(&self) -> (r: ProtocolKind)
        ensures
            r == self.kind_spec(),
    {
        self.kind
    }

    /// Number of configured channels.
    pub fn len(&self) -> (r: usize)
        requires
            self.wf(),
        ensures
            r == self@.len(),
            r == self.channels_spec().len(),
    {
        self.duties.len()
    }

    /// The latest duty value of the channel in `slot`.
    pub fn duty(&self, slot: usize) -> (r: u8)
        requires
            self.wf(),
            slot < self@.len(),
        ensures
            r == self@[slot as int],
    {
        self.duties[slot]
    }

    /// The bus operations that sample the channel in `slot`.
    pub fn ops(&self, slot: usize) -> (r: Vec<BusOp>)
        requires
            self.wf(),
            slot < self@.len(),
        ensures
            r@ == ops_spec(self.kind_spec(), self.channels_spec()[slot as int]),
    {
        match sample_ops(self.kind, self.channels[slot]) {
            Ok(ops) => ops,
            Err(_) => Vec::new(),
        }
    }

    /// Applies the bytes read by one transaction on the channel in `slot`: a
    /// complete transaction publishes its sample, one cut short by a bus
    /// error leaves that channel's duty value as it was.
    pub fn record(&mut self, slot: usize, reads: &Vec<u8>)
        requires
            old(self).wf(),
            slot < old(self)@.len(),
        ensures
            final(self).wf(),
            final(self).kind_spec() == old(self).kind_spec(),
            final(self).channels_spec() == old(self).channels_spec(),
            final(self)@ == old(self)@.update(
                slot as int,
                next_duty_spec(old(self).kind_spec(), old(self)@[slot as int], reads@),
            ),
            reads@.len() != reads_per_sample_spec(old(self).kind_spec()) ==> final(self)@ == old(
                self,
            )@,
    {
        match finish_sample(self.kind, reads) {
            Some(v) => {
                self.duties.set(slot, v);
            },
            None => {
                assert(self.duties@ =~= self.duties@.update(slot as int, self.duties@[slot as int]));
            },
        }
    }
}

/// The discard-then-keep rule of ChipA: a sample takes exactly two reads, and
/// the first of them never reaches the result.
pub proof fn lemma_chip_a_discards_one_read(channel: u8, stale: u8, fresh: u8)
    requires
        channel < 4,
    ensures
        ops_spec(ProtocolKind::ChipA, channel).filter(|op: BusOp| op == BusOp::Read).len() == 2,
        command_spec(ProtocolKind::ChipA, channel) == 0x40u8 | channel,
        0x40u8 | channel == 0x40 + channel,
        seq![stale, fresh].last() == fresh,
{
    let s = ops_spec(ProtocolKind::ChipA, channel);
    let f = |op: BusOp| op == BusOp::Read;
    reveal_with_fuel(Seq::filter, 5);
    assert(s.drop_last().drop_last().drop_last().drop_last() =~= Seq::<BusOp>::empty());
    assert(s.drop_last().drop_last().drop_last().filter(f) =~= Seq::<BusOp>::empty());
    assert(s.drop_last().drop_last().filter(f) =~= Seq::<BusOp>::empty());
    assert(s.drop_last().filter(f) =~= seq![BusOp::Read]);
    assert(0x40u8 | channel == 0x40 + channel) by (bit_vector)
        requires
            channel < 4,
    ;
}

/// ChipB's command table is one to one over channels 0..7: each channel has
/// its own command byte, so the table is a bijection onto its eight bytes.
pub proof fn lemma_chip_b_table_bijective()
    ensures
        forall|i: int, j: int|
            #![trigger chip_b_command_spec(i), chip_b_command_spec(j)]
            0 <= i < 8 && 0 <= j < 8 && chip_b_command_spec(i) == chip_b_command_spec(j) ==> i
                == j,
{
}

} // verus!
