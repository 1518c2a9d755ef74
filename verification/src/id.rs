use vstd::prelude::*;

verus! {

/// Number of bits below the timestamp.
pub const TIMESTAMP_SHIFT: u64 = 22;

/// Number of bits below the datacenter id.
pub const DATACENTER_SHIFT: u64 = 17;

/// The bits that hold the datacenter id.
pub const DATACENTER_MASK: u64 = 0x3E0000;

/// Number of bits below the machine id.
pub const MACHINE_SHIFT: u64 = 12;

/// The bits that hold the machine id.
pub const MACHINE_MASK: u64 = 0x1F000;

/// The bits that hold the sequence number.
pub const SEQUENCE_MASK: u64 = 0xFFF;

/// One more than the largest datacenter id that fits within 5 bits.
pub const DATACENTER_MAX: i32 = 32;

/// One more than the largest machine id that fits within 5 bits.
pub const MACHINE_MAX: i32 = 32;

/// One more than the largest sequence number that fits within 12 bits.
pub const SEQUENCE_MAX: i32 = 4096;

/// The four fields of a snowflake, as numbers.
pub struct Fields {
    /// Milliseconds since the epoch, below 2^42.
    pub timestamp: nat,
    /// Datacenter id, below 32.
    pub datacenter_id: nat,
    /// Machine id, below 32.
    pub machine_id: nat,
    /// Sequence number inside the millisecond, below 4096.
    pub sequence: nat,
}

impl Fields {
    /// Each field is within its width.
    pub open spec fn wf(self) -> bool {
        &&& self.timestamp < 0x400_0000_0000
        &&& self.datacenter_id < 32
        &&& self.machine_id < 32
        &&& self.sequence < 4096
    }

    /// The number that holds the fields side by side, the timestamp on top.
    pub open spec fn value(self) -> nat {
        self.timestamp * 0x40_0000 + self.datacenter_id * 0x2_0000 + self.machine_id * 0x1000
            + self.sequence
    }

    /// Order by timestamp, then datacenter id, then machine id, then sequence.
    pub open spec fn precedes(self, other: Fields) -> bool {
        ||| self.timestamp < other.timestamp
        ||| self.timestamp == other.timestamp && self.datacenter_id < other.datacenter_id
        ||| self.timestamp == other.timestamp && self.datacenter_id == other.datacenter_id
            && self.machine_id < other.machine_id
        ||| self.timestamp == other.timestamp && self.datacenter_id == other.datacenter_id
            && self.machine_id == other.machine_id && self.sequence < other.sequence
    }
}

/// A (hopefully) unique snowflake.
///
/// The flake consists of a timestamp, datacenter id, machine id and a sequence
/// number. Any 64 bits are a flake: making one tests nothing.
#[derive(Clone, Copy, Debug)]
pub struct Flake(pub u64);

impl View for Flake {
    type V = Fields;

    /// The fields that the 64 bits hold. Every 64-bit value holds four fields.
    open spec fn view(&self) -> Fields {
        Fields {
            timestamp: (self.0 / 0x40_0000) as nat,
            datacenter_id: (self.0 / 0x2_0000 % 32) as nat,
            machine_id: (self.0 / 0x1000 % 32) as nat,
            sequence: (self.0 % 0x1000) as nat,
        }
    }
}

impl Flake {
    /// The four values are each within the width of their field.
    pub open spec fn fits(
        timestamp: u64,
        datacenter_id: i32,
        machine_id: i32,
        sequence: i32,
    ) -> bool {
        &&& timestamp < 0x400_0000_0000
        &&& 0 <= datacenter_id < 32
        &&& 0 <= machine_id < 32
        &&& 0 <= sequence < 4096
    }

    /// The 64 bits made from four values of any size. A value that is too wide
    /// for its field spills into the fields above it; a timestamp that is too
    /// wide loses its top bits.
    pub open spec fn pack(
        timestamp: u64,
        datacenter_id: i32,
        machine_id: i32,
        sequence: i32,
    ) -> u64 {
        (timestamp << 22) | ((datacenter_id as u64) << 17) | ((machine_id as u64) << 12)
            | (sequence as u64)
    }

    /// Creates a new flake.
    ///
    /// The timestamp must fit within 42 bits, the datacenter and machine id
    /// within 5 bits, and the sequence within 12 bits, for the flake to hold
    /// them. This is not tested here, so it is up to the caller to ensure it:
    /// values that do not fit are packed as [`Flake::pack`] says.
    pub fn new(timestamp: u64, datacenter_id: i32, machine_id: i32, sequence: i32) -> (flake: Flake)
        ensures
            flake.0 == Flake::pack(timestamp, datacenter_id, machine_id, sequence),
            Flake::fits(timestamp, datacenter_id, machine_id, sequence) ==> ({
                &&& flake.0 == timestamp * 0x40_0000 + datacenter_id * 0x2_0000 + machine_id
                    * 0x1000 + sequence
                &&& flake@ == (Fields {
                    timestamp: timestamp as nat,
                    datacenter_id: datacenter_id as nat,
                    machine_id: machine_id as nat,
                    sequence: sequence as nat,
                })
            }),
    {
        let milliseconds: u64 = timestamp << TIMESTAMP_SHIFT;
        let datacenter_bits: u64 = (#[verifier::truncate] (datacenter_id as u64))
            << DATACENTER_SHIFT;
        let machine_bits: u64 = (#[verifier::truncate] (machine_id as u64)) << MACHINE_SHIFT;
        let sequence_bits: u64 = #[verifier::truncate] (sequence as u64);

        proof {
            if Flake::fits(timestamp, datacenter_id, machine_id, sequence) {
                lemma_pack_value(timestamp, datacenter_id, machine_id, sequence);
                lemma_round_trip(timestamp, datacenter_id, machine_id, sequence);
            }
        }
        Flake(milliseconds | datacenter_bits | machine_bits | sequence_bits)
    }

    /// Gets the timestamp contained in the snowflake. This can be at most 42 bits.
    pub fn timestamp(&self) -> (timestamp: u64)
        ensures
            timestamp == self@.timestamp,
            timestamp < 0x400_0000_0000,
    {
        let bits: u64 = self.0;
        assert(bits >> 22 == bits / 0x40_0000 && bits >> 22 < 0x400_0000_0000) by (bit_vector);
        self.0 >> TIMESTAMP_SHIFT
    }

    /// Gets the datacenter ID contained in the snowflake. This can be at most 5 bits.
    pub fn datacenter_id(&self) -> (datacenter_id: u64)
        ensures
            datacenter_id == self@.datacenter_id,
            datacenter_id < 32,
    {
        let bits: u64 = self.0;
        assert((bits & 0x3E0000) >> 17 == bits / 0x2_0000 % 32) by (bit_vector);
        (self.0 & DATACENTER_MASK) >> DATACENTER_SHIFT
    }

    /// Gets the machine ID contained in the snowflake. This can be at most 5 bits.
    pub fn machine_id(&self) -> (machine_id: u64)
        ensures
            machine_id == self@.machine_id,
            machine_id < 32,
    {
        let bits: u64 = self.0;
        assert((bits & 0x1F000) >> 12 == bits / 0x1000 % 32) by (bit_vector);
        (self.0 & MACHINE_MASK) >> MACHINE_SHIFT
    }

    /// Gets the sequence contained in the snowflake. This can be at most 12 bits.
    pub fn sequence(&self) -> (sequence: u64)
        ensures
            sequence == self@.sequence,
            sequence < 4096,
    {
        let bits: u64 = self.0;
        assert(bits & 0xFFF == bits % 0x1000) by (bit_vector);
        self.0 & SEQUENCE_MASK
    }
}

/// Packing values that fit puts them side by side: the 64 bits are the number
/// `timestamp * 2^22 + datacenter_id * 2^17 + machine_id * 2^12 + sequence`.
pub proof fn lemma_pack_value(timestamp: u64, datacenter_id: i32, machine_id: i32, sequence: i32)
    requires
        Flake::fits(timestamp, datacenter_id, machine_id, sequence),
    ensures
        Flake::pack(timestamp, datacenter_id, machine_id, sequence) == timestamp * 0x40_0000
            + datacenter_id * 0x2_0000 + machine_id * 0x1000 + sequence,
{
    let d: u64 = datacenter_id as u64;
    let m: u64 = machine_id as u64;
    let s: u64 = sequence as u64;
    assert(((timestamp << 22) | (d << 17) | (m << 12) | s) == timestamp * 0x40_0000 + d * 0x2_0000
        + m * 0x1000 + s) by (bit_vector)
        requires
            timestamp < 0x400_0000_0000,
            d < 32,
            m < 32,
            s < 4096,
    ;
}

/// A field comes out of a flake as it went in where it fits and the fields
/// below it fit, whatever the fields above it are. Of a timestamp, the low 42
/// bits come out.
pub proof fn lemma_unpack(timestamp: u64, datacenter_id: i32, machine_id: i32, sequence: i32)
    ensures
        ({
            let fields = Flake(Flake::pack(timestamp, datacenter_id, machine_id, sequence))@;
            &&& 0 <= sequence < 4096 ==> fields.sequence == sequence
            &&& 0 <= sequence < 4096 && 0 <= machine_id < 32 ==> fields.machine_id == machine_id
            &&& 0 <= sequence < 4096 && 0 <= machine_id < 32 && 0 <= datacenter_id < 32 ==> ({
                &&& fields.datacenter_id == datacenter_id
                &&& fields.timestamp == timestamp % 0x400_0000_0000
            })
        }),
{
    let d: u64 = datacenter_id as u64;
    let m: u64 = machine_id as u64;
    let s: u64 = sequence as u64;
    let bits: u64 = (timestamp << 22) | (d << 17) | (m << 12) | s;
    assert(s < 4096 ==> bits % 0x1000 == s) by (bit_vector)
        requires
            bits == (timestamp << 22) | (d << 17) | (m << 12) | s,
    ;
    assert(s < 4096 && m < 32 ==> bits / 0x1000 % 32 == m) by (bit_vector)
        requires
            bits == (timestamp << 22) | (d << 17) | (m << 12) | s,
    ;
    assert(s < 4096 && m < 32 && d < 32 ==> bits / 0x2_0000 % 32 == d) by (bit_vector)
        requires
            bits == (timestamp << 22) | (d << 17) | (m << 12) | s,
    ;
    assert(s < 4096 && m < 32 && d < 32 ==> bits / 0x40_0000 == timestamp % 0x400_0000_0000)
        by (bit_vector)
        requires
            bits == (timestamp << 22) | (d << 17) | (m << 12) | s,
    ;
}

/// Unpacking is the inverse of packing: a flake packed from four values that
/// fit holds exactly these four values.
pub proof fn lemma_round_trip(timestamp: u64, datacenter_id: i32, machine_id: i32, sequence: i32)
    requires
        Flake::fits(timestamp, datacenter_id, machine_id, sequence),
    ensures
        Flake(Flake::pack(timestamp, datacenter_id, machine_id, sequence))@ == (Fields {
            timestamp: timestamp as nat,
            datacenter_id: datacenter_id as nat,
            machine_id: machine_id as nat,
            sequence: sequence as nat,
        }),
{
    lemma_unpack(timestamp, datacenter_id, machine_id, sequence);
}

/// Another timestamp changes no other field of the flake, whatever the four
/// values are.
pub proof fn lemma_timestamp_isolated(
    timestamp: u64,
    other: u64,
    datacenter_id: i32,
    machine_id: i32,
    sequence: i32,
)
    ensures
        ({
            let a = Flake(Flake::pack(timestamp, datacenter_id, machine_id, sequence))@;
            let b = Flake(Flake::pack(other, datacenter_id, machine_id, sequence))@;
            &&& a.datacenter_id == b.datacenter_id
            &&& a.machine_id == b.machine_id
            &&& a.sequence == b.sequence
        }),
{
    let d: u64 = datacenter_id as u64;
    let m: u64 = machine_id as u64;
    let s: u64 = sequence as u64;
    let a: u64 = (timestamp << 22) | (d << 17) | (m << 12) | s;
    let b: u64 = (other << 22) | (d << 17) | (m << 12) | s;
    assert(a / 0x2_0000 % 32 == b / 0x2_0000 % 32 && a / 0x1000 % 32 == b / 0x1000 % 32 && a
        % 0x1000 == b % 0x1000) by (bit_vector)
        requires
            a == (timestamp << 22) | (d << 17) | (m << 12) | s,
            b == (other << 22) | (d << 17) | (m << 12) | s,
    ;
}

/// Another datacenter id changes no other field of the flake, as long as both
/// ids fit within 5 bits, whatever the other three values are.
pub proof fn lemma_datacenter_isolated(
    timestamp: u64,
    datacenter_id: i32,
    other: i32,
    machine_id: i32,
    sequence: i32,
)
    requires
        0 <= datacenter_id < 32,
        0 <= other < 32,
    ensures
        ({
            let a = Flake(Flake::pack(timestamp, datacenter_id, machine_id, sequence))@;
            let b = Flake(Flake::pack(timestamp, other, machine_id, sequence))@;
            &&& a.timestamp == b.timestamp
            &&& a.machine_id == b.machine_id
            &&& a.sequence == b.sequence
        }),
{
    let d: u64 = datacenter_id as u64;
    let o: u64 = other as u64;
    let m: u64 = machine_id as u64;
    let s: u64 = sequence as u64;
    let a: u64 = (timestamp << 22) | (d << 17) | (m << 12) | s;
    let b: u64 = (timestamp << 22) | (o << 17) | (m << 12) | s;
    assert(a / 0x40_0000 == b / 0x40_0000 && a / 0x1000 % 32 == b / 0x1000 % 32 && a % 0x1000 == b
        % 0x1000) by (bit_vector)
        requires
            d < 32,
            o < 32,
            a == (timestamp << 22) | (d << 17) | (m << 12) | s,
            b == (timestamp << 22) | (o << 17) | (m << 12) | s,
    ;
}

/// Another machine id changes no other field of the flake, as long as both
/// ids fit within 5 bits, whatever the other three values are.
pub proof fn lemma_machine_isolated(
    timestamp: u64,
    datacenter_id: i32,
    machine_id: i32,
    other: i32,
    sequence: i32,
)
    requires
        0 <= machine_id < 32,
        0 <= other < 32,
    ensures
        ({
            let a = Flake(Flake::pack(timestamp, datacenter_id, machine_id, sequence))@;
            let b = Flake(Flake::pack(timestamp, datacenter_id, other, sequence))@;
            &&& a.timestamp == b.timestamp
            &&& a.datacenter_id == b.datacenter_id
            &&& a.sequence == b.sequence
        }),
{
    let d: u64 = datacenter_id as u64;
    let m: u64 = machine_id as u64;
    let o: u64 = other as u64;
    let s: u64 = sequence as u64;
    let a: u64 = (timestamp << 22) | (d << 17) | (m << 12) | s;
    let b: u64 = (timestamp << 22) | (d << 17) | (o << 12) | s;
    assert(a / 0x40_0000 == b / 0x40_0000 && a / 0x2_0000 % 32 == b / 0x2_0000 % 32 && a % 0x1000
        == b % 0x1000) by (bit_vector)
        requires
            m < 32,
            o < 32,
            a == (timestamp << 22) | (d << 17) | (m << 12) | s,
            b == (timestamp << 22) | (d << 17) | (o << 12) | s,
    ;
}

/// Another sequence number changes no other field of the flake, as long as
/// both numbers fit within 12 bits, whatever the other three values are.
pub proof fn lemma_sequence_isolated(
    timestamp: u64,
    datacenter_id: i32,
    machine_id: i32,
    sequence: i32,
    other: i32,
)
    requires
        0 <= sequence < 4096,
        0 <= other < 4096,
    ensures
        ({
            let a = Flake(Flake::pack(timestamp, datacenter_id, machine_id, sequence))@;
            let b = Flake(Flake::pack(timestamp, datacenter_id, machine_id, other))@;
            &&& a.timestamp == b.timestamp
            &&& a.datacenter_id == b.datacenter_id
            &&& a.machine_id == b.machine_id
        }),
{
    let d: u64 = datacenter_id as u64;
    let m: u64 = machine_id as u64;
    let s: u64 = sequence as u64;
    let o: u64 = other as u64;
    let a: u64 = (timestamp << 22) | (d << 17) | (m << 12) | s;
    let b: u64 = (timestamp << 22) | (d << 17) | (m << 12) | o;
    assert(a / 0x40_0000 == b / 0x40_0000 && a / 0x2_0000 % 32 == b / 0x2_0000 % 32 && a / 0x1000
        % 32 == b / 0x1000 % 32) by (bit_vector)
        requires
            s < 4096,
            o < 4096,
            a == (timestamp << 22) | (d << 17) | (m << 12) | s,
            b == (timestamp << 22) | (d << 17) | (m << 12) | o,
    ;
}

/// The fields of a flake are within their widths, fill the 64 bits with no gap
/// and no overlap, and packing them gives the flake back.
pub proof fn lemma_fields_of_flake(flake: Flake)
    ensures
        flake@.wf(),
        flake@.value() == flake.0,
        Flake::pack(
            flake@.timestamp as u64,
            flake@.datacenter_id as i32,
            flake@.machine_id as i32,
            flake@.sequence as i32,
        ) == flake.0,
{
    let bits: u64 = flake.0;
    let t: u64 = bits / 0x40_0000;
    let d: u64 = bits / 0x2_0000 % 32;
    let m: u64 = bits / 0x1000 % 32;
    let s: u64 = bits % 0x1000;
    assert(t < 0x400_0000_0000 && bits == t * 0x40_0000 + d * 0x2_0000 + m * 0x1000 + s)
        by (bit_vector)
        requires
            t == bits / 0x40_0000,
            d == bits / 0x2_0000 % 32,
            m == bits / 0x1000 % 32,
            s == bits % 0x1000,
    ;
    lemma_pack_value(t, d as i32, m as i32, s as i32);
}

/// Flakes are ordered as their fields are: by timestamp first, then by
/// datacenter id, machine id and sequence.
pub proof fn lemma_order_by_fields(a: Flake, b: Flake)
    ensures
        a.0 < b.0 <==> a@.precedes(b@),
        a.0 == b.0 <==> a@ == b@,
{
    lemma_fields_of_flake(a);
    lemma_fields_of_flake(b);
}

} // verus!
