//! Telemetry records shared between the kernel probes and the collector.
//!
//! A probe writes one record per observation: sixteen bytes, two unsigned
//! 64-bit numbers, least significant byte first. The collector reads the
//! records back and decides what each one reports.

use vstd::prelude::*;

verus! {

/// One record on the probe ring: a latency sample, a disk completion, or both zero.
#[derive(Clone, Copy, Debug, PartialEq, Eq, Structural)]
pub struct ProbeEvent {
    pub duration_ns: u64,
    pub disk_bytes: u64,
}

/// Bytes in one disk sector as the block layer counts them.
pub const SECTOR_BYTES: u64 = 512;

/// Bytes in one record.
pub const RECORD_BYTES: usize = 16;

/// What a record reports about the disk.
#[derive(Clone, Copy, Debug, PartialEq, Eq, Structural)]
pub enum DiskSample {
    /// So many bytes were written.
    Bytes(u64),
    /// A record that carries nothing at all: a probe that is only a stub.
    Stub,
    /// The record is about something else.
    Nothing,
}

/// What the collector does with one record.
#[derive(Clone, Copy, Debug, PartialEq, Eq)]
pub struct ProbeReport {
    /// The connection latency to observe, in nanoseconds.
    pub latency_ns: Option<u64>,
    pub disk: DiskSample,
}

/// The number that `bytes` write, least significant byte first.
pub open spec fn le_value(bytes: Seq<u8>) -> nat
    decreases bytes.len(),
{
    if bytes.len() == 0 {
        0
    } else {
        bytes[0] as nat + 256 * le_value(bytes.skip(1))
    }
}

/// The `n` least significant bytes of `x`, least significant first.
pub open spec fn le_bytes(x: nat, n: nat) -> Seq<u8>
    decreases n,
{
    if n == 0 {
        Seq::empty()
    } else {
        seq![(x % 256) as u8] + le_bytes(x / 256, (n - 1) as nat)
    }
}

/// 256 to the power `n`.
pub open spec fn radix_pow(n: nat) -> nat
    decreases n,
{
    if n == 0 {
        1
    } else {
        256 * radix_pow((n - 1) as nat)
    }
}

/// A run of `n` bytes writes a number below 256 to the power `n`.
pub proof fn lemma_le_value_bound(bytes: Seq<u8>)
    ensures
        le_value(bytes) < radix_pow(bytes.len()),
    decreases bytes.len(),
{
    if bytes.len() > 0 {
        lemma_le_value_bound(bytes.skip(1));
    }
}

/// Writing a number that fits in `n` bytes and reading it back gives the number.
pub proof fn lemma_le_round_trip(x: nat, n: nat)
    requires
        x < radix_pow(n),
    ensures
        le_bytes(x, n).len() == n,
        le_value(le_bytes(x, n)) == x,
    decreases n,
{
    if n > 0 {
        lemma_le_round_trip(x / 256, (n - 1) as nat);
        let rest = le_bytes(x / 256, (n - 1) as nat);
        assert(le_bytes(x, n).skip(1) =~= rest);
    }
}

/// The record as the probes write it.
pub open spec fn encoded(event: ProbeEvent) -> Seq<u8> {
    le_bytes(event.duration_ns as nat, 8) + le_bytes(event.disk_bytes as nat, 8)
}

/// The record that the first sixteen bytes of `bytes` hold.
pub open spec fn decoded(bytes: Seq<u8>) -> ProbeEvent {
    ProbeEvent {
        duration_ns: le_value(bytes.subrange(0, 8)) as u64,
        disk_bytes: le_value(bytes.subrange(8, 16)) as u64,
    }
}

/// What the collector reports for a record: a latency if the record holds a
/// duration, written bytes if it holds any, and a stub if it holds nothing.
pub open spec fn report_of(event: ProbeEvent) -> ProbeReport {
    ProbeReport {
        latency_ns: if event.duration_ns > 0 {
            Some(event.duration_ns)
        } else {
            None
        },
        disk: if event.disk_bytes > 0 {
            DiskSample::Bytes(event.disk_bytes)
        } else if event.duration_ns == 0 {
            DiskSample::Stub
        } else {
            DiskSample::Nothing
        },
    }
}

proof fn lemma_radix_pow_8()
    ensures
        radix_pow(8) == 0x1_0000_0000_0000_0000,
{
    reveal_with_fuel(radix_pow, 9);
}

fn read_le(bytes: &[u8], from: usize) -> (x: u64)
    requires
        from + 8 <= bytes@.len(),
    ensures
        x == le_value(bytes@.subrange(from as int, from + 8)),
{
    let ghost word = bytes@.subrange(from as int, from + 8);
    let n = bytes.len();
    let mut x: u64 = 0;
    let mut i: usize = 8;
    proof {
        assert(word.skip(8) =~= Seq::<u8>::empty());
    }
    while i > 0
        invariant
            i <= 8,
            n == bytes@.len(),
            from + 8 <= n,
            word == bytes@.subrange(from as int, from + 8),
            x == le_value(word.skip(i as int)),
        decreases i,
    {
        i -= 1;
        let b = bytes[from + i];
        proof {
            let tail = word.skip(i as int);
            assert(tail.skip(1) =~= word.skip(i + 1));
            assert(tail[0] == b);
            lemma_le_value_bound(tail);
            lemma_radix_pow_8();
            lemma_radix_pow_grows(tail.len(), 8);
        }
        x = x * 256 + b as u64;
    }
    proof {
        assert(word.skip(0) =~= word);
    }
    x
}

proof fn lemma_radix_pow_grows(n: nat, m: nat)
    requires
        n <= m,
    ensures
        radix_pow(n) <= radix_pow(m),
    decreases m,
{
    if n < m {
        lemma_radix_pow_grows(n, (m - 1) as nat);
    }
}

fn write_le(out: &mut Vec<u8>, x: u64)
    ensures
        final(out)@ == old(out)@ + le_bytes(x as nat, 8),
{
    let ghost start = out@;
    let mut rest: u64 = x;
    let mut i: usize = 0;
    proof {
        assert(le_bytes(x as nat, 0) =~= Seq::<u8>::empty());
        assert(start + Seq::<u8>::empty() =~= start);
    }
    while i < 8
        invariant
            i <= 8,
            out@ + le_bytes(rest as nat, (8 - i) as nat) == start + le_bytes(x as nat, 8),
        decreases 8 - i,
    {
        let b: u8 = (rest % 256) as u8;
        proof {
            let more = le_bytes(rest as nat, (8 - i) as nat);
            let less = le_bytes((rest / 256) as nat, (8 - i - 1) as nat);
            assert(more == seq![b] + less);
            assert(out@.push(b) + less =~= out@ + more);
        }
        out.push(b);
        rest = rest / 256;
        i += 1;
    }
    proof {
        assert(le_bytes(rest as nat, 0) =~= Seq::<u8>::empty());
        assert(out@ + Seq::<u8>::empty() =~= out@);
    }
}

impl ProbeEvent {
    /// The record for a completed block request of `nr_sector` sectors.
    pub fn disk_completion(nr_sector: u32) -> (event: ProbeEvent)
        ensures
            event.duration_ns == 0,
            event.disk_bytes == nr_sector * 512,
    {
        let sectors: u64 = nr_sector as u64;
        ProbeEvent { duration_ns: 0, disk_bytes: sectors * SECTOR_BYTES }
    }

    /// The record for a completed block request whose sector count was read
    /// as `read`; a count that could not be read stands for no sectors.
    pub fn disk_completion_of(read: Option<u32>) -> (event: ProbeEvent)
        ensures
            event.duration_ns == 0,
            event.disk_bytes == (match read {
                Some(nr_sector) => nr_sector * 512,
                None => 0,
            }),
    {
        match read {
            Some(nr_sector) => ProbeEvent::disk_completion(nr_sector),
            None => ProbeEvent::disk_completion(0),
        }
    }

    /// The record for a connection that started at `start_ns` and was
    /// established at `end_ns`, both read from the kernel's monotonic clock.
    /// The duration is their difference on the clock's 64-bit dial.
    pub fn connect_latency(start_ns: u64, end_ns: u64) -> (event: ProbeEvent)
        ensures
            event.disk_bytes == 0,
            end_ns >= start_ns ==> event.duration_ns == end_ns - start_ns,
            end_ns < start_ns ==> event.duration_ns == end_ns - start_ns + 0x1_0000_0000_0000_0000,
    {
        ProbeEvent { duration_ns: end_ns.wrapping_sub(start_ns), disk_bytes: 0 }
    }

    /// Reads a record from the first sixteen bytes of `bytes`; `None` if
    /// there are fewer.
    pub fn from_bytes(bytes: &[u8]) -> (r: Option<ProbeEvent>)
        ensures
            r == (if bytes@.len() >= 16 {
                Some(decoded(bytes@))
            } else {
                None
            }),
    {
        if bytes.len() < RECORD_BYTES {
            return None;
        }
        let duration_ns = read_le(bytes, 0);
        let disk_bytes = read_le(bytes, 8);
        Some(ProbeEvent { duration_ns, disk_bytes })
    }

    /// Writes the record as its sixteen bytes.
    pub fn to_bytes(&self) -> (bytes: Vec<u8>)
        ensures
            bytes@ == encoded(*self),
            bytes@.len() == 16,
    {
        let mut bytes: Vec<u8> = Vec::new();
        write_le(&mut bytes, self.duration_ns);
        write_le(&mut bytes, self.disk_bytes);
        proof {
            lemma_radix_pow_8();
            lemma_le_round_trip(self.duration_ns as nat, 8);
            lemma_le_round_trip(self.disk_bytes as nat, 8);
            assert(bytes@ =~= encoded(*self));
        }
        bytes
    }

    /// What the collector reports for this record.
    pub fn report(&self) -> (r: ProbeReport)
        ensures
            r == report_of(*self),
    {
        ProbeReport {
            latency_ns: if self.duration_ns > 0 {
                Some(self.duration_ns)
            } else {
                None
            },
            disk: if self.disk_bytes > 0 {
                DiskSample::Bytes(self.disk_bytes)
            } else if self.duration_ns == 0 {
                DiskSample::Stub
            } else {
                DiskSample::Nothing
            },
        }
    }
}

/// The packet count after one more packet: one for the first packet, and
/// round the 32-bit dial after the last count it can show.
pub fn next_packet_count(current: Option<u32>) -> (count: u32)
    ensures
        count == (match current {
            Some(n) => if n < u32::MAX {
                (n + 1) as u32
            } else {
                0u32
            },
            None => 1u32,
        }),
{
    match current {
        Some(n) => n.wrapping_add(1),
        None => 1,
    }
}

/// A record that was written is read back unchanged.
pub proof fn lemma_record_round_trip(event: ProbeEvent)
    ensures
        encoded(event).len() == 16,
        decoded(encoded(event)) == event,
{
    lemma_radix_pow_8();
    lemma_le_round_trip(event.duration_ns as nat, 8);
    lemma_le_round_trip(event.disk_bytes as nat, 8);
    let bytes = encoded(event);
    assert(bytes.subrange(0, 8) =~= le_bytes(event.duration_ns as nat, 8));
    assert(bytes.subrange(8, 16) =~= le_bytes(event.disk_bytes as nat, 8));
}

} // verus!
