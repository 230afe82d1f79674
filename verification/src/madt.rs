//! The multiple-APIC description table: fixed fields and the variable-length
//! tagged record stream that follows them.
//!
//! The record stream starts at byte offset 44 (after the 36-byte header, the
//! 32-bit local-APIC address and the 32-bit flags) and runs to the table's
//! declared length. Each record carries a 1-byte type tag and a 1-byte total
//! length; known tags are decoded into typed entries and every other tag is
//! preserved as an opaque entry, so unknown record kinds never fail the walk.
//! A record that would overrun the table, or whose length field is shorter
//! than the two bytes already read, ends the walk at that point.
use crate::le::{le16_at, le32_at};
use crate::tables::{AcpiHeader, AcpiTable, TableId};
use vstd::prelude::*;

verus! {

/// Multiple APIC Description Table: interrupt controllers and related
/// topology.
pub struct Madt {
    header: AcpiHeader,
}

impl AcpiTable for Madt {
    open spec fn spec_table_signature() -> Seq<u8> {
        TableId::spec_madt()
    }

    closed spec fn spec_header(&self) -> AcpiHeader {
        self.header
    }

    fn table_signature() -> (r: TableId) {
        TableId::madt()
    }

    fn from_header(h: AcpiHeader) -> (r: Self) {
        Madt { header: h }
    }

    fn header(&self) -> (r: &AcpiHeader) {
        &self.header
    }
}

/// Whether a processor's local APIC may be used.
#[derive(Clone, Copy, Debug, PartialEq, Eq, Structural)]
pub enum ApicStatus {
    Enabled,
    Disabled,
}

/// A processor-local interrupt controller record (tag 0).
#[derive(Clone, Copy, Debug, PartialEq, Eq, Structural)]
pub struct LocalApicEntry {
    pub uid: u8,
    pub apic_id: u8,
    pub flags: u32,
}

impl LocalApicEntry {
    pub fn uid(&self) -> (r: u8)
        ensures
            r == self.uid,
    {
        self.uid
    }

    pub fn apic_id(&self) -> (r: u8)
        ensures
            r == self.apic_id,
    {
        self.apic_id
    }

    /// Enabled exactly when bit 0 of the record's flags is set.
    pub fn status(&self) -> (r: ApicStatus)
        ensures
            r == (if self.flags & 1 == 1 {
                ApicStatus::Enabled
            } else {
                ApicStatus::Disabled
            }),
    {
        if self.flags & 1 == 1 {
            ApicStatus::Enabled
        } else {
            ApicStatus::Disabled
        }
    }
}

/// An I/O interrupt controller record (tag 1).
#[derive(Clone, Copy, Debug, PartialEq, Eq, Structural)]
pub struct IoApicEntry {
    pub apic_id: u8,
    pub io_apic_address: u32,
    pub gsi_base: u32,
}

impl IoApicEntry {
    pub fn apic_id(&self) -> (r: u8)
        ensures
            r == self.apic_id,
    {
        self.apic_id
    }

    pub fn io_apic_address(&self) -> (r: u32)
        ensures
            r == self.io_apic_address,
    {
        self.io_apic_address
    }

    /// The first global system interrupt this controller serves.
    pub fn gsi_base(&self) -> (r: u32)
        ensures
            r == self.gsi_base,
    {
        self.gsi_base
    }
}

/// A record mapping a legacy bus interrupt source onto a global system
/// interrupt (tag 2).
#[derive(Clone, Copy, Debug, PartialEq, Eq, Structural)]
pub struct InterruptSourceOverrideEntry {
    pub bus: u8,
    pub source: u8,
    pub global_system_interrupt: u32,
    pub flags: u16,
}

impl InterruptSourceOverrideEntry {
    pub fn bus(&self) -> (r: u8)
        ensures
            r == self.bus,
    {
        self.bus
    }

    pub fn source(&self) -> (r: u8)
        ensures
            r == self.source,
    {
        self.source
    }

    pub fn global_system_interrupt(&self) -> (r: u32)
        ensures
            r == self.global_system_interrupt,
    {
        self.global_system_interrupt
    }

    /// Raw polarity/trigger-mode bits, not decoded further here.
    pub fn flags(&self) -> (r: u16)
        ensures
            r == self.flags,
    {
        self.flags
    }
}

/// A record with an unrecognized type tag, preserved opaquely: its tag and
/// declared length exactly as they stood in the raw bytes.
#[derive(Clone, Copy, Debug, PartialEq, Eq, Structural)]
pub struct OtherEntry {
    pub entry_type: u8,
    pub len: u8,
}

impl OtherEntry {
    pub fn entry_type(&self) -> (r: u8)
        ensures
            r == self.entry_type,
    {
        self.entry_type
    }

    pub fn len(&self) -> (r: u8)
        ensures
            r == self.len,
    {
        self.len
    }
}

/// One record of the MADT's tagged stream, classified into the closed set of
/// modeled kinds or preserved opaquely.
#[derive(Clone, Copy, Debug, PartialEq, Eq, Structural)]
pub enum MadtEntry {
    LocalApic(LocalApicEntry),
    IoApic(IoApicEntry),
    InterruptSourceOverride(InterruptSourceOverrideEntry),
    Other(OtherEntry),
}

/// Classifies one raw record (tag byte, length byte, payload) by its type
/// tag. A known tag whose record is too short for that kind's fixed fields
/// is preserved opaquely rather than read out of bounds.
pub open spec fn spec_classify(rec: Seq<u8>) -> MadtEntry
    recommends
        rec.len() >= 2,
{
    if rec[0] == 0 && rec.len() >= 8 {
        MadtEntry::LocalApic(
            LocalApicEntry { uid: rec[2], apic_id: rec[3], flags: le32_at(rec, 4) },
        )
    } else if rec[0] == 1 && rec.len() >= 12 {
        MadtEntry::IoApic(
            IoApicEntry { apic_id: rec[2], io_apic_address: le32_at(rec, 4), gsi_base: le32_at(rec, 8) },
        )
    } else if rec[0] == 2 && rec.len() >= 10 {
        MadtEntry::InterruptSourceOverride(
            InterruptSourceOverrideEntry {
                bus: rec[2],
                source: rec[3],
                global_system_interrupt: le32_at(rec, 4),
                flags: le16_at(rec, 8),
            },
        )
    } else {
        MadtEntry::Other(OtherEntry { entry_type: rec[0], len: rec[1] })
    }
}

/// The records of the byte stream `s`, in order. A record needs two bytes of
/// tag and length; a length under 2 or past the end of the stream ends the
/// walk.
pub open spec fn spec_entries_of(s: Seq<u8>) -> Seq<MadtEntry>
    decreases s.len(),
{
    if s.len() < 2 {
        Seq::empty()
    } else {
        let rl = s[1] as int;
        if rl < 2 || rl > s.len() {
            Seq::empty()
        } else {
            seq![spec_classify(s.subrange(0, rl))] + spec_entries_of(s.skip(rl))
        }
    }
}

/// The sum of the record lengths a walk of `s` consumes.
pub open spec fn spec_consumed_of(s: Seq<u8>) -> int
    decreases s.len(),
{
    if s.len() < 2 {
        0
    } else {
        let rl = s[1] as int;
        if rl < 2 || rl > s.len() {
            0
        } else {
            rl + spec_consumed_of(s.skip(rl))
        }
    }
}

/// A stream is tiled exactly by records when walking it consumes every byte:
/// each record's length is at least 2 and the last record ends at the
/// stream's end.
pub open spec fn records_exact(s: Seq<u8>) -> bool
    decreases s.len(),
{
    if s.len() == 0 {
        true
    } else if s.len() < 2 {
        false
    } else {
        let rl = s[1] as int;
        &&& 2 <= rl <= s.len()
        &&& records_exact(s.skip(rl))
    }
}

/// A walk never reads past the stream it was given: the consumed record
/// lengths sum to at most the stream's length. When the stream is tiled
/// exactly by records, the sum equals the stream's length.
pub proof fn lemma_walk_consumes_stream(s: Seq<u8>)
    ensures
        0 <= spec_consumed_of(s) <= s.len(),
        records_exact(s) ==> spec_consumed_of(s) == s.len(),
    decreases s.len(),
{
    if s.len() < 2 {
    } else {
        let rl = s[1] as int;
        if rl < 2 || rl > s.len() {
        } else {
            lemma_walk_consumes_stream(s.skip(rl));
        }
    }
}

impl Madt {
    pub open spec fn wf(&self) -> bool {
        &&& self.spec_header().wf()
        &&& self.spec_header().spec_signature() == TableId::spec_madt()
    }

    /// Whether the declared length covers the fixed fields that follow the
    /// header (local-APIC address and flags, to offset 44).
    pub open spec fn has_fixed_fields(&self) -> bool {
        self.spec_header().spec_len() >= 44
    }

    /// The record stream: the table's bytes from offset 44 to the declared
    /// length, empty when the length does not reach 44.
    pub open spec fn spec_stream(&self) -> Seq<u8> {
        if self.has_fixed_fields() {
            self.spec_header()@.bytes.subrange(44, self.spec_header().spec_len())
        } else {
            Seq::empty()
        }
    }

    /// The 32-bit physical address of the processor-local interrupt
    /// controller block.
    pub fn local_apic_address(&self) -> (r: u32)
        requires
            self.wf(),
            self.has_fixed_fields(),
        ensures
            r == le32_at(self.spec_header()@.bytes, 36),
    {
        self.header.read_u32_at(36)
    }

    /// True exactly when bit 0 of the flags field is set: the platform also
    /// carries the legacy dual-8259 interrupt controllers.
    pub fn has_8259(&self) -> (r: bool)
        requires
            self.wf(),
            self.has_fixed_fields(),
        ensures
            r == (le32_at(self.spec_header()@.bytes, 40) & 1 == 1),
    {
        self.header.read_u32_at(40) & 1 == 1
    }

    /// Walks the record stream and classifies every record, in stream order.
    pub fn all_entries(&self) -> (r: Vec<MadtEntry>)
        requires
            self.wf(),
        ensures
            r@ == spec_entries_of(self.spec_stream()),
    {
        let ghost stream = self.spec_stream();
        let len = self.header.len();
        let mut out: Vec<MadtEntry> = Vec::new();
        if len < 44 {
            proof {
                assert(stream =~= Seq::<u8>::empty());
            }
            return out;
        }
        let mut off: usize = 44;
        proof {
            assert(stream.skip(0) =~= stream);
            assert(out@ + spec_entries_of(stream) =~= spec_entries_of(stream));
        }
        loop
            invariant_except_break
                self.wf(),
                self.has_fixed_fields(),
                len == self.spec_header().spec_len(),
                len <= self.spec_header()@.bytes.len(),
                stream == self.spec_stream(),
                stream.len() == len - 44,
                44 <= off <= len,
                spec_entries_of(stream) == out@ + spec_entries_of(stream.skip(off - 44)),
            ensures
                out@ == spec_entries_of(stream),
            decreases len - off,
        {
            let ghost rest = stream.skip(off - 44);
            proof {
                assert(rest.len() == len - off);
                assert forall|k: int| 0 <= k < rest.len() implies rest[k] == self.spec_header()@.bytes[off
                    + k] by {
                    assert(rest[k] == stream[off - 44 + k]);
                }
            }
            if len - off < 2 {
                proof {
                    assert(spec_entries_of(rest) =~= Seq::<MadtEntry>::empty());
                    assert(out@ =~= out@ + spec_entries_of(rest));
                }
                break ;
            }
            let tag = self.header.byte_at(off);
            let rlb = self.header.byte_at(off + 1);
            let rl = rlb as usize;
            if rl < 2 || rl > len - off {
                proof {
                    assert(rest[1] == rlb);
                    assert(spec_entries_of(rest) =~= Seq::<MadtEntry>::empty());
                    assert(out@ =~= out@ + spec_entries_of(rest));
                }
                break ;
            }
            let ghost rec = rest.subrange(0, rl as int);
            proof {
                assert(rest[0] == tag && rest[1] == rlb);
                assert(forall|k: int| 0 <= k < rl ==> rec[k] == rest[k]);
                assert(spec_entries_of(rest) == seq![spec_classify(rec)] + spec_entries_of(
                    rest.skip(rl as int),
                ));
            }
            let entry: MadtEntry;
            if tag == 0 && rl >= 8 {
                entry = MadtEntry::LocalApic(
                    LocalApicEntry {
                        uid: self.header.byte_at(off + 2),
                        apic_id: self.header.byte_at(off + 3),
                        flags: self.header.read_u32_at(off + 4),
                    },
                );
                proof {
                    assert(le32_at(rec, 4) == le32_at(self.spec_header()@.bytes, off + 4));
                }
            } else if tag == 1 && rl >= 12 {
                entry = MadtEntry::IoApic(
                    IoApicEntry {
                        apic_id: self.header.byte_at(off + 2),
                        io_apic_address: self.header.read_u32_at(off + 4),
                        gsi_base: self.header.read_u32_at(off + 8),
                    },
                );
                proof {
                    assert(le32_at(rec, 4) == le32_at(self.spec_header()@.bytes, off + 4));
                    assert(le32_at(rec, 8) == le32_at(self.spec_header()@.bytes, off + 8));
                }
            } else if tag == 2 && rl >= 10 {
                entry = MadtEntry::InterruptSourceOverride(
                    InterruptSourceOverrideEntry {
                        bus: self.header.byte_at(off + 2),
                        source: self.header.byte_at(off + 3),
                        global_system_interrupt: self.header.read_u32_at(off + 4),
                        flags: self.header.read_u16_at(off + 8),
                    },
                );
                proof {
                    assert(le32_at(rec, 4) == le32_at(self.spec_header()@.bytes, off + 4));
                    assert(le16_at(rec, 8) == le16_at(self.spec_header()@.bytes, off + 8));
                }
            } else {
                entry = MadtEntry::Other(OtherEntry { entry_type: tag, len: rlb });
            }
            proof {
                assert(entry == spec_classify(rec));
            }
            out.push(entry);
            proof {
                assert(stream.skip(off + rl - 44) =~= rest.skip(rl as int));
                assert(out@ + spec_entries_of(rest.skip(rl as int)) =~= spec_entries_of(stream));
            }
            off = off + rl;
        }
        out
    }
}

/// A record with an unrecognized type tag is preserved: the walk yields an
/// opaque entry exposing exactly the tag byte and length byte that stood in
/// the raw record.
pub proof fn lemma_unknown_tag_preserved(rec: Seq<u8>)
    requires
        rec.len() >= 2,
        rec[0] != 0,
        rec[0] != 1,
        rec[0] != 2,
    ensures
        spec_classify(rec) == MadtEntry::Other(OtherEntry { entry_type: rec[0], len: rec[1] }),
{
}

/// A full walk of a well-formed MADT consumes exactly the bytes between the
/// fixed fields and the declared table length: the consumed record lengths
/// sum to `length - 44` when the stream is tiled exactly by records, and
/// never to more than that.
pub proof fn lemma_madt_walk_within_table(m: Madt)
    requires
        m.wf(),
        m.has_fixed_fields(),
    ensures
        0 <= spec_consumed_of(m.spec_stream()) <= m.spec_header().spec_len() - 44,
        records_exact(m.spec_stream()) ==> spec_consumed_of(m.spec_stream())
            == m.spec_header().spec_len() - 44,
{
    lemma_walk_consumes_stream(m.spec_stream());
}

} // verus!
