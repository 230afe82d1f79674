//! The root pointer, the common table header, table identification, and the
//! extended table's pointer list.
//!
//! Each view owns a copy of its table's raw bytes together with the physical
//! address the bytes were read from. The host is responsible for reading the
//! bytes of a table at a given address; every address stored inside a table
//! is handed back as a plain `u64` that the host may follow. A view is only
//! constructed when the buffer is large enough for the fields the view
//! exposes, so no accessor ever reads outside the buffer, whatever the
//! embedded length fields claim.
use crate::le::{le16_at, le32_at, le64_at, read_u16, read_u32, read_u64};
use vstd::prelude::*;

verus! {

/// A table's 4-byte kind tag, compared by exact byte equality.
#[derive(Clone, Copy, Debug)]
pub struct TableId(pub [u8; 4]);

impl View for TableId {
    type V = Seq<u8>;

    open spec fn view(&self) -> Seq<u8> {
        self.0@
    }
}

impl TableId {
    /// Signature of the extended system description table.
    pub open spec fn spec_xsdt() -> Seq<u8> {
        seq![88u8, 83u8, 68u8, 84u8]
    }

    /// Signature of the fixed description table.
    pub open spec fn spec_fadt() -> Seq<u8> {
        seq![70u8, 65u8, 67u8, 80u8]
    }

    /// Signature of the multiple-APIC description table.
    pub open spec fn spec_madt() -> Seq<u8> {
        seq![65u8, 80u8, 73u8, 67u8]
    }

    /// Signature of the high-precision event timer table.
    pub open spec fn spec_hpet() -> Seq<u8> {
        seq![72u8, 80u8, 69u8, 84u8]
    }

    /// Signature of the boot graphics resource table.
    pub open spec fn spec_bgrt() -> Seq<u8> {
        seq![66u8, 71u8, 82u8, 84u8]
    }

    /// Extended System Description Table
    pub fn xsdt() -> (r: TableId)
        ensures
            r@ == Self::spec_xsdt(),
    {
        TableId([88u8, 83u8, 68u8, 84u8])
    }

    /// Fixed ACPI Description Table
    pub fn fadt() -> (r: TableId)
        ensures
            r@ == Self::spec_fadt(),
    {
        TableId([70u8, 65u8, 67u8, 80u8])
    }

    /// Multiple APIC Description Table
    pub fn madt() -> (r: TableId)
        ensures
            r@ == Self::spec_madt(),
    {
        TableId([65u8, 80u8, 73u8, 67u8])
    }

    /// High Precision Event Timers
    pub fn hpet() -> (r: TableId)
        ensures
            r@ == Self::spec_hpet(),
    {
        TableId([72u8, 80u8, 69u8, 84u8])
    }

    /// Boot Graphics Resource Table
    pub fn bgrt() -> (r: TableId)
        ensures
            r@ == Self::spec_bgrt(),
    {
        TableId([66u8, 71u8, 82u8, 84u8])
    }

    /// True exactly when the two tags hold the same 4 bytes.
    pub fn matches(&self, other: &TableId) -> (r: bool)
        ensures
            r == (self@ == other@),
    {
        let r = self.0[0] == other.0[0] && self.0[1] == other.0[1] && self.0[2] == other.0[2]
            && self.0[3] == other.0[3];
        proof {
            if r {
                assert(self@ =~= other@);
            }
        }
        r
    }

    /// The four tag bytes, for rendering by the host.
    pub fn bytes(&self) -> (r: [u8; 4])
        ensures
            r@ == self@,
    {
        self.0
    }
}

/// The mathematical value of a header view: the address it was read from and
/// the raw bytes of the whole table.
pub struct HeaderModel {
    pub base: u64,
    pub bytes: Seq<u8>,
}

/// The common 36-byte prefix of every description table, together with the
/// table's whole byte extent.
pub struct AcpiHeader {
    base: u64,
    bytes: Vec<u8>,
}

impl View for AcpiHeader {
    type V = HeaderModel;

    closed spec fn view(&self) -> HeaderModel {
        HeaderModel { base: self.base, bytes: self.bytes@ }
    }
}

/// A buffer holds a whole table when it covers the 36 header bytes and the
/// extent the header's length field declares.
pub open spec fn covers_table(bytes: Seq<u8>) -> bool {
    &&& bytes.len() >= 36
    &&& le32_at(bytes, 4) <= bytes.len()
}

impl AcpiHeader {
    /// The well-formedness every constructed header view keeps.
    pub open spec fn wf(&self) -> bool {
        covers_table(self@.bytes)
    }

    /// The header's 4-byte signature.
    pub open spec fn spec_signature(&self) -> Seq<u8> {
        self@.bytes.subrange(0, 4)
    }

    /// The table's total length in bytes, as its length field declares.
    pub open spec fn spec_len(&self) -> int {
        le32_at(self@.bytes, 4) as int
    }

    /// Wraps the bytes read at `base` as a table view. Succeeds exactly when
    /// the buffer covers the 36 header bytes and the declared table extent,
    /// so that no later read can leave the buffer.
    pub fn new(base: u64, bytes: Vec<u8>) -> (r: Option<AcpiHeader>)
        ensures
            match r {
                Some(h) => {
                    &&& covers_table(bytes@)
                    &&& h.wf()
                    &&& h@.base == base
                    &&& h@.bytes == bytes@
                },
                None => !covers_table(bytes@),
            },
    {
        if bytes.len() < 36 {
            return None;
        }
        let declared = read_u32(&bytes, 4);
        if (declared as usize) <= bytes.len() {
            Some(AcpiHeader { base, bytes })
        } else {
            None
        }
    }

    /// The address the table was read from.
    pub fn base(&self) -> (r: u64)
        ensures
            r == self@.base,
    {
        self.base
    }

    pub fn signature(&self) -> (r: TableId)
        requires
            self.wf(),
        ensures
            r@ == self.spec_signature(),
    {
        let r = TableId([self.bytes[0], self.bytes[1], self.bytes[2], self.bytes[3]]);
        proof {
            assert(r@ =~= self.spec_signature());
        }
        r
    }

    pub fn len(&self) -> (r: usize)
        requires
            self.wf(),
        ensures
            r == self.spec_len(),
    {
        let declared = read_u32(&self.bytes, 4);
        declared as usize
    }

    /// The byte at offset `i` of the table.
    pub fn byte_at(&self, i: usize) -> (r: u8)
        requires
            i < self@.bytes.len(),
        ensures
            r == self@.bytes[i as int],
    {
        self.bytes[i]
    }

    /// The 16-bit little-endian value at offset `off` of the table.
    pub fn read_u16_at(&self, off: usize) -> (r: u16)
        requires
            off + 2 <= self@.bytes.len(),
        ensures
            r == le16_at(self@.bytes, off as int),
    {
        read_u16(&self.bytes, off)
    }

    /// The 32-bit little-endian value at offset `off` of the table.
    pub fn read_u32_at(&self, off: usize) -> (r: u32)
        requires
            off + 4 <= self@.bytes.len(),
        ensures
            r == le32_at(self@.bytes, off as int),
    {
        read_u32(&self.bytes, off)
    }

    /// The 64-bit little-endian value at offset `off` of the table.
    pub fn read_u64_at(&self, off: usize) -> (r: u64)
        requires
            off + 8 <= self@.bytes.len(),
        ensures
            r == le64_at(self@.bytes, off as int),
    {
        read_u64(&self.bytes, off)
    }

    /// An independent view of the same table bytes at the same address.
    pub fn duplicate(&self) -> (r: AcpiHeader)
        ensures
            r@ == self@,
    {
        let mut copied: Vec<u8> = Vec::new();
        let mut i: usize = 0;
        while i < self.bytes.len()
            invariant
                i <= self.bytes.len(),
                copied@ == self.bytes@.subrange(0, i as int),
            decreases self.bytes.len() - i,
        {
            copied.push(self.bytes[i]);
            proof {
                assert(copied@ =~= self.bytes@.subrange(0, i + 1));
            }
            i = i + 1;
        }
        proof {
            assert(copied@ =~= self.bytes@);
        }
        AcpiHeader { base: self.base, bytes: copied }
    }
}

/// The root pointer's fixed 8-byte signature, `"RSD PTR "`.
pub open spec fn spec_rsdp_signature() -> Seq<u8> {
    seq![82u8, 83u8, 68u8, 32u8, 80u8, 84u8, 82u8, 32u8]
}

/// The revision the root pointer must carry.
pub open spec fn spec_rsdp_revision() -> u8 {
    2
}

/// The root pointer structure: the single entry point that yields the
/// extended table's address. A value holds the 36 bytes read at the address
/// the platform's configuration table names.
pub struct RsdPtr {
    bytes: Vec<u8>,
}

impl View for RsdPtr {
    type V = Seq<u8>;

    closed spec fn view(&self) -> Seq<u8> {
        self.bytes@
    }
}

/// A root-pointer byte layout is valid exactly when it carries the fixed
/// signature in bytes 0..8 and the expected revision in byte 15.
pub open spec fn rsdp_valid(bytes: Seq<u8>) -> bool {
    &&& bytes.len() >= 36
    &&& bytes.subrange(0, 8) == spec_rsdp_signature()
    &&& bytes[15] == spec_rsdp_revision()
}

impl RsdPtr {
    pub open spec fn wf(&self) -> bool {
        self@.len() >= 36
    }

    /// Validates the bytes read at the firmware-supplied address. Succeeds
    /// exactly when the signature and revision match; any other content
    /// yields an empty result, never an error.
    pub fn parse(bytes: Vec<u8>) -> (r: Option<RsdPtr>)
        ensures
            match r {
                Some(p) => {
                    &&& rsdp_valid(bytes@)
                    &&& p@ == bytes@
                    &&& p.wf()
                },
                None => !rsdp_valid(bytes@),
            },
    {
        if bytes.len() < 36 {
            return None;
        }
        let p = RsdPtr { bytes };
        if p.is_valid() {
            Some(p)
        } else {
            None
        }
    }

    /// True exactly when the signature and revision fields match the fixed
    /// constants.
    pub fn is_valid(&self) -> (r: bool)
        requires
            self.wf(),
        ensures
            r == rsdp_valid(self@),
    {
        let sig_ok = self.bytes[0] == 82u8 && self.bytes[1] == 83u8 && self.bytes[2] == 68u8
            && self.bytes[3] == 32u8 && self.bytes[4] == 80u8 && self.bytes[5] == 84u8
            && self.bytes[6] == 82u8 && self.bytes[7] == 32u8;
        let rev_ok = self.bytes[15] == 2;
        proof {
            if sig_ok {
                assert(self@.subrange(0, 8) =~= spec_rsdp_signature());
            } else {
                assert(self@.subrange(0, 8) != spec_rsdp_signature()) by {
                    if self@.subrange(0, 8) == spec_rsdp_signature() {
                        assert(self@[0] == spec_rsdp_signature()[0]);
                        assert(self@[1] == spec_rsdp_signature()[1]);
                        assert(self@[2] == spec_rsdp_signature()[2]);
                        assert(self@[3] == spec_rsdp_signature()[3]);
                        assert(self@[4] == spec_rsdp_signature()[4]);
                        assert(self@[5] == spec_rsdp_signature()[5]);
                        assert(self@[6] == spec_rsdp_signature()[6]);
                        assert(self@[7] == spec_rsdp_signature()[7]);
                    }
                }
            }
        }
        sig_ok && rev_ok
    }

    /// The stored 64-bit address of the extended table. The address is not
    /// validated here; the host reads the table bytes found there.
    pub fn xsdt(&self) -> (r: u64)
        requires
            self.wf(),
        ensures
            r == le64_at(self@, 24),
    {
        read_u64(&self.bytes, 24)
    }
}

/// A table kind that can be identified from a generic header view: any type
/// with a fixed 4-byte signature and a body laid out after the common header.
pub trait AcpiTable: Sized {
    /// The fixed 4-byte signature of this table kind.
    spec fn spec_table_signature() -> Seq<u8>;

    /// The header view the table wraps.
    spec fn spec_header(&self) -> AcpiHeader;

    /// The signature constant of this table kind.
    fn table_signature() -> (r: TableId)
        ensures
            r@ == Self::spec_table_signature(),
    ;

    /// Wraps a header view whose signature names this table kind.
    fn from_header(h: AcpiHeader) -> (r: Self)
        requires
            h.wf(),
            h.spec_signature() == Self::spec_table_signature(),
        ensures
            r.spec_header()@ == h@,
    ;

    /// The common header of the table.
    fn header(&self) -> (r: &AcpiHeader)
        ensures
            r@ == self.spec_header()@,
    ;
}

impl AcpiHeader {
    /// Reinterprets this header view as table kind `T`. This is a
    /// capability-checked downcast, not a parse: it succeeds exactly when the
    /// signature equals `T`'s constant, and performs no further validation of
    /// `T`'s body.
    pub fn identify<T: AcpiTable>(&self) -> (r: Option<T>)
        requires
            self.wf(),
        ensures
            r is Some <==> self.spec_signature() == T::spec_table_signature(),
            r matches Some(t) ==> t.spec_header()@ == self@,
    {
        let tid = T::table_signature();
        let sig = self.signature();
        if sig.matches(&tid) {
            Some(T::from_header(self.duplicate()))
        } else {
            None
        }
    }
}

/// True when some header in `headers` carries the 4-byte signature `sig`.
pub open spec fn contains_signature(headers: Seq<AcpiHeader>, sig: Seq<u8>) -> bool {
    exists|i: int| 0 <= i < headers.len() && (#[trigger] headers[i]).spec_signature() == sig
}

/// Extended System Description Table: the root list of pointers to every
/// other available table.
pub struct Xsdt {
    header: AcpiHeader,
}

impl AcpiTable for Xsdt {
    open spec fn spec_table_signature() -> Seq<u8> {
        TableId::spec_xsdt()
    }

    closed spec fn spec_header(&self) -> AcpiHeader {
        self.header
    }

    fn table_signature() -> (r: TableId) {
        TableId::xsdt()
    }

    fn from_header(h: AcpiHeader) -> (r: Self) {
        Xsdt { header: h }
    }

    fn header(&self) -> (r: &AcpiHeader) {
        &self.header
    }
}

impl Xsdt {
    pub open spec fn wf(&self) -> bool {
        &&& self.spec_header().wf()
        &&& self.spec_header().spec_signature() == TableId::spec_xsdt()
    }

    /// Number of trailing 8-byte pointer entries: `(length - 36) / 8`, or 0
    /// when the declared length does not even cover the header.
    pub open spec fn spec_entry_count(&self) -> int {
        if self.spec_header().spec_len() >= 36 {
            (self.spec_header().spec_len() - 36) / 8
        } else {
            0
        }
    }

    /// The `i`-th trailing pointer entry: the 64-bit little-endian value at
    /// byte offset `36 + 8 * i`.
    pub open spec fn spec_entry(&self, i: int) -> u64 {
        le64_at(self.spec_header()@.bytes, 36 + 8 * i)
    }

    pub fn table_count(&self) -> (r: usize)
        requires
            self.wf(),
        ensures
            r == self.spec_entry_count(),
    {
        let l = self.header.len();
        if l < 36 {
            0
        } else {
            (l - 36) / 8
        }
    }

    /// The trailing pointer entries in array order: the addresses of the
    /// other tables, unvalidated until the host reads a header there.
    pub fn tables(&self) -> (r: Vec<u64>)
        requires
            self.wf(),
        ensures
            r@.len() == self.spec_entry_count(),
            forall|i: int| 0 <= i < r@.len() ==> r@[i] == self.spec_entry(i),
    {
        let count = self.table_count();
        let mut out: Vec<u64> = Vec::new();
        let mut i: usize = 0;
        proof {
            if self.spec_header().spec_len() >= 36 {
                let l = self.spec_header().spec_len();
                assert(8 * ((l - 36) / 8) <= l - 36) by (nonlinear_arith);
            }
        }
        while i < count
            invariant
                i <= count,
                self.wf(),
                count == self.spec_entry_count(),
                8 * count <= self.spec_header().spec_len() - 36 || count == 0,
                self.spec_header().spec_len() <= self.spec_header()@.bytes.len(),
                out@.len() == i,
                forall|j: int| 0 <= j < i ==> out@[j] == self.spec_entry(j),
            decreases count - i,
        {
            let v = self.header.read_u64_at(36 + 8 * i);
            out.push(v);
            i = i + 1;
        }
        out
    }

    /// Finds the first table of kind `T` among the headers read from this
    /// table's pointer entries. The host loads one header view per entry of
    /// [`Xsdt::tables`] and passes them here in array order; whether the
    /// candidates really came from those addresses is the host's obligation,
    /// outside what byte-level parsing can check.
    pub fn find_first<T: AcpiTable>(&self, headers: &Vec<AcpiHeader>) -> (r: Option<T>)
        requires
            self.wf(),
            forall|i: int| 0 <= i < headers@.len() ==> (#[trigger] headers@[i]).wf(),
        ensures
            r is Some <==> contains_signature(headers@, T::spec_table_signature()),
            r matches Some(t) ==> exists|i: int|
                {
                    &&& 0 <= i < headers@.len()
                    &&& (#[trigger] headers@[i]).spec_signature() == T::spec_table_signature()
                    &&& t.spec_header()@ == headers@[i]@
                    &&& forall|j: int|
                        0 <= j < i ==> headers@[j].spec_signature() != T::spec_table_signature()
                },
    {
        let mut i: usize = 0;
        while i < headers.len()
            invariant
                i <= headers@.len(),
                forall|k: int| 0 <= k < headers@.len() ==> (#[trigger] headers@[k]).wf(),
                forall|j: int|
                    0 <= j < i ==> (#[trigger] headers@[j]).spec_signature()
                        != T::spec_table_signature(),
            decreases headers@.len() - i,
        {
            let found: Option<T> = headers[i].identify::<T>();
            match found {
                Some(t) => {
                    proof {
                        let wi = i as int;
                        assert({
                            &&& 0 <= wi < headers@.len()
                            &&& headers@[wi].spec_signature() == T::spec_table_signature()
                            &&& t.spec_header()@ == headers@[wi]@
                            &&& forall|j: int|
                                0 <= j < wi ==> headers@[j].spec_signature()
                                    != T::spec_table_signature()
                        });
                    }
                    return Some(t);
                },
                None => {},
            }
            i = i + 1;
        }
        None
    }
}

/// The value stored in the address-space field of a generic address
/// structure.
#[derive(Clone, Copy, Debug, PartialEq, Eq, Structural)]
#[non_exhaustive]
pub enum GasAddressSpaceId {
    /// System Memory space
    SystemMemory,
    /// System I/O space
    SystemIo,
    /// PCI Configuration space
    PciConfiguration,
    /// Embedded Controller
    EmbeddedController,
    /// SMBus
    SmBus,
    /// SystemCMOS
    SystemCmos,
    /// PciBarTarget
    PciBarTarget,
    /// IPMI
    Ipmi,
    /// General PurposeIO
    Gpio,
    /// GenericSerialBus
    GenericSerialBus,
    /// Platform Communications Channel (PCC)
    Pcc,
    /// Platform Runtime Mechanism (PRM)
    Prm,
    /// Functional Fixed Hardware
    FunctionalFixedHardware,
}

/// The address space named by the byte value `v`, if `v` is a defined value.
pub open spec fn spec_gas_space_from(v: u8) -> Option<GasAddressSpaceId> {
    if v == 0 {
        Some(GasAddressSpaceId::SystemMemory)
    } else if v == 1 {
        Some(GasAddressSpaceId::SystemIo)
    } else if v == 2 {
        Some(GasAddressSpaceId::PciConfiguration)
    } else if v == 3 {
        Some(GasAddressSpaceId::EmbeddedController)
    } else if v == 4 {
        Some(GasAddressSpaceId::SmBus)
    } else if v == 5 {
        Some(GasAddressSpaceId::SystemCmos)
    } else if v == 6 {
        Some(GasAddressSpaceId::PciBarTarget)
    } else if v == 7 {
        Some(GasAddressSpaceId::Ipmi)
    } else if v == 8 {
        Some(GasAddressSpaceId::Gpio)
    } else if v == 9 {
        Some(GasAddressSpaceId::GenericSerialBus)
    } else if v == 10 {
        Some(GasAddressSpaceId::Pcc)
    } else if v == 11 {
        Some(GasAddressSpaceId::Prm)
    } else if v == 0x7F {
        Some(GasAddressSpaceId::FunctionalFixedHardware)
    } else {
        None
    }
}

impl GasAddressSpaceId {
    pub fn from_u8(v: u8) -> (r: Option<GasAddressSpaceId>)
        ensures
            r == spec_gas_space_from(v),
    {
        match v {
            0 => Some(GasAddressSpaceId::SystemMemory),
            1 => Some(GasAddressSpaceId::SystemIo),
            2 => Some(GasAddressSpaceId::PciConfiguration),
            3 => Some(GasAddressSpaceId::EmbeddedController),
            4 => Some(GasAddressSpaceId::SmBus),
            5 => Some(GasAddressSpaceId::SystemCmos),
            6 => Some(GasAddressSpaceId::PciBarTarget),
            7 => Some(GasAddressSpaceId::Ipmi),
            8 => Some(GasAddressSpaceId::Gpio),
            9 => Some(GasAddressSpaceId::GenericSerialBus),
            10 => Some(GasAddressSpaceId::Pcc),
            11 => Some(GasAddressSpaceId::Prm),
            0x7F => Some(GasAddressSpaceId::FunctionalFixedHardware),
            _ => None,
        }
    }
}

/// The value stored in the access-size field of a generic address structure.
#[derive(Clone, Copy, Debug, PartialEq, Eq, Structural)]
#[non_exhaustive]
pub enum GasAccessSize {
    Undefined,
    Byte,
    Word,
    Dword,
    Qword,
}

/// The access size named by the byte value `v`, if `v` is a defined value.
pub open spec fn spec_gas_access_from(v: u8) -> Option<GasAccessSize> {
    if v == 0 {
        Some(GasAccessSize::Undefined)
    } else if v == 1 {
        Some(GasAccessSize::Byte)
    } else if v == 2 {
        Some(GasAccessSize::Word)
    } else if v == 3 {
        Some(GasAccessSize::Dword)
    } else if v == 4 {
        Some(GasAccessSize::Qword)
    } else {
        None
    }
}

impl GasAccessSize {
    pub fn from_u8(v: u8) -> (r: Option<GasAccessSize>)
        ensures
            r == spec_gas_access_from(v),
    {
        match v {
            0 => Some(GasAccessSize::Undefined),
            1 => Some(GasAccessSize::Byte),
            2 => Some(GasAccessSize::Word),
            3 => Some(GasAccessSize::Dword),
            4 => Some(GasAccessSize::Qword),
            _ => None,
        }
    }
}

/// Generic Address Structure (GAS): a 12-byte register descriptor that some
/// tables embed.
#[derive(Clone, Copy, Debug, PartialEq, Eq, Structural)]
pub struct Gas {
    pub id: GasAddressSpaceId,
    pub bit_width: u8,
    pub bit_offset: u8,
    pub access_size: GasAccessSize,
    pub address: u64,
}

impl Gas {
    /// Decodes the 12-byte structure at offset `off` of `b`: address-space
    /// byte, bit width, bit offset, access-size byte, then a 64-bit
    /// little-endian address. Succeeds exactly when the two enumerated bytes
    /// carry defined values.
    pub fn read(b: &Vec<u8>, off: usize) -> (r: Option<Gas>)
        requires
            off + 12 <= b.len(),
        ensures
            match r {
                Some(g) => {
                    &&& spec_gas_space_from(b@[off as int]) == Some(g.id)
                    &&& g.bit_width == b@[off + 1]
                    &&& g.bit_offset == b@[off + 2]
                    &&& spec_gas_access_from(b@[off + 3]) == Some(g.access_size)
                    &&& g.address == le64_at(b@, off + 4)
                },
                None => spec_gas_space_from(b@[off as int]) is None || spec_gas_access_from(
                    b@[off + 3],
                ) is None,
            },
    {
        let id = GasAddressSpaceId::from_u8(b[off]);
        let access = GasAccessSize::from_u8(b[off + 3]);
        match (id, access) {
            (Some(id), Some(access_size)) => Some(
                Gas {
                    id,
                    bit_width: b[off + 1],
                    bit_offset: b[off + 2],
                    access_size,
                    address: read_u64(b, off + 4),
                },
            ),
            _ => None,
        }
    }
}

} // verus!
