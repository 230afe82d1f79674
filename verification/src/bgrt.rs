//! The boot graphics resource table: an optional boot-splash image and its
//! screen placement.
use crate::le::{le32_at, le64_at};
use crate::tables::{AcpiHeader, AcpiTable, TableId};
use vstd::prelude::*;

verus! {

/// Boot Graphics Resource Table: header, 2-byte version, 1-byte status
/// (bit 0 = image valid), 1-byte image type, 8-byte image address, then the
/// 4-byte x and y placement offsets.
pub struct Bgrt {
    header: AcpiHeader,
}

impl AcpiTable for Bgrt {
    open spec fn spec_table_signature() -> Seq<u8> {
        TableId::spec_bgrt()
    }

    closed spec fn spec_header(&self) -> AcpiHeader {
        self.header
    }

    fn table_signature() -> (r: TableId) {
        TableId::bgrt()
    }

    fn from_header(h: AcpiHeader) -> (r: Self) {
        Bgrt { header: h }
    }

    fn header(&self) -> (r: &AcpiHeader) {
        &self.header
    }
}

impl Bgrt {
    pub open spec fn wf(&self) -> bool {
        &&& self.spec_header().wf()
        &&& self.spec_header().spec_signature() == TableId::spec_bgrt()
    }

    /// Whether the declared length covers the fixed fields that follow the
    /// header (version, status, image type, image address and offsets, to
    /// byte 56).
    pub open spec fn has_fixed_fields(&self) -> bool {
        self.spec_header().spec_len() >= 56
    }

    /// The stored 64-bit address of the embedded bitmap image. Meaningful
    /// only while the table's status field marks the image valid; the host
    /// reads the bitmap bytes found there.
    pub fn bitmap(&self) -> (r: u64)
        requires
            self.wf(),
            self.has_fixed_fields(),
        ensures
            r == le64_at(self.spec_header()@.bytes, 40),
    {
        self.header.read_u64_at(40)
    }

    /// The top-left placement of the image on the display, as (x, y) pixel
    /// offsets.
    pub fn offset(&self) -> (r: (usize, usize))
        requires
            self.wf(),
            self.has_fixed_fields(),
        ensures
            r.0 == le32_at(self.spec_header()@.bytes, 48),
            r.1 == le32_at(self.spec_header()@.bytes, 52),
    {
        let x = self.header.read_u32_at(48);
        let y = self.header.read_u32_at(52);
        (x as usize, y as usize)
    }
}

} // verus!
