//! The SCSI side of USB mass storage: sense codes, the command block
//! wrapper, and the byte-exact responses the device returns.
//!
//! The USB endpoints move the bytes; everything the host receives is
//! computed here, and what the host sends is parsed here.

use vstd::prelude::*;

use crate::bytes::{le32, push_u32_le, read_u32_le};

verus! {

/// Sense key: no sense.
pub const SCSI_KEY_NO_SENSE: u8 = 0x00;

/// Sense key: not ready.
pub const SCSI_KEY_NOT_READY: u8 = 0x02;

/// Sense key: medium error.
pub const SCSI_KEY_MEDIUM_ERROR: u8 = 0x03;

/// Sense key: illegal request.
pub const SCSI_KEY_ILLEGAL_REQUEST: u8 = 0x05;

/// Sense key: data protect.
pub const SCSI_KEY_DATA_PROTECT: u8 = 0x07;

/// Additional sense code: no additional information.
pub const SCSI_ASC_NO_ADDITIONAL_SENSE: u8 = 0x00;

/// Additional sense code: unrecovered read error.
pub const SCSI_ASC_UNRECOVERED_READ_ERROR: u8 = 0x11;

/// Additional sense code qualifier for the unrecovered read error.
pub const SCSI_ASCQ_UNRECOVERED_READ_ERROR: u8 = 0x00;

/// Additional sense code: unrecovered write error.
pub const SCSI_ASC_UNRECOVERED_WRITE_ERROR: u8 = 0x03;

/// Additional sense code qualifier for the unrecovered write error.
pub const SCSI_ASCQ_UNRECOVERED_WRITE_ERROR: u8 = 0x01;

/// Additional sense code: logical block address out of range.
pub const SCSI_ASC_LBA_OUT_OF_RANGE: u8 = 0x21;

/// Additional sense code: invalid field in the command block.
pub const SCSI_ASC_INVALID_FIELD_IN_CDB: u8 = 0x24;

/// Additional sense code: medium not present.
pub const SCSI_ASC_MEDIUM_NOT_PRESENT: u8 = 0x3a;

/// Additional sense code: write protected.
pub const SCSI_ASC_WRITE_PROTECTED: u8 = 0x27;

/// A SCSI sense triple: key, additional sense code, and qualifier.
#[derive(Clone, Copy, Debug, PartialEq, Eq, Structural)]
pub struct ScsiSense {
    /// The sense key.
    pub key: u8,
    /// The additional sense code.
    pub asc: u8,
    /// The additional sense code qualifier.
    pub ascq: u8,
}

impl ScsiSense {
    /// Bundle a sense triple.
    pub fn new(key: u8, asc: u8, ascq: u8) -> (r: ScsiSense)
        ensures
            r.key == key,
            r.asc == asc,
            r.ascq == ascq,
    {
        ScsiSense { key, asc, ascq }
    }

    /// All clear: no sense to report.
    pub fn no_sense() -> (r: ScsiSense)
        ensures
            r == (ScsiSense { key: SCSI_KEY_NO_SENSE, asc: SCSI_ASC_NO_ADDITIONAL_SENSE, ascq: 0 }),
    {
        ScsiSense::new(SCSI_KEY_NO_SENSE, SCSI_ASC_NO_ADDITIONAL_SENSE, 0x00)
    }

    /// An ill-formed command block was received.
    pub fn invalid_cdb() -> (r: ScsiSense)
        ensures
            r == (ScsiSense {
                key: SCSI_KEY_ILLEGAL_REQUEST,
                asc: SCSI_ASC_INVALID_FIELD_IN_CDB,
                ascq: 0,
            }),
    {
        ScsiSense::new(SCSI_KEY_ILLEGAL_REQUEST, SCSI_ASC_INVALID_FIELD_IN_CDB, 0x00)
    }

    /// A block address beyond the medium was requested.
    pub fn lba_out_of_range() -> (r: ScsiSense)
        ensures
            r == (ScsiSense {
                key: SCSI_KEY_ILLEGAL_REQUEST,
                asc: SCSI_ASC_LBA_OUT_OF_RANGE,
                ascq: 0,
            }),
    {
        ScsiSense::new(SCSI_KEY_ILLEGAL_REQUEST, SCSI_ASC_LBA_OUT_OF_RANGE, 0x00)
    }

    /// No card is inserted.
    pub fn medium_not_present() -> (r: ScsiSense)
        ensures
            r == (ScsiSense {
                key: SCSI_KEY_NOT_READY,
                asc: SCSI_ASC_MEDIUM_NOT_PRESENT,
                ascq: 0,
            }),
    {
        ScsiSense::new(SCSI_KEY_NOT_READY, SCSI_ASC_MEDIUM_NOT_PRESENT, 0x00)
    }

    /// A read from the medium failed.
    pub fn unrecovered_read_error() -> (r: ScsiSense)
        ensures
            r == (ScsiSense {
                key: SCSI_KEY_MEDIUM_ERROR,
                asc: SCSI_ASC_UNRECOVERED_READ_ERROR,
                ascq: SCSI_ASCQ_UNRECOVERED_READ_ERROR,
            }),
    {
        ScsiSense::new(
            SCSI_KEY_MEDIUM_ERROR,
            SCSI_ASC_UNRECOVERED_READ_ERROR,
            SCSI_ASCQ_UNRECOVERED_READ_ERROR,
        )
    }

    /// A write to the medium failed.
    pub fn unrecovered_write_error() -> (r: ScsiSense)
        ensures
            r == (ScsiSense {
                key: SCSI_KEY_MEDIUM_ERROR,
                asc: SCSI_ASC_UNRECOVERED_WRITE_ERROR,
                ascq: SCSI_ASCQ_UNRECOVERED_WRITE_ERROR,
            }),
    {
        ScsiSense::new(
            SCSI_KEY_MEDIUM_ERROR,
            SCSI_ASC_UNRECOVERED_WRITE_ERROR,
            SCSI_ASCQ_UNRECOVERED_WRITE_ERROR,
        )
    }

    /// The medium is write-protected.
    pub fn write_protected() -> (r: ScsiSense)
        ensures
            r == (ScsiSense { key: SCSI_KEY_DATA_PROTECT, asc: SCSI_ASC_WRITE_PROTECTED, ascq: 0 }),
    {
        ScsiSense::new(SCSI_KEY_DATA_PROTECT, SCSI_ASC_WRITE_PROTECTED, 0x00)
    }
}

/// The signature every command block wrapper starts with.
pub const CBW_SIGNATURE: u32 = 0x43425355;

/// The 31-byte command block wrapper a USB mass-storage host sends.
#[allow(non_snake_case)]
pub struct CommandBlockWrapper {
    /// The fixed wrapper signature.
    pub dCBWSignature: u32,
    /// The host's tag, echoed in the status wrapper.
    pub dCBWTag: u32,
    /// Bytes of data the host expects to transfer.
    pub dCBWDataTransferLength: u32,
    /// Direction and reserved flags.
    pub bmCBWFlags: u8,
    /// The addressed logical unit.
    pub bCBWLUN: u8,
    /// Length of the command block.
    pub bCBWCBLength: u8,
    /// The 16-byte command block itself.
    pub CBWCB: Vec<u8>,
}

impl CommandBlockWrapper {
    /// Parse a command block wrapper.
    ///
    /// Yields a wrapper exactly when the buffer holds all 31 bytes and
    /// starts with the wrapper signature; every field then carries the
    /// little-endian value at its wire offset.
    pub fn parse(buf: &[u8]) -> (r: Option<CommandBlockWrapper>)
        ensures
            match r {
                Some(c) => {
                    &&& buf.len() >= 31
                    &&& le32(buf@, 0) == CBW_SIGNATURE
                    &&& c.dCBWSignature == CBW_SIGNATURE
                    &&& c.dCBWTag == le32(buf@, 4)
                    &&& c.dCBWDataTransferLength == le32(buf@, 8)
                    &&& c.bmCBWFlags == buf@[12]
                    &&& c.bCBWLUN == buf@[13]
                    &&& c.bCBWCBLength == buf@[14]
                    &&& c.CBWCB@ == buf@.subrange(15, 31)
                },
                None => buf.len() < 31 || le32(buf@, 0) != CBW_SIGNATURE,
            },
    {
        if buf.len() < 31 {
            return None;
        }
        let signature = read_u32_le(buf, 0);
        if signature != CBW_SIGNATURE {
            return None;
        }
        let mut cb: Vec<u8> = Vec::new();
        let mut i: usize = 15;
        while i < 31
            invariant
                15 <= i <= 31,
                buf.len() >= 31,
                cb.len() == i - 15,
                forall|k: int| 0 <= k < i - 15 ==> cb@[k] == buf@[15 + k],
            decreases 31 - i,
        {
            cb.push(buf[i]);
            i += 1;
        }
        proof {
            assert(cb@ =~= buf@.subrange(15, 31));
        }
        Some(
            CommandBlockWrapper {
                dCBWSignature: signature,
                dCBWTag: read_u32_le(buf, 4),
                dCBWDataTransferLength: read_u32_le(buf, 8),
                bmCBWFlags: buf[12],
                bCBWLUN: buf[13],
                bCBWCBLength: buf[14],
                CBWCB: cb,
            },
        )
    }
}

/// The 13-byte command status wrapper: the `USBS` signature, the echoed
/// tag, the data residue, and the status byte.
pub fn csw_bytes(tag: u32, status: u8, residue: u32) -> (r: Vec<u8>)
    ensures
        r.len() == 13,
        r@[0] == 0x55u8,
        r@[1] == 0x53u8,
        r@[2] == 0x42u8,
        r@[3] == 0x53u8,
        le32(r@, 4) == tag,
        le32(r@, 8) == residue,
        r@[12] == status,
{
    let mut r: Vec<u8> = Vec::new();
    r.push(0x55);  // U
    r.push(0x53);  // S
    r.push(0x42);  // B
    r.push(0x53);  // S
    push_u32_le(&mut r, tag);
    push_u32_le(&mut r, residue);
    r.push(status);
    r
}

/// The big-endian encoding of a 32-bit value.
pub open spec fn spec_be32(w: u32) -> Seq<u8> {
    seq![
        ((w / 0x1000000) % 0x100) as u8,
        ((w / 0x10000) % 0x100) as u8,
        ((w / 0x100) % 0x100) as u8,
        (w % 0x100) as u8,
    ]
}

/// Append the big-endian encoding of `w` to `v`.
pub fn push_u32_be(v: &mut Vec<u8>, w: u32)
    ensures
        final(v)@ == old(v)@ + spec_be32(w),
{
    v.push(((w / 0x1000000) % 0x100) as u8);
    v.push(((w / 0x10000) % 0x100) as u8);
    v.push(((w / 0x100) % 0x100) as u8);
    v.push((w % 0x100) as u8);
    proof {
        assert(v@ =~= old(v)@ + spec_be32(w));
    }
}

/// The standard INQUIRY data this device reports.
pub open spec fn spec_inquiry_data() -> Seq<u8> {
    seq![
        0x00u8, 0x80u8, 0x05u8, 0x02u8, 31u8, 0x00u8, 0x00u8, 0x00u8,
    ] + spec_vendor_id() + spec_product_id() + spec_product_revision()
}

/// The 8-byte vendor identification string.
pub open spec fn spec_vendor_id() -> Seq<u8> {
    seq![0x4cu8, 0x45, 0x47, 0x54, 0x43, 0x4d, 0x50, 0x52]
}

/// The 16-byte product identification string.
pub open spec fn spec_product_id() -> Seq<u8> {
    seq![0x50u8, 0x69, 0x63, 0x6f, 0x20, 0x43, 0x61, 0x6c, 0x63, 0x20, 0x53, 0x64, 0x63, 0x61, 0x72, 0x64]
}

/// The 4-byte product revision string.
pub open spec fn spec_product_revision() -> Seq<u8> {
    seq![0x31u8, 0x2e, 0x30, 0x30]
}

/// Build the standard INQUIRY data: a removable direct-access block device
/// with the fixed vendor, product and revision strings, 36 bytes in all,
/// with the additional length field counting the 31 bytes after itself.
pub fn inquiry_standard_response() -> (r: Vec<u8>)
    ensures
        r@ == spec_inquiry_data(),
        r.len() == 36,
{
    let mut r: Vec<u8> = Vec::new();
    r.push(0x00);  // direct-access block device
    r.push(0x80);  // removable
    r.push(0x05);  // SPC-3 compliance
    r.push(0x02);  // response data format
    r.push(31);  // additional length
    r.push(0x00);
    r.push(0x00);
    r.push(0x00);
    r.push(0x4c);  // L
    r.push(0x45);  // E
    r.push(0x47);  // G
    r.push(0x54);  // T
    r.push(0x43);  // C
    r.push(0x4d);  // M
    r.push(0x50);  // P
    r.push(0x52);  // R
    r.push(0x50);  // P
    r.push(0x69);  // i
    r.push(0x63);  // c
    r.push(0x6f);  // o
    r.push(0x20);
    r.push(0x43);  // C
    r.push(0x61);  // a
    r.push(0x6c);  // l
    r.push(0x63);  // c
    r.push(0x20);
    r.push(0x53);  // S
    r.push(0x64);  // d
    r.push(0x63);  // c
    r.push(0x61);  // a
    r.push(0x72);  // r
    r.push(0x64);  // d
    r.push(0x31);  // 1
    r.push(0x2e);  // .
    r.push(0x30);  // 0
    r.push(0x30);  // 0
    proof {
        assert(r@ =~= spec_inquiry_data());
    }
    r
}

/// The supported-pages INQUIRY page: this page, the serial number page and
/// the device identification page.
pub fn inquiry_vpd_supported_pages() -> (r: Vec<u8>)
    ensures
        r@ == seq![0x00u8, 0x00u8, 0x00u8, 0x03u8, 0x00u8, 0x80u8, 0x83u8],
{
    let mut r: Vec<u8> = Vec::new();
    r.push(0x00);  // direct-access block device
    r.push(0x00);  // this page's code
    r.push(0x00);
    r.push(0x03);  // three page codes follow
    r.push(0x00);
    r.push(0x80);
    r.push(0x83);
    proof {
        assert(r@ =~= seq![0x00u8, 0x00u8, 0x00u8, 0x03u8, 0x00u8, 0x80u8, 0x83u8]);
    }
    r
}

/// The unit serial number INQUIRY page.
pub fn inquiry_vpd_serial_number() -> (r: Vec<u8>)
    ensures
        r@ == seq![
            0x00u8, 0x80u8, 0x00u8, 9u8, 0x50u8, 0x69u8, 0x63u8, 0x6fu8, 0x20u8, 0x43u8, 0x61u8,
            0x6cu8, 0x63u8,
        ],
{
    let mut r: Vec<u8> = Vec::new();
    r.push(0x00);  // direct-access block device
    r.push(0x80);  // this page's code
    r.push(0x00);
    r.push(9);  // serial length
    r.push(0x50);  // P
    r.push(0x69);  // i
    r.push(0x63);  // c
    r.push(0x6f);  // o
    r.push(0x20);
    r.push(0x43);  // C
    r.push(0x61);  // a
    r.push(0x6c);  // l
    r.push(0x63);  // c
    proof {
        assert(r@ =~= seq![
            0x00u8, 0x80u8, 0x00u8, 9u8, 0x50u8, 0x69u8, 0x63u8, 0x6fu8, 0x20u8, 0x43u8, 0x61u8,
            0x6cu8, 0x63u8,
        ]);
    }
    r
}

/// The device identification INQUIRY page.
pub fn inquiry_vpd_device_id() -> (r: Vec<u8>)
    ensures
        r@ == seq![
            0x00u8, 0x83u8, 0x00u8, 10u8, 0x02u8, 0x01u8, 0x00u8, 6u8, 0x53u8, 0x64u8, 0x43u8,
            0x61u8, 0x72u8, 0x64u8,
        ],
{
    let mut r: Vec<u8> = Vec::new();
    r.push(0x00);  // direct-access block device
    r.push(0x83);  // this page's code
    r.push(0x00);
    r.push(10);  // four descriptor bytes and the identifier
    r.push(0x02);  // ASCII identifier
    r.push(0x01);  // identifier type
    r.push(0x00);
    r.push(6);  // identifier length
    r.push(0x53);  // S
    r.push(0x64);  // d
    r.push(0x43);  // C
    r.push(0x61);  // a
    r.push(0x72);  // r
    r.push(0x64);  // d
    proof {
        assert(r@ =~= seq![
            0x00u8, 0x83u8, 0x00u8, 10u8, 0x02u8, 0x01u8, 0x00u8, 6u8, 0x53u8, 0x64u8, 0x43u8,
            0x61u8, 0x72u8, 0x64u8,
        ]);
    }
    r
}

/// The MODE SENSE(6) response: no block descriptors, no mode pages.
pub fn mode_sense6_response() -> (r: Vec<u8>)
    ensures
        r@ == seq![0x03u8, 0x00u8, 0x00u8, 0x00u8],
{
    let mut r: Vec<u8> = Vec::new();
    r.push(0x03);  // mode data length after this byte
    r.push(0x00);  // medium type
    r.push(0x00);  // device-specific parameter
    r.push(0x00);  // no block descriptors
    proof {
        assert(r@ =~= seq![0x03u8, 0x00u8, 0x00u8, 0x00u8]);
    }
    r
}

/// The MODE SENSE(10) response: no block descriptors, no mode pages.
pub fn mode_sense10_response() -> (r: Vec<u8>)
    ensures
        r@ == seq![0x00u8, 0x06u8, 0x00u8, 0x00u8, 0x00u8, 0x00u8, 0x00u8, 0x00u8],
{
    let mut r: Vec<u8> = Vec::new();
    r.push(0x00);
    r.push(0x06);  // mode data length after these two bytes
    r.push(0x00);  // medium type
    r.push(0x00);  // device-specific parameter
    r.push(0x00);
    r.push(0x00);
    r.push(0x00);  // no block descriptors
    r.push(0x00);
    proof {
        assert(r@ =~= seq![0x00u8, 0x06u8, 0x00u8, 0x00u8, 0x00u8, 0x00u8, 0x00u8, 0x00u8]);
    }
    r
}

/// The last addressable block of a medium of `size_bytes` bytes in
/// 512-byte blocks: one less than the block count, or zero on an empty
/// medium.
pub open spec fn spec_last_lba(size_bytes: u64) -> int {
    if size_bytes / 512 == 0 {
        0
    } else {
        size_bytes / 512 - 1
    }
}

/// The READ CAPACITY(10) response: the last block address and the 512-byte
/// block size, both big-endian.  A medium too large for 32-bit block
/// addresses reports a truncated address, as the wire format cannot carry
/// more.
pub fn read_capacity10_response(size_bytes: u64) -> (r: Vec<u8>)
    ensures
        r@ == spec_be32((spec_last_lba(size_bytes) % 0x1_0000_0000) as u32) + spec_be32(512),
{
    let total_blocks = size_bytes / 512;
    let last_lba: u64 = if total_blocks == 0 {
        0
    } else {
        total_blocks - 1
    };
    proof {
        assert(last_lba as u32 == (last_lba % 0x1_0000_0000) as u32) by (bit_vector);
    }
    let mut r: Vec<u8> = Vec::new();
    push_u32_be(&mut r, last_lba as u32);
    push_u32_be(&mut r, 512);
    r
}

/// The READ FORMAT CAPACITIES response: one descriptor carrying the block
/// count, the formatted-media flag, and the low three bytes of the block
/// size.
pub fn read_format_capacities_response(size_bytes: u64) -> (r: Vec<u8>)
    ensures
        r.len() == 12,
        r@.subrange(0, 4) == seq![0u8, 0u8, 0u8, 8u8],
        r@.subrange(4, 8) == spec_be32(((size_bytes / 512) % 0x1_0000_0000) as u32),
        r@[8] == 0x03u8,
        r@.subrange(9, 12) == seq![0u8, 0x02u8, 0u8],
{
    let num_blocks = size_bytes / 512;
    proof {
        assert(num_blocks as u32 == (num_blocks % 0x1_0000_0000) as u32) by (bit_vector);
    }
    let mut r: Vec<u8> = Vec::new();
    r.push(0x00);
    r.push(0x00);
    r.push(0x00);
    r.push(8);  // capacity list length
    push_u32_be(&mut r, num_blocks as u32);
    r.push(0x03);  // formatted media
    r.push(0x00);  // block size, high byte
    r.push(0x02);  // block size, middle byte
    r.push(0x00);  // block size, low byte
    proof {
        assert(r@.subrange(0, 4) =~= seq![0u8, 0u8, 0u8, 8u8]);
        assert(r@.subrange(4, 8) =~= spec_be32(((size_bytes / 512) % 0x1_0000_0000) as u32));
        assert(r@.subrange(9, 12) =~= seq![0u8, 0x02u8, 0u8]);
    }
    r
}

/// The response actually sent: the allocation length the host granted caps
/// what goes on the wire.
pub fn truncate_response(resp: &Vec<u8>, alloc_len: usize) -> (r: Vec<u8>)
    ensures
        r@ == resp@.subrange(0, if alloc_len < resp.len() { alloc_len as int } else { resp.len() as int }),
{
    let n = if alloc_len < resp.len() {
        alloc_len
    } else {
        resp.len()
    };
    let mut r: Vec<u8> = Vec::new();
    let mut i: usize = 0;
    while i < n
        invariant
            i <= n,
            n <= resp.len(),
            r.len() == i,
            forall|k: int| 0 <= k < i ==> r@[k] == resp@[k],
        decreases n - i,
    {
        r.push(resp[i]);
        i += 1;
    }
    proof {
        assert(r@ =~= resp@.subrange(0, n as int));
    }
    r
}

} // verus!
