//! Plain-value forms of the C ABI types that cross the syscall boundary:
//! allocation layouts, pixels, and random-number requests.
//!
//! The application-side stubs call through the patched syscall table; the
//! values they pass and receive are modeled here, together with the checks
//! and conversions both sides perform on them.

use vstd::prelude::*;

verus! {

/// An allocation request as it crosses the ABI.
#[derive(Clone, Copy, Debug, PartialEq, Eq, Structural)]
pub struct CLayout {
    /// Requested size in bytes.
    pub size: usize,
    /// Requested alignment in bytes.
    pub alignment: usize,
}

impl CLayout {
    /// A layout the allocator may act on: the alignment is a power of two
    /// and the size, rounded up to it, stays addressable.
    pub open spec fn spec_valid(self) -> bool {
        &&& self.alignment > 0
        &&& (self.alignment & (self.alignment - 1) as usize) == 0
        &&& self.size + self.alignment - 1 <= isize::MAX
    }

    /// Check a layout that arrived over the ABI before handing it to the
    /// allocator.
    pub fn is_valid(&self) -> (r: bool)
        ensures
            r == self.spec_valid(),
    {
        self.alignment > 0 && (self.alignment & (self.alignment - 1)) == 0 && self.size
            <= isize::MAX as usize && self.alignment - 1 <= isize::MAX as usize - self.size
    }

    /// Bundle a size and an alignment.
    pub fn new(size: usize, alignment: usize) -> (r: CLayout)
        ensures
            r.size == size,
            r.alignment == alignment,
    {
        CLayout { size, alignment }
    }
}

/// A pixel as it crosses the `draw_iter` syscall: a screen position and a
/// packed 16-bit RGB565 color.
#[derive(Clone, Copy, Debug, PartialEq, Eq, Structural)]
pub struct CPixel {
    /// Column, from the left edge.
    pub x: i32,
    /// Row, from the top edge.
    pub y: i32,
    /// The color, packed as RGB565.
    pub color: u16,
}

impl CPixel {
    /// The black pixel at the origin.
    pub fn new() -> (r: CPixel)
        ensures
            r.x == 0,
            r.y == 0,
            r.color == 0,
    {
        CPixel { x: 0, y: 0, color: 0 }
    }
}

/// The packed RGB565 color with the given 5-bit red, 6-bit green and 5-bit
/// blue channels.
pub open spec fn spec_rgb565(r: u8, g: u8, b: u8) -> u16 {
    (0x800 * ((r & 0x1f) as int) + 0x20 * ((g & 0x3f) as int) + ((b & 0x1f) as int)) as u16
}

/// Pack RGB565 channel values into their 16-bit wire form: red in the top
/// five bits, green in the middle six, blue in the low five.
pub fn rgb565_pack(r: u8, g: u8, b: u8) -> (c: u16)
    ensures
        c == spec_rgb565(r, g, b),
{
    let c = (((r & 0x1f) as u16) << 11) | (((g & 0x3f) as u16) << 5) | ((b & 0x1f) as u16);
    proof {
        assert(((((r & 0x1f) as u16) << 11) | (((g & 0x3f) as u16) << 5) | ((b & 0x1f) as u16))
            == (0x800 * ((r & 0x1f) as int) + 0x20 * ((g & 0x3f) as int) + ((b & 0x1f) as int))
            as u16) by (bit_vector);
    }
    c
}

/// A random-number request as it crosses the ABI: the kernel fills in the
/// requested form and hands it back.
#[derive(Debug)]
pub enum RngRequest {
    /// Request for one 32-bit value.
    U32(u32),
    /// Request for one 64-bit value.
    U64(u64),
    /// Request to fill a buffer with random bytes.
    Bytes(Vec<u8>),
}

/// The 32-bit value a fulfilled request carries; any other form yields
/// zero.
pub open spec fn spec_rng_u32(req: RngRequest) -> u32 {
    match req {
        RngRequest::U32(i) => i,
        _ => 0,
    }
}

/// The 64-bit value a fulfilled request carries; any other form yields
/// zero.
pub open spec fn spec_rng_u64(req: RngRequest) -> u64 {
    match req {
        RngRequest::U64(i) => i,
        _ => 0,
    }
}

/// The application-side random number source, fed by the `gen_rand`
/// syscall.
pub struct Rng;

impl Rng {
    /// Extract the 32-bit value from a request the kernel has fulfilled.
    pub fn u32_of_request(req: &RngRequest) -> (r: u32)
        ensures
            r == spec_rng_u32(*req),
    {
        match req {
            RngRequest::U32(i) => *i,
            _ => 0,
        }
    }

    /// Extract the 64-bit value from a request the kernel has fulfilled.
    pub fn u64_of_request(req: &RngRequest) -> (r: u64)
        ensures
            r == spec_rng_u64(*req),
    {
        match req {
            RngRequest::U64(i) => *i,
            _ => 0,
        }
    }
}

} // verus!
