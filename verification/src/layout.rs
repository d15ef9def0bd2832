//! Sizes and alignments of the structures exchanged with the native engine.
//!
//! The native side is compiled with MSVC, which lays a structure out in
//! declaration order: each member starts at the next multiple of its own
//! alignment, the structure is aligned like its most demanding member, and
//! its size is rounded up to that alignment. A union is as large as its
//! largest member, rounded up in the same way. This module derives the
//! layout of every interchange structure from its member list by these two
//! rules, for 32-bit and 64-bit pointers, and proves that the outcome is the
//! fixed table in [`abi_size`] and [`abi_align`].

use vstd::prelude::*;

verus! {

/// Width of a pointer on the target platform.
#[derive(Clone, Copy, Debug, PartialEq, Eq, Structural)]
pub enum PointerWidth {
    Bits32,
    Bits64,
}

impl PointerWidth {
    /// Size in bytes of a pointer or handle.
    pub open spec fn bytes(self) -> nat {
        match self {
            PointerWidth::Bits32 => 4,
            PointerWidth::Bits64 => 8,
        }
    }
}

/// Size and alignment of a type, in bytes.
#[derive(Clone, Copy, Debug, PartialEq, Eq, Structural)]
pub struct Layout {
    pub size: usize,
    pub align: usize,
}

/// Every structure that crosses the boundary to the native engine.
#[derive(Clone, Copy, Debug, PartialEq, Eq, Structural)]
pub enum AbiType {
    DSTORAGE_PRIORITY,
    DSTORAGE_REQUEST_SOURCE_TYPE,
    DSTORAGE_REQUEST_DESTINATION_TYPE,
    DSTORAGE_QUEUE_DESC,
    DSTORAGE_QUEUE_INFO,
    DSTORAGE_COMPRESSION_FORMAT,
    DSTORAGE_REQUEST_OPTIONS,
    DSTORAGE_DEBUG,
    DSTORAGE_SOURCE_FILE,
    DSTORAGE_SOURCE_MEMORY,
    DSTORAGE_DESTINATION_MEMORY,
    DSTORAGE_DESTINATION_BUFFER,
    DSTORAGE_DESTINATION_TEXTURE_REGION,
    DSTORAGE_DESTINATION_MULTIPLE_SUBRESOURCES,
    DSTORAGE_DESTINATION_TILES,
    DSTORAGE_SOURCE,
    DSTORAGE_DESTINATION,
    DSTORAGE_REQUEST,
    DSTORAGE_COMMAND_TYPE,
    DSTORAGE_ERROR_PARAMETERS_REQUEST,
    DSTORAGE_ERROR_PARAMETERS_STATUS,
    DSTORAGE_ERROR_PARAMETERS_SIGNAL,
    DSTORAGE_ERROR_PARAMETERS_EVENT,
    DSTORAGE_ERROR_FIRST_FAILURE,
    DSTORAGE_ERROR_RECORD,
    DSTORAGE_STAGING_BUFFER_SIZE,
    DSTORAGE_GET_REQUEST_FLAGS,
    DSTORAGE_CUSTOM_DECOMPRESSION_FLAGS,
    DSTORAGE_CUSTOM_DECOMPRESSION_REQUEST,
    DSTORAGE_CUSTOM_DECOMPRESSION_RESULT,
    DSTORAGE_CONFIGURATION,
    DSTORAGE_COMPRESSION,
}

/// The size in bytes that the native ABI fixes for each interchange
/// structure.
pub open spec fn abi_size(ty: AbiType, width: PointerWidth) -> nat {
    match ty {
        AbiType::DSTORAGE_PRIORITY => 1,
        AbiType::DSTORAGE_REQUEST_SOURCE_TYPE => 8,
        AbiType::DSTORAGE_REQUEST_DESTINATION_TYPE => 8,
        AbiType::DSTORAGE_QUEUE_DESC => by_width(width, 24, 32),
        AbiType::DSTORAGE_QUEUE_INFO => by_width(width, 32, 40),
        AbiType::DSTORAGE_COMPRESSION_FORMAT => 1,
        AbiType::DSTORAGE_REQUEST_OPTIONS => 16,
        AbiType::DSTORAGE_DEBUG => 4,
        AbiType::DSTORAGE_SOURCE_FILE => 24,
        AbiType::DSTORAGE_SOURCE_MEMORY => by_width(width, 8, 16),
        AbiType::DSTORAGE_DESTINATION_MEMORY => by_width(width, 8, 16),
        AbiType::DSTORAGE_DESTINATION_BUFFER => 24,
        AbiType::DSTORAGE_DESTINATION_TEXTURE_REGION => by_width(width, 32, 40),
        AbiType::DSTORAGE_DESTINATION_MULTIPLE_SUBRESOURCES => by_width(width, 8, 16),
        AbiType::DSTORAGE_DESTINATION_TILES => by_width(width, 36, 40),
        AbiType::DSTORAGE_SOURCE => 24,
        AbiType::DSTORAGE_DESTINATION => 40,
        AbiType::DSTORAGE_REQUEST => 104,
        AbiType::DSTORAGE_COMMAND_TYPE => 4,
        AbiType::DSTORAGE_ERROR_PARAMETERS_REQUEST => 688,
        AbiType::DSTORAGE_ERROR_PARAMETERS_STATUS => by_width(width, 8, 16),
        AbiType::DSTORAGE_ERROR_PARAMETERS_SIGNAL => 16,
        AbiType::DSTORAGE_ERROR_PARAMETERS_EVENT => by_width(width, 4, 8),
        AbiType::DSTORAGE_ERROR_FIRST_FAILURE => 696,
        AbiType::DSTORAGE_ERROR_RECORD => 704,
        AbiType::DSTORAGE_STAGING_BUFFER_SIZE => 4,
        AbiType::DSTORAGE_GET_REQUEST_FLAGS => 4,
        AbiType::DSTORAGE_CUSTOM_DECOMPRESSION_FLAGS => 4,
        AbiType::DSTORAGE_CUSTOM_DECOMPRESSION_REQUEST => 48,
        AbiType::DSTORAGE_CUSTOM_DECOMPRESSION_RESULT => 16,
        AbiType::DSTORAGE_CONFIGURATION => 28,
        AbiType::DSTORAGE_COMPRESSION => 4,
    }
}

/// The alignment in bytes that the native ABI fixes for each interchange
/// structure.
pub open spec fn abi_align(ty: AbiType, width: PointerWidth) -> nat {
    match ty {
        AbiType::DSTORAGE_PRIORITY => 1,
        AbiType::DSTORAGE_REQUEST_SOURCE_TYPE => 8,
        AbiType::DSTORAGE_REQUEST_DESTINATION_TYPE => 8,
        AbiType::DSTORAGE_QUEUE_DESC => 8,
        AbiType::DSTORAGE_QUEUE_INFO => 8,
        AbiType::DSTORAGE_COMPRESSION_FORMAT => 1,
        AbiType::DSTORAGE_REQUEST_OPTIONS => 8,
        AbiType::DSTORAGE_DEBUG => 4,
        AbiType::DSTORAGE_SOURCE_FILE => 8,
        AbiType::DSTORAGE_SOURCE_MEMORY => by_width(width, 4, 8),
        AbiType::DSTORAGE_DESTINATION_MEMORY => by_width(width, 4, 8),
        AbiType::DSTORAGE_DESTINATION_BUFFER => 8,
        AbiType::DSTORAGE_DESTINATION_TEXTURE_REGION => by_width(width, 4, 8),
        AbiType::DSTORAGE_DESTINATION_MULTIPLE_SUBRESOURCES => by_width(width, 4, 8),
        AbiType::DSTORAGE_DESTINATION_TILES => by_width(width, 4, 8),
        AbiType::DSTORAGE_SOURCE => 8,
        AbiType::DSTORAGE_DESTINATION => 8,
        AbiType::DSTORAGE_REQUEST => 8,
        AbiType::DSTORAGE_COMMAND_TYPE => 4,
        AbiType::DSTORAGE_ERROR_PARAMETERS_REQUEST => 8,
        AbiType::DSTORAGE_ERROR_PARAMETERS_STATUS => by_width(width, 4, 8),
        AbiType::DSTORAGE_ERROR_PARAMETERS_SIGNAL => 8,
        AbiType::DSTORAGE_ERROR_PARAMETERS_EVENT => by_width(width, 4, 8),
        AbiType::DSTORAGE_ERROR_FIRST_FAILURE => 8,
        AbiType::DSTORAGE_ERROR_RECORD => 8,
        AbiType::DSTORAGE_STAGING_BUFFER_SIZE => 4,
        AbiType::DSTORAGE_GET_REQUEST_FLAGS => 4,
        AbiType::DSTORAGE_CUSTOM_DECOMPRESSION_FLAGS => 4,
        AbiType::DSTORAGE_CUSTOM_DECOMPRESSION_REQUEST => 8,
        AbiType::DSTORAGE_CUSTOM_DECOMPRESSION_RESULT => 8,
        AbiType::DSTORAGE_CONFIGURATION => 4,
        AbiType::DSTORAGE_COMPRESSION => 4,
    }
}

/// One of two numbers of bytes: the first where pointers have 32 bits, the
/// second where they have 64.
pub open spec fn by_width(width: PointerWidth, narrow: nat, wide: nat) -> nat {
    match width {
        PointerWidth::Bits32 => narrow,
        PointerWidth::Bits64 => wide,
    }
}

/// The smallest multiple of `align` that is not below `offset`.
pub open spec fn round_up(offset: nat, align: nat) -> nat
    recommends
        align > 0,
{
    if offset % align == 0 {
        offset
    } else {
        (offset + align - offset % align) as nat
    }
}

/// Rounding up gives the next multiple: the result is a multiple of `align`,
/// it is not below `offset`, and no multiple of `align` lies between the two.
pub proof fn lemma_round_up_is_next_multiple(offset: nat, align: nat, multiple: nat)
    requires
        align > 0,
    ensures
        round_up(offset, align) % align == 0,
        offset <= round_up(offset, align) < offset + align,
        multiple % align == 0 && offset <= multiple ==> round_up(offset, align) <= multiple,
{
    let rest = offset % align;
    let up = round_up(offset, align);
    vstd::arithmetic::div_mod::lemma_fundamental_div_mod(offset as int, align as int);
    vstd::arithmetic::div_mod::lemma_fundamental_div_mod(multiple as int, align as int);
    let q = offset / align;
    let k = multiple / align;
    if rest != 0 {
        assert(up == (q + 1) * align && up == align * (q + 1)) by (nonlinear_arith)
            requires
                up == offset + align - rest,
                offset == align * q + rest,
        ;
        vstd::arithmetic::div_mod::lemma_fundamental_div_mod_converse(
            up as int,
            align as int,
            q as int + 1,
            0,
        );
        if multiple % align == 0 && offset <= multiple {
            assert(k > q) by (nonlinear_arith)
                requires
                    multiple == align * k,
                    offset == align * q + rest,
                    offset <= multiple,
                    0 < rest < align,
            ;
            assert(align * (q + 1) <= align * k) by (nonlinear_arith)
                requires
                    q + 1 <= k,
                    align > 0,
            ;
        }
    }
}

/// Largest size of any member or structure.
const MAX_SIZE: usize = 0x10000;

/// Layouts this module works with: an alignment of 1, 2, 4 or 8 bytes, and a
/// size small enough that offsets never overflow.
spec fn well_formed(layout: Layout) -> bool {
    &&& layout.align == 1 || layout.align == 2 || layout.align == 4 || layout.align == 8
    &&& layout.size <= MAX_SIZE
}

/// `round_up` for the alignments that occur, with the alignment written out
/// in each case: for an alignment of 1, 2, 4 or 8 this is
/// `round_up(offset, align)`.
spec fn round_up_to(offset: nat, align: nat) -> nat {
    if align == 1 {
        offset
    } else if align == 2 {
        round_up(offset, 2)
    } else if align == 4 {
        round_up(offset, 4)
    } else {
        round_up(offset, 8)
    }
}

/// The larger of two alignments.
spec fn wider(first: nat, second: nat) -> nat {
    if first > second {
        first
    } else {
        second
    }
}

fn align_up(offset: usize, align: usize) -> (r: usize)
    requires
        align == 1 || align == 2 || align == 4 || align == 8,
        offset <= MAX_SIZE,
    ensures
        r == round_up_to(offset as nat, align as nat),
        offset <= r < offset + align,
{
    let rest: usize = offset % align;
    if rest == 0 {
        offset
    } else {
        offset + (align - rest)
    }
}

/// The members of a structure placed so far, in declaration order.
struct StructBuilder {
    end: usize,
    align: usize,
}

impl StructBuilder {
    /// Offset of the first byte after the last member placed.
    closed spec fn end(self) -> nat {
        self.end as nat
    }

    /// Largest alignment among the members placed, 1 if there is none.
    closed spec fn align(self) -> nat {
        self.align as nat
    }

    /// Holds while the members placed leave room for one more.
    closed spec fn has_room(self) -> bool {
        &&& self.end <= MAX_SIZE
        &&& self.align == 1 || self.align == 2 || self.align == 4 || self.align == 8
    }

    /// A structure without members.
    fn new() -> (r: Self)
        ensures
            r.end() == 0,
            r.align() == 1,
            r.has_room(),
    {
        StructBuilder { end: 0, align: 1 }
    }

    /// Places the next member: at the next multiple of its alignment.
    fn field(&mut self, member: Layout)
        requires
            old(self).has_room(),
            well_formed(member),
            old(self).end() + 8 + member.size <= MAX_SIZE,
        ensures
            final(self).end() == round_up_to(old(self).end(), member.align as nat) + member.size,
            final(self).align() == wider(old(self).align(), member.align as nat),
            final(self).has_room(),
    {
        let start: usize = align_up(self.end, member.align);
        self.end = start + member.size;
        if member.align > self.align {
            self.align = member.align;
        }
    }

    /// Places an 8-bit integer.
    fn int8(&mut self)
        requires
            old(self).has_room(),
            old(self).end() + 16 <= MAX_SIZE,
        ensures
            final(self).end() == old(self).end() + 1,
            final(self).align() == wider(old(self).align(), 1),
            final(self).has_room(),
    {
        self.field(Layout { size: 1, align: 1 });
    }

    /// Places a 16-bit integer.
    fn int16(&mut self)
        requires
            old(self).has_room(),
            old(self).end() + 16 <= MAX_SIZE,
        ensures
            final(self).end() == round_up(old(self).end(), 2) + 2,
            final(self).align() == wider(old(self).align(), 2),
            final(self).has_room(),
    {
        self.field(Layout { size: 2, align: 2 });
    }

    /// Places a 32-bit integer, flag, status code or enumeration.
    fn int32(&mut self)
        requires
            old(self).has_room(),
            old(self).end() + 16 <= MAX_SIZE,
        ensures
            final(self).end() == round_up(old(self).end(), 4) + 4,
            final(self).align() == wider(old(self).align(), 4),
            final(self).has_room(),
    {
        self.field(Layout { size: 4, align: 4 });
    }

    /// Places a 64-bit integer.
    fn int64(&mut self)
        requires
            old(self).has_room(),
            old(self).end() + 16 <= MAX_SIZE,
        ensures
            final(self).end() == round_up(old(self).end(), 8) + 8,
            final(self).align() == wider(old(self).align(), 8),
            final(self).has_room(),
    {
        self.field(Layout { size: 8, align: 8 });
    }

    /// Places a pointer or handle: as wide as the platform's pointers, and
    /// aligned to that width.
    fn pointer(&mut self, width: PointerWidth)
        requires
            old(self).has_room(),
            old(self).end() + 16 <= MAX_SIZE,
        ensures
            final(self).end() == by_width(
                width,
                round_up(old(self).end(), 4) + 4,
                round_up(old(self).end(), 8) + 8,
            ),
            final(self).align() == wider(old(self).align(), by_width(width, 4, 8)),
            final(self).has_room(),
    {
        match width {
            PointerWidth::Bits32 => self.field(Layout { size: 4, align: 4 }),
            PointerWidth::Bits64 => self.field(Layout { size: 8, align: 8 }),
        }
    }

    /// Places an array of bytes: its elements follow each other without
    /// gaps.
    fn bytes(&mut self, count: usize)
        requires
            old(self).has_room(),
            old(self).end() + 8 + count <= MAX_SIZE,
        ensures
            final(self).end() == old(self).end() + count,
            final(self).align() == wider(old(self).align(), 1),
            final(self).has_room(),
    {
        self.field(Layout { size: count, align: 1 });
    }

    /// Places an array of UTF-16 units.
    fn utf16(&mut self, count: usize)
        requires
            old(self).has_room(),
            old(self).end() + 8 + 2 * count <= MAX_SIZE,
        ensures
            final(self).end() == round_up(old(self).end(), 2) + 2 * count,
            final(self).align() == wider(old(self).align(), 2),
            final(self).has_room(),
    {
        self.field(Layout { size: 2 * count, align: 2 });
    }

    /// The layout of the structure: its size is the end of the last member
    /// rounded up to the structure's alignment.
    fn finish(&self) -> (r: Layout)
        requires
            self.has_room(),
        ensures
            r.size == round_up_to(self.end(), self.align()),
            r.align == self.align(),
            well_formed(r),
    {
        Layout { size: align_up(self.end, self.align), align: self.align }
    }
}

/// The members of a union seen so far.
struct UnionBuilder {
    size: usize,
    align: usize,
}

impl UnionBuilder {
    /// Size of the largest member seen.
    closed spec fn size(self) -> nat {
        self.size as nat
    }

    /// Largest alignment among the members seen, 1 if there is none.
    closed spec fn align(self) -> nat {
        self.align as nat
    }

    /// Holds while the members seen are of a size this module works with.
    closed spec fn has_room(self) -> bool {
        &&& self.size <= MAX_SIZE
        &&& self.align == 1 || self.align == 2 || self.align == 4 || self.align == 8
    }

    /// A union without members.
    fn new() -> (r: Self)
        ensures
            r.size() == 0,
            r.align() == 1,
            r.has_room(),
    {
        UnionBuilder { size: 0, align: 1 }
    }

    /// Adds a member: every member starts at offset 0.
    fn member(&mut self, member: Layout)
        requires
            old(self).has_room(),
            well_formed(member),
        ensures
            final(self).size() == wider(old(self).size(), member.size as nat),
            final(self).align() == wider(old(self).align(), member.align as nat),
            final(self).has_room(),
    {
        if member.size > self.size {
            self.size = member.size;
        }
        if member.align > self.align {
            self.align = member.align;
        }
    }

    /// The layout of the union: the size of its largest member rounded up to
    /// the union's alignment.
    fn finish(&self) -> (r: Layout)
        requires
            self.has_room(),
        ensures
            r.size == round_up_to(self.size(), self.align()),
            r.align == self.align(),
            well_formed(r),
    {
        Layout { size: align_up(self.size, self.align), align: self.align }
    }
}

/// An integer of 1, 2, 4 or 8 bytes: aligned to its own size.
fn scalar(bytes: usize) -> (r: Layout)
    requires
        bytes == 1 || bytes == 2 || bytes == 4 || bytes == 8,
    ensures
        r.size == bytes,
        r.align == bytes,
{
    Layout { size: bytes, align: bytes }
}

/// A box of a texture: six 32-bit coordinates.
fn d3d12_box() -> (r: Layout)
    ensures
        r.size == 24,
        r.align == 4,
        well_formed(r),
{
    let mut members = StructBuilder::new();
    members.int32(); // left
    members.int32(); // top
    members.int32(); // front
    members.int32(); // right
    members.int32(); // bottom
    members.int32(); // back
    members.finish()
}

/// A tile coordinate: X, Y, Z and the subresource, 32 bits each.
fn d3d12_tiled_resource_coordinate() -> (r: Layout)
    ensures
        r.size == 16,
        r.align == 4,
        well_formed(r),
{
    let mut members = StructBuilder::new();
    members.int32(); // X
    members.int32(); // Y
    members.int32(); // Z
    members.int32(); // Subresource
    members.finish()
}

/// A tile region: tile count, box flag and width of 32 bits, height and depth of 16.
fn d3d12_tile_region_size() -> (r: Layout)
    ensures
        r.size == 16,
        r.align == 4,
        well_formed(r),
{
    let mut members = StructBuilder::new();
    members.int32(); // NumTiles
    members.int32(); // UseBox
    members.int32(); // Width
    members.int16(); // Height
    members.int16(); // Depth
    members.finish()
}

/// `DSTORAGE_QUEUE_DESC`, member by member.
fn queue_desc(width: PointerWidth) -> (r: Layout)
    ensures
        r.size == abi_size(AbiType::DSTORAGE_QUEUE_DESC, width),
        r.align == abi_align(AbiType::DSTORAGE_QUEUE_DESC, width),
        well_formed(r),
{
    let mut members = StructBuilder::new();
    members.int64(); // SourceType
    members.int16(); // Capacity
    members.int8(); // Priority
    members.pointer(width); // Name
    members.pointer(width); // Device
    members.finish()
}

/// `DSTORAGE_QUEUE_INFO`, member by member.
fn queue_info(width: PointerWidth) -> (r: Layout)
    ensures
        r.size == abi_size(AbiType::DSTORAGE_QUEUE_INFO, width),
        r.align == abi_align(AbiType::DSTORAGE_QUEUE_INFO, width),
        well_formed(r),
{
    let mut members = StructBuilder::new();
    members.field(queue_desc(width)); // Desc
    members.int16(); // EmptySlotCount
    members.int16(); // RequestCountUntilAutoSubmit
    members.finish()
}

/// `DSTORAGE_REQUEST_OPTIONS`, member by member.
fn request_options() -> (r: Layout)
    ensures
        r.size == abi_size(AbiType::DSTORAGE_REQUEST_OPTIONS, PointerWidth::Bits64),
        r.align == abi_align(AbiType::DSTORAGE_REQUEST_OPTIONS, PointerWidth::Bits64),
        well_formed(r),
{
    let mut members = StructBuilder::new();
    members.int8(); // CompressionFormat, alone in its byte
    members.bytes(7); // Reserved1
    members.int64(); // SourceType, DestinationType and Reserved, sharing a word
    members.finish()
}

/// `DSTORAGE_SOURCE_FILE`, member by member.
fn source_file(width: PointerWidth) -> (r: Layout)
    ensures
        r.size == abi_size(AbiType::DSTORAGE_SOURCE_FILE, width),
        r.align == abi_align(AbiType::DSTORAGE_SOURCE_FILE, width),
        well_formed(r),
{
    let mut members = StructBuilder::new();
    members.pointer(width); // Source
    members.int64(); // Offset
    members.int32(); // Size
    members.finish()
}

/// `DSTORAGE_SOURCE_MEMORY`, member by member.
fn source_memory(width: PointerWidth) -> (r: Layout)
    ensures
        r.size == abi_size(AbiType::DSTORAGE_SOURCE_MEMORY, width),
        r.align == abi_align(AbiType::DSTORAGE_SOURCE_MEMORY, width),
        well_formed(r),
{
    let mut members = StructBuilder::new();
    members.pointer(width); // Source
    members.int32(); // Size
    members.finish()
}

/// `DSTORAGE_DESTINATION_MEMORY`, member by member.
fn destination_memory(width: PointerWidth) -> (r: Layout)
    ensures
        r.size == abi_size(AbiType::DSTORAGE_DESTINATION_MEMORY, width),
        r.align == abi_align(AbiType::DSTORAGE_DESTINATION_MEMORY, width),
        well_formed(r),
{
    let mut members = StructBuilder::new();
    members.pointer(width); // Buffer
    members.int32(); // Size
    members.finish()
}

/// `DSTORAGE_DESTINATION_BUFFER`, member by member.
fn destination_buffer(width: PointerWidth) -> (r: Layout)
    ensures
        r.size == abi_size(AbiType::DSTORAGE_DESTINATION_BUFFER, width),
        r.align == abi_align(AbiType::DSTORAGE_DESTINATION_BUFFER, width),
        well_formed(r),
{
    let mut members = StructBuilder::new();
    members.pointer(width); // Resource
    members.int64(); // Offset
    members.int32(); // Size
    members.finish()
}

/// `DSTORAGE_DESTINATION_TEXTURE_REGION`, member by member.
fn destination_texture_region(width: PointerWidth) -> (r: Layout)
    ensures
        r.size == abi_size(AbiType::DSTORAGE_DESTINATION_TEXTURE_REGION, width),
        r.align == abi_align(AbiType::DSTORAGE_DESTINATION_TEXTURE_REGION, width),
        well_formed(r),
{
    let mut members = StructBuilder::new();
    members.pointer(width); // Resource
    members.int32(); // SubresourceIndex
    members.field(d3d12_box()); // Region
    members.finish()
}

/// `DSTORAGE_DESTINATION_MULTIPLE_SUBRESOURCES`, member by member.
fn destination_multiple_subresources(width: PointerWidth) -> (r: Layout)
    ensures
        r.size == abi_size(AbiType::DSTORAGE_DESTINATION_MULTIPLE_SUBRESOURCES, width),
        r.align == abi_align(AbiType::DSTORAGE_DESTINATION_MULTIPLE_SUBRESOURCES, width),
        well_formed(r),
{
    let mut members = StructBuilder::new();
    members.pointer(width); // Resource
    members.int32(); // FirstSubresource
    members.finish()
}

/// `DSTORAGE_DESTINATION_TILES`, member by member.
fn destination_tiles(width: PointerWidth) -> (r: Layout)
    ensures
        r.size == abi_size(AbiType::DSTORAGE_DESTINATION_TILES, width),
        r.align == abi_align(AbiType::DSTORAGE_DESTINATION_TILES, width),
        well_formed(r),
{
    let mut members = StructBuilder::new();
    members.pointer(width); // Resource
    members.field(d3d12_tiled_resource_coordinate()); // TiledRegionStartCoordinate
    members.field(d3d12_tile_region_size()); // TileRegionSize
    members.finish()
}

/// `DSTORAGE_SOURCE`, member by member.
fn source(width: PointerWidth) -> (r: Layout)
    ensures
        r.size == abi_size(AbiType::DSTORAGE_SOURCE, width),
        r.align == abi_align(AbiType::DSTORAGE_SOURCE, width),
        well_formed(r),
{
    let mut members = UnionBuilder::new();
    members.member(source_memory(width)); // Memory
    members.member(source_file(width)); // File
    members.finish()
}

/// `DSTORAGE_DESTINATION`, member by member.
fn destination(width: PointerWidth) -> (r: Layout)
    ensures
        r.size == abi_size(AbiType::DSTORAGE_DESTINATION, width),
        r.align == abi_align(AbiType::DSTORAGE_DESTINATION, width),
        well_formed(r),
{
    let mut members = UnionBuilder::new();
    members.member(destination_memory(width)); // Memory
    members.member(destination_buffer(width)); // Buffer
    members.member(destination_texture_region(width)); // Texture
    members.member(destination_multiple_subresources(width)); // MultipleSubresources
    members.member(destination_tiles(width)); // Tiles
    members.finish()
}

/// `DSTORAGE_REQUEST`, member by member.
fn request(width: PointerWidth) -> (r: Layout)
    ensures
        r.size == abi_size(AbiType::DSTORAGE_REQUEST, width),
        r.align == abi_align(AbiType::DSTORAGE_REQUEST, width),
        well_formed(r),
{
    let mut members = StructBuilder::new();
    members.field(request_options()); // Options
    members.field(source(width)); // Source
    members.field(destination(width)); // Destination
    members.int32(); // UncompressedSize
    members.int64(); // CancellationTag
    members.pointer(width); // Name
    members.finish()
}

/// `DSTORAGE_ERROR_PARAMETERS_REQUEST`, member by member.
fn error_parameters_request(width: PointerWidth) -> (r: Layout)
    ensures
        r.size == abi_size(AbiType::DSTORAGE_ERROR_PARAMETERS_REQUEST, width),
        r.align == abi_align(AbiType::DSTORAGE_ERROR_PARAMETERS_REQUEST, width),
        well_formed(r),
{
    let mut members = StructBuilder::new();
    members.utf16(260); // Filename
    members.bytes(64); // RequestName
    members.field(request(width)); // Request
    members.finish()
}

/// `DSTORAGE_ERROR_PARAMETERS_STATUS`, member by member.
fn error_parameters_status(width: PointerWidth) -> (r: Layout)
    ensures
        r.size == abi_size(AbiType::DSTORAGE_ERROR_PARAMETERS_STATUS, width),
        r.align == abi_align(AbiType::DSTORAGE_ERROR_PARAMETERS_STATUS, width),
        well_formed(r),
{
    let mut members = StructBuilder::new();
    members.pointer(width); // StatusArray
    members.int32(); // Index
    members.finish()
}

/// `DSTORAGE_ERROR_PARAMETERS_SIGNAL`, member by member.
fn error_parameters_signal(width: PointerWidth) -> (r: Layout)
    ensures
        r.size == abi_size(AbiType::DSTORAGE_ERROR_PARAMETERS_SIGNAL, width),
        r.align == abi_align(AbiType::DSTORAGE_ERROR_PARAMETERS_SIGNAL, width),
        well_formed(r),
{
    let mut members = StructBuilder::new();
    members.pointer(width); // Fence
    members.int64(); // Value
    members.finish()
}

/// `DSTORAGE_ERROR_PARAMETERS_EVENT`, member by member.
fn error_parameters_event(width: PointerWidth) -> (r: Layout)
    ensures
        r.size == abi_size(AbiType::DSTORAGE_ERROR_PARAMETERS_EVENT, width),
        r.align == abi_align(AbiType::DSTORAGE_ERROR_PARAMETERS_EVENT, width),
        well_formed(r),
{
    let mut members = StructBuilder::new();
    members.pointer(width); // Handle
    members.finish()
}

/// The parameters of a failed command, one member per command kind.
fn error_parameters(width: PointerWidth) -> (r: Layout)
    ensures
        r.size == 688,
        r.align == 8,
        well_formed(r),
{
    let mut members = UnionBuilder::new();
    members.member(error_parameters_request(width)); // Request
    members.member(error_parameters_status(width)); // Status
    members.member(error_parameters_signal(width)); // Signal
    members.member(error_parameters_event(width)); // Event
    members.finish()
}

/// `DSTORAGE_ERROR_FIRST_FAILURE`, member by member.
fn error_first_failure(width: PointerWidth) -> (r: Layout)
    ensures
        r.size == abi_size(AbiType::DSTORAGE_ERROR_FIRST_FAILURE, width),
        r.align == abi_align(AbiType::DSTORAGE_ERROR_FIRST_FAILURE, width),
        well_formed(r),
{
    let mut members = StructBuilder::new();
    members.int32(); // HResult
    members.int32(); // CommandType
    members.field(error_parameters(width)); // Parameters
    members.finish()
}

/// `DSTORAGE_ERROR_RECORD`, member by member.
fn error_record(width: PointerWidth) -> (r: Layout)
    ensures
        r.size == abi_size(AbiType::DSTORAGE_ERROR_RECORD, width),
        r.align == abi_align(AbiType::DSTORAGE_ERROR_RECORD, width),
        well_formed(r),
{
    let mut members = StructBuilder::new();
    members.int32(); // FailureCount
    members.field(error_first_failure(width)); // FirstFailure
    members.finish()
}

/// `DSTORAGE_CUSTOM_DECOMPRESSION_REQUEST`, member by member.
fn custom_decompression_request(width: PointerWidth) -> (r: Layout)
    ensures
        r.size == abi_size(AbiType::DSTORAGE_CUSTOM_DECOMPRESSION_REQUEST, width),
        r.align == abi_align(AbiType::DSTORAGE_CUSTOM_DECOMPRESSION_REQUEST, width),
        well_formed(r),
{
    let mut members = StructBuilder::new();
    members.int64(); // Id
    members.int8(); // CompressionFormat
    members.bytes(3); // Reserved
    members.int32(); // Flags
    members.int64(); // SrcSize
    members.pointer(width); // SrcBuffer
    members.int64(); // DstSize
    members.pointer(width); // DstBuffer
    members.finish()
}

/// `DSTORAGE_CUSTOM_DECOMPRESSION_RESULT`, member by member.
fn custom_decompression_result(width: PointerWidth) -> (r: Layout)
    ensures
        r.size == abi_size(AbiType::DSTORAGE_CUSTOM_DECOMPRESSION_RESULT, width),
        r.align == abi_align(AbiType::DSTORAGE_CUSTOM_DECOMPRESSION_RESULT, width),
        well_formed(r),
{
    let mut members = StructBuilder::new();
    members.int64(); // Id
    members.int32(); // Result
    members.finish()
}

/// `DSTORAGE_CONFIGURATION`, member by member.
fn configuration(width: PointerWidth) -> (r: Layout)
    ensures
        r.size == abi_size(AbiType::DSTORAGE_CONFIGURATION, width),
        r.align == abi_align(AbiType::DSTORAGE_CONFIGURATION, width),
        well_formed(r),
{
    let mut members = StructBuilder::new();
    members.int32(); // NumSubmitThreads
    members.int32(); // NumBuiltInCpuDecompressionThreads
    members.int32(); // ForceMappingLayer
    members.int32(); // DisableBypassIO
    members.int32(); // DisableTelemetry
    members.int32(); // DisableGpuDecompressionMetacommand
    members.int32(); // DisableGpuDecompression
    members.finish()
}

/// The layout of an interchange structure, derived from its members.
pub fn layout_of(ty: AbiType, width: PointerWidth) -> (r: Layout)
    ensures
        r.size == abi_size(ty, width),
        r.align == abi_align(ty, width),
{
    match ty {
        AbiType::DSTORAGE_PRIORITY => scalar(1),
        AbiType::DSTORAGE_REQUEST_SOURCE_TYPE => scalar(8),
        AbiType::DSTORAGE_REQUEST_DESTINATION_TYPE => scalar(8),
        AbiType::DSTORAGE_QUEUE_DESC => queue_desc(width),
        AbiType::DSTORAGE_QUEUE_INFO => queue_info(width),
        AbiType::DSTORAGE_COMPRESSION_FORMAT => scalar(1),
        AbiType::DSTORAGE_REQUEST_OPTIONS => request_options(),
        AbiType::DSTORAGE_DEBUG => scalar(4),
        AbiType::DSTORAGE_SOURCE_FILE => source_file(width),
        AbiType::DSTORAGE_SOURCE_MEMORY => source_memory(width),
        AbiType::DSTORAGE_DESTINATION_MEMORY => destination_memory(width),
        AbiType::DSTORAGE_DESTINATION_BUFFER => destination_buffer(width),
        AbiType::DSTORAGE_DESTINATION_TEXTURE_REGION => destination_texture_region(width),
        AbiType::DSTORAGE_DESTINATION_MULTIPLE_SUBRESOURCES => destination_multiple_subresources(
            width,
        ),
        AbiType::DSTORAGE_DESTINATION_TILES => destination_tiles(width),
        AbiType::DSTORAGE_SOURCE => source(width),
        AbiType::DSTORAGE_DESTINATION => destination(width),
        AbiType::DSTORAGE_REQUEST => request(width),
        AbiType::DSTORAGE_COMMAND_TYPE => scalar(4),
        AbiType::DSTORAGE_ERROR_PARAMETERS_REQUEST => error_parameters_request(width),
        AbiType::DSTORAGE_ERROR_PARAMETERS_STATUS => error_parameters_status(width),
        AbiType::DSTORAGE_ERROR_PARAMETERS_SIGNAL => error_parameters_signal(width),
        AbiType::DSTORAGE_ERROR_PARAMETERS_EVENT => error_parameters_event(width),
        AbiType::DSTORAGE_ERROR_FIRST_FAILURE => error_first_failure(width),
        AbiType::DSTORAGE_ERROR_RECORD => error_record(width),
        AbiType::DSTORAGE_STAGING_BUFFER_SIZE => scalar(4),
        AbiType::DSTORAGE_GET_REQUEST_FLAGS => scalar(4),
        AbiType::DSTORAGE_CUSTOM_DECOMPRESSION_FLAGS => scalar(4),
        AbiType::DSTORAGE_CUSTOM_DECOMPRESSION_REQUEST => custom_decompression_request(width),
        AbiType::DSTORAGE_CUSTOM_DECOMPRESSION_RESULT => custom_decompression_result(width),
        AbiType::DSTORAGE_CONFIGURATION => configuration(width),
        AbiType::DSTORAGE_COMPRESSION => scalar(4),
    }
}

/// The size in bytes of an interchange structure.
pub fn size_of(ty: AbiType, width: PointerWidth) -> (r: usize)
    ensures
        r == abi_size(ty, width),
{
    layout_of(ty, width).size
}

/// The alignment in bytes of an interchange structure.
pub fn align_of(ty: AbiType, width: PointerWidth) -> (r: usize)
    ensures
        r == abi_align(ty, width),
{
    layout_of(ty, width).align
}

} // verus!
