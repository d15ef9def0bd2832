//! Requests: one transfer from a source region to a destination region.
//!
//! The native structure holds source and destination in untagged unions and
//! says which member is meant in the packed options. Here both are sum types,
//! so a request cannot name a member that it does not hold; the options that
//! go over the boundary are derived from the variants.

use vstd::prelude::*;
use crate::options::DSTORAGE_COMPRESSION_FORMAT;
use crate::options::DSTORAGE_REQUEST_DESTINATION_BUFFER;
use crate::options::DSTORAGE_REQUEST_DESTINATION_MEMORY;
use crate::options::DSTORAGE_REQUEST_DESTINATION_MULTIPLE_SUBRESOURCES;
use crate::options::DSTORAGE_REQUEST_DESTINATION_TEXTURE_REGION;
use crate::options::DSTORAGE_REQUEST_DESTINATION_TILES;
use crate::options::DSTORAGE_REQUEST_DESTINATION_TYPE;
use crate::options::DSTORAGE_REQUEST_OPTIONS;
use crate::options::DSTORAGE_REQUEST_SOURCE_FILE;
use crate::options::DSTORAGE_REQUEST_SOURCE_MEMORY;
use crate::options::DSTORAGE_REQUEST_SOURCE_TYPE;
use crate::options::lemma_zero_is_default;

verus! {

/// Stands for an object that the caller owns and the engine only refers to:
/// an open file, a device resource, a fence, a status array, an event or a
/// memory address.
pub type Handle = u64;

/// A box inside a texture subresource.
#[derive(Clone, Copy, Debug, PartialEq, Eq, Structural)]
pub struct D3D12_BOX {
    pub left: u32,
    pub top: u32,
    pub front: u32,
    pub right: u32,
    pub bottom: u32,
    pub back: u32,
}

/// The first tile of a tiled region.
#[derive(Clone, Copy, Debug, PartialEq, Eq, Structural)]
pub struct D3D12_TILED_RESOURCE_COORDINATE {
    pub X: u32,
    pub Y: u32,
    pub Z: u32,
    pub Subresource: u32,
}

/// The extent of a tiled region.
#[derive(Clone, Copy, Debug, PartialEq, Eq, Structural)]
pub struct D3D12_TILE_REGION_SIZE {
    pub NumTiles: u32,
    pub UseBox: bool,
    pub Width: u32,
    pub Height: u16,
    pub Depth: u16,
}

/// A region of an open file.
#[derive(Clone, Copy, Debug, PartialEq, Eq, Structural)]
pub struct DSTORAGE_SOURCE_FILE {
    pub Source: Handle,
    pub Offset: u64,
    pub Size: u32,
}

/// A region of memory to read from.
#[derive(Clone, Copy, Debug, PartialEq, Eq, Structural)]
pub struct DSTORAGE_SOURCE_MEMORY {
    pub Source: Handle,
    pub Size: u32,
}

/// A region of memory to write to.
#[derive(Clone, Copy, Debug, PartialEq, Eq, Structural)]
pub struct DSTORAGE_DESTINATION_MEMORY {
    pub Buffer: Handle,
    pub Size: u32,
}

/// A region of a device buffer.
#[derive(Clone, Copy, Debug, PartialEq, Eq, Structural)]
pub struct DSTORAGE_DESTINATION_BUFFER {
    pub Resource: Handle,
    pub Offset: u64,
    pub Size: u32,
}

/// A box of one subresource of a texture.
#[derive(Clone, Copy, Debug, PartialEq, Eq, Structural)]
pub struct DSTORAGE_DESTINATION_TEXTURE_REGION {
    pub Resource: Handle,
    pub SubresourceIndex: u32,
    pub Region: D3D12_BOX,
}

/// All subresources of a texture from a first one on.
#[derive(Clone, Copy, Debug, PartialEq, Eq, Structural)]
pub struct DSTORAGE_DESTINATION_MULTIPLE_SUBRESOURCES {
    pub Resource: Handle,
    pub FirstSubresource: u32,
}

/// A region of tiles of a tiled resource.
#[derive(Clone, Copy, Debug, PartialEq, Eq, Structural)]
pub struct DSTORAGE_DESTINATION_TILES {
    pub Resource: Handle,
    pub TiledRegionStartCoordinate: D3D12_TILED_RESOURCE_COORDINATE,
    pub TileRegionSize: D3D12_TILE_REGION_SIZE,
}

/// Where the bytes of a request come from.
#[derive(Clone, Copy, Debug, PartialEq, Eq, Structural)]
pub enum DSTORAGE_SOURCE {
    Memory(DSTORAGE_SOURCE_MEMORY),
    File(DSTORAGE_SOURCE_FILE),
}

/// Where the bytes of a request go.
#[derive(Clone, Copy, Debug, PartialEq, Eq, Structural)]
pub enum DSTORAGE_DESTINATION {
    Memory(DSTORAGE_DESTINATION_MEMORY),
    Buffer(DSTORAGE_DESTINATION_BUFFER),
    Texture(DSTORAGE_DESTINATION_TEXTURE_REGION),
    MultipleSubresources(DSTORAGE_DESTINATION_MULTIPLE_SUBRESOURCES),
    Tiles(DSTORAGE_DESTINATION_TILES),
}

impl DSTORAGE_SOURCE {
    /// The tag that names this variant in the packed options.
    pub open spec fn type_tag(self) -> DSTORAGE_REQUEST_SOURCE_TYPE {
        match self {
            DSTORAGE_SOURCE::File(_) => DSTORAGE_REQUEST_SOURCE_FILE,
            DSTORAGE_SOURCE::Memory(_) => DSTORAGE_REQUEST_SOURCE_MEMORY,
        }
    }

    /// The tag that names this variant in the packed options.
    pub fn SourceType(&self) -> (r: DSTORAGE_REQUEST_SOURCE_TYPE)
        ensures
            r == self.type_tag(),
    {
        match self {
            DSTORAGE_SOURCE::File(_) => DSTORAGE_REQUEST_SOURCE_FILE,
            DSTORAGE_SOURCE::Memory(_) => DSTORAGE_REQUEST_SOURCE_MEMORY,
        }
    }
}

impl DSTORAGE_DESTINATION {
    /// The tag that names this variant in the packed options.
    pub open spec fn type_tag(self) -> DSTORAGE_REQUEST_DESTINATION_TYPE {
        match self {
            DSTORAGE_DESTINATION::Memory(_) => DSTORAGE_REQUEST_DESTINATION_MEMORY,
            DSTORAGE_DESTINATION::Buffer(_) => DSTORAGE_REQUEST_DESTINATION_BUFFER,
            DSTORAGE_DESTINATION::Texture(_) => DSTORAGE_REQUEST_DESTINATION_TEXTURE_REGION,
            DSTORAGE_DESTINATION::MultipleSubresources(_) =>
                DSTORAGE_REQUEST_DESTINATION_MULTIPLE_SUBRESOURCES,
            DSTORAGE_DESTINATION::Tiles(_) => DSTORAGE_REQUEST_DESTINATION_TILES,
        }
    }

    /// The tag that names this variant in the packed options.
    pub fn DestinationType(&self) -> (r: DSTORAGE_REQUEST_DESTINATION_TYPE)
        ensures
            r == self.type_tag(),
    {
        match self {
            DSTORAGE_DESTINATION::Memory(_) => DSTORAGE_REQUEST_DESTINATION_MEMORY,
            DSTORAGE_DESTINATION::Buffer(_) => DSTORAGE_REQUEST_DESTINATION_BUFFER,
            DSTORAGE_DESTINATION::Texture(_) => DSTORAGE_REQUEST_DESTINATION_TEXTURE_REGION,
            DSTORAGE_DESTINATION::MultipleSubresources(_) =>
                DSTORAGE_REQUEST_DESTINATION_MULTIPLE_SUBRESOURCES,
            DSTORAGE_DESTINATION::Tiles(_) => DSTORAGE_REQUEST_DESTINATION_TILES,
        }
    }
}

/// One transfer, as it is handed to a queue.
#[derive(Clone, Debug)]
pub struct DSTORAGE_REQUEST {
    /// Compression of the source bytes, for this request only.
    pub CompressionFormat: DSTORAGE_COMPRESSION_FORMAT,
    pub Source: DSTORAGE_SOURCE,
    pub Destination: DSTORAGE_DESTINATION,
    /// Size of the data once decompressed.
    pub UncompressedSize: u32,
    /// Compared under a mask when requests are cancelled in bulk.
    pub CancellationTag: u64,
    /// A name for diagnostics.
    pub Name: Option<String>,
}

impl DSTORAGE_REQUEST {
    /// Whether packed options describe this request: they hold its
    /// compression format and the tags of its source and destination
    /// variants, and nothing in the reserved bits.
    pub open spec fn is_described_by(self, options: DSTORAGE_REQUEST_OPTIONS) -> bool {
        &&& options.format() == self.CompressionFormat
        &&& options.source_type() == self.Source.type_tag()
        &&& options.destination_type() == self.Destination.type_tag()
        &&& options.reserved() == 0
    }

    /// The packed options that go over the boundary with this request.
    pub fn Options(&self) -> (r: DSTORAGE_REQUEST_OPTIONS)
        ensures
            self.is_described_by(r),
    {
        let mut options = DSTORAGE_REQUEST_OPTIONS::default();
        proof {
            lemma_zero_is_default(options);
        }
        options.set_CompressionFormat(self.CompressionFormat);
        options.set_SourceType(self.Source.SourceType());
        options.set_DestinationType(self.Destination.DestinationType());
        options
    }

    /// Whether a bulk cancellation with this mask and value takes this
    /// request: the tag under the mask is the value.
    pub open spec fn is_cancelled_by(self, mask: u64, value: u64) -> bool {
        self.CancellationTag & mask == value
    }

    /// Whether a bulk cancellation with this mask and value takes this
    /// request.
    pub fn MatchesTag(&self, mask: u64, value: u64) -> (r: bool)
        ensures
            r == self.is_cancelled_by(mask, value),
    {
        self.CancellationTag & mask == value
    }
}

} // verus!
