//! Request options: three tags packed the way the MSVC compiler packs the
//! bitfields of the native `DSTORAGE_REQUEST_OPTIONS`.
//!
//! MSVC only shares a backing integer between bitfields of the same
//! underlying type. The 8-bit compression format therefore sits alone in a
//! byte, and the source type (1 bit), the destination type (7 bits) and the
//! reserved bits share a following 64-bit word.

use vstd::prelude::*;

verus! {

/// Compression applied to the source bytes of one request (8 bits wide).
pub type DSTORAGE_COMPRESSION_FORMAT = u8;

pub const DSTORAGE_COMPRESSION_FORMAT_NONE: DSTORAGE_COMPRESSION_FORMAT = 0;

pub const DSTORAGE_COMPRESSION_FORMAT_GDEFLATE: DSTORAGE_COMPRESSION_FORMAT = 1;

pub const DSTORAGE_CUSTOM_COMPRESSION_0: DSTORAGE_COMPRESSION_FORMAT = 0x80;

/// Where the bytes of a request come from (1 bit wide).
pub type DSTORAGE_REQUEST_SOURCE_TYPE = u64;

pub const DSTORAGE_REQUEST_SOURCE_FILE: DSTORAGE_REQUEST_SOURCE_TYPE = 0;

pub const DSTORAGE_REQUEST_SOURCE_MEMORY: DSTORAGE_REQUEST_SOURCE_TYPE = 1;

/// Where the bytes of a request go (7 bits wide).
pub type DSTORAGE_REQUEST_DESTINATION_TYPE = u64;

pub const DSTORAGE_REQUEST_DESTINATION_MEMORY: DSTORAGE_REQUEST_DESTINATION_TYPE = 0;

pub const DSTORAGE_REQUEST_DESTINATION_BUFFER: DSTORAGE_REQUEST_DESTINATION_TYPE = 1;

pub const DSTORAGE_REQUEST_DESTINATION_TEXTURE_REGION: DSTORAGE_REQUEST_DESTINATION_TYPE = 2;

pub const DSTORAGE_REQUEST_DESTINATION_MULTIPLE_SUBRESOURCES: DSTORAGE_REQUEST_DESTINATION_TYPE = 3;

pub const DSTORAGE_REQUEST_DESTINATION_TILES: DSTORAGE_REQUEST_DESTINATION_TYPE = 4;

/// Bit 0 of the shared word holds the source type.
pub const SOURCE_TYPE_MASK: u64 = 0x1;

/// Bits 1 to 7 of the shared word hold the destination type.
pub const DESTINATION_TYPE_MASK: u64 = 0xfe;

/// The largest value the destination type field can hold.
pub const DESTINATION_TYPE_MAX: u64 = 0x7f;

/// The packed options of one request.
#[derive(Clone, Copy, Debug, PartialEq, Eq, Structural)]
pub struct DSTORAGE_REQUEST_OPTIONS {
    /// Backing byte of the compression format.
    pub _bitfield1: u8,
    /// Backing word shared by source type, destination type and reserved bits.
    pub _bitfield2: u64,
}

impl Default for DSTORAGE_REQUEST_OPTIONS {
    fn default() -> (r: Self)
        ensures
            r._bitfield1 == 0,
            r._bitfield2 == 0,
    {
        DSTORAGE_REQUEST_OPTIONS { _bitfield1: 0, _bitfield2: 0 }
    }
}

/// What the shared word holds once `value` is stored in the source type
/// field of `word`: bit 0 is replaced, every other bit is kept.
pub open spec fn store_source_type(word: u64, value: u64) -> u64 {
    (word & !SOURCE_TYPE_MASK) | (value & SOURCE_TYPE_MASK)
}

/// What the shared word holds once `value` is stored in the destination type
/// field of `word`: bits 1 to 7 are replaced, every other bit is kept.
pub open spec fn store_destination_type(word: u64, value: u64) -> u64 {
    (word & !DESTINATION_TYPE_MASK) | ((value << 1) & DESTINATION_TYPE_MASK)
}

/// Bit 0 of a word.
pub open spec fn load_source_type(word: u64) -> u64 {
    word & SOURCE_TYPE_MASK
}

/// Bits 1 to 7 of a word, moved down to bit 0.
pub open spec fn load_destination_type(word: u64) -> u64 {
    (word >> 1) & DESTINATION_TYPE_MAX
}

/// The bits of a word that belong to neither tag.
pub open spec fn load_reserved(word: u64) -> u64 {
    word & !(SOURCE_TYPE_MASK | DESTINATION_TYPE_MASK)
}

proof fn lemma_shift_pair_is_source(word: u64)
    by (bit_vector)
    ensures
        (word << 63u32) >> 63u32 == word & 0x1,
{
}

proof fn lemma_shift_pair_is_destination(word: u64)
    by (bit_vector)
    ensures
        (word << 56u32) >> 57u32 == (word >> 1) & 0x7f,
{
}

proof fn lemma_store_source(word: u64, value: u64)
    by (bit_vector)
    ensures
        ((word & !0x1u64) | (value & 0x1)) & 0x1 == value & 0x1,
        (((word & !0x1u64) | (value & 0x1)) >> 1) & 0x7f == (word >> 1) & 0x7f,
        ((word & !0x1u64) | (value & 0x1)) & !(0x1u64 | 0xfe) == word & !(0x1u64 | 0xfe),
        value < 2 ==> value & 0x1 == value,
        value & 0x1 == value % 2,
{
}

proof fn lemma_store_destination(word: u64, value: u64)
    by (bit_vector)
    ensures
        (((word & !0xfeu64) | ((value << 1) & 0xfe)) >> 1) & 0x7f == value & 0x7f,
        ((word & !0xfeu64) | ((value << 1) & 0xfe)) & 0x1 == word & 0x1,
        ((word & !0xfeu64) | ((value << 1) & 0xfe)) & !(0x1u64 | 0xfe) == word & !(0x1u64 | 0xfe),
        value < 128 ==> value & 0x7f == value,
        value & 0x7f == value % 128,
{
}

proof fn lemma_zero_word()
    by (bit_vector)
    ensures
        0u64 & 0x1 == 0,
        (0u64 >> 1) & 0x7f == 0,
        0u64 & !(0x1u64 | 0xfe) == 0,
{
}

impl DSTORAGE_REQUEST_OPTIONS {
    /// The compression format field as a value.
    pub open spec fn format(self) -> DSTORAGE_COMPRESSION_FORMAT {
        self._bitfield1
    }

    /// The source type field as a value.
    pub open spec fn source_type(self) -> DSTORAGE_REQUEST_SOURCE_TYPE {
        load_source_type(self._bitfield2)
    }

    /// The destination type field as a value.
    pub open spec fn destination_type(self) -> DSTORAGE_REQUEST_DESTINATION_TYPE {
        load_destination_type(self._bitfield2)
    }

    /// The reserved bits, in place.
    pub open spec fn reserved(self) -> u64 {
        load_reserved(self._bitfield2)
    }

    /// These options with the compression format replaced by `value`.
    pub open spec fn with_format(self, value: DSTORAGE_COMPRESSION_FORMAT) -> Self {
        DSTORAGE_REQUEST_OPTIONS { _bitfield1: value, _bitfield2: self._bitfield2 }
    }

    /// These options with the source type replaced by the low bit of `value`.
    pub open spec fn with_source_type(self, value: DSTORAGE_REQUEST_SOURCE_TYPE) -> Self {
        DSTORAGE_REQUEST_OPTIONS {
            _bitfield1: self._bitfield1,
            _bitfield2: store_source_type(self._bitfield2, value),
        }
    }

    /// These options with the destination type replaced by the low seven bits
    /// of `value`.
    pub open spec fn with_destination_type(self, value: DSTORAGE_REQUEST_DESTINATION_TYPE) -> Self {
        DSTORAGE_REQUEST_OPTIONS {
            _bitfield1: self._bitfield1,
            _bitfield2: store_destination_type(self._bitfield2, value),
        }
    }

    /// Reads the compression format.
    pub fn CompressionFormat(&self) -> (r: DSTORAGE_COMPRESSION_FORMAT)
        ensures
            r == self.format(),
    {
        self._bitfield1
    }

    /// Stores the compression format. The field is a whole byte, so every
    /// value fits.
    pub fn set_CompressionFormat(&mut self, value: DSTORAGE_COMPRESSION_FORMAT)
        ensures
            *final(self) == old(self).with_format(value),
            final(self).format() == value,
            final(self).source_type() == old(self).source_type(),
            final(self).destination_type() == old(self).destination_type(),
            final(self).reserved() == old(self).reserved(),
    {
        self._bitfield1 = value;
    }

    /// Reads the source type.
    pub fn SourceType(&self) -> (r: DSTORAGE_REQUEST_SOURCE_TYPE)
        ensures
            r == self.source_type(),
            r < 2,
    {
        let word: u64 = self._bitfield2;
        proof {
            lemma_shift_pair_is_source(word);
            lemma_store_source(0, word);
        }
        (word << 63u32) >> 63u32
    }

    /// Stores the source type. A value of more than one bit is cut down to
    /// its lowest bit, as the native bitfield does.
    pub fn set_SourceType(&mut self, value: DSTORAGE_REQUEST_SOURCE_TYPE)
        ensures
            *final(self) == old(self).with_source_type(value),
            final(self).source_type() == value % 2,
            final(self).format() == old(self).format(),
            final(self).destination_type() == old(self).destination_type(),
            final(self).reserved() == old(self).reserved(),
    {
        proof {
            lemma_store_source(self._bitfield2, value);
        }
        let mask: u64 = SOURCE_TYPE_MASK;
        self._bitfield2 = (self._bitfield2 & !mask) | (value & mask);
    }

    /// Reads the destination type.
    pub fn DestinationType(&self) -> (r: DSTORAGE_REQUEST_DESTINATION_TYPE)
        ensures
            r == self.destination_type(),
            r < 128,
    {
        let word: u64 = self._bitfield2;
        proof {
            lemma_shift_pair_is_destination(word);
            lemma_store_destination(0, word >> 1);
        }
        (word << 56u32) >> 57u32
    }

    /// Stores the destination type. A value of more than seven bits is cut
    /// down to its lowest seven bits, as the native bitfield does.
    pub fn set_DestinationType(&mut self, value: DSTORAGE_REQUEST_DESTINATION_TYPE)
        ensures
            *final(self) == old(self).with_destination_type(value),
            final(self).destination_type() == value % 128,
            final(self).format() == old(self).format(),
            final(self).source_type() == old(self).source_type(),
            final(self).reserved() == old(self).reserved(),
    {
        proof {
            lemma_store_destination(self._bitfield2, value);
        }
        let mask: u64 = DESTINATION_TYPE_MASK;
        self._bitfield2 = (self._bitfield2 & !mask) | ((value << 1u32) & mask);
    }
}

/// A value that fits its field is read back unchanged after it is stored,
/// whatever the options held before.
pub proof fn lemma_set_then_get(
    options: DSTORAGE_REQUEST_OPTIONS,
    format: DSTORAGE_COMPRESSION_FORMAT,
    source: DSTORAGE_REQUEST_SOURCE_TYPE,
    destination: DSTORAGE_REQUEST_DESTINATION_TYPE,
)
    requires
        source <= SOURCE_TYPE_MASK,
        destination <= DESTINATION_TYPE_MAX,
    ensures
        options.with_format(format).format() == format,
        options.with_source_type(source).source_type() == source,
        options.with_destination_type(destination).destination_type() == destination,
{
    lemma_store_source(options._bitfield2, source);
    lemma_store_destination(options._bitfield2, destination);
}

/// A value too wide for its field is cut down to the field's width: the
/// source type keeps its lowest bit, the destination type its lowest seven.
pub proof fn lemma_set_truncates(
    options: DSTORAGE_REQUEST_OPTIONS,
    source: DSTORAGE_REQUEST_SOURCE_TYPE,
    destination: DSTORAGE_REQUEST_DESTINATION_TYPE,
)
    ensures
        options.with_source_type(source).source_type() == source % 2,
        options.with_destination_type(destination).destination_type() == destination % 128,
{
    lemma_store_source(options._bitfield2, source);
    lemma_store_destination(options._bitfield2, destination);
}

/// Storing one field leaves the other two fields and the reserved bits as
/// they were.
pub proof fn lemma_set_keeps_other_fields(
    options: DSTORAGE_REQUEST_OPTIONS,
    format: DSTORAGE_COMPRESSION_FORMAT,
    source: DSTORAGE_REQUEST_SOURCE_TYPE,
    destination: DSTORAGE_REQUEST_DESTINATION_TYPE,
)
    ensures
        options.with_format(format).source_type() == options.source_type(),
        options.with_format(format).destination_type() == options.destination_type(),
        options.with_format(format).reserved() == options.reserved(),
        options.with_source_type(source).format() == options.format(),
        options.with_source_type(source).destination_type() == options.destination_type(),
        options.with_source_type(source).reserved() == options.reserved(),
        options.with_destination_type(destination).format() == options.format(),
        options.with_destination_type(destination).source_type() == options.source_type(),
        options.with_destination_type(destination).reserved() == options.reserved(),
{
    lemma_store_source(options._bitfield2, source);
    lemma_store_destination(options._bitfield2, destination);
}

/// The all-zero options read as no compression, a file source and a memory
/// destination.
pub proof fn lemma_zero_is_default(options: DSTORAGE_REQUEST_OPTIONS)
    requires
        options._bitfield1 == 0,
        options._bitfield2 == 0,
    ensures
        options.format() == DSTORAGE_COMPRESSION_FORMAT_NONE,
        options.source_type() == DSTORAGE_REQUEST_SOURCE_FILE,
        options.destination_type() == DSTORAGE_REQUEST_DESTINATION_MEMORY,
        options.reserved() == 0,
{
    lemma_zero_word();
}

} // verus!
