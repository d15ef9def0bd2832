//! Chunked compression: a file is cut into windows of a fixed size, each
//! window is compressed on its own, and a chunk table records where each
//! stored chunk lies in the output stream.
//!
//! A chunk is stored compressed only if that makes it strictly smaller;
//! otherwise the window is stored as it is. The codec and the file system are
//! not part of this module: a caller reads the input, has the codec compress
//! each window that [`uncompressed`] lists, and hands the codec's outputs to
//! [`compressed`], which decides chunk by chunk and assembles the stream.

use vstd::prelude::*;
use vstd::arithmetic::div_mod::lemma_fundamental_div_mod_converse;
use vstd::slice::slice_subrange;

verus! {

/// One entry of a chunk table.
#[derive(Clone, Copy, Debug, PartialEq, Eq, Structural)]
pub struct ChunkMetadata {
    /// Whether the stored bytes are compressed.
    pub compressed: bool,
    /// Offset of the stored bytes in the stream that holds them.
    pub offset: u32,
    /// Number of bytes stored.
    pub compressed_size: u32,
    /// Number of bytes of the window.
    pub uncompressed_size: u32,
}

/// The chunk table of one file in one encoding.
#[derive(Clone, Debug)]
pub struct Metadata {
    /// Size of the file before it was encoded.
    pub uncompressed_size: u32,
    /// Size of the stored stream, literal chunks counted in full.
    pub compressed_size: u32,
    /// The chunks, in file order.
    pub chunks: Vec<ChunkMetadata>,
}

/// Why no chunk table was produced.
#[derive(Clone, Copy, Debug, PartialEq, Eq, Structural)]
pub enum PipelineError {
    /// The input does not fit the 32-bit size domain.
    InputTooLarge,
    /// The number of codec outputs is not the number of windows.
    ChunkCountMismatch,
}

/// Number of windows of `chunk` bytes that cover `size` bytes: `size / chunk`
/// rounded up.
pub open spec fn chunk_count(size: nat, chunk: nat) -> nat
    recommends
        chunk > 0,
{
    if size % chunk == 0 {
        size / chunk
    } else {
        size / chunk + 1
    }
}

/// Length of the window with the given index: `chunk` bytes, but for a last
/// window that the input ends in.
pub open spec fn window_len(size: nat, chunk: nat, index: nat) -> nat {
    if (index + 1) * chunk <= size {
        chunk
    } else {
        (size - index * chunk) as nat
    }
}

/// The entry of the pass-through table for one window.
pub open spec fn pass_through_chunk(size: nat, chunk: nat, index: nat) -> ChunkMetadata {
    ChunkMetadata {
        compressed: false,
        offset: (index * chunk) as u32,
        compressed_size: window_len(size, chunk, index) as u32,
        uncompressed_size: window_len(size, chunk, index) as u32,
    }
}

/// The chunk table of a file that is stored as it is.
pub open spec fn pass_through_table(size: nat, chunk: nat) -> Seq<ChunkMetadata> {
    Seq::new(chunk_count(size, chunk), |i: int| pass_through_chunk(size, chunk, i as nat))
}

/// Sum of the stored sizes of the first `count` entries of a table.
pub open spec fn total_stored(table: Seq<ChunkMetadata>, count: nat) -> nat
    decreases count,
{
    if count == 0 {
        0
    } else {
        total_stored(table, (count - 1) as nat) + table[count - 1].compressed_size as nat
    }
}

/// Sum of the window sizes of the first `count` entries of a table.
pub open spec fn total_windows(table: Seq<ChunkMetadata>, count: nat) -> nat
    decreases count,
{
    if count == 0 {
        0
    } else {
        total_windows(table, (count - 1) as nat) + table[count - 1].uncompressed_size as nat
    }
}

impl Metadata {
    /// The chunks as a sequence.
    pub open spec fn table(self) -> Seq<ChunkMetadata> {
        self.chunks@
    }

    /// What holds of every chunk table that this module makes. A chunk that
    /// is marked compressed is strictly smaller than its window, and one that
    /// is not is as large as its window. The chunks lie one behind the other
    /// in their stream, the first at offset 0. The stored sizes add up to the
    /// compressed size, and the window sizes to the uncompressed size.
    pub open spec fn well_formed(self) -> bool {
        let table = self.table();
        &&& forall|i: int|
            0 <= i < table.len() ==> if (#[trigger] table[i]).compressed {
                table[i].compressed_size < table[i].uncompressed_size
            } else {
                table[i].compressed_size == table[i].uncompressed_size
            }
        &&& forall|i: int|
            0 <= i < table.len() ==> (#[trigger] table[i]).offset == total_stored(table, i as nat)
        &&& self.compressed_size == total_stored(table, table.len())
        &&& self.uncompressed_size == total_windows(table, table.len())
    }
}

proof fn lemma_next_multiple(index: nat, chunk: nat)
    ensures
        (index + 1) * chunk == index * chunk + chunk,
{
    assert((index + 1) * chunk == index * chunk + chunk) by (nonlinear_arith);
}

/// The chunk table of a file of `file_size` bytes that is stored as it is, in
/// windows of `chunk_size_bytes`.
pub fn uncompressed(file_size: u64, chunk_size_bytes: u32) -> (r: Result<Metadata, PipelineError>)
    requires
        chunk_size_bytes > 0,
    ensures
        file_size > u32::MAX <==> r == Err::<Metadata, PipelineError>(PipelineError::InputTooLarge),
        file_size <= u32::MAX <==> r is Ok,
        r matches Ok(metadata) ==> {
            &&& metadata.uncompressed_size == file_size
            &&& metadata.compressed_size == file_size
            &&& metadata.table() == pass_through_table(file_size as nat, chunk_size_bytes as nat)
            &&& metadata.well_formed()
        },
{
    if file_size > u32::MAX as u64 {
        return Err(PipelineError::InputTooLarge);
    }
    let size: u32 = file_size as u32;
    let mut chunks_metadata: Vec<ChunkMetadata> = Vec::new();
    let mut offset: u32 = 0;
    let ghost chunk = chunk_size_bytes as nat;
    proof {
        if size == 0 {
            lemma_fundamental_div_mod_converse(0, chunk as int, 0, 0);
        }
    }
    while offset < size
        invariant
            chunk == chunk_size_bytes,
            chunk > 0,
            offset <= size,
            offset < size ==> offset == chunks_metadata.len() * chunk,
            offset == size ==> chunks_metadata.len() == chunk_count(size as nat, chunk),
            forall|j: int|
                0 <= j < chunks_metadata.len() ==> chunks_metadata[j] == pass_through_chunk(
                    size as nat,
                    chunk,
                    j as nat,
                ),
        decreases size - offset,
    {
        let ghost index = chunks_metadata.len() as nat;
        let rest: u32 = size - offset;
        let chunk_size: u32 = if rest < chunk_size_bytes {
            rest
        } else {
            chunk_size_bytes
        };
        proof {
            lemma_next_multiple(index, chunk);
            if rest < chunk_size_bytes {
                lemma_fundamental_div_mod_converse(
                    size as int,
                    chunk as int,
                    index as int,
                    rest as int,
                );
            } else if rest == chunk_size_bytes {
                lemma_fundamental_div_mod_converse(
                    size as int,
                    chunk as int,
                    index as int + 1,
                    0,
                );
            }
        }
        chunks_metadata.push(
            ChunkMetadata {
                compressed: false,
                offset,
                compressed_size: chunk_size,
                uncompressed_size: chunk_size,
            },
        );
        offset += chunk_size;
    }
    let metadata = Metadata {
        uncompressed_size: size,
        compressed_size: size,
        chunks: chunks_metadata,
    };
    assert(metadata.table() =~= pass_through_table(size as nat, chunk));
    proof {
        lemma_pass_through_is_well_formed(size as nat, chunk);
    }
    Ok(metadata)
}

/// A window is in the table exactly if it starts inside the input.
pub proof fn lemma_window_starts_inside(size: nat, chunk: nat, index: nat)
    requires
        chunk > 0,
    ensures
        index < chunk_count(size, chunk) <==> index * chunk < size,
        index < chunk_count(size, chunk) ==> 0 < window_len(size, chunk, index) <= chunk,
        index < chunk_count(size, chunk) ==> index * chunk + window_len(size, chunk, index) <= size,
        index + 1 < chunk_count(size, chunk) ==> window_len(size, chunk, index) == chunk,
        index + 1 == chunk_count(size, chunk) ==> index * chunk + window_len(size, chunk, index)
            == size,
{
    let q = size / chunk;
    let r = size % chunk;
    vstd::arithmetic::div_mod::lemma_fundamental_div_mod(size as int, chunk as int);
    assert(size == chunk * q + r);
    lemma_next_multiple(index, chunk);
    assert(index < q ==> (index + 1) * chunk <= q * chunk) by (nonlinear_arith)
        requires
            chunk > 0,
    ;
    assert(index >= q ==> index * chunk >= q * chunk) by (nonlinear_arith)
        requires
            chunk > 0,
    ;
    assert(index > q ==> index * chunk >= q * chunk + chunk) by (nonlinear_arith)
        requires
            chunk > 0,
    ;
    assert(chunk * q == q * chunk) by (nonlinear_arith);
}

/// The window with the given index: the bytes of the input that it covers.
pub open spec fn window(data: Seq<u8>, chunk: nat, index: nat) -> Seq<u8> {
    data.subrange(
        (index * chunk) as int,
        (index * chunk + window_len(data.len(), chunk, index)) as int,
    )
}

/// Whether a window is stored compressed: only if the codec made it strictly
/// smaller.
pub open spec fn stores_compressed(window: Seq<u8>, codec_output: Seq<u8>) -> bool {
    codec_output.len() < window.len()
}

/// The bytes stored for a window: the codec's output if that is strictly
/// smaller, else the window itself.
pub open spec fn stored_chunk(window: Seq<u8>, codec_output: Seq<u8>) -> Seq<u8> {
    if stores_compressed(window, codec_output) {
        codec_output
    } else {
        window
    }
}

/// The output stream after the first `count` chunks: what is stored for each,
/// one after the other in file order.
pub open spec fn stored_stream(
    data: Seq<u8>,
    chunk: nat,
    codec_outputs: Seq<Seq<u8>>,
    count: nat,
) -> Seq<u8>
    decreases count,
{
    if count == 0 {
        Seq::empty()
    } else {
        stored_stream(data, chunk, codec_outputs, (count - 1) as nat) + stored_chunk(
            window(data, chunk, (count - 1) as nat),
            codec_outputs[count - 1],
        )
    }
}

/// The entry of the chunk table for one window of a compressed file. Its
/// offset is the length of the stream before it, not the window's place in
/// the input.
pub open spec fn compressed_chunk(
    data: Seq<u8>,
    chunk: nat,
    codec_outputs: Seq<Seq<u8>>,
    index: nat,
) -> ChunkMetadata {
    let window = window(data, chunk, index);
    ChunkMetadata {
        compressed: stores_compressed(window, codec_outputs[index as int]),
        offset: stored_stream(data, chunk, codec_outputs, index).len() as u32,
        compressed_size: stored_chunk(window, codec_outputs[index as int]).len() as u32,
        uncompressed_size: window.len() as u32,
    }
}

/// The chunk table of a compressed file.
pub open spec fn compressed_table(data: Seq<u8>, chunk: nat, codec_outputs: Seq<Seq<u8>>) -> Seq<
    ChunkMetadata,
> {
    Seq::new(
        chunk_count(data.len(), chunk),
        |i: int| compressed_chunk(data, chunk, codec_outputs, i as nat),
    )
}

/// The codec's outputs as byte sequences, one per window.
pub open spec fn outputs_view(codec_outputs: Vec<Vec<u8>>) -> Seq<Seq<u8>> {
    Seq::new(codec_outputs.len() as nat, |i: int| codec_outputs[i]@)
}

/// A compressed file: its chunk table and the stream the table indexes.
#[derive(Clone, Debug)]
pub struct CompressedFile {
    pub metadata: Metadata,
    pub bytes: Vec<u8>,
}

/// The stream never outgrows the part of the input that it stands for.
proof fn lemma_stream_fits(data: Seq<u8>, chunk: nat, codec_outputs: Seq<Seq<u8>>, count: nat)
    requires
        chunk > 0,
        count <= chunk_count(data.len(), chunk),
    ensures
        stored_stream(data, chunk, codec_outputs, count).len() <= count * chunk,
        stored_stream(data, chunk, codec_outputs, count).len() <= data.len(),
        count < chunk_count(data.len(), chunk) ==> stored_stream(
            data,
            chunk,
            codec_outputs,
            count,
        ).len() <= count * chunk < data.len(),
    decreases count,
{
    lemma_window_starts_inside(data.len(), chunk, count);
    if count > 0 {
        let before = (count - 1) as nat;
        lemma_stream_fits(data, chunk, codec_outputs, before);
        lemma_window_starts_inside(data.len(), chunk, before);
        lemma_next_multiple(before, chunk);
    }
}

fn append_bytes(stream: &mut Vec<u8>, bytes: &[u8])
    ensures
        final(stream)@ == old(stream)@ + bytes@,
{
    let mut i: usize = 0;
    while i < bytes.len()
        invariant
            i <= bytes.len(),
            stream@ == old(stream)@ + bytes@.subrange(0, i as int),
        decreases bytes.len() - i,
    {
        stream.push(bytes[i]);
        i += 1;
        assert(stream@ =~= old(stream)@ + bytes@.subrange(0, i as int));
    }
    assert(bytes@.subrange(0, i as int) =~= bytes@);
}

/// The compressed encoding of `uncompressed_data` in windows of
/// `chunk_size_bytes`, given what the codec made of each window.
///
/// `codec_outputs` holds one output per window, in file order. The input
/// itself is needed too, since a chunk that the codec did not shrink is
/// stored as it is.
pub fn compressed(
    uncompressed_data: &Vec<u8>,
    codec_outputs: &Vec<Vec<u8>>,
    chunk_size_bytes: u32,
) -> (r: Result<CompressedFile, PipelineError>)
    requires
        chunk_size_bytes > 0,
    ensures
        uncompressed_data.len() > u32::MAX <==> r == Err::<CompressedFile, PipelineError>(
            PipelineError::InputTooLarge,
        ),
        uncompressed_data.len() <= u32::MAX && codec_outputs.len() != chunk_count(
            uncompressed_data.len() as nat,
            chunk_size_bytes as nat,
        ) <==> r == Err::<CompressedFile, PipelineError>(PipelineError::ChunkCountMismatch),
        r matches Ok(file) ==> {
            let data = uncompressed_data@;
            let chunk = chunk_size_bytes as nat;
            let outputs = outputs_view(*codec_outputs);
            &&& file.metadata.uncompressed_size == data.len()
            &&& file.metadata.compressed_size == file.bytes.len()
            &&& file.metadata.table() == compressed_table(data, chunk, outputs)
            &&& file.bytes@ == stored_stream(data, chunk, outputs, chunk_count(data.len(), chunk))
            &&& file.metadata.well_formed()
        },
{
    if uncompressed_data.len() > u32::MAX as usize {
        return Err(PipelineError::InputTooLarge);
    }
    let size: u32 = uncompressed_data.len() as u32;
    let full: u32 = size / chunk_size_bytes;
    let num_chunks: u64 = if size % chunk_size_bytes == 0 {
        full as u64
    } else {
        full as u64 + 1
    };
    if codec_outputs.len() as u64 != num_chunks {
        return Err(PipelineError::ChunkCountMismatch);
    }
    let ghost data = uncompressed_data@;
    let ghost chunk = chunk_size_bytes as nat;
    let ghost outputs = outputs_view(*codec_outputs);
    let ghost count = chunk_count(data.len(), chunk);
    let mut stream: Vec<u8> = Vec::new();
    let mut chunks_metadata: Vec<ChunkMetadata> = Vec::new();
    let mut chunk_offset: u32 = 0;
    let mut index: usize = 0;
    proof {
        lemma_window_starts_inside(data.len(), chunk, 0);
    }
    while chunk_offset < size
        invariant
            chunk == chunk_size_bytes,
            chunk > 0,
            data == uncompressed_data@,
            data.len() == size,
            outputs == outputs_view(*codec_outputs),
            count == chunk_count(data.len(), chunk),
            codec_outputs.len() == count,
            index == chunks_metadata.len(),
            index <= count,
            chunk_offset <= size,
            chunk_offset < size ==> chunk_offset == index * chunk,
            chunk_offset == size ==> index == count,
            stream@ == stored_stream(data, chunk, outputs, index as nat),
            forall|j: int|
                0 <= j < chunks_metadata.len() ==> chunks_metadata[j] == compressed_chunk(
                    data,
                    chunk,
                    outputs,
                    j as nat,
                ),
        decreases size - chunk_offset,
    {
        proof {
            lemma_window_starts_inside(data.len(), chunk, index as nat);
            lemma_window_starts_inside(data.len(), chunk, (index + 1) as nat);
            lemma_next_multiple(index as nat, chunk);
            lemma_stream_fits(data, chunk, outputs, index as nat);
        }
        let rest: u32 = size - chunk_offset;
        let chunk_size: u32 = if rest < chunk_size_bytes {
            rest
        } else {
            chunk_size_bytes
        };
        assert(chunk_size == window_len(data.len(), chunk, index as nat));
        let window_bytes = slice_subrange(
            uncompressed_data.as_slice(),
            chunk_offset as usize,
            (chunk_offset + chunk_size) as usize,
        );
        assert(window_bytes@ == window(data, chunk, index as nat));
        let codec_output = &codec_outputs[index];
        assert(codec_output@ == outputs[index as int]);
        let offset: u32 = stream.len() as u32;
        let is_compressed: bool = codec_output.len() < chunk_size as usize;
        if is_compressed {
            append_bytes(&mut stream, codec_output.as_slice());
            chunks_metadata.push(
                ChunkMetadata {
                    compressed: true,
                    offset,
                    compressed_size: codec_output.len() as u32,
                    uncompressed_size: chunk_size,
                },
            );
        } else {
            // Storing the window itself is the smaller choice.
            append_bytes(&mut stream, window_bytes);
            chunks_metadata.push(
                ChunkMetadata {
                    compressed: false,
                    offset,
                    compressed_size: chunk_size,
                    uncompressed_size: chunk_size,
                },
            );
        }
        chunk_offset += chunk_size;
        index += 1;
    }
    proof {
        lemma_stream_fits(data, chunk, outputs, count);
    }
    let metadata = Metadata {
        uncompressed_size: size,
        compressed_size: stream.len() as u32,
        chunks: chunks_metadata,
    };
    assert(metadata.table() =~= compressed_table(data, chunk, outputs));
    proof {
        lemma_compressed_is_well_formed(data, chunk, outputs);
    }
    Ok(CompressedFile { metadata, bytes: stream })
}

/// The bytes that a chunk table entry points at.
pub open spec fn chunk_bytes(stream: Seq<u8>, entry: ChunkMetadata) -> Seq<u8> {
    stream.subrange(entry.offset as int, entry.offset + entry.compressed_size)
}

/// The bytes of the window that an entry stands for, read back from the
/// stream: decoded if the entry is compressed, as they are if it is not.
pub open spec fn restored_chunk(
    stream: Seq<u8>,
    entry: ChunkMetadata,
    decode: spec_fn(Seq<u8>) -> Seq<u8>,
) -> Seq<u8> {
    if entry.compressed {
        decode(chunk_bytes(stream, entry))
    } else {
        chunk_bytes(stream, entry)
    }
}

/// The first `count` windows read back from the stream, one after the other
/// in table order.
pub open spec fn restored(
    stream: Seq<u8>,
    table: Seq<ChunkMetadata>,
    decode: spec_fn(Seq<u8>) -> Seq<u8>,
    count: nat,
) -> Seq<u8>
    decreases count,
{
    if count == 0 {
        Seq::empty()
    } else {
        restored(stream, table, decode, (count - 1) as nat) + restored_chunk(
            stream,
            table[count - 1],
            decode,
        )
    }
}

/// Pass-through: the number of chunks is the file size divided by the chunk
/// size, rounded up; no chunk is compressed; every chunk but the last is a
/// full window, and the last holds the remainder, or a full window if the
/// file size is a multiple of the chunk size.
pub proof fn lemma_pass_through_shape(size: nat, chunk: nat)
    requires
        chunk > 0,
        size <= u32::MAX,
    ensures
        pass_through_table(size, chunk).len() == chunk_count(size, chunk),
        forall|i: int|
            0 <= i < chunk_count(size, chunk) ==> {
                let entry = #[trigger] pass_through_table(size, chunk)[i];
                &&& !entry.compressed
                &&& entry.offset == i * chunk
                &&& entry.compressed_size == entry.uncompressed_size
                &&& i + 1 < chunk_count(size, chunk) ==> entry.uncompressed_size == chunk
                &&& i + 1 == chunk_count(size, chunk) ==> entry.uncompressed_size == if size
                    % chunk == 0 {
                    chunk
                } else {
                    size % chunk
                }
            },
{
    assert forall|i: int| 0 <= i < chunk_count(size, chunk) implies {
        let entry = #[trigger] pass_through_table(size, chunk)[i];
        &&& !entry.compressed
        &&& entry.offset == i * chunk
        &&& entry.compressed_size == entry.uncompressed_size
        &&& i + 1 < chunk_count(size, chunk) ==> entry.uncompressed_size == chunk
        &&& i + 1 == chunk_count(size, chunk) ==> entry.uncompressed_size == if size % chunk
            == 0 {
            chunk
        } else {
            size % chunk
        }
    } by {
        let index = i as nat;
        lemma_window_starts_inside(size, chunk, index);
        lemma_next_multiple(index, chunk);
        if i + 1 == chunk_count(size, chunk) {
            vstd::arithmetic::div_mod::lemma_fundamental_div_mod(size as int, chunk as int);
            let q = size / chunk;
            assert(chunk * q == q * chunk) by (nonlinear_arith);
            if size % chunk == 0 {
                assert(index * chunk + chunk == q * chunk) by (nonlinear_arith)
                    requires
                        index + 1 == q,
                ;
            }
        }
    }
}

/// Pass-through: the windows that the table lists, read from the file in
/// table order, are the file.
pub proof fn lemma_pass_through_restores_the_input(
    data: Seq<u8>,
    chunk: nat,
    decode: spec_fn(Seq<u8>) -> Seq<u8>,
)
    requires
        chunk > 0,
        data.len() <= u32::MAX,
    ensures
        restored(
            data,
            pass_through_table(data.len(), chunk),
            decode,
            chunk_count(data.len(), chunk),
        ) == data,
{
    let count = chunk_count(data.len(), chunk);
    lemma_pass_through_prefix(data, chunk, decode, count);
    lemma_window_starts_inside(data.len(), chunk, count);
    if count > 0 {
        lemma_window_starts_inside(data.len(), chunk, (count - 1) as nat);
        lemma_next_multiple((count - 1) as nat, chunk);
    }
    assert(data.subrange(0, data.len() as int) =~= data);
}

/// The end of the first `count` windows in the input.
spec fn windows_end(size: nat, chunk: nat, count: nat) -> nat {
    if count * chunk <= size {
        count * chunk
    } else {
        size
    }
}

proof fn lemma_pass_through_prefix(
    data: Seq<u8>,
    chunk: nat,
    decode: spec_fn(Seq<u8>) -> Seq<u8>,
    count: nat,
)
    requires
        chunk > 0,
        data.len() <= u32::MAX,
        count <= chunk_count(data.len(), chunk),
    ensures
        restored(data, pass_through_table(data.len(), chunk), decode, count) == data.subrange(
            0,
            windows_end(data.len(), chunk, count) as int,
        ),
    decreases count,
{
    let table = pass_through_table(data.len(), chunk);
    if count == 0 {
        assert(0 * chunk == 0) by (nonlinear_arith);
        assert(data.subrange(0, 0) =~= Seq::<u8>::empty());
    } else {
        let before = (count - 1) as nat;
        lemma_pass_through_prefix(data, chunk, decode, before);
        lemma_window_starts_inside(data.len(), chunk, before);
        lemma_next_multiple(before, chunk);
        let entry = table[before as int];
        assert(entry == pass_through_chunk(data.len(), chunk, before));
        assert(chunk_bytes(data, entry) == window(data, chunk, before));
        assert(data.subrange(0, windows_end(data.len(), chunk, before) as int) + window(
            data,
            chunk,
            before,
        ) =~= data.subrange(0, windows_end(data.len(), chunk, count) as int));
    }
}

/// Compressed: the stream after `count` chunks begins with the stream after
/// any smaller number of chunks.
proof fn lemma_stream_grows(
    data: Seq<u8>,
    chunk: nat,
    codec_outputs: Seq<Seq<u8>>,
    fewer: nat,
    count: nat,
)
    requires
        fewer <= count,
    ensures
        stored_stream(data, chunk, codec_outputs, fewer).len() <= stored_stream(
            data,
            chunk,
            codec_outputs,
            count,
        ).len(),
        stored_stream(data, chunk, codec_outputs, count).subrange(
            0,
            stored_stream(data, chunk, codec_outputs, fewer).len() as int,
        ) == stored_stream(data, chunk, codec_outputs, fewer),
    decreases count,
{
    let short = stored_stream(data, chunk, codec_outputs, fewer);
    let long = stored_stream(data, chunk, codec_outputs, count);
    if fewer == count {
        assert(long.subrange(0, short.len() as int) =~= short);
    } else {
        lemma_stream_grows(data, chunk, codec_outputs, fewer, (count - 1) as nat);
        let before = stored_stream(data, chunk, codec_outputs, (count - 1) as nat);
        assert(long.subrange(0, short.len() as int) =~= before.subrange(0, short.len() as int));
    }
}

/// Compressed: every entry of the table points at exactly the bytes that
/// were stored for its window. A compressed entry is strictly smaller than
/// its window, and an entry that is not compressed is as large as its window.
/// Each entry begins where the one before it ends, the first at 0, and the
/// last ends with the stream.
pub proof fn lemma_compressed_table_entry(
    data: Seq<u8>,
    chunk: nat,
    codec_outputs: Seq<Seq<u8>>,
    index: nat,
)
    requires
        chunk > 0,
        data.len() <= u32::MAX,
        index < chunk_count(data.len(), chunk),
    ensures
        ({
            let count = chunk_count(data.len(), chunk);
            let table = compressed_table(data, chunk, codec_outputs);
            let stream = stored_stream(data, chunk, codec_outputs, count);
            let entry = table[index as int];
            let window = window(data, chunk, index);
            &&& table.len() == count
            &&& entry.uncompressed_size == window.len()
            &&& window.len() == window_len(data.len(), chunk, index)
            &&& entry.compressed ==> entry.compressed_size < entry.uncompressed_size
            &&& !entry.compressed ==> entry.compressed_size == entry.uncompressed_size
            &&& entry.compressed == stores_compressed(window, codec_outputs[index as int])
            &&& entry.offset + entry.compressed_size <= stream.len()
            &&& chunk_bytes(stream, entry) == stored_chunk(window, codec_outputs[index as int])
            &&& index == 0 ==> entry.offset == 0
            &&& index > 0 ==> entry.offset == table[index - 1].offset + table[index
                - 1].compressed_size
            &&& index + 1 == count ==> entry.offset + entry.compressed_size == stream.len()
        }),
{
    let count = chunk_count(data.len(), chunk);
    let table = compressed_table(data, chunk, codec_outputs);
    let stream = stored_stream(data, chunk, codec_outputs, count);
    let entry = table[index as int];
    let window = window(data, chunk, index);
    let before = stored_stream(data, chunk, codec_outputs, index);
    let after = stored_stream(data, chunk, codec_outputs, index + 1);
    lemma_window_starts_inside(data.len(), chunk, index);
    lemma_stream_fits(data, chunk, codec_outputs, index);
    lemma_stream_fits(data, chunk, codec_outputs, index + 1);
    lemma_stream_fits(data, chunk, codec_outputs, count);
    lemma_stream_grows(data, chunk, codec_outputs, index + 1, count);
    assert(after == before + stored_chunk(window, codec_outputs[index as int]));
    assert(chunk_bytes(stream, entry) =~= after.subrange(
        before.len() as int,
        after.len() as int,
    ));
    assert(after.subrange(before.len() as int, after.len() as int) =~= stored_chunk(
        window,
        codec_outputs[index as int],
    ));
    if index > 0 {
        let previous = (index - 1) as nat;
        lemma_window_starts_inside(data.len(), chunk, previous);
        lemma_stream_fits(data, chunk, codec_outputs, previous);
        assert(table[previous as int] == compressed_chunk(data, chunk, codec_outputs, previous));
    }
}

/// Compressed: the stored sizes of the table add up to the length of the
/// stream, which is the compressed size that the metadata records.
pub proof fn lemma_stored_sizes_add_up(data: Seq<u8>, chunk: nat, codec_outputs: Seq<Seq<u8>>)
    requires
        chunk > 0,
        data.len() <= u32::MAX,
    ensures
        total_stored(
            compressed_table(data, chunk, codec_outputs),
            chunk_count(data.len(), chunk),
        ) == stored_stream(data, chunk, codec_outputs, chunk_count(data.len(), chunk)).len(),
{
    lemma_stored_sizes_prefix(data, chunk, codec_outputs, chunk_count(data.len(), chunk));
}

proof fn lemma_stored_sizes_prefix(
    data: Seq<u8>,
    chunk: nat,
    codec_outputs: Seq<Seq<u8>>,
    count: nat,
)
    requires
        chunk > 0,
        data.len() <= u32::MAX,
        count <= chunk_count(data.len(), chunk),
    ensures
        total_stored(compressed_table(data, chunk, codec_outputs), count) == stored_stream(
            data,
            chunk,
            codec_outputs,
            count,
        ).len(),
    decreases count,
{
    if count > 0 {
        let before = (count - 1) as nat;
        lemma_stored_sizes_prefix(data, chunk, codec_outputs, before);
        lemma_window_starts_inside(data.len(), chunk, before);
        lemma_stream_fits(data, chunk, codec_outputs, count);
    }
}

/// Compressed: if decoding undoes the codec on every window that is stored
/// compressed, then the chunks of the table, decoded or taken as they are and
/// put one after the other in table order, are the input.
pub proof fn lemma_chunks_restore_the_input(
    data: Seq<u8>,
    chunk: nat,
    codec_outputs: Seq<Seq<u8>>,
    decode: spec_fn(Seq<u8>) -> Seq<u8>,
)
    requires
        chunk > 0,
        data.len() <= u32::MAX,
        forall|i: int|
            0 <= i < chunk_count(data.len(), chunk) && stores_compressed(
                window(data, chunk, i as nat),
                #[trigger] codec_outputs[i],
            ) ==> decode(codec_outputs[i]) == window(data, chunk, i as nat),
    ensures
        restored(
            stored_stream(data, chunk, codec_outputs, chunk_count(data.len(), chunk)),
            compressed_table(data, chunk, codec_outputs),
            decode,
            chunk_count(data.len(), chunk),
        ) == data,
{
    let count = chunk_count(data.len(), chunk);
    lemma_chunks_restore_prefix(data, chunk, codec_outputs, decode, count);
    lemma_window_starts_inside(data.len(), chunk, count);
    if count > 0 {
        lemma_window_starts_inside(data.len(), chunk, (count - 1) as nat);
        lemma_next_multiple((count - 1) as nat, chunk);
    }
    assert(data.subrange(0, data.len() as int) =~= data);
}

proof fn lemma_chunks_restore_prefix(
    data: Seq<u8>,
    chunk: nat,
    codec_outputs: Seq<Seq<u8>>,
    decode: spec_fn(Seq<u8>) -> Seq<u8>,
    count: nat,
)
    requires
        chunk > 0,
        data.len() <= u32::MAX,
        count <= chunk_count(data.len(), chunk),
        forall|i: int|
            0 <= i < chunk_count(data.len(), chunk) && stores_compressed(
                window(data, chunk, i as nat),
                #[trigger] codec_outputs[i],
            ) ==> decode(codec_outputs[i]) == window(data, chunk, i as nat),
    ensures
        restored(
            stored_stream(data, chunk, codec_outputs, chunk_count(data.len(), chunk)),
            compressed_table(data, chunk, codec_outputs),
            decode,
            count,
        ) == data.subrange(0, windows_end(data.len(), chunk, count) as int),
    decreases count,
{
    if count == 0 {
        assert(0 * chunk == 0) by (nonlinear_arith);
        assert(data.subrange(0, 0) =~= Seq::<u8>::empty());
    } else {
        let before = (count - 1) as nat;
        lemma_chunks_restore_prefix(data, chunk, codec_outputs, decode, before);
        lemma_compressed_table_entry(data, chunk, codec_outputs, before);
        lemma_window_starts_inside(data.len(), chunk, before);
        lemma_next_multiple(before, chunk);
        assert(data.subrange(0, windows_end(data.len(), chunk, before) as int) + window(
            data,
            chunk,
            before,
        ) =~= data.subrange(0, windows_end(data.len(), chunk, count) as int));
    }
}

proof fn lemma_pass_through_totals(size: nat, chunk: nat, count: nat)
    requires
        chunk > 0,
        size <= u32::MAX,
        count <= chunk_count(size, chunk),
    ensures
        total_stored(pass_through_table(size, chunk), count) == windows_end(size, chunk, count),
        total_windows(pass_through_table(size, chunk), count) == windows_end(size, chunk, count),
        count < chunk_count(size, chunk) ==> windows_end(size, chunk, count) == count * chunk,
        count == chunk_count(size, chunk) ==> windows_end(size, chunk, count) == size,
    decreases count,
{
    lemma_window_starts_inside(size, chunk, count);
    if count == 0 {
        assert(0 * chunk == 0) by (nonlinear_arith);
    } else {
        let before = (count - 1) as nat;
        lemma_pass_through_totals(size, chunk, before);
        lemma_window_starts_inside(size, chunk, before);
        lemma_next_multiple(before, chunk);
    }
}

/// Pass-through: the table is well formed.
pub proof fn lemma_pass_through_is_well_formed(size: nat, chunk: nat)
    requires
        chunk > 0,
        size <= u32::MAX,
    ensures
        ({
            let table = pass_through_table(size, chunk);
            &&& forall|i: int|
                0 <= i < table.len() ==> !(#[trigger] table[i]).compressed
                    && table[i].compressed_size == table[i].uncompressed_size
            &&& forall|i: int|
                0 <= i < table.len() ==> (#[trigger] table[i]).offset == total_stored(
                    table,
                    i as nat,
                )
            &&& total_stored(table, table.len()) == size
            &&& total_windows(table, table.len()) == size
        }),
{
    let table = pass_through_table(size, chunk);
    lemma_pass_through_totals(size, chunk, table.len());
    assert forall|i: int| 0 <= i < table.len() implies (#[trigger] table[i]).offset
        == total_stored(table, i as nat) by {
        lemma_pass_through_totals(size, chunk, i as nat);
        lemma_window_starts_inside(size, chunk, i as nat);
    }
}

proof fn lemma_compressed_totals(
    data: Seq<u8>,
    chunk: nat,
    codec_outputs: Seq<Seq<u8>>,
    count: nat,
)
    requires
        chunk > 0,
        data.len() <= u32::MAX,
        count <= chunk_count(data.len(), chunk),
    ensures
        total_windows(compressed_table(data, chunk, codec_outputs), count) == windows_end(
            data.len(),
            chunk,
            count,
        ),
        count == chunk_count(data.len(), chunk) ==> windows_end(data.len(), chunk, count)
            == data.len(),
    decreases count,
{
    lemma_window_starts_inside(data.len(), chunk, count);
    if count == 0 {
        assert(0 * chunk == 0) by (nonlinear_arith);
    } else {
        let before = (count - 1) as nat;
        lemma_compressed_totals(data, chunk, codec_outputs, before);
        lemma_window_starts_inside(data.len(), chunk, before);
        lemma_next_multiple(before, chunk);
    }
}

/// Compressed: the table is well formed, and its sizes add up to the length
/// of the stream and to the length of the input.
pub proof fn lemma_compressed_is_well_formed(
    data: Seq<u8>,
    chunk: nat,
    codec_outputs: Seq<Seq<u8>>,
)
    requires
        chunk > 0,
        data.len() <= u32::MAX,
    ensures
        ({
            let table = compressed_table(data, chunk, codec_outputs);
            let stream = stored_stream(data, chunk, codec_outputs, chunk_count(data.len(), chunk));
            &&& forall|i: int|
                0 <= i < table.len() ==> if (#[trigger] table[i]).compressed {
                    table[i].compressed_size < table[i].uncompressed_size
                } else {
                    table[i].compressed_size == table[i].uncompressed_size
                }
            &&& forall|i: int|
                0 <= i < table.len() ==> (#[trigger] table[i]).offset == total_stored(
                    table,
                    i as nat,
                )
            &&& total_stored(table, table.len()) == stream.len()
            &&& stream.len() <= u32::MAX
            &&& total_windows(table, table.len()) == data.len()
        }),
{
    let table = compressed_table(data, chunk, codec_outputs);
    let count = chunk_count(data.len(), chunk);
    lemma_stored_sizes_prefix(data, chunk, codec_outputs, count);
    lemma_compressed_totals(data, chunk, codec_outputs, count);
    lemma_stream_fits(data, chunk, codec_outputs, count);
    assert forall|i: int| 0 <= i < table.len() implies (if (#[trigger] table[i]).compressed {
        table[i].compressed_size < table[i].uncompressed_size
    } else {
        table[i].compressed_size == table[i].uncompressed_size
    }) && table[i].offset == total_stored(table, i as nat) by {
        lemma_compressed_table_entry(data, chunk, codec_outputs, i as nat);
        lemma_stored_sizes_prefix(data, chunk, codec_outputs, i as nat);
        lemma_stream_fits(data, chunk, codec_outputs, i as nat);
    }
}

} // verus!
