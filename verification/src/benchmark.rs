//! The benchmark harness: which runs to make, what to enqueue for each, and
//! how the measurements are tabulated.
//!
//! The harness loads one file through the engine under three test cases and
//! nine staging buffer sizes. It skips every staging size that is smaller
//! than the chunk size, since the engine needs a whole chunk to fit the
//! staging buffer. The engine calls themselves, the clock and the printing
//! are the caller's.

use vstd::prelude::*;
use crate::compression::ChunkMetadata;
use crate::compression::Metadata;
use crate::compression::total_windows;
use crate::options::DSTORAGE_COMPRESSION_FORMAT;
use crate::options::DSTORAGE_COMPRESSION_FORMAT_GDEFLATE;
use crate::options::DSTORAGE_COMPRESSION_FORMAT_NONE;
use crate::queue::Command;
use crate::queue::CommandQueue;
use crate::queue::QueueError;
use crate::request::DSTORAGE_DESTINATION;
use crate::request::DSTORAGE_DESTINATION_BUFFER;
use crate::request::DSTORAGE_REQUEST;
use crate::request::DSTORAGE_SOURCE;
use crate::request::DSTORAGE_SOURCE_FILE;
use crate::request::Handle;

verus! {

/// How the file is stored and where it is decompressed.
#[derive(Clone, Copy, Debug, PartialEq, Eq, Structural)]
pub enum TestCase {
    Uncompressed,
    CpuGDeflate,
    GpuGDeflate,
}

/// Settings of the engine. They are set before any queue is created.
#[derive(Clone, Copy, Debug, PartialEq, Eq, Structural)]
pub struct DSTORAGE_CONFIGURATION {
    /// Number of threads that submit to the file system; 0 lets the engine
    /// choose.
    pub NumSubmitThreads: u32,
    /// Number of threads that decompress on the CPU; 0 lets the engine
    /// choose.
    pub NumBuiltInCpuDecompressionThreads: i32,
    pub ForceMappingLayer: bool,
    pub DisableBypassIO: bool,
    pub DisableTelemetry: bool,
    pub DisableGpuDecompressionMetacommand: bool,
    pub DisableGpuDecompression: bool,
}

/// The settings that leave every choice to the engine.
pub open spec fn default_configuration() -> DSTORAGE_CONFIGURATION {
    DSTORAGE_CONFIGURATION {
        NumSubmitThreads: 0,
        NumBuiltInCpuDecompressionThreads: 0,
        ForceMappingLayer: false,
        DisableBypassIO: false,
        DisableTelemetry: false,
        DisableGpuDecompressionMetacommand: false,
        DisableGpuDecompression: false,
    }
}

impl Default for DSTORAGE_CONFIGURATION {
    fn default() -> (r: Self)
        ensures
            r == default_configuration(),
    {
        DSTORAGE_CONFIGURATION {
            NumSubmitThreads: 0,
            NumBuiltInCpuDecompressionThreads: 0,
            ForceMappingLayer: false,
            DisableBypassIO: false,
            DisableTelemetry: false,
            DisableGpuDecompressionMetacommand: false,
            DisableGpuDecompression: false,
        }
    }
}

/// Number of trials of each run.
pub const NUM_RUNS: u32 = 10;

/// Chunk size in MiB where none is given.
pub const DEFAULT_CHUNK_SIZE_MIB: u32 = 16;

/// Number of bytes in one MiB.
pub const MIB: u32 = 0x10_0000;

/// Number of staging buffer sizes that are tried.
pub const STAGING_SIZE_COUNT: u32 = 9;

impl TestCase {
    /// The format of the chunks that are stored compressed.
    pub open spec fn format(self) -> DSTORAGE_COMPRESSION_FORMAT {
        match self {
            TestCase::Uncompressed => DSTORAGE_COMPRESSION_FORMAT_NONE,
            TestCase::CpuGDeflate => DSTORAGE_COMPRESSION_FORMAT_GDEFLATE,
            TestCase::GpuGDeflate => DSTORAGE_COMPRESSION_FORMAT_GDEFLATE,
        }
    }

    /// The settings of the engine: the defaults, but with decompression on
    /// the GPU switched off where the CPU is to decompress.
    pub open spec fn configuration(self) -> DSTORAGE_CONFIGURATION {
        match self {
            TestCase::CpuGDeflate => DSTORAGE_CONFIGURATION {
                DisableGpuDecompression: true,
                ..default_configuration()
            },
            _ => default_configuration(),
        }
    }

    /// The format of the chunks that are stored compressed.
    pub fn CompressionFormat(&self) -> (r: DSTORAGE_COMPRESSION_FORMAT)
        ensures
            r == self.format(),
    {
        match self {
            TestCase::Uncompressed => DSTORAGE_COMPRESSION_FORMAT_NONE,
            TestCase::CpuGDeflate => DSTORAGE_COMPRESSION_FORMAT_GDEFLATE,
            TestCase::GpuGDeflate => DSTORAGE_COMPRESSION_FORMAT_GDEFLATE,
        }
    }

    /// The settings of the engine for this test case.
    pub fn Configuration(&self) -> (r: DSTORAGE_CONFIGURATION)
        ensures
            r == self.configuration(),
    {
        let mut configuration = DSTORAGE_CONFIGURATION::default();
        match self {
            TestCase::CpuGDeflate => {
                configuration.NumBuiltInCpuDecompressionThreads = 0;
                configuration.DisableGpuDecompression = true;
            },
            _ => {},
        }
        configuration
    }

    /// Whether the run reads the compressed file: every case but the first
    /// does.
    pub fn ReadsCompressedFile(&self) -> (r: bool)
        ensures
            r == (self != TestCase::Uncompressed),
    {
        match self {
            TestCase::Uncompressed => false,
            _ => true,
        }
    }
}

/// Why a size given in MiB was refused.
#[derive(Clone, Copy, Debug, PartialEq, Eq, Structural)]
pub enum SizeError {
    /// The size is 0.
    Zero,
    /// The size in bytes does not fit 32 bits.
    TooLarge,
}

/// Largest size in MiB whose size in bytes fits 32 bits.
pub const MAX_SIZE_MIB: u32 = 4095;

/// A size given in MiB, in bytes. The size is positive and fits 32 bits, or
/// it is refused.
pub fn SizeInBytes(size_mib: u32) -> (r: Result<u32, SizeError>)
    ensures
        size_mib == 0 <==> r == Err::<u32, SizeError>(SizeError::Zero),
        size_mib > MAX_SIZE_MIB <==> r == Err::<u32, SizeError>(SizeError::TooLarge),
        0 < size_mib <= MAX_SIZE_MIB <==> r is Ok,
        r matches Ok(bytes) ==> bytes == size_mib * MIB && bytes > 0,
{
    if size_mib == 0 {
        Err(SizeError::Zero)
    } else if size_mib > MAX_SIZE_MIB {
        Err(SizeError::TooLarge)
    } else {
        Ok(size_mib * MIB)
    }
}

/// The chunk size in MiB that the harness works with, given the chunk size
/// that was asked for, if any: the default where none was asked for.
pub open spec fn chunk_size_mib(asked: Option<u32>) -> u32 {
    match asked {
        Some(size_mib) => size_mib,
        None => DEFAULT_CHUNK_SIZE_MIB,
    }
}

/// The chunk size in MiB that the harness works with.
pub fn ChunkSizeMib(asked: Option<u32>) -> (r: u32)
    ensures
        r == chunk_size_mib(asked),
{
    match asked {
        Some(size_mib) => size_mib,
        None => DEFAULT_CHUNK_SIZE_MIB,
    }
}

/// The chunk size in bytes, given the chunk size in MiB that was asked for,
/// if any. The default is taken where none was asked for, and a size that
/// is 0 or does not fit 32 bits is refused.
pub fn ChunkSizeInBytes(asked: Option<u32>) -> (r: Result<u32, SizeError>)
    ensures
        chunk_size_mib(asked) == 0 <==> r == Err::<u32, SizeError>(SizeError::Zero),
        chunk_size_mib(asked) > MAX_SIZE_MIB <==> r == Err::<u32, SizeError>(SizeError::TooLarge),
        0 < chunk_size_mib(asked) <= MAX_SIZE_MIB <==> r is Ok,
        r matches Ok(bytes) ==> bytes == chunk_size_mib(asked) * MIB && bytes > 0,
{
    SizeInBytes(ChunkSizeMib(asked))
}

/// The staging buffer size with the given index, in MiB: 1, 2, 4 and so on,
/// each twice the one before.
pub open spec fn staging_size_mib(index: nat) -> nat
    decreases index,
{
    if index == 0 {
        1
    } else {
        2 * staging_size_mib((index - 1) as nat)
    }
}

/// The staging buffer sizes that are tried, smallest first.
pub open spec fn staging_sizes() -> Seq<u32> {
    Seq::new(STAGING_SIZE_COUNT as nat, |i: int| staging_size_mib(i as nat) as u32)
}

/// The staging buffer sizes that are tried, in MiB, smallest first: the
/// powers of two from 1 to 256.
pub fn StagingSizesMib() -> (r: Vec<u32>)
    ensures
        r@ == staging_sizes(),
        r@ == seq![1u32, 2, 4, 8, 16, 32, 64, 128, 256],
{
    let mut sizes: Vec<u32> = Vec::new();
    let mut size: u32 = 1;
    let mut index: u32 = 0;
    while index < STAGING_SIZE_COUNT
        invariant
            index <= STAGING_SIZE_COUNT,
            sizes.len() == index,
            size == staging_size_mib(index as nat),
            size <= 512,
            index < STAGING_SIZE_COUNT ==> size <= 256,
            forall|i: int| 0 <= i < index ==> sizes[i] == staging_size_mib(i as nat),
        decreases STAGING_SIZE_COUNT - index,
    {
        sizes.push(size);
        proof {
            reveal_with_fuel(staging_size_mib, 10);
        }
        index += 1;
        size = size * 2;
    }
    proof {
        reveal_with_fuel(staging_size_mib, 10);
        assert(sizes@ =~= staging_sizes());
        assert(sizes@ =~= seq![1u32, 2, 4, 8, 16, 32, 64, 128, 256]);
    }
    sizes
}

/// Whether a run is made with this staging buffer size: only if a whole
/// chunk fits the staging buffer.
pub fn RunsWith(staging_buffer_size_mib: u32, chunk_size_mib: u32) -> (r: bool)
    ensures
        r == (staging_buffer_size_mib >= chunk_size_mib),
{
    staging_buffer_size_mib >= chunk_size_mib
}

/// Where the chunk with the given index goes in the destination buffer:
/// behind the chunks before it, each at its uncompressed size.
pub open spec fn destination_offset(table: Seq<ChunkMetadata>, index: nat) -> nat {
    total_windows(table, index)
}

/// The request that loads one chunk: it reads the stored bytes of the chunk
/// from the file and writes the window to its place in the buffer. Only a
/// chunk that is stored compressed carries the file's format; a chunk that
/// is stored as it is says so, also in a compressed file.
pub open spec fn request_for(
    chunk: ChunkMetadata,
    file: Handle,
    resource: Handle,
    format: DSTORAGE_COMPRESSION_FORMAT,
    destination_offset: u64,
) -> DSTORAGE_REQUEST {
    DSTORAGE_REQUEST {
        CompressionFormat: if chunk.compressed {
            format
        } else {
            DSTORAGE_COMPRESSION_FORMAT_NONE
        },
        Source: DSTORAGE_SOURCE::File(
            DSTORAGE_SOURCE_FILE {
                Source: file,
                Offset: chunk.offset as u64,
                Size: chunk.compressed_size,
            },
        ),
        Destination: DSTORAGE_DESTINATION::Buffer(
            DSTORAGE_DESTINATION_BUFFER {
                Resource: resource,
                Offset: destination_offset,
                Size: chunk.uncompressed_size,
            },
        ),
        UncompressedSize: chunk.uncompressed_size,
        CancellationTag: 0,
        Name: None,
    }
}

/// The requests that load a whole file, one per chunk, in file order.
pub open spec fn requests_for(
    table: Seq<ChunkMetadata>,
    file: Handle,
    resource: Handle,
    format: DSTORAGE_COMPRESSION_FORMAT,
) -> Seq<DSTORAGE_REQUEST> {
    Seq::new(
        table.len(),
        |i: int|
            request_for(table[i], file, resource, format, destination_offset(table, i as nat) as u64),
    )
}

proof fn lemma_destination_offset_grows(table: Seq<ChunkMetadata>, index: nat, end: nat)
    requires
        index <= end,
    ensures
        total_windows(table, index) <= total_windows(table, end),
    decreases end,
{
    if index < end {
        lemma_destination_offset_grows(table, index, (end - 1) as nat);
    }
}

/// The requests that load the file that `metadata` describes from `file`
/// into the buffer `resource`, one per chunk, in file order. There are none
/// if the chunks do not fit a buffer that 64 bits can address, which cannot
/// happen with a well-formed chunk table.
pub fn RequestsFor(
    metadata: &Metadata,
    file: Handle,
    resource: Handle,
    format: DSTORAGE_COMPRESSION_FORMAT,
) -> (r: Option<Vec<DSTORAGE_REQUEST>>)
    ensures
        destination_offset(metadata.table(), metadata.table().len()) <= u64::MAX <==> r is Some,
        metadata.well_formed() ==> r is Some,
        r matches Some(requests) ==> requests@ == requests_for(
            metadata.table(),
            file,
            resource,
            format,
        ),
{
    let ghost table = metadata.table();
    let mut requests: Vec<DSTORAGE_REQUEST> = Vec::new();
    let mut dst_offset: u64 = 0;
    let mut index: usize = 0;
    while index < metadata.chunks.len()
        invariant
            table == metadata.table(),
            index <= table.len(),
            requests.len() == index,
            dst_offset == total_windows(table, index as nat),
            forall|i: int|
                0 <= i < index ==> requests[i] == request_for(
                    table[i],
                    file,
                    resource,
                    format,
                    destination_offset(table, i as nat) as u64,
                ),
        decreases table.len() - index,
    {
        let chunk = metadata.chunks[index];
        let compression_format = if chunk.compressed {
            format
        } else {
            DSTORAGE_COMPRESSION_FORMAT_NONE
        };
        let request = DSTORAGE_REQUEST {
            CompressionFormat: compression_format,
            Source: DSTORAGE_SOURCE::File(
                DSTORAGE_SOURCE_FILE {
                    Source: file,
                    Offset: chunk.offset as u64,
                    Size: chunk.compressed_size,
                },
            ),
            Destination: DSTORAGE_DESTINATION::Buffer(
                DSTORAGE_DESTINATION_BUFFER {
                    Resource: resource,
                    Offset: dst_offset,
                    Size: chunk.uncompressed_size,
                },
            ),
            UncompressedSize: chunk.uncompressed_size,
            CancellationTag: 0,
            Name: None,
        };
        requests.push(request);
        match dst_offset.checked_add(chunk.uncompressed_size as u64) {
            Some(next) => {
                dst_offset = next;
            },
            None => {
                proof {
                    lemma_destination_offset_grows(table, (index + 1) as nat, table.len());
                }
                return None;
            },
        }
        index += 1;
    }
    assert(requests@ =~= requests_for(table, file, resource, format));
    Some(requests)
}

/// The value that the fence is advanced to at the end of the trial with the
/// given index: 1 for the first trial, and one more for each trial after it.
pub fn FenceValue(trial: u32) -> (r: u64)
    ensures
        r == trial + 1,
{
    trial as u64 + 1
}

/// The commands of one trial: the requests, then the signal that tells that
/// all of them are done.
pub open spec fn trial_commands(requests: Seq<DSTORAGE_REQUEST>, fence: Handle, value: u64) -> Seq<
    Command,
> {
    Seq::new(requests.len(), |i: int| Command::Request(requests[i])).push(
        (Command::Signal { Fence: fence, Value: value }),
    )
}

/// Appends the commands of one trial to a queue: all of them, or none if
/// the queue has no room for all.
pub fn EnqueueTrial(
    queue: &mut CommandQueue,
    requests: Vec<DSTORAGE_REQUEST>,
    fence: Handle,
    value: u64,
) -> (r: Result<(), QueueError>)
    requires
        old(queue).well_formed(),
    ensures
        final(queue).well_formed(),
        final(queue).desc() == old(queue).desc(),
        old(queue).pending().len() + requests@.len() < old(queue).desc().Capacity <==> r is Ok,
        r is Ok ==> final(queue).pending() == old(queue).pending() + trial_commands(
            requests@,
            fence,
            value,
        ),
        r is Err ==> r == Err::<(), QueueError>(QueueError::Full) && final(queue).pending()
            == old(queue).pending(),
{
    if requests.len() >= queue.EmptySlotCount() as usize {
        return Err(QueueError::Full);
    }
    let ghost all = requests@;
    let ghost before = queue.pending();
    let ghost mut moved: nat = 0;
    for request in iter: requests
        invariant
            iter.seq() == all,
            moved == iter.index(),
            moved <= all.len(),
            queue.well_formed(),
            queue.desc() == old(queue).desc(),
            before == old(queue).pending(),
            before.len() + all.len() < queue.desc().Capacity,
            queue.pending() == before + Seq::new(moved, |i: int| Command::Request(all[i])),
    {
        let appended = queue.EnqueueRequest(request);
        assert(appended is Ok);
        proof {
            assert(queue.pending() =~= before + Seq::new(
                moved + 1,
                |i: int| Command::Request(all[i]),
            ));
            moved = moved + 1;
        }
    }
    let appended = queue.EnqueueSignal(fence, value);
    assert(appended is Ok);
    assert(queue.pending() =~= before + trial_commands(all, fence, value));
    Ok(())
}

/// Number of nanoseconds in one second.
pub const NANOS_PER_SECOND: u64 = 1_000_000_000;

/// The time that a trial is counted with, in nanoseconds: what the clock
/// saw, but one nanosecond for a trial that the clock saw take no time.
pub open spec fn counted_nanos(elapsed_nanos: u64) -> int {
    if elapsed_nanos == 0 {
        1
    } else {
        elapsed_nanos as int
    }
}

/// The bandwidth of a trial that moved `bytes` bytes in `elapsed_nanos`
/// nanoseconds, in bytes per second, rounded down.
pub fn Bandwidth(bytes: u32, elapsed_nanos: u64) -> (r: u64)
    ensures
        r == (bytes * NANOS_PER_SECOND) / counted_nanos(elapsed_nanos),
{
    assert(bytes * NANOS_PER_SECOND <= u32::MAX * NANOS_PER_SECOND) by (nonlinear_arith)
        requires
            bytes <= u32::MAX,
    ;
    let moved: u64 = bytes as u64 * NANOS_PER_SECOND;
    if elapsed_nanos == 0 {
        moved
    } else {
        moved / elapsed_nanos
    }
}

/// Sum of the first `count` values.
pub open spec fn total(values: Seq<u64>, count: nat) -> nat
    decreases count,
{
    if count == 0 {
        0
    } else {
        total(values, (count - 1) as nat) + values[count - 1] as nat
    }
}

/// The mean of what the trials of a run measured, rounded down. There is
/// none without a trial.
pub fn Mean(values: &Vec<u64>) -> (r: Option<u64>)
    ensures
        values.len() == 0 <==> r is None,
        r matches Some(mean) ==> mean == total(values@, values@.len()) / values@.len(),
{
    if values.len() == 0 {
        return None;
    }
    let mut sum: u128 = 0;
    let mut index: usize = 0;
    while index < values.len()
        invariant
            index <= values.len(),
            sum == total(values@, index as nat),
            sum <= index * u64::MAX,
        decreases values.len() - index,
    {
        assert((index + 1) * u64::MAX == index * u64::MAX + u64::MAX) by (nonlinear_arith);
        assert((index + 1) * u64::MAX <= u64::MAX * u64::MAX) by (nonlinear_arith)
            requires
                index + 1 <= u64::MAX,
        ;
        sum = sum + values[index] as u128;
        index += 1;
    }
    let count: u128 = values.len() as u128;
    assert(sum / count <= u64::MAX) by (nonlinear_arith)
        requires
            sum <= count * u64::MAX,
            count > 0,
    ;
    Some((sum / count) as u64)
}

} // verus!
