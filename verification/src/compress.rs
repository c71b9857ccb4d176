//! Packet compression with zstd.
//!
//! `compress` turns a packet into one zstd frame at the default level;
//! `decompress` recovers the packet into a buffer sized from the frame length.
//! Both answer with an empty vector where zstd reports an error.

use vstd::prelude::*;

verus! {

/// Compression level handed to zstd (zstd's own default).
pub const COMPRESS_LEVEL: i32 = 3;

/// Smallest decompression buffer, 1 MiB.
pub const MIN_DECOMPRESS_CAPACITY: usize = 1048576;

/// Largest decompression buffer, 64 MiB.
pub const MAX_DECOMPRESS_CAPACITY: usize = 67108864;

/// What `zstd::bulk::compress` returns for `data` at `level`: the compressed
/// frame, or `None` where it reports an error.
pub uninterp spec fn zstd_compressed(data: Seq<u8>, level: i32) -> Option<Seq<u8>>;

/// The data that zstd's decoder recovers from `frame`, or `None` where the
/// decoder rejects `frame` for a reason other than the size of the output buffer.
pub uninterp spec fn zstd_content(frame: Seq<u8>) -> Option<Seq<u8>>;

/// Trusted: calls `zstd::bulk::compress(data, level)`.
/// Claims that the result is `zstd_compressed(data, level)`, and, zstd being
/// lossless, that a frame it returns decodes back to `data`; followed by
/// further zstd data, the frame decodes to `data` followed by that data's
/// content (zstd decodes concatenated frames one after another).
#[verifier::external_body]
fn zstd_bulk_compress(data: &[u8], level: i32) -> (r: std::io::Result<Vec<u8>>)
    ensures
        match r {
            Ok(frame) => zstd_compressed(data@, level) == Some(frame@),
            Err(_) => zstd_compressed(data@, level) is None,
        },
        r matches Ok(frame) ==> zstd_content(frame@) == Some(data@),
        r matches Ok(frame) ==> forall|rest: Seq<u8>|
            #![trigger zstd_content(frame@ + rest)]
            zstd_content(rest) matches Some(more) ==> zstd_content(frame@ + rest) == Some(
                data@ + more,
            ),
{
    zstd::bulk::compress(data, level)
}

/// Trusted: calls `zstd::bulk::decompress(data, capacity)`.
/// Claims that what it returns is the content of `data`, and that it returns
/// where that content is at most `capacity` bytes long. Where the content is
/// longer, whether it fails is left unsaid: the buffer it decodes into holds at
/// least `capacity` bytes, as many as the allocator gave.
#[verifier::external_body]
fn zstd_bulk_decompress(data: &[u8], capacity: usize) -> (r: std::io::Result<Vec<u8>>)
    ensures
        r matches Ok(content) ==> zstd_content(data@) == Some(content@),
        zstd_content(data@) matches Some(content) && content.len() <= capacity ==> r is Ok,
{
    zstd::bulk::decompress(data, capacity)
}

/// The output of `compress`: the zstd frame, or nothing where zstd fails.
pub open spec fn compressed_or_empty(data: Seq<u8>) -> Seq<u8> {
    match zstd_compressed(data, COMPRESS_LEVEL) {
        Some(frame) => frame,
        None => Seq::empty(),
    }
}

/// Size of the buffer that `decompress` decodes a frame of `len` bytes into:
/// thirty times the frame length, kept between 1 MiB and 64 MiB.
pub open spec fn decompress_capacity(len: int) -> int {
    let n = 30 * len;
    if n > MAX_DECOMPRESS_CAPACITY {
        MAX_DECOMPRESS_CAPACITY as int
    } else if n < MIN_DECOMPRESS_CAPACITY {
        MIN_DECOMPRESS_CAPACITY as int
    } else {
        n
    }
}

/// What `decompress` gives for `frame`: the content where zstd decodes it and
/// it fits the buffer, nothing otherwise.
pub open spec fn decompressed(frame: Seq<u8>) -> Seq<u8> {
    match zstd_content(frame) {
        Some(content) => if content.len() <= decompress_capacity(frame.len() as int) {
            content
        } else {
            Seq::empty()
        },
        None => Seq::empty(),
    }
}

/// Decompressing a zstd frame of `data` gives `data` back, whenever `data`
/// fits the buffer that `decompress` sizes for the frame.
pub proof fn lemma_decompress_inverts_compress(data: Seq<u8>, frame: Seq<u8>)
    requires
        zstd_content(frame) == Some(data),
        data.len() <= decompress_capacity(frame.len() as int),
    ensures
        decompressed(frame) == data,
{
}

/// Compresses `data` into a single zstd frame at `COMPRESS_LEVEL`; an empty
/// vector where zstd fails.
pub fn compress(data: &[u8]) -> (out: Vec<u8>)
    ensures
        out@ == compressed_or_empty(data@),
        zstd_compressed(data@, COMPRESS_LEVEL) is Some ==> zstd_content(out@) == Some(data@),
        zstd_compressed(data@, COMPRESS_LEVEL) is Some && data@.len() <= decompress_capacity(
            out@.len() as int,
        ) ==> decompressed(out@) == data@,
        zstd_compressed(data@, COMPRESS_LEVEL) is Some ==> forall|rest: Seq<u8>|
            #![trigger decompressed(out@ + rest)]
            zstd_content(rest) matches Some(more) ==> (data@.len() + more.len()
                <= decompress_capacity((out@.len() + rest.len()) as int) ==> decompressed(
                out@ + rest,
            ) == data@ + more),
{
    match zstd_bulk_compress(data, COMPRESS_LEVEL) {
        Ok(frame) => {
            proof {
                if data@.len() <= decompress_capacity(frame@.len() as int) {
                    lemma_decompress_inverts_compress(data@, frame@);
                }
            }
            assert forall|rest: Seq<u8>|
                #![trigger decompressed(frame@ + rest)]
                zstd_content(rest) matches Some(more) ==> (data@.len() + more.len()
                    <= decompress_capacity((frame@.len() + rest.len()) as int) ==> decompressed(
                    frame@ + rest,
                ) == data@ + more) by {
                if let Some(more) = zstd_content(rest) {
                    assert(zstd_content(frame@ + rest) == Some(data@ + more));
                }
            }
            frame
        },
        Err(_) => Vec::new(),
    }
}

/// The decompression buffer size for a frame of `len` bytes.
pub fn decompress_capacity_for(len: usize) -> (n: usize)
    ensures
        n == decompress_capacity(len as int),
        MIN_DECOMPRESS_CAPACITY <= n <= MAX_DECOMPRESS_CAPACITY,
{
    if len > MAX_DECOMPRESS_CAPACITY / 30 {
        MAX_DECOMPRESS_CAPACITY
    } else {
        let mut n: usize = 30 * len;
        if n > MAX_DECOMPRESS_CAPACITY {
            n = MAX_DECOMPRESS_CAPACITY;
        }
        if n < MIN_DECOMPRESS_CAPACITY {
            n = MIN_DECOMPRESS_CAPACITY;
        }
        n
    }
}

/// Decompresses the zstd data `data` into a buffer of
/// `decompress_capacity(data.len())` bytes; an empty vector where zstd fails
/// or the content does not fit the buffer.
pub fn decompress(data: &[u8]) -> (out: Vec<u8>)
    ensures
        out@ == decompressed(data@),
        out@.len() <= decompress_capacity(data@.len() as int),
        zstd_content(data@) matches Some(content) ==> (content.len() > decompress_capacity(
            data@.len() as int,
        ) ==> out@ == Seq::<u8>::empty()),
{
    let n = decompress_capacity_for(data.len());
    match zstd_bulk_decompress(data, n) {
        Ok(content) => if content.len() <= n {
            content
        } else {
            Vec::new()
        },
        Err(_) => Vec::new(),
    }
}

} // verus!
