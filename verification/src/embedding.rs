//! Storage format of embeddings and the tables that hold embeddable content.
//!
//! An embedding is a vector of `f32` values; this module handles each value
//! by its IEEE-754 bit pattern (`f32::to_bits`), so the stored blob is the
//! little-endian bytes of those patterns, four bytes per value.

use vstd::prelude::*;

verus! {

/// The four little-endian bytes of a 32-bit value.
pub open spec fn le_bytes(x: u32) -> Seq<u8> {
    seq![(x % 256) as u8, ((x / 256) % 256) as u8, ((x / 65536) % 256) as u8, (x / 16777216) as u8]
}

/// The 32-bit value of four little-endian bytes.
pub open spec fn le_value(b0: u8, b1: u8, b2: u8, b3: u8) -> u32 {
    (b0 + 256 * b1 + 65536 * b2 + 16777216 * b3) as u32
}

/// The blob of a sequence of values: their little-endian bytes in order.
pub open spec fn blob_of(v: Seq<u32>) -> Seq<u8>
    decreases v.len(),
{
    if v.len() == 0 {
        Seq::empty()
    } else {
        blob_of(v.drop_last()) + le_bytes(v.last())
    }
}

/// The values decoded from a blob: one per complete group of four bytes;
/// trailing bytes that do not fill a group are ignored.
pub open spec fn values_of(b: Seq<u8>) -> Seq<u32> {
    Seq::new(b.len() / 4, |k: int| le_value(b[4 * k], b[4 * k + 1], b[4 * k + 2], b[4 * k + 3]))
}

proof fn lemma_le_roundtrip(x: u32)
    ensures
        le_value(le_bytes(x)[0], le_bytes(x)[1], le_bytes(x)[2], le_bytes(x)[3]) == x,
{
    let b0 = x % 256;
    let b1 = (x / 256) % 256;
    let b2 = (x / 65536) % 256;
    let b3 = x / 16777216;
    assert(b0 + 256 * b1 + 65536 * b2 + 16777216 * b3 == x) by (nonlinear_arith)
        requires
            b0 == x % 256,
            b1 == (x / 256) % 256,
            b2 == (x / 65536) % 256,
            b3 == x / 16777216,
    {
        assert(x == 256 * (x / 256) + x % 256);
        assert(x / 256 == 256 * ((x / 256) / 256) + (x / 256) % 256);
        assert((x / 256) / 256 == x / 65536);
        assert(x / 65536 == 256 * ((x / 65536) / 256) + (x / 65536) % 256);
        assert((x / 65536) / 256 == x / 16777216);
    }
}

proof fn lemma_blob_len(v: Seq<u32>)
    ensures
        blob_of(v).len() == 4 * v.len(),
    decreases v.len(),
{
    if v.len() > 0 {
        lemma_blob_len(v.drop_last());
    }
}

proof fn lemma_blob_index(v: Seq<u32>, k: int, j: int)
    requires
        0 <= k < v.len(),
        0 <= j < 4,
    ensures
        blob_of(v)[4 * k + j] == le_bytes(v[k])[j],
    decreases v.len(),
{
    lemma_blob_len(v.drop_last());
    if k < v.len() - 1 {
        lemma_blob_index(v.drop_last(), k, j);
    }
}

/// Decoding the blob of an embedding gives the embedding back.
pub proof fn lemma_blob_roundtrip(v: Seq<u32>)
    ensures
        values_of(blob_of(v)) == v,
{
    lemma_blob_len(v);
    assert forall|k: int| 0 <= k < v.len() implies #[trigger] values_of(blob_of(v))[k] == v[k] by {
        lemma_blob_index(v, k, 0);
        lemma_blob_index(v, k, 1);
        lemma_blob_index(v, k, 2);
        lemma_blob_index(v, k, 3);
        lemma_le_roundtrip(v[k]);
    }
    assert(values_of(blob_of(v)) =~= v);
}

/// The blob of an embedding: four little-endian bytes per value, in order.
pub fn embedding_to_blob(embedding: &[u32]) -> (r: Vec<u8>)
    ensures
        r@ == blob_of(embedding@),
{
    let mut bytes: Vec<u8> = Vec::new();
    let mut i: usize = 0;
    while i < embedding.len()
        invariant
            i <= embedding.len(),
            bytes@ == blob_of(embedding@.take(i as int)),
        decreases embedding.len() - i,
    {
        let x = embedding[i];
        bytes.push((x % 256) as u8);
        bytes.push(((x / 256) % 256) as u8);
        bytes.push(((x / 65536) % 256) as u8);
        bytes.push((x / 16777216) as u8);
        assert(embedding@.take(i + 1).drop_last() =~= embedding@.take(i as int));
        assert(bytes@ =~= blob_of(embedding@.take(i + 1)));
        i = i + 1;
    }
    assert(embedding@.take(embedding.len() as int) =~= embedding@);
    bytes
}

/// The embedding stored in a blob: one value per complete group of four
/// little-endian bytes; trailing bytes are ignored.
pub fn blob_to_embedding(blob: &[u8]) -> (r: Vec<u32>)
    ensures
        r@ == values_of(blob@),
{
    let n = blob.len() / 4;
    let mut out: Vec<u32> = Vec::new();
    let mut k: usize = 0;
    while k < n
        invariant
            k <= n,
            n == blob.len() / 4,
            out@.len() == k,
            forall|j: int| 0 <= j < k ==> #[trigger] out@[j] == values_of(blob@)[j],
        decreases n - k,
    {
        let b0 = blob[4 * k] as u32;
        let b1 = blob[4 * k + 1] as u32;
        let b2 = blob[4 * k + 2] as u32;
        let b3 = blob[4 * k + 3] as u32;
        let v = b0 + 256 * b1 + 65536 * b2 + 16777216 * b3;
        out.push(v);
        k = k + 1;
    }
    assert(out@ =~= values_of(blob@));
    out
}

/// Kinds of embeddable content.
#[derive(Debug, Clone, Copy, PartialEq, Eq, Structural)]
pub enum ContentType {
    Thinking,
    Prompt,
    Response,
}

/// The table holding content of a kind.
pub open spec fn content_table_name(t: ContentType) -> Seq<char> {
    match t {
        ContentType::Thinking => "thinking_blocks"@,
        ContentType::Prompt => "user_prompts"@,
        ContentType::Response => "assistant_responses"@,
    }
}

/// The table holding embeddings of a kind.
pub open spec fn embedding_table_name(t: ContentType) -> Seq<char> {
    match t {
        ContentType::Thinking => "thinking_embeddings"@,
        ContentType::Prompt => "prompts_embeddings"@,
        ContentType::Response => "responses_embeddings"@,
    }
}

impl ContentType {
    /// The table holding content of this kind.
    pub fn content_table(&self) -> (r: &'static str)
        ensures
            r@ == content_table_name(*self),
    {
        match self {
            ContentType::Thinking => "thinking_blocks",
            ContentType::Prompt => "user_prompts",
            ContentType::Response => "assistant_responses",
        }
    }

    /// The table holding embeddings of this kind.
    pub fn embedding_table(&self) -> (r: &'static str)
        ensures
            r@ == embedding_table_name(*self),
    {
        match self {
            ContentType::Thinking => "thinking_embeddings",
            ContentType::Prompt => "prompts_embeddings",
            ContentType::Response => "responses_embeddings",
        }
    }
}

} // verus!
