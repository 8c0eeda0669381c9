//! Serialization of captured audio blocks.
//!
//! A captured block is a sequence of 32-bit sample words (the bit patterns of
//! the device's mono samples).  When a forwarding sink is configured, each
//! block is written to the worker's input channel as unframed little-endian
//! bytes, four per word.  Decoding those bytes reconstructs the block
//! exactly, since no lossy transform occurs on the way out.

use vstd::prelude::*;

verus! {

/// The four little-endian bytes of one 32-bit sample word.
pub open spec fn word_bytes(w: u32) -> Seq<u8> {
    seq![
        (w % 256) as u8,
        ((w / 256) % 256) as u8,
        ((w / 65536) % 256) as u8,
        ((w / 16777216) % 256) as u8,
    ]
}

/// The 32-bit sample word encoded by four little-endian bytes.
pub open spec fn word_of_bytes(b0: u8, b1: u8, b2: u8, b3: u8) -> u32 {
    (b0 + b1 * 256 + b2 * 65536 + b3 * 16777216) as u32
}

/// The little-endian byte stream of a whole block of sample words.
pub open spec fn block_bytes(samples: Seq<u32>) -> Seq<u8>
    decreases samples.len(),
{
    if samples.len() == 0 {
        Seq::empty()
    } else {
        word_bytes(samples.first()) + block_bytes(samples.drop_first())
    }
}

/// The block of sample words read back from a little-endian byte stream,
/// four bytes at a time.
pub open spec fn block_of_bytes(bytes: Seq<u8>) -> Seq<u32>
    decreases bytes.len(),
{
    if bytes.len() < 4 {
        Seq::empty()
    } else {
        seq![word_of_bytes(bytes[0], bytes[1], bytes[2], bytes[3])] + block_of_bytes(
            bytes.skip(4),
        )
    }
}

/// Decoding the four bytes of a word gives the word back.
pub proof fn lemma_word_round_trip(w: u32)
    ensures
        word_of_bytes(
            word_bytes(w)[0],
            word_bytes(w)[1],
            word_bytes(w)[2],
            word_bytes(w)[3],
        ) == w,
{
    assert(w % 256 + ((w / 256) % 256) * 256 + ((w / 65536) % 256) * 65536 + ((w / 16777216)
        % 256) * 16777216 == w) by (bit_vector);
}

/// A block's byte stream is four bytes per word.
pub proof fn lemma_block_bytes_len(samples: Seq<u32>)
    ensures
        block_bytes(samples).len() == 4 * samples.len(),
    decreases samples.len(),
{
    if samples.len() > 0 {
        lemma_block_bytes_len(samples.drop_first());
    }
}

/// Appending one word to a block appends its four bytes to the stream.
pub proof fn lemma_block_bytes_push(samples: Seq<u32>, w: u32)
    ensures
        block_bytes(samples.push(w)) == block_bytes(samples) + word_bytes(w),
    decreases samples.len(),
{
    if samples.len() == 0 {
        assert(samples.push(w).drop_first() =~= Seq::<u32>::empty());
        assert(samples.push(w).first() == w);
        assert(block_bytes(Seq::<u32>::empty()) == Seq::<u8>::empty());
        assert(block_bytes(samples.push(w)) == word_bytes(w) + block_bytes(
            Seq::<u32>::empty(),
        ));
        assert(block_bytes(samples.push(w)) =~= block_bytes(samples) + word_bytes(w));
    } else {
        lemma_block_bytes_push(samples.drop_first(), w);
        assert(samples.push(w).drop_first() =~= samples.drop_first().push(w));
        assert(samples.push(w).first() == samples.first());
        assert(block_bytes(samples.push(w)) == word_bytes(samples.first()) + block_bytes(
            samples.drop_first().push(w),
        ));
        assert(block_bytes(samples.push(w)) =~= block_bytes(samples) + word_bytes(w));
    }
}

/// Serialization round trip: a block of N words produces exactly 4*N bytes,
/// and decoding them reconstructs the original block exactly.
pub proof fn lemma_block_round_trip(samples: Seq<u32>)
    ensures
        block_bytes(samples).len() == 4 * samples.len(),
        block_of_bytes(block_bytes(samples)) == samples,
    decreases samples.len(),
{
    lemma_block_bytes_len(samples);
    if samples.len() > 0 {
        lemma_block_round_trip(samples.drop_first());
        lemma_word_round_trip(samples.first());
        lemma_block_bytes_len(samples.drop_first());
        assert(block_bytes(samples).skip(4) =~= block_bytes(samples.drop_first()));
        assert(block_of_bytes(block_bytes(samples)) =~= samples);
    }
}

/// Serialize a block of sample words into its little-endian byte stream.
pub fn encode_block(samples: &Vec<u32>) -> (r: Vec<u8>)
    ensures
        r@ == block_bytes(samples@),
        r@.len() == 4 * samples@.len(),
{
    let mut out: Vec<u8> = Vec::new();
    let mut i: usize = 0;
    while i < samples.len()
        invariant
            i <= samples@.len(),
            out@ == block_bytes(samples@.take(i as int)),
            out@.len() == 4 * i,
        decreases samples@.len() - i,
    {
        let w = samples[i];
        out.push((w % 256) as u8);
        out.push(((w / 256) % 256) as u8);
        out.push(((w / 65536) % 256) as u8);
        out.push(((w / 16777216) % 256) as u8);
        proof {
            lemma_block_bytes_push(samples@.take(i as int), samples@[i as int]);
            assert(samples@.take(i + 1) =~= samples@.take(i as int).push(samples@[i as int]));
        }
        i += 1;
    }
    proof {
        assert(samples@.take(samples@.len() as int) =~= samples@);
    }
    out
}

/// Read a block of sample words back from a little-endian byte stream.
/// Returns `None` exactly when the stream is not a whole number of words.
pub fn decode_block(bytes: &Vec<u8>) -> (r: Option<Vec<u32>>)
    ensures
        bytes@.len() % 4 == 0 ==> (r matches Some(v) && v@ == block_of_bytes(bytes@)),
        bytes@.len() % 4 != 0 ==> r is None,
{
    if bytes.len() % 4 != 0 {
        return None;
    }
    let mut out: Vec<u32> = Vec::new();
    let mut i: usize = 0;
    proof {
        assert(bytes@.skip(0) =~= bytes@);
        assert(out@ + block_of_bytes(bytes@) =~= block_of_bytes(bytes@));
    }
    while i < bytes.len()
        invariant
            i <= bytes@.len(),
            i % 4 == 0,
            bytes@.len() % 4 == 0,
            block_of_bytes(bytes@) == out@ + block_of_bytes(bytes@.skip(i as int)),
            out@.len() == i / 4,
        decreases bytes@.len() - i,
    {
        let b0 = bytes[i];
        let b1 = bytes[i + 1];
        let b2 = bytes[i + 2];
        let b3 = bytes[i + 3];
        let w: u32 = b0 as u32 + (b1 as u32) * 256 + (b2 as u32) * 65536 + (b3 as u32)
            * 16777216;
        out.push(w);
        proof {
            assert(bytes@.skip(i as int).len() >= 4);
            assert(bytes@.skip(i as int).skip(4) =~= bytes@.skip(i + 4));
            assert(block_of_bytes(bytes@.skip(i as int)) == seq![
                word_of_bytes(bytes@[i as int], bytes@[i + 1], bytes@[i + 2], bytes@[i + 3]),
            ] + block_of_bytes(bytes@.skip(i + 4)));
            assert(w == word_of_bytes(bytes@[i as int], bytes@[i + 1], bytes@[i + 2], bytes@[i
                + 3]));
            assert(out@ + block_of_bytes(bytes@.skip(i + 4)) =~= block_of_bytes(bytes@));
        }
        i += 4;
    }
    proof {
        assert(bytes@.skip(bytes@.len() as int) =~= Seq::<u8>::empty());
        assert(block_of_bytes(bytes@) =~= out@);
    }
    Some(out)
}

} // verus!
