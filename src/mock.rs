use vstd::prelude::*;
use vstd::arithmetic::div_mod::{lemma_add_mod_noop_right, lemma_mod_self_0, lemma_small_mod};
use vstd::string::StringSliceAdditionalSpecFns;
use vstd::utf8::encode_utf8;

verus! {

/// The hash of a text's bytes: start at zero, and for each byte multiply by
/// 31 and add the byte, modulo 2^32.
pub open spec fn hash_of(bytes: Seq<u8>) -> u32
    decreases bytes.len(),
{
    if bytes.len() == 0 {
        0
    } else {
        ((hash_of(bytes.drop_last()) as nat * 31 + bytes.last() as nat) % 0x1_0000_0000) as u32
    }
}

/// The hash of the UTF-8 bytes of `text`.
pub fn simple_hash(text: &str) -> (r: u32)
    ensures
        r == hash_of(text.spec_bytes()),
{
    let bytes = text.as_bytes();
    let mut acc: u32 = 0;
    let mut i: usize = 0;
    while i < bytes.len()
        invariant
            bytes@ == text.spec_bytes(),
            i <= bytes@.len(),
            acc == hash_of(bytes@.subrange(0, i as int)),
        decreases bytes@.len() - i,
    {
        let b = bytes[i];
        let next = acc.wrapping_mul(31).wrapping_add(b as u32);
        proof {
            let p = (acc as nat * 31) % 0x1_0000_0000;
            assert(p < 0x1_0000_0000);
            assert(next == (p + b as nat) % 0x1_0000_0000);
            assert((p + b as nat) % 0x1_0000_0000 == (acc as nat * 31 + b as nat) % 0x1_0000_0000)
                by (nonlinear_arith)
                requires
                    p == (acc as nat * 31) % 0x1_0000_0000,
            ;
            assert(bytes@.subrange(0, i + 1).drop_last() == bytes@.subrange(0, i as int));
        }
        acc = next;
        i = i + 1;
    }
    assert(bytes@.subrange(0, i as int) == bytes@);
    acc
}

/// The codes of the mock vector of a text with `dimensions` entries: the
/// text's hash plus the entry's position, modulo 2^32. A code `c` stands for
/// the value `c / (2^32 - 1) * 2 - 1`.
pub open spec fn mock_codes(bytes: Seq<u8>, dimensions: nat) -> Seq<u32> {
    Seq::new(dimensions, |i: int| ((hash_of(bytes) as nat + i) % 0x1_0000_0000) as u32)
}

/// The codes of the mock vector of `text`.
pub fn mock_embedding_codes(text: &str, dimensions: usize) -> (r: Vec<u32>)
    ensures
        r@ == mock_codes(text.spec_bytes(), dimensions as nat),
{
    let hash = simple_hash(text);
    let mut out: Vec<u32> = Vec::new();
    let mut code: u32 = hash;
    let mut i: usize = 0;
    proof {
        lemma_small_mod(hash as nat, 0x1_0000_0000nat);
    }
    while i < dimensions
        invariant
            hash == hash_of(text.spec_bytes()),
            i <= dimensions,
            code as nat == (hash as nat + i) % 0x1_0000_0000,
            out@ == mock_codes(text.spec_bytes(), i as nat),
        decreases dimensions - i,
    {
        out.push(code);
        proof {
            let m = 0x1_0000_0000int;
            lemma_add_mod_noop_right(1, hash as int + i, m);
            lemma_small_mod(1, m as nat);
            if code as int + 1 < m {
                lemma_small_mod((code + 1) as nat, m as nat);
            } else {
                assert(code as int + 1 == m);
                lemma_mod_self_0(m);
            }
        }
        code = code.wrapping_add(1);
        i = i + 1;
        assert(out@ =~= mock_codes(text.spec_bytes(), i as nat));
    }
    out
}

/// A deterministic adapter for tests: the vector of a text is a function of
/// its bytes and the adapter's dimension, and no service is called.
#[derive(Debug, Clone, Copy, PartialEq, Eq, Structural)]
pub struct MockAdapter {
    pub dimensions: usize,
}

/// The mock vectors of several texts, in order.
pub open spec fn mock_batch(texts: Seq<Seq<u8>>, dimensions: nat) -> Seq<Seq<u32>> {
    texts.map_values(|t: Seq<u8>| mock_codes(t, dimensions))
}

impl MockAdapter {
    /// An adapter whose vectors have `dimensions` entries.
    pub fn new(dimensions: usize) -> (r: Self)
        ensures
            r.dimensions == dimensions,
    {
        MockAdapter { dimensions }
    }

    /// The vector of one text.
    pub fn infer_single(&self, input: &str) -> (r: Vec<u32>)
        ensures
            r@ == mock_codes(input.spec_bytes(), self.dimensions as nat),
    {
        mock_embedding_codes(input, self.dimensions)
    }

    /// The vectors of several texts, one per text and in their order, each
    /// as `infer_single` gives it.
    pub fn infer_batch(&self, inputs: &Vec<String>) -> (r: Vec<Vec<u32>>)
        ensures
            r@.len() == inputs@.len(),
            forall|i: int|
                0 <= i < inputs@.len() ==> #[trigger] r@[i]@ == mock_codes(
                    encode_utf8(inputs@[i]@),
                    self.dimensions as nat,
                ),
    {
        let mut out: Vec<Vec<u32>> = Vec::new();
        let mut i: usize = 0;
        while i < inputs.len()
            invariant
                i <= inputs@.len(),
                out@.len() == i,
                forall|k: int|
                    0 <= k < i ==> #[trigger] out@[k]@ == mock_codes(
                        encode_utf8(inputs@[k]@),
                        self.dimensions as nat,
                    ),
            decreases inputs@.len() - i,
        {
            out.push(self.infer_single(inputs[i].as_str()));
            i = i + 1;
        }
        out
    }
}

/// For the mock adapter, the batch of one text gives that text's single
/// vector, and the same text always gives the same vector.
pub proof fn lemma_single_matches_batch(text: Seq<u8>, other: Seq<u8>, dimensions: nat)
    ensures
        mock_batch(seq![text], dimensions).len() == 1,
        mock_batch(seq![text], dimensions)[0] == mock_codes(text, dimensions),
        text == other ==> mock_codes(text, dimensions) == mock_codes(other, dimensions),
{
}

} // verus!
