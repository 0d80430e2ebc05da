use vstd::prelude::*;

verus! {

/// The pixels that one packed word holds.
pub const PIXELS_PER_WORD: usize = 16;

/// The first byte of every pixel: of each four bytes the first, and the
/// first of what is left at the end.
pub open spec fn spec_samples(data: Seq<u8>) -> Seq<u8> {
    Seq::new(((data.len() + 3) / 4) as nat, |p: int| data[4 * p])
}

/// The value of a set pixel at place `i` of a word: both bits of the field
/// that lies `15 - i` fields above the lowest, which is three times four to
/// the power `15 - i`.
pub open spec fn spec_weight(i: int) -> int
    decreases i,
{
    if i <= 0 {
        1073741824
    } else {
        spec_weight(i - 1) / 4
    }
}

/// The word of the first `count` pixels from `first` on: the sum of the
/// fields of those whose sample is not zero.
pub open spec fn spec_word(samples: Seq<u8>, first: int, count: int) -> int
    decreases count,
{
    if count <= 0 {
        0
    } else {
        spec_word(samples, first, count - 1) + if samples[first + count - 1] > 0 {
            3 * spec_weight(count - 1)
        } else {
            0
        }
    }
}

/// The pixels of the word at `index`: sixteen, or what is left for the last.
pub open spec fn spec_word_len(samples: Seq<u8>, index: int) -> int {
    if samples.len() - 16 * index < 16 {
        samples.len() - 16 * index
    } else {
        16
    }
}

/// The packed words of a run of samples: one word for each sixteen pixels,
/// and one for what is left at the end.
pub open spec fn spec_words(samples: Seq<u8>) -> Seq<u32> {
    Seq::new(
        ((samples.len() + 15) / 16) as nat,
        |j: int| spec_word(samples, 16 * j, spec_word_len(samples, j)) as u32,
    )
}

/// The weights of the sixteen places, the first the highest.
proof fn lemma_weights()
    ensures
        spec_weight(0) == 1073741824,
        spec_weight(15) == 1,
        forall|i: int| 0 <= i < 15 ==> #[trigger] spec_weight(i) == 4 * spec_weight(i + 1),
{
    reveal_with_fuel(spec_weight, 17);
    assert forall|i: int| 0 <= i < 15 implies #[trigger] spec_weight(i) == 4 * spec_weight(
        i + 1,
    ) by {
        assert(spec_weight(0) == 1073741824);
        assert(spec_weight(1) == 268435456);
        assert(spec_weight(2) == 67108864);
        assert(spec_weight(3) == 16777216);
        assert(spec_weight(4) == 4194304);
        assert(spec_weight(5) == 1048576);
        assert(spec_weight(6) == 262144);
        assert(spec_weight(7) == 65536);
        assert(spec_weight(8) == 16384);
        assert(spec_weight(9) == 4096);
        assert(spec_weight(10) == 1024);
        assert(spec_weight(11) == 256);
        assert(spec_weight(12) == 64);
        assert(spec_weight(13) == 16);
        assert(spec_weight(14) == 4);
        assert(spec_weight(15) == 1);
    }
}

/// Takes the first byte of every pixel.
pub fn samples(data: &[u8]) -> (picked: Vec<u8>)
    ensures
        picked@ == spec_samples(data@),
{
    let len: usize = data.len();
    let count: usize = if len % 4 == 0 {
        len / 4
    } else {
        len / 4 + 1
    };
    let mut picked: Vec<u8> = Vec::new();
    let mut p: usize = 0;
    while p < count
        invariant
            p <= count,
            len == data@.len(),
            count == (len + 3) / 4,
            picked@.len() == p,
            forall|k: int| 0 <= k < p ==> #[trigger] picked@[k] == data@[4 * k],
        decreases count - p,
    {
        picked.push(data[4 * p]);
        p = p + 1;
    }
    assert(picked@ =~= spec_samples(data@));
    picked
}

/// Packs one word from up to sixteen samples that start at `first`.
pub fn pack_word(samples: &[u8], first: usize, count: usize) -> (word: u32)
    requires
        count <= 16,
        first + count <= samples@.len(),
    ensures
        word == spec_word(samples@, first as int, count as int),
{
    let len: usize = samples.len();
    let mut word: u32 = 0;
    let mut weight: u32 = 1073741824;
    let mut i: usize = 0;
    proof {
        lemma_weights();
    }
    while i < count
        invariant
            i <= count <= 16,
            len == samples@.len(),
            first + count <= len,
            word == spec_word(samples@, first as int, i as int),
            i < 16 ==> weight == spec_weight(i as int),
            i < 16 ==> word + 4 * weight <= 4294967296,
            spec_weight(15) == 1,
            forall|k: int| 0 <= k < 15 ==> #[trigger] spec_weight(k) == 4 * spec_weight(k + 1),
        decreases count - i,
    {
        if samples[first + i] > 0 {
            word = word + 3 * weight;
        }
        weight = weight / 4;
        i = i + 1;
    }
    word
}

/// Packs samples into words of sixteen pixels. A pixel whose sample is not
/// zero sets both bits of its field; the first pixel of a word has the
/// highest field.
pub fn pack_words(samples: &[u8]) -> (words: Vec<u32>)
    ensures
        words@ == spec_words(samples@),
{
    let len: usize = samples.len();
    let count: usize = if len % 16 == 0 {
        len / 16
    } else {
        len / 16 + 1
    };
    let mut words: Vec<u32> = Vec::new();
    let mut j: usize = 0;
    while j < count
        invariant
            j <= count,
            len == samples@.len(),
            count == (len + 15) / 16,
            words@.len() == j,
            forall|k: int|
                0 <= k < j ==> #[trigger] words@[k] == spec_word(
                    samples@,
                    16 * k,
                    spec_word_len(samples@, k),
                ) as u32,
        decreases count - j,
    {
        let first: usize = 16 * j;
        let left: usize = len - first;
        let pixels: usize = if left < 16 {
            left
        } else {
            16
        };
        words.push(pack_word(samples, first, pixels));
        j = j + 1;
    }
    assert(words@ =~= spec_words(samples@));
    words
}

/// What the compute shader reads of the tile sheet: the packed words, the
/// number of tiles across the sheet and the number of words.
pub fn texture_atlas(data: &[u8], width: u32) -> (atlas: (Vec<u32>, u32, u32))
    requires
        ((data@.len() + 3) / 4 + 15) / 16 <= u32::MAX,
    ensures
        atlas.0@ == spec_words(spec_samples(data@)),
        atlas.1 == width / 16,
        atlas.2 == atlas.0@.len(),
{
    let picked: Vec<u8> = samples(data);
    let words: Vec<u32> = pack_words(picked.as_slice());
    let len: u32 = words.len() as u32;
    (words, width / 16, len)
}

} // verus!
