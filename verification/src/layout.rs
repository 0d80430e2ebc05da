use vstd::prelude::*;

verus! {

/// The four bytes of a 32-bit word, least significant first.
pub open spec fn le_bytes(x: u32) -> Seq<u8> {
    seq![
        (x % 256) as u8,
        ((x / 256) % 256) as u8,
        ((x / 65536) % 256) as u8,
        ((x / 16777216) % 256) as u8,
    ]
}

/// The word that four bytes spell, least significant first.
pub open spec fn le_word(bytes: Seq<u8>) -> int
    recommends
        bytes.len() == 4,
{
    bytes[0] + 256 * bytes[1] + 65536 * bytes[2] + 16777216 * bytes[3]
}

/// Reading back the bytes of a word gives the word.
pub proof fn lemma_le_round_trip(x: u32)
    ensures
        le_bytes(x).len() == 4,
        le_word(le_bytes(x)) == x,
{
}

/// Splits a word into its bytes, least significant first.
pub fn word_bytes(x: u32) -> (bytes: [u8; 4])
    ensures
        bytes@ == le_bytes(x),
{
    let bytes: [u8; 4] = [
        (x % 256) as u8,
        ((x / 256) % 256) as u8,
        ((x / 65536) % 256) as u8,
        ((x / 16777216) % 256) as u8,
    ];
    assert(bytes@ =~= le_bytes(x));
    bytes
}

/// Appends the bytes of a word to a buffer.
pub fn push_word(buffer: &mut Vec<u8>, x: u32)
    ensures
        final(buffer)@ == old(buffer)@ + le_bytes(x),
{
    let bytes: [u8; 4] = word_bytes(x);
    let ghost before = buffer@;
    buffer.push(bytes[0]);
    buffer.push(bytes[1]);
    buffer.push(bytes[2]);
    buffer.push(bytes[3]);
    assert(buffer@ =~= before + le_bytes(x));
}

/// Appends zero bytes to a buffer until it is `len` bytes long; a buffer that
/// is already that long or longer is left as it is.
pub fn pad_to(buffer: &mut Vec<u8>, len: usize)
    ensures
        final(buffer)@ == old(buffer)@ + zeros(len - old(buffer)@.len()),
{
    let ghost before = buffer@;
    assert(buffer@ =~= before + zeros(0));
    while buffer.len() < len
        invariant
            before.len() <= buffer@.len(),
            buffer@.len() <= len || buffer@.len() == before.len(),
            buffer@ == before + zeros(buffer@.len() - before.len()),
        decreases len - buffer@.len(),
    {
        let ghost grown = buffer@;
        buffer.push(0);
        assert(buffer@ =~= before + zeros(buffer@.len() - before.len()));
    }
    assert(buffer@ =~= before + zeros(len - before.len()));
}

/// A run of zero bytes; empty where the length is not positive.
pub open spec fn zeros(len: int) -> Seq<u8> {
    Seq::new(
        if len > 0 {
            len as nat
        } else {
            0
        },
        |i: int| 0u8,
    )
}

} // verus!
