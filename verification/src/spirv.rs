use crate::error::Error;
use vstd::arithmetic::div_mod::{lemma_fundamental_div_mod, lemma_fundamental_div_mod_converse};
use vstd::prelude::*;

verus! {

/// The magic word a binary shader module opens with, in the byte order the
/// module was written in.
pub const SPIRV_MAGIC: u32 = 0x0723_0203;

/// The magic word as it reads when the module was written in the opposite
/// byte order.
pub const SPIRV_MAGIC_SWAPPED: u32 = 0x0302_2307;

/// The 32-bit word assembled from four bytes, least significant first.
pub open spec fn le_word(b0: u8, b1: u8, b2: u8, b3: u8) -> u32 {
    (b0 as u32) | ((b1 as u32) << 8) | ((b2 as u32) << 16) | ((b3 as u32) << 24)
}

/// The word sequence a byte buffer frames, four bytes to a word, least
/// significant byte first.
pub open spec fn words_of(b: Seq<u8>) -> Seq<u32> {
    Seq::new(b.len() / 4, |i: int| le_word(b[4 * i], b[4 * i + 1], b[4 * i + 2], b[4 * i + 3]))
}

/// A word with its four bytes reversed.
pub open spec fn swapped(w: u32) -> u32 {
    ((w & 0xFF) << 24) | ((w & 0xFF00) << 8) | ((w >> 8) & 0xFF00) | ((w >> 24) & 0xFF)
}

/// Every word of the sequence byte-reversed.
pub open spec fn swap_all(ws: Seq<u32>) -> Seq<u32> {
    ws.map_values(|w: u32| swapped(w))
}

/// A buffer is well framed when it is not empty and holds a whole number of
/// words.
pub open spec fn well_framed(b: Seq<u8>) -> bool {
    b.len() > 0 && b.len() % 4 == 0
}

/// A well-framed buffer is a module when its first word is the magic, either
/// natively or with bytes reversed: the format does not declare its own byte
/// order, so both readings must be tried.
pub open spec fn module_ok(b: Seq<u8>) -> bool {
    well_framed(b) && (words_of(b)[0] == SPIRV_MAGIC || words_of(b)[0] == SPIRV_MAGIC_SWAPPED)
}

/// The words of the buffer, byte-reversed throughout when the first word
/// reads as the reversed magic, untouched otherwise.
pub open spec fn normalized_words(b: Seq<u8>) -> Seq<u32> {
    if words_of(b)[0] == SPIRV_MAGIC_SWAPPED {
        swap_all(words_of(b))
    } else {
        words_of(b)
    }
}

/// Reversing a word's bytes twice gives the word back.
pub proof fn lemma_swapped_involution(w: u32)
    ensures
        swapped(swapped(w)) == w,
{
    assert((((((w & 0xFF) << 24) | ((w & 0xFF00) << 8) | ((w >> 8) & 0xFF00) | ((w >> 24) & 0xFF))
        & 0xFF) << 24) | (((((w & 0xFF) << 24) | ((w & 0xFF00) << 8) | ((w >> 8) & 0xFF00) | ((w
        >> 24) & 0xFF)) & 0xFF00) << 8) | (((((w & 0xFF) << 24) | ((w & 0xFF00) << 8) | ((w >> 8)
        & 0xFF00) | ((w >> 24) & 0xFF)) >> 8) & 0xFF00) | (((((w & 0xFF) << 24) | ((w & 0xFF00)
        << 8) | ((w >> 8) & 0xFF00) | ((w >> 24) & 0xFF)) >> 24) & 0xFF) == w) by (bit_vector);
}

/// The two magic readings are each other's byte reversal, and differ.
pub proof fn lemma_magic_swap()
    ensures
        swapped(SPIRV_MAGIC) == SPIRV_MAGIC_SWAPPED,
        swapped(SPIRV_MAGIC_SWAPPED) == SPIRV_MAGIC,
        SPIRV_MAGIC != SPIRV_MAGIC_SWAPPED,
{
    assert(((0x0723_0203u32 & 0xFF) << 24) | ((0x0723_0203u32 & 0xFF00) << 8) | ((0x0723_0203u32
        >> 8) & 0xFF00) | ((0x0723_0203u32 >> 24) & 0xFF) == 0x0302_2307u32) by (bit_vector);
    assert(((0x0302_2307u32 & 0xFF) << 24) | ((0x0302_2307u32 & 0xFF00) << 8) | ((0x0302_2307u32
        >> 8) & 0xFF00) | ((0x0302_2307u32 >> 24) & 0xFF) == 0x0723_0203u32) by (bit_vector);
}

/// Reading four bytes in the reversed order gives the byte-reversed word.
proof fn lemma_le_word_swap(b0: u8, b1: u8, b2: u8, b3: u8)
    ensures
        le_word(b3, b2, b1, b0) == swapped(le_word(b0, b1, b2, b3)),
{
    assert((b3 as u32) | ((b2 as u32) << 8) | ((b1 as u32) << 16) | ((b0 as u32) << 24) == ((((b0
        as u32) | ((b1 as u32) << 8) | ((b2 as u32) << 16) | ((b3 as u32) << 24)) & 0xFF) << 24)
        | ((((b0 as u32) | ((b1 as u32) << 8) | ((b2 as u32) << 16) | ((b3 as u32) << 24))
        & 0xFF00) << 8) | ((((b0 as u32) | ((b1 as u32) << 8) | ((b2 as u32) << 16) | ((b3 as u32)
        << 24)) >> 8) & 0xFF00) | ((((b0 as u32) | ((b1 as u32) << 8) | ((b2 as u32) << 16) | ((b3
        as u32) << 24)) >> 24) & 0xFF)) by (bit_vector);
}

/// Checks the framing of a shader module blob and settles its byte order.
///
/// The input must be a non-empty whole number of 32-bit words, else
/// `MalformedModule`.  The first word must read as the magic, natively or
/// with bytes reversed; in the reversed case every word of the buffer is
/// byte-swapped, so the words returned always open with the native magic.
/// Any other first word is `BadMagic`.
pub fn validate_and_normalize(data: &Vec<u8>) -> (r: Result<Vec<u32>, Error>)
    ensures
        r is Ok <==> module_ok(data@),
        r matches Ok(ws) ==> ws@ == normalized_words(data@) && ws@.len() == data@.len() / 4
            && ws@[0] == SPIRV_MAGIC,
        !well_framed(data@) ==> r == Err::<Vec<u32>, Error>(Error::MalformedModule),
        well_framed(data@) && !module_ok(data@) ==> r == Err::<Vec<u32>, Error>(Error::BadMagic),
{
    let n = data.len();
    if n == 0 || n % 4 != 0 {
        return Err(Error::MalformedModule);
    }
    proof {
        lemma_fundamental_div_mod(n as int, 4);
    }
    let count = n / 4;
    let mut words: Vec<u32> = Vec::new();
    let mut i: usize = 0;
    while i < count
        invariant
            count == n / 4,
            n == data@.len(),
            n % 4 == 0,
            n as int == 4 * (count as int),
            i <= count,
            words@ =~= words_of(data@).take(i as int),
        decreases count - i,
    {
        let w = (data[4 * i] as u32) | ((data[4 * i + 1] as u32) << 8) | ((data[4 * i + 2] as u32)
            << 16) | ((data[4 * i + 3] as u32) << 24);
        words.push(w);
        proof {
            assert(words_of(data@).take(i + 1) =~= words_of(data@).take(i as int).push(
                words_of(data@)[i as int],
            ));
        }
        i = i + 1;
    }
    proof {
        assert(words@ =~= words_of(data@));
    }
    let first = words[0];
    let mut out = words;
    if first == SPIRV_MAGIC_SWAPPED {
        let ghost ws = words_of(data@);
        let mut j: usize = 0;
        while j < count
            invariant
                count == ws.len(),
                out@.len() == ws.len(),
                j <= count,
                forall|k: int| 0 <= k < j ==> out@[k] == swapped(ws[k]),
                forall|k: int| j <= k < count ==> out@[k] == ws[k],
            decreases count - j,
        {
            let w = out[j];
            out.set(
                j,
                ((w & 0xFF) << 24) | ((w & 0xFF00) << 8) | ((w >> 8) & 0xFF00) | ((w >> 24)
                    & 0xFF),
            );
            j = j + 1;
        }
        proof {
            assert(out@ =~= swap_all(words_of(data@)));
            lemma_magic_swap();
        }
    }
    if out[0] == SPIRV_MAGIC {
        Ok(out)
    } else {
        Err(Error::BadMagic)
    }
}

/// A shader source the device consumes: a binary module already framed as
/// native-order words.
pub enum ShaderSource {
    SpirV(Vec<u32>),
}

/// The word form of a module blob already known to be valid.
///
/// Inputs that `validate_and_normalize` would reject are left out here, as
/// the blob is taken to come framed from a compiler.
pub fn make_spirv_raw(data: &Vec<u8>) -> (r: Vec<u32>)
    requires
        module_ok(data@),
    ensures
        r@ == normalized_words(data@),
        r@[0] == SPIRV_MAGIC,
{
    match validate_and_normalize(data) {
        Ok(ws) => ws,
        Err(_) => Vec::new(),
    }
}

/// The shader source wrapping of [`make_spirv_raw`].
pub fn make_spirv(data: &Vec<u8>) -> (r: ShaderSource)
    requires
        module_ok(data@),
    ensures
        r matches ShaderSource::SpirV(ws) && ws@ == normalized_words(data@),
{
    ShaderSource::SpirV(make_spirv_raw(data))
}

/// Law: a module buffer produced by reversing each aligned four-byte group of
/// a valid native-order module, once normalized, reproduces the original word
/// sequence exactly.
pub open spec fn byte_swapped_buffer(b: Seq<u8>) -> Seq<u8> {
    Seq::new(b.len(), |i: int| b[4 * (i / 4) + (3 - i % 4)])
}

/// Law: byte-swapping a valid native-order module and normalizing the result
/// gives back the original module's words.
pub proof fn lemma_swapped_module_round_trip(b: Seq<u8>)
    requires
        well_framed(b),
        words_of(b)[0] == SPIRV_MAGIC,
    ensures
        module_ok(byte_swapped_buffer(b)),
        normalized_words(byte_swapped_buffer(b)) == words_of(b),
{
    let sb = byte_swapped_buffer(b);
    assert(sb.len() == b.len());
    lemma_fundamental_div_mod(b.len() as int, 4);
    assert forall|j: int| 0 <= j < sb.len() / 4 implies words_of(sb)[j] == swapped(
        words_of(b)[j],
    ) by {
        lemma_fundamental_div_mod_converse(4 * j, 4, j, 0);
        lemma_fundamental_div_mod_converse(4 * j + 1, 4, j, 1);
        lemma_fundamental_div_mod_converse(4 * j + 2, 4, j, 2);
        lemma_fundamental_div_mod_converse(4 * j + 3, 4, j, 3);
        assert(sb[4 * j] == b[4 * j + 3]);
        assert(sb[4 * j + 1] == b[4 * j + 2]);
        assert(sb[4 * j + 2] == b[4 * j + 1]);
        assert(sb[4 * j + 3] == b[4 * j]);
        lemma_le_word_swap(b[4 * j], b[4 * j + 1], b[4 * j + 2], b[4 * j + 3]);
    }
    lemma_magic_swap();
    assert(words_of(sb)[0] == SPIRV_MAGIC_SWAPPED);
    assert forall|j: int| 0 <= j < b.len() / 4 implies swap_all(words_of(sb))[j] == words_of(
        b,
    )[j] by {
        lemma_swapped_involution(words_of(b)[j]);
    }
    assert(swap_all(words_of(sb)) =~= words_of(b));
}

} // verus!
