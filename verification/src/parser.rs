use vstd::prelude::*;

verus! {

/// The magic number that opens every SPIR-V module.
pub const SPIRV_MAGIC: u32 = 0x0723_0203;

/// One instruction of a SPIR-V module: its opcode, its word offset in the
/// stream, and its length in words (taken from the high half of the first
/// word, as the format's physical layout prescribes).
#[derive(Clone, Copy, PartialEq, Eq, Structural, Debug)]
pub struct Op {
    pub opcode: u32,
    pub offset: u32,
    pub size: u32,
}

/// The instruction stream starting at word `i` is well formed: each
/// instruction declares a positive word count and the chain of counts lands
/// exactly on the end of the stream.
pub open spec fn well_formed_from(words: Seq<u32>, i: int) -> bool
    decreases words.len() - i,
    when 0 <= i <= words.len()
{
    if i >= words.len() {
        true
    } else {
        let size = (words[i] >> 16) as int;
        if size <= 0 || i + size > words.len() {
            false
        } else {
            well_formed_from(words, i + size)
        }
    }
}

/// The instructions of a well-formed stream starting at word `i`.
pub open spec fn ops_from(words: Seq<u32>, i: int) -> Seq<Op>
    decreases words.len() - i,
    when 0 <= i <= words.len()
{
    if i >= words.len() {
        Seq::empty()
    } else {
        let size = (words[i] >> 16) as int;
        if size <= 0 || i + size > words.len() {
            Seq::empty()
        } else {
            seq![
                Op { opcode: words[i] & 0xff, offset: i as u32, size: words[i] >> 16 },
            ] + ops_from(words, i + size)
        }
    }
}

/// The word assembled from four consecutive bytes, least significant first,
/// as SPIR-V files store their words on disk.
pub open spec fn word_at(bytes: Seq<u8>, i: int) -> u32 {
    (bytes[4 * i] as u32) | (bytes[4 * i + 1] as u32) << 8 | (bytes[4 * i + 2] as u32) << 16 | (
    bytes[4 * i + 3] as u32) << 24
}

/// Assembles a byte stream into little-endian words, dropping any trailing
/// bytes that do not fill a word.
pub fn words_from_bytes(bytes: &[u8]) -> (words: Vec<u32>)
    ensures
        words@.len() == bytes@.len() / 4,
        forall|i: int| 0 <= i < words@.len() ==> words@[i] == word_at(bytes@, i),
{
    let byte_count = bytes.len();
    let word_count = byte_count / 4;
    let mut words: Vec<u32> = Vec::new();
    let mut i: usize = 0;
    while i < word_count
        invariant
            i <= word_count,
            byte_count == bytes@.len(),
            word_count == bytes@.len() / 4,
            words@.len() == i,
            forall|j: int| 0 <= j < i ==> words@[j] == word_at(bytes@, j),
        decreases word_count - i,
    {
        proof {
            assert(bytes@.len() as int == 4 * (bytes@.len() as int / 4) + (bytes@.len() as int)
                % 4);
            assert(0 <= (bytes@.len() as int) % 4 < 4);
            assert(i * 4 + 3 < bytes@.len());
        }
        let word = (bytes[i * 4] as u32) | (bytes[i * 4 + 1] as u32) << 8 | (bytes[i * 4
            + 2] as u32) << 16 | (bytes[i * 4 + 3] as u32) << 24;
        words.push(word);
        i = i + 1;
    }
    words
}

/// A scanner over a SPIR-V word stream: it walks the instruction chain that
/// starts after the five-word header and keeps each instruction's opcode,
/// offset and size.
#[derive(Debug)]
pub struct Parser {
    pub ops: Vec<Op>,
}

impl Parser {
    /// Scans the given module. The words must open with the SPIR-V magic
    /// number and carry a well-formed instruction chain after the five-word
    /// header.
    pub fn new(spv_data: &Vec<u32>) -> (parser: Parser)
        requires
            spv_data@.len() >= 5,
            spv_data@.len() <= u32::MAX,
            spv_data@[0] == SPIRV_MAGIC,
            well_formed_from(spv_data@, 5),
        ensures
            parser.ops@ == ops_from(spv_data@, 5),
    {
        let ops = Parser::process_data(spv_data);
        Parser { ops }
    }

    fn process_data(spv_data: &Vec<u32>) -> (ops: Vec<Op>)
        requires
            spv_data@.len() >= 5,
            spv_data@.len() <= u32::MAX,
            well_formed_from(spv_data@, 5),
        ensures
            ops@ == ops_from(spv_data@, 5),
    {
        let _id_bound = spv_data[3];
        let mut ops: Vec<Op> = Vec::new();
        let mut i: u32 = 5;
        proof {
            assert(ops_from(spv_data@, 5) =~= Seq::<Op>::empty() + ops_from(spv_data@, 5));
        }
        while (i as usize) != spv_data.len()
            invariant
                5 <= i as int <= spv_data@.len(),
                spv_data@.len() <= u32::MAX,
                well_formed_from(spv_data@, i as int),
                ops_from(spv_data@, 5) == ops@ + ops_from(spv_data@, i as int),
            decreases spv_data@.len() - i,
        {
            let offset = i;
            let word = spv_data[i as usize];
            let opcode = word & 0xff;
            let size = word >> 16;
            ops.push(Op { opcode, offset, size });
            proof {
                assert((word >> 16) as int > 0 && i + (word >> 16) as int <= spv_data@.len())
                    by {
                    assert(well_formed_from(spv_data@, i as int));
                };
                assert(ops_from(spv_data@, i as int) == seq![
                    Op { opcode: word & 0xff, offset: i, size: word >> 16 },
                ] + ops_from(spv_data@, i as int + (word >> 16) as int));
                assert(ops@ + ops_from(spv_data@, i as int + (word >> 16) as int)
                    =~= ops_from(spv_data@, 5));
            }
            i = i + size;
        }
        proof {
            assert(ops_from(spv_data@, spv_data@.len() as int) =~= Seq::<Op>::empty());
            assert(ops@ =~= ops_from(spv_data@, 5));
        }
        ops
    }
}

} // verus!
