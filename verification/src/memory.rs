use vstd::prelude::*;
use crate::arm::{decode, decode_insn, is32bit_insn, is_32bit, Instruction};

verus! {

/// The 16 bit half word of index `i` in `words` (in little endian order).
pub open spec fn halfword(words: Seq<u32>, i: int) -> u32 {
    (words[i / 2] >> ((i % 2) * 16) as u32) & 0xFFFF
}

/// The raw encoding of the instruction starting at half word `i`: the half word itself, plus
/// the next half word in the upper bits if the instruction is a 32 bit one.
pub open spec fn raw_insn(words: Seq<u32>, i: int) -> u32 {
    let first = halfword(words, i);
    if is_32bit(first) && i + 1 < 2 * words.len() {
        first | (halfword(words, i + 1) << 16u32)
    } else {
        first
    }
}

/// Whether the half word `i` starts a 32 bit instruction which is cut by the end of the memory
/// bank.
pub open spec fn split_insn(words: Seq<u32>, i: int) -> bool {
    is_32bit(halfword(words, i)) && i + 1 >= 2 * words.len()
}

/// The index of the first half word, at or after `i`, that `decode_insns` does not decode when
/// asked to decode the half words before `end`: the first one which is at `end`, which is already
/// decoded, or which starts a 32 bit instruction that does not fit in the memory bank.
pub open spec fn decode_stop(words: Seq<u32>, instructions: Seq<Instruction>, i: int, end: int) -> int
    decreases end - i,
{
    if i >= end || instructions[i] != Instruction::Unknown || (is_32bit(halfword(words, i)) && i
        + 1 >= instructions.len()) {
        i
    } else {
        decode_stop(words, instructions, i + 1, end)
    }
}

/// A continuous memory range with 32 bit words and a cache of corresponding decoded instructions.
pub struct MemoryBank {
    pub words: Vec<u32>,
    pub instructions: Vec<Instruction>,
}

impl MemoryBank {
    /// The memory bank has one cached instruction per half word.
    pub open spec fn wf(self) -> bool {
        self.instructions@.len() == 2 * self.words@.len()
    }

    /// Each cached instruction is either unknown or the decoding of the half words at its index
    /// (see `raw_insn`), which then do not start a 32 bit instruction cut by the end of the bank.
    pub open spec fn cache_consistent(self) -> bool {
        forall|i: int|
            0 <= i < self.instructions@.len() && #[trigger] self.instructions@[i]
                != Instruction::Unknown ==> self.instructions@[i] == decode(
                raw_insn(self.words@, i),
            ) && !split_insn(self.words@, i)
    }

    /// Whether no instruction is cached.
    pub open spec fn cache_empty(self) -> bool {
        forall|i: int|
            0 <= i < self.instructions@.len() ==> #[trigger] self.instructions@[i]
                == Instruction::Unknown
    }

    pub fn uninitialized(num_words: u32) -> (r: Self)
        requires
            2 * num_words <= usize::MAX,
        ensures
            r.wf(),
            r.words@ == Seq::new(num_words as nat, |i: int| 0u32),
            r.cache_empty(),
            r.cache_consistent(),
    {
        let words = vec![0u32; num_words as usize];
        let instructions = vec![Instruction::Unknown; 2 * num_words as usize];
        assert(words@ == Seq::new(num_words as nat, |i: int| 0u32));
        Self { words, instructions }
    }

    pub fn new(initial_value: u32, num_words: u32) -> (r: Self)
        requires
            2 * num_words <= usize::MAX,
        ensures
            r.wf(),
            r.words@ == Seq::new(num_words as nat, |i: int| initial_value),
            r.cache_empty(),
            r.cache_consistent(),
    {
        let mut result = Self::uninitialized(num_words);
        result.reset(initial_value);
        result
    }

    pub fn get_content(&self) -> (r: &Vec<u32>)
        ensures
            r@ == self.words@,
    {
        &self.words
    }

    #[inline]
    pub fn get32_aligned(&self, address: u32) -> (r: u32)
        requires
            address % 4 == 0,
            address / 4 < self.words@.len(),
        ensures
            r == self.words@[(address / 4) as int],
    {
        self.words[(address / 4) as usize]
    }

    #[inline]
    pub fn set32_aligned(&mut self, address: u32, value: u32)
        requires
            old(self).wf(),
            address % 4 == 0,
            address / 4 < old(self).words@.len(),
        ensures
            final(self).wf(),
            final(self).words@ == old(self).words@.update((address / 4) as int, value),
            old(self).cache_consistent() ==> final(self).cache_consistent(),
            forall|i: int|
                0 <= i < final(self).instructions@.len() && (i < 2 * (address / 4) - 1 || i > 2 * (
                address / 4) + 1) ==> final(self).instructions@[i] == old(self).instructions@[i],
            final(self).instructions@ == old(self).instructions@.update(
                2 * (address / 4) as int,
                Instruction::Unknown,
            ).update(2 * (address / 4) + 1, Instruction::Unknown).update(
                if address == 0 {
                    0
                } else {
                    2 * (address / 4) - 1
                },
                Instruction::Unknown,
            ),
    {
        let index = (address / 4) as usize;
        self.words.set(index, value);
        self.invalidate_insns(index);
        proof {
            let k = index as int;
            assert forall|i: int|
                0 <= i < self.instructions@.len() && #[trigger] self.instructions@[i]
                    != Instruction::Unknown && old(self).cache_consistent() implies self.instructions@[i]
                == decode(raw_insn(self.words@, i)) by {
                assert(i < 2 * k - 1 || i > 2 * k + 1);
                assert(halfword(self.words@, i) == halfword(old(self).words@, i));
                if i + 1 < self.instructions@.len() {
                    assert(halfword(self.words@, i + 1) == halfword(old(self).words@, i + 1));
                }
                assert(old(self).instructions@[i] == self.instructions@[i]);
            }
        }
    }

    #[inline]
    pub fn get_insn(&self, address: u32) -> (r: Instruction)
        requires
            address % 2 == 0,
            address / 2 < self.instructions@.len(),
        ensures
            r == self.instructions@[(address / 2) as int],
    {
        self.instructions[(address / 2) as usize]
    }

    /// Invalidates the cached instructions which depend on the word `word_index`.
    #[inline]
    fn invalidate_insns(&mut self, word_index: usize)
        requires
            old(self).wf(),
            word_index < old(self).words@.len(),
        ensures
            final(self).wf(),
            final(self).words@ == old(self).words@,
            final(self).instructions@ == old(self).instructions@.update(
                2 * word_index as int,
                Instruction::Unknown,
            ).update(2 * word_index + 1, Instruction::Unknown).update(
                if word_index == 0 {
                    0
                } else {
                    2 * word_index - 1
                },
                Instruction::Unknown,
            ),
    {
        let count = self.instructions.len();
        let insn_index = 2 * word_index;
        self.instructions.set(insn_index, Instruction::Unknown);
        self.instructions.set(insn_index + 1, Instruction::Unknown);
        let previous = if insn_index == 0 {
            0
        } else {
            insn_index - 1
        };
        self.instructions.set(previous, Instruction::Unknown);
    }

    /// Decodes and caches the instructions starting at `address`, until `max_count` instructions
    /// are decoded, or until the end of the memory bank, or until an already decoded instruction
    /// is found, or until a 32 bit instruction which does not fit in the memory bank is found.
    pub fn decode_insns(&mut self, address: u32, max_count: usize)
        requires
            old(self).wf(),
            address % 2 == 0,
            address / 2 + max_count <= usize::MAX,
        ensures
            final(self).wf(),
            final(self).words@ == old(self).words@,
            old(self).cache_consistent() ==> final(self).cache_consistent(),
            ({
                let start = (address / 2) as int;
                let end = if start + max_count < old(self).instructions@.len() {
                    start + max_count
                } else {
                    old(self).instructions@.len() as int
                };
                let stop = decode_stop(old(self).words@, old(self).instructions@, start, end);
                forall|i: int|
                    0 <= i < final(self).instructions@.len() ==> #[trigger] final(self).instructions@[i]
                        == (if start <= i < stop {
                        decode(raw_insn(old(self).words@, i))
                    } else {
                        old(self).instructions@[i]
                    })
            }),
    {
        let start = (address / 2) as usize;
        let mut insn_index = start;
        let insn_count = self.instructions.len();
        let max_index = if insn_index + max_count < insn_count {
            insn_index + max_count
        } else {
            insn_count
        };
        let ghost old_words = self.words@;
        let ghost old_insns = self.instructions@;
        let ghost stop = decode_stop(old_words, old_insns, start as int, max_index as int);
        while insn_index < max_index && self.instructions[insn_index] == Instruction::Unknown
            invariant_except_break
                self.wf(),
                self.words@ == old_words,
                self.instructions@.len() == old_insns.len(),
                insn_count == old_insns.len(),
                start <= insn_index,
                max_index <= insn_count,
                insn_index <= max_index || start == insn_index,
                decode_stop(old_words, old_insns, insn_index as int, max_index as int) == stop,
                old(self).cache_consistent() ==> self.cache_consistent(),
                forall|i: int|
                    0 <= i < self.instructions@.len() ==> #[trigger] self.instructions@[i] == (if start
                        <= i < insn_index {
                        decode(raw_insn(old_words, i))
                    } else {
                        old_insns[i]
                    }),
            ensures
                self.wf(),
                self.words@ == old_words,
                old(self).cache_consistent() ==> self.cache_consistent(),
                forall|i: int|
                    0 <= i < self.instructions@.len() ==> #[trigger] self.instructions@[i] == (if start
                        <= i < stop {
                        decode(raw_insn(old_words, i))
                    } else {
                        old_insns[i]
                    }),
            decreases max_index - insn_index,
        {
            let mut raw = self.get_raw_insn16(insn_index);
            if is32bit_insn(raw) {
                if insn_index + 1 < insn_count {
                    let next = self.get_raw_insn16(insn_index + 1);
                    raw = raw | (next << 16);
                } else {
                    break;
                }
            }
            let decoded = decode_insn(raw);
            self.instructions.set(insn_index, decoded);
            proof {
                assert(decoded != Instruction::Unknown) by {
                    lemma_decode_is_known(raw);
                }
            }
            insn_index = insn_index + 1;
        }
    }

    #[inline]
    fn get_raw_insn16(&self, index: usize) -> (r: u32)
        requires
            self.wf(),
            index < self.instructions@.len(),
        ensures
            r == halfword(self.words@, index as int),
            r < 0x10000,
    {
        let word = self.words[index / 2];
        let shift: u32 = ((index % 2) * 16) as u32;
        assert((word >> shift) & 0xFFFF < 0x10000) by (bit_vector);
        (word >> shift) & 0xFFFF
    }

    pub fn reset(&mut self, initial_value: u32)
        requires
            old(self).wf(),
        ensures
            final(self).wf(),
            final(self).words@ == Seq::new(old(self).words@.len(), |i: int| initial_value),
            final(self).cache_empty(),
            final(self).cache_consistent(),
    {
        let n = self.words.len();
        let mut i: usize = 0;
        while i < n
            invariant
                n == self.words@.len(),
                self.wf(),
                self.instructions@.len() == 2 * n,
                forall|j: int| 0 <= j < i ==> #[trigger] self.words@[j] == initial_value,
            decreases n - i,
        {
            self.words.set(i, initial_value);
            i = i + 1;
        }
        let m = self.instructions.len();
        let mut j: usize = 0;
        while j < m
            invariant
                m == self.instructions@.len(),
                n == self.words@.len(),
                self.wf(),
                forall|k: int| 0 <= k < n ==> #[trigger] self.words@[k] == initial_value,
                forall|k: int| 0 <= k < j ==> #[trigger] self.instructions@[k] == Instruction::Unknown,
            decreases m - j,
        {
            self.instructions.set(j, Instruction::Unknown);
            j = j + 1;
        }
        assert(self.words@ == Seq::new(n as nat, |i: int| initial_value));
    }

    pub fn serialize(&self, output: &mut Vec<u32>)
        ensures
            final(output)@ == old(output)@ + self.words@,
    {
        let n = self.words.len();
        let mut i: usize = 0;
        while i < n
            invariant
                n == self.words@.len(),
                i <= n,
                output@ == old(output)@ + self.words@.subrange(0, i as int),
            decreases n - i,
        {
            output.push(self.words[i]);
            i = i + 1;
            assert(self.words@.subrange(0, i as int) == self.words@.subrange(0, i - 1) + seq![self.words@[i - 1]]);
        }
        assert(self.words@.subrange(0, n as int) == self.words@);
    }

    /// Restores the words of this bank from the end of `input`, and removes them from `input`.
    pub fn deserialize(&mut self, input: &mut Vec<u32>)
        requires
            old(self).wf(),
            old(input)@.len() >= old(self).words@.len(),
        ensures
            final(self).wf(),
            final(self).instructions@ == old(self).instructions@,
            old(input)@ == final(input)@ + final(self).words@,
            final(self).words@.len() == old(self).words@.len(),
            old(self).cache_empty() ==> final(self).cache_consistent(),
    {
        let n = self.words.len();
        let new_len = input.len() - n;
        let mut i: usize = 0;
        while i < n
            invariant
                n == self.words@.len(),
                self.wf(),
                self.instructions@ == old(self).instructions@,
                input@ == old(input)@,
                new_len + n == input@.len(),
                new_len + n <= usize::MAX,
                forall|j: int| 0 <= j < i ==> #[trigger] self.words@[j] == input@[new_len + j],
            decreases n - i,
        {
            let value = input[new_len + i];
            self.words.set(i, value);
            i = i + 1;
        }
        input.truncate(new_len);
        assert(old(input)@ == input@ + self.words@);
    }
}

/// Deserializing, into a bank of the same size, what `serialize` wrote gives back the words of
/// the serialized bank and consumes exactly them: `saved` are the words of the serialized bank,
/// `before` what precedes them in the input, and `restored` and `after` the words of the bank and
/// the input after `deserialize`.
pub proof fn lemma_bank_serialization_round_trip(
    saved: Seq<u32>,
    before: Seq<u32>,
    restored: Seq<u32>,
    after: Seq<u32>,
)
    requires
        restored.len() == saved.len(),
        before + saved == after + restored,
    ensures
        restored == saved,
        after == before,
{
    let input = before + saved;
    assert(input.len() == before.len() + saved.len());
    assert((after + restored).len() == after.len() + restored.len());
    assert(after.len() == before.len());
    assert forall|i: int| 0 <= i < before.len() implies after[i] == before[i] by {
        assert(input[i] == before[i]);
        assert((after + restored)[i] == after[i]);
    }
    assert forall|i: int| 0 <= i < saved.len() implies restored[i] == saved[i] by {
        assert(input[before.len() + i] == saved[i]);
        assert((after + restored)[before.len() + i] == restored[i]);
    }
    assert(after =~= before);
    assert(restored =~= saved);
}

/// Decoding never yields the `Unknown` instruction, which marks instructions not decoded yet.
pub proof fn lemma_decode_is_known(insn: u32)
    ensures
        decode(insn) != Instruction::Unknown,
{
}

/// Decoding from an unknown instruction which is not cut by the end of the bank decodes at
/// least this instruction.
pub proof fn lemma_decode_stop_progress(
    words: Seq<u32>,
    instructions: Seq<Instruction>,
    i: int,
    end: int,
)
    requires
        instructions.len() == 2 * words.len(),
        0 <= i < end,
        instructions[i] == Instruction::Unknown,
        !split_insn(words, i),
    ensures
        decode_stop(words, instructions, i, end) > i,
{
    lemma_decode_stop_at_least(words, instructions, i + 1, end);
}

/// Decoding stops at or after its start.
pub proof fn lemma_decode_stop_at_least(
    words: Seq<u32>,
    instructions: Seq<Instruction>,
    i: int,
    end: int,
)
    ensures
        decode_stop(words, instructions, i, end) >= i,
    decreases end - i,
{
    if i < end && instructions[i] == Instruction::Unknown && !(is_32bit(halfword(words, i)) && i
        + 1 >= instructions.len()) {
        lemma_decode_stop_at_least(words, instructions, i + 1, end);
    }
}

} // verus!
