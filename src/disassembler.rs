//! The cursor walk that turns a whole buffer into instructions.
use vstd::prelude::*;

use crate::decoder::{decode, lemma_decoded_size_in_bounds};
use crate::error::{AnalyzerError, DecodeError};
use crate::instruction::Instruction;

verus! {

/// The instructions decoded from `bytes[pos..]` in order, or the offset and
/// error of the first instruction that does not decode.
pub open spec fn disassembly_from(bytes: Seq<u8>, pos: nat) -> Result<
    Seq<Instruction>,
    (nat, DecodeError),
>
    decreases bytes.len() - pos,
{
    if pos >= bytes.len() {
        Ok(Seq::empty())
    } else {
        match decode(bytes.subrange(pos as int, bytes.len() as int)) {
            Err(e) => Err((pos, e)),
            Ok(inst) => match disassembly_from(bytes, (pos + inst.size) as nat) {
                Ok(rest) => Ok(seq![inst] + rest),
                Err(failure) => Err(failure),
            },
        }
    }
}

/// The disassembly of a whole buffer, from offset 0.
pub open spec fn disassembly(bytes: Seq<u8>) -> Result<Seq<Instruction>, (nat, DecodeError)> {
    disassembly_from(bytes, 0)
}

/// `done` followed by the outcome `r` of the rest of a walk.
pub open spec fn after(done: Seq<Instruction>, r: Result<Seq<Instruction>, (nat, DecodeError)>) -> Result<
    Seq<Instruction>,
    (nat, DecodeError),
> {
    match r {
        Ok(rest) => Ok(done + rest),
        Err(failure) => Err(failure),
    }
}

/// What [`Disassembler::disassemble`] returns for `bytes`: the disassembly's
/// instructions, or its failure as an [`AnalyzerError::Decode`].
pub open spec fn disassemble_result(
    bytes: Seq<u8>,
    r: Result<Vec<Instruction>, AnalyzerError>,
) -> bool {
    match disassembly(bytes) {
        Ok(insts) => r is Ok && r->Ok_0@ == insts,
        Err((offset, error)) => r is Err && r->Err_0 == AnalyzerError::Decode {
            offset: offset as usize,
            error,
        },
    }
}

/// Sum of the sizes of `insts`.
pub open spec fn total_size(insts: Seq<Instruction>) -> nat
    decreases insts.len(),
{
    if insts.len() == 0 {
        0
    } else {
        (insts[0].size + total_size(insts.drop_first())) as nat
    }
}

/// Offset of instruction `k` of `insts` from the start of the first.
pub open spec fn start_of(insts: Seq<Instruction>, k: int) -> nat {
    total_size(insts.take(k))
}

proof fn lemma_start_of_after_first(inst: Instruction, rest: Seq<Instruction>, k: int)
    requires
        1 <= k <= rest.len() + 1,
    ensures
        start_of(seq![inst] + rest, k) == inst.size + start_of(rest, k - 1),
{
    let s = seq![inst] + rest;
    assert(s.take(k).drop_first() =~= rest.take(k - 1));
}

proof fn lemma_partition_from(bytes: Seq<u8>, pos: nat)
    requires
        pos <= bytes.len(),
        disassembly_from(bytes, pos) is Ok,
    ensures
        ({
            let insts = disassembly_from(bytes, pos)->Ok_0;
            &&& pos + total_size(insts) == bytes.len()
            &&& forall|k: int|
                0 <= k < insts.len() ==> {
                    &&& 1 <= #[trigger] insts[k].size
                    &&& start_of(insts, k) + insts[k].size == start_of(insts, k + 1)
                    &&& decode(bytes.subrange((pos + start_of(insts, k)) as int, bytes.len() as int))
                        == Ok::<Instruction, DecodeError>(insts[k])
                }
        }),
    decreases bytes.len() - pos,
{
    let insts = disassembly_from(bytes, pos)->Ok_0;
    if pos < bytes.len() {
        let inst = decode(bytes.subrange(pos as int, bytes.len() as int))->Ok_0;
        lemma_decoded_size_in_bounds(bytes.subrange(pos as int, bytes.len() as int));
        let next = (pos + inst.size) as nat;
        lemma_partition_from(bytes, next);
        let rest = disassembly_from(bytes, next)->Ok_0;
        assert(insts == seq![inst] + rest);
        assert(insts.drop_first() =~= rest);
        assert forall|k: int| 0 <= k < insts.len() implies {
            &&& 1 <= #[trigger] insts[k].size
            &&& start_of(insts, k) + insts[k].size == start_of(insts, k + 1)
            &&& decode(bytes.subrange((pos + start_of(insts, k)) as int, bytes.len() as int)) == Ok::<Instruction, DecodeError>(
                insts[k],
            )
        } by {
            lemma_start_of_after_first(inst, rest, k + 1);
            if k == 0 {
                assert(insts.take(0) =~= Seq::<Instruction>::empty());
                assert(insts.take(1).drop_first() =~= Seq::<Instruction>::empty());
            } else {
                lemma_start_of_after_first(inst, rest, k);
                assert(insts[k] == rest[k - 1]);
            }
        }
    }
}

/// When a whole buffer disassembles, the instructions partition it: their
/// sizes add up to its length; the first starts at 0 and each next one where
/// the one before ends, every span being at least one byte long; and each is
/// the decoding of the bytes from its start.
pub proof fn lemma_disassembly_partitions(bytes: Seq<u8>)
    requires
        disassembly(bytes) is Ok,
    ensures
        ({
            let insts = disassembly(bytes)->Ok_0;
            &&& total_size(insts) == bytes.len()
            &&& start_of(insts, 0) == 0
            &&& forall|k: int|
                0 <= k < insts.len() ==> {
                    &&& 1 <= #[trigger] insts[k].size
                    &&& start_of(insts, k) + insts[k].size == start_of(insts, k + 1)
                    &&& start_of(insts, k) + insts[k].size <= bytes.len()
                    &&& decode(bytes.subrange(start_of(insts, k) as int, bytes.len() as int))
                        == Ok::<Instruction, DecodeError>(insts[k])
                }
        }),
{
    lemma_partition_from(bytes, 0);
    let insts = disassembly(bytes)->Ok_0;
    assert(insts.take(0) =~= Seq::<Instruction>::empty());
    assert forall|k: int| 0 <= k < insts.len() implies start_of(insts, k) + #[trigger] insts[k].size
        <= bytes.len() by {
        lemma_prefix_size_at_most_total(insts, k + 1);
    }
}

proof fn lemma_prefix_size_at_most_total(insts: Seq<Instruction>, k: int)
    requires
        0 <= k <= insts.len(),
    ensures
        start_of(insts, k) <= total_size(insts),
    decreases k,
{
    if k > 0 {
        lemma_start_of_after_first(insts[0], insts.drop_first(), k);
        lemma_prefix_size_at_most_total(insts.drop_first(), k - 1);
        assert(seq![insts[0]] + insts.drop_first() =~= insts);
    }
}

pub struct Disassembler;

impl Disassembler {
    /// Decodes `bytes` from offset 0 to the end, stopping at the first
    /// instruction that does not decode.
    pub fn disassemble(bytes: &Vec<u8>) -> (r: Result<Vec<Instruction>, AnalyzerError>)
        ensures
            disassemble_result(bytes@, r),
    {
        let slice = bytes.as_slice();
        let mut out: Vec<Instruction> = Vec::new();
        let mut pos: usize = 0;
        while pos < slice.len()
            invariant
                slice@ == bytes@,
                pos <= slice@.len(),
                disassembly(bytes@) == after(out@, disassembly_from(bytes@, pos as nat)),
            decreases slice@.len() - pos,
        {
            let ghost rest = slice@.subrange(pos as int, slice@.len() as int);
            match Instruction::decode(slice, pos) {
                Err(e) => {
                    return Err(AnalyzerError::Decode { offset: pos, error: e });
                },
                Ok(inst) => {
                    proof {
                        lemma_decoded_size_in_bounds(rest);
                        let next = disassembly_from(bytes@, (pos + inst.size) as nat);
                        if next is Ok {
                            assert(out@ + (seq![inst] + next->Ok_0) =~= out@.push(inst)
                                + next->Ok_0);
                        }
                    }
                    pos = pos + inst.size;
                    out.push(inst);
                },
            }
        }
        assert(out@ + Seq::<Instruction>::empty() =~= out@);
        Ok(out)
    }
}

} // verus!
