//! The canonicalization pass: makes an instruction stream a valid calling
//! convention compliant function body and applies the peephole rewrites.

use vstd::prelude::*;

use crate::ir::AsmInstructionEnum;
use crate::operand::Register;

pub mod optimize;

verus! {

/// The three instruction frame setup: landing pad marker, saved frame pointer,
/// fresh frame pointer.
pub open spec fn spec_prologue() -> Seq<AsmInstructionEnum> {
    seq![
        AsmInstructionEnum::Endbr64,
        AsmInstructionEnum::Push(Register::RBP),
        AsmInstructionEnum::MovReg(Register::RBP, Register::RSP),
    ]
}

/// The three instruction frame teardown: filler, restored frame pointer,
/// return.
pub open spec fn spec_epilogue() -> Seq<AsmInstructionEnum> {
    seq![
        AsmInstructionEnum::Nop,
        AsmInstructionEnum::Pop(Register::RBP),
        AsmInstructionEnum::Ret,
    ]
}

/// Whether the stream already begins with the frame setup.
pub open spec fn spec_has_prologue(s: Seq<AsmInstructionEnum>) -> bool {
    &&& s.len() >= 3
    &&& s[0] == AsmInstructionEnum::Endbr64
    &&& s[1] == AsmInstructionEnum::Push(Register::RBP)
    &&& s[2] == AsmInstructionEnum::MovReg(Register::RBP, Register::RSP)
}

/// Whether the stream already ends with the frame teardown: a frame pointer
/// pop followed by a return.
pub open spec fn spec_has_epilogue(s: Seq<AsmInstructionEnum>) -> bool {
    &&& s.len() >= 2
    &&& s[s.len() - 1] == AsmInstructionEnum::Ret
    &&& s[s.len() - 2] == AsmInstructionEnum::Pop(Register::RBP)
}

/// The peephole rewrite of one instruction: an add of immediate 1 becomes an
/// increment, an add of immediate -1 a decrement; everything else is kept.
pub open spec fn spec_peephole_one(i: AsmInstructionEnum) -> AsmInstructionEnum {
    match i {
        AsmInstructionEnum::AddVal(reg, v) => if v == 1 {
            AsmInstructionEnum::Inc(reg)
        } else if v == -1 {
            AsmInstructionEnum::Dec(reg)
        } else {
            i
        },
        _ => i,
    }
}

/// The peephole pass: one left-to-right sweep, no reordering.
pub open spec fn spec_peephole(s: Seq<AsmInstructionEnum>) -> Seq<AsmInstructionEnum> {
    Seq::new(s.len(), |i: int| spec_peephole_one(s[i]))
}

/// Frame setup: prepends the prologue unless the stream already starts with it.
pub open spec fn spec_frame_setup(s: Seq<AsmInstructionEnum>) -> Seq<AsmInstructionEnum> {
    if spec_has_prologue(s) {
        s
    } else {
        spec_prologue() + s
    }
}

/// Frame teardown: appends the epilogue unless the stream already ends with a
/// frame pointer pop and a return.
pub open spec fn spec_frame_teardown(s: Seq<AsmInstructionEnum>) -> Seq<AsmInstructionEnum> {
    if spec_has_epilogue(s) {
        s
    } else {
        s + spec_epilogue()
    }
}

/// The whole canonicalization pass: frame setup, frame teardown, peephole.
pub open spec fn spec_canonicalize(s: Seq<AsmInstructionEnum>) -> Seq<AsmInstructionEnum> {
    spec_peephole(spec_frame_teardown(spec_frame_setup(s)))
}

/// Canonicalizes one function body: guarantees the frame setup and teardown
/// around it and applies the peephole rewrites, keeping instruction order.
#[allow(non_snake_case)]
pub fn Optimize(code: Vec<AsmInstructionEnum>) -> (r: Vec<AsmInstructionEnum>)
    ensures
        r@ == spec_canonicalize(code@),
{
    let ghost input = code@;
    let has_pro = code.len() >= 3 && matches!(code[0], AsmInstructionEnum::Endbr64) && matches!(
        code[1],
        AsmInstructionEnum::Push(Register::RBP),
    ) && matches!(code[2], AsmInstructionEnum::MovReg(Register::RBP, Register::RSP));
    let mut out: Vec<AsmInstructionEnum> = Vec::new();
    if !has_pro {
        out.push(AsmInstructionEnum::Endbr64);
        out.push(AsmInstructionEnum::Push(Register::RBP));
        out.push(AsmInstructionEnum::MovReg(Register::RBP, Register::RSP));
    }
    let mut code = code;
    out.append(&mut code);
    proof {
        assert(out@ =~= spec_frame_setup(input));
    }
    let has_epi = out.len() >= 2 && matches!(out[out.len() - 1], AsmInstructionEnum::Ret)
        && matches!(out[out.len() - 2], AsmInstructionEnum::Pop(Register::RBP));
    if !has_epi {
        out.push(AsmInstructionEnum::Nop);
        out.push(AsmInstructionEnum::Pop(Register::RBP));
        out.push(AsmInstructionEnum::Ret);
    }
    proof {
        assert(out@ =~= spec_frame_teardown(spec_frame_setup(input)));
    }
    let ghost framed = out@;
    let mut i: usize = 0;
    while i < out.len()
        invariant
            out@.len() == framed.len(),
            i <= framed.len(),
            forall|j: int| 0 <= j < i ==> out@[j] == spec_peephole_one(framed[j]),
            forall|j: int| i <= j < framed.len() ==> out@[j] == framed[j],
        decreases out@.len() - i,
    {
        let rewritten = match &out[i] {
            AsmInstructionEnum::AddVal(reg, v) => {
                if *v == 1 {
                    Some(AsmInstructionEnum::Inc(*reg))
                } else if *v == -1 {
                    Some(AsmInstructionEnum::Dec(*reg))
                } else {
                    None
                }
            },
            _ => None,
        };
        if let Some(instr) = rewritten {
            out.set(i, instr);
        }
        i += 1;
    }
    proof {
        assert(out@ =~= spec_peephole(framed));
    }
    out
}

/// The peephole never produces an instruction that it would rewrite again.
proof fn lemma_peephole_one_fixed(i: AsmInstructionEnum)
    ensures
        spec_peephole_one(spec_peephole_one(i)) == spec_peephole_one(i),
{
}

/// Canonicalization is idempotent: canonicalizing a stream twice gives exactly
/// the stream that one pass gives, for any input stream.
pub proof fn lemma_canonicalize_idempotent(s: Seq<AsmInstructionEnum>)
    ensures
        spec_canonicalize(spec_canonicalize(s)) == spec_canonicalize(s),
{
    let c = spec_canonicalize(s);
    let framed = spec_frame_teardown(spec_frame_setup(s));
    // The one pass output still starts with the frame setup ...
    assert(spec_has_prologue(framed));
    assert(spec_has_prologue(c));
    assert(spec_frame_setup(c) == c);
    // ... and still ends with the frame teardown ...
    assert(spec_has_epilogue(framed));
    assert(c[c.len() - 1] == spec_peephole_one(framed[framed.len() - 1]));
    assert(c[c.len() - 2] == spec_peephole_one(framed[framed.len() - 2]));
    assert(spec_has_epilogue(c));
    assert(spec_frame_teardown(c) == c);
    // ... and a second peephole sweep changes nothing.
    assert(spec_peephole(c) =~= c) by {
        assert forall|j: int| 0 <= j < c.len() implies spec_peephole(c)[j] == c[j] by {
            lemma_peephole_one_fixed(framed[j]);
        }
    }
}

/// Frame well-formedness: every canonicalized stream starts with the three
/// instruction prologue and ends with the frame teardown.
pub proof fn lemma_canonicalize_frames(s: Seq<AsmInstructionEnum>)
    ensures
        spec_has_prologue(spec_canonicalize(s)),
        spec_has_epilogue(spec_canonicalize(s)),
        spec_canonicalize(s).subrange(0, 3) == spec_prologue(),
    {
    let c = spec_canonicalize(s);
    let framed = spec_frame_teardown(spec_frame_setup(s));
    assert(spec_has_prologue(framed));
    assert(spec_has_epilogue(framed));
    assert(c[c.len() - 1] == spec_peephole_one(framed[framed.len() - 1]));
    assert(c[c.len() - 2] == spec_peephole_one(framed[framed.len() - 2]));
    assert(c.subrange(0, 3) =~= spec_prologue());
}

/// Whether the prologue occurs at position `i` of the stream.
pub open spec fn spec_prologue_at(s: Seq<AsmInstructionEnum>, i: int) -> bool {
    0 <= i && i + 3 <= s.len() && s.subrange(i, i + 3) == spec_prologue()
}

/// Whether a frame teardown pair (frame pointer pop, return) starts at
/// position `i` of the stream.
pub open spec fn spec_teardown_at(s: Seq<AsmInstructionEnum>, i: int) -> bool {
    &&& 0 <= i
    &&& i + 2 <= s.len()
    &&& s[i] == AsmInstructionEnum::Pop(Register::RBP)
    &&& s[i + 1] == AsmInstructionEnum::Ret
}

/// Frame well-formedness, the uniqueness half: for a body that carries no
/// landing pad marker and no frame pointer pop of its own, the canonicalized
/// stream holds the prologue exactly once (at its start) and the teardown pair
/// exactly once (at its end).
pub proof fn lemma_canonicalize_frames_once(s: Seq<AsmInstructionEnum>)
    requires
        forall|j: int|
            0 <= j < s.len() ==> s[j] != AsmInstructionEnum::Endbr64 && s[j]
                != AsmInstructionEnum::Pop(Register::RBP),
    ensures
        spec_prologue_at(spec_canonicalize(s), 0),
        forall|i: int| spec_prologue_at(spec_canonicalize(s), i) ==> i == 0,
        spec_teardown_at(spec_canonicalize(s), spec_canonicalize(s).len() - 2),
        forall|i: int|
            spec_teardown_at(spec_canonicalize(s), i) ==> i == spec_canonicalize(s).len() - 2,
{
    let c = spec_canonicalize(s);
    let framed = spec_frame_teardown(spec_frame_setup(s));
    lemma_canonicalize_frames(s);
    assert(!spec_has_prologue(s) && !spec_has_epilogue(s));
    assert(framed =~= spec_prologue() + s + spec_epilogue());
    // Where the landing pad markers and frame pointer pops sit in the framed
    // stream: only at the borders, and the peephole keeps that.
    assert forall|j: int|
        0 <= j < c.len() && c[j] == AsmInstructionEnum::Endbr64 implies j == 0 by {
        assert(c[j] == spec_peephole_one(framed[j]));
        if 3 <= j < 3 + s.len() {
            assert(framed[j] == s[j - 3]);
        }
    }
    assert forall|j: int|
        0 <= j < c.len() && c[j] == AsmInstructionEnum::Pop(Register::RBP) implies j == c.len()
        - 2 by {
        assert(c[j] == spec_peephole_one(framed[j]));
        if 3 <= j < 3 + s.len() {
            assert(framed[j] == s[j - 3]);
        }
    }
    assert(c[0] == AsmInstructionEnum::Endbr64);
    assert(spec_prologue_at(c, 0)) by {
        assert(c.subrange(0, 3) =~= spec_prologue());
    }
    assert forall|i: int| spec_prologue_at(c, i) implies i == 0 by {
        if spec_prologue_at(c, i) {
            assert(c.subrange(i, i + 3)[0] == c[i]);
            assert(c[i] == AsmInstructionEnum::Endbr64);
        }
    }
    assert forall|i: int| spec_teardown_at(c, i) implies i == c.len() - 2 by {
        if spec_teardown_at(c, i) {
            assert(c[i] == AsmInstructionEnum::Pop(Register::RBP));
        }
    }
}

} // verus!
