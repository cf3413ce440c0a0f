//! Laws of the scoped construction protocol, stated over the builder's
//! mathematical model and proved once for every build.

use vstd::prelude::*;
use crate::builder::{
    bv_append_all, bv_if_inst, bv_pop_frame, bv_push_frame, bv_push_inst, push_top, BuilderView,
};
use crate::inst::InstructionView;

verus! {

/// Appending a list of instructions touches only the active frame: the
/// stack keeps its depth, every outer frame is untouched, the list lands
/// at the end of the active frame in order, and the declared functions and
/// the allocator are untouched.
pub proof fn lemma_append_all(b: BuilderView, s: Seq<InstructionView>)
    requires
        b.frames.len() >= 1,
    ensures
        bv_append_all(b, s).frames.len() == b.frames.len(),
        bv_append_all(b, s).frames.last() == b.frames.last() + s,
        forall|j: int| 0 <= j < b.frames.len() - 1 ==> bv_append_all(b, s).frames[j]
            == b.frames[j],
        bv_append_all(b, s).external_functions == b.external_functions,
        bv_append_all(b, s).last_variable == b.last_variable,
    decreases s.len(),
{
    if s.len() == 0 {
        assert(b.frames.last() + s =~= b.frames.last());
    } else {
        let b1 = bv_push_inst(b, s[0]);
        lemma_append_all(b1, s.drop_first());
        assert(b1.frames.last() == b.frames.last().push(s[0]));
        assert(b.frames.last().push(s[0]) + s.drop_first() =~= b.frames.last() + s);
        assert forall|j: int| 0 <= j < b.frames.len() - 1 implies bv_append_all(b, s).frames[j]
            == b.frames[j] by {
            assert(bv_append_all(b, s) == bv_append_all(b1, s.drop_first()));
            assert(bv_append_all(b1, s.drop_first()).frames[j] == b1.frames[j]);
            assert(b1.frames[j] == b.frames[j]);
        }
    }
}

/// The frame discipline never disturbs the allocator: opening a frame,
/// appending instructions, and closing a frame all keep the last allocated
/// variable. Together with the allocator's own contract — every allocation
/// hands out the previous id plus one, starting from 0 — variable ids
/// advance 0, 1, 2, ... across an entire build, wherever in the
/// conditional nesting each allocation happens.
pub proof fn lemma_frames_keep_allocator(b: BuilderView, s: Seq<InstructionView>)
    ensures
        bv_push_frame(b).last_variable == b.last_variable,
        bv_pop_frame(b).0.last_variable == b.last_variable,
        b.frames.len() >= 1 ==> bv_append_all(b, s).last_variable == b.last_variable,
{
    if b.frames.len() >= 1 {
        lemma_append_all(b, s);
    }
}

/// A conditional built through the scoped protocol captures exactly what
/// each branch appended, and nothing else. Starting from any builder state
/// with at least one frame: opening a frame, appending the "then" body,
/// and closing the frame captures precisely that body; the same holds for
/// the "else" body; and sealing the conditional appends to the enclosing
/// active frame exactly one `If` instruction holding the two bodies, with
/// the stack depth, every outer frame, the declared functions, and the
/// allocator as they were. A branch whose body is the empty list — a
/// branch for which the caller supplied no logic — is captured as an empty
/// list, not a missing one.
pub proof fn lemma_conditional_captures_branches(
    b0: BuilderView,
    cond: Seq<char>,
    thens: Seq<InstructionView>,
    elss: Seq<InstructionView>,
)
    requires
        b0.frames.len() >= 1,
    ensures
        ({
            let b1 = bv_push_frame(b0);
            let (b2, then_frame) = bv_pop_frame(bv_append_all(b1, thens));
            let b3 = bv_push_frame(b2);
            let (b4, else_frame) = bv_pop_frame(bv_append_all(b3, elss));
            let b5 = bv_push_inst(b4, bv_if_inst(cond, thens, elss));
            &&& then_frame == Some(thens)
            &&& else_frame == Some(elss)
            &&& b5.frames == push_top(b0.frames, bv_if_inst(cond, thens, elss))
            &&& b5.frames.len() == b0.frames.len()
            &&& b5.external_functions == b0.external_functions
            &&& b5.last_variable == b0.last_variable
        }),
{
    let b1 = bv_push_frame(b0);
    lemma_append_all(b1, thens);
    let a1 = bv_append_all(b1, thens);
    assert(a1.frames.len() == b0.frames.len() + 1);
    assert(a1.frames.last() == b1.frames.last() + thens);
    assert(b1.frames.last() + thens =~= thens);
    let (b2, then_frame) = bv_pop_frame(a1);
    assert forall|j: int| 0 <= j < b0.frames.len() implies a1.frames[j] == b0.frames[j] by {
        assert(a1.frames[j] == b1.frames[j]);
        assert(b1.frames[j] == b0.frames[j]);
    }
    assert(b2.frames =~= b0.frames);
    let b3 = bv_push_frame(b2);
    lemma_append_all(b3, elss);
    let a2 = bv_append_all(b3, elss);
    assert(a2.frames.len() == b0.frames.len() + 1);
    assert(a2.frames.last() == b3.frames.last() + elss);
    assert(b3.frames.last() + elss =~= elss);
    let (b4, else_frame) = bv_pop_frame(a2);
    assert forall|j: int| 0 <= j < b0.frames.len() implies a2.frames[j] == b0.frames[j] by {
        assert(a2.frames[j] == b3.frames[j]);
        assert(b3.frames[j] == b2.frames[j]);
    }
    assert(b4.frames =~= b0.frames);
    let b5 = bv_push_inst(b4, bv_if_inst(cond, thens, elss));
    assert(b5.frames =~= push_top(b0.frames, bv_if_inst(cond, thens, elss)));
}

/// The special case of a conditional whose "then" branch got no caller
/// logic at all while the "else" branch appended instructions: the sealed
/// `If` holds an empty "then" list and exactly the appended "else" list,
/// in order.
pub proof fn lemma_conditional_empty_then(
    b0: BuilderView,
    cond: Seq<char>,
    elss: Seq<InstructionView>,
)
    requires
        b0.frames.len() >= 1,
    ensures
        ({
            let b1 = bv_push_frame(b0);
            let (b2, then_frame) = bv_pop_frame(b1);
            let b3 = bv_push_frame(b2);
            let (b4, else_frame) = bv_pop_frame(bv_append_all(b3, elss));
            let b5 = bv_push_inst(
                b4,
                bv_if_inst(cond, Seq::<InstructionView>::empty(), elss),
            );
            &&& then_frame == Some(Seq::<InstructionView>::empty())
            &&& else_frame == Some(elss)
            &&& b5.frames == push_top(
                b0.frames,
                bv_if_inst(cond, Seq::<InstructionView>::empty(), elss),
            )
            &&& b5.frames.len() == b0.frames.len()
            &&& b5.external_functions == b0.external_functions
            &&& b5.last_variable == b0.last_variable
        }),
{
    lemma_conditional_captures_branches(b0, cond, Seq::<InstructionView>::empty(), elss);
    assert(bv_append_all(bv_push_frame(b0), Seq::<InstructionView>::empty()) == bv_push_frame(
        b0,
    ));
}

} // verus!
