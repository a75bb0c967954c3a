use crate::ppu::render::{
    dot_position, dots_state, lemma_tick_moves_one_dot, nmi_edge, tick_state, with_dot_skipped,
};
use crate::ppu::unit::PpuState;
use vstd::prelude::*;

verus! {

/// The dots of a frame.
pub open spec fn frame_dots() -> int {
    89342
}

/// The place in the frame of the dot that raises the frame interrupt: dot 1
/// of scanline 241.
pub open spec fn edge_dot() -> int {
    82182
}

/// Running `a` dots and then `b` is running `a + b`.
pub proof fn lemma_dots_split(s: PpuState, a: nat, b: nat)
    ensures
        dots_state(s, a + b) == dots_state(dots_state(s, a), b),
    decreases a,
{
    if a > 0 {
        lemma_dots_split(tick_state(s), (a - 1) as nat, b);
        assert((a - 1) as nat + b == (a + b - 1) as nat);
    }
}

/// Within a frame the unit moves one dot per tick: only the first dot of a
/// frame can be skipped.
pub proof fn lemma_run_within_frame(s: PpuState, count: nat)
    requires
        s.regs.on_grid(),
        dot_position(s.regs) >= 1,
        dot_position(s.regs) + count <= frame_dots() - 1,
    ensures
        dots_state(s, count).regs.on_grid(),
        dot_position(dots_state(s, count).regs) == dot_position(s.regs) + count,
    decreases count,
{
    if count > 0 {
        lemma_tick_moves_one_dot(s);
        assert(with_dot_skipped(s.regs) == s.regs);
        lemma_run_within_frame(tick_state(s), (count - 1) as nat);
    }
}

/// From the last dot of a frame the unit goes to the first dot of the next,
/// and from there to its second or, skipping one, to its third.
pub proof fn lemma_frame_wraps(s: PpuState)
    requires
        s.regs.on_grid(),
        dot_position(s.regs) == frame_dots() - 1,
    ensures
        dots_state(s, 1).regs.on_grid(),
        dot_position(dots_state(s, 1).regs) == 0,
        dots_state(s, 2).regs.on_grid(),
        dot_position(dots_state(s, 2).regs) == 1 || dot_position(dots_state(s, 2).regs) == 2,
{
    lemma_tick_moves_one_dot(s);
    let first = tick_state(s);
    assert(dots_state(s, 1) == dots_state(first, 0));
    lemma_tick_moves_one_dot(first);
    assert(dots_state(s, 2) == dots_state(first, 1));
    assert(dots_state(first, 1) == dots_state(tick_state(first), 0));
}

/// The place of the unit `count` dots after the dot that raises the frame
/// interrupt, for up to a frame of dots: it runs to the end of the frame,
/// wraps, and comes back to that dot after 89342 ticks, or after 89341 when
/// the idle dot of the new frame is skipped, and not before.
pub proof fn lemma_place_after_edge(s: PpuState, count: nat)
    requires
        s.regs.on_grid(),
        dot_position(s.regs) == edge_dot(),
        count <= frame_dots() - 2,
    ensures
        dots_state(s, count).regs.on_grid(),
        count <= 7159 ==> dot_position(dots_state(s, count).regs) == edge_dot() + count,
        count == 7160 ==> dot_position(dots_state(s, count).regs) == 0,
        count >= 7161 ==> dot_position(dots_state(s, count).regs) == count - 7160
            || dot_position(dots_state(s, count).regs) == count - 7159,
{
    if count <= 7159 {
        lemma_run_within_frame(s, count);
    } else {
        lemma_run_within_frame(s, 7159);
        let last = dots_state(s, 7159);
        lemma_frame_wraps(last);
        lemma_dots_split(s, 7159, 1);
        lemma_dots_split(s, 7159, 2);
        if count >= 7161 {
            let second = dots_state(s, 7161);
            let rest = (count - 7161) as nat;
            lemma_run_within_frame(second, rest);
            lemma_dots_split(s, 7161, rest);
        }
    }
}

/// The frame interrupt is raised once per frame: after the dot that raises
/// it, none of the next 89340 dots raises it again, whatever the unit does
/// in them; the dot that raises it comes back with the 89341st or the
/// 89342nd tick.
pub proof fn lemma_one_edge_per_frame(s: PpuState, count: nat)
    requires
        s.regs.on_grid(),
        dot_position(s.regs) == edge_dot(),
        1 <= count <= frame_dots() - 2,
    ensures
        !nmi_edge(dots_state(s, count).regs),
        dot_position(dots_state(s, (frame_dots() - 2) as nat).regs) == edge_dot() - 2
            || dot_position(dots_state(s, (frame_dots() - 2) as nat).regs) == edge_dot() - 1,
{
    lemma_place_after_edge(s, count);
    lemma_place_after_edge(s, (frame_dots() - 2) as nat);
    lemma_tick_moves_one_dot(dots_state(s, count));
}

} // verus!
