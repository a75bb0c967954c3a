use crate::ppu::sprite::{evaluate_entry, evaluate_from, first_free};
use crate::ppu::unit::{PpuRegisters, PpuState, SpriteSlot};
use vstd::prelude::*;

verus! {

/// The number of empty slots at or after `from`.
pub open spec fn free_slots(slots: Seq<SpriteSlot>, from: int) -> nat
    decreases slots.len() - from,
{
    if from < 0 || from >= slots.len() {
        0
    } else if slots[from].is_none() {
        1 + free_slots(slots, from + 1)
    } else {
        free_slots(slots, from + 1)
    }
}

/// The number of primary entries at or after `from` that cover the current
/// scanline.
pub open spec fn covering(s: PpuState, from: int) -> nat
    decreases 64 - from,
{
    if from < 0 || from >= 64 {
        0
    } else if s.primary_oam[from].spec_covers(s.regs.scanline, s.regs.sprite_height()) {
        1 + covering(s, from + 1)
    } else {
        covering(s, from + 1)
    }
}

/// The first empty slot is empty, and there is none exactly when no slot is
/// empty.
pub proof fn lemma_first_free(slots: Seq<SpriteSlot>, from: int)
    requires
        0 <= from,
    ensures
        match first_free(slots, from) {
            Some(k) => from <= k < slots.len() && slots[k].is_none() && free_slots(slots, from)
                >= 1,
            None => free_slots(slots, from) == 0,
        },
    decreases slots.len() - from,
{
    if from < slots.len() {
        lemma_first_free(slots, from + 1);
    }
}

/// Filling an empty slot leaves one empty slot less.
pub proof fn lemma_fill(slots: Seq<SpriteSlot>, k: int, entry: SpriteSlot, from: int)
    requires
        0 <= from <= k < slots.len(),
        slots[k].is_none(),
        entry.is_some(),
    ensures
        free_slots(slots.update(k, entry), from) == free_slots(slots, from) - 1,
    decreases k - from,
{
    let filled = slots.update(k, entry);
    if from < k {
        lemma_fill(slots, k, entry, from + 1);
        assert(filled[from] == slots[from]);
    } else {
        lemma_unchanged_behind(slots, k, entry, k + 1);
    }
}

/// Filling a slot changes nothing behind it.
pub proof fn lemma_unchanged_behind(slots: Seq<SpriteSlot>, k: int, entry: SpriteSlot, from: int)
    requires
        0 <= k < from,
        k < slots.len(),
    ensures
        free_slots(slots.update(k, entry), from) == free_slots(slots, from),
    decreases slots.len() - from,
{
    if from < slots.len() {
        lemma_unchanged_behind(slots, k, entry, from + 1);
        assert(slots.update(k, entry)[from] == slots[from]);
    }
}

/// Sprite evaluation leaves the primary table, the scanline and the sprite
/// height as they are.
pub proof fn lemma_evaluation_keeps_inputs(s: PpuState, i: int)
    requires
        0 <= i <= 64,
    ensures
        evaluate_from(s, i).primary_oam == s.primary_oam,
        evaluate_from(s, i).regs.scanline == s.regs.scanline,
        evaluate_from(s, i).regs.sprite_size == s.regs.sprite_size,
        evaluate_from(s, i).secondary_oam.len() == s.secondary_oam.len(),
    decreases 64 - i,
{
    if i < 64 {
        lemma_first_free(s.secondary_oam, 0);
        lemma_evaluation_keeps_inputs(evaluate_entry(s, i), i + 1);
    }
}

/// The number of sprites on the scanline does not depend on the secondary
/// table or on the overflow flag.
pub proof fn lemma_covering_depends_on_inputs(s: PpuState, t: PpuState, from: int)
    requires
        0 <= from <= 64,
        s.primary_oam == t.primary_oam,
        s.regs.scanline == t.regs.scanline,
        s.regs.sprite_size == t.regs.sprite_size,
    ensures
        covering(s, from) == covering(t, from),
    decreases 64 - from,
{
    if from < 64 {
        lemma_covering_depends_on_inputs(s, t, from + 1);
    }
}

/// Sprite evaluation from entry `i` on fills as many empty slots as there
/// are sprites on the scanline, as far as there are empty slots, and sets
/// sprite overflow exactly when there are more sprites than empty slots.
pub proof fn lemma_evaluation_counts(s: PpuState, i: int)
    requires
        0 <= i <= 64,
    ensures
        free_slots(evaluate_from(s, i).secondary_oam, 0) == (if covering(s, i) >= free_slots(
            s.secondary_oam,
            0,
        ) {
            0
        } else {
            free_slots(s.secondary_oam, 0) - covering(s, i)
        }),
        evaluate_from(s, i).regs.sprite_overflow == (s.regs.sprite_overflow || covering(s, i)
            > free_slots(s.secondary_oam, 0)),
    decreases 64 - i,
{
    if i < 64 {
        let next = evaluate_entry(s, i);
        lemma_first_free(s.secondary_oam, 0);
        lemma_evaluation_counts(next, i + 1);
        lemma_covering_depends_on_inputs(s, next, i + 1);
        if s.primary_oam[i].spec_covers(s.regs.scanline, s.regs.sprite_height()) {
            match first_free(s.secondary_oam, 0) {
                Some(k) => {
                    lemma_fill(s.secondary_oam, k, Some((s.primary_oam[i], i as usize)), 0);
                },
                None => {},
            }
        }
    }
}

/// On a scanline with more than eight sprites, evaluation into a cleared
/// secondary table fills all eight slots and sets sprite overflow; with at
/// most eight it fills one slot per sprite and leaves the flag as it is.
pub proof fn lemma_ninth_sprite_overflows(s: PpuState)
    requires
        s.secondary_oam.len() == 8,
        forall|k: int| 0 <= k < 8 ==> s.secondary_oam[k].is_none(),
    ensures
        evaluate_from(s, 0).secondary_oam.len() == 8,
        covering(s, 0) > 8 ==> evaluate_from(s, 0).regs.sprite_overflow && forall|k: int|
            0 <= k < 8 ==> evaluate_from(s, 0).secondary_oam[k].is_some(),
        covering(s, 0) <= 8 ==> evaluate_from(s, 0).regs.sprite_overflow
            == s.regs.sprite_overflow && free_slots(evaluate_from(s, 0).secondary_oam, 0) == 8
            - covering(s, 0),
{
    lemma_all_free(s.secondary_oam, 0);
    lemma_evaluation_counts(s, 0);
    lemma_evaluation_keeps_inputs(s, 0);
    let r = evaluate_from(s, 0);
    if covering(s, 0) > 8 {
        assert forall|k: int| 0 <= k < 8 implies r.secondary_oam[k].is_some() by {
            lemma_none_free(r.secondary_oam, 0, k);
        }
    }
}

/// A table of empty slots has as many empty slots as it has slots.
pub proof fn lemma_all_free(slots: Seq<SpriteSlot>, from: int)
    requires
        0 <= from <= slots.len(),
        forall|k: int| from <= k < slots.len() ==> slots[k].is_none(),
    ensures
        free_slots(slots, from) == slots.len() - from,
    decreases slots.len() - from,
{
    if from < slots.len() {
        lemma_all_free(slots, from + 1);
    }
}

/// In a table without an empty slot every slot is taken.
pub proof fn lemma_none_free(slots: Seq<SpriteSlot>, from: int, k: int)
    requires
        0 <= from <= k < slots.len(),
        free_slots(slots, from) == 0,
    ensures
        slots[k].is_some(),
    decreases k - from,
{
    if from < k {
        lemma_none_free(slots, from + 1, k);
    }
}

/// The primary index of the sprite on the scanline that has `k` sprites on
/// the scanline between `from` and itself, counted in table order; 64 when
/// there are not that many.
pub open spec fn nth_covering(s: PpuState, from: int, k: nat) -> int
    decreases 64 - from,
{
    if from < 0 || from >= 64 {
        64
    } else if s.primary_oam[from].spec_covers(s.regs.scanline, s.regs.sprite_height()) {
        if k == 0 {
            from
        } else {
            nth_covering(s, from + 1, (k - 1) as nat)
        }
    } else {
        nth_covering(s, from + 1, k)
    }
}

/// A secondary table of eight slots of which the first `taken` are taken
/// and the others empty.
pub open spec fn filled_to(slots: Seq<SpriteSlot>, taken: int) -> bool {
    &&& slots.len() == 8
    &&& 0 <= taken <= 8
    &&& forall|t: int| 0 <= t < taken ==> (#[trigger] slots[t]).is_some()
    &&& forall|t: int| taken <= t < 8 ==> (#[trigger] slots[t]).is_none()
}

/// The slot that evaluation leaves at place `t` of a table that was filled
/// to `taken` when evaluation came to entry `from`: the slots that were
/// taken stay, and the sprites on the scanline follow in table order, as far
/// as there are slots.
pub open spec fn slot_after(s: PpuState, from: int, taken: int, t: int) -> SpriteSlot {
    if t < taken {
        s.secondary_oam[t]
    } else if t - taken < covering(s, from) {
        Some(
            (
                s.primary_oam[nth_covering(s, from, (t - taken) as nat)],
                nth_covering(s, from, (t - taken) as nat) as usize,
            ),
        )
    } else {
        None
    }
}

/// Which sprite is the next on the scanline does not depend on the
/// secondary table or on the overflow flag.
pub proof fn lemma_nth_depends_on_inputs(s: PpuState, t: PpuState, from: int, k: nat)
    requires
        0 <= from <= 64,
        s.primary_oam == t.primary_oam,
        s.regs.scanline == t.regs.scanline,
        s.regs.sprite_size == t.regs.sprite_size,
    ensures
        nth_covering(s, from, k) == nth_covering(t, from, k),
    decreases 64 - from,
{
    if from < 64 {
        lemma_nth_depends_on_inputs(s, t, from + 1, k);
        if k > 0 {
            lemma_nth_depends_on_inputs(s, t, from + 1, (k - 1) as nat);
        }
    }
}

/// The first empty slot of a table that is filled to `taken` is slot
/// `taken`, and there is none when all eight are taken.
pub proof fn lemma_first_free_of_filled(slots: Seq<SpriteSlot>, taken: int, from: int)
    requires
        filled_to(slots, taken),
        0 <= from <= taken,
    ensures
        first_free(slots, from) == (if taken < 8 {
            Some(taken)
        } else {
            None::<int>
        }),
    decreases 8 - from,
{
    if from < taken {
        assert(slots[from].is_some());
        lemma_first_free_of_filled(slots, taken, from + 1);
    } else if taken < 8 {
        assert(slots[taken].is_none());
    }
}

/// The k-th sprite on the scanline is a primary entry that covers the
/// scanline, and the sprites come in rising order of their indices.
pub proof fn lemma_nth_covers(s: PpuState, from: int, k: nat)
    requires
        0 <= from <= 64,
        k < covering(s, from),
    ensures
        from <= nth_covering(s, from, k) < 64,
        s.primary_oam[nth_covering(s, from, k)].spec_covers(
            s.regs.scanline,
            s.regs.sprite_height(),
        ),
        k + 1 < covering(s, from) ==> nth_covering(s, from, k) < nth_covering(s, from, k + 1),
    decreases 64 - from,
{
    if from < 64 {
        if s.primary_oam[from].spec_covers(s.regs.scanline, s.regs.sprite_height()) {
            if k > 0 {
                lemma_nth_covers(s, from + 1, (k - 1) as nat);
            } else if k + 1 < covering(s, from) {
                lemma_nth_covers(s, from + 1, 0);
            }
        } else {
            lemma_nth_covers(s, from + 1, k);
        }
    }
}

/// Sprite evaluation copies the sprites on the scanline into the empty
/// slots in the order of the primary table: evaluation from entry `from` on
/// a table filled to `taken` leaves `slot_after` in every slot.
pub proof fn lemma_evaluation_order(s: PpuState, from: int, taken: int)
    requires
        0 <= from <= 64,
        filled_to(s.secondary_oam, taken),
    ensures
        evaluate_from(s, from).secondary_oam.len() == 8,
        evaluate_from(s, from).primary_oam == s.primary_oam,
        forall|t: int|
            0 <= t < 8 ==> #[trigger] evaluate_from(s, from).secondary_oam[t] == slot_after(
                s,
                from,
                taken,
                t,
            ),
    decreases 64 - from,
{
    if from < 64 {
        let next = evaluate_entry(s, from);
        lemma_first_free_of_filled(s.secondary_oam, taken, 0);
        if s.primary_oam[from].spec_covers(s.regs.scanline, s.regs.sprite_height()) {
            if taken < 8 {
                let entry: SpriteSlot = Some((s.primary_oam[from], from as usize));
                assert(next.secondary_oam == s.secondary_oam.update(taken, entry));
                assert(filled_to(next.secondary_oam, taken + 1));
                lemma_evaluation_order(next, from + 1, taken + 1);
                lemma_covering_depends_on_inputs(s, next, from + 1);
                assert forall|t: int| 0 <= t < 8 implies #[trigger] evaluate_from(
                    s,
                    from,
                ).secondary_oam[t] == slot_after(s, from, taken, t) by {
                    assert(evaluate_from(s, from).secondary_oam[t] == slot_after(
                        next,
                        from + 1,
                        taken + 1,
                        t,
                    ));
                    if t > taken {
                        lemma_nth_depends_on_inputs(s, next, from + 1, (t - taken - 1) as nat);
                    }
                }
            } else {
                assert(next == (PpuState {
                    regs: PpuRegisters { sprite_overflow: true, ..s.regs },
                    ..s
                }));
                lemma_evaluation_order(next, from + 1, taken);
            }
        } else {
            lemma_evaluation_order(s, from + 1, taken);
        }
    }
}

/// Evaluation into a cleared secondary table: slot k holds the sprite on
/// the scanline with the (k+1)-th lowest primary index, together with that
/// index, as far as there are sprites, and is empty beyond them; a ninth
/// sprite and those behind it are in no slot; the primary table stays as it
/// is.
pub proof fn lemma_slots_hold_first_eight(s: PpuState, k: int)
    requires
        s.secondary_oam.len() == 8,
        forall|t: int| 0 <= t < 8 ==> s.secondary_oam[t].is_none(),
        0 <= k < 8,
    ensures
        evaluate_from(s, 0).primary_oam == s.primary_oam,
        evaluate_from(s, 0).secondary_oam.len() == 8,
        k < covering(s, 0) ==> evaluate_from(s, 0).secondary_oam[k] == Some(
            (s.primary_oam[nth_covering(s, 0, k as nat)], nth_covering(s, 0, k as nat) as usize),
        ) && 0 <= nth_covering(s, 0, k as nat) < 64 && s.primary_oam[nth_covering(
            s,
            0,
            k as nat,
        )].spec_covers(s.regs.scanline, s.regs.sprite_height()),
        k >= covering(s, 0) ==> evaluate_from(s, 0).secondary_oam[k].is_none(),
        forall|t: int, m: nat|
            0 <= t < 8 && 8 <= m < covering(s, 0) ==> #[trigger] evaluate_from(
                s,
                0,
            ).secondary_oam[t] != Some(
                (
                    s.primary_oam[#[trigger] nth_covering(s, 0, m)],
                    nth_covering(s, 0, m) as usize,
                ),
            ),
{
    assert(filled_to(s.secondary_oam, 0));
    lemma_evaluation_order(s, 0, 0);
    if k < covering(s, 0) {
        lemma_nth_covers(s, 0, k as nat);
    }
    assert forall|t: int, m: nat| 0 <= t < 8 && 8 <= m < covering(s, 0) implies #[trigger] evaluate_from(
        s,
        0,
    ).secondary_oam[t] != Some(
        (s.primary_oam[#[trigger] nth_covering(s, 0, m)], nth_covering(s, 0, m) as usize),
    ) by {
        lemma_nth_rises(s, t as nat, m);
        lemma_nth_covers(s, 0, m);
        lemma_nth_covers(s, 0, t as nat);
    }
}

/// A later sprite on the scanline has a higher primary index.
pub proof fn lemma_nth_rises(s: PpuState, k: nat, m: nat)
    requires
        k < m < covering(s, 0),
    ensures
        nth_covering(s, 0, k) < nth_covering(s, 0, m),
    decreases m - k,
{
    lemma_nth_covers(s, 0, k);
    if k + 1 < m {
        lemma_nth_rises(s, k + 1, m);
    }
}

} // verus!
