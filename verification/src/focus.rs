//! Moving the focus through the fields of a config editor page: each page's
//! fields form a ring, down goes to the next field and up to the previous one.
use vstd::prelude::*;

use crate::config_ids::{
    color_focus_ring, color_focus_ring_vec, general_focus_ring, general_focus_ring_vec,
    key_global_focus_ring, key_global_focus_ring_vec, key_other_focus_ring,
    key_other_focus_ring_vec,
};
use crate::ids::IdConfigEditor;

verus! {

/// The first position of `id` in `ring`.
pub open spec fn position_in(ring: Seq<IdConfigEditor>, id: IdConfigEditor) -> Option<nat>
    decreases ring.len(),
{
    if ring.len() == 0 {
        None
    } else if ring[0] == id {
        Some(0)
    } else {
        match position_in(ring.drop_first(), id) {
            Some(k) => Some(k + 1),
            None => None,
        }
    }
}

/// No field occurs twice in `ring`.
pub open spec fn all_distinct(ring: Seq<IdConfigEditor>) -> bool
    decreases ring.len(),
{
    ring.len() == 0 || (position_in(ring.drop_first(), ring[0]) is None && all_distinct(
        ring.drop_first(),
    ))
}

/// The position next to `i` in a ring of `len` fields: below it, or above it,
/// wrapping around at the ends.
pub open spec fn ring_neighbour(len: int, i: int, down: bool) -> int {
    if down {
        (i + 1) % len
    } else {
        (i + len - 1) % len
    }
}

/// The field that gets the focus when it leaves `id` downwards or upwards, if
/// `id` is in the ring.
pub open spec fn focus_target(ring: Seq<IdConfigEditor>, id: IdConfigEditor, down: bool) -> Option<IdConfigEditor> {
    match position_in(ring, id) {
        Some(i) => Some(ring[ring_neighbour(ring.len() as int, i as int, down)]),
        None => None,
    }
}

/// A position found is in bounds and holds the field; the field is nowhere before it.
pub proof fn lemma_position_in(ring: Seq<IdConfigEditor>, id: IdConfigEditor)
    ensures
        match position_in(ring, id) {
            Some(i) => i < ring.len() && ring[i as int] == id && forall|k: int|
                0 <= k < i ==> ring[k] != id,
            None => forall|k: int| 0 <= k < ring.len() ==> ring[k] != id,
        },
    decreases ring.len(),
{
    if ring.len() > 0 {
        lemma_position_in(ring.drop_first(), id);
        assert forall|k: int| 0 < k < ring.len() implies ring[k] == ring.drop_first()[k - 1] by {}
    }
}

/// In a ring without repeats, the position of the field at `j` is `j`.
pub proof fn lemma_position_of_member(ring: Seq<IdConfigEditor>, j: int)
    requires
        all_distinct(ring),
        0 <= j < ring.len(),
    ensures
        position_in(ring, ring[j]) == Some(j as nat),
    decreases ring.len(),
{
    if j > 0 {
        lemma_position_in(ring.drop_first(), ring[0]);
        assert(ring.drop_first()[j - 1] == ring[j]);
        lemma_position_of_member(ring.drop_first(), j - 1);
    }
}

/// Moving the focus away from a field and back the other way returns to it,
/// in every ring without repeated fields.
pub proof fn lemma_focus_round_trip(ring: Seq<IdConfigEditor>, id: IdConfigEditor, down: bool)
    requires
        all_distinct(ring),
        position_in(ring, id) is Some,
    ensures
        focus_target(ring, id, down) matches Some(t) && focus_target(ring, t, !down) == Some(id),
{
    lemma_position_in(ring, id);
    let i = position_in(ring, id)->0 as int;
    let n = ring.len() as int;
    let j = ring_neighbour(n, i, down);
    assert(0 <= j < n) by (nonlinear_arith)
        requires
            0 <= i < n,
            j == if down {
                (i + 1) % n
            } else {
                (i + n - 1) % n
            },
    ;
    lemma_position_of_member(ring, j);
    assert(ring_neighbour(n, j, !down) == i) by (nonlinear_arith)
        requires
            0 <= i < n,
            j == if down {
                (i + 1) % n
            } else {
                (i + n - 1) % n
            },
    ;
}

#[verifier::spinoff_prover]
#[verifier::rlimit(60)]
proof fn lemma_general_ring_distinct()
    ensures
        all_distinct(general_focus_ring()),
{
    reveal_with_fuel(all_distinct, 17);
    reveal_with_fuel(position_in, 17);
}

#[verifier::spinoff_prover]
#[verifier::rlimit(60)]
proof fn lemma_color_ring_distinct()
    ensures
        all_distinct(color_focus_ring()),
{
    reveal_with_fuel(all_distinct, 26);
    reveal_with_fuel(position_in, 26);
}

#[verifier::spinoff_prover]
#[verifier::rlimit(60)]
proof fn lemma_key_global_ring_distinct()
    ensures
        all_distinct(key_global_focus_ring()),
{
    reveal_with_fuel(all_distinct, 34);
    reveal_with_fuel(position_in, 34);
}

#[verifier::spinoff_prover]
#[verifier::rlimit(60)]
proof fn lemma_key_other_ring_distinct()
    ensures
        all_distinct(key_other_focus_ring()),
{
    reveal_with_fuel(all_distinct, 32);
    reveal_with_fuel(position_in, 32);
}

/// No field repeats in any of the config editor's focus rings.
pub proof fn lemma_focus_rings_distinct()
    ensures
        all_distinct(general_focus_ring()),
        all_distinct(color_focus_ring()),
        all_distinct(key_global_focus_ring()),
        all_distinct(key_other_focus_ring()),
{
    lemma_general_ring_distinct();
    lemma_color_ring_distinct();
    lemma_key_global_ring_distinct();
    lemma_key_other_ring_distinct();
}

/// The field that gets the focus when it leaves `id` downwards or upwards.
pub fn focus_step(ring: &Vec<IdConfigEditor>, id: IdConfigEditor, down: bool) -> (r: Option<IdConfigEditor>)
    ensures
        r == focus_target(ring@, id, down),
{
    let n = ring.len();
    let mut i: usize = 0;
    while i < n
        invariant
            n == ring@.len(),
            i <= n,
            forall|k: int| 0 <= k < i ==> ring@[k] != id,
        decreases n - i,
    {
        if ring[i] == id {
            proof {
                lemma_position_in(ring@, id);
            }
            let j = if down {
                if i + 1 == n {
                    0
                } else {
                    i + 1
                }
            } else {
                if i == 0 {
                    n - 1
                } else {
                    i - 1
                }
            };
            proof {
                let p = position_in(ring@, id)->0 as int;
                assert(p == i as int);
                let (ii, jj, nn) = (i as int, j as int, n as int);
                assert(jj == ring_neighbour(nn, ii, down)) by (nonlinear_arith)
                    requires
                        0 <= ii < nn,
                        down ==> jj == if ii + 1 == nn {
                            0
                        } else {
                            ii + 1
                        },
                        !down ==> jj == if ii == 0 {
                            nn - 1
                        } else {
                            ii - 1
                        },
                ;
            }
            return Some(ring[j]);
        }
        i = i + 1;
    }
    proof {
        lemma_position_in(ring@, id);
    }
    None
}

/// The field that gets the focus when it leaves `id` downwards or upwards,
/// on whichever page `id` is.
pub open spec fn page_focus_target(id: IdConfigEditor, down: bool) -> Option<IdConfigEditor> {
    match id {
        IdConfigEditor::General(_) => focus_target(general_focus_ring(), id, down),
        IdConfigEditor::Theme(_) => focus_target(color_focus_ring(), id, down),
        IdConfigEditor::KeyGlobal(_) => focus_target(key_global_focus_ring(), id, down),
        IdConfigEditor::KeyOther(_) => focus_target(key_other_focus_ring(), id, down),
        _ => None,
    }
}

/// The field that gets the focus when it leaves `id` downwards or upwards, on
/// whichever page `id` is; `None` for a field outside the focus rings.
pub fn config_editor_focus_target(id: IdConfigEditor, down: bool) -> (r: Option<IdConfigEditor>)
    ensures
        r == page_focus_target(id, down),
{
    match id {
        IdConfigEditor::General(_) => focus_step(&general_focus_ring_vec(), id, down),
        IdConfigEditor::Theme(_) => focus_step(&color_focus_ring_vec(), id, down),
        IdConfigEditor::KeyGlobal(_) => focus_step(&key_global_focus_ring_vec(), id, down),
        IdConfigEditor::KeyOther(_) => focus_step(&key_other_focus_ring_vec(), id, down),
        _ => None,
    }
}

/// On every page of the config editor, moving the focus from a field down and
/// then up, or up and then down, comes back to that field.
pub proof fn lemma_page_focus_round_trip(id: IdConfigEditor, down: bool)
    requires
        page_focus_target(id, down) is Some,
    ensures
        page_focus_target(id, down) matches Some(t) && page_focus_target(t, !down) == Some(id),
{
    lemma_focus_rings_distinct();
    let ring = match id {
        IdConfigEditor::General(_) => general_focus_ring(),
        IdConfigEditor::Theme(_) => color_focus_ring(),
        IdConfigEditor::KeyGlobal(_) => key_global_focus_ring(),
        _ => key_other_focus_ring(),
    };
    lemma_focus_round_trip(ring, id, down);
    lemma_position_in(ring, id);
    let t = focus_target(ring, id, down)->0;
    lemma_position_in(ring, t);
    assert(ring.contains(t));
    assert(forall|k: int| 0 <= k < general_focus_ring().len() ==> general_focus_ring()[k] is General);
    assert(forall|k: int| 0 <= k < color_focus_ring().len() ==> color_focus_ring()[k] is Theme);
    assert(forall|k: int|
        0 <= k < key_global_focus_ring().len() ==> key_global_focus_ring()[k] is KeyGlobal);
    assert(forall|k: int|
        0 <= k < key_other_focus_ring().len() ==> key_other_focus_ring()[k] is KeyOther);
}

} // verus!
