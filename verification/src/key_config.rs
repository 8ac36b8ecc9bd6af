//! The key bindings the config editor edits: one binding per key field, read
//! back by the key fields when they are shown.
use vstd::prelude::*;

use crate::ids::IdKey;
use crate::select_states::{modifier_list_index, KeyModifierSet, MyModifiers};

verus! {

/// A key binding: the modifiers held and the name of the key.
#[derive(Debug)]
pub struct KeyBinding {
    pub modifiers: KeyModifierSet,
    pub code: String,
}

/// A key binding as a value: its modifiers and the text of its key's name.
pub struct KeyBindingView {
    pub modifiers: KeyModifierSet,
    pub code: Seq<char>,
}

impl View for KeyBinding {
    type V = KeyBindingView;

    open spec fn view(&self) -> KeyBindingView {
        KeyBindingView { modifiers: self.modifiers, code: self.code@ }
    }
}

/// Whether two bindings are the same: same modifiers and same key.
pub fn same_binding(b: &KeyBinding, pressed: &KeyBinding) -> (r: bool)
    ensures
        r == (b@ == pressed@),
{
    b.modifiers == pressed.modifiers && b.code == pressed.code
}

/// The binding of the first entry for `id`.
pub open spec fn lookup(entries: Seq<(IdKey, KeyBinding)>, id: IdKey) -> Option<KeyBindingView>
    decreases entries.len(),
{
    if entries.len() == 0 {
        None
    } else if entries[0].0 == id {
        Some(entries[0].1@)
    } else {
        lookup(entries.drop_first(), id)
    }
}

/// The position of the first entry for `id`.
pub open spec fn entry_position(entries: Seq<(IdKey, KeyBinding)>, id: IdKey) -> Option<nat>
    decreases entries.len(),
{
    if entries.len() == 0 {
        None
    } else if entries[0].0 == id {
        Some(0)
    } else {
        match entry_position(entries.drop_first(), id) {
            Some(k) => Some(k + 1),
            None => None,
        }
    }
}

/// The key bindings, by key field.
#[derive(Debug)]
pub struct KeyConfig {
    entries: Vec<(IdKey, KeyBinding)>,
}

/// The first entry for `id` is found where `entry_position` says, with the
/// binding `lookup` gives; and there is none exactly when both say so.
proof fn lemma_position_lookup(entries: Seq<(IdKey, KeyBinding)>, id: IdKey)
    ensures
        match entry_position(entries, id) {
            Some(i) => i < entries.len() && entries[i as int].0 == id && lookup(entries, id) == Some(
                entries[i as int].1@,
            ) && forall|k: int| 0 <= k < i ==> entries[k].0 != id,
            None => lookup(entries, id) is None && forall|k: int|
                0 <= k < entries.len() ==> entries[k].0 != id,
        },
    decreases entries.len(),
{
    if entries.len() > 0 {
        lemma_position_lookup(entries.drop_first(), id);
        assert forall|k: int| 0 < k < entries.len() implies entries[k] == entries.drop_first()[k
            - 1] by {}
    }
}

/// Replacing the first entry for `id` changes what is found for `id` only.
proof fn lemma_lookup_after_replace(entries: Seq<(IdKey, KeyBinding)>, i: int, id: IdKey, b: KeyBinding, k: IdKey)
    requires
        0 <= i,
        entry_position(entries, id) == Some(i as nat),
    ensures
        lookup(entries.update(i, (id, b)), k) == if k == id {
            Some(b@)
        } else {
            lookup(entries, k)
        },
    decreases entries.len(),
{
    lemma_position_lookup(entries, id);
    let u = entries.update(i, (id, b));
    if i == 0 {
        assert(u.drop_first() =~= entries.drop_first());
    } else {
        assert(entries[0].0 != id);
        assert(u[0] == entries[0]);
        assert(u.drop_first() =~= entries.drop_first().update(i - 1, (id, b)));
        assert(entry_position(entries.drop_first(), id) == Some((i - 1) as nat));
        lemma_lookup_after_replace(entries.drop_first(), i - 1, id, b, k);
    }
}

/// Adding an entry for an `id` that has none changes what is found for `id` only.
proof fn lemma_lookup_after_push(entries: Seq<(IdKey, KeyBinding)>, id: IdKey, b: KeyBinding, k: IdKey)
    requires
        lookup(entries, id) is None,
    ensures
        lookup(entries.push((id, b)), k) == if k == id {
            Some(b@)
        } else {
            lookup(entries, k)
        },
    decreases entries.len(),
{
    let p = entries.push((id, b));
    if entries.len() == 0 {
        assert(p[0] == (id, b));
        assert(p.drop_first() =~= Seq::<(IdKey, KeyBinding)>::empty());
        assert(lookup(p.drop_first(), k) is None);
        assert(lookup(entries, k) is None);
    } else {
        assert(p.drop_first() =~= entries.drop_first().push((id, b)));
        assert(p[0] == entries[0]);
        lemma_lookup_after_push(entries.drop_first(), id, b, k);
    }
}

/// Two entry lists name the same fields with bindings of the same value, in order.
spec fn entries_alike(a: Seq<(IdKey, KeyBinding)>, b: Seq<(IdKey, KeyBinding)>) -> bool {
    &&& a.len() == b.len()
    &&& forall|i: int| 0 <= i < a.len() ==> #[trigger] a[i].0 == b[i].0 && a[i].1@ == b[i].1@
}

/// Entry lists alike give the same binding for every field.
proof fn lemma_lookup_alike(a: Seq<(IdKey, KeyBinding)>, b: Seq<(IdKey, KeyBinding)>, id: IdKey)
    requires
        entries_alike(a, b),
    ensures
        lookup(a, id) == lookup(b, id),
    decreases a.len(),
{
    if a.len() > 0 {
        assert(a[0].0 == b[0].0 && a[0].1@ == b[0].1@);
        assert(entries_alike(a.drop_first(), b.drop_first())) by {
            assert forall|i: int| 0 <= i < a.len() - 1 implies #[trigger] a.drop_first()[i].0
                == b.drop_first()[i].0 && a.drop_first()[i].1@ == b.drop_first()[i].1@ by {
                assert(a[i + 1].0 == b[i + 1].0 && a[i + 1].1@ == b[i + 1].1@);
            }
        }
        lemma_lookup_alike(a.drop_first(), b.drop_first(), id);
    }
}

impl KeyConfig {
    /// The binding of each key field that has one.
    pub closed spec fn bindings(&self) -> Map<IdKey, KeyBindingView> {
        Map::new(
            |id: IdKey| lookup(self.entries@, id) is Some,
            |id: IdKey| lookup(self.entries@, id)->0,
        )
    }

    /// A configuration with no bindings.
    pub fn new() -> (r: Self)
        ensures
            r.bindings() == Map::<IdKey, KeyBindingView>::empty(),
    {
        let r = KeyConfig { entries: Vec::new() };
        proof {
            assert(r.bindings() =~= Map::<IdKey, KeyBindingView>::empty());
        }
        r
    }

    /// A copy of these bindings.
    pub fn duplicate(&self) -> (r: Self)
        ensures
            r.bindings() == self.bindings(),
    {
        let mut entries: Vec<(IdKey, KeyBinding)> = Vec::new();
        let mut i: usize = 0;
        while i < self.entries.len()
            invariant
                i <= self.entries@.len(),
                entries_alike(entries@, self.entries@.take(i as int)),
            decreases self.entries@.len() - i,
        {
            let e = &self.entries[i];
            entries.push((e.0, KeyBinding { modifiers: e.1.modifiers, code: e.1.code.clone() }));
            proof {
                let t = self.entries@.take(i + 1);
                assert forall|j: int| 0 <= j < entries@.len() implies #[trigger] entries@[j].0 == t[j].0
                    && entries@[j].1@ == t[j].1@ by {
                    if j < i {
                        assert(t[j] == self.entries@.take(i as int)[j]);
                    }
                }
            }
            i = i + 1;
        }
        let r = KeyConfig { entries };
        proof {
            assert(self.entries@.take(self.entries@.len() as int) =~= self.entries@);
            assert forall|id: IdKey| #[trigger] lookup(r.entries@, id) == lookup(self.entries@, id) by {
                lemma_lookup_alike(r.entries@, self.entries@, id);
            }
            assert(r.bindings() =~= self.bindings());
        }
        r
    }

    /// The binding of `id`, if it has one.
    pub fn get(&self, id: IdKey) -> (r: Option<&KeyBinding>)
        ensures
            match r {
                Some(b) => self.bindings().contains_key(id) && self.bindings()[id] == b@,
                None => !self.bindings().contains_key(id),
            },
    {
        let mut i: usize = 0;
        proof {
            lemma_position_lookup(self.entries@, id);
        }
        while i < self.entries.len()
            invariant
                i <= self.entries@.len(),
                forall|k: int| 0 <= k < i ==> self.entries@[k].0 != id,
            decreases self.entries@.len() - i,
        {
            if self.entries[i].0 == id {
                proof {
                    lemma_position_lookup(self.entries@, id);
                    let p = entry_position(self.entries@, id);
                    if let Some(j) = p {
                        if j < i {
                            assert(self.entries@[j as int].0 != id);
                        } else if j > i {
                            assert(self.entries@[i as int].0 == id);
                        }
                    }
                    assert(lookup(self.entries@, id) == Some(self.entries@[i as int].1@));
                    assert(self.bindings().dom().contains(id));
                    assert(self.bindings()[id] == self.entries@[i as int].1@);
                }
                return Some(&self.entries[i].1);
            }
            i = i + 1;
        }
        proof {
            assert(!self.bindings().dom().contains(id));
        }
        None
    }

    /// Bind `id` to `binding`, replacing its binding if it has one.
    pub fn set(&mut self, id: IdKey, binding: KeyBinding)
        ensures
            final(self).bindings() == old(self).bindings().insert(id, binding@),
    {
        let ghost before = self.entries@;
        let mut i: usize = 0;
        proof {
            lemma_position_lookup(before, id);
        }
        while i < self.entries.len()
            invariant
                i <= self.entries@.len(),
                self.entries@ == before,
                before == old(self).entries@,
                forall|k: int| 0 <= k < i ==> before[k].0 != id,
            decreases self.entries@.len() - i,
        {
            if self.entries[i].0 == id {
                let ghost b = binding;
                proof {
                    assert(entry_position(before, id) == Some(i as nat)) by {
                        lemma_position_lookup(before, id);
                    }
                }
                self.entries.set(i, (id, binding));
                proof {
                    assert forall|k: IdKey| #[trigger] lookup(self.entries@, k) == if k == id {
                        Some(b@)
                    } else {
                        lookup(before, k)
                    } by {
                        lemma_lookup_after_replace(before, i as int, id, b, k);
                    }
                    assert forall|k: IdKey| #[trigger] self.bindings().contains_key(k) == old(self).bindings().insert(id, b@).contains_key(k) by {
                        lemma_lookup_after_replace(before, i as int, id, b, k);
                    }
                    assert(self.bindings().dom() =~= old(self).bindings().insert(id, b@).dom());
                    assert forall|k: IdKey| #[trigger] self.bindings().contains_key(k) implies self.bindings()[k]
                        == old(self).bindings().insert(id, b@)[k] by {
                        lemma_lookup_after_replace(before, i as int, id, b, k);
                    }
                    assert(self.bindings() =~= old(self).bindings().insert(id, b@));
                }
                return ;
            }
            i = i + 1;
        }
        let ghost b = binding;
        self.entries.push((id, binding));
        proof {
            assert forall|k: IdKey| #[trigger] lookup(self.entries@, k) == if k == id {
                Some(b@)
            } else {
                lookup(before, k)
            } by {
                lemma_lookup_after_push(before, id, b, k);
            }
            assert(self.bindings().dom() =~= old(self).bindings().insert(id, b@).dom());
            assert forall|k: IdKey| #[trigger] self.bindings().contains_key(k) implies self.bindings()[k]
                == old(self).bindings().insert(id, b@)[k] by {
                lemma_lookup_after_push(before, id, b, k);
            }
            assert(self.bindings() =~= old(self).bindings().insert(id, b@));
        }
    }

    /// Whether `pressed` is the binding of `id`.
    pub fn is_bound(&self, id: IdKey, pressed: &KeyBinding) -> (r: bool)
        ensures
            r == bound_to(*self, id, pressed@),
    {
        match self.get(id) {
            Some(b) => same_binding(b, pressed),
            None => false,
        }
    }

    /// What the key field `id` shows when it is opened: the position of its
    /// binding's modifiers in the modifier list, and its key's name; `None`
    /// for a field without a binding.
    pub fn init_modifier_select(&self, id: IdKey) -> (r: Option<(usize, String)>)
        ensures
            match r {
                Some((m, code)) => self.bindings().contains_key(id) && m == modifier_list_index(
                    self.bindings()[id].modifiers,
                ) && code@ == self.bindings()[id].code,
                None => !self.bindings().contains_key(id),
            },
    {
        match self.get(id) {
            Some(b) => Some((MyModifiers::from_modifier_list_index(b.modifiers), b.code.clone())),
            None => None,
        }
    }
}

/// Whether `pressed` is the binding of the key field `id` in `keys`.
pub open spec fn bound_to(keys: KeyConfig, id: IdKey, pressed: KeyBindingView) -> bool {
    keys.bindings().contains_key(id) && keys.bindings()[id] == pressed
}

/// Binding a key field and then opening it shows the new binding, and leaves
/// what every other field shows as it was.
pub proof fn lemma_read_after_set(before: Map<IdKey, KeyBindingView>, id: IdKey, b: KeyBindingView, other: IdKey)
    requires
        other != id,
    ensures
        before.insert(id, b).contains_key(id) && before.insert(id, b)[id] == b,
        before.insert(id, b).contains_key(other) == before.contains_key(other),
        before.contains_key(other) ==> before.insert(id, b)[other] == before[other],
{
}

} // verus!
