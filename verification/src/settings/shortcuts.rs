//! User-defined keyboard shortcuts: a small map from action names to
//! shortcut strings that remembers the order in which actions were added.

use crate::utils::text::same_text;
use vstd::prelude::*;
use vstd::std_specs::cmp::PartialEqSpecImpl;

verus! {

/// One user-defined binding: the action's name and the keys that trigger it.
#[derive(Debug, PartialEq, Eq)]
pub struct CustomShortcut {
    pub action: String,
    pub shortcut: String,
}

impl View for CustomShortcut {
    type V = (Seq<char>, Seq<char>);

    open spec fn view(&self) -> (Seq<char>, Seq<char>) {
        (self.action@, self.shortcut@)
    }
}

impl Clone for CustomShortcut {
    fn clone(&self) -> (c: Self)
        ensures
            c@ == self@,
    {
        CustomShortcut { action: self.action.clone(), shortcut: self.shortcut.clone() }
    }
}

/// No action is named twice in `entries`.
pub open spec fn distinct_actions(entries: Seq<(Seq<char>, Seq<char>)>) -> bool {
    forall|i: int, j: int|
        0 <= i < entries.len() && 0 <= j < entries.len() && i != j ==> (#[trigger] entries[i]).0
            != (#[trigger] entries[j]).0
}

/// The place of `action` in `entries`, or the length of `entries` if it is
/// not bound there.
pub open spec fn position_of(entries: Seq<(Seq<char>, Seq<char>)>, action: Seq<char>) -> int
    decreases entries.len(),
{
    if entries.len() == 0 {
        0
    } else if entries[0].0 == action {
        0
    } else {
        1 + position_of(entries.drop_first(), action)
    }
}

/// The shortcut that `entries` binds to `action`, if any.
pub open spec fn lookup(entries: Seq<(Seq<char>, Seq<char>)>, action: Seq<char>) -> Option<
    Seq<char>,
> {
    let at = position_of(entries, action);
    if at < entries.len() {
        Some(entries[at].1)
    } else {
        None
    }
}

/// `entries` after binding `action` to `shortcut`: an action already bound
/// keeps its place and takes the new shortcut, a new action goes to the end.
pub open spec fn bind(
    entries: Seq<(Seq<char>, Seq<char>)>,
    action: Seq<char>,
    shortcut: Seq<char>,
) -> Seq<(Seq<char>, Seq<char>)> {
    let at = position_of(entries, action);
    if at < entries.len() {
        entries.update(at, (action, shortcut))
    } else {
        entries.push((action, shortcut))
    }
}

/// What `position_of` finds: the first place that names `action`, and
/// nothing before it does.
pub proof fn lemma_position_of(entries: Seq<(Seq<char>, Seq<char>)>, action: Seq<char>)
    ensures
        0 <= position_of(entries, action) <= entries.len(),
        position_of(entries, action) < entries.len() ==> entries[position_of(
            entries,
            action,
        )].0 == action,
        forall|i: int| 0 <= i < position_of(entries, action) ==> (#[trigger] entries[i]).0 != action,
    decreases entries.len(),
{
    if entries.len() > 0 && entries[0].0 != action {
        let rest = entries.drop_first();
        lemma_position_of(rest, action);
        assert forall|i: int| 0 <= i < position_of(entries, action) implies (#[trigger] entries[i]).0
            != action by {
            if i > 0 {
                assert(entries[i] == rest[i - 1]);
            }
        }
    }
}

/// After `action` is bound to `shortcut`, that is the shortcut found for
/// `action`, and every other action has the shortcut it had.
pub proof fn lemma_bind_is_a_map_update(
    entries: Seq<(Seq<char>, Seq<char>)>,
    action: Seq<char>,
    shortcut: Seq<char>,
    other: Seq<char>,
)
    ensures
        lookup(bind(entries, action, shortcut), action) == Some(shortcut),
        other != action ==> lookup(bind(entries, action, shortcut), other) == lookup(
            entries,
            other,
        ),
        distinct_actions(entries) ==> distinct_actions(bind(entries, action, shortcut)),
{
    let bound = bind(entries, action, shortcut);
    lemma_position_of(entries, action);
    lemma_position_of(bound, action);
    lemma_position_of(entries, other);
    lemma_position_of(bound, other);
    assert forall|i: int| 0 <= i < entries.len() implies (#[trigger] bound[i]).0 == entries[i].0 by {}
    let at = position_of(entries, action);
    let found = position_of(bound, action);
    assert(bound[at] == (action, shortcut));
    if found < at {
        assert(bound[found].0 == entries[found].0);
    }
    if other != action {
        let before = position_of(entries, other);
        let after = position_of(bound, other);
        if before < entries.len() {
            assert(bound[before] == entries[before]);
        }
        if after < entries.len() {
            assert(bound[after].0 == entries[after].0);
        }
    }
}

/// Whether every binding of `left` is a binding of `right`, and there are
/// as many of the one as of the other. Where no action is bound twice, this
/// says that the two bind the same actions to the same shortcuts, in
/// whatever order.
pub open spec fn same_bindings(
    left: Seq<(Seq<char>, Seq<char>)>,
    right: Seq<(Seq<char>, Seq<char>)>,
) -> bool {
    &&& left.len() == right.len()
    &&& forall|i: int|
        0 <= i < left.len() ==> lookup(right, (#[trigger] left[i]).0) == Some(left[i].1)
}

/// The actions that `entries` binds, in order.
pub open spec fn actions(entries: Seq<(Seq<char>, Seq<char>)>) -> Seq<Seq<char>> {
    Seq::new(entries.len(), |i: int| entries[i].0)
}

/// Two lists of bindings in which no action is bound twice, and of which
/// the one has the same bindings as the other, are the same map: every
/// action has the same shortcut in both, or none in both.
pub proof fn lemma_same_bindings_is_map_equality(
    left: Seq<(Seq<char>, Seq<char>)>,
    right: Seq<(Seq<char>, Seq<char>)>,
)
    requires
        distinct_actions(left),
        distinct_actions(right),
        same_bindings(left, right),
    ensures
        forall|action: Seq<char>| lookup(left, action) == lookup(right, action),
        same_bindings(right, left),
{
    let left_keys = actions(left);
    let right_keys = actions(right);
    assert(left_keys.no_duplicates()) by {
        assert forall|i: int, j: int|
            0 <= i < left_keys.len() && 0 <= j < left_keys.len() && i != j implies left_keys[i]
            != left_keys[j] by {
            assert(left[i].0 != left[j].0);
        }
    }
    assert(right_keys.no_duplicates()) by {
        assert forall|i: int, j: int|
            0 <= i < right_keys.len() && 0 <= j < right_keys.len() && i != j implies right_keys[i]
            != right_keys[j] by {
            assert(right[i].0 != right[j].0);
        }
    }
    left_keys.unique_seq_to_set();
    right_keys.unique_seq_to_set();
    vstd::seq_lib::seq_to_set_is_finite(left_keys);
    vstd::seq_lib::seq_to_set_is_finite(right_keys);
    assert(left_keys.to_set().subset_of(right_keys.to_set())) by {
        assert forall|action: Seq<char>| left_keys.to_set().contains(action) implies right_keys.to_set().contains(
            action,
        ) by {
            let i = choose|i: int| 0 <= i < left_keys.len() && left_keys[i] == action;
            assert(left[i].0 == action);
            lemma_position_of(right, action);
            let at = position_of(right, action);
            assert(lookup(right, left[i].0) == Some(left[i].1));
            assert(right_keys[at] == action);
        }
    }
    vstd::set_lib::lemma_subset_equality(left_keys.to_set(), right_keys.to_set());
    assert forall|action: Seq<char>| lookup(left, action) == lookup(right, action) by {
        lemma_position_of(left, action);
        lemma_position_of(right, action);
        let in_left = position_of(left, action);
        let in_right = position_of(right, action);
        if in_left < left.len() {
            assert(lookup(right, left[in_left].0) == Some(left[in_left].1));
        } else if in_right < right.len() {
            assert(right_keys[in_right] == action);
            assert(right_keys.to_set().contains(action));
            assert(left_keys.to_set().contains(action));
            let i = choose|i: int| 0 <= i < left_keys.len() && left_keys[i] == action;
            assert(left[i].0 == action);
        }
    }
    assert forall|i: int| 0 <= i < right.len() implies lookup(left, (#[trigger] right[i]).0)
        == Some(right[i].1) by {
        lemma_position_of(right, right[i].0);
        let at = position_of(right, right[i].0);
        if at != i {
            assert(right[at].0 != right[i].0);
        }
    }
}

/// The user-defined shortcuts of a settings value.
///
/// Every action is bound at most once. Actions keep the order in which they
/// were first bound, so that a walk over the bindings is repeatable. The
/// order plays no part in whether two values are equal: they are equal if
/// they bind the same actions to the same shortcuts.
#[derive(Debug, Eq)]
pub struct CustomShortcuts {
    entries: Vec<CustomShortcut>,
}

impl View for CustomShortcuts {
    type V = Seq<(Seq<char>, Seq<char>)>;

    /// The bindings in the order in which their actions were first bound.
    closed spec fn view(&self) -> Seq<(Seq<char>, Seq<char>)> {
        Seq::new(self.entries@.len(), |i: int| self.entries@[i]@)
    }
}

impl CustomShortcuts {
    #[verifier::type_invariant]
    spec fn no_action_twice(&self) -> bool {
        distinct_actions(self@)
    }

    /// A map with no bindings.
    pub fn new() -> (m: Self)
        ensures
            m@ == Seq::<(Seq<char>, Seq<char>)>::empty(),
    {
        let m = CustomShortcuts { entries: Vec::new() };
        assert(m@ =~= Seq::<(Seq<char>, Seq<char>)>::empty());
        m
    }

    /// The number of bindings. No action is bound twice among them.
    pub fn len(&self) -> (n: usize)
        ensures
            n == self@.len(),
            distinct_actions(self@),
    {
        proof {
            use_type_invariant(self);
        }
        self.entries.len()
    }

    /// Whether there is no binding at all.
    pub fn is_empty(&self) -> (b: bool)
        ensures
            b == (self@.len() == 0),
    {
        self.entries.len() == 0
    }

    /// The binding at place `index`, counted in the order of first binding.
    pub fn entry(&self, index: usize) -> (e: Option<&CustomShortcut>)
        ensures
            index < self@.len() ==> (e matches Some(c) && c@ == self@[index as int]),
            index >= self@.len() ==> e is None,
    {
        if index < self.entries.len() {
            Some(&self.entries[index])
        } else {
            None
        }
    }

    /// The place of `action` among the bindings, or `len()` if it is unbound.
    fn find(&self, action: &str) -> (at: usize)
        ensures
            at == position_of(self@, action@),
            at <= self@.len(),
    {
        let mut i: usize = 0;
        while i < self.entries.len()
            invariant
                i <= self.entries@.len(),
                self@.len() == self.entries@.len(),
                forall|k: int| 0 <= k < i ==> (#[trigger] self@[k]).0 != action@,
            decreases self.entries@.len() - i,
        {
            if same_text(self.entries[i].action.as_str(), action) {
                proof {
                    assert(self@[i as int].0 == action@);
                    lemma_position_of(self@, action@);
                    let p = position_of(self@, action@);
                    if p > i {
                        assert(self@[i as int].0 != action@);
                    }
                    if p < i {
                        assert(self@[p].0 == action@);
                    }
                }
                return i;
            }
            i += 1;
        }
        proof {
            lemma_position_of(self@, action@);
            let p = position_of(self@, action@);
            if p < self@.len() {
                assert(self@[p].0 == action@);
            }
        }
        i
    }

    /// The shortcut bound to `action`, if there is one.
    pub fn get(&self, action: &str) -> (found: Option<&String>)
        ensures
            found is Some <==> lookup(self@, action@) is Some,
            found matches Some(s) ==> Some(s@) == lookup(self@, action@),
    {
        let at = self.find(action);
        if at < self.entries.len() {
            Some(&self.entries[at].shortcut)
        } else {
            None
        }
    }

    /// Whether `action` is bound.
    pub fn contains_key(&self, action: &str) -> (b: bool)
        ensures
            b == lookup(self@, action@) is Some,
    {
        let at = self.find(action);
        at < self.entries.len()
    }

    /// Copies of the bindings before place `end`, in order.
    fn copy_range(&self, start: usize, end: usize, into: &mut Vec<CustomShortcut>)
        requires
            start <= end <= self@.len(),
        ensures
            final(into)@.len() == old(into)@.len() + (end - start),
            forall|k: int| 0 <= k < old(into)@.len() ==> final(into)@[k] == old(into)@[k],
            forall|k: int|
                old(into)@.len() <= k < final(into)@.len() ==> (#[trigger] final(into)@[k])@
                    == self@[start + (k - old(into)@.len())],
    {
        let mut i: usize = start;
        while i < end
            invariant
                start <= i <= end,
                end <= self.entries@.len(),
                self@.len() == self.entries@.len(),
                into@.len() == old(into)@.len() + (i - start),
                forall|k: int| 0 <= k < old(into)@.len() ==> into@[k] == old(into)@[k],
                forall|k: int|
                    old(into)@.len() <= k < into@.len() ==> (#[trigger] into@[k])@ == self@[start
                        + (k - old(into)@.len())],
            decreases end - i,
        {
            into.push(self.entries[i].clone());
            i += 1;
        }
    }

    /// Binds `action` to `shortcut` and returns the shortcut that it was
    /// bound to before, if any.
    pub fn insert(&mut self, action: String, shortcut: String) -> (previous: Option<String>)
        ensures
            final(self)@ == bind(old(self)@, action@, shortcut@),
            previous is Some <==> lookup(old(self)@, action@) is Some,
            previous matches Some(p) ==> Some(p@) == lookup(old(self)@, action@),
    {
        proof {
            use_type_invariant(&*self);
            lemma_position_of(self@, action@);
        }
        let at = self.find(action.as_str());
        let count = self.entries.len();
        let ghost before = self@;
        let mut entries: Vec<CustomShortcut> = Vec::new();
        self.copy_range(0, at, &mut entries);
        let previous = if at < count {
            Some(self.entries[at].shortcut.clone())
        } else {
            None
        };
        entries.push(CustomShortcut { action, shortcut });
        if at < count {
            self.copy_range(at + 1, count, &mut entries);
        }
        let ghost after = Seq::new(entries@.len(), |i: int| entries@[i]@);
        proof {
            assert forall|i: int| 0 <= i < after.len() implies after[i] == bind(
                before,
                action@,
                shortcut@,
            )[i] by {
                assert(after[i] == entries@[i]@);
            }
            assert(after =~= bind(before, action@, shortcut@));
            assert forall|i: int, j: int|
                0 <= i < after.len() && 0 <= j < after.len() && i != j implies (#[trigger] after[i]).0
                != (#[trigger] after[j]).0 by {
                if i != at {
                    assert(after[i] == before[i]);
                }
                if j != at {
                    assert(after[j] == before[j]);
                }
            }
        }
        *self = CustomShortcuts { entries };
        previous
    }

    /// Removes the binding of `action` and returns its shortcut, if it was bound.
    pub fn remove(&mut self, action: &str) -> (removed: Option<String>)
        ensures
            removed is Some <==> lookup(old(self)@, action@) is Some,
            removed matches Some(s) ==> Some(s@) == lookup(old(self)@, action@),
            removed is Some ==> final(self)@ == old(self)@.remove(
                position_of(old(self)@, action@),
            ),
            removed is None ==> final(self)@ == old(self)@,
            lookup(final(self)@, action@) is None,
    {
        proof {
            use_type_invariant(&*self);
            lemma_position_of(self@, action@);
        }
        let at = self.find(action);
        let count = self.entries.len();
        let ghost before = self@;
        if at < count {
            let removed = self.entries[at].shortcut.clone();
            let mut entries: Vec<CustomShortcut> = Vec::new();
            self.copy_range(0, at, &mut entries);
            self.copy_range(at + 1, count, &mut entries);
            let ghost after = Seq::new(entries@.len(), |i: int| entries@[i]@);
            proof {
                assert forall|i: int| 0 <= i < after.len() implies after[i] == before.remove(
                    at as int,
                )[i] by {
                    assert(after[i] == entries@[i]@);
                }
                assert(after =~= before.remove(at as int));
                assert forall|i: int, j: int|
                    0 <= i < after.len() && 0 <= j < after.len() && i != j implies (
                #[trigger] after[i]).0 != (#[trigger] after[j]).0 by {
                    let bi = if i < at { i } else { i + 1 };
                    let bj = if j < at { j } else { j + 1 };
                    assert(after[i] == before[bi]);
                    assert(after[j] == before[bj]);
                }
                lemma_position_of(after, action@);
                let p = position_of(after, action@);
                if p < after.len() {
                    let bp = if p < at { p } else { p + 1 };
                    assert(after[p] == before[bp]);
                    assert(before[at as int].0 == action@);
                }
            }
            *self = CustomShortcuts { entries };
            Some(removed)
        } else {
            None
        }
    }
}

impl PartialEq for CustomShortcuts {
    fn eq(&self, other: &Self) -> (r: bool) {
        if self.entries.len() != other.entries.len() {
            return false;
        }
        let mut i: usize = 0;
        while i < self.entries.len()
            invariant
                i <= self.entries@.len(),
                self@.len() == self.entries@.len(),
                self@.len() == other@.len(),
                forall|k: int|
                    0 <= k < i ==> lookup(other@, (#[trigger] self@[k]).0) == Some(self@[k].1),
            decreases self.entries@.len() - i,
        {
            let binding = &self.entries[i];
            assert(binding@ == self@[i as int]);
            match other.get(binding.action.as_str()) {
                Some(shortcut) => {
                    if !same_text(shortcut.as_str(), binding.shortcut.as_str()) {
                        return false;
                    }
                },
                None => {
                    return false;
                },
            }
            i += 1;
        }
        true
    }
}

impl PartialEqSpecImpl for CustomShortcuts {
    open spec fn obeys_eq_spec() -> bool {
        true
    }

    open spec fn eq_spec(&self, other: &Self) -> bool {
        same_bindings(self@, other@)
    }
}

impl Clone for CustomShortcuts {
    fn clone(&self) -> (c: Self)
        ensures
            c@ == self@,
    {
        proof {
            use_type_invariant(self);
        }
        let mut entries: Vec<CustomShortcut> = Vec::new();
        let mut i: usize = 0;
        while i < self.entries.len()
            invariant
                i <= self.entries@.len(),
                entries@.len() == i,
                forall|k: int| 0 <= k < i ==> (#[trigger] entries@[k])@ == self.entries@[k]@,
            decreases self.entries@.len() - i,
        {
            entries.push(self.entries[i].clone());
            i += 1;
        }
        proof {
            let copied = Seq::new(entries@.len(), |i: int| entries@[i]@);
            assert(copied =~= self@);
        }
        CustomShortcuts { entries }
    }
}

} // verus!
