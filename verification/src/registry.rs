//! The action registry of one seat: at most one action per chord, the last
//! binding winning.

use vstd::prelude::*;
use crate::action::Action;
use crate::chord::Chord;

verus! {

/// An action together with the chord it is stored under.
#[derive(Clone, Copy, Debug, PartialEq, Eq, Structural)]
pub struct Binding {
    pub chord: Chord,
    pub action: Action,
}

/// The bindings in force once each entry of `bindings` has been bound in
/// turn on top of `start`: a later entry replaces an earlier one with the
/// same chord.
pub open spec fn bind_each(start: Map<Chord, Action>, bindings: Seq<Binding>) -> Map<Chord, Action>
    decreases bindings.len(),
{
    if bindings.len() == 0 {
        start
    } else {
        bind_each(start, bindings.drop_last()).insert(
            bindings.last().chord,
            bindings.last().action,
        )
    }
}

/// No two entries share a chord.
pub open spec fn distinct_chords(bindings: Seq<Binding>) -> bool {
    forall|i: int, j: int|
        0 <= i < j < bindings.len() ==> (#[trigger] bindings[i]).chord != (
        #[trigger] bindings[j]).chord
}

/// Some entry has the chord.
pub open spec fn mentions(bindings: Seq<Binding>, chord: Chord) -> bool {
    exists|i: int| 0 <= i < bindings.len() && (#[trigger] bindings[i]).chord == chord
}

/// Binding entries in turn touches the chords they mention and no others.
pub proof fn lemma_bind_each_keys(start: Map<Chord, Action>, bindings: Seq<Binding>, chord: Chord)
    ensures
        bind_each(start, bindings).contains_key(chord) <==> start.contains_key(chord) || mentions(
            bindings,
            chord,
        ),
        !mentions(bindings, chord) && start.contains_key(chord) ==> bind_each(
            start,
            bindings,
        )[chord] == start[chord],
    decreases bindings.len(),
{
    if bindings.len() > 0 {
        let front = bindings.drop_last();
        lemma_bind_each_keys(start, front, chord);
        if mentions(front, chord) {
            let i = choose|i: int| 0 <= i < front.len() && (#[trigger] front[i]).chord == chord;
            assert(bindings[i].chord == chord);
        }
        if mentions(bindings, chord) {
            let i = choose|i: int|
                0 <= i < bindings.len() && (#[trigger] bindings[i]).chord == chord;
            if i < front.len() {
                assert(front[i].chord == chord);
            }
        }
        if bindings.last().chord == chord {
            assert(bindings[bindings.len() - 1].chord == chord);
        }
    }
}

/// Where chords are distinct, each entry is in force as it stands.
pub proof fn lemma_bind_each_value(start: Map<Chord, Action>, bindings: Seq<Binding>, i: int)
    requires
        distinct_chords(bindings),
        0 <= i < bindings.len(),
    ensures
        bind_each(start, bindings).contains_key(bindings[i].chord),
        bind_each(start, bindings)[bindings[i].chord] == bindings[i].action,
    decreases bindings.len(),
{
    if i < bindings.len() - 1 {
        let front = bindings.drop_last();
        assert(front[i] == bindings[i]);
        assert(distinct_chords(front)) by {
            assert forall|a: int, b: int| 0 <= a < b < front.len() implies (#[trigger] front[a]).chord
                != (#[trigger] front[b]).chord by {
                assert(front[a] == bindings[a] && front[b] == bindings[b]);
            }
        }
        lemma_bind_each_value(start, front, i);
        assert(bindings[i].chord != bindings[bindings.len() - 1].chord);
    }
}

proof fn lemma_front_distinct(bindings: Seq<Binding>)
    requires
        distinct_chords(bindings),
        bindings.len() > 0,
    ensures
        distinct_chords(bindings.drop_last()),
        !mentions(bindings.drop_last(), bindings.last().chord),
{
    let front = bindings.drop_last();
    assert forall|a: int, b: int| 0 <= a < b < front.len() implies (#[trigger] front[a]).chord != (
    #[trigger] front[b]).chord by {
        assert(front[a] == bindings[a] && front[b] == bindings[b]);
    }
    if mentions(front, bindings.last().chord) {
        let i = choose|i: int|
            0 <= i < front.len() && (#[trigger] front[i]).chord == bindings.last().chord;
        assert(front[i] == bindings[i]);
        assert(bindings[i].chord != bindings[bindings.len() - 1].chord);
    }
}

proof fn lemma_replace(bindings: Seq<Binding>, i: int, binding: Binding)
    requires
        distinct_chords(bindings),
        0 <= i < bindings.len(),
        bindings[i].chord == binding.chord,
    ensures
        distinct_chords(bindings.update(i, binding)),
        bind_each(Map::empty(), bindings.update(i, binding)) == bind_each(
            Map::empty(),
            bindings,
        ).insert(binding.chord, binding.action),
    decreases bindings.len(),
{
    let changed = bindings.update(i, binding);
    let front = bindings.drop_last();
    let last = bindings.last();
    assert forall|a: int, b: int| 0 <= a < b < changed.len() implies (#[trigger] changed[a]).chord
        != (#[trigger] changed[b]).chord by {
        assert(changed[a].chord == bindings[a].chord && changed[b].chord == bindings[b].chord);
    }
    lemma_front_distinct(bindings);
    if i == bindings.len() - 1 {
        assert(changed.drop_last() == front);
        assert(bind_each(Map::empty(), changed) =~= bind_each(Map::empty(), bindings).insert(
            binding.chord,
            binding.action,
        ));
    } else {
        lemma_replace(front, i, binding);
        assert(changed.drop_last() == front.update(i, binding));
        assert(changed.last() == last);
        assert(bindings[i].chord != bindings[bindings.len() - 1].chord);
        assert(bind_each(Map::empty(), changed) =~= bind_each(Map::empty(), bindings).insert(
            binding.chord,
            binding.action,
        ));
    }
}

proof fn lemma_remove(bindings: Seq<Binding>, i: int)
    requires
        distinct_chords(bindings),
        0 <= i < bindings.len(),
    ensures
        distinct_chords(bindings.remove(i)),
        bind_each(Map::empty(), bindings.remove(i)) == bind_each(Map::empty(), bindings).remove(
            bindings[i].chord,
        ),
    decreases bindings.len(),
{
    let rest = bindings.remove(i);
    let front = bindings.drop_last();
    let last = bindings.last();
    let chord = bindings[i].chord;
    assert forall|a: int, b: int| 0 <= a < b < rest.len() implies (#[trigger] rest[a]).chord != (
    #[trigger] rest[b]).chord by {
        let a0 = if a < i { a } else { a + 1 };
        let b0 = if b < i { b } else { b + 1 };
        assert(rest[a] == bindings[a0] && rest[b] == bindings[b0]);
    }
    lemma_front_distinct(bindings);
    if i == bindings.len() - 1 {
        assert(rest == front);
        lemma_bind_each_keys(Map::empty(), front, chord);
        assert(bind_each(Map::empty(), rest) =~= bind_each(Map::empty(), bindings).remove(chord));
    } else {
        lemma_remove(front, i);
        assert(rest.drop_last() == front.remove(i));
        assert(rest.last() == last);
        assert(bindings[i].chord != bindings[bindings.len() - 1].chord);
        assert(bind_each(Map::empty(), rest) =~= bind_each(Map::empty(), bindings).remove(chord));
    }
}

proof fn lemma_size(bindings: Seq<Binding>)
    requires
        distinct_chords(bindings),
    ensures
        bind_each(Map::empty(), bindings).dom().finite(),
        bind_each(Map::empty(), bindings).dom().len() == bindings.len(),
    decreases bindings.len(),
{
    if bindings.len() > 0 {
        let front = bindings.drop_last();
        lemma_front_distinct(bindings);
        lemma_size(front);
        lemma_bind_each_keys(Map::empty(), front, bindings.last().chord);
    }
}

/// The bindings of one seat.
pub struct Registry {
    entries: Vec<Binding>,
}

impl View for Registry {
    type V = Map<Chord, Action>;

    closed spec fn view(&self) -> Map<Chord, Action> {
        bind_each(Map::empty(), self.entries@)
    }
}

impl Registry {
    #[verifier::type_invariant]
    spec fn well_formed(&self) -> bool {
        distinct_chords(self.entries@)
    }

    /// The action a key event with this chord runs, if any.
    pub open spec fn action_for(&self, chord: Chord) -> Option<Action> {
        if self@.contains_key(chord) {
            Some(self@[chord])
        } else {
            None
        }
    }

    /// A registry with nothing bound.
    pub fn new() -> (r: Registry)
        ensures
            r@ == Map::<Chord, Action>::empty(),
    {
        Registry { entries: Vec::new() }
    }

    /// Moves the entries out, leaving the registry empty until they are
    /// put back.
    fn take_entries(&mut self) -> (entries: Vec<Binding>)
        ensures
            entries@ == old(self).entries@,
            final(self).entries@.len() == 0,
    {
        let mut entries: Vec<Binding> = Vec::new();
        core::mem::swap(&mut self.entries, &mut entries);
        entries
    }

    fn find(&self, chord: Chord) -> (r: Option<usize>)
        ensures
            match r {
                Some(i) => i < self.entries@.len() && self.entries@[i as int].chord == chord,
                None => !mentions(self.entries@, chord),
            },
    {
        let mut i: usize = 0;
        while i < self.entries.len()
            invariant
                i <= self.entries@.len(),
                forall|k: int| 0 <= k < i ==> (#[trigger] self.entries@[k]).chord != chord,
            decreases self.entries@.len() - i,
        {
            if self.entries[i].chord == chord {
                return Some(i);
            }
            i += 1;
        }
        None
    }

    /// Stores `action` under `chord`, in place of whatever was there.
    pub fn bind(&mut self, chord: Chord, action: Action)
        ensures
            final(self)@ == old(self)@.insert(chord, action),
    {
        proof {
            use_type_invariant(&*self);
        }
        let binding = Binding { chord, action };
        match self.find(chord) {
            Some(i) => {
                proof {
                    lemma_replace(self.entries@, i as int, binding);
                }
                let mut entries = self.take_entries();
                entries.set(i, binding);
                self.entries = entries;
            },
            None => {
                proof {
                    let grown = self.entries@.push(binding);
                    assert(grown.drop_last() == self.entries@);
                    assert forall|a: int, b: int| 0 <= a < b < grown.len() implies (
                    #[trigger] grown[a]).chord != (#[trigger] grown[b]).chord by {
                        if b == grown.len() - 1 {
                            assert(self.entries@[a].chord != chord);
                        } else {
                            assert(grown[a] == self.entries@[a] && grown[b] == self.entries@[b]);
                        }
                    }
                }
                let mut entries = self.take_entries();
                entries.push(binding);
                self.entries = entries;
            },
        }
    }

    /// Removes the binding of `chord`; nothing happens where there is none.
    pub fn unbind(&mut self, chord: Chord)
        ensures
            final(self)@ == old(self)@.remove(chord),
    {
        proof {
            use_type_invariant(&*self);
        }
        match self.find(chord) {
            Some(i) => {
                proof {
                    lemma_remove(self.entries@, i as int);
                }
                let mut entries = self.take_entries();
                entries.remove(i);
                self.entries = entries;
            },
            None => {
                proof {
                    lemma_bind_each_keys(Map::empty(), self.entries@, chord);
                    assert(self@ =~= self@.remove(chord));
                }
            },
        }
    }

    /// The action bound to `chord`, or `None` where the event passes through.
    pub fn lookup(&self, chord: Chord) -> (r: Option<Action>)
        ensures
            r == self.action_for(chord),
    {
        proof {
            use_type_invariant(self);
            lemma_bind_each_keys(Map::empty(), self.entries@, chord);
        }
        match self.find(chord) {
            Some(i) => {
                proof {
                    lemma_bind_each_value(Map::empty(), self.entries@, i as int);
                }
                Some(self.entries[i].action)
            },
            None => None,
        }
    }

    /// Whether an action is stored under `chord`.
    pub fn is_bound(&self, chord: Chord) -> (r: bool)
        ensures
            r == self@.contains_key(chord),
    {
        self.lookup(chord).is_some()
    }

    /// How many chords are bound.
    pub fn len(&self) -> (r: usize)
        ensures
            self@.dom().finite(),
            r == self@.dom().len(),
    {
        proof {
            use_type_invariant(self);
            lemma_size(self.entries@);
        }
        self.entries.len()
    }

    /// The bound chords, each once. Their order is not part of the contract.
    pub fn chords(&self) -> (r: Vec<Chord>)
        ensures
            r@.no_duplicates(),
            forall|chord: Chord| r@.contains(chord) <==> self@.contains_key(chord),
    {
        proof {
            use_type_invariant(self);
        }
        let mut r: Vec<Chord> = Vec::new();
        let mut i: usize = 0;
        while i < self.entries.len()
            invariant
                i <= self.entries@.len(),
                r@.len() == i,
                forall|k: int| 0 <= k < i ==> r@[k] == (#[trigger] self.entries@[k]).chord,
            decreases self.entries@.len() - i,
        {
            r.push(self.entries[i].chord);
            i += 1;
        }
        proof {
            assert forall|a: int, b: int| 0 <= a < r@.len() && 0 <= b < r@.len() && a != b implies r@[a]
                != r@[b] by {
                assert(r@[a] == self.entries@[a].chord && r@[b] == self.entries@[b].chord);
            }
            assert forall|chord: Chord| r@.contains(chord) <==> self@.contains_key(chord) by {
                lemma_bind_each_keys(Map::empty(), self.entries@, chord);
                if r@.contains(chord) {
                    let k = choose|k: int| 0 <= k < r@.len() && r@[k] == chord;
                    assert(self.entries@[k].chord == chord);
                }
                if mentions(self.entries@, chord) {
                    let k = choose|k: int|
                        0 <= k < self.entries@.len() && (#[trigger] self.entries@[k]).chord
                            == chord;
                    assert(r@[k] == chord);
                }
            }
        }
        r
    }
}

/// A key event runs the action of its own chord: with two chords bound to
/// different actions, the event of the first never runs the action of the
/// second.
pub proof fn lemma_dispatch_is_exact(registry: Registry, first: Chord, second: Chord)
    requires
        first != second,
        registry@.contains_key(first),
        registry@.contains_key(second),
        registry@[first] != registry@[second],
    ensures
        registry.action_for(first) == Some(registry@[first]),
        registry.action_for(first) != Some(registry@[second]),
{
}

/// Binding a chord twice leaves it with one action, the later one; every
/// other chord is as it was before the two bindings.
pub proof fn lemma_rebind_keeps_latest(
    bindings: Map<Chord, Action>,
    chord: Chord,
    earlier: Action,
    later: Action,
)
    ensures
        bindings.insert(chord, earlier).insert(chord, later) == bindings.insert(chord, later),
        bindings.insert(chord, earlier).insert(chord, later)[chord] == later,
        bindings.insert(chord, earlier).insert(chord, later).dom() == bindings.dom().insert(chord),
{
    assert(bindings.insert(chord, earlier).insert(chord, later) =~= bindings.insert(chord, later));
    assert(bindings.insert(chord, earlier).insert(chord, later).dom() =~= bindings.dom().insert(
        chord,
    ));
}

} // verus!
