//! Chord detection: the set of trigger keys currently held, and the action
//! that set resolves to.

use vstd::prelude::*;

verus! {

/// A key as the chord detector sees it. `Other` stands for any key outside
/// the trigger vocabulary, identified by the caller's own code.
#[derive(Clone, Copy, Debug, PartialEq, Eq, Structural)]
pub enum Key {
    F19,
    F20,
    Other(u32),
}

/// What a chord of held keys asks for.
#[derive(Clone, Copy, Debug, PartialEq, Eq, Structural)]
pub enum TranscribeAction {
    TranscribeEnglish,
    CleanseTranscription,  // from clipboard
}

/// The action that a set of held keys resolves to: the primary trigger wins
/// over the secondary one.
pub open spec fn action_of(held: Set<Key>) -> Option<TranscribeAction> {
    if held.contains(Key::F19) {
        Some(TranscribeAction::TranscribeEnglish)
    } else if held.contains(Key::F20) {
        Some(TranscribeAction::CleanseTranscription)
    } else {
        None
    }
}

/// Holding only the primary trigger yields the primary action, and so does
/// holding it along with anything else; releasing it and holding it again
/// yields the action again; keys outside the vocabulary never yield one.
pub proof fn lemma_chord_actions(held: Set<Key>)
    ensures
        action_of(Set::empty().insert(Key::F19)) == Some(TranscribeAction::TranscribeEnglish),
        action_of(held.insert(Key::F19)) == Some(TranscribeAction::TranscribeEnglish),
        action_of(held.remove(Key::F19).insert(Key::F19)) == Some(
            TranscribeAction::TranscribeEnglish,
        ),
        (forall|k: Key| held.contains(k) ==> !in_question(k)) ==> action_of(held) is None,
{
    assert(Set::<Key>::empty().insert(Key::F19).contains(Key::F19));
    assert(held.insert(Key::F19).contains(Key::F19));
    assert(held.remove(Key::F19).insert(Key::F19).contains(Key::F19));
    if forall|k: Key| held.contains(k) ==> !in_question(k) {
        assert(in_question(Key::F19));
        assert(in_question(Key::F20));
        assert(!held.contains(Key::F19));
        assert(!held.contains(Key::F20));
    }
}

/// Whether a key belongs to the trigger vocabulary.
pub open spec fn in_question(key: Key) -> bool {
    key == Key::F19 || key == Key::F20
}

/// The keys currently held down, each at most once. A vector rather than a
/// hash set: the hash set's contracts hold only for keys whose hashing Verus
/// knows, which a derived `Hash` on this enum does not give.
pub struct KeyStateManager {
    held: Vec<Key>,
}

impl View for KeyStateManager {
    type V = Set<Key>;

    closed spec fn view(&self) -> Set<Key> {
        Set::new(|k: Key| self.held@.contains(k))
    }
}

impl KeyStateManager {
    /// Each held key is recorded once.
    pub closed spec fn wf(&self) -> bool {
        self.held@.no_duplicates()
    }

    pub fn new() -> (r: Self)
        ensures
            r.wf(),
            r@ == Set::<Key>::empty(),
    {
        let r = KeyStateManager { held: Vec::new() };
        assert(r@ =~= Set::<Key>::empty());
        r
    }

    /// Position of `key` among the held keys, if it is held.
    fn position(&self, key: &Key) -> (r: Option<usize>)
        ensures
            match r {
                Some(i) => i < self.held@.len() && self.held@[i as int] == *key,
                None => !self.held@.contains(*key),
            },
    {
        let mut i: usize = 0;
        while i < self.held.len()
            invariant
                i <= self.held@.len(),
                forall|j: int| 0 <= j < i ==> self.held@[j] != *key,
            decreases self.held@.len() - i,
        {
            if self.held[i] == *key {
                return Some(i);
            }
            i += 1;
        }
        None
    }

    /// Records `key` as held; holding it again changes nothing.
    pub fn add_key(&mut self, key: Key)
        requires
            old(self).wf(),
        ensures
            final(self).wf(),
            final(self)@ == old(self)@.insert(key),
    {
        if self.position(&key).is_none() {
            let ghost before = self.held@;
            self.held.push(key);
            assert forall|k: Key| #[trigger] self.held@.contains(k) <==> (before.contains(k) || k == key) by {
                if before.contains(k) {
                    let j = choose|j: int| 0 <= j < before.len() && before[j] == k;
                    assert(self.held@[j] == k);
                }
                if k == key {
                    assert(self.held@[before.len() as int] == k);
                }
            }
        }
        assert(self@ =~= old(self)@.insert(key));
    }

    /// Records `key` as released; releasing a key that is not held changes
    /// nothing.
    pub fn remove_key(&mut self, key: &Key)
        requires
            old(self).wf(),
        ensures
            final(self).wf(),
            final(self)@ == old(self)@.remove(*key),
    {
        match self.position(key) {
            Some(i) => {
                let ghost before = self.held@;
                self.held.remove(i);
                assert forall|k: Key| #[trigger] self.held@.contains(k) <==> (before.contains(k) && k != *key) by {
                    if before.contains(k) && k != *key {
                        let j = choose|j: int| 0 <= j < before.len() && before[j] == k;
                        if j < i {
                            assert(self.held@[j] == k);
                        } else {
                            assert(j != i);
                            assert(self.held@[j - 1] == k);
                        }
                    }
                    if self.held@.contains(k) {
                        let j = choose|j: int| 0 <= j < self.held@.len() && self.held@[j] == k;
                        if j < i {
                            assert(before[j] == k);
                        } else {
                            assert(before[j + 1] == k);
                        }
                    }
                }
            },
            None => {},
        }
        assert(self@ =~= old(self)@.remove(*key));
    }

    /// The action the held keys resolve to; the state is left as it is.
    pub fn match_action(&self) -> (r: Option<TranscribeAction>)
        ensures
            r == action_of(self@),
    {
        if self.position(&Key::F19).is_some() {
            Some(TranscribeAction::TranscribeEnglish)
        } else if self.position(&Key::F20).is_some() {
            Some(TranscribeAction::CleanseTranscription)
        } else {
            None
        }
    }

    /// The trigger vocabulary.
    pub fn keys_in_question() -> (r: [Key; 2])
        ensures
            r@ == seq![Key::F19, Key::F20],
    {
        let r = [Key::F19, Key::F20];
        assert(r@ =~= seq![Key::F19, Key::F20]);
        r
    }

    /// Whether `key` belongs to the trigger vocabulary.
    pub fn is_in_question(key: &Key) -> (r: bool)
        ensures
            r == in_question(*key),
    {
        match key {
            Key::F19 | Key::F20 => true,
            Key::Other(_) => false,
        }
    }

    /// A key went down: keys outside the vocabulary are ignored, others are
    /// recorded and the resulting chord is resolved.
    pub fn key_down(&mut self, key: Key) -> (r: Option<TranscribeAction>)
        requires
            old(self).wf(),
        ensures
            final(self).wf(),
            in_question(key) ==> final(self)@ == old(self)@.insert(key) && r == action_of(
                final(self)@,
            ),
            !in_question(key) ==> final(self)@ == old(self)@ && r is None,
    {
        if !Self::is_in_question(&key) {
            return None;
        }
        self.add_key(key);
        self.match_action()
    }

    /// A key went up: keys outside the vocabulary are ignored, others are
    /// released.
    pub fn key_up(&mut self, key: &Key)
        requires
            old(self).wf(),
        ensures
            final(self).wf(),
            in_question(*key) ==> final(self)@ == old(self)@.remove(*key),
            !in_question(*key) ==> final(self)@ == old(self)@,
    {
        if Self::is_in_question(key) {
            self.remove_key(key);
        }
    }
}

} // verus!
