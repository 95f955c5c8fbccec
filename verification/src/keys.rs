//! The key-state map: which keys are currently held down.
//!
//! The map is modelled as a `Map<Seq<char>, bool>` from key names to their
//! last recorded state. A key that was never touched has no entry; a key that
//! was released keeps an entry holding `false`. Both count as "not pressed".

use vstd::hash_map::StringHashMap;
use vstd::prelude::*;

verus! {

/// Last recorded state of every key that was ever pressed or released.
pub struct KeyManager {
    states: StringHashMap<bool>,
}

impl View for KeyManager {
    type V = Map<Seq<char>, bool>;

    closed spec fn view(&self) -> Map<Seq<char>, bool> {
        self.states@
    }
}

/// A key counts as pressed iff it has an entry and the entry holds `true`.
pub open spec fn pressed(states: Map<Seq<char>, bool>, key: Seq<char>) -> bool {
    states.contains_key(key) && states[key]
}

impl KeyManager {
    /// A key manager that has seen no key yet.
    pub fn new() -> (key_manager: KeyManager)
        ensures
            key_manager@ == Map::<Seq<char>, bool>::empty(),
    {
        KeyManager { states: StringHashMap::new() }
    }
}

/// Records that `keyname` went down. The entry is created if the key was
/// never seen, and overwritten otherwise; no other entry changes.
pub fn key_down(key_manager: &mut KeyManager, keyname: String)
    ensures
        final(key_manager)@ == old(key_manager)@.insert(keyname@, true),
{
    key_manager.states.insert(keyname, true);
}

/// Records that `keyname` went up. The entry is created if the key was
/// never seen, and overwritten otherwise; no other entry changes.
pub fn key_up(key_manager: &mut KeyManager, keyname: String)
    ensures
        final(key_manager)@ == old(key_manager)@.insert(keyname@, false),
{
    key_manager.states.insert(keyname, false);
}

/// Tells whether the key named `value` is held down.
pub fn is_key_pressed(key_manager: &KeyManager, value: &str) -> (held: bool)
    ensures
        held == pressed(key_manager@, value@),
{
    match key_manager.states.get(value) {
        Some(state) => *state,
        None => false,
    }
}

/// The states that result from `states` after the recorded changes, oldest
/// first. A change is a key name with the state it went to: `true` for a
/// press, `false` for a release.
pub open spec fn replay(states: Map<Seq<char>, bool>, changes: Seq<(Seq<char>, bool)>) -> Map<
    Seq<char>,
    bool,
>
    decreases changes.len(),
{
    if changes.len() == 0 {
        states
    } else {
        replay(states, changes.drop_last()).insert(changes.last().0, changes.last().1)
    }
}

/// Changes to other keys leave a key alone: if no change names `key`, then
/// after all of them `key` has an entry iff it had one before, with the same
/// state, and so is pressed iff it was.
pub proof fn lemma_untouched_key_keeps_its_state(
    states: Map<Seq<char>, bool>,
    changes: Seq<(Seq<char>, bool)>,
    key: Seq<char>,
)
    requires
        forall|i: int| 0 <= i < changes.len() ==> changes[i].0 != key,
    ensures
        replay(states, changes).contains_key(key) == states.contains_key(key),
        states.contains_key(key) ==> replay(states, changes)[key] == states[key],
        pressed(replay(states, changes), key) == pressed(states, key),
    decreases changes.len(),
{
    if changes.len() > 0 {
        lemma_untouched_key_keeps_its_state(states, changes.drop_last(), key);
    }
}

/// A key that was never pressed nor released since the map was empty is not
/// pressed, whatever happened to other keys.
pub proof fn lemma_never_touched_key_is_not_pressed(
    changes: Seq<(Seq<char>, bool)>,
    key: Seq<char>,
)
    requires
        forall|i: int| 0 <= i < changes.len() ==> changes[i].0 != key,
    ensures
        !pressed(replay(Map::<Seq<char>, bool>::empty(), changes), key),
{
    lemma_untouched_key_keeps_its_state(Map::<Seq<char>, bool>::empty(), changes, key);
}

/// The latest change of a key decides: after any changes that end with one
/// of `key`, the key is pressed iff that last change was a press.
pub proof fn lemma_last_change_decides(
    states: Map<Seq<char>, bool>,
    changes: Seq<(Seq<char>, bool)>,
    key: Seq<char>,
    down: bool,
)
    ensures
        pressed(replay(states, changes.push((key, down))), key) == down,
{
    assert(changes.push((key, down)).drop_last() =~= changes);
}

/// Pressing a key and then releasing it leaves it not pressed.
pub proof fn lemma_down_then_up_is_released(states: Map<Seq<char>, bool>, key: Seq<char>)
    ensures
        !pressed(states.insert(key, true).insert(key, false), key),
{
}

/// Pressing a key twice in a row leaves it pressed.
pub proof fn lemma_down_twice_is_pressed(states: Map<Seq<char>, bool>, key: Seq<char>)
    ensures
        pressed(states.insert(key, true).insert(key, true), key),
{
}

/// Entries are never removed: every key that had an entry still has one
/// after any number of changes, and every key that was changed has one.
pub proof fn lemma_keys_are_never_forgotten(
    states: Map<Seq<char>, bool>,
    changes: Seq<(Seq<char>, bool)>,
)
    ensures
        forall|key: Seq<char>| #[trigger]
            states.contains_key(key) ==> replay(states, changes).contains_key(key),
        forall|i: int|
            0 <= i < changes.len() ==> replay(states, changes).contains_key(#[trigger] changes[i].0),
    decreases changes.len(),
{
    if changes.len() > 0 {
        lemma_keys_are_never_forgotten(states, changes.drop_last());
        assert forall|i: int| 0 <= i < changes.len() implies replay(states, changes).contains_key(
            #[trigger] changes[i].0,
        ) by {
            if i < changes.len() - 1 {
                assert(changes.drop_last()[i] == changes[i]);
            }
        }
    }
}

} // verus!
