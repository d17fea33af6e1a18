//! The keyboard resolver: a cursor into the keymap tree that consumes one key
//! per call and answers with a concrete action, the "still composing a chord"
//! signal, or nothing when the key has no binding at the cursor.

use vstd::prelude::*;

use crate::keymap::find_in_node;
use crate::keymap::lemma_node_lookup_found;
use crate::keymap::node_lookup;
use crate::keymap::Actions;
use crate::keymap::Key;
use crate::keymap::KeyMap;

verus! {

/// One resolution step: the outcome handed to the caller (`None` for an
/// unrecognized key, `Some(Actions::SubCommand)` while a chord is still
/// composing, `Some(action)` for a completed binding) paired with the cursor
/// after the step. Every outcome but "composing" sends the cursor back to the
/// root.
pub open spec fn resolve_step(map: KeyMap, cursor: int, key: Key) -> (Option<Actions>, int) {
    match node_lookup(map.node(cursor), key) {
        None => (None, 0),
        Some(a) => match a.sub_action {
            Some(s) => (Some(Actions::SubCommand), s as int),
            None => (Some(a.action), 0),
        },
    }
}

/// The resolver: the owned keymap tree and the cursor, an index into it.
/// Node 0 of `default` is the root; `current` is where the next key will be
/// looked up.
#[derive(Clone, Debug)]
pub struct KeyboardListerner {
    pub default: KeyMap,
    pub current: usize,
}

impl KeyboardListerner {
    /// The cursor is never dangling: it stays inside the well-formed tree.
    pub open spec fn wf(self) -> bool {
        &&& self.default.wf()
        &&& (self.current as int) < self.default.nodes@.len()
    }

    pub fn init(default_map: KeyMap) -> (r: Self)
        requires
            default_map.wf(),
        ensures
            r.wf(),
            r.default == default_map,
            r.current == 0,
    {
        KeyboardListerner { default: default_map, current: 0 }
    }

    /// Consumes one key: the result and the new cursor are exactly one
    /// `resolve_step` from the old cursor, and the keymap itself is never
    /// changed.
    pub fn get_command(&mut self, key: Key) -> (r: Option<Actions>)
        requires
            old(self).wf(),
        ensures
            final(self).wf(),
            final(self).default == old(self).default,
            (r, final(self).current as int) == resolve_step(
                old(self).default,
                old(self).current as int,
                key,
            ),
    {
        let found = find_in_node(&self.default.nodes[self.current], key);
        match found {
            Some(actionable) => {
                match actionable.sub_action {
                    Some(sub) => {
                        proof {
                            let cur = old(self).current as int;
                            lemma_node_lookup_found(old(self).default.node(cur), key);
                            let j = choose|j: int|
                                0 <= j < old(self).default.node(cur).len() && old(
                                    self,
                                ).default.node(cur)[j].0 == key && old(self).default.node(
                                    cur,
                                )[j].1 == node_lookup(old(self).default.node(cur), key)->0;
                            assert(old(self).default.entry_wf(cur, j));
                        }
                        self.current = sub;
                        Some(Actions::SubCommand)
                    },
                    None => {
                        self.current = 0;
                        Some(actionable.action)
                    },
                }
            },
            None => {
                self.current = 0;
                None
            },
        }
    }
}

/// A key with no binding at the cursor resolves to "unrecognized" and the
/// cursor is back at the root afterwards.
pub proof fn lemma_unrecognized_resets_cursor(map: KeyMap, cursor: int, key: Key)
    requires
        node_lookup(map.node(cursor), key) is None,
    ensures
        resolve_step(map, cursor, key).0 is None,
        resolve_step(map, cursor, key).1 == 0,
{
}

/// A chord binding whose sub-map binds the same prefix key again: resolving
/// that key twice composes both times; the cursor lands in the sub-map after
/// the first step, and the second step is looked up inside that very sub-map.
pub proof fn lemma_chord_composes_twice(map: KeyMap, key: Key, s1: usize, s2: usize)
    requires
        node_lookup(map.node(0), key) matches Some(a) && a.sub_action == Some(s1),
        node_lookup(map.node(s1 as int), key) matches Some(b) && b.sub_action == Some(s2),
    ensures
        resolve_step(map, 0, key).0 == Some(Actions::SubCommand),
        resolve_step(map, 0, key).1 == s1 as int,
        resolve_step(map, s1 as int, key).0 == Some(Actions::SubCommand),
        resolve_step(map, s1 as int, key).1 == s2 as int,
{
}

/// A single-key binding resolved from the root always yields its concrete
/// action and leaves the cursor at the root, whatever chord state went before
/// a reset.
pub proof fn lemma_single_key_from_root(map: KeyMap, key: Key, act: Actions)
    requires
        node_lookup(map.node(0), key) matches Some(a) && a.action == act && a.sub_action is None,
    ensures
        resolve_step(map, 0, key).0 == Some(act),
        resolve_step(map, 0, key).1 == 0,
{
}

/// A composing prefix followed by a key the sub-map does not bind: the miss
/// resets the cursor to the root, so a single-key binding resolves normally
/// right after it.
pub proof fn lemma_miss_mid_chord_then_normal(
    map: KeyMap,
    prefix: Key,
    miss: Key,
    key: Key,
    sub: usize,
    act: Actions,
)
    requires
        node_lookup(map.node(0), prefix) matches Some(a) && a.sub_action == Some(sub),
        node_lookup(map.node(sub as int), miss) is None,
        node_lookup(map.node(0), key) matches Some(b) && b.action == act && b.sub_action is None,
    ensures
        resolve_step(map, 0, prefix).0 == Some(Actions::SubCommand),
        resolve_step(map, 0, prefix).1 == sub as int,
        resolve_step(map, sub as int, miss).0 is None,
        resolve_step(map, sub as int, miss).1 == 0,
        resolve_step(map, 0, key).0 == Some(act),
        resolve_step(map, 0, key).1 == 0,
{
}

/// Keeps from a resolution outcome only what the input cycle may forward to
/// the action channel: a concrete action, never the composing signal, never
/// an unrecognized key.
pub open spec fn dispatchable(outcome: Option<Actions>) -> Option<Actions> {
    match outcome {
        Some(a) => if a == Actions::SubCommand {
            None
        } else {
            Some(a)
        },
        None => None,
    }
}

/// The compute half of one input cycle: the raw key is read outside, this
/// feeds it to the resolver and hands back the action to forward onto the
/// action channel - exactly when the outcome is a concrete action.
pub struct InputHandler {
    pub listener: KeyboardListerner,
}

impl InputHandler {
    pub fn init(listener: KeyboardListerner) -> (r: Self)
        ensures
            r.listener == listener,
    {
        InputHandler { listener }
    }

    pub fn handle_key(&mut self, key: Key) -> (r: Option<Actions>)
        requires
            old(self).listener.wf(),
        ensures
            final(self).listener.wf(),
            final(self).listener.default == old(self).listener.default,
            final(self).listener.current as int == resolve_step(
                old(self).listener.default,
                old(self).listener.current as int,
                key,
            ).1,
            r == dispatchable(
                resolve_step(old(self).listener.default, old(self).listener.current as int, key).0,
            ),
    {
        let outcome = self.listener.get_command(key);
        match outcome {
            Some(Actions::SubCommand) => None,
            Some(action) => Some(action),
            None => None,
        }
    }
}

} // verus!
