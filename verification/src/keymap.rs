//! The keymap tree: an arena of nodes, each node a list of bindings from a
//! key code to an `Actionable`. A binding may carry the index of a nested
//! node, which turns it into the first step of a multi-key chord.

use vstd::prelude::*;

verus! {

/// A key code as the library sees it. The terminal backend's own key type is
/// converted to this one at the process boundary, so the resolver logic works
/// on plain values only.
#[derive(Clone, Copy, Debug, Hash, PartialEq, Eq, Structural)]
pub enum Key {
    Char(char),
    Esc,
    Enter,
    Backspace,
    Tab,
    Up,
    Down,
    Left,
    Right,
}

/// The closed set of abstract user intents. `SubCommand` is reserved: the
/// resolver returns it to signal "still composing a chord"; a well-formed
/// keymap never stores it as the action of a binding without a sub-map.
#[derive(Clone, Copy, Debug, Hash, PartialEq, Eq, Structural)]
pub enum Actions {
    Up,
    Down,
    Left,
    Right,
    Quit,
    Edit,
    GoToTop,
    GoToNextTab,
    GoToPreviousTab,
    SubCommand,
    Null,
}

/// What a key is bound to: an action, and optionally the index of a nested
/// keymap node holding the continuations of a chord.
#[derive(Clone, Copy, Debug, PartialEq, Eq, Structural)]
pub struct Actionable {
    pub action: Actions,
    pub sub_action: Option<usize>,
}

/// First-match lookup of `key` among the bindings of one node.
pub open spec fn node_lookup(node: Seq<(Key, Actionable)>, key: Key) -> Option<Actionable>
    decreases node.len(),
{
    if node.len() == 0 {
        None
    } else if node[0].0 == key {
        Some(node[0].1)
    } else {
        node_lookup(node.drop_first(), key)
    }
}

/// If the lookup finds a binding, that binding stands somewhere in the node.
pub proof fn lemma_node_lookup_found(node: Seq<(Key, Actionable)>, key: Key)
    requires
        node_lookup(node, key) is Some,
    ensures
        exists|j: int|
            0 <= j < node.len() && node[j].0 == key && node[j].1 == node_lookup(node, key)->0,
    decreases node.len(),
{
    if node.len() > 0 && node[0].0 != key {
        lemma_node_lookup_found(node.drop_first(), key);
        let j = choose|j: int|
            0 <= j < node.drop_first().len() && node.drop_first()[j].0 == key
                && node.drop_first()[j].1 == node_lookup(node.drop_first(), key)->0;
        assert(node[j + 1] == node.drop_first()[j]);
    }
}

/// The keymap tree, arena-allocated: node 0 is the default (root) node, and a
/// binding's `sub_action` is the index of a later node of the same arena.
#[derive(Clone, Debug)]
pub struct KeyMap {
    pub nodes: Vec<Vec<(Key, Actionable)>>,
}

impl KeyMap {
    /// The bindings of node `i`.
    pub open spec fn node(self, i: int) -> Seq<(Key, Actionable)> {
        self.nodes@[i]@
    }

    /// The binding at position `j` of node `i` keeps the tree acyclic and
    /// unambiguous: a nested index points forward and stays in bounds, and a
    /// binding without a sub-map never carries the reserved composing signal.
    pub open spec fn entry_wf(self, i: int, j: int) -> bool {
        match self.node(i)[j].1.sub_action {
            Some(s) => i < s as int && (s as int) < self.nodes@.len(),
            None => self.node(i)[j].1.action != Actions::SubCommand,
        }
    }

    /// Well-formedness: the root exists, every binding is in order, and no
    /// node binds a key twice.
    pub open spec fn wf(self) -> bool {
        &&& self.nodes@.len() >= 1
        &&& forall|i: int, j: int|
            0 <= i < self.nodes@.len() && 0 <= j < self.node(i).len() ==> #[trigger] self.entry_wf(
                i,
                j,
            )
        &&& forall|i: int| 0 <= i < self.nodes@.len() ==> node_keys_unique(#[trigger] self.node(i))
    }

    /// Looks `key` up among the bindings of the default (root) node.
    pub fn get(&self, key: &Key) -> (r: Option<Actionable>)
        requires
            self.wf(),
        ensures
            r == node_lookup(self.node(0), *key),
    {
        find_in_node(&self.nodes[0], *key)
    }
}

/// No key is bound twice in one node; with that, which binding a lookup
/// finds does not depend on the order the bindings were inserted in.
pub open spec fn node_keys_unique(node: Seq<(Key, Actionable)>) -> bool {
    forall|j1: int, j2: int| 0 <= j1 < j2 < node.len() ==> node[j1].0 != node[j2].0
}

/// The bindings of the root node of the default keymap: single-key motions,
/// quit, enter-insert-mode, and the `g` prefix that opens the chord node.
pub open spec fn default_root_bindings() -> Seq<(Key, Actionable)> {
    seq![
        (Key::Char('k'), Actionable { action: Actions::Up, sub_action: None }),
        (Key::Char('j'), Actionable { action: Actions::Down, sub_action: None }),
        (Key::Char('h'), Actionable { action: Actions::Left, sub_action: None }),
        (Key::Char('l'), Actionable { action: Actions::Right, sub_action: None }),
        (Key::Char('q'), Actionable { action: Actions::Quit, sub_action: None }),
        (Key::Char('e'), Actionable { action: Actions::Edit, sub_action: None }),
        (Key::Char('g'), Actionable { action: Actions::Null, sub_action: Some(1usize) }),
    ]
}

/// The bindings of the chord node reached through the `g` prefix.
pub open spec fn default_chord_bindings() -> Seq<(Key, Actionable)> {
    seq![
        (Key::Char('g'), Actionable { action: Actions::GoToTop, sub_action: None }),
        (Key::Char('t'), Actionable { action: Actions::GoToNextTab, sub_action: None }),
        (Key::Char('T'), Actionable { action: Actions::GoToPreviousTab, sub_action: None }),
    ]
}

/// Builds the keymap tree the application starts with: the root node and one
/// nested chord node behind the `g` prefix.
pub fn default_keymap_factory() -> (r: KeyMap)
    ensures
        r.wf(),
        r.nodes@.len() == 2,
        r.node(0) == default_root_bindings(),
        r.node(1) == default_chord_bindings(),
{
    let mut root: Vec<(Key, Actionable)> = Vec::new();
    root.push((Key::Char('k'), Actionable { action: Actions::Up, sub_action: None }));
    root.push((Key::Char('j'), Actionable { action: Actions::Down, sub_action: None }));
    root.push((Key::Char('h'), Actionable { action: Actions::Left, sub_action: None }));
    root.push((Key::Char('l'), Actionable { action: Actions::Right, sub_action: None }));
    root.push((Key::Char('q'), Actionable { action: Actions::Quit, sub_action: None }));
    root.push((Key::Char('e'), Actionable { action: Actions::Edit, sub_action: None }));
    root.push((Key::Char('g'), Actionable { action: Actions::Null, sub_action: Some(1usize) }));
    let mut chord: Vec<(Key, Actionable)> = Vec::new();
    chord.push((Key::Char('g'), Actionable { action: Actions::GoToTop, sub_action: None }));
    chord.push((Key::Char('t'), Actionable { action: Actions::GoToNextTab, sub_action: None }));
    chord.push((Key::Char('T'), Actionable { action: Actions::GoToPreviousTab, sub_action: None }));
    let mut nodes: Vec<Vec<(Key, Actionable)>> = Vec::new();
    nodes.push(root);
    nodes.push(chord);
    let r = KeyMap { nodes };
    proof {
        assert(r.node(0) =~= default_root_bindings());
        assert(r.node(1) =~= default_chord_bindings());
        assert forall|i: int, j: int|
            0 <= i < r.nodes@.len() && 0 <= j < r.node(i).len() implies #[trigger] r.entry_wf(
            i,
            j,
        ) by {
            if i == 0 {
                assert(r.node(0) == default_root_bindings());
            } else {
                assert(r.node(1) == default_chord_bindings());
            }
        }
        assert forall|i: int| 0 <= i < r.nodes@.len() implies node_keys_unique(
            #[trigger] r.node(i),
        ) by {
            if i == 0 {
                assert(r.node(0) == default_root_bindings());
            } else {
                assert(r.node(1) == default_chord_bindings());
            }
        }
    }
    r
}

/// Linear scan of one node's bindings for `key`.
pub(crate) fn find_in_node(node: &Vec<(Key, Actionable)>, key: Key) -> (r: Option<Actionable>)
    ensures
        r == node_lookup(node@, key),
{
    let n = node.len();
    let mut i: usize = 0;
    assert(node@.skip(0) =~= node@);
    while i < n
        invariant
            i <= n,
            n == node@.len(),
            node_lookup(node@, key) == node_lookup(node@.skip(i as int), key),
        decreases n - i,
    {
        if node[i].0 == key {
            assert(node@.skip(i as int)[0] == node@[i as int]);
            return Some(node[i].1);
        }
        assert(node@.skip(i as int).drop_first() =~= node@.skip(i as int + 1));
        i = i + 1;
    }
    assert(node@.skip(i as int).len() == 0);
    None
}

} // verus!
