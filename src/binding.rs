//! Key bindings and the decision whether a key event is intercepted.
use crate::action::Action;
use vstd::prelude::*;

verus! {

/// The modifier keys active when a key event arrives.
#[derive(Clone, Copy, Debug, PartialEq, Eq, Structural)]
pub struct Modifiers {
    pub ctrl: bool,
    pub alt: bool,
    pub shift: bool,
    pub caps_lock: bool,
    pub logo: bool,
    pub num_lock: bool,
    pub iso_level3_shift: bool,
    pub iso_level5_shift: bool,
}

/// Whether a key went down or came up.
#[derive(Clone, Copy, Debug, PartialEq, Eq, Structural)]
pub enum KeyState {
    Released,
    Pressed,
}

/// A modifier set and a key symbol that together trigger a binding.
#[derive(Clone, Copy, Debug, PartialEq, Eq, Structural)]
pub struct KeyPattern {
    pub modifiers: Modifiers,
    pub key: u32,
}

/// What becomes of a key event: the compositor takes it and runs the action,
/// or it goes on to the focused client.
#[derive(Clone, Debug, PartialEq, Eq)]
pub enum FilterResult {
    Intercept(Action),
    Forward,
}

/// A binding matches when its modifier set is exactly the active one and its
/// key is among the symbols that the key resolved to.
pub open spec fn pattern_matches(p: KeyPattern, modifiers: Modifiers, syms: Seq<u32>) -> bool {
    p.modifiers == modifiers && syms.contains(p.key)
}

/// Index of the first binding in table order that matches, if any.
pub open spec fn first_match(
    bindings: Seq<(KeyPattern, Action)>,
    modifiers: Modifiers,
    syms: Seq<u32>,
) -> Option<int>
    decreases bindings.len(),
{
    if bindings.len() == 0 {
        None
    } else {
        match first_match(bindings.drop_last(), modifiers, syms) {
            Some(i) => Some(i),
            None => if pattern_matches(bindings.last().0, modifiers, syms) {
                Some(bindings.len() - 1)
            } else {
                None
            },
        }
    }
}

/// The decision on a key event: a press is intercepted by the first binding
/// that matches; a release, and a press that nothing matches, go on.
pub open spec fn decide_spec(
    modifiers: Modifiers,
    syms: Seq<u32>,
    bindings: Seq<(KeyPattern, Action)>,
    state: KeyState,
) -> FilterResult {
    match state {
        KeyState::Released => FilterResult::Forward,
        KeyState::Pressed => match first_match(bindings, modifiers, syms) {
            Some(i) => FilterResult::Intercept(bindings[i].1),
            None => FilterResult::Forward,
        },
    }
}

/// `first_match` finds the least index that matches, and none before it.
pub proof fn lemma_first_match(bindings: Seq<(KeyPattern, Action)>, modifiers: Modifiers, syms: Seq<u32>)
    ensures
        first_match(bindings, modifiers, syms) matches Some(i) ==> 0 <= i < bindings.len()
            && pattern_matches(bindings[i].0, modifiers, syms) && forall|j: int|
            0 <= j < i ==> !pattern_matches(#[trigger] bindings[j].0, modifiers, syms),
        first_match(bindings, modifiers, syms) is None ==> forall|j: int|
            0 <= j < bindings.len() ==> !pattern_matches(#[trigger] bindings[j].0, modifiers, syms),
    decreases bindings.len(),
{
    if bindings.len() > 0 {
        lemma_first_match(bindings.drop_last(), modifiers, syms);
        assert forall|j: int| 0 <= j < bindings.len() - 1 implies bindings[j] == bindings.drop_last()[j] by {}
    }
}

fn contains_sym(syms: &Vec<u32>, key: u32) -> (r: bool)
    ensures
        r == syms@.contains(key),
{
    let mut i: usize = 0;
    while i < syms.len()
        invariant
            i <= syms@.len(),
            forall|j: int| 0 <= j < i ==> syms@[j] != key,
        decreases syms@.len() - i,
    {
        if syms[i] == key {
            return true;
        }
        i += 1;
    }
    false
}

/// Decides whether a key event with these active modifiers and resolved key
/// symbols is intercepted by one of the bindings, scanned in table order.
pub fn decide(
    modifiers: &Modifiers,
    syms: &Vec<u32>,
    bindings: &Vec<(KeyPattern, Action)>,
    state: KeyState,
) -> (r: FilterResult)
    ensures
        r == decide_spec(*modifiers, syms@, bindings@, state),
{
    if state == KeyState::Released {
        return FilterResult::Forward;
    }
    let mut i: usize = 0;
    while i < bindings.len()
        invariant
            i <= bindings@.len(),
            state == KeyState::Pressed,
            first_match(bindings@.subrange(0, i as int), *modifiers, syms@) is None,
        decreases bindings@.len() - i,
    {
        let ghost prefix = bindings@.subrange(0, i as int + 1);
        assert(prefix.drop_last() =~= bindings@.subrange(0, i as int));
        let pattern = &bindings[i].0;
        if pattern.modifiers == *modifiers && contains_sym(syms, pattern.key) {
            proof {
                lemma_prefix_match(bindings@, *modifiers, syms@, i as int);
            }
            let action = bindings[i].1.duplicate();
            return FilterResult::Intercept(action);
        }
        i += 1;
    }
    assert(bindings@.subrange(0, bindings@.len() as int) =~= bindings@);
    FilterResult::Forward
}

/// Once a prefix holds a match, every longer table has that same first match.
proof fn lemma_prefix_match(
    bindings: Seq<(KeyPattern, Action)>,
    modifiers: Modifiers,
    syms: Seq<u32>,
    i: int,
)
    requires
        0 <= i < bindings.len(),
        first_match(bindings.subrange(0, i), modifiers, syms) is None,
        pattern_matches(bindings[i].0, modifiers, syms),
    ensures
        first_match(bindings, modifiers, syms) == Some(i),
    decreases bindings.len(),
{
    if bindings.len() == i + 1 {
        assert(bindings.drop_last() =~= bindings.subrange(0, i));
    } else {
        assert(bindings.drop_last().subrange(0, i) =~= bindings.subrange(0, i));
        lemma_prefix_match(bindings.drop_last(), modifiers, syms, i);
    }
}

/// A press that matches binding `k`, with no binding before it matching,
/// yields `k`'s action; the release of the same key is forwarded.
pub proof fn lemma_press_intercepts_release_forwards(
    modifiers: Modifiers,
    syms: Seq<u32>,
    bindings: Seq<(KeyPattern, Action)>,
    k: int,
)
    requires
        0 <= k < bindings.len(),
        bindings[k].0.modifiers == modifiers,
        syms.contains(bindings[k].0.key),
        forall|j: int| 0 <= j < k ==> !pattern_matches(#[trigger] bindings[j].0, modifiers, syms),
    ensures
        decide_spec(modifiers, syms, bindings, KeyState::Pressed) == FilterResult::Intercept(
            bindings[k].1,
        ),
        decide_spec(modifiers, syms, bindings, KeyState::Released) == FilterResult::Forward,
{
    lemma_first_match(bindings, modifiers, syms);
}

/// Of several bindings that all match a press, only the first in table order
/// is ever returned.
pub proof fn lemma_first_binding_wins(
    modifiers: Modifiers,
    syms: Seq<u32>,
    bindings: Seq<(KeyPattern, Action)>,
    k: int,
)
    requires
        0 <= k < bindings.len(),
        pattern_matches(bindings[k].0, modifiers, syms),
    ensures
        exists|i: int|
            0 <= i <= k && pattern_matches(bindings[i].0, modifiers, syms) && (forall|j: int|
                0 <= j < i ==> !pattern_matches(#[trigger] bindings[j].0, modifiers, syms))
                && decide_spec(modifiers, syms, bindings, KeyState::Pressed)
                == FilterResult::Intercept(bindings[i].1),
{
    lemma_first_match(bindings, modifiers, syms);
    let i = first_match(bindings, modifiers, syms).unwrap();
    assert(0 <= i <= k);
}

/// With no bindings, every key event goes on to the client.
pub proof fn lemma_empty_table_forwards(modifiers: Modifiers, syms: Seq<u32>, state: KeyState)
    ensures
        decide_spec(modifiers, syms, Seq::empty(), state) == FilterResult::Forward,
{
}

} // verus!
