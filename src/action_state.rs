//! [`ActionState`]: one timed virtual button per action of an action set.

use vstd::prelude::*;
use core::marker::PhantomData;
use crate::actionlike::{enumerates, lemma_position_identifies, Actionlike};
use crate::button_state::VirtualButtonState;
use crate::time::Instant;

verus! {

/// Does some entry of `set` sit at position `i`?
pub open spec fn lists_position<A: Actionlike>(set: Seq<A>, i: nat) -> bool {
    exists|j: int| 0 <= j < set.len() && (#[trigger] set[j]).spec_index() == i
}

/// `found` names, once each and in enumeration order, exactly the positions
/// of `states` whose button satisfies `p`.
pub open spec fn lists_exactly<A: Actionlike>(
    found: Seq<A>,
    states: Seq<VirtualButtonState>,
    p: spec_fn(VirtualButtonState) -> bool,
) -> bool {
    &&& forall|k: int| 0 <= k < found.len() ==>
        (#[trigger] found[k]).spec_index() < states.len() && p(states[found[k].spec_index() as int])
    &&& forall|i: int| 0 <= i < states.len() && p(#[trigger] states[i]) ==> lists_position(found, i as nat)
    &&& forall|k1: int, k2: int| 0 <= k1 < k2 < found.len() ==>
        (#[trigger] found[k1]).spec_index() < (#[trigger] found[k2]).spec_index()
}

/// `states` with the button at position `i` pressed.
pub open spec fn spec_press_at(states: Seq<VirtualButtonState>, i: nat) -> Seq<VirtualButtonState> {
    states.update(i as int, states[i as int].after_press())
}

/// `states` with the button at position `i` released.
pub open spec fn spec_release_at(states: Seq<VirtualButtonState>, i: nat) -> Seq<VirtualButtonState> {
    states.update(i as int, states[i as int].after_release())
}

/// `states` with every button released.
pub open spec fn spec_release_all(states: Seq<VirtualButtonState>) -> Seq<VirtualButtonState> {
    Seq::new(states.len(), |i: int| states[i].after_release())
}

/// `states` brought in line with `set`: the buttons it lists pressed, all others released.
pub open spec fn spec_update<A: Actionlike>(states: Seq<VirtualButtonState>, set: Seq<A>) -> Seq<VirtualButtonState> {
    Seq::new(
        states.len(),
        |i: int|
            if lists_position(set, i as nat) {
                states[i].after_press()
            } else {
                states[i].after_release()
            },
    )
}

/// `states` after one tick at `now`.
pub open spec fn spec_tick_all(states: Seq<VirtualButtonState>, now: Instant) -> Seq<VirtualButtonState> {
    Seq::new(states.len(), |i: int| states[i].after_tick(now))
}

/// Stores the canonical, input-method-agnostic state of every action of `A`.
///
/// The button of each action sits at that action's position in the
/// enumeration of `A`; there is exactly one per action, always.
#[derive(Debug, PartialEq)]
pub struct ActionState<A: Actionlike> {
    states: Vec<VirtualButtonState>,
    marker: PhantomData<A>,
}

impl<A: Actionlike> View for ActionState<A> {
    type V = Seq<VirtualButtonState>;

    closed spec fn view(&self) -> Seq<VirtualButtonState> {
        self.states@
    }
}

impl<A: Actionlike> ActionState<A> {
    /// One button for each action, at the action's position.
    pub open spec fn wf(&self) -> bool {
        &&& self@.len() == A::spec_count()
        &&& enumerates::<A>()
    }

    /// The button of `action`.
    pub open spec fn spec_state(&self, action: A) -> VirtualButtonState {
        self@[action.spec_index() as int]
    }

    /// A table with one default value per action, at the action's position.
    pub fn default_map<V: Default>() -> (r: Vec<V>)
        ensures
            r@.len() == A::spec_count(),
            forall|i: int| 0 <= i < r@.len() ==> call_ensures(V::default, (), #[trigger] r@[i]),
    {
        let n = A::count();
        let mut map: Vec<V> = Vec::new();
        let mut i: usize = 0;
        while i < n
            invariant
                n == A::spec_count(),
                i <= n,
                map@.len() == i,
                forall|k: int| 0 <= k < map@.len() ==> call_ensures(V::default, (), #[trigger] map@[k]),
            decreases n - i,
        {
            map.push(V::default());
            i = i + 1;
        }
        map
    }

    /// Gets the state of `action`, timing included.
    pub fn state(&self, action: A) -> (r: VirtualButtonState)
        requires
            self.wf(),
        ensures
            r == self.spec_state(action),
    {
        self.states[action.index()]
    }

    /// Overwrites the state of `action`.
    ///
    /// [`Self::press`] and [`Self::release`] keep the durations right; this is
    /// for moving a state, timing and all, from elsewhere.
    pub fn set_state(&mut self, action: A, state: VirtualButtonState)
        requires
            old(self).wf(),
        ensures
            final(self).wf(),
            final(self)@ == old(self)@.update(action.spec_index() as int, state),
            final(self).spec_state(action) == state,
            forall|b: A| b != action ==> final(self).spec_state(b) == old(self).spec_state(b),
    {
        proof {
            assert forall|b: A| b != action implies b.spec_index() != action.spec_index() by {
                if b.spec_index() == action.spec_index() {
                    lemma_position_identifies(b, action);
                }
            }
        }
        let i = action.index();
        self.states[i] = state;
    }

    /// Presses `action`; a button already pressed is left as it is.
    pub fn press(&mut self, action: A)
        requires
            old(self).wf(),
        ensures
            final(self).wf(),
            final(self)@ == spec_press_at(old(self)@, action.spec_index()),
            final(self).spec_state(action) == old(self).spec_state(action).after_press(),
            forall|b: A| b != action ==> final(self).spec_state(b) == old(self).spec_state(b),
    {
        proof {
            assert forall|b: A| b != action implies b.spec_index() != action.spec_index() by {
                if b.spec_index() == action.spec_index() {
                    lemma_position_identifies(b, action);
                }
            }
        }
        let i = action.index();
        let next = self.states[i].press();
        self.states[i] = next;
    }

    /// Releases `action`; a button already released is left as it is.
    pub fn release(&mut self, action: A)
        requires
            old(self).wf(),
        ensures
            final(self).wf(),
            final(self)@ == spec_release_at(old(self)@, action.spec_index()),
            final(self).spec_state(action) == old(self).spec_state(action).after_release(),
            forall|b: A| b != action ==> final(self).spec_state(b) == old(self).spec_state(b),
    {
        proof {
            assert forall|b: A| b != action implies b.spec_index() != action.spec_index() by {
                if b.spec_index() == action.spec_index() {
                    lemma_position_identifies(b, action);
                }
            }
        }
        let i = action.index();
        let next = self.states[i].release();
        self.states[i] = next;
    }

    /// Releases every action.
    pub fn release_all(&mut self)
        requires
            old(self).wf(),
        ensures
            final(self).wf(),
            final(self)@ == spec_release_all(old(self)@),
            forall|a: A| #[trigger] final(self).spec_state(a) == old(self).spec_state(a).after_release(),
    {
        let n = self.states.len();
        let mut i: usize = 0;
        while i < n
            invariant
                n == old(self)@.len(),
                i <= n,
                self@.len() == n,
                forall|k: int| 0 <= k < i ==> self@[k] == (#[trigger] old(self)@[k]).after_release(),
                forall|k: int| i <= k < n ==> self@[k] == old(self)@[k],
            decreases n - i,
        {
            let next = self.states[i].release();
            self.states[i] = next;
            i = i + 1;
        }
        assert(self@ =~= spec_release_all(old(self)@));
        proof {
            assert forall|a: A| #[trigger] self.spec_state(a) == old(self).spec_state(a).after_release() by {
                assert(a.spec_index() < n);
            }
        }
    }

    /// Brings every button in line with `pressed_set`: the actions it lists
    /// are pressed, all others released.
    ///
    /// Meant to be called once per frame; several presses and releases
    /// between two calls collapse into one.
    pub fn update(&mut self, pressed_set: &[A])
        requires
            old(self).wf(),
        ensures
            final(self).wf(),
            final(self)@ == spec_update(old(self)@, pressed_set@),
            forall|a: A|
                #[trigger] final(self).spec_state(a) == if pressed_set@.contains(a) {
                    old(self).spec_state(a).after_press()
                } else {
                    old(self).spec_state(a).after_release()
                },
    {
        let n = self.states.len();
        let mut i: usize = 0;
        while i < n
            invariant
                n == old(self)@.len(),
                i <= n,
                self@.len() == n,
                forall|k: int| 0 <= k < i ==> self@[k] == #[trigger] spec_update(old(self)@, pressed_set@)[k],
                forall|k: int| i <= k < n ==> self@[k] == old(self)@[k],
            decreases n - i,
        {
            let next = if lists(pressed_set, i) {
                self.states[i].press()
            } else {
                self.states[i].release()
            };
            self.states[i] = next;
            i = i + 1;
        }
        assert(self@ =~= spec_update(old(self)@, pressed_set@));
        proof {
            assert forall|a: A|
                #[trigger] self.spec_state(a) == if pressed_set@.contains(a) {
                    old(self).spec_state(a).after_press()
                } else {
                    old(self).spec_state(a).after_release()
                } by {
                lemma_lists_position_of_action(pressed_set@, a);
            }
        }
    }

    /// Advances the time of every button to `now`.
    ///
    /// A button that changed since the last tick records `now` as the instant
    /// it entered its state, with a zero duration; any other button's current
    /// duration becomes the span from that instant to `now`. An earlier `now`
    /// than the recorded instant gives a zero span.
    pub fn tick(&mut self, now: Instant)
        requires
            old(self).wf(),
        ensures
            final(self).wf(),
            final(self)@ == spec_tick_all(old(self)@, now),
            forall|a: A| #[trigger] final(self).spec_state(a) == old(self).spec_state(a).after_tick(now),
    {
        let n = self.states.len();
        let mut i: usize = 0;
        while i < n
            invariant
                n == old(self)@.len(),
                i <= n,
                self@.len() == n,
                forall|k: int| 0 <= k < i ==> self@[k] == (#[trigger] old(self)@[k]).after_tick(now),
                forall|k: int| i <= k < n ==> self@[k] == old(self)@[k],
            decreases n - i,
        {
            let next = self.states[i].tick(now);
            self.states[i] = next;
            i = i + 1;
        }
        assert(self@ =~= spec_tick_all(old(self)@, now));
        proof {
            assert forall|a: A| #[trigger] self.spec_state(a) == old(self).spec_state(a).after_tick(now) by {
                assert(a.spec_index() < n);
            }
        }
    }

    /// Is `action` currently pressed?
    pub fn pressed(&self, action: A) -> (r: bool)
        requires
            self.wf(),
        ensures
            r == self.spec_state(action).is_pressed(),
    {
        self.state(action).pressed()
    }

    /// Was `action` pressed since the last tick?
    pub fn just_pressed(&self, action: A) -> (r: bool)
        requires
            self.wf(),
        ensures
            r == self.spec_state(action).is_just_pressed(),
    {
        self.state(action).just_pressed()
    }

    /// Is `action` currently released? Always the negation of [`Self::pressed`].
    pub fn released(&self, action: A) -> (r: bool)
        requires
            self.wf(),
        ensures
            r == !self.spec_state(action).is_pressed(),
    {
        self.state(action).released()
    }

    /// Was `action` released since the last tick?
    pub fn just_released(&self, action: A) -> (r: bool)
        requires
            self.wf(),
        ensures
            r == self.spec_state(action).is_just_released(),
    {
        self.state(action).just_released()
    }

    /// The actions whose button satisfies `query`, once each, in enumeration order.
    fn actions_where(&self, query: Query) -> (r: Vec<A>)
        requires
            self.wf(),
        ensures
            lists_exactly(r@, self@, |s: VirtualButtonState| query.holds(s)),
            forall|a: A| r@.contains(a) <==> query.holds(self.spec_state(a)),
    {
        let n = A::count();
        let mut found: Vec<A> = Vec::new();
        let mut i: usize = 0;
        while i < n
            invariant
                self.wf(),
                n == A::spec_count(),
                i <= n,
                forall|k: int| 0 <= k < found@.len() ==>
                    (#[trigger] found@[k]).spec_index() < i && query.holds(self@[found@[k].spec_index() as int]),
                forall|j: int| 0 <= j < i && query.holds(#[trigger] self@[j]) ==> lists_position(found@, j as nat),
                forall|k1: int, k2: int| 0 <= k1 < k2 < found@.len() ==>
                    (#[trigger] found@[k1]).spec_index() < (#[trigger] found@[k2]).spec_index(),
            decreases n - i,
        {
            if query.check(&self.states[i]) {
                let action = A::from_index(i);
                let ghost before = found@;
                found.push(action);
                proof {
                    assert(found@[before.len() as int] == action);
                    assert forall|j: int| 0 <= j < i + 1 && query.holds(#[trigger] self@[j]) implies lists_position(found@, j as nat) by {
                        if j < i {
                            let k = choose|k: int| 0 <= k < before.len() && (#[trigger] before[k]).spec_index() == j as nat;
                            assert(found@[k] == before[k]);
                        }
                    }
                }
            }
            i = i + 1;
        }
        proof {
            assert forall|a: A| found@.contains(a) <==> query.holds(self.spec_state(a)) by {
                if found@.contains(a) {
                    let k = choose|k: int| 0 <= k < found@.len() && found@[k] == a;
                    assert(found@[k].spec_index() < n);
                }
                if query.holds(self.spec_state(a)) {
                    let j = a.spec_index() as int;
                    assert(query.holds(self@[j]));
                    let k = choose|k: int| 0 <= k < found@.len() && (#[trigger] found@[k]).spec_index() == j as nat;
                    lemma_position_identifies(found@[k], a);
                }
            }
        }
        found
    }

    /// Which actions are currently pressed?
    pub fn get_pressed(&self) -> (r: Vec<A>)
        requires
            self.wf(),
        ensures
            lists_exactly(r@, self@, |s: VirtualButtonState| s.is_pressed()),
            forall|a: A| r@.contains(a) <==> self.spec_state(a).is_pressed(),
    {
        self.actions_where(Query::Pressed)
    }

    /// Which actions were pressed since the last tick?
    pub fn get_just_pressed(&self) -> (r: Vec<A>)
        requires
            self.wf(),
        ensures
            lists_exactly(r@, self@, |s: VirtualButtonState| s.is_just_pressed()),
            forall|a: A| r@.contains(a) <==> self.spec_state(a).is_just_pressed(),
    {
        self.actions_where(Query::JustPressed)
    }

    /// Which actions are currently released?
    pub fn get_released(&self) -> (r: Vec<A>)
        requires
            self.wf(),
        ensures
            lists_exactly(r@, self@, |s: VirtualButtonState| !s.is_pressed()),
            forall|a: A| r@.contains(a) <==> !self.spec_state(a).is_pressed(),
    {
        self.actions_where(Query::Released)
    }

    /// Which actions were released since the last tick?
    pub fn get_just_released(&self) -> (r: Vec<A>)
        requires
            self.wf(),
        ensures
            lists_exactly(r@, self@, |s: VirtualButtonState| s.is_just_released()),
            forall|a: A| r@.contains(a) <==> self.spec_state(a).is_just_released(),
    {
        self.actions_where(Query::JustReleased)
    }
}

/// Lets one entity drive the [`ActionState`] of another: activating it acts
/// on `action` of the entity that `entity` identifies.
#[derive(Clone, Copy, Debug, PartialEq, Eq, Hash)]
pub struct ActionStateDriver<A: Actionlike, ID> {
    /// The action this entity triggers.
    pub action: A,
    /// The entity whose action state is updated.
    pub entity: ID,
}

/// A press or release of one action, without timing, for transport between
/// processes or decoupled consumers.
///
/// `id` is a stable identifier of the entity that owns the [`ActionState`],
/// so that a receiver can route the diff.
#[derive(Clone, Debug, PartialEq, Eq, Hash)]
pub enum ActionDiff<A: Actionlike, ID> {
    /// The virtual button was pressed.
    Pressed {
        /// The action.
        action: A,
        /// The stable identifier of the entity.
        id: ID,
    },
    /// The virtual button was released.
    Released {
        /// The action.
        action: A,
        /// The stable identifier of the entity.
        id: ID,
    },
}

/// A predicate on a button, for collecting the actions that satisfy it.
#[derive(Clone, Copy)]
enum Query {
    Pressed,
    JustPressed,
    Released,
    JustReleased,
}

impl Query {
    spec fn holds(self, s: VirtualButtonState) -> bool {
        match self {
            Query::Pressed => s.is_pressed(),
            Query::JustPressed => s.is_just_pressed(),
            Query::Released => !s.is_pressed(),
            Query::JustReleased => s.is_just_released(),
        }
    }

    fn check(&self, s: &VirtualButtonState) -> (r: bool)
        ensures
            r == self.holds(*s),
    {
        match self {
            Query::Pressed => s.pressed(),
            Query::JustPressed => s.just_pressed(),
            Query::Released => s.released(),
            Query::JustReleased => s.just_released(),
        }
    }
}

/// Does some entry of `set` sit at position `i`?
fn lists<A: Actionlike>(set: &[A], i: usize) -> (r: bool)
    ensures
        r == lists_position(set@, i as nat),
{
    let mut j: usize = 0;
    while j < set.len()
        invariant
            j <= set@.len(),
            forall|k: int| 0 <= k < j ==> (#[trigger] set@[k]).spec_index() != i,
        decreases set@.len() - j,
    {
        if set[j].index() == i {
            return true;
        }
        j = j + 1;
    }
    false
}

impl<A: Actionlike> Clone for ActionState<A> {
    fn clone(&self) -> (r: ActionState<A>)
        ensures
            r@ == self@,
    {
        let states = self.states.clone();
        assert(states@ =~= self.states@);
        ActionState { states, marker: PhantomData }
    }
}

impl<A: Actionlike> Default for ActionState<A> {
    /// Every action released and untimed.
    fn default() -> (r: ActionState<A>)
        ensures
            r.wf(),
            forall|i: int| 0 <= i < r@.len() ==> #[trigger] r@[i] == VirtualButtonState::spec_default(),
    {
        let n = A::count();
        let mut states: Vec<VirtualButtonState> = Vec::new();
        let mut i: usize = 0;
        while i < n
            invariant
                n == A::spec_count(),
                i <= n,
                states@.len() == i,
                forall|k: int| 0 <= k < states@.len() ==> #[trigger] states@[k] == VirtualButtonState::spec_default(),
            decreases n - i,
        {
            states.push(VirtualButtonState::default());
            i = i + 1;
        }
        ActionState { states, marker: PhantomData }
    }
}

/// Pressing an action that is already pressed, or releasing one that is
/// already released, leaves every button as it was.
pub proof fn lemma_press_release_at_idempotent(states: Seq<VirtualButtonState>, i: nat)
    requires
        i < states.len(),
    ensures
        states[i as int].is_pressed() ==> spec_press_at(states, i) == states,
        !states[i as int].is_pressed() ==> spec_release_at(states, i) == states,
{
    assert(states[i as int].is_pressed() ==> spec_press_at(states, i) =~= states);
    assert(!states[i as int].is_pressed() ==> spec_release_at(states, i) =~= states);
}

/// An entry of `set` sits at the position of `a` just when `a` is in `set`.
pub proof fn lemma_lists_position_of_action<A: Actionlike>(set: Seq<A>, a: A)
    requires
        enumerates::<A>(),
    ensures
        lists_position(set, a.spec_index()) <==> set.contains(a),
{
    if lists_position(set, a.spec_index()) {
        let j = choose|j: int| 0 <= j < set.len() && (#[trigger] set[j]).spec_index() == a.spec_index();
        lemma_position_identifies(set[j], a);
    }
    if set.contains(a) {
        let j = choose|j: int| 0 <= j < set.len() && set[j] == a;
        assert(set[j].spec_index() == a.spec_index());
    }
}

/// Updating with a set that holds exactly the pressed actions changes nothing.
pub proof fn lemma_update_with_pressed_set_is_noop<A: Actionlike>(s: ActionState<A>, set: Seq<A>)
    requires
        s.wf(),
        forall|a: A| set.contains(a) <==> s.spec_state(a).is_pressed(),
    ensures
        spec_update(s@, set) == s@,
{
    assert forall|i: int| 0 <= i < s@.len() implies #[trigger] spec_update(s@, set)[i] == s@[i] by {
        let a = A::spec_from_index(i as nat);
        assert(a.spec_index() == i as nat);
        lemma_lists_position_of_action(set, a);
    }
    assert(spec_update(s@, set) =~= s@);
}

} // verus!
