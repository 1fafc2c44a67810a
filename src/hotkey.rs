use vstd::prelude::*;

verus! {

/// Whether a key went down or came up.
#[derive(Clone, Copy, Debug, PartialEq, Eq, Structural)]
pub enum KeyTransition {
    Press,
    Release,
}

/// The edge reported when the combination becomes held or stops being held.
#[derive(Clone, Copy, Debug, PartialEq, Eq, Structural)]
pub enum ComboTransition {
    Activated,
    Deactivated,
}

/// Logical identifier of the Alt key (either physical Alt key maps to it).
pub const ALT_KEY: u32 = 1;

/// Logical identifier of the Z key.
pub const Z_KEY: u32 = 2;

/// Abstract state of the hotkey machine: the member keys of the combination,
/// whether each one is held, and whether the combination counts as active.
pub ghost struct ComboView {
    pub members: Seq<u32>,
    pub held: Seq<bool>,
    pub active: bool,
}

/// True when every flag is set.
pub open spec fn all_held(held: Seq<bool>) -> bool {
    forall|i: int| 0 <= i < held.len() ==> #[trigger] held[i]
}

/// The held flags after `key` goes down or comes up: the flag of every slot
/// naming `key` takes the new state, the others keep theirs.
pub open spec fn held_after(members: Seq<u32>, held: Seq<bool>, key: u32, t: KeyTransition) -> Seq<bool> {
    Seq::new(held.len(), |i: int| if members[i] == key { t == KeyTransition::Press } else { held[i] })
}

/// One event applied to the machine. A press can only switch the combination
/// on (once every member is held); a release can only switch it off (as soon
/// as one member is up).
pub open spec fn step(s: ComboView, key: u32, t: KeyTransition) -> ComboView {
    let held = held_after(s.members, s.held, key, t);
    ComboView {
        members: s.members,
        held,
        active: match t {
            KeyTransition::Press => s.active || all_held(held),
            KeyTransition::Release => s.active && all_held(held),
        },
    }
}

/// The edge between two activity states, if any.
pub open spec fn edge(was: bool, now: bool) -> Option<ComboTransition> {
    if !was && now {
        Some(ComboTransition::Activated)
    } else if was && !now {
        Some(ComboTransition::Deactivated)
    } else {
        None
    }
}

/// The edge that one event reports from state `s`.
pub open spec fn signal(s: ComboView, key: u32, t: KeyTransition) -> Option<ComboTransition> {
    edge(s.active, step(s, key, t).active)
}

/// A state whose flag agrees with its held keys.
pub open spec fn consistent(s: ComboView) -> bool {
    &&& s.held.len() == s.members.len()
    &&& s.active == all_held(s.held)
}

/// The state at process start: nothing held, nothing active.
pub open spec fn initial(members: Seq<u32>) -> ComboView {
    ComboView { members, held: Seq::new(members.len(), |i: int| false), active: false }
}

/// The state after a whole sequence of events, applied in order.
pub open spec fn run(s: ComboView, events: Seq<(u32, KeyTransition)>) -> ComboView
    decreases events.len(),
{
    if events.len() == 0 {
        s
    } else {
        run(step(s, events[0].0, events[0].1), events.drop_first())
    }
}

/// One step keeps the activity flag equal to "every member is held".
pub proof fn lemma_step_consistent(s: ComboView, key: u32, t: KeyTransition)
    requires
        consistent(s),
    ensures
        consistent(step(s, key, t)),
{
    let n = step(s, key, t);
    match t {
        KeyTransition::Press => {
            if s.active {
                assert forall|i: int| 0 <= i < n.held.len() implies #[trigger] n.held[i] by {
                    assert(s.held[i]);
                }
            }
        },
        KeyTransition::Release => {
            if !s.active {
                assert(!all_held(n.held)) by {
                    let i = choose|i: int| 0 <= i < s.held.len() && !s.held[i];
                    assert(!n.held[i]);
                }
            }
        },
    }
}

/// For every sequence of key events on a non-empty combination, starting from
/// process start, the combination is active exactly when all of its members
/// are held.
pub proof fn lemma_active_iff_all_held(members: Seq<u32>, events: Seq<(u32, KeyTransition)>)
    requires
        members.len() > 0,
    ensures
        run(initial(members), events).active == all_held(run(initial(members), events).held),
        run(initial(members), events).held.len() == members.len(),
{
    assert(!initial(members).held[0]);
    lemma_run_consistent(initial(members), events);
}

/// Consistency holds after any sequence of events from a consistent state.
pub proof fn lemma_run_consistent(s: ComboView, events: Seq<(u32, KeyTransition)>)
    requires
        consistent(s),
    ensures
        consistent(run(s, events)),
        run(s, events).members == s.members,
    decreases events.len(),
{
    if events.len() > 0 {
        lemma_step_consistent(s, events[0].0, events[0].1);
        lemma_run_consistent(step(s, events[0].0, events[0].1), events.drop_first());
    }
}

/// Once the combination is active, pressing member keys again (any number of
/// times, with no release in between) reports no further activation and keeps
/// it active.
pub proof fn lemma_no_repeat_activation(s: ComboView, presses: Seq<u32>)
    requires
        consistent(s),
        s.active,
    ensures
        ({
            let events = Seq::new(presses.len(), |i: int| (presses[i], KeyTransition::Press));
            &&& run(s, events).active
            &&& forall|k: int| 0 <= k < presses.len() ==>
                signal(#[trigger] run(s, events.take(k)), presses[k], KeyTransition::Press).is_none()
        }),
{
    let events = Seq::new(presses.len(), |i: int| (presses[i], KeyTransition::Press));
    lemma_presses_stay_active(s, events);
    assert forall|k: int| 0 <= k < presses.len() implies
        signal(#[trigger] run(s, events.take(k)), presses[k], KeyTransition::Press).is_none() by {
        let pk = events.take(k);
        assert forall|j: int| 0 <= j < pk.len() implies #[trigger] pk[j].1 == KeyTransition::Press by {}
        lemma_presses_stay_active(s, pk);
    }
}

/// The press that completes an inactive combination reports the activation.
pub proof fn lemma_completing_press_activates(s: ComboView, key: u32)
    requires
        consistent(s),
        !s.active,
        all_held(held_after(s.members, s.held, key, KeyTransition::Press)),
    ensures
        signal(s, key, KeyTransition::Press) == Some(ComboTransition::Activated),
        step(s, key, KeyTransition::Press).active,
{
}

/// A run of presses never switches an active combination off.
pub proof fn lemma_presses_stay_active(s: ComboView, events: Seq<(u32, KeyTransition)>)
    requires
        s.active,
        forall|j: int| 0 <= j < events.len() ==> #[trigger] events[j].1 == KeyTransition::Press,
    ensures
        run(s, events).active,
    decreases events.len(),
{
    if events.len() > 0 {
        let rest = events.drop_first();
        assert forall|j: int| 0 <= j < rest.len() implies #[trigger] rest[j].1 == KeyTransition::Press by {
            assert(rest[j] == events[j + 1]);
        }
        lemma_presses_stay_active(step(s, events[0].0, events[0].1), rest);
    }
}

/// Releasing any one member of an active combination deactivates it, whatever
/// the other members do.
pub proof fn lemma_release_any_deactivates(s: ComboView, i: int)
    requires
        consistent(s),
        s.active,
        0 <= i < s.members.len(),
    ensures
        signal(s, s.members[i], KeyTransition::Release) == Some(ComboTransition::Deactivated),
{
    let n = step(s, s.members[i], KeyTransition::Release);
    assert(!n.held[i]);
}

/// The state a key's flag ends in after `events`, starting from `held`: the
/// last event on that key decides; with none, the flag keeps `held`.
pub open spec fn last_state(events: Seq<(u32, KeyTransition)>, key: u32, held: bool) -> bool
    decreases events.len(),
{
    if events.len() == 0 {
        held
    } else {
        last_state(
            events.drop_first(),
            key,
            if events[0].0 == key { events[0].1 == KeyTransition::Press } else { held },
        )
    }
}

/// After any sequence of events, each member's flag is held exactly when the
/// last event on that key was a press (or, with none, as it was before).
pub proof fn lemma_held_is_last_event(s: ComboView, events: Seq<(u32, KeyTransition)>, i: int)
    requires
        s.held.len() == s.members.len(),
        0 <= i < s.members.len(),
    ensures
        run(s, events).members == s.members,
        run(s, events).held.len() == s.members.len(),
        run(s, events).held[i] == last_state(events, s.members[i], s.held[i]),
    decreases events.len(),
{
    if events.len() > 0 {
        lemma_held_is_last_event(step(s, events[0].0, events[0].1), events.drop_first(), i);
    }
}

/// Pressing a member key of an active combination again (a key repeat)
/// reports nothing and changes nothing.
pub proof fn lemma_repeat_press_unchanged(s: ComboView, key: u32)
    requires
        consistent(s),
        s.active,
        s.members.contains(key),
    ensures
        step(s, key, KeyTransition::Press) == s,
        signal(s, key, KeyTransition::Press).is_none(),
{
    assert(step(s, key, KeyTransition::Press).held =~= s.held);
}

/// The other edge.
pub open spec fn flip(t: ComboTransition) -> ComboTransition {
    match t {
        ComboTransition::Activated => ComboTransition::Deactivated,
        ComboTransition::Deactivated => ComboTransition::Activated,
    }
}

/// The edges reported, in order, while `events` are applied from `s`.
pub open spec fn signals(s: ComboView, events: Seq<(u32, KeyTransition)>) -> Seq<ComboTransition>
    decreases events.len(),
{
    if events.len() == 0 {
        Seq::empty()
    } else {
        let rest = signals(step(s, events[0].0, events[0].1), events.drop_first());
        match signal(s, events[0].0, events[0].1) {
            Some(t) => seq![t] + rest,
            None => rest,
        }
    }
}

/// `ts` alternates between the two edges, starting with `first`.
pub open spec fn alternates(ts: Seq<ComboTransition>, first: ComboTransition) -> bool
    decreases ts.len(),
{
    ts.len() == 0 || (ts[0] == first && alternates(ts.drop_first(), flip(first)))
}

/// Over any sequence of events the reported edges alternate, beginning with
/// an activation when the combination starts inactive; it ends active
/// exactly when it started so and an even number of edges came, or started
/// inactive and an odd number came.
pub proof fn lemma_signals_alternate(s: ComboView, events: Seq<(u32, KeyTransition)>)
    requires
        consistent(s),
    ensures
        alternates(signals(s, events), if s.active { ComboTransition::Deactivated } else { ComboTransition::Activated }),
        run(s, events).active == (s.active != (signals(s, events).len() % 2 == 1)),
    decreases events.len(),
{
    if events.len() > 0 {
        let n = step(s, events[0].0, events[0].1);
        lemma_step_consistent(s, events[0].0, events[0].1);
        lemma_signals_alternate(n, events.drop_first());
        let rest = signals(n, events.drop_first());
        match signal(s, events[0].0, events[0].1) {
            Some(t) => {
                let all = seq![t] + rest;
                assert(all.drop_first() =~= rest);
                assert(all[0] == t);
            },
            None => {},
        }
    }
}

/// From process start, the edges alternate beginning with an activation,
/// and the combination ends active exactly when an odd number came.
pub proof fn lemma_signals_alternate_from_start(members: Seq<u32>, events: Seq<(u32, KeyTransition)>)
    requires
        members.len() > 0,
    ensures
        alternates(signals(initial(members), events), ComboTransition::Activated),
        run(initial(members), events).active == (signals(initial(members), events).len() % 2 == 1),
{
    assert(!initial(members).held[0]);
    lemma_signals_alternate(initial(members), events);
}

/// Held/released state of the keys of one combination, and whether the
/// combination as a whole is active.
pub struct ComboState {
    members: Vec<u32>,
    held: Vec<bool>,
    active: bool,
}

impl View for ComboState {
    type V = ComboView;

    closed spec fn view(&self) -> ComboView {
        ComboView { members: self.members@, held: self.held@, active: self.active }
    }
}

impl ComboState {
    /// The machine's invariant: a non-empty combination, one flag per member,
    /// and the activity flag equal to "every member is held".
    pub open spec fn wf(&self) -> bool {
        &&& self@.members.len() > 0
        &&& consistent(self@)
    }

    /// A machine for the combination `members`, with no key held; `None` when
    /// the combination is empty.
    pub fn new(members: Vec<u32>) -> (r: Option<ComboState>)
        ensures
            members@.len() == 0 <==> r.is_none(),
            r matches Some(c) ==> c.wf() && c@ == initial(members@),
    {
        if members.len() == 0 {
            return None;
        }
        let mut held: Vec<bool> = Vec::new();
        let mut i: usize = 0;
        while i < members.len()
            invariant
                i <= members@.len(),
                held@ == Seq::new(i as nat, |j: int| false),
            decreases members@.len() - i,
        {
            held.push(false);
            i = i + 1;
        }
        let r = ComboState { members, held, active: false };
        assert(!r.held@[0]);
        assert(r@.held =~= initial(r@.members).held);
        Some(r)
    }

    /// The machine for the dictation hotkey, Alt together with Z.
    pub fn alt_z() -> (r: ComboState)
        ensures
            r.wf(),
            r@ == initial(seq![ALT_KEY, Z_KEY]),
    {
        let r = ComboState { members: vec![ALT_KEY, Z_KEY], held: vec![false, false], active: false };
        assert(!r.held@[0]);
        assert(r@.held =~= initial(r@.members).held);
        assert(r@.members =~= seq![ALT_KEY, Z_KEY]);
        r
    }

    /// Whether the combination is currently active.
    pub fn is_active(&self) -> (r: bool)
        ensures
            r == self@.active,
    {
        self.active
    }

    /// Whether the member in slot `i` is currently held.
    pub fn is_held(&self, i: usize) -> (r: bool)
        requires
            i < self@.held.len(),
        ensures
            r == self@.held[i as int],
    {
        self.held[i]
    }

    /// Feeds one key event to the machine. Keys outside the combination leave
    /// it unchanged. Returns `Activated` on the event that completes the
    /// combination, `Deactivated` on the first release of a member while it
    /// is active, and `None` otherwise.
    pub fn on_key_event(&mut self, key: u32, t: KeyTransition) -> (r: Option<ComboTransition>)
        requires
            old(self).wf(),
        ensures
            final(self).wf(),
            final(self)@ == step(old(self)@, key, t),
            r == signal(old(self)@, key, t),
            !old(self)@.members.contains(key) ==> final(self)@ == old(self)@ && r.is_none(),
    {
        let ghost prev = self@;
        let pressed = t == KeyTransition::Press;
        let mut i: usize = 0;
        while i < self.held.len()
            invariant
                i <= self.held@.len(),
                self.held@.len() == prev.held.len(),
                self.members@ == prev.members,
                self.active == prev.active,
                prev.held.len() == prev.members.len(),
                pressed == (t == KeyTransition::Press),
                forall|j: int| 0 <= j < i ==> self.held@[j] == #[trigger] held_after(prev.members, prev.held, key, t)[j],
                forall|j: int| i <= j < self.held@.len() ==> #[trigger] self.held@[j] == prev.held[j],
            decreases self.held@.len() - i,
        {
            if self.members[i] == key {
                self.held.set(i, pressed);
            }
            i = i + 1;
        }
        assert(self.held@ =~= held_after(prev.members, prev.held, key, t));
        let all = every_held(&self.held);
        let r = if pressed {
            if all && !self.active {
                self.active = true;
                Some(ComboTransition::Activated)
            } else {
                None
            }
        } else {
            if self.active && !all {
                self.active = false;
                Some(ComboTransition::Deactivated)
            } else {
                None
            }
        };
        proof {
            lemma_step_consistent(prev, key, t);
            if !prev.members.contains(key) {
                assert(self.held@ =~= prev.held);
            }
        }
        r
    }
}

/// Whether every flag is set.
pub fn every_held(held: &Vec<bool>) -> (r: bool)
    ensures
        r == all_held(held@),
{
    let mut i: usize = 0;
    while i < held.len()
        invariant
            i <= held@.len(),
            forall|j: int| 0 <= j < i ==> #[trigger] held@[j],
        decreases held@.len() - i,
    {
        if !held[i] {
            return false;
        }
        i = i + 1;
    }
    true
}

} // verus!
