//! Pending timers and the consolidated wake deadline.
//!
//! A deadline is a reading of a monotonic clock, counted in whole ticks from
//! an origin that the caller fixes once. The registry never reads a clock: the
//! caller hands it the current reading.

use crate::keys::key_list;
use std::collections::HashMap;
use vstd::prelude::*;

verus! {

/// Names one timer. Callers are expected to hand out each token once.
#[derive(Clone, Copy, Debug, PartialEq, Eq, Hash, Structural)]
pub struct TimerToken(pub u64);

/// A pending timer: who it is, when it is due, and what to run then.
///
/// The action is carried, never inspected: it leaves the registry together
/// with its timer, when the timer fires.
#[derive(Debug, PartialEq, Eq)]
pub struct Timer<A> {
    pub token: TimerToken,
    pub deadline: u64,
    pub action: A,
}

/// What the event loop is asked to do once it runs out of events.
#[derive(Clone, Copy, Debug, PartialEq, Eq, Structural)]
pub enum ControlFlow {
    /// Sleep until the next event arrives.
    Wait,
    /// Sleep until the next event arrives or the clock reaches the deadline.
    WaitUntil(u64),
}

/// `d` is the deadline of some held timer, and no held timer is due sooner.
pub open spec fn is_earliest<A>(timers: Map<u64, Timer<A>>, d: u64) -> bool {
    &&& exists|k: u64| #[trigger] timers.contains_key(k) && timers[k].deadline == d
    &&& forall|k: u64| #[trigger] timers.contains_key(k) ==> d <= timers[k].deadline
}

/// The wake deadline that a set of timers calls for: none when there is no
/// timer, the earliest deadline otherwise.
pub open spec fn wake_of<A>(timers: Map<u64, Timer<A>>, wake: Option<u64>) -> bool {
    match wake {
        None => timers.dom() =~= Set::<u64>::empty(),
        Some(d) => is_earliest(timers, d),
    }
}

/// The wake deadline that a set of timers calls for. For finitely many timers
/// there is one, and there is never more than one.
pub open spec fn next_wake<A>(timers: Map<u64, Timer<A>>) -> Option<u64> {
    choose|wake: Option<u64>| wake_of(timers, wake)
}

/// `flow` is what a set of timers calls for: waiting for the earliest
/// deadline where there is a timer, waiting for events alone where there is
/// none.
pub open spec fn schedules<A>(timers: Map<u64, Timer<A>>, flow: ControlFlow) -> bool {
    match flow {
        ControlFlow::Wait => wake_of(timers, None),
        ControlFlow::WaitUntil(d) => wake_of(timers, Some(d)),
    }
}

/// The tokens of the timers that are due at `now`.
pub open spec fn due_tokens<A>(timers: Map<u64, Timer<A>>, now: u64) -> Set<u64> {
    Set::new(|k: u64| timers.contains_key(k) && timers[k].deadline <= now)
}

/// `fired` holds every timer of `timers` that is due at `now`, each once, as
/// it was registered, the earliest deadline first.
pub open spec fn fired_at<A>(timers: Map<u64, Timer<A>>, now: u64, fired: Seq<Timer<A>>) -> bool {
    &&& forall|i: int|
        0 <= i < fired.len() ==> {
            &&& due_tokens(timers, now).contains(#[trigger] fired[i].token.0)
            &&& timers[fired[i].token.0] == fired[i]
        }
    &&& forall|k: u64|
        #[trigger] due_tokens(timers, now).contains(k) ==> exists|i: int|
            0 <= i < fired.len() && #[trigger] fired[i].token.0 == k
    &&& forall|i: int, j: int|
        0 <= i < j < fired.len() ==> #[trigger] fired[i].token != #[trigger] fired[j].token
    &&& forall|i: int, j: int|
        0 <= i <= j < fired.len() ==> #[trigger] fired[i].deadline <= #[trigger] fired[j].deadline
}

/// The timers that are waiting to fire, by token.
pub struct TimerRegistry<A> {
    /// Deadline and action of each pending timer, under its token's number.
    slots: HashMap<u64, (u64, A)>,
}

impl<A> View for TimerRegistry<A> {
    type V = Map<u64, Timer<A>>;

    /// The pending timers, each under the number of its own token.
    closed spec fn view(&self) -> Map<u64, Timer<A>> {
        Map::new(
            |k: u64| self.slots@.contains_key(k),
            |k: u64|
                Timer { token: TimerToken(k), deadline: self.slots@[k].0, action: self.slots@[k].1 },
        )
    }
}

impl<A> TimerRegistry<A> {
    /// Every pending timer is filed under its own token, and there are
    /// finitely many of them.
    pub proof fn lemma_keyed_by_token(&self)
        ensures
            self@.dom().finite(),
            forall|k: u64| #[trigger] self@.contains_key(k) ==> self@[k].token == TimerToken(k),
    {
        assert(self@.dom() =~= self.slots@.dom());
    }

    /// A registry that holds no timer.
    pub fn new() -> (registry: Self)
        ensures
            registry@ == Map::<u64, Timer<A>>::empty(),
    {
        let registry = TimerRegistry { slots: HashMap::new() };
        proof {
            assert(registry@ =~= Map::<u64, Timer<A>>::empty());
        }
        registry
    }

    /// How many timers are pending.
    pub fn len(&self) -> (n: usize)
        ensures
            n == self@.len(),
    {
        proof {
            assert(self@.dom() =~= self.slots@.dom());
        }
        self.slots.len()
    }

    /// Whether no timer is pending.
    pub fn is_empty(&self) -> (empty: bool)
        ensures
            empty <==> self@ == Map::<u64, Timer<A>>::empty(),
    {
        let empty = self.slots.is_empty();
        proof {
            assert(self@.dom() =~= self.slots@.dom());
            if empty {
                assert(self@ =~= Map::<u64, Timer<A>>::empty());
            }
        }
        empty
    }

    /// Registers a timer under its token. A timer already held under that
    /// token is replaced and handed back.
    pub fn request(&mut self, timer: Timer<A>) -> (replaced: Option<Timer<A>>)
        ensures
            final(self)@ == old(self)@.insert(timer.token.0, timer),
            replaced == if old(self)@.contains_key(timer.token.0) {
                Some(old(self)@[timer.token.0])
            } else {
                None::<Timer<A>>
            },
    {
        let Timer { token, deadline, action } = timer;
        let replaced = match self.slots.insert(token.0, (deadline, action)) {
            Some((deadline, action)) => Some(Timer { token, deadline, action }),
            None => None,
        };
        proof {
            assert(self@ =~= old(self)@.insert(timer.token.0, timer));
        }
        replaced
    }

    /// The deadline of the timer filed under `token`, if one is pending.
    pub fn deadline(&self, token: TimerToken) -> (deadline: Option<u64>)
        ensures
            deadline == if self@.contains_key(token.0) {
                Some(self@[token.0].deadline)
            } else {
                None::<u64>
            },
    {
        match self.slots.get(&token.0) {
            Some(slot) => Some(slot.0),
            None => None,
        }
    }

    /// The instant at which the event loop must wake next: the earliest
    /// deadline among the pending timers, or none when no timer is pending.
    pub fn compute_next_wake(&self) -> (wake: Option<u64>)
        ensures
            wake_of(self@, wake),
            wake == next_wake(self@),
    {
        let keys = key_list(&self.slots);
        let mut wake: Option<u64> = None;
        let mut i: usize = 0;
        while i < keys.len()
            invariant
                i <= keys.len(),
                keys@.to_set() == self.slots@.dom(),
                wake is None ==> i == 0,
                wake matches Some(d) ==> {
                    &&& exists|j: int| 0 <= j < i && self.slots@[#[trigger] keys@[j]].0 == d
                    &&& forall|j: int| 0 <= j < i ==> d <= self.slots@[#[trigger] keys@[j]].0
                },
            decreases keys.len() - i,
        {
            let key = keys[i];
            assert(keys@.to_set().contains(keys@[i as int]));
            if let Some(slot) = self.slots.get(&key) {
                wake = match wake {
                    Some(d) => if slot.0 < d { Some(slot.0) } else { Some(d) },
                    None => Some(slot.0),
                };
            }
            i += 1;
        }
        proof {
            match wake {
                Some(d) => {
                    let j = choose|j: int| 0 <= j < i && self.slots@[#[trigger] keys@[j]].0 == d;
                    assert(keys@.to_set().contains(keys@[j]));
                    assert(self@.contains_key(keys@[j]));
                    assert forall|k: u64| #[trigger] self@.contains_key(k) implies d <= self@[k].deadline by {
                        assert(keys@.to_set().contains(k));
                        let jk = choose|jk: int| 0 <= jk < keys@.len() && keys@[jk] == k;
                        assert(d <= self.slots@[keys@[jk]].0);
                    }
                },
                None => {
                    assert(keys@ =~= Seq::<u64>::empty());
                    assert(self@.dom() =~= Set::<u64>::empty());
                },
            }
            assert(wake_of(self@, wake));
            lemma_wake_unique(self@, wake, next_wake(self@));
        }
        wake
    }

    /// Takes out of the registry every timer that is due at `now`, that is
    /// whose deadline is not after `now`, and hands them over for their
    /// actions to be run: each once, the earliest deadline first. The timers
    /// that are not due stay as they are.
    pub fn fire_due(&mut self, now: u64) -> (fired: Vec<Timer<A>>)
        ensures
            final(self)@ == old(self)@.remove_keys(due_tokens(old(self)@, now)),
            fired_at(old(self)@, now, fired@),
            fired@.len() == due_tokens(old(self)@, now).len(),
    {
        let keys = key_list(&self.slots);
        let ghost before = self.slots@;
        let mut fired: Vec<Timer<A>> = Vec::new();
        let mut i: usize = 0;
        while i < keys.len()
            invariant
                i <= keys.len(),
                before == old(self).slots@,
                keys@.no_duplicates(),
                keys@.to_set() == before.dom(),
                forall|k: u64| #[trigger]
                    self.slots@.contains_key(k) <==> before.contains_key(k) && !(keys@.take(
                        i as int,
                    ).contains(k) && before[k].0 <= now),
                forall|k: u64| #[trigger]
                    self.slots@.contains_key(k) ==> self.slots@[k] == before[k],
                forall|x: int|
                    0 <= x < fired@.len() ==> {
                        let k = #[trigger] fired@[x].token.0;
                        &&& keys@.take(i as int).contains(k)
                        &&& before.contains_key(k)
                        &&& before[k].0 <= now
                        &&& fired@[x].deadline == before[k].0
                        &&& fired@[x].action == before[k].1
                    },
                forall|k: u64|
                    #[trigger] keys@.take(i as int).contains(k) && before[k].0 <= now
                        ==> exists|x: int| 0 <= x < fired@.len() && #[trigger] fired@[x].token.0 == k,
                forall|x: int, y: int|
                    0 <= x < y < fired@.len() ==> #[trigger] fired@[x].token != #[trigger] fired@[y].token,
                forall|x: int, y: int|
                    0 <= x <= y < fired@.len() ==> #[trigger] fired@[x].deadline
                        <= #[trigger] fired@[y].deadline,
            decreases keys.len() - i,
        {
            let key = keys[i];
            let ghost walked = keys@.take(i as int);
            let ghost walked_next = keys@.take(i as int + 1);
            let ghost fired_before = fired@;
            proof {
                assert(keys@.to_set().contains(keys@[i as int]));
                assert(walked_next =~= walked.push(key));
                assert(!walked.contains(key));
                assert(forall|k: u64| walked_next.contains(k) <==> walked.contains(k) || k == key) by {
                    assert forall|k: u64| walked_next.contains(k) implies walked.contains(k) || k
                        == key by {
                        let j = choose|j: int| 0 <= j < walked_next.len() && walked_next[j] == k;
                        if j < walked.len() {
                            assert(walked[j] == k);
                        }
                    }
                    assert forall|k: u64| walked.contains(k) || k == key implies walked_next.contains(
                        k,
                    ) by {
                        if k == key {
                            assert(walked_next[i as int] == k);
                        } else {
                            let j = choose|j: int| 0 <= j < walked.len() && walked[j] == k;
                            assert(walked_next[j] == k);
                        }
                    }
                }
            }
            let due = match self.slots.get(&key) {
                Some(slot) => slot.0 <= now,
                None => false,
            };
            if due {
                if let Some((deadline, action)) = self.slots.remove(&key) {
                    let at = insertion_point(&fired, deadline);
                    fired.insert(at, Timer { token: TimerToken(key), deadline, action });
                    proof {
                        let at = at as int;
                        assert forall|k: u64|
                            #[trigger] walked_next.contains(k) && before[k].0 <= now
                        implies exists|x: int| 0 <= x < fired@.len() && #[trigger] fired@[x].token.0 == k by {
                            if k == key {
                                assert(fired@[at].token.0 == k);
                            } else {
                                let x = choose|x: int| 0 <= x < fired_before.len() && #[trigger] fired_before[x].token.0 == k;
                                if x < at {
                                    assert(fired@[x].token.0 == k);
                                } else {
                                    assert(fired@[x + 1].token.0 == k);
                                }
                            }
                        }
                        assert forall|x: int| 0 <= x < fired@.len() implies ({
                            let k = #[trigger] fired@[x].token.0;
                            &&& walked_next.contains(k)
                            &&& before.contains_key(k)
                            &&& before[k].0 <= now
                            &&& fired@[x].deadline == before[k].0
                            &&& fired@[x].action == before[k].1
                        }) by {
                            if x < at {
                                assert(fired@[x] == fired_before[x]);
                            } else if x > at {
                                assert(fired@[x] == fired_before[x - 1]);
                            }
                        }
                        assert forall|x: int, y: int| 0 <= x < y < fired@.len() implies #[trigger] fired@[x].token != #[trigger] fired@[y].token by {
                            let xb = if x < at { x } else { x - 1 };
                            let yb = if y < at { y } else { y - 1 };
                            if x != at && y != at {
                                assert(fired@[x] == fired_before[xb]);
                                assert(fired@[y] == fired_before[yb]);
                            } else if x == at {
                                assert(fired@[y] == fired_before[yb]);
                                assert(walked.contains(fired_before[yb].token.0));
                            } else {
                                assert(fired@[x] == fired_before[xb]);
                                assert(walked.contains(fired_before[xb].token.0));
                            }
                        }
                        assert forall|x: int, y: int| 0 <= x <= y < fired@.len() implies #[trigger] fired@[x].deadline <= #[trigger] fired@[y].deadline by {
                            let xb = if x < at { x } else { x - 1 };
                            let yb = if y < at { y } else { y - 1 };
                            if x != at {
                                assert(fired@[x] == fired_before[xb]);
                            }
                            if y != at {
                                assert(fired@[y] == fired_before[yb]);
                            }
                        }
                    }
                }
            }
            i += 1;
        }
        proof {
            assert(keys@.take(i as int) =~= keys@);
            assert forall|k: u64| before.contains_key(k) implies keys@.contains(k) by {
                assert(keys@.to_set().contains(k));
            }
            assert(self@ =~= old(self)@.remove_keys(due_tokens(old(self)@, now)));
            assert forall|x: int| 0 <= x < fired@.len() implies ({
                &&& due_tokens(old(self)@, now).contains(#[trigger] fired@[x].token.0)
                &&& old(self)@[fired@[x].token.0] == fired@[x]
            }) by {
                let k = fired@[x].token.0;
                assert(fired@[x].token == TimerToken(k));
            }
            lemma_fired_count(old(self)@, now, fired@);
        }
        fired
    }
}

/// Where a timer due at `deadline` goes in a list ordered by deadline: behind
/// every timer that is due no later, before every timer that is due later.
fn insertion_point<A>(fired: &Vec<Timer<A>>, deadline: u64) -> (at: usize)
    requires
        forall|x: int, y: int|
            0 <= x <= y < fired@.len() ==> #[trigger] fired@[x].deadline
                <= #[trigger] fired@[y].deadline,
    ensures
        at <= fired@.len(),
        forall|x: int| 0 <= x < at ==> #[trigger] fired@[x].deadline <= deadline,
        forall|x: int| at <= x < fired@.len() ==> deadline < #[trigger] fired@[x].deadline,
{
    let mut at: usize = fired.len();
    while at > 0 && fired[at - 1].deadline > deadline
        invariant
            at <= fired@.len(),
            forall|x: int| at <= x < fired@.len() ==> deadline < #[trigger] fired@[x].deadline,
        decreases at,
    {
        at -= 1;
    }
    proof {
        if at > 0 {
            assert forall|x: int| 0 <= x < at implies #[trigger] fired@[x].deadline <= deadline by {
                assert(fired@[x].deadline <= fired@[at - 1].deadline);
            }
        }
    }
    at
}

/// As many timers fire as are due.
pub proof fn lemma_fired_count<A>(timers: Map<u64, Timer<A>>, now: u64, fired: Seq<Timer<A>>)
    requires
        fired_at(timers, now, fired),
    ensures
        due_tokens(timers, now).finite(),
        fired.len() == due_tokens(timers, now).len(),
{
    let tokens = fired.map_values(|t: Timer<A>| t.token.0);
    assert forall|x: int, y: int| 0 <= x < tokens.len() && 0 <= y < tokens.len() && x != y implies tokens[x] != tokens[y] by {
        if x < y {
            assert(fired[x].token != fired[y].token);
        } else {
            assert(fired[y].token != fired[x].token);
        }
    }
    assert forall|k: u64| due_tokens(timers, now).contains(k) implies tokens.to_set().contains(k) by {
        let x = choose|x: int| 0 <= x < fired.len() && #[trigger] fired[x].token.0 == k;
        assert(tokens[x] == k);
    }
    assert forall|k: u64| tokens.to_set().contains(k) implies due_tokens(timers, now).contains(k) by {
        let x = choose|x: int| 0 <= x < tokens.len() && tokens[x] == k;
        assert(due_tokens(timers, now).contains(fired[x].token.0));
    }
    assert(tokens.to_set() =~= due_tokens(timers, now));
    tokens.unique_seq_to_set();
}

/// Finitely many timers call for a wake deadline: none where there is no
/// timer, the least of their deadlines otherwise.
pub proof fn lemma_wake_exists<A>(timers: Map<u64, Timer<A>>)
    requires
        timers.dom().finite(),
    ensures
        wake_of(timers, next_wake(timers)),
        next_wake(timers) is None <==> timers.dom().len() == 0,
    decreases timers.dom().len(),
{
    if timers.dom().len() == 0 {
        assert(timers.dom() =~= Set::<u64>::empty());
        assert(wake_of(timers, None));
    } else {
        let k = timers.dom().choose();
        let rest = timers.remove(k);
        assert(rest.dom() =~= timers.dom().remove(k));
        lemma_wake_exists(rest);
        let least = match next_wake(rest) {
            Some(d) if d < timers[k].deadline => d,
            _ => timers[k].deadline,
        };
        assert(is_earliest(timers, least)) by {
            match next_wake(rest) {
                Some(d) => {
                    let kd = choose|kd: u64| #[trigger] rest.contains_key(kd) && rest[kd].deadline == d;
                    assert(timers.contains_key(kd) && timers[kd].deadline == d);
                    assert(timers.contains_key(k));
                },
                None => {
                    assert(timers.contains_key(k));
                },
            }
            assert forall|j: u64| #[trigger] timers.contains_key(j) implies least <= timers[j].deadline by {
                if j != k {
                    assert(rest.contains_key(j));
                    assert(rest.dom().contains(j));
                }
            }
        }
        assert(wake_of(timers, Some(least)));
    }
    let wake = next_wake(timers);
    if wake is None {
        if timers.dom().len() != 0 {
            assert(timers.dom().contains(timers.dom().choose()));
        }
    } else {
        let kd = choose|kd: u64| #[trigger] timers.contains_key(kd) && timers[kd].deadline == wake->0;
        assert(timers.dom().contains(kd));
    }
}

/// A set of timers calls for one wake deadline and no other.
pub proof fn lemma_wake_unique<A>(timers: Map<u64, Timer<A>>, a: Option<u64>, b: Option<u64>)
    requires
        wake_of(timers, a),
        wake_of(timers, b),
    ensures
        a == b,
{
    match (a, b) {
        (Some(x), Some(y)) => {
            let kx = choose|k: u64| #[trigger] timers.contains_key(k) && timers[k].deadline == x;
            let ky = choose|k: u64| #[trigger] timers.contains_key(k) && timers[k].deadline == y;
            assert(y <= timers[kx].deadline);
            assert(x <= timers[ky].deadline);
        },
        (Some(x), None) => {
            let kx = choose|k: u64| #[trigger] timers.contains_key(k) && timers[k].deadline == x;
            assert(timers.dom().contains(kx));
        },
        (None, Some(y)) => {
            let ky = choose|k: u64| #[trigger] timers.contains_key(k) && timers[k].deadline == y;
            assert(timers.dom().contains(ky));
        },
        (None, None) => {},
    }
}

/// Firing at `now` parts the timers in two: those that are due leave, and
/// those that are not stay as they were. Of what stays nothing is due at
/// `now`, so that the wake deadline of the rest lies after `now`.
pub proof fn lemma_fire_parts<A>(timers: Map<u64, Timer<A>>, now: u64)
    ensures
        ({
            let rest = timers.remove_keys(due_tokens(timers, now));
            &&& forall|k: u64| #[trigger]
                rest.contains_key(k) <==> timers.contains_key(k) && now < timers[k].deadline
            &&& forall|k: u64| #[trigger] rest.contains_key(k) ==> rest[k] == timers[k]
            &&& due_tokens(rest, now) == Set::<u64>::empty()
            &&& rest.remove_keys(due_tokens(rest, now)) == rest
            &&& forall|d: u64| wake_of(rest, Some(d)) ==> now < d
        }),
{
    let rest = timers.remove_keys(due_tokens(timers, now));
    assert(due_tokens(rest, now) =~= Set::<u64>::empty());
    assert(rest.remove_keys(due_tokens(rest, now)) =~= rest);
    assert forall|d: u64| wake_of(rest, Some(d)) implies now < d by {
        let k = choose|k: u64| #[trigger] rest.contains_key(k) && rest[k].deadline == d;
        assert(rest.contains_key(k));
    }
}

} // verus!
