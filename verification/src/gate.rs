//! One-shot latch for condition-triggered events.

use vstd::prelude::*;

verus! {

/// What a [`TriggerGate`] stands for.
pub struct GateModel {
    /// It has not fired yet.
    pub armed: bool,
    /// It suppresses nothing.
    pub allow_duplicates: bool,
}

impl GateModel {
    /// Whether evaluating `condition` on this gate fires.
    pub open spec fn fires(self, condition: bool) -> bool {
        condition && (self.armed || self.allow_duplicates)
    }

    /// This latch after evaluating `condition`.
    pub open spec fn after(self, condition: bool) -> GateModel {
        GateModel { armed: self.armed && !condition, allow_duplicates: self.allow_duplicates }
    }

    /// This latch after evaluating `conditions` one after the other.
    pub open spec fn after_all(self, conditions: Seq<bool>) -> GateModel
        decreases conditions.len(),
    {
        if conditions.len() == 0 {
            self
        } else {
            self.after_all(conditions.drop_last()).after(conditions.last())
        }
    }

    /// Whether the evaluation number `i` of `conditions` fires.
    pub open spec fn fires_at(self, conditions: Seq<bool>, i: int) -> bool {
        self.after_all(conditions.take(i)).fires(conditions[i])
    }

    /// How many of the evaluations of `conditions` fire.
    pub open spec fn fire_count(self, conditions: Seq<bool>) -> nat
        decreases conditions.len(),
    {
        if conditions.len() == 0 {
            0
        } else {
            self.fire_count(conditions.drop_last()) + if self.fires_at(
                conditions,
                conditions.len() - 1,
            ) {
                1nat
            } else {
                0nat
            }
        }
    }
}

/// How many of `conditions` are true.
pub open spec fn true_count(conditions: Seq<bool>) -> nat
    decreases conditions.len(),
{
    if conditions.len() == 0 {
        0
    } else {
        true_count(conditions.drop_last()) + if conditions.last() {
            1nat
        } else {
            0nat
        }
    }
}

/// A gate stays armed exactly as long as no condition was true, and never
/// changes whether it allows duplicates.
pub proof fn lemma_after_all(gate: GateModel, conditions: Seq<bool>)
    ensures
        gate.after_all(conditions).allow_duplicates == gate.allow_duplicates,
        gate.after_all(conditions).armed == (gate.armed && forall|j: int|
            0 <= j < conditions.len() ==> !conditions[j]),
    decreases conditions.len(),
{
    if conditions.len() > 0 {
        let front = conditions.drop_last();
        lemma_after_all(gate, front);
        assert(forall|j: int| 0 <= j < front.len() ==> front[j] == conditions[j]);
        if gate.armed && forall|j: int| 0 <= j < conditions.len() ==> !conditions[j] {
            assert(forall|j: int| 0 <= j < front.len() ==> !front[j]);
        }
    }
}

/// Where a gate fires: a gate that allows duplicates, on every true
/// condition; any other gate on the first true condition, if it was armed,
/// and nowhere else.
pub proof fn lemma_fires_at(gate: GateModel, conditions: Seq<bool>, i: int)
    requires
        0 <= i < conditions.len(),
    ensures
        gate.fires_at(conditions, i) <==> conditions[i] && (gate.allow_duplicates || (gate.armed
            && forall|j: int| 0 <= j < i ==> !conditions[j])),
{
    let before = conditions.take(i);
    lemma_after_all(gate, before);
    assert(forall|j: int| 0 <= j < i ==> before[j] == conditions[j]);
    if forall|j: int| 0 <= j < i ==> !conditions[j] {
        assert(forall|j: int| 0 <= j < before.len() ==> !before[j]);
    }
}

/// A gate that does not allow duplicates fires at most once, however the
/// condition comes and goes; once disarmed it never fires.
pub proof fn lemma_at_most_once(gate: GateModel, conditions: Seq<bool>)
    requires
        !gate.allow_duplicates,
    ensures
        gate.fire_count(conditions) <= 1,
        !gate.armed ==> gate.fire_count(conditions) == 0,
        gate.fire_count(conditions) == 1 <==> gate.armed && exists|j: int|
            0 <= j < conditions.len() && conditions[j],
    decreases conditions.len(),
{
    if conditions.len() > 0 {
        let front = conditions.drop_last();
        let last = conditions.len() - 1;
        lemma_at_most_once(gate, front);
        lemma_fires_at(gate, conditions, last);
        assert(forall|j: int| 0 <= j < front.len() ==> front[j] == conditions[j]);
        if exists|j: int| 0 <= j < front.len() && front[j] {
            let j = choose|j: int| 0 <= j < front.len() && front[j];
            assert(conditions[j]);
        }
        if gate.armed && gate.fire_count(conditions) == 0 {
            assert forall|j: int| 0 <= j < conditions.len() implies !conditions[j] by {
                if j < last {
                    assert(!front[j]);
                }
            }
        }
    }
}

/// A gate that allows duplicates suppresses nothing: it fires as often as the
/// condition is true.
pub proof fn lemma_no_suppression(gate: GateModel, conditions: Seq<bool>)
    requires
        gate.allow_duplicates,
    ensures
        gate.fire_count(conditions) == true_count(conditions),
    decreases conditions.len(),
{
    if conditions.len() > 0 {
        lemma_no_suppression(gate, conditions.drop_last());
        lemma_fires_at(gate, conditions, conditions.len() - 1);
    }
}

/// Guards "emit this event when the condition becomes true".
///
/// A gate starts armed. The first evaluation with a true condition fires and
/// disarms it, and nothing arms it again. A gate that allows duplicates fires
/// on every evaluation with a true condition, armed or not.
#[derive(Clone, Copy, Debug)]
pub struct TriggerGate {
    armed: bool,
    allow_duplicates: bool,
}

impl View for TriggerGate {
    type V = GateModel;

    closed spec fn view(&self) -> GateModel {
        GateModel { armed: self.armed, allow_duplicates: self.allow_duplicates }
    }
}

impl TriggerGate {
    /// An armed gate that fires once.
    pub fn new() -> (gate: TriggerGate)
        ensures
            gate@ == (GateModel { armed: true, allow_duplicates: false }),
    {
        TriggerGate { armed: true, allow_duplicates: false }
    }

    /// An armed gate; with `allow_duplicates` it suppresses nothing.
    pub fn with_duplicates(allow_duplicates: bool) -> (gate: TriggerGate)
        ensures
            gate@ == (GateModel { armed: true, allow_duplicates }),
    {
        TriggerGate { armed: true, allow_duplicates }
    }

    /// True until the first fire.
    pub fn is_armed(&self) -> (armed: bool)
        ensures
            armed == self@.armed,
    {
        self.armed
    }

    /// True when nothing is suppressed.
    pub fn allows_duplicates(&self) -> (allowed: bool)
        ensures
            allowed == self@.allow_duplicates,
    {
        self.allow_duplicates
    }

    /// Evaluates the condition once and says whether an event is due now.
    pub fn evaluate(&mut self, condition: bool) -> (fire: bool)
        ensures
            fire == old(self)@.fires(condition),
            final(self)@ == old(self)@.after(condition),
    {
        let fire = condition && (self.armed || self.allow_duplicates);
        if condition {
            self.armed = false;
        }
        fire
    }
}

} // verus!
