//! Two-arm weighted experiments: the random assignment of a visitor to one
//! arm, made once, and what an event says about it.

use vstd::prelude::*;
use vstd::string::*;
use rand::distributions::Distribution;
use crate::props::{Entries, Props};
use crate::value::{PropModel, PropValue};

verus! {

/// One arm of an experiment: its name and its relative likelihood.
#[derive(Debug)]
pub struct Variant {
    pub name: String,
    pub weight: u16,
}

/// What a [`Variant`] stands for.
pub struct VariantModel {
    pub name: Seq<char>,
    pub weight: u16,
}

impl View for Variant {
    type V = VariantModel;

    open spec fn view(&self) -> VariantModel {
        VariantModel { name: self.name@, weight: self.weight }
    }
}

impl Clone for Variant {
    fn clone(&self) -> (copy: Variant)
        ensures
            copy == *self,
    {
        Variant { name: self.name.clone(), weight: self.weight }
    }
}

impl Variant {
    /// The arm `name` with the weight `weight`.
    #[must_use]
    pub fn new(name: &str, weight: u16) -> (variant: Variant)
        ensures
            variant@ == (VariantModel { name: name@, weight }),
    {
        Variant { name: name.to_owned(), weight }
    }
}

/// Why an experiment could not be resolved.
#[derive(Clone, Copy, Debug, PartialEq, Eq, Structural)]
pub enum ExperimentError {
    /// Both arms have weight zero: there is nothing to draw from.
    AllWeightsZero,
    /// The experiment has its arm already; it keeps it.
    AlreadyResolved,
    /// The index names no arm, or an arm of weight zero.
    InvalidDraw,
}

/// What an [`Experiment`] stands for.
pub struct ExperimentModel {
    pub name: Seq<char>,
    pub a: VariantModel,
    pub b: VariantModel,
    /// The index of the selected arm, 0 for `a` and 1 for `b`; `None` until
    /// the experiment is resolved.
    pub selected: Option<usize>,
}

impl ExperimentModel {
    /// The arm with index `i`.
    pub open spec fn arm(self, i: usize) -> VariantModel {
        if i == 0 {
            self.a
        } else {
            self.b
        }
    }

    /// The selected arm, once there is one.
    pub open spec fn chosen(self) -> Option<VariantModel> {
        match self.selected {
            Some(i) => Some(self.arm(i)),
            None => None,
        }
    }

    /// The sum of the two weights.
    pub open spec fn total_weight(self) -> int {
        self.a.weight + self.b.weight
    }

    /// `drawn` names an arm that a weighted draw can select.
    pub open spec fn admits(self, drawn: usize) -> bool {
        drawn < 2 && self.arm(drawn).weight > 0
    }

    /// This experiment with its arm set to `drawn`.
    pub open spec fn resolved_to(self, drawn: usize) -> ExperimentModel {
        ExperimentModel { selected: Some(drawn), ..self }
    }

    /// The properties that tell an event about this experiment: none while it
    /// is unresolved, then the name of the selected arm under the key `exp_`
    /// followed by the experiment's name.
    pub open spec fn properties(self) -> Entries {
        match self.chosen() {
            Some(variant) => seq![("exp_"@ + self.name, PropModel::Text(variant.name))],
            None => Seq::empty(),
        }
    }
}

/// A weighted A/B test. It is created unresolved and resolved once, by
/// [`Experiment::choose_variant`]; from then on its arm stays.
#[derive(Debug)]
pub struct Experiment {
    name: String,
    a: Variant,
    b: Variant,
    selected: Option<usize>,
}

impl View for Experiment {
    type V = ExperimentModel;

    closed spec fn view(&self) -> ExperimentModel {
        ExperimentModel { name: self.name@, a: self.a@, b: self.b@, selected: self.selected }
    }
}

impl Clone for Experiment {
    fn clone(&self) -> (copy: Experiment)
        ensures
            copy@ == self@,
    {
        proof {
            use_type_invariant(self);
        }
        Experiment {
            name: self.name.clone(),
            a: self.a.clone(),
            b: self.b.clone(),
            selected: self.selected,
        }
    }
}

impl Default for Experiment {
    /// The unresolved experiment `Experiment` with arms `A` and `B` of equal
    /// weight.
    fn default() -> (experiment: Experiment)
        ensures
            experiment@ == (ExperimentModel {
                name: "Experiment"@,
                a: VariantModel { name: "A"@, weight: 1 },
                b: VariantModel { name: "B"@, weight: 1 },
                selected: None,
            }),
    {
        Experiment {
            name: "Experiment".to_owned(),
            a: Variant::new("A", 1),
            b: Variant::new("B", 1),
            selected: None,
        }
    }
}

/// The error of `rand`'s weighted distributions.
#[verifier::external_type_specification]
#[verifier::external_body]
pub struct ExWeightedError(rand::distributions::WeightedError);

/// Draws an index from the weights `[a, b]` with `rand`: builds
/// `WeightedIndex::new(vec![a, b])` and samples it once with `thread_rng()`.
///
/// `new` adds the weights up, so their sum has to fit. It fails exactly when
/// that sum is zero. A sample is the number of cumulative weights (here the
/// one value `a`) that do not exceed a number drawn uniformly from
/// `0 .. a + b`: it is 0 or 1, and never the index of a weight that is zero.
/// Nothing is claimed of which of the two admissible indices comes out.
#[verifier::external_body]
fn weighted_draw(a: u32, b: u32) -> (drawn: Result<usize, rand::distributions::WeightedError>)
    requires
        a + b <= u32::MAX,
    ensures
        drawn is Ok <==> a + b > 0,
        drawn matches Ok(i) ==> i < 2 && (i == 0 ==> a > 0) && (i == 1 ==> b > 0),
{
    let dist = rand::distributions::WeightedIndex::new(vec![a, b])?;
    Ok(dist.sample(&mut rand::thread_rng()))
}

impl Experiment {
    /// The selected arm is one that a draw can give.
    #[verifier::type_invariant]
    pub closed spec fn well_formed(self) -> bool {
        self.selected matches Some(i) ==> self@.admits(i)
    }

    /// An unresolved experiment between the arms `a` and `b`.
    #[must_use]
    pub fn new(name: &str, a: Variant, b: Variant) -> (experiment: Experiment)
        ensures
            experiment@ == (ExperimentModel { name: name@, a: a@, b: b@, selected: None }),
    {
        Experiment { name: name.to_owned(), a, b, selected: None }
    }

    /// The name of the experiment.
    pub fn name(&self) -> (name: &String)
        ensures
            name@ == self@.name,
    {
        &self.name
    }

    /// The index of the selected arm, or `None` while unresolved.
    pub fn selected(&self) -> (selected: Option<usize>)
        ensures
            selected == self@.selected,
            selected matches Some(i) ==> self@.admits(i),
    {
        proof {
            use_type_invariant(self);
        }
        self.selected
    }

    /// Resolves the experiment to the arm `drawn`, which a weighted draw over
    /// the two arms has produced.
    ///
    /// A resolved experiment is left as it is, and so is any experiment when
    /// `drawn` is not an index that such a draw can produce.
    pub fn assign(&mut self, drawn: usize) -> (outcome: Result<(), ExperimentError>)
        ensures
            old(self)@.selected is Some ==> outcome == Err::<(), _>(
                ExperimentError::AlreadyResolved,
            ),
            old(self)@.selected is None && old(self)@.total_weight() == 0 ==> outcome == Err::<
                (),
                _,
            >(ExperimentError::AllWeightsZero),
            old(self)@.selected is None && old(self)@.total_weight() > 0 && !old(self)@.admits(
                drawn,
            ) ==> outcome == Err::<(), _>(ExperimentError::InvalidDraw),
            old(self)@.selected is None && old(self)@.admits(drawn) ==> outcome is Ok,
            outcome is Ok ==> final(self)@ == old(self)@.resolved_to(drawn),
            outcome is Err ==> final(self)@ == old(self)@,
    {
        if self.selected.is_some() {
            return Err(ExperimentError::AlreadyResolved);
        }
        if self.a.weight == 0 && self.b.weight == 0 {
            return Err(ExperimentError::AllWeightsZero);
        }
        let weight = if drawn == 0 {
            self.a.weight
        } else {
            self.b.weight
        };
        if drawn >= 2 || weight == 0 {
            return Err(ExperimentError::InvalidDraw);
        }
        self.selected = Some(drawn);
        Ok(())
    }

    /// Chooses the arm at random, each arm with a likelihood proportional to
    /// its weight, and keeps it.
    ///
    /// The choice is made once: on a resolved experiment this is an error
    /// and changes nothing. It is an error too when both weights are zero.
    /// Otherwise the experiment is resolved to one of its arms, and never to
    /// an arm of weight zero.
    pub fn choose_variant(&mut self) -> (outcome: Result<(), ExperimentError>)
        ensures
            old(self)@.selected is Some ==> outcome == Err::<(), _>(
                ExperimentError::AlreadyResolved,
            ),
            old(self)@.selected is None && old(self)@.total_weight() == 0 ==> outcome == Err::<
                (),
                _,
            >(ExperimentError::AllWeightsZero),
            old(self)@.selected is None && old(self)@.total_weight() > 0 ==> outcome is Ok,
            outcome is Ok ==> exists|i: usize|
                old(self)@.admits(i) && final(self)@ == #[trigger] old(self)@.resolved_to(i),
            outcome is Err ==> final(self)@ == old(self)@,
    {
        if self.selected.is_some() {
            return Err(ExperimentError::AlreadyResolved);
        }
        match weighted_draw(self.a.weight as u32, self.b.weight as u32) {
            Ok(drawn) => self.assign(drawn),
            Err(_) => Err(ExperimentError::AllWeightsZero),
        }
    }

    /// The selected arm, or `None` while unresolved.
    #[must_use]
    pub fn variant(&self) -> (variant: Option<&Variant>)
        ensures
            variant is Some <==> self@.selected is Some,
            variant matches Some(v) ==> Some(v@) == self@.chosen(),
    {
        match self.selected {
            None => None,
            Some(0) => Some(&self.a),
            Some(_) => Some(&self.b),
        }
    }
}

/// What a reader of an [`ExperimentCtx`] finds.
#[derive(Debug)]
pub enum Resolution {
    /// The arm has not been chosen yet.
    Pending,
    /// The arm that was chosen.
    Resolved(Variant),
}

/// The experiment that a part of the page runs under, as its readers see it.
///
/// A reader never waits: it finds the experiment pending or resolved, and
/// once resolved it stays so, as the experiment does.
#[derive(Debug)]
pub struct ExperimentCtx(pub Experiment);

impl Clone for ExperimentCtx {
    fn clone(&self) -> (copy: ExperimentCtx)
        ensures
            copy.0@ == self.0@,
    {
        ExperimentCtx(self.0.clone())
    }
}

impl ExperimentCtx {
    /// The state of the experiment now.
    pub fn read(&self) -> (state: Resolution)
        ensures
            state is Pending <==> self.0@.selected is None,
            state matches Resolution::Resolved(v) ==> Some(v@) == self.0@.chosen(),
    {
        match self.0.variant() {
            None => Resolution::Pending,
            Some(v) => Resolution::Resolved(v.clone()),
        }
    }

    /// The properties that record the experiment on an event: empty while
    /// pending, else one entry.
    pub fn to_plausible(&self) -> (props: Props)
        ensures
            props@ == self.0@.properties(),
    {
        match self.0.variant() {
            None => Props::new(),
            Some(v) => {
                let mut key = "exp_".to_owned();
                key.append(self.0.name().as_str());
                let value = PropValue::String(v.name.clone());
                let props = Props::new().with(key, value);
                assert(props@ =~= self.0@.properties());
                props
            },
        }
    }
}

} // verus!
