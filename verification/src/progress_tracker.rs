//! Weighted, monotonic progress reporting for a phase's setup steps.
//!
//! A plan is an ordered list of named steps, each with a relative weight.
//! At build time the plan is turned into a percentage ladder: the step at
//! index `i` reports `round(cumulative_weight_through_i / total_weight ×
//! 100)`, clamped to at most 100. Rounding is applied independently to each
//! cumulative fraction — intermediate values need not sum to their weight
//! ratios — and the last step always lands on exactly 100.
//!
//! The executor consumes steps and percentages in lock-step, in the order
//! the plan was built; `resolve_step` additionally emits a notification
//! through a caller-supplied sink, `skip_step` consumes silently.

use vstd::arithmetic::div_mod::lemma_div_is_ordered;
use vstd::arithmetic::div_mod::lemma_fundamental_div_mod_converse;
use vstd::prelude::*;

verus! {

/// Immutable descriptor of one reportable unit of setup work.
#[derive(Clone)]
pub struct ProgressStep {
    /// Human-readable step title, reported on resolution.
    pub title: String,
    /// Relative importance of the step within its plan.
    pub weight: u64,
    /// Tag a notification carries so the receiver can route it.
    pub event_type: String,
    /// Optional parameters substituted into the title by the receiver.
    pub title_params: Option<Vec<(String, String)>>,
}

/// Errors of plan construction and consumption.
#[derive(Clone, Copy, PartialEq, Eq, Structural, Debug)]
pub enum ProgressError {
    /// `resolve_step` or `skip_step` was called on a drained plan.
    NoMoreSteps,
    /// The plan's weights sum to zero, so no percentage ladder exists.
    ZeroTotalWeight,
    /// `build` was called before `calculate_percentage_steps`.
    PercentagesNotCalculated,
}

/// Receiver of progress notifications: the external event sink a resolved
/// step reports through. Implementations live with the runtime.
pub trait ProgressSink {
    /// Accept one notification: the step's event tag, its title, the
    /// cumulative percentage reached, and the optional title parameters.
    fn report(
        &mut self,
        event_type: &str,
        title: &str,
        percentage: u64,
        title_params: &Option<Vec<(String, String)>>,
    );
}

/// Sum of the weights of a step sequence.
pub open spec fn total_weight(steps: Seq<ProgressStep>) -> int
    decreases steps.len(),
{
    if steps.len() == 0 {
        0
    } else {
        total_weight(steps.drop_last()) + steps.last().weight
    }
}

/// Sum of the weights of the first `n` steps.
pub open spec fn prefix_weight(steps: Seq<ProgressStep>, n: int) -> int {
    total_weight(steps.take(n))
}

/// `cumulative / total × 100`, rounded to the nearest integer (halves round
/// up). Stated over doubled numerator and denominator so only integer
/// division appears.
pub open spec fn rounded_share(cumulative: int, total: int) -> int {
    (200 * cumulative + total) / (2 * total)
}

/// The percentage the step at index `i` reports: the rounded cumulative
/// share of the weights through `i`, clamped to at most 100.
pub open spec fn percent_at(steps: Seq<ProgressStep>, i: int) -> int {
    let share = rounded_share(prefix_weight(steps, i + 1), total_weight(steps));
    if share > 100 {
        100
    } else {
        share
    }
}

/// Extending a prefix by one step adds that step's weight.
pub proof fn lemma_prefix_weight_step(steps: Seq<ProgressStep>, i: int)
    requires
        0 <= i < steps.len(),
    ensures
        prefix_weight(steps, i + 1) == prefix_weight(steps, i) + steps[i].weight,
{
    assert(steps.take(i + 1).drop_last() =~= steps.take(i));
    assert(steps.take(i + 1).last() == steps[i]);
}

/// Prefix sums of nonnegative weights grow with the prefix length.
pub proof fn lemma_prefix_weight_monotone(steps: Seq<ProgressStep>, i: int, j: int)
    requires
        0 <= i <= j <= steps.len(),
    ensures
        prefix_weight(steps, i) <= prefix_weight(steps, j),
    decreases j - i,
{
    if i < j {
        lemma_prefix_weight_step(steps, j - 1);
        lemma_prefix_weight_monotone(steps, i, j - 1);
    }
}

/// No prefix outweighs the whole plan.
pub proof fn lemma_prefix_weight_le_total(steps: Seq<ProgressStep>, i: int)
    requires
        0 <= i <= steps.len(),
    ensures
        prefix_weight(steps, i) <= total_weight(steps),
        prefix_weight(steps, steps.len() as int) == total_weight(steps),
    decreases steps.len(),
{
    assert(steps.take(steps.len() as int) =~= steps);
    lemma_prefix_weight_monotone(steps, i, steps.len() as int);
}

/// The ladder is monotone: a later step never reports a smaller percentage.
pub proof fn lemma_ladder_monotone(steps: Seq<ProgressStep>, i: int, j: int)
    requires
        total_weight(steps) > 0,
        0 <= i <= j < steps.len(),
    ensures
        percent_at(steps, i) <= percent_at(steps, j),
{
    let total = total_weight(steps);
    lemma_prefix_weight_monotone(steps, i + 1, j + 1);
    lemma_div_is_ordered(
        200 * prefix_weight(steps, i + 1) + total,
        200 * prefix_weight(steps, j + 1) + total,
        2 * total,
    );
}

/// The last step of a plan with positive total weight reports exactly 100.
pub proof fn lemma_final_percent_is_100(steps: Seq<ProgressStep>)
    requires
        total_weight(steps) > 0,
        steps.len() > 0,
    ensures
        percent_at(steps, steps.len() - 1) == 100,
{
    let total = total_weight(steps);
    lemma_prefix_weight_le_total(steps, steps.len() as int);
    assert(200 * total + total == 100 * (2 * total) + total);
    lemma_fundamental_div_mod_converse(200 * total + total, 2 * total, 100, total);
}

/// Append-only assembler of a progress plan.
pub struct ProgressPlanBuilder {
    plan: Vec<ProgressStep>,
    percentage_steps: Vec<u64>,
}

/// Sum the weights of a plan, exactly.
fn sum_weights(plan: &Vec<ProgressStep>) -> (total: u64)
    requires
        total_weight(plan@) <= u64::MAX,
    ensures
        total == total_weight(plan@),
{
    let mut total: u64 = 0;
    let mut i: usize = 0;
    while i < plan.len()
        invariant
            0 <= i <= plan@.len(),
            total == prefix_weight(plan@, i as int),
            total_weight(plan@) <= u64::MAX,
        decreases plan@.len() - i,
    {
        proof {
            lemma_prefix_weight_step(plan@, i as int);
            lemma_prefix_weight_le_total(plan@, i as int + 1);
        }
        total = total + plan[i].weight;
        i = i + 1;
    }
    proof {
        lemma_prefix_weight_le_total(plan@, plan@.len() as int);
    }
    total
}

impl ProgressPlanBuilder {
    /// The steps added so far, in call order.
    pub closed spec fn plan_view(self) -> Seq<ProgressStep> {
        self.plan@
    }

    /// The percentage ladder computed so far, in step order.
    pub closed spec fn ladder_view(self) -> Seq<u64> {
        self.percentage_steps@
    }

    pub fn new() -> (builder: Self)
        ensures
            builder.plan_view().len() == 0,
            builder.ladder_view().len() == 0,
    {
        ProgressPlanBuilder { plan: Vec::new(), percentage_steps: Vec::new() }
    }

    /// Append one step to the plan.
    pub fn add_step(self, step: ProgressStep) -> (builder: Self)
        ensures
            builder.plan_view() == self.plan_view().push(step),
            builder.ladder_view() == self.ladder_view(),
    {
        let mut builder = self;
        builder.plan.push(step);
        builder
    }

    /// Compute the percentage ladder from the weights added so far: for each
    /// step, in original order, the rounded cumulative share of the total
    /// weight, clamped to at most 100. A plan whose weights sum to zero gets
    /// no ladder (it is rejected at build time).
    ///
    /// The total weight must fit the machine word the sum is computed in.
    pub fn calculate_percentage_steps(self) -> (builder: Self)
        requires
            total_weight(self.plan_view()) <= u64::MAX,
        ensures
            builder.plan_view() == self.plan_view(),
            total_weight(self.plan_view()) > 0 ==> {
                &&& builder.ladder_view().len() == self.plan_view().len()
                &&& forall|i: int|
                    0 <= i < self.plan_view().len() ==> builder.ladder_view()[i] == percent_at(
                        self.plan_view(),
                        i,
                    )
            },
            total_weight(self.plan_view()) == 0 ==> builder.ladder_view().len() == 0,
    {
        let mut builder = self;
        let ghost steps = builder.plan@;
        let total = sum_weights(&builder.plan);
        let mut ladder: Vec<u64> = Vec::new();
        if total > 0 {
            let mut cumulative: u64 = 0;
            let mut i: usize = 0;
            while i < builder.plan.len()
                invariant
                    builder.plan@ == steps,
                    0 <= i <= steps.len(),
                    cumulative == prefix_weight(steps, i as int),
                    total == total_weight(steps),
                    total > 0,
                    ladder@.len() == i,
                    forall|j: int| 0 <= j < i ==> ladder@[j] == percent_at(steps, j),
                decreases steps.len() - i,
            {
                proof {
                    lemma_prefix_weight_step(steps, i as int);
                    lemma_prefix_weight_le_total(steps, i as int + 1);
                }
                cumulative = cumulative + builder.plan[i].weight;
                let wide: u128 = (200u128 * (cumulative as u128) + (total as u128)) / (2u128 * (
                total as u128));
                let percent: u64 = if wide > 100 {
                    100
                } else {
                    wide as u64
                };
                ladder.push(percent);
                i = i + 1;
            }
        }
        builder.percentage_steps = ladder;
        builder
    }

    /// Turn the plan into an executor. The step list and the ladder are
    /// stored reversed, so consumption by popping from the back follows the
    /// original order. Rejected when the weights sum to zero, or when the
    /// ladder has not been computed for the current plan.
    pub fn build(self) -> (r: Result<ProgressPlanExecutor, ProgressError>)
        requires
            total_weight(self.plan_view()) <= u64::MAX,
        ensures
            match r {
                Ok(executor) => {
                    &&& total_weight(self.plan_view()) > 0
                    &&& self.ladder_view().len() == self.plan_view().len()
                    &&& executor.lock_step()
                    &&& executor.steps_view() == self.plan_view().reverse()
                    &&& executor.ladder_view() == self.ladder_view().reverse()
                },
                Err(e) => {
                    &&& (total_weight(self.plan_view()) == 0 ==> e == ProgressError::ZeroTotalWeight)
                    &&& (total_weight(self.plan_view()) > 0 ==> {
                        &&& e == ProgressError::PercentagesNotCalculated
                        &&& self.ladder_view().len() != self.plan_view().len()
                    })
                },
            },
    {
        let total = sum_weights(&self.plan);
        if total == 0 {
            return Err(ProgressError::ZeroTotalWeight);
        }
        if self.percentage_steps.len() != self.plan.len() {
            return Err(ProgressError::PercentagesNotCalculated);
        }
        let mut plan = self.plan;
        let mut ladder = self.percentage_steps;
        let ghost orig_steps = plan@;
        let ghost orig_ladder = ladder@;
        let mut steps_rev: Vec<ProgressStep> = Vec::new();
        let mut ladder_rev: Vec<u64> = Vec::new();
        proof {
            assert(plan@ =~= orig_steps.take(plan@.len() as int));
            assert(steps_rev@ =~= orig_steps.skip(plan@.len() as int).reverse());
        }
        while plan.len() > 0
            invariant
                plan@.len() <= orig_steps.len(),
                plan@ == orig_steps.take(plan@.len() as int),
                steps_rev@ == orig_steps.skip(plan@.len() as int).reverse(),
            decreases plan@.len(),
        {
            let ghost k = plan@.len() as int;
            let step = plan.pop().unwrap();
            steps_rev.push(step);
            proof {
                assert(step == orig_steps.take(k)[k - 1]);
                assert(orig_steps.take(k).drop_last() =~= orig_steps.take(k - 1));
                assert(steps_rev@ =~= orig_steps.skip(k - 1).reverse());
            }
        }
        proof {
            assert(orig_steps.skip(0) =~= orig_steps);
        }
        while ladder.len() > 0
            invariant
                ladder@.len() <= orig_ladder.len(),
                ladder@ == orig_ladder.take(ladder@.len() as int),
                ladder_rev@ == orig_ladder.skip(ladder@.len() as int).reverse(),
            decreases ladder@.len(),
        {
            let ghost k = ladder@.len() as int;
            let entry = ladder.pop().unwrap();
            ladder_rev.push(entry);
            proof {
                assert(entry == orig_ladder.take(k)[k - 1]);
                assert(orig_ladder.take(k).drop_last() =~= orig_ladder.take(k - 1));
                assert(ladder_rev@ =~= orig_ladder.skip(k - 1).reverse());
            }
        }
        proof {
            assert(ladder@ =~= orig_ladder.take(ladder@.len() as int));
            assert(ladder_rev@ =~= orig_ladder.skip(0).reverse());
            assert(orig_ladder.skip(0) =~= orig_ladder);
        }
        Ok(ProgressPlanExecutor { plan: steps_rev, percentage_steps: ladder_rev })
    }
}

/// Consumer of a built plan: steps and percentages are popped in lock-step,
/// in the order the plan was built.
pub struct ProgressPlanExecutor {
    plan: Vec<ProgressStep>,
    percentage_steps: Vec<u64>,
}

impl ProgressPlanExecutor {
    /// The steps not yet consumed, reversed: the next step is the last.
    pub closed spec fn steps_view(self) -> Seq<ProgressStep> {
        self.plan@
    }

    /// The percentages not yet consumed, reversed in lock-step with the
    /// steps.
    pub closed spec fn ladder_view(self) -> Seq<u64> {
        self.percentage_steps@
    }

    /// The lock-step invariant: one percentage per remaining step. Built
    /// executors satisfy it, and consumption preserves it; violating it is a
    /// programming error, not a recoverable runtime condition.
    pub open spec fn lock_step(self) -> bool {
        self.steps_view().len() == self.ladder_view().len()
    }

    /// How many steps remain to be consumed.
    pub open spec fn remaining(self) -> nat {
        self.steps_view().len()
    }

    /// Title of the next step to be consumed.
    pub open spec fn next_title(self) -> Seq<char> {
        self.steps_view().last().title@
    }

    /// Percentage of the next step to be consumed.
    pub open spec fn next_percentage(self) -> u64 {
        self.ladder_view().last()
    }

    /// The pair `resolve_step` yields on a non-drained executor.
    pub open spec fn resolve_result(self) -> (Seq<char>, u64) {
        (self.next_title(), self.next_percentage())
    }

    /// The pair `skip_step` yields on a non-drained executor.
    pub open spec fn skip_result(self) -> (Seq<char>, u64) {
        (self.next_title(), self.next_percentage())
    }

    /// Pop the next step and its percentage; when a sink is supplied, emit a
    /// notification carrying the step's event tag, title, percentage and
    /// title parameters. Fails exactly when no steps remain.
    pub fn resolve_step<S: ProgressSink>(&mut self, sink: Option<&mut S>) -> (r: Result<
        (String, u64),
        ProgressError,
    >)
        requires
            old(self).lock_step(),
        ensures
            final(self).lock_step(),
            old(self).remaining() == 0 ==> {
                &&& r == Result::<(String, u64), ProgressError>::Err(ProgressError::NoMoreSteps)
                &&& *final(self) == *old(self)
            },
            old(self).remaining() > 0 ==> {
                &&& r matches Ok(entry) && (entry.0@, entry.1) == old(self).resolve_result()
                &&& final(self).steps_view() == old(self).steps_view().drop_last()
                &&& final(self).ladder_view() == old(self).ladder_view().drop_last()
            },
    {
        if self.plan.len() == 0 {
            return Err(ProgressError::NoMoreSteps);
        }
        let step = self.plan.pop().unwrap();
        let percentage = self.percentage_steps.pop().unwrap();
        match sink {
            Some(sink) => {
                sink.report(
                    step.event_type.as_str(),
                    step.title.as_str(),
                    percentage,
                    &step.title_params,
                );
            },
            None => {},
        }
        Ok((step.title, percentage))
    }

    /// Pop the next step and its percentage without emitting anything; used
    /// when a step's work was bypassed by prior state. Fails exactly when no
    /// steps remain.
    pub fn skip_step(&mut self) -> (r: Result<(String, u64), ProgressError>)
        requires
            old(self).lock_step(),
        ensures
            final(self).lock_step(),
            old(self).remaining() == 0 ==> {
                &&& r == Result::<(String, u64), ProgressError>::Err(ProgressError::NoMoreSteps)
                &&& *final(self) == *old(self)
            },
            old(self).remaining() > 0 ==> {
                &&& r matches Ok(entry) && (entry.0@, entry.1) == old(self).skip_result()
                &&& final(self).steps_view() == old(self).steps_view().drop_last()
                &&& final(self).ladder_view() == old(self).ladder_view().drop_last()
            },
    {
        if self.plan.len() == 0 {
            return Err(ProgressError::NoMoreSteps);
        }
        let step = self.plan.pop().unwrap();
        let percentage = self.percentage_steps.pop().unwrap();
        Ok((step.title, percentage))
    }
}

/// Consumption follows build order: in the reversed storage an executor is
/// built with, after `k` entries have been consumed the next entry popped
/// from the back is exactly the plan's entry at index `k`.
pub proof fn lemma_consumption_follows_build_order(plan: Seq<ProgressStep>, ladder: Seq<u64>, k: int)
    requires
        plan.len() == ladder.len(),
        0 <= k < plan.len(),
    ensures
        plan.reverse().take(plan.len() - k).last() == plan[k],
        ladder.reverse().take(ladder.len() - k).last() == ladder[k],
{
    assert(plan.reverse().take(plan.len() - k).last() == plan.reverse()[plan.len() - k - 1]);
    assert(ladder.reverse().take(ladder.len() - k).last() == ladder.reverse()[ladder.len() - k
        - 1]);
}

/// `skip_step` yields exactly the pair `resolve_step` would yield on the
/// same executor, and consumes the same step — the two differ only in
/// whether a notification is emitted.
pub proof fn lemma_skip_yields_resolve_pair(executor: ProgressPlanExecutor)
    ensures
        executor.skip_result() == executor.resolve_result(),
{
}

} // verus!
