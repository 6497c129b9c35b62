use vstd::prelude::*;

verus! {

/// The platform families whose context strategies differ.
#[derive(Clone, Copy, Debug, PartialEq, Eq, Structural)]
pub enum Platform {
    /// Linux: surfaceless, headless and software contexts are all on offer.
    Linux,
    /// Any other platform: a headless context, else a hidden window.
    Other,
}

/// One way of obtaining a GPU rendering context.
#[derive(Clone, Copy, Debug, PartialEq, Eq, Structural)]
pub enum Strategy {
    /// A context with no surface at all.
    Surfaceless,
    /// An off-screen context with a backing surface of the output size.
    Headless,
    /// A CPU rasterizer behind the GPU API.
    Software,
    /// A real window that is never shown.
    HiddenWindow,
}

/// What the acquirer asks for next, or how it ended.
#[derive(Clone, Copy, Debug, PartialEq, Eq, Structural)]
pub enum Step {
    /// Try this strategy and report whether it gave a live context.
    Attempt(Strategy),
    /// This strategy gave a live context.
    Acquired(Strategy),
    /// Every strategy failed.
    Exhausted,
}

/// The strategies to try, in order. `substrate_ok` tells whether the
/// event/context-management substrate could be constructed at all; where it
/// could not, the strategies that need it are skipped.
pub open spec fn plan_for(platform: Platform, substrate_ok: bool) -> Seq<Strategy> {
    match platform {
        Platform::Linux => if substrate_ok {
            seq![Strategy::Surfaceless, Strategy::Headless, Strategy::Software, Strategy::HiddenWindow]
        } else {
            seq![Strategy::Software, Strategy::HiddenWindow]
        },
        Platform::Other => if substrate_ok {
            seq![Strategy::Headless, Strategy::HiddenWindow]
        } else {
            seq![Strategy::HiddenWindow]
        },
    }
}

/// Where trying `plan` in order ends when the attempts so far came out as
/// `results`: the first strategy that succeeded, the next one to try, or
/// exhaustion.
pub open spec fn outcome_of(plan: Seq<Strategy>, results: Seq<bool>) -> Step
    decreases plan.len(),
{
    if plan.len() == 0 {
        Step::Exhausted
    } else if results.len() == 0 {
        Step::Attempt(plan[0])
    } else if results[0] {
        Step::Acquired(plan[0])
    } else {
        outcome_of(plan.drop_first(), results.drop_first())
    }
}

/// Builds the ordered list of strategies for a platform.
pub fn acquisition_plan(platform: Platform, substrate_ok: bool) -> (r: Vec<Strategy>)
    ensures
        r@ == plan_for(platform, substrate_ok),
{
    let mut v: Vec<Strategy> = Vec::new();
    match platform {
        Platform::Linux => {
            if substrate_ok {
                v.push(Strategy::Surfaceless);
                v.push(Strategy::Headless);
            }
            v.push(Strategy::Software);
        },
        Platform::Other => {
            if substrate_ok {
                v.push(Strategy::Headless);
            }
        },
    }
    v.push(Strategy::HiddenWindow);
    proof {
        assert(v@ =~= plan_for(platform, substrate_ok));
    }
    v
}

/// Walks an ordered list of strategies until one yields a context.
pub struct ContextAcquirer {
    plan: Vec<Strategy>,
    next: usize,
    acquired: bool,
}

impl ContextAcquirer {
    /// The strategies, in the order they are tried.
    pub closed spec fn plan(&self) -> Seq<Strategy> {
        self.plan@
    }

    /// The outcomes reported so far, one per strategy tried.
    pub closed spec fn results(&self) -> Seq<bool> {
        Seq::new(
            if self.acquired { self.next as nat + 1 } else { self.next as nat },
            |i: int| i == self.next as int,
        )
    }

    pub closed spec fn wf(&self) -> bool {
        &&& self.next <= self.plan@.len()
        &&& self.acquired ==> self.next < self.plan@.len()
    }

    /// Starts before the first attempt.
    pub fn new(platform: Platform, substrate_ok: bool) -> (r: ContextAcquirer)
        ensures
            r.wf(),
            r.plan() == plan_for(platform, substrate_ok),
            r.results() == Seq::<bool>::empty(),
    {
        let r = ContextAcquirer { plan: acquisition_plan(platform, substrate_ok), next: 0, acquired: false };
        assert(r.results() =~= Seq::<bool>::empty());
        r
    }

    /// What to do now: the next attempt, or the final outcome.
    pub fn step(&self) -> (r: Step)
        requires
            self.wf(),
        ensures
            r == outcome_of(self.plan(), self.results()),
    {
        proof {
            lemma_outcome_at(self.plan@, self.next as int, self.acquired);
        }
        if self.acquired {
            Step::Acquired(self.plan[self.next])
        } else if self.next < self.plan.len() {
            Step::Attempt(self.plan[self.next])
        } else {
            Step::Exhausted
        }
    }

    /// Reports how the attempt that `step` asked for came out.
    pub fn record(&mut self, succeeded: bool)
        requires
            old(self).wf(),
            outcome_of(old(self).plan(), old(self).results()) is Attempt,
        ensures
            final(self).wf(),
            final(self).plan() == old(self).plan(),
            final(self).results() == old(self).results().push(succeeded),
    {
        proof {
            lemma_outcome_at(self.plan@, self.next as int, self.acquired);
        }
        let ghost before = self.results();
        let len: usize = self.plan.len();
        assert(self.next < len);
        if succeeded {
            self.acquired = true;
        } else {
            self.next = self.next + 1;
        }
        assert(self.results() =~= before.push(succeeded));
    }
}

/// After `next` failures, followed by a success when `acquired`, the outcome is
/// read off the plan at position `next`.
proof fn lemma_outcome_at(plan: Seq<Strategy>, next: int, acquired: bool)
    requires
        0 <= next <= plan.len(),
        acquired ==> next < plan.len(),
    ensures
        ({
            let results = Seq::new(
                if acquired { next as nat + 1 } else { next as nat },
                |i: int| i == next,
            );
            outcome_of(plan, results) == if acquired {
                Step::Acquired(plan[next])
            } else if next < plan.len() {
                Step::Attempt(plan[next])
            } else {
                Step::Exhausted
            }
        }),
    decreases next,
{
    let results = Seq::new(
        if acquired { next as nat + 1 } else { next as nat },
        |i: int| i == next,
    );
    if next > 0 {
        lemma_outcome_at(plan.drop_first(), next - 1, acquired);
        let rest = Seq::new(
            if acquired { (next - 1) as nat + 1 } else { (next - 1) as nat },
            |i: int| i == next - 1,
        );
        assert(results.drop_first() =~= rest);
        if next < plan.len() {
            assert(plan.drop_first()[next - 1] == plan[next]);
        }
    }
}

} // verus!
