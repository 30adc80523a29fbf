//! Lists of actions: which are run, how often, and in which order.
use vstd::prelude::*;

use crate::action_run::ActionAnswer;
use crate::action_run::ActionCall;
use crate::action_run::ActionRunModel;
use crate::command::ActionSpec;
use crate::ui_handlers::is_permitted_action;
use crate::ui_handlers::sets_trust;

verus! {

/// The places of the actions that a run has the host run, where the host knows
/// the actions `known`, and its `n`-th run of an action works where `works` says
/// so.
pub open spec fn made_runs(
    run: ActionRunModel,
    known: spec_fn(int) -> bool,
    works: spec_fn(int) -> bool,
    n: int,
) -> Seq<int>
    decreases
            run.actions.len() - run.at,
            (if run.running {
                0int
            } else {
                1int
            }),
            run.left,
    when run.left >= 0
{
    match run.call() {
        ActionCall::Over => Seq::empty(),
        ActionCall::Look(_) => made_runs(
            run.after(
                Some(
                    if known(run.at) {
                        ActionAnswer::Known
                    } else {
                        ActionAnswer::Unknown
                    },
                ),
            ),
            known,
            works,
            n,
        ),
        ActionCall::Run(_) => seq![run.at] + made_runs(
            run.after(
                Some(
                    if works(n) {
                        ActionAnswer::Ran
                    } else {
                        ActionAnswer::Failed
                    },
                ),
            ),
            known,
            works,
            n + 1,
        ),
    }
}

/// The places of the actions from `at` on, each as often as it says, up to the
/// first that is not known.
pub open spec fn spelled_out(
    actions: Seq<ActionSpec>,
    known: spec_fn(int) -> bool,
    at: int,
) -> Seq<int>
    decreases actions.len() - at,
{
    if at >= actions.len() || !known(at) {
        Seq::empty()
    } else {
        Seq::new(actions[at].count as nat, |i: int| at) + spelled_out(actions, known, at + 1)
    }
}

/// The first of `runs` up to one that does not work, which is still made.
pub open spec fn up_to_failure(runs: Seq<int>, works: spec_fn(int) -> bool, n: int) -> Seq<int>
    decreases runs.len(),
{
    if runs.len() == 0 {
        Seq::empty()
    } else if works(n) {
        seq![runs[0]] + up_to_failure(runs.drop_first(), works, n + 1)
    } else {
        seq![runs[0]]
    }
}

/// What is left to run.
spec fn remaining(run: ActionRunModel, known: spec_fn(int) -> bool) -> Seq<int> {
    if run.is_over() {
        Seq::empty()
    } else if run.running {
        Seq::new((run.left + 1) as nat, |i: int| run.at) + spelled_out(
            run.actions,
            known,
            run.at + 1,
        )
    } else {
        spelled_out(run.actions, known, run.at)
    }
}

proof fn lemma_remaining(
    run: ActionRunModel,
    known: spec_fn(int) -> bool,
    works: spec_fn(int) -> bool,
    n: int,
)
    requires
        0 <= run.at,
        run.left >= 0,
    ensures
        made_runs(run, known, works, n) == up_to_failure(remaining(run, known), works, n),
    decreases
            run.actions.len() - run.at,
            (if run.running {
                0int
            } else {
                1int
            }),
            run.left,
{
    if !run.is_over() {
        let left = remaining(run, known);
        if run.running {
            let ran = run.after(Some(ActionAnswer::Ran));
            let failed = run.after(Some(ActionAnswer::Failed));
            assert(left[0] == run.at);
            assert(left.drop_first() =~= remaining(ran, known));
            if works(n) {
                lemma_remaining(ran, known, works, n + 1);
            } else {
                lemma_remaining(failed, known, works, n + 1);
                assert(seq![run.at] + Seq::<int>::empty() =~= seq![run.at]);
            }
        } else if known(run.at) {
            let next = run.after(Some(ActionAnswer::Known));
            assert(remaining(next, known) =~= left);
            lemma_remaining(next, known, works, n);
        } else {
            lemma_remaining(run.after(Some(ActionAnswer::Unknown)), known, works, n);
        }
    }
}

/// Of a list that a plugin wants run, the actions that set how far a project is
/// trusted are left out, and neither run nor end the run. The others are run in
/// their order, each as often as it says, up to the first that is unknown or
/// fails; after that nothing is run any more.
pub proof fn actions_run_in_order_up_to_the_first_failure(
    actions: Seq<ActionSpec>,
    known: spec_fn(int) -> bool,
    works: spec_fn(int) -> bool,
)
    ensures
        ({
            let permitted = actions.filter(is_permitted_action());
            let runs = made_runs(ActionRunModel::fresh(permitted), known, works, 0);
            &&& runs == up_to_failure(spelled_out(permitted, known, 0), works, 0)
            &&& forall|i: int|
                0 <= i < permitted.len() ==> !sets_trust((#[trigger] permitted[i]).action@)
            &&& forall|i: int|
                0 <= i < actions.len() && !sets_trust((#[trigger] actions[i]).action@)
                    ==> permitted.contains(actions[i])
        }),
{
    let permitted = actions.filter(is_permitted_action());
    lemma_remaining(ActionRunModel::fresh(permitted), known, works, 0);
    assert(remaining(ActionRunModel::fresh(permitted), known) =~= spelled_out(permitted, known, 0));
    assert forall|i: int| 0 <= i < permitted.len() implies !sets_trust(
        (#[trigger] permitted[i]).action@,
    ) by {
        actions.lemma_filter_pred(is_permitted_action(), i);
    }
    assert forall|i: int|
        0 <= i < actions.len() && !sets_trust(
            (#[trigger] actions[i]).action@,
        ) implies permitted.contains(actions[i]) by {
        actions.lemma_filter_contains(is_permitted_action(), i);
    }
}

/// Once an action was unknown or has failed there is nothing left to do.
pub proof fn a_failure_ends_the_run(run: ActionRunModel, answer: ActionAnswer, later: Option<ActionAnswer>)
    requires
        answer is Unknown || answer is Failed,
    ensures
        run.after(Some(answer)).call() is Over,
        run.after(Some(answer)).after(later) == run.after(Some(answer)),
{
}

} // verus!
