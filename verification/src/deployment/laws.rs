//! What holds of a deployment as a whole, and of the query that chooses the model.
use vstd::prelude::*;

use super::{
    DeployActionView, DeployErrorView, DeployReplyView, DeployRequestView, DeployStepView,
    DeployedModelView, Strategy,
};
use crate::task::{Metric, Task};
use crate::training::rules;

verus! {

/// What the host answers to each action that a deployment can ask for.
pub struct Host {
    pub project_id: Option<i64>,
    pub task: Option<Task>,
    pub model_id: Option<i64>,
    pub algorithm: Option<Seq<char>>,
    pub project_loads: bool,
}

/// The answer of a host to an action.
pub open spec fn answer(host: Host, action: DeployActionView) -> DeployReplyView {
    match action {
        DeployActionView::FindProject { .. } => DeployReplyView::FoundProject {
            id: host.project_id,
            task: host.task,
        },
        DeployActionView::SelectModel { .. } => DeployReplyView::SelectedModel {
            id: host.model_id,
            algorithm: host.algorithm,
        },
        DeployActionView::LoadProject { .. } => DeployReplyView::LoadedProject(host.project_loads),
        DeployActionView::Deploy { .. } => DeployReplyView::Deployed,
    }
}

/// The step that a deployment reaches when the host has answered at most `turns` actions.
pub open spec fn play(step: DeployStepView, host: Host, turns: nat) -> DeployStepView
    decreases turns,
{
    match step {
        DeployStepView::Ask { run, action } => if turns == 0 {
            step
        } else {
            play(super::next(run, answer(host, action)), host, (turns - 1) as nat)
        },
        _ => step,
    }
}

/// The first `turns` actions that a deployment asks for, in order.
pub open spec fn asked(step: DeployStepView, host: Host, turns: nat) -> Seq<DeployActionView>
    decreases turns,
{
    match step {
        DeployStepView::Ask { run, action } => if turns == 0 {
            Seq::empty()
        } else {
            seq![action] + asked(
                super::next(run, answer(host, action)),
                host,
                (turns - 1) as nat,
            )
        },
        _ => Seq::empty(),
    }
}

/// The actions of the whole deployment. There are at most four.
pub open spec fn actions(request: DeployRequestView, host: Host) -> Seq<DeployActionView> {
    asked(super::start(request), host, 4)
}

/// How a deployment ends.
pub open spec fn outcome(request: DeployRequestView, host: Host) -> DeployStepView {
    if host.project_id is None {
        DeployStepView::Failed(DeployErrorView::NoProject { name: request.project_name })
    } else if host.task is None {
        DeployStepView::Failed(DeployErrorView::NoTask)
    } else if request.strategy == Strategy::other {
        DeployStepView::Failed(DeployErrorView::InvalidStrategy)
    } else if host.model_id is None || host.algorithm is None {
        DeployStepView::Failed(DeployErrorView::NoModel)
    } else if !host.project_loads {
        DeployStepView::Failed(DeployErrorView::ProjectNotLoaded)
    } else {
        DeployStepView::Done(
            DeployedModelView {
                project: request.project_name,
                strategy: request.strategy,
                algorithm: host.algorithm->0,
            },
        )
    }
}

/// Whatever the host answers, a deployment ends after at most four actions, as `outcome` says.
pub proof fn law_deployment_ends_in_outcome(request: DeployRequestView, host: Host)
    ensures
        play(super::start(request), host, 4) == outcome(request, host),
        outcome(request, host) !is Ask,
{
    reveal_with_fuel(play, 5);
}

/// A deployment that succeeds looks the project up, chooses a model by the query of its
/// strategy, loads the project and deploys that model in it.
pub proof fn law_successful_deployment(request: DeployRequestView, host: Host)
    requires
        outcome(request, host) is Done,
    ensures
        actions(request, host) == seq![
            DeployActionView::FindProject {
                query: super::PROJECT_QUERY@,
                name: request.project_name,
            },
            DeployActionView::SelectModel {
                query: super::query_text(request.strategy, host.task->0, request.algorithm)->0,
                project_name: request.project_name,
            },
            DeployActionView::LoadProject { project_id: host.project_id->0 },
            DeployActionView::Deploy { project_id: host.project_id->0, model_id: host.model_id->0 },
        ],
{
    reveal_with_fuel(asked, 5);
}

/// A deployment that fails deploys nothing.
pub proof fn law_failed_deployment(request: DeployRequestView, host: Host)
    requires
        outcome(request, host) is Failed,
    ensures
        forall|i: int|
            0 <= i < actions(request, host).len() ==> !(#[trigger] actions(request, host)[i] is Deploy),
{
    reveal_with_fuel(asked, 5);
}

/// The model that a rollback restores, where `history` holds the models that were deployed in
/// the project, by time: the one deployed last among those that are not deployed now. The
/// model deployed now is the last of the history.
pub open spec fn is_rollback_choice(history: Seq<i64>, model_id: i64) -> bool {
    &&& history.len() > 0
    &&& model_id != history.last()
    &&& exists|i: int|
        0 <= i < history.len() && #[trigger] history[i] == model_id && forall|j: int|
            i < j < history.len() ==> history[j] == history.last()
}

/// What a database with this history answers to the query of a rollback among all models: the
/// model to restore, or none where there is no such model.
pub open spec fn answers_rollback(history: Seq<i64>, answer: Option<i64>) -> bool {
    match answer {
        Some(model_id) => is_rollback_choice(history, model_id),
        None => forall|model_id: i64| !is_rollback_choice(history, model_id),
    }
}

/// Two rollbacks in a row restore the model that was deployed before them: the choice after a
/// rollback is that model and no other.
pub proof fn law_rollback_of_rollback(history: Seq<i64>, restored: i64, model_id: i64)
    requires
        is_rollback_choice(history, restored),
    ensures
        is_rollback_choice(history.push(restored), model_id) <==> model_id == history.last(),
{
    let later = history.push(restored);
    let n = history.len() as int;
    assert(later[n - 1] == history.last());
    assert(later.last() == restored);
    if is_rollback_choice(later, model_id) {
        let i = choose|i: int|
            0 <= i < later.len() && #[trigger] later[i] == model_id && forall|j: int|
                i < j < later.len() ==> later[j] == later.last();
        assert(i == n - 1);
    }
}

/// Two deployments that roll back, with nothing deployed in between: if the first succeeds,
/// and the host still has the project and the model when the second runs, the second deploys
/// the model that was deployed before the first.
pub proof fn law_two_rollbacks_restore(
    request: DeployRequestView,
    history: Seq<i64>,
    first: Host,
    second: Host,
)
    requires
        request.strategy == Strategy::rollback,
        request.algorithm is None,
        outcome(request, first) is Done,
        answers_rollback(history, first.model_id),
        answers_rollback(history.push(first.model_id->0), second.model_id),
        second.project_id == first.project_id,
        second.task is Some,
        second.model_id is Some ==> second.algorithm is Some,
        second.project_loads,
    ensures
        outcome(request, second) is Done,
        actions(request, second).last() == (DeployActionView::Deploy {
            project_id: first.project_id->0,
            model_id: history.last(),
        }),
{
    let restored = first.model_id->0;
    law_rollback_of_rollback(history, restored, history.last());
    if second.model_id is Some {
        law_rollback_of_rollback(history, restored, second.model_id->0);
    }
    assert(second.model_id == Some(history.last()));
    law_successful_deployment(request, second);
}

/// The best score that a deployment looks for is the one by which tuning decides between two
/// models: the same metric, best value first, whichever direction is better.
pub proof fn law_best_score_is_what_tuning_compares(
    task: Task,
    algorithm: Option<Seq<char>>,
    metric: Metric,
)
    requires
        rules::comparison_metric(true, task) == Some(metric),
    ensures
        super::query_text(Strategy::best_score, task, algorithm) == Some(
            super::MODEL_QUERY@ + super::predicate_text(algorithm) + super::best_first(metric)
                + "\nLIMIT 1"@,
        ),
{
}

/// A query chooses at most one model: it ends in its limit.
pub proof fn law_query_is_limited(strategy: Strategy, task: Task, algorithm: Option<Seq<char>>)
    requires
        strategy != Strategy::other,
    ensures
        super::query_text(strategy, task, algorithm) is Some,
        "\nLIMIT 1"@.is_suffix_of(super::query_text(strategy, task, algorithm)->0),
{
    let query = super::query_text(strategy, task, algorithm)->0;
    let limit = "\nLIMIT 1"@;
    assert(query.subrange(query.len() - limit.len(), query.len() as int) =~= limit);
}

/// `part` stands somewhere in `text`.
pub open spec fn holds_part(text: Seq<char>, part: Seq<char>) -> bool {
    exists|before: Seq<char>, after: Seq<char>| text == #[trigger] (before + part + after)
}

/// Whatever the strategy, only models of the project and, where one is given, of the algorithm
/// are chosen: the query holds that predicate.
pub proof fn law_query_holds_predicate(strategy: Strategy, task: Task, algorithm: Option<Seq<char>>)
    requires
        strategy != Strategy::other,
    ensures
        holds_part(
            super::query_text(strategy, task, algorithm)->0,
            super::predicate_text(algorithm),
        ),
{
    let predicate = super::predicate_text(algorithm);
    let query = super::query_text(strategy, task, algorithm)->0;
    let (before, after) = match strategy {
        Strategy::best_score => (
            super::MODEL_QUERY@,
            super::best_first(task.ranking()) + "\nLIMIT 1"@,
        ),
        Strategy::rollback => (
            super::MODEL_QUERY@ + super::ROLLBACK_JOIN@,
            super::ROLLBACK_ORDER@ + "\nLIMIT 1"@,
        ),
        _ => (super::MODEL_QUERY@, "\nORDER by models.created_at DESC"@ + "\nLIMIT 1"@),
    };
    assert(query =~= before + predicate + after);
}

/// Models are never chosen by their task, unless by their score.
pub proof fn law_task_only_ranks(
    strategy: Strategy,
    first: Task,
    second: Task,
    algorithm: Option<Seq<char>>,
)
    requires
        strategy != Strategy::best_score || first.ranking() == second.ranking(),
    ensures
        super::query_text(strategy, first, algorithm) == super::query_text(
            strategy,
            second,
            algorithm,
        ),
{
}

/// The query of a rollback, with an algorithm or without, leaves out the model that is deployed
/// now and takes the one deployed last before it: after the start it holds the join that does
/// the one, then what is asked of the model, then the order that does the other.
pub proof fn law_rollback_query(task: Task, name: Seq<char>)
    ensures
        super::query_text(Strategy::rollback, task, None) == Some(
            super::MODEL_QUERY@ + super::ROLLBACK_JOIN@ + "\nWHERE projects.name = $1"@
                + super::ROLLBACK_ORDER@ + "\nLIMIT 1"@,
        ),
        super::query_text(Strategy::rollback, task, Some(name)) == Some(
            super::MODEL_QUERY@ + super::ROLLBACK_JOIN@ + ("\nWHERE projects.name = $1"@
                + "\nAND algorithm::TEXT = '"@ + name + "'"@) + super::ROLLBACK_ORDER@
                + "\nLIMIT 1"@,
        ),
{
}

/// The query for the most recent model orders the models by the time at which they were made,
/// the last one first.
pub proof fn law_most_recent_query(task: Task, name: Seq<char>)
    ensures
        super::query_text(Strategy::most_recent, task, None) == Some(
            super::MODEL_QUERY@ + "\nWHERE projects.name = $1"@
                + "\nORDER by models.created_at DESC"@ + "\nLIMIT 1"@,
        ),
        super::query_text(Strategy::most_recent, task, Some(name)) == Some(
            super::MODEL_QUERY@ + ("\nWHERE projects.name = $1"@ + "\nAND algorithm::TEXT = '"@
                + name + "'"@) + "\nORDER by models.created_at DESC"@ + "\nLIMIT 1"@,
        ),
{
}

/// The query for the best score orders the models by the metric of the task: the smallest
/// value first for the tasks that generate text, the largest first for all others.
pub proof fn law_best_score_query(task: Task, name: Seq<char>, key: Seq<char>, direction: Seq<char>)
    requires
        key == (match task {
            Task::classification => "f1"@,
            Task::question_answering => "f1"@,
            Task::text_classification => "f1"@,
            Task::regression => "r2"@,
            Task::summarization => "rouge_ngram_f1"@,
            Task::text_generation => "perplexity"@,
            Task::text2text => "perplexity"@,
            Task::translation => "bleu"@,
        }),
        direction == (if task == Task::text_generation || task == Task::text2text {
            "' ASC NULLS LAST"@
        } else {
            "' DESC NULLS LAST"@
        }),
    ensures
        super::query_text(Strategy::best_score, task, None) == Some(
            super::MODEL_QUERY@ + "\nWHERE projects.name = $1"@ + (
            "\nORDER BY models.metrics->>'"@ + key + direction) + "\nLIMIT 1"@,
        ),
        super::query_text(Strategy::best_score, task, Some(name)) == Some(
            super::MODEL_QUERY@ + ("\nWHERE projects.name = $1"@ + "\nAND algorithm::TEXT = '"@
                + name + "'"@) + ("\nORDER BY models.metrics->>'"@ + key + direction)
                + "\nLIMIT 1"@,
        ),
{
}

/// Only a strategy by which no model can be chosen has no query.
pub proof fn law_strategies_with_query(strategy: Strategy, task: Task, algorithm: Option<Seq<char>>)
    ensures
        super::query_text(strategy, task, algorithm) is None <==> strategy == Strategy::other,
{
}

/// Giving an algorithm changes nothing in a query but that its name is asked for as well,
/// right after the name of the project.
pub proof fn law_algorithm_only_narrows(strategy: Strategy, task: Task, name: Seq<char>)
    requires
        strategy != Strategy::other,
    ensures
        exists|before: Seq<char>, after: Seq<char>|
            {
                &&& super::query_text(strategy, task, None) == Some(#[trigger] (before + after))
                &&& super::query_text(strategy, task, Some(name)) == Some(
                    before + ("\nAND algorithm::TEXT = '"@ + name + "'"@) + after,
                )
                &&& "\nWHERE projects.name = $1"@.is_suffix_of(before)
            },
{
    let asked = "\nWHERE projects.name = $1"@;
    let by = "\nAND algorithm::TEXT = '"@ + name + "'"@;
    let head = if strategy == Strategy::rollback {
        super::MODEL_QUERY@ + super::ROLLBACK_JOIN@
    } else {
        super::MODEL_QUERY@
    };
    let after = match strategy {
        Strategy::best_score => super::best_first(task.ranking()) + "\nLIMIT 1"@,
        Strategy::rollback => super::ROLLBACK_ORDER@ + "\nLIMIT 1"@,
        _ => "\nORDER by models.created_at DESC"@ + "\nLIMIT 1"@,
    };
    let before = head + asked;
    assert(super::query_text(strategy, task, None)->0 =~= before + after);
    assert(super::query_text(strategy, task, Some(name))->0 =~= before + by + after);
    assert(before.subrange(before.len() - asked.len(), before.len() as int) =~= asked);
}

} // verus!
