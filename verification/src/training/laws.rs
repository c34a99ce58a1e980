//! What holds of a training run as a whole, and of the choice between two models.
use vstd::prelude::*;

use super::rules;
use super::types::{
    ActionView, ModelView, ProjectView, RecipeView, ReplyView, RequestView, StepView,
    TrainingErrorView, TrainingRunView,
};
use crate::json;
use crate::json::MetricReading;
use crate::score;
use crate::task::{Metric, Task};

verus! {

/// What the host answers to each action that a run can ask for.
pub struct Host {
    pub found: Option<ProjectView>,
    pub created: ProjectView,
    pub last_snapshot: Option<i64>,
    pub new_snapshot: i64,
    pub model: ModelView,
    pub deployed_metrics: Option<Seq<char>>,
}

/// The answer of a host to an action.
pub open spec fn answer<S, M>(host: Host, action: ActionView<S, M>) -> ReplyView {
    match action {
        ActionView::FindProject { .. } => ReplyView::FoundProject(host.found),
        ActionView::CreateProject { .. } => ReplyView::CreatedProject(host.created),
        ActionView::LastSnapshot { .. } => ReplyView::LastSnapshot(host.last_snapshot),
        ActionView::CreateSnapshot { .. } => ReplyView::CreatedSnapshot(host.new_snapshot),
        ActionView::TrainModel { .. } => ReplyView::BuiltModel(host.model),
        ActionView::TuneModel { .. } => ReplyView::BuiltModel(host.model),
        ActionView::DeployedMetrics { .. } => ReplyView::DeployedMetrics(host.deployed_metrics),
        ActionView::Deploy { .. } => ReplyView::Deployed,
    }
}

/// The step that a run reaches when the host has answered at most `turns` actions.
pub open spec fn play<S, M>(step: StepView<S, M>, host: Host, turns: nat) -> StepView<S, M>
    decreases turns,
{
    match step {
        StepView::Ask { run, action } => if turns == 0 {
            step
        } else {
            play(rules::next(run, answer(host, action)), host, (turns - 1) as nat)
        },
        _ => step,
    }
}

/// The first `turns` actions that a run asks for, in order.
pub open spec fn asked<S, M>(step: StepView<S, M>, host: Host, turns: nat) -> Seq<ActionView<S, M>>
    decreases turns,
{
    match step {
        StepView::Ask { run, action } => if turns == 0 {
            Seq::empty()
        } else {
            seq![action] + asked(
                rules::next(run, answer(host, action)),
                host,
                (turns - 1) as nat,
            )
        },
        _ => Seq::empty(),
    }
}

/// The most actions that a run asks for.
pub open spec fn longest_run() -> nat {
    6
}

/// The run of a request with a host has ended in this step.
pub open spec fn ends_in<S, M>(
    request: RequestView<S, M>,
    host: Host,
    end: StepView<S, M>,
) -> bool {
    play(rules::start(request), host, longest_run()) == end
}

/// The actions of the whole run of a request with a host.
pub open spec fn actions<S, M>(request: RequestView<S, M>, host: Host) -> Seq<ActionView<S, M>> {
    asked(rules::start(request), host, longest_run())
}

/// The project of a run: the one that was found, or else the one created for the task.
pub open spec fn project_of<S, M>(request: RequestView<S, M>, host: Host) -> Option<ProjectView> {
    match (host.found, request.task) {
        (Some(project), _) => Some(project),
        (None, Some(_)) => Some(host.created),
        (None, None) => None,
    }
}

/// Why a run of the request is refused before a snapshot is there, if it is.
pub open spec fn refusal<S, M>(request: RequestView<S, M>, host: Host) -> Option<
    TrainingErrorView,
> {
    match project_of(request, host) {
        None => Some(
            TrainingErrorView::NoProject {
                name: request.project_name,
                tuning: rules::is_tuning(request),
            },
        ),
        Some(project) => if request.task is Some && request.task->0 != project.task {
            Some(TrainingErrorView::TaskDiffers { name: project.name, task: project.task })
        } else if request.relation_name is Some && request.y_column_name is None {
            Some(TrainingErrorView::NoTargetColumn)
        } else if request.relation_name is None && host.last_snapshot is None {
            Some(TrainingErrorView::NoSnapshot)
        } else {
            None
        },
    }
}

/// The hyperparameters can be handed to the model backend.
pub open spec fn usable_hyperparams<S, M>(request: RequestView<S, M>) -> bool {
    match request.recipe {
        RecipeView::Train { .. } => true,
        RecipeView::Tune { hyperparams, .. } => json::json_object(hyperparams) is Some,
    }
}

/// The entries of the metrics document of the new model, if it has one that is an object.
pub open spec fn new_metrics(host: Host) -> Option<Map<Seq<char>, Seq<char>>> {
    match host.model.metrics {
        Some(metrics) => json::json_object(metrics),
        None => None,
    }
}

/// Whether the model of a run that made one is deployed.
pub open spec fn decision<S, M>(request: RequestView<S, M>, host: Host) -> Result<
    bool,
    TrainingErrorView,
> {
    rules::deployment(
        rules::is_tuning(request),
        project_of(request, host)->0.task,
        request.automatic_deploy,
        rules::document_entries(host.deployed_metrics),
        new_metrics(host),
    )
}

/// How the run of a request ends.
pub open spec fn outcome<S, M>(request: RequestView<S, M>, host: Host) -> StepView<S, M> {
    if refusal(request, host) is Some {
        StepView::Failed(refusal(request, host)->0)
    } else if !usable_hyperparams(request) {
        StepView::Failed(TrainingErrorView::HyperparamsNotObject)
    } else if host.model.metrics is None {
        StepView::Failed(TrainingErrorView::NoMetrics)
    } else if new_metrics(host) is None {
        StepView::Failed(TrainingErrorView::MetricsNotObject)
    } else {
        match decision(request, host) {
            Err(error) => StepView::Failed(error),
            Ok(deployed) => StepView::Done(
                rules::row(project_of(request, host)->0, host.model.algorithm, deployed),
            ),
        }
    }
}

/// Whatever the host answers, a run ends after a bounded number of actions, and it ends as
/// `outcome` says.
pub proof fn law_run_ends_in_outcome<S, M>(request: RequestView<S, M>, host: Host)
    ensures
        ends_in(request, host, outcome(request, host)),
        outcome(request, host) !is Ask,
{
    reveal_with_fuel(play, 7);
}

/// A run never changes its request, whatever it is replied.
pub proof fn law_request_is_kept<S, M>(run: TrainingRunView<S, M>, reply: ReplyView)
    ensures
        rules::next(run, reply) matches StepView::Ask { run: later, .. } ==> later.request
            == run.request,
{
}

/// The list with one action if the condition holds, else the empty list.
pub open spec fn when<S, M>(condition: bool, action: ActionView<S, M>) -> Seq<ActionView<S, M>> {
    if condition {
        seq![action]
    } else {
        Seq::empty()
    }
}

/// The snapshot that a run uses.
pub open spec fn snapshot_of<S, M>(request: RequestView<S, M>, host: Host) -> i64 {
    if request.relation_name is Some {
        host.new_snapshot
    } else {
        host.last_snapshot->0
    }
}

/// How a run with a project comes by its snapshot.
pub open spec fn snapshot_action<S, M>(request: RequestView<S, M>, host: Host) -> ActionView<S, M> {
    if request.relation_name is Some {
        ActionView::CreateSnapshot {
            relation_name: request.relation_name->0,
            y_column_name: request.y_column_name->0,
            sampling: request.sampling,
            materialize: request.materialize_snapshot,
            preprocess: request.preprocess,
        }
    } else {
        ActionView::LastSnapshot { project_id: project_of(request, host)->0.id }
    }
}

/// How a run with a snapshot comes by its model.
pub open spec fn model_action<S, M>(request: RequestView<S, M>, host: Host) -> ActionView<S, M> {
    let project_id = project_of(request, host)->0.id;
    let snapshot_id = snapshot_of(request, host);
    match request.recipe {
        RecipeView::Train { algorithm, hyperparams, options } => ActionView::TrainModel {
            project_id,
            snapshot_id,
            algorithm,
            hyperparams,
            options,
        },
        RecipeView::Tune { model_name, hyperparams } => ActionView::TuneModel {
            project_id,
            snapshot_id,
            hyperparams: json::object_text(
                rules::tuning_hyperparams(json::json_object(hyperparams), model_name)->0,
            ),
        },
    }
}

/// A run asks for its work in a fixed order: the project, the snapshot, the model, the metrics
/// of the deployed model, the deployment. A stage is reached only if nothing was refused
/// before it.
pub proof fn law_order_of_actions<S, M>(request: RequestView<S, M>, host: Host)
    ensures
        ({
            let refused = refusal(request, host);
            let builds = refused is None && usable_hyperparams(request);
            let compares = builds && new_metrics(host) is Some;
            actions(request, host) == seq![
                ActionView::<S, M>::FindProject { name: request.project_name },
            ] + when(
                host.found is None && request.task is Some,
                ActionView::CreateProject { name: request.project_name, task: request.task->0 },
            ) + when(
                refused is None || refused == Some(TrainingErrorView::NoSnapshot),
                snapshot_action(request, host),
            ) + when(builds, model_action(request, host)) + when(
                compares,
                ActionView::DeployedMetrics {
                    query: rules::metrics_query(rules::is_tuning(request)),
                    project_name: request.project_name,
                },
            ) + when(
                compares && decision(request, host) == Ok::<bool, TrainingErrorView>(true),
                ActionView::Deploy {
                    project_id: project_of(request, host)->0.id,
                    model_id: host.model.id,
                },
            )
        }),
{
    reveal_with_fuel(asked, 7);
}

/// The actions that deploy a model.
pub open spec fn is_deploy<S, M>(action: ActionView<S, M>) -> bool {
    action is Deploy
}

/// A run deploys at most one model, as its last action, and exactly if the row that it
/// returns says so. The model and the project are those of the run.
pub proof fn law_row_tells_deployment<S, M>(request: RequestView<S, M>, host: Host)
    ensures
        forall|i: int|
            0 <= i < actions(request, host).len() && is_deploy(#[trigger] actions(request, host)[i])
                ==> {
                &&& i == actions(request, host).len() - 1
                &&& actions(request, host)[i] == ActionView::<S, M>::Deploy {
                    project_id: project_of(request, host)->0.id,
                    model_id: host.model.id,
                }
            },
        (exists|i: int|
            0 <= i < actions(request, host).len() && is_deploy(#[trigger] actions(request, host)[i]))
            <==> (outcome(request, host) is Done && outcome(request, host)->Done_0.deployed),
{
    reveal_with_fuel(asked, 7);
    let list = actions(request, host);
    if outcome(request, host) is Done && outcome(request, host)->Done_0.deployed {
        assert(is_deploy(list[list.len() - 1]));
    }
}

/// A refused request changes nothing in the database but for the project that it may create:
/// no snapshot is taken, no model is made and none is deployed.
pub proof fn law_refusal_changes_nothing<S, M>(request: RequestView<S, M>, host: Host)
    requires
        refusal(request, host) is Some,
    ensures
        ends_in(request, host, StepView::Failed(refusal(request, host)->0)),
        forall|i: int|
            0 <= i < actions(request, host).len() ==> {
                ||| #[trigger] actions(request, host)[i] is FindProject
                ||| actions(request, host)[i] is CreateProject
                ||| actions(request, host)[i] is LastSnapshot
            },
        host.found is Some ==> forall|i: int|
            0 <= i < actions(request, host).len() ==> !(#[trigger] actions(request, host)[i] is CreateProject),
{
    reveal_with_fuel(play, 7);
    reveal_with_fuel(asked, 7);
}

/// The row of a finished run names the project of the run and, where a task was asked for,
/// that task.
pub proof fn law_row_matches_request<S, M>(request: RequestView<S, M>, host: Host)
    requires
        outcome(request, host) is Done,
    ensures
        outcome(request, host)->Done_0.project == project_of(request, host)->0.name,
        outcome(request, host)->Done_0.task == project_of(request, host)->0.task,
        request.task is Some ==> outcome(request, host)->Done_0.task == request.task->0,
        outcome(request, host)->Done_0.algorithm == host.model.algorithm,
{
}

/// With automatic deployment switched off nothing is ever deployed, whatever the metrics of
/// the deployed model are.
pub proof fn law_manual_deployment(
    tuning: bool,
    task: Task,
    deployed: Option<Option<Map<Seq<char>, Seq<char>>>>,
    new: Option<Map<Seq<char>, Seq<char>>>,
)
    ensures
        rules::deployment(tuning, task, Some(false), deployed, new) == Ok::<
            bool,
            TrainingErrorView,
        >(false),
{
}

/// Leaving automatic deployment unsaid is the same as asking for it.
pub proof fn law_automatic_by_default(
    tuning: bool,
    task: Task,
    deployed: Option<Option<Map<Seq<char>, Seq<char>>>>,
    new: Option<Map<Seq<char>, Seq<char>>>,
)
    ensures
        rules::deployment(tuning, task, None, deployed, new) == rules::deployment(
            tuning,
            task,
            Some(true),
            deployed,
            new,
        ),
{
}

/// Where no model is deployed yet, the new one is, unless automatic deployment is off.
pub proof fn law_first_model_is_deployed(
    tuning: bool,
    task: Task,
    automatic_deploy: Option<bool>,
    new: Option<Map<Seq<char>, Seq<char>>>,
)
    requires
        automatic_deploy != Some(false),
    ensures
        rules::deployment(tuning, task, automatic_deploy, None, new) == Ok::<
            bool,
            TrainingErrorView,
        >(true),
{
}

/// With an equal score the deployed model stays, whatever the metric. Both zeros are equal.
pub proof fn law_tie_keeps_deployed_model(metric: Metric, deployed: u64, new: u64)
    requires
        score::rank(deployed) == score::rank(new),
    ensures
        rules::replacement(
            metric,
            MetricReading::Present(Some(deployed)),
            MetricReading::Present(Some(new)),
        ) == Ok::<bool, TrainingErrorView>(false),
{
}

/// A model without a score replaces none. A model with a score replaces one without exactly
/// where larger values win.
pub proof fn law_missing_score_never_wins(metric: Metric, other: Option<u64>, score: u64)
    ensures
        !rules::new_wins(metric, other, None),
        rules::new_wins(metric, None, Some(score)) <==> !metric.smaller_wins(),
{
}

/// The choice between two models is fair: of two models with different scores that are both
/// numbers, exactly one replaces the other, and it is the better one.
pub proof fn law_better_model_wins(metric: Metric, a: u64, b: u64)
    requires
        !score::is_nan(a),
        !score::is_nan(b),
        score::rank(a) != score::rank(b),
    ensures
        rules::new_wins(metric, Some(a), Some(b)) <==> !rules::new_wins(metric, Some(b), Some(a)),
        rules::new_wins(metric, Some(a), Some(b)) <==> (if metric.smaller_wins() {
            score::rank(b) < score::rank(a)
        } else {
            score::rank(b) > score::rank(a)
        }),
{
}

/// A better score never loses the deployment: if a model with some score would be deployed,
/// so would every model with a better one.
pub proof fn law_better_score_never_loses(
    metric: Metric,
    deployed: Option<u64>,
    score: Option<u64>,
    better: Option<u64>,
)
    requires
        rules::new_wins(metric, score, better),
        rules::new_wins(metric, deployed, score),
    ensures
        rules::new_wins(metric, deployed, better),
{
}

/// A run deploys over a deployed model exactly if automatic deployment is not off and both
/// models have the metric of the task, with the better value at the new one.
pub proof fn law_only_a_better_model_replaces<S, M>(
    request: RequestView<S, M>,
    host: Host,
    deployed: Map<Seq<char>, Seq<char>>,
    metric: Metric,
)
    requires
        outcome(request, host) is Done,
        host.deployed_metrics is Some,
        json::json_object(host.deployed_metrics->0) == Some(deployed),
        rules::comparison_metric(
            rules::is_tuning(request),
            project_of(request, host)->0.task,
        ) == Some(metric),
    ensures
        outcome(request, host)->Done_0.deployed <==> {
            &&& request.automatic_deploy != Some(false)
            &&& deployed.contains_key(metric.key_text())
            &&& new_metrics(host)->0.contains_key(metric.key_text())
            &&& rules::new_wins(
                metric,
                json::json_number(deployed[metric.key_text()]),
                json::json_number(new_metrics(host)->0[metric.key_text()]),
            )
        },
{
}

/// Training and tuning choose alike for the tasks that training compares.
pub proof fn law_training_and_tuning_agree(
    task: Task,
    automatic_deploy: Option<bool>,
    deployed: Option<Option<Map<Seq<char>, Seq<char>>>>,
    new: Option<Map<Seq<char>, Seq<char>>>,
)
    requires
        task == Task::classification || task == Task::regression,
    ensures
        rules::deployment(false, task, automatic_deploy, deployed, new) == rules::deployment(
            true,
            task,
            automatic_deploy,
            deployed,
            new,
        ),
{
}

/// Training refuses the tasks that it does not compare only where there is a deployed model to
/// compare with, and tuning refuses no task.
pub proof fn law_unsupported_tasks(
    tuning: bool,
    task: Task,
    automatic_deploy: Option<bool>,
    deployed: Option<Option<Map<Seq<char>, Seq<char>>>>,
    new: Option<Map<Seq<char>, Seq<char>>>,
)
    ensures
        rules::deployment(tuning, task, automatic_deploy, deployed, new) == Err::<
            bool,
            TrainingErrorView,
        >(TrainingErrorView::UnsupportedTask) <==> {
            &&& !tuning
            &&& task != Task::classification
            &&& task != Task::regression
            &&& automatic_deploy != Some(false)
            &&& deployed is Some
            &&& deployed->0 is Some
        },
{
}

/// Completing the hyperparameters of a tuning run touches no other key, and the name given
/// last counts.
pub proof fn law_tuning_hyperparams(
    given: Map<Seq<char>, Seq<char>>,
    first: Option<Seq<char>>,
    second: Option<Seq<char>>,
    key: Seq<char>,
)
    requires
        key != "model_name"@,
    ensures
        rules::tuning_hyperparams(Some(given), first)->0["model_name"@] == json::optional_json(
            first,
        ),
        rules::tuning_hyperparams(Some(given), first)->0.contains_key(key)
            == given.contains_key(key),
        given.contains_key(key) ==> rules::tuning_hyperparams(Some(given), first)->0[key]
            == given[key],
        rules::tuning_hyperparams(rules::tuning_hyperparams(Some(given), first), second)
            == rules::tuning_hyperparams(Some(given), second),
{
    assert(given.insert("model_name"@, json::optional_json(first)).insert(
        "model_name"@,
        json::optional_json(second),
    ) =~= given.insert("model_name"@, json::optional_json(second)));
}

/// Every action of a whole run carries what the request says, whatever the other fields of the
/// request are: a model is trained by exactly the algorithm, the hyperparameters and the options
/// of the recipe, it is tuned with exactly the hyperparameters of the recipe and the name of
/// the model, and a snapshot is taken of exactly the table and the columns that were given.
pub proof fn law_run_does_what_was_asked<S, M>(request: RequestView<S, M>, host: Host)
    ensures
        forall|i: int|
            0 <= i < actions(request, host).len() ==> match #[trigger] actions(request, host)[i] {
                ActionView::FindProject { name } => name == request.project_name,
                ActionView::CreateProject { name, task } => name == request.project_name
                    && request.task == Some(task),
                ActionView::LastSnapshot { .. } => request.relation_name is None,
                ActionView::CreateSnapshot {
                    relation_name,
                    y_column_name,
                    sampling,
                    materialize,
                    preprocess,
                } => {
                    &&& request.relation_name == Some(relation_name)
                    &&& request.y_column_name == Some(y_column_name)
                    &&& request.sampling == sampling
                    &&& request.materialize_snapshot == materialize
                    &&& request.preprocess == preprocess
                },
                ActionView::TrainModel { algorithm, hyperparams, options, .. } => request.recipe
                    == (RecipeView::Train { algorithm, hyperparams, options }),
                ActionView::TuneModel { hyperparams, .. } => {
                    &&& request.recipe matches RecipeView::Tune { model_name, hyperparams: given }
                    &&& json::json_object(given) matches Some(entries)
                    &&& hyperparams == json::object_text(
                        entries.insert(
                            "model_name"@,
                            match model_name {
                                Some(name) => json::json_string(name),
                                None => "null"@,
                            },
                        ),
                    )
                },
                ActionView::DeployedMetrics { project_name, .. } => project_name
                    == request.project_name,
                ActionView::Deploy { model_id, .. } => model_id == host.model.id,
            },
{
    reveal_with_fuel(asked, 7);
}

/// A model is trained on the snapshot of the run and in its project: the one that was found or
/// created, with the new snapshot where a table was given and the last one otherwise.
pub proof fn law_model_belongs_to_run<S, M>(request: RequestView<S, M>, host: Host)
    ensures
        forall|i: int|
            0 <= i < actions(request, host).len() ==> match #[trigger] actions(request, host)[i] {
                ActionView::TrainModel { project_id, snapshot_id, .. } => {
                    &&& host.found matches Some(project) ==> project_id == project.id
                    &&& host.found is None ==> project_id == host.created.id
                    &&& request.relation_name is Some ==> snapshot_id == host.new_snapshot
                    &&& request.relation_name is None ==> host.last_snapshot == Some(snapshot_id)
                },
                ActionView::TuneModel { project_id, snapshot_id, .. } => {
                    &&& host.found matches Some(project) ==> project_id == project.id
                    &&& host.found is None ==> project_id == host.created.id
                    &&& request.relation_name is Some ==> snapshot_id == host.new_snapshot
                    &&& request.relation_name is None ==> host.last_snapshot == Some(snapshot_id)
                },
                ActionView::LastSnapshot { project_id } => {
                    &&& host.found matches Some(project) ==> project_id == project.id
                    &&& host.found is None ==> project_id == host.created.id
                },
                ActionView::Deploy { project_id, .. } => {
                    &&& host.found matches Some(project) ==> project_id == project.id
                    &&& host.found is None ==> project_id == host.created.id
                },
                _ => true,
            },
{
    reveal_with_fuel(asked, 7);
}

} // verus!
