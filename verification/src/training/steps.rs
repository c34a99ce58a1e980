//! What holds of each step of a run, in terms of the request and of what the host replied.
use vstd::prelude::*;

use super::rules;
use super::run;
use super::types::{
    ActionView, ModelView, ProjectView, RecipeView, ReplyView, RequestView, StageView, StepView,
    TrainedModelView, TrainingErrorView, TrainingRunView, TRAINING_METRICS_QUERY,
    TUNING_METRICS_QUERY,
};
use crate::json;
use crate::task::Task;
use crate::text;

verus! {

/// A run starts by looking for the project by the name in its request.
pub proof fn law_first_action<S, M>(request: RequestView<S, M>)
    ensures
        rules::start(request) == (StepView::Ask {
            run: TrainingRunView { request, stage: StageView::FindProject },
            action: ActionView::FindProject { name: request.project_name },
        }),
{
}

/// Each action of a run comes from its request and from what the host replied. The names, the
/// columns, the sampling, the algorithm, the hyperparameters and the options are those of the
/// request, and every id is one that the host gave. The request stays as it is.
pub proof fn law_actions_come_from_request<S, M>(run: TrainingRunView<S, M>, reply: ReplyView)
    ensures
        rules::next(run, reply) matches StepView::Ask { run: later, action } ==> {
            &&& later.request == run.request
            &&& match action {
                ActionView::FindProject { .. } => false,
                ActionView::CreateProject { name, task } => {
                    &&& run.stage is FindProject
                    &&& reply == ReplyView::FoundProject(None)
                    &&& name == run.request.project_name
                    &&& run.request.task == Some(task)
                    &&& later.stage is CreateProject
                },
                ActionView::LastSnapshot { project_id } => {
                    &&& run.request.relation_name is None
                    &&& later.stage matches StageView::LastSnapshot { project }
                    &&& project.id == project_id
                    &&& {
                        ||| run.stage is FindProject && reply == ReplyView::FoundProject(
                            Some(project),
                        )
                        ||| run.stage is CreateProject && reply == ReplyView::CreatedProject(
                            project,
                        )
                    }
                },
                ActionView::CreateSnapshot {
                    relation_name,
                    y_column_name,
                    sampling,
                    materialize,
                    preprocess,
                } => {
                    &&& run.request.relation_name == Some(relation_name)
                    &&& run.request.y_column_name == Some(y_column_name)
                    &&& run.request.sampling == sampling
                    &&& run.request.materialize_snapshot == materialize
                    &&& run.request.preprocess == preprocess
                    &&& later.stage matches StageView::CreateSnapshot { project }
                    &&& {
                        ||| run.stage is FindProject && reply == ReplyView::FoundProject(
                            Some(project),
                        )
                        ||| run.stage is CreateProject && reply == ReplyView::CreatedProject(
                            project,
                        )
                    }
                },
                ActionView::TrainModel {
                    project_id,
                    snapshot_id,
                    algorithm,
                    hyperparams,
                    options,
                } => {
                    &&& run.request.recipe == (RecipeView::Train {
                        algorithm,
                        hyperparams,
                        options,
                    })
                    &&& later.stage matches StageView::BuildModel { project }
                    &&& project.id == project_id
                    &&& {
                        ||| run.stage == (StageView::LastSnapshot { project }) && reply
                            == ReplyView::LastSnapshot(Some(snapshot_id))
                        ||| run.stage == (StageView::CreateSnapshot { project }) && reply
                            == ReplyView::CreatedSnapshot(snapshot_id)
                    }
                },
                ActionView::TuneModel { project_id, snapshot_id, hyperparams } => {
                    &&& run.request.recipe matches RecipeView::Tune {
                        model_name,
                        hyperparams: given,
                    }
                    &&& json::json_object(given) matches Some(entries)
                    &&& hyperparams == json::object_text(
                        entries.insert(
                            "model_name"@,
                            match model_name {
                                Some(name) => json::json_string(name),
                                None => "null"@,
                            },
                        ),
                    )
                    &&& later.stage matches StageView::BuildModel { project }
                    &&& project.id == project_id
                    &&& {
                        ||| run.stage == (StageView::LastSnapshot { project }) && reply
                            == ReplyView::LastSnapshot(Some(snapshot_id))
                        ||| run.stage == (StageView::CreateSnapshot { project }) && reply
                            == ReplyView::CreatedSnapshot(snapshot_id)
                    }
                },
                ActionView::DeployedMetrics { query, project_name } => {
                    &&& run.request.recipe is Tune ==> query == TUNING_METRICS_QUERY@
                    &&& run.request.recipe is Train ==> query == TRAINING_METRICS_QUERY@
                    &&& project_name == run.request.project_name
                    &&& run.stage matches StageView::BuildModel { project }
                    &&& reply matches ReplyView::BuiltModel(model)
                    &&& model.metrics matches Some(metrics)
                    &&& later.stage == (StageView::DeployedMetrics {
                        project,
                        model_id: model.id,
                        algorithm: model.algorithm,
                        metrics,
                    })
                },
                ActionView::Deploy { project_id, model_id } => {
                    &&& reply is DeployedMetrics
                    &&& run.stage matches StageView::DeployedMetrics {
                        project,
                        model_id: built,
                        algorithm,
                        ..
                    }
                    &&& project.id == project_id
                    &&& built == model_id
                    &&& later.stage matches StageView::Deploy { outcome }
                    &&& outcome.project == project.name
                    &&& outcome.task == project.task
                    &&& outcome.algorithm == algorithm
                    &&& outcome.deployed
                },
            }
        },
{
}

/// Without a project, one is created for the task that was asked for; without a task the run
/// is given up, and the error says whether it was to tune.
pub proof fn law_after_missing_project<S, M>(request: RequestView<S, M>)
    ensures
        ({
            let step = rules::next(
                TrainingRunView { request, stage: StageView::FindProject },
                ReplyView::FoundProject(None),
            );
            &&& request.task is None ==> step == StepView::<S, M>::Failed(
                TrainingErrorView::NoProject {
                    name: request.project_name,
                    tuning: request.recipe is Tune,
                },
            )
            &&& request.task is Some ==> {
                &&& step matches StepView::Ask { action, .. }
                &&& action is CreateProject
            }
        }),
{
}

/// Once there is a project, whether found or created, another task than the one asked for is
/// refused first, and then a table without a target column. Otherwise a table is snapshot, and
/// without one the last snapshot is looked up.
pub proof fn law_after_project<S, M>(
    request: RequestView<S, M>,
    project: ProjectView,
    created: bool,
)
    ensures
        ({
            let step = if created {
                rules::next(
                    TrainingRunView { request, stage: StageView::CreateProject },
                    ReplyView::CreatedProject(project),
                )
            } else {
                rules::next(
                    TrainingRunView { request, stage: StageView::FindProject },
                    ReplyView::FoundProject(Some(project)),
                )
            };
            let differs = request.task matches Some(task) && task != project.task;
            &&& differs ==> step == StepView::<S, M>::Failed(
                TrainingErrorView::TaskDiffers { name: project.name, task: project.task },
            )
            &&& !differs && request.relation_name is Some && request.y_column_name is None ==> step
                == StepView::<S, M>::Failed(TrainingErrorView::NoTargetColumn)
            &&& !differs && request.relation_name is Some && request.y_column_name is Some ==> {
                &&& step matches StepView::Ask { action, .. }
                &&& action is CreateSnapshot
            }
            &&& !differs && request.relation_name is None ==> {
                &&& step matches StepView::Ask { action, .. }
                &&& action == (ActionView::<S, M>::LastSnapshot { project_id: project.id })
            }
        }),
{
}

/// Once there is a snapshot, whether looked up or created, a model is trained, or tuned if its
/// hyperparameters are a JSON object. Where there is none to look up, the run is given up.
pub proof fn law_after_snapshot<S, M>(
    request: RequestView<S, M>,
    project: ProjectView,
    snapshot_id: i64,
    created: bool,
)
    ensures
        rules::next(
            TrainingRunView { request, stage: StageView::LastSnapshot { project } },
            ReplyView::LastSnapshot(None),
        ) == StepView::<S, M>::Failed(TrainingErrorView::NoSnapshot),
        ({
            let step = if created {
                rules::next(
                    TrainingRunView { request, stage: StageView::CreateSnapshot { project } },
                    ReplyView::CreatedSnapshot(snapshot_id),
                )
            } else {
                rules::next(
                    TrainingRunView { request, stage: StageView::LastSnapshot { project } },
                    ReplyView::LastSnapshot(Some(snapshot_id)),
                )
            };
            match request.recipe {
                RecipeView::Train { algorithm, hyperparams, options } => {
                    &&& step matches StepView::Ask { action, .. }
                    &&& action == (ActionView::<S, M>::TrainModel {
                        project_id: project.id,
                        snapshot_id,
                        algorithm,
                        hyperparams,
                        options,
                    })
                },
                RecipeView::Tune { hyperparams, .. } => {
                    &&& json::json_object(hyperparams) is None ==> step == StepView::<
                        S,
                        M,
                    >::Failed(TrainingErrorView::HyperparamsNotObject)
                    &&& json::json_object(hyperparams) is Some ==> {
                        &&& step matches StepView::Ask { action, .. }
                        &&& action is TuneModel
                    }
                },
            }
        }),
{
}

/// Once there is a model, the metrics of the deployed one are asked for if its own are a JSON
/// object.
pub proof fn law_after_model<S, M>(
    request: RequestView<S, M>,
    project: ProjectView,
    model: ModelView,
)
    ensures
        ({
            let step = rules::next(
                TrainingRunView { request, stage: StageView::BuildModel { project } },
                ReplyView::BuiltModel(model),
            );
            match model.metrics {
                None => step == StepView::<S, M>::Failed(TrainingErrorView::NoMetrics),
                Some(metrics) => {
                    &&& json::json_object(metrics) is None ==> step == StepView::<S, M>::Failed(
                        TrainingErrorView::MetricsNotObject,
                    )
                    &&& json::json_object(metrics) is Some ==> {
                        &&& step matches StepView::Ask { action, .. }
                        &&& action is DeployedMetrics
                    }
                },
            }
        }),
{
}

/// Once the metrics of the deployed model are there, or their absence is known, the choice
/// between the two models decides: the new one is deployed, or the run is done without, or it
/// fails with the error of the choice.
pub proof fn law_after_deployed_metrics<S, M>(
    request: RequestView<S, M>,
    project: ProjectView,
    model_id: i64,
    algorithm: Seq<char>,
    metrics: Seq<char>,
    deployed: Option<Seq<char>>,
)
    ensures
        ({
            let step = rules::next(
                TrainingRunView {
                    request,
                    stage: StageView::DeployedMetrics { project, model_id, algorithm, metrics },
                },
                ReplyView::DeployedMetrics(deployed),
            );
            let choice = rules::deployment(
                request.recipe is Tune,
                project.task,
                request.automatic_deploy,
                match deployed {
                    Some(document) => Some(json::json_object(document)),
                    None => None,
                },
                json::json_object(metrics),
            );
            match choice {
                Err(error) => step == StepView::<S, M>::Failed(error),
                Ok(deploy) => {
                    &&& deploy ==> {
                        &&& step matches StepView::Ask { action, .. }
                        &&& action == (ActionView::<S, M>::Deploy {
                            project_id: project.id,
                            model_id,
                        })
                    }
                    &&& !deploy ==> step == StepView::<S, M>::Done(
                        TrainedModelView {
                            project: project.name,
                            task: project.task,
                            algorithm,
                            deployed: false,
                        },
                    )
                },
            }
        }),
{
}

/// A run is done once the model is deployed, with the row that was made before, or else once
/// it has decided not to deploy it.
pub proof fn law_row_of_run<S, M>(run: TrainingRunView<S, M>, reply: ReplyView)
    ensures
        reply is Deployed ==> (run.stage matches StageView::Deploy { outcome } ==> rules::next(
            run,
            reply,
        ) == StepView::<S, M>::Done(outcome)),
        rules::next(run, reply) matches StepView::Done(row) ==> {
            ||| run.stage == (StageView::Deploy { outcome: row }) && reply is Deployed
            ||| !row.deployed && run.stage is DeployedMetrics && reply is DeployedMetrics
        },
{
}

/// A run is given up over the reply exactly if it does not answer the last action.
pub proof fn law_unexpected_reply<S, M>(run: TrainingRunView<S, M>, reply: ReplyView)
    ensures
        rules::next(run, reply) == StepView::<S, M>::Failed(TrainingErrorView::UnexpectedReply)
            <==> !({
            ||| run.stage is FindProject && reply is FoundProject
            ||| run.stage is CreateProject && reply is CreatedProject
            ||| run.stage is LastSnapshot && reply is LastSnapshot
            ||| run.stage is CreateSnapshot && reply is CreatedSnapshot
            ||| run.stage is BuildModel && reply is BuiltModel
            ||| run.stage is DeployedMetrics && reply is DeployedMetrics
            ||| run.stage is Deploy && reply is Deployed
        }),
{
}

/// The hyperparameters of a tuning run are those given with one more entry, the name of the
/// model as a JSON string, or `null` where there is no name. What is no object stays none.
pub proof fn law_tuning_adds_model_name(given: Map<Seq<char>, Seq<char>>, name: Seq<char>)
    ensures
        rules::tuning_hyperparams(Some(given), Some(name)) == Some(
            given.insert("model_name"@, json::json_string(name)),
        ),
        rules::tuning_hyperparams(Some(given), None) == Some(
            given.insert("model_name"@, "null"@),
        ),
        rules::tuning_hyperparams(None, Some(name)) is None,
        rules::tuning_hyperparams(None, None) is None,
{
}

/// The message for a missing project or another task holds the whole name of the project, and
/// each other error has a fixed message.
pub proof fn law_messages(name: Seq<char>, task: Task)
    ensures
        run::message_text(TrainingErrorView::NoProject { name, tuning: true }) == "Project `"@
            + name + "` does not exist. To create a new project, provide the task."@,
        run::message_text(TrainingErrorView::NoProject { name, tuning: false }) == "Project `"@
            + name
            + "` does not exist. To create a new project, provide the task (regression or classification)."@,
        run::message_text(TrainingErrorView::TaskDiffers { name, task }) == "Project `"@
            + text::debugged(name) + "` already exists with a different task: `"@
            + task.label_text() + "`. Create a new project instead."@,
        run::message_text(TrainingErrorView::NoSnapshot)
            == "You must pass a `relation_name` and `y_column_name` to snapshot the first time you train a model."@,
        run::message_text(TrainingErrorView::NoTargetColumn)
            == "You must pass a `y_column_name` when you pass a `relation_name`"@,
        run::message_text(TrainingErrorView::UnsupportedTask)
            == "Training only supports `classification` and `regression` task types."@,
        run::message_text(TrainingErrorView::UnexpectedReply)
            == "the reply does not answer the last action"@,
        run::message_text(TrainingErrorView::HyperparamsNotObject)
            == "called `Option::unwrap()` on a `None` value"@,
        run::message_text(TrainingErrorView::NoMetrics)
            == "called `Option::unwrap()` on a `None` value"@,
        run::message_text(TrainingErrorView::MetricsNotObject)
            == "called `Option::unwrap()` on a `None` value"@,
        run::message_text(TrainingErrorView::DeployedMetricsNotObject)
            == "called `Option::unwrap()` on a `None` value"@,
        run::message_text(TrainingErrorView::DeployedMetricMissing)
            == "called `Option::unwrap()` on a `None` value"@,
        run::message_text(TrainingErrorView::MetricMissing)
            == "called `Option::unwrap()` on a `None` value"@,
{
}

} // verus!
