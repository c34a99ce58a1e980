//! The rules of a run: which model replaces which, and what follows each reply.
use vstd::prelude::*;

use super::types::{
    ActionView, ModelView, ProjectView, RecipeView, ReplyView, RequestView, StageView, StepView,
    TrainedModelView, TrainingErrorView, TrainingRunView, TRAINING_METRICS_QUERY,
    TUNING_METRICS_QUERY,
};
use crate::json::{json_object, object_text, optional_json, reading_of, MetricReading};
use crate::score::exceeds;
use crate::task::{Metric, Task};

verus! {

/// The request is for tuning a model.
pub open spec fn is_tuning<S, M>(request: RequestView<S, M>) -> bool {
    request.recipe is Tune
}

/// The metric by which a new model is held against the deployed one. Tuning knows one for
/// every task, training only for classification and regression.
pub open spec fn comparison_metric(tuning: bool, task: Task) -> Option<Metric> {
    if tuning || task == Task::classification || task == Task::regression {
        Some(task.ranking())
    } else {
        None
    }
}

/// The new model scores strictly better than the deployed one. A model without a score is
/// never better. Against one, a score is better where larger values win; where smaller values
/// win it is not, since no score counts below every score.
pub open spec fn new_wins(metric: Metric, deployed: Option<u64>, new: Option<u64>) -> bool {
    match (deployed, new) {
        (_, None) => false,
        (None, Some(_)) => !metric.smaller_wins(),
        (Some(d), Some(n)) => if metric.smaller_wins() {
            exceeds(d, n)
        } else {
            exceeds(n, d)
        },
    }
}

/// Whether the new model replaces the deployed one, by what their metrics documents say: only
/// if it is better. With an equal score the deployed model stays.
pub open spec fn replacement(
    metric: Metric,
    deployed: MetricReading,
    new: MetricReading,
) -> Result<bool, TrainingErrorView> {
    match (deployed, new) {
        (MetricReading::NotAnObject, _) => Err(TrainingErrorView::DeployedMetricsNotObject),
        (MetricReading::Missing, _) => Err(TrainingErrorView::DeployedMetricMissing),
        (_, MetricReading::NotAnObject) => Err(TrainingErrorView::MetricsNotObject),
        (_, MetricReading::Missing) => Err(TrainingErrorView::MetricMissing),
        (MetricReading::Present(d), MetricReading::Present(n)) => Ok(new_wins(metric, d, n)),
    }
}

/// Whether a new model is deployed. `deployed` is the metrics document of the deployed model,
/// if there is one, and `new` that of the new model, both as the entries of a JSON object.
pub open spec fn deployment(
    tuning: bool,
    task: Task,
    automatic_deploy: Option<bool>,
    deployed: Option<Option<Map<Seq<char>, Seq<char>>>>,
    new: Option<Map<Seq<char>, Seq<char>>>,
) -> Result<bool, TrainingErrorView> {
    if automatic_deploy == Some(false) {
        Ok(false)
    } else {
        match deployed {
            None => Ok(true),
            Some(entries) => match comparison_metric(tuning, task) {
                Some(metric) => replacement(
                    metric,
                    reading_of(entries, metric.key_text()),
                    reading_of(new, metric.key_text()),
                ),
                None => if entries is None {
                    Err(TrainingErrorView::DeployedMetricsNotObject)
                } else {
                    Err(TrainingErrorView::UnsupportedTask)
                },
            },
        }
    }
}

/// The entries of an optional JSON document.
pub open spec fn document_entries(document: Option<Seq<char>>) -> Option<
    Option<Map<Seq<char>, Seq<char>>>,
> {
    match document {
        Some(text) => Some(json_object(text)),
        None => None,
    }
}

/// The hyperparameters with which a model is tuned: those given, with the name of the model
/// to start from under `model_name`. Nothing where those given are not a JSON object.
pub open spec fn tuning_hyperparams(
    given: Option<Map<Seq<char>, Seq<char>>>,
    model_name: Option<Seq<char>>,
) -> Option<Map<Seq<char>, Seq<char>>> {
    match given {
        Some(entries) => Some(entries.insert("model_name"@, optional_json(model_name))),
        None => None,
    }
}

/// A run of the request that waits in the given stage for the answer to the given action.
pub open spec fn ask<S, M>(
    request: RequestView<S, M>,
    stage: StageView,
    action: ActionView<S, M>,
) -> StepView<S, M> {
    StepView::Ask { run: TrainingRunView { request, stage }, action }
}

/// Every run starts by looking for the project.
pub open spec fn start<S, M>(request: RequestView<S, M>) -> StepView<S, M> {
    ask(
        request,
        StageView::FindProject,
        ActionView::FindProject { name: request.project_name },
    )
}

/// What follows once the project is there.
pub open spec fn with_project<S, M>(
    request: RequestView<S, M>,
    project: ProjectView,
) -> StepView<S, M> {
    if request.task is Some && request.task != Some(project.task) {
        StepView::Failed(
            TrainingErrorView::TaskDiffers { name: project.name, task: project.task },
        )
    } else {
        match (request.relation_name, request.y_column_name) {
            (None, _) => ask(
                request,
                StageView::LastSnapshot { project },
                ActionView::LastSnapshot { project_id: project.id },
            ),
            (Some(_), None) => StepView::Failed(TrainingErrorView::NoTargetColumn),
            (Some(relation_name), Some(y_column_name)) => ask(
                request,
                StageView::CreateSnapshot { project },
                ActionView::CreateSnapshot {
                    relation_name,
                    y_column_name,
                    sampling: request.sampling,
                    materialize: request.materialize_snapshot,
                    preprocess: request.preprocess,
                },
            ),
        }
    }
}

/// What follows once the snapshot is there.
pub open spec fn with_snapshot<S, M>(
    request: RequestView<S, M>,
    project: ProjectView,
    snapshot_id: i64,
) -> StepView<S, M> {
    let stage = StageView::BuildModel { project };
    match request.recipe {
        RecipeView::Train { algorithm, hyperparams, options } => ask(
            request,
            stage,
            ActionView::TrainModel {
                project_id: project.id,
                snapshot_id,
                algorithm,
                hyperparams,
                options,
            },
        ),
        RecipeView::Tune { model_name, hyperparams } => match tuning_hyperparams(
            json_object(hyperparams),
            model_name,
        ) {
            Some(entries) => ask(
                request,
                stage,
                ActionView::TuneModel {
                    project_id: project.id,
                    snapshot_id,
                    hyperparams: object_text(entries),
                },
            ),
            None => StepView::Failed(TrainingErrorView::HyperparamsNotObject),
        },
    }
}

/// The hyperparameters of a tuning action, read back, are those of its request with the name
/// of the model.
pub open spec fn names_model<S, M>(step: StepView<S, M>) -> bool {
    step matches StepView::Ask {
        run,
        action: ActionView::TuneModel { hyperparams, .. },
    } ==> run.request.recipe matches RecipeView::Tune { model_name, hyperparams: given } && {
        &&& json_object(given) is Some
        &&& json_object(hyperparams) == tuning_hyperparams(json_object(given), model_name)
    }
}

/// The query for the metrics of the deployed model.
pub open spec fn metrics_query(tuning: bool) -> Seq<char> {
    if tuning {
        TUNING_METRICS_QUERY@
    } else {
        TRAINING_METRICS_QUERY@
    }
}

/// What follows once the model is there.
pub open spec fn with_model<S, M>(
    request: RequestView<S, M>,
    project: ProjectView,
    model: ModelView,
) -> StepView<S, M> {
    match model.metrics {
        None => StepView::Failed(TrainingErrorView::NoMetrics),
        Some(metrics) => if json_object(metrics) is None {
            StepView::Failed(TrainingErrorView::MetricsNotObject)
        } else {
            ask(
                request,
                StageView::DeployedMetrics {
                    project,
                    model_id: model.id,
                    algorithm: model.algorithm,
                    metrics,
                },
                ActionView::DeployedMetrics {
                    query: metrics_query(is_tuning(request)),
                    project_name: request.project_name,
                },
            )
        },
    }
}

/// The row of a finished run.
pub open spec fn row(
    project: ProjectView,
    algorithm: Seq<char>,
    deployed: bool,
) -> TrainedModelView {
    TrainedModelView { project: project.name, task: project.task, algorithm, deployed }
}

/// What follows once it is known which model is deployed.
pub open spec fn with_deployed<S, M>(
    request: RequestView<S, M>,
    project: ProjectView,
    model_id: i64,
    algorithm: Seq<char>,
    metrics: Seq<char>,
    deployed: Option<Seq<char>>,
) -> StepView<S, M> {
    match deployment(
        is_tuning(request),
        project.task,
        request.automatic_deploy,
        document_entries(deployed),
        json_object(metrics),
    ) {
        Err(error) => StepView::Failed(error),
        Ok(false) => StepView::Done(row(project, algorithm, false)),
        Ok(true) => ask(
            request,
            StageView::Deploy { outcome: row(project, algorithm, true) },
            ActionView::Deploy { project_id: project.id, model_id },
        ),
    }
}

/// What follows a reply.
pub open spec fn next<S, M>(run: TrainingRunView<S, M>, reply: ReplyView) -> StepView<S, M> {
    let request = run.request;
    match (run.stage, reply) {
        (StageView::FindProject, ReplyView::FoundProject(Some(project))) => with_project(
            request,
            project,
        ),
        (StageView::FindProject, ReplyView::FoundProject(None)) => match request.task {
            Some(task) => ask(
                request,
                StageView::CreateProject,
                ActionView::CreateProject { name: request.project_name, task },
            ),
            None => StepView::Failed(
                TrainingErrorView::NoProject {
                    name: request.project_name,
                    tuning: is_tuning(request),
                },
            ),
        },
        (StageView::CreateProject, ReplyView::CreatedProject(project)) => with_project(
            request,
            project,
        ),
        (StageView::LastSnapshot { project }, ReplyView::LastSnapshot(Some(id))) => with_snapshot(
            request,
            project,
            id,
        ),
        (StageView::LastSnapshot { .. }, ReplyView::LastSnapshot(None)) => StepView::Failed(
            TrainingErrorView::NoSnapshot,
        ),
        (StageView::CreateSnapshot { project }, ReplyView::CreatedSnapshot(id)) => with_snapshot(
            request,
            project,
            id,
        ),
        (StageView::BuildModel { project }, ReplyView::BuiltModel(model)) => with_model(
            request,
            project,
            model,
        ),
        (
            StageView::DeployedMetrics { project, model_id, algorithm, metrics },
            ReplyView::DeployedMetrics(deployed),
        ) => with_deployed(request, project, model_id, algorithm, metrics, deployed),
        (StageView::Deploy { outcome }, ReplyView::Deployed) => StepView::Done(outcome),
        _ => StepView::Failed(TrainingErrorView::UnexpectedReply),
    }
}

} // verus!
