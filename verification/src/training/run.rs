//! The steps of a training run.
use vstd::prelude::*;

use super::rules;
use super::types::{
    Action, Model, Project, Recipe, RecipeView, Reply, Request, RequestView, Stage, Step,
    TrainedModel, TrainingError, TrainingErrorView, TrainingRun, TRAINING_METRICS_QUERY,
    TUNING_METRICS_QUERY,
};
use crate::json;
use crate::json::{JsonObject, MetricReading};
use crate::score::is_greater;
use crate::task::{Metric, Task};
use crate::text;
use crate::text::{copy_texts, debug_text, owned_text};

verus! {

/// A result, with the strings of its error as text.
pub open spec fn result_view(result: Result<bool, TrainingError>) -> Result<
    bool,
    TrainingErrorView,
> {
    match result {
        Ok(value) => Ok(value),
        Err(error) => Err(error@),
    }
}

/// The metric by which a new model is held against the deployed one.
pub fn comparison_metric(tuning: bool, task: Task) -> (metric: Option<Metric>)
    ensures
        metric == rules::comparison_metric(tuning, task),
{
    if tuning || task == Task::classification || task == Task::regression {
        Some(task.metric())
    } else {
        None
    }
}

/// Whether a new model with one score is better than a deployed model with another.
pub fn new_wins(metric: Metric, deployed: Option<u64>, new: Option<u64>) -> (wins: bool)
    ensures
        wins == rules::new_wins(metric, deployed, new),
{
    match (deployed, new) {
        (_, None) => false,
        (None, Some(_)) => !metric.lower_is_better(),
        (Some(d), Some(n)) => if metric.lower_is_better() {
            is_greater(d, n)
        } else {
            is_greater(n, d)
        },
    }
}

/// Decides from two readings of a metric whether the new model replaces the deployed one.
pub fn replacement(metric: Metric, deployed: MetricReading, new: MetricReading) -> (replaces: Result<
    bool,
    TrainingError,
>)
    ensures
        result_view(replaces) == rules::replacement(metric, deployed, new),
{
    match (deployed, new) {
        (MetricReading::NotAnObject, _) => Err(TrainingError::DeployedMetricsNotObject),
        (MetricReading::Missing, _) => Err(TrainingError::DeployedMetricMissing),
        (_, MetricReading::NotAnObject) => Err(TrainingError::MetricsNotObject),
        (_, MetricReading::Missing) => Err(TrainingError::MetricMissing),
        (MetricReading::Present(d), MetricReading::Present(n)) => {
            Ok(new_wins(metric, d, n))
        },
    }
}

/// Decides whether a new model is deployed, from the metrics documents of the deployed model,
/// if there is one, and of the new model.
pub fn deployment(
    tuning: bool,
    task: Task,
    automatic_deploy: Option<bool>,
    deployed: Option<&str>,
    new: &str,
) -> (deploy: Result<bool, TrainingError>)
    ensures
        result_view(deploy) == rules::deployment(
            tuning,
            task,
            automatic_deploy,
            rules::document_entries(text::optional_str(deployed)),
            json::json_object(new@),
        ),
{
    match automatic_deploy {
        Some(false) => Ok(false),
        Some(true) | None => match deployed {
            None => Ok(true),
            Some(document) => match comparison_metric(tuning, task) {
                Some(metric) => replacement(
                    metric,
                    json::read_metric(document, metric.key()),
                    json::read_metric(new, metric.key()),
                ),
                None => if json::is_object(document) {
                    Err(TrainingError::UnsupportedTask)
                } else {
                    Err(TrainingError::DeployedMetricsNotObject)
                },
            },
        },
    }
}

/// The hyperparameters of a tuning run as JSON text: those given, with the name of the model
/// to start from under `model_name`.
pub fn tuning_hyperparams(hyperparams: &str, model_name: Option<&str>) -> (complete: Option<String>)
    ensures
        complete is Some <==> json::json_object(hyperparams@) is Some,
        complete matches Some(c) ==> {
            let entries = rules::tuning_hyperparams(
                json::json_object(hyperparams@),
                text::optional_str(model_name),
            );
            &&& c@ == json::object_text(entries->0)
            &&& json::json_object(c@) == entries
        },
{
    match JsonObject::parse(hyperparams) {
        None => None,
        Some(mut object) => {
            object.set("model_name", model_name);
            Some(object.print())
        },
    }
}

/// Starts a run.
fn start<S: Copy, M: Copy>(request: Request<S, M>) -> (step: Step<S, M>)
    ensures
        step@ == rules::start(request@),
{
    let name: String = request.project_name.clone();
    Step::Ask {
        run: TrainingRun { request, stage: Stage::FindProject },
        action: Action::FindProject { name },
    }
}

/// Starts training a model on one or more target columns.
pub fn train_joint<S: Copy, M: Copy>(
    project_name: &str,
    task: Option<Task>,
    relation_name: Option<&str>,
    y_column_name: Option<Vec<String>>,
    algorithm: &str,
    hyperparams: &str,
    options: M,
    sampling: S,
    automatic_deploy: Option<bool>,
    materialize_snapshot: bool,
    preprocess: &str,
) -> (step: Step<S, M>)
    ensures
        step@ == rules::start(
            (RequestView {
                project_name: project_name@,
                task,
                relation_name: text::optional_str(relation_name),
                y_column_name: super::types::optional_texts(y_column_name),
                sampling,
                automatic_deploy,
                materialize_snapshot,
                preprocess: preprocess@,
                recipe: RecipeView::Train {
                    algorithm: algorithm@,
                    hyperparams: hyperparams@,
                    options,
                },
            }),
        ),
{
    start(
        Request {
            project_name: project_name.to_owned(),
            task,
            relation_name: owned_text(relation_name),
            y_column_name,
            sampling,
            automatic_deploy,
            materialize_snapshot,
            preprocess: preprocess.to_owned(),
            recipe: Recipe::Train {
                algorithm: algorithm.to_owned(),
                hyperparams: hyperparams.to_owned(),
                options,
            },
        },
    )
}

/// The target columns of a request that names one column or none.
pub open spec fn single_target(y_column_name: Option<&str>) -> Option<Seq<Seq<char>>> {
    match y_column_name {
        Some(name) => Some(seq![name@]),
        None => None,
    }
}

fn target_columns(y_column_name: Option<&str>) -> (columns: Option<Vec<String>>)
    ensures
        super::types::optional_texts(columns) == single_target(y_column_name),
{
    match y_column_name {
        Some(name) => {
            let mut columns: Vec<String> = Vec::new();
            columns.push(name.to_owned());
            assert(text::texts(columns@) =~= seq![name@]);
            Some(columns)
        },
        None => None,
    }
}

/// Starts training a model on one target column.
pub fn train<S: Copy, M: Copy>(
    project_name: &str,
    task: Option<Task>,
    relation_name: Option<&str>,
    y_column_name: Option<&str>,
    algorithm: &str,
    hyperparams: &str,
    options: M,
    sampling: S,
    automatic_deploy: Option<bool>,
    materialize_snapshot: bool,
    preprocess: &str,
) -> (step: Step<S, M>)
    ensures
        step@ == rules::start(
            (RequestView {
                project_name: project_name@,
                task,
                relation_name: text::optional_str(relation_name),
                y_column_name: single_target(y_column_name),
                sampling,
                automatic_deploy,
                materialize_snapshot,
                preprocess: preprocess@,
                recipe: RecipeView::Train {
                    algorithm: algorithm@,
                    hyperparams: hyperparams@,
                    options,
                },
            }),
        ),
{
    train_joint(
        project_name,
        task,
        relation_name,
        target_columns(y_column_name),
        algorithm,
        hyperparams,
        options,
        sampling,
        automatic_deploy,
        materialize_snapshot,
        preprocess,
    )
}

/// Starts tuning a model on one target column. A tuning run snapshots without preprocessing.
pub fn tune<S: Copy>(
    project_name: &str,
    task: Option<Task>,
    relation_name: Option<&str>,
    y_column_name: Option<&str>,
    model_name: Option<&str>,
    hyperparams: &str,
    sampling: S,
    automatic_deploy: Option<bool>,
    materialize_snapshot: bool,
) -> (step: Step<S, ()>)
    ensures
        step@ == rules::start(
            (RequestView {
                project_name: project_name@,
                task,
                relation_name: text::optional_str(relation_name),
                y_column_name: single_target(y_column_name),
                sampling,
                automatic_deploy,
                materialize_snapshot,
                preprocess: "{}"@,
                recipe: RecipeView::<()>::Tune {
                    model_name: text::optional_str(model_name),
                    hyperparams: hyperparams@,
                },
            }),
        ),
{
    start(
        Request {
            project_name: project_name.to_owned(),
            task,
            relation_name: owned_text(relation_name),
            y_column_name: target_columns(y_column_name),
            sampling,
            automatic_deploy,
            materialize_snapshot,
            preprocess: "{}".to_owned(),
            recipe: Recipe::Tune {
                model_name: owned_text(model_name),
                hyperparams: hyperparams.to_owned(),
            },
        },
    )
}

fn with_project<S: Copy, M: Copy>(request: Request<S, M>, project: Project) -> (step: Step<S, M>)
    ensures
        step@ == rules::with_project(request@, project@),
{
    if let Some(task) = request.task {
        if task != project.task {
            return Step::Failed(
                TrainingError::TaskDiffers { name: project.name, task: project.task },
            );
        }
    }
    let action: Action<S, M> = match &request.relation_name {
        None => Action::LastSnapshot { project_id: project.id },
        Some(relation_name) => match &request.y_column_name {
            None => {
                return Step::Failed(TrainingError::NoTargetColumn);
            },
            Some(columns) => Action::CreateSnapshot {
                relation_name: relation_name.clone(),
                y_column_name: copy_texts(columns),
                sampling: request.sampling,
                materialize: request.materialize_snapshot,
                preprocess: request.preprocess.clone(),
            },
        },
    };
    let stage: Stage = match &request.relation_name {
        None => Stage::LastSnapshot { project },
        Some(_) => Stage::CreateSnapshot { project },
    };
    Step::Ask { run: TrainingRun { request, stage }, action }
}

fn with_snapshot<S: Copy, M: Copy>(
    request: Request<S, M>,
    project: Project,
    snapshot_id: i64,
) -> (step: Step<S, M>)
    ensures
        step@ == rules::with_snapshot(request@, project@, snapshot_id),
        rules::names_model(step@),
{
    let action: Action<S, M> = match &request.recipe {
        Recipe::Train { algorithm, hyperparams, options } => Action::TrainModel {
            project_id: project.id,
            snapshot_id,
            algorithm: algorithm.clone(),
            hyperparams: hyperparams.clone(),
            options: *options,
        },
        Recipe::Tune { model_name, hyperparams } => {
            let name: Option<&str> = match model_name {
                Some(n) => Some(n.as_str()),
                None => None,
            };
            match tuning_hyperparams(hyperparams.as_str(), name) {
                Some(complete) => Action::TuneModel {
                    project_id: project.id,
                    snapshot_id,
                    hyperparams: complete,
                },
                None => {
                    return Step::Failed(TrainingError::HyperparamsNotObject);
                },
            }
        },
    };
    Step::Ask { run: TrainingRun { request, stage: Stage::BuildModel { project } }, action }
}

fn with_model<S: Copy, M: Copy>(request: Request<S, M>, project: Project, model: Model) -> (step:
    Step<S, M>)
    ensures
        step@ == rules::with_model(request@, project@, model@),
{
    match model.metrics {
        None => Step::Failed(TrainingError::NoMetrics),
        Some(metrics) => {
            if !json::is_object(metrics.as_str()) {
                return Step::Failed(TrainingError::MetricsNotObject);
            }
            let project_name: String = request.project_name.clone();
            let query: String = match &request.recipe {
                Recipe::Tune { .. } => TUNING_METRICS_QUERY.to_owned(),
                Recipe::Train { .. } => TRAINING_METRICS_QUERY.to_owned(),
            };
            Step::Ask {
                run: TrainingRun {
                    request,
                    stage: Stage::DeployedMetrics {
                        project,
                        model_id: model.id,
                        algorithm: model.algorithm,
                        metrics,
                    },
                },
                action: Action::DeployedMetrics { query, project_name },
            }
        },
    }
}

fn with_deployed<S: Copy, M: Copy>(
    request: Request<S, M>,
    project: Project,
    model_id: i64,
    algorithm: String,
    metrics: String,
    deployed: Option<String>,
) -> (step: Step<S, M>)
    ensures
        step@ == rules::with_deployed(
            request@,
            project@,
            model_id,
            algorithm@,
            metrics@,
            text::optional_text(deployed),
        ),
{
    let tuning: bool = match &request.recipe {
        Recipe::Tune { .. } => true,
        Recipe::Train { .. } => false,
    };
    let document: Option<&str> = match &deployed {
        Some(text) => Some(text.as_str()),
        None => None,
    };
    match deployment(tuning, project.task, request.automatic_deploy, document, metrics.as_str()) {
        Err(error) => Step::Failed(error),
        Ok(deploy) => {
            let project_id: i64 = project.id;
            let outcome: TrainedModel = TrainedModel {
                project: project.name,
                task: project.task,
                algorithm,
                deployed: deploy,
            };
            if deploy {
                Step::Ask {
                    run: TrainingRun { request, stage: Stage::Deploy { outcome } },
                    action: Action::Deploy { project_id, model_id },
                }
            } else {
                Step::Done(outcome)
            }
        },
    }
}

impl<S: Copy, M: Copy> TrainingRun<S, M> {
    /// Takes the reply of the host to the last action.
    pub fn step(self, reply: Reply) -> (step: Step<S, M>)
        ensures
            step@ == rules::next(self@, reply@),
            rules::names_model(step@),
    {
        let TrainingRun { request, stage } = self;
        match (stage, reply) {
            (Stage::FindProject, Reply::FoundProject(Some(project))) => with_project(
                request,
                project,
            ),
            (Stage::FindProject, Reply::FoundProject(None)) => {
                let name: String = request.project_name.clone();
                match request.task {
                    Some(task) => Step::Ask {
                        run: TrainingRun { request, stage: Stage::CreateProject },
                        action: Action::CreateProject { name, task },
                    },
                    None => {
                        let tuning: bool = match &request.recipe {
                            Recipe::Tune { .. } => true,
                            Recipe::Train { .. } => false,
                        };
                        Step::Failed(TrainingError::NoProject { name, tuning })
                    },
                }
            },
            (Stage::CreateProject, Reply::CreatedProject(project)) => with_project(
                request,
                project,
            ),
            (Stage::LastSnapshot { project }, Reply::LastSnapshot(Some(id))) => with_snapshot(
                request,
                project,
                id,
            ),
            (Stage::LastSnapshot { .. }, Reply::LastSnapshot(None)) => Step::Failed(
                TrainingError::NoSnapshot,
            ),
            (Stage::CreateSnapshot { project }, Reply::CreatedSnapshot(id)) => with_snapshot(
                request,
                project,
                id,
            ),
            (Stage::BuildModel { project }, Reply::BuiltModel(model)) => with_model(
                request,
                project,
                model,
            ),
            (
                Stage::DeployedMetrics { project, model_id, algorithm, metrics },
                Reply::DeployedMetrics(deployed),
            ) => with_deployed(request, project, model_id, algorithm, metrics, deployed),
            (Stage::Deploy { outcome }, Reply::Deployed) => Step::Done(outcome),
            _ => Step::Failed(TrainingError::UnexpectedReply),
        }
    }
}

/// The message that a user gets for an error.
pub open spec fn message_text(error: TrainingErrorView) -> Seq<char> {
    match error {
        TrainingErrorView::NoProject { name, tuning } => "Project `"@ + name + if tuning {
            "` does not exist. To create a new project, provide the task."@
        } else {
            "` does not exist. To create a new project, provide the task (regression or classification)."@
        },
        TrainingErrorView::TaskDiffers { name, task } => "Project `"@ + text::debugged(name)
            + "` already exists with a different task: `"@ + task.label_text()
            + "`. Create a new project instead."@,
        TrainingErrorView::NoSnapshot => {
            "You must pass a `relation_name` and `y_column_name` to snapshot the first time you train a model."@
        },
        TrainingErrorView::NoTargetColumn => {
            "You must pass a `y_column_name` when you pass a `relation_name`"@
        },
        TrainingErrorView::UnsupportedTask => {
            "Training only supports `classification` and `regression` task types."@
        },
        TrainingErrorView::UnexpectedReply => "the reply does not answer the last action"@,
        _ => "called `Option::unwrap()` on a `None` value"@,
    }
}

impl TrainingError {
    /// The message that a user gets for the error.
    pub fn message(&self) -> (message: String)
        ensures
            message@ == message_text(self@),
    {
        match self {
            TrainingError::NoProject { name, tuning } => {
                let mut message: String = "Project `".to_owned();
                message.append(name.as_str());
                if *tuning {
                    message.append("` does not exist. To create a new project, provide the task.");
                } else {
                    message.append(
                        "` does not exist. To create a new project, provide the task (regression or classification).",
                    );
                }
                message
            },
            TrainingError::TaskDiffers { name, task } => {
                let mut message: String = "Project `".to_owned();
                message.append(debug_text(name.as_str()).as_str());
                message.append("` already exists with a different task: `");
                message.append(task.label());
                message.append("`. Create a new project instead.");
                message
            },
            TrainingError::NoSnapshot => {
                "You must pass a `relation_name` and `y_column_name` to snapshot the first time you train a model.".to_owned()
            },
            TrainingError::NoTargetColumn => {
                "You must pass a `y_column_name` when you pass a `relation_name`".to_owned()
            },
            TrainingError::UnsupportedTask => {
                "Training only supports `classification` and `regression` task types.".to_owned()
            },
            TrainingError::UnexpectedReply => {
                "the reply does not answer the last action".to_owned()
            },
            _ => "called `Option::unwrap()` on a `None` value".to_owned(),
        }
    }
}

} // verus!
