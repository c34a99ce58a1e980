//! What holds of the values of a run when they are read as text: every field is kept whole.
use vstd::prelude::*;

use super::run::{result_view, single_target};
use super::types::{
    optional_texts, Action, ActionView, Model, Project, Recipe, RecipeView, Reply, ReplyView,
    Request, Stage, StageView, Step, StepView, TrainedModel, TrainingError, TrainingErrorView,
    TrainingRun,
};

verus! {

/// A project and a model, read as text, keep their ids, their task and every character.
pub proof fn law_project_and_model_views(project: Project, model: Model)
    ensures
        project@.id == project.id,
        project@.name == project.name@,
        project@.task == project.task,
        model@.id == model.id,
        model@.algorithm == model.algorithm@,
        model.metrics matches Some(metrics) ==> model@.metrics == Some(metrics@),
        model.metrics is None ==> model@.metrics is None,
{
}

/// A recipe, read as text, stays for training or for tuning and keeps every field.
pub proof fn law_recipe_view<M>(recipe: Recipe<M>)
    ensures
        match recipe {
            Recipe::Train { algorithm, hyperparams, options } => recipe@ == (RecipeView::Train {
                algorithm: algorithm@,
                hyperparams: hyperparams@,
                options,
            }),
            Recipe::Tune { model_name: Some(name), hyperparams } => recipe@ == (
            RecipeView::<M>::Tune { model_name: Some(name@), hyperparams: hyperparams@ }),
            Recipe::Tune { model_name: None, hyperparams } => recipe@ == (RecipeView::<M>::Tune {
                model_name: None,
                hyperparams: hyperparams@,
            }),
        },
{
}

/// A request, read as text, keeps every field, and its target columns in their order.
pub proof fn law_request_view<S, M>(request: Request<S, M>)
    ensures
        request@.project_name == request.project_name@,
        request@.task == request.task,
        request.relation_name matches Some(name) ==> request@.relation_name == Some(name@),
        request.relation_name is None ==> request@.relation_name is None,
        request.y_column_name matches Some(columns) ==> {
            &&& request@.y_column_name matches Some(names)
            &&& names.len() == columns@.len()
            &&& forall|i: int| 0 <= i < names.len() ==> #[trigger] names[i] == columns@[i]@
        },
        request.y_column_name is None ==> request@.y_column_name is None,
        request@.sampling == request.sampling,
        request@.automatic_deploy == request.automatic_deploy,
        request@.materialize_snapshot == request.materialize_snapshot,
        request@.preprocess == request.preprocess@,
        request@.recipe == request.recipe@,
{
}

/// A list of target columns, read as texts, keeps their number and their order. A single target
/// column is a list of one.
pub proof fn law_target_columns(columns: Vec<String>, name: &str)
    ensures
        optional_texts(Some(columns)) matches Some(names) && names.len() == columns@.len()
            && forall|i: int| 0 <= i < names.len() ==> #[trigger] names[i] == columns@[i]@,
        optional_texts(None) is None,
        single_target(Some(name)) matches Some(names) && names.len() == 1 && names[0] == name@,
        single_target(None) is None,
{
}

/// An action, read as text, keeps every field.
pub proof fn law_action_view<S, M>(action: Action<S, M>)
    ensures
        match action {
            Action::FindProject { name } => action@ == (ActionView::<S, M>::FindProject {
                name: name@,
            }),
            Action::CreateProject { name, task } => action@ == (ActionView::<
                S,
                M,
            >::CreateProject { name: name@, task }),
            Action::LastSnapshot { project_id } => action@ == (ActionView::<S, M>::LastSnapshot {
                project_id,
            }),
            Action::CreateSnapshot {
                relation_name,
                y_column_name,
                sampling,
                materialize,
                preprocess,
            } => {
                &&& action@ matches ActionView::CreateSnapshot {
                    relation_name: table,
                    y_column_name: names,
                    sampling: split,
                    materialize: kept,
                    preprocess: document,
                }
                &&& table == relation_name@
                &&& names.len() == y_column_name@.len()
                &&& forall|i: int|
                    0 <= i < names.len() ==> #[trigger] names[i] == y_column_name@[i]@
                &&& split == sampling
                &&& kept == materialize
                &&& document == preprocess@
            },
            Action::TrainModel { project_id, snapshot_id, algorithm, hyperparams, options } => {
                action@ == (ActionView::<S, M>::TrainModel {
                    project_id,
                    snapshot_id,
                    algorithm: algorithm@,
                    hyperparams: hyperparams@,
                    options,
                })
            },
            Action::TuneModel { project_id, snapshot_id, hyperparams } => action@ == (ActionView::<
                S,
                M,
            >::TuneModel { project_id, snapshot_id, hyperparams: hyperparams@ }),
            Action::DeployedMetrics { query, project_name } => action@ == (ActionView::<
                S,
                M,
            >::DeployedMetrics { query: query@, project_name: project_name@ }),
            Action::Deploy { project_id, model_id } => action@ == (ActionView::<S, M>::Deploy {
                project_id,
                model_id,
            }),
        },
{
}

/// A reply, read as text, keeps what the host answered.
pub proof fn law_reply_view(reply: Reply)
    ensures
        match reply {
            Reply::FoundProject(Some(project)) => reply@ == ReplyView::FoundProject(
                Some(project@),
            ),
            Reply::FoundProject(None) => reply@ == ReplyView::FoundProject(None),
            Reply::CreatedProject(project) => reply@ == ReplyView::CreatedProject(project@),
            Reply::LastSnapshot(id) => reply@ == ReplyView::LastSnapshot(id),
            Reply::CreatedSnapshot(id) => reply@ == ReplyView::CreatedSnapshot(id),
            Reply::BuiltModel(model) => reply@ == ReplyView::BuiltModel(model@),
            Reply::DeployedMetrics(Some(metrics)) => reply@ == ReplyView::DeployedMetrics(
                Some(metrics@),
            ),
            Reply::DeployedMetrics(None) => reply@ == ReplyView::DeployedMetrics(None),
            Reply::Deployed => reply@ == ReplyView::Deployed,
        },
{
}

/// The row of a finished run, read as text, keeps every field.
pub proof fn law_row_view(row: TrainedModel)
    ensures
        row@.project == row.project@,
        row@.task == row.task,
        row@.algorithm == row.algorithm@,
        row@.deployed == row.deployed,
{
}

/// An error, read as text, stays the error that it is, and so does a result that may be one.
pub proof fn law_error_view(error: TrainingError, value: bool)
    ensures
        match error {
            TrainingError::NoProject { name, tuning } => error@ == (TrainingErrorView::NoProject {
                name: name@,
                tuning,
            }),
            TrainingError::TaskDiffers { name, task } => error@ == (
            TrainingErrorView::TaskDiffers { name: name@, task }),
            TrainingError::NoSnapshot => error@ == TrainingErrorView::NoSnapshot,
            TrainingError::NoTargetColumn => error@ == TrainingErrorView::NoTargetColumn,
            TrainingError::HyperparamsNotObject => error@
                == TrainingErrorView::HyperparamsNotObject,
            TrainingError::NoMetrics => error@ == TrainingErrorView::NoMetrics,
            TrainingError::MetricsNotObject => error@ == TrainingErrorView::MetricsNotObject,
            TrainingError::DeployedMetricsNotObject => error@
                == TrainingErrorView::DeployedMetricsNotObject,
            TrainingError::UnsupportedTask => error@ == TrainingErrorView::UnsupportedTask,
            TrainingError::DeployedMetricMissing => error@
                == TrainingErrorView::DeployedMetricMissing,
            TrainingError::MetricMissing => error@ == TrainingErrorView::MetricMissing,
            TrainingError::UnexpectedReply => error@ == TrainingErrorView::UnexpectedReply,
        },
        result_view(Ok(value)) == Ok::<bool, TrainingErrorView>(value),
        result_view(Err(error)) == Err::<bool, TrainingErrorView>(error@),
{
}

/// A stage, read as text, keeps what the run has learnt.
pub proof fn law_stage_view(stage: Stage)
    ensures
        match stage {
            Stage::FindProject => stage@ == StageView::FindProject,
            Stage::CreateProject => stage@ == StageView::CreateProject,
            Stage::LastSnapshot { project } => stage@ == (StageView::LastSnapshot {
                project: project@,
            }),
            Stage::CreateSnapshot { project } => stage@ == (StageView::CreateSnapshot {
                project: project@,
            }),
            Stage::BuildModel { project } => stage@ == (StageView::BuildModel {
                project: project@,
            }),
            Stage::DeployedMetrics { project, model_id, algorithm, metrics } => stage@ == (
            StageView::DeployedMetrics {
                project: project@,
                model_id,
                algorithm: algorithm@,
                metrics: metrics@,
            }),
            Stage::Deploy { outcome } => stage@ == (StageView::Deploy { outcome: outcome@ }),
        },
{
}

/// A run and a step, read as text, keep their parts.
pub proof fn law_run_and_step_views<S, M>(run: TrainingRun<S, M>, step: Step<S, M>)
    ensures
        run@.request == run.request@,
        run@.stage == run.stage@,
        match step {
            Step::Ask { run: later, action } => step@ == (StepView::Ask {
                run: later@,
                action: action@,
            }),
            Step::Done(row) => step@ == StepView::<S, M>::Done(row@),
            Step::Failed(error) => step@ == StepView::<S, M>::Failed(error@),
        },
{
}

} // verus!
