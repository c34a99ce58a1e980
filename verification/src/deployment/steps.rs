//! What holds of each step of a deployment, in terms of the request and of what the host
//! replied, and of how its values are read as text.
use vstd::prelude::*;

use super::{
    DeployAction, DeployActionView, DeployError, DeployErrorView, DeployReply, DeployReplyView,
    DeployRequest, DeployRequestView, DeployRun, DeployRunView, DeployStage, DeployStageView,
    DeployStep, DeployStepView, DeployedModel, DeployedModelView, Strategy,
};
use crate::task::Task;

verus! {

/// A deployment starts by looking for the project by the name in its request.
pub proof fn law_first_action(request: DeployRequestView)
    ensures
        super::start(request) == (DeployStepView::Ask {
            run: DeployRunView { request, stage: DeployStageView::FindProject },
            action: DeployActionView::FindProject {
                query: "SELECT id, task::TEXT from pgml.projects WHERE name = $1"@,
                name: request.project_name,
            },
        }),
{
}

/// Each action of a deployment comes from its request and from what the host replied: the
/// query is that of the strategy, the task and the algorithm, every name is that of the
/// request, and every id is one that the host gave. The request stays as it is.
pub proof fn law_actions_come_from_request(run: DeployRunView, reply: DeployReplyView)
    ensures
        super::next(run, reply) matches DeployStepView::Ask { run: later, action } ==> {
            &&& later.request == run.request
            &&& match action {
                DeployActionView::FindProject { .. } => false,
                DeployActionView::SelectModel { query, project_name } => {
                    &&& run.stage is FindProject
                    &&& reply matches DeployReplyView::FoundProject { id, task }
                    &&& id matches Some(project_id)
                    &&& task matches Some(known)
                    &&& super::query_text(run.request.strategy, known, run.request.algorithm)
                        == Some(query)
                    &&& project_name == run.request.project_name
                    &&& later.stage == (DeployStageView::SelectModel { project_id })
                },
                DeployActionView::LoadProject { project_id } => {
                    &&& run.stage == (DeployStageView::SelectModel { project_id })
                    &&& reply matches DeployReplyView::SelectedModel { id, algorithm }
                    &&& id matches Some(model_id)
                    &&& algorithm matches Some(name)
                    &&& later.stage == (DeployStageView::LoadProject {
                        project_id,
                        model_id,
                        algorithm: name,
                    })
                },
                DeployActionView::Deploy { project_id, model_id } => {
                    &&& reply == DeployReplyView::LoadedProject(true)
                    &&& run.stage matches DeployStageView::LoadProject {
                        project_id: p,
                        model_id: m,
                        algorithm,
                    }
                    &&& p == project_id
                    &&& m == model_id
                    &&& later.stage == (DeployStageView::Deploy { algorithm })
                },
            }
        },
{
}

/// What follows the search for a project: an error without a project, without a task and for a
/// strategy that cannot choose, in this order, and else the choice of a model.
pub proof fn law_after_project(request: DeployRequestView, id: Option<i64>, task: Option<Task>)
    ensures
        ({
            let step = super::next(
                DeployRunView { request, stage: DeployStageView::FindProject },
                DeployReplyView::FoundProject { id, task },
            );
            &&& id is None ==> step == DeployStepView::Failed(
                DeployErrorView::NoProject { name: request.project_name },
            )
            &&& id is Some && task is None ==> step == DeployStepView::Failed(
                DeployErrorView::NoTask,
            )
            &&& id is Some && task is Some && request.strategy == Strategy::other ==> step
                == DeployStepView::Failed(DeployErrorView::InvalidStrategy)
            &&& id is Some && task is Some && request.strategy != Strategy::other ==> {
                &&& step matches DeployStepView::Ask { action, .. }
                &&& action is SelectModel
            }
        }),
{
}

/// What follows the choice of a model: its project is loaded if both its id and its algorithm
/// came, and else no model qualifies.
pub proof fn law_after_selection(
    request: DeployRequestView,
    project_id: i64,
    id: Option<i64>,
    algorithm: Option<Seq<char>>,
)
    ensures
        ({
            let step = super::next(
                DeployRunView { request, stage: DeployStageView::SelectModel { project_id } },
                DeployReplyView::SelectedModel { id, algorithm },
            );
            &&& id is None || algorithm is None ==> step == DeployStepView::Failed(
                DeployErrorView::NoModel,
            )
            &&& id is Some && algorithm is Some ==> {
                &&& step matches DeployStepView::Ask { action, .. }
                &&& action == (DeployActionView::LoadProject { project_id })
            }
        }),
{
}

/// What follows the load of the project: the chosen model is deployed in it, or the load
/// failed.
pub proof fn law_after_load(
    request: DeployRequestView,
    project_id: i64,
    model_id: i64,
    algorithm: Seq<char>,
    loaded: bool,
)
    ensures
        ({
            let step = super::next(
                DeployRunView {
                    request,
                    stage: DeployStageView::LoadProject { project_id, model_id, algorithm },
                },
                DeployReplyView::LoadedProject(loaded),
            );
            &&& !loaded ==> step == DeployStepView::Failed(DeployErrorView::ProjectNotLoaded)
            &&& loaded ==> {
                &&& step matches DeployStepView::Ask { action, .. }
                &&& action == (DeployActionView::Deploy { project_id, model_id })
            }
        }),
{
}

/// A deployment is done exactly when the host has deployed the model. The row gives the name
/// of the project and the strategy back as they were asked for, and the algorithm of the model.
pub proof fn law_row_of_deployment(run: DeployRunView, reply: DeployReplyView)
    ensures
        super::next(run, reply) is Done <==> run.stage is Deploy && reply is Deployed,
        super::next(run, reply) matches DeployStepView::Done(row) ==> {
            &&& row.project == run.request.project_name
            &&& row.strategy == run.request.strategy
            &&& run.stage == (DeployStageView::Deploy { algorithm: row.algorithm })
        },
{
}

/// A deployment is given up over the reply exactly if it does not answer the last action.
pub proof fn law_unexpected_reply(run: DeployRunView, reply: DeployReplyView)
    ensures
        super::next(run, reply) == DeployStepView::Failed(DeployErrorView::UnexpectedReply) <==> !({
            ||| run.stage is FindProject && reply is FoundProject
            ||| run.stage is SelectModel && reply is SelectedModel
            ||| run.stage is LoadProject && reply is LoadedProject
            ||| run.stage is Deploy && reply is Deployed
        }),
{
}

/// The message for a missing project holds the whole name of the project, and each other error
/// has a fixed message.
pub proof fn law_messages(name: Seq<char>)
    ensures
        super::message_text(DeployErrorView::NoProject { name }) == "Project named `"@ + name
            + "` does not exist."@,
        super::message_text(DeployErrorView::InvalidStrategy) == "invalid strategy"@,
        super::message_text(DeployErrorView::NoModel)
            == "No qualified models exist for this deployment."@,
        super::message_text(DeployErrorView::NoTask)
            == "called `Option::unwrap()` on a `None` value"@,
        super::message_text(DeployErrorView::ProjectNotLoaded)
            == "called `Option::unwrap()` on a `None` value"@,
        super::message_text(DeployErrorView::UnexpectedReply)
            == "the reply does not answer the last action"@,
{
}

/// A request, a row and a run, read as text, keep every field whole.
pub proof fn law_request_and_row_views(request: DeployRequest, row: DeployedModel, run: DeployRun)
    ensures
        request@.project_name == request.project_name@,
        request@.strategy == request.strategy,
        request.algorithm matches Some(name) ==> request@.algorithm == Some(name@),
        request.algorithm is None ==> request@.algorithm is None,
        row@.project == row.project@,
        row@.strategy == row.strategy,
        row@.algorithm == row.algorithm@,
        run@.request == run.request@,
        run@.stage == run.stage@,
{
}

/// An action, read as text, keeps every field whole.
pub proof fn law_action_view(action: DeployAction)
    ensures
        match action {
            DeployAction::FindProject { query, name } => action@ == (
            DeployActionView::FindProject { query: query@, name: name@ }),
            DeployAction::SelectModel { query, project_name } => action@ == (
            DeployActionView::SelectModel { query: query@, project_name: project_name@ }),
            DeployAction::LoadProject { project_id } => action@ == (
            DeployActionView::LoadProject { project_id }),
            DeployAction::Deploy { project_id, model_id } => action@ == (
            DeployActionView::Deploy { project_id, model_id }),
        },
{
}

/// A reply, read as text, keeps every field whole.
pub proof fn law_reply_view(reply: DeployReply)
    ensures
        match reply {
            DeployReply::FoundProject { id, task } => reply@ == (DeployReplyView::FoundProject {
                id,
                task,
            }),
            DeployReply::SelectedModel { id, algorithm: Some(name) } => reply@ == (
            DeployReplyView::SelectedModel { id, algorithm: Some(name@) }),
            DeployReply::SelectedModel { id, algorithm: None } => reply@ == (
            DeployReplyView::SelectedModel { id, algorithm: None }),
            DeployReply::LoadedProject(loaded) => reply@ == DeployReplyView::LoadedProject(loaded),
            DeployReply::Deployed => reply@ == DeployReplyView::Deployed,
        },
{
}

/// A stage, read as text, keeps every field whole.
pub proof fn law_stage_view(stage: DeployStage)
    ensures
        match stage {
            DeployStage::FindProject => stage@ == DeployStageView::FindProject,
            DeployStage::SelectModel { project_id } => stage@ == (DeployStageView::SelectModel {
                project_id,
            }),
            DeployStage::LoadProject { project_id, model_id, algorithm } => stage@ == (
            DeployStageView::LoadProject { project_id, model_id, algorithm: algorithm@ }),
            DeployStage::Deploy { algorithm } => stage@ == (DeployStageView::Deploy {
                algorithm: algorithm@,
            }),
        },
{
}

/// A step and an error, read as text, stay the step and the error that they are.
pub proof fn law_step_view(step: DeployStep, error: DeployError)
    ensures
        match step {
            DeployStep::Ask { run, action } => step@ == (DeployStepView::Ask {
                run: run@,
                action: action@,
            }),
            DeployStep::Done(row) => step@ == DeployStepView::Done(row@),
            DeployStep::Failed(reason) => step@ == DeployStepView::Failed(reason@),
        },
        match error {
            DeployError::NoProject { name } => error@ == (DeployErrorView::NoProject {
                name: name@,
            }),
            DeployError::NoTask => error@ == DeployErrorView::NoTask,
            DeployError::InvalidStrategy => error@ == DeployErrorView::InvalidStrategy,
            DeployError::NoModel => error@ == DeployErrorView::NoModel,
            DeployError::ProjectNotLoaded => error@ == DeployErrorView::ProjectNotLoaded,
            DeployError::UnexpectedReply => error@ == DeployErrorView::UnexpectedReply,
        },
{
}

} // verus!
