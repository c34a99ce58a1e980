//! Deploying a model that is already trained.
//!
//! Like a training run, a deployment is a state machine: each step names one piece of work for
//! the host to do in the database, and the host's reply decides the next step.
pub mod laws;
pub mod steps;

use vstd::prelude::*;

use crate::task::{Metric, Task};
use crate::text;
use crate::text::{optional_text, owned_text};

verus! {

/// By what a model is chosen for deployment.
#[allow(non_camel_case_types)]
#[derive(Clone, Copy, Debug, PartialEq, Eq, Structural)]
pub enum Strategy {
    /// The model with the best score.
    best_score,
    /// The model that was made last.
    most_recent,
    /// The model that was deployed before the current one.
    rollback,
    /// A strategy by which no trained model can be chosen.
    other,
}

/// The query that looks a project up by its name.
pub const PROJECT_QUERY: &'static str = "SELECT id, task::TEXT from pgml.projects WHERE name = $1";

/// The start of every query for a model.
pub const MODEL_QUERY: &'static str =
    "SELECT models.id, models.algorithm::TEXT FROM pgml.models JOIN pgml.projects ON projects.id = models.project_id";

/// Leaves out the model that was deployed last.
pub const ROLLBACK_JOIN: &'static str = "
                JOIN pgml.deployments ON deployments.project_id = projects.id
                    AND deployments.model_id = models.id
                    AND models.id != (
                        SELECT deployments.model_id
                        FROM pgml.deployments \n                        JOIN pgml.projects
                            ON projects.id = deployments.project_id
                        WHERE projects.name = $1
                        ORDER by deployments.created_at DESC
                        LIMIT 1
                    )
                ";

/// Puts the model that was deployed last first.
pub const ROLLBACK_ORDER: &'static str = "
                ORDER by deployments.created_at DESC
            ";

/// What is asked of the chosen model: that it belongs to the project and, where an algorithm
/// is given, that it was made by it.
pub open spec fn predicate_text(algorithm: Option<Seq<char>>) -> Seq<char> {
    match algorithm {
        Some(name) => "\nWHERE projects.name = $1"@ + "\nAND algorithm::TEXT = '"@ + name + "'"@,
        None => "\nWHERE projects.name = $1"@,
    }
}

/// The order that puts the best value of a metric first, and models without it last.
pub open spec fn best_first(metric: Metric) -> Seq<char> {
    "\nORDER BY models.metrics->>'"@ + metric.key_text() + if metric.smaller_wins() {
        "' ASC NULLS LAST"@
    } else {
        "' DESC NULLS LAST"@
    }
}

/// The query that chooses the model to deploy; none for a strategy that cannot choose one.
pub open spec fn query_text(
    strategy: Strategy,
    task: Task,
    algorithm: Option<Seq<char>>,
) -> Option<Seq<char>> {
    let predicate = predicate_text(algorithm);
    match strategy {
        Strategy::best_score => Some(
            MODEL_QUERY@ + predicate + best_first(task.ranking()) + "\nLIMIT 1"@,
        ),
        Strategy::most_recent => Some(
            MODEL_QUERY@ + predicate + "\nORDER by models.created_at DESC"@ + "\nLIMIT 1"@,
        ),
        Strategy::rollback => Some(
            MODEL_QUERY@ + ROLLBACK_JOIN@ + predicate + ROLLBACK_ORDER@ + "\nLIMIT 1"@,
        ),
        Strategy::other => None,
    }
}

/// Writes the query that chooses the model to deploy.
pub fn model_query(strategy: Strategy, task: Task, algorithm: Option<&str>) -> (query: Option<
    String,
>)
    ensures
        optional_text(query) == query_text(strategy, task, text::optional_str(algorithm)),
{
    let mut predicate: String = "\nWHERE projects.name = $1".to_owned();
    if let Some(name) = algorithm {
        predicate.append("\nAND algorithm::TEXT = '");
        predicate.append(name);
        predicate.append("'");
    }
    let mut sql: String = MODEL_QUERY.to_owned();
    match strategy {
        Strategy::best_score => {
            let metric: Metric = task.metric();
            let mut order: String = "\nORDER BY models.metrics->>'".to_owned();
            order.append(metric.key());
            if metric.lower_is_better() {
                order.append("' ASC NULLS LAST");
            } else {
                order.append("' DESC NULLS LAST");
            }
            sql.append(predicate.as_str());
            sql.append(order.as_str());
        },
        Strategy::most_recent => {
            sql.append(predicate.as_str());
            sql.append("\nORDER by models.created_at DESC");
        },
        Strategy::rollback => {
            sql.append(ROLLBACK_JOIN);
            sql.append(predicate.as_str());
            sql.append(ROLLBACK_ORDER);
        },
        Strategy::other => {
            return None;
        },
    }
    sql.append("\nLIMIT 1");
    Some(sql)
}

/// What a deployment is asked to do.
pub struct DeployRequest {
    pub project_name: String,
    pub strategy: Strategy,
    pub algorithm: Option<String>,
}

/// A request, with its strings as text.
pub struct DeployRequestView {
    pub project_name: Seq<char>,
    pub strategy: Strategy,
    pub algorithm: Option<Seq<char>>,
}

impl View for DeployRequest {
    type V = DeployRequestView;

    open spec fn view(&self) -> DeployRequestView {
        DeployRequestView {
            project_name: self.project_name@,
            strategy: self.strategy,
            algorithm: optional_text(self.algorithm),
        }
    }
}

/// Work that the deployment asks its host to do next.
pub enum DeployAction {
    /// Run a query, with the name of the project as its parameter, for the id and the task of
    /// the project.
    FindProject { query: String, name: String },
    /// Run a query, with the name of the project as its parameter, for the id and the
    /// algorithm of a model.
    SelectModel { query: String, project_name: String },
    /// Load a project by its id.
    LoadProject { project_id: i64 },
    /// Deploy a model in a project.
    Deploy { project_id: i64, model_id: i64 },
}

/// An action, with its strings as text.
pub enum DeployActionView {
    FindProject { query: Seq<char>, name: Seq<char> },
    SelectModel { query: Seq<char>, project_name: Seq<char> },
    LoadProject { project_id: i64 },
    Deploy { project_id: i64, model_id: i64 },
}

impl View for DeployAction {
    type V = DeployActionView;

    open spec fn view(&self) -> DeployActionView {
        match *self {
            DeployAction::FindProject { query, name } => DeployActionView::FindProject {
                query: query@,
                name: name@,
            },
            DeployAction::SelectModel { query, project_name } => DeployActionView::SelectModel {
                query: query@,
                project_name: project_name@,
            },
            DeployAction::LoadProject { project_id } => DeployActionView::LoadProject {
                project_id,
            },
            DeployAction::Deploy { project_id, model_id } => DeployActionView::Deploy {
                project_id,
                model_id,
            },
        }
    }
}

/// What the host answers to an action.
pub enum DeployReply {
    /// The id and the task of the project, as far as they were found.
    FoundProject { id: Option<i64>, task: Option<Task> },
    /// The id and the algorithm of the chosen model, as far as they were found.
    SelectedModel { id: Option<i64>, algorithm: Option<String> },
    /// Whether the project could be loaded.
    LoadedProject(bool),
    Deployed,
}

/// A reply, with its strings as text.
pub enum DeployReplyView {
    FoundProject { id: Option<i64>, task: Option<Task> },
    SelectedModel { id: Option<i64>, algorithm: Option<Seq<char>> },
    LoadedProject(bool),
    Deployed,
}

impl View for DeployReply {
    type V = DeployReplyView;

    open spec fn view(&self) -> DeployReplyView {
        match *self {
            DeployReply::FoundProject { id, task } => DeployReplyView::FoundProject { id, task },
            DeployReply::SelectedModel { id, algorithm } => DeployReplyView::SelectedModel {
                id,
                algorithm: optional_text(algorithm),
            },
            DeployReply::LoadedProject(loaded) => DeployReplyView::LoadedProject(loaded),
            DeployReply::Deployed => DeployReplyView::Deployed,
        }
    }
}

/// The row that a finished deployment returns.
pub struct DeployedModel {
    pub project: String,
    pub strategy: Strategy,
    pub algorithm: String,
}

/// A row, with its strings as text.
pub struct DeployedModelView {
    pub project: Seq<char>,
    pub strategy: Strategy,
    pub algorithm: Seq<char>,
}

impl View for DeployedModel {
    type V = DeployedModelView;

    open spec fn view(&self) -> DeployedModelView {
        DeployedModelView {
            project: self.project@,
            strategy: self.strategy,
            algorithm: self.algorithm@,
        }
    }
}

/// Why a deployment was given up.
pub enum DeployError {
    /// There is no project of this name.
    NoProject { name: String },
    /// The project has no task that is known.
    NoTask,
    /// No model can be chosen by the strategy.
    InvalidStrategy,
    /// No model of the project qualifies.
    NoModel,
    /// The project could not be loaded.
    ProjectNotLoaded,
    /// The host answered something else than it was asked.
    UnexpectedReply,
}

/// An error, with its strings as text.
pub enum DeployErrorView {
    NoProject { name: Seq<char> },
    NoTask,
    InvalidStrategy,
    NoModel,
    ProjectNotLoaded,
    UnexpectedReply,
}

impl View for DeployError {
    type V = DeployErrorView;

    open spec fn view(&self) -> DeployErrorView {
        match *self {
            DeployError::NoProject { name } => DeployErrorView::NoProject { name: name@ },
            DeployError::NoTask => DeployErrorView::NoTask,
            DeployError::InvalidStrategy => DeployErrorView::InvalidStrategy,
            DeployError::NoModel => DeployErrorView::NoModel,
            DeployError::ProjectNotLoaded => DeployErrorView::ProjectNotLoaded,
            DeployError::UnexpectedReply => DeployErrorView::UnexpectedReply,
        }
    }
}

/// What a deployment waits for, with what it has learnt so far.
pub enum DeployStage {
    FindProject,
    SelectModel { project_id: i64 },
    LoadProject { project_id: i64, model_id: i64, algorithm: String },
    Deploy { algorithm: String },
}

/// A stage, with its strings as text.
pub enum DeployStageView {
    FindProject,
    SelectModel { project_id: i64 },
    LoadProject { project_id: i64, model_id: i64, algorithm: Seq<char> },
    Deploy { algorithm: Seq<char> },
}

impl View for DeployStage {
    type V = DeployStageView;

    open spec fn view(&self) -> DeployStageView {
        match *self {
            DeployStage::FindProject => DeployStageView::FindProject,
            DeployStage::SelectModel { project_id } => DeployStageView::SelectModel { project_id },
            DeployStage::LoadProject { project_id, model_id, algorithm } =>
                DeployStageView::LoadProject { project_id, model_id, algorithm: algorithm@ },
            DeployStage::Deploy { algorithm } => DeployStageView::Deploy { algorithm: algorithm@ },
        }
    }
}

/// A deployment that waits for its host.
pub struct DeployRun {
    pub request: DeployRequest,
    pub stage: DeployStage,
}

/// A deployment, with its strings as text.
pub struct DeployRunView {
    pub request: DeployRequestView,
    pub stage: DeployStageView,
}

impl View for DeployRun {
    type V = DeployRunView;

    open spec fn view(&self) -> DeployRunView {
        DeployRunView { request: self.request@, stage: self.stage@ }
    }
}

/// Where a deployment stands after a reply: it asks for more work, or it has ended.
pub enum DeployStep {
    Ask { run: DeployRun, action: DeployAction },
    Done(DeployedModel),
    Failed(DeployError),
}

/// A step, with its strings as text.
pub enum DeployStepView {
    Ask { run: DeployRunView, action: DeployActionView },
    Done(DeployedModelView),
    Failed(DeployErrorView),
}

impl View for DeployStep {
    type V = DeployStepView;

    open spec fn view(&self) -> DeployStepView {
        match *self {
            DeployStep::Ask { run, action } => DeployStepView::Ask { run: run@, action: action@ },
            DeployStep::Done(row) => DeployStepView::Done(row@),
            DeployStep::Failed(error) => DeployStepView::Failed(error@),
        }
    }
}

/// A deployment of the request that waits in the given stage for the answer to an action.
pub open spec fn ask(
    request: DeployRequestView,
    stage: DeployStageView,
    action: DeployActionView,
) -> DeployStepView {
    DeployStepView::Ask { run: DeployRunView { request, stage }, action }
}

/// Every deployment starts by looking for the project.
pub open spec fn start(request: DeployRequestView) -> DeployStepView {
    ask(
        request,
        DeployStageView::FindProject,
        DeployActionView::FindProject { query: PROJECT_QUERY@, name: request.project_name },
    )
}

/// What follows once the project has been looked for.
pub open spec fn after_project(
    request: DeployRequestView,
    id: Option<i64>,
    task: Option<Task>,
) -> DeployStepView {
    if id is None {
        DeployStepView::Failed(DeployErrorView::NoProject { name: request.project_name })
    } else if task is None {
        DeployStepView::Failed(DeployErrorView::NoTask)
    } else {
        match query_text(request.strategy, task->0, request.algorithm) {
            Some(query) => ask(
                request,
                DeployStageView::SelectModel { project_id: id->0 },
                DeployActionView::SelectModel { query, project_name: request.project_name },
            ),
            None => DeployStepView::Failed(DeployErrorView::InvalidStrategy),
        }
    }
}

/// What follows a reply.
pub open spec fn next(run: DeployRunView, reply: DeployReplyView) -> DeployStepView {
    let request = run.request;
    match (run.stage, reply) {
        (DeployStageView::FindProject, DeployReplyView::FoundProject { id, task }) => {
            after_project(request, id, task)
        },
        (
            DeployStageView::SelectModel { project_id },
            DeployReplyView::SelectedModel { id: Some(model_id), algorithm: Some(algorithm) },
        ) => ask(
            request,
            DeployStageView::LoadProject { project_id, model_id, algorithm },
            DeployActionView::LoadProject { project_id },
        ),
        (DeployStageView::SelectModel { .. }, DeployReplyView::SelectedModel { .. }) => {
            DeployStepView::Failed(DeployErrorView::NoModel)
        },
        (
            DeployStageView::LoadProject { project_id, model_id, algorithm },
            DeployReplyView::LoadedProject(loaded),
        ) => if loaded {
            ask(
                request,
                DeployStageView::Deploy { algorithm },
                DeployActionView::Deploy { project_id, model_id },
            )
        } else {
            DeployStepView::Failed(DeployErrorView::ProjectNotLoaded)
        },
        (DeployStageView::Deploy { algorithm }, DeployReplyView::Deployed) => {
            DeployStepView::Done(
                DeployedModelView {
                    project: request.project_name,
                    strategy: request.strategy,
                    algorithm,
                },
            )
        },
        _ => DeployStepView::Failed(DeployErrorView::UnexpectedReply),
    }
}

/// Starts deploying a model of a project, chosen by a strategy and, where one is given, among
/// the models of an algorithm.
pub fn deploy(project_name: &str, strategy: Strategy, algorithm: Option<&str>) -> (step: DeployStep)
    ensures
        step@ == start(
            (DeployRequestView {
                project_name: project_name@,
                strategy,
                algorithm: text::optional_str(algorithm),
            }),
        ),
{
    DeployStep::Ask {
        run: DeployRun {
            request: DeployRequest {
                project_name: project_name.to_owned(),
                strategy,
                algorithm: owned_text(algorithm),
            },
            stage: DeployStage::FindProject,
        },
        action: DeployAction::FindProject {
            query: PROJECT_QUERY.to_owned(),
            name: project_name.to_owned(),
        },
    }
}

fn with_project(request: DeployRequest, id: Option<i64>, task: Option<Task>) -> (step: DeployStep)
    ensures
        step@ == after_project(request@, id, task),
{
    match (id, task) {
        (None, _) => DeployStep::Failed(DeployError::NoProject { name: request.project_name }),
        (Some(_), None) => DeployStep::Failed(DeployError::NoTask),
        (Some(project_id), Some(task)) => {
            let algorithm: Option<&str> = match &request.algorithm {
                Some(name) => Some(name.as_str()),
                None => None,
            };
            match model_query(request.strategy, task, algorithm) {
                Some(query) => {
                    let project_name: String = request.project_name.clone();
                    DeployStep::Ask {
                        run: DeployRun { request, stage: DeployStage::SelectModel { project_id } },
                        action: DeployAction::SelectModel { query, project_name },
                    }
                },
                None => DeployStep::Failed(DeployError::InvalidStrategy),
            }
        },
    }
}

impl DeployRun {
    /// Takes the reply of the host to the last action.
    pub fn step(self, reply: DeployReply) -> (step: DeployStep)
        ensures
            step@ == next(self@, reply@),
    {
        let DeployRun { request, stage } = self;
        match (stage, reply) {
            (DeployStage::FindProject, DeployReply::FoundProject { id, task }) => with_project(
                request,
                id,
                task,
            ),
            (
                DeployStage::SelectModel { project_id },
                DeployReply::SelectedModel { id: Some(model_id), algorithm: Some(algorithm) },
            ) => DeployStep::Ask {
                run: DeployRun {
                    request,
                    stage: DeployStage::LoadProject { project_id, model_id, algorithm },
                },
                action: DeployAction::LoadProject { project_id },
            },
            (DeployStage::SelectModel { .. }, DeployReply::SelectedModel { .. }) => {
                DeployStep::Failed(DeployError::NoModel)
            },
            (
                DeployStage::LoadProject { project_id, model_id, algorithm },
                DeployReply::LoadedProject(loaded),
            ) => if loaded {
                DeployStep::Ask {
                    run: DeployRun { request, stage: DeployStage::Deploy { algorithm } },
                    action: DeployAction::Deploy { project_id, model_id },
                }
            } else {
                DeployStep::Failed(DeployError::ProjectNotLoaded)
            },
            (DeployStage::Deploy { algorithm }, DeployReply::Deployed) => DeployStep::Done(
                DeployedModel {
                    project: request.project_name,
                    strategy: request.strategy,
                    algorithm,
                },
            ),
            _ => DeployStep::Failed(DeployError::UnexpectedReply),
        }
    }
}

/// The message that a user gets for an error.
pub open spec fn message_text(error: DeployErrorView) -> Seq<char> {
    match error {
        DeployErrorView::NoProject { name } => "Project named `"@ + name + "` does not exist."@,
        DeployErrorView::InvalidStrategy => "invalid strategy"@,
        DeployErrorView::NoModel => "No qualified models exist for this deployment."@,
        DeployErrorView::UnexpectedReply => "the reply does not answer the last action"@,
        _ => "called `Option::unwrap()` on a `None` value"@,
    }
}

impl DeployError {
    /// The message that a user gets for the error.
    pub fn message(&self) -> (message: String)
        ensures
            message@ == message_text(self@),
    {
        match self {
            DeployError::NoProject { name } => {
                let mut message: String = "Project named `".to_owned();
                message.append(name.as_str());
                message.append("` does not exist.");
                message
            },
            DeployError::InvalidStrategy => "invalid strategy".to_owned(),
            DeployError::NoModel => "No qualified models exist for this deployment.".to_owned(),
            DeployError::UnexpectedReply => "the reply does not answer the last action".to_owned(),
            _ => "called `Option::unwrap()` on a `None` value".to_owned(),
        }
    }
}

} // verus!
