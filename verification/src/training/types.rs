//! What a training run is asked for, what it asks of its host, and how it ends.
use vstd::prelude::*;

use crate::task::Task;
use crate::text::{optional_text, texts};

verus! {

/// A project of the database.
pub struct Project {
    pub id: i64,
    pub name: String,
    pub task: Task,
}

/// A project, with its name as text.
pub struct ProjectView {
    pub id: i64,
    pub name: Seq<char>,
    pub task: Task,
}

impl View for Project {
    type V = ProjectView;

    open spec fn view(&self) -> ProjectView {
        ProjectView { id: self.id, name: self.name@, task: self.task }
    }
}

/// A model that the host has trained or tuned. Its metrics are a JSON document.
pub struct Model {
    pub id: i64,
    pub algorithm: String,
    pub metrics: Option<String>,
}

/// A model, with its strings as text.
pub struct ModelView {
    pub id: i64,
    pub algorithm: Seq<char>,
    pub metrics: Option<Seq<char>>,
}

impl View for Model {
    type V = ModelView;

    open spec fn view(&self) -> ModelView {
        ModelView {
            id: self.id,
            algorithm: self.algorithm@,
            metrics: optional_text(self.metrics),
        }
    }
}

/// How the model is made: trained by an algorithm, with whatever further options the host
/// takes, or tuned from an existing model. The hyperparameters are a JSON document.
pub enum Recipe<M> {
    Train { algorithm: String, hyperparams: String, options: M },
    Tune { model_name: Option<String>, hyperparams: String },
}

/// A recipe, with its strings as text.
pub enum RecipeView<M> {
    Train { algorithm: Seq<char>, hyperparams: Seq<char>, options: M },
    Tune { model_name: Option<Seq<char>>, hyperparams: Seq<char> },
}

impl<M> View for Recipe<M> {
    type V = RecipeView<M>;

    open spec fn view(&self) -> RecipeView<M> {
        match *self {
            Recipe::Train { algorithm, hyperparams, options } => RecipeView::Train {
                algorithm: algorithm@,
                hyperparams: hyperparams@,
                options,
            },
            Recipe::Tune { model_name, hyperparams } => RecipeView::Tune {
                model_name: optional_text(model_name),
                hyperparams: hyperparams@,
            },
        }
    }
}

/// What a run is asked to do. `sampling` says how the host parts the test set from the
/// training set; the run only hands it on.
pub struct Request<S, M> {
    pub project_name: String,
    pub task: Option<Task>,
    pub relation_name: Option<String>,
    pub y_column_name: Option<Vec<String>>,
    pub sampling: S,
    pub automatic_deploy: Option<bool>,
    pub materialize_snapshot: bool,
    pub preprocess: String,
    pub recipe: Recipe<M>,
}

/// A request, with its strings as text.
pub struct RequestView<S, M> {
    pub project_name: Seq<char>,
    pub task: Option<Task>,
    pub relation_name: Option<Seq<char>>,
    pub y_column_name: Option<Seq<Seq<char>>>,
    pub sampling: S,
    pub automatic_deploy: Option<bool>,
    pub materialize_snapshot: bool,
    pub preprocess: Seq<char>,
    pub recipe: RecipeView<M>,
}

/// The texts of an optional list of strings.
pub open spec fn optional_texts(list: Option<Vec<String>>) -> Option<Seq<Seq<char>>> {
    match list {
        Some(l) => Some(texts(l@)),
        None => None,
    }
}

impl<S, M> View for Request<S, M> {
    type V = RequestView<S, M>;

    open spec fn view(&self) -> RequestView<S, M> {
        RequestView {
            project_name: self.project_name@,
            task: self.task,
            relation_name: optional_text(self.relation_name),
            y_column_name: optional_texts(self.y_column_name),
            sampling: self.sampling,
            automatic_deploy: self.automatic_deploy,
            materialize_snapshot: self.materialize_snapshot,
            preprocess: self.preprocess@,
            recipe: self.recipe@,
        }
    }
}

/// The query of a training run for the metrics of the model that is deployed last in a project,
/// with the name of the project as its parameter.
pub const TRAINING_METRICS_QUERY: &'static str = "
        SELECT models.metrics
        FROM pgml.models
        JOIN pgml.deployments \n            ON deployments.model_id = models.id
        JOIN pgml.projects
            ON projects.id = deployments.project_id
        WHERE projects.name = $1
        ORDER by deployments.created_at DESC
        LIMIT 1;";

/// The query of a tuning run for the same metrics.
pub const TUNING_METRICS_QUERY: &'static str = "
        SELECT models.metrics
        FROM pgml.models
        JOIN pgml.deployments
            ON deployments.model_id = models.id
        JOIN pgml.projects
            ON projects.id = deployments.project_id
        WHERE projects.name = $1
        ORDER by deployments.created_at DESC
        LIMIT 1;";

/// Work that the run asks its host to do next.
pub enum Action<S, M> {
    /// Look a project up by its name.
    FindProject { name: String },
    /// Create a project.
    CreateProject { name: String, task: Task },
    /// Look up the last snapshot of a project.
    LastSnapshot { project_id: i64 },
    /// Take a snapshot of a table.
    CreateSnapshot {
        relation_name: String,
        y_column_name: Vec<String>,
        sampling: S,
        materialize: bool,
        preprocess: String,
    },
    /// Train a model on a snapshot.
    TrainModel {
        project_id: i64,
        snapshot_id: i64,
        algorithm: String,
        hyperparams: String,
        options: M,
    },
    /// Tune a model on a snapshot.
    TuneModel { project_id: i64, snapshot_id: i64, hyperparams: String },
    /// Run a query, with the name of the project as its parameter, for the metrics of the model
    /// that is deployed last.
    DeployedMetrics { query: String, project_name: String },
    /// Deploy a model in a project.
    Deploy { project_id: i64, model_id: i64 },
}

/// An action, with its strings as text.
pub enum ActionView<S, M> {
    FindProject { name: Seq<char> },
    CreateProject { name: Seq<char>, task: Task },
    LastSnapshot { project_id: i64 },
    CreateSnapshot {
        relation_name: Seq<char>,
        y_column_name: Seq<Seq<char>>,
        sampling: S,
        materialize: bool,
        preprocess: Seq<char>,
    },
    TrainModel {
        project_id: i64,
        snapshot_id: i64,
        algorithm: Seq<char>,
        hyperparams: Seq<char>,
        options: M,
    },
    TuneModel { project_id: i64, snapshot_id: i64, hyperparams: Seq<char> },
    DeployedMetrics { query: Seq<char>, project_name: Seq<char> },
    Deploy { project_id: i64, model_id: i64 },
}

impl<S, M> View for Action<S, M> {
    type V = ActionView<S, M>;

    open spec fn view(&self) -> ActionView<S, M> {
        match *self {
            Action::FindProject { name } => ActionView::FindProject { name: name@ },
            Action::CreateProject { name, task } => ActionView::CreateProject { name: name@, task },
            Action::LastSnapshot { project_id } => ActionView::LastSnapshot { project_id },
            Action::CreateSnapshot {
                relation_name,
                y_column_name,
                sampling,
                materialize,
                preprocess,
            } => ActionView::CreateSnapshot {
                relation_name: relation_name@,
                y_column_name: texts(y_column_name@),
                sampling,
                materialize,
                preprocess: preprocess@,
            },
            Action::TrainModel { project_id, snapshot_id, algorithm, hyperparams, options } =>
                ActionView::TrainModel {
                project_id,
                snapshot_id,
                algorithm: algorithm@,
                hyperparams: hyperparams@,
                options,
            },
            Action::TuneModel { project_id, snapshot_id, hyperparams } => ActionView::TuneModel {
                project_id,
                snapshot_id,
                hyperparams: hyperparams@,
            },
            Action::DeployedMetrics { query, project_name } => ActionView::DeployedMetrics {
                query: query@,
                project_name: project_name@,
            },
            Action::Deploy { project_id, model_id } => ActionView::Deploy { project_id, model_id },
        }
    }
}

/// What the host answers to an action.
pub enum Reply {
    FoundProject(Option<Project>),
    CreatedProject(Project),
    /// The id of the last snapshot, if the project has one.
    LastSnapshot(Option<i64>),
    /// The id of the new snapshot.
    CreatedSnapshot(i64),
    BuiltModel(Model),
    /// The metrics document of the deployed model; nothing where none is deployed or the
    /// lookup failed.
    DeployedMetrics(Option<String>),
    Deployed,
}

/// A reply, with its strings as text.
pub enum ReplyView {
    FoundProject(Option<ProjectView>),
    CreatedProject(ProjectView),
    LastSnapshot(Option<i64>),
    CreatedSnapshot(i64),
    BuiltModel(ModelView),
    DeployedMetrics(Option<Seq<char>>),
    Deployed,
}

impl View for Reply {
    type V = ReplyView;

    open spec fn view(&self) -> ReplyView {
        match *self {
            Reply::FoundProject(project) => ReplyView::FoundProject(
                match project {
                    Some(p) => Some(p@),
                    None => None,
                },
            ),
            Reply::CreatedProject(project) => ReplyView::CreatedProject(project@),
            Reply::LastSnapshot(id) => ReplyView::LastSnapshot(id),
            Reply::CreatedSnapshot(id) => ReplyView::CreatedSnapshot(id),
            Reply::BuiltModel(model) => ReplyView::BuiltModel(model@),
            Reply::DeployedMetrics(metrics) => ReplyView::DeployedMetrics(optional_text(metrics)),
            Reply::Deployed => ReplyView::Deployed,
        }
    }
}

/// The row that a finished run returns.
pub struct TrainedModel {
    pub project: String,
    pub task: Task,
    pub algorithm: String,
    pub deployed: bool,
}

/// A row, with its strings as text.
pub struct TrainedModelView {
    pub project: Seq<char>,
    pub task: Task,
    pub algorithm: Seq<char>,
    pub deployed: bool,
}

impl View for TrainedModel {
    type V = TrainedModelView;

    open spec fn view(&self) -> TrainedModelView {
        TrainedModelView {
            project: self.project@,
            task: self.task,
            algorithm: self.algorithm@,
            deployed: self.deployed,
        }
    }
}

/// Why a run was given up.
pub enum TrainingError {
    /// The project does not exist, and no task was given to create it with.
    NoProject { name: String, tuning: bool },
    /// The project exists with another task than the one asked for.
    TaskDiffers { name: String, task: Task },
    /// No table was given, and the project has no snapshot yet.
    NoSnapshot,
    /// A table was given without a target column.
    NoTargetColumn,
    /// The hyperparameters of a tuning run are not a JSON object.
    HyperparamsNotObject,
    /// The new model has no metrics.
    NoMetrics,
    /// The metrics of the new model are not a JSON object.
    MetricsNotObject,
    /// The metrics of the deployed model are not a JSON object.
    DeployedMetricsNotObject,
    /// After training, models are compared for classification and regression only.
    UnsupportedTask,
    /// The deployed model lacks the metric of the task.
    DeployedMetricMissing,
    /// The new model lacks the metric of the task.
    MetricMissing,
    /// The host answered something else than it was asked.
    UnexpectedReply,
}

/// An error, with its strings as text.
pub enum TrainingErrorView {
    NoProject { name: Seq<char>, tuning: bool },
    TaskDiffers { name: Seq<char>, task: Task },
    NoSnapshot,
    NoTargetColumn,
    HyperparamsNotObject,
    NoMetrics,
    MetricsNotObject,
    DeployedMetricsNotObject,
    UnsupportedTask,
    DeployedMetricMissing,
    MetricMissing,
    UnexpectedReply,
}

impl View for TrainingError {
    type V = TrainingErrorView;

    open spec fn view(&self) -> TrainingErrorView {
        match *self {
            TrainingError::NoProject { name, tuning } => TrainingErrorView::NoProject {
                name: name@,
                tuning,
            },
            TrainingError::TaskDiffers { name, task } => TrainingErrorView::TaskDiffers {
                name: name@,
                task,
            },
            TrainingError::NoSnapshot => TrainingErrorView::NoSnapshot,
            TrainingError::NoTargetColumn => TrainingErrorView::NoTargetColumn,
            TrainingError::HyperparamsNotObject => TrainingErrorView::HyperparamsNotObject,
            TrainingError::NoMetrics => TrainingErrorView::NoMetrics,
            TrainingError::MetricsNotObject => TrainingErrorView::MetricsNotObject,
            TrainingError::DeployedMetricsNotObject => {
                TrainingErrorView::DeployedMetricsNotObject
            },
            TrainingError::UnsupportedTask => TrainingErrorView::UnsupportedTask,
            TrainingError::DeployedMetricMissing => TrainingErrorView::DeployedMetricMissing,
            TrainingError::MetricMissing => TrainingErrorView::MetricMissing,
            TrainingError::UnexpectedReply => TrainingErrorView::UnexpectedReply,
        }
    }
}

/// What a run waits for, with what it has learnt so far.
pub enum Stage {
    FindProject,
    CreateProject,
    LastSnapshot { project: Project },
    CreateSnapshot { project: Project },
    BuildModel { project: Project },
    DeployedMetrics { project: Project, model_id: i64, algorithm: String, metrics: String },
    Deploy { outcome: TrainedModel },
}

/// A stage, with its strings as text.
pub enum StageView {
    FindProject,
    CreateProject,
    LastSnapshot { project: ProjectView },
    CreateSnapshot { project: ProjectView },
    BuildModel { project: ProjectView },
    DeployedMetrics {
        project: ProjectView,
        model_id: i64,
        algorithm: Seq<char>,
        metrics: Seq<char>,
    },
    Deploy { outcome: TrainedModelView },
}

impl View for Stage {
    type V = StageView;

    open spec fn view(&self) -> StageView {
        match *self {
            Stage::FindProject => StageView::FindProject,
            Stage::CreateProject => StageView::CreateProject,
            Stage::LastSnapshot { project } => StageView::LastSnapshot { project: project@ },
            Stage::CreateSnapshot { project } => StageView::CreateSnapshot { project: project@ },
            Stage::BuildModel { project } => StageView::BuildModel { project: project@ },
            Stage::DeployedMetrics { project, model_id, algorithm, metrics } =>
                StageView::DeployedMetrics {
                project: project@,
                model_id,
                algorithm: algorithm@,
                metrics: metrics@,
            },
            Stage::Deploy { outcome } => StageView::Deploy { outcome: outcome@ },
        }
    }
}

/// A run that waits for its host.
pub struct TrainingRun<S, M> {
    pub request: Request<S, M>,
    pub stage: Stage,
}

/// A run, with its strings as text.
pub struct TrainingRunView<S, M> {
    pub request: RequestView<S, M>,
    pub stage: StageView,
}

impl<S, M> View for TrainingRun<S, M> {
    type V = TrainingRunView<S, M>;

    open spec fn view(&self) -> TrainingRunView<S, M> {
        TrainingRunView { request: self.request@, stage: self.stage@ }
    }
}

/// Where a run stands after a reply: it asks for more work, or it has ended.
pub enum Step<S, M> {
    Ask { run: TrainingRun<S, M>, action: Action<S, M> },
    Done(TrainedModel),
    Failed(TrainingError),
}

/// A step, with its strings as text.
pub enum StepView<S, M> {
    Ask { run: TrainingRunView<S, M>, action: ActionView<S, M> },
    Done(TrainedModelView),
    Failed(TrainingErrorView),
}

impl<S, M> View for Step<S, M> {
    type V = StepView<S, M>;

    open spec fn view(&self) -> StepView<S, M> {
        match *self {
            Step::Ask { run, action } => StepView::Ask { run: run@, action: action@ },
            Step::Done(outcome) => StepView::Done(outcome@),
            Step::Failed(error) => StepView::Failed(error@),
        }
    }
}

} // verus!
