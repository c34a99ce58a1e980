use pgml_api::json::MetricReading;
use pgml_api::task::{Metric, Task};
use pgml_api::training::run::{
    deployment, new_wins, replacement, train, train_joint, tune, tuning_hyperparams,
};
use pgml_api::training::types::{
    Action, Model, Project, Reply, Step, TrainedModel, TrainingError, TrainingRun,
    TRAINING_METRICS_QUERY, TUNING_METRICS_QUERY,
};

/// A host with fixed answers that keeps a log of what it was asked to do.
struct Host {
    found: Option<Task>,
    last_snapshot: Option<i64>,
    metrics: Option<&'static str>,
    deployed_metrics: Option<&'static str>,
    metrics_query: &'static str,
    log: Vec<String>,
}

impl Host {
    fn new(found: Option<Task>, deployed_metrics: Option<&'static str>) -> Host {
        Host {
            found,
            last_snapshot: None,
            metrics: Some("{\"f1\": 0.75, \"r2\": 0.5, \"perplexity\": 12.5, \"bleu\": 0.25, \"rouge_ngram_f1\": 0.125}"),
            deployed_metrics,
            metrics_query: TRAINING_METRICS_QUERY,
            log: Vec::new(),
        }
    }

    fn perform(&mut self, action: Action<f32, &'static str>) -> Reply {
        match action {
            Action::FindProject { name } => {
                self.log.push(format!("find {name}"));
                Reply::FoundProject(self.found.map(|task| Project { id: 7, name, task }))
            }
            Action::CreateProject { name, task } => {
                self.log.push(format!("create {name} {}", task.label()));
                Reply::CreatedProject(Project { id: 8, name, task })
            }
            Action::LastSnapshot { project_id } => {
                self.log.push(format!("last snapshot of {project_id}"));
                Reply::LastSnapshot(self.last_snapshot)
            }
            Action::CreateSnapshot { relation_name, y_column_name, sampling, materialize, preprocess } => {
                self.log.push(format!(
                    "snapshot {relation_name} {y_column_name:?} {sampling} {materialize} {preprocess}"
                ));
                Reply::CreatedSnapshot(3)
            }
            Action::TrainModel { project_id, snapshot_id, algorithm, hyperparams, options } => {
                self.log.push(format!(
                    "train {project_id} {snapshot_id} {algorithm} {hyperparams} {options}"
                ));
                Reply::BuiltModel(Model {
                    id: 11,
                    algorithm,
                    metrics: self.metrics.map(|m| m.to_string()),
                })
            }
            Action::TuneModel { project_id, snapshot_id, hyperparams } => {
                self.log.push(format!("tune {project_id} {snapshot_id} {hyperparams}"));
                Reply::BuiltModel(Model {
                    id: 12,
                    algorithm: "transformers".to_string(),
                    metrics: self.metrics.map(|m| m.to_string()),
                })
            }
            Action::DeployedMetrics { query, project_name } => {
                assert_eq!(query, self.metrics_query);
                self.log.push(format!("metrics of {project_name}"));
                Reply::DeployedMetrics(self.deployed_metrics.map(|m| m.to_string()))
            }
            Action::Deploy { project_id, model_id } => {
                self.log.push(format!("deploy {model_id} in {project_id}"));
                Reply::Deployed
            }
        }
    }

    fn drive(&mut self, mut step: Step<f32, &'static str>) -> Result<TrainedModel, TrainingError> {
        loop {
            match step {
                Step::Ask { run, action } => {
                    let reply = self.perform(action);
                    step = run.step(reply);
                }
                Step::Done(row) => return Ok(row),
                Step::Failed(error) => return Err(error),
            }
        }
    }
}

fn train_one(
    task: Option<Task>,
    relation: Option<&str>,
    column: Option<&str>,
    automatic: Option<bool>,
) -> Step<f32, &'static str> {
    train(
        "Test project", task, relation, column, "linear", "{}", "options", 0.25, automatic, false, "{}",
    )
}

fn tune_one(task: Task, hyperparams: &str, model: Option<&str>) -> Step<f32, ()> {
    tune("Tuned", Some(task), Some("pgml.reviews"), Some("label"), model, hyperparams, 0.25, Some(true), true)
}

fn drive_tuning(host: &mut Host, mut step: Step<f32, ()>) -> Result<TrainedModel, TrainingError> {
    host.metrics_query = TUNING_METRICS_QUERY;
    loop {
        match step {
            Step::Ask { run, action } => {
                let plain: Action<f32, &'static str> = match action {
                    Action::FindProject { name } => Action::FindProject { name },
                    Action::CreateProject { name, task } => Action::CreateProject { name, task },
                    Action::LastSnapshot { project_id } => Action::LastSnapshot { project_id },
                    Action::CreateSnapshot { relation_name, y_column_name, sampling, materialize, preprocess } => {
                        Action::CreateSnapshot { relation_name, y_column_name, sampling, materialize, preprocess }
                    }
                    Action::TrainModel { .. } => panic!("a tuning run trains"),
                    Action::TuneModel { project_id, snapshot_id, hyperparams } => {
                        Action::TuneModel { project_id, snapshot_id, hyperparams }
                    }
                    Action::DeployedMetrics { query, project_name } => {
                        Action::DeployedMetrics { query, project_name }
                    }
                    Action::Deploy { project_id, model_id } => Action::Deploy { project_id, model_id },
                };
                let reply = host.perform(plain);
                step = run.step(reply);
            }
            Step::Done(row) => return Ok(row),
            Step::Failed(error) => return Err(error),
        }
    }
}

fn message(result: Result<TrainedModel, TrainingError>) -> String {
    match result {
        Ok(_) => panic!("the run succeeded"),
        Err(error) => error.message(),
    }
}

fn row(result: Result<TrainedModel, TrainingError>) -> (String, String, String, bool) {
    match result {
        Ok(row) => (row.project, row.task.label().to_string(), row.algorithm, row.deployed),
        Err(error) => panic!("{}", error.message()),
    }
}

fn decided(result: Result<bool, TrainingError>) -> bool {
    match result {
        Ok(deploy) => deploy,
        Err(error) => panic!("{}", error.message()),
    }
}

#[test]
fn test_train_regression() {
    for runtime in ["python", "rust"] {
        let mut host = Host::new(None, None);
        let step = train(
            "Test project",
            Some(Task::regression),
            Some("pgml.diabetes"),
            Some("target"),
            "linear",
            "{}",
            runtime,
            0.25,
            Some(true),
            false,
            "{}",
        );
        let result = row(host.drive(step));
        assert_eq!(result.0, String::from("Test project"));
        assert_eq!(result.1, String::from("regression"));
        assert_eq!(result.2, String::from("linear"));
        assert_eq!(
            host.log,
            vec![
                "find Test project".to_string(),
                "create Test project regression".to_string(),
                "snapshot pgml.diabetes [\"target\"] 0.25 false {}".to_string(),
                format!("train 8 3 linear {{}} {runtime}"),
                "metrics of Test project".to_string(),
                "deploy 11 in 8".to_string(),
            ]
        );
    }
}

#[test]
fn test_train_multiclass_classification() {
    for runtime in ["python", "rust"] {
        let mut host = Host::new(Some(Task::classification), Some("{\"f1\": 0.8}"));
        let step = train(
            "Test project 2",
            Some(Task::classification),
            Some("pgml.digits"),
            Some("target"),
            "xgboost",
            "{}",
            runtime,
            0.25,
            Some(true),
            false,
            "{}",
        );
        let result = row(host.drive(step));
        assert_eq!(result.0, String::from("Test project 2"));
        assert_eq!(result.1, String::from("classification"));
        assert_eq!(result.2, String::from("xgboost"));
        assert_eq!(host.log.last().unwrap(), "metrics of Test project 2");
    }
}

#[test]
fn test_train_binary_classification() {
    for runtime in ["python", "rust"] {
        let mut host = Host::new(Some(Task::classification), Some("{\"f1\": 0.7}"));
        let step = train(
            "Test project 3",
            Some(Task::classification),
            Some("pgml.breast_cancer"),
            Some("malignant"),
            "xgboost",
            "{}",
            runtime,
            0.25,
            Some(true),
            true,
            "{}",
        );
        let result = row(host.drive(step));
        assert_eq!(result.0, String::from("Test project 3"));
        assert_eq!(result.1, String::from("classification"));
        assert_eq!(result.2, String::from("xgboost"));
        assert_eq!(host.log[1], "snapshot pgml.breast_cancer [\"malignant\"] 0.25 true {}");
        assert_eq!(host.log.last().unwrap(), "deploy 11 in 7");
    }
}

#[test]
fn an_equal_score_keeps_the_deployed_model() {
    for (task, deployed) in
        [(Task::classification, "{\"f1\": 0.75}"), (Task::regression, "{\"r2\": 0.5}")]
    {
        for automatic in [None, Some(true)] {
            let mut host = Host::new(Some(task), Some(deployed));
            assert!(!row(host.drive(train_one(None, Some("t"), Some("y"), automatic))).3);
            assert_eq!(host.log.last().unwrap(), "metrics of Test project");
        }
    }

    let mut host = Host::new(Some(Task::summarization), Some("{\"rouge_ngram_f1\": 0.5}"));
    host.last_snapshot = Some(5);
    host.metrics = Some("{\"rouge_ngram_f1\": 0.5}");
    let step = tune("sum", None, None, None, Some("bart"), "{}", 0.25, Some(true), false);
    assert!(!row(drive_tuning(&mut host, step)).3);
    assert_eq!(host.log.last().unwrap(), "metrics of sum");
}

#[test]
fn joint_training_snapshots_every_target() {
    let mut host = Host::new(Some(Task::regression), None);
    let step = train_joint(
        "Joint",
        None,
        Some("pgml.linnerud"),
        Some(vec!["chins".to_string(), "jumps".to_string()]),
        "linear",
        "{\"alpha\": 1}",
        "options",
        0.5,
        None,
        false,
        "{\"x\": {}}",
    );
    assert!(row(host.drive(step)).3);
    assert_eq!(host.log[1], "snapshot pgml.linnerud [\"chins\", \"jumps\"] 0.5 false {\"x\": {}}");
    assert_eq!(host.log[2], "train 7 3 linear {\"alpha\": 1} options");
}

#[test]
fn training_without_a_table_uses_the_last_snapshot() {
    let mut host = Host::new(Some(Task::regression), None);
    host.last_snapshot = Some(21);
    assert!(row(host.drive(train_one(None, None, None, None))).3);
    assert_eq!(host.log[1], "last snapshot of 7");
    assert_eq!(host.log[2], "train 7 21 linear {} options");
}

#[test]
fn manual_deployment_deploys_nothing() {
    let mut host = Host::new(Some(Task::regression), None);
    let result = row(host.drive(train_one(None, Some("t"), Some("y"), Some(false))));
    assert!(!result.3);
    assert_eq!(host.log.len(), 4);
    // The metrics of the deployed model are looked up all the same.
    assert_eq!(host.log[3], "metrics of Test project");
}

#[test]
fn a_missing_project_needs_a_task() {
    let mut host = Host::new(None, None);
    assert_eq!(
        message(host.drive(train_one(None, Some("t"), Some("y"), None))),
        "Project `Test project` does not exist. To create a new project, provide the task (regression or classification)."
    );
    assert_eq!(host.log, vec!["find Test project"]);

    let mut host = Host::new(None, None);
    let step = tune("Tuned", None, Some("t"), Some("y"), None, "{}", 0.25, None, false);
    assert_eq!(
        message(drive_tuning(&mut host, step)),
        "Project `Tuned` does not exist. To create a new project, provide the task."
    );
}

#[test]
fn a_project_keeps_its_task() {
    let mut host = Host::new(Some(Task::text_classification), None);
    assert_eq!(
        message(host.drive(train_one(Some(Task::regression), Some("t"), Some("y"), None))),
        "Project `\"Test project\"` already exists with a different task: `text_classification`. Create a new project instead."
    );
    assert_eq!(host.log, vec!["find Test project"]);
}

#[test]
fn project_names_are_escaped_in_messages() {
    let error = TrainingError::TaskDiffers { name: "a\"b".to_string(), task: Task::text2text };
    assert_eq!(
        error.message(),
        "Project `\"a\\\"b\"` already exists with a different task: `text2text`. Create a new project instead."
    );
}

#[test]
fn the_first_training_needs_a_table_and_a_target() {
    let mut host = Host::new(Some(Task::regression), None);
    assert_eq!(
        message(host.drive(train_one(None, None, Some("y"), None))),
        "You must pass a `relation_name` and `y_column_name` to snapshot the first time you train a model."
    );
    let mut host = Host::new(Some(Task::regression), None);
    assert_eq!(
        message(host.drive(train_one(None, Some("t"), None, None))),
        "You must pass a `y_column_name` when you pass a `relation_name`"
    );
    assert_eq!(host.log.len(), 1);
}

#[test]
fn training_compares_only_regression_and_classification() {
    let mut host = Host::new(Some(Task::translation), Some("{\"bleu\": 0.1}"));
    assert_eq!(
        message(host.drive(train_one(None, Some("t"), Some("y"), None))),
        "Training only supports `classification` and `regression` task types."
    );
    let mut host = Host::new(Some(Task::translation), None);
    assert!(row(host.drive(train_one(None, Some("t"), Some("y"), None))).3);
    let mut host = Host::new(Some(Task::translation), Some("{\"bleu\": 0.1}"));
    assert!(!row(host.drive(train_one(None, Some("t"), Some("y"), Some(false)))).3);
}

#[test]
fn metrics_have_to_be_objects_with_the_metric() {
    let unwrapped = "called `Option::unwrap()` on a `None` value";
    let mut host = Host::new(Some(Task::regression), None);
    host.metrics = None;
    let result = host.drive(train_one(None, Some("t"), Some("y"), Some(false)));
    assert!(matches!(result, Err(TrainingError::NoMetrics)));
    assert_eq!(message(result), unwrapped);

    for text in ["[1]", "null", "not json", "{} {}"] {
        let mut host = Host::new(Some(Task::regression), None);
        host.metrics = Some(text);
        let result = host.drive(train_one(None, Some("t"), Some("y"), Some(false)));
        assert!(matches!(result, Err(TrainingError::MetricsNotObject)));
    }

    let mut host = Host::new(Some(Task::regression), Some("[]"));
    let result = host.drive(train_one(None, Some("t"), Some("y"), None));
    assert!(matches!(result, Err(TrainingError::DeployedMetricsNotObject)));

    let mut host = Host::new(Some(Task::regression), Some("{\"f1\": 1}"));
    let result = host.drive(train_one(None, Some("t"), Some("y"), None));
    assert!(matches!(result, Err(TrainingError::DeployedMetricMissing)));

    let mut host = Host::new(Some(Task::regression), Some("{\"r2\": 1}"));
    host.metrics = Some("{}");
    let result = host.drive(train_one(None, Some("t"), Some("y"), None));
    assert!(matches!(result, Err(TrainingError::MetricMissing)));
}

#[test]
fn a_reply_to_another_action_ends_the_run() {
    match train_one(None, None, None, None) {
        Step::Ask { run, .. } => {
            let result: Step<f32, &'static str> = TrainingRun::step(run, Reply::Deployed);
            assert!(matches!(result, Step::Failed(TrainingError::UnexpectedReply)));
        }
        _ => panic!("the run did not start"),
    }
    assert_eq!(
        TrainingError::UnexpectedReply.message(),
        "the reply does not answer the last action"
    );
}

#[test]
fn tuning_names_the_model_in_its_hyperparams() {
    let mut host = Host::new(None, None);
    let result = drive_tuning(
        &mut host,
        tune_one(Task::text_classification, "{\"lr\": 0.5, \"model_name\": \"old\"}", Some("bert")),
    );
    assert_eq!(
        row(result),
        (
            "Tuned".to_string(),
            "text_classification".to_string(),
            "transformers".to_string(),
            true
        )
    );
    assert_eq!(host.log[2], "snapshot pgml.reviews [\"label\"] 0.25 true {}");
    assert_eq!(host.log[3], "tune 8 3 {\"lr\":0.5,\"model_name\":\"bert\"}");
    assert_eq!(host.log.last().unwrap(), "deploy 12 in 8");
}

#[test]
fn hyperparams_of_a_tuning_run_are_an_object() {
    assert_eq!(
        tuning_hyperparams("{\"b\": [1, 2], \"a\": null}", None),
        Some("{\"a\":null,\"b\":[1,2],\"model_name\":null}".to_string())
    );
    assert_eq!(
        tuning_hyperparams("{}", Some("say \"hi\"\n")),
        Some("{\"model_name\":\"say \\\"hi\\\"\\n\"}".to_string())
    );
    assert_eq!(tuning_hyperparams("[]", None), None);

    // The snapshot has been taken when the hyperparameters turn out to be unusable.
    let mut host = Host::new(None, None);
    let result = drive_tuning(&mut host, tune_one(Task::translation, "3", None));
    assert!(matches!(result, Err(TrainingError::HyperparamsNotObject)));
    assert_eq!(host.log.len(), 3);
}

#[test]
fn naming_the_model_twice_counts_the_last() {
    let once = tuning_hyperparams("{\"x\":\"y\"}", Some("first")).unwrap();
    assert_eq!(
        tuning_hyperparams(&once, Some("second")),
        tuning_hyperparams("{\"x\":\"y\"}", Some("second"))
    );
}

#[test]
fn every_task_is_tuned_by_its_metric() {
    let cases = [
        (Task::classification, "{\"f1\": 0.76}", "{\"f1\": 0.74}"),
        (Task::question_answering, "{\"f1\": 0.76}", "{\"f1\": 0.74}"),
        (Task::text_classification, "{\"f1\": 0.76}", "{\"f1\": 0.74}"),
        (Task::regression, "{\"r2\": 0.51}", "{\"r2\": -3}"),
        (Task::translation, "{\"bleu\": 0.26}", "{\"bleu\": 0}"),
        (Task::summarization, "{\"rouge_ngram_f1\": 1}", "{\"rouge_ngram_f1\": 0.1}"),
        (Task::text_generation, "{\"perplexity\": 12.4}", "{\"perplexity\": 13}"),
        (Task::text2text, "{\"perplexity\": 12.4}", "{\"perplexity\": 13}"),
    ];
    let tie = "{\"f1\": 0.75, \"r2\": 0.5, \"perplexity\": 12.5, \"bleu\": 0.25, \"rouge_ngram_f1\": 0.125}";
    for (task, better, worse) in cases {
        let mut host = Host::new(Some(task), Some(tie));
        assert!(!row(drive_tuning(&mut host, tune_one(task, "{}", None))).3);
        let mut host = Host::new(Some(task), Some(better));
        assert!(!row(drive_tuning(&mut host, tune_one(task, "{}", None))).3);
        let mut host = Host::new(Some(task), Some(worse));
        assert!(row(drive_tuning(&mut host, tune_one(task, "{}", None))).3);
    }
}

#[test]
fn training_and_tuning_decide_alike() {
    for deployed in ["{\"f1\":0.2,\"r2\":0.9}", "{\"f1\":0.9,\"r2\":0.2}", "{\"f1\":null,\"r2\":null}"] {
        for task in [Task::classification, Task::regression] {
            let new = "{\"f1\":0.5,\"r2\":0.5}";
            let trained = decided(deployment(false, task, None, Some(deployed), new));
            let tuned = decided(deployment(true, task, Some(true), Some(deployed), new));
            assert_eq!(trained, tuned);
        }
    }
}

#[test]
fn what_is_no_number_is_never_better() {
    let task = Task::classification;
    assert!(decided(deployment(false, task, None, Some("{\"f1\": null}"), "{\"f1\": -5}")));
    assert!(!decided(deployment(false, task, None, Some("{\"f1\": -5}"), "{\"f1\": \"0.9\"}")));
    assert!(!decided(deployment(false, task, None, Some("{\"f1\": null}"), "{\"f1\": true}")));
    let task = Task::text2text;
    assert!(!decided(deployment(true, task, None, Some("{\"perplexity\": null}"), "{\"perplexity\": 10.0}")));
    assert!(!decided(deployment(true, task, None, Some("{\"perplexity\": 10.0}"), "{\"perplexity\": null}")));
    assert!(!decided(deployment(true, task, None, Some("{\"perplexity\": null}"), "{\"perplexity\": null}")));
}

#[test]
fn integers_and_floats_compare_by_value() {
    let task = Task::regression;
    assert!(!decided(deployment(false, task, None, Some("{\"r2\": 1}"), "{\"r2\": 0.99}")));
    assert!(decided(deployment(false, task, None, Some("{\"r2\": 0.99}"), "{\"r2\": 1}")));
    assert!(!decided(deployment(false, task, None, Some("{\"r2\": 1.0}"), "{\"r2\": 1}")));
    assert!(!decided(deployment(false, task, None, Some("{\"r2\": -0.0}"), "{\"r2\": 0.0}")));
}

#[test]
fn a_better_score_never_loses() {
    let scores = [None, Some(-2.0f64), Some(0.0), Some(0.5), Some(3.0)];
    for metric in [Metric::F1, Metric::R2, Metric::RougeNgramF1, Metric::Perplexity, Metric::Bleu] {
        for a in scores {
            for b in scores {
                let better = match (a, b) {
                    (_, None) => false,
                    (None, Some(_)) => !metric.lower_is_better(),
                    (Some(a), Some(b)) => {
                        if metric.lower_is_better() {
                            b < a
                        } else {
                            b > a
                        }
                    }
                };
                let (a, b) = (a.map(f64::to_bits), b.map(f64::to_bits));
                assert_eq!(new_wins(metric, a, b), better);
                for c in scores {
                    let c = c.map(f64::to_bits);
                    if new_wins(metric, a, b) && new_wins(metric, b, c) {
                        assert!(new_wins(metric, a, c));
                    }
                }
            }
        }
    }
}

#[test]
fn replacement_takes_readings() {
    let high = MetricReading::Present(Some(0.9f64.to_bits()));
    let low = MetricReading::Present(Some(0.1f64.to_bits()));
    assert!(decided(replacement(Metric::F1, low, high)));
    assert!(!decided(replacement(Metric::F1, high, low)));
    assert!(decided(replacement(Metric::Perplexity, high, low)));
    assert!(!decided(replacement(Metric::Perplexity, low, high)));
    assert!(!decided(replacement(Metric::Bleu, low, low)));
    assert!(!decided(replacement(Metric::Perplexity, high, high)));
    assert!(matches!(
        replacement(Metric::F1, high, MetricReading::NotAnObject),
        Err(TrainingError::MetricsNotObject)
    ));
}

#[test]
fn the_deployed_metrics_are_those_of_the_last_deployment() {
    assert_eq!(
        TUNING_METRICS_QUERY,
        "
        SELECT models.metrics
        FROM pgml.models
        JOIN pgml.deployments
            ON deployments.model_id = models.id
        JOIN pgml.projects
            ON projects.id = deployments.project_id
        WHERE projects.name = $1
        ORDER by deployments.created_at DESC
        LIMIT 1;"
    );
    assert_eq!(
        TRAINING_METRICS_QUERY,
        TUNING_METRICS_QUERY.replace("JOIN pgml.deployments\n", "JOIN pgml.deployments \n")
    );
}
