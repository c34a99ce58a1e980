use pgml_api::deployment::{
    deploy, model_query, DeployAction, DeployError, DeployReply, DeployStep, DeployedModel, Strategy,
    PROJECT_QUERY,
};
use pgml_api::task::Task;

const HEAD: &str = "SELECT models.id, models.algorithm::TEXT FROM pgml.models JOIN pgml.projects ON projects.id = models.project_id";

struct Host {
    project: Option<i64>,
    task: Option<Task>,
    model: Option<i64>,
    algorithm: Option<&'static str>,
    loads: bool,
    log: Vec<String>,
}

fn host() -> Host {
    Host {
        project: Some(4),
        task: Some(Task::regression),
        model: Some(9),
        algorithm: Some("xgboost"),
        loads: true,
        log: Vec::new(),
    }
}

fn drive(host: &mut Host, mut step: DeployStep) -> Result<DeployedModel, DeployError> {
    loop {
        match step {
            DeployStep::Ask { run, action } => {
                let reply = match action {
                    DeployAction::FindProject { query, name } => {
                        assert_eq!(query, PROJECT_QUERY);
                        host.log.push(format!("find {name}"));
                        DeployReply::FoundProject { id: host.project, task: host.task }
                    }
                    DeployAction::SelectModel { query, project_name } => {
                        host.log.push(format!("{query} with {project_name}"));
                        DeployReply::SelectedModel {
                            id: host.model,
                            algorithm: host.algorithm.map(|a| a.to_string()),
                        }
                    }
                    DeployAction::LoadProject { project_id } => {
                        host.log.push(format!("load {project_id}"));
                        DeployReply::LoadedProject(host.loads)
                    }
                    DeployAction::Deploy { project_id, model_id } => {
                        host.log.push(format!("deploy {model_id} in {project_id}"));
                        DeployReply::Deployed
                    }
                };
                step = run.step(reply);
            }
            DeployStep::Done(row) => return Ok(row),
            DeployStep::Failed(error) => return Err(error),
        }
    }
}

fn message(result: Result<DeployedModel, DeployError>) -> String {
    match result {
        Ok(_) => panic!("the deployment succeeded"),
        Err(error) => error.message(),
    }
}

#[test]
fn a_deployment_returns_its_row() {
    let mut host = host();
    let row = match drive(&mut host, deploy("My project", Strategy::most_recent, None)) {
        Ok(row) => row,
        Err(error) => panic!("{}", error.message()),
    };
    assert_eq!(row.project, "My project");
    assert_eq!(row.strategy, Strategy::most_recent);
    assert_eq!(row.algorithm, "xgboost");
    assert_eq!(
        host.log,
        vec![
            "find My project".to_string(),
            format!("{HEAD}\nWHERE projects.name = $1\nORDER by models.created_at DESC\nLIMIT 1 with My project"),
            "load 4".to_string(),
            "deploy 9 in 4".to_string(),
        ]
    );
}

#[test]
fn the_best_score_follows_the_metric_of_the_task() {
    let cases = [
        (Task::classification, "'f1' DESC"),
        (Task::question_answering, "'f1' DESC"),
        (Task::text_classification, "'f1' DESC"),
        (Task::regression, "'r2' DESC"),
        (Task::summarization, "'rouge_ngram_f1' DESC"),
        (Task::text_generation, "'perplexity' ASC"),
        (Task::text2text, "'perplexity' ASC"),
        (Task::translation, "'bleu' DESC"),
    ];
    for (task, order) in cases {
        assert_eq!(
            model_query(Strategy::best_score, task, None),
            Some(format!(
                "{HEAD}\nWHERE projects.name = $1\nORDER BY models.metrics->>{order} NULLS LAST\nLIMIT 1"
            ))
        );
    }
}

#[test]
fn a_query_can_be_narrowed_to_an_algorithm() {
    assert_eq!(
        model_query(Strategy::best_score, Task::regression, Some("linear")),
        Some(format!(
            "{HEAD}\nWHERE projects.name = $1\nAND algorithm::TEXT = 'linear'\nORDER BY models.metrics->>'r2' DESC NULLS LAST\nLIMIT 1"
        ))
    );
}

#[test]
fn a_rollback_leaves_out_the_deployed_model() {
    let predicate = "\nWHERE projects.name = $1\nAND algorithm::TEXT = 'svm'";
    let expected = format!(
        "{HEAD}
                JOIN pgml.deployments ON deployments.project_id = projects.id
                    AND deployments.model_id = models.id
                    AND models.id != (
                        SELECT deployments.model_id
                        FROM pgml.deployments{}
                        JOIN pgml.projects
                            ON projects.id = deployments.project_id
                        WHERE projects.name = $1
                        ORDER by deployments.created_at DESC
                        LIMIT 1
                    )
                {predicate}
                ORDER by deployments.created_at DESC
            \nLIMIT 1",
        " "
    );
    assert_eq!(model_query(Strategy::rollback, Task::regression, Some("svm")), Some(expected));
    assert_eq!(
        model_query(Strategy::rollback, Task::regression, None),
        model_query(Strategy::rollback, Task::translation, None)
    );
}

#[test]
fn other_strategies_are_invalid() {
    assert_eq!(model_query(Strategy::other, Task::regression, None), None);
    let mut host = host();
    assert_eq!(
        message(drive(&mut host, deploy("p", Strategy::other, None))),
        "invalid strategy"
    );
    assert_eq!(host.log, vec!["find p"]);
}

#[test]
fn a_deployment_needs_a_project_with_a_task() {
    let mut missing = host();
    missing.project = None;
    missing.task = None;
    assert_eq!(
        message(drive(&mut missing, deploy("p", Strategy::rollback, None))),
        "Project named `p` does not exist."
    );
    let mut taskless = host();
    taskless.task = None;
    let result = drive(&mut taskless, deploy("p", Strategy::other, None));
    assert!(matches!(result, Err(DeployError::NoTask)));
    assert_eq!(message(result), "called `Option::unwrap()` on a `None` value");
}

#[test]
fn a_deployment_needs_a_model_and_its_project() {
    let mut no_model = host();
    no_model.model = None;
    assert_eq!(
        message(drive(&mut no_model, deploy("p", Strategy::rollback, Some("linear")))),
        "No qualified models exist for this deployment."
    );
    let mut no_algorithm = host();
    no_algorithm.algorithm = None;
    let result = drive(&mut no_algorithm, deploy("p", Strategy::rollback, None));
    assert!(matches!(result, Err(DeployError::NoModel)));

    let mut gone = host();
    gone.loads = false;
    let result = drive(&mut gone, deploy("p", Strategy::best_score, None));
    assert!(matches!(result, Err(DeployError::ProjectNotLoaded)));
    assert_eq!(message(result), "called `Option::unwrap()` on a `None` value");
    assert_eq!(gone.log.len(), 3);
}

#[test]
fn a_deployment_ends_on_an_unexpected_reply() {
    match deploy("p", Strategy::rollback, None) {
        DeployStep::Ask { run, .. } => {
            let step = run.step(DeployReply::Deployed);
            assert!(matches!(step, DeployStep::Failed(DeployError::UnexpectedReply)));
        }
        _ => panic!("the deployment did not start"),
    }
    assert_eq!(
        DeployError::UnexpectedReply.message(),
        "the reply does not answer the last action"
    );
}

#[test]
fn projects_are_looked_up_by_name() {
    assert_eq!(PROJECT_QUERY, "SELECT id, task::TEXT from pgml.projects WHERE name = $1");
}

/// The model that a rollback restores, by the models deployed so far.
fn rollback_choice(history: &[i64]) -> Option<i64> {
    let current = history.last()?;
    history.iter().rev().find(|model| *model != current).copied()
}

#[test]
fn two_rollbacks_restore_the_model() {
    for start in [vec![1, 2], vec![5, 3, 5, 8], vec![4, 9, 9]] {
        let mut history: Vec<i64> = start;
        let current = *history.last().unwrap();
        for _ in 0..2 {
            let mut host = host();
            host.model = rollback_choice(&history);
            assert!(drive(&mut host, deploy("p", Strategy::rollback, None)).is_ok());
            let model = host.model.unwrap();
            assert_eq!(host.log.last().unwrap(), &format!("deploy {model} in 4"));
            history.push(model);
        }
        assert_eq!(*history.last().unwrap(), current);
    }
    let mut host = host();
    host.model = rollback_choice(&[7, 7]);
    let result = drive(&mut host, deploy("p", Strategy::rollback, None));
    assert!(matches!(result, Err(DeployError::NoModel)));
}
