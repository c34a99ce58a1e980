//! What holds of the choice between a new model and the deployed one, in terms of what their
//! metrics documents say and of the bits of the two scores.
use vstd::prelude::*;

use super::rules;
use super::types::TrainingErrorView;
use crate::json;
use crate::json::MetricReading;
use crate::score::exceeds;
use crate::task::{Metric, Task};

verus! {

/// Of two scores the greater one wins, but for the perplexity, of which the smaller one wins. A
/// missing score loses against every score, but that it counts as the smallest perplexity.
pub proof fn law_scores_decide(metric: Metric, deployed: u64, new: u64)
    ensures
        metric != Metric::Perplexity ==> {
            &&& rules::new_wins(metric, Some(deployed), Some(new)) <==> exceeds(new, deployed)
            &&& rules::new_wins(metric, None, Some(new))
        },
        metric == Metric::Perplexity ==> {
            &&& rules::new_wins(metric, Some(deployed), Some(new)) <==> exceeds(deployed, new)
            &&& !rules::new_wins(metric, None, Some(new))
        },
        !rules::new_wins(metric, Some(deployed), None),
        !rules::new_wins(metric, None, None),
{
}

/// Two scores that are not negative are compared by their bits.
pub proof fn law_positive_scores_decide(metric: Metric, deployed: u64, new: u64)
    requires
        deployed <= 0x7ff0_0000_0000_0000,
        new <= 0x7ff0_0000_0000_0000,
    ensures
        metric != Metric::Perplexity ==> (rules::new_wins(metric, Some(deployed), Some(new))
            <==> new > deployed),
        metric == Metric::Perplexity ==> (rules::new_wins(metric, Some(deployed), Some(new))
            <==> new < deployed),
{
}

/// What is wrong with the deployed model's metrics is reported before what is wrong with those
/// of the new model; where both have the metric, the scores decide.
pub proof fn law_readings_decide(metric: Metric, deployed: MetricReading, new: MetricReading)
    ensures
        ({
            let replaces = rules::replacement(metric, deployed, new);
            &&& deployed is NotAnObject ==> replaces == Err::<bool, TrainingErrorView>(
                TrainingErrorView::DeployedMetricsNotObject,
            )
            &&& deployed is Missing ==> replaces == Err::<bool, TrainingErrorView>(
                TrainingErrorView::DeployedMetricMissing,
            )
            &&& deployed is Present && new is NotAnObject ==> replaces == Err::<
                bool,
                TrainingErrorView,
            >(TrainingErrorView::MetricsNotObject)
            &&& deployed is Present && new is Missing ==> replaces == Err::<
                bool,
                TrainingErrorView,
            >(TrainingErrorView::MetricMissing)
            &&& deployed matches MetricReading::Present(d) ==> (
            new matches MetricReading::Present(n) ==> replaces == Ok::<bool, TrainingErrorView>(
                rules::new_wins(metric, d, n),
            ))
        }),
{
}

/// Tuning compares the models of every task. Training compares those of a classification and
/// of a regression only. The metric is that of the task.
pub proof fn law_compared_tasks(tuning: bool, task: Task)
    ensures
        rules::comparison_metric(tuning, task) is Some <==> tuning || task == Task::classification
            || task == Task::regression,
        rules::comparison_metric(tuning, task) matches Some(metric) ==> metric == (match task {
            Task::classification => Metric::F1,
            Task::question_answering => Metric::F1,
            Task::text_classification => Metric::F1,
            Task::regression => Metric::R2,
            Task::summarization => Metric::RougeNgramF1,
            Task::text_generation => Metric::Perplexity,
            Task::text2text => Metric::Perplexity,
            Task::translation => Metric::Bleu,
        }),
{
}

/// With a deployed model, and automatic deployment not switched off, the values that the two
/// metrics documents hold under the key of the task decide: a larger number is deployed, for
/// the tasks that generate text a smaller one.
pub proof fn law_documents_decide(
    tuning: bool,
    task: Task,
    automatic_deploy: Option<bool>,
    deployed: Map<Seq<char>, Seq<char>>,
    new: Map<Seq<char>, Seq<char>>,
    key: Seq<char>,
)
    requires
        tuning || task == Task::classification || task == Task::regression,
        automatic_deploy != Some(false),
        key == (match task {
            Task::classification => "f1"@,
            Task::question_answering => "f1"@,
            Task::text_classification => "f1"@,
            Task::regression => "r2"@,
            Task::summarization => "rouge_ngram_f1"@,
            Task::text_generation => "perplexity"@,
            Task::text2text => "perplexity"@,
            Task::translation => "bleu"@,
        }),
    ensures
        ({
            let choice = rules::deployment(
                tuning,
                task,
                automatic_deploy,
                Some(Some(deployed)),
                Some(new),
            );
            let smaller = task == Task::text_generation || task == Task::text2text;
            &&& !deployed.contains_key(key) ==> choice == Err::<bool, TrainingErrorView>(
                TrainingErrorView::DeployedMetricMissing,
            )
            &&& deployed.contains_key(key) && !new.contains_key(key) ==> choice == Err::<
                bool,
                TrainingErrorView,
            >(TrainingErrorView::MetricMissing)
            &&& deployed.contains_key(key) && new.contains_key(key) ==> choice == Ok::<
                bool,
                TrainingErrorView,
            >(
                match (json::json_number(deployed[key]), json::json_number(new[key])) {
                    (_, None) => false,
                    (None, Some(_)) => !smaller,
                    (Some(d), Some(n)) => if smaller {
                        exceeds(d, n)
                    } else {
                        exceeds(n, d)
                    },
                },
            )
        }),
{
}

/// What the choice says where a document is no object, or the task is not compared.
pub proof fn law_documents_refused(
    tuning: bool,
    task: Task,
    automatic_deploy: Option<bool>,
    deployed: Map<Seq<char>, Seq<char>>,
    new: Option<Map<Seq<char>, Seq<char>>>,
    key: Seq<char>,
)
    requires
        automatic_deploy != Some(false),
        key == (match task {
            Task::classification => "f1"@,
            Task::question_answering => "f1"@,
            Task::text_classification => "f1"@,
            Task::regression => "r2"@,
            Task::summarization => "rouge_ngram_f1"@,
            Task::text_generation => "perplexity"@,
            Task::text2text => "perplexity"@,
            Task::translation => "bleu"@,
        }),
    ensures
        rules::deployment(tuning, task, automatic_deploy, Some(None), new) == Err::<
            bool,
            TrainingErrorView,
        >(TrainingErrorView::DeployedMetricsNotObject),
        !(tuning || task == Task::classification || task == Task::regression) ==> rules::deployment(
            tuning,
            task,
            automatic_deploy,
            Some(Some(deployed)),
            new,
        ) == Err::<bool, TrainingErrorView>(TrainingErrorView::UnsupportedTask),
        (tuning || task == Task::classification || task == Task::regression) ==> {
            let choice = rules::deployment(
                tuning,
                task,
                automatic_deploy,
                Some(Some(deployed)),
                None,
            );
            &&& deployed.contains_key(key) ==> choice == Err::<bool, TrainingErrorView>(
                TrainingErrorView::MetricsNotObject,
            )
            &&& !deployed.contains_key(key) ==> choice == Err::<bool, TrainingErrorView>(
                TrainingErrorView::DeployedMetricMissing,
            )
        },
{
}

/// The document of a deployed model is read as a JSON object, and none is none.
pub proof fn law_document_entries(document: Seq<char>)
    ensures
        rules::document_entries(Some(document)) == Some(json::json_object(document)),
        rules::document_entries(None) is None,
{
}

} // verus!
