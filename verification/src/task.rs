//! The tasks that a project can have, and the metric by which the models of a task are
//! ranked.
use vstd::prelude::*;

verus! {

/// What the models of a project are trained to do.
#[allow(non_camel_case_types)]
#[derive(Clone, Copy, Debug, PartialEq, Eq, Structural)]
pub enum Task {
    regression,
    classification,
    question_answering,
    summarization,
    translation,
    text_classification,
    text_generation,
    text2text,
}

/// The metric that ranks the models of a task.
#[derive(Clone, Copy, Debug, PartialEq, Eq, Structural)]
pub enum Metric {
    F1,
    R2,
    RougeNgramF1,
    Perplexity,
    Bleu,
}

impl Task {
    /// The identifier of the task.
    pub open spec fn label_text(self) -> Seq<char> {
        match self {
            Task::regression => "regression"@,
            Task::classification => "classification"@,
            Task::question_answering => "question_answering"@,
            Task::summarization => "summarization"@,
            Task::translation => "translation"@,
            Task::text_classification => "text_classification"@,
            Task::text_generation => "text_generation"@,
            Task::text2text => "text2text"@,
        }
    }

    /// The metric that ranks the models of a project that has the task.
    pub open spec fn ranking(self) -> Metric {
        match self {
            Task::classification => Metric::F1,
            Task::question_answering => Metric::F1,
            Task::text_classification => Metric::F1,
            Task::regression => Metric::R2,
            Task::summarization => Metric::RougeNgramF1,
            Task::text_generation => Metric::Perplexity,
            Task::text2text => Metric::Perplexity,
            Task::translation => Metric::Bleu,
        }
    }

    /// The identifier of the task.
    pub fn label(self) -> (label: &'static str)
        ensures
            label@ == self.label_text(),
    {
        match self {
            Task::regression => "regression",
            Task::classification => "classification",
            Task::question_answering => "question_answering",
            Task::summarization => "summarization",
            Task::translation => "translation",
            Task::text_classification => "text_classification",
            Task::text_generation => "text_generation",
            Task::text2text => "text2text",
        }
    }

    /// The metric that ranks the models of a project that has the task.
    pub fn metric(self) -> (metric: Metric)
        ensures
            metric == self.ranking(),
    {
        match self {
            Task::classification | Task::question_answering | Task::text_classification => {
                Metric::F1
            },
            Task::regression => Metric::R2,
            Task::summarization => Metric::RougeNgramF1,
            Task::text_generation | Task::text2text => Metric::Perplexity,
            Task::translation => Metric::Bleu,
        }
    }
}

impl Metric {
    /// The key under which the metric is stored with a model.
    pub open spec fn key_text(self) -> Seq<char> {
        match self {
            Metric::F1 => "f1"@,
            Metric::R2 => "r2"@,
            Metric::RougeNgramF1 => "rouge_ngram_f1"@,
            Metric::Perplexity => "perplexity"@,
            Metric::Bleu => "bleu"@,
        }
    }

    /// A smaller value of the metric is the better one.
    pub open spec fn smaller_wins(self) -> bool {
        self == Metric::Perplexity
    }

    /// The key under which the metric is stored with a model.
    pub fn key(self) -> (key: &'static str)
        ensures
            key@ == self.key_text(),
    {
        match self {
            Metric::F1 => "f1",
            Metric::R2 => "r2",
            Metric::RougeNgramF1 => "rouge_ngram_f1",
            Metric::Perplexity => "perplexity",
            Metric::Bleu => "bleu",
        }
    }

    /// Whether a smaller value of the metric is the better one.
    pub fn lower_is_better(self) -> (lower: bool)
        ensures
            lower == self.smaller_wins(),
    {
        match self {
            Metric::Perplexity => true,
            _ => false,
        }
    }
}

/// Each task goes by its own name, and no two tasks share one.
pub proof fn law_task_labels(task: Task, other: Task)
    ensures
        task == Task::regression ==> task.label_text() == "regression"@,
        task == Task::classification ==> task.label_text() == "classification"@,
        task == Task::question_answering ==> task.label_text() == "question_answering"@,
        task == Task::summarization ==> task.label_text() == "summarization"@,
        task == Task::translation ==> task.label_text() == "translation"@,
        task == Task::text_classification ==> task.label_text() == "text_classification"@,
        task == Task::text_generation ==> task.label_text() == "text_generation"@,
        task == Task::text2text ==> task.label_text() == "text2text"@,
        task.label_text() == other.label_text() ==> task == other,
{
    reveal_strlit("regression");
    reveal_strlit("classification");
    reveal_strlit("question_answering");
    reveal_strlit("summarization");
    reveal_strlit("translation");
    reveal_strlit("text_classification");
    reveal_strlit("text_generation");
    reveal_strlit("text2text");
    assert("regression"@.len() == 10);
    assert("classification"@.len() == 14);
    assert("question_answering"@.len() == 18);
    assert("summarization"@.len() == 13);
    assert("translation"@.len() == 11);
    assert("text_classification"@.len() == 19);
    assert("text_generation"@.len() == 15);
    assert("text2text"@.len() == 9);
    assert(task.label_text().len() == other.label_text().len() ==> task == other);
}

/// The models of a task are ranked by the metric stored under this key, and a smaller value is
/// better for the tasks that generate text and for no other.
pub proof fn law_task_ranking(task: Task)
    ensures
        task.ranking().key_text() == (match task {
            Task::classification => "f1"@,
            Task::question_answering => "f1"@,
            Task::text_classification => "f1"@,
            Task::regression => "r2"@,
            Task::summarization => "rouge_ngram_f1"@,
            Task::text_generation => "perplexity"@,
            Task::text2text => "perplexity"@,
            Task::translation => "bleu"@,
        }),
        task.ranking().smaller_wins() <==> task == Task::text_generation || task == Task::text2text,
{
}

/// Each metric is stored under its own key, and only of the perplexity is a smaller value
/// better.
pub proof fn law_metric_keys(metric: Metric)
    ensures
        metric == Metric::F1 ==> metric.key_text() == "f1"@,
        metric == Metric::R2 ==> metric.key_text() == "r2"@,
        metric == Metric::RougeNgramF1 ==> metric.key_text() == "rouge_ngram_f1"@,
        metric == Metric::Perplexity ==> metric.key_text() == "perplexity"@,
        metric == Metric::Bleu ==> metric.key_text() == "bleu"@,
        metric.smaller_wins() <==> metric is Perplexity,
{
}

} // verus!
