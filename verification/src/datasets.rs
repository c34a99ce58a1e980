//! Loading example datasets, and taking a snapshot of a table.
use vstd::prelude::*;

use crate::text;
use crate::text::{optional_text, owned_text, same_text};
use crate::training::types::{Action, ActionView};

verus! {

/// The datasets that come with the extension.
#[derive(Clone, Copy, Debug, PartialEq, Eq, Structural)]
pub enum Bundled {
    BreastCancer,
    Diabetes,
    Digits,
    Iris,
    Linnerud,
    Wine,
}

/// The bundled dataset of a name.
pub open spec fn bundled(source: Seq<char>) -> Option<Bundled> {
    if source == "breast_cancer"@ {
        Some(Bundled::BreastCancer)
    } else if source == "diabetes"@ {
        Some(Bundled::Diabetes)
    } else if source == "digits"@ {
        Some(Bundled::Digits)
    } else if source == "iris"@ {
        Some(Bundled::Iris)
    } else if source == "linnerud"@ {
        Some(Bundled::Linnerud)
    } else if source == "wine"@ {
        Some(Bundled::Wine)
    } else {
        None
    }
}

/// What the host is to load.
pub enum DatasetLoad {
    /// A bundled dataset, with at most so many rows.
    Bundled { dataset: Bundled, limit: Option<usize> },
    /// A dataset of a remote hub, with at most so many rows. The further arguments are a JSON
    /// document.
    Remote { source: String, subset: Option<String>, limit: Option<usize>, kwargs: String },
}

/// What the host is to load, with its strings as text.
pub enum DatasetLoadView {
    Bundled { dataset: Bundled, limit: Option<usize> },
    Remote {
        source: Seq<char>,
        subset: Option<Seq<char>>,
        limit: Option<usize>,
        kwargs: Seq<char>,
    },
}

impl View for DatasetLoad {
    type V = DatasetLoadView;

    open spec fn view(&self) -> DatasetLoadView {
        match *self {
            DatasetLoad::Bundled { dataset, limit } => DatasetLoadView::Bundled { dataset, limit },
            DatasetLoad::Remote { source, subset, limit, kwargs } => DatasetLoadView::Remote {
                source: source@,
                subset: optional_text(subset),
                limit,
                kwargs: kwargs@,
            },
        }
    }
}

/// The limit fits in the numbers that count rows.
pub open spec fn valid_limit(limit: Option<i64>) -> bool {
    match limit {
        Some(rows) => 0 <= rows <= usize::MAX,
        None => true,
    }
}

/// A valid limit as a count of rows.
pub open spec fn row_limit(limit: Option<i64>) -> Option<usize> {
    match limit {
        Some(rows) => Some(rows as usize),
        None => None,
    }
}

/// What is loaded for the name of a dataset, if anything.
pub open spec fn planned_load(
    source: Seq<char>,
    subset: Option<Seq<char>>,
    limit: Option<i64>,
    kwargs: Seq<char>,
) -> Option<DatasetLoadView> {
    if !valid_limit(limit) {
        None
    } else {
        match bundled(source) {
            Some(dataset) => Some(DatasetLoadView::Bundled { dataset, limit: row_limit(limit) }),
            None => Some(
                DatasetLoadView::Remote { source, subset, limit: row_limit(limit), kwargs },
            ),
        }
    }
}

fn bundled_dataset(source: &str) -> (dataset: Option<Bundled>)
    ensures
        dataset == bundled(source@),
{
    if same_text(source, "breast_cancer") {
        Some(Bundled::BreastCancer)
    } else if same_text(source, "diabetes") {
        Some(Bundled::Diabetes)
    } else if same_text(source, "digits") {
        Some(Bundled::Digits)
    } else if same_text(source, "iris") {
        Some(Bundled::Iris)
    } else if same_text(source, "linnerud") {
        Some(Bundled::Linnerud)
    } else if same_text(source, "wine") {
        Some(Bundled::Wine)
    } else {
        None
    }
}

/// Decides what to load for the name of a dataset. Nothing is loaded for an invalid limit.
pub fn load_dataset(source: &str, subset: Option<&str>, limit: Option<i64>, kwargs: &str) -> (load:
    Option<DatasetLoad>)
    ensures
        load is Some <==> valid_limit(limit),
        load matches Some(l) ==> l@ == match bundled(source@) {
            Some(dataset) => DatasetLoadView::Bundled { dataset, limit: row_limit(limit) },
            None => DatasetLoadView::Remote {
                source: source@,
                subset: text::optional_str(subset),
                limit: row_limit(limit),
                kwargs: kwargs@,
            },
        },
        load matches Some(l) ==> planned_load(
            source@,
            text::optional_str(subset),
            limit,
            kwargs@,
        ) == Some(l@),
        load is None ==> planned_load(source@, text::optional_str(subset), limit, kwargs@) is None,
        load is None <==> (limit matches Some(rows) && (rows < 0 || rows > usize::MAX)),
        load matches Some(DatasetLoad::Bundled { limit: count, .. }) ==> match limit {
            Some(rows) => count matches Some(c) && c as int == rows as int,
            None => count is None,
        },
        load matches Some(DatasetLoad::Remote {
            source: name,
            subset: part,
            limit: count,
            kwargs: arguments,
        }) ==> {
            &&& name@ == source@
            &&& match subset {
                Some(given) => part matches Some(p) && p@ == given@,
                None => part is None,
            }
            &&& match limit {
                Some(rows) => count matches Some(c) && c as int == rows as int,
                None => count is None,
            }
            &&& arguments@ == kwargs@
        },
{
    let limit: Option<usize> = match limit {
        None => None,
        Some(rows) => {
            if rows < 0 || rows as u64 > usize::MAX as u64 {
                return None;
            }
            Some(rows as usize)
        },
    };
    match bundled_dataset(source) {
        Some(dataset) => Some(DatasetLoad::Bundled { dataset, limit }),
        None => Some(
            DatasetLoad::Remote {
                source: source.to_owned(),
                subset: owned_text(subset),
                limit,
                kwargs: kwargs.to_owned(),
            },
        ),
    }
}

/// The row for a remote dataset: its source as the name of the table, and how many rows were
/// loaded.
pub fn remote_row(source: &str, rows: usize) -> (row: (String, i64))
    ensures
        row.0@ == source@,
        row.1 == rows as i64,
        rows <= i64::MAX ==> row.1 as int == rows as int,
{
    (source.to_owned(), rows as i64)
}

/// Plans a snapshot of a table on one target column. The snapshot is always materialized. The
/// row names the table and the column.
pub fn snapshot<S>(relation_name: &str, y_column_name: &str, sampling: S, preprocess: &str) -> (plan:
    (Action<S, ()>, (String, String)))
    ensures
        plan.0@ == (ActionView::<S, ()>::CreateSnapshot {
            relation_name: relation_name@,
            y_column_name: seq![y_column_name@],
            sampling,
            materialize: true,
            preprocess: preprocess@,
        }),
        plan.0 matches Action::CreateSnapshot {
            relation_name: table,
            y_column_name: columns,
            materialize,
            preprocess: document,
            ..
        } && table@ == relation_name@ && columns@.len() == 1 && columns@[0]@ == y_column_name@
            && materialize && document@ == preprocess@,
        plan.1.0@ == relation_name@,
        plan.1.1@ == y_column_name@,
{
    let mut columns: Vec<String> = Vec::new();
    columns.push(y_column_name.to_owned());
    assert(text::texts(columns@) =~= seq![y_column_name@]);
    let action: Action<S, ()> = Action::CreateSnapshot {
        relation_name: relation_name.to_owned(),
        y_column_name: columns,
        sampling,
        materialize: true,
        preprocess: preprocess.to_owned(),
    };
    (action, (relation_name.to_owned(), y_column_name.to_owned()))
}

/// A bundled dataset has one name only.
pub proof fn law_bundled_names_are_distinct(first: Seq<char>, second: Seq<char>)
    requires
        bundled(first) is Some,
        bundled(first) == bundled(second),
    ensures
        first == second,
{
}

/// A limit that can count rows is loaded as it is given, for bundled and for remote datasets,
/// and no limit stays no limit.
pub proof fn law_limit_is_kept(
    source: Seq<char>,
    subset: Option<Seq<char>>,
    rows: i64,
    kwargs: Seq<char>,
)
    requires
        0 <= rows <= usize::MAX,
    ensures
        planned_load(source, subset, Some(rows), kwargs) matches Some(load) && (match load {
            DatasetLoadView::Bundled { limit, .. } => limit matches Some(count) && count as int
                == rows as int,
            DatasetLoadView::Remote { limit, .. } => limit matches Some(count) && count as int
                == rows as int,
        }),
        planned_load(source, subset, None, kwargs) matches Some(load) && (match load {
            DatasetLoadView::Bundled { limit, .. } => limit is None,
            DatasetLoadView::Remote { limit, .. } => limit is None,
        }),
{
}

/// A limit that cannot count rows loads nothing, whatever the dataset.
pub proof fn law_invalid_limit_loads_nothing(
    source: Seq<char>,
    subset: Option<Seq<char>>,
    rows: i64,
    kwargs: Seq<char>,
)
    requires
        rows < 0 || rows > usize::MAX,
    ensures
        planned_load(source, subset, Some(rows), kwargs) is None,
{
}

/// Six names load a bundled dataset, each its own, with any limit that can count rows; the
/// subset and the further arguments have no part in it.
pub proof fn law_bundled_by_name(
    source: Seq<char>,
    subset: Option<Seq<char>>,
    limit: Option<i64>,
    kwargs: Seq<char>,
    dataset: Bundled,
)
    requires
        source == (match dataset {
            Bundled::BreastCancer => "breast_cancer"@,
            Bundled::Diabetes => "diabetes"@,
            Bundled::Digits => "digits"@,
            Bundled::Iris => "iris"@,
            Bundled::Linnerud => "linnerud"@,
            Bundled::Wine => "wine"@,
        }),
        limit matches Some(rows) ==> 0 <= rows <= usize::MAX,
    ensures
        planned_load(source, subset, limit, kwargs) matches Some(DatasetLoadView::Bundled {
            dataset: loaded,
            ..
        }) && loaded == dataset,
{
    reveal_strlit("breast_cancer");
    reveal_strlit("diabetes");
    reveal_strlit("digits");
    reveal_strlit("iris");
    reveal_strlit("linnerud");
    reveal_strlit("wine");
    assert("breast_cancer"@.len() == 13);
    assert("digits"@.len() == 6);
    assert("diabetes"@[0] == 'd');
    assert("linnerud"@[0] == 'l');
    assert("iris"@[0] == 'i');
    assert("wine"@[0] == 'w');
}

/// Every other name is looked for at the hub, and the name, the subset and the further
/// arguments go there unchanged.
pub proof fn law_remote_by_any_other_name(
    source: Seq<char>,
    subset: Option<Seq<char>>,
    limit: Option<i64>,
    kwargs: Seq<char>,
)
    requires
        source != "breast_cancer"@,
        source != "diabetes"@,
        source != "digits"@,
        source != "iris"@,
        source != "linnerud"@,
        source != "wine"@,
        limit matches Some(rows) ==> 0 <= rows <= usize::MAX,
    ensures
        planned_load(source, subset, limit, kwargs) matches Some(DatasetLoadView::Remote {
            source: name,
            subset: part,
            kwargs: arguments,
            ..
        }) && name == source && part == subset && arguments == kwargs,
{
}

/// A load, read as text, keeps every character and every number.
pub proof fn law_load_view(load: DatasetLoad)
    ensures
        match load {
            DatasetLoad::Bundled { dataset, limit } => load@ == (DatasetLoadView::Bundled {
                dataset,
                limit,
            }),
            DatasetLoad::Remote { source, subset, limit, kwargs } => load@ == (
            DatasetLoadView::Remote {
                source: source@,
                subset: match subset {
                    Some(name) => Some(name@),
                    None => None,
                },
                limit,
                kwargs: kwargs@,
            }),
        },
{
}

} // verus!
