use pgml_api::backup::{dump_all, load_all};
use pgml_api::datasets::{load_dataset, remote_row, snapshot, Bundled, DatasetLoad};
use pgml_api::environment::{
    package_imported, python_package_version, python_version, validate_python_dependencies,
    validate_shared_library, PythonPackage, PythonStep, SHARED_LIBRARIES_QUERY,
};
use pgml_api::features::{predict_model_row, FeaturePosition, RowError};
use pgml_api::json::{is_object, read_metric, JsonObject, MetricReading};
use pgml_api::score::is_greater;
use pgml_api::text::{contains_text, join_path};
use pgml_api::training::types::Action;
use pgml_api::transform::{
    class_count, generate, sklearn_classification_metrics, sklearn_regression_metrics, transform_string,
};

#[test]
fn test_dump_load() {
    assert_eq!(
        dump_all("/tmp"),
        vec![
            "COPY pgml.projects TO '/tmp/projects.csv' CSV HEADER",
            "COPY pgml.snapshots TO '/tmp/snapshots.csv' CSV HEADER",
            "COPY pgml.models TO '/tmp/models.csv' CSV HEADER",
            "COPY pgml.files TO '/tmp/files.csv' CSV HEADER",
            "COPY pgml.deployments TO '/tmp/deployments.csv' CSV HEADER",
        ]
    );
    assert_eq!(
        load_all("/tmp"),
        vec![
            "COPY pgml.projects FROM '/tmp/projects.csv' CSV HEADER",
            "COPY pgml.snapshots FROM '/tmp/snapshots.csv' CSV HEADER",
            "COPY pgml.models FROM '/tmp/models.csv' CSV HEADER",
            "COPY pgml.files FROM '/tmp/files.csv' CSV HEADER",
            "COPY pgml.deployments FROM '/tmp/deployments.csv' CSV HEADER",
        ]
    );
}

#[test]
fn loading_mirrors_dumping() {
    for path in ["", "/", "backup/", "/var/lib/x y", "../é"] {
        let dumped: Vec<String> =
            dump_all(path).iter().map(|s| s.replacen(" TO '", " FROM '", 1)).collect();
        assert_eq!(dumped, load_all(path));
        for i in 0..dumped.len() {
            for j in 0..i {
                let file = |statement: &String| statement.split('\'').nth(1).unwrap().to_string();
                assert_ne!(file(&dumped[i]), file(&dumped[j]));
            }
        }
    }
}

#[test]
fn a_trailing_slash_changes_no_statement() {
    for path in ["/tmp", "backup", "../é"] {
        let slashed = format!("{path}/");
        assert_eq!(dump_all(&slashed), dump_all(path));
        assert_eq!(load_all(&slashed), load_all(path));
    }
    assert_ne!(dump_all("/"), dump_all(""));
    assert_ne!(dump_all("a//"), dump_all("a/"));
}

#[test]
fn paths_join_as_in_std() {
    for base in ["", "/", "/tmp", "/tmp/", "a/b", "a//", ".", "é", "/x/é"] {
        let expected = std::path::Path::new(base).join("projects.csv");
        assert_eq!(join_path(base, "projects.csv"), expected.to_str().unwrap());
    }
}

#[test]
fn texts_are_searched_as_in_std() {
    for (haystack, needle) in [
        ("pgml", "pgml"),
        ("pg_stat,pgml", "pgml"),
        ("pgm", "pgml"),
        ("pgmpgml", "pgml"),
        ("", "pgml"),
        ("", ""),
        ("abc", ""),
        ("äpgmlö", "mlö"),
        ("aab", "ab"),
        ("PGML", "pgml"),
    ] {
        assert_eq!(contains_text(haystack, needle), haystack.contains(needle));
    }
}

#[test]
fn the_library_has_to_be_preloaded() {
    assert_eq!(validate_shared_library("pg_stat_statements,pgml"), Ok(()));
    assert_eq!(
        validate_shared_library("pg_stat_statements"),
        Err("`pgml` must be added to `shared_preload_libraries` setting or models cannot be deployed"
            .to_string())
    );
    assert_eq!(
        SHARED_LIBRARIES_QUERY,
        "SELECT setting\n         FROM pg_settings\n         WHERE name = 'shared_preload_libraries'\n         LIMIT 1"
    );
}

fn check_packages(missing: &[&str]) -> (Vec<String>, Option<String>) {
    let mut tried: Vec<String> = Vec::new();
    let mut step = validate_python_dependencies(true);
    loop {
        match step {
            PythonStep::Import(package) => {
                tried.push(package.name().to_string());
                let error = if missing.contains(&package.name()) { Some("No module") } else { None };
                step = package_imported(package, error);
            }
            PythonStep::Passed => return (tried, None),
            PythonStep::Missing { message } => return (tried, Some(message)),
        }
    }
}

#[test]
fn python_packages_are_imported_in_order() {
    assert_eq!(
        check_packages(&[]),
        (
            vec![
                "xgboost".to_string(),
                "lightgbm".to_string(),
                "numpy".to_string(),
                "sklearn".to_string()
            ],
            None
        )
    );
    let (tried, message) = check_packages(&["sklearn", "numpy"]);
    assert_eq!(tried.len(), 3);
    assert_eq!(
        message,
        Some("The numpy package is missing. Install it with `sudo pip3 install numpy`\nNo module".to_string())
    );
    assert!(matches!(validate_python_dependencies(false), PythonStep::Passed));
    assert!(matches!(
        package_imported(PythonPackage::xgboost, None),
        PythonStep::Import(PythonPackage::lightgbm)
    ));
}

#[test]
fn python_versions() {
    let advice = "Python is not installed, recompile with `--features python`";
    assert_eq!(python_version(Some("3.11.7".to_string())), "3.11.7");
    assert_eq!(python_version(None), advice);
    assert_eq!(python_package_version(Some("1.26".to_string())), Ok("1.26".to_string()));
    assert_eq!(python_package_version(None), Err(advice.to_string()));
}

#[test]
fn datasets_are_found_by_name() {
    let cases = [
        ("breast_cancer", Bundled::BreastCancer),
        ("diabetes", Bundled::Diabetes),
        ("digits", Bundled::Digits),
        ("iris", Bundled::Iris),
        ("linnerud", Bundled::Linnerud),
        ("wine", Bundled::Wine),
    ];
    for (name, expected) in cases {
        match load_dataset(name, Some("ignored"), Some(25), "{}") {
            Some(DatasetLoad::Bundled { dataset, limit }) => {
                assert_eq!(dataset, expected);
                assert_eq!(limit, Some(25));
            }
            _ => panic!("{name} is bundled"),
        }
    }
    match load_dataset("kde4", Some("en-es"), None, "{\"lang1\": \"en\"}") {
        Some(DatasetLoad::Remote { source, subset, limit, kwargs }) => {
            assert_eq!(source, "kde4");
            assert_eq!(subset, Some("en-es".to_string()));
            assert_eq!(limit, None);
            assert_eq!(kwargs, "{\"lang1\": \"en\"}");
        }
        _ => panic!("kde4 is remote"),
    }
    assert!(matches!(load_dataset("Iris", None, Some(0), "{}"), Some(DatasetLoad::Remote { .. })));
    assert_eq!(remote_row("kde4", 1000), ("kde4".to_string(), 1000));
    assert_eq!(remote_row("kde4", usize::MAX).1, usize::MAX as i64);
}

#[test]
fn negative_limits_are_refused() {
    assert!(load_dataset("iris", None, Some(-1), "{}").is_none());
    assert!(load_dataset("iris", None, Some(i64::MIN), "{}").is_none());
    assert!(load_dataset("iris", None, Some(0), "{}").is_some());
}

#[test]
fn snapshots_are_materialized() {
    let (action, row) = snapshot("pgml.diabetes", "target", 0.5f32, "{}");
    assert_eq!(row, ("pgml.diabetes".to_string(), "target".to_string()));
    match action {
        Action::CreateSnapshot { relation_name, y_column_name, sampling, materialize, preprocess } => {
            assert_eq!(relation_name, "pgml.diabetes");
            assert_eq!(y_column_name, vec!["target".to_string()]);
            assert_eq!(sampling, 0.5);
            assert!(materialize);
            assert_eq!(preprocess, "{}");
        }
        _ => panic!("no snapshot"),
    }
}

fn at(column_position: usize, row_position: usize) -> FeaturePosition {
    FeaturePosition { column_position, row_position }
}

fn row_error(
    encoded: &Vec<f32>,
    width: usize,
    positions: &Vec<FeaturePosition>,
    columns: usize,
) -> Option<RowError> {
    match predict_model_row(encoded, width, positions, columns) {
        Ok(_) => None,
        Err(error) => Some(error),
    }
}

#[test]
fn a_row_is_matched_with_its_columns() {
    let encoded: Vec<f32> = vec![1.5, 2.5, 3.5, 9.0];
    let positions = vec![at(2, 0), at(3, 1), at(1, 4)];
    let plan = match predict_model_row(&encoded, 3, &positions, 3) {
        Ok(plan) => plan,
        Err(error) => panic!("{error:?}"),
    };
    let steps: Vec<(f32, usize, usize)> =
        plan.iter().map(|step| (*step.value, step.column, step.row_position)).collect();
    assert_eq!(steps, vec![(1.5, 1, 0), (2.5, 2, 1), (3.5, 0, 4)]);
}

#[test]
fn rows_that_do_not_fit_are_refused() {
    let encoded: Vec<f32> = vec![1.0, 2.0];
    let positions = vec![at(1, 0), at(2, 1)];
    assert_eq!(row_error(&encoded, 2, &positions, 2), None);
    assert_eq!(row_error(&encoded, 3, &positions, 2), Some(RowError::TooFewValues));
    assert_eq!(row_error(&encoded, usize::MAX, &positions, 2), Some(RowError::TooFewValues));
    assert_eq!(row_error(&encoded, 1, &positions, 2), Some(RowError::PositionsMismatch));
    assert_eq!(row_error(&encoded, 2, &positions, 1), Some(RowError::NoSuchColumn));
    assert_eq!(row_error(&encoded, 2, &vec![at(1, 0), at(0, 1)], 2), Some(RowError::NoSuchColumn));
    assert_eq!(row_error(&Vec::new(), 0, &Vec::new(), 0), None);
    let units: Vec<()> = vec![(); 3];
    assert!(predict_model_row(&units, 3, &vec![at(1, 0), at(1, 1), at(1, 2)], 1).is_ok());
}

#[test]
fn a_task_becomes_a_document() {
    assert_eq!(transform_string("translation"), "{\"task\":\"translation\"}");
    assert_eq!(transform_string(""), "{\"task\":\"\"}");
    assert_eq!(
        transform_string("\r\u{c}\u{8}\u{1f}\u{0}\u{b}"),
        "{\"task\":\"\\r\\f\\b\\u001f\\u0000\\u000b\"}"
    );
    assert_eq!(
        transform_string("a \"b\" \\ \n\t\u{1}\u{7f}é"),
        "{\"task\":\"a \\\"b\\\" \\\\ \\n\\t\\u0001\u{7f}é\"}"
    );
}

#[test]
fn documents_of_strings_are_read_back() {
    let document = transform_string("text \"x\"\u{8}");
    let value: serde_json::Value = serde_json::from_str(&document).unwrap();
    assert_eq!(value["task"].as_str(), Some("text \"x\"\u{8}"));
    assert_eq!(value.as_object().unwrap().len(), 1);

    let mut object = JsonObject::parse("{\"n\": 1.5, \"s\": \"é\"}").unwrap();
    object.set("z", None);
    let again = JsonObject::parse(&object.print()).unwrap();
    assert_eq!(again.print(), "{\"n\":1.5,\"s\":\"é\",\"z\":null}");
    assert_eq!(again.print(), object.print());
    assert_eq!(JsonObject::new().print(), "{}");
}

#[test]
fn numbers_are_read_back_exactly() {
    let document = format!(
        "{{\"a\":{:?},\"b\":{:?},\"c\":-0.0,\"d\":31.245270191439438,\"e\":[121.48791951161945],\"f\":{}}}",
        f64::MAX,
        5e-324,
        u64::MAX
    );
    let object = JsonObject::parse(&document).unwrap();
    let again = JsonObject::parse(&object.print()).unwrap();
    assert_eq!(again.print(), object.print());
    for (key, number) in
        [("a", f64::MAX), ("b", 5e-324), ("c", -0.0), ("d", 31.245270191439438), ("f", u64::MAX as f64)]
    {
        assert_eq!(object.metric(key), MetricReading::Present(Some(number.to_bits())));
        assert_eq!(again.metric(key), object.metric(key));
    }
}

#[test]
fn metrics_are_read_by_key() {
    let document = "{\"f1\": 0.5, \"r2\": null, \"count\": -3, \"name\": \"1\"}";
    assert_eq!(read_metric(document, "f1"), MetricReading::Present(Some(0.5f64.to_bits())));
    assert_eq!(read_metric(document, "count"), MetricReading::Present(Some((-3f64).to_bits())));
    assert_eq!(read_metric(document, "r2"), MetricReading::Present(None));
    assert_eq!(read_metric(document, "name"), MetricReading::Present(None));
    assert_eq!(read_metric(document, "bleu"), MetricReading::Missing);
    assert_eq!(read_metric("3", "bleu"), MetricReading::NotAnObject);
    assert_eq!(
        read_metric("{\"f1\": 1, \"f1\": 2}", "f1"),
        MetricReading::Present(Some(2f64.to_bits()))
    );
    assert!(is_object(" {} "));
    assert!(!is_object("{} x"));
    assert!(!is_object("null"));
    let deep = format!("{}1{}", "{\"a\":".repeat(200), "}".repeat(200));
    assert!(!is_object(&deep));
}

#[test]
fn backend_metrics_are_stored_compactly() {
    assert_eq!(
        sklearn_regression_metrics("{ \"r2\": 0.5, \"mean_absolute_error\": 2.0 }"),
        Some("{\"mean_absolute_error\":2.0,\"r2\":0.5}".to_string())
    );
    assert_eq!(
        sklearn_classification_metrics("{\"f1\":null,\"accuracy\":1.0}"),
        Some("{\"accuracy\":1.0,\"f1\":null}".to_string())
    );
    assert_eq!(sklearn_regression_metrics("1"), None);
    assert_eq!(class_count(3), 3);
    assert_eq!(class_count(-1), -1i64 as usize);
}

#[test]
fn a_single_prompt_gets_the_first_answer() {
    assert_eq!(
        generate(vec!["first".to_string(), "second".to_string()]),
        Some("first".to_string())
    );
    assert_eq!(generate(Vec::new()), None);
}

#[test]
fn scores_compare_like_doubles() {
    let numbers = [
        0.0, -0.0, 1.0, -1.0, 0.1, 0.2, 1e308, -1e308, f64::MAX, f64::MIN, f64::MIN_POSITIVE, 5e-324,
        -5e-324, f64::INFINITY, f64::NEG_INFINITY, f64::NAN, -f64::NAN, 3.5, -3.5,
    ];
    for a in numbers {
        for b in numbers {
            assert_eq!(is_greater(a.to_bits(), b.to_bits()), a > b, "{a} > {b}");
        }
    }
}
