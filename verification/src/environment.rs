//! What the extension needs of its environment: the shared library and the Python packages.
use vstd::prelude::*;

use crate::text;
use crate::text::{contains_text, optional_text};

verus! {

/// The query for the libraries that the server preloads.
pub const SHARED_LIBRARIES_QUERY: &'static str = "SELECT setting
         FROM pg_settings
         WHERE name = 'shared_preload_libraries'
         LIMIT 1";

/// Checks that the setting for preloaded libraries names the extension.
pub fn validate_shared_library(shared_preload_libraries: &str) -> (valid: Result<(), String>)
    ensures
        valid is Ok <==> text::occurs_in(shared_preload_libraries@, "pgml"@),
        valid matches Err(message) ==> message@
            == "`pgml` must be added to `shared_preload_libraries` setting or models cannot be deployed"@,
{
    if contains_text(shared_preload_libraries, "pgml") {
        Ok(())
    } else {
        Err(
            "`pgml` must be added to `shared_preload_libraries` setting or models cannot be deployed".to_owned(),
        )
    }
}

/// The Python packages that models are made with.
#[allow(non_camel_case_types)]
#[derive(Clone, Copy, Debug, PartialEq, Eq, Structural)]
pub enum PythonPackage {
    xgboost,
    lightgbm,
    numpy,
    sklearn,
}

impl PythonPackage {
    /// The name under which the package is imported.
    pub open spec fn name_text(self) -> Seq<char> {
        match self {
            PythonPackage::xgboost => "xgboost"@,
            PythonPackage::lightgbm => "lightgbm"@,
            PythonPackage::numpy => "numpy"@,
            PythonPackage::sklearn => "sklearn"@,
        }
    }

    /// The package that is checked after this one.
    pub open spec fn successor(self) -> Option<PythonPackage> {
        match self {
            PythonPackage::xgboost => Some(PythonPackage::lightgbm),
            PythonPackage::lightgbm => Some(PythonPackage::numpy),
            PythonPackage::numpy => Some(PythonPackage::sklearn),
            PythonPackage::sklearn => None,
        }
    }

    /// The name under which the package is imported.
    pub fn name(self) -> (name: &'static str)
        ensures
            name@ == self.name_text(),
    {
        match self {
            PythonPackage::xgboost => "xgboost",
            PythonPackage::lightgbm => "lightgbm",
            PythonPackage::numpy => "numpy",
            PythonPackage::sklearn => "sklearn",
        }
    }
}

/// Where the check of the Python packages stands.
pub enum PythonStep {
    /// The host is to import a package.
    Import(PythonPackage),
    /// Every package could be imported, or there is no Python to import them with.
    Passed,
    /// A package is missing; the message says which, how to install it, and why the import
    /// failed.
    Missing { message: String },
}

/// Where the check stands, with the message as text.
pub enum PythonStepView {
    Import(PythonPackage),
    Passed,
    Missing { message: Seq<char> },
}

impl View for PythonStep {
    type V = PythonStepView;

    open spec fn view(&self) -> PythonStepView {
        match *self {
            PythonStep::Import(package) => PythonStepView::Import(package),
            PythonStep::Passed => PythonStepView::Passed,
            PythonStep::Missing { message } => PythonStepView::Missing { message: message@ },
        }
    }
}

/// The message for a package that could not be imported.
pub open spec fn missing_text(package: PythonPackage, error: Seq<char>) -> Seq<char> {
    "The "@ + package.name_text() + " package is missing. Install it with `sudo pip3 install "@
        + package.name_text() + "`\n"@ + error
}

/// The start of the check: without Python there is nothing to check.
pub open spec fn first_import(python: bool) -> PythonStepView {
    if python {
        PythonStepView::Import(PythonPackage::xgboost)
    } else {
        PythonStepView::Passed
    }
}

/// What follows the import of a package, which failed if there is an error.
pub open spec fn after_import(package: PythonPackage, error: Option<Seq<char>>) -> PythonStepView {
    match error {
        Some(e) => PythonStepView::Missing { message: missing_text(package, e) },
        None => match package.successor() {
            Some(next) => PythonStepView::Import(next),
            None => PythonStepView::Passed,
        },
    }
}

/// Starts the check of the Python packages.
pub fn validate_python_dependencies(python: bool) -> (step: PythonStep)
    ensures
        step@ == first_import(python),
{
    if python {
        PythonStep::Import(PythonPackage::xgboost)
    } else {
        PythonStep::Passed
    }
}

/// Takes the result of importing a package: the error, if it failed.
pub fn package_imported(package: PythonPackage, error: Option<&str>) -> (step: PythonStep)
    ensures
        step@ == after_import(package, text::optional_str(error)),
{
    match error {
        Some(e) => {
            let mut message: String = "The ".to_owned();
            message.append(package.name());
            message.append(" package is missing. Install it with `sudo pip3 install ");
            message.append(package.name());
            message.append("`\n");
            message.append(e);
            PythonStep::Missing { message }
        },
        None => match package {
            PythonPackage::xgboost => PythonStep::Import(PythonPackage::lightgbm),
            PythonPackage::lightgbm => PythonStep::Import(PythonPackage::numpy),
            PythonPackage::numpy => PythonStep::Import(PythonPackage::sklearn),
            PythonPackage::sklearn => PythonStep::Passed,
        },
    }
}

/// The version of a Python package. Without Python there is an error instead.
pub fn python_package_version(version: Option<String>) -> (result: Result<String, String>)
    ensures
        version matches Some(v) ==> (result matches Ok(r) && r@ == v@),
        version is None ==> (result matches Err(message) && message@
            == "Python is not installed, recompile with `--features python`"@),
{
    match version {
        Some(version) => Ok(version),
        None => Err("Python is not installed, recompile with `--features python`".to_owned()),
    }
}

/// The version of Python, or the advice to install it.
pub fn python_version(version: Option<String>) -> (text: String)
    ensures
        text@ == match optional_text(version) {
            Some(v) => v,
            None => "Python is not installed, recompile with `--features python`"@,
        },
        version matches Some(v) ==> text@ == v@,
{
    match version {
        Some(version) => version,
        None => "Python is not installed, recompile with `--features python`".to_owned(),
    }
}

/// The end of the check when each package fails to import with the given error, or not.
pub open spec fn checked(
    step: PythonStepView,
    errors: Map<PythonPackage, Seq<char>>,
    turns: nat,
) -> PythonStepView
    decreases turns,
{
    match step {
        PythonStepView::Import(package) => if turns == 0 {
            step
        } else {
            checked(
                after_import(
                    package,
                    if errors.contains_key(package) {
                        Some(errors[package])
                    } else {
                        None
                    },
                ),
                errors,
                (turns - 1) as nat,
            )
        },
        _ => step,
    }
}

/// The check tries each package at most once. It passes exactly if every package can be
/// imported, and otherwise reports the first that cannot.
pub proof fn law_python_check(errors: Map<PythonPackage, Seq<char>>)
    ensures
        checked(first_import(true), errors, 4) == if errors.contains_key(PythonPackage::xgboost) {
            PythonStepView::Missing {
                message: missing_text(PythonPackage::xgboost, errors[PythonPackage::xgboost]),
            }
        } else if errors.contains_key(PythonPackage::lightgbm) {
            PythonStepView::Missing {
                message: missing_text(PythonPackage::lightgbm, errors[PythonPackage::lightgbm]),
            }
        } else if errors.contains_key(PythonPackage::numpy) {
            PythonStepView::Missing {
                message: missing_text(PythonPackage::numpy, errors[PythonPackage::numpy]),
            }
        } else if errors.contains_key(PythonPackage::sklearn) {
            PythonStepView::Missing {
                message: missing_text(PythonPackage::sklearn, errors[PythonPackage::sklearn]),
            }
        } else {
            PythonStepView::Passed
        },
{
    reveal_with_fuel(checked, 5);
}

/// A package is imported under its own name.
pub proof fn law_package_names(package: PythonPackage)
    ensures
        package == PythonPackage::xgboost ==> package.name_text() == "xgboost"@,
        package == PythonPackage::lightgbm ==> package.name_text() == "lightgbm"@,
        package == PythonPackage::numpy ==> package.name_text() == "numpy"@,
        package == PythonPackage::sklearn ==> package.name_text() == "sklearn"@,
{
}

/// Without Python the check passes at once. With it the packages are imported one after the
/// other: xgboost, lightgbm, numpy and sklearn, after which the check has passed.
pub proof fn law_import_order()
    ensures
        first_import(false) == PythonStepView::Passed,
        first_import(true) == PythonStepView::Import(PythonPackage::xgboost),
        after_import(PythonPackage::xgboost, None) == PythonStepView::Import(
            PythonPackage::lightgbm,
        ),
        after_import(PythonPackage::lightgbm, None) == PythonStepView::Import(PythonPackage::numpy),
        after_import(PythonPackage::numpy, None) == PythonStepView::Import(PythonPackage::sklearn),
        after_import(PythonPackage::sklearn, None) == PythonStepView::Passed,
{
}

/// A failed import ends the check. The message names the package twice, for the reader and in
/// the command that installs it, and ends in the whole error of the import.
pub proof fn law_missing_package(package: PythonPackage, name: Seq<char>, error: Seq<char>)
    requires
        name == (match package {
            PythonPackage::xgboost => "xgboost"@,
            PythonPackage::lightgbm => "lightgbm"@,
            PythonPackage::numpy => "numpy"@,
            PythonPackage::sklearn => "sklearn"@,
        }),
    ensures
        after_import(package, Some(error)) == (PythonStepView::Missing {
            message: "The "@ + name + " package is missing. Install it with `sudo pip3 install "@
                + name + "`\n"@ + error,
        }),
{
}

/// A step of the check, read as text, keeps its package and every character of its message.
pub proof fn law_python_step_view(step: PythonStep)
    ensures
        match step {
            PythonStep::Import(package) => step@ == PythonStepView::Import(package),
            PythonStep::Passed => step@ == PythonStepView::Passed,
            PythonStep::Missing { message } => step@ == (PythonStepView::Missing {
                message: message@,
            }),
        },
{
}

} // verus!
