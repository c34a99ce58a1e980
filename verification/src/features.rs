//! Preparing one row of features for prediction.
use vstd::prelude::*;

verus! {

/// Where a feature comes from and where it goes: the position of its column, counted from
/// one, and its position in the row.
#[derive(Clone, Copy, Debug, PartialEq, Eq, Structural)]
pub struct FeaturePosition {
    pub column_position: usize,
    pub row_position: usize,
}

/// One feature to preprocess: its encoded value, the column that preprocesses it, counted from
/// zero, and its position in the row.
pub struct PreprocessStep<'a, T> {
    pub value: &'a T,
    pub column: usize,
    pub row_position: usize,
}

/// Why a row cannot be preprocessed.
#[derive(Clone, Copy, Debug, PartialEq, Eq, Structural)]
pub enum RowError {
    /// There are fewer encoded values than features.
    TooFewValues,
    /// There are more or fewer positions than features.
    PositionsMismatch,
    /// A position names a column that is not there.
    NoSuchColumn,
}

/// The encoded values can be seen as one row of this width.
pub open spec fn fits(values: nat, width: usize) -> bool {
    width <= values && width <= isize::MAX
}

/// Calls `ndarray::ArrayView2::from_shape` for one row of the given width, and walks the view.
/// It fails exactly where the width exceeds the number of values or `isize::MAX`; what it
/// views are the first values, in order.
#[verifier::external_body]
fn view_row<'a, T>(values: &'a Vec<T>, width: usize) -> (row: Option<Vec<&'a T>>)
    ensures
        row is Some <==> fits(values@.len(), width),
        row matches Some(r) ==> r@.len() == width && forall|i: int|
            0 <= i < width ==> *(#[trigger] r@[i]) == values@[i],
{
    let view = ndarray::ArrayView2::from_shape((1, width), values).ok()?;
    Some(view.into_iter().collect())
}

/// Every position names one of `columns` columns.
pub open spec fn columns_exist(positions: Seq<FeaturePosition>, columns: usize) -> bool {
    forall|i: int|
        0 <= i < positions.len() ==> 1 <= (#[trigger] positions[i]).column_position <= columns
}

/// Plans the preprocessing of one row: the encoded values of the first `features_width`
/// features, each with the column that its position names.
pub fn predict_model_row<'a, T>(
    encoded: &'a Vec<T>,
    features_width: usize,
    positions: &Vec<FeaturePosition>,
    columns: usize,
) -> (plan: Result<Vec<PreprocessStep<'a, T>>, RowError>)
    ensures
        plan == Err::<Vec<PreprocessStep<'a, T>>, RowError>(RowError::TooFewValues) <==> !fits(
            encoded@.len(),
            features_width,
        ),
        plan == Err::<Vec<PreprocessStep<'a, T>>, RowError>(RowError::PositionsMismatch) <==> fits(
            encoded@.len(),
            features_width,
        ) && positions@.len() != features_width,
        plan == Err::<Vec<PreprocessStep<'a, T>>, RowError>(RowError::NoSuchColumn) <==> fits(
            encoded@.len(),
            features_width,
        ) && positions@.len() == features_width && !columns_exist(positions@, columns),
        plan is Ok <==> {
            &&& features_width as int <= encoded@.len()
            &&& features_width as int <= isize::MAX as int
            &&& positions@.len() == features_width
            &&& forall|i: int|
                0 <= i < positions@.len() ==> 0 < (#[trigger] positions@[i]).column_position
                    && positions@[i].column_position <= columns
        },
        plan matches Ok(steps) ==> steps@.len() == features_width && forall|i: int|
            0 <= i < features_width ==> {
                &&& *(#[trigger] steps@[i]).value == encoded@[i]
                &&& steps@[i].column == positions@[i].column_position - 1
                &&& steps@[i].row_position == positions@[i].row_position
            },
{
    let row: Vec<&'a T> = match view_row(encoded, features_width) {
        Some(row) => row,
        None => {
            return Err(RowError::TooFewValues);
        },
    };
    if positions.len() != features_width {
        return Err(RowError::PositionsMismatch);
    }
    let mut steps: Vec<PreprocessStep<'a, T>> = Vec::new();
    let mut i: usize = 0;
    while i < features_width
        invariant
            i <= features_width,
            fits(encoded@.len(), features_width),
            row@.len() == features_width,
            positions@.len() == features_width,
            steps@.len() == i,
            forall|j: int| 0 <= j < features_width ==> *(#[trigger] row@[j]) == encoded@[j],
            forall|j: int|
                0 <= j < i ==> 1 <= (#[trigger] positions@[j]).column_position <= columns,
            forall|j: int|
                0 <= j < i ==> {
                    &&& *(#[trigger] steps@[j]).value == encoded@[j]
                    &&& steps@[j].column == positions@[j].column_position - 1
                    &&& steps@[j].row_position == positions@[j].row_position
                },
        decreases features_width - i,
    {
        let position: FeaturePosition = positions[i];
        if position.column_position == 0 || position.column_position > columns {
            assert(!columns_exist(positions@, columns));
            return Err(RowError::NoSuchColumn);
        }
        steps.push(
            PreprocessStep {
                value: row[i],
                column: position.column_position - 1,
                row_position: position.row_position,
            },
        );
        i = i + 1;
    }
    Ok(steps)
}

/// A row can be planned exactly if there is a value for each feature and the width can be
/// addressed.
pub proof fn law_row_fits(values: nat, width: usize)
    ensures
        fits(values, width) <==> width as int <= values && width as int <= isize::MAX as int,
{
}

/// A position names a column that is there exactly if it counts from one up to the number of
/// columns, and one wrong position spoils them all.
pub proof fn law_columns_exist(positions: Seq<FeaturePosition>, columns: usize, i: int)
    requires
        0 <= i < positions.len(),
    ensures
        positions[i].column_position == 0 ==> !columns_exist(positions, columns),
        positions[i].column_position > columns ==> !columns_exist(positions, columns),
        (forall|j: int|
            0 <= j < positions.len() ==> 0 < (#[trigger] positions[j]).column_position
                && positions[j].column_position <= columns) ==> columns_exist(positions, columns),
        columns_exist(Seq::empty(), columns),
{
}

} // verus!
