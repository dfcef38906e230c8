use vstd::prelude::*;

use crate::error::DbError;

verus! {

/// A raw result row as the driver hands it over: the identifier column and
/// the description column, each possibly null.
pub type RawRow = (Option<String>, Option<String>);

/// A mapped domain row: identifier and description, both present. A null
/// description has already been replaced by the empty string.
pub type ChoiceRow = (String, String);

/// What the description column maps to: its text when present, the empty
/// string when null.
pub open spec fn desc_or_empty(d: Option<String>) -> Seq<char> {
    match d {
        Some(s) => s@,
        None => Seq::<char>::empty(),
    }
}

/// A row can be mapped exactly when its identifier column is non-null.
pub open spec fn row_has_id(row: RawRow) -> bool {
    row.0 is Some
}

/// The identifier a mappable row carries.
pub open spec fn row_id(row: RawRow) -> Seq<char>
    recommends
        row_has_id(row),
{
    match row.0 {
        Some(i) => i@,
        None => Seq::<char>::empty(),
    }
}

/// The domain tuple a mappable raw row turns into.
pub open spec fn mapped_row(row: RawRow) -> (Seq<char>, Seq<char>)
    recommends
        row_has_id(row),
{
    (row_id(row), desc_or_empty(row.1))
}

/// A whole result set can be mapped exactly when every row has a non-null
/// identifier.
pub open spec fn all_rows_mappable(rows: Seq<RawRow>) -> bool {
    forall|i: int| 0 <= i < rows.len() ==> row_has_id(#[trigger] rows[i])
}

/// The mapped result set corresponds to the raw one pointwise and in order.
pub open spec fn rows_mapped_to(rows: Seq<RawRow>, out: Seq<ChoiceRow>) -> bool {
    &&& out.len() == rows.len()
    &&& forall|i: int|
        0 <= i < rows.len() ==> {
            &&& (#[trigger] out[i]).0@ == mapped_row(rows[i]).0
            &&& out[i].1@ == mapped_row(rows[i]).1
        }
}

/// Maps one result row into a domain tuple. The identifier must be
/// non-null: its absence is an error, never a default. A null description
/// maps to the empty string.
pub fn map_row(id: Option<String>, description: Option<String>) -> (r: Result<ChoiceRow, DbError>)
    ensures
        id matches Some(i) ==> {
            &&& r matches Ok(row)
            &&& row.0@ == i@
            &&& row.1@ == desc_or_empty(description)
        },
        id is None ==> (r matches Err(e) && e == DbError::RowMapping),
{
    match id {
        Some(i) => {
            let d: String = match description {
                Some(text) => text,
                None => String::new(),
            };
            Ok((i, d))
        },
        None => Err(DbError::RowMapping),
    }
}

/// Maps a full result set in order. Returns every row mapped when all
/// identifiers are present; otherwise fails with the row-mapping error at
/// the first offending row, returning no partial result.
pub fn map_rows(rows: Vec<RawRow>) -> (r: Result<Vec<ChoiceRow>, DbError>)
    ensures
        r is Ok <==> all_rows_mappable(rows@),
        r matches Ok(out) ==> rows_mapped_to(rows@, out@),
        r matches Err(e) ==> e == DbError::RowMapping,
{
    let mut out: Vec<ChoiceRow> = Vec::new();
    let mut idx: usize = 0;
    while idx < rows.len()
        invariant
            idx <= rows@.len(),
            out@.len() == idx,
            forall|i: int| 0 <= i < idx ==> row_has_id(#[trigger] rows@[i]),
            rows_mapped_to(rows@.take(idx as int), out@),
        decreases rows@.len() - idx,
    {
        let row: &RawRow = &rows[idx];
        match &row.0 {
            Some(i) => {
                let d: String = match &row.1 {
                    Some(text) => text.clone(),
                    None => String::new(),
                };
                out.push((i.clone(), d));
            },
            None => {
                return Err(DbError::RowMapping);
            },
        }
        idx = idx + 1;
        proof {
            assert(rows@.take(idx as int).drop_last() =~= rows@.take(idx - 1));
            assert(rows@.take(idx as int).last() == rows@[idx - 1]);
        }
    }
    proof {
        assert(rows@.take(rows@.len() as int) =~= rows@);
    }
    Ok(out)
}

} // verus!
