//! The column evaluator: per-column verdicts and the whole-table analysis.

use vstd::prelude::*;
use crate::catalog::Catalog;
use crate::classify::spec_is_potential_datetime;
use crate::text::trimmed;

verus! {

/// One non-missing cell of a column, as classified at the collaborator
/// boundary: either a string, or a value of any other kind.
pub enum CellValue {
    Text(String),
    Other,
}

/// The declared storage type of a column: the distinguished generic/untyped
/// text tag, or any other declared type.
#[derive(Clone, Copy)]
pub enum DeclaredType {
    GenericText,
    Typed,
}

/// One column of a table: its name, its declared storage type, and its
/// non-missing values in original row order.
pub struct Column {
    pub name: String,
    pub declared: DeclaredType,
    pub values: Vec<CellValue>,
}

/// Whether `v` is a counted value: a string that stays non-empty after
/// trimming. Blank strings and non-string values are not counted.
pub open spec fn counted_cell(v: CellValue) -> bool {
    match v {
        CellValue::Text(s) => trimmed(s@).len() > 0,
        CellValue::Other => false,
    }
}

/// Whether `v` does not disqualify its column: a string that is blank once
/// trimmed, or a string whose trimmed form is classified as date-like.
/// Every non-string value disqualifies.
pub open spec fn acceptable_cell(v: CellValue, catalog: &Catalog) -> bool {
    match v {
        CellValue::Text(s) => trimmed(s@).len() == 0 || spec_is_potential_datetime(
            trimmed(s@),
            catalog,
        ),
        CellValue::Other => false,
    }
}

/// The verdict for one column's non-missing values: `true` exactly when no
/// value disqualifies the column and at least one counted value exists.
pub open spec fn spec_column_verdict(values: Seq<CellValue>, catalog: &Catalog) -> bool {
    &&& forall|i: int| 0 <= i < values.len() ==> acceptable_cell(values[i], catalog)
    &&& exists|i: int| 0 <= i < values.len() && counted_cell(values[i])
}

/// Walk one column's values and compute its verdict. The walk short-circuits:
/// the first non-string value, or the first non-blank string that the
/// classifier rejects, disqualifies the column and stops the scan.
pub fn evaluate_column(values: &Vec<CellValue>, catalog: &Catalog) -> (r: bool)
    ensures
        r == spec_column_verdict(values@, catalog),
{
    let mut non_null_count: usize = 0;
    let mut parsable_count: usize = 0;
    let mut idx: usize = 0;
    while idx < values.len()
        invariant
            idx <= values@.len(),
            non_null_count <= idx,
            parsable_count == non_null_count,
            forall|k: int| 0 <= k < idx ==> acceptable_cell(values@[k], catalog),
            (non_null_count > 0) == (exists|k: int| 0 <= k < idx && counted_cell(values@[k])),
        decreases values@.len() - idx,
    {
        match &values[idx] {
            CellValue::Text(s) => {
                let t = crate::text::trim(s.as_str());
                if !t.is_empty() {
                    non_null_count = non_null_count + 1;
                    if crate::classify::is_potential_datetime_str(t, catalog) {
                        parsable_count = parsable_count + 1;
                        proof {
                            assert(counted_cell(values@[idx as int]));
                        }
                    } else {
                        // one rejected string disqualifies the whole column
                        proof {
                            assert(!acceptable_cell(values@[idx as int], catalog));
                        }
                        return false;
                    }
                }
            },
            CellValue::Other => {
                // one non-string value disqualifies the whole column
                proof {
                    assert(!acceptable_cell(values@[idx as int], catalog));
                }
                return false;
            },
        }
        idx = idx + 1;
    }
    non_null_count > 0 && parsable_count == non_null_count
}

/// The views of a sequence of name/verdict entries.
pub open spec fn entry_views(s: Seq<(String, bool)>) -> Seq<(Seq<char>, bool)> {
    s.map_values(|p: (String, bool)| (p.0@, p.1))
}

/// The verdict table for a sequence of columns: one entry, in column order,
/// for every column declared generic-text, and no entry for any other.
pub open spec fn spec_verdicts(cols: Seq<Column>, catalog: &Catalog) -> Seq<(Seq<char>, bool)>
    decreases cols.len(),
{
    if cols.len() == 0 {
        Seq::empty()
    } else {
        let init = spec_verdicts(cols.drop_last(), catalog);
        let c = cols.last();
        if c.declared is GenericText {
            init.push((c.name@, spec_column_verdict(c.values@, catalog)))
        } else {
            init
        }
    }
}

/// Analyze a table: evaluate every column whose declared type is the
/// generic/untyped text tag and return the name/verdict entries in column
/// order. Columns of any other declared type are absent from the result.
pub fn analyze_dataframe(columns: &Vec<Column>, catalog: &Catalog) -> (r: Vec<(String, bool)>)
    ensures
        entry_views(r@) == spec_verdicts(columns@, catalog),
{
    let mut results: Vec<(String, bool)> = Vec::new();
    let mut i: usize = 0;
    proof {
        assert(columns@.subrange(0, 0) =~= Seq::<Column>::empty());
        assert(entry_views(results@) =~= spec_verdicts(columns@.subrange(0, 0), catalog));
    }
    while i < columns.len()
        invariant
            i <= columns@.len(),
            entry_views(results@) == spec_verdicts(columns@.subrange(0, i as int), catalog),
        decreases columns@.len() - i,
    {
        let ghost prefix = columns@.subrange(0, i as int);
        let ghost next_prefix = columns@.subrange(0, i + 1);
        proof {
            assert(next_prefix.drop_last() =~= prefix);
            assert(next_prefix.last() == columns@[i as int]);
        }
        let col = &columns[i];
        match col.declared {
            DeclaredType::GenericText => {
                let verdict = evaluate_column(&col.values, catalog);
                let entry = (col.name.clone(), verdict);
                proof {
                    assert(entry_views(results@.push(entry)) =~= entry_views(results@).push(
                        (entry.0@, entry.1),
                    ));
                }
                results.push(entry);
            },
            DeclaredType::Typed => {},
        }
        i = i + 1;
    }
    proof {
        assert(columns@.subrange(0, columns@.len() as int) =~= columns@);
    }
    results
}

/// A column with zero non-missing values has verdict `false`.
pub proof fn lemma_empty_column_false(catalog: &Catalog)
    ensures
        !spec_column_verdict(Seq::<CellValue>::empty(), catalog),
{
}

/// An all-string column in which every trimmed non-empty value is classified
/// as date-like, and which holds at least one such value, has verdict `true`.
pub proof fn lemma_all_parsable_column_true(values: Seq<CellValue>, catalog: &Catalog)
    requires
        forall|i: int| 0 <= i < values.len() ==> values[i] is Text,
        forall|i: int|
            0 <= i < values.len() ==> ((#[trigger] values[i]) matches CellValue::Text(s) ==> (
            trimmed(s@).len() == 0 || spec_is_potential_datetime(trimmed(s@), catalog))),
        exists|i: int| 0 <= i < values.len() && counted_cell(values[i]),
    ensures
        spec_column_verdict(values, catalog),
{
    assert forall|i: int| 0 <= i < values.len() implies acceptable_cell(values[i], catalog) by {
        assert(values[i] is Text);
    }
}

/// One non-string value anywhere in a column forces verdict `false`,
/// whatever its position and whatever the other values hold.
pub proof fn lemma_non_string_disqualifies(values: Seq<CellValue>, catalog: &Catalog, k: int)
    requires
        0 <= k < values.len(),
        values[k] is Other,
    ensures
        !spec_column_verdict(values, catalog),
{
    assert(!acceptable_cell(values[k], catalog));
}

/// One non-blank string that the classifier rejects, anywhere in a column,
/// forces verdict `false`, whatever its position.
pub proof fn lemma_unparsable_string_disqualifies(
    values: Seq<CellValue>,
    catalog: &Catalog,
    k: int,
)
    requires
        0 <= k < values.len(),
        values[k] matches CellValue::Text(s) && trimmed(s@).len() > 0
            && !spec_is_potential_datetime(trimmed(s@), catalog),
    ensures
        !spec_column_verdict(values, catalog),
{
    assert(!acceptable_cell(values[k], catalog));
}

/// A blank string value — empty, or all whitespace once trimmed — is
/// ignored: inserting one anywhere in a column leaves the verdict as it was.
pub proof fn lemma_blank_value_ignored(
    before: Seq<CellValue>,
    after: Seq<CellValue>,
    v: CellValue,
    catalog: &Catalog,
)
    requires
        v matches CellValue::Text(s) && trimmed(s@).len() == 0,
    ensures
        spec_column_verdict(before + seq![v] + after, catalog) == spec_column_verdict(
            before + after,
            catalog,
        ),
{
    let u = before + seq![v] + after;
    let w = before + after;
    assert(u.len() == before.len() + 1 + after.len());
    assert(w.len() == before.len() + after.len());
    assert(acceptable_cell(v, catalog));
    assert(!counted_cell(v));
    assert forall|i: int| 0 <= i < u.len() implies u[i] == (if i < before.len() {
        w[i]
    } else if i == before.len() {
        v
    } else {
        w[i - 1]
    }) by {
        if i < before.len() {
            assert(u[i] == before[i]);
            assert(w[i] == before[i]);
        } else if i == before.len() {
            assert(u[i] == (seq![v])[0]);
        } else {
            assert(u[i] == after[i - before.len() - 1]);
            assert(w[i - 1] == after[i - 1 - before.len()]);
        }
    }
    if spec_column_verdict(w, catalog) {
        assert forall|i: int| 0 <= i < u.len() implies acceptable_cell(u[i], catalog) by {
            if i < before.len() {
                assert(acceptable_cell(w[i], catalog));
            } else if i > before.len() {
                assert(acceptable_cell(w[i - 1], catalog));
            }
        }
        let k = choose|k: int| 0 <= k < w.len() && counted_cell(w[k]);
        let k2: int = if k < before.len() {
            k
        } else {
            k + 1
        };
        assert(u[k2] == w[k]);
        assert(0 <= k2 < u.len() && counted_cell(u[k2]));
        assert(spec_column_verdict(u, catalog));
    }
    if spec_column_verdict(u, catalog) {
        assert forall|i: int| 0 <= i < w.len() implies acceptable_cell(w[i], catalog) by {
            if i < before.len() {
                assert(acceptable_cell(u[i], catalog));
            } else {
                assert(acceptable_cell(u[i + 1], catalog));
            }
        }
        let k = choose|k: int| 0 <= k < u.len() && counted_cell(u[k]);
        assert(k != before.len());
        let k2: int = if k < before.len() {
            k
        } else {
            k - 1
        };
        assert(w[k2] == u[k]);
        assert(0 <= k2 < w.len() && counted_cell(w[k2]));
        assert(spec_column_verdict(w, catalog));
    }
}

/// Evaluating the same table against the same catalog twice yields identical
/// mappings: any two results that meet `analyze_dataframe`'s contract are
/// equal.
pub proof fn lemma_analysis_deterministic(
    columns: Seq<Column>,
    catalog: &Catalog,
    r1: Seq<(Seq<char>, bool)>,
    r2: Seq<(Seq<char>, bool)>,
)
    requires
        r1 == spec_verdicts(columns, catalog),
        r2 == spec_verdicts(columns, catalog),
    ensures
        r1 == r2,
{
}

/// Whether `e` is the entry that some generic-text column of `columns`
/// yields: its name paired with its values' verdict.
pub open spec fn entry_from_generic_text_column(
    columns: Seq<Column>,
    catalog: &Catalog,
    e: (Seq<char>, bool),
) -> bool {
    exists|i: int|
        0 <= i < columns.len() && (#[trigger] columns[i]).declared is GenericText && e == (
            columns[i].name@,
            spec_column_verdict(columns[i].values@, catalog),
        )
}

/// Every entry of the verdict table belongs to a column declared
/// generic-text: columns of any other declared type never appear in the
/// output, whatever their values look like.
pub proof fn lemma_only_generic_text_columns_reported(columns: Seq<Column>, catalog: &Catalog)
    ensures
        forall|j: int|
            0 <= j < spec_verdicts(columns, catalog).len() ==> #[trigger] entry_from_generic_text_column(
                columns,
                catalog,
                spec_verdicts(columns, catalog)[j],
            ),
    decreases columns.len(),
{
    if columns.len() == 0 {
    } else {
        let init = columns.drop_last();
        lemma_only_generic_text_columns_reported(init, catalog);
        let r = spec_verdicts(columns, catalog);
        let ri = spec_verdicts(init, catalog);
        assert forall|j: int| 0 <= j < r.len() implies entry_from_generic_text_column(
            columns,
            catalog,
            r[j],
        ) by {
            if j < ri.len() {
                assert(entry_from_generic_text_column(init, catalog, ri[j]));
                let i = choose|i: int|
                    0 <= i < init.len() && (#[trigger] init[i]).declared is GenericText && ri[j]
                        == (init[i].name@, spec_column_verdict(init[i].values@, catalog));
                assert(columns[i] == init[i]);
                assert(r[j] == ri[j]);
                assert(columns[i].declared is GenericText && r[j] == (
                    columns[i].name@,
                    spec_column_verdict(columns[i].values@, catalog),
                ));
            } else {
                let i = columns.len() - 1;
                assert(columns.last().declared is GenericText);
                assert(columns[i] == columns.last());
                assert(columns[i].declared is GenericText && r[j] == (
                    columns[i].name@,
                    spec_column_verdict(columns[i].values@, catalog),
                ));
            }
        }
    }
}

} // verus!
