//! From the records of a material list to the rows of the checklist.
//!
//! A material list is a CSV text whose header names the columns `Item`,
//! `Total`, `Missing` and `Available`. Each record that gives a number in the
//! three counted columns becomes a row; any other record is a failure and is
//! left out.

use crate::csv_text::{count_of_field, parse_count};
use crate::material::{Material, MaterialView};
use vstd::prelude::*;
use vstd::string::StringExecFns;

verus! {

/// One record of a material list, with its counts as numbers.
#[derive(Debug)]
pub struct LitematicaEntry {
    pub item: String,
    pub total: u32,
    pub missing: u32,
    pub available: u32,
}

/// What an entry holds, as plain values.
pub struct EntryView {
    pub item: Seq<char>,
    pub total: u32,
    pub missing: u32,
    pub available: u32,
}

impl View for LitematicaEntry {
    type V = EntryView;

    open spec fn view(&self) -> EntryView {
        EntryView {
            item: self.item@,
            total: self.total,
            missing: self.missing,
            available: self.available,
        }
    }
}

/// Where a record holds the four fields of an entry, and how many fields it
/// must have at least.
#[derive(Clone, Copy, Debug, PartialEq, Eq, Structural)]
pub struct Columns {
    pub item: usize,
    pub total: usize,
    pub missing: usize,
    pub available: usize,
    pub width: usize,
}

/// The same places, as plain numbers.
pub struct ColumnsView {
    pub item: int,
    pub total: int,
    pub missing: int,
    pub available: int,
    pub width: nat,
}

impl View for Columns {
    type V = ColumnsView;

    open spec fn view(&self) -> ColumnsView {
        ColumnsView {
            item: self.item as int,
            total: self.total as int,
            missing: self.missing as int,
            available: self.available as int,
            width: self.width as nat,
        }
    }
}

impl Columns {
    /// Every column lies within the width.
    pub open spec fn wf(&self) -> bool {
        &&& self.item < self.width
        &&& self.total < self.width
        &&& self.missing < self.width
        &&& self.available < self.width
    }
}

/// Whether `i` is the one place in `headers` that holds `name`.
pub open spec fn names_column(headers: Seq<Seq<char>>, name: Seq<char>, i: int) -> bool {
    &&& 0 <= i < headers.len()
    &&& forall|j: int| 0 <= j < headers.len() ==> ((#[trigger] headers[j]) == name <==> j == i)
}

/// The column that `name` heads: the place of `name` in `headers` where it
/// occurs exactly once, in exactly that spelling.
pub open spec fn column_of(headers: Seq<Seq<char>>, name: Seq<char>) -> Option<int> {
    if exists|i: int| names_column(headers, name, i) {
        Some(choose|i: int| names_column(headers, name, i))
    } else {
        None
    }
}

/// A name heads at most one column.
pub proof fn lemma_column_unique(headers: Seq<Seq<char>>, name: Seq<char>, i: int)
    requires
        names_column(headers, name, i),
    ensures
        column_of(headers, name) == Some(i),
{
    let k = choose|k: int| names_column(headers, name, k);
    assert(headers[k] == name);
}

/// Finds the column that `name` heads.
pub fn find_column(headers: &Vec<String>, name: &String) -> (column: Option<usize>)
    ensures
        column_of(headers.deep_view(), name@) == match column {
            Some(i) => Some(i as int),
            None => None,
        },
{
    let ghost names = headers.deep_view();
    let mut found: Option<usize> = None;
    let mut i: usize = 0;
    while i < headers.len()
        invariant
            i <= headers.len(),
            names == headers.deep_view(),
            names.len() == headers.len(),
            match found {
                Some(k) => k < i && forall|j: int|
                    0 <= j < i ==> ((#[trigger] names[j]) == name@ <==> j == k),
                None => forall|j: int| 0 <= j < i ==> (#[trigger] names[j]) != name@,
            },
        decreases headers.len() - i,
    {
        if headers[i] == *name {
            if found.is_some() {
                proof {
                    let k = found.unwrap() as int;
                    assert forall|c: int| !names_column(names, name@, c) by {
                        if names_column(names, name@, c) {
                            assert(names[k] == name@);
                            assert(names[i as int] == name@);
                        }
                    }
                }
                return None;
            }
            found = Some(i);
        }
        i += 1;
    }
    proof {
        match found {
            Some(k) => {
                lemma_column_unique(names, name@, k as int);
            },
            None => {
                assert forall|c: int| !names_column(names, name@, c) by {
                    if names_column(names, name@, c) {
                        assert(names[c] == name@);
                    }
                }
            },
        }
    }
    found
}

/// The columns of a material list with the given header record. Each of the
/// four names must head exactly one column; a record must then have a field
/// for every column of the header. Without a header record the four fields are
/// the first four of a record, in the order item, total, missing, available.
pub open spec fn columns_of(headers: Option<Seq<Seq<char>>>) -> Option<ColumnsView> {
    match headers {
        Some(names) => {
            let item = column_of(names, "Item"@);
            let total = column_of(names, "Total"@);
            let missing = column_of(names, "Missing"@);
            let available = column_of(names, "Available"@);
            if item is Some && total is Some && missing is Some && available is Some {
                Some(
                    ColumnsView {
                        item: item.unwrap(),
                        total: total.unwrap(),
                        missing: missing.unwrap(),
                        available: available.unwrap(),
                        width: names.len(),
                    },
                )
            } else {
                None
            }
        },
        None => Some(ColumnsView { item: 0, total: 1, missing: 2, available: 3, width: 4 }),
    }
}

/// The entry that four fields give: the item as it stands, and the three
/// counts where each field is a number.
pub open spec fn typed_entry(
    item: Seq<char>,
    total: Seq<char>,
    missing: Seq<char>,
    available: Seq<char>,
) -> Option<EntryView> {
    match (count_of_field(total), count_of_field(missing), count_of_field(available)) {
        (Some(t), Some(m), Some(a)) => Some(
            EntryView { item: item, total: t, missing: m, available: a },
        ),
        _ => None,
    }
}

/// The entry that a record gives under `columns`, or `None` where the record
/// is too short or one of its counts is no number.
pub open spec fn entry_of_fields(columns: ColumnsView, fields: Seq<Seq<char>>) -> Option<
    EntryView,
> {
    if columns.width <= fields.len() {
        typed_entry(
            fields[columns.item],
            fields[columns.total],
            fields[columns.missing],
            fields[columns.available],
        )
    } else {
        None
    }
}

/// The row that an entry becomes: unticked, named after the item, counting the
/// total.
pub open spec fn material_of(entry: EntryView) -> MaterialView {
    MaterialView { checked: false, name: entry.item, count: entry.total as nat }
}

/// The row that one record gives, or `None` where the record is a failure:
/// where the reader gave no fields for it, the header does not name the
/// columns, or the fields give no entry.
pub open spec fn row_of_record(
    columns: Option<ColumnsView>,
    record: Option<Seq<Seq<char>>>,
) -> Option<MaterialView> {
    match (columns, record) {
        (Some(c), Some(fields)) => match entry_of_fields(c, fields) {
            Some(entry) => Some(material_of(entry)),
            None => None,
        },
        _ => None,
    }
}

/// The rows that the records give, in the order of the records, failures left
/// out.
pub open spec fn materials_of(
    columns: Option<ColumnsView>,
    records: Seq<Option<Seq<Seq<char>>>>,
) -> Seq<MaterialView>
    decreases records.len(),
{
    if records.len() == 0 {
        Seq::empty()
    } else {
        let before = materials_of(columns, records.drop_last());
        match row_of_record(columns, records.last()) {
            Some(row) => before.push(row),
            None => before,
        }
    }
}

/// How many of the records are failures.
pub open spec fn failures_of(
    columns: Option<ColumnsView>,
    records: Seq<Option<Seq<Seq<char>>>>,
) -> nat
    decreases records.len(),
{
    if records.len() == 0 {
        0
    } else {
        let before = failures_of(columns, records.drop_last());
        match row_of_record(columns, records.last()) {
            Some(_) => before,
            None => before + 1,
        }
    }
}

/// Locates the four columns of a material list from its header record.
pub fn resolve_columns(headers: &Option<Vec<String>>) -> (columns: Option<Columns>)
    ensures
        match columns {
            Some(c) => c.wf() && columns_of(headers.deep_view()) == Some(c@),
            None => columns_of(headers.deep_view()) is None,
        },
{
    match headers {
        Some(names) => {
            let item = find_column(names, &String::from_str("Item"));
            let total = find_column(names, &String::from_str("Total"));
            let missing = find_column(names, &String::from_str("Missing"));
            let available = find_column(names, &String::from_str("Available"));
            match (item, total, missing, available) {
                (Some(item), Some(total), Some(missing), Some(available)) => Some(
                    Columns { item, total, missing, available, width: names.len() },
                ),
                _ => None,
            }
        },
        None => Some(Columns { item: 0, total: 1, missing: 2, available: 3, width: 4 }),
    }
}

/// Reads the fields of one record as an entry.
pub fn entry_from_fields(columns: &Columns, fields: &Vec<String>) -> (entry: Option<
    LitematicaEntry,
>)
    requires
        columns.wf(),
    ensures
        match entry {
            Some(e) => entry_of_fields(columns@, fields.deep_view()) == Some(e@),
            None => entry_of_fields(columns@, fields.deep_view()) is None,
        },
{
    if fields.len() < columns.width {
        return None;
    }
    let total = parse_count(fields[columns.total].as_str());
    let missing = parse_count(fields[columns.missing].as_str());
    let available = parse_count(fields[columns.available].as_str());
    match (total, missing, available) {
        (Some(total), Some(missing), Some(available)) => Some(
            LitematicaEntry { item: fields[columns.item].clone(), total, missing, available },
        ),
        _ => None,
    }
}

/// Builds the rows of the checklist from the records of a material list, and
/// counts the records that had to be left out.
pub fn materials_from_records(
    headers: &Option<Vec<String>>,
    records: &Vec<Option<Vec<String>>>,
) -> (loaded: (Vec<Material>, usize))
    ensures
        loaded.0.deep_view() == materials_of(columns_of(headers.deep_view()), records.deep_view()),
        loaded.1 == failures_of(columns_of(headers.deep_view()), records.deep_view()),
{
    let columns = resolve_columns(headers);
    let ghost layout = columns_of(headers.deep_view());
    let ghost rows = records.deep_view();
    let mut materials: Vec<Material> = Vec::new();
    let mut failed: usize = 0;
    let mut i: usize = 0;
    while i < records.len()
        invariant
            i <= records.len(),
            rows == records.deep_view(),
            rows.len() == records.len(),
            match columns {
                Some(c) => c.wf() && layout == Some(c@),
                None => layout is None,
            },
            materials.deep_view() == materials_of(layout, rows.take(i as int)),
            failed == failures_of(layout, rows.take(i as int)),
            failed <= i,
        decreases records.len() - i,
    {
        let entry = match (&columns, &records[i]) {
            (Some(c), Some(fields)) => entry_from_fields(c, fields),
            _ => None,
        };
        assert(rows.take(i + 1).drop_last() == rows.take(i as int));
        match entry {
            Some(e) => {
                materials.push(Material { checked: false, name: e.item, count: e.total });
            },
            None => {
                failed += 1;
            },
        }
        i += 1;
    }
    assert(rows.take(i as int) == rows);
    (materials, failed)
}

/// Every record gives either a row or a failure.
pub proof fn lemma_rows_and_failures(
    columns: Option<ColumnsView>,
    records: Seq<Option<Seq<Seq<char>>>>,
)
    ensures
        materials_of(columns, records).len() + failures_of(columns, records) == records.len(),
    decreases records.len(),
{
    if records.len() > 0 {
        lemma_rows_and_failures(columns, records.drop_last());
    }
}

/// Every row that comes from a material list is unticked.
pub proof fn lemma_rows_start_unticked(
    columns: Option<ColumnsView>,
    records: Seq<Option<Seq<Seq<char>>>>,
    i: int,
)
    requires
        0 <= i < materials_of(columns, records).len(),
    ensures
        !materials_of(columns, records)[i].checked,
    decreases records.len(),
{
    if records.len() > 0 {
        let before = materials_of(columns, records.drop_last());
        if i < before.len() {
            lemma_rows_start_unticked(columns, records.drop_last(), i);
        }
    }
}

/// Records are read one by one and in order: the rows of two runs of records,
/// one after the other, are the rows of the first run followed by those of
/// the second, and their failures add up.
pub proof fn lemma_rows_of_runs(
    columns: Option<ColumnsView>,
    first: Seq<Option<Seq<Seq<char>>>>,
    second: Seq<Option<Seq<Seq<char>>>>,
)
    ensures
        materials_of(columns, first + second) == materials_of(columns, first) + materials_of(
            columns,
            second,
        ),
        failures_of(columns, first + second) == failures_of(columns, first) + failures_of(
            columns,
            second,
        ),
    decreases second.len(),
{
    if second.len() == 0 {
        assert(materials_of(columns, first) + Seq::<MaterialView>::empty() == materials_of(
            columns,
            first,
        ));
    } else {
        lemma_rows_of_runs(columns, first, second.drop_last());
        assert((first + second).drop_last() == first + second.drop_last());
        let joined = materials_of(columns, first) + materials_of(columns, second.drop_last());
        match row_of_record(columns, second.last()) {
            Some(row) => {
                assert(joined.push(row) == materials_of(columns, first) + materials_of(
                    columns,
                    second.drop_last(),
                ).push(row));
            },
            None => {},
        }
    }
}

/// A record that gives no row is left out and counted, and changes nothing
/// else: the rows are those of the list without that record, in the same
/// order, and the failures are one more.
pub proof fn lemma_failure_is_left_out(
    columns: Option<ColumnsView>,
    before: Seq<Option<Seq<Seq<char>>>>,
    record: Option<Seq<Seq<char>>>,
    after: Seq<Option<Seq<Seq<char>>>>,
)
    requires
        row_of_record(columns, record) is None,
    ensures
        materials_of(columns, before.push(record) + after) == materials_of(
            columns,
            before + after,
        ),
        failures_of(columns, before.push(record) + after) == failures_of(columns, before + after)
            + 1,
{
    lemma_rows_of_runs(columns, before.push(record), after);
    lemma_rows_of_runs(columns, before, after);
    assert(before.push(record).drop_last() == before);
}

/// A record whose total, missing or available field is no number gives no
/// row, whatever its other fields hold.
pub proof fn lemma_counts_must_be_numbers(columns: ColumnsView, fields: Seq<Seq<char>>)
    requires
        count_of_field(fields[columns.total]) is None || count_of_field(fields[columns.missing])
            is None || count_of_field(fields[columns.available]) is None,
    ensures
        row_of_record(Some(columns), Some(fields)) is None,
{
}

/// A record with a number in each counted field, and a field for every column,
/// gives the row of its item and total, unticked.
pub proof fn lemma_numbers_give_a_row(columns: ColumnsView, fields: Seq<Seq<char>>)
    requires
        columns.width <= fields.len(),
        count_of_field(fields[columns.total]) is Some,
        count_of_field(fields[columns.missing]) is Some,
        count_of_field(fields[columns.available]) is Some,
    ensures
        row_of_record(Some(columns), Some(fields)) == Some(
            MaterialView {
                checked: false,
                name: fields[columns.item],
                count: count_of_field(fields[columns.total]).unwrap() as nat,
            },
        ),
{
}

} // verus!
