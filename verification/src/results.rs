//! The results of the benchmark: one row per test case and staging buffer
//! size, and the table that is printed from them.
//!
//! A row is identified by its test case and staging buffer size alone. What
//! was measured is not part of its identity.

use vstd::prelude::*;
use vstd::std_specs::cmp::PartialEqSpecImpl;
use crate::benchmark::TestCase;

verus! {

/// What one run measured.
#[derive(Clone, Copy, Debug, PartialEq, Eq, Structural)]
pub struct TestResult {
    /// Mean bandwidth of the trials, in bytes per second.
    pub bandwidth: u64,
    /// Mean number of processor cycles that the process spent on a trial.
    pub process_cycles: u64,
}

/// The result of one run.
#[derive(Clone, Copy, Debug)]
pub struct ResultRow {
    pub test_case: TestCase,
    pub staging_buffer_size_mib: u32,
    pub data: TestResult,
}

impl ResultRow {
    /// Whether this is the row of the given test case and staging buffer
    /// size.
    pub open spec fn has_key(self, test_case: TestCase, staging_buffer_size_mib: u32) -> bool {
        self.test_case == test_case && self.staging_buffer_size_mib == staging_buffer_size_mib
    }
}

impl PartialEq for ResultRow {
    fn eq(&self, other: &Self) -> (r: bool) {
        self.test_case == other.test_case && self.staging_buffer_size_mib
            == other.staging_buffer_size_mib
    }
}

impl Eq for ResultRow {

}

impl PartialEqSpecImpl for ResultRow {
    open spec fn obeys_eq_spec() -> bool {
        true
    }

    open spec fn eq_spec(&self, other: &Self) -> bool {
        self.test_case == other.test_case && self.staging_buffer_size_mib
            == other.staging_buffer_size_mib
    }
}

/// What the first row with the given key measured, if there is such a row.
pub open spec fn lookup(results: Seq<ResultRow>, test_case: TestCase, staging_buffer_size_mib: u32)
    -> Option<TestResult>
    decreases results.len(),
{
    if results.len() == 0 {
        None
    } else if results[0].has_key(test_case, staging_buffer_size_mib) {
        Some(results[0].data)
    } else {
        lookup(results.drop_first(), test_case, staging_buffer_size_mib)
    }
}

/// What the first row with the given key measured, if there is such a row.
pub fn Lookup(results: &Vec<ResultRow>, test_case: TestCase, staging_buffer_size_mib: u32) -> (r:
    Option<TestResult>)
    ensures
        r == lookup(results@, test_case, staging_buffer_size_mib),
{
    let mut index: usize = 0;
    assert(results@.skip(0) =~= results@);
    while index < results.len()
        invariant
            index <= results.len(),
            lookup(results@, test_case, staging_buffer_size_mib) == lookup(
                results@.skip(index as int),
                test_case,
                staging_buffer_size_mib,
            ),
        decreases results.len() - index,
    {
        let row = results[index];
        proof {
            assert(results@.skip(index as int)[0] == row);
            assert(results@.skip(index as int).drop_first() =~= results@.skip(index + 1));
        }
        if row.test_case == test_case && row.staging_buffer_size_mib == staging_buffer_size_mib {
            return Some(row.data);
        }
        index += 1;
    }
    None
}

/// One line of the table: a staging buffer size and what was measured with
/// it, test case by test case.
#[derive(Clone, Debug)]
pub struct TableRow {
    pub staging_buffer_size_mib: u32,
    pub cells: Vec<TestResult>,
}

/// A line of the table as a value.
pub struct TableRowView {
    pub staging_buffer_size_mib: u32,
    pub cells: Seq<TestResult>,
}

impl View for TableRow {
    type V = TableRowView;

    open spec fn view(&self) -> TableRowView {
        TableRowView {
            staging_buffer_size_mib: self.staging_buffer_size_mib,
            cells: self.cells@,
        }
    }
}

/// The cells of a line for the first `count` test cases: the results of the
/// test cases that ran with this staging buffer size, in the order of the
/// test cases.
pub open spec fn cells(
    results: Seq<ResultRow>,
    test_cases: Seq<TestCase>,
    staging_buffer_size_mib: u32,
    count: nat,
) -> Seq<TestResult>
    decreases count,
{
    if count == 0 {
        Seq::empty()
    } else {
        let before = cells(results, test_cases, staging_buffer_size_mib, (count - 1) as nat);
        match lookup(results, test_cases[count - 1], staging_buffer_size_mib) {
            Some(data) => before.push(data),
            None => before,
        }
    }
}

/// The lines of the table for the first `count` staging buffer sizes: one
/// for each size that some test case ran with, in the order of the sizes.
pub open spec fn table(
    results: Seq<ResultRow>,
    staging_sizes: Seq<u32>,
    test_cases: Seq<TestCase>,
    count: nat,
) -> Seq<TableRowView>
    decreases count,
{
    if count == 0 {
        Seq::empty()
    } else {
        let before = table(results, staging_sizes, test_cases, (count - 1) as nat);
        let found = cells(results, test_cases, staging_sizes[count - 1], test_cases.len());
        if found.len() > 0 {
            before.push(
                TableRowView { staging_buffer_size_mib: staging_sizes[count - 1], cells: found },
            )
        } else {
            before
        }
    }
}

/// The lines of a table as values.
pub open spec fn table_view(rows: Seq<TableRow>) -> Seq<TableRowView> {
    Seq::new(rows.len(), |i: int| rows[i]@)
}

/// The table of the results: a line for each staging buffer size that a
/// test case ran with, and in it the results of those test cases.
pub fn Tabulate(results: &Vec<ResultRow>, staging_sizes: &Vec<u32>, test_cases: &Vec<TestCase>)
    -> (r: Vec<TableRow>)
    ensures
        table_view(r@) == table(results@, staging_sizes@, test_cases@, staging_sizes@.len()),
{
    let mut rows: Vec<TableRow> = Vec::new();
    let mut line: usize = 0;
    while line < staging_sizes.len()
        invariant
            line <= staging_sizes.len(),
            table_view(rows@) == table(results@, staging_sizes@, test_cases@, line as nat),
        decreases staging_sizes.len() - line,
    {
        let staging_buffer_size_mib = staging_sizes[line];
        let mut found: Vec<TestResult> = Vec::new();
        let mut column: usize = 0;
        while column < test_cases.len()
            invariant
                column <= test_cases.len(),
                found@ == cells(results@, test_cases@, staging_buffer_size_mib, column as nat),
            decreases test_cases.len() - column,
        {
            match Lookup(results, test_cases[column], staging_buffer_size_mib) {
                Some(data) => {
                    found.push(data);
                },
                None => {},
            }
            column += 1;
        }
        let ghost before = rows@;
        if found.len() > 0 {
            let row = TableRow { staging_buffer_size_mib, cells: found };
            rows.push(row);
            assert(table_view(rows@) =~= table_view(before).push(row@));
        }
        line += 1;
    }
    rows
}

} // verus!
