use direct_storage::benchmark::TestCase;
use direct_storage::results::{Lookup, ResultRow, TableRow, Tabulate, TestResult};

fn row(test_case: TestCase, staging: u32, bandwidth: u64) -> ResultRow {
    ResultRow {
        test_case,
        staging_buffer_size_mib: staging,
        data: TestResult { bandwidth, process_cycles: bandwidth * 2 },
    }
}

fn cases() -> Vec<TestCase> {
    vec![TestCase::Uncompressed, TestCase::CpuGDeflate, TestCase::GpuGDeflate]
}

#[test]
fn rows_are_equal_when_their_keys_are() {
    assert!(row(TestCase::Uncompressed, 16, 1) == row(TestCase::Uncompressed, 16, 2));
    assert!(row(TestCase::Uncompressed, 16, 1) != row(TestCase::Uncompressed, 32, 1));
    assert!(row(TestCase::Uncompressed, 16, 1) != row(TestCase::CpuGDeflate, 16, 1));
    assert!(row(TestCase::GpuGDeflate, 1, 0) == row(TestCase::GpuGDeflate, 1, u64::MAX / 2));
}

#[test]
fn lookup_finds_the_first_row_with_the_key() {
    let results = vec![
        row(TestCase::Uncompressed, 16, 1),
        row(TestCase::CpuGDeflate, 16, 2),
        row(TestCase::Uncompressed, 32, 3),
        row(TestCase::Uncompressed, 16, 4),
    ];
    assert_eq!(
        Lookup(&results, TestCase::Uncompressed, 16),
        Some(TestResult { bandwidth: 1, process_cycles: 2 })
    );
    assert_eq!(
        Lookup(&results, TestCase::Uncompressed, 32),
        Some(TestResult { bandwidth: 3, process_cycles: 6 })
    );
    assert_eq!(
        Lookup(&results, TestCase::CpuGDeflate, 16),
        Some(TestResult { bandwidth: 2, process_cycles: 4 })
    );
    assert_eq!(Lookup(&results, TestCase::CpuGDeflate, 32), None);
    assert_eq!(Lookup(&results, TestCase::GpuGDeflate, 16), None);
    assert_eq!(Lookup(&Vec::new(), TestCase::Uncompressed, 16), None);
}

#[test]
fn the_table_has_a_line_for_each_staging_size_that_ran() {
    let mut results = Vec::new();
    for (c, case) in cases().into_iter().enumerate() {
        for staging in [16u32, 32, 64] {
            results.push(row(case, staging, (c as u64 + 1) * 1000 + staging as u64));
        }
    }
    let table = Tabulate(&results, &vec![1, 2, 4, 8, 16, 32, 64, 128], &cases());
    let lines: Vec<u32> = table.iter().map(|r: &TableRow| r.staging_buffer_size_mib).collect();
    assert_eq!(lines, vec![16, 32, 64]);
    let second: Vec<u64> = table[1].cells.iter().map(|c| c.bandwidth).collect();
    assert_eq!(second, vec![1032, 2032, 3032]);
    let cycles: Vec<u64> = table[2].cells.iter().map(|c| c.process_cycles).collect();
    assert_eq!(cycles, vec![2128, 4128, 6128]);
}

#[test]
fn a_line_holds_only_the_test_cases_that_ran() {
    let results = vec![row(TestCase::GpuGDeflate, 32, 5), row(TestCase::Uncompressed, 32, 6)];
    let table = Tabulate(&results, &vec![16, 32], &cases());
    assert_eq!(table.len(), 1);
    assert_eq!(table[0].staging_buffer_size_mib, 32);
    let cells: Vec<u64> = table[0].cells.iter().map(|c| c.bandwidth).collect();
    assert_eq!(cells, vec![6, 5]);
}

#[test]
fn without_results_the_table_is_empty() {
    assert!(Tabulate(&Vec::new(), &vec![1, 2, 4], &cases()).is_empty());
    assert!(Tabulate(&vec![row(TestCase::Uncompressed, 16, 1)], &Vec::new(), &cases()).is_empty());
    assert!(Tabulate(&vec![row(TestCase::Uncompressed, 16, 1)], &vec![16], &Vec::new()).is_empty());
}
