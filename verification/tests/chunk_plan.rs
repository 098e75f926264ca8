use ebidownload::chunk::{count_chunks, plan_chunks, ChunkTask};
use ebidownload::progress::ProgressLedger;

#[test]
fn plans_three_chunks_for_twenty_five_million_bytes() {
    let plan = plan_chunks(25_000_000, 10_000_000, &ProgressLedger::new());
    assert_eq!(plan.total_chunks, 3);
    assert_eq!(
        plan.tasks,
        vec![
            ChunkTask { id: 0, start: 0, end: 9_999_999 },
            ChunkTask { id: 1, start: 10_000_000, end: 19_999_999 },
            ChunkTask { id: 2, start: 20_000_000, end: 24_999_999 },
        ]
    );
}

#[test]
fn resumed_plan_skips_completed_chunks() {
    let done = ProgressLedger::from_ids(&[0, 1]);
    let plan = plan_chunks(25_000_000, 10_000_000, &done);
    assert_eq!(plan.total_chunks, 3);
    assert_eq!(plan.tasks, vec![ChunkTask { id: 2, start: 20_000_000, end: 24_999_999 }]);
}

#[test]
fn empty_file_has_no_chunks() {
    let plan = plan_chunks(0, 1024, &ProgressLedger::new());
    assert_eq!(plan.total_chunks, 0);
    assert!(plan.tasks.is_empty());
    assert_eq!(count_chunks(0, 1), 0);
}

#[test]
fn chunks_tile_the_file() {
    for (size, chunk) in [(1u64, 1u64), (1, 7), (7, 1), (10, 3), (12, 4), (25_000_000, 10_000_000), (1 << 40, (1 << 20) + 1)] {
        let plan = plan_chunks(size, chunk, &ProgressLedger::new());
        let tasks = &plan.tasks;
        assert_eq!(plan.total_chunks, size.div_ceil(chunk));
        assert_eq!(tasks.len() as u64, plan.total_chunks);
        assert_eq!(tasks[0].start, 0);
        assert_eq!(tasks[tasks.len() - 1].end, size - 1);
        let mut covered = 0u64;
        for (i, task) in tasks.iter().enumerate() {
            assert_eq!(task.id, i as u64);
            assert!(task.start <= task.end);
            if i + 1 < tasks.len() {
                assert_eq!(task.end + 1, tasks[i + 1].start);
                assert_eq!(task.end - task.start + 1, chunk);
            }
            covered += task.end - task.start + 1;
        }
        assert_eq!(covered, size);
        let last = tasks[tasks.len() - 1];
        assert_eq!(last.end - last.start + 1, if size % chunk == 0 { chunk } else { size % chunk });
    }
}

#[test]
fn plan_leaves_out_exactly_the_completed_chunks() {
    let done = [1u64, 4, 5, 99];
    let plan = plan_chunks(70, 10, &ProgressLedger::from_ids(&done));
    let ids: Vec<u64> = plan.tasks.iter().map(|t| t.id).collect();
    assert_eq!(ids, vec![0, 2, 3, 6]);
    assert_eq!(plan.total_chunks, 7);
    let all: Vec<u64> = (0..7).collect();
    assert!(plan_chunks(70, 10, &ProgressLedger::from_ids(&all)).tasks.is_empty());
}

#[test]
fn range_header_names_both_ends() {
    let task = ChunkTask { id: 1, start: 10_000_000, end: 19_999_999 };
    assert_eq!(task.range_header(), "bytes=10000000-19999999");
    assert_eq!(ChunkTask { id: 0, start: 0, end: 0 }.range_header(), "bytes=0-0");
}

#[test]
fn planning_does_not_overflow_at_the_largest_sizes() {
    assert_eq!(count_chunks(u64::MAX, u64::MAX), 1);
    assert_eq!(count_chunks(u64::MAX, u64::MAX - 1), 2);
    assert_eq!(count_chunks(u64::MAX, 1), u64::MAX);
    let plan = plan_chunks(u64::MAX, u64::MAX - 1, &ProgressLedger::new());
    assert_eq!(
        plan.tasks,
        vec![
            ChunkTask { id: 0, start: 0, end: u64::MAX - 2 },
            ChunkTask { id: 1, start: u64::MAX - 1, end: u64::MAX - 1 },
        ]
    );
}
