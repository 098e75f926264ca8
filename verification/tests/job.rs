use ebidownload::checksum::Checksum;
use ebidownload::chunk::ChunkTask;
use ebidownload::job::{
    archive_file_name, ledger_file_name, ChunkResult, DownloadRun, JobOutcome, JobPhase,
    ResumableDownloader,
};
use ebidownload::metadata::SraMetadata;
use ebidownload::progress::ProgressLedger;
use ebidownload::retry::ChunkError;

fn metadata(size: u64, md5: Option<&str>) -> SraMetadata {
    SraMetadata {
        s3_uri: "s3://sra-pub-run-odp/sra/SRR000001/SRR000001".to_string(),
        http_url: "https://sra-pub-run-odp.s3.amazonaws.com/sra/SRR000001/SRR000001".to_string(),
        md5: md5.map(|m| m.to_string()),
        size,
    }
}

fn digest_of(data: &[u8]) -> Checksum {
    let mut checksum = Checksum::new();
    checksum.update(data);
    checksum
}

const FOX: &[u8] = b"The quick brown fox jumps over the lazy dog";
const FOX_MD5: &str = "9e107d9d372bb6826bd81d3542a419d6";

#[test]
fn job_names_its_files_after_the_archive() {
    let job = ResumableDownloader::new("SRR000001".to_string(), metadata(1, None), 20, 8);
    assert_eq!(job.run_id(), "SRR000001");
    assert_eq!(job.file_name(), "SRR000001.sra");
    assert_eq!(job.meta_file_name(), "SRR000001.meta.json");
    assert_eq!(job.chunk_size(), 20 * 1024 * 1024);
    assert_eq!(job.max_workers(), 8);
    assert_eq!(job.metadata().size, 1);

    assert_eq!(archive_file_name("s3://bucket/dir/run.sra"), "run.sra");
    assert_eq!(archive_file_name("s3://bucket/dir/run.lite.1"), "run.lite.1.sra");
    assert_eq!(archive_file_name("s3://bucket/"), ".sra");
    assert_eq!(archive_file_name("plain"), "plain.sra");
    assert_eq!(ledger_file_name("run.sra"), "run.meta.json");
    assert_eq!(ledger_file_name("run.lite.1.sra"), "run.lite.1.meta.json");
    assert_eq!(ledger_file_name(".sra"), ".sra.meta.json");
    assert_eq!(ledger_file_name("..sra"), "..");
}

#[test]
fn ledger_name_agrees_with_path_extension_rules() {
    let mut stems = vec![String::new()];
    for _ in 0..4 {
        let longer: Vec<String> = stems
            .iter()
            .flat_map(|s| ['.', 'a', ' '].into_iter().map(move |c| format!("{s}{c}")))
            .collect();
        stems.extend(longer);
    }
    for stem in stems {
        let name = format!("{stem}.sra");
        let expected = std::path::Path::new(&name).with_extension("meta.json");
        assert_eq!(ledger_file_name(&name), expected.to_str().unwrap(), "{name:?}");
    }
}

#[test]
fn full_job_ends_verified_and_clears_the_ledger() {
    let job = ResumableDownloader::new("r".to_string(), metadata(25_000_000, Some(FOX_MD5)), 10, 4);
    let (mut run, tasks) = job.start(ProgressLedger::load(None));
    assert_eq!(job.chunk_size(), 10_485_760);
    assert_eq!(
        tasks,
        vec![
            ChunkTask { id: 0, start: 0, end: 10_485_759 },
            ChunkTask { id: 1, start: 10_485_760, end: 20_971_519 },
            ChunkTask { id: 2, start: 20_971_520, end: 24_999_999 },
        ]
    );
    assert_eq!(run.phase(), JobPhase::Downloading);
    assert_eq!(run.total_chunks(), 3);
    assert!(run.expects_digest());
    assert!(run.record(ChunkResult::Fetched { id: 2 }));
    assert!(!run.record(ChunkResult::Failed { error: ChunkError::Protocol }));
    assert!(run.record(ChunkResult::Fetched { id: 0 }));
    assert!(run.record(ChunkResult::Fetched { id: 1 }));
    assert_eq!(run.progress().len(), 3);
    run.workers_finished();
    assert_eq!(run.phase(), JobPhase::Verifying);
    assert_eq!(run.outcome(), None);
    assert_eq!(run.verify(digest_of(FOX)).as_deref(), Some(FOX_MD5));
    assert_eq!(run.outcome(), Some(JobOutcome::Verified));
    assert!(run.clears_ledger());
}

#[test]
fn checksum_mismatch_keeps_the_ledger() {
    let job = ResumableDownloader::new("r".to_string(), metadata(43, Some(FOX_MD5)), 1, 1);
    let (mut run, tasks) = job.start(ProgressLedger::from_ids(&[0]));
    assert!(tasks.is_empty());
    assert_eq!(run.phase(), JobPhase::Verifying);
    let computed = run.verify(digest_of(b"The quick brown fox jumps over the lazy cog"));
    assert_eq!(computed.as_deref(), Some("1055d3e698d289f2af8663725127bd4b"));
    assert_eq!(run.phase(), JobPhase::Finished { outcome: JobOutcome::ChecksumMismatch });
    assert!(!run.clears_ledger());
    assert!(run.progress().contains(0));
    assert_eq!(run.progress().len(), 1);
}

#[test]
fn expected_digest_is_compared_whatever_its_case() {
    let upper = FOX_MD5.to_uppercase();
    let job = ResumableDownloader::new("r".to_string(), metadata(0, Some(&upper)), 1, 1);
    let (mut run, _) = job.start(ProgressLedger::new());
    run.verify(digest_of(FOX));
    assert_eq!(run.outcome(), Some(JobOutcome::Verified));
}

#[test]
fn missing_digest_passes_unread() {
    let (mut run, tasks) = DownloadRun::plan(10, 4, ProgressLedger::from_ids(&[0, 1, 2]), None);
    assert!(tasks.is_empty());
    assert!(!run.expects_digest());
    assert_eq!(run.verify(Checksum::new()), None);
    assert_eq!(run.outcome(), Some(JobOutcome::Verified));
    assert!(run.clears_ledger());
}

#[test]
fn failed_chunk_leaves_the_job_incomplete_and_resumable() {
    let (mut run, tasks) = DownloadRun::plan(25_000_000, 10_000_000, ProgressLedger::new(), None);
    assert_eq!(tasks.len(), 3);
    assert!(run.record(ChunkResult::Fetched { id: 0 }));
    assert!(!run.record(ChunkResult::Failed { error: ChunkError::Transport }));
    assert!(run.record(ChunkResult::Fetched { id: 2 }));
    run.workers_finished();
    assert_eq!(run.outcome(), Some(JobOutcome::Incomplete));
    assert!(!run.clears_ledger());
    let mut saved = run.progress().ids();
    saved.sort();
    assert_eq!(saved, vec![0, 2]);

    let (resumed, rest) = DownloadRun::plan(25_000_000, 10_000_000, ProgressLedger::load(Some(&saved)), None);
    assert_eq!(rest, vec![ChunkTask { id: 1, start: 10_000_000, end: 19_999_999 }]);
    assert_eq!(resumed.phase(), JobPhase::Downloading);
}

#[test]
fn second_run_of_an_empty_file_goes_straight_to_verification() {
    let job = ResumableDownloader::new("r".to_string(), metadata(0, Some("d41d8cd98f00b204e9800998ecf8427e")), 20, 8);
    let (mut first, tasks) = job.start(ProgressLedger::load(None));
    assert!(tasks.is_empty());
    first.verify(Checksum::new());
    assert!(first.clears_ledger());
    let (second, tasks) = job.start(ProgressLedger::load(None));
    assert!(tasks.is_empty());
    assert_eq!(second.phase(), JobPhase::Verifying);
}

#[test]
fn second_run_without_ledger_plans_every_chunk_again() {
    let job = ResumableDownloader::new("r".to_string(), metadata(3 * 1_048_576, None), 1, 8);
    let (_, tasks) = job.start(ProgressLedger::load(None));
    assert_eq!(tasks.len(), 3);
}

#[test]
fn messages_outside_the_download_phase_are_ignored() {
    let (mut run, _) = DownloadRun::plan(0, 1, ProgressLedger::new(), None);
    assert_eq!(run.phase(), JobPhase::Verifying);
    assert!(!run.record(ChunkResult::Fetched { id: 7 }));
    assert!(run.progress().is_empty());
    run.workers_finished();
    assert_eq!(run.phase(), JobPhase::Verifying);
    run.verify(Checksum::new());
    run.verify(digest_of(FOX));
    assert_eq!(run.outcome(), Some(JobOutcome::Verified));
}

#[test]
fn stale_ids_in_the_ledger_count_towards_completion() {
    let (mut run, tasks) = DownloadRun::plan(30, 10, ProgressLedger::from_ids(&[0, 9]), None);
    assert_eq!(tasks.len(), 2);
    run.record(ChunkResult::Fetched { id: 1 });
    run.workers_finished();
    assert_eq!(run.phase(), JobPhase::Verifying);
}
