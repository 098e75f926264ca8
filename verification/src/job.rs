//! One download job: plan, download, verify.
//!
//! The library decides; the caller does the fetching, the writing and the
//! reading of files, and reports what happened. A job is planned from the
//! progress ledger of earlier runs. While workers fetch chunks, each result
//! is recorded as it arrives. Once all workers are done the job either goes
//! on to verification or ends incomplete, and verification ends it as
//! verified or as a checksum mismatch.

use crate::checksum::{md5_hex, passes, Checksum};
use crate::chunk::{
    chunk_count, full_plan, lemma_residual_plan, plan_chunks, residual_plan, ChunkTask,
};
use crate::progress::ProgressLedger;
use crate::retry::ChunkError;
use crate::metadata::{SraMetadata, SraMetadataView};
use crate::text::{
    chars_of, eq_ignore_ascii_case, has_suffix, last_segment, last_segment_of, matches_at,
    opt_text,
};
use vstd::prelude::*;

verus! {

/// How a job ends.
#[derive(Clone, Copy, Debug, PartialEq, Eq, Structural)]
pub enum JobOutcome {
    /// Every chunk is present and the file passed verification. The
    /// progress file is removed.
    Verified,
    /// Every chunk is present, but the file's digest is not the expected
    /// one. File and progress file are left as they are.
    ChecksumMismatch,
    /// Some chunks could not be fetched. The progress file holds those that
    /// were, and a later run fetches the rest.
    Incomplete,
}

/// Where a job stands.
#[derive(Clone, Copy, Debug, PartialEq, Eq, Structural)]
pub enum JobPhase {
    /// Workers are fetching the planned chunks.
    Downloading,
    /// All chunks are accounted for; the file is to be verified.
    Verifying,
    /// The job has ended.
    Finished { outcome: JobOutcome },
}

/// The message a worker sends when it is done with a chunk.
#[derive(Clone, Copy, Debug, PartialEq, Eq, Structural)]
pub enum ChunkResult {
    /// The chunk with this id was fetched and written.
    Fetched { id: u64 },
    /// The chunk was given up.
    Failed { error: ChunkError },
}

/// A job in progress.
pub struct DownloadRun {
    progress: ProgressLedger,
    total_chunks: u64,
    expected_md5: Option<String>,
    phase: JobPhase,
}

/// `DownloadRun` as a mathematical value.
pub struct DownloadRunView {
    /// Where the job stands.
    pub phase: JobPhase,
    /// The ids of the chunks that are complete.
    pub done: Set<u64>,
    /// The number of chunks of the file.
    pub total_chunks: u64,
    /// The digest the file should have, where one is known.
    pub expected_md5: Option<Seq<char>>,
}

impl View for DownloadRun {
    type V = DownloadRunView;

    closed spec fn view(&self) -> DownloadRunView {
        DownloadRunView {
            phase: self.phase,
            done: self.progress@,
            total_chunks: self.total_chunks,
            expected_md5: opt_text(self.expected_md5),
        }
    }
}

/// The phase after planning: with nothing to fetch a job goes straight to
/// verification.
pub open spec fn phase_after_planning(tasks: Seq<ChunkTask>) -> JobPhase {
    if tasks.len() == 0 {
        JobPhase::Verifying
    } else {
        JobPhase::Downloading
    }
}

/// The job after a worker's message: a fetched chunk joins the completed
/// ones, a failed chunk changes nothing. Messages that arrive while the job
/// is not downloading are ignored.
pub open spec fn after_result(run: DownloadRunView, result: ChunkResult) -> DownloadRunView {
    match (run.phase, result) {
        (JobPhase::Downloading, ChunkResult::Fetched { id }) => DownloadRunView {
            done: run.done.insert(id),
            ..run
        },
        _ => run,
    }
}

/// The job after a series of messages.
pub open spec fn after_results(run: DownloadRunView, results: Seq<ChunkResult>) -> DownloadRunView
    decreases results.len(),
{
    if results.len() == 0 {
        run
    } else {
        after_result(after_results(run, results.drop_last()), results.last())
    }
}

/// The job after all workers are done: on to verification where as many
/// chunks are complete as the file has, else ended as incomplete.
pub open spec fn after_workers(run: DownloadRunView) -> DownloadRunView {
    match run.phase {
        JobPhase::Downloading => DownloadRunView {
            phase: if run.done.len() == run.total_chunks {
                JobPhase::Verifying
            } else {
                JobPhase::Finished { outcome: JobOutcome::Incomplete }
            },
            ..run
        },
        _ => run,
    }
}

/// The job after verification of a file that holds `file`.
pub open spec fn after_verification(run: DownloadRunView, file: Seq<u8>) -> DownloadRunView {
    match run.phase {
        JobPhase::Verifying => DownloadRunView {
            phase: JobPhase::Finished {
                outcome: if passes(run.expected_md5, file) {
                    JobOutcome::Verified
                } else {
                    JobOutcome::ChecksumMismatch
                },
            },
            ..run
        },
        _ => run,
    }
}

impl DownloadRun {
    /// Plans a job for a file of `size` bytes in chunks of `chunk_size`
    /// bytes, resuming from `progress`. Returns the job and the chunks that
    /// are to be fetched, in order of offset.
    ///
    /// The ids in `progress` are taken as they are: a ledger that was
    /// written under another chunk size is not told apart from one written
    /// under this one.
    pub fn plan(
        size: u64,
        chunk_size: u64,
        progress: ProgressLedger,
        expected_md5: Option<String>,
    ) -> (planned: (DownloadRun, Vec<ChunkTask>))
        requires
            chunk_size > 0,
        ensures
            planned.1@ == residual_plan(size, chunk_size, progress@),
            planned.0@ == (DownloadRunView {
                phase: phase_after_planning(planned.1@),
                done: progress@,
                total_chunks: chunk_count(size as nat, chunk_size as nat) as u64,
                expected_md5: opt_text(expected_md5),
            }),
    {
        let plan = plan_chunks(size, chunk_size, &progress);
        let phase = if plan.tasks.len() == 0 {
            JobPhase::Verifying
        } else {
            JobPhase::Downloading
        };
        (DownloadRun { progress, total_chunks: plan.total_chunks, expected_md5, phase }, plan.tasks)
    }

    /// Where the job stands.
    pub fn phase(&self) -> (phase: JobPhase)
        ensures
            phase == self@.phase,
    {
        self.phase
    }

    /// How the job ended, once it has.
    pub fn outcome(&self) -> (outcome: Option<JobOutcome>)
        ensures
            outcome == match self@.phase {
                JobPhase::Finished { outcome } => Some(outcome),
                _ => None,
            },
    {
        match self.phase {
            JobPhase::Finished { outcome } => Some(outcome),
            _ => None,
        }
    }

    /// The chunks that are complete.
    pub fn progress(&self) -> (ledger: &ProgressLedger)
        ensures
            ledger@ == self@.done,
    {
        &self.progress
    }

    /// The number of chunks of the file.
    pub fn total_chunks(&self) -> (total: u64)
        ensures
            total == self@.total_chunks,
    {
        self.total_chunks
    }

    /// Whether the file has to be read and digested for verification: it
    /// has where the metadata gave a digest.
    pub fn expects_digest(&self) -> (expected: bool)
        ensures
            expected == self@.expected_md5 is Some,
    {
        self.expected_md5.is_some()
    }

    /// Records a worker's message. Returns whether the progress file is to
    /// be rewritten now: it is after every fetched chunk.
    pub fn record(&mut self, result: ChunkResult) -> (save: bool)
        ensures
            final(self)@ == after_result(old(self)@, result),
            save == (old(self)@.phase is Downloading && result is Fetched),
    {
        match (self.phase, result) {
            (JobPhase::Downloading, ChunkResult::Fetched { id }) => {
                self.progress.insert(id);
                true
            },
            _ => false,
        }
    }

    /// Notes that all workers are done.
    pub fn workers_finished(&mut self)
        ensures
            final(self)@ == after_workers(old(self)@),
    {
        if let JobPhase::Downloading = self.phase {
            if self.progress.len() as u64 == self.total_chunks {
                self.phase = JobPhase::Verifying;
            } else {
                self.phase = JobPhase::Finished { outcome: JobOutcome::Incomplete };
            }
        }
    }

    /// Verifies the file, of which `file` has digested every block. Where
    /// no digest is expected the file passes unread, and `file` may be
    /// empty. Returns the file's digest where it was compared with the
    /// expected one.
    pub fn verify(&mut self, file: Checksum) -> (computed: Option<String>)
        ensures
            final(self)@ == after_verification(old(self)@, file@),
            opt_text(computed) == if old(self)@.phase is Verifying && old(self)@.expected_md5 is Some {
                Some(md5_hex(file@))
            } else {
                None
            },
    {
        if let JobPhase::Verifying = self.phase {
            let (passed, computed) = match &self.expected_md5 {
                Some(expected) => {
                    let computed = file.hex_digest();
                    (eq_ignore_ascii_case(computed.as_str(), expected.as_str()), Some(computed))
                },
                None => (true, None),
            };
            self.phase = JobPhase::Finished {
                outcome: if passed {
                    JobOutcome::Verified
                } else {
                    JobOutcome::ChecksumMismatch
                },
            };
            computed
        } else {
            None
        }
    }

    /// Whether the progress file is to be removed: only once the job has
    /// ended as verified.
    pub fn clears_ledger(&self) -> (clear: bool)
        ensures
            clear == (self@.phase == JobPhase::Finished { outcome: JobOutcome::Verified }),
    {
        match self.phase {
            JobPhase::Finished { outcome: JobOutcome::Verified } => true,
            _ => false,
        }
    }
}

/// Bytes in a mebibyte, the unit in which the caller gives the chunk size.
pub const MEBIBYTE: u64 = 1048576;

/// The name of the file that an archive is saved as: what follows the last
/// `/` of its location, with `.sra` added unless it ends so already.
pub open spec fn archive_name(s3_uri: Seq<char>) -> Seq<char> {
    let raw = last_segment(s3_uri, '/');
    if has_suffix(raw, ".sra"@) {
        raw
    } else {
        raw + ".sra"@
    }
}

/// The name of the progress file that goes with a saved archive: the
/// archive's name with the extension `meta.json` in place of `sra`, by the
/// rules of file paths. Two names are special under those rules. `.sra` is
/// a name without extension, and `.meta.json` is added to it. `..sra` loses
/// its extension and gets none, since what is left names the parent
/// directory.
pub open spec fn ledger_name(file_name: Seq<char>) -> Seq<char>
    recommends
        has_suffix(file_name, ".sra"@),
{
    if file_name == ".sra"@ {
        file_name + ".meta.json"@
    } else if file_name == "..sra"@ {
        ".."@
    } else {
        file_name.take(file_name.len() - ".sra"@.len()) + ".meta.json"@
    }
}

/// The name an archive is saved as always ends in `.sra`.
pub proof fn lemma_archive_name_ends_in_sra(s3_uri: Seq<char>)
    ensures
        has_suffix(archive_name(s3_uri), ".sra"@),
{
    let raw = last_segment(s3_uri, '/');
    if !has_suffix(raw, ".sra"@) {
        let name = raw + ".sra"@;
        assert(name.subrange(name.len() - ".sra"@.len(), name.len() as int) =~= ".sra"@);
    }
}

/// The description of one job: what to fetch, under which names it is
/// saved, and how the work is cut up.
pub struct ResumableDownloader {
    run_id: String,
    metadata: SraMetadata,
    file_name: String,
    meta_file_name: String,
    chunk_size: u64,
    max_workers: usize,
}

/// `ResumableDownloader` as a mathematical value.
pub struct ResumableDownloaderView {
    pub run_id: Seq<char>,
    pub metadata: SraMetadataView,
    pub file_name: Seq<char>,
    pub meta_file_name: Seq<char>,
    pub chunk_size: u64,
    pub max_workers: usize,
}

impl View for ResumableDownloader {
    type V = ResumableDownloaderView;

    closed spec fn view(&self) -> ResumableDownloaderView {
        ResumableDownloaderView {
            run_id: self.run_id@,
            metadata: self.metadata@,
            file_name: self.file_name@,
            meta_file_name: self.meta_file_name@,
            chunk_size: self.chunk_size,
            max_workers: self.max_workers,
        }
    }
}

impl ResumableDownloader {
    #[verifier::type_invariant]
    spec fn chunk_size_is_positive(self) -> bool {
        self.chunk_size > 0
    }

    /// Describes the job that fetches the archive of `run_id` in chunks of
    /// `chunk_size_mb` mebibytes with `max_workers` workers.
    pub fn new(run_id: String, metadata: SraMetadata, chunk_size_mb: u64, max_workers: usize) -> (job:
        Self)
        requires
            chunk_size_mb > 0,
            chunk_size_mb * MEBIBYTE <= u64::MAX,
        ensures
            job@ == (ResumableDownloaderView {
                run_id: run_id@,
                metadata: metadata@,
                file_name: archive_name(metadata.s3_uri@),
                meta_file_name: ledger_name(archive_name(metadata.s3_uri@)),
                chunk_size: (chunk_size_mb * MEBIBYTE) as u64,
                max_workers,
            }),
    {
        let file_name = archive_file_name(metadata.s3_uri.as_str());
        proof {
            lemma_archive_name_ends_in_sra(metadata.s3_uri@);
        }
        let meta_file_name = ledger_file_name(file_name.as_str());
        ResumableDownloader {
            run_id,
            metadata,
            file_name,
            meta_file_name,
            chunk_size: chunk_size_mb * MEBIBYTE,
            max_workers,
        }
    }

    /// The run that the job is for.
    pub fn run_id(&self) -> (id: &str)
        ensures
            id@ == self@.run_id,
    {
        self.run_id.as_str()
    }

    /// Where the archive is and what it should be.
    pub fn metadata(&self) -> (metadata: &SraMetadata)
        ensures
            metadata@ == self@.metadata,
    {
        &self.metadata
    }

    /// The name under which the archive is saved.
    pub fn file_name(&self) -> (name: &str)
        ensures
            name@ == self@.file_name,
    {
        self.file_name.as_str()
    }

    /// The name of the progress file, which is kept beside the archive.
    pub fn meta_file_name(&self) -> (name: &str)
        ensures
            name@ == self@.meta_file_name,
    {
        self.meta_file_name.as_str()
    }

    /// The length of a chunk in bytes.
    pub fn chunk_size(&self) -> (bytes: u64)
        ensures
            bytes == self@.chunk_size,
            bytes > 0,
    {
        proof {
            use_type_invariant(self);
        }
        self.chunk_size
    }

    /// The number of workers that fetch chunks at the same time.
    pub fn max_workers(&self) -> (workers: usize)
        ensures
            workers == self@.max_workers,
    {
        self.max_workers
    }

    /// Starts the job from the progress of earlier runs: plans the chunks
    /// that are still to fetch. With none left the job begins at
    /// verification.
    pub fn start(&self, progress: ProgressLedger) -> (planned: (DownloadRun, Vec<ChunkTask>))
        ensures
            self@.chunk_size > 0,
            planned.1@ == residual_plan(self@.metadata.size, self@.chunk_size, progress@),
            planned.0@ == (DownloadRunView {
                phase: phase_after_planning(planned.1@),
                done: progress@,
                total_chunks: chunk_count(
                    self@.metadata.size as nat,
                    self@.chunk_size as nat,
                ) as u64,
                expected_md5: self@.metadata.md5,
            }),
    {
        proof {
            use_type_invariant(self);
        }
        let expected_md5 = match &self.metadata.md5 {
            Some(digest) => Some(digest.clone()),
            None => None,
        };
        DownloadRun::plan(self.metadata.size, self.chunk_size, progress, expected_md5)
    }
}

/// The name of the file that the archive at `s3_uri` is saved as.
pub fn archive_file_name(s3_uri: &str) -> (name: String)
    ensures
        name@ == archive_name(s3_uri@),
{
    let mut name = last_segment_of(s3_uri, '/');
    let chars = chars_of(name.as_str());
    let suffix = chars_of(".sra");
    let ends_so = chars.len() >= suffix.len() && matches_at(&chars, &suffix, chars.len() - suffix.len());
    if !ends_so {
        name.append(".sra");
    }
    name
}

/// The name of the progress file of the archive saved as `file_name`.
pub fn ledger_file_name(file_name: &str) -> (name: String)
    requires
        has_suffix(file_name@, ".sra"@),
    ensures
        name@ == ledger_name(file_name@),
{
    let chars = chars_of(file_name);
    let suffix = chars_of(".sra");
    let stem_len = chars.len() - suffix.len();
    proof {
        reveal_strlit(".sra");
        reveal_strlit("..sra");
        reveal_strlit("..");
        assert(file_name@ =~= file_name@.take(stem_len as int) + ".sra"@);
    }
    if stem_len == 1 && chars[0] == '.' {
        assert(file_name@ =~= "..sra"@);
        return String::from_str("..");
    }
    assert(file_name@ != "..sra"@);
    let mut name = if stem_len == 0 {
        String::from_str(file_name)
    } else {
        String::from_str(file_name.substring_char(0, stem_len))
    };
    name.append(".meta.json");
    name
}

/// The ids that `results` report as fetched.
pub open spec fn fetched_ids(results: Seq<ChunkResult>) -> Set<u64> {
    Set::new(|id: u64| results.contains(ChunkResult::Fetched { id }))
}

/// The ids of the chunks of a file that has `total` chunks.
pub open spec fn chunk_ids(total: u64) -> Set<u64> {
    Set::new(|id: u64| id < total)
}

/// A file with `total` chunks has `total` chunk ids.
pub proof fn lemma_chunk_ids_len(total: u64)
    ensures
        chunk_ids(total).finite(),
        chunk_ids(total).len() == total,
    decreases total,
{
    if total == 0 {
        assert(chunk_ids(total) =~= Set::<u64>::empty());
    } else {
        let below = (total - 1) as u64;
        lemma_chunk_ids_len(below);
        assert(chunk_ids(total) =~= chunk_ids(below).insert(below));
    }
}

/// While a job is downloading, the completed chunks are those it started
/// with and those reported as fetched, in whatever order the messages
/// arrive and whatever failures are reported between them. The job keeps
/// downloading, and nothing else about it changes.
pub proof fn lemma_results_accumulate(run: DownloadRunView, results: Seq<ChunkResult>)
    requires
        run.phase is Downloading,
    ensures
        after_results(run, results) == (DownloadRunView {
            done: run.done.union(fetched_ids(results)),
            ..run
        }),
    decreases results.len(),
{
    if results.len() == 0 {
        assert(run.done.union(fetched_ids(results)) =~= run.done);
    } else {
        let head = results.drop_last();
        let last = results.last();
        lemma_results_accumulate(run, head);
        let so_far = run.done.union(fetched_ids(head));
        let all = run.done.union(fetched_ids(results));
        assert forall|id: u64| fetched_ids(results).contains(id) <==> (fetched_ids(head).contains(id)
            || last == (ChunkResult::Fetched { id })) by {
            let wanted = ChunkResult::Fetched { id };
            if results.contains(wanted) {
                let i = choose|i: int| 0 <= i < results.len() && results[i] == wanted;
                if i < head.len() {
                    assert(head[i] == wanted);
                }
            }
            if head.contains(wanted) {
                let i = choose|i: int| 0 <= i < head.len() && head[i] == wanted;
                assert(results[i] == wanted);
            }
            if last == wanted {
                assert(results[results.len() - 1] == wanted);
            }
        }
        match last {
            ChunkResult::Fetched { id } => {
                assert(all =~= so_far.insert(id));
            },
            ChunkResult::Failed { .. } => {
                assert(all =~= so_far);
            },
        }
    }
}

/// A job whose ledger held only chunks of the file goes on to verification
/// exactly when every chunk of the file was complete before or is reported
/// as fetched; otherwise it ends incomplete. Failures of other chunks have
/// no part in this.
pub proof fn lemma_complete_iff_all_fetched(run: DownloadRunView, results: Seq<ChunkResult>)
    requires
        run.phase is Downloading,
        run.done.subset_of(chunk_ids(run.total_chunks)),
        fetched_ids(results).subset_of(chunk_ids(run.total_chunks)),
    ensures
        ({
            let end = after_workers(after_results(run, results));
            let all_there = forall|id: u64|
                id < run.total_chunks ==> run.done.contains(id) || results.contains(
                    ChunkResult::Fetched { id },
                );
            &&& all_there ==> end.phase == JobPhase::Verifying
            &&& !all_there ==> end.phase == (JobPhase::Finished { outcome: JobOutcome::Incomplete })
            &&& end.done == run.done.union(fetched_ids(results))
        }),
{
    lemma_results_accumulate(run, results);
    lemma_chunk_ids_len(run.total_chunks);
    let ids = chunk_ids(run.total_chunks);
    let done = run.done.union(fetched_ids(results));
    vstd::set_lib::lemma_len_subset(done, ids);
    let all_there = forall|id: u64|
        id < run.total_chunks ==> run.done.contains(id) || results.contains(
            ChunkResult::Fetched { id },
        );
    if all_there {
        assert(done =~= ids);
    } else {
        let missing = choose|id: u64|
            id < run.total_chunks && !(run.done.contains(id) || results.contains(
                ChunkResult::Fetched { id },
            ));
        assert(ids.contains(missing) && !done.contains(missing));
        if done.len() == ids.len() {
            vstd::set_lib::lemma_subset_equality(done, ids);
        }
    }
}

/// A run that finds no progress file — as after a run that ended verified,
/// which removes it — has nothing to fetch, and goes straight to
/// verification, exactly when the file is empty. For any other file every
/// chunk is planned again.
pub proof fn lemma_rerun_without_ledger(size: u64, chunk_size: u64)
    requires
        chunk_size > 0,
    ensures
        residual_plan(size, chunk_size, Set::<u64>::empty()) == full_plan(size, chunk_size),
        phase_after_planning(residual_plan(size, chunk_size, Set::<u64>::empty()))
            == JobPhase::Verifying <==> size == 0,
{
    lemma_residual_plan(size, chunk_size, Set::<u64>::empty());
    crate::chunk::lemma_chunk_count(0, size as nat, chunk_size as nat);
}

/// A run whose ledger holds every chunk of the file has nothing to fetch
/// and goes straight to verification.
pub proof fn lemma_rerun_with_full_ledger(size: u64, chunk_size: u64, done: Set<u64>)
    requires
        chunk_size > 0,
        chunk_ids(chunk_count(size as nat, chunk_size as nat) as u64).subset_of(done),
    ensures
        residual_plan(size, chunk_size, done).len() == 0,
        phase_after_planning(residual_plan(size, chunk_size, done)) == JobPhase::Verifying,
{
    lemma_residual_plan(size, chunk_size, done);
    crate::chunk::lemma_chunk_count(0, size as nat, chunk_size as nat);
    let total = chunk_count(size as nat, chunk_size as nat) as u64;
    assert forall|id: u64| id < full_plan(size, chunk_size).len() implies done.contains(id) by {
        assert(chunk_ids(total).contains(id));
    }
}

} // verus!
