//! The text of what is handed to the shell or written to disk beside the
//! downloads: the commands that convert and compress an archive, the
//! scripts that hold them, and the checksum listings.

use crate::records::{processed_views, ProcessedRecord, ProcessedRecordView};
use crate::text::{decimal, to_decimal};
use vstd::prelude::*;

verus! {

/// The fewest threads that conversion and compression run with.
pub const MIN_CONVERSION_THREADS: usize = 4;

/// The threads that conversion and compression of a downloaded archive
/// use: those of the download, but no fewer than `MIN_CONVERSION_THREADS`.
pub open spec fn conversion_threads(download_threads: usize) -> usize {
    if download_threads > MIN_CONVERSION_THREADS {
        download_threads
    } else {
        MIN_CONVERSION_THREADS
    }
}

/// The threads that conversion and compression of a downloaded archive
/// use.
pub fn conversion_thread_count(download_threads: usize) -> (threads: usize)
    ensures
        threads == conversion_threads(download_threads),
{
    if download_threads > MIN_CONVERSION_THREADS {
        download_threads
    } else {
        MIN_CONVERSION_THREADS
    }
}

/// The command that fetches the archive of a run with `prefetch`.
pub open spec fn prefetch_line(prefetch: Seq<char>, run_id: Seq<char>, max_size: Seq<char>) -> Seq<char> {
    prefetch + " "@ + run_id + " -O . --max-size "@ + max_size + " --verify yes --force no"@
}

/// The command that converts the archive at `archive` to FASTQ files in
/// the current directory.
pub open spec fn convert_line(fasterq_dump: Seq<char>, threads: usize, archive: Seq<char>) -> Seq<char> {
    fasterq_dump + " --split-3 -e "@ + decimal(threads as nat) + " -O . "@ + archive + " -f"@
}

/// The command that compresses the FASTQ files of a run.
pub open spec fn compress_line(threads: usize, run_id: Seq<char>) -> Seq<char> {
    "pigz -p "@ + decimal(threads as nat) + " "@ + run_id + "*.fastq"@
}

/// Where `prefetch` leaves the archive of a run, relative to the output
/// directory.
pub open spec fn prefetched_archive(run_id: Seq<char>) -> Seq<char> {
    run_id + "/"@ + run_id + ".sra"@
}

/// The name under which a run's archive is converted after a chunked
/// download.
pub open spec fn downloaded_archive(run_id: Seq<char>) -> Seq<char> {
    run_id + ".sra"@
}

/// The commands of the `prefetch` pipeline for one run, one per line:
/// change to the output directory, fetch, convert, compress.
pub open spec fn prefetch_script(
    output_dir: Seq<char>,
    prefetch: Seq<char>,
    fasterq_dump: Seq<char>,
    run_id: Seq<char>,
    threads: usize,
    max_size: Seq<char>,
) -> Seq<char> {
    "cd "@ + output_dir + "\n"@ + prefetch_line(prefetch, run_id, max_size) + "\n"@ + convert_line(
        fasterq_dump,
        threads,
        prefetched_archive(run_id),
    ) + "\n"@ + compress_line(threads, run_id)
}

/// The commands that follow a chunked download of one run, one per line:
/// convert, compress.
pub open spec fn conversion_script(fasterq_dump: Seq<char>, run_id: Seq<char>, threads: usize) -> Seq<char> {
    convert_line(fasterq_dump, threads, downloaded_archive(run_id)) + "\n"@ + compress_line(
        threads,
        run_id,
    )
}

/// The text of a script that runs `command` in `output_path`, creating the
/// directory where needed and stopping at the first failure.
pub open spec fn script_text(output_path: Seq<char>, command: Seq<char>) -> Seq<char> {
    "#!/usr/bin/env bash\nset -euo pipefail\nmkdir -p "@ + output_path + "\ncd "@ + output_path
        + "\n"@ + command + "\n"@
}

/// The file name of the script for `id`.
pub open spec fn script_name(id: Seq<char>) -> Seq<char> {
    id + ".sh"@
}

/// The names of the FASTQ files that conversion leaves for a run: the
/// first file of a pair, and the file of a single-end run.
pub open spec fn fastq_names(run_id: Seq<char>) -> (Seq<char>, Seq<char>) {
    (run_id + "_1.fastq"@, run_id + ".fastq"@)
}

/// Builds the command that fetches the archive of a run with `prefetch`.
pub fn prefetch_command(prefetch: &str, run_id: &str, max_size: &str) -> (line: String)
    ensures
        line@ == prefetch_line(prefetch@, run_id@, max_size@),
{
    let mut line = String::from_str(prefetch);
    line.append(" ");
    line.append(run_id);
    line.append(" -O . --max-size ");
    line.append(max_size);
    line.append(" --verify yes --force no");
    line
}

/// Builds the command that converts an archive to FASTQ files.
pub fn convert_command(fasterq_dump: &str, threads: usize, archive: &str) -> (line: String)
    ensures
        line@ == convert_line(fasterq_dump@, threads, archive@),
{
    let mut line = String::from_str(fasterq_dump);
    line.append(" --split-3 -e ");
    line.append(to_decimal(threads as u64).as_str());
    line.append(" -O . ");
    line.append(archive);
    line.append(" -f");
    line
}

/// Builds the command that compresses the FASTQ files of a run.
pub fn compress_command(threads: usize, run_id: &str) -> (line: String)
    ensures
        line@ == compress_line(threads, run_id@),
{
    let mut line = String::from_str("pigz -p ");
    line.append(to_decimal(threads as u64).as_str());
    line.append(" ");
    line.append(run_id);
    line.append("*.fastq");
    line
}

/// Where `prefetch` leaves the archive of a run.
pub fn prefetched_archive_path(run_id: &str) -> (path: String)
    ensures
        path@ == prefetched_archive(run_id@),
{
    let mut path = String::from_str(run_id);
    path.append("/");
    path.append(run_id);
    path.append(".sra");
    path
}

/// The name under which a run's archive is converted after a chunked
/// download.
pub fn downloaded_archive_name(run_id: &str) -> (name: String)
    ensures
        name@ == downloaded_archive(run_id@),
{
    let mut name = String::from_str(run_id);
    name.append(".sra");
    name
}

/// Builds the script of the `prefetch` pipeline for one run.
pub fn prefetch_script_body(
    output_dir: &str,
    prefetch: &str,
    fasterq_dump: &str,
    run_id: &str,
    threads: usize,
    max_size: &str,
) -> (body: String)
    ensures
        body@ == prefetch_script(output_dir@, prefetch@, fasterq_dump@, run_id@, threads, max_size@),
{
    let mut body = String::from_str("cd ");
    body.append(output_dir);
    body.append("\n");
    body.append(prefetch_command(prefetch, run_id, max_size).as_str());
    body.append("\n");
    body.append(
        convert_command(fasterq_dump, threads, prefetched_archive_path(run_id).as_str()).as_str(),
    );
    body.append("\n");
    body.append(compress_command(threads, run_id).as_str());
    body
}

/// Builds the script that follows a chunked download of one run.
pub fn conversion_script_body(fasterq_dump: &str, run_id: &str, threads: usize) -> (body: String)
    ensures
        body@ == conversion_script(fasterq_dump@, run_id@, threads),
{
    let mut body = convert_command(fasterq_dump, threads, downloaded_archive_name(run_id).as_str());
    body.append("\n");
    body.append(compress_command(threads, run_id).as_str());
    body
}

/// Builds the text of a script that runs `command` in `output_path`.
pub fn script_file_text(output_path: &str, command: &str) -> (text: String)
    ensures
        text@ == script_text(output_path@, command@),
{
    let mut text = String::from_str("#!/usr/bin/env bash\nset -euo pipefail\nmkdir -p ");
    text.append(output_path);
    text.append("\ncd ");
    text.append(output_path);
    text.append("\n");
    text.append(command);
    text.append("\n");
    text
}

/// The file name of the script for `id`.
pub fn script_file_name(id: &str) -> (name: String)
    ensures
        name@ == script_name(id@),
{
    let mut name = String::from_str(id);
    name.append(".sh");
    name
}

/// The names of the FASTQ files that conversion leaves for a run.
pub fn fastq_file_names(run_id: &str) -> (names: (String, String))
    ensures
        (names.0@, names.1@) == fastq_names(run_id@),
{
    let mut paired = String::from_str(run_id);
    paired.append("_1.fastq");
    let mut single = String::from_str(run_id);
    single.append(".fastq");
    (paired, single)
}

/// One line of a checksum listing: digest, file name and sample title,
/// separated by tabs.
pub open spec fn md5_line(md5: Seq<char>, name: Seq<char>, title: Seq<char>) -> Seq<char> {
    md5 + "\t"@ + name + "\t"@ + title + "\n"@
}

/// The line that a run adds to the listing of first read files.
pub open spec fn first_read_line(record: ProcessedRecordView) -> Seq<char> {
    md5_line(record.fastq_md5_1, record.fastq_ftp_1_name, record.sample_title)
}

/// The line that a run adds to the listing of second read files: none
/// unless it has both digest and name of one.
pub open spec fn second_read_line(record: ProcessedRecordView) -> Seq<char> {
    match (record.fastq_md5_2, record.fastq_ftp_2_name) {
        (Some(md5), Some(name)) => md5_line(md5, name, record.sample_title),
        _ => Seq::<char>::empty(),
    }
}

/// The checksum listings of first and of second read files, a line per
/// run in the order of the runs.
pub fn md5_listings(records: &[ProcessedRecord]) -> (listings: (String, String))
    ensures
        listings.0@ == processed_views(records@).flat_map(|r: ProcessedRecordView| first_read_line(r)),
        listings.1@ == processed_views(records@).flat_map(
            |r: ProcessedRecordView| second_read_line(r),
        ),
{
    let ghost all = processed_views(records@);
    let ghost first = |r: ProcessedRecordView| first_read_line(r);
    let ghost second = |r: ProcessedRecordView| second_read_line(r);
    let mut r1 = String::new();
    let mut r2 = String::new();
    let mut i: usize = 0;
    while i < records.len()
        invariant
            i <= records.len(),
            all == processed_views(records@),
            first == |r: ProcessedRecordView| first_read_line(r),
            second == |r: ProcessedRecordView| second_read_line(r),
            r1@ == all.take(i as int).flat_map(first),
            r2@ == all.take(i as int).flat_map(second),
        decreases records.len() - i,
    {
        let record = &records[i];
        proof {
            let head1 = all.take(i as int).map_values(first);
            assert(all.take(i + 1).map_values(first) =~= head1.push(first_read_line(record@)));
            head1.lemma_flatten_push(first_read_line(record@));
            let head2 = all.take(i as int).map_values(second);
            assert(all.take(i + 1).map_values(second) =~= head2.push(second_read_line(record@)));
            head2.lemma_flatten_push(second_read_line(record@));
        }
        r1.append(record.fastq_md5_1.as_str());
        r1.append("\t");
        r1.append(record.fastq_ftp_1_name.as_str());
        r1.append("\t");
        r1.append(record.sample_title.as_str());
        r1.append("\n");
        match (&record.fastq_md5_2, &record.fastq_ftp_2_name) {
            (Some(md5), Some(name)) => {
                r2.append(md5.as_str());
                r2.append("\t");
                r2.append(name.as_str());
                r2.append("\t");
                r2.append(record.sample_title.as_str());
                r2.append("\n");
            },
            _ => {},
        }
        i += 1;
    }
    assert(all.take(records.len() as int) =~= all);
    (r1, r2)
}

} // verus!
