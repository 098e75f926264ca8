//! Downloads of read files by an external transfer tool: the list of files
//! to fetch, the command that fetches one, and what to do about a file that
//! is already there.

use crate::records::{processed_views, ProcessedRecord, ProcessedRecordView};
use crate::text::{replace_all, replaced};
use vstd::prelude::*;

verus! {

/// The transfer tool to use.
#[derive(Clone, Copy, Debug, PartialEq, Eq, Structural)]
pub enum Protocol {
    /// `wget` over FTP.
    Ftp,
    /// Aspera's `ascp`.
    Ascp,
}

/// One read file to fetch.
#[derive(Debug)]
pub struct FileTask {
    pub url: String,
    pub md5: String,
    pub filename: String,
    pub run_id: String,
    /// The size the file should have; 0 where it is not known.
    pub total_size: u64,
}

/// `FileTask` with its texts as sequences of characters.
pub struct FileTaskView {
    pub url: Seq<char>,
    pub md5: Seq<char>,
    pub filename: Seq<char>,
    pub run_id: Seq<char>,
    pub total_size: u64,
}

impl View for FileTask {
    type V = FileTaskView;

    open spec fn view(&self) -> FileTaskView {
        FileTaskView {
            url: self.url@,
            md5: self.md5@,
            filename: self.filename@,
            run_id: self.run_id@,
            total_size: self.total_size,
        }
    }
}

/// The views of a list of file tasks.
pub open spec fn task_views(tasks: Seq<FileTask>) -> Seq<FileTaskView> {
    tasks.map_values(|t: FileTask| t@)
}

/// The files of one run: its first read file, and its second where the
/// run has location, checksum, name and size of one.
pub open spec fn tasks_of(record: ProcessedRecordView) -> Seq<FileTaskView> {
    let first = FileTaskView {
        url: record.fastq_ftp_1_url,
        md5: record.fastq_md5_1,
        filename: record.fastq_ftp_1_name,
        run_id: record.run_accession,
        total_size: record.fastq_bytes_1,
    };
    match (record.fastq_ftp_2_url, record.fastq_md5_2, record.fastq_ftp_2_name, record.fastq_bytes_2) {
        (Some(url), Some(md5), Some(filename), Some(total_size)) => seq![
            first,
            FileTaskView { url, md5, filename, run_id: record.run_accession, total_size },
        ],
        _ => seq![first],
    }
}

/// The files of all runs, run by run.
pub fn file_tasks(records: &[ProcessedRecord]) -> (tasks: Vec<FileTask>)
    ensures
        task_views(tasks@) == processed_views(records@).flat_map(|r: ProcessedRecordView| tasks_of(r)),
{
    let ghost all = processed_views(records@);
    let ghost files = |r: ProcessedRecordView| tasks_of(r);
    let mut tasks: Vec<FileTask> = Vec::new();
    let mut i: usize = 0;
    while i < records.len()
        invariant
            i <= records.len(),
            all == processed_views(records@),
            files == |r: ProcessedRecordView| tasks_of(r),
            task_views(tasks@) == all.take(i as int).flat_map(files),
        decreases records.len() - i,
    {
        let record = &records[i];
        proof {
            let head = all.take(i as int).map_values(files);
            assert(all.take(i + 1).map_values(files) =~= head.push(tasks_of(record@)));
            head.lemma_flatten_push(tasks_of(record@));
        }
        tasks.push(
            FileTask {
                url: record.fastq_ftp_1_url.clone(),
                md5: record.fastq_md5_1.clone(),
                filename: record.fastq_ftp_1_name.clone(),
                run_id: record.run_accession.clone(),
                total_size: record.fastq_bytes_1,
            },
        );
        match (
            &record.fastq_ftp_2_url,
            &record.fastq_md5_2,
            &record.fastq_ftp_2_name,
            record.fastq_bytes_2,
        ) {
            (Some(url), Some(md5), Some(filename), Some(total_size)) => {
                tasks.push(
                    FileTask {
                        url: url.clone(),
                        md5: md5.clone(),
                        filename: filename.clone(),
                        run_id: record.run_accession.clone(),
                        total_size,
                    },
                );
            },
            _ => {},
        }
        i += 1;
    }
    assert(all.take(records.len() as int) =~= all);
    tasks
}

/// A command that fetches one file into the current directory.
#[derive(Debug)]
pub struct TransferCommand {
    /// The program to run.
    pub program: String,
    /// Its arguments.
    pub args: Vec<String>,
    /// The same command as one line of a shell script.
    pub script_line: String,
}

/// `TransferCommand` with its texts as sequences of characters.
pub struct TransferCommandView {
    pub program: Seq<char>,
    pub args: Seq<Seq<char>>,
    pub script_line: Seq<char>,
}

impl View for TransferCommand {
    type V = TransferCommandView;

    open spec fn view(&self) -> TransferCommandView {
        TransferCommandView {
            program: self.program@,
            args: self.args.deep_view(),
            script_line: self.script_line@,
        }
    }
}

/// The Aspera source for a file at `url`: the FTP host is replaced by the
/// Aspera account on the transfer host.
pub open spec fn ascp_source(url: Seq<char>) -> Seq<char> {
    replaced(url, "ftp.sra.ebi.ac.uk"@, "era-fasp@fasp.sra.ebi.ac.uk:"@)
}

/// The command that fetches the file at `url`.
///
/// Over FTP the file is fetched with `wget -c`, which resumes a partial
/// file. With Aspera it is fetched with the configured `ascp` and key, at
/// up to 800 Mbit/s on port 33001, resuming where attributes match.
pub open spec fn transfer_command_for(
    protocol: Protocol,
    url: Seq<char>,
    ascp_bin: Seq<char>,
    ssh_key: Seq<char>,
) -> TransferCommandView {
    match protocol {
        Protocol::Ftp => TransferCommandView {
            program: "wget"@,
            args: seq!["-c"@, url],
            script_line: "wget -c "@ + url,
        },
        Protocol::Ascp => TransferCommandView {
            program: ascp_bin,
            args: seq![
                "-QT"@,
                "-k2"@,
                "-l"@,
                "800m"@,
                "-P33001"@,
                "-i"@,
                ssh_key,
                ascp_source(url),
                "."@,
            ],
            script_line: ascp_bin + " -QT -k2 -l 800m -P33001 -i "@ + ssh_key + " "@ + ascp_source(
                url,
            ) + " ."@,
        },
    }
}

/// Builds the command that fetches the file at `url`.
pub fn transfer_command(protocol: Protocol, url: &str, ascp_bin: &str, ssh_key: &str) -> (command:
    TransferCommand)
    ensures
        command@ == transfer_command_for(protocol, url@, ascp_bin@, ssh_key@),
{
    match protocol {
        Protocol::Ftp => {
            let mut args: Vec<String> = Vec::new();
            args.push(String::from_str("-c"));
            args.push(String::from_str(url));
            let mut script_line = String::from_str("wget -c ");
            script_line.append(url);
            assert(args.deep_view() =~~= seq!["-c"@, url@]);
            TransferCommand { program: String::from_str("wget"), args, script_line }
        },
        Protocol::Ascp => {
            let source = replace_all(url, "ftp.sra.ebi.ac.uk", "era-fasp@fasp.sra.ebi.ac.uk:");
            let mut args: Vec<String> = Vec::new();
            args.push(String::from_str("-QT"));
            args.push(String::from_str("-k2"));
            args.push(String::from_str("-l"));
            args.push(String::from_str("800m"));
            args.push(String::from_str("-P33001"));
            args.push(String::from_str("-i"));
            args.push(String::from_str(ssh_key));
            args.push(source.clone());
            args.push(String::from_str("."));
            let mut script_line = String::from_str(ascp_bin);
            script_line.append(" -QT -k2 -l 800m -P33001 -i ");
            script_line.append(ssh_key);
            script_line.append(" ");
            script_line.append(source.as_str());
            script_line.append(" .");
            assert(args.deep_view() =~~= seq![
                "-QT"@,
                "-k2"@,
                "-l"@,
                "800m"@,
                "-P33001"@,
                "-i"@,
                ssh_key@,
                ascp_source(url@),
                "."@,
            ]);
            TransferCommand { program: String::from_str(ascp_bin), args, script_line }
        },
    }
}

/// What to do about the destination before a transfer.
#[derive(Clone, Copy, Debug, PartialEq, Eq, Structural)]
pub enum ExistingFile {
    /// The file has the expected size: check its digest, and skip the
    /// transfer where it is the expected one.
    CheckDigest,
    /// Part of the file is there: transfer, showing progress from
    /// `position`.
    Resume { position: u64 },
    /// Nothing is there: transfer.
    Absent,
}

/// What to do about a destination of `existing` bytes — `None` where there
/// is no file or its size cannot be had — that should have `expected`
/// bytes, 0 standing for an unknown size.
pub open spec fn existing_file(existing: Option<u64>, expected: u64) -> ExistingFile {
    match existing {
        Some(len) => if len == expected && expected > 0 {
            ExistingFile::CheckDigest
        } else if len > 0 {
            ExistingFile::Resume { position: len }
        } else {
            ExistingFile::Absent
        },
        None => ExistingFile::Absent,
    }
}

/// Decides what to do about the destination before a transfer.
pub fn inspect_existing(existing: Option<u64>, expected: u64) -> (action: ExistingFile)
    ensures
        action == existing_file(existing, expected),
{
    match existing {
        Some(len) => if len == expected && expected > 0 {
            ExistingFile::CheckDigest
        } else if len > 0 {
            ExistingFile::Resume { position: len }
        } else {
            ExistingFile::Absent
        },
        None => ExistingFile::Absent,
    }
}

} // verus!
