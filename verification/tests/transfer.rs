use ebidownload::records::{process_records, EnaRecord, ProcessedRecord};
use ebidownload::transfer::{file_tasks, inspect_existing, transfer_command, ExistingFile, Protocol};

fn processed() -> Vec<ProcessedRecord> {
    let line = |run: &str, bytes: &str, md5: &str, ftp: &str| EnaRecord {
        run_accession: run.to_string(),
        fastq_bytes: bytes.to_string(),
        fastq_md5: md5.to_string(),
        fastq_ftp: ftp.to_string(),
        sample_title: "s".to_string(),
    };
    process_records(
        vec![
            line("PE1", "10;20", "a;b", "ftp.sra.ebi.ac.uk/x/PE1_1.fq.gz;ftp.sra.ebi.ac.uk/x/PE1_2.fq.gz"),
            line("S1", "30", "c", "ftp.sra.ebi.ac.uk/x/S1.fq.gz"),
            line("PE2", "40", "d;e", "h/PE2_1.fq.gz;h/PE2_2.fq.gz"),
        ],
        false,
    )
}

#[test]
fn every_read_file_becomes_a_task() {
    let tasks = file_tasks(&processed());
    let names: Vec<&str> = tasks.iter().map(|t| t.filename.as_str()).collect();
    assert_eq!(names, vec!["PE1_1.fq.gz", "PE1_2.fq.gz", "S1.fq.gz", "PE2_1.fq.gz"]);
    assert_eq!(tasks[1].run_id, "PE1");
    assert_eq!(tasks[1].md5, "b");
    assert_eq!(tasks[1].total_size, 20);
    assert_eq!(tasks[1].url, "ftp.sra.ebi.ac.uk/x/PE1_2.fq.gz");
    assert_eq!(tasks[3].total_size, 40);
    assert!(file_tasks(&[]).is_empty());
}

#[test]
fn ftp_files_are_fetched_with_wget() {
    let command = transfer_command(Protocol::Ftp, "ftp.sra.ebi.ac.uk/x/f.gz", "/opt/ascp", "/keys/k");
    assert_eq!(command.program, "wget");
    assert_eq!(command.args, vec!["-c", "ftp.sra.ebi.ac.uk/x/f.gz"]);
    assert_eq!(command.script_line, "wget -c ftp.sra.ebi.ac.uk/x/f.gz");
}

#[test]
fn aspera_files_are_fetched_from_the_transfer_account() {
    let command = transfer_command(Protocol::Ascp, "ftp.sra.ebi.ac.uk/vol1/f.gz", "/opt/ascp", "/keys/k");
    assert_eq!(command.program, "/opt/ascp");
    assert_eq!(
        command.args,
        vec!["-QT", "-k2", "-l", "800m", "-P33001", "-i", "/keys/k", "era-fasp@fasp.sra.ebi.ac.uk:/vol1/f.gz", "."]
    );
    assert_eq!(
        command.script_line,
        "/opt/ascp -QT -k2 -l 800m -P33001 -i /keys/k era-fasp@fasp.sra.ebi.ac.uk:/vol1/f.gz ."
    );
}

#[test]
fn existing_files_are_checked_resumed_or_fetched() {
    assert_eq!(inspect_existing(None, 10), ExistingFile::Absent);
    assert_eq!(inspect_existing(Some(0), 10), ExistingFile::Absent);
    assert_eq!(inspect_existing(Some(0), 0), ExistingFile::Absent);
    assert_eq!(inspect_existing(Some(10), 10), ExistingFile::CheckDigest);
    assert_eq!(inspect_existing(Some(4), 10), ExistingFile::Resume { position: 4 });
    assert_eq!(inspect_existing(Some(11), 10), ExistingFile::Resume { position: 11 });
    assert_eq!(inspect_existing(Some(5), 0), ExistingFile::Resume { position: 5 });
}
