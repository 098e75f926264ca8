use ebidownload::records::{process_records, EnaRecord};

fn record(run: &str, bytes: &str, md5: &str, ftp: &str, title: &str) -> EnaRecord {
    EnaRecord {
        run_accession: run.to_string(),
        fastq_bytes: bytes.to_string(),
        fastq_md5: md5.to_string(),
        fastq_ftp: ftp.to_string(),
        sample_title: title.to_string(),
    }
}

#[test]
fn paired_run_yields_both_files() {
    let out = process_records(
        vec![record(
            "SRR1",
            "100;200",
            "aa;bb",
            "ftp.sra.ebi.ac.uk/vol1/fastq/SRR1/SRR1_1.fastq.gz;ftp.sra.ebi.ac.uk/vol1/fastq/SRR1/SRR1_2.fastq.gz",
            "leaf",
        )],
        false,
    );
    assert_eq!(out.len(), 1);
    let p = &out[0];
    assert_eq!(p.run_accession, "SRR1");
    assert_eq!(p.fastq_ftp_1_url, "ftp.sra.ebi.ac.uk/vol1/fastq/SRR1/SRR1_1.fastq.gz");
    assert_eq!(p.fastq_ftp_1_name, "SRR1_1.fastq.gz");
    assert_eq!(p.fastq_ftp_2_name.as_deref(), Some("SRR1_2.fastq.gz"));
    assert_eq!(p.fastq_md5_1, "aa");
    assert_eq!(p.fastq_md5_2.as_deref(), Some("bb"));
    assert_eq!(p.fastq_bytes_1, 100);
    assert_eq!(p.fastq_bytes_2, Some(200));
    assert_eq!(p.sample_title, "leaf");
}

#[test]
fn record_without_files_is_skipped() {
    let out = process_records(vec![record("SRR2", "", "", ";;", "x"), record("SRR3", "1", "", "a/b", "y")], false);
    assert!(out.is_empty());
}

#[test]
fn single_end_run_is_skipped_when_only_pairs_are_wanted() {
    let single = || record("SRR4", "7", "cc", "host/dir/file.fastq.gz", "z");
    assert_eq!(process_records(vec![single()], false).len(), 1);
    assert!(process_records(vec![single()], true).is_empty());
}

#[test]
fn unreadable_sizes_are_passed_over() {
    let out = process_records(vec![record("SRR5", "abc;+12;", "m1;m2", "u1;u2", "t")], false);
    assert_eq!(out[0].fastq_bytes_1, 12);
    assert_eq!(out[0].fastq_bytes_2, None);
    assert_eq!(out[0].fastq_ftp_1_name, "u1");
    let none = process_records(vec![record("SRR6", "99999999999999999999", "m", "u", "t")], false);
    assert_eq!(none[0].fastq_bytes_1, 0);
}
