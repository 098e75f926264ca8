//! Run records as the archive's file report gives them, and their reduction
//! to what a download needs: the location, checksum and size of each read
//! file.

use crate::text::{
    fields, fields_of, last_segment, last_segment_of, opt_text, parse_u64, parsed_u64, split_on,
    split_text_on,
};
use vstd::prelude::*;

verus! {

/// The columns of a file report line that a download depends on. The three
/// `fastq_*` columns hold one entry per read file, separated by `;`.
#[derive(Debug, Clone)]
pub struct EnaRecord {
    pub run_accession: String,
    pub fastq_bytes: String,
    pub fastq_md5: String,
    pub fastq_ftp: String,
    pub sample_title: String,
}

/// `EnaRecord` with its texts as sequences of characters.
pub struct EnaRecordView {
    pub run_accession: Seq<char>,
    pub fastq_bytes: Seq<char>,
    pub fastq_md5: Seq<char>,
    pub fastq_ftp: Seq<char>,
    pub sample_title: Seq<char>,
}

impl View for EnaRecord {
    type V = EnaRecordView;

    open spec fn view(&self) -> EnaRecordView {
        EnaRecordView {
            run_accession: self.run_accession@,
            fastq_bytes: self.fastq_bytes@,
            fastq_md5: self.fastq_md5@,
            fastq_ftp: self.fastq_ftp@,
            sample_title: self.sample_title@,
        }
    }
}

/// One run, ready to download: its first read file, and its second where
/// the run is paired-end.
#[derive(Debug)]
pub struct ProcessedRecord {
    pub run_accession: String,
    pub fastq_ftp_1_url: String,
    pub fastq_ftp_2_url: Option<String>,
    pub fastq_ftp_1_name: String,
    pub fastq_ftp_2_name: Option<String>,
    pub fastq_md5_1: String,
    pub fastq_md5_2: Option<String>,
    pub fastq_bytes_1: u64,
    pub fastq_bytes_2: Option<u64>,
    pub sample_title: String,
}

/// `ProcessedRecord` with its texts as sequences of characters.
pub struct ProcessedRecordView {
    pub run_accession: Seq<char>,
    pub fastq_ftp_1_url: Seq<char>,
    pub fastq_ftp_2_url: Option<Seq<char>>,
    pub fastq_ftp_1_name: Seq<char>,
    pub fastq_ftp_2_name: Option<Seq<char>>,
    pub fastq_md5_1: Seq<char>,
    pub fastq_md5_2: Option<Seq<char>>,
    pub fastq_bytes_1: u64,
    pub fastq_bytes_2: Option<u64>,
    pub sample_title: Seq<char>,
}

impl View for ProcessedRecord {
    type V = ProcessedRecordView;

    open spec fn view(&self) -> ProcessedRecordView {
        ProcessedRecordView {
            run_accession: self.run_accession@,
            fastq_ftp_1_url: self.fastq_ftp_1_url@,
            fastq_ftp_2_url: opt_text(self.fastq_ftp_2_url),
            fastq_ftp_1_name: self.fastq_ftp_1_name@,
            fastq_ftp_2_name: opt_text(self.fastq_ftp_2_name),
            fastq_md5_1: self.fastq_md5_1@,
            fastq_md5_2: opt_text(self.fastq_md5_2),
            fastq_bytes_1: self.fastq_bytes_1,
            fastq_bytes_2: self.fastq_bytes_2,
            sample_title: self.sample_title@,
        }
    }
}

/// The address of the archive's file report for `accession`: one line per
/// run, tab-separated, with every column the report offers.
pub open spec fn file_report_url(accession: Seq<char>) -> Seq<char> {
    "https://www.ebi.ac.uk/ena/portal/api/filereport?accession="@ + accession
        + "&result=read_run&fields="@
        + "run_accession,study_accession,secondary_study_accession,sample_accession,secondary_sample_accession,experiment_accession,submission_accession,tax_id,scientific_name,instrument_platform,instrument_model,library_name,nominal_length,library_layout,library_strategy,library_source,library_selection,read_count,center_name,first_public,last_updated,experiment_title,study_title,study_alias,run_alias,fastq_bytes,fastq_md5,fastq_ftp,fastq_aspera,fastq_galaxy,submitted_bytes,submitted_md5,submitted_ftp,submitted_aspera,submitted_galaxy,submitted_format,sra_bytes,sra_md5,sra_ftp,sra_aspera,sra_galaxy,sample_alias,sample_title,nominal_sdev,first_created,bam_ftp,fastq_file_role,submitted_file_role,sra_file_role"@
        + "&format=tsv"@
}

/// The address to ask for the file report of `accession`.
pub fn ena_report_url(accession: &str) -> (url: String)
    ensures
        url@ == file_report_url(accession@),
{
    let mut url = String::from_str("https://www.ebi.ac.uk/ena/portal/api/filereport?accession=");
    url.append(accession);
    url.append("&result=read_run&fields=");
    url.append(
        "run_accession,study_accession,secondary_study_accession,sample_accession,secondary_sample_accession,experiment_accession,submission_accession,tax_id,scientific_name,instrument_platform,instrument_model,library_name,nominal_length,library_layout,library_strategy,library_source,library_selection,read_count,center_name,first_public,last_updated,experiment_title,study_title,study_alias,run_alias,fastq_bytes,fastq_md5,fastq_ftp,fastq_aspera,fastq_galaxy,submitted_bytes,submitted_md5,submitted_ftp,submitted_aspera,submitted_galaxy,submitted_format,sra_bytes,sra_md5,sra_ftp,sra_aspera,sra_galaxy,sample_alias,sample_title,nominal_sdev,first_created,bam_ftp,fastq_file_role,submitted_file_role,sra_file_role",
    );
    url.append("&format=tsv");
    url
}

/// The sizes listed in a `fastq_bytes` column: the entries that are numbers.
pub open spec fn sizes_of(column: Seq<char>) -> Seq<u64> {
    split_on(column, ';').filter_map(|entry: Seq<char>| parsed_u64(entry))
}

/// What one report line is reduced to, or `None` where the line is skipped.
///
/// A line without a location or without a checksum is skipped, and so is a
/// line with a single read file where only paired-end runs are wanted. The
/// second read file is taken where there are two locations and two
/// checksums. A file's name is what follows the last `/` of its location.
/// A missing first size counts as 0.
pub open spec fn processed(record: EnaRecordView, pe_only: bool) -> Option<ProcessedRecordView> {
    let urls = fields_of(record.fastq_ftp, ';');
    let md5s = fields_of(record.fastq_md5, ';');
    let sizes = sizes_of(record.fastq_bytes);
    if urls.len() == 0 || md5s.len() == 0 || (pe_only && urls.len() < 2) {
        None
    } else {
        let paired = urls.len() >= 2 && md5s.len() >= 2;
        Some(
            ProcessedRecordView {
                run_accession: record.run_accession,
                fastq_ftp_1_url: urls[0],
                fastq_ftp_2_url: if paired {
                    Some(urls[1])
                } else {
                    None
                },
                fastq_ftp_1_name: last_segment(urls[0], '/'),
                fastq_ftp_2_name: if paired {
                    Some(last_segment(urls[1], '/'))
                } else {
                    None
                },
                fastq_md5_1: md5s[0],
                fastq_md5_2: if paired {
                    Some(md5s[1])
                } else {
                    None
                },
                fastq_bytes_1: if sizes.len() > 0 {
                    sizes[0]
                } else {
                    0
                },
                fastq_bytes_2: if paired && sizes.len() > 1 {
                    Some(sizes[1])
                } else {
                    None
                },
                sample_title: record.sample_title,
            },
        )
    }
}

/// The views of a list of report lines.
pub open spec fn record_views(records: Seq<EnaRecord>) -> Seq<EnaRecordView> {
    records.map_values(|r: EnaRecord| r@)
}

/// The views of a list of processed runs.
pub open spec fn processed_views(records: Seq<ProcessedRecord>) -> Seq<ProcessedRecordView> {
    records.map_values(|r: ProcessedRecord| r@)
}

/// The entries of a `fastq_bytes` column that are numbers.
pub fn parse_sizes(column: &str) -> (sizes: Vec<u64>)
    ensures
        sizes@ == sizes_of(column@),
{
    let entries = split_text_on(column, ';');
    let ghost all = entries.deep_view();
    let ghost number = |entry: Seq<char>| parsed_u64(entry);
    let mut sizes: Vec<u64> = Vec::new();
    let mut i: usize = 0;
    while i < entries.len()
        invariant
            i <= entries.len(),
            all == entries.deep_view(),
            all == split_on(column@, ';'),
            number == |entry: Seq<char>| parsed_u64(entry),
            sizes@ == all.take(i as int).filter_map(number),
        decreases entries.len() - i,
    {
        proof {
            assert(all.take(i + 1).drop_last() =~~= all.take(i as int));
        }
        if let Some(size) = parse_u64(entries[i].as_str()) {
            sizes.push(size);
        }
        i += 1;
    }
    assert(all.take(entries.len() as int) =~~= all);
    sizes
}

/// Reduces one report line; see [`processed`].
pub fn process_record(record: EnaRecord, pe_only: bool) -> (out: Option<ProcessedRecord>)
    ensures
        match out {
            Some(p) => processed(record@, pe_only) == Some(p@),
            None => processed(record@, pe_only) is None,
        },
{
    let urls = fields(record.fastq_ftp.as_str(), ';');
    let md5s = fields(record.fastq_md5.as_str(), ';');
    let sizes = parse_sizes(record.fastq_bytes.as_str());
    if urls.len() == 0 || md5s.len() == 0 {
        return None;
    }
    if pe_only && urls.len() < 2 {
        return None;
    }
    let paired = urls.len() >= 2 && md5s.len() >= 2;
    let url_1 = urls[0].clone();
    let name_1 = last_segment_of(url_1.as_str(), '/');
    let md5_1 = md5s[0].clone();
    let size_1: u64 = if sizes.len() > 0 {
        sizes[0]
    } else {
        0
    };
    let mut url_2: Option<String> = None;
    let mut name_2: Option<String> = None;
    let mut md5_2: Option<String> = None;
    let mut size_2: Option<u64> = None;
    if paired {
        name_2 = Some(last_segment_of(urls[1].as_str(), '/'));
        url_2 = Some(urls[1].clone());
        md5_2 = Some(md5s[1].clone());
        if sizes.len() > 1 {
            size_2 = Some(sizes[1]);
        }
    }
    Some(
        ProcessedRecord {
            run_accession: record.run_accession,
            fastq_ftp_1_url: url_1,
            fastq_ftp_2_url: url_2,
            fastq_ftp_1_name: name_1,
            fastq_ftp_2_name: name_2,
            fastq_md5_1: md5_1,
            fastq_md5_2: md5_2,
            fastq_bytes_1: size_1,
            fastq_bytes_2: size_2,
            sample_title: record.sample_title,
        },
    )
}

/// Reduces every report line to what a download needs, in the order of the
/// report, leaving out the lines that are skipped.
pub fn process_records(records: Vec<EnaRecord>, pe_only: bool) -> (out: Vec<ProcessedRecord>)
    ensures
        processed_views(out@) == record_views(records@).filter_map(
            |r: EnaRecordView| processed(r, pe_only),
        ),
{
    let ghost all = record_views(records@);
    let ghost reduce = |r: EnaRecordView| processed(r, pe_only);
    let mut out: Vec<ProcessedRecord> = Vec::new();
    for record in it: records
        invariant
            all == record_views(it.seq()),
            reduce == |r: EnaRecordView| processed(r, pe_only),
            processed_views(out@) == all.take(it.index() as int).filter_map(reduce),
    {
        let ghost k = it.index() as int;
        proof {
            assert(all.take(k + 1).drop_last() =~= all.take(k));
        }
        if let Some(p) = process_record(record, pe_only) {
            out.push(p);
        }
    }
    assert(all.take(all.len() as int) =~= all);
    out
}

} // verus!
