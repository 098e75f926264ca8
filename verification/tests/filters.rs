use ebidownload::filters::{
    apply_filters, compile_optional, Compiled, FilterOption, FilterPatterns, RegexFilters,
};
use ebidownload::records::EnaRecord;

fn record(run: &str, title: &str) -> EnaRecord {
    EnaRecord {
        run_accession: run.to_string(),
        fastq_bytes: String::new(),
        fastq_md5: String::new(),
        fastq_ftp: String::new(),
        sample_title: title.to_string(),
    }
}

fn patterns(fs: Option<&str>, fr: Option<&str>, es: Option<&str>, er: Option<&str>) -> FilterPatterns {
    FilterPatterns {
        filter_sample: fs.map(str::to_string),
        filter_run: fr.map(str::to_string),
        exclude_sample: es.map(str::to_string),
        exclude_run: er.map(str::to_string),
    }
}

fn runs() -> Vec<EnaRecord> {
    vec![record("SRR10", "leaf day 1"), record("SRR11", "root day 1"), record("SRR20", "leaf day 2"), record("ERR30", "leaf control")]
}

fn kept(p: FilterPatterns) -> Vec<String> {
    let filters = match RegexFilters::new(&p) {
        Ok(f) => f,
        Err(e) => panic!("{:?}", e.option),
    };
    apply_filters(runs(), &filters).into_iter().map(|r| r.run_accession).collect()
}

#[test]
fn no_filter_keeps_every_run() {
    assert_eq!(kept(patterns(None, None, None, None)), vec!["SRR10", "SRR11", "SRR20", "ERR30"]);
}

#[test]
fn filters_keep_and_drop_by_pattern() {
    assert_eq!(kept(patterns(Some("^leaf"), None, None, None)), vec!["SRR10", "SRR20", "ERR30"]);
    assert_eq!(kept(patterns(None, Some(r"^SRR1\d$"), None, None)), vec!["SRR10", "SRR11"]);
    assert_eq!(kept(patterns(None, None, Some("day 1"), None)), vec!["SRR20", "ERR30"]);
    assert_eq!(kept(patterns(None, None, None, Some("^ERR"))), vec!["SRR10", "SRR11", "SRR20"]);
    assert_eq!(kept(patterns(Some("leaf"), Some("^SRR"), Some("day 2"), Some("11"))), vec!["SRR10"]);
    let filters = RegexFilters::new(&patterns(Some("leaf"), None, None, None)).ok().unwrap();
    assert!(filters.should_include(&record("x", "a leaf")));
    assert!(!filters.should_include(&record("leaf", "a root")));
}

#[test]
fn first_invalid_pattern_is_reported() {
    let option = |p: FilterPatterns| RegexFilters::new(&p).err().map(|e| e.option);
    assert_eq!(option(patterns(Some("("), Some("["), None, None)), Some(FilterOption::FilterSample));
    assert_eq!(option(patterns(Some("ok"), Some("["), Some("("), None)), Some(FilterOption::FilterRun));
    assert_eq!(option(patterns(None, None, Some("("), Some("("))), Some(FilterOption::ExcludeSample));
    assert_eq!(option(patterns(None, None, None, Some("a{2,1}"))), Some(FilterOption::ExcludeRun));
    assert_eq!(option(patterns(Some("a"), Some("b"), Some("c"), Some("d"))), None);
    let error = RegexFilters::new(&patterns(Some("("), None, None, None)).err().unwrap();
    assert!(error.cause.to_string().contains("unclosed group"));
}

#[test]
fn assembled_filters_follow_the_expressions_they_are_given() {
    let folded = regex::RegexBuilder::new("leaf").case_insensitive(true).build().unwrap();
    let plain = regex::Regex::new("leaf").unwrap();
    assert_eq!(folded.as_str(), plain.as_str());
    let keep = |regex: regex::Regex| {
        RegexFilters::assemble(Compiled::Valid { regex }, Compiled::Absent, Compiled::Absent, Compiled::Absent)
            .ok()
            .unwrap()
    };
    assert!(keep(folded).should_include(&record("r", "LEAF")));
    assert!(!keep(plain).should_include(&record("r", "LEAF")));
}

#[test]
fn compile_results_are_assembled_in_order() {
    assert!(matches!(compile_optional(&None), Compiled::Absent));
    assert!(matches!(compile_optional(&Some("a+".to_string())), Compiled::Valid { .. }));
    assert!(matches!(compile_optional(&Some("a(".to_string())), Compiled::Invalid { .. }));
    let bad = |pattern: &str| compile_optional(&Some(pattern.to_string()));
    let failed = RegexFilters::assemble(Compiled::Absent, bad("("), bad("["), Compiled::Absent).err().unwrap();
    assert_eq!(failed.option, FilterOption::FilterRun);
    assert!(failed.cause.to_string().contains("unclosed group"));
}
