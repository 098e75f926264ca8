//! Selection of runs by regular expressions over sample title and run
//! accession. Compiling and matching are done by the `regex` crate.

use crate::records::{record_views, EnaRecord, EnaRecordView};
use crate::text::opt_text;
use regex::Regex;
use vstd::prelude::*;

verus! {

/// `regex::Regex`, a compiled regular expression. Nothing inside it is
/// visible to the verifier.
#[verifier::external_type_specification]
#[verifier::external_body]
pub struct ExRegex(Regex);

/// `regex::Error`, why a pattern did not compile. It is carried through
/// unread.
#[verifier::external_type_specification]
#[verifier::external_body]
pub struct ExRegexError(regex::Error);

/// Whether the regular expression written as `pattern`, compiled under the
/// default settings, matches somewhere in `text`. It says nothing of a
/// pattern that does not compile.
pub uninterp spec fn pattern_matches(pattern: Seq<char>, text: Seq<char>) -> bool;

/// Whether `regex` matches somewhere in `text`.
pub uninterp spec fn regex_matches(regex: Regex, text: Seq<char>) -> bool;

/// `regex` matches what `pattern` matches under the default settings.
pub open spec fn compiled_from(regex: Regex, pattern: Seq<char>) -> bool {
    forall|text: Seq<char>| #[trigger] regex_matches(regex, text) == pattern_matches(pattern, text)
}

/// `regex::Regex::new`: compiles `pattern` with the default settings. What
/// the result matches depends on the pattern alone. Whether a pattern
/// compiles is left open: the size limit is held against a size in memory,
/// which is not the same on every machine.
#[verifier::external_body]
fn compile(pattern: &str) -> (compiled: Result<Regex, regex::Error>)
    ensures
        compiled matches Ok(regex) ==> forall|text: Seq<char>| #[trigger]
            regex_matches(regex, text) == pattern_matches(pattern@, text),
{
    Regex::new(pattern)
}

/// `regex::Regex::is_match`: whether the expression matches anywhere in
/// `text`. What an expression matches depends on how it was built, not on
/// its pattern text alone.
#[verifier::external_body]
fn is_match(regex: &Regex, text: &str) -> (found: bool)
    ensures
        found == regex_matches(*regex, text@),
{
    regex.is_match(text)
}

/// The four filters a caller can give.
#[derive(Clone, Copy, Debug, PartialEq, Eq, Structural)]
pub enum FilterOption {
    /// Keep only runs whose sample title matches.
    FilterSample,
    /// Keep only runs whose accession matches.
    FilterRun,
    /// Drop runs whose sample title matches.
    ExcludeSample,
    /// Drop runs whose accession matches.
    ExcludeRun,
}

/// A filter whose pattern is no regular expression.
pub struct FilterError {
    /// The filter that was given the pattern.
    pub option: FilterOption,
    /// What the `regex` crate says of the pattern.
    pub cause: regex::Error,
}

/// The patterns of the filters, as the caller gave them.
pub struct FilterPatterns {
    pub filter_sample: Option<String>,
    pub filter_run: Option<String>,
    pub exclude_sample: Option<String>,
    pub exclude_run: Option<String>,
}

/// `FilterPatterns` with its texts as sequences of characters.
pub struct FilterPatternsView {
    pub filter_sample: Option<Seq<char>>,
    pub filter_run: Option<Seq<char>>,
    pub exclude_sample: Option<Seq<char>>,
    pub exclude_run: Option<Seq<char>>,
}

impl View for FilterPatterns {
    type V = FilterPatternsView;

    open spec fn view(&self) -> FilterPatternsView {
        FilterPatternsView {
            filter_sample: opt_text(self.filter_sample),
            filter_run: opt_text(self.filter_run),
            exclude_sample: opt_text(self.exclude_sample),
            exclude_run: opt_text(self.exclude_run),
        }
    }
}

/// The compiled filters.
pub struct RegexFilters {
    include_sample: Option<Regex>,
    include_run: Option<Regex>,
    exclude_sample: Option<Regex>,
    exclude_run: Option<Regex>,
}

/// The expressions of compiled filters.
pub struct RegexFiltersView {
    pub include_sample: Option<Regex>,
    pub include_run: Option<Regex>,
    pub exclude_sample: Option<Regex>,
    pub exclude_run: Option<Regex>,
}

impl View for RegexFilters {
    type V = RegexFiltersView;

    closed spec fn view(&self) -> RegexFiltersView {
        RegexFiltersView {
            include_sample: self.include_sample,
            include_run: self.include_run,
            exclude_sample: self.exclude_sample,
            exclude_run: self.exclude_run,
        }
    }
}

/// Whether a text passes a filter that keeps what matches. No filter keeps
/// everything.
pub open spec fn kept_by(filter: Option<Regex>, text: Seq<char>) -> bool {
    match filter {
        Some(regex) => regex_matches(regex, text),
        None => true,
    }
}

/// Whether a text passes a filter that drops what matches. No filter drops
/// nothing.
pub open spec fn spared_by(filter: Option<Regex>, text: Seq<char>) -> bool {
    match filter {
        Some(regex) => !regex_matches(regex, text),
        None => true,
    }
}

/// Whether a run passes all filters.
pub open spec fn included(filters: RegexFiltersView, record: EnaRecordView) -> bool {
    &&& kept_by(filters.include_sample, record.sample_title)
    &&& kept_by(filters.include_run, record.run_accession)
    &&& spared_by(filters.exclude_sample, record.sample_title)
    &&& spared_by(filters.exclude_run, record.run_accession)
}

/// Whether a text passes a keeping filter with this pattern.
pub open spec fn kept_by_pattern(pattern: Option<Seq<char>>, text: Seq<char>) -> bool {
    match pattern {
        Some(p) => pattern_matches(p, text),
        None => true,
    }
}

/// Whether a text passes a dropping filter with this pattern.
pub open spec fn spared_by_pattern(pattern: Option<Seq<char>>, text: Seq<char>) -> bool {
    match pattern {
        Some(p) => !pattern_matches(p, text),
        None => true,
    }
}

/// Whether a run passes the filters that these patterns stand for.
pub open spec fn included_by_patterns(patterns: FilterPatternsView, record: EnaRecordView) -> bool {
    &&& kept_by_pattern(patterns.filter_sample, record.sample_title)
    &&& kept_by_pattern(patterns.filter_run, record.run_accession)
    &&& spared_by_pattern(patterns.exclude_sample, record.sample_title)
    &&& spared_by_pattern(patterns.exclude_run, record.run_accession)
}

/// An optional expression stands for an optional pattern: both are absent,
/// or the expression matches what the pattern matches.
pub open spec fn stands_for(regex: Option<Regex>, pattern: Option<Seq<char>>) -> bool {
    match (regex, pattern) {
        (Some(r), Some(p)) => compiled_from(r, p),
        (None, None) => true,
        _ => false,
    }
}

/// Compiled filters stand for the patterns they were given.
pub open spec fn filters_stand_for(filters: RegexFiltersView, patterns: FilterPatternsView) -> bool {
    &&& stands_for(filters.include_sample, patterns.filter_sample)
    &&& stands_for(filters.include_run, patterns.filter_run)
    &&& stands_for(filters.exclude_sample, patterns.exclude_sample)
    &&& stands_for(filters.exclude_run, patterns.exclude_run)
}

/// The pattern that was given for a filter.
pub open spec fn pattern_for(patterns: FilterPatternsView, option: FilterOption) -> Option<Seq<char>> {
    match option {
        FilterOption::FilterSample => patterns.filter_sample,
        FilterOption::FilterRun => patterns.filter_run,
        FilterOption::ExcludeSample => patterns.exclude_sample,
        FilterOption::ExcludeRun => patterns.exclude_run,
    }
}

/// Filters that stand for patterns keep the runs that the patterns keep.
pub proof fn lemma_filters_choose_by_pattern(
    filters: RegexFiltersView,
    patterns: FilterPatternsView,
    record: EnaRecordView,
)
    requires
        filters_stand_for(filters, patterns),
    ensures
        included(filters, record) == included_by_patterns(patterns, record),
{
}

/// What compiling one optional pattern gave.
pub enum Compiled {
    /// No pattern was given.
    Absent,
    /// The pattern is a regular expression.
    Valid { regex: Regex },
    /// The pattern is none.
    Invalid { cause: regex::Error },
}

/// The filter that is reported where several compile results are invalid:
/// the first in the order sample, run, excluded sample, excluded run.
pub open spec fn first_invalid(
    filter_sample: Compiled,
    filter_run: Compiled,
    exclude_sample: Compiled,
    exclude_run: Compiled,
) -> Option<FilterError> {
    match (filter_sample, filter_run, exclude_sample, exclude_run) {
        (Compiled::Invalid { cause }, _, _, _) => Some(
            FilterError { option: FilterOption::FilterSample, cause },
        ),
        (_, Compiled::Invalid { cause }, _, _) => Some(
            FilterError { option: FilterOption::FilterRun, cause },
        ),
        (_, _, Compiled::Invalid { cause }, _) => Some(
            FilterError { option: FilterOption::ExcludeSample, cause },
        ),
        (_, _, _, Compiled::Invalid { cause }) => Some(
            FilterError { option: FilterOption::ExcludeRun, cause },
        ),
        _ => None,
    }
}

/// The expression of a compile result, where there is one.
pub open spec fn compiled_regex(compiled: Compiled) -> Option<Regex> {
    match compiled {
        Compiled::Valid { regex } => Some(regex),
        _ => None,
    }
}

/// What compiling `pattern` can give: nothing for no pattern, and for a
/// pattern either an expression that stands for it or an error.
pub open spec fn compiles_to(pattern: Option<Seq<char>>, compiled: Compiled) -> bool {
    match pattern {
        None => compiled is Absent,
        Some(p) => match compiled {
            Compiled::Absent => false,
            Compiled::Valid { regex } => compiled_from(regex, p),
            Compiled::Invalid { .. } => true,
        },
    }
}

/// Compiles an optional pattern.
pub fn compile_optional(pattern: &Option<String>) -> (compiled: Compiled)
    ensures
        compiles_to(opt_text(*pattern), compiled),
{
    match pattern {
        None => Compiled::Absent,
        Some(p) => match compile(p.as_str()) {
            Ok(regex) => Compiled::Valid { regex },
            Err(cause) => Compiled::Invalid { cause },
        },
    }
}

impl RegexFilters {
    /// Puts the filters together from what compiling their patterns gave.
    /// Fails with the first pattern that is invalid.
    pub fn assemble(
        filter_sample: Compiled,
        filter_run: Compiled,
        exclude_sample: Compiled,
        exclude_run: Compiled,
    ) -> (filters: Result<RegexFilters, FilterError>)
        ensures
            match filters {
                Ok(f) => first_invalid(filter_sample, filter_run, exclude_sample, exclude_run)
                    is None && f@ == (RegexFiltersView {
                    include_sample: compiled_regex(filter_sample),
                    include_run: compiled_regex(filter_run),
                    exclude_sample: compiled_regex(exclude_sample),
                    exclude_run: compiled_regex(exclude_run),
                }),
                Err(e) => first_invalid(filter_sample, filter_run, exclude_sample, exclude_run)
                    == Some(e),
            },
    {
        let include_sample = match filter_sample {
            Compiled::Absent => None,
            Compiled::Valid { regex } => Some(regex),
            Compiled::Invalid { cause } => {
                return Err(FilterError { option: FilterOption::FilterSample, cause });
            },
        };
        let include_run = match filter_run {
            Compiled::Absent => None,
            Compiled::Valid { regex } => Some(regex),
            Compiled::Invalid { cause } => {
                return Err(FilterError { option: FilterOption::FilterRun, cause });
            },
        };
        let exclude_sample = match exclude_sample {
            Compiled::Absent => None,
            Compiled::Valid { regex } => Some(regex),
            Compiled::Invalid { cause } => {
                return Err(FilterError { option: FilterOption::ExcludeSample, cause });
            },
        };
        let exclude_run = match exclude_run {
            Compiled::Absent => None,
            Compiled::Valid { regex } => Some(regex),
            Compiled::Invalid { cause } => {
                return Err(FilterError { option: FilterOption::ExcludeRun, cause });
            },
        };
        Ok(RegexFilters { include_sample, include_run, exclude_sample, exclude_run })
    }

    /// Compiles the filters. Where every pattern that is given compiles,
    /// the filters stand for the patterns; otherwise the first pattern that
    /// does not compile is reported, in the order sample, run, excluded
    /// sample, excluded run. Without any pattern this gives the filters
    /// that keep every run. Which patterns compile is left to the `regex`
    /// crate; `assemble` says what becomes of each of its answers.
    pub fn new(patterns: &FilterPatterns) -> (filters: Result<RegexFilters, FilterError>)
        ensures
            match filters {
                Ok(f) => filters_stand_for(f@, patterns@),
                Err(e) => pattern_for(patterns@, e.option) is Some,
            },
            patterns@.filter_sample is None && patterns@.filter_run is None
                && patterns@.exclude_sample is None && patterns@.exclude_run is None
                ==> filters is Ok,
    {
        Self::assemble(
            compile_optional(&patterns.filter_sample),
            compile_optional(&patterns.filter_run),
            compile_optional(&patterns.exclude_sample),
            compile_optional(&patterns.exclude_run),
        )
    }

    /// Whether a run passes all filters.
    pub fn should_include(&self, record: &EnaRecord) -> (keep: bool)
        ensures
            keep == included(self@, record@),
    {
        if let Some(regex) = &self.include_sample {
            if !is_match(regex, record.sample_title.as_str()) {
                return false;
            }
        }
        if let Some(regex) = &self.include_run {
            if !is_match(regex, record.run_accession.as_str()) {
                return false;
            }
        }
        if let Some(regex) = &self.exclude_sample {
            if is_match(regex, record.sample_title.as_str()) {
                return false;
            }
        }
        if let Some(regex) = &self.exclude_run {
            if is_match(regex, record.run_accession.as_str()) {
                return false;
            }
        }
        true
    }
}

/// Keeps the runs that pass all filters, in their order.
pub fn apply_filters(records: Vec<EnaRecord>, filters: &RegexFilters) -> (kept: Vec<EnaRecord>)
    ensures
        record_views(kept@) == record_views(records@).filter(
            |r: EnaRecordView| included(filters@, r),
        ),
{
    let ghost all = record_views(records@);
    let ghost passes = |r: EnaRecordView| included(filters@, r);
    let mut kept: Vec<EnaRecord> = Vec::new();
    proof {
        reveal(Seq::filter);
    }
    for record in it: records
        invariant
            all == record_views(it.seq()),
            passes == |r: EnaRecordView| included(filters@, r),
            record_views(kept@) == all.take(it.index() as int).filter(passes),
    {
        let ghost k = it.index() as int;
        proof {
            reveal(Seq::filter);
            assert(all.take(k + 1).drop_last() =~= all.take(k));
        }
        if filters.should_include(&record) {
            kept.push(record);
        }
    }
    assert(all.take(all.len() as int) =~= all);
    kept
}

} // verus!
