//! Report building and submission planning.
//!
//! An export call is a linear pipeline: select the identity credential,
//! enrich the report with resolved CI metadata, translate the dataset
//! file by file into source entries, and plan the submission against the
//! configured or default endpoint. The network call itself is the
//! caller's: it receives a [`PreparedSubmission`] (at most one per export
//! call), performs the one submission attempt, and maps the outcome back
//! through [`complete_export`].

use crate::ci::{resolve, resolved, CiDescriptor};
use crate::config::{rel_path_of, Config};
use crate::coverage::{build_line_map, line_map_of, CoverageDataset, FileCoverage};
use crate::environment::EnvSnapshot;
use std::collections::HashMap;
use vstd::prelude::*;
use vstd::string::StringExecFns;

verus! {

/// The identity under which a report is submitted: either a bare
/// repository token, or a (service-name, service-job-id) pair. Exactly one
/// variant is active per report.
pub enum Identity {
    RepoToken(String),
    ServiceToken { service_name: String, service_job_id: String },
}

/// One per-file entry of a report: the path relative to the project root,
/// the original path, and the 1-based line-number to hit-count map.
pub struct SourceEntry {
    pub name: String,
    pub source_path: String,
    pub coverage: HashMap<usize, usize>,
}

/// A complete report: the identity, the optional CI descriptor, and one
/// source entry per dataset file.
pub struct Report {
    pub identity: Identity,
    pub git: Option<CiDescriptor>,
    pub entries: Vec<SourceEntry>,
}

/// Where a report is submitted: the configured override endpoint, or the
/// default hosted endpoint when none is configured.
pub enum SubmissionTarget {
    DefaultEndpoint,
    OverrideEndpoint(String),
}

/// A planned submission: the report to send and the endpoint to send it
/// to. One export call plans at most one of these.
pub struct PreparedSubmission {
    pub report: Report,
    pub target: SubmissionTarget,
}

/// Why an export call failed. Every other anomaly is absorbed locally so
/// that a partial, still-useful report reaches the service.
#[derive(Debug)]
pub enum ExportError {
    /// No report credential was configured; nothing was submitted.
    MissingCredential,
    /// The submission did not succeed; carries the underlying message.
    SubmissionFailure(String),
}

/// The identity selected for a configuration: a service token pairing the
/// CI-tool name with the credential when a tool name is configured, a
/// bare repository token otherwise.
pub open spec fn identity_for(id: Identity, tool: Option<String>, key: Seq<char>) -> bool {
    match tool {
        Option::Some(t) => id matches Identity::ServiceToken { service_name, service_job_id }
            && service_name@ == t@ && service_job_id@ == key,
        Option::None => id matches Identity::RepoToken(k) && k@ == key,
    }
}

/// One source entry derived from one dataset file: relativized path,
/// original path, and the file's line-hit map.
pub open spec fn entry_matches(e: SourceEntry, f: FileCoverage, root: Seq<char>) -> bool {
    &&& e.name@ == rel_path_of(root, f.path@)
    &&& e.source_path@ == f.path@
    &&& e.coverage@ == line_map_of(f.traces@)
}

/// One entry per dataset file, in dataset order.
pub open spec fn entries_for(es: Seq<SourceEntry>, fs: Seq<FileCoverage>, root: Seq<char>) -> bool {
    &&& es.len() == fs.len()
    &&& forall|i: int| 0 <= i < fs.len() ==> entry_matches(#[trigger] es[i], fs[i], root)
}

/// The submission target for a configuration: the override endpoint
/// exactly when one is configured.
pub open spec fn target_for(t: SubmissionTarget, uri: Option<String>) -> bool {
    match uri {
        Option::Some(u) => t matches SubmissionTarget::OverrideEndpoint(x) && x@ == u@,
        Option::None => t is DefaultEndpoint,
    }
}

/// Everything a prepared submission owes to its inputs: identity, CI
/// enrichment, per-file entries, and target.
pub open spec fn prepared_for(
    ps: PreparedSubmission,
    dataset: CoverageDataset,
    config: Config,
    env: EnvSnapshot,
    key: Seq<char>,
) -> bool {
    &&& identity_for(ps.report.identity, config.ci_tool, key)
    &&& resolved(ps.report.git, env.vars@)
    &&& entries_for(ps.report.entries@, dataset.files@, config.project_root@)
    &&& target_for(ps.target, config.report_uri)
}

/// Builds the identity for the configured CI tool and credential.
pub fn select_identity(ci_tool: &Option<String>, key: &String) -> (id: Identity)
    ensures
        identity_for(id, *ci_tool, key@),
{
    match ci_tool {
        Option::Some(tool) => Identity::ServiceToken {
            service_name: tool.clone(),
            service_job_id: key.clone(),
        },
        Option::None => Identity::RepoToken(key.clone()),
    }
}

/// Builds one file's source entry: path relativization and the line-hit
/// map, with unrepresentable statistic kinds skipped.
pub fn build_entry(file: &FileCoverage, config: &Config) -> (e: SourceEntry)
    ensures
        entry_matches(e, *file, config.project_root@),
{
    SourceEntry {
        name: config.strip_project_path(&file.path),
        source_path: file.path.clone(),
        coverage: build_line_map(&file.traces),
    }
}

/// Picks the submission target for the configuration.
pub fn choose_target(report_uri: &Option<String>) -> (t: SubmissionTarget)
    ensures
        target_for(t, *report_uri),
{
    match report_uri {
        Option::Some(u) => SubmissionTarget::OverrideEndpoint(u.clone()),
        Option::None => SubmissionTarget::DefaultEndpoint,
    }
}

/// Plans one export call. Without a configured credential the call fails
/// with `MissingCredential` before anything is planned, so nothing is
/// submitted; with one, it returns the single prepared submission the
/// caller is to attempt.
pub fn prepare_export(
    dataset: &CoverageDataset,
    config: &Config,
    env: &EnvSnapshot,
) -> (r: Result<PreparedSubmission, ExportError>)
    ensures
        match config.coveralls {
            Option::None => r matches Err(e) && e is MissingCredential,
            Option::Some(key) => r matches Ok(ps) && prepared_for(
                ps,
                *dataset,
                *config,
                *env,
                key@,
            ),
        },
{
    let key = match &config.coveralls {
        Option::None => {
            return Err(ExportError::MissingCredential);
        },
        Option::Some(k) => k,
    };
    let identity = select_identity(&config.ci_tool, key);
    let git = resolve(env);
    let mut entries: Vec<SourceEntry> = Vec::new();
    let n = dataset.files.len();
    let mut i: usize = 0;
    while i < n
        invariant
            i <= n,
            n == dataset.files@.len(),
            entries@.len() == i,
            forall|j: int|
                0 <= j < i ==> entry_matches(
                    #[trigger] entries@[j],
                    dataset.files@[j],
                    config.project_root@,
                ),
        decreases n - i,
    {
        entries.push(build_entry(&dataset.files[i], config));
        i += 1;
    }
    let target = choose_target(&config.report_uri);
    Ok(PreparedSubmission { report: Report { identity, git, entries }, target })
}

/// Maps the outcome of the one submission attempt to the export result: a
/// successful response is success with no payload, and any failure is
/// wrapped into a submission failure carrying the underlying message.
pub fn complete_export(outcome: Result<(), String>) -> (r: Result<(), ExportError>)
    ensures
        outcome is Ok ==> r is Ok,
        outcome matches Err(m) ==> r matches Err(e) && e matches ExportError::SubmissionFailure(s)
            && s@ == "Coveralls send failed. "@ + m@,
{
    match outcome {
        Result::Ok(()) => Ok(()),
        Result::Err(m) => Err(
            ExportError::SubmissionFailure("Coveralls send failed. ".to_owned().concat(m.as_str())),
        ),
    }
}

} // verus!
