//! Resolution of the invoking continuous-integration environment.
//!
//! Each supported provider is recognized by a marker variable; the first
//! recognized provider, in a fixed priority order, supplies a normalized
//! commit/branch/author descriptor. A field whose variable is unset is the
//! empty string; when no marker is present there is no descriptor at all.
//! Resolution never fails: absence of CI context is a normal state.

use crate::environment::{lookup, value_or_empty, EnvSnapshot, EnvVar};
use vstd::prelude::*;

verus! {

/// The head-commit record of a CI descriptor: commit id, author and
/// committer identification, and the commit message.
pub struct HeadRecord {
    pub id: String,
    pub author_name: String,
    pub author_email: String,
    pub committer_name: String,
    pub committer_email: String,
    pub message: String,
}

/// Commit metadata resolved from a recognized CI provider's environment.
pub struct CiDescriptor {
    pub branch: String,
    pub head: HeadRecord,
}

/// Whether the CircleCI marker variable is present.
pub open spec fn circle_present(vars: Seq<EnvVar>) -> bool {
    lookup(vars, "CIRCLECI"@) is Some
}

/// Whether the Buildkite marker variable is present.
pub open spec fn buildkite_present(vars: Seq<EnvVar>) -> bool {
    lookup(vars, "BUILDKITE"@) is Some
}

/// Whether any recognized provider's marker is present.
pub open spec fn provider_recognized(vars: Seq<EnvVar>) -> bool {
    circle_present(vars) || buildkite_present(vars)
}

/// A descriptor populated from CircleCI's variables: the user name serves
/// as both author and committer name, and the emails and the message are
/// left empty.
pub open spec fn circle_descriptor(d: CiDescriptor, vars: Seq<EnvVar>) -> bool {
    &&& d.branch@ == value_or_empty(vars, "CIRCLE_BRANCH"@)
    &&& d.head.id@ == value_or_empty(vars, "CIRCLE_SHA1"@)
    &&& d.head.author_name@ == value_or_empty(vars, "CIRCLE_USERNAME"@)
    &&& d.head.author_email@ == Seq::<char>::empty()
    &&& d.head.committer_name@ == value_or_empty(vars, "CIRCLE_USERNAME"@)
    &&& d.head.committer_email@ == Seq::<char>::empty()
    &&& d.head.message@ == Seq::<char>::empty()
}

/// A descriptor populated from Buildkite's variables: the build creator's
/// name and email serve as both the author's and the committer's.
pub open spec fn buildkite_descriptor(d: CiDescriptor, vars: Seq<EnvVar>) -> bool {
    &&& d.branch@ == value_or_empty(vars, "BUILDKITE_BRANCH"@)
    &&& d.head.id@ == value_or_empty(vars, "BUILDKITE_COMMIT"@)
    &&& d.head.author_name@ == value_or_empty(vars, "BUILDKITE_BUILD_CREATOR"@)
    &&& d.head.author_email@ == value_or_empty(vars, "BUILDKITE_BUILD_CREATOR_EMAIL"@)
    &&& d.head.committer_name@ == value_or_empty(vars, "BUILDKITE_BUILD_CREATOR"@)
    &&& d.head.committer_email@ == value_or_empty(vars, "BUILDKITE_BUILD_CREATOR_EMAIL"@)
    &&& d.head.message@ == value_or_empty(vars, "BUILDKITE_MESSAGE"@)
}

/// What resolution returns: a descriptor exactly when a recognized marker
/// is present, populated from the first recognized provider's variables
/// (CircleCI is checked before Buildkite).
pub open spec fn resolved(r: Option<CiDescriptor>, vars: Seq<EnvVar>) -> bool {
    &&& (r is Some <==> provider_recognized(vars))
    &&& r matches Some(d) ==> if circle_present(vars) {
        circle_descriptor(d, vars)
    } else {
        buildkite_descriptor(d, vars)
    }
}

/// Inspects the environment snapshot and, when a recognized CI provider's
/// marker is present, produces the normalized commit descriptor; otherwise
/// yields nothing.
pub fn resolve(env: &EnvSnapshot) -> (r: Option<CiDescriptor>)
    ensures
        resolved(r, env.vars@),
{
    if env.has("CIRCLECI") {
        let name = env.var_or_empty("CIRCLE_USERNAME");
        Some(
            CiDescriptor {
                branch: env.var_or_empty("CIRCLE_BRANCH"),
                head: HeadRecord {
                    id: env.var_or_empty("CIRCLE_SHA1"),
                    author_name: name.clone(),
                    author_email: String::new(),
                    committer_name: name,
                    committer_email: String::new(),
                    message: String::new(),
                },
            },
        )
    } else if env.has("BUILDKITE") {
        let creator = env.var_or_empty("BUILDKITE_BUILD_CREATOR");
        let email = env.var_or_empty("BUILDKITE_BUILD_CREATOR_EMAIL");
        Some(
            CiDescriptor {
                branch: env.var_or_empty("BUILDKITE_BRANCH"),
                head: HeadRecord {
                    id: env.var_or_empty("BUILDKITE_COMMIT"),
                    author_name: creator.clone(),
                    author_email: email.clone(),
                    committer_name: creator,
                    committer_email: email,
                    message: env.var_or_empty("BUILDKITE_MESSAGE"),
                },
            },
        )
    } else {
        None
    }
}

} // verus!
