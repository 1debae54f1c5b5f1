//! The boundary to the wire-format client library.
//!
//! A source entry becomes a wire record by reading the source file it
//! names from disk, so whether one file's record can be built depends on
//! what is on disk, not on the entry alone. A file whose record cannot be
//! built is omitted rather than aborting the export: the collection step
//! keeps exactly the records that could be built, in dataset order, so a
//! partial report still reaches the service.

use crate::report::SourceEntry;
use vstd::prelude::*;

verus! {

/// The wire-format client's per-file source record, carried opaquely.
/// Relies on `coveralls_api::Source` being a plain value type.
#[verifier::external_type_specification]
#[verifier::external_body]
pub struct ExSource(coveralls_api::Source);

/// Relies on `coveralls_api::Source::new`: it reads the source file at
/// the entry's original path (failing when it cannot be read) and builds
/// the wire record from that file's contents and the entry's line-hit
/// map. The outcome depends on what is on disk, so nothing is promised of
/// it; the callers state what holds whichever way it went.
#[verifier::external_body]
pub(crate) fn realize_entry(entry: &SourceEntry) -> Option<coveralls_api::Source> {
    coveralls_api::Source::new(
        std::path::Path::new(entry.name.as_str()),
        std::path::Path::new(entry.source_path.as_str()),
        &entry.coverage,
        &None,
        false,
    ).ok()
}

/// The records among `s` that could be built, in order.
pub open spec fn somes_of(s: Seq<Option<coveralls_api::Source>>) -> Seq<coveralls_api::Source>
    decreases s.len(),
{
    if s.len() == 0 {
        Seq::empty()
    } else {
        (match s[0] {
            Option::Some(src) => seq![src],
            Option::None => Seq::empty(),
        }) + somes_of(s.drop_first())
    }
}

/// How many of the records in `s` could be built.
pub open spec fn some_count(s: Seq<Option<coveralls_api::Source>>) -> nat
    decreases s.len(),
{
    if s.len() == 0 {
        0
    } else {
        (if s[0] is Some {
            1nat
        } else {
            0nat
        }) + some_count(s.drop_first())
    }
}

/// The records that could be built number exactly the successful
/// outcomes, never more than the entries attempted.
pub proof fn lemma_somes_of_len(s: Seq<Option<coveralls_api::Source>>)
    ensures
        somes_of(s).len() == some_count(s),
        some_count(s) <= s.len(),
    decreases s.len(),
{
    if s.len() > 0 {
        lemma_somes_of_len(s.drop_first());
    }
}

/// Attempts one wire record per source entry, in order. Each outcome
/// stands on its own: one file's failure touches nothing else.
pub fn realize_entries(entries: &Vec<SourceEntry>) -> (r: Vec<Option<coveralls_api::Source>>)
    ensures
        r@.len() == entries@.len(),
{
    let mut r: Vec<Option<coveralls_api::Source>> = Vec::new();
    let n = entries.len();
    let mut i: usize = 0;
    while i < n
        invariant
            i <= n,
            n == entries@.len(),
            r@.len() == i,
        decreases n - i,
    {
        r.push(realize_entry(&entries[i]));
        i += 1;
    }
    r
}

/// Keeps exactly the records that could be built, in order: the report
/// carries one source record per successful outcome and none for the
/// failures.
pub fn collect_sources(outcomes: Vec<Option<coveralls_api::Source>>) -> (r: Vec<
    coveralls_api::Source,
>)
    ensures
        r@ == somes_of(outcomes@),
        r@.len() == some_count(outcomes@),
        r@.len() <= outcomes@.len(),
{
    let ghost all = outcomes@;
    let mut outcomes = outcomes;
    let mut r: Vec<coveralls_api::Source> = Vec::new();
    proof {
        assert(somes_of(all) =~= r@ + somes_of(outcomes@));
    }
    while outcomes.len() > 0
        invariant
            somes_of(all) == r@ + somes_of(outcomes@),
            some_count(all) == r@.len() + some_count(outcomes@),
            all.len() >= r@.len() + outcomes@.len(),
        decreases outcomes@.len(),
    {
        let ghost prev = outcomes@;
        let ghost r0 = r@;
        let o = outcomes.remove(0);
        proof {
            assert(outcomes@ =~= prev.drop_first());
        }
        match o {
            Option::Some(src) => {
                r.push(src);
                proof {
                    assert(r@ =~= r0 + seq![src]);
                    assert(r0 + somes_of(prev) =~= r@ + somes_of(outcomes@));
                }
            },
            Option::None => {
                proof {
                    assert(r0 + somes_of(prev) =~= r@ + somes_of(outcomes@));
                }
            },
        }
    }
    proof {
        lemma_somes_of_len(all);
        assert(somes_of(outcomes@) =~= Seq::<coveralls_api::Source>::empty());
        assert(r@ + somes_of(outcomes@) =~= r@);
    }
    r
}

} // verus!
