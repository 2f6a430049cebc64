use vstd::prelude::*;
use crate::coverage_map::{failure, count_set, count_set_at, CoverageMap, Hook};
use crate::fingerprint::{crc32_of, fingerprint};
use crate::report::{mismatch_message, mismatch_text, report_line, Report, Stage};
use crate::settings::MapHashingObserverSettings;

verus! {

/// What the comparison of the two fingerprints of a cycle decides.
#[derive(Clone, Copy, Debug, PartialEq, Eq, Structural)]
pub enum Verdict {
    /// No comparison was due, or it passed.
    Pass,
    /// Identical fingerprints under `err_if_same`: a recoverable error.
    Same,
    /// Identical fingerprints under `assert_different` alone: a fatal violation.
    Violation,
}

/// The verdict for a post-execution fingerprint `post`, given the
/// pre-execution fingerprint `pre` of the cycle, if there was one.
pub open spec fn verdict_of(settings: MapHashingObserverSettings, pre: Option<u32>, post: u32) -> Verdict {
    match pre {
        Some(p) if p == post => if settings.err_if_same_spec() {
            Verdict::Same
        } else if settings.assert_different_spec() {
            Verdict::Violation
        } else {
            Verdict::Pass
        },
        _ => Verdict::Pass,
    }
}

/// Compares the fingerprints of a cycle under `settings`. The recoverable
/// check comes first, so a fatal violation is reported only when it is off.
pub fn check_fingerprints(settings: &MapHashingObserverSettings, pre: Option<u32>, post: u32) -> (r:
    Verdict)
    ensures
        r == verdict_of(*settings, pre, post),
{
    match pre {
        Some(p) => {
            if p == post {
                if settings.err_if_same() {
                    Verdict::Same
                } else if settings.assert_different() {
                    Verdict::Violation
                } else {
                    Verdict::Pass
                }
            } else {
                Verdict::Pass
            }
        },
        None => Verdict::Pass,
    }
}

/// A failed fingerprint check, naming the map and both (equal) fingerprints.
#[derive(Clone, Debug)]
pub enum VerificationError {
    /// Recoverable: the harness may count the cycle as an anomaly.
    HashesEqual { map: String, pre: u32, post: u32 },
    /// Not recoverable: instrumentation recorded nothing although it must.
    /// A harness should treat it as fatal and stop.
    InvariantViolated { map: String, pre: u32, post: u32 },
}

impl VerificationError {
    pub open spec fn map_name(&self) -> Seq<char> {
        match self {
            VerificationError::HashesEqual { map, .. } => map@,
            VerificationError::InvariantViolated { map, .. } => map@,
        }
    }

    pub open spec fn fingerprints(&self) -> (u32, u32) {
        match self {
            VerificationError::HashesEqual { pre, post, .. } => (*pre, *post),
            VerificationError::InvariantViolated { pre, post, .. } => (*pre, *post),
        }
    }

    /// Whether the error must not be recovered from.
    pub fn is_fatal(&self) -> (r: bool)
        ensures
            r == (self is InvariantViolated),
    {
        match self {
            VerificationError::HashesEqual { .. } => false,
            VerificationError::InvariantViolated { .. } => true,
        }
    }

    /// The message: `Pre hash <hex> and post hash <hex> for map <name>
    /// should be different`.
    pub fn message(&self) -> (r: String)
        ensures
            r@ == mismatch_text(self.map_name(), self.fingerprints().0, self.fingerprints().1),
    {
        match self {
            VerificationError::HashesEqual { map, pre, post } => mismatch_message(
                map.as_str(),
                *pre,
                *post,
            ),
            VerificationError::InvariantViolated { map, pre, post } => mismatch_message(
                map.as_str(),
                *pre,
                *post,
            ),
        }
    }
}

/// A coverage map that fingerprints its buffer before and after each
/// execution and checks that the run changed it.
///
/// Every capability of the wrapped map is forwarded to it unchanged.
#[derive(Clone, Debug)]
pub struct MapHashingObserver<M> {
    base: M,
    settings: MapHashingObserverSettings,
    last_pre_hash: Option<u32>,
}

impl<M: CoverageMap> MapHashingObserver<M> {
    /// The wrapped map.
    pub closed spec fn base_spec(&self) -> M {
        self.base
    }

    pub closed spec fn settings_spec(&self) -> MapHashingObserverSettings {
        self.settings
    }

    /// The fingerprint taken by the most recent pre-execution hook, if any.
    pub closed spec fn last_pre_spec(&self) -> Option<u32> {
        self.last_pre_hash
    }

    /// Wraps `base`; no pre-execution fingerprint is recorded yet.
    pub fn new(base: M, settings: MapHashingObserverSettings) -> (r: Self)
        ensures
            r.base_spec() == base,
            r.settings_spec() == settings,
            r.last_pre_spec() is None,
    {
        MapHashingObserver { base, settings, last_pre_hash: None }
    }

    pub fn base(&self) -> (r: &M)
        ensures
            *r == self.base_spec(),
    {
        &self.base
    }

    pub fn settings(&self) -> (r: MapHashingObserverSettings)
        ensures
            r == self.settings_spec(),
    {
        self.settings
    }

    pub fn last_pre_hash(&self) -> (r: Option<u32>)
        ensures
            r == self.last_pre_spec(),
    {
        self.last_pre_hash
    }

    /// Gives back the wrapped map.
    pub fn into_inner(self) -> (r: M)
        ensures
            r == self.base_spec(),
    {
        self.base
    }

    pub fn name(&self) -> (r: &str)
        ensures
            r@ == self.base_spec().name_spec(),
    {
        self.base.name()
    }

    pub fn len(&self) -> (r: usize)
        ensures
            r == self.base_spec().entries().len(),
    {
        self.base.len()
    }

    pub fn initial(&self) -> (r: u8)
        ensures
            r == self.base_spec().initial_spec(),
    {
        self.base.initial()
    }

    pub fn usable_count(&self) -> (r: usize)
        ensures
            r == self.base_spec().usable_spec(),
    {
        self.base.usable_count()
    }

    pub fn get(&self, idx: usize) -> (r: &u8)
        requires
            idx < self.base_spec().entries().len(),
        ensures
            *r == self.base_spec().entries()[idx as int],
    {
        self.base.get(idx)
    }

    pub fn get_mut(&mut self, idx: usize) -> (r: &mut u8)
        requires
            idx < old(self).base_spec().entries().len(),
        ensures
            *r == old(self).base_spec().entries()[idx as int],
            final(self).base_spec().entries() == old(self).base_spec().entries().update(
                idx as int,
                *final(r),
            ),
            final(self).base_spec().initial_spec() == old(self).base_spec().initial_spec(),
            final(self).base_spec().name_spec() == old(self).base_spec().name_spec(),
            final(self).settings_spec() == old(self).settings_spec(),
            final(self).last_pre_spec() == old(self).last_pre_spec(),
    {
        self.base.get_mut(idx)
    }

    /// The number of entries that differ from the initial value.
    pub fn count_bytes(&self) -> (r: u64)
        ensures
            r == count_set(self.base_spec().entries(), self.base_spec().initial_spec()),
    {
        self.base.count_bytes()
    }

    /// Resets every entry to the initial value.
    pub fn reset_map(&mut self) -> (r: Result<(), M::Error>)
        ensures
            r is Ok ==> final(self).base_spec().entries() == Seq::new(
                old(self).base_spec().entries().len(),
                |i: int| old(self).base_spec().initial_spec(),
            ),
            final(self).base_spec().initial_spec() == old(self).base_spec().initial_spec(),
            final(self).base_spec().name_spec() == old(self).base_spec().name_spec(),
            final(self).settings_spec() == old(self).settings_spec(),
            final(self).last_pre_spec() == old(self).last_pre_spec(),
    {
        self.base.reset_map()
    }

    /// The wrapped map's own hash.
    pub fn hash(&self) -> (r: u64)
        ensures
            r == self.base_spec().hash_spec(),
    {
        self.base.hash()
    }

    pub fn to_vec(&self) -> (r: Vec<u8>)
        ensures
            r@ == self.base_spec().entries(),
    {
        self.base.to_vec()
    }

    /// Mutable access to all entries at once.
    pub fn as_mut_slice(&mut self) -> (r: &mut [u8])
        ensures
            r@ == old(self).base_spec().entries(),
            final(self).base_spec().entries() == final(r)@,
            final(self).base_spec().initial_spec() == old(self).base_spec().initial_spec(),
            final(self).base_spec().name_spec() == old(self).base_spec().name_spec(),
            final(self).settings_spec() == old(self).settings_spec(),
            final(self).last_pre_spec() == old(self).last_pre_spec(),
    {
        self.base.as_mut_slice()
    }

    /// The number of `indexes` that are in range and hold a set entry.
    pub fn how_many_set(&self, indexes: &[usize]) -> (r: usize)
        ensures
            r == count_set_at(
                self.base_spec().entries(),
                self.base_spec().initial_spec(),
                indexes@,
            ),
    {
        self.base.how_many_set(indexes)
    }

    /// Shortens the map to `new_len` entries; a longer `new_len` changes nothing.
    pub fn truncate(&mut self, new_len: usize)
        ensures
            final(self).base_spec().entries() == if new_len < old(
                self,
            ).base_spec().entries().len() {
                old(self).base_spec().entries().take(new_len as int)
            } else {
                old(self).base_spec().entries()
            },
            final(self).base_spec().initial_spec() == old(self).base_spec().initial_spec(),
            final(self).base_spec().name_spec() == old(self).base_spec().name_spec(),
            final(self).settings_spec() == old(self).settings_spec(),
            final(self).last_pre_spec() == old(self).last_pre_spec(),
    {
        self.base.truncate(new_len)
    }

    pub fn as_slice(&self) -> (r: &[u8])
        ensures
            r@ == self.base_spec().entries(),
    {
        self.base.as_slice()
    }

    pub fn pre_observe_first(&mut self) -> (r: Result<(), M::Error>)
        ensures
            M::hook_step(
                old(self).base_spec(),
                Hook::PreObserveFirst,
                final(self).base_spec(),
                failure(r),
            ),
            final(self).base_spec().name_spec() == old(self).base_spec().name_spec(),
            final(self).settings_spec() == old(self).settings_spec(),
            final(self).last_pre_spec() == old(self).last_pre_spec(),
    {
        self.base.pre_observe_first()
    }

    pub fn post_observe_first(&mut self) -> (r: Result<(), M::Error>)
        ensures
            M::hook_step(
                old(self).base_spec(),
                Hook::PostObserveFirst,
                final(self).base_spec(),
                failure(r),
            ),
            final(self).base_spec().name_spec() == old(self).base_spec().name_spec(),
            final(self).settings_spec() == old(self).settings_spec(),
            final(self).last_pre_spec() == old(self).last_pre_spec(),
    {
        self.base.post_observe_first()
    }

    pub fn pre_observe_second(&mut self) -> (r: Result<(), M::Error>)
        ensures
            M::hook_step(
                old(self).base_spec(),
                Hook::PreObserveSecond,
                final(self).base_spec(),
                failure(r),
            ),
            final(self).base_spec().name_spec() == old(self).base_spec().name_spec(),
            final(self).settings_spec() == old(self).settings_spec(),
            final(self).last_pre_spec() == old(self).last_pre_spec(),
    {
        self.base.pre_observe_second()
    }

    pub fn post_observe_second(&mut self) -> (r: Result<(), M::Error>)
        ensures
            M::hook_step(
                old(self).base_spec(),
                Hook::PostObserveSecond,
                final(self).base_spec(),
                failure(r),
            ),
            final(self).base_spec().name_spec() == old(self).base_spec().name_spec(),
            final(self).settings_spec() == old(self).settings_spec(),
            final(self).last_pre_spec() == old(self).last_pre_spec(),
    {
        self.base.post_observe_second()
    }

    fn make_report(&self, stage: Stage, fp: u32) -> (r: Report)
        ensures
            r.describes(
                self.settings.print_crcs_spec(),
                self.settings.log_crcs_spec(),
                stage,
                self.base.name_spec(),
                fp,
            ),
    {
        let print = if self.settings.print_crcs() {
            Some(report_line(stage, self.base.name(), fp))
        } else {
            None
        };
        let log = if self.settings.log_crcs() {
            Some(report_line(stage, self.base.name(), fp))
        } else {
            None
        };
        Report { print, log }
    }

    /// The hook before an execution. The wrapped map's own hook runs first;
    /// its error is handed back unchanged and nothing else happens. Otherwise
    /// the buffer is fingerprinted, the fingerprint recorded, and the report
    /// for it returned.
    pub fn pre_exec(&mut self) -> (r: Result<Report, M::Error>)
        ensures
            final(self).settings_spec() == old(self).settings_spec(),
            M::hook_step(
                old(self).base_spec(),
                Hook::PreExec,
                final(self).base_spec(),
                failure(r),
            ),
            final(self).base_spec().name_spec() == old(self).base_spec().name_spec(),
            r is Err ==> final(self).last_pre_spec() == old(self).last_pre_spec(),
            r matches Ok(rep) ==> {
                &&& final(self).last_pre_spec() == Some(crc32_of(final(self).base_spec().entries()))
                &&& rep.describes(
                    old(self).settings_spec().print_crcs_spec(),
                    old(self).settings_spec().log_crcs_spec(),
                    Stage::Pre,
                    old(self).base_spec().name_spec(),
                    crc32_of(final(self).base_spec().entries()),
                )
            },
    {
        let res = self.base.pre_exec();
        if let Err(e) = res {
            return Err(e);
        }
        let pre_hash = fingerprint(self.base.as_slice());
        let rep = self.make_report(Stage::Pre, pre_hash);
        self.last_pre_hash = Some(pre_hash);
        Ok(rep)
    }

    /// The hook after an execution. The buffer is fingerprinted and the
    /// report for it returned with the outcome of the comparison against the
    /// recorded pre-execution fingerprint. The wrapped map's own hook is not
    /// called, and nothing changes.
    pub fn post_exec(&mut self) -> (r: (Report, Result<(), VerificationError>))
        ensures
            *final(self) == *old(self),
            ({
                let post = crc32_of(old(self).base_spec().entries());
                let name = old(self).base_spec().name_spec();
                let s = old(self).settings_spec();
                &&& r.0.describes(s.print_crcs_spec(), s.log_crcs_spec(), Stage::Post, name, post)
                &&& match verdict_of(s, old(self).last_pre_spec(), post) {
                    Verdict::Pass => r.1 is Ok,
                    Verdict::Same => r.1 matches Err(VerificationError::HashesEqual { map, pre, post: p })
                        && map@ == name && pre == post && p == post,
                    Verdict::Violation => r.1 matches Err(
                        VerificationError::InvariantViolated { map, pre, post: p },
                    ) && map@ == name && pre == post && p == post,
                }
            }),
    {
        let post_hash = fingerprint(self.base.as_slice());
        let rep = self.make_report(Stage::Post, post_hash);
        let verdict = check_fingerprints(&self.settings, self.last_pre_hash, post_hash);
        let outcome = match verdict {
            Verdict::Pass => Ok(()),
            Verdict::Same => Err(
                VerificationError::HashesEqual {
                    map: self.base.name().to_owned(),
                    pre: post_hash,
                    post: post_hash,
                },
            ),
            Verdict::Violation => Err(
                VerificationError::InvariantViolated {
                    map: self.base.name().to_owned(),
                    pre: post_hash,
                    post: post_hash,
                },
            ),
        };
        (rep, outcome)
    }
}

} // verus!

verus! {

/// A post-execution check with no pre-execution fingerprint in the cycle
/// passes, whatever the settings.
pub proof fn lemma_post_without_pre_passes(settings: MapHashingObserverSettings, post: u32)
    ensures
        verdict_of(settings, None, post) == Verdict::Pass,
{
}

/// On a map whose contents did not change between the two fingerprints,
/// `err_if_same` gives the recoverable error, otherwise `assert_different`
/// gives the fatal violation, and with both off the check passes.
pub proof fn lemma_unchanged_map_verdict(settings: MapHashingObserverSettings, contents: Seq<u8>)
    ensures
        verdict_of(settings, Some(crc32_of(contents)), crc32_of(contents)) == if settings.err_if_same_spec() {
            Verdict::Same
        } else if settings.assert_different_spec() {
            Verdict::Violation
        } else {
            Verdict::Pass
        },
{
}

/// Printing and logging have no effect on the outcome of a check: settings
/// with equal `err_if_same` and `assert_different` flags give equal verdicts.
pub proof fn lemma_reporting_does_not_change_verdict(
    a: MapHashingObserverSettings,
    b: MapHashingObserverSettings,
    pre: Option<u32>,
    post: u32,
)
    requires
        a.err_if_same_spec() == b.err_if_same_spec(),
        a.assert_different_spec() == b.assert_different_spec(),
    ensures
        verdict_of(a, pre, post) == verdict_of(b, pre, post),
{
}

/// A completed cycle prints two lines when printing is on and none when it
/// is off, and logs two records when logging is on and none when it is off;
/// the two switches do not affect each other.
pub proof fn lemma_cycle_report_counts(
    settings: MapHashingObserverSettings,
    name: Seq<char>,
    pre_fp: u32,
    post_fp: u32,
    pre: Report,
    post: Report,
)
    requires
        pre.describes(
            settings.print_crcs_spec(),
            settings.log_crcs_spec(),
            Stage::Pre,
            name,
            pre_fp,
        ),
        post.describes(
            settings.print_crcs_spec(),
            settings.log_crcs_spec(),
            Stage::Post,
            name,
            post_fp,
        ),
    ensures
        pre.printed() + post.printed() == if settings.print_crcs_spec() { 2nat } else { 0nat },
        pre.logged() + post.logged() == if settings.log_crcs_spec() { 2nat } else { 0nat },
{
}

} // verus!
