//! Threshold approval by a set of configured admin signers.
use vstd::prelude::*;
use crate::validation::{AccountId, contains_account};

verus! {

/// Upper bound on the number of signers processed in one check.
pub const MAX_SIGNATURES: u32 = 20;

/// Configuration for multisig admin control.
pub struct AdminConfig {
    pub admins: Vec<AccountId>,
    /// Number of distinct admins that must sign (e.g. 2 for 2-of-3).
    pub threshold: u32,
}

/// The distinct signers of `signers` that are admins, in first-seen order.
pub open spec fn distinct_admin_signers(signers: Seq<AccountId>, admins: Seq<AccountId>) -> Seq<
    AccountId,
>
    decreases signers.len(),
{
    if signers.len() == 0 {
        Seq::empty()
    } else {
        let prev = distinct_admin_signers(signers.drop_last(), admins);
        let x = signers.last();
        if admins.contains(x) && !prev.contains(x) {
            prev.push(x)
        } else {
            prev
        }
    }
}

/// The configuration is usable and enough distinct admins signed.
pub open spec fn multisig_approved(signers: Seq<AccountId>, admins: Seq<AccountId>, threshold: u32) -> bool {
    &&& signers.len() <= MAX_SIGNATURES
    &&& threshold > 0
    &&& threshold <= admins.len()
    &&& distinct_admin_signers(signers, admins).len() >= threshold
}

/// The signers whose authorization the check requires: none when the
/// configuration or the signer list is refused, else the distinct admins
/// among the signers in first-seen order, up to the threshold.
pub open spec fn counted_signers(signers: Seq<AccountId>, admins: Seq<AccountId>, threshold: u32) -> Seq<
    AccountId,
> {
    if signers.len() > MAX_SIGNATURES || threshold == 0 || threshold > admins.len() {
        Seq::empty()
    } else {
        let d = distinct_admin_signers(signers, admins);
        if d.len() <= threshold {
            d
        } else {
            d.take(threshold as int)
        }
    }
}

proof fn lemma_distinct_admins_prefix(s: Seq<AccountId>, admins: Seq<AccountId>, i: int, j: int)
    requires
        0 <= i <= j <= s.len(),
    ensures
        distinct_admin_signers(s.take(i), admins).len() <= distinct_admin_signers(s.take(j), admins).len(),
        distinct_admin_signers(s.take(j), admins).take(
            distinct_admin_signers(s.take(i), admins).len() as int,
        ) == distinct_admin_signers(s.take(i), admins),
    decreases j - i,
{
    let di = distinct_admin_signers(s.take(i), admins);
    if i == j {
        assert(di.take(di.len() as int) =~= di);
    } else {
        lemma_distinct_admins_prefix(s, admins, i, j - 1);
        assert(s.take(j).drop_last() =~= s.take(j - 1));
        let dp = distinct_admin_signers(s.take(j - 1), admins);
        let dj = distinct_admin_signers(s.take(j), admins);
        if dj != dp {
            assert(dj.take(di.len() as int) =~= dp.take(di.len() as int));
        }
    }
}

/// Require a unique threshold of configured signers for an action: at most
/// `MAX_SIGNATURES` signers, a threshold in `1..=admins.len()`, and at
/// least `threshold` distinct admins among the signers. Returns the verdict
/// and the signers counted toward it, whose authorization the host must
/// require: the first distinct admins among the signers, in order, up to the
/// threshold (none when the configuration or the list is refused).
pub fn verify_multisig(signers: Vec<AccountId>, config: &AdminConfig) -> (r: (bool, Vec<AccountId>))
    ensures
        r.0 == multisig_approved(signers@, config.admins@, config.threshold),
        r.1@ == counted_signers(signers@, config.admins@, config.threshold),
{
    if signers.len() > MAX_SIGNATURES as usize || config.threshold == 0 || config.threshold as usize
        > config.admins.len() {
        return (false, Vec::new());
    }
    let mut valid_count: u32 = 0;
    let mut seen: Vec<AccountId> = Vec::new();
    let mut i: usize = 0;
    while i < signers.len()
        invariant_except_break
            i <= signers@.len(),
            signers@.len() <= MAX_SIGNATURES,
            seen@ == distinct_admin_signers(signers@.take(i as int), config.admins@),
            valid_count == seen@.len(),
            valid_count <= i,
            valid_count <= config.threshold,
        ensures
            i <= signers@.len(),
            seen@ == distinct_admin_signers(signers@.take(i as int), config.admins@),
            valid_count == seen@.len(),
            valid_count >= config.threshold || i == signers@.len(),
            valid_count <= config.threshold,
        decreases signers@.len() - i,
    {
        if valid_count >= config.threshold {
            break;
        }
        let signer = signers[i];
        assert(signers@.take(i + 1).drop_last() =~= signers@.take(i as int));
        if contains_account(&config.admins, &signer) && !contains_account(&seen, &signer) {
            seen.push(signer);
            valid_count = valid_count + 1;
        }
        i = i + 1;
    }
    proof {
        lemma_distinct_admins_prefix(signers@, config.admins@, i as int, signers@.len() as int);
        assert(signers@.take(signers@.len() as int) =~= signers@);
    }
    (valid_count >= config.threshold, seen)
}

} // verus!
