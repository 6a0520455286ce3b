//! DAO governance: proposals, weighted votes, finalisation and execution.
//!
//! Executing a passed proposal decides which cross-contract call carries
//! out its action; the host performs the returned [`GovernanceCall`].
use vstd::prelude::*;
use crate::access_control::{AccessControlRole, RoleTable};
use crate::errors::GovernanceError;
use crate::insurance_types::{GovernanceAction, PolicyPatch, Proposal};
use crate::invariants::trunc_div;
use crate::keyed_map::{IdMap, lookup};
use crate::validation::{AccountId, same_account};

verus! {

/// One voter's ballot on one proposal.
#[derive(Clone, Copy, Debug)]
pub struct VoteRecord {
    pub voter: AccountId,
    pub weight: i128,
    pub is_yes: bool,
    pub timestamp: u64,
}

/// Where a proposal stands.
#[derive(Clone, Copy, Debug, PartialEq, Eq, Structural)]
pub enum ProposalState {
    Executed,
    Finalized,
    Expired,
    Active,
}

/// Tallies of a proposal.
#[derive(Clone, Copy, Debug, PartialEq, Eq, Structural)]
pub struct ProposalStats {
    pub yes_votes: i128,
    pub no_votes: i128,
    pub total_votes: i128,
    pub status: ProposalState,
}

/// The cross-contract call that carries out an executed proposal's action.
#[derive(Debug)]
pub enum GovernanceCall {
    /// `approve(claim_id)` on the claims contract.
    ApproveClaim { claims_contract: AccountId, claim_id: u64 },
    /// `payout(recipient, amount)` on the risk pool.
    Payout { risk_pool: AccountId, recipient: AccountId, amount: i128 },
    /// `apply_governance_update(policy_id, patch)` on the policy contract.
    ApplyPolicyUpdate { policy_contract: AccountId, policy_id: u64, patch: PolicyPatch },
    /// `slash_funds(target, role, reason, amount)` on the slashing contract,
    /// then `absorb_slash(target, amount)` on the risk pool.
    Slash {
        slashing_contract: AccountId,
        risk_pool: AccountId,
        target: AccountId,
        role: String,
        reason: String,
        amount: i128,
    },
    /// `pause(governance, duration_seconds)` on the target contract.
    Pause { target_contract: AccountId, governance: AccountId, duration_seconds: u64 },
}

/// The value of a proposal, with its texts as character sequences.
pub struct ProposalView {
    pub id: u64,
    pub title: Seq<char>,
    pub description: Seq<char>,
    pub execution_data: Seq<char>,
    pub creator: AccountId,
    pub expires_at: u64,
    pub threshold_percentage: u32,
    pub yes_votes: i128,
    pub no_votes: i128,
    pub is_finalized: bool,
    pub is_executed: bool,
}

impl View for Proposal {
    type V = ProposalView;

    open spec fn view(&self) -> ProposalView {
        ProposalView {
            id: self.id,
            title: self.title@,
            description: self.description@,
            execution_data: self.execution_data@,
            creator: self.creator,
            expires_at: self.expires_at,
            threshold_percentage: self.threshold_percentage,
            yes_votes: self.yes_votes,
            no_votes: self.no_votes,
            is_finalized: self.is_finalized,
            is_executed: self.is_executed,
        }
    }
}

impl Proposal {
    /// A copy of the proposal.
    pub fn copy(&self) -> (r: Self)
        ensures
            r@ == self@,
    {
        Proposal {
            id: self.id,
            title: self.title.clone(),
            description: self.description.clone(),
            execution_data: self.execution_data.clone(),
            creator: self.creator,
            expires_at: self.expires_at,
            threshold_percentage: self.threshold_percentage,
            yes_votes: self.yes_votes,
            no_votes: self.no_votes,
            is_finalized: self.is_finalized,
            is_executed: self.is_executed,
        }
    }
}

impl GovernanceAction {
    /// A copy of the action.
    pub fn copy(&self) -> (r: Self)
        ensures
            r == *self,
    {
        match self {
            GovernanceAction::ClaimApproval(c) => GovernanceAction::ClaimApproval(*c),
            GovernanceAction::FundAllocation(a, n) => GovernanceAction::FundAllocation(*a, *n),
            GovernanceAction::PolicyChange(p, patch) => GovernanceAction::PolicyChange(*p, *patch),
            GovernanceAction::Slashing(t, role, n) => GovernanceAction::Slashing(*t, role.clone(), *n),
            GovernanceAction::PauseContract(t, d) => GovernanceAction::PauseContract(*t, *d),
        }
    }
}

/// The yes share of a proposal's votes, in whole percent truncated as the
/// contract computes it, reaches the threshold; some weight was cast.
pub open spec fn meets_threshold(yes_votes: int, no_votes: int, threshold: u32) -> bool {
    yes_votes + no_votes != 0 && trunc_div(yes_votes * 100, yes_votes + no_votes) >= threshold
}

/// The tally arithmetic of a proposal stays within `i128`.
pub open spec fn tally_fits(p: ProposalView) -> bool {
    &&& i128::MIN <= p.yes_votes + p.no_votes <= i128::MAX
    &&& i128::MIN <= p.yes_votes * 100 <= i128::MAX
    &&& !(p.yes_votes * 100 == i128::MIN && p.yes_votes + p.no_votes == -1)
}

/// The storage of one governance contract.
#[derive(Debug)]
pub struct GovernanceContract {
    /// The governance contract's own address.
    pub contract: AccountId,
    pub admin: Option<AccountId>,
    pub token: Option<AccountId>,
    pub slashing_contract: Option<AccountId>,
    pub claims_contract: Option<AccountId>,
    pub risk_pool_contract: Option<AccountId>,
    pub policy_contract: Option<AccountId>,
    pub voting_period: Option<u64>,
    pub counter: u64,
    pub proposals: IdMap<Proposal>,
    /// Ballots keyed by `(proposal, voter)`.
    pub votes: Vec<((u64, AccountId), VoteRecord)>,
    pub pending: IdMap<GovernanceAction>,
    pub roles: RoleTable,
}

/// The proposal stored under `id`, as a value.
pub open spec fn proposal_in(proposals: IdMap<Proposal>, id: u64) -> Option<ProposalView> {
    match proposals.value_of(id) {
        Some(p) => Some(p@),
        None => None,
    }
}

/// Why executing proposal `id` fails, in the order the checks are made;
/// `None` when it succeeds.
pub open spec fn execute_error(s: GovernanceContract, id: u64) -> Option<GovernanceError> {
    let p = s.proposal_of(id).unwrap();
    if !p.is_finalized {
        Some(GovernanceError::MustFinalizeFirst)
    } else if p.is_executed {
        Some(GovernanceError::AlreadyExecuted)
    } else if !meets_threshold(p.yes_votes as int, p.no_votes as int, p.threshold_percentage) {
        Some(GovernanceError::ThresholdNotMet)
    } else {
        match s.pending_of(id) {
            None => None,
            Some(GovernanceAction::ClaimApproval(_)) => if s.claims_contract is None {
                Some(GovernanceError::ClaimsContractNotSet)
            } else {
                None
            },
            Some(GovernanceAction::FundAllocation(_, _)) => if s.risk_pool_contract is None {
                Some(GovernanceError::RiskPoolContractNotSet)
            } else {
                None
            },
            Some(GovernanceAction::PolicyChange(_, _)) => if s.policy_contract is None {
                Some(GovernanceError::PolicyContractNotSet)
            } else {
                None
            },
            Some(GovernanceAction::Slashing(_, _, _)) => if s.slashing_contract is None {
                Some(GovernanceError::SlashingContractNotSet)
            } else if s.risk_pool_contract is None {
                Some(GovernanceError::RiskPoolContractNotSet)
            } else {
                None
            },
            Some(GovernanceAction::PauseContract(_, _)) => None,
        }
    }
}

/// `c` is the call that carries out `action` with `s`'s registered
/// contracts.
pub open spec fn call_for(s: GovernanceContract, action: GovernanceAction, c: GovernanceCall) -> bool {
    match action {
        GovernanceAction::ClaimApproval(claim_id) => c == GovernanceCall::ApproveClaim {
            claims_contract: s.claims_contract.unwrap(),
            claim_id,
        },
        GovernanceAction::FundAllocation(recipient, amount) => c == GovernanceCall::Payout {
            risk_pool: s.risk_pool_contract.unwrap(),
            recipient,
            amount,
        },
        GovernanceAction::PolicyChange(policy_id, patch) => c == GovernanceCall::ApplyPolicyUpdate {
            policy_contract: s.policy_contract.unwrap(),
            policy_id,
            patch,
        },
        GovernanceAction::Slashing(target, role, amount) => match c {
            GovernanceCall::Slash { slashing_contract, risk_pool, target: t, role: r, reason, amount: a } => {
                &&& slashing_contract == s.slashing_contract.unwrap()
                &&& risk_pool == s.risk_pool_contract.unwrap()
                &&& t == target
                &&& r == role
                &&& reason@ == "governance_slash"@
                &&& a == amount
            },
            _ => false,
        },
        GovernanceAction::PauseContract(target_contract, duration_seconds) => c == GovernanceCall::Pause {
            target_contract,
            governance: s.contract,
            duration_seconds,
        },
    }
}

/// Proposal `id` is open for votes at `now`: stored, not finalised and not
/// expired.
pub open spec fn open_for_votes(s: GovernanceContract, id: u64, now: u64) -> bool {
    s.proposal_of(id) matches Some(p) && !p.is_finalized && now <= p.expires_at
}

/// The ids among `1..=n` of proposals open for votes at `now`, in order.
pub open spec fn open_ids(s: GovernanceContract, now: u64, n: nat) -> Seq<u64>
    decreases n,
{
    if n == 0 {
        Seq::empty()
    } else {
        let earlier = open_ids(s, now, (n - 1) as nat);
        if open_for_votes(s, n as u64, now) {
            earlier.push(n as u64)
        } else {
            earlier
        }
    }
}

/// Where proposal `p` stands at `now`.
pub open spec fn state_at(p: ProposalView, now: u64) -> ProposalState {
    if p.is_executed {
        ProposalState::Executed
    } else if p.is_finalized {
        ProposalState::Finalized
    } else if now > p.expires_at {
        ProposalState::Expired
    } else {
        ProposalState::Active
    }
}

/// Why `voter`'s ballot on proposal `id` at `now` is refused; `None` when
/// it is accepted.
pub open spec fn vote_error(s: GovernanceContract, voter: AccountId, id: u64, now: u64) -> Option<
    GovernanceError,
> {
    if now > s.proposal_of(id).unwrap().expires_at {
        Some(GovernanceError::VotingPeriodEnded)
    } else if s.vote_of(id, voter) is Some {
        Some(GovernanceError::AlreadyVoted)
    } else {
        None
    }
}

/// Adding the ballot to its side of the tally stays within `i128`.
pub open spec fn ballot_fits(p: ProposalView, weight: i128, is_yes: bool) -> bool {
    if is_yes {
        i128::MIN <= p.yes_votes + weight <= i128::MAX
    } else {
        i128::MIN <= p.no_votes + weight <= i128::MAX
    }
}

/// `s1` is `s0` after `voter`'s ballot of `weight` on proposal `id` was
/// counted and recorded.
pub open spec fn vote_applied(
    s0: GovernanceContract,
    s1: GovernanceContract,
    voter: AccountId,
    id: u64,
    weight: i128,
    is_yes: bool,
    now: u64,
) -> bool {
    let p = s0.proposal_of(id).unwrap();
    &&& s1.only_proposal_changed(
        &s0,
        id,
        if is_yes {
            ProposalView { yes_votes: (p.yes_votes + weight) as i128, ..p }
        } else {
            ProposalView { no_votes: (p.no_votes + weight) as i128, ..p }
        },
    )
    &&& s1.pending == s0.pending
    &&& s1.votes@ == s0.votes@.push(
        ((id, voter), VoteRecord { voter, weight, is_yes, timestamp: now }),
    )
}

impl GovernanceContract {
    /// The proposal stored under `id`.
    pub open spec fn proposal_of(&self, id: u64) -> Option<ProposalView> {
        proposal_in(self.proposals, id)
    }

    /// The action waiting on proposal `id`.
    pub open spec fn pending_of(&self, id: u64) -> Option<GovernanceAction> {
        self.pending.value_of(id)
    }

    /// The ballot `voter` cast on proposal `id`.
    pub open spec fn vote_of(&self, id: u64, voter: AccountId) -> Option<VoteRecord> {
        lookup(self.votes@, (id, voter))
    }

    /// The contract's configuration is unchanged.
    pub open spec fn same_settings(&self, other: &GovernanceContract) -> bool {
        &&& self.contract == other.contract
        &&& self.admin == other.admin
        &&& self.token == other.token
        &&& self.slashing_contract == other.slashing_contract
        &&& self.claims_contract == other.claims_contract
        &&& self.risk_pool_contract == other.risk_pool_contract
        &&& self.policy_contract == other.policy_contract
        &&& self.voting_period == other.voting_period
        &&& self.roles == other.roles
    }

    /// Only proposal `id` changed, to `p`.
    pub open spec fn only_proposal_changed(&self, old: &GovernanceContract, id: u64, p: ProposalView) -> bool {
        &&& self.same_settings(old)
        &&& self.counter == old.counter
        &&& forall|i: u64| #[trigger]
            self.proposal_of(i) == if i == id {
                Some(p)
            } else {
                old.proposal_of(i)
            }
    }

    /// `self` is `old` with the proposal `p` added under the next id, its
    /// action (if any) waiting on it.
    pub open spec fn proposal_added(
        &self,
        old: &GovernanceContract,
        p: ProposalView,
        action: Option<GovernanceAction>,
    ) -> bool {
        let id = (old.counter + 1) as u64;
        &&& self.same_settings(old)
        &&& self.counter == id
        &&& p.id == id
        &&& forall|i: u64| #[trigger]
            self.proposal_of(i) == if i == id {
                Some(p)
            } else {
                old.proposal_of(i)
            }
        &&& forall|i: u64| #[trigger]
            self.pending_of(i) == if i == id && action is Some {
                action
            } else {
                old.pending_of(i)
            }
        &&& self.votes == old.votes
    }

    /// The storage of a governance contract at `contract` before
    /// `initialize`.
    pub fn new(contract: AccountId) -> (s: Self)
        ensures
            s.contract == contract,
            s.admin.is_none(),
            s.token.is_none(),
            s.slashing_contract.is_none(),
            s.claims_contract.is_none(),
            s.risk_pool_contract.is_none(),
            s.policy_contract.is_none(),
            s.voting_period.is_none(),
            s.counter == 0,
            forall|id: u64| s.proposal_of(id).is_none(),
            forall|id: u64| s.pending_of(id).is_none(),
            s.votes@.len() == 0,
            forall|a: AccountId, r: AccessControlRole| !s.roles.holds(a, r),
    {
        GovernanceContract {
            contract,
            admin: None,
            token: None,
            slashing_contract: None,
            claims_contract: None,
            risk_pool_contract: None,
            policy_contract: None,
            voting_period: None,
            counter: 0,
            proposals: IdMap::new(),
            votes: Vec::new(),
            pending: IdMap::new(),
            roles: RoleTable::new(),
        }
    }

    /// Set up the contract once: admin, token, voting period and the
    /// contracts that carry out proposals.
    pub fn initialize(
        &mut self,
        admin: AccountId,
        token: AccountId,
        slashing_contract: AccountId,
        voting_period: u64,
        claims_contract: AccountId,
        risk_pool_contract: AccountId,
        policy_contract: AccountId,
    ) -> (r: Result<(), GovernanceError>)
        ensures
            old(self).admin is Some ==> r == Err::<(), GovernanceError>(
                GovernanceError::AlreadyInitialized,
            ) && *final(self) == *old(self),
            old(self).admin is None ==> {
                &&& r is Ok
                &&& final(self).admin == Some(admin)
                &&& final(self).token == Some(token)
                &&& final(self).slashing_contract == Some(slashing_contract)
                &&& final(self).voting_period == Some(voting_period)
                &&& final(self).counter == 0
                &&& final(self).claims_contract == Some(claims_contract)
                &&& final(self).risk_pool_contract == Some(risk_pool_contract)
                &&& final(self).policy_contract == Some(policy_contract)
                &&& forall|a: AccountId, role: AccessControlRole|
                    final(self).roles.holds(a, role) <==> (old(self).roles.holds(a, role) || (a
                        == admin && role == AccessControlRole::Admin))
                &&& final(self).contract == old(self).contract
                &&& final(self).proposals == old(self).proposals
                &&& final(self).votes == old(self).votes
                &&& final(self).pending == old(self).pending
            },
    {
        if self.admin.is_some() {
            return Err(GovernanceError::AlreadyInitialized);
        }
        self.admin = Some(admin);
        self.token = Some(token);
        self.slashing_contract = Some(slashing_contract);
        self.voting_period = Some(voting_period);
        self.counter = 0;
        self.claims_contract = Some(claims_contract);
        self.risk_pool_contract = Some(risk_pool_contract);
        self.policy_contract = Some(policy_contract);
        self.roles.init_access_control(&admin);
        Ok(())
    }

    /// Grant `role` to `addr` (the host checks the admin's authorisation).
    pub fn set_role(&mut self, addr: AccountId, role: AccessControlRole) -> (r: Result<
        (),
        GovernanceError,
    >)
        ensures
            r is Ok,
            forall|a: AccountId, q: AccessControlRole|
                final(self).roles.holds(a, q) <==> (old(self).roles.holds(a, q) || (a == addr
                    && q == role)),
            final(self).proposals == old(self).proposals,
            final(self).counter == old(self).counter,
    {
        self.roles.set_role(&addr, role);
        Ok(())
    }

    /// Store a fresh proposal under the next id, voting open until the
    /// voting period has passed from `now`.
    fn add_proposal(
        &mut self,
        creator: AccountId,
        title: String,
        description: String,
        execution_data: String,
        threshold_percentage: u32,
        now: u64,
    ) -> (id: u64)
        requires
            old(self).counter < u64::MAX,
            old(self).voting_period is Some,
            now + old(self).voting_period.unwrap() <= u64::MAX,
        ensures
            id == old(self).counter + 1,
            final(self).proposal_added(
                old(self),
                ProposalView {
                    id,
                    title: title@,
                    description: description@,
                    execution_data: execution_data@,
                    creator,
                    expires_at: (now + old(self).voting_period.unwrap()) as u64,
                    threshold_percentage,
                    yes_votes: 0,
                    no_votes: 0,
                    is_finalized: false,
                    is_executed: false,
                },
                None,
            ),
            final(self).pending == old(self).pending,
    {
        let counter = self.counter + 1;
        self.counter = counter;
        let voting_period = self.voting_period.unwrap();
        let proposal = Proposal {
            id: counter,
            title,
            description,
            execution_data,
            creator,
            expires_at: now + voting_period,
            threshold_percentage,
            yes_votes: 0,
            no_votes: 0,
            is_finalized: false,
            is_executed: false,
        };
        self.proposals.insert(counter, proposal);
        counter
    }

    /// Open a free-form proposal; fails with `NotInitialized` when no voting
    /// period is configured.
    pub fn create_proposal(
        &mut self,
        creator: AccountId,
        title: String,
        description: String,
        execution_data: String,
        threshold_percentage: u32,
        now: u64,
    ) -> (r: Result<u64, GovernanceError>)
        requires
            old(self).counter < u64::MAX,
            old(self).voting_period is Some ==> now + old(self).voting_period.unwrap() <= u64::MAX,
        ensures
            old(self).voting_period is None ==> r == Err::<u64, GovernanceError>(
                GovernanceError::NotInitialized,
            ) && *final(self) == *old(self),
            old(self).voting_period is Some ==> r == Ok::<u64, GovernanceError>(
                (old(self).counter + 1) as u64,
            ) && final(self).proposal_added(
                old(self),
                ProposalView {
                    id: (old(self).counter + 1) as u64,
                    title: title@,
                    description: description@,
                    execution_data: execution_data@,
                    creator,
                    expires_at: (now + old(self).voting_period.unwrap()) as u64,
                    threshold_percentage,
                    yes_votes: 0,
                    no_votes: 0,
                    is_finalized: false,
                    is_executed: false,
                },
                None,
            ),
    {
        if self.voting_period.is_none() {
            return Err(GovernanceError::NotInitialized);
        }
        Ok(self.add_proposal(creator, title, description, execution_data, threshold_percentage, now))
    }

    /// Store a fresh proposal whose passing carries out `action`.
    fn add_action_proposal(
        &mut self,
        creator: AccountId,
        title: String,
        description: String,
        execution_data: String,
        threshold_percentage: u32,
        now: u64,
        action: GovernanceAction,
    ) -> (id: u64)
        requires
            old(self).counter < u64::MAX,
            old(self).voting_period is Some,
            now + old(self).voting_period.unwrap() <= u64::MAX,
        ensures
            id == old(self).counter + 1,
            final(self).proposal_added(
                old(self),
                ProposalView {
                    id,
                    title: title@,
                    description: description@,
                    execution_data: execution_data@,
                    creator,
                    expires_at: (now + old(self).voting_period.unwrap()) as u64,
                    threshold_percentage,
                    yes_votes: 0,
                    no_votes: 0,
                    is_finalized: false,
                    is_executed: false,
                },
                Some(action),
            ),
    {
        let id = self.add_proposal(creator, title, description, execution_data, threshold_percentage, now);
        let ghost mid: GovernanceContract = *self;
        let ghost a = action;
        self.pending.insert(id, action);
        assert forall|i: u64| #[trigger]
            self.pending_of(i) == if i == id && Some(a) is Some {
                Some(a)
            } else {
                old(self).pending_of(i)
            } by {
            assert(mid.pending_of(i) == old(self).pending_of(i));
        }
        assert forall|i: u64| #[trigger] self.proposal_of(i) == mid.proposal_of(i) by {}
        id
    }

    /// Propose slashing `amount` of `target`'s stake held under `role`.
    pub fn create_slashing_proposal(
        &mut self,
        creator: AccountId,
        target: AccountId,
        role: String,
        reason: String,
        amount: i128,
        threshold: u32,
        now: u64,
    ) -> (r: Result<u64, GovernanceError>)
        requires
            old(self).counter < u64::MAX,
            old(self).voting_period is Some,
            now + old(self).voting_period.unwrap() <= u64::MAX,
        ensures
            r == Ok::<u64, GovernanceError>((old(self).counter + 1) as u64),
            final(self).proposal_added(
                old(self),
                ProposalView {
                    id: (old(self).counter + 1) as u64,
                    title: "Slashing Proposal"@,
                    description: reason@,
                    execution_data: "slash_call"@,
                    creator: creator,
                    expires_at: (now + old(self).voting_period.unwrap()) as u64,
                    threshold_percentage: threshold,
                    yes_votes: 0,
                    no_votes: 0,
                    is_finalized: false,
                    is_executed: false,
                },
                Some(GovernanceAction::Slashing(target, role, amount)),
            ),
    {
        let title = "Slashing Proposal".to_owned();
        let execution_data = "slash_call".to_owned();
        let action = GovernanceAction::Slashing(target, role, amount);
        Ok(self.add_action_proposal(creator, title, reason, execution_data, threshold, now, action))
    }

    /// Propose approving claim `claim_id`; fails with `NotInitialized` when
    /// no voting period is configured.
    pub fn create_claim_approval_proposal(
        &mut self,
        creator: AccountId,
        claim_id: u64,
        threshold: u32,
        now: u64,
    ) -> (r: Result<u64, GovernanceError>)
        requires
            old(self).counter < u64::MAX,
            old(self).voting_period is Some ==> now + old(self).voting_period.unwrap() <= u64::MAX,
        ensures
            old(self).voting_period is None ==> r == Err::<u64, GovernanceError>(
                GovernanceError::NotInitialized,
            ) && *final(self) == *old(self),
            old(self).voting_period is Some ==> r == Ok::<u64, GovernanceError>(
                (old(self).counter + 1) as u64,
            ) && final(self).proposal_added(
                old(self),
                ProposalView {
                    id: (old(self).counter + 1) as u64,
                    title: "Claim Approval Proposal"@,
                    description: "DAO vote required for claim approval"@,
                    execution_data: "approve_claim"@,
                    creator: creator,
                    expires_at: (now + old(self).voting_period.unwrap()) as u64,
                    threshold_percentage: threshold,
                    yes_votes: 0,
                    no_votes: 0,
                    is_finalized: false,
                    is_executed: false,
                },
                Some(GovernanceAction::ClaimApproval(claim_id)),
            ),
    {
        if self.voting_period.is_none() {
            return Err(GovernanceError::NotInitialized);
        }
        let title = "Claim Approval Proposal".to_owned();
        let description = "DAO vote required for claim approval".to_owned();
        let execution_data = "approve_claim".to_owned();
        let action = GovernanceAction::ClaimApproval(claim_id);
        Ok(self.add_action_proposal(creator, title, description, execution_data, threshold, now, action))
    }

    /// Propose paying `amount` from the risk pool to `recipient`; fails with
    /// `NotInitialized` when no voting period is configured.
    pub fn create_fund_allocation_proposal(
        &mut self,
        creator: AccountId,
        recipient: AccountId,
        amount: i128,
        threshold: u32,
        now: u64,
    ) -> (r: Result<u64, GovernanceError>)
        requires
            old(self).counter < u64::MAX,
            old(self).voting_period is Some ==> now + old(self).voting_period.unwrap() <= u64::MAX,
        ensures
            old(self).voting_period is None ==> r == Err::<u64, GovernanceError>(
                GovernanceError::NotInitialized,
            ) && *final(self) == *old(self),
            old(self).voting_period is Some ==> r == Ok::<u64, GovernanceError>(
                (old(self).counter + 1) as u64,
            ) && final(self).proposal_added(
                old(self),
                ProposalView {
                    id: (old(self).counter + 1) as u64,
                    title: "Fund Allocation Proposal"@,
                    description: "DAO vote required for fund allocation"@,
                    execution_data: "allocate_funds"@,
                    creator: creator,
                    expires_at: (now + old(self).voting_period.unwrap()) as u64,
                    threshold_percentage: threshold,
                    yes_votes: 0,
                    no_votes: 0,
                    is_finalized: false,
                    is_executed: false,
                },
                Some(GovernanceAction::FundAllocation(recipient, amount)),
            ),
    {
        if self.voting_period.is_none() {
            return Err(GovernanceError::NotInitialized);
        }
        let title = "Fund Allocation Proposal".to_owned();
        let description = "DAO vote required for fund allocation".to_owned();
        let execution_data = "allocate_funds".to_owned();
        let action = GovernanceAction::FundAllocation(recipient, amount);
        Ok(self.add_action_proposal(creator, title, description, execution_data, threshold, now, action))
    }

    /// Propose patching policy `policy_id`; fails with `NotInitialized` when
    /// no voting period is configured.
    pub fn create_policy_change_proposal(
        &mut self,
        creator: AccountId,
        policy_id: u64,
        patch: PolicyPatch,
        threshold: u32,
        now: u64,
    ) -> (r: Result<u64, GovernanceError>)
        requires
            old(self).counter < u64::MAX,
            old(self).voting_period is Some ==> now + old(self).voting_period.unwrap() <= u64::MAX,
        ensures
            old(self).voting_period is None ==> r == Err::<u64, GovernanceError>(
                GovernanceError::NotInitialized,
            ) && *final(self) == *old(self),
            old(self).voting_period is Some ==> r == Ok::<u64, GovernanceError>(
                (old(self).counter + 1) as u64,
            ) && final(self).proposal_added(
                old(self),
                ProposalView {
                    id: (old(self).counter + 1) as u64,
                    title: "Policy Change Proposal"@,
                    description: "DAO vote required for policy parameter change"@,
                    execution_data: "policy_change"@,
                    creator: creator,
                    expires_at: (now + old(self).voting_period.unwrap()) as u64,
                    threshold_percentage: threshold,
                    yes_votes: 0,
                    no_votes: 0,
                    is_finalized: false,
                    is_executed: false,
                },
                Some(GovernanceAction::PolicyChange(policy_id, patch)),
            ),
    {
        if self.voting_period.is_none() {
            return Err(GovernanceError::NotInitialized);
        }
        let title = "Policy Change Proposal".to_owned();
        let description = "DAO vote required for policy parameter change".to_owned();
        let execution_data = "policy_change".to_owned();
        let action = GovernanceAction::PolicyChange(policy_id, patch);
        Ok(self.add_action_proposal(creator, title, description, execution_data, threshold, now, action))
    }

    /// Propose pausing `target_contract` for `duration_seconds`; fails with
    /// `InvalidPauseDuration` for a zero duration.
    pub fn create_pause_proposal(
        &mut self,
        creator: AccountId,
        target_contract: AccountId,
        duration_seconds: u64,
        threshold: u32,
        now: u64,
    ) -> (r: Result<u64, GovernanceError>)
        requires
            duration_seconds != 0 ==> old(self).counter < u64::MAX,
            duration_seconds != 0 ==> old(self).voting_period is Some,
            duration_seconds != 0 ==> now + old(self).voting_period.unwrap() <= u64::MAX,
        ensures
            duration_seconds == 0 ==> r == Err::<u64, GovernanceError>(
                GovernanceError::InvalidPauseDuration,
            ) && *final(self) == *old(self),
            duration_seconds != 0 ==> r == Ok::<u64, GovernanceError>(
                (old(self).counter + 1) as u64,
            ) && final(self).proposal_added(
                old(self),
                ProposalView {
                    id: (old(self).counter + 1) as u64,
                    title: "Circuit Breaker Pause"@,
                    description: "Governance-scheduled contract pause"@,
                    execution_data: "pause_contract"@,
                    creator: creator,
                    expires_at: (now + old(self).voting_period.unwrap()) as u64,
                    threshold_percentage: threshold,
                    yes_votes: 0,
                    no_votes: 0,
                    is_finalized: false,
                    is_executed: false,
                },
                Some(GovernanceAction::PauseContract(target_contract, duration_seconds)),
            ),
    {
        if duration_seconds == 0 {
            return Err(GovernanceError::InvalidPauseDuration);
        }
        let title = "Circuit Breaker Pause".to_owned();
        let description = "Governance-scheduled contract pause".to_owned();
        let execution_data = "pause_contract".to_owned();
        let action = GovernanceAction::PauseContract(target_contract, duration_seconds);
        Ok(self.add_action_proposal(creator, title, description, execution_data, threshold, now, action))
    }

    /// The ballot `voter` cast on proposal `id`.
    fn find_vote(&self, id: u64, voter: &AccountId) -> (r: Option<VoteRecord>)
        ensures
            r == self.vote_of(id, *voter),
    {
        let mut i: usize = self.votes.len();
        assert(self.votes@.take(i as int) =~= self.votes@);
        while i > 0
            invariant
                i <= self.votes@.len(),
                lookup(self.votes@, (id, *voter)) == lookup(self.votes@.take(i as int), (id, *voter)),
            decreases i,
        {
            assert(self.votes@.take(i as int).drop_last() =~= self.votes@.take(i - 1));
            let ((pid, who), record) = self.votes[i - 1];
            if pid == id && same_account(&who, voter) {
                return Some(record);
            }
            i = i - 1;
        }
        None
    }

    /// Cast `voter`'s ballot of `weight` on proposal `proposal_id` at `now`.
    ///
    /// Fails with `VotingPeriodEnded` after the proposal's expiry and with
    /// `AlreadyVoted` for a second ballot by the same voter.
    pub fn vote(
        &mut self,
        voter: AccountId,
        proposal_id: u64,
        weight: i128,
        is_yes: bool,
        now: u64,
    ) -> (r: Result<(), GovernanceError>)
        requires
            old(self).proposal_of(proposal_id) is Some,
            ballot_fits(old(self).proposal_of(proposal_id).unwrap(), weight, is_yes),
        ensures
            match vote_error(*old(self), voter, proposal_id, now) {
                Some(e) => r == Err::<(), GovernanceError>(e) && *final(self) == *old(self),
                None => r is Ok && vote_applied(*old(self), *final(self), voter, proposal_id, weight, is_yes, now),
            },
    {
        let mut proposal = self.proposals.get(proposal_id).unwrap().copy();
        if now > proposal.expires_at {
            return Err(GovernanceError::VotingPeriodEnded);
        }
        if self.find_vote(proposal_id, &voter).is_some() {
            return Err(GovernanceError::AlreadyVoted);
        }
        if is_yes {
            proposal.yes_votes = proposal.yes_votes + weight;
        } else {
            proposal.no_votes = proposal.no_votes + weight;
        }
        let record = VoteRecord { voter, weight, is_yes, timestamp: now };
        self.proposals.insert(proposal_id, proposal);
        self.votes.push(((proposal_id, voter), record));
        Ok(())
    }

    /// Close voting on a proposal once its expiry has passed.
    pub fn finalize_proposal(&mut self, proposal_id: u64, now: u64) -> (r: Result<(), GovernanceError>)
        requires
            old(self).proposal_of(proposal_id) is Some,
        ensures
            ({
                let p = old(self).proposal_of(proposal_id).unwrap();
                if now <= p.expires_at {
                    r == Err::<(), GovernanceError>(GovernanceError::VotingPeriodNotEnded)
                        && *final(self) == *old(self)
                } else {
                    &&& r is Ok
                    &&& final(self).only_proposal_changed(
                        old(self),
                        proposal_id,
                        ProposalView { is_finalized: true, ..p },
                    )
                    &&& final(self).pending == old(self).pending
                    &&& final(self).votes == old(self).votes
                }
            }),
    {
        let mut proposal = self.proposals.get(proposal_id).unwrap().copy();
        if now <= proposal.expires_at {
            return Err(GovernanceError::VotingPeriodNotEnded);
        }
        proposal.is_finalized = true;
        self.proposals.insert(proposal_id, proposal);
        Ok(())
    }

    /// Execute a finalised, passed proposal: mark it executed, drop its
    /// waiting action, and return the call that carries the action out.
    pub fn execute_proposal(&mut self, proposal_id: u64) -> (r: Result<
        Option<GovernanceCall>,
        GovernanceError,
    >)
        requires
            old(self).proposal_of(proposal_id) is Some,
            ({
                let p = old(self).proposal_of(proposal_id).unwrap();
                p.is_finalized && !p.is_executed ==> tally_fits(p)
            }),
        ensures
            match execute_error(*old(self), proposal_id) {
                Some(e) => r == Err::<Option<GovernanceCall>, GovernanceError>(e) && *final(self)
                    == *old(self),
                None => {
                    let p = old(self).proposal_of(proposal_id).unwrap();
                    &&& r is Ok
                    &&& (match old(self).pending_of(proposal_id) {
                        None => r == Ok::<Option<GovernanceCall>, GovernanceError>(None),
                        Some(a) => (r matches Ok(Some(c)) && call_for(*old(self), a, c)),
                    })
                    &&& final(self).only_proposal_changed(
                        old(self),
                        proposal_id,
                        ProposalView { is_executed: true, ..p },
                    )
                    &&& forall|i: u64| #[trigger]
                        final(self).pending_of(i) == if i == proposal_id {
                            None
                        } else {
                            old(self).pending_of(i)
                        }
                    &&& final(self).votes == old(self).votes
                },
            },
    {
        let mut proposal = self.proposals.get(proposal_id).unwrap().copy();
        if !proposal.is_finalized {
            return Err(GovernanceError::MustFinalizeFirst);
        }
        if proposal.is_executed {
            return Err(GovernanceError::AlreadyExecuted);
        }
        let total_votes = proposal.yes_votes + proposal.no_votes;
        if total_votes == 0 {
            return Err(GovernanceError::ThresholdNotMet);
        }
        let yes_share = (proposal.yes_votes * 100).checked_div(total_votes).unwrap();
        if yes_share < proposal.threshold_percentage as i128 {
            return Err(GovernanceError::ThresholdNotMet);
        }
        let call = match self.pending.get(proposal_id) {
            None => None,
            Some(GovernanceAction::ClaimApproval(claim_id)) => match self.claims_contract {
                None => return Err(GovernanceError::ClaimsContractNotSet),
                Some(claims_contract) => Some(
                    GovernanceCall::ApproveClaim { claims_contract, claim_id: *claim_id },
                ),
            },
            Some(GovernanceAction::FundAllocation(recipient, amount)) => match self.risk_pool_contract {
                None => return Err(GovernanceError::RiskPoolContractNotSet),
                Some(risk_pool) => Some(
                    GovernanceCall::Payout { risk_pool, recipient: *recipient, amount: *amount },
                ),
            },
            Some(GovernanceAction::PolicyChange(policy_id, patch)) => match self.policy_contract {
                None => return Err(GovernanceError::PolicyContractNotSet),
                Some(policy_contract) => Some(
                    GovernanceCall::ApplyPolicyUpdate { policy_contract, policy_id: *policy_id, patch: *patch },
                ),
            },
            Some(GovernanceAction::Slashing(target, role, amount)) => {
                let slashing_contract = match self.slashing_contract {
                    None => return Err(GovernanceError::SlashingContractNotSet),
                    Some(c) => c,
                };
                let risk_pool = match self.risk_pool_contract {
                    None => return Err(GovernanceError::RiskPoolContractNotSet),
                    Some(c) => c,
                };
                Some(
                    GovernanceCall::Slash {
                        slashing_contract,
                        risk_pool,
                        target: *target,
                        role: role.clone(),
                        reason: "governance_slash".to_owned(),
                        amount: *amount,
                    },
                )
            },
            Some(GovernanceAction::PauseContract(target_contract, duration_seconds)) => Some(
                GovernanceCall::Pause {
                    target_contract: *target_contract,
                    governance: self.contract,
                    duration_seconds: *duration_seconds,
                },
            ),
        };
        if call.is_some() {
            self.pending.remove(proposal_id);
        }
        proposal.is_executed = true;
        self.proposals.insert(proposal_id, proposal);
        Ok(call)
    }

    /// The name under which slashing proposals are executed.
    pub fn execute_slashing_proposal(&mut self, proposal_id: u64) -> (r: Result<
        Option<GovernanceCall>,
        GovernanceError,
    >)
        requires
            old(self).proposal_of(proposal_id) is Some,
            ({
                let p = old(self).proposal_of(proposal_id).unwrap();
                p.is_finalized && !p.is_executed ==> tally_fits(p)
            }),
        ensures
            match execute_error(*old(self), proposal_id) {
                Some(e) => r == Err::<Option<GovernanceCall>, GovernanceError>(e) && *final(self)
                    == *old(self),
                None => {
                    let p = old(self).proposal_of(proposal_id).unwrap();
                    &&& r is Ok
                    &&& (match old(self).pending_of(proposal_id) {
                        None => r == Ok::<Option<GovernanceCall>, GovernanceError>(None),
                        Some(a) => (r matches Ok(Some(c)) && call_for(*old(self), a, c)),
                    })
                    &&& final(self).only_proposal_changed(
                        old(self),
                        proposal_id,
                        ProposalView { is_executed: true, ..p },
                    )
                    &&& forall|i: u64| #[trigger]
                        final(self).pending_of(i) == if i == proposal_id {
                            None
                        } else {
                            old(self).pending_of(i)
                        }
                    &&& final(self).votes == old(self).votes
                },
            },
    {
        self.execute_proposal(proposal_id)
    }

    /// The proposal stored under `proposal_id`.
    pub fn get_proposal(&self, proposal_id: u64) -> (p: Proposal)
        requires
            self.proposal_of(proposal_id) is Some,
        ensures
            Some(p@) == self.proposal_of(proposal_id),
    {
        self.proposals.get(proposal_id).unwrap().copy()
    }

    /// The contract's state commitment: it is never refreshed, so it stays
    /// all-zero.
    pub fn get_state_root(&self) -> (r: [u8; 32])
        ensures
            r@ == Seq::new(32, |i: int| 0u8),
    {
        let zero = [0u8; 32];
        assert(zero@ =~= Seq::new(32, |i: int| 0u8));
        zero
    }

    /// The ids of the proposals open for votes at `now`, in id order.
    pub fn get_active_proposals(&self, now: u64) -> (ids: Vec<u64>)
        ensures
            ids@ == open_ids(*self, now, self.counter as nat),
    {
        let mut ids: Vec<u64> = Vec::new();
        let mut i: u64 = 0;
        while i < self.counter
            invariant
                i <= self.counter,
                ids@ == open_ids(*self, now, i as nat),
            decreases self.counter - i,
        {
            i = i + 1;
            match self.proposals.get(i) {
                Some(p) => {
                    if !p.is_finalized && now <= p.expires_at {
                        ids.push(i);
                    }
                },
                None => {},
            }
        }
        ids
    }

    /// The tallies of a proposal and where it stands at `now`.
    pub fn get_proposal_stats(&self, proposal_id: u64, now: u64) -> (st: ProposalStats)
        requires
            self.proposal_of(proposal_id) is Some,
            i128::MIN <= self.proposal_of(proposal_id).unwrap().yes_votes
                + self.proposal_of(proposal_id).unwrap().no_votes <= i128::MAX,
        ensures
            ({
                let p = self.proposal_of(proposal_id).unwrap();
                &&& st.yes_votes == p.yes_votes
                &&& st.no_votes == p.no_votes
                &&& st.total_votes == p.yes_votes + p.no_votes
                &&& st.status == state_at(p, now)
            }),
    {
        let p = self.proposals.get(proposal_id).unwrap();
        let status = if p.is_executed {
            ProposalState::Executed
        } else if p.is_finalized {
            ProposalState::Finalized
        } else if now > p.expires_at {
            ProposalState::Expired
        } else {
            ProposalState::Active
        };
        ProposalStats {
            yes_votes: p.yes_votes,
            no_votes: p.no_votes,
            total_votes: p.yes_votes + p.no_votes,
            status,
        }
    }

    /// Every id issued so far, `1..=counter`.
    pub fn get_all_proposals(&self) -> (ids: Vec<u64>)
        ensures
            ids@.len() == self.counter,
            forall|k: int| 0 <= k < ids@.len() ==> #[trigger] ids@[k] == k + 1,
    {
        let mut ids: Vec<u64> = Vec::new();
        let mut i: u64 = 0;
        while i < self.counter
            invariant
                i <= self.counter,
                ids@.len() == i,
                forall|k: int| 0 <= k < ids@.len() ==> #[trigger] ids@[k] == k + 1,
            decreases self.counter - i,
        {
            i = i + 1;
            ids.push(i);
        }
        ids
    }

    /// The ballot `voter` cast on `proposal_id`.
    pub fn get_vote_record(&self, proposal_id: u64, voter: AccountId) -> (r: Option<VoteRecord>)
        ensures
            r == self.vote_of(proposal_id, voter),
    {
        self.find_vote(proposal_id, &voter)
    }
}

/// A voter's ballot counts once: after it was recorded, another ballot by
/// the same voter on the same proposal is refused at any time.
pub proof fn law_voter_cannot_vote_twice(
    s0: GovernanceContract,
    s1: GovernanceContract,
    voter: AccountId,
    id: u64,
    weight: i128,
    is_yes: bool,
    now: u64,
    later: u64,
)
    requires
        s0.proposal_of(id) is Some,
        vote_error(s0, voter, id, now) is None,
        vote_applied(s0, s1, voter, id, weight, is_yes, now),
    ensures
        vote_error(s1, voter, id, later) is Some,
{
    assert(s1.votes@.drop_last() =~= s0.votes@);
}

/// A proposal is carried out at most once: after a successful execution,
/// executing it again fails with `AlreadyExecuted`.
pub proof fn law_proposal_executes_once(s0: GovernanceContract, s1: GovernanceContract, id: u64)
    requires
        s0.proposal_of(id) is Some,
        execute_error(s0, id) is None,
        s1.only_proposal_changed(&s0, id, ProposalView { is_executed: true, ..s0.proposal_of(id).unwrap() }),
    ensures
        execute_error(s1, id) == Some(GovernanceError::AlreadyExecuted),
{
}

/// The total weight of the recorded ballots on proposal `id` on the yes
/// (`yes`) or no side.
pub open spec fn ballots_sum(votes: Seq<((u64, AccountId), VoteRecord)>, id: u64, yes: bool) -> int
    decreases votes.len(),
{
    if votes.len() == 0 {
        0
    } else {
        let last = votes.last();
        ballots_sum(votes.drop_last(), id, yes) + if last.0.0 == id && last.1.is_yes == yes {
            last.1.weight as int
        } else {
            0
        }
    }
}

/// Each proposal's tallies are the sums of the ballots recorded for it, and
/// no proposal or ballot refers to an id not yet issued.
pub open spec fn tallies_match_ballots(s: GovernanceContract) -> bool {
    &&& forall|id: u64| #[trigger]
        s.proposal_of(id) matches Some(p) ==> p.yes_votes == ballots_sum(s.votes@, id, true)
            && p.no_votes == ballots_sum(s.votes@, id, false)
    &&& forall|id: u64| id > s.counter ==> #[trigger] s.proposal_of(id) is None
    &&& forall|k: int| 0 <= k < s.votes@.len() ==> #[trigger] s.votes@[k].0.0 <= s.counter
}

/// Ballots on ids above `bound` contribute nothing to a sum for such an id.
proof fn lemma_no_ballots_above(votes: Seq<((u64, AccountId), VoteRecord)>, bound: u64, id: u64, yes: bool)
    requires
        id > bound,
        forall|k: int| 0 <= k < votes.len() ==> #[trigger] votes[k].0.0 <= bound,
    ensures
        ballots_sum(votes, id, yes) == 0,
    decreases votes.len(),
{
    if votes.len() > 0 {
        assert(votes.last() == votes[votes.len() - 1]);
        lemma_no_ballots_above(votes.drop_last(), bound, id, yes);
    }
}

/// Creating proposals, voting, finalising and executing keep every
/// proposal's tallies equal to the sum of the ballots recorded for it.
pub proof fn law_tallies_match_ballots(
    s0: GovernanceContract,
    s1: GovernanceContract,
    created: ProposalView,
    action: Option<GovernanceAction>,
    voter: AccountId,
    id: u64,
    weight: i128,
    is_yes: bool,
    now: u64,
    closed: ProposalView,
)
    requires
        tallies_match_ballots(s0),
        s0.counter < u64::MAX,
        (s1.proposal_added(&s0, created, action) && created.yes_votes == 0 && created.no_votes == 0)
        || (s0.proposal_of(id) is Some && vote_error(s0, voter, id, now) is None
            && ballot_fits(s0.proposal_of(id).unwrap(), weight, is_yes)
            && vote_applied(s0, s1, voter, id, weight, is_yes, now))
        || (s0.proposal_of(id) is Some && s1.only_proposal_changed(&s0, id, closed) && s1.votes == s0.votes
            && closed.yes_votes == s0.proposal_of(id).unwrap().yes_votes
            && closed.no_votes == s0.proposal_of(id).unwrap().no_votes),
    ensures
        tallies_match_ballots(s1),
{
    if s1.proposal_added(&s0, created, action) && created.yes_votes == 0 && created.no_votes == 0 {
        let new_id = (s0.counter + 1) as u64;
        lemma_no_ballots_above(s0.votes@, s0.counter, new_id, true);
        lemma_no_ballots_above(s0.votes@, s0.counter, new_id, false);
        assert forall|i: u64| #[trigger]
            s1.proposal_of(i) matches Some(p) ==> p.yes_votes == ballots_sum(s1.votes@, i, true)
                && p.no_votes == ballots_sum(s1.votes@, i, false) by {
            if i != new_id {
                assert(s1.proposal_of(i) == s0.proposal_of(i));
            }
        }
        assert forall|k: int| 0 <= k < s1.votes@.len() implies #[trigger] s1.votes@[k].0.0 <= s1.counter by {
            assert(s0.votes@[k].0.0 <= s0.counter);
        }
    } else if s0.proposal_of(id) is Some && vote_error(s0, voter, id, now) is None
        && vote_applied(s0, s1, voter, id, weight, is_yes, now) {
        let b = ((id, voter), VoteRecord { voter, weight, is_yes, timestamp: now });
        assert(s1.votes@.drop_last() =~= s0.votes@);
        assert(s1.votes@.last() == b);
        assert(id <= s0.counter);
        assert forall|i: u64| #[trigger]
            s1.proposal_of(i) matches Some(p) ==> p.yes_votes == ballots_sum(s1.votes@, i, true)
                && p.no_votes == ballots_sum(s1.votes@, i, false) by {
            assert(s0.proposal_of(i) matches Some(p) ==> p.yes_votes == ballots_sum(s0.votes@, i, true)
                && p.no_votes == ballots_sum(s0.votes@, i, false));
            assert(ballots_sum(s1.votes@, i, true) == ballots_sum(s0.votes@, i, true) + if i == id
                && is_yes {
                weight as int
            } else {
                0
            });
            assert(ballots_sum(s1.votes@, i, false) == ballots_sum(s0.votes@, i, false) + if i == id
                && !is_yes {
                weight as int
            } else {
                0
            });
        }
        assert forall|k: int| 0 <= k < s1.votes@.len() implies #[trigger] s1.votes@[k].0.0 <= s1.counter by {
            if k < s0.votes@.len() {
                assert(s1.votes@[k] == s0.votes@[k]);
            }
        }
        assert forall|i: u64| i > s1.counter implies #[trigger] s1.proposal_of(i) is None by {
            assert(s0.proposal_of(i) is None);
        }
    } else {
        assert forall|i: u64| #[trigger]
            s1.proposal_of(i) matches Some(p) ==> p.yes_votes == ballots_sum(s1.votes@, i, true)
                && p.no_votes == ballots_sum(s1.votes@, i, false) by {
            assert(s0.proposal_of(i) matches Some(p) ==> p.yes_votes == ballots_sum(s0.votes@, i, true)
                && p.no_votes == ballots_sum(s0.votes@, i, false));
        }
        assert forall|i: u64| i > s1.counter implies #[trigger] s1.proposal_of(i) is None by {
            assert(s0.proposal_of(i) is None);
        }
    }
}

/// A fresh contract has no proposal and no ballot, so its tallies match.
pub proof fn law_fresh_governance_tallies_match(s: GovernanceContract)
    requires
        forall|id: u64| s.proposal_of(id).is_none(),
        s.votes@.len() == 0,
    ensures
        tallies_match_ballots(s),
{
}

/// A proposal is reported `Active` exactly when it is open for votes, and an
/// unfinalised, unexecuted proposal past its expiry is reported `Expired`;
/// a proposal reported `Active` never refuses a ballot as out of time.
pub proof fn law_active_means_open_for_votes(s: GovernanceContract, id: u64, now: u64, voter: AccountId)
    requires
        s.proposal_of(id) is Some,
    ensures
        ({
            let p = s.proposal_of(id).unwrap();
            &&& (state_at(p, now) == ProposalState::Active) <==> (!p.is_executed && !p.is_finalized
                && now <= p.expires_at)
            &&& (!p.is_executed && !p.is_finalized && now > p.expires_at) ==> state_at(p, now)
                == ProposalState::Expired
            &&& state_at(p, now) == ProposalState::Active ==> open_for_votes(s, id, now)
            &&& state_at(p, now) == ProposalState::Active ==> vote_error(s, voter, id, now)
                != Some(GovernanceError::VotingPeriodEnded)
        }),
{
}

} // verus!
