//! The approval run as a state machine: check every allowance, grant every
//! approval with a cooldown around each transaction, then check again.
//!
//! A run walks through its stages in one fixed order. At each stage the
//! orchestrator names an [`Action`]; the caller performs it and hands back
//! the matching [`Event`]. A failed query or transaction is filed like a
//! successful one and the run goes on to the next stage.

use crate::address::Address;
use crate::approval::{ApprovalError, ApprovalTarget, Token};
use crate::units::TokenUnits;
use vstd::prelude::*;

verus! {

/// How long a cooldown lasts, in seconds.
pub const COOLDOWN_SECONDS: u64 = 10;

/// The three passes of a run, and its end.
#[derive(Clone, Copy, Debug, PartialEq, Eq, Structural)]
pub enum Phase {
    Checking,
    Approving,
    Verifying,
    Done,
}

/// Where a run stands. `target` and `token` index the run's lists.
#[derive(Clone, Copy, Debug, PartialEq, Eq, Structural)]
pub enum Stage {
    /// Checking: read the allowance of one token for one target.
    CheckAllowance { target: usize, token: usize },
    /// Checking: read whether the target may move all multi-token balances.
    CheckApproval { target: usize },
    /// Approving: wait before the target's first transaction.
    LeadCooldown { target: usize },
    /// Approving: grant the target an unlimited allowance of one token.
    Approve { target: usize, token: usize },
    /// Approving: wait after a token approval.
    TokenCooldown { target: usize, token: usize },
    /// Approving: wait once more before the multi-token approval.
    SettleCooldown { target: usize },
    /// Approving: let the target move all multi-token balances.
    ApproveAll { target: usize },
    /// Approving: wait after the last multi-token approval.
    FinalCooldown,
    /// Verifying: read the allowance again.
    VerifyAllowance { target: usize, token: usize },
    /// Verifying: read the multi-token approval again.
    VerifyApproval { target: usize },
    /// Nothing is left to do.
    Done,
}

impl Stage {
    /// The indices of the stage lie within `targets` targets and `tokens`
    /// tokens.
    pub open spec fn wf(self, targets: nat, tokens: nat) -> bool {
        match self {
            Stage::CheckAllowance { target, token } => target < targets && token < tokens,
            Stage::CheckApproval { target } => target < targets,
            Stage::LeadCooldown { target } => target < targets,
            Stage::Approve { target, token } => target < targets && token < tokens,
            Stage::TokenCooldown { target, token } => target < targets && token < tokens,
            Stage::SettleCooldown { target } => target < targets,
            Stage::ApproveAll { target } => target < targets,
            Stage::FinalCooldown => targets > 0,
            Stage::VerifyAllowance { target, token } => target < targets && token < tokens,
            Stage::VerifyApproval { target } => target < targets,
            Stage::Done => true,
        }
    }

    pub open spec fn phase(self) -> Phase {
        match self {
            Stage::CheckAllowance { .. } | Stage::CheckApproval { .. } => Phase::Checking,
            Stage::LeadCooldown { .. }
            | Stage::Approve { .. }
            | Stage::TokenCooldown { .. }
            | Stage::SettleCooldown { .. }
            | Stage::ApproveAll { .. }
            | Stage::FinalCooldown => Phase::Approving,
            Stage::VerifyAllowance { .. } | Stage::VerifyApproval { .. } => Phase::Verifying,
            Stage::Done => Phase::Done,
        }
    }

    /// The stage is a wait.
    pub open spec fn is_cooldown(self) -> bool {
        self is LeadCooldown || self is TokenCooldown || self is SettleCooldown
            || self is FinalCooldown
    }

    /// The stage submits a transaction.
    pub open spec fn is_submission(self) -> bool {
        self is Approve || self is ApproveAll
    }

    /// The stage reads from the chain.
    pub open spec fn is_query(self) -> bool {
        self is CheckAllowance || self is CheckApproval || self is VerifyAllowance
            || self is VerifyApproval
    }

    /// The first stage of Checking for a target.
    pub open spec fn check_of(target: usize, tokens: nat) -> Stage {
        if tokens > 0 {
            Stage::CheckAllowance { target, token: 0 }
        } else {
            Stage::CheckApproval { target }
        }
    }

    /// The first stage of Verifying for a target.
    pub open spec fn verify_of(target: usize, tokens: nat) -> Stage {
        if tokens > 0 {
            Stage::VerifyAllowance { target, token: 0 }
        } else {
            Stage::VerifyApproval { target }
        }
    }

    /// Where a run begins. A dry run, or one without targets, is over at
    /// once.
    pub open spec fn first(targets: nat, tokens: nat, dry_run: bool) -> Stage {
        if dry_run || targets == 0 {
            Stage::Done
        } else {
            Stage::check_of(0, tokens)
        }
    }

    /// The stage that follows this one.
    pub open spec fn next(self, targets: nat, tokens: nat) -> Stage {
        match self {
            Stage::CheckAllowance { target, token } => {
                if token + 1 < tokens {
                    Stage::CheckAllowance { target, token: (token + 1) as usize }
                } else {
                    Stage::CheckApproval { target }
                }
            },
            Stage::CheckApproval { target } => {
                if target + 1 < targets {
                    Stage::check_of((target + 1) as usize, tokens)
                } else {
                    Stage::LeadCooldown { target: 0 }
                }
            },
            Stage::LeadCooldown { target } => {
                if tokens > 0 {
                    Stage::Approve { target, token: 0 }
                } else {
                    Stage::SettleCooldown { target }
                }
            },
            Stage::Approve { target, token } => Stage::TokenCooldown { target, token },
            Stage::TokenCooldown { target, token } => {
                if token + 1 < tokens {
                    Stage::Approve { target, token: (token + 1) as usize }
                } else {
                    Stage::SettleCooldown { target }
                }
            },
            Stage::SettleCooldown { target } => Stage::ApproveAll { target },
            Stage::ApproveAll { target } => {
                if target + 1 < targets {
                    Stage::LeadCooldown { target: (target + 1) as usize }
                } else {
                    Stage::FinalCooldown
                }
            },
            Stage::FinalCooldown => Stage::verify_of(0, tokens),
            Stage::VerifyAllowance { target, token } => {
                if token + 1 < tokens {
                    Stage::VerifyAllowance { target, token: (token + 1) as usize }
                } else {
                    Stage::VerifyApproval { target }
                }
            },
            Stage::VerifyApproval { target } => {
                if target + 1 < targets {
                    Stage::verify_of((target + 1) as usize, tokens)
                } else {
                    Stage::Done
                }
            },
            Stage::Done => Stage::Done,
        }
    }

    /// The place of the stage in a run over `tokens` tokens: the phase, then
    /// the target, then the step within the target. Later stages have larger
    /// places.
    pub open spec fn place(self, tokens: nat) -> (int, int, int) {
        match self {
            Stage::CheckAllowance { target, token } => (0, target as int, token as int),
            Stage::CheckApproval { target } => (0, target as int, tokens as int),
            Stage::LeadCooldown { target } => (1, target as int, 0),
            Stage::Approve { target, token } => (1, target as int, 2 * token + 1),
            Stage::TokenCooldown { target, token } => (1, target as int, 2 * token + 2),
            Stage::SettleCooldown { target } => (1, target as int, 2 * (tokens as int) + 1),
            Stage::ApproveAll { target } => (1, target as int, 2 * (tokens as int) + 2),
            Stage::FinalCooldown => (2, 0, 0),
            Stage::VerifyAllowance { target, token } => (3, target as int, token as int),
            Stage::VerifyApproval { target } => (3, target as int, tokens as int),
            Stage::Done => (4, 0, 0),
        }
    }
}

/// `a` comes before `b`, comparing first parts first.
pub open spec fn place_before(a: (int, int, int), b: (int, int, int)) -> bool {
    a.0 < b.0 || (a.0 == b.0 && (a.1 < b.1 || (a.1 == b.1 && a.2 < b.2)))
}

/// What the caller is to do next.
#[derive(Clone, Copy, Debug, PartialEq, Eq)]
pub enum Action {
    /// Read how much of `token` the `spender` may move for the owner.
    QueryAllowance { token: Address, spender: Address },
    /// Read whether `operator` may move all balances held in `contract`.
    QueryApprovedForAll { contract: Address, operator: Address },
    /// Let the fixed cooldown pass.
    Cooldown,
    /// Submit an approval of `amount` of `token` to `spender` and wait for
    /// its inclusion.
    Approve { token: Address, spender: Address, amount: TokenUnits },
    /// Submit the approval of `operator` for all balances held in
    /// `contract`, and wait for its inclusion.
    SetApprovalForAll { contract: Address, operator: Address, approved: bool },
}

/// What came of an action.
#[derive(Debug, PartialEq, Eq)]
pub enum Event {
    /// An allowance was read, or the query failed with this detail.
    Allowance(Result<TokenUnits, String>),
    /// An approval-for-all flag was read, or the query failed.
    ApprovedForAll(Result<bool, String>),
    /// A transaction was included under this identifier, or failed.
    Submitted(Result<String, String>),
    /// The cooldown has passed.
    CooledDown,
}

/// What a query returned.
#[derive(Clone, Debug, PartialEq, Eq)]
pub enum ReadingValue {
    Allowance(TokenUnits),
    ApprovedForAll(bool),
    /// The query failed, with this detail.
    Unavailable(String),
}

/// One query of Checking or Verifying. `token` is `None` for the
/// multi-token contract.
#[derive(Clone, Debug, PartialEq, Eq)]
pub struct Reading {
    pub target: usize,
    pub token: Option<usize>,
    pub value: ReadingValue,
}

/// How one approval transaction ended.
#[derive(Clone, Debug, PartialEq, Eq)]
pub enum ApprovalOutcome {
    /// Included, under this transaction identifier.
    Success(String),
    /// Not included, with this detail.
    Failed(String),
}

/// One approval of Approving. `token` is `None` for the multi-token
/// contract.
#[derive(Clone, Debug, PartialEq, Eq)]
pub struct ApprovalRecord {
    pub target: usize,
    pub token: Option<usize>,
    pub outcome: ApprovalOutcome,
}

pub open spec fn allowance_reading(result: Result<TokenUnits, String>) -> ReadingValue {
    match result {
        Ok(amount) => ReadingValue::Allowance(amount),
        Err(detail) => ReadingValue::Unavailable(detail),
    }
}

pub open spec fn approval_reading(result: Result<bool, String>) -> ReadingValue {
    match result {
        Ok(approved) => ReadingValue::ApprovedForAll(approved),
        Err(detail) => ReadingValue::Unavailable(detail),
    }
}

pub open spec fn outcome_of(result: Result<String, String>) -> ApprovalOutcome {
    match result {
        Ok(id) => ApprovalOutcome::Success(id),
        Err(detail) => ApprovalOutcome::Failed(detail),
    }
}

/// The event answers the action that is due at the stage.
pub open spec fn answers(stage: Stage, event: Event) -> bool {
    match stage {
        Stage::CheckAllowance { .. } | Stage::VerifyAllowance { .. } => event is Allowance,
        Stage::CheckApproval { .. } | Stage::VerifyApproval { .. } => event is ApprovedForAll,
        Stage::Approve { .. } | Stage::ApproveAll { .. } => event is Submitted,
        Stage::LeadCooldown { .. }
        | Stage::TokenCooldown { .. }
        | Stage::SettleCooldown { .. }
        | Stage::FinalCooldown => event is CooledDown,
        Stage::Done => false,
    }
}

/// A run as contracts see it.
pub struct RunModel {
    pub targets: Seq<ApprovalTarget>,
    pub tokens: Seq<Token>,
    pub multi_token: Address,
    pub stage: Stage,
    /// The readings of Checking, in the order in which they were taken.
    pub checked: Seq<Reading>,
    /// The approvals of Approving, in the order in which they were made.
    pub outcomes: Seq<ApprovalRecord>,
    /// The readings of Verifying, in the order in which they were taken.
    pub verified: Seq<Reading>,
}

impl RunModel {
    pub open spec fn wf(self) -> bool {
        self.stage.wf(self.targets.len(), self.tokens.len())
    }

    /// The run before its first action.
    pub open spec fn begin(
        targets: Seq<ApprovalTarget>,
        tokens: Seq<Token>,
        multi_token: Address,
        dry_run: bool,
    ) -> RunModel {
        RunModel {
            targets,
            tokens,
            multi_token,
            stage: Stage::first(targets.len(), tokens.len(), dry_run),
            checked: Seq::empty(),
            outcomes: Seq::empty(),
            verified: Seq::empty(),
        }
    }

    /// The action that is due, if the run is not over.
    pub open spec fn action(self) -> Option<Action> {
        match self.stage {
            Stage::CheckAllowance { target, token } | Stage::VerifyAllowance { target, token } => {
                Some(
                    Action::QueryAllowance {
                        token: self.tokens[token as int].address,
                        spender: self.targets[target as int].address,
                    },
                )
            },
            Stage::CheckApproval { target } | Stage::VerifyApproval { target } => Some(
                Action::QueryApprovedForAll {
                    contract: self.multi_token,
                    operator: self.targets[target as int].address,
                },
            ),
            Stage::LeadCooldown { .. }
            | Stage::TokenCooldown { .. }
            | Stage::SettleCooldown { .. }
            | Stage::FinalCooldown => Some(Action::Cooldown),
            Stage::Approve { target, token } => Some(
                Action::Approve {
                    token: self.tokens[token as int].address,
                    spender: self.targets[target as int].address,
                    amount: TokenUnits {
                        limbs: [
                            0xffff_ffff_ffff_ffffu64,
                            0xffff_ffff_ffff_ffffu64,
                            0xffff_ffff_ffff_ffffu64,
                            0xffff_ffff_ffff_ffffu64,
                        ],
                    },
                },
            ),
            Stage::ApproveAll { target } => Some(
                Action::SetApprovalForAll {
                    contract: self.multi_token,
                    operator: self.targets[target as int].address,
                    approved: true,
                },
            ),
            Stage::Done => None,
        }
    }

    /// The run after an event that answers the action due: the result is
    /// filed under the phase it belongs to, success or failure alike, and
    /// the run stands at the next stage.
    pub open spec fn after(self, event: Event) -> RunModel {
        let stage = self.stage.next(self.targets.len(), self.tokens.len());
        match (self.stage, event) {
            (Stage::CheckAllowance { target, token }, Event::Allowance(result)) => RunModel {
                stage,
                checked: self.checked.push(
                    Reading { target, token: Some(token), value: allowance_reading(result) },
                ),
                ..self
            },
            (Stage::CheckApproval { target }, Event::ApprovedForAll(result)) => RunModel {
                stage,
                checked: self.checked.push(
                    Reading { target, token: None, value: approval_reading(result) },
                ),
                ..self
            },
            (Stage::Approve { target, token }, Event::Submitted(result)) => RunModel {
                stage,
                outcomes: self.outcomes.push(
                    ApprovalRecord { target, token: Some(token), outcome: outcome_of(result) },
                ),
                ..self
            },
            (Stage::ApproveAll { target }, Event::Submitted(result)) => RunModel {
                stage,
                outcomes: self.outcomes.push(
                    ApprovalRecord { target, token: None, outcome: outcome_of(result) },
                ),
                ..self
            },
            (Stage::VerifyAllowance { target, token }, Event::Allowance(result)) => RunModel {
                stage,
                verified: self.verified.push(
                    Reading { target, token: Some(token), value: allowance_reading(result) },
                ),
                ..self
            },
            (Stage::VerifyApproval { target }, Event::ApprovedForAll(result)) => RunModel {
                stage,
                verified: self.verified.push(
                    Reading { target, token: None, value: approval_reading(result) },
                ),
                ..self
            },
            _ => RunModel { stage, ..self },
        }
    }
}

/// The lists of a run and the stage it stands at, which stays within them.
struct Cursor {
    targets: Vec<ApprovalTarget>,
    tokens: Vec<Token>,
    multi_token: Address,
    stage: Stage,
}

impl Cursor {
    #[verifier::type_invariant]
    spec fn inv(&self) -> bool {
        self.stage.wf(self.targets@.len(), self.tokens@.len())
    }
}

/// An approval run over a list of targets and a list of tokens.
pub struct Orchestrator {
    cursor: Cursor,
    checked: Vec<Reading>,
    outcomes: Vec<ApprovalRecord>,
    verified: Vec<Reading>,
}

impl View for Orchestrator {
    type V = RunModel;

    closed spec fn view(&self) -> RunModel {
        RunModel {
            targets: self.cursor.targets@,
            tokens: self.cursor.tokens@,
            multi_token: self.cursor.multi_token,
            stage: self.cursor.stage,
            checked: self.checked@,
            outcomes: self.outcomes@,
            verified: self.verified@,
        }
    }
}

impl Orchestrator {
    /// Sets up a run. With `dry_run` the run is over before its first
    /// action, and all it has to show is the target list.
    pub fn new(
        targets: Vec<ApprovalTarget>,
        tokens: Vec<Token>,
        multi_token: Address,
        dry_run: bool,
    ) -> (r: Orchestrator)
        ensures
            r@ == RunModel::begin(targets@, tokens@, multi_token, dry_run),
            r@.wf(),
    {
        let stage = if dry_run || targets.len() == 0 {
            Stage::Done
        } else if tokens.len() > 0 {
            Stage::CheckAllowance { target: 0, token: 0 }
        } else {
            Stage::CheckApproval { target: 0 }
        };
        Orchestrator {
            cursor: Cursor { targets, tokens, multi_token, stage },
            checked: Vec::new(),
            outcomes: Vec::new(),
            verified: Vec::new(),
        }
    }

    pub fn targets(&self) -> (r: &Vec<ApprovalTarget>)
        ensures
            r@ == self@.targets,
    {
        &self.cursor.targets
    }

    pub fn tokens(&self) -> (r: &Vec<Token>)
        ensures
            r@ == self@.tokens,
    {
        &self.cursor.tokens
    }

    pub fn stage(&self) -> (r: Stage)
        ensures
            r == self@.stage,
            self@.wf(),
    {
        proof {
            use_type_invariant(&self.cursor);
        }
        self.cursor.stage
    }

    pub fn phase(&self) -> (r: Phase)
        ensures
            r == self@.stage.phase(),
    {
        match self.cursor.stage {
            Stage::CheckAllowance { .. } | Stage::CheckApproval { .. } => Phase::Checking,
            Stage::LeadCooldown { .. }
            | Stage::Approve { .. }
            | Stage::TokenCooldown { .. }
            | Stage::SettleCooldown { .. }
            | Stage::ApproveAll { .. }
            | Stage::FinalCooldown => Phase::Approving,
            Stage::VerifyAllowance { .. } | Stage::VerifyApproval { .. } => Phase::Verifying,
            Stage::Done => Phase::Done,
        }
    }

    pub fn is_done(&self) -> (r: bool)
        ensures
            r == (self@.stage is Done),
    {
        match self.cursor.stage {
            Stage::Done => true,
            _ => false,
        }
    }

    /// The readings of the Checking phase so far.
    pub fn checked(&self) -> (r: &Vec<Reading>)
        ensures
            r@ == self@.checked,
    {
        &self.checked
    }

    /// The approvals made so far.
    pub fn outcomes(&self) -> (r: &Vec<ApprovalRecord>)
        ensures
            r@ == self@.outcomes,
    {
        &self.outcomes
    }

    /// The readings of the Verifying phase so far.
    pub fn verified(&self) -> (r: &Vec<Reading>)
        ensures
            r@ == self@.verified,
    {
        &self.verified
    }

    /// The action that the caller is to perform now, or `None` when the run
    /// is over.
    pub fn next_action(&self) -> (r: Option<Action>)
        ensures
            r == self@.action(),
            r is None <==> self@.stage is Done,
    {
        proof {
            use_type_invariant(&self.cursor);
        }
        match self.cursor.stage {
            Stage::CheckAllowance { target, token } | Stage::VerifyAllowance { target, token } => {
                Some(
                    Action::QueryAllowance {
                        token: self.cursor.tokens[token].address,
                        spender: self.cursor.targets[target].address,
                    },
                )
            },
            Stage::CheckApproval { target } | Stage::VerifyApproval { target } => Some(
                Action::QueryApprovedForAll {
                    contract: self.cursor.multi_token,
                    operator: self.cursor.targets[target].address,
                },
            ),
            Stage::LeadCooldown { .. }
            | Stage::TokenCooldown { .. }
            | Stage::SettleCooldown { .. }
            | Stage::FinalCooldown => Some(Action::Cooldown),
            Stage::Approve { target, token } => Some(
                Action::Approve {
                    token: self.cursor.tokens[token].address,
                    spender: self.cursor.targets[target].address,
                    amount: TokenUnits::from_limbs(
                        [
                            0xffff_ffff_ffff_ffffu64,
                            0xffff_ffff_ffff_ffffu64,
                            0xffff_ffff_ffff_ffffu64,
                            0xffff_ffff_ffff_ffffu64,
                        ],
                    ),
                },
            ),
            Stage::ApproveAll { target } => Some(
                Action::SetApprovalForAll {
                    contract: self.cursor.multi_token,
                    operator: self.cursor.targets[target].address,
                    approved: true,
                },
            ),
            Stage::Done => None,
        }
    }

    fn following(&self) -> (r: Stage)
        ensures
            r == self@.stage.next(self@.targets.len(), self@.tokens.len()),
            r.wf(self@.targets.len(), self@.tokens.len()),
    {
        proof {
            use_type_invariant(&self.cursor);
        }
        let targets = self.cursor.targets.len();
        let tokens = self.cursor.tokens.len();
        match self.cursor.stage {
            Stage::CheckAllowance { target, token } => {
                if token + 1 < tokens {
                    Stage::CheckAllowance { target, token: token + 1 }
                } else {
                    Stage::CheckApproval { target }
                }
            },
            Stage::CheckApproval { target } => {
                if target + 1 < targets {
                    if tokens > 0 {
                        Stage::CheckAllowance { target: target + 1, token: 0 }
                    } else {
                        Stage::CheckApproval { target: target + 1 }
                    }
                } else {
                    Stage::LeadCooldown { target: 0 }
                }
            },
            Stage::LeadCooldown { target } => {
                if tokens > 0 {
                    Stage::Approve { target, token: 0 }
                } else {
                    Stage::SettleCooldown { target }
                }
            },
            Stage::Approve { target, token } => Stage::TokenCooldown { target, token },
            Stage::TokenCooldown { target, token } => {
                if token + 1 < tokens {
                    Stage::Approve { target, token: token + 1 }
                } else {
                    Stage::SettleCooldown { target }
                }
            },
            Stage::SettleCooldown { target } => Stage::ApproveAll { target },
            Stage::ApproveAll { target } => {
                if target + 1 < targets {
                    Stage::LeadCooldown { target: target + 1 }
                } else {
                    Stage::FinalCooldown
                }
            },
            Stage::FinalCooldown => {
                if tokens > 0 {
                    Stage::VerifyAllowance { target: 0, token: 0 }
                } else {
                    Stage::VerifyApproval { target: 0 }
                }
            },
            Stage::VerifyAllowance { target, token } => {
                if token + 1 < tokens {
                    Stage::VerifyAllowance { target, token: token + 1 }
                } else {
                    Stage::VerifyApproval { target }
                }
            },
            Stage::VerifyApproval { target } => {
                if target + 1 < targets {
                    if tokens > 0 {
                        Stage::VerifyAllowance { target: target + 1, token: 0 }
                    } else {
                        Stage::VerifyApproval { target: target + 1 }
                    }
                } else {
                    Stage::Done
                }
            },
            Stage::Done => Stage::Done,
        }
    }

    /// Files what came of the action that was due and moves to the next
    /// stage. An event of the wrong kind, or any event once the run is over,
    /// is refused and changes nothing.
    pub fn record(&mut self, event: Event) -> (r: Result<(), ApprovalError>)
        ensures
            answers(old(self)@.stage, event) ==> r is Ok && final(self)@ == old(self)@.after(event),
            !answers(old(self)@.stage, event) ==> r == Err::<(), ApprovalError>(
                ApprovalError::UnexpectedEvent,
            ) && final(self)@ == old(self)@,
    {
        let next = self.following();
        match (self.cursor.stage, event) {
            (Stage::CheckAllowance { target, token }, Event::Allowance(result)) => {
                let value = match result {
                    Ok(amount) => ReadingValue::Allowance(amount),
                    Err(detail) => ReadingValue::Unavailable(detail),
                };
                self.checked.push(Reading { target, token: Some(token), value });
            },
            (Stage::CheckApproval { target }, Event::ApprovedForAll(result)) => {
                let value = match result {
                    Ok(approved) => ReadingValue::ApprovedForAll(approved),
                    Err(detail) => ReadingValue::Unavailable(detail),
                };
                self.checked.push(Reading { target, token: None, value });
            },
            (Stage::Approve { target, token }, Event::Submitted(result)) => {
                let outcome = match result {
                    Ok(id) => ApprovalOutcome::Success(id),
                    Err(detail) => ApprovalOutcome::Failed(detail),
                };
                self.outcomes.push(ApprovalRecord { target, token: Some(token), outcome });
            },
            (Stage::ApproveAll { target }, Event::Submitted(result)) => {
                let outcome = match result {
                    Ok(id) => ApprovalOutcome::Success(id),
                    Err(detail) => ApprovalOutcome::Failed(detail),
                };
                self.outcomes.push(ApprovalRecord { target, token: None, outcome });
            },
            (Stage::VerifyAllowance { target, token }, Event::Allowance(result)) => {
                let value = match result {
                    Ok(amount) => ReadingValue::Allowance(amount),
                    Err(detail) => ReadingValue::Unavailable(detail),
                };
                self.verified.push(Reading { target, token: Some(token), value });
            },
            (Stage::VerifyApproval { target }, Event::ApprovedForAll(result)) => {
                let value = match result {
                    Ok(approved) => ReadingValue::ApprovedForAll(approved),
                    Err(detail) => ReadingValue::Unavailable(detail),
                };
                self.verified.push(Reading { target, token: None, value });
            },
            (Stage::LeadCooldown { .. }, Event::CooledDown)
            | (Stage::TokenCooldown { .. }, Event::CooledDown)
            | (Stage::SettleCooldown { .. }, Event::CooledDown)
            | (Stage::FinalCooldown, Event::CooledDown) => {},
            _ => {
                return Err(ApprovalError::UnexpectedEvent);
            },
        }
        self.cursor.stage = next;
        Ok(())
    }
}

/// A dry run is over before its first action: nothing is asked of the
/// chain, and the lists it was given are all it holds.
pub proof fn dry_run_asks_nothing(
    targets: Seq<ApprovalTarget>,
    tokens: Seq<Token>,
    multi_token: Address,
)
    ensures
        RunModel::begin(targets, tokens, multi_token, true).stage is Done,
        RunModel::begin(targets, tokens, multi_token, true).action() is None,
        RunModel::begin(targets, tokens, multi_token, true).targets == targets,
        RunModel::begin(targets, tokens, multi_token, true).outcomes.len() == 0,
{
}

/// A run that is not dry and has a target begins in Checking, with the
/// first target.
pub proof fn run_begins_with_checking(targets: nat, tokens: nat)
    requires
        targets > 0,
    ensures
        Stage::first(targets, tokens, false).phase() == Phase::Checking,
        Stage::first(targets, tokens, false).wf(targets, tokens),
        Stage::first(targets, tokens, false).place(tokens).1 == 0,
{
}

/// Every stage but the last leads to a later one: the phases follow each
/// other as Checking, Approving, Verifying; within a phase the targets come
/// in list order; within a target the steps come in a fixed order. So each
/// phase handles every target before the next phase begins, and a run ends.
pub proof fn stages_advance(stage: Stage, targets: nat, tokens: nat)
    requires
        targets <= usize::MAX,
        tokens <= usize::MAX,
        stage.wf(targets, tokens),
        stage !is Done,
    ensures
        stage.next(targets, tokens).wf(targets, tokens),
        place_before(stage.place(tokens), stage.next(targets, tokens).place(tokens)),
{
}

/// Checking and Verifying only read from the chain; every submission and
/// every cooldown belongs to Approving.
pub proof fn phases_keep_to_their_work(run: RunModel)
    ensures
        run.stage.is_query() <==> (run.stage.phase() == Phase::Checking || run.stage.phase()
            == Phase::Verifying),
        run.stage.is_submission() || run.stage.is_cooldown() <==> run.stage.phase()
            == Phase::Approving,
        run.stage.is_query() <==> (run.action() matches Some(a) && (a is QueryAllowance || a
            is QueryApprovedForAll)),
        run.stage.is_submission() <==> (run.action() matches Some(a) && (a is Approve || a
            is SetApprovalForAll)),
        run.stage.is_cooldown() <==> run.action() == Some(Action::Cooldown),
{
}

/// A transaction is submitted only straight after a cooldown, and a
/// cooldown follows straight after every submission.
pub proof fn submissions_are_fenced_by_cooldowns(stage: Stage, targets: nat, tokens: nat)
    requires
        stage.wf(targets, tokens),
    ensures
        stage.is_submission() ==> stage.next(targets, tokens).is_cooldown(),
        stage.next(targets, tokens).is_submission() ==> stage.is_cooldown(),
{
}

/// Checking and Verifying ask the same questions: for the same target and
/// token the action is the same.
pub proof fn verifying_repeats_checking(run: RunModel, target: usize, token: usize)
    ensures
        (RunModel { stage: Stage::VerifyAllowance { target, token }, ..run }).action() == (RunModel {
            stage: Stage::CheckAllowance { target, token },
            ..run
        }).action(),
        (RunModel { stage: Stage::VerifyApproval { target }, ..run }).action() == (RunModel {
            stage: Stage::CheckApproval { target },
            ..run
        }).action(),
{
}

/// What an action came to has no say in what is done next: after a failure
/// the run stands where it would stand after a success, and the failure is
/// on file.
pub proof fn failure_does_not_change_course(run: RunModel, first: Event, second: Event)
    requires
        answers(run.stage, first),
        answers(run.stage, second),
    ensures
        run.after(first).stage == run.after(second).stage,
        run.after(first).targets == run.targets,
        run.after(first).tokens == run.tokens,
        run.after(first).checked.len() + run.after(first).outcomes.len() + run.after(
            first,
        ).verified.len() == run.checked.len() + run.outcomes.len() + run.verified.len() + (if run.stage.is_cooldown() {
            0int
        } else {
            1int
        }),
{
}

/// How many results a run over `targets` targets and `tokens` tokens has
/// on file when it stands at `stage`: readings of Checking, approvals, and
/// readings of Verifying. Each target accounts for one result per token and
/// one for the multi-token contract.
pub open spec fn filed_before(stage: Stage, targets: nat, tokens: nat) -> (int, int, int) {
    let each: int = tokens as int + 1;
    let all: int = targets as int * each;
    match stage {
        Stage::CheckAllowance { target, token } => (target * each + token, 0, 0),
        Stage::CheckApproval { target } => (target * each + tokens, 0, 0),
        Stage::LeadCooldown { target } => (all, target * each, 0),
        Stage::Approve { target, token } => (all, target * each + token, 0),
        Stage::TokenCooldown { target, token } => (all, target * each + token + 1, 0),
        Stage::SettleCooldown { target } => (all, target * each + tokens, 0),
        Stage::ApproveAll { target } => (all, target * each + tokens, 0),
        Stage::FinalCooldown => (all, all, 0),
        Stage::VerifyAllowance { target, token } => (all, all, target * each + token),
        Stage::VerifyApproval { target } => (all, all, target * each + tokens),
        Stage::Done => (all, all, all),
    }
}

/// The place of a result among those of its phase: targets in list order,
/// and for each target its tokens in list order, then the multi-token
/// contract.
pub open spec fn position_of(target: usize, token: Option<usize>, tokens: nat) -> int {
    target * (tokens + 1) + match token {
        Some(k) => k as int,
        None => tokens as int,
    }
}

impl RunModel {
    /// Every result on file stands at the place of its target and token, so
    /// that the place of a result tells which pair it belongs to.
    pub open spec fn in_order(self) -> bool {
        let tokens = self.tokens.len();
        &&& forall|i: int|
            0 <= i < self.checked.len() ==> position_of(
                (#[trigger] self.checked[i]).target,
                self.checked[i].token,
                tokens,
            ) == i
        &&& forall|i: int|
            0 <= i < self.outcomes.len() ==> position_of(
                (#[trigger] self.outcomes[i]).target,
                self.outcomes[i].token,
                tokens,
            ) == i
        &&& forall|i: int|
            0 <= i < self.verified.len() ==> position_of(
                (#[trigger] self.verified[i]).target,
                self.verified[i].token,
                tokens,
            ) == i
    }

    /// The run has filed nothing.
    pub open spec fn untouched(self) -> bool {
        self.checked.len() == 0 && self.outcomes.len() == 0 && self.verified.len() == 0
    }

    /// The run has on file what its stage calls for: one result for every
    /// query and every submission that came before the stage, and no more.
    /// A run that was over before it began has nothing on file.
    pub open spec fn in_step(self) -> bool {
        let due = filed_before(self.stage, self.targets.len(), self.tokens.len());
        (self.stage is Done && self.untouched()) || (self.checked.len() == due.0
            && self.outcomes.len() == due.1 && self.verified.len() == due.2)
    }
}

/// A run begins in step and stays in step, whatever the events report. So
/// a run that has gone through its stages holds one reading for every
/// target and token from Checking, one approval outcome for every target
/// and token, and one reading for each from Verifying: no failure makes it
/// skip a pair.
pub proof fn runs_file_every_result(run: RunModel, event: Event, dry_run: bool)
    requires
        run.targets.len() <= usize::MAX,
        run.tokens.len() <= usize::MAX,
        run.wf(),
        run.in_step(),
        answers(run.stage, event),
    ensures
        RunModel::begin(run.targets, run.tokens, run.multi_token, dry_run).in_step(),
        RunModel::begin(run.targets, run.tokens, run.multi_token, dry_run).wf(),
        run.after(event).wf(),
        run.after(event).in_step(),
        run.after(event).stage is Done ==> run.after(event).outcomes.len() == run.targets.len() * (
        run.tokens.len() + 1) && run.after(event).checked.len() == run.after(event).outcomes.len()
            && run.after(event).verified.len() == run.after(event).outcomes.len(),
{
    let targets = run.targets.len();
    let tokens = run.tokens.len();
    let each: int = tokens as int + 1;
    stages_advance(run.stage, targets, tokens);
    assert(0 * each == 0) by (nonlinear_arith);
    match run.stage {
        Stage::CheckApproval { target }
        | Stage::ApproveAll { target }
        | Stage::VerifyApproval { target } => {
            assert((target + 1) * each == target * each + each) by (nonlinear_arith);
        },
        _ => {},
    }
}

/// Results are filed in the order of the target list, and within a target
/// in the order of the token list with the multi-token contract last: a run
/// that is in step and in order stays in order, whatever the events report.
pub proof fn results_are_filed_in_order(run: RunModel, event: Event, dry_run: bool)
    requires
        run.wf(),
        run.in_step(),
        run.in_order(),
        answers(run.stage, event),
    ensures
        RunModel::begin(run.targets, run.tokens, run.multi_token, dry_run).in_order(),
        run.after(event).in_order(),
{
    let next = run.after(event);
    let tokens = run.tokens.len();
    assert forall|i: int| 0 <= i < next.checked.len() implies position_of(
        (#[trigger] next.checked[i]).target,
        next.checked[i].token,
        tokens,
    ) == i by {
        if i < run.checked.len() {
            assert(next.checked[i] == run.checked[i]);
        }
    }
    assert forall|i: int| 0 <= i < next.outcomes.len() implies position_of(
        (#[trigger] next.outcomes[i]).target,
        next.outcomes[i].token,
        tokens,
    ) == i by {
        if i < run.outcomes.len() {
            assert(next.outcomes[i] == run.outcomes[i]);
        }
    }
    assert forall|i: int| 0 <= i < next.verified.len() implies position_of(
        (#[trigger] next.verified[i]).target,
        next.verified[i].token,
        tokens,
    ) == i by {
        if i < run.verified.len() {
            assert(next.verified[i] == run.verified[i]);
        }
    }
}

} // verus!
