//! Token approvals: which contracts are to be approved, for which tokens,
//! and in which order.

use crate::address::Address;
use vstd::prelude::*;

verus! {

/// A contract that is to be allowed to move the wallet's tokens.
#[derive(Clone, Copy, Debug, PartialEq, Eq)]
pub struct ApprovalTarget {
    pub name: &'static str,
    pub address: Address,
}

impl ApprovalTarget {
    /// The target's address is not the zero address.
    pub open spec fn wf(self) -> bool {
        !crate::address::all_zero(self.address@)
    }
}

/// One of the token contracts that hold the settlement currency.
#[derive(Clone, Copy, Debug, PartialEq, Eq)]
pub struct Token {
    pub name: &'static str,
    pub address: Address,
}

/// The bridged settlement token on Polygon, `0x2791..4174`.
pub open spec fn usdc_e() -> Address {
    Address {
        bytes: [
            0x27u8, 0x91u8, 0xbcu8, 0xa1u8, 0xf2u8, 0xdeu8, 0x46u8, 0x61u8, 0xedu8, 0x88u8, 0xa3u8,
            0x0cu8, 0x99u8, 0xa7u8, 0xa9u8, 0x44u8, 0x9au8, 0xa8u8, 0x41u8, 0x74u8,
        ],
    }
}

/// The native settlement token on Polygon, `0x3c49..3359`.
pub open spec fn usdc_native() -> Address {
    Address {
        bytes: [
            0x3cu8, 0x49u8, 0x9cu8, 0x54u8, 0x2cu8, 0xefu8, 0x5eu8, 0x38u8, 0x11u8, 0xe1u8, 0x19u8,
            0x2cu8, 0xe7u8, 0x0du8, 0x8cu8, 0xc0u8, 0x3du8, 0x5cu8, 0x33u8, 0x59u8,
        ],
    }
}

pub fn usdc_e_address() -> (r: Address)
    ensures
        r == usdc_e(),
{
    Address {
        bytes: [
            0x27u8, 0x91u8, 0xbcu8, 0xa1u8, 0xf2u8, 0xdeu8, 0x46u8, 0x61u8, 0xedu8, 0x88u8, 0xa3u8,
            0x0cu8, 0x99u8, 0xa7u8, 0xa9u8, 0x44u8, 0x9au8, 0xa8u8, 0x41u8, 0x74u8,
        ],
    }
}

pub fn usdc_native_address() -> (r: Address)
    ensures
        r == usdc_native(),
{
    Address {
        bytes: [
            0x3cu8, 0x49u8, 0x9cu8, 0x54u8, 0x2cu8, 0xefu8, 0x5eu8, 0x38u8, 0x11u8, 0xe1u8, 0x19u8,
            0x2cu8, 0xe7u8, 0x0du8, 0x8cu8, 0xc0u8, 0x3du8, 0x5cu8, 0x33u8, 0x59u8,
        ],
    }
}

/// The two token contracts of the settlement currency, in the order in
/// which they are queried and approved.
pub open spec fn tokens() -> Seq<Token> {
    seq![
        Token { name: "USDC.e", address: usdc_e() },
        Token { name: "USDC (Native)", address: usdc_native() },
    ]
}

/// The token contracts to query and approve.
pub fn token_list() -> (r: Vec<Token>)
    ensures
        r@ == tokens(),
{
    let mut list: Vec<Token> = Vec::new();
    list.push(Token { name: "USDC.e", address: usdc_e_address() });
    list.push(Token { name: "USDC (Native)", address: usdc_native_address() });
    assert(list@ =~= tokens());
    list
}

/// The contracts of one deployment of the exchange on one chain.
#[derive(Clone, Copy, Debug, PartialEq, Eq)]
pub struct ContractConfig {
    exchange: Address,
    collateral: Address,
    conditional_tokens: Address,
    neg_risk_adapter: Option<Address>,
}

pub struct ContractConfigModel {
    pub exchange: Address,
    pub collateral: Address,
    pub conditional_tokens: Address,
    pub neg_risk_adapter: Option<Address>,
}

impl ContractConfigModel {
    /// No address of the configuration is the zero address.
    pub open spec fn wf(self) -> bool {
        &&& !crate::address::all_zero(self.exchange@)
        &&& !crate::address::all_zero(self.collateral@)
        &&& !crate::address::all_zero(self.conditional_tokens@)
        &&& self.neg_risk_adapter matches Some(a) ==> !crate::address::all_zero(a@)
    }
}

impl View for ContractConfig {
    type V = ContractConfigModel;

    closed spec fn view(&self) -> ContractConfigModel {
        ContractConfigModel {
            exchange: self.exchange,
            collateral: self.collateral,
            conditional_tokens: self.conditional_tokens,
            neg_risk_adapter: self.neg_risk_adapter,
        }
    }
}

impl ContractConfig {
    #[verifier::type_invariant]
    spec fn inv(&self) -> bool {
        self@.wf()
    }

    /// A configuration of these contracts, unless one of them is the zero
    /// address.
    pub fn new(
        exchange: Address,
        collateral: Address,
        conditional_tokens: Address,
        neg_risk_adapter: Option<Address>,
    ) -> (r: Option<ContractConfig>)
        ensures
            r is Some <==> (ContractConfigModel {
                exchange,
                collateral,
                conditional_tokens,
                neg_risk_adapter,
            }).wf(),
            r matches Some(c) ==> c@ == (ContractConfigModel {
                exchange,
                collateral,
                conditional_tokens,
                neg_risk_adapter,
            }),
    {
        if exchange.is_zero() || collateral.is_zero() || conditional_tokens.is_zero() {
            return None;
        }
        match neg_risk_adapter {
            Some(a) => {
                if a.is_zero() {
                    return None;
                }
            },
            None => {},
        }
        Some(ContractConfig { exchange, collateral, conditional_tokens, neg_risk_adapter })
    }

    pub fn exchange(&self) -> (a: Address)
        ensures
            a == self@.exchange,
            self@.wf(),
    {
        proof {
            use_type_invariant(self);
        }
        self.exchange
    }

    pub fn collateral(&self) -> (a: Address)
        ensures
            a == self@.collateral,
            self@.wf(),
    {
        proof {
            use_type_invariant(self);
        }
        self.collateral
    }

    pub fn conditional_tokens(&self) -> (a: Address)
        ensures
            a == self@.conditional_tokens,
            self@.wf(),
    {
        proof {
            use_type_invariant(self);
        }
        self.conditional_tokens
    }

    pub fn neg_risk_adapter(&self) -> (a: Option<Address>)
        ensures
            a == self@.neg_risk_adapter,
            self@.wf(),
    {
        proof {
            use_type_invariant(self);
        }
        self.neg_risk_adapter
    }
}

/// Why an approval run could not go on.
#[derive(Clone, Copy, Debug, PartialEq, Eq)]
pub enum ApprovalError {
    /// The chain has no standard exchange deployment.
    MissingConfig,
    /// The chain has no negative-risk exchange deployment.
    MissingNegRiskConfig,
    /// The reported result does not answer the action that was due.
    UnexpectedEvent,
}

/// The approval targets of a chain, in the order in which they are handled:
/// the exchange, the negative-risk exchange, and the negative-risk adapter
/// where the chain has one.
pub open spec fn approval_targets(
    config: ContractConfigModel,
    neg_risk_config: ContractConfigModel,
) -> Seq<ApprovalTarget> {
    let fixed = seq![
        ApprovalTarget { name: "CTF Exchange", address: config.exchange },
        ApprovalTarget { name: "Neg Risk CTF Exchange", address: neg_risk_config.exchange },
    ];
    match neg_risk_config.neg_risk_adapter {
        Some(adapter) => fixed.push(ApprovalTarget { name: "Neg Risk Adapter", address: adapter }),
        None => fixed,
    }
}

pub open spec fn targets_of(r: Result<Vec<ApprovalTarget>, ApprovalError>) -> Result<
    Seq<ApprovalTarget>,
    ApprovalError,
> {
    match r {
        Ok(v) => Ok(v@),
        Err(e) => Err(e),
    }
}

/// Lists the contracts that need approval, given the chain's standard and
/// negative-risk deployments.
pub fn build_approval_targets(
    config: Option<ContractConfig>,
    neg_risk_config: Option<ContractConfig>,
) -> (r: Result<Vec<ApprovalTarget>, ApprovalError>)
    ensures
        targets_of(r) == match (config, neg_risk_config) {
            (None, _) => Err::<Seq<ApprovalTarget>, ApprovalError>(ApprovalError::MissingConfig),
            (Some(_), None) => Err(ApprovalError::MissingNegRiskConfig),
            (Some(c), Some(n)) => Ok(approval_targets(c@, n@)),
        },
        r matches Ok(targets) ==> forall|i: int|
            0 <= i < targets@.len() ==> (#[trigger] targets@[i]).wf(),
{
    let config = match config {
        Some(c) => c,
        None => {
            return Err(ApprovalError::MissingConfig);
        },
    };
    let neg_risk_config = match neg_risk_config {
        Some(c) => c,
        None => {
            return Err(ApprovalError::MissingNegRiskConfig);
        },
    };
    let mut targets: Vec<ApprovalTarget> = Vec::new();
    targets.push(ApprovalTarget { name: "CTF Exchange", address: config.exchange() });
    targets.push(
        ApprovalTarget { name: "Neg Risk CTF Exchange", address: neg_risk_config.exchange() },
    );
    match neg_risk_config.neg_risk_adapter() {
        Some(adapter) => {
            targets.push(ApprovalTarget { name: "Neg Risk Adapter", address: adapter });
        },
        None => {},
    }
    assert(targets@ =~= approval_targets(config@, neg_risk_config@));
    Ok(targets)
}

/// The target list has three entries where the negative-risk deployment has
/// an adapter and two where it has none, always in the order exchange,
/// negative-risk exchange, adapter, and none of its addresses is zero.
pub proof fn approval_targets_are_ordered_and_non_zero(
    config: ContractConfigModel,
    neg_risk_config: ContractConfigModel,
)
    requires
        config.wf(),
        neg_risk_config.wf(),
    ensures
        ({
            let targets = approval_targets(config, neg_risk_config);
            &&& targets.len() == if neg_risk_config.neg_risk_adapter is Some {
                3nat
            } else {
                2nat
            }
            &&& targets[0].address == config.exchange
            &&& targets[1].address == neg_risk_config.exchange
            &&& neg_risk_config.neg_risk_adapter matches Some(adapter) ==> targets[2].address
                == adapter
            &&& forall|i: int| 0 <= i < targets.len() ==> (#[trigger] targets[i]).wf()
        }),
{
}

} // verus!
