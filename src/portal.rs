use vstd::prelude::*;

use crate::error::DeployError;
use crate::metadata::{TokenMetadata, bridge_token_metadata, is_bridge_token_metadata};
use crate::naming::{sub_account, token_account_of, token_name, token_name_of};

verus! {

/// Initial balance for the token account, to cover storage and related costs.
pub const BRIDGE_TOKEN_INIT_BALANCE: u128 = 5_860_000_000_000_000_000_000;

/// Gas ceiling of the token contract's initializer call.
pub const BRIDGE_TOKEN_NEW_GAS: u64 = 100_000_000_000_000;

/// Deposit attached to the initializer call.
pub const NO_DEPOSIT: u128 = 0;

/// What the portal reads from the ledger when a deployment is requested.
#[derive(Debug, Clone, PartialEq, Eq)]
pub struct DeployContext {
    /// The portal's own account, under which the token account is created.
    pub current_account: String,
    pub block_height: u64,
    /// Price of one byte of storage.
    pub storage_byte_cost: u128,
}

/// One step of the deployment chain. Each runs only once its predecessor settled.
#[derive(Debug, Clone, PartialEq, Eq)]
pub enum Step {
    CreateAccount,
    Fund { amount: u128 },
    /// Grant the signer's own key full access to the new account.
    GrantFullAccess,
    InstallCode,
    /// Call the installed contract's initializer.
    Initialize { metadata: TokenMetadata, asset_meta: Vec<u8>, seq_number: u64, gas: u64, deposit: u128 },
    /// Call the portal's completion entry point, carrying `ret`.
    Finish { ret: String },
}

/// The whole deployment chain for one request.
#[derive(Debug, Clone, PartialEq, Eq)]
pub struct DeployPlan {
    /// The account that is created, funded and initialized.
    pub account: String,
    /// The account whose completion entry point ends the chain.
    pub callback_account: String,
    pub steps: Vec<Step>,
}

/// The balance given to the new account for code of `code_len` bytes.
pub open spec fn funding_of(code_len: nat, byte_cost: nat) -> int {
    BRIDGE_TOKEN_INIT_BALANCE + code_len * byte_cost
}

pub open spec fn funding_fits(code_len: nat, byte_cost: nat) -> bool {
    funding_of(code_len, byte_cost) <= u128::MAX
}

/// The balance given to the new account, if it fits in a `u128`.
pub fn funding_amount(code_len: usize, byte_cost: u128) -> (r: Option<u128>)
    ensures
        r == (if funding_fits(code_len as nat, byte_cost as nat) {
            Some(funding_of(code_len as nat, byte_cost as nat) as u128)
        } else {
            None::<u128>
        }),
{
    match (code_len as u128).checked_mul(byte_cost) {
        Some(storage) => BRIDGE_TOKEN_INIT_BALANCE.checked_add(storage),
        None => {
            proof {
                let l = code_len as nat;
                let c = byte_cost as nat;
                assert(l * c > u128::MAX);
                assert(funding_of(l, c) >= l * c);
            }
            None
        },
    }
}

/// `plan` is the chain that deploys the bridge token for `ctx`, with code of
/// `code_len` bytes: create `b<height>.<portal>`, fund it, grant the signer's key,
/// install the code, initialize it, then report to the portal with the account name.
pub open spec fn is_deploy_plan(plan: DeployPlan, ctx: DeployContext, code_len: nat) -> bool {
    let h = ctx.block_height as nat;
    let account = token_account_of(h, ctx.current_account@);
    &&& plan.account@ == account
    &&& plan.callback_account@ == ctx.current_account@
    &&& plan.steps@.len() == 6
    &&& plan.steps@[0] is CreateAccount
    &&& plan.steps@[1] matches Step::Fund { amount } && amount == funding_of(
        code_len,
        ctx.storage_byte_cost as nat,
    )
    &&& plan.steps@[2] is GrantFullAccess
    &&& plan.steps@[3] is InstallCode
    &&& plan.steps@[4] matches Step::Initialize { metadata, asset_meta, seq_number, gas, deposit }
        && is_bridge_token_metadata(metadata, token_name_of(h)) && asset_meta@ == Seq::<u8>::empty()
        && seq_number == ctx.block_height && gas == BRIDGE_TOKEN_NEW_GAS && deposit == NO_DEPOSIT
    &&& plan.steps@[5] matches Step::Finish { ret } && ret@ == account
}

/// The outcome of the completion entry point when its caller is authorized:
/// the carried value if the step before settled, the bad-deploy abort otherwise.
pub open spec fn settled_outcome(succeeded: bool, ret: String) -> Result<String, DeployError> {
    if succeeded {
        Ok(ret)
    } else {
        Err(DeployError::BadDeploy)
    }
}

/// Turns the settlement of the step before the completion into its outcome.
pub fn settle_deploy(succeeded: bool, ret: String) -> (r: Result<String, DeployError>)
    ensures
        r == settled_outcome(succeeded, ret),
{
    if succeeded {
        Ok(ret)
    } else {
        Err(DeployError::BadDeploy)
    }
}

/// The portal that deploys bridge tokens.
#[derive(Debug, Clone, Copy, PartialEq, Eq, Structural)]
pub struct PortalTest {}

impl Default for PortalTest {
    fn default() -> (r: PortalTest)
        ensures
            r == (PortalTest {}),
    {
        PortalTest {}
    }
}

impl PortalTest {
    /// Plans the deployment of a bridge token whose code is `code`.
    pub fn deploy_ft(&mut self, ctx: &DeployContext, code: &[u8]) -> (r: Result<DeployPlan, DeployError>)
        ensures
            *final(self) == *old(self),
            funding_fits(code@.len(), ctx.storage_byte_cost as nat) <==> r is Ok,
            r matches Ok(plan) ==> is_deploy_plan(plan, *ctx, code@.len()),
            r matches Err(e) ==> e == DeployError::FundingOverflow,
    {
        let amount = match funding_amount(code.len(), ctx.storage_byte_cost) {
            Some(a) => a,
            None => return Err(DeployError::FundingOverflow),
        };
        let name = token_name(ctx.block_height);
        let account = sub_account(name.as_str(), ctx.current_account.as_str());
        let metadata = bridge_token_metadata(&name);
        let mut steps: Vec<Step> = Vec::new();
        steps.push(Step::CreateAccount);
        steps.push(Step::Fund { amount });
        steps.push(Step::GrantFullAccess);
        steps.push(Step::InstallCode);
        steps.push(
            Step::Initialize {
                metadata,
                asset_meta: Vec::new(),
                seq_number: ctx.block_height,
                gas: BRIDGE_TOKEN_NEW_GAS,
                deposit: NO_DEPOSIT,
            },
        );
        steps.push(Step::Finish { ret: account.clone() });
        Ok(DeployPlan { account, callback_account: ctx.current_account.clone(), steps })
    }

    /// The completion entry point: only the portal itself may call it, and it
    /// returns the carried account name if the step before it settled.
    pub fn finish_deploy(
        &mut self,
        predecessor: &String,
        current_account: &String,
        succeeded: bool,
        ret: String,
    ) -> (r: Result<String, DeployError>)
        ensures
            *final(self) == *old(self),
            predecessor@ != current_account@ ==> r == Err::<String, DeployError>(DeployError::Unauthorized),
            predecessor@ == current_account@ ==> r == settled_outcome(succeeded, ret),
    {
        if !predecessor.eq(current_account) {
            return Err(DeployError::Unauthorized);
        }
        settle_deploy(succeeded, ret)
    }
}

} // verus!
