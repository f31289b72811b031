use vstd::prelude::*;

use crate::error::DeployError;
use crate::portal::{settle_deploy, settled_outcome};

verus! {

/// How far a deployment chain has come.
#[derive(Debug, Clone, Copy, PartialEq, Eq, Structural)]
pub enum Stage {
    Pending,
    Created,
    Funded,
    CredentialGranted,
    CodeInstalled,
    Initialized,
    Completed,
    Failed,
}

/// What the ledger holds of the token account that a chain provisions.
#[derive(Debug, Clone, Copy, PartialEq, Eq, Structural)]
pub struct TokenAccount {
    pub exists: bool,
    pub balance: u128,
    pub full_access: bool,
    pub code_installed: bool,
    pub initialized: bool,
}

/// One deployment chain: its stage, what it has done to the ledger so far, and
/// the account name it carries to the completion entry point.
#[derive(Debug, Clone, PartialEq, Eq)]
pub struct Saga {
    pub stage: Stage,
    pub account: TokenAccount,
    pub funding: u128,
    pub ret: String,
}

/// The account before anything was done to it.
pub open spec fn untouched() -> TokenAccount {
    TokenAccount { exists: false, balance: 0, full_access: false, code_installed: false, initialized: false }
}

/// The stage that follows `s` once its pending step settled (or failed).
/// Completed and failed chains do not move.
pub open spec fn next_stage(s: Stage, settled: bool) -> Stage {
    match s {
        Stage::Completed => Stage::Completed,
        Stage::Failed => Stage::Failed,
        Stage::Initialized => Stage::Initialized,
        _ => if !settled {
            Stage::Failed
        } else {
            match s {
                Stage::Pending => Stage::Created,
                Stage::Created => Stage::Funded,
                Stage::Funded => Stage::CredentialGranted,
                Stage::CredentialGranted => Stage::CodeInstalled,
                _ => Stage::Initialized,
            }
        },
    }
}

/// The account after the step pending at stage `s` settled successfully.
pub open spec fn apply_step(a: TokenAccount, s: Stage, funding: u128) -> TokenAccount {
    match s {
        Stage::Pending => TokenAccount { exists: true, ..a },
        Stage::Created => TokenAccount { balance: funding, ..a },
        Stage::Funded => TokenAccount { full_access: true, ..a },
        Stage::CredentialGranted => TokenAccount { code_installed: true, ..a },
        Stage::CodeInstalled => TokenAccount { initialized: true, ..a },
        _ => a,
    }
}

/// Whether a step is still pending at stage `s`.
pub open spec fn in_flight(s: Stage) -> bool {
    !(s is Initialized || s is Completed || s is Failed)
}

impl Saga {
    /// The chain after the settlement of its pending step: on success the step's
    /// effect is recorded, on failure the chain stops and nothing is undone.
    pub open spec fn next(self, settled: bool) -> Saga {
        Saga {
            stage: next_stage(self.stage, settled),
            account: if settled && in_flight(self.stage) {
                apply_step(self.account, self.stage, self.funding)
            } else {
                self.account
            },
            funding: self.funding,
            ret: self.ret,
        }
    }

    /// The chain after one settlement per flag, in order.
    pub open spec fn settle_all(self, flags: Seq<bool>) -> Saga
        decreases flags.len(),
    {
        if flags.len() == 0 {
            self
        } else {
            self.next(flags[0]).settle_all(flags.drop_first())
        }
    }

    /// A chain that carries `ret` and funds the account with `funding`.
    pub fn new(ret: String, funding: u128) -> (r: Saga)
        ensures
            r.stage == Stage::Pending,
            r.account == untouched(),
            r.funding == funding,
            r.ret == ret,
    {
        Saga {
            stage: Stage::Pending,
            account: TokenAccount {
                exists: false,
                balance: 0,
                full_access: false,
                code_installed: false,
                initialized: false,
            },
            funding,
            ret,
        }
    }

    /// Records the settlement of the pending step.
    pub fn settle(&mut self, settled: bool)
        ensures
            *final(self) == old(self).next(settled),
    {
        let pending = !(self.stage == Stage::Initialized || self.stage == Stage::Completed
            || self.stage == Stage::Failed);
        if pending && settled {
            match self.stage {
                Stage::Pending => self.account.exists = true,
                Stage::Created => self.account.balance = self.funding,
                Stage::Funded => self.account.full_access = true,
                Stage::CredentialGranted => self.account.code_installed = true,
                _ => self.account.initialized = true,
            }
        }
        self.stage = match self.stage {
            Stage::Completed => Stage::Completed,
            Stage::Failed => Stage::Failed,
            Stage::Initialized => Stage::Initialized,
            Stage::Pending => if settled { Stage::Created } else { Stage::Failed },
            Stage::Created => if settled { Stage::Funded } else { Stage::Failed },
            Stage::Funded => if settled { Stage::CredentialGranted } else { Stage::Failed },
            Stage::CredentialGranted => if settled { Stage::CodeInstalled } else { Stage::Failed },
            Stage::CodeInstalled => if settled { Stage::Initialized } else { Stage::Failed },
        };
    }

    /// Runs the completion entry point: it succeeds with the carried name when the
    /// initializer settled, and aborts with the bad-deploy diagnostic otherwise.
    /// The ledger effects stay as they are either way.
    pub fn complete(&mut self) -> (r: Result<String, DeployError>)
        ensures
            r == settled_outcome(old(self).stage == Stage::Initialized, old(self).ret),
            final(self).stage == (if old(self).stage == Stage::Initialized {
                Stage::Completed
            } else {
                Stage::Failed
            }),
            final(self).account == old(self).account,
            final(self).funding == old(self).funding,
            final(self).ret == old(self).ret,
    {
        let succeeded = self.stage == Stage::Initialized;
        self.stage = if succeeded { Stage::Completed } else { Stage::Failed };
        settle_deploy(succeeded, self.ret.clone())
    }
}

/// The account after the first `k` steps of a chain settled.
pub open spec fn effects_after(k: nat, funding: u128) -> TokenAccount {
    TokenAccount {
        exists: k >= 1,
        balance: if k >= 2 { funding } else { 0 },
        full_access: k >= 3,
        code_installed: k >= 4,
        initialized: k >= 5,
    }
}

/// The stage of a chain whose first `k` steps settled and none failed.
pub open spec fn stage_after(k: nat) -> Stage {
    if k == 0 {
        Stage::Pending
    } else if k == 1 {
        Stage::Created
    } else if k == 2 {
        Stage::Funded
    } else if k == 3 {
        Stage::CredentialGranted
    } else if k == 4 {
        Stage::CodeInstalled
    } else {
        Stage::Initialized
    }
}

/// How many flags settle before the first failure.
pub open spec fn leading_settled(flags: Seq<bool>) -> nat
    decreases flags.len(),
{
    if flags.len() == 0 || !flags[0] {
        0
    } else {
        1 + leading_settled(flags.drop_first())
    }
}

/// What the completion entry point returns for a chain in this state.
pub open spec fn outcome(s: Saga) -> Result<String, DeployError> {
    settled_outcome(s.stage == Stage::Initialized, s.ret)
}

/// The ledger creates an account only where none of that name exists yet.
pub open spec fn creation_settles(existing: Set<Seq<char>>, name: Seq<char>) -> bool {
    !existing.contains(name)
}

/// A failed chain stays as it is, whatever settles afterwards.
pub proof fn lemma_failed_is_final(s: Saga, flags: Seq<bool>)
    requires
        s.stage == Stage::Failed,
    ensures
        s.settle_all(flags) == s,
    decreases flags.len(),
{
    if flags.len() > 0 {
        lemma_failed_is_final(s.next(flags[0]), flags.drop_first());
    }
}

proof fn lemma_run_from(s: Saga, j: nat, flags: Seq<bool>)
    requires
        j <= 5,
        flags.len() == 5 - j,
        s.stage == stage_after(j),
        s.account == effects_after(j, s.funding),
    ensures
        leading_settled(flags) <= flags.len(),
        s.settle_all(flags).account == effects_after(j + leading_settled(flags), s.funding),
        s.settle_all(flags).stage == (if j + leading_settled(flags) == 5 {
            Stage::Initialized
        } else {
            Stage::Failed
        }),
        s.settle_all(flags).ret == s.ret,
    decreases flags.len(),
{
    if flags.len() > 0 {
        let n = s.next(flags[0]);
        if flags[0] {
            assert(n.account == effects_after(j + 1, s.funding));
            lemma_run_from(n, j + 1, flags.drop_first());
        } else {
            lemma_failed_is_final(n, flags.drop_first());
        }
    }
}

/// A chain of five steps: the first `k` that settle leave their effects on the
/// ledger and none is undone, where `k` counts the steps before the first failure.
/// Only when all five settle is the chain initialized and the completion returns
/// the carried account name; after a failure at any step it returns the
/// bad-deploy abort.
pub proof fn lemma_chain_outcome(s: Saga, flags: Seq<bool>)
    requires
        s.stage == Stage::Pending,
        s.account == untouched(),
        flags.len() == 5,
    ensures
        s.settle_all(flags).account == effects_after(leading_settled(flags), s.funding),
        (forall|i: int| 0 <= i < 5 ==> flags[i]) ==> outcome(s.settle_all(flags)) == Ok::<
            String,
            DeployError,
        >(s.ret),
        (exists|i: int| 0 <= i < 5 && !flags[i]) ==> outcome(s.settle_all(flags)) == Err::<
            String,
            DeployError,
        >(DeployError::BadDeploy),
{
    lemma_run_from(s, 0, flags);
    lemma_all_settled(flags);
}

proof fn lemma_all_settled(flags: Seq<bool>)
    ensures
        leading_settled(flags) == flags.len() <==> (forall|i: int| 0 <= i < flags.len() ==> flags[i]),
    decreases flags.len(),
{
    if flags.len() > 0 {
        lemma_all_settled(flags.drop_first());
        if leading_settled(flags) == flags.len() {
            assert forall|i: int| 0 <= i < flags.len() implies flags[i] by {
                if i > 0 {
                    assert(flags[i] == flags.drop_first()[i - 1]);
                }
            }
        }
        if forall|i: int| 0 <= i < flags.len() ==> flags[i] {
            assert(flags[0]);
            assert forall|i: int| 0 <= i < flags.drop_first().len() implies flags.drop_first()[i] by {
                assert(flags[i + 1]);
            }
        }
    }
}

/// Two chains that derive the same account name, against a ledger where that
/// name is still free: the first account creation settles, the second fails,
/// and the second chain stops there with no effect on the ledger.
pub proof fn lemma_same_name_race(a: Saga, b: Saga, existing: Set<Seq<char>>)
    requires
        a.stage == Stage::Pending,
        b.stage == Stage::Pending,
        a.account == untouched(),
        b.account == untouched(),
        a.ret@ == b.ret@,
        !existing.contains(a.ret@),
    ensures
        ({
            let a1 = a.next(creation_settles(existing, a.ret@));
            let b1 = b.next(creation_settles(existing.insert(a.ret@), b.ret@));
            &&& a1.stage == Stage::Created
            &&& a1.account.exists
            &&& b1.stage == Stage::Failed
            &&& b1.account == untouched()
            &&& forall|flags: Seq<bool>| #[trigger] b1.settle_all(flags) == b1
        }),
{
    let b1 = b.next(creation_settles(existing.insert(a.ret@), b.ret@));
    assert forall|flags: Seq<bool>| #[trigger] b1.settle_all(flags) == b1 by {
        lemma_failed_is_final(b1, flags);
    }
}

} // verus!
