use vstd::prelude::*;

verus! {

/// Why a deployment, or its completion, did not go through.
#[derive(Debug, Clone, Copy, PartialEq, Eq, Structural)]
pub enum DeployError {
    /// The completion entry point was called by someone other than the portal itself.
    Unauthorized,
    /// The step before the completion did not settle successfully.
    BadDeploy,
    /// The funding of the new account does not fit in a balance.
    FundingOverflow,
}

pub open spec fn error_message(e: DeployError) -> Seq<char> {
    match e {
        DeployError::Unauthorized => "Method finish_deploy is private"@,
        DeployError::BadDeploy => "bad deploy"@,
        DeployError::FundingOverflow => "funding of the token account overflows"@,
    }
}

impl DeployError {
    /// The diagnostic with which the invocation aborts.
    pub fn message(&self) -> (r: String)
        ensures
            r@ == error_message(*self),
    {
        match self {
            DeployError::Unauthorized => String::from_str("Method finish_deploy is private"),
            DeployError::BadDeploy => String::from_str("bad deploy"),
            DeployError::FundingOverflow => String::from_str("funding of the token account overflows"),
        }
    }
}

} // verus!
