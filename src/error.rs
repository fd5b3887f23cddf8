use vstd::prelude::*;

verus! {

#[derive(Clone, Debug, PartialEq, Eq)]
pub enum ContractError {
    /// A record that the call has to read is not in the store.
    NotFound { key: String },
    Unauthorized { owner: String },
    InvalidContract { contract: String },
    InvalidContractVersion { version: String },
}

} // verus!
