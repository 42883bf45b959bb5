//! The arguments and decisions of the key-adding and token-deploying commands; their key
//! derivation, storage and chain calls stay with the embedding program.
use vstd::prelude::*;

verus! {

/// Add a new Ethereum key under a name.
#[derive(Clone, Debug, Default)]
pub struct AddEthKeyCmd {
    pub args: Vec<String>,
    /// Replace a key that is already stored under the name.
    pub overwrite: bool,
}

impl AddEthKeyCmd {
    /// The key name: the first argument, if any.
    pub fn key_name(&self) -> (r: Option<&String>)
        ensures
            self.args@.len() == 0 ==> r is None,
            self.args@.len() > 0 ==> r == Some(&self.args@[0]),
    {
        if self.args.len() == 0 {
            None
        } else {
            Some(&self.args[0])
        }
    }

    /// Whether a new key may be stored, given whether one already exists under the name.
    pub fn may_store_key(&self, key_exists: bool) -> (r: bool)
        ensures
            r == (!key_exists || self.overwrite),
    {
        !key_exists || self.overwrite
    }
}

/// Deploy the ERC20 representation of a source-chain denomination.
#[derive(Clone, Debug, Default)]
pub struct Erc20 {
    pub args: Vec<String>,
    /// Name of the stored key that pays for the deployment.
    pub ethereum_key: String,
}

impl Erc20 {
    /// The denomination: the first argument, if any.
    pub fn denom(&self) -> (r: Option<&String>)
        ensures
            self.args@.len() == 0 ==> r is None,
            self.args@.len() > 0 ==> r == Some(&self.args@[0]),
    {
        if self.args.len() == 0 {
            None
        } else {
            Some(&self.args[0])
        }
    }

    /// The token's decimals as the contract takes them: a byte, or none when they do not fit.
    pub fn erc20_decimals(decimals: u32) -> (r: Option<u8>)
        ensures
            decimals <= 255 ==> r == Some(decimals as u8),
            decimals > 255 ==> r is None,
    {
        if decimals <= 255 {
            Some(decimals as u8)
        } else {
            None
        }
    }
}

} // verus!
