//! Value objects handed to the core by its collaborators.
use vstd::prelude::*;

verus! {

/// A 20-byte destination-chain account address.
#[derive(Clone, Copy, Debug)]
pub struct EthAddress {
    pub bytes: [u8; 20],
}

impl View for EthAddress {
    type V = Seq<u8>;

    open spec fn view(&self) -> Seq<u8> {
        self.bytes@
    }
}

impl EthAddress {
    /// Byte-wise comparison of two addresses.
    pub fn same_as(&self, other: &EthAddress) -> (r: bool)
        ensures
            r == (self@ == other@),
            r == (*self == *other),
    {
        let mut i: usize = 0;
        while i < 20
            invariant
                i <= 20,
                forall|k: int| 0 <= k < i ==> self.bytes@[k] == other.bytes@[k],
            decreases 20 - i,
        {
            if self.bytes[i] != other.bytes[i] {
                assert(self@[i as int] != other@[i as int]);
                return false;
            }
            i = i + 1;
        }
        assert(self@ =~= other@);
        assert(self.bytes == other.bytes);
        true
    }
}

/// A recoverable signature `(v, r, s)` over a checkpoint hash.
#[derive(Clone, Copy, Debug)]
pub struct EthSignature {
    pub v: u8,
    pub r: [u8; 32],
    pub s: [u8; 32],
}

impl EthSignature {
    /// All components zero: the placeholder standing for a missing confirmation.
    pub open spec fn is_placeholder(&self) -> bool {
        &&& self.v == 0
        &&& self.r@ == Seq::new(32, |i: int| 0u8)
        &&& self.s@ == Seq::new(32, |i: int| 0u8)
    }

    pub fn empty() -> (r: EthSignature)
        ensures
            r.is_placeholder(),
    {
        let r = EthSignature { v: 0, r: [0u8; 32], s: [0u8; 32] };
        assert(r.r@ =~= Seq::new(32, |i: int| 0u8));
        assert(r.s@ =~= Seq::new(32, |i: int| 0u8));
        r
    }
}

/// One stake-weighted member of a validator set.
#[derive(Clone, Copy, Debug)]
pub struct ValsetMember {
    pub eth_address: EthAddress,
    pub power: u64,
}

/// A versioned, ordered validator set.
#[derive(Clone, Debug)]
pub struct Valset {
    pub nonce: u64,
    pub members: Vec<ValsetMember>,
}

/// A validator's signature over a batch's checkpoint hash.
#[derive(Clone, Copy, Debug)]
pub struct BatchConfirmResponse {
    pub eth_signer: EthAddress,
    pub eth_signature: EthSignature,
}

/// A 256-bit unsigned integer as 32 big-endian bytes.
pub type Uint256 = [u8; 32];

/// One outbound transfer of a batch.
#[derive(Clone, Copy, Debug)]
pub struct BatchTransaction {
    pub destination: EthAddress,
    pub amount: Uint256,
    pub fee: Uint256,
}

/// An ordered bundle of outbound transfers of one token contract.
#[derive(Clone, Debug)]
pub struct TransactionBatch {
    pub token_contract: EthAddress,
    pub nonce: u64,
    pub transactions: Vec<BatchTransaction>,
    pub batch_timeout: u64,
}

/// Estimated cost of a call: gas units and the price per unit at the time.
#[derive(Clone, Copy, Debug)]
pub struct GasCost {
    pub gas: u64,
    pub gas_price: u128,
}

} // verus!
