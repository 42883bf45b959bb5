//! Assembly of the bridge contract's batch submission call.
use vstd::prelude::*;

use crate::types::{
    BatchConfirmResponse, BatchTransaction, EthAddress, EthSignature, TransactionBatch, Uint256,
    Valset, ValsetMember,
};
use crate::valset::{
    addresses_of, latest_confirm, nonzero_members, ordering_outcome, powers_of, stands_for, GravitySignature,
    OrderingError,
};

verus! {

/// The flattened signature columns of a call.
pub struct SigArrays {
    pub v: Vec<u8>,
    pub r: Vec<[u8; 32]>,
    pub s: Vec<[u8; 32]>,
}

/// A fully assembled `submitBatch` call on the bridge contract.
pub struct SubmitBatchCall {
    /// The bridge contract called.
    pub contract: EthAddress,
    /// The calling identity.
    pub from: EthAddress,
    /// Native value sent along; always zero.
    pub value: u64,
    /// Gas limit set on the call; none for a real send, where the node estimates it.
    pub gas_limit: Option<u64>,
    pub current_addresses: Vec<EthAddress>,
    pub current_powers: Vec<u64>,
    pub current_valset_nonce: u64,
    pub v: Vec<u8>,
    pub r: Vec<[u8; 32]>,
    pub s: Vec<[u8; 32]>,
    pub amounts: Vec<Uint256>,
    pub destinations: Vec<EthAddress>,
    pub fees: Vec<Uint256>,
    pub batch_nonce: u64,
    pub token_contract: EthAddress,
    pub batch_timeout: u64,
}

pub open spec fn amounts_of(t: Seq<BatchTransaction>) -> Seq<Uint256> {
    t.map_values(|x: BatchTransaction| x.amount)
}

pub open spec fn destinations_of(t: Seq<BatchTransaction>) -> Seq<EthAddress> {
    t.map_values(|x: BatchTransaction| x.destination)
}

pub open spec fn fees_of(t: Seq<BatchTransaction>) -> Seq<Uint256> {
    t.map_values(|x: BatchTransaction| x.fee)
}

impl SubmitBatchCall {
    /// The signature in position `i` of the three columns.
    pub open spec fn sig_at(&self, i: int) -> EthSignature {
        EthSignature { v: self.v@[i], r: self.r@[i], s: self.s@[i] }
    }

    /// Every argument of the call but its gas limit is the one that `valset`, `batch` and
    /// `confirms` give, sent to `contract` by `from` with no value attached.
    pub open spec fn encodes(
        &self,
        valset: Valset,
        batch: TransactionBatch,
        confirms: Seq<BatchConfirmResponse>,
        contract: EthAddress,
        from: EthAddress,
    ) -> bool {
        let f = nonzero_members(valset.members@);
        &&& self.contract == contract
        &&& self.from == from
        &&& self.value == 0
        &&& self.current_addresses@ == addresses_of(f)
        &&& self.current_powers@ == powers_of(f)
        &&& self.current_valset_nonce == valset.nonce
        &&& self.v@.len() == f.len()
        &&& self.r@.len() == f.len()
        &&& self.s@.len() == f.len()
        &&& forall|i: int|
            0 <= i < f.len() ==> stands_for(#[trigger] self.sig_at(i), confirms, f[i].eth_address@)
        &&& self.amounts@ == amounts_of(batch.transactions@)
        &&& self.destinations@ == destinations_of(batch.transactions@)
        &&& self.fees@ == fees_of(batch.transactions@)
        &&& self.batch_nonce == batch.nonce
        &&& self.token_contract == batch.token_contract
        &&& self.batch_timeout == batch.batch_timeout
    }
}

/// The call used for a dry run and the call sent cannot diverge in encoding: two calls that
/// encode the same validator set, batch, confirmations, contract and sender agree on every
/// argument; only their gas limits may differ.
pub proof fn lemma_estimate_matches_submission(
    c1: SubmitBatchCall,
    c2: SubmitBatchCall,
    valset: Valset,
    batch: TransactionBatch,
    confirms: Seq<BatchConfirmResponse>,
    contract: EthAddress,
    from: EthAddress,
)
    requires
        c1.encodes(valset, batch, confirms, contract, from),
        c2.encodes(valset, batch, confirms, contract, from),
    ensures
        c1.contract == c2.contract,
        c1.from == c2.from,
        c1.value == c2.value,
        c1.current_addresses@ == c2.current_addresses@,
        c1.current_powers@ == c2.current_powers@,
        c1.current_valset_nonce == c2.current_valset_nonce,
        c1.v@ == c2.v@,
        c1.r@ == c2.r@,
        c1.s@ == c2.s@,
        c1.amounts@ == c2.amounts@,
        c1.destinations@ == c2.destinations@,
        c1.fees@ == c2.fees@,
        c1.batch_nonce == c2.batch_nonce,
        c1.token_contract == c2.token_contract,
        c1.batch_timeout == c2.batch_timeout,
{
    let f = nonzero_members(valset.members@);
    assert forall|i: int| 0 <= i < f.len() implies c1.sig_at(i) == c2.sig_at(i) by {
        assert(stands_for(c1.sig_at(i), confirms, f[i].eth_address@));
        assert(stands_for(c2.sig_at(i), confirms, f[i].eth_address@));
        if latest_confirm(confirms, f[i].eth_address@) is None {
            assert(c1.sig_at(i).r@ == c2.sig_at(i).r@);
            assert(c1.sig_at(i).s@ == c2.sig_at(i).s@);
            assert(c1.sig_at(i).r =~= c2.sig_at(i).r);
            assert(c1.sig_at(i).s =~= c2.sig_at(i).s);
        }
    }
    assert forall|i: int| 0 <= i < f.len() implies c1.v@[i] == c2.v@[i] && c1.r@[i] == c2.r@[i]
        && c1.s@[i] == c2.s@[i] by {
        assert(c1.sig_at(i) == c2.sig_at(i));
    }
    assert(c1.v@ =~= c2.v@);
    assert(c1.r@ =~= c2.r@);
    assert(c1.s@ =~= c2.s@);
}

impl TransactionBatch {
    /// The amount, destination and fee columns, in transaction order.
    pub fn get_checkpoint_values(&self) -> (r: (Vec<Uint256>, Vec<EthAddress>, Vec<Uint256>))
        ensures
            r.0@ == amounts_of(self.transactions@),
            r.1@ == destinations_of(self.transactions@),
            r.2@ == fees_of(self.transactions@),
    {
        let mut amounts: Vec<Uint256> = Vec::new();
        let mut destinations: Vec<EthAddress> = Vec::new();
        let mut fees: Vec<Uint256> = Vec::new();
        let mut i: usize = 0;
        while i < self.transactions.len()
            invariant
                i <= self.transactions@.len(),
                amounts@ =~= amounts_of(self.transactions@.subrange(0, i as int)),
                destinations@ =~= destinations_of(self.transactions@.subrange(0, i as int)),
                fees@ =~= fees_of(self.transactions@.subrange(0, i as int)),
            decreases self.transactions@.len() - i,
        {
            let t = self.transactions[i];
            amounts.push(t.amount);
            destinations.push(t.destination);
            fees.push(t.fee);
            i = i + 1;
        }
        assert(self.transactions@.subrange(0, i as int) =~= self.transactions@);
        (amounts, destinations, fees)
    }
}

/// Splits ordered signatures into the `v`, `r` and `s` columns, index-aligned.
pub fn to_arrays(sigs: &Vec<GravitySignature>) -> (r: SigArrays)
    ensures
        r.v@.len() == sigs@.len(),
        r.r@.len() == sigs@.len(),
        r.s@.len() == sigs@.len(),
        forall|i: int|
            0 <= i < sigs@.len() ==> (EthSignature { v: r.v@[i], r: r.r@[i], s: r.s@[i] })
                == #[trigger] sigs@[i].signature,
{
    let mut v: Vec<u8> = Vec::new();
    let mut r: Vec<[u8; 32]> = Vec::new();
    let mut s: Vec<[u8; 32]> = Vec::new();
    let mut i: usize = 0;
    while i < sigs.len()
        invariant
            i <= sigs@.len(),
            v@.len() == i,
            r@.len() == i,
            s@.len() == i,
            forall|k: int|
                0 <= k < i ==> (EthSignature { v: v@[k], r: r@[k], s: s@[k] })
                    == #[trigger] sigs@[k].signature,
        decreases sigs@.len() - i,
    {
        let g = sigs[i];
        v.push(g.signature.v);
        r.push(g.signature.r);
        s.push(g.signature.s);
        i = i + 1;
    }
    SigArrays { v, r, s }
}

/// Assembles the `submitBatch` call for `batch`, signed by `current_valset` through
/// `confirms`, to be sent to `gravity_contract_address` by `from` with no value attached.
pub fn build_submit_batch_contract_call(
    current_valset: &Valset,
    batch: &TransactionBatch,
    confirms: &[BatchConfirmResponse],
    gravity_contract_address: EthAddress,
    from: EthAddress,
) -> (r: Result<SubmitBatchCall, OrderingError>)
    ensures
        match r {
            Ok(call) => {
                &&& ordering_outcome(current_valset.members@, confirms@) is None
                &&& call.encodes(
                    *current_valset,
                    *batch,
                    confirms@,
                    gravity_contract_address,
                    from,
                )
                &&& call.gas_limit is None
            },
            Err(e) => ordering_outcome(current_valset.members@, confirms@) == Some(e),
        },
{
    let (current_addresses, current_powers) = current_valset.filter_empty_addresses();
    let sig_data = match current_valset.order_sigs(confirms) {
        Ok(sigs) => sigs,
        Err(e) => {
            return Err(e);
        },
    };
    let sig_arrays = to_arrays(&sig_data);
    let (amounts, destinations, fees) = batch.get_checkpoint_values();
    let call = SubmitBatchCall {
        contract: gravity_contract_address,
        from,
        value: 0,
        gas_limit: None,
        current_addresses,
        current_powers,
        current_valset_nonce: current_valset.nonce,
        v: sig_arrays.v,
        r: sig_arrays.r,
        s: sig_arrays.s,
        amounts,
        destinations,
        fees,
        batch_nonce: batch.nonce,
        token_contract: batch.token_contract,
        batch_timeout: batch.batch_timeout,
    };
    assert forall|i: int| 0 <= i < nonzero_members(current_valset.members@).len() implies stands_for(
        #[trigger] call.sig_at(i),
        confirms@,
        nonzero_members(current_valset.members@)[i].eth_address@,
    ) by {
        assert(call.sig_at(i) == sig_data@[i].signature);
    }
    Ok(call)
}

/// The same call as `build_submit_batch_contract_call`, with `gas_limit` set so that a
/// dry run does not fail on an unspecified limit.
pub fn build_estimate_call(
    current_valset: &Valset,
    batch: &TransactionBatch,
    confirms: &[BatchConfirmResponse],
    gravity_contract_address: EthAddress,
    from: EthAddress,
    gas_limit: u64,
) -> (r: Result<SubmitBatchCall, OrderingError>)
    ensures
        match r {
            Ok(call) => {
                &&& ordering_outcome(current_valset.members@, confirms@) is None
                &&& call.encodes(
                    *current_valset,
                    *batch,
                    confirms@,
                    gravity_contract_address,
                    from,
                )
                &&& call.gas_limit == Some(gas_limit)
            },
            Err(e) => ordering_outcome(current_valset.members@, confirms@) == Some(e),
        },
{
    match build_submit_batch_contract_call(current_valset, batch, confirms, gravity_contract_address, from) {
        Ok(call) => {
            let ghost sent = call;
            let mut call = call;
            call.gas_limit = Some(gas_limit);
            assert forall|i: int| 0 <= i < nonzero_members(current_valset.members@).len() implies stands_for(
                #[trigger] call.sig_at(i),
                confirms@,
                nonzero_members(current_valset.members@)[i].eth_address@,
            ) by {
                assert(call.sig_at(i) == sent.sig_at(i));
            }
            Ok(call)
        },
        Err(e) => Err(e),
    }
}

} // verus!
