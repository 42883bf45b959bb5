//! Filtering and signature ordering over a validator set.
use vstd::prelude::*;

use crate::types::{BatchConfirmResponse, EthAddress, EthSignature, Valset, ValsetMember};

verus! {

/// The members with nonzero power, in their original order.
pub open spec fn nonzero_members(m: Seq<ValsetMember>) -> Seq<ValsetMember>
    decreases m.len(),
{
    if m.len() == 0 {
        Seq::empty()
    } else {
        let rest = nonzero_members(m.drop_last());
        if m.last().power != 0 {
            rest.push(m.last())
        } else {
            rest
        }
    }
}

pub open spec fn addresses_of(f: Seq<ValsetMember>) -> Seq<EthAddress> {
    f.map_values(|v: ValsetMember| v.eth_address)
}

pub open spec fn powers_of(f: Seq<ValsetMember>) -> Seq<u64> {
    f.map_values(|v: ValsetMember| v.power)
}

/// The last confirmation in `c` signed by address `a`, if any.
pub open spec fn latest_confirm(c: Seq<BatchConfirmResponse>, a: Seq<u8>) -> Option<EthSignature>
    decreases c.len(),
{
    if c.len() == 0 {
        None
    } else if c.last().eth_signer@ == a {
        Some(c.last().eth_signature)
    } else {
        latest_confirm(c.drop_last(), a)
    }
}

/// `s` stands for address `a`: it is `a`'s latest confirmation, or the placeholder if none.
pub open spec fn stands_for(s: EthSignature, c: Seq<BatchConfirmResponse>, a: Seq<u8>) -> bool {
    match latest_confirm(c, a) {
        Some(sig) => s == sig,
        None => s.is_placeholder(),
    }
}

pub open spec fn is_member(f: Seq<ValsetMember>, a: Seq<u8>) -> bool {
    exists|k: int| 0 <= k < f.len() && f[k].eth_address@ == a
}

pub open spec fn all_signers_known(f: Seq<ValsetMember>, c: Seq<BatchConfirmResponse>) -> bool {
    forall|j: int| 0 <= j < c.len() ==> is_member(f, #[trigger] c[j].eth_signer@)
}

/// One validator of the filtered set with the signature that stands for it.
#[derive(Clone, Copy, Debug)]
pub struct GravitySignature {
    pub eth_address: EthAddress,
    pub power: u64,
    pub signature: EthSignature,
}

pub open spec fn entry_for(g: GravitySignature, m: ValsetMember, c: Seq<BatchConfirmResponse>) -> bool {
    &&& g.eth_address == m.eth_address
    &&& g.power == m.power
    &&& stands_for(g.signature, c, m.eth_address@)
}

/// `sigs` holds the members of `f`, in order, each with the signature that stands for it.
pub open spec fn aligned_signatures(
    sigs: Seq<GravitySignature>,
    f: Seq<ValsetMember>,
    c: Seq<BatchConfirmResponse>,
) -> bool {
    &&& sigs.len() == f.len()
    &&& forall|i: int| 0 <= i < f.len() ==> entry_for(#[trigger] sigs[i], f[i], c)
}

/// Why a set of confirmations cannot be ordered against a validator set.
#[derive(Clone, Copy, Debug, PartialEq, Eq, Structural)]
pub enum OrderingError {
    /// More confirmations than members with voting power.
    TooManyConfirmations,
    /// A confirmation whose signer has no voting power in the set.
    UnknownSigner,
}

/// Filtering keeps exactly the members with nonzero power, in their original order: its
/// result is the members at a strictly increasing sequence of positions that meets every
/// member with nonzero power, and the address and power columns are index-aligned with it.
pub proof fn lemma_filter_preserves_order(m: Seq<ValsetMember>) -> (idx: Seq<int>)
    ensures
        idx.len() == nonzero_members(m).len(),
        addresses_of(nonzero_members(m)).len() == idx.len(),
        powers_of(nonzero_members(m)).len() == idx.len(),
        forall|k: int|
            0 <= k < idx.len() ==> {
                &&& 0 <= #[trigger] idx[k] < m.len()
                &&& nonzero_members(m)[k] == m[idx[k]]
                &&& addresses_of(nonzero_members(m))[k] == m[idx[k]].eth_address
                &&& powers_of(nonzero_members(m))[k] == m[idx[k]].power
                &&& m[idx[k]].power != 0
            },
        forall|k: int, l: int| 0 <= k < l < idx.len() ==> idx[k] < idx[l],
        forall|j: int|
            0 <= j < m.len() && (#[trigger] m[j]).power != 0 ==> exists|k: int|
                0 <= k < idx.len() && idx[k] == j,
    decreases m.len(),
{
    if m.len() == 0 {
        Seq::empty()
    } else {
        let d = m.drop_last();
        let rest = lemma_filter_preserves_order(d);
        let idx = if m.last().power != 0 {
            rest.push(m.len() - 1)
        } else {
            rest
        };
        assert forall|j: int| 0 <= j < m.len() && (#[trigger] m[j]).power != 0 implies exists|k: int|
            0 <= k < idx.len() && idx[k] == j by {
            if j == m.len() - 1 {
                assert(idx[rest.len() as int] == j);
            } else {
                assert(d[j] == m[j]);
                let k = choose|k: int| 0 <= k < rest.len() && rest[k] == j;
                assert(idx[k] == j);
            }
        }
        assert forall|k: int| 0 <= k < idx.len() implies {
            &&& 0 <= #[trigger] idx[k] < m.len()
            &&& nonzero_members(m)[k] == m[idx[k]]
        } by {
            if k < rest.len() {
                assert(d[rest[k]] == m[rest[k]]);
            }
        }
        idx
    }
}

/// What `latest_confirm` finds: the last confirmation signed by `a`, or none when no
/// confirmation is.
pub proof fn lemma_latest_confirm(c: Seq<BatchConfirmResponse>, a: Seq<u8>)
    ensures
        match latest_confirm(c, a) {
            Some(s) => exists|j: int|
                {
                    &&& 0 <= j < c.len()
                    &&& (#[trigger] c[j]).eth_signer@ == a
                    &&& c[j].eth_signature == s
                    &&& forall|q: int| j < q < c.len() ==> c[q].eth_signer@ != a
                },
            None => forall|j: int| 0 <= j < c.len() ==> (#[trigger] c[j]).eth_signer@ != a,
        },
    decreases c.len(),
{
    if c.len() > 0 {
        let d = c.drop_last();
        lemma_latest_confirm(d, a);
        if c.last().eth_signer@ == a {
            assert(c[c.len() - 1].eth_signer@ == a);
        } else {
            match latest_confirm(d, a) {
                Some(s) => {
                    let j = choose|j: int|
                        {
                            &&& 0 <= j < d.len()
                            &&& (#[trigger] d[j]).eth_signer@ == a
                            &&& d[j].eth_signature == s
                            &&& forall|q: int| j < q < d.len() ==> d[q].eth_signer@ != a
                        };
                    assert(c[j] == d[j]);
                    assert forall|q: int| j < q < c.len() implies c[q].eth_signer@ != a by {
                        if q < d.len() {
                            assert(c[q] == d[q]);
                        }
                    }
                },
                None => {
                    assert forall|j: int| 0 <= j < c.len() implies (#[trigger] c[j]).eth_signer@
                        != a by {
                        if j < d.len() {
                            assert(c[j] == d[j]);
                        }
                    }
                },
            }
        }
    }
}

/// For confirmations no more numerous than the members with power, and all signed by such
/// members, ordering succeeds; then entry `i` of its result carries the address and power
/// at index `i` of the filtered columns, and either the signature of the last confirmation
/// that address signed or, when it signed none, the placeholder.
pub proof fn lemma_order_sigs_aligned(
    valset: Valset,
    confirms: Seq<BatchConfirmResponse>,
    sigs: Seq<GravitySignature>,
)
    requires
        confirms.len() <= nonzero_members(valset.members@).len(),
        all_signers_known(nonzero_members(valset.members@), confirms),
        aligned_signatures(sigs, nonzero_members(valset.members@), confirms),
    ensures
        sigs.len() == addresses_of(nonzero_members(valset.members@)).len(),
        sigs.len() == powers_of(nonzero_members(valset.members@)).len(),
        forall|i: int|
            0 <= i < sigs.len() ==> {
                &&& (#[trigger] sigs[i]).eth_address == addresses_of(
                    nonzero_members(valset.members@),
                )[i]
                &&& sigs[i].power == powers_of(nonzero_members(valset.members@))[i]
                &&& (exists|j: int|
                    0 <= j < confirms.len() && (#[trigger] confirms[j]).eth_signer@
                        == sigs[i].eth_address@ && confirms[j].eth_signature == sigs[i].signature)
                    || (sigs[i].signature.is_placeholder() && forall|j: int|
                    0 <= j < confirms.len() ==> (#[trigger] confirms[j]).eth_signer@
                        != sigs[i].eth_address@)
            },
{
    let f = nonzero_members(valset.members@);
    assert forall|i: int| 0 <= i < sigs.len() implies (exists|j: int|
        0 <= j < confirms.len() && (#[trigger] confirms[j]).eth_signer@ == (
        #[trigger] sigs[i]).eth_address@ && confirms[j].eth_signature == sigs[i].signature) || (
    sigs[i].signature.is_placeholder() && forall|j: int|
        0 <= j < confirms.len() ==> (#[trigger] confirms[j]).eth_signer@
            != sigs[i].eth_address@) by {
        assert(entry_for(sigs[i], f[i], confirms));
        lemma_latest_confirm(confirms, f[i].eth_address@);
    }
}

/// A confirmation signed by an address without voting power in the set makes ordering fail
/// with `UnknownSigner`, whenever the confirmations are not too many.
pub proof fn lemma_unknown_signer_rejected(
    valset: Valset,
    confirms: Seq<BatchConfirmResponse>,
    j: int,
)
    requires
        0 <= j < confirms.len(),
        confirms.len() <= nonzero_members(valset.members@).len(),
        !is_member(nonzero_members(valset.members@), confirms[j].eth_signer@),
    ensures
        !all_signers_known(nonzero_members(valset.members@), confirms),
        ordering_outcome(valset.members@, confirms) == Some(OrderingError::UnknownSigner),
{
}

/// The error `order_sigs` reports for these confirmations, if any.
pub open spec fn ordering_outcome(m: Seq<ValsetMember>, c: Seq<BatchConfirmResponse>) -> Option<
    OrderingError,
> {
    if c.len() > nonzero_members(m).len() {
        Some(OrderingError::TooManyConfirmations)
    } else if !all_signers_known(nonzero_members(m), c) {
        Some(OrderingError::UnknownSigner)
    } else {
        None
    }
}

fn latest_confirm_of(confirms: &[BatchConfirmResponse], a: &EthAddress) -> (r: Option<
    EthSignature,
>)
    ensures
        r == latest_confirm(confirms@, a@),
{
    let mut i: usize = confirms.len();
    assert(confirms@.subrange(0, i as int) =~= confirms@);
    while i > 0
        invariant
            i <= confirms@.len(),
            latest_confirm(confirms@, a@) == latest_confirm(confirms@.subrange(0, i as int), a@),
        decreases i,
    {
        let c = confirms[i - 1];
        assert(confirms@.subrange(0, i - 1) =~= confirms@.subrange(0, i as int).drop_last());
        if c.eth_signer.same_as(a) {
            return Some(c.eth_signature);
        }
        i = i - 1;
    }
    None
}

fn contains_address(f: &Vec<ValsetMember>, a: &EthAddress) -> (r: bool)
    ensures
        r == is_member(f@, a@),
{
    let mut k: usize = 0;
    while k < f.len()
        invariant
            k <= f@.len(),
            forall|q: int| 0 <= q < k ==> f@[q].eth_address@ != a@,
        decreases f@.len() - k,
    {
        if f[k].eth_address.same_as(a) {
            return true;
        }
        k = k + 1;
    }
    false
}

impl Valset {
    /// The members with nonzero power, in order.
    pub fn active_members(&self) -> (r: Vec<ValsetMember>)
        ensures
            r@ == nonzero_members(self.members@),
    {
        let mut out: Vec<ValsetMember> = Vec::new();
        let mut i: usize = 0;
        while i < self.members.len()
            invariant
                i <= self.members@.len(),
                out@ == nonzero_members(self.members@.subrange(0, i as int)),
            decreases self.members@.len() - i,
        {
            let m = self.members[i];
            assert(self.members@.subrange(0, i as int) =~= self.members@.subrange(
                0,
                i + 1,
            ).drop_last());
            if m.power != 0 {
                out.push(m);
            }
            i = i + 1;
        }
        assert(self.members@.subrange(0, i as int) =~= self.members@);
        out
    }

    /// The addresses and powers of the members with nonzero power, index-aligned and in order.
    pub fn filter_empty_addresses(&self) -> (r: (Vec<EthAddress>, Vec<u64>))
        ensures
            r.0@ == addresses_of(nonzero_members(self.members@)),
            r.1@ == powers_of(nonzero_members(self.members@)),
    {
        let active = self.active_members();
        let mut addresses: Vec<EthAddress> = Vec::new();
        let mut powers: Vec<u64> = Vec::new();
        let mut i: usize = 0;
        while i < active.len()
            invariant
                i <= active@.len(),
                addresses@ =~= addresses_of(active@.subrange(0, i as int)),
                powers@ =~= powers_of(active@.subrange(0, i as int)),
            decreases active@.len() - i,
        {
            addresses.push(active[i].eth_address);
            powers.push(active[i].power);
            assert(addresses_of(active@.subrange(0, i + 1)) =~= addresses_of(
                active@.subrange(0, i as int),
            ).push(active@[i as int].eth_address));
            assert(powers_of(active@.subrange(0, i + 1)) =~= powers_of(
                active@.subrange(0, i as int),
            ).push(active@[i as int].power));
            i = i + 1;
        }
        assert(active@.subrange(0, i as int) =~= active@);
        (addresses, powers)
    }

    /// Aligns the confirmations with the members that have voting power: each such member,
    /// in order, gets its latest confirmation's signature or the zero placeholder.
    pub fn order_sigs(&self, confirms: &[BatchConfirmResponse]) -> (r: Result<
        Vec<GravitySignature>,
        OrderingError,
    >)
        ensures
            confirms@.len() > nonzero_members(self.members@).len() ==> r == Err::<
                Vec<GravitySignature>,
                OrderingError,
            >(OrderingError::TooManyConfirmations),
            confirms@.len() <= nonzero_members(self.members@).len() && !all_signers_known(
                nonzero_members(self.members@),
                confirms@,
            ) ==> r == Err::<Vec<GravitySignature>, OrderingError>(OrderingError::UnknownSigner),
            confirms@.len() <= nonzero_members(self.members@).len() && all_signers_known(
                nonzero_members(self.members@),
                confirms@,
            ) ==> (r matches Ok(sigs) && aligned_signatures(
                sigs@,
                nonzero_members(self.members@),
                confirms@,
            )),
    {
        let active = self.active_members();
        if confirms.len() > active.len() {
            return Err(OrderingError::TooManyConfirmations);
        }
        let mut j: usize = 0;
        while j < confirms.len()
            invariant
                j <= confirms@.len(),
                confirms@.len() <= active@.len(),
                active@ == nonzero_members(self.members@),
                forall|q: int| 0 <= q < j ==> is_member(active@, #[trigger] confirms@[q].eth_signer@),
            decreases confirms@.len() - j,
        {
            if !contains_address(&active, &confirms[j].eth_signer) {
                assert(!is_member(active@, confirms@[j as int].eth_signer@));
                return Err(OrderingError::UnknownSigner);
            }
            j = j + 1;
        }
        let mut out: Vec<GravitySignature> = Vec::new();
        let mut i: usize = 0;
        while i < active.len()
            invariant
                i <= active@.len(),
                out@.len() == i,
                forall|k: int| 0 <= k < i ==> entry_for(out@[k], active@[k], confirms@),
            decreases active@.len() - i,
        {
            let m = active[i];
            let signature = match latest_confirm_of(confirms, &m.eth_address) {
                Some(s) => s,
                None => EthSignature::empty(),
            };
            out.push(GravitySignature { eth_address: m.eth_address, power: m.power, signature });
            i = i + 1;
        }
        Ok(out)
    }
}

} // verus!
