//! The byte layout validators sign over for a batch, and its hash.
use vstd::prelude::*;
use vstd::utf8::encode_utf8;

use crate::types::{BatchTransaction, EthAddress, TransactionBatch};

verus! {

/// The most transactions a batch may hold for its encoding to be addressable.
pub const MAX_BATCH_TRANSACTIONS: usize = 0x100_0000;

pub open spec fn zeros(n: nat) -> Seq<u8> {
    Seq::new(n, |i: int| 0u8)
}

/// `n` as eight big-endian bytes.
pub open spec fn be_bytes_u64(n: u64) -> Seq<u8> {
    seq![
        ((n >> 56u64) & 0xffu64) as u8,
        ((n >> 48u64) & 0xffu64) as u8,
        ((n >> 40u64) & 0xffu64) as u8,
        ((n >> 32u64) & 0xffu64) as u8,
        ((n >> 24u64) & 0xffu64) as u8,
        ((n >> 16u64) & 0xffu64) as u8,
        ((n >> 8u64) & 0xffu64) as u8,
        (n & 0xffu64) as u8,
    ]
}

/// `n` as a 32-byte big-endian word.
pub open spec fn word_u64(n: u64) -> Seq<u8> {
    zeros(24) + be_bytes_u64(n)
}

/// An address as a 32-byte word, left-padded with zeros.
pub open spec fn word_address(a: EthAddress) -> Seq<u8> {
    zeros(12) + a@
}

/// Up to 32 bytes as a word, right-padded with zeros.
pub open spec fn word_padded(b: Seq<u8>) -> Seq<u8> {
    b + zeros((32 - b.len()) as nat)
}

/// The ASCII name of the batch checkpoint method, `transactionBatch`.
pub open spec fn batch_method_name() -> Seq<u8> {
    seq![116u8, 114, 97, 110, 115, 97, 99, 116, 105, 111, 110, 66, 97, 116, 99, 104]
}

/// Which per-transaction value a column of the encoding holds.
#[derive(Clone, Copy, Debug, PartialEq, Eq, Structural)]
pub enum TxField {
    Amount,
    Destination,
    Fee,
}

pub open spec fn field_word(f: TxField, t: BatchTransaction) -> Seq<u8> {
    match f {
        TxField::Amount => t.amount@,
        TxField::Destination => word_address(t.destination),
        TxField::Fee => t.fee@,
    }
}

/// One word per transaction, in order.
pub open spec fn field_words(t: Seq<BatchTransaction>, f: TxField) -> Seq<u8>
    decreases t.len(),
{
    if t.len() == 0 {
        Seq::empty()
    } else {
        field_words(t.drop_last(), f) + field_word(f, t.last())
    }
}

/// The checkpoint layout: the domain id and method name as padded words, three offsets to the
/// transaction columns, the batch nonce, token contract and timeout, then the amount,
/// destination and fee columns, each preceded by its length.
pub open spec fn checkpoint_encoding(domain: Seq<u8>, b: TransactionBatch) -> Seq<u8> {
    let t = b.transactions@;
    let n = t.len();
    word_padded(domain) + word_padded(batch_method_name()) + word_u64(256) + word_u64(
        (256 + 32 * (n + 1)) as u64,
    ) + word_u64((256 + 64 * (n + 1)) as u64) + word_u64(b.nonce) + word_address(b.token_contract)
        + word_u64(b.batch_timeout) + word_u64(n as u64) + field_words(t, TxField::Amount)
        + word_u64(n as u64) + field_words(t, TxField::Destination) + word_u64(n as u64)
        + field_words(t, TxField::Fee)
}

proof fn lemma_split_concat(a: Seq<u8>, b: Seq<u8>, c: Seq<u8>, d: Seq<u8>)
    requires
        a + b == c + d,
        b.len() == d.len(),
    ensures
        a == c,
        b == d,
{
    assert(a =~= (a + b).subrange(0, a.len() as int));
    assert(c =~= (c + d).subrange(0, c.len() as int));
    assert(b =~= (a + b).subrange(a.len() as int, (a + b).len() as int));
    assert(d =~= (c + d).subrange(c.len() as int, (c + d).len() as int));
}

proof fn lemma_word_u64_injective(x: u64, y: u64)
    requires
        word_u64(x) == word_u64(y),
    ensures
        x == y,
{
    let (a, b) = (word_u64(x), word_u64(y));
    assert(a[24] == b[24] && a[25] == b[25] && a[26] == b[26] && a[27] == b[27]);
    assert(a[28] == b[28] && a[29] == b[29] && a[30] == b[30] && a[31] == b[31]);
    assert(((x >> 56u64) & 0xffu64) as u8 == ((y >> 56u64) & 0xffu64) as u8 && ((x >> 48u64)
        & 0xffu64) as u8 == ((y >> 48u64) & 0xffu64) as u8 && ((x >> 40u64) & 0xffu64) as u8 == ((
    y >> 40u64) & 0xffu64) as u8 && ((x >> 32u64) & 0xffu64) as u8 == ((y >> 32u64) & 0xffu64) as u8
        && ((x >> 24u64) & 0xffu64) as u8 == ((y >> 24u64) & 0xffu64) as u8 && ((x >> 16u64)
        & 0xffu64) as u8 == ((y >> 16u64) & 0xffu64) as u8 && ((x >> 8u64) & 0xffu64) as u8 == ((y
        >> 8u64) & 0xffu64) as u8 && (x & 0xffu64) as u8 == (y & 0xffu64) as u8 ==> x == y)
        by (bit_vector);
}

proof fn lemma_word_address_injective(a: EthAddress, b: EthAddress)
    requires
        word_address(a) == word_address(b),
    ensures
        a@ == b@,
{
    lemma_split_concat(zeros(12), a@, zeros(12), b@);
}

proof fn lemma_field_word_len(f: TxField, t: BatchTransaction)
    ensures
        field_word(f, t).len() == 32,
{
}

/// The words of two equally long transaction lists are equal only if each transaction's
/// words are.
proof fn lemma_field_words_injective(t1: Seq<BatchTransaction>, t2: Seq<BatchTransaction>, f: TxField)
    requires
        t1.len() == t2.len(),
        field_words(t1, f) == field_words(t2, f),
    ensures
        forall|i: int| 0 <= i < t1.len() ==> field_word(f, #[trigger] t1[i]) == field_word(f, t2[i]),
    decreases t1.len(),
{
    if t1.len() > 0 {
        lemma_field_word_len(f, t1.last());
        lemma_field_word_len(f, t2.last());
        lemma_split_concat(
            field_words(t1.drop_last(), f),
            field_word(f, t1.last()),
            field_words(t2.drop_last(), f),
            field_word(f, t2.last()),
        );
        lemma_field_words_injective(t1.drop_last(), t2.drop_last(), f);
        assert forall|i: int| 0 <= i < t1.len() implies field_word(f, #[trigger] t1[i]) == field_word(
            f,
            t2[i],
        ) by {
            if i < t1.len() - 1 {
                assert(t1.drop_last()[i] == t1[i]);
                assert(t2.drop_last()[i] == t2[i]);
            }
        }
    }
}

proof fn lemma_field_words_len(t: Seq<BatchTransaction>, f: TxField)
    ensures
        field_words(t, f).len() == 32 * t.len(),
    decreases t.len(),
{
    if t.len() > 0 {
        lemma_field_words_len(t.drop_last(), f);
        lemma_field_word_len(f, t.last());
    }
}

/// The checkpoint layout determines the batch: two batches with the same layout under one
/// domain id have the same nonce, timeout, token contract and transactions, so changing any
/// of these (one transaction's amount, the nonce, the timeout) changes the bytes hashed.
pub proof fn lemma_checkpoint_encoding_injective(
    domain: Seq<u8>,
    b1: TransactionBatch,
    b2: TransactionBatch,
)
    requires
        domain.len() <= 32,
        checkpoint_encoding(domain, b1) == checkpoint_encoding(domain, b2),
    ensures
        b1.nonce == b2.nonce,
        b1.batch_timeout == b2.batch_timeout,
        b1.token_contract@ == b2.token_contract@,
        b1.transactions@.len() == b2.transactions@.len(),
        forall|i: int|
            0 <= i < b1.transactions@.len() ==> {
                &&& (#[trigger] b1.transactions@[i]).amount@ == b2.transactions@[i].amount@
                &&& b1.transactions@[i].destination@ == b2.transactions@[i].destination@
                &&& b1.transactions@[i].fee@ == b2.transactions@[i].fee@
            },
{
    let (t1, t2) = (b1.transactions@, b2.transactions@);
    let (n1, n2) = (t1.len(), t2.len());
    lemma_field_words_len(t1, TxField::Amount);
    lemma_field_words_len(t1, TxField::Destination);
    lemma_field_words_len(t1, TxField::Fee);
    lemma_field_words_len(t2, TxField::Amount);
    lemma_field_words_len(t2, TxField::Destination);
    lemma_field_words_len(t2, TxField::Fee);
    assert(word_padded(domain).len() == 32);
    assert(word_padded(batch_method_name()).len() == 32);
    assert(forall|x: u64| #[trigger] word_u64(x).len() == 32);
    assert(word_address(b1.token_contract).len() == 32);
    assert(word_address(b2.token_contract).len() == 32);
    assert(checkpoint_encoding(domain, b1).len() == 352 + 96 * n1);
    assert(checkpoint_encoding(domain, b2).len() == 352 + 96 * n2);
    assert(n1 == n2);
    let w1 = word_padded(domain) + word_padded(batch_method_name()) + word_u64(256) + word_u64(
        (256 + 32 * (n1 + 1)) as u64,
    ) + word_u64((256 + 64 * (n1 + 1)) as u64) + word_u64(b1.nonce);
    let w2 = word_padded(domain) + word_padded(batch_method_name()) + word_u64(256) + word_u64(
        (256 + 32 * (n2 + 1)) as u64,
    ) + word_u64((256 + 64 * (n2 + 1)) as u64) + word_u64(b2.nonce);
    let q1 = w1 + word_address(b1.token_contract) + word_u64(b1.batch_timeout) + word_u64(
        n1 as u64,
    );
    let q2 = w2 + word_address(b2.token_contract) + word_u64(b2.batch_timeout) + word_u64(
        n2 as u64,
    );
    let r1 = q1 + field_words(t1, TxField::Amount) + word_u64(n1 as u64);
    let r2 = q2 + field_words(t2, TxField::Amount) + word_u64(n2 as u64);
    let s1 = r1 + field_words(t1, TxField::Destination) + word_u64(n1 as u64);
    let s2 = r2 + field_words(t2, TxField::Destination) + word_u64(n2 as u64);
    lemma_split_concat(s1, field_words(t1, TxField::Fee), s2, field_words(t2, TxField::Fee));
    lemma_split_concat(
        r1 + field_words(t1, TxField::Destination),
        word_u64(n1 as u64),
        r2 + field_words(t2, TxField::Destination),
        word_u64(n2 as u64),
    );
    lemma_split_concat(r1, field_words(t1, TxField::Destination), r2, field_words(t2, TxField::Destination));
    lemma_split_concat(
        q1 + field_words(t1, TxField::Amount),
        word_u64(n1 as u64),
        q2 + field_words(t2, TxField::Amount),
        word_u64(n2 as u64),
    );
    lemma_split_concat(q1, field_words(t1, TxField::Amount), q2, field_words(t2, TxField::Amount));
    lemma_split_concat(
        w1 + word_address(b1.token_contract) + word_u64(b1.batch_timeout),
        word_u64(n1 as u64),
        w2 + word_address(b2.token_contract) + word_u64(b2.batch_timeout),
        word_u64(n2 as u64),
    );
    lemma_split_concat(
        w1 + word_address(b1.token_contract),
        word_u64(b1.batch_timeout),
        w2 + word_address(b2.token_contract),
        word_u64(b2.batch_timeout),
    );
    lemma_split_concat(w1, word_address(b1.token_contract), w2, word_address(b2.token_contract));
    lemma_split_concat(
        word_padded(domain) + word_padded(batch_method_name()) + word_u64(256) + word_u64(
            (256 + 32 * (n1 + 1)) as u64,
        ) + word_u64((256 + 64 * (n1 + 1)) as u64),
        word_u64(b1.nonce),
        word_padded(domain) + word_padded(batch_method_name()) + word_u64(256) + word_u64(
            (256 + 32 * (n2 + 1)) as u64,
        ) + word_u64((256 + 64 * (n2 + 1)) as u64),
        word_u64(b2.nonce),
    );
    lemma_word_u64_injective(b1.nonce, b2.nonce);
    lemma_word_u64_injective(b1.batch_timeout, b2.batch_timeout);
    lemma_word_address_injective(b1.token_contract, b2.token_contract);
    lemma_field_words_injective(t1, t2, TxField::Amount);
    lemma_field_words_injective(t1, t2, TxField::Destination);
    lemma_field_words_injective(t1, t2, TxField::Fee);
    assert forall|i: int| 0 <= i < n1 implies {
        &&& (#[trigger] t1[i]).amount@ == t2[i].amount@
        &&& t1[i].destination@ == t2[i].destination@
        &&& t1[i].fee@ == t2[i].fee@
    } by {
        assert(field_word(TxField::Amount, t1[i]) == field_word(TxField::Amount, t2[i]));
        assert(field_word(TxField::Fee, t1[i]) == field_word(TxField::Fee, t2[i]));
        assert(field_word(TxField::Destination, t1[i]) == field_word(TxField::Destination, t2[i]));
        lemma_word_address_injective(t1[i].destination, t2[i].destination);
    }
}

/// The digest that `ethers::utils::keccak256` computes of a byte string.
pub uninterp spec fn keccak256_of(data: Seq<u8>) -> Seq<u8>;

/// Relies on `ethers::utils::keccak256`: the Keccak-256 digest of the bytes.
#[verifier::external_body]
fn keccak256(data: &Vec<u8>) -> (r: [u8; 32])
    ensures
        r@ == keccak256_of(data@),
{
    ethers::utils::keccak256(data.as_slice())
}

fn push_bytes(buf: &mut Vec<u8>, src: &[u8])
    ensures
        final(buf)@ == old(buf)@ + src@,
{
    let mut i: usize = 0;
    while i < src.len()
        invariant
            i <= src@.len(),
            buf@ == old(buf)@ + src@.subrange(0, i as int),
        decreases src@.len() - i,
    {
        buf.push(src[i]);
        i = i + 1;
        assert(buf@ =~= old(buf)@ + src@.subrange(0, i as int));
    }
    assert(src@.subrange(0, i as int) =~= src@);
}

fn push_zeros(buf: &mut Vec<u8>, n: usize)
    ensures
        final(buf)@ == old(buf)@ + zeros(n as nat),
{
    let mut i: usize = 0;
    while i < n
        invariant
            i <= n,
            buf@ =~= old(buf)@ + zeros(i as nat),
        decreases n - i,
    {
        buf.push(0u8);
        i = i + 1;
    }
}

fn push_word_u64(buf: &mut Vec<u8>, n: u64)
    ensures
        final(buf)@ == old(buf)@ + word_u64(n),
{
    push_zeros(buf, 24);
    buf.push(((n >> 56u64) & 0xffu64) as u8);
    buf.push(((n >> 48u64) & 0xffu64) as u8);
    buf.push(((n >> 40u64) & 0xffu64) as u8);
    buf.push(((n >> 32u64) & 0xffu64) as u8);
    buf.push(((n >> 24u64) & 0xffu64) as u8);
    buf.push(((n >> 16u64) & 0xffu64) as u8);
    buf.push(((n >> 8u64) & 0xffu64) as u8);
    buf.push((n & 0xffu64) as u8);
    assert(buf@ =~= old(buf)@ + word_u64(n));
}

fn push_word_address(buf: &mut Vec<u8>, a: &EthAddress)
    ensures
        final(buf)@ == old(buf)@ + word_address(*a),
{
    push_zeros(buf, 12);
    push_bytes(buf, a.bytes.as_slice());
    assert(buf@ =~= old(buf)@ + word_address(*a));
}

fn push_word_padded(buf: &mut Vec<u8>, b: &[u8])
    requires
        b@.len() <= 32,
    ensures
        final(buf)@ == old(buf)@ + word_padded(b@),
{
    push_bytes(buf, b);
    push_zeros(buf, 32 - b.len());
    assert(buf@ =~= old(buf)@ + word_padded(b@));
}

fn push_field_words(buf: &mut Vec<u8>, txs: &[BatchTransaction], f: TxField)
    ensures
        final(buf)@ == old(buf)@ + field_words(txs@, f),
{
    let mut i: usize = 0;
    while i < txs.len()
        invariant
            i <= txs@.len(),
            buf@ == old(buf)@ + field_words(txs@.subrange(0, i as int), f),
        decreases txs@.len() - i,
    {
        let t = txs[i];
        match f {
            TxField::Amount => push_bytes(buf, t.amount.as_slice()),
            TxField::Destination => push_word_address(buf, &t.destination),
            TxField::Fee => push_bytes(buf, t.fee.as_slice()),
        }
        assert(txs@.subrange(0, i as int) =~= txs@.subrange(0, i + 1).drop_last());
        i = i + 1;
        assert(buf@ =~= old(buf)@ + field_words(txs@.subrange(0, i as int), f));
    }
    assert(txs@.subrange(0, i as int) =~= txs@);
}

/// Lays out the checkpoint of `batch` under domain id `domain`.
pub fn encode_tx_batch_confirm(domain: &[u8], batch: &TransactionBatch) -> (r: Vec<u8>)
    requires
        domain@.len() <= 32,
        batch.transactions@.len() <= MAX_BATCH_TRANSACTIONS,
    ensures
        r@ == checkpoint_encoding(domain@, *batch),
{
    let n = batch.transactions.len();
    let txs = batch.transactions.as_slice();
    let name: Vec<u8> = vec![116u8, 114, 97, 110, 115, 97, 99, 116, 105, 111, 110, 66, 97, 116, 99, 104];
    assert(name@ =~= batch_method_name());
    let mut buf: Vec<u8> = Vec::new();
    push_word_padded(&mut buf, domain);
    push_word_padded(&mut buf, name.as_slice());
    push_word_u64(&mut buf, 256);
    push_word_u64(&mut buf, (256 + 32 * (n + 1)) as u64);
    push_word_u64(&mut buf, (256 + 64 * (n + 1)) as u64);
    push_word_u64(&mut buf, batch.nonce);
    push_word_address(&mut buf, &batch.token_contract);
    push_word_u64(&mut buf, batch.batch_timeout);
    push_word_u64(&mut buf, n as u64);
    push_field_words(&mut buf, txs, TxField::Amount);
    push_word_u64(&mut buf, n as u64);
    push_field_words(&mut buf, txs, TxField::Destination);
    push_word_u64(&mut buf, n as u64);
    push_field_words(&mut buf, txs, TxField::Fee);
    buf
}

/// The checkpoint hash validators sign for `batch` under the domain id `gravity_id`:
/// the Keccak-256 digest of its layout.
pub fn encode_tx_batch_confirm_hashed(gravity_id: &String, batch: &TransactionBatch) -> (r: [u8; 32])
    requires
        encode_utf8(gravity_id@).len() <= 32,
        batch.transactions@.len() <= MAX_BATCH_TRANSACTIONS,
    ensures
        r@ == keccak256_of(checkpoint_encoding(encode_utf8(gravity_id@), *batch)),
{
    let domain = gravity_id.as_str().as_bytes();
    let encoded = encode_tx_batch_confirm(domain, batch);
    keccak256(&encoded)
}

} // verus!
