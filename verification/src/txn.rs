//! Transaction assembly: an append-only builder accumulates instructions in
//! call order; `build` finalizes them into a submission-ready transaction
//! that carries a freshness token and the ordered set of keys that must sign
//! (the fee payer first, then every signer-flagged account key and every
//! additional co-signer, each once, in first-appearance order).

use vstd::prelude::*;
use crate::errors::ClientError;
use crate::keys::{Pubkey, key_eq};
use crate::instruction::{Instruction, InstructionView, AccountMetaView};

verus! {

impl DeepView for Pubkey {
    type V = Seq<u8>;

    open spec fn deep_view(&self) -> Seq<u8> {
        self@
    }
}

/// A freshness token: a recent ledger checkpoint bounding the validity
/// window of a transaction.
pub struct BlockHash {
    pub bytes: Vec<u8>,
}

impl View for BlockHash {
    type V = Seq<u8>;

    open spec fn view(&self) -> Seq<u8> {
        self.bytes@
    }
}

impl BlockHash {
    pub open spec fn wf(&self) -> bool {
        self@.len() == 32
    }

    pub fn new(bytes: Vec<u8>) -> (r: Result<BlockHash, ClientError>)
        ensures
            bytes@.len() == 32 ==> (r matches Ok(h) && h@ == bytes@ && h.wf()),
            bytes@.len() != 32 ==> r == Err::<BlockHash, ClientError>(ClientError::BadKeyLength),
    {
        if bytes.len() == 32 {
            Ok(BlockHash { bytes })
        } else {
            Err(ClientError::BadKeyLength)
        }
    }
}

/// Accumulator `acc` extended with `key`, unless `acc` already holds it.
pub open spec fn insert_key(acc: Seq<Seq<u8>>, key: Seq<u8>) -> Seq<Seq<u8>> {
    if acc.contains(key) {
        acc
    } else {
        acc.push(key)
    }
}

/// Accumulator extended with every signer-flagged key of `metas`, in order.
pub open spec fn collect_meta_signers(acc: Seq<Seq<u8>>, metas: Seq<AccountMetaView>) -> Seq<
    Seq<u8>,
>
    decreases metas.len(),
{
    if metas.len() == 0 {
        acc
    } else {
        let prev = collect_meta_signers(acc, metas.drop_last());
        if metas.last().signer {
            insert_key(prev, metas.last().key)
        } else {
            prev
        }
    }
}

/// Accumulator extended with every signer-flagged key of every instruction,
/// in instruction order.
pub open spec fn collect_ix_signers(acc: Seq<Seq<u8>>, ixs: Seq<InstructionView>) -> Seq<Seq<u8>>
    decreases ixs.len(),
{
    if ixs.len() == 0 {
        acc
    } else {
        collect_meta_signers(collect_ix_signers(acc, ixs.drop_last()), ixs.last().accounts)
    }
}

/// Accumulator extended with each of `keys`, in order.
pub open spec fn collect_keys(acc: Seq<Seq<u8>>, keys: Seq<Seq<u8>>) -> Seq<Seq<u8>>
    decreases keys.len(),
{
    if keys.len() == 0 {
        acc
    } else {
        insert_key(collect_keys(acc, keys.drop_last()), keys.last())
    }
}

/// The ordered signer set of a finalized transaction: the fee payer, then
/// the additional co-signers, then every signer-flagged account key of the
/// instructions, each key once, in first-appearance order.
pub open spec fn spec_required_signers(
    payer: Seq<u8>,
    extras: Seq<Seq<u8>>,
    ixs: Seq<InstructionView>,
) -> Seq<Seq<u8>> {
    collect_ix_signers(collect_keys(seq![payer], extras), ixs)
}

/// The key sequence of an optional co-signer list.
pub open spec fn extras_view(extras: Option<&Vec<Pubkey>>) -> Seq<Seq<u8>> {
    match extras {
        Some(v) => v.deep_view(),
        None => Seq::<Seq<u8>>::empty(),
    }
}

/// Whether `v` holds a key with the bytes of `k`.
pub fn contains_key(v: &Vec<Pubkey>, k: &Pubkey) -> (r: bool)
    ensures
        r == v.deep_view().contains(k@),
{
    let mut i: usize = 0;
    while i < v.len()
        invariant
            i <= v@.len(),
            forall|j: int| 0 <= j < i ==> (#[trigger] v@[j])@ != k@,
        decreases v@.len() - i,
    {
        if key_eq(&v[i], k) {
            proof {
                assert(v.deep_view()[i as int] == k@);
            }
            return true;
        }
        i = i + 1;
    }
    proof {
        assert forall|j: int| 0 <= j < v.deep_view().len() implies #[trigger] v.deep_view()[j]
            != k@ by {
            assert(v.deep_view()[j] == v@[j]@);
        }
    }
    false
}

/// Appends `key` to `acc` unless an equal key is already there.
fn push_unique(acc: &mut Vec<Pubkey>, key: &Pubkey)
    ensures
        final(acc).deep_view() == insert_key(old(acc).deep_view(), key@),
        (forall|j: int| 0 <= j < old(acc)@.len() ==> (#[trigger] old(acc)@[j]).wf()) && key.wf()
            ==> (forall|j: int| 0 <= j < final(acc)@.len() ==> (#[trigger] final(acc)@[j]).wf()),
{
    if !contains_key(acc, key) {
        acc.push(key.clone());
        proof {
            assert(acc.deep_view() =~= old(acc).deep_view().push(key@));
        }
    } else {
        proof {
            assert(acc.deep_view() =~= old(acc).deep_view());
        }
    }
}

/// A scoped, append-only accumulator of instructions. Private to one
/// submission: it carries no cross-call state.
pub struct TxnBuilder {
    pub instructions: Vec<Instruction>,
}

impl View for TxnBuilder {
    type V = Seq<InstructionView>;

    open spec fn view(&self) -> Seq<InstructionView> {
        Seq::new(self.instructions@.len(), |i: int| self.instructions@[i]@)
    }
}

impl TxnBuilder {
    pub open spec fn wf(&self) -> bool {
        forall|i: int| 0 <= i < self.instructions@.len() ==> (#[trigger] self.instructions@[i]).wf()
    }

    /// An empty builder.
    pub fn new() -> (r: TxnBuilder)
        ensures
            r@ == Seq::<InstructionView>::empty(),
            r.wf(),
    {
        let r = TxnBuilder { instructions: Vec::new() };
        proof {
            assert(r@ =~= Seq::<InstructionView>::empty());
        }
        r
    }

    /// Appends one instruction. Instructions execute in exactly the order
    /// they were added; nothing takes effect until `build`.
    pub fn add(&mut self, ix: Instruction)
        ensures
            final(self)@ == old(self)@.push(ix@),
            old(self).wf() && ix.wf() ==> final(self).wf(),
    {
        self.instructions.push(ix);
        proof {
            assert(self@ =~= old(self)@.push(ix@));
        }
    }

    /// Finalizes the accumulated instructions into one transaction with the
    /// given freshness token, the fee payer as primary signer, and any
    /// additional co-signers. A builder holding zero instructions is a
    /// degenerate no-op and is rejected here, before any submission.
    pub fn build(
        self,
        recent_blockhash: BlockHash,
        payer: &Pubkey,
        additional_signers: Option<&Vec<Pubkey>>,
    ) -> (r: Result<Transaction, ClientError>)
        requires
            self.wf(),
            recent_blockhash.wf(),
            payer.wf(),
            (additional_signers matches Some(v) ==> forall|j: int|
                0 <= j < v@.len() ==> (#[trigger] v@[j]).wf()),
        ensures
            self@.len() == 0 <==> r is Err,
            r is Err ==> r == Err::<Transaction, ClientError>(ClientError::EmptyTransaction),
            (r matches Ok(tx) ==> {
                &&& tx@.instructions == self@
                &&& tx@.blockhash == recent_blockhash@
                &&& tx@.signers == spec_required_signers(
                    payer@,
                    extras_view(additional_signers),
                    self@,
                )
                &&& tx.wf()
            }),
    {
        if self.instructions.len() == 0 {
            return Err(ClientError::EmptyTransaction);
        }
        let ghost ixs_view = self@;
        let ghost extras = extras_view(additional_signers);
        let mut signers: Vec<Pubkey> = Vec::new();
        signers.push(payer.clone());
        proof {
            assert(signers.deep_view() =~= seq![payer@]);
        }
        match additional_signers {
            Some(extra) => {
                let mut i: usize = 0;
                while i < extra.len()
                    invariant
                        i <= extra@.len(),
                        signers.deep_view() == collect_keys(
                            seq![payer@],
                            extra.deep_view().take(i as int),
                        ),
                        forall|j: int| 0 <= j < signers@.len() ==> (#[trigger] signers@[j]).wf(),
                        forall|j: int| 0 <= j < extra@.len() ==> (#[trigger] extra@[j]).wf(),
                    decreases extra@.len() - i,
                {
                    push_unique(&mut signers, &extra[i]);
                    proof {
                        assert(extra.deep_view().take(i as int + 1).drop_last() =~= extra
                            .deep_view()
                            .take(i as int));
                        assert(extra.deep_view().take(i as int + 1).last() == extra@[i as int]@);
                    }
                    i = i + 1;
                }
                proof {
                    assert(extra.deep_view().take(extra@.len() as int) =~= extra.deep_view());
                }
            },
            None => {
                proof {
                    assert(collect_keys(seq![payer@], extras) == seq![payer@]);
                }
            },
        }
        let ghost acc_after_extras = signers.deep_view();
        proof {
            assert(acc_after_extras == collect_keys(seq![payer@], extras));
        }
        let mut i: usize = 0;
        while i < self.instructions.len()
            invariant
                i <= self.instructions@.len(),
                ixs_view == Seq::new(
                    self.instructions@.len(),
                    |k: int| self.instructions@[k]@,
                ),
                signers.deep_view() == collect_ix_signers(
                    acc_after_extras,
                    ixs_view.take(i as int),
                ),
                forall|j: int| 0 <= j < signers@.len() ==> (#[trigger] signers@[j]).wf(),
                forall|k: int|
                    0 <= k < self.instructions@.len() ==> (
                    #[trigger] self.instructions@[k]).wf(),
            decreases self.instructions@.len() - i,
        {
            let ghost acc_ix = signers.deep_view();
            let ghost metas = ixs_view[i as int].accounts;
            let ix = &self.instructions[i];
            let mut j: usize = 0;
            while j < ix.accounts.len()
                invariant
                    j <= ix.accounts@.len(),
                    metas == Seq::new(ix.accounts@.len(), |k: int| ix.accounts@[k]@),
                    signers.deep_view() == collect_meta_signers(acc_ix, metas.take(j as int)),
                    forall|k: int| 0 <= k < signers@.len() ==> (#[trigger] signers@[k]).wf(),
                    forall|k: int| 0 <= k < ix.accounts@.len() ==> (
                    #[trigger] ix.accounts@[k]).wf(),
                decreases ix.accounts@.len() - j,
            {
                if ix.accounts[j].is_signer {
                    push_unique(&mut signers, &ix.accounts[j].pubkey);
                }
                proof {
                    assert(metas.take(j as int + 1).drop_last() =~= metas.take(j as int));
                    assert(metas.take(j as int + 1).last() == metas[j as int]);
                }
                j = j + 1;
            }
            proof {
                assert(metas.take(ix.accounts@.len() as int) =~= metas);
                assert(ixs_view.take(i as int + 1).drop_last() =~= ixs_view.take(i as int));
                assert(ixs_view.take(i as int + 1).last() == ixs_view[i as int]);
            }
            i = i + 1;
        }
        proof {
            assert(ixs_view.take(self.instructions@.len() as int) =~= ixs_view);
        }
        let tx = Transaction {
            instructions: self.instructions,
            blockhash: recent_blockhash,
            required_signers: signers,
        };
        proof {
            assert(tx@.instructions =~= ixs_view);
            lemma_payer_first(payer@, extras, ixs_view);
            assert(tx@.signers == spec_required_signers(payer@, extras, ixs_view));
            assert(tx@.signers.len() >= 1);
            assert(tx.required_signers@.len() == tx@.signers.len());
        }
        Ok(tx)
    }
}

/// One sequence is an extension of another: same length or longer, equal on
/// the shorter one's indices.
pub open spec fn extends(a: Seq<Seq<u8>>, b: Seq<Seq<u8>>) -> bool {
    a.len() <= b.len() && forall|k: int| 0 <= k < a.len() ==> a[k] == b[k]
}

proof fn lemma_insert_preserves(acc: Seq<Seq<u8>>, key: Seq<u8>, x: Seq<u8>)
    requires
        acc.contains(x),
    ensures
        insert_key(acc, key).contains(x),
{
    if !acc.contains(key) {
        let i = choose|i: int| 0 <= i < acc.len() && acc[i] == x;
        assert(acc.push(key)[i] == x);
    }
}

proof fn lemma_insert_adds(acc: Seq<Seq<u8>>, key: Seq<u8>)
    ensures
        insert_key(acc, key).contains(key),
{
    if !acc.contains(key) {
        assert(acc.push(key)[acc.len() as int] == key);
    }
}

proof fn lemma_insert_extends(acc: Seq<Seq<u8>>, key: Seq<u8>)
    ensures
        extends(acc, insert_key(acc, key)),
{
}

proof fn lemma_insert_no_dup(acc: Seq<Seq<u8>>, key: Seq<u8>)
    requires
        acc.no_duplicates(),
    ensures
        insert_key(acc, key).no_duplicates(),
{
    if !acc.contains(key) {
        let r = acc.push(key);
        assert forall|i: int, j: int|
            0 <= i < r.len() && 0 <= j < r.len() && i != j implies r[i] != r[j] by {
            if i < acc.len() && j < acc.len() {
                assert(r[i] == acc[i] && r[j] == acc[j]);
            } else if j == acc.len() && i < acc.len() {
                if r[i] == key {
                    assert(acc[i] == key);
                }
            } else if i == acc.len() && j < acc.len() {
                if r[j] == key {
                    assert(acc[j] == key);
                }
            }
        }
    }
}

proof fn lemma_collect_metas_preserves(acc: Seq<Seq<u8>>, metas: Seq<AccountMetaView>, x: Seq<u8>)
    requires
        acc.contains(x),
    ensures
        collect_meta_signers(acc, metas).contains(x),
    decreases metas.len(),
{
    if metas.len() > 0 {
        lemma_collect_metas_preserves(acc, metas.drop_last(), x);
        if metas.last().signer {
            lemma_insert_preserves(
                collect_meta_signers(acc, metas.drop_last()),
                metas.last().key,
                x,
            );
        }
    }
}

proof fn lemma_collect_metas_adds(acc: Seq<Seq<u8>>, metas: Seq<AccountMetaView>, j: int)
    requires
        0 <= j < metas.len(),
        metas[j].signer,
    ensures
        collect_meta_signers(acc, metas).contains(metas[j].key),
    decreases metas.len(),
{
    let prev = collect_meta_signers(acc, metas.drop_last());
    if j == metas.len() - 1 {
        lemma_insert_adds(prev, metas.last().key);
    } else {
        lemma_collect_metas_adds(acc, metas.drop_last(), j);
        if metas.last().signer {
            lemma_insert_preserves(prev, metas.last().key, metas[j].key);
        }
    }
}

proof fn lemma_collect_metas_extends(acc: Seq<Seq<u8>>, metas: Seq<AccountMetaView>)
    ensures
        extends(acc, collect_meta_signers(acc, metas)),
    decreases metas.len(),
{
    if metas.len() > 0 {
        lemma_collect_metas_extends(acc, metas.drop_last());
        if metas.last().signer {
            lemma_insert_extends(collect_meta_signers(acc, metas.drop_last()), metas.last().key);
        }
    }
}

proof fn lemma_collect_metas_no_dup(acc: Seq<Seq<u8>>, metas: Seq<AccountMetaView>)
    requires
        acc.no_duplicates(),
    ensures
        collect_meta_signers(acc, metas).no_duplicates(),
    decreases metas.len(),
{
    if metas.len() > 0 {
        lemma_collect_metas_no_dup(acc, metas.drop_last());
        if metas.last().signer {
            lemma_insert_no_dup(collect_meta_signers(acc, metas.drop_last()), metas.last().key);
        }
    }
}

proof fn lemma_collect_ixs_preserves(acc: Seq<Seq<u8>>, ixs: Seq<InstructionView>, x: Seq<u8>)
    requires
        acc.contains(x),
    ensures
        collect_ix_signers(acc, ixs).contains(x),
    decreases ixs.len(),
{
    if ixs.len() > 0 {
        lemma_collect_ixs_preserves(acc, ixs.drop_last(), x);
        lemma_collect_metas_preserves(
            collect_ix_signers(acc, ixs.drop_last()),
            ixs.last().accounts,
            x,
        );
    }
}

proof fn lemma_collect_ixs_extends(acc: Seq<Seq<u8>>, ixs: Seq<InstructionView>)
    ensures
        extends(acc, collect_ix_signers(acc, ixs)),
    decreases ixs.len(),
{
    if ixs.len() > 0 {
        lemma_collect_ixs_extends(acc, ixs.drop_last());
        lemma_collect_metas_extends(collect_ix_signers(acc, ixs.drop_last()), ixs.last().accounts);
    }
}

proof fn lemma_collect_ixs_no_dup(acc: Seq<Seq<u8>>, ixs: Seq<InstructionView>)
    requires
        acc.no_duplicates(),
    ensures
        collect_ix_signers(acc, ixs).no_duplicates(),
    decreases ixs.len(),
{
    if ixs.len() > 0 {
        lemma_collect_ixs_no_dup(acc, ixs.drop_last());
        lemma_collect_metas_no_dup(collect_ix_signers(acc, ixs.drop_last()), ixs.last().accounts);
    }
}

proof fn lemma_collect_keys_extends(acc: Seq<Seq<u8>>, keys: Seq<Seq<u8>>)
    ensures
        extends(acc, collect_keys(acc, keys)),
    decreases keys.len(),
{
    if keys.len() > 0 {
        lemma_collect_keys_extends(acc, keys.drop_last());
        lemma_insert_extends(collect_keys(acc, keys.drop_last()), keys.last());
    }
}

proof fn lemma_collect_keys_no_dup(acc: Seq<Seq<u8>>, keys: Seq<Seq<u8>>)
    requires
        acc.no_duplicates(),
    ensures
        collect_keys(acc, keys).no_duplicates(),
    decreases keys.len(),
{
    if keys.len() > 0 {
        lemma_collect_keys_no_dup(acc, keys.drop_last());
        lemma_insert_no_dup(collect_keys(acc, keys.drop_last()), keys.last());
    }
}

/// Law: a finalized transaction covers its signers. Every account marked
/// signer in any contained instruction has its key among the required
/// signers, so a signature per required signer signs for every
/// signer-flagged account.
pub proof fn lemma_signers_cover(
    payer: Seq<u8>,
    extras: Seq<Seq<u8>>,
    ixs: Seq<InstructionView>,
    i: int,
    j: int,
)
    requires
        0 <= i < ixs.len(),
        0 <= j < ixs[i].accounts.len(),
        ixs[i].accounts[j].signer,
    ensures
        spec_required_signers(payer, extras, ixs).contains(ixs[i].accounts[j].key),
    decreases ixs.len(),
{
    let acc0 = collect_keys(seq![payer], extras);
    if i == ixs.len() - 1 {
        lemma_collect_metas_adds(collect_ix_signers(acc0, ixs.drop_last()), ixs[i].accounts, j);
    } else {
        lemma_signers_cover(payer, extras, ixs.drop_last(), i, j);
        lemma_collect_metas_preserves(
            collect_ix_signers(acc0, ixs.drop_last()),
            ixs.last().accounts,
            ixs[i].accounts[j].key,
        );
    }
}

/// Law: the fee payer leads the required signer set of every finalized
/// transaction.
pub proof fn lemma_payer_first(payer: Seq<u8>, extras: Seq<Seq<u8>>, ixs: Seq<InstructionView>)
    ensures
        spec_required_signers(payer, extras, ixs).len() >= 1,
        spec_required_signers(payer, extras, ixs)[0] == payer,
        spec_required_signers(payer, extras, ixs).contains(payer),
{
    let acc0 = collect_keys(seq![payer], extras);
    lemma_collect_keys_extends(seq![payer], extras);
    lemma_collect_ixs_extends(acc0, ixs);
    assert(spec_required_signers(payer, extras, ixs)[0] == payer);
}

/// Law: the required signer set never lists a key twice; one signature per
/// listed key signs the whole message.
pub proof fn lemma_signers_distinct(payer: Seq<u8>, extras: Seq<Seq<u8>>, ixs: Seq<InstructionView>)
    ensures
        spec_required_signers(payer, extras, ixs).no_duplicates(),
{
    let start = seq![payer];
    assert(start.no_duplicates());
    lemma_collect_keys_no_dup(start, extras);
    lemma_collect_ixs_no_dup(collect_keys(start, extras), ixs);
}

/// Mathematical image of a finalized transaction.
pub ghost struct TransactionView {
    pub instructions: Seq<InstructionView>,
    pub blockhash: Seq<u8>,
    pub signers: Seq<Seq<u8>>,
}

/// A finalized, submission-ready transaction: the ordered instructions, the
/// freshness token, and the ordered keys that must sign the message. It
/// exists for one submission attempt only; a retry needs a fresh token.
pub struct Transaction {
    pub instructions: Vec<Instruction>,
    pub blockhash: BlockHash,
    pub required_signers: Vec<Pubkey>,
}

impl View for Transaction {
    type V = TransactionView;

    open spec fn view(&self) -> TransactionView {
        TransactionView {
            instructions: Seq::new(self.instructions@.len(), |i: int| self.instructions@[i]@),
            blockhash: self.blockhash@,
            signers: self.required_signers.deep_view(),
        }
    }
}

impl Transaction {
    /// A transaction is valid for submission only if it holds at least one
    /// instruction, all parts are well-formed, and the fee payer leads the
    /// signer set.
    pub open spec fn wf(&self) -> bool {
        &&& self.instructions@.len() >= 1
        &&& forall|i: int|
            0 <= i < self.instructions@.len() ==> (#[trigger] self.instructions@[i]).wf()
        &&& self.blockhash.wf()
        &&& self.required_signers@.len() >= 1
        &&& forall|i: int|
            0 <= i < self.required_signers@.len() ==> (#[trigger] self.required_signers@[i]).wf()
    }
}

} // verus!
