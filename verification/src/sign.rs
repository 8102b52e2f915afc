//! Signing a transaction input by input, with signatures that a remote service
//! makes: this module decides, the caller carries digests out and replies in.

use vstd::prelude::*;
use vstd::slice::slice_to_vec;
use crate::address::Address;
use crate::builder::{lemma_unsigned_fits, unsigned_transaction};
use crate::consensus::{is_p2wpkh_script, p2wpkh_sighash, p2wpkh_sighash_of};
use crate::error::TransferError;
use crate::keys::{
    compress_public_key, compressed_key_of, encode_signature, witness_signature_of,
    COMPRESSED_KEY_LEN, SIGHASH_ALL,
};
use crate::model::{
    byte_strings, check_witness, copy_bytes, lemma_witnesses_still_fit, with_witness,
    with_witness_at, witness_fits, witnesses_fit, Tx, TxView, Utxo,
};

verus! {

/// A transaction that is being signed: the inputs before `next` carry their
/// signature, and the digest of input `next` is with the signing service.
#[derive(Debug)]
pub struct SigningSession {
    tx: Tx,
    utxos: Vec<Utxo>,
    script: Vec<u8>,
    public_key: Vec<u8>,
    next: usize,
}

/// What a [`SigningSession`] holds: the transaction as far as it is signed, the
/// unspent outputs that its inputs spend, the script that locks them, the public key
/// in compressed form, and the index of the input that is signed next.
pub struct SigningView {
    pub tx: TxView,
    pub utxos: Seq<Utxo>,
    pub script: Seq<u8>,
    pub public_key: Seq<u8>,
    pub next: nat,
}

/// What signing does next.
#[derive(Debug)]
pub enum SigningStep {
    /// Ask the signing service to sign `message_hash`, and hand its reply to `session`.
    Request { session: SigningSession, message_hash: Vec<u8> },
    /// Every input is signed.
    Finished(Tx),
    /// Signing was abandoned; no partly signed transaction is kept.
    Failed(TransferError),
}

/// What a [`SigningStep`] holds.
pub enum SigningStepView {
    Request { session: SigningView, message_hash: Seq<u8> },
    Finished(TxView),
    Failed(TransferError),
}

impl SigningView {
    /// There is an input to sign next, every input has its unspent output, the
    /// script allows a digest, the public key is in compressed form, and every
    /// witness fits.
    pub open spec fn wf(self) -> bool {
        &&& self.next < self.tx.input.len() <= self.utxos.len()
        &&& is_p2wpkh_script(self.script)
        &&& self.public_key.len() == COMPRESSED_KEY_LEN
        &&& witnesses_fit(self.tx)
    }
}

impl View for SigningSession {
    type V = SigningView;

    closed spec fn view(&self) -> SigningView {
        SigningView {
            tx: self.tx@,
            utxos: self.utxos@,
            script: self.script@,
            public_key: self.public_key@,
            next: self.next as nat,
        }
    }
}

impl View for SigningStep {
    type V = SigningStepView;

    open spec fn view(&self) -> SigningStepView {
        match self {
            SigningStep::Request { session, message_hash } => SigningStepView::Request {
                session: session@,
                message_hash: message_hash@,
            },
            SigningStep::Finished(tx) => SigningStepView::Finished(tx@),
            SigningStep::Failed(error) => SigningStepView::Failed(*error),
        }
    }
}

/// Where `step` asks for a signature, the digest to sign has 32 bytes.
pub open spec fn asks_for_digest(step: SigningStepView) -> bool {
    step matches SigningStepView::Request { message_hash, .. } ==> message_hash.len() == 32
}

/// Whether `step` can be taken further: a session that waits is well formed, and
/// the witnesses of a finished transaction fit.
pub open spec fn is_sound(step: SigningStepView) -> bool {
    match step {
        SigningStepView::Request { session, .. } => session.wf(),
        SigningStepView::Finished(tx) => witnesses_fit(tx),
        SigningStepView::Failed(_) => true,
    }
}

/// Whether `witness` has the form that signing gives a witness: a signature that
/// ends with the sign-all marker, then a public key in compressed form.
pub open spec fn is_signed_witness(witness: Seq<Seq<u8>>) -> bool {
    &&& witness.len() == 2
    &&& witness[0].len() > 0
    &&& witness[0].last() == SIGHASH_ALL
    &&& witness[1].len() == COMPRESSED_KEY_LEN
}

/// Whether `step` carries on a transaction whose input `index` has a signed witness.
pub open spec fn has_signed(step: SigningStepView, index: int) -> bool {
    match step {
        SigningStepView::Request { session, .. } => is_signed_witness(
            session.tx.input[index].witness,
        ),
        SigningStepView::Finished(tx) => is_signed_witness(tx.input[index].witness),
        SigningStepView::Failed(_) => true,
    }
}

/// The witness of a signed input: the signature with its marker, then the public key.
pub open spec fn signature_witness(signature: Seq<u8>, public_key: Seq<u8>) -> Seq<Seq<u8>> {
    seq![signature, public_key]
}

/// The step that follows once the inputs before `next` are signed: finished after
/// the last input; otherwise a request for the digest of input `next`, which commits
/// to the transaction as it then stands; and a failure where the script allows none.
pub open spec fn step_at(
    tx: TxView,
    utxos: Seq<Utxo>,
    script: Seq<u8>,
    public_key: Seq<u8>,
    next: nat,
) -> SigningStepView {
    if next >= tx.input.len() {
        SigningStepView::Finished(tx)
    } else if !is_p2wpkh_script(script) {
        SigningStepView::Failed(TransferError::SighashComputationFailure)
    } else {
        SigningStepView::Request {
            session: SigningView { tx, utxos, script, public_key, next },
            message_hash: p2wpkh_sighash_of(tx, next, script, utxos[next as int].value)->Some_0,
        }
    }
}

/// The first step of signing `tx` with the compressed public key `key`, if the key
/// was accepted: a failure where it was not or is not in compressed form, where an
/// input has no unspent output, and where a witness that `tx` already holds does
/// not fit.
pub open spec fn first_step(
    tx: TxView,
    utxos: Seq<Utxo>,
    script: Seq<u8>,
    key: Option<Seq<u8>>,
) -> SigningStepView {
    match key {
        None => SigningStepView::Failed(TransferError::InvalidKeyMaterial),
        Some(public_key) => if public_key.len() != COMPRESSED_KEY_LEN {
            SigningStepView::Failed(TransferError::InvalidKeyMaterial)
        } else if utxos.len() < tx.input.len() || !witnesses_fit(tx) {
            SigningStepView::Failed(TransferError::SighashComputationFailure)
        } else {
            step_at(tx, utxos, script, public_key, 0)
        },
    }
}

/// The step that follows when `item`, the witness form of a signature, arrives for
/// the input that `session` waits on: the item and the public key become that
/// input's witness, and signing moves to the next input. Without an item signing
/// fails, and so it does with an item too large for a witness.
pub open spec fn step_after_item(session: SigningView, item: Option<Seq<u8>>) -> SigningStepView {
    match item {
        None => SigningStepView::Failed(TransferError::InvalidKeyMaterial),
        Some(signature) => if !witness_fits(signature_witness(signature, session.public_key)) {
            SigningStepView::Failed(TransferError::SighashComputationFailure)
        } else {
            step_at(
                with_witness_at(
                    session.tx,
                    session.next as int,
                    signature_witness(signature, session.public_key),
                ),
                session.utxos,
                session.script,
                session.public_key,
                session.next + 1,
            )
        },
    }
}

/// The step that follows the service's reply: a failure where the service failed,
/// otherwise what the signature in its witness form leads to.
pub open spec fn step_after_reply(session: SigningView, reply: Option<Seq<u8>>) -> SigningStepView {
    match reply {
        None => SigningStepView::Failed(TransferError::ExternalServiceFailure),
        Some(compact) => step_after_item(session, witness_signature_of(compact)),
    }
}

/// The step reached from `step` when the service answers each request in turn with
/// the next of `signatures`.
pub open spec fn step_after_replies(step: SigningStepView, signatures: Seq<Seq<u8>>) -> SigningStepView
    decreases signatures.len(),
{
    if signatures.len() == 0 {
        step
    } else {
        match step {
            SigningStepView::Request { session, .. } => step_after_replies(
                step_after_reply(session, Some(signatures.first())),
                signatures.drop_first(),
            ),
            _ => step,
        }
    }
}

/// The transaction `tx` with inputs from `from` on signed: input `from + i` carries
/// the witness form of `signatures[i]` and the public key. Nothing else differs.
pub open spec fn signed_from(
    tx: TxView,
    public_key: Seq<u8>,
    from: nat,
    signatures: Seq<Seq<u8>>,
) -> TxView {
    TxView {
        input: Seq::new(
            tx.input.len(),
            |i: int|
                if from <= i < from + signatures.len() {
                    with_witness(
                        tx.input[i],
                        signature_witness(
                            witness_signature_of(signatures[i - from])->Some_0,
                            public_key,
                        ),
                    )
                } else {
                    tx.input[i]
                },
        ),
        ..tx
    }
}

/// Whether the service's answer `compact` is a signature whose witness form, with
/// `public_key`, fits a witness.
pub open spec fn is_usable_signature(compact: Seq<u8>, public_key: Seq<u8>) -> bool {
    &&& witness_signature_of(compact) is Some
    &&& witness_fits(signature_witness(witness_signature_of(compact)->Some_0, public_key))
}

/// Signing completes: where the service answers every request with a well-formed
/// signature, one for each input still unsigned, signing finishes, and in the
/// finished transaction each of those inputs carries exactly two witness items, its
/// signature and the 33-byte public key, while everything else is as it was. So a
/// finished transaction has as many witnesses as inputs, and they fit.
pub proof fn lemma_signing_completes(session: SigningView, signatures: Seq<Seq<u8>>)
    requires
        session.wf(),
        signatures.len() == session.tx.input.len() - session.next,
        forall|i: int|
            0 <= i < signatures.len() ==> is_usable_signature(
                #[trigger] signatures[i],
                session.public_key,
            ),
    ensures
        witnesses_fit(signed_from(session.tx, session.public_key, session.next, signatures)),
        forall|i: int|
            session.next <= i < session.tx.input.len() ==> (#[trigger] signed_from(
                session.tx,
                session.public_key,
                session.next,
                signatures,
            ).input[i]).witness[1].len() == COMPRESSED_KEY_LEN,
        step_after_replies(
            step_at(session.tx, session.utxos, session.script, session.public_key, session.next),
            signatures,
        ) == SigningStepView::Finished(
            signed_from(session.tx, session.public_key, session.next, signatures),
        ),
        signed_from(session.tx, session.public_key, session.next, signatures).input.len()
            == session.tx.input.len(),
        forall|i: int|
            session.next <= i < session.tx.input.len() ==> (#[trigger] signed_from(
                session.tx,
                session.public_key,
                session.next,
                signatures,
            ).input[i]).witness.len() == 2,
    decreases signatures.len(),
{
    let first = signatures.first();
    let rest = signatures.drop_first();
    let item = witness_signature_of(first)->Some_0;
    let tx = with_witness_at(
        session.tx,
        session.next as int,
        signature_witness(item, session.public_key),
    );
    let target = signed_from(session.tx, session.public_key, session.next, signatures);
    let start = step_at(
        session.tx,
        session.utxos,
        session.script,
        session.public_key,
        session.next,
    );
    let after = step_after_reply(session, Some(first));
    assert(is_usable_signature(signatures[0], session.public_key));
    lemma_witnesses_still_fit(
        session.tx,
        session.next as int,
        signature_witness(item, session.public_key),
    );
    assert(start matches SigningStepView::Request { session: waiting, .. } && waiting == session);
    assert(step_after_replies(start, signatures) == step_after_replies(after, rest));
    assert(after == step_at(
        tx,
        session.utxos,
        session.script,
        session.public_key,
        session.next + 1,
    ));
    if rest.len() == 0 {
        assert(tx.input =~= target.input);
    } else {
        let following = SigningView { tx, next: session.next + 1, ..session };
        assert forall|i: int| 0 <= i < rest.len() implies is_usable_signature(
            #[trigger] rest[i],
            session.public_key,
        ) by {
            assert(rest[i] == signatures[i + 1]);
        }
        lemma_signing_completes(following, rest);
        let reached = signed_from(tx, session.public_key, session.next + 1, rest);
        assert forall|i: int| 0 <= i < target.input.len() implies reached.input[i]
            == target.input[i] by {
            if session.next < i {
                assert(rest[i - (session.next + 1)] == signatures[i - session.next]);
            }
        }
        assert(reached.input =~= target.input);
    }
}

/// A signed transaction has one witness for each input: where the key is accepted,
/// the own script is a pay-to-witness-public-key-hash script, every input has its
/// unspent output, and the service answers each request with a well-formed
/// signature, signing `tx` finishes with `tx` in which every input carries its
/// signature and the public key, and nothing else differs.
pub proof fn lemma_signed_transaction(
    tx: TxView,
    utxos: Seq<Utxo>,
    script: Seq<u8>,
    public_key: Seq<u8>,
    signatures: Seq<Seq<u8>>,
)
    requires
        public_key.len() == COMPRESSED_KEY_LEN,
        is_p2wpkh_script(script),
        tx.input.len() <= utxos.len(),
        witnesses_fit(tx),
        signatures.len() == tx.input.len(),
        forall|i: int|
            0 <= i < signatures.len() ==> is_usable_signature(#[trigger] signatures[i], public_key),
    ensures
        ({
            let signed = signed_from(tx, public_key, 0, signatures);
            &&& step_after_replies(first_step(tx, utxos, script, Some(public_key)), signatures)
                == SigningStepView::Finished(signed)
            &&& signed.input.len() == tx.input.len()
            &&& signed.output == tx.output
            &&& signed.version == tx.version
            &&& signed.lock_time == tx.lock_time
            &&& forall|i: int|
                0 <= i < tx.input.len() ==> {
                    &&& (#[trigger] signed.input[i]).witness == signature_witness(
                        witness_signature_of(signatures[i])->Some_0,
                        public_key,
                    )
                    &&& signed.input[i].previous_output == tx.input[i].previous_output
                    &&& signed.input[i].sequence == tx.input[i].sequence
                    &&& signed.input[i].script_sig == tx.input[i].script_sig
                }
        }),
{
    let signed = signed_from(tx, public_key, 0, signatures);
    if tx.input.len() == 0 {
        assert(signed.input =~= tx.input);
    } else {
        lemma_signing_completes(SigningView { tx, utxos, script, public_key, next: 0 }, signatures);
    }
}

/// Signing an unsigned transaction begins without failure: with an accepted key, a
/// pay-to-witness-public-key-hash script and the unspent outputs that the transaction
/// was built from, the first step asks for a signature of the first input, or is
/// finished where there is no input.
pub proof fn lemma_signing_begins(
    utxos: Seq<Utxo>,
    own_script: Seq<u8>,
    dst_script: Seq<u8>,
    amount: u64,
    fee: u64,
    public_key: Seq<u8>,
)
    requires
        is_p2wpkh_script(own_script),
        public_key.len() == COMPRESSED_KEY_LEN,
    ensures
        ({
            let tx = unsigned_transaction(utxos, own_script, dst_script, amount, fee);
            let step = first_step(tx, utxos, own_script, Some(public_key));
            if utxos.len() == 0 {
                step == SigningStepView::Finished(tx)
            } else {
                &&& step matches SigningStepView::Request { session, .. }
                &&& session.wf()
                &&& session.tx == tx
                &&& session.next == 0
            }
        }),
{
    lemma_unsigned_fits(utxos, own_script, dst_script, amount, fee);
}

/// The step for input `next` of `tx`, once the inputs before it are signed.
fn advance(tx: Tx, utxos: Vec<Utxo>, script: Vec<u8>, public_key: Vec<u8>, next: usize) -> (step:
    SigningStep)
    requires
        next <= tx@.input.len() <= utxos@.len(),
        public_key@.len() == COMPRESSED_KEY_LEN,
        witnesses_fit(tx@),
    ensures
        step@ == step_at(tx@, utxos@, script@, public_key@, next as nat),
        asks_for_digest(step@),
        is_sound(step@),
{
    assert(tx@.input.len() == tx.input@.len());
    if next >= tx.input.len() {
        return SigningStep::Finished(tx);
    }
    match p2wpkh_sighash(&tx, next, &script, utxos[next].value) {
        None => SigningStep::Failed(TransferError::SighashComputationFailure),
        Some(message_hash) => SigningStep::Request {
            session: SigningSession { tx, utxos, script, public_key, next },
            message_hash,
        },
    }
}

/// Begins to sign `tx`, whose inputs spend `utxos_to_spend` in order, all locked
/// to `own_address`, given the compressed form `key` of the public key if the key
/// was accepted.
///
/// Fails as `sign_transaction` does, and with `InvalidKeyMaterial` also where `key`
/// does not have the length of a compressed key.
pub fn sign_with_key(
    tx: Tx,
    utxos_to_spend: &[Utxo],
    own_address: &Address,
    key: Option<Vec<u8>>,
) -> (step: SigningStep)
    ensures
        step@ == first_step(
            tx@,
            utxos_to_spend@,
            own_address@.script_pubkey,
            match key {
                Some(bytes) => Some(bytes@),
                None => None,
            },
        ),
        asks_for_digest(step@),
        is_sound(step@),
{
    match key {
        None => SigningStep::Failed(TransferError::InvalidKeyMaterial),
        Some(public_key) => {
            assert(tx@.input.len() == tx.input@.len());
            if public_key.len() != COMPRESSED_KEY_LEN {
                SigningStep::Failed(TransferError::InvalidKeyMaterial)
            } else if utxos_to_spend.len() < tx.input.len() || !tx.check_witnesses() {
                SigningStep::Failed(TransferError::SighashComputationFailure)
            } else {
                advance(
                    tx,
                    slice_to_vec(utxos_to_spend),
                    copy_bytes(own_address.script_pubkey()),
                    public_key,
                    0,
                )
            }
        },
    }
}

/// Begins to sign `tx`, whose inputs spend `utxos_to_spend` in order, all locked
/// to `own_address`, with the key that `public_key_bytes` encode.
///
/// Fails with `InvalidKeyMaterial` where the bytes encode no public key, and with
/// `SighashComputationFailure` where an input has no unspent output, where a
/// witness that `tx` already holds is too large, or where, with an input to sign,
/// the address's script is no pay-to-witness-public-key-hash script. A transaction
/// without inputs is finished at once. Otherwise the step asks for a signature of
/// the first input's digest, and the session holds the key in its compressed form
/// of 33 bytes.
pub fn sign_transaction(
    tx: Tx,
    utxos_to_spend: &[Utxo],
    own_address: &Address,
    public_key_bytes: &[u8],
) -> (step: SigningStep)
    ensures
        step@ == first_step(
            tx@,
            utxos_to_spend@,
            own_address@.script_pubkey,
            compressed_key_of(public_key_bytes@),
        ),
        asks_for_digest(step@),
        is_sound(step@),
        compressed_key_of(public_key_bytes@) matches Some(key) ==> key.len() == COMPRESSED_KEY_LEN,
        step@ matches SigningStepView::Request { session, .. } ==> {
            &&& compressed_key_of(public_key_bytes@) == Some(session.public_key)
            &&& session.public_key.len() == COMPRESSED_KEY_LEN
        },
{
    sign_with_key(tx, utxos_to_spend, own_address, compress_public_key(public_key_bytes))
}

impl SigningSession {
    #[verifier::type_invariant]
    closed spec fn well_formed(&self) -> bool {
        self@.wf()
    }

    /// Takes `item`, the witness form of the signature for the input waited on, if
    /// the signature was well formed, and gives the step that follows.
    ///
    /// Fails with `InvalidKeyMaterial` where there is no item, and with
    /// `SighashComputationFailure` where the item is too large for a witness.
    pub fn attach(self, item: Option<Vec<u8>>) -> (step: SigningStep)
        ensures
            self@.wf(),
            step@ == step_after_item(
                self@,
                match item {
                    Some(bytes) => Some(bytes@),
                    None => None,
                },
            ),
            asks_for_digest(step@),
            is_sound(step@),
    {
        proof {
            use_type_invariant(&self);
        }
        match item {
            None => SigningStep::Failed(TransferError::InvalidKeyMaterial),
            Some(signature) => {
                let SigningSession { mut tx, utxos, script, public_key, next } = self;
                let count = tx.input.len();
                assert(tx@.input.len() == count);
                assert(next < count <= utxos@.len());
                let mut witness: Vec<Vec<u8>> = Vec::new();
                witness.push(signature);
                witness.push(copy_bytes(&public_key));
                assert(byte_strings(witness@) =~= signature_witness(signature@, public_key@));
                if !check_witness(&witness) {
                    return SigningStep::Failed(TransferError::SighashComputationFailure);
                }
                proof {
                    lemma_witnesses_still_fit(tx@, next as int, byte_strings(witness@));
                }
                tx.set_witness(next, witness);
                advance(tx, utxos, script, public_key, next + 1)
            },
        }
    }

    /// Takes the signing service's reply for the input waited on: the signature in
    /// compact form, or `None` where the service failed. Gives the step that follows.
    ///
    /// Fails with `ExternalServiceFailure` where the service failed, and with
    /// `InvalidKeyMaterial` where its bytes hold no signature. Otherwise the
    /// witness of the input waited on becomes the signature, which ends with the
    /// sign-all marker, followed by the public key in its compressed form of 33 bytes.
    pub fn accept(self, reply: Option<Vec<u8>>) -> (step: SigningStep)
        ensures
            self@.wf(),
            step@ == step_after_reply(
                self@,
                match reply {
                    Some(bytes) => Some(bytes@),
                    None => None,
                },
            ),
            asks_for_digest(step@),
            is_sound(step@),
            has_signed(step@, self@.next as int),
            reply matches Some(compact) ==> (witness_signature_of(compact@) matches Some(item)
                ==> item.len() > 0 && item.last() == SIGHASH_ALL),
    {
        proof {
            use_type_invariant(&self);
        }
        match reply {
            None => SigningStep::Failed(TransferError::ExternalServiceFailure),
            Some(compact) => {
                let item = encode_signature(compact.as_slice());
                self.attach(item)
            },
        }
    }
}

} // verus!
