//! One transfer from request to broadcast: this module decides each step, the host
//! performs the calls to the outside services and reports what came back.

use vstd::prelude::*;
use crate::address::{
    checked_destination, get_p2wpkh_address, is_own_address, p2wpkh_address_of,
    parse_destination, Address, AddressView,
};
use crate::consensus::{serialize_transaction, serialized, transaction_id, txid_of};
use crate::error::TransferError;
use crate::fee::{estimate_fee, lemma_settled_fee_is_fixed_point, round_limit, settled_fee};
use crate::keys::{
    compressed_key_of, derivation_label, derivation_path, ecdsa_key_id, key_name_of, EcdsaCurve,
    EcdsaKeyId,
};
use crate::model::Utxo;
use crate::network::BitcoinNetwork;
use crate::sign::{
    asks_for_digest, first_step, is_sound, lemma_signing_begins, sign_transaction, step_after_reply, SigningSession,
    SigningStep, SigningStepView,
};

verus! {

/// The fee rate used where the ledger reports no percentiles: 2 satoshi per unit
/// of virtual size, in thousandths.
pub const FALLBACK_FEE_RATE: u64 = 2_000;

/// A request to send `amount_in_satoshi` to `destination`.
#[derive(Debug)]
pub struct TransferRequest {
    pub destination: String,
    pub amount_in_satoshi: u64,
}

/// What the host is to do next.
#[derive(Debug)]
pub enum Action {
    /// Ask the signing service for the public key.
    FetchPublicKey { derivation_path: Vec<Vec<u8>>, key_id: EcdsaKeyId },
    /// Ask the ledger for the unspent outputs of `address`.
    FetchUtxos { address: String, network: BitcoinNetwork },
    /// Ask the ledger for the current fee percentiles.
    FetchFeePercentiles { network: BitcoinNetwork },
    /// Ask the signing service to sign `message_hash`.
    Sign { message_hash: Vec<u8>, derivation_path: Vec<Vec<u8>>, key_id: EcdsaKeyId },
    /// Submit the signed transaction.
    Broadcast { network: BitcoinNetwork, transaction: Vec<u8> },
    /// The transfer is done: hand the transaction's identifier to the requester.
    Return { txid: String },
    /// The transfer is abandoned.
    Abort(TransferError),
}

/// What the host reports of the action it was given.
#[derive(Debug)]
pub enum Event {
    /// The public key of the signing service's key.
    PublicKey(Vec<u8>),
    /// The unspent outputs of the own address, in the ledger's order.
    Utxos(Vec<Utxo>),
    /// The fee percentiles, in thousandths of a satoshi per unit of virtual size.
    FeePercentiles(Vec<u64>),
    /// The signature of the digest, in compact form.
    Signature(Vec<u8>),
    /// The transaction was submitted.
    Broadcast,
    /// The call to the outside service failed.
    Failure,
}

/// How far a transfer has come.
#[derive(Debug)]
pub enum Transfer {
    AwaitingPublicKey { network: BitcoinNetwork, destination: Address, amount: u64 },
    AwaitingUtxos {
        network: BitcoinNetwork,
        destination: Address,
        amount: u64,
        public_key: Vec<u8>,
        own_address: Address,
    },
    AwaitingFeePercentiles {
        network: BitcoinNetwork,
        destination: Address,
        amount: u64,
        public_key: Vec<u8>,
        own_address: Address,
        utxos: Vec<Utxo>,
    },
    AwaitingSignature { network: BitcoinNetwork, session: SigningSession },
    AwaitingBroadcast { txid: String },
    /// Done or abandoned: nothing more is asked of the host.
    Closed,
}

/// Whether `destination` is a destination on `network`, as parsing gives it.
pub open spec fn is_destination(destination: AddressView, network: BitcoinNetwork) -> bool {
    &&& destination.network == network
    &&& checked_destination(destination.text, network) == Ok::<Seq<u8>, crate::address::AddressFault>(
        destination.script_pubkey,
    )
}

impl Transfer {
    /// The addresses that the transfer holds belong to its network: the destination
    /// was parsed for it, and the own address is the address of the public key on it.
    pub open spec fn wf(self) -> bool {
        match self {
            Transfer::AwaitingPublicKey { network, destination, .. } => is_destination(
                destination@,
                network,
            ),
            Transfer::AwaitingUtxos { network, destination, public_key, own_address, .. } => {
                &&& is_destination(destination@, network)
                &&& is_own_address(own_address@, public_key@, network)
            },
            Transfer::AwaitingFeePercentiles {
                network,
                destination,
                public_key,
                own_address,
                ..
            } => {
                &&& is_destination(destination@, network)
                &&& is_own_address(own_address@, public_key@, network)
            },
            _ => true,
        }
    }
}

/// Whether `action` goes on with the transfer: it does not abandon it.
pub open spec fn goes_on(action: Action) -> bool {
    !(action is Abort)
}

/// The fee rate that the percentiles give: the one in the middle, and the fallback
/// where there is none.
pub open spec fn median_rate(percentiles: Seq<u64>) -> u64 {
    if percentiles.len() == 0 {
        FALLBACK_FEE_RATE
    } else {
        percentiles[percentiles.len() as int / 2]
    }
}

/// Whether `derivation_path` and `key_id` name the signing key of `network`.
pub open spec fn names_signing_key(
    derivation_path: Vec<Vec<u8>>,
    key_id: EcdsaKeyId,
    network: BitcoinNetwork,
) -> bool {
    &&& derivation_path@.len() == 1
    &&& derivation_path@[0]@ == derivation_label()
    &&& key_id.curve == EcdsaCurve::Secp256k1
    &&& key_id.name@ == key_name_of(network)
}

/// Whether `after` and `action` abandon the transfer with `error`.
pub open spec fn abandons(after: Transfer, action: Action, error: TransferError) -> bool {
    &&& after is Closed
    &&& action matches Action::Abort(given)
    &&& given == error
}

/// Whether `after` and `action` are what follows the signing step `step`: another
/// signature is asked for, or the finished transaction is submitted under its
/// identifier, or the transfer is abandoned with the step's error.
pub open spec fn follows_signing(
    network: BitcoinNetwork,
    step: SigningStepView,
    after: Transfer,
    action: Action,
) -> bool {
    match step {
        SigningStepView::Request { session, message_hash } => {
            &&& after matches Transfer::AwaitingSignature { network: kept, session: waiting }
            &&& kept == network
            &&& waiting@ == session
            &&& action matches Action::Sign { message_hash: asked, derivation_path, key_id }
            &&& asked@ == message_hash
            &&& names_signing_key(derivation_path, key_id, network)
        },
        SigningStepView::Finished(tx) => {
            &&& after matches Transfer::AwaitingBroadcast { txid }
            &&& txid@ == txid_of(tx)
            &&& action matches Action::Broadcast { network: named, transaction }
            &&& named == network
            &&& transaction@ == serialized(tx)
        },
        SigningStepView::Failed(error) => abandons(after, action, error),
    }
}

/// Whether `after` and `action` are what beginning a transfer of `amount` to
/// `destination` on `network` gives: the public key is asked for, or the
/// destination is refused.
pub open spec fn begins(
    destination: Seq<char>,
    amount: u64,
    network: BitcoinNetwork,
    after: Transfer,
    action: Action,
) -> bool {
    match checked_destination(destination, network) {
        Ok(script) => {
            &&& after matches Transfer::AwaitingPublicKey {
                network: kept,
                destination: parsed,
                amount: sum,
            }
            &&& kept == network
            &&& parsed@ == AddressView { network, text: destination, script_pubkey: script }
            &&& sum == amount
            &&& action matches Action::FetchPublicKey { derivation_path, key_id }
            &&& names_signing_key(derivation_path, key_id, network)
        },
        Err(_) => abandons(after, action, TransferError::InvalidAddress),
    }
}

/// Whether `after` and `action` are what the transfer `before` does on `event`.
///
/// A reported failure abandons the transfer with `ExternalServiceFailure`. A report
/// that the state did not ask for abandons it with `InternalInconsistency`.
pub open spec fn transition(before: Transfer, event: Event, after: Transfer, action: Action) -> bool {
    match (before, event) {
        (_, Event::Failure) => abandons(after, action, TransferError::ExternalServiceFailure),
        (
            Transfer::AwaitingPublicKey { network, destination, amount },
            Event::PublicKey(public_key),
        ) => match p2wpkh_address_of(public_key@, network) {
            None => abandons(after, action, TransferError::InvalidKeyMaterial),
            Some(parts) => {
                &&& after matches Transfer::AwaitingUtxos {
                    network: kept,
                    destination: paid,
                    amount: sum,
                    public_key: key,
                    own_address,
                }
                &&& kept == network
                &&& paid@ == destination@
                &&& sum == amount
                &&& key@ == public_key@
                &&& own_address@ == AddressView {
                    network,
                    text: parts.0,
                    script_pubkey: parts.1,
                }
                &&& action matches Action::FetchUtxos { address, network: named }
                &&& address@ == parts.0
                &&& named == network
            },
        },
        (
            Transfer::AwaitingUtxos { network, destination, amount, public_key, own_address },
            Event::Utxos(utxos),
        ) => {
            &&& after matches Transfer::AwaitingFeePercentiles {
                network: kept,
                destination: paid,
                amount: sum,
                public_key: key,
                own_address: own,
                utxos: held,
            }
            &&& kept == network
            &&& paid@ == destination@
            &&& sum == amount
            &&& key@ == public_key@
            &&& own@ == own_address@
            &&& held@ == utxos@
            &&& action matches Action::FetchFeePercentiles { network: named }
            &&& named == network
        },
        (
            Transfer::AwaitingFeePercentiles {
                network,
                destination,
                amount,
                public_key,
                own_address,
                utxos,
            },
            Event::FeePercentiles(percentiles),
        ) => match settled_fee(
            utxos@,
            own_address@.script_pubkey,
            destination@.script_pubkey,
            amount,
            median_rate(percentiles@),
            0,
            round_limit(utxos@.len()),
        ) {
            Err(error) => abandons(after, action, error),
            Ok(quote) => follows_signing(
                network,
                first_step(
                    quote.1,
                    quote.0,
                    own_address@.script_pubkey,
                    compressed_key_of(public_key@),
                ),
                after,
                action,
            ),
        },
        (Transfer::AwaitingSignature { network, session }, Event::Signature(signature)) => {
            follows_signing(network, step_after_reply(session@, Some(signature@)), after, action)
        },
        (Transfer::AwaitingBroadcast { txid }, Event::Broadcast) => {
            &&& after is Closed
            &&& action matches Action::Return { txid: returned }
            &&& returned@ == txid@
        },
        _ => abandons(after, action, TransferError::InternalInconsistency),
    }
}

/// The fee rate for a transfer, from the ledger's fee percentiles: the one in the
/// middle, and the fallback rate where the ledger reports none.
pub fn fee_rate_from(percentiles: &[u64]) -> (rate: u64)
    ensures
        rate == median_rate(percentiles@),
{
    if percentiles.len() == 0 {
        FALLBACK_FEE_RATE
    } else {
        percentiles[percentiles.len() / 2]
    }
}

/// What follows the signing step `step` in a transfer on `network`.
fn after_signing(network: BitcoinNetwork, step: SigningStep) -> (next: (Transfer, Action))
    requires
        asks_for_digest(step@),
        is_sound(step@),
    ensures
        follows_signing(network, step@, next.0, next.1),
        next.1 matches Action::Sign { message_hash, .. } ==> message_hash@.len() == 32,
{
    match step {
        SigningStep::Request { session, message_hash } => (
            Transfer::AwaitingSignature { network, session },
            Action::Sign {
                message_hash,
                derivation_path: derivation_path(),
                key_id: ecdsa_key_id(network),
            },
        ),
        SigningStep::Finished(tx) => {
            let txid = transaction_id(&tx);
            let transaction = serialize_transaction(&tx);
            (Transfer::AwaitingBroadcast { txid }, Action::Broadcast { network, transaction })
        },
        SigningStep::Failed(error) => (Transfer::Closed, Action::Abort(error)),
    }
}

/// Begins a transfer of `request.amount_in_satoshi` to `request.destination` on
/// `network`: the destination is parsed and held to the network, and the host is
/// asked for the public key.
///
/// Abandons with `InvalidAddress` where the destination encodes no address or one
/// of another network.
pub fn transfer_btc(request: &TransferRequest, network: BitcoinNetwork) -> (next: (
    Transfer,
    Action,
))
    ensures
        begins(request.destination@, request.amount_in_satoshi, network, next.0, next.1),
        next.0.wf(),
{
    match parse_destination(request.destination.as_str(), network) {
        Err(error) => (Transfer::Closed, Action::Abort(error)),
        Ok(destination) => (
            Transfer::AwaitingPublicKey {
                network,
                destination,
                amount: request.amount_in_satoshi,
            },
            Action::FetchPublicKey {
                derivation_path: derivation_path(),
                key_id: ecdsa_key_id(network),
            },
        ),
    }
}

impl Transfer {
    /// Takes the host's report of the action it was given last, and decides what
    /// is next: the state to keep and the action to perform.
    ///
    /// A well-formed transfer stays well formed. Once it holds its own address and
    /// the fee has settled, it goes on to signing: neither the key nor the own
    /// script can fail it there.
    pub fn step(self, event: Event) -> (next: (Transfer, Action))
        ensures
            transition(self, event, next.0, next.1),
            next.1 matches Action::Sign { message_hash, .. } ==> message_hash@.len() == 32,
            self.wf() ==> next.0.wf(),
            self.wf() ==> (self matches Transfer::AwaitingFeePercentiles {
                destination,
                amount,
                own_address,
                utxos,
                ..
            } ==> (event matches Event::FeePercentiles(percentiles) ==> (settled_fee(
                utxos@,
                own_address@.script_pubkey,
                destination@.script_pubkey,
                amount,
                median_rate(percentiles@),
                0,
                round_limit(utxos@.len()),
            ) is Ok ==> goes_on(next.1)))),
    {
        let ghost state = self;
        match (self, event) {
            (_, Event::Failure) => (
                Transfer::Closed,
                Action::Abort(TransferError::ExternalServiceFailure),
            ),
            (
                Transfer::AwaitingPublicKey { network, destination, amount },
                Event::PublicKey(public_key),
            ) => match get_p2wpkh_address(public_key.as_slice(), network) {
                Err(error) => (Transfer::Closed, Action::Abort(error)),
                Ok(own_address) => {
                    let address = own_address.text().clone();
                    (
                        Transfer::AwaitingUtxos {
                            network,
                            destination,
                            amount,
                            public_key,
                            own_address,
                        },
                        Action::FetchUtxos { address, network },
                    )
                },
            },
            (
                Transfer::AwaitingUtxos { network, destination, amount, public_key, own_address },
                Event::Utxos(utxos),
            ) => (
                Transfer::AwaitingFeePercentiles {
                    network,
                    destination,
                    amount,
                    public_key,
                    own_address,
                    utxos,
                },
                Action::FetchFeePercentiles { network },
            ),
            (
                Transfer::AwaitingFeePercentiles {
                    network,
                    destination,
                    amount,
                    public_key,
                    own_address,
                    utxos,
                },
                Event::FeePercentiles(percentiles),
            ) => {
                let rate = fee_rate_from(percentiles.as_slice());
                match estimate_fee(utxos.as_slice(), &own_address, &destination, amount, rate) {
                    Err(error) => (Transfer::Closed, Action::Abort(error)),
                    Ok(quote) => {
                        let ghost selected = quote.0@;
                        let ghost fee = quote.2;
                        proof {
                            lemma_settled_fee_is_fixed_point(
                                utxos@,
                                own_address@.script_pubkey,
                                destination@.script_pubkey,
                                amount,
                                rate,
                                0,
                                round_limit(utxos@.len()),
                                1,
                            );
                        }
                        let step = sign_transaction(
                            quote.1,
                            quote.0.as_slice(),
                            &own_address,
                            public_key.as_slice(),
                        );
                        proof {
                            if state.wf() {
                                lemma_signing_begins(
                                    selected,
                                    own_address@.script_pubkey,
                                    destination@.script_pubkey,
                                    amount,
                                    fee,
                                    compressed_key_of(public_key@)->Some_0,
                                );
                            }
                        }
                        after_signing(network, step)
                    },
                }
            },
            (Transfer::AwaitingSignature { network, session }, Event::Signature(signature)) => {
                after_signing(network, session.accept(Some(signature)))
            },
            (Transfer::AwaitingBroadcast { txid }, Event::Broadcast) => (
                Transfer::Closed,
                Action::Return { txid },
            ),
            _ => (Transfer::Closed, Action::Abort(TransferError::InternalInconsistency)),
        }
    }
}

} // verus!
