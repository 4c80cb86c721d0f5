//! The offchain signing identity: a domain-scoped key class, a signature
//! scheme interface with a proved sign/verify round trip, and the
//! construction and checking of self-signed calls.
//!
//! This path never executes ordered calls; it only builds new authorized
//! calls that the host's submission interface can feed back into the ordered
//! pipeline.

use vstd::prelude::*;

use crate::origin::Origin;
use crate::pallet::{Call, Error};

verus! {

/// Mask folding a secret into the matching public key under the development
/// scheme.
pub const DEV_KEY_MASK: u64 = 0xA5A5_A5A5_A5A5_A5A5;

/// The four-byte namespace tag ("book") identifying the offchain signing key
/// class, distinct from any namespace used by ordinary user keys.
pub open spec fn key_type_seq() -> Seq<u8> {
    seq![98u8, 111u8, 111u8, 107u8]
}

/// The fixed four-byte namespace tag for offchain signing keys.
pub fn key_type_tag() -> (tag: [u8; 4])
    ensures
        tag@ == key_type_seq(),
{
    let tag: [u8; 4] = [98u8, 111u8, 111u8, 107u8];
    proof {
        assert(tag@ =~= key_type_seq());
    }
    tag
}

/// One byte folded into a running digest: rotate the accumulator left by one
/// byte, then mix the new byte in.
pub open spec fn digest_step(acc: u64, byte: u8) -> u64 {
    ((acc << 8u64) | (acc >> 56u64)) ^ (byte as u64)
}

/// The digest of a message under the development scheme: a left-to-right fold
/// of `digest_step` from a fixed seed.
pub open spec fn digest(message: Seq<u8>) -> u64
    decreases message.len(),
{
    if message.len() == 0 {
        0x1505
    } else {
        digest_step(digest(message.drop_last()), message.last())
    }
}

/// Compute `digest` over a byte message.
pub fn digest_bytes(message: &Vec<u8>) -> (d: u64)
    ensures
        d == digest(message@),
{
    let mut acc: u64 = 0x1505;
    let mut i: usize = 0;
    proof {
        assert(message@.take(0) =~= Seq::<u8>::empty());
    }
    while i < message.len()
        invariant
            i <= message@.len(),
            acc == digest(message@.take(i as int)),
        decreases message@.len() - i,
    {
        let byte = message[i];
        acc = ((acc << 8u64) | (acc >> 56u64)) ^ (byte as u64);
        i = i + 1;
        proof {
            assert(message@.take(i as int).drop_last() =~= message@.take(i as int - 1));
            assert(message@.take(i as int).last() == message@[i as int - 1]);
        }
    }
    proof {
        assert(message@.take(message@.len() as int) =~= message@);
    }
    acc
}

/// The byte payload an offchain identity signs for one call: an operation tag
/// followed by the operation's parameters, little-endian.
pub open spec fn call_payload(call: Call) -> Seq<u8> {
    match call {
        Call::CreateBooking => seq![0u8],
        Call::CompleteBooking => seq![1u8],
        Call::SetCounter(value) => seq![
            2u8,
            (value & 0xff) as u8,
            ((value >> 8u32) & 0xff) as u8,
            ((value >> 16u32) & 0xff) as u8,
            ((value >> 24u32) & 0xff) as u8,
        ],
        Call::IncrementCounter => seq![3u8],
    }
}

/// Encode one call as its signing payload.
pub fn encode_call(call: Call) -> (payload: Vec<u8>)
    ensures
        payload@ == call_payload(call),
{
    let mut payload: Vec<u8> = Vec::new();
    match call {
        Call::CreateBooking => {
            payload.push(0u8);
        },
        Call::CompleteBooking => {
            payload.push(1u8);
        },
        Call::SetCounter(value) => {
            payload.push(2u8);
            payload.push((value & 0xff) as u8);
            payload.push(((value >> 8u32) & 0xff) as u8);
            payload.push(((value >> 16u32) & 0xff) as u8);
            payload.push(((value >> 24u32) & 0xff) as u8);
        },
        Call::IncrementCounter => {
            payload.push(3u8);
        },
    }
    proof {
        assert(payload@ =~= call_payload(call));
    }
    payload
}

/// One concrete signature scheme usable with the offchain key class: it can
/// derive the public key of a secret, sign a message with a secret, and check
/// a signature against a public key, and its own signatures must verify.
pub trait SignatureScheme: Sized {
    /// The public key derived from `secret`.
    spec fn public_spec(&self, secret: u64) -> u64;

    /// The signature this scheme produces for `message` under `secret`.
    spec fn sign_spec(&self, secret: u64, message: Seq<u8>) -> u64;

    /// Whether `signature` is valid for `message` under `public`.
    spec fn verify_spec(&self, public: u64, message: Seq<u8>, signature: u64) -> bool;

    fn derive_public_key(&self, secret: u64) -> (public: u64)
        ensures
            public == self.public_spec(secret),
    ;

    fn sign(&self, secret: u64, message: &Vec<u8>) -> (signature: u64)
        ensures
            signature == self.sign_spec(secret, message@),
    ;

    fn verify(&self, public: u64, message: &Vec<u8>, signature: u64) -> (ok: bool)
        ensures
            ok == self.verify_spec(public, message@, signature),
    ;

    /// A signature made with a secret verifies under that secret's public key.
    proof fn lemma_own_signature_verifies(&self, secret: u64, message: Seq<u8>)
        ensures
            self.verify_spec(self.public_spec(secret), message, self.sign_spec(secret, message)),
    ;
}

/// The test-only development scheme: the public key is the masked secret and
/// a signature is the message digest mixed with the secret. It offers no
/// cryptographic strength; it exists so the whole offchain path can run and
/// be checked without a real keystore.
pub struct DevScheme;

impl SignatureScheme for DevScheme {
    open spec fn public_spec(&self, secret: u64) -> u64 {
        secret ^ DEV_KEY_MASK
    }

    open spec fn sign_spec(&self, secret: u64, message: Seq<u8>) -> u64 {
        digest(message) ^ secret
    }

    open spec fn verify_spec(&self, public: u64, message: Seq<u8>, signature: u64) -> bool {
        signature == digest(message) ^ (public ^ DEV_KEY_MASK)
    }

    fn derive_public_key(&self, secret: u64) -> (public: u64) {
        secret ^ DEV_KEY_MASK
    }

    fn sign(&self, secret: u64, message: &Vec<u8>) -> (signature: u64) {
        digest_bytes(message) ^ secret
    }

    fn verify(&self, public: u64, message: &Vec<u8>, signature: u64) -> (ok: bool) {
        let d = digest_bytes(message);
        signature == d ^ (public ^ DEV_KEY_MASK)
    }

    proof fn lemma_own_signature_verifies(&self, secret: u64, message: Seq<u8>) {
        let mask = DEV_KEY_MASK;
        assert(((secret ^ mask) ^ mask) == secret) by (bit_vector);
    }
}

/// Module configuration, fixed at process startup: it selects the concrete
/// signature scheme bound to the offchain key-type tag.
pub trait Config {
    type Scheme: SignatureScheme;
}

/// The development configuration: binds the key class to `DevScheme`.
pub struct DevConfig;

impl Config for DevConfig {
    type Scheme = DevScheme;
}

/// A call signed by an offchain identity, ready for the host's submission
/// interface. The public key doubles as the submitting account.
#[derive(Clone, Copy, Debug, PartialEq, Eq, Structural)]
pub struct SignedCall {
    pub call: Call,
    pub public: u64,
    pub signature: u64,
}

/// The local signing identity of one node's background process: the key for
/// the offchain key class, provisioned once at node setup, bound to the
/// configured scheme. It never reads or writes the ledger store.
pub struct OffchainIdentity<C: Config> {
    scheme: C::Scheme,
    secret: u64,
}

impl<C: Config> OffchainIdentity<C> {
    /// The scheme this identity signs with.
    pub closed spec fn scheme_spec(&self) -> C::Scheme {
        self.scheme
    }

    /// The local secret this identity holds.
    pub closed spec fn secret_spec(&self) -> u64 {
        self.secret
    }

    /// Bind a provisioned local key to the configured scheme.
    pub fn new(scheme: C::Scheme, secret: u64) -> (id: Self)
        ensures
            id.scheme_spec() == scheme,
            id.secret_spec() == secret,
    {
        OffchainIdentity { scheme, secret }
    }

    /// The account this identity submits as.
    pub fn public_key(&self) -> (public: u64)
        ensures
            public == self.scheme_spec().public_spec(self.secret_spec()),
    {
        self.scheme.derive_public_key(self.secret)
    }

    /// Construct a signed call embedding `call`, ready to hand to the host's
    /// submission interface for asynchronous, best-effort inclusion.
    pub fn sign_call(&self, call: Call) -> (sc: SignedCall)
        ensures
            sc.call == call,
            sc.public == self.scheme_spec().public_spec(self.secret_spec()),
            sc.signature == self.scheme_spec().sign_spec(self.secret_spec(), call_payload(call)),
    {
        let payload = encode_call(call);
        let public = self.scheme.derive_public_key(self.secret);
        let signature = self.scheme.sign(self.secret, &payload);
        SignedCall { call, public, signature }
    }
}

/// Check a submitted signed call before dispatch: a valid signature yields the
/// signer's account as a signed origin; anything else is rejected untouched.
pub fn authorize_signed_call<S: SignatureScheme>(scheme: &S, sc: &SignedCall) -> (r: Result<
    Origin,
    Error,
>)
    ensures
        if scheme.verify_spec(sc.public, call_payload(sc.call), sc.signature) {
            r == Ok::<Origin, Error>(Origin::Signed(sc.public))
        } else {
            r == Err::<Origin, Error>(Error::Unauthorized)
        },
{
    let payload = encode_call(sc.call);
    if scheme.verify(sc.public, &payload, sc.signature) {
        Ok(Origin::Signed(sc.public))
    } else {
        Err(Error::Unauthorized)
    }
}

} // verus!
