//! Credentials and authentication: the local signing capability, L1
//! credential derivation, per-request L2 header computation, and the
//! role-gated authentication context.

use vstd::prelude::*;
use vstd::string::{StringExecFns, StringSliceAdditionalSpecFns};

use crate::crypto::{
    base64url_decode, base64url_decoded, base64url_of, ecdsa_address, ecdsa_address_of,
    ecdsa_sign_of, hmac_sha256, hmac_sha256_of,
};
use crate::eip712::{auth_challenge_digest, compute_auth_challenge_digest};
use crate::encode::{
    ascii_seq, dec_digits, extend_bytes, hex_bytes, lemma_concat_cancel,
    lemma_dec_digits_are_digits, lemma_dec_digits_injective, u64_dec_bytes, u64_dec_string,
};
use crate::error::Error;
use crate::types::{checksum_hex, Address};

verus! {

/// A local signing capability: a secp256k1 private key held in memory for
/// the lifetime of a session, with the address derived from it. The key
/// material is never exposed; callers see only the address and signatures.
pub struct Signer {
    key: [u8; 32],
    address: Address,
}

impl Signer {
    /// The private scalar, visible to specifications only.
    pub closed spec fn key_seq(&self) -> Seq<u8> {
        self.key@
    }

    /// The signer's address.
    pub closed spec fn addr(&self) -> Address {
        self.address
    }

    /// The address is the one derived from the key.
    pub open spec fn wf(&self) -> bool {
        ecdsa_address_of(self.key_seq()) == Some(self.addr()@)
    }

    /// Take custody of a raw private key. Fails exactly where the bytes
    /// are not a valid secp256k1 secret scalar.
    pub fn from_key_bytes(key: [u8; 32]) -> (r: Result<Signer, Error>)
        ensures
            (r is Ok) <==> (ecdsa_address_of(key@) is Some),
            r matches Ok(s) ==> s.key_seq() == key@ && s.wf(),
            r matches Err(e) ==> e is Config,
    {
        match ecdsa_address(&key) {
            Some(a) => Ok(Signer { key, address: Address(a) }),
            None => Err(
                Error::Config { message: String::from_str("invalid secp256k1 private key") },
            ),
        }
    }

    /// The address this signer signs for.
    pub fn address(&self) -> (r: Address)
        ensures
            r == self.addr(),
    {
        self.address
    }

    /// Sign a 32-byte digest. Succeeds exactly where the capability
    /// produces a signature for this key and digest; failures surface as a
    /// signing error and are never retried.
    pub fn sign_digest(&self, digest: &[u8; 32]) -> (r: Result<[u8; 65], Error>)
        ensures
            (r is Ok) <==> (ecdsa_sign_of(self.key_seq(), digest@) is Some),
            r matches Ok(s) ==> ecdsa_sign_of(self.key_seq(), digest@) == Some(s@),
            r matches Err(e) ==> e is Signing,
    {
        match crate::crypto::ecdsa_sign(&self.key, digest) {
            Some(s) => Ok(s),
            None => Err(
                Error::Signing { message: String::from_str("the signer refused the digest") },
            ),
        }
    }
}

/// An issued API credential: key identifier, base64 secret, passphrase.
/// Immutable once obtained.
#[derive(Debug, Clone, PartialEq, Eq)]
pub struct ApiCredential {
    pub key: String,
    pub secret: String,
    pub passphrase: String,
}

impl ApiCredential {
    pub fn new(key: String, secret: String, passphrase: String) -> (r: ApiCredential)
        ensures
            r.key == key,
            r.secret == secret,
            r.passphrase == passphrase,
    {
        ApiCredential { key, secret, passphrase }
    }

    /// An identical copy.
    pub fn duplicate(&self) -> (r: ApiCredential)
        ensures
            r == *self,
    {
        ApiCredential {
            key: self.key.clone(),
            secret: self.secret.clone(),
            passphrase: self.passphrase.clone(),
        }
    }
}

/// Which identity a context authenticates as.
#[derive(Debug, Clone, Copy, PartialEq, Eq, Structural)]
pub enum Role {
    /// The signer's own identity.
    Principal,
    /// A delegated identity granted by the principal.
    Builder,
}

/// The capability set an operation requires.
#[derive(Debug, Clone, Copy, PartialEq, Eq, Structural)]
pub enum Scope {
    PrincipalOnly,
    BuilderOnly,
    Either,
}

/// Whether a role satisfies a required scope.
pub open spec fn role_satisfies(role: Role, scope: Scope) -> bool {
    match scope {
        Scope::PrincipalOnly => role is Principal,
        Scope::BuilderOnly => role is Builder,
        Scope::Either => true,
    }
}

/// Law: `Either` admits every role, and each exclusive scope admits
/// exactly its own role.
pub proof fn lemma_role_gating(role: Role)
    ensures
        role_satisfies(role, Scope::Either),
        role_satisfies(role, Scope::BuilderOnly) <==> role is Builder,
        role_satisfies(role, Scope::PrincipalOnly) <==> role is Principal,
{
}

/// The active authentication state of one client handle: the credential in
/// use, the role it carries, and the principal credential retained
/// underneath so signer-level operations survive a promotion.
pub struct AuthContext {
    /// The credential the context currently authenticates with.
    pub credential: ApiCredential,
    /// The active role.
    pub role: Role,
    /// The principal credential, retained beneath a promoted builder role.
    pub principal: ApiCredential,
}

impl AuthContext {
    /// A principal context authenticates with the principal credential.
    pub open spec fn wf(&self) -> bool {
        self.role is Principal ==> self.credential == self.principal
    }

    /// A principal context over freshly issued or pre-provisioned
    /// credentials.
    pub fn principal(credential: ApiCredential) -> (r: AuthContext)
        ensures
            r.role is Principal,
            r.credential == credential,
            r.principal == credential,
            r.wf(),
    {
        let retained = credential.duplicate();
        AuthContext { credential, role: Role::Principal, principal: retained }
    }

    /// Replace the active role with a delegated builder identity. The
    /// whole context is replaced in one step — a cancelled caller can
    /// never observe a partial update. Fails with a scope error on a
    /// context that is already Builder, so privilege cannot chain.
    pub fn promote(self, builder_credential: ApiCredential) -> (r: Result<AuthContext, Error>)
        ensures
            self.role is Principal ==> (r matches Ok(c) && c.role is Builder && c.credential
                == builder_credential && c.principal == self.principal && c.wf()),
            self.role is Builder ==> (r matches Err(e) && e matches Error::Scope {
                required,
                active,
            } && required is PrincipalOnly && active is Builder),
    {
        match self.role {
            Role::Principal => Ok(
                AuthContext {
                    credential: builder_credential,
                    role: Role::Builder,
                    principal: self.principal,
                },
            ),
            Role::Builder => Err(
                Error::Scope { required: Scope::PrincipalOnly, active: Role::Builder },
            ),
        }
    }

    /// Check the active role against an operation's required scope. A
    /// mismatch is detected locally and is recoverable: promote or
    /// re-authenticate, then retry.
    pub fn require_scope(&self, required: Scope) -> (r: Result<(), Error>)
        ensures
            (r is Ok) <==> role_satisfies(self.role, required),
            r matches Err(e) ==> (e matches Error::Scope { required: rq, active } && rq == required
                && active == self.role),
    {
        let ok = match required {
            Scope::PrincipalOnly => matches!(self.role, Role::Principal),
            Scope::BuilderOnly => matches!(self.role, Role::Builder),
            Scope::Either => true,
        };
        if ok {
            Ok(())
        } else {
            Err(Error::Scope { required, active: self.role })
        }
    }
}

/// The four authentication headers stamped on an L2 request: credential
/// key, signature, timestamp, passphrase.
#[derive(Debug, Clone, PartialEq, Eq)]
pub struct L2Headers {
    pub key: String,
    pub signature: String,
    pub timestamp: String,
    pub passphrase: String,
}

/// The exact byte string an L2 request MACs: decimal timestamp, method,
/// path and body, concatenated with no delimiters, verbatim as they appear
/// on the wire.
pub open spec fn l2_message(timestamp: u64, method: Seq<u8>, path: Seq<u8>, body: Seq<u8>) -> Seq<
    u8,
> {
    dec_digits(timestamp as nat) + method + path + body
}

/// The L2 signature: base64 of the HMAC-SHA256 tag over the message, under
/// the base64url-decoded secret.
pub open spec fn l2_signature(
    secret_key: Seq<u8>,
    timestamp: u64,
    method: Seq<u8>,
    path: Seq<u8>,
    body: Seq<u8>,
) -> Seq<char> {
    base64url_of(hmac_sha256_of(secret_key, l2_message(timestamp, method, path, body)))
}

/// Law: requests at different timestamps never MAC the same message, even
/// for identical method, path and body. The timestamp's digits end where
/// the method's first byte begins, so the digit prefix pins the timestamp.
/// HTTP method names never begin with a digit.
pub proof fn lemma_l2_message_freshness(
    t1: u64,
    t2: u64,
    method: Seq<u8>,
    path: Seq<u8>,
    body: Seq<u8>,
)
    requires
        t1 != t2,
        method.len() > 0,
        !(48 <= method[0] <= 57),
    ensures
        l2_message(t1, method, path, body) != l2_message(t2, method, path, body),
{
    let d1 = dec_digits(t1 as nat);
    let d2 = dec_digits(t2 as nat);
    let rest = method + path + body;
    lemma_dec_digits_are_digits(t1 as nat);
    lemma_dec_digits_are_digits(t2 as nat);
    if l2_message(t1, method, path, body) == l2_message(t2, method, path, body) {
        assert(l2_message(t1, method, path, body) =~= d1 + rest);
        assert(l2_message(t2, method, path, body) =~= d2 + rest);
        if d1.len() == d2.len() {
            lemma_concat_cancel(d1, rest, d2, rest);
            lemma_dec_digits_injective(t1 as nat, t2 as nat);
        } else if d1.len() < d2.len() {
            let i = d1.len() as int;
            assert((d1 + rest)[i] == rest[0]);
            assert(rest[0] == method[0]);
            assert((d2 + rest)[i] == d2[i]);
            assert(48 <= d2[i] <= 57);
        } else {
            let i = d2.len() as int;
            assert((d2 + rest)[i] == rest[0]);
            assert(rest[0] == method[0]);
            assert((d1 + rest)[i] == d1[i]);
            assert(48 <= d1[i] <= 57);
        }
    }
}

impl ApiCredential {
    /// Compute the four L2 headers for a request, MACing the message with
    /// the decoded secret. The timestamp must be the time of this call —
    /// headers are computed fresh per request and never cached. Fails
    /// exactly where the secret is not valid base64, which is caller
    /// misuse, not a runtime fault.
    pub fn l2_headers(&self, method: &str, path: &str, body: &str, timestamp: u64) -> (r: Result<
        L2Headers,
        Error,
    >)
        ensures
            (r is Ok) <==> (base64url_decoded(self.secret@) is Some),
            r matches Ok(h) ==> {
                &&& base64url_decoded(self.secret@) matches Some(k) && h.signature@
                    == l2_signature(
                    k,
                    timestamp,
                    method.spec_bytes(),
                    path.spec_bytes(),
                    body.spec_bytes(),
                )
                &&& h.key@ == self.key@
                &&& h.passphrase@ == self.passphrase@
                &&& h.timestamp@ == ascii_seq(dec_digits(timestamp as nat))
            },
            r matches Err(e) ==> e is Config,
    {
        let key = match base64url_decode(self.secret.as_str()) {
            Some(k) => k,
            None => {
                return Err(
                    Error::Config {
                        message: String::from_str("credential secret is not valid base64"),
                    },
                );
            },
        };
        let mut msg = u64_dec_bytes(timestamp);
        extend_bytes(&mut msg, method.as_bytes());
        extend_bytes(&mut msg, path.as_bytes());
        extend_bytes(&mut msg, body.as_bytes());
        proof {
            assert(msg@ =~= l2_message(
                timestamp,
                method.spec_bytes(),
                path.spec_bytes(),
                body.spec_bytes(),
            ));
        }
        let tag = hmac_sha256(key.as_slice(), msg.as_slice());
        let signature = crate::crypto::base64url_encode(tag.as_slice());
        Ok(
            L2Headers {
                key: self.key.clone(),
                signature,
                timestamp: u64_dec_string(timestamp),
                passphrase: self.passphrase.clone(),
            },
        )
    }
}

impl AuthContext {
    /// The L2 headers for an operation that requires `scope`, under the
    /// active credential. A scope mismatch is rejected here, before any
    /// header is computed and before any network call could be attempted.
    pub fn authenticated_headers(
        &self,
        required: Scope,
        method: &str,
        path: &str,
        body: &str,
        timestamp: u64,
    ) -> (r: Result<L2Headers, Error>)
        ensures
            !role_satisfies(self.role, required) ==> (r matches Err(e) && e is Scope),
            role_satisfies(self.role, required) ==> {
                &&& (r is Ok) <==> (base64url_decoded(self.credential.secret@) is Some)
                &&& r matches Ok(h) ==> {
                    &&& base64url_decoded(self.credential.secret@) matches Some(k) && h.signature@
                        == l2_signature(
                        k,
                        timestamp,
                        method.spec_bytes(),
                        path.spec_bytes(),
                        body.spec_bytes(),
                    )
                    &&& h.key@ == self.credential.key@
                    &&& h.passphrase@ == self.credential.passphrase@
                    &&& h.timestamp@ == ascii_seq(dec_digits(timestamp as nat))
                }
                &&& r matches Err(e) ==> e is Config
            },
    {
        match self.require_scope(required) {
            Ok(()) => self.credential.l2_headers(method, path, body, timestamp),
            Err(e) => Err(e),
        }
    }
}

/// The four headers of the L1 credential-derivation request: checksummed
/// address, hex signature over the challenge, decimal timestamp and nonce.
#[derive(Debug, Clone, PartialEq, Eq)]
pub struct L1Headers {
    pub address: String,
    pub signature: String,
    pub timestamp: String,
    pub nonce: String,
}

impl Signer {
    /// Sign the L1 authentication challenge for this signer at a timestamp
    /// and nonce. Deterministic: equal inputs give byte-identical headers,
    /// which the exchange relies on when it recomputes the expected
    /// signature for a credential-derivation request. Fails exactly where
    /// the capability refuses the digest.
    pub fn l1_headers(&self, chain_id: u64, timestamp: u64, nonce: u64) -> (r: Result<
        L1Headers,
        Error,
    >)
        ensures
            (r is Ok) <==> (ecdsa_sign_of(
                self.key_seq(),
                auth_challenge_digest(self.addr()@, chain_id, timestamp, nonce),
            ) is Some),
            r matches Ok(h) ==> {
                &&& ecdsa_sign_of(
                    self.key_seq(),
                    auth_challenge_digest(self.addr()@, chain_id, timestamp, nonce),
                ) matches Some(sig) && h.signature@ == ascii_seq(
                    seq![48u8, 120u8] + hex_bytes(sig),
                )
                &&& h.address@ == ascii_seq(seq![48u8, 120u8] + checksum_hex(self.addr()@))
                &&& h.timestamp@ == ascii_seq(dec_digits(timestamp as nat))
                &&& h.nonce@ == ascii_seq(dec_digits(nonce as nat))
            },
            r matches Err(e) ==> e is Signing,
    {
        let digest = compute_auth_challenge_digest(&self.address, chain_id, timestamp, nonce);
        let sig = match self.sign_digest(&digest) {
            Ok(s) => s,
            Err(e) => {
                return Err(e);
            },
        };
        Ok(
            L1Headers {
                address: self.address.to_checksum_hex(),
                signature: crate::encode::hex_string_0x(sig.as_slice()),
                timestamp: u64_dec_string(timestamp),
                nonce: u64_dec_string(nonce),
            },
        )
    }
}

/// Law: the L1 challenge digest and its signature are functions of the
/// signer's key and address, the chain, the timestamp and the nonce alone,
/// so repeated derivation with equal inputs is byte-identical.
pub proof fn lemma_l1_determinism(
    k1: Seq<u8>,
    a1: Seq<u8>,
    c1: u64,
    t1: u64,
    n1: u64,
    k2: Seq<u8>,
    a2: Seq<u8>,
    c2: u64,
    t2: u64,
    n2: u64,
)
    requires
        k1 == k2,
        a1 == a2,
        c1 == c2,
        t1 == t2,
        n1 == n2,
    ensures
        auth_challenge_digest(a1, c1, t1, n1) == auth_challenge_digest(a2, c2, t2, n2),
        ecdsa_sign_of(k1, auth_challenge_digest(a1, c1, t1, n1)) == ecdsa_sign_of(
            k2,
            auth_challenge_digest(a2, c2, t2, n2),
        ),
{
}

} // verus!
