//! Node configuration and mesh identity.
//!
//! The configuration records the realm, bootstrap peers and network mode
//! the setup flow chooses; the identity is a fresh Ed25519 keypair with a
//! derived decentralized identifier. Key generation and base64 encoding
//! come from outside crates behind trusted declarations; everything
//! assembled from their results is verified. Persisting the files is the
//! embedding's job.

use vstd::prelude::*;
use vstd::string::*;

verus! {

/// System configuration chosen by the setup flow.
#[derive(Debug, Clone, PartialEq, Eq)]
pub struct MaculaConfig {
    /// Mesh realm, such as `io.macula`.
    pub realm: String,
    /// Bootstrap peer URLs.
    pub bootstrap_peers: Vec<String>,
    pub network: NetworkConfig,
    /// Node identifier, set once an identity exists.
    pub node_id: Option<String>,
}

/// Network configuration chosen by the setup flow.
#[derive(Debug, Clone, PartialEq, Eq)]
pub struct NetworkConfig {
    /// Automatic addressing when true, static otherwise.
    pub dhcp: bool,
    /// Static address, when `dhcp` is false.
    pub ip_address: Option<String>,
    /// Gateway, when `dhcp` is false.
    pub gateway: Option<String>,
    /// Name servers.
    pub dns: Vec<String>,
}

/// What the default network configuration holds: automatic addressing and
/// two well-known name servers.
pub open spec fn network_is_default(n: NetworkConfig) -> bool {
    &&& n.dhcp
    &&& n.ip_address is None
    &&& n.gateway is None
    &&& n.dns@.len() == 2
    &&& n.dns@[0]@ == "1.1.1.1"@
    &&& n.dns@[1]@ == "8.8.8.8"@
}

/// What the default configuration holds: the public realm, its bootstrap
/// server, default network settings and no node identifier yet.
pub open spec fn config_is_default(c: MaculaConfig) -> bool {
    &&& c.realm@ == "io.macula"@
    &&& c.bootstrap_peers@.len() == 1
    &&& c.bootstrap_peers@[0]@ == "https://boot.macula.io:443"@
    &&& network_is_default(c.network)
    &&& c.node_id is None
}

impl Default for NetworkConfig {
    /// The default network configuration.
    fn default() -> (r: Self)
        ensures
            network_is_default(r),
    {
        let mut dns: Vec<String> = Vec::new();
        dns.push(String::from_str("1.1.1.1"));
        dns.push(String::from_str("8.8.8.8"));
        NetworkConfig { dhcp: true, ip_address: None, gateway: None, dns }
    }
}

impl Default for MaculaConfig {
    /// The default configuration.
    fn default() -> (r: Self)
        ensures
            config_is_default(r),
    {
        let mut bootstrap_peers: Vec<String> = Vec::new();
        bootstrap_peers.push(String::from_str("https://boot.macula.io:443"));
        MaculaConfig {
            realm: String::from_str("io.macula"),
            bootstrap_peers,
            network: NetworkConfig::default(),
            node_id: None,
        }
    }
}

/// Token obtained by pairing with the portal.
#[derive(Debug, Clone, PartialEq, Eq)]
pub struct PortalToken {
    pub refresh_token: String,
    pub user_name: String,
    pub org_identity: String,
}

/// The Ed25519 public key derived from a 32-byte secret key, as
/// `ed25519_dalek::SigningKey::verifying_key` computes it: a function of
/// the secret bytes alone.
pub uninterp spec fn ed25519_public_of(sk: Seq<u8>) -> Seq<u8>;

/// Relies on `ed25519_dalek::SigningKey::generate` seeded from the
/// operating system's randomness, with `SigningKey::verifying_key` and
/// the two `to_bytes`: a fresh keypair as bytes, public half first. The
/// secret half is random, so nothing is promised of its value; the
/// public half is the Ed25519 derivation of the secret half.
#[verifier::external_body]
fn generate_keypair() -> (r: (Vec<u8>, Vec<u8>))
    ensures
        r.0@.len() == 32,
        r.1@.len() == 32,
        r.0@ == ed25519_public_of(r.1@),
{
    let sk = ed25519_dalek::SigningKey::generate(&mut rand::rngs::OsRng);
    (sk.verifying_key().to_bytes().to_vec(), sk.to_bytes().to_vec())
}

/// The base64 encoding of the bytes under the standard padded alphabet.
pub uninterp spec fn b64_std_of(bytes: Seq<u8>) -> Seq<char>;

/// The base64 encoding of the bytes under the URL-safe unpadded alphabet.
pub uninterp spec fn b64_url_of(bytes: Seq<u8>) -> Seq<char>;

/// Relies on base64's `Engine::encode` with the `STANDARD` engine: the
/// padded encoding, four characters for every started group of three
/// bytes, a function of the bytes alone.
#[verifier::external_body]
fn b64_std_encode(bytes: &Vec<u8>) -> (r: String)
    requires
        bytes@.len() < 0x1000_0000_0000_0000,
    ensures
        r@ == b64_std_of(bytes@),
        r@.len() == 4 * ((bytes@.len() + 2) / 3),
{
    base64::Engine::encode(&base64::engine::general_purpose::STANDARD, bytes)
}

/// Relies on base64's `Engine::encode` with the `URL_SAFE_NO_PAD` engine:
/// the unpadded URL-safe encoding, whose length is four characters per
/// full group of three bytes plus two or three for a trailing group, a
/// function of the bytes alone.
#[verifier::external_body]
fn b64_url_encode(bytes: &Vec<u8>) -> (r: String)
    requires
        bytes@.len() < 0x1000_0000_0000_0000,
    ensures
        r@ == b64_url_of(bytes@),
        r@.len() == 4 * (bytes@.len() / 3) + (if bytes@.len() % 3 == 0 {
            0int
        } else if bytes@.len() % 3 == 1 {
            2int
        } else {
            3int
        }),
{
    base64::Engine::encode(&base64::engine::general_purpose::URL_SAFE_NO_PAD, bytes)
}

/// Mesh identity: an Ed25519 keypair and the identifier derived from it.
#[derive(Debug, Clone, PartialEq, Eq)]
pub struct MeshIdentity {
    /// Standard base64 of the 32-byte public key.
    pub public_key: String,
    /// Standard base64 of the 32-byte secret key. Sensitive.
    pub private_key: String,
    /// Identifier derived from the public key.
    pub did: String,
}

/// What a generated identity looks like: a 32-byte keypair whose public
/// half is the Ed25519 derivation of the secret half, both keys in
/// standard base64, and the identifier derived from the first sixteen
/// public-key bytes.
pub open spec fn identity_wf(m: MeshIdentity) -> bool {
    exists|pk: Seq<u8>, sk: Seq<u8>|
        {
            &&& pk.len() == 32
            &&& sk.len() == 32
            &&& pk == ed25519_public_of(sk)
            &&& m.public_key@ == #[trigger] b64_std_of(pk)
            &&& m.private_key@ == #[trigger] b64_std_of(sk)
            &&& m.did@ == spec_did(pk)
        }
}

/// The identifier derived from a public key: a fixed prefix and the
/// URL-safe encoding of the key's first sixteen bytes.
pub open spec fn spec_did(pk: Seq<u8>) -> Seq<char> {
    "did:macula:"@ + b64_url_of(pk.take(16))
}

/// Derive the displayable identifier from a 32-byte public key.
pub fn did_for_key(pk: &Vec<u8>) -> (r: String)
    requires
        pk@.len() == 32,
    ensures
        r@ == spec_did(pk@),
        r@.len() == 33,
{
    let mut head: Vec<u8> = Vec::new();
    let mut i: usize = 0;
    while i < 16
        invariant
            pk@.len() == 32,
            i <= 16,
            head@ == pk@.take(i as int),
        decreases 16 - i,
    {
        head.push(pk[i]);
        proof {
            assert(head@ =~= pk@.take(i + 1));
        }
        i = i + 1;
    }
    let enc = b64_url_encode(&head);
    let mut s = String::from_str("did:macula:");
    s.append(enc.as_str());
    proof {
        reveal_strlit("did:macula:");
    }
    s
}

impl MeshIdentity {
    /// Assemble an identity from a 32-byte keypair.
    pub fn from_keys(pk: &Vec<u8>, sk: &Vec<u8>) -> (r: MeshIdentity)
        requires
            pk@.len() == 32,
            sk@.len() == 32,
        ensures
            r.public_key@ == b64_std_of(pk@),
            r.private_key@ == b64_std_of(sk@),
            r.did@ == spec_did(pk@),
            r.public_key@.len() == 44,
            r.private_key@.len() == 44,
            r.did@.len() == 33,
    {
        let public_key = b64_std_encode(pk);
        let private_key = b64_std_encode(sk);
        let did = did_for_key(pk);
        let r = MeshIdentity { public_key, private_key, did };
        proof {
            assert(r.public_key@ == b64_std_of(pk@) && r.private_key@ == b64_std_of(sk@)
                && r.did@ == spec_did(pk@));
        }
        r
    }

    /// Generate a fresh Ed25519 keypair and derive the identity from it.
    pub fn generate() -> (r: MeshIdentity)
        ensures
            identity_wf(r),
            r.public_key@.len() == 44,
            r.private_key@.len() == 44,
            r.did@.len() == 33,
    {
        let (pkb, skb) = generate_keypair();
        let r = MeshIdentity::from_keys(&pkb, &skb);
        proof {
            assert(pkb@ == ed25519_public_of(skb@));
        }
        r
    }
}

} // verus!
