//! TLS configurations made from certificate bundles.
//!
//! Services talk mutual TLS: the server demands a certificate of its client, and the client always
//! presents one. Both trust the bundle's root certificates and no others.
use rustls::ClientConfig;
use rustls::RootCertStore;
use rustls::ServerConfig;
use vstd::prelude::*;

use crate::errors::AppError;
use crate::models::CertBundle;

verus! {

/// `rustls::RootCertStore`: the trust anchors of a verifier.
#[verifier::external_type_specification]
#[verifier::external_body]
pub struct ExRootCertStore(rustls::RootCertStore);

/// `rustls::ServerConfig`.
#[verifier::external_type_specification]
#[verifier::external_body]
pub struct ExServerConfig(rustls::ServerConfig);

/// `rustls::ClientConfig`.
#[verifier::external_type_specification]
#[verifier::external_body]
pub struct ExClientConfig(rustls::ClientConfig);

/// What a TLS server presents to its clients, and the anchors that it demands a client certificate
/// of; none where it demands no certificate.
pub struct ServerTerms {
    pub chain: Seq<Seq<u8>>,
    pub key: Seq<u8>,
    pub client_anchors: Option<Seq<Seq<u8>>>,
}

/// What a TLS client presents to its servers, and the anchors that it trusts.
pub struct ClientTerms {
    pub chain: Seq<Seq<u8>>,
    pub key: Seq<u8>,
    pub server_anchors: Seq<Seq<u8>>,
}

/// A list of outcomes: bytes, or the text of an error.
pub type Items = Seq<Result<Seq<u8>, Seq<char>>>;

/// The outcome that a result stands for.
pub open spec fn item(result: Result<Vec<u8>, String>) -> Result<Seq<u8>, Seq<char>> {
    match result {
        Ok(bytes) => Ok(bytes@),
        Err(why) => Err(why@),
    }
}

/// The outcomes that a list of results stands for.
pub open spec fn items(results: Seq<Result<Vec<u8>, String>>) -> Items {
    results.map_values(|result: Result<Vec<u8>, String>| item(result))
}

/// The bytes of each entry of a list.
pub open spec fn bytes_of(list: Seq<Vec<u8>>) -> Seq<Seq<u8>> {
    list.map_values(|entry: Vec<u8>| entry@)
}

/// All the bytes of a list of outcomes, or its first error.
pub open spec fn collected(items: Items) -> Result<Seq<Seq<u8>>, Seq<char>>
    decreases items.len(),
{
    if items.len() == 0 {
        Ok(Seq::empty())
    } else {
        match collected(items.drop_last()) {
            Ok(front) => match items.last() {
                Ok(bytes) => Ok(front.push(bytes)),
                Err(why) => Err(why),
            },
            Err(why) => Err(why),
        }
    }
}

/// What follows the first error does not matter.
proof fn first_error_counts(items: Items, n: int)
    requires
        0 <= n <= items.len(),
        collected(items.take(n)) is Err,
    ensures
        collected(items) == collected(items.take(n)),
    decreases items.len(),
{
    if n == items.len() {
        assert(items.take(n) == items);
    } else {
        assert(items.drop_last().take(n) == items.take(n));
        first_error_counts(items.drop_last(), n);
    }
}

/// The certificates that `rustls_pemfile::certs` finds in a PEM text, and the errors on the way.
pub uninterp spec fn certificates_in(pem: Seq<char>) -> Items;

/// The first private key that `rustls_pemfile::pkcs8_private_keys` finds in a PEM text, or the error
/// that comes first; none if the text holds neither.
pub uninterp spec fn first_key_in(pem: Seq<char>) -> Option<Result<Seq<u8>, Seq<char>>>;

/// The trust anchor that `rustls::RootCertStore::add` takes from a certificate, or the text of its
/// error.
pub uninterp spec fn anchor_in(certificate: Seq<u8>) -> Result<Seq<u8>, Seq<char>>;

/// The trust anchors in a store, in the order in which they were added.
pub uninterp spec fn anchors(store: RootCertStore) -> Seq<Seq<u8>>;

/// The text of the error that `rustls` gives to a certificate chain and its private key: that of a
/// key that it cannot read, or that is not the first certificate's. None if they fit.
pub uninterp spec fn identity_fault(chain: Seq<Seq<u8>>, key: Seq<u8>) -> Option<Seq<char>>;

/// What a server with this configuration presents and demands.
pub uninterp spec fn server_terms(config: ServerConfig) -> ServerTerms;

/// What a client with this configuration presents and trusts.
pub uninterp spec fn client_terms(config: ClientConfig) -> ClientTerms;

/// `rustls_pemfile::certs`: what is found in a PEM text, in order.
#[verifier::external_body]
fn pem_certificates(pem: &str) -> (r: Vec<Result<Vec<u8>, String>>)
    ensures
        items(r@) == certificates_in(pem@),
{
    let mut reader = pem.as_bytes();
    rustls_pemfile::certs(&mut reader).map(
        |found| found.map(|der| der.to_vec()).map_err(|e| e.to_string()),
    ).collect()
}

/// `rustls_pemfile::pkcs8_private_keys`: what is found first in a PEM text.
#[verifier::external_body]
fn pem_first_key(pem: &str) -> (r: Option<Result<Vec<u8>, String>>)
    ensures
        match r {
            Some(found) => first_key_in(pem@) == Some(item(found)),
            None => first_key_in(pem@) is None,
        },
{
    let mut reader = pem.as_bytes();
    let found = rustls_pemfile::pkcs8_private_keys(&mut reader).next();
    found.map(|key| key.map(|der| der.secret_pkcs8_der().to_vec()).map_err(|e| e.to_string()))
}

/// `rustls::RootCertStore::empty`: a store without anchors.
pub assume_specification[ rustls::RootCertStore::empty ]() -> (r: rustls::RootCertStore)
    ensures
        anchors(r) == Seq::<Seq<u8>>::empty(),
;

/// `rustls::RootCertStore::add`: appends the anchor of a certificate, or gives an error and leaves
/// the store as it was.
#[verifier::external_body]
fn add_root(store: &mut RootCertStore, certificate: &Vec<u8>) -> (r: Result<(), String>)
    ensures
        match (r, anchor_in(certificate@)) {
            (Ok(_), Ok(anchor)) => anchors(*final(store)) == anchors(*old(store)).push(anchor),
            (Err(why), Err(expected)) => why@ == expected && anchors(*final(store)) == anchors(
                *old(store),
            ),
            _ => false,
        },
{
    store.add(certificate.clone().into()).map_err(|e| e.to_string())
}

/// `rustls::ServerConfig` with a `WebPkiClientVerifier` and `with_single_cert`, on the `ring`
/// provider. The verifier is refused exactly without anchors; the chain and the key are refused as
/// `CertifiedKey::from_der` refuses them.
#[verifier::external_body]
fn mutual_server(chain: &Vec<Vec<u8>>, key: &Vec<u8>, roots: RootCertStore) -> (r: Result<
    ServerConfig,
    String,
>)
    ensures
        match r {
            Ok(config) => {
                &&& anchors(roots).len() > 0
                &&& identity_fault(bytes_of(chain@), key@) is None
                &&& server_terms(config) == (ServerTerms {
                    chain: bytes_of(chain@),
                    key: key@,
                    client_anchors: Some(anchors(roots)),
                })
            },
            Err(why) => if anchors(roots).len() == 0 {
                why@ == "no root trust anchors were provided"@
            } else {
                identity_fault(bytes_of(chain@), key@) == Some(why@)
            },
        },
{
    let provider = std::sync::Arc::new(rustls::crypto::ring::default_provider());
    let verifier = rustls::server::WebPkiClientVerifier::builder_with_provider(
        roots.into(),
        provider.clone(),
    ).build().map_err(|e| e.to_string())?;
    let chain = chain.iter().map(|der| der.clone().into()).collect();
    let key = rustls::pki_types::PrivatePkcs8KeyDer::from(key.clone()).into();
    let builder = ServerConfig::builder_with_provider(provider);
    let builder = builder.with_safe_default_protocol_versions().unwrap();
    let builder = builder.with_client_cert_verifier(verifier);
    builder.with_single_cert(chain, key).map_err(|e| e.to_string())
}

/// `rustls::ServerConfig` with `with_no_client_auth` and `with_single_cert`, on the `ring` provider.
/// The chain and the key are refused as `CertifiedKey::from_der` refuses them.
#[verifier::external_body]
fn open_server(chain: &Vec<Vec<u8>>, key: &Vec<u8>) -> (r: Result<ServerConfig, String>)
    ensures
        match r {
            Ok(config) => {
                &&& identity_fault(bytes_of(chain@), key@) is None
                &&& server_terms(config) == (ServerTerms {
                    chain: bytes_of(chain@),
                    key: key@,
                    client_anchors: None,
                })
            },
            Err(why) => identity_fault(bytes_of(chain@), key@) == Some(why@),
        },
{
    let provider = std::sync::Arc::new(rustls::crypto::ring::default_provider());
    let chain = chain.iter().map(|der| der.clone().into()).collect();
    let key = rustls::pki_types::PrivatePkcs8KeyDer::from(key.clone()).into();
    let builder = ServerConfig::builder_with_provider(provider);
    let builder = builder.with_safe_default_protocol_versions().unwrap();
    builder.with_no_client_auth().with_single_cert(chain, key).map_err(|e| e.to_string())
}

/// `rustls::ClientConfig` with `with_root_certificates` and `with_client_auth_cert`, on the `ring`
/// provider. The chain and the key are refused as `CertifiedKey::from_der` refuses them.
#[verifier::external_body]
fn mutual_client(chain: &Vec<Vec<u8>>, key: &Vec<u8>, roots: RootCertStore) -> (r: Result<
    ClientConfig,
    String,
>)
    ensures
        match r {
            Ok(config) => {
                &&& identity_fault(bytes_of(chain@), key@) is None
                &&& client_terms(config) == (ClientTerms {
                    chain: bytes_of(chain@),
                    key: key@,
                    server_anchors: anchors(roots),
                })
            },
            Err(why) => identity_fault(bytes_of(chain@), key@) == Some(why@),
        },
{
    let provider = std::sync::Arc::new(rustls::crypto::ring::default_provider());
    let chain = chain.iter().map(|der| der.clone().into()).collect();
    let key = rustls::pki_types::PrivatePkcs8KeyDer::from(key.clone()).into();
    let builder = ClientConfig::builder_with_provider(provider);
    let builder = builder.with_safe_default_protocol_versions().unwrap();
    let builder = builder.with_root_certificates(roots);
    builder.with_client_auth_cert(chain, key).map_err(|e| e.to_string())
}

/// The certificates of a PEM text in order, or the first error.
pub open spec fn chain_in(pem: Seq<char>) -> Result<Seq<Seq<u8>>, Seq<char>> {
    collected(certificates_in(pem))
}

/// The first private key of a PEM text, or why there is none.
pub open spec fn key_in(pem: Seq<char>) -> Result<Seq<u8>, Seq<char>> {
    match first_key_in(pem) {
        Some(found) => found,
        None => Err("no private key found in PEM"@),
    }
}

/// The trust anchors of the certificates of a PEM text, or the first error.
pub open spec fn anchors_in(pem: Seq<char>) -> Result<Seq<Seq<u8>>, Seq<char>> {
    match chain_in(pem) {
        Ok(chain) => collected(chain.map_values(|certificate: Seq<u8>| anchor_in(certificate))),
        Err(why) => Err(why),
    }
}

/// Whether `error` is the certificate error with the text `why`.
pub open spec fn is_cert_parse(error: AppError, why: Seq<char>) -> bool {
    error matches AppError::CertParse(text) && text@ == why
}

/// Whether `error` is the TLS error with the text `why`.
pub open spec fn is_tls_config(error: AppError, why: Seq<char>) -> bool {
    error matches AppError::TlsConfig(text) && text@ == why
}

/// The certificates of a PEM text, in DER form.
pub fn parse_cert_chain(pem: &str) -> (r: Result<Vec<Vec<u8>>, AppError>)
    ensures
        match (r, chain_in(pem@)) {
            (Ok(chain), Ok(expected)) => bytes_of(chain@) == expected,
            (Err(error), Err(why)) => is_cert_parse(error, why),
            _ => false,
        },
{
    let found: Vec<Result<Vec<u8>, String>> = pem_certificates(pem);
    let ghost all = certificates_in(pem@);
    let mut chain: Vec<Vec<u8>> = Vec::new();
    let mut i: usize = 0;
    assert(bytes_of(chain@) == Seq::<Seq<u8>>::empty());
    while i < found.len()
        invariant
            i <= found.len(),
            all == items(found@),
            all == certificates_in(pem@),
            collected(all.take(i as int)) == Ok::<Seq<Seq<u8>>, Seq<char>>(bytes_of(chain@)),
        decreases found.len() - i,
    {
        proof {
            assert(all.take(i + 1).drop_last() == all.take(i as int));
            assert(all.take(i + 1).last() == item(found@[i as int]));
        }
        match &found[i] {
            Ok(der) => {
                let ghost before = bytes_of(chain@);
                chain.push(vstd::slice::slice_to_vec(der.as_slice()));
                assert(chain@.last()@ == der@);
                assert(bytes_of(chain@) == before.push(der@));
            },
            Err(why) => {
                proof {
                    first_error_counts(all, i + 1);
                }
                return Err(AppError::CertParse(why.clone()));
            },
        }
        i += 1;
    }
    assert(all.take(i as int) == all);
    Ok(chain)
}

/// The first private key of a PEM text, in the DER form of PKCS #8.
pub fn parse_private_key(pem: &str) -> (r: Result<Vec<u8>, AppError>)
    ensures
        match (r, key_in(pem@)) {
            (Ok(key), Ok(expected)) => key@ == expected,
            (Err(error), Err(why)) => is_cert_parse(error, why),
            _ => false,
        },
{
    match pem_first_key(pem) {
        Some(Ok(key)) => Ok(key),
        Some(Err(why)) => Err(AppError::CertParse(why)),
        None => Err(AppError::CertParse("no private key found in PEM".to_owned())),
    }
}

/// The store with the certificates of a PEM text.
pub fn build_root_store(ca_pem: &str) -> (r: Result<RootCertStore, AppError>)
    ensures
        match (r, anchors_in(ca_pem@)) {
            (Ok(store), Ok(expected)) => anchors(store) == expected,
            (Err(error), Err(why)) => is_cert_parse(error, why),
            _ => false,
        },
{
    let certificates: Vec<Vec<u8>> = match parse_cert_chain(ca_pem) {
        Ok(certificates) => certificates,
        Err(error) => {
            return Err(error);
        },
    };
    let ghost all = bytes_of(certificates@).map_values(
        |certificate: Seq<u8>| anchor_in(certificate),
    );
    let mut store: RootCertStore = RootCertStore::empty();
    let mut i: usize = 0;
    while i < certificates.len()
        invariant
            i <= certificates.len(),
            all == bytes_of(certificates@).map_values(
                |certificate: Seq<u8>| anchor_in(certificate),
            ),
            chain_in(ca_pem@) == Ok::<Seq<Seq<u8>>, Seq<char>>(bytes_of(certificates@)),
            collected(all.take(i as int)) == Ok::<Seq<Seq<u8>>, Seq<char>>(anchors(store)),
        decreases certificates.len() - i,
    {
        proof {
            assert(all.take(i + 1).drop_last() == all.take(i as int));
            assert(all.take(i + 1).last() == anchor_in(certificates@[i as int]@));
        }
        match add_root(&mut store, &certificates[i]) {
            Ok(_) => {},
            Err(why) => {
                proof {
                    first_error_counts(all, i + 1);
                }
                return Err(AppError::CertParse(why));
            },
        }
        i += 1;
    }
    assert(all.take(i as int) == all);
    Ok(store)
}

/// The chain, the key and the anchors of a bundle, or the first error among them.
pub open spec fn material(bundle: CertBundle) -> Result<
    (Seq<Seq<u8>>, Seq<u8>, Seq<Seq<u8>>),
    Seq<char>,
> {
    match (chain_in(bundle.cert_pem@), key_in(bundle.key_pem@), anchors_in(bundle.ca_pem@)) {
        (Err(why), _, _) => Err(why),
        (_, Err(why), _) => Err(why),
        (_, _, Err(why)) => Err(why),
        (Ok(chain), Ok(key), Ok(anchors)) => Ok((chain, key, anchors)),
    }
}

/// Whether `r` is the server configuration that a bundle gives: it presents the bundle's certificate
/// and demands of every client one that the bundle's root certificates vouch for.
pub open spec fn is_server_config(r: Result<ServerConfig, AppError>, bundle: CertBundle) -> bool {
    match material(bundle) {
        Err(why) => r matches Err(error) && is_cert_parse(error, why),
        Ok((chain, key, client_anchors)) => if client_anchors.len() == 0 {
            r matches Err(error) && is_tls_config(error, "no root trust anchors were provided"@)
        } else {
            match identity_fault(chain, key) {
                Some(why) => r matches Err(error) && is_tls_config(error, why),
                None => r matches Ok(config) && server_terms(config) == (ServerTerms {
                    chain,
                    key,
                    client_anchors: Some(client_anchors),
                }),
            }
        },
    }
}

/// Whether `r` is the gateway's server configuration that a bundle gives: it presents the bundle's
/// certificate and demands none.
pub open spec fn is_gateway_config(r: Result<ServerConfig, AppError>, bundle: CertBundle) -> bool {
    match (chain_in(bundle.cert_pem@), key_in(bundle.key_pem@)) {
        (Err(why), _) => r matches Err(error) && is_cert_parse(error, why),
        (_, Err(why)) => r matches Err(error) && is_cert_parse(error, why),
        (Ok(chain), Ok(key)) => match identity_fault(chain, key) {
            Some(why) => r matches Err(error) && is_tls_config(error, why),
            None => r matches Ok(config) && server_terms(config) == (ServerTerms {
                chain,
                key,
                client_anchors: None,
            }),
        },
    }
}

/// Whether `r` is the client configuration that a bundle gives: it presents the bundle's certificate
/// and trusts only servers that the bundle's root certificates vouch for.
pub open spec fn is_client_config(r: Result<ClientConfig, AppError>, bundle: CertBundle) -> bool {
    match material(bundle) {
        Err(why) => r matches Err(error) && is_cert_parse(error, why),
        Ok((chain, key, server_anchors)) => match identity_fault(chain, key) {
            Some(why) => r matches Err(error) && is_tls_config(error, why),
            None => r matches Ok(config) && client_terms(config) == (ClientTerms {
                chain,
                key,
                server_anchors,
            }),
        },
    }
}

/// The server configuration of a service: mutual TLS.
pub fn server_config(bundle: &CertBundle) -> (r: Result<ServerConfig, AppError>)
    ensures
        is_server_config(r, *bundle),
{
    let chain: Vec<Vec<u8>> = match parse_cert_chain(bundle.cert_pem.as_str()) {
        Ok(chain) => chain,
        Err(error) => {
            return Err(error);
        },
    };
    let key: Vec<u8> = match parse_private_key(bundle.key_pem.as_str()) {
        Ok(key) => key,
        Err(error) => {
            return Err(error);
        },
    };
    let roots: RootCertStore = match build_root_store(bundle.ca_pem.as_str()) {
        Ok(roots) => roots,
        Err(error) => {
            return Err(error);
        },
    };
    match mutual_server(&chain, &key, roots) {
        Ok(config) => Ok(config),
        Err(why) => Err(AppError::TlsConfig(why)),
    }
}

/// The server configuration of the gateway: TLS, without a certificate on the client's side.
pub fn gateway_server_config(bundle: &CertBundle) -> (r: Result<ServerConfig, AppError>)
    ensures
        is_gateway_config(r, *bundle),
{
    let chain: Vec<Vec<u8>> = match parse_cert_chain(bundle.cert_pem.as_str()) {
        Ok(chain) => chain,
        Err(error) => {
            return Err(error);
        },
    };
    let key: Vec<u8> = match parse_private_key(bundle.key_pem.as_str()) {
        Ok(key) => key,
        Err(error) => {
            return Err(error);
        },
    };
    match open_server(&chain, &key) {
        Ok(config) => Ok(config),
        Err(why) => Err(AppError::TlsConfig(why)),
    }
}

/// The client configuration of a service: mutual TLS.
pub fn client_config(bundle: &CertBundle) -> (r: Result<ClientConfig, AppError>)
    ensures
        is_client_config(r, *bundle),
{
    let chain: Vec<Vec<u8>> = match parse_cert_chain(bundle.cert_pem.as_str()) {
        Ok(chain) => chain,
        Err(error) => {
            return Err(error);
        },
    };
    let key: Vec<u8> = match parse_private_key(bundle.key_pem.as_str()) {
        Ok(key) => key,
        Err(error) => {
            return Err(error);
        },
    };
    let roots: RootCertStore = match build_root_store(bundle.ca_pem.as_str()) {
        Ok(roots) => roots,
        Err(error) => {
            return Err(error);
        },
    };
    match mutual_client(&chain, &key, roots) {
        Ok(config) => Ok(config),
        Err(why) => Err(AppError::TlsConfig(why)),
    }
}

/// A bundle that makes a server makes a client too, and the two present the same certificate and
/// trust the same anchors. The other way round this holds for a bundle with a root certificate.
pub proof fn servers_and_clients_agree(
    server: Result<ServerConfig, AppError>,
    client: Result<ClientConfig, AppError>,
    bundle: CertBundle,
)
    requires
        is_server_config(server, bundle),
        is_client_config(client, bundle),
    ensures
        server is Ok ==> client is Ok,
        client matches Ok(config) && client_terms(config).server_anchors.len() > 0 ==> server is Ok,
        server matches Ok(s) ==> client matches Ok(c) ==> {
            &&& server_terms(s).chain == client_terms(c).chain
            &&& server_terms(s).key == client_terms(c).key
            &&& server_terms(s).client_anchors == Some(client_terms(c).server_anchors)
        },
{
}

/// A service's server demands a certificate of every client, and vouched for by some anchor.
pub proof fn services_demand_certificates(server: Result<ServerConfig, AppError>, bundle: CertBundle)
    requires
        is_server_config(server, bundle),
    ensures
        server matches Ok(config) ==> (server_terms(config).client_anchors matches Some(anchors)
            && anchors.len() > 0),
{
}

/// A list of outcomes is collected whole if none is an error; else the first error counts.
pub proof fn all_or_the_first_error(items: Items)
    ensures
        match collected(items) {
            Ok(list) => list.len() == items.len() && forall|i: int|
                0 <= i < items.len() ==> #[trigger] items[i] == Ok::<Seq<u8>, Seq<char>>(list[i]),
            Err(why) => exists|i: int|
                {
                    &&& 0 <= i < items.len()
                    &&& #[trigger] items[i] == Err::<Seq<u8>, Seq<char>>(why)
                    &&& forall|j: int| 0 <= j < i ==> (#[trigger] items[j]) is Ok
                },
        },
    decreases items.len(),
{
    if items.len() > 0 {
        let front = items.drop_last();
        all_or_the_first_error(front);
        assert forall|i: int| 0 <= i < front.len() implies front[i] == #[trigger] items[i] by {}
        match collected(front) {
            Ok(list) => {
                if let Err(why) = items.last() {
                    assert(items[items.len() - 1] == Err::<Seq<u8>, Seq<char>>(why));
                    assert forall|j: int| 0 <= j < items.len() - 1 implies (
                    #[trigger] items[j]) is Ok by {
                        assert(front[j] is Ok);
                    }
                }
            },
            Err(why) => {
                let i = choose|i: int|
                    {
                        &&& 0 <= i < front.len()
                        &&& #[trigger] front[i] == Err::<Seq<u8>, Seq<char>>(why)
                        &&& forall|j: int| 0 <= j < i ==> (#[trigger] front[j]) is Ok
                    };
                assert(items[i] == Err::<Seq<u8>, Seq<char>>(why));
                assert forall|j: int| 0 <= j < i implies (#[trigger] items[j]) is Ok by {
                    assert(front[j] is Ok);
                }
            },
        }
    }
}

/// The certificates of a PEM text are all that are found in it, in their order; if one cannot be read,
/// the first error is given. The private key is the first that is found.
pub proof fn pem_texts_are_read_whole(
    pem: &str,
    chain: Result<Vec<Vec<u8>>, AppError>,
    key: Result<Vec<u8>, AppError>,
)
    requires
        call_ensures(parse_cert_chain, (pem,), chain),
        call_ensures(parse_private_key, (pem,), key),
    ensures
        chain matches Ok(list) ==> list@.len() == certificates_in(pem@).len() && forall|i: int|
            0 <= i < list@.len() ==> certificates_in(pem@)[i] == Ok::<Seq<u8>, Seq<char>>(
                (#[trigger] list@[i])@,
            ),
        chain matches Err(error) ==> error matches AppError::CertParse(why) && exists|i: int|
            {
                &&& 0 <= i < certificates_in(pem@).len()
                &&& #[trigger] certificates_in(pem@)[i] == Err::<Seq<u8>, Seq<char>>(why@)
                &&& forall|j: int| 0 <= j < i ==> (#[trigger] certificates_in(pem@)[j]) is Ok
            },
        key matches Ok(der) ==> first_key_in(pem@) == Some(Ok::<Seq<u8>, Seq<char>>(der@)),
        key matches Err(error) ==> error matches AppError::CertParse(why) && match first_key_in(
            pem@,
        ) {
            Some(found) => found == Err::<Seq<u8>, Seq<char>>(why@),
            None => why@ == "no private key found in PEM"@,
        },
{
    all_or_the_first_error(certificates_in(pem@));
    if let Ok(list) = chain {
        assert forall|i: int| 0 <= i < list@.len() implies certificates_in(pem@)[i] == Ok::<
            Seq<u8>,
            Seq<char>,
        >((#[trigger] list@[i])@) by {
            assert(bytes_of(list@)[i] == list@[i]@);
            assert(certificates_in(pem@)[i] == Ok::<Seq<u8>, Seq<char>>(bytes_of(list@)[i]));
        }
    }
}

/// A store trusts the anchors of all certificates of a PEM text, in their order, and no others.
pub proof fn stores_trust_the_given_roots(ca_pem: &str, r: Result<RootCertStore, AppError>)
    requires
        call_ensures(build_root_store, (ca_pem,), r),
    ensures
        r matches Ok(store) ==> anchors(store).len() == certificates_in(ca_pem@).len() && forall|
            i: int,
        |
            0 <= i < anchors(store).len() ==> certificates_in(ca_pem@)[i] is Ok && anchor_in(
                certificates_in(ca_pem@)[i]->Ok_0,
            ) == Ok::<Seq<u8>, Seq<char>>(#[trigger] anchors(store)[i]),
        r matches Err(error) ==> error is CertParse && exists|i: int|
            0 <= i < certificates_in(ca_pem@).len() && match #[trigger] certificates_in(ca_pem@)[i] {
                Ok(der) => anchor_in(der) is Err,
                Err(_) => true,
            },
{
    roots_are_read_whole(ca_pem@);
}

/// The anchors of a PEM text are those of all its certificates.
proof fn roots_are_read_whole(pem: Seq<char>)
    ensures
        match anchors_in(pem) {
            Ok(list) => list.len() == certificates_in(pem).len() && forall|i: int|
                0 <= i < list.len() ==> (#[trigger] certificates_in(pem)[i]) is Ok && anchor_in(
                    certificates_in(pem)[i]->Ok_0,
                ) == Ok::<Seq<u8>, Seq<char>>(list[i]),
            Err(_) => exists|i: int|
                0 <= i < certificates_in(pem).len() && match #[trigger] certificates_in(pem)[i] {
                    Ok(der) => anchor_in(der) is Err,
                    Err(_) => true,
                },
        },
{
    all_or_the_first_error(certificates_in(pem));
    if let Ok(chain) = chain_in(pem) {
        let all = chain.map_values(|certificate: Seq<u8>| anchor_in(certificate));
        all_or_the_first_error(all);
        match collected(all) {
            Ok(list) => {
                assert forall|i: int| 0 <= i < list.len() implies (#[trigger] certificates_in(
                    pem,
                )[i]) is Ok && anchor_in(certificates_in(pem)[i]->Ok_0) == Ok::<
                    Seq<u8>,
                    Seq<char>,
                >(list[i]) by {
                    assert(all[i] == Ok::<Seq<u8>, Seq<char>>(list[i]));
                }
            },
            Err(why) => {
                let i = choose|i: int|
                    {
                        &&& 0 <= i < all.len()
                        &&& #[trigger] all[i] == Err::<Seq<u8>, Seq<char>>(why)
                        &&& forall|j: int| 0 <= j < i ==> (#[trigger] all[j]) is Ok
                    };
                assert(certificates_in(pem)[i] == Ok::<Seq<u8>, Seq<char>>(chain[i]));
            },
        }
    }
}

/// Whatever a bundle is turned into presents the bundle's own certificates and key. A service demands of
/// its clients a certificate that the bundle's roots vouch for, a client trusts these roots alone, and
/// the gateway demands nothing.
pub proof fn configurations_present_the_bundle(
    bundle: &CertBundle,
    server: Result<ServerConfig, AppError>,
    gateway: Result<ServerConfig, AppError>,
    client: Result<ClientConfig, AppError>,
)
    requires
        call_ensures(server_config, (bundle,), server),
        call_ensures(gateway_server_config, (bundle,), gateway),
        call_ensures(client_config, (bundle,), client),
    ensures
        server matches Ok(config) ==> {
            let terms = server_terms(config);
            &&& terms.chain.len() == certificates_in(bundle.cert_pem@).len()
            &&& forall|i: int|
                0 <= i < terms.chain.len() ==> certificates_in(bundle.cert_pem@)[i] == Ok::<
                    Seq<u8>,
                    Seq<char>,
                >(#[trigger] terms.chain[i])
            &&& first_key_in(bundle.key_pem@) == Some(Ok::<Seq<u8>, Seq<char>>(terms.key))
            &&& terms.client_anchors matches Some(roots)
            &&& roots.len() > 0
            &&& roots.len() == certificates_in(bundle.ca_pem@).len()
            &&& forall|i: int|
                0 <= i < roots.len() ==> certificates_in(bundle.ca_pem@)[i] is Ok && anchor_in(
                    certificates_in(bundle.ca_pem@)[i]->Ok_0,
                ) == Ok::<Seq<u8>, Seq<char>>(#[trigger] roots[i])
        },
        gateway matches Ok(config) ==> {
            let terms = server_terms(config);
            &&& terms.chain.len() == certificates_in(bundle.cert_pem@).len()
            &&& forall|i: int|
                0 <= i < terms.chain.len() ==> certificates_in(bundle.cert_pem@)[i] == Ok::<
                    Seq<u8>,
                    Seq<char>,
                >(#[trigger] terms.chain[i])
            &&& first_key_in(bundle.key_pem@) == Some(Ok::<Seq<u8>, Seq<char>>(terms.key))
            &&& terms.client_anchors is None
        },
        client matches Ok(config) ==> {
            let terms = client_terms(config);
            &&& terms.chain.len() == certificates_in(bundle.cert_pem@).len()
            &&& forall|i: int|
                0 <= i < terms.chain.len() ==> certificates_in(bundle.cert_pem@)[i] == Ok::<
                    Seq<u8>,
                    Seq<char>,
                >(#[trigger] terms.chain[i])
            &&& first_key_in(bundle.key_pem@) == Some(Ok::<Seq<u8>, Seq<char>>(terms.key))
            &&& terms.server_anchors.len() == certificates_in(bundle.ca_pem@).len()
            &&& forall|i: int|
                0 <= i < terms.server_anchors.len() ==> certificates_in(bundle.ca_pem@)[i] is Ok
                    && anchor_in(certificates_in(bundle.ca_pem@)[i]->Ok_0) == Ok::<
                    Seq<u8>,
                    Seq<char>,
                >(#[trigger] terms.server_anchors[i])
        },
{
    all_or_the_first_error(certificates_in(bundle.cert_pem@));
    roots_are_read_whole(bundle.ca_pem@);
}

/// A bundle that can be read and whose key is the certificate's makes every configuration; those of
/// services and clients need readable roots too, and a service's at least one.
pub proof fn good_bundles_make_configurations(
    bundle: &CertBundle,
    chain: Seq<Seq<u8>>,
    key: Seq<u8>,
    server: Result<ServerConfig, AppError>,
    gateway: Result<ServerConfig, AppError>,
    client: Result<ClientConfig, AppError>,
)
    requires
        call_ensures(server_config, (bundle,), server),
        call_ensures(gateway_server_config, (bundle,), gateway),
        call_ensures(client_config, (bundle,), client),
        certificates_in(bundle.cert_pem@) == chain.map_values(
            |der: Seq<u8>| Ok::<Seq<u8>, Seq<char>>(der),
        ),
        first_key_in(bundle.key_pem@) == Some(Ok::<Seq<u8>, Seq<char>>(key)),
        identity_fault(chain, key) is None,
    ensures
        gateway is Ok,
        (forall|i: int|
            0 <= i < certificates_in(bundle.ca_pem@).len() ==> (#[trigger] certificates_in(
                bundle.ca_pem@,
            )[i] matches Ok(der) && anchor_in(der) is Ok)) ==> client is Ok && (certificates_in(
            bundle.ca_pem@,
        ).len() > 0 ==> server is Ok),
{
    let found = certificates_in(bundle.cert_pem@);
    all_or_the_first_error(found);
    roots_are_read_whole(bundle.ca_pem@);
    if let Err(why) = chain_in(bundle.cert_pem@) {
        let i = choose|i: int|
            {
                &&& 0 <= i < found.len()
                &&& #[trigger] found[i] == Err::<Seq<u8>, Seq<char>>(why)
                &&& forall|j: int| 0 <= j < i ==> (#[trigger] found[j]) is Ok
            };
        assert(found[i] is Ok);
    }
    let read = chain_in(bundle.cert_pem@)->Ok_0;
    assert(read =~= chain) by {
        assert forall|i: int| 0 <= i < read.len() implies read[i] == chain[i] by {
            assert(found[i] == Ok::<Seq<u8>, Seq<char>>(read[i]));
        }
    }
}

/// A bundle that cannot be read gives a certificate error, and one whose key is not the certificate's a
/// TLS error.
pub proof fn bad_bundles_make_no_configuration(
    bundle: &CertBundle,
    server: Result<ServerConfig, AppError>,
    gateway: Result<ServerConfig, AppError>,
    client: Result<ClientConfig, AppError>,
)
    requires
        call_ensures(server_config, (bundle,), server),
        call_ensures(gateway_server_config, (bundle,), gateway),
        call_ensures(client_config, (bundle,), client),
        (exists|i: int|
            0 <= i < certificates_in(bundle.cert_pem@).len() && (#[trigger] certificates_in(
                bundle.cert_pem@,
            )[i]) is Err) || !(first_key_in(bundle.key_pem@) matches Some(Ok(_))),
    ensures
        server matches Err(error) && error is CertParse,
        gateway matches Err(error) && error is CertParse,
        client matches Err(error) && error is CertParse,
{
    all_or_the_first_error(certificates_in(bundle.cert_pem@));
}

/// What is wrong with a bundle is told: the error of a configuration is that of the first part that cannot
/// be read, the certificates before the key and the key before the roots.
pub proof fn configuration_errors_are_those_of_the_parts(
    bundle: &CertBundle,
    cert_pem: &str,
    key_pem: &str,
    ca_pem: &str,
    chain: Result<Vec<Vec<u8>>, AppError>,
    key: Result<Vec<u8>, AppError>,
    roots: Result<RootCertStore, AppError>,
    server: Result<ServerConfig, AppError>,
    gateway: Result<ServerConfig, AppError>,
    client: Result<ClientConfig, AppError>,
)
    requires
        cert_pem@ == bundle.cert_pem@ && key_pem@ == bundle.key_pem@ && ca_pem@ == bundle.ca_pem@,
        call_ensures(parse_cert_chain, (cert_pem,), chain),
        call_ensures(parse_private_key, (key_pem,), key),
        call_ensures(build_root_store, (ca_pem,), roots),
        call_ensures(server_config, (bundle,), server),
        call_ensures(gateway_server_config, (bundle,), gateway),
        call_ensures(client_config, (bundle,), client),
    ensures
        chain matches Err(AppError::CertParse(why)) ==> {
            &&& server matches Err(AppError::CertParse(text)) && text@ == why@
            &&& gateway matches Err(AppError::CertParse(text)) && text@ == why@
            &&& client matches Err(AppError::CertParse(text)) && text@ == why@
        },
        key matches Err(AppError::CertParse(why)) ==> chain is Ok ==> {
            &&& server matches Err(AppError::CertParse(text)) && text@ == why@
            &&& gateway matches Err(AppError::CertParse(text)) && text@ == why@
            &&& client matches Err(AppError::CertParse(text)) && text@ == why@
        },
        roots matches Err(AppError::CertParse(why)) ==> chain is Ok && key is Ok ==> {
            &&& server matches Err(AppError::CertParse(text)) && text@ == why@
            &&& client matches Err(AppError::CertParse(text)) && text@ == why@
        },
        chain is Ok && key is Ok ==> match identity_fault(bytes_of(chain->Ok_0@), key->Ok_0@) {
            Some(fault) => {
                &&& gateway matches Err(AppError::TlsConfig(text)) && text@ == fault
                &&& roots is Ok ==> (client matches Err(AppError::TlsConfig(text)) && text@ == fault)
                &&& server is Err
            },
            None => gateway is Ok && (roots is Ok ==> client is Ok),
        },
        roots matches Ok(store) ==> chain is Ok && key is Ok ==> if anchors(store).len() == 0 {
            server matches Err(AppError::TlsConfig(text)) && text@
                == "no root trust anchors were provided"@
        } else {
            match identity_fault(bytes_of(chain->Ok_0@), key->Ok_0@) {
                Some(fault) => server matches Err(AppError::TlsConfig(text)) && text@ == fault,
                None => server is Ok,
            }
        },
{
}

} // verus!
