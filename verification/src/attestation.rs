//! What a host says of itself: its Secure Boot state, its identifier and a quote over a nonce.
use vstd::prelude::*;

use crate::encoding;
use crate::encoding::HexError;
use crate::errors::AppError;
use crate::models::UnsealRequest;
use crate::text;

verus! {

/// The state of UEFI Secure Boot on the host.
#[derive(Debug, Clone, Copy, PartialEq, Eq, Structural)]
pub enum SecureBootState {
    /// The firmware verified the boot chain.
    Enabled,
    /// Secure Boot is present but switched off.
    Disabled,
    /// The firmware's variable cannot be read.
    Unavailable,
}

impl SecureBootState {
    /// The word for the state.
    pub fn text(&self) -> (r: &'static str)
        ensures
            r@ == match self {
                SecureBootState::Enabled => "enabled"@,
                SecureBootState::Disabled => "disabled"@,
                SecureBootState::Unavailable => "unavailable"@,
            },
    {
        match self {
            SecureBootState::Enabled => "enabled",
            SecureBootState::Disabled => "disabled",
            SecureBootState::Unavailable => "unavailable",
        }
    }
}

/// The Secure Boot state that the firmware's variable shows. Four bytes of attributes come first;
/// the byte behind them is 1 if Secure Boot is on. The variable is none where it cannot be read.
pub fn check_secure_boot(variable: Option<&[u8]>) -> (r: SecureBootState)
    ensures
        r == match variable {
            Some(data) => if data@.len() < 5 {
                SecureBootState::Unavailable
            } else if data@[4] == 1 {
                SecureBootState::Enabled
            } else {
                SecureBootState::Disabled
            },
            None => SecureBootState::Unavailable,
        },
{
    match variable {
        Some(data) => if data.len() < 5 {
            SecureBootState::Unavailable
        } else if data[4] == 1 {
            SecureBootState::Enabled
        } else {
            SecureBootState::Disabled
        },
        None => SecureBootState::Unavailable,
    }
}

/// The identifier of the host: what its identifier file holds, without white space at the ends, or
/// an internal error with the text of the one that reading the file gave.
pub fn machine_id(content: Result<String, String>) -> (r: Result<String, AppError>)
    ensures
        match content {
            Ok(line) => r matches Ok(id) && id@ == text::trimmed(line@),
            Err(why) => r matches Err(AppError::Internal(full)) && full@
                == "cannot read /etc/machine-id: "@ + why@,
        },
{
    match content {
        Ok(line) => Ok(text::trim(line.as_str()).to_owned()),
        Err(why) => Err(
            AppError::Internal(text::concat2("cannot read /etc/machine-id: ", why.as_str())),
        ),
    }
}

/// What stands in for the attestation key where there is no TPM: `DEV_MODE_NO_TPM` in ASCII.
pub open spec fn dev_key() -> Seq<u8> {
    seq![68u8, 69, 86, 95, 77, 79, 68, 69, 95, 78, 79, 95, 84, 80, 77]
}

/// A quote over a nonce, and the public area of the key that made it. Without a TPM the quote is the
/// SHA-256 digest of the nonce, and the key is a fixed marker.
pub fn generate_quote(nonce: &[u8]) -> (r: Result<(Vec<u8>, Vec<u8>), AppError>)
    ensures
        r matches Ok((quote, key)) && quote@ == encoding::sha256(nonce@) && key@ == dev_key(),
{
    let quote: Vec<u8> = encoding::sha256_digest(nonce);
    let key: Vec<u8> = vec![68u8, 69, 86, 95, 77, 79, 68, 69, 95, 78, 79, 95, 84, 80, 77];
    assert(key@ == dev_key());
    Ok((quote, key))
}

/// Whether `request` is what a service asks the vault with, for the given nonce.
pub open spec fn is_attested(
    request: UnsealRequest,
    service_name: Seq<char>,
    machine_id: Seq<char>,
    nonce_hex: Seq<char>,
    nonce: Seq<u8>,
) -> bool {
    &&& request.service_name@ == service_name
    &&& request.machine_id@ == machine_id
    &&& request.tpm_quote@ == encoding::hex_text(encoding::sha256(nonce))
    &&& request.nonce@ == nonce_hex
    &&& request.ak_pub@ == encoding::hex_text(dev_key())
}

/// The identifier that a host goes by: its own, or `unknown` where it cannot be told.
pub open spec fn host_name(content: Result<String, String>) -> Seq<char> {
    match content {
        Ok(line) => text::trimmed(line@),
        Err(_) => "unknown"@,
    }
}

/// The request with which a service asks the vault for a certificate: it names the service and the
/// host, and quotes the nonce that the vault gave in hexadecimal.
pub fn attest(service_name: &str, host: Result<String, String>, nonce_hex: &str) -> (r: Result<
    UnsealRequest,
    HexError,
>)
    ensures
        match r {
            Ok(request) => {
                &&& encoding::hex_bytes(nonce_hex@) matches Some(nonce)
                &&& is_attested(request, service_name@, host_name(host), nonce_hex@, nonce)
            },
            Err(error) => {
                &&& encoding::hex_bytes(nonce_hex@) is None
                &&& encoding::hex_fault(nonce_hex@, error)
            },
        },
{
    let machine_id: String = match machine_id(host) {
        Ok(id) => id,
        Err(_) => "unknown".to_owned(),
    };
    let nonce: Vec<u8> = match encoding::hex_decode(nonce_hex) {
        Ok(nonce) => nonce,
        Err(error) => {
            return Err(error);
        },
    };
    let (tpm_quote, ak_pub): (String, String) = match generate_quote(nonce.as_slice()) {
        Ok((quote, key)) => (
            encoding::hex_encode(quote.as_slice()),
            encoding::hex_encode(key.as_slice()),
        ),
        Err(_) => (String::new(), String::new()),
    };
    Ok(
        UnsealRequest {
            service_name: service_name.to_owned(),
            machine_id,
            tpm_quote,
            nonce: nonce_hex.to_owned(),
            ak_pub,
        },
    )
}

/// Secure Boot counts as on only if the byte behind the four of attributes is 1, as off if it is another,
/// and as unavailable without such a byte.
pub proof fn secure_boot_is_the_fifth_byte(variable: Option<&[u8]>, r: SecureBootState)
    requires
        call_ensures(check_secure_boot, (variable,), r),
    ensures
        r is Unavailable <==> (variable matches Some(data) ==> data@.len() <= 4),
        r is Enabled <==> (variable matches Some(data) && data@.len() > 4 && data@[4] == 1),
        r is Disabled <==> (variable matches Some(data) && data@.len() > 4 && data@[4] != 1),
{
}

/// Each Secure Boot state has its word.
pub proof fn secure_boot_states_have_words(state: &SecureBootState, r: &'static str)
    requires
        call_ensures(SecureBootState::text, (state,), r),
    ensures
        state is Enabled ==> r@ == "enabled"@,
        state is Disabled ==> r@ == "disabled"@,
        state is Unavailable ==> r@ == "unavailable"@,
{
}

/// The identifier of a host is what its identifier file holds, without the white space at the ends; if
/// the file cannot be read, the error says so.
pub proof fn hosts_go_by_their_files(content: Result<String, String>, r: Result<String, AppError>)
    requires
        call_ensures(machine_id, (content,), r),
    ensures
        content matches Ok(line) ==> {
            &&& r matches Ok(id)
            &&& exists|from: int, to: int|
                {
                    &&& 0 <= from <= to <= line@.len()
                    &&& id@ == #[trigger] line@.subrange(from, to)
                    &&& forall|k: int|
                        0 <= k < from || to <= k < line@.len() ==> text::is_white_space(
                            #[trigger] line@[k],
                        )
                }
            &&& id@.len() > 0 ==> !text::is_white_space(id@[0]) && !text::is_white_space(id@.last())
        },
        content matches Err(why) ==> r matches Err(AppError::Internal(full)) && full@
            == "cannot read /etc/machine-id: "@ + why@,
{
    if let Ok(line) = content {
        let ends = text::trimmed_parts(line@);
        assert(r->Ok_0@ == line@.subrange(ends.0, ends.1));
    }
}

/// A quote over a nonce is the digest of that nonce, made without a TPM, and its key says so.
pub proof fn quotes_are_digests(nonce: &[u8], r: Result<(Vec<u8>, Vec<u8>), AppError>)
    requires
        call_ensures(generate_quote, (nonce,), r),
    ensures
        r matches Ok(made) && made.0@ == encoding::sha256(nonce@),
        r->Ok_0.1@.map_values(|b: u8| b as char) == "DEV_MODE_NO_TPM"@,
{
    reveal_strlit("DEV_MODE_NO_TPM");
    assert(r->Ok_0.1@.map_values(|b: u8| b as char) =~= "DEV_MODE_NO_TPM"@);
}

/// The request that a service asks with names the service and the host, holds the nonce as it was given,
/// and quotes the digest of the bytes that the nonce stands for. It is made exactly if the nonce is in
/// hexadecimal.
pub proof fn requests_quote_the_nonce(
    service_name: &str,
    host: Result<String, String>,
    nonce_hex: &str,
    host_id: Result<String, AppError>,
    r: Result<UnsealRequest, HexError>,
)
    requires
        call_ensures(attest, (service_name, host, nonce_hex), r),
        call_ensures(machine_id, (host,), host_id),
    ensures
        r is Ok <==> encoding::hex_bytes(nonce_hex@) is Some,
        r matches Ok(request) ==> {
            &&& request.service_name@ == service_name@
            &&& request.nonce@ == nonce_hex@
            &&& request.tpm_quote@ == encoding::hex_text(
                encoding::sha256(encoding::hex_bytes(nonce_hex@)->0),
            )
            &&& host_id matches Ok(id) ==> request.machine_id@ == id@
            &&& host_id is Err ==> request.machine_id@ == "unknown"@
            &&& encoding::hex_bytes(request.ak_pub@) matches Some(key) && key.map_values(
                |b: u8| b as char,
            ) == "DEV_MODE_NO_TPM"@
        },
{
    encoding::hex_reads_back(dev_key());
    reveal_strlit("DEV_MODE_NO_TPM");
    assert(dev_key().map_values(|b: u8| b as char) =~= "DEV_MODE_NO_TPM"@);
}

} // verus!
