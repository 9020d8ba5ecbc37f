//! Non-intrusive checks of the update hosting and the relay address.
use vstd::prelude::*;

use crate::text::{contains_char, decimal, decimal_string, has_prefix, push_char, push_str, text_equals};
use crate::url::{parse_url, spec_parse_url};

verus! {

/// Outcome of one diagnostic check.
#[derive(Debug)]
pub struct CheckResult {
    pub name: &'static str,
    pub detail: String,
    pub ok: bool,
}

/// Why a relay URL cannot be probed over WSS.
#[derive(Clone, Copy, Debug, PartialEq, Eq)]
pub enum DiagnosticError {
    /// The URL does not parse.
    InvalidUrl,
    /// The URL does not use WSS.
    NotWss,
    /// The URL has no host.
    MissingHost,
}

/// How the relay is to be checked.
#[derive(Debug)]
pub enum RelayCheck {
    /// Send an HTTPS `HEAD` request to this URL.
    Https(String),
    /// Open a TCP connection to the host of this WSS URL.
    Wss(String),
    /// Nothing to probe: report this result.
    Report(CheckResult),
}

/// A failed check.
pub fn failure(name: &'static str, detail: String) -> (result: CheckResult)
    ensures
        result.name == name,
        result.detail == detail,
        !result.ok,
{
    CheckResult { name, detail, ok: false }
}

/// Chooses the relay check by the scheme of the configured URL: HTTPS and
/// WSS are probed; anything else, or no URL, is reported as a failure.
pub fn plan_relay_check(relay_url: Option<&str>) -> (plan: RelayCheck)
    ensures
        match relay_url {
            None => plan matches RelayCheck::Report(r) && !r.ok && r.name@ == "Relay"@
                && r.detail@ == "No configurado"@,
            Some(url) => if url@.len() >= 8 && url@.subrange(0, 8) == "https://"@ {
                plan matches RelayCheck::Https(u) && u@ == url@
            } else if url@.len() >= 6 && url@.subrange(0, 6) == "wss://"@ {
                plan matches RelayCheck::Wss(u) && u@ == url@
            } else {
                plan matches RelayCheck::Report(r) && !r.ok && r.name@ == "Relay"@ && r.detail@
                    == "URL no segura: "@ + url@
            },
        },
{
    proof {
        reveal_strlit("https://");
        reveal_strlit("wss://");
    }
    match relay_url {
        None => RelayCheck::Report(failure("Relay", "No configurado".to_owned())),
        Some(url) => if has_prefix(url, "https://") {
            RelayCheck::Https(url.to_owned())
        } else if has_prefix(url, "wss://") {
            RelayCheck::Wss(url.to_owned())
        } else {
            let mut detail = "URL no segura: ".to_owned();
            push_str(&mut detail, url);
            RelayCheck::Report(failure("Relay", detail))
        },
    }
}

/// A host as written in a socket address: an IPv6 literal (with `:`) in
/// brackets.
/// Before an HTTPS endpoint is probed: a URL that does not begin with
/// `https://` is reported as failed, and nothing is sent; `None` means the
/// probe may go ahead.
pub fn refuse_plain_http(name: &'static str, url: &str) -> (refused: Option<CheckResult>)
    ensures
        url@.len() >= 8 && url@.subrange(0, 8) == "https://"@ ==> refused is None,
        !(url@.len() >= 8 && url@.subrange(0, 8) == "https://"@) ==> (refused matches Some(r)
            && r.name == name && r.detail@ == "La URL debe usar HTTPS"@ && !r.ok),
{
    proof {
        reveal_strlit("https://");
    }
    if has_prefix(url, "https://") {
        None
    } else {
        Some(failure(name, "La URL debe usar HTTPS".to_owned()))
    }
}

/// The host as a socket address takes it: an IPv6 address (it holds `:`)
/// within one pair of brackets. The URL parser already gives IPv6 hosts in
/// brackets; only a bare one is bracketed here.
pub open spec fn socket_host(host: Seq<char>) -> Seq<char> {
    if host.contains(':') && !(host.len() > 0 && host[0] == '[') {
        seq!['['] + host + seq![']']
    } else {
        host
    }
}

/// The `host:port` that a WSS relay URL is probed at; the port defaults to
/// the scheme's, else to 443.
pub fn wss_address(url: &str) -> (r: Result<String, DiagnosticError>)
    ensures
        match spec_parse_url(url@) {
            None => r == Err::<String, DiagnosticError>(DiagnosticError::InvalidUrl),
            Some((scheme, host, port)) => if scheme != "wss"@ {
                r == Err::<String, DiagnosticError>(DiagnosticError::NotWss)
            } else {
                match host {
                    None => r == Err::<String, DiagnosticError>(DiagnosticError::MissingHost),
                    Some(h) => r matches Ok(address) && address@ == socket_host(h) + seq![':']
                        + decimal(
                        (match port {
                            Some(p) => p,
                            None => 443u16,
                        }) as nat,
                    ),
                }
            },
        },
{
    let parts = match parse_url(url) {
        Some(p) => p,
        None => return Err(DiagnosticError::InvalidUrl),
    };
    if !text_equals(parts.scheme.as_str(), "wss") {
        return Err(DiagnosticError::NotWss);
    }
    let host = match &parts.host {
        Some(h) => h,
        None => return Err(DiagnosticError::MissingHost),
    };
    let mut address = String::new();
    let bracketed = host.as_str().unicode_len() > 0 && host.as_str().get_char(0) == '[';
    if contains_char(host.as_str(), ':') && !bracketed {
        push_char(&mut address, '[');
        push_str(&mut address, host.as_str());
        push_char(&mut address, ']');
    } else {
        push_str(&mut address, host.as_str());
    }
    push_char(&mut address, ':');
    let port: u16 = match parts.port {
        Some(p) => p,
        None => 443,
    };
    let digits = decimal_string(port as u64);
    push_str(&mut address, digits.as_str());
    assert(address@ =~= socket_host(host@) + seq![':'] + decimal(port as nat));
    Ok(address)
}

} // verus!
