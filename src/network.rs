//! How the relay server is reached from other devices: its LAN and multicast-DNS URLs,
//! and the registry entry of a started relay.

use vstd::prelude::*;
use crate::args::port_text;
use crate::number::decimal;
use crate::output::is_suffix;
use crate::registry::{OpenworkServerState, ProcessHandle};
use crate::sandbox::{local_url, local_url_spec};
use crate::text::{is_prefix, text_view, trim, trim_seq};

verus! {

/// Relies on `gethostname::gethostname`: this machine's host name, converted lossily to
/// UTF-8. What it is depends on the machine.
#[verifier::external_body]
fn host_name() -> (r: String) {
    gethostname::gethostname().to_string_lossy().to_string()
}

/// Relies on `local_ip_address::local_ip`: this machine's local network address in text
/// form, or none when it has none. What it is depends on the machine.
#[verifier::external_body]
fn lan_address() -> (r: Option<String>) {
    match local_ip_address::local_ip() {
        Ok(ip) => Some(ip.to_string()),
        Err(_) => None,
    }
}

/// `s` without any number of trailing `.local` suffixes.
pub open spec fn strip_local(s: Seq<char>) -> Seq<char>
    decreases s.len(),
{
    if s.len() >= 6 && s.subrange(s.len() - 6, s.len() as int) == ".local"@ {
        strip_local(s.subrange(0, s.len() - 6))
    } else {
        s
    }
}

/// The multicast-DNS URL of a host name, or none for a blank name.
pub open spec fn mdns_url_spec(hostname: Seq<char>, port: u16) -> Option<Seq<char>> {
    if trim_seq(hostname).len() == 0 {
        None
    } else {
        Some("http://"@ + strip_local(trim_seq(hostname)) + ".local:"@ + decimal(port as nat))
    }
}

/// The LAN URL of an address.
pub open spec fn lan_url_spec(ip: Option<Seq<char>>, port: u16) -> Option<Seq<char>> {
    match ip {
        Some(a) => Some("http://"@ + a + ":"@ + decimal(port as nat)),
        None => None,
    }
}

/// The URLs by which other devices reach the relay server.
pub struct RelayUrls {
    pub connect_url: Option<String>,
    pub mdns_url: Option<String>,
    pub lan_url: Option<String>,
}

fn strip_local_suffix(s: &str) -> (r: &str)
    ensures
        r@ == strip_local(s@),
{
    let suffix = ".local";
    proof {
        reveal_strlit(".local");
    }
    let mut n = s.unicode_len();
    assert(s@.subrange(0, n as int) =~= s@);
    loop
        invariant
            n <= s@.len(),
            suffix@ == ".local"@,
            suffix@.len() == 6,
            strip_local(s@) == strip_local(s@.subrange(0, n as int)),
        ensures
            n <= s@.len(),
            strip_local(s@) == s@.subrange(0, n as int),
        decreases n,
    {
        if n < 6 {
            break;
        }
        let tail_part = s.substring_char(n - 6, n);
        let mut same = true;
        let mut k: usize = 0;
        while k < 6
            invariant
                k <= 6,
                tail_part@.len() == 6,
                suffix@.len() == 6,
                same == (forall|j: int| 0 <= j < k ==> tail_part@[j] == suffix@[j]),
            decreases 6 - k,
        {
            if tail_part.get_char(k) != suffix.get_char(k) {
                same = false;
            }
            k = k + 1;
        }
        let ghost cur = s@.subrange(0, n as int);
        assert(cur.subrange(cur.len() - 6, cur.len() as int) =~= tail_part@);
        if !same {
            assert(tail_part@ != suffix@) by {
                let j = choose|j: int| 0 <= j < 6 && tail_part@[j] != suffix@[j];
            }
            break;
        }
        assert(tail_part@ =~= suffix@);
        assert(cur.subrange(0, cur.len() - 6) =~= s@.subrange(0, n - 6));
        n = n - 6;
    }
    s.substring_char(0, n)
}

/// The relay's URLs from the host name and local address found: the LAN URL when an
/// address is known, the multicast-DNS URL when the name is not blank, and the first of
/// them to connect with.
pub fn build_urls(hostname: &str, lan_ip: Option<String>, port: u16) -> (r: RelayUrls)
    ensures
        text_view(r.mdns_url) == mdns_url_spec(hostname@, port),
        text_view(r.lan_url) == lan_url_spec(text_view(lan_ip), port),
        text_view(r.connect_url) == match lan_url_spec(text_view(lan_ip), port) {
            Some(u) => Some(u),
            None => mdns_url_spec(hostname@, port),
        },
{
    let h = trim(hostname);
    let digits = port_text(port);
    let mdns_url = if h.unicode_len() == 0 {
        None
    } else {
        Some(
            String::from_str("http://").concat(strip_local_suffix(h)).concat(".local:").concat(
                digits.as_str(),
            ),
        )
    };
    let lan_url = match lan_ip {
        Some(ip) => Some(
            String::from_str("http://").concat(ip.as_str()).concat(":").concat(digits.as_str()),
        ),
        None => None,
    };
    let connect_url = match &lan_url {
        Some(u) => Some(u.clone()),
        None => match &mdns_url {
            Some(m) => Some(m.clone()),
            None => None,
        },
    };
    RelayUrls { connect_url, mdns_url, lan_url }
}

/// The relay's URLs on this machine.
pub fn relay_urls(port: u16) -> (r: RelayUrls)
    ensures
        r.connect_url.is_some() ==> is_prefix("http://"@, r.connect_url.unwrap()@),
        r.connect_url.is_some() ==> is_suffix(decimal(port as nat), r.connect_url.unwrap()@),
{
    let name = host_name();
    let ip = lan_address();
    let urls = build_urls(name.as_str(), ip, port);
    proof {
        reveal_strlit("http://");
        if urls.connect_url.is_some() {
            let u = urls.connect_url.unwrap()@;
            let d = decimal(port as nat);
            assert(u.subrange(0, 7) =~= "http://"@);
            assert(u.subrange(u.len() - d.len(), u.len() as int) =~= d);
        }
    }
    urls
}

/// The URL by which other devices reach a server on `port`, if one is known.
pub fn resolve_connect_url(port: u16) -> (r: Option<String>)
    ensures
        r.is_some() ==> is_prefix("http://"@, r.unwrap()@),
        r.is_some() ==> is_suffix(decimal(port as nat), r.unwrap()@),
{
    relay_urls(port).connect_url
}

/// Records a started relay server: bound to every interface on `port`, reached locally on
/// the loopback address and from other devices by `urls`, with its two tokens.
pub fn install_relay<C: ProcessHandle>(
    state: &mut OpenworkServerState<C>,
    handle: C,
    pid: u32,
    port: u16,
    urls: RelayUrls,
    client_token: String,
    host_token: String,
)
    ensures
        final(state).child.is_some() && final(state).child.unwrap().pid == pid,
        !final(state).child_exited,
        final(state).host.is_some() && final(state).host.unwrap()@ == "0.0.0.0"@,
        final(state).port == Some(port),
        final(state).base_url.is_some() && final(state).base_url.unwrap()@ == local_url_spec(port),
        final(state).connect_url == urls.connect_url,
        final(state).mdns_url == urls.mdns_url,
        final(state).lan_url == urls.lan_url,
        final(state).client_token == Some(client_token),
        final(state).host_token == Some(host_token),
        final(state).last_stdout.is_none() && final(state).last_stderr.is_none(),
{
    state.start_locked(handle, pid);
    state.host = Some(String::from_str("0.0.0.0"));
    state.port = Some(port);
    state.base_url = Some(local_url(port));
    state.connect_url = urls.connect_url;
    state.mdns_url = urls.mdns_url;
    state.lan_url = urls.lan_url;
    state.client_token = Some(client_token);
    state.host_token = Some(host_token);
}

} // verus!
