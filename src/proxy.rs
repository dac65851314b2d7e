use vstd::prelude::*;
use vstd::string::StringSliceAdditionalSpecFns;
use crate::uri::{create_forward_uri, forward_uri};
use crate::headers::{
    first_value, has_token, has_token_bytes, listed, same_name, tokens, trim, views_of, with_field,
    without, HeaderList, HeaderPair,
};
use crate::text::{decimal, push_decimal, split_on};

verus! {

/// The header name `te`.
pub open spec fn te_name() -> Seq<u8> {
    seq![116u8, 101u8]
}

fn te_header() -> (r: Vec<u8>)
    ensures
        r@ == te_name(),
{
    vec![116u8, 101u8]
}

/// The header name `connection`.
pub open spec fn connection_name() -> Seq<u8> {
    seq![99u8, 111u8, 110u8, 110u8, 101u8, 99u8, 116u8, 105u8, 111u8, 110u8]
}

fn connection_header() -> (r: Vec<u8>)
    ensures
        r@ == connection_name(),
{
    vec![99u8, 111u8, 110u8, 110u8, 101u8, 99u8, 116u8, 105u8, 111u8, 110u8]
}

/// The header name `upgrade`.
pub open spec fn upgrade_name() -> Seq<u8> {
    seq![117u8, 112u8, 103u8, 114u8, 97u8, 100u8, 101u8]
}

fn upgrade_header() -> (r: Vec<u8>)
    ensures
        r@ == upgrade_name(),
{
    vec![117u8, 112u8, 103u8, 114u8, 97u8, 100u8, 101u8]
}

/// The header name `trailers`.
pub open spec fn trailers_name() -> Seq<u8> {
    seq![116u8, 114u8, 97u8, 105u8, 108u8, 101u8, 114u8, 115u8]
}

fn trailers_header() -> (r: Vec<u8>)
    ensures
        r@ == trailers_name(),
{
    vec![116u8, 114u8, 97u8, 105u8, 108u8, 101u8, 114u8, 115u8]
}

/// The header name `x-forwarded-for`.
pub open spec fn x_forwarded_for_name() -> Seq<u8> {
    seq![120u8, 45u8, 102u8, 111u8, 114u8, 119u8, 97u8, 114u8, 100u8, 101u8, 100u8, 45u8, 102u8, 111u8, 114u8]
}

fn x_forwarded_for_header() -> (r: Vec<u8>)
    ensures
        r@ == x_forwarded_for_name(),
{
    vec![120u8, 45u8, 102u8, 111u8, 114u8, 119u8, 97u8, 114u8, 100u8, 101u8, 100u8, 45u8, 102u8, 111u8, 114u8]
}

/// The hop-by-hop header names, which apply to one connection only.
pub open spec fn hop_names() -> Seq<Seq<u8>> {
    seq![
        seq![99u8, 111u8, 110u8, 110u8, 101u8, 99u8, 116u8, 105u8, 111u8, 110u8],
        seq![116u8, 101u8],
        seq![116u8, 114u8, 97u8, 105u8, 108u8, 101u8, 114u8],
        seq![107u8, 101u8, 101u8, 112u8, 45u8, 97u8, 108u8, 105u8, 118u8, 101u8],
        seq![112u8, 114u8, 111u8, 120u8, 121u8, 45u8, 99u8, 111u8, 110u8, 110u8, 101u8, 99u8, 116u8, 105u8, 111u8, 110u8],
        seq![112u8, 114u8, 111u8, 120u8, 121u8, 45u8, 97u8, 117u8, 116u8, 104u8, 101u8, 110u8, 116u8, 105u8, 99u8, 97u8, 116u8, 101u8],
        seq![112u8, 114u8, 111u8, 120u8, 121u8, 45u8, 97u8, 117u8, 116u8, 104u8, 111u8, 114u8, 105u8, 122u8, 97u8, 116u8, 105u8, 111u8, 110u8],
        seq![116u8, 114u8, 97u8, 110u8, 115u8, 102u8, 101u8, 114u8, 45u8, 101u8, 110u8, 99u8, 111u8, 100u8, 105u8, 110u8, 103u8],
        seq![117u8, 112u8, 103u8, 114u8, 97u8, 100u8, 101u8],
    ]
}

fn hop_headers() -> (r: Vec<Vec<u8>>)
    ensures
        views_of(r@) == hop_names(),
{
    let r = vec![
        vec![99u8, 111u8, 110u8, 110u8, 101u8, 99u8, 116u8, 105u8, 111u8, 110u8],
        vec![116u8, 101u8],
        vec![116u8, 114u8, 97u8, 105u8, 108u8, 101u8, 114u8],
        vec![107u8, 101u8, 101u8, 112u8, 45u8, 97u8, 108u8, 105u8, 118u8, 101u8],
        vec![112u8, 114u8, 111u8, 120u8, 121u8, 45u8, 99u8, 111u8, 110u8, 110u8, 101u8, 99u8, 116u8, 105u8, 111u8, 110u8],
        vec![112u8, 114u8, 111u8, 120u8, 121u8, 45u8, 97u8, 117u8, 116u8, 104u8, 101u8, 110u8, 116u8, 105u8, 99u8, 97u8, 116u8, 101u8],
        vec![112u8, 114u8, 111u8, 120u8, 121u8, 45u8, 97u8, 117u8, 116u8, 104u8, 111u8, 114u8, 105u8, 122u8, 97u8, 116u8, 105u8, 111u8, 110u8],
        vec![116u8, 114u8, 97u8, 110u8, 115u8, 102u8, 101u8, 114u8, 45u8, 101u8, 110u8, 99u8, 111u8, 100u8, 105u8, 110u8, 103u8],
        vec![117u8, 112u8, 103u8, 114u8, 97u8, 100u8, 101u8],
    ];
    assert(views_of(r@) =~= hop_names());
    r
}

/// The failures of the reverse proxy.
#[derive(Debug)]
pub enum ProxyError {
    /// The URI composed for the upstream does not parse.
    InvalidUri(String),
    /// No connection to the upstream could be made.
    UpstreamUnreachable(String),
    /// The upstream broke the protocol.
    UpstreamProtocolError(String),
    /// The upstream did not switch protocols on an upgrade.
    UpgradeRefused,
    /// A header value could not be composed.
    HeaderComposition,
}

/// Removes the hop-by-hop fields.
pub fn remove_hop_headers(headers: &mut HeaderList)
    ensures
        final(headers)@ == without(old(headers)@, hop_names()),
{
    let hop = hop_headers();
    headers.remove_listed(&hop);
}

/// The names listed in the first `connection` field, each trimmed.
pub open spec fn connection_listed(hs: Seq<HeaderPair>) -> Seq<Seq<u8>> {
    match first_value(hs, connection_name()) {
        Some(v) => split_on(v, 44u8).map_values(|t: Seq<u8>| trim(t)),
        None => Seq::empty(),
    }
}

/// Removes the fields whose names the first `connection` field lists.
pub fn remove_connection_headers(headers: &mut HeaderList)
    ensures
        final(headers)@ == without(old(headers)@, connection_listed(old(headers)@)),
{
    let name = connection_header();
    let listed_names = match headers.get(&name) {
        Some(v) => tokens(v),
        None => Vec::new(),
    };
    assert(views_of(listed_names@) =~= connection_listed(headers@));
    headers.remove_listed(&listed_names);
}

/// The protocol that a request asks to upgrade to: the `upgrade` field, when
/// the first `connection` field lists `upgrade`.
pub open spec fn upgrade_type(hs: Seq<HeaderPair>) -> Option<Seq<u8>> {
    match first_value(hs, connection_name()) {
        Some(v) => if has_token(v, upgrade_name()) {
            first_value(hs, upgrade_name())
        } else {
            None
        },
        None => None,
    }
}

/// The protocol that a request asks to upgrade to, if any.
pub fn get_upgrade_type(headers: &HeaderList) -> (r: Option<Vec<u8>>)
    ensures
        match upgrade_type(headers@) {
            Some(t) => r is Some && r->0@ == t,
            None => r is None,
        },
{
    let connection = connection_header();
    let upgrade = upgrade_header();
    match headers.get(&connection) {
        Some(v) => {
            if has_token_bytes(v, &upgrade) {
                match headers.get(&upgrade) {
                    Some(t) => Some(crate::headers::copy_bytes(t)),
                    None => None,
                }
            } else {
                None
            }
        },
        None => None,
    }
}

/// The fields of a response as the proxy hands it on: without the fields
/// that its `connection` field lists, and without the hop-by-hop fields.
pub open spec fn proxied_response(hs: Seq<HeaderPair>) -> Seq<HeaderPair> {
    without(without(hs, connection_listed(hs)), hop_names())
}

/// The fields of an upstream response, made fit to send on.
pub fn create_proxied_response(headers: HeaderList) -> (r: HeaderList)
    ensures
        r@ == proxied_response(headers@),
        forall|i: int| 0 <= i < r@.len() ==> !listed(hop_names(), (#[trigger] r@[i]).0),
{
    let mut h = headers;
    remove_connection_headers(&mut h);
    let ghost mid = h@;
    remove_hop_headers(&mut h);
    proof {
        assert forall|i: int| 0 <= i < h@.len() implies !listed(hop_names(), (#[trigger] h@[i]).0) by {
            mid.lemma_filter_pred(crate::headers::unlisted(hop_names()), i);
        }
    }
    h
}

/// A byte that a header value may hold: tab, or any byte from space up but
/// DEL.
pub open spec fn valid_value_byte(b: u8) -> bool {
    (b >= 32 && b != 127) || b == 9
}

/// Every byte of `v` may stand in a header value.
pub open spec fn valid_value(v: Seq<u8>) -> bool {
    forall|i: int| 0 <= i < v.len() ==> valid_value_byte(#[trigger] v[i])
}

fn is_valid_value(v: &Vec<u8>) -> (r: bool)
    ensures
        r == valid_value(v@),
{
    let mut i: usize = 0;
    while i < v.len()
        invariant
            i <= v@.len(),
            forall|j: int| 0 <= j < i ==> valid_value_byte(#[trigger] v@[j]),
        decreases v@.len() - i,
    {
        let b = v[i];
        if !((b >= 32 && b != 127) || b == 9) {
            return false;
        }
        i = i + 1;
    }
    true
}

/// `a` followed by `b`.
fn concat_bytes(a: &Vec<u8>, b: &Vec<u8>) -> (r: Vec<u8>)
    ensures
        r@ == a@ + b@,
{
    let mut r = crate::headers::copy_bytes(a);
    let mut i: usize = 0;
    while i < b.len()
        invariant
            i <= b@.len(),
            r@ == a@ + b@.subrange(0, i as int),
        decreases b@.len() - i,
    {
        r.push(b[i]);
        assert(r@ =~= a@ + b@.subrange(0, i + 1));
        i = i + 1;
    }
    assert(b@.subrange(0, i as int) =~= b@);
    r
}

/// The value `UPGRADE` that a proxied upgrade request carries in its
/// `connection` field.
pub open spec fn upgrade_token() -> Seq<u8> {
    seq![85u8, 80u8, 71u8, 82u8, 65u8, 68u8, 69u8]
}

/// The first `te` field of `hs` lists `trailers`.
pub open spec fn te_trailers(hs: Seq<HeaderPair>) -> bool {
    match first_value(hs, te_name()) {
        Some(v) => has_token(v, trailers_name()),
        None => false,
    }
}

/// The fields of a request as the proxy forwards it, before the client's
/// address is added: the fields that the `connection` field lists and the
/// hop-by-hop fields are removed; `te: trailers` is kept if it was asked
/// for; an upgrade puts back its `upgrade` field and `connection: UPGRADE`.
pub open spec fn forwarded_fields(hs: Seq<HeaderPair>, upgrade: Option<Seq<u8>>) -> Seq<HeaderPair> {
    let stripped = without(without(hs, connection_listed(hs)), hop_names());
    let with_te = if te_trailers(hs) {
        with_field(stripped, te_name(), trailers_name())
    } else {
        stripped
    };
    match upgrade {
        Some(u) => with_field(
            with_field(with_te, upgrade_name(), u),
            connection_name(),
            upgrade_token(),
        ),
        None => with_te,
    }
}

/// The `x-forwarded-for` value after a client at `ip` is added: `ip` alone,
/// or the value that was there, a comma and a space, then `ip`.
pub open spec fn forwarded_for(hs: Seq<HeaderPair>, ip: Seq<u8>) -> Seq<u8> {
    match first_value(hs, x_forwarded_for_name()) {
        Some(v) => v + seq![44u8, 32u8] + ip,
        None => ip,
    }
}

/// The fields of a request from a client at `ip` as the proxy forwards it.
pub open spec fn proxied_request(hs: Seq<HeaderPair>, ip: Seq<u8>, upgrade: Option<Seq<u8>>) -> Seq<
    HeaderPair,
> {
    let base = forwarded_fields(hs, upgrade);
    with_field(base, x_forwarded_for_name(), forwarded_for(base, ip))
}

/// The `x-forwarded-for` value that a request from a client at `ip` is
/// forwarded with.
pub open spec fn proxied_forwarded_for(hs: Seq<HeaderPair>, ip: Seq<u8>, upgrade: Option<Seq<u8>>) -> Seq<u8> {
    forwarded_for(forwarded_fields(hs, upgrade), ip)
}

/// The fields of a request from a client at `client_ip`, made fit to send
/// upstream; an error when the `x-forwarded-for` value it needs is not a
/// valid header value.
pub fn create_proxied_request(
    client_ip: &str,
    headers: HeaderList,
    upgrade_type: Option<&Vec<u8>>,
) -> (r: Result<HeaderList, ProxyError>)
    ensures
        ({
            let up = match upgrade_type {
                Some(u) => Some(u@),
                None => None,
            };
            &&& valid_value(proxied_forwarded_for(headers@, client_ip.spec_bytes(), up)) ==> r is Ok
                && r->Ok_0@ == proxied_request(headers@, client_ip.spec_bytes(), up)
            &&& !valid_value(proxied_forwarded_for(headers@, client_ip.spec_bytes(), up)) ==> r
                is Err && r->Err_0 is HeaderComposition
        }),
{
    let ghost hs = headers@;
    let te_name_bytes = te_header();
    let trailers = trailers_header();
    let keep_trailers = match headers.get(&te_name_bytes) {
        Some(v) => has_token_bytes(v, &trailers),
        None => false,
    };
    let mut h = headers;
    remove_connection_headers(&mut h);
    remove_hop_headers(&mut h);
    if keep_trailers {
        h.insert(te_name_bytes, trailers);
    }
    match upgrade_type {
        Some(u) => {
            h.insert(upgrade_header(), crate::headers::copy_bytes(u));
            h.insert(connection_header(), vec![85u8, 80u8, 71u8, 82u8, 65u8, 68u8, 69u8]);
        },
        None => {},
    }
    let ip = client_ip.as_bytes_vec();
    let xff = x_forwarded_for_header();
    let value = match h.get(&xff) {
        Some(v) => {
            let sep: Vec<u8> = vec![44u8, 32u8];
            let head = concat_bytes(v, &sep);
            concat_bytes(&head, &ip)
        },
        None => ip,
    };
    if !is_valid_value(&value) {
        return Err(ProxyError::HeaderComposition);
    }
    h.insert(xff, value);
    Ok(h)
}

/// A request made ready for the upstream: where it goes, its fields, and
/// the protocol it asks to upgrade to.
pub struct ProxiedRequest {
    pub uri: String,
    pub headers: HeaderList,
    pub upgrade: Option<Vec<u8>>,
}

/// Prepares a request from a client at `client_ip` for `path` and `query`
/// to be forwarded under `forward_base`; an error when the
/// `x-forwarded-for` value it needs is not a valid header value.
pub fn prepare_request(
    client_ip: &str,
    forward_base: &str,
    path: &str,
    query: Option<&str>,
    headers: HeaderList,
) -> (r: Result<ProxiedRequest, ProxyError>)
    ensures
        ({
            let up = upgrade_type(headers@);
            let ip = client_ip.spec_bytes();
            &&& valid_value(proxied_forwarded_for(headers@, ip, up)) ==> {
                &&& r is Ok
                &&& r->Ok_0.uri@ == forward_uri(
                    forward_base@,
                    path@,
                    match query {
                        Some(q) => q@,
                        None => Seq::empty(),
                    },
                )
                &&& r->Ok_0.headers@ == proxied_request(headers@, ip, up)
                &&& match r->Ok_0.upgrade {
                    Some(u) => up == Some(u@),
                    None => up is None,
                }
            }
            &&& !valid_value(proxied_forwarded_for(headers@, ip, up)) ==> r is Err
                && r->Err_0 is HeaderComposition
        }),
{
    let upgrade = get_upgrade_type(&headers);
    let proxied = match &upgrade {
        Some(u) => create_proxied_request(client_ip, headers, Some(u)),
        None => create_proxied_request(client_ip, headers, None),
    };
    match proxied {
        Ok(h) => {
            let uri = create_forward_uri(forward_base, path, query);
            Ok(ProxiedRequest { uri, headers: h, upgrade })
        },
        Err(e) => Err(e),
    }
}

/// The answer of the upstream to an upgrade request: accepted when it
/// switches protocols (101), refused otherwise.
pub fn upgrade_accepted(status: u16) -> (r: Result<(), ProxyError>)
    ensures
        status == 101 ==> r is Ok,
        status != 101 ==> r is Err && r->Err_0 is UpgradeRefused,
{
    if status == 101 {
        Ok(())
    } else {
        Err(ProxyError::UpgradeRefused)
    }
}

/// Where a reverse proxy sends its requests.
pub struct ProxyConfig {
    pub destination_host: String,
    pub destination_port: u16,
}

/// A handler that forwards each request to one upstream origin.
pub struct ReverseProxyHandler {
    proxy_config: ProxyConfig,
}

impl ReverseProxyHandler {
    pub closed spec fn config(&self) -> ProxyConfig {
        self.proxy_config
    }

    pub fn new(proxy_config: ProxyConfig) -> (r: Self)
        ensures
            r.config() == proxy_config,
    {
        ReverseProxyHandler { proxy_config }
    }

    pub fn destination_host(&self) -> (r: &String)
        ensures
            *r == self.config().destination_host,
    {
        &self.proxy_config.destination_host
    }

    pub fn destination_port(&self) -> (r: u16)
        ensures
            r == self.config().destination_port,
    {
        self.proxy_config.destination_port
    }

    /// The base URL of the upstream: `http://`, the host, `:` and the port.
    pub fn forward_base(&self) -> (r: String)
        ensures
            r@ == seq!['h', 't', 't', 'p', ':', '/', '/'] + self.config().destination_host@ + seq![':']
                + decimal(self.config().destination_port as nat),
    {
        let mut out: Vec<char> = vec!['h', 't', 't', 'p', ':', '/', '/'];
        let host = crate::text::chars_of(self.proxy_config.destination_host.as_str());
        let mut i: usize = 0;
        let ghost start = out@;
        while i < host.len()
            invariant
                i <= host@.len(),
                out@ == start + host@.subrange(0, i as int),
            decreases host@.len() - i,
        {
            out.push(host[i]);
            assert(out@ =~= start + host@.subrange(0, i + 1));
            i = i + 1;
        }
        assert(host@.subrange(0, i as int) =~= host@);
        out.push(':');
        push_decimal(&mut out, self.proxy_config.destination_port as u64);
        crate::text::string_of(&out)
    }
}

/// The first field named `n` of a list that holds no other field named `n`,
/// followed by one that is, is that one.
proof fn lemma_first_value_push(a: Seq<HeaderPair>, x: HeaderPair, n: Seq<u8>)
    requires
        forall|i: int| 0 <= i < a.len() ==> !same_name((#[trigger] a[i]).0, n),
        same_name(x.0, n),
    ensures
        first_value(a.push(x), n) == Some(x.1),
    decreases a.len(),
{
    if a.len() > 0 {
        assert(a.push(x).drop_first() =~= a.drop_first().push(x));
        assert(a.push(x)[0] == a[0]);
        assert forall|i: int| 0 <= i < a.drop_first().len() implies !same_name(
            (#[trigger] a.drop_first()[i]).0,
            n,
        ) by {
            assert(a.drop_first()[i] == a[i + 1]);
        }
        lemma_first_value_push(a.drop_first(), x, n);
    }
}

/// A field set with `with_field` is the first of that name.
pub proof fn lemma_with_field_first(hs: Seq<HeaderPair>, n: Seq<u8>, v: Seq<u8>)
    requires
        n.len() > 0,
    ensures
        first_value(with_field(hs, n, v), n) == Some(v),
{
    let kept = without(hs, seq![n]);
    assert forall|i: int| 0 <= i < kept.len() implies !same_name((#[trigger] kept[i]).0, n) by {
        hs.lemma_filter_pred(crate::headers::unlisted(seq![n]), i);
        if same_name(kept[i].0, n) {
            assert(seq![n][0] == n);
            assert(same_name(seq![n][0], kept[i].0));
        }
    }
    lemma_first_value_push(kept, (n, v), n);
}

/// Trimming a value without whitespace at its ends leaves it unchanged.
proof fn lemma_trim_plain(ip: Seq<u8>)
    requires
        ip.len() > 0 ==> !crate::headers::is_ows(ip[0]) && !crate::headers::is_ows(ip.last()),
    ensures
        trim(ip) == ip,
{
}

/// After a request from a client at `ip` is proxied, its one
/// `x-forwarded-for` field holds the client's address as the last item of
/// its comma-separated list, for an address without commas and without
/// whitespace at its ends.
pub proof fn lemma_client_ip_last(hs: Seq<HeaderPair>, ip: Seq<u8>, upgrade: Option<Seq<u8>>)
    requires
        !ip.contains(44u8),
        ip.len() > 0 ==> !crate::headers::is_ows(ip[0]) && !crate::headers::is_ows(ip.last()),
    ensures
        first_value(proxied_request(hs, ip, upgrade), x_forwarded_for_name()) == Some(
            proxied_forwarded_for(hs, ip, upgrade),
        ),
        trim(split_on(proxied_forwarded_for(hs, ip, upgrade), 44u8).last()) == ip,
{
    let base = forwarded_fields(hs, upgrade);
    lemma_with_field_first(base, x_forwarded_for_name(), forwarded_for(base, ip));
    lemma_trim_plain(ip);
    match first_value(base, x_forwarded_for_name()) {
        Some(v) => {
            let s = v.push(44u8);
            let t = seq![32u8] + ip;
            assert(s.drop_last() =~= v);
            assert(v + seq![44u8, 32u8] + ip =~= s + t);
            assert(!t.contains(44u8)) by {
                if t.contains(44u8) {
                    let k = choose|k: int| 0 <= k < t.len() && t[k] == 44u8;
                    assert(ip[k - 1] == 44u8);
                }
            }
            crate::text::lemma_split_nonempty(v, 44u8);
            crate::text::lemma_split_append(s, t, 44u8);
            assert(Seq::<u8>::empty() + t =~= t);
            assert(t.drop_first() =~= ip);
        },
        None => {
            crate::text::lemma_split_append(Seq::<u8>::empty(), ip, 44u8);
            assert(Seq::<u8>::empty() + ip =~= ip);
        },
    }
}

} // verus!
