//! Options in one string: items between semicolons, each a flag or a key
//! with `=` and a value, white space around items and values left out.
use vstd::pervasive::unreached;
use vstd::prelude::*;
use vstd::string::*;
use vstd::utf8::encode_utf8;

use crate::text::{
    chars_of, equals, find, in_bounds, index_of, slices, split, split_ranges, starts_with, trim,
    trim_range, views,
};
use crate::tls::{TlsClientConf, TlsClientConfView, TlsServerConf, TlsServerConfView};
use crate::ws::{WsConf, WsConfView};
use crate::MaskMode;

verus! {

/// Why an option string gives no configuration.
#[derive(Debug, Clone, Copy, PartialEq, Eq, Structural)]
pub enum OptError {
    /// `ws` is set without a host and a path.
    WsRequiresHostAndPath,
    /// `tls` is set on the client side without a server name.
    TlsRequiresSni,
    /// `tls` is set on the server side with neither a certificate and a
    /// key nor a server name.
    TlsRequiresCredentials,
}

/// The items of an option string.
pub open spec fn options(s: Seq<char>) -> Seq<Seq<char>> {
    split(s, ';').map_values(|item: Seq<char>| trim(item))
}

/// Whether the flag `name` is among the items.
pub open spec fn has_flag(items: Seq<Seq<char>>, name: Seq<char>) -> bool {
    items.contains(name)
}

/// The first item that starts with `name`.
pub open spec fn first_with(items: Seq<Seq<char>>, name: Seq<char>) -> Option<Seq<char>>
    decreases items.len(),
{
    if items.len() == 0 {
        None
    } else if name.is_prefix_of(items[0]) {
        Some(items[0])
    } else {
        first_with(items.drop_first(), name)
    }
}

/// The value of an item: what follows its first `=`, without the white
/// space around it, unless nothing is left.
pub open spec fn value_of(item: Seq<char>) -> Option<Seq<char>> {
    let k = index_of(item, '=');
    if 0 <= k < item.len() && trim(item.skip(k + 1)).len() > 0 {
        Some(trim(item.skip(k + 1)))
    } else {
        None
    }
}

/// The value under `name`: that of the first item that starts with `name`.
/// Later items are not looked at, whether or not that one has a value.
pub open spec fn value_under(items: Seq<Seq<char>>, name: Seq<char>) -> Option<Seq<char>> {
    match first_with(items, name) {
        Some(item) => value_of(item),
        None => None,
    }
}

/// The protocol names in a list of pieces: each piece without the white
/// space around it, as bytes, the empty ones left out.
pub open spec fn protocols(pieces: Seq<Seq<char>>) -> Seq<Seq<u8>>
    decreases pieces.len(),
{
    if pieces.len() == 0 {
        Seq::empty()
    } else {
        let name = encode_utf8(trim(pieces.last()));
        if name.len() == 0 {
            protocols(pieces.drop_last())
        } else {
            protocols(pieces.drop_last()).push(name)
        }
    }
}

/// The WebSocket configuration in an option string: none without the flag
/// `ws`; with it, the values under `host` and `path`, which must both be
/// there. Frames go out unmasked.
pub open spec fn ws_conf(s: Seq<char>) -> Result<Option<WsConfView>, OptError> {
    let items = options(s);
    if !has_flag(items, "ws"@) {
        Ok(None)
    } else {
        match (value_under(items, "host"@), value_under(items, "path"@)) {
            (Some(host), Some(path)) => Ok(
                Some(WsConfView { host, path, mask_mode: MaskMode::Skip }),
            ),
            _ => Err(OptError::WsRequiresHostAndPath),
        }
    }
}

/// The client's TLS settings in an option string: none without the flag
/// `tls`; with it, the server name under `sni`, which must be there, the
/// protocols under `alpn` between commas, and the flags `insecure` and
/// `0rtt`.
pub open spec fn tls_client_conf(s: Seq<char>) -> Result<Option<TlsClientConfView>, OptError> {
    let items = options(s);
    if !has_flag(items, "tls"@) {
        Ok(None)
    } else {
        match value_under(items, "sni"@) {
            Some(sni) => Ok(
                Some(
                    TlsClientConfView {
                        sni,
                        alpn: match value_under(items, "alpn"@) {
                            Some(list) => protocols(split(list, ',')),
                            None => Seq::empty(),
                        },
                        insecure: has_flag(items, "insecure"@),
                        early_data: has_flag(items, "0rtt"@),
                    },
                ),
            ),
            None => Err(OptError::TlsRequiresSni),
        }
    }
}

/// A value, or the empty text where there is none.
pub open spec fn or_empty(value: Option<Seq<char>>) -> Seq<char> {
    match value {
        Some(value) => value,
        None => Seq::empty(),
    }
}

/// The server's TLS settings in an option string: none without the flag
/// `tls`; with it, the paths under `cert`, `key` and `ocsp` and the name
/// under `servername`. A certificate and a key, or a server name, must be
/// there.
pub open spec fn tls_server_conf(s: Seq<char>) -> Result<Option<TlsServerConfView>, OptError> {
    let items = options(s);
    if !has_flag(items, "tls"@) {
        Ok(None)
    } else if (value_under(items, "cert"@) is Some && value_under(items, "key"@) is Some)
        || value_under(items, "servername"@) is Some {
        Ok(
            Some(
                TlsServerConfView {
                    crt: or_empty(value_under(items, "cert"@)),
                    key: or_empty(value_under(items, "key"@)),
                    ocsp: or_empty(value_under(items, "ocsp"@)),
                    server_name: or_empty(value_under(items, "servername"@)),
                },
            ),
        )
    } else {
        Err(OptError::TlsRequiresCredentials)
    }
}

/// An option string taken apart: its characters and the bounds of its
/// items.
struct Items {
    chars: Vec<char>,
    ranges: Vec<(usize, usize)>,
}

impl Items {
    /// The bounds lie in the text.
    spec fn wf(&self) -> bool {
        in_bounds(self.chars@, self.ranges@)
    }

    /// The items.
    spec fn view(&self) -> Seq<Seq<char>> {
        slices(self.chars@, self.ranges@)
    }

    /// Takes an option string apart.
    fn parse(s: &str) -> (r: Items)
        ensures
            r.wf(),
            r.chars@ == s@,
            r.view() == options(s@),
    {
        let chars = chars_of(s);
        let pieces = split_ranges(&chars, 0, chars.len(), ';');
        assert(chars@.subrange(0, chars@.len() as int) =~= chars@);
        let mut ranges: Vec<(usize, usize)> = Vec::new();
        let mut i: usize = 0;
        while i < pieces.len()
            invariant
                i <= pieces.len(),
                in_bounds(chars@, pieces@),
                in_bounds(chars@, ranges@),
                ranges@.len() == i,
                forall|j: int|
                    0 <= j < i ==> chars@.subrange(
                        (#[trigger] ranges@[j]).0 as int,
                        ranges@[j].1 as int,
                    ) == trim(chars@.subrange(pieces@[j].0 as int, pieces@[j].1 as int)),
            decreases pieces.len() - i,
        {
            let piece = pieces[i];
            assert(piece == pieces@[i as int]);
            let trimmed = trim_range(&chars, piece.0, piece.1);
            ranges.push(trimmed);
            i += 1;
        }
        assert(slices(chars@, ranges@) =~= options(s@));
        Items { chars, ranges }
    }

    /// The item at a place.
    proof fn lemma_item(&self, i: int)
        requires
            0 <= i < self.ranges@.len(),
        ensures
            self.view().len() == self.ranges@.len(),
            self.view()[i] == self.chars@.subrange(
                self.ranges@[i].0 as int,
                self.ranges@[i].1 as int,
            ),
    {
    }

    /// Whether the flag `name` is among the items.
    fn has(&self, name: &str) -> (r: bool)
        requires
            self.wf(),
        ensures
            r == has_flag(self.view(), name@),
    {
        let wanted = chars_of(name);
        let mut i: usize = 0;
        while i < self.ranges.len()
            invariant
                self.wf(),
                wanted@ == name@,
                i <= self.ranges.len(),
                forall|j: int| 0 <= j < i ==> self.view()[j] != wanted@,
            decreases self.ranges.len() - i,
        {
            let item = self.ranges[i];
            assert(item == self.ranges@[i as int]);
            proof {
                self.lemma_item(i as int);
            }
            if equals(&self.chars, item.0, item.1, &wanted) {
                assert(self.view()[i as int] == wanted@);
                assert(self.view().contains(wanted@));
                return true;
            }
            i += 1;
        }
        assert(self.view().len() == self.ranges@.len());
        false
    }

    /// The bounds of the value under `name`.
    fn get(&self, name: &str) -> (r: Option<(usize, usize)>)
        requires
            self.wf(),
        ensures
            match r {
                Some((from, to)) => from <= to <= self.chars@.len() && value_under(
                    self.view(),
                    name@,
                ) == Some(self.chars@.subrange(from as int, to as int)),
                None => value_under(self.view(), name@) is None,
            },
    {
        let wanted = chars_of(name);
        let mut i: usize = 0;
        assert(self.view().skip(0) =~= self.view());
        while i < self.ranges.len()
            invariant
                self.wf(),
                wanted@ == name@,
                i <= self.ranges.len(),
                self.view().len() == self.ranges@.len(),
                first_with(self.view(), wanted@) == first_with(self.view().skip(i as int), wanted@),
            decreases self.ranges.len() - i,
        {
            let item = self.ranges[i];
            assert(item == self.ranges@[i as int]);
            proof {
                self.lemma_item(i as int);
            }
            assert(self.view().skip(i as int)[0] == self.view()[i as int]);
            assert(self.view().skip(i as int).drop_first() =~= self.view().skip(i + 1));
            if starts_with(&self.chars, item.0, item.1, &wanted) {
                let ghost text = self.chars@.subrange(item.0 as int, item.1 as int);
                assert(first_with(self.view(), wanted@) == Some(text));
                let k = find(&self.chars, item.0, item.1, '=');
                assert(index_of(text, '=') == k - item.0);
                if k == item.1 {
                    assert(value_of(text) is None);
                    return None;
                }
                let value = trim_range(&self.chars, k + 1, item.1);
                assert(text.skip(k - item.0 + 1) =~= self.chars@.subrange(k + 1, item.1 as int));
                if value.0 == value.1 {
                    assert(self.chars@.subrange(value.0 as int, value.1 as int).len() == 0);
                    assert(value_of(text) is None);
                    return None;
                }
                assert(self.chars@.subrange(value.0 as int, value.1 as int).len() > 0);
                assert(value_of(text) == Some(
                    self.chars@.subrange(value.0 as int, value.1 as int),
                ));
                return Some(value);
            }
            i += 1;
        }
        assert(self.view().skip(i as int).len() == 0);
        None
    }
}

/// The text between two bounds of a string, as a string of its own.
fn substring(s: &str, from: usize, to: usize) -> (r: String)
    requires
        from <= to <= s@.len(),
    ensures
        r@ == s@.subrange(from as int, to as int),
{
    s.substring_char(from, to).to_owned()
}

/// The text between two bounds of a string, or the empty string where
/// there are no bounds.
fn substring_or_empty(s: &str, bounds: Option<(usize, usize)>) -> (r: String)
    requires
        bounds matches Some((from, to)) ==> from <= to <= s@.len(),
    ensures
        r@ == match bounds {
            Some((from, to)) => s@.subrange(from as int, to as int),
            None => Seq::empty(),
        },
{
    match bounds {
        Some((from, to)) => substring(s, from, to),
        None => String::new(),
    }
}

/// Whether the flag `name` is among the items of `s`.
pub fn has_opt(s: &str, name: &str) -> (r: bool)
    ensures
        r == has_flag(options(s@), name@),
{
    Items::parse(s).has(name)
}

/// The value under `name` among the items of `s`.
pub fn get_opt(s: &str, name: &str) -> (r: Option<String>)
    ensures
        match r {
            Some(value) => value_under(options(s@), name@) == Some(value@),
            None => value_under(options(s@), name@) is None,
        },
{
    match Items::parse(s).get(name) {
        Some((from, to)) => Some(substring(s, from, to)),
        None => None,
    }
}

/// The WebSocket configuration in an option string that sets `ws` only
/// together with a host and a path; `try_get_ws_conf` takes any string.
pub fn get_ws_conf(s: &str) -> (r: Option<WsConf>)
    requires
        ws_conf(s@) is Ok,
    ensures
        match r {
            Some(conf) => ws_conf(s@) == Ok::<Option<WsConfView>, OptError>(Some(conf@)),
            None => ws_conf(s@) == Ok::<Option<WsConfView>, OptError>(None),
        },
{
    let items = Items::parse(s);
    if !items.has("ws") {
        return None;
    }
    let host = items.get("host");
    let path = items.get("path");
    match (host, path) {
        (Some(host), Some(path)) => Some(
            WsConf {
                host: substring(s, host.0, host.1),
                path: substring(s, path.0, path.1),
                mask_mode: MaskMode::Skip,
            },
        ),
        _ => unreached(),
    }
}

/// Why an option string gives no WebSocket configuration, where it gives
/// none: `ws` is set and a host or a path is missing.
pub fn ws_conf_error(s: &str) -> (r: Option<OptError>)
    ensures
        match r {
            Some(e) => ws_conf(s@) == Err::<Option<WsConfView>, OptError>(e),
            None => ws_conf(s@) is Ok,
        },
{
    let items = Items::parse(s);
    if items.has("ws") && (items.get("host").is_none() || items.get("path").is_none()) {
        Some(OptError::WsRequiresHostAndPath)
    } else {
        None
    }
}

/// The WebSocket configuration in an option string, or why it gives none.
pub fn try_get_ws_conf(s: &str) -> (r: Result<Option<WsConf>, OptError>)
    ensures
        match r {
            Ok(Some(conf)) => ws_conf(s@) == Ok::<Option<WsConfView>, OptError>(Some(conf@)),
            Ok(None) => ws_conf(s@) == Ok::<Option<WsConfView>, OptError>(None),
            Err(e) => ws_conf(s@) == Err::<Option<WsConfView>, OptError>(e),
        },
{
    match ws_conf_error(s) {
        Some(e) => Err(e),
        None => Ok(get_ws_conf(s)),
    }
}

/// The protocol names in the list between two bounds of a string.
fn protocols_in(s: &str, chars: &Vec<char>, from: usize, to: usize) -> (alpn: Vec<Vec<u8>>)
    requires
        chars@ == s@,
        from <= to <= chars@.len(),
    ensures
        views(alpn@) == protocols(split(chars@.subrange(from as int, to as int), ',')),
{
    let pieces = split_ranges(chars, from, to, ',');
    let mut alpn: Vec<Vec<u8>> = Vec::new();
    let mut i: usize = 0;
    assert(slices(chars@, pieces@).take(0) =~= Seq::<Seq<char>>::empty());
    assert(views(alpn@) =~= Seq::<Seq<u8>>::empty());
    while i < pieces.len()
        invariant
            chars@ == s@,
            i <= pieces.len(),
            in_bounds(chars@, pieces@),
            views(alpn@) == protocols(slices(chars@, pieces@).take(i as int)),
        decreases pieces.len() - i,
    {
        let piece = pieces[i];
        assert(piece == pieces@[i as int]);
        let name = trim_range(chars, piece.0, piece.1);
        let bytes = s.substring_char(name.0, name.1).as_bytes_vec();
        let ghost done = slices(chars@, pieces@).take(i as int);
        let ghost next = slices(chars@, pieces@).take(i + 1);
        assert(next.drop_last() =~= done);
        assert(next.last() == chars@.subrange(piece.0 as int, piece.1 as int));
        let ghost before = views(alpn@);
        if !bytes.is_empty() {
            alpn.push(bytes);
            assert(views(alpn@) =~= before.push(bytes@));
        }
        i += 1;
    }
    assert(slices(chars@, pieces@).take(i as int) =~= slices(chars@, pieces@));
    alpn
}

/// The client's TLS settings in an option string that sets `tls` only
/// together with a server name; `try_get_tls_client_conf` takes any string.
pub fn get_tls_client_conf(s: &str) -> (r: Option<TlsClientConf>)
    requires
        tls_client_conf(s@) is Ok,
    ensures
        match r {
            Some(conf) => tls_client_conf(s@) == Ok::<Option<TlsClientConfView>, OptError>(
                Some(conf@),
            ),
            None => tls_client_conf(s@) == Ok::<Option<TlsClientConfView>, OptError>(None),
        },
{
    let items = Items::parse(s);
    if !items.has("tls") {
        return None;
    }
    let sni = items.get("sni");
    let alpn = items.get("alpn");
    let insecure = items.has("insecure");
    let early_data = items.has("0rtt");
    match sni {
        Some(sni) => {
            let alpn = match alpn {
                Some(list) => protocols_in(s, &items.chars, list.0, list.1),
                None => Vec::new(),
            };
            let conf = TlsClientConf {
                sni: substring(s, sni.0, sni.1),
                alpn,
                insecure,
                early_data,
            };
            assert(conf@.alpn =~= tls_client_conf(s@)->Ok_0->0.alpn);
            Some(conf)
        },
        None => unreached(),
    }
}

/// Why an option string gives no TLS settings for a client, where it gives
/// none: `tls` is set and the server name is missing.
pub fn tls_client_conf_error(s: &str) -> (r: Option<OptError>)
    ensures
        match r {
            Some(e) => tls_client_conf(s@) == Err::<Option<TlsClientConfView>, OptError>(e),
            None => tls_client_conf(s@) is Ok,
        },
{
    let items = Items::parse(s);
    if items.has("tls") && items.get("sni").is_none() {
        Some(OptError::TlsRequiresSni)
    } else {
        None
    }
}

/// The client's TLS settings in an option string, or why it gives none.
pub fn try_get_tls_client_conf(s: &str) -> (r: Result<Option<TlsClientConf>, OptError>)
    ensures
        match r {
            Ok(Some(conf)) => tls_client_conf(s@) == Ok::<Option<TlsClientConfView>, OptError>(
                Some(conf@),
            ),
            Ok(None) => tls_client_conf(s@) == Ok::<Option<TlsClientConfView>, OptError>(None),
            Err(e) => tls_client_conf(s@) == Err::<Option<TlsClientConfView>, OptError>(e),
        },
{
    match tls_client_conf_error(s) {
        Some(e) => Err(e),
        None => Ok(get_tls_client_conf(s)),
    }
}

/// The server's TLS settings in an option string that sets `tls` only
/// together with a certificate and a key or with a server name;
/// `try_get_tls_server_conf` takes any string.
pub fn get_tls_server_conf(s: &str) -> (r: Option<TlsServerConf>)
    requires
        tls_server_conf(s@) is Ok,
    ensures
        match r {
            Some(conf) => tls_server_conf(s@) == Ok::<Option<TlsServerConfView>, OptError>(
                Some(conf@),
            ),
            None => tls_server_conf(s@) == Ok::<Option<TlsServerConfView>, OptError>(None),
        },
{
    let items = Items::parse(s);
    if !items.has("tls") {
        return None;
    }
    let key = items.get("key");
    let crt = items.get("cert");
    let ocsp = items.get("ocsp");
    let server_name = items.get("servername");
    Some(
        TlsServerConf {
            crt: substring_or_empty(s, crt),
            key: substring_or_empty(s, key),
            ocsp: substring_or_empty(s, ocsp),
            server_name: substring_or_empty(s, server_name),
        },
    )
}

/// Why an option string gives no TLS settings for a server, where it gives
/// none: `tls` is set with neither a certificate and a key nor a server
/// name.
pub fn tls_server_conf_error(s: &str) -> (r: Option<OptError>)
    ensures
        match r {
            Some(e) => tls_server_conf(s@) == Err::<Option<TlsServerConfView>, OptError>(e),
            None => tls_server_conf(s@) is Ok,
        },
{
    let items = Items::parse(s);
    if !items.has("tls") {
        return None;
    }
    let with_files = items.get("cert").is_some() && items.get("key").is_some();
    if with_files || items.get("servername").is_some() {
        None
    } else {
        Some(OptError::TlsRequiresCredentials)
    }
}

/// The server's TLS settings in an option string, or why it gives none.
pub fn try_get_tls_server_conf(s: &str) -> (r: Result<Option<TlsServerConf>, OptError>)
    ensures
        match r {
            Ok(Some(conf)) => tls_server_conf(s@) == Ok::<Option<TlsServerConfView>, OptError>(
                Some(conf@),
            ),
            Ok(None) => tls_server_conf(s@) == Ok::<Option<TlsServerConfView>, OptError>(None),
            Err(e) => tls_server_conf(s@) == Err::<Option<TlsServerConfView>, OptError>(e),
        },
{
    match tls_server_conf_error(s) {
        Some(e) => Err(e),
        None => Ok(get_tls_server_conf(s)),
    }
}

} // verus!
