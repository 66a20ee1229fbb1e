use vstd::prelude::*;
use vstd::string::StrSliceExecFns;
use vstd::string::StringExecFns;
use crate::strings::{push_char, views};

verus! {

/// The size of each of the two buffers a relayed connection copies through.
pub const DEFAULT_BUF_SIZE: usize = 8192;

/// The port assumed when a `Host` header names none.
pub const DEFAULT_HTTP_PORT: &'static str = "80";

/// The pieces of `s` between the occurrences of `sep`, as `str::split`
/// yields them (an empty text gives one empty piece).
pub open spec fn split_on(s: Seq<char>, sep: char) -> Seq<Seq<char>>
    decreases s.len(),
{
    if s.len() == 0 {
        seq![Seq::<char>::empty()]
    } else {
        let rest = split_on(s.drop_last(), sep);
        if s.last() == sep {
            rest.push(Seq::<char>::empty())
        } else {
            rest.update(rest.len() - 1, rest.last().push(s.last()))
        }
    }
}

/// Splitting always yields at least one piece.
pub proof fn lemma_split_nonempty(s: Seq<char>, sep: char)
    ensures
        split_on(s, sep).len() >= 1,
    decreases s.len(),
{
    if s.len() > 0 {
        lemma_split_nonempty(s.drop_last(), sep);
    }
}

/// Splitting yields more than one piece exactly when the separator occurs.
pub proof fn lemma_split_many(s: Seq<char>, sep: char)
    ensures
        split_on(s, sep).len() >= 2 <==> s.contains(sep),
    decreases s.len(),
{
    if s.len() > 0 {
        let rest = s.drop_last();
        lemma_split_many(rest, sep);
        lemma_split_nonempty(rest, sep);
        if rest.contains(sep) {
            let i = choose|i: int| 0 <= i < rest.len() && rest[i] == sep;
            assert(s[i] == sep);
        }
        if s.contains(sep) && s.last() != sep {
            let i = choose|i: int| 0 <= i < s.len() && s[i] == sep;
            assert(i < s.len() - 1);
            assert(rest[i] == sep);
        }
    }
}

/// Splits `s` at every `sep`.
pub fn split_at_char(s: &str, sep: char) -> (pieces: Vec<String>)
    ensures
        views(pieces@) == split_on(s@, sep),
{
    let n = s.unicode_len();
    let mut done: Vec<String> = Vec::new();
    let mut current = String::new();
    let mut i: usize = 0;
    assert(s@.take(0) =~= Seq::<char>::empty());
    while i < n
        invariant
            n == s@.len(),
            i <= n,
            views(done@).push(current@) == split_on(s@.take(i as int), sep),
        decreases n - i,
    {
        let c = s.get_char(i);
        let ghost prefix = s@.take(i as int + 1);
        assert(prefix.drop_last() =~= s@.take(i as int));
        assert(prefix.last() == c);
        proof {
            lemma_split_nonempty(s@.take(i as int), sep);
        }
        let ghost before = views(done@);
        let ghost cur = current@;
        if c == sep {
            let finished = current;
            current = String::new();
            done.push(finished);
            assert(views(done@) =~= before.push(cur));
            assert(views(done@).push(current@) =~= split_on(prefix, sep));
        } else {
            push_char(&mut current, c);
            assert(views(done@).push(current@) =~= split_on(prefix, sep));
        }
        i = i + 1;
    }
    assert(s@.take(n as int) =~= s@);
    done.push(current);
    done
}

/// The address a proxy listens on: `host:port`.
pub fn listen_address(host: &str, port: &str) -> (addr: String)
    ensures
        addr@ == host@ + seq![':'] + port@,
{
    let mut addr = String::new();
    addr.append(host);
    push_char(&mut addr, ':');
    addr.append(port);
    assert(addr@ =~= host@ + seq![':'] + port@);
    addr
}

/// The host and port a `CONNECT` request names in its target
/// `host:port`: the text before the first colon and the text between the
/// first colon and the next one (or the end).
pub fn connect_target(url: &str) -> (target: (String, String))
    requires
        url@.contains(':'),
    ensures
        target.0@ == split_on(url@, ':')[0],
        target.1@ == split_on(url@, ':')[1],
{
    proof {
        lemma_split_many(url@, ':');
    }
    let mut pieces = split_at_char(url, ':');
    assert(views(pieces@)[0] == pieces@[0]@);
    assert(views(pieces@)[1] == pieces@[1]@);
    let port = pieces.remove(1);
    let host = pieces.remove(0);
    (host, port)
}

/// The host and port of a plain HTTP request, taken from its `Host`
/// header: `host` alone means port 80, `host:port` gives both, and
/// anything with more colons gives an empty host and port 80.
pub fn host_and_port(header_host: &str) -> (target: (String, String))
    ensures
        split_on(header_host@, ':').len() == 1 ==> target.0@ == split_on(header_host@, ':')[0]
            && target.1@ == DEFAULT_HTTP_PORT@,
        split_on(header_host@, ':').len() == 2 ==> target.0@ == split_on(header_host@, ':')[0]
            && target.1@ == split_on(header_host@, ':')[1],
        split_on(header_host@, ':').len() > 2 ==> target.0@ == Seq::<char>::empty()
            && target.1@ == DEFAULT_HTTP_PORT@,
{
    let mut pieces = split_at_char(header_host, ':');
    proof {
        lemma_split_nonempty(header_host@, ':');
    }
    assert(views(pieces@)[0] == pieces@[0]@);
    if pieces.len() == 1 {
        let host = pieces.remove(0);
        (host, DEFAULT_HTTP_PORT.to_string())
    } else if pieces.len() == 2 {
        assert(views(pieces@)[1] == pieces@[1]@);
        let port = pieces.remove(1);
        let host = pieces.remove(0);
        (host, port)
    } else {
        (String::new(), DEFAULT_HTTP_PORT.to_string())
    }
}

/// Where a request goes, as the proxy dispatches it.
#[derive(Debug)]
pub enum RequestTarget {
    /// A `CONNECT` request: open a TLS tunnel to `host:port`.
    Tunnel { host: String, port: String },
    /// Any other request: forward it over plain HTTP to `host:port`.
    Plain { host: String, port: String },
}

/// Dispatches a request: a `CONNECT` request goes through a tunnel to the
/// target its URL names; any other goes over plain HTTP to the host its
/// `Host` header names.
pub fn request_target(is_connect: bool, url: &str, header_host: &str) -> (t: RequestTarget)
    requires
        is_connect ==> url@.contains(':'),
    ensures
        is_connect ==> (t matches RequestTarget::Tunnel { host, port } && host@ == split_on(
            url@,
            ':',
        )[0] && port@ == split_on(url@, ':')[1]),
        !is_connect ==> (t matches RequestTarget::Plain { host, port } && (host@, port@) == (if split_on(
            header_host@,
            ':',
        ).len() == 1 {
            (split_on(header_host@, ':')[0], DEFAULT_HTTP_PORT@)
        } else if split_on(header_host@, ':').len() == 2 {
            (split_on(header_host@, ':')[0], split_on(header_host@, ':')[1])
        } else {
            (Seq::<char>::empty(), DEFAULT_HTTP_PORT@)
        })),
{
    if is_connect {
        let (host, port) = connect_target(url);
        RequestTarget::Tunnel { host, port }
    } else {
        proof {
            lemma_split_nonempty(header_host@, ':');
        }
        let (host, port) = host_and_port(header_host);
        RequestTarget::Plain { host, port }
    }
}

/// The number whose little-endian bytes are the first four of `bytes`.
pub open spec fn le_u32(bytes: Seq<u8>) -> int {
    bytes[0] + 256 * bytes[1] + 65536 * bytes[2] + 16777216 * bytes[3]
}

/// The session number made of the first four bytes of a UUID, read as a
/// little-endian `u32`.
pub fn session_id_from_bytes(bytes: &[u8; 16]) -> (id: u32)
    ensures
        id == le_u32(bytes@),
{
    let b0 = bytes[0] as u32;
    let b1 = bytes[1] as u32;
    let b2 = bytes[2] as u32;
    let b3 = bytes[3] as u32;
    b0 + 256 * b1 + 65536 * b2 + 16777216 * b3
}

} // verus!
