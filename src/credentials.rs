//! The settings written to the transient credentials file a backup tool
//! reads, and the reading of a port number from such a file.
use vstd::prelude::*;
use crate::mysql_config::MySQLConnectionConfig;
use crate::text::{decimal, decimal_text};

verus! {

/// Where a run's credentials file comes from.
#[derive(Debug)]
pub enum CredentialsSource {
    /// An existing defaults file, copied as it is.
    CopyOf(String),
    /// A new file whose `[client]` section holds these keys and values, in order.
    Entries(Vec<(String, String)>),
}

/// The text of an optional string, or `default`.
pub open spec fn text_or(o: Option<String>, default: Seq<char>) -> Seq<char> {
    match o {
        Some(s) => s@,
        None => default,
    }
}

/// The `[client]` entries for explicit connection settings: host (default
/// `localhost`), port if set, user (default `root`), password (default
/// empty) and socket if set.
pub open spec fn client_entries(c: MySQLConnectionConfig) -> Seq<(Seq<char>, Seq<char>)> {
    let port = match c.port {
        Some(p) => seq![("port"@, decimal(p as nat))],
        None => Seq::empty(),
    };
    let socket = match c.socket {
        Some(s) => seq![("socket"@, s@)],
        None => Seq::empty(),
    };
    seq![("host"@, text_or(c.host, "localhost"@))] + port
        + seq![("user"@, text_or(c.username, "root"@)), ("password"@, text_or(c.password, ""@))] + socket
}

/// The text of each entry.
pub open spec fn entry_texts(v: Seq<(String, String)>) -> Seq<(Seq<char>, Seq<char>)> {
    v.map_values(|e: (String, String)| (e.0@, e.1@))
}

fn text_or_default(o: &Option<String>, default: &str) -> (r: String)
    ensures
        r@ == text_or(*o, default@),
{
    match o {
        Some(s) => s.clone(),
        None => String::from_str(default),
    }
}

fn entry(key: &str, value: String) -> (r: (String, String))
    ensures
        r.0@ == key@,
        r.1 == value,
{
    (String::from_str(key), value)
}

/// Where the credentials of a run of `c` come from: its defaults file when
/// one is configured, else entries built from its connection settings.
pub fn credentials_source(c: &MySQLConnectionConfig) -> (r: CredentialsSource)
    ensures
        c.defaults_file matches Some(f) ==> (r matches CredentialsSource::CopyOf(g) && g@ == f@),
        c.defaults_file is None ==> (r matches CredentialsSource::Entries(v) && entry_texts(v@) == client_entries(*c)),
{
    if let Some(f) = &c.defaults_file {
        return CredentialsSource::CopyOf(f.clone());
    }
    let mut v: Vec<(String, String)> = Vec::new();
    v.push(entry("host", text_or_default(&c.host, "localhost")));
    if let Some(p) = c.port {
        v.push(entry("port", decimal_text(p as u64)));
    }
    v.push(entry("user", text_or_default(&c.username, "root")));
    v.push(entry("password", text_or_default(&c.password, "")));
    if let Some(s) = &c.socket {
        v.push(entry("socket", s.clone()));
    }
    assert(entry_texts(v@) =~= client_entries(*c));
    CredentialsSource::Entries(v)
}

/// Whether `c` is an ASCII decimal digit.
pub open spec fn is_digit(c: char) -> bool {
    '0' <= c <= '9'
}

/// The value of the decimal digits `s`.
pub open spec fn digits_value(s: Seq<char>) -> int
    decreases s.len(),
{
    if s.len() == 0 {
        0
    } else {
        digits_value(s.drop_last()) * 10 + (s.last() as int - '0' as int)
    }
}

/// The digits of a port number text: the text less one leading `+`.
pub open spec fn port_digits(s: Seq<char>) -> Seq<char> {
    if s.len() > 0 && s[0] == '+' {
        s.subrange(1, s.len() as int)
    } else {
        s
    }
}

/// The port number that `s` denotes: an optional `+` and one or more
/// decimal digits whose value is at most 65535; else none.
pub open spec fn port_number(s: Seq<char>) -> Option<u16> {
    let d = port_digits(s);
    if d.len() > 0 && (forall|i: int| 0 <= i < d.len() ==> is_digit(#[trigger] d[i])) && digits_value(d) <= 65535 {
        Some(digits_value(d) as u16)
    } else {
        None
    }
}

proof fn lemma_digits_nonneg(s: Seq<char>)
    requires
        forall|k: int| 0 <= k < s.len() ==> is_digit(#[trigger] s[k]),
    ensures
        digits_value(s) >= 0,
    decreases s.len(),
{
    if s.len() > 0 {
        lemma_digits_nonneg(s.drop_last());
    }
}

/// Reads a port number: an optional `+` and decimal digits of value at most
/// 65535.
pub fn parse_port(text: &str) -> (r: Option<u16>)
    ensures
        r == port_number(text@),
{
    let n = text.unicode_len();
    let mut i: usize = 0;
    if n > 0 && text.get_char(0) == '+' {
        i = 1;
    }
    let start = i;
    let ghost d = port_digits(text@);
    assert(d =~= text@.subrange(start as int, n as int));
    if i == n {
        return None;
    }
    let mut value: u32 = 0;
    let mut too_big = false;
    while i < n
        invariant
            n == text@.len(),
            start <= i <= n,
            d == text@.subrange(start as int, n as int),
            d == port_digits(text@),
            forall|k: int| 0 <= k < i - start ==> is_digit(#[trigger] d[k]),
            !too_big ==> value == digits_value(d.take(i - start)),
            too_big ==> digits_value(d.take(i - start)) > 65535,
            value <= 65535,
        decreases n - i,
    {
        let c = text.get_char(i);
        if c < '0' || c > '9' {
            assert(!is_digit(d[i - start]));
            assert(!(forall|m: int| 0 <= m < d.len() ==> is_digit(#[trigger] d[m])));
            assert(port_number(text@) is None);
            return None;
        }
        let ghost k = i - start;
        assert(d.take(k + 1).drop_last() =~= d.take(k));
        assert(d.take(k + 1).last() == c);
        if !too_big {
            let next: u32 = value * 10 + (c as u32 - '0' as u32);
            proof {
                lemma_digits_nonneg(d.take(k));
            }
            if next > 65535 {
                too_big = true;
            } else {
                value = next;
            }
        } else {
            proof {
                lemma_digits_nonneg(d.take(k));
            }
        }
        i = i + 1;
    }
    assert(d.take(n - start) =~= d);
    if too_big {
        None
    } else {
        Some(value as u16)
    }
}

} // verus!
