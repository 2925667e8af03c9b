//! The texts of the service: the retrieval URL of a paste, the line that
//! carries it to the client, and the address to listen on.

use vstd::prelude::*;
use vstd::string::StringExecFns;

verus! {

/// The character of the decimal digit `d`.
pub open spec fn digit_char(d: nat) -> char
    recommends
        d < 10,
{
    ('0' as nat + d) as char
}

/// `n` in decimal, without leading zeros.
pub open spec fn decimal(n: nat) -> Seq<char>
    decreases n,
{
    if n < 10 {
        seq![digit_char(n)]
    } else {
        decimal(n / 10).push(digit_char(n % 10))
    }
}

/// The host part of the URL: the domain, followed by a colon and the port
/// unless the port is 80.
pub open spec fn host_text(domain: Seq<char>, http_port: u16) -> Seq<char> {
    if http_port == 80 {
        domain
    } else {
        domain + seq![':'] + decimal(http_port as nat)
    }
}

/// `http://<domain>[:<port>]/<slug>`.
pub open spec fn url_text(domain: Seq<char>, slug: Seq<char>, http_port: u16) -> Seq<char> {
    seq!['h', 't', 't', 'p', ':', '/', '/'] + host_text(domain, http_port) + seq!['/'] + slug
}

/// The URL followed by a newline.
pub open spec fn reply_text(domain: Seq<char>, slug: Seq<char>, http_port: u16) -> Seq<char> {
    url_text(domain, slug, http_port).push('\n')
}

/// The text of a socket address: the host, a colon and the port.
pub open spec fn address_text(host: Seq<char>, port: u16) -> Seq<char> {
    host + seq![':'] + decimal(port as nat)
}

fn digit(d: u16) -> (c: char)
    requires
        d < 10,
    ensures
        c == digit_char(d as nat),
{
    match d {
        0 => '0',
        1 => '1',
        2 => '2',
        3 => '3',
        4 => '4',
        5 => '5',
        6 => '6',
        7 => '7',
        8 => '8',
        _ => '9',
    }
}

/// Appends `n` in decimal to `out`.
pub fn push_decimal(out: &mut String, n: u16)
    ensures
        final(out)@ == old(out)@ + decimal(n as nat),
    decreases n,
{
    if n >= 10 {
        push_decimal(out, n / 10);
    }
    out.push(digit(n % 10));
}

/// The URL under which the paste named `slug` is served.
pub fn get_url(domain: &str, slug: &str, http_port: u16) -> (url: String)
    ensures
        url@ == url_text(domain@, slug@, http_port),
{
    proof {
        reveal_strlit("http://");
        reveal_strlit(":");
        reveal_strlit("/");
    }
    let mut url = String::from_str("http://");
    url.append(domain);
    if http_port != 80 {
        url.append(":");
        push_decimal(&mut url, http_port);
    }
    url.append("/");
    url.append(slug);
    url
}

/// The one line sent back to the client: the URL and a newline.
pub fn reply_line(domain: &str, slug: &str, http_port: u16) -> (line: String)
    ensures
        line@ == reply_text(domain@, slug@, http_port),
{
    let mut line = get_url(domain, slug, http_port);
    line.push('\n');
    line
}

/// The address to listen on, as text: `<host>:<port>`.
pub fn listen_address(host: &str, port: u16) -> (address: String)
    ensures
        address@ == address_text(host@, port),
{
    proof {
        reveal_strlit(":");
    }
    let mut address = String::from_str(host);
    address.append(":");
    push_decimal(&mut address, port);
    address
}

/// The URL names the port exactly when the port is not 80. Then the domain
/// is followed by a colon, the port in decimal, a slash and the slug; with
/// port 80 the slash and the slug follow the domain at once. So what stands
/// right behind the domain is a colon in the first case and a slash in the
/// second.
pub proof fn law_port_suffix(domain: Seq<char>, slug: Seq<char>, http_port: u16)
    ensures
        ({
            let scheme = seq!['h', 't', 't', 'p', ':', '/', '/'];
            let url = url_text(domain, slug, http_port);
            let behind = scheme.len() + domain.len();
            &&& url.subrange(0, behind as int) == scheme + domain
            &&& http_port == 80 ==> url == scheme + domain + seq!['/'] + slug
            &&& http_port != 80 ==> url == scheme + domain + seq![':'] + decimal(http_port as nat)
                + seq!['/'] + slug
            &&& http_port != 80 <==> url[behind as int] == ':'
            &&& http_port == 80 <==> url[behind as int] == '/'
        }),
{
    let scheme = seq!['h', 't', 't', 'p', ':', '/', '/'];
    let url = url_text(domain, slug, http_port);
    let behind = scheme.len() + domain.len();
    assert(url.subrange(0, behind as int) =~= scheme + domain);
    if http_port == 80 {
        assert(url =~= scheme + domain + seq!['/'] + slug);
    } else {
        assert(url =~= scheme + domain + seq![':'] + decimal(http_port as nat) + seq!['/'] + slug);
    }
}

} // verus!
