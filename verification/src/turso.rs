//! The computable side of the database provider's fork API: request URLs,
//! the JSON request body, and the mapping of HTTP statuses to outcomes.
//! The HTTP exchange itself happens outside the library; everything here is
//! a function from plain values to plain values.

use vstd::prelude::*;
use vstd::string::*;

use crate::errors::ForkError;
use crate::text;

verus! {

/// A database as the provider's creation API describes it.
#[derive(Debug)]
pub struct DatabaseInfo {
    pub db_id: String,
    pub name: String,
    pub hostname: String,
}

/// A database as the provider's listing API describes it.
#[derive(Debug)]
pub struct DatabaseListItem {
    pub name: String,
    pub hostname: String,
}

/// The fixed base of the provider's API.
pub open spec fn api_base() -> Seq<char> {
    "https://api.turso.tech/v1"@
}

/// The collection URL for an organization's databases.
pub open spec fn databases_url_of(org: Seq<char>) -> Seq<char> {
    api_base() + "/organizations/"@ + org + "/databases"@
}

/// The URL of one database of an organization.
pub open spec fn database_item_url_of(org: Seq<char>, name: Seq<char>) -> Seq<char> {
    databases_url_of(org) + "/"@ + name
}

/// Builds the collection URL used to create and list databases.
pub fn databases_url(organization: &str) -> (r: String)
    ensures
        r@ == databases_url_of(organization@),
{
    String::from_str("https://api.turso.tech/v1").concat("/organizations/").concat(
        organization,
    ).concat("/databases")
}

/// Builds the URL used to delete one database.
pub fn database_item_url(organization: &str, name: &str) -> (r: String)
    ensures
        r@ == database_item_url_of(organization@, name@),
{
    databases_url(organization).concat("/").concat(name)
}

/// The connection URL derived from a database's hostname; the scheme
/// prefix is a display and wire format kept verbatim.
pub open spec fn database_url_of(hostname: Seq<char>) -> Seq<char> {
    "libsql://"@ + hostname
}

/// Derives the connection URL for a database hostname.
pub fn database_url(hostname: &str) -> (r: String)
    ensures
        r@ == database_url_of(hostname@),
{
    String::from_str("libsql://").concat(hostname)
}

/// The hexadecimal digit character for a value below sixteen.
pub open spec fn hex_char(d: nat) -> char {
    if d < 10 {
        text::digit_char(d)
    } else if d == 10 {
        'a'
    } else if d == 11 {
        'b'
    } else if d == 12 {
        'c'
    } else if d == 13 {
        'd'
    } else if d == 14 {
        'e'
    } else {
        'f'
    }
}

/// How one character reads inside a JSON string literal: quote and
/// backslash get a backslash escape, control characters a `\u00XX` escape,
/// every other character stands as it is.
pub open spec fn escaped_char(c: char) -> Seq<char> {
    if c == '"' {
        seq!['\\', '"']
    } else if c == '\\' {
        seq!['\\', '\\']
    } else if (c as u32) < 32 {
        seq!['\\', 'u', '0', '0', hex_char(((c as u32) / 16) as nat), hex_char(
            ((c as u32) % 16) as nat,
        )]
    } else {
        seq![c]
    }
}

/// A whole character sequence escaped for a JSON string literal.
pub open spec fn json_escaped(s: Seq<char>) -> Seq<char>
    decreases s.len(),
{
    if s.len() == 0 {
        Seq::empty()
    } else {
        json_escaped(s.drop_last()) + escaped_char(s.last())
    }
}

fn hex_char_exec(d: u32) -> (r: char)
    requires
        d < 16,
    ensures
        r == hex_char(d as nat),
{
    if d == 0 {
        '0'
    } else if d == 1 {
        '1'
    } else if d == 2 {
        '2'
    } else if d == 3 {
        '3'
    } else if d == 4 {
        '4'
    } else if d == 5 {
        '5'
    } else if d == 6 {
        '6'
    } else if d == 7 {
        '7'
    } else if d == 8 {
        '8'
    } else if d == 9 {
        '9'
    } else if d == 10 {
        'a'
    } else if d == 11 {
        'b'
    } else if d == 12 {
        'c'
    } else if d == 13 {
        'd'
    } else if d == 14 {
        'e'
    } else {
        'f'
    }
}

/// Escapes a string for inclusion in a JSON string literal.
pub fn json_escape(s: &str) -> (r: String)
    ensures
        r@ == json_escaped(s@),
{
    let n = s.unicode_len();
    let mut r = String::new();
    let mut i: usize = 0;
    proof {
        assert(s@.subrange(0, 0) =~= Seq::<char>::empty());
    }
    while i < n
        invariant
            i <= n,
            n == s@.len(),
            r@ == json_escaped(s@.subrange(0, i as int)),
        decreases n - i,
    {
        let c = s.get_char(i);
        if c == '"' {
            r.append("\\\"");
            proof {
                reveal_strlit("\\\"");
                assert("\\\""@ =~= escaped_char(c));
            }
        } else if c == '\\' {
            r.append("\\\\");
            proof {
                reveal_strlit("\\\\");
                assert("\\\\"@ =~= escaped_char(c));
            }
        } else if (c as u32) < 32 {
            let code = c as u32;
            r.append("\\u00");
            text::push_char(&mut r, hex_char_exec(code / 16));
            text::push_char(&mut r, hex_char_exec(code % 16));
            proof {
                reveal_strlit("\\u00");
                assert("\\u00"@ + seq![hex_char((code / 16) as nat)] + seq![
                    hex_char((code % 16) as nat),
                ] =~= escaped_char(c));
            }
        } else {
            text::push_char(&mut r, c);
            proof {
                assert(seq![c] =~= escaped_char(c));
            }
        }
        proof {
            let pre = s@.subrange(0, i as int);
            let cur = s@.subrange(0, i + 1);
            assert(cur.drop_last() =~= pre);
            assert(cur.last() == s@[i as int]);
            assert(r@ =~= json_escaped(cur));
        }
        i += 1;
    }
    proof {
        assert(s@.subrange(0, n as int) =~= s@);
    }
    r
}

/// The JSON body sent to create a database forked from a source database:
/// lower-case request field names, and a seed of type `database` naming the
/// source.
pub open spec fn create_body_of(name: Seq<char>, group: Seq<char>, source: Seq<char>) -> Seq<
    char,
> {
    "{\"name\":\""@ + json_escaped(name) + "\",\"group\":\""@ + json_escaped(group)
        + "\",\"seed\":{\"type\":\"database\",\"name\":\""@ + json_escaped(source) + "\"}}"@
}

/// Builds the creation request body for a fork of `source` named `name` in
/// the given group.
pub fn create_database_body(name: &str, group: &str, source: &str) -> (r: String)
    ensures
        r@ == create_body_of(name@, group@, source@),
{
    String::from_str("{\"name\":\"").concat(json_escape(name).as_str()).concat(
        "\",\"group\":\"",
    ).concat(json_escape(group).as_str()).concat(
        "\",\"seed\":{\"type\":\"database\",\"name\":\"",
    ).concat(json_escape(source).as_str()).concat("\"}}")
}

/// Maps an HTTP status and raw body to the call's outcome: a success
/// status is accepted, everything else carries the status and body as an
/// API error.
pub fn api_outcome(status: u16, body: String) -> (r: Result<(), ForkError>)
    ensures
        200 <= status < 300 ==> r is Ok,
        !(200 <= status < 300) ==> r is Err && r->Err_0 == (ForkError::Api { status, body }),
{
    if 200 <= status && status < 300 {
        Ok(())
    } else {
        Err(ForkError::Api { status, body })
    }
}

} // verus!
