//! The values behind the server's routes: the health report, the default
//! shell, and the target of the HTTP-to-HTTPS redirect.

use crate::configuration::{HTTPS_PORT, HTTP_PORT};
use crate::shell::{Shell, ShellID};
use vstd::prelude::*;

verus! {

/// The answer of the health route.
pub struct Health {
    pub status: String,
}

impl Health {
    /// The report of a healthy server.
    pub fn fine() -> (h: Health)
        ensures
            h.status@ == "Fine, thanks for asking."@,
    {
        Health { status: String::from_str("Fine, thanks for asking.") }
    }
}

/// The shell served under `/v0/shell/{id}`: named "Default", with no
/// history and no columns.
pub fn default_shell(id: u32) -> (s: Shell)
    ensures
        s.id.0 == id,
        s.name@ == "Default"@,
        s.history@.len() == 0,
        s.columns@.len() == 0,
{
    Shell {
        id: ShellID(id),
        name: String::from_str("Default"),
        history: Vec::new(),
        columns: Vec::new(),
    }
}

/// The character of a decimal digit.
pub open spec fn digit_char(d: nat) -> char {
    (48 + d) as char
}

/// The decimal numeral of `n`, without leading zeros.
pub open spec fn decimal(n: nat) -> Seq<char>
    decreases n,
{
    if n < 10 {
        seq![digit_char(n)]
    } else {
        decimal(n / 10) + seq![digit_char(n % 10)]
    }
}

/// The text of a decimal digit.
fn digit_text(d: u16) -> (text: &'static str)
    requires
        d < 10,
    ensures
        text@ == seq![digit_char(d as nat)],
{
    match d {
        0 => {
            proof {
                reveal_strlit("0");
            }
            "0"
        },
        1 => {
            proof {
                reveal_strlit("1");
            }
            "1"
        },
        2 => {
            proof {
                reveal_strlit("2");
            }
            "2"
        },
        3 => {
            proof {
                reveal_strlit("3");
            }
            "3"
        },
        4 => {
            proof {
                reveal_strlit("4");
            }
            "4"
        },
        5 => {
            proof {
                reveal_strlit("5");
            }
            "5"
        },
        6 => {
            proof {
                reveal_strlit("6");
            }
            "6"
        },
        7 => {
            proof {
                reveal_strlit("7");
            }
            "7"
        },
        8 => {
            proof {
                reveal_strlit("8");
            }
            "8"
        },
        _ => {
            proof {
                reveal_strlit("9");
            }
            "9"
        },
    }
}

/// Appends the decimal numeral of `n` to `out`.
fn append_decimal(out: &mut String, n: u16)
    ensures
        final(out)@ == old(out)@ + decimal(n as nat),
    decreases n,
{
    if n < 10 {
        out.append(digit_text(n));
    } else {
        append_decimal(out, n / 10);
        out.append(digit_text(n % 10));
        assert(decimal(n as nat) == decimal((n / 10) as nat) + seq![digit_char((n % 10) as nat)]);
    }
}

/// The authority `localhost:{port}`.
pub open spec fn local_authority(port: u16) -> Seq<char> {
    "localhost:"@ + decimal(port as nat)
}

/// `localhost:{port}`.
pub fn authority(port: u16) -> (a: String)
    ensures
        a@ == local_authority(port),
{
    let mut a = String::from_str("localhost:");
    append_decimal(&mut a, port);
    a
}

/// The local HTTPS authority is `localhost:3000`, the HTTP one `localhost:8000`.
pub proof fn local_authorities()
    ensures
        local_authority(HTTPS_PORT) == "localhost:3000"@,
        local_authority(HTTP_PORT) == "localhost:8000"@,
{
    reveal_strlit("localhost:3000");
    reveal_strlit("localhost:8000");
    reveal_strlit("localhost:");
    assert(decimal(3) == seq!['3']);
    assert(decimal(30) == seq!['3', '0']);
    assert(decimal(300) == seq!['3', '0', '0']);
    assert(decimal(3000) == seq!['3', '0', '0', '0']);
    assert(decimal(8) == seq!['8']);
    assert(decimal(80) == seq!['8', '0']);
    assert(decimal(800) == seq!['8', '0', '0']);
    assert(decimal(8000) == seq!['8', '0', '0', '0']);
    assert(local_authority(HTTPS_PORT) =~= "localhost:3000"@);
    assert(local_authority(HTTP_PORT) =~= "localhost:8000"@);
}

/// The host that plain HTTP requests must name to be redirected.
pub fn http_authority() -> (a: String)
    ensures
        a@ == "localhost:8000"@,
{
    proof {
        local_authorities();
    }
    authority(HTTP_PORT)
}

/// The request target made of a path and its query, if there is one:
/// `path?query`, or the path alone.
pub fn path_with_query(path: &str, query: Option<String>) -> (target: String)
    ensures
        target@ == match query {
            Some(q) => path@ + "?"@ + q@,
            None => path@,
        },
{
    let mut target = String::from_str(path);
    match query {
        Some(q) => {
            target.append("?");
            target.append(q.as_str());
        },
        None => {},
    }
    target
}

/// The URI that a plain HTTP request for `path_and_query` is redirected to:
/// the same path and query, over HTTPS, on the local HTTPS port.
pub fn redirect_target(path_and_query: &str) -> (uri: String)
    ensures
        uri@ == "https://localhost:3000"@ + path_and_query@,
{
    proof {
        local_authorities();
        reveal_strlit("https://");
        reveal_strlit("https://localhost:3000");
        reveal_strlit("localhost:3000");
        assert("https://"@ + "localhost:3000"@ =~= "https://localhost:3000"@);
    }
    let mut uri = String::from_str("https://");
    let to = authority(HTTPS_PORT);
    uri.append(to.as_str());
    uri.append(path_and_query);
    assert(uri@ =~= "https://localhost:3000"@ + path_and_query@);
    uri
}

/// The number that a string of decimal digits spells.
pub open spec fn numeral_value(digits: Seq<char>) -> int
    decreases digits.len(),
{
    if digits.len() == 0 {
        0
    } else {
        numeral_value(digits.drop_last()) * 10 + (digits.last() as int - 48)
    }
}

/// The decimal numeral of `n` is made of digits, does not start with `0`
/// unless it is `0`, and spells `n`.
pub proof fn decimal_spells_the_number(n: nat)
    ensures
        decimal(n).len() > 0,
        forall|i: int| 0 <= i < decimal(n).len() ==> '0' <= #[trigger] decimal(n)[i] <= '9',
        decimal(n)[0] != '0' || n == 0,
        numeral_value(decimal(n)) == n,
    decreases n,
{
    let k = n % 10;
    assert(digit_char(k) as int == 48 + k);
    if n < 10 {
        assert(decimal(n).drop_last() =~= Seq::<char>::empty());
        assert(n % 10 == n);
        assert(numeral_value(decimal(n)) == numeral_value(decimal(n).drop_last()) * 10 + (
        decimal(n).last() as int - 48));
    } else {
        decimal_spells_the_number(n / 10);
        let d = decimal(n);
        assert(d.drop_last() =~= decimal(n / 10));
        assert(d.last() == digit_char(k));
        assert((n / 10) * 10 + n % 10 == n) by (nonlinear_arith);
        assert(numeral_value(d) == numeral_value(decimal(n / 10)) * 10 + (d.last() as int - 48));
        assert(d[0] == decimal(n / 10)[0]);
        assert forall|i: int| 0 <= i < d.len() implies '0' <= #[trigger] d[i] <= '9' by {
            if i < d.len() - 1 {
                assert(d[i] == decimal(n / 10)[i]);
            }
        }
    }
}

} // verus!
