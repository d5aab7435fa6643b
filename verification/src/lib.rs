//! Server-side logic of the whim shell: configuration handling, TLS key
//! loading decisions, the values behind the routes, and the client link.
//!
//! The items at this level are the greeting route's replies and a key
//! loader that passes failures on as they come.

pub mod client;
pub mod configuration;
pub mod encryption;
pub mod error;
pub mod routing;
pub mod shell;

use crate::encryption::{KeyAction, KeyEvent, decrypt_command, is_encrypted_key, key_is_encrypted, spec_decrypt_command, texts};
use vstd::prelude::*;
use vstd::utf8::*;

verus! {

/// Address mask on which both servers listen (every interface).
pub const HOST_MASK: [u8; 4] = [0, 0, 0, 0];

/// Port on which plain HTTP requests are accepted (and redirected).
pub const HTTP_PORT: u16 = 8000;

/// Port on which the HTTPS service listens.
pub const HTTPS_PORT: u16 = 3000;

/// Where the TLS certificate and private key are, and the key's passphrase.
pub struct TLS {
    pub crt: String,
    pub key: String,
    pub pass: String,
}

/// The server configuration.
pub struct Config {
    pub tls: TLS,
}

/// Decides the next step of loading the key configured in `tls`: read the
/// key file; hand an encrypted key to `openssl`, whose output is the key;
/// take any other file contents as the key.  Failures are passed on as they
/// are.
pub fn read_key_step(tls: &TLS, event: KeyEvent) -> (action: KeyAction)
    ensures
        match event {
            KeyEvent::Begin => action matches KeyAction::ReadFile(p) && p@ == tls.key@,
            KeyEvent::KeyFileRead(Err(e)) => action == KeyAction::Finish(Err(e)),
            KeyEvent::KeyFileRead(Ok(contents)) => if is_encrypted_key(contents@) {
                action matches KeyAction::Run(cmd)
                    && (cmd.program@, texts(cmd.args@)) == spec_decrypt_command(tls.key@, tls.pass@)
            } else {
                action matches KeyAction::Finish(Ok(key)) && key@ == contents@
            },
            KeyEvent::DecryptorFinished(r) => action == KeyAction::Finish(r),
        },
{
    match event {
        KeyEvent::Begin => KeyAction::ReadFile(tls.key.clone()),
        KeyEvent::KeyFileRead(Err(e)) => KeyAction::Finish(Err(e)),
        KeyEvent::KeyFileRead(Ok(contents)) => {
            if key_is_encrypted(&contents) {
                KeyAction::Run(decrypt_command(&tls.key, &tls.pass))
            } else {
                KeyAction::Finish(Ok(contents))
            }
        },
        KeyEvent::DecryptorFinished(r) => KeyAction::Finish(r),
    }
}

/// The value of a hexadecimal digit byte (`0-9`, `a-f`, `A-F`).
pub open spec fn hex_digit_value(b: u8) -> Option<u8> {
    if 48 <= b <= 57 {
        Some((b - 48) as u8)
    } else if 97 <= b <= 102 {
        Some((b - 87) as u8)
    } else if 65 <= b <= 70 {
        Some((b - 55) as u8)
    } else {
        None
    }
}

/// Percent-decoding: each `%` followed by two hexadecimal digits stands for
/// the byte that they spell; every other byte stands for itself.
pub open spec fn percent_decoded(bytes: Seq<u8>) -> Seq<u8>
    decreases bytes.len(),
{
    if bytes.len() == 0 {
        seq![]
    } else if bytes[0] == 37 && bytes.len() >= 3 && hex_digit_value(bytes[1]) is Some
        && hex_digit_value(bytes[2]) is Some {
        seq![(hex_digit_value(bytes[1])->Some_0 * 16 + hex_digit_value(bytes[2])->Some_0) as u8]
            + percent_decoded(bytes.subrange(3, bytes.len() as int))
    } else {
        seq![bytes[0]] + percent_decoded(bytes.drop_first())
    }
}

/// What `percent_decode_str(..).decode_utf8_lossy()` makes of a text.
pub uninterp spec fn percent_decoded_lossy(input: Seq<char>) -> Seq<char>;

/// Calls `percent_encoding::percent_decode_str` and then
/// `PercentDecode::decode_utf8_lossy` on the result.  The text is named by
/// `percent_decoded_lossy`; where the percent-decoded bytes are valid UTF-8,
/// it is exactly the text that they encode (otherwise invalid sequences are
/// replaced by U+FFFD, which is not stated here).
#[verifier::external_body]
fn percent_decode_utf8_lossy(input: &str) -> (text: String)
    ensures
        text@ == percent_decoded_lossy(input@),
        valid_utf8(percent_decoded(encode_utf8(input@))) ==> text@ == decode_utf8(
            percent_decoded(encode_utf8(input@)),
        ),
{
    percent_encoding::percent_decode_str(input).decode_utf8_lossy().into_owned()
}

/// The greeting for a name.
pub open spec fn greeting(name: Seq<char>) -> Seq<char> {
    "Hello, "@ + name + ".\n"@
}

/// The reply to a greeting request without a name: `Hello, world.`
pub fn greet_world() -> (reply: String)
    ensures
        reply@ == greeting("world"@),
{
    let mut reply = String::from_str("Hello, ");
    reply.append("world");
    reply.append(".\n");
    assert(reply@ =~= greeting("world"@));
    reply
}

/// Greets the (percent-encoded) path parameter: `Hello, {name}.` and a line
/// break, where `name` is the parameter percent-decoded, invalid UTF-8 being
/// replaced.
pub fn greet_param(param: String) -> (reply: String)
    ensures
        reply@ == greeting(percent_decoded_lossy(param@)),
        valid_utf8(percent_decoded(encode_utf8(param@))) ==> reply@ == greeting(
            decode_utf8(percent_decoded(encode_utf8(param@))),
        ),
        !param@.contains('%') ==> reply@ == greeting(param@),
{
    proof {
        if !param@.contains('%') {
            plain_names_are_greeted_verbatim(param@);
        }
    }
    let name = percent_decode_utf8_lossy(param.as_str());
    let mut reply = String::from_str("Hello, ");
    reply.append(name.as_str());
    reply.append(".\n");
    assert(reply@ =~= greeting(name@));
    reply
}

/// No byte of the UTF-8 encoding of a scalar other than `%` is a `%`.
proof fn scalar_encoding_has_no_percent(v: u32)
    requires
        v != 37,
    ensures
        forall|i: int| 0 <= i < encode_scalar(v).len() ==> encode_scalar(v)[i] != 37,
{
    if has_width_1_encoding(v) {
        assert(leading_byte_width_1(v) != 37) by (bit_vector)
            requires
                v <= 0x7F,
                v != 37,
        ;
    } else {
        assert(leading_byte_width_2(v) != 37) by (bit_vector);
        assert(leading_byte_width_3(v) != 37) by (bit_vector);
        assert(leading_byte_width_4(v) != 37) by (bit_vector);
        assert(last_continuation_byte(v) != 37) by (bit_vector);
        assert(second_last_continuation_byte(v) != 37) by (bit_vector);
        assert(third_last_continuation_byte(v) != 37) by (bit_vector);
    }
}

/// A text without `%` encodes to bytes without `%`.
proof fn encoding_has_no_percent(chars: Seq<char>)
    requires
        !chars.contains('%'),
    ensures
        forall|i: int| 0 <= i < encode_utf8(chars).len() ==> encode_utf8(chars)[i] != 37,
    decreases chars.len(),
{
    if chars.len() > 0 {
        assert(chars[0] != '%') by {
            if chars[0] == '%' {
                assert(chars.contains('%'));
            }
        }
        assert(!chars.drop_first().contains('%')) by {
            if chars.drop_first().contains('%') {
                let j = choose|j: int| 0 <= j < chars.drop_first().len() && chars.drop_first()[j] == '%';
                assert(chars[j + 1] == '%');
            }
        }
        assert(chars[0] as u32 != 37) by {
            if chars[0] as u32 == 37 {
                char_u32_cast(chars[0], 37);
                char_u32_cast('%', 37);
            }
        }
        scalar_encoding_has_no_percent(chars[0] as u32);
        encoding_has_no_percent(chars.drop_first());
        let head = encode_scalar(chars[0] as u32);
        let tail = encode_utf8(chars.drop_first());
        assert(encode_utf8(chars) == head + tail);
        assert forall|i: int| 0 <= i < encode_utf8(chars).len() implies encode_utf8(chars)[i]
            != 37 by {
            if i < head.len() {
                assert(encode_utf8(chars)[i] == head[i]);
            } else {
                assert(encode_utf8(chars)[i] == tail[i - head.len()]);
            }
        }
    }
}

/// Percent-decoding leaves bytes without `%` as they are.
pub proof fn decoding_without_percent_is_identity(bytes: Seq<u8>)
    requires
        forall|i: int| 0 <= i < bytes.len() ==> bytes[i] != 37,
    ensures
        percent_decoded(bytes) == bytes,
    decreases bytes.len(),
{
    if bytes.len() > 0 {
        assert(bytes[0] != 37);
        decoding_without_percent_is_identity(bytes.drop_first());
        assert(seq![bytes[0]] + bytes.drop_first() =~= bytes);
    }
}

/// A name that holds no `%` is greeted as it is: `Hello, {name}.`
pub proof fn plain_names_are_greeted_verbatim(name: Seq<char>)
    requires
        !name.contains('%'),
    ensures
        percent_decoded(encode_utf8(name)) == encode_utf8(name),
        greeting(decode_utf8(percent_decoded(encode_utf8(name)))) == greeting(name),
        valid_utf8(percent_decoded(encode_utf8(name))),
{
    encoding_has_no_percent(name);
    decoding_without_percent_is_identity(encode_utf8(name));
    encode_utf8_valid_utf8(name);
    encode_utf8_decode_utf8(name);
}

/// The byte of the hexadecimal digit `d` (below 16), in upper or lower case.
pub open spec fn hex_digit_byte(d: u8, upper: bool) -> u8 {
    if d < 10 {
        (48 + d) as u8
    } else if upper {
        (55 + d) as u8
    } else {
        (87 + d) as u8
    }
}

/// Every byte written as `%` and two hexadecimal digits.
pub open spec fn percent_escaped(bytes: Seq<u8>, upper: bool) -> Seq<u8>
    decreases bytes.len(),
{
    if bytes.len() == 0 {
        seq![]
    } else {
        seq![37u8, hex_digit_byte(bytes[0] / 16, upper), hex_digit_byte(bytes[0] % 16, upper)]
            + percent_escaped(bytes.drop_first(), upper)
    }
}

/// Percent-decoding undoes percent-escaping, with upper- or lower-case
/// digits, for byte strings of any length.
pub proof fn decoding_undoes_escaping(bytes: Seq<u8>, upper: bool)
    ensures
        percent_decoded(percent_escaped(bytes, upper)) == bytes,
    decreases bytes.len(),
{
    if bytes.len() > 0 {
        let e = percent_escaped(bytes, upper);
        let hi = bytes[0] / 16;
        let lo = bytes[0] % 16;
        assert(hex_digit_value(hex_digit_byte(hi, upper)) == Some(hi));
        assert(hex_digit_value(hex_digit_byte(lo, upper)) == Some(lo));
        assert(e[0] == 37);
        assert(e[1] == hex_digit_byte(hi, upper));
        assert(e[2] == hex_digit_byte(lo, upper));
        assert(e.subrange(3, e.len() as int) =~= percent_escaped(bytes.drop_first(), upper));
        decoding_undoes_escaping(bytes.drop_first(), upper);
        assert((hi * 16 + lo) as u8 == bytes[0]);
        assert(seq![bytes[0]] + bytes.drop_first() =~= bytes);
    }
}

/// The greeting holds the whole name, whatever its length: `Hello, `, then
/// the name, then `.` and a line break.
pub proof fn greeting_holds_the_whole_name(name: Seq<char>)
    ensures
        greeting(name).len() == name.len() + 9,
        greeting(name).subrange(0, 7) == "Hello, "@,
        greeting(name).subrange(7, name.len() + 7 as int) == name,
        greeting(name).subrange(name.len() + 7 as int, name.len() + 9 as int) == ".\n"@,
{
    reveal_strlit("Hello, ");
    reveal_strlit(".\n");
    let g = greeting(name);
    assert(g.subrange(0, 7) =~= "Hello, "@);
    assert(g.subrange(7, name.len() + 7 as int) =~= name);
    assert(g.subrange(name.len() + 7 as int, name.len() + 9 as int) =~= ".\n"@);
}

/// Different names get different greetings.
pub proof fn greetings_tell_names_apart(a: Seq<char>, b: Seq<char>)
    requires
        greeting(a) == greeting(b),
    ensures
        a == b,
{
    greeting_holds_the_whole_name(a);
    greeting_holds_the_whole_name(b);
}

} // verus!
