//! Loading the TLS private key.  A key file that holds an encrypted PKCS#8
//! key is decrypted with `openssl`; any other key file is used as it is.
//!
//! The file read and the decryptor run outside the library: `read_key_step`
//! decides, from what the last outside step produced, what to do next.

use crate::configuration::TLS;
use crate::error::{IoFailure, path_prefix_io, prefixed_text};
use vstd::prelude::*;

verus! {

/// The first bytes of a PEM file that holds an encrypted private key.
pub open spec fn encrypted_key_marker() -> Seq<u8> {
    "-----BEGIN ENCRYPTED"@.map_values(|c: char| c as u8)
}

/// Whether key file contents hold an encrypted key.
pub open spec fn is_encrypted_key(contents: Seq<u8>) -> bool {
    encrypted_key_marker().is_prefix_of(contents)
}

/// Tells whether `contents` begins with the encrypted-key marker.
pub fn key_is_encrypted(contents: &Vec<u8>) -> (encrypted: bool)
    ensures
        encrypted == is_encrypted_key(contents@),
{
    let marker: Vec<u8> = vec![
        45u8, 45u8, 45u8, 45u8, 45u8, 66u8, 69u8, 71u8, 73u8, 78u8,
        32u8, 69u8, 78u8, 67u8, 82u8, 89u8, 80u8, 84u8, 69u8, 68u8,
    ];
    proof {
        reveal_strlit("-----BEGIN ENCRYPTED");
        assert(marker@ =~= encrypted_key_marker());
    }
    if contents.len() < marker.len() {
        return false;
    }
    let mut i: usize = 0;
    while i < marker.len()
        invariant
            marker@ == encrypted_key_marker(),
            marker.len() <= contents.len(),
            0 <= i <= marker.len(),
            forall|j: int| 0 <= j < i ==> marker@[j] == contents@[j],
        decreases marker.len() - i,
    {
        if marker[i] != contents[i] {
            return false;
        }
        i = i + 1;
    }
    true
}

/// A program to run, with its arguments.
pub struct CommandLine {
    pub program: String,
    pub args: Vec<String>,
}

/// The texts of a list of strings.
pub open spec fn texts(v: Seq<String>) -> Seq<Seq<char>> {
    v.map_values(|s: String| s@)
}

/// The `openssl` invocation that decrypts the PKCS#8 key at `key` with the
/// passphrase argument `pass`, writing the plain key to its output.
pub open spec fn spec_decrypt_command(key: Seq<char>, pass: Seq<char>) -> (Seq<char>, Seq<Seq<char>>) {
    ("openssl"@, seq!["pkcs8"@, "-in"@, key, "-passin"@, pass])
}

/// Builds the `openssl` invocation that decrypts the key at `key` with the
/// passphrase argument `pass`.
pub fn decrypt_command(key: &String, pass: &String) -> (cmd: CommandLine)
    ensures
        (cmd.program@, texts(cmd.args@)) == spec_decrypt_command(key@, pass@),
{
    let mut args: Vec<String> = Vec::new();
    args.push(String::from_str("pkcs8"));
    args.push(String::from_str("-in"));
    args.push(key.clone());
    args.push(String::from_str("-passin"));
    args.push(pass.clone());
    let cmd = CommandLine { program: String::from_str("openssl"), args };
    assert(texts(cmd.args@) =~= seq!["pkcs8"@, "-in"@, key@, "-passin"@, pass@]);
    cmd
}

/// What the outside world reports to the key loader.
pub enum KeyEvent {
    /// Loading starts.
    Begin,
    /// The key file was read, or reading it failed.
    KeyFileRead(Result<Vec<u8>, IoFailure>),
    /// The decryptor ran (its standard output), or could not be run.
    DecryptorFinished(Result<Vec<u8>, IoFailure>),
}

/// What the key loader asks the outside world to do next.
pub enum KeyAction {
    /// Read the whole file at this path.
    ReadFile(String),
    /// Run this command and report its standard output.
    Run(CommandLine),
    /// Loading is over, with this key or this failure.
    Finish(Result<Vec<u8>, IoFailure>),
}

/// Decides the next step of loading the key configured in `tls`.
///
/// A failure to read the key file is reported with the key's path in front
/// of its text; an encrypted key is handed to `openssl`, whose output is the
/// key; any other file contents are the key.
pub fn read_key_step(tls: &TLS, event: KeyEvent) -> (action: KeyAction)
    ensures
        match event {
            KeyEvent::Begin => action matches KeyAction::ReadFile(p) && p@ == tls.key@,
            KeyEvent::KeyFileRead(Err(e)) => action matches KeyAction::Finish(Err(f)) && {
                &&& f.kind == e.kind
                &&& f.message@ == prefixed_text(tls.key@, e.message@)
            },
            KeyEvent::KeyFileRead(Ok(contents)) => if is_encrypted_key(contents@) {
                action matches KeyAction::Run(cmd)
                    && (cmd.program@, texts(cmd.args@)) == spec_decrypt_command(tls.key@, tls.pass@)
            } else {
                action matches KeyAction::Finish(Ok(key)) && key@ == contents@
            },
            KeyEvent::DecryptorFinished(r) => action == KeyAction::Finish(r),
        },
{
    match event {
        KeyEvent::Begin => KeyAction::ReadFile(tls.key.clone()),
        KeyEvent::KeyFileRead(Err(e)) => KeyAction::Finish(Err(path_prefix_io(&tls.key, e))),
        KeyEvent::KeyFileRead(Ok(contents)) => {
            if key_is_encrypted(&contents) {
                KeyAction::Run(decrypt_command(&tls.key, &tls.pass))
            } else {
                KeyAction::Finish(Ok(contents))
            }
        },
        KeyEvent::DecryptorFinished(r) => KeyAction::Finish(r),
    }
}

/// Contents are taken for an encrypted key exactly when they begin with
/// the bytes of `-----BEGIN ENCRYPTED`, whatever follows and however long
/// they are.
pub proof fn encrypted_exactly_when_marked(contents: Seq<u8>, tail: Seq<u8>)
    ensures
        is_encrypted_key("-----BEGIN ENCRYPTED"@.map_values(|c: char| c as u8) + tail),
        is_encrypted_key(contents) <==> (contents.len() >= 20 && contents.subrange(0, 20)
            == "-----BEGIN ENCRYPTED"@.map_values(|c: char| c as u8)),
{
    reveal_strlit("-----BEGIN ENCRYPTED");
    let m = "-----BEGIN ENCRYPTED"@.map_values(|c: char| c as u8);
    assert(m.len() == 20);
    assert((m + tail).subrange(0, 20) =~= m);
    if is_encrypted_key(contents) {
        assert(contents.subrange(0, 20) =~= m);
    }
    if contents.len() >= 20 && contents.subrange(0, 20) == m {
        assert forall|i: int| 0 <= i < m.len() implies m[i] == contents[i] by {
            assert(contents.subrange(0, 20)[i] == contents[i]);
        }
    }
}

/// The decrypting command is `openssl` with exactly five arguments:
/// `pkcs8`, `-in`, the key path, `-passin`, and the passphrase argument,
/// whatever their lengths.
pub proof fn decrypt_command_passes_key_and_passphrase(key: Seq<char>, pass: Seq<char>)
    ensures
        spec_decrypt_command(key, pass).0 == "openssl"@,
        spec_decrypt_command(key, pass).1.len() == 5,
        spec_decrypt_command(key, pass).1[0] == "pkcs8"@,
        spec_decrypt_command(key, pass).1[1] == "-in"@,
        spec_decrypt_command(key, pass).1[2] == key,
        spec_decrypt_command(key, pass).1[3] == "-passin"@,
        spec_decrypt_command(key, pass).1[4] == pass,
{
}

/// The texts of a list of strings are those of its elements, in order.
pub proof fn texts_are_elementwise(v: Seq<String>)
    ensures
        texts(v).len() == v.len(),
        forall|i: int| 0 <= i < v.len() ==> #[trigger] texts(v)[i] == v[i]@,
{
}

} // verus!
