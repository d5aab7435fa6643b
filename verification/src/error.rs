//! I/O failures and the prefixing of their messages.

use vstd::prelude::*;

verus! {

/// The kind of an I/O failure, carried through unchanged.
#[verifier::external_type_specification]
#[verifier::external_body]
pub struct ExErrorKind(std::io::ErrorKind);

/// An I/O failure as the library sees it: its kind, and the text that
/// describes it (what the failure displays as).
pub struct IoFailure {
    pub kind: std::io::ErrorKind,
    pub message: String,
}

/// The text `pre: detail`.
pub open spec fn prefixed_text(pre: Seq<char>, detail: Seq<char>) -> Seq<char> {
    pre + ": "@ + detail
}

/// Returns a failure of the same kind as `err` whose text is `err`'s text
/// preceded by `pre` and a colon.
pub fn str_prefix_io(pre: &str, err: IoFailure) -> (res: IoFailure)
    ensures
        res.kind == err.kind,
        res.message@ == prefixed_text(pre@, err.message@),
{
    let mut message = String::from_str(pre);
    message.append(": ");
    message.append(err.message.as_str());
    IoFailure { kind: err.kind, message }
}

/// Prefixes a failure's text with the path that it concerns.
pub fn path_prefix_io(pre: &String, err: IoFailure) -> (res: IoFailure)
    ensures
        res.kind == err.kind,
        res.message@ == prefixed_text(pre@, err.message@),
{
    str_prefix_io(pre.as_str(), err)
}

/// The prefixed text is the prefix, a colon and a space, then the whole
/// original text, whatever their lengths.
pub proof fn prefixed_text_keeps_both_parts(pre: Seq<char>, detail: Seq<char>)
    ensures
        prefixed_text(pre, detail).len() == pre.len() + 2 + detail.len(),
        prefixed_text(pre, detail).subrange(0, pre.len() as int) == pre,
        prefixed_text(pre, detail)[pre.len() as int] == ':',
        prefixed_text(pre, detail)[pre.len() + 1 as int] == ' ',
        prefixed_text(pre, detail).subrange(pre.len() + 2 as int, pre.len() + 2 + detail.len() as int) == detail,
{
    reveal_strlit(": ");
    let t = prefixed_text(pre, detail);
    assert(t.subrange(0, pre.len() as int) =~= pre);
    assert(t.subrange(pre.len() + 2 as int, pre.len() + 2 + detail.len() as int) =~= detail);
}

} // verus!
