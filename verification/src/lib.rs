//! The native core of the thumbnail tool: two total, stateless entry points
//! that a host runtime calls. Each returns a freshly built string and touches
//! nothing else.

use vstd::prelude::*;
use vstd::string::StringExecFns;

verus! {

/// The text that `greet` returns, as a sequence of characters.
pub open spec fn greeting() -> Seq<char> {
    "Hello from Rust! 🦀"@
}

/// What every acknowledgment starts with, up to and including the space
/// that precedes the path.
pub open spec fn thumbnail_prefix() -> Seq<char> {
    "Stub: would generate thumbnails for "@
}

/// The acknowledgment for `path`: the prefix, then the path character for
/// character.
pub open spec fn thumbnail_message(path: Seq<char>) -> Seq<char> {
    thumbnail_prefix() + path
}

/// Returns the greeting. It takes nothing and never fails, so every call
/// yields the same text.
pub fn greet() -> (text: String)
    ensures
        text@ == greeting(),
{
    String::from_str("Hello from Rust! 🦀")
}

/// Acknowledges a request for the thumbnails of `path`. The path is not
/// validated, parsed or opened: any string is accepted, the empty one too,
/// and it appears in the answer unchanged.
pub fn generate_thumbnails(path: String) -> (text: String)
    ensures
        text@ == thumbnail_message(path@),
{
    String::from_str("Stub: would generate thumbnails for ").concat(path.as_str())
}

/// An acknowledgment is exactly as long as the prefix and the path together,
/// begins with the prefix, and what follows the prefix is the path itself:
/// nothing is cut off, escaped or rewritten.
pub proof fn lemma_message_holds_path(path: Seq<char>)
    ensures
        thumbnail_message(path).len() == thumbnail_prefix().len() + path.len(),
        thumbnail_message(path).take(thumbnail_prefix().len() as int) == thumbnail_prefix(),
        thumbnail_message(path).skip(thumbnail_prefix().len() as int) == path,
{
    let prefix = thumbnail_prefix();
    let message = thumbnail_message(path);
    assert(message.take(prefix.len() as int) =~= prefix);
    assert(message.skip(prefix.len() as int) =~= path);
}

/// Two paths with the same acknowledgment are the same path.
pub proof fn lemma_message_determines_path(a: Seq<char>, b: Seq<char>)
    requires
        thumbnail_message(a) == thumbnail_message(b),
    ensures
        a == b,
{
    lemma_message_holds_path(a);
    lemma_message_holds_path(b);
}

/// The acknowledgment of the empty path is the prefix alone.
pub proof fn lemma_message_of_empty_path()
    ensures
        thumbnail_message(Seq::empty()) == thumbnail_prefix(),
{
    assert(thumbnail_message(Seq::empty()) =~= thumbnail_prefix());
}

} // verus!
