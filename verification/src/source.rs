//! Image sources: a remote address or a path in the file system.

use vstd::prelude::*;

verus! {

/// The most bytes that are read of a remote image; what follows is cut off.
pub const MAX_RESPONSE_BYTES: u64 = 50 * 1024 * 1024;

/// Where an image comes from.
#[derive(Clone, Copy, Debug, PartialEq, Eq, Structural)]
pub enum SourceKind {
    /// An address that begins with `http://` or `https://`.
    Url,
    /// Anything else: a path in the file system.
    Path,
}

/// Whether a source is a remote address: it begins with `http://` or `https://`.
pub open spec fn is_url(source: Seq<char>) -> bool {
    "http://"@.is_prefix_of(source) || "https://"@.is_prefix_of(source)
}

/// Tells whether `text` begins with `prefix`, character by character.
pub fn starts_with(text: &str, prefix: &str) -> (found: bool)
    ensures
        found == prefix@.is_prefix_of(text@),
{
    let wanted: usize = prefix.unicode_len();
    let given: usize = text.unicode_len();
    if given < wanted {
        return false;
    }
    let mut i: usize = 0;
    while i < wanted
        invariant
            i <= wanted,
            wanted == prefix@.len(),
            given == text@.len(),
            wanted <= given,
            forall|k: int| 0 <= k < i ==> text@[k] == prefix@[k],
        decreases wanted - i,
    {
        if text.get_char(i) != prefix.get_char(i) {
            assert(text@.subrange(0, prefix@.len() as int)[i as int] != prefix@[i as int]);
            return false;
        }
        i = i + 1;
    }
    assert(text@.subrange(0, prefix@.len() as int) =~= prefix@);
    true
}

/// Sorts a source into remote addresses and paths.
pub fn classify_source(source: &str) -> (kind: SourceKind)
    ensures
        kind == (if is_url(source@) {
            SourceKind::Url
        } else {
            SourceKind::Path
        }),
{
    if starts_with(source, "http://") || starts_with(source, "https://") {
        SourceKind::Url
    } else {
        SourceKind::Path
    }
}

} // verus!
