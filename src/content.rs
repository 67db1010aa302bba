use vstd::prelude::*;
use crate::types::FileContent;

verus! {

/// How many leading bytes of a file the binary sniff looks at.
pub const SNIFF_LEN: usize = 8192;

/// A file is binary when a zero byte appears among its first `SNIFF_LEN` bytes.
pub open spec fn has_nul_in_window(head: Seq<u8>) -> bool {
    exists|i: int| 0 <= i < head.len() && i < SNIFF_LEN && head[i] == 0
}

/// Whether the leading bytes read from a file mark it as binary. Bytes past
/// the sniff window are not looked at.
pub fn is_binary_prefix(head: &[u8]) -> (r: bool)
    ensures
        r == has_nul_in_window(head@),
{
    let n: usize = if head.len() < SNIFF_LEN {
        head.len()
    } else {
        SNIFF_LEN
    };
    let mut i: usize = 0;
    while i < n
        invariant
            n <= head@.len(),
            n <= SNIFF_LEN,
            n == head@.len() || n == SNIFF_LEN,
            i <= n,
            forall|j: int| 0 <= j < i ==> head@[j] != 0,
        decreases n - i,
    {
        if head[i] == 0 {
            return true;
        }
        i += 1;
    }
    false
}

/// What is reported for a binary file: no text, and the true size on disk.
pub fn binary_content(path: &str, size: u64) -> (r: FileContent)
    ensures
        r.path@ == path@,
        r.content@.len() == 0,
        r.encoding@ == "binary"@,
        r.size == size,
        r.is_binary,
{
    FileContent {
        path: path.to_owned(),
        content: String::new(),
        encoding: "binary".to_owned(),
        size,
        is_binary: true,
    }
}

/// What is reported for a text file: its whole text, unchanged.
pub fn text_content(path: &str, text: String, size: u64) -> (r: FileContent)
    ensures
        r.path@ == path@,
        r.content@ == text@,
        r.encoding@ == "utf-8"@,
        r.size == size,
        !r.is_binary,
{
    FileContent { path: path.to_owned(), content: text, encoding: "utf-8".to_owned(), size, is_binary: false }
}

} // verus!
