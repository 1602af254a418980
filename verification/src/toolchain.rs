//! Vetting of a compiler path before it is handed to a process launcher.
//!
//! The path is judged on its UTF-8 bytes. Every byte that is tested for is
//! an ASCII character, and in UTF-8 a byte below 128 is never part of a
//! longer character, so a test on bytes is a test on characters.

use vstd::prelude::*;
use vstd::string::*;

verus! {

/// One more than the greatest length, in bytes, of a path that is accepted.
pub const PATH_LENGTH_LIMIT: usize = 4096;

/// Whether a byte is a character that a shell gives a meaning to: a
/// separator, a redirection, a quote, a glob, an expansion, a control
/// character, or the backslash.
pub open spec fn is_shell_metachar(b: u8) -> bool {
    ||| b == 0x3B  // ;
    ||| b == 0x26  // &
    ||| b == 0x7C  // |
    ||| b == 0x60  // `
    ||| b == 0x24  // $
    ||| b == 0x3E  // >
    ||| b == 0x3C  // <
    ||| b == 0x0A  // line feed
    ||| b == 0x0D  // carriage return
    ||| b == 0x00  // NUL
    ||| b == 0x09  // tab
    ||| b == 0x22  // "
    ||| b == 0x27  // '
    ||| b == 0x5C  // backslash
    ||| b == 0x2A  // *
    ||| b == 0x3F  // ?
    ||| b == 0x5B  // [
    ||| b == 0x5D  // ]
    ||| b == 0x7B  // {
    ||| b == 0x7D  // }
    ||| b == 0x28  // (
    ||| b == 0x29  // )
    ||| b == 0x7E  // ~
    ||| b == 0x23  // #
    ||| b == 0x21  // !
    ||| b == 0x25  // %
    ||| b == 0x5E  // ^
}

/// Whether some byte of the path is a shell metacharacter.
pub open spec fn has_shell_metachar(path: Seq<u8>) -> bool {
    exists|i: int| 0 <= i < path.len() && is_shell_metachar(#[trigger] path[i])
}

/// Whether the path holds two dots in a row.
pub open spec fn has_parent_dir(path: Seq<u8>) -> bool {
    exists|i: int| 0 <= i < path.len() - 1 && #[trigger] path[i] == 0x2E && path[i + 1] == 0x2E
}

/// Whether a byte is an ASCII letter.
pub open spec fn is_ascii_letter(b: u8) -> bool {
    (0x41 <= b <= 0x5A) || (0x61 <= b <= 0x7A)
}

/// Whether the path names no directory: it holds neither kind of slash.
pub open spec fn is_simple(path: Seq<u8>) -> bool {
    !path.contains(0x2F) && !path.contains(0x5C)
}

/// Whether the path starts with a drive letter, a colon and a slash of
/// either kind.
pub open spec fn is_absolute_windows(path: Seq<u8>) -> bool {
    &&& path.len() >= 3
    &&& is_ascii_letter(path[0])
    &&& path[1] == 0x3A
    &&& (path[2] == 0x2F || path[2] == 0x5C)
}

/// Whether the path starts with two backslashes.
pub open spec fn is_unc(path: Seq<u8>) -> bool {
    path.len() >= 2 && path[0] == 0x5C && path[1] == 0x5C
}

/// Whether a path, given by its bytes, is safe to execute.
///
/// It is neither empty nor too long, holds no shell metacharacter and no
/// two dots in a row, and does not start with a dash. It is either a bare
/// program name without a colon, or an absolute path.
pub open spec fn path_is_safe(path: Seq<u8>) -> bool {
    &&& 0 < path.len() < PATH_LENGTH_LIMIT
    &&& !has_shell_metachar(path)
    &&& !has_parent_dir(path)
    &&& path[0] != 0x2D
    &&& (is_simple(path) || path[0] == 0x2F || is_absolute_windows(path) || is_unc(path))
    &&& !(is_simple(path) && path.contains(0x3A))
}

/// A path with a backslash is never safe: the backslash is a shell
/// metacharacter, whatever the shape of the path.
pub proof fn lemma_backslash_is_refused(path: Seq<u8>)
    requires
        path.contains(0x5C),
    ensures
        !path_is_safe(path),
{
    let i = choose|i: int| 0 <= i < path.len() && #[trigger] path[i] == 0x5C;
    assert(is_shell_metachar(path[i]));
}

fn byte_is_shell_metachar(b: u8) -> (meta: bool)
    ensures
        meta == is_shell_metachar(b),
{
    b == 0x3B || b == 0x26 || b == 0x7C || b == 0x60 || b == 0x24 || b == 0x3E || b == 0x3C || b
        == 0x0A || b == 0x0D || b == 0x00 || b == 0x09 || b == 0x22 || b == 0x27 || b == 0x5C || b
        == 0x2A || b == 0x3F || b == 0x5B || b == 0x5D || b == 0x7B || b == 0x7D || b == 0x28 || b
        == 0x29 || b == 0x7E || b == 0x23 || b == 0x21 || b == 0x25 || b == 0x5E
}

fn contains_shell_metachar(path: &[u8]) -> (found: bool)
    ensures
        found == has_shell_metachar(path@),
{
    let mut i: usize = 0;
    while i < path.len()
        invariant
            i <= path.len(),
            forall|j: int| 0 <= j < i ==> !is_shell_metachar(#[trigger] path@[j]),
        decreases path.len() - i,
    {
        if byte_is_shell_metachar(path[i]) {
            return true;
        }
        i = i + 1;
    }
    false
}

fn contains_parent_dir(path: &[u8]) -> (found: bool)
    ensures
        found == has_parent_dir(path@),
{
    if path.len() < 2 {
        return false;
    }
    let mut i: usize = 0;
    while i < path.len() - 1
        invariant
            path.len() >= 2,
            i <= path.len() - 1,
            forall|j: int|
                0 <= j < i && j < path.len() - 1 ==> !(#[trigger] path@[j] == 0x2E && path@[j + 1]
                    == 0x2E),
        decreases path.len() - i,
    {
        if path[i] == 0x2E && path[i + 1] == 0x2E {
            return true;
        }
        i = i + 1;
    }
    false
}

fn contains_byte(path: &[u8], b: u8) -> (found: bool)
    ensures
        found == path@.contains(b),
{
    let mut i: usize = 0;
    while i < path.len()
        invariant
            i <= path.len(),
            forall|j: int| 0 <= j < i ==> #[trigger] path@[j] != b,
        decreases path.len() - i,
    {
        if path[i] == b {
            return true;
        }
        i = i + 1;
    }
    false
}

/// Whether the bytes of a path make it safe to execute.
pub fn path_bytes_are_safe(path: &[u8]) -> (safe: bool)
    ensures
        safe == path_is_safe(path@),
{
    if path.len() == 0 || path.len() >= PATH_LENGTH_LIMIT {
        return false;
    }
    if contains_shell_metachar(path) {
        return false;
    }
    if contains_parent_dir(path) || path[0] == 0x2D {
        return false;
    }
    let simple: bool = !contains_byte(path, 0x2F) && !contains_byte(path, 0x5C);
    let absolute_unix: bool = path[0] == 0x2F;
    let first: u8 = path[0];
    let absolute_windows: bool = path.len() >= 3 && path[1] == 0x3A && (path[2] == 0x2F || path[2]
        == 0x5C) && ((0x41 <= first && first <= 0x5A) || (0x61 <= first && first <= 0x7A));
    let unc: bool = path.len() >= 2 && path[0] == 0x5C && path[1] == 0x5C;
    if !(simple || absolute_unix || absolute_windows || unc) {
        return false;
    }
    if simple && contains_byte(path, 0x3A) {
        return false;
    }
    true
}

/// Whether the path of a compiler is safe to execute.
pub fn rustc_path_is_safe(rustc: &str) -> (safe: bool)
    ensures
        safe == path_is_safe(rustc.spec_bytes()),
{
    path_bytes_are_safe(rustc.as_bytes())
}

} // verus!
