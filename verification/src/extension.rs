//! Which uploaded file names are accepted for analysis.
//!
//! A name is accepted by its extension alone: the characters after its last
//! `.`, compared without regard to ASCII case, must be `txt` or `ps1`. A name
//! without a `.` has no extension and is refused. Only ASCII capitals need
//! folding: no other character has a letter of `txt` or `ps1` as its lower
//! case.

use crate::text::chars_of;
use vstd::prelude::*;

verus! {

/// `c` with an ASCII capital letter replaced by its small letter.
pub open spec fn ascii_lower(c: char) -> char {
    if 'A' <= c && c <= 'Z' {
        ((c as u8 + 32) as u8) as char
    } else {
        c
    }
}

/// `text` with every ASCII capital letter replaced by its small letter.
pub open spec fn lowercase(text: Seq<char>) -> Seq<char> {
    Seq::new(text.len(), |i: int| ascii_lower(text[i]))
}

/// The last `.` of `name` stands at index `i`.
pub open spec fn is_last_dot(name: Seq<char>, i: int) -> bool {
    &&& 0 <= i < name.len()
    &&& name[i] == '.'
    &&& forall|j: int| i < j < name.len() ==> name[j] != '.'
}

/// The extensions that are analysed, in lower case.
pub open spec fn is_allowed_extension(ext: Seq<char>) -> bool {
    ext == seq!['t', 'x', 't'] || ext == seq!['p', 's', '1']
}

/// `name` has a `.`, and what follows its last `.` is, in lower case, one of
/// the allowed extensions.
pub open spec fn has_valid_extension(name: Seq<char>) -> bool {
    exists|i: int| #[trigger]
        is_last_dot(name, i) && is_allowed_extension(
            lowercase(name.subrange(i + 1, name.len() as int)),
        )
}

/// Executable form of [`ascii_lower`].
pub fn lower_char(c: char) -> (r: char)
    ensures
        r == ascii_lower(c),
{
    if 'A' <= c && c <= 'Z' {
        ((c as u8) + 32) as char
    } else {
        c
    }
}

/// Decides whether an uploaded file of this name is analysed.
///
/// Total: every string is answered, the empty one and names without a `.`
/// with `false`.
pub fn is_valid_extension(filename: &str) -> (valid: bool)
    ensures
        valid == has_valid_extension(filename@),
{
    let chars = chars_of(filename);
    let n: usize = chars.len();
    proof {
        lemma_valid_extension_is_suffix(chars@);
    }
    if n < 4 || chars[n - 4] != '.' {
        return false;
    }
    let a = lower_char(chars[n - 3]);
    let b = lower_char(chars[n - 2]);
    let c = lower_char(chars[n - 1]);
    proof {
        let ext = lowercase(chars@.subrange(n - 3, n as int));
        assert(ext =~= seq![a, b, c]);
        lemma_three_letters(a, b, c, 't', 'x', 't');
        lemma_three_letters(a, b, c, 'p', 's', '1');
    }
    (a == 't' && b == 'x' && c == 't') || (a == 'p' && b == 's' && c == '1')
}

/// Two texts of three characters are equal exactly when their characters
/// are.
proof fn lemma_three_letters(a: char, b: char, c: char, x: char, y: char, z: char)
    ensures
        (seq![a, b, c] == seq![x, y, z]) <==> (a == x && b == y && c == z),
{
    if a == x && b == y && c == z {
        assert(seq![a, b, c] =~= seq![x, y, z]);
    }
    if seq![a, b, c] == seq![x, y, z] {
        assert(seq![a, b, c][0] == a && seq![a, b, c][1] == b && seq![a, b, c][2] == c);
        assert(seq![x, y, z][0] == x && seq![x, y, z][1] == y && seq![x, y, z][2] == z);
    }
}

/// A name without a `.` is refused.
pub proof fn lemma_name_without_dot_is_refused(name: Seq<char>)
    requires
        forall|i: int| 0 <= i < name.len() ==> name[i] != '.',
    ensures
        !has_valid_extension(name),
{
    assert forall|i: int| !is_last_dot(name, i) by {}
}

/// A name is accepted exactly when it ends in a `.` and three characters
/// that are, in lower case, `txt` or `ps1`.
pub proof fn lemma_valid_extension_is_suffix(name: Seq<char>)
    ensures
        has_valid_extension(name) <==> name.len() >= 4 && name[name.len() - 4] == '.'
            && is_allowed_extension(lowercase(name.subrange(name.len() - 3, name.len() as int))),
{
    let n = name.len() as int;
    if has_valid_extension(name) {
        let i = choose|i: int| #[trigger]
            is_last_dot(name, i) && is_allowed_extension(lowercase(name.subrange(i + 1, n)));
        let ext = lowercase(name.subrange(i + 1, n));
        assert(ext.len() == n - i - 1);
        assert(seq!['t', 'x', 't'].len() == 3 && seq!['p', 's', '1'].len() == 3);
        assert(i == n - 4);
    }
    if n >= 4 && name[n - 4] == '.' && is_allowed_extension(lowercase(name.subrange(n - 3, n))) {
        let ext = lowercase(name.subrange(n - 3, n));
        let a = ascii_lower(name[n - 3]);
        let b = ascii_lower(name[n - 2]);
        let c = ascii_lower(name[n - 1]);
        assert(ext =~= seq![a, b, c]);
        lemma_three_letters(a, b, c, 't', 'x', 't');
        lemma_three_letters(a, b, c, 'p', 's', '1');
        assert(name[n - 3] != '.' && name[n - 2] != '.' && name[n - 1] != '.');
        assert(is_last_dot(name, n - 4));
    }
}

/// The answer does not depend on the case of the name's ASCII letters.
pub proof fn lemma_case_does_not_matter(name: Seq<char>)
    ensures
        has_valid_extension(lowercase(name)) == has_valid_extension(name),
{
    let low = lowercase(name);
    let n = name.len() as int;
    lemma_valid_extension_is_suffix(name);
    lemma_valid_extension_is_suffix(low);
    assert forall|c: char| ascii_lower(ascii_lower(c)) == #[trigger] ascii_lower(c) by {}
    assert forall|c: char| (#[trigger] ascii_lower(c) == '.') == (c == '.') by {}
    if n >= 4 {
        assert(low[n - 4] == ascii_lower(name[n - 4]));
        assert(lowercase(low.subrange(n - 3, n)) =~= lowercase(name.subrange(n - 3, n)));
    }
}

} // verus!
