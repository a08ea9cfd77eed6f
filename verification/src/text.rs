//! Texts and lists of texts: joining, cutting at a colon, prefixes, and
//! the exchange of one character for another.

use vstd::prelude::*;
use vstd::string::{StrSliceExecFns, StringExecFns};

verus! {

/// The texts of a list of lines, in its order.
pub open spec fn texts(lines: Seq<String>) -> Seq<Seq<char>> {
    Seq::new(lines.len(), |i: int| lines[i]@)
}

/// The text of an optional line.
pub open spec fn optional_text(line: Option<String>) -> Option<Seq<char>> {
    match line {
        Some(text) => Some(text@),
        None => None,
    }
}

/// The list of the one text `text` where `present` holds, and the empty
/// list where it does not.
pub open spec fn optional(present: bool, text: Seq<char>) -> Seq<Seq<char>> {
    if present {
        seq![text]
    } else {
        Seq::empty()
    }
}

/// The parts one after the other, with `separator` between each two.
pub open spec fn joined(parts: Seq<Seq<char>>, separator: Seq<char>) -> Seq<char>
    decreases parts.len(),
{
    if parts.len() == 0 {
        Seq::empty()
    } else if parts.len() == 1 {
        parts.last()
    } else {
        joined(parts.drop_last(), separator) + separator + parts.last()
    }
}

/// The number of characters of a text that stand before its first colon:
/// all of them where it has no colon.
pub open spec fn colon_index(text: Seq<char>) -> int
    decreases text.len(),
{
    if text.len() == 0 || text[0] == ':' {
        0
    } else {
        1 + colon_index(text.drop_first())
    }
}

/// What stands before the first colon of an address: the host.
pub open spec fn host_of(address: Seq<char>) -> Seq<char> {
    address.take(colon_index(address))
}

/// Whether a text begins with `prefix`.
pub open spec fn has_prefix(text: Seq<char>, prefix: Seq<char>) -> bool {
    prefix.len() <= text.len() && text.take(prefix.len() as int) == prefix
}

/// A text with `_` in the place of each of its spaces.
pub open spec fn with_underscores(text: Seq<char>) -> Seq<char> {
    Seq::new(
        text.len(),
        |i: int|
            if text[i] == ' ' {
                '_'
            } else {
                text[i]
            },
    )
}

/// A text whose first `count` characters are no colon, and which ends
/// there or has a colon there, has `count` characters before its first
/// colon.
pub proof fn lemma_colon_index(text: Seq<char>, count: int)
    requires
        0 <= count <= text.len(),
        forall|i: int| 0 <= i < count ==> text[i] != ':',
        count == text.len() || text[count] == ':',
    ensures
        colon_index(text) == count,
    decreases count,
{
    if count > 0 {
        let rest = text.drop_first();
        assert forall|i: int| 0 <= i < count - 1 implies rest[i] != ':' by {
            assert(rest[i] == text[i + 1]);
        }
        lemma_colon_index(rest, count - 1);
    }
}

/// Whether two texts are the same.
pub fn same_text(a: &str, b: &str) -> (same: bool)
    ensures
        same == (a@ == b@),
{
    let left = String::from_str(a);
    let right = String::from_str(b);
    left == right
}

/// A copy of an optional line.
pub fn copy_of(line: &Option<String>) -> (copy: Option<String>)
    ensures
        optional_text(copy) == optional_text(*line),
{
    match line {
        Some(text) => Some(text.clone()),
        None => None,
    }
}

/// The parts one after the other, with `separator` between each two.
pub fn join(parts: &Vec<String>, separator: &str) -> (text: String)
    ensures
        text@ == joined(texts(parts@), separator@),
{
    let mut text = String::new();
    let ghost all = texts(parts@);
    let mut i: usize = 0;
    while i < parts.len()
        invariant
            i <= parts.len(),
            all == texts(parts@),
            text@ == joined(all.take(i as int), separator@),
        decreases parts.len() - i,
    {
        proof {
            let next = all.take(i as int + 1);
            assert(next.drop_last() =~= all.take(i as int));
            assert(next.last() == parts@[i as int]@);
        }
        if i > 0 {
            text.append(separator);
        }
        text.append(parts[i].as_str());
        proof {
            if i == 0 {
                assert(text@ =~= parts@[i as int]@);
            }
        }
        i = i + 1;
    }
    proof {
        assert(all.take(i as int) =~= all);
    }
    text
}

/// What stands before the first colon of an address: the host.
pub fn host<'a>(address: &'a str) -> (name: &'a str)
    ensures
        name@ == host_of(address@),
{
    let length: usize = address.unicode_len();
    let mut i: usize = 0;
    let mut found = false;
    while i < length && !found
        invariant
            i <= length,
            length == address@.len(),
            forall|k: int| 0 <= k < i ==> address@[k] != ':',
            found ==> i < length && address@[i as int] == ':',
        decreases
                length - i + if found {
                    0int
                } else {
                    1int
                },
    {
        if address.get_char(i) == ':' {
            found = true;
        } else {
            i = i + 1;
        }
    }
    proof {
        lemma_colon_index(address@, i as int);
    }
    address.substring_char(0, i)
}

/// Whether a text begins with `prefix`.
pub fn starts_with(text: &str, prefix: &str) -> (begins: bool)
    ensures
        begins == has_prefix(text@, prefix@),
{
    let length: usize = prefix.unicode_len();
    if length > text.unicode_len() {
        return false;
    }
    same_text(text.substring_char(0, length), prefix)
}

/// A text with `_` in the place of each of its spaces.
pub fn replace_spaces(text: &str) -> (replaced: String)
    ensures
        replaced@ == with_underscores(text@),
{
    let length: usize = text.unicode_len();
    let mut replaced = String::new();
    let mut i: usize = 0;
    proof {
        reveal_strlit("_");
    }
    while i < length
        invariant
            i <= length,
            length == text@.len(),
            "_"@ == seq!['_'],
            replaced@ == with_underscores(text@).take(i as int),
        decreases length - i,
    {
        if text.get_char(i) == ' ' {
            replaced.append("_");
        } else {
            replaced.append(text.substring_char(i, i + 1));
        }
        assert(replaced@ =~= with_underscores(text@).take(i as int + 1));
        i = i + 1;
    }
    assert(replaced@ =~= with_underscores(text@));
    replaced
}

} // verus!
