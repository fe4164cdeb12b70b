//! Fields of a line: the pieces between single spaces.

use vstd::prelude::*;
use vstd::string::{is_ascii, is_ascii_spec_bytes, StrSliceExecFns};

verus! {

/// The number of characters of `s` that stand before its first space, or
/// the length of `s` if it holds no space.
pub open spec fn head_len(s: Seq<char>) -> nat
    decreases s.len(),
{
    if s.len() == 0 || s[0] == ' ' {
        0
    } else {
        1 + head_len(s.drop_first())
    }
}

/// The fields of `s`: what stands between its spaces, in order. A text
/// with `n` spaces has `n + 1` fields, some of which may be empty.
pub open spec fn fields(s: Seq<char>) -> Seq<Seq<char>>
    decreases s.len(),
{
    let k = head_len(s) as int;
    if k < s.len() {
        seq![s.subrange(0, k)] + fields(s.subrange(k + 1, s.len() as int))
    } else {
        seq![s]
    }
}

/// `head_len(s)` is at most the length of `s`, no character before it is a
/// space, and the character at it, if there is one, is a space.
pub proof fn lemma_head_len_bounds(s: Seq<char>)
    ensures
        head_len(s) <= s.len(),
        forall|j: int| 0 <= j < head_len(s) ==> s[j] != ' ',
        head_len(s) < s.len() ==> s[head_len(s) as int] == ' ',
    decreases s.len(),
{
    if s.len() == 0 || s[0] == ' ' {
    } else {
        lemma_head_len_bounds(s.drop_first());
        assert forall|j: int| 0 <= j < head_len(s) implies s[j] != ' ' by {
            if j > 0 {
                assert(s[j] == s.drop_first()[j - 1]);
            }
        }
        assert(head_len(s) < s.len() ==> s[head_len(s) as int] == s.drop_first()[head_len(s) - 1]);
    }
}

/// An index with no space before it, which is the end of `s` or holds a
/// space, is `head_len(s)`.
pub proof fn lemma_head_len_is(s: Seq<char>, i: int)
    requires
        0 <= i <= s.len(),
        forall|j: int| 0 <= j < i ==> s[j] != ' ',
        i == s.len() || s[i] == ' ',
    ensures
        head_len(s) == i,
    decreases i,
{
    if i > 0 {
        let t = s.drop_first();
        assert forall|j: int| 0 <= j < i - 1 implies t[j] != ' ' by {
            assert(t[j] == s[j + 1]);
        }
        lemma_head_len_is(t, i - 1);
    }
}

/// The parts put together again, with one space between each two.
pub open spec fn joined(parts: Seq<Seq<char>>) -> Seq<char>
    decreases parts.len(),
{
    if parts.len() == 0 {
        Seq::empty()
    } else if parts.len() == 1 {
        parts[0]
    } else {
        parts[0] + seq![' '] + joined(parts.drop_first())
    }
}

/// Splitting loses nothing and cuts at every space: a text has at least
/// one field, no field holds a space, and the fields joined by single
/// spaces are the text again.
pub proof fn lemma_fields_split_at_spaces(s: Seq<char>)
    ensures
        fields(s).len() >= 1,
        forall|i: int, j: int|
            0 <= i < fields(s).len() && 0 <= j < fields(s)[i].len() ==> fields(s)[i][j] != ' ',
        joined(fields(s)) == s,
    decreases s.len(),
{
    lemma_head_len_bounds(s);
    let k = head_len(s) as int;
    let f = fields(s);
    if k < s.len() {
        let head = s.subrange(0, k);
        let tail = s.subrange(k + 1, s.len() as int);
        lemma_fields_split_at_spaces(tail);
        assert(f.drop_first() =~= fields(tail));
        assert forall|i: int, j: int| 0 <= i < f.len() && 0 <= j < f[i].len() implies f[i][j]
            != ' ' by {
            if i == 0 {
                assert(head[j] == s[j]);
            } else {
                assert(f[i] == fields(tail)[i - 1]);
            }
        }
        assert(head + seq![' '] + tail =~= s);
    } else {
        assert(f =~= seq![s]);
    }
}

/// The space as a byte.
const SPACE: u8 = 0x20;

/// Whether the character of `text` at `i` is a space. Where `text` is
/// known to be plain ASCII, the character is read as a byte.
fn space_at(text: &str, ascii: bool, i: usize) -> (found: bool)
    requires
        i < text@.len(),
        ascii ==> is_ascii(text),
    ensures
        found == (text@[i as int] == ' '),
{
    if ascii {
        text.get_ascii(i) == SPACE
    } else {
        text.get_char(i) == ' '
    }
}

/// The fields of one line, handed out one by one from the left. A field
/// that was handed out is gone from the stream.
pub struct TokenStream<'a> {
    rest: &'a str,
    done: bool,
    ascii: bool,
}

impl<'a> View for TokenStream<'a> {
    type V = Seq<Seq<char>>;

    /// The fields that are still to come.
    closed spec fn view(&self) -> Seq<Seq<char>> {
        if self.done {
            Seq::empty()
        } else {
            fields(self.rest@)
        }
    }
}

impl<'a> TokenStream<'a> {
    /// A stream that is marked as plain ASCII holds nothing else, so that
    /// its characters can be read as bytes.
    #[verifier::type_invariant]
    spec fn marked_rightly(self) -> bool {
        self.ascii ==> is_ascii(self.rest)
    }

    /// The stream of all fields of `line`.
    pub fn new(line: &'a str) -> (stream: Self)
        ensures
            stream@ == fields(line@),
    {
        TokenStream { rest: line, done: false, ascii: line.is_ascii() }
    }

    /// Hands out the next field, if one is left.
    pub fn next(&mut self) -> (token: Option<&'a str>)
        ensures
            old(self)@.len() == 0 ==> token is None && final(self)@ == old(self)@,
            old(self)@.len() > 0 ==> token is Some && token.unwrap()@ == old(self)@[0]
                && final(self)@ == old(self)@.drop_first(),
    {
        if self.done {
            return None;
        }
        proof {
            use_type_invariant(&*self);
        }
        let text = self.rest;
        let ascii = self.ascii;
        let n = if ascii {
            proof {
                is_ascii_spec_bytes(text);
            }
            text.as_bytes().len()
        } else {
            text.unicode_len()
        };
        let mut i: usize = 0;
        while i < n && !space_at(text, ascii, i)
            invariant
                i <= n,
                n == text@.len(),
                ascii ==> is_ascii(text),
                forall|j: int| 0 <= j < i ==> text@[j] != ' ',
            decreases n - i,
        {
            i += 1;
        }
        proof {
            lemma_head_len_is(text@, i as int);
        }
        let token = if ascii {
            text.substring_ascii(0, i)
        } else {
            text.substring_char(0, i)
        };
        if i < n {
            self.rest = if ascii {
                text.substring_ascii(i + 1, n)
            } else {
                text.substring_char(i + 1, n)
            };
            assert(old(self)@.drop_first() =~= fields(text@.subrange(i + 1, n as int)));
        } else {
            self.done = true;
            assert(text@.subrange(0, n as int) =~= text@);
            assert(old(self)@.drop_first() =~= Seq::<Seq<char>>::empty());
        }
        Some(token)
    }
}

} // verus!
