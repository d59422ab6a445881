//! The small part of XML that a statement document needs: elements without
//! attributes, and character data with its three escapes.

use crate::text::{chars_of, push_text};
use vstd::prelude::*;

verus! {

/// What stands for one character inside character data.
pub open spec fn escaped_char(c: char) -> Seq<char> {
    if c == '<' {
        seq!['&', 'l', 't', ';']
    } else if c == '>' {
        seq!['&', 'g', 't', ';']
    } else if c == '&' {
        seq!['&', 'a', 'm', 'p', ';']
    } else {
        seq![c]
    }
}

/// `text` as character data: `<`, `>` and `&` are replaced by their
/// entities, every other character stands as it is.
pub open spec fn escaped(text: Seq<char>) -> Seq<char>
    decreases text.len(),
{
    if text.len() == 0 {
        Seq::empty()
    } else {
        escaped(text.drop_last()) + escaped_char(text.last())
    }
}

/// The start tag of the element `name`.
pub open spec fn start_tag(name: Seq<char>) -> Seq<char> {
    seq!['<'] + name + seq!['>']
}

/// The end tag of the element `name`.
pub open spec fn end_tag(name: Seq<char>) -> Seq<char> {
    seq!['<', '/'] + name + seq!['>']
}

/// The element `name` around `content`.
pub open spec fn element(name: Seq<char>, content: Seq<char>) -> Seq<char> {
    start_tag(name) + content + end_tag(name)
}

/// The element `name` around `text` as character data.
pub open spec fn text_element(name: Seq<char>, text: Seq<char>) -> Seq<char> {
    element(name, escaped(text))
}

/// The element `name` with nothing in it, closed in its own tag.
pub open spec fn empty_element(name: Seq<char>) -> Seq<char> {
    seq!['<'] + name + seq![' ', '/', '>']
}

/// Appends `text` to `out` as character data.
pub fn push_escaped(out: &mut String, text: &str)
    ensures
        final(out)@ == old(out)@ + escaped(text@),
{
    for c in it: text.chars()
        invariant
            it.seq() == text@,
            out@ == old(out)@ + escaped(text@.take(it.index() as int)),
    {
        let ghost before = out@;
        if c == '<' {
            push_text(out, "&lt;");
        } else if c == '>' {
            push_text(out, "&gt;");
        } else if c == '&' {
            push_text(out, "&amp;");
        } else {
            out.push(c);
        }
        proof {
            reveal_strlit("&lt;");
            reveal_strlit("&gt;");
            reveal_strlit("&amp;");
            assert("&lt;"@ =~= seq!['&', 'l', 't', ';']);
            assert("&gt;"@ =~= seq!['&', 'g', 't', ';']);
            assert("&amp;"@ =~= seq!['&', 'a', 'm', 'p', ';']);
            assert(text@.take(it.index() + 1).drop_last() =~= text@.take(it.index() as int));
            assert(out@ =~= before + escaped_char(c));
            assert(out@ =~= old(out)@ + escaped(text@.take(it.index() + 1)));
        }
    }
    assert(text@.take(text@.len() as int) =~= text@);
}

/// What follows `word` at the start of `text`, if `text` starts with it.
pub open spec fn after_word(text: Seq<char>, word: Seq<char>) -> Option<Seq<char>> {
    if word.is_prefix_of(text) {
        Some(text.skip(word.len() as int))
    } else {
        None
    }
}

/// `first` in front of the text that was read, where any was read.
pub open spec fn with_first(first: Seq<char>, read: Option<(Seq<char>, Seq<char>)>) -> Option<
    (Seq<char>, Seq<char>),
> {
    match read {
        Some((text, rest)) => Some((first + text, rest)),
        None => None,
    }
}

/// The character data at the start of `text`, and what follows it.
///
/// Character data ends before the first `<`, and there must be one. In it
/// `&lt;`, `&gt;` and `&amp;` stand for `<`, `>` and `&`; any other `&` is
/// a fault, and so is a `>` that stands for itself.
pub open spec fn read_data(text: Seq<char>) -> Option<(Seq<char>, Seq<char>)>
    decreases text.len(),
{
    if text.len() == 0 {
        None
    } else if text[0] == '<' {
        Some((Seq::empty(), text))
    } else if text[0] == '>' {
        None
    } else if text[0] == '&' {
        if text.len() >= 4 && text[1] == 'l' && text[2] == 't' && text[3] == ';' {
            with_first(seq!['<'], read_data(text.skip(4)))
        } else if text.len() >= 4 && text[1] == 'g' && text[2] == 't' && text[3] == ';' {
            with_first(seq!['>'], read_data(text.skip(4)))
        } else if text.len() >= 5 && text[1] == 'a' && text[2] == 'm' && text[3] == 'p' && text[4]
            == ';' {
            with_first(seq!['&'], read_data(text.skip(5)))
        } else {
            None
        }
    } else {
        with_first(seq![text[0]], read_data(text.skip(1)))
    }
}

/// The text of the element `name` at the start of `text`, and what follows
/// the element.
pub open spec fn read_text_element(text: Seq<char>, name: Seq<char>) -> Option<
    (Seq<char>, Seq<char>),
> {
    match after_word(text, start_tag(name)) {
        Some(inside) => match read_data(inside) {
            Some((data, closing)) => match after_word(closing, end_tag(name)) {
                Some(rest) => Some((data, rest)),
                None => None,
            },
            None => None,
        },
        None => None,
    }
}

/// What follows character data is no longer than the text it was read
/// from.
pub proof fn lemma_read_data_rest(text: Seq<char>)
    ensures
        read_data(text) matches Some(read) ==> read.1.len() <= text.len(),
    decreases text.len(),
{
    if text.len() > 0 && text[0] != '<' && text[0] != '>' {
        if text[0] == '&' {
            if text.len() >= 4 {
                lemma_read_data_rest(text.skip(4));
            }
            if text.len() >= 5 {
                lemma_read_data_rest(text.skip(5));
            }
        } else {
            lemma_read_data_rest(text.skip(1));
        }
    }
}

/// What follows an element is shorter than the text it was read from.
pub proof fn lemma_read_text_element_rest(text: Seq<char>, name: Seq<char>)
    ensures
        read_text_element(text, name) matches Some(read) ==> read.1.len() < text.len(),
{
    if let Some(inside) = after_word(text, start_tag(name)) {
        lemma_read_data_rest(inside);
    }
}

/// A word is found in front of whatever follows it.
pub proof fn lemma_after_word(word: Seq<char>, rest: Seq<char>)
    ensures
        after_word(word + rest, word) == Some(rest),
{
    assert((word + rest).subrange(0, word.len() as int) =~= word);
    assert((word + rest).skip(word.len() as int) =~= rest);
}

/// Escaping a text is escaping its first character, then the others.
pub proof fn lemma_escaped_first(c: char, text: Seq<char>)
    ensures
        escaped(seq![c] + text) == escaped_char(c) + escaped(text),
    decreases text.len(),
{
    if text.len() == 0 {
        reveal_with_fuel(escaped, 2);
        assert(seq![c] + text =~= seq![c]);
        assert(seq![c].drop_last() =~= Seq::<char>::empty());
        assert(escaped(seq![c]) =~= escaped_char(c));
        assert(escaped_char(c) + escaped(text) =~= escaped_char(c));
    } else {
        let whole = seq![c] + text;
        assert(whole.drop_last() =~= seq![c] + text.drop_last());
        assert(whole.last() == text.last());
        lemma_escaped_first(c, text.drop_last());
        assert(escaped(whole) =~= escaped_char(c) + escaped(text));
    }
}

/// Character data that was written by escaping a text is read as that
/// text, up to the tag that follows.
pub proof fn lemma_read_escaped(text: Seq<char>, rest: Seq<char>)
    requires
        rest.len() > 0,
        rest[0] == '<',
    ensures
        read_data(escaped(text) + rest) == Some((text, rest)),
    decreases text.len(),
{
    if text.len() == 0 {
        assert(escaped(text) + rest =~= rest);
    } else {
        let c = text[0];
        let others = text.skip(1);
        assert(text =~= seq![c] + others);
        lemma_escaped_first(c, others);
        lemma_read_escaped(others, rest);
        let tail = escaped(others) + rest;
        let whole = escaped(text) + rest;
        assert(whole =~= escaped_char(c) + tail);
        if c == '<' || c == '>' {
            assert(whole.skip(4) =~= tail);
        } else if c == '&' {
            assert(whole.skip(5) =~= tail);
        } else {
            assert(whole[0] == c);
            assert(whole.skip(1) =~= tail);
        }
        assert(seq![c] + others =~= text);
    }
}

/// An element that was written around a text is read as that text.
pub proof fn lemma_read_text_element(name: Seq<char>, text: Seq<char>, rest: Seq<char>)
    ensures
        read_text_element(text_element(name, text) + rest, name) == Some((text, rest)),
{
    let closing = end_tag(name) + rest;
    let inside = escaped(text) + closing;
    assert(text_element(name, text) + rest =~= start_tag(name) + inside);
    lemma_after_word(start_tag(name), inside);
    assert(closing[0] == '<');
    lemma_read_escaped(text, closing);
    lemma_after_word(end_tag(name), rest);
}

/// Two characters in front of what was read are the first in front of the
/// second in front of it.
proof fn lemma_with_first_twice(
    a: Seq<char>,
    b: Seq<char>,
    read: Option<(Seq<char>, Seq<char>)>,
)
    ensures
        with_first(a, with_first(b, read)) == with_first(a + b, read),
{
    if let Some((text, rest)) = read {
        assert(a + (b + text) =~= (a + b) + text);
    }
}

/// The start tag of `name`, character by character.
pub fn start_tag_of(name: &str) -> (word: Vec<char>)
    ensures
        word@ == start_tag(name@),
{
    let mut word: Vec<char> = Vec::new();
    word.push('<');
    let mut letters = chars_of(name);
    word.append(&mut letters);
    word.push('>');
    assert(word@ =~= start_tag(name@));
    word
}

/// A text that is read from its start to its end, piece by piece.
pub struct Reader {
    chars: Vec<char>,
    at: usize,
}

impl Reader {
    #[verifier::type_invariant]
    spec fn well_formed(self) -> bool {
        self.at <= self.chars@.len()
    }

    /// What has not been read yet.
    pub closed spec fn rest(self) -> Seq<char> {
        self.chars@.skip(self.at as int)
    }

    /// A reader at the start of `text`.
    pub fn new(text: &str) -> (reader: Reader)
        ensures
            reader.rest() == text@,
    {
        let chars = chars_of(text);
        assert(chars@.skip(0) =~= chars@);
        Reader { chars, at: 0 }
    }

    /// Whether everything has been read.
    pub fn at_end(&self) -> (done: bool)
        ensures
            done == (self.rest().len() == 0),
    {
        proof {
            use_type_invariant(self);
        }
        self.at == self.chars.len()
    }

    /// Whether what has not been read yet starts with `word`.
    pub fn starts_with(&self, word: &Vec<char>) -> (yes: bool)
        ensures
            yes == word@.is_prefix_of(self.rest()),
    {
        proof {
            use_type_invariant(self);
        }
        let count: usize = word.len();
        if count > self.chars.len() - self.at {
            return false;
        }
        let mut i: usize = 0;
        while i < count
            invariant
                i <= count,
                count == word@.len(),
                self.at + count <= self.chars@.len(),
                self.chars@.len() <= usize::MAX,
                forall|j: int| 0 <= j < i ==> self.rest()[j] == word@[j],
            decreases count - i,
        {
            if self.chars[self.at + i] != word[i] {
                assert(self.rest()[i as int] != word@[i as int]);
                return false;
            }
            i = i + 1;
        }
        assert(self.rest().subrange(0, count as int) =~= word@);
        true
    }

    /// Reads `word`, if that is what comes next; reads nothing otherwise.
    pub fn skip_chars(&mut self, word: &Vec<char>) -> (found: bool)
        ensures
            found == (after_word(old(self).rest(), word@) is Some),
            found ==> after_word(old(self).rest(), word@) == Some(final(self).rest()),
            !found ==> final(self).rest() == old(self).rest(),
    {
        proof {
            use_type_invariant(&*self);
        }
        let count: usize = self.chars.len();
        if self.starts_with(word) {
            assert(word@.len() <= self.rest().len());
            self.at = self.at + word.len();
            assert(self.rest() =~= old(self).rest().skip(word@.len() as int));
            true
        } else {
            false
        }
    }

    /// Reads `word`, if that is what comes next; reads nothing otherwise.
    pub fn skip_word(&mut self, word: &str) -> (found: bool)
        ensures
            found == (after_word(old(self).rest(), word@) is Some),
            found ==> after_word(old(self).rest(), word@) == Some(final(self).rest()),
            !found ==> final(self).rest() == old(self).rest(),
    {
        let chars = chars_of(word);
        self.skip_chars(&chars)
    }

    /// Reads the start tag of `name`, if that is what comes next.
    pub fn skip_start_tag(&mut self, name: &str) -> (found: bool)
        ensures
            found == (after_word(old(self).rest(), start_tag(name@)) is Some),
            found ==> after_word(old(self).rest(), start_tag(name@)) == Some(final(self).rest()),
            !found ==> final(self).rest() == old(self).rest(),
    {
        let word = start_tag_of(name);
        self.skip_chars(&word)
    }

    /// Reads the end tag of `name`, if that is what comes next.
    pub fn skip_end_tag(&mut self, name: &str) -> (found: bool)
        ensures
            found == (after_word(old(self).rest(), end_tag(name@)) is Some),
            found ==> after_word(old(self).rest(), end_tag(name@)) == Some(final(self).rest()),
            !found ==> final(self).rest() == old(self).rest(),
    {
        let mut word: Vec<char> = Vec::new();
        word.push('<');
        word.push('/');
        let mut letters = chars_of(name);
        word.append(&mut letters);
        word.push('>');
        assert(word@ =~= end_tag(name@));
        self.skip_chars(&word)
    }

    /// Reads the empty element `name`, if that is what comes next.
    pub fn skip_empty_element(&mut self, name: &str) -> (found: bool)
        ensures
            found == (after_word(old(self).rest(), empty_element(name@)) is Some),
            found ==> after_word(old(self).rest(), empty_element(name@)) == Some(
                final(self).rest(),
            ),
            !found ==> final(self).rest() == old(self).rest(),
    {
        let mut word: Vec<char> = Vec::new();
        word.push('<');
        let mut letters = chars_of(name);
        word.append(&mut letters);
        word.push(' ');
        word.push('/');
        word.push('>');
        assert(word@ =~= empty_element(name@));
        self.skip_chars(&word)
    }

    /// Reads the element `name` and gives its text.
    pub fn text_element(&mut self, name: &str) -> (text: Option<String>)
        ensures
            text is Some <==> read_text_element(old(self).rest(), name@) is Some,
            text matches Some(t) ==> read_text_element(old(self).rest(), name@) == Some(
                (t@, final(self).rest()),
            ),
    {
        if !self.skip_start_tag(name) {
            return None;
        }
        let text = match self.data() {
            Some(text) => text,
            None => { return None; },
        };
        if !self.skip_end_tag(name) {
            return None;
        }
        Some(text)
    }

    /// Reads character data up to the tag that follows it.
    pub fn data(&mut self) -> (text: Option<String>)
        ensures
            text is Some <==> read_data(old(self).rest()) is Some,
            text matches Some(t) ==> read_data(old(self).rest()) == Some((t@, final(self).rest())),
    {
        proof {
            use_type_invariant(&*self);
        }
        let mut out = String::new();
        let ghost start = self.rest();
        let count: usize = self.chars.len();
        assert(Seq::<char>::empty() + Seq::<char>::empty() =~= Seq::<char>::empty());
        loop
            invariant
                self.at <= count,
                count == self.chars@.len(),
                self.chars == old(self).chars,
                start == old(self).rest(),
                read_data(start) == with_first(out@, read_data(self.rest())),
            decreases count - self.at,
        {
            let ghost rest = self.rest();
            let ghost before = out@;
            if self.at == count {
                return None;
            }
            let c: char = self.chars[self.at];
            assert(rest[0] == c);
            if c == '<' {
                assert(before + Seq::<char>::empty() =~= before);
                return Some(out);
            } else if c == '>' {
                return None;
            } else if c == '&' {
                let left: usize = count - self.at;
                if left >= 4 && self.chars[self.at + 1] == 'l' && self.chars[self.at + 2] == 't'
                    && self.chars[self.at + 3] == ';' {
                    out.push('<');
                    self.at = self.at + 4;
                } else if left >= 4 && self.chars[self.at + 1] == 'g' && self.chars[self.at + 2]
                    == 't' && self.chars[self.at + 3] == ';' {
                    out.push('>');
                    self.at = self.at + 4;
                } else if left >= 5 && self.chars[self.at + 1] == 'a' && self.chars[self.at + 2]
                    == 'm' && self.chars[self.at + 3] == 'p' && self.chars[self.at + 4] == ';' {
                    out.push('&');
                    self.at = self.at + 5;
                } else {
                    assert(rest.len() == left);
                    assert(rest.len() >= 4 ==> rest[1] == self.chars@[self.at + 1] && rest[2]
                        == self.chars@[self.at + 2] && rest[3] == self.chars@[self.at + 3]);
                    assert(rest.len() >= 5 ==> rest[4] == self.chars@[self.at + 4]);
                    return None;
                }
                proof {
                    let read = out@.last();
                    let width = self.at - old(self).at;
                    assert(self.rest() =~= rest.skip(rest.len() - self.rest().len()));
                    assert(read_data(rest) == with_first(seq![read], read_data(self.rest())));
                    lemma_with_first_twice(before, seq![read], read_data(self.rest()));
                    assert(before + seq![read] =~= out@);
                }
            } else {
                out.push(c);
                self.at = self.at + 1;
                proof {
                    assert(self.rest() =~= rest.skip(1));
                    lemma_with_first_twice(before, seq![c], read_data(self.rest()));
                    assert(before + seq![c] =~= out@);
                }
            }
        }
    }
}

} // verus!
