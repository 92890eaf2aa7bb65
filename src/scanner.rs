use crate::csets::CharacterSet;
use vstd::prelude::*;

verus! {

/// The characters crossed when moving from `from` to `to`: the forward
/// substring `[from, to)` when moving forward, and the substring
/// `[to, from)` reversed when moving backward.
pub open spec fn production(text: Seq<char>, from: int, to: int) -> Seq<char> {
    if from <= to {
        text.subrange(from, to)
    } else {
        text.subrange(to, from).reverse()
    }
}

/// Whether `needle` occurs in `text` starting at index `i`.
pub open spec fn occurs_at(text: Seq<char>, needle: Seq<char>, i: int) -> bool {
    &&& 0 <= i
    &&& i + needle.len() <= text.len()
    &&& text.subrange(i, i + needle.len()) == needle
}

/// Relies on `String::push`: appends `ch` at the end of the string.
#[verifier::external_body]
fn push_char(s: &mut String, ch: char)
    ensures
        final(s)@ == old(s)@.push(ch),
{
    s.push(ch);
}

/// The characters of `s`, in order.
fn chars_of(s: &str) -> (r: Vec<char>)
    ensures
        r@ == s@,
{
    broadcast use vstd::string::axiom_spec_iter;

    let mut v: Vec<char> = Vec::new();
    for c in it: s.chars()
        invariant
            it.seq() == s@,
            v@ == it.seq().take(it.index() as int),
    {
        assert(c == it.seq()[it.index() as int]);
        assert(it.seq().take(it.index() + 1) =~= v@.push(c));
        v.push(c);
    }
    assert(v@ =~= s@);
    v
}

/// A cursor over a fixed sequence of characters.
///
/// Queries (`any`, `many`, `upto`, `starts_with`, `find_substring`) report a
/// position without moving the cursor; `goto` and `advance` move it.
#[derive(Debug, Clone)]
pub struct Scanner {
    source: Vec<char>,
    position: usize,
}

impl Scanner {
    /// The characters being scanned.
    pub closed spec fn text(&self) -> Seq<char> {
        self.source@
    }

    /// The cursor.
    pub closed spec fn pos(&self) -> nat {
        self.position as nat
    }

    /// The cursor lies within the text, or just past its end.
    pub open spec fn wf(&self) -> bool {
        self.pos() <= self.text().len()
    }

    /// What a move of the cursor from `self` to `target` gives: on a target
    /// within `[0, len]`, the cursor moves there and the crossed characters
    /// are returned; otherwise nothing changes and no value is returned.
    pub open spec fn moved_to(self, target: int, after: Scanner, r: Option<String>) -> bool {
        &&& after.text() == self.text()
        &&& if 0 <= target <= self.text().len() {
            &&& r is Some
            &&& r->0@ == production(self.text(), self.pos() as int, target)
            &&& after.pos() == target
        } else {
            &&& r is None
            &&& after.pos() == self.pos()
        }
    }

    /// A scanner over the characters of `source`, at position 0.
    pub fn new(source: &str) -> (r: Scanner)
        ensures
            r.wf(),
            r.text() == source@,
            r.pos() == 0,
    {
        Scanner { source: chars_of(source), position: 0 }
    }

    /// The full text, as a slice of characters.
    pub fn source(&self) -> (r: &[char])
        ensures
            r@ == self.text(),
    {
        self.source.as_slice()
    }

    /// The number of characters in the text.
    pub fn len(&self) -> (r: usize)
        ensures
            r == self.text().len(),
    {
        self.source.len()
    }

    /// Whether the text is empty.
    pub fn is_empty(&self) -> (r: bool)
        ensures
            r == (self.text().len() == 0),
    {
        self.len() == 0
    }

    /// The character at `index`, if there is one.
    pub fn char_at(&self, index: usize) -> (r: Option<char>)
        ensures
            index < self.text().len() ==> r == Some(self.text()[index as int]),
            index >= self.text().len() ==> r is None,
    {
        if index < self.source.len() {
            Some(self.source[index])
        } else {
            None
        }
    }

    /// The cursor; zero for a new scanner.
    pub fn position(&self) -> (r: usize)
        ensures
            r == self.pos(),
    {
        self.position
    }

    /// Whether the cursor has reached the end of the text.
    pub fn is_at_end(&self) -> (r: bool)
        requires
            self.wf(),
        ensures
            r == (self.pos() == self.text().len()),
    {
        self.position == self.source.len()
    }

    /// The crossed characters between `from` and `to`, reversed when `to`
    /// lies before `from`.
    fn crossed(&self, from: usize, to: usize) -> (r: String)
        requires
            from <= self.text().len(),
            to <= self.text().len(),
        ensures
            r@ == production(self.text(), from as int, to as int),
    {
        let mut out = String::new();
        if from <= to {
            let mut i: usize = from;
            while i < to
                invariant
                    from <= i <= to <= self.text().len(),
                    out@ == self.text().subrange(from as int, i as int),
                decreases to - i,
            {
                proof {
                    assert(self.text().subrange(from as int, i + 1) =~= out@.push(
                        self.text()[i as int],
                    ));
                }
                push_char(&mut out, self.source[i]);
                i = i + 1;
            }
        } else {
            let mut i: usize = from;
            while i > to
                invariant
                    to <= i <= from <= self.text().len(),
                    out@ =~= self.text().subrange(i as int, from as int).reverse(),
                decreases i - to,
            {
                proof {
                    assert(self.text().subrange(i - 1, from as int).reverse() =~= out@.push(
                        self.text()[i - 1],
                    ));
                }
                push_char(&mut out, self.source[i - 1]);
                i = i - 1;
            }
        }
        out
    }

    /// Moves the cursor to `position` and returns the characters crossed:
    /// the substring `[old, position)` when moving forward, the substring
    /// `[position, old)` reversed when moving backward. A position past the
    /// end of the text changes nothing and gives `None`.
    pub fn goto(&mut self, position: usize) -> (r: Option<String>)
        requires
            old(self).wf(),
        ensures
            final(self).wf(),
            old(self).moved_to(position as int, *final(self), r),
    {
        if position > self.source.len() {
            return None;
        }
        let production = self.crossed(self.position, position);
        self.position = position;
        Some(production)
    }

    /// Moves the cursor by `amount`, forward or backward: the same as
    /// `goto(position() + amount)`. A target outside the text changes
    /// nothing and gives `None`.
    pub fn advance(&mut self, amount: isize) -> (r: Option<String>)
        requires
            old(self).wf(),
        ensures
            final(self).wf(),
            old(self).moved_to(old(self).pos() + amount, *final(self), r),
    {
        if amount >= 0 {
            let forward = amount as usize;
            if forward > self.source.len() - self.position {
                return None;
            }
            self.goto(self.position + forward)
        } else {
            let backward = (-(amount + 1)) as usize + 1;
            if backward > self.position {
                return None;
            }
            self.goto(self.position - backward)
        }
    }

    /// Whether the characters of `needle` start at index `start`, comparing
    /// character by character.
    fn matches_at(&self, needle: &Vec<char>, start: usize) -> (r: bool)
        requires
            start <= self.text().len(),
        ensures
            r == occurs_at(self.text(), needle@, start as int),
    {
        let len = self.source.len();
        if needle.len() > len - start {
            return false;
        }
        let mut k: usize = 0;
        while k < needle.len()
            invariant
                len == self.text().len(),
                start + needle@.len() <= len,
                k <= needle@.len(),
                forall|j: int| 0 <= j < k ==> self.text()[start + j] == needle@[j],
            decreases needle@.len() - k,
        {
            if self.source[start + k] != needle[k] {
                assert(self.text().subrange(start as int, start + needle@.len())[k as int]
                    != needle@[k as int]);
                return false;
            }
            k = k + 1;
        }
        assert(self.text().subrange(start as int, start + needle@.len()) =~= needle@);
        true
    }

    /// The first index, at or after the cursor, where `substring` occurs in
    /// the text. The cursor does not move.
    pub fn find_substring(&self, substring: &str) -> (r: Option<usize>)
        requires
            self.wf(),
        ensures
            match r {
                Some(i) => {
                    &&& self.pos() <= i
                    &&& occurs_at(self.text(), substring@, i as int)
                    &&& forall|j: int|
                        self.pos() <= j < i ==> !occurs_at(self.text(), substring@, j)
                },
                None => forall|j: int|
                    self.pos() <= j ==> !occurs_at(self.text(), substring@, j),
            },
    {
        let needle = chars_of(substring);
        let mut i: usize = self.position;
        while i < self.source.len()
            invariant
                self.wf(),
                needle@ == substring@,
                self.pos() <= i <= self.text().len(),
                forall|j: int| self.pos() <= j < i ==> !occurs_at(self.text(), substring@, j),
            decreases self.text().len() - i,
        {
            if self.matches_at(&needle, i) {
                return Some(i);
            }
            i = i + 1;
        }
        if self.matches_at(&needle, i) {
            Some(i)
        } else {
            None
        }
    }

    /// If the text at the cursor begins with `substring`, the position just
    /// past it. The cursor does not move.
    pub fn starts_with(&self, substring: &str) -> (r: Option<usize>)
        requires
            self.wf(),
        ensures
            occurs_at(self.text(), substring@, self.pos() as int) ==> r is Some && r->0
                == self.pos() + substring@.len(),
            !occurs_at(self.text(), substring@, self.pos() as int) ==> r is None,
    {
        let needle = chars_of(substring);
        let len = self.source.len();
        if self.matches_at(&needle, self.position) {
            assert(self.position + needle@.len() <= len);
            Some(self.position + needle.len())
        } else {
            None
        }
    }

    /// If the text at the cursor begins with `substring`, moves the cursor
    /// past it and returns a copy of it; otherwise changes nothing.
    pub fn advance_if_starts_with(&mut self, substring: &str) -> (r: Option<String>)
        requires
            old(self).wf(),
        ensures
            final(self).wf(),
            final(self).text() == old(self).text(),
            occurs_at(old(self).text(), substring@, old(self).pos() as int) ==> {
                &&& r is Some
                &&& r->0@ == substring@
                &&& final(self).pos() == old(self).pos() + substring@.len()
            },
            !occurs_at(old(self).text(), substring@, old(self).pos() as int) ==> {
                &&& r is None
                &&& final(self).pos() == old(self).pos()
            },
    {
        match self.starts_with(substring) {
            Some(end) => {
                let r = self.goto(end);
                assert(production(old(self).text(), old(self).pos() as int, end as int)
                    == substring@);
                r
            },
            None => None,
        }
    }

    /// If the character at the cursor is in `cset`, the position after it.
    /// The cursor does not move.
    pub fn any<C: CharacterSet>(&self, cset: C) -> (r: Option<usize>)
        requires
            self.wf(),
        ensures
            (self.pos() < self.text().len() && cset.has(self.text()[self.pos() as int]))
                ==> r == Some((self.pos() + 1) as usize),
            !(self.pos() < self.text().len() && cset.has(self.text()[self.pos() as int]))
                ==> r is None,
    {
        if self.position < self.source.len() && cset.contains(self.source[self.position]) {
            Some(self.position + 1)
        } else {
            None
        }
    }

    /// If the character at the cursor is in `cset`, the end of the longest
    /// run of characters in `cset` that starts at the cursor. The cursor does
    /// not move.
    pub fn many<C: CharacterSet>(&self, cset: C) -> (r: Option<usize>)
        requires
            self.wf(),
        ensures
            match r {
                Some(q) => {
                    &&& self.pos() < q <= self.text().len()
                    &&& forall|i: int| self.pos() <= i < q ==> cset.has(#[trigger] self.text()[i])
                    &&& q == self.text().len() || !cset.has(self.text()[q as int])
                },
                None => self.pos() == self.text().len() || !cset.has(
                    self.text()[self.pos() as int],
                ),
            },
    {
        if self.position >= self.source.len() || !cset.contains(self.source[self.position]) {
            return None;
        }
        let mut i: usize = self.position + 1;
        while i < self.source.len()
            invariant
                self.wf(),
                self.pos() < i <= self.text().len(),
                forall|j: int| self.pos() <= j < i ==> cset.has(#[trigger] self.text()[j]),
            decreases self.text().len() - i,
        {
            if !cset.contains(self.source[i]) {
                return Some(i);
            }
            i = i + 1;
        }
        Some(i)
    }

    /// The first position, at or after the cursor, whose character is in
    /// `cset`. The cursor does not move.
    pub fn upto<C: CharacterSet>(&self, cset: C) -> (r: Option<usize>)
        requires
            self.wf(),
        ensures
            match r {
                Some(q) => {
                    &&& self.pos() <= q < self.text().len()
                    &&& cset.has(self.text()[q as int])
                    &&& forall|i: int|
                        self.pos() <= i < q ==> !cset.has(#[trigger] self.text()[i])
                },
                None => forall|i: int|
                    self.pos() <= i < self.text().len() ==> !cset.has(#[trigger] self.text()[i]),
            },
    {
        let mut i: usize = self.position;
        while i < self.source.len()
            invariant
                self.wf(),
                self.pos() <= i <= self.text().len(),
                forall|j: int| self.pos() <= j < i ==> !cset.has(#[trigger] self.text()[j]),
            decreases self.text().len() - i,
        {
            if cset.contains(self.source[i]) {
                return Some(i);
            }
            i = i + 1;
        }
        None
    }
}

/// Moving the cursor from `p` to `q` and then back to `p` leaves it at `p`,
/// and the characters returned on the way back are those returned on the
/// way out, in reverse order.
pub proof fn lemma_goto_round_trip(
    start: Scanner,
    q: int,
    there: Scanner,
    out: Option<String>,
    back: Scanner,
    ret: Option<String>,
)
    requires
        start.wf(),
        0 <= q <= start.text().len(),
        start.moved_to(q, there, out),
        there.moved_to(start.pos() as int, back, ret),
    ensures
        back.pos() == start.pos(),
        back.text() == start.text(),
        out is Some && ret is Some,
        ret->0@ == out->0@.reverse(),
{
    let t = start.text();
    let p = start.pos() as int;
    if p < q {
        assert(ret->0@ == t.subrange(p, q).reverse());
    } else if q < p {
        assert(t.subrange(q, p).reverse().reverse() =~= t.subrange(q, p));
    } else {
        assert(out->0@ =~= Seq::<char>::empty());
        assert(ret->0@ =~= out->0@.reverse());
    }
}

/// `advance(d)` moves exactly as `goto(position() + d)` does.
pub proof fn lemma_advance_is_goto(
    start: Scanner,
    d: int,
    advanced: Scanner,
    ra: Option<String>,
    went: Scanner,
    rg: Option<String>,
)
    requires
        start.moved_to(start.pos() + d, advanced, ra),
        start.moved_to(start.pos() + d, went, rg),
    ensures
        advanced.text() == went.text(),
        advanced.pos() == went.pos(),
        ra is Some <==> rg is Some,
        ra is Some ==> ra->0@ == rg->0@,
{
}

/// A scanner over the characters of a string, at position 0.
impl<'a> From<&'a str> for Scanner {
    fn from(value: &'a str) -> (r: Scanner)
        ensures
            r.wf(),
            r.text() == value@,
            r.pos() == 0,
    {
        Scanner::new(value)
    }
}

/// The conversion is described by the `ensures` of `from` itself: no equation
/// between whole scanners is claimed.
impl<'a> vstd::std_specs::convert::FromSpecImpl<&'a str> for Scanner {
    open spec fn obeys_from_spec() -> bool {
        false
    }

    open spec fn from_spec(v: &'a str) -> Scanner {
        choose|s: Scanner| s.text() == v@ && s.pos() == 0
    }
}

/// A scanner over the given characters, at position 0.
impl From<Box<[char]>> for Scanner {
    fn from(value: Box<[char]>) -> (r: Scanner)
        ensures
            r.wf(),
            r.text() == value@,
            r.pos() == 0,
    {
        Scanner { source: value.into_vec(), position: 0 }
    }
}

/// The conversion is described by the `ensures` of `from` itself: no equation
/// between whole scanners is claimed.
impl vstd::std_specs::convert::FromSpecImpl<Box<[char]>> for Scanner {
    open spec fn obeys_from_spec() -> bool {
        false
    }

    open spec fn from_spec(v: Box<[char]>) -> Scanner {
        choose|s: Scanner| s.text() == v@ && s.pos() == 0
    }
}

/// The full text, as a slice of characters.
impl AsRef<[char]> for Scanner {
    fn as_ref(&self) -> (r: &[char])
        ensures
            r@ == self.text(),
    {
        self.source.as_slice()
    }
}

} // verus!
