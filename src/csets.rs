use std::collections::HashSet;
use vstd::prelude::*;

verus! {

/// An unordered set of characters, given by its membership test.
pub trait CharacterSet {
    /// Whether `ch` belongs to the set.
    spec fn has(&self, ch: char) -> bool;

    /// Returns `true` if the set contains `ch`.
    fn contains(&self, ch: char) -> (r: bool)
        ensures
            r == self.has(ch),
    ;
}

/// The set operations, available on every [`CharacterSet`].
pub trait Combine: CharacterSet + Sized {
    /// The characters that are in `self` or in `other`.
    fn union<Other: CharacterSet>(self, other: Other) -> (r: CharacterSetUnion<Self, Other>)
        ensures
            r == CharacterSetUnion::of(self, other),
            forall|c: char| #[trigger] r.has(c) == (self.has(c) || other.has(c)),
    ;

    /// The characters that are in both `self` and `other`.
    fn intersection<Other: CharacterSet>(self, other: Other) -> (r: CharacterSetIntersection<
        Self,
        Other,
    >)
        ensures
            r == CharacterSetIntersection::of(self, other),
            forall|c: char| #[trigger] r.has(c) == (self.has(c) && other.has(c)),
    ;

    /// The characters that are in `self` but not in `other`.
    fn difference<Other: CharacterSet>(self, other: Other) -> (r: CharacterSetDifference<
        Self,
        Other,
    >)
        ensures
            r == CharacterSetDifference::of(self, other),
            forall|c: char| #[trigger] r.has(c) == (self.has(c) && !other.has(c)),
    ;

    /// The characters that are not in `self`.
    fn complement(self) -> (r: CharacterSetComplement<Self>)
        ensures
            r == CharacterSetComplement::of(self),
            forall|c: char| #[trigger] r.has(c) == !self.has(c),
    ;
}

impl<T: CharacterSet> Combine for T {
    fn union<Other: CharacterSet>(self, other: Other) -> (r: CharacterSetUnion<Self, Other>) {
        CharacterSetUnion { first: self, second: other }
    }

    fn intersection<Other: CharacterSet>(self, other: Other) -> (r: CharacterSetIntersection<
        Self,
        Other,
    >) {
        CharacterSetIntersection { first: self, second: other }
    }

    fn difference<Other: CharacterSet>(self, other: Other) -> (r: CharacterSetDifference<
        Self,
        Other,
    >) {
        CharacterSetDifference { first: self, second: other }
    }

    fn complement(self) -> (r: CharacterSetComplement<Self>) {
        CharacterSetComplement { inner: self }
    }
}

/// Contains all Unicode characters.
#[derive(Debug, Clone, Copy)]
pub struct AnyCharacter;

impl CharacterSet for AnyCharacter {
    open spec fn has(&self, ch: char) -> bool {
        true
    }

    fn contains(&self, ch: char) -> (r: bool) {
        true
    }
}

/// Whether `ch` lies in the inclusive range `lo..=hi` of code points.
pub open spec fn in_range(ch: char, lo: char, hi: char) -> bool {
    lo as u32 <= ch as u32 && ch as u32 <= hi as u32
}

/// Contains all ASCII characters, U+0000 to U+007F.
#[derive(Debug, Clone, Copy)]
pub struct Ascii;

impl CharacterSet for Ascii {
    open spec fn has(&self, ch: char) -> bool {
        (ch as u32) < 0x80
    }

    fn contains(&self, ch: char) -> (r: bool) {
        (ch as u32) < 0x80
    }
}

/// Contains the ASCII digits, `0` to `9`.
#[derive(Debug, Clone, Copy)]
pub struct AsciiDigits;

impl CharacterSet for AsciiDigits {
    open spec fn has(&self, ch: char) -> bool {
        in_range(ch, '0', '9')
    }

    fn contains(&self, ch: char) -> (r: bool) {
        let c = ch as u32;
        '0' as u32 <= c && c <= '9' as u32
    }
}

/// Contains the lowercase ASCII letters, `a` to `z`.
#[derive(Debug, Clone, Copy)]
pub struct AsciiLowercase;

impl CharacterSet for AsciiLowercase {
    open spec fn has(&self, ch: char) -> bool {
        in_range(ch, 'a', 'z')
    }

    fn contains(&self, ch: char) -> (r: bool) {
        let c = ch as u32;
        'a' as u32 <= c && c <= 'z' as u32
    }
}

/// Contains the uppercase ASCII letters, `A` to `Z`.
#[derive(Debug, Clone, Copy)]
pub struct AsciiUppercase;

impl CharacterSet for AsciiUppercase {
    open spec fn has(&self, ch: char) -> bool {
        in_range(ch, 'A', 'Z')
    }

    fn contains(&self, ch: char) -> (r: bool) {
        let c = ch as u32;
        'A' as u32 <= c && c <= 'Z' as u32
    }
}

/// Contains all ASCII letters, `a` to `z` and `A` to `Z`.
#[derive(Debug, Clone, Copy)]
pub struct AsciiLetters;

impl CharacterSet for AsciiLetters {
    open spec fn has(&self, ch: char) -> bool {
        in_range(ch, 'a', 'z') || in_range(ch, 'A', 'Z')
    }

    fn contains(&self, ch: char) -> (r: bool) {
        let c = ch as u32;
        ('a' as u32 <= c && c <= 'z' as u32) || ('A' as u32 <= c && c <= 'Z' as u32)
    }
}

/// A single character is the set holding just that character.
impl CharacterSet for char {
    open spec fn has(&self, ch: char) -> bool {
        *self == ch
    }

    fn contains(&self, ch: char) -> (r: bool) {
        *self == ch
    }
}

/// A slice of characters is the set of the characters it lists.
impl<'a> CharacterSet for &'a [char] {
    open spec fn has(&self, ch: char) -> bool {
        self@.contains(ch)
    }

    fn contains(&self, ch: char) -> (r: bool) {
        let mut i: usize = 0;
        while i < self.len()
            invariant
                i <= self@.len(),
                forall|j: int| 0 <= j < i ==> self@[j] != ch,
            decreases self@.len() - i,
        {
            if self[i] == ch {
                return true;
            }
            i = i + 1;
        }
        false
    }
}

/// A string is the set of the characters it holds.
impl<'a> CharacterSet for &'a str {
    open spec fn has(&self, ch: char) -> bool {
        self@.contains(ch)
    }

    fn contains(&self, ch: char) -> (r: bool) {
        broadcast use vstd::string::axiom_spec_iter;

        let mut found = false;
        for c in it: self.chars()
            invariant
                it.seq() == self@,
                found == exists|j: int| 0 <= j < it.index() && it.seq()[j] == ch,
        {
            assert(c == it.seq()[it.index() as int]);
            if c == ch {
                found = true;
            }
        }
        found
    }
}

/// Relies on `HashSet::contains`: `true` exactly when the set holds `ch`.
#[verifier::external_body]
fn hash_set_has(set: &HashSet<char>, ch: char) -> (r: bool)
    ensures
        r == set@.contains(ch),
{
    set.contains(&ch)
}

/// A hash set of characters is the set of its elements.
impl CharacterSet for HashSet<char> {
    open spec fn has(&self, ch: char) -> bool {
        self@.contains(ch)
    }

    fn contains(&self, ch: char) -> (r: bool) {
        hash_set_has(self, ch)
    }
}

/// A union of two character sets, made by [`Combine::union`].
#[derive(Debug, Clone, Copy, PartialEq, Eq, Hash)]
pub struct CharacterSetUnion<A: CharacterSet, B: CharacterSet> {
    first: A,
    second: B,
}

impl<A: CharacterSet, B: CharacterSet> CharacterSetUnion<A, B> {
    /// The union of `first` and `second`.
    pub closed spec fn of(first: A, second: B) -> Self {
        CharacterSetUnion { first, second }
    }
}

impl<A: CharacterSet, B: CharacterSet> CharacterSet for CharacterSetUnion<A, B> {
    closed spec fn has(&self, ch: char) -> bool {
        self.first.has(ch) || self.second.has(ch)
    }

    fn contains(&self, ch: char) -> (r: bool) {
        self.first.contains(ch) || self.second.contains(ch)
    }
}

/// An intersection of two character sets, made by [`Combine::intersection`].
#[derive(Debug, Clone, Copy, PartialEq, Eq, Hash)]
pub struct CharacterSetIntersection<A: CharacterSet, B: CharacterSet> {
    first: A,
    second: B,
}

impl<A: CharacterSet, B: CharacterSet> CharacterSetIntersection<A, B> {
    /// The intersection of `first` and `second`.
    pub closed spec fn of(first: A, second: B) -> Self {
        CharacterSetIntersection { first, second }
    }
}

impl<A: CharacterSet, B: CharacterSet> CharacterSet for CharacterSetIntersection<A, B> {
    closed spec fn has(&self, ch: char) -> bool {
        self.first.has(ch) && self.second.has(ch)
    }

    fn contains(&self, ch: char) -> (r: bool) {
        self.first.contains(ch) && self.second.contains(ch)
    }
}

/// The difference of two character sets, made by [`Combine::difference`].
#[derive(Debug, Clone, Copy, PartialEq, Eq, Hash)]
pub struct CharacterSetDifference<A: CharacterSet, B: CharacterSet> {
    first: A,
    second: B,
}

impl<A: CharacterSet, B: CharacterSet> CharacterSetDifference<A, B> {
    /// The characters of `first` that are not in `second`.
    pub closed spec fn of(first: A, second: B) -> Self {
        CharacterSetDifference { first, second }
    }
}

impl<A: CharacterSet, B: CharacterSet> CharacterSet for CharacterSetDifference<A, B> {
    closed spec fn has(&self, ch: char) -> bool {
        self.first.has(ch) && !self.second.has(ch)
    }

    fn contains(&self, ch: char) -> (r: bool) {
        self.first.contains(ch) && !self.second.contains(ch)
    }
}

/// The complement of a character set, made by [`Combine::complement`].
#[derive(Debug, Clone, Copy, PartialEq, Eq, Hash)]
pub struct CharacterSetComplement<Inner: CharacterSet> {
    inner: Inner,
}

impl<Inner: CharacterSet> CharacterSetComplement<Inner> {
    /// The characters that are not in `inner`.
    pub closed spec fn of(inner: Inner) -> Self {
        CharacterSetComplement { inner }
    }
}

impl<Inner: CharacterSet> CharacterSet for CharacterSetComplement<Inner> {
    closed spec fn has(&self, ch: char) -> bool {
        !self.inner.has(ch)
    }

    fn contains(&self, ch: char) -> (r: bool) {
        !self.inner.contains(ch)
    }
}

/// A union holds a character exactly when one of its operands does.
pub proof fn lemma_union_contains<A: CharacterSet, B: CharacterSet>(a: A, b: B, c: char)
    ensures
        CharacterSetUnion::of(a, b).has(c) == (a.has(c) || b.has(c)),
{
}

/// An intersection holds a character exactly when both operands do.
pub proof fn lemma_intersection_contains<A: CharacterSet, B: CharacterSet>(a: A, b: B, c: char)
    ensures
        CharacterSetIntersection::of(a, b).has(c) == (a.has(c) && b.has(c)),
{
}

/// A difference holds a character exactly when the first operand does and
/// the second does not.
pub proof fn lemma_difference_contains<A: CharacterSet, B: CharacterSet>(a: A, b: B, c: char)
    ensures
        CharacterSetDifference::of(a, b).has(c) == (a.has(c) && !b.has(c)),
{
}

/// Taking the complement twice gives back the membership of the original set.
pub proof fn lemma_complement_involutive<A: CharacterSet>(a: A, c: char)
    ensures
        CharacterSetComplement::of(CharacterSetComplement::of(a)).has(c) == a.has(c),
{
}

/// Union and intersection are commutative.
pub proof fn lemma_commutative<A: CharacterSet, B: CharacterSet>(a: A, b: B, c: char)
    ensures
        CharacterSetUnion::of(a, b).has(c) == CharacterSetUnion::of(b, a).has(c),
        CharacterSetIntersection::of(a, b).has(c) == CharacterSetIntersection::of(b, a).has(c),
{
}

/// Union and intersection are associative.
pub proof fn lemma_associative<A: CharacterSet, B: CharacterSet, C: CharacterSet>(
    a: A,
    b: B,
    d: C,
    c: char,
)
    ensures
        CharacterSetUnion::of(CharacterSetUnion::of(a, b), d).has(c) == CharacterSetUnion::of(
            a,
            CharacterSetUnion::of(b, d),
        ).has(c),
        CharacterSetIntersection::of(CharacterSetIntersection::of(a, b), d).has(c)
            == CharacterSetIntersection::of(a, CharacterSetIntersection::of(b, d)).has(c),
{
}

/// The difference of `a` and `b` is the intersection of `a` with the
/// complement of `b`.
pub proof fn lemma_difference_is_intersection_with_complement<A: CharacterSet, B: CharacterSet>(
    a: A,
    b: B,
    c: char,
)
    ensures
        CharacterSetDifference::of(a, b).has(c) == CharacterSetIntersection::of(
            a,
            CharacterSetComplement::of(b),
        ).has(c),
{
}

/// De Morgan's laws: the complement of a union is the intersection of the
/// complements, and the complement of an intersection is the union of the
/// complements.
pub proof fn lemma_de_morgan<A: CharacterSet, B: CharacterSet>(a: A, b: B, c: char)
    ensures
        CharacterSetComplement::of(CharacterSetUnion::of(a, b)).has(c)
            == CharacterSetIntersection::of(
            CharacterSetComplement::of(a),
            CharacterSetComplement::of(b),
        ).has(c),
        CharacterSetComplement::of(CharacterSetIntersection::of(a, b)).has(c)
            == CharacterSetUnion::of(CharacterSetComplement::of(a), CharacterSetComplement::of(b)).has(
            c,
        ),
{
}

} // verus!
