//! Semantic version numbers and their precedence.

use vstd::prelude::*;
use vstd::utf8::{encode_utf8, encode_utf8_decode_utf8};
use crate::lexical::{
    lemma_lex_irreflexive, lemma_lex_skip, lemma_lex_total, lemma_lex_transitive, lex_precedes,
    strict_total,
};

verus! {

/// One dot-separated part of a pre-release or build suffix.
#[derive(Debug)]
pub enum Identifier {
    /// A part made of digits only, read as a number.
    Numeric(u64),
    /// A part that holds a letter or a hyphen.
    AlphaNumeric(String),
}

/// What an [`Identifier`] stands for.
pub enum IdentifierView {
    Numeric(u64),
    AlphaNumeric(Seq<char>),
}

impl View for Identifier {
    type V = IdentifierView;

    open spec fn view(&self) -> IdentifierView {
        match self {
            Identifier::Numeric(n) => IdentifierView::Numeric(*n),
            Identifier::AlphaNumeric(s) => IdentifierView::AlphaNumeric(s@),
        }
    }
}

/// A version number `MAJOR.MINOR.PATCH`, with an optional pre-release suffix
/// (after `-`) and optional build metadata (after `+`).
#[derive(Debug)]
pub struct SemVer {
    pub major: u64,
    pub minor: u64,
    pub patch: u64,
    pub pre: Vec<Identifier>,
    pub build: Vec<Identifier>,
}

/// What a [`SemVer`] stands for.
pub struct SemVerView {
    pub major: u64,
    pub minor: u64,
    pub patch: u64,
    pub pre: Seq<IdentifierView>,
    pub build: Seq<IdentifierView>,
}

/// The identifiers that a list of parts stands for, in order.
pub open spec fn identifiers_view(parts: Seq<Identifier>) -> Seq<IdentifierView> {
    parts.map_values(|i: Identifier| i@)
}

impl View for SemVer {
    type V = SemVerView;

    open spec fn view(&self) -> SemVerView {
        SemVerView {
            major: self.major,
            minor: self.minor,
            patch: self.patch,
            pre: identifiers_view(self.pre@),
            build: identifiers_view(self.build@),
        }
    }
}

/// The order of bytes by their value.
pub open spec fn byte_order() -> spec_fn(u8, u8) -> bool {
    |x: u8, y: u8| x < y
}

/// The order of identifiers, see [`IdentifierView::precedes`].
pub open spec fn identifier_order() -> spec_fn(IdentifierView, IdentifierView) -> bool {
    |x: IdentifierView, y: IdentifierView| x.precedes(y)
}

/// `a` comes before `b` as text: byte by byte over the UTF-8 encoding, a
/// proper prefix before what extends it.
pub open spec fn text_precedes(a: Seq<char>, b: Seq<char>) -> bool {
    lex_precedes(encode_utf8(a), encode_utf8(b), byte_order())
}

impl IdentifierView {
    /// Precedence of two identifiers at the same position: numbers by value,
    /// texts as text, and any number before any text.
    pub open spec fn precedes(self, other: IdentifierView) -> bool {
        match (self, other) {
            (IdentifierView::Numeric(a), IdentifierView::Numeric(b)) => a < b,
            (IdentifierView::Numeric(_), IdentifierView::AlphaNumeric(_)) => true,
            (IdentifierView::AlphaNumeric(_), IdentifierView::Numeric(_)) => false,
            (IdentifierView::AlphaNumeric(a), IdentifierView::AlphaNumeric(b)) => text_precedes(
                a,
                b,
            ),
        }
    }
}

impl SemVerView {
    /// `self` has lower precedence than `other`.
    ///
    /// Major, minor and patch decide in that order.  Where all three agree, a
    /// version with a pre-release suffix comes before the one without, and two
    /// suffixes compare identifier by identifier, a suffix that is a proper
    /// prefix of the other coming first.  Build metadata plays no part.
    pub open spec fn precedes(self, other: SemVerView) -> bool {
        if self.major != other.major {
            self.major < other.major
        } else if self.minor != other.minor {
            self.minor < other.minor
        } else if self.patch != other.patch {
            self.patch < other.patch
        } else if self.pre.len() == 0 {
            false
        } else if other.pre.len() == 0 {
            true
        } else {
            lex_precedes(self.pre, other.pre, identifier_order())
        }
    }

    /// The two versions have the same precedence: they agree on everything
    /// but, possibly, their build metadata.
    pub open spec fn same_precedence(self, other: SemVerView) -> bool {
        &&& self.major == other.major
        &&& self.minor == other.minor
        &&& self.patch == other.patch
        &&& self.pre == other.pre
    }
}

/// Bytes are strictly and totally ordered by value.
pub proof fn lemma_byte_order_strict_total()
    ensures
        strict_total(byte_order()),
{
}

/// Two texts with the same UTF-8 encoding are the same text.
pub proof fn lemma_encoding_injective(a: Seq<char>, b: Seq<char>)
    requires
        encode_utf8(a) == encode_utf8(b),
    ensures
        a == b,
{
    encode_utf8_decode_utf8(a);
    encode_utf8_decode_utf8(b);
}

/// Identifiers are strictly and totally ordered by [`IdentifierView::precedes`].
pub proof fn lemma_identifier_order_strict_total()
    ensures
        strict_total(identifier_order()),
{
    let lt = identifier_order();
    lemma_byte_order_strict_total();
    assert forall|x: IdentifierView| !#[trigger] lt(x, x) by {
        if let IdentifierView::AlphaNumeric(a) = x {
            lemma_lex_irreflexive(encode_utf8(a), byte_order());
        }
    }
    assert forall|x: IdentifierView, y: IdentifierView, z: IdentifierView| #[trigger]
        lt(x, y) && #[trigger] lt(y, z) implies lt(x, z) by {
        match (x, y, z) {
            (
                IdentifierView::AlphaNumeric(a),
                IdentifierView::AlphaNumeric(b),
                IdentifierView::AlphaNumeric(c),
            ) => {
                lemma_lex_transitive(
                    encode_utf8(a),
                    encode_utf8(b),
                    encode_utf8(c),
                    byte_order(),
                );
            },
            _ => {},
        }
    }
    assert forall|x: IdentifierView, y: IdentifierView| x != y implies #[trigger] lt(x, y) || lt(
        y,
        x,
    ) by {
        match (x, y) {
            (IdentifierView::AlphaNumeric(a), IdentifierView::AlphaNumeric(b)) => {
                if encode_utf8(a) == encode_utf8(b) {
                    lemma_encoding_injective(a, b);
                }
                lemma_lex_total(encode_utf8(a), encode_utf8(b), byte_order());
            },
            _ => {},
        }
    }
}

/// No version comes before itself.
pub proof fn lemma_precedes_irreflexive(a: SemVerView)
    ensures
        !a.precedes(a),
{
    lemma_lex_irreflexive(a.pre, identifier_order());
}

/// Precedence chains: what is before a version that is before a third is
/// before the third.
pub proof fn lemma_precedes_transitive(a: SemVerView, b: SemVerView, c: SemVerView)
    requires
        a.precedes(b),
        b.precedes(c),
    ensures
        a.precedes(c),
{
    if a.major == b.major && b.major == c.major && a.minor == b.minor && b.minor == c.minor
        && a.patch == b.patch && b.patch == c.patch && c.pre.len() > 0 {
        lemma_identifier_order_strict_total();
        lemma_lex_transitive(a.pre, b.pre, c.pre, identifier_order());
    }
}

/// Of two versions exactly one holds: the first is before the second, the
/// second is before the first, or they differ in build metadata at most.
pub proof fn lemma_precedes_total(a: SemVerView, b: SemVerView)
    ensures
        a.precedes(b) || b.precedes(a) || a.same_precedence(b),
        !(a.precedes(b) && b.precedes(a)),
        a.same_precedence(b) ==> !a.precedes(b) && !b.precedes(a),
{
    lemma_identifier_order_strict_total();
    if a.pre != b.pre {
        lemma_lex_total(a.pre, b.pre, identifier_order());
    }
    if a.precedes(b) && b.precedes(a) {
        lemma_precedes_transitive(a, b, a);
        lemma_precedes_irreflexive(a);
    }
    if a.same_precedence(b) {
        lemma_lex_irreflexive(a.pre, identifier_order());
    }
}

/// Build metadata never affects precedence: whatever metadata two versions
/// carry, they compare as they would without it.
pub proof fn lemma_build_ignored(
    a: SemVerView,
    b: SemVerView,
    x: Seq<IdentifierView>,
    y: Seq<IdentifierView>,
)
    ensures
        (SemVerView { build: x, ..a }).precedes(SemVerView { build: y, ..b }) == a.precedes(b),
        (SemVerView { build: x, ..a }).same_precedence(SemVerView { build: y, ..b })
            == a.same_precedence(b),
{
}

/// Versions of the same precedence stand in the same relation to every
/// third version.
pub proof fn lemma_same_precedence_congruent(a: SemVerView, b: SemVerView, c: SemVerView)
    requires
        a.same_precedence(b),
    ensures
        a.precedes(c) == b.precedes(c),
        c.precedes(a) == c.precedes(b),
        a.same_precedence(c) == b.same_precedence(c),
{
}

/// Whether `a` comes before `b`, byte by byte.
fn bytes_less(a: &[u8], b: &[u8]) -> (r: bool)
    ensures
        r == lex_precedes(a@, b@, byte_order()),
{
    let mut i: usize = 0;
    while i < a.len() && i < b.len()
        invariant
            i <= a.len(),
            i <= b.len(),
            a@.take(i as int) =~= b@.take(i as int),
        decreases a.len() - i,
    {
        if a[i] != b[i] {
            proof {
                lemma_lex_skip(a@, b@, byte_order(), i as int);
            }
            return a[i] < b[i];
        }
        assert(a@.take(i + 1) =~= a@.take(i as int).push(a@[i as int]));
        assert(b@.take(i + 1) =~= b@.take(i as int).push(b@[i as int]));
        i += 1;
    }
    proof {
        lemma_lex_skip(a@, b@, byte_order(), i as int);
    }
    i < b.len()
}

impl Clone for Identifier {
    fn clone(&self) -> (r: Identifier)
        ensures
            r == *self,
    {
        match self {
            Identifier::Numeric(n) => Identifier::Numeric(*n),
            Identifier::AlphaNumeric(s) => Identifier::AlphaNumeric(s.clone()),
        }
    }
}

impl Identifier {
    /// Whether the two identifiers are the same.
    pub fn same(&self, other: &Identifier) -> (r: bool)
        ensures
            r == (self@ == other@),
    {
        match (self, other) {
            (Identifier::Numeric(a), Identifier::Numeric(b)) => *a == *b,
            (Identifier::AlphaNumeric(a), Identifier::AlphaNumeric(b)) => *a == *b,
            _ => false,
        }
    }

    /// Whether `self` has lower precedence than `other`.
    pub fn precedes(&self, other: &Identifier) -> (r: bool)
        ensures
            r == self@.precedes(other@),
    {
        match (self, other) {
            (Identifier::Numeric(a), Identifier::Numeric(b)) => *a < *b,
            (Identifier::Numeric(_), Identifier::AlphaNumeric(_)) => true,
            (Identifier::AlphaNumeric(_), Identifier::Numeric(_)) => false,
            (Identifier::AlphaNumeric(a), Identifier::AlphaNumeric(b)) => bytes_less(
                a.as_str().as_bytes(),
                b.as_str().as_bytes(),
            ),
        }
    }
}

/// Whether two lists hold the same identifiers in the same order.
fn identifiers_same(a: &Vec<Identifier>, b: &Vec<Identifier>) -> (r: bool)
    ensures
        r == (identifiers_view(a@) == identifiers_view(b@)),
{
    if a.len() != b.len() {
        return false;
    }
    let ghost av = identifiers_view(a@);
    let ghost bv = identifiers_view(b@);
    let mut i: usize = 0;
    while i < a.len()
        invariant
            i <= a.len(),
            a.len() == b.len(),
            av == identifiers_view(a@),
            bv == identifiers_view(b@),
            av.take(i as int) =~= bv.take(i as int),
        decreases a.len() - i,
    {
        if !a[i].same(&b[i]) {
            assert(av[i as int] != bv[i as int]);
            return false;
        }
        assert(av.take(i + 1) =~= av.take(i as int).push(av[i as int]));
        assert(bv.take(i + 1) =~= bv.take(i as int).push(bv[i as int]));
        i += 1;
    }
    assert(av =~= av.take(i as int));
    assert(bv =~= bv.take(i as int));
    true
}

/// Whether the list `a` comes before the list `b`, identifier by identifier.
fn identifiers_less(a: &Vec<Identifier>, b: &Vec<Identifier>) -> (r: bool)
    ensures
        r == lex_precedes(identifiers_view(a@), identifiers_view(b@), identifier_order()),
{
    let ghost av = identifiers_view(a@);
    let ghost bv = identifiers_view(b@);
    let mut i: usize = 0;
    while i < a.len() && i < b.len()
        invariant
            i <= a.len(),
            i <= b.len(),
            av == identifiers_view(a@),
            bv == identifiers_view(b@),
            av.take(i as int) =~= bv.take(i as int),
        decreases a.len() - i,
    {
        if !a[i].same(&b[i]) {
            proof {
                lemma_lex_skip(av, bv, identifier_order(), i as int);
                assert(av.skip(i as int)[0] == a@[i as int]@);
                assert(bv.skip(i as int)[0] == b@[i as int]@);
            }
            return a[i].precedes(&b[i]);
        }
        assert(av.take(i + 1) =~= av.take(i as int).push(av[i as int]));
        assert(bv.take(i + 1) =~= bv.take(i as int).push(bv[i as int]));
        i += 1;
    }
    proof {
        lemma_lex_skip(av, bv, identifier_order(), i as int);
    }
    i < b.len()
}

/// A copy of the list, identifier by identifier.
fn identifiers_clone(parts: &Vec<Identifier>) -> (r: Vec<Identifier>)
    ensures
        r@ == parts@,
{
    let mut r: Vec<Identifier> = Vec::new();
    let mut i: usize = 0;
    while i < parts.len()
        invariant
            i <= parts.len(),
            r@ =~= parts@.take(i as int),
        decreases parts.len() - i,
    {
        r.push(parts[i].clone());
        i += 1;
    }
    assert(parts@.take(i as int) =~= parts@);
    r
}

impl Clone for SemVer {
    fn clone(&self) -> (r: SemVer)
        ensures
            r@ == self@,
            r.pre@ == self.pre@,
            r.build@ == self.build@,
    {
        SemVer {
            major: self.major,
            minor: self.minor,
            patch: self.patch,
            pre: identifiers_clone(&self.pre),
            build: identifiers_clone(&self.build),
        }
    }
}

impl SemVer {
    /// A version without pre-release suffix or build metadata.
    pub fn new(major: u64, minor: u64, patch: u64) -> (v: SemVer)
        ensures
            v@ == (SemVerView { major, minor, patch, pre: Seq::empty(), build: Seq::empty() }),
    {
        let v = SemVer { major, minor, patch, pre: Vec::new(), build: Vec::new() };
        assert(v@.pre =~= Seq::empty());
        assert(v@.build =~= Seq::empty());
        v
    }

    /// Whether `self` has lower precedence than `other`.
    pub fn precedes(&self, other: &SemVer) -> (r: bool)
        ensures
            r == self@.precedes(other@),
    {
        if self.major != other.major {
            self.major < other.major
        } else if self.minor != other.minor {
            self.minor < other.minor
        } else if self.patch != other.patch {
            self.patch < other.patch
        } else if self.pre.len() == 0 {
            false
        } else if other.pre.len() == 0 {
            true
        } else {
            identifiers_less(&self.pre, &other.pre)
        }
    }

    /// Whether the two versions have the same precedence, that is, differ in
    /// build metadata at most.
    pub fn same_precedence(&self, other: &SemVer) -> (r: bool)
        ensures
            r == self@.same_precedence(other@),
    {
        self.major == other.major && self.minor == other.minor && self.patch == other.patch
            && identifiers_same(&self.pre, &other.pre)
    }
}

} // verus!
