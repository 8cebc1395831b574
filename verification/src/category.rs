//! Functional categories of an SDK build, derived from its identifier.

use vstd::prelude::*;

use crate::text::contains_chars;
use crate::text::contains_seq;
use crate::text::lower_of;
use crate::text::lowercase_chars;

verus! {

/// A functional category of an SDK build. The tags are not mutually
/// exclusive: one build may be both JavaFX-enabled and Native-Image-capable.
#[derive(Clone, Copy, Debug, PartialEq, Eq, Hash, Structural)]
pub enum JdkCategory {
    /// A plain runtime without special capabilities.
    Jdk,
    /// A build that bundles JavaFX support.
    JavaFx,
    /// A Native-Image-capable (GraalVM-derived) build.
    Nik,
}

/// The marker that identifies a JavaFX-bundling build.
pub open spec fn fx_marker() -> Seq<char> {
    seq!['.', 'f', 'x']
}

/// A marker of a Liberica Native Image Kit build.
pub open spec fn nik_marker() -> Seq<char> {
    seq!['-', 'n', 'i', 'k']
}

/// A marker of a Mandrel build.
pub open spec fn mandrel_marker() -> Seq<char> {
    seq!['-', 'm', 'a', 'n', 'd', 'r', 'e', 'l']
}

/// A marker of a GraalVM build.
pub open spec fn graal_marker() -> Seq<char> {
    seq!['-', 'g', 'r', 'a', 'a', 'l']
}

/// A marker of a GraalVM build, written out in full. It always occurs
/// together with the shorter GraalVM marker; it is checked all the same to
/// keep the recognized marker list explicit.
pub open spec fn graalvm_marker() -> Seq<char> {
    seq!['-', 'g', 'r', 'a', 'a', 'l', 'v', 'm']
}

/// The lowered identifier marks a JavaFX-bundling build.
pub open spec fn fx_in(l: Seq<char>) -> bool {
    contains_seq(l, fx_marker())
}

/// The lowered identifier marks a Native-Image-capable build.
pub open spec fn nik_in(l: Seq<char>) -> bool {
    ||| contains_seq(l, nik_marker())
    ||| contains_seq(l, mandrel_marker())
    ||| contains_seq(l, graal_marker())
    ||| contains_seq(l, graalvm_marker())
}

/// The categories a lowered (already case-folded) identifier resolves to:
/// each marker found contributes its tag, and an identifier without any
/// marker falls back to the plain category.
pub open spec fn spec_categories_of_lower(l: Seq<char>) -> Set<JdkCategory> {
    if !fx_in(l) && !nik_in(l) {
        set![JdkCategory::Jdk]
    } else {
        (if fx_in(l) {
            set![JdkCategory::JavaFx]
        } else {
            Set::<JdkCategory>::empty()
        }).union(
            if nik_in(l) {
                set![JdkCategory::Nik]
            } else {
                Set::<JdkCategory>::empty()
            },
        )
    }
}

/// The set of categories an identifier resolves to: the empty identifier is
/// the plain baseline; any other identifier is classified by the markers its
/// lowercase folding contains.
pub open spec fn spec_categories(s: Seq<char>) -> Set<JdkCategory> {
    if s.len() == 0 {
        set![JdkCategory::Jdk]
    } else {
        spec_categories_of_lower(lower_of(s))
    }
}

/// The categories of a lowered identifier, enumerated in a fixed order.
pub open spec fn spec_list_of_lower(l: Seq<char>) -> Seq<JdkCategory> {
    if fx_in(l) && nik_in(l) {
        seq![JdkCategory::JavaFx, JdkCategory::Nik]
    } else if fx_in(l) {
        seq![JdkCategory::JavaFx]
    } else if nik_in(l) {
        seq![JdkCategory::Nik]
    } else {
        seq![JdkCategory::Jdk]
    }
}

/// The categories of an identifier, enumerated in a fixed order.
pub open spec fn spec_category_list(s: Seq<char>) -> Seq<JdkCategory> {
    if s.len() == 0 {
        seq![JdkCategory::Jdk]
    } else {
        spec_list_of_lower(lower_of(s))
    }
}

/// The category enumeration lists exactly the category set, each tag once,
/// and never lists nothing.
pub proof fn lemma_list_matches_set(s: Seq<char>)
    ensures
        spec_category_list(s).to_set() == spec_categories(s),
        spec_category_list(s).no_duplicates(),
        spec_category_list(s).len() >= 1,
{
    let l = spec_category_list(s);
    let cs = spec_categories(s);
    assert forall|c: JdkCategory| l.to_set().contains(c) <==> cs.contains(c) by {
        assert(l.to_set().contains(c) == l.contains(c));
        if l.contains(c) {
            let i = choose|i: int| 0 <= i < l.len() && l[i] == c;
            assert(c == l[i]);
            assert(cs.contains(c));
        }
        if cs.contains(c) {
            if l.len() >= 2 && c == l[1] {
                assert(l[1] == c);
            } else {
                assert(c == l[0]);
                assert(l[0] == c);
            }
            assert(l.contains(c));
        }
    }
    assert(l.to_set() =~= cs);
}

/// Totality and non-emptiness: every identifier — any character sequence at
/// all — resolves to at least one category; the classification never yields
/// the empty set.
pub proof fn lemma_classify_nonempty(s: Seq<char>)
    ensures
        spec_categories(s) != Set::<JdkCategory>::empty(),
        spec_category_list(s).len() >= 1,
{
    lemma_list_matches_set(s);
    let l = spec_category_list(s);
    assert(l.contains(l[0]));
    assert(spec_categories(s).contains(l[0]));
    assert(!Set::<JdkCategory>::empty().contains(l[0]));
}

/// Case insensitivity: the classification reads nothing of an identifier but
/// its lowercase folding. Two identifiers with the same folding — such as a
/// string, its uppercased form and its lowercased form, which fold alike and
/// are empty only together — resolve to exactly the same categories.
pub proof fn lemma_case_insensitive(s: Seq<char>, t: Seq<char>)
    requires
        lower_of(s) == lower_of(t),
        s.len() == 0 <==> t.len() == 0,
    ensures
        spec_categories(s) == spec_categories(t),
        spec_category_list(s) == spec_category_list(t),
{
}

/// Fallback: an identifier whose lowercase folding holds none of the
/// recognized markers resolves to the plain category, and to nothing else.
pub proof fn lemma_fallback(s: Seq<char>)
    requires
        !contains_seq(lower_of(s), fx_marker()),
        !contains_seq(lower_of(s), nik_marker()),
        !contains_seq(lower_of(s), mandrel_marker()),
        !contains_seq(lower_of(s), graal_marker()),
        !contains_seq(lower_of(s), graalvm_marker()),
    ensures
        spec_categories(s) == set![JdkCategory::Jdk],
        spec_category_list(s) == seq![JdkCategory::Jdk],
{
}

/// Determinism: classification is a pure function of the identifier. Any two
/// classification results for the same identifier are identical, sequences of
/// tags included.
pub proof fn lemma_deterministic(s: Seq<char>, r1: Seq<JdkCategory>, r2: Seq<JdkCategory>)
    requires
        r1 == spec_category_list(s),
        r2 == spec_category_list(s),
    ensures
        r1 == r2,
{
}

impl JdkCategory {
    /// The tag under which this category appears in a serialized record.
    pub fn tag(&self) -> (r: &'static str)
        ensures
            *self == JdkCategory::Jdk ==> r@ == "JDK"@,
            *self == JdkCategory::JavaFx ==> r@ == "JAVAFX"@,
            *self == JdkCategory::Nik ==> r@ == "NIK"@,
    {
        match self {
            JdkCategory::Jdk => "JDK",
            JdkCategory::JavaFx => "JAVAFX",
            JdkCategory::Nik => "NIK",
        }
    }

    /// Classify an identifier into its categories.
    ///
    /// The lowercase folding of the identifier is searched for the recognized
    /// markers; each marker found contributes its tag, and an identifier
    /// without any marker — the empty identifier included — is a plain JDK.
    /// The result enumerates the category set without duplicates and is never
    /// empty.
    pub fn from_identifier(identifier: &str) -> (r: Vec<JdkCategory>)
        ensures
            r@ == spec_category_list(identifier@),
            r@.to_set() == spec_categories(identifier@),
            r@.no_duplicates(),
            r@.len() >= 1,
    {
        let low = lowercase_chars(identifier);
        let fx = contains_chars(&low, &fx_chars());
        let nik = contains_chars(&low, &nik_chars()) || contains_chars(&low, &mandrel_chars())
            || contains_chars(&low, &graal_chars()) || contains_chars(&low, &graalvm_chars());
        let mut r: Vec<JdkCategory> = Vec::new();
        if fx {
            r.push(JdkCategory::JavaFx);
        }
        if nik {
            r.push(JdkCategory::Nik);
        }
        if r.len() == 0 {
            r.push(JdkCategory::Jdk);
        }
        proof {
            assert(r@ =~= spec_category_list(identifier@));
            lemma_list_matches_set(identifier@);
        }
        r
    }
}

/// The marker characters for a JavaFX-bundling build.
fn fx_chars() -> (r: Vec<char>)
    ensures
        r@ == fx_marker(),
{
    let mut v: Vec<char> = Vec::new();
    v.push('.');
    v.push('f');
    v.push('x');
    proof {
        assert(v@ =~= fx_marker());
    }
    v
}

/// The marker characters for a Liberica Native Image Kit build.
fn nik_chars() -> (r: Vec<char>)
    ensures
        r@ == nik_marker(),
{
    let mut v: Vec<char> = Vec::new();
    v.push('-');
    v.push('n');
    v.push('i');
    v.push('k');
    proof {
        assert(v@ =~= nik_marker());
    }
    v
}

/// The marker characters for a Mandrel build.
fn mandrel_chars() -> (r: Vec<char>)
    ensures
        r@ == mandrel_marker(),
{
    let mut v: Vec<char> = Vec::new();
    v.push('-');
    v.push('m');
    v.push('a');
    v.push('n');
    v.push('d');
    v.push('r');
    v.push('e');
    v.push('l');
    proof {
        assert(v@ =~= mandrel_marker());
    }
    v
}

/// The marker characters for a GraalVM build.
fn graal_chars() -> (r: Vec<char>)
    ensures
        r@ == graal_marker(),
{
    let mut v: Vec<char> = Vec::new();
    v.push('-');
    v.push('g');
    v.push('r');
    v.push('a');
    v.push('a');
    v.push('l');
    proof {
        assert(v@ =~= graal_marker());
    }
    v
}

/// The marker characters for a GraalVM build, written out in full.
fn graalvm_chars() -> (r: Vec<char>)
    ensures
        r@ == graalvm_marker(),
{
    let mut v: Vec<char> = Vec::new();
    v.push('-');
    v.push('g');
    v.push('r');
    v.push('a');
    v.push('a');
    v.push('l');
    v.push('v');
    v.push('m');
    proof {
        assert(v@ =~= graalvm_marker());
    }
    v
}

} // verus!
