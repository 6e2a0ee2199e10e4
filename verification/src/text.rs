//! The dictionary order of texts, character by character.

use vstd::prelude::*;

verus! {

/// How one text stands to another in dictionary order.
#[derive(Debug, Clone, Copy, PartialEq, Eq)]
pub enum Standing {
    Before,
    Same,
    After,
}

/// Whether `a` comes before `b`, given that they agree below index `i`: the
/// first position at which they differ decides, by code point, and a text
/// comes before every text that it is a proper start of.
pub open spec fn precedes_from(a: Seq<char>, b: Seq<char>, i: int) -> bool
    decreases a.len() - i,
{
    if i < 0 || i >= b.len() {
        false
    } else if i >= a.len() {
        true
    } else if a[i] != b[i] {
        (a[i] as int) < (b[i] as int)
    } else {
        precedes_from(a, b, i + 1)
    }
}

/// Strict dictionary order on texts.
pub open spec fn precedes(a: Seq<char>, b: Seq<char>) -> bool {
    precedes_from(a, b, 0)
}

/// Each text comes before every later one.
pub open spec fn ascending(texts: Seq<Seq<char>>) -> bool {
    forall|i: int, j: int| 0 <= i < j < texts.len() ==> precedes(#[trigger] texts[i], #[trigger] texts[j])
}

/// No text occurs twice.
pub open spec fn distinct(texts: Seq<Seq<char>>) -> bool {
    forall|i: int, j: int| 0 <= i < j < texts.len() ==> #[trigger] texts[i] != #[trigger] texts[j]
}

proof fn lemma_not_before_itself_from(a: Seq<char>, i: int)
    requires
        0 <= i,
    ensures
        !precedes_from(a, a, i),
    decreases a.len() - i,
{
    if i < a.len() {
        lemma_not_before_itself_from(a, i + 1);
    }
}

proof fn lemma_precedes_chain_from(a: Seq<char>, b: Seq<char>, c: Seq<char>, i: int)
    requires
        0 <= i,
        precedes_from(a, b, i),
        precedes_from(b, c, i),
    ensures
        precedes_from(a, c, i),
    decreases a.len() - i,
{
    if i < a.len() && a[i] == b[i] && b[i] == c[i] {
        lemma_precedes_chain_from(a, b, c, i + 1);
    }
}

proof fn lemma_one_way_from(a: Seq<char>, b: Seq<char>, i: int)
    requires
        0 <= i <= a.len(),
        i <= b.len(),
        a.subrange(0, i) == b.subrange(0, i),
    ensures
        precedes_from(a, b, i) || precedes_from(b, a, i) || a == b,
    decreases a.len() - i,
{
    if i < a.len() && i < b.len() {
        if a[i] == b[i] {
            assert(a.subrange(0, i + 1) == a.subrange(0, i).push(a[i]));
            assert(b.subrange(0, i + 1) == b.subrange(0, i).push(b[i]));
            lemma_one_way_from(a, b, i + 1);
        } else {
            assert(a[i] as int != b[i] as int);
        }
    } else if i == a.len() && i == b.len() {
        assert(a.subrange(0, i) == a);
        assert(b.subrange(0, i) == b);
    }
}

/// No text comes before itself.
pub proof fn lemma_precedes_irreflexive(a: Seq<char>)
    ensures
        !precedes(a, a),
{
    lemma_not_before_itself_from(a, 0);
}

/// The order is transitive.
pub proof fn lemma_precedes_transitive(a: Seq<char>, b: Seq<char>, c: Seq<char>)
    requires
        precedes(a, b),
        precedes(b, c),
    ensures
        precedes(a, c),
{
    lemma_precedes_chain_from(a, b, c, 0);
}

/// The order is total: of two different texts one comes before the other.
pub proof fn lemma_precedes_total(a: Seq<char>, b: Seq<char>)
    ensures
        precedes(a, b) || precedes(b, a) || a == b,
{
    assert(a.subrange(0, 0) == b.subrange(0, 0));
    lemma_one_way_from(a, b, 0);
}

/// An ascending sequence holds no text twice.
pub proof fn lemma_ascending_is_distinct(texts: Seq<Seq<char>>)
    requires
        ascending(texts),
    ensures
        distinct(texts),
{
    assert forall|i: int, j: int| 0 <= i < j < texts.len() implies #[trigger] texts[i]
        != #[trigger] texts[j] by {
        lemma_precedes_irreflexive(texts[i]);
    }
}

/// Compares two texts in dictionary order.
pub fn compare(a: &str, b: &str) -> (r: Standing)
    ensures
        r == Standing::Before <==> precedes(a@, b@),
        r == Standing::Same <==> a@ == b@,
        r == Standing::After <==> precedes(b@, a@),
{
    let la: usize = a.unicode_len();
    let lb: usize = b.unicode_len();
    let mut i: usize = 0;
    while i < la && i < lb
        invariant
            la == a@.len(),
            lb == b@.len(),
            i <= la,
            i <= lb,
            a@.subrange(0, i as int) == b@.subrange(0, i as int),
            precedes(a@, b@) == precedes_from(a@, b@, i as int),
            precedes(b@, a@) == precedes_from(b@, a@, i as int),
        decreases la - i,
    {
        let x: char = a.get_char(i);
        let y: char = b.get_char(i);
        let xn: u32 = x as u32;
        let yn: u32 = y as u32;
        if xn < yn {
            proof {
                lemma_differ_at(a@, b@, i as int);
            }
            return Standing::Before;
        }
        if yn < xn {
            proof {
                lemma_differ_at(a@, b@, i as int);
            }
            return Standing::After;
        }
        proof {
            assert(x == y);
            assert(a@.subrange(0, i + 1) == a@.subrange(0, i as int).push(x));
            assert(b@.subrange(0, i + 1) == b@.subrange(0, i as int).push(y));
        }
        i = i + 1;
    }
    proof {
        lemma_not_before_itself_from(a@, i as int);
        if la == lb {
            assert(a@.subrange(0, i as int) == a@);
            assert(b@.subrange(0, i as int) == b@);
        }
    }
    if la < lb {
        Standing::Before
    } else if lb < la {
        Standing::After
    } else {
        Standing::Same
    }
}

proof fn lemma_differ_at(a: Seq<char>, b: Seq<char>, i: int)
    requires
        0 <= i < a.len(),
        i < b.len(),
        a[i] != b[i],
    ensures
        a != b,
{
}

} // verus!
