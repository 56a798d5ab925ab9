//! Comparing text: equality, prefixes, and the order of strings.

use vstd::prelude::*;
use vstd::std_specs::iter::IteratorSpec;

verus! {

/// Whether `a` comes strictly before `b` when text is ordered character by
/// character, each by its code point, and a proper prefix comes first. This is
/// the order of Rust's strings.
pub open spec fn precedes(a: Seq<char>, b: Seq<char>) -> bool
    decreases a.len(),
{
    if b.len() == 0 {
        false
    } else if a.len() == 0 {
        true
    } else {
        ||| (a[0] as int) < (b[0] as int)
        ||| a[0] == b[0] && precedes(a.drop_first(), b.drop_first())
    }
}

/// No text comes before itself.
pub proof fn law_precedes_irreflexive(a: Seq<char>)
    ensures
        !precedes(a, a),
    decreases a.len(),
{
    if a.len() > 0 {
        law_precedes_irreflexive(a.drop_first());
    }
}

/// The order of text is transitive.
pub proof fn law_precedes_transitive(a: Seq<char>, b: Seq<char>, c: Seq<char>)
    requires
        precedes(a, b),
        precedes(b, c),
    ensures
        precedes(a, c),
    decreases a.len(),
{
    if a.len() > 0 && a[0] == b[0] && b[0] == c[0] {
        law_precedes_transitive(a.drop_first(), b.drop_first(), c.drop_first());
    }
}

/// Of two different texts one comes before the other.
pub proof fn law_precedes_total(a: Seq<char>, b: Seq<char>)
    ensures
        a == b || precedes(a, b) || precedes(b, a),
    decreases a.len(),
{
    if a.len() > 0 && b.len() > 0 {
        law_precedes_total(a.drop_first(), b.drop_first());
        if a[0] == b[0] && a.drop_first() == b.drop_first() {
            assert(a =~= seq![a[0]] + a.drop_first());
            assert(b =~= seq![b[0]] + b.drop_first());
        }
    } else {
        assert(a.len() == 0 && b.len() == 0 ==> a =~= b);
    }
}

/// The order of text is decided where two texts first differ: the one that ends there
/// comes first, and otherwise the one with the lower code point there.
pub proof fn law_precedes_at_first_difference(a: Seq<char>, b: Seq<char>, k: int)
    requires
        0 <= k <= a.len(),
        k <= b.len(),
        forall|i: int| 0 <= i < k ==> #[trigger] a[i] == b[i],
        k == a.len() || k == b.len() || a[k] != b[k],
    ensures
        precedes(a, b) <==> k < b.len() && (k == a.len() || (a[k] as int) < (b[k] as int)),
    decreases k,
{
    if k > 0 {
        let a_rest = a.drop_first();
        let b_rest = b.drop_first();
        assert(a[0] == b[0]);
        assert forall|i: int| 0 <= i < k - 1 implies #[trigger] a_rest[i] == b_rest[i] by {
            assert(a[i + 1] == b[i + 1]);
        }
        law_precedes_at_first_difference(a_rest, b_rest, k - 1);
    }
}

/// How many characters `a` and `b` have in common at their beginning.
proof fn lemma_first_difference(a: Seq<char>, b: Seq<char>) -> (k: int)
    ensures
        0 <= k <= a.len(),
        k <= b.len(),
        forall|i: int| 0 <= i < k ==> #[trigger] a[i] == b[i],
        k == a.len() || k == b.len() || a[k] != b[k],
    decreases a.len(),
{
    if a.len() == 0 || b.len() == 0 || a[0] != b[0] {
        0
    } else {
        let k = lemma_first_difference(a.drop_first(), b.drop_first());
        assert forall|i: int| 0 <= i < k + 1 implies #[trigger] a[i] == b[i] by {
            if i > 0 {
                assert(a.drop_first()[i - 1] == b.drop_first()[i - 1]);
            }
        }
        k + 1
    }
}

/// A text comes before another exactly if, behind a common beginning, it ends while the
/// other goes on, or it goes on with a lower code point.
pub proof fn law_precedes_is_the_order_of_code_points(a: Seq<char>, b: Seq<char>)
    ensures
        precedes(a, b) <==> exists|k: int|
            {
                &&& 0 <= k <= a.len()
                &&& k < b.len()
                &&& #[trigger] a.take(k) == b.take(k)
                &&& k == a.len() || (a[k] as int) < (b[k] as int)
            },
{
    let k = lemma_first_difference(a, b);
    law_precedes_at_first_difference(a, b, k);
    assert(a.take(k) =~= b.take(k));
    if exists|k: int|
        {
            &&& 0 <= k <= a.len()
            &&& k < b.len()
            &&& #[trigger] a.take(k) == b.take(k)
            &&& k == a.len() || (a[k] as int) < (b[k] as int)
        } {
        let n = choose|k: int|
            {
                &&& 0 <= k <= a.len()
                &&& k < b.len()
                &&& #[trigger] a.take(k) == b.take(k)
                &&& k == a.len() || (a[k] as int) < (b[k] as int)
            };
        assert forall|i: int| 0 <= i < n implies #[trigger] a[i] == b[i] by {
            assert(a.take(n)[i] == b.take(n)[i]);
        }
        law_precedes_at_first_difference(a, b, n);
    }
}

/// Whether `a` comes strictly before `b`.
pub(crate) fn text_precedes(a: &str, b: &str) -> (r: bool)
    ensures
        r == precedes(a@, b@),
{
    let mut left = a.chars();
    let mut right = b.chars();
    loop
        invariant
            left.obeys_prophetic_iter_laws(),
            right.obeys_prophetic_iter_laws(),
            left.decrease() is Some,
            precedes(a@, b@) == precedes(left.remaining(), right.remaining()),
        decreases left.decrease()->0,
    {
        match (left.next(), right.next()) {
            (_, None) => { return false; },
            (None, Some(_)) => { return true; },
            (Some(x), Some(y)) => {
                if x < y {
                    return true;
                }
                if y < x {
                    return false;
                }
            },
        }
    }
}

/// Whether `text` starts with `prefix`.
pub(crate) fn text_starts_with(text: &str, prefix: &str) -> (r: bool)
    ensures
        r == prefix@.is_prefix_of(text@),
{
    let mut rest = text.chars();
    let mut wanted = prefix.chars();
    loop
        invariant
            rest.obeys_prophetic_iter_laws(),
            wanted.obeys_prophetic_iter_laws(),
            wanted.decrease() is Some,
            prefix@.is_prefix_of(text@) == wanted.remaining().is_prefix_of(rest.remaining()),
        decreases wanted.decrease()->0,
    {
        let ghost before = wanted.remaining();
        let ghost around = rest.remaining();
        match wanted.next() {
            None => {
                return true;
            },
            Some(x) => match rest.next() {
                None => {
                    return false;
                },
                Some(y) => {
                    if x != y {
                        assert(before.is_prefix_of(around) ==> around.subrange(
                            0,
                            before.len() as int,
                        )[0] == around[0]);
                        return false;
                    }
                    proof {
                        lemma_prefix_drop_first(before, around);
                    }
                },
            },
        }
    }
}

/// Whether the two texts are the same.
pub(crate) fn same_text(a: &str, b: &str) -> (r: bool)
    ensures
        r == (a@ == b@),
{
    proof {
        law_precedes_irreflexive(a@);
        law_precedes_total(a@, b@);
    }
    !text_precedes(a, b) && !text_precedes(b, a)
}

/// A sequence is a prefix of another with the same head exactly if its tail is a
/// prefix of the other's tail.
proof fn lemma_prefix_drop_first(a: Seq<char>, b: Seq<char>)
    requires
        a.len() > 0,
        b.len() > 0,
        a[0] == b[0],
    ensures
        a.is_prefix_of(b) == a.drop_first().is_prefix_of(b.drop_first()),
{
    if a.is_prefix_of(b) {
        assert(a.drop_first() =~= b.drop_first().subrange(0, a.len() - 1)) by {
            assert forall|i: int| 0 <= i < a.len() - 1 implies a.drop_first()[i]
                == b.drop_first()[i] by {
                assert(a[i + 1] == b.subrange(0, a.len() as int)[i + 1]);
            }
        }
    }
    if a.drop_first().is_prefix_of(b.drop_first()) {
        assert(a =~= b.subrange(0, a.len() as int)) by {
            assert forall|i: int| 0 <= i < a.len() implies a[i] == b[i] by {
                if i > 0 {
                    assert(a.drop_first()[i - 1] == b.drop_first().subrange(0, a.len() - 1)[i - 1]);
                }
            }
        }
    }
}

} // verus!
