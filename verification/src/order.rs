//! Orders on text, and on the things a list is sorted by.

use vstd::prelude::*;

use crate::text;

verus! {

/// How one thing stands to another.
#[derive(Debug, Clone, Copy, PartialEq, Eq, Structural)]
pub enum Order {
    Less,
    Same,
    More,
}

impl Order {
    /// This order, with `next` to settle a tie.
    pub open spec fn or(self, next: Order) -> Order {
        if self == Order::Same {
            next
        } else {
            self
        }
    }
}

/// Whether `a` comes before `b`, by the first character in which they differ.
pub open spec fn before(a: Seq<char>, b: Seq<char>) -> bool
    decreases a.len(),
{
    if b.len() == 0 {
        false
    } else if a.len() == 0 {
        true
    } else if a[0] != b[0] {
        a[0] < b[0]
    } else {
        before(a.drop_first(), b.drop_first())
    }
}

/// How two texts stand to each other.
pub open spec fn text_order(a: Seq<char>, b: Seq<char>) -> Order {
    if before(a, b) {
        Order::Less
    } else if a == b {
        Order::Same
    } else {
        Order::More
    }
}

/// How two numbers stand to each other.
pub open spec fn number_order(a: int, b: int) -> Order {
    if a < b {
        Order::Less
    } else if a == b {
        Order::Same
    } else {
        Order::More
    }
}

/// Of two texts, one comes before the other or they are the same, and only one
/// of these.
pub proof fn text_order_is_total(a: Seq<char>, b: Seq<char>)
    ensures
        before(a, b) || a == b || before(b, a),
        !(before(a, b) && before(b, a)),
        !before(a, a),
        before(a, b) ==> a != b,
    decreases a.len(),
{
    if a.len() > 0 {
        text_order_is_total(a.drop_first(), a.drop_first());
    }
    if a.len() > 0 && b.len() > 0 && a[0] == b[0] {
        text_order_is_total(a.drop_first(), b.drop_first());
        if a.drop_first() == b.drop_first() {
            assert(a =~= seq![a[0]] + a.drop_first());
            assert(b =~= seq![b[0]] + b.drop_first());
        }
    }
    if a.len() == 0 && b.len() == 0 {
        assert(a =~= b);
    }
    if a == b {
        assert(!before(a, b));
    }
}

/// What comes before what comes before a text comes before it too.
pub proof fn text_order_is_transitive(a: Seq<char>, b: Seq<char>, c: Seq<char>)
    requires
        before(a, b),
        before(b, c),
    ensures
        before(a, c),
    decreases a.len(),
{
    if a.len() > 0 && b.len() > 0 && c.len() > 0 && a[0] == b[0] && b[0] == c[0] {
        text_order_is_transitive(a.drop_first(), b.drop_first(), c.drop_first());
    }
}

/// How two texts stand to each other.
pub fn order_texts(a: &str, b: &str) -> (r: Order)
    ensures
        r == text_order(a@, b@),
{
    let x: Vec<char> = text::chars_of(a);
    let y: Vec<char> = text::chars_of(b);
    let mut i: usize = 0;
    proof {
        text_order_is_total(a@, b@);
        assert(x@.skip(0) =~= a@);
        assert(y@.skip(0) =~= b@);
    }
    while i < x.len() && i < y.len()
        invariant
            i <= x@.len(),
            i <= y@.len(),
            x@ == a@,
            y@ == b@,
            before(a@, b@) == before(x@.skip(i as int), y@.skip(i as int)),
            forall|j: int| 0 <= j < i ==> x@[j] == y@[j],
        decreases x@.len() - i,
    {
        if x[i] != y[i] {
            return if x[i] < y[i] {
                Order::Less
            } else {
                Order::More
            };
        }
        proof {
            assert(x@.skip(i as int).drop_first() =~= x@.skip(i + 1));
            assert(y@.skip(i as int).drop_first() =~= y@.skip(i + 1));
        }
        i += 1;
    }
    if i < y.len() {
        Order::Less
    } else if i < x.len() {
        Order::More
    } else {
        proof {
            assert(a@ =~= b@);
            text_order_is_total(a@, a@);
        }
        Order::Same
    }
}

/// How two numbers stand to each other.
pub fn order_numbers(a: u32, b: u32) -> (r: Order)
    ensures
        r == number_order(a as int, b as int),
{
    if a < b {
        Order::Less
    } else if a == b {
        Order::Same
    } else {
        Order::More
    }
}

/// What a row is placed by: a text, then a number, then a text.
#[verifier::ext_equal]
pub struct Rank {
    pub first: Seq<char>,
    pub number: int,
    pub second: Seq<char>,
}

impl Rank {
    /// How one rank stands to another.
    pub open spec fn order(self, other: Rank) -> Order {
        text_order(self.first, other.first).or(number_order(self.number, other.number)).or(
            text_order(self.second, other.second),
        )
    }

    /// Whether this rank comes before another.
    pub open spec fn below(self, other: Rank) -> bool {
        self.order(other) == Order::Less
    }
}

/// Of two ranks, one comes before the other or they are the same, and only one
/// of these.
pub proof fn rank_order_is_total(a: Rank, b: Rank)
    ensures
        a.below(b) || a == b || b.below(a),
        !(a.below(b) && b.below(a)),
        !a.below(a),
        a.order(b) == Order::Same <==> a == b,
        a.order(b) == Order::More <==> b.below(a),
{
    text_order_is_total(a.first, b.first);
    text_order_is_total(b.first, a.first);
    text_order_is_total(a.second, b.second);
    text_order_is_total(b.second, a.second);
    text_order_is_total(a.first, a.first);
    text_order_is_total(a.second, a.second);
}

/// Ranks chain.
pub proof fn rank_order_is_transitive(a: Rank, b: Rank, c: Rank)
    requires
        a.below(b),
        b.below(c),
    ensures
        a.below(c),
{
    text_order_is_total(a.first, b.first);
    text_order_is_total(b.first, c.first);
    text_order_is_total(a.first, c.first);
    text_order_is_total(a.second, b.second);
    text_order_is_total(b.second, c.second);
    text_order_is_total(a.second, c.second);
    if before(a.first, b.first) && before(b.first, c.first) {
        text_order_is_transitive(a.first, b.first, c.first);
    }
    if before(a.second, b.second) && before(b.second, c.second) {
        text_order_is_transitive(a.second, b.second, c.second);
    }
}

} // verus!
