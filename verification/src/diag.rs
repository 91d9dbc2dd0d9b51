//! Parse diagnostics.
//!
//! Every parse failure carries the position (in characters) where it arose
//! and a message.  Keyword and property dispatch accumulates the candidates
//! it tried in a [`TryList`]; when nothing matches, the error message lists
//! every candidate, ordered and deduplicated, as
//! `expected one of `...`, `...``.

use vstd::prelude::*;
use vstd::string::StrSliceExecFns;
use vstd::string::StringExecFns;
use crate::text::str_eq;

verus! {

/// A structured parse failure: where, and what was expected.
#[derive(Debug, PartialEq)]
pub struct ParseError {
    pub pos: usize,
    pub msg: String,
}

/// A parse failure at the specification level.
pub ghost struct SpecErr {
    pub pos: int,
    pub msg: Seq<char>,
}

/// Whether the executable error is the one the spec names.
pub open spec fn err_matches(e: ParseError, se: SpecErr) -> bool {
    e.pos as int == se.pos && e.msg@ == se.msg
}

/// Builds an error at `pos` whose message is the view of `msg`.
pub fn error_at(pos: usize, msg: &str) -> (r: ParseError)
    ensures
        r.pos == pos,
        r.msg@ == msg@,
{
    ParseError { pos, msg: String::from_str(msg) }
}

/// Strict lexicographic order on character sequences, by code point.
pub open spec fn lex_lt(a: Seq<char>, b: Seq<char>) -> bool
    decreases a.len(),
{
    if b.len() == 0 {
        false
    } else if a.len() == 0 {
        true
    } else if a[0] == b[0] {
        lex_lt(a.drop_first(), b.drop_first())
    } else {
        (a[0] as u32) < (b[0] as u32)
    }
}

/// Compares two strings in the order of [`lex_lt`].
fn lex_lt_exec(a: &str, b: &str) -> (r: bool)
    ensures
        r == lex_lt(a@, b@),
{
    let la = a.unicode_len();
    let lb = b.unicode_len();
    let mut i: usize = 0;
    proof {
        assert(a@.skip(0) =~= a@);
        assert(b@.skip(0) =~= b@);
    }
    loop
        invariant
            i <= la,
            i <= lb,
            la == a@.len(),
            lb == b@.len(),
            lex_lt(a@, b@) == lex_lt(a@.skip(i as int), b@.skip(i as int)),
        decreases la - i,
    {
        if i >= la || i >= lb {
            proof {
                assert(a@.skip(i as int).len() == la - i);
                assert(b@.skip(i as int).len() == lb - i);
            }
            return i == la && i < lb;
        }
        let ca = a.get_char(i);
        let cb = b.get_char(i);
        if ca == cb {
            proof {
                assert(a@.skip(i as int)[0] == a@[i as int]);
                assert(b@.skip(i as int)[0] == b@[i as int]);
                assert(a@.skip(i as int).drop_first() =~= a@.skip(i as int + 1));
                assert(b@.skip(i as int).drop_first() =~= b@.skip(i as int + 1));
            }
            i = i + 1;
        } else {
            proof {
                assert(a@.skip(i as int)[0] == a@[i as int]);
                assert(b@.skip(i as int)[0] == b@[i as int]);
            }
            return (ca as u32) < (cb as u32);
        }
    }
}

/// Inserts `x` into `l` before the first entry not below it; keeps `l`
/// unchanged when that entry equals `x`.  On a sorted list this is ordered,
/// deduplicating insertion.
pub open spec fn spec_insert(l: Seq<Seq<char>>, x: Seq<char>) -> Seq<Seq<char>>
    decreases l.len(),
{
    if l.len() == 0 {
        seq![x]
    } else if lex_lt(l[0], x) {
        seq![l[0]] + spec_insert(l.drop_first(), x)
    } else if l[0] == x {
        l
    } else {
        seq![x] + l
    }
}


/// Inserting never shrinks the list, and always leaves it nonempty.
pub broadcast proof fn lemma_insert_len(l: Seq<Seq<char>>, x: Seq<char>)
    ensures
        #[trigger] spec_insert(l, x).len() >= l.len(),
        spec_insert(l, x).len() >= 1,
    decreases l.len(),
{
    if l.len() > 0 && lex_lt(l[0], x) {
        lemma_insert_len(l.drop_first(), x);
    }
}

/// Inserting keeps every entry and adds the new one.
pub proof fn lemma_insert_contains(l: Seq<Seq<char>>, x: Seq<char>, y: Seq<char>)
    requires
        y == x || l.contains(y),
    ensures
        spec_insert(l, x).contains(y),
    decreases l.len(),
{
    if l.len() == 0 {
        assert(spec_insert(l, x)[0] == y);
    } else if lex_lt(l[0], x) {
        if y == l[0] {
            assert(spec_insert(l, x)[0] == y);
        } else {
            if y != x {
                let i = choose|i: int| 0 <= i < l.len() && l[i] == y;
                assert(l.drop_first()[i - 1] == y);
                assert(l.drop_first().contains(y));
            }
            lemma_insert_contains(l.drop_first(), x, y);
            let i = choose|i: int|
                0 <= i < spec_insert(l.drop_first(), x).len() && spec_insert(
                    l.drop_first(),
                    x,
                )[i] == y;
            assert(spec_insert(l, x)[i + 1] == y);
        }
    } else if l[0] == x {
        if y == x {
            assert(l[0] == y);
        }
    } else {
        if y == x {
            assert(spec_insert(l, x)[0] == y);
        } else {
            let i = choose|i: int| 0 <= i < l.len() && l[i] == y;
            assert(spec_insert(l, x)[i + 1] == y);
        }
    }
}


/// Inserting keeps every entry already present.
pub proof fn lemma_insert_preserves(l: Seq<Seq<char>>, x: Seq<char>)
    ensures
        forall|y: Seq<char>| l.contains(y) ==> #[trigger] spec_insert(l, x).contains(y),
{
    assert forall|y: Seq<char>| l.contains(y) implies spec_insert(l, x).contains(y) by {
        lemma_insert_contains(l, x, y);
    }
}

/// How [`spec_insert`] acts at the first position whose entry is not below
/// `x`: it either leaves the list unchanged or splices `x` in there.
proof fn lemma_insert_at(l: Seq<Seq<char>>, x: Seq<char>, i: int)
    requires
        0 <= i <= l.len(),
        forall|j: int| 0 <= j < i ==> lex_lt(l[j], x),
        i < l.len() ==> !lex_lt(l[i], x),
    ensures
        spec_insert(l, x) == if i < l.len() && l[i] == x {
            l
        } else {
            l.subrange(0, i) + seq![x] + l.subrange(i, l.len() as int)
        },
    decreases l.len(),
{
    if l.len() == 0 {
        assert(spec_insert(l, x) =~= l.subrange(0, 0) + seq![x] + l.subrange(0, 0));
    } else if i == 0 {
        if l[0] == x {
        } else {
            assert(spec_insert(l, x) =~= l.subrange(0, 0) + seq![x] + l.subrange(
                0,
                l.len() as int,
            ));
        }
    } else {
        lemma_insert_at(l.drop_first(), x, i - 1);
        if i < l.len() && l[i] == x {
            assert(l.drop_first()[i - 1] == l[i]);
            assert(spec_insert(l, x) =~= seq![l[0]] + l.drop_first());
            assert(seq![l[0]] + l.drop_first() =~= l);
        } else {
            assert(spec_insert(l, x) =~= seq![l[0]] + (l.drop_first().subrange(0, i - 1) + seq![x]
                + l.drop_first().subrange(i - 1, l.len() - 1)));
            assert(seq![l[0]] + (l.drop_first().subrange(0, i - 1) + seq![x]
                + l.drop_first().subrange(i - 1, l.len() - 1)) =~= l.subrange(0, i) + seq![x]
                + l.subrange(i, l.len() as int));
        }
    }
}

/// Joins entries with `", "` between them.
pub open spec fn spec_join(l: Seq<Seq<char>>) -> Seq<char>
    decreases l.len(),
{
    if l.len() == 0 {
        Seq::empty()
    } else if l.len() == 1 {
        l[0]
    } else {
        l[0] + ", "@ + spec_join(l.drop_first())
    }
}

proof fn lemma_join_snoc(l: Seq<Seq<char>>, i: int)
    requires
        1 <= i < l.len(),
    ensures
        spec_join(l.take(i + 1)) == spec_join(l.take(i)) + ", "@ + l[i],
    decreases i,
{
    if i == 1 {
        assert(l.take(2).drop_first() =~= seq![l[1]]);
        assert(spec_join(l.take(2)) == l.take(2)[0] + ", "@ + spec_join(l.take(2).drop_first()));
        assert(spec_join(l.take(1)) == l[0]);
    } else {
        lemma_join_snoc(l.drop_first(), i - 1);
        assert(l.drop_first().take(i) =~= l.take(i + 1).drop_first());
        assert(l.drop_first().take(i - 1) =~= l.take(i).drop_first());
        assert(l.drop_first()[i - 1] == l[i]);
        assert(spec_join(l.take(i + 1)) == l[0] + ", "@ + spec_join(l.take(i + 1).drop_first()));
        assert(spec_join(l.take(i)) == l[0] + ", "@ + spec_join(l.take(i).drop_first()));
    }
}

/// Wraps a candidate in backticks, as dispatch literals are reported.
pub open spec fn quoted(w: Seq<char>) -> Seq<char> {
    seq!['`'] + w + seq!['`']
}

/// The accumulated set of candidates tried during one dispatch, kept ordered
/// and without duplicates, for building an `expected one of` diagnostic.
#[derive(Debug)]
pub struct TryList {
    pub items: Vec<String>,
}

impl TryList {
    /// The candidate texts, in order.
    pub open spec fn view_seq(self) -> Seq<Seq<char>> {
        self.items@.map_values(|s: String| s@)
    }

    /// An empty list of tried candidates.
    pub fn new() -> (r: TryList)
        ensures
            r.view_seq() =~= Seq::<Seq<char>>::empty(),
    {
        TryList { items: Vec::new() }
    }

    /// Records a literal candidate, reported inside backticks.
    pub fn add_literal(&mut self, lit: &str)
        ensures
            final(self).view_seq() == spec_insert(old(self).view_seq(), quoted(lit@)),
    {
        let mut q = String::from_str("`");
        q.append(lit);
        q.append("`");
        proof {
            reveal_strlit("`");
            assert(q@ =~= quoted(lit@));
        }
        self.add(q.as_str());
    }

    /// Records a candidate described in prose (a value class such as a
    /// length), reported as it is.
    pub fn add(&mut self, ty: &str)
        ensures
            final(self).view_seq() == spec_insert(old(self).view_seq(), ty@),
    {
        let ghost l = self.view_seq();
        let len = self.items.len();
        let mut i: usize = 0;
        while i < len && lex_lt_exec(self.items[i].as_str(), ty)
            invariant
                i <= len,
                len == self.items.len(),
                l == self.view_seq(),
                self == old(self),
                forall|j: int| 0 <= j < i ==> lex_lt(#[trigger] l[j], ty@),
            decreases len - i,
        {
            i = i + 1;
        }
        proof {
            lemma_insert_at(l, ty@, i as int);
        }
        if i < len && str_eq(self.items[i].as_str(), ty) {
            return ;
        }
        self.items.insert(i, String::from_str(ty));
        proof {
            assert(self.view_seq() =~= l.subrange(0, i as int) + seq![ty@] + l.subrange(
                i as int,
                l.len() as int,
            ));
        }
    }

    /// The diagnostic for a failed dispatch at `pos`: `expected one of`
    /// followed by every candidate tried, comma-separated.
    pub fn to_error(&self, pos: usize) -> (r: ParseError)
        requires
            self.view_seq().len() > 0,
        ensures
            r.pos == pos,
            r.msg@ == "expected one of "@ + spec_join(self.view_seq()),
    {
        let ghost l = self.view_seq();
        let mut msg = String::from_str("expected one of ");
        msg.append(self.items[0].as_str());
        let len = self.items.len();
        let mut i: usize = 1;
        while i < len
            invariant
                1 <= i <= len,
                len == self.items.len(),
                l == self.view_seq(),
                l.len() == len,
                msg@ == "expected one of "@ + spec_join(l.take(i as int)),
            decreases len - i,
        {
            msg.append(", ");
            msg.append(self.items[i].as_str());
            proof {
                reveal_strlit(", ");
                lemma_join_snoc(l, i as int);
            }
            i = i + 1;
        }
        proof {
            assert(l.take(len as int) =~= l);
            if len == 1 {
                assert(l.take(1) =~= l);
            }
        }
        ParseError { pos, msg }
    }
}

} // verus!
