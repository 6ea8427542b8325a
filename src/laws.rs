use vstd::prelude::*;

use crate::template::{fill_all, placeholder};
use crate::text::{join, replace_all};

verus! {

/// Whether `p` occurs in `s` as a contiguous run of characters.
pub open spec fn occurs_in(s: Seq<char>, p: Seq<char>) -> bool {
    exists|i: int| 0 <= i && i + p.len() <= s.len() && #[trigger] s.subrange(i, i + p.len()) == p
}

/// The stretches of `s` between the occurrences of `pat` that a scan from the
/// start replaces.
pub open spec fn pieces(s: Seq<char>, pat: Seq<char>) -> Seq<Seq<char>>
    decreases s.len(),
{
    if pat.len() == 0 || s.len() < pat.len() {
        seq![s]
    } else if s.subrange(0, pat.len() as int) == pat {
        seq![Seq::<char>::empty()] + pieces(s.subrange(pat.len() as int, s.len() as int), pat)
    } else {
        let rest = pieces(s.subrange(1, s.len() as int), pat);
        rest.update(0, seq![s[0]] + rest[0])
    }
}

proof fn join_extends_first(parts: Seq<Seq<char>>, sep: Seq<char>, x: Seq<char>)
    requires
        parts.len() >= 1,
    ensures
        join(parts.update(0, x + parts[0]), sep) == x + join(parts, sep),
{
    let q = parts.update(0, x + parts[0]);
    if parts.len() > 1 {
        assert(q.drop_first() =~= parts.drop_first());
        assert(join(q, sep) =~= x + join(parts, sep));
    }
}

proof fn no_occurrence_keeps_text(s: Seq<char>, pat: Seq<char>, val: Seq<char>)
    requires
        pat.len() > 0,
        !occurs_in(s, pat),
    ensures
        replace_all(s, pat, val) == s,
    decreases s.len(),
{
    if s.len() >= pat.len() {
        let rest = s.subrange(1, s.len() as int);
        assert(s.subrange(0, pat.len() as int) != pat) by {
            if s.subrange(0, pat.len() as int) == pat {
                assert(s.subrange(0int, 0int + pat.len()) == pat);
            }
        }
        assert(!occurs_in(rest, pat)) by {
            if occurs_in(rest, pat) {
                let i = choose|i: int|
                    0 <= i && i + pat.len() <= rest.len() && #[trigger] rest.subrange(
                        i,
                        i + pat.len(),
                    ) == pat;
                assert(s.subrange(i + 1, i + 1 + pat.len()) =~= rest.subrange(i, i + pat.len()));
            }
        }
        no_occurrence_keeps_text(rest, pat, val);
        assert(seq![s[0]] + rest =~= s);
    }
}

proof fn pieces_facts(s: Seq<char>, pat: Seq<char>, val: Seq<char>)
    requires
        pat.len() > 0,
    ensures
        pieces(s, pat).len() >= 1,
        pieces(s, pat)[0].len() <= s.len(),
        s.subrange(0, pieces(s, pat)[0].len() as int) == pieces(s, pat)[0],
        join(pieces(s, pat), pat) == s,
        join(pieces(s, pat), val) == replace_all(s, pat, val),
        forall|k: int| 0 <= k < pieces(s, pat).len() ==> !occurs_in(#[trigger] pieces(s, pat)[k], pat),
    decreases s.len(),
{
    let ps = pieces(s, pat);
    if s.len() < pat.len() {
        assert(s.subrange(0, s.len() as int) =~= s);
        assert(!occurs_in(s, pat));
    } else if s.subrange(0, pat.len() as int) == pat {
        let rest = s.subrange(pat.len() as int, s.len() as int);
        pieces_facts(rest, pat, val);
        let pr = pieces(rest, pat);
        assert(ps.drop_first() =~= pr);
        assert(s.subrange(0, 0) =~= Seq::<char>::empty());
        assert(join(ps, pat) =~= s);
        assert(join(ps, val) =~= replace_all(s, pat, val));
        assert forall|k: int| 0 <= k < ps.len() implies !occurs_in(#[trigger] ps[k], pat) by {
            if k > 0 {
                assert(ps[k] == pr[k - 1]);
            }
        }
    } else {
        let rest = s.subrange(1, s.len() as int);
        pieces_facts(rest, pat, val);
        let pr = pieces(rest, pat);
        join_extends_first(pr, pat, seq![s[0]]);
        join_extends_first(pr, val, seq![s[0]]);
        assert(seq![s[0]] + rest =~= s);
        assert(s.subrange(0, ps[0].len() as int) =~= ps[0]);
        assert forall|k: int| 0 <= k < ps.len() implies !occurs_in(#[trigger] ps[k], pat) by {
            if k == 0 {
                let p0 = ps[0];
                if occurs_in(p0, pat) {
                    let i = choose|i: int|
                        0 <= i && i + pat.len() <= p0.len() && #[trigger] p0.subrange(
                            i,
                            i + pat.len(),
                        ) == pat;
                    if i == 0 {
                        assert(s.subrange(0, pat.len() as int) =~= p0.subrange(0, pat.len() as int));
                    } else {
                        assert(pr[0].subrange(i - 1, i - 1 + pat.len()) =~= p0.subrange(
                            i,
                            i + pat.len(),
                        ));
                    }
                }
            } else {
                assert(ps[k] == pr[k]);
            }
        }
    }
}

/// Filling with an empty mapping returns the document unchanged.
pub proof fn fill_with_no_pairs(doc: Seq<char>)
    ensures
        fill_all(doc, Seq::<(Seq<char>, Seq<char>)>::empty()) == doc,
{
}

/// Filling leaves the document unchanged when the placeholder of no key of the
/// mapping occurs in it.
pub proof fn fill_without_placeholders(doc: Seq<char>, args: Seq<(Seq<char>, Seq<char>)>)
    requires
        forall|k: int| 0 <= k < args.len() ==> !occurs_in(doc, #[trigger] placeholder(args[k].0)),
    ensures
        fill_all(doc, args) == doc,
    decreases args.len(),
{
    if args.len() > 0 {
        assert(placeholder(args[0].0).len() > 0);
        no_occurrence_keeps_text(doc, placeholder(args[0].0), args[0].1);
        let tail = args.drop_first();
        assert forall|k: int| 0 <= k < tail.len() implies !occurs_in(
            doc,
            #[trigger] placeholder(tail[k].0),
        ) by {
            assert(tail[k] == args[k + 1]);
        }
        fill_without_placeholders(doc, tail);
    }
}

/// Filling with one key replaces every occurrence of its placeholder, not just
/// the first: the document is cut at those occurrences into pieces none of
/// which holds the placeholder, and the result is the same pieces with the
/// value between each two.
pub proof fn fill_replaces_every_occurrence(doc: Seq<char>, key: Seq<char>, value: Seq<char>)
    ensures
        ({
            let parts = pieces(doc, placeholder(key));
            &&& join(parts, placeholder(key)) == doc
            &&& fill_all(doc, seq![(key, value)]) == join(parts, value)
            &&& forall|k: int| 0 <= k < parts.len() ==> !occurs_in(#[trigger] parts[k], placeholder(key))
        }),
{
    let args = seq![(key, value)];
    pieces_facts(doc, placeholder(key), value);
    assert(args.drop_first() =~= Seq::<(Seq<char>, Seq<char>)>::empty());
    assert(args[0] == (key, value));
    let once = replace_all(doc, placeholder(key), value);
    assert(fill_all(once, args.drop_first()) == once);
    assert(fill_all(doc, args) == fill_all(once, args.drop_first()));
}

} // verus!
