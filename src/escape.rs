use vstd::prelude::*;

use crate::text::{chars_of, string_from};

verus! {

/// `t` cut at its first `|`: what stands before it and what stands after it.
pub open spec fn split_at_bar(t: Seq<char>) -> Option<(Seq<char>, Seq<char>)>
    decreases t.len(),
{
    if t.len() == 0 {
        None
    } else if t[0] == '|' {
        Some((Seq::<char>::empty(), t.drop_first()))
    } else {
        match split_at_bar(t.drop_first()) {
            Some(p) => Some((seq![t[0]] + p.0, p.1)),
            None => None,
        }
    }
}

/// The id and display name of a user-mention token `<@ID|DISPLAY>`: the text
/// between `<@` and the final `>`, cut at its first `|`.
pub open spec fn parse_mention(s: Seq<char>) -> Option<(Seq<char>, Seq<char>)> {
    if s.len() >= 3 && s[0] == '<' && s[1] == '@' && s[s.len() - 1] == '>' {
        split_at_bar(s.subrange(2, s.len() - 1))
    } else {
        None
    }
}

proof fn split_at_first_bar(t: Seq<char>, i: int)
    requires
        0 <= i <= t.len(),
        forall|k: int| 0 <= k < i ==> t[k] != '|',
    ensures
        i < t.len() && t[i] == '|' ==> split_at_bar(t) == Some(
            (t.subrange(0, i), t.subrange(i + 1, t.len() as int)),
        ),
        i == t.len() ==> split_at_bar(t) is None,
    decreases i,
{
    if i > 0 {
        let u = t.drop_first();
        split_at_first_bar(u, i - 1);
        assert(seq![t[0]] + u.subrange(0, i - 1) =~= t.subrange(0, i));
        if i < t.len() {
            assert(u.subrange(i, u.len() as int) =~= t.subrange(i + 1, t.len() as int));
        }
    } else if t.len() > 0 {
        assert(t.subrange(0, 0) =~= Seq::<char>::empty());
        assert(t.drop_first() =~= t.subrange(1, t.len() as int));
    }
}

/// A user reference: the user's id and the name to show for them.
pub struct SlackEscape {
    pub id: String,
    pub display: String,
}

impl SlackEscape {
    /// Reads a user-mention token `<@ID|DISPLAY>`; `None` where `s` does not
    /// have that shape.
    pub fn parse(s: &str) -> (r: Option<SlackEscape>)
        ensures
            match parse_mention(s@) {
                Some(p) => r is Some && r->0.id@ == p.0 && r->0.display@ == p.1,
                None => r is None,
            },
    {
        let cs = chars_of(s);
        let n = cs.len();
        if n < 3 || cs[0] != '<' || cs[1] != '@' || cs[n - 1] != '>' {
            return None;
        }
        let ghost inner = s@.subrange(2, n - 1);
        let mut j: usize = 2;
        while j < n - 1 && cs[j] != '|'
            invariant
                2 <= j <= n - 1,
                n == cs.len(),
                cs@ == s@,
                inner == s@.subrange(2, n - 1),
                forall|k: int| 0 <= k < j - 2 ==> inner[k] != '|',
            decreases n - j,
        {
            j = j + 1;
        }
        proof {
            split_at_first_bar(inner, j - 2);
        }
        if j == n - 1 {
            return None;
        }
        let id = string_from(&cs, 2, j);
        let display = string_from(&cs, j + 1, n - 1);
        assert(inner.subrange(0, j - 2) =~= cs@.subrange(2, j as int));
        assert(inner.subrange(j - 1, inner.len() as int) =~= cs@.subrange(j + 1, n - 1));
        Some(SlackEscape { id, display })
    }

    /// Reads a user-mention token `<@ID|DISPLAY>`, which `s` must be.
    pub fn from(s: String) -> (r: SlackEscape)
        requires
            parse_mention(s@) is Some,
        ensures
            r.id@ == (parse_mention(s@)->0).0,
            r.display@ == (parse_mention(s@)->0).1,
    {
        match SlackEscape::parse(s.as_str()) {
            Some(e) => e,
            None => SlackEscape { id: String::new(), display: String::new() },
        }
    }
}

} // verus!
