//! Key/value pairs in the order of their keys, as a JSON object of string
//! pairs lists them.
use vstd::prelude::*;
use crate::cloud_init::chars_of;

verus! {

/// `a` comes before `b` in the order of strings: character by character,
/// by code point, a proper prefix first.
pub open spec fn key_lt(a: Seq<char>, b: Seq<char>) -> bool
    decreases a.len(),
{
    if a.len() == 0 {
        b.len() > 0
    } else if b.len() == 0 {
        false
    } else if a[0] != b[0] {
        (a[0] as u32) < (b[0] as u32)
    } else {
        key_lt(a.drop_first(), b.drop_first())
    }
}

/// `x` placed before the first pair of `s` whose key is not less than its
/// own, replacing that pair when its key is the same.
pub open spec fn insert_sorted(s: Seq<(String, String)>, x: (String, String)) -> Seq<(String, String)>
    decreases s.len(),
{
    if s.len() == 0 {
        seq![x]
    } else if !key_lt(s[0].0@, x.0@) {
        if s[0].0@ == x.0@ {
            seq![x] + s.drop_first()
        } else {
            seq![x] + s
        }
    } else {
        seq![s[0]] + insert_sorted(s.drop_first(), x)
    }
}

/// The pairs of `s` as a map with string keys holds them: ordered by key,
/// a later pair replacing an earlier one with the same key.
pub open spec fn sorted_by_key(s: Seq<(String, String)>) -> Seq<(String, String)>
    decreases s.len(),
{
    if s.len() == 0 {
        s
    } else {
        insert_sorted(sorted_by_key(s.drop_last()), s.last())
    }
}

fn less(a: &String, b: &String) -> (r: bool)
    ensures
        r == key_lt(a@, b@),
{
    let x = chars_of(a.as_str());
    let y = chars_of(b.as_str());
    let mut i: usize = 0;
    assert(a@.subrange(0, a@.len() as int) =~= a@);
    assert(b@.subrange(0, b@.len() as int) =~= b@);
    while i < x.len() && i < y.len() && x[i] == y[i]
        invariant
            x@ == a@,
            y@ == b@,
            i <= x@.len(),
            i <= y@.len(),
            key_lt(a@, b@) == key_lt(
                a@.subrange(i as int, a@.len() as int),
                b@.subrange(i as int, b@.len() as int),
            ),
        decreases x@.len() - i,
    {
        proof {
            let sa = a@.subrange(i as int, a@.len() as int);
            let sb = b@.subrange(i as int, b@.len() as int);
            assert(sa.drop_first() =~= a@.subrange(i + 1, a@.len() as int));
            assert(sb.drop_first() =~= b@.subrange(i + 1, b@.len() as int));
        }
        i += 1;
    }
    proof {
        let sa = a@.subrange(i as int, a@.len() as int);
        let sb = b@.subrange(i as int, b@.len() as int);
        if i < x.len() && i < y.len() {
            assert(sa[0] == a@[i as int] && sb[0] == b@[i as int]);
        }
    }
    if i == x.len() {
        i < y.len()
    } else if i == y.len() {
        false
    } else {
        (x[i] as u32) < (y[i] as u32)
    }
}

proof fn lemma_insert_at(s: Seq<(String, String)>, x: (String, String), pos: int)
    requires
        0 <= pos <= s.len(),
        forall|j: int| 0 <= j < pos ==> key_lt((#[trigger] s[j]).0@, x.0@),
        pos == s.len() || !key_lt(s[pos].0@, x.0@),
    ensures
        insert_sorted(s, x) == if pos < s.len() && s[pos].0@ == x.0@ {
            s.update(pos, x)
        } else {
            s.subrange(0, pos) + seq![x] + s.subrange(pos, s.len() as int)
        },
    decreases pos,
{
    if pos == 0 {
        if s.len() > 0 && s[0].0@ == x.0@ {
            assert(seq![x] + s.drop_first() =~= s.update(0, x));
        } else {
            assert(s.subrange(0, 0) + seq![x] + s.subrange(0, s.len() as int) =~= seq![x] + s);
        }
    } else {
        let t = s.drop_first();
        assert forall|j: int| 0 <= j < pos - 1 implies key_lt((#[trigger] t[j]).0@, x.0@) by {
            assert(t[j] == s[j + 1]);
        }
        if pos < s.len() {
            assert(t[pos - 1] == s[pos]);
        }
        lemma_insert_at(t, x, pos - 1);
        assert(key_lt(s[0].0@, x.0@));
        if pos < s.len() && s[pos].0@ == x.0@ {
            assert(seq![s[0]] + t.update(pos - 1, x) =~= s.update(pos, x));
        } else {
            assert(seq![s[0]] + (t.subrange(0, pos - 1) + seq![x] + t.subrange(
                pos - 1,
                t.len() as int,
            )) =~= s.subrange(0, pos) + seq![x] + s.subrange(pos, s.len() as int));
        }
    }
}

fn copy_pair(p: &(String, String)) -> (r: (String, String))
    ensures
        r == *p,
{
    (p.0.clone(), p.1.clone())
}

/// The pairs of `entries`, ordered by key.
pub fn sort_by_key(entries: &Vec<(String, String)>) -> (r: Vec<(String, String)>)
    ensures
        r@ == sorted_by_key(entries@),
{
    let mut out: Vec<(String, String)> = Vec::new();
    let mut i: usize = 0;
    while i < entries.len()
        invariant
            i <= entries@.len(),
            out@ == sorted_by_key(entries@.subrange(0, i as int)),
        decreases entries@.len() - i,
    {
        let x = copy_pair(&entries[i]);
        let mut pos: usize = 0;
        while pos < out.len() && less(&out[pos].0, &x.0)
            invariant
                pos <= out@.len(),
                forall|j: int| 0 <= j < pos ==> key_lt((#[trigger] out@[j]).0@, x.0@),
            decreases out@.len() - pos,
        {
            pos += 1;
        }
        proof {
            lemma_insert_at(out@, x, pos as int);
            let pre = entries@.subrange(0, i as int + 1);
            assert(pre.drop_last() =~= entries@.subrange(0, i as int));
            assert(pre.last() == entries@[i as int]);
        }
        let ghost before = out@;
        if pos < out.len() && out[pos].0 == x.0 {
            out.set(pos, x);
        } else {
            out.insert(pos, x);
            assert(out@ =~= before.subrange(0, pos as int) + seq![x] + before.subrange(
                pos as int,
                before.len() as int,
            ));
        }
        i += 1;
    }
    assert(entries@.subrange(0, entries@.len() as int) =~= entries@);
    out
}

} // verus!
