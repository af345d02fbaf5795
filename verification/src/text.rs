use vstd::prelude::*;
use vstd::string::*;

verus! {

/// Views of a sequence of owned strings.
pub open spec fn views(s: Seq<String>) -> Seq<Seq<char>> {
    s.map_values(|x: String| x@)
}

/// The parts joined with single spaces, as `[&str]::join(" ")` does.
pub open spec fn join_spaces(parts: Seq<Seq<char>>) -> Seq<char>
    decreases parts.len(),
{
    if parts.len() == 0 {
        Seq::empty()
    } else if parts.len() == 1 {
        parts[0]
    } else {
        join_spaces(parts.drop_last()) + seq![' '] + parts.last()
    }
}

/// The path of a child below its parent path: the joined parent, a space when
/// that join is not empty, then the child name.
pub open spec fn child_path(parent: Seq<Seq<char>>, child: Seq<char>) -> Seq<char> {
    let joined = join_spaces(parent);
    if joined.len() == 0 {
        child
    } else {
        joined + seq![' '] + child
    }
}

/// Lexicographic order of character sequences by code point.
pub open spec fn seq_lt(a: Seq<char>, b: Seq<char>) -> bool
    decreases a.len(),
{
    if a.len() == 0 {
        b.len() > 0
    } else if b.len() == 0 {
        false
    } else if a[0] != b[0] {
        (a[0] as int) < (b[0] as int)
    } else {
        seq_lt(a.drop_first(), b.drop_first())
    }
}

pub proof fn lemma_seq_lt_irreflexive(a: Seq<char>)
    ensures
        !seq_lt(a, a),
    decreases a.len(),
{
    if a.len() > 0 {
        lemma_seq_lt_irreflexive(a.drop_first());
    }
}

pub proof fn lemma_seq_lt_trichotomy(a: Seq<char>, b: Seq<char>)
    ensures
        seq_lt(a, b) || seq_lt(b, a) || a == b,
    decreases a.len(),
{
    if a.len() > 0 && b.len() > 0 {
        if a[0] == b[0] {
            lemma_seq_lt_trichotomy(a.drop_first(), b.drop_first());
            if a.drop_first() == b.drop_first() {
                assert(a =~= seq![a[0]] + a.drop_first());
                assert(b =~= seq![b[0]] + b.drop_first());
            }
        } else {
            assert((a[0] as int) != (b[0] as int));
        }
    } else if a.len() == 0 && b.len() == 0 {
        assert(a =~= b);
    }
}

pub proof fn lemma_seq_lt_transitive(a: Seq<char>, b: Seq<char>, c: Seq<char>)
    requires
        seq_lt(a, b),
        seq_lt(b, c),
    ensures
        seq_lt(a, c),
    decreases a.len(),
{
    if a.len() > 0 && b.len() > 0 && c.len() > 0 {
        if a[0] == b[0] && b[0] == c[0] {
            lemma_seq_lt_transitive(a.drop_first(), b.drop_first(), c.drop_first());
        }
    }
}

/// Copies a slice of owned strings.
pub fn clone_strings(parts: &[String]) -> (copy: Vec<String>)
    ensures
        copy@ == parts@,
{
    let mut copy: Vec<String> = Vec::new();
    let mut i: usize = 0;
    while i < parts.len()
        invariant
            i <= parts@.len(),
            copy@ == parts@.take(i as int),
        decreases parts@.len() - i,
    {
        copy.push(parts[i].clone());
        assert(copy@ =~= parts@.take(i as int + 1));
        i = i + 1;
    }
    assert(parts@.take(parts@.len() as int) =~= parts@);
    copy
}

/// Joins path parts with single spaces.
pub fn join_path(parts: &[String]) -> (joined: String)
    ensures
        joined@ == join_spaces(views(parts@)),
{
    let mut joined = String::new();
    let mut i: usize = 0;
    while i < parts.len()
        invariant
            i <= parts@.len(),
            joined@ == join_spaces(views(parts@.take(i as int))),
        decreases parts@.len() - i,
    {
        assert(views(parts@.take(i as int + 1)).drop_last() =~= views(parts@.take(i as int)));
        assert(views(parts@.take(i as int + 1)).last() == parts@[i as int]@);
        if i > 0 {
            proof {
                reveal_strlit(" ");
            }
            joined.append(" ");
        }
        joined.append(parts[i].as_str());
        proof {
            if i == 0 {
                assert(joined@ =~= parts@[0]@);
            } else {
                assert(joined@ =~= join_spaces(views(parts@.take(i as int))) + seq![' '] + parts@[i as int]@);
            }
        }
        i = i + 1;
    }
    assert(parts@.take(parts@.len() as int) =~= parts@);
    joined
}

/// Formats the space-separated path of a child command below `parent`.
pub fn format_path(parent: &[String], child: &str) -> (path: String)
    ensures
        path@ == child_path(views(parent@), child@),
{
    let mut path = join_path(parent);
    proof {
        reveal_strlit(" ");
    }
    if path.unicode_len() > 0 {
        path.append(" ");
    }
    path.append(child);
    path
}

/// Whether `a` precedes `b` in lexicographic code-point order.
pub fn str_lt(a: &str, b: &str) -> (lt: bool)
    ensures
        lt == seq_lt(a@, b@),
{
    let a_len = a.unicode_len();
    let b_len = b.unicode_len();
    let mut i: usize = 0;
    assert(a@.skip(0) =~= a@);
    assert(b@.skip(0) =~= b@);
    while i < a_len && i < b_len
        invariant
            a_len == a@.len(),
            b_len == b@.len(),
            i <= a_len,
            i <= b_len,
            a@.take(i as int) == b@.take(i as int),
            seq_lt(a@, b@) == seq_lt(a@.skip(i as int), b@.skip(i as int)),
        decreases a_len - i,
    {
        let ca = a.get_char(i);
        let cb = b.get_char(i);
        assert(a@.skip(i as int)[0] == ca);
        assert(b@.skip(i as int)[0] == cb);
        if ca != cb {
            return (ca as u32) < (cb as u32);
        }
        assert(a@.skip(i as int).drop_first() =~= a@.skip(i as int + 1));
        assert(b@.skip(i as int).drop_first() =~= b@.skip(i as int + 1));
        assert(a@.take(i as int + 1) =~= a@.take(i as int).push(ca));
        assert(b@.take(i as int + 1) =~= b@.take(i as int).push(cb));
        i = i + 1;
    }
    i < b_len
}

/// Whether two strings hold the same characters.
pub fn str_eq(a: &str, b: &str) -> (eq: bool)
    ensures
        eq == (a@ == b@),
{
    let a_len = a.unicode_len();
    let b_len = b.unicode_len();
    if a_len != b_len {
        return false;
    }
    let mut i: usize = 0;
    while i < a_len
        invariant
            a_len == a@.len(),
            b_len == b@.len(),
            a_len == b_len,
            i <= a_len,
            a@.take(i as int) == b@.take(i as int),
        decreases a_len - i,
    {
        if a.get_char(i) != b.get_char(i) {
            return false;
        }
        assert(a@.take(i as int + 1) =~= a@.take(i as int).push(a@[i as int]));
        assert(b@.take(i as int + 1) =~= b@.take(i as int).push(b@[i as int]));
        i = i + 1;
    }
    assert(a@ =~= a@.take(a_len as int));
    assert(b@ =~= b@.take(b_len as int));
    true
}

} // verus!
