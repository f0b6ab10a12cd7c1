use vstd::prelude::*;

verus! {

/// The mathematical model of joining two path fragments: the left fragment,
/// a single separator, then the right fragment.
pub open spec fn join_seq(a: Seq<char>, b: Seq<char>) -> Seq<char> {
    a + seq!['/'] + b
}

/// Joining is associative: an absolute path built in two steps (root joined
/// with the base name, then with a child name) equals the root joined with
/// the relative name built from the same two pieces.
pub proof fn lemma_join_assoc(a: Seq<char>, b: Seq<char>, c: Seq<char>)
    ensures
        join_seq(a, join_seq(b, c)) == join_seq(join_seq(a, b), c),
{
    assert(join_seq(a, join_seq(b, c)) =~= join_seq(join_seq(a, b), c));
}

/// Two relative names joined to the same base give the same path only if
/// they are the same name.
pub proof fn lemma_join_injective(a: Seq<char>, b1: Seq<char>, b2: Seq<char>)
    requires
        join_seq(a, b1) == join_seq(a, b2),
    ensures
        b1 == b2,
{
    assert(join_seq(a, b1).len() == a.len() + 1 + b1.len());
    assert(join_seq(a, b2).len() == a.len() + 1 + b2.len());
    assert(b1.len() == b2.len());
    assert forall|i: int| 0 <= i < b1.len() implies b1[i] == b2[i] by {
        assert(join_seq(a, b1)[a.len() + 1 + i] == b1[i]);
        assert(join_seq(a, b2)[a.len() + 1 + i] == b2[i]);
    }
    assert(b1 =~= b2);
}

/// Executable path join with a single slash as the separator.
pub fn join_path(a: &str, b: &str) -> (r: String)
    ensures
        r@ == join_seq(a@, b@),
{
    let mut r: String = a.to_owned();
    r.append("/");
    r.append(b);
    proof {
        reveal_strlit("/");
        assert(r@ =~= join_seq(a@, b@));
    }
    r
}

/// A directory entry is hidden when its name starts with a dot.
pub open spec fn hidden_name(name: Seq<char>) -> bool {
    name.len() > 0 && name[0] == '.'
}

/// Executable test for a hidden entry name.
pub fn is_hidden(name: &str) -> (r: bool)
    ensures
        r == hidden_name(name@),
{
    if name.unicode_len() == 0 {
        false
    } else {
        name.get_char(0) == '.'
    }
}

} // verus!
