//! The extra arguments common to a user's deployments or stacks: every
//! argument any of them uses, once each, in string order.
use crate::connection::str_eq;
use crate::text::string_views;
use vstd::prelude::*;
use vstd::utf8::encode_utf8;

verus! {

broadcast use vstd::utf8::encode_utf8_decode_utf8;

/// Whether byte string `x` comes before `y` in lexicographic order.
pub open spec fn bytes_less(x: Seq<u8>, y: Seq<u8>) -> bool
    decreases x.len(),
{
    if x.len() == 0 {
        y.len() > 0
    } else if y.len() == 0 {
        false
    } else if x[0] != y[0] {
        x[0] < y[0]
    } else {
        bytes_less(x.drop_first(), y.drop_first())
    }
}

/// Whether string `a` comes before `b`: by their UTF-8 bytes.
pub open spec fn str_less_spec(a: Seq<char>, b: Seq<char>) -> bool {
    bytes_less(encode_utf8(a), encode_utf8(b))
}

/// `<` on `str`: strings are ordered lexicographically by their bytes.
#[verifier::external_body]
pub(crate) fn str_less(a: &str, b: &str) -> (r: bool)
    ensures
        r == str_less_spec(a@, b@),
{
    a < b
}

/// No byte string comes before itself.
pub proof fn lemma_bytes_less_irreflexive(x: Seq<u8>)
    ensures
        !bytes_less(x, x),
    decreases x.len(),
{
    if x.len() > 0 {
        lemma_bytes_less_irreflexive(x.drop_first());
    }
}

/// The order on byte strings is transitive.
pub proof fn lemma_bytes_less_transitive(x: Seq<u8>, y: Seq<u8>, z: Seq<u8>)
    requires
        bytes_less(x, y),
        bytes_less(y, z),
    ensures
        bytes_less(x, z),
    decreases x.len(),
{
    if x.len() > 0 && y.len() > 0 && z.len() > 0 && x[0] == y[0] && y[0] == z[0] {
        lemma_bytes_less_transitive(x.drop_first(), y.drop_first(), z.drop_first());
    }
}

/// Of two different byte strings, one comes before the other.
pub proof fn lemma_bytes_less_total(x: Seq<u8>, y: Seq<u8>)
    requires
        x != y,
    ensures
        bytes_less(x, y) || bytes_less(y, x),
    decreases x.len(),
{
    if x.len() > 0 && y.len() > 0 && x[0] == y[0] {
        if x.drop_first() == y.drop_first() {
            assert(x =~= seq![x[0]] + x.drop_first());
            assert(y =~= seq![y[0]] + y.drop_first());
        }
        lemma_bytes_less_total(x.drop_first(), y.drop_first());
    } else if x.len() == 0 && y.len() == 0 {
        assert(x =~= y);
    }
}

/// Of two different strings, one comes before the other.
pub proof fn lemma_str_less_total(a: Seq<char>, b: Seq<char>)
    requires
        a != b,
    ensures
        str_less_spec(a, b) || str_less_spec(b, a),
{
    if encode_utf8(a) == encode_utf8(b) {
        assert(vstd::utf8::decode_utf8(encode_utf8(a)) == a);
        assert(vstd::utf8::decode_utf8(encode_utf8(b)) == b);
    }
    lemma_bytes_less_total(encode_utf8(a), encode_utf8(b));
}

/// No string comes before itself.
pub proof fn lemma_str_less_irreflexive(a: Seq<char>)
    ensures
        !str_less_spec(a, a),
{
    lemma_bytes_less_irreflexive(encode_utf8(a));
}

/// The order on strings is transitive.
pub proof fn lemma_str_less_transitive(a: Seq<char>, b: Seq<char>, c: Seq<char>)
    requires
        str_less_spec(a, b),
        str_less_spec(b, c),
    ensures
        str_less_spec(a, c),
{
    lemma_bytes_less_transitive(encode_utf8(a), encode_utf8(b), encode_utf8(c));
}

/// Whether the strings are in increasing string order, each once.
pub open spec fn strictly_sorted(s: Seq<Seq<char>>) -> bool {
    forall|i: int, j: int| 0 <= i < j < s.len() ==> str_less_spec(#[trigger] s[i], #[trigger] s[j])
}

/// Adds `x` to a list in increasing string order unless it is there.
fn insert_sorted_unique(r: &mut Vec<String>, x: &String)
    requires
        strictly_sorted(string_views(old(r)@)),
    ensures
        strictly_sorted(string_views(final(r)@)),
        forall|y: Seq<char>|
            string_views(final(r)@).contains(y) <==> (string_views(old(r)@).contains(y) || y == x@),
{
    let ghost before = string_views(r@);
    let mut k: usize = 0;
    while k < r.len() && str_less(r[k].as_str(), x.as_str())
        invariant
            k <= r.len(),
            before == string_views(r@),
            strictly_sorted(before),
            forall|j: int| 0 <= j < k ==> str_less_spec(#[trigger] before[j], x@),
        decreases r.len() - k,
    {
        k = k + 1;
    }
    if k < r.len() && str_eq(r[k].as_str(), x.as_str()) {
        assert(before[k as int] == x@);
        return;
    }
    proof {
        if k < r.len() {
            lemma_str_less_total(before[k as int], x@);
            assert(str_less_spec(x@, before[k as int]));
        }
    }
    r.insert(k, x.clone());
    let ghost after = string_views(r@);
    assert(after =~= before.insert(k as int, x@));
    assert forall|i: int, j: int| 0 <= i < j < after.len() implies str_less_spec(
        #[trigger] after[i],
        #[trigger] after[j],
    ) by {
        if i < k && j == k {
        } else if i < k && j > k {
            assert(after[i] == before[i]);
            assert(after[j] == before[j - 1]);
        } else if i == k && j > k {
            assert(after[j] == before[j - 1]);
            if j - 1 > k {
                assert(str_less_spec(before[k as int], before[j - 1]));
                lemma_bytes_less_transitive(encode_utf8(x@), encode_utf8(before[k as int]), encode_utf8(before[j - 1]));
            }
        } else if i > k {
            assert(after[i] == before[i - 1]);
            assert(after[j] == before[j - 1]);
        }
    }
    assert forall|y: Seq<char>| after.contains(y) <==> (before.contains(y) || y == x@) by {
        if after.contains(y) {
            let i = choose|i: int| 0 <= i < after.len() && after[i] == y;
            if i < k {
                assert(before[i] == y);
            } else if i > k {
                assert(before[i - 1] == y);
            }
        }
        if before.contains(y) {
            let i = choose|i: int| 0 <= i < before.len() && before[i] == y;
            if i < k {
                assert(after[i] == y);
            } else {
                assert(after[i + 1] == y);
            }
        }
        if y == x@ {
            assert(after[k as int] == y);
        }
    }
}

/// Whether string `y` is among the strings of some list in `lists`.
pub open spec fn used_by_any(lists: Seq<Vec<String>>, y: Seq<char>) -> bool {
    exists|i: int| 0 <= i < lists.len() && #[trigger] string_views(lists[i]@).contains(y)
}

/// The extra arguments common to a list of resources, given the extra
/// arguments of each: every argument that any of them uses, once each,
/// in increasing string order.
pub fn common_extra_args(per_resource: &Vec<Vec<String>>) -> (r: Vec<String>)
    ensures
        strictly_sorted(string_views(r@)),
        forall|y: Seq<char>| string_views(r@).contains(y) <==> used_by_any(per_resource@, y),
{
    let mut r: Vec<String> = Vec::new();
    let mut i: usize = 0;
    while i < per_resource.len()
        invariant
            i <= per_resource.len(),
            strictly_sorted(string_views(r@)),
            forall|y: Seq<char>|
                string_views(r@).contains(y) <==> used_by_any(per_resource@.take(i as int), y),
        decreases per_resource.len() - i,
    {
        let args = &per_resource[i];
        let ghost before_i = string_views(r@);
        let mut j: usize = 0;
        while j < args.len()
            invariant
                i < per_resource.len(),
                args == per_resource@[i as int],
                j <= args.len(),
                strictly_sorted(string_views(r@)),
                forall|y: Seq<char>|
                    string_views(r@).contains(y) <==> (used_by_any(per_resource@.take(i as int), y)
                        || string_views(args@.take(j as int)).contains(y)),
            decreases args.len() - j,
        {
            let ghost before_j = string_views(r@);
            insert_sorted_unique(&mut r, &args[j]);
            let ghost prev = string_views(args@.take(j as int));
            let ghost next = string_views(args@.take(j + 1));
            assert(next =~= prev.push(args@[j as int]@));
            assert forall|y: Seq<char>|
                string_views(r@).contains(y) <==> (used_by_any(per_resource@.take(i as int), y)
                    || next.contains(y)) by {
                if next.contains(y) && y != args@[j as int]@ {
                    let t = choose|t: int| 0 <= t < next.len() && #[trigger] next[t] == y;
                    assert(prev[t] == y);
                }
                if prev.contains(y) {
                    let t = choose|t: int| 0 <= t < prev.len() && #[trigger] prev[t] == y;
                    assert(next[t] == y);
                }
                if y == args@[j as int]@ {
                    assert(next[j as int] == y);
                }
            }
            j = j + 1;
        }
        assert forall|y: Seq<char>|
            string_views(r@).contains(y) <==> used_by_any(per_resource@.take(i + 1), y) by {
            assert(args@.take(j as int) =~= args@);
            if used_by_any(per_resource@.take(i + 1), y) {
                let t = choose|t: int| 0 <= t < i + 1 && #[trigger] string_views(per_resource@.take(i + 1)[t]@).contains(y);
                if t < i {
                    assert(per_resource@.take(i as int)[t] == per_resource@.take(i + 1)[t]);
                }
            }
            if used_by_any(per_resource@.take(i as int), y) {
                let t = choose|t: int| 0 <= t < i && #[trigger] string_views(per_resource@.take(i as int)[t]@).contains(y);
                assert(per_resource@.take(i + 1)[t] == per_resource@.take(i as int)[t]);
            }
            if string_views(args@).contains(y) {
                assert(per_resource@.take(i + 1)[i as int] == args);
            }
        }
        i = i + 1;
    }
    assert(per_resource@.take(per_resource.len() as int) =~= per_resource@);
    r
}

} // verus!
