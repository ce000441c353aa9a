//! The order terminals are listed in: by target (server terminals, then
//! container, stack and deployment terminals, each by the names that
//! identify them), then by name.
use crate::extra_args::{
    lemma_str_less_irreflexive, lemma_str_less_total, lemma_str_less_transitive, str_less, str_less_spec,
};
use crate::connection::str_eq;
use crate::terminal::{Terminal, TerminalTarget};
use vstd::prelude::*;

verus! {

/// One part of a sort key: a tag, then a string.
pub type KeyPart = (u8, Seq<char>);

/// Whether part `a` comes before part `b`: by tag, then by string.
pub open spec fn part_less(a: KeyPart, b: KeyPart) -> bool {
    a.0 < b.0 || (a.0 == b.0 && str_less_spec(a.1, b.1))
}

/// Whether key `x` comes before key `y`: part by part, a key that ends
/// first coming first.
pub open spec fn key_less(x: Seq<KeyPart>, y: Seq<KeyPart>) -> bool
    decreases x.len(),
{
    if x.len() == 0 {
        y.len() > 0
    } else if y.len() == 0 {
        false
    } else if x[0] != y[0] {
        part_less(x[0], y[0])
    } else {
        key_less(x.drop_first(), y.drop_first())
    }
}

/// The key part of an optional name: absent before any name.
pub open spec fn optional_part(s: Option<String>) -> KeyPart {
    match s {
        None => (0u8, Seq::empty()),
        Some(v) => (1u8, v@),
    }
}

/// The key a terminal is sorted by: the kind of its target, the names
/// that identify the target, then the terminal's name.
pub open spec fn terminal_key(t: Terminal) -> Seq<KeyPart> {
    let target = match t.target {
        TerminalTarget::Server { server } => seq![(0u8, Seq::empty()), optional_part(server)],
        TerminalTarget::Container { server, container } => seq![
            (1u8, Seq::empty()),
            (0u8, server@),
            (0u8, container@),
        ],
        TerminalTarget::Stack { stack, service } => seq![(2u8, Seq::empty()), (0u8, stack@), optional_part(service)],
        TerminalTarget::Deployment { deployment } => seq![(3u8, Seq::empty()), (0u8, deployment@)],
    };
    target.push((0u8, t.name@))
}

/// Whether the terminal at index `i` is listed before the one at `j`:
/// by key, and in the order found when the keys are equal.
pub open spec fn listed_before(terminals: Seq<Terminal>, i: int, j: int) -> bool {
    key_less(terminal_key(terminals[i]), terminal_key(terminals[j])) || (terminal_key(terminals[i])
        == terminal_key(terminals[j]) && i < j)
}

/// Whether `order` lists each index of `terminals` once, in listing
/// order.
pub open spec fn is_terminal_order(terminals: Seq<Terminal>, order: Seq<usize>) -> bool {
    &&& order.len() == terminals.len()
    &&& forall|k: int| 0 <= k < order.len() ==> #[trigger] order[k] < terminals.len()
    &&& forall|k: int, l: int|
        0 <= k < l < order.len() ==> listed_before(terminals, #[trigger] order[k] as int, #[trigger] order[l] as int)
}

/// No key comes before itself.
pub proof fn lemma_key_less_irreflexive(x: Seq<KeyPart>)
    ensures
        !key_less(x, x),
    decreases x.len(),
{
    if x.len() > 0 {
        lemma_key_less_irreflexive(x.drop_first());
    }
}

/// The order on keys is transitive.
pub proof fn lemma_key_less_transitive(x: Seq<KeyPart>, y: Seq<KeyPart>, z: Seq<KeyPart>)
    requires
        key_less(x, y),
        key_less(y, z),
    ensures
        key_less(x, z),
    decreases x.len(),
{
    if x.len() > 0 && y.len() > 0 && z.len() > 0 {
        if x[0] == y[0] && y[0] == z[0] {
            lemma_key_less_transitive(x.drop_first(), y.drop_first(), z.drop_first());
        } else if x[0] != y[0] && y[0] != z[0] {
            if x[0].0 == y[0].0 && y[0].0 == z[0].0 {
                lemma_str_less_transitive(x[0].1, y[0].1, z[0].1);
                if x[0] == z[0] {
                    lemma_str_less_irreflexive(x[0].1);
                }
            }
            if x[0] == z[0] {
                if x[0].0 == y[0].0 {
                    lemma_str_less_transitive(x[0].1, y[0].1, x[0].1);
                    lemma_str_less_irreflexive(x[0].1);
                }
            }
        }
    }
}

/// Of two different keys, one comes before the other.
pub proof fn lemma_key_less_total(x: Seq<KeyPart>, y: Seq<KeyPart>)
    requires
        x != y,
    ensures
        key_less(x, y) || key_less(y, x),
    decreases x.len(),
{
    if x.len() > 0 && y.len() > 0 {
        if x[0] == y[0] {
            if x.drop_first() == y.drop_first() {
                assert(x =~= seq![x[0]] + x.drop_first());
                assert(y =~= seq![y[0]] + y.drop_first());
            }
            lemma_key_less_total(x.drop_first(), y.drop_first());
        } else if x[0].0 == y[0].0 {
            lemma_str_less_total(x[0].1, y[0].1);
        }
    } else if x.len() == 0 && y.len() == 0 {
        assert(x =~= y);
    }
}

/// The key parts as values.
pub open spec fn parts_view(parts: Seq<(u8, String)>) -> Seq<KeyPart> {
    parts.map_values(|p: (u8, String)| (p.0, p.1@))
}

/// The key part of an optional name.
fn optional_key_part(s: &Option<String>) -> (p: (u8, String))
    ensures
        (p.0, p.1@) == optional_part(*s),
{
    match s {
        None => (0u8, String::new()),
        Some(v) => (1u8, v.clone()),
    }
}

/// The key a terminal is sorted by.
fn key_of(t: &Terminal) -> (k: Vec<(u8, String)>)
    ensures
        parts_view(k@) == terminal_key(*t),
{
    let mut k: Vec<(u8, String)> = Vec::new();
    match &t.target {
        TerminalTarget::Server { server } => {
            k.push((0u8, String::new()));
            k.push(optional_key_part(server));
        },
        TerminalTarget::Container { server, container } => {
            k.push((1u8, String::new()));
            k.push((0u8, server.clone()));
            k.push((0u8, container.clone()));
        },
        TerminalTarget::Stack { stack, service } => {
            k.push((2u8, String::new()));
            k.push((0u8, stack.clone()));
            k.push(optional_key_part(service));
        },
        TerminalTarget::Deployment { deployment } => {
            k.push((3u8, String::new()));
            k.push((0u8, deployment.clone()));
        },
    }
    k.push((0u8, t.name.clone()));
    assert(parts_view(k@) =~= terminal_key(*t));
    k
}

/// Whether key `x` comes before key `y`.
fn key_before(x: &Vec<(u8, String)>, y: &Vec<(u8, String)>) -> (r: bool)
    ensures
        r == key_less(parts_view(x@), parts_view(y@)),
{
    let ghost xv = parts_view(x@);
    let ghost yv = parts_view(y@);
    let mut i: usize = 0;
    assert(xv.skip(0) =~= xv);
    assert(yv.skip(0) =~= yv);
    while i < x.len() && i < y.len()
        invariant
            xv == parts_view(x@),
            yv == parts_view(y@),
            i <= x.len(),
            i <= y.len(),
            key_less(xv, yv) == key_less(xv.skip(i as int), yv.skip(i as int)),
        decreases x.len() - i,
    {
        let ghost xs = xv.skip(i as int);
        let ghost ys = yv.skip(i as int);
        assert(xs[0] == xv[i as int]);
        assert(ys[0] == yv[i as int]);
        assert(xs.drop_first() =~= xv.skip(i + 1));
        assert(ys.drop_first() =~= yv.skip(i + 1));
        let same = x[i].0 == y[i].0 && str_eq(x[i].1.as_str(), y[i].1.as_str());
        if !same {
            return x[i].0 < y[i].0 || (x[i].0 == y[i].0 && str_less(x[i].1.as_str(), y[i].1.as_str()));
        }
        i = i + 1;
    }
    assert(xv.skip(i as int).len() == x.len() - i);
    assert(yv.skip(i as int).len() == y.len() - i);
    i == x.len() && i < y.len()
}

/// The order terminals are listed in, as indices into `terminals`: by
/// the kind of their target, the names identifying the target, then
/// their name; terminals with the same key keep the order found.
pub fn terminal_order(terminals: &Vec<Terminal>) -> (order: Vec<usize>)
    ensures
        is_terminal_order(terminals@, order@),
{
    let mut keys: Vec<Vec<(u8, String)>> = Vec::new();
    let mut n: usize = 0;
    while n < terminals.len()
        invariant
            n <= terminals.len(),
            keys@.len() == n,
            forall|j: int| 0 <= j < n ==> parts_view(#[trigger] keys@[j]@) == terminal_key(terminals@[j]),
        decreases terminals.len() - n,
    {
        keys.push(key_of(&terminals[n]));
        n = n + 1;
    }
    let mut order: Vec<usize> = Vec::new();
    let mut i: usize = 0;
    while i < terminals.len()
        invariant
            i <= terminals.len(),
            keys@.len() == terminals.len(),
            forall|j: int| 0 <= j < keys@.len() ==> parts_view(#[trigger] keys@[j]@) == terminal_key(terminals@[j]),
            order@.len() == i,
            forall|k: int| 0 <= k < order@.len() ==> #[trigger] order@[k] < i,
            forall|k: int, l: int|
                0 <= k < l < order@.len() ==> listed_before(terminals@, #[trigger] order@[k] as int, #[trigger] order@[l] as int),
        decreases terminals.len() - i,
    {
        // The new terminal goes after every terminal listed before it or
        // with the same key (those all have smaller indices).
        let mut p: usize = 0;
        while p < order.len() && !key_before(&keys[i], &keys[order[p]])
            invariant
                i < terminals.len(),
                keys@.len() == terminals.len(),
                forall|j: int| 0 <= j < keys@.len() ==> parts_view(#[trigger] keys@[j]@) == terminal_key(terminals@[j]),
                p <= order@.len(),
                forall|k: int| 0 <= k < order@.len() ==> #[trigger] order@[k] < i,
                forall|k: int| 0 <= k < p ==> listed_before(terminals@, #[trigger] order@[k] as int, i as int),
            decreases order.len() - p,
        {
            proof {
                let a = terminal_key(terminals@[order@[p as int] as int]);
                let b = terminal_key(terminals@[i as int]);
                assert(parts_view(keys@[order@[p as int] as int]@) == a);
                assert(parts_view(keys@[i as int]@) == b);
                if a != b {
                    lemma_key_less_total(a, b);
                }
            }
            p = p + 1;
        }
        let ghost before = order@;
        proof {
            if p < before.len() {
                assert(parts_view(keys@[before[p as int] as int]@) == terminal_key(terminals@[before[p as int] as int]));
                assert(parts_view(keys@[i as int]@) == terminal_key(terminals@[i as int]));
                assert(listed_before(terminals@, i as int, before[p as int] as int));
            }
        }
        order.insert(p, i);
        assert(order@ =~= before.insert(p as int, i));
        assert forall|k: int, l: int|
            0 <= k < l < order@.len() implies listed_before(terminals@, #[trigger] order@[k] as int, #[trigger] order@[l] as int) by {
            if l < p {
            } else if k < p && l == p {
            } else if k < p && l > p {
                assert(order@[l] == before[l - 1]);
            } else if k == p && l > p {
                assert(order@[l] == before[l - 1]);
                if l - 1 > p {
                    assert(listed_before(terminals@, before[p as int] as int, before[l - 1] as int));
                    lemma_listed_before_transitive(terminals@, i as int, before[p as int] as int, before[l - 1] as int);
                }
            } else {
                assert(order@[k] == before[k - 1]);
                assert(order@[l] == before[l - 1]);
            }
        }
        i = i + 1;
    }
    order
}

/// Listing order is transitive.
proof fn lemma_listed_before_transitive(terminals: Seq<Terminal>, a: int, b: int, c: int)
    requires
        0 <= a < terminals.len(),
        0 <= b < terminals.len(),
        0 <= c < terminals.len(),
        listed_before(terminals, a, b),
        listed_before(terminals, b, c),
    ensures
        listed_before(terminals, a, c),
{
    let ka = terminal_key(terminals[a]);
    let kb = terminal_key(terminals[b]);
    let kc = terminal_key(terminals[c]);
    if key_less(ka, kb) && key_less(kb, kc) {
        lemma_key_less_transitive(ka, kb, kc);
    }
}

} // verus!
