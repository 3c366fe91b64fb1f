use vstd::prelude::*;
use vstd::string::*;

verus! {

/// Number of characters before the first `':'` of `s` (all of `s` when it has none).
pub open spec fn field_len(s: Seq<char>) -> nat
    decreases s.len(),
{
    if s.len() == 0 || s[0] == ':' {
        0
    } else {
        1 + field_len(s.drop_first())
    }
}

/// Number of `':'` separators in `s`.
pub open spec fn colon_count(s: Seq<char>) -> nat
    decreases s.len(),
{
    if s.len() == 0 {
        0
    } else {
        (if s[0] == ':' { 1nat } else { 0nat }) + colon_count(s.drop_first())
    }
}

/// The colon-separated segment of `s` at position `n`, counting from zero.
pub open spec fn segment(s: Seq<char>, n: nat) -> Seq<char>
    decreases n,
{
    if n == 0 {
        s.take(field_len(s) as int)
    } else {
        segment(s.skip(field_len(s) + 1 as int), (n - 1) as nat)
    }
}

/// A locator `<namespace>:<type>:<id>` has at least three segments.
pub open spec fn is_locator(s: Seq<char>) -> bool {
    colon_count(s) >= 2
}

/// The canonical identifier of a locator: its third segment.
pub open spec fn locator_id(s: Seq<char>) -> Seq<char> {
    segment(s, 2)
}

pub open spec fn colon_free(s: Seq<char>) -> bool {
    forall|i: int| 0 <= i < s.len() ==> s[i] != ':'
}

/// A position before which no colon stands, and which is the end or a colon, is `field_len`.
proof fn lemma_field_len_at(s: Seq<char>, i: int)
    requires
        0 <= i <= s.len(),
        forall|k: int| 0 <= k < i ==> s[k] != ':',
        i == s.len() || s[i] == ':',
    ensures
        field_len(s) == i,
    decreases s.len(),
{
    if i > 0 {
        let t = s.drop_first();
        assert forall|k: int| 0 <= k < i - 1 implies t[k] != ':' by {
            assert(t[k] == s[k + 1]);
        }
        if i < s.len() {
            assert(t[i - 1] == s[i]);
        }
        lemma_field_len_at(t, i - 1);
    }
}

/// The colons of `s` are those of its first field's separator and of the rest.
proof fn lemma_colon_count_split(s: Seq<char>)
    requires
        colon_count(s) >= 1,
    ensures
        field_len(s) < s.len(),
        colon_count(s.skip(field_len(s) + 1 as int)) == colon_count(s) - 1,
    decreases s.len(),
{
    if s[0] != ':' {
        let t = s.drop_first();
        lemma_colon_count_split(t);
        assert(s.skip(field_len(s) + 1 as int) =~= t.skip(field_len(t) + 1 as int));
    } else {
        assert(s.skip(1) =~= s.drop_first());
    }
}

proof fn lemma_colon_free_count(s: Seq<char>)
    requires
        colon_free(s),
    ensures
        colon_count(s) == 0,
        field_len(s) == s.len(),
    decreases s.len(),
{
    lemma_field_len_at(s, s.len() as int);
    if s.len() > 0 {
        lemma_colon_free_count(s.drop_first());
    }
}

/// Position of the first colon of `s` at or after `start`, or the length of `s`.
fn next_colon(s: &str, start: usize) -> (r: usize)
    requires
        start <= s@.len(),
    ensures
        r == start + field_len(s@.skip(start as int)),
        r <= s@.len(),
        s@.len() <= usize::MAX,
{
    let n = s.unicode_len();
    let mut i: usize = start;
    while i < n && s.get_char(i) != ':'
        invariant
            n == s@.len(),
            start <= i <= n,
            forall|k: int| start <= k < i ==> s@[k] != ':',
        decreases n - i,
    {
        i = i + 1;
    }
    proof {
        let t = s@.skip(start as int);
        assert forall|k: int| 0 <= k < i - start implies t[k] != ':' by {
            assert(t[k] == s@[start + k]);
        }
        if i < n {
            assert(t[i - start] == s@[i as int]);
        }
        lemma_field_len_at(t, i - start);
    }
    i
}

/// Extracts the canonical identifier (the third segment) of a locator of the form
/// `<namespace>:<type>:<id>`.
pub fn get_id_from_uri(uri: &str) -> (r: &str)
    requires
        is_locator(uri@),
    ensures
        r@ == locator_id(uri@),
{
    let ghost s = uri@;
    let first = next_colon(uri, 0);
    proof {
        assert(s.skip(0) =~= s);
        lemma_colon_count_split(s);
    }
    let ghost s1 = s.skip(first + 1);
    let second = next_colon(uri, first + 1);
    proof {
        lemma_colon_count_split(s1);
        assert(s.skip(second as int) =~= s1.skip(second - first - 1));
    }
    let ghost s2 = s1.skip(field_len(s1) + 1 as int);
    let end = next_colon(uri, second + 1);
    proof {
        assert(s.skip(second + 1) =~= s2);
        assert(segment(s, 2) == segment(s1, 1));
        assert(segment(s1, 1) == segment(s2, 0));
        assert(s2.take(field_len(s2) as int) =~= s.subrange(second + 1, end as int));
    }
    uri.substring_char(second + 1, end)
}

/// Checks how many segments a locator has: at least three, so that
/// [`get_id_from_uri`] may be called on it.
pub fn is_well_formed_uri(uri: &str) -> (r: bool)
    ensures
        r == is_locator(uri@),
{
    let n = uri.unicode_len();
    let mut i: usize = 0;
    let mut count: usize = 0;
    proof {
        assert(uri@.skip(0) =~= uri@);
    }
    while i < n && count < 2
        invariant
            n == uri@.len(),
            i <= n,
            count <= 2,
            count + colon_count(uri@.skip(i as int)) == colon_count(uri@),
        decreases n - i,
    {
        proof {
            let t = uri@.skip(i as int);
            assert(t.drop_first() =~= uri@.skip(i + 1));
            assert(t[0] == uri@[i as int]);
        }
        if uri.get_char(i) == ':' {
            count = count + 1;
        }
        i = i + 1;
    }
    proof {
        assert(uri@.skip(0) =~= uri@);
    }
    count >= 2
}

/// Extracts the identifier of a locator, or reports that it has fewer than three segments.
pub fn checked_id_from_uri(uri: &str) -> (r: Option<&str>)
    ensures
        r is None <==> !is_locator(uri@),
        r is Some ==> r->0@ == locator_id(uri@),
{
    if is_well_formed_uri(uri) {
        Some(get_id_from_uri(uri))
    } else {
        None
    }
}

/// For colon-free `namespace`, `kind` and `id`, the identifier of
/// `namespace:kind:id`, followed by nothing or by further colon-separated
/// text, is exactly `id`.
pub proof fn lemma_locator_id_is_third_segment(
    namespace: Seq<char>,
    kind: Seq<char>,
    id: Seq<char>,
    tail: Seq<char>,
)
    requires
        colon_free(namespace),
        colon_free(kind),
        colon_free(id),
        tail.len() == 0 || tail[0] == ':',
    ensures
        is_locator(namespace + seq![':'] + kind + seq![':'] + id + tail),
        locator_id(namespace + seq![':'] + kind + seq![':'] + id + tail) == id,
{
    let s = namespace + seq![':'] + kind + seq![':'] + id + tail;
    let s1 = kind + seq![':'] + id + tail;
    let s2 = id + tail;
    lemma_colon_free_count(namespace);
    lemma_colon_free_count(kind);
    lemma_colon_free_count(id);
    assert forall|k: int| 0 <= k < namespace.len() implies s[k] != ':' by {
        assert(s[k] == namespace[k]);
    }
    lemma_field_len_at(s, namespace.len() as int);
    assert(s.skip(namespace.len() + 1 as int) =~= s1);
    assert forall|k: int| 0 <= k < kind.len() implies s1[k] != ':' by {
        assert(s1[k] == kind[k]);
    }
    lemma_field_len_at(s1, kind.len() as int);
    assert(s1.skip(kind.len() + 1 as int) =~= s2);
    assert forall|k: int| 0 <= k < id.len() implies s2[k] != ':' by {
        assert(s2[k] == id[k]);
    }
    lemma_field_len_at(s2, id.len() as int);
    assert(s2.take(id.len() as int) =~= id);
    assert(s =~= namespace + seq![':'] + s1);
    assert(s1 =~= kind + seq![':'] + s2);
    lemma_colon_count_prefix(namespace, s1);
    lemma_colon_count_prefix(kind, s2);
    assert(segment(s, 2) == segment(s1, 1));
    assert(segment(s1, 1) == segment(s2, 0));
}

/// The colons of `a + ':' + b`, for colon-free `a`, are one more than those of `b`.
proof fn lemma_colon_count_prefix(a: Seq<char>, b: Seq<char>)
    requires
        colon_free(a),
    ensures
        colon_count(a + seq![':'] + b) == 1 + colon_count(b),
    decreases a.len(),
{
    let s = a + seq![':'] + b;
    if a.len() == 0 {
        assert(s.drop_first() =~= b);
    } else {
        assert(s.drop_first() =~= a.drop_first() + seq![':'] + b);
        lemma_colon_count_prefix(a.drop_first(), b);
    }
}

} // verus!
