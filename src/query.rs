use vstd::prelude::*;

verus! {

/// `query` names the parameter `name`: some `&`-separated field of it is
/// `name`, alone or followed by `=` and a value.
pub open spec fn param_present(query: Seq<char>, name: Seq<char>) -> bool {
    exists|start: int| #[trigger] field_named(query, name, start)
}

/// The field of `query` that starts at `start` has the key `name`.
pub open spec fn field_named(query: Seq<char>, name: Seq<char>, start: int) -> bool {
    let end: int = start + name.len();
    &&& 0 <= start
    &&& end <= query.len()
    &&& (start == 0 || query[start - 1] == '&')
    &&& query.subrange(start, end) == name
    &&& (end == query.len() || query[end] == '&' || query[end] == '=')
}

fn chars_of(s: &str) -> (r: Vec<char>)
    ensures
        r@ == s@,
{
    let n: usize = s.unicode_len();
    let mut out: Vec<char> = Vec::with_capacity(n);
    let mut i: usize = 0;
    while i < n
        invariant
            n == s@.len(),
            i <= n,
            out@ == s@.take(i as int),
        decreases n - i,
    {
        out.push(s.get_char(i));
        assert(out@ =~= s@.take(i as int + 1));
        i = i + 1;
    }
    assert(s@.take(n as int) =~= s@);
    out
}

fn field_at(q: &Vec<char>, name: &Vec<char>, start: usize) -> (r: bool)
    ensures
        r == field_named(q@, name@, start as int),
{
    if start > q.len() || name.len() > q.len() - start {
        return false;
    }
    if start > 0 && q[start - 1] != '&' {
        return false;
    }
    let end: usize = start + name.len();
    let mut j: usize = 0;
    while j < name.len()
        invariant
            end == start + name@.len(),
            end <= q@.len(),
            j <= name@.len(),
            q@.subrange(start as int, start + j) == name@.take(j as int),
        decreases name@.len() - j,
    {
        if q[start + j] != name[j] {
            assert(q@.subrange(start as int, end as int)[j as int] != name@[j as int]);
            return false;
        }
        assert(q@.subrange(start as int, start + j + 1) =~= name@.take(j as int + 1)) by {
            assert(q@.subrange(start as int, start + j + 1) =~= q@.subrange(start as int, start + j).push(q@[start + j]));
            assert(name@.take(j as int + 1) =~= name@.take(j as int).push(name@[j as int]));
        }
        j = j + 1;
    }
    assert(name@.take(j as int) =~= name@);
    end == q.len() || q[end] == '&' || q[end] == '='
}

/// Whether the query string of a request names the parameter `name`.
pub fn has_param(query: &str, name: &str) -> (r: bool)
    ensures
        r == param_present(query@, name@),
{
    let q = chars_of(query);
    let nm = chars_of(name);
    let mut start: usize = 0;
    while start < q.len()
        invariant
            q@ == query@,
            nm@ == name@,
            start <= q@.len(),
            forall|s: int| 0 <= s < start ==> !field_named(query@, name@, s),
        decreases q@.len() - start,
    {
        if field_at(&q, &nm, start) {
            return true;
        }
        start = start + 1;
    }
    let last = field_at(&q, &nm, start);
    assert(!last ==> forall|s: int| !field_named(query@, name@, s)) by {
        if !last {
            assert forall|s: int| !field_named(query@, name@, s) by {
                if 0 <= s < start {
                }
            }
        }
    }
    last
}

/// Whether a request asks for its sentences to be written through: its
/// query names `should_insert`, whatever the value.
pub fn should_insert_requested(query: &str) -> (r: bool)
    ensures
        r == param_present(query@, "should_insert"@),
{
    has_param(query, "should_insert")
}

} // verus!
