use vstd::prelude::*;

verus! {

/// The first line of every snapshot file this library writes.
pub open spec fn snapshot_header() -> Seq<char> {
    "breakfast-embed snapshot 1\n"@
}

/// A snapshot file: the version line, then the serialized index.
pub open spec fn framed(body: Seq<char>) -> Seq<char> {
    snapshot_header() + body
}

/// The serialized index held in a snapshot file. A file without the
/// version line is an unversioned one and is taken whole.
pub open spec fn unframed(text: Seq<char>) -> Seq<char> {
    let h = snapshot_header();
    if h.len() <= text.len() && text.take(h.len() as int) == h {
        text.skip(h.len() as int)
    } else {
        text
    }
}

/// Puts the version line in front of a serialized index.
pub fn frame_snapshot(body: &str) -> (r: String)
    ensures
        r@ == framed(body@),
{
    proof {
        reveal_strlit("breakfast-embed snapshot 1\n");
    }
    let head = String::from_str("breakfast-embed snapshot 1\n");
    head.concat(body)
}

/// Takes the serialized index out of a snapshot file, versioned or not.
pub fn unframe_snapshot(text: &str) -> (r: String)
    ensures
        r@ == unframed(text@),
{
    let header = "breakfast-embed snapshot 1\n";
    proof {
        reveal_strlit("breakfast-embed snapshot 1\n");
    }
    let h: usize = header.unicode_len();
    let n: usize = text.unicode_len();
    if n < h {
        return String::from_str(text);
    }
    let mut i: usize = 0;
    while i < h
        invariant
            h == snapshot_header().len(),
            header@ == snapshot_header(),
            n == text@.len(),
            h <= n,
            i <= h,
            text@.take(i as int) == snapshot_header().take(i as int),
        decreases h - i,
    {
        if text.get_char(i) != header.get_char(i) {
            assert(text@.take(h as int)[i as int] != snapshot_header()[i as int]);
            return String::from_str(text);
        }
        assert(text@.take(i as int + 1) =~= snapshot_header().take(i as int + 1)) by {
            assert(text@.take(i as int + 1) =~= text@.take(i as int).push(text@[i as int]));
            assert(snapshot_header().take(i as int + 1) =~= snapshot_header().take(i as int).push(
                snapshot_header()[i as int],
            ));
        }
        i = i + 1;
    }
    assert(snapshot_header().take(h as int) =~= snapshot_header());
    String::from_str(text.substring_char(h, n))
}

/// Reading back a snapshot that was written gives the serialized index that
/// went in, whatever it was.
pub proof fn lemma_snapshot_round_trip(body: Seq<char>)
    ensures
        unframed(framed(body)) == body,
{
    let h = snapshot_header();
    assert(framed(body).take(h.len() as int) =~= h);
    assert(framed(body).skip(h.len() as int) =~= body);
}

} // verus!
