//! Breadcrumb building: a slash-delimited path becomes the ordered sequence
//! of (segment name, cumulative absolute path) pairs that the navigation bar
//! renders as clickable links.
use vstd::prelude::*;

verus! {

/// One clickable segment of a navigable path: the segment's display name and
/// the absolute path it leads to.
pub struct Breadcrumb {
    pub name: String,
    pub path: String,
}

/// The absolute path that a sequence of segments leads to: one `/` before
/// each segment, and the empty string for no segments.
pub open spec fn joined_path(segs: Seq<Seq<char>>) -> Seq<char>
    decreases segs.len(),
{
    if segs.len() == 0 {
        Seq::empty()
    } else {
        joined_path(segs.drop_last()) + "/"@ + segs.last()
    }
}

/// One step of scanning a path left to right: a separator closes the segment
/// being collected (empty segments are discarded), any other character
/// extends it.
pub open spec fn scan_step(acc: (Seq<Seq<char>>, Seq<char>), c: char) -> (Seq<Seq<char>>, Seq<char>) {
    if c == '/' {
        if acc.1.len() == 0 {
            acc
        } else {
            (acc.0.push(acc.1), Seq::<char>::empty())
        }
    } else {
        (acc.0, acc.1.push(c))
    }
}

/// The completed segments and the still-open segment after scanning a path.
pub open spec fn scan(s: Seq<char>) -> (Seq<Seq<char>>, Seq<char>)
    decreases s.len(),
{
    if s.len() == 0 {
        (Seq::<Seq<char>>::empty(), Seq::<char>::empty())
    } else {
        scan_step(scan(s.drop_last()), s.last())
    }
}

/// The segments of a slash-delimited path: the maximal runs of characters
/// other than `/`, in order, empty runs discarded. The empty path and the
/// bare `/` have no segments.
pub open spec fn segments_of(s: Seq<char>) -> Seq<Seq<char>> {
    let (done, cur) = scan(s);
    if cur.len() == 0 {
        done
    } else {
        done.push(cur)
    }
}

/// Scanning one more character unfolds to one `scan_step` on the scan of the
/// prefix before it.
proof fn lemma_scan_unfold(s: Seq<char>, i: int)
    requires
        0 <= i < s.len(),
    ensures
        scan(s.take(i + 1)) == scan_step(scan(s.take(i)), s[i]),
{
    assert(s.take(i + 1).drop_last() =~= s.take(i));
    assert(s.take(i + 1).last() == s[i]);
}

/// Appending a segment extends the joined path by `/` and that segment.
proof fn lemma_joined_path_push(segs: Seq<Seq<char>>, seg: Seq<char>)
    ensures
        joined_path(segs.push(seg)) == joined_path(segs) + "/"@ + seg,
{
    assert(segs.push(seg).drop_last() =~= segs);
    assert(segs.push(seg).last() == seg);
}

impl Breadcrumb {
    /// Whether this breadcrumb is the one at position `i` of the trail for a
    /// path with the given segments: it shows segment `i` and links to the
    /// path formed by the segments up to and including it.
    pub open spec fn is_trail_entry(&self, segs: Seq<Seq<char>>, i: int) -> bool {
        &&& self.name@ == segs[i]
        &&& self.path@ == joined_path(segs.take(i + 1))
    }
}

/// A usable path segment: non-empty and free of separators.
pub open spec fn is_path_segment(seg: Seq<char>) -> bool {
    seg.len() > 0 && forall|i: int| 0 <= i < seg.len() ==> seg[i] != '/'
}

/// Extending a path by separator-free characters only extends the segment
/// being collected.
proof fn lemma_scan_nonslash_extension(s: Seq<char>, t: Seq<char>)
    requires
        forall|i: int| 0 <= i < t.len() ==> t[i] != '/',
    ensures
        scan(s + t) == (scan(s).0, scan(s).1 + t),
    decreases t.len(),
{
    if t.len() == 0 {
        assert(s + t =~= s);
        assert(scan(s).1 + t =~= scan(s).1);
    } else {
        lemma_scan_nonslash_extension(s, t.drop_last());
        assert((s + t).drop_last() =~= s + t.drop_last());
        assert((s + t).last() == t.last());
        assert(scan(s).1 + t =~= (scan(s).1 + t.drop_last()).push(t.last()));
    }
}

/// Extending a path by one separator closes the collected segment, and
/// closes nothing when none is open.
proof fn lemma_scan_slash(s: Seq<char>)
    ensures
        scan(s + "/"@) == (if scan(s).1.len() == 0 {
            scan(s)
        } else {
            (scan(s).0.push(scan(s).1), Seq::<char>::empty())
        }),
{
    reveal_strlit("/");
    assert((s + "/"@).len() == s.len() + 1);
    assert((s + "/"@).drop_last() =~= s);
    assert((s + "/"@).last() == '/');
    if scan(s).1.len() == 0 {
        assert(scan(s + "/"@) == scan_step(scan(s), '/'));
    }
}

/// Scanning the joined path of usable segments finds exactly those segments:
/// all but the last closed, the last still being collected.
proof fn lemma_scan_of_joined(segs: Seq<Seq<char>>)
    requires
        forall|i: int| 0 <= i < segs.len() ==> is_path_segment(#[trigger] segs[i]),
    ensures
        segs.len() == 0 ==> scan(joined_path(segs)) == (
            Seq::<Seq<char>>::empty(),
            Seq::<char>::empty(),
        ),
        segs.len() > 0 ==> scan(joined_path(segs)) == (segs.drop_last(), segs.last()),
    decreases segs.len(),
{
    if segs.len() == 0 {
        assert(joined_path(segs) =~= Seq::<char>::empty());
    } else {
        let s0 = segs.drop_last();
        let x = segs.last();
        lemma_scan_of_joined(s0);
        let p = joined_path(s0);
        lemma_scan_slash(p);
        if s0.len() == 0 {
            assert(scan(p + "/"@) == (Seq::<Seq<char>>::empty(), Seq::<char>::empty()));
            assert(scan(p + "/"@).0 =~= s0);
        } else {
            assert(scan(p).1 == s0.last());
            assert(scan(p + "/"@).0 =~= s0);
        }
        lemma_scan_nonslash_extension(p + "/"@, x);
        assert(joined_path(segs) == p + "/"@ + x);
        assert(scan(joined_path(segs)).1 =~= x);
    }
}

/// The breadcrumb segments of a joined path recover exactly the segments it
/// was joined from, in order, whenever each segment is non-empty and free of
/// separators — so the trail built for a rendered directory path names
/// exactly that directory's components.
pub proof fn lemma_joined_path_round_trip(segs: Seq<Seq<char>>)
    requires
        forall|i: int| 0 <= i < segs.len() ==> is_path_segment(#[trigger] segs[i]),
    ensures
        segments_of(joined_path(segs)) == segs,
{
    lemma_scan_of_joined(segs);
    if segs.len() == 0 {
        assert(segments_of(joined_path(segs)) =~= segs);
    } else {
        assert(segments_of(joined_path(segs)) =~= segs.drop_last().push(segs.last()));
        assert(segs.drop_last().push(segs.last()) =~= segs);
    }
}

/// Splits a slash-delimited path into the ordered breadcrumb trail: one entry
/// per segment, each naming its segment and linking to the absolute path up
/// to it. The empty path and the bare `/` give an empty trail.
pub fn breadcrumbs(path: &str) -> (r: Vec<Breadcrumb>)
    ensures
        r@.len() == segments_of(path@).len(),
        forall|i: int| 0 <= i < r@.len() ==> #[trigger] r@[i].is_trail_entry(segments_of(path@), i),
{
    let n = path.unicode_len();
    let mut done: Vec<Breadcrumb> = Vec::new();
    let mut cur: String = String::new();
    let mut cum: String = String::new();
    let mut i: usize = 0;
    while i < n
        invariant
            n == path@.len(),
            i <= n,
            done@.len() == scan(path@.take(i as int)).0.len(),
            scan(path@.take(i as int)).1 == cur@,
            cum@ == joined_path(scan(path@.take(i as int)).0),
            forall|j: int| 0 <= j < done@.len()
                ==> #[trigger] done@[j].is_trail_entry(scan(path@.take(i as int)).0, j),
        decreases n - i,
    {
        let ghost prev = scan(path@.take(i as int));
        let ghost old_done = done@;
        let c = path.get_char(i);
        proof {
            lemma_scan_unfold(path@, i as int);
        }
        if c == '/' {
            if cur.unicode_len() > 0 {
                cum.append("/");
                cum.append(cur.as_str());
                let crumb = Breadcrumb { name: cur, path: cum.clone() };
                done.push(crumb);
                cur = String::new();
                proof {
                    lemma_joined_path_push(prev.0, prev.1);
                    let now = scan(path@.take(i + 1));
                    assert(now.0 == prev.0.push(prev.1));
                    assert(now.0.take(done@.len() as int) =~= now.0);
                    assert forall|j: int| 0 <= j < done@.len()
                        implies #[trigger] done@[j].is_trail_entry(now.0, j) by {
                        if j < done@.len() - 1 {
                            assert(old_done[j].is_trail_entry(prev.0, j));
                            assert(done@[j] == old_done[j]);
                            assert(now.0.take(j + 1) =~= prev.0.take(j + 1));
                            assert(now.0[j] == prev.0[j]);
                        } else {
                            assert(done@[j].path@ == joined_path(now.0));
                        }
                    }
                }
            }
        } else {
            cur.append(path.substring_char(i, i + 1));
            proof {
                assert(path@.subrange(i as int, i + 1) =~= seq![path@[i as int]]);
                assert(cur@ =~= prev.1.push(path@[i as int]));
                let now = scan(path@.take(i + 1));
                assert(now.0 == prev.0);
            }
        }
        i = i + 1;
    }
    proof {
        assert(path@.take(n as int) =~= path@);
    }
    if cur.unicode_len() > 0 {
        cum.append("/");
        cum.append(cur.as_str());
        let ghost prev = scan(path@);
        let ghost old_done = done@;
        let crumb = Breadcrumb { name: cur, path: cum };
        done.push(crumb);
        proof {
            lemma_joined_path_push(prev.0, prev.1);
            let segs = segments_of(path@);
            assert(segs == prev.0.push(prev.1));
            assert(segs.take(done@.len() as int) =~= segs);
            assert forall|j: int| 0 <= j < done@.len()
                implies #[trigger] done@[j].is_trail_entry(segs, j) by {
                if j < done@.len() - 1 {
                    assert(old_done[j].is_trail_entry(prev.0, j));
                    assert(done@[j] == old_done[j]);
                    assert(segs.take(j + 1) =~= prev.0.take(j + 1));
                    assert(segs[j] == prev.0[j]);
                } else {
                    assert(done@[j].path@ == joined_path(segs));
                }
            }
        }
    }
    done
}

} // verus!
