use vstd::prelude::*;

verus! {

/// One segment of a compiled template, as the contracts see it.
pub enum SegmentSpec {
    Static(Seq<char>),
    Named(Seq<char>),
    Wildcard(Seq<char>),
}

/// One segment of a compiled template.
#[derive(Clone, Debug)]
pub enum Segment {
    /// Matches a path segment equal to the text.
    Static(String),
    /// Matches any one path segment and captures it under the name.
    Named(String),
    /// Stands last; captures all remaining path segments, joined by `/`.
    Wildcard(String),
}

impl View for Segment {
    type V = SegmentSpec;

    open spec fn view(&self) -> SegmentSpec {
        match self {
            Segment::Static(t) => SegmentSpec::Static(t@),
            Segment::Named(n) => SegmentSpec::Named(n@),
            Segment::Wildcard(n) => SegmentSpec::Wildcard(n@),
        }
    }
}

/// The views of a sequence of strings.
pub open spec fn views(v: Seq<String>) -> Seq<Seq<char>> {
    v.map_values(|x: String| x@)
}

/// The views of a sequence of segments.
pub open spec fn segment_views(v: Seq<Segment>) -> Seq<SegmentSpec> {
    v.map_values(|x: Segment| x@)
}

/// The views of a sequence of `(name, value)` pairs.
pub open spec fn pair_views(v: Seq<(String, String)>) -> Seq<(Seq<char>, Seq<char>)> {
    v.map_values(|p: (String, String)| (p.0@, p.1@))
}

/// The views of an optional sequence of `(name, value)` pairs.
pub open spec fn opt_pair_views(o: Option<Vec<(String, String)>>) -> Option<
    Seq<(Seq<char>, Seq<char>)>,
> {
    match o {
        Some(v) => Some(pair_views(v@)),
        None => None,
    }
}

/// The `/`-delimited pieces of `s`, empty pieces included: `"/a/b"` gives
/// `["", "a", "b"]`, and the empty text gives one empty piece.
pub open spec fn split_path(s: Seq<char>) -> Seq<Seq<char>>
    decreases s.len(),
{
    if s.len() == 0 {
        seq![Seq::empty()]
    } else {
        let prev = split_path(s.drop_last());
        if s.last() == '/' {
            prev.push(Seq::empty())
        } else {
            prev.update(prev.len() - 1, prev.last().push(s.last()))
        }
    }
}

/// The pieces joined again, with `/` between neighbours.
pub open spec fn join_path(parts: Seq<Seq<char>>) -> Seq<char>
    decreases parts.len(),
{
    if parts.len() == 0 {
        Seq::empty()
    } else if parts.len() == 1 {
        parts[0]
    } else {
        join_path(parts.drop_last()) + seq!['/'] + parts.last()
    }
}

/// What one piece of a template compiles to: `:name` is a named segment,
/// `*name` in last place a wildcard, anything else static text.
pub open spec fn segment_spec(t: Seq<char>, last: bool) -> SegmentSpec {
    if t.len() > 0 && t[0] == ':' {
        SegmentSpec::Named(t.drop_first())
    } else if t.len() > 0 && t[0] == '*' && last {
        SegmentSpec::Wildcard(t.drop_first())
    } else {
        SegmentSpec::Static(t)
    }
}

/// The segments that a template compiles to.
pub open spec fn compile_spec(template: Seq<char>) -> Seq<SegmentSpec> {
    let parts = split_path(template);
    Seq::new(parts.len(), |i: int| segment_spec(parts[i], i == parts.len() - 1))
}

/// Matching of the segments from index `i` on against the path pieces from
/// index `i` on: the captures in template order, or `None`.
pub open spec fn match_from(segs: Seq<SegmentSpec>, parts: Seq<Seq<char>>, i: nat) -> Option<
    Seq<(Seq<char>, Seq<char>)>,
>
    decreases segs.len() - i,
{
    if i >= segs.len() {
        if parts.len() == i {
            Some(Seq::empty())
        } else {
            None
        }
    } else {
        match segs[i as int] {
            SegmentSpec::Wildcard(n) => {
                if i + 1 == segs.len() && i <= parts.len() {
                    Some(seq![(n, join_path(parts.subrange(i as int, parts.len() as int)))])
                } else {
                    None
                }
            },
            SegmentSpec::Static(t) => {
                if i < parts.len() && parts[i as int] == t {
                    match_from(segs, parts, i + 1)
                } else {
                    None
                }
            },
            SegmentSpec::Named(n) => {
                if i < parts.len() {
                    match match_from(segs, parts, i + 1) {
                        Some(rest) => Some(seq![(n, parts[i as int])] + rest),
                        None => None,
                    }
                } else {
                    None
                }
            },
        }
    }
}

/// The captures of matching a path against compiled segments, or `None`.
pub open spec fn match_spec(segs: Seq<SegmentSpec>, path: Seq<char>) -> Option<
    Seq<(Seq<char>, Seq<char>)>,
> {
    match_from(segs, split_path(path), 0)
}

/// `acc` put in front of the captures, if there are any.
pub open spec fn prepend(
    acc: Seq<(Seq<char>, Seq<char>)>,
    o: Option<Seq<(Seq<char>, Seq<char>)>>,
) -> Option<Seq<(Seq<char>, Seq<char>)>> {
    match o {
        Some(r) => Some(acc + r),
        None => None,
    }
}

/// Splits a text at each `/`.
pub fn split_segments(s: &str) -> (r: Vec<String>)
    ensures
        views(r@) == split_path(s@),
{
    let n = s.unicode_len();
    let mut parts: Vec<String> = Vec::new();
    let mut start: usize = 0;
    let mut i: usize = 0;
    assert(s@.take(0) =~= Seq::<char>::empty());
    assert(views(parts@).push(s@.subrange(0, 0)) =~= seq![Seq::<char>::empty()]);
    while i < n
        invariant
            n == s@.len(),
            start <= i <= n,
            split_path(s@.take(i as int)) == views(parts@).push(s@.subrange(start as int, i as int)),
        decreases n - i,
    {
        let c = s.get_char(i);
        let ghost prev = split_path(s@.take(i as int));
        assert(s@.take(i + 1).drop_last() =~= s@.take(i as int));
        assert(s@.take(i + 1).last() == c);
        if c == '/' {
            let piece = s.substring_char(start, i);
            let ghost old_parts = parts@;
            parts.push(String::from_str(piece));
            assert(views(parts@) =~= views(old_parts).push(piece@));
            start = i + 1;
            assert(split_path(s@.take(i + 1)) == prev.push(Seq::<char>::empty()));
            assert(s@.subrange(start as int, (i + 1) as int) =~= Seq::<char>::empty());
            assert(split_path(s@.take(i + 1)) =~= views(parts@).push(
                s@.subrange(start as int, (i + 1) as int),
            ));
        } else {
            let ghost sub = s@.subrange(start as int, i as int);
            assert(split_path(s@.take(i + 1)) == prev.update(prev.len() - 1, prev.last().push(c)));
            assert(prev.last() == sub);
            assert(prev.update(prev.len() - 1, sub.push(c)) =~= views(parts@).push(sub.push(c)));
            assert(s@.subrange(start as int, i as int).push(c) =~= s@.subrange(
                start as int,
                (i + 1) as int,
            ));
            assert(split_path(s@.take(i + 1)) =~= views(parts@).push(
                s@.subrange(start as int, (i + 1) as int),
            ));
        }
        i = i + 1;
    }
    let piece = s.substring_char(start, n);
    let ghost old_parts = parts@;
    parts.push(String::from_str(piece));
    assert(views(parts@) =~= views(old_parts).push(piece@));
    assert(s@.take(n as int) =~= s@);
    parts
}

/// Joins `parts[from..]` with `/` between neighbours.
pub fn join_segments(parts: &Vec<String>, from: usize) -> (r: String)
    requires
        from <= parts.len(),
    ensures
        r@ == join_path(views(parts@).subrange(from as int, parts@.len() as int)),
{
    if from == parts.len() {
        let out = String::new();
        assert(views(parts@).subrange(from as int, from as int) =~= Seq::<Seq<char>>::empty());
        return out;
    }
    let mut out = parts[from].clone();
    assert(views(parts@).subrange(from as int, from + 1) =~= seq![parts@[from as int]@]);
    let mut j: usize = from + 1;
    while j < parts.len()
        invariant
            from < j <= parts.len(),
            out@ == join_path(views(parts@).subrange(from as int, j as int)),
        decreases parts.len() - j,
    {
        let ghost sub = views(parts@).subrange(from as int, j + 1);
        assert(sub.drop_last() =~= views(parts@).subrange(from as int, j as int));
        proof {
            reveal_strlit("/");
        }
        out = out.concat("/");
        out = out.concat(parts[j].as_str());
        assert(out@ =~= join_path(sub));
        j = j + 1;
    }
    out
}

/// A compiled path template.
#[derive(Clone, Debug)]
pub struct Pattern {
    template: String,
    segments: Vec<Segment>,
}

impl Pattern {
    /// The compiled segments.
    pub closed spec fn segs(&self) -> Seq<SegmentSpec> {
        segment_views(self.segments@)
    }

    /// The template text that the pattern was compiled from.
    pub closed spec fn template(&self) -> Seq<char> {
        self.template@
    }

    /// Compiles a template: each `/`-delimited piece becomes a segment
    /// (`:name` named, `*name` a wildcard when last, else static text).
    pub fn new(template: &str) -> (r: Pattern)
        ensures
            r.segs() == compile_spec(template@),
            r.template() == template@,
    {
        let parts = split_segments(template);
        let n = parts.len();
        let mut segments: Vec<Segment> = Vec::new();
        let mut i: usize = 0;
        while i < n
            invariant
                n == parts@.len(),
                views(parts@) == split_path(template@),
                i <= n,
                segments@.len() == i,
                forall|k: int|
                    0 <= k < i ==> #[trigger] segments@[k]@ == segment_spec(
                        split_path(template@)[k],
                        k == n - 1,
                    ),
            decreases n - i,
        {
            let part = &parts[i];
            let ghost pv = views(parts@)[i as int];
            assert(pv == part@);
            let len = part.as_str().unicode_len();
            let seg = if len > 0 && part.as_str().get_char(0) == ':' {
                let name = part.as_str().substring_char(1, len);
                assert(name@ =~= pv.drop_first());
                Segment::Named(String::from_str(name))
            } else if len > 0 && part.as_str().get_char(0) == '*' && i + 1 == n {
                let name = part.as_str().substring_char(1, len);
                assert(name@ =~= pv.drop_first());
                Segment::Wildcard(String::from_str(name))
            } else {
                Segment::Static(part.clone())
            };
            segments.push(seg);
            i = i + 1;
        }
        let r = Pattern { template: String::from_str(template), segments };
        assert(r.segs() =~= compile_spec(template@));
        r
    }

    /// The template text that the pattern was compiled from.
    pub fn as_str(&self) -> (r: &str)
        ensures
            r@ == self.template(),
    {
        self.template.as_str()
    }

    /// Matches a path: the captures in template order, or `None`.
    pub fn match_path(&self, path: &str) -> (r: Option<Vec<(String, String)>>)
        ensures
            opt_pair_views(r) == match_spec(self.segs(), path@),
    {
        let parts = split_segments(path);
        let n = self.segments.len();
        let mut acc: Vec<(String, String)> = Vec::new();
        let mut i: usize = 0;
        assert(pair_views(acc@) + Seq::empty() =~= Seq::<(Seq<char>, Seq<char>)>::empty());
        while i < n
            invariant
                n == self.segments@.len(),
                i <= n,
                views(parts@) == split_path(path@),
                match_spec(self.segs(), path@) == prepend(
                    pair_views(acc@),
                    match_from(self.segs(), views(parts@), i as nat),
                ),
            decreases n - i,
        {
            let ghost segs = self.segs();
            let ghost pv = views(parts@);
            assert(segs[i as int] == self.segments@[i as int]@);
            match &self.segments[i] {
                Segment::Static(t) => {
                    if i < parts.len() && parts[i].eq(t) {
                        i = i + 1;
                    } else {
                        return None;
                    }
                },
                Segment::Named(name) => {
                    if i < parts.len() {
                        let ghost old_acc = pair_views(acc@);
                        let ghost x = (name@, pv[i as int]);
                        acc.push((name.clone(), parts[i].clone()));
                        assert(pair_views(acc@) =~= old_acc.push(x));
                        assert forall|rest: Seq<(Seq<char>, Seq<char>)>|
                            old_acc + (seq![x] + rest) =~= #[trigger] (old_acc.push(x) + rest) by {}
                        i = i + 1;
                    } else {
                        return None;
                    }
                },
                Segment::Wildcard(name) => {
                    if i + 1 == n && i <= parts.len() {
                        let rest = join_segments(&parts, i);
                        let ghost old_acc = pair_views(acc@);
                        acc.push((name.clone(), rest));
                        assert(pair_views(acc@) =~= old_acc + seq![(name@, rest@)]);
                        return Some(acc);
                    } else {
                        return None;
                    }
                },
            }
        }
        if parts.len() == n {
            assert(pair_views(acc@) + Seq::empty() =~= pair_views(acc@));
            Some(acc)
        } else {
            None
        }
    }
}

/// Compiling one template twice gives patterns that match the same paths
/// with the same captures.
pub proof fn lemma_compile_idempotent(template: Seq<char>, p: Pattern, q: Pattern, path: Seq<char>)
    requires
        p.segs() == compile_spec(template),
        q.segs() == compile_spec(template),
    ensures
        match_spec(p.segs(), path) == match_spec(q.segs(), path),
{
}

} // verus!
