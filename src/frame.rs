use vstd::prelude::*;

verus! {

/// The byte that ends a line of the event stream.
pub const NEWLINE: u8 = 10;

/// The bytes of complete lines, each followed by its newline.
pub open spec fn joined(lines: Seq<Seq<u8>>) -> Seq<u8>
    decreases lines.len(),
{
    if lines.len() == 0 {
        Seq::empty()
    } else {
        joined(lines.drop_last()) + lines.last() + seq![NEWLINE]
    }
}

/// The contents of a sequence of byte vectors.
pub open spec fn views(v: Seq<Vec<u8>>) -> Seq<Seq<u8>> {
    v.map_values(|x: Vec<u8>| x@)
}

pub open spec fn no_newline(s: Seq<u8>) -> bool {
    forall|i: int| 0 <= i < s.len() ==> s[i] != NEWLINE
}

pub open spec fn all_lines_clean(lines: Seq<Seq<u8>>) -> bool {
    forall|i: int| 0 <= i < lines.len() ==> no_newline(#[trigger] lines[i])
}

/// A stream of bytes splits into complete lines and a pending tail in one way only.
proof fn lemma_split_unique(a: Seq<Seq<u8>>, b: Seq<u8>, c: Seq<Seq<u8>>, d: Seq<u8>)
    requires
        all_lines_clean(a),
        all_lines_clean(c),
        no_newline(b),
        no_newline(d),
        joined(a) + b == joined(c) + d,
    ensures
        a == c,
        b == d,
    decreases a.len(),
{
    let s = joined(a) + b;
    let ja = joined(a).len() as int;
    let jc = joined(c).len() as int;
    if a.len() > 0 {
        assert(s[ja - 1] == NEWLINE);
    }
    if c.len() > 0 {
        assert(s[jc - 1] == NEWLINE);
    }
    if a.len() == 0 && c.len() == 0 {
        assert(b =~= d);
        assert(a =~= c);
    } else if a.len() == 0 {
        assert(b[jc - 1] == NEWLINE);
    } else if c.len() == 0 {
        assert(d[ja - 1] == NEWLINE);
    } else {
        if ja < jc {
            assert(b[jc - 1 - ja] == s[jc - 1]);
        } else if jc < ja {
            assert(d[ja - 1 - jc] == s[ja - 1]);
        }
        assert(ja == jc);
        assert(b =~= s.subrange(ja, s.len() as int));
        assert(d =~= s.subrange(jc, s.len() as int));
        let a1 = a.drop_last();
        let c1 = c.drop_last();
        assert(joined(a) =~= s.subrange(0, ja));
        assert(joined(c) =~= s.subrange(0, jc));
        assert(joined(a1) + a.last() =~= joined(a).drop_last());
        assert(joined(c1) + c.last() =~= joined(c).drop_last());
        assert(all_lines_clean(a1)) by {
            assert forall|k: int| 0 <= k < a1.len() implies no_newline(#[trigger] a1[k]) by {
                assert(a1[k] == a[k]);
            }
        }
        assert(all_lines_clean(c1)) by {
            assert forall|k: int| 0 <= k < c1.len() implies no_newline(#[trigger] c1[k]) by {
                assert(c1[k] == c[k]);
            }
        }
        assert(no_newline(a[a.len() - 1]));
        assert(no_newline(c[c.len() - 1]));
        lemma_split_unique(a1, a.last(), c1, c.last());
        assert(a =~= a1.push(a.last()));
        assert(c =~= c1.push(c.last()));
    }
}

/// Reassembles lines of the event stream from pieces of bytes that may split
/// a line anywhere.
pub struct LineBuffer {
    partial: Vec<u8>,
    seen: Ghost<Seq<u8>>,
    lines: Ghost<Seq<Seq<u8>>>,
}

impl LineBuffer {
    /// All bytes pushed so far.
    pub closed spec fn seen(&self) -> Seq<u8> {
        self.seen@
    }

    /// All complete lines handed out so far, without their newlines.
    pub closed spec fn lines(&self) -> Seq<Seq<u8>> {
        self.lines@
    }

    /// The bytes of the line not yet ended.
    pub closed spec fn pending(&self) -> Seq<u8> {
        self.partial@
    }

    pub closed spec fn wf(&self) -> bool {
        &&& joined(self.lines@) + self.partial@ == self.seen@
        &&& all_lines_clean(self.lines@)
        &&& no_newline(self.partial@)
    }

    pub fn new() -> (r: LineBuffer)
        ensures
            r.wf(),
            r.seen() == Seq::<u8>::empty(),
            r.lines() == Seq::<Seq<u8>>::empty(),
    {
        let r = LineBuffer { partial: Vec::new(), seen: Ghost(Seq::empty()), lines: Ghost(Seq::empty()) };
        assert(joined(r.lines@) + r.partial@ =~= r.seen@);
        r
    }

    /// Takes the next piece of the stream and returns the lines it completes.
    pub fn push(&mut self, bytes: &[u8]) -> (r: Vec<Vec<u8>>)
        requires
            old(self).wf(),
        ensures
            final(self).wf(),
            final(self).seen() == old(self).seen() + bytes@,
            final(self).lines() == old(self).lines() + views(r@),
    {
        let mut out: Vec<Vec<u8>> = Vec::new();
        let ghost start_lines = self.lines@;
        let mut i: usize = 0;
        while i < bytes.len()
            invariant
                i <= bytes.len(),
                self.wf(),
                self.seen@ == old(self).seen@ + bytes@.subrange(0, i as int),
                self.lines@ == start_lines + views(out@),
                start_lines == old(self).lines@,
            decreases bytes.len() - i,
        {
            let b = bytes[i];
            let ghost prev_seen = self.seen@;
            let ghost prev_lines = self.lines@;
            let ghost prev_partial = self.partial@;
            if b == NEWLINE {
                let mut line: Vec<u8> = Vec::new();
                std::mem::swap(&mut line, &mut self.partial);
                proof {
                    self.lines@ = prev_lines.push(line@);
                    self.seen@ = prev_seen.push(b);
                    assert(self.lines@.drop_last() =~= prev_lines);
                    assert(joined(self.lines@) + self.partial@ =~= self.seen@);
                    assert(all_lines_clean(self.lines@)) by {
                        assert forall|k: int| 0 <= k < self.lines@.len() implies no_newline(
                            #[trigger] self.lines@[k],
                        ) by {
                            if k < prev_lines.len() {
                                assert(self.lines@[k] == prev_lines[k]);
                            }
                        }
                    }
                }
                let ghost prev_out = out@;
                out.push(line);
                proof {
                    assert(views(out@) =~= views(prev_out).push(self.lines@.last()));
                    assert(self.lines@ =~= start_lines + views(out@));
                }
            } else {
                self.partial.push(b);
                proof {
                    self.seen@ = prev_seen.push(b);
                    assert(joined(self.lines@) + self.partial@ =~= self.seen@);
                }
            }
            proof {
                assert(bytes@.subrange(0, i + 1) =~= bytes@.subrange(0, i as int).push(b));
            }
            i = i + 1;
        }
        assert(bytes@.subrange(0, i as int) =~= bytes@);
        out
    }
}

/// The lines that come out do not depend on how the stream was cut into
/// pieces: two buffers that were pushed the same bytes, in whatever pieces,
/// have handed out the same lines and hold the same pending bytes.
pub proof fn lemma_lines_independent_of_split(x: &LineBuffer, y: &LineBuffer)
    requires
        x.wf(),
        y.wf(),
        x.seen() == y.seen(),
    ensures
        x.lines() == y.lines(),
        x.pending() == y.pending(),
{
    lemma_split_unique(x.lines@, x.partial@, y.lines@, y.partial@);
}

} // verus!
