use vstd::prelude::*;

verus! {

/// Which backend a line source reads from.
#[derive(Clone, Copy, Debug, PartialEq, Eq, Structural)]
pub enum SourceKind {
    Stdin,
    File,
    Memory,
}

/// A line-reading capability: the characters delivered by its backend and
/// not yet handed out as lines, and whether the backend has reached its end.
pub struct LineSource {
    kind: SourceKind,
    pending: Vec<char>,
    ended: bool,
}

/// The mathematical model of a `LineSource`.
pub ghost struct SourceView {
    pub kind: SourceKind,
    pub pending: Seq<char>,
    pub ended: bool,
}

impl View for LineSource {
    type V = SourceView;

    closed spec fn view(&self) -> SourceView {
        SourceView { kind: self.kind, pending: self.pending@, ended: self.ended }
    }
}

/// What one attempt to read a line gives.
#[derive(Debug)]
pub enum LineRead {
    /// A line, without its terminator.
    Line(String),
    /// The backend has ended and every delivered character was handed out.
    EndOfInput,
    /// No complete line yet: the backend must deliver more characters first.
    NeedsInput,
}

pub ghost enum ReadView {
    Line(Seq<char>),
    EndOfInput,
    NeedsInput,
}

impl View for LineRead {
    type V = ReadView;

    open spec fn view(&self) -> ReadView {
        match self {
            LineRead::Line(s) => ReadView::Line(s@),
            LineRead::EndOfInput => ReadView::EndOfInput,
            LineRead::NeedsInput => ReadView::NeedsInput,
        }
    }
}

/// `i` is the position of the first line feed in `s`.
pub open spec fn is_first_newline(s: Seq<char>, i: int) -> bool {
    &&& 0 <= i < s.len()
    &&& s[i] == '\n'
    &&& forall|j: int| 0 <= j < i ==> s[j] != '\n'
}

pub open spec fn has_newline(s: Seq<char>) -> bool {
    exists|i: int| is_first_newline(s, i)
}

pub open spec fn first_newline(s: Seq<char>) -> int {
    choose|i: int| is_first_newline(s, i)
}

/// A line's text without a carriage return that preceded its line feed.
pub open spec fn strip_cr(s: Seq<char>) -> Seq<char> {
    if s.len() > 0 && s.last() == '\r' {
        s.drop_last()
    } else {
        s
    }
}

/// The outcome of one read on a source in state `v`, and the state after it.
pub open spec fn read_step(v: SourceView) -> (ReadView, SourceView) {
    if has_newline(v.pending) {
        let i = first_newline(v.pending);
        (
            ReadView::Line(strip_cr(v.pending.take(i))),
            SourceView { pending: v.pending.skip(i + 1), ..v },
        )
    } else if v.ended {
        if v.pending.len() == 0 {
            (ReadView::EndOfInput, v)
        } else {
            (ReadView::Line(v.pending), SourceView { pending: Seq::empty(), ..v })
        }
    } else {
        (ReadView::NeedsInput, v)
    }
}

/// Relies on String::push: the character is appended at the end.
#[verifier::external_body]
fn push_char(s: &mut String, c: char)
    ensures
        final(s)@ == old(s)@.push(c),
{
    s.push(c)
}

proof fn lemma_first_newline_unique(s: Seq<char>, i: int)
    requires
        is_first_newline(s, i),
    ensures
        has_newline(s),
        first_newline(s) == i,
{
    let k = first_newline(s);
    assert(is_first_newline(s, k));
    if k < i {
        assert(s[k] != '\n');
    } else if i < k {
        assert(s[i] != '\n');
    }
}

impl LineSource {
    /// A source fed from standard input; it starts with nothing delivered.
    pub fn stdin() -> (r: LineSource)
        ensures
            r@ == (SourceView { kind: SourceKind::Stdin, pending: Seq::empty(), ended: false }),
    {
        LineSource { kind: SourceKind::Stdin, pending: Vec::new(), ended: false }
    }

    /// A source fed from a file; it starts with nothing delivered.
    pub fn file() -> (r: LineSource)
        ensures
            r@ == (SourceView { kind: SourceKind::File, pending: Seq::empty(), ended: false }),
    {
        LineSource { kind: SourceKind::File, pending: Vec::new(), ended: false }
    }

    /// A source over a fixed in-memory text: all of it is delivered at once.
    pub fn memory(text: &str) -> (r: LineSource)
        ensures
            r@ == (SourceView { kind: SourceKind::Memory, pending: text@, ended: true }),
    {
        let mut r = LineSource { kind: SourceKind::Memory, pending: Vec::new(), ended: false };
        r.feed(text);
        r.finish();
        r
    }

    pub fn kind(&self) -> (r: SourceKind)
        ensures
            r == self@.kind,
    {
        self.kind
    }

    pub fn is_ended(&self) -> (r: bool)
        ensures
            r == self@.ended,
    {
        self.ended
    }

    /// Takes characters delivered by the backend. Once the source has ended,
    /// nothing more is taken.
    pub fn feed(&mut self, chunk: &str)
        ensures
            final(self)@.kind == old(self)@.kind,
            final(self)@.ended == old(self)@.ended,
            final(self)@.pending == if old(self)@.ended {
                old(self)@.pending
            } else {
                old(self)@.pending + chunk@
            },
    {
        if self.ended {
            return;
        }
        let n = chunk.unicode_len();
        let ghost start = self.pending@;
        let mut i: usize = 0;
        while i < n
            invariant
                n == chunk@.len(),
                i <= n,
                self.kind == old(self).kind,
                self.ended == old(self).ended,
                start == old(self)@.pending,
                self.pending@ == start + chunk@.take(i as int),
            decreases n - i,
        {
            let c = chunk.get_char(i);
            self.pending.push(c);
            i = i + 1;
            assert(chunk@.take(i as int) == chunk@.take((i - 1) as int).push(c));
        }
        assert(chunk@.take(n as int) == chunk@);
    }

    /// Records that the backend has delivered everything it has.
    pub fn finish(&mut self)
        ensures
            final(self)@ == (SourceView { ended: true, ..old(self)@ }),
    {
        self.ended = true;
    }

    /// Reads one line: the characters up to the first line feed, without the
    /// line feed and a carriage return just before it. A final line with no
    /// terminator is returned once the source has ended; after that every
    /// read gives end-of-input.
    pub fn read_line(&mut self) -> (r: LineRead)
        ensures
            (r@, final(self)@) == read_step(old(self)@),
    {
        let n = self.pending.len();
        let mut i: usize = 0;
        while i < n && self.pending[i] != '\n'
            invariant
                n == self.pending@.len(),
                i <= n,
                forall|j: int| 0 <= j < i ==> self.pending@[j] != '\n',
            decreases n - i,
        {
            i = i + 1;
        }
        let ghost p = self.pending@;
        if i < n {
            proof {
                lemma_first_newline_unique(self.pending@, i as int);
            }
            let end: usize = if i > 0 && self.pending[i - 1] == '\r' {
                i - 1
            } else {
                i
            };
            proof {
                if end < i {
                    assert(p.take(i as int).last() == p[i - 1]);
                    assert(p.take(i as int).drop_last() =~= p.take(end as int));
                } else if i > 0 {
                    assert(p.take(i as int).last() == p[i - 1]);
                }
            }
            let line = self.take_prefix(end, i + 1);
            LineRead::Line(line)
        } else {
            assert(!has_newline(self.pending@));
            if !self.ended {
                LineRead::NeedsInput
            } else if n == 0 {
                LineRead::EndOfInput
            } else {
                let line = self.take_prefix(n, n);
                assert(p.take(n as int) =~= p);
                assert(p.skip(n as int) =~= Seq::<char>::empty());
                LineRead::Line(line)
            }
        }
    }

    /// Returns the first `end` pending characters and drops the first `drop`.
    fn take_prefix(&mut self, end: usize, drop: usize) -> (r: String)
        requires
            end <= drop <= old(self)@.pending.len(),
        ensures
            r@ == old(self)@.pending.take(end as int),
            final(self)@ == (SourceView { pending: old(self)@.pending.skip(drop as int), ..old(self)@ }),
    {
        let mut line = String::new();
        let mut k: usize = 0;
        while k < end
            invariant
                k <= end <= drop <= self.pending@.len(),
                self.pending@ == old(self).pending@,
                line@ == self.pending@.take(k as int),
            decreases end - k,
        {
            push_char(&mut line, self.pending[k]);
            k = k + 1;
            assert(self.pending@.take(k as int) == self.pending@.take((k - 1) as int).push(
                self.pending@[k - 1],
            ));
        }
        let mut rest: Vec<char> = Vec::new();
        let mut m: usize = drop;
        let len = self.pending.len();
        while m < len
            invariant
                drop <= m <= len,
                len == self.pending@.len(),
                self.pending@ == old(self).pending@,
                rest@ == self.pending@.subrange(drop as int, m as int),
            decreases len - m,
        {
            rest.push(self.pending[m]);
            m = m + 1;
            assert(self.pending@.subrange(drop as int, m as int) == self.pending@.subrange(
                drop as int,
                (m - 1) as int,
            ).push(self.pending@[m - 1]));
        }
        self.pending = rest;
        line
    }
}

/// A final line without a terminator is returned once, and the read after
/// it signals end-of-input.
pub proof fn law_unterminated_last_line(v: SourceView)
    requires
        v.ended,
        v.pending.len() > 0,
        forall|j: int| 0 <= j < v.pending.len() ==> v.pending[j] != '\n',
    ensures
        read_step(v).0 == ReadView::Line(v.pending),
        read_step(read_step(v).1).0 == ReadView::EndOfInput,
{
    let after = read_step(v).1;
    assert(after.pending.len() == 0);
    assert(!has_newline(after.pending));
}

} // verus!
