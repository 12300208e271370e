use vstd::prelude::*;
use vstd::string::StrSliceExecFns;

verus! {

/// Index of the first newline character in `s` at or after `from`, or
/// `s.len()` when none remains.
pub open spec fn find_newline(s: Seq<char>, from: int) -> int
    recommends
        0 <= from <= s.len(),
    decreases s.len() - from,
{
    if from >= s.len() {
        s.len() as int
    } else if s[from] == '\n' {
        from
    } else {
        find_newline(s, from + 1)
    }
}

/// `find_newline` names the first newline at or after `from`: nothing
/// before it is a newline, and it is one unless it is the end.
pub proof fn lemma_find_newline_spec(s: Seq<char>, from: int)
    requires
        0 <= from <= s.len(),
    ensures
        from <= find_newline(s, from) <= s.len(),
        find_newline(s, from) < s.len() ==> s[find_newline(s, from)] == '\n',
        forall|m: int| from <= m < find_newline(s, from) ==> s[m] != '\n',
    decreases s.len() - from,
{
    if from < s.len() && s[from] != '\n' {
        lemma_find_newline_spec(s, from + 1);
    }
}

/// Conversely, the first index that carries a newline (or the end, when
/// none does) is what `find_newline` returns.
pub proof fn lemma_find_newline_unique(s: Seq<char>, from: int, k: int)
    requires
        0 <= from <= k <= s.len(),
        forall|m: int| from <= m < k ==> s[m] != '\n',
        k < s.len() ==> s[k] == '\n',
    ensures
        find_newline(s, from) == k,
    decreases s.len() - from,
{
    if from < s.len() && s[from] != '\n' {
        lemma_find_newline_unique(s, from + 1, k);
    }
}

/// A newline-terminated segment as the buffer keeps it: a carriage return
/// standing just before the newline goes with it.
pub open spec fn strip_cr(line: Seq<char>) -> Seq<char> {
    if line.len() > 0 && line[line.len() - 1] == '\r' {
        line.drop_last()
    } else {
        line
    }
}

/// The lines a text splits into: the segments between newline characters,
/// each newline-terminated segment with a trailing carriage return
/// stripped, the segment after the last newline kept as it stands, and no
/// empty final segment when the text ends in a newline.
pub open spec fn split_lines(s: Seq<char>) -> Seq<Seq<char>>
    decreases s.len(),
    via split_lines_decreases
{
    if s.len() == 0 {
        Seq::empty()
    } else {
        let i = find_newline(s, 0);
        if i == s.len() {
            seq![s]
        } else {
            seq![strip_cr(s.take(i))] + split_lines(s.skip(i + 1))
        }
    }
}

#[via_fn]
proof fn split_lines_decreases(s: Seq<char>) {
    if s.len() > 0 {
        lemma_find_newline_spec(s, 0);
    }
}

/// No split line carries a newline character.
pub proof fn lemma_split_lines_no_newline(s: Seq<char>)
    ensures
        forall|k: int|
            0 <= k < split_lines(s).len() ==> !(#[trigger] split_lines(s)[k]).contains('\n'),
    decreases s.len(),
{
    if s.len() > 0 {
        lemma_find_newline_spec(s, 0);
        let i = find_newline(s, 0);
        if i == s.len() {
            assert(!s.contains('\n')) by {
                assert(forall|m: int| 0 <= m < s.len() ==> s[m] != '\n');
            }
        } else {
            lemma_split_lines_no_newline(s.skip(i + 1));
            let head = strip_cr(s.take(i));
            assert(!head.contains('\n')) by {
                assert(forall|m: int| 0 <= m < head.len() ==> head[m] == s[m] && s[m] != '\n');
            }
            assert(forall|k: int|
                1 <= k < split_lines(s).len() ==> split_lines(s)[k] == split_lines(
                    s.skip(i + 1),
                )[k - 1]);
        }
    }
}

/// In-memory ordered collection of the loaded file's lines, in file order.
/// No line holds a newline character: `load` splits them away.
pub struct Buffer {
    pub text: Vec<String>,
}

impl Buffer {
    /// No line of the buffer contains a newline character.
    pub open spec fn wf(self) -> bool {
        forall|i: int|
            0 <= i < self.text@.len() ==> !(#[trigger] self.text@[i])@.contains('\n')
    }

    /// Replace the contents with the lines of `content`, split as
    /// `split_lines` says; `None` (no file was named) leaves the buffer
    /// empty.  The text arrives whole: reading it from disk, and the
    /// choice of what to do when that fails, belong to the caller.
    pub fn load(&mut self, content: Option<String>)
        ensures
            final(self).text.deep_view() == match content {
                Option::Some(c) => split_lines(c@),
                Option::None => Seq::<Seq<char>>::empty(),
            },
            final(self).wf(),
    {
        self.text = Vec::new();
        if let Some(c) = content {
            let s = c.as_str();
            let n = s.unicode_len();
            let mut start: usize = 0;
            proof {
                assert(s@.skip(0) =~= s@);
                assert(Seq::<Seq<char>>::empty() + split_lines(s@) =~= split_lines(s@));
            }
            while start < n
                invariant
                    start <= n,
                    n == s@.len(),
                    self.text.deep_view() + split_lines(s@.skip(start as int)) == split_lines(s@),
                decreases n - start,
            {
                let ghost rem = s@.skip(start as int);
                let ghost dv_old = self.text.deep_view();
                // scan for the newline that ends this line
                let mut j: usize = start;
                while j < n && s.get_char(j) != '\n'
                    invariant
                        start <= j <= n,
                        n == s@.len(),
                        forall|m: int| start <= m < j ==> s@[m] != '\n',
                    decreases n - j,
                {
                    j = j + 1;
                }
                proof {
                    let k = j - start;
                    assert(forall|m: int| 0 <= m < k ==> rem[m] == s@[start + m] && s@[start + m]
                        != '\n');
                    lemma_find_newline_unique(rem, 0, k);
                }
                if j == n {
                    // no newline remains: the rest is the final line, as it stands
                    let line = s.substring_char(start, n).to_owned();
                    self.text.push(line);
                    proof {
                        assert(s@.subrange(start as int, n as int) =~= rem);
                        assert(self.text.deep_view() =~= dv_old + seq![rem]);
                        assert(s@.skip(n as int) =~= Seq::<char>::empty());
                        assert((dv_old + seq![rem]) + split_lines(s@.skip(n as int)) =~= dv_old
                            + split_lines(rem));
                    }
                    start = n;
                } else {
                    // strip one carriage return that the newline terminated
                    let end: usize = if j > start && s.get_char(j - 1) == '\r' {
                        j - 1
                    } else {
                        j
                    };
                    let line = s.substring_char(start, end).to_owned();
                    self.text.push(line);
                    proof {
                        let k = j - start;
                        assert(rem.take(k as int) =~= s@.subrange(start as int, j as int));
                        if j > start && s@[j - 1] == '\r' {
                            assert(rem.take(k as int).drop_last() =~= s@.subrange(
                                start as int,
                                end as int,
                            ));
                        }
                        assert(line@ == strip_cr(rem.take(k as int)));
                        assert(rem.skip(k + 1) =~= s@.skip(j + 1));
                        assert(self.text.deep_view() =~= dv_old + seq![line@]);
                        assert((dv_old + seq![line@]) + split_lines(s@.skip(j + 1)) =~= dv_old + (
                        seq![strip_cr(rem.take(k as int))] + split_lines(rem.skip(k + 1))));
                    }
                    start = j + 1;
                }
            }
            proof {
                assert(s@.skip(n as int) =~= Seq::<char>::empty());
                assert(self.text.deep_view() + split_lines(s@.skip(n as int))
                    =~= self.text.deep_view());
                lemma_split_lines_no_newline(s@);
                assert forall|i: int| 0 <= i < self.text@.len() implies !(
                #[trigger] self.text@[i])@.contains('\n') by {
                    assert(self.text.deep_view()[i] == self.text@[i]@);
                }
            }
        }
    }

    /// True exactly when the buffer holds no lines at all.
    pub fn is_empty(&self) -> (r: bool)
        ensures
            r == (self.text@.len() == 0),
    {
        self.text.len() == 0
    }
}

impl Default for Buffer {
    /// A buffer with no lines.
    fn default() -> (r: Self)
        ensures
            r.text@.len() == 0,
            r.wf(),
    {
        Buffer { text: Vec::new() }
    }
}

} // verus!
