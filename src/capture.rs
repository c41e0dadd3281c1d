use vstd::prelude::*;

verus! {

/// A text made of `lines`, each followed by a newline.
pub open spec fn joined_lines(lines: Seq<Seq<char>>) -> Seq<char>
    decreases lines.len(),
{
    if lines.len() == 0 {
        Seq::empty()
    } else {
        joined_lines(lines.drop_last()) + lines.last() + seq!['\n']
    }
}

/// A line as a line reader yields it: without a newline in it.
pub open spec fn newline_free(line: Seq<char>) -> bool {
    forall|i: int| 0 <= i < line.len() ==> line[i] != '\n'
}

/// Every line of `lines` is free of newlines.
pub open spec fn all_newline_free(lines: Seq<Seq<char>>) -> bool {
    forall|i: int| 0 <= i < lines.len() ==> newline_free(#[trigger] lines[i])
}

/// The number of newlines in a text.
pub open spec fn newline_count(text: Seq<char>) -> nat
    decreases text.len(),
{
    if text.len() == 0 {
        0
    } else {
        newline_count(text.drop_last()) + if text.last() == '\n' {
            1nat
        } else {
            0nat
        }
    }
}

/// The captured text of one output stream, built line by line while the
/// stream is read.
///
/// Pushing the lines of `lines` in order onto an empty buffer leaves it
/// holding `joined_lines(lines)`: it starts empty, and each push adds exactly
/// the step by which `joined_lines` grows.
pub struct StreamBuffer {
    text: String,
}

impl View for StreamBuffer {
    type V = Seq<char>;

    closed spec fn view(&self) -> Seq<char> {
        self.text@
    }
}

impl StreamBuffer {
    /// An empty buffer.
    pub fn new() -> (r: StreamBuffer)
        ensures
            r@ == joined_lines(Seq::empty()),
    {
        StreamBuffer { text: String::new() }
    }

    /// Appends `line` and a newline.
    pub fn push_line(&mut self, line: &str)
        ensures
            final(self)@ == old(self)@ + line@ + seq!['\n'],
            forall|lines: Seq<Seq<char>>|
                old(self)@ == joined_lines(lines) ==> final(self)@ == #[trigger] joined_lines(
                    lines.push(line@),
                ),
    {
        self.text.append(line);
        self.text.append("\n");
        proof {
            reveal_strlit("\n");
            assert("\n"@ =~= seq!['\n']);
            assert forall|lines: Seq<Seq<char>>|
                old(self)@ == joined_lines(lines) implies self@ == #[trigger] joined_lines(
                lines.push(line@),
            ) by {
                assert(lines.push(line@).drop_last() =~= lines);
            }
        }
    }

    /// The captured text.
    pub fn as_str(&self) -> (r: &str)
        ensures
            r@ == self@,
    {
        self.text.as_str()
    }

    /// The captured text, taken out of the buffer.
    pub fn into_string(self) -> (r: String)
        ensures
            r@ == self@,
    {
        self.text
    }
}

/// The number of newlines in a concatenation is the sum of the two counts.
proof fn lemma_newline_count_concat(a: Seq<char>, b: Seq<char>)
    ensures
        newline_count(a + b) == newline_count(a) + newline_count(b),
    decreases b.len(),
{
    if b.len() == 0 {
        assert(a + b =~= a);
    } else {
        lemma_newline_count_concat(a, b.drop_last());
        assert((a + b).drop_last() =~= a + b.drop_last());
    }
}

/// A line without newlines counts none.
proof fn lemma_newline_free_count(line: Seq<char>)
    requires
        newline_free(line),
    ensures
        newline_count(line) == 0,
    decreases line.len(),
{
    if line.len() > 0 {
        lemma_newline_free_count(line.drop_last());
    }
}

/// Capturing N lines that hold no newline gives a text with exactly N
/// newlines: one per line, none lost and none added.
pub proof fn lemma_captured_line_count(lines: Seq<Seq<char>>)
    requires
        all_newline_free(lines),
    ensures
        newline_count(joined_lines(lines)) == lines.len(),
    decreases lines.len(),
{
    if lines.len() > 0 {
        let rest = lines.drop_last();
        assert(all_newline_free(rest)) by {
            assert forall|i: int| 0 <= i < rest.len() implies newline_free(#[trigger] rest[i]) by {
                assert(rest[i] == lines[i]);
            }
        }
        lemma_captured_line_count(rest);
        assert(newline_free(lines[lines.len() - 1]));
        lemma_newline_free_count(lines.last());
        lemma_newline_count_concat(joined_lines(rest), lines.last());
        lemma_newline_count_concat(joined_lines(rest) + lines.last(), seq!['\n']);
        assert(seq!['\n'].drop_last() =~= Seq::<char>::empty());
        assert(newline_count(Seq::<char>::empty()) == 0);
        assert(seq!['\n'].last() == '\n');
        assert(newline_count(seq!['\n']) == 1);
    }
}

/// A non-empty joined text ends with a newline.
proof fn lemma_joined_ends_in_newline(lines: Seq<Seq<char>>)
    requires
        lines.len() > 0,
    ensures
        joined_lines(lines).len() > 0,
        joined_lines(lines).last() == '\n',
{
}

/// Two captures of lines without newlines give the same text only when they
/// captured the same lines in the same order: the captured text keeps every
/// line and their order.
pub proof fn lemma_captured_lines_determined(a: Seq<Seq<char>>, b: Seq<Seq<char>>)
    requires
        all_newline_free(a),
        all_newline_free(b),
        joined_lines(a) == joined_lines(b),
    ensures
        a == b,
    decreases a.len() + b.len(),
{
    if a.len() == 0 && b.len() == 0 {
        assert(a =~= b);
    } else if a.len() == 0 {
        lemma_joined_ends_in_newline(b);
    } else if b.len() == 0 {
        lemma_joined_ends_in_newline(a);
    } else {
        let ra = a.drop_last();
        let rb = b.drop_last();
        let la = a.last();
        let lb = b.last();
        let ja = joined_lines(ra);
        let jb = joined_lines(rb);
        let t = joined_lines(a);
        assert(newline_free(la)) by {
            assert(a[a.len() - 1] == la);
        }
        assert(newline_free(lb)) by {
            assert(b[b.len() - 1] == lb);
        }
        assert(t.drop_last() =~= ja + la);
        assert(joined_lines(b).drop_last() =~= jb + lb);
        let u = ja + la;
        assert(u == jb + lb);
        if la.len() < lb.len() {
            // The character just before `la` lies inside `lb`, and is the
            // newline that ends `ja`.
            if ra.len() == 0 {
                assert(ja.len() == 0);
                assert(u.len() == la.len());
            } else {
                lemma_joined_ends_in_newline(ra);
                let k = u.len() - la.len() - 1;
                assert(u[k] == ja.last());
                assert(u[k] == lb[k - jb.len()]);
            }
        } else if lb.len() < la.len() {
            if rb.len() == 0 {
                assert(jb.len() == 0);
                assert(u.len() == lb.len());
            } else {
                lemma_joined_ends_in_newline(rb);
                let k = u.len() - lb.len() - 1;
                assert(u[k] == jb.last());
                assert(u[k] == la[k - ja.len()]);
            }
        } else {
            assert(ja =~= u.subrange(0, ja.len() as int));
            assert(jb =~= u.subrange(0, jb.len() as int));
            assert(la =~= u.subrange(ja.len() as int, u.len() as int));
            assert(lb =~= u.subrange(jb.len() as int, u.len() as int));
            assert(all_newline_free(ra)) by {
                assert forall|i: int| 0 <= i < ra.len() implies newline_free(#[trigger] ra[i]) by {
                    assert(ra[i] == a[i]);
                }
            }
            assert(all_newline_free(rb)) by {
                assert forall|i: int| 0 <= i < rb.len() implies newline_free(#[trigger] rb[i]) by {
                    assert(rb[i] == b[i]);
                }
            }
            lemma_captured_lines_determined(ra, rb);
            assert(a =~= ra.push(la));
            assert(b =~= rb.push(lb));
        }
    }
}

} // verus!
