use vstd::prelude::*;

verus! {

/// The characters the console sends for `s`: each newline goes out as a
/// carriage return followed by the newline.
pub open spec fn console_output(s: Seq<char>) -> Seq<char>
    decreases s.len(),
{
    if s.len() == 0 {
        Seq::empty()
    } else if s.last() == '\n' {
        console_output(s.drop_last()) + seq!['\r', '\n']
    } else {
        console_output(s.drop_last()).push(s.last())
    }
}

proof fn lemma_console_output_len(s: Seq<char>)
    ensures
        console_output(s).len() <= 2 * s.len(),
    decreases s.len(),
{
    if s.len() > 0 {
        lemma_console_output_len(s.drop_last());
    }
}

/// The console's state: how many characters it has sent.
pub struct QEMUOutputInner {
    cnt: usize,
}

impl QEMUOutputInner {
    pub closed spec fn count(&self) -> usize {
        self.cnt
    }

    /// A console that has sent nothing.
    pub fn new() -> (r: Self)
        ensures
            r.count() == 0,
    {
        QEMUOutputInner { cnt: 0 }
    }

    /// Sends one character: appends it to `out` and counts it.
    pub fn write_char(&mut self, c: char, out: &mut Vec<char>)
        requires
            old(self).count() < usize::MAX,
        ensures
            final(out)@ == old(out)@.push(c),
            final(self).count() == old(self).count() + 1,
    {
        out.push(c);
        self.cnt = self.cnt + 1;
    }

    /// Sends a string, each newline preceded by a carriage return: appends
    /// the characters to `out` and counts them.
    pub fn write_str(&mut self, s: &str, out: &mut Vec<char>)
        requires
            old(self).count() + 2 * s@.len() <= usize::MAX,
        ensures
            final(out)@ == old(out)@ + console_output(s@),
            final(self).count() == old(self).count() + console_output(s@).len(),
    {
        let n = s.unicode_len();
        let mut i: usize = 0;
        while i < n
            invariant
                n == s@.len(),
                0 <= i <= n,
                old(self).count() + 2 * s@.len() <= usize::MAX,
                out@ == old(out)@ + console_output(s@.subrange(0, i as int)),
                self.count() == old(self).count() + console_output(s@.subrange(0, i as int)).len(),
            decreases n - i,
        {
            let c = s.get_char(i);
            proof {
                let next = s@.subrange(0, i + 1);
                assert(next.drop_last() =~= s@.subrange(0, i as int));
                assert(next.last() == c);
                lemma_console_output_len(s@.subrange(0, i as int));
            }
            if c == '\n' {
                self.write_char('\r', out);
            }
            self.write_char(c, out);
            proof {
                assert(out@ =~= old(out)@ + console_output(s@.subrange(0, i + 1)));
            }
            i = i + 1;
        }
        proof {
            assert(s@.subrange(0, n as int) =~= s@);
        }
    }

    /// How many characters the console has sent.
    pub fn chars_written(&self) -> (r: usize)
        ensures
            r == self.count(),
    {
        self.cnt
    }
}

} // verus!
