//! Captured standard output and error text of one core command.
use vstd::prelude::*;

verus! {

/// The text a core command writes to its standard output and error streams.
#[derive(Clone, Debug)]
pub struct CoreCommandOutput {
    pub stdout: String,
    pub stderr: String,
}

/// One output line: the text followed by a newline.
pub open spec fn line(s: Seq<char>) -> Seq<char> {
    s + seq!['\n']
}

/// Lines written one after another.
pub open spec fn lines_text(ls: Seq<Seq<char>>) -> Seq<char>
    decreases ls.len(),
{
    if ls.len() == 0 {
        Seq::empty()
    } else {
        lines_text(ls.drop_last()) + line(ls.last())
    }
}

impl CoreCommandOutput {
    /// An output with nothing written yet.
    pub fn new() -> (r: Self)
        ensures
            r.stdout@ == Seq::<char>::empty(),
            r.stderr@ == Seq::<char>::empty(),
    {
        CoreCommandOutput { stdout: String::new(), stderr: String::new() }
    }

    /// Writes text to standard output.
    pub fn push_stdout(&mut self, text: &str)
        ensures
            final(self).stdout@ == old(self).stdout@ + text@,
            final(self).stderr@ == old(self).stderr@,
    {
        self.stdout.append(text);
    }

    /// Writes one line to standard output.
    pub fn push_stdout_line(&mut self, text: &str)
        ensures
            final(self).stdout@ == old(self).stdout@ + line(text@),
            final(self).stderr@ == old(self).stderr@,
    {
        self.stdout.append(text);
        self.stdout.append("\n");
        proof {
            reveal_strlit("\n");
        }
        assert(self.stdout@ =~= old(self).stdout@ + line(text@));
    }

    /// Writes lines to standard output.
    pub fn push_stdout_lines(&mut self, lines: &Vec<String>)
        ensures
            final(self).stdout@ == old(self).stdout@ + lines_text(crate::text::views(lines@)),
            final(self).stderr@ == old(self).stderr@,
    {
        let mut i: usize = 0;
        assert(crate::text::views(lines@).subrange(0, 0) =~= Seq::<Seq<char>>::empty());
        while i < lines.len()
            invariant
                i <= lines.len(),
                self.stdout@ =~= old(self).stdout@ + lines_text(crate::text::views(lines@).subrange(0, i as int)),
                self.stderr@ == old(self).stderr@,
            decreases lines.len() - i,
        {
            self.push_stdout_line(lines[i].as_str());
            proof {
                let v = crate::text::views(lines@);
                assert(v.subrange(0, i + 1).drop_last() =~= v.subrange(0, i as int));
                assert(v.subrange(0, i + 1).last() == lines@[i as int]@);
            }
            i = i + 1;
        }
        assert(crate::text::views(lines@).subrange(0, lines.len() as int) =~= crate::text::views(lines@));
    }

    /// Writes one line to standard error.
    pub fn push_stderr_line(&mut self, text: &str)
        ensures
            final(self).stderr@ == old(self).stderr@ + line(text@),
            final(self).stdout@ == old(self).stdout@,
    {
        self.stderr.append(text);
        self.stderr.append("\n");
        proof {
            reveal_strlit("\n");
        }
        assert(self.stderr@ =~= old(self).stderr@ + line(text@));
    }
}

} // verus!
