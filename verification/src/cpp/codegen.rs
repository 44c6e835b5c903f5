//! A brace-delimited block of C++ lines with optional text before and after it.

use vstd::prelude::*;
use vstd::string::*;

verus! {

pub struct LineBlock {
    before: Option<String>,
    after: Option<String>,
    lines: Vec<String>,
}

/// What a block holds: the text before the opening brace, the text after the closing brace,
/// and its lines.
pub struct BlockView {
    pub before: Option<Seq<char>>,
    pub after: Option<Seq<char>>,
    pub lines: Seq<Seq<char>>,
}

pub open spec fn opt_view(o: Option<String>) -> Option<Seq<char>> {
    match o {
        Some(s) => Some(s@),
        None => None,
    }
}

impl View for LineBlock {
    type V = BlockView;

    closed spec fn view(&self) -> BlockView {
        BlockView {
            before: opt_view(self.before),
            after: opt_view(self.after),
            lines: self.lines@.map_values(|s: String| s@),
        }
    }
}

/// The text of the first `n` lines, each followed by a newline.
pub open spec fn lines_text(lines: Seq<Seq<char>>, n: int) -> Seq<char>
    decreases n,
{
    if n <= 0 {
        Seq::empty()
    } else {
        lines_text(lines, n - 1) + lines[n - 1] + "\n"@
    }
}

/// How a block is displayed: `before` and a space, `{`, each line and a newline, `}`, `after`.
pub open spec fn block_text(b: BlockView) -> Seq<char> {
    let head = match b.before {
        Some(x) => x + " "@ + "{"@,
        None => "{"@,
    };
    let body = head + lines_text(b.lines, b.lines.len() as int) + "}"@;
    match b.after {
        Some(x) => body + x,
        None => body,
    }
}

impl LineBlock {
    pub fn new() -> (r: LineBlock)
        ensures
            r@ == (BlockView { before: None, after: None, lines: Seq::empty() }),
    {
        let r = LineBlock { before: None, after: None, lines: Vec::new() };
        proof {
            assert(r@.lines =~= Seq::<Seq<char>>::empty());
        }
        r
    }

    /// Sets the text written before the opening brace.
    pub fn before(&mut self, before: &str)
        ensures
            final(self)@ == (BlockView { before: Some(before@), ..old(self)@ }),
    {
        self.before = Some(String::from_str(before));
    }

    /// Sets the text written after the closing brace.
    pub fn after(&mut self, after: &str)
        ensures
            final(self)@ == (BlockView { after: Some(after@), ..old(self)@ }),
    {
        self.after = Some(String::from_str(after));
    }

    /// Adds a line.
    pub fn line(&mut self, line: &str)
        ensures
            final(self)@ == (BlockView { lines: old(self)@.lines.push(line@), ..old(self)@ }),
    {
        let ghost old_lines = self.lines@;
        self.lines.push(String::from_str(line));
        proof {
            assert(self.lines@.map_values(|s: String| s@) =~= old_lines.map_values(|s: String| s@).push(
                line@,
            ));
        }
    }

    /// Adds a nested block as one line holding its text.
    pub fn push_block(&mut self, block: LineBlock)
        ensures
            final(self)@ == (BlockView { lines: old(self)@.lines.push(block_text(block@)), ..old(self)@ }),
    {
        let t = block.to_text();
        self.line(t.as_str());
    }

    /// The block's text, as its `Display` writes it.
    pub fn to_text(&self) -> (r: String)
        ensures
            r@ == block_text(self@),
    {
        let mut w = String::new();
        match &self.before {
            Some(b) => {
                w.append(b.as_str());
                w.append(" ");
                w.append("{");
            },
            None => {
                w.append("{");
            },
        }
        let ghost head = w@;
        let mut i: usize = 0;
        while i < self.lines.len()
            invariant
                i <= self.lines@.len(),
                w@ =~= head + lines_text(self@.lines, i as int),
            decreases self.lines@.len() - i,
        {
            w.append(self.lines[i].as_str());
            w.append("\n");
            i = i + 1;
        }
        w.append("}");
        match &self.after {
            Some(a) => {
                w.append(a.as_str());
            },
            None => {},
        }
        proof {
            let b = self@;
            assert(b.lines.len() == self.lines@.len());
        }
        w
    }
}

} // verus!
