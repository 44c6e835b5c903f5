//! A builder for signals.

use crate::configuration::{CopyArgument, CopyType, Signal};
use vstd::prelude::*;
use vstd::string::*;

verus! {

/// A signal under construction: its arguments so far, in order.
#[derive(Default)]
pub struct Sig<'a> {
    arguments: Vec<(&'a str, CopyType)>,
}

impl<'a> View for Sig<'a> {
    type V = Seq<(Seq<char>, CopyType)>;

    closed spec fn view(&self) -> Seq<(Seq<char>, CopyType)> {
        self.arguments@.map_values(|a: (&'a str, CopyType)| (a.0@, a.1))
    }
}

impl<'a> Sig<'a> {
    /// A signal without arguments.
    pub fn new() -> (r: Sig<'a>)
        ensures
            r@ == Seq::<(Seq<char>, CopyType)>::empty(),
    {
        Sig { arguments: Vec::new() }
    }

    /// Adds an argument.
    pub fn arg(self, name: &'a str, typ: CopyType) -> (r: Self)
        ensures
            r@ == self@.push((name@, typ)),
    {
        let mut s = self;
        s.arguments.push((name, typ));
        proof {
            assert(s@ =~= self@.push((name@, typ)));
        }
        s
    }

    /// The signal, with the arguments in the order they were added.
    pub fn build(self) -> (r: Signal)
        ensures
            r.arguments@.len() == self@.len(),
            forall|i: int|
                0 <= i < self@.len() ==> (#[trigger] r.arguments@[i]).name@ == self@[i].0 && r.arguments@[i].argument_type
                    == self@[i].1,
    {
        let mut arguments: Vec<CopyArgument> = Vec::new();
        let mut i: usize = 0;
        while i < self.arguments.len()
            invariant
                i <= self.arguments@.len(),
                arguments@.len() == i,
                forall|j: int|
                    0 <= j < i ==> (#[trigger] arguments@[j]).name@ == self@[j].0 && arguments@[j].argument_type == self@[j].1,
            decreases self.arguments@.len() - i,
        {
            let (name, typ) = self.arguments[i];
            arguments.push(CopyArgument { name: String::from_str(name), argument_type: typ });
            i = i + 1;
        }
        Signal { arguments }
    }
}

} // verus!
