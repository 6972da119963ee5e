//! Lines for the event log, in the order in which they are written.

use crate::text;
use vstd::prelude::*;

verus! {

pub struct Notes {
    pub lines: Vec<String>,
}

impl View for Notes {
    type V = Seq<Seq<char>>;

    open spec fn view(&self) -> Seq<Seq<char>> {
        text::texts(self.lines@)
    }
}

impl Notes {
    pub fn none() -> (r: Notes)
        ensures
            r@ == Seq::<Seq<char>>::empty(),
    {
        let r = Notes { lines: Vec::new() };
        assert(r@ =~= Seq::<Seq<char>>::empty());
        r
    }

    pub fn one(line: String) -> (r: Notes)
        ensures
            r@ == seq![line@],
    {
        let mut r = Notes::none();
        r.add(line);
        assert(r@ =~= seq![line@]);
        r
    }

    pub fn say(line: &str) -> (r: Notes)
        ensures
            r@ == seq![line@],
    {
        Notes::one(line.to_owned())
    }

    pub fn add(&mut self, line: String)
        ensures
            final(self)@ == old(self)@.push(line@),
    {
        let ghost before = self@;
        self.lines.push(line);
        assert(self@ =~= before.push(line@));
    }

    pub fn append(&mut self, other: Notes)
        ensures
            final(self)@ == old(self)@ + other@,
    {
        let ghost before = self@;
        let ghost more = other@;
        let mut lines = other.lines;
        self.lines.append(&mut lines);
        assert(self@ =~= before + more);
    }
}

} // verus!
