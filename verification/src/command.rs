//! Shell commands as sequences of literal text and values that the driver
//! must quote before the command reaches a shell.

use vstd::prelude::*;

verus! {

/// One part of a shell command.
#[derive(Debug)]
pub enum Piece {
    /// Text that goes into the command as it stands.
    Lit(String),
    /// A value that the driver shell-quotes before it goes into the command.
    Quote(String),
}

/// The mathematical form of a [`Piece`].
pub enum PieceView {
    Lit(Seq<char>),
    Quote(Seq<char>),
}

impl View for Piece {
    type V = PieceView;

    open spec fn view(&self) -> PieceView {
        match self {
            Piece::Lit(s) => PieceView::Lit(s@),
            Piece::Quote(s) => PieceView::Quote(s@),
        }
    }
}

pub open spec fn lit(s: Seq<char>) -> PieceView {
    PieceView::Lit(s)
}

pub open spec fn quote(s: Seq<char>) -> PieceView {
    PieceView::Quote(s)
}

/// `s` where `b` holds, nothing otherwise.
pub open spec fn provided(b: bool, s: Seq<PieceView>) -> Seq<PieceView> {
    if b {
        s
    } else {
        Seq::empty()
    }
}

/// Whether two commands have the same literal text: piece by piece, the
/// same literal where one has a literal, and a quoted value where the other
/// has one, whatever the two values are.
pub open spec fn same_literals(c1: Seq<PieceView>, c2: Seq<PieceView>) -> bool {
    &&& c1.len() == c2.len()
    &&& forall|i: int|
        0 <= i < c1.len() ==> match (#[trigger] c1[i], c2[i]) {
            (PieceView::Lit(a), PieceView::Lit(b)) => a == b,
            (PieceView::Quote(_), PieceView::Quote(_)) => true,
            _ => false,
        }
}

/// Commands with the same literal text, put one after the other, have the
/// same literal text.
pub proof fn lemma_same_literals_concat(
    a1: Seq<PieceView>,
    a2: Seq<PieceView>,
    b1: Seq<PieceView>,
    b2: Seq<PieceView>,
)
    requires
        same_literals(a1, a2),
        same_literals(b1, b2),
    ensures
        same_literals(a1 + b1, a2 + b2),
{
    assert forall|i: int| 0 <= i < (a1 + b1).len() implies match (#[trigger] (a1 + b1)[i], (a2
        + b2)[i]) {
        (PieceView::Lit(a), PieceView::Lit(b)) => a == b,
        (PieceView::Quote(_), PieceView::Quote(_)) => true,
        _ => false,
    } by {
        if i < a1.len() {
            assert((a1 + b1)[i] == a1[i]);
            assert((a2 + b2)[i] == a2[i]);
        } else {
            assert((a1 + b1)[i] == b1[i - a1.len()]);
            assert((a2 + b2)[i] == b2[i - a1.len()]);
        }
    }
}

/// A shell command under construction.
#[derive(Debug)]
pub struct Command {
    pub pieces: Vec<Piece>,
}

impl View for Command {
    type V = Seq<PieceView>;

    open spec fn view(&self) -> Seq<PieceView> {
        self.pieces@.map_values(|p: Piece| p@)
    }
}

impl Command {
    pub fn new() -> (c: Command)
        ensures
            c@ == Seq::<PieceView>::empty(),
    {
        let c = Command { pieces: Vec::new() };
        assert(c@ =~= Seq::<PieceView>::empty());
        c
    }

    /// Appends literal text.
    pub fn lit(&mut self, s: &str)
        ensures
            final(self)@ == old(self)@.push(lit(s@)),
    {
        self.pieces.push(Piece::Lit(s.to_owned()));
        assert(self@ =~= old(self)@.push(lit(s@)));
    }

    /// Appends a value that is to be quoted.
    pub fn quote(&mut self, s: &str)
        ensures
            final(self)@ == old(self)@.push(quote(s@)),
    {
        self.pieces.push(Piece::Quote(s.to_owned()));
        assert(self@ =~= old(self)@.push(quote(s@)));
    }
}

} // verus!
