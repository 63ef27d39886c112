//! One lexical level: the variables and the arrays declared in it.

use crate::history::{BlurValue, BlurView};
use crate::table::Table;
use vstd::prelude::*;

verus! {

/// The variables and arrays of one lexical level. The two kinds of name do
/// not shadow each other.
#[derive(Debug)]
pub struct Scope {
    pub vars: Table<BlurValue>,
    pub arrays: Table<Vec<BlurValue>>,
}

/// The mathematical content of a [`Scope`].
pub struct ScopeView {
    pub vars: Map<Seq<char>, BlurView>,
    pub arrays: Map<Seq<char>, Seq<BlurView>>,
}

/// The cells of an array as a sequence of their contents.
pub open spec fn cells_view(cells: Seq<BlurValue>) -> Seq<BlurView> {
    Seq::new(cells.len(), |i: int| cells[i]@)
}

impl View for Scope {
    type V = ScopeView;

    open spec fn view(&self) -> ScopeView {
        ScopeView {
            vars: self.vars@.map_values(|cell: BlurValue| cell@),
            arrays: self.arrays@.map_values(|cells: Vec<BlurValue>| cells_view(cells@)),
        }
    }
}

impl ScopeView {
    /// A level in which nothing is declared.
    pub open spec fn empty() -> ScopeView {
        ScopeView { vars: Map::empty(), arrays: Map::empty() }
    }
}

impl Scope {
    /// A level in which nothing is declared.
    pub fn new() -> (r: Scope)
        ensures
            r@ == ScopeView::empty(),
    {
        let r = Scope { vars: Table::new(), arrays: Table::new() };
        assert(r@.vars =~= Map::<Seq<char>, BlurView>::empty());
        assert(r@.arrays =~= Map::<Seq<char>, Seq<BlurView>>::empty());
        r
    }

    /// Binds a variable in this level, in place of one of the same name.
    pub fn declare_var(&mut self, name: String, cell: BlurValue)
        ensures
            final(self)@ == (ScopeView { vars: old(self)@.vars.insert(name@, cell@), ..old(self)@ }),
    {
        self.vars.insert(name, cell);
        assert(self@.vars =~= old(self)@.vars.insert(name@, cell@));
    }

    /// Binds an array in this level, in place of one of the same name.
    pub fn declare_array(&mut self, name: String, cells: Vec<BlurValue>)
        ensures
            final(self)@ == (ScopeView {
                arrays: old(self)@.arrays.insert(name@, cells_view(cells@)),
                ..old(self)@
            }),
    {
        self.arrays.insert(name, cells);
        assert(self@.arrays =~= old(self)@.arrays.insert(name@, cells_view(cells@)));
    }
}

} // verus!
