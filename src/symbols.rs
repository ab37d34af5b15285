//! The curated symbol universe that the feeds subscribe to.
use vstd::prelude::*;
use crate::model::Symbol;

verus! {

/// One symbol, as a symbol query returns it.
#[derive(Debug, Clone, PartialEq, Eq)]
pub struct QrySymbol {
    pub symbol: String,
}

/// The names of the symbols of `s` that are active, in order.
pub open spec fn active_names(s: Seq<Symbol>) -> Seq<Seq<char>>
    decreases s.len(),
{
    if s.len() == 0 {
        Seq::empty()
    } else if s.last().active {
        active_names(s.drop_last()).push(s.last().symbol@)
    } else {
        active_names(s.drop_last())
    }
}

/// The operator-curated list of tradable symbols.
#[derive(Debug, Clone, PartialEq, Eq)]
pub struct SymbolList {
    pub symbols: Vec<Symbol>,
}

impl SymbolList {
    /// The names of the active symbols, in list order.
    pub fn get_active_symbols(&self) -> (r: Vec<String>)
        ensures
            r@.map_values(|s: String| s@) == active_names(self.symbols@),
    {
        let mut out: Vec<String> = Vec::new();
        let mut i: usize = 0;
        while i < self.symbols.len()
            invariant
                i <= self.symbols@.len(),
                out@.map_values(|s: String| s@) == active_names(self.symbols@.take(i as int)),
            decreases self.symbols@.len() - i,
        {
            proof {
                assert(self.symbols@.take(i as int + 1).drop_last() =~= self.symbols@.take(i as int));
            }
            if self.symbols[i].active {
                let ghost before = out@;
                out.push(self.symbols[i].symbol.clone());
                proof {
                    assert(out@.map_values(|s: String| s@) =~= before.map_values(|s: String| s@).push(
                        self.symbols@[i as int].symbol@,
                    ));
                }
            }
            i = i + 1;
        }
        proof {
            assert(self.symbols@.take(i as int) =~= self.symbols@);
        }
        out
    }

    /// The names of all symbols, in list order.
    pub fn get_all_symbols(&self) -> (r: Vec<String>)
        ensures
            r@.len() == self.symbols@.len(),
            forall|i: int| 0 <= i < r@.len() ==> #[trigger] r@[i]@ == self.symbols@[i].symbol@,
    {
        let mut out: Vec<String> = Vec::new();
        let mut i: usize = 0;
        while i < self.symbols.len()
            invariant
                i <= self.symbols@.len(),
                out@.len() == i,
                forall|j: int| 0 <= j < i ==> #[trigger] out@[j]@ == self.symbols@[j].symbol@,
            decreases self.symbols@.len() - i,
        {
            out.push(self.symbols[i].symbol.clone());
            i = i + 1;
        }
        out
    }
}

} // verus!
