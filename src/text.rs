//! Text helpers: case conversion of symbols and the encodings used when
//! talking to the broker.
use vstd::prelude::*;

verus! {

/// What `str::to_lowercase` returns for the given characters.
pub uninterp spec fn lower_of(s: Seq<char>) -> Seq<char>;

/// What `str::to_uppercase` returns for the given characters.
pub uninterp spec fn upper_of(s: Seq<char>) -> Seq<char>;

/// Relies on `str::to_lowercase`: the result depends on the characters alone,
/// and the empty string stays empty.
#[verifier::external_body]
pub(crate) fn lowercase(s: &str) -> (r: String)
    ensures
        r@ == lower_of(s@),
        s@.len() == 0 ==> r@.len() == 0,
{
    s.to_lowercase()
}

/// Relies on `str::to_uppercase`: the result depends on the characters alone,
/// and the empty string stays empty.
#[verifier::external_body]
pub(crate) fn uppercase(s: &str) -> (r: String)
    ensures
        r@ == upper_of(s@),
        s@.len() == 0 ==> r@.len() == 0,
{
    s.to_uppercase()
}

/// The symbol list as the broker's subscribe requests name it: each symbol
/// upper-cased, in the order given.
pub fn stock_list_to_uppercase(lower_stock: &Vec<String>) -> (r: Vec<String>)
    ensures
        r@.len() == lower_stock@.len(),
        forall|i: int| 0 <= i < r@.len() ==> #[trigger] r@[i]@ == upper_of(lower_stock@[i]@),
{
    let mut out: Vec<String> = Vec::new();
    let mut i: usize = 0;
    while i < lower_stock.len()
        invariant
            i <= lower_stock@.len(),
            out@.len() == i,
            forall|j: int| 0 <= j < i ==> #[trigger] out@[j]@ == upper_of(lower_stock@[j]@),
        decreases lower_stock@.len() - i,
    {
        out.push(uppercase(lower_stock[i].as_str()));
        i = i + 1;
    }
    out
}

} // verus!
