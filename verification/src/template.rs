//! The type that turns a token into a type of its own.
use crate::pvt;
use crate::token::Site;
use crate::token::Token;
use crate::token_of;
use vstd::prelude::*;

verus! {

/// A marker type specialised at the coordinates of one place.
///
/// It holds nothing and is never constructed: it exists to be a type that
/// differs from every specialisation at other coordinates.
pub struct Template<const COLUMN: u32, const LINE: u32, const FILE: u64>(());

impl<const COLUMN: u32, const LINE: u32, const FILE: u64> pvt::Unique for Template<
    COLUMN,
    LINE,
    FILE,
> {
    open spec fn token() -> Token {
        Token::unique(COLUMN, LINE, FILE)
    }
}

/// A specialisation's token stands for the coordinates it was made at.
pub proof fn lemma_template_site<const COLUMN: u32, const LINE: u32, const FILE: u64>()
    ensures
        token_of::<Template<COLUMN, LINE, FILE>>()@ == (Site {
            column: COLUMN as nat,
            line: LINE as nat,
            file: FILE as nat,
        }),
{
    Token::lemma_unique_site(COLUMN, LINE, FILE);
}

/// Two specialisations have the same token exactly when they were made at the
/// same coordinates. So specialisations at different places are different
/// types, and one place gives one type however often it is named.
pub proof fn lemma_template_identity<
    const C1: u32,
    const L1: u32,
    const F1: u64,
    const C2: u32,
    const L2: u32,
    const F2: u64,
>()
    ensures
        (token_of::<Template<C1, L1, F1>>() == token_of::<Template<C2, L2, F2>>()) <==> (C1 == C2
            && L1 == L2 && F1 == F2),
{
    lemma_template_site::<C1, L1, F1>();
    lemma_template_site::<C2, L2, F2>();
}

} // verus!
