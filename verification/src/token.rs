//! Identity tokens: the values that key a [`Template`](crate::Template).
use vstd::prelude::*;

verus! {

/// A place in the program text, as mathematical coordinates.
pub ghost struct Site {
    pub column: nat,
    pub line: nat,
    pub file: nat,
}

/// A value that identifies one place in the program text.
///
/// Two tokens are equal exactly when they were made from the same
/// coordinates. A token offers nothing but that comparison.
#[derive(PartialEq, Eq, Structural)]
pub struct Token {
    column: u32,
    line: u32,
    file: u64,
}

impl View for Token {
    type V = Site;

    closed spec fn view(&self) -> Site {
        Site { column: self.column as nat, line: self.line as nat, file: self.file as nat }
    }
}

impl Token {
    /// The token of the place with the given coordinates.
    pub closed spec fn spec_unique(column: u32, line: u32, file: u64) -> Token {
        Token { column, line, file }
    }

    /// Combines the coordinates of a place into its token.
    ///
    /// The token stands for a type that no other place can produce only as
    /// long as the coordinates are those of the place where the call is
    /// written. Nothing here can check that: a caller that passes made-up
    /// coordinates gets a token that may collide with an honest one.
    #[verifier::when_used_as_spec(spec_unique)]
    pub fn unique(column: u32, line: u32, file: u64) -> (token: Token)
        ensures
            token == Token::spec_unique(column, line, file),
            token@ == (Site { column: column as nat, line: line as nat, file: file as nat }),
    {
        Token { column, line, file }
    }

    /// The token of a place stands for that place.
    pub proof fn lemma_unique_site(column: u32, line: u32, file: u64)
        ensures
            Token::unique(column, line, file)@ == (Site {
                column: column as nat,
                line: line as nat,
                file: file as nat,
            }),
    {
    }

    /// Two tokens are equal exactly when they stand for the same place.
    pub proof fn lemma_identity(a: Token, b: Token)
        ensures
            (a == b) <==> (a@ == b@),
    {
    }
}

} // verus!
