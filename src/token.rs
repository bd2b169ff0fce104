use vstd::prelude::*;

verus! {

/// A device push token as stored by the registry.
#[derive(Clone, Debug)]
pub struct Token {
    pub created_at: u64,
    pub id: String,
    pub token: String,
}

/// The mathematical value of a `Token`.
pub ghost struct TokenView {
    pub created_at: u64,
    pub id: Seq<char>,
    pub token: Seq<char>,
}

impl View for Token {
    type V = TokenView;

    open spec fn view(&self) -> TokenView {
        TokenView { created_at: self.created_at, id: self.id@, token: self.token@ }
    }
}

impl Token {
    /// A copy of the record with the same fields.
    pub fn duplicate(&self) -> (r: Token)
        ensures
            r@ == self@,
    {
        Token { created_at: self.created_at, id: self.id.clone(), token: self.token.clone() }
    }
}

} // verus!
