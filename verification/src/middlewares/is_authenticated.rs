//! Authentication of a request by a bearer token.

use crate::utils::text::chars_of;
use vstd::prelude::*;
use vstd::string::*;

verus! {

/// The customer that a request was authenticated as.
pub struct ClienteAuth {
    pub id: String,
}

/// Why a request was not authenticated.
#[derive(Clone, Copy, Debug, PartialEq, Eq, Structural)]
pub enum AuthFailure {
    /// The request has no authorization header.
    MissingHeader,
    /// The authorization header is not text.
    UnreadableHeader,
    /// The authorization header is not the word `Bearer`, a space and a token.
    MalformedHeader,
    /// The token is not a valid token of this service.
    InvalidToken,
    /// The token does not hold the data of a customer.
    InvalidClaims,
    /// The data of the customer in the token has no identifier.
    MissingIdentifier,
}

impl AuthFailure {
    /// The words of the failure.
    pub open spec fn text(self) -> Seq<char> {
        match self {
            AuthFailure::MissingHeader => "Token de autenticação não informado."@,
            AuthFailure::UnreadableHeader => "Header de autorização inválido."@,
            AuthFailure::MalformedHeader => "Formato do token inválido."@,
            AuthFailure::InvalidToken => "Token JWT inválido."@,
            AuthFailure::InvalidClaims => "Dados do cliente inválidos no token."@,
            AuthFailure::MissingIdentifier => "ID do cliente não encontrado no token."@,
        }
    }

    /// The words of the failure.
    pub fn message(&self) -> (words: String)
        ensures
            words@ == self.text(),
    {
        let words = match self {
            AuthFailure::MissingHeader => "Token de autenticação não informado.",
            AuthFailure::UnreadableHeader => "Header de autorização inválido.",
            AuthFailure::MalformedHeader => "Formato do token inválido.",
            AuthFailure::InvalidToken => "Token JWT inválido.",
            AuthFailure::InvalidClaims => "Dados do cliente inválidos no token.",
            AuthFailure::MissingIdentifier => "ID do cliente não encontrado no token.",
        };
        String::from_str(words)
    }
}

/// Whether `header` is the word `Bearer`, one space and a token without
/// spaces; the token may be empty.
pub open spec fn is_bearer_header(header: Seq<char>) -> bool {
    &&& header.len() >= 7
    &&& header.subrange(0, 7) == "Bearer "@
    &&& forall|i: int| 7 <= i < header.len() ==> header[i] != ' '
}

/// The token of an authorization header, where the header has the form of
/// one.
pub open spec fn bearer_token_of(header: Seq<char>) -> Result<Seq<char>, AuthFailure> {
    if is_bearer_header(header) {
        Ok(header.subrange(7, header.len() as int))
    } else {
        Err(AuthFailure::MalformedHeader)
    }
}

/// The view of what `Authentication::bearer_token` returns.
pub open spec fn token_view(r: Result<String, AuthFailure>) -> Result<Seq<char>, AuthFailure> {
    match r {
        Ok(token) => Ok(token@),
        Err(e) => Err(e),
    }
}

/// Authentication of requests.
pub struct Authentication;

impl Authentication {
    /// The HTTP status of a request that was not authenticated.
    pub const UNAUTHORIZED: u16 = 401;

    /// Takes the token out of an authorization header.
    pub fn bearer_token(header: &str) -> (token: Result<String, AuthFailure>)
        ensures
            token_view(token) == bearer_token_of(header@),
    {
        let chars = chars_of(header);
        let n = chars.len();
        proof {
            reveal_strlit("Bearer ");
        }
        if n < 7 {
            return Err(AuthFailure::MalformedHeader);
        }
        if chars[0] != 'B' || chars[1] != 'e' || chars[2] != 'a' || chars[3] != 'r' || chars[4]
            != 'e' || chars[5] != 'r' || chars[6] != ' ' {
            proof {
                let head = header@.subrange(0, 7);
                assert(head[0] == chars@[0] && head[1] == chars@[1] && head[2] == chars@[2]
                    && head[3] == chars@[3] && head[4] == chars@[4] && head[5] == chars@[5]
                    && head[6] == chars@[6]);
            }
            return Err(AuthFailure::MalformedHeader);
        }
        proof {
            assert(header@.subrange(0, 7) =~= "Bearer "@);
        }
        let mut i: usize = 7;
        while i < n
            invariant
                7 <= i <= n,
                n == chars.len(),
                chars@ == header@,
                forall|k: int| 7 <= k < i ==> header@[k] != ' ',
            decreases n - i,
        {
            if chars[i] == ' ' {
                return Err(AuthFailure::MalformedHeader);
            }
            i = i + 1;
        }
        Ok(String::from_str(header.substring_char(7, n)))
    }
}

} // verus!
