use vstd::prelude::*;

verus! {

/// The challenge sent back with every authentication failure.
pub const WWW_AUTHENTICATE_CHALLENGE: &'static str = "Basic realm=\"user\"";

/// The text shown for an authentication failure, whatever its cause.
pub const AUTH_FAILED_MESSAGE: &'static str = "Authentication failed.";

/// The three failure classes that reach the HTTP boundary.
#[derive(Debug)]
pub enum UserError {
    /// Malformed input (an unusable `Authorization` header): 400.
    ValidationError(String),
    /// Unknown user or wrong password: 401 with a challenge. The text is the
    /// internal reason, for logs only; clients see `AUTH_FAILED_MESSAGE`.
    AuthError(String),
    /// Store, offload or hash-format failure: 500.
    UnexpectedError(String),
}

/// The HTTP status a client receives for an error.
pub open spec fn status_of(e: UserError) -> u16 {
    match e {
        UserError::ValidationError(_) => 400,
        UserError::AuthError(_) => 401,
        UserError::UnexpectedError(_) => 500,
    }
}

/// Text of a cause chain below the top error: one block per cause.
pub open spec fn causes_text(causes: Seq<Seq<char>>) -> Seq<char>
    decreases causes.len(),
{
    if causes.len() == 0 {
        Seq::empty()
    } else {
        causes_text(causes.drop_last()) + "Caused by:\n\t"@ + causes.last() + "\n"@
    }
}

/// Report of an error chain: the top error, a blank line, then each cause.
pub open spec fn chain_report(chain: Seq<Seq<char>>) -> Seq<char> {
    if chain.len() == 0 {
        Seq::empty()
    } else {
        chain[0] + "\n\n"@ + causes_text(chain.drop_first())
    }
}

/// Formats an error followed by the chain of its causes, outermost first.
pub fn error_chain_fmt(chain: &Vec<String>) -> (r: String)
    ensures
        r@ == chain_report(chain.deep_view()),
{
    let n = chain.len();
    if n == 0 {
        return String::new();
    }
    let mut out = String::new();
    out.append(chain[0].as_str());
    out.append("\n\n");
    let ghost dv = chain.deep_view();
    assert(dv.drop_first().subrange(0, 0) =~= Seq::<Seq<char>>::empty());
    let mut i: usize = 1;
    while i < n
        invariant
            1 <= i <= n,
            n == chain.len(),
            dv == chain.deep_view(),
            out@ == dv[0] + "\n\n"@ + causes_text(dv.drop_first().subrange(0, i - 1)),
        decreases n - i,
    {
        out.append("Caused by:\n\t");
        out.append(chain[i].as_str());
        out.append("\n");
        proof {
            let next = dv.drop_first().subrange(0, i as int);
            assert(next.drop_last() =~= dv.drop_first().subrange(0, i - 1));
            assert(next.last() == dv[i as int]);
        }
        i = i + 1;
    }
    assert(dv.drop_first().subrange(0, n - 1) =~= dv.drop_first());
    out
}

impl UserError {
    /// The HTTP status for this error: 400, 401 or 500.
    pub fn status_code(&self) -> (r: u16)
        ensures
            r == status_of(*self),
    {
        match self {
            UserError::ValidationError(_) => 400,
            UserError::AuthError(_) => 401,
            UserError::UnexpectedError(_) => 500,
        }
    }

    /// The `WWW-Authenticate` value to send, present for authentication failures only.
    pub fn www_authenticate(&self) -> (r: Option<&'static str>)
        ensures
            r is Some <==> *self is AuthError,
            r matches Some(v) ==> v@ == WWW_AUTHENTICATE_CHALLENGE@,
    {
        match self {
            UserError::AuthError(_) => Some(WWW_AUTHENTICATE_CHALLENGE),
            _ => None,
        }
    }

    /// The message of this error as it is displayed.
    pub fn message(&self) -> (r: String)
        ensures
            r@ == match *self {
                UserError::ValidationError(m) => m@,
                UserError::AuthError(_) => AUTH_FAILED_MESSAGE@,
                UserError::UnexpectedError(m) => m@,
            },
    {
        match self {
            UserError::ValidationError(m) => m.clone(),
            UserError::AuthError(_) => String::from_str(AUTH_FAILED_MESSAGE),
            UserError::UnexpectedError(m) => m.clone(),
        }
    }

    /// The messages of this error and of its cause, outermost first.
    pub fn chain(&self) -> (r: Vec<String>)
        ensures
            r.deep_view() == match *self {
                UserError::ValidationError(m) => seq![m@],
                UserError::AuthError(reason) => seq![AUTH_FAILED_MESSAGE@, reason@],
                UserError::UnexpectedError(m) => seq![m@],
            },
    {
        let mut v: Vec<String> = Vec::new();
        match self {
            UserError::ValidationError(m) => v.push(m.clone()),
            UserError::AuthError(reason) => {
                v.push(String::from_str(AUTH_FAILED_MESSAGE));
                v.push(reason.clone());
            },
            UserError::UnexpectedError(m) => v.push(m.clone()),
        }
        assert(v.deep_view() =~= match *self {
            UserError::ValidationError(m) => seq![m@],
            UserError::AuthError(reason) => seq![AUTH_FAILED_MESSAGE@, reason@],
            UserError::UnexpectedError(m) => seq![m@],
        });
        v
    }

    /// The detailed report of this error for logs: the message and its cause.
    pub fn fmt(&self) -> (r: String)
        ensures
            r@ == chain_report(self.chain_spec()),
    {
        let c = self.chain();
        error_chain_fmt(&c)
    }

    /// The message chain that `chain` returns.
    pub open spec fn chain_spec(&self) -> Seq<Seq<char>> {
        match *self {
            UserError::ValidationError(m) => seq![m@],
            UserError::AuthError(reason) => seq![AUTH_FAILED_MESSAGE@, reason@],
            UserError::UnexpectedError(m) => seq![m@],
        }
    }
}

} // verus!
