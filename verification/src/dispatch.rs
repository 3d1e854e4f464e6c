//! The dispatcher's decision logic: which methods may be issued, what one
//! submit turns into, and what a settled call writes back. The HTTP call
//! itself is outside work — the surrounding program performs the `Perform`
//! action and reports its outcome back to the state.

use vstd::prelude::*;
use vstd::string::StringExecFns;

verus! {

/// A supported HTTP method: the closed set the dispatcher will issue.
#[derive(Clone, Copy, Debug, PartialEq, Eq, Structural)]
pub enum Method {
    Get,
    Post,
}

/// The supported method a method name denotes, if any.
pub open spec fn method_of(s: Seq<char>) -> Option<Method> {
    if s == "GET"@ {
        Some(Method::Get)
    } else if s == "POST"@ {
        Some(Method::Post)
    } else {
        None
    }
}

impl Method {
    /// Parse a method name; any name outside the supported set is refused.
    pub fn from_name(s: &str) -> (r: Option<Method>)
        ensures
            r == method_of(s@),
    {
        let t = s.to_owned();
        if t == String::from_str("GET") {
            Some(Method::Get)
        } else if t == String::from_str("POST") {
            Some(Method::Post)
        } else {
            None
        }
    }

    /// The name of this method.
    pub fn name(&self) -> (r: &'static str)
        ensures
            method_of(r@) == Some(*self),
            *self is Get ==> r@ == "GET"@,
            *self is Post ==> r@ == "POST"@,
    {
        match self {
            Method::Get => "GET",
            Method::Post => {
                let r = "POST";
                proof {
                    reveal_strlit("GET");
                    reveal_strlit("POST");
                    assert(r@.len() == 4 && ("GET")@.len() == 3);
                    assert(r@ != "GET"@);
                }
                r
            },
        }
    }
}

/// What one submit turns into: issue the call tagged with its request id,
/// or refuse the method without any call.
#[derive(Clone, Copy, Debug, PartialEq, Eq, Structural)]
pub enum DispatchAction {
    Perform { id: u64, method: Method },
    Rejected,
}

/// What the HTTP executor reports for one issued call: the response body
/// read to completion, or the description of a transport failure. A
/// non-2xx status is not a failure — the status code is ignored entirely.
#[derive(Debug)]
pub enum CallOutcome {
    Body(String),
    Failure(String),
}

/// The text a settled outcome writes into the response field: the body on
/// success, the failure description otherwise, never distinguished.
pub open spec fn outcome_text(o: CallOutcome) -> Seq<char> {
    match o {
        CallOutcome::Body(b) => b@,
        CallOutcome::Failure(e) => e@,
    }
}

/// The fixed message reported for a method outside the supported set.
pub fn unsupported_method_message() -> (r: String)
    ensures
        r@ == "Unsupported method"@,
{
    String::from_str("Unsupported method")
}

/// CSS class for a status badge, chosen by the hundreds digit of the
/// status code.
pub fn status_code_class(code: u16) -> (r: &'static str)
    ensures
        code / 100 == 2 ==> r@ == "success"@,
        code / 100 == 3 ==> r@ == "redirect"@,
        code / 100 == 4 ==> r@ == "client-error"@,
        code / 100 == 5 ==> r@ == "server-error"@,
        !(2 <= code / 100 <= 5) ==> r@ == "unknown"@,
{
    match code / 100 {
        2 => "success",
        3 => "redirect",
        4 => "client-error",
        5 => "server-error",
        _ => "unknown",
    }
}

} // verus!
