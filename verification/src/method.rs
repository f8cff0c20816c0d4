//! The request methods that the relay supports, and how a method name is read.

use vstd::prelude::*;
use vstd::string::StringExecFns;

verus! {

/// A request method that the relay supports.
#[derive(Clone, Copy, Debug, PartialEq, Eq, Structural)]
pub enum Method {
    Get,
    Post,
    Put,
    Delete,
    Patch,
    Head,
    Options,
}

/// The method whose canonical, upper-case name is exactly `name`.
pub open spec fn method_named(name: Seq<char>) -> Option<Method> {
    if name == "GET"@ {
        Some(Method::Get)
    } else if name == "POST"@ {
        Some(Method::Post)
    } else if name == "PUT"@ {
        Some(Method::Put)
    } else if name == "DELETE"@ {
        Some(Method::Delete)
    } else if name == "PATCH"@ {
        Some(Method::Patch)
    } else if name == "HEAD"@ {
        Some(Method::Head)
    } else if name == "OPTIONS"@ {
        Some(Method::Options)
    } else {
        None
    }
}

/// The upper-case form of a string, as `str::to_uppercase` computes it.
pub uninterp spec fn uppercase(s: Seq<char>) -> Seq<char>;

/// The method that `text` names when letter case is ignored: the one whose
/// canonical name is the upper-case form of `text`.
pub open spec fn method_of(text: Seq<char>) -> Option<Method> {
    method_named(uppercase(text))
}

/// Calls `str::to_uppercase`. Trusted: the result is the upper-case form of
/// the argument, a function of the argument's characters alone. Nothing is
/// claimed about which characters change.
#[verifier::external_body]
fn to_uppercase(s: &str) -> (upper: String)
    ensures
        upper@ == uppercase(s@),
{
    s.to_uppercase()
}

impl Method {
    /// The canonical name of the method.
    pub open spec fn name(self) -> Seq<char> {
        match self {
            Method::Get => "GET"@,
            Method::Post => "POST"@,
            Method::Put => "PUT"@,
            Method::Delete => "DELETE"@,
            Method::Patch => "PATCH"@,
            Method::Head => "HEAD"@,
            Method::Options => "OPTIONS"@,
        }
    }

    /// Reads a canonical method name. The match is exact: letter case counts.
    pub fn from_name(name: &str) -> (method: Option<Method>)
        ensures
            method == method_named(name@),
    {
        let name = String::from_str(name);
        if name == String::from_str("GET") {
            Some(Method::Get)
        } else if name == String::from_str("POST") {
            Some(Method::Post)
        } else if name == String::from_str("PUT") {
            Some(Method::Put)
        } else if name == String::from_str("DELETE") {
            Some(Method::Delete)
        } else if name == String::from_str("PATCH") {
            Some(Method::Patch)
        } else if name == String::from_str("HEAD") {
            Some(Method::Head)
        } else if name == String::from_str("OPTIONS") {
            Some(Method::Options)
        } else {
            None
        }
    }

    /// Reads a method name in any letter case.
    pub fn parse(text: &str) -> (method: Option<Method>)
        ensures
            method == method_of(text@),
    {
        let upper = to_uppercase(text);
        Method::from_name(upper.as_str())
    }

    /// The canonical name of the method, as a string.
    pub fn as_str(self) -> (name: &'static str)
        ensures
            name@ == self.name(),
    {
        match self {
            Method::Get => "GET",
            Method::Post => "POST",
            Method::Put => "PUT",
            Method::Delete => "DELETE",
            Method::Patch => "PATCH",
            Method::Head => "HEAD",
            Method::Options => "OPTIONS",
        }
    }
}

/// Every method is read back from its own canonical name, so no two methods
/// share a name.
pub proof fn lemma_name_round_trip(m: Method)
    ensures
        method_named(m.name()) == Some(m),
{
    reveal_strlit("GET");
    reveal_strlit("POST");
    reveal_strlit("PUT");
    reveal_strlit("DELETE");
    reveal_strlit("PATCH");
    reveal_strlit("HEAD");
    reveal_strlit("OPTIONS");
    assert("GET"@.len() == 3 && "PUT"@.len() == 3 && "GET"@[0] != "PUT"@[0]);
    assert("POST"@.len() == 4 && "HEAD"@.len() == 4 && "POST"@[0] != "HEAD"@[0]);
    assert("PATCH"@.len() == 5 && "DELETE"@.len() == 6 && "OPTIONS"@.len() == 7);
}

} // verus!
