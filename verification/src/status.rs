//! The status of a response: a three-digit code, and the text that stands
//! for it in a message.

use vstd::prelude::*;

verus! {

/// The status code of a response. It always lies in 100..=999.
#[derive(Clone, Copy, Debug, PartialEq, Eq, Structural)]
pub struct Status {
    code: u16,
}

/// The character of one decimal digit.
pub open spec fn digit_char(d: u16) -> char
    recommends
        d <= 9,
{
    (48 + d) as u8 as char
}

/// The three decimal digits of `code`, followed by one space.
pub open spec fn code_prefix(code: u16) -> Seq<char>
    recommends
        100 <= code <= 999,
{
    seq![digit_char(code / 100), digit_char((code / 10) % 10), digit_char(code % 10), ' ']
}

/// The text that `reqwest::StatusCode` displays for `code`: the code in
/// decimal, a space, and the reason phrase that the crate's table holds for it.
pub uninterp spec fn status_line(code: u16) -> Seq<char>;

/// Displays `code` as a `reqwest::StatusCode`. Trusted: `StatusCode::from_u16`
/// accepts exactly the codes in 100..=999; for those the result is the text of
/// the status's `Display`, which opens with the code's three decimal digits
/// and a space. Codes outside that range give `None`.
#[verifier::external_body]
fn status_display(code: u16) -> (text: Option<String>)
    ensures
        text is Some <==> 100 <= code <= 999,
        text matches Some(t) ==> t@ == status_line(code) && code_prefix(code).is_prefix_of(t@),
{
    match reqwest::StatusCode::from_u16(code) {
        Ok(status) => Some(status.to_string()),
        Err(_) => None,
    }
}

impl Status {
    #[verifier::type_invariant]
    spec fn in_range(self) -> bool {
        100 <= self.code <= 999
    }

    /// The numeric code.
    pub closed spec fn code(self) -> u16 {
        self.code
    }

    /// Whether the code signals success: the range 200..=299.
    pub open spec fn success(self) -> bool {
        200 <= self.code() <= 299
    }

    /// The text that stands for the status in a message.
    pub open spec fn line(self) -> Seq<char> {
        status_line(self.code())
    }

    /// The status with this code, where the code has three digits.
    pub fn from_u16(code: u16) -> (status: Option<Status>)
        ensures
            status is Some <==> 100 <= code <= 999,
            status matches Some(s) ==> s.code() == code,
    {
        if 100 <= code && code <= 999 {
            Some(Status { code })
        } else {
            None
        }
    }

    /// The numeric code.
    pub fn as_u16(&self) -> (code: u16)
        ensures
            code == self.code(),
            100 <= code <= 999,
    {
        proof {
            use_type_invariant(self);
        }
        self.code
    }

    /// Whether the code signals success.
    pub fn is_success(&self) -> (yes: bool)
        ensures
            yes == self.success(),
    {
        200 <= self.code && self.code <= 299
    }

    /// The text that stands for the status in a message. It opens with the
    /// three digits of the code.
    pub fn text(&self) -> (text: String)
        ensures
            text@ == self.line(),
            code_prefix(self.code()).is_prefix_of(text@),
    {
        proof {
            use_type_invariant(self);
        }
        match status_display(self.code) {
            Some(text) => text,
            None => unreached(),
        }
    }
}

} // verus!
