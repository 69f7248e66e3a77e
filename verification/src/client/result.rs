//! The status envelopes the issuance service wraps around its responses,
//! and the error message they may carry.

use vstd::prelude::*;
use vstd::string::StringExecFns;
use crate::error::Error;
use crate::text::dec_str;
use crate::text::i32_to_string;

verus! {

/// The error message of a failed response.
#[derive(Debug, Clone)]
pub struct ErrorMsg {
    pub code: Option<i32>,
    pub typ: Option<String>,
    pub details: Option<String>,
}

/// The rendering of an error message: a fixed prefix, then each populated
/// part behind a separating colon.
pub open spec fn spec_error_msg_text(code: Option<i32>, typ: Option<Seq<char>>, details: Option<Seq<char>>) -> Seq<char> {
    "zerossl error msg"@ + (match code {
        Some(c) => ": "@ + dec_str(c as int),
        None => Seq::empty(),
    }) + (match typ {
        Some(t) => ": "@ + t,
        None => Seq::empty(),
    }) + (match details {
        Some(d) => ": "@ + d,
        None => Seq::empty(),
    })
}

impl ErrorMsg {
    /// Renders the message: the fixed prefix, then the code, the type and
    /// the details, each populated part behind a separating colon.
    pub fn message(&self) -> (r: String)
        ensures
            r@ == spec_error_msg_text(
                self.code,
                match self.typ {
                    Some(ref t) => Some(t@),
                    None => None,
                },
                match self.details {
                    Some(ref d) => Some(d@),
                    None => None,
                },
            ),
    {
        let mut out = "zerossl error msg".to_owned();
        if let Some(code) = &self.code {
            out.append(": ");
            let rendered = i32_to_string(*code);
            out.append(rendered.as_str());
        }
        if let Some(typ) = &self.typ {
            out.append(": ");
            out.append(typ.as_str());
        }
        if let Some(details) = &self.details {
            out.append(": ");
            out.append(details.as_str());
        }
        out
    }
}

/// What every response envelope can say: whether the call succeeded, and the
/// error message of a failed one.
pub trait Resp {
    /// Whether the response reports success.
    fn is_ok(&self) -> bool;

    /// The error message of a failed response, when one was carried.
    fn err_msg(&self) -> Option<ErrorMsg>;

    /// The rendered error message of a failed response.
    fn err_msg_string(&self) -> Option<String>;

    /// The library error a failed response maps to.
    fn to_err(&self) -> Error;
}

/// The usual envelope: an optional success flag and an optional error.
#[derive(Debug, Clone)]
pub struct ResultStatus {
    pub success: Option<bool>,
    pub error: Option<ErrorMsg>,
}

/// Whether a status envelope reports success: the flag's value, or success
/// when the flag is absent.
pub open spec fn spec_status_ok(success: Option<bool>) -> bool {
    match success {
        Some(b) => b,
        None => true,
    }
}

impl ResultStatus {
    /// Whether this envelope reports success.
    pub fn status_ok(&self) -> (r: bool)
        ensures
            r == spec_status_ok(self.success),
    {
        match &self.success {
            Some(b) => *b,
            None => true,
        }
    }

    /// The carried error message, when there is one: a copy of the stored
    /// message, field for field.
    pub fn status_err_msg(&self) -> (r: Option<ErrorMsg>)
        ensures
            r is Some <==> self.error is Some,
            r is Some ==> r->0.code == self.error->0.code,
            r is Some ==> (r->0.typ is Some <==> self.error->0.typ is Some),
            r is Some ==> (r->0.typ is Some ==> r->0.typ->0@ == self.error->0.typ->0@),
            r is Some ==> (r->0.details is Some <==> self.error->0.details is Some),
            r is Some ==> (r->0.details is Some ==> r->0.details->0@ == self.error->0.details->0@),
    {
        match &self.error {
            Some(e) => Some(
                ErrorMsg {
                    code: e.code,
                    typ: match &e.typ {
                        Some(t) => Some(t.clone()),
                        None => None,
                    },
                    details: match &e.details {
                        Some(d) => Some(d.clone()),
                        None => None,
                    },
                },
            ),
            None => None,
        }
    }

    /// The rendered message of the carried error, when there is one: the
    /// stored error's fields through `ErrorMsg::message`.
    pub fn status_message(&self) -> (r: Option<String>)
        ensures
            r is Some <==> self.error is Some,
            r is Some ==> r->0@ == spec_error_msg_text(
                self.error->0.code,
                match self.error->0.typ {
                    Some(t) => Some(t@),
                    None => None,
                },
                match self.error->0.details {
                    Some(d) => Some(d@),
                    None => None,
                },
            ),
    {
        match self.status_err_msg() {
            Some(m) => Some(m.message()),
            None => None,
        }
    }
}

impl Resp for ResultStatus {
    fn is_ok(&self) -> bool {
        self.status_ok()
    }

    fn err_msg(&self) -> Option<ErrorMsg> {
        self.status_err_msg()
    }

    fn err_msg_string(&self) -> Option<String> {
        self.status_message()
    }

    fn to_err(&self) -> Error {
        Error::request("request failed".to_owned(), self.err_msg_string())
    }
}

/// The alternative envelope some endpoints use: success as a number, where
/// one means success.
#[derive(Debug, Clone)]
pub struct ResultStatusAlt {
    pub success: Option<u8>,
}

/// Whether an alternative envelope reports success: the number is one, or
/// the field is absent.
pub open spec fn spec_status_alt_ok(success: Option<u8>) -> bool {
    match success {
        Some(n) => n == 1,
        None => true,
    }
}

impl ResultStatusAlt {
    /// Whether this envelope reports success.
    pub fn status_ok(&self) -> (r: bool)
        ensures
            r == spec_status_alt_ok(self.success),
    {
        match &self.success {
            Some(n) => *n == 1,
            None => true,
        }
    }
}

impl Resp for ResultStatusAlt {
    fn is_ok(&self) -> bool {
        self.status_ok()
    }

    fn err_msg(&self) -> Option<ErrorMsg> {
        None
    }

    fn err_msg_string(&self) -> Option<String> {
        None
    }

    fn to_err(&self) -> Error {
        Error::request("request failed".to_owned(), None)
    }
}

} // verus!
