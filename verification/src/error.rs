//! The failures a proxy call can end in, and the texts they are shown as.

use vstd::prelude::*;

verus! {

/// Why a proxy call did not yield a value.
#[derive(Debug, PartialEq, Eq)]
pub enum ProxyError {
    /// The request could not be sent, or its response could not be read or
    /// was not a JSON document. `detail` says which, and carries the cause.
    TransportFailure { detail: String },
    /// The upstream answered with a status outside 200..=299. `detail` is
    /// the response body, or a placeholder where the body could not be read.
    UpstreamFailure { status: u16, detail: String },
    /// The local file of an upload could not be read.
    FileReadFailure { detail: String },
    /// The guard around the configuration is poisoned.
    LockFailure { detail: String },
}

/// A `ProxyError` with its texts as sequences of characters.
pub enum ProxyErrorView {
    TransportFailure { detail: Seq<char> },
    UpstreamFailure { status: u16, detail: Seq<char> },
    FileReadFailure { detail: Seq<char> },
    LockFailure { detail: Seq<char> },
}

impl View for ProxyError {
    type V = ProxyErrorView;

    open spec fn view(&self) -> ProxyErrorView {
        match self {
            ProxyError::TransportFailure { detail } => ProxyErrorView::TransportFailure {
                detail: detail@,
            },
            ProxyError::UpstreamFailure { status, detail } => ProxyErrorView::UpstreamFailure {
                status: *status,
                detail: detail@,
            },
            ProxyError::FileReadFailure { detail } => ProxyErrorView::FileReadFailure {
                detail: detail@,
            },
            ProxyError::LockFailure { detail } => ProxyErrorView::LockFailure { detail: detail@ },
        }
    }
}

/// What the `Display` of `reqwest::StatusCode` (the `StatusCode` of the
/// `http` crate) writes for a status code that `StatusCode::from_u16`
/// accepts: the number, a space, and the canonical reason phrase or a marker
/// for a code without one.
pub uninterp spec fn status_display(status: u16) -> Seq<char>;

/// The character of a decimal digit.
pub open spec fn digit(d: int) -> char {
    if d == 0 {
        '0'
    } else if d == 1 {
        '1'
    } else if d == 2 {
        '2'
    } else if d == 3 {
        '3'
    } else if d == 4 {
        '4'
    } else if d == 5 {
        '5'
    } else if d == 6 {
        '6'
    } else if d == 7 {
        '7'
    } else if d == 8 {
        '8'
    } else {
        '9'
    }
}

/// A number in decimal, without leading zeros.
pub open spec fn decimal(n: nat) -> Seq<char>
    decreases n,
{
    if n < 10 {
        seq![digit(n as int)]
    } else {
        decimal(n / 10) + seq![digit((n % 10) as int)]
    }
}

/// How a status is written inside the text of an upstream failure: as the
/// HTTP library writes it where the code has three digits, else as the bare
/// number.
pub open spec fn status_label(status: u16) -> Seq<char> {
    if 100 <= status < 1000 {
        status_display(status)
    } else {
        decimal(status as nat)
    }
}

/// The text of an upstream failure, given the status as it is to be written.
pub open spec fn upstream_text(label: Seq<char>, detail: Seq<char>) -> Seq<char> {
    "API error ("@ + label + "): "@ + detail
}

impl ProxyErrorView {
    /// The text that the failure is shown as.
    pub open spec fn message(self) -> Seq<char> {
        match self {
            ProxyErrorView::TransportFailure { detail } => detail,
            ProxyErrorView::UpstreamFailure { status, detail } => upstream_text(
                status_label(status),
                detail,
            ),
            ProxyErrorView::FileReadFailure { detail } => detail,
            ProxyErrorView::LockFailure { detail } => detail,
        }
    }
}

/// Calls `reqwest::StatusCode::from_u16` and, where the code is accepted,
/// `to_string` on it. Trusted: a code is accepted exactly if it lies in
/// 100..=999, and the text is `status_display` of the code.
#[verifier::external_body]
pub(crate) fn status_line(status: u16) -> (r: Option<String>)
    ensures
        r is Some <==> 100 <= status < 1000,
        r matches Some(line) ==> line@ == status_display(status),
{
    match reqwest::StatusCode::from_u16(status) {
        Ok(code) => Some(code.to_string()),
        Err(_) => None,
    }
}

/// `prefix` followed by `rest`, as a new string.
pub fn joined(prefix: &str, rest: &str) -> (r: String)
    ensures
        r@ == prefix@ + rest@,
{
    let mut text = String::from_str(prefix);
    text.append(rest);
    text
}

fn digit_text(d: u16) -> (r: &'static str)
    requires
        d < 10,
    ensures
        r@ == seq![digit(d as int)],
{
    proof {
        reveal_strlit("0");
        reveal_strlit("1");
        reveal_strlit("2");
        reveal_strlit("3");
        reveal_strlit("4");
        reveal_strlit("5");
        reveal_strlit("6");
        reveal_strlit("7");
        reveal_strlit("8");
        reveal_strlit("9");
    }
    let r = if d == 0 {
        "0"
    } else if d == 1 {
        "1"
    } else if d == 2 {
        "2"
    } else if d == 3 {
        "3"
    } else if d == 4 {
        "4"
    } else if d == 5 {
        "5"
    } else if d == 6 {
        "6"
    } else if d == 7 {
        "7"
    } else if d == 8 {
        "8"
    } else {
        "9"
    };
    assert(r@ =~= seq![digit(d as int)]);
    r
}

/// Writes a number in decimal.
pub fn decimal_text(n: u16) -> (r: String)
    ensures
        r@ == decimal(n as nat),
    decreases n,
{
    if n < 10 {
        String::from_str(digit_text(n))
    } else {
        let mut text = decimal_text(n / 10);
        text.append(digit_text(n % 10));
        text
    }
}

/// Writes the text of an upstream failure from the status as it is to be
/// written and the detail.
pub fn upstream_message(label: &str, detail: &str) -> (r: String)
    ensures
        r@ == upstream_text(label@, detail@),
{
    let mut text = String::from_str("API error (");
    text.append(label);
    text.append("): ");
    text.append(detail);
    text
}

impl ProxyError {
    /// The text that the failure is shown as.
    pub fn message(&self) -> (r: String)
        ensures
            r@ == self@.message(),
    {
        match self {
            ProxyError::TransportFailure { detail } => detail.clone(),
            ProxyError::UpstreamFailure { status, detail } => {
                let label = match status_line(*status) {
                    Some(line) => line,
                    None => decimal_text(*status),
                };
                upstream_message(label.as_str(), detail.as_str())
            },
            ProxyError::FileReadFailure { detail } => detail.clone(),
            ProxyError::LockFailure { detail } => detail.clone(),
        }
    }
}

} // verus!
