//! The redeem call: what is sent, and how the answer is read.

use vstd::prelude::*;
use vstd::string::*;
use crate::config::AuthData;
use crate::decimal::{decimal, decimal_text};
use crate::protocol::{canonical_reason, header_value_accepts, is_header_value, reason_phrase};

verus! {

/// Where every redeem is posted.
pub const REDEEM_URL: &'static str = "https://secure.colonq.computer/api/redeem";

/// The site that the session cookies belong to.
pub const COOKIE_ORIGIN: &'static str = "https://secure.colonq.computer";

/// The form field that carries the action identifier.
pub const NAME_FIELD: &'static str = "name";

/// The form field that carries the user's text.
pub const INPUT_FIELD: &'static str = "input";

/// What the input field holds when the user gave no text.
pub const NO_INPUT: &'static str = "undefined";

/// One text field of a multipart form.
#[derive(Debug, PartialEq, Eq)]
pub struct FormField {
    pub name: String,
    pub value: String,
}

/// What a [`FormField`] holds, as mathematical values.
pub ghost struct FieldView {
    pub name: Seq<char>,
    pub value: Seq<char>,
}

impl View for FormField {
    type V = FieldView;

    open spec fn view(&self) -> FieldView {
        FieldView { name: self.name@, value: self.value@ }
    }
}

/// One redeem call, ready to be posted: the address, the cookies to seed the
/// call's own cookie store with and the site they are for, and the fields of
/// the multipart form in the order in which they are sent.
#[derive(Debug, PartialEq, Eq)]
pub struct RedeemRequest {
    pub url: String,
    pub cookie_origin: String,
    pub cookies: String,
    pub form: Vec<FormField>,
}

/// What a [`RedeemRequest`] holds, as mathematical values.
pub ghost struct RequestView {
    pub url: Seq<char>,
    pub cookie_origin: Seq<char>,
    pub cookies: Seq<char>,
    pub form: Seq<FieldView>,
}

impl View for RedeemRequest {
    type V = RequestView;

    open spec fn view(&self) -> RequestView {
        RequestView {
            url: self.url@,
            cookie_origin: self.cookie_origin@,
            cookies: self.cookies@,
            form: self.form@.map_values(|f: FormField| f@),
        }
    }
}

/// The text of an optional input.
pub open spec fn text_of(input: Option<String>) -> Option<Seq<char>> {
    match input {
        Some(text) => Some(text@),
        None => None,
    }
}

/// What the input field of the form holds: the user's text, or the word
/// `undefined` where there is none.
pub open spec fn input_field(input: Option<Seq<char>>) -> Seq<char> {
    match input {
        Some(text) => text,
        None => NO_INPUT@,
    }
}

/// The request that redeems `api_name` with `input`, under `cookies`.
pub open spec fn redeem_request(
    cookies: Seq<char>,
    api_name: Seq<char>,
    input: Option<Seq<char>>,
) -> RequestView {
    RequestView {
        url: REDEEM_URL@,
        cookie_origin: COOKIE_ORIGIN@,
        cookies,
        form: seq![
            FieldView { name: NAME_FIELD@, value: api_name },
            FieldView { name: INPUT_FIELD@, value: input_field(input) },
        ],
    }
}

/// The client for one redeem call. It holds the session cookies, which are
/// known to be fit for a header.
#[derive(Debug)]
pub struct ApiCaller {
    cookies: String,
}

impl ApiCaller {
    #[verifier::type_invariant]
    spec fn cookies_fit(&self) -> bool {
        is_header_value(self.cookies@)
    }

    /// The cookies that every call of this client carries.
    pub closed spec fn cookies(&self) -> Seq<char> {
        self.cookies@
    }

    /// A client seeded with the session cookies of `auth`. There is none
    /// when the cookies cannot travel as a header value.
    pub fn new(auth: &AuthData) -> (caller: Option<ApiCaller>)
        ensures
            caller is Some <==> is_header_value(auth@.cookies),
            caller matches Some(c) ==> c.cookies() == auth@.cookies,
    {
        if header_value_accepts(auth.cookies.as_str()) {
            Some(ApiCaller { cookies: auth.cookies.clone() })
        } else {
            None
        }
    }

    /// The request that redeems `api_name`. The form names the action and
    /// carries `input`, or the word `undefined` where there is none.
    pub fn call_api(&self, api_name: &str, input: Option<String>) -> (request: RedeemRequest)
        ensures
            request@ == redeem_request(self.cookies(), api_name@, text_of(input)),
            is_header_value(request@.cookies),
    {
        proof {
            use_type_invariant(self);
        }
        let value = match input {
            Some(text) => text,
            None => String::from_str(NO_INPUT),
        };
        let mut form: Vec<FormField> = Vec::new();
        form.push(FormField { name: String::from_str(NAME_FIELD), value: String::from_str(api_name) });
        form.push(FormField { name: String::from_str(INPUT_FIELD), value });
        let request = RedeemRequest {
            url: String::from_str(REDEEM_URL),
            cookie_origin: String::from_str(COOKIE_ORIGIN),
            cookies: self.cookies.clone(),
            form,
        };
        assert(request@.form =~= redeem_request(self.cookies(), api_name@, text_of(input)).form);
        request
    }
}

/// Why a redeem call failed.
#[derive(Debug, PartialEq, Eq)]
pub enum RedeemError {
    /// The server answered with a status outside the success range.
    HttpStatus(u16),
    /// No answer came: connecting, TLS or the wait for an answer failed. The
    /// text is the transport's own account of it.
    Transport(String),
}

/// What a [`RedeemError`] holds, as mathematical values.
pub ghost enum RedeemErrorView {
    HttpStatus(u16),
    Transport(Seq<char>),
}

impl View for RedeemError {
    type V = RedeemErrorView;

    open spec fn view(&self) -> RedeemErrorView {
        match self {
            RedeemError::HttpStatus(code) => RedeemErrorView::HttpStatus(*code),
            RedeemError::Transport(detail) => RedeemErrorView::Transport(detail@),
        }
    }
}

impl Clone for RedeemError {
    fn clone(&self) -> (copy: Self)
        ensures
            copy@ == self@,
    {
        match self {
            RedeemError::HttpStatus(code) => RedeemError::HttpStatus(*code),
            RedeemError::Transport(detail) => RedeemError::Transport(detail.clone()),
        }
    }
}

/// The success range of status codes.
pub open spec fn is_success_status(code: u16) -> bool {
    200 <= code <= 299
}

/// How a call ends whose answer has the status `code`.
pub open spec fn outcome_of_status(code: u16) -> Result<(), RedeemErrorView> {
    if is_success_status(code) {
        Ok(())
    } else {
        Err(RedeemErrorView::HttpStatus(code))
    }
}

/// Reads the status code of an answer: a code of the success range ends the
/// call well, whatever the body says; any other code is the error.
pub fn redeem_outcome(code: u16) -> (outcome: Result<(), RedeemError>)
    ensures
        outcome_view(outcome) == outcome_of_status(code),
        outcome is Ok <==> is_success_status(code),
{
    if 200 <= code && code <= 299 {
        Ok(())
    } else {
        Err(RedeemError::HttpStatus(code))
    }
}

/// The account of a call that could not be sent because the session cookies
/// cannot travel as a header value.
pub const UNFIT_COOKIES: &'static str = "the session cookies cannot be sent as a header value";

/// What stands for the phrase of a code that has none.
pub const UNKNOWN_REASON: &'static str = "<unknown status code>";

/// A status written out: the code in decimal, a space, and the reason
/// phrase, or a stand-in where the code has none.
pub open spec fn status_line(code: u16, reason: Option<Seq<char>>) -> Seq<char> {
    decimal(code as nat) + " "@ + match reason {
        Some(phrase) => phrase,
        None => UNKNOWN_REASON@,
    }
}

/// The reason phrase that goes with `code`: the standard one for a code of
/// three digits that has one.
pub open spec fn reason_of(code: u16) -> Option<Seq<char>> {
    if 100 <= code <= 999 {
        reason_phrase(code)
    } else {
        None
    }
}

/// The account of an error in words.
pub open spec fn error_text(error: RedeemErrorView) -> Seq<char> {
    match error {
        RedeemErrorView::HttpStatus(code) => "Failed to redeem: "@ + status_line(
            code,
            reason_of(code),
        ),
        RedeemErrorView::Transport(detail) => detail,
    }
}

/// Writes a status out from its code and the phrase found for it.
pub fn write_status_line(code: u16, reason: Option<&str>) -> (line: String)
    ensures
        line@ == status_line(
            code,
            match reason {
                Some(phrase) => Some(phrase@),
                None => None,
            },
        ),
{
    let mut line = decimal_text(code);
    line.append(" ");
    match reason {
        Some(phrase) => line.append(phrase),
        None => line.append(UNKNOWN_REASON),
    }
    line
}

impl RedeemError {
    /// The account of this error in words.
    pub fn message(&self) -> (text: String)
        ensures
            text@ == error_text(self@),
    {
        match self {
            RedeemError::HttpStatus(code) => {
                let reason = if 100 <= *code && *code <= 999 {
                    canonical_reason(*code)
                } else {
                    None
                };
                let line = match &reason {
                    Some(phrase) => write_status_line(*code, Some(phrase.as_str())),
                    None => write_status_line(*code, None),
                };
                let mut text = String::from_str("Failed to redeem: ");
                text.append(line.as_str());
                text
            },
            RedeemError::Transport(detail) => detail.clone(),
        }
    }
}

/// The views of an outcome.
pub open spec fn outcome_view(outcome: Result<(), RedeemError>) -> Result<(), RedeemErrorView> {
    match outcome {
        Ok(_) => Ok(()),
        Err(e) => Err(e@),
    }
}

/// The line shown to the user once the redeem named `name` has ended.
pub open spec fn status_text(name: Seq<char>, outcome: Result<(), RedeemErrorView>) -> Seq<char> {
    match outcome {
        Ok(_) => "Successfully redeemed "@ + name,
        Err(e) => "Error: "@ + error_text(e),
    }
}

/// Writes the line shown to the user once the redeem named `name` has ended.
pub fn status_message(name: &str, outcome: &Result<(), RedeemError>) -> (text: String)
    ensures
        text@ == status_text(name@, outcome_view(*outcome)),
{
    match outcome {
        Ok(_) => {
            let mut text = String::from_str("Successfully redeemed ");
            text.append(name);
            text
        },
        Err(e) => {
            let mut text = String::from_str("Error: ");
            let account = e.message();
            text.append(account.as_str());
            text
        },
    }
}

/// Whether `needle` stands somewhere in `text`, character for character.
pub open spec fn occurs_in(needle: Seq<char>, text: Seq<char>) -> bool {
    exists|at: int|
        0 <= at && at + needle.len() <= text.len() && #[trigger] text.subrange(
            at,
            at + needle.len(),
        ) == needle
}

/// The status line of a redeem that ended well is `Successfully redeemed `
/// and the button's text, and no more.
pub proof fn lemma_success_is_reported_by_name(name: Seq<char>, code: u16)
    requires
        is_success_status(code),
    ensures
        status_text(name, outcome_of_status(code)) == "Successfully redeemed "@ + name,
{
}

/// The status line of a redeem that the server turned down holds the status
/// code, written in decimal.
pub proof fn lemma_failure_names_the_code(name: Seq<char>, code: u16)
    requires
        !is_success_status(code),
    ensures
        occurs_in(decimal(code as nat), status_text(name, outcome_of_status(code))),
{
    let line = status_text(name, outcome_of_status(code));
    let tail = match reason_of(code) {
        Some(phrase) => phrase,
        None => UNKNOWN_REASON@,
    };
    let at = ("Error: "@.len() + "Failed to redeem: "@.len()) as int;
    assert(line =~= "Error: "@ + "Failed to redeem: "@ + decimal(code as nat) + " "@ + tail);
    assert(line.subrange(at, at + decimal(code as nat).len()) =~= decimal(code as nat));
}

} // verus!
