use crate::domain::exception::TodoException;
use vstd::prelude::*;

verus! {

/// Whether a character beyond ASCII is a decimal digit to the `regex`
/// crate: one that its class `\d` matches.
pub uninterp spec fn is_digit_beyond_ascii(c: char) -> bool;

/// Whether the class `\d` of the `regex` crate matches a character: the
/// decimal digits of Unicode, which within ASCII are `0` to `9`.
pub open spec fn is_regex_digit(c: char) -> bool {
    if (c as u32) < 128 {
        '0' <= c && c <= '9'
    } else {
        is_digit_beyond_ascii(c)
    }
}

/// Where the digits that begin at `from` end: the position of the first
/// character from there on that is no digit, or the length of the message.
pub open spec fn digits_end(message: Seq<char>, from: int) -> int
    decreases message.len() - from,
{
    if from < 0 || from >= message.len() || !is_regex_digit(message[from]) {
        from
    } else {
        digits_end(message, from + 1)
    }
}

/// The two captures of the pattern `^\[(\d+)\] (.+)$` on a message: the
/// message is an opening square bracket, one or more digits, a closing
/// square bracket, a space, and one or more characters none of which is a
/// line feed; the captures are the digits and those characters. Nothing
/// where the message is not of that form.
pub open spec fn status_message_captures(message: Seq<char>) -> Option<(Seq<char>, Seq<char>)> {
    let end = digits_end(message, 1);
    let len = message.len() as int;
    if len >= 1 && message[0] == '[' && end > 1 && end + 2 < len && message[end] == ']'
        && message[end + 1] == ' ' && !message.subrange(end + 2, len).contains('\n') {
        Some((message.subrange(1, end), message.subrange(end + 2, len)))
    } else {
        None
    }
}

/// The canonical reason that the `http` crate has for a status code other
/// than those that [`canonical_reason`] lists; `<unknown status code>`
/// where it has none.
pub uninterp spec fn other_reason(code: int) -> Seq<char>;

/// The canonical reason of a status code.
pub open spec fn canonical_reason(code: int) -> Seq<char> {
    if code == 200 {
        "OK"@
    } else if code == 201 {
        "Created"@
    } else if code == 204 {
        "No Content"@
    } else if code == 404 {
        "Not Found"@
    } else if code == 409 {
        "Conflict"@
    } else if code == 422 {
        "Unprocessable Entity"@
    } else if code == 500 {
        "Internal Server Error"@
    } else {
        other_reason(code)
    }
}

/// The character that writes a digit.
pub open spec fn digit_char(digit: int) -> char {
    if digit == 0 {
        '0'
    } else if digit == 1 {
        '1'
    } else if digit == 2 {
        '2'
    } else if digit == 3 {
        '3'
    } else if digit == 4 {
        '4'
    } else if digit == 5 {
        '5'
    } else if digit == 6 {
        '6'
    } else if digit == 7 {
        '7'
    } else if digit == 8 {
        '8'
    } else {
        '9'
    }
}

/// The status line of a code from 100 to 999: its three digits, a space,
/// and its canonical reason.
pub open spec fn status_line(code: int) -> Seq<char> {
    seq![digit_char(code / 100), digit_char(code / 10 % 10), digit_char(code % 10), ' ']
        + canonical_reason(code)
}

/// Matches the message against the pattern `^\[(\d+)\] (.+)$` with
/// `regex::Regex::captures` and hands out the two groups. Claimed: the
/// pattern matches the messages of the form that
/// [`status_message_captures`] describes, and no others; `\d` matches a
/// character of ASCII exactly where it is one of `0` to `9`, and `.` any
/// character but the line feed.
#[verifier::external_body]
fn capture_status_message(message: &str) -> (captures: Option<(String, String)>)
    ensures
        match captures {
            Some((digits, text)) => {
                &&& status_message_captures(message@) == Some((digits@, text@))
                &&& forall|i: int|
                    0 <= i < digits@.len() ==> ((#[trigger] digits@[i]) as u32) < 128
                        || is_digit_beyond_ascii(digits@[i])
            },
            None => status_message_captures(message@) is None,
        },
{
    let pattern = regex::Regex::new(r"^\[(\d+)\] (.+)$").ok()?;
    let found = pattern.captures(message)?;
    Some((found.get(1)?.as_str().to_string(), found.get(2)?.as_str().to_string()))
}

/// Writes a status code through the `Display` impl of
/// `axum::http::StatusCode`, which `StatusCode::from_u16` makes of the codes
/// from 100 to 999. Claimed: the text is the code in decimal, a space, and
/// the canonical reason of the code; the reasons of seven codes are as
/// [`canonical_reason`] lists them, and that of any other depends on the
/// code alone.
#[verifier::external_body]
fn status_text(code: u16) -> (text: String)
    requires
        100 <= code <= 999,
    ensures
        text@ == status_line(code as int),
        canonical_reason(code as int) == other_reason(code as int) ==> text@.skip(4)
            == other_reason(code as int),
{
    match axum::http::StatusCode::from_u16(code) {
        Ok(status) => status.to_string(),
        Err(_) => String::new(),
    }
}

/// An HTTP status code: a number from 100 to 999.
#[derive(Debug, Clone, Copy)]
pub struct HttpStatus {
    code: u16,
}

impl HttpStatus {
    #[verifier::type_invariant]
    spec fn inv(self) -> bool {
        100 <= self.code <= 999
    }

    /// The number of the status.
    pub closed spec fn value(self) -> int {
        self.code as int
    }

    /// The status with the given number, where it is from 100 to 999.
    pub fn from_u16(code: u16) -> (status: Option<HttpStatus>)
        ensures
            match status {
                Some(made) => 100 <= code <= 999 && made.value() == code,
                None => !(100 <= code <= 999),
            },
    {
        if 100 <= code && code <= 999 {
            Some(HttpStatus { code })
        } else {
            None
        }
    }

    pub fn as_u16(&self) -> (code: u16)
        ensures
            code == self.value(),
            100 <= code <= 999,
    {
        proof {
            use_type_invariant(self);
        }
        self.code
    }

    pub fn ok() -> (status: HttpStatus)
        ensures
            status.value() == 200,
    {
        HttpStatus { code: 200 }
    }

    pub fn created() -> (status: HttpStatus)
        ensures
            status.value() == 201,
    {
        HttpStatus { code: 201 }
    }

    pub fn no_content() -> (status: HttpStatus)
        ensures
            status.value() == 204,
    {
        HttpStatus { code: 204 }
    }

    pub fn not_found() -> (status: HttpStatus)
        ensures
            status.value() == 404,
    {
        HttpStatus { code: 404 }
    }

    pub fn unprocessable_entity() -> (status: HttpStatus)
        ensures
            status.value() == 422,
    {
        HttpStatus { code: 422 }
    }

    pub fn internal_server_error() -> (status: HttpStatus)
        ensures
            status.value() == 500,
    {
        HttpStatus { code: 500 }
    }

    /// The status line: the number and its canonical reason.
    pub fn to_string(&self) -> (text: String)
        ensures
            text@ == status_line(self.value()),
    {
        status_text(self.as_u16())
    }
}

/// Every character is one of `0` to `9`, and there is at least one.
pub open spec fn is_ascii_digits(digits: Seq<char>) -> bool {
    &&& digits.len() > 0
    &&& forall|i: int| 0 <= i < digits.len() ==> '0' <= #[trigger] digits[i] && digits[i] <= '9'
}

/// The number that decimal digits write.
pub open spec fn digits_value(digits: Seq<char>) -> int
    decreases digits.len(),
{
    if digits.len() == 0 {
        0
    } else {
        digits_value(digits.drop_last()) * 10 + (digits.last() as int - '0' as int)
    }
}

/// The status code that the digits of a message write: their number where
/// they are decimal digits and the number fits into sixteen bits.
pub open spec fn status_code_of(digits: Seq<char>) -> Option<u16> {
    if is_ascii_digits(digits) && digits_value(digits) <= u16::MAX {
        Some(digits_value(digits) as u16)
    } else {
        None
    }
}

/// The number that a beginning of decimal digits writes is not above the
/// number that all of them write.
proof fn lemma_digits_value_grows(digits: Seq<char>, shorter: int)
    requires
        is_ascii_digits(digits),
        0 <= shorter <= digits.len(),
    ensures
        0 <= digits_value(digits.take(shorter)) <= digits_value(digits),
    decreases digits.len() - shorter,
{
    if shorter == digits.len() {
        assert(digits.take(shorter) =~= digits);
        lemma_digits_value_is_natural(digits);
    } else {
        lemma_digits_value_grows(digits, shorter + 1);
        assert(digits.take(shorter + 1).drop_last() =~= digits.take(shorter));
        lemma_digits_value_is_natural(digits.take(shorter));
    }
}

proof fn lemma_digits_value_is_natural(digits: Seq<char>)
    requires
        forall|i: int| 0 <= i < digits.len() ==> '0' <= #[trigger] digits[i] && digits[i] <= '9',
    ensures
        digits_value(digits) >= 0,
    decreases digits.len(),
{
    if digits.len() > 0 {
        lemma_digits_value_is_natural(digits.drop_last());
    }
}

/// Reads a status code from decimal digits.
pub fn parse_status_code(digits: &str) -> (code: Option<u16>)
    ensures
        code == status_code_of(digits@),
{
    let len = digits.unicode_len();
    if len == 0 {
        return None;
    }
    let mut value: u32 = 0;
    let mut i: usize = 0;
    while i < len
        invariant
            i <= len,
            len == digits@.len(),
            forall|j: int| 0 <= j < i ==> '0' <= #[trigger] digits@[j] && digits@[j] <= '9',
            value == digits_value(digits@.take(i as int)),
            value <= u16::MAX,
        decreases len - i,
    {
        let c = digits.get_char(i);
        if c < '0' || c > '9' {
            return None;
        }
        let digit: u32 = c as u32 - '0' as u32;
        proof {
            assert(digits@.take(i + 1).drop_last() =~= digits@.take(i as int));
        }
        value = value * 10 + digit;
        i += 1;
        if value > 65535 {
            proof {
                if is_ascii_digits(digits@) {
                    lemma_digits_value_grows(digits@, i as int);
                }
            }
            return None;
        }
    }
    proof {
        assert(digits@.take(len as int) =~= digits@);
    }
    Some(value as u16)
}

#[derive(Debug)]
pub enum ApiResponseType {
    SuccessWithData,
    StatusCodeOnly,
    Error,
}

impl Default for ApiResponseType {
    fn default() -> (kind: ApiResponseType)
        ensures
            kind is SuccessWithData,
    {
        ApiResponseType::SuccessWithData
    }
}

/// A failure on its way to the client. Its message may begin with a status
/// code in square brackets.
#[derive(Debug)]
pub struct ApiResponseError(pub String);

/// What the client reads of a failure.
#[derive(Debug)]
pub struct ApiResponseErrorObject {
    pub status: String,
    pub error: String,
}

/// The status of a failure whose message has the given captures: the code
/// between the square brackets where it is a status code, else 500.
pub open spec fn error_status(captures: Option<(Seq<char>, Seq<char>)>) -> int {
    match captures {
        Some((digits, _)) => match status_code_of(digits) {
            Some(code) => if 100 <= code <= 999 {
                code as int
            } else {
                500
            },
            None => 500,
        },
        None => 500,
    }
}

/// The text of a failure: what follows the bracketed code, or the whole
/// message where it has none.
pub open spec fn error_text(message: Seq<char>, captures: Option<(Seq<char>, Seq<char>)>) -> Seq<
    char,
> {
    match captures {
        Some((_, text)) => text,
        None => message,
    }
}

/// The captures as mathematical values.
pub open spec fn capture_views(captures: Option<(String, String)>) -> Option<
    (Seq<char>, Seq<char>),
> {
    match captures {
        Some((digits, text)) => Some((digits@, text@)),
        None => None,
    }
}

/// The status that the message of an exception stands for.
pub open spec fn exception_status(exception: TodoException) -> int {
    match exception {
        TodoException::AlreadyExists => 409,
        TodoException::NotFound => 422,
        TodoException::Unknown => 500,
    }
}

/// The sentence of the message of an exception.
pub open spec fn exception_text(exception: TodoException) -> Seq<char> {
    match exception {
        TodoException::AlreadyExists => "Todo already exists"@,
        TodoException::NotFound => "Todo not exists"@,
        TodoException::Unknown => "Unknown error"@,
    }
}

/// The message of an exception is read as the status in its square
/// brackets and the sentence behind them: 409 for a todo that already
/// exists, 422 for one that is not found, 500 for an unknown failure.
pub proof fn lemma_exception_response(exception: TodoException)
    ensures
        error_status(status_message_captures(exception.message())) == exception_status(
            exception,
        ),
        error_text(exception.message(), status_message_captures(exception.message()))
            == exception_text(exception),
{
    reveal_strlit("[409] Todo already exists");
    reveal_strlit("[422] Todo not exists");
    reveal_strlit("[500] Unknown error");
    reveal_strlit("Todo already exists");
    reveal_strlit("Todo not exists");
    reveal_strlit("Unknown error");
    let message = exception.message();
    reveal_with_fuel(digits_end, 5);
    assert(digits_end(message, 1) == 4);
    let digits = message.subrange(1, 4);
    let text = message.subrange(6, message.len() as int);
    assert(text =~= exception_text(exception));
    assert(!text.contains('\n')) by {
        assert forall|i: int| 0 <= i < text.len() implies text[i] != '\n' by {}
    }
    assert(status_message_captures(message) == Some((digits, text)));
    assert(is_ascii_digits(digits));
    assert(digits.drop_last() =~= message.subrange(1, 3));
    assert(digits.drop_last().drop_last() =~= message.subrange(1, 2));
    assert(digits.drop_last().drop_last().drop_last() =~= Seq::<char>::empty());
    reveal_with_fuel(digits_value, 5);
    assert(digits_value(digits) == exception_status(exception));
}

/// The status line of the status that the message of an exception stands
/// for: `409 Conflict`, `422 Unprocessable Entity`, `500 Internal Server
/// Error`.
pub open spec fn exception_status_line(exception: TodoException) -> Seq<char> {
    match exception {
        TodoException::AlreadyExists => "409 Conflict"@,
        TodoException::NotFound => "422 Unprocessable Entity"@,
        TodoException::Unknown => "500 Internal Server Error"@,
    }
}

/// The status lines of the statuses that the library answers with.
pub proof fn lemma_status_lines()
    ensures
        status_line(200) == "200 OK"@,
        status_line(201) == "201 Created"@,
        status_line(204) == "204 No Content"@,
        status_line(404) == "404 Not Found"@,
        status_line(409) == "409 Conflict"@,
        status_line(422) == "422 Unprocessable Entity"@,
        status_line(500) == "500 Internal Server Error"@,
        forall|exception: TodoException|
            #[trigger] status_line(exception_status(exception)) == exception_status_line(
                exception,
            ),
{
    reveal_strlit("OK");
    reveal_strlit("Created");
    reveal_strlit("No Content");
    reveal_strlit("Not Found");
    reveal_strlit("Conflict");
    reveal_strlit("Unprocessable Entity");
    reveal_strlit("Internal Server Error");
    reveal_strlit("200 OK");
    reveal_strlit("201 Created");
    reveal_strlit("204 No Content");
    reveal_strlit("404 Not Found");
    reveal_strlit("409 Conflict");
    reveal_strlit("422 Unprocessable Entity");
    reveal_strlit("500 Internal Server Error");
    assert(status_line(200) =~= "200 OK"@);
    assert(status_line(201) =~= "201 Created"@);
    assert(status_line(204) =~= "204 No Content"@);
    assert(status_line(404) =~= "404 Not Found"@);
    assert(status_line(409) =~= "409 Conflict"@);
    assert(status_line(422) =~= "422 Unprocessable Entity"@);
    assert(status_line(500) =~= "500 Internal Server Error"@);
}

impl ApiResponseError {
    /// The failure with the message of the exception.
    pub fn from_exception(exception: TodoException) -> (error: ApiResponseError)
        ensures
            error.0@ == exception.message(),
    {
        ApiResponseError(exception.to_string())
    }

    /// The status and the body of the failure that an exception is: the
    /// status in the square brackets of its message, with its status line,
    /// and the sentence behind them.
    pub fn respond_to_exception(exception: TodoException) -> (response: (
        HttpStatus,
        ApiResponseErrorObject,
    ))
        ensures
            response.0.value() == exception_status(exception),
            response.1.status@ == exception_status_line(exception),
            response.1.error@ == exception_text(exception),
    {
        proof {
            lemma_exception_response(exception);
            lemma_status_lines();
        }
        ApiResponseError::from_exception(exception).respond()
    }

    /// The status and the body of the failure, from its message and what the
    /// pattern captured of it.
    pub fn from_captures(message: String, captures: Option<(String, String)>) -> (response: (
        HttpStatus,
        ApiResponseErrorObject,
    ))
        ensures
            response.0.value() == error_status(capture_views(captures)),
            response.1.status@ == status_line(error_status(capture_views(captures))),
            response.1.error@ == error_text(message@, capture_views(captures)),
    {
        match captures {
            Some((digits, text)) => {
                let status = match parse_status_code(digits.as_str()) {
                    Some(code) => match HttpStatus::from_u16(code) {
                        Some(status) => status,
                        None => HttpStatus::internal_server_error(),
                    },
                    None => HttpStatus::internal_server_error(),
                };
                (status, ApiResponseErrorObject { status: status.to_string(), error: text })
            },
            None => {
                let status = HttpStatus::internal_server_error();
                (status, ApiResponseErrorObject { status: status.to_string(), error: message })
            },
        }
    }

    /// The status and the body of the failure.
    pub fn respond(self) -> (response: (HttpStatus, ApiResponseErrorObject))
        ensures
            response.0.value() == error_status(status_message_captures(self.0@)),
            response.1.status@ == status_line(error_status(status_message_captures(self.0@))),
            response.1.error@ == error_text(self.0@, status_message_captures(self.0@)),
    {
        let captures = capture_status_message(self.0.as_str());
        ApiResponseError::from_captures(self.0, captures)
    }
}

/// The count that goes with a list.
#[derive(Debug)]
pub struct ListInformations {
    pub total: i64,
}

#[derive(Debug)]
pub struct TodoParams {}

/// What the client reads of a success.
#[derive(Debug)]
pub struct ApiResponseObject<T, I> {
    pub status: String,
    pub informations: Option<I>,
    pub data: T,
}

/// What a handler answers: data with a status, a failure, or a bare status.
#[derive(Debug)]
pub enum ApiResponseData<T, I> {
    Data { data: T, informations: Option<I>, status: HttpStatus },
    Error(ApiResponseError),
    StatusCode(HttpStatus),
}

/// The body of a response.
#[derive(Debug)]
pub enum ApiResponseBody<T, I> {
    Object(ApiResponseObject<T, I>),
    Error(ApiResponseErrorObject),
    Empty,
}

pub type ApiResponse<T, I> = Result<ApiResponseData<T, I>, ApiResponseError>;

impl<T, I> ApiResponseData<T, I> {
    pub fn success_with_data(data: T, informations: Option<I>, status: HttpStatus) -> (answer: Self)
        ensures
            answer == (ApiResponseData::Data { data, informations, status }),
    {
        ApiResponseData::Data { data, informations, status }
    }

    pub fn status_code(status: HttpStatus) -> (answer: Self)
        ensures
            answer == ApiResponseData::<T, I>::StatusCode(status),
    {
        ApiResponseData::StatusCode(status)
    }

    pub fn error(message: &'static str) -> (answer: Self)
        ensures
            answer matches ApiResponseData::Error(error) && error.0@ == message@,
    {
        ApiResponseData::Error(ApiResponseError(String::from_str(message)))
    }

    /// The status and the body of the answer: data goes out with the status
    /// line of its status, a failure as [`ApiResponseError::respond`] shapes
    /// it, a bare status without a body.
    pub fn respond(self) -> (response: (HttpStatus, ApiResponseBody<T, I>))
        ensures
            match self {
                ApiResponseData::Data { data, informations, status } => {
                    &&& response.0 == status
                    &&& response.1 matches ApiResponseBody::Object(object)
                    &&& object.status@ == status_line(status.value())
                    &&& object.informations == informations
                    &&& object.data == data
                },
                ApiResponseData::Error(error) => {
                    &&& response.0.value() == error_status(status_message_captures(error.0@))
                    &&& response.1 matches ApiResponseBody::Error(object)
                    &&& object.status@ == status_line(
                        error_status(status_message_captures(error.0@)),
                    )
                    &&& object.error@ == error_text(error.0@, status_message_captures(error.0@))
                },
                ApiResponseData::StatusCode(status) => {
                    &&& response.0 == status
                    &&& response.1 is Empty
                },
            },
    {
        match self {
            ApiResponseData::Data { data, informations, status } => {
                let object = ApiResponseObject { status: status.to_string(), informations, data };
                (status, ApiResponseBody::Object(object))
            },
            ApiResponseData::Error(error) => {
                let (status, object) = error.respond();
                (status, ApiResponseBody::Error(object))
            },
            ApiResponseData::StatusCode(status) => (status, ApiResponseBody::Empty),
        }
    }
}

} // verus!
