use todoapp_server::domain::exception::TodoException;
use todoapp_server::infra::api_response::{
    parse_status_code, ApiResponseBody, ApiResponseData, ApiResponseError, ApiResponseType,
    HttpStatus, ListInformations, TodoParams,
};

fn respond(message: &str) -> (u16, String, String) {
    let (status, body) = ApiResponseError(message.to_string()).respond();
    (status.as_u16(), body.status, body.error)
}

#[test]
fn exceptions_answer_with_their_status() {
    let (status, line, error) =
        respond(&ApiResponseError::from_exception(TodoException::AlreadyExists).0);
    assert_eq!((status, line.as_str(), error.as_str()), (409, "409 Conflict", "Todo already exists"));
    let (status, line, error) =
        respond(&ApiResponseError::from_exception(TodoException::NotFound).0);
    assert_eq!(
        (status, line.as_str(), error.as_str()),
        (422, "422 Unprocessable Entity", "Todo not exists")
    );
    let (status, line, error) =
        respond(&ApiResponseError::from_exception(TodoException::Unknown).0);
    assert_eq!(
        (status, line.as_str(), error.as_str()),
        (500, "500 Internal Server Error", "Unknown error")
    );
}

#[test]
fn exceptions_are_answered_as_their_messages_say() {
    let (status, body) = ApiResponseError::respond_to_exception(TodoException::AlreadyExists);
    assert_eq!(status.as_u16(), 409);
    assert_eq!(body.status, "409 Conflict");
    assert_eq!(body.error, "Todo already exists");
    let (status, body) = ApiResponseError::respond_to_exception(TodoException::NotFound);
    assert_eq!(status.as_u16(), 422);
    assert_eq!(body.status, "422 Unprocessable Entity");
    assert_eq!(body.error, "Todo not exists");
    let (status, body) = ApiResponseError::respond_to_exception(TodoException::Unknown);
    assert_eq!(status.as_u16(), 500);
    assert_eq!(body.status, "500 Internal Server Error");
    assert_eq!(body.error, "Unknown error");
}

#[test]
fn every_status_is_written_as_its_code_and_its_reason() {
    for code in 100..=999u16 {
        let line = HttpStatus::from_u16(code).unwrap().to_string();
        let status = axum::http::StatusCode::from_u16(code).unwrap();
        let reason = status.canonical_reason().unwrap_or("<unknown status code>");
        assert_eq!(line, format!("{} {}", code, reason));
        assert_eq!(&line[..3], code.to_string());
        assert_eq!(&line[3..4], " ");
    }
}

#[test]
fn a_message_without_a_code_answers_500_with_the_whole_message() {
    for message in [
        "something broke",
        "",
        "[409]Todo already exists",
        "[409] ",
        "[] empty",
        "[4x9] letters",
        " [409] leading space",
        "[409] two\nlines",
        "[-409] negative",
        "[+409] signed",
    ] {
        let (status, line, error) = respond(message);
        assert_eq!(status, 500, "{:?}", message);
        assert_eq!(line, "500 Internal Server Error");
        assert_eq!(error, message);
    }
}

#[test]
fn a_code_that_is_no_status_answers_500_with_the_text_behind_it() {
    for message in ["[99] too small", "[1000] too large", "[65536] too long", "[99999999999999999999] huge", "[0] zero", "[٤٠٩] other digits"] {
        let (status, line, error) = respond(message);
        assert_eq!(status, 500, "{:?}", message);
        assert_eq!(line, "500 Internal Server Error");
        assert_eq!(error, message.split_once("] ").unwrap().1);
    }
}

#[test]
fn any_status_code_in_brackets_is_taken() {
    assert_eq!(respond("[100] go on"), (100, "100 Continue".to_string(), "go on".to_string()));
    assert_eq!(respond("[404] gone"), (404, "404 Not Found".to_string(), "gone".to_string()));
    assert_eq!(
        respond("[0404] zeros"),
        (404, "404 Not Found".to_string(), "zeros".to_string())
    );
    assert_eq!(
        respond("[999] odd"),
        (999, "999 <unknown status code>".to_string(), "odd".to_string())
    );
    assert_eq!(
        respond("[418] [409] nested"),
        (418, "418 I'm a teapot".to_string(), "[409] nested".to_string())
    );
}

#[test]
fn the_answer_is_what_the_pattern_and_the_status_give() {
    let pattern = regex::Regex::new(r"^\[(\d+)\] (.+)$").unwrap();
    for message in ["[409] Todo already exists", "[12] x", "plain", "[700] seven", "[42]  two spaces"] {
        let expected = match pattern.captures(message) {
            Some(found) => {
                let status = match found.get(1).unwrap().as_str().parse::<u16>() {
                    Ok(code) => axum::http::StatusCode::from_u16(code)
                        .unwrap_or(axum::http::StatusCode::INTERNAL_SERVER_ERROR),
                    Err(_) => axum::http::StatusCode::INTERNAL_SERVER_ERROR,
                };
                (status.as_u16(), status.to_string(), found.get(2).unwrap().as_str().to_string())
            },
            None => (500, "500 Internal Server Error".to_string(), message.to_string()),
        };
        assert_eq!(respond(message), expected);
    }
}

fn is_digit_to_the_pattern(c: char, class: &regex::Regex) -> bool {
    if (c as u32) < 128 {
        c.is_ascii_digit()
    } else {
        class.is_match(&c.to_string())
    }
}

fn captures_by_hand(message: &str, class: &regex::Regex) -> Option<(String, String)> {
    let chars: Vec<char> = message.chars().collect();
    let mut end = 1;
    while end < chars.len() && is_digit_to_the_pattern(chars[end], class) {
        end += 1;
    }
    if !chars.is_empty()
        && chars[0] == '['
        && end > 1
        && end + 2 < chars.len()
        && chars[end] == ']'
        && chars[end + 1] == ' '
        && !chars[end + 2..].contains(&'\n')
    {
        Some((chars[1..end].iter().collect(), chars[end + 2..].iter().collect()))
    } else {
        None
    }
}

#[test]
fn the_pattern_matches_what_its_description_says() {
    let class = regex::Regex::new(r"^\d$").unwrap();
    let alphabet =
        ['[', ']', ' ', '4', '0', '9', '5', 'a', '\n', '\r', '\t', '٤', 'é', '１', '²', '-', '+'];
    let mut state: u64 = 987654321;
    let mut next = |bound: u64| {
        state = state.wrapping_mul(6364136223846793005).wrapping_add(1442695040888963407);
        (state >> 33) % bound
    };
    let mut matched = 0;
    for round in 0..3000 {
        let mut message = String::new();
        if round % 2 == 0 {
            message.push('[');
            for _ in 0..next(4) {
                message.push(alphabet[3 + next(4) as usize]);
            }
        }
        if round % 4 == 0 {
            message.push_str("] ");
        }
        for _ in 0..next(7) {
            message.push(alphabet[next(alphabet.len() as u64) as usize]);
        }
        let by_hand = captures_by_hand(&message, &class);
        if by_hand.is_some() {
            matched += 1;
        }
        let (expected_status, expected_body) =
            ApiResponseError::from_captures(message.clone(), by_hand);
        let (status, body) = ApiResponseError(message.clone()).respond();
        assert_eq!(status.as_u16(), expected_status.as_u16(), "{:?}", message);
        assert_eq!(body.status, expected_body.status, "{:?}", message);
        assert_eq!(body.error, expected_body.error, "{:?}", message);
    }
    assert!(matched > 50);
    assert!(is_digit_to_the_pattern('٤', &class));
    assert!(is_digit_to_the_pattern('１', &class));
    assert!(!is_digit_to_the_pattern('²', &class));
    for code in 0..128u8 {
        let c = code as char;
        assert_eq!(class.is_match(&c.to_string()), c.is_ascii_digit());
    }
}

#[test]
fn from_captures_takes_the_captures_it_is_given() {
    let (status, body) = ApiResponseError::from_captures(
        "whole".to_string(),
        Some(("201".to_string(), "made".to_string())),
    );
    assert_eq!(status.as_u16(), 201);
    assert_eq!(body.status, "201 Created");
    assert_eq!(body.error, "made");
    let (status, body) = ApiResponseError::from_captures("whole".to_string(), None);
    assert_eq!(status.as_u16(), 500);
    assert_eq!(body.error, "whole");
    let (status, body) = ApiResponseError::from_captures(
        "whole".to_string(),
        Some(("12a".to_string(), "text".to_string())),
    );
    assert_eq!(status.as_u16(), 500);
    assert_eq!(body.error, "text");
}

#[test]
fn status_codes_are_read_from_decimal_digits() {
    assert_eq!(parse_status_code("409"), Some(409));
    assert_eq!(parse_status_code("0"), Some(0));
    assert_eq!(parse_status_code("007"), Some(7));
    assert_eq!(parse_status_code("65535"), Some(65535));
    assert_eq!(parse_status_code("65536"), None);
    assert_eq!(parse_status_code("000000000000000000000065535"), Some(65535));
    assert_eq!(parse_status_code("99999999999999999999999"), None);
    assert_eq!(parse_status_code(""), None);
    assert_eq!(parse_status_code("12a"), None);
    assert_eq!(parse_status_code("-1"), None);
    assert_eq!(parse_status_code(" 1"), None);
    assert_eq!(parse_status_code("٤٠٩"), None);
}

#[test]
fn a_status_is_a_number_from_100_to_999() {
    assert!(HttpStatus::from_u16(99).is_none());
    assert_eq!(HttpStatus::from_u16(100).unwrap().as_u16(), 100);
    assert_eq!(HttpStatus::from_u16(999).unwrap().as_u16(), 999);
    assert!(HttpStatus::from_u16(1000).is_none());
    assert!(HttpStatus::from_u16(0).is_none());
    assert!(HttpStatus::from_u16(u16::MAX).is_none());
    for code in [0u16, 99, 100, 200, 599, 999, 1000, 65535] {
        assert_eq!(
            HttpStatus::from_u16(code).is_some(),
            axum::http::StatusCode::from_u16(code).is_ok()
        );
    }
    assert_eq!(HttpStatus::ok().as_u16(), 200);
    assert_eq!(HttpStatus::created().as_u16(), 201);
    assert_eq!(HttpStatus::no_content().as_u16(), 204);
    assert_eq!(HttpStatus::not_found().as_u16(), 404);
    assert_eq!(HttpStatus::unprocessable_entity().as_u16(), 422);
    assert_eq!(HttpStatus::internal_server_error().as_u16(), 500);
}

#[test]
fn a_status_is_written_with_its_reason() {
    assert_eq!(HttpStatus::ok().to_string(), "200 OK");
    assert_eq!(HttpStatus::created().to_string(), "201 Created");
    assert_eq!(HttpStatus::no_content().to_string(), "204 No Content");
    assert_eq!(HttpStatus::not_found().to_string(), "404 Not Found");
    assert_eq!(HttpStatus::unprocessable_entity().to_string(), "422 Unprocessable Entity");
    assert_eq!(HttpStatus::internal_server_error().to_string(), "500 Internal Server Error");
    assert_eq!(HttpStatus::from_u16(777).unwrap().to_string(), "777 <unknown status code>");
}

#[test]
fn data_goes_out_with_its_status_line() {
    let answer: ApiResponseData<i64, ListInformations> = ApiResponseData::success_with_data(
        7,
        Some(ListInformations { total: 9 }),
        HttpStatus::created(),
    );
    let (status, body) = answer.respond();
    assert_eq!(status.as_u16(), 201);
    match body {
        ApiResponseBody::Object(object) => {
            assert_eq!(object.status, "201 Created");
            assert_eq!(object.data, 7);
            assert_eq!(object.informations.unwrap().total, 9);
        },
        _ => panic!("data was expected"),
    }
}

#[test]
fn a_bare_status_goes_out_without_a_body() {
    let answer: ApiResponseData<(), TodoParams> =
        ApiResponseData::status_code(HttpStatus::no_content());
    let (status, body) = answer.respond();
    assert_eq!(status.as_u16(), 204);
    assert!(matches!(body, ApiResponseBody::Empty));
}

#[test]
fn an_error_goes_out_as_its_message_says() {
    let answer: ApiResponseData<(), TodoParams> = ApiResponseData::error("[409] Todo already exists");
    let (status, body) = answer.respond();
    assert_eq!(status.as_u16(), 409);
    match body {
        ApiResponseBody::Error(object) => {
            assert_eq!(object.status, "409 Conflict");
            assert_eq!(object.error, "Todo already exists");
        },
        _ => panic!("an error was expected"),
    }
    let answer: ApiResponseData<(), TodoParams> = ApiResponseData::error("no code");
    let (status, body) = answer.respond();
    assert_eq!(status.as_u16(), 500);
    match body {
        ApiResponseBody::Error(object) => assert_eq!(object.error, "no code"),
        _ => panic!("an error was expected"),
    }
}

#[test]
fn the_default_response_type_is_success_with_data() {
    assert!(matches!(ApiResponseType::default(), ApiResponseType::SuccessWithData));
}
