use vstd::prelude::*;

use crate::limits::{DEFAULT_TIMEOUT_MS, MAX_REQUEST_BYTES, MAX_REQUEST_ID_BYTES, SCHEMA_VERSION};
use crate::text::{blank, is_blank, tokens_match, white_space};

verus! {

/// The JSON payload a request carries and the JSON data a handler answers
/// with. The transport never looks inside it; it only hands it on.
#[verifier::external_type_specification]
#[verifier::external_body]
pub struct ExJsonValue(serde_json::Value);

/// A request as it arrives on the wire, once its line has been parsed.
#[derive(Debug)]
pub struct WireRequest {
    pub schema_version: u64,
    pub request_id: String,
    pub auth_token: String,
    pub action: String,
    pub timeout_ms: Option<u64>,
    pub payload: serde_json::Value,
}

/// What the editor-side handler receives: never the token.
#[derive(Debug)]
pub struct HandlerRequest {
    pub request_id: String,
    pub action: String,
    pub payload: serde_json::Value,
}

/// A failure reported to the client: a class the client can branch on and a
/// human-readable message.
#[derive(Debug)]
pub struct Failure {
    pub class: &'static str,
    pub message: String,
}

impl Failure {
    pub fn new(class: &'static str, message: String) -> (failure: Failure)
        ensures
            failure.class == class,
            failure.message@ == message@,
    {
        Failure { class, message }
    }
}

/// A request turned away before any handler saw it, with the request
/// identifier to echo (empty when the identifier itself was not acceptable).
#[derive(Debug)]
pub struct Rejection {
    pub request_id: String,
    pub failure: Failure,
}

/// A request that may be handed to the handler, with the time it may wait.
#[derive(Debug)]
pub struct Admission {
    pub request: HandlerRequest,
    pub timeout_ms: u64,
}

/// A request identifier must hold something besides white space and fit in
/// `MAX_REQUEST_ID_BYTES` bytes of UTF-8.
pub open spec fn request_id_ok(id: Seq<char>) -> bool {
    !blank(id) && vstd::utf8::encode_utf8(id).len() <= MAX_REQUEST_ID_BYTES
}

/// How long an admitted request may wait for its handler: the requested time,
/// or the default when none was asked for, kept between 1 ms and the default.
pub open spec fn timeout_for(requested: Option<u64>) -> u64 {
    match requested {
        None => DEFAULT_TIMEOUT_MS,
        Some(ms) => if ms < 1 {
            1
        } else if ms > DEFAULT_TIMEOUT_MS {
            DEFAULT_TIMEOUT_MS
        } else {
            ms
        },
    }
}

/// Why a parsed request is turned away, checked in this order: its identifier,
/// its schema, its token, its action. `None` when it is admitted; otherwise the
/// identifier to echo, the failure class and the message.
pub open spec fn rejection_of(token: Seq<char>, request: WireRequest) -> Option<
    (Seq<char>, Seq<char>, Seq<char>),
> {
    if !request_id_ok(request.request_id@) {
        Some((Seq::empty(), "invalid_request"@, "request_id must contain 1 to 256 bytes"@))
    } else if request.schema_version != SCHEMA_VERSION {
        Some((request.request_id@, "unsupported_schema"@, "expected schema version 2"@))
    } else if token != request.auth_token@ {
        Some((request.request_id@, "unauthorized"@, "invalid authentication token"@))
    } else if blank(request.action@) {
        Some((request.request_id@, "invalid_request"@, "action must be non-empty"@))
    } else {
        None
    }
}

/// Checks the raw request line: at most `MAX_REQUEST_BYTES` bytes, ending in
/// a newline. Nothing else about it is looked at here.
pub fn check_frame(line: &[u8]) -> (res: Result<(), Rejection>)
    ensures
        line@.len() > MAX_REQUEST_BYTES ==> (res matches Err(rejection) && rejection.request_id@
            == Seq::<char>::empty() && rejection.failure.class@ == "request_too_large"@
            && rejection.failure.message@ == "request exceeds 64 KiB"@),
        line@.len() <= MAX_REQUEST_BYTES && (line@.len() == 0 || line@.last() != 10u8) ==> (
        res matches Err(rejection) && rejection.request_id@ == Seq::<char>::empty()
            && rejection.failure.class@ == "invalid_request"@ && rejection.failure.message@
            == "request must end with a newline"@),
        res is Ok <==> frame_ok(line@),
        line@.len() <= MAX_REQUEST_BYTES && line@.len() > 0 && line@.last() == 10u8 ==> res is Ok,
{
    if line.len() > MAX_REQUEST_BYTES {
        return Err(
            Rejection {
                request_id: String::new(),
                failure: Failure::new("request_too_large", "request exceeds 64 KiB".to_owned()),
            },
        );
    }
    if line.len() == 0 || line[line.len() - 1] != 10u8 {
        return Err(
            Rejection {
                request_id: String::new(),
                failure: Failure::new(
                    "invalid_request",
                    "request must end with a newline".to_owned(),
                ),
            },
        );
    }
    Ok(())
}

/// The wait granted to a request: see `timeout_for`.
pub fn request_timeout_ms(requested: Option<u64>) -> (ms: u64)
    ensures
        ms == timeout_for(requested),
{
    match requested {
        None => DEFAULT_TIMEOUT_MS,
        Some(ms) => if ms < 1 {
            1
        } else if ms > DEFAULT_TIMEOUT_MS {
            DEFAULT_TIMEOUT_MS
        } else {
            ms
        },
    }
}

/// Decides what becomes of a request line once it has been parsed (or failed
/// to parse, with the parser's message): turned away as `rejection_of` says,
/// or admitted with its identifier, action and payload and the wait it gets.
pub fn admit_request(auth_token: &str, parsed: Result<WireRequest, String>) -> (res: Result<
    Admission,
    Rejection,
>)
    ensures
        match parsed {
            Err(message) => res matches Err(rejection) && rejection.request_id@ == Seq::<
                char,
            >::empty() && rejection.failure.class@ == "invalid_request"@
                && rejection.failure.message@ == message@,
            Ok(request) => match rejection_of(auth_token@, request) {
                Some((id, class, message)) => res matches Err(rejection) && rejection.request_id@
                    == id && rejection.failure.class@ == class && rejection.failure.message@
                    == message,
                None => res matches Ok(admission) && admission.request.request_id@
                    == request.request_id@ && admission.request.action@ == request.action@
                    && admission.request.payload == request.payload && admission.timeout_ms
                    == timeout_for(request.timeout_ms),
            },
        },
{
    let request = match parsed {
        Ok(request) => request,
        Err(message) => {
            return Err(
                Rejection {
                    request_id: String::new(),
                    failure: Failure::new("invalid_request", message),
                },
            );
        },
    };
    let ghost whole = request;
    if is_blank(request.request_id.as_str()) || request.request_id.as_str().as_bytes().len()
        > MAX_REQUEST_ID_BYTES {
        return Err(
            Rejection {
                request_id: String::new(),
                failure: Failure::new(
                    "invalid_request",
                    "request_id must contain 1 to 256 bytes".to_owned(),
                ),
            },
        );
    }
    if request.schema_version != SCHEMA_VERSION {
        return Err(
            Rejection {
                request_id: request.request_id,
                failure: Failure::new(
                    "unsupported_schema",
                    "expected schema version 2".to_owned(),
                ),
            },
        );
    }
    let matched = tokens_match(auth_token.as_bytes(), request.auth_token.as_str().as_bytes());
    proof {
        // Equal encodings come from equal texts: UTF-8 decoding undoes encoding.
        vstd::utf8::encode_utf8_decode_utf8(auth_token@);
        vstd::utf8::encode_utf8_decode_utf8(whole.auth_token@);
    }
    if !matched {
        return Err(
            Rejection {
                request_id: request.request_id,
                failure: Failure::new(
                    "unauthorized",
                    "invalid authentication token".to_owned(),
                ),
            },
        );
    }
    if is_blank(request.action.as_str()) {
        return Err(
            Rejection {
                request_id: request.request_id,
                failure: Failure::new("invalid_request", "action must be non-empty".to_owned()),
            },
        );
    }
    let timeout_ms = request_timeout_ms(request.timeout_ms);
    Ok(
        Admission {
            request: HandlerRequest {
                request_id: request.request_id,
                action: request.action,
                payload: request.payload,
            },
            timeout_ms,
        },
    )
}

/// A line passes the frame check exactly when it is at most
/// `MAX_REQUEST_BYTES` bytes long and ends with a newline.
pub open spec fn frame_ok(line: Seq<u8>) -> bool {
    line.len() <= MAX_REQUEST_BYTES && line.len() > 0 && line.last() == 10u8
}

/// Authentication comes before any handoff: a request is admitted only with
/// an acceptable identifier, the supported schema, exactly the server's token
/// and a non-blank action.
pub proof fn law_admitted_requests_are_authenticated(token: Seq<char>, request: WireRequest)
    requires
        rejection_of(token, request) is None,
    ensures
        request.auth_token@ == token,
        request.schema_version == SCHEMA_VERSION,
        request_id_ok(request.request_id@),
        !blank(request.action@),
{
}

/// A line passes the frame check exactly when it holds at most 64 KiB and its
/// last byte is a newline, whatever the other bytes are.
pub proof fn law_frames_are_length_and_newline_only(line: Seq<u8>)
    ensures
        frame_ok(line) <==> (line.len() <= 65536 && line.len() > 0 && line[line.len() - 1]
            == 10u8),
{
}

/// Admission is complete: a request whose identifier holds some character
/// that is not white space and fits in 256 UTF-8 bytes, with schema version 2,
/// exactly the server's token and an action holding some character that is not
/// white space, is admitted, whatever its action, payload and timeout.
pub proof fn law_admission_is_complete(token: Seq<char>, request: WireRequest)
    requires
        exists|i: int|
            0 <= i < request.request_id@.len() && !white_space(#[trigger] request.request_id@[i]),
        vstd::utf8::encode_utf8(request.request_id@).len() <= 256,
        request.schema_version == 2,
        request.auth_token@ == token,
        exists|i: int| 0 <= i < request.action@.len() && !white_space(#[trigger] request.action@[i]),
    ensures
        rejection_of(token, request) is None,
{
}

/// An identifier made only of white space (or empty), or longer than 256
/// UTF-8 bytes, is refused before anything else is looked at, and not echoed.
pub proof fn law_bad_identifiers_are_refused_first(token: Seq<char>, request: WireRequest)
    requires
        (forall|i: int|
            0 <= i < request.request_id@.len() ==> white_space(#[trigger] request.request_id@[i]))
            || vstd::utf8::encode_utf8(request.request_id@).len() > 256,
    ensures
        rejection_of(token, request) == Some(
            (
                Seq::<char>::empty(),
                "invalid_request"@,
                "request_id must contain 1 to 256 bytes"@,
            ),
        ),
{
}

/// With an acceptable identifier, any schema version but 2 is refused as
/// `unsupported_schema`, echoing the identifier, whatever the token.
pub proof fn law_other_schemas_are_unsupported(token: Seq<char>, request: WireRequest)
    requires
        exists|i: int|
            0 <= i < request.request_id@.len() && !white_space(#[trigger] request.request_id@[i]),
        vstd::utf8::encode_utf8(request.request_id@).len() <= 256,
        request.schema_version != 2,
    ensures
        rejection_of(token, request) == Some(
            (request.request_id@, "unsupported_schema"@, "expected schema version 2"@),
        ),
{
}

/// With an acceptable identifier and schema version 2, any token but the
/// server's is refused as `unauthorized`, echoing the identifier, whatever the
/// action.
pub proof fn law_wrong_tokens_are_unauthorized(token: Seq<char>, request: WireRequest)
    requires
        exists|i: int|
            0 <= i < request.request_id@.len() && !white_space(#[trigger] request.request_id@[i]),
        vstd::utf8::encode_utf8(request.request_id@).len() <= 256,
        request.schema_version == 2,
        request.auth_token@ != token,
    ensures
        rejection_of(token, request) == Some(
            (request.request_id@, "unauthorized"@, "invalid authentication token"@),
        ),
{
}

/// An authenticated request whose action is empty or only white space is
/// refused as `invalid_request`, echoing the identifier.
pub proof fn law_blank_actions_are_refused(token: Seq<char>, request: WireRequest)
    requires
        exists|i: int|
            0 <= i < request.request_id@.len() && !white_space(#[trigger] request.request_id@[i]),
        vstd::utf8::encode_utf8(request.request_id@).len() <= 256,
        request.schema_version == 2,
        request.auth_token@ == token,
        forall|i: int| 0 <= i < request.action@.len() ==> white_space(#[trigger] request.action@[i]),
    ensures
        rejection_of(token, request) == Some(
            (request.request_id@, "invalid_request"@, "action must be non-empty"@),
        ),
{
}

/// A refusal echoes either nothing or the request's own identifier, and the
/// latter only once that identifier has been found acceptable.
pub proof fn law_rejections_echo_only_valid_identifiers(token: Seq<char>, request: WireRequest)
    requires
        rejection_of(token, request) is Some,
    ensures
        ({
            let id = rejection_of(token, request)->Some_0.0;
            id == Seq::<char>::empty() || (id == request.request_id@ && request_id_ok(id))
        }),
{
}

/// The wait granted is never below 1 ms nor above the default, and a
/// requested wait within those bounds is granted as asked.
pub proof fn law_timeouts_are_clamped(requested: Option<u64>)
    ensures
        1 <= timeout_for(requested) <= DEFAULT_TIMEOUT_MS,
        forall|ms: u64|
            requested == Some(ms) && 1 <= ms <= DEFAULT_TIMEOUT_MS ==> #[trigger] timeout_for(
                Some(ms),
            ) == ms,
        requested is None ==> timeout_for(requested) == DEFAULT_TIMEOUT_MS,
{
}

/// The wait granted is the requested one clamped to 1..=5000 ms, and 5000 ms
/// when none was requested.
pub proof fn law_timeouts_follow_the_request(ms: u64)
    ensures
        timeout_for(None) == 5000,
        ms == 0 ==> timeout_for(Some(ms)) == 1,
        1 <= ms <= 5000 ==> timeout_for(Some(ms)) == ms,
        ms > 5000 ==> timeout_for(Some(ms)) == 5000,
{
}

/// Asking for a longer wait never yields a shorter one.
pub proof fn law_timeouts_are_monotone(shorter: u64, longer: u64)
    requires
        shorter <= longer,
    ensures
        timeout_for(Some(shorter)) <= timeout_for(Some(longer)),
{
}

} // verus!
