use backend::requests::{
    check_first_upvote, check_questions_allowed, validate_title, AblyTokenQuery, CreateSessionRequest,
    InputError, RegisterParticipantRequest, RegisterRequest, SubmitQuestionRequest, SubmitVoteRequest,
    UpdateSessionRequest, UpvoteQuestionRequest,
};
use backend::text::{clean_text, contains_char, escape_angle_brackets, TextProblem};

fn question(content: &str) -> SubmitQuestionRequest {
    SubmitQuestionRequest { content: content.to_string(), participant_id: "p".to_string(), slide_id: None }
}

#[test]
fn question_is_trimmed_and_escaped() {
    assert_eq!(question("  <b>hi</b>  ").sanitized_content(), Ok("&lt;b&gt;hi&lt;/b&gt;".to_string()));
    assert_eq!(question("\t plain \n").sanitized_content(), Ok("plain".to_string()));
}

#[test]
fn blank_question_is_refused() {
    assert_eq!(question("   ").sanitized_content(), Err(InputError::EmptyQuestion));
    assert_eq!(question("").sanitized_content(), Err(InputError::EmptyQuestion));
}

#[test]
fn question_limit_is_in_bytes() {
    assert!(question(&"a".repeat(1000)).sanitized_content().is_ok());
    assert_eq!(question(&"a".repeat(1001)).sanitized_content(), Err(InputError::QuestionTooLong));
    // 500 two-byte characters fill the limit exactly; one more exceeds it.
    assert!(question(&"é".repeat(500)).sanitized_content().is_ok());
    assert_eq!(question(&"é".repeat(501)).sanitized_content(), Err(InputError::QuestionTooLong));
}

#[test]
fn escaping_keeps_other_characters() {
    assert_eq!(escape_angle_brackets("a<b>c é"), "a&lt;b&gt;c é");
    assert_eq!(escape_angle_brackets(""), "");
    assert_eq!(clean_text("  x ", 0), Err(TextProblem::TooLong));
    assert!(contains_char("a@b", '@'));
    assert!(!contains_char("ab", '@'));
}

#[test]
fn questions_disabled_only_when_explicit() {
    assert_eq!(check_questions_allowed(Some(false)), Err(InputError::QuestionsDisabled));
    assert_eq!(check_questions_allowed(Some(true)), Ok(()));
    assert_eq!(check_questions_allowed(None), Ok(()));
}

#[test]
fn participant_names() {
    let r = |n: &str| RegisterParticipantRequest { participant_id: "p".to_string(), name: n.to_string() };
    assert_eq!(r("  Ada <3 ").sanitized_name(), Ok("Ada &lt;3".to_string()));
    assert_eq!(r(" ").sanitized_name(), Err(InputError::EmptyName));
    assert_eq!(r(&"n".repeat(101)).sanitized_name(), Err(InputError::NameTooLong));
}

fn vote(option_id: Option<&str>, option_ids: Option<Vec<&str>>) -> SubmitVoteRequest {
    SubmitVoteRequest {
        slide_id: "s".to_string(),
        option_id: option_id.map(|s| s.to_string()),
        option_ids: option_ids.map(|v| v.into_iter().map(|s| s.to_string()).collect()),
        participant_id: "p".to_string(),
    }
}

#[test]
fn vote_options() {
    assert_eq!(vote(Some("opt-1"), None).into_options(), Ok(vec!["opt-1".to_string()]));
    assert_eq!(
        vote(Some("ignored"), Some(vec!["a", "b"])).into_options(),
        Ok(vec!["a".to_string(), "b".to_string()])
    );
    assert_eq!(vote(None, None).into_options(), Err(InputError::NoOptionSelected));
    assert_eq!(vote(None, Some(vec![])).into_options(), Err(InputError::NoOptionSelected));
    assert_eq!(vote(None, Some(vec!["a"; 11])).into_options(), Err(InputError::TooManyOptions));
    assert!(vote(None, Some(vec!["a"; 10])).into_options().is_ok());
    assert_eq!(vote(Some("a b"), None).into_options(), Err(InputError::InvalidOptionId));
    assert_eq!(vote(Some("x;drop"), None).into_options(), Err(InputError::InvalidOptionId));
    let uuid = "123e4567-e89b-12d3-a456-426614174000";
    assert!(vote(Some(uuid), None).into_options().is_ok());
    assert_eq!(vote(Some(&format!("{}0", uuid)), None).into_options(), Err(InputError::InvalidOptionId));
    assert!(vote(Some("é"), None).into_options().is_ok());
}

fn registration(email: &str, password: &str, name: &str) -> RegisterRequest {
    RegisterRequest { email: email.to_string(), password: password.to_string(), name: name.to_string(), role: None }
}

#[test]
fn registration_checks_in_order() {
    assert_eq!(registration("a@b.c", "password1", "Ada").validate(), Ok(()));
    assert_eq!(
        registration(&format!("{}@b.c", "a".repeat(252)), "password1", "Ada").validate(),
        Err(InputError::EmailTooLong)
    );
    assert_eq!(registration("a@b.c", "short", "Ada").validate(), Err(InputError::PasswordTooShort));
    assert_eq!(registration("a@b.c", &"p".repeat(129), "Ada").validate(), Err(InputError::PasswordTooLong));
    assert_eq!(registration("a@b.c", "password1", &"n".repeat(101)).validate(), Err(InputError::NameTooLong));
    assert_eq!(registration("a@b.c", "password1", "  ").validate(), Err(InputError::EmptyName));
    assert_eq!(registration("ab.c", "password1", "Ada").validate(), Err(InputError::InvalidEmail));
    assert_eq!(registration("a@bc", "password1", "Ada").validate(), Err(InputError::InvalidEmail));
    assert_eq!(registration("bad", "short", "Ada").validate(), Err(InputError::PasswordTooShort));
}

#[test]
fn registration_role_defaults_to_student() {
    let mut r = registration("a@b.c", "password1", "Ada");
    assert_eq!(r.role_or_default(), "student");
    r.role = Some("staff".to_string());
    assert_eq!(r.role_or_default(), "staff");
}

#[test]
fn titles() {
    assert_eq!(validate_title("  Quiz <1> "), Ok("Quiz <1>".to_string()));
    assert_eq!(validate_title("   "), Err(InputError::EmptyTitle));
    assert_eq!(validate_title(&"t".repeat(201)), Err(InputError::TitleTooLong));
    assert!(validate_title(&"t".repeat(200)).is_ok());
}

#[test]
fn new_session_from_request() {
    let req = CreateSessionRequest { title: " Lecture 1 ".to_string(), allow_questions: Some(true), require_name: None };
    let s = req.into_new_session("id1".to_string(), "u1".to_string(), "abcd1234".to_string()).unwrap();
    assert_eq!(s.title, "Lecture 1");
    assert_eq!(s.id, "id1");
    assert_eq!(s.creator_id, "u1");
    assert_eq!(s.share_token, "abcd1234");
    assert!(s.allow_questions);
    assert!(!s.require_name);
    let bad = CreateSessionRequest { title: "".to_string(), allow_questions: None, require_name: None };
    assert_eq!(bad.into_new_session("i".to_string(), "u".to_string(), "t".to_string()).err(), Some(InputError::EmptyTitle));
}

#[test]
fn session_updates_from_request() {
    let req = UpdateSessionRequest { title: Some(" New ".to_string()), allow_questions: Some(false), require_name: None };
    let u = req.into_updates().unwrap();
    assert_eq!(u.title, Some(" New ".to_string()));
    assert_eq!(u.status, None);
    assert_eq!(u.allow_questions, Some(false));
    assert_eq!(u.require_name, None);
    let bad = UpdateSessionRequest { title: Some(" ".to_string()), allow_questions: None, require_name: None };
    assert_eq!(bad.into_updates().err(), Some(InputError::EmptyTitle));
    let none = UpdateSessionRequest { title: None, allow_questions: None, require_name: Some(true) };
    assert!(none.into_updates().is_ok());
}

fn ably(role: &str, participant: Option<&str>) -> AblyTokenQuery {
    AblyTokenQuery { session_id: "s1".to_string(), role: role.to_string(), participant_id: participant.map(|p| p.to_string()) }
}

#[test]
fn ably_capabilities_by_role() {
    assert_eq!(ably("staff", None).operations(), Ok(vec!["publish".to_string(), "subscribe".to_string(), "presence".to_string()]));
    assert_eq!(ably("student", None).operations(), Ok(vec!["subscribe".to_string(), "presence".to_string()]));
    assert_eq!(ably("projector", None).operations(), Ok(vec!["subscribe".to_string(), "presence".to_string()]));
    assert_eq!(ably("admin", None).operations(), Err(InputError::InvalidRole));
    assert_eq!(ably("staff", None).channel_name(), "session:s1");
    assert_eq!(ably("student", None).client_id(), "student-s1");
    assert_eq!(ably("student", Some("p9")).client_id(), "p9");
}

#[test]
fn upvotes() {
    assert_eq!(UpvoteQuestionRequest { participant_id: None }.voter_id(), "anonymous");
    assert_eq!(UpvoteQuestionRequest { participant_id: Some("p".to_string()) }.voter_id(), "p");
    assert_eq!(check_first_upvote(Some(true)), Err(InputError::AlreadyUpvoted));
    assert_eq!(check_first_upvote(Some(false)), Ok(()));
    assert_eq!(check_first_upvote(None), Ok(()));
}

#[test]
fn input_error_messages() {
    assert_eq!(InputError::QuestionTooLong.message(), "Question too long (max 1000 characters)");
    assert_eq!(InputError::InvalidRole.message(), "Invalid role. Must be 'staff', 'student', or 'projector'");
    assert_eq!(InputError::EmptyTitle.status_code(), 400);
}
