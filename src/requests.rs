//! The bodies that clients send, and the checks each must pass before
//! anything is stored.

use vstd::prelude::*;
use crate::text::{
    TextProblem, cleaned, clean_text, utf8_len, alphanumeric_char, is_alphanumeric, trim_of,
    trim_str, has_char, contains_char,
};

verus! {

pub const MAX_QUESTION_BYTES: usize = 1000;
pub const MAX_NAME_BYTES: usize = 100;
pub const MAX_OPTION_IDS: usize = 10;
pub const MAX_OPTION_ID_BYTES: usize = 36;
pub const MAX_EMAIL_BYTES: usize = 255;
pub const MIN_PASSWORD_BYTES: usize = 8;
pub const MAX_PASSWORD_BYTES: usize = 128;
pub const MAX_TITLE_BYTES: usize = 200;

/// Why a request was refused.
#[derive(Clone, Copy, Debug, PartialEq, Eq, Structural)]
pub enum InputError {
    EmptyQuestion,
    QuestionTooLong,
    QuestionsDisabled,
    EmptyName,
    NameTooLong,
    NoOptionSelected,
    TooManyOptions,
    InvalidOptionId,
    AlreadyUpvoted,
    EmailTooLong,
    PasswordTooShort,
    PasswordTooLong,
    InvalidEmail,
    EmptyTitle,
    TitleTooLong,
    InvalidRole,
}

pub open spec fn input_error_message(e: InputError) -> Seq<char> {
    match e {
        InputError::EmptyQuestion => "Question cannot be empty"@,
        InputError::QuestionTooLong => "Question too long (max 1000 characters)"@,
        InputError::QuestionsDisabled => "Questions are not enabled for this session"@,
        InputError::EmptyName => "Name cannot be empty"@,
        InputError::NameTooLong => "Name too long (max 100 characters)"@,
        InputError::NoOptionSelected => "No option selected"@,
        InputError::TooManyOptions => "Too many options selected"@,
        InputError::InvalidOptionId => "Invalid option ID format"@,
        InputError::AlreadyUpvoted => "You have already upvoted this question"@,
        InputError::EmailTooLong => "Email too long"@,
        InputError::PasswordTooShort => "Password must be at least 8 characters"@,
        InputError::PasswordTooLong => "Password too long"@,
        InputError::InvalidEmail => "Invalid email format"@,
        InputError::EmptyTitle => "Title cannot be empty"@,
        InputError::TitleTooLong => "Title too long (max 200 characters)"@,
        InputError::InvalidRole => "Invalid role. Must be 'staff', 'student', or 'projector'"@,
    }
}

/// The HTTP status of a refused request: bad request.
pub const BAD_REQUEST: u16 = 400;

impl InputError {
    /// The HTTP status for this error.
    pub fn status_code(&self) -> (r: u16)
        ensures
            r == BAD_REQUEST,
    {
        BAD_REQUEST
    }

    /// The message shown to the client.
    pub fn message(&self) -> (r: String)
        ensures
            r@ == input_error_message(*self),
    {
        let text: &str = match self {
            InputError::EmptyQuestion => "Question cannot be empty",
            InputError::QuestionTooLong => "Question too long (max 1000 characters)",
            InputError::QuestionsDisabled => "Questions are not enabled for this session",
            InputError::EmptyName => "Name cannot be empty",
            InputError::NameTooLong => "Name too long (max 100 characters)",
            InputError::NoOptionSelected => "No option selected",
            InputError::TooManyOptions => "Too many options selected",
            InputError::InvalidOptionId => "Invalid option ID format",
            InputError::AlreadyUpvoted => "You have already upvoted this question",
            InputError::EmailTooLong => "Email too long",
            InputError::PasswordTooShort => "Password must be at least 8 characters",
            InputError::PasswordTooLong => "Password too long",
            InputError::InvalidEmail => "Invalid email format",
            InputError::EmptyTitle => "Title cannot be empty",
            InputError::TitleTooLong => "Title too long (max 200 characters)",
            InputError::InvalidRole => "Invalid role. Must be 'staff', 'student', or 'projector'",
        };
        proof {
            reveal_strlit("Question cannot be empty");
            reveal_strlit("Question too long (max 1000 characters)");
            reveal_strlit("Questions are not enabled for this session");
            reveal_strlit("Name cannot be empty");
            reveal_strlit("Name too long (max 100 characters)");
            reveal_strlit("No option selected");
            reveal_strlit("Too many options selected");
            reveal_strlit("Invalid option ID format");
            reveal_strlit("You have already upvoted this question");
            reveal_strlit("Email too long");
            reveal_strlit("Password must be at least 8 characters");
            reveal_strlit("Password too long");
            reveal_strlit("Invalid email format");
            reveal_strlit("Title cannot be empty");
            reveal_strlit("Title too long (max 200 characters)");
            reveal_strlit("Invalid role. Must be 'staff', 'student', or 'projector'");
        }
        String::from_str(text)
    }
}

/// The outcome of checking free text against a limit, with the two errors
/// that a refusal maps to.
pub open spec fn checked_text(
    raw: Seq<char>,
    max_bytes: nat,
    empty: InputError,
    too_long: InputError,
) -> Result<Seq<char>, InputError> {
    match cleaned(raw, max_bytes) {
        Ok(t) => Ok(t),
        Err(TextProblem::Empty) => Err(empty),
        Err(TextProblem::TooLong) => Err(too_long),
    }
}

fn check_text(raw: &str, max_bytes: usize, empty: InputError, too_long: InputError) -> (r: Result<
    String,
    InputError,
>)
    ensures
        match checked_text(raw@, max_bytes as nat, empty, too_long) {
            Ok(t) => r matches Ok(s) && s@ == t,
            Err(e) => r == Err::<String, InputError>(e),
        },
{
    match clean_text(raw, max_bytes) {
        Ok(s) => Ok(s),
        Err(TextProblem::Empty) => Err(empty),
        Err(TextProblem::TooLong) => Err(too_long),
    }
}

/// A question from the audience.
pub struct SubmitQuestionRequest {
    pub content: String,
    pub participant_id: String,
    pub slide_id: Option<String>,
}

impl SubmitQuestionRequest {
    /// The question as it is stored: trimmed, at most 1000 bytes, not
    /// empty, with its angle brackets escaped.
    pub fn sanitized_content(&self) -> (r: Result<String, InputError>)
        ensures
            match checked_text(
                self.content@,
                MAX_QUESTION_BYTES as nat,
                InputError::EmptyQuestion,
                InputError::QuestionTooLong,
            ) {
                Ok(t) => r matches Ok(s) && s@ == t,
                Err(e) => r == Err::<String, InputError>(e),
            },
    {
        check_text(
            self.content.as_str(),
            MAX_QUESTION_BYTES,
            InputError::EmptyQuestion,
            InputError::QuestionTooLong,
        )
    }
}

/// Questions may be asked unless the session explicitly disallows them; a
/// setting that is missing or unreadable allows them.
pub fn check_questions_allowed(setting: Option<bool>) -> (r: Result<(), InputError>)
    ensures
        r == (if setting == Some(false) {
            Err(InputError::QuestionsDisabled)
        } else {
            Ok(())
        }),
{
    match setting {
        Some(false) => Err(InputError::QuestionsDisabled),
        _ => Ok(()),
    }
}

/// A participant joining a session under a display name.
pub struct RegisterParticipantRequest {
    pub participant_id: String,
    pub name: String,
}

impl RegisterParticipantRequest {
    /// The name as it is stored: trimmed, at most 100 bytes, not empty,
    /// with its angle brackets escaped.
    pub fn sanitized_name(&self) -> (r: Result<String, InputError>)
        ensures
            match checked_text(
                self.name@,
                MAX_NAME_BYTES as nat,
                InputError::EmptyName,
                InputError::NameTooLong,
            ) {
                Ok(t) => r matches Ok(s) && s@ == t,
                Err(e) => r == Err::<String, InputError>(e),
            },
    {
        check_text(self.name.as_str(), MAX_NAME_BYTES, InputError::EmptyName, InputError::NameTooLong)
    }
}

/// An option id is at most 36 bytes of letters, digits and dashes.
pub open spec fn valid_option_id(s: Seq<char>) -> bool {
    &&& utf8_len(s) <= MAX_OPTION_ID_BYTES
    &&& forall|i: int| 0 <= i < s.len() ==> alphanumeric_char(#[trigger] s[i]) || s[i] == '-'
}

/// Whether `id` is a well-formed option id.
pub fn is_valid_option_id(id: &str) -> (r: bool)
    ensures
        r == valid_option_id(id@),
{
    if id.as_bytes().len() > MAX_OPTION_ID_BYTES {
        return false;
    }
    let n = id.unicode_len();
    let mut i: usize = 0;
    while i < n
        invariant
            n == id@.len(),
            i <= n,
            forall|k: int| 0 <= k < i ==> alphanumeric_char(#[trigger] id@[k]) || id@[k] == '-',
        decreases n - i,
    {
        let c = id.get_char(i);
        if !is_alphanumeric(c) && c != '-' {
            return false;
        }
        i = i + 1;
    }
    true
}

/// A vote on a poll slide: one option, or several.
pub struct SubmitVoteRequest {
    pub slide_id: String,
    pub option_id: Option<String>,
    pub option_ids: Option<Vec<String>>,
    pub participant_id: String,
}

/// The options a vote names: the list when there is one, else the single option.
pub open spec fn chosen_options(option_id: Option<String>, option_ids: Option<Vec<String>>) -> Option<Seq<String>> {
    match option_ids {
        Some(ids) => Some(ids@),
        None => match option_id {
            Some(id) => Some(seq![id]),
            None => None,
        },
    }
}

/// The outcome of checking the options of a vote.
pub open spec fn checked_options(chosen: Option<Seq<String>>) -> Result<Seq<String>, InputError> {
    match chosen {
        None => Err(InputError::NoOptionSelected),
        Some(ids) => if ids.len() == 0 {
            Err(InputError::NoOptionSelected)
        } else if ids.len() > MAX_OPTION_IDS {
            Err(InputError::TooManyOptions)
        } else if exists|i: int| 0 <= i < ids.len() && !valid_option_id(#[trigger] ids[i]@) {
            Err(InputError::InvalidOptionId)
        } else {
            Ok(ids)
        },
    }
}

impl SubmitVoteRequest {
    /// The options voted for: at least one and at most ten, each a
    /// well-formed option id.
    pub fn into_options(self) -> (r: Result<Vec<String>, InputError>)
        ensures
            match checked_options(chosen_options(self.option_id, self.option_ids)) {
                Ok(ids) => r matches Ok(v) && v@ == ids,
                Err(e) => r == Err::<Vec<String>, InputError>(e),
            },
    {
        let ghost chosen = chosen_options(self.option_id, self.option_ids);
        let ids: Vec<String> = match self.option_ids {
            Some(ids) => ids,
            None => match self.option_id {
                Some(id) => vec![id],
                None => return Err(InputError::NoOptionSelected),
            },
        };
        assert(chosen == Some(ids@));
        if ids.len() == 0 {
            return Err(InputError::NoOptionSelected);
        }
        if ids.len() > MAX_OPTION_IDS {
            return Err(InputError::TooManyOptions);
        }
        let mut i: usize = 0;
        while i < ids.len()
            invariant
                chosen == chosen_options(self.option_id, self.option_ids),
                chosen == Some(ids@),
                0 < ids@.len() <= MAX_OPTION_IDS,
                i <= ids@.len(),
                forall|k: int| 0 <= k < i ==> valid_option_id(#[trigger] ids@[k]@),
            decreases ids@.len() - i,
        {
            if !is_valid_option_id(ids[i].as_str()) {
                assert(!valid_option_id(ids@[i as int]@));
                return Err(InputError::InvalidOptionId);
            }
            i = i + 1;
        }
        Ok(ids)
    }
}

/// An upvote of a question, optionally naming who casts it.
pub struct UpvoteQuestionRequest {
    pub participant_id: Option<String>,
}

pub open spec fn anonymous_voter() -> Seq<char> {
    "anonymous"@
}

impl UpvoteQuestionRequest {
    /// Who casts the upvote: the named participant, else `anonymous`.
    pub fn voter_id(&self) -> (r: String)
        ensures
            match self.participant_id {
                Some(p) => r == p,
                None => r@ == anonymous_voter(),
            },
    {
        match &self.participant_id {
            Some(p) => p.clone(),
            None => {
                proof {
                    reveal_strlit("anonymous");
                }
                String::from_str("anonymous")
            },
        }
    }
}

/// A participant may upvote a question once.
pub fn check_first_upvote(already_upvoted: Option<bool>) -> (r: Result<(), InputError>)
    ensures
        r == (if already_upvoted == Some(true) {
            Err(InputError::AlreadyUpvoted)
        } else {
            Ok(())
        }),
{
    match already_upvoted {
        Some(true) => Err(InputError::AlreadyUpvoted),
        _ => Ok(()),
    }
}

/// A new account.
pub struct RegisterRequest {
    pub email: String,
    pub password: String,
    pub name: String,
    pub role: Option<String>,
}

/// The outcome of checking a registration, in the order the checks run.
pub open spec fn checked_registration(
    email: Seq<char>,
    password: Seq<char>,
    name: Seq<char>,
) -> Result<(), InputError> {
    if utf8_len(email) > MAX_EMAIL_BYTES {
        Err(InputError::EmailTooLong)
    } else if utf8_len(password) < MIN_PASSWORD_BYTES {
        Err(InputError::PasswordTooShort)
    } else if utf8_len(password) > MAX_PASSWORD_BYTES {
        Err(InputError::PasswordTooLong)
    } else if utf8_len(name) > MAX_NAME_BYTES {
        Err(InputError::NameTooLong)
    } else if trim_of(name).len() == 0 {
        Err(InputError::EmptyName)
    } else if !has_char(email, '@') || !has_char(email, '.') {
        Err(InputError::InvalidEmail)
    } else {
        Ok(())
    }
}

pub open spec fn default_role() -> Seq<char> {
    "student"@
}

impl RegisterRequest {
    /// Checks the lengths of the email, password and name, that the name
    /// is not blank, and that the email holds an `@` and a `.`.
    pub fn validate(&self) -> (r: Result<(), InputError>)
        ensures
            r == checked_registration(self.email@, self.password@, self.name@),
    {
        if self.email.as_str().as_bytes().len() > MAX_EMAIL_BYTES {
            return Err(InputError::EmailTooLong);
        }
        let password_bytes = self.password.as_str().as_bytes().len();
        if password_bytes < MIN_PASSWORD_BYTES {
            return Err(InputError::PasswordTooShort);
        }
        if password_bytes > MAX_PASSWORD_BYTES {
            return Err(InputError::PasswordTooLong);
        }
        if self.name.as_str().as_bytes().len() > MAX_NAME_BYTES {
            return Err(InputError::NameTooLong);
        }
        if trim_str(self.name.as_str()).is_empty() {
            return Err(InputError::EmptyName);
        }
        let email = self.email.as_str();
        if !contains_char(email, '@') || !contains_char(email, '.') {
            return Err(InputError::InvalidEmail);
        }
        Ok(())
    }

    /// The role of the new account: the one asked for, else `student`.
    pub fn role_or_default(&self) -> (r: String)
        ensures
            match self.role {
                Some(role) => r == role,
                None => r@ == default_role(),
            },
    {
        match &self.role {
            Some(role) => role.clone(),
            None => {
                proof {
                    reveal_strlit("student");
                }
                String::from_str("student")
            },
        }
    }
}

/// The outcome of checking a session title: the trimmed title, not empty
/// and at most 200 bytes.
pub open spec fn checked_title(title: Seq<char>) -> Result<Seq<char>, InputError> {
    let t = trim_of(title);
    if t.len() == 0 {
        Err(InputError::EmptyTitle)
    } else if utf8_len(t) > MAX_TITLE_BYTES {
        Err(InputError::TitleTooLong)
    } else {
        Ok(t)
    }
}

/// Trims a session title and checks it.
pub fn validate_title(title: &str) -> (r: Result<String, InputError>)
    ensures
        match checked_title(title@) {
            Ok(t) => r matches Ok(s) && s@ == t,
            Err(e) => r == Err::<String, InputError>(e),
        },
{
    let t = trim_str(title);
    if t.is_empty() {
        Err(InputError::EmptyTitle)
    } else if t.as_bytes().len() > MAX_TITLE_BYTES {
        Err(InputError::TitleTooLong)
    } else {
        Ok(t.to_owned())
    }
}

/// A session as it is first stored.
pub struct NewSession {
    pub id: String,
    pub creator_id: String,
    pub title: String,
    pub share_token: String,
    pub allow_questions: bool,
    pub require_name: bool,
}

/// The changes asked for a stored session; `None` leaves a column as it is.
pub struct SessionUpdates {
    pub title: Option<String>,
    pub status: Option<String>,
    pub allow_questions: Option<bool>,
    pub require_name: Option<bool>,
}

/// A request to create a session.
pub struct CreateSessionRequest {
    pub title: String,
    pub allow_questions: Option<bool>,
    pub require_name: Option<bool>,
}

impl CreateSessionRequest {
    /// The session to store, under the given id, creator and share token:
    /// the title trimmed and checked, and both switches off unless asked for.
    pub fn into_new_session(self, id: String, creator_id: String, share_token: String) -> (r: Result<
        NewSession,
        InputError,
    >)
        ensures
            match checked_title(self.title@) {
                Ok(t) => r matches Ok(s) && s.title@ == t && s.id == id && s.creator_id
                    == creator_id && s.share_token == share_token && s.allow_questions == (
                self.allow_questions == Some(true)) && s.require_name == (self.require_name == Some(
                    true,
                )),
                Err(e) => r == Err::<NewSession, InputError>(e),
            },
    {
        let title = match validate_title(self.title.as_str()) {
            Ok(t) => t,
            Err(e) => return Err(e),
        };
        let allow_questions = match self.allow_questions {
            Some(b) => b,
            None => false,
        };
        let require_name = match self.require_name {
            Some(b) => b,
            None => false,
        };
        Ok(NewSession { id, creator_id, title, share_token, allow_questions, require_name })
    }
}

/// A request to change a session.
pub struct UpdateSessionRequest {
    pub title: Option<String>,
    pub allow_questions: Option<bool>,
    pub require_name: Option<bool>,
}

impl UpdateSessionRequest {
    /// The changes to store. A new title must pass the title check once
    /// trimmed; it is stored as it was sent. The status is left as it is.
    pub fn into_updates(self) -> (r: Result<SessionUpdates, InputError>)
        ensures
            match self.title {
                Some(t) if checked_title(t@) is Err => r == Err::<SessionUpdates, InputError>(
                    checked_title(t@)->Err_0,
                ),
                _ => r matches Ok(u) && u.title == self.title && u.status is None
                    && u.allow_questions == self.allow_questions && u.require_name
                    == self.require_name,
            },
    {
        match &self.title {
            Some(t) => match validate_title(t.as_str()) {
                Ok(_) => {},
                Err(e) => return Err(e),
            },
            None => {},
        }
        Ok(
            SessionUpdates {
                title: self.title,
                status: None,
                allow_questions: self.allow_questions,
                require_name: self.require_name,
            },
        )
    }
}

/// The parameters of a request for a real-time token.
pub struct AblyTokenQuery {
    pub session_id: String,
    pub role: String,
    pub participant_id: Option<String>,
}

/// What a client may do on its session's channel, by role: staff publish
/// as well; students and projectors only listen and show presence.
pub open spec fn role_operations(role: Seq<char>) -> Option<Seq<Seq<char>>> {
    if role == "staff"@ {
        Some(seq!["publish"@, "subscribe"@, "presence"@])
    } else if role == "student"@ || role == "projector"@ {
        Some(seq!["subscribe"@, "presence"@])
    } else {
        None
    }
}

fn literal(s: &str) -> (r: String)
    ensures
        r@ == s@,
{
    s.to_owned()
}

fn equals_literal(s: &String, lit: &str) -> (r: bool)
    ensures
        r == (s@ == lit@),
{
    let other = literal(lit);
    *s == other
}

impl AblyTokenQuery {
    /// The channel the token is for: `session:` followed by the session id.
    pub fn channel_name(&self) -> (r: String)
        ensures
            r@ == "session:"@ + self.session_id@,
    {
        let mut name = literal("session:");
        name.append(self.session_id.as_str());
        name
    }

    /// The operations granted on the channel, or an error for an unknown role.
    pub fn operations(&self) -> (r: Result<Vec<String>, InputError>)
        ensures
            match role_operations(self.role@) {
                Some(ops) => r matches Ok(v) && v@.len() == ops.len() && forall|i: int|
                    0 <= i < ops.len() ==> #[trigger] v@[i]@ == ops[i],
                None => r == Err::<Vec<String>, InputError>(InputError::InvalidRole),
            },
    {
        proof {
            reveal_strlit("staff");
            reveal_strlit("student");
            reveal_strlit("projector");
        }
        if equals_literal(&self.role, "staff") {
            let v = vec![literal("publish"), literal("subscribe"), literal("presence")];
            Ok(v)
        } else if equals_literal(&self.role, "student") || equals_literal(&self.role, "projector") {
            let v = vec![literal("subscribe"), literal("presence")];
            Ok(v)
        } else {
            Err(InputError::InvalidRole)
        }
    }

    /// Who the client is on the channel: the participant, else the role and
    /// the session id joined by a dash.
    pub fn client_id(&self) -> (r: String)
        ensures
            match self.participant_id {
                Some(p) => r == p,
                None => r@ == self.role@ + "-"@ + self.session_id@,
            },
    {
        match &self.participant_id {
            Some(p) => p.clone(),
            None => {
                let mut id = self.role.clone();
                id.append("-");
                id.append(self.session_id.as_str());
                id
            },
        }
    }
}

} // verus!
