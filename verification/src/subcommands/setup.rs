use crate::config::{is_verdict, Config, ConfigView};
use crate::errors::{config_error_text, ConfigError, ConfigErrorView, IoFailure};
use crate::text::{joined, lemma_empty_literal, same_text, trim, trimmed};
use vstd::prelude::*;
use vstd::string::*;

verus! {

/// What stands in the way of a setup.
#[derive(Debug)]
pub enum SetupError {
    /// No server was given.
    MissingServer,
    /// No token was given.
    MissingToken,
    /// No mount path was given.
    MissingPath,
    /// The configuration is not valid.
    Invalid(ConfigError),
    /// The configuration could not be stored.
    NotStored(ConfigError),
}

/// The mathematical value of a `SetupError`.
pub ghost enum SetupErrorView {
    MissingServer,
    MissingToken,
    MissingPath,
    Invalid(ConfigErrorView),
    NotStored(ConfigErrorView),
}

impl View for SetupError {
    type V = SetupErrorView;

    open spec fn view(&self) -> SetupErrorView {
        match self {
            SetupError::MissingServer => SetupErrorView::MissingServer,
            SetupError::MissingToken => SetupErrorView::MissingToken,
            SetupError::MissingPath => SetupErrorView::MissingPath,
            SetupError::Invalid(error) => SetupErrorView::Invalid(error@),
            SetupError::NotStored(error) => SetupErrorView::NotStored(error@),
        }
    }
}

/// What a failed setup reads like.
pub open spec fn setup_error_text(error: SetupErrorView) -> Seq<char> {
    match error {
        SetupErrorView::MissingServer =>
            "Option '--server' is required when running non-interactively"@,
        SetupErrorView::MissingToken =>
            "Option '--token' is required when running non-interactively"@,
        SetupErrorView::MissingPath =>
            "Option '--path' is required when running non-interactively"@,
        SetupErrorView::Invalid(error) => "Invalid configuration: "@ + config_error_text(error),
        SetupErrorView::NotStored(error) => "Error configuring: "@ + config_error_text(error),
    }
}

impl SetupError {
    /// The error in words, for the operator.
    pub fn message(&self) -> (r: String)
        ensures
            r@ == setup_error_text(self@),
    {
        match self {
            SetupError::MissingServer => String::from_str(
                "Option '--server' is required when running non-interactively",
            ),
            SetupError::MissingToken => String::from_str(
                "Option '--token' is required when running non-interactively",
            ),
            SetupError::MissingPath => String::from_str(
                "Option '--path' is required when running non-interactively",
            ),
            SetupError::Invalid(error) => {
                let detail = error.message();
                joined("Invalid configuration: ", detail.as_str())
            },
            SetupError::NotStored(error) => {
                let detail = error.message();
                joined("Error configuring: ", detail.as_str())
            },
        }
    }
}

/// The configuration that a setup makes of its values: no profiles yet.
pub open spec fn configured(
    server: Seq<char>,
    token: Seq<char>,
    path: Seq<char>,
    custom_ca: Seq<char>,
    tls: bool,
) -> ConfigView {
    ConfigView { server, token, path, custom_ca, tls, profiles: Map::empty() }
}

/// The outcome of a setup, given the verdict of validation on the configuration: the
/// configuration where it is valid.
pub fn accepted(config: Config, verdict: Result<(), ConfigError>) -> (r: Result<
    Config,
    SetupError,
>)
    ensures
        match verdict {
            Ok(_) => r == Ok::<Config, SetupError>(config),
            Err(error) => r == Err::<Config, SetupError>(SetupError::Invalid(error)),
        },
{
    match verdict {
        Ok(_) => Ok(config),
        Err(error) => Err(SetupError::Invalid(error)),
    }
}

/// Makes a configuration of values that were given on the command line. The server, the
/// token and the mount path must be given; they are asked for in this order. The
/// configuration is validated; it is still to be stored. `ca_file` is what reading the
/// file of the custom certificate authority gave, where one is set.
pub fn noninteractive(
    server: String,
    tls: bool,
    token: String,
    path: String,
    custom_ca: String,
    ca_file: Option<Result<Vec<u8>, IoFailure>>,
) -> (r: Result<Config, SetupError>)
    ensures
        match r {
            Ok(config) => server@.len() > 0 && token@.len() > 0 && path@.len() > 0 && config@
                == configured(server@, token@, path@, custom_ca@, tls) && is_verdict(
                config@,
                ca_file,
                Ok(()),
            ),
            Err(SetupError::MissingServer) => server@.len() == 0,
            Err(SetupError::MissingToken) => server@.len() > 0 && token@.len() == 0,
            Err(SetupError::MissingPath) => server@.len() > 0 && token@.len() > 0 && path@.len()
                == 0,
            Err(SetupError::Invalid(error)) => server@.len() > 0 && token@.len() > 0
                && path@.len() > 0 && is_verdict(
                configured(server@, token@, path@, custom_ca@, tls),
                ca_file,
                Err(error),
            ),
            Err(SetupError::NotStored(_)) => false,
        },
{
    if server.as_str().is_empty() {
        return Err(SetupError::MissingServer);
    }
    if token.as_str().is_empty() {
        return Err(SetupError::MissingToken);
    }
    if path.as_str().is_empty() {
        return Err(SetupError::MissingPath);
    }
    let config = Config::new(server, token, path, custom_ca, tls);
    let verdict = config.validate(ca_file);
    accepted(config, verdict)
}

/// What the operator is asked, one question after the other.
#[derive(Clone, Copy, Debug, PartialEq, Eq, Structural)]
pub enum Question {
    Server,
    UsingHttps,
    UsingCustomCa,
    CustomCaPath,
    VerifyTls,
    Token,
    Path,
    /// Nothing more: all is answered.
    Done,
}

/// What a question reads like, with the answer that counts where none is given.
pub open spec fn question_text(question: Question) -> Seq<char> {
    match question {
        Question::Server => "What server should vssh connect to? [https://127.0.0.1:8200] "@,
        Question::UsingHttps => "Are you using HTTPS to connect to the server? [Y/n] "@,
        Question::UsingCustomCa => "Are you using a custom certificate authority? [y/N] "@,
        Question::CustomCaPath => "What is the path to your CA's public key? "@,
        Question::VerifyTls =>
            "Do you want to verify TLS certificates when connecting to the server? Answer no if you are using a self-signed certificate. [Y/n] "@,
        Question::Token => "What token to vssh authenticated to the server with? "@,
        Question::Path => "What path is the SSH CA located at on the server? [ssh-ca] "@,
        Question::Done => Seq::empty(),
    }
}

/// What an answer to a yes-or-no question means: `default` where it is neither a yes
/// nor a no.
pub open spec fn yes_or_no(answer: Seq<char>, default: bool) -> bool {
    if answer == "y"@ || answer == "Y"@ || answer == "yes"@ || answer == "Yes"@ {
        true
    } else if answer == "n"@ || answer == "N"@ || answer == "no"@ || answer == "No"@ {
        false
    } else {
        default
    }
}

/// An answer, or `default` where it is empty.
pub open spec fn answer_or(answer: Seq<char>, default: Seq<char>) -> Seq<char> {
    if answer.len() == 0 {
        default
    } else {
        answer
    }
}

/// Reads an answer to a yes-or-no question.
pub fn prompt_bool(answer: &str, default: bool) -> (r: bool)
    ensures
        r == yes_or_no(answer@, default),
{
    if same_text(answer, "y") || same_text(answer, "Y") || same_text(answer, "yes") || same_text(
        answer,
        "Yes",
    ) {
        true
    } else if same_text(answer, "n") || same_text(answer, "N") || same_text(answer, "no")
        || same_text(answer, "No") {
        false
    } else {
        default
    }
}

/// Reads an answer that may be left empty.
pub fn prompt_default(answer: String, default: &str) -> (r: String)
    ensures
        r@ == answer_or(answer@, default@),
{
    if answer.as_str().is_empty() {
        String::from_str(default)
    } else {
        answer
    }
}

/// The interview of a first setup: the question that is open, and what was answered so
/// far.
#[derive(Debug)]
pub struct Interview {
    question: Question,
    server: String,
    custom_ca: String,
    tls: bool,
    token: String,
    path: String,
}

/// The mathematical value of an `Interview`.
pub ghost struct InterviewView {
    pub question: Question,
    pub server: Seq<char>,
    pub custom_ca: Seq<char>,
    pub tls: bool,
    pub token: Seq<char>,
    pub path: Seq<char>,
}

/// The interview before the first answer: no custom certificate authority, and
/// certificates are verified, unless an answer says otherwise.
pub open spec fn interview_start() -> InterviewView {
    InterviewView {
        question: Question::Server,
        server: Seq::empty(),
        custom_ca: Seq::empty(),
        tls: true,
        token: Seq::empty(),
        path: Seq::empty(),
    }
}

/// The interview after an answer to the open question. The answer counts without the
/// white space around it. Who does not use HTTPS is asked neither for a custom
/// certificate authority nor whether certificates are to be verified.
pub open spec fn answered(interview: InterviewView, line: Seq<char>) -> InterviewView {
    let answer = trimmed(line);
    match interview.question {
        Question::Server => InterviewView {
            question: Question::UsingHttps,
            server: answer_or(answer, "https://127.0.0.1:8200"@),
            ..interview
        },
        Question::UsingHttps => if yes_or_no(answer, true) {
            InterviewView { question: Question::UsingCustomCa, ..interview }
        } else {
            InterviewView {
                question: Question::Token,
                custom_ca: Seq::empty(),
                tls: true,
                ..interview
            }
        },
        Question::UsingCustomCa => if yes_or_no(answer, false) {
            InterviewView { question: Question::CustomCaPath, ..interview }
        } else {
            InterviewView { question: Question::VerifyTls, custom_ca: Seq::empty(), ..interview }
        },
        Question::CustomCaPath => InterviewView {
            question: Question::VerifyTls,
            custom_ca: answer,
            ..interview
        },
        Question::VerifyTls => InterviewView {
            question: Question::Token,
            tls: yes_or_no(answer, true),
            ..interview
        },
        Question::Token => InterviewView { question: Question::Path, token: answer, ..interview },
        Question::Path => InterviewView {
            question: Question::Done,
            path: answer_or(answer, "ssh-ca"@),
            ..interview
        },
        Question::Done => interview,
    }
}

/// The configuration that the answers of an interview make.
pub open spec fn interview_config(interview: InterviewView) -> ConfigView {
    configured(
        interview.server,
        interview.token,
        interview.path,
        interview.custom_ca,
        interview.tls,
    )
}

/// The interview after some answers, one after the other.
pub open spec fn answered_all(interview: InterviewView, lines: Seq<Seq<char>>) -> InterviewView
    decreases lines.len(),
{
    if lines.len() == 0 {
        interview
    } else {
        answered(answered_all(interview, lines.drop_last()), lines.last())
    }
}

/// How far an interview is from its end: the questions that may still be asked.
pub open spec fn questions_left(question: Question) -> nat {
    match question {
        Question::Server => 7,
        Question::UsingHttps => 6,
        Question::UsingCustomCa => 5,
        Question::CustomCaPath => 4,
        Question::VerifyTls => 3,
        Question::Token => 2,
        Question::Path => 1,
        Question::Done => 0,
    }
}

/// Every answer brings an interview nearer to its end, so that no interview takes more
/// than seven answers.
pub proof fn lemma_interview_ends(interview: InterviewView, line: Seq<char>)
    requires
        interview.question != Question::Done,
    ensures
        questions_left(answered(interview, line).question) < questions_left(interview.question),
{
}

impl View for Interview {
    type V = InterviewView;

    closed spec fn view(&self) -> InterviewView {
        InterviewView {
            question: self.question,
            server: self.server@,
            custom_ca: self.custom_ca@,
            tls: self.tls,
            token: self.token@,
            path: self.path@,
        }
    }
}

impl Question {
    /// The question in words, as it is shown.
    pub fn text(self) -> (r: &'static str)
        ensures
            r@ == question_text(self),
    {
        proof {
            lemma_empty_literal();
        }
        match self {
            Question::Server => "What server should vssh connect to? [https://127.0.0.1:8200] ",
            Question::UsingHttps => "Are you using HTTPS to connect to the server? [Y/n] ",
            Question::UsingCustomCa => "Are you using a custom certificate authority? [y/N] ",
            Question::CustomCaPath => "What is the path to your CA's public key? ",
            Question::VerifyTls =>
                "Do you want to verify TLS certificates when connecting to the server? Answer no if you are using a self-signed certificate. [Y/n] ",
            Question::Token => "What token to vssh authenticated to the server with? ",
            Question::Path => "What path is the SSH CA located at on the server? [ssh-ca] ",
            Question::Done => "",
        }
    }
}

impl Interview {
    /// The question that is open.
    pub fn question(&self) -> (r: Question)
        ensures
            r == self@.question,
    {
        self.question
    }

    /// Takes the line that was typed in answer to the open question.
    pub fn answer(&mut self, line: &str)
        ensures
            final(self)@ == answered(old(self)@, line@),
    {
        let answer = trim(line);
        match self.question {
            Question::Server => {
                self.server = prompt_default(answer, "https://127.0.0.1:8200");
                self.question = Question::UsingHttps;
            },
            Question::UsingHttps => {
                if prompt_bool(answer.as_str(), true) {
                    self.question = Question::UsingCustomCa;
                } else {
                    self.custom_ca = String::new();
                    self.tls = true;
                    self.question = Question::Token;
                }
            },
            Question::UsingCustomCa => {
                if prompt_bool(answer.as_str(), false) {
                    self.question = Question::CustomCaPath;
                } else {
                    self.custom_ca = String::new();
                    self.question = Question::VerifyTls;
                }
            },
            Question::CustomCaPath => {
                self.custom_ca = answer;
                self.question = Question::VerifyTls;
            },
            Question::VerifyTls => {
                self.tls = prompt_bool(answer.as_str(), true);
                self.question = Question::Token;
            },
            Question::Token => {
                self.token = answer;
                self.question = Question::Path;
            },
            Question::Path => {
                self.path = prompt_default(answer, "ssh-ca");
                self.question = Question::Done;
            },
            Question::Done => {},
        }
    }

    /// The configuration that the answers make, once all is answered. It is still to be
    /// validated and stored.
    pub fn config(&self) -> (r: Option<Config>)
        ensures
            match r {
                Some(config) => self@.question == Question::Done && config@ == interview_config(
                    self@,
                ),
                None => self@.question != Question::Done,
            },
    {
        match self.question {
            Question::Done => Some(
                Config::new(
                    self.server.clone(),
                    self.token.clone(),
                    self.path.clone(),
                    self.custom_ca.clone(),
                    self.tls,
                ),
            ),
            _ => None,
        }
    }
}

/// Begins the interview of a first setup. The caller shows the open question, hands
/// the line that was typed to `answer`, and goes on until the question is `Done`.
pub fn interactive() -> (r: Interview)
    ensures
        r@ == interview_start(),
{
    Interview {
        question: Question::Server,
        server: String::new(),
        custom_ca: String::new(),
        tls: true,
        token: String::new(),
        path: String::new(),
    }
}

} // verus!
