//! Environment variables, handed over as pairs of name and value.

use crate::text::{is_blank, is_blank_text, same_text};
use vstd::prelude::*;

verus! {

/// The names and values of a list of environment variables, as texts.
pub open spec fn env_texts(env: Seq<(String, String)>) -> Seq<(Seq<char>, Seq<char>)> {
    Seq::new(env.len(), |i: int| (env[i].0@, env[i].1@))
}

/// The value of the variable `name`: that of the first pair of `env` with
/// this name, or `None` where no pair has it.
pub open spec fn variable(env: Seq<(Seq<char>, Seq<char>)>, name: Seq<char>) -> Option<Seq<char>>
    decreases env.len(),
{
    if env.len() == 0 {
        None
    } else if env[0].0 == name {
        Some(env[0].1)
    } else {
        variable(env.drop_first(), name)
    }
}

/// Why a variable has no value that can be used.
#[derive(Debug, PartialEq, Eq, Structural, Clone, Copy)]
pub enum Unusable {
    /// The variable is not set.
    NotSet,
    /// The variable is set, to nothing but whitespace.
    Blank,
}

/// The value of the variable `name`, where it is set and not blank.
pub open spec fn usable_variable(env: Seq<(Seq<char>, Seq<char>)>, name: Seq<char>) -> Result<
    Seq<char>,
    Unusable,
> {
    match variable(env, name) {
        None => Err(Unusable::NotSet),
        Some(value) => if is_blank_text(value) {
            Err(Unusable::Blank)
        } else {
            Ok(value)
        },
    }
}

/// The value of an optional variable: `None` where it is not set or blank.
pub open spec fn optional_variable(env: Seq<(Seq<char>, Seq<char>)>, name: Seq<char>) -> Option<
    Seq<char>,
> {
    match usable_variable(env, name) {
        Ok(value) => Some(value),
        Err(_) => None,
    }
}

/// The text of a string that may be absent.
pub open spec fn option_text(value: Option<String>) -> Option<Seq<char>> {
    match value {
        Some(text) => Some(text@),
        None => None,
    }
}

impl Unusable {
    /// The cause in words.
    pub open spec fn message_text(self) -> Seq<char> {
        match self {
            Unusable::NotSet => "environment variable not found"@,
            Unusable::Blank => "String was blank"@,
        }
    }

    /// The cause in words.
    pub fn message(&self) -> (text: String)
        ensures
            text@ == self.message_text(),
    {
        match self {
            Unusable::NotSet => String::from_str("environment variable not found"),
            Unusable::Blank => String::from_str("String was blank"),
        }
    }
}

/// Looks `name` up in `env`.
pub fn lookup<'a>(env: &'a [(String, String)], name: &str) -> (value: Option<&'a str>)
    ensures
        value is Some == variable(env_texts(env@), name@) is Some,
        value matches Some(text) ==> variable(env_texts(env@), name@) == Some(text@),
{
    let ghost texts = env_texts(env@);
    let mut i: usize = 0;
    assert(texts.skip(0) =~= texts);
    while i < env.len()
        invariant
            i <= env.len(),
            texts == env_texts(env@),
            variable(texts.skip(i as int), name@) == variable(texts, name@),
        decreases env.len() - i,
    {
        assert(texts.skip(i as int).drop_first() =~= texts.skip(i + 1));
        if same_text(env[i].0.as_str(), name) {
            return Some(env[i].1.as_str());
        }
        i = i + 1;
    }
    None
}

/// Takes a value that is there and not blank, and says why where it cannot.
pub fn require_non_blank(value: Option<&str>) -> (required: Result<String, Unusable>)
    ensures
        match value {
            None => required == Err::<String, Unusable>(Unusable::NotSet),
            Some(text) => if is_blank_text(text@) {
                required == Err::<String, Unusable>(Unusable::Blank)
            } else {
                required matches Ok(taken) && taken@ == text@
            },
        },
{
    match value {
        None => Err(Unusable::NotSet),
        Some(text) => {
            if is_blank(text) {
                Err(Unusable::Blank)
            } else {
                Ok(text.to_owned())
            }
        },
    }
}

/// The value of the variable `name`, where it is set and not blank.
pub fn get_usable_env_var(env: &[(String, String)], name: &str) -> (value: Result<String, Unusable>)
    ensures
        match usable_variable(env_texts(env@), name@) {
            Ok(text) => value matches Ok(taken) && taken@ == text,
            Err(cause) => value == Err::<String, Unusable>(cause),
        },
{
    require_non_blank(lookup(env, name))
}

/// The value of an optional variable: `None` where it is not set or blank.
pub fn get_optional_env_var(env: &[(String, String)], name: &str) -> (value: Option<String>)
    ensures
        option_text(value) == optional_variable(env_texts(env@), name@),
{
    match get_usable_env_var(env, name) {
        Ok(text) => Some(text),
        Err(_) => None,
    }
}

/// Why the environment gives no input for the action, over texts.
pub enum InputFailure {
    MissingVariable { name: Seq<char>, cause: Unusable },
    MalformedRef { tag_ref: Seq<char> },
    MalformedRepository { repo: Seq<char> },
}

impl InputFailure {
    /// The failure in words.
    pub open spec fn message(self) -> Seq<char> {
        match self {
            InputFailure::MissingVariable { name, cause } => {
                "Expected '"@ + name + "' environment variable to be set"@
            },
            InputFailure::MalformedRef { tag_ref } => {
                "Expected 'GITHUB_REF' environment variable to be on the format 'refs/tags/<tag_name>', but got '"@
                    + tag_ref + "'"@
            },
            InputFailure::MalformedRepository { repo } => {
                "Expected 'GITHUB_REPOSITORY' environment variable to be on the format 'repo_owner/repo_name', but got '"@
                    + repo + "'"@
            },
        }
    }
}

/// Why the environment gives no input for the action.
#[derive(Debug, PartialEq, Eq)]
pub enum InputError {
    /// A variable that is needed is not set, or blank.
    MissingVariable { name: String, cause: Unusable },
    /// `GITHUB_REF` does not name a tag.
    MalformedRef { tag_ref: String },
    /// `GITHUB_REPOSITORY` does not name an owner and a repository.
    MalformedRepository { repo: String },
}

impl View for InputError {
    type V = InputFailure;

    open spec fn view(&self) -> InputFailure {
        match self {
            InputError::MissingVariable { name, cause } => InputFailure::MissingVariable {
                name: name@,
                cause: *cause,
            },
            InputError::MalformedRef { tag_ref } => InputFailure::MalformedRef {
                tag_ref: tag_ref@,
            },
            InputError::MalformedRepository { repo } => InputFailure::MalformedRepository {
                repo: repo@,
            },
        }
    }
}

impl InputError {
    /// The error in words, for the one who ran the release.
    pub fn message(&self) -> (text: String)
        ensures
            text@ == self@.message(),
    {
        match self {
            InputError::MissingVariable { name, cause } => {
                let mut text = String::from_str("Expected '");
                text.append(name.as_str());
                text.append("' environment variable to be set");
                text
            },
            InputError::MalformedRef { tag_ref } => {
                let mut text = String::from_str(
                    "Expected 'GITHUB_REF' environment variable to be on the format 'refs/tags/<tag_name>', but got '",
                );
                text.append(tag_ref.as_str());
                text.append("'");
                text
            },
            InputError::MalformedRepository { repo } => {
                let mut text = String::from_str(
                    "Expected 'GITHUB_REPOSITORY' environment variable to be on the format 'repo_owner/repo_name', but got '",
                );
                text.append(repo.as_str());
                text.append("'");
                text
            },
        }
    }
}

/// The value of a variable that the action cannot do without.
pub open spec fn required_variable(env: Seq<(Seq<char>, Seq<char>)>, name: Seq<char>) -> Result<
    Seq<char>,
    InputFailure,
> {
    match usable_variable(env, name) {
        Ok(value) => Ok(value),
        Err(cause) => Err(InputFailure::MissingVariable { name, cause }),
    }
}

/// The value of a variable that the action cannot do without.
pub fn get_required_env_var(env: &[(String, String)], name: &str) -> (value: Result<
    String,
    InputError,
>)
    ensures
        match required_variable(env_texts(env@), name@) {
            Ok(text) => value matches Ok(taken) && taken@ == text,
            Err(failure) => value matches Err(error) && error@ == failure,
        },
{
    match get_usable_env_var(env, name) {
        Ok(text) => Ok(text),
        Err(cause) => Err(InputError::MissingVariable { name: name.to_owned(), cause }),
    }
}

} // verus!
