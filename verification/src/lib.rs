//! Publishes the changelog entry of a version as a release on GitHub.
//!
//! The heart of the library is [`changelog_parsing`]: it finds the entry of
//! one version in a changelog that is kept in the "Keep a Changelog" style,
//! and says which lines belong to it. Around it stand the reading of the
//! action's input from environment variables ([`ActionInput::from_env`]),
//! the check of the tag ([`validate_tag_name`]) and the request to GitHub
//! ([`github_release`]).
//!
//! The library reads no file and opens no connection. It is driven from
//! outside, through [`create_github_release_for_changelog_entry`], which
//! says at each step what is to be read or sent.

use crate::changelog_parsing::{
    changelog_entry, get_changelog_entry, strip_v_prefix, without_v_prefix, ChangelogError,
    EntryFailure,
};
use crate::environment::{
    env_texts, get_optional_env_var, get_required_env_var, option_text, optional_variable,
    required_variable, InputError, InputFailure,
};
use crate::github_release::{
    release_outcome, release_request, GitHubApiClient, GitHubError, GitHubFailure,
    ReleaseRequest, ReleaseResponse, RequestText, ResponseText,
};
use crate::pattern::{regex_is_match, regex_search};
use crate::text::{
    is_first_occurrence, is_prefix, line_texts, split_once, strip_prefix,
};
use vstd::prelude::*;

pub mod changelog_parsing;
pub mod environment;
pub mod github_release;
pub mod pattern;
pub mod text;

verus! {

/// A release that was created, over texts.
pub struct ReleaseText {
    pub name: Seq<char>,
    pub url: Seq<char>,
}

/// A release that was created on GitHub: its title and the address of its page.
#[derive(Debug, PartialEq, Eq)]
pub struct CreatedRelease {
    pub name: String,
    pub url: String,
}

impl View for CreatedRelease {
    type V = ReleaseText;

    open spec fn view(&self) -> ReleaseText {
        ReleaseText { name: self.name@, url: self.url@ }
    }
}

/// The input of the action, over texts.
pub struct InputText {
    pub tag_name: Seq<char>,
    pub release_name: Option<Seq<char>>,
    pub changelog_file_path: Option<Seq<char>>,
    pub repo_name: Seq<char>,
    pub repo_owner: Seq<char>,
    pub auth_token: Seq<char>,
    pub api_url: Seq<char>,
}

/// What the action needs to know to publish a release.
#[derive(PartialEq, Eq, Debug)]
pub struct ActionInput {
    pub tag_name: String,
    pub release_name: Option<String>,
    pub changelog_file_path: Option<String>,
    pub repo_name: String,
    pub repo_owner: String,
    pub auth_token: String,
    pub api_url: String,
}

impl View for ActionInput {
    type V = InputText;

    open spec fn view(&self) -> InputText {
        InputText {
            tag_name: self.tag_name@,
            release_name: option_text(self.release_name),
            changelog_file_path: option_text(self.changelog_file_path),
            repo_name: self.repo_name@,
            repo_owner: self.repo_owner@,
            auth_token: self.auth_token@,
            api_url: self.api_url@,
        }
    }
}

/// The tag to release: `INPUT_TAG_NAME` where it is given, else the tag that
/// `GITHUB_REF` names as `refs/tags/<tag_name>`.
pub open spec fn tag_name_from(env: Seq<(Seq<char>, Seq<char>)>) -> Result<
    Seq<char>,
    InputFailure,
> {
    match optional_variable(env, "INPUT_TAG_NAME"@) {
        Some(tag_name) => Ok(tag_name),
        None => match required_variable(env, "GITHUB_REF"@) {
            Err(failure) => Err(failure),
            Ok(tag_ref) => if is_prefix("refs/tags/"@, tag_ref) {
                Ok(tag_ref.subrange("refs/tags/"@.len() as int, tag_ref.len() as int))
            } else {
                Err(InputFailure::MalformedRef { tag_ref })
            },
        },
    }
}

/// The owner and the name of the repository, which `GITHUB_REPOSITORY`
/// gives as `repo_owner/repo_name`: what stands before its first `/` and
/// what stands after it.
pub open spec fn repository_from(env: Seq<(Seq<char>, Seq<char>)>) -> Result<
    (Seq<char>, Seq<char>),
    InputFailure,
> {
    match required_variable(env, "GITHUB_REPOSITORY"@) {
        Err(failure) => Err(failure),
        Ok(repo) => if repo.contains('/') {
            let at = choose|at: int| is_first_occurrence(repo, '/', at);
            Ok((repo.subrange(0, at), repo.subrange(at + 1, repo.len() as int)))
        } else {
            Err(InputFailure::MalformedRepository { repo })
        },
    }
}

/// The token to authenticate with: `INPUT_TOKEN` where it is given, else
/// `GITHUB_TOKEN`.
pub open spec fn auth_token_from(env: Seq<(Seq<char>, Seq<char>)>) -> Result<
    Seq<char>,
    InputFailure,
> {
    match optional_variable(env, "INPUT_TOKEN"@) {
        Some(token) => Ok(token),
        None => required_variable(env, "GITHUB_TOKEN"@),
    }
}

/// The input that the environment `env` gives to the action, or the first
/// thing that is wrong with it: the tag, then the repository, then the
/// token, then the address of the API.
pub open spec fn action_input(env: Seq<(Seq<char>, Seq<char>)>) -> Result<InputText, InputFailure> {
    match tag_name_from(env) {
        Err(failure) => Err(failure),
        Ok(tag_name) => match repository_from(env) {
            Err(failure) => Err(failure),
            Ok((repo_owner, repo_name)) => match auth_token_from(env) {
                Err(failure) => Err(failure),
                Ok(auth_token) => match required_variable(env, "GITHUB_API_URL"@) {
                    Err(failure) => Err(failure),
                    Ok(api_url) => Ok(
                        InputText {
                            tag_name,
                            release_name: optional_variable(env, "INPUT_RELEASE_NAME"@),
                            changelog_file_path: optional_variable(env, "INPUT_CHANGELOG_PATH"@),
                            repo_name,
                            repo_owner,
                            auth_token,
                            api_url,
                        },
                    ),
                },
            },
        },
    }
}

/// An outcome of [`ActionInput::from_env`] over texts.
pub open spec fn input_outcome_view(outcome: Result<ActionInput, InputError>) -> Result<
    InputText,
    InputFailure,
> {
    match outcome {
        Ok(input) => Ok(input@),
        Err(error) => Err(error@),
    }
}

impl ActionInput {
    /// Reads the input of the action from the environment variables `env`,
    /// each a name and its value.
    ///
    /// The tag may be given as `INPUT_TAG_NAME`; where it is not, it is taken
    /// from `GITHUB_REF`, which GitHub sets to `refs/tags/<tag_name>` for a
    /// tag. The token may be given as `INPUT_TOKEN`; where it is not,
    /// `GITHUB_TOKEN` is taken. A variable that is blank counts as not set.
    pub fn from_env(env: &[(String, String)]) -> (result: Result<ActionInput, InputError>)
        ensures
            input_outcome_view(result) == action_input(env_texts(env@)),
    {
        let tag_name = match get_optional_env_var(env, "INPUT_TAG_NAME") {
            Some(tag_name) => tag_name,
            None => {
                let tag_ref = match get_required_env_var(env, "GITHUB_REF") {
                    Ok(tag_ref) => tag_ref,
                    Err(error) => {
                        return Err(error);
                    },
                };
                match strip_prefix(tag_ref.as_str(), "refs/tags/") {
                    Some(tag_name) => tag_name.to_owned(),
                    None => {
                        return Err(InputError::MalformedRef { tag_ref });
                    },
                }
            },
        };
        let repo = match get_required_env_var(env, "GITHUB_REPOSITORY") {
            Ok(repo) => repo,
            Err(error) => {
                return Err(error);
            },
        };
        let (repo_owner, repo_name) = match split_once(repo.as_str(), '/') {
            Some((repo_owner, repo_name)) => (repo_owner.to_owned(), repo_name.to_owned()),
            None => {
                return Err(InputError::MalformedRepository { repo });
            },
        };
        let auth_token = match get_optional_env_var(env, "INPUT_TOKEN") {
            Some(token) => token,
            None => match get_required_env_var(env, "GITHUB_TOKEN") {
                Ok(token) => token,
                Err(error) => {
                    return Err(error);
                },
            },
        };
        let release_name = get_optional_env_var(env, "INPUT_RELEASE_NAME");
        let changelog_file_path = get_optional_env_var(env, "INPUT_CHANGELOG_PATH");
        let api_url = match get_required_env_var(env, "GITHUB_API_URL") {
            Ok(api_url) => api_url,
            Err(error) => {
                return Err(error);
            },
        };
        Ok(
            ActionInput {
                tag_name,
                release_name,
                changelog_file_path,
                repo_name,
                repo_owner,
                auth_token,
                api_url,
            },
        )
    }
}

/// The pattern of a semantic version: three runs of digits with a dot
/// between each two, from the start of the text to its end.
pub const SEMANTIC_VERSIONING_PATTERN: &'static str = "^\\d+\\.\\d+\\.\\d+$";

/// Why no release was created, over texts.
pub enum ReleaseFailure {
    InvalidTag { tag_name: Seq<char> },
    PatternRejected,
    Changelog(EntryFailure),
    GitHub(GitHubFailure),
}

impl ReleaseFailure {
    /// The failure in words. Where it has a cause, the cause has words of
    /// its own.
    pub open spec fn message(self) -> Seq<char> {
        match self {
            ReleaseFailure::InvalidTag { tag_name } => {
                "Invalid tag '"@ + tag_name
                    + "': Expected semantic version format X.Y.Z (with optional leading 'v')"@
            },
            ReleaseFailure::PatternRejected => "Should be valid regex"@,
            ReleaseFailure::Changelog(_) => "Failed to get changelog entry"@,
            ReleaseFailure::GitHub(_) => "Failed to create GitHub release"@,
        }
    }
}

/// Why no release was created.
#[derive(Debug, PartialEq, Eq)]
pub enum ReleaseError {
    /// The tag is not a semantic version.
    InvalidTag { tag_name: String },
    /// The pattern of a semantic version was not accepted as a regular
    /// expression, so that no tag could be held against it.
    PatternRejected,
    /// The changelog has no entry for the tag.
    Changelog(ChangelogError),
    /// GitHub did not create the release.
    GitHub(GitHubError),
}

impl View for ReleaseError {
    type V = ReleaseFailure;

    open spec fn view(&self) -> ReleaseFailure {
        match self {
            ReleaseError::InvalidTag { tag_name } => ReleaseFailure::InvalidTag {
                tag_name: tag_name@,
            },
            ReleaseError::PatternRejected => ReleaseFailure::PatternRejected,
            ReleaseError::Changelog(cause) => ReleaseFailure::Changelog(cause@),
            ReleaseError::GitHub(cause) => ReleaseFailure::GitHub(cause@),
        }
    }
}

impl ReleaseError {
    /// The error in words, for the one who ran the release. Where it has a
    /// cause, the cause has words of its own.
    pub fn message(&self) -> (text: String)
        ensures
            text@ == self@.message(),
    {
        match self {
            ReleaseError::InvalidTag { tag_name } => {
                let mut text = String::from_str("Invalid tag '");
                text.append(tag_name.as_str());
                text.append("': Expected semantic version format X.Y.Z (with optional leading 'v')");
                text
            },
            ReleaseError::PatternRejected => String::from_str("Should be valid regex"),
            ReleaseError::Changelog(_) => String::from_str("Failed to get changelog entry"),
            ReleaseError::GitHub(_) => String::from_str("Failed to create GitHub release"),
        }
    }
}

/// A verdict on a tag over texts.
pub open spec fn verdict_view(verdict: Result<(), ReleaseError>) -> Result<(), ReleaseFailure> {
    match verdict {
        Ok(()) => Ok(()),
        Err(error) => Err(error@),
    }
}

/// The verdict on the tag `tag_name`, given what the search for a semantic
/// version in it answered: the tag is valid where a match was found.
pub open spec fn tag_verdict(tag_name: Seq<char>, matched: Option<bool>) -> Result<
    (),
    ReleaseFailure,
> {
    match matched {
        Some(true) => Ok(()),
        Some(false) => Err(ReleaseFailure::InvalidTag { tag_name }),
        None => Err(ReleaseFailure::PatternRejected),
    }
}

/// What the search for a semantic version answers for the tag `tag_name`:
/// the tag without its optional leading `v` is held against
/// [`SEMANTIC_VERSIONING_PATTERN`].
pub open spec fn semantic_version_search(tag_name: Seq<char>) -> Option<bool> {
    regex_search(SEMANTIC_VERSIONING_PATTERN@, without_v_prefix(tag_name))
}

/// Gives the verdict on a tag from the answer of the search for a semantic
/// version in it.
pub fn judge_tag_name(tag_name: &str, matched: Option<bool>) -> (verdict: Result<(), ReleaseError>)
    ensures
        verdict_view(verdict) == tag_verdict(tag_name@, matched),
{
    match matched {
        Some(true) => Ok(()),
        Some(false) => Err(ReleaseError::InvalidTag { tag_name: tag_name.to_owned() }),
        None => Err(ReleaseError::PatternRejected),
    }
}

/// Validates that a tag follows semantic versioning: `X.Y.Z`, with an
/// optional leading `v`.
pub fn validate_tag_name(tag_name: &str) -> (verdict: Result<(), ReleaseError>)
    ensures
        verdict_view(verdict) == tag_verdict(tag_name@, semantic_version_search(tag_name@)),
{
    let version = strip_v_prefix(tag_name);
    judge_tag_name(tag_name, regex_is_match(SEMANTIC_VERSIONING_PATTERN, version))
}

/// What happened outside, over texts.
pub enum EventText {
    Started,
    ChangelogRead { lines: Seq<Seq<char>> },
    Responded { response: ResponseText },
}

/// What happened outside since the last action was asked for.
#[derive(Debug, PartialEq, Eq)]
pub enum ReleaseEvent {
    /// Nothing yet: the release is to be started.
    Started,
    /// The changelog was read; these are its lines.
    ChangelogRead { lines: Vec<String> },
    /// The request was sent, and GitHub answered.
    Responded { response: ReleaseResponse },
}

impl View for ReleaseEvent {
    type V = EventText;

    open spec fn view(&self) -> EventText {
        match self {
            ReleaseEvent::Started => EventText::Started,
            ReleaseEvent::ChangelogRead { lines } => EventText::ChangelogRead {
                lines: line_texts(lines@),
            },
            ReleaseEvent::Responded { response } => EventText::Responded { response: response@ },
        }
    }
}

/// What is to be done next, over texts.
pub enum ActionText {
    ReadChangelog { path: Seq<char>, version: Seq<char> },
    SendRequest { request: RequestText },
    Finish { release: ReleaseText },
    Fail { error: ReleaseFailure },
}

/// What is to be done next to get the release created.
#[derive(Debug, PartialEq, Eq)]
pub enum ReleaseAction {
    /// Read the lines of the changelog at `path` and report them. Those
    /// after the line that ends the entry of `version` need not be read.
    ReadChangelog { path: String, version: String },
    /// Send `request` to GitHub, and report the answer.
    SendRequest { request: ReleaseRequest },
    /// Nothing: the release was created.
    Finish { release: CreatedRelease },
    /// Nothing: there will be no release.
    Fail { error: ReleaseError },
}

impl View for ReleaseAction {
    type V = ActionText;

    open spec fn view(&self) -> ActionText {
        match self {
            ReleaseAction::ReadChangelog { path, version } => ActionText::ReadChangelog {
                path: path@,
                version: version@,
            },
            ReleaseAction::SendRequest { request } => ActionText::SendRequest { request: request@ },
            ReleaseAction::Finish { release } => ActionText::Finish { release: release@ },
            ReleaseAction::Fail { error } => ActionText::Fail { error: error@ },
        }
    }
}

/// The title of the release: the tag where no title is given.
pub open spec fn release_title(input: InputText) -> Seq<char> {
    match input.release_name {
        Some(name) => name,
        None => input.tag_name,
    }
}

/// Where the changelog is: `CHANGELOG.md` where no path is given.
pub open spec fn changelog_path(input: InputText) -> Seq<char> {
    match input.changelog_file_path {
        Some(path) => path,
        None => "CHANGELOG.md"@,
    }
}

/// What is to be done after `event`, for a tag with the verdict `verdict`.
///
/// A tag that is not valid ends the release before anything is read or
/// sent. At the start the changelog is to be read. Once it is read, the
/// entry of the tag is taken from it and becomes the description of the
/// release that GitHub is asked for. GitHub's answer ends the release, with
/// the release or with the reason why there is none.
pub open spec fn next_action(
    input: InputText,
    event: EventText,
    verdict: Result<(), ReleaseFailure>,
) -> ActionText {
    match verdict {
        Err(error) => ActionText::Fail { error },
        Ok(()) => match event {
            EventText::Started => ActionText::ReadChangelog {
                path: changelog_path(input),
                version: input.tag_name,
            },
            EventText::ChangelogRead { lines } => match changelog_entry(
                changelog_path(input),
                lines,
                input.tag_name,
            ) {
                Err(cause) => ActionText::Fail { error: ReleaseFailure::Changelog(cause) },
                Ok(changelog) => ActionText::SendRequest {
                    request: release_request(
                        input.api_url,
                        input.tag_name,
                        release_title(input),
                        changelog,
                        input.repo_name,
                        input.repo_owner,
                        input.auth_token,
                    ),
                },
            },
            EventText::Responded { response } => match release_outcome(
                release_title(input),
                response,
            ) {
                Ok(release) => ActionText::Finish { release },
                Err(cause) => ActionText::Fail { error: ReleaseFailure::GitHub(cause) },
            },
        },
    }
}

/// Says what is to be done after `event`, for a tag with the verdict
/// `verdict`.
pub fn next_release_action(
    input: &ActionInput,
    event: ReleaseEvent,
    verdict: Result<(), ReleaseError>,
) -> (action: ReleaseAction)
    ensures
        action@ == next_action(input@, event@, verdict_view(verdict)),
{
    match verdict {
        Err(error) => {
            return ReleaseAction::Fail { error };
        },
        Ok(()) => {},
    }
    // If release name is not set, use tag name
    let release_name: &str = match &input.release_name {
        Some(name) => name.as_str(),
        None => input.tag_name.as_str(),
    };
    // If changelog file path is not set, default to 'CHANGELOG.md' at root
    let changelog_file_path: &str = match &input.changelog_file_path {
        Some(path) => path.as_str(),
        None => "CHANGELOG.md",
    };
    match event {
        ReleaseEvent::Started => ReleaseAction::ReadChangelog {
            path: changelog_file_path.to_owned(),
            version: input.tag_name.clone(),
        },
        ReleaseEvent::ChangelogRead { lines } => {
            match get_changelog_entry(
                changelog_file_path,
                lines.as_slice(),
                input.tag_name.as_str(),
            ) {
                Err(cause) => ReleaseAction::Fail { error: ReleaseError::Changelog(cause) },
                Ok(changelog) => {
                    let github_client = GitHubApiClient::new(input.api_url.as_str());
                    ReleaseAction::SendRequest {
                        request: github_client.create_release_request(
                            input.tag_name.as_str(),
                            release_name,
                            changelog.as_str(),
                            input.repo_name.as_str(),
                            input.repo_owner.as_str(),
                            input.auth_token.as_str(),
                        ),
                    }
                },
            }
        },
        ReleaseEvent::Responded { response } => {
            match GitHubApiClient::read_release_response(release_name, response) {
                Ok(release) => ReleaseAction::Finish { release },
                Err(cause) => ReleaseAction::Fail { error: ReleaseError::GitHub(cause) },
            }
        },
    }
}

/// Creates a GitHub release for the changelog entry of a tag, one step at a
/// time: says what is to be done after `event`. The caller reads the
/// changelog and talks to GitHub as it is told, and reports each time what
/// came of it, from [`ReleaseEvent::Started`] until the action is
/// [`ReleaseAction::Finish`] or [`ReleaseAction::Fail`].
///
/// The tag must follow semantic versioning. The title of the release is the
/// tag where the input gives none, and the changelog is `CHANGELOG.md` where
/// the input names no other.
pub fn create_github_release_for_changelog_entry(input: &ActionInput, event: ReleaseEvent) -> (action:
    ReleaseAction)
    ensures
        action@ == next_action(
            input@,
            event@,
            tag_verdict(input.tag_name@, semantic_version_search(input.tag_name@)),
        ),
{
    // Validate that tag name follows semantic versioning
    let verdict = validate_tag_name(input.tag_name.as_str());
    next_release_action(input, event, verdict)
}

} // verus!
