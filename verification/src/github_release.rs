//! The request that creates a release on GitHub, and the reading of the
//! answer. Nothing here sends anything.

use crate::text::{is_blank, is_blank_text};
use crate::{CreatedRelease, ReleaseText};
use vstd::prelude::*;

verus! {

/// A request to GitHub to create a release, over texts.
pub struct RequestText {
    pub method: Seq<char>,
    pub url: Seq<char>,
    pub tag_name: Seq<char>,
    pub name: Seq<char>,
    pub body: Seq<char>,
    pub headers: Seq<(Seq<char>, Seq<char>)>,
}

/// A request to GitHub to create a release: how and where to send it, the
/// three fields of its JSON body and its headers, name and value.
#[derive(Debug, PartialEq, Eq)]
pub struct ReleaseRequest {
    pub method: String,
    pub url: String,
    pub tag_name: String,
    pub name: String,
    pub body: String,
    pub headers: Vec<(String, String)>,
}

impl View for ReleaseRequest {
    type V = RequestText;

    open spec fn view(&self) -> RequestText {
        RequestText {
            method: self.method@,
            url: self.url@,
            tag_name: self.tag_name@,
            name: self.name@,
            body: self.body@,
            headers: Seq::new(
                self.headers@.len(),
                |i: int| (self.headers@[i].0@, self.headers@[i].1@),
            ),
        }
    }
}

/// The request that creates the release `release_title` for the tag
/// `tag_name` of the repository `repo_owner/repo_name`, with `changelog` as
/// its description. GitHub asks for a `User-Agent` header and recommends the
/// user's name for it: that is `repo_owner` here.
pub open spec fn release_request(
    api_url: Seq<char>,
    tag_name: Seq<char>,
    release_title: Seq<char>,
    changelog: Seq<char>,
    repo_name: Seq<char>,
    repo_owner: Seq<char>,
    auth_token: Seq<char>,
) -> RequestText {
    RequestText {
        method: "POST"@,
        url: api_url + "/repos/"@ + repo_owner + "/"@ + repo_name + "/releases"@,
        tag_name,
        name: release_title,
        body: changelog,
        headers: seq![
            ("Accept"@, "application/vnd.github+json"@),
            ("Authorization"@, "Bearer "@ + auth_token),
            ("X-GitHub-Api-Version"@, "2022-11-28"@),
            ("User-Agent"@, repo_owner),
        ],
    }
}

/// What GitHub answered to a request, over texts.
pub enum ResponseText {
    Unsuccessful { status: Seq<char>, body: Option<Seq<char>> },
    Successful { html_url: Option<Seq<char>> },
}

/// What GitHub answered to a request to create a release.
#[derive(Debug, PartialEq, Eq)]
pub enum ReleaseResponse {
    /// The status is not one of success. `status` is the status as it is
    /// shown to a reader, `body` the body of the response where it could be
    /// read.
    Unsuccessful { status: String, body: Option<String> },
    /// The status is one of success. `html_url` is the address of the
    /// release's page, where the body of the response gave one.
    Successful { html_url: Option<String> },
}

impl View for ReleaseResponse {
    type V = ResponseText;

    open spec fn view(&self) -> ResponseText {
        match self {
            ReleaseResponse::Unsuccessful { status, body } => ResponseText::Unsuccessful {
                status: status@,
                body: match body {
                    Some(text) => Some(text@),
                    None => None,
                },
            },
            ReleaseResponse::Successful { html_url } => ResponseText::Successful {
                html_url: match html_url {
                    Some(text) => Some(text@),
                    None => None,
                },
            },
        }
    }
}

/// Why GitHub's answer gives no release, over texts.
pub enum GitHubFailure {
    Unsuccessful { status: Seq<char>, body: Option<Seq<char>> },
    MissingReleaseUrl,
}

impl GitHubFailure {
    /// The failure in words. A body that could not be read and a blank body
    /// are told apart; any other body is quoted in full.
    pub open spec fn message(self) -> Seq<char> {
        match self {
            GitHubFailure::Unsuccessful { status, body } => {
                "Got unsuccessful response ("@ + status
                    + ") from GitHub when trying to create release, "@ + match body {
                    None => "and failed to read response body"@,
                    Some(text) => if is_blank_text(text) {
                        "with blank response body"@
                    } else {
                        "response_body:\n"@ + text
                    },
                }
            },
            GitHubFailure::MissingReleaseUrl => {
                "GitHub create release request succeeded, but failed to get release URL from response body"@
            },
        }
    }
}

/// Why GitHub's answer gives no release.
#[derive(Debug, PartialEq, Eq)]
pub enum GitHubError {
    /// GitHub answered with a status that is not one of success.
    Unsuccessful { status: String, body: Option<String> },
    /// GitHub created the release, but its answer does not say where.
    MissingReleaseUrl,
}

impl View for GitHubError {
    type V = GitHubFailure;

    open spec fn view(&self) -> GitHubFailure {
        match self {
            GitHubError::Unsuccessful { status, body } => GitHubFailure::Unsuccessful {
                status: status@,
                body: match body {
                    Some(text) => Some(text@),
                    None => None,
                },
            },
            GitHubError::MissingReleaseUrl => GitHubFailure::MissingReleaseUrl,
        }
    }
}

impl GitHubError {
    /// The error in words, for the one who ran the release.
    pub fn message(&self) -> (text: String)
        ensures
            text@ == self@.message(),
    {
        match self {
            GitHubError::Unsuccessful { status, body } => {
                let mut text = String::from_str("Got unsuccessful response (");
                text.append(status.as_str());
                text.append(") from GitHub when trying to create release, ");
                match body {
                    None => {
                        text.append("and failed to read response body");
                    },
                    Some(body_text) => {
                        if is_blank(body_text.as_str()) {
                            text.append("with blank response body");
                        } else {
                            text.append("response_body:\n");
                            text.append(body_text.as_str());
                        }
                    },
                }
                text
            },
            GitHubError::MissingReleaseUrl => String::from_str(
                "GitHub create release request succeeded, but failed to get release URL from response body",
            ),
        }
    }
}

/// What an answer of GitHub means for the release `release_title`: the
/// release with the address of its page, or why there is none.
pub open spec fn release_outcome(release_title: Seq<char>, response: ResponseText) -> Result<
    ReleaseText,
    GitHubFailure,
> {
    match response {
        ResponseText::Unsuccessful { status, body } => Err(
            GitHubFailure::Unsuccessful { status, body },
        ),
        ResponseText::Successful { html_url: None } => Err(GitHubFailure::MissingReleaseUrl),
        ResponseText::Successful { html_url: Some(url) } => Ok(
            ReleaseText { name: release_title, url },
        ),
    }
}

/// An outcome of [`GitHubApiClient::read_release_response`] over texts.
pub open spec fn release_outcome_view(outcome: Result<CreatedRelease, GitHubError>) -> Result<
    ReleaseText,
    GitHubFailure,
> {
    match outcome {
        Ok(release) => Ok(release@),
        Err(error) => Err(error@),
    }
}

/// The part of a GitHub API client that needs no connection: it says what
/// to send to create a release, and what the answer means.
pub struct GitHubApiClient<'a> {
    api_url: &'a str,
}

impl<'a> GitHubApiClient<'a> {
    /// The address of the API that the client speaks to.
    pub closed spec fn api_url(&self) -> Seq<char> {
        self.api_url@
    }

    /// A client for the API at `api_url`.
    pub fn new(api_url: &'a str) -> (client: GitHubApiClient<'a>)
        ensures
            client.api_url() == api_url@,
    {
        GitHubApiClient { api_url }
    }

    /// The request that creates a release on GitHub.
    pub fn create_release_request(
        &self,
        tag_name: &str,
        release_title: &str,
        changelog: &str,
        repo_name: &str,
        repo_owner: &str,
        auth_token: &str,
    ) -> (request: ReleaseRequest)
        ensures
            request@ == release_request(
                self.api_url(),
                tag_name@,
                release_title@,
                changelog@,
                repo_name@,
                repo_owner@,
                auth_token@,
            ),
    {
        let mut url = String::from_str(self.api_url);
        url.append("/repos/");
        url.append(repo_owner);
        url.append("/");
        url.append(repo_name);
        url.append("/releases");
        let mut authorization = String::from_str("Bearer ");
        authorization.append(auth_token);
        let mut headers: Vec<(String, String)> = Vec::new();
        headers.push((String::from_str("Accept"), String::from_str("application/vnd.github+json")));
        headers.push((String::from_str("Authorization"), authorization));
        headers.push((String::from_str("X-GitHub-Api-Version"), String::from_str("2022-11-28")));
        headers.push((String::from_str("User-Agent"), String::from_str(repo_owner)));
        let request = ReleaseRequest {
            method: String::from_str("POST"),
            url,
            tag_name: String::from_str(tag_name),
            name: String::from_str(release_title),
            body: String::from_str(changelog),
            headers,
        };
        assert(request@.headers =~= release_request(
            self.api_url(),
            tag_name@,
            release_title@,
            changelog@,
            repo_name@,
            repo_owner@,
            auth_token@,
        ).headers);
        request
    }

    /// Reads GitHub's answer to the request for the release `release_title`.
    pub fn read_release_response(release_title: &str, response: ReleaseResponse) -> (result: Result<
        CreatedRelease,
        GitHubError,
    >)
        ensures
            release_outcome_view(result) == release_outcome(release_title@, response@),
    {
        match response {
            ReleaseResponse::Unsuccessful { status, body } => Err(
                GitHubError::Unsuccessful { status, body },
            ),
            ReleaseResponse::Successful { html_url } => match html_url {
                None => Err(GitHubError::MissingReleaseUrl),
                Some(url) => Ok(CreatedRelease { name: String::from_str(release_title), url }),
            },
        }
    }
}

} // verus!
