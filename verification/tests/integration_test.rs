use release_from_changelog::changelog_parsing::ChangelogError;
use release_from_changelog::github_release::{
    GitHubApiClient, GitHubError, ReleaseRequest, ReleaseResponse,
};
use release_from_changelog::{
    create_github_release_for_changelog_entry, judge_tag_name, next_release_action,
    validate_tag_name, ActionInput, CreatedRelease, ReleaseAction, ReleaseError, ReleaseEvent,
};

static TEST_TOKEN: &str = "test-token";

const GRUVBOX_CHANGELOG: &str = "\
# Changelog

## [Unreleased]

## [v0.4.0] - 2024-08-25

- Overhaul UI colors in IntelliJ to improve consistency
- Improve IntelliJ syntax highlighting for:
    - TypeScript/JavaScript
    - C/C++
    - Markdown
    - XML
- Improve VSCode syntax highlighting for Rust

## [v0.3.0] - 2024-07-21

- Improve contrast of selected text in VSCode

[Unreleased]: https://github.com/hermannm/gruvbox-plain/compare/v0.4.0...HEAD
[v0.4.0]: https://github.com/hermannm/gruvbox-plain/compare/v0.3.0...v0.4.0
";

fn changelog_lines() -> Vec<String> {
    GRUVBOX_CHANGELOG.lines().map(|line| line.to_string()).collect()
}

fn test_input(tag_name: &str) -> ActionInput {
    ActionInput {
        tag_name: tag_name.to_string(),
        release_name: None,
        changelog_file_path: Some("tests/testdata/CHANGELOG_1.md".to_string()),
        repo_name: "gruvbox-plain".to_string(),
        repo_owner: "hermannm".to_string(),
        auth_token: TEST_TOKEN.to_string(),
        api_url: "http://127.0.0.1:1234".to_string(),
    }
}

fn header(name: &str, value: &str) -> (String, String) {
    (name.to_string(), value.to_string())
}

#[test]
fn creates_release_from_changelog() {
    let server_url = "http://127.0.0.1:1234";
    let input = test_input("v0.4.0");

    let action = create_github_release_for_changelog_entry(&input, ReleaseEvent::Started);
    assert_eq!(
        action,
        ReleaseAction::ReadChangelog {
            path: "tests/testdata/CHANGELOG_1.md".to_string(),
            version: "v0.4.0".to_string(),
        }
    );

    let action = create_github_release_for_changelog_entry(
        &input,
        ReleaseEvent::ChangelogRead { lines: changelog_lines() },
    );
    assert_eq!(
        action,
        ReleaseAction::SendRequest {
            request: ReleaseRequest {
                method: "POST".to_string(),
                url: format!("{server_url}/repos/hermannm/gruvbox-plain/releases"),
                tag_name: "v0.4.0".to_string(),
                name: "v0.4.0".to_string(),
                body: "- Overhaul UI colors in IntelliJ to improve consistency\n- Improve IntelliJ syntax highlighting for:\n    - TypeScript/JavaScript\n    - C/C++\n    - Markdown\n    - XML\n- Improve VSCode syntax highlighting for Rust".to_string(),
                headers: vec![
                    header("Accept", "application/vnd.github+json"),
                    header("Authorization", format!("Bearer {TEST_TOKEN}").as_str()),
                    header("X-GitHub-Api-Version", "2022-11-28"),
                    header("User-Agent", "hermannm"),
                ],
            }
        }
    );

    // GitHub answers 201 with the release; its page is under "html_url"
    let action = create_github_release_for_changelog_entry(
        &input,
        ReleaseEvent::Responded {
            response: ReleaseResponse::Successful {
                html_url: Some(
                    "https://github.com/hermannm/gruvbox-plain/releases/v0.4.0".to_string(),
                ),
            },
        },
    );
    let release = match action {
        ReleaseAction::Finish { release } => release,
        other => panic!("expected the release, got {:?}", other),
    };

    assert_eq!("v0.4.0", &release.name);
    assert_eq!(
        "https://github.com/hermannm/gruvbox-plain/releases/v0.4.0",
        &release.url
    );
}

#[test]
fn release_name_and_changelog_path_have_defaults() {
    let mut input = test_input("v0.4.0");
    input.changelog_file_path = None;
    assert_eq!(
        create_github_release_for_changelog_entry(&input, ReleaseEvent::Started),
        ReleaseAction::ReadChangelog {
            path: "CHANGELOG.md".to_string(),
            version: "v0.4.0".to_string(),
        }
    );
    input.release_name = Some("Release 0.4.0".to_string());
    let action = create_github_release_for_changelog_entry(
        &input,
        ReleaseEvent::ChangelogRead { lines: changelog_lines() },
    );
    match action {
        ReleaseAction::SendRequest { request } => {
            assert_eq!(request.name, "Release 0.4.0");
            assert_eq!(request.tag_name, "v0.4.0");
        }
        other => panic!("expected a request, got {:?}", other),
    }
    let action = create_github_release_for_changelog_entry(
        &input,
        ReleaseEvent::Responded {
            response: ReleaseResponse::Successful { html_url: Some("https://x".to_string()) },
        },
    );
    assert_eq!(
        action,
        ReleaseAction::Finish {
            release: CreatedRelease {
                name: "Release 0.4.0".to_string(),
                url: "https://x".to_string()
            }
        }
    );
}

#[test]
fn invalid_tag_fails_before_anything_is_read() {
    let input = test_input("release-1");
    let action = create_github_release_for_changelog_entry(&input, ReleaseEvent::Started);
    assert_eq!(
        action,
        ReleaseAction::Fail {
            error: ReleaseError::InvalidTag { tag_name: "release-1".to_string() }
        }
    );
    let action = create_github_release_for_changelog_entry(
        &input,
        ReleaseEvent::ChangelogRead { lines: changelog_lines() },
    );
    assert!(matches!(action, ReleaseAction::Fail { error: ReleaseError::InvalidTag { .. } }));
}

#[test]
fn missing_entry_fails_the_release() {
    let input = test_input("v0.5.0");
    let action = create_github_release_for_changelog_entry(
        &input,
        ReleaseEvent::ChangelogRead { lines: changelog_lines() },
    );
    let error = match action {
        ReleaseAction::Fail { error } => error,
        other => panic!("expected a failure, got {:?}", other),
    };
    assert_eq!(error.message(), "Failed to get changelog entry");
    assert_eq!(
        error,
        ReleaseError::Changelog(ChangelogError::NoEntryFound {
            version: "v0.5.0".to_string(),
            changelog_file_path: "tests/testdata/CHANGELOG_1.md".to_string(),
            title_1: "## [0.5.0]".to_string(),
            title_2: "## [v0.5.0]".to_string(),
        })
    );
}

#[test]
fn unsuccessful_response_fails_the_release() {
    let input = test_input("v0.4.0");
    let action = create_github_release_for_changelog_entry(
        &input,
        ReleaseEvent::Responded {
            response: ReleaseResponse::Unsuccessful {
                status: "422 Unprocessable Entity".to_string(),
                body: Some("{\"message\":\"Validation Failed\"}".to_string()),
            },
        },
    );
    let error = match action {
        ReleaseAction::Fail { error } => error,
        other => panic!("expected a failure, got {:?}", other),
    };
    assert_eq!(error.message(), "Failed to create GitHub release");
    match error {
        ReleaseError::GitHub(cause) => assert_eq!(
            cause.message(),
            "Got unsuccessful response (422 Unprocessable Entity) from GitHub when trying to create release, response_body:\n{\"message\":\"Validation Failed\"}"
        ),
        other => panic!("expected GitHub's failure, got {:?}", other),
    }
}

#[test]
fn unsuccessful_response_tells_what_the_body_was() {
    let unreadable =
        GitHubError::Unsuccessful { status: "500 Internal Server Error".to_string(), body: None };
    assert_eq!(
        unreadable.message(),
        "Got unsuccessful response (500 Internal Server Error) from GitHub when trying to create release, and failed to read response body"
    );
    let blank = GitHubError::Unsuccessful {
        status: "404 Not Found".to_string(),
        body: Some(" \n".to_string()),
    };
    assert_eq!(
        blank.message(),
        "Got unsuccessful response (404 Not Found) from GitHub when trying to create release, with blank response body"
    );
    let empty =
        GitHubError::Unsuccessful { status: "404 Not Found".to_string(), body: Some(String::new()) };
    assert_eq!(
        empty.message(),
        "Got unsuccessful response (404 Not Found) from GitHub when trying to create release, with blank response body"
    );
}

#[test]
fn successful_response_without_url_fails_the_release() {
    let result = GitHubApiClient::read_release_response(
        "v0.4.0",
        ReleaseResponse::Successful { html_url: None },
    );
    assert_eq!(result, Err(GitHubError::MissingReleaseUrl));
    assert_eq!(
        GitHubError::MissingReleaseUrl.message(),
        "GitHub create release request succeeded, but failed to get release URL from response body"
    );
}

#[test]
fn reads_release_from_successful_response() {
    let result = GitHubApiClient::read_release_response(
        "Release 1",
        ReleaseResponse::Successful { html_url: Some("https://example.com/r/1".to_string()) },
    );
    assert_eq!(
        result,
        Ok(CreatedRelease {
            name: "Release 1".to_string(),
            url: "https://example.com/r/1".to_string()
        })
    );
    let result = GitHubApiClient::read_release_response(
        "Release 1",
        ReleaseResponse::Unsuccessful { status: "403 Forbidden".to_string(), body: None },
    );
    assert_eq!(
        result,
        Err(GitHubError::Unsuccessful { status: "403 Forbidden".to_string(), body: None })
    );
}

#[test]
fn builds_release_request() {
    let client = GitHubApiClient::new("https://api.github.com");
    let request =
        client.create_release_request("v1.0.0", "Title", "- a\n- b", "repo", "owner", "secret");
    assert_eq!(request.method, "POST");
    assert_eq!(request.url, "https://api.github.com/repos/owner/repo/releases");
    assert_eq!(request.tag_name, "v1.0.0");
    assert_eq!(request.name, "Title");
    assert_eq!(request.body, "- a\n- b");
    assert_eq!(
        request.headers,
        vec![
            header("Accept", "application/vnd.github+json"),
            header("Authorization", "Bearer secret"),
            header("X-GitHub-Api-Version", "2022-11-28"),
            header("User-Agent", "owner"),
        ]
    );
}

#[test]
fn validates_semantic_versions() {
    assert_eq!(validate_tag_name("1.2.3"), Ok(()));
    assert_eq!(validate_tag_name("v1.2.3"), Ok(()));
    assert_eq!(validate_tag_name("v0.4.0"), Ok(()));
    assert_eq!(validate_tag_name("10.20.30"), Ok(()));
    assert_eq!(validate_tag_name("v001.002.003"), Ok(()));
}

#[test]
fn digits_are_what_the_pattern_takes_for_digits() {
    assert_eq!(validate_tag_name("v\u{661}.\u{662}.\u{663}"), Ok(()));
    assert_eq!(validate_tag_name("\u{ff11}.2.3"), Ok(()));
    assert!(validate_tag_name("\u{2460}.2.3").is_err());
    assert!(validate_tag_name("\u{bd}.2.3").is_err());
}

#[test]
fn rejects_tags_that_are_no_semantic_versions() {
    for tag_name in [
        "", "v", "1", "1.2", "1.2.", "1.2.3.4", "v1.2.3-rc1", "1.2.3 ", " 1.2.3", "vv1.2.3",
        "V1.2.3", "a.b.c", "1.2.x", "1..3", ".1.2.3", "1.2.3\n", "release", "1,2,3",
    ] {
        assert_eq!(
            validate_tag_name(tag_name),
            Err(ReleaseError::InvalidTag { tag_name: tag_name.to_string() }),
            "tag {:?}",
            tag_name
        );
    }
    assert_eq!(
        validate_tag_name("1.2").unwrap_err().message(),
        "Invalid tag '1.2': Expected semantic version format X.Y.Z (with optional leading 'v')"
    );
}

#[test]
fn judges_tag_by_the_answer_of_the_search() {
    assert_eq!(judge_tag_name("anything", Some(true)), Ok(()));
    assert_eq!(
        judge_tag_name("anything", Some(false)),
        Err(ReleaseError::InvalidTag { tag_name: "anything".to_string() })
    );
    assert_eq!(judge_tag_name("anything", None), Err(ReleaseError::PatternRejected));
    assert_eq!(ReleaseError::PatternRejected.message(), "Should be valid regex");
}

#[test]
fn next_action_follows_the_verdict() {
    let input = test_input("not-a-version");
    assert_eq!(
        next_release_action(&input, ReleaseEvent::Started, Ok(())),
        ReleaseAction::ReadChangelog {
            path: "tests/testdata/CHANGELOG_1.md".to_string(),
            version: "not-a-version".to_string(),
        }
    );
    assert_eq!(
        next_release_action(&input, ReleaseEvent::Started, Err(ReleaseError::PatternRejected)),
        ReleaseAction::Fail { error: ReleaseError::PatternRejected }
    );
}
