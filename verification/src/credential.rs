//! Resolving the credential of one backend: from the configuration itself, or from
//! a local file that holds it as plain text or somewhere inside a JSON document.
use vstd::prelude::*;
use vstd::string::{StrSliceExecFns, StringExecFns};
use crate::config::{AuthType, ConfigView, ProviderConfig};
use crate::error::{error_text, ErrorView, ProviderError};
use crate::files::{expand_home, expanded_path, LocalFiles, LocalFilesView};
use crate::json::{
    extract_api_key_from_json, find_token, lemma_found_token_is_not_blank, parse_json, parsed_json,
};
use crate::text::{lemma_trimmed_is_trimmed, trim, trimmed};

verus! {

/// A resolved credential or the failure to resolve one, as mathematical values.
pub open spec fn key_outcome(r: Result<String, ProviderError>) -> Result<Seq<char>, ErrorView> {
    match r {
        Ok(key) => Ok(key@),
        Err(error) => Err(error@),
    }
}

/// The failure of a declared path that stands for no place.
pub open spec fn invalid_path_failure(path: Seq<char>) -> ErrorView {
    ErrorView::ConfigError("Invalid api_key_path: "@ + path)
}

/// The failure of a file that could not be read.
pub open spec fn unreadable_failure(location: Seq<char>, reason: Seq<char>) -> ErrorView {
    ErrorView::ConfigError("Failed to read "@ + location + ": "@ + reason)
}

/// The failure of a file that opens like a JSON object and is no JSON document.
pub open spec fn malformed_failure(location: Seq<char>, complaint: Seq<char>) -> ErrorView {
    ErrorView::ConfigError("Failed to parse JSON from "@ + location + ": "@ + complaint)
}

/// The failure of a JSON document that holds no credential.
pub open spec fn no_token_failure(location: Seq<char>) -> ErrorView {
    ErrorView::ConfigError("No api_key/access_token/token field found in "@ + location)
}

/// The failure of a file that holds nothing but white space.
pub open spec fn empty_file_failure(location: Seq<char>) -> ErrorView {
    ErrorView::ConfigError("No api_key found in "@ + location + ": the file is empty"@)
}

/// The failure of a backend whose key file gave no key, for the reason `cause`.
pub open spec fn key_file_failure(name: Seq<char>, path: Seq<char>, cause: ErrorView) -> ErrorView {
    ErrorView::ConfigError(
        "Provider '"@ + name + "' failed to read api_key from "@ + path + ": "@ + error_text(cause),
    )
}

/// The failure of a backend that declares neither a key nor a key file.
pub open spec fn missing_key_failure(name: Seq<char>) -> ErrorView {
    ErrorView::ConfigError(
        "Provider '"@ + name + "' requires api_key or api_key_path for ApiKey auth"@,
    )
}

/// Whether the text of a credential file is to be read as a JSON document: whether,
/// white space aside, it begins with `{`.
pub open spec fn looks_like_json(text: Seq<char>) -> bool {
    trimmed(text).len() > 0 && trimmed(text)[0] == '{'
}

/// The key that the text of the file at `location` holds. Text that is empty or
/// blank holds none; text that looks like JSON is parsed and searched; any other
/// text is the key, without the white space around it.
pub open spec fn key_in_text(location: Seq<char>, text: Seq<char>) -> Result<Seq<char>, ErrorView> {
    if trimmed(text).len() == 0 {
        Err(empty_file_failure(location))
    } else if looks_like_json(text) {
        match parsed_json(trimmed(text)) {
            Ok(document) => match find_token(document) {
                Some(key) => Ok(key),
                None => Err(no_token_failure(location)),
            },
            Err(complaint) => Err(malformed_failure(location, complaint)),
        }
    } else {
        Ok(trimmed(text))
    }
}

/// The key that the file at the declared path holds.
pub open spec fn key_in_file(path: Seq<char>, files: LocalFilesView) -> Result<Seq<char>, ErrorView> {
    match expanded_path(path, files.home) {
        Some(location) => match files.content_of(location) {
            Ok(text) => key_in_text(location, text),
            Err(reason) => Err(unreadable_failure(location, reason)),
        },
        None => Err(invalid_path_failure(path)),
    }
}

/// Whether an entry writes its key inline: whether it has a key that is not blank.
pub open spec fn has_inline_key(config: ConfigView) -> bool {
    config.api_key matches Some(key) && trimmed(key).len() > 0
}

/// The key of a backend that authenticates with one. A key written inline wins, as
/// it stands; else the key file is consulted; an entry with neither fails.
pub open spec fn api_key_of(config: ConfigView, files: LocalFilesView) -> Result<Seq<char>, ErrorView> {
    if has_inline_key(config) {
        Ok(config.api_key->0)
    } else if config.api_key_path is Some {
        match key_in_file(config.api_key_path->0, files) {
            Ok(key) => Ok(key),
            Err(cause) => Err(key_file_failure(config.name, config.api_key_path->0, cause)),
        }
    } else {
        Err(missing_key_failure(config.name))
    }
}

/// The credential that a backend's adapter is constructed with: its key, or for
/// OAuth the entry of the credential source to use, which is the backend's own
/// name where the configuration names none.
pub open spec fn credential_of(config: ConfigView, files: LocalFilesView) -> Result<Seq<char>, ErrorView> {
    match config.auth_type {
        AuthType::ApiKey => api_key_of(config, files),
        AuthType::OAuth => Ok(
            match config.oauth_provider {
                Some(entry) => entry,
                None => config.name,
            },
        ),
    }
}

/// The file that the build consults for an entry, if it consults one: the key file
/// of an enabled entry that authenticates with a key and writes none inline.
pub open spec fn file_consulted(config: ConfigView, home: Option<Seq<char>>) -> Option<Seq<char>> {
    if config.is_enabled() && config.auth_type == AuthType::ApiKey && !has_inline_key(config)
        && config.api_key_path is Some {
        expanded_path(config.api_key_path->0, home)
    } else {
        None
    }
}

/// A key written inline wins over a key file: where the inline key is not blank,
/// it is the credential as it stands, whatever file the entry names and whatever
/// is known of that file.
pub proof fn lemma_inline_key_wins(config: ConfigView, files: LocalFilesView)
    requires
        config.auth_type == AuthType::ApiKey,
        has_inline_key(config),
    ensures
        api_key_of(config, files) == Ok::<Seq<char>, ErrorView>(config.api_key->0),
        credential_of(config, files) == Ok::<Seq<char>, ErrorView>(config.api_key->0),
{
}

/// A key is never blank: whether it was written inline, stood in a file as plain
/// text or was found in a JSON document, something is left of it when the white
/// space around it is taken away.
pub proof fn lemma_api_key_is_not_blank(config: ConfigView, files: LocalFilesView)
    ensures
        api_key_of(config, files) matches Ok(key) ==> trimmed(key).len() > 0,
{
    if let Ok(key) = api_key_of(config, files) {
        if !has_inline_key(config) {
            let location = expanded_path(config.api_key_path->0, files.home)->0;
            let text = files.content_of(location)->Ok_0;
            if looks_like_json(text) {
                lemma_found_token_is_not_blank(parsed_json(trimmed(text))->Ok_0);
            } else {
                lemma_trimmed_is_trimmed(text);
            }
        }
    }
}

/// Resolving an entry's credential fails with a configuration error only.
pub proof fn lemma_resolution_fails_with_config_error(config: ConfigView, files: LocalFilesView)
    ensures
        credential_of(config, files) matches Err(failure) ==> failure is ConfigError,
{
}

/// The credential of an enabled entry depends on the home directory and on the one
/// file that the build consults for the entry, and on nothing else that is known
/// of the local files.
pub proof fn lemma_credential_reads_one_file(
    config: ConfigView,
    files: LocalFilesView,
    others: LocalFilesView,
)
    requires
        config.is_enabled(),
        files.home == others.home,
        file_consulted(config, files.home) matches Some(location) ==> files.content_of(location)
            == others.content_of(location),
    ensures
        credential_of(config, files) == credential_of(config, others),
{
}

/// The key that a credential file's text holds; `location` is where the file lies,
/// for the report of a failure.
pub fn api_key_from_text(location: &str, text: &str) -> (r: Result<String, ProviderError>)
    ensures
        key_outcome(r) == key_in_text(location@, text@),
{
    let inner = trim(text);
    if inner.is_empty() {
        Err(
            ProviderError::ConfigError(
                String::from_str("No api_key found in ").concat(location).concat(
                    ": the file is empty",
                ),
            ),
        )
    } else if inner.get_char(0) == '{' {
        match parse_json(inner) {
            Ok(document) => match extract_api_key_from_json(&document) {
                Some(key) => Ok(key),
                None => Err(
                    ProviderError::ConfigError(
                        String::from_str("No api_key/access_token/token field found in ").concat(
                            location,
                        ),
                    ),
                ),
            },
            Err(complaint) => Err(
                ProviderError::ConfigError(
                    String::from_str("Failed to parse JSON from ").concat(location).concat(
                        ": ",
                    ).concat(complaint.as_str()),
                ),
            ),
        }
    } else {
        Ok(inner.to_owned())
    }
}

/// The key that the file at the declared path holds, from what `files` knows of it.
pub fn load_api_key_from_file(path_str: &str, files: &LocalFiles) -> (r: Result<String, ProviderError>)
    ensures
        key_outcome(r) == key_in_file(path_str@, files@),
{
    let location = match expand_home(path_str, files) {
        Some(location) => location,
        None => {
            return Err(
                ProviderError::ConfigError(
                    String::from_str("Invalid api_key_path: ").concat(path_str),
                ),
            );
        },
    };
    match files.content(location.as_str()) {
        Ok(text) => api_key_from_text(location.as_str(), text.as_str()),
        Err(reason) => Err(
            ProviderError::ConfigError(
                String::from_str("Failed to read ").concat(location.as_str()).concat(": ").concat(
                    reason.as_str(),
                ),
            ),
        ),
    }
}

/// The key of a backend that authenticates with one.
pub fn resolve_api_key(config: &ProviderConfig, files: &LocalFiles) -> (r: Result<String, ProviderError>)
    ensures
        key_outcome(r) == api_key_of(config@, files@),
{
    if let Some(api_key) = &config.api_key {
        if !trim(api_key.as_str()).is_empty() {
            return Ok(api_key.clone());
        }
    }
    if let Some(path) = &config.api_key_path {
        return match load_api_key_from_file(path.as_str(), files) {
            Ok(key) => Ok(key),
            Err(cause) => Err(
                ProviderError::ConfigError(
                    String::from_str("Provider '").concat(config.name.as_str()).concat(
                        "' failed to read api_key from ",
                    ).concat(path.as_str()).concat(": ").concat(cause.message().as_str()),
                ),
            ),
        };
    }
    Err(
        ProviderError::ConfigError(
            String::from_str("Provider '").concat(config.name.as_str()).concat(
                "' requires api_key or api_key_path for ApiKey auth",
            ),
        ),
    )
}

/// The credential that a backend's adapter is constructed with.
pub fn resolve_credential(config: &ProviderConfig, files: &LocalFiles) -> (r: Result<String, ProviderError>)
    ensures
        key_outcome(r) == credential_of(config@, files@),
{
    match config.auth_type {
        AuthType::ApiKey => resolve_api_key(config, files),
        AuthType::OAuth => match &config.oauth_provider {
            Some(entry) => Ok(entry.clone()),
            None => Ok(config.name.clone()),
        },
    }
}

/// The file that the build consults for an entry, if it consults one: the file to
/// read and record before the registry is built.
pub fn credential_file(config: &ProviderConfig, files: &LocalFiles) -> (r: Option<String>)
    ensures
        r.deep_view() == file_consulted(config@, files@.home),
{
    if !config.is_enabled() {
        return None;
    }
    match config.auth_type {
        AuthType::OAuth => None,
        AuthType::ApiKey => {
            if let Some(api_key) = &config.api_key {
                if !trim(api_key.as_str()).is_empty() {
                    return None;
                }
            }
            match &config.api_key_path {
                Some(path) => expand_home(path.as_str(), files),
                None => None,
            }
        },
    }
}

} // verus!
