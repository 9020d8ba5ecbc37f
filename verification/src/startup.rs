//! Which release manifest the application consults.
use vstd::prelude::*;

use crate::config::UpdateChannel;
use crate::text::{is_blank, is_blank_text};

verus! {

/// Manifest of the stable channel.
pub const DEFAULT_UPDATE_MANIFEST_URL: &'static str =
    "https://raw.githubusercontent.com/J0NAsM/AnyMio/main/update.json";

/// Manifest of the beta channel.
pub const BETA_UPDATE_MANIFEST_URL: &'static str =
    "https://raw.githubusercontent.com/J0NAsM/AnyMio/main/update-beta.json";

/// The manifest URL, by priority: the command line, then a non-blank
/// environment setting, then the URL built into the executable, then the
/// default of the update channel.
pub open spec fn spec_manifest_url(
    command_line: Option<Seq<char>>,
    environment: Option<Seq<char>>,
    built_in: Option<Seq<char>>,
    channel: UpdateChannel,
) -> Seq<char> {
    match command_line {
        Some(url) => url,
        None => match environment {
            Some(url) if !is_blank_text(url) => url,
            _ => match built_in {
                Some(url) => url,
                None => match channel {
                    UpdateChannel::Stable => DEFAULT_UPDATE_MANIFEST_URL@,
                    UpdateChannel::Beta => BETA_UPDATE_MANIFEST_URL@,
                },
            },
        },
    }
}

/// The text of an optional string.
pub open spec fn text_of(s: Option<String>) -> Option<Seq<char>> {
    match s {
        Some(t) => Some(t@),
        None => None,
    }
}

/// The text of an optional string slice.
pub open spec fn str_text_of(s: Option<&str>) -> Option<Seq<char>> {
    match s {
        Some(t) => Some(t@),
        None => None,
    }
}

/// Chooses the manifest URL from the command line, the environment, the
/// URL built into the executable and the update channel.
pub fn configured_update_manifest_url(
    command_line: Option<String>,
    environment: Option<String>,
    built_in: Option<&str>,
    channel: UpdateChannel,
) -> (url: String)
    ensures
        url@ == spec_manifest_url(
            text_of(command_line),
            text_of(environment),
            str_text_of(built_in),
            channel,
        ),
        command_line matches Some(u) ==> url@ == u@,
{
    if let Some(url) = command_line {
        return url;
    }
    if let Some(url) = environment {
        if !is_blank(url.as_str()) {
            return url;
        }
    }
    if let Some(url) = built_in {
        return url.to_owned();
    }
    match channel {
        UpdateChannel::Stable => DEFAULT_UPDATE_MANIFEST_URL.to_owned(),
        UpdateChannel::Beta => BETA_UPDATE_MANIFEST_URL.to_owned(),
    }
}

/// The manifest URL by priority: a command-line URL always wins; the
/// environment setting counts only without one, and only when it is not
/// blank; then the built-in URL; then the channel's default manifest.
pub proof fn law_manifest_url_priority(
    command_line: Option<Seq<char>>,
    environment: Option<Seq<char>>,
    built_in: Option<Seq<char>>,
    channel: UpdateChannel,
)
    ensures
        command_line is Some ==> spec_manifest_url(command_line, environment, built_in, channel)
            == command_line->0,
        (command_line is None && environment is Some && !is_blank_text(environment->0))
            ==> spec_manifest_url(command_line, environment, built_in, channel) == environment->0,
        (command_line is None && !(environment is Some && !is_blank_text(environment->0))
            && built_in is Some) ==> spec_manifest_url(command_line, environment, built_in, channel)
            == built_in->0,
        (command_line is None && !(environment is Some && !is_blank_text(environment->0))
            && built_in is None && channel == UpdateChannel::Stable) ==> spec_manifest_url(
            command_line,
            environment,
            built_in,
            channel,
        ) == DEFAULT_UPDATE_MANIFEST_URL@,
        (command_line is None && !(environment is Some && !is_blank_text(environment->0))
            && built_in is None && channel == UpdateChannel::Beta) ==> spec_manifest_url(
            command_line,
            environment,
            built_in,
            channel,
        ) == BETA_UPDATE_MANIFEST_URL@,
{
}

} // verus!
