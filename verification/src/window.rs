//! What the buttons of the local AnyMio window decide: the values they
//! store from the text typed into the window, and the texts it shows. The
//! window itself is drawn by the program around this library.
use vstd::prelude::*;

use crate::config::KnownDevice;
use crate::consent::{ConsentRequest, ConsentStore};
use crate::events::newest_first;
use crate::text::{is_blank, is_blank_text, push_str, trim, trim_text};

verus! {

/// Number of consent requests that the window lists.
pub const LISTED_REQUESTS: usize = 5;

/// The relay URL that "save relay" stores: the trimmed draft, or none when
/// the draft is blank.
pub fn relay_url_from_draft(draft: &str) -> (url: Option<String>)
    ensures
        is_blank_text(draft@) ==> url is None,
        !is_blank_text(draft@) ==> (url matches Some(u) && u@ == trim_text(draft@)),
{
    if is_blank(draft) {
        None
    } else {
        Some(trim(draft).to_owned())
    }
}

/// The device that "save device" remembers: the trimmed ID and name, with
/// no key fingerprint and never seen.
pub fn device_from_drafts(id_draft: &str, name_draft: &str) -> (device: KnownDevice)
    ensures
        device.public_id@ == trim_text(id_draft@),
        device.display_name@ == trim_text(name_draft@),
        device.public_key_fingerprint is None,
        device.last_seen_unix is None,
{
    KnownDevice {
        public_id: trim(id_draft).to_owned(),
        display_name: trim(name_draft).to_owned(),
        public_key_fingerprint: None,
        last_seen_unix: None,
    }
}

/// The text shown once an update check finished: the newer version found,
/// none, or why the check failed.
pub open spec fn spec_update_check_message(outcome: Result<Option<Seq<char>>, Seq<char>>) -> Seq<
    char,
> {
    match outcome {
        Ok(Some(version)) => "Nueva versión "@ + version + " disponible."@,
        Ok(None) => "Ya tienes la versión más reciente."@,
        Err(error) => "No se pudo comprobar: "@ + error,
    }
}

/// The texts of an update check's outcome.
pub open spec fn outcome_text(outcome: Result<Option<String>, String>) -> Result<
    Option<Seq<char>>,
    Seq<char>,
> {
    match outcome {
        Ok(Some(version)) => Ok(Some(version@)),
        Ok(None) => Ok(None),
        Err(error) => Err(error@),
    }
}

/// The text shown once an update check finished, given the newer version
/// found or the error's text.
pub fn update_check_message(outcome: &Result<Option<String>, String>) -> (message: String)
    ensures
        message@ == spec_update_check_message(outcome_text(*outcome)),
{
    match outcome {
        Ok(Some(version)) => {
            let mut message = "Nueva versión ".to_owned();
            push_str(&mut message, version.as_str());
            push_str(&mut message, " disponible.");
            message
        },
        Ok(None) => "Ya tienes la versión más reciente.".to_owned(),
        Err(error) => {
            let mut message = "No se pudo comprobar: ".to_owned();
            push_str(&mut message, error.as_str());
            message
        },
    }
}

impl ConsentStore {
    /// The newest `limit` requests, newest first.
    pub fn recent(&self, limit: usize) -> (newest: Vec<&ConsentRequest>)
        ensures
            newest@.len() == newest_first(self.requests@, limit as nat).len(),
            forall|i: int|
                0 <= i < newest@.len() ==> *#[trigger] newest@[i] == newest_first(
                    self.requests@,
                    limit as nat,
                )[i],
    {
        let n = self.requests.len();
        let mut newest: Vec<&ConsentRequest> = Vec::new();
        while newest.len() < limit && newest.len() < n
            invariant
                n == self.requests@.len(),
                newest@.len() <= limit,
                newest@.len() <= n,
                forall|i: int|
                    0 <= i < newest@.len() ==> *#[trigger] newest@[i] == self.requests@[n - 1 - i],
            decreases n - newest@.len(),
        {
            let i = n - 1 - newest.len();
            newest.push(&self.requests[i]);
        }
        newest
    }
}

} // verus!
