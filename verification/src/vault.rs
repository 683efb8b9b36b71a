//! The credential vault: an access token and an optional refresh token per
//! profile, each kept as an entry of its own in the operating system's
//! credential store.

use crate::text::{
    contains, find, is_space, lowered, text_of, to_lower, trim, trimmed,
    trimmed_is_empty_iff_all_space, trimmed_is_idempotent,
};
use vstd::prelude::*;

verus! {

/// The service under which every entry of the application is stored.
pub const KEYCHAIN_SERVICE: &'static str = "ken-desktop";

/// The two tokens that are kept per profile.
#[derive(Clone, Copy, Debug, PartialEq, Eq, Structural)]
pub enum TokenKind {
    Access,
    Refresh,
}

impl TokenKind {
    /// The kind's name, as it stands in account names and messages.
    pub open spec fn label_text(self) -> Seq<char> {
        match self {
            TokenKind::Access => "access"@,
            TokenKind::Refresh => "refresh"@,
        }
    }

    /// The kind's name, as it stands in account names and messages.
    pub fn label(self) -> (name: &'static str)
        ensures
            name@ == self.label_text(),
    {
        match self {
            TokenKind::Access => "access",
            TokenKind::Refresh => "refresh",
        }
    }
}

/// The account name of a profile's token: the profile, a colon, the kind.
pub open spec fn account_name_text(profile_id: Seq<char>, token_kind: Seq<char>) -> Seq<char> {
    profile_id + seq![':'] + token_kind
}

/// The account under which the token of kind `token_kind` of profile
/// `profile_id` is stored.
pub fn account_name(profile_id: &str, token_kind: &str) -> (name: String)
    ensures
        name@ == account_name_text(profile_id@, token_kind@),
{
    let mut name = profile_id.to_owned();
    name.push(':');
    name.append(token_kind);
    name
}

/// A token as it is stored: trimmed, and absent where nothing is left.
pub open spec fn normalized_token(token: Seq<char>) -> Option<Seq<char>> {
    if trimmed(token).len() == 0 {
        None
    } else {
        Some(trimmed(token))
    }
}

/// Trims `token`; a token that is empty or all white space is no token.
pub fn normalize_token(token: &str) -> (normalized: Option<String>)
    ensures
        text_of(normalized) == normalized_token(token@),
{
    let kept = trim(token);
    if kept.as_str().is_empty() {
        return None;
    }
    Some(kept)
}

/// Normalizing a token twice is normalizing it once: what was stored is
/// stored unchanged when it is saved again.
pub proof fn normalized_token_is_stable(token: Seq<char>)
    ensures
        normalized_token(token) matches Some(kept) ==> normalized_token(kept) == Some(kept),
{
    trimmed_is_idempotent(token);
}

/// A token has no normal form exactly when it is white space throughout.
pub proof fn normalized_token_is_none_iff_blank(token: Seq<char>)
    ensures
        normalized_token(token) is None <==> (forall|i: int|
            0 <= i < token.len() ==> is_space(#[trigger] token[i])),
{
    trimmed_is_empty_iff_all_space(token);
}

/// The accounts of the two kinds of token never coincide, whatever the
/// profiles: an account name gives back its profile and its kind.
pub proof fn account_names_are_distinct(
    first_profile: Seq<char>,
    first_kind: TokenKind,
    second_profile: Seq<char>,
    second_kind: TokenKind,
)
    requires
        account_name_text(first_profile, first_kind.label_text()) == account_name_text(
            second_profile,
            second_kind.label_text(),
        ),
    ensures
        first_profile == second_profile,
        first_kind == second_kind,
{
    reveal_strlit("access");
    reveal_strlit("refresh");
    let first = account_name_text(first_profile, first_kind.label_text());
    let second = account_name_text(second_profile, second_kind.label_text());
    assert(first.len() == first_profile.len() + 1 + first_kind.label_text().len());
    assert(second.len() == second_profile.len() + 1 + second_kind.label_text().len());
    if first_kind != second_kind {
        assert(first.last() == first_kind.label_text().last());
        assert(second.last() == second_kind.label_text().last());
        assert("access"@.last() == 's');
        assert("refresh"@.last() == 'h');
    }
    assert(first_profile.len() == second_profile.len());
    assert(first_profile =~= first.subrange(0, first_profile.len() as int));
    assert(second_profile =~= second.subrange(0, second_profile.len() as int));
}

/// The text of a store error says that the entry does not exist. Stores word
/// this in their own ways and none of them is binding, so the test is a
/// generous one: whatever the case of its letters, the text holds `no entry`,
/// `no matching entry` or `item not found`. Every other text is a failure.
pub open spec fn is_absence_text(rendered: Seq<char>) -> bool {
    let folded = lowered(rendered);
    ||| contains(folded, "no entry"@)
    ||| contains(folded, "no matching entry"@)
    ||| contains(folded, "item not found"@)
}

/// Whether a store error, given as its text, reports a missing entry rather
/// than a failure.
pub fn is_missing_keychain_entry(rendered: &str) -> (missing: bool)
    ensures
        missing == is_absence_text(rendered@),
{
    let folded = to_lower(rendered);
    find(folded.as_str(), "no entry") || find(folded.as_str(), "no matching entry") || find(
        folded.as_str(),
        "item not found",
    )
}

/// `keyring::Entry`, the handle of one entry of the credential store. Nothing
/// of its inside is read here.
#[verifier::external_type_specification]
#[verifier::external_body]
pub struct ExEntry(keyring::Entry);

/// `keyring::Error`, an error of the credential store. It is read as text
/// only, through its `Display`.
#[verifier::external_type_specification]
#[verifier::external_body]
pub struct ExStoreError(keyring::Error);

/// `keyring::Entry::new` makes the handle of the entry of a service and a
/// user, or fails. Which of the two is the store's matter: nothing is claimed.
pub assume_specification[ keyring::Entry::new ](service: &str, user: &str) -> (opened:
    keyring::Result<keyring::Entry>)
;

/// `keyring::Entry::set_password` stores a secret in the entry, or fails.
/// Nothing is claimed of the outcome.
pub assume_specification[ keyring::Entry::set_password ](
    entry: &keyring::Entry,
    password: &str,
) -> (written: keyring::Result<()>)
;

/// `keyring::Entry::get_password` reads the entry's secret, or fails.
/// Nothing is claimed of the outcome.
pub assume_specification[ keyring::Entry::get_password ](entry: &keyring::Entry) -> (read:
    keyring::Result<String>)
;

/// `keyring::Entry::delete_password` removes the entry from the store, or
/// fails. Nothing is claimed of the outcome.
pub assume_specification[ keyring::Entry::delete_password ](entry: &keyring::Entry) -> (deleted:
    keyring::Result<()>)
;

/// The message of a save that was given no access token.
pub open spec fn access_required_text() -> Seq<char> {
    "Access token is required."@
}

/// The message of a failure to get hold of an entry, with the store's words.
pub open spec fn store_access_failure(detail: Seq<char>) -> Seq<char> {
    "Unable to access keychain entry: "@ + detail
}

/// The message of a failed write of a token, with the store's words.
pub open spec fn save_failure(kind: TokenKind, detail: Seq<char>) -> Seq<char> {
    "Unable to save "@ + kind.label_text() + " token: "@ + detail
}

/// The message of a failed read of a token, with the store's words.
pub open spec fn read_failure(kind: TokenKind, detail: Seq<char>) -> Seq<char> {
    "Unable to read "@ + kind.label_text() + " token: "@ + detail
}

/// The message of a failed removal of an entry, with the store's words.
pub open spec fn clear_failure(detail: Seq<char>) -> Seq<char> {
    "Unable to clear keychain entry: "@ + detail
}

/// The view of what a write or a removal came to.
pub open spec fn done_view(reply: Result<(), String>) -> Result<(), Seq<char>> {
    match reply {
        Ok(()) => Ok(()),
        Err(message) => Err(message@),
    }
}

/// The view of what a read came to, as the store gave it.
pub open spec fn read_view(reply: Result<String, String>) -> Result<Seq<char>, Seq<char>> {
    match reply {
        Ok(secret) => Ok(secret@),
        Err(message) => Err(message@),
    }
}

/// The view of what a read came to, a missing entry told apart.
pub open spec fn found_view(outcome: Result<Option<String>, String>) -> Result<
    Option<Seq<char>>,
    Seq<char>,
> {
    match outcome {
        Ok(secret) => Ok(text_of(secret)),
        Err(message) => Err(message@),
    }
}

/// What a write of a token comes to: every error of the store is a failure.
pub open spec fn write_result(kind: TokenKind, reply: Result<(), Seq<char>>) -> Result<
    (),
    Seq<char>,
> {
    match reply {
        Ok(()) => Ok(()),
        Err(detail) => Err(save_failure(kind, detail)),
    }
}

/// What a read of a token comes to: a missing entry is no token, every other
/// error of the store is a failure.
pub open spec fn read_result(kind: TokenKind, reply: Result<Seq<char>, Seq<char>>) -> Result<
    Option<Seq<char>>,
    Seq<char>,
> {
    match reply {
        Ok(secret) => Ok(Some(secret)),
        Err(detail) => if is_absence_text(detail) {
            Ok(None)
        } else {
            Err(read_failure(kind, detail))
        },
    }
}

/// What a removal comes to: a missing entry counts as removed, every other
/// error of the store is a failure.
pub open spec fn delete_result(reply: Result<(), Seq<char>>) -> Result<(), Seq<char>> {
    match reply {
        Ok(()) => Ok(()),
        Err(detail) => if is_absence_text(detail) {
            Ok(())
        } else {
            Err(clear_failure(detail))
        },
    }
}

/// `lead` followed by `detail`.
fn describe(lead: &str, detail: &str) -> (message: String)
    ensures
        message@ == lead@ + detail@,
{
    let mut message = lead.to_owned();
    message.append(detail);
    message
}

/// `lead`, the kind's name, `" token: "` and `detail`.
fn describe_token(lead: &str, kind: TokenKind, detail: &str) -> (message: String)
    ensures
        message@ == lead@ + kind.label_text() + " token: "@ + detail@,
{
    let mut message = lead.to_owned();
    message.append(kind.label());
    message.append(" token: ");
    message.append(detail);
    message
}

/// Judges the store's reply to a write of the token of kind `kind`. An error
/// is given as the store's text.
pub fn write_outcome(kind: TokenKind, reply: Result<(), String>) -> (outcome: Result<(), String>)
    ensures
        done_view(outcome) == write_result(kind, done_view(reply)),
{
    match reply {
        Ok(()) => Ok(()),
        Err(detail) => Err(describe_token("Unable to save ", kind, detail.as_str())),
    }
}

/// Judges the store's reply to a read of the token of kind `kind`. An error
/// is given as the store's text.
pub fn read_outcome(kind: TokenKind, reply: Result<String, String>) -> (outcome: Result<
    Option<String>,
    String,
>)
    ensures
        found_view(outcome) == read_result(kind, read_view(reply)),
{
    match reply {
        Ok(secret) => Ok(Some(secret)),
        Err(detail) => {
            if is_missing_keychain_entry(detail.as_str()) {
                Ok(None)
            } else {
                Err(describe_token("Unable to read ", kind, detail.as_str()))
            }
        },
    }
}

/// Judges the store's reply to a removal. An error is given as the store's
/// text.
pub fn delete_outcome(reply: Result<(), String>) -> (outcome: Result<(), String>)
    ensures
        done_view(outcome) == delete_result(done_view(reply)),
{
    match reply {
        Ok(()) => Ok(()),
        Err(detail) => {
            if is_missing_keychain_entry(detail.as_str()) {
                Ok(())
            } else {
                Err(describe("Unable to clear keychain entry: ", detail.as_str()))
            }
        },
    }
}

/// The tokens of a profile, as a load gives them.
#[derive(Debug, PartialEq, Eq)]
pub struct AuthTokens {
    pub access_token: String,
    pub refresh_token: Option<String>,
}

/// The refresh token that a save writes: the given one, normalized. Where
/// none is given, or nothing is left of it, the save removes the entry.
pub open spec fn refresh_to_store_text(refresh_token: Option<Seq<char>>) -> Option<Seq<char>> {
    match refresh_token {
        Some(token) => normalized_token(token),
        None => None,
    }
}

/// The refresh token that a save writes, or `None` where it removes the entry.
pub fn refresh_to_store(refresh_token: &Option<String>) -> (kept: Option<String>)
    ensures
        text_of(kept) == refresh_to_store_text(text_of(*refresh_token)),
{
    match refresh_token {
        Some(token) => normalize_token(token.as_str()),
        None => None,
    }
}

/// `message` reports that an entry could not be got hold of.
pub open spec fn is_store_access_failure(message: Seq<char>) -> bool {
    exists|detail: Seq<char>| message == #[trigger] store_access_failure(detail)
}

/// `message` reports a failed write of the token of kind `kind`.
pub open spec fn is_save_failure(kind: TokenKind, message: Seq<char>) -> bool {
    exists|detail: Seq<char>| message == #[trigger] save_failure(kind, detail)
}

/// `message` reports a failed read of the token of kind `kind`, and the
/// store's words in it do not speak of a missing entry.
pub open spec fn is_read_failure(kind: TokenKind, message: Seq<char>) -> bool {
    exists|detail: Seq<char>|
        message == #[trigger] read_failure(kind, detail) && !is_absence_text(detail)
}

/// `message` reports a failed removal, and the store's words in it do not
/// speak of a missing entry.
pub open spec fn is_clear_failure(message: Seq<char>) -> bool {
    exists|detail: Seq<char>| message == #[trigger] clear_failure(detail) && !is_absence_text(detail)
}

/// The handle of one entry of the credential store, together with the
/// service and the account that it was asked for.
#[derive(Debug)]
pub struct KeychainEntry {
    service: &'static str,
    account: String,
    handle: keyring::Entry,
}

impl KeychainEntry {
    /// The service that the entry was asked for.
    pub closed spec fn service_text(&self) -> Seq<char> {
        self.service@
    }

    /// The account that the entry was asked for.
    pub closed spec fn account_text(&self) -> Seq<char> {
        self.account@
    }

    /// The service that the entry was asked for.
    pub fn service(&self) -> (name: &str)
        ensures
            name@ == self.service_text(),
    {
        self.service
    }

    /// The account that the entry was asked for.
    pub fn account(&self) -> (name: &str)
        ensures
            name@ == self.account_text(),
    {
        self.account.as_str()
    }
}

/// The entry that holds the token of kind `kind` of profile `profile_id`: the
/// store is asked for the entry of the application's service and of the
/// account that `account_name` derives. Whether the store hands it out is the
/// store's matter; where it does not, the message carries the store's words.
pub fn keychain_entry(profile_id: &str, kind: TokenKind) -> (opened: Result<
    KeychainEntry,
    String,
>)
    ensures
        match opened {
            Ok(entry) => {
                &&& entry.service_text() == KEYCHAIN_SERVICE@
                &&& entry.account_text() == account_name_text(profile_id@, kind.label_text())
            },
            Err(message) => is_store_access_failure(message@),
        },
{
    let account = account_name(profile_id, kind.label());
    match keyring::Entry::new(KEYCHAIN_SERVICE, account.as_str()) {
        Ok(handle) => Ok(KeychainEntry { service: KEYCHAIN_SERVICE, account, handle }),
        Err(error) => {
            let detail = error.to_string();
            let message = describe("Unable to access keychain entry: ", detail.as_str());
            assert(message@ == store_access_failure(detail@));
            Err(message)
        },
    }
}

/// Writes `secret` to `entry`, which holds the token of kind `kind`.
fn write_entry(entry: &KeychainEntry, kind: TokenKind, secret: &str) -> (outcome: Result<
    (),
    String,
>)
    ensures
        outcome matches Err(message) ==> is_save_failure(kind, message@),
{
    let reply = match entry.handle.set_password(secret) {
        Ok(()) => Ok(()),
        Err(error) => Err(error.to_string()),
    };
    let ghost given = done_view(reply);
    let outcome = write_outcome(kind, reply);
    proof {
        if let Err(detail) = given {
            assert(outcome->Err_0@ == save_failure(kind, detail));
        }
    }
    outcome
}

/// Reads `entry`, which holds the token of kind `kind`. A missing entry is
/// `Ok(None)`.
fn read_entry(entry: &KeychainEntry, kind: TokenKind) -> (outcome: Result<Option<String>, String>)
    ensures
        outcome matches Err(message) ==> is_read_failure(kind, message@),
{
    let reply = match entry.handle.get_password() {
        Ok(secret) => Ok(secret),
        Err(error) => Err(error.to_string()),
    };
    let ghost given = read_view(reply);
    let outcome = read_outcome(kind, reply);
    proof {
        if let Err(detail) = given {
            if !is_absence_text(detail) {
                assert(outcome->Err_0@ == read_failure(kind, detail));
            }
        }
    }
    outcome
}

/// Removes `entry` from the store. That it was not there is no failure.
pub fn delete_if_present(entry: &KeychainEntry) -> (outcome: Result<(), String>)
    ensures
        outcome matches Err(message) ==> is_clear_failure(message@),
{
    let reply = match entry.handle.delete_password() {
        Ok(()) => Ok(()),
        Err(error) => Err(error.to_string()),
    };
    let ghost given = done_view(reply);
    let outcome = delete_outcome(reply);
    proof {
        if let Err(detail) = given {
            if !is_absence_text(detail) {
                assert(outcome->Err_0@ == clear_failure(detail));
            }
        }
    }
    outcome
}

/// What a save may come to. Without an access token it fails, and says so.
/// With one, it succeeds or fails as the store does: on getting hold of an
/// entry, on writing the access token, and then on writing the refresh token
/// or, where there is none to write, on removing its entry.
pub open spec fn save_outcome_allowed(
    access_token: Seq<char>,
    refresh_token: Option<Seq<char>>,
    outcome: Result<(), Seq<char>>,
) -> bool {
    match normalized_token(access_token) {
        None => outcome == Err::<(), Seq<char>>(access_required_text()),
        Some(_) => match outcome {
            Ok(()) => true,
            Err(message) => {
                ||| is_store_access_failure(message)
                ||| is_save_failure(TokenKind::Access, message)
                ||| (refresh_to_store_text(refresh_token) is Some && is_save_failure(
                    TokenKind::Refresh,
                    message,
                ))
                ||| (refresh_to_store_text(refresh_token) is None && is_clear_failure(message))
            },
        },
    }
}

/// Stores the tokens of profile `profile_id`: the access token, trimmed, and
/// then the refresh token, trimmed. Where no refresh token is given, or
/// nothing is left of it, its entry is removed instead. The first failure
/// ends the save; what was written before it stays.
pub fn save_auth_tokens(
    profile_id: String,
    access_token: String,
    refresh_token: Option<String>,
) -> (outcome: Result<(), String>)
    ensures
        save_outcome_allowed(access_token@, text_of(refresh_token), done_view(outcome)),
{
    let access = match normalize_token(access_token.as_str()) {
        Some(token) => token,
        None => {
            return Err("Access token is required.".to_owned());
        },
    };
    let access_entry = match keychain_entry(profile_id.as_str(), TokenKind::Access) {
        Ok(entry) => entry,
        Err(message) => {
            return Err(message);
        },
    };
    match write_entry(&access_entry, TokenKind::Access, access.as_str()) {
        Ok(()) => {},
        Err(message) => {
            return Err(message);
        },
    }
    let refresh_entry = match keychain_entry(profile_id.as_str(), TokenKind::Refresh) {
        Ok(entry) => entry,
        Err(message) => {
            return Err(message);
        },
    };
    match refresh_to_store(&refresh_token) {
        Some(refresh) => write_entry(&refresh_entry, TokenKind::Refresh, refresh.as_str()),
        None => delete_if_present(&refresh_entry),
    }
}

/// What a load comes to once the access token has been found, from what
/// reading the refresh token came to: the two tokens, the access token alone
/// where there is no refresh token, or the failure of that read.
pub fn loaded_tokens(access_token: String, refresh: Result<Option<String>, String>) -> (outcome:
    Result<Option<AuthTokens>, String>)
    ensures
        match refresh {
            Ok(refresh_token) => outcome == Ok::<Option<AuthTokens>, String>(
                Some((AuthTokens { access_token, refresh_token })),
            ),
            Err(message) => outcome == Err::<Option<AuthTokens>, String>(message),
        },
{
    match refresh {
        Ok(refresh_token) => Ok(Some(AuthTokens { access_token, refresh_token })),
        Err(message) => Err(message),
    }
}

/// What a load may come to: the tokens, or none where the access token is
/// missing, or a failure of the store on getting hold of an entry or on
/// reading one.
pub open spec fn load_outcome_allowed(outcome: Result<Option<AuthTokens>, String>) -> bool {
    match outcome {
        Ok(_) => true,
        Err(message) => {
            ||| is_store_access_failure(message@)
            ||| is_read_failure(TokenKind::Access, message@)
            ||| is_read_failure(TokenKind::Refresh, message@)
        },
    }
}

/// Loads the tokens of profile `profile_id`. Without a stored access token
/// there are none, and the refresh token is not read. A missing refresh token
/// alone leaves the access token standing.
pub fn load_auth_tokens(profile_id: String) -> (outcome: Result<Option<AuthTokens>, String>)
    ensures
        load_outcome_allowed(outcome),
{
    let access_entry = match keychain_entry(profile_id.as_str(), TokenKind::Access) {
        Ok(entry) => entry,
        Err(message) => {
            return Err(message);
        },
    };
    let access_token = match read_entry(&access_entry, TokenKind::Access) {
        Ok(Some(token)) => token,
        Ok(None) => {
            return Ok(None);
        },
        Err(message) => {
            return Err(message);
        },
    };
    let refresh_entry = match keychain_entry(profile_id.as_str(), TokenKind::Refresh) {
        Ok(entry) => entry,
        Err(message) => {
            return Err(message);
        },
    };
    loaded_tokens(access_token, read_entry(&refresh_entry, TokenKind::Refresh))
}

/// What a clear may come to: success, or a failure of the store on getting
/// hold of an entry or on removing one.
pub open spec fn clear_outcome_allowed(outcome: Result<(), Seq<char>>) -> bool {
    match outcome {
        Ok(()) => true,
        Err(message) => is_store_access_failure(message) || is_clear_failure(message),
    }
}

/// Removes the tokens of profile `profile_id`: the access token first, then
/// the refresh token. That one was not there is no failure; the first failure
/// ends the clear.
pub fn clear_auth_tokens(profile_id: String) -> (outcome: Result<(), String>)
    ensures
        clear_outcome_allowed(done_view(outcome)),
{
    let access_entry = match keychain_entry(profile_id.as_str(), TokenKind::Access) {
        Ok(entry) => entry,
        Err(message) => {
            return Err(message);
        },
    };
    match delete_if_present(&access_entry) {
        Ok(()) => {},
        Err(message) => {
            return Err(message);
        },
    }
    let refresh_entry = match keychain_entry(profile_id.as_str(), TokenKind::Refresh) {
        Ok(entry) => entry,
        Err(message) => {
            return Err(message);
        },
    };
    delete_if_present(&refresh_entry)
}

} // verus!
