//! The update check: what a release record says, and what is announced about it.

use vstd::prelude::*;
use vstd::string::*;
use crate::text::{same_text, texts};

verus! {

/// The version of this program.
pub const VERSION: &'static str = "0.0.1u2";

/// The version of this program as a release tag spells it.
pub const TAGGED_VERSION: &'static str = "v0.0.1u2";

/// Declares `serde_json::Value`, a JSON value. Nothing inside it is visible to the
/// verifier; what is read out of one is named by [`text_members`].
#[verifier::external_type_specification]
#[verifier::external_body]
pub struct ExJsonValue(serde_json::Value);

/// The members of a JSON object whose values are strings, by name. A value that is no
/// object has none.
pub uninterp spec fn text_members(value: serde_json::Value) -> Map<Seq<char>, Seq<char>>;

/// Reads the member `name` of `value` as text, by `serde_json::Value`'s index operator and
/// `as_str`. Not proved: that the text comes back exactly where `value` is an object that
/// holds `name` with a string as its value, and is then that string.
#[verifier::external_body]
fn text_member(value: &serde_json::Value, name: &str) -> (r: Option<String>)
    ensures
        r is Some <==> text_members(*value).contains_key(name@),
        r matches Some(text) ==> text@ == text_members(*value)[name@],
{
    value[name].as_str().map(String::from)
}

/// The entry of `members` under `name`, if there is one.
pub open spec fn member(members: Map<Seq<char>, Seq<char>>, name: Seq<char>) -> Option<
    Seq<char>,
> {
    if members.contains_key(name) {
        Some(members[name])
    } else {
        None
    }
}

/// The tag of a release, or `unknown` where the record names none.
pub open spec fn tag_or_unknown(tag: Option<Seq<char>>) -> Seq<char> {
    match tag {
        Some(tag) => tag,
        None => "unknown"@,
    }
}

/// The title of a release, or `No title` where the record gives none.
pub open spec fn title_or_none(title: Option<Seq<char>>) -> Seq<char> {
    match title {
        Some(title) => title,
        None => "No title"@,
    }
}

/// Whether the release tagged `latest` is announced as new. It is unless the tag equals
/// both spellings of this program's version at once.
pub open spec fn update_due(latest: Seq<char>) -> bool {
    latest != VERSION@ || latest != TAGGED_VERSION@
}

/// The lines that announce the release tagged `latest` and titled `title`.
pub open spec fn announcement(latest: Seq<char>, title: Seq<char>) -> Seq<Seq<char>> {
    seq!["Latest version: "@ + latest, "Update title: "@ + title] + if update_due(latest) {
        seq![
            "A new version of UltiVM is available: "@ + latest + " - "@ + title,
            "Please update to the latest version."@,
        ]
    } else {
        seq!["You are running the latest version of UltiVM."@]
    }
}

/// Decides [`update_due`].
pub fn is_update_due(latest: &str) -> (r: bool)
    ensures
        r == update_due(latest@),
{
    !same_text(latest, VERSION) || !same_text(latest, TAGGED_VERSION)
}

/// Composes the announcement for a release from its tag and its title, either of which
/// the record may lack.
pub fn announce(tag: Option<String>, title: Option<String>) -> (lines: Vec<String>)
    ensures
        texts(lines@) == announcement(
            tag_or_unknown(
                match tag {
                    Some(t) => Some(t@),
                    None => None,
                },
            ),
            title_or_none(
                match title {
                    Some(t) => Some(t@),
                    None => None,
                },
            ),
        ),
{
    let latest = match tag {
        Some(tag) => tag,
        None => String::from_str("unknown"),
    };
    let title = match title {
        Some(title) => title,
        None => String::from_str("No title"),
    };
    let mut lines: Vec<String> = Vec::new();
    let mut first = String::from_str("Latest version: ");
    first.append(latest.as_str());
    lines.push(first);
    let mut second = String::from_str("Update title: ");
    second.append(title.as_str());
    lines.push(second);
    if is_update_due(latest.as_str()) {
        let mut third = String::from_str("A new version of UltiVM is available: ");
        third.append(latest.as_str());
        third.append(" - ");
        third.append(title.as_str());
        lines.push(third);
        lines.push(String::from_str("Please update to the latest version."));
    } else {
        lines.push(String::from_str("You are running the latest version of UltiVM."));
    }
    assert(texts(lines@) =~= announcement(latest@, title@));
    lines
}

/// Composes the announcement for the release record `release`: its tag is the member
/// `tag_name`, its title the member `name`.
pub fn announce_release(release: &serde_json::Value) -> (lines: Vec<String>)
    ensures
        texts(lines@) == announcement(
            tag_or_unknown(member(text_members(*release), "tag_name"@)),
            title_or_none(member(text_members(*release), "name"@)),
        ),
{
    let tag = text_member(release, "tag_name");
    let title = text_member(release, "name");
    announce(tag, title)
}

/// The two spellings of the version differ, so no tag equals both: every release is
/// announced as new.
pub proof fn lemma_update_always_due(latest: Seq<char>)
    ensures
        update_due(latest),
{
    reveal_strlit("0.0.1u2");
    reveal_strlit("v0.0.1u2");
    assert(VERSION@.len() != TAGGED_VERSION@.len());
}

} // verus!
