//! Decoding the text of a configuration into a record.
//!
//! The text is handed to the JSON decoder; what this module decides is which
//! members of the decoded document make a record, and which failure is
//! reported when they do not. No range is checked here: a record that decodes
//! may still hold a group that [`ClusterMap::validate`] refuses.

use vstd::prelude::*;
use vstd::string::StringExecFns;
use crate::json::{
    decode, error_text, json_decoded, json_error_text, json_integer, json_member, json_string,
    member,
};
use crate::record::{ClusterMap, ClusterMapView};

verus! {

/// A member that a configuration must have.
#[derive(Debug, Clone, Copy, PartialEq, Eq)]
pub enum Field {
    /// The member `name`, a string.
    Name,
    /// The member `group`, an integer of 32 bits.
    Group,
}

impl Field {
    /// The key under which a document holds this member.
    pub open spec fn key_text(self) -> Seq<char> {
        match self {
            Field::Name => "name"@,
            Field::Group => "group"@,
        }
    }

    /// The key under which a document holds this member.
    pub fn key(&self) -> (r: &'static str)
        ensures
            r@ == self.key_text(),
    {
        match self {
            Field::Name => "name",
            Field::Group => "group",
        }
    }
}

/// Why a text is not the text of a record.
#[derive(Debug, PartialEq, Eq)]
pub enum ParseFailure {
    /// The text is not well-formed JSON; holds the decoder's message.
    Malformed(String),
    /// The document is no object, or is one without this member.
    MissingField(Field),
    /// The member is there, but `name` is no string, or `group` is no integer
    /// that fits 32 bits.
    InvalidField(Field),
}

/// What a [`ParseFailure`] stands for.
pub ghost enum ParseFailureView {
    Malformed(Seq<char>),
    MissingField(Field),
    InvalidField(Field),
}

impl View for ParseFailure {
    type V = ParseFailureView;

    open spec fn view(&self) -> ParseFailureView {
        match self {
            ParseFailure::Malformed(cause) => ParseFailureView::Malformed(cause@),
            ParseFailure::MissingField(field) => ParseFailureView::MissingField(*field),
            ParseFailure::InvalidField(field) => ParseFailureView::InvalidField(*field),
        }
    }
}

impl ParseFailureView {
    /// What [`ParseFailure::message`] says.
    pub open spec fn message_text(self) -> Seq<char> {
        match self {
            ParseFailureView::Malformed(cause) => cause,
            ParseFailureView::MissingField(field) => "missing field `"@ + field.key_text() + "`"@,
            ParseFailureView::InvalidField(field) => "invalid field `"@ + field.key_text() + "`"@,
        }
    }
}

impl ParseFailure {
    /// The failure in words: the decoder's message for text that is not
    /// well-formed, else the member at fault, as in ``missing field `group` ``.
    pub fn message(&self) -> (r: String)
        ensures
            r@ == self@.message_text(),
    {
        match self {
            ParseFailure::Malformed(cause) => cause.clone(),
            ParseFailure::MissingField(field) => {
                let mut text: String = String::from_str("missing field `");
                text.append(field.key());
                text.append("`");
                text
            },
            ParseFailure::InvalidField(field) => {
                let mut text: String = String::from_str("invalid field `");
                text.append(field.key());
                text.append("`");
                text
            },
        }
    }
}

/// What a document holds under one key, read as a value of type `T`.
#[derive(Debug, PartialEq, Eq)]
pub enum Member<T> {
    /// The document is no object, or has no member under the key.
    Absent,
    /// There is a member under the key, but it is no `T`.
    Mistyped,
    /// The member under the key.
    Present(T),
}

impl View for Member<String> {
    type V = Member<Seq<char>>;

    open spec fn view(&self) -> Member<Seq<char>> {
        match self {
            Member::Absent => Member::Absent,
            Member::Mistyped => Member::Mistyped,
            Member::Present(s) => Member::Present(s@),
        }
    }
}

/// The string that `doc` holds under `key`.
pub open spec fn document_string(doc: serde_json::Value, key: Seq<char>) -> Member<Seq<char>> {
    match json_member(doc, key) {
        None => Member::Absent,
        Some(value) => match json_string(value) {
            None => Member::Mistyped,
            Some(s) => Member::Present(s),
        },
    }
}

/// The integer that `doc` holds under `key`.
pub open spec fn document_integer(doc: serde_json::Value, key: Seq<char>) -> Member<i64> {
    match json_member(doc, key) {
        None => Member::Absent,
        Some(value) => match json_integer(value) {
            None => Member::Mistyped,
            Some(n) => Member::Present(n),
        },
    }
}

/// The record that the two members make, or the failure that they call for.
/// The name is looked at first, so a document that lacks both members is
/// reported for its name.
pub open spec fn record_of(name: Member<Seq<char>>, group: Member<i64>) -> Result<
    ClusterMapView,
    ParseFailureView,
> {
    match name {
        Member::Absent => Err(ParseFailureView::MissingField(Field::Name)),
        Member::Mistyped => Err(ParseFailureView::InvalidField(Field::Name)),
        Member::Present(n) => match group {
            Member::Absent => Err(ParseFailureView::MissingField(Field::Group)),
            Member::Mistyped => Err(ParseFailureView::InvalidField(Field::Group)),
            Member::Present(g) => if i32::MIN <= g <= i32::MAX {
                Ok(ClusterMapView { name: n, group: g as i32 })
            } else {
                Err(ParseFailureView::InvalidField(Field::Group))
            },
        },
    }
}

/// Decoding checks no range: a name beside any integer of 32 bits makes a
/// record, whatever the group.
pub proof fn lemma_decoding_checks_no_range(name: Seq<char>, group: i32)
    ensures
        record_of(Member::Present(name), Member::Present(group as i64)) matches Ok(record)
            && record.name == name && record.group == group,
{
}

/// The record that a text decodes to, or the failure with which it is refused.
pub open spec fn parsed(text: Seq<char>) -> Result<ClusterMapView, ParseFailureView> {
    match json_decoded(text) {
        Err(error) => Err(ParseFailureView::Malformed(json_error_text(error))),
        Ok(doc) => record_of(
            document_string(doc, Field::Name.key_text()),
            document_integer(doc, Field::Group.key_text()),
        ),
    }
}

/// What the outcome of decoding stands for.
pub open spec fn parse_view(r: Result<ClusterMap, ParseFailure>) -> Result<
    ClusterMapView,
    ParseFailureView,
> {
    match r {
        Ok(record) => Ok(record@),
        Err(failure) => Err(failure@),
    }
}

/// Reads the string under `key` out of `doc`.
pub(crate) fn string_member(doc: &serde_json::Value, key: &str) -> (r: Member<String>)
    ensures
        r@ == document_string(*doc, key@),
{
    match member(doc, key) {
        None => Member::Absent,
        Some(value) => match value.as_str() {
            None => Member::Mistyped,
            Some(s) => Member::Present(s.to_owned()),
        },
    }
}

/// Reads the integer under `key` out of `doc`.
pub(crate) fn integer_member(doc: &serde_json::Value, key: &str) -> (r: Member<i64>)
    ensures
        r == document_integer(*doc, key@),
{
    match member(doc, key) {
        None => Member::Absent,
        Some(value) => match value.as_i64() {
            None => Member::Mistyped,
            Some(n) => Member::Present(n),
        },
    }
}

/// Makes a record of the two members that a document was found to hold.
///
/// Succeeds exactly when the name is a string and the group an integer that
/// fits 32 bits. Otherwise the first member at fault decides the failure, the
/// name before the group.
pub fn record_from_members(name: Member<String>, group: Member<i64>) -> (r: Result<
    ClusterMap,
    ParseFailure,
>)
    ensures
        parse_view(r) == record_of(name@, group),
{
    let name: String = match name {
        Member::Absent => { return Err(ParseFailure::MissingField(Field::Name)); },
        Member::Mistyped => { return Err(ParseFailure::InvalidField(Field::Name)); },
        Member::Present(s) => s,
    };
    let group: i64 = match group {
        Member::Absent => { return Err(ParseFailure::MissingField(Field::Group)); },
        Member::Mistyped => { return Err(ParseFailure::InvalidField(Field::Group)); },
        Member::Present(n) => n,
    };
    if group < i32::MIN as i64 || group > i32::MAX as i64 {
        return Err(ParseFailure::InvalidField(Field::Group));
    }
    Ok(ClusterMap { name, group: group as i32 })
}

/// Decodes the text of a configuration.
///
/// The text must be one JSON document, an object with a string under `name`
/// and an integer under `group`; other members are passed over. The outcome is
/// the one that [`parsed`] gives for the characters of `text`.
pub fn parse(text: &str) -> (r: Result<ClusterMap, ParseFailure>)
    ensures
        parse_view(r) == parsed(text@),
{
    match decode(text) {
        Err(error) => Err(ParseFailure::Malformed(error_text(&error))),
        Ok(doc) => {
            let name: Member<String> = string_member(&doc, Field::Name.key());
            let group: Member<i64> = integer_member(&doc, Field::Group.key());
            record_from_members(name, group)
        },
    }
}

} // verus!
