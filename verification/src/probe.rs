//! The inspector's report: a JSON document whose `media.track` array holds one
//! object per track. This module reads such a document into [`Track`] values,
//! which hold as plain text what the identification reads.
//!
//! The document is parsed and walked by the `json` crate. What that crate
//! returns is named here, not described: each name below stands for the result
//! of one of its functions, which depends on the arguments alone.

use crate::model::{view_of, views};
use crate::text::{parse_u32, parsed_u32, str_eq};
use vstd::prelude::*;
use vstd::string::*;

verus! {

/// A JSON value of the `json` crate, opaque to the proofs.
#[verifier::external_type_specification]
#[verifier::external_body]
pub struct ExJsonValue(json::JsonValue);

/// The error of the `json` crate's parser, opaque to the proofs.
#[verifier::external_type_specification]
#[verifier::external_body]
pub struct ExJsonError(json::Error);

/// The value that `json::parse` reads from a text, where it accepts the text.
pub uninterp spec fn json_document(text: Seq<char>) -> Option<json::JsonValue>;

/// The value that indexing a JSON value by a key gives: the member of that
/// name for an object that has one, a null value otherwise.
pub uninterp spec fn json_member(value: json::JsonValue, key: Seq<char>) -> json::JsonValue;

/// The members of a JSON array in order; none for any other value.
pub uninterp spec fn json_members(value: json::JsonValue) -> Seq<json::JsonValue>;

/// The entries of a JSON object in order, each a key and its value; none for
/// any other value.
pub uninterp spec fn json_entries(value: json::JsonValue) -> Seq<(Seq<char>, json::JsonValue)>;

/// The text of a JSON string; `None` for any other value.
pub uninterp spec fn json_text(value: json::JsonValue) -> Option<Seq<char>>;

/// What a JSON value prints as: a string prints as its own text, any other
/// value as its JSON notation.
pub uninterp spec fn json_rendered(value: json::JsonValue) -> Seq<char>;

/// `json::parse`: whether a text is accepted, and the value read from it,
/// depend on the text alone.
#[verifier::external_body]
fn parse_document(text: &str) -> (r: Result<json::JsonValue, json::Error>)
    ensures
        match r {
            Ok(value) => json_document(text@) == Some(value),
            Err(_) => json_document(text@) is None,
        },
{
    json::parse(text)
}

/// `JsonValue`'s `Index<&str>`: the value found under a key depends on the
/// value and the key alone.
#[verifier::external_body]
fn member<'a>(value: &'a json::JsonValue, key: &str) -> (r: &'a json::JsonValue)
    ensures
        *r == json_member(*value, key@),
{
    &value[key]
}

/// `JsonValue::members`: the members handed out, in the order of the iterator.
#[verifier::external_body]
fn members<'a>(value: &'a json::JsonValue) -> (r: Vec<&'a json::JsonValue>)
    ensures
        r@.len() == json_members(*value).len(),
        forall|i: int| 0 <= i < r@.len() ==> *#[trigger] r@[i] == json_members(*value)[i],
{
    value.members().collect()
}

/// `JsonValue::entries`: the entries handed out, in the order of the iterator.
#[verifier::external_body]
fn entries<'a>(value: &'a json::JsonValue) -> (r: Vec<(&'a str, &'a json::JsonValue)>)
    ensures
        r@.len() == json_entries(*value).len(),
        forall|i: int|
            0 <= i < r@.len() ==> (#[trigger] r@[i]).0@ == json_entries(*value)[i].0 && *r@[i].1
                == json_entries(*value)[i].1,
{
    value.entries().collect()
}

/// `JsonValue::as_str`: the text of a string value, `None` for any other.
#[verifier::external_body]
fn as_text<'a>(value: &'a json::JsonValue) -> (r: Option<&'a str>)
    ensures
        r is Some <==> json_text(*value) is Some,
        r matches Some(s) ==> json_text(*value) == Some(s@),
{
    value.as_str()
}

/// `JsonValue`'s `Display`, through `to_string`: what the value prints as.
#[verifier::external_body]
fn rendered(value: &json::JsonValue) -> (r: String)
    ensures
        r@ == json_rendered(*value),
{
    value.to_string()
}

/// One entry of a track: its key, its text where the value is a string, and
/// what the value prints as (for a string, its text).
#[derive(Debug, PartialEq, Eq)]
pub struct Property {
    pub key: String,
    pub text: Option<String>,
    pub rendered: String,
}

/// The model of a [`Property`].
pub struct PropertyView {
    pub key: Seq<char>,
    pub text: Option<Seq<char>>,
    pub rendered: Seq<char>,
}

impl View for Property {
    type V = PropertyView;

    open spec fn view(&self) -> PropertyView {
        PropertyView {
            key: self.key@,
            text: view_of(self.text),
            rendered: self.rendered@,
        }
    }
}

/// One track of the report: its entries in order, and the entries of its
/// `extra` object (none where it has no such object).
#[derive(Debug, PartialEq, Eq)]
pub struct Track {
    pub properties: Vec<Property>,
    pub extra: Vec<Property>,
}

/// The model of a [`Track`].
pub struct TrackView {
    pub properties: Seq<PropertyView>,
    pub extra: Seq<PropertyView>,
}

impl View for Track {
    type V = TrackView;

    open spec fn view(&self) -> TrackView {
        TrackView {
            properties: views(self.properties@),
            extra: views(self.extra@),
        }
    }
}

/// The property that an entry of a JSON object makes.
pub open spec fn property_of(entry: (Seq<char>, json::JsonValue)) -> PropertyView {
    PropertyView { key: entry.0, text: json_text(entry.1), rendered: json_rendered(entry.1) }
}

/// The properties that the entries of a JSON value make, in order.
pub open spec fn properties_of(value: json::JsonValue) -> Seq<PropertyView> {
    Seq::new(json_entries(value).len(), |i: int| property_of(json_entries(value)[i]))
}

/// The track that a member of the `track` array makes.
pub open spec fn track_of(value: json::JsonValue) -> TrackView {
    TrackView {
        properties: properties_of(value),
        extra: properties_of(json_member(value, "extra"@)),
    }
}

/// The tracks of a parsed report: the members of `media.track`, in order.
pub open spec fn tracks_of(document: json::JsonValue) -> Seq<TrackView> {
    let list = json_members(json_member(json_member(document, "media"@), "track"@));
    Seq::new(list.len(), |i: int| track_of(list[i]))
}

/// The tracks of a report, where the text is a JSON document.
pub open spec fn report_tracks(text: Seq<char>) -> Option<Seq<TrackView>> {
    match json_document(text) {
        Some(document) => Some(tracks_of(document)),
        None => None,
    }
}

fn read_properties(value: &json::JsonValue) -> (list: Vec<Property>)
    ensures
        views(list@) == properties_of(*value),
{
    let found = entries(value);
    let mut list: Vec<Property> = Vec::new();
    let mut i: usize = 0;
    while i < found.len()
        invariant
            i <= found.len(),
            found@.len() == json_entries(*value).len(),
            forall|k: int|
                0 <= k < found@.len() ==> (#[trigger] found@[k]).0@ == json_entries(*value)[k].0
                    && *found@[k].1 == json_entries(*value)[k].1,
            list@.len() == i,
            forall|k: int| 0 <= k < i ==> (#[trigger] list@[k])@ == properties_of(*value)[k],
        decreases found.len() - i,
    {
        let key: &str = found[i].0;
        let item: &json::JsonValue = found[i].1;
        let text = match as_text(item) {
            Some(t) => Some(t.to_owned()),
            None => None,
        };
        list.push(Property { key: key.to_owned(), text, rendered: rendered(item) });
        i += 1;
    }
    assert(views(list@) =~= properties_of(*value));
    list
}

fn read_track(value: &json::JsonValue) -> (track: Track)
    ensures
        track@ == track_of(*value),
{
    Track { properties: read_properties(value), extra: read_properties(member(value, "extra")) }
}

/// Reads the inspector's report into its tracks. `None` where the text is no
/// JSON document; a document without a `media.track` array has no tracks.
pub fn read_report(text: &str) -> (r: Option<Vec<Track>>)
    ensures
        r is Some <==> report_tracks(text@) is Some,
        r matches Some(tracks) ==> report_tracks(text@) == Some(views(tracks@)),
{
    match parse_document(text) {
        Ok(document) => {
            let list = members(member(member(&document, "media"), "track"));
            let mut tracks: Vec<Track> = Vec::new();
            let mut i: usize = 0;
            while i < list.len()
                invariant
                    i <= list.len(),
                    list@.len() == json_members(
                        json_member(json_member(document, "media"@), "track"@),
                    ).len(),
                    forall|k: int|
                        0 <= k < list@.len() ==> *#[trigger] list@[k] == json_members(
                            json_member(json_member(document, "media"@), "track"@),
                        )[k],
                    tracks@.len() == i,
                    forall|k: int|
                        0 <= k < i ==> (#[trigger] tracks@[k])@ == tracks_of(document)[k],
                decreases list.len() - i,
            {
                tracks.push(read_track(list[i]));
                i += 1;
            }
            assert(views(tracks@) =~= tracks_of(document));
            Some(tracks)
        },
        Err(_) => None,
    }
}

/// The first property of a list that has the key, if one has.
pub open spec fn find_property(list: Seq<PropertyView>, key: Seq<char>) -> Option<PropertyView>
    decreases list.len(),
{
    if list.len() == 0 {
        None
    } else if list[0].key == key {
        Some(list[0])
    } else {
        find_property(list.skip(1), key)
    }
}

/// The text under a key: that of the first property of that key, where its
/// value is a string.
pub open spec fn text_of(list: Seq<PropertyView>, key: Seq<char>) -> Option<Seq<char>> {
    match find_property(list, key) {
        Some(p) => p.text,
        None => None,
    }
}

/// What the value under a key prints as; `null` where the list has no such key.
pub open spec fn rendered_of(list: Seq<PropertyView>, key: Seq<char>) -> Seq<char> {
    match find_property(list, key) {
        Some(p) => p.rendered,
        None => "null"@,
    }
}

/// The number under a key: its text read as a `u32`.
pub open spec fn number_of(list: Seq<PropertyView>, key: Seq<char>) -> Option<u32> {
    match text_of(list, key) {
        Some(t) => parsed_u32(t),
        None => None,
    }
}

/// Whether the text under a key is exactly `expected`.
pub open spec fn text_is(list: Seq<PropertyView>, key: Seq<char>, expected: Seq<char>) -> bool {
    text_of(list, key) == Some(expected)
}

/// Whether a track is of a kind: its `@type` is that text.
pub open spec fn is_kind(track: TrackView, kind: Seq<char>) -> bool {
    text_is(track.properties, "@type"@, kind)
}

/// The tracks of a kind, in the order of the report.
pub open spec fn tracks_of_kind(tracks: Seq<TrackView>, kind: Seq<char>) -> Seq<TrackView>
    decreases tracks.len(),
{
    if tracks.len() == 0 {
        Seq::empty()
    } else if is_kind(tracks.last(), kind) {
        tracks_of_kind(tracks.drop_last(), kind).push(tracks.last())
    } else {
        tracks_of_kind(tracks.drop_last(), kind)
    }
}

/// The first track of a kind, if the report has one.
pub open spec fn first_of_kind(tracks: Seq<TrackView>, kind: Seq<char>) -> Option<TrackView> {
    if tracks_of_kind(tracks, kind).len() > 0 {
        Some(tracks_of_kind(tracks, kind)[0])
    } else {
        None
    }
}

/// The first property of `list` whose key is `key`.
pub fn property<'a>(list: &'a Vec<Property>, key: &str) -> (r: Option<&'a Property>)
    ensures
        view_of(r) == find_property(views(list@), key@),
{
    let ghost all = views(list@);
    let mut i: usize = 0;
    assert(all.skip(0) == all);
    while i < list.len()
        invariant
            i <= list.len(),
            all == views(list@),
            find_property(all, key@) == find_property(all.skip(i as int), key@),
        decreases list.len() - i,
    {
        assert(all.skip(i as int)[0] == list@[i as int]@);
        assert(all.skip(i as int).skip(1) == all.skip(i + 1));
        if str_eq(list[i].key.as_str(), key) {
            return Some(&list[i]);
        }
        i += 1;
    }
    None
}

impl Property {
    /// A property whose value is the string `text`.
    pub fn string(key: &str, text: &str) -> (p: Property)
        ensures
            p@ == (PropertyView { key: key@, text: Some(text@), rendered: text@ }),
    {
        Property { key: key.to_owned(), text: Some(text.to_owned()), rendered: text.to_owned() }
    }

    /// A property whose value is no string and prints as `rendered`.
    pub fn other(key: &str, rendered: &str) -> (p: Property)
        ensures
            p@ == (PropertyView { key: key@, text: None, rendered: rendered@ }),
    {
        Property { key: key.to_owned(), text: None, rendered: rendered.to_owned() }
    }
}

impl Track {
    /// The text under `key` among the track's own entries.
    pub fn text(&self, key: &str) -> (r: Option<&String>)
        ensures
            view_of(r) == text_of(self@.properties, key@),
    {
        match property(&self.properties, key) {
            Some(p) => match &p.text {
                Some(t) => Some(t),
                None => None,
            },
            None => None,
        }
    }

    /// The number under `key` among the track's own entries.
    pub fn number(&self, key: &str) -> (r: Option<u32>)
        ensures
            r == number_of(self@.properties, key@),
    {
        match self.text(key) {
            Some(t) => parse_u32(t.as_str()),
            None => None,
        }
    }

    /// Whether the text under `key` is exactly `expected`.
    pub fn text_equals(&self, key: &str, expected: &str) -> (r: bool)
        ensures
            r == text_is(self@.properties, key@, expected@),
    {
        match self.text(key) {
            Some(t) => str_eq(t.as_str(), expected),
            None => false,
        }
    }

    /// What the value under `key` prints as; `null` where the track has no such entry.
    pub fn rendered(&self, key: &str) -> (r: String)
        ensures
            r@ == rendered_of(self@.properties, key@),
    {
        match property(&self.properties, key) {
            Some(p) => p.rendered.clone(),
            None => "null".to_owned(),
        }
    }
}

/// The tracks of `tracks` whose `@type` is `kind`, in order.
pub fn select_kind<'a>(tracks: &'a Vec<Track>, kind: &str) -> (found: Vec<&'a Track>)
    ensures
        views(found@) == tracks_of_kind(views(tracks@), kind@),
{
    let ghost all = views(tracks@);
    let mut found: Vec<&'a Track> = Vec::new();
    let mut i: usize = 0;
    while i < tracks.len()
        invariant
            i <= tracks.len(),
            all == views(tracks@),
            views(found@) == tracks_of_kind(all.take(i as int), kind@),
        decreases tracks.len() - i,
    {
        assert(all.take(i + 1).drop_last() == all.take(i as int));
        assert(all.take(i + 1).last() == tracks@[i as int]@);
        let ghost before = found@;
        if tracks[i].text_equals("@type", kind) {
            found.push(&tracks[i]);
            assert(views(found@) == views(before).push(tracks@[i as int]@));
        }
        i += 1;
    }
    assert(all.take(tracks.len() as int) == all);
    found
}

} // verus!
