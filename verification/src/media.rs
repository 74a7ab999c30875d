//! The catalog's record of one title, and how it is read out of the answer to
//! a title search.

use vstd::prelude::*;
use crate::error::{is_success, status_is_success, CatalogError};
use crate::fields::{
    field_text, payload, payload_of, read_text, read_whole_number, text_view, whole_number, Kind,
};
use crate::json::{as_array, as_str, child, json_parsed, json_tree, json_trees, parse, JsonTree};
use crate::text::texts;

verus! {

/// One title as the catalog describes it. The counts and the genres are
/// values; every other field holds the JSON text in which it arrived, so a
/// string still has its quotes and a null reads `null`.
#[derive(Clone, Debug, PartialEq, Eq)]
pub struct MediaRecord {
    pub id: i64,
    /// The romanized title.
    pub title: String,
    pub status: String,
    pub episodes: String,
    pub mean_score: String,
    pub average_score: String,
    pub popularity: i64,
    pub favourites: i64,
    pub genres: Vec<String>,
    pub site_url: String,
    pub cover_image: String,
    pub banner_image: String,
}

/// A [`MediaRecord`] as plain values.
pub struct Media {
    pub id: i64,
    pub title: Seq<char>,
    pub status: Seq<char>,
    pub episodes: Seq<char>,
    pub mean_score: Seq<char>,
    pub average_score: Seq<char>,
    pub popularity: i64,
    pub favourites: i64,
    pub genres: Seq<Seq<char>>,
    pub site_url: Seq<char>,
    pub cover_image: Seq<char>,
    pub banner_image: Seq<char>,
}

impl View for MediaRecord {
    type V = Media;

    open spec fn view(&self) -> Media {
        Media {
            id: self.id,
            title: self.title@,
            status: self.status@,
            episodes: self.episodes@,
            mean_score: self.mean_score@,
            average_score: self.average_score@,
            popularity: self.popularity,
            favourites: self.favourites,
            genres: texts(self.genres@),
            site_url: self.site_url@,
            cover_image: self.cover_image@,
            banner_image: self.banner_image@,
        }
    }
}

/// The payload of a JSON string; of anything else, the empty text.
pub open spec fn string_payload(tree: JsonTree) -> Seq<char> {
    match tree {
        JsonTree::Text(s) => s,
        _ => Seq::empty(),
    }
}

/// The strings of a JSON array whose items are all strings.
pub open spec fn string_items(tree: JsonTree) -> Option<Seq<Seq<char>>> {
    match tree {
        JsonTree::Array(items) => if forall|i: int| 0 <= i < items.len() ==> items[i] is Text {
            Some(items.map_values(|item: JsonTree| string_payload(item)))
        } else {
            None
        },
        _ => None,
    }
}

/// The strings of the field `key` of `parent`, where the field is there and
/// is an array of strings.
pub open spec fn string_list(parent: JsonTree, key: Seq<char>) -> Option<Seq<Seq<char>>> {
    match parent.child(key) {
        Some(value) => string_items(value),
        None => None,
    }
}

/// The JSON text of the field `inner` of the field `outer` of `parent`, where
/// both are there and the inner one is a string or a null.
pub open spec fn nested_text(parent: JsonTree, outer: Seq<char>, inner: Seq<char>) -> Option<
    Seq<char>,
> {
    match parent.child(outer) {
        Some(value) => field_text(value, inner, Kind::Text, true),
        None => None,
    }
}

/// The record that stands under `data.Media` of an answer to a title search.
/// Every field has to be there. The id and the two counts have to be whole
/// numbers that fit an `i64`, and the genres an array of strings. The
/// episodes and the two scores have to be numbers, and the status, the
/// title, the page, the cover and the banner strings, but any of these may
/// be null in its place. An answer of another shape is a failure. The fields
/// that may be null are taken as the JSON text in which they stand.
pub open spec fn record_in(media: JsonTree) -> Result<Media, CatalogError> {
    let id = whole_number(media, "id"@);
    let title = nested_text(media, "title"@, "romaji"@);
    let status = field_text(media, "status"@, Kind::Text, true);
    let episodes = field_text(media, "episodes"@, Kind::Number, true);
    let mean_score = field_text(media, "meanScore"@, Kind::Number, true);
    let average_score = field_text(media, "averageScore"@, Kind::Number, true);
    let popularity = whole_number(media, "popularity"@);
    let favourites = whole_number(media, "favourites"@);
    let genres = string_list(media, "genres"@);
    let site_url = field_text(media, "siteUrl"@, Kind::Text, true);
    let cover_image = nested_text(media, "coverImage"@, "extraLarge"@);
    let banner_image = field_text(media, "bannerImage"@, Kind::Text, true);
    if id is Some && title is Some && status is Some && episodes is Some && mean_score is Some
        && average_score is Some && popularity is Some && favourites is Some && genres is Some
        && site_url is Some && cover_image is Some && banner_image is Some {
        Ok(
            Media {
                id: id.unwrap(),
                title: title.unwrap(),
                status: status.unwrap(),
                episodes: episodes.unwrap(),
                mean_score: mean_score.unwrap(),
                average_score: average_score.unwrap(),
                popularity: popularity.unwrap(),
                favourites: favourites.unwrap(),
                genres: genres.unwrap(),
                site_url: site_url.unwrap(),
                cover_image: cover_image.unwrap(),
                banner_image: banner_image.unwrap(),
            },
        )
    } else {
        Err(CatalogError::SchemaShape)
    }
}

/// The record in the answer to a title search, found under `data.Media`. An
/// answer that holds nothing there is of the wrong shape.
pub open spec fn media_in(doc: JsonTree) -> Result<Media, CatalogError> {
    match payload(doc, "Media"@) {
        Some(media) => record_in(media),
        None => Err(CatalogError::SchemaShape),
    }
}

/// The record in an answer to a title search, from its HTTP status and its
/// text, or the failure to read it.
pub open spec fn media_of(http_status: u16, body: Seq<char>) -> Result<Media, CatalogError> {
    if !is_success(http_status) {
        Err(CatalogError::Transport)
    } else {
        match json_parsed(body) {
            Some(doc) => media_in(doc),
            None => Err(CatalogError::Transport),
        }
    }
}

/// The view of what [`media_record`] returns.
pub open spec fn media_outcome(r: Result<MediaRecord, CatalogError>) -> Result<Media, CatalogError> {
    match r {
        Ok(record) => Ok(record@),
        Err(e) => Err(e),
    }
}

/// Reads the genres, which have to be an array of strings.
fn genres_from(value: &serde_json::Value) -> (r: Option<Vec<String>>)
    ensures
        match r {
            Some(genres) => string_items(json_tree(*value)) == Some(texts(genres@)),
            None => string_items(json_tree(*value)) is None,
        },
{
    let items = match as_array(value) {
        Some(items) => items,
        None => {
            return None;
        },
    };
    let ghost trees = json_trees(items@);
    let mut genres: Vec<String> = Vec::new();
    let mut i: usize = 0;
    while i < items.len()
        invariant
            i <= items.len(),
            trees == json_trees(items@),
            json_tree(*value) == JsonTree::Array(trees),
            forall|j: int| 0 <= j < i ==> trees[j] is Text,
            genres.len() == i,
            texts(genres@) == trees.take(i as int).map_values(|item: JsonTree| string_payload(item)),
        decreases items.len() - i,
    {
        let ghost read = genres@;
        assert(trees[i as int] == json_tree(items@[i as int]));
        match as_str(&items[i]) {
            Some(genre) => {
                genres.push(genre.to_owned());
            },
            None => {
                return None;
            },
        }
        proof {
            let payloads = trees.take(i + 1).map_values(|item: JsonTree| string_payload(item));
            assert forall|k: int| 0 <= k < payloads.len() implies texts(genres@)[k]
                == payloads[k] by {
                if k < i {
                    assert(texts(genres@)[k] == texts(read)[k]);
                }
            }
        }
        i += 1;
    }
    Some(genres)
}

/// Reads the field `key` of `parent`, which has to be an array of strings.
fn read_string_list(parent: &serde_json::Value, key: &str) -> (r: Option<Vec<String>>)
    ensures
        match r {
            Some(items) => string_list(json_tree(*parent), key@) == Some(texts(items@)),
            None => string_list(json_tree(*parent), key@) is None,
        },
{
    match child(parent, key) {
        Some(value) => genres_from(value),
        None => None,
    }
}

/// Reads the JSON text of the field `inner` of the field `outer` of
/// `parent`, which has to be a string or a null.
fn read_nested_text(parent: &serde_json::Value, outer: &str, inner: &str) -> (r: Option<String>)
    ensures
        text_view(r) == nested_text(json_tree(*parent), outer@, inner@),
{
    match child(parent, outer) {
        Some(value) => read_text(value, inner, Kind::Text, true),
        None => None,
    }
}

/// Reads the record out of an answer to a title search that has been
/// parsed. Fails with `SchemaShape` exactly when the answer is of another
/// shape than [`media_in`] asks for: a field is missing, or it holds a value
/// of another kind than the schema gives it.
pub fn media_record_from(doc: &serde_json::Value) -> (r: Result<MediaRecord, CatalogError>)
    ensures
        media_outcome(r) == media_in(json_tree(*doc)),
{
    let media = match payload_of(doc, "Media") {
        Some(media) => media,
        None => {
            return Err(CatalogError::SchemaShape);
        },
    };
    let id = read_whole_number(media, "id");
    let title = read_nested_text(media, "title", "romaji");
    let status = read_text(media, "status", Kind::Text, true);
    let episodes = read_text(media, "episodes", Kind::Number, true);
    let mean_score = read_text(media, "meanScore", Kind::Number, true);
    let average_score = read_text(media, "averageScore", Kind::Number, true);
    let popularity = read_whole_number(media, "popularity");
    let favourites = read_whole_number(media, "favourites");
    let genres = read_string_list(media, "genres");
    let site_url = read_text(media, "siteUrl", Kind::Text, true);
    let cover_image = read_nested_text(media, "coverImage", "extraLarge");
    let banner_image = read_text(media, "bannerImage", Kind::Text, true);
    match (id, title, status, episodes, mean_score, average_score) {
        (
            Some(id),
            Some(title),
            Some(status),
            Some(episodes),
            Some(mean_score),
            Some(average_score),
        ) => match (popularity, favourites, genres, site_url, cover_image, banner_image) {
            (
                Some(popularity),
                Some(favourites),
                Some(genres),
                Some(site_url),
                Some(cover_image),
                Some(banner_image),
            ) => Ok(
                MediaRecord {
                    id,
                    title,
                    status,
                    episodes,
                    mean_score,
                    average_score,
                    popularity,
                    favourites,
                    genres,
                    site_url,
                    cover_image,
                    banner_image,
                },
            ),
            _ => Err(CatalogError::SchemaShape),
        },
        _ => Err(CatalogError::SchemaShape),
    }
}

/// Reads the record out of an answer to a title search, given its HTTP
/// status and its text. Fails with `Transport` exactly when the HTTP status
/// is outside 200 to 299 or the text is not JSON, and with `SchemaShape`
/// exactly when it is a successful answer in JSON of another shape.
pub fn media_record(http_status: u16, body: &str) -> (r: Result<MediaRecord, CatalogError>)
    ensures
        media_outcome(r) == media_of(http_status, body@),
{
    if !status_is_success(http_status) {
        return Err(CatalogError::Transport);
    }
    match parse(body) {
        Ok(doc) => media_record_from(&doc),
        Err(_) => Err(CatalogError::Transport),
    }
}

} // verus!
