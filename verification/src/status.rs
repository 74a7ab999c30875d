//! The per-user list status: what the catalog reports for one user and one
//! title, the six categories it falls into, and the line that shows it.

use vstd::prelude::*;
use crate::error::{is_success, status_is_success, CatalogError};
use crate::fields::{field_text, holds, payload, payload_of, read_text, Kind};
use crate::json::{
    integer_text, is_null, json_parsed, json_tree, lemma_integer_text, parse, JsonTree,
};
use crate::text::{is_plain, lemma_quoted_is_one_to_one, quoted, same_text};

verus! {

/// The six list states that are shown. Any other status is left out.
#[derive(Clone, Copy, Debug, PartialEq, Eq, Hash, Structural)]
pub enum StatusCategory {
    Repeating,
    Current,
    Completed,
    Planning,
    Paused,
    Dropped,
}

impl StatusCategory {
    /// The name of the status in the catalog's schema.
    pub open spec fn catalog_name(self) -> Seq<char> {
        match self {
            StatusCategory::Repeating => "REPEATING"@,
            StatusCategory::Current => "CURRENT"@,
            StatusCategory::Completed => "COMPLETED"@,
            StatusCategory::Planning => "PLANNING"@,
            StatusCategory::Paused => "PAUSED"@,
            StatusCategory::Dropped => "DROPPED"@,
        }
    }

    /// The status as it arrives: the catalog's name as a JSON string, quotes
    /// included.
    pub open spec fn raw_name(self) -> Seq<char> {
        quoted(self.catalog_name())
    }

    /// The heading under which the category is shown.
    pub open spec fn label_text(self) -> Seq<char> {
        match self {
            StatusCategory::Repeating => "Repeating"@,
            StatusCategory::Current => "Current"@,
            StatusCategory::Completed => "Completed"@,
            StatusCategory::Planning => "Planning"@,
            StatusCategory::Paused => "Paused"@,
            StatusCategory::Dropped => "Dropped"@,
        }
    }

    /// The category whose raw name is exactly `raw`, if there is one.
    pub open spec fn from_raw(raw: Seq<char>) -> Option<StatusCategory> {
        if raw == StatusCategory::Repeating.raw_name() {
            Some(StatusCategory::Repeating)
        } else if raw == StatusCategory::Current.raw_name() {
            Some(StatusCategory::Current)
        } else if raw == StatusCategory::Completed.raw_name() {
            Some(StatusCategory::Completed)
        } else if raw == StatusCategory::Planning.raw_name() {
            Some(StatusCategory::Planning)
        } else if raw == StatusCategory::Paused.raw_name() {
            Some(StatusCategory::Paused)
        } else if raw == StatusCategory::Dropped.raw_name() {
            Some(StatusCategory::Dropped)
        } else {
            None
        }
    }

    /// The categories in the order in which they are shown.
    pub open spec fn display_order() -> Seq<StatusCategory> {
        seq![
            StatusCategory::Repeating,
            StatusCategory::Current,
            StatusCategory::Completed,
            StatusCategory::Planning,
            StatusCategory::Paused,
            StatusCategory::Dropped,
        ]
    }

    /// The heading under which the category is shown.
    pub fn label(self) -> (r: &'static str)
        ensures
            r@ == self.label_text(),
    {
        match self {
            StatusCategory::Repeating => "Repeating",
            StatusCategory::Current => "Current",
            StatusCategory::Completed => "Completed",
            StatusCategory::Planning => "Planning",
            StatusCategory::Paused => "Paused",
            StatusCategory::Dropped => "Dropped",
        }
    }

    /// Sorts a raw status into its category by exact match. A status that
    /// matches none of the six gives `None`.
    pub fn classify(raw: &str) -> (r: Option<StatusCategory>)
        ensures
            r == StatusCategory::from_raw(raw@),
    {
        proof {
            lemma_raw_names();
        }
        if same_text(raw, "\"REPEATING\"") {
            Some(StatusCategory::Repeating)
        } else if same_text(raw, "\"CURRENT\"") {
            Some(StatusCategory::Current)
        } else if same_text(raw, "\"COMPLETED\"") {
            Some(StatusCategory::Completed)
        } else if same_text(raw, "\"PLANNING\"") {
            Some(StatusCategory::Planning)
        } else if same_text(raw, "\"PAUSED\"") {
            Some(StatusCategory::Paused)
        } else if same_text(raw, "\"DROPPED\"") {
            Some(StatusCategory::Dropped)
        } else {
            None
        }
    }
}

/// The six raw names, written out.
proof fn lemma_raw_names()
    ensures
        StatusCategory::Repeating.raw_name() == "\"REPEATING\""@,
        StatusCategory::Current.raw_name() == "\"CURRENT\""@,
        StatusCategory::Completed.raw_name() == "\"COMPLETED\""@,
        StatusCategory::Planning.raw_name() == "\"PLANNING\""@,
        StatusCategory::Paused.raw_name() == "\"PAUSED\""@,
        StatusCategory::Dropped.raw_name() == "\"DROPPED\""@,
{
    reveal_strlit("REPEATING");
    reveal_strlit("CURRENT");
    reveal_strlit("COMPLETED");
    reveal_strlit("PLANNING");
    reveal_strlit("PAUSED");
    reveal_strlit("DROPPED");
    reveal_strlit("\"REPEATING\"");
    reveal_strlit("\"CURRENT\"");
    reveal_strlit("\"COMPLETED\"");
    reveal_strlit("\"PLANNING\"");
    reveal_strlit("\"PAUSED\"");
    reveal_strlit("\"DROPPED\"");
    assert(StatusCategory::Repeating.raw_name() =~= "\"REPEATING\""@);
    assert(StatusCategory::Current.raw_name() =~= "\"CURRENT\""@);
    assert(StatusCategory::Completed.raw_name() =~= "\"COMPLETED\""@);
    assert(StatusCategory::Planning.raw_name() =~= "\"PLANNING\""@);
    assert(StatusCategory::Paused.raw_name() =~= "\"PAUSED\""@);
    assert(StatusCategory::Dropped.raw_name() =~= "\"DROPPED\""@);
}

/// The catalog's names of the six statuses are plain text and differ from
/// each other.
pub proof fn lemma_catalog_names(category: StatusCategory, other: StatusCategory)
    ensures
        is_plain(category.catalog_name()),
        category.catalog_name() == other.catalog_name() ==> category == other,
{
    reveal_strlit("REPEATING");
    reveal_strlit("CURRENT");
    reveal_strlit("COMPLETED");
    reveal_strlit("PLANNING");
    reveal_strlit("PAUSED");
    reveal_strlit("DROPPED");
    let repeating = StatusCategory::Repeating.catalog_name();
    let current = StatusCategory::Current.catalog_name();
    let completed = StatusCategory::Completed.catalog_name();
    let planning = StatusCategory::Planning.catalog_name();
    let paused = StatusCategory::Paused.catalog_name();
    let dropped = StatusCategory::Dropped.catalog_name();
    assert(repeating[0] == 'R' && current[0] == 'C' && completed[0] == 'C');
    assert(planning[0] == 'P' && paused[0] == 'P' && dropped[0] == 'D');
    assert(current[1] == 'U' && completed[1] == 'O');
    assert(planning[1] == 'L' && paused[1] == 'A');
}

/// The six raw names differ from each other, so a raw status belongs to a
/// category exactly when it is that category's raw name.
pub proof fn lemma_from_raw_is_exact_match(raw: Seq<char>, category: StatusCategory)
    ensures
        StatusCategory::from_raw(raw) == Some(category) <==> raw == category.raw_name(),
{
    assert forall|other: StatusCategory| other.raw_name() == category.raw_name() implies other
        == category by {
        lemma_quoted_is_one_to_one(other.catalog_name(), category.catalog_name());
        lemma_catalog_names(other, category);
    }
}

/// What the catalog reports for one user and one title, each field as the
/// JSON text in which it arrived.
#[derive(Clone, Debug, PartialEq, Eq)]
pub struct UserStatusEntry {
    /// The user's display name.
    pub user: String,
    /// The raw status, a JSON string with its quotes.
    pub status: String,
    pub progress: String,
    pub score: String,
    pub repeat: String,
}

/// A [`UserStatusEntry`] as plain text.
pub struct UserStatus {
    pub user: Seq<char>,
    pub status: Seq<char>,
    pub progress: Seq<char>,
    pub score: Seq<char>,
    pub repeat: Seq<char>,
}

impl View for UserStatusEntry {
    type V = UserStatus;

    open spec fn view(&self) -> UserStatus {
        UserStatus {
            user: self.user@,
            status: self.status@,
            progress: self.progress@,
            score: self.score@,
            repeat: self.repeat@,
        }
    }
}

/// The view of a status that may be absent.
pub open spec fn status_view(status: Option<UserStatusEntry>) -> Option<UserStatus> {
    match status {
        Some(entry) => Some(entry@),
        None => None,
    }
}

/// The views of a list of statuses, in the same order.
pub open spec fn status_views(statuses: Seq<Option<UserStatusEntry>>) -> Seq<Option<UserStatus>> {
    statuses.map_values(|s: Option<UserStatusEntry>| status_view(s))
}

/// What a list entry says about `user`. The entry has to hold its status as
/// a string and its progress, score and repeat count as numbers; each is
/// taken as the JSON text in which it stands. An entry that lacks one of
/// them, or holds it as something else, is of the wrong shape.
pub open spec fn entry_in(user: Seq<char>, list: JsonTree) -> Result<UserStatus, CatalogError> {
    let status = field_text(list, "status"@, Kind::Text, false);
    let progress = field_text(list, "progress"@, Kind::Number, false);
    let score = field_text(list, "score"@, Kind::Number, false);
    let repeat = field_text(list, "repeat"@, Kind::Number, false);
    if status is Some && progress is Some && score is Some && repeat is Some {
        Ok(
            UserStatus {
                user,
                status: status.unwrap(),
                progress: progress.unwrap(),
                score: score.unwrap(),
                repeat: repeat.unwrap(),
            },
        )
    } else {
        Err(CatalogError::SchemaShape)
    }
}

/// A list entry is read exactly when it is an object that holds a string as
/// its status and numbers as its progress, score and repeat count. Any other
/// entry fails as one of the wrong shape, and none is read with a field
/// that is missing, null or of another kind.
pub proof fn lemma_entry_is_read_when_it_has_its_shape(user: Seq<char>, list: JsonTree)
    ensures
        entry_in(user, list) is Ok <==> holds(list, "status"@, Kind::Text) && holds(
            list,
            "progress"@,
            Kind::Number,
        ) && holds(list, "score"@, Kind::Number) && holds(list, "repeat"@, Kind::Number),
        entry_in(user, list) is Err ==> entry_in(user, list) == Err::<UserStatus, CatalogError>(
            CatalogError::SchemaShape,
        ),
{
}

/// What a per-user answer of the catalog says about `user`. The list entry
/// stands under `data.MediaList`: a null there means that the user has no
/// entry, anything else has to be an entry of the right shape, and an answer
/// that holds nothing there is of the wrong shape itself.
pub open spec fn user_status_in(user: Seq<char>, doc: JsonTree) -> Result<
    Option<UserStatus>,
    CatalogError,
> {
    match payload(doc, "MediaList"@) {
        Some(list) => if list is Null {
            Ok(None)
        } else {
            match entry_in(user, list) {
                Ok(entry) => Ok(Some(entry)),
                Err(e) => Err(e),
            }
        },
        None => Err(CatalogError::SchemaShape),
    }
}

/// What a per-user answer says about `user`, from its HTTP status and its
/// text: a failure where the status is no success or the text is not JSON,
/// and else what the document says.
pub open spec fn user_status_of(user: Seq<char>, http_status: u16, body: Seq<char>) -> Result<
    Option<UserStatus>,
    CatalogError,
> {
    if !is_success(http_status) {
        Err(CatalogError::Transport)
    } else {
        match json_parsed(body) {
            Some(doc) => user_status_in(user, doc),
            None => Err(CatalogError::Transport),
        }
    }
}

/// The view of what [`user_status_from`] and [`user_scores`] return.
pub open spec fn status_outcome(r: Result<Option<UserStatusEntry>, CatalogError>) -> Result<
    Option<UserStatus>,
    CatalogError,
> {
    match r {
        Ok(status) => Ok(status_view(status)),
        Err(e) => Err(e),
    }
}

/// Reads the status of `user_name` out of a per-user answer that has been
/// parsed. `Ok(None)` means that the user has no list entry for the title.
/// Fails with `SchemaShape` exactly when the answer holds nothing under
/// `data.MediaList`, or holds something there that is neither null nor an
/// entry with a string for its status and numbers for its progress, score
/// and repeat count.
pub fn user_status_from(user_name: &str, doc: &serde_json::Value) -> (r: Result<
    Option<UserStatusEntry>,
    CatalogError,
>)
    ensures
        status_outcome(r) == user_status_in(user_name@, json_tree(*doc)),
{
    let list = match payload_of(doc, "MediaList") {
        Some(list) => list,
        None => {
            return Err(CatalogError::SchemaShape);
        },
    };
    if is_null(list) {
        return Ok(None);
    }
    let status = read_text(list, "status", Kind::Text, false);
    let progress = read_text(list, "progress", Kind::Number, false);
    let score = read_text(list, "score", Kind::Number, false);
    let repeat = read_text(list, "repeat", Kind::Number, false);
    match (status, progress, score, repeat) {
        (Some(status), Some(progress), Some(score), Some(repeat)) => Ok(
            Some(UserStatusEntry { user: user_name.to_owned(), status, progress, score, repeat }),
        ),
        _ => Err(CatalogError::SchemaShape),
    }
}

/// Reads the status of `user_name` out of a per-user answer, given its HTTP
/// status and its text. Fails with `Transport` exactly when the HTTP status
/// is outside 200 to 299 or the text is not JSON, and with `SchemaShape`
/// exactly when it is a successful answer in JSON of another shape than
/// [`user_status_in`] asks for; an answer whose list entry is null is
/// `Ok(None)`.
pub fn user_scores(user_name: &str, http_status: u16, body: &str) -> (r: Result<
    Option<UserStatusEntry>,
    CatalogError,
>)
    ensures
        status_outcome(r) == user_status_of(user_name@, http_status, body@),
{
    if !status_is_success(http_status) {
        return Err(CatalogError::Transport);
    }
    match parse(body) {
        Ok(doc) => user_status_from(user_name, &doc),
        Err(_) => Err(CatalogError::Transport),
    }
}

/// The line that shows one user under `category`: the repeat count for a
/// completed title that was repeated, the progress for a title that is being
/// watched or watched again, and the score in every case.
pub open spec fn status_line(category: StatusCategory, entry: UserStatus) -> Seq<char> {
    if category == StatusCategory::Completed && entry.repeat != "0"@ {
        entry.user + " - "@ + entry.repeat + " repeat(s) | "@ + entry.score + "/10"@
    } else if category == StatusCategory::Repeating || category == StatusCategory::Current {
        entry.user + " - "@ + entry.progress + " | "@ + entry.score + "/10"@
    } else {
        entry.user + " - "@ + entry.score + "/10"@
    }
}

/// Writes the line that shows `entry` under `category`.
pub fn status_line_of(category: StatusCategory, entry: &UserStatusEntry) -> (r: String)
    ensures
        r@ == status_line(category, entry@),
{
    let mut line = String::new();
    line.append(entry.user.as_str());
    line.append(" - ");
    let repeated = match category {
        StatusCategory::Completed => !same_text(entry.repeat.as_str(), "0"),
        _ => false,
    };
    let in_progress = match category {
        StatusCategory::Repeating => true,
        StatusCategory::Current => true,
        _ => false,
    };
    if repeated {
        line.append(entry.repeat.as_str());
        line.append(" repeat(s) | ");
    } else if in_progress {
        line.append(entry.progress.as_str());
        line.append(" | ");
    }
    line.append(entry.score.as_str());
    line.append("/10");
    line
}

/// A completed title shows how often it was repeated, unless that is zero
/// times.
pub proof fn lemma_repeats_are_shown_unless_zero(entry: UserStatus, repeats: int)
    requires
        entry.repeat == integer_text(repeats),
    ensures
        status_line(StatusCategory::Completed, entry) == if repeats == 0 {
            entry.user + " - "@ + entry.score + "/10"@
        } else {
            entry.user + " - "@ + integer_text(repeats) + " repeat(s) | "@ + entry.score + "/10"@
        },
{
    lemma_integer_text(repeats);
}

} // verus!
