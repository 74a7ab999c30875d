//! The display payload: the descriptive lines of a title, one block for each
//! category that has users, and the strings that identify the title.

use vstd::prelude::*;
use crate::buckets::{
    aggregate_statuses, buckets_of, lemma_absent_status_fills_no_bucket, Buckets,
    CategoryBuckets,
};
use crate::count::{format_count, grouped_count, lemma_count_never_reads_null};
use crate::fields::payload;
use crate::json::{integer_text, lemma_rendered_simple_value, JsonNumber, JsonTree};
use crate::media::{media_in, Media, MediaRecord};
use crate::status::{status_views, StatusCategory, UserStatus, UserStatusEntry};
use crate::text::{
    is_plain, join_texts, joined, remove_quotes, remove_quotes_of, same_text, strip_quotes,
    strip_quotes_of, texts,
};

verus! {

/// One descriptive field of a title: what stands before its value, the
/// value, and what stands after it.
pub struct Field {
    pub label: Seq<char>,
    pub value: Seq<char>,
    pub tail: Seq<char>,
}

impl Field {
    /// A field is shown unless its value reads `null`.
    pub open spec fn shown(self) -> bool {
        self.value != "null"@
    }

    /// The line that shows the field.
    pub open spec fn line(self) -> Seq<char> {
        self.label + self.value + self.tail
    }
}

/// The lines of the fields that are shown, in the order of the fields.
pub open spec fn shown_lines(fields: Seq<Field>) -> Seq<Seq<char>> {
    fields.filter(|f: Field| f.shown()).map_values(|f: Field| f.line())
}

/// The seven descriptive fields of a title, in the order in which they are
/// shown. The status loses its quotes, the counts are grouped, and the
/// genres are joined by commas.
pub open spec fn descriptive_fields(media: Media) -> Seq<Field> {
    seq![
        Field { label: "`All Episodes :` **"@, value: media.episodes, tail: "**"@ },
        Field { label: "`Status       :` **"@, value: remove_quotes(media.status), tail: "**"@ },
        Field { label: "`Avg Score    :` **"@, value: media.average_score, tail: "%**"@ },
        Field { label: "`Mean Score   :` **"@, value: media.mean_score, tail: "%**"@ },
        Field {
            label: "`Popularity   :` **"@,
            value: grouped_count(media.popularity as int),
            tail: "**"@,
        },
        Field {
            label: "`Favourites   :` **"@,
            value: grouped_count(media.favourites as int),
            tail: "**"@,
        },
        Field { label: "`Genres       :` **"@, value: joined(media.genres, ", "@), tail: "**\n"@ },
    ]
}

/// The descriptive lines of a title.
pub open spec fn descriptive_lines(media: Media) -> Seq<Seq<char>> {
    shown_lines(descriptive_fields(media))
}

/// The block of a category: its heading, then its lines, each after `> ` on
/// a line of its own.
pub open spec fn category_block(category: StatusCategory, lines: Seq<Seq<char>>) -> Seq<char> {
    "`"@ + category.label_text() + "    :`\n> "@ + joined(lines, "\n> "@) + "\n"@
}

/// The blocks of the categories whose bucket is not empty, in display order.
pub open spec fn category_blocks(buckets: Buckets) -> Seq<Seq<char>> {
    StatusCategory::display_order().filter(
        |c: StatusCategory| buckets.lines(c).len() > 0,
    ).map_values(|c: StatusCategory| category_block(c, buckets.lines(c)))
}

/// Everything that is shown of a title: its descriptive lines, then the
/// blocks of the users' statuses.
pub open spec fn report_lines(media: Media, statuses: Seq<Option<UserStatus>>) -> Seq<Seq<char>> {
    descriptive_lines(media) + category_blocks(buckets_of(statuses))
}

/// The four strings that identify a title: its name, its page, its cover
/// and its banner, each without the quotes around it.
pub open spec fn identity_lines(media: Media) -> Seq<Seq<char>> {
    seq![
        strip_quotes(media.title),
        strip_quotes(media.site_url),
        strip_quotes(media.cover_image),
        strip_quotes(media.banner_image),
    ]
}

/// The names of the fields that stand directly under a record.
pub open spec fn is_record_field(key: Seq<char>) -> bool {
    key == "id"@ || key == "title"@ || key == "status"@ || key == "episodes"@ || key
        == "meanScore"@ || key == "averageScore"@ || key == "popularity"@ || key == "favourites"@
        || key == "genres"@ || key == "siteUrl"@ || key == "coverImage"@ || key == "bannerImage"@
}

/// How a value of an answer reads among the identity strings: a plain
/// string as it is, and a null as `null`.
pub open spec fn shown_as(value: JsonTree, text: Seq<char>) -> bool {
    &&& value is Null ==> text == "null"@
    &&& value matches JsonTree::Text(plain) ==> is_plain(plain) ==> text == plain
}

/// One more field at the end adds its line at the end, if it is shown.
pub proof fn lemma_shown_lines_push(fields: Seq<Field>, last: Field)
    ensures
        shown_lines(fields.push(last)) == if last.shown() {
            shown_lines(fields).push(last.line())
        } else {
            shown_lines(fields)
        },
{
    fields.lemma_filter_push(last, |f: Field| f.shown());
}

/// A descriptive line is in the list exactly when it is the line of a field
/// whose value does not read `null`: such a field is never shown as `null`,
/// and no other field is left out.
pub proof fn lemma_descriptive_lines_skip_null(media: Media, line: Seq<char>)
    ensures
        descriptive_lines(media).contains(line) <==> exists|i: int|
            0 <= i < 7 && (#[trigger] descriptive_fields(media)[i]).value != "null"@
                && descriptive_fields(media)[i].line() == line,
{
    broadcast use {vstd::seq_lib::group_seq_properties, vstd::seq_lib::group_filter_ensures};

    let fields = descriptive_fields(media);
    let kept = fields.filter(|f: Field| f.shown());
    let shown = kept.map_values(|f: Field| f.line());
    if shown.contains(line) {
        let k = choose|k: int| 0 <= k < shown.len() && shown[k] == line;
        fields.lemma_filter_contains_rev(|f: Field| f.shown(), kept[k]);
        let i = choose|i: int| 0 <= i < fields.len() && fields[i] == kept[k];
        assert(fields[i].shown() && fields[i].line() == line);
    }
    if exists|i: int|
        0 <= i < 7 && (#[trigger] fields[i]).value != "null"@ && fields[i].line() == line {
        let i = choose|i: int|
            0 <= i < 7 && (#[trigger] fields[i]).value != "null"@ && fields[i].line() == line;
        assert(kept.contains(fields[i]));
        let k = choose|k: int| 0 <= k < kept.len() && kept[k] == fields[i];
        assert(shown[k] == line);
    }
}

/// A field whose value reads `null` is left out: the lines are what they
/// are without that field.
pub proof fn lemma_hidden_field_is_left_out(fields: Seq<Field>, i: int)
    requires
        0 <= i < fields.len(),
        fields[i].value == "null"@,
    ensures
        shown_lines(fields) == shown_lines(fields.remove(i)),
{
    let keep = |f: Field| f.shown();
    let before = fields.take(i);
    let after = fields.skip(i + 1);
    let nothing = Seq::<Field>::empty();
    assert(fields =~= before + seq![fields[i]] + after);
    assert(fields.remove(i) =~= before + after);
    Seq::filter_distributes_over_add(before + seq![fields[i]], after, keep);
    Seq::filter_distributes_over_add(before, seq![fields[i]], keep);
    Seq::filter_distributes_over_add(before, after, keep);
    reveal(Seq::filter);
    nothing.lemma_filter_push(fields[i], keep);
    assert(nothing.push(fields[i]) =~= seq![fields[i]]);
    assert(before.filter(keep) + nothing =~= before.filter(keep));
}

/// What the answer to a title search makes of the four fields that are
/// shown as they arrive. A field that is null in the answer is left out, a
/// whole number is shown as its digits, and a status that is a plain string
/// is shown without its quotes.
pub proof fn lemma_fields_of_answer(doc: JsonTree)
    requires
        media_in(doc) is Ok,
    ensures
        ({
            let media = payload(doc, "Media"@).unwrap();
            let fields = descriptive_fields(media_in(doc)->Ok_0);
            &&& media.child("episodes"@) == Some(JsonTree::Null) ==> !fields[0].shown()
            &&& media.child("status"@) == Some(JsonTree::Null) ==> !fields[1].shown()
            &&& media.child("averageScore"@) == Some(JsonTree::Null) ==> !fields[2].shown()
            &&& media.child("meanScore"@) == Some(JsonTree::Null) ==> !fields[3].shown()
            &&& media.child("episodes"@) matches Some(JsonTree::Number(JsonNumber::Integer(n)))
                ==> fields[0].shown() && fields[0].value == integer_text(n)
            &&& media.child("averageScore"@) matches Some(
                JsonTree::Number(JsonNumber::Integer(n)),
            ) ==> fields[2].shown() && fields[2].value == integer_text(n)
            &&& media.child("meanScore"@) matches Some(JsonTree::Number(JsonNumber::Integer(n)))
                ==> fields[3].shown() && fields[3].value == integer_text(n)
            &&& media.child("status"@) matches Some(JsonTree::Text(status)) ==> is_plain(status)
                ==> fields[1].value == status
        }),
{
    let media = payload(doc, "Media"@).unwrap();
    lemma_rendered_simple_value(media.child("episodes"@).unwrap());
    lemma_rendered_simple_value(media.child("status"@).unwrap());
    lemma_rendered_simple_value(media.child("averageScore"@).unwrap());
    lemma_rendered_simple_value(media.child("meanScore"@).unwrap());
}

/// What the answer to a title search makes of the four strings that
/// identify the title: a plain string is shown as it is, and a null reads
/// `null`.
pub proof fn lemma_identity_of_answer(doc: JsonTree)
    requires
        media_in(doc) is Ok,
    ensures
        ({
            let media = payload(doc, "Media"@).unwrap();
            let shown = identity_lines(media_in(doc)->Ok_0);
            &&& shown_as(media.child("title"@).unwrap().child("romaji"@).unwrap(), shown[0])
            &&& shown_as(media.child("siteUrl"@).unwrap(), shown[1])
            &&& shown_as(media.child("coverImage"@).unwrap().child("extraLarge"@).unwrap(), shown[2])
            &&& shown_as(media.child("bannerImage"@).unwrap(), shown[3])
        }),
{
    let media = payload(doc, "Media"@).unwrap();
    lemma_rendered_simple_value(media.child("title"@).unwrap().child("romaji"@).unwrap());
    lemma_rendered_simple_value(media.child("siteUrl"@).unwrap());
    lemma_rendered_simple_value(media.child("coverImage"@).unwrap().child("extraLarge"@).unwrap());
    lemma_rendered_simple_value(media.child("bannerImage"@).unwrap());
}

/// A record is read only from an answer that has every field: each of the
/// twelve values stands under its name, the nested two under `title` and
/// `coverImage`.
pub proof fn lemma_record_has_every_field(doc: JsonTree)
    requires
        media_in(doc) is Ok,
    ensures
        ({
            let media = payload(doc, "Media"@);
            &&& media matches Some(m) && m is Object
            &&& forall|key: Seq<char>| #[trigger]
                is_record_field(key) ==> media.unwrap().field(key) is Some
        }),
{
    let media = payload(doc, "Media"@).unwrap();
    assert(media.child("id"@) is Some && media.child("id"@).unwrap().as_i64() is Some);
}

/// A user without a list entry changes nothing of what is shown: the lines
/// are what they are without that user.
pub proof fn lemma_absent_user_is_not_shown(
    media: Media,
    before: Seq<Option<UserStatus>>,
    after: Seq<Option<UserStatus>>,
)
    ensures
        report_lines(media, before + seq![None] + after) == report_lines(media, before + after),
{
    lemma_absent_status_fills_no_bucket(before, after, StatusCategory::Repeating);
    lemma_absent_status_fills_no_bucket(before, after, StatusCategory::Current);
    lemma_absent_status_fills_no_bucket(before, after, StatusCategory::Completed);
    lemma_absent_status_fills_no_bucket(before, after, StatusCategory::Planning);
    lemma_absent_status_fills_no_bucket(before, after, StatusCategory::Paused);
    lemma_absent_status_fills_no_bucket(before, after, StatusCategory::Dropped);
}

/// The popularity and the favourites of a title are always shown, as grouped
/// counts.
pub proof fn lemma_counts_are_always_shown(media: Media)
    ensures
        descriptive_lines(media).contains(
            "`Popularity   :` **"@ + grouped_count(media.popularity as int) + "**"@,
        ),
        descriptive_lines(media).contains(
            "`Favourites   :` **"@ + grouped_count(media.favourites as int) + "**"@,
        ),
{
    let fields = descriptive_fields(media);
    lemma_count_never_reads_null(media.popularity as int);
    lemma_count_never_reads_null(media.favourites as int);
    lemma_descriptive_lines_skip_null(media, fields[4].line());
    lemma_descriptive_lines_skip_null(media, fields[5].line());
}

/// Appends the line of the field at place `n` of `fields` unless its value
/// reads `null`.
fn push_field(
    lines: &mut Vec<String>,
    label: &str,
    value: &str,
    tail: &str,
    Ghost(fields): Ghost<Seq<Field>>,
    Ghost(n): Ghost<int>,
)
    requires
        0 <= n < fields.len(),
        fields[n] == (Field { label: label@, value: value@, tail: tail@ }),
        texts(old(lines)@) == shown_lines(fields.take(n)),
    ensures
        texts(final(lines)@) == shown_lines(fields.take(n + 1)),
{
    proof {
        lemma_shown_lines_push(fields.take(n), fields[n]);
        assert(fields.take(n + 1) =~= fields.take(n).push(fields[n]));
    }
    if !same_text(value, "null") {
        let mut line = String::new();
        line.append(label);
        line.append(value);
        line.append(tail);
        lines.push(line);
    }
}

/// Writes the descriptive lines of a title: episodes, status, average
/// score, mean score, popularity, favourites and genres, in that order,
/// without those whose value reads `null`.
pub fn descriptive_lines_of(record: &MediaRecord) -> (r: Vec<String>)
    ensures
        texts(r@) == descriptive_lines(record@),
{
    let fields = Ghost(descriptive_fields(record@));
    let status = remove_quotes_of(record.status.as_str());
    let popularity = format_count(record.popularity);
    let favourites = format_count(record.favourites);
    let genres = join_texts(&record.genres, ", ");
    let mut lines: Vec<String> = Vec::new();
    proof {
        reveal(Seq::filter);
        assert(texts(lines@) =~= shown_lines(fields@.take(0)));
    }
    push_field(&mut lines, "`All Episodes :` **", record.episodes.as_str(), "**", fields, Ghost(0));
    push_field(&mut lines, "`Status       :` **", status.as_str(), "**", fields, Ghost(1));
    push_field(
        &mut lines,
        "`Avg Score    :` **",
        record.average_score.as_str(),
        "%**",
        fields,
        Ghost(2),
    );
    push_field(&mut lines, "`Mean Score   :` **", record.mean_score.as_str(), "%**", fields, Ghost(3));
    push_field(&mut lines, "`Popularity   :` **", popularity.as_str(), "**", fields, Ghost(4));
    push_field(&mut lines, "`Favourites   :` **", favourites.as_str(), "**", fields, Ghost(5));
    push_field(&mut lines, "`Genres       :` **", genres.as_str(), "**\n", fields, Ghost(6));
    assert(fields@.take(7) =~= fields@);
    lines
}

/// The blocks of the first `n` categories in display order.
spec fn category_blocks_upto(buckets: Buckets, n: int) -> Seq<Seq<char>> {
    StatusCategory::display_order().take(n).filter(
        |c: StatusCategory| buckets.lines(c).len() > 0,
    ).map_values(|c: StatusCategory| category_block(c, buckets.lines(c)))
}

/// Appends the block of the category at place `n` of the display order
/// unless its bucket is empty.
fn push_block(
    blocks: &mut Vec<String>,
    buckets: &CategoryBuckets,
    category: StatusCategory,
    Ghost(n): Ghost<int>,
)
    requires
        0 <= n < 6,
        StatusCategory::display_order()[n] == category,
        texts(old(blocks)@) == category_blocks_upto(buckets@, n),
    ensures
        texts(final(blocks)@) == category_blocks_upto(buckets@, n + 1),
{
    let bucket = buckets.bucket(category);
    proof {
        let order = StatusCategory::display_order();
        order.take(n).lemma_filter_push(category, |c: StatusCategory| buckets@.lines(c).len() > 0);
        assert(order.take(n + 1) =~= order.take(n).push(category));
    }
    if bucket.len() > 0 {
        let mut block = String::new();
        block.append("`");
        block.append(category.label());
        block.append("    :`\n> ");
        let body = join_texts(bucket, "\n> ");
        block.append(body.as_str());
        block.append("\n");
        blocks.push(block);
        assert(texts(blocks@) =~= texts(old(blocks)@).push(block@));
    }
}

/// Writes one block for each category whose bucket is not empty, in display
/// order: repeating, current, completed, planning, paused, dropped.
pub fn category_blocks_of(buckets: &CategoryBuckets) -> (r: Vec<String>)
    ensures
        texts(r@) == category_blocks(buckets@),
{
    let mut blocks: Vec<String> = Vec::new();
    proof {
        reveal(Seq::filter);
        assert(texts(blocks@) =~= category_blocks_upto(buckets@, 0));
    }
    push_block(&mut blocks, buckets, StatusCategory::Repeating, Ghost(0));
    push_block(&mut blocks, buckets, StatusCategory::Current, Ghost(1));
    push_block(&mut blocks, buckets, StatusCategory::Completed, Ghost(2));
    push_block(&mut blocks, buckets, StatusCategory::Planning, Ghost(3));
    push_block(&mut blocks, buckets, StatusCategory::Paused, Ghost(4));
    push_block(&mut blocks, buckets, StatusCategory::Dropped, Ghost(5));
    assert(StatusCategory::display_order().take(6) =~= StatusCategory::display_order());
    blocks
}

/// Writes the four strings that identify a title.
pub fn identity_lines_of(record: &MediaRecord) -> (r: Vec<String>)
    ensures
        texts(r@) == identity_lines(record@),
{
    let mut lines: Vec<String> = Vec::new();
    lines.push(strip_quotes_of(record.title.as_str()));
    lines.push(strip_quotes_of(record.site_url.as_str()));
    lines.push(strip_quotes_of(record.cover_image.as_str()));
    lines.push(strip_quotes_of(record.banner_image.as_str()));
    lines
}

/// Puts together what is shown of a title, from its record and from the
/// statuses of the known users in their given order: first the text lines,
/// then the four identity strings.
pub fn search(record: &MediaRecord, statuses: &Vec<Option<UserStatusEntry>>) -> (r: (
    Vec<String>,
    Vec<String>,
))
    ensures
        texts(r.0@) == report_lines(record@, status_views(statuses@)),
        texts(r.1@) == identity_lines(record@),
{
    let buckets = aggregate_statuses(statuses);
    let mut lines = descriptive_lines_of(record);
    let mut blocks = category_blocks_of(&buckets);
    lines.append(&mut blocks);
    (lines, identity_lines_of(record))
}

} // verus!
