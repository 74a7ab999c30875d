//! Sorting the users into the six buckets, one for each list state, in the
//! order in which the users were given.

use vstd::prelude::*;
use crate::error::CatalogError;
use crate::fields::payload;
use crate::json::JsonTree;
use crate::status::{
    entry_in, lemma_catalog_names, lemma_from_raw_is_exact_match, status_line, status_line_of,
    status_view, status_views, user_status_in, StatusCategory, UserStatus, UserStatusEntry,
};
use crate::text::{is_plain, lemma_quoted_is_one_to_one, texts};

verus! {

/// The line that `status` adds to the bucket of `category`: none where the
/// status is absent or belongs to another category or to none.
pub open spec fn entry_line(status: Option<UserStatus>, category: StatusCategory) -> Option<
    Seq<char>,
> {
    match status {
        Some(entry) => if StatusCategory::from_raw(entry.status) == Some(category) {
            Some(status_line(category, entry))
        } else {
            None
        },
        None => None,
    }
}

/// The bucket of `category` for a list of statuses: the lines of the users in
/// that category, in the order of the list.
pub open spec fn bucket_lines(statuses: Seq<Option<UserStatus>>, category: StatusCategory) -> Seq<
    Seq<char>,
> {
    statuses.filter_map(|s: Option<UserStatus>| entry_line(s, category))
}

/// The lines of the users of each category, in the order in which the users
/// were given.
#[derive(Clone, Debug, PartialEq, Eq)]
pub struct CategoryBuckets {
    pub repeating: Vec<String>,
    pub current: Vec<String>,
    pub completed: Vec<String>,
    pub planning: Vec<String>,
    pub paused: Vec<String>,
    pub dropped: Vec<String>,
}

/// [`CategoryBuckets`] as plain text.
pub struct Buckets {
    pub repeating: Seq<Seq<char>>,
    pub current: Seq<Seq<char>>,
    pub completed: Seq<Seq<char>>,
    pub planning: Seq<Seq<char>>,
    pub paused: Seq<Seq<char>>,
    pub dropped: Seq<Seq<char>>,
}

impl Buckets {
    /// The lines in the bucket of `category`.
    pub open spec fn lines(self, category: StatusCategory) -> Seq<Seq<char>> {
        match category {
            StatusCategory::Repeating => self.repeating,
            StatusCategory::Current => self.current,
            StatusCategory::Completed => self.completed,
            StatusCategory::Planning => self.planning,
            StatusCategory::Paused => self.paused,
            StatusCategory::Dropped => self.dropped,
        }
    }
}

impl View for CategoryBuckets {
    type V = Buckets;

    open spec fn view(&self) -> Buckets {
        Buckets {
            repeating: texts(self.repeating@),
            current: texts(self.current@),
            completed: texts(self.completed@),
            planning: texts(self.planning@),
            paused: texts(self.paused@),
            dropped: texts(self.dropped@),
        }
    }
}

/// The six buckets for a list of statuses.
pub open spec fn buckets_of(statuses: Seq<Option<UserStatus>>) -> Buckets {
    Buckets {
        repeating: bucket_lines(statuses, StatusCategory::Repeating),
        current: bucket_lines(statuses, StatusCategory::Current),
        completed: bucket_lines(statuses, StatusCategory::Completed),
        planning: bucket_lines(statuses, StatusCategory::Planning),
        paused: bucket_lines(statuses, StatusCategory::Paused),
        dropped: bucket_lines(statuses, StatusCategory::Dropped),
    }
}

impl CategoryBuckets {
    /// Six empty buckets.
    pub fn new() -> (r: CategoryBuckets)
        ensures
            forall|category: StatusCategory| #[trigger] r@.lines(category) == Seq::<Seq<char>>::empty(),
    {
        CategoryBuckets {
            repeating: Vec::new(),
            current: Vec::new(),
            completed: Vec::new(),
            planning: Vec::new(),
            paused: Vec::new(),
            dropped: Vec::new(),
        }
    }

    /// The bucket of `category`.
    pub fn bucket(&self, category: StatusCategory) -> (r: &Vec<String>)
        ensures
            texts(r@) == self@.lines(category),
    {
        match category {
            StatusCategory::Repeating => &self.repeating,
            StatusCategory::Current => &self.current,
            StatusCategory::Completed => &self.completed,
            StatusCategory::Planning => &self.planning,
            StatusCategory::Paused => &self.paused,
            StatusCategory::Dropped => &self.dropped,
        }
    }

    /// Appends `line` to the bucket of `category` and leaves the others as
    /// they are.
    pub fn push(&mut self, category: StatusCategory, line: String)
        ensures
            final(self)@.lines(category) == old(self)@.lines(category).push(line@),
            forall|other: StatusCategory|
                other != category ==> #[trigger] final(self)@.lines(other) == old(self)@.lines(
                    other,
                ),
    {
        match category {
            StatusCategory::Repeating => self.repeating.push(line),
            StatusCategory::Current => self.current.push(line),
            StatusCategory::Completed => self.completed.push(line),
            StatusCategory::Planning => self.planning.push(line),
            StatusCategory::Paused => self.paused.push(line),
            StatusCategory::Dropped => self.dropped.push(line),
        }
    }
}

/// Sorts the statuses of a list of users into the six buckets. Each bucket
/// holds the lines of its users in the order of the list; a user without a
/// status, or with one that is none of the six, is in no bucket.
pub fn aggregate_statuses(statuses: &Vec<Option<UserStatusEntry>>) -> (r: CategoryBuckets)
    ensures
        r@ == buckets_of(status_views(statuses@)),
{
    let mut buckets = CategoryBuckets::new();
    let mut i: usize = 0;
    while i < statuses.len()
        invariant
            i <= statuses.len(),
            forall|category: StatusCategory| #[trigger]
                buckets@.lines(category) == bucket_lines(
                    status_views(statuses@.take(i as int)),
                    category,
                ),
        decreases statuses.len() - i,
    {
        let ghost before = status_views(statuses@.take(i as int));
        let ghost seen = buckets@;
        proof {
            assert(status_views(statuses@.take(i + 1)) =~= before.push(
                status_view(statuses@[i as int]),
            ));
            assert forall|category: StatusCategory|
                bucket_lines(status_views(statuses@.take(i + 1)), category) == match entry_line(
                    status_view(statuses@[i as int]),
                    category,
                ) {
                    Some(line) => (#[trigger] seen.lines(category)).push(line),
                    None => seen.lines(category),
                } by {
                lemma_bucket_lines_push(before, status_view(statuses@[i as int]), category);
            }
        }
        match &statuses[i] {
            Some(entry) => {
                match StatusCategory::classify(entry.status.as_str()) {
                    Some(category) => {
                        let line = status_line_of(category, entry);
                        buckets.push(category, line);
                    },
                    None => {},
                }
            },
            None => {},
        }
        i += 1;
    }
    proof {
        assert(statuses@.take(statuses.len() as int) =~= statuses@);
        let all = buckets_of(status_views(statuses@));
        assert(buckets@.lines(StatusCategory::Repeating) == all.repeating);
        assert(buckets@.lines(StatusCategory::Current) == all.current);
        assert(buckets@.lines(StatusCategory::Completed) == all.completed);
        assert(buckets@.lines(StatusCategory::Planning) == all.planning);
        assert(buckets@.lines(StatusCategory::Paused) == all.paused);
        assert(buckets@.lines(StatusCategory::Dropped) == all.dropped);
    }
    buckets
}

/// One more status at the end of the list adds its line, if it has one, at
/// the end of its bucket.
pub proof fn lemma_bucket_lines_push(
    statuses: Seq<Option<UserStatus>>,
    last: Option<UserStatus>,
    category: StatusCategory,
)
    ensures
        bucket_lines(statuses.push(last), category) == match entry_line(last, category) {
            Some(line) => bucket_lines(statuses, category).push(line),
            None => bucket_lines(statuses, category),
        },
{
    assert(statuses.push(last).drop_last() =~= statuses);
}

/// Buckets keep the order of the list: the lines of the users in the first
/// part of a list stand before the lines of the users in the second part.
pub proof fn lemma_bucket_lines_concat(
    first: Seq<Option<UserStatus>>,
    second: Seq<Option<UserStatus>>,
    category: StatusCategory,
)
    ensures
        bucket_lines(first + second, category) == bucket_lines(first, category) + bucket_lines(
            second,
            category,
        ),
    decreases second.len(),
{
    if second.len() == 0 {
        assert(first + second =~= first);
    } else {
        let front = second.drop_last();
        assert(second =~= front.push(second.last()));
        assert(first + second =~= (first + front).push(second.last()));
        lemma_bucket_lines_concat(first, front, category);
        lemma_bucket_lines_push(first + front, second.last(), category);
        lemma_bucket_lines_push(front, second.last(), category);
    }
}

/// Every line of a bucket is the line of some user of the list, and two
/// lines of a bucket stand in the order in which their users stand in the
/// list.
pub proof fn lemma_bucket_preserves_relative_order(
    statuses: Seq<Option<UserStatus>>,
    category: StatusCategory,
)
    ensures
        forall|p: int|
            0 <= p < bucket_lines(statuses, category).len() ==> exists|i: int|
                0 <= i < statuses.len() && entry_line(#[trigger] statuses[i], category) == Some(
                    #[trigger] bucket_lines(statuses, category)[p],
                ),
        forall|p: int, q: int|
            0 <= p < q < bucket_lines(statuses, category).len() ==> exists|i: int, j: int|
                0 <= i < j < statuses.len() && entry_line(#[trigger] statuses[i], category) == Some(
                    #[trigger] bucket_lines(statuses, category)[p],
                ) && entry_line(#[trigger] statuses[j], category) == Some(
                    #[trigger] bucket_lines(statuses, category)[q],
                ),
    decreases statuses.len(),
{
    let bucket = bucket_lines(statuses, category);
    if statuses.len() > 0 {
        let front = statuses.drop_last();
        let last = statuses.last();
        let end = statuses.len() - 1;
        let before = bucket_lines(front, category);
        lemma_bucket_preserves_relative_order(front, category);
        lemma_bucket_lines_push(front, last, category);
        assert forall|p: int| 0 <= p < bucket.len() implies exists|i: int|
            0 <= i < statuses.len() && entry_line(#[trigger] statuses[i], category) == Some(
                #[trigger] bucket[p],
            ) by {
            if p < before.len() {
                let i = choose|i: int|
                    0 <= i < front.len() && entry_line(#[trigger] front[i], category) == Some(
                        #[trigger] before[p],
                    );
                assert(statuses[i] == front[i]);
            } else {
                assert(entry_line(statuses[end], category) == Some(bucket[p]));
            }
        }
        assert forall|p: int, q: int| 0 <= p < q < bucket.len() implies exists|i: int, j: int|
            0 <= i < j < statuses.len() && entry_line(#[trigger] statuses[i], category) == Some(
                #[trigger] bucket[p],
            ) && entry_line(#[trigger] statuses[j], category) == Some(#[trigger] bucket[q]) by {
            if q < before.len() {
                let (i, j) = choose|i: int, j: int|
                    0 <= i < j < front.len() && entry_line(#[trigger] front[i], category) == Some(
                        #[trigger] before[p],
                    ) && entry_line(#[trigger] front[j], category) == Some(#[trigger] before[q]);
                assert(statuses[i] == front[i] && statuses[j] == front[j]);
            } else {
                let i = choose|i: int|
                    0 <= i < front.len() && entry_line(#[trigger] front[i], category) == Some(
                        #[trigger] before[p],
                    );
                assert(statuses[i] == front[i]);
                assert(entry_line(statuses[end], category) == Some(bucket[q]));
            }
        }
    }
}

/// A user whose raw status is the raw name of a category has one line, in
/// the bucket of that category and in that category's format, and none in
/// any other bucket.
pub proof fn lemma_status_fills_its_bucket(entry: UserStatus, category: StatusCategory)
    requires
        entry.status == category.raw_name(),
    ensures
        bucket_lines(seq![Some(entry)], category) == seq![status_line(category, entry)],
        forall|other: StatusCategory|
            other != category ==> #[trigger] bucket_lines(seq![Some(entry)], other) == Seq::<
                Seq<char>,
            >::empty(),
{
    let empty = Seq::<Option<UserStatus>>::empty();
    assert forall|any: StatusCategory| #[trigger]
        bucket_lines(seq![Some(entry)], any) == if any == category {
            seq![status_line(category, entry)]
        } else {
            Seq::<Seq<char>>::empty()
        } by {
        lemma_from_raw_is_exact_match(entry.status, category);
        lemma_bucket_lines_push(empty, Some(entry), any);
    }
}

/// A user whose raw status is the raw name of no category is in no bucket,
/// and the buckets are what they are without that user.
pub proof fn lemma_unrecognized_status_fills_no_bucket(
    before: Seq<Option<UserStatus>>,
    entry: UserStatus,
    after: Seq<Option<UserStatus>>,
    category: StatusCategory,
)
    requires
        forall|any: StatusCategory| entry.status != #[trigger] any.raw_name(),
    ensures
        bucket_lines(seq![Some(entry)], category) == Seq::<Seq<char>>::empty(),
        bucket_lines(before + seq![Some(entry)] + after, category) == bucket_lines(
            before + after,
            category,
        ),
{
    assert(entry_line(Some(entry), category) is None) by {
        if StatusCategory::from_raw(entry.status) is Some {
            let found = StatusCategory::from_raw(entry.status).unwrap();
            lemma_from_raw_is_exact_match(entry.status, found);
        }
    }
    lemma_line_free_status_changes_nothing(before, Some(entry), after, category);
}

/// A user without a list entry is in no bucket, and the buckets are what
/// they are without that user.
pub proof fn lemma_absent_status_fills_no_bucket(
    before: Seq<Option<UserStatus>>,
    after: Seq<Option<UserStatus>>,
    category: StatusCategory,
)
    ensures
        bucket_lines(seq![None], category) == Seq::<Seq<char>>::empty(),
        bucket_lines(before + seq![None] + after, category) == bucket_lines(
            before + after,
            category,
        ),
{
    lemma_line_free_status_changes_nothing(before, None, after, category);
}

/// A status that has no line under `category` can be taken out of a list
/// without a change to that bucket.
proof fn lemma_line_free_status_changes_nothing(
    before: Seq<Option<UserStatus>>,
    status: Option<UserStatus>,
    after: Seq<Option<UserStatus>>,
    category: StatusCategory,
)
    requires
        entry_line(status, category) is None,
    ensures
        bucket_lines(seq![status], category) == Seq::<Seq<char>>::empty(),
        bucket_lines(before + seq![status] + after, category) == bucket_lines(
            before + after,
            category,
        ),
{
    let empty = Seq::<Option<UserStatus>>::empty();
    let alone = seq![status];
    lemma_bucket_lines_push(empty, status, category);
    lemma_bucket_lines_concat(before + alone, after, category);
    lemma_bucket_lines_concat(before, alone, category);
    lemma_bucket_lines_concat(before, after, category);
}

/// Where every user of a list is in the same category, the bucket of that
/// category holds one line for each user, in the order of the list.
pub proof fn lemma_bucket_follows_input_order(
    entries: Seq<UserStatus>,
    category: StatusCategory,
)
    requires
        forall|i: int| 0 <= i < entries.len() ==> (#[trigger] entries[i]).status
            == category.raw_name(),
    ensures
        bucket_lines(entries.map_values(|e: UserStatus| Some(e)), category) == entries.map_values(
            |e: UserStatus| status_line(category, e),
        ),
    decreases entries.len(),
{
    let statuses = entries.map_values(|e: UserStatus| Some(e));
    if entries.len() > 0 {
        let front = entries.drop_last();
        let last = entries.last();
        lemma_bucket_follows_input_order(front, category);
        assert(statuses =~= front.map_values(|e: UserStatus| Some(e)).push(Some(last)));
        lemma_bucket_lines_push(front.map_values(|e: UserStatus| Some(e)), Some(last), category);
        lemma_from_raw_is_exact_match(last.status, category);
    }
}

/// An answer that lists the user under one of the six statuses gives the
/// user one line, in the bucket of that status.
pub proof fn lemma_listed_user_fills_its_bucket(
    user: Seq<char>,
    doc: JsonTree,
    category: StatusCategory,
)
    requires
        user_status_in(user, doc) is Ok,
        payload(doc, "MediaList"@) matches Some(list) && list.field("status"@) == Some(
            JsonTree::Text(category.catalog_name()),
        ),
    ensures
        user_status_in(user, doc) matches Ok(Some(entry)) && bucket_lines(
            seq![Some(entry)],
            category,
        ) == seq![status_line(category, entry)] && forall|other: StatusCategory|
            other != category ==> #[trigger] bucket_lines(seq![Some(entry)], other) == Seq::<
                Seq<char>,
            >::empty(),
{
    let list = payload(doc, "MediaList"@).unwrap();
    let entry = entry_in(user, list)->Ok_0;
    lemma_catalog_names(category, category);
    lemma_status_fills_its_bucket(entry, category);
}

/// An answer that lists the user under a status that is none of the six
/// gives the user no line.
pub proof fn lemma_unknown_status_fills_no_bucket(
    user: Seq<char>,
    doc: JsonTree,
    status: Seq<char>,
    category: StatusCategory,
)
    requires
        user_status_in(user, doc) is Ok,
        payload(doc, "MediaList"@) matches Some(list) && list.field("status"@) == Some(
            JsonTree::Text(status),
        ),
        is_plain(status),
        forall|any: StatusCategory| status != #[trigger] any.catalog_name(),
    ensures
        user_status_in(user, doc) matches Ok(Some(entry)) && bucket_lines(
            seq![Some(entry)],
            category,
        ) == Seq::<Seq<char>>::empty(),
{
    let list = payload(doc, "MediaList"@).unwrap();
    let entry = entry_in(user, list)->Ok_0;
    assert forall|any: StatusCategory| entry.status != #[trigger] any.raw_name() by {
        if entry.status == any.raw_name() {
            lemma_quoted_is_one_to_one(status, any.catalog_name());
        }
    }
    lemma_unrecognized_status_fills_no_bucket(Seq::empty(), entry, Seq::empty(), category);
}

/// An answer whose list entry is null gives the user no line.
pub proof fn lemma_unlisted_user_fills_no_bucket(
    user: Seq<char>,
    doc: JsonTree,
    category: StatusCategory,
)
    requires
        payload(doc, "MediaList"@) == Some(JsonTree::Null),
    ensures
        user_status_in(user, doc) == Ok::<Option<UserStatus>, CatalogError>(None),
        bucket_lines(seq![None], category) == Seq::<Seq<char>>::empty(),
{
    lemma_absent_status_fills_no_bucket(Seq::empty(), Seq::empty(), category);
}

} // verus!
