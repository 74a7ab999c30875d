//! The bodies of the two requests that are sent to the catalog: a JSON
//! object with the query template and its variables.

use vstd::prelude::*;
use crate::json::{
    empty_object, integer_value, json_text, json_tree, render, set_member, text_value,
    JsonNumber, JsonTree,
};

verus! {

/// What `str::to_uppercase` makes of a text: each character replaced by its
/// upper-case form as Unicode defines it.
pub uninterp spec fn uppercase(text: Seq<char>) -> Seq<char>;

/// `str::to_uppercase` of the standard library. The claim is only that the
/// result is a function of the text.
pub assume_specification[ str::to_uppercase ](text: &str) -> (r: String)
    ensures
        r@ == uppercase(text@),
;

/// A request: the query template under `query`, its variables under
/// `variables`.
pub open spec fn request_tree(query: Seq<char>, variables: Map<Seq<char>, JsonTree>) -> JsonTree {
    JsonTree::Object(
        Map::empty().insert("query"@, JsonTree::Text(query)).insert(
            "variables"@,
            JsonTree::Object(variables),
        ),
    )
}

/// The variables of a title search: the title as it was given, and the
/// media type in upper case.
pub open spec fn search_variables(media_name: Seq<char>, media_type: Seq<char>) -> Map<
    Seq<char>,
    JsonTree,
> {
    Map::empty().insert("search"@, JsonTree::Text(media_name)).insert(
        "type"@,
        JsonTree::Text(uppercase(media_type)),
    )
}

/// The variables of a per-user status query.
pub open spec fn user_scores_variables(user_name: Seq<char>, media_id: i64) -> Map<
    Seq<char>,
    JsonTree,
> {
    Map::empty().insert("userName"@, JsonTree::Text(user_name)).insert(
        "mediaId"@,
        JsonTree::Number(JsonNumber::Integer(media_id as int)),
    )
}

/// A title search carries the template under `query`, the title under
/// `variables.search` and the media type in upper case under
/// `variables.type`.
pub proof fn lemma_search_request_members(
    query: Seq<char>,
    media_name: Seq<char>,
    media_type: Seq<char>,
)
    ensures
        ({
            let request = request_tree(query, search_variables(media_name, media_type));
            &&& request.field("query"@) == Some(JsonTree::Text(query))
            &&& request.field("variables"@) matches Some(variables) && variables.field("search"@)
                == Some(JsonTree::Text(media_name)) && variables.field("type"@) == Some(
                JsonTree::Text(uppercase(media_type)),
            )
        }),
{
    reveal_strlit("query");
    reveal_strlit("variables");
    reveal_strlit("search");
    reveal_strlit("type");
    assert("query"@.len() != "variables"@.len());
    assert("search"@.len() != "type"@.len());
}

/// A per-user status query carries the template under `query`, the user's
/// name under `variables.userName` and the title's id under
/// `variables.mediaId`.
pub proof fn lemma_user_scores_request_members(
    query: Seq<char>,
    user_name: Seq<char>,
    media_id: i64,
)
    ensures
        ({
            let request = request_tree(query, user_scores_variables(user_name, media_id));
            &&& request.field("query"@) == Some(JsonTree::Text(query))
            &&& request.field("variables"@) matches Some(variables) && variables.field(
                "userName"@,
            ) == Some(JsonTree::Text(user_name)) && variables.field("mediaId"@) == Some(
                JsonTree::Number(JsonNumber::Integer(media_id as int)),
            )
        }),
{
    reveal_strlit("query");
    reveal_strlit("variables");
    reveal_strlit("userName");
    reveal_strlit("mediaId");
    assert("query"@.len() != "variables"@.len());
    assert("userName"@.len() != "mediaId"@.len());
}

/// Writes a request from a template and its variables.
fn request_body(query: &str, variables: serde_json::Value) -> (r: String)
    requires
        json_tree(variables) is Object,
    ensures
        r@ == json_text(request_tree(query@, json_tree(variables)->Object_0)),
{
    let mut request = empty_object();
    set_member(&mut request, "query", text_value(query));
    set_member(&mut request, "variables", variables);
    render(&request)
}

/// Writes the body of a title search for `media_name`, which must not be
/// empty. The media type goes out in upper case.
pub fn search_request(query: &str, media_name: &str, media_type: &str) -> (r: String)
    requires
        media_name@.len() > 0,
    ensures
        r@ == json_text(request_tree(query@, search_variables(media_name@, media_type@))),
{
    let mut variables = empty_object();
    set_member(&mut variables, "search", text_value(media_name));
    let kind = media_type.to_uppercase();
    set_member(&mut variables, "type", text_value(kind.as_str()));
    request_body(query, variables)
}

/// Writes the body of the query for one user's status of the title
/// `media_id`.
pub fn user_scores_request(query: &str, user_name: &str, media_id: i64) -> (r: String)
    ensures
        r@ == json_text(request_tree(query@, user_scores_variables(user_name@, media_id))),
{
    let mut variables = empty_object();
    set_member(&mut variables, "userName", text_value(user_name));
    set_member(&mut variables, "mediaId", integer_value(media_id));
    request_body(query, variables)
}

} // verus!
