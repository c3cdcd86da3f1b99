//! Paths, queries and bodies of the administrative endpoints — files,
//! caching, batches, and the legacy content API. The calls themselves happen
//! outside; everything they send is built here.

use vstd::prelude::*;
use crate::json::{Json, JsonV, jget, dec_digits, u64_to_string};
use crate::text::str_starts_with;
use crate::wire::push_member;
use crate::sse::str_req;
use crate::protocol::seq_view;

verus! {

/// The endpoint path of a named resource: a name already qualified with its
/// collection keeps it, a bare name is qualified first.
pub open spec fn resource_path_of(collection: Seq<char>, name: Seq<char>) -> Seq<char> {
    let prefix = collection + "/"@;
    if name.len() >= prefix.len() && name.take(prefix.len() as int) == prefix {
        "/v1beta/"@ + name
    } else {
        "/v1beta/"@ + prefix + name
    }
}

/// Builds the endpoint path of a named resource.
pub fn resource_path(collection: &str, name: &str) -> (r: String)
    ensures
        r@ == resource_path_of(collection@, name@),
{
    let mut prefix = collection.to_owned();
    prefix.append("/");
    let mut r = "/v1beta/".to_owned();
    if str_starts_with(name, prefix.as_str()) {
        r.append(name);
    } else {
        r.append(prefix.as_str());
        r.append(name);
    }
    r
}

/// The path that creates a batch under a model.
pub fn batch_create_path(model: &str) -> (r: String)
    ensures
        r@ == "/v1beta/models/"@ + model@ + ":batchGenerateContent"@,
{
    let mut r = "/v1beta/models/".to_owned();
    r.append(model);
    r.append(":batchGenerateContent");
    r
}

/// The query of a file listing: a page size and a continuation token, each
/// present exactly when given.
pub open spec fn files_query_of(page_size: Option<u32>, page_token: Option<Seq<char>>) -> Seq<(Seq<char>, Seq<char>)> {
    let q = Seq::<(Seq<char>, Seq<char>)>::empty();
    let q = if page_size is Some {
        q.push(("pageSize"@, dec_digits(page_size->0 as nat)))
    } else { q };
    if page_token is Some {
        q.push(("pageToken"@, page_token->0))
    } else { q }
}

/// Builds the query of a file listing.
pub fn files_query(page_size: Option<u32>, page_token: Option<String>) -> (r: Vec<(String, String)>)
    ensures
        seq_view(r@) == files_query_of(page_size, crate::protocol::opt_view(page_token)),
{
    let mut q: Vec<(String, String)> = Vec::new();
    if let Some(ps) = page_size {
        q.push(("pageSize".to_owned(), u64_to_string(ps as u64)));
    }
    if let Some(pt) = page_token {
        q.push(("pageToken".to_owned(), pt));
    }
    proof {
        assert(seq_view(q@) =~= files_query_of(page_size, crate::protocol::opt_view(page_token)));
    }
    q
}

/// The metadata body that opens a resumable upload.
pub open spec fn upload_metadata_of(display_name: Seq<char>) -> JsonV {
    JsonV::Obj(seq![
        ("file"@, JsonV::Obj(seq![("display_name"@, JsonV::Str(display_name))])),
    ])
}

/// Builds the metadata body that opens a resumable upload.
pub fn upload_metadata_json(display_name: String) -> (r: Json)
    ensures
        r@ == upload_metadata_of(display_name@),
{
    let ghost dv = display_name@;
    let mut inner: Vec<(String, Json)> = Vec::new();
    push_member(&mut inner, "display_name".to_owned(), Json::Str(display_name));
    let inner_obj = Json::Obj(inner);
    proof {
        assert(inner_obj@->Obj_0 =~= seq![("display_name"@, JsonV::Str(dv))]);
    }
    let mut ms: Vec<(String, Json)> = Vec::new();
    push_member(&mut ms, "file".to_owned(), inner_obj);
    let r = Json::Obj(ms);
    proof {
        assert(r@->Obj_0 =~= upload_metadata_of(dv)->Obj_0);
    }
    r
}

// ---------------------------------------------------------------------------
// The legacy content-generation call.
// ---------------------------------------------------------------------------

/// The legacy request body: one user content with one text part.
pub open spec fn generate_request_of(prompt: Seq<char>) -> JsonV {
    JsonV::Obj(seq![
        ("contents"@, JsonV::Arr(seq![
            JsonV::Obj(seq![
                ("parts"@, JsonV::Arr(seq![
                    JsonV::Obj(seq![("text"@, JsonV::Str(prompt))]),
                ])),
            ]),
        ])),
    ])
}

/// Builds the legacy request body.
pub fn generate_request_json(prompt: &str) -> (r: Json)
    ensures
        r@ == generate_request_of(prompt@),
{
    let mut part: Vec<(String, Json)> = Vec::new();
    push_member(&mut part, "text".to_owned(), Json::Str(prompt.to_owned()));
    let part_obj = Json::Obj(part);
    proof {
        assert(part_obj@->Obj_0 =~= seq![("text"@, JsonV::Str(prompt@))]);
    }
    let parts = vec![part_obj];
    proof {
        crate::json::lemma_jview_list(parts@);
        assert(crate::json::jview_list(parts@)
            =~= seq![JsonV::Obj(seq![("text"@, JsonV::Str(prompt@))])]);
    }
    let mut content: Vec<(String, Json)> = Vec::new();
    push_member(&mut content, "parts".to_owned(), Json::Arr(parts));
    let content_obj = Json::Obj(content);
    proof {
        assert(content_obj@->Obj_0 =~= generate_request_of(prompt@)->Obj_0[0].1->Arr_0[0]->Obj_0);
    }
    let contents = vec![content_obj];
    proof {
        crate::json::lemma_jview_list(contents@);
        assert(crate::json::jview_list(contents@)
            =~= generate_request_of(prompt@)->Obj_0[0].1->Arr_0);
    }
    let mut ms: Vec<(String, Json)> = Vec::new();
    push_member(&mut ms, "contents".to_owned(), Json::Arr(contents));
    let r = Json::Obj(ms);
    proof {
        assert(r@->Obj_0 =~= generate_request_of(prompt@)->Obj_0);
    }
    r
}

/// The legacy call's address, with the key in the query.
pub fn generate_content_url(base_url: &str, model: &str, api_key: &str) -> (r: String)
    ensures
        r@ == base_url@ + "/v1beta/models/"@ + model@ + ":generateContent?key="@ + api_key@,
{
    let mut r = base_url.to_owned();
    r.append("/v1beta/models/");
    r.append(model);
    r.append(":generateContent?key=");
    r.append(api_key);
    r
}

/// The first candidate's first text part of a legacy response, when the
/// response has that shape.
pub open spec fn candidate_text_of(resp: JsonV) -> Option<Seq<char>> {
    match jget(resp, "candidates"@) {
        Some(JsonV::Arr(cands)) => if cands.len() > 0 {
            match jget(cands[0], "content"@) {
                Some(content) => match jget(content, "parts"@) {
                    Some(JsonV::Arr(parts)) => if parts.len() > 0 {
                        str_req(parts[0], "text"@)
                    } else {
                        None
                    },
                    _ => None,
                },
                None => None,
            }
        } else {
            None
        },
        _ => None,
    }
}

/// Pulls the first candidate text out of a legacy response.
pub fn extract_candidate_text(resp: &Json) -> (r: Option<String>)
    ensures
        match (r, candidate_text_of(resp@)) {
            (Some(s), Some(v)) => s@ == v,
            (None, None) => true,
            _ => false,
        },
{
    let cands = match resp.get("candidates") {
        Some(Json::Arr(cands)) => cands,
        _ => { return None; }
    };
    if cands.len() == 0 {
        return None;
    }
    proof {
        crate::json::lemma_jview_list(cands@);
    }
    let content = match cands[0].get("content") {
        Some(c) => c,
        None => { return None; }
    };
    let parts = match content.get("parts") {
        Some(Json::Arr(parts)) => parts,
        _ => { return None; }
    };
    if parts.len() == 0 {
        return None;
    }
    proof {
        crate::json::lemma_jview_list(parts@);
    }
    parts[0].field_str_req("text")
}

} // verus!
