//! Tets — the posts of the site — with threads, composing and rating.

use vstd::prelude::*;
use vstd::string::*;
use crate::api::{HttpOutcome, Method, Request, RequestBody, classified_v, classify_response};
use crate::json::{
    Json, JsonV, get_req_i32, get_req_i64, get_req_str, json_of_text, lemma_obj_get_skip,
    lemma_obj_view, obj_get, obj_get_v, parse_json, req_i32_v, req_i64_v, req_str_v,
};
use crate::types::{ApiResult, Error, is_uuid_str, is_uuid_text};
use crate::types::user::{User, UserV, user_from_json_v, user_to_json_v, lemma_user_roundtrip};
use crate::types::user::opt_str_json;

verus! {

broadcast use {vstd::std_specs::vec::axiom_vec_index_decreases, vstd::seq::axiom_seq_index_decreases};

/// A reaction to a post: none, a Yeah!, or a tomato.
#[derive(Debug, Clone, Copy, PartialEq, Eq, Structural)]
pub enum Rating {
    Neutral,
    Yeah,
    Tomato,
}

/// The wire code of a rating.
pub open spec fn rating_code(r: Rating) -> int {
    match r {
        Rating::Neutral => 0,
        Rating::Yeah => 1,
        Rating::Tomato => -1,
    }
}

/// The rating a wire code denotes, if any.
pub open spec fn rating_of_code(i: int) -> Option<Rating> {
    if i == 0 {
        Some(Rating::Neutral)
    } else if i == 1 {
        Some(Rating::Yeah)
    } else if i == -1 {
        Some(Rating::Tomato)
    } else {
        None
    }
}

impl Rating {
    /// The wire code of this rating.
    pub fn as_code(&self) -> (r: i64)
        ensures
            r as int == rating_code(*self),
            rating_of_code(r as int) == Some(*self),
    {
        match self {
            Rating::Neutral => 0,
            Rating::Yeah => 1,
            Rating::Tomato => -1,
        }
    }

    /// Reads a rating from its wire code.
    pub fn from_code(i: i64) -> (r: Option<Rating>)
        ensures
            r == rating_of_code(i as int),
    {
        if i == 0 {
            Some(Rating::Neutral)
        } else if i == 1 {
            Some(Rating::Yeah)
        } else if i == -1 {
            Some(Rating::Tomato)
        } else {
            None
        }
    }
}

/// A post. Identifiers are the strings the wire uses; the creation time is
/// the raw millisecond timestamp; a quoted post is carried whole.
#[derive(Debug, PartialEq)]
pub struct Tet {
    pub id: String,
    pub content: String,
    pub created_at: i64,
    pub likes_count: i32,
    pub dislikes_count: i32,
    pub rating: i32,
    pub replies_count: i32,
    pub saves_count: i32,
    pub my_rating: Option<Rating>,
    pub author: Option<User>,
    pub parent: Option<String>,
    pub quoting: Option<Box<Tet>>,
}

/// Mathematical shape of a post.
pub struct TetV {
    pub id: Seq<char>,
    pub content: Seq<char>,
    pub created_at: int,
    pub likes_count: int,
    pub dislikes_count: int,
    pub rating: int,
    pub replies_count: int,
    pub saves_count: int,
    pub my_rating: Option<Rating>,
    pub author: Option<UserV>,
    pub parent: Option<Seq<char>>,
    pub quoting: Option<Box<TetV>>,
}

impl View for Tet {
    type V = TetV;

    open spec fn view(&self) -> TetV
        decreases self,
    {
        TetV {
            id: self.id@,
            content: self.content@,
            created_at: self.created_at as int,
            likes_count: self.likes_count as int,
            dislikes_count: self.dislikes_count as int,
            rating: self.rating as int,
            replies_count: self.replies_count as int,
            saves_count: self.saves_count as int,
            my_rating: self.my_rating,
            author: match &self.author {
                Some(u) => Some(u@),
                None => None,
            },
            parent: self.parent.deep_view(),
            quoting: match &self.quoting {
                Some(b) => Some(Box::new((**b)@)),
                None => None,
            },
        }
    }
}

impl DeepView for Tet {
    type V = TetV;

    open spec fn deep_view(&self) -> TetV {
        self.view()
    }
}

/// An optional rating on the wire: its code, or null.
pub open spec fn opt_rating_json(r: Option<Rating>) -> JsonV {
    match r {
        Some(x) => JsonV::Int(rating_code(x)),
        None => JsonV::Null,
    }
}

/// An optional user on the wire: its object, or null.
pub open spec fn opt_user_json(u: Option<UserV>) -> JsonV {
    match u {
        Some(x) => user_to_json_v(x),
        None => JsonV::Null,
    }
}

/// The members of a post's wire JSON, all always present.
pub open spec fn tet_fields_v(t: TetV) -> Seq<(Seq<char>, JsonV)>
    decreases t, 1int,
{
    seq![
        ("id"@, JsonV::Str(t.id)),
        ("content"@, JsonV::Str(t.content)),
        ("createdAt"@, JsonV::Int(t.created_at)),
        ("likesCount"@, JsonV::Int(t.likes_count)),
        ("dislikesCount"@, JsonV::Int(t.dislikes_count)),
        ("rating"@, JsonV::Int(t.rating)),
        ("repliesCount"@, JsonV::Int(t.replies_count)),
        ("savesCount"@, JsonV::Int(t.saves_count)),
        ("myRating"@, opt_rating_json(t.my_rating)),
        ("author"@, opt_user_json(t.author)),
        ("parent"@, opt_str_json(t.parent)),
        (
            "quoting"@,
            match t.quoting {
                Some(q) => tet_to_json_v(*q),
                None => JsonV::Null,
            },
        ),
    ]
}

/// The wire JSON of a post.
pub open spec fn tet_to_json_v(t: TetV) -> JsonV
    decreases t, 2int,
{
    JsonV::Obj(tet_fields_v(t))
}

/// A required identifier member: a string spelling a UUID.
pub open spec fn req_uuid_v(o: Seq<(Seq<char>, JsonV)>, k: Seq<char>) -> Option<Seq<char>> {
    match obj_get_v(o, k) {
        Some(JsonV::Str(s)) => if is_uuid_text(s) {
            Some(s)
        } else {
            None
        },
        _ => None,
    }
}

/// An optional identifier member: absent or null reads as none, any string
/// must spell a UUID.
pub open spec fn opt_uuid_v(o: Seq<(Seq<char>, JsonV)>, k: Seq<char>) -> Option<
    Option<Seq<char>>,
> {
    match obj_get_v(o, k) {
        Some(JsonV::Str(s)) => if is_uuid_text(s) {
            Some(Some(s))
        } else {
            None
        },
        Some(JsonV::Null) => Some(None),
        None => Some(None),
        _ => None,
    }
}

fn get_req_uuid(o: &Vec<(String, Json)>, k: &str) -> (r: Option<String>)
    ensures
        match r {
            Some(s) => req_uuid_v(o.deep_view(), k@) == Some(s@),
            None => req_uuid_v(o.deep_view(), k@) is None,
        },
{
    match obj_get(o, k) {
        Some(Json::Str(s)) => {
            if is_uuid_str(s.as_str()) {
                Some(s.clone())
            } else {
                None
            }
        },
        _ => None,
    }
}

fn get_opt_uuid(o: &Vec<(String, Json)>, k: &str) -> (r: Option<Option<String>>)
    ensures
        match r {
            Some(s) => opt_uuid_v(o.deep_view(), k@) == Some(s.deep_view()),
            None => opt_uuid_v(o.deep_view(), k@) is None,
        },
{
    match obj_get(o, k) {
        Some(Json::Str(s)) => {
            if is_uuid_str(s.as_str()) {
                Some(Some(s.clone()))
            } else {
                None
            }
        },
        Some(Json::Null) => Some(None),
        None => Some(None),
        _ => None,
    }
}

/// An optional rating member: absent or null reads as none, any number
/// must be a rating code.
pub open spec fn opt_rating_v(o: Seq<(Seq<char>, JsonV)>, k: Seq<char>) -> Option<Option<Rating>> {
    match obj_get_v(o, k) {
        Some(JsonV::Int(i)) => match rating_of_code(i) {
            Some(r) => Some(Some(r)),
            None => None,
        },
        Some(JsonV::Null) => Some(None),
        None => Some(None),
        _ => None,
    }
}

/// An optional user member: absent or null reads as none, anything else
/// must decode as a user.
pub open spec fn opt_user_v(o: Seq<(Seq<char>, JsonV)>, k: Seq<char>) -> Option<Option<UserV>> {
    match obj_get_v(o, k) {
        Some(JsonV::Null) => Some(None),
        None => Some(None),
        Some(j) => match user_from_json_v(j) {
            Some(u) => Some(Some(u)),
            None => None,
        },
    }
}

/// What decoding a post from a JSON value yields: an object whose texts,
/// numbers and nested values all have the expected shapes; the quoted
/// post, when present and not null, decodes by the same reading.
pub open spec fn tet_from_json_v(j: JsonV) -> Option<TetV>
    decreases j,
    via tet_from_json_v_decreases
{
    match j {
        JsonV::Obj(o) => match (
            req_uuid_v(o, "id"@),
            req_str_v(o, "content"@),
            req_i64_v(o, "createdAt"@),
            req_i32_v(o, "likesCount"@),
            req_i32_v(o, "dislikesCount"@),
            req_i32_v(o, "rating"@),
            req_i32_v(o, "repliesCount"@),
            req_i32_v(o, "savesCount"@),
            opt_rating_v(o, "myRating"@),
            opt_user_v(o, "author"@),
            opt_uuid_v(o, "parent"@),
        ) {
            (
                Some(id),
                Some(content),
                Some(ca),
                Some(lc),
                Some(dc),
                Some(ra),
                Some(rc),
                Some(sc),
                Some(mr),
                Some(au),
                Some(pa),
            ) => match obj_get_v(o, "quoting"@) {
                Some(JsonV::Null) => Some(
                    TetV {
                        id: id,
                        content: content,
                        created_at: ca,
                        likes_count: lc,
                        dislikes_count: dc,
                        rating: ra,
                        replies_count: rc,
                        saves_count: sc,
                        my_rating: mr,
                        author: au,
                        parent: pa,
                        quoting: None,
                    },
                ),
                None => Some(
                    TetV {
                        id: id,
                        content: content,
                        created_at: ca,
                        likes_count: lc,
                        dislikes_count: dc,
                        rating: ra,
                        replies_count: rc,
                        saves_count: sc,
                        my_rating: mr,
                        author: au,
                        parent: pa,
                        quoting: None,
                    },
                ),
                Some(q) => match tet_from_json_v(q) {
                    Some(t) => Some(
                        TetV {
                            id: id,
                            content: content,
                            created_at: ca,
                            likes_count: lc,
                            dislikes_count: dc,
                            rating: ra,
                            replies_count: rc,
                            saves_count: sc,
                            my_rating: mr,
                            author: au,
                            parent: pa,
                            quoting: Some(Box::new(t)),
                        },
                    ),
                    None => None,
                },
            },
            _ => None,
        },
        _ => None,
    }
}

#[via_fn]
proof fn tet_from_json_v_decreases(j: JsonV) {
    match j {
        JsonV::Obj(o) => crate::json::lemma_obj_get_smaller(o, "quoting"@),
        _ => (),
    }
}

/// A post fits the wire: its counters are in the 32-bit range, its own and
/// its parent's identifiers spell UUIDs, its author's counters fit, and
/// every post it quotes is well formed in turn.
pub open spec fn tet_wf(t: TetV) -> bool
    decreases t,
{
    &&& i32::MIN <= t.likes_count <= i32::MAX
    &&& i32::MIN <= t.dislikes_count <= i32::MAX
    &&& i32::MIN <= t.rating <= i32::MAX
    &&& i32::MIN <= t.replies_count <= i32::MAX
    &&& i32::MIN <= t.saves_count <= i32::MAX
    &&& is_uuid_text(t.id)
    &&& match t.parent {
        Some(p) => is_uuid_text(p),
        None => true,
    }
    &&& match t.author {
        Some(u) => crate::types::user::user_wf(u),
        None => true,
    }
    &&& match t.quoting {
        Some(q) => tet_wf(*q),
        None => true,
    }
}

proof fn lemma_tet_keys()
    ensures
        "id"@.len() == 2,
        "content"@.len() == 7,
        "createdAt"@.len() == 9,
        "likesCount"@.len() == 10,
        "dislikesCount"@.len() == 13,
        "rating"@.len() == 6,
        "repliesCount"@.len() == 12,
        "savesCount"@.len() == 10,
        "myRating"@.len() == 8,
        "author"@.len() == 6,
        "parent"@.len() == 6,
        "quoting"@.len() == 7,
        "likesCount"@ != "savesCount"@,
        "rating"@ != "author"@,
        "rating"@ != "parent"@,
        "author"@ != "parent"@,
        "content"@ != "quoting"@,
{
    reveal_strlit("id");
    reveal_strlit("content");
    reveal_strlit("createdAt");
    reveal_strlit("likesCount");
    reveal_strlit("dislikesCount");
    reveal_strlit("rating");
    reveal_strlit("repliesCount");
    reveal_strlit("savesCount");
    reveal_strlit("myRating");
    reveal_strlit("author");
    reveal_strlit("parent");
    reveal_strlit("quoting");
    assert("likesCount"@[0] == 'l' && "savesCount"@[0] == 's');
    assert("rating"@[0] == 'r' && "author"@[0] == 'a' && "parent"@[0] == 'p');
    assert("content"@[0] == 'c' && "quoting"@[0] == 'q');
}

/// Decoding inverts encoding on every well-formed post.
pub proof fn lemma_tet_roundtrip(t: TetV)
    requires
        tet_wf(t),
    ensures
        tet_from_json_v(tet_to_json_v(t)) == Some(t),
    decreases t,
{
    lemma_tet_keys();
    let o = tet_fields_v(t);
    assert(obj_get_v(o, "id"@) == Some(JsonV::Str(t.id)));
    lemma_obj_get_skip(o, "content"@, 1);
    assert(o.skip(1)[0] == o[1]);
    assert(obj_get_v(o, "content"@) == Some(JsonV::Str(t.content)));
    lemma_obj_get_skip(o, "createdAt"@, 2);
    assert(o.skip(2)[0] == o[2]);
    assert(obj_get_v(o, "createdAt"@) == Some(JsonV::Int(t.created_at)));
    lemma_obj_get_skip(o, "likesCount"@, 3);
    assert(o.skip(3)[0] == o[3]);
    assert(obj_get_v(o, "likesCount"@) == Some(JsonV::Int(t.likes_count)));
    lemma_obj_get_skip(o, "dislikesCount"@, 4);
    assert(o.skip(4)[0] == o[4]);
    assert(obj_get_v(o, "dislikesCount"@) == Some(JsonV::Int(t.dislikes_count)));
    lemma_obj_get_skip(o, "rating"@, 5);
    assert(o.skip(5)[0] == o[5]);
    assert(obj_get_v(o, "rating"@) == Some(JsonV::Int(t.rating)));
    lemma_obj_get_skip(o, "repliesCount"@, 6);
    assert(o.skip(6)[0] == o[6]);
    assert(obj_get_v(o, "repliesCount"@) == Some(JsonV::Int(t.replies_count)));
    lemma_obj_get_skip(o, "savesCount"@, 7);
    assert(o.skip(7)[0] == o[7]);
    assert(obj_get_v(o, "savesCount"@) == Some(JsonV::Int(t.saves_count)));
    lemma_obj_get_skip(o, "myRating"@, 8);
    assert(o.skip(8)[0] == o[8]);
    assert(obj_get_v(o, "myRating"@) == Some(opt_rating_json(t.my_rating)));
    lemma_obj_get_skip(o, "author"@, 9);
    assert(o.skip(9)[0] == o[9]);
    assert(obj_get_v(o, "author"@) == Some(opt_user_json(t.author)));
    lemma_obj_get_skip(o, "parent"@, 10);
    assert(o.skip(10)[0] == o[10]);
    assert(obj_get_v(o, "parent"@) == Some(opt_str_json(t.parent)));
    lemma_obj_get_skip(o, "quoting"@, 11);
    assert(o.skip(11)[0] == o[11]);
    match t.author {
        Some(u) => lemma_user_roundtrip(u),
        None => (),
    }
    match t.quoting {
        Some(q) => {
            lemma_tet_roundtrip(*q);
            assert(obj_get_v(o, "quoting"@) == Some(tet_to_json_v(*q)));
        },
        None => {
            assert(obj_get_v(o, "quoting"@) == Some(JsonV::Null));
        },
    }
    assert(tet_from_json_v(tet_to_json_v(t)) == Some(t));
}

fn get_opt_rating(o: &Vec<(String, Json)>, k: &str) -> (r: Option<Option<Rating>>)
    ensures
        match r {
            Some(ra) => opt_rating_v(o.deep_view(), k@) == Some(ra),
            None => opt_rating_v(o.deep_view(), k@) is None,
        },
{
    match obj_get(o, k) {
        Some(Json::Int(i)) => match Rating::from_code(*i) {
            Some(r) => Some(Some(r)),
            None => None,
        },
        Some(Json::Null) => Some(None),
        None => Some(None),
        _ => None,
    }
}

fn get_opt_user(o: &Vec<(String, Json)>, k: &str) -> (r: Option<Option<User>>)
    ensures
        match r {
            Some(Some(u)) => opt_user_v(o.deep_view(), k@) == Some(Some(u@)),
            Some(None) => opt_user_v(o.deep_view(), k@) == Some(None::<UserV>),
            None => opt_user_v(o.deep_view(), k@) is None,
        },
{
    match obj_get(o, k) {
        Some(Json::Null) => Some(None),
        None => Some(None),
        Some(j) => match User::from_json(j) {
            Some(u) => Some(Some(u)),
            None => None,
        },
    }
}

impl Tet {
    /// Decodes a post from a JSON value.
    pub fn from_json(j: &Json) -> (r: Option<Tet>)
        ensures
            match r {
                Some(t) => tet_from_json_v(j@) == Some(t@),
                None => tet_from_json_v(j@) is None,
            },
        decreases j,
    {
        match j {
            Json::Obj(o) => {
                proof {
                    lemma_obj_view(*o);
                }
                let id = match get_req_uuid(o, "id") {
                    Some(v) => v,
                    None => {
                        return None;
                    },
                };
                let content = match get_req_str(o, "content") {
                    Some(v) => v,
                    None => {
                        return None;
                    },
                };
                let created_at = match get_req_i64(o, "createdAt") {
                    Some(v) => v,
                    None => {
                        return None;
                    },
                };
                let likes_count = match get_req_i32(o, "likesCount") {
                    Some(v) => v,
                    None => {
                        return None;
                    },
                };
                let dislikes_count = match get_req_i32(o, "dislikesCount") {
                    Some(v) => v,
                    None => {
                        return None;
                    },
                };
                let rating = match get_req_i32(o, "rating") {
                    Some(v) => v,
                    None => {
                        return None;
                    },
                };
                let replies_count = match get_req_i32(o, "repliesCount") {
                    Some(v) => v,
                    None => {
                        return None;
                    },
                };
                let saves_count = match get_req_i32(o, "savesCount") {
                    Some(v) => v,
                    None => {
                        return None;
                    },
                };
                let my_rating = match get_opt_rating(o, "myRating") {
                    Some(v) => v,
                    None => {
                        return None;
                    },
                };
                let author = match get_opt_user(o, "author") {
                    Some(v) => v,
                    None => {
                        return None;
                    },
                };
                let parent = match get_opt_uuid(o, "parent") {
                    Some(v) => v,
                    None => {
                        return None;
                    },
                };
                let quoting = match obj_get(o, "quoting") {
                    Some(q) => match q {
                        Json::Null => None,
                        _ => match Tet::from_json(q) {
                            Some(t) => Some(Box::new(t)),
                            None => {
                                return None;
                            },
                        },
                    },
                    None => None,
                };
                Some(
                    Tet {
                        id,
                        content,
                        created_at,
                        likes_count,
                        dislikes_count,
                        rating,
                        replies_count,
                        saves_count,
                        my_rating,
                        author,
                        parent,
                        quoting,
                    },
                )
            },
            _ => None,
        }
    }

    /// Encodes this post to its wire JSON; decoding that JSON yields this
    /// post back whenever the post is well formed — in particular whenever
    /// its identifiers spell UUIDs, as every post the wire carries does.
    pub fn to_json(&self) -> (r: Json)
        ensures
            r@ == tet_to_json_v(self@),
            tet_wf(self@) ==> tet_from_json_v(r@) == Some(self@),
        decreases self,
    {
        let mut fields: Vec<(String, Json)> = Vec::new();
        fields.push(("id".to_owned(), Json::Str(self.id.clone())));
        fields.push(("content".to_owned(), Json::Str(self.content.clone())));
        fields.push(("createdAt".to_owned(), Json::Int(self.created_at)));
        fields.push(("likesCount".to_owned(), Json::Int(self.likes_count as i64)));
        fields.push(("dislikesCount".to_owned(), Json::Int(self.dislikes_count as i64)));
        fields.push(("rating".to_owned(), Json::Int(self.rating as i64)));
        fields.push(("repliesCount".to_owned(), Json::Int(self.replies_count as i64)));
        fields.push(("savesCount".to_owned(), Json::Int(self.saves_count as i64)));
        fields.push(
            (
                "myRating".to_owned(),
                match &self.my_rating {
                    Some(r) => Json::Int(r.as_code()),
                    None => Json::Null,
                },
            ),
        );
        fields.push(
            (
                "author".to_owned(),
                match &self.author {
                    Some(u) => u.to_json(),
                    None => Json::Null,
                },
            ),
        );
        fields.push(
            (
                "parent".to_owned(),
                match &self.parent {
                    Some(p) => Json::Str(p.clone()),
                    None => Json::Null,
                },
            ),
        );
        fields.push(
            (
                "quoting".to_owned(),
                match &self.quoting {
                    Some(b) => b.to_json(),
                    None => Json::Null,
                },
            ),
        );
        let ghost gf = fields;
        let r = Json::Obj(fields);
        proof {
            lemma_obj_view(gf);
            assert(gf.deep_view() =~= tet_fields_v(self@));
            if tet_wf(self@) {
                lemma_tet_roundtrip(self@);
            }
        }
        r
    }

    /// The request that fetches one post: a bodyless GET of
    /// `posts/post/<id>`.
    pub fn get_request(id: &str) -> (r: Request)
        ensures
            r.method == Method::Get,
            r.path@ == "posts/post/"@ + id@,
            r.body is Empty,
    {
        let mut path = "posts/post/".to_owned();
        path.append(id);
        Request { method: Method::Get, path, body: RequestBody::Empty }
    }

    /// The request that refetches this post's full author, when the post
    /// carries one: a bodyless GET of `users/byId/<author id>`; no request
    /// when it carries none.
    pub fn author_request(&self) -> (r: Option<Request>)
        ensures
            match &self.author {
                Some(u) => r matches Some(req) && req.method == Method::Get && req.path@
                    == "users/byId/"@ + u.id@ && req.body is Empty,
                None => r is None,
            },
    {
        match &self.author {
            Some(u) => Some(User::get_by_id_request(u.id.as_str())),
            None => None,
        }
    }

    /// The request that fetches this post's parent, when it has one: a
    /// bodyless GET of `posts/post/<parent id>`; no request when it is a
    /// root post.
    pub fn parent_request(&self) -> (r: Option<Request>)
        ensures
            match &self.parent {
                Some(p) => r matches Some(req) && req.method == Method::Get && req.path@
                    == "posts/post/"@ + p@ && req.body is Empty,
                None => r is None,
            },
    {
        match &self.parent {
            Some(p) => Some(Tet::get_request(p.as_str())),
            None => None,
        }
    }

    /// Decides what any post-returning operation yields from what its HTTP
    /// exchange came to.
    pub fn from_response(outcome: HttpOutcome) -> (r: ApiResult<Tet>)
        ensures
            match outcome {
                HttpOutcome::Transport(m) => r matches Err(Error::Transport(m2)) && m2 == m,
                HttpOutcome::Response(status, body) => match classified_v(status, body@) {
                    Ok(_) => match json_of_text(body@) {
                        Some(j) => match tet_from_json_v(j) {
                            Some(t) => r matches Ok(tet) && tet@ == t,
                            None => r matches Err(Error::Decode),
                        },
                        None => r matches Err(Error::Decode),
                    },
                    Err(Some(te)) => r matches Err(Error::Tetter(e)) && e@ == te,
                    Err(None) => r matches Err(Error::Decode),
                },
            },
    {
        let body = match classify_response(outcome) {
            Ok(b) => b,
            Err(e) => {
                return Err(e);
            },
        };
        let j = match parse_json(body.as_str()) {
            Some(j) => j,
            None => {
                return Err(Error::Decode);
            },
        };
        match Tet::from_json(&j) {
            Some(t) => Ok(t),
            None => Err(Error::Decode),
        }
    }
}

/// A post together with its reply tree.
#[derive(Debug, PartialEq)]
pub struct Thread {
    pub post: Tet,
    pub replies: Vec<Thread>,
}

/// Mathematical shape of a thread.
pub struct ThreadV {
    pub post: TetV,
    pub replies: Seq<ThreadV>,
}

/// The views of a forest of threads, from position `i` on.
pub open spec fn threads_view_from(v: Vec<Thread>, i: int) -> Seq<ThreadV>
    decreases v, v@.len() - i,
{
    if i < 0 || i >= v@.len() {
        Seq::empty()
    } else {
        seq![v[i]@] + threads_view_from(v, i + 1)
    }
}

impl View for Thread {
    type V = ThreadV;

    open spec fn view(&self) -> ThreadV
        decreases self, 0int,
    {
        ThreadV { post: self.post@, replies: threads_view_from(self.replies, 0) }
    }
}

impl DeepView for Thread {
    type V = ThreadV;

    open spec fn deep_view(&self) -> ThreadV {
        self.view()
    }
}

proof fn lemma_threads_view_from(v: Vec<Thread>, i: int)
    requires
        0 <= i <= v@.len(),
    ensures
        threads_view_from(v, i).len() == v@.len() - i,
        forall|k: int| 0 <= k < v@.len() - i ==> threads_view_from(v, i)[k] == v@[i + k]@,
    decreases v@.len() - i,
{
    if i < v@.len() {
        lemma_threads_view_from(v, i + 1);
        assert(threads_view_from(v, i) == seq![v[i]@] + threads_view_from(v, i + 1));
        assert(threads_view_from(v, i).len() == v@.len() - i);
        assert forall|k: int|
            0 <= k < v@.len() - i implies threads_view_from(v, i)[k] == v@[i + k]@ by {
            if k > 0 {
                assert(threads_view_from(v, i)[k] == threads_view_from(v, i + 1)[k - 1]);
            }
        }
    } else {
        assert(threads_view_from(v, i) =~= Seq::empty());
    }
}

/// A thread's view lists exactly its replies' views.
pub proof fn lemma_threads_view(v: Vec<Thread>)
    ensures
        threads_view_from(v, 0) == v.deep_view(),
{
    lemma_threads_view_from(v, 0);
    assert(threads_view_from(v, 0) =~= v.deep_view());
}

/// The wire JSON of a forest of threads, from position `i` on.
pub open spec fn threads_to_arr_v(rs: Seq<ThreadV>, i: int) -> Seq<JsonV>
    decreases rs, rs.len() - i,
{
    if i < 0 || i >= rs.len() {
        Seq::empty()
    } else {
        seq![thread_to_json_v(rs[i])] + threads_to_arr_v(rs, i + 1)
    }
}

/// The wire JSON of a thread: its post, and its replies as an array.
pub open spec fn thread_to_json_v(t: ThreadV) -> JsonV
    decreases t, 0int,
{
    JsonV::Obj(
        seq![
            ("post"@, tet_to_json_v(t.post)),
            ("replies"@, JsonV::Arr(threads_to_arr_v(t.replies, 0))),
        ],
    )
}

proof fn lemma_threads_to_arr_from(rs: Seq<ThreadV>, i: int)
    requires
        0 <= i <= rs.len(),
    ensures
        threads_to_arr_v(rs, i).len() == rs.len() - i,
        forall|k: int|
            0 <= k < rs.len() - i ==> threads_to_arr_v(rs, i)[k] == thread_to_json_v(rs[i + k]),
    decreases rs.len() - i,
{
    if i < rs.len() {
        lemma_threads_to_arr_from(rs, i + 1);
        assert forall|k: int|
            0 <= k < rs.len() - i implies threads_to_arr_v(rs, i)[k] == thread_to_json_v(
            rs[i + k],
        ) by {
            if k > 0 {
                assert(threads_to_arr_v(rs, i)[k] == threads_to_arr_v(rs, i + 1)[k - 1]);
            }
        }
    }
}

/// What decoding a forest of threads from an array's elements yields, from
/// position `i` on: every element must decode.
pub open spec fn threads_from_arr_v(a: Seq<JsonV>, i: int) -> Option<Seq<ThreadV>>
    decreases a, a.len() - i,
{
    if i < 0 || i >= a.len() {
        Some(Seq::empty())
    } else {
        match thread_from_json_v(a[i]) {
            Some(t) => match threads_from_arr_v(a, i + 1) {
                Some(r) => Some(seq![t] + r),
                None => None,
            },
            None => None,
        }
    }
}

/// What decoding a list of threads from a JSON value yields: an array
/// whose every element is a thread.
pub open spec fn thread_vec_from_json_v(j: JsonV) -> Option<Seq<ThreadV>>
    decreases j, 1int,
{
    match j {
        JsonV::Arr(a) => threads_from_arr_v(a, 0),
        _ => None,
    }
}

/// What decoding one thread from a JSON value yields: an object with a
/// post and an array of reply threads, both mandatory.
pub open spec fn thread_from_json_v(j: JsonV) -> Option<ThreadV>
    decreases j, 0int,
    via thread_from_json_v_decreases
{
    match j {
        JsonV::Obj(o) => match (obj_get_v(o, "post"@), obj_get_v(o, "replies"@)) {
            (Some(p), Some(rj)) => match (tet_from_json_v(p), thread_vec_from_json_v(rj)) {
                (Some(post), Some(rs)) => Some(ThreadV { post: post, replies: rs }),
                _ => None,
            },
            _ => None,
        },
        _ => None,
    }
}

#[via_fn]
proof fn thread_from_json_v_decreases(j: JsonV) {
    match j {
        JsonV::Obj(o) => crate::json::lemma_obj_get_smaller(o, "replies"@),
        _ => (),
    }
}

/// Every post in a thread's tree is well formed.
pub open spec fn thread_wf(t: ThreadV) -> bool
    decreases t, 0int,
{
    tet_wf(t.post) && threads_wf_from(t.replies, 0)
}

/// Well-formedness of a forest of threads, from position `i` on.
pub open spec fn threads_wf_from(rs: Seq<ThreadV>, i: int) -> bool
    decreases rs, rs.len() - i,
{
    if i < 0 || i >= rs.len() {
        true
    } else {
        thread_wf(rs[i]) && threads_wf_from(rs, i + 1)
    }
}

proof fn lemma_thread_keys()
    ensures
        "post"@.len() == 4,
        "replies"@.len() == 7,
        "post"@ != "replies"@,
{
    reveal_strlit("post");
    reveal_strlit("replies");
}

/// Decoding inverts encoding on every well-formed thread.
pub proof fn lemma_thread_roundtrip(t: ThreadV)
    requires
        thread_wf(t),
    ensures
        thread_from_json_v(thread_to_json_v(t)) == Some(t),
    decreases t, 1int,
{
    lemma_thread_keys();
    let o = thread_to_json_v(t)->Obj_0;
    assert(obj_get_v(o, "post"@) == Some(tet_to_json_v(t.post)));
    lemma_obj_get_skip(o, "replies"@, 1);
    assert(o.skip(1)[0] == o[1]);
    assert(obj_get_v(o, "replies"@) == Some(JsonV::Arr(threads_to_arr_v(t.replies, 0))));
    lemma_tet_roundtrip(t.post);
    lemma_threads_arr_roundtrip(t.replies, 0);
    assert(t.replies.skip(0) =~= t.replies);
}

proof fn lemma_threads_arr_roundtrip(rs: Seq<ThreadV>, i: int)
    requires
        0 <= i <= rs.len(),
        threads_wf_from(rs, i),
    ensures
        threads_from_arr_v(threads_to_arr_v(rs, 0), i) == Some(rs.skip(i)),
    decreases rs, rs.len() - i,
{
    let enc = threads_to_arr_v(rs, 0);
    lemma_threads_to_arr_from(rs, 0);
    if i == rs.len() {
        assert(rs.skip(i) =~= Seq::empty());
    } else {
        assert(enc[i] == thread_to_json_v(rs[i]));
        lemma_thread_roundtrip(rs[i]);
        lemma_threads_arr_roundtrip(rs, i + 1);
        assert(seq![rs[i]] + rs.skip(i + 1) =~= rs.skip(i));
    }
}

impl Thread {
    /// Decodes a list of threads from a JSON value.
    pub fn vec_from_json(j: &Json) -> (r: Option<Vec<Thread>>)
        ensures
            match r {
                Some(ts) => thread_vec_from_json_v(j@) == Some(ts.deep_view()),
                None => thread_vec_from_json_v(j@) is None,
            },
        decreases j, 1int,
    {
        match j {
            Json::Arr(a) => {
                proof {
                    crate::json::lemma_arr_view(*a);
                    assert(*j == Json::Arr(*a));
                }
                let ghost av = a.deep_view();
                proof {
                    assert(j@ == JsonV::Arr(av));
                }
                let mut out: Vec<Thread> = Vec::new();
                let mut idx: usize = 0;
                proof {
                    assert(out.deep_view() + threads_from_arr_v(av, 0)->Some_0 =~= threads_from_arr_v(
                        av,
                        0,
                    )->Some_0);
                }
                while idx < a.len()
                    invariant
                        0 <= idx <= a@.len(),
                        *j == Json::Arr(*a),
                        j@ == JsonV::Arr(av),
                        av == a.deep_view(),
                        av.len() == a@.len(),
                        forall|k: int| 0 <= k < a@.len() ==> av[k] == a@[k]@,
                        threads_from_arr_v(av, 0) == (match threads_from_arr_v(av, idx as int) {
                            Some(rest) => Some(out.deep_view() + rest),
                            None => None::<Seq<ThreadV>>,
                        }),
                    decreases a@.len() - idx,
                {
                    proof {
                        assert(j->Arr_0 == *a);
                        assert(decreases_to!(*j => j->Arr_0));
                        assert(decreases_to!(*a => a@[idx as int]));
                    }
                    let t = match Thread::from_json(&a[idx]) {
                        Some(t) => t,
                        None => {
                            proof {
                                assert(threads_from_arr_v(av, idx as int) is None);
                                assert(thread_vec_from_json_v(j@) is None);
                            }
                            return None;
                        },
                    };
                    let ghost old_out = out.deep_view();
                    out.push(t);
                    proof {
                        assert(out.deep_view() =~= old_out + seq![t@]);
                        match threads_from_arr_v(av, idx + 1) {
                            Some(rest) => {
                                assert(old_out + (seq![t@] + rest) =~= (old_out + seq![t@])
                                    + rest);
                            },
                            None => (),
                        }
                    }
                    idx = idx + 1;
                }
                proof {
                    assert(threads_from_arr_v(av, idx as int) == Some(Seq::<ThreadV>::empty()));
                    assert(out.deep_view() + Seq::<ThreadV>::empty() =~= out.deep_view());
                }
                Some(out)
            },
            _ => None,
        }
    }

    /// Decodes one thread from a JSON value.
    pub fn from_json(j: &Json) -> (r: Option<Thread>)
        ensures
            match r {
                Some(t) => thread_from_json_v(j@) == Some(t@),
                None => thread_from_json_v(j@) is None,
            },
        decreases j, 0int,
    {
        match j {
            Json::Obj(o) => {
                proof {
                    lemma_obj_view(*o);
                }
                let pj = match obj_get(o, "post") {
                    Some(p) => p,
                    None => {
                        return None;
                    },
                };
                let post = match Tet::from_json(pj) {
                    Some(t) => t,
                    None => {
                        return None;
                    },
                };
                let rj = match obj_get(o, "replies") {
                    Some(x) => x,
                    None => {
                        return None;
                    },
                };
                let replies = match Thread::vec_from_json(rj) {
                    Some(v) => v,
                    None => {
                        return None;
                    },
                };
                proof {
                    lemma_threads_view(replies);
                }
                Some(Thread { post, replies })
            },
            _ => None,
        }
    }

    /// Encodes this thread to its wire JSON; decoding that JSON yields
    /// this thread back whenever every post in the tree is well formed.
    pub fn to_json(&self) -> (r: Json)
        ensures
            r@ == thread_to_json_v(self@),
            thread_wf(self@) ==> thread_from_json_v(r@) == Some(self@),
        decreases self, 2int,
    {
        let mut arr: Vec<Json> = Vec::new();
        let mut idx: usize = 0;
        while idx < self.replies.len()
            invariant
                0 <= idx <= self.replies@.len(),
                arr@.len() == idx,
                forall|k: int| 0 <= k < idx ==> arr@[k]@ == thread_to_json_v(self.replies@[k]@),
            decreases self.replies@.len() - idx,
        {
            let piece = self.replies[idx].to_json();
            arr.push(piece);
            idx = idx + 1;
        }
        let mut fields: Vec<(String, Json)> = Vec::new();
        fields.push(("post".to_owned(), self.post.to_json()));
        let ghost garr = arr;
        fields.push(("replies".to_owned(), Json::Arr(arr)));
        let ghost gf = fields;
        let r = Json::Obj(fields);
        proof {
            lemma_obj_view(gf);
            crate::json::lemma_arr_view(garr);
            lemma_threads_view_from(self.replies, 0);
            lemma_threads_to_arr_from(self@.replies, 0);
            assert(garr.deep_view() =~= threads_to_arr_v(self@.replies, 0));
            assert(gf.deep_view() =~= thread_to_json_v(self@)->Obj_0);
            if thread_wf(self@) {
                lemma_thread_roundtrip(self@);
            }
        }
        r
    }

    /// The request that fetches a post's thread of replies: a bodyless GET
    /// of `posts/thread/<id>`.
    pub fn get_request(id: &str) -> (r: Request)
        ensures
            r.method == Method::Get,
            r.path@ == "posts/thread/"@ + id@,
            r.body is Empty,
    {
        let mut path = "posts/thread/".to_owned();
        path.append(id);
        Request { method: Method::Get, path, body: RequestBody::Empty }
    }

    /// Decides what a thread-list operation yields from what its HTTP
    /// exchange came to.
    pub fn from_response(outcome: HttpOutcome) -> (r: ApiResult<Vec<Thread>>)
        ensures
            match outcome {
                HttpOutcome::Transport(m) => r matches Err(Error::Transport(m2)) && m2 == m,
                HttpOutcome::Response(status, body) => match classified_v(status, body@) {
                    Ok(_) => match json_of_text(body@) {
                        Some(j) => match thread_vec_from_json_v(j) {
                            Some(ts) => r matches Ok(v) && v.deep_view() == ts,
                            None => r matches Err(Error::Decode),
                        },
                        None => r matches Err(Error::Decode),
                    },
                    Err(Some(te)) => r matches Err(Error::Tetter(e)) && e@ == te,
                    Err(None) => r matches Err(Error::Decode),
                },
            },
    {
        let body = match classify_response(outcome) {
            Ok(b) => b,
            Err(e) => {
                return Err(e);
            },
        };
        let j = match parse_json(body.as_str()) {
            Some(j) => j,
            None => {
                return Err(Error::Decode);
            },
        };
        match Thread::vec_from_json(&j) {
            Some(ts) => Ok(ts),
            None => Err(Error::Decode),
        }
    }
}

/// The payload composing a post: its content, and the post it replies to,
/// if any. This shape is only ever written to the wire.
#[derive(Debug, PartialEq)]
pub struct ComposePost {
    pub content: String,
    pub parent: Option<String>,
}

/// Mathematical shape of a compose payload.
pub struct ComposePostV {
    pub content: Seq<char>,
    pub parent: Option<Seq<char>>,
}

impl View for ComposePost {
    type V = ComposePostV;

    open spec fn view(&self) -> ComposePostV {
        ComposePostV { content: self.content@, parent: self.parent.deep_view() }
    }
}

/// The wire JSON of a compose payload; the parent is omitted entirely when
/// absent.
pub open spec fn compose_to_json_v(c: ComposePostV) -> JsonV {
    match c.parent {
        Some(p) => JsonV::Obj(
            seq![("content"@, JsonV::Str(c.content)), ("parent"@, JsonV::Str(p))],
        ),
        None => JsonV::Obj(seq![("content"@, JsonV::Str(c.content))]),
    }
}

impl ComposePost {
    /// Encodes this payload to its wire JSON.
    pub fn to_json(&self) -> (r: Json)
        ensures
            r@ == compose_to_json_v(self@),
    {
        let mut fields: Vec<(String, Json)> = Vec::new();
        fields.push(("content".to_owned(), Json::Str(self.content.clone())));
        match &self.parent {
            Some(p) => fields.push(("parent".to_owned(), Json::Str(p.clone()))),
            None => (),
        }
        let ghost gf = fields;
        let r = Json::Obj(fields);
        proof {
            lemma_obj_view(gf);
            assert(gf.deep_view() =~= compose_to_json_v(self@)->Obj_0);
        }
        r
    }

    /// The request that composes a post: a POST of the compose payload to
    /// `accounts/composePost`.
    pub fn compose_request(content: &str, parent: Option<String>) -> (r: Request)
        ensures
            r.method == Method::Post,
            r.path@ == "accounts/composePost"@,
            r.body matches RequestBody::Json(j) && j@ == compose_to_json_v(
                ComposePostV { content: content@, parent: parent.deep_view() },
            ),
    {
        let data = ComposePost { content: content.to_owned(), parent };
        Request {
            method: Method::Post,
            path: "accounts/composePost".to_owned(),
            body: RequestBody::Json(data.to_json()),
        }
    }
}

/// The payload rating a post: the post and the reaction.
#[derive(Debug, PartialEq)]
pub struct RatePost {
    pub post_id: String,
    pub rating: Rating,
}

/// Mathematical shape of a rating payload.
pub struct RatePostV {
    pub post_id: Seq<char>,
    pub rating: Rating,
}

impl View for RatePost {
    type V = RatePostV;

    open spec fn view(&self) -> RatePostV {
        RatePostV { post_id: self.post_id@, rating: self.rating }
    }
}

/// The wire JSON of a rating payload.
pub open spec fn rate_to_json_v(p: RatePostV) -> JsonV {
    JsonV::Obj(
        seq![("postId"@, JsonV::Str(p.post_id)), ("rating"@, JsonV::Int(rating_code(p.rating)))],
    )
}

/// What decoding a rating payload from a JSON value yields.
pub open spec fn rate_from_json_v(j: JsonV) -> Option<RatePostV> {
    match j {
        JsonV::Obj(o) => match (req_uuid_v(o, "postId"@), obj_get_v(o, "rating"@)) {
            (Some(id), Some(JsonV::Int(code))) => match rating_of_code(code) {
                Some(ra) => Some(RatePostV { post_id: id, rating: ra }),
                None => None,
            },
            _ => None,
        },
        _ => None,
    }
}

/// Decoding inverts encoding on every rating payload whose post identifier
/// spells a UUID.
pub proof fn lemma_rate_roundtrip(p: RatePostV)
    requires
        is_uuid_text(p.post_id),
    ensures
        rate_from_json_v(rate_to_json_v(p)) == Some(p),
{
    reveal_strlit("postId");
    reveal_strlit("rating");
    assert("postId"@.len() == 6);
    assert("rating"@.len() == 6);
    assert("postId"@[0] == 'p' && "rating"@[0] == 'r');
    let o = rate_to_json_v(p)->Obj_0;
    assert(obj_get_v(o, "postId"@) == Some(JsonV::Str(p.post_id)));
    lemma_obj_get_skip(o, "rating"@, 1);
    assert(o.skip(1)[0] == o[1]);
    assert(obj_get_v(o, "rating"@) == Some(JsonV::Int(rating_code(p.rating))));
}

impl RatePost {
    /// Decodes a rating payload from a JSON value.
    pub fn from_json(j: &Json) -> (r: Option<RatePost>)
        ensures
            match r {
                Some(p) => rate_from_json_v(j@) == Some(p@),
                None => rate_from_json_v(j@) is None,
            },
    {
        match j {
            Json::Obj(o) => {
                proof {
                    lemma_obj_view(*o);
                }
                let post_id = match get_req_uuid(o, "postId") {
                    Some(v) => v,
                    None => {
                        return None;
                    },
                };
                let rating = match obj_get(o, "rating") {
                    Some(Json::Int(code)) => match Rating::from_code(*code) {
                        Some(ra) => ra,
                        None => {
                            return None;
                        },
                    },
                    _ => {
                        return None;
                    },
                };
                Some(RatePost { post_id, rating })
            },
            _ => None,
        }
    }

    /// Encodes this payload to its wire JSON; decoding that JSON yields
    /// this payload back whenever the post identifier spells a UUID.
    pub fn to_json(&self) -> (r: Json)
        ensures
            r@ == rate_to_json_v(self@),
            is_uuid_text(self.post_id@) ==> rate_from_json_v(r@) == Some(self@),
    {
        let mut fields: Vec<(String, Json)> = Vec::new();
        fields.push(("postId".to_owned(), Json::Str(self.post_id.clone())));
        fields.push(("rating".to_owned(), Json::Int(self.rating.as_code())));
        let ghost gf = fields;
        let r = Json::Obj(fields);
        proof {
            lemma_obj_view(gf);
            assert(gf.deep_view() =~= rate_to_json_v(self@)->Obj_0);
            if is_uuid_text(self.post_id@) {
                lemma_rate_roundtrip(self@);
            }
        }
        r
    }

    /// The request that rates a post: a POST of the rating payload to
    /// `accounts/ratePost`.
    pub fn rate_request(post_id: &str, rating: Rating) -> (r: Request)
        ensures
            r.method == Method::Post,
            r.path@ == "accounts/ratePost"@,
            r.body matches RequestBody::Json(j) && j@ == rate_to_json_v(
                RatePostV { post_id: post_id@, rating: rating },
            ),
    {
        let data = RatePost { post_id: post_id.to_owned(), rating };
        Request {
            method: Method::Post,
            path: "accounts/ratePost".to_owned(),
            body: RequestBody::Json(data.to_json()),
        }
    }
}

} // verus!
