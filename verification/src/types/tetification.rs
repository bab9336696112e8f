//! Tetifications: the notifications a user receives for likes, replies,
//! dislikes and profile shouts.

use vstd::prelude::*;
use vstd::string::*;
use crate::api::{HttpOutcome, Method, Request, RequestBody, classified_v, classify_response};
use crate::json::{
    Json, JsonV, get_req_bool, get_req_i32, json_of_text, lemma_arr_view, lemma_obj_get_skip,
    lemma_obj_view, obj_get, obj_get_v, parse_json, req_bool_v, req_i32_v, str_eq,
};
use crate::types::{ApiResult, Error};
use crate::types::tet::{Tet, TetV, tet_from_json_v, tet_to_json_v, tet_wf, lemma_tet_roundtrip};
use crate::types::user::{User, UserV, user_from_json_v, user_to_json_v, user_wf, lemma_user_roundtrip};

verus! {

broadcast use vstd::std_specs::vec::axiom_vec_index_decreases;

/// The event a tetification reports.
#[derive(Debug, Clone, Copy, PartialEq, Eq, Structural)]
pub enum TetificationType {
    PostLike,
    PostReply,
    PostDislike,
    ProfileShout,
}

/// The wire spelling of a tetification type.
pub open spec fn tetification_type_str(t: TetificationType) -> Seq<char> {
    match t {
        TetificationType::PostLike => "postLike"@,
        TetificationType::PostReply => "postReply"@,
        TetificationType::PostDislike => "postDislike"@,
        TetificationType::ProfileShout => "profileShout"@,
    }
}

/// The tetification type a wire spelling denotes, if any.
pub open spec fn tetification_type_of_str(s: Seq<char>) -> Option<TetificationType> {
    if s == "postLike"@ {
        Some(TetificationType::PostLike)
    } else if s == "postReply"@ {
        Some(TetificationType::PostReply)
    } else if s == "postDislike"@ {
        Some(TetificationType::PostDislike)
    } else if s == "profileShout"@ {
        Some(TetificationType::ProfileShout)
    } else {
        None
    }
}

/// Reading a tetification type's wire spelling back yields the same type.
pub proof fn lemma_tetification_type_roundtrip(t: TetificationType)
    ensures
        tetification_type_of_str(tetification_type_str(t)) == Some(t),
{
    reveal_strlit("postLike");
    reveal_strlit("postReply");
    reveal_strlit("postDislike");
    reveal_strlit("profileShout");
    assert("postLike"@.len() == 8);
    assert("postReply"@.len() == 9);
    assert("postDislike"@.len() == 11);
    assert("profileShout"@.len() == 12);
}

impl TetificationType {
    /// The wire spelling of this type.
    pub fn as_wire_str(&self) -> (r: &'static str)
        ensures
            r@ == tetification_type_str(*self),
    {
        match self {
            TetificationType::PostLike => "postLike",
            TetificationType::PostReply => "postReply",
            TetificationType::PostDislike => "postDislike",
            TetificationType::ProfileShout => "profileShout",
        }
    }

    /// Reads a type from its wire spelling.
    pub fn from_wire_str(s: &str) -> (r: Option<TetificationType>)
        ensures
            r == tetification_type_of_str(s@),
    {
        if str_eq(s, "postLike") {
            Some(TetificationType::PostLike)
        } else if str_eq(s, "postReply") {
            Some(TetificationType::PostReply)
        } else if str_eq(s, "postDislike") {
            Some(TetificationType::PostDislike)
        } else if str_eq(s, "profileShout") {
            Some(TetificationType::ProfileShout)
        } else {
            None
        }
    }
}

/// A notification. Its numbering and its event type are the server's own;
/// the creation time is the raw millisecond timestamp, which the wire
/// always carries, possibly as null.
#[derive(Debug, PartialEq)]
pub struct Tetification {
    id: i32,
    pub created_at: Option<i64>,
    tetification_type: TetificationType,
    pub is_read: bool,
    pub target_post: Option<Tet>,
    pub authors: Vec<User>,
    pub reply: Option<Tet>,
}

/// Mathematical shape of a tetification.
pub struct TetificationV {
    pub id: int,
    pub created_at: Option<int>,
    pub tetification_type: TetificationType,
    pub is_read: bool,
    pub target_post: Option<TetV>,
    pub authors: Seq<UserV>,
    pub reply: Option<TetV>,
}

/// The views of a list of users, from position `i` on.
pub open spec fn users_view_from(v: Vec<User>, i: int) -> Seq<UserV>
    decreases v@.len() - i,
{
    if i < 0 || i >= v@.len() {
        Seq::empty()
    } else {
        seq![v[i]@] + users_view_from(v, i + 1)
    }
}

proof fn lemma_users_view_from(v: Vec<User>, i: int)
    requires
        0 <= i <= v@.len(),
    ensures
        users_view_from(v, i).len() == v@.len() - i,
        forall|k: int| 0 <= k < v@.len() - i ==> users_view_from(v, i)[k] == v@[i + k]@,
    decreases v@.len() - i,
{
    if i < v@.len() {
        lemma_users_view_from(v, i + 1);
        assert(users_view_from(v, i) == seq![v[i]@] + users_view_from(v, i + 1));
        assert forall|k: int|
            0 <= k < v@.len() - i implies users_view_from(v, i)[k] == v@[i + k]@ by {
            if k > 0 {
                assert(users_view_from(v, i)[k] == users_view_from(v, i + 1)[k - 1]);
            }
        }
    } else {
        assert(users_view_from(v, i) =~= Seq::empty());
    }
}

impl View for Tetification {
    type V = TetificationV;

    closed spec fn view(&self) -> TetificationV {
        TetificationV {
            id: self.id as int,
            created_at: match self.created_at {
                Some(t) => Some(t as int),
                None => None,
            },
            tetification_type: self.tetification_type,
            is_read: self.is_read,
            target_post: match &self.target_post {
                Some(t) => Some(t@),
                None => None,
            },
            authors: users_view_from(self.authors, 0),
            reply: match &self.reply {
                Some(t) => Some(t@),
                None => None,
            },
        }
    }
}

impl DeepView for Tetification {
    type V = TetificationV;

    closed spec fn deep_view(&self) -> TetificationV {
        self.view()
    }
}

/// The wire JSON of a list of users, from position `i` on.
pub open spec fn users_to_arr_v(us: Seq<UserV>, i: int) -> Seq<JsonV>
    decreases us.len() - i,
{
    if i < 0 || i >= us.len() {
        Seq::empty()
    } else {
        seq![user_to_json_v(us[i])] + users_to_arr_v(us, i + 1)
    }
}

proof fn lemma_users_to_arr_from(us: Seq<UserV>, i: int)
    requires
        0 <= i <= us.len(),
    ensures
        users_to_arr_v(us, i).len() == us.len() - i,
        forall|k: int| 0 <= k < us.len() - i ==> users_to_arr_v(us, i)[k] == user_to_json_v(
            us[i + k],
        ),
    decreases us.len() - i,
{
    if i < us.len() {
        lemma_users_to_arr_from(us, i + 1);
        assert(users_to_arr_v(us, i) == seq![user_to_json_v(us[i])] + users_to_arr_v(us, i + 1));
        assert forall|k: int|
            0 <= k < us.len() - i implies users_to_arr_v(us, i)[k] == user_to_json_v(
            us[i + k],
        ) by {
            if k > 0 {
                assert(users_to_arr_v(us, i)[k] == users_to_arr_v(us, i + 1)[k - 1]);
            }
        }
    } else {
        assert(users_to_arr_v(us, i) =~= Seq::empty());
    }
}

/// What decoding a list of users from an array's elements yields, from
/// position `i` on: every element must decode.
pub open spec fn users_from_arr_v(a: Seq<JsonV>, i: int) -> Option<Seq<UserV>>
    decreases a.len() - i,
{
    if i < 0 || i >= a.len() {
        Some(Seq::empty())
    } else {
        match user_from_json_v(a[i]) {
            Some(u) => match users_from_arr_v(a, i + 1) {
                Some(r) => Some(seq![u] + r),
                None => None,
            },
            None => None,
        }
    }
}

proof fn lemma_users_arr_roundtrip(us: Seq<UserV>, i: int)
    requires
        0 <= i <= us.len(),
        forall|k: int| 0 <= k < us.len() ==> user_wf(#[trigger] us[k]),
    ensures
        users_from_arr_v(users_to_arr_v(us, 0), i) == Some(us.skip(i)),
    decreases us.len() - i,
{
    let enc = users_to_arr_v(us, 0);
    lemma_users_to_arr_from(us, 0);
    if i == us.len() {
        assert(us.skip(i) =~= Seq::empty());
    } else {
        assert(enc[i] == user_to_json_v(us[i]));
        lemma_user_roundtrip(us[i]);
        lemma_users_arr_roundtrip(us, i + 1);
        assert(seq![us[i]] + us.skip(i + 1) =~= us.skip(i));
    }
}

/// A required but nullable integral member: null reads as nothing there,
/// a missing member does not decode.
pub open spec fn req_opt_i64_v(o: Seq<(Seq<char>, JsonV)>, k: Seq<char>) -> Option<Option<int>> {
    match obj_get_v(o, k) {
        Some(JsonV::Int(i)) => Some(Some(i)),
        Some(JsonV::Null) => Some(None),
        _ => None,
    }
}

fn get_req_opt_i64(o: &Vec<(String, Json)>, k: &str) -> (r: Option<Option<i64>>)
    ensures
        match r {
            Some(Some(i)) => req_opt_i64_v(o.deep_view(), k@) == Some(Some(i as int)),
            Some(None) => req_opt_i64_v(o.deep_view(), k@) == Some(None::<int>),
            None => req_opt_i64_v(o.deep_view(), k@) is None,
        },
{
    match obj_get(o, k) {
        Some(Json::Int(i)) => Some(Some(*i)),
        Some(Json::Null) => Some(None),
        _ => None,
    }
}

/// A required type member: a string spelling one of the event types.
pub open spec fn req_type_v(o: Seq<(Seq<char>, JsonV)>, k: Seq<char>) -> Option<
    TetificationType,
> {
    match obj_get_v(o, k) {
        Some(JsonV::Str(s)) => tetification_type_of_str(s),
        _ => None,
    }
}

fn get_req_type(o: &Vec<(String, Json)>, k: &str) -> (r: Option<TetificationType>)
    ensures
        r == req_type_v(o.deep_view(), k@),
{
    match obj_get(o, k) {
        Some(Json::Str(s)) => TetificationType::from_wire_str(s.as_str()),
        _ => None,
    }
}

/// An optional post member: absent or null reads as none, anything else
/// must decode as a post.
pub open spec fn opt_tet_v(o: Seq<(Seq<char>, JsonV)>, k: Seq<char>) -> Option<Option<TetV>> {
    match obj_get_v(o, k) {
        Some(JsonV::Null) => Some(None),
        None => Some(None),
        Some(j) => match tet_from_json_v(j) {
            Some(t) => Some(Some(t)),
            None => None,
        },
    }
}

fn get_opt_tet(o: &Vec<(String, Json)>, k: &str) -> (r: Option<Option<Tet>>)
    ensures
        match r {
            Some(Some(t)) => opt_tet_v(o.deep_view(), k@) == Some(Some(t@)),
            Some(None) => opt_tet_v(o.deep_view(), k@) == Some(None::<TetV>),
            None => opt_tet_v(o.deep_view(), k@) is None,
        },
{
    match obj_get(o, k) {
        Some(Json::Null) => Some(None),
        None => Some(None),
        Some(j) => match Tet::from_json(j) {
            Some(t) => Some(Some(t)),
            None => None,
        },
    }
}

/// A required list of users: an array whose every element is a user.
pub open spec fn req_users_v(o: Seq<(Seq<char>, JsonV)>, k: Seq<char>) -> Option<Seq<UserV>> {
    match obj_get_v(o, k) {
        Some(JsonV::Arr(a)) => users_from_arr_v(a, 0),
        _ => None,
    }
}

fn get_req_users(o: &Vec<(String, Json)>, k: &str) -> (r: Option<Vec<User>>)
    ensures
        match r {
            Some(us) => req_users_v(o.deep_view(), k@) == Some(users_view_from(us, 0)),
            None => req_users_v(o.deep_view(), k@) is None,
        },
{
    let rj = match obj_get(o, k) {
        Some(x) => x,
        None => {
            return None;
        },
    };
    match rj {
        Json::Arr(a) => {
            proof {
                lemma_arr_view(*a);
                assert(*rj == Json::Arr(*a));
            }
            let ghost av = a.deep_view();
            let mut out: Vec<User> = Vec::new();
            let mut idx: usize = 0;
            proof {
                assert(out.deep_view() + users_from_arr_v(av, 0)->Some_0 =~= users_from_arr_v(
                    av,
                    0,
                )->Some_0);
            }
            while idx < a.len()
                invariant
                    0 <= idx <= a@.len(),
                    av.len() == a@.len(),
                    obj_get_v(o.deep_view(), k@) == Some(JsonV::Arr(av)),
                    forall|k2: int| 0 <= k2 < a@.len() ==> av[k2] == a@[k2]@,
                    users_from_arr_v(av, 0) == (match users_from_arr_v(av, idx as int) {
                        Some(rest) => Some(out.deep_view() + rest),
                        None => None::<Seq<UserV>>,
                    }),
                decreases a@.len() - idx,
            {
                let u = match User::from_json(&a[idx]) {
                    Some(u) => u,
                    None => {
                        proof {
                            assert(users_from_arr_v(av, idx as int) is None);
                        }
                        return None;
                    },
                };
                let ghost old_out = out.deep_view();
                out.push(u);
                proof {
                    assert(out.deep_view() =~= old_out + seq![u@]);
                    match users_from_arr_v(av, idx + 1) {
                        Some(rest) => {
                            assert(old_out + (seq![u@] + rest) =~= (old_out + seq![u@]) + rest);
                        },
                        None => (),
                    }
                }
                idx = idx + 1;
            }
            proof {
                assert(users_from_arr_v(av, idx as int) == Some(Seq::<UserV>::empty()));
                assert(out.deep_view() + Seq::<UserV>::empty() =~= out.deep_view());
                lemma_users_view_from(out, 0);
                assert(users_view_from(out, 0) =~= out.deep_view());
            }
            Some(out)
        },
        _ => None,
    }
}

/// The members of a tetification's wire JSON, all always present; an
/// absent creation time is written as null.
pub open spec fn tetification_fields_v(n: TetificationV) -> Seq<(Seq<char>, JsonV)> {
    seq![
        ("id"@, JsonV::Int(n.id)),
        (
            "createdAt"@,
            match n.created_at {
                Some(t) => JsonV::Int(t),
                None => JsonV::Null,
            },
        ),
        ("type"@, JsonV::Str(tetification_type_str(n.tetification_type))),
        ("isRead"@, JsonV::Bool(n.is_read)),
        (
            "targetPost"@,
            match n.target_post {
                Some(t) => tet_to_json_v(t),
                None => JsonV::Null,
            },
        ),
        ("authors"@, JsonV::Arr(users_to_arr_v(n.authors, 0))),
        (
            "reply"@,
            match n.reply {
                Some(t) => tet_to_json_v(t),
                None => JsonV::Null,
            },
        ),
    ]
}

/// The wire JSON of a tetification.
pub open spec fn tetification_to_json_v(n: TetificationV) -> JsonV {
    JsonV::Obj(tetification_fields_v(n))
}

/// What decoding a tetification from a JSON value yields.
pub open spec fn tetification_from_json_v(j: JsonV) -> Option<TetificationV> {
    match j {
        JsonV::Obj(o) => match (
            req_i32_v(o, "id"@),
            req_opt_i64_v(o, "createdAt"@),
            req_type_v(o, "type"@),
            req_bool_v(o, "isRead"@),
            opt_tet_v(o, "targetPost"@),
            req_users_v(o, "authors"@),
            opt_tet_v(o, "reply"@),
        ) {
            (Some(id), Some(ca), Some(ty), Some(ir), Some(tp), Some(au), Some(re)) => Some(
                TetificationV {
                    id: id,
                    created_at: ca,
                    tetification_type: ty,
                    is_read: ir,
                    target_post: tp,
                    authors: au,
                    reply: re,
                },
            ),
            _ => None,
        },
        _ => None,
    }
}

/// What decoding a list of tetifications from an array's elements yields,
/// from position `i` on: every element must decode.
pub open spec fn tetifications_from_arr_v(a: Seq<JsonV>, i: int) -> Option<Seq<TetificationV>>
    decreases a.len() - i,
{
    if i < 0 || i >= a.len() {
        Some(Seq::empty())
    } else {
        match tetification_from_json_v(a[i]) {
            Some(n) => match tetifications_from_arr_v(a, i + 1) {
                Some(r) => Some(seq![n] + r),
                None => None,
            },
            None => None,
        }
    }
}

/// What decoding a list of tetifications from a JSON value yields.
pub open spec fn tetification_vec_from_json_v(j: JsonV) -> Option<Seq<TetificationV>> {
    match j {
        JsonV::Arr(a) => tetifications_from_arr_v(a, 0),
        _ => None,
    }
}

/// A tetification's numbering, its posts and all its authors fit the wire.
pub open spec fn tetification_wf(n: TetificationV) -> bool {
    &&& i32::MIN <= n.id <= i32::MAX
    &&& match n.target_post {
        Some(t) => tet_wf(t),
        None => true,
    }
    &&& match n.reply {
        Some(t) => tet_wf(t),
        None => true,
    }
    &&& forall|k: int| 0 <= k < n.authors.len() ==> user_wf(#[trigger] n.authors[k])
}

proof fn lemma_tetification_keys()
    ensures
        "id"@.len() == 2,
        "createdAt"@.len() == 9,
        "type"@.len() == 4,
        "isRead"@.len() == 6,
        "targetPost"@.len() == 10,
        "authors"@.len() == 7,
        "reply"@.len() == 5,
{
    reveal_strlit("id");
    reveal_strlit("createdAt");
    reveal_strlit("type");
    reveal_strlit("isRead");
    reveal_strlit("targetPost");
    reveal_strlit("authors");
    reveal_strlit("reply");
}

/// Decoding inverts encoding on every well-formed tetification.
pub proof fn lemma_tetification_roundtrip(n: TetificationV)
    requires
        tetification_wf(n),
    ensures
        tetification_from_json_v(tetification_to_json_v(n)) == Some(n),
{
    lemma_tetification_keys();
    let o = tetification_fields_v(n);
    assert(obj_get_v(o, "id"@) == Some(JsonV::Int(n.id)));
    lemma_obj_get_skip(o, "createdAt"@, 1);
    assert(o.skip(1)[0] == o[1]);
    lemma_obj_get_skip(o, "type"@, 2);
    assert(o.skip(2)[0] == o[2]);
    assert(obj_get_v(o, "type"@) == Some(JsonV::Str(tetification_type_str(n.tetification_type))));
    lemma_obj_get_skip(o, "isRead"@, 3);
    assert(o.skip(3)[0] == o[3]);
    assert(obj_get_v(o, "isRead"@) == Some(JsonV::Bool(n.is_read)));
    lemma_obj_get_skip(o, "targetPost"@, 4);
    assert(o.skip(4)[0] == o[4]);
    lemma_obj_get_skip(o, "authors"@, 5);
    assert(o.skip(5)[0] == o[5]);
    assert(obj_get_v(o, "authors"@) == Some(JsonV::Arr(users_to_arr_v(n.authors, 0))));
    lemma_obj_get_skip(o, "reply"@, 6);
    assert(o.skip(6)[0] == o[6]);
    lemma_tetification_type_roundtrip(n.tetification_type);
    match n.target_post {
        Some(t) => lemma_tet_roundtrip(t),
        None => (),
    }
    match n.reply {
        Some(t) => lemma_tet_roundtrip(t),
        None => (),
    }
    lemma_users_arr_roundtrip(n.authors, 0);
    assert(n.authors.skip(0) =~= n.authors);
    assert(tetification_from_json_v(tetification_to_json_v(n)) == Some(n));
}

impl Tetification {
    /// Decodes a tetification from a JSON value.
    pub fn from_json(j: &Json) -> (r: Option<Tetification>)
        ensures
            match r {
                Some(n) => tetification_from_json_v(j@) == Some(n@),
                None => tetification_from_json_v(j@) is None,
            },
    {
        match j {
            Json::Obj(o) => {
                proof {
                    lemma_obj_view(*o);
                }
                let id = match get_req_i32(o, "id") {
                    Some(v) => v,
                    None => {
                        return None;
                    },
                };
                let created_at = match get_req_opt_i64(o, "createdAt") {
                    Some(v) => v,
                    None => {
                        return None;
                    },
                };
                let tetification_type = match get_req_type(o, "type") {
                    Some(v) => v,
                    None => {
                        return None;
                    },
                };
                let is_read = match get_req_bool(o, "isRead") {
                    Some(v) => v,
                    None => {
                        return None;
                    },
                };
                let target_post = match get_opt_tet(o, "targetPost") {
                    Some(v) => v,
                    None => {
                        return None;
                    },
                };
                let authors = match get_req_users(o, "authors") {
                    Some(v) => v,
                    None => {
                        return None;
                    },
                };
                let reply = match get_opt_tet(o, "reply") {
                    Some(v) => v,
                    None => {
                        return None;
                    },
                };
                Some(
                    Tetification {
                        id,
                        created_at,
                        tetification_type,
                        is_read,
                        target_post,
                        authors,
                        reply,
                    },
                )
            },
            _ => None,
        }
    }

    /// Encodes this tetification to its wire JSON; decoding that JSON
    /// yields this tetification back whenever its posts are well formed.
    pub fn to_json(&self) -> (r: Json)
        ensures
            r@ == tetification_to_json_v(self@),
            tetification_wf(self@) ==> tetification_from_json_v(r@) == Some(self@),
    {
        let mut arr: Vec<Json> = Vec::new();
        let mut idx: usize = 0;
        while idx < self.authors.len()
            invariant
                0 <= idx <= self.authors@.len(),
                arr@.len() == idx,
                forall|k: int| 0 <= k < idx ==> arr@[k]@ == user_to_json_v(self.authors@[k]@),
            decreases self.authors@.len() - idx,
        {
            let piece = self.authors[idx].to_json();
            arr.push(piece);
            idx = idx + 1;
        }
        let mut fields: Vec<(String, Json)> = Vec::new();
        fields.push(("id".to_owned(), Json::Int(self.id as i64)));
        fields.push(
            (
                "createdAt".to_owned(),
                match self.created_at {
                    Some(t) => Json::Int(t),
                    None => Json::Null,
                },
            ),
        );
        fields.push(("type".to_owned(), Json::Str(self.tetification_type.as_wire_str().to_owned())));
        fields.push(("isRead".to_owned(), Json::Bool(self.is_read)));
        fields.push(
            (
                "targetPost".to_owned(),
                match &self.target_post {
                    Some(t) => t.to_json(),
                    None => Json::Null,
                },
            ),
        );
        let ghost garr = arr;
        fields.push(("authors".to_owned(), Json::Arr(arr)));
        fields.push(
            (
                "reply".to_owned(),
                match &self.reply {
                    Some(t) => t.to_json(),
                    None => Json::Null,
                },
            ),
        );
        let ghost gf = fields;
        let r = Json::Obj(fields);
        proof {
            lemma_obj_view(gf);
            lemma_arr_view(garr);
            lemma_users_view_from(self.authors, 0);
            lemma_users_to_arr_from(self@.authors, 0);
            assert(garr.deep_view() =~= users_to_arr_v(self@.authors, 0));
            assert(gf.deep_view() =~= tetification_fields_v(self@));
            if tetification_wf(self@) {
                lemma_tetification_roundtrip(self@);
            }
        }
        r
    }

    /// Decodes a list of tetifications from a JSON value.
    pub fn vec_from_json(j: &Json) -> (r: Option<Vec<Tetification>>)
        ensures
            match r {
                Some(ns) => tetification_vec_from_json_v(j@) == Some(ns.deep_view()),
                None => tetification_vec_from_json_v(j@) is None,
            },
    {
        match j {
            Json::Arr(a) => {
                proof {
                    lemma_arr_view(*a);
                    assert(*j == Json::Arr(*a));
                }
                let ghost av = a.deep_view();
                let mut out: Vec<Tetification> = Vec::new();
                let mut idx: usize = 0;
                proof {
                    assert(out.deep_view() + tetifications_from_arr_v(av, 0)->Some_0
                        =~= tetifications_from_arr_v(av, 0)->Some_0);
                }
                while idx < a.len()
                    invariant
                        0 <= idx <= a@.len(),
                        *j == Json::Arr(*a),
                        j@ == JsonV::Arr(av),
                        av.len() == a@.len(),
                        forall|k: int| 0 <= k < a@.len() ==> av[k] == a@[k]@,
                        tetifications_from_arr_v(av, 0) == (match tetifications_from_arr_v(
                            av,
                            idx as int,
                        ) {
                            Some(rest) => Some(out.deep_view() + rest),
                            None => None::<Seq<TetificationV>>,
                        }),
                    decreases a@.len() - idx,
                {
                    let n = match Tetification::from_json(&a[idx]) {
                        Some(n) => n,
                        None => {
                            proof {
                                assert(tetifications_from_arr_v(av, idx as int) is None);
                                assert(tetification_vec_from_json_v(j@) is None);
                            }
                            return None;
                        },
                    };
                    let ghost old_out = out.deep_view();
                    out.push(n);
                    proof {
                        assert(out.deep_view() =~= old_out + seq![n@]);
                        match tetifications_from_arr_v(av, idx + 1) {
                            Some(rest) => {
                                assert(old_out + (seq![n@] + rest) =~= (old_out + seq![n@])
                                    + rest);
                            },
                            None => (),
                        }
                    }
                    idx = idx + 1;
                }
                proof {
                    assert(tetifications_from_arr_v(av, idx as int) == Some(
                        Seq::<TetificationV>::empty(),
                    ));
                    assert(out.deep_view() + Seq::<TetificationV>::empty() =~= out.deep_view());
                }
                Some(out)
            },
            _ => None,
        }
    }

    /// Decides what the tetification-list operation yields from what its
    /// HTTP exchange came to.
    pub fn from_response(outcome: HttpOutcome) -> (r: ApiResult<Vec<Tetification>>)
        ensures
            match outcome {
                HttpOutcome::Transport(m) => r matches Err(Error::Transport(m2)) && m2 == m,
                HttpOutcome::Response(status, body) => match classified_v(status, body@) {
                    Ok(_) => match json_of_text(body@) {
                        Some(j) => match tetification_vec_from_json_v(j) {
                            Some(ns) => r matches Ok(v) && v.deep_view() == ns,
                            None => r matches Err(Error::Decode),
                        },
                        None => r matches Err(Error::Decode),
                    },
                    Err(Some(te)) => r matches Err(Error::Tetter(e)) && e@ == te,
                    Err(None) => r matches Err(Error::Decode),
                },
            },
    {
        let body = match classify_response(outcome) {
            Ok(b) => b,
            Err(e) => {
                return Err(e);
            },
        };
        let j = match parse_json(body.as_str()) {
            Some(j) => j,
            None => {
                return Err(Error::Decode);
            },
        };
        match Tetification::vec_from_json(&j) {
            Some(ns) => Ok(ns),
            None => Err(Error::Decode),
        }
    }

    /// The request that fetches the calling account's tetifications: a
    /// bodyless GET of `accounts/me/notifications`.
    pub fn get_request() -> (r: Request)
        ensures
            r.method == Method::Get,
            r.path@ == "accounts/me/notifications"@,
            r.body is Empty,
    {
        Request {
            method: Method::Get,
            path: "accounts/me/notifications".to_owned(),
            body: RequestBody::Empty,
        }
    }

    /// The request that marks every tetification read: a bodyless POST of
    /// `accounts/me/notifications/markAllRead`.
    pub fn mark_all_read_request() -> (r: Request)
        ensures
            r.method == Method::Post,
            r.path@ == "accounts/me/notifications/markAllRead"@,
            r.body is Empty,
    {
        Request {
            method: Method::Post,
            path: "accounts/me/notifications/markAllRead".to_owned(),
            body: RequestBody::Empty,
        }
    }
}

} // verus!
