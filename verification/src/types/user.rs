//! Users and the operations that fetch them.

use vstd::prelude::*;
use vstd::string::*;
use crate::api::{HttpOutcome, Method, Request, RequestBody, classified_v, classify_response};
use crate::json::{
    Json, JsonV, def_str_v, get_def_str, get_opt_i32, get_opt_i64, get_opt_str, json_of_text,
    lemma_obj_get_skip, lemma_obj_view, obj_get, obj_get_v, opt_i32_v, opt_i64_v, opt_str_v,
    parse_json, str_eq,
};
use crate::types::{ApiResult, Error};

verus! {

/// A user's station on the site.
#[derive(Debug, Clone, Copy, PartialEq, Eq, Structural)]
pub enum Role {
    Member,
    Moderator,
    Admin,
    Owner,
}

/// The wire spelling of a role.
pub open spec fn role_str(r: Role) -> Seq<char> {
    match r {
        Role::Member => "member"@,
        Role::Moderator => "moderator"@,
        Role::Admin => "admin"@,
        Role::Owner => "owner"@,
    }
}

/// The role a wire spelling denotes, if any.
pub open spec fn role_of_str(s: Seq<char>) -> Option<Role> {
    if s == "member"@ {
        Some(Role::Member)
    } else if s == "moderator"@ {
        Some(Role::Moderator)
    } else if s == "admin"@ {
        Some(Role::Admin)
    } else if s == "owner"@ {
        Some(Role::Owner)
    } else {
        None
    }
}

/// Reading a role's wire spelling back yields the same role.
pub proof fn lemma_role_roundtrip(r: Role)
    ensures
        role_of_str(role_str(r)) == Some(r),
{
    reveal_strlit("member");
    reveal_strlit("moderator");
    reveal_strlit("admin");
    reveal_strlit("owner");
    assert("member"@.len() == 6);
    assert("moderator"@.len() == 9);
    assert("admin"@.len() == 5);
    assert("owner"@.len() == 5);
    assert("admin"@[0] == 'a' && "owner"@[0] == 'o');
}

impl Role {
    /// The wire spelling of this role.
    pub fn as_wire_str(&self) -> (r: &'static str)
        ensures
            r@ == role_str(*self),
    {
        match self {
            Role::Member => "member",
            Role::Moderator => "moderator",
            Role::Admin => "admin",
            Role::Owner => "owner",
        }
    }

    /// Reads a role from its wire spelling.
    pub fn from_wire_str(s: &str) -> (r: Option<Role>)
        ensures
            r == role_of_str(s@),
    {
        if str_eq(s, "member") {
            Some(Role::Member)
        } else if str_eq(s, "moderator") {
            Some(Role::Moderator)
        } else if str_eq(s, "admin") {
            Some(Role::Admin)
        } else if str_eq(s, "owner") {
            Some(Role::Owner)
        } else {
            None
        }
    }
}

/// A user on Tetter. Identifiers are carried as the strings the wire uses;
/// the account's creation time is the raw millisecond timestamp, absent
/// when the server sent none.
#[derive(Debug, Clone, PartialEq)]
pub struct User {
    pub id: String,
    pub username: String,
    pub created_at: Option<i64>,
    pub avatar_url: Option<String>,
    pub role: Option<Role>,
    pub friends_count: Option<i32>,
    pub posts_count: Option<i32>,
}

/// Mathematical shape of a user.
pub struct UserV {
    pub id: Seq<char>,
    pub username: Seq<char>,
    pub created_at: Option<int>,
    pub avatar_url: Option<Seq<char>>,
    pub role: Option<Role>,
    pub friends_count: Option<int>,
    pub posts_count: Option<int>,
}

impl View for User {
    type V = UserV;

    open spec fn view(&self) -> UserV {
        UserV {
            id: self.id@,
            username: self.username@,
            created_at: match self.created_at {
                Some(t) => Some(t as int),
                None => None,
            },
            avatar_url: self.avatar_url.deep_view(),
            role: self.role,
            friends_count: match self.friends_count {
                Some(c) => Some(c as int),
                None => None,
            },
            posts_count: match self.posts_count {
                Some(c) => Some(c as int),
                None => None,
            },
        }
    }
}

impl DeepView for User {
    type V = UserV;

    open spec fn deep_view(&self) -> UserV {
        self.view()
    }
}

/// An optional text on the wire: the string itself, or null.
pub open spec fn opt_str_json(s: Option<Seq<char>>) -> JsonV {
    match s {
        Some(x) => JsonV::Str(x),
        None => JsonV::Null,
    }
}

/// An optional number on the wire: the number itself, or null.
pub open spec fn opt_int_json(i: Option<int>) -> JsonV {
    match i {
        Some(x) => JsonV::Int(x),
        None => JsonV::Null,
    }
}

/// An optional role on the wire: its spelling, or null.
pub open spec fn opt_role_json(r: Option<Role>) -> JsonV {
    match r {
        Some(x) => JsonV::Str(role_str(x)),
        None => JsonV::Null,
    }
}

/// The members of a user's wire JSON; the creation timestamp is omitted
/// entirely when absent.
pub open spec fn user_fields_v(u: UserV) -> Seq<(Seq<char>, JsonV)> {
    match u.created_at {
        Some(t) => seq![
            ("id"@, JsonV::Str(u.id)),
            ("username"@, JsonV::Str(u.username)),
            ("createdAt"@, JsonV::Int(t)),
            ("avatarUrl"@, opt_str_json(u.avatar_url)),
            ("role"@, opt_role_json(u.role)),
            ("friendsCount"@, opt_int_json(u.friends_count)),
            ("postsCount"@, opt_int_json(u.posts_count)),
        ],
        None => seq![
            ("id"@, JsonV::Str(u.id)),
            ("username"@, JsonV::Str(u.username)),
            ("avatarUrl"@, opt_str_json(u.avatar_url)),
            ("role"@, opt_role_json(u.role)),
            ("friendsCount"@, opt_int_json(u.friends_count)),
            ("postsCount"@, opt_int_json(u.posts_count)),
        ],
    }
}

/// The wire JSON of a user.
pub open spec fn user_to_json_v(u: UserV) -> JsonV {
    JsonV::Obj(user_fields_v(u))
}

/// An optional role member: absent or null reads as none, any string must
/// spell a role.
pub open spec fn opt_role_v(o: Seq<(Seq<char>, JsonV)>, k: Seq<char>) -> Option<Option<Role>> {
    match obj_get_v(o, k) {
        Some(JsonV::Str(s)) => match role_of_str(s) {
            Some(r) => Some(Some(r)),
            None => None,
        },
        Some(JsonV::Null) => Some(None),
        None => Some(None),
        _ => None,
    }
}

/// What decoding a user from the members of a JSON object yields: the two
/// names default to empty when absent, every other member is optional.
pub open spec fn user_from_obj_v(o: Seq<(Seq<char>, JsonV)>) -> Option<UserV> {
    match (def_str_v(o, "id"@), def_str_v(o, "username"@), opt_i64_v(o, "createdAt"@), opt_str_v(
        o,
        "avatarUrl"@,
    ), opt_role_v(o, "role"@), opt_i32_v(o, "friendsCount"@), opt_i32_v(o, "postsCount"@)) {
        (Some(id), Some(un), Some(ca), Some(au), Some(ro), Some(fc), Some(pc)) => Some(
            UserV {
                id: id,
                username: un,
                created_at: ca,
                avatar_url: au,
                role: ro,
                friends_count: fc,
                posts_count: pc,
            },
        ),
        _ => None,
    }
}

/// What decoding a user from a JSON value yields.
pub open spec fn user_from_json_v(j: JsonV) -> Option<UserV> {
    match j {
        JsonV::Obj(o) => user_from_obj_v(o),
        _ => None,
    }
}

fn get_opt_role(o: &Vec<(String, Json)>, k: &str) -> (r: Option<Option<Role>>)
    ensures
        match r {
            Some(ro) => opt_role_v(o.deep_view(), k@) == Some(ro),
            None => opt_role_v(o.deep_view(), k@) is None,
        },
{
    match obj_get(o, k) {
        Some(Json::Str(s)) => match Role::from_wire_str(s.as_str()) {
            Some(r) => Some(Some(r)),
            None => None,
        },
        Some(Json::Null) => Some(None),
        None => Some(None),
        _ => None,
    }
}

/// A user's counters fit the wire's 32-bit range.
pub open spec fn user_wf(u: UserV) -> bool {
    &&& match u.friends_count {
        Some(c) => i32::MIN <= c <= i32::MAX,
        None => true,
    }
    &&& match u.posts_count {
        Some(c) => i32::MIN <= c <= i32::MAX,
        None => true,
    }
}

/// Decoding inverts encoding on every user whose counters fit the wire.
pub proof fn lemma_user_roundtrip(u: UserV)
    requires
        user_wf(u),
    ensures
        user_from_json_v(user_to_json_v(u)) == Some(u),
{
    reveal_strlit("id");
    reveal_strlit("username");
    reveal_strlit("createdAt");
    reveal_strlit("avatarUrl");
    reveal_strlit("role");
    reveal_strlit("friendsCount");
    reveal_strlit("postsCount");
    assert("id"@.len() == 2);
    assert("username"@.len() == 8);
    assert("createdAt"@.len() == 9);
    assert("avatarUrl"@.len() == 9);
    assert("role"@.len() == 4);
    assert("friendsCount"@.len() == 12);
    assert("postsCount"@.len() == 10);
    assert("createdAt"@[0] == 'c' && "avatarUrl"@[0] == 'a');
    let o = user_fields_v(u);
    let with_ts = u.created_at is Some;
    assert(obj_get_v(o, "id"@) == Some(JsonV::Str(u.id)));
    lemma_obj_get_skip(o, "username"@, 1);
    assert(o.skip(1)[0] == o[1]);
    assert(obj_get_v(o, "username"@) == Some(JsonV::Str(u.username)));
    if with_ts {
        lemma_obj_get_skip(o, "createdAt"@, 2);
        assert(o.skip(2)[0] == o[2]);
        assert(obj_get_v(o, "createdAt"@) == Some(JsonV::Int(u.created_at->0)));
        lemma_obj_get_skip(o, "avatarUrl"@, 3);
        assert(o.skip(3)[0] == o[3]);
        assert(obj_get_v(o, "avatarUrl"@) == Some(opt_str_json(u.avatar_url)));
        lemma_obj_get_skip(o, "role"@, 4);
        assert(o.skip(4)[0] == o[4]);
        assert(obj_get_v(o, "role"@) == Some(opt_role_json(u.role)));
        lemma_obj_get_skip(o, "friendsCount"@, 5);
        assert(o.skip(5)[0] == o[5]);
        assert(obj_get_v(o, "friendsCount"@) == Some(opt_int_json(u.friends_count)));
        lemma_obj_get_skip(o, "postsCount"@, 6);
        assert(o.skip(6)[0] == o[6]);
        assert(obj_get_v(o, "postsCount"@) == Some(opt_int_json(u.posts_count)));
    } else {
        lemma_obj_get_skip(o, "createdAt"@, 6);
        assert(o.skip(6) =~= Seq::empty());
        assert(obj_get_v(o, "createdAt"@) is None);
        lemma_obj_get_skip(o, "avatarUrl"@, 2);
        assert(o.skip(2)[0] == o[2]);
        assert(obj_get_v(o, "avatarUrl"@) == Some(opt_str_json(u.avatar_url)));
        lemma_obj_get_skip(o, "role"@, 3);
        assert(o.skip(3)[0] == o[3]);
        assert(obj_get_v(o, "role"@) == Some(opt_role_json(u.role)));
        lemma_obj_get_skip(o, "friendsCount"@, 4);
        assert(o.skip(4)[0] == o[4]);
        assert(obj_get_v(o, "friendsCount"@) == Some(opt_int_json(u.friends_count)));
        lemma_obj_get_skip(o, "postsCount"@, 5);
        assert(o.skip(5)[0] == o[5]);
        assert(obj_get_v(o, "postsCount"@) == Some(opt_int_json(u.posts_count)));
    }
    match u.role {
        Some(r) => lemma_role_roundtrip(r),
        None => (),
    }
    assert(user_from_obj_v(o) == Some(u));
}

impl User {
    /// Decodes a user from a JSON value.
    pub fn from_json(j: &Json) -> (r: Option<User>)
        ensures
            match r {
                Some(u) => user_from_json_v(j@) == Some(u@),
                None => user_from_json_v(j@) is None,
            },
    {
        match j {
            Json::Obj(o) => {
                proof {
                    lemma_obj_view(*o);
                }
                let id = match get_def_str(o, "id") {
                    Some(v) => v,
                    None => {
                        return None;
                    },
                };
                let username = match get_def_str(o, "username") {
                    Some(v) => v,
                    None => {
                        return None;
                    },
                };
                let created_at = match get_opt_i64(o, "createdAt") {
                    Some(v) => v,
                    None => {
                        return None;
                    },
                };
                let avatar_url = match get_opt_str(o, "avatarUrl") {
                    Some(v) => v,
                    None => {
                        return None;
                    },
                };
                let role = match get_opt_role(o, "role") {
                    Some(v) => v,
                    None => {
                        return None;
                    },
                };
                let friends_count = match get_opt_i32(o, "friendsCount") {
                    Some(v) => v,
                    None => {
                        return None;
                    },
                };
                let posts_count = match get_opt_i32(o, "postsCount") {
                    Some(v) => v,
                    None => {
                        return None;
                    },
                };
                Some(
                    User {
                        id,
                        username,
                        created_at,
                        avatar_url,
                        role,
                        friends_count,
                        posts_count,
                    },
                )
            },
            _ => None,
        }
    }

    /// Encodes this user to its wire JSON; decoding that JSON yields this
    /// user back.
    pub fn to_json(&self) -> (r: Json)
        ensures
            r@ == user_to_json_v(self@),
            user_from_json_v(r@) == Some(self@),
    {
        let mut fields: Vec<(String, Json)> = Vec::new();
        fields.push(("id".to_owned(), Json::Str(self.id.clone())));
        fields.push(("username".to_owned(), Json::Str(self.username.clone())));
        match self.created_at {
            Some(t) => fields.push(("createdAt".to_owned(), Json::Int(t))),
            None => (),
        }
        fields.push(
            (
                "avatarUrl".to_owned(),
                match &self.avatar_url {
                    Some(s) => Json::Str(s.clone()),
                    None => Json::Null,
                },
            ),
        );
        fields.push(
            (
                "role".to_owned(),
                match &self.role {
                    Some(r) => Json::Str(r.as_wire_str().to_owned()),
                    None => Json::Null,
                },
            ),
        );
        fields.push(
            (
                "friendsCount".to_owned(),
                match self.friends_count {
                    Some(c) => Json::Int(c as i64),
                    None => Json::Null,
                },
            ),
        );
        fields.push(
            (
                "postsCount".to_owned(),
                match self.posts_count {
                    Some(c) => Json::Int(c as i64),
                    None => Json::Null,
                },
            ),
        );
        let ghost gf = fields;
        let r = Json::Obj(fields);
        proof {
            lemma_obj_view(gf);
            assert(gf.deep_view() =~= user_fields_v(self@));
            lemma_user_roundtrip(self@);
        }
        r
    }

    /// The request that fetches a user by name: a bodyless GET of
    /// `users/byUsername/<username>`.
    pub fn get_by_username_request(username: &str) -> (r: Request)
        ensures
            r.method == Method::Get,
            r.path@ == "users/byUsername/"@ + username@,
            r.body is Empty,
    {
        let mut path = "users/byUsername/".to_owned();
        path.append(username);
        Request { method: Method::Get, path, body: RequestBody::Empty }
    }

    /// The request that fetches a user by identifier: a bodyless GET of
    /// `users/byId/<id>`.
    pub fn get_by_id_request(id: &str) -> (r: Request)
        ensures
            r.method == Method::Get,
            r.path@ == "users/byId/"@ + id@,
            r.body is Empty,
    {
        let mut path = "users/byId/".to_owned();
        path.append(id);
        Request { method: Method::Get, path, body: RequestBody::Empty }
    }

    /// The request that fetches the calling account's own user: a bodyless
    /// GET of `accounts/me`.
    pub fn get_current_user_request() -> (r: Request)
        ensures
            r.method == Method::Get,
            r.path@ == "accounts/me"@,
            r.body is Empty,
    {
        Request { method: Method::Get, path: "accounts/me".to_owned(), body: RequestBody::Empty }
    }

    /// Decides what any user-returning operation yields from what its HTTP
    /// exchange came to: a transport fault or server error is passed on,
    /// a success body must decode into a user, and anything else is a
    /// decode fault.
    pub fn from_response(outcome: HttpOutcome) -> (r: ApiResult<User>)
        ensures
            match outcome {
                HttpOutcome::Transport(m) => r matches Err(Error::Transport(m2)) && m2 == m,
                HttpOutcome::Response(status, body) => match classified_v(status, body@) {
                    Ok(_) => match json_of_text(body@) {
                        Some(j) => match user_from_json_v(j) {
                            Some(u) => r matches Ok(user) && user@ == u,
                            None => r matches Err(Error::Decode),
                        },
                        None => r matches Err(Error::Decode),
                    },
                    Err(Some(te)) => r matches Err(Error::Tetter(e)) && e@ == te,
                    Err(None) => r matches Err(Error::Decode),
                },
            },
    {
        let body = match classify_response(outcome) {
            Ok(b) => b,
            Err(e) => {
                return Err(e);
            },
        };
        let j = match parse_json(body.as_str()) {
            Some(j) => j,
            None => {
                return Err(Error::Decode);
            },
        };
        match User::from_json(&j) {
            Some(u) => Ok(u),
            None => Err(Error::Decode),
        }
    }
}

} // verus!
