//! Endpoints regarding users.

use vstd::prelude::*;
use vstd::string::StringExecFns;
use crate::helix::{lemma_repeat_query_text_empty, repeat_query, repeat_query_text, texts, Request, RequestGet};
use crate::scope::Scope;

verus! {

/// Query parameters of "Get Users": information about one or more users,
/// chosen by ID, by login name, or both.
#[derive(Clone, Debug, PartialEq)]
pub struct GetUsersRequest {
    /// User ID. Multiple user IDs can be specified. Limit: 100.
    id: Vec<String>,
    /// User login name. Multiple login names can be specified. Limit: 100.
    login: Vec<String>,
}

/// The query of "Get Users": every ID as a parameter `id`, then every login
/// name as a parameter `login`, all joined by ampersands.
pub open spec fn get_users_query_text(ids: Seq<Seq<char>>, logins: Seq<Seq<char>>) -> Seq<char> {
    let by_id = repeat_query_text("id"@, ids);
    let by_login = repeat_query_text("login"@, logins);
    if ids.len() > 0 && logins.len() > 0 {
        by_id + "&"@ + by_login
    } else {
        by_id + by_login
    }
}

impl GetUsersRequest {
    /// The user IDs asked for, as texts.
    pub closed spec fn ids(&self) -> Seq<Seq<char>> {
        texts(self.id@)
    }

    /// The login names asked for, as texts.
    pub closed spec fn logins(&self) -> Seq<Seq<char>> {
        texts(self.login@)
    }

    /// The user IDs asked for.
    pub fn id(&self) -> (v: &[String])
        ensures
            texts(v@) == self.ids(),
    {
        self.id.as_slice()
    }

    /// The login names asked for.
    pub fn login(&self) -> (v: &[String])
        ensures
            texts(v@) == self.logins(),
    {
        self.login.as_slice()
    }

    /// Starts a request that asks for nobody yet.
    pub fn builder() -> (b: GetUsersRequestBuilder)
        ensures
            b.ids() == Seq::<Seq<char>>::empty(),
            b.logins() == Seq::<Seq<char>>::empty(),
    {
        let b = GetUsersRequestBuilder { id: Vec::new(), login: Vec::new() };
        proof {
            assert(b.ids() =~= Seq::<Seq<char>>::empty());
            assert(b.logins() =~= Seq::<Seq<char>>::empty());
        }
        b
    }
}

/// Collects the fields of a [`GetUsersRequest`]; a field that is never set
/// stays empty.
#[derive(Clone, Debug)]
pub struct GetUsersRequestBuilder {
    id: Vec<String>,
    login: Vec<String>,
}

impl GetUsersRequestBuilder {
    /// The user IDs set so far, as texts.
    pub closed spec fn ids(&self) -> Seq<Seq<char>> {
        texts(self.id@)
    }

    /// The login names set so far, as texts.
    pub closed spec fn logins(&self) -> Seq<Seq<char>> {
        texts(self.login@)
    }

    /// Sets the user IDs to ask for.
    pub fn id(self, id: Vec<String>) -> (b: GetUsersRequestBuilder)
        ensures
            b.ids() == texts(id@),
            b.logins() == self.logins(),
    {
        GetUsersRequestBuilder { id, login: self.login }
    }

    /// Sets the login names to ask for.
    pub fn login(self, login: Vec<String>) -> (b: GetUsersRequestBuilder)
        ensures
            b.ids() == self.ids(),
            b.logins() == texts(login@),
    {
        GetUsersRequestBuilder { id: self.id, login }
    }

    /// The request for what was set.
    pub fn build(self) -> (r: GetUsersRequest)
        ensures
            r.ids() == self.ids(),
            r.logins() == self.logins(),
    {
        GetUsersRequest { id: self.id, login: self.login }
    }
}

impl Request for GetUsersRequest {
    type Response = GetUsers;

    open spec fn path_text() -> Seq<char> {
        "users"@
    }

    open spec fn required_scopes() -> Seq<Scope> {
        Seq::empty()
    }

    open spec fn optional_scopes() -> Seq<Scope> {
        seq![Scope::UserReadEmail]
    }

    open spec fn query_text(&self) -> Seq<char> {
        get_users_query_text(self.ids(), self.logins())
    }

    fn path() -> (p: &'static str) {
        "users"
    }

    fn scope() -> (v: &'static [Scope]) {
        let v: &'static [Scope] = &[];
        proof {
            assert(v@ =~= Seq::<Scope>::empty());
        }
        v
    }

    fn opt_scope() -> (v: &'static [Scope]) {
        let v: &'static [Scope] = &[Scope::UserReadEmail];
        proof {
            assert(v@ =~= seq![Scope::UserReadEmail]);
        }
        v
    }

    fn query(&self) -> (r: Result<String, serde_urlencoded::ser::Error>)
        ensures
            r is Ok,
    {
        proof {
            lemma_repeat_query_text_empty("id"@, self.ids());
        }
        let mut s = String::new();
        s.append(repeat_query("id", self.id.as_slice()).as_str());
        if !s.as_str().is_empty() && !self.login.is_empty() {
            s.append("&");
        }
        s.append(repeat_query("login", self.login.as_slice()).as_str());
        proof {
            assert(s@ =~= self.query_text());
        }
        Ok(s)
    }
}

impl RequestGet for GetUsersRequest {
}

/// Return values of "Get Users": one user.
#[derive(Clone, Debug, PartialEq)]
pub struct GetUsers {
    /// User's broadcaster type: "partner", "affiliate", or "".
    pub broadcaster_type: Option<String>,
    /// User's channel description.
    pub description: Option<String>,
    /// User's display name.
    pub display_name: String,
    /// User's email address. Returned if the token carries the scope to read it.
    pub email: Option<String>,
    /// User's ID.
    pub id: String,
    /// User's login name.
    pub login: String,
    /// URL of the user's offline image.
    pub offline_image_url: Option<String>,
    /// URL of the user's profile image.
    pub profile_image_url: Option<String>,
    /// User's type: "staff", "admin", "global_mod", or "".
    pub type_: Option<String>,
    /// Total number of views of the user's channel.
    pub view_count: usize,
}

} // verus!
