//! The Helix endpoints: what every request states, and how repeated query
//! parameters are written.

use vstd::prelude::*;
use vstd::string::StringExecFns;
use crate::scope::Scope;

pub mod users;

pub use users::{GetUsers, GetUsersRequest};

verus! {

/// The characters of each string of `items`, in order.
pub open spec fn texts(items: Seq<String>) -> Seq<Seq<char>> {
    Seq::new(items.len(), |i: int| items[i]@)
}

/// One parameter of a query: the name, an equals sign, the value.
pub open spec fn pair_text(name: Seq<char>, value: Seq<char>) -> Seq<char> {
    name + "="@ + value
}

/// The text of a parameter that is given once for each value: the pairs
/// `name=value` in the order of `values`, with an ampersand between two
/// neighbours and none at either end.
pub open spec fn repeat_query_text(name: Seq<char>, values: Seq<Seq<char>>) -> Seq<char>
    decreases values.len(),
{
    if values.len() == 0 {
        Seq::empty()
    } else if values.len() == 1 {
        pair_text(name, values[0])
    } else {
        repeat_query_text(name, values.drop_last()) + "&"@ + pair_text(name, values.last())
    }
}

/// The text of a repeated parameter is empty exactly when there is no value.
pub proof fn lemma_repeat_query_text_empty(name: Seq<char>, values: Seq<Seq<char>>)
    ensures
        repeat_query_text(name, values).len() == 0 <==> values.len() == 0,
    decreases values.len(),
{
    reveal_strlit("=");
    if values.len() > 1 {
        lemma_repeat_query_text_empty(name, values.drop_last());
    }
}

/// Writes `name` once for each item: `name=a&name=b&name=c`.
pub fn repeat_query(name: &str, items: &[String]) -> (s: String)
    ensures
        s@ == repeat_query_text(name@, texts(items@)),
{
    let mut s = String::new();
    let mut idx: usize = 0;
    while idx < items.len()
        invariant
            idx <= items.len(),
            s@ == repeat_query_text(name@, texts(items@).take(idx as int)),
        decreases items.len() - idx,
    {
        proof {
            let vals = texts(items@);
            assert(vals.take(idx + 1).drop_last() =~= vals.take(idx as int));
            assert(vals.take(idx + 1).last() == items[idx as int]@);
        }
        if idx != 0 {
            s.append("&");
        }
        let ghost before = s@;
        s.append(name);
        s.append("=");
        s.append(items[idx].as_str());
        proof {
            assert(s@ =~= before + pair_text(name@, items[idx as int]@));
        }
        idx = idx + 1;
    }
    proof {
        assert(texts(items@).take(idx as int) =~= texts(items@));
    }
    s
}

/// What every Helix request states about itself.
pub trait Request {
    /// The value that the service answers with.
    type Response;

    /// The path of the endpoint below the root of the service.
    spec fn path_text() -> Seq<char>;

    /// The scopes the request needs.
    spec fn required_scopes() -> Seq<Scope>;

    /// The scopes that let the service return more.
    spec fn optional_scopes() -> Seq<Scope>;

    /// The query string that the request's fields stand for.
    spec fn query_text(&self) -> Seq<char>;

    /// The path of the endpoint below the root of the service.
    fn path() -> (p: &'static str)
        ensures
            p@ == Self::path_text(),
    ;

    /// The scopes the request needs.
    fn scope() -> (v: &'static [Scope])
        ensures
            v@ == Self::required_scopes(),
    ;

    /// The scopes that let the service return more.
    fn opt_scope() -> (v: &'static [Scope])
        ensures
            v@ == Self::optional_scopes(),
    ;

    /// The query string of this request. Whenever a string is returned it is
    /// the one that the fields stand for.
    fn query(&self) -> (r: Result<String, serde_urlencoded::ser::Error>)
        ensures
            r matches Ok(s) ==> s@ == self.query_text(),
    ;
}

/// A request that is sent with the method GET.
pub trait RequestGet: Request {
}

/// The error of `serde_urlencoded`'s serializer, `serde_urlencoded::ser::Error`.
/// Nothing is stated of its values: they are only handed on.
#[verifier::external_type_specification]
#[verifier::external_body]
pub struct ExUrlencodedError(serde_urlencoded::ser::Error);

} // verus!
