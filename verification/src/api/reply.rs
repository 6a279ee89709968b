//! The envelopes of the two HTTP APIs.
use vstd::prelude::*;
use vstd::string::StringExecFns;

use crate::json::{is_nested_member, Json};

verus! {

/// The reply envelope of the second API: the data and the errors.
#[derive(Debug, Clone)]
pub struct V2Reply<T> {
    pub data: Vec<T>,
    pub errors: Vec<String>,
}

impl<T> V2Reply<T> {
    /// The reply that holds the one value `obj` and no error.
    pub fn ok(obj: T) -> (r: Self)
        ensures
            r.data@ == seq![obj],
            r.errors@.len() == 0,
    {
        let mut data: Vec<T> = Vec::new();
        data.push(obj);
        V2Reply { data, errors: Vec::new() }
    }

    /// The reply that holds the values `data` and no error.
    pub fn list(data: Vec<T>) -> (r: Self)
        ensures
            r.data == data,
            r.errors@.len() == 0,
    {
        V2Reply { data, errors: Vec::new() }
    }
}

/// The decimal digit `d`.
pub open spec fn digit(d: nat) -> char
    recommends
        d < 10,
{
    crate::wire::hex_digits()[d as int]
}

/// The decimal numeral of `n`, without leading zeros.
pub open spec fn decimal(n: nat) -> Seq<char>
    decreases n,
{
    if n < 10 {
        seq![digit(n)]
    } else {
        decimal(n / 10).push(digit(n % 10))
    }
}

/// Calls `to_string` of `u32`. Trusted: the string is the decimal numeral
/// of the number, without leading zeros.
#[verifier::external_body]
fn u32_to_string(n: u32) -> (s: String)
    ensures
        s@ == decimal(n as nat),
{
    n.to_string()
}

/// The changes that a request of the first API made: the prefix of the
/// paths they were made under, and for each the name of the attribute and
/// its new value.
#[derive(Clone, Debug)]
pub struct V1Reply {
    prefix: String,
    success: Vec<(String, serde_json::Value)>,
}

/// What an `ApiLightStateUpdate` of the first API changes, each value
/// already as the JSON document that the reply shows.
#[derive(Clone, Debug)]
pub struct ApiLightStateUpdate {
    pub on: Option<serde_json::Value>,
    pub bri: Option<serde_json::Value>,
    pub xy: Option<serde_json::Value>,
    pub ct: Option<serde_json::Value>,
}

/// One change that a reply tells of: the name of the attribute and its new
/// value.
pub struct Success {
    pub name: Seq<char>,
    pub value: serde_json::Value,
}

/// `entries` with the change of `name` to `value` behind them, where there
/// is a value.
pub open spec fn with_option(
    entries: Seq<Success>,
    name: Seq<char>,
    value: Option<serde_json::Value>,
) -> Seq<Success> {
    match value {
        Some(v) => entries.push(Success { name, value: v }),
        None => entries,
    }
}

impl V1Reply {
    /// The prefix of the paths.
    pub closed spec fn prefix(&self) -> Seq<char> {
        self.prefix@
    }

    /// The changes, in the order in which they were added.
    pub closed spec fn entries(&self) -> Seq<Success> {
        Seq::new(
            self.success@.len(),
            |i: int| Success { name: self.success@[i].0@, value: self.success@[i].1 },
        )
    }

    /// The reply for the paths under `prefix`, with no change yet.
    pub fn new(prefix: String) -> (r: Self)
        ensures
            r.prefix() == prefix@,
            r.entries() == Seq::<Success>::empty(),
    {
        let r = V1Reply { prefix, success: Vec::new() };
        assert(r.entries() =~= Seq::<Success>::empty());
        r
    }

    /// The reply for the attributes under `path` of the light `id`.
    pub fn for_light(id: u32, path: &str) -> (r: Self)
        ensures
            r.prefix() == "/lights/"@ + decimal(id as nat) + "/"@ + path@,
            r.entries() == Seq::<Success>::empty(),
    {
        let mut prefix = "/lights/".to_string();
        prefix.append(u32_to_string(id).as_str());
        prefix.append("/");
        prefix.append(path);
        Self::new(prefix)
    }

    /// The reply for the attributes under `path` of the group `id`.
    pub fn for_group_path(id: u32, path: &str) -> (r: Self)
        ensures
            r.prefix() == "/groups/"@ + decimal(id as nat) + "/"@ + path@,
            r.entries() == Seq::<Success>::empty(),
    {
        let mut prefix = "/groups/".to_string();
        prefix.append(u32_to_string(id).as_str());
        prefix.append("/");
        prefix.append(path);
        Self::new(prefix)
    }

    /// The reply for the attributes of the group `id`.
    pub fn for_group(id: u32) -> (r: Self)
        ensures
            r.prefix() == "/groups/"@ + decimal(id as nat),
            r.entries() == Seq::<Success>::empty(),
    {
        let mut prefix = "/groups/".to_string();
        prefix.append(u32_to_string(id).as_str());
        Self::new(prefix)
    }

    /// Adds the changes of a light state update: `on`, `bri`, `xy` and `ct`,
    /// in this order, each where the update holds it.
    pub fn with_light_state_update(self, upd: &ApiLightStateUpdate) -> (r: Self)
        ensures
            r.prefix() == self.prefix(),
            r.entries() == with_option(
                with_option(
                    with_option(with_option(self.entries(), "on"@, upd.on), "bri"@, upd.bri),
                    "xy"@,
                    upd.xy,
                ),
                "ct"@,
                upd.ct,
            ),
    {
        self.add_option("on", upd.on.clone()).add_option("bri", upd.bri.clone()).add_option(
            "xy",
            upd.xy.clone(),
        ).add_option("ct", upd.ct.clone())
    }

    /// Adds the change of `name` to `value`.
    pub fn add(self, name: &str, value: serde_json::Value) -> (r: Self)
        ensures
            r.prefix() == self.prefix(),
            r.entries() == self.entries().push(Success { name: name@, value }),
    {
        let mut r = self;
        r.success.push((name.to_string(), value));
        assert(r.entries() =~= self.entries().push(Success { name: name@, value }));
        r
    }

    /// Adds the change of `name` to `value`, where there is a value.
    pub fn add_option(self, name: &str, value: Option<serde_json::Value>) -> (r: Self)
        ensures
            r.prefix() == self.prefix(),
            r.entries() == with_option(self.entries(), name@, value),
    {
        match value {
            Some(val) => self.add(name, val),
            None => self,
        }
    }

    /// The changes with their full paths: for each change the prefix, a
    /// slash and the name of the attribute, and the new value.
    pub fn success_paths(&self) -> (paths: Vec<(String, serde_json::Value)>)
        ensures
            paths@.len() == self.entries().len(),
            forall|i: int|
                0 <= i < paths@.len() ==> (#[trigger] paths@[i]).0@ == self.prefix() + "/"@
                    + self.entries()[i].name && paths@[i].1 == self.entries()[i].value,
    {
        let mut paths: Vec<(String, serde_json::Value)> = Vec::new();
        let n = self.success.len();
        let mut i: usize = 0;
        while i < n
            invariant
                n == self.success@.len(),
                i <= n,
                paths@.len() == i,
                forall|k: int|
                    0 <= k < i ==> (#[trigger] paths@[k]).0@ == self.prefix() + "/"@
                        + self.entries()[k].name && paths@[k].1 == self.entries()[k].value,
            decreases n - i,
        {
            let mut path = self.prefix.clone();
            path.append("/");
            path.append(self.success[i].0.as_str());
            paths.push((path, self.success[i].1.clone()));
            i += 1;
        }
        paths
    }

    /// The reply as a JSON document: an array with one object for each
    /// change, which holds under `success` the full path of the attribute
    /// and its new value.
    pub fn json(self) -> (doc: Json)
        ensures
            doc matches Json::Array(items) && items@.len() == self.entries().len() && forall|
                i: int,
            |
                0 <= i < items@.len() ==> is_nested_member(
                    #[trigger] items@[i],
                    "success"@,
                    self.prefix() + "/"@ + self.entries()[i].name,
                    self.entries()[i].value,
                ),
    {
        let paths = self.success_paths();
        let mut items: Vec<Json> = Vec::new();
        let n = paths.len();
        let mut i: usize = 0;
        while i < n
            invariant
                n == paths@.len(),
                i <= n,
                items@.len() == i,
                forall|k: int|
                    0 <= k < i ==> is_nested_member(
                        #[trigger] items@[k],
                        "success"@,
                        paths@[k].0@,
                        paths@[k].1,
                    ),
            decreases n - i,
        {
            let mut inner: Vec<(String, Json)> = Vec::new();
            inner.push((paths[i].0.clone(), Json::Value(paths[i].1.clone())));
            let mut outer: Vec<(String, Json)> = Vec::new();
            outer.push(("success".to_string(), Json::Object(inner)));
            items.push(Json::Object(outer));
            i += 1;
        }
        Json::Array(items)
    }
}


} // verus!
