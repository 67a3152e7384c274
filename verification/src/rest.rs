//! The envelopes of the REST handlers that answer with
//! `{"data": ...}` and `{"code": ..., "message": ...}` bodies of their own.

use vstd::prelude::*;

verus! {

/// The value that is sent as JSON `null`.
#[derive(Debug, Clone, Copy, PartialEq, Eq, Structural)]
pub struct Null;

/// A successful result: `{"data": ...}`.
#[derive(Debug)]
pub struct RestResponseJson<T> {
    /// The result.
    pub data: T,
}

/// A failure: `{"code": ..., "message": ...}`.
#[derive(Debug)]
pub struct RestResponseErrorJson {
    code: String,
    message: String,
}

impl RestResponseErrorJson {
    /// The error code of the body.
    pub closed spec fn spec_code(&self) -> Seq<char> {
        self.code@
    }

    /// The message of the body.
    pub closed spec fn spec_message(&self) -> Seq<char> {
        self.message@
    }

    /// An error body with the code and the message.
    pub fn new(code: String, message: String) -> (res: RestResponseErrorJson)
        ensures
            res.spec_code() == code@,
            res.spec_message() == message@,
    {
        RestResponseErrorJson { code, message }
    }

    /// The error code.
    pub fn code(&self) -> (res: &String)
        ensures
            res@ == self.spec_code(),
    {
        &self.code
    }

    /// The message.
    pub fn message(&self) -> (res: &String)
        ensures
            res@ == self.spec_message(),
    {
        &self.message
    }
}

/// Builds the bodies of successful results.
#[derive(Debug)]
pub struct RestResponse;

impl RestResponse {
    /// A result with data.
    pub fn json<T>(data: T) -> (res: RestResponseJson<T>)
        ensures
            res.data == data,
    {
        RestResponseJson { data }
    }

    /// A result whose data is `null`.
    pub fn null() -> (res: RestResponseJson<Null>)
        ensures
            res.data == Null,
    {
        RestResponseJson { data: Null }
    }
}

/// One page of records and the number of records on all pages.
#[derive(Debug)]
pub struct PaginatedData<T> {
    /// The records of the page.
    pub records: Vec<T>,
    /// The number of records on all pages.
    pub total: i64,
}

impl<T> PaginatedData<T> {
    /// A page of records.
    pub fn new(records: Vec<T>, total: i64) -> (res: PaginatedData<T>)
        ensures
            res.records@ == records@,
            res.total == total,
    {
        PaginatedData { records, total }
    }

    /// A page made of the records and total that a service returns, each
    /// record converted with `From`, in order.
    pub fn from_page<S>(value: (Vec<S>, i64)) -> (res: PaginatedData<T>) where T: From<S>
        ensures
            res.total == value.1,
            res.records@.len() == value.0@.len(),
            forall|i: int|
                0 <= i < value.0@.len() ==> call_ensures(
                    T::from,
                    (value.0@[i],),
                    #[trigger] res.records@[i],
                ),
    {
        let (mut items, total) = value;
        let ghost all = items@;
        let mut records: Vec<T> = Vec::new();
        while items.len() > 0
            invariant
                records@.len() + items@.len() == all.len(),
                items@ == all.subrange(records@.len() as int, all.len() as int),
                forall|i: int|
                    0 <= i < records@.len() ==> call_ensures(T::from, (all[i],), #[trigger] records@[i]),
            decreases items@.len(),
        {
            let ghost done = records@.len();
            let item = items.remove(0);
            assert(item == all[done as int]);
            records.push(T::from(item));
        }
        PaginatedData { records, total }
    }
}

} // verus!
