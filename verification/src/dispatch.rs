//! What a dispatcher decides: which method a path names, how the request is obtained
//! from the payload, and how the response is encoded.
//!
//! The decisions are taken here; decoding, the implementer's work and encoding are the
//! caller's to carry out, in that order.

use crate::path::join_path;
use crate::schema::{Builder, GenerateError, ServiceModel, ServiceSchema};
use crate::server::Error;
use vstd::prelude::*;

verus! {

/// One row of a dispatcher's method table.
#[derive(Clone, Debug)]
pub struct MethodEntry {
    /// The route key of the method.
    pub path: String,
    /// Whether the schema declares a request type for the method.
    pub has_request: bool,
}

/// The mathematical value of a [`MethodEntry`].
pub ghost struct EntryModel {
    pub path: Seq<char>,
    pub has_request: bool,
}

impl View for MethodEntry {
    type V = EntryModel;

    open spec fn view(&self) -> EntryModel {
        EntryModel { path: self.path@, has_request: self.has_request }
    }
}

/// How the request of a method is obtained from the payload.
#[derive(Clone, Copy, Debug, PartialEq, Eq, Structural)]
pub enum Decode {
    /// The method takes no request: the payload is not looked at.
    Skip,
    /// The request is the default value of its type: the payload is empty.
    Default,
    /// The payload is decoded with the primary binary codec.
    Binary,
    /// The payload is decoded as a structured document.
    Json,
    /// The payload is decoded as flat `key=value` pairs.
    Query,
}

/// How the response of a method is encoded.
#[derive(Clone, Copy, Debug, PartialEq, Eq, Structural)]
pub enum Encode {
    /// With the primary binary codec.
    Binary,
    /// As a structured document.
    Json,
}

/// What is to be done for one request.
#[derive(Clone, Copy, Debug, PartialEq, Eq, Structural)]
pub struct Invocation {
    /// The position of the method in the table.
    pub method: usize,
    /// How its request is obtained.
    pub decode: Decode,
    /// How its response is encoded.
    pub encode: Encode,
}

/// The position of the first row of `table` whose route key is `path`.
pub open spec fn position(table: Seq<EntryModel>, path: Seq<char>) -> Option<int>
    decreases table.len(),
{
    if table.len() == 0 {
        None
    } else if table.last().path == path {
        match position(table.drop_last(), path) {
            Some(i) => Some(i),
            None => Some(table.len() - 1),
        }
    } else {
        position(table.drop_last(), path)
    }
}

/// `position` is the least position that holds the path, and `None` where none does.
pub proof fn lemma_position(table: Seq<EntryModel>, path: Seq<char>)
    ensures
        match position(table, path) {
            Some(i) => 0 <= i < table.len() && table[i].path == path && forall|j: int|
                0 <= j < i ==> table[j].path != path,
            None => forall|j: int| 0 <= j < table.len() ==> table[j].path != path,
        },
    decreases table.len(),
{
    if table.len() > 0 {
        lemma_position(table.drop_last(), path);
        let front = table.drop_last();
        assert forall|j: int| 0 <= j < front.len() implies front[j] == table[j] by {}
    }
}

/// How the request is obtained on the binary path: not at all where the method declares
/// no request type, else with the primary codec, which reads the empty payload as the
/// default request.
pub open spec fn binary_decode(has_request: bool) -> Decode {
    if has_request {
        Decode::Binary
    } else {
        Decode::Skip
    }
}

/// How the request is obtained on the alternate path: not at all where the method
/// declares no request type; else as the default request where the payload is empty, as
/// flat pairs where the query flag is set, and as a structured document otherwise.
pub open spec fn alternate_decode(has_request: bool, empty: bool, query: bool) -> Decode {
    if !has_request {
        Decode::Skip
    } else if empty {
        Decode::Default
    } else if query {
        Decode::Query
    } else {
        Decode::Json
    }
}

/// What a dispatcher with the method table `table` does for a request: `None` where no
/// row holds the path, else the first such row, how its request is obtained and how its
/// response is encoded.
pub open spec fn plan(table: Seq<EntryModel>, path: Seq<char>, empty: bool, json: bool, query: bool)
    -> Option<Invocation> {
    match position(table, path) {
        None => None,
        Some(i) => Some(
            Invocation {
                method: i as usize,
                decode: if json {
                    alternate_decode(table[i].has_request, empty, query)
                } else {
                    binary_decode(table[i].has_request)
                },
                encode: if json {
                    Encode::Json
                } else {
                    Encode::Binary
                },
            },
        ),
    }
}

/// A request for a method without a request type is never decoded: on the binary path and
/// on the alternate one, whatever the payload and the query flag, the method is invoked
/// directly.
pub proof fn lemma_no_request_skips_decode(
    table: Seq<EntryModel>,
    path: Seq<char>,
    empty: bool,
    json: bool,
    query: bool,
)
    requires
        position(table, path) matches Some(i) && !table[i].has_request,
    ensures
        plan(table, path, empty, json, query) matches Some(invocation) && invocation.decode
            == Decode::Skip,
{
}

/// The method table of a dispatcher.
#[derive(Clone, Debug)]
pub struct MethodTable {
    /// The rows, in the order of the schema.
    pub entries: Vec<MethodEntry>,
}

impl View for MethodTable {
    type V = Seq<EntryModel>;

    open spec fn view(&self) -> Seq<EntryModel> {
        self.entries@.map_values(|e: MethodEntry| e@)
    }
}

/// The method table of a service: one row per method, in the order of the schema, with
/// the route key that the generators give the method.
pub open spec fn table_of(service: ServiceModel, emit_package: bool) -> Seq<EntryModel> {
    Seq::new(
        service.methods.len(),
        |i: int|
            EntryModel {
                path: service.method_path(emit_package, i),
                has_request: service.methods[i].request is Some,
            },
    )
}

/// Client and server agree on the route keys: in a service whose method identifiers
/// differ from one another, the route key that the generators give a method is found in
/// the method table at the position of that method.
pub proof fn lemma_table_finds_method(service: ServiceModel, emit_package: bool, i: int)
    requires
        0 <= i < service.methods.len(),
        forall|j: int, k: int|
            0 <= j < k < service.methods.len() ==> service.methods[j].identifier
                != service.methods[k].identifier,
    ensures
        position(table_of(service, emit_package), service.method_path(emit_package, i)) == Some(i),
{
    let table = table_of(service, emit_package);
    let path = service.method_path(emit_package, i);
    lemma_position(table, path);
    assert(table[i].path == path);
    assert forall|j: int| 0 <= j < table.len() && j != i implies table[j].path != path by {
        service.lemma_method_paths_distinct(emit_package, j, i);
    }
}

impl MethodTable {
    /// The method table of a service.
    ///
    /// A service with a method that declares a stream is refused: the error names the
    /// first such method.
    pub fn from_schema(service: &ServiceSchema, config: &Builder) -> (out: Result<
        MethodTable,
        GenerateError,
    >)
        ensures
            match out {
                Ok(table) => service@.all_unary() && table@ == table_of(
                    service@,
                    config.emit_package,
                ),
                Err(GenerateError::StreamingNotSupported(i)) => service@.first_streaming(i as int),
            },
    {
        let mut entries: Vec<MethodEntry> = Vec::new();
        let mut i: usize = 0;
        while i < service.methods.len()
            invariant
                i <= service.methods.len(),
                service@.methods.len() == service.methods.len(),
                forall|j: int| 0 <= j < i ==> (#[trigger] service@.methods[j]).is_unary(),
                entries@.len() == i,
                forall|j: int|
                    0 <= j < i ==> (#[trigger] entries@[j])@ == table_of(
                        service@,
                        config.emit_package,
                    )[j],
            decreases service.methods.len() - i,
        {
            let method = &service.methods[i];
            assert(method@ == service@.methods[i as int]);
            if !method.is_unary() {
                return Err(GenerateError::StreamingNotSupported(i));
            }
            let path = join_path(
                config,
                service.package.as_str(),
                service.identifier.as_str(),
                method.identifier.as_str(),
            );
            entries.push(MethodEntry { path, has_request: method.request.is_some() });
            i += 1;
        }
        let table = MethodTable { entries };
        assert(table@ =~= table_of(service@, config.emit_package));
        Ok(table)
    }

    /// The position of the method that `path` names: the first row that holds it.
    pub fn lookup(&self, path: &str) -> (found: Option<usize>)
        ensures
            match found {
                Some(i) => i < self@.len() && position(self@, path@) == Some(i as int),
                None => position(self@, path@) is None,
            },
    {
        let wanted = String::from_str(path);
        let mut i: usize = 0;
        while i < self.entries.len()
            invariant
                i <= self.entries.len(),
                wanted@ == path@,
                forall|j: int| 0 <= j < i ==> self@[j].path != path@,
            decreases self.entries.len() - i,
        {
            if self.entries[i].path == wanted {
                proof {
                    lemma_position(self@, path@);
                    assert(self@[i as int].path == path@);
                }
                return Some(i);
            }
            assert(self@[i as int].path != path@);
            i += 1;
        }
        proof {
            lemma_position(self@, path@);
        }
        None
    }

    /// Decides a request on either path: the alternate one where `json` is set, the
    /// binary one where it is not.
    ///
    /// A path that no row holds is answered with `NotFound`, which holds the path.
    pub fn dispatch(&self, path: &str, data: &[u8], json: bool, query: bool) -> (out: Result<
        Invocation,
        Error,
    >)
        ensures
            match out {
                Ok(invocation) => plan(self@, path@, data@.len() == 0, json, query) == Some(
                    invocation,
                ),
                Err(e) => plan(self@, path@, data@.len() == 0, json, query) is None && (
                e matches Error::NotFound(route) && route@ == path@),
            },
    {
        if json {
            self.dispatch_json_request(path, data, query)
        } else {
            self.dispatch_request(path, data)
        }
    }

    /// Decides a request on the binary path.
    ///
    /// A path that no row holds is answered with `NotFound`, which holds the path.
    pub fn dispatch_request(&self, path: &str, data: &[u8]) -> (out: Result<Invocation, Error>)
        ensures
            match out {
                Ok(invocation) => plan(self@, path@, data@.len() == 0, false, false) == Some(
                    invocation,
                ),
                Err(e) => position(self@, path@) is None && (e matches Error::NotFound(route)
                    && route@ == path@),
            },
    {
        match self.lookup(path) {
            None => Err(Error::NotFound(String::from_str(path))),
            Some(i) => {
                assert(self@[i as int] == self.entries@[i as int]@);
                let decode = if self.entries[i].has_request {
                    Decode::Binary
                } else {
                    Decode::Skip
                };
                Ok(Invocation { method: i, decode, encode: Encode::Binary })
            },
        }
    }

    /// Decides a request on the alternate path.
    ///
    /// A path that no row holds is answered with `NotFound`, which holds the path.
    pub fn dispatch_json_request(&self, path: &str, data: &[u8], query: bool) -> (out: Result<
        Invocation,
        Error,
    >)
        ensures
            match out {
                Ok(invocation) => plan(self@, path@, data@.len() == 0, true, query) == Some(
                    invocation,
                ),
                Err(e) => position(self@, path@) is None && (e matches Error::NotFound(route)
                    && route@ == path@),
            },
    {
        match self.lookup(path) {
            None => Err(Error::NotFound(String::from_str(path))),
            Some(i) => {
                assert(self@[i as int] == self.entries@[i as int]@);
                let decode = if !self.entries[i].has_request {
                    Decode::Skip
                } else if data.len() == 0 {
                    Decode::Default
                } else if query {
                    Decode::Query
                } else {
                    Decode::Json
                };
                Ok(Invocation { method: i, decode, encode: Encode::Json })
            },
        }
    }

    /// The route keys that the dispatcher serves, in the order of the table.
    pub fn supported_methods(&self) -> (list: Vec<String>)
        ensures
            list@.len() == self@.len(),
            forall|i: int| 0 <= i < list@.len() ==> (#[trigger] list@[i])@ == self@[i].path,
    {
        let mut list: Vec<String> = Vec::new();
        let mut i: usize = 0;
        while i < self.entries.len()
            invariant
                i <= self.entries.len(),
                list@.len() == i,
                forall|j: int| 0 <= j < i ==> (#[trigger] list@[j])@ == self@[j].path,
            decreases self.entries.len() - i,
        {
            list.push(self.entries[i].path.clone());
            i += 1;
        }
        list
    }
}

} // verus!
