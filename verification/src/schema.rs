//! The language-neutral description of services and methods that the generators consume.

use crate::path::{lemma_route_key_injective, route_key};
use vstd::prelude::*;

verus! {

/// One method of a service.
#[derive(Clone, Debug)]
pub struct MethodSchema {
    /// The name of the operation in generated code.
    pub name: String,
    /// The identifier of the method in the schema; the last segment of its route key.
    pub identifier: String,
    /// The type of the request, or `None` where the method takes no request.
    pub request: Option<String>,
    /// The type of the response.
    pub response: String,
    /// Whether the client sends a stream of requests.
    pub client_streaming: bool,
    /// Whether the server answers with a stream of responses.
    pub server_streaming: bool,
}

/// One service: a named, ordered list of methods.
#[derive(Clone, Debug)]
pub struct ServiceSchema {
    /// The name of the service; generated type names are derived from it.
    pub name: String,
    /// The package that declares the service; may be empty.
    pub package: String,
    /// The identifier of the service in the schema; a segment of each route key.
    pub identifier: String,
    /// The name of the service in the convention of module names.
    pub module: String,
    /// The methods, in the order of the schema.
    pub methods: Vec<MethodSchema>,
}

/// The settings of one generator run.
#[derive(Clone, Copy, Debug)]
pub struct Builder {
    /// Whether route keys start with the package name.
    pub emit_package: bool,
}

/// The mathematical value of a [`MethodSchema`].
pub ghost struct MethodModel {
    pub name: Seq<char>,
    pub identifier: Seq<char>,
    pub request: Option<Seq<char>>,
    pub response: Seq<char>,
    pub client_streaming: bool,
    pub server_streaming: bool,
}

/// The mathematical value of a [`ServiceSchema`].
pub ghost struct ServiceModel {
    pub name: Seq<char>,
    pub package: Seq<char>,
    pub identifier: Seq<char>,
    pub module: Seq<char>,
    pub methods: Seq<MethodModel>,
}

impl View for MethodSchema {
    type V = MethodModel;

    open spec fn view(&self) -> MethodModel {
        MethodModel {
            name: self.name@,
            identifier: self.identifier@,
            request: match self.request {
                Some(ty) => Some(ty@),
                None => None,
            },
            response: self.response@,
            client_streaming: self.client_streaming,
            server_streaming: self.server_streaming,
        }
    }
}

impl View for ServiceSchema {
    type V = ServiceModel;

    open spec fn view(&self) -> ServiceModel {
        ServiceModel {
            name: self.name@,
            package: self.package@,
            identifier: self.identifier@,
            module: self.module@,
            methods: self.methods@.map_values(|m: MethodSchema| m@),
        }
    }
}

impl MethodModel {
    /// A unary method: one request at most, one response, no stream in either direction.
    pub open spec fn is_unary(self) -> bool {
        !self.client_streaming && !self.server_streaming
    }
}

impl ServiceModel {
    /// The route key of the `i`-th method of the service.
    pub open spec fn method_path(self, emit_package: bool, i: int) -> Seq<char> {
        route_key(emit_package, self.package, self.identifier, self.methods[i].identifier)
    }

    /// No two methods of one service share a route key, as long as their identifiers
    /// differ.
    pub proof fn lemma_method_paths_distinct(self, emit_package: bool, i: int, j: int)
        requires
            0 <= i < self.methods.len(),
            0 <= j < self.methods.len(),
            self.methods[i].identifier != self.methods[j].identifier,
        ensures
            self.method_path(emit_package, i) != self.method_path(emit_package, j),
    {
        if self.method_path(emit_package, i) == self.method_path(emit_package, j) {
            lemma_route_key_injective(
                emit_package,
                self.package,
                self.identifier,
                self.methods[i].identifier,
                self.methods[j].identifier,
            );
        }
    }

    /// Every method of the service is unary.
    pub open spec fn all_unary(self) -> bool {
        forall|i: int| 0 <= i < self.methods.len() ==> (#[trigger] self.methods[i]).is_unary()
    }

    /// `i` is the first method of the service that is not unary.
    pub open spec fn first_streaming(self, i: int) -> bool {
        &&& 0 <= i < self.methods.len()
        &&& !self.methods[i].is_unary()
        &&& forall|j: int| 0 <= j < i ==> (#[trigger] self.methods[j]).is_unary()
    }
}

impl MethodSchema {
    /// Whether the method is unary.
    pub fn is_unary(&self) -> (unary: bool)
        ensures
            unary == self@.is_unary(),
    {
        !self.client_streaming && !self.server_streaming
    }
}

/// Why a generator refused a service.
#[derive(Debug, PartialEq, Eq, Structural)]
pub enum GenerateError {
    /// The method at this position declares a stream; only unary methods are supported.
    StreamingNotSupported(usize),
}

} // verus!
