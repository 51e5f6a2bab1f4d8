//! The server generator: the business trait, the dispatcher and its introspection.

use crate::path::join_path;
use crate::schema::{Builder, GenerateError, MethodModel, MethodSchema, ServiceModel, ServiceSchema};
use crate::text::{literal, string_literal};
use vstd::prelude::*;

verus! {

/// The statements that decode the payload into a request of type `ty`.
///
/// On the binary path the payload is decoded with the primary codec. On the alternate
/// path an empty payload stands for the default request, and any other payload is read
/// as flat `key=value` pairs where the query flag is set, as a structured document where
/// it is not. A payload that the decoder refuses ends the dispatch with `DecodeError`,
/// which holds the decoder's cause.
pub open spec fn decode_text(ty: Seq<char>, json: bool) -> Seq<char> {
    if json {
        "let data = _data.as_ref();\nlet input: "@ + ty
            + " = if data.is_empty() {\n    Default::default()\n} else if _query {\n    ::prpc::serde_qs::from_bytes(data).map_err(|e| ::prpc::server::Error::DecodeError(e.to_string()))?\n} else {\n    ::prpc::serde_json::from_slice(data).map_err(|e| ::prpc::server::Error::DecodeError(e.to_string()))?\n};\n"@
    } else {
        "let input: "@ + ty + " = ::prpc::Message::decode(_data.as_ref()).map_err(|e| ::prpc::server::Error::DecodeError(e.to_string()))?;\n"@
    }
}

/// The statements that obtain the response of a method from the implementer.
///
/// A method without a request type is invoked directly: no statement touches the payload.
/// Where the implementer rejects the request the dispatch ends with `BadRequest`, which
/// holds the implementer's message, word for word.
pub open spec fn invoke_text(method: MethodModel, json: bool) -> Seq<char> {
    match method.request {
        None => "let response = self.inner."@ + method.name + "().await.map_err(|e| ::prpc::server::Error::BadRequest(e.to_string()))?;\n"@,
        Some(ty) => decode_text(ty, json) + "let response = self.inner."@ + method.name
            + "(input).await.map_err(|e| ::prpc::server::Error::BadRequest(e.to_string()))?;\n"@,
    }
}

/// The expression that encodes the response: the structured document on the alternate
/// path, the primary codec on the binary path. A response that cannot be written as a
/// structured document is a failure of the codec, and is reported as `DecodeError` with
/// its cause.
pub open spec fn respond_text(json: bool) -> Seq<char> {
    if json {
        "::prpc::serde_json::to_vec(&response).map_err(|e| ::prpc::server::Error::DecodeError(e.to_string()))\n"@
    } else {
        "Ok(::prpc::Message::encode_to_vec(&response))\n"@
    }
}

/// The body of the dispatch arm of one method.
pub open spec fn unary_text(method: MethodModel, json: bool) -> Seq<char> {
    invoke_text(method, json) + respond_text(json)
}

/// Writes the body of the dispatch arm of one unary method.
pub fn generate_unary(method: &MethodSchema, json: bool) -> (out: String)
    ensures
        out@ == unary_text(method@, json),
{
    let mut out = match &method.request {
        None => String::from_str("let response = self.inner."),
        Some(ty) => {
            let mut decode = if json {
                let mut d = String::from_str("let data = _data.as_ref();\nlet input: ");
                d.append(ty.as_str());
                d.append(
                    " = if data.is_empty() {\n    Default::default()\n} else if _query {\n    ::prpc::serde_qs::from_bytes(data).map_err(|e| ::prpc::server::Error::DecodeError(e.to_string()))?\n} else {\n    ::prpc::serde_json::from_slice(data).map_err(|e| ::prpc::server::Error::DecodeError(e.to_string()))?\n};\n",
                );
                d
            } else {
                let mut d = String::from_str("let input: ");
                d.append(ty.as_str());
                d.append(" = ::prpc::Message::decode(_data.as_ref()).map_err(|e| ::prpc::server::Error::DecodeError(e.to_string()))?;\n");
                d
            };
            decode.append("let response = self.inner.");
            decode
        },
    };
    out.append(method.name.as_str());
    match &method.request {
        None => out.append("().await.map_err(|e| ::prpc::server::Error::BadRequest(e.to_string()))?;\n"),
        Some(_) => out.append("(input).await.map_err(|e| ::prpc::server::Error::BadRequest(e.to_string()))?;\n"),
    }
    if json {
        out.append("::prpc::serde_json::to_vec(&response).map_err(|e| ::prpc::server::Error::DecodeError(e.to_string()))\n");
    } else {
        out.append("Ok(::prpc::Message::encode_to_vec(&response))\n");
    }
    out
}

/// The dispatch arm of the `i`-th method: its route key, then the body.
pub open spec fn arm_text(service: ServiceModel, emit_package: bool, json: bool, i: int) -> Seq<
    char,
> {
    literal(service.method_path(emit_package, i)) + " => {\n"@ + unary_text(
        service.methods[i],
        json,
    ) + "}\n"@
}

/// The dispatch arms of the first `n` methods, in the order of the schema.
pub open spec fn arms_text(service: ServiceModel, emit_package: bool, json: bool, n: nat) -> Seq<
    char,
>
    decreases n,
{
    if n == 0 {
        Seq::empty()
    } else {
        arms_text(service, emit_package, json, (n - 1) as nat) + arm_text(
            service,
            emit_package,
            json,
            n - 1,
        )
    }
}

/// Writes the dispatch arms of a service, one per method, keyed by route key.
///
/// Fails at the first method that declares a stream, and then writes nothing.
pub fn generate_methods(service: &ServiceSchema, config: &Builder, json: bool) -> (out: Result<
    String,
    GenerateError,
>)
    ensures
        match out {
            Ok(arms) => service@.all_unary() && arms@ == arms_text(
                service@,
                config.emit_package,
                json,
                service@.methods.len(),
            ),
            Err(GenerateError::StreamingNotSupported(i)) => service@.first_streaming(i as int),
        },
{
    let mut stream = String::new();
    let mut i: usize = 0;
    while i < service.methods.len()
        invariant
            i <= service.methods.len(),
            service@.methods.len() == service.methods.len(),
            forall|j: int| 0 <= j < i ==> (#[trigger] service@.methods[j]).is_unary(),
            stream@ == arms_text(service@, config.emit_package, json, i as nat),
        decreases service.methods.len() - i,
    {
        let method = &service.methods[i];
        assert(method@ == service@.methods[i as int]);
        if !method.is_unary() {
            return Err(GenerateError::StreamingNotSupported(i));
        }
        let path = join_path(
            config,
            service.package.as_str(),
            service.identifier.as_str(),
            method.identifier.as_str(),
        );
        let mut arm = string_literal(path.as_str());
        arm.append(" => {\n");
        let body = generate_unary(method, json);
        arm.append(body.as_str());
        arm.append("}\n");
        stream.append(arm.as_str());
        i += 1;
    }
    Ok(stream)
}

/// The declaration of one operation of the business trait: it takes a request exactly
/// where the schema declares one.
pub open spec fn trait_method_text(method: MethodModel) -> Seq<char> {
    match method.request {
        None => "async fn "@ + method.name + "(self) -> ::anyhow::Result<"@ + method.response
            + ">;\n"@,
        Some(ty) => "async fn "@ + method.name + "(self, request: "@ + ty
            + ") -> ::anyhow::Result<"@ + method.response + ">;\n"@,
    }
}

/// The declarations of the first `n` operations of the business trait.
pub open spec fn trait_methods_text(service: ServiceModel, n: nat) -> Seq<char>
    decreases n,
{
    if n == 0 {
        Seq::empty()
    } else {
        trait_methods_text(service, (n - 1) as nat) + trait_method_text(service.methods[n - 1])
    }
}

/// Writes the operations of the business trait, one per method.
///
/// Fails at the first method that declares a stream, and then writes nothing.
pub fn generate_trait_methods(service: &ServiceSchema) -> (out: Result<String, GenerateError>)
    ensures
        match out {
            Ok(methods) => service@.all_unary() && methods@ == trait_methods_text(
                service@,
                service@.methods.len(),
            ),
            Err(GenerateError::StreamingNotSupported(i)) => service@.first_streaming(i as int),
        },
{
    let mut stream = String::new();
    let mut i: usize = 0;
    while i < service.methods.len()
        invariant
            i <= service.methods.len(),
            service@.methods.len() == service.methods.len(),
            forall|j: int| 0 <= j < i ==> (#[trigger] service@.methods[j]).is_unary(),
            stream@ == trait_methods_text(service@, i as nat),
        decreases service.methods.len() - i,
    {
        let method = &service.methods[i];
        assert(method@ == service@.methods[i as int]);
        if !method.is_unary() {
            return Err(GenerateError::StreamingNotSupported(i));
        }
        let mut decl = String::from_str("async fn ");
        decl.append(method.name.as_str());
        match &method.request {
            None => decl.append("(self) -> ::anyhow::Result<"),
            Some(ty) => {
                decl.append("(self, request: ");
                decl.append(ty.as_str());
                decl.append(") -> ::anyhow::Result<");
            },
        }
        decl.append(method.response.as_str());
        decl.append(">;\n");
        stream.append(decl.as_str());
        i += 1;
    }
    Ok(stream)
}

/// The name of the business trait of a service.
pub open spec fn trait_name(service: ServiceModel) -> Seq<char> {
    service.name + "Rpc"@
}

/// The name of the dispatcher of a service.
pub open spec fn server_name(service: ServiceModel) -> Seq<char> {
    service.name + "Server"@
}

/// The business trait of a service.
pub open spec fn trait_text(service: ServiceModel) -> Seq<char> {
    "/// Generated trait containing RPC methods that should be implemented for use with "@
        + server_name(service) + ".\npub trait "@ + trait_name(service) + " {\n"@
        + trait_methods_text(service, service.methods.len()) + "}\n"@
}

/// Writes the business trait of a service.
///
/// Fails at the first method that declares a stream, and then writes nothing.
pub fn generate_trait(service: &ServiceSchema) -> (out: Result<String, GenerateError>)
    ensures
        match out {
            Ok(text) => service@.all_unary() && text@ == trait_text(service@),
            Err(GenerateError::StreamingNotSupported(i)) => service@.first_streaming(i as int),
        },
{
    let methods = match generate_trait_methods(service) {
        Ok(methods) => methods,
        Err(e) => {
            return Err(e);
        },
    };
    let mut out = String::from_str(
        "/// Generated trait containing RPC methods that should be implemented for use with ",
    );
    let mut server = service.name.clone();
    server.append("Server");
    out.append(server.as_str());
    out.append(".\npub trait ");
    let mut name = service.name.clone();
    name.append("Rpc");
    out.append(name.as_str());
    out.append(" {\n");
    out.append(methods.as_str());
    out.append("}\n");
    Ok(out)
}

/// The route keys of the first `n` methods, each as one entry of a list.
pub open spec fn path_entries_text(service: ServiceModel, emit_package: bool, n: nat) -> Seq<char>
    decreases n,
{
    if n == 0 {
        Seq::empty()
    } else {
        path_entries_text(service, emit_package, (n - 1) as nat) + (literal(
            service.method_path(emit_package, n - 1),
        ) + ",\n"@)
    }
}

/// The introspection function of a dispatcher: the route keys it serves, in the order of
/// the schema.
pub open spec fn supported_methods_text(service: ServiceModel, emit_package: bool) -> Seq<char> {
    "pub fn supported_methods() -> &'static [&'static str] {\n&[\n"@ + path_entries_text(
        service,
        emit_package,
        service.methods.len(),
    ) + "]\n}\n"@
}

/// Writes the introspection function of a dispatcher.
pub fn generate_supported_methods(service: &ServiceSchema, config: &Builder) -> (out: String)
    ensures
        out@ == supported_methods_text(service@, config.emit_package),
{
    let mut all_methods = String::new();
    let mut i: usize = 0;
    while i < service.methods.len()
        invariant
            i <= service.methods.len(),
            service@.methods.len() == service.methods.len(),
            all_methods@ == path_entries_text(service@, config.emit_package, i as nat),
        decreases service.methods.len() - i,
    {
        let method = &service.methods[i];
        assert(method@ == service@.methods[i as int]);
        let path = join_path(
            config,
            service.package.as_str(),
            service.identifier.as_str(),
            method.identifier.as_str(),
        );
        let mut entry = string_literal(path.as_str());
        entry.append(",\n");
        all_methods.append(entry.as_str());
        i += 1;
    }
    let mut out = String::from_str("pub fn supported_methods() -> &'static [&'static str] {\n&[\n");
    out.append(all_methods.as_str());
    out.append("]\n}\n");
    out
}

/// The name of the enumeration of a service's methods.
pub open spec fn enum_name(service: ServiceModel) -> Seq<char> {
    service.identifier + "Method"@
}

/// The variants of the first `n` methods: one per method, named by its identifier.
pub open spec fn variants_text(service: ServiceModel, n: nat) -> Seq<char>
    decreases n,
{
    if n == 0 {
        Seq::empty()
    } else {
        variants_text(service, (n - 1) as nat) + (service.methods[n - 1].identifier + ",\n"@)
    }
}

/// The arms that map the route keys of the first `n` methods to their variants.
pub open spec fn variant_arms_text(service: ServiceModel, emit_package: bool, n: nat) -> Seq<char>
    decreases n,
{
    if n == 0 {
        Seq::empty()
    } else {
        variant_arms_text(service, emit_package, (n - 1) as nat) + (literal(
            service.method_path(emit_package, n - 1),
        ) + " => Some(Self::"@ + service.methods[n - 1].identifier + "),\n"@)
    }
}

/// The closed enumeration of a service's methods, with the function that maps a route key
/// to its method and any other path to nothing.
pub open spec fn methods_enum_text(service: ServiceModel, emit_package: bool) -> Seq<char> {
    "pub enum "@ + enum_name(service) + " {\n"@ + variants_text(service, service.methods.len())
        + "}\n\nimpl "@ + enum_name(service)
        + " {\n#[allow(clippy::should_implement_trait)]\npub fn from_str(path: &str) -> Option<Self> {\nmatch path {\n"@
        + variant_arms_text(service, emit_package, service.methods.len())
        + "_ => None,\n}\n}\n}\n"@
}

/// Writes the enumeration of a service's methods.
pub fn generate_methods_enum(service: &ServiceSchema, config: &Builder) -> (out: String)
    ensures
        out@ == methods_enum_text(service@, config.emit_package),
{
    let mut variants = String::new();
    let mut arms = String::new();
    let mut i: usize = 0;
    while i < service.methods.len()
        invariant
            i <= service.methods.len(),
            service@.methods.len() == service.methods.len(),
            variants@ == variants_text(service@, i as nat),
            arms@ == variant_arms_text(service@, config.emit_package, i as nat),
        decreases service.methods.len() - i,
    {
        let method = &service.methods[i];
        assert(method@ == service@.methods[i as int]);
        let path = join_path(
            config,
            service.package.as_str(),
            service.identifier.as_str(),
            method.identifier.as_str(),
        );
        let mut variant = method.identifier.clone();
        variant.append(",\n");
        variants.append(variant.as_str());
        let mut arm = string_literal(path.as_str());
        arm.append(" => Some(Self::");
        arm.append(method.identifier.as_str());
        arm.append("),\n");
        arms.append(arm.as_str());
        i += 1;
    }
    let mut name = service.identifier.clone();
    name.append("Method");
    let mut out = String::from_str("pub enum ");
    out.append(name.as_str());
    out.append(" {\n");
    out.append(variants.as_str());
    out.append("}\n\nimpl ");
    out.append(name.as_str());
    out.append(
        " {\n#[allow(clippy::should_implement_trait)]\npub fn from_str(path: &str) -> Option<Self> {\nmatch path {\n",
    );
    out.append(arms.as_str());
    out.append("_ => None,\n}\n}\n}\n");
    out
}

/// The server bindings of a service: a module that holds the enumeration of its methods,
/// its business trait, and the dispatcher that wraps an implementer of that trait.
///
/// The dispatcher has a binary entry point and an alternate one, each a match on the
/// route key that answers any other path with `NotFound`, which holds the path. It also
/// has the list of the route keys it serves, and the name under which a composition
/// finds it. Each entry point reports its failures by kind: `NotFound`, `DecodeError`
/// or `BadRequest`.
pub open spec fn server_text(service: ServiceModel, emit_package: bool) -> Seq<char> {
    "/// Generated server implementations.\npub mod "@ + service.module
        + "_server {\nuse alloc::vec::Vec;\n\n"@ + methods_enum_text(service, emit_package)
        + "\n"@ + trait_text(service) + "\n#[derive(Debug)]\npub struct "@ + server_name(service)
        + "<T: "@ + trait_name(service) + "> {\ninner: T,\n}\n\nimpl<T: "@ + trait_name(service)
        + "> "@ + server_name(service)
        + "<T> {\npub fn new(inner: T) -> Self {\nSelf { inner }\n}\n\npub async fn dispatch_request(self, path: &str, _data: impl AsRef<[u8]>) -> Result<Vec<u8>, ::prpc::server::Error> {\n#![allow(clippy::let_unit_value)]\nmatch path {\n"@
        + arms_text(service, emit_package, false, service.methods.len())
        + "_ => Err(::prpc::server::Error::NotFound(path.to_string())),\n}\n}\n\npub async fn dispatch_json_request(self, path: &str, _data: impl AsRef<[u8]>, _query: bool) -> Result<Vec<u8>, ::prpc::server::Error> {\n#![allow(clippy::let_unit_value)]\nmatch path {\n"@
        + arms_text(service, emit_package, true, service.methods.len())
        + "_ => Err(::prpc::server::Error::NotFound(path.to_string())),\n}\n}\n\n"@
        + supported_methods_text(service, emit_package) + "}\n\nimpl<T: "@ + trait_name(service)
        + "> ::prpc::server::NamedService for "@ + server_name(service)
        + "<T> {\nconst NAME: &'static str = "@ + literal(service.name) + ";\n}\n\nimpl<T: "@
        + trait_name(service) + "> ::prpc::server::Service for "@ + server_name(service)
        + "<T> {\ntype Methods = &'static [&'static str];\nfn methods() -> Self::Methods {\nSelf::supported_methods()\n}\nasync fn dispatch_request(self, path: &str, data: impl AsRef<[u8]>, json: bool, query: bool) -> Result<Vec<u8>, ::prpc::server::Error> {\nif json {\nself.dispatch_json_request(path, data, query).await\n} else {\nself.dispatch_request(path, data).await\n}\n}\n}\n\nimpl<T: "@
        + trait_name(service) + "> From<T> for "@ + server_name(service)
        + "<T> {\nfn from(inner: T) -> Self {\nSelf::new(inner)\n}\n}\n}\n"@
}

/// Generates the server bindings of a service.
///
/// A service with a method that declares a stream, in either direction, is refused: the
/// error names the first such method, and nothing is written for the service.
pub fn generate(service: &ServiceSchema, config: &Builder) -> (out: Result<String, GenerateError>)
    ensures
        match out {
            Ok(text) => service@.all_unary() && text@ == server_text(service@, config.emit_package),
            Err(GenerateError::StreamingNotSupported(i)) => service@.first_streaming(i as int),
        },
{
    let methods = match generate_methods(service, config, false) {
        Ok(methods) => methods,
        Err(e) => {
            return Err(e);
        },
    };
    let json_methods = match generate_methods(service, config, true) {
        Ok(methods) => methods,
        Err(e) => {
            return Err(e);
        },
    };
    let generated_trait = match generate_trait(service) {
        Ok(generated_trait) => generated_trait,
        Err(e) => {
            return Err(e);
        },
    };
    let mut server_service = service.name.clone();
    server_service.append("Server");
    let mut server_trait = service.name.clone();
    server_trait.append("Rpc");
    let service_name = string_literal(service.name.as_str());
    let supported_methods = generate_supported_methods(service, config);
    let method_enum = generate_methods_enum(service, config);

    let mut out = String::from_str("/// Generated server implementations.\npub mod ");
    out.append(service.module.as_str());
    out.append("_server {\nuse alloc::vec::Vec;\n\n");
    out.append(method_enum.as_str());
    out.append("\n");
    out.append(generated_trait.as_str());
    out.append("\n#[derive(Debug)]\npub struct ");
    out.append(server_service.as_str());
    out.append("<T: ");
    out.append(server_trait.as_str());
    out.append("> {\ninner: T,\n}\n\nimpl<T: ");
    out.append(server_trait.as_str());
    out.append("> ");
    out.append(server_service.as_str());
    out.append(
        "<T> {\npub fn new(inner: T) -> Self {\nSelf { inner }\n}\n\npub async fn dispatch_request(self, path: &str, _data: impl AsRef<[u8]>) -> Result<Vec<u8>, ::prpc::server::Error> {\n#![allow(clippy::let_unit_value)]\nmatch path {\n",
    );
    out.append(methods.as_str());
    out.append(
        "_ => Err(::prpc::server::Error::NotFound(path.to_string())),\n}\n}\n\npub async fn dispatch_json_request(self, path: &str, _data: impl AsRef<[u8]>, _query: bool) -> Result<Vec<u8>, ::prpc::server::Error> {\n#![allow(clippy::let_unit_value)]\nmatch path {\n",
    );
    out.append(json_methods.as_str());
    out.append("_ => Err(::prpc::server::Error::NotFound(path.to_string())),\n}\n}\n\n");
    out.append(supported_methods.as_str());
    out.append("}\n\nimpl<T: ");
    out.append(server_trait.as_str());
    out.append("> ::prpc::server::NamedService for ");
    out.append(server_service.as_str());
    out.append("<T> {\nconst NAME: &'static str = ");
    out.append(service_name.as_str());
    out.append(";\n}\n\nimpl<T: ");
    out.append(server_trait.as_str());
    out.append("> ::prpc::server::Service for ");
    out.append(server_service.as_str());
    out.append(
        "<T> {\ntype Methods = &'static [&'static str];\nfn methods() -> Self::Methods {\nSelf::supported_methods()\n}\nasync fn dispatch_request(self, path: &str, data: impl AsRef<[u8]>, json: bool, query: bool) -> Result<Vec<u8>, ::prpc::server::Error> {\nif json {\nself.dispatch_json_request(path, data, query).await\n} else {\nself.dispatch_request(path, data).await\n}\n}\n}\n\nimpl<T: ",
    );
    out.append(server_trait.as_str());
    out.append("> From<T> for ");
    out.append(server_service.as_str());
    out.append("<T> {\nfn from(inner: T) -> Self {\nSelf::new(inner)\n}\n}\n}\n");
    Ok(out)
}

} // verus!
