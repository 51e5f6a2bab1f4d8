//! The client generator: one typed call per method, over any transport.

use crate::path::join_path;
use crate::schema::{Builder, GenerateError, MethodModel, MethodSchema, ServiceModel, ServiceSchema};
use crate::text::{literal, string_literal};
use vstd::prelude::*;

verus! {

/// The statements of a call that follow its header: the transport is handed the route
/// key and the body, and the reply is decoded with the primary codec.
///
/// A failure of the transport, or one that the peer reported, ends the call as the
/// transport gives it: `RpcError` or `ServerError`. A reply that the codec refuses ends it
/// with `DecodeError`, which holds the codec's cause.
pub open spec fn exchange_text(path: Seq<char>) -> Seq<char> {
    "let reply = self.client.request("@ + literal(path)
        + ", body).await?;\n::prpc::Message::decode(reply.as_slice()).map_err(|e| ::prpc::client::Error::DecodeError(e.to_string()))\n}\n"@
}

/// The call of one unary method.
///
/// Where the schema declares a request type the call takes the request from the caller
/// and encodes it with the primary codec; where it declares none the call sends the empty
/// body. Either way it hands the route key and the body to the transport and returns the
/// decoded response.
pub open spec fn unary_text(method: MethodModel, path: Seq<char>) -> Seq<char> {
    match method.request {
        None => "pub async fn "@ + method.name + "(&self) -> Result<"@ + method.response
            + ", ::prpc::client::Error> {\nlet body = Vec::new();\n"@ + exchange_text(path),
        Some(ty) => "pub async fn "@ + method.name + "(&self, request: "@ + ty + ") -> Result<"@
            + method.response
            + ", ::prpc::client::Error> {\nlet body = ::prpc::Message::encode_to_vec(&request);\n"@
            + exchange_text(path),
    }
}

/// Writes the call of one unary method, to be sent under the route key `path`.
pub fn generate_unary(method: &MethodSchema, path: String) -> (out: String)
    ensures
        out@ == unary_text(method@, path@),
{
    let mut out = String::from_str("pub async fn ");
    out.append(method.name.as_str());
    match &method.request {
        None => out.append("(&self) -> Result<"),
        Some(ty) => {
            out.append("(&self, request: ");
            out.append(ty.as_str());
            out.append(") -> Result<");
        },
    }
    out.append(method.response.as_str());
    match &method.request {
        None => out.append(", ::prpc::client::Error> {\nlet body = Vec::new();\n"),
        Some(_) => out.append(
            ", ::prpc::client::Error> {\nlet body = ::prpc::Message::encode_to_vec(&request);\n",
        ),
    }
    let mut exchange = String::from_str("let reply = self.client.request(");
    let route = string_literal(path.as_str());
    exchange.append(route.as_str());
    exchange.append(
        ", body).await?;\n::prpc::Message::decode(reply.as_slice()).map_err(|e| ::prpc::client::Error::DecodeError(e.to_string()))\n}\n",
    );
    out.append(exchange.as_str());
    out
}

/// The calls of the first `n` methods, in the order of the schema.
pub open spec fn methods_text(service: ServiceModel, emit_package: bool, n: nat) -> Seq<char>
    decreases n,
{
    if n == 0 {
        Seq::empty()
    } else {
        methods_text(service, emit_package, (n - 1) as nat) + unary_text(
            service.methods[n - 1],
            service.method_path(emit_package, n - 1),
        )
    }
}

/// Writes the calls of a service, one per method.
///
/// Fails at the first method that declares a stream, and then writes nothing.
pub fn generate_methods(service: &ServiceSchema, config: &Builder) -> (out: Result<
    String,
    GenerateError,
>)
    ensures
        match out {
            Ok(calls) => service@.all_unary() && calls@ == methods_text(
                service@,
                config.emit_package,
                service@.methods.len(),
            ),
            Err(GenerateError::StreamingNotSupported(i)) => service@.first_streaming(i as int),
        },
{
    let mut stream = String::new();
    let mut i: usize = 0;
    while i < service.methods.len()
        invariant
            i <= service.methods.len(),
            service@.methods.len() == service.methods.len(),
            forall|j: int| 0 <= j < i ==> (#[trigger] service@.methods[j]).is_unary(),
            stream@ == methods_text(service@, config.emit_package, i as nat),
        decreases service.methods.len() - i,
    {
        let method = &service.methods[i];
        assert(method@ == service@.methods[i as int]);
        let path = join_path(
            config,
            service.package.as_str(),
            service.identifier.as_str(),
            method.identifier.as_str(),
        );
        if !method.is_unary() {
            return Err(GenerateError::StreamingNotSupported(i));
        }
        let call = generate_unary(method, path);
        stream.append(call.as_str());
        i += 1;
    }
    Ok(stream)
}

/// The name of the client of a service.
pub open spec fn client_name(service: ServiceModel) -> Seq<char> {
    service.name + "Client"@
}

/// The client bindings of a service: a module that holds the client, generic over the
/// transport it is built on, with one call per method.
pub open spec fn client_text(service: ServiceModel, emit_package: bool) -> Seq<char> {
    "/// Generated client implementations.\npub mod "@ + service.module
        + "_client {\n#[derive(Debug)]\npub struct "@ + client_name(service)
        + "<Client> {\npub client: Client,\n}\n\nimpl<Client> "@ + client_name(service)
        + "<Client>\nwhere\nClient: ::prpc::client::RequestClient,\n{\npub fn new(client: Client) -> Self {\nSelf { client }\n}\n\n"@
        + methods_text(service, emit_package, service.methods.len()) + "}\n}\n"@
}

/// Generates the client bindings of a service.
///
/// A service with a method that declares a stream, in either direction, is refused: the
/// error names the first such method, and nothing is written for the service.
pub fn generate(service: &ServiceSchema, config: &Builder) -> (out: Result<String, GenerateError>)
    ensures
        match out {
            Ok(text) => service@.all_unary() && text@ == client_text(service@, config.emit_package),
            Err(GenerateError::StreamingNotSupported(i)) => service@.first_streaming(i as int),
        },
{
    let mut service_ident = service.name.clone();
    service_ident.append("Client");
    let methods = match generate_methods(service, config) {
        Ok(methods) => methods,
        Err(e) => {
            return Err(e);
        },
    };
    let mut out = String::from_str("/// Generated client implementations.\npub mod ");
    out.append(service.module.as_str());
    out.append("_client {\n#[derive(Debug)]\npub struct ");
    out.append(service_ident.as_str());
    out.append("<Client> {\npub client: Client,\n}\n\nimpl<Client> ");
    out.append(service_ident.as_str());
    out.append(
        "<Client>\nwhere\nClient: ::prpc::client::RequestClient,\n{\npub fn new(client: Client) -> Self {\nSelf { client }\n}\n\n",
    );
    out.append(methods.as_str());
    out.append("}\n}\n");
    Ok(out)
}

} // verus!
