//! The server side: the error kinds, the capability of a service, and the composition of
//! several named services behind one entry point.

use crate::path::{leading_segment, service_segment};
use core::marker::PhantomData;
use vstd::prelude::*;
use vstd::std_specs::convert::{FromSpec, FromSpecImpl};

verus! {

/// The envelope in which an error crosses from server to client: one message.
#[derive(Debug)]
pub struct ProtoError {
    /// The message, as the caller will read it.
    pub message: String,
}

impl View for ProtoError {
    type V = Seq<char>;

    open spec fn view(&self) -> Seq<char> {
        self.message@
    }
}

impl ProtoError {
    /// An envelope that carries `message`.
    pub fn new(message: String) -> (envelope: ProtoError)
        ensures
            envelope.message == message,
    {
        ProtoError { message }
    }

    /// The envelope as text: its message.
    pub fn to_string(&self) -> (text: String)
        ensures
            text@ == self@,
    {
        self.message.clone()
    }
}

impl Default for ProtoError {
    /// The envelope with the empty message.
    fn default() -> (envelope: ProtoError)
        ensures
            envelope@ == Seq::<char>::empty(),
    {
        ProtoError { message: String::new() }
    }
}

/// What a server reports in place of a response.
#[derive(Debug)]
pub enum Error {
    /// No service, or no method, answers to the route; holds what was not matched.
    NotFound(String),
    /// The payload could not be decoded; holds the cause.
    DecodeError(String),
    /// The implementer rejected the request; holds its message.
    BadRequest(String),
}

impl Error {
    /// The message that the caller reads: for an unmatched route, a line that names it;
    /// for the other kinds, the cause or the implementer's message, word for word.
    pub open spec fn message_text(self) -> Seq<char> {
        match self {
            Error::NotFound(route) => "Service not found: "@ + route@,
            Error::DecodeError(cause) => cause@,
            Error::BadRequest(message) => message@,
        }
    }

    /// The message that the caller reads.
    pub fn message(&self) -> (text: String)
        ensures
            text@ == self.message_text(),
    {
        match self {
            Error::NotFound(route) => {
                let mut text = String::from_str("Service not found: ");
                text.append(route.as_str());
                text
            },
            Error::DecodeError(cause) => cause.clone(),
            Error::BadRequest(message) => message.clone(),
        }
    }

    /// The envelope that carries this error to the caller.
    pub fn into_proto(&self) -> (envelope: ProtoError)
        ensures
            envelope@ == self.message_text(),
    {
        ProtoError::new(self.message())
    }
}

/// Whether `i` is the position of the first of `names` that is `segment`.
pub open spec fn first_named(names: Seq<Seq<char>>, segment: Seq<char>, i: int) -> bool {
    &&& 0 <= i < names.len()
    &&& names[i] == segment
    &&& forall|j: int| 0 <= j < i ==> names[j] != segment
}

/// Finds the service that a path names among services composed in the order of `names`.
///
/// The service is the first whose name is, character for character, the leading segment
/// of the path. Where there is none the answer is `NotFound`, which holds that segment.
pub fn find_service(names: &[&str], path: &str) -> (out: Result<usize, Error>)
    ensures
        match out {
            Ok(i) => first_named(
                names@.map_values(|name: &str| name@),
                leading_segment(path@),
                i as int,
            ),
            Err(e) => (forall|j: int| 0 <= j < names@.len() ==> names@[j]@ != leading_segment(path@))
                && (e matches Error::NotFound(segment) && segment@ == leading_segment(path@)),
        },
{
    let segment = service_segment(path);
    let mut i: usize = 0;
    while i < names.len()
        invariant
            i <= names.len(),
            segment@ == leading_segment(path@),
            forall|j: int| 0 <= j < i ==> names@[j]@ != segment@,
        decreases names.len() - i,
    {
        let name = String::from_str(names[i]);
        if name == segment {
            return Ok(i);
        }
        i += 1;
    }
    Err(Error::NotFound(segment))
}

/// The capability of a service: it lists the route keys it serves and answers requests.
///
/// A service says what it promises by `declares` and `serves`. One that leaves them as
/// they are promises nothing.
pub trait Service: Sized {
    /// Whether `list` is the list of route keys that the service declares.
    open spec fn declares(list: Seq<Seq<char>>) -> bool {
        true
    }

    /// Whether `out` is an answer of this service to the request.
    open spec fn serves(
        self,
        path: Seq<char>,
        data: Seq<u8>,
        json: bool,
        query: bool,
        out: Result<Vec<u8>, Error>,
    ) -> bool {
        true
    }

    /// The route keys that the service serves, in order.
    fn methods() -> (list: Vec<&'static str>)
        ensures
            Self::declares(list@.map_values(|s: &'static str| s@)),
    ;

    /// Answers one request: `data` is the payload, `json` selects the alternate codec,
    /// and `query` the flat `key=value` form of it.
    fn dispatch_request(self, path: &str, data: &[u8], json: bool, query: bool) -> (out: Result<
        Vec<u8>,
        Error,
    >)
        ensures
            self.serves(path@, data@, json, query, out),
    ;
}

/// A service that a composition can find by name.
pub trait NamedService: Service {
    /// The name of the service: the leading segment of each of its route keys.
    const NAME: &'static str;
}

/// An ordered composition of named services, all built from one application handle.
///
/// `T` lists the services: `()` is the empty composition, and `(H, T)` is the service `H`
/// followed by the services of `T`.
pub struct ComposedService<A, T> {
    app: A,
    _marker: PhantomData<T>,
}

impl<A, T> ComposedService<A, T> {
    /// The application handle that the services are built from.
    pub closed spec fn app(self) -> A {
        self.app
    }

    /// The composition of the services of `T` over the handle `app`.
    pub closed spec fn over(app: A) -> Self {
        ComposedService { app, _marker: PhantomData }
    }

    /// A composition is its handle and nothing else.
    pub proof fn lemma_over(self)
        ensures
            self == Self::over(self.app()),
    {
    }

    /// The composition over a handle holds that very handle.
    pub proof fn lemma_app_of_over(app: A)
        ensures
            Self::over(app).app() == app,
    {
    }

    /// Composes the services of `T` over the handle `app`.
    pub fn new(app: A) -> (composed: Self)
        ensures
            composed == Self::over(app),
            composed.app() == app,
    {
        Self { app, _marker: PhantomData }
    }
}

impl<A, T> From<A> for ComposedService<A, T> {
    /// A composition is built from its handle.
    fn from(app: A) -> (composed: Self) {
        Self::new(app)
    }
}

impl<A, T> FromSpecImpl<A> for ComposedService<A, T> {
    open spec fn obeys_from_spec() -> bool {
        true
    }

    open spec fn from_spec(app: A) -> Self {
        Self::over(app)
    }
}

impl<A> Service for ComposedService<A, ()> {
    /// The empty composition declares no route key.
    open spec fn declares(list: Seq<Seq<char>>) -> bool {
        list == Seq::<Seq<char>>::empty()
    }

    /// The empty composition answers every request alike: the leading segment of the path
    /// was not found.
    open spec fn serves(
        self,
        path: Seq<char>,
        data: Seq<u8>,
        json: bool,
        query: bool,
        out: Result<Vec<u8>, Error>,
    ) -> bool {
        out matches Err(Error::NotFound(segment)) && segment@ == leading_segment(path)
    }

    fn methods() -> (list: Vec<&'static str>) {
        let list: Vec<&'static str> = Vec::new();
        assert(list@.map_values(|s: &'static str| s@) =~= Seq::empty());
        list
    }

    fn dispatch_request(self, path: &str, data: &[u8], json: bool, query: bool) -> (out: Result<
        Vec<u8>,
        Error,
    >) {
        Err(Error::NotFound(service_segment(path)))
    }
}

impl<A, H, T> Service for ComposedService<A, (H, T)> where
    H: NamedService + From<A>,
    ComposedService<A, T>: Service,
 {
    /// The route keys of the first service, then those of the others.
    open spec fn declares(list: Seq<Seq<char>>) -> bool {
        exists|head: Seq<Seq<char>>, rest: Seq<Seq<char>>|
            #![trigger H::declares(head), <ComposedService<A, T> as Service>::declares(rest)]
            H::declares(head) && <ComposedService<A, T> as Service>::declares(rest) && list == head
                + rest
    }

    /// Where the leading segment of the path is the name of the first service, the answer
    /// is that of a facade of it, built from the handle, to the whole path and the same
    /// payload and flags. Otherwise it is the answer of the other services.
    open spec fn serves(
        self,
        path: Seq<char>,
        data: Seq<u8>,
        json: bool,
        query: bool,
        out: Result<Vec<u8>, Error>,
    ) -> bool {
        if leading_segment(path) == H::NAME@ {
            exists|facade: H|
                (H::obeys_from_spec() ==> facade == H::from_spec(self.app()))
                    && #[trigger] facade.serves(path, data, json, query, out)
        } else {
            ComposedService::<A, T>::over(self.app()).serves(path, data, json, query, out)
        }
    }

    fn methods() -> (list: Vec<&'static str>) {
        let mut list = H::methods();
        let mut rest = <ComposedService<A, T> as Service>::methods();
        let ghost head_keys = list@.map_values(|s: &'static str| s@);
        let ghost rest_keys = rest@.map_values(|s: &'static str| s@);
        list.append(&mut rest);
        assert(list@.map_values(|s: &'static str| s@) =~= head_keys + rest_keys);
        list
    }

    fn dispatch_request(self, path: &str, data: &[u8], json: bool, query: bool) -> (out: Result<
        Vec<u8>,
        Error,
    >) {
        let service_name = service_segment(path);
        let name = String::from_str(H::NAME);
        if service_name == name {
            let facade = H::from(self.app);
            facade.dispatch_request(path, data, json, query)
        } else {
            let rest: ComposedService<A, T> = ComposedService::new(self.app);
            rest.dispatch_request(path, data, json, query)
        }
    }
}

/// The methods of a composition of two services are those of the first, then those of
/// the second: whatever list the composition declares is a list of the first followed by
/// a list of the second.
pub proof fn lemma_methods_of_two<A, X, Y>(list: Seq<Seq<char>>)
    where
        X: NamedService + From<A>,
        Y: NamedService + From<A>,
    requires
        <ComposedService<A, (X, (Y, ()))> as Service>::declares(list),
    ensures
        exists|first: Seq<Seq<char>>, second: Seq<Seq<char>>|
            #![trigger X::declares(first), Y::declares(second)]
            X::declares(first) && Y::declares(second) && list == first + second,
{
    let (first, others) = choose|head: Seq<Seq<char>>, rest: Seq<Seq<char>>|
        #![trigger X::declares(head), <ComposedService<A, (Y, ())> as Service>::declares(rest)]
        X::declares(head) && <ComposedService<A, (Y, ())> as Service>::declares(rest) && list
            == head + rest;
    let (second, none) = choose|head: Seq<Seq<char>>, rest: Seq<Seq<char>>|
        #![trigger Y::declares(head), <ComposedService<A, ()> as Service>::declares(rest)]
        Y::declares(head) && <ComposedService<A, ()> as Service>::declares(rest) && others == head
            + rest;
    assert(second + none =~= second);
    assert(X::declares(first) && Y::declares(second) && list == first + second);
}

/// A path whose leading segment is the name of the first service of a composition is
/// answered by a facade of that service, built from the handle that the composition was
/// made with, to the same path, payload and flags.
pub proof fn lemma_first_answers<A, H, T>(
    composed: ComposedService<A, (H, T)>,
    path: Seq<char>,
    data: Seq<u8>,
    json: bool,
    query: bool,
    out: Result<Vec<u8>, Error>,
)
    where
        H: NamedService + From<A>,
        ComposedService<A, T>: Service,
    requires
        composed.serves(path, data, json, query, out),
        leading_segment(path) == H::NAME@,
    ensures
        exists|facade: H|
            (H::obeys_from_spec() ==> facade == H::from_spec(composed.app()))
                && #[trigger] facade.serves(path, data, json, query, out),
{
}

/// A path whose leading segment is not the name of the first service of a composition is
/// answered by the composition of the other services over the very same handle, to the
/// same path, payload and flags. Taken once for each service that the path does not name,
/// this reaches the service at any position.
pub proof fn lemma_rest_answers<A, H, T>(
    composed: ComposedService<A, (H, T)>,
    path: Seq<char>,
    data: Seq<u8>,
    json: bool,
    query: bool,
    out: Result<Vec<u8>, Error>,
)
    where
        H: NamedService + From<A>,
        ComposedService<A, T>: Service,
    requires
        composed.serves(path, data, json, query, out),
        leading_segment(path) != H::NAME@,
    ensures
        ComposedService::<A, T>::over(composed.app()).serves(path, data, json, query, out),
        ComposedService::<A, T>::over(composed.app()).app() == composed.app(),
{
    ComposedService::<A, T>::lemma_app_of_over(composed.app());
}

/// A path whose leading segment names none of three composed services is answered with
/// `NotFound`, which holds that segment.
pub proof fn lemma_unmatched_not_found<A, X, Y, Z>(
    composed: ComposedService<A, (X, (Y, (Z, ())))>,
    path: Seq<char>,
    data: Seq<u8>,
    json: bool,
    query: bool,
    out: Result<Vec<u8>, Error>,
)
    where
        X: NamedService + From<A>,
        Y: NamedService + From<A>,
        Z: NamedService + From<A>,
    requires
        composed.serves(path, data, json, query, out),
        leading_segment(path) != X::NAME@,
        leading_segment(path) != Y::NAME@,
        leading_segment(path) != Z::NAME@,
    ensures
        out matches Err(Error::NotFound(segment)) && segment@ == leading_segment(path),
{
    lemma_rest_answers::<A, X, (Y, (Z, ()))>(composed, path, data, json, query, out);
    let second = ComposedService::<A, (Y, (Z, ()))>::over(composed.app());
    lemma_rest_answers::<A, Y, (Z, ())>(second, path, data, json, query, out);
    let third = ComposedService::<A, (Z, ())>::over(second.app());
    lemma_rest_answers::<A, Z, ()>(third, path, data, json, query, out);
}

/// A path whose leading segment names the second of three composed services, and not the
/// first, is answered by a facade of the second, built from the handle of the
/// composition, whatever the name of the third.
pub proof fn lemma_second_answers<A, X, Y, Z>(
    composed: ComposedService<A, (X, (Y, (Z, ())))>,
    path: Seq<char>,
    data: Seq<u8>,
    json: bool,
    query: bool,
    out: Result<Vec<u8>, Error>,
)
    where
        X: NamedService + From<A>,
        Y: NamedService + From<A>,
        Z: NamedService + From<A>,
    requires
        composed.serves(path, data, json, query, out),
        leading_segment(path) != X::NAME@,
        leading_segment(path) == Y::NAME@,
    ensures
        exists|facade: Y|
            (Y::obeys_from_spec() ==> facade == Y::from_spec(composed.app()))
                && #[trigger] facade.serves(path, data, json, query, out),
{
    lemma_rest_answers::<A, X, (Y, (Z, ()))>(composed, path, data, json, query, out);
    lemma_first_answers::<A, Y, (Z, ())>(
        ComposedService::<A, (Y, (Z, ()))>::over(composed.app()),
        path,
        data,
        json,
        query,
        out,
    );
}

/// A path whose leading segment names the third of three composed services, and neither
/// of the others, is answered by a facade of the third, built from the handle of the
/// composition.
pub proof fn lemma_third_answers<A, X, Y, Z>(
    composed: ComposedService<A, (X, (Y, (Z, ())))>,
    path: Seq<char>,
    data: Seq<u8>,
    json: bool,
    query: bool,
    out: Result<Vec<u8>, Error>,
)
    where
        X: NamedService + From<A>,
        Y: NamedService + From<A>,
        Z: NamedService + From<A>,
    requires
        composed.serves(path, data, json, query, out),
        leading_segment(path) != X::NAME@,
        leading_segment(path) != Y::NAME@,
        leading_segment(path) == Z::NAME@,
    ensures
        exists|facade: Z|
            (Z::obeys_from_spec() ==> facade == Z::from_spec(composed.app()))
                && #[trigger] facade.serves(path, data, json, query, out),
{
    lemma_rest_answers::<A, X, (Y, (Z, ()))>(composed, path, data, json, query, out);
    let second = ComposedService::<A, (Y, (Z, ()))>::over(composed.app());
    lemma_rest_answers::<A, Y, (Z, ())>(second, path, data, json, query, out);
    lemma_first_answers::<A, Z, ()>(
        ComposedService::<A, (Z, ())>::over(second.app()),
        path,
        data,
        json,
        query,
        out,
    );
}

} // verus!
