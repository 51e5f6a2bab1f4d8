//! Route keys: the strings by which a client names a method and a server finds it.

use crate::schema::Builder;
use vstd::prelude::*;
use vstd::std_specs::iter::IteratorSpec;

verus! {

/// The delimiter between the segments of a route key.
pub open spec fn delimiter() -> char {
    '.'
}

/// The route key of a method, as a sequence of characters.
///
/// With `emit_package` set and a non-empty package the key is
/// `package.service.method`; otherwise it is `service.method`.
pub open spec fn route_key(
    emit_package: bool,
    package: Seq<char>,
    service: Seq<char>,
    method: Seq<char>,
) -> Seq<char> {
    if emit_package && package.len() > 0 {
        package + seq![delimiter()] + service + seq![delimiter()] + method
    } else {
        service + seq![delimiter()] + method
    }
}

/// Builds the route key of a method.
pub fn join_path(config: &Builder, package: &str, service: &str, method: &str) -> (path: String)
    ensures
        path@ == route_key(config.emit_package, package@, service@, method@),
{
    proof {
        reveal_strlit(".");
    }
    let mut path = String::new();
    if config.emit_package && !package.is_empty() {
        path.append(package);
        path.append(".");
    }
    path.append(service);
    path.append(".");
    path.append(method);
    assert(path@ =~= route_key(config.emit_package, package@, service@, method@));
    path
}

/// The number of characters of `path` that stand before its first delimiter; the length
/// of `path` where it has none.
pub open spec fn segment_len(path: Seq<char>) -> nat
    decreases path.len(),
{
    if path.len() == 0 || path[0] == delimiter() {
        0
    } else {
        1 + segment_len(path.drop_first())
    }
}

/// The leading segment of `path`: what stands before its first delimiter, or all of it.
pub open spec fn leading_segment(path: Seq<char>) -> Seq<char> {
    path.take(segment_len(path) as int)
}

/// `s` holds no delimiter.
pub open spec fn is_segment(s: Seq<char>) -> bool {
    forall|i: int| 0 <= i < s.len() ==> s[i] != delimiter()
}

/// The leading segment ends at the first delimiter: no delimiter stands before position
/// `segment_len(path)`, and one stands there unless the path ends there.
pub proof fn lemma_segment_len(path: Seq<char>)
    ensures
        segment_len(path) <= path.len(),
        forall|i: int| 0 <= i < segment_len(path) ==> path[i] != delimiter(),
        segment_len(path) < path.len() ==> path[segment_len(path) as int] == delimiter(),
    decreases path.len(),
{
    if path.len() == 0 || path[0] == delimiter() {
    } else {
        let rest = path.drop_first();
        lemma_segment_len(rest);
        assert forall|i: int| 0 <= i < segment_len(path) implies path[i] != delimiter() by {
            if i > 0 {
                assert(path[i] == rest[i - 1]);
            }
        }
        if segment_len(path) < path.len() {
            assert(path[segment_len(path) as int] == rest[segment_len(rest) as int]);
        }
    }
}

/// A position before which no delimiter stands, and which is the end of the path or holds
/// a delimiter, is where the leading segment ends.
pub proof fn lemma_segment_len_is(path: Seq<char>, k: int)
    requires
        0 <= k <= path.len(),
        forall|i: int| 0 <= i < k ==> path[i] != delimiter(),
        k < path.len() ==> path[k] == delimiter(),
    ensures
        segment_len(path) == k,
{
    lemma_segment_len(path);
    let n = segment_len(path) as int;
    if n < k {
        assert(path[n] == delimiter());
    } else if k < n {
        assert(path[k] != delimiter());
    }
}

/// The leading segment of a path, by which a composition of services finds the service
/// that the path names.
pub fn service_segment(path: &str) -> (segment: String)
    ensures
        segment@ == leading_segment(path@),
{
    let mut segment = String::new();
    for c in it: path.chars()
        invariant
            it.seq() == path@,
            segment@ == path@.take(it.index()),
            forall|i: int| 0 <= i < it.index() ==> path@[i] != delimiter(),
    {
        if c == '.' {
            proof {
                lemma_segment_len_is(path@, it.index());
            }
            return segment;
        }
        segment.push(c);
        assert(segment@ =~= path@.take(it.index() + 1));
    }
    proof {
        lemma_segment_len_is(path@, path@.len() as int);
    }
    segment
}

/// The route key is a function of its inputs that tells the methods of a service apart:
/// under one package, service and convention, two method identifiers give the same key
/// exactly when they are the same identifier.
pub proof fn lemma_route_key_injective(
    emit_package: bool,
    package: Seq<char>,
    service: Seq<char>,
    first: Seq<char>,
    second: Seq<char>,
)
    ensures
        route_key(emit_package, package, service, first) == route_key(
            emit_package,
            package,
            service,
            second,
        ) <==> first == second,
{
    let head = if emit_package && package.len() > 0 {
        package + seq![delimiter()] + service + seq![delimiter()]
    } else {
        service + seq![delimiter()]
    };
    assert(route_key(emit_package, package, service, first) =~= head + first);
    assert(route_key(emit_package, package, service, second) =~= head + second);
    assert((head + first).skip(head.len() as int) =~= first);
    assert((head + second).skip(head.len() as int) =~= second);
}

/// A route key without a package starts with the service: where the service identifier
/// holds no delimiter, it is the leading segment of each of the service's route keys.
pub proof fn lemma_route_key_names_service(
    emit_package: bool,
    package: Seq<char>,
    service: Seq<char>,
    method: Seq<char>,
)
    requires
        !emit_package || package.len() == 0,
        is_segment(service),
    ensures
        leading_segment(route_key(emit_package, package, service, method)) == service,
{
    let key = route_key(emit_package, package, service, method);
    assert(key =~= service + seq![delimiter()] + method);
    assert forall|i: int| 0 <= i < service.len() implies key[i] != delimiter() by {
        assert(key[i] == service[i]);
    }
    assert(key[service.len() as int] == delimiter());
    lemma_segment_len_is(key, service.len() as int);
    assert(key.take(service.len() as int) =~= service);
}

} // verus!
