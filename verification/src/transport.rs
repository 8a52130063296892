//! Transport-specific registration for custom Taiko RPC methods.

use jsonrpsee::Methods;
use vstd::prelude::*;

verus! {

/// The RPC methods of `jsonrpsee`, which are opaque here.
#[verifier::external_type_specification]
#[verifier::external_body]
pub struct ExMethods(Methods);

/// The registration error of `jsonrpsee`, which is opaque here.
#[verifier::external_type_specification]
#[verifier::external_body]
pub struct ExRegisterMethodError(jsonrpsee::core::RegisterMethodError);

/// The names under which methods are registered.
pub uninterp spec fn registered(methods: Methods) -> Set<Seq<char>>;

/// Adds methods to others with `jsonrpsee::Methods::merge`.
///
/// It fails exactly if some name is registered on both sides, and then leaves the methods as they
/// were; otherwise the names of both sides are registered. Which callback stands behind a name,
/// and which of several names an error names, is not said.
#[verifier::external_body]
fn merge_methods(methods: &mut Methods, other: Methods) -> (r: Result<(), jsonrpsee::core::RegisterMethodError>)
    ensures
        r is Ok <==> registered(*old(methods)).disjoint(registered(other)),
        r is Ok ==> registered(*final(methods)) == registered(*old(methods)).union(
            registered(other),
        ),
        r is Err ==> *final(methods) == *old(methods),
{
    methods.merge(other)
}

/// The RPC methods of each transport that is configured.
#[derive(Debug)]
pub struct TransportRpcModules {
    pub http: Option<Methods>,
    pub ws: Option<Methods>,
    pub ipc: Option<Methods>,
}

impl TransportRpcModules {
    /// Adds methods to the HTTP transport, if it is configured, and says whether it is.
    pub fn merge_http(&mut self, other: Methods) -> (r: Result<
        bool,
        jsonrpsee::core::RegisterMethodError,
    >)
        ensures
            final(self).ws == old(self).ws,
            final(self).ipc == old(self).ipc,
            match old(self).http {
                None => r == Ok::<bool, jsonrpsee::core::RegisterMethodError>(false) && final(self).http is None,
                Some(http) => if registered(http).disjoint(registered(other)) {
                    &&& r == Ok::<bool, jsonrpsee::core::RegisterMethodError>(true)
                    &&& final(self).http matches Some(merged)
                    &&& registered(merged) == registered(http).union(registered(other))
                } else {
                    &&& r is Err
                    &&& final(self).http == old(self).http
                },
            },
    {
        match self.http.take() {
            Some(mut http) => {
                let merged = merge_methods(&mut http, other);
                self.http = Some(http);
                match merged {
                    Ok(()) => Ok(true),
                    Err(error) => Err(error),
                }
            },
            None => Ok(false),
        }
    }
}

/// Registers the heavy DeBank trace endpoint on HTTP without exposing it on WS or IPC.
pub fn merge_debank_trace_http_only(modules: &mut TransportRpcModules, methods: Methods) -> (r:
    Result<bool, jsonrpsee::core::RegisterMethodError>)
    ensures
        final(modules).ws == old(modules).ws,
        final(modules).ipc == old(modules).ipc,
        match old(modules).http {
            None => r == Ok::<bool, jsonrpsee::core::RegisterMethodError>(false) && final(modules).http is None,
            Some(http) => if registered(http).disjoint(registered(methods)) {
                &&& r == Ok::<bool, jsonrpsee::core::RegisterMethodError>(true)
                &&& final(modules).http matches Some(merged)
                &&& registered(merged) == registered(http).union(registered(methods))
            } else {
                &&& r is Err
                &&& final(modules).http == old(modules).http
            },
        },
{
    modules.merge_http(methods)
}

} // verus!
