//! The JSON-RPC 2.0 values that a transport produces.

use vstd::prelude::*;

verus! {

/// `serde_json::Value`, an arbitrary JSON value. The library never looks inside
/// one: it only carries parameters through to the wire.
#[verifier::external_type_specification]
#[verifier::external_body]
pub struct ExJsonValue(serde_json::Value);

/// `serde_json::Map`, a JSON object. Carried through like `serde_json::Value`.
#[verifier::external_type_specification]
#[verifier::external_body]
#[verifier::reject_recursive_types(K)]
#[verifier::reject_recursive_types(V)]
pub struct ExJsonMap<K, V>(serde_json::Map<K, V>);

/// `Clone::clone` of `serde_json::Map<String, Value>`: the copy is the same
/// JSON object.
pub assume_specification[ <serde_json::Map<String, serde_json::Value> as Clone>::clone ](
    entries: &serde_json::Map<String, serde_json::Value>,
) -> (copy: serde_json::Map<String, serde_json::Value>)
    ensures
        copy == *entries,
;

/// Identifies one call among all those prepared through one allocator.
pub type RequestId = usize;

/// The protocol version tag of a call.
#[derive(Clone, Copy, Debug, PartialEq, Eq, Structural)]
pub enum Version {
    /// JSON-RPC 2.0.
    V2,
}

/// The parameters of a call: positional or keyed. Their contents are opaque
/// to the transport.
#[derive(Clone, Debug, PartialEq)]
pub enum Params {
    /// Positional parameters.
    Array(Vec<serde_json::Value>),
    /// Parameters keyed by name.
    Object(serde_json::Map<String, serde_json::Value>),
}

/// The mathematical value of [`Params`].
pub enum ParamsView {
    Array(Seq<serde_json::Value>),
    Object(serde_json::Map<String, serde_json::Value>),
}

impl View for Params {
    type V = ParamsView;

    open spec fn view(&self) -> ParamsView {
        match *self {
            Params::Array(values) => ParamsView::Array(values@),
            Params::Object(entries) => ParamsView::Object(entries),
        }
    }
}

/// A call that expects an answer.
#[derive(Clone, Debug, PartialEq)]
pub struct MethodCall {
    /// The protocol version, when the call carries one.
    pub jsonrpc: Option<Version>,
    /// The identifier under which the answer comes back.
    pub id: RequestId,
    /// The name of the remote method.
    pub method: String,
    /// The parameters of the method.
    pub params: Params,
}

/// A call that expects no answer, and so carries no identifier.
#[derive(Clone, Debug, PartialEq)]
pub struct Notification {
    /// The protocol version, when the call carries one.
    pub jsonrpc: Option<Version>,
    /// The name of the remote method.
    pub method: String,
    /// The parameters of the method.
    pub params: Params,
}

/// One JSON-RPC call.
#[derive(Clone, Debug, PartialEq)]
pub enum Call {
    /// A call with an identifier.
    MethodCall(MethodCall),
    /// A call without one.
    Notification(Notification),
}

/// The mathematical value of [`Call`].
pub enum CallView {
    MethodCall { jsonrpc: Option<Version>, id: RequestId, method: Seq<char>, params: ParamsView },
    Notification { jsonrpc: Option<Version>, method: Seq<char>, params: ParamsView },
}

impl View for MethodCall {
    type V = CallView;

    open spec fn view(&self) -> CallView {
        CallView::MethodCall {
            jsonrpc: self.jsonrpc,
            id: self.id,
            method: self.method@,
            params: self.params@,
        }
    }
}

impl View for Notification {
    type V = CallView;

    open spec fn view(&self) -> CallView {
        CallView::Notification {
            jsonrpc: self.jsonrpc,
            method: self.method@,
            params: self.params@,
        }
    }
}

impl View for Call {
    type V = CallView;

    open spec fn view(&self) -> CallView {
        match *self {
            Call::MethodCall(call) => call@,
            Call::Notification(notification) => notification@,
        }
    }
}

/// The version 2.0 method call with the given identifier, method name and
/// parameters.
pub open spec fn method_call(id: RequestId, method: Seq<char>, params: ParamsView) -> CallView {
    CallView::MethodCall { jsonrpc: Some(Version::V2), id, method, params }
}

impl Call {
    /// Builds the version 2.0 method call for `method` with `params`, tagged
    /// with `id`.
    pub fn method_call(id: RequestId, method: &str, params: Params) -> (call: Call)
        ensures
            call@ == method_call(id, method@, params@),
    {
        Call::MethodCall(
            MethodCall { jsonrpc: Some(Version::V2), id, method: method.to_owned(), params },
        )
    }
}

} // verus!
