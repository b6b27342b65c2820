//! The endpoint registry: resources become servable endpoints that declare
//! the operations they support, and a server mounts endpoints under unique
//! path prefixes and dispatches typed requests to them. Request-time errors
//! are always recovered into a typed response kind, never a crash; the
//! endpoint set is a closed set of variants, one per resource kind.
use std::sync::Arc;
use vstd::prelude::*;

use crate::amount::dec_value;
use crate::amount::is_amount;
use crate::amount::parse_amount;
use crate::chain::contains_commit;
use crate::chain::ChainStore;
use crate::chain::Commitment;
use crate::chain::Output;
use crate::chain::Tip;
use crate::hexutil::from_hex;
use crate::hexutil::hex_bytes;
use crate::hexutil::is_hex_encoding;
use crate::keys::ExtendedKey;

verus! {

/// The operations an endpoint may declare support for.
#[derive(Clone, Copy, PartialEq, Eq, Structural, Debug)]
pub enum Operation {
    Get,
    Create,
    Update,
    Delete,
}

/// The machine-distinguishable kinds of per-request failure; each maps to a
/// distinct response code at the transport boundary.
#[derive(Clone, Copy, PartialEq, Eq, Structural, Debug)]
pub enum ApiError {
    /// The addressed resource (or path) is absent.
    NotFound,
    /// The raw identifier or body could not be converted to the endpoint's
    /// typed domain.
    Argument,
    /// An unexpected backend failure.
    Internal,
    /// The invoked operation is not in the endpoint's declared set.
    MethodNotAllowed,
}

/// Registering two endpoints at the same path: a configuration error raised
/// at registration time, never silently resolved by overwriting.
#[derive(Clone, Copy, PartialEq, Eq, Structural, Debug)]
pub struct RegistrationConflict;

/// Acknowledgment returned by the wallet's coinbase-receiving endpoint: the
/// receiving key identifier and the amount requested.
#[derive(Debug)]
pub struct CbData {
    pub key_id: Vec<u8>,
    pub amount: u64,
}

/// Endpoint over the blockchain: exposes the current chain tip.
#[derive(Debug)]
pub struct ChainApi {
    /// data store access
    pub chain_store: Arc<ChainStore>,
}

/// Endpoint over outputs that have been included in the chain, addressed by
/// hex-encoded commitment.
#[derive(Debug)]
pub struct OutputApi {
    /// data store access
    pub chain_store: Arc<ChainStore>,
}

/// Write-style endpoint of the wallet's receiving mode.
#[derive(Debug)]
pub struct WalletReceiver {
    pub key: ExtendedKey,
}

impl ChainApi {
    /// The declared operation set: read-only.
    pub fn operations(&self) -> (r: Vec<Operation>)
        ensures
            r@ == seq![Operation::Get],
    {
        let mut v: Vec<Operation> = Vec::new();
        v.push(Operation::Get);
        proof {
            assert(v@ =~= seq![Operation::Get]);
        }
        v
    }

    /// The current chain tip; a store without one is a backend failure.
    pub fn get(&self, _id: &str) -> (r: Result<&Tip, ApiError>)
        ensures
            r matches Ok(t) ==> self.chain_store.head == Some(*t),
            r is Err <==> self.chain_store.head is None,
            r matches Err(e) ==> e == ApiError::Internal,
    {
        match self.chain_store.head() {
            Ok(t) => Ok(t),
            Err(_) => Err(ApiError::Internal),
        }
    }
}

impl OutputApi {
    /// The declared operation set: read-only.
    pub fn operations(&self) -> (r: Vec<Operation>)
        ensures
            r@ == seq![Operation::Get],
    {
        let mut v: Vec<Operation> = Vec::new();
        v.push(Operation::Get);
        proof {
            assert(v@ =~= seq![Operation::Get]);
        }
        v
    }

    /// Look an output up by hex-encoded commitment. An identifier that is
    /// not valid hex is rejected as `Argument` before the backing store is
    /// consulted; a commitment absent from the store is `NotFound`, never
    /// a backend failure.
    pub fn get(&self, id: &str) -> (r: Result<&Output, ApiError>)
        ensures
            r is Ok <==> (is_hex_encoding(id@) && contains_commit(
                self.chain_store.outputs@,
                hex_bytes(id@),
            )),
            r == Err::<&Output, ApiError>(ApiError::Argument) <==> !is_hex_encoding(id@),
            r == Err::<&Output, ApiError>(ApiError::NotFound) <==> (is_hex_encoding(id@)
                && !contains_commit(self.chain_store.outputs@, hex_bytes(id@))),
            r matches Ok(o) ==> is_hex_encoding(id@) && exists|i: int|
                0 <= i < self.chain_store.outputs@.len() && self.chain_store.outputs@[i] == *o
                    && self.chain_store.outputs@[i].commit.bytes@ == hex_bytes(id@),
    {
        let c = match from_hex(id) {
            Ok(v) => v,
            Err(_) => {
                return Err(ApiError::Argument);
            },
        };
        let commit = Commitment::from_vec(c);
        match self.chain_store.get_output_by_commit(&commit) {
            Ok(o) => Ok(o),
            Err(_) => Err(ApiError::NotFound),
        }
    }
}

impl WalletReceiver {
    /// The declared operation set: create only.
    pub fn operations(&self) -> (r: Vec<Operation>)
        ensures
            r@ == seq![Operation::Create],
    {
        let mut v: Vec<Operation> = Vec::new();
        v.push(Operation::Create);
        proof {
            assert(v@ =~= seq![Operation::Create]);
        }
        v
    }

    /// Accept a coinbase request whose body is a decimal amount, and
    /// acknowledge with the receiving key's identifier. A body that does not
    /// parse as an amount is rejected as `Argument`. The coinbase output
    /// itself is built by the external wallet collaborator.
    pub fn create(&self, body: &str) -> (r: Result<CbData, ApiError>)
        ensures
            r matches Ok(cb) ==> is_amount(body@) && cb.amount == dec_value(body@) && cb.key_id@
                == self.key.chain_code@,
            r is Err <==> !(is_amount(body@) && dec_value(body@) <= u64::MAX),
            r matches Err(e) ==> e == ApiError::Argument,
    {
        match parse_amount(body) {
            Ok(a) => Ok(
                CbData {
                    key_id: vstd::slice::slice_to_vec(self.key.chain_code.as_slice()),
                    amount: a,
                },
            ),
            Err(_) => Err(ApiError::Argument),
        }
    }
}

/// The closed set of endpoint kinds this node can mount.
#[derive(Debug)]
pub enum Endpoint {
    Chain(ChainApi),
    Output(OutputApi),
    WalletReceive(WalletReceiver),
}

/// Which operations an endpoint's declared set holds.
pub open spec fn op_supported(ep: Endpoint, op: Operation) -> bool {
    match ep {
        Endpoint::Chain(_) => op == Operation::Get,
        Endpoint::Output(_) => op == Operation::Get,
        Endpoint::WalletReceive(_) => op == Operation::Create,
    }
}

impl Endpoint {
    /// The operations this endpoint declares; dispatch rejects the others.
    pub fn operations(&self) -> (r: Vec<Operation>)
        ensures
            forall|op: Operation| r@.contains(op) <==> op_supported(*self, op),
    {
        let r = match self {
            Endpoint::Chain(a) => a.operations(),
            Endpoint::Output(a) => a.operations(),
            Endpoint::WalletReceive(w) => w.operations(),
        };
        proof {
            assert(r@.len() == 1);
            assert forall|op: Operation| r@.contains(op) <==> op_supported(*self, op) by {
                assert(r@.contains(op) <==> op == r@[0]);
            }
        }
        r
    }
}

/// A typed response: what dispatch hands back to the transport for
/// serialization.
#[derive(Debug)]
pub enum ApiResponse<'a> {
    Tip(&'a Tip),
    Output(&'a Output),
    Coinbase(CbData),
}

/// The registry's dispatch contract for one endpoint: given the operation,
/// raw identifier and raw body of a request, which results the endpoint may
/// answer with. An unsupported operation is `MethodNotAllowed`, never a
/// silent no-op.
pub open spec fn get_response<'a>(
    ep: Endpoint,
    op: Operation,
    id: Seq<char>,
    body: Seq<char>,
    r: Result<ApiResponse<'a>, ApiError>,
) -> bool {
    if !op_supported(ep, op) {
        r == Err::<ApiResponse<'a>, ApiError>(ApiError::MethodNotAllowed)
    } else {
        match ep {
            Endpoint::Chain(a) => match r {
                Ok(resp) => match resp {
                    ApiResponse::Tip(t) => a.chain_store.head == Some(*t),
                    _ => false,
                },
                Err(e) => e == ApiError::Internal && a.chain_store.head is None,
            },
            Endpoint::Output(a) => match r {
                Ok(resp) => match resp {
                    ApiResponse::Output(o) => is_hex_encoding(id) && exists|i: int|
                        0 <= i < a.chain_store.outputs@.len() && a.chain_store.outputs@[i] == *o
                            && a.chain_store.outputs@[i].commit.bytes@ == hex_bytes(id),
                    _ => false,
                },
                Err(e) => if !is_hex_encoding(id) {
                    e == ApiError::Argument
                } else {
                    e == ApiError::NotFound && !contains_commit(a.chain_store.outputs@, hex_bytes(id))
                },
            },
            Endpoint::WalletReceive(w) => match r {
                Ok(resp) => match resp {
                    ApiResponse::Coinbase(cb) => is_amount(body) && cb.amount == dec_value(body)
                        && cb.key_id@ == w.key.chain_code@,
                    _ => false,
                },
                Err(e) => e == ApiError::Argument && !(is_amount(body) && dec_value(body)
                    <= u64::MAX),
            },
        }
    }
}

/// Law: invoking an operation outside an endpoint's declared set yields
/// `MethodNotAllowed`, for every endpoint, request and result admitted by
/// the dispatch contract.
pub proof fn law_method_not_allowed<'a>(
    ep: Endpoint,
    op: Operation,
    id: Seq<char>,
    body: Seq<char>,
    r: Result<ApiResponse<'a>, ApiError>,
)
    requires
        !op_supported(ep, op),
        get_response(ep, op, id, body, r),
    ensures
        r == Err::<ApiResponse<'a>, ApiError>(ApiError::MethodNotAllowed),
{
}

/// Whether some mount uses this path.
pub open spec fn has_path(mounts: Seq<(String, Endpoint)>, p: Seq<char>) -> bool {
    exists|i: int| 0 <= i < mounts.len() && mounts[i].0@ == p
}

/// A server that mounts endpoints under a base path and dispatches requests
/// to them. Mounted once, before serving starts; read-only afterwards.
#[derive(Debug)]
pub struct ApiServer {
    pub base_path: String,
    pub mounts: Vec<(String, Endpoint)>,
}

impl ApiServer {
    /// Well-formedness: mounted paths are unique within the server.
    pub open spec fn wf(&self) -> bool {
        forall|i: int, j: int|
            0 <= i < j < self.mounts@.len() ==> self.mounts@[i].0@ != self.mounts@[j].0@
    }

    /// A server with no mounts, rooted at `base_path`.
    pub fn new(base_path: String) -> (s: ApiServer)
        ensures
            s.base_path@ == base_path@,
            s.mounts@.len() == 0,
            s.wf(),
    {
        ApiServer { base_path, mounts: Vec::new() }
    }

    /// Mount an endpoint under a path. Fails exactly when the path is
    /// already taken, and then leaves the server unchanged: a duplicate is
    /// never observable as a silently overwritten mount.
    pub fn register_endpoint(&mut self, path: String, endpoint: Endpoint) -> (r: Result<
        (),
        RegistrationConflict,
    >)
        ensures
            r is Ok <==> !has_path(old(self).mounts@, path@),
            r is Ok ==> final(self).mounts@ == old(self).mounts@.push((path, endpoint)),
            r is Err ==> *final(self) == *old(self),
            final(self).base_path == old(self).base_path,
            old(self).wf() ==> final(self).wf(),
    {
        let n = self.mounts.len();
        let mut i: usize = 0;
        while i < n
            invariant
                i <= n,
                n == self.mounts@.len(),
                forall|j: int| 0 <= j < i ==> self.mounts@[j].0@ != path@,
            decreases n - i,
        {
            let m = &self.mounts[i];
            if m.0 == path {
                return Err(RegistrationConflict);
            }
            i = i + 1;
        }
        let ghost old_mounts = self.mounts@;
        self.mounts.push((path, endpoint));
        proof {
            if old(self).wf() {
                assert forall|a: int, b: int|
                    0 <= a < b < self.mounts@.len() implies self.mounts@[a].0@
                    != self.mounts@[b].0@ by {
                    if b < self.mounts@.len() - 1 {
                        assert(old_mounts[a].0@ != old_mounts[b].0@);
                    } else {
                        assert(old_mounts[a].0@ != path@);
                    }
                }
            }
        }
        Ok(())
    }

    /// Resolve a request `(path, operation, raw identifier, raw body)` to a
    /// mounted endpoint and invoke it: an unmounted path is `NotFound`; a
    /// mounted one answers by its own contract, rejecting undeclared
    /// operations with `MethodNotAllowed`.
    pub fn dispatch<'a>(&'a self, path: &String, op: Operation, id: &'a str, body: &'a str) -> (r:
        Result<ApiResponse<'a>, ApiError>)
        requires
            self.wf(),
        ensures
            !has_path(self.mounts@, path@) ==> r == Err::<ApiResponse<'a>, ApiError>(
                ApiError::NotFound,
            ),
            forall|i: int|
                0 <= i < self.mounts@.len() && (#[trigger] self.mounts@[i].0)@ == path@
                    ==> get_response(self.mounts@[i].1, op, id@, body@, r),
    {
        let n = self.mounts.len();
        let mut i: usize = 0;
        while i < n
            invariant
                i <= n,
                n == self.mounts@.len(),
                self.wf(),
                forall|j: int| 0 <= j < i ==> (#[trigger] self.mounts@[j].0)@ != path@,
            decreases n - i,
        {
            let m = &self.mounts[i];
            if m.0 == *path {
                let r: Result<ApiResponse<'a>, ApiError> = match &m.1 {
                    Endpoint::Chain(a) => {
                        if !matches!(op, Operation::Get) {
                            Err(ApiError::MethodNotAllowed)
                        } else {
                            match a.get(id) {
                                Ok(t) => Ok(ApiResponse::Tip(t)),
                                Err(e) => Err(e),
                            }
                        }
                    },
                    Endpoint::Output(a) => {
                        if !matches!(op, Operation::Get) {
                            Err(ApiError::MethodNotAllowed)
                        } else {
                            match a.get(id) {
                                Ok(o) => Ok(ApiResponse::Output(o)),
                                Err(e) => Err(e),
                            }
                        }
                    },
                    Endpoint::WalletReceive(w) => {
                        if !matches!(op, Operation::Create) {
                            Err(ApiError::MethodNotAllowed)
                        } else {
                            match w.create(body) {
                                Ok(cb) => Ok(ApiResponse::Coinbase(cb)),
                                Err(e) => Err(e),
                            }
                        }
                    },
                };
                proof {
                    assert(get_response(self.mounts@[i as int].1, op, id@, body@, r));
                    assert forall|k: int|
                        0 <= k < self.mounts@.len() && (#[trigger] self.mounts@[k].0)@ == path@
                            implies get_response(self.mounts@[k].1, op, id@, body@, r) by {
                        if k < i as int {
                            assert(false);
                        } else if k > i as int {
                            assert(self.mounts@[i as int].0@ != self.mounts@[k].0@);
                            assert(false);
                        }
                    }
                }
                return r;
            }
            i = i + 1;
        }
        Err(ApiError::NotFound)
    }
}

/// Relies on std's `Arc::clone`: the clone shares the same allocation, so
/// it holds the same store value as the original.
#[verifier::external_body]
fn arc_clone_store(a: &Arc<ChainStore>) -> (r: Arc<ChainStore>)
    ensures
        r == *a,
{
    Arc::clone(a)
}

/// Mount the node's read endpoints on a server rooted at `/v1`: the chain
/// tip under `/chain` and chain outputs under `/chain/output`, both reading
/// the given store. The two paths differ, so both registrations succeed.
pub fn build_node_apis(chain_store: Arc<ChainStore>) -> (s: ApiServer)
    ensures
        s.wf(),
        s.base_path@ == "/v1"@,
        s.mounts@.len() == 2,
        s.mounts@[0].0@ == "/chain"@,
        s.mounts@[0].1 matches Endpoint::Chain(a) && a.chain_store == chain_store,
        s.mounts@[1].0@ == "/chain/output"@,
        s.mounts@[1].1 matches Endpoint::Output(a) && a.chain_store == chain_store,
{
    proof {
        reveal_strlit("/chain");
        reveal_strlit("/chain/output");
        assert("/chain"@.len() == 6);
        assert("/chain/output"@.len() == 13);
    }
    let mut apis = ApiServer::new("/v1".to_owned());
    let r1 = apis.register_endpoint(
        "/chain".to_owned(),
        Endpoint::Chain(ChainApi { chain_store: arc_clone_store(&chain_store) }),
    );
    let r2 = apis.register_endpoint(
        "/chain/output".to_owned(),
        Endpoint::Output(OutputApi { chain_store }),
    );
    proof {
        assert(r1 is Ok);
        assert(r2 is Ok);
    }
    apis
}

/// Mount the wallet's receiving endpoint on a server rooted at `/v1`: the
/// coinbase receiver under `/receive_coinbase`, holding the derived key.
pub fn build_wallet_apis(key: ExtendedKey) -> (s: ApiServer)
    ensures
        s.wf(),
        s.base_path@ == "/v1"@,
        s.mounts@.len() == 1,
        s.mounts@[0].0@ == "/receive_coinbase"@,
        s.mounts@[0].1 matches Endpoint::WalletReceive(w) && w.key == key,
{
    let mut apis = ApiServer::new("/v1".to_owned());
    let r1 = apis.register_endpoint(
        "/receive_coinbase".to_owned(),
        Endpoint::WalletReceive(WalletReceiver { key }),
    );
    proof {
        assert(r1 is Ok);
    }
    apis
}

} // verus!
