//! The plain-RPC submitter itself.

use crate::kinds::SwqosType;
use solana_rpc_client::nonblocking::rpc_client::RpcClient;
use std::sync::Arc;
use vstd::prelude::*;

verus! {

/// Trusted: the asynchronous RPC client of `solana_rpc_client`, as an opaque
/// type. The library only carries a handle to it; nothing is claimed of what
/// it holds or does.
#[verifier::external_type_specification]
#[verifier::external_body]
pub struct ExRpcClient(RpcClient);

/// A submitter that sends transactions to one RPC endpoint. It shares the
/// handle of the endpoint's client with whoever else holds it.
#[derive(Clone)]
pub struct SolRpcClient {
    pub rpc_client: Arc<RpcClient>,
}

impl SolRpcClient {
    /// A submitter over `rpc_client`.
    pub fn new(rpc_client: Arc<RpcClient>) -> (client: Self)
        ensures
            client.rpc_client == rpc_client,
    {
        Self { rpc_client }
    }

    /// The account that tips for this provider go to. Plain RPC has none:
    /// the answer is always the empty string.
    pub fn get_tip_account<E>(&self) -> (account: Result<String, E>)
        ensures
            account matches Ok(name) && name@ == Seq::<char>::empty(),
    {
        Ok(String::new())
    }

    /// The provider strategy of this submitter: always plain RPC.
    pub fn get_swqos_type(&self) -> (kind: SwqosType)
        ensures
            kind == SwqosType::Default,
    {
        SwqosType::Default
    }
}

} // verus!
