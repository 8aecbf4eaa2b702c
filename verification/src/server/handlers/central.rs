//! The ZeroTier Central endpoints: each checks the IDs in its path and then
//! makes one request with the active token's client.
use crate::server::error::ApiError;
use crate::server::handlers::local::checked;
use crate::server::validate::{both, network_id, network_id_result, node_id, node_id_result};
use crate::zerotier::central::client::ZtCentralClient;
use crate::zerotier::{reading, status_only, ApiRequest, HttpMethod};
use vstd::prelude::*;

verus! {

/// One network.
pub fn get_network(c: &ZtCentralClient, id: &str) -> (r: Result<ApiRequest, ApiError>)
    ensures
        checked(r, network_id_result(id@), reading(HttpMethod::Get, c.base_url@ + "/network/"@ + id@)),
{
    network_id(id)?;
    Ok(c.network(id))
}

/// Changing a network.
pub fn update_network(c: &ZtCentralClient, id: &str) -> (r: Result<ApiRequest, ApiError>)
    ensures
        checked(r, network_id_result(id@), reading(HttpMethod::Post, c.base_url@ + "/network/"@ + id@)),
{
    network_id(id)?;
    Ok(c.update_network(id))
}

/// Deleting a network.
pub fn delete_network(c: &ZtCentralClient, id: &str) -> (r: Result<ApiRequest, ApiError>)
    ensures
        checked(r, network_id_result(id@), status_only(HttpMethod::Delete, c.base_url@ + "/network/"@ + id@)),
{
    network_id(id)?;
    Ok(c.delete_network(id))
}

/// The members of a network.
pub fn list_members(c: &ZtCentralClient, net: &str) -> (r: Result<ApiRequest, ApiError>)
    ensures
        checked(r, network_id_result(net@), reading(HttpMethod::Get, c.base_url@ + "/network/"@ + net@ + "/member"@)),
{
    network_id(net)?;
    Ok(c.network_members(net))
}

/// One member of a network.
pub fn get_member(c: &ZtCentralClient, net: &str, node: &str) -> (r: Result<ApiRequest, ApiError>)
    ensures
        checked(
            r,
            both(network_id_result(net@), node_id_result(node@)),
            reading(HttpMethod::Get, c.base_url@ + "/network/"@ + net@ + "/member/"@ + node@),
        ),
{
    network_id(net)?;
    node_id(node)?;
    Ok(c.network_member(net, node))
}

/// Changing a member of a network.
pub fn update_member(c: &ZtCentralClient, net: &str, node: &str) -> (r: Result<ApiRequest, ApiError>)
    ensures
        checked(
            r,
            both(network_id_result(net@), node_id_result(node@)),
            reading(HttpMethod::Put, c.base_url@ + "/network/"@ + net@ + "/member/"@ + node@),
        ),
{
    network_id(net)?;
    node_id(node)?;
    Ok(c.update_member(net, node))
}

/// Deleting a member of a network.
pub fn delete_member(c: &ZtCentralClient, net: &str, node: &str) -> (r: Result<ApiRequest, ApiError>)
    ensures
        checked(
            r,
            both(network_id_result(net@), node_id_result(node@)),
            status_only(HttpMethod::Delete, c.base_url@ + "/network/"@ + net@ + "/member/"@ + node@),
        ),
{
    network_id(net)?;
    node_id(node)?;
    Ok(c.delete_member(net, node))
}

} // verus!
