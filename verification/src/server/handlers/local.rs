//! The local-service endpoints: each checks the IDs in its path and then
//! makes one request of the local service.
use crate::server::error::ApiError;
use crate::server::validate::{both, invalid, network_id, network_id_result, node_id, node_id_result, world_id, world_id_result};
use crate::zerotier::local::client::ZtLocalClient;
use crate::zerotier::{reading, status_only, ApiRequest, ApiRequestView, HttpMethod};
use vstd::prelude::*;

verus! {

/// `r` is the request `req` when `check` passes, else the check's error.
pub open spec fn checked(r: Result<ApiRequest, ApiError>, check: Result<(), Seq<char>>, req: ApiRequestView) -> bool {
    match check {
        Ok(()) => r matches Ok(q) && q@ == req,
        Err(m) => invalid(r, m),
    }
}

/// One joined network.
pub fn get_network(c: &ZtLocalClient, id: &str) -> (r: Result<ApiRequest, ApiError>)
    ensures
        checked(r, network_id_result(id@), reading(HttpMethod::Get, c.base_url@ + "/network/"@ + id@)),
{
    network_id(id)?;
    Ok(c.network(id))
}

/// Joining a network.
pub fn join_network(c: &ZtLocalClient, id: &str) -> (r: Result<ApiRequest, ApiError>)
    ensures
        checked(r, network_id_result(id@), reading(HttpMethod::Post, c.base_url@ + "/network/"@ + id@)),
{
    network_id(id)?;
    Ok(c.join_network(id))
}

/// Leaving a network.
pub fn leave_network(c: &ZtLocalClient, id: &str) -> (r: Result<ApiRequest, ApiError>)
    ensures
        checked(r, network_id_result(id@), reading(HttpMethod::Delete, c.base_url@ + "/network/"@ + id@)),
{
    network_id(id)?;
    Ok(c.leave_network(id))
}

/// One peer.
pub fn get_peer(c: &ZtLocalClient, node: &str) -> (r: Result<ApiRequest, ApiError>)
    ensures
        checked(r, node_id_result(node@), reading(HttpMethod::Get, c.base_url@ + "/peer/"@ + node@)),
{
    node_id(node)?;
    Ok(c.peer(node))
}

/// One network of the controller.
pub fn get_controller_network(c: &ZtLocalClient, id: &str) -> (r: Result<ApiRequest, ApiError>)
    ensures
        checked(r, network_id_result(id@), reading(HttpMethod::Get, c.base_url@ + "/controller/network/"@ + id@)),
{
    network_id(id)?;
    Ok(c.controller_network(id))
}

/// Changing a network of the controller.
pub fn update_controller_network(c: &ZtLocalClient, id: &str) -> (r: Result<ApiRequest, ApiError>)
    ensures
        checked(r, network_id_result(id@), reading(HttpMethod::Post, c.base_url@ + "/controller/network/"@ + id@)),
{
    network_id(id)?;
    Ok(c.update_controller_network(id))
}

/// Deleting a network of the controller.
pub fn delete_controller_network(c: &ZtLocalClient, id: &str) -> (r: Result<ApiRequest, ApiError>)
    ensures
        checked(
            r,
            network_id_result(id@),
            status_only(HttpMethod::Delete, c.base_url@ + "/controller/network/"@ + id@),
        ),
{
    network_id(id)?;
    Ok(c.delete_controller_network(id))
}

/// The members of a network of the controller, all in one reply.
pub fn list_members(c: &ZtLocalClient, net: &str) -> (r: Result<ApiRequest, ApiError>)
    ensures
        checked(
            r,
            network_id_result(net@),
            reading(HttpMethod::Get, c.base_url@ + "/unstable/controller/network/"@ + net@ + "/member"@),
        ),
{
    network_id(net)?;
    Ok(c.network_members_bulk(net))
}

/// One member of a network of the controller.
pub fn get_member(c: &ZtLocalClient, net: &str, node: &str) -> (r: Result<ApiRequest, ApiError>)
    ensures
        checked(
            r,
            both(network_id_result(net@), node_id_result(node@)),
            reading(HttpMethod::Get, c.base_url@ + "/controller/network/"@ + net@ + "/member/"@ + node@),
        ),
{
    network_id(net)?;
    node_id(node)?;
    Ok(c.network_member(net, node))
}

/// Changing a member of a network of the controller.
pub fn update_member(c: &ZtLocalClient, net: &str, node: &str) -> (r: Result<ApiRequest, ApiError>)
    ensures
        checked(
            r,
            both(network_id_result(net@), node_id_result(node@)),
            reading(HttpMethod::Post, c.base_url@ + "/controller/network/"@ + net@ + "/member/"@ + node@),
        ),
{
    network_id(net)?;
    node_id(node)?;
    Ok(c.update_member(net, node))
}

/// Deleting a member of a network of the controller.
pub fn delete_member(c: &ZtLocalClient, net: &str, node: &str) -> (r: Result<ApiRequest, ApiError>)
    ensures
        checked(
            r,
            both(network_id_result(net@), node_id_result(node@)),
            status_only(HttpMethod::Delete, c.base_url@ + "/controller/network/"@ + net@ + "/member/"@ + node@),
        ),
{
    network_id(net)?;
    node_id(node)?;
    Ok(c.delete_member(net, node))
}

/// Orbiting a moon.
pub fn orbit_moon(c: &ZtLocalClient, world: &str) -> (r: Result<ApiRequest, ApiError>)
    ensures
        checked(r, world_id_result(world@), reading(HttpMethod::Post, c.base_url@ + "/moon/"@ + world@)),
{
    world_id(world)?;
    Ok(c.orbit_moon(world))
}

/// Leaving a moon's orbit.
pub fn deorbit_moon(c: &ZtLocalClient, world: &str) -> (r: Result<ApiRequest, ApiError>)
    ensures
        checked(r, world_id_result(world@), status_only(HttpMethod::Delete, c.base_url@ + "/moon/"@ + world@)),
{
    world_id(world)?;
    Ok(c.deorbit_moon(world))
}

} // verus!
