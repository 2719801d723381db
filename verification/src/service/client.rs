//! Clients spread over the instances of a service.

use vstd::prelude::*;

use super::config::ServiceConf;
use super::error::ServiceError;

verus! {

#[verifier::external_type_specification]
#[verifier::external_body]
pub struct ExEndpoint(tonic::transport::Endpoint);

/// Whether `tonic::transport::Channel::from_shared` accepts an address: whether it parses as a
/// URI. The outcome depends on the address alone.
pub uninterp spec fn endpoint_address_accepted(address: Seq<char>) -> bool;

/// The endpoint that `tonic::transport::Channel::from_shared` builds for an address that
/// parses: `Endpoint::from` the parsed URI, with default settings. It depends on the address
/// alone.
pub uninterp spec fn channel_endpoint(address: Seq<char>) -> tonic::transport::Endpoint;

/// `tonic::transport::Channel::from_shared`: the endpoint for the address, or the URI error
/// when the address does not parse.
#[verifier::external_body]
fn endpoint_from_address(address: String) -> (r: Result<
    tonic::transport::Endpoint,
    tonic::codegen::http::uri::InvalidUri,
>)
    ensures
        r is Ok == endpoint_address_accepted(address@),
        r matches Ok(e) ==> e == channel_endpoint(address@),
{
    tonic::transport::Channel::from_shared(address)
}

/// Clients of one service, one per instance.
#[derive(Clone, Debug)]
pub struct ShardedClient<T: Clone> {
    name: String,
    clients: Vec<T>,
}

/// Every address of the service parses.
pub open spec fn all_addresses_accepted(config: ServiceConf) -> bool {
    forall|i: int|
        0 <= i < config.instances@.len() ==> endpoint_address_accepted(
            #[trigger] config.instances@[i].address@,
        )
}

impl<T: Clone> ShardedClient<T> {
    /// The service's name.
    pub closed spec fn name_view(&self) -> Seq<char> {
        self.name@
    }

    /// The clients, in the order of the instances.
    pub closed spec fn clients_view(&self) -> Seq<T> {
        self.clients@
    }

    /// A client for every instance of the service, in order, each built by `builder` from the
    /// endpoint for the instance's address (the builder makes the channel, which needs a
    /// runtime). Fails with the URI error of the first address that does not parse, before
    /// `builder` sees it or any later address.
    pub fn try_new<F: Fn(tonic::transport::Endpoint) -> T>(config: ServiceConf, builder: F) -> (r: Result<
        Self,
        ServiceError,
    >)
        requires
            forall|e: tonic::transport::Endpoint| builder.requires((e,)),
        ensures
            r is Ok == all_addresses_accepted(config),
            r matches Ok(c) ==> c.name_view() == config.name@ && c.clients_view().len()
                == config.instances@.len() && forall|i: int|
                0 <= i < c.clients_view().len() ==> builder.ensures(
                    (channel_endpoint(config.instances@[i].address@),),
                    #[trigger] c.clients_view()[i],
                ),
            r matches Err(e) ==> e is InvalidUriError,
    {
        let name = config.name;
        let instances = config.instances;
        let mut clients: Vec<T> = Vec::new();
        let mut i: usize = 0;
        while i < instances.len()
            invariant
                i <= instances.len(),
                instances@ == config.instances@,
                clients@.len() == i,
                forall|e: tonic::transport::Endpoint| builder.requires((e,)),
                forall|k: int|
                    0 <= k < i ==> endpoint_address_accepted(#[trigger] instances@[k].address@),
                forall|k: int|
                    0 <= k < i ==> builder.ensures(
                        (channel_endpoint(instances@[k].address@),),
                        #[trigger] clients@[k],
                    ),
            decreases instances.len() - i,
        {
            let address = instances[i].address.clone();
            match endpoint_from_address(address) {
                Ok(endpoint) => {
                    let built = builder(endpoint);
                    clients.push(built);
                },
                Err(e) => {
                    return Err(ServiceError::InvalidUriError(e));
                },
            }
            i = i + 1;
        }
        Ok(Self { name, clients })
    }

    /// The client that serves `key`: the first instance's, or `MissingClient(key)` when the
    /// service has no instance.
    pub fn borrow(&self, key: &str) -> (r: Result<&T, ServiceError>)
        ensures
            match r {
                Ok(c) => self.clients_view().len() > 0 && *c == self.clients_view()[0],
                Err(e) => self.clients_view().len() == 0 && (e matches ServiceError::MissingClient(k)
                    && k@ == key@),
            },
    {
        if self.clients.len() > 0 {
            Ok(&self.clients[0])
        } else {
            Err(ServiceError::MissingClient(String::from_str(key)))
        }
    }

    /// The client that serves `key`, to use mutably: the first instance's, or
    /// `MissingClient(key)` when the service has no instance.
    pub fn borrow_mut(&mut self, key: &str) -> (r: Result<&mut T, ServiceError>)
        ensures
            match r {
                Ok(c) => old(self).clients_view().len() > 0 && *c == old(self).clients_view()[0]
                    && final(self).clients_view() == old(self).clients_view().update(0, *final(c))
                    && final(self).name_view() == old(self).name_view(),
                Err(e) => old(self).clients_view().len() == 0 && *final(self) == *old(self) && (
                e matches ServiceError::MissingClient(k) && k@ == key@),
            },
    {
        if self.clients.len() > 0 {
            Ok(&mut self.clients[0])
        } else {
            Err(ServiceError::MissingClient(String::from_str(key)))
        }
    }
}

} // verus!
