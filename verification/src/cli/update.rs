//! The `update` subcommand.

use vstd::prelude::*;

use crate::docker_compose::Service;

verus! {

/// Update the tools Docker images.
#[derive(Debug)]
pub struct Update {
    /// The service list to pull.
    pub services: Vec<Service>,
}

impl Default for Update {
    /// By default, the images of the tools: the devtool, Postgres and MongoDB.
    fn default() -> (r: Self)
        ensures
            r.services@ == seq![Service::Devtool, Service::Postgres, Service::Mongo],
    {
        Update { services: vec![Service::Devtool, Service::Postgres, Service::Mongo] }
    }
}

} // verus!
