//! The configuration of the services that a deployment runs: for each
//! service a host and a port to listen on.

use crate::table::{lemma_slot_unique, Duplicate, Table};
use vstd::prelude::*;
use vstd::string::StringExecFns;

verus! {

/// Where one service listens.
#[derive(Debug)]
pub struct ServiceConfig {
    local_host: String,
    local_port: u16,
}

impl View for ServiceConfig {
    type V = (Seq<char>, u16);

    closed spec fn view(&self) -> (Seq<char>, u16) {
        (self.local_host@, self.local_port)
    }
}

impl Clone for ServiceConfig {
    fn clone(&self) -> (out: Self)
        ensures
            out == *self,
    {
        ServiceConfig { local_host: self.local_host.clone(), local_port: self.local_port }
    }
}

impl Duplicate for ServiceConfig {
    fn duplicate(&self) -> (out: Self) {
        self.clone()
    }
}

impl ServiceConfig {
    /// A service that listens on `local_host` at `local_port`.
    pub fn new(local_host: &str, local_port: u16) -> (out: Self)
        ensures
            out@ == (local_host@, local_port),
    {
        Self { local_host: String::from_str(local_host), local_port }
    }

    /// The host and the port of the service.
    pub fn get_addr(&self) -> (addr: (&str, u16))
        ensures
            addr.0@ == self@.0,
            addr.1 == self@.1,
    {
        (self.local_host.as_str(), self.local_port)
    }
}

/// The services of a deployment, by name.
#[derive(Debug)]
pub struct NuttConfig {
    service: Table<ServiceConfig>,
}

impl View for NuttConfig {
    type V = Map<Seq<char>, (Seq<char>, u16)>;

    closed spec fn view(&self) -> Map<Seq<char>, (Seq<char>, u16)> {
        self.service@.map_values(|config: ServiceConfig| config@)
    }
}

impl Clone for NuttConfig {
    fn clone(&self) -> (out: Self)
        ensures
            out@ == self@,
    {
        NuttConfig { service: self.service.duplicate() }
    }
}

impl NuttConfig {
    /// A configuration without services.
    pub fn new() -> (out: Self)
        ensures
            out@ == Map::<Seq<char>, (Seq<char>, u16)>::empty(),
    {
        let out = Self { service: Table::new() };
        proof {
            assert(out@ =~= Map::<Seq<char>, (Seq<char>, u16)>::empty());
        }
        out
    }

    /// A copy of the configuration of the service `name`, if there is one.
    pub fn get_service_config(&self, name: &str) -> (config: Option<ServiceConfig>)
        ensures
            match config {
                Some(c) => self@.contains_key(name@) && c@ == self@[name@],
                None => !self@.contains_key(name@),
            },
    {
        match self.service.get(name) {
            Some(config) => Some(config.clone()),
            None => None,
        }
    }

    /// Files `config` under `name`. A configuration that was filed under
    /// `name` before is replaced.
    pub fn set_service_config(&mut self, name: &str, config: ServiceConfig)
        ensures
            final(self)@ == old(self)@.insert(name@, config@),
    {
        self.service.insert(String::from_str(name), config);
        proof {
            assert(self@ =~= old(self)@.insert(name@, config@));
        }
    }

    /// The number of services.
    pub fn len(&self) -> (n: usize)
        ensures
            self@.dom().finite(),
            n == self@.len(),
    {
        let n = self.service.len();
        proof {
            assert(self@.dom() =~= self.service@.dom());
        }
        n
    }

    /// The name and the configuration of the service at index `i`, in the
    /// order in which the names were first filed; `None` when there are not
    /// so many services.
    pub fn service_at(&self, i: usize) -> (entry: Option<(&str, &ServiceConfig)>)
        ensures
            match entry {
                Some((name, config)) => i < self@.len() && self@.contains_key(name@) && self@[name@]
                    == config@,
                None => i >= self@.len(),
            },
    {
        let n = self.service.len();
        proof {
            assert(self@.dom() =~= self.service@.dom());
        }
        if i >= n {
            return None;
        }
        match self.service.entry_at(i) {
            Some((name, config)) => {
                proof {
                    lemma_slot_unique(self.service.pairs(), i as int);
                }
                Some((name.as_str(), config))
            },
            None => None,
        }
    }
}

} // verus!
