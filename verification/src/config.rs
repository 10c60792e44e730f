//! The part of the configuration that the pool is built from.

use vstd::prelude::*;
use crate::error::BootstrapError;

verus! {

/// The store section of the configuration.
#[derive(Debug, PartialEq, Eq)]
pub struct Storage {
    /// The number of connections to the backend.
    pub poolsize: usize,
    /// The number of workers on each connection.
    pub concurrency: usize,
    /// The name of the store, if one is configured.
    pub store_name: Option<String>,
    /// The deadline of each request, in nanoseconds.
    pub request_timeout: u64,
}

/// The configuration of a run.
#[derive(Debug, PartialEq, Eq)]
pub struct Config {
    /// The store section, if there is one.
    pub storage: Option<Storage>,
}

/// A store section, as a mathematical value.
pub struct StorageView {
    pub poolsize: usize,
    pub concurrency: usize,
    pub store_name: Option<Seq<char>>,
    pub request_timeout: u64,
}

/// A configuration, as a mathematical value.
pub struct ConfigView {
    pub storage: Option<StorageView>,
}

impl View for Storage {
    type V = StorageView;

    open spec fn view(&self) -> StorageView {
        StorageView {
            poolsize: self.poolsize,
            concurrency: self.concurrency,
            store_name: match self.store_name {
                Some(name) => Some(name@),
                None => None,
            },
            request_timeout: self.request_timeout,
        }
    }
}

impl View for Config {
    type V = ConfigView;

    open spec fn view(&self) -> ConfigView {
        ConfigView {
            storage: match self.storage {
                Some(storage) => Some(storage@),
                None => None,
            },
        }
    }
}

impl ConfigView {
    /// What is wrong with the configuration, if anything: the first of the
    /// store section, the pool size, the concurrency, the store's name and
    /// the request timeout that is missing or not positive.
    pub open spec fn defect(self) -> Option<BootstrapError> {
        match self.storage {
            None => Some(BootstrapError::MissingStoreConfig),
            Some(storage) => if storage.poolsize == 0 {
                Some(BootstrapError::InvalidPoolsize)
            } else if storage.concurrency == 0 {
                Some(BootstrapError::InvalidConcurrency)
            } else if storage.store_name is None {
                Some(BootstrapError::MissingStoreName)
            } else if storage.store_name->0.len() == 0 {
                Some(BootstrapError::EmptyStoreName)
            } else if storage.request_timeout == 0 {
                Some(BootstrapError::InvalidRequestTimeout)
            } else {
                None
            },
        }
    }
}

} // verus!
