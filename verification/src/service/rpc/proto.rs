//! The messages of the realm control stream, and the realm that a definition
//! stands for.

use crate::state::realm::RealmServer;
use try_from::TryFromIntError;
use vstd::prelude::*;

verus! {

/// The load that a realm reports.
#[derive(Debug, Clone, Copy, PartialEq, Eq, Structural)]
pub struct RealmStatus {
    pub clients: u32,
    pub capacity: u32,
}

/// What a realm says of itself when it registers.
#[derive(Debug, Clone, PartialEq, Eq)]
pub struct RealmDefinition {
    pub id: u32,
    pub host: String,
    pub port: u32,
    pub status: RealmStatus,
}

/// The two kinds of frame on the stream.
#[derive(Debug, Clone, PartialEq, Eq)]
pub enum RealmParamsKind {
    Definition(RealmDefinition),
    Status(RealmStatus),
}

/// A frame of the stream. Its kind may be missing.
#[derive(Debug, Clone, PartialEq, Eq)]
pub struct RealmParams {
    pub kind: Option<RealmParamsKind>,
}

/// Why a definition stands for no realm.
#[derive(Debug, Clone, Copy, PartialEq, Eq, Structural)]
pub enum DefinitionError {
    /// The identifier does not fit 16 bits.
    InvalidId,
    /// The port does not fit 16 bits.
    InvalidPort,
    /// The realm reports more clients than its capacity.
    InvalidCapacity,
}

/// `try_from::TryFromIntError`, which says that a number does not fit. It
/// is only told apart from success.
#[verifier::external_type_specification]
#[verifier::external_body]
pub struct ExTryFromIntError(TryFromIntError);

/// `try_from::TryFrom<u32>` for `u16`: the same number where it fits 16 bits,
/// an error where it does not.
#[verifier::external_body]
fn u16_try_from(n: u32) -> (result: Result<u16, TryFromIntError>)
    ensures
        result is Ok <==> n <= 0xffff,
        result matches Ok(same) ==> same == n,
{
    <u16 as try_from::TryFrom<u32>>::try_from(n)
}

impl RealmStatus {
    /// A realm never reports more clients than it has room for.
    pub open spec fn wf(self) -> bool {
        self.clients <= self.capacity
    }
}

impl RealmDefinition {
    /// Whether the definition stands for a realm.
    pub open spec fn valid(&self) -> bool {
        self.id <= 0xffff && self.port <= 0xffff && self.status.wf()
    }

    /// What is wrong with a definition that stands for no realm: the first
    /// of its identifier, its port and its load that is out of bounds.
    pub open spec fn fault(&self) -> DefinitionError {
        if self.id > 0xffff {
            DefinitionError::InvalidId
        } else if self.port > 0xffff {
            DefinitionError::InvalidPort
        } else {
            DefinitionError::InvalidCapacity
        }
    }
}

impl RealmServer {
    /// The realm that `definition` stands for.
    pub fn try_from(definition: RealmDefinition) -> (result: Result<RealmServer, DefinitionError>)
        ensures
            match result {
                Ok(realm) => {
                    &&& definition.valid()
                    &&& realm.id == definition.id
                    &&& realm.host@ == definition.host@
                    &&& realm.port == definition.port
                    &&& realm.clients == definition.status.clients
                    &&& realm.capacity == definition.status.capacity
                    &&& realm@.wf()
                },
                Err(error) => !definition.valid() && error == definition.fault(),
            },
    {
        let id = match u16_try_from(definition.id) {
            Ok(id) => id,
            Err(_) => {
                return Err(DefinitionError::InvalidId);
            },
        };
        let port = match u16_try_from(definition.port) {
            Ok(port) => port,
            Err(_) => {
                return Err(DefinitionError::InvalidPort);
            },
        };
        let server = RealmServer {
            id,
            host: definition.host,
            port,
            clients: definition.status.clients,
            capacity: definition.status.capacity,
        };
        if server.clients > server.capacity {
            return Err(DefinitionError::InvalidCapacity);
        }
        Ok(server)
    }
}

} // verus!
