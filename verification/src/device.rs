//! The devices: each holds its transport and what its session needs, and
//! makes the interpreter for a command.

use crate::coldcard::encrypt::{spec_ready, Engine};
use crate::coldcard::ColdcardState;
use crate::common::{
    ColdcardInterpreter, Error, ErrorView, JadeInterpreter, LedgerInterpreter, Response,
};
use crate::jade::{id_after, JadeState, JadeView};
use crate::ledger::LedgerState;
use crate::network::Network;
use crate::runner::OnUnlock;
use vstd::prelude::*;

verus! {

/// The HTTP client of a device that asks no server.
#[derive(Debug)]
pub struct DummyClient;

/// A Ledger on a transport.
pub struct Ledger<T> {
    pub transport: T,
}

impl<T> Ledger<T> {
    pub fn new(transport: T) -> (d: Ledger<T>)
        ensures
            d.transport == transport,
    {
        Ledger { transport }
    }

    /// The interpreter for the next command.
    pub fn interpreter(&self) -> (i: LedgerInterpreter)
        ensures
            i.state() == LedgerState::New,
            !i.has_store(),
    {
        LedgerInterpreter::new()
    }

    /// What the loop that runs a command works with: the transport and
    /// the interpreter.
    pub fn components(&mut self) -> (r: (&mut T, LedgerInterpreter))
        ensures
            *r.0 == old(self).transport,
            final(self).transport == *final(r.0),
            r.1.state() == LedgerState::New,
            !r.1.has_store(),
    {
        (&mut self.transport, LedgerInterpreter::new())
    }
}

impl<T> OnUnlock for Ledger<T> {
    /// Unlocking changes nothing about a Ledger.
    fn on_unlock(&mut self, response: Response) -> (r: Result<(), Error>)
        ensures
            r is Ok,
            final(self).transport == old(self).transport,
    {
        Ok(())
    }
}

/// A Coldcard on a transport, with the encryption engine of its session.
pub struct Coldcard<T> {
    pub transport: T,
    encryption: Engine,
}

impl<T> Coldcard<T> {
    /// The engine of the session.
    pub closed spec fn engine(&self) -> Engine {
        self.encryption
    }

    /// The transport, as a value.
    pub closed spec fn spec_transport(&self) -> T {
        self.transport
    }

    /// A Coldcard whose session has this secret key.
    pub fn new(transport: T, secret_key: [u8; 32]) -> (d: Coldcard<T>)
        ensures
            d.spec_transport() == transport,
            d.engine() == Engine::New(secret_key),
    {
        Coldcard { transport, encryption: Engine::new(secret_key) }
    }

    /// The interpreter for the next command. It works on the session's
    /// engine.
    pub fn interpreter(&mut self) -> (i: ColdcardInterpreter<'_>)
        ensures
            i.state() == ColdcardState::New,
            i.engine() == old(self).engine(),
            final(self).spec_transport() == old(self).spec_transport(),
    {
        ColdcardInterpreter::new(&mut self.encryption)
    }

    /// What the loop that runs a command works with: the transport and
    /// the interpreter, which works on the session's engine.
    pub fn components(&mut self) -> (r: (&mut T, ColdcardInterpreter<'_>))
        ensures
            *r.0 == old(self).spec_transport(),
            final(self).spec_transport() == *final(r.0),
            r.1.state() == ColdcardState::New,
            r.1.engine() == old(self).engine(),
    {
        (&mut self.transport, ColdcardInterpreter::new(&mut self.encryption))
    }
}

impl<T> OnUnlock for Coldcard<T> {
    /// Makes the session's engine ready with the key that unlocking gave.
    /// Another response changes nothing.
    fn on_unlock(&mut self, response: Response) -> (r: Result<(), Error>)
        ensures
            final(self).spec_transport() == old(self).spec_transport(),
            match response {
                Response::EncryptionKey(key) => match old(self).engine() {
                    Engine::New(secret_key) => match spec_ready(secret_key@, key@) {
                        Ok(session) => r is Ok && (final(self).engine() matches Engine::Ready {
                            key: k,
                            encrypt,
                            decrypt,
                        } && k@ == session && encrypt == 0 && decrypt == 0),
                        Err(message) => r matches Err(e) && e@ == ErrorView::Encryption(message)
                            && final(self).engine() == old(self).engine(),
                    },
                    Engine::Ready { .. } => r matches Err(e) && e@ == ErrorView::Encryption(
                        "Engine is not New",
                    ) && final(self).engine() == old(self).engine(),
                },
                _ => r is Ok && final(self).engine() == old(self).engine(),
            },
    {
        if let Response::EncryptionKey(key) = response {
            match self.encryption.ready(key) {
                Ok(()) => Ok(()),
                Err(e) => Err(Error::from(e)),
            }
        } else {
            Ok(())
        }
    }
}

/// A Jade on a transport, with the client of its PIN server. The device
/// numbers its requests through all its commands.
pub struct Jade<T, S> {
    pub network: Network,
    pub transport: T,
    pub pinserver: S,
    next_request_id: u64,
}

impl<T, S> Jade<T, S> {
    /// The id of the first request of the next command.
    pub closed spec fn next_request_id(&self) -> u64 {
        self.next_request_id
    }

    /// The network, the transport and the PIN server's client, as values.
    pub closed spec fn parts(&self) -> (Network, T, S) {
        (self.network, self.transport, self.pinserver)
    }

    /// A Jade whose first request has the id 1.
    pub fn new(network: Network, transport: T, pinserver: S) -> (d: Jade<T, S>)
        ensures
            d.parts() == (network, transport, pinserver),
            d.next_request_id() == 1,
    {
        Jade { network, transport, pinserver, next_request_id: 1 }
    }

    /// The interpreter for the next command. A command makes two requests
    /// at most: their ids are taken.
    pub fn interpreter(&mut self) -> (i: JadeInterpreter)
        ensures
            i@ == (JadeView {
                mainnet: old(self).parts().0.is_mainnet(),
                state: JadeState::New,
                response: None,
                next_id: old(self).next_request_id(),
            }),
            final(self).next_request_id() == id_after(id_after(old(self).next_request_id())),
            final(self).parts() == old(self).parts(),
    {
        let id = self.next_request_id;
        let second = if id == u64::MAX {
            0
        } else {
            id + 1
        };
        self.next_request_id = if second == u64::MAX {
            0
        } else {
            second + 1
        };
        JadeInterpreter::new().with_network(self.network).with_request_id(id)
    }

    /// What the loop that runs a command works with: the transport, the
    /// PIN server's client and the interpreter. The ids of two requests are
    /// taken, as by `interpreter`.
    pub fn components(&mut self) -> (r: (&mut T, &S, JadeInterpreter))
        ensures
            *r.0 == old(self).parts().1,
            *r.1 == old(self).parts().2,
            final(self).parts() == (old(self).parts().0, *final(r.0), old(self).parts().2),
            final(self).next_request_id() == id_after(id_after(old(self).next_request_id())),
            r.2@ == (JadeView {
                mainnet: old(self).parts().0.is_mainnet(),
                state: JadeState::New,
                response: None,
                next_id: old(self).next_request_id(),
            }),
    {
        let id = self.next_request_id;
        let second = if id == u64::MAX {
            0
        } else {
            id + 1
        };
        self.next_request_id = if second == u64::MAX {
            0
        } else {
            second + 1
        };
        let interpreter = JadeInterpreter::new().with_network(self.network).with_request_id(id);
        (&mut self.transport, &self.pinserver, interpreter)
    }
}

impl<T, S> OnUnlock for Jade<T, S> {
    /// Unlocking changes nothing about a Jade.
    fn on_unlock(&mut self, response: Response) -> (r: Result<(), Error>)
        ensures
            r is Ok,
            final(self).next_request_id() == old(self).next_request_id(),
            final(self).parts() == old(self).parts(),
    {
        Ok(())
    }
}

} // verus!
