//! The life of the listener that serves all instances: where it binds, which
//! address it reports, and what stopping, waiting and dropping it come to.
//!
//! The listener itself runs outside this module. Here stand the decisions:
//! each operation says what is to be done to the serving task, and keeps
//! track of whether the task is still there to be stopped.

use vstd::prelude::*;

verus! {

/// An IP address.
#[derive(Debug, Clone, Copy, PartialEq, Eq)]
pub enum IpAddress {
    V4([u8; 4]),
    V6([u16; 8]),
}

/// An IP address with a port.
#[derive(Debug, Clone, Copy, PartialEq, Eq)]
pub struct SocketAddress {
    pub ip: IpAddress,
    pub port: u16,
}

/// Where the server is to listen: on a socket that is bound already, known
/// here by its local address, or on an address that is still to be bound.
#[derive(Debug, Clone, Copy, PartialEq, Eq)]
pub enum ListenerOrAddress {
    Listener(SocketAddress),
    Address(SocketAddress),
}

/// How the listening socket comes about.
#[derive(Debug, Clone, Copy, PartialEq, Eq)]
pub enum Binding {
    /// A socket is to be bound to the address. Where the address leaves the
    /// port open, the socket's own address is known only once it is bound.
    Bind(SocketAddress),
    /// The socket that was handed in is used; it is bound to the address.
    FromListener(SocketAddress),
}

/// What is to be done to the serving task.
#[derive(Debug, Clone, Copy, PartialEq, Eq, Structural)]
pub enum ServerAction {
    /// Tell the listener to shut down gracefully, then wait for the task.
    ShutdownAndJoin,
    /// Wait for the task to end by itself.
    Join,
    /// Tell the listener to shut down, and abort the task without waiting.
    ShutdownAndAbort,
    /// Nothing: the task was stopped or waited for before.
    Nothing,
}

/// The port that the server listens on where it is given no address.
pub const DEFAULT_PORT: u16 = 1266;

/// The address that the server listens on where it is given none: port 1266
/// on every interface.
pub open spec fn default_address() -> SocketAddress {
    SocketAddress { ip: IpAddress::V4([0u8, 0u8, 0u8, 0u8]), port: 1266 }
}

/// How the listening socket comes about for a given choice.
pub open spec fn spec_binding(choice: Option<ListenerOrAddress>) -> Binding {
    match choice {
        Some(ListenerOrAddress::Address(address)) => Binding::Bind(address),
        Some(ListenerOrAddress::Listener(address)) => Binding::FromListener(address),
        None => Binding::Bind(default_address()),
    }
}

/// What stopping comes to, for a task that is or is not there any more.
pub open spec fn stop_action(running: bool) -> ServerAction {
    if running {
        ServerAction::ShutdownAndJoin
    } else {
        ServerAction::Nothing
    }
}

/// What waiting comes to.
pub open spec fn wait_action(running: bool) -> ServerAction {
    if running {
        ServerAction::Join
    } else {
        ServerAction::Nothing
    }
}

/// What dropping the server comes to. `finished` says whether the task has
/// ended by itself.
pub open spec fn teardown_action(running: bool, finished: bool) -> ServerAction {
    if running && !finished {
        ServerAction::ShutdownAndAbort
    } else {
        ServerAction::Nothing
    }
}

impl ListenerOrAddress {
    /// The address that the choice stands for.
    pub fn address(&self) -> (address: SocketAddress)
        ensures
            address == match *self {
                ListenerOrAddress::Listener(a) => a,
                ListenerOrAddress::Address(a) => a,
            },
    {
        match self {
            ListenerOrAddress::Listener(l) => *l,
            ListenerOrAddress::Address(a) => *a,
        }
    }
}

/// The address that the server reports as its own. `bound` is the local
/// address of the listening socket, as it is once the socket is bound, and
/// `None` where no socket could be bound. A bound socket decides: then the
/// port is the one that the system gave, also where port 0 was asked for.
/// Without one, the address of the binding is all there is to report.
pub open spec fn reported_address(binding: Binding, bound: Option<SocketAddress>) -> SocketAddress {
    match bound {
        Some(address) => address,
        None => binding.spec_address(),
    }
}

impl Binding {
    /// The address that the binding names: the one that a socket is to be
    /// bound to, or the one that the socket handed in is bound to.
    pub open spec fn spec_address(self) -> SocketAddress {
        match self {
            Binding::Bind(a) => a,
            Binding::FromListener(a) => a,
        }
    }

    /// The address that the binding names.
    pub fn address(&self) -> (address: SocketAddress)
        ensures
            address == self.spec_address(),
    {
        match self {
            Binding::Bind(a) => *a,
            Binding::FromListener(a) => *a,
        }
    }
}

/// Decides where the server listens.
pub fn binding(listener_or_address: Option<ListenerOrAddress>) -> (binding: Binding)
    ensures
        binding == spec_binding(listener_or_address),
{
    match listener_or_address {
        Some(ListenerOrAddress::Address(addr)) => Binding::Bind(addr),
        Some(ListenerOrAddress::Listener(addr)) => Binding::FromListener(addr),
        None => Binding::Bind(
            SocketAddress { ip: IpAddress::V4([0u8, 0u8, 0u8, 0u8]), port: DEFAULT_PORT },
        ),
    }
}

/// The server as its owner sees it: the address it listens on, and whether
/// its serving task is still to be stopped or waited for.
#[derive(Debug)]
pub struct CombinedServer {
    running: bool,
    address: SocketAddress,
}

impl CombinedServer {
    /// Whether the serving task is still to be stopped or waited for.
    pub closed spec fn is_running(&self) -> bool {
        self.running
    }

    /// The address that the server listens on.
    pub closed spec fn listening_on(&self) -> SocketAddress {
        self.address
    }

    /// The address that the server listens on.
    pub fn address(&self) -> (address: SocketAddress)
        ensures
            address == self.listening_on(),
    {
        self.address
    }

    /// Starts the server's life: the task is running, and the server
    /// reports the address that its socket is bound to. `bound` is the local
    /// address of the socket that `binding` asked for, read after binding;
    /// `None` where binding failed.
    pub fn run(binding: Binding, bound: Option<SocketAddress>) -> (started: CombinedServer)
        ensures
            started.is_running(),
            started.listening_on() == reported_address(binding, bound),
    {
        let address = match bound {
            Some(address) => address,
            None => binding.address(),
        };
        CombinedServer { running: true, address }
    }

    /// Stops the server. The first call shuts the listener down and waits
    /// for the task; any later call finds nothing left to do.
    pub fn stop(&mut self) -> (action: ServerAction)
        ensures
            action == stop_action(old(self).is_running()),
            !final(self).is_running(),
            final(self).listening_on() == old(self).listening_on(),
    {
        if self.running {
            self.running = false;
            ServerAction::ShutdownAndJoin
        } else {
            ServerAction::Nothing
        }
    }

    /// Waits for the server to end by itself. After a stop, or a second
    /// time, there is nothing to wait for.
    pub fn wait(&mut self) -> (action: ServerAction)
        ensures
            action == wait_action(old(self).is_running()),
            !final(self).is_running(),
            final(self).listening_on() == old(self).listening_on(),
    {
        if self.running {
            self.running = false;
            ServerAction::Join
        } else {
            ServerAction::Nothing
        }
    }

    /// What is to be done when the server is dropped. A task that still
    /// runs is shut down and aborted, so that dropping never waits; a task
    /// that has ended, or was stopped or waited for, is left alone.
    pub fn teardown(&mut self, finished: bool) -> (action: ServerAction)
        ensures
            action == teardown_action(old(self).is_running(), finished),
            !final(self).is_running(),
            final(self).listening_on() == old(self).listening_on(),
    {
        let running = self.running;
        self.running = false;
        if running && !finished {
            ServerAction::ShutdownAndAbort
        } else {
            ServerAction::Nothing
        }
    }
}

/// Stopping is idempotent: once the server was stopped, waited for or
/// dropped, its task is no longer running, and stopping, waiting and
/// dropping all find nothing left to do.
pub proof fn lemma_shutdown_is_idempotent(finished: bool)
    ensures
        stop_action(false) == ServerAction::Nothing,
        wait_action(false) == ServerAction::Nothing,
        teardown_action(false, finished) == ServerAction::Nothing,
{
}

} // verus!
