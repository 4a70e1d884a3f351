use vstd::prelude::*;

verus! {

/// The two ticket servers that hand out URL numbers.
#[derive(Debug, Clone, Copy, PartialEq, Eq, Structural)]
pub enum TicketServer {
    Ts1,
    Ts2,
}

/// The server that a counter value selects: `Ts1` for even values, `Ts2` for odd ones.
pub open spec fn ticket_server_for(counter: nat) -> TicketServer {
    if counter % 2 == 0 {
        TicketServer::Ts1
    } else {
        TicketServer::Ts2
    }
}

/// The counter that spreads URL creation over the ticket servers. It runs through 0..6.
pub struct SharedState {
    counter: u32,
}

impl View for SharedState {
    type V = nat;

    closed spec fn view(&self) -> nat {
        self.counter as nat
    }
}

impl SharedState {
    #[verifier::type_invariant]
    spec fn counter_in_range(self) -> bool {
        self.counter < 6
    }

    /// A fresh counter, starting at 1.
    pub fn new() -> (res: SharedState)
        ensures
            res@ == 1,
    {
        SharedState { counter: 1 }
    }

    /// The current counter value, always below 6.
    pub fn counter(&self) -> (res: u32)
        ensures
            res == self@,
            res < 6,
    {
        proof {
            use_type_invariant(self);
        }
        self.counter
    }

    /// Picks the ticket server for the next URL and advances the counter modulo 6.
    pub fn next_ticket_server(&mut self) -> (server: TicketServer)
        ensures
            server == ticket_server_for(old(self)@),
            final(self)@ == (old(self)@ + 1) % 6,
            final(self)@ < 6,
    {
        proof {
            use_type_invariant(&*self);
        }
        let server_number = self.counter;
        self.counter = (self.counter + 1) % 6;
        if server_number % 2 == 0 {
            TicketServer::Ts1
        } else {
            TicketServer::Ts2
        }
    }
}

/// Two URLs created one after the other draw their tickets from different servers.
pub proof fn lemma_ticket_servers_alternate(counter: nat)
    requires
        counter < 6,
    ensures
        ticket_server_for(counter) != ticket_server_for((counter + 1) % 6),
{
}

} // verus!
