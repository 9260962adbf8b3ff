use vstd::prelude::*;

use crate::split::{split_by, split_spec, lemma_split_nonempty};

verus! {

/// Why a list of servers and a list of secrets cannot be paired up.
#[derive(Debug, Clone, Copy, PartialEq, Eq, Structural)]
pub enum EndpointError {
    /// There is more than one secret, and not one per server.
    SecretCountMismatch,
}

pub open spec fn secret_count_message_spec() -> Seq<char> {
    "The number of secrets must be 1 or equal to the number of servers."@
}

impl EndpointError {
    /// The text that reports this error to the caller.
    pub fn message(&self) -> (res: String)
        ensures
            res@ == secret_count_message_spec(),
    {
        "The number of secrets must be 1 or equal to the number of servers.".to_owned()
    }
}

/// The servers to connect to, in turn, and the secret that goes with each.
pub struct Endpoints {
    servers: Vec<String>,
    secrets: Vec<String>,
}

pub struct EndpointsView {
    pub servers: Seq<Seq<char>>,
    pub secrets: Seq<Seq<char>>,
}

impl View for Endpoints {
    type V = EndpointsView;

    closed spec fn view(&self) -> EndpointsView {
        EndpointsView {
            servers: self.servers@.map_values(|s: String| s@),
            secrets: self.secrets@.map_values(|s: String| s@),
        }
    }
}

/// A secret list fits a server list when it is a single shared secret or has one
/// secret per server.
pub open spec fn counts_fit(servers: nat, secrets: nat) -> bool {
    secrets == 1 || secrets == servers
}

impl EndpointsView {
    pub open spec fn wf(self) -> bool {
        &&& self.servers.len() >= 1
        &&& counts_fit(self.servers.len(), self.secrets.len())
    }

    /// The server that the connection attempt with this index goes to.
    pub open spec fn server_at(self, index: int) -> Seq<char> {
        self.servers[index % (self.servers.len() as int)]
    }

    /// The secret that the connection attempt with this index presents.
    pub open spec fn secret_at(self, index: int) -> Seq<char> {
        if self.secrets.len() == 1 {
            self.secrets[0]
        } else {
            self.secrets[index % (self.secrets.len() as int)]
        }
    }
}

/// The list that a comma-separated text describes.
pub open spec fn comma_list(s: Seq<char>) -> Seq<Seq<char>> {
    split_spec(s, ',')
}

/// Connection attempts cycle through the servers: the attempt `n` places later
/// (for `n` servers) goes to the same server with the same secret.
pub proof fn lemma_rotation_period(e: EndpointsView, index: int)
    requires
        e.wf(),
        index >= 0,
    ensures
        e.server_at(index + e.servers.len()) == e.server_at(index),
        e.secret_at(index + e.servers.len()) == e.secret_at(index),
{
    let n: int = e.servers.len() as int;
    vstd::arithmetic::div_mod::lemma_mod_add_multiples_vanish(index, n);
    assert(index + n == n + index);
}

/// The first round of attempts visits the servers in the order they were listed.
pub proof fn lemma_rotation_first_round(e: EndpointsView, index: int)
    requires
        e.wf(),
        0 <= index < e.servers.len(),
    ensures
        e.server_at(index) == e.servers[index],
{
    vstd::arithmetic::div_mod::lemma_small_mod(index as nat, e.servers.len());
}

/// With one secret per server, the first round pairs each server with the secret
/// listed in the same place; with one secret only, every attempt presents it.
pub proof fn lemma_secret_pairing(e: EndpointsView, index: int)
    requires
        e.wf(),
        0 <= index,
    ensures
        e.secrets.len() == e.servers.len() && index < e.servers.len() ==> e.secret_at(index)
            == e.secrets[index] && e.server_at(index) == e.servers[index],
        e.secrets.len() == 1 ==> e.secret_at(index) == e.secrets[0],
{
    if index < e.servers.len() {
        vstd::arithmetic::div_mod::lemma_small_mod(index as nat, e.servers.len());
    }
}

/// The two lists are accepted exactly when there is a single secret, or as many
/// secrets as servers; any other count is refused.
pub proof fn lemma_accepted_counts(servers: nat, secrets: nat)
    ensures
        counts_fit(servers, secrets) <==> (secrets == 1 || secrets == servers),
        secrets != 1 && secrets != servers ==> !counts_fit(servers, secrets),
{
}

impl Endpoints {
    #[verifier::type_invariant]
    spec fn inv(self) -> bool {
        self@.wf()
    }

    /// Reads the comma-separated server list `d_addr` and secret list `auth`.
    /// They are accepted when there is one secret for all servers or one per server.
    pub fn parse(d_addr: &str, auth: &str) -> (res: Result<Endpoints, EndpointError>)
        ensures
            res is Ok <==> counts_fit(comma_list(d_addr@).len(), comma_list(auth@).len()),
            res is Ok <==> (comma_list(auth@).len() == 1 || comma_list(auth@).len() == comma_list(
                d_addr@,
            ).len()),
            res matches Ok(e) ==> e@.servers == comma_list(d_addr@) && e@.secrets == comma_list(
                auth@,
            ),
    {
        let servers = split_by(d_addr, ',');
        let secrets = split_by(auth, ',');
        proof {
            lemma_split_nonempty(d_addr@, ',');
            assert(servers@.map_values(|s: String| s@) =~= comma_list(d_addr@));
            assert(secrets@.map_values(|s: String| s@) =~= comma_list(auth@));
        }
        if secrets.len() != 1 && secrets.len() != servers.len() {
            return Err(EndpointError::SecretCountMismatch);
        }
        Ok(Endpoints { servers, secrets })
    }

    pub fn server_count(&self) -> (res: usize)
        ensures
            res == self@.servers.len(),
            res >= 1,
    {
        proof { use_type_invariant(self); }
        self.servers.len()
    }

    pub fn secret_count(&self) -> (res: usize)
        ensures
            res == self@.secrets.len(),
    {
        self.secrets.len()
    }

    /// The server and secret of the connection attempt with this index: servers are
    /// taken in turn, and so are secrets, unless a single secret serves them all.
    pub fn target(&self, index: usize) -> (res: (String, String))
        ensures
            res.0@ == self@.server_at(index as int),
            res.1@ == self@.secret_at(index as int),
    {
        proof { use_type_invariant(self); }
        let server = self.servers[index % self.servers.len()].clone();
        let secret = if self.secrets.len() == 1 {
            self.secrets[0].clone()
        } else {
            self.secrets[index % self.secrets.len()].clone()
        };
        (server, secret)
    }
}

} // verus!
