//! The client's state: the subscription's servers, which of them is
//! connected, and what the user interface is shown of it. WireGuard configs
//! stay here; the interface sees server metadata and status only.

use vstd::prelude::*;

verus! {

/// A server of the subscription, with its VPN config.
pub struct ServerConfig {
    pub id: String,
    pub name: String,
    pub country: String,
    pub city: String,
    pub protocol: String,
    pub config: String,
}

/// What the user interface may see of a server: everything but its config.
pub struct ServerInfo {
    pub id: String,
    pub name: String,
    pub country: String,
    pub city: String,
    pub protocol: String,
}

/// What the backend answers for a subscription.
pub struct SubscriptionPayload {
    pub expires: String,
    pub servers: Vec<ServerConfig>,
}

/// The status shown to the user interface.
pub struct AppStatus {
    pub has_subscription: bool,
    pub expires: Option<String>,
    pub servers: Vec<ServerInfo>,
    pub connected: bool,
    pub connected_server: Option<String>,
}

/// The client's state.
pub struct AppState {
    pub expires: Option<String>,
    pub servers: Vec<ServerConfig>,
    pub connected_server: Option<String>,
}

/// Mathematical model of [`AppState`].
pub struct StateModel {
    pub expires: Option<String>,
    pub servers: Seq<ServerConfig>,
    pub connected_server: Option<String>,
}

/// Mathematical model of [`AppStatus`].
pub struct StatusModel {
    pub has_subscription: bool,
    pub expires: Option<String>,
    pub servers: Seq<ServerInfo>,
    pub connected: bool,
    pub connected_server: Option<String>,
}

/// Mathematical model of [`SubscriptionPayload`].
pub struct PayloadModel {
    pub expires: String,
    pub servers: Seq<ServerConfig>,
}

impl View for AppState {
    type V = StateModel;

    open spec fn view(&self) -> StateModel {
        StateModel {
            expires: self.expires,
            servers: self.servers@,
            connected_server: self.connected_server,
        }
    }
}

impl View for AppStatus {
    type V = StatusModel;

    open spec fn view(&self) -> StatusModel {
        StatusModel {
            has_subscription: self.has_subscription,
            expires: self.expires,
            servers: self.servers@,
            connected: self.connected,
            connected_server: self.connected_server,
        }
    }
}

impl View for SubscriptionPayload {
    type V = PayloadModel;

    open spec fn view(&self) -> PayloadModel {
        PayloadModel { expires: self.expires, servers: self.servers@ }
    }
}

/// The metadata of a server, its config left out.
pub open spec fn info_of(c: ServerConfig) -> ServerInfo {
    ServerInfo { id: c.id, name: c.name, country: c.country, city: c.city, protocol: c.protocol }
}

/// The metadata of each server, in order.
pub open spec fn infos_of(servers: Seq<ServerConfig>) -> Seq<ServerInfo> {
    servers.map_values(|c: ServerConfig| info_of(c))
}

/// The state before any subscription was set.
pub open spec fn empty_state() -> StateModel {
    StateModel { expires: None, servers: Seq::empty(), connected_server: None }
}

/// The state after a subscription's payload arrived: its expiry and servers
/// replace the old ones; the connection record is kept.
pub open spec fn applied(st: StateModel, p: PayloadModel) -> StateModel {
    StateModel { expires: Some(p.expires), servers: p.servers, connected_server: st.connected_server }
}

/// The state after the tunnel to server `id` came up.
pub open spec fn connected_to(st: StateModel, id: String) -> StateModel {
    StateModel { connected_server: Some(id), ..st }
}

/// The state after the tunnel was taken down.
pub open spec fn disconnected(st: StateModel) -> StateModel {
    StateModel { connected_server: None, ..st }
}

/// The state after checking whether the tunnel is still up: a connection
/// whose tunnel died is forgotten.
pub open spec fn reconciled(st: StateModel, tunnel_up: bool) -> StateModel {
    if st.connected_server is Some && !tunnel_up {
        disconnected(st)
    } else {
        st
    }
}

/// What the user interface is shown of `st`, given whether the tunnel is up
/// and whether a subscription URL is stored.
pub open spec fn status_model(st: StateModel, tunnel_up: bool, url_stored: bool) -> StatusModel {
    StatusModel {
        has_subscription: st.expires is Some || url_stored,
        expires: st.expires,
        servers: infos_of(st.servers),
        connected: st.connected_server is Some && tunnel_up,
        connected_server: st.connected_server,
    }
}

/// `i` is the first position of a server with id `id`.
pub open spec fn is_first_match(servers: Seq<ServerConfig>, id: Seq<char>, i: int) -> bool {
    &&& 0 <= i < servers.len()
    &&& servers[i].id@ == id
    &&& forall|k: int| 0 <= k < i ==> servers[k].id@ != id
}

/// Some server has id `id`.
pub open spec fn has_server(servers: Seq<ServerConfig>, id: Seq<char>) -> bool {
    exists|i: int| 0 <= i < servers.len() && servers[i].id@ == id
}

/// The first position of a server with id `id`, if there is one.
pub open spec fn first_match(servers: Seq<ServerConfig>, id: Seq<char>) -> Option<int> {
    if exists|i: int| is_first_match(servers, id, i) {
        Some(choose|i: int| is_first_match(servers, id, i))
    } else {
        None
    }
}

/// What a request to connect to `id` comes to: the position of the server
/// to connect to, or the error the user is shown.
pub open spec fn selection(servers: Seq<ServerConfig>, id: Seq<char>) -> Result<int, Seq<char>> {
    match first_match(servers, id) {
        None => Err("unknown server"@),
        Some(i) => if servers[i].protocol@ == "wireguard"@ {
            Ok(i)
        } else {
            Err(servers[i].protocol@ + " is not supported yet"@)
        },
    }
}

/// The first match is the only one.
pub proof fn lemma_first_match_unique(servers: Seq<ServerConfig>, id: Seq<char>, i: int, j: int)
    requires
        is_first_match(servers, id, i),
        is_first_match(servers, id, j),
    ensures
        i == j,
{
    if i < j {
        assert(servers[i].id@ != id);
    } else if j < i {
        assert(servers[j].id@ != id);
    }
}

/// A server has id `id` exactly when there is a first such server.
pub proof fn lemma_first_match_exists(servers: Seq<ServerConfig>, id: Seq<char>)
    ensures
        has_server(servers, id) <==> first_match(servers, id) is Some,
        first_match(servers, id) matches Some(i) ==> is_first_match(servers, id, i),
{
    if has_server(servers, id) {
        let j = choose|j: int| 0 <= j < servers.len() && servers[j].id@ == id;
        lemma_least_match(servers, id, j);
    }
}

proof fn lemma_least_match(servers: Seq<ServerConfig>, id: Seq<char>, j: int)
    requires
        0 <= j < servers.len(),
        servers[j].id@ == id,
    ensures
        exists|i: int| is_first_match(servers, id, i),
    decreases j,
{
    if forall|k: int| 0 <= k < j ==> servers[k].id@ != id {
        assert(is_first_match(servers, id, j));
    } else {
        let k = choose|k: int| 0 <= k < j && servers[k].id@ == id;
        lemma_least_match(servers, id, k);
    }
}

/// The user interface is shown each server's metadata, one entry per server
/// in the same order, and never a config.
pub proof fn law_status_lists_servers(st: StateModel, tunnel_up: bool, url_stored: bool)
    ensures
        status_model(st, tunnel_up, url_stored).servers.len() == st.servers.len(),
        forall|i: int|
            0 <= i < st.servers.len() ==> #[trigger] status_model(st, tunnel_up, url_stored).servers[i]
                == info_of(st.servers[i]),
{
}

/// The status says "connected" only while a connection is recorded and the
/// tunnel is up.
pub proof fn law_connected_needs_tunnel(st: StateModel, tunnel_up: bool, url_stored: bool)
    ensures
        status_model(st, tunnel_up, url_stored).connected <==> (st.connected_server is Some
            && tunnel_up),
        status_model(st, tunnel_up, url_stored).connected_server == st.connected_server,
{
}

/// A tunnel found down makes the state forget the connection; a tunnel found
/// up changes nothing; checking twice is checking once.
pub proof fn law_reconcile(st: StateModel, tunnel_up: bool, url_stored: bool)
    ensures
        reconciled(st, false).connected_server is None,
        !status_model(reconciled(st, false), false, url_stored).connected,
        reconciled(st, true) == st,
        reconciled(reconciled(st, tunnel_up), tunnel_up) == reconciled(st, tunnel_up),
        reconciled(st, tunnel_up).servers == st.servers,
        reconciled(st, tunnel_up).expires == st.expires,
{
}

/// After the subscription is forgotten the user interface sees no servers,
/// no expiry and no connection, and a subscription only if a URL is still
/// stored.
pub proof fn law_forget_clears(tunnel_up: bool, url_stored: bool)
    ensures
        status_model(empty_state(), tunnel_up, url_stored).servers.len() == 0,
        status_model(empty_state(), tunnel_up, url_stored).expires is None,
        !status_model(empty_state(), tunnel_up, url_stored).connected,
        status_model(empty_state(), tunnel_up, url_stored).connected_server is None,
        status_model(empty_state(), tunnel_up, url_stored).has_subscription == url_stored,
{
}

/// After a subscription arrives the user interface sees it: a subscription,
/// its expiry and the metadata of its servers; the connection record stays.
pub proof fn law_subscription_shown(st: StateModel, p: PayloadModel, tunnel_up: bool, url_stored: bool)
    ensures
        status_model(applied(st, p), tunnel_up, url_stored).has_subscription,
        status_model(applied(st, p), tunnel_up, url_stored).expires == Some(p.expires),
        status_model(applied(st, p), tunnel_up, url_stored).servers == infos_of(p.servers),
        applied(st, p).connected_server == st.connected_server,
{
}

/// After the tunnel to `id` comes up the status names `id` and, while the
/// tunnel is up, says "connected"; after it is taken down it says neither.
pub proof fn law_connect_disconnect(st: StateModel, id: String, tunnel_up: bool, url_stored: bool)
    ensures
        status_model(connected_to(st, id), true, url_stored).connected,
        status_model(connected_to(st, id), tunnel_up, url_stored).connected_server == Some(id),
        !status_model(disconnected(connected_to(st, id)), tunnel_up, url_stored).connected,
        status_model(disconnected(st), tunnel_up, url_stored).connected_server is None,
        disconnected(connected_to(st, id)) == disconnected(st),
{
}

/// A connection is only ever made to a WireGuard server that has the
/// requested id (the first such); an id no server has is an unknown server.
pub proof fn law_selection(servers: Seq<ServerConfig>, id: Seq<char>)
    ensures
        selection(servers, id) matches Ok(i) ==> 0 <= i < servers.len() && servers[i].id@ == id
            && servers[i].protocol@ == "wireguard"@,
        !has_server(servers, id) <==> selection(servers, id) == Err::<int, Seq<char>>(
            "unknown server"@,
        ),
{
    lemma_first_match_exists(servers, id);
    if has_server(servers, id) {
        let i = first_match(servers, id)->0;
        reveal_strlit("unknown server");
        reveal_strlit(" is not supported yet");
        let p = servers[i].protocol@;
        assert((p + " is not supported yet"@).len() != "unknown server"@.len());
    }
}

fn clone_opt(s: &Option<String>) -> (r: Option<String>)
    ensures
        r == *s,
{
    match s {
        Some(x) => Some(x.clone()),
        None => None,
    }
}

/// The metadata the user interface may see of each server, in order.
pub fn to_info(servers: &[ServerConfig]) -> (r: Vec<ServerInfo>)
    ensures
        r@ == infos_of(servers@),
{
    let mut out: Vec<ServerInfo> = Vec::new();
    let mut i: usize = 0;
    while i < servers.len()
        invariant
            i <= servers@.len(),
            out@ == infos_of(servers@.take(i as int)),
        decreases servers@.len() - i,
    {
        let s = &servers[i];
        out.push(
            ServerInfo {
                id: s.id.clone(),
                name: s.name.clone(),
                country: s.country.clone(),
                city: s.city.clone(),
                protocol: s.protocol.clone(),
            },
        );
        assert(servers@.take(i + 1) =~= servers@.take(i as int).push(servers@[i as int]));
        assert(infos_of(servers@.take(i + 1)) =~= infos_of(servers@.take(i as int)).push(
            info_of(servers@[i as int]),
        ));
        i = i + 1;
    }
    assert(servers@.take(servers@.len() as int) =~= servers@);
    out
}

/// What the user interface is shown of `st`, given whether the tunnel is up
/// and whether a subscription URL is stored.
pub fn status_of(st: &AppState, tunnel_up: bool, url_stored: bool) -> (r: AppStatus)
    ensures
        r@ == status_model(st@, tunnel_up, url_stored),
{
    AppStatus {
        has_subscription: st.expires.is_some() || url_stored,
        expires: clone_opt(&st.expires),
        servers: to_info(st.servers.as_slice()),
        connected: st.connected_server.is_some() && tunnel_up,
        connected_server: clone_opt(&st.connected_server),
    }
}

impl AppState {
    /// The state before any subscription was set.
    pub fn new() -> (r: AppState)
        ensures
            r@ == empty_state(),
    {
        AppState { expires: None, servers: Vec::new(), connected_server: None }
    }

    /// Take in a subscription's payload.
    pub fn apply_subscription(&mut self, payload: SubscriptionPayload)
        ensures
            final(self)@ == applied(old(self)@, payload@),
    {
        self.expires = Some(payload.expires);
        self.servers = payload.servers;
    }

    /// Whether the tunnel must be asked if it is still up: only while a
    /// connection is recorded.
    pub fn needs_tunnel_probe(&self) -> (r: bool)
        ensures
            r == (self.connected_server is Some),
    {
        self.connected_server.is_some()
    }

    /// Forget a connection whose tunnel died.
    pub fn reconcile(&mut self, tunnel_up: bool)
        ensures
            final(self)@ == reconciled(old(self)@, tunnel_up),
    {
        if self.connected_server.is_some() && !tunnel_up {
            self.connected_server = None;
        }
    }

    /// The position of the first server with id `id`.
    pub fn find_server(&self, id: &str) -> (r: Option<usize>)
        ensures
            r matches Some(i) ==> is_first_match(self.servers@, id@, i as int),
            r is None ==> !has_server(self.servers@, id@),
    {
        let target = String::from_str(id);
        let mut i: usize = 0;
        while i < self.servers.len()
            invariant
                i <= self.servers@.len(),
                target@ == id@,
                forall|k: int| 0 <= k < i ==> self.servers@[k].id@ != id@,
            decreases self.servers@.len() - i,
        {
            if self.servers[i].id == target {
                return Some(i);
            }
            i = i + 1;
        }
        None
    }

    /// Choose the server to connect to: the first with id `server_id`,
    /// which must speak WireGuard.
    pub fn select_for_connect(&self, server_id: &str) -> (r: Result<usize, String>)
        ensures
            match (r, selection(self.servers@, server_id@)) {
                (Ok(i), Ok(j)) => i == j,
                (Err(e), Err(f)) => e@ == f,
                _ => false,
            },
    {
        proof {
            lemma_first_match_exists(self.servers@, server_id@);
        }
        match self.find_server(server_id) {
            None => Err(String::from_str("unknown server")),
            Some(i) => {
                proof {
                    let j = first_match(self.servers@, server_id@)->0;
                    lemma_first_match_unique(self.servers@, server_id@, i as int, j);
                }
                let wg = String::from_str("wireguard");
                if self.servers[i].protocol == wg {
                    Ok(i)
                } else {
                    Err(self.servers[i].protocol.clone().concat(" is not supported yet"))
                }
            },
        }
    }

    /// The config of the server at `i`.
    pub fn server_config(&self, i: usize) -> (r: &String)
        requires
            i < self.servers@.len(),
        ensures
            *r == self.servers@[i as int].config,
    {
        &self.servers[i].config
    }

    /// Record that the tunnel to `server_id` is up.
    pub fn mark_connected(&mut self, server_id: String)
        ensures
            final(self)@ == connected_to(old(self)@, server_id),
    {
        self.connected_server = Some(server_id);
    }

    /// Record that the tunnel is down.
    pub fn mark_disconnected(&mut self)
        ensures
            final(self)@ == disconnected(old(self)@),
    {
        self.connected_server = None;
    }

    /// Forget the subscription and everything that came with it.
    pub fn reset(&mut self)
        ensures
            final(self)@ == empty_state(),
    {
        *self = AppState::new();
    }
}

} // verus!
