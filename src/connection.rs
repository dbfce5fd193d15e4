use vstd::prelude::*;
use crate::height::Height;

verus! {

/// State of one end of a connection.
#[derive(Clone, Copy, Debug, PartialEq, Eq, Structural)]
pub enum ConnectionState {
    Uninitialized,
    Init,
    TryOpen,
    Open,
}

/// The remote end of a connection.
#[derive(Clone, Debug)]
pub struct ConnectionCounterparty {
    pub client_id: String,
    pub connection_id: Option<String>,
    pub prefix: Vec<u8>,
}

/// One end of a connection, as kept in the store.
#[derive(Clone, Debug)]
pub struct ConnectionEnd {
    pub state: ConnectionState,
    pub client_id: String,
    pub remote: ConnectionCounterparty,
    pub versions: Vec<String>,
    pub delay_period_ns: u64,
}

/// The views of a sequence of strings.
pub open spec fn string_views(vs: Seq<String>) -> Seq<Seq<char>> {
    vs.map_values(|s: String| s@)
}

/// What a connection end holds, as plain values.
pub struct ConnectionEndView {
    pub state: ConnectionState,
    pub client_id: Seq<char>,
    pub remote_client: Seq<char>,
    pub remote_connection: Option<Seq<char>>,
    pub prefix: Seq<u8>,
    pub versions: Seq<Seq<char>>,
    pub delay_period_ns: u64,
}

impl View for ConnectionEnd {
    type V = ConnectionEndView;

    open spec fn view(&self) -> ConnectionEndView {
        ConnectionEndView {
            state: self.state,
            client_id: self.client_id@,
            remote_client: self.remote.client_id@,
            remote_connection: match self.remote.connection_id {
                Some(c) => Some(c@),
                None => None,
            },
            prefix: self.remote.prefix@,
            versions: string_views(self.versions@),
            delay_period_ns: self.delay_period_ns,
        }
    }
}

impl ConnectionEnd {
    /// A copy with the same view.
    pub fn copy(&self) -> (r: ConnectionEnd)
        ensures
            r@ == self@,
    {
        let connection_id = match &self.remote.connection_id {
            Some(c) => Some(c.clone()),
            None => None,
        };
        let versions = self.versions.clone();
        assert(string_views(versions@) =~= string_views(self.versions@));
        let prefix = self.remote.prefix.clone();
        ConnectionEnd {
            state: self.state,
            client_id: self.client_id.clone(),
            remote: ConnectionCounterparty {
                client_id: self.remote.client_id.clone(),
                connection_id,
                prefix,
            },
            versions,
            delay_period_ns: self.delay_period_ns,
        }
    }
}

} // verus!

verus! {

/// Whether a handler allocated a fresh connection identifier or reused one.
#[derive(Clone, Copy, Debug, PartialEq, Eq, Structural)]
pub enum ConnectionIdState {
    Generated,
    Reused,
}

/// What a connection handshake handler hands to the keeper.
#[derive(Clone, Debug)]
pub struct ConnectionResult {
    pub connection_id: String,
    pub connection_id_state: ConnectionIdState,
    pub connection_end: ConnectionEnd,
}

/// Errors of the connection layer.
#[derive(Clone, Debug)]
pub enum ConnectionError {
    ConnectionNotFound { connection_id: String },
    InvalidState { expected: ConnectionState, actual: ConnectionState },
    VersionNotSupported,
    NoCommonVersion,
    ProofVerificationFailure,
}

/// The four handshake messages.
#[derive(Clone, Debug)]
pub enum ConnectionMsg {
    OpenInit { client_id: String, remote: ConnectionCounterparty, version: Option<String>, delay_period_ns: u64 },
    OpenTry {
        client_id: String,
        remote: ConnectionCounterparty,
        counterparty_versions: Vec<String>,
        delay_period_ns: u64,
        proof: Vec<u8>,
        proofs_height: crate::height::Height,
    },
    OpenAck {
        conn_id: String,
        counterparty_conn_id: String,
        version: String,
        proof: Vec<u8>,
        proofs_height: crate::height::Height,
    },
    OpenConfirm { conn_id: String, proof: Vec<u8>, proofs_height: crate::height::Height },
}

/// The character of the decimal digit `d`.
pub open spec fn digit_char(d: u64) -> char {
    if d == 0 {
        '0'
    } else if d == 1 {
        '1'
    } else if d == 2 {
        '2'
    } else if d == 3 {
        '3'
    } else if d == 4 {
        '4'
    } else if d == 5 {
        '5'
    } else if d == 6 {
        '6'
    } else if d == 7 {
        '7'
    } else if d == 8 {
        '8'
    } else {
        '9'
    }
}

/// The decimal digits of `n`.
pub open spec fn decimal(n: u64) -> Seq<char>
    decreases n,
{
    if n < 10 {
        seq![digit_char(n)]
    } else {
        decimal(n / 10).push(digit_char(n % 10))
    }
}

/// The one-character string of the decimal digit `d`.
fn digit_str(d: u64) -> (r: &'static str)
    requires
        d < 10,
    ensures
        r@ == seq![digit_char(d)],
{
    proof {
        reveal_strlit("0");
        reveal_strlit("1");
        reveal_strlit("2");
        reveal_strlit("3");
        reveal_strlit("4");
        reveal_strlit("5");
        reveal_strlit("6");
        reveal_strlit("7");
        reveal_strlit("8");
        reveal_strlit("9");
    }
    if d == 0 {
        "0"
    } else if d == 1 {
        "1"
    } else if d == 2 {
        "2"
    } else if d == 3 {
        "3"
    } else if d == 4 {
        "4"
    } else if d == 5 {
        "5"
    } else if d == 6 {
        "6"
    } else if d == 7 {
        "7"
    } else if d == 8 {
        "8"
    } else {
        "9"
    }
}

/// Appends the decimal digits of `n` to `out`.
pub fn push_decimal(out: &mut String, n: u64)
    ensures
        final(out)@ == old(out)@ + decimal(n),
    decreases n,
{
    if n >= 10 {
        push_decimal(out, n / 10);
    }
    out.append(digit_str(n % 10));
    if n >= 10 {
        assert(old(out)@ + decimal(n) =~= old(out)@ + decimal(n / 10) + seq![digit_char(n % 10)]);
    } else {
        assert(n % 10 == n);
    }
}

/// `"connection-{n}"`, the identifier of the `n`-th connection.
pub open spec fn connection_id_spec(n: u64) -> Seq<char> {
    seq!['c', 'o', 'n', 'n', 'e', 'c', 't', 'i', 'o', 'n', '-'] + decimal(n)
}

/// Builds `"connection-{n}"`.
pub fn format_connection_id(n: u64) -> (r: String)
    ensures
        r@ == connection_id_spec(n),
{
    proof {
        reveal_strlit("connection-");
    }
    let mut s = String::from_str("connection-");
    push_decimal(&mut s, n);
    assert(s@ =~= connection_id_spec(n));
    s
}

/// Whether `v` occurs in `vs`.
pub open spec fn contains_version(vs: Seq<String>, v: Seq<char>) -> bool {
    exists|i: int| 0 <= i < vs.len() && (#[trigger] vs[i])@ == v
}

/// Whether `v` occurs in `vs`.
pub fn has_version(vs: &Vec<String>, v: &String) -> (r: bool)
    ensures
        r == contains_version(vs@, v@),
        r == string_views(vs@).contains(v@),
{
    let mut i: usize = 0;
    while i < vs.len()
        invariant
            i <= vs@.len(),
            forall|j: int| 0 <= j < i ==> (#[trigger] vs@[j])@ != v@,
        decreases vs@.len() - i,
    {
        if vs[i] == *v {
            assert(string_views(vs@)[i as int] == v@);
            return true;
        }
        i = i + 1;
    }
    assert forall|k: int| 0 <= k < vs@.len() implies #[trigger] string_views(vs@)[k] != v@ by {
        assert(vs@[k]@ != v@);
    }
    false
}

/// Picks the earliest version of `proposed` that `supported` also holds.
pub fn pick_version(proposed: &Vec<String>, supported: &Vec<String>) -> (r: Option<String>)
    ensures
        r is None <==> forall|i: int| 0 <= i < proposed@.len() ==> !contains_version(supported@, (#[trigger] proposed@[i])@),
        r is Some ==> exists|i: int| 0 <= i < proposed@.len() && (#[trigger] proposed@[i])@ == r->Some_0@
            && contains_version(supported@, proposed@[i]@)
            && forall|j: int| 0 <= j < i ==> !contains_version(supported@, (#[trigger] proposed@[j])@),
{
    let mut i: usize = 0;
    while i < proposed.len()
        invariant
            i <= proposed@.len(),
            forall|j: int| 0 <= j < i ==> !contains_version(supported@, (#[trigger] proposed@[j])@),
        decreases proposed@.len() - i,
    {
        if has_version(supported, &proposed[i]) {
            return Some(proposed[i].clone());
        }
        i = i + 1;
    }
    None
}

/// The earliest version of `proposed` that `supported` also holds is `v`.
pub open spec fn is_first_common(proposed: Seq<String>, supported: Seq<String>, v: Seq<char>) -> bool {
    exists|i: int|
        0 <= i < proposed.len() && (#[trigger] proposed[i])@ == v && contains_version(supported, v)
            && forall|j: int| 0 <= j < i ==> !contains_version(supported, (#[trigger] proposed[j])@)
}

/// Some version of `proposed` is also in `supported`.
pub open spec fn has_common(proposed: Seq<String>, supported: Seq<String>) -> bool {
    exists|i: int| 0 <= i < proposed.len() && contains_version(supported, (#[trigger] proposed[i])@)
}

/// Read-only dependencies of the connection handshake.
pub trait ConnectionReader: Sized {
    /// Connection ends by identifier.
    spec fn conn_ends(&self) -> Map<Seq<char>, ConnectionEndView>;

    /// The connection counter, when the store holds one.
    spec fn conn_counter(&self) -> Option<u64>;

    /// The versions this host supports, in order of preference.
    spec fn supported_versions(&self) -> Seq<String>;

    /// Whether `proof` shows, at `height` on the chain that the local client
    /// `client_id` tracks, the connection `remote_id` in state `state`.
    spec fn connection_proof_ok(
        &self,
        client_id: Seq<char>,
        height: Height,
        proof: Seq<u8>,
        remote_id: Seq<char>,
        state: ConnectionState,
    ) -> bool;

    fn connection_end(&self, conn_id: &String) -> (r: Result<ConnectionEnd, ConnectionError>)
        ensures
            r is Ok <==> self.conn_ends().contains_key(conn_id@),
            r is Ok ==> r->Ok_0@ == self.conn_ends()[conn_id@],
    ;

    fn connection_counter(&self) -> (r: Result<u64, ConnectionError>)
        ensures
            r is Ok <==> self.conn_counter() is Some,
            r is Ok ==> r->Ok_0 == self.conn_counter()->Some_0,
    ;

    fn get_compatible_versions(&self) -> (r: Vec<String>)
        ensures
            r@ == self.supported_versions(),
    ;

    /// Verifies a proof of the counterparty's connection state, through the
    /// light client.
    fn verify_connection_state(
        &self,
        client_id: &String,
        height: &Height,
        proof: &Vec<u8>,
        remote_id: &String,
        state: ConnectionState,
    ) -> (r: bool)
        ensures
            r == self.connection_proof_ok(client_id@, *height, proof@, remote_id@, state),
    ;
}

/// The handshake message is accepted on the store that `ctx` shows.
pub open spec fn handshake_accepted<C: ConnectionReader>(ctx: C, msg: ConnectionMsg) -> bool {
    match msg {
        ConnectionMsg::OpenInit { version, .. } => ctx.conn_counter() is Some && (version is Some
            ==> contains_version(ctx.supported_versions(), version->Some_0@)),
        ConnectionMsg::OpenTry {
            client_id,
            remote,
            counterparty_versions,
            proof,
            proofs_height,
            ..
        } => {
            &&& remote.connection_id is Some
            &&& ctx.conn_counter() is Some
            &&& has_common(counterparty_versions@, ctx.supported_versions())
            &&& ctx.connection_proof_ok(
                client_id@,
                proofs_height,
                proof@,
                remote.connection_id->Some_0@,
                ConnectionState::Init,
            )
        },
        ConnectionMsg::OpenAck { conn_id, counterparty_conn_id, version, proof, proofs_height } => {
            &&& ctx.conn_ends().contains_key(conn_id@)
            &&& ctx.conn_ends()[conn_id@].state == ConnectionState::Init
            &&& ctx.conn_ends()[conn_id@].versions.contains(version@)
            &&& ctx.connection_proof_ok(
                ctx.conn_ends()[conn_id@].client_id,
                proofs_height,
                proof@,
                counterparty_conn_id@,
                ConnectionState::TryOpen,
            )
        },
        ConnectionMsg::OpenConfirm { conn_id, proof, proofs_height } => {
            &&& ctx.conn_ends().contains_key(conn_id@)
            &&& ctx.conn_ends()[conn_id@].state == ConnectionState::TryOpen
            &&& ctx.conn_ends()[conn_id@].remote_connection is Some
            &&& ctx.connection_proof_ok(
                ctx.conn_ends()[conn_id@].client_id,
                proofs_height,
                proof@,
                ctx.conn_ends()[conn_id@].remote_connection->Some_0,
                ConnectionState::Open,
            )
        },
    }
}

/// `res` is what an accepted handshake message yields on the store that `ctx` shows.
pub open spec fn handshake_result<C: ConnectionReader>(
    ctx: C,
    msg: ConnectionMsg,
    res: ConnectionResult,
) -> bool {
    let e = res.connection_end;
    match msg {
        ConnectionMsg::OpenInit { client_id, remote, version, delay_period_ns } => {
            &&& res.connection_id@ == connection_id_spec(ctx.conn_counter()->Some_0)
            &&& res.connection_id_state == ConnectionIdState::Generated
            &&& e.state == ConnectionState::Init
            &&& e.client_id == client_id
            &&& e.remote == remote
            &&& e.delay_period_ns == delay_period_ns
            &&& match version {
                Some(v) => e.versions@ == seq![v],
                None => e.versions@ == ctx.supported_versions(),
            }
        },
        ConnectionMsg::OpenTry { client_id, remote, counterparty_versions, delay_period_ns, .. } => {
            &&& res.connection_id@ == connection_id_spec(ctx.conn_counter()->Some_0)
            &&& res.connection_id_state == ConnectionIdState::Generated
            &&& e.state == ConnectionState::TryOpen
            &&& e.client_id == client_id
            &&& e.remote == remote
            &&& e.delay_period_ns == delay_period_ns
            &&& e.versions@.len() == 1
            &&& is_first_common(counterparty_versions@, ctx.supported_versions(), e.versions@[0]@)
        },
        ConnectionMsg::OpenAck { conn_id, counterparty_conn_id, version, .. } => {
            let old_end = ctx.conn_ends()[conn_id@];
            &&& res.connection_id == conn_id
            &&& res.connection_id_state == ConnectionIdState::Reused
            &&& e.state == ConnectionState::Open
            &&& e.client_id@ == old_end.client_id
            &&& e.remote.client_id@ == old_end.remote_client
            &&& e.remote.connection_id == Some(counterparty_conn_id)
            &&& e.remote.prefix@ == old_end.prefix
            &&& e.versions@ == seq![version]
            &&& e.delay_period_ns == old_end.delay_period_ns
        },
        ConnectionMsg::OpenConfirm { conn_id, .. } => {
            let old_end = ctx.conn_ends()[conn_id@];
            &&& res.connection_id == conn_id
            &&& res.connection_id_state == ConnectionIdState::Reused
            &&& e@ == (ConnectionEndView { state: ConnectionState::Open, ..old_end })
        },
    }
}

/// Processes one connection handshake message against a read-only context.
/// A message that arrives out of order (an acknowledgement for a connection
/// that is not in `Init`, or whose counterparty is not proved in `TryOpen`; a
/// confirmation for a connection that is not in `TryOpen`) is rejected; the
/// context is never written.
pub fn dispatch<C: ConnectionReader>(ctx: &C, msg: ConnectionMsg) -> (r: Result<
    ConnectionResult,
    ConnectionError,
>)
    ensures
        r is Ok <==> handshake_accepted(*ctx, msg),
        r is Ok ==> handshake_result(*ctx, msg, r->Ok_0),
        msg matches ConnectionMsg::OpenTry { remote, counterparty_versions, .. } ==> (
        remote.connection_id is Some && ctx.conn_counter() is Some && !has_common(
            counterparty_versions@,
            ctx.supported_versions(),
        ) ==> (r matches Err(ConnectionError::NoCommonVersion))),
        msg matches ConnectionMsg::OpenInit { version: Some(v), .. } ==> (ctx.conn_counter() is Some
            && !contains_version(ctx.supported_versions(), v@) ==> (r matches Err(
            ConnectionError::VersionNotSupported,
        ))),
        msg matches ConnectionMsg::OpenAck { conn_id, .. } ==> (ctx.conn_ends().contains_key(conn_id@)
            && ctx.conn_ends()[conn_id@].state != ConnectionState::Init ==> (r matches Err(
            ConnectionError::InvalidState { .. },
        ))),
        msg matches ConnectionMsg::OpenConfirm { conn_id, .. } ==> (ctx.conn_ends().contains_key(
            conn_id@,
        ) && ctx.conn_ends()[conn_id@].state != ConnectionState::TryOpen ==> (r matches Err(
            ConnectionError::InvalidState { .. },
        ))),
{
    match msg {
        ConnectionMsg::OpenInit { client_id, remote, version, delay_period_ns } => {
            let counter = ctx.connection_counter()?;
            let compatible = ctx.get_compatible_versions();
            let versions = match version {
                Some(v) => {
                    if !has_version(&compatible, &v) {
                        return Err(ConnectionError::VersionNotSupported);
                    }
                    let mut vs: Vec<String> = Vec::new();
                    vs.push(v);
                    vs
                },
                None => compatible,
            };
            let connection_end = ConnectionEnd {
                state: ConnectionState::Init,
                client_id,
                remote,
                versions,
                delay_period_ns,
            };
            Ok(
                ConnectionResult {
                    connection_id: format_connection_id(counter),
                    connection_id_state: ConnectionIdState::Generated,
                    connection_end,
                },
            )
        },
        ConnectionMsg::OpenTry {
            client_id,
            remote,
            counterparty_versions,
            delay_period_ns,
            proof,
            proofs_height,
        } => {
            let remote_id = match &remote.connection_id {
                Some(id) => id.clone(),
                None => return Err(ConnectionError::ProofVerificationFailure),
            };
            let counter = ctx.connection_counter()?;
            let compatible = ctx.get_compatible_versions();
            let version = match pick_version(&counterparty_versions, &compatible) {
                Some(v) => v,
                None => return Err(ConnectionError::NoCommonVersion),
            };
            if !ctx.verify_connection_state(
                &client_id,
                &proofs_height,
                &proof,
                &remote_id,
                ConnectionState::Init,
            ) {
                return Err(ConnectionError::ProofVerificationFailure);
            }
            let mut versions: Vec<String> = Vec::new();
            versions.push(version);
            let connection_end = ConnectionEnd {
                state: ConnectionState::TryOpen,
                client_id,
                remote,
                versions,
                delay_period_ns,
            };
            Ok(
                ConnectionResult {
                    connection_id: format_connection_id(counter),
                    connection_id_state: ConnectionIdState::Generated,
                    connection_end,
                },
            )
        },
        ConnectionMsg::OpenAck { conn_id, counterparty_conn_id, version, proof, proofs_height } => {
            let end = ctx.connection_end(&conn_id)?;
            if end.state != ConnectionState::Init {
                return Err(
                    ConnectionError::InvalidState {
                        expected: ConnectionState::Init,
                        actual: end.state,
                    },
                );
            }
            if !has_version(&end.versions, &version) {
                return Err(ConnectionError::VersionNotSupported);
            }
            if !ctx.verify_connection_state(
                &end.client_id,
                &proofs_height,
                &proof,
                &counterparty_conn_id,
                ConnectionState::TryOpen,
            ) {
                return Err(ConnectionError::ProofVerificationFailure);
            }
            let mut versions: Vec<String> = Vec::new();
            versions.push(version);
            let remote = ConnectionCounterparty {
                client_id: end.remote.client_id,
                connection_id: Some(counterparty_conn_id),
                prefix: end.remote.prefix,
            };
            let connection_end = ConnectionEnd {
                state: ConnectionState::Open,
                client_id: end.client_id,
                remote,
                versions,
                delay_period_ns: end.delay_period_ns,
            };
            Ok(
                ConnectionResult {
                    connection_id: conn_id,
                    connection_id_state: ConnectionIdState::Reused,
                    connection_end,
                },
            )
        },
        ConnectionMsg::OpenConfirm { conn_id, proof, proofs_height } => {
            let end = ctx.connection_end(&conn_id)?;
            if end.state != ConnectionState::TryOpen {
                return Err(
                    ConnectionError::InvalidState {
                        expected: ConnectionState::TryOpen,
                        actual: end.state,
                    },
                );
            }
            let remote_id = match &end.remote.connection_id {
                Some(id) => id.clone(),
                None => return Err(ConnectionError::ProofVerificationFailure),
            };
            if !ctx.verify_connection_state(
                &end.client_id,
                &proofs_height,
                &proof,
                &remote_id,
                ConnectionState::Open,
            ) {
                return Err(ConnectionError::ProofVerificationFailure);
            }
            let connection_end = ConnectionEnd {
                state: ConnectionState::Open,
                client_id: end.client_id,
                remote: end.remote,
                versions: end.versions,
                delay_period_ns: end.delay_period_ns,
            };
            Ok(
                ConnectionResult {
                    connection_id: conn_id,
                    connection_id_state: ConnectionIdState::Reused,
                    connection_end,
                },
            )
        },
    }
}

} // verus!
