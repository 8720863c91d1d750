use vstd::prelude::*;
use crate::protocol::{KodaSignal, is_error_with, identify_required_label, malformed_label};
use crate::registry::{PeerRegistry, release};

verus! {

/// The claims of a token whose signature and expiry have been checked:
/// the identity it names and its expiry as a Unix timestamp.
#[derive(Debug, Clone, Copy, PartialEq, Eq)]
pub struct Claims {
    pub sub: u128,
    pub exp: usize,
}

/// What a connection hands its session.
#[derive(Debug, PartialEq)]
pub enum Inbound {
    /// A text frame that did not decode to a message.
    Malformed,
    /// A decoded message.
    Message(KodaSignal),
    /// The outcome of checking a token that the session asked to have
    /// checked: its claims when the signature and expiry held, else `None`.
    Verified(Option<Claims>),
}

/// What a session asks its connection to do.
#[derive(Debug, PartialEq)]
pub enum Action {
    /// Push `msg` onto the outbound queue of connection `conn`.
    Send { conn: u64, msg: KodaSignal },
    /// Check `token` against the shared secret and hand back `Verified`.
    VerifyToken { token: String },
}

/// Whether `a` sends connection `conn` an `Error` labelled `label`.
pub open spec fn sends_error(a: Action, conn: u64, label: Seq<char>) -> bool {
    match a {
        Action::Send { conn: c, msg } => c == conn && is_error_with(msg, label),
        _ => false,
    }
}

/// The routes after connection `conn`, authenticated as `prev`, identifies as
/// `id`: its earlier route is withdrawn and `id` now routes to it.
pub open spec fn routes_after_identify(
    m: Map<u128, u64>,
    prev: Option<u128>,
    conn: u64,
    id: u128,
) -> Map<u128, u64> {
    release(m, prev, conn).insert(id, conn)
}

/// What applying the token check `claims` does to connection `conn`, which
/// was authenticated as `user` against routes `m`: it ends authenticated as
/// `user2`, against routes `m2`, having emitted `r`.
pub open spec fn identify_outcome(
    user: Option<u128>,
    conn: u64,
    m: Map<u128, u64>,
    claims: Option<Claims>,
    user2: Option<u128>,
    m2: Map<u128, u64>,
    r: Seq<Action>,
) -> bool {
    match claims {
        Some(c) => {
            &&& user2 == Some(c.sub)
            &&& m2 == routes_after_identify(m, user, conn, c.sub)
            &&& r == seq![Action::Send { conn, msg: KodaSignal::Authenticated { user_id: c.sub } }]
        },
        None => {
            &&& user2 == user
            &&& m2 == m
            &&& r.len() == 0
        },
    }
}

/// A valid token authenticates: the sender gets exactly one message, the
/// confirmation of its identity, and that identity routes to the sender.
pub proof fn lemma_identify_confirms(
    user: Option<u128>,
    conn: u64,
    m: Map<u128, u64>,
    c: Claims,
    user2: Option<u128>,
    m2: Map<u128, u64>,
    r: Seq<Action>,
)
    requires
        identify_outcome(user, conn, m, Some(c), user2, m2, r),
    ensures
        r.len() == 1,
        r[0] == (Action::Send { conn, msg: KodaSignal::Authenticated { user_id: c.sub } }),
        m2.contains_key(c.sub),
        m2[c.sub] == conn,
        user2 == Some(c.sub),
{
}

/// A rejected token neither routes anything nor confirms anything.
pub proof fn lemma_rejected_token_inert(
    user: Option<u128>,
    conn: u64,
    m: Map<u128, u64>,
    user2: Option<u128>,
    m2: Map<u128, u64>,
    r: Seq<Action>,
)
    requires
        identify_outcome(user, conn, m, None, user2, m2, r),
    ensures
        m2 == m,
        user2 == user,
        r.len() == 0,
{
}

/// A reconnect supersedes: once a new connection `fresh` identifies as `id`,
/// `id` routes to `fresh`, and when the old connection `stale` closes later
/// its teardown leaves that route in place.
pub proof fn lemma_reconnect_supersedes(
    m: Map<u128, u64>,
    id: u128,
    stale: u64,
    fresh: u64,
    fresh_user: Option<u128>,
)
    requires
        stale != fresh,
        m.contains_key(id),
        m[id] == stale,
    ensures
        routes_after_identify(m, fresh_user, fresh, id)[id] == fresh,
        release(routes_after_identify(m, fresh_user, fresh, id), Some(id), stale)
            == routes_after_identify(m, fresh_user, fresh, id),
{
}

/// What a `Signal` for `target` carrying `data` yields, from connection
/// `conn` authenticated as `user`, against the routes `m`.
pub open spec fn signal_outcome(
    user: Option<u128>,
    conn: u64,
    m: Map<u128, u64>,
    target: u128,
    data: serde_json::Value,
    r: Seq<Action>,
) -> bool {
    match user {
        None => r.len() == 1 && sends_error(r[0], conn, identify_required_label()),
        Some(s) => if m.contains_key(target) {
            r == seq![
                Action::Send {
                    conn: m[target],
                    msg: KodaSignal::Signal { target_id: target, sender_id: Some(s), data },
                },
            ]
        } else {
            r == seq![Action::Send { conn, msg: KodaSignal::PeerOffline { peer_id: target } }]
        },
    }
}

/// One connection's state: its id, which names its outbound queue, and the
/// identity it has authenticated as, if any.
pub struct Session {
    conn: u64,
    user: Option<u128>,
}

impl Session {
    pub closed spec fn spec_conn(&self) -> u64 {
        self.conn
    }

    pub closed spec fn spec_user(&self) -> Option<u128> {
        self.user
    }

    /// A fresh, unauthenticated session for connection `conn`.
    pub fn new(conn: u64) -> (r: Session)
        ensures
            r.spec_conn() == conn,
            r.spec_user() == None::<u128>,
    {
        Session { conn, user: None }
    }

    /// The connection id.
    pub fn conn(&self) -> (r: u64)
        ensures
            r == self.spec_conn(),
    {
        self.conn
    }

    /// The identity this session has authenticated as, if any.
    pub fn user(&self) -> (r: Option<u128>)
        ensures
            r == self.spec_user(),
    {
        self.user
    }

    /// Applies the outcome of a token check. Valid claims authenticate the
    /// session as their subject, route that identity here and confirm it to
    /// the client; a session that was already authenticated first withdraws
    /// its earlier route. A rejected token changes nothing and is not answered.
    pub fn identify(&mut self, reg: &mut PeerRegistry, claims: Option<Claims>) -> (r: Vec<Action>)
        ensures
            final(self).spec_conn() == old(self).spec_conn(),
            identify_outcome(
                old(self).spec_user(),
                old(self).spec_conn(),
                old(reg)@,
                claims,
                final(self).spec_user(),
                final(reg)@,
                r@,
            ),
    {
        match claims {
            Some(c) => {
                if let Some(prev) = self.user {
                    reg.unregister(prev, self.conn);
                }
                reg.register(c.sub, self.conn);
                self.user = Some(c.sub);
                let mut r = Vec::new();
                r.push(Action::Send { conn: self.conn, msg: KodaSignal::Authenticated { user_id: c.sub } });
                r
            },
            None => Vec::new(),
        }
    }

    /// Routes a `Signal` for `target` carrying `data`. Unauthenticated, the
    /// sender gets `IDENTIFY_REQUIRED`. Authenticated as `s`, the signal goes
    /// to `target`'s connection with `sender_id` set to `s`, or, when `target`
    /// has no route, the sender gets `PeerOffline`.
    pub fn signal(&self, reg: &PeerRegistry, target: u128, data: serde_json::Value) -> (r: Vec<Action>)
        ensures
            signal_outcome(self.spec_user(), self.spec_conn(), reg@, target, data, r@),
    {
        match self.user {
            None => {
                let mut r = Vec::new();
                r.push(Action::Send { conn: self.conn, msg: KodaSignal::identify_required() });
                r
            },
            Some(s) => {
                let mut r = Vec::new();
                match reg.lookup(target) {
                    Some(peer) => {
                        let msg = KodaSignal::Signal { target_id: target, sender_id: Some(s), data };
                        r.push(Action::Send { conn: peer, msg });
                    },
                    None => {
                        r.push(Action::Send { conn: self.conn, msg: KodaSignal::PeerOffline { peer_id: target } });
                    },
                }
                r
            },
        }
    }

    /// Processes one inbound event. A frame that does not decode gets
    /// `MALFORMATTED_JSON`; an `Identify` asks for its token to be checked,
    /// and the outcome comes back as `Verified`; a `Signal` is routed whatever
    /// `sender_id` it carries; messages that only the server sends are
    /// ignored.
    pub fn handle(&mut self, reg: &mut PeerRegistry, ev: Inbound) -> (r: Vec<Action>)
        ensures
            final(self).spec_conn() == old(self).spec_conn(),
            match ev {
                Inbound::Malformed => {
                    &&& final(self).spec_user() == old(self).spec_user()
                    &&& final(reg)@ == old(reg)@
                    &&& r@.len() == 1
                    &&& sends_error(r@[0], old(self).spec_conn(), malformed_label())
                },
                Inbound::Message(KodaSignal::Identify { token }) => {
                    &&& final(self).spec_user() == old(self).spec_user()
                    &&& final(reg)@ == old(reg)@
                    &&& r@ == seq![Action::VerifyToken { token }]
                },
                Inbound::Message(KodaSignal::Signal { target_id, sender_id: _, data }) => {
                    &&& final(self).spec_user() == old(self).spec_user()
                    &&& final(reg)@ == old(reg)@
                    &&& signal_outcome(
                        old(self).spec_user(),
                        old(self).spec_conn(),
                        old(reg)@,
                        target_id,
                        data,
                        r@,
                    )
                },
                Inbound::Message(_) => {
                    &&& final(self).spec_user() == old(self).spec_user()
                    &&& final(reg)@ == old(reg)@
                    &&& r@.len() == 0
                },
                Inbound::Verified(claims) => identify_outcome(
                    old(self).spec_user(),
                    old(self).spec_conn(),
                    old(reg)@,
                    claims,
                    final(self).spec_user(),
                    final(reg)@,
                    r@,
                ),
            },
    {
        match ev {
            Inbound::Malformed => {
                let mut r = Vec::new();
                r.push(Action::Send { conn: self.conn, msg: KodaSignal::malformed() });
                r
            },
            Inbound::Message(KodaSignal::Identify { token }) => {
                let mut r = Vec::new();
                r.push(Action::VerifyToken { token });
                r
            },
            Inbound::Message(KodaSignal::Signal { target_id, sender_id: _, data }) => {
                self.signal(reg, target_id, data)
            },
            Inbound::Message(_) => Vec::new(),
            Inbound::Verified(claims) => self.identify(reg, claims),
        }
    }

    /// Tears the session down when its connection closes: the route of its
    /// identity is withdrawn if it still points at this connection, so a newer
    /// connection for the same identity keeps its route.
    pub fn close(self, reg: &mut PeerRegistry)
        ensures
            final(reg)@ == release(old(reg)@, self.spec_user(), self.spec_conn()),
    {
        if let Some(id) = self.user {
            reg.unregister(id, self.conn);
        }
    }
}

} // verus!
