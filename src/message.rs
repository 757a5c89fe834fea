//! Message types and how they are named on the wire.
use vstd::prelude::*;

verus! {

/// A type that can travel on a topic, known to the bus by a stable name.
pub trait Message {
    /// The fully qualified name of the type.
    spec fn spec_type_name() -> Seq<char>;

    fn message_type_name() -> (r: String)
        ensures
            r@ == Self::spec_type_name(),
    ;
}

/// The name a message type is known by: an optional prefix followed by an
/// explicit name, or by the type's own identifier where none is given.
pub open spec fn spec_full_type_name(
    prefix: Option<Seq<char>>,
    name: Option<Seq<char>>,
    ident: Seq<char>,
) -> Seq<char> {
    let p = match prefix {
        Some(p) => p,
        None => Seq::empty(),
    };
    let n = match name {
        Some(n) => n,
        None => ident,
    };
    p + n
}

/// Builds the fully qualified name of a message type.
pub fn full_type_name(prefix: Option<&str>, name: Option<&str>, ident: &str) -> (r: String)
    ensures
        r@ == spec_full_type_name(
            match prefix {
                Some(p) => Some(p@),
                None => None,
            },
            match name {
                Some(n) => Some(n@),
                None => None,
            },
            ident@,
        ),
{
    let mut r = match prefix {
        Some(p) => String::from_str(p),
        None => String::new(),
    };
    match name {
        Some(n) => r.append(n),
        None => r.append(ident),
    }
    r
}

/// The request half of the ping/pong exchange.
#[derive(Debug, Clone, Copy, PartialEq, Eq)]
pub struct Ping {
    pub sync: u64,
}

/// The reply half of the ping/pong exchange.
#[derive(Debug, Clone, Copy, PartialEq, Eq)]
pub struct Pong {
    pub sync: u64,
}

impl Message for Ping {
    open spec fn spec_type_name() -> Seq<char> {
        "kpns_msgs."@ + "Ping"@
    }

    fn message_type_name() -> (r: String) {
        full_type_name(Some("kpns_msgs."), None, "Ping")
    }
}

impl Message for Pong {
    open spec fn spec_type_name() -> Seq<char> {
        "kpns_msgs."@ + "Pong"@
    }

    fn message_type_name() -> (r: String) {
        full_type_name(Some("kpns_msgs."), None, "Pong")
    }
}

/// The reply to a ping: one more than the ping's counter, where that fits.
pub open spec fn spec_reply(ping: Ping) -> Option<Pong> {
    if ping.sync < u64::MAX {
        Some(Pong { sync: (ping.sync + 1) as u64 })
    } else {
        None
    }
}

impl Pong {
    /// The reply to `ping`; a ping whose counter cannot grow gets none.
    pub fn reply_to(ping: &Ping) -> (r: Option<Pong>)
        ensures
            r == spec_reply(*ping),
    {
        if ping.sync < u64::MAX {
            Some(Pong { sync: ping.sync + 1 })
        } else {
            None
        }
    }
}

impl Ping {
    /// The ping that follows a received reply: it carries the reply's counter.
    pub fn after(pong: &Pong) -> (r: Ping)
        ensures
            r.sync == pong.sync,
    {
        Ping { sync: pong.sync }
    }
}

/// The counter the ping side carries after `n` completed exchanges that
/// started from `start`.
pub open spec fn sync_after(start: u64, n: nat) -> u64
    decreases n,
{
    if n == 0 {
        start
    } else {
        let prev = sync_after(start, (n - 1) as nat);
        match spec_reply(Ping { sync: prev }) {
            Some(pong) => pong.sync,
            None => prev,
        }
    }
}

/// Repeated exchanges give a strictly increasing counter, one step each
/// time, for as long as the counter can grow.
pub proof fn lemma_rounds_increase(start: u64, n: nat)
    requires
        start + n <= u64::MAX,
    ensures
        sync_after(start, n) == start + n,
        n > 0 ==> sync_after(start, n) > sync_after(start, (n - 1) as nat),
    decreases n,
{
    if n > 0 {
        lemma_rounds_increase(start, (n - 1) as nat);
    }
}

} // verus!
