use vstd::prelude::*;

verus! {

/// The port the server listens on when none is configured.
pub const DEFAULT_PORT: u16 = 8080;
/// How many ports after the requested one are tried when it is refused.
pub const MAX_FALLBACKS: u16 = 10;

/// The ports tried, in order, after the requested `port` is refused:
/// `port + 1` through `port + MAX_FALLBACKS`. Those must all be valid ports.
pub fn fallback_ports(port: u16) -> (ports: Vec<u16>)
    requires
        port + MAX_FALLBACKS <= u16::MAX,
    ensures
        ports@.len() == MAX_FALLBACKS,
        forall|k: int| 0 <= k < MAX_FALLBACKS ==> #[trigger] ports@[k] == port + k + 1,
{
    let mut ports: Vec<u16> = Vec::new();
    let mut offset: u16 = 1;
    while offset <= MAX_FALLBACKS
        invariant
            1 <= offset <= MAX_FALLBACKS + 1,
            port + MAX_FALLBACKS <= u16::MAX,
            ports@.len() == offset - 1,
            forall|k: int| 0 <= k < offset - 1 ==> #[trigger] ports@[k] == port + k + 1,
        decreases MAX_FALLBACKS + 1 - offset,
    {
        ports.push(port + offset);
        offset = offset + 1;
    }
    ports
}

} // verus!
