//! Transport strategy: which network path a run uses and, per attempt,
//! which relay an attempt is routed through.

use vstd::prelude::*;
use vstd::string::StringExecFns;
use crate::rng::sample_range_u64;

verus! {

/// Remote shell port that every attempt connects to.
pub const TARGET_PORT_SUFFIX: &'static str = ":22";

/// Bound on one connection attempt, in seconds.
pub const CONNECT_TIMEOUT_SECS: u64 = 5;

/// The fixed local relay endpoint of the anonymizing overlay network.
pub const OVERLAY_ENDPOINT: &'static str = "127.0.0.1:9050";

/// The network path configured once per run.
#[derive(Clone, Copy, Debug, PartialEq, Eq, Structural)]
pub enum TransportMode {
    /// Connect straight to the target.
    Direct,
    /// Relay through a forward proxy drawn at random from the proxy list.
    ForwardProxy,
    /// Relay through the fixed overlay endpoint.
    Overlay,
}

/// The operator's interactive choice among the three paths.
#[derive(Clone, Copy, Debug, PartialEq, Eq, Structural)]
pub enum MenuChoice {
    Direct,
    ForwardProxy,
    Overlay,
}

/// The mode a run works in, from the overlay flag, the interactive choice,
/// and whether a non-empty proxy list was supplied.  Either source enabling
/// the overlay activates it; a forward-proxy choice without proxies
/// degrades to a direct connection.
pub open spec fn mode_of(overlay_flag: bool, choice: MenuChoice, proxy_count: nat) -> TransportMode {
    if overlay_flag || choice is Overlay {
        TransportMode::Overlay
    } else if choice is ForwardProxy && proxy_count > 0 {
        TransportMode::ForwardProxy
    } else {
        TransportMode::Direct
    }
}

/// Resolve the transport mode for a run.  The overlay flag wins over the
/// interactive choice: if it is set, the run is in overlay mode whatever
/// was chosen.
pub fn select_mode(overlay_flag: bool, choice: MenuChoice, proxy_count: usize) -> (m:
    TransportMode)
    ensures
        m == mode_of(overlay_flag, choice, proxy_count as nat),
        overlay_flag ==> m is Overlay,
        m is ForwardProxy ==> proxy_count > 0,
{
    if overlay_flag || matches!(choice, MenuChoice::Overlay) {
        TransportMode::Overlay
    } else if matches!(choice, MenuChoice::ForwardProxy) && proxy_count > 0 {
        TransportMode::ForwardProxy
    } else {
        TransportMode::Direct
    }
}

/// The interactive menu's entries, in display order: a direct connection,
/// an external forward proxy, the overlay network.  Any index past the
/// menu's end falls back to the default first entry.
pub fn menu_choice_of(index: usize) -> (c: MenuChoice)
    ensures
        c is ForwardProxy <==> index == 1,
        c is Overlay <==> index == 2,
        c is Direct <==> (index != 1 && index != 2),
{
    if index == 1 {
        MenuChoice::ForwardProxy
    } else if index == 2 {
        MenuChoice::Overlay
    } else {
        MenuChoice::Direct
    }
}

/// Law: with the overlay flag set, a run is in overlay mode — and so every
/// attempt of the run is routed through the fixed overlay endpoint —
/// regardless of the interactive choice and of the proxy list.
pub proof fn lemma_overlay_flag_wins(choice: MenuChoice, proxy_count: nat)
    ensures
        mode_of(true, choice, proxy_count) is Overlay,
{
}

/// The path one attempt takes: straight to the target, through the proxy
/// at an index of the proxy list, or through the fixed overlay endpoint.
#[derive(Clone, Copy, Debug, PartialEq, Eq, Structural)]
pub enum Route {
    Direct,
    Proxied(usize),
    Overlay,
}

/// Draw the relay for one attempt.  In forward-proxy mode the proxy index
/// is drawn fresh from the whole list — no stickiness, no failover; in the
/// other modes the route is fixed by the mode alone.
pub fn choose_route(mode: TransportMode, proxy_count: usize) -> (r: Route)
    requires
        mode is ForwardProxy ==> proxy_count > 0,
    ensures
        mode is Direct <==> r is Direct,
        mode is Overlay <==> r is Overlay,
        mode is ForwardProxy ==> (r matches Route::Proxied(i) && i < proxy_count),
{
    match mode {
        TransportMode::Direct => Route::Direct,
        TransportMode::Overlay => Route::Overlay,
        TransportMode::ForwardProxy => {
            let draw = sample_range_u64(0, proxy_count as u64);
            Route::Proxied(draw as usize)
        },
    }
}

/// The address a channel is opened to: the host followed by the remote
/// shell port.
pub open spec fn addr_of(host: Seq<char>) -> Seq<char> {
    host + seq![':', '2', '2']
}

/// Render the connect address of a target host.
pub fn target_addr(host: &str) -> (r: String)
    ensures
        r@ == addr_of(host@),
{
    let mut s = host.to_owned();
    s.append(TARGET_PORT_SUFFIX);
    proof {
        reveal_strlit(":22");
        assert(TARGET_PORT_SUFFIX@ =~= seq![':', '2', '2']);
    }
    s
}

} // verus!
