//! Arithmetic of the status sampler: which network interface is watched, and
//! what two readings of its counters, taken one sample window apart, say
//! about throughput.

use vstd::prelude::*;
use vstd::string::StringExecFns;

verus! {

/// Length of the sample window, in milliseconds.
pub const SAMPLE_WINDOW_MS: u64 = 1000;

/// Elapsed time reported when the clock cannot be read, in milliseconds.
pub const FALLBACK_ELAPSED_MS: u64 = 1500;

/// One past the largest elapsed time a report can carry.
pub const ELAPSED_MODULUS: u128 = 0x1_0000_0000_0000_0000;

/// Cumulative byte counters of one network interface at one instant.
#[derive(Clone, Copy, Debug, PartialEq, Eq, Structural)]
pub struct NetSample {
    pub rx_bytes: u64,
    pub tx_bytes: u64,
}

/// Bytes received and transmitted over `time` milliseconds.
#[derive(Clone, Copy, Debug, PartialEq, Eq, Structural)]
pub struct NetTraffic {
    pub time: u64,
    pub rx_bytes: u64,
    pub tx_bytes: u64,
}

/// Name of the loopback interface.
pub open spec fn loopback() -> Seq<char> {
    "lo"@
}

/// Name of the interface assumed when none can be chosen.
pub open spec fn fallback_interface() -> Seq<char> {
    "eth0"@
}

/// `i` is the position of the first name in `names` that is not the loopback
/// interface.
pub open spec fn is_first_non_loopback(names: Seq<Seq<char>>, i: int) -> bool {
    &&& 0 <= i < names.len()
    &&& names[i] != loopback()
    &&& forall|j: int| 0 <= j < i ==> names[j] == loopback()
}

/// Every name in `names` is the loopback interface.
pub open spec fn all_loopback(names: Seq<Seq<char>>) -> bool {
    forall|j: int| 0 <= j < names.len() ==> names[j] == loopback()
}

/// The names of `names`, each as its characters.
pub open spec fn name_views(names: Seq<String>) -> Seq<Seq<char>> {
    names.map_values(|s: String| s@)
}

/// The counters never ran backwards between `first` and `second`.
pub open spec fn counters_advance(first: NetSample, second: NetSample) -> bool {
    first.rx_bytes <= second.rx_bytes && first.tx_bytes <= second.tx_bytes
}

/// The elapsed time a report carries for a clock reading of `elapsed`
/// milliseconds, or for a failed reading.
pub open spec fn reported_elapsed(elapsed: Option<u128>) -> int {
    match elapsed {
        Some(ms) => ms as int % (ELAPSED_MODULUS as int),
        None => FALLBACK_ELAPSED_MS as int,
    }
}

/// Position of the interface whose traffic is sampled: the first one that is
/// not the loopback interface. `None` when there is no such interface.
pub fn pick_interface(names: &Vec<String>) -> (r: Option<usize>)
    ensures
        match r {
            Some(i) => is_first_non_loopback(name_views(names@), i as int),
            None => all_loopback(name_views(names@)),
        },
{
    let lo = String::from_str("lo");
    let mut i: usize = 0;
    while i < names.len()
        invariant
            i <= names.len(),
            lo@ == loopback(),
            forall|j: int| 0 <= j < i ==> name_views(names@)[j] == loopback(),
        decreases names.len() - i,
    {
        if !(names[i] == lo) {
            return Some(i);
        }
        i += 1;
    }
    None
}

/// The interface whose counters are read: the first enumerated interface
/// that is not the loopback interface. `None` when the enumeration failed or
/// holds no such interface; no counters are read then.
pub fn watched_interface(names: Option<&Vec<String>>) -> (r: Option<String>)
    ensures
        match names {
            Some(names) => match r {
                Some(name) => exists|i: int|
                    is_first_non_loopback(name_views(names@), i) && name@ == names@[i]@,
                None => all_loopback(name_views(names@)),
            },
            None => r is None,
        },
{
    match names {
        Some(names) => match pick_interface(names) {
            Some(i) => Some(names[i].clone()),
            None => None,
        },
        None => None,
    }
}

/// Name of the interface taken to face the network: the watched one, or
/// `eth0` when there is none.
pub fn internet_interface(names: Option<&Vec<String>>) -> (r: String)
    ensures
        match names {
            Some(names) => {
                if all_loopback(name_views(names@)) {
                    r@ == fallback_interface()
                } else {
                    exists|i: int|
                        is_first_non_loopback(name_views(names@), i) && r@ == names@[i]@
                }
            },
            None => r@ == fallback_interface(),
        },
{
    match watched_interface(names) {
        Some(name) => name,
        None => String::from_str("eth0"),
    }
}

/// Elapsed milliseconds to report: the clock reading cut to 64 bits, or the
/// fallback when the clock could not be read.
pub fn elapsed_millis(elapsed: Option<u128>) -> (r: u64)
    ensures
        r == reported_elapsed(elapsed),
{
    match elapsed {
        Some(ms) => (ms % ELAPSED_MODULUS) as u64,
        None => FALLBACK_ELAPSED_MS,
    }
}

/// Traffic between two readings of one interface's counters taken
/// `elapsed_ms` milliseconds apart.
pub fn traffic_between(first: NetSample, second: NetSample, elapsed_ms: u64) -> (r: NetTraffic)
    requires
        counters_advance(first, second),
    ensures
        r.time == elapsed_ms,
        r.rx_bytes == second.rx_bytes - first.rx_bytes,
        r.tx_bytes == second.tx_bytes - first.tx_bytes,
{
    NetTraffic {
        time: elapsed_ms,
        rx_bytes: second.rx_bytes - first.rx_bytes,
        tx_bytes: second.tx_bytes - first.tx_bytes,
    }
}

/// The traffic that a status report carries for the two readings and the
/// clock reading: the difference of the counters over the elapsed time where
/// both readings are there and the counters did not run backwards, and
/// nothing otherwise.
pub open spec fn reported_traffic(
    first: Option<NetSample>,
    second: Option<NetSample>,
    elapsed: Option<u128>,
) -> Option<NetTraffic> {
    match (first, second) {
        (Some(a), Some(b)) => if counters_advance(a, b) {
            Some(
                NetTraffic {
                    time: reported_elapsed(elapsed) as u64,
                    rx_bytes: (b.rx_bytes - a.rx_bytes) as u64,
                    tx_bytes: (b.tx_bytes - a.tx_bytes) as u64,
                },
            )
        } else {
            None
        },
        _ => None,
    }
}

/// The network part of a status report. `first` is the reading taken before
/// the sample window and `second` the one taken after it; either is `None`
/// when the interface could not be read. No traffic is reported then, nor
/// when a counter ran backwards between the readings.
pub fn net_traffic(
    first: Option<NetSample>,
    second: Option<NetSample>,
    elapsed: Option<u128>,
) -> (r: Option<NetTraffic>)
    ensures
        r == reported_traffic(first, second, elapsed),
{
    match (first, second) {
        (Some(a), Some(b)) => {
            if a.rx_bytes <= b.rx_bytes && a.tx_bytes <= b.tx_bytes {
                Some(traffic_between(a, b, elapsed_millis(elapsed)))
            } else {
                None
            }
        },
        _ => None,
    }
}

} // verus!
