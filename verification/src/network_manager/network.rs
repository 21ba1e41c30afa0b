//! What the daemon reports about networks: the ones in range and the ones it remembers.

use vstd::prelude::*;
use crate::text::{contains, occurs_in};

verus! {

/// A network seen by a scan.
#[derive(Debug, PartialEq, Eq)]
pub struct ScanResult {
    pub mac: String,
    pub frequency: String,
    pub signal: isize,
    pub flags: String,
    pub name: String,
}

/// A scan entry as plain values.
pub struct ScanResultView {
    pub mac: Seq<char>,
    pub frequency: Seq<char>,
    pub signal: int,
    pub flags: Seq<char>,
    pub name: Seq<char>,
}

impl View for ScanResult {
    type V = ScanResultView;

    open spec fn view(&self) -> ScanResultView {
        ScanResultView {
            mac: self.mac@,
            frequency: self.frequency@,
            signal: self.signal as int,
            flags: self.flags@,
            name: self.name@,
        }
    }
}

impl DeepView for ScanResult {
    type V = ScanResultView;

    open spec fn deep_view(&self) -> ScanResultView {
        self@
    }
}

impl Clone for ScanResult {
    fn clone(&self) -> (copy: Self)
        ensures
            copy == *self,
    {
        ScanResult {
            mac: self.mac.clone(),
            frequency: self.frequency.clone(),
            signal: self.signal,
            flags: self.flags.clone(),
            name: self.name.clone(),
        }
    }
}

/// A network that the daemon remembers. Its `network_id` means something only to the
/// daemon session that reported it.
#[derive(Debug, PartialEq, Eq)]
pub struct NetworkResult {
    pub network_id: usize,
    pub ssid: String,
    pub flags: String,
}

/// A remembered network as plain values.
pub struct NetworkResultView {
    pub network_id: usize,
    pub ssid: Seq<char>,
    pub flags: Seq<char>,
}

impl View for NetworkResult {
    type V = NetworkResultView;

    open spec fn view(&self) -> NetworkResultView {
        NetworkResultView { network_id: self.network_id, ssid: self.ssid@, flags: self.flags@ }
    }
}

impl DeepView for NetworkResult {
    type V = NetworkResultView;

    open spec fn deep_view(&self) -> NetworkResultView {
        self@
    }
}

impl Clone for NetworkResult {
    fn clone(&self) -> (copy: Self)
        ensures
            copy == *self,
    {
        NetworkResult {
            network_id: self.network_id,
            ssid: self.ssid.clone(),
            flags: self.flags.clone(),
        }
    }
}

/// The marker that the daemon puts among the flags of the remembered network that it is
/// associated with.
pub open spec fn current_flags() -> Seq<char> {
    "[CURRENT]"@
}

impl NetworkResultView {
    /// The daemon marks this network as the one it is associated with: its flags hold the
    /// marker, alone or beside others.
    pub open spec fn is_current(self) -> bool {
        occurs_in(self.flags, current_flags())
    }
}

impl NetworkResult {
    /// Whether the daemon marks this network as the one it is associated with.
    pub fn is_current(&self) -> (current: bool)
        ensures
            current == self@.is_current(),
    {
        contains(self.flags.as_str(), "[CURRENT]")
    }
}

/// `i` is the first position in `known` whose ssid is `ssid`.
pub open spec fn first_with_ssid(known: Seq<NetworkResultView>, ssid: Seq<char>, i: int) -> bool {
    &&& 0 <= i < known.len()
    &&& known[i].ssid == ssid
    &&& forall|j: int| 0 <= j < i ==> (#[trigger] known[j]).ssid != ssid
}

/// Some remembered network has this ssid.
pub open spec fn knows_ssid(known: Seq<NetworkResultView>, ssid: Seq<char>) -> bool {
    exists|i: int| 0 <= i < known.len() && (#[trigger] known[i]).ssid == ssid
}

/// The id of the first remembered network with this ssid, if there is one.
pub open spec fn known_id(known: Seq<NetworkResultView>, ssid: Seq<char>) -> Option<usize> {
    if knows_ssid(known, ssid) {
        Some(known[choose|i: int| first_with_ssid(known, ssid, i)].network_id)
    } else {
        None
    }
}

/// The first position with an ssid is the only one that is first.
pub proof fn lemma_known_id(known: Seq<NetworkResultView>, ssid: Seq<char>, i: int)
    requires
        first_with_ssid(known, ssid, i),
    ensures
        knows_ssid(known, ssid),
        known_id(known, ssid) == Some(known[i].network_id),
{
    let chosen = choose|k: int| first_with_ssid(known, ssid, k);
    assert(first_with_ssid(known, ssid, chosen));
    if chosen < i {
        assert(known[chosen].ssid != ssid);
    }
    if i < chosen {
        assert(known[i].ssid != ssid);
    }
}

/// `i` is the first position in `known` that is marked current.
pub open spec fn first_current(known: Seq<NetworkResultView>, i: int) -> bool {
    &&& 0 <= i < known.len()
    &&& known[i].is_current()
    &&& forall|j: int| 0 <= j < i ==> !(#[trigger] known[j]).is_current()
}

/// Some remembered network is marked current.
pub open spec fn has_current(known: Seq<NetworkResultView>) -> bool {
    exists|i: int| 0 <= i < known.len() && (#[trigger] known[i]).is_current()
}

/// `i` is the first position in `scan` whose name is `name`.
pub open spec fn first_with_name(scan: Seq<ScanResultView>, name: Seq<char>, i: int) -> bool {
    &&& 0 <= i < scan.len()
    &&& scan[i].name == name
    &&& forall|j: int| 0 <= j < i ==> (#[trigger] scan[j]).name != name
}

/// Some scan entry has this name.
pub open spec fn in_range(scan: Seq<ScanResultView>, name: Seq<char>) -> bool {
    exists|i: int| 0 <= i < scan.len() && (#[trigger] scan[i]).name == name
}

/// The ssid of the first remembered network that is marked current, if there is one.
pub open spec fn current_ssid(known: Seq<NetworkResultView>) -> Option<Seq<char>> {
    if has_current(known) {
        Some(known[choose|i: int| first_current(known, i)].ssid)
    } else {
        None
    }
}

/// The first position that is marked current is the only one that is first.
pub proof fn lemma_current_ssid(known: Seq<NetworkResultView>, i: int)
    requires
        first_current(known, i),
    ensures
        has_current(known),
        current_ssid(known) == Some(known[i].ssid),
{
    let chosen = choose|k: int| first_current(known, k);
    assert(first_current(known, chosen));
    if chosen < i {
        assert(!known[chosen].is_current());
    }
    if i < chosen {
        assert(!known[i].is_current());
    }
}

/// The first scan entry with this name, if there is one.
pub open spec fn seen_as(scan: Seq<ScanResultView>, name: Seq<char>) -> Option<ScanResultView> {
    if in_range(scan, name) {
        Some(scan[choose|i: int| first_with_name(scan, name, i)])
    } else {
        None
    }
}

/// The first position with a name is the only one that is first.
pub proof fn lemma_seen_as(scan: Seq<ScanResultView>, name: Seq<char>, i: int)
    requires
        first_with_name(scan, name, i),
    ensures
        in_range(scan, name),
        seen_as(scan, name) == Some(scan[i]),
{
    let chosen = choose|k: int| first_with_name(scan, name, k);
    assert(first_with_name(scan, name, chosen));
    if chosen < i {
        assert(scan[chosen].name != name);
    }
    if i < chosen {
        assert(scan[i].name != name);
    }
}

/// Finds the first remembered network with the given ssid.
pub fn find_known(known: &Vec<NetworkResult>, ssid: &str) -> (found: Option<usize>)
    ensures
        match found {
            Some(i) => first_with_ssid(known.deep_view(), ssid@, i as int),
            None => !knows_ssid(known.deep_view(), ssid@),
        },
{
    let mut i: usize = 0;
    while i < known.len()
        invariant
            i <= known.len(),
            forall|j: int| 0 <= j < i ==> (#[trigger] known.deep_view()[j]).ssid != ssid@,
        decreases known.len() - i,
    {
        if known[i].ssid.as_str().eq(ssid) {
            return Some(i);
        }
        i += 1;
    }
    None
}

/// Finds the first remembered network that is marked current.
pub fn find_current(known: &Vec<NetworkResult>) -> (found: Option<usize>)
    ensures
        match found {
            Some(i) => first_current(known.deep_view(), i as int),
            None => !has_current(known.deep_view()),
        },
{
    let mut i: usize = 0;
    while i < known.len()
        invariant
            i <= known.len(),
            forall|j: int| 0 <= j < i ==> !(#[trigger] known.deep_view()[j]).is_current(),
        decreases known.len() - i,
    {
        if known[i].is_current() {
            return Some(i);
        }
        i += 1;
    }
    None
}

/// Finds the first scan entry with the given name.
pub fn find_in_range(scan: &Vec<ScanResult>, name: &str) -> (found: Option<usize>)
    ensures
        match found {
            Some(i) => first_with_name(scan.deep_view(), name@, i as int),
            None => !in_range(scan.deep_view(), name@),
        },
{
    let mut i: usize = 0;
    while i < scan.len()
        invariant
            i <= scan.len(),
            forall|j: int| 0 <= j < i ==> (#[trigger] scan.deep_view()[j]).name != name@,
        decreases scan.len() - i,
    {
        if scan[i].name.as_str().eq(name) {
            return Some(i);
        }
        i += 1;
    }
    None
}

} // verus!
