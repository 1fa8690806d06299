//! Choosing Black Magic Probes among the USB devices on the host: a device is a probe when its
//! identity names a platform, and it is selected when it meets every criterion given (index
//! among the probes, serial number, port).
use vstd::prelude::*;

use crate::bmp::spec_from_vid_pid;
use crate::bmp::BmpPlatform;
use crate::error::ErrorKind;
use crate::usb::{Pid, PortId, Vid};
use crate::BmpParams;

verus! {

/// Criteria that select Black Magic Probes; a criterion not given matches every probe.
#[derive(Debug)]
pub struct BmpMatcher {
    index: Option<usize>,
    serial: Option<String>,
    port: Option<PortId>,
}

/// Mathematical model of a [`BmpMatcher`]: the criteria given, a port by its bus and path.
pub struct BmpMatcherView {
    pub index: Option<usize>,
    pub serial: Option<Seq<char>>,
    pub port: Option<(u8, Seq<char>)>,
}

/// The model of a port.
pub open spec fn port_view(p: PortId) -> (u8, Seq<char>) {
    (p.bus_number(), p.path_view())
}

/// The model of an optional port.
pub open spec fn opt_port_view(p: Option<PortId>) -> Option<(u8, Seq<char>)> {
    match p {
        Some(q) => Some(port_view(q)),
        None => None,
    }
}

/// The model of an optional string.
pub open spec fn opt_str_view(s: Option<&str>) -> Option<Seq<char>> {
    match s {
        Some(t) => Some(t@),
        None => None,
    }
}

impl View for BmpMatcher {
    type V = BmpMatcherView;

    closed spec fn view(&self) -> BmpMatcherView {
        BmpMatcherView {
            index: self.index,
            serial: match self.serial {
                Some(s) => Some(s@),
                None => None,
            },
            port: opt_port_view(self.port),
        }
    }
}

/// Whether a probe, the `index`-th among the probes found, with this serial number and port,
/// meets every criterion given.
pub open spec fn spec_probe_matches(
    m: BmpMatcherView,
    index: usize,
    serial: Option<Seq<char>>,
    port: (u8, Seq<char>),
) -> bool {
    &&& (m.index matches Some(i) ==> i == index)
    &&& (m.serial matches Some(s) ==> serial == Some(s))
    &&& (m.port matches Some(p) ==> p == port)
}

impl BmpMatcher {
    /// A matcher with no criteria: it selects every probe.
    pub fn new() -> (r: Self)
        ensures
            r@ == (BmpMatcherView { index: None, serial: None, port: None }),
    {
        BmpMatcher { index: None, serial: None, port: None }
    }

    /// A matcher that selects the probe at one port.
    pub fn new_with_port(port: PortId) -> (r: Self)
        ensures
            r@ == (BmpMatcherView { index: None, serial: None, port: Some(port_view(port)) }),
    {
        Self::new().port(Some(port))
    }

    /// A matcher with the index and serial number of command-line style parameters, and no port.
    pub fn from_params<Params: BmpParams>(params: &Params) -> (r: Self)
        ensures
            r@ == (BmpMatcherView { index: params.spec_index(), serial: opt_str_view(params.spec_serial_number()), port: None }),
    {
        Self::new().index(params.index()).serial(params.serial_number()).port(None)
    }

    /// Set the index to match against.
    pub fn index(self, idx: Option<usize>) -> (r: Self)
        ensures
            r@ == (BmpMatcherView { index: idx, serial: self@.serial, port: self@.port }),
    {
        BmpMatcher { index: idx, serial: self.serial, port: self.port }
    }

    /// Set the serial number to match against.
    pub fn serial(self, serial: Option<&str>) -> (r: Self)
        ensures
            r@ == (BmpMatcherView { index: self@.index, serial: opt_str_view(serial), port: self@.port }),
    {
        let serial = match serial {
            Some(s) => Some(s.to_owned()),
            None => None,
        };
        BmpMatcher { index: self.index, serial, port: self.port }
    }

    /// Set the port path to match against.
    pub fn port(self, port: Option<PortId>) -> (r: Self)
        ensures
            r@ == (BmpMatcherView { index: self@.index, serial: self@.serial, port: opt_port_view(port) }),
    {
        BmpMatcher { index: self.index, serial: self.serial, port }
    }

    /// Get any index previously set with `.index()`.
    pub fn get_index(&self) -> (r: Option<usize>)
        ensures
            r == self@.index,
    {
        self.index
    }

    /// Get any serial number previously set with `.serial()`.
    pub fn get_serial(&self) -> (r: Option<&str>)
        ensures
            opt_str_view(r) == self@.serial,
    {
        match &self.serial {
            Some(s) => Some(s.as_str()),
            None => None,
        }
    }

    /// Get any port path previously set with `.port()`.
    pub fn get_port(&self) -> (r: Option<PortId>)
        ensures
            opt_port_view(r) == self@.port,
    {
        match &self.port {
            Some(p) => Some(p.duplicate()),
            None => None,
        }
    }

    /// Whether a probe, the `index`-th among the probes found, meets every criterion given.
    pub fn probe_matches(&self, index: usize, serial: Option<&str>, port: &PortId) -> (r: bool)
        ensures
            r == spec_probe_matches(self@, index, opt_str_view(serial), port_view(*port)),
    {
        let serial_matches = match &self.serial {
            None => true,
            Some(s) => match serial {
                None => false,
                Some(t) => crate::text::str_eq(s.as_str(), t),
            },
        };
        let index_matches = match self.index {
            None => true,
            Some(needle) => needle == index,
        };
        let port_matches = match &self.port {
            None => true,
            Some(p) => p.eq(port),
        };
        index_matches && port_matches && serial_matches
    }
}

/// A USB device on the host, as the matcher sees it.
pub struct UsbCandidate {
    pub vid: u16,
    pub pid: u16,
    pub serial: Option<String>,
    pub port: PortId,
}

/// Mathematical model of a [`UsbCandidate`].
pub struct UsbCandidateView {
    pub vid: u16,
    pub pid: u16,
    pub serial: Option<Seq<char>>,
    pub port: (u8, Seq<char>),
}

impl View for UsbCandidate {
    type V = UsbCandidateView;

    open spec fn view(&self) -> UsbCandidateView {
        UsbCandidateView {
            vid: self.vid,
            pid: self.pid,
            serial: match self.serial {
                Some(s) => Some(s@),
                None => None,
            },
            port: port_view(self.port),
        }
    }
}

/// What became of a USB device in a search for probes.
#[derive(Debug, Clone, Copy, PartialEq, Eq, Structural)]
pub enum ProbeMatch {
    /// Not a Black Magic Probe: its identity names no platform.
    NotAProbe,
    /// A probe that fails a criterion.
    FilteredOut,
    /// A probe that meets every criterion.
    Selected,
}

/// Whether a device is a Black Magic Probe.
pub open spec fn is_probe(d: UsbCandidateView) -> bool {
    spec_from_vid_pid(Vid(d.vid), Pid(d.pid)) is Some
}

/// How many of the first `k` devices are probes.
pub open spec fn probes_before(ds: Seq<UsbCandidateView>, k: int) -> nat
    decreases k,
{
    if k <= 0 {
        0
    } else {
        probes_before(ds, k - 1) + if is_probe(ds[k - 1]) {
            1nat
        } else {
            0nat
        }
    }
}

/// What becomes of the `k`-th device: probes are numbered in order among the probes alone.
pub open spec fn spec_classify(m: BmpMatcherView, ds: Seq<UsbCandidateView>, k: int) -> ProbeMatch {
    if !is_probe(ds[k]) {
        ProbeMatch::NotAProbe
    } else if spec_probe_matches(m, probes_before(ds, k) as usize, ds[k].serial, ds[k].port) {
        ProbeMatch::Selected
    } else {
        ProbeMatch::FilteredOut
    }
}

/// The models of some devices.
pub open spec fn candidates_view(v: Seq<UsbCandidate>) -> Seq<UsbCandidateView> {
    v.map_values(|d: UsbCandidate| d@)
}

impl BmpMatcher {
    /// Decides, device by device, which of the host's USB devices are probes and which of those
    /// meet the criteria.
    pub fn classify(&self, devices: &[UsbCandidate]) -> (r: Vec<ProbeMatch>)
        ensures
            r@.len() == devices@.len(),
            forall|k: int| 0 <= k < devices@.len() ==> r@[k] == #[trigger] spec_classify(
                self@,
                candidates_view(devices@),
                k,
            ),
    {
        let ghost ds = candidates_view(devices@);
        let mut r: Vec<ProbeMatch> = Vec::new();
        let mut probes: usize = 0;
        let mut k: usize = 0;
        while k < devices.len()
            invariant
                k <= devices@.len(),
                ds == candidates_view(devices@),
                r@.len() == k,
                probes as nat == probes_before(ds, k as int),
                probes <= k,
                forall|j: int| 0 <= j < k ==> r@[j] == #[trigger] spec_classify(self@, ds, j),
            decreases devices@.len() - k,
        {
            let d = &devices[k];
            assert(ds[k as int] == d@);
            let is_bmp = match BmpPlatform::from_vid_pid(Vid(d.vid), Pid(d.pid)) {
                Some(_) => true,
                None => false,
            };
            let serial = match &d.serial {
                Some(s) => Some(s.as_str()),
                None => None,
            };
            let outcome = if !is_bmp {
                ProbeMatch::NotAProbe
            } else if self.probe_matches(probes, serial, &d.port) {
                ProbeMatch::Selected
            } else {
                ProbeMatch::FilteredOut
            };
            r.push(outcome);
            if is_bmp {
                probes = probes + 1;
            }
            k = k + 1;
        }
        r
    }
}

/// What a search for probes found: the selected probes, the probes filtered out, and the errors
/// met on the way.
pub struct BmpMatchResults<D, F, E> {
    pub found: Vec<D>,
    pub filtered_out: Vec<F>,
    pub errors: Vec<E>,
}

impl<D, F, E> BmpMatchResults<D, F, E> {
    /// Takes all the selected probes; it is an error that there is none, and then the probes
    /// filtered out are dropped too.
    pub fn pop_all(&mut self) -> (r: Result<Vec<D>, ErrorKind>)
        ensures
            old(self).found@.len() == 0 ==> {
                &&& r == Err::<Vec<D>, ErrorKind>(ErrorKind::DeviceNotFound)
                &&& final(self).found@.len() == 0
                &&& final(self).filtered_out@.len() == 0
                &&& final(self).errors@ == old(self).errors@
            },
            old(self).found@.len() > 0 ==> {
                &&& r matches Ok(v) && v@ == old(self).found@
                &&& final(self).found@.len() == 0
                &&& final(self).filtered_out@ == old(self).filtered_out@
                &&& final(self).errors@ == old(self).errors@
            },
    {
        if self.found.len() == 0 {
            self.filtered_out.clear();
            Err(ErrorKind::DeviceNotFound)
        } else {
            let mut taken: Vec<D> = Vec::new();
            std::mem::swap(&mut taken, &mut self.found);
            Ok(taken)
        }
    }

    /// Takes the one selected probe: it is an error that there is none or more than one, and
    /// then nothing changes. What `operation` names only serves the caller's reports.
    pub fn pop_single(&mut self, operation: &str) -> (r: Result<D, ErrorKind>)
        ensures
            old(self).found@.len() == 0 ==> {
                &&& r == Err::<D, ErrorKind>(ErrorKind::DeviceNotFound)
                &&& final(self).found@ == old(self).found@
                &&& final(self).filtered_out@ == old(self).filtered_out@
                &&& final(self).errors@ == old(self).errors@
            },
            old(self).found@.len() == 1 ==> {
                &&& r == Ok::<D, ErrorKind>(old(self).found@[0])
                &&& final(self).found@.len() == 0
                &&& final(self).filtered_out@ == old(self).filtered_out@
                &&& final(self).errors@ == old(self).errors@
            },
            old(self).found@.len() > 1 ==> {
                &&& r == Err::<D, ErrorKind>(ErrorKind::TooManyDevices)
                &&& final(self).found@ == old(self).found@
                &&& final(self).filtered_out@ == old(self).filtered_out@
                &&& final(self).errors@ == old(self).errors@
            },
    {
        self.pop_single_silent()
    }

    /// Like `pop_single()`, for callers that report nothing of the edge cases.
    pub fn pop_single_silent(&mut self) -> (r: Result<D, ErrorKind>)
        ensures
            old(self).found@.len() == 0 ==> {
                &&& r == Err::<D, ErrorKind>(ErrorKind::DeviceNotFound)
                &&& final(self).found@ == old(self).found@
                &&& final(self).filtered_out@ == old(self).filtered_out@
                &&& final(self).errors@ == old(self).errors@
            },
            old(self).found@.len() == 1 ==> {
                &&& r == Ok::<D, ErrorKind>(old(self).found@[0])
                &&& final(self).found@.len() == 0
                &&& final(self).filtered_out@ == old(self).filtered_out@
                &&& final(self).errors@ == old(self).errors@
            },
            old(self).found@.len() > 1 ==> {
                &&& r == Err::<D, ErrorKind>(ErrorKind::TooManyDevices)
                &&& final(self).found@ == old(self).found@
                &&& final(self).filtered_out@ == old(self).filtered_out@
                &&& final(self).errors@ == old(self).errors@
            },
    {
        let n = self.found.len();
        if n == 0 {
            Err(ErrorKind::DeviceNotFound)
        } else if n == 1 {
            Ok(self.found.remove(0))
        } else {
            Err(ErrorKind::TooManyDevices)
        }
    }
}

/// A matcher with no criteria selects every probe, and only probes.
pub proof fn law_unfiltered_selects_all_probes(ds: Seq<UsbCandidateView>, k: int)
    requires
        0 <= k < ds.len(),
    ensures
        spec_classify(BmpMatcherView { index: None, serial: None, port: None }, ds, k) == if is_probe(ds[k]) {
            ProbeMatch::Selected
        } else {
            ProbeMatch::NotAProbe
        },
{
}

/// Past a probe the count of probes has grown.
proof fn lemma_probes_before_grows(ds: Seq<UsbCandidateView>, a: int, b: int)
    requires
        0 <= a < b <= ds.len(),
        is_probe(ds[a]),
    ensures
        probes_before(ds, b) >= probes_before(ds, a) + 1,
        probes_before(ds, b) <= b,
    decreases b - a,
{
    if b > a + 1 {
        lemma_probes_before_grows(ds, a, b - 1);
    }
    lemma_probes_before_bounded(ds, b);
}

/// There are no more probes before a position than devices.
proof fn lemma_probes_before_bounded(ds: Seq<UsbCandidateView>, k: int)
    requires
        0 <= k,
    ensures
        probes_before(ds, k) <= k,
    decreases k,
{
    if k > 0 {
        lemma_probes_before_bounded(ds, k - 1);
    }
}

/// Matching by index selects at most one device: the probe with that number among the probes.
pub proof fn law_index_selects_at_most_one(m: BmpMatcherView, ds: Seq<UsbCandidateView>, k1: int, k2: int)
    requires
        m.index is Some,
        0 <= k1 < k2 < ds.len(),
        ds.len() <= usize::MAX,
    ensures
        !(spec_classify(m, ds, k1) == ProbeMatch::Selected && spec_classify(m, ds, k2) == ProbeMatch::Selected),
{
    if spec_classify(m, ds, k1) == ProbeMatch::Selected && spec_classify(m, ds, k2) == ProbeMatch::Selected {
        lemma_probes_before_grows(ds, k1, k2);
        lemma_probes_before_bounded(ds, k1);
        assert(probes_before(ds, k1) as usize == probes_before(ds, k1));
        assert(probes_before(ds, k2) as usize == probes_before(ds, k2));
    }
}

} // verus!
