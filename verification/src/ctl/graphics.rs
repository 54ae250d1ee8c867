//! The host graphics path: which DRM cards, drivers, render nodes and Mesa
//! libraries the host exposes, and whether that qualifies it. This stays below
//! the GSP Online boundary: an ordinary vendor driver or a simulator never
//! becomes a Hermes Online session here.

use vstd::prelude::*;
use vstd::string::*;

use crate::nvml::parse::{spec_trim, trim_bounds};
use crate::sort::{sort_by_name, spec_stable_placement, spec_str_le, NamedRecord};
use crate::text::{append_decimal, append_hex, spec_decimal, spec_hex_digits, str_eq, str_starts_with};

verus! {

#[derive(Clone, Copy, Debug, PartialEq, Eq, Structural)]
pub enum GraphicsVendor {
    Nvidia,
    Amd,
    Intel,
    Other(u16),
}

pub open spec fn spec_vendor_name(v: GraphicsVendor) -> Seq<char> {
    match v {
        GraphicsVendor::Nvidia => "nvidia"@,
        GraphicsVendor::Amd => "amd"@,
        GraphicsVendor::Intel => "intel"@,
        GraphicsVendor::Other(_) => "other"@,
    }
}

impl GraphicsVendor {
    pub fn from_pci_id(id: u16) -> (v: Self)
        ensures
            v == (if id == 0x10de {
                GraphicsVendor::Nvidia
            } else if id == 0x1002 {
                GraphicsVendor::Amd
            } else if id == 0x8086 {
                GraphicsVendor::Intel
            } else {
                GraphicsVendor::Other(id)
            }),
    {
        if id == 0x10de {
            GraphicsVendor::Nvidia
        } else if id == 0x1002 {
            GraphicsVendor::Amd
        } else if id == 0x8086 {
            GraphicsVendor::Intel
        } else {
            GraphicsVendor::Other(id)
        }
    }

    pub fn name(self) -> (s: &'static str)
        ensures
            s@ == spec_vendor_name(self),
    {
        match self {
            GraphicsVendor::Nvidia => "nvidia",
            GraphicsVendor::Amd => "amd",
            GraphicsVendor::Intel => "intel",
            GraphicsVendor::Other(_) => "other",
        }
    }
}

/// One DRM card: its PCI vendor and device, bound driver, device node and
/// whether it opens, and its connectors.
#[derive(Clone, Debug)]
pub struct GraphicsAdapter {
    pub card: String,
    pub vendor: GraphicsVendor,
    pub vendor_id: u16,
    pub device_id: Option<u16>,
    pub driver: Option<String>,
    pub card_node: String,
    pub card_access: bool,
    pub connected_outputs: usize,
    pub output_count: usize,
}

/// What a graphics probe saw.
#[derive(Clone, Debug)]
pub struct GraphicsReport {
    pub adapters: Vec<GraphicsAdapter>,
    pub render_nodes: usize,
    pub accessible_render_nodes: usize,
    pub mesa_library: Option<String>,
    pub session_type: Option<String>,
    pub session_display: Option<String>,
}

/// Connected outputs of the first `n` adapters.
pub open spec fn spec_outputs_sum(adapters: Seq<GraphicsAdapter>, n: int) -> int
    decreases n,
{
    if n <= 0 {
        0
    } else {
        spec_outputs_sum(adapters, n - 1) + adapters[n - 1].connected_outputs
    }
}

/// The vendor names of the first `n` adapters, each once, in order of first
/// appearance.
pub open spec fn spec_vendor_list(adapters: Seq<GraphicsAdapter>, n: int) -> Seq<Seq<char>>
    decreases n,
{
    if n <= 0 {
        Seq::empty()
    } else {
        let prev = spec_vendor_list(adapters, n - 1);
        let name = spec_vendor_name(adapters[n - 1].vendor);
        if prev.contains(name) {
            prev
        } else {
            prev.push(name)
        }
    }
}

/// `pieces` joined by `sep`.
pub open spec fn spec_join(pieces: Seq<Seq<char>>, sep: Seq<char>) -> Seq<char>
    decreases pieces.len(),
{
    if pieces.len() == 0 {
        Seq::empty()
    } else if pieces.len() == 1 {
        pieces[0]
    } else {
        spec_join(pieces.drop_last(), sep) + sep + pieces.last()
    }
}

/// An adapter that gives a usable graphics path: a bound driver, an openable
/// card node, and a render node or a connected output.
pub open spec fn spec_adapter_usable(a: GraphicsAdapter, accessible_render_nodes: usize) -> bool {
    a.driver is Some && a.card_access && (accessible_render_nodes > 0 || a.connected_outputs > 0)
}

impl GraphicsReport {
    pub open spec fn spec_graphics_host_ready(self) -> bool {
        exists|i: int|
            0 <= i < self.adapters@.len() && spec_adapter_usable(
                #[trigger] self.adapters@[i],
                self.accessible_render_nodes,
            )
    }

    pub open spec fn spec_drm_kms_ready(self) -> bool {
        self.adapters@.len() > 0 && forall|i: int|
            0 <= i < self.adapters@.len() ==> (#[trigger] self.adapters@[i]).driver is Some
                && self.adapters@[i].card_access
    }

    pub open spec fn spec_mesa_ready(self) -> bool {
        self.spec_graphics_host_ready() && self.mesa_library is Some
    }

    pub fn drm_cards(&self) -> (n: usize)
        ensures
            n == self.adapters@.len(),
    {
        self.adapters.len()
    }

    /// Connected outputs over all cards.
    pub fn connected_outputs(&self) -> (n: usize)
        requires
            spec_outputs_sum(self.adapters@, self.adapters@.len() as int) <= usize::MAX,
        ensures
            n == spec_outputs_sum(self.adapters@, self.adapters@.len() as int),
    {
        let mut total: usize = 0;
        let mut i: usize = 0;
        while i < self.adapters.len()
            invariant
                i <= self.adapters@.len(),
                total == spec_outputs_sum(self.adapters@, i as int),
                spec_outputs_sum(self.adapters@, self.adapters@.len() as int) <= usize::MAX,
            decreases self.adapters@.len() - i,
        {
            proof {
                lemma_outputs_sum_monotone(self.adapters@, i + 1, self.adapters@.len() as int);
            }
            total = total + self.adapters[i].connected_outputs;
            i = i + 1;
        }
        total
    }

    /// A usable graphics path exists: some card has a bound driver, opens, and
    /// has a render node or a connected output.
    pub fn graphics_host_ready(&self) -> (ok: bool)
        ensures
            ok == self.spec_graphics_host_ready(),
    {
        let mut i: usize = 0;
        while i < self.adapters.len()
            invariant
                i <= self.adapters@.len(),
                forall|k: int|
                    0 <= k < i ==> !spec_adapter_usable(
                        #[trigger] self.adapters@[k],
                        self.accessible_render_nodes,
                    ),
            decreases self.adapters@.len() - i,
        {
            let a = &self.adapters[i];
            if a.driver.is_some() && a.card_access && (self.accessible_render_nodes > 0
                || a.connected_outputs > 0) {
                assert(spec_adapter_usable(self.adapters@[i as int], self.accessible_render_nodes));
                return true;
            }
            i = i + 1;
        }
        false
    }

    /// Kernel modesetting is ready: there is a card and every card has a bound
    /// driver and opens.
    pub fn drm_kms_ready(&self) -> (ok: bool)
        ensures
            ok == self.spec_drm_kms_ready(),
    {
        if self.adapters.len() == 0 {
            return false;
        }
        let mut i: usize = 0;
        while i < self.adapters.len()
            invariant
                i <= self.adapters@.len(),
                forall|k: int|
                    0 <= k < i ==> (#[trigger] self.adapters@[k]).driver is Some
                        && self.adapters@[k].card_access,
            decreases self.adapters@.len() - i,
        {
            if !(self.adapters[i].driver.is_some() && self.adapters[i].card_access) {
                return false;
            }
            i = i + 1;
        }
        true
    }

    /// Mesa is ready: a usable graphics path and a Mesa library.
    pub fn mesa_ready(&self) -> (ok: bool)
        ensures
            ok == self.spec_mesa_ready(),
    {
        self.graphics_host_ready() && self.mesa_library.is_some()
    }

    /// The vendor names of the cards, each once, in order of first appearance.
    pub fn vendors(&self) -> (names: Vec<&'static str>)
        ensures
            names@.len() == spec_vendor_list(self.adapters@, self.adapters@.len() as int).len(),
            forall|k: int|
                0 <= k < names@.len() ==> (#[trigger] names@[k])@ == spec_vendor_list(
                    self.adapters@,
                    self.adapters@.len() as int,
                )[k],
    {
        let mut names: Vec<&'static str> = Vec::new();
        let mut i: usize = 0;
        while i < self.adapters.len()
            invariant
                i <= self.adapters@.len(),
                names@.len() == spec_vendor_list(self.adapters@, i as int).len(),
                forall|k: int|
                    0 <= k < names@.len() ==> (#[trigger] names@[k])@ == spec_vendor_list(
                        self.adapters@,
                        i as int,
                    )[k],
            decreases self.adapters@.len() - i,
        {
            let name = self.adapters[i].vendor.name();
            let ghost prev = spec_vendor_list(self.adapters@, i as int);
            let mut seen = false;
            let mut k: usize = 0;
            while k < names.len()
                invariant
                    k <= names@.len(),
                    names@.len() == prev.len(),
                    forall|q: int| 0 <= q < names@.len() ==> (#[trigger] names@[q])@ == prev[q],
                    seen == exists|q: int| 0 <= q < k && prev[q] == name@,
                decreases names@.len() - k,
            {
                if str_eq(names[k], name) {
                    seen = true;
                }
                k = k + 1;
            }
            proof {
                if seen {
                    let q = choose|q: int| 0 <= q < names@.len() && prev[q] == name@;
                    assert(prev.contains(name@));
                } else {
                    assert(!prev.contains(name@));
                }
            }
            if !seen {
                names.push(name);
            }
            i = i + 1;
        }
        names
    }
}

proof fn lemma_outputs_sum_monotone(adapters: Seq<GraphicsAdapter>, i: int, n: int)
    requires
        0 <= i <= n,
    ensures
        spec_outputs_sum(adapters, i) <= spec_outputs_sum(adapters, n),
    decreases n - i,
{
    if i < n {
        lemma_outputs_sum_monotone(adapters, i, n - 1);
    }
}

pub open spec fn spec_pass(b: bool) -> Seq<char> {
    if b {
        "pass"@
    } else {
        "fail"@
    }
}

/// A session variable as reported: its value, or "none" when unset or empty.
pub open spec fn spec_session_value(v: Option<String>) -> Seq<char> {
    match v {
        Some(s) => if s@.len() > 0 {
            s@
        } else {
            "none"@
        },
        None => "none"@,
    }
}

/// The hardware the host report marks unavailable: AMD unless an AMD card is
/// present, and every vendor-specific path that this probe does not test.
pub open spec fn spec_unavailable(vendors: Seq<Seq<char>>) -> Seq<Seq<char>> {
    let tail = seq![
        "nvidia_gsp_online"@,
        "intel_hardware_online"@,
        "cuda"@,
        "mps"@,
        "uvm"@,
        "peermem"@,
        "fault_recovery"@,
        "soak"@,
    ];
    if vendors.contains("amd"@) {
        tail
    } else {
        seq!["amd"@] + tail
    }
}

pub open spec fn spec_tested_if(present: bool) -> Seq<char> {
    if present {
        "not-tested"@
    } else {
        "not-applicable"@
    }
}

/// The host qualification report: graphics, DRM and Mesa verdicts, every
/// vendor-specific path marked not tested, and the counts behind the verdicts.
pub open spec fn spec_qualification(r: GraphicsReport) -> Seq<char> {
    let vendors = spec_vendor_list(r.adapters@, r.adapters@.len() as int);
    let cards = spec_decimal(r.adapters@.len());
    "schema=hermes-hardware-host-v1\n"@ + "attestation=physical-gpu\n"@ + "simulation=0\n"@
        + "hardware_scope=host-graphics\n"@ + "graphics_host="@ + spec_pass(
        r.spec_graphics_host_ready(),
    ) + "\n"@ + "drm_kms="@ + spec_pass(r.spec_drm_kms_ready()) + "\n"@ + "mesa="@ + spec_pass(
        r.spec_mesa_ready(),
    ) + "\n"@ + "nvidia_online=not-tested\n"@ + "amd_online="@ + spec_tested_if(
        vendors.contains("amd"@),
    ) + "\n"@ + "intel_online="@ + spec_tested_if(vendors.contains("intel"@)) + "\n"@
        + "firmware_measurement=not-tested\n"@ + "gsp_boot=not-tested\n"@ + "cuda=not-tested\n"@
        + "nvml=not-tested\n"@ + "mps=not-tested\n"@ + "uvm=not-tested\n"@
        + "peermem=not-tested\n"@ + "fault_recovery=not-tested\n"@ + "soak=not-tested\n"@
        + "host_gpu_count="@ + cards + "\n"@ + "drm_cards="@ + cards + "\n"@ + "render_nodes="@
        + spec_decimal(r.render_nodes as nat) + "\n"@ + "accessible_render_nodes="@ + spec_decimal(
        r.accessible_render_nodes as nat,
    ) + "\n"@ + "connected_outputs="@ + spec_decimal(
        spec_outputs_sum(r.adapters@, r.adapters@.len() as int) as nat,
    ) + "\n"@ + "vendors="@ + spec_join(vendors, ","@) + "\n"@ + "hardware_unavailable="@
        + spec_join(spec_unavailable(vendors), ","@) + "\n"@ + "session_type="@ + spec_session_value(
        r.session_type,
    ) + "\n"@ + "session_display="@ + spec_session_value(r.session_display) + "\n"@
}

/// Appends `pieces` joined by `sep`.
fn append_joined(s: &mut String, pieces: &Vec<&'static str>, sep: &str)
    ensures
        final(s)@ == old(s)@ + spec_join(Seq::new(pieces@.len(), |i: int| pieces@[i]@), sep@),
{
    let ghost all = Seq::new(pieces@.len(), |i: int| pieces@[i]@);
    let mut k: usize = 0;
    while k < pieces.len()
        invariant
            k <= pieces@.len(),
            all == Seq::new(pieces@.len(), |i: int| pieces@[i]@),
            s@ == old(s)@ + spec_join(all.subrange(0, k as int), sep@),
        decreases pieces@.len() - k,
    {
        proof {
            assert(all.subrange(0, k + 1).drop_last() =~= all.subrange(0, k as int));
            assert(all.subrange(0, k + 1).last() == pieces@[k as int]@);
            if k == 0 {
                assert(all.subrange(0, 0) =~= Seq::<Seq<char>>::empty());
                assert(all.subrange(0, 1) =~= seq![pieces@[0]@]);
            }
        }
        if k > 0 {
            s.append(sep);
        }
        s.append(pieces[k]);
        k = k + 1;
    }
    proof {
        assert(all.subrange(0, pieces@.len() as int) =~= all);
    }
}

fn append_pass(s: &mut String, b: bool)
    ensures
        final(s)@ == old(s)@ + spec_pass(b),
{
    if b {
        s.append("pass");
    } else {
        s.append("fail");
    }
}

/// A session variable as reported: its value, or "none" when unset or empty.
pub fn session_value(v: &Option<String>) -> (s: &str)
    ensures
        s@ == spec_session_value(*v),
{
    match v {
        Some(x) => if x.as_str().unicode_len() > 0 {
            x.as_str()
        } else {
            "none"
        },
        None => "none",
    }
}

fn contains_name(names: &Vec<&'static str>, name: &str) -> (b: bool)
    ensures
        b == Seq::new(names@.len(), |i: int| names@[i]@).contains(name@),
{
    let ghost all = Seq::new(names@.len(), |i: int| names@[i]@);
    let mut k: usize = 0;
    while k < names.len()
        invariant
            k <= names@.len(),
            all == Seq::new(names@.len(), |i: int| names@[i]@),
            forall|q: int| 0 <= q < k ==> all[q] != name@,
        decreases names@.len() - k,
    {
        if str_eq(names[k], name) {
            assert(all[k as int] == name@);
            return true;
        }
        k = k + 1;
    }
    false
}

impl GraphicsReport {
    /// The host qualification report (see [`spec_qualification`]).
    pub fn qualification_text(&self) -> (text: String)
        requires
            spec_outputs_sum(self.adapters@, self.adapters@.len() as int) <= usize::MAX,
        ensures
            text@ == spec_qualification(*self),
    {
        let vendors = self.vendors();
        let ghost vlist = spec_vendor_list(self.adapters@, self.adapters@.len() as int);
        proof {
            assert(Seq::new(vendors@.len(), |i: int| vendors@[i]@) =~= vlist);
        }
        let has_amd = contains_name(&vendors, "amd");
        let has_intel = contains_name(&vendors, "intel");
        let mut t = String::from_str("schema=hermes-hardware-host-v1\n");
        t.append("attestation=physical-gpu\n");
        t.append("simulation=0\n");
        t.append("hardware_scope=host-graphics\n");
        t.append("graphics_host=");
        append_pass(&mut t, self.graphics_host_ready());
        t.append("\n");
        t.append("drm_kms=");
        append_pass(&mut t, self.drm_kms_ready());
        t.append("\n");
        t.append("mesa=");
        append_pass(&mut t, self.mesa_ready());
        t.append("\n");
        t.append("nvidia_online=not-tested\n");
        t.append("amd_online=");
        t.append(
            if has_amd {
                "not-tested"
            } else {
                "not-applicable"
            },
        );
        t.append("\n");
        t.append("intel_online=");
        t.append(
            if has_intel {
                "not-tested"
            } else {
                "not-applicable"
            },
        );
        t.append("\n");
        t.append("firmware_measurement=not-tested\n");
        t.append("gsp_boot=not-tested\n");
        t.append("cuda=not-tested\n");
        t.append("nvml=not-tested\n");
        t.append("mps=not-tested\n");
        t.append("uvm=not-tested\n");
        t.append("peermem=not-tested\n");
        t.append("fault_recovery=not-tested\n");
        t.append("soak=not-tested\n");
        t.append("host_gpu_count=");
        append_decimal(&mut t, self.drm_cards() as u64);
        t.append("\n");
        t.append("drm_cards=");
        append_decimal(&mut t, self.drm_cards() as u64);
        t.append("\n");
        t.append("render_nodes=");
        append_decimal(&mut t, self.render_nodes as u64);
        t.append("\n");
        t.append("accessible_render_nodes=");
        append_decimal(&mut t, self.accessible_render_nodes as u64);
        t.append("\n");
        t.append("connected_outputs=");
        append_decimal(&mut t, self.connected_outputs() as u64);
        t.append("\n");
        t.append("vendors=");
        append_joined(&mut t, &vendors, ",");
        t.append("\n");
        let mut unavailable: Vec<&'static str> = Vec::new();
        if !has_amd {
            unavailable.push("amd");
        }
        unavailable.push("nvidia_gsp_online");
        unavailable.push("intel_hardware_online");
        unavailable.push("cuda");
        unavailable.push("mps");
        unavailable.push("uvm");
        unavailable.push("peermem");
        unavailable.push("fault_recovery");
        unavailable.push("soak");
        proof {
            assert(Seq::new(unavailable@.len(), |i: int| unavailable@[i]@) =~= spec_unavailable(vlist));
        }
        t.append("hardware_unavailable=");
        append_joined(&mut t, &unavailable, ",");
        t.append("\n");
        t.append("session_type=");
        t.append(session_value(&self.session_type));
        t.append("\n");
        t.append("session_display=");
        t.append(session_value(&self.session_display));
        t.append("\n");
        t
    }
}

/// A DRM card name: "card" and a non-empty run of ASCII digits.
pub open spec fn spec_is_card_name(name: Seq<char>) -> bool {
    &&& name.len() > 4
    &&& name.subrange(0, 4) == "card"@
    &&& forall|k: int| 4 <= k < name.len() ==> 0x30 <= (#[trigger] name[k] as u32) <= 0x39
}

pub fn parse_card_name(name: &str) -> (ok: bool)
    ensures
        ok == spec_is_card_name(name@),
{
    proof {
        reveal_strlit("card");
    }
    if !str_starts_with(name, "card") {
        return false;
    }
    let n = name.unicode_len();
    if n <= 4 {
        return false;
    }
    let mut k: usize = 4;
    while k < n
        invariant
            4 <= k <= n,
            n == name@.len(),
            forall|q: int| 4 <= q < k ==> 0x30 <= (#[trigger] name@[q] as u32) <= 0x39,
        decreases n - k,
    {
        let v = name.get_char(k) as u32;
        if !(0x30 <= v && v <= 0x39) {
            return false;
        }
        k = k + 1;
    }
    true
}

/// A vendor as reported: its name, or "other:" and its PCI id in hexadecimal.
pub open spec fn spec_vendor_label(v: GraphicsVendor) -> Seq<char> {
    match v {
        GraphicsVendor::Other(id) => "other:"@ + spec_hex_digits(id as nat, 4),
        _ => spec_vendor_name(v),
    }
}

pub fn vendor_label(v: GraphicsVendor) -> (s: String)
    ensures
        s@ == spec_vendor_label(v),
{
    match v {
        GraphicsVendor::Other(id) => {
            let mut s = String::from_str("other:");
            append_hex(&mut s, id as u64, 4);
            s
        },
        _ => String::from_str(v.name()),
    }
}

/// One entry of `/sys/class/drm` as a connector count needs it: its name (when
/// it is UTF-8), whether it has a `status` file, and that file's contents.
pub struct DrmClassEntry {
    pub name: Option<String>,
    pub status_is_file: bool,
    pub status: Option<String>,
}

/// (connectors, connected connectors) of `card` among the first `n` entries:
/// entries named `<card>-...` with a status file; connected when the file
/// reads "connected".
pub open spec fn spec_connector_counts(card: Seq<char>, entries: Seq<DrmClassEntry>, n: int) -> (nat, nat)
    decreases n,
{
    if n <= 0 {
        (0, 0)
    } else {
        let prev = spec_connector_counts(card, entries, n - 1);
        let e = entries[n - 1];
        let prefix = card + "-"@;
        if e.name is Some && e.name->0@.len() >= prefix.len() && e.name->0@.subrange(
            0,
            prefix.len() as int,
        ) == prefix && e.status_is_file {
            let connected = e.status is Some && spec_trim(e.status->0@) == "connected"@;
            (prev.0 + 1, if connected {
                prev.1 + 1
            } else {
                prev.1
            })
        } else {
            prev
        }
    }
}

fn trimmed_equals(s: &str, word: &str) -> (b: bool)
    ensures
        b == (spec_trim(s@) == word@),
{
    let (a, b) = trim_bounds(s);
    str_eq(s.substring_char(a, b), word)
}

/// (connectors, connected connectors) of `card` (see [`spec_connector_counts`]).
pub fn count_connector_status(card: &str, entries: &Vec<DrmClassEntry>) -> (r: (usize, usize))
    ensures
        r.0 == spec_connector_counts(card@, entries@, entries@.len() as int).0,
        r.1 == spec_connector_counts(card@, entries@, entries@.len() as int).1,
{
    let mut prefix = String::from_str(card);
    prefix.append("-");
    let mut total: usize = 0;
    let mut connected: usize = 0;
    let mut i: usize = 0;
    while i < entries.len()
        invariant
            i <= entries@.len(),
            prefix@ == card@ + "-"@,
            total == spec_connector_counts(card@, entries@, i as int).0,
            connected == spec_connector_counts(card@, entries@, i as int).1,
            total <= i,
            connected <= total,
        decreases entries@.len() - i,
    {
        let e = &entries[i];
        match &e.name {
            Some(name) => {
                if str_starts_with(name.as_str(), prefix.as_str()) && e.status_is_file {
                    total = total + 1;
                    let is_connected = match &e.status {
                        Some(st) => trimmed_equals(st.as_str(), "connected"),
                        None => false,
                    };
                    if is_connected {
                        connected = connected + 1;
                    }
                }
            },
            None => {},
        }
        i = i + 1;
    }
    (total, connected)
}

/// One entry of `/dev/dri`: its name (when UTF-8) and whether it opens.
pub struct DevNodeEntry {
    pub name: Option<String>,
    pub accessible: bool,
}

/// (render nodes, accessible render nodes) among the first `n` entries.
pub open spec fn spec_render_counts(entries: Seq<DevNodeEntry>, n: int) -> (nat, nat)
    decreases n,
{
    if n <= 0 {
        (0, 0)
    } else {
        let prev = spec_render_counts(entries, n - 1);
        let e = entries[n - 1];
        if e.name is Some && e.name->0@.len() >= 7 && e.name->0@.subrange(0, 7) == "renderD"@ {
            (prev.0 + 1, if e.accessible {
                prev.1 + 1
            } else {
                prev.1
            })
        } else {
            prev
        }
    }
}

/// (render nodes, accessible render nodes): entries named `renderD...`.
pub fn count_render_nodes(entries: &Vec<DevNodeEntry>) -> (r: (usize, usize))
    ensures
        r.0 == spec_render_counts(entries@, entries@.len() as int).0,
        r.1 == spec_render_counts(entries@, entries@.len() as int).1,
{
    proof {
        reveal_strlit("renderD");
    }
    let mut total: usize = 0;
    let mut accessible: usize = 0;
    let mut i: usize = 0;
    while i < entries.len()
        invariant
            i <= entries@.len(),
            "renderD"@.len() == 7,
            total == spec_render_counts(entries@, i as int).0,
            accessible == spec_render_counts(entries@, i as int).1,
            total <= i,
            accessible <= total,
        decreases entries@.len() - i,
    {
        let e = &entries[i];
        match &e.name {
            Some(name) => {
                if str_starts_with(name.as_str(), "renderD") {
                    total = total + 1;
                    if e.accessible {
                        accessible = accessible + 1;
                    }
                }
            },
            None => {},
        }
        i = i + 1;
    }
    (total, accessible)
}

/// The Mesa libraries whose presence qualifies Mesa, in the order tried.
pub fn mesa_library_names() -> (names: Vec<&'static str>)
    ensures
        names@.len() == 3,
        names@[0]@ == "libEGL.so.1"@,
        names@[1]@ == "libGLX.so.0"@,
        names@[2]@ == "libGL.so.1"@,
{
    let mut names: Vec<&'static str> = Vec::new();
    names.push("libEGL.so.1");
    names.push("libGLX.so.0");
    names.push("libGL.so.1");
    names
}

/// The environment variable that names the display of a session type.
pub fn session_display_variable(session_type: &Option<String>) -> (var: Option<&'static str>)
    ensures
        match *session_type {
            Some(t) => if t@ == "wayland"@ {
                var matches Some(v) && v@ == "WAYLAND_DISPLAY"@
            } else if t@ == "x11"@ {
                var matches Some(v) && v@ == "DISPLAY"@
            } else {
                var is None
            },
            None => var is None,
        },
{
    match session_type {
        Some(t) => if str_eq(t.as_str(), "wayland") {
            Some("WAYLAND_DISPLAY")
        } else if str_eq(t.as_str(), "x11") {
            Some("DISPLAY")
        } else {
            None
        },
        None => None,
    }
}

impl NamedRecord for GraphicsAdapter {
    open spec fn name_view(&self) -> Seq<char> {
        self.card@
    }

    fn record_name(&self) -> (n: &str) {
        self.card.as_str()
    }
}

/// The adapters ordered by card name, as `String` orders them; equal names keep their order.
pub fn sort_adapters_by_card(adapters: Vec<GraphicsAdapter>) -> (sorted: Vec<GraphicsAdapter>)
    ensures
        sorted@.to_multiset() == adapters@.to_multiset(),
        forall|i: int, j: int|
            0 <= i < j < sorted@.len() ==> spec_str_le(
                (#[trigger] sorted@[i]).card@,
                (#[trigger] sorted@[j]).card@,
            ),
        exists|perm: Seq<int>| #[trigger] spec_stable_placement(adapters@, sorted@, perm),
{
    sort_by_name(adapters)
}

} // verus!
