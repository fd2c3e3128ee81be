use vstd::prelude::*;
use crate::probe_codec::FieldValue;
use crate::text::{push_str, str_eq};

verus! {

/// Errors raised while reading or checking a scenario.
#[derive(Debug, Clone, PartialEq, Eq)]
pub enum CoreError {
    HclParse(String),
    InvalidScenario(String),
    Io(String),
    ProbeNotFound(String),
    VmNotFound(String),
    ImageNotFound(String),
}

/// Where to download an image for one architecture.
#[derive(Debug, Clone, PartialEq, Eq)]
pub struct ImageSource {
    pub arch: String,
    pub url: String,
    pub checksum: String,
}

/// A named base image with one source per architecture.
#[derive(Debug, Clone, PartialEq, Eq)]
pub struct ImageSpec {
    pub name: String,
    pub sources: Vec<ImageSource>,
}

/// When a probe is evaluated: before the scenario counts as running, or to
/// decide whether it is complete.
#[derive(Debug, Clone, Copy, PartialEq, Eq, Structural)]
pub enum ProbePhase {
    Boot,
    Scenario,
}

impl Default for ProbePhase {
    fn default() -> (r: Self)
        ensures
            r == ProbePhase::Scenario,
    {
        ProbePhase::Scenario
    }
}

/// One guest of a scenario.
#[derive(Debug, Clone, PartialEq, Eq)]
pub struct VmDefinition {
    pub name: String,
    pub cpu: u32,
    pub memory: u32,
    pub disk: u32,
    pub image: String,
    pub cloud_init: Option<CloudInitConfig>,
    pub steps: Vec<VmStep>,
    pub probes: Vec<String>,
}

/// A named, ordered group of mutations applied to a guest at first boot.
#[derive(Debug, Clone, PartialEq, Eq)]
pub struct VmStep {
    pub name: String,
    pub actions: Vec<VmAction>,
}

/// One mutation of guest state.
///
/// Label and selector maps are held as key/value pairs and read as maps: a
/// later pair replaces an earlier one with the same key, and manifests list
/// the keys in order.
#[derive(Debug, Clone, PartialEq, Eq)]
pub enum VmAction {
    FileDelete { path: String },
    FileWrite { path: String, content: String, permissions: Option<String> },
    FileReplace { path: String, pattern: String, replacement: String, regex: bool },
    Systemctl { unit: String, action: SystemctlAction },
    Command { cmd: String },
    K8sApply { manifest: String, kubeconfig: Option<String> },
    K8sNamespace { name: String, kubeconfig: Option<String> },
    K8sDeployment {
        name: String,
        namespace: String,
        image: String,
        replicas: u32,
        labels: Vec<(String, String)>,
        container_port: u16,
        kubeconfig: Option<String>,
    },
    K8sService {
        name: String,
        namespace: String,
        selector: Vec<(String, String)>,
        port: u16,
        target_port: u16,
        kubeconfig: Option<String>,
    },
}

#[derive(Debug, Clone, Copy, PartialEq, Eq, Structural)]
pub enum SystemctlAction {
    Start,
    Stop,
    Restart,
    Enable,
    Disable,
    EnableNow,
}

/// Cloud-init customisation of a guest.
#[derive(Debug, Clone, PartialEq, Eq)]
pub struct CloudInitConfig {
    pub packages: Vec<String>,
    /// Optional network v2 YAML, including the top-level `network:` key.
    pub network_config: Option<String>,
    pub runcmd: Option<String>,
    pub write_files: Vec<WriteFile>,
}

impl Default for CloudInitConfig {
    fn default() -> (r: Self)
        ensures
            r.packages@.len() == 0,
            r.network_config is None,
            r.runcmd is None,
            r.write_files@.len() == 0,
    {
        CloudInitConfig {
            packages: Vec::new(),
            network_config: None,
            runcmd: None,
            write_files: Vec::new(),
        }
    }
}

/// A file that cloud-init writes at first boot.
#[derive(Debug, Clone, PartialEq, Eq)]
pub struct WriteFile {
    pub path: String,
    pub content: String,
    pub permissions: Option<String>,
}

} // verus!

verus! {

/// A probe declared by a scenario: its kind, phase and config fields.
#[derive(Debug, Clone, PartialEq, Eq)]
pub struct ProbeDefinition {
    pub name: String,
    pub probe_type: String,
    pub description: Option<String>,
    pub phase: ProbePhase,
    pub config: Vec<(String, FieldValue)>,
}

/// A validated lab: images, probes and guests.
#[derive(Debug, Clone, PartialEq, Eq)]
pub struct Scenario {
    pub name: String,
    pub description: String,
    pub images: Vec<ImageSpec>,
    pub probes: Vec<ProbeDefinition>,
    pub vms: Vec<VmDefinition>,
}

/// The architecture name sources use: `x86_64` is `amd64`, `aarch64` is
/// `arm64`, others stand as they are.
pub open spec fn normalized_arch(arch: Seq<char>) -> Seq<char> {
    if arch == "x86_64"@ {
        "amd64"@
    } else if arch == "aarch64"@ {
        "arm64"@
    } else {
        arch
    }
}

impl ImageSpec {
    /// The first source for `arch`, under its normalised name.
    pub fn source_for_arch(&self, arch: &str) -> (r: Option<&ImageSource>)
        ensures
            match r {
                Some(s) => exists|i: int|
                    0 <= i < self.sources@.len() && self.sources@[i] == *s && s.arch@
                        == normalized_arch(arch@) && forall|j: int|
                        0 <= j < i ==> self.sources@[j].arch@ != normalized_arch(arch@),
                None => forall|j: int|
                    0 <= j < self.sources@.len() ==> self.sources@[j].arch@ != normalized_arch(
                        arch@,
                    ),
            },
    {
        let normalized: &str = if str_eq(arch, "x86_64") {
            "amd64"
        } else if str_eq(arch, "aarch64") {
            "arm64"
        } else {
            arch
        };
        let mut i: usize = 0;
        while i < self.sources.len()
            invariant
                normalized@ == normalized_arch(arch@),
                i <= self.sources@.len(),
                forall|j: int| 0 <= j < i ==> self.sources@[j].arch@ != normalized_arch(arch@),
            decreases self.sources@.len() - i,
        {
            if str_eq(self.sources[i].arch.as_str(), normalized) {
                return Some(&self.sources[i]);
            }
            i += 1;
        }
        None
    }
}

/// The systemctl verb named `s`.
pub open spec fn systemctl_action_named(s: Seq<char>) -> Option<SystemctlAction> {
    if s == "start"@ {
        Some(SystemctlAction::Start)
    } else if s == "stop"@ {
        Some(SystemctlAction::Stop)
    } else if s == "restart"@ {
        Some(SystemctlAction::Restart)
    } else if s == "enable"@ {
        Some(SystemctlAction::Enable)
    } else if s == "disable"@ {
        Some(SystemctlAction::Disable)
    } else if s == "enable_now"@ {
        Some(SystemctlAction::EnableNow)
    } else {
        None
    }
}

/// Read a systemctl action of a scenario step; an unknown one is invalid.
pub fn parse_systemctl_action(action: &str) -> (r: Result<SystemctlAction, CoreError>)
    ensures
        match systemctl_action_named(action@) {
            Some(a) => r == Ok::<SystemctlAction, CoreError>(a),
            None => r matches Err(CoreError::InvalidScenario(_)),
        },
{
    if str_eq(action, "start") {
        Ok(SystemctlAction::Start)
    } else if str_eq(action, "stop") {
        Ok(SystemctlAction::Stop)
    } else if str_eq(action, "restart") {
        Ok(SystemctlAction::Restart)
    } else if str_eq(action, "enable") {
        Ok(SystemctlAction::Enable)
    } else if str_eq(action, "disable") {
        Ok(SystemctlAction::Disable)
    } else if str_eq(action, "enable_now") {
        Ok(SystemctlAction::EnableNow)
    } else {
        let mut m = String::from_str("Unknown systemctl action '");
        push_str(&mut m, action);
        push_str(
            &mut m,
            "' (expected start|stop|restart|enable|disable|enable_now)",
        );
        Err(CoreError::InvalidScenario(m))
    }
}

pub open spec fn has_image(images: Seq<ImageSpec>, name: Seq<char>) -> bool {
    exists|i: int| 0 <= i < images.len() && #[trigger] images[i].name@ == name
}

pub open spec fn has_probe(probes: Seq<ProbeDefinition>, name: Seq<char>) -> bool {
    exists|i: int| 0 <= i < probes.len() && #[trigger] probes[i].name@ == name
}

/// Every guest's image and probes resolve, and guest names are unique.
pub open spec fn scenario_valid(s: Scenario) -> bool {
    &&& forall|v: int| 0 <= v < s.vms@.len() ==> has_image(s.images@, #[trigger] s.vms@[v].image@)
    &&& forall|v: int, p: int|
        0 <= v < s.vms@.len() && 0 <= p < s.vms@[v].probes@.len() ==> has_probe(
            s.probes@,
            #[trigger] s.vms@[v].probes@[p]@,
        )
    &&& forall|a: int, b: int|
        0 <= a < b < s.vms@.len() ==> #[trigger] s.vms@[a].name@ != #[trigger] s.vms@[b].name@
}

fn find_image(images: &Vec<ImageSpec>, name: &str) -> (r: bool)
    ensures
        r == has_image(images@, name@),
{
    let mut i: usize = 0;
    while i < images.len()
        invariant
            i <= images@.len(),
            forall|j: int| 0 <= j < i ==> images@[j].name@ != name@,
        decreases images@.len() - i,
    {
        if str_eq(images[i].name.as_str(), name) {
            return true;
        }
        i += 1;
    }
    false
}

/// The position of the probe definition named `name`, if any.
pub fn find_probe(probes: &Vec<ProbeDefinition>, name: &str) -> (r: Option<usize>)
    ensures
        match r {
            Some(i) => i < probes@.len() && probes@[i as int].name@ == name@,
            None => !has_probe(probes@, name@),
        },
{
    let mut i: usize = 0;
    while i < probes.len()
        invariant
            i <= probes@.len(),
            forall|j: int| 0 <= j < i ==> probes@[j].name@ != name@,
        decreases probes@.len() - i,
    {
        if str_eq(probes[i].name.as_str(), name) {
            return Some(i);
        }
        i += 1;
    }
    None
}

impl Scenario {
    /// Check that every guest's image and probes resolve and that guest names
    /// are unique; the error names the first guest, in order, that fails.
    pub fn validate(&self) -> (r: Result<(), CoreError>)
        ensures
            r is Ok <==> scenario_valid(*self),
            r matches Err(CoreError::ImageNotFound(n)) ==> exists|v: int|
                0 <= v < self.vms@.len() && #[trigger] self.vms@[v].image@ == n@ && !has_image(
                    self.images@,
                    n@,
                ),
            r matches Err(CoreError::ProbeNotFound(n)) ==> exists|v: int, p: int|
                0 <= v < self.vms@.len() && 0 <= p < self.vms@[v].probes@.len()
                    && #[trigger] self.vms@[v].probes@[p]@ == n@ && !has_probe(self.probes@, n@),
            r matches Err(CoreError::InvalidScenario(_)) ==> exists|a: int, b: int|
                0 <= a < b < self.vms@.len() && #[trigger] self.vms@[a].name@
                    == #[trigger] self.vms@[b].name@,
            r is Err ==> (r matches Err(CoreError::ImageNotFound(_)) || r matches Err(
                CoreError::ProbeNotFound(_),
            ) || r matches Err(CoreError::InvalidScenario(_))),
    {
        let mut v: usize = 0;
        while v < self.vms.len()
            invariant
                v <= self.vms@.len(),
                forall|a: int| 0 <= a < v ==> has_image(self.images@, #[trigger] self.vms@[a].image@),
                forall|a: int, p: int|
                    0 <= a < v && 0 <= p < self.vms@[a].probes@.len() ==> has_probe(
                        self.probes@,
                        #[trigger] self.vms@[a].probes@[p]@,
                    ),
                forall|a: int, b: int|
                    0 <= a < b < v ==> #[trigger] self.vms@[a].name@ != #[trigger] self.vms@[b].name@,
            decreases self.vms@.len() - v,
        {
            let vm = &self.vms[v];
            if !find_image(&self.images, vm.image.as_str()) {
                return Err(CoreError::ImageNotFound(vm.image.clone()));
            }
            let mut p: usize = 0;
            while p < vm.probes.len()
                invariant
                    v < self.vms@.len(),
                    *vm == self.vms@[v as int],
                    p <= vm.probes@.len(),
                    forall|q: int| 0 <= q < p ==> has_probe(self.probes@, #[trigger] vm.probes@[q]@),
                decreases vm.probes@.len() - p,
            {
                if find_probe(&self.probes, vm.probes[p].as_str()).is_none() {
                    return Err(CoreError::ProbeNotFound(vm.probes[p].clone()));
                }
                p += 1;
            }
            let mut a: usize = 0;
            while a < v
                invariant
                    v < self.vms@.len(),
                    *vm == self.vms@[v as int],
                    a <= v,
                    forall|c: int| 0 <= c < a ==> self.vms@[c].name@ != vm.name@,
                decreases v - a,
            {
                if str_eq(self.vms[a].name.as_str(), vm.name.as_str()) {
                    return Err(CoreError::InvalidScenario(String::from_str("duplicate VM name")));
                }
                a += 1;
            }
            v += 1;
        }
        Ok(())
    }

    /// How many probe references the guests hold, over all guests.
    pub fn total_probe_count(&self) -> (r: usize)
        requires
            probe_refs(self.vms@) <= usize::MAX,
        ensures
            r == probe_refs(self.vms@),
    {
        let mut total: usize = 0;
        let mut v: usize = 0;
        while v < self.vms.len()
            invariant
                v <= self.vms@.len(),
                probe_refs(self.vms@) <= usize::MAX,
                total == probe_refs(self.vms@.subrange(0, v as int)),
            decreases self.vms@.len() - v,
        {
            proof {
                let pre = self.vms@.subrange(0, v as int + 1);
                assert(pre.drop_last() =~= self.vms@.subrange(0, v as int));
                lemma_probe_refs_prefix(self.vms@, v as int + 1);
            }
            total = total + self.vms[v].probes.len();
            v += 1;
        }
        assert(self.vms@.subrange(0, self.vms@.len() as int) =~= self.vms@);
        total
    }
}

pub open spec fn probe_refs(vms: Seq<VmDefinition>) -> nat
    decreases vms.len(),
{
    if vms.len() == 0 {
        0
    } else {
        probe_refs(vms.drop_last()) + vms.last().probes@.len()
    }
}

proof fn lemma_probe_refs_prefix(vms: Seq<VmDefinition>, k: int)
    requires
        0 <= k <= vms.len(),
    ensures
        probe_refs(vms.subrange(0, k)) <= probe_refs(vms),
    decreases vms.len() - k,
{
    if k < vms.len() {
        lemma_probe_refs_prefix(vms, k + 1);
        assert(vms.subrange(0, k + 1).drop_last() =~= vms.subrange(0, k));
    } else {
        assert(vms.subrange(0, k) =~= vms);
    }
}

} // verus!
