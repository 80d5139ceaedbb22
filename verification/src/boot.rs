//! The boot sequencer: the one-time bring-up that resolves the project
//! configuration, reports each hardware stage through the console channels,
//! and owns the boot state.
//!
//! The hardware work itself — descriptor tables, the interrupt controller,
//! the page-table mapper, the frame allocator, the heap — happens outside
//! this library; the sequencer makes every decision: what is resolved, what
//! is valid, what is written to which channel, and in which order the stages
//! stand.

use vstd::prelude::*;
use vstd::slice::slice_to_vec;
use vstd::string::StringSliceAdditionalSpecFns;

use crate::conf::{Config, ConfigType, ConfigView};
use crate::registry::{ChannelId, ConsoleRegistry, RegistryView};
use crate::text::{push_bytes, spec_decimal, decimal_bytes};

verus! {

/// The kernel's own version string, before any release marker.
pub const KERNEL_VERSION: &'static str = "v1.3.1";

/// The banner's identity artwork.
pub const RINUX_ART: &'static str = "######   ###  #     #  #     #  #     #\n#     #   #   ##    #  #     #   #   #\n#     #   #   # #   #  #     #    # #\n######    #   #  #  #  #     #     #\n#   #     #   #   # #  #     #    # #\n#    #    #   #    ##  #     #   #   #\n#     #  ###  #     #   #####   #     #\n";

/// The build identity determined from the compile profile.
#[derive(Clone, Copy, Debug, PartialEq, Eq, Structural)]
pub enum BuildType {
    /// A debug build.
    Debug,
    /// A release build.
    Release,
}

/// The three stages of the boot state, passed monotonically.
#[derive(Clone, Copy, Debug, PartialEq, Eq, Structural)]
pub enum BootStage {
    /// No configuration has been resolved.
    Unconfigured,
    /// The configuration stage has completed.
    Configured,
    /// The hardware stages have been sequenced.
    HardwareReady,
}

/// The unrecoverable configuration defects.
#[derive(Clone, Copy, Debug, PartialEq, Eq, Structural)]
pub enum BootError {
    /// The resolved configuration has an empty project name or version.
    InvalidConfig,
    /// A release build reached the banner without a release-tagged version.
    VersionMismatch,
}

impl BootError {
    /// The diagnostic text the fatal halt path reports for this defect.
    pub fn message(&self) -> (r: &'static str)
        ensures
            *self == BootError::InvalidConfig ==> r@ == "Please use the enderpearl build system"@,
            *self == BootError::VersionMismatch ==> r@
                == "Please match VERSION and ENV.BUILD_TYPE"@,
    {
        match self {
            BootError::InvalidConfig => "Please use the enderpearl build system",
            BootError::VersionMismatch => "Please match VERSION and ENV.BUILD_TYPE",
        }
    }
}

/// How the banner is rendered.
#[derive(Clone, Copy, Debug, PartialEq, Eq, Structural)]
pub enum BannerClass {
    /// The version line goes through the logo channel.
    Normal,
    /// The version line goes through the warning channel.
    Warning,
    /// A fatal configuration-mismatch defect: no banner tail is rendered.
    Mismatch,
}

/// The release marker carried by release-build version strings.
pub open spec fn release_tag() -> Seq<u8> {
    seq![0x2du8, 0x52u8, 0x45u8, 0x4cu8, 0x45u8, 0x41u8, 0x53u8, 0x45u8]
}

/// Whether a version string ends in the release marker.
pub open spec fn spec_release_tagged(v: Seq<u8>) -> bool {
    v.len() >= 8 && v.subrange(v.len() - 8, v.len() as int) == release_tag()
}

/// Checks whether a version string ends in the release marker.
pub fn release_tagged(v: &[u8]) -> (r: bool)
    ensures
        r == spec_release_tagged(v@),
{
    if v.len() < 8 {
        return false;
    }
    let n = v.len();
    let r = v[n - 8] == 0x2d && v[n - 7] == 0x52 && v[n - 6] == 0x45 && v[n - 5] == 0x4c && v[n
        - 4] == 0x45 && v[n - 3] == 0x41 && v[n - 2] == 0x53 && v[n - 1] == 0x45;
    proof {
        let sub = v@.subrange(n - 8, n as int);
        if r {
            assert(sub =~= release_tag());
        } else {
            if sub == release_tag() {
                assert(v@[n - 8] == sub[0]);
                assert(v@[n - 7] == sub[1]);
                assert(v@[n - 6] == sub[2]);
                assert(v@[n - 5] == sub[3]);
                assert(v@[n - 4] == sub[4]);
                assert(v@[n - 3] == sub[5]);
                assert(v@[n - 2] == sub[6]);
                assert(v@[n - 1] == sub[7]);
            }
        }
    }
    r
}

/// How the banner is rendered for a build identity and a version string:
/// a debug identity always gets the warning-colored banner and is never
/// fatal; a release identity gets the normal banner when the version already
/// carries the release marker and is a fatal mismatch when it does not.
pub open spec fn spec_banner_class(build: BuildType, version: Seq<u8>) -> BannerClass {
    if build == BuildType::Debug {
        BannerClass::Warning
    } else if spec_release_tagged(version) {
        BannerClass::Normal
    } else {
        BannerClass::Mismatch
    }
}

/// Classifies the banner for a build identity and version string.
pub fn banner_class(build: BuildType, version: &[u8]) -> (r: BannerClass)
    ensures
        r == spec_banner_class(build, version@),
{
    match build {
        BuildType::Debug => BannerClass::Warning,
        BuildType::Release => {
            if release_tagged(version) {
                BannerClass::Normal
            } else {
                BannerClass::Mismatch
            }
        },
    }
}

/// The version/identity matrix: a release identity with a release-tagged
/// version renders the normal banner; a release identity without the tag is
/// a fatal mismatch; a debug identity renders the warning-colored banner for
/// every version and is never fatal.
pub proof fn lemma_version_identity_matrix(version: Seq<u8>)
    ensures
        spec_release_tagged(version) ==> spec_banner_class(BuildType::Release, version)
            == BannerClass::Normal,
        !spec_release_tagged(version) ==> spec_banner_class(BuildType::Release, version)
            == BannerClass::Mismatch,
        spec_banner_class(BuildType::Debug, version) == BannerClass::Warning,
        spec_banner_class(BuildType::Debug, version) != BannerClass::Mismatch,
{
}

/// The banner artwork write: the artwork followed by one extra newline.
pub open spec fn art_bytes() -> Seq<u8> {
    RINUX_ART.spec_bytes().push(10)
}

/// The banner's version line.
pub open spec fn version_line(version: Seq<u8>) -> Seq<u8> {
    "Rinux Version: ".spec_bytes() + version + seq![10u8]
}

/// The banner's authorship and project tail.
pub open spec fn banner_tail(name: Seq<u8>, version: Seq<u8>) -> Seq<u8> {
    "Rinux Authors: [Atomic]\nScript: ".spec_bytes() + name + "\nScript Version: ".spec_bytes()
        + version + "\n\n".spec_bytes()
}

/// The console traffic of the banner: the artwork through the logo channel;
/// the version line through the logo or warning channel, by class; on a
/// mismatch, the defect message through the error channel and nothing more;
/// otherwise the authorship tail through the logo channel.
pub open spec fn spec_banner_console(
    c: RegistryView,
    version: Seq<u8>,
    name: Seq<u8>,
    project_version: Seq<u8>,
    class: BannerClass,
) -> RegistryView {
    let c1 = c.step(ChannelId::Logo, art_bytes());
    match class {
        BannerClass::Normal => c1.step(ChannelId::Logo, version_line(version)).step(
            ChannelId::Logo,
            banner_tail(name, project_version),
        ),
        BannerClass::Warning => c1.step(ChannelId::Warn, version_line(version)).step(
            ChannelId::Logo,
            banner_tail(name, project_version),
        ),
        BannerClass::Mismatch => c1.step(
            ChannelId::Error,
            "Please match VERSION and ENV.BUILD_TYPE\n".spec_bytes(),
        ),
    }
}

/// The boot sequencer: the explicit owner of all boot state.  It replaces
/// scattered global flags with one value, mutated only through its own stage
/// transitions.
#[derive(Debug)]
pub struct BootSequencer {
    /// The boot stage reached so far.
    pub stage: BootStage,
    /// The configuration source the caller requested.
    pub requested: ConfigType,
    /// The resolved configuration; meaningful once `stage` has passed
    /// `Unconfigured`.
    pub config: Config,
    /// The build identity determined from the compile profile.
    pub build: BuildType,
    /// Whether the platform forces the fixed built-in identity, overriding
    /// every requested source.
    pub forced_identity: bool,
    /// The kernel version string as reported; release builds carry the
    /// release marker after configuration.
    pub version: Vec<u8>,
    /// The default file-backed configuration the build system supplied.
    pub default_config: Config,
}

impl BootSequencer {
    /// The configuration that resolution yields: the forced built-in
    /// identity when the platform demands it; otherwise the default
    /// file-backed configuration or the caller-supplied value, untouched.
    pub open spec fn spec_resolved(self) -> ConfigView {
        if self.forced_identity {
            ConfigView { name: "PureOS".spec_bytes(), version: self.version@, quiet: false }
        } else {
            match self.requested {
                ConfigType::File => self.default_config@,
                ConfigType::Custom(c) => c@,
            }
        }
    }

    /// The version string as the banner reports it: a release build gains
    /// the release marker if it does not already carry it.
    pub open spec fn spec_reported_version(self) -> Seq<u8> {
        if self.build == BuildType::Release && !spec_release_tagged(self.version@) {
            self.version@ + release_tag()
        } else {
            self.version@
        }
    }

    /// What the configure stage returns: nothing when the guard suppresses
    /// it, the configuration defect when resolution yields an empty name or
    /// version, the mismatch defect when the banner class demands it, and
    /// success otherwise.
    pub open spec fn spec_configure_result(self) -> Result<(), BootError> {
        if self.stage != BootStage::Unconfigured {
            Ok(())
        } else if !self.spec_resolved().valid() {
            Err(BootError::InvalidConfig)
        } else if spec_banner_class(self.build, self.spec_reported_version())
            == BannerClass::Mismatch {
            Err(BootError::VersionMismatch)
        } else {
            Ok(())
        }
    }

    /// The console traffic of the configure stage: nothing when the guard
    /// suppresses it or the configuration is invalid; the banner otherwise.
    pub open spec fn spec_configure_console(self, c: RegistryView) -> RegistryView {
        if self.stage != BootStage::Unconfigured || !self.spec_resolved().valid() {
            c
        } else {
            spec_banner_console(
                c,
                self.spec_reported_version(),
                self.spec_resolved().name,
                self.spec_resolved().version,
                spec_banner_class(self.build, self.spec_reported_version()),
            )
        }
    }

    /// The configuration in force after a successful configure stage.
    pub open spec fn spec_effective_config(self) -> ConfigView {
        if self.stage != BootStage::Unconfigured {
            self.config@
        } else {
            self.spec_resolved()
        }
    }

    /// Returns a fresh sequencer: unconfigured, reading the default source,
    /// with the untagged kernel version.
    pub fn new(build: BuildType, forced_identity: bool, default_config: Config) -> (r:
        BootSequencer)
        ensures
            r.stage == BootStage::Unconfigured,
            r.requested == ConfigType::File,
            r.build == build,
            r.forced_identity == forced_identity,
            r.version@ == KERNEL_VERSION.spec_bytes(),
            r.default_config == default_config,
            r.config@.name.len() == 0,
            r.config@.version.len() == 0,
    {
        BootSequencer {
            stage: BootStage::Unconfigured,
            requested: ConfigType::File,
            config: Config::cnst(),
            build,
            forced_identity,
            version: slice_to_vec(KERNEL_VERSION.as_bytes()),
            default_config,
        }
    }

    /// Selects the source the configuration will be resolved from.  The
    /// choice only matters while the boot-state guard has not yet passed the
    /// configure stage: a resolved configuration is never re-resolved.
    pub fn set_config_type(&mut self, config_type: ConfigType)
        ensures
            final(self).requested == config_type,
            final(self).stage == old(self).stage,
            final(self).config == old(self).config,
            final(self).build == old(self).build,
            final(self).forced_identity == old(self).forced_identity,
            final(self).version == old(self).version,
            final(self).default_config == old(self).default_config,
    {
        self.requested = config_type;
    }

    /// Resolves the requested configuration source.
    fn resolve_requested(&self) -> (r: Config)
        ensures
            r@ == self.spec_resolved(),
    {
        if self.forced_identity {
            Config {
                project_name: slice_to_vec("PureOS".as_bytes()),
                project_version: slice_to_vec(self.version.as_slice()),
                quiet_boot: false,
            }
        } else {
            match &self.requested {
                ConfigType::File => self.default_config.duplicate(),
                ConfigType::Custom(c) => c.duplicate(),
            }
        }
    }

    /// The configure stage.  Gated by the boot state, it runs at most once:
    /// it resolves the configuration, rejects an empty project name or
    /// version as a fatal defect before anything else may run, stamps the
    /// reported version with the release marker on release builds, renders
    /// the banner, and advances the stage.  Invoked again, it changes
    /// nothing and re-resolves nothing.
    pub fn configure(&mut self, console: &mut ConsoleRegistry) -> (r: Result<(), BootError>)
        requires
            old(console).wf(),
        ensures
            final(console).wf(),
            r == old(self).spec_configure_result(),
            final(console)@ == old(self).spec_configure_console(old(console)@),
            final(self).build == old(self).build,
            final(self).forced_identity == old(self).forced_identity,
            final(self).requested == old(self).requested,
            final(self).default_config == old(self).default_config,
            r == Err::<(), BootError>(BootError::InvalidConfig) || r == Err::<(), BootError>(
                BootError::VersionMismatch,
            ) ==> *final(self) == *old(self),
            old(self).stage != BootStage::Unconfigured ==> *final(self) == *old(self),
            old(self).stage == BootStage::Unconfigured && r == Ok::<(), BootError>(()) ==> ({
                &&& final(self).stage == BootStage::Configured
                &&& final(self).config@ == old(self).spec_resolved()
                &&& final(self).version@ == old(self).spec_reported_version()
            }),
    {
        match self.stage {
            BootStage::Unconfigured => {},
            _ => {
                return Ok(());
            },
        }
        let cfg = self.resolve_requested();
        if !cfg.is_valid() {
            return Err(BootError::InvalidConfig);
        }
        if matches!(self.build, BuildType::Release) {
            if !release_tagged(self.version.as_slice()) {
                push_release_tag(&mut self.version);
            }
        }
        assert(self.version@ == old(self).spec_reported_version());
        let class = banner_class(self.build, self.version.as_slice());

        let mut art: Vec<u8> = Vec::new();
        push_bytes(&mut art, RINUX_ART.as_bytes());
        art.push(10);
        assert(art@ =~= art_bytes());
        console.write_bytes(ChannelId::Logo, art.as_slice());

        let mut vline: Vec<u8> = Vec::new();
        push_bytes(&mut vline, "Rinux Version: ".as_bytes());
        push_bytes(&mut vline, self.version.as_slice());
        vline.push(10);
        assert(vline@ =~= version_line(self.version@));
        match class {
            BannerClass::Normal => {
                console.write_bytes(ChannelId::Logo, vline.as_slice());
            },
            BannerClass::Warning => {
                console.write_bytes(ChannelId::Warn, vline.as_slice());
            },
            BannerClass::Mismatch => {
                proof {
                    // a release build's reported version always carries the
                    // marker, so this class cannot arise here
                    if !spec_release_tagged(old(self).version@) {
                        assert(self.version@.subrange(
                            self.version@.len() - 8,
                            self.version@.len() as int,
                        ) =~= release_tag());
                    }
                    assert(spec_release_tagged(self.version@));
                }
                console.write_text(ChannelId::Error, "Please match VERSION and ENV.BUILD_TYPE\n");
                return Err(BootError::VersionMismatch);
            },
        }

        let mut tail: Vec<u8> = Vec::new();
        push_bytes(&mut tail, "Rinux Authors: [Atomic]\nScript: ".as_bytes());
        push_bytes(&mut tail, cfg.project_name.as_slice());
        push_bytes(&mut tail, "\nScript Version: ".as_bytes());
        push_bytes(&mut tail, cfg.project_version.as_slice());
        push_bytes(&mut tail, "\n\n".as_bytes());
        assert(tail@ =~= banner_tail(cfg.project_name@, cfg.project_version@));
        console.write_bytes(ChannelId::Logo, tail.as_slice());

        self.config = cfg;
        self.stage = BootStage::Configured;
        Ok(())
    }
}

/// Idempotent configuration: once the boot-state guard has passed the
/// configure stage, invoking the stage again succeeds, resolves nothing,
/// and writes nothing — the configuration keeps the values the first
/// invocation resolved.
pub proof fn lemma_configure_idempotent(g: BootSequencer, c: RegistryView)
    requires
        g.stage != BootStage::Unconfigured,
    ensures
        g.spec_configure_result() == Ok::<(), BootError>(()),
        g.spec_configure_console(c) == c,
        g.spec_effective_config() == g.config@,
{
}

/// The stage-success report for the interrupt tables and controller.
pub open spec fn ok_interrupts_line() -> Seq<u8> {
    "[OK] Interupts initialized\n".spec_bytes()
}

/// The stage-success report for enabled interrupt delivery.
pub open spec fn ok_instructions_line() -> Seq<u8> {
    "[OK] Instructions initialized\n".spec_bytes()
}

/// The stage-success report for the virtual-memory stage.
pub open spec fn ok_vram_line() -> Seq<u8> {
    "[OK] VRAM initialized\n".spec_bytes()
}

/// The stage-success report for heap initialization.
pub open spec fn ok_heap_line() -> Seq<u8> {
    "[OK] Heap Initialization\n".spec_bytes()
}

/// The error report for a failed heap initialization.
pub open spec fn err_heap_line() -> Seq<u8> {
    "[ERR] Heap Initialization\n".spec_bytes()
}

/// The console traffic of the hardware stages: the three stage-success
/// reports through the success channel unless quiet boot suppresses them,
/// then the heap report — success through the success channel (again unless
/// quiet), failure through the error channel unconditionally.
pub open spec fn spec_boot_reports(c: RegistryView, quiet: bool, heap_ok: bool) -> RegistryView {
    let c1 = if !quiet {
        c.step(ChannelId::Okay, ok_interrupts_line()).step(
            ChannelId::Okay,
            ok_instructions_line(),
        ).step(ChannelId::Okay, ok_vram_line())
    } else {
        c
    };
    if heap_ok {
        if !quiet {
            c1.step(ChannelId::Okay, ok_heap_line())
        } else {
            c1
        }
    } else {
        c1.step(ChannelId::Error, err_heap_line())
    }
}

impl BootSequencer {
    /// The whole bring-up sequence.  The configure stage runs first, gated
    /// by the boot state; a configuration defect is fatal and nothing else
    /// runs.  Then the hardware stages are reported in their strict order —
    /// tables, interrupt delivery, virtual memory — and the heap result is
    /// recorded: a heap failure is reported through the error channel and is
    /// not fatal, so sequencing continues and the stage still advances.
    /// `heap_ok` carries the outcome of the heap initialization the caller
    /// performed between the hardware stages.
    pub fn init(&mut self, console: &mut ConsoleRegistry, heap_ok: bool) -> (r: Result<
        (),
        BootError,
    >)
        requires
            old(console).wf(),
        ensures
            final(console).wf(),
            r == old(self).spec_configure_result(),
            final(self).build == old(self).build,
            final(self).forced_identity == old(self).forced_identity,
            final(self).requested == old(self).requested,
            final(self).default_config == old(self).default_config,
            r != Ok::<(), BootError>(()) ==> *final(self) == *old(self) && final(console)@ == old(
                self,
            ).spec_configure_console(old(console)@),
            r == Ok::<(), BootError>(()) ==> ({
                let cfg = old(self).spec_effective_config();
                &&& final(self).stage == BootStage::HardwareReady
                &&& final(self).config@ == cfg
                &&& final(console)@ == spec_boot_reports(
                    old(self).spec_configure_console(old(console)@),
                    cfg.quiet,
                    heap_ok,
                )
            }),
    {
        match self.configure(console) {
            Err(e) => {
                return Err(e);
            },
            Ok(_) => {},
        }
        if !self.config.quiet_boot {
            console.write_text(ChannelId::Okay, "[OK] Interupts initialized\n");
            console.write_text(ChannelId::Okay, "[OK] Instructions initialized\n");
            console.write_text(ChannelId::Okay, "[OK] VRAM initialized\n");
        }
        if heap_ok {
            if !self.config.quiet_boot {
                console.write_text(ChannelId::Okay, "[OK] Heap Initialization\n");
            }
        } else {
            console.write_text(ChannelId::Error, "[ERR] Heap Initialization\n");
        }
        self.stage = BootStage::HardwareReady;
        Ok(())
    }
}

/// Appends the release marker to a version string.
fn push_release_tag(version: &mut Vec<u8>)
    ensures
        final(version)@ == old(version)@ + release_tag(),
{
    version.push(0x2d);
    version.push(0x52);
    version.push(0x45);
    version.push(0x4c);
    version.push(0x45);
    version.push(0x41);
    version.push(0x53);
    version.push(0x45);
    proof {
        assert(version@ =~= old(version)@ + release_tag());
    }
}

/// The diagnostic line of the unconditionally fatal allocation-failure
/// path.
pub open spec fn alloc_error_line(size: nat, align: nat) -> Seq<u8> {
    "allocation error: size ".spec_bytes() + spec_decimal(size) + ", align ".spec_bytes()
        + spec_decimal(align)
}

/// Renders the diagnostic for an allocation failure: a missing or exhausted
/// heap leaves no possible continuation, so the caller halts after reporting
/// this line.
pub fn alloc_error_handler(size: usize, align: usize) -> (r: Vec<u8>)
    ensures
        r@ == alloc_error_line(size as nat, align as nat),
{
    let mut r: Vec<u8> = Vec::new();
    push_bytes(&mut r, "allocation error: size ".as_bytes());
    let digits = decimal_bytes(size as u64);
    push_bytes(&mut r, digits.as_slice());
    push_bytes(&mut r, ", align ".as_bytes());
    let digits2 = decimal_bytes(align as u64);
    push_bytes(&mut r, digits2.as_slice());
    proof {
        assert(r@ =~= alloc_error_line(size as nat, align as nat));
    }
    r
}

} // verus!
