//! The acquisition strategy: whether the native library is built from the
//! bundled sources, downloaded prebuilt, or linked from an installation, and
//! which revision each choice declares.

use vstd::prelude::*;
use crate::text::{opt_str_view, views};
use crate::version::{push_version_directives, version_directive_lines, AbiVersion, ProbeResult};

verus! {

/// An override variable's value counts as set unless absent, empty or `"0"`.
pub open spec fn flag_value_set(value: Option<Seq<char>>) -> bool {
    match value {
        None => false,
        Some(v) => v.len() > 0 && !(v.len() == 1 && v[0] == '0'),
    }
}

/// Reads an override variable's value as a flag.
pub fn override_is_set(value: Option<&str>) -> (r: bool)
    ensures
        r == flag_value_set(opt_str_view(value)),
{
    match value {
        None => false,
        Some(v) => {
            let n = v.unicode_len();
            n > 0 && !(n == 1 && v.get_char(0) == '0')
        },
    }
}

/// Everything the resolver reads from its surroundings, gathered once: the
/// compile-time feature toggles and the override variables.
#[derive(Clone, Copy, Debug, PartialEq, Eq, Structural)]
pub struct BuildConfig {
    /// The `vendored` feature toggle.
    pub feature_vendored: bool,
    /// The `static` feature toggle.
    pub feature_static: bool,
    /// The force-vendored override variable is set.
    pub force_vendored: bool,
    /// The forbid-vendored override variable is set.
    pub forbid_vendored: bool,
    /// The force-static override variable is set.
    pub force_static: bool,
}

impl BuildConfig {
    pub open spec fn asks_vendored(self) -> bool {
        self.feature_vendored || self.force_vendored
    }

    pub open spec fn asks_static(self) -> bool {
        self.feature_static || self.force_static
    }
}

/// Which probe found an installed library.
#[derive(Clone, Copy, Debug, PartialEq, Eq, Structural)]
pub enum ProbeKind {
    /// The package-metadata probe.
    Metadata,
    /// The compile-and-link probe.
    Empirical,
}

/// How the native library is obtained.
#[derive(Clone, Copy, Debug, PartialEq, Eq, Structural)]
pub enum AcquisitionStrategy {
    /// Built from the bundled source tree.
    Vendored,
    /// A prebuilt static archive is downloaded.
    PrebuiltDownload,
    /// An installed library of revision `abi`, found by `probe`, is linked.
    DynamicLink { abi: AbiVersion, probe: ProbeKind },
}

/// What the resolver needs next: a decision, or the outcome of a probe.
#[derive(Clone, Copy, Debug, PartialEq, Eq, Structural)]
pub enum ResolverStep {
    Decided(AcquisitionStrategy),
    RunMetadataProbe,
    RunEmpiricalProbe,
}

/// The decision procedure, first match wins: vendored where asked for and
/// not forbidden; prebuilt where static is asked for; otherwise the
/// metadata probe, then the compile-and-link probe, and the prebuilt download
/// where both find nothing. `None` stands for a probe not yet run.
pub open spec fn next_step(
    config: BuildConfig,
    metadata: Option<ProbeResult>,
    empirical: Option<ProbeResult>,
) -> ResolverStep {
    if config.asks_vendored() && !config.forbid_vendored {
        ResolverStep::Decided(AcquisitionStrategy::Vendored)
    } else if config.asks_static() {
        ResolverStep::Decided(AcquisitionStrategy::PrebuiltDownload)
    } else {
        match metadata {
            None => ResolverStep::RunMetadataProbe,
            Some(ProbeResult::Found(abi)) => ResolverStep::Decided(
                AcquisitionStrategy::DynamicLink { abi, probe: ProbeKind::Metadata },
            ),
            Some(ProbeResult::NotFound) => match empirical {
                None => ResolverStep::RunEmpiricalProbe,
                Some(ProbeResult::Found(abi)) => ResolverStep::Decided(
                    AcquisitionStrategy::DynamicLink { abi, probe: ProbeKind::Empirical },
                ),
                Some(ProbeResult::NotFound) => ResolverStep::Decided(
                    AcquisitionStrategy::PrebuiltDownload,
                ),
            },
        }
    }
}

/// One step of the decision procedure (see `next_step`).
pub fn resolve(
    config: &BuildConfig,
    metadata: Option<ProbeResult>,
    empirical: Option<ProbeResult>,
) -> (r: ResolverStep)
    ensures
        r == next_step(*config, metadata, empirical),
{
    if (config.feature_vendored || config.force_vendored) && !config.forbid_vendored {
        ResolverStep::Decided(AcquisitionStrategy::Vendored)
    } else if config.feature_static || config.force_static {
        ResolverStep::Decided(AcquisitionStrategy::PrebuiltDownload)
    } else {
        match metadata {
            None => ResolverStep::RunMetadataProbe,
            Some(ProbeResult::Found(abi)) => ResolverStep::Decided(
                AcquisitionStrategy::DynamicLink { abi, probe: ProbeKind::Metadata },
            ),
            Some(ProbeResult::NotFound) => match empirical {
                None => ResolverStep::RunEmpiricalProbe,
                Some(ProbeResult::Found(abi)) => ResolverStep::Decided(
                    AcquisitionStrategy::DynamicLink { abi, probe: ProbeKind::Empirical },
                ),
                Some(ProbeResult::NotFound) => ResolverStep::Decided(
                    AcquisitionStrategy::PrebuiltDownload,
                ),
            },
        }
    }
}

/// The forbid-vendored override dominates: with it set, asking for the
/// vendored build changes nothing, so the decision is the one taken when
/// the vendored build is not asked for at all (with or without the
/// forbidding override).
pub proof fn lemma_forbid_vendored_dominates(
    config: BuildConfig,
    forbid_absent: bool,
    metadata: Option<ProbeResult>,
    empirical: Option<ProbeResult>,
)
    requires
        config.asks_vendored(),
        config.forbid_vendored,
    ensures
        next_step(config, metadata, empirical) == next_step(
            BuildConfig {
                feature_vendored: false,
                force_vendored: false,
                forbid_vendored: forbid_absent,
                ..config
            },
            metadata,
            empirical,
        ),
{
}

/// With no override set and neither probe finding the library, the
/// prebuilt download is chosen.
pub proof fn lemma_nothing_found_downloads(config: BuildConfig)
    requires
        !config.asks_vendored(),
        !config.asks_static(),
    ensures
        next_step(config, Some(ProbeResult::NotFound), Some(ProbeResult::NotFound))
            == ResolverStep::Decided(AcquisitionStrategy::PrebuiltDownload),
{
}

/// The directives for a library that a probe found installed: the
/// compile-and-link probe adds the link directive that the metadata probe
/// emits on its own; both then declare the revision found.
pub open spec fn dynamic_link_lines(abi: AbiVersion, probe: ProbeKind) -> Seq<Seq<char>> {
    let link = if probe == ProbeKind::Empirical {
        seq!["cargo:rustc-link-lib=cec"@]
    } else {
        Seq::empty()
    };
    link + version_directive_lines(abi.spec_major() as nat)
}

pub fn dynamic_link_directives(abi: AbiVersion, probe: ProbeKind) -> (r: Vec<String>)
    ensures
        views(r@) == dynamic_link_lines(abi, probe),
{
    let mut r: Vec<String> = Vec::new();
    if probe == ProbeKind::Empirical {
        r.push(String::from_str("cargo:rustc-link-lib=cec"));
    }
    assert(views(r@) =~= if probe == ProbeKind::Empirical {
        seq!["cargo:rustc-link-lib=cec"@]
    } else {
        Seq::empty()
    });
    push_version_directives(&mut r, abi.major());
    r
}

} // verus!
