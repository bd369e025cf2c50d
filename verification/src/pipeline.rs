use vstd::prelude::*;
use vstd::string::StrSliceExecFns;

verus! {

/// The strings a boolean-like build flag recognizes as enabling it.
pub open spec fn spec_truthy(s: Seq<char>) -> bool {
    s == "1"@ || s == "true"@
}

/// The strings a boolean-like build flag recognizes as disabling it.
pub open spec fn spec_falsy(s: Seq<char>) -> bool {
    s == "0"@ || s == "false"@
}

/// Character-for-character equality of two string slices.
fn str_eq(a: &str, b: &str) -> (r: bool)
    ensures
        r <==> a@ == b@,
{
    let a_len: usize = a.unicode_len();
    let b_len: usize = b.unicode_len();
    if a_len != b_len {
        return false;
    }
    let mut i: usize = 0;
    while i < a_len
        invariant
            a_len == a@.len(),
            b_len == b@.len(),
            a_len == b_len,
            i <= a_len,
            forall|k: int| 0 <= k < i ==> a@[k] == b@[k],
        decreases a_len - i,
    {
        if a.get_char(i) != b.get_char(i) {
            return false;
        }
        i = i + 1;
    }
    proof {
        assert(a@ =~= b@);
    }
    true
}

/// How one boolean-like flag value reads.
#[derive(Clone, Copy, Debug, PartialEq, Eq, Structural)]
pub enum FlagSetting {
    Enabled,
    Disabled,
    Unrecognized,
}

/// Reads a boolean-like flag value: `"1"` and `"true"` enable, `"0"` and
/// `"false"` disable, anything else is unrecognized.
pub fn parse_bool_flag(value: &str) -> (r: FlagSetting)
    ensures
        r == FlagSetting::Enabled <==> spec_truthy(value@),
        r == FlagSetting::Disabled <==> spec_falsy(value@),
        r == FlagSetting::Unrecognized <==> !spec_truthy(value@) && !spec_falsy(value@),
{
    proof {
        reveal_strlit("1");
        reveal_strlit("true");
        reveal_strlit("0");
        reveal_strlit("false");
        assert("1"@.len() == 1 && "true"@.len() == 4 && "0"@.len() == 1 && "false"@.len() == 5);
        assert("1"@[0] == '1' && "0"@[0] == '0');
        assert("1"@ != "0"@);
        assert("true"@ != "false"@);
    }
    if str_eq(value, "1") || str_eq(value, "true") {
        FlagSetting::Enabled
    } else if str_eq(value, "0") || str_eq(value, "false") {
        FlagSetting::Disabled
    } else {
        FlagSetting::Unrecognized
    }
}

/// Whether a skip flag, possibly absent, asks for the build to be skipped.
pub open spec fn flag_requests_skip(flag: Option<&str>) -> bool {
    match flag {
        Some(v) => spec_truthy(v@),
        None => false,
    }
}

/// Whether the reproducible flag, possibly absent, enables the
/// reproducible path.
pub open spec fn flag_enables_reproducible(flag: Option<&str>) -> bool {
    match flag {
        Some(v) => spec_truthy(v@),
        None => false,
    }
}

/// Whether the reproducible flag holds a malformed value: present but
/// neither truthy nor falsy.
pub open spec fn flag_is_unrecognized(flag: Option<&str>) -> bool {
    match flag {
        Some(v) => !spec_truthy(v@) && !spec_falsy(v@),
        None => false,
    }
}

/// The build configuration, resolved once before the pipeline runs.
#[derive(Clone, Copy, Debug, PartialEq, Eq, Structural)]
pub struct BuildConfig {
    /// Bypass compilation entirely; no artifact is produced.
    pub skip_build: bool,
    /// Compile inside the pinned, isolated environment so that
    /// byte-identical source yields a byte-identical artifact.
    pub reproducible: bool,
}

/// A malformed configuration value, reported rather than silently dropped.
#[derive(Clone, Copy, Debug, PartialEq, Eq, Structural)]
pub enum ConfigWarning {
    /// The reproducible flag held a value that is neither truthy nor
    /// falsy; the safe non-reproducible default is used.
    UnrecognizedReproducibleValue,
}

/// Resolves the three recognized flags into one configuration.  A skip
/// request from either skip flag bypasses the build; the reproducible
/// path is taken only on an explicitly truthy value, and a malformed
/// value falls back to non-reproducible with a warning.
pub fn resolve_build_config(
    skip_flag: Option<&str>,
    test_skip_flag: Option<&str>,
    reproducible_flag: Option<&str>,
) -> (r: (BuildConfig, Option<ConfigWarning>))
    ensures
        r.0.skip_build == (flag_requests_skip(skip_flag) || flag_requests_skip(test_skip_flag)),
        r.0.reproducible == flag_enables_reproducible(reproducible_flag),
        r.1 == (if flag_is_unrecognized(reproducible_flag) {
            Some(ConfigWarning::UnrecognizedReproducibleValue)
        } else {
            None::<ConfigWarning>
        }),
{
    let skip_requested: bool = match skip_flag {
        Some(v) => match parse_bool_flag(v) {
            FlagSetting::Enabled => true,
            _ => false,
        },
        None => false,
    };
    let test_skip_requested: bool = match test_skip_flag {
        Some(v) => match parse_bool_flag(v) {
            FlagSetting::Enabled => true,
            _ => false,
        },
        None => false,
    };
    let (reproducible, warning): (bool, Option<ConfigWarning>) = match reproducible_flag {
        Some(v) => match parse_bool_flag(v) {
            FlagSetting::Enabled => (true, None),
            FlagSetting::Disabled => (false, None),
            FlagSetting::Unrecognized => (
                false,
                Some(ConfigWarning::UnrecognizedReproducibleValue),
            ),
        },
        None => (false, None),
    };
    (
        BuildConfig { skip_build: skip_requested || test_skip_requested, reproducible },
        warning,
    )
}

/// The actions one pipeline run takes, derived from its configuration:
/// compile or not, inside the isolated environment or on the ambient
/// toolchain, and whether to publish the artifact and its identifier
/// afterwards.
#[derive(Clone, Copy, Debug, PartialEq, Eq, Structural)]
pub struct PipelinePlan {
    pub build_guest: bool,
    pub sandboxed: bool,
    pub publish: bool,
}

/// The pipeline's decision table: a skipped build does nothing further;
/// only the reproducible path compiles in the isolated environment, and
/// only it publishes the artifact and logs its identifier.
pub fn plan_pipeline(config: &BuildConfig) -> (r: PipelinePlan)
    ensures
        r.build_guest == !config.skip_build,
        r.sandboxed == (!config.skip_build && config.reproducible),
        r.publish == (!config.skip_build && config.reproducible),
{
    PipelinePlan {
        build_guest: !config.skip_build,
        sandboxed: !config.skip_build && config.reproducible,
        publish: !config.skip_build && config.reproducible,
    }
}

/// The method identifier the proving system assigns to an artifact, if
/// its bytes form a valid program image; it depends on the bytes alone.
pub uninterp spec fn image_id_of(artifact: Seq<u8>) -> Option<Seq<u8>>;

/// Relies on risc0_binfmt::compute_image_id: a 256-bit image identifier
/// derived deterministically from the program binary's bytes, or an error
/// when the bytes do not decode as a program binary.
#[verifier::external_body]
fn compute_image_id_bytes(artifact: &Vec<u8>) -> (r: Option<Vec<u8>>)
    ensures
        match r {
            Some(d) => image_id_of(artifact@) == Some(d@) && d@.len() == 32,
            None => image_id_of(artifact@) is None,
        },
{
    match risc0_binfmt::compute_image_id(artifact.as_slice()) {
        Ok(digest) => Some(digest.as_bytes().to_vec()),
        Err(_) => None,
    }
}

/// How the publication step ended.
#[derive(Debug)]
pub enum PublishOutcome {
    /// The artifact was found; its identifier is ready for embedding.
    Published { method_id: Vec<u8> },
    /// Soft failure: no artifact at the expected location.  Reported and
    /// skipped; it does not affect an already completed build.
    ArtifactMissing,
    /// Hard failure: the artifact's bytes do not form a valid program
    /// image, so no trustworthy identifier exists.
    InvalidArtifact,
}

/// The publication step: given the artifact bytes found at the expected
/// location, if any, derive the method identifier to embed downstream.
pub fn publish_artifact(artifact: Option<&Vec<u8>>) -> (r: PublishOutcome)
    ensures
        match artifact {
            None => r is ArtifactMissing,
            Some(b) => match image_id_of(b@) {
                Some(d) => {
                    &&& r matches PublishOutcome::Published { method_id }
                    &&& method_id@ == d
                    &&& method_id@.len() == 32
                },
                None => r is InvalidArtifact,
            },
        },
{
    match artifact {
        None => PublishOutcome::ArtifactMissing,
        Some(bytes) => match compute_image_id_bytes(bytes) {
            Some(id) => PublishOutcome::Published { method_id: id },
            None => PublishOutcome::InvalidArtifact,
        },
    }
}

/// Reproducibility of the identifier: it is a function of the artifact's
/// bytes alone, so byte-identical artifacts receive identical
/// identifiers.  That the isolated build yields byte-identical artifacts
/// from identical source is the pinned toolchain's guarantee, outside
/// this library.
pub proof fn lemma_method_identifier_reproducible(a1: Seq<u8>, a2: Seq<u8>)
    requires
        a1 == a2,
    ensures
        image_id_of(a1) == image_id_of(a2),
{
}

} // verus!
