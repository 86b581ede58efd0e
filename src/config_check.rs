//! The build-time check: which build configurations may produce a binary.
use vstd::prelude::*;

use crate::text::mentions;
use crate::text::readme_link;

verus! {

/// The build settings that the build check reads.
#[derive(Clone, Copy, Debug, PartialEq, Eq, Structural)]
pub struct BuildConfig {
    /// A documentation-only build.
    pub doc_build: bool,
    /// A debug build (debug assertions on).
    pub debug_build: bool,
    /// The AVX2 target feature is enabled for this compilation.
    pub avx2_enabled: bool,
    /// The NEON target feature is enabled for this compilation.
    pub neon_enabled: bool,
    /// The scalar fallback was accepted on purpose.
    pub scalar_accepted: bool,
}

/// Why the build check refused a build.
#[derive(Clone, Copy, Debug, PartialEq, Eq, Structural)]
pub enum BuildError {
    /// A release build in which neither AVX2 nor NEON is enabled, and the
    /// scalar fallback was not accepted.
    ScalarFallback,
}

/// A build may go on when any one of its five settings holds.
pub open spec fn build_allowed(c: BuildConfig) -> bool {
    c.doc_build || c.debug_build || c.avx2_enabled || c.neon_enabled || c.scalar_accepted
}

/// The message shown when a build is refused: why, how to enable native
/// code generation, how to accept the scalar fallback, and where to read more.
pub const BUILD_REFUSED_MESSAGE: &'static str = "
The tool you are trying to build uses AVX2 (on x64) or NEON (on aarch64) SIMD instructions for performance.
Unfortunately, AVX2 is not enabled by default on x64.
To get the expected performance, compile/install using e.g.:
RUSTFLAGS=\"-C target-cpu=native\" cargo ...
Alternatively, silence this error by activating the `scalar` feature (eg `cargo install -F scalar ...`).
See the readme at https://github.com/ragnargrootkoerkamp/ensure_simd for details.";

/// The phrase that says why wide SIMD is needed.
pub open spec fn wide_simd_reason() -> Seq<char> {
    "uses AVX2 (on x64) or NEON (on aarch64) SIMD instructions"@
}

/// The phrase that says why the build fell short of it.
pub open spec fn avx2_off_by_default() -> Seq<char> {
    "AVX2 is not enabled by default on x64"@
}

/// The phrase that names the native code generation remedy.
pub open spec fn native_codegen_remedy() -> Seq<char> {
    "RUSTFLAGS=\"-C target-cpu=native\""@
}

/// The phrase that names the scalar opt-out remedy.
pub open spec fn scalar_opt_out_remedy() -> Seq<char> {
    "`scalar` feature"@
}

/// The command-line flag that turns the scalar opt-out on.
pub open spec fn scalar_opt_out_flag() -> Seq<char> {
    "-F scalar"@
}

/// The message of a refused build says why the build was refused, names
/// both remedies, and links to the readme.
pub proof fn lemma_build_refused_message_contents()
    ensures
        mentions(BUILD_REFUSED_MESSAGE@, wide_simd_reason()),
        mentions(BUILD_REFUSED_MESSAGE@, avx2_off_by_default()),
        mentions(BUILD_REFUSED_MESSAGE@, native_codegen_remedy()),
        mentions(BUILD_REFUSED_MESSAGE@, scalar_opt_out_remedy()),
        mentions(BUILD_REFUSED_MESSAGE@, scalar_opt_out_flag()),
        mentions(BUILD_REFUSED_MESSAGE@, readme_link()),
{
    let m = BUILD_REFUSED_MESSAGE@;
    reveal_strlit("
The tool you are trying to build uses AVX2 (on x64) or NEON (on aarch64) SIMD instructions for performance.
Unfortunately, AVX2 is not enabled by default on x64.
To get the expected performance, compile/install using e.g.:
RUSTFLAGS=\"-C target-cpu=native\" cargo ...
Alternatively, silence this error by activating the `scalar` feature (eg `cargo install -F scalar ...`).
See the readme at https://github.com/ragnargrootkoerkamp/ensure_simd for details.");
    reveal_strlit("uses AVX2 (on x64) or NEON (on aarch64) SIMD instructions");
    reveal_strlit("AVX2 is not enabled by default on x64");
    reveal_strlit("RUSTFLAGS=\"-C target-cpu=native\"");
    reveal_strlit("`scalar` feature");
    reveal_strlit("-F scalar");
    reveal_strlit("https://github.com/ragnargrootkoerkamp/ensure_simd");
    let at: int = 34;
    assert(m.subrange(at, at + wide_simd_reason().len()) =~= wide_simd_reason());
    let at: int = 124;
    assert(m.subrange(at, at + avx2_off_by_default().len()) =~= avx2_off_by_default());
    let at: int = 224;
    assert(m.subrange(at, at + native_codegen_remedy().len()) =~= native_codegen_remedy());
    let at: int = 319;
    assert(m.subrange(at, at + scalar_opt_out_remedy().len()) =~= scalar_opt_out_remedy());
    let at: int = 355;
    assert(m.subrange(at, at + scalar_opt_out_flag().len()) =~= scalar_opt_out_flag());
    let at: int = 390;
    assert(m.subrange(at, at + readme_link().len()) =~= readme_link());
}

/// Decides whether a build with these settings may go on.
pub fn check_build(c: &BuildConfig) -> (r: Result<(), BuildError>)
    ensures
        r is Ok <==> build_allowed(*c),
        r is Err ==> r == Err::<(), BuildError>(BuildError::ScalarFallback),
{
    if c.doc_build || c.debug_build || c.avx2_enabled || c.neon_enabled || c.scalar_accepted {
        Ok(())
    } else {
        Err(BuildError::ScalarFallback)
    }
}

impl BuildError {
    /// The message shown when a build is refused.
    pub fn message(&self) -> (r: &'static str)
        ensures
            r@ == BUILD_REFUSED_MESSAGE@,
            mentions(r@, wide_simd_reason()),
            mentions(r@, avx2_off_by_default()),
            mentions(r@, native_codegen_remedy()),
            mentions(r@, scalar_opt_out_remedy()),
            mentions(r@, scalar_opt_out_flag()),
            mentions(r@, readme_link()),
    {
        proof {
            lemma_build_refused_message_contents();
        }
        BUILD_REFUSED_MESSAGE
    }
}

} // verus!
