//! The configuration record written to the build tool's config file.
use vstd::prelude::*;

verus! {

/// Optimisation settings of one build profile.
#[derive(Debug, Clone, Copy, PartialEq, Eq)]
pub struct ProfileValues {
    pub opt_level: u8,
    pub debug: u8,
    pub incremental: bool,
    pub codegen_units: u16,
}

/// Compiler flags and linker override of one target platform.
#[derive(Debug, Clone, PartialEq, Eq)]
pub struct TargetValues {
    pub rustflags: Vec<String>,
    pub linker: Option<String>,
}

/// The settings of every recognised target platform.
#[derive(Debug, Clone, PartialEq, Eq)]
pub struct Target {
    pub linux: TargetValues,
    pub windows: TargetValues,
    pub mac: TargetValues,
}

/// The two build profiles.
#[derive(Debug, Clone, Copy, PartialEq, Eq)]
pub struct Profile {
    pub dev: ProfileValues,
    pub release: ProfileValues,
}

/// The build section: the compiler wrapper, if any.
#[derive(Debug, Clone, PartialEq, Eq)]
pub struct Build {
    pub rustc_wrapper: Option<String>,
}

/// The whole configuration file.
#[derive(Debug, Clone, PartialEq, Eq)]
pub struct ConfigToml {
    pub build: Build,
    pub target: Target,
    pub profile: Profile,
}

/// What a target's settings mean: its flags and linker as character sequences.
pub ghost struct TargetModel {
    pub rustflags: Seq<Seq<char>>,
    pub linker: Option<Seq<char>>,
}

/// What a configuration means, with every string seen as its characters.
pub ghost struct ConfigModel {
    pub rustc_wrapper: Option<Seq<char>>,
    pub linux: TargetModel,
    pub windows: TargetModel,
    pub mac: TargetModel,
    pub dev: ProfileValues,
    pub release: ProfileValues,
}

pub open spec fn opt_view(o: Option<String>) -> Option<Seq<char>> {
    match o {
        Some(s) => Some(s@),
        None => None,
    }
}

pub open spec fn strings_view(v: Seq<String>) -> Seq<Seq<char>> {
    v.map_values(|s: String| s@)
}

impl View for TargetValues {
    type V = TargetModel;

    open spec fn view(&self) -> TargetModel {
        TargetModel { rustflags: strings_view(self.rustflags@), linker: opt_view(self.linker) }
    }
}

impl View for ConfigToml {
    type V = ConfigModel;

    open spec fn view(&self) -> ConfigModel {
        ConfigModel {
            rustc_wrapper: opt_view(self.build.rustc_wrapper),
            linux: self.target.linux@,
            windows: self.target.windows@,
            mac: self.target.mac@,
            dev: self.profile.dev,
            release: self.profile.release,
        }
    }
}

/// The prefix of the flag that selects an alternative linker on macOS.
pub open spec fn fuse_ld_prefix() -> Seq<char> {
    "link-arg=-fuse-ld="@
}

/// The macOS flags: three fixed ones, and a fourth that selects `alt` when given.
pub open spec fn mac_flags(alt: Option<Seq<char>>) -> Seq<Seq<char>> {
    let base = seq!["-C"@, "-Zshare-generics=y"@, "-Csplit-debuginfo=unpacked"@];
    match alt {
        Some(z) => base.push(fuse_ld_prefix() + z),
        None => base,
    }
}

pub open spec fn windows_flags() -> Seq<Seq<char>> {
    seq!["-Zshare-generics=y"@]
}

pub open spec fn linux_flags() -> Seq<Seq<char>> {
    seq!["-Clink-arg=-fuse-ld=lld"@, "-Zshare-generics=y"@]
}

pub open spec fn dev_profile() -> ProfileValues {
    ProfileValues { opt_level: 0, debug: 2, incremental: true, codegen_units: 512 }
}

pub open spec fn release_profile() -> ProfileValues {
    ProfileValues { opt_level: 3, debug: 0, incremental: false, codegen_units: 256 }
}

/// The configuration generated for the given overrides.
pub open spec fn config_model(
    wrapper: Option<Seq<char>>,
    clang: Option<Seq<char>>,
    lld: Option<Seq<char>>,
    alt: Option<Seq<char>>,
) -> ConfigModel {
    ConfigModel {
        rustc_wrapper: wrapper,
        linux: TargetModel { rustflags: linux_flags(), linker: clang },
        windows: TargetModel { rustflags: windows_flags(), linker: lld },
        mac: TargetModel { rustflags: mac_flags(alt), linker: None },
        dev: dev_profile(),
        release: release_profile(),
    }
}

fn flag(s: &str) -> (r: String)
    ensures
        r@ == s@,
{
    String::from_str(s)
}

/// Builds the configuration: fixed flags and profiles, the wrapper and the
/// Linux and Windows linkers as given, and on macOS a flag selecting
/// `zld_path` when it is present.
pub fn build_config(
    sccache_path: Option<String>,
    clang_path: Option<String>,
    lld_path: Option<String>,
    zld_path: Option<String>,
) -> (r: ConfigToml)
    ensures
        r@ == config_model(
            opt_view(sccache_path),
            opt_view(clang_path),
            opt_view(lld_path),
            opt_view(zld_path),
        ),
{
    let mut mac_rustflags: Vec<String> = vec![
        flag("-C"),
        flag("-Zshare-generics=y"),
        flag("-Csplit-debuginfo=unpacked"),
    ];
    if let Some(zld) = zld_path {
        let f = flag("link-arg=-fuse-ld=").concat(zld.as_str());
        mac_rustflags.push(f);
    }
    let config = ConfigToml {
        build: Build { rustc_wrapper: sccache_path },
        target: Target {
            mac: TargetValues { rustflags: mac_rustflags, linker: None },
            windows: TargetValues { rustflags: vec![flag("-Zshare-generics=y")], linker: lld_path },
            linux: TargetValues {
                rustflags: vec![flag("-Clink-arg=-fuse-ld=lld"), flag("-Zshare-generics=y")],
                linker: clang_path,
            },
        },
        profile: Profile {
            release: ProfileValues { opt_level: 3, debug: 0, incremental: false, codegen_units: 256 },
            dev: ProfileValues { codegen_units: 512, debug: 2, incremental: true, opt_level: 0 },
        },
    };
    assert(config.target.mac@.rustflags =~= mac_flags(opt_view(zld_path)));
    assert(config.target.windows@.rustflags =~= windows_flags());
    assert(config.target.linux@.rustflags =~= linux_flags());
    config
}

/// Whatever overrides are given, the configuration has the fixed flags of
/// Linux and Windows, the macOS flags with the alternative linker appended
/// only when one is given, the given linkers and wrapper, no macOS linker,
/// and the fixed dev and release profiles, release with fewer codegen units
/// and a lower debug level than dev.
pub proof fn lemma_config_shape(
    wrapper: Option<Seq<char>>,
    clang: Option<Seq<char>>,
    lld: Option<Seq<char>>,
    alt: Option<Seq<char>>,
)
    ensures
        ({
            let c = config_model(wrapper, clang, lld, alt);
            &&& c.rustc_wrapper == wrapper
            &&& c.linux.rustflags == linux_flags()
            &&& c.linux.linker == clang
            &&& c.windows.rustflags == windows_flags()
            &&& c.windows.linker == lld
            &&& c.mac.rustflags == mac_flags(alt)
            &&& c.mac.linker is None
            &&& c.dev == dev_profile()
            &&& c.release == release_profile()
            &&& c.release.codegen_units < c.dev.codegen_units
            &&& c.release.debug < c.dev.debug
        }),
{
}

/// Two configurations built from the same overrides are the same.
pub proof fn lemma_build_deterministic(
    wrapper: Option<Seq<char>>,
    clang: Option<Seq<char>>,
    lld: Option<Seq<char>>,
    alt: Option<Seq<char>>,
    first: ConfigToml,
    second: ConfigToml,
)
    requires
        first@ == config_model(wrapper, clang, lld, alt),
        second@ == config_model(wrapper, clang, lld, alt),
    ensures
        first@ == second@,
{
}

/// The macOS flags are the three fixed ones without an alternative linker;
/// with one, there is a fourth, which selects it.
pub proof fn lemma_mac_flags_len(alt: Option<Seq<char>>)
    ensures
        alt is None ==> mac_flags(alt).len() == 3,
        alt is Some ==> mac_flags(alt).len() == 4 && mac_flags(alt)[3] == fuse_ld_prefix()
            + alt->Some_0,
        mac_flags(alt).subrange(0, 3) == mac_flags(None),
{
    assert(mac_flags(alt).subrange(0, 3) =~= mac_flags(None));
}

} // verus!
