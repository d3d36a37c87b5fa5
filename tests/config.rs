use katanna::config::{build_config, ProfileValues};

fn strings(v: &[&str]) -> Vec<String> {
    v.iter().map(|s| s.to_string()).collect()
}

#[test]
fn all_overrides_absent() {
    let c = build_config(None, None, None, None);
    assert_eq!(c.build.rustc_wrapper, None);
    assert_eq!(c.target.linux.linker, None);
    assert_eq!(c.target.windows.linker, None);
    assert_eq!(c.target.mac.linker, None);
    assert_eq!(
        c.target.linux.rustflags,
        strings(&["-Clink-arg=-fuse-ld=lld", "-Zshare-generics=y"])
    );
    assert_eq!(c.target.windows.rustflags, strings(&["-Zshare-generics=y"]));
    assert_eq!(
        c.target.mac.rustflags,
        strings(&["-C", "-Zshare-generics=y", "-Csplit-debuginfo=unpacked"])
    );
}

#[test]
fn profiles_are_fixed() {
    let c = build_config(Some("sccache".to_string()), None, None, None);
    assert_eq!(
        c.profile.dev,
        ProfileValues { opt_level: 0, debug: 2, incremental: true, codegen_units: 512 }
    );
    assert_eq!(
        c.profile.release,
        ProfileValues { opt_level: 3, debug: 0, incremental: false, codegen_units: 256 }
    );
    assert!(c.profile.release.codegen_units < c.profile.dev.codegen_units);
    assert!(c.profile.release.debug < c.profile.dev.debug);
}

#[test]
fn wrapper_is_kept() {
    let c = build_config(Some("/usr/bin/sccache".to_string()), None, None, None);
    assert_eq!(c.build.rustc_wrapper, Some("/usr/bin/sccache".to_string()));
}

#[test]
fn clang_and_lld_linkers() {
    let c = build_config(None, Some("clang".to_string()), Some("lld".to_string()), None);
    assert_eq!(c.target.linux.linker, Some("clang".to_string()));
    assert_eq!(c.target.windows.linker, Some("lld".to_string()));
    assert_eq!(c.target.mac.linker, None);
    assert_eq!(c.target.mac.rustflags.len(), 3);
}

#[test]
fn alt_linker_appends_mac_flag() {
    let c = build_config(None, None, None, Some("/usr/local/bin/zld".to_string()));
    assert_eq!(c.target.mac.rustflags.len(), 4);
    assert_eq!(c.target.mac.rustflags[3], "link-arg=-fuse-ld=/usr/local/bin/zld");
    assert_eq!(
        c.target.mac.rustflags[..3].to_vec(),
        strings(&["-C", "-Zshare-generics=y", "-Csplit-debuginfo=unpacked"])
    );
    assert_eq!(c.target.mac.linker, None);
    assert_eq!(c.target.linux.rustflags.len(), 2);
    assert_eq!(c.target.windows.rustflags.len(), 1);
}

#[test]
fn alt_linker_empty_name() {
    let c = build_config(None, None, None, Some(String::new()));
    assert_eq!(c.target.mac.rustflags[3], "link-arg=-fuse-ld=");
}

#[test]
fn building_twice_gives_the_same_config() {
    let make = || {
        build_config(
            Some("sccache".to_string()),
            Some("clang".to_string()),
            Some("lld".to_string()),
            Some("zld".to_string()),
        )
    };
    assert_eq!(make(), make());
}
