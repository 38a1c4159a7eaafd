//! Tests for the build-support half: target parsing, cargo directives,
//! metadata, the ninja defines parser, and the meta-build argument list.

use skia_safe::cargo::{
    add_dependent_path, add_link_lib, add_link_libs, build_release, get_metadata, is_crate,
    package_repository_hash, parse_target,
};
use skia_safe::definitions::{clang_define_args, combine, compress, from_ninja};
use skia_safe::skia::{
    archive_url, clang_target_arch, dependencies, find_metadata_value, gn_args_command_line,
    is_python_version_2, path_included, unpack_directory_name, BinariesConfiguration,
    BuildConfiguration, FinalBuildConfiguration, PathFilter,
};
use skia_safe::strutil::{find_char, join_strings, lines, split_str, split_whitespace,
    str_starts_with};

fn pairs(raw: &[(&str, Option<&str>)]) -> Vec<(String, Option<String>)> {
    raw.iter().map(|(n, v)| (n.to_string(), v.map(|s| s.to_string()))).collect()
}

fn args(raw: &[(&str, &str)]) -> Vec<(String, String)> {
    raw.iter().map(|(n, v)| (n.to_string(), v.to_string())).collect()
}

#[test]
fn split_str_separates_pieces() {
    let parts = split_str("x86_64-unknown-linux-gnu", '-');
    assert_eq!(parts, vec!["x86_64", "unknown", "linux", "gnu"]);
    assert_eq!(split_str("", '-'), vec![""]);
    assert_eq!(split_str("a--b", '-'), vec!["a", "", "b"]);
}

#[test]
fn split_whitespace_drops_empty_tokens() {
    assert_eq!(split_whitespace("  a \t bb  c "), vec!["a", "bb", "c"]);
    assert_eq!(split_whitespace(""), Vec::<String>::new());
}

#[test]
fn lines_strip_carriage_returns() {
    assert_eq!(lines("a\r\nb\nc"), vec!["a", "b", "c"]);
}

#[test]
fn find_char_returns_first_index() {
    assert_eq!(find_char("a=b=c", '='), Some(1));
    assert_eq!(find_char("abc", '='), None);
}

#[test]
fn join_strings_uses_separator() {
    let v = vec!["a".to_string(), "b".to_string(), "c".to_string()];
    assert_eq!(join_strings(&v, ", "), "a, b, c");
    assert_eq!(join_strings(&Vec::new(), ", "), "");
}

#[test]
fn str_starts_with_checks_prefix() {
    assert!(str_starts_with("Python 2.7.15+", "Python 2."));
    assert!(!str_starts_with("Python 3.7", "Python 2."));
}

#[test]
fn parse_target_reads_four_components() {
    let t = parse_target("x86_64-unknown-linux-gnu");
    assert_eq!(t.architecture, "x86_64");
    assert_eq!(t.vendor, "unknown");
    assert_eq!(t.system, "linux");
    assert_eq!(t.abi.as_deref(), Some("gnu"));
    let (a, v, s, abi) = t.as_strs();
    assert_eq!((a, v, s, abi), ("x86_64", "unknown", "linux", Some("gnu")));
}

#[test]
fn parse_target_without_abi() {
    let t = parse_target("x86_64-apple-darwin");
    assert_eq!(t.abi, None);
    assert!(!t.is_windows());
    let w = parse_target("x86_64-pc-windows-msvc");
    assert!(w.is_windows());
}

#[test]
fn build_release_reads_the_profile() {
    assert!(build_release("release"));
    assert!(!build_release("debug"));
}

#[test]
fn link_directives() {
    assert_eq!(add_link_lib("stdc++"), "cargo:rustc-link-lib=stdc++");
    let libs = vec!["GL".to_string(), "freetype".to_string()];
    assert_eq!(
        add_link_libs(&libs),
        vec!["cargo:rustc-link-lib=GL", "cargo:rustc-link-lib=freetype"]
    );
    assert_eq!(add_dependent_path("src/bindings.cpp"), "cargo:rerun-if-changed=src/bindings.cpp");
}

#[test]
fn repository_hash_from_vcs_info() {
    let vcs = "{\"git\":{\"sha1\":\"6d1c0d4188e5e4cadca38a2cfd3cbd27bfe5d157\"}}";
    assert_eq!(
        package_repository_hash(vcs),
        Some("6d1c0d4188e5e4cadca38a2cfd3cbd27bfe5d157".to_string())
    );
    assert_eq!(package_repository_hash("{\"git\":{}}"), None);
    assert_eq!(package_repository_hash("not json"), None);
    assert!(is_crate(&Some(vcs.to_string())));
    assert!(!is_crate(&Some("{}".to_string())));
    assert!(!is_crate(&None));
}

#[test]
fn metadata_from_manifest() {
    let manifest = "[package]\nname = \"skia-bindings\"\n\n[package.metadata]\ndepot_tools = \"e8\"\nskia = \"8f\"\n";
    let metadata = get_metadata(manifest).unwrap();
    assert_eq!(metadata, args(&[("depot_tools", "\"e8\""), ("skia", "\"8f\"")]));
    assert_eq!(get_metadata("[package]\nname = \"x\"\n"), None);
    assert_eq!(get_metadata("not toml ["), None);
    assert_eq!(find_metadata_value(&metadata, "skia"), Some("\"8f\"".to_string()));
    assert_eq!(find_metadata_value(&metadata, "harfbuzz"), None);
}

#[test]
fn find_metadata_value_takes_first_match() {
    let metadata = args(&[("skia", "1"), ("skia", "2")]);
    assert_eq!(find_metadata_value(&metadata, "skia"), Some("1".to_string()));
}

#[test]
fn from_ninja_reads_the_defines_line() {
    let ninja = "rule alink\n  command = ar\ndefines = -DNDEBUG -DSK_R32_SHIFT=16 -DPREFIX=a=b\nincludes = -I..\n";
    let defs = from_ninja(ninja);
    assert_eq!(
        defs,
        pairs(&[("NDEBUG", None), ("SK_R32_SHIFT", Some("16")), ("PREFIX", Some("a=b"))])
    );
}

#[test]
fn from_ninja_accepts_carriage_returns() {
    let ninja = "cflags = -Wall\r\ndefines = -DNDEBUG -DU=1\r\n";
    assert_eq!(from_ninja(ninja), pairs(&[("NDEBUG", None), ("U", Some("1"))]));
}

#[test]
fn lines_keep_a_trailing_empty_piece() {
    assert_eq!(lines("a\n"), vec!["a", ""]);
}

#[test]
fn compress_keeps_first_definition_of_a_name() {
    let defs = pairs(&[("A", Some("1")), ("B", None), ("A", Some("2"))]);
    assert_eq!(compress(defs), pairs(&[("A", Some("1")), ("B", None)]));
}

#[test]
fn compress_is_idempotent() {
    let defs = pairs(&[("A", Some("1")), ("B", None), ("A", Some("2")), ("B", Some("3"))]);
    let once = compress(defs);
    let twice = compress(once.clone());
    assert_eq!(twice, once);
}

#[test]
fn split_and_join_roundtrip() {
    let text = "a-b--c-";
    assert_eq!(join_strings(&split_str(text, '-'), "-"), text);
    assert_eq!(join_strings(&split_str("", '-'), "-"), "");
}

#[test]
fn combine_prefers_the_first_list() {
    let a = pairs(&[("A", Some("1"))]);
    let b = pairs(&[("A", Some("2")), ("C", None)]);
    assert_eq!(combine(a, b), pairs(&[("A", Some("1")), ("C", None)]));
}

#[test]
fn clang_define_args_render_definitions() {
    let defs = pairs(&[("NDEBUG", None), ("SK_R32_SHIFT", Some("16"))]);
    assert_eq!(clang_define_args(&defs), vec!["-DNDEBUG", "-DSK_R32_SHIFT=16"]);
}

#[test]
fn define_args_parse_back_as_a_defines_line() {
    let defs = pairs(&[("NDEBUG", None), ("SK_R32_SHIFT", Some("16"))]);
    let line = format!("defines = {}\n", clang_define_args(&defs).join(" "));
    assert_eq!(from_ninja(&line), defs);
}

#[test]
fn gn_args_for_a_plain_linux_build() {
    let target = parse_target("x86_64-unknown-linux-gnu");
    let build = BuildConfiguration::new(&target, &target, false, false, false);
    let fin = FinalBuildConfiguration::from_build_configuration(&build, &target, &None, "");
    assert_eq!(
        fin.gn_args,
        args(&[
            ("is_official_build", "true"),
            ("skia_use_system_libjpeg_turbo", "false"),
            ("skia_use_system_libpng", "false"),
            ("skia_use_libwebp", "false"),
            ("skia_use_system_zlib", "false"),
            ("skia_enable_skottie", "false"),
            ("skia_use_xps", "false"),
            ("skia_use_dng_sdk", "false"),
            ("skia_enable_particles", "false"),
            ("cc", "\"clang\""),
            ("cxx", "\"clang++\""),
            ("skia_use_icu", "false"),
            ("skia_use_expat", "false"),
        ])
    );
    assert_eq!(fin.binding_sources, vec!["src/bindings.cpp"]);
    assert_eq!(fin.definitions, Vec::new());
}

#[test]
fn gn_args_for_an_android_shaper_build() {
    let host = parse_target("x86_64-unknown-linux-gnu");
    let target = parse_target("aarch64-linux-android");
    let build = BuildConfiguration::new(&host, &target, false, false, true);
    let fin = FinalBuildConfiguration::from_build_configuration(&build, &target, &None, "/ndk");
    assert_eq!(
        fin.gn_args,
        args(&[
            ("is_official_build", "true"),
            ("skia_use_system_libjpeg_turbo", "false"),
            ("skia_use_system_libpng", "false"),
            ("skia_use_libwebp", "false"),
            ("skia_use_system_zlib", "false"),
            ("skia_enable_skottie", "false"),
            ("skia_use_xps", "false"),
            ("skia_use_dng_sdk", "false"),
            ("skia_enable_particles", "false"),
            ("cc", "\"clang\""),
            ("cxx", "\"clang++\""),
            ("skia_enable_skshaper", "true"),
            ("skia_use_icu", "true"),
            ("skia_use_system_icu", "false"),
            ("skia_use_harfbuzz", "true"),
            ("skia_use_system_harfbuzz", "false"),
            ("skia_use_sfntly", "false"),
            ("ndk", "\"/ndk\""),
            ("target_cpu", "\"arm64\""),
            ("skia_use_system_freetype2", "false"),
            ("skia_enable_fontmgr_android", "true"),
            ("skia_use_expat", "true"),
            ("skia_use_system_expat", "false"),
        ])
    );
    assert_eq!(fin.binding_sources, vec!["src/bindings.cpp", "src/shaper.cpp"]);
}

#[test]
fn gn_args_for_a_windows_build() {
    let target = parse_target("x86_64-pc-windows-msvc");
    let build = BuildConfiguration::new(&target, &target, true, false, false);
    let fin = FinalBuildConfiguration::from_build_configuration(
        &build,
        &target,
        &Some("C:/VC".to_string()),
        "",
    );
    assert_eq!(
        fin.gn_args,
        args(&[
            ("is_official_build", "true"),
            ("skia_use_system_libjpeg_turbo", "false"),
            ("skia_use_system_libpng", "false"),
            ("skia_use_libwebp", "false"),
            ("skia_use_system_zlib", "false"),
            ("skia_enable_skottie", "false"),
            ("skia_use_xps", "false"),
            ("skia_use_dng_sdk", "false"),
            ("skia_enable_particles", "false"),
            ("cc", "\"clang\""),
            ("cxx", "\"clang++\""),
            ("skia_use_icu", "false"),
            ("skia_use_vulkan", "true"),
            ("skia_enable_spirv_validation", "false"),
            ("win_vc", "\"C:/VC\""),
            ("clang_win", "\"C:/Program Files/LLVM\""),
            ("skia_use_expat", "false"),
            ("extra_cflags", "[\"/MD\"]"),
        ])
    );
}

#[test]
fn apple_targets_build_all_libraries() {
    let host = parse_target("x86_64-apple-darwin");
    let target = parse_target("x86_64-apple-darwin");
    let build = BuildConfiguration::new(&host, &target, false, false, false);
    let fin = FinalBuildConfiguration::from_build_configuration(&build, &target, &None, "");
    assert!(fin.gn_args.contains(&("skia_enable_skottie".to_string(), "true".to_string())));
    assert!(fin.gn_args.contains(&("skia_enable_particles".to_string(), "true".to_string())));
}

#[test]
fn binaries_configuration_for_linux() {
    let target = parse_target("x86_64-unknown-linux-gnu");
    let build = BuildConfiguration::new(&target, &target, false, false, false);
    let config = BinariesConfiguration::from_cargo_env(&build, &target, "/out");
    assert_eq!(config.output_directory, "/out/skia");
    assert_eq!(config.features, Vec::<String>::new());
    assert_eq!(config.link_libraries, vec!["stdc++", "bz2", "GL", "fontconfig", "freetype"]);
    assert_eq!(config.built_libraries, vec!["skia", "skia-bindings"]);
    assert_eq!(config.additional_files, Vec::<String>::new());
}

#[test]
fn binaries_configuration_with_shaper() {
    let target = parse_target("x86_64-apple-darwin");
    let build = BuildConfiguration::new(&target, &target, true, true, true);
    let config = BinariesConfiguration::from_cargo_env(&build, &target, "/out");
    assert_eq!(config.features, vec!["vulkan", "svg", "shaper"]);
    assert_eq!(config.additional_files, vec!["icudtl.dat"]);
    assert_eq!(config.built_libraries, vec!["skshaper", "skia", "skia-bindings"]);
    assert_eq!(
        config.link_libraries,
        vec!["c++", "framework=OpenGL", "framework=ApplicationServices"]
    );
}

#[test]
fn commit_to_cargo_directives() {
    let target = parse_target("aarch64-linux-android");
    let host = parse_target("x86_64-unknown-linux-gnu");
    let build = BuildConfiguration::new(&host, &target, false, false, false);
    let config = BinariesConfiguration::from_cargo_env(&build, &target, "/out");
    assert_eq!(
        config.commit_to_cargo(),
        vec![
            "cargo:rustc-link-lib=log",
            "cargo:rustc-link-lib=android",
            "cargo:rustc-link-lib=EGL",
            "cargo:rustc-link-lib=GLESv2",
            "cargo:rustc-link-search=/out/skia",
            "cargo:rustc-link-lib=static=skia",
            "cargo:rustc-link-lib=static=skia-bindings",
        ]
    );
}

#[test]
fn gn_args_command_line_joins_pairs() {
    let gn_args = args(&[("is_official_build", "true"), ("cc", "\"clang\"")]);
    assert_eq!(gn_args_command_line(&gn_args), "is_official_build=true cc=\"clang\"");
    assert_eq!(gn_args_command_line(&Vec::new()), "");
}

#[test]
fn clang_target_arch_maps_names() {
    assert_eq!(clang_target_arch("i686"), "x86");
    assert_eq!(clang_target_arch("x86_64"), "x64");
    assert_eq!(clang_target_arch("armv7"), "arm");
    assert_eq!(clang_target_arch("aarch64"), "arm64");
    assert_eq!(clang_target_arch("wasm32"), "wasm32");
}

#[test]
fn python_2_probe_reads_both_streams() {
    assert!(is_python_version_2("Python 2.7.15+", ""));
    // Python 2 pushes the banner to standard error.
    assert!(is_python_version_2("", "Python 2.7.1"));
    assert!(!is_python_version_2("Python 3.7.0", "Python 2.7.1"));
    assert!(!is_python_version_2("", ""));
}

#[test]
fn dependency_list_and_filters() {
    let deps = dependencies();
    assert_eq!(deps.len(), 2);
    assert_eq!(deps[0].repo, "skia");
    assert_eq!(deps[0].url, "https://codeload.github.com/google/skia/tar.gz");
    assert_eq!(deps[1].repo, "depot_tools");
    assert_eq!(deps[1].url, "https://codeload.github.com/rust-skia/depot_tools/tar.gz");
    assert!(path_included(&PathFilter::SkiaTree, "src/core/SkPath.cpp"));
    assert!(!path_included(&PathFilter::SkiaTree, "infra/bots/tasks.json"));
    assert!(path_included(&PathFilter::NinjaOnly, "ninja.exe"));
    assert!(!path_included(&PathFilter::NinjaOnly, "gn/gn.py"));
    assert_eq!(path_included(&deps[0].filter, "infra"), false);
    assert_eq!(path_included(&deps[1].filter, "ninja"), true);
}

#[test]
fn archive_names() {
    assert_eq!(
        archive_url("https://codeload.github.com/google/skia/tar.gz", "8f77c8"),
        "https://codeload.github.com/google/skia/tar.gz/8f77c8"
    );
    assert_eq!(unpack_directory_name("skia", "8f77c8"), "skia-8f77c8");
}
