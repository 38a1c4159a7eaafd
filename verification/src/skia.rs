//! Build support for the native graphics library: deriving the meta-build
//! argument list, the binaries configuration and its cargo directives from
//! a build configuration and a target.
//!
//! Probing the environment (environment variables, installed tools) and
//! running external commands stay with the caller; every function here is a
//! pure computation on plain values.

use vstd::prelude::*;
use vstd::string::*;

use crate::cargo::{spec_link_lib_directive, add_link_libs, Target};
use crate::definitions::{clone_definitions, Definitions, DefinitionView};
use crate::strutil::{spec_join, spec_split, spec_starts_with, join_strings, split_str, str_eq,
    str_starts_with};

verus! {

/// The build configuration for the native library.
#[derive(Clone, PartialEq, Eq, Debug)]
pub struct BuildConfiguration {
    /// Do we build on a Windows OS?
    pub on_windows: bool,
    /// Build the native library in a release configuration?
    pub skia_release: bool,
    /// Build with Vulkan support?
    pub feature_vulkan: bool,
    /// Build with SVG support?
    pub feature_svg: bool,
    /// Build the shaper module, with harfbuzz and icu support?
    pub feature_shaper: bool,
    /// Build with animation support?
    pub feature_animation: bool,
    /// Support the DNG file format?
    pub feature_dng: bool,
    /// Build the particles module?
    pub feature_particles: bool,
    /// Build all of the native libraries, as the Apple platforms require?
    pub all_skia_libs: bool,
    /// Additional preprocessor definitions that override predefined ones.
    pub definitions: Definitions,
}

impl BuildConfiguration {
    /// The default configuration for the given host and target: a release
    /// build, with the optional modules driven by the given feature
    /// switches, and every library built when the target is an Apple
    /// platform.
    pub fn new(
        host: &Target,
        target: &Target,
        feature_vulkan: bool,
        feature_svg: bool,
        feature_shaper: bool,
    ) -> (r: BuildConfiguration)
        ensures
            r.on_windows == (host.system@ == "windows"@),
            r.skia_release == true,
            r.feature_vulkan == feature_vulkan,
            r.feature_svg == feature_svg,
            r.feature_shaper == feature_shaper,
            r.feature_animation == false,
            r.feature_dng == false,
            r.feature_particles == false,
            r.all_skia_libs == (target.vendor@ == "apple"@ && (target.system@ == "darwin"@
                || target.system@ == "ios"@)),
            r.definitions.deep_view() == Seq::<DefinitionView>::empty(),
    {
        let all_skia_libs = str_eq(target.vendor.as_str(), "apple") && (str_eq(
            target.system.as_str(),
            "darwin",
        ) || str_eq(target.system.as_str(), "ios"));
        let defs: Definitions = Vec::new();
        proof {
            assert(defs.deep_view() =~= Seq::<DefinitionView>::empty());
        }
        BuildConfiguration {
            on_windows: host.is_windows(),
            skia_release: true,
            feature_vulkan,
            feature_svg,
            feature_shaper,
            feature_animation: false,
            feature_dng: false,
            feature_particles: false,
            all_skia_libs,
            definitions: defs,
        }
    }
}

/// A name/value pair handed to the meta-build system.
pub type GnArgView = (Seq<char>, Seq<char>);

/// `true` or `false`, as the meta-build system spells booleans.
pub open spec fn spec_bool_arg(b: bool) -> Seq<char> {
    if b {
        "true"@
    } else {
        "false"@
    }
}

/// `s` surrounded by double quotes.
pub open spec fn spec_quote(s: Seq<char>) -> Seq<char> {
    "\""@ + s + "\""@
}

fn bool_arg(b: bool) -> (r: String)
    ensures
        r@ == spec_bool_arg(b),
{
    if b {
        String::from_str("true")
    } else {
        String::from_str("false")
    }
}

/// Surrounds `s` with double quotes.
pub fn quote(s: &str) -> (r: String)
    ensures
        r@ == spec_quote(s@),
{
    let mut q = String::from_str("\"");
    q.append(s);
    q.append("\"");
    q
}

/// The target runs Windows with the MSVC ABI.
pub open spec fn spec_is_msvc_target(t: &Target) -> bool {
    t.system@ == "windows"@ && match t.abi {
        Some(ref a) => a@ == "msvc"@,
        None => false,
    }
}

/// The target is Android.
pub open spec fn spec_is_android_target(t: &Target) -> bool {
    t.vendor@ == "linux"@ && t.system@ == "android"@
}

/// The target is iOS.
pub open spec fn spec_is_ios_target(t: &Target) -> bool {
    t.vendor@ == "apple"@ && t.system@ == "ios"@
}

/// The CPU name the compiler toolchain uses for a target architecture.
pub open spec fn spec_clang_target_arch(arch: Seq<char>) -> Seq<char> {
    if arch == "i686"@ {
        "x86"@
    } else if arch == "x86_64"@ {
        "x64"@
    } else if arch == "armv7"@ {
        "arm"@
    } else if arch == "aarch64"@ {
        "arm64"@
    } else {
        arch
    }
}

/// Maps a target architecture to the CPU name the compiler toolchain uses.
pub fn clang_target_arch<'a>(arch: &'a str) -> (r: &'a str)
    ensures
        r@ == spec_clang_target_arch(arch@),
{
    if str_eq(arch, "i686") {
        "x86"
    } else if str_eq(arch, "x86_64") {
        "x64"
    } else if str_eq(arch, "armv7") {
        "arm"
    } else if str_eq(arch, "aarch64") {
        "arm64"
    } else {
        arch
    }
}

/// The arguments every build passes to the meta-build system.
pub open spec fn spec_base_gn_args(b: &BuildConfiguration) -> Seq<GnArgView> {
    seq![
        ("is_official_build"@, spec_bool_arg(b.skia_release)),
        ("skia_use_system_libjpeg_turbo"@, "false"@),
        ("skia_use_system_libpng"@, "false"@),
        ("skia_use_libwebp"@, "false"@),
        ("skia_use_system_zlib"@, "false"@),
        ("skia_enable_skottie"@, spec_bool_arg(b.feature_animation || b.all_skia_libs)),
        ("skia_use_xps"@, "false"@),
        ("skia_use_dng_sdk"@, spec_bool_arg(b.feature_dng)),
        ("skia_enable_particles"@, spec_bool_arg(b.feature_particles || b.all_skia_libs)),
        ("cc"@, spec_quote("clang"@)),
        ("cxx"@, spec_quote("clang++"@)),
    ]
}

/// The components switched off in a debug build.
pub open spec fn spec_debug_gn_args(b: &BuildConfiguration) -> Seq<GnArgView> {
    if !b.skia_release {
        seq![
            ("skia_enable_atlas_text"@, "false"@),
            ("skia_enable_spirv_validation"@, "false"@),
            ("skia_enable_tools"@, "false"@),
            ("skia_enable_vulkan_debug_layers"@, "false"@),
            ("skia_use_libheif"@, "false"@),
            ("skia_use_lua"@, "false"@),
        ]
    } else {
        Seq::empty()
    }
}

/// The text-shaping arguments: harfbuzz and icu when the shaper module is
/// built, no icu otherwise.
pub open spec fn spec_shaper_gn_args(b: &BuildConfiguration) -> Seq<GnArgView> {
    if b.feature_shaper {
        seq![
            ("skia_enable_skshaper"@, "true"@),
            ("skia_use_icu"@, "true"@),
            ("skia_use_system_icu"@, "false"@),
            ("skia_use_harfbuzz"@, "true"@),
            ("skia_use_system_harfbuzz"@, "false"@),
            ("skia_use_sfntly"@, "false"@),
        ]
    } else {
        seq![("skia_use_icu"@, "false"@)]
    }
}

/// The Vulkan arguments.
pub open spec fn spec_vulkan_gn_args(b: &BuildConfiguration) -> Seq<GnArgView> {
    if b.feature_vulkan {
        seq![("skia_use_vulkan"@, "true"@), ("skia_enable_spirv_validation"@, "false"@)]
    } else {
        Seq::empty()
    }
}

/// The target-specific arguments. `win_vc` is the resolved Visual C++
/// installation, if any, and `ndk` the Android NDK location.
pub open spec fn spec_target_gn_args(
    b: &BuildConfiguration,
    t: &Target,
    win_vc: Option<Seq<char>>,
    ndk: Seq<char>,
) -> Seq<GnArgView> {
    if spec_is_msvc_target(t) && b.on_windows {
        (match win_vc {
            Some(w) => seq![("win_vc"@, spec_quote(w))],
            None => Seq::empty(),
        }) + seq![("clang_win"@, spec_quote("C:/Program Files/LLVM"@))]
    } else if spec_is_android_target(t) {
        seq![
            ("ndk"@, spec_quote(ndk)),
            ("target_cpu"@, spec_quote(spec_clang_target_arch(t.architecture@))),
            ("skia_use_system_freetype2"@, "false"@),
            ("skia_enable_fontmgr_android"@, "true"@),
        ]
    } else if spec_is_ios_target(t) {
        seq![
            ("target_os"@, spec_quote("ios"@)),
            ("target_cpu"@, spec_quote(spec_clang_target_arch(t.architecture@))),
        ]
    } else {
        Seq::empty()
    }
}

/// Whether the expat XML parser is needed: for SVG support, and always on
/// Android, where the font manager pulls it in.
pub open spec fn spec_use_expat(b: &BuildConfiguration, t: &Target) -> bool {
    b.feature_svg || spec_is_android_target(t)
}

/// The expat arguments.
pub open spec fn spec_expat_gn_args(b: &BuildConfiguration, t: &Target) -> Seq<GnArgView> {
    if spec_use_expat(b, t) {
        seq![("skia_use_expat"@, "true"@), ("skia_use_system_expat"@, "false"@)]
    } else {
        seq![("skia_use_expat"@, "false"@)]
    }
}

/// The extra compiler flags: `/MD` when building for MSVC on Windows.
pub open spec fn spec_gn_flags(b: &BuildConfiguration, t: &Target) -> Seq<Seq<char>> {
    if spec_is_msvc_target(t) && b.on_windows {
        seq!["/MD"@]
    } else {
        Seq::empty()
    }
}

/// The `extra_cflags` argument: the flags, each quoted, joined with commas
/// and bracketed; absent when there are no flags.
pub open spec fn spec_cflags_gn_args(b: &BuildConfiguration, t: &Target) -> Seq<GnArgView> {
    if spec_gn_flags(b, t).len() > 0 {
        seq![
            (
                "extra_cflags"@,
                "["@ + spec_join(
                    spec_gn_flags(b, t).map_values(|f: Seq<char>| spec_quote(f)),
                    ","@,
                ) + "]"@,
            ),
        ]
    } else {
        Seq::empty()
    }
}

/// The full argument list handed to the meta-build system, in order.
pub open spec fn spec_gn_args(
    b: &BuildConfiguration,
    t: &Target,
    win_vc: Option<Seq<char>>,
    ndk: Seq<char>,
) -> Seq<GnArgView> {
    spec_base_gn_args(b) + spec_debug_gn_args(b) + spec_shaper_gn_args(b) + spec_vulkan_gn_args(b)
        + spec_target_gn_args(b, t, win_vc, ndk) + spec_expat_gn_args(b, t) + spec_cflags_gn_args(
        b,
        t,
    )
}

/// The binding source files to compile.
pub open spec fn spec_binding_sources(b: &BuildConfiguration) -> Seq<Seq<char>> {
    if b.feature_shaper {
        seq!["src/bindings.cpp"@, "src/shaper.cpp"@]
    } else {
        seq!["src/bindings.cpp"@]
    }
}

/// The final, low-level build configuration.
#[derive(Clone, PartialEq, Eq, Debug)]
pub struct FinalBuildConfiguration {
    /// The name/value pairs passed as arguments to the meta-build system.
    pub gn_args: Vec<(String, String)>,
    /// The additional definitions, copied from the build configuration.
    pub definitions: Definitions,
    /// The binding source files to compile.
    pub binding_sources: Vec<String>,
}


fn push_arg(args: &mut Vec<(String, String)>, name: &str, value: String)
    ensures
        final(args).deep_view() == old(args).deep_view().push((name@, value@)),
{
    let ghost old_args = args.deep_view();
    args.push((String::from_str(name), value));
    proof {
        assert(args.deep_view() =~= old_args.push((name@, value@)));
    }
}

fn push_base_args(args: &mut Vec<(String, String)>, build: &BuildConfiguration)
    ensures
        final(args).deep_view() == old(args).deep_view() + spec_base_gn_args(build),
{
    let ghost g0 = args.deep_view();
    push_arg(args, "is_official_build", bool_arg(build.skia_release));
    push_arg(args, "skia_use_system_libjpeg_turbo", bool_arg(false));
    push_arg(args, "skia_use_system_libpng", bool_arg(false));
    push_arg(args, "skia_use_libwebp", bool_arg(false));
    push_arg(args, "skia_use_system_zlib", bool_arg(false));
    push_arg(
        args,
        "skia_enable_skottie",
        bool_arg(build.feature_animation || build.all_skia_libs),
    );
    push_arg(args, "skia_use_xps", bool_arg(false));
    push_arg(args, "skia_use_dng_sdk", bool_arg(build.feature_dng));
    push_arg(
        args,
        "skia_enable_particles",
        bool_arg(build.feature_particles || build.all_skia_libs),
    );
    push_arg(args, "cc", quote("clang"));
    push_arg(args, "cxx", quote("clang++"));
    proof {
        assert(args.deep_view() =~= g0 + spec_base_gn_args(build));
    }
}

fn push_debug_args(args: &mut Vec<(String, String)>, build: &BuildConfiguration)
    ensures
        final(args).deep_view() == old(args).deep_view() + spec_debug_gn_args(build),
{
    let ghost g0 = args.deep_view();
    if !build.skia_release {
        push_arg(args, "skia_enable_atlas_text", bool_arg(false));
        push_arg(args, "skia_enable_spirv_validation", bool_arg(false));
        push_arg(args, "skia_enable_tools", bool_arg(false));
        push_arg(args, "skia_enable_vulkan_debug_layers", bool_arg(false));
        push_arg(args, "skia_use_libheif", bool_arg(false));
        push_arg(args, "skia_use_lua", bool_arg(false));
        proof {
            assert(args.deep_view() =~= g0 + spec_debug_gn_args(build));
        }
    } else {
        proof {
            assert(args.deep_view() =~= g0 + spec_debug_gn_args(build));
        }
    }
}

fn push_shaper_args(args: &mut Vec<(String, String)>, build: &BuildConfiguration)
    ensures
        final(args).deep_view() == old(args).deep_view() + spec_shaper_gn_args(build),
{
    let ghost g0 = args.deep_view();
    if build.feature_shaper {
        push_arg(args, "skia_enable_skshaper", bool_arg(true));
        push_arg(args, "skia_use_icu", bool_arg(true));
        push_arg(args, "skia_use_system_icu", bool_arg(false));
        push_arg(args, "skia_use_harfbuzz", bool_arg(true));
        push_arg(args, "skia_use_system_harfbuzz", bool_arg(false));
        push_arg(args, "skia_use_sfntly", bool_arg(false));
        proof {
            assert(args.deep_view() =~= g0 + spec_shaper_gn_args(build));
        }
    } else {
        push_arg(args, "skia_use_icu", bool_arg(false));
        proof {
            assert(args.deep_view() =~= g0 + spec_shaper_gn_args(build));
        }
    }
}

fn push_vulkan_args(args: &mut Vec<(String, String)>, build: &BuildConfiguration)
    ensures
        final(args).deep_view() == old(args).deep_view() + spec_vulkan_gn_args(build),
{
    let ghost g0 = args.deep_view();
    if build.feature_vulkan {
        push_arg(args, "skia_use_vulkan", bool_arg(true));
        push_arg(args, "skia_enable_spirv_validation", bool_arg(false));
    }
    proof {
        assert(args.deep_view() =~= g0 + spec_vulkan_gn_args(build));
    }
}

/// Whether `t` is the MSVC Windows target.
fn is_msvc_target(t: &Target) -> (r: bool)
    ensures
        r == spec_is_msvc_target(t),
{
    str_eq(t.system.as_str(), "windows") && match &t.abi {
        Some(a) => str_eq(a.as_str(), "msvc"),
        None => false,
    }
}

fn push_target_args(
    args: &mut Vec<(String, String)>,
    build: &BuildConfiguration,
    target: &Target,
    win_vc: &Option<String>,
    ndk: &str,
)
    ensures
        final(args).deep_view() == old(args).deep_view() + spec_target_gn_args(
            build,
            target,
            win_vc.deep_view(),
            ndk@,
        ),
{
    let ghost g0 = args.deep_view();
    let is_msvc = is_msvc_target(target);
    let is_android = str_eq(target.vendor.as_str(), "linux") && str_eq(
        target.system.as_str(),
        "android",
    );
    let is_ios = str_eq(target.vendor.as_str(), "apple") && str_eq(target.system.as_str(), "ios");
    if is_msvc && build.on_windows {
        match win_vc {
            Some(w) => push_arg(args, "win_vc", quote(w.as_str())),
            None => {},
        }
        push_arg(args, "clang_win", quote("C:/Program Files/LLVM"));
        proof {
            assert(args.deep_view() =~= g0 + spec_target_gn_args(
                build,
                target,
                win_vc.deep_view(),
                ndk@,
            ));
        }
    } else if is_android {
        push_arg(args, "ndk", quote(ndk));
        push_arg(args, "target_cpu", quote(clang_target_arch(target.architecture.as_str())));
        push_arg(args, "skia_use_system_freetype2", bool_arg(false));
        push_arg(args, "skia_enable_fontmgr_android", bool_arg(true));
        proof {
            assert(args.deep_view() =~= g0 + spec_target_gn_args(
                build,
                target,
                win_vc.deep_view(),
                ndk@,
            ));
        }
    } else if is_ios {
        push_arg(args, "target_os", quote("ios"));
        push_arg(args, "target_cpu", quote(clang_target_arch(target.architecture.as_str())));
        proof {
            assert(args.deep_view() =~= g0 + spec_target_gn_args(
                build,
                target,
                win_vc.deep_view(),
                ndk@,
            ));
        }
    } else {
        proof {
            assert(args.deep_view() =~= g0 + spec_target_gn_args(
                build,
                target,
                win_vc.deep_view(),
                ndk@,
            ));
        }
    }
}

fn push_expat_args(args: &mut Vec<(String, String)>, build: &BuildConfiguration, target: &Target)
    ensures
        final(args).deep_view() == old(args).deep_view() + spec_expat_gn_args(build, target),
{
    let ghost g0 = args.deep_view();
    let is_android = str_eq(target.vendor.as_str(), "linux") && str_eq(
        target.system.as_str(),
        "android",
    );
    if build.feature_svg || is_android {
        push_arg(args, "skia_use_expat", bool_arg(true));
        push_arg(args, "skia_use_system_expat", bool_arg(false));
    } else {
        push_arg(args, "skia_use_expat", bool_arg(false));
    }
    proof {
        assert(args.deep_view() =~= g0 + spec_expat_gn_args(build, target));
    }
}

fn push_cflags_args(args: &mut Vec<(String, String)>, build: &BuildConfiguration, target: &Target)
    ensures
        final(args).deep_view() == old(args).deep_view() + spec_cflags_gn_args(build, target),
{
    let ghost g0 = args.deep_view();
    let is_msvc = is_msvc_target(target);
    if is_msvc && build.on_windows {
        let mut quoted: Vec<String> = Vec::new();
        quoted.push(quote("/MD"));
        let mut cflags = String::from_str("[");
        cflags.append(join_strings(&quoted, ",").as_str());
        cflags.append("]");
        proof {
            assert(quoted.deep_view() =~= seq![spec_quote("/MD"@)]);
            assert(spec_gn_flags(build, target).map_values(|f: Seq<char>| spec_quote(f))
                =~= seq![spec_quote("/MD"@)]);
        }
        push_arg(args, "extra_cflags", cflags);
    }
    proof {
        assert(args.deep_view() =~= g0 + spec_cflags_gn_args(build, target));
    }
}

impl FinalBuildConfiguration {
    /// Derives the final build configuration for `target` from `build`.
    /// `win_vc` is the resolved Visual C++ installation, if one was found,
    /// and `ndk` the Android NDK location; each matters only for the
    /// targets that use it.
    pub fn from_build_configuration(
        build: &BuildConfiguration,
        target: &Target,
        win_vc: &Option<String>,
        ndk: &str,
    ) -> (r: FinalBuildConfiguration)
        ensures
            r.gn_args.deep_view() == spec_gn_args(build, target, win_vc.deep_view(), ndk@),
            r.definitions.deep_view() == build.definitions.deep_view(),
            r.binding_sources.deep_view() == spec_binding_sources(build),
    {
        let mut args: Vec<(String, String)> = Vec::new();
        proof {
            assert(args.deep_view() =~= Seq::<GnArgView>::empty());
        }
        push_base_args(&mut args, build);
        push_debug_args(&mut args, build);
        push_shaper_args(&mut args, build);
        push_vulkan_args(&mut args, build);
        push_target_args(&mut args, build, target, win_vc, ndk);
        push_expat_args(&mut args, build, target);
        push_cflags_args(&mut args, build, target);
        proof {
            assert(args.deep_view() =~= spec_gn_args(build, target, win_vc.deep_view(), ndk@));
        }

        let mut binding_sources: Vec<String> = Vec::new();
        binding_sources.push(String::from_str("src/bindings.cpp"));
        if build.feature_shaper {
            binding_sources.push(String::from_str("src/shaper.cpp"));
        }
        proof {
            assert(binding_sources.deep_view() =~= spec_binding_sources(build));
        }

        FinalBuildConfiguration {
            gn_args: args,
            definitions: clone_definitions(&build.definitions),
            binding_sources,
        }
    }
}

/// The feature names the binaries were built with, in order.
pub open spec fn spec_features(b: &BuildConfiguration) -> Seq<Seq<char>> {
    (if b.feature_vulkan {
        seq!["vulkan"@]
    } else {
        Seq::empty()
    }) + (if b.feature_svg {
        seq!["svg"@]
    } else {
        Seq::empty()
    }) + (if b.feature_shaper {
        seq!["shaper"@]
    } else {
        Seq::empty()
    })
}

/// The target is the GNU Linux target.
pub open spec fn spec_is_linux_gnu_target(t: &Target) -> bool {
    t.vendor@ == "unknown"@ && t.system@ == "linux"@ && match t.abi {
        Some(ref a) => a@ == "gnu"@,
        None => false,
    }
}

/// The target is macOS.
pub open spec fn spec_is_darwin_target(t: &Target) -> bool {
    t.vendor@ == "apple"@ && t.system@ == "darwin"@
}

/// One of the targets the binaries configuration supports.
pub open spec fn spec_target_supported(t: &Target) -> bool {
    spec_is_linux_gnu_target(t) || spec_is_darwin_target(t) || spec_is_msvc_target(t)
        || spec_is_android_target(t) || spec_is_ios_target(t)
}

/// The system libraries the given target links against.
pub open spec fn spec_link_libraries(t: &Target) -> Seq<Seq<char>> {
    if spec_is_linux_gnu_target(t) {
        seq!["stdc++"@, "bz2"@, "GL"@, "fontconfig"@, "freetype"@]
    } else if spec_is_darwin_target(t) {
        seq!["c++"@, "framework=OpenGL"@, "framework=ApplicationServices"@]
    } else if spec_is_msvc_target(t) {
        seq!["usp10"@, "ole32"@, "user32"@, "gdi32"@, "fontsub"@, "opengl32"@]
    } else if spec_is_android_target(t) {
        seq!["log"@, "android"@, "EGL"@, "GLESv2"@]
    } else if spec_is_ios_target(t) {
        seq![
            "c++"@,
            "framework=MobileCoreServices"@,
            "framework=CoreFoundation"@,
            "framework=CoreGraphics"@,
            "framework=CoreText"@,
            "framework=ImageIO"@,
            "framework=UIKit"@,
        ]
    } else {
        Seq::empty()
    }
}

/// The static libraries the build produces: the shaper module when built,
/// then the native library and the bindings library.
pub open spec fn spec_built_libraries(b: &BuildConfiguration) -> Seq<Seq<char>> {
    (if b.feature_shaper {
        seq!["skshaper"@]
    } else {
        Seq::empty()
    }) + seq!["skia"@, "skia-bindings"@]
}

/// The additional files dependent projects need: the icu data file when
/// the shaper module is built.
pub open spec fn spec_additional_files(b: &BuildConfiguration) -> Seq<Seq<char>> {
    if b.feature_shaper {
        seq!["icudtl.dat"@]
    } else {
        Seq::empty()
    }
}

/// The resulting binaries configuration.
#[derive(Clone, PartialEq, Eq, Debug)]
pub struct BinariesConfiguration {
    /// The features the binaries were built with.
    pub features: Vec<String>,
    /// The output directory of the built libraries.
    pub output_directory: String,
    /// The target-specific libraries cargo must link against.
    pub link_libraries: Vec<String>,
    /// The static libraries the build provides to dependent projects.
    pub built_libraries: Vec<String>,
    /// Additional files, relative to the output directory, that dependent
    /// projects need.
    pub additional_files: Vec<String>,
}

fn push_lit(libs: &mut Vec<String>, lit: &str)
    ensures
        final(libs).deep_view() == old(libs).deep_view().push(lit@),
{
    let ghost g0 = libs.deep_view();
    libs.push(String::from_str(lit));
    proof {
        assert(libs.deep_view() =~= g0.push(lit@));
    }
}

impl BinariesConfiguration {
    /// Builds a binaries configuration from a build configuration, the
    /// target, and the build-script output directory cargo supplied.
    /// Only the supported targets have a known library set.
    pub fn from_cargo_env(build: &BuildConfiguration, target: &Target, out_dir: &str) -> (r:
        BinariesConfiguration)
        requires
            spec_target_supported(target),
        ensures
            r.features.deep_view() == spec_features(build),
            r.output_directory@ == out_dir@ + "/"@ + "skia"@,
            r.link_libraries.deep_view() == spec_link_libraries(target),
            r.built_libraries.deep_view() == spec_built_libraries(build),
            r.additional_files.deep_view() == spec_additional_files(build),
    {
        let mut built_libraries: Vec<String> = Vec::new();
        let mut additional_files: Vec<String> = Vec::new();
        let mut features: Vec<String> = Vec::new();
        if build.feature_vulkan {
            push_lit(&mut features, "vulkan");
        }
        if build.feature_svg {
            push_lit(&mut features, "svg");
        }
        if build.feature_shaper {
            push_lit(&mut features, "shaper");
            push_lit(&mut additional_files, "icudtl.dat");
            push_lit(&mut built_libraries, "skshaper");
        }
        proof {
            assert(features.deep_view() =~= spec_features(build));
            assert(additional_files.deep_view() =~= spec_additional_files(build));
        }

        let mut link_libraries: Vec<String> = Vec::new();
        let is_linux_gnu = str_eq(target.vendor.as_str(), "unknown") && str_eq(
            target.system.as_str(),
            "linux",
        ) && match &target.abi {
            Some(a) => str_eq(a.as_str(), "gnu"),
            None => false,
        };
        let is_darwin = str_eq(target.vendor.as_str(), "apple") && str_eq(
            target.system.as_str(),
            "darwin",
        );
        let is_msvc = is_msvc_target(target);
        let is_android = str_eq(target.vendor.as_str(), "linux") && str_eq(
            target.system.as_str(),
            "android",
        );
        if is_linux_gnu {
            push_lit(&mut link_libraries, "stdc++");
            push_lit(&mut link_libraries, "bz2");
            push_lit(&mut link_libraries, "GL");
            push_lit(&mut link_libraries, "fontconfig");
            push_lit(&mut link_libraries, "freetype");
        } else if is_darwin {
            push_lit(&mut link_libraries, "c++");
            push_lit(&mut link_libraries, "framework=OpenGL");
            push_lit(&mut link_libraries, "framework=ApplicationServices");
        } else if is_msvc {
            push_lit(&mut link_libraries, "usp10");
            push_lit(&mut link_libraries, "ole32");
            push_lit(&mut link_libraries, "user32");
            push_lit(&mut link_libraries, "gdi32");
            push_lit(&mut link_libraries, "fontsub");
            push_lit(&mut link_libraries, "opengl32");
        } else if is_android {
            push_lit(&mut link_libraries, "log");
            push_lit(&mut link_libraries, "android");
            push_lit(&mut link_libraries, "EGL");
            push_lit(&mut link_libraries, "GLESv2");
        } else {
            push_lit(&mut link_libraries, "c++");
            push_lit(&mut link_libraries, "framework=MobileCoreServices");
            push_lit(&mut link_libraries, "framework=CoreFoundation");
            push_lit(&mut link_libraries, "framework=CoreGraphics");
            push_lit(&mut link_libraries, "framework=CoreText");
            push_lit(&mut link_libraries, "framework=ImageIO");
            push_lit(&mut link_libraries, "framework=UIKit");
        }
        proof {
            assert(link_libraries.deep_view() =~= spec_link_libraries(target));
        }

        let mut output_directory = String::from_str(out_dir);
        output_directory.append("/");
        output_directory.append("skia");

        push_lit(&mut built_libraries, "skia");
        push_lit(&mut built_libraries, "skia-bindings");
        proof {
            assert(built_libraries.deep_view() =~= spec_built_libraries(build));
        }

        BinariesConfiguration {
            features,
            output_directory,
            link_libraries,
            built_libraries,
            additional_files,
        }
    }

    /// The directive lines that tell cargo where the built libraries lie
    /// and what to link. The caller prints them.
    pub fn commit_to_cargo(&self) -> (r: Vec<String>)
        ensures
            r.deep_view() == self.link_libraries.deep_view().map_values(
                |l: Seq<char>| spec_link_lib_directive(l),
            ) + seq!["cargo:rustc-link-search="@ + self.output_directory@]
                + self.built_libraries.deep_view().map_values(
                |l: Seq<char>| spec_link_lib_directive("static="@ + l),
            ),
    {
        let mut out = add_link_libs(&self.link_libraries);
        let ghost g_libs = out.deep_view();
        let mut search = String::from_str("cargo:rustc-link-search=");
        search.append(self.output_directory.as_str());
        out.push(search);
        let ghost g_search = out.deep_view();
        proof {
            assert(g_search =~= g_libs.push("cargo:rustc-link-search="@ + self.output_directory@));
        }
        let ghost statics = self.built_libraries.deep_view().map_values(
            |l: Seq<char>| spec_link_lib_directive("static="@ + l),
        );
        let mut i: usize = 0;
        proof {
            assert(out.deep_view() =~= g_search + statics.take(0));
        }
        while i < self.built_libraries.len()
            invariant
                i <= self.built_libraries@.len(),
                self.built_libraries@.len() == self.built_libraries.deep_view().len(),
                statics == self.built_libraries.deep_view().map_values(
                    |l: Seq<char>| spec_link_lib_directive("static="@ + l),
                ),
                out.deep_view() == g_search + statics.take(i as int),
            decreases self.built_libraries@.len() - i,
        {
            let mut lib = String::from_str("static=");
            lib.append(self.built_libraries[i].as_str());
            let ghost g0 = out.deep_view();
            out.push(crate::cargo::add_link_lib(lib.as_str()));
            proof {
                assert(out.deep_view() =~= g0.push(statics[i as int]));
                assert(statics.take(i + 1) =~= statics.take(i as int).push(statics[i as int]));
                assert(out.deep_view() =~= g_search + statics.take(i + 1));
            }
            i = i + 1;
        }
        proof {
            assert(statics.take(statics.len() as int) =~= statics);
        }
        out
    }
}

/// The single command-line string of meta-build arguments: each pair as
/// `name=value`, joined with spaces.
pub open spec fn spec_gn_args_command_line(args: Seq<GnArgView>) -> Seq<char> {
    spec_join(args.map_values(|p: GnArgView| p.0 + "="@ + p.1), " "@)
}

/// Renders the meta-build arguments as one command-line string.
pub fn gn_args_command_line(gn_args: &Vec<(String, String)>) -> (r: String)
    ensures
        r@ == spec_gn_args_command_line(gn_args.deep_view()),
{
    let ghost pieces_spec = gn_args.deep_view().map_values(|p: GnArgView| p.0 + "="@ + p.1);
    let mut pieces: Vec<String> = Vec::new();
    let mut i: usize = 0;
    proof {
        assert(pieces.deep_view() =~= pieces_spec.take(0));
    }
    while i < gn_args.len()
        invariant
            i <= gn_args@.len(),
            gn_args@.len() == gn_args.deep_view().len(),
            pieces_spec == gn_args.deep_view().map_values(|p: GnArgView| p.0 + "="@ + p.1),
            pieces.deep_view() == pieces_spec.take(i as int),
        decreases gn_args@.len() - i,
    {
        let mut s = gn_args[i].0.clone();
        s.append("=");
        s.append(gn_args[i].1.as_str());
        let ghost g0 = pieces.deep_view();
        pieces.push(s);
        proof {
            assert(pieces.deep_view() =~= g0.push(pieces_spec[i as int]));
            assert(pieces_spec.take(i + 1) =~= pieces_spec.take(i as int).push(
                pieces_spec[i as int],
            ));
        }
        i = i + 1;
    }
    proof {
        assert(pieces_spec.take(pieces_spec.len() as int) =~= pieces_spec);
    }
    join_strings(&pieces, " ")
}

/// Decides from a `--version` probe's output whether the probed
/// interpreter is Python 2: version 2 pushes its banner to standard
/// error, so standard output is consulted first and standard error when
/// it is empty.
pub fn is_python_version_2(stdout: &str, stderr: &str) -> (r: bool)
    ensures
        r == ({
            let out = if stdout@.len() == 0 {
                stderr@
            } else {
                stdout@
            };
            spec_starts_with(out, "Python 2."@)
        }),
{
    if stdout.unicode_len() == 0 {
        str_starts_with(stderr, "Python 2.")
    } else {
        str_starts_with(stdout, "Python 2.")
    }
}

/// Which paths of a downloaded source archive are unpacked.
#[derive(Clone, Copy, PartialEq, Eq, Structural, Debug)]
pub enum PathFilter {
    /// The whole tree except its `infra` directory, whose file names are
    /// too long for some platforms.
    SkiaTree,
    /// Only the ninja binaries.
    NinjaOnly,
}

/// A source dependency: where to download its archive, and which of its
/// paths to unpack.
#[derive(Clone, Debug)]
pub struct Dependency {
    /// The repository directory name.
    pub repo: String,
    /// The archive download location.
    pub url: String,
    /// Which paths of the archive are unpacked.
    pub filter: PathFilter,
}

/// `path` passes `filter`: everything outside the `infra` directory for a
/// source tree, only `ninja` paths for the build tools.
pub open spec fn spec_path_included(filter: PathFilter, path: Seq<char>) -> bool {
    match filter {
        PathFilter::SkiaTree => spec_split(path, '/')[0] != "infra"@,
        PathFilter::NinjaOnly => spec_starts_with(path, "ninja"@),
    }
}

/// Whether the archive entry at `path` is unpacked under `filter`.
pub fn path_included(filter: &PathFilter, path: &str) -> (r: bool)
    ensures
        r == spec_path_included(*filter, path@),
{
    match filter {
        PathFilter::SkiaTree => {
            proof {
                crate::strutil::lemma_split_acc_nonempty(path@, '/', Seq::empty());
            }
            let parts = split_str(path, '/');
            !str_eq(parts[0].as_str(), "infra")
        },
        PathFilter::NinjaOnly => str_starts_with(path, "ninja"),
    }
}

/// The source dependencies: the graphics library itself and the build
/// tools, each from its archive location.
pub fn dependencies() -> (r: Vec<Dependency>)
    ensures
        r@.len() == 2,
        r@[0].repo@ == "skia"@,
        r@[0].url@ == "https://codeload.github.com/google/skia/tar.gz"@,
        r@[0].filter == PathFilter::SkiaTree,
        r@[1].repo@ == "depot_tools"@,
        r@[1].url@ == "https://codeload.github.com/rust-skia/depot_tools/tar.gz"@,
        r@[1].filter == PathFilter::NinjaOnly,
{
    let mut out: Vec<Dependency> = Vec::new();
    out.push(
        Dependency {
            repo: String::from_str("skia"),
            url: String::from_str("https://codeload.github.com/google/skia/tar.gz"),
            filter: PathFilter::SkiaTree,
        },
    );
    out.push(
        Dependency {
            repo: String::from_str("depot_tools"),
            url: String::from_str("https://codeload.github.com/rust-skia/depot_tools/tar.gz"),
            filter: PathFilter::NinjaOnly,
        },
    );
    out
}

/// The directory an archive of `repo` at `short_hash` unpacks to:
/// `repo-hash`.
pub fn unpack_directory_name(repo: &str, short_hash: &str) -> (r: String)
    ensures
        r@ == repo@ + "-"@ + short_hash@,
{
    let mut s = String::from_str(repo);
    s.append("-");
    s.append(short_hash);
    s
}

/// The download location of the archive of `url` at `short_hash`:
/// `url/hash`.
pub fn archive_url(url: &str, short_hash: &str) -> (r: String)
    ensures
        r@ == url@ + "/"@ + short_hash@,
{
    let mut s = String::from_str(url);
    s.append("/");
    s.append(short_hash);
    s
}

/// The value of the first metadata entry named `name`.
pub open spec fn spec_find_value(entries: Seq<(Seq<char>, Seq<char>)>, name: Seq<char>) -> Option<
    Seq<char>,
>
    decreases entries.len(),
{
    if entries.len() == 0 {
        None
    } else if entries[0].0 == name {
        Some(entries[0].1)
    } else {
        spec_find_value(entries.drop_first(), name)
    }
}

/// Looks up the first metadata entry named `name`.
pub fn find_metadata_value(metadata: &Vec<(String, String)>, name: &str) -> (r: Option<String>)
    ensures
        match r {
            Some(v) => spec_find_value(metadata.deep_view(), name@) == Some(v@),
            None => spec_find_value(metadata.deep_view(), name@) is None,
        },
{
    let ghost dv = metadata.deep_view();
    let mut i: usize = 0;
    proof {
        assert(dv.skip(0) =~= dv);
    }
    while i < metadata.len()
        invariant
            dv == metadata.deep_view(),
            metadata@.len() == dv.len(),
            i <= dv.len(),
            spec_find_value(dv, name@) == spec_find_value(dv.skip(i as int), name@),
        decreases dv.len() - i,
    {
        let ghost rest = dv.skip(i as int);
        proof {
            assert(rest[0] == dv[i as int]);
            assert(rest.drop_first() =~= dv.skip(i + 1));
        }
        if str_eq(metadata[i].0.as_str(), name) {
            return Some(metadata[i].1.clone());
        }
        i = i + 1;
    }
    proof {
        assert(dv.skip(dv.len() as int) =~= Seq::<(Seq<char>, Seq<char>)>::empty());
    }
    None
}

} // verus!
