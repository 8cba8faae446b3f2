//! The machine that is built on and for.

use vstd::prelude::*;
use vstd::string::*;
use crate::error::Error;
use crate::error::ErrorView;
use crate::text::copy_pairs;
use crate::text::same_text;
use crate::text::text_pairs;

verus! {

/// A target for installing TVM: what is needed to find the tool chain and to
/// run CMake.
#[derive(Debug, PartialEq, Eq)]
pub struct Target {
    /// The name of the host system, as CMake knows it.
    pub host: String,
    /// The target triple.
    pub target_str: String,
    /// The definitions that the platform asks for.
    pub cmake_defines: Vec<(String, String)>,
}

/// A [`Target`] as plain values.
pub struct TargetView {
    pub host: Seq<char>,
    pub target_str: Seq<char>,
    pub cmake_defines: Seq<(Seq<char>, Seq<char>)>,
}

impl View for Target {
    type V = TargetView;

    open spec fn view(&self) -> TargetView {
        TargetView {
            host: self.host@,
            target_str: self.target_str@,
            cmake_defines: text_pairs(self.cmake_defines@),
        }
    }
}

/// The target of a machine with operating system `os` and processor `arch`, of
/// which the tool chain's triple is `target`; `None` where the operating system
/// is not supported.
pub open spec fn spec_local_target(os: Seq<char>, arch: Seq<char>, target: Seq<char>) -> Option<
    TargetView,
> {
    if os == "macos"@ {
        Some(
            TargetView {
                host: "Darwin"@,
                target_str: "arm64-apple-darwin"@,
                cmake_defines: if arch == "aarch64"@ {
                    seq![("CMAKE_OSX_ARCHITECTURES"@, "arm64"@)]
                } else {
                    Seq::empty()
                },
            },
        )
    } else if os == "linux"@ {
        Some(TargetView { host: "Linux"@, target_str: target, cmake_defines: Seq::empty() })
    } else {
        None
    }
}

impl Clone for Target {
    fn clone(&self) -> (r: Target)
        ensures
            r@ == self@,
    {
        Target {
            host: self.host.clone(),
            target_str: self.target_str.clone(),
            cmake_defines: copy_pairs(&self.cmake_defines),
        }
    }
}

/// Whether the operating system `os` is one that can be built for.
pub open spec fn spec_is_supported(os: Seq<char>) -> bool {
    os == "macos"@ || os == "linux"@
}

/// Whether the operating system `os` is one that can be built for.
pub fn is_supported(os: &str) -> (r: bool)
    ensures
        r == spec_is_supported(os@),
{
    same_text(os, "macos") || same_text(os, "linux")
}

/// A target is described for the supported operating systems and for no
/// other, whatever the processor and the triple.
pub proof fn target_exists_where_supported(os: Seq<char>, arch: Seq<char>, target: Seq<char>)
    ensures
        spec_local_target(os, arch, target) is Some <==> spec_is_supported(os),
{
}

/// Describes the target of the machine with operating system `os` and
/// processor `arch`, of which the tool chain's triple is `target`. An
/// operating system other than `macos` and `linux` is refused by its name.
pub fn local_target(os: &str, arch: &str, target: &str) -> (r: Result<Target, Error>)
    ensures
        match spec_local_target(os@, arch@, target@) {
            Some(t) => (r matches Ok(x) && x@ == t),
            None => (r matches Err(e) && e@ == ErrorView::UnsupportedPlatform(os@)),
        },
{
    if same_text(os, "macos") {
        let mut cmake_defines: Vec<(String, String)> = Vec::new();
        if same_text(arch, "aarch64") {
            cmake_defines.push(("CMAKE_OSX_ARCHITECTURES".to_owned(), "arm64".to_owned()));
        }
        let t = Target {
            host: "Darwin".to_owned(),
            target_str: "arm64-apple-darwin".to_owned(),
            cmake_defines,
        };
        assert(t@.cmake_defines =~= spec_local_target(os@, arch@, target@).unwrap().cmake_defines);
        Ok(t)
    } else if same_text(os, "linux") {
        let t = Target {
            host: "Linux".to_owned(),
            target_str: target.to_owned(),
            cmake_defines: Vec::new(),
        };
        assert(t@.cmake_defines =~= Seq::empty());
        Ok(t)
    } else {
        Err(Error::UnsupportedPlatform(os.to_owned()))
    }
}

} // verus!
