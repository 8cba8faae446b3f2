//! The catalog of build options: which options there are, the CMake key and
//! the kind of each, and the text that a value is written as.

use vstd::prelude::*;
use vstd::string::*;
use crate::error::Error;
use crate::error::ErrorView;
use crate::text::text_of;

verus! {

/// Many TVM CMake settings are either OFF (disabled), ON (with automatic
/// detection) or a path, which means ON with a fixed configuration.
#[derive(Debug, PartialEq, Eq)]
pub enum CMakeSetting {
    On,
    Off,
    Path(String),
}

/// A [`CMakeSetting`] as plain values.
pub enum CMakeSettingView {
    On,
    Off,
    Path(Seq<char>),
}

impl View for CMakeSetting {
    type V = CMakeSettingView;

    open spec fn view(&self) -> CMakeSettingView {
        match self {
            CMakeSetting::On => CMakeSettingView::On,
            CMakeSetting::Off => CMakeSettingView::Off,
            CMakeSetting::Path(p) => CMakeSettingView::Path(p@),
        }
    }
}

/// The word `on`, in any mix of upper and lower case.
pub open spec fn is_on(s: Seq<char>) -> bool {
    &&& s.len() == 2
    &&& (s[0] == 'o' || s[0] == 'O')
    &&& (s[1] == 'n' || s[1] == 'N')
}

/// The word `off`, in any mix of upper and lower case.
pub open spec fn is_off(s: Seq<char>) -> bool {
    &&& s.len() == 3
    &&& (s[0] == 'o' || s[0] == 'O')
    &&& (s[1] == 'f' || s[1] == 'F')
    &&& (s[2] == 'f' || s[2] == 'F')
}

/// The character in lower case, where it is an ASCII letter in upper case;
/// any other character as it is.
pub open spec fn ascii_lower(c: char) -> char {
    if 'A' <= c && c <= 'Z' {
        ((c as u8) + 32) as char
    } else {
        c
    }
}

/// The keywords are read without regard to case: a text is the word `on`, or
/// `off`, exactly where its characters in lower case spell it.
pub proof fn keywords_ignore_case(s: Seq<char>)
    ensures
        is_on(s) <==> s.map_values(|c: char| ascii_lower(c)) == seq!['o', 'n'],
        is_off(s) <==> s.map_values(|c: char| ascii_lower(c)) == seq!['o', 'f', 'f'],
{
    let lower = s.map_values(|c: char| ascii_lower(c));
    let on = seq!['o', 'n'];
    let off = seq!['o', 'f', 'f'];
    if is_on(s) {
        assert(lower =~= on);
    }
    if lower == on {
        assert(lower.len() == 2);
        assert(lower[0] == on[0] && lower[1] == on[1]);
    }
    if is_off(s) {
        assert(lower =~= off);
    }
    if lower == off {
        assert(lower.len() == 3);
        assert(lower[0] == off[0] && lower[1] == off[1] && lower[2] == off[2]);
    }
}

/// The forms that a tri-state value may be written in.
pub open spec fn expected_forms() -> Seq<char> {
    "on, off, or a filesystem path"@
}

/// What a tri-state value stands for: one of the two keywords, or else a path,
/// which has at least one character. The empty text stands for nothing.
pub open spec fn parse_setting(s: Seq<char>) -> Option<CMakeSettingView> {
    if is_on(s) {
        Some(CMakeSettingView::On)
    } else if is_off(s) {
        Some(CMakeSettingView::Off)
    } else if s.len() > 0 {
        Some(CMakeSettingView::Path(s))
    } else {
        None
    }
}

fn reads_on(s: &str) -> (r: bool)
    ensures
        r == is_on(s@),
{
    let n: usize = s.unicode_len();
    if n != 2 {
        return false;
    }
    let a = s.get_char(0);
    let b = s.get_char(1);
    (a == 'o' || a == 'O') && (b == 'n' || b == 'N')
}

fn reads_off(s: &str) -> (r: bool)
    ensures
        r == is_off(s@),
{
    let n: usize = s.unicode_len();
    if n != 3 {
        return false;
    }
    let a = s.get_char(0);
    let b = s.get_char(1);
    let c = s.get_char(2);
    (a == 'o' || a == 'O') && (b == 'f' || b == 'F') && (c == 'f' || c == 'F')
}

impl CMakeSetting {
    /// Reads the value given for the option `key`. A value of no accepted form
    /// is refused, with the key, the value and the accepted forms.
    pub fn from_str(key: &str, s: &str) -> (r: Result<CMakeSetting, Error>)
        ensures
            match parse_setting(s@) {
                Some(v) => (r matches Ok(x) && x@ == v),
                None => (r matches Err(e) && e@ == (ErrorView::InvalidOptionValue {
                    key: key@,
                    given: s@,
                    expected: expected_forms(),
                })),
            },
    {
        if reads_on(s) {
            Ok(CMakeSetting::On)
        } else if reads_off(s) {
            Ok(CMakeSetting::Off)
        } else if s.unicode_len() > 0 {
            Ok(CMakeSetting::Path(s.to_owned()))
        } else {
            Err(
                Error::InvalidOptionValue {
                    key: key.to_owned(),
                    given: s.to_owned(),
                    expected: "on, off, or a filesystem path".to_owned(),
                },
            )
        }
    }
}

/// A value that can be written as the value of a CMake definition.
pub trait CMakeSettingValue {
    /// The text that the value is written as.
    spec fn string_value(&self) -> Seq<char>;

    /// Writes the value as text.
    fn as_string_value(&self) -> (r: String)
        ensures
            r@ == self.string_value(),
    ;
}

impl CMakeSettingValue for bool {
    open spec fn string_value(&self) -> Seq<char> {
        if *self {
            "ON"@
        } else {
            "OFF"@
        }
    }

    fn as_string_value(&self) -> (r: String) {
        if *self {
            "ON".to_owned()
        } else {
            "OFF".to_owned()
        }
    }
}

impl CMakeSettingValue for String {
    open spec fn string_value(&self) -> Seq<char> {
        self@
    }

    fn as_string_value(&self) -> (r: String) {
        self.clone()
    }
}

impl CMakeSettingValue for CMakeSetting {
    open spec fn string_value(&self) -> Seq<char> {
        match self {
            CMakeSetting::On => "ON"@,
            CMakeSetting::Off => "OFF"@,
            CMakeSetting::Path(path) => path@,
        }
    }

    fn as_string_value(&self) -> (r: String) {
        match self {
            CMakeSetting::On => "ON".to_owned(),
            CMakeSetting::Off => "OFF".to_owned(),
            CMakeSetting::Path(path) => path.as_string_value(),
        }
    }
}

/// The kind of value that an option takes.
#[derive(Debug, Clone, Copy, PartialEq, Eq)]
pub enum OptionKind {
    /// On or off.
    Switch,
    /// On, off, or on with a path.
    TriState,
    /// Free text.
    Text,
    /// A path in the filesystem.
    Path,
}

/// The number of options in the catalog.
pub const OPTION_COUNT: usize = 51;

/// The options, in the order of the catalog.
#[derive(Debug, Clone, Copy, PartialEq, Eq)]
pub enum OptionId {
    /// Build with CUDA support.
    UseCuda,
    /// Build with the OpenCL runtime.
    UseOpencl,
    /// Build with the Vulkan runtime.
    UseVulkan,
    /// Build with the Metal runtime.
    UseMetal,
    /// Build with ROCm support.
    UseRocm,
    /// The path to ROCm.
    RocmPath,
    /// Build with Hexagon device support in the runtime.
    UseHexagonDevice,
    /// The root of the Hexagon SDK.
    UseHeaxgonDsk,
    /// Enable the RPC server and client.
    UseRpc,
    /// Build with threading support.
    UseThreads,
    /// Build with LLVM; the path is that of a specific `llvm-config`.
    UseLlvm,
    /// Enable the stack VM in the runtime.
    UseStackvmRuntime,
    /// Build with the graph runtime.
    UseGraphRuntime,
    /// Build the graph runtime in debug mode.
    UseGraphRuntimeDebug,
    /// Use the OpenMP thread pool.
    UseOpenmp,
    /// Build Relay in debug mode.
    UseRelayDebug,
    /// Build with RTTI.
    UseRtti,
    /// Build with the multi-threaded MSVC runtime.
    UseMscvMt,
    /// Build with microTVM support.
    UseMicro,
    /// Install the compiler infrastructure.
    UseInstallDev,
    /// Compile with hidden visibility.
    HidePrivateSymbols,
    /// Use the POD-compatible map.
    UseFallbackStlMap,
    /// Build with Arm Ethos-N.
    UseEthosn,
    /// Default the index datatype to 64-bit integers.
    UseIndexDefaultI64,
    /// Build with the TensorFlow TVMDSOOp.
    UseTfTvmdsoop,
    /// Build with the software-emulated posit datatype.
    UseByodtPosit,
    /// The BLAS library to link.
    UseBlas,
    /// Build with MKL; the path is its root.
    UseMkl,
    /// Build with MKL-DNN.
    UseMkldnn,
    /// Enable the DNNL code generator.
    UseDnnlCodegen,
    /// Build with cuDNN.
    UseCudnn,
    /// Build with cuBLAS.
    UseCublas,
    /// Build with Thrust.
    UseThrust,
    /// Build with MIOpen.
    UseMiopen,
    /// Build with rocBLAS.
    UseRocblas,
    /// Build with sort support.
    UseSort,
    /// Build with NNPACK support.
    UseNnpack,
    /// Build with random support.
    UseRandom,
    /// Build with the standalone microTVM runtime.
    UseMicroStandaloneRuntime,
    /// Build the C++ RPC server.
    UseCppRpc,
    /// Build with TFLite support.
    UseTflite,
    /// The root of TensorFlow, for TFLite.
    UseTensorflowPath,
    /// Build with Core ML support.
    UseCoreml,
    /// Build with the ONNX code generator.
    UseTargetOnnx,
    /// Build with the Arm Compute Library.
    UseArmComputeLib,
    /// Build with the Arm Compute Library graph runtime.
    UseArmComputeLibGraphRuntime,
    /// Build with the TensorRT code generator.
    UseTensorrtCodegen,
    /// Build with the TensorRT runtime.
    UseTensorrtRuntime,
    /// Build with the compiler extensions written in Rust.
    UseRustExt,
    /// Build with the Vitis-AI code generator.
    UseVitisAi,
    /// Build the runtime as a static library.
    BuildStaticRuntime,
}

impl OptionId {
    /// The name of the CMake definition that the option sets.
    pub open spec fn spec_key(self) -> Seq<char> {
        match self {
            OptionId::UseCuda => "USE_CUDA"@,
            OptionId::UseOpencl => "USE_OPENCL"@,
            OptionId::UseVulkan => "USE_VULKAN"@,
            OptionId::UseMetal => "USE_METAL"@,
            OptionId::UseRocm => "USE_ROCM"@,
            OptionId::RocmPath => "ROCM_PATH"@,
            OptionId::UseHexagonDevice => "USE_HEXAGON_DEVICE"@,
            OptionId::UseHeaxgonDsk => "USE_HEAXGON_DSK"@,
            OptionId::UseRpc => "USE_RPC"@,
            OptionId::UseThreads => "USE_THREADS"@,
            OptionId::UseLlvm => "USE_LLVM"@,
            OptionId::UseStackvmRuntime => "USE_STACKVM_RUNTIME"@,
            OptionId::UseGraphRuntime => "USE_GRAPH_RUNTIME"@,
            OptionId::UseGraphRuntimeDebug => "USE_GRAPH_RUNTIME_DEBUG"@,
            OptionId::UseOpenmp => "USE_OPENMP"@,
            OptionId::UseRelayDebug => "USE_RELAY_DEBUG"@,
            OptionId::UseRtti => "USE_RTTI"@,
            OptionId::UseMscvMt => "USE_MSCV_MT"@,
            OptionId::UseMicro => "USE_MICRO"@,
            OptionId::UseInstallDev => "USE_INSTALL_DEV"@,
            OptionId::HidePrivateSymbols => "HIDE_PRIVATE_SYMBOLS"@,
            OptionId::UseFallbackStlMap => "USE_FALLBACK_STL_MAP"@,
            OptionId::UseEthosn => "USE_ETHOSN"@,
            OptionId::UseIndexDefaultI64 => "USE_INDEX_DEFAULT_I64"@,
            OptionId::UseTfTvmdsoop => "USE_TF_TVMDSOOP"@,
            OptionId::UseByodtPosit => "USE_BYODT_POSIT"@,
            OptionId::UseBlas => "USE_BLAS"@,
            OptionId::UseMkl => "USE_MKL"@,
            OptionId::UseMkldnn => "USE_MKLDNN"@,
            OptionId::UseDnnlCodegen => "USE_DNNL_CODEGEN"@,
            OptionId::UseCudnn => "USE_CUDNN"@,
            OptionId::UseCublas => "USE_CUBLAS"@,
            OptionId::UseThrust => "USE_THRUST"@,
            OptionId::UseMiopen => "USE_MIOPEN"@,
            OptionId::UseRocblas => "USE_ROCBLAS"@,
            OptionId::UseSort => "USE_SORT"@,
            OptionId::UseNnpack => "USE_NNPACK"@,
            OptionId::UseRandom => "USE_RANDOM"@,
            OptionId::UseMicroStandaloneRuntime => "USE_MICRO_STANDALONE_RUNTIME"@,
            OptionId::UseCppRpc => "USE_CPP_RPC"@,
            OptionId::UseTflite => "USE_TFLITE"@,
            OptionId::UseTensorflowPath => "USE_TENSORFLOW_PATH"@,
            OptionId::UseCoreml => "USE_COREML"@,
            OptionId::UseTargetOnnx => "USE_TARGET_ONNX"@,
            OptionId::UseArmComputeLib => "USE_ARM_COMPUTE_LIB"@,
            OptionId::UseArmComputeLibGraphRuntime => "USE_ARM_COMPUTE_LIB_GRAPH_RUNTIME"@,
            OptionId::UseTensorrtCodegen => "USE_TENSORRT_CODEGEN"@,
            OptionId::UseTensorrtRuntime => "USE_TENSORRT_RUNTIME"@,
            OptionId::UseRustExt => "USE_RUST_EXT"@,
            OptionId::UseVitisAi => "USE_VITIS_AI"@,
            OptionId::BuildStaticRuntime => "BUILD_STATIC_RUNTIME"@,
        }
    }

    /// The name of the CMake definition that the option sets.
    pub fn key(&self) -> (r: &'static str)
        ensures
            r@ == self.spec_key(),
    {
        match self {
            OptionId::UseCuda => "USE_CUDA",
            OptionId::UseOpencl => "USE_OPENCL",
            OptionId::UseVulkan => "USE_VULKAN",
            OptionId::UseMetal => "USE_METAL",
            OptionId::UseRocm => "USE_ROCM",
            OptionId::RocmPath => "ROCM_PATH",
            OptionId::UseHexagonDevice => "USE_HEXAGON_DEVICE",
            OptionId::UseHeaxgonDsk => "USE_HEAXGON_DSK",
            OptionId::UseRpc => "USE_RPC",
            OptionId::UseThreads => "USE_THREADS",
            OptionId::UseLlvm => "USE_LLVM",
            OptionId::UseStackvmRuntime => "USE_STACKVM_RUNTIME",
            OptionId::UseGraphRuntime => "USE_GRAPH_RUNTIME",
            OptionId::UseGraphRuntimeDebug => "USE_GRAPH_RUNTIME_DEBUG",
            OptionId::UseOpenmp => "USE_OPENMP",
            OptionId::UseRelayDebug => "USE_RELAY_DEBUG",
            OptionId::UseRtti => "USE_RTTI",
            OptionId::UseMscvMt => "USE_MSCV_MT",
            OptionId::UseMicro => "USE_MICRO",
            OptionId::UseInstallDev => "USE_INSTALL_DEV",
            OptionId::HidePrivateSymbols => "HIDE_PRIVATE_SYMBOLS",
            OptionId::UseFallbackStlMap => "USE_FALLBACK_STL_MAP",
            OptionId::UseEthosn => "USE_ETHOSN",
            OptionId::UseIndexDefaultI64 => "USE_INDEX_DEFAULT_I64",
            OptionId::UseTfTvmdsoop => "USE_TF_TVMDSOOP",
            OptionId::UseByodtPosit => "USE_BYODT_POSIT",
            OptionId::UseBlas => "USE_BLAS",
            OptionId::UseMkl => "USE_MKL",
            OptionId::UseMkldnn => "USE_MKLDNN",
            OptionId::UseDnnlCodegen => "USE_DNNL_CODEGEN",
            OptionId::UseCudnn => "USE_CUDNN",
            OptionId::UseCublas => "USE_CUBLAS",
            OptionId::UseThrust => "USE_THRUST",
            OptionId::UseMiopen => "USE_MIOPEN",
            OptionId::UseRocblas => "USE_ROCBLAS",
            OptionId::UseSort => "USE_SORT",
            OptionId::UseNnpack => "USE_NNPACK",
            OptionId::UseRandom => "USE_RANDOM",
            OptionId::UseMicroStandaloneRuntime => "USE_MICRO_STANDALONE_RUNTIME",
            OptionId::UseCppRpc => "USE_CPP_RPC",
            OptionId::UseTflite => "USE_TFLITE",
            OptionId::UseTensorflowPath => "USE_TENSORFLOW_PATH",
            OptionId::UseCoreml => "USE_COREML",
            OptionId::UseTargetOnnx => "USE_TARGET_ONNX",
            OptionId::UseArmComputeLib => "USE_ARM_COMPUTE_LIB",
            OptionId::UseArmComputeLibGraphRuntime => "USE_ARM_COMPUTE_LIB_GRAPH_RUNTIME",
            OptionId::UseTensorrtCodegen => "USE_TENSORRT_CODEGEN",
            OptionId::UseTensorrtRuntime => "USE_TENSORRT_RUNTIME",
            OptionId::UseRustExt => "USE_RUST_EXT",
            OptionId::UseVitisAi => "USE_VITIS_AI",
            OptionId::BuildStaticRuntime => "BUILD_STATIC_RUNTIME",
        }
    }

    /// The kind of value that the option takes.
    pub open spec fn spec_kind(self) -> OptionKind {
        match self {
            OptionId::UseCuda => OptionKind::TriState,
            OptionId::UseOpencl => OptionKind::TriState,
            OptionId::UseVulkan => OptionKind::TriState,
            OptionId::UseMetal => OptionKind::TriState,
            OptionId::UseRocm => OptionKind::TriState,
            OptionId::RocmPath => OptionKind::Path,
            OptionId::UseHexagonDevice => OptionKind::Switch,
            OptionId::UseHeaxgonDsk => OptionKind::Path,
            OptionId::UseRpc => OptionKind::Switch,
            OptionId::UseThreads => OptionKind::Switch,
            OptionId::UseLlvm => OptionKind::TriState,
            OptionId::UseStackvmRuntime => OptionKind::Switch,
            OptionId::UseGraphRuntime => OptionKind::Switch,
            OptionId::UseGraphRuntimeDebug => OptionKind::Switch,
            OptionId::UseOpenmp => OptionKind::Switch,
            OptionId::UseRelayDebug => OptionKind::Switch,
            OptionId::UseRtti => OptionKind::Switch,
            OptionId::UseMscvMt => OptionKind::Switch,
            OptionId::UseMicro => OptionKind::Switch,
            OptionId::UseInstallDev => OptionKind::Switch,
            OptionId::HidePrivateSymbols => OptionKind::Switch,
            OptionId::UseFallbackStlMap => OptionKind::Switch,
            OptionId::UseEthosn => OptionKind::Switch,
            OptionId::UseIndexDefaultI64 => OptionKind::Switch,
            OptionId::UseTfTvmdsoop => OptionKind::Switch,
            OptionId::UseByodtPosit => OptionKind::Switch,
            OptionId::UseBlas => OptionKind::Text,
            OptionId::UseMkl => OptionKind::TriState,
            OptionId::UseMkldnn => OptionKind::TriState,
            OptionId::UseDnnlCodegen => OptionKind::Switch,
            OptionId::UseCudnn => OptionKind::Switch,
            OptionId::UseCublas => OptionKind::Switch,
            OptionId::UseThrust => OptionKind::Switch,
            OptionId::UseMiopen => OptionKind::Switch,
            OptionId::UseRocblas => OptionKind::Switch,
            OptionId::UseSort => OptionKind::Switch,
            OptionId::UseNnpack => OptionKind::Switch,
            OptionId::UseRandom => OptionKind::Switch,
            OptionId::UseMicroStandaloneRuntime => OptionKind::Switch,
            OptionId::UseCppRpc => OptionKind::Switch,
            OptionId::UseTflite => OptionKind::Switch,
            OptionId::UseTensorflowPath => OptionKind::Path,
            OptionId::UseCoreml => OptionKind::Switch,
            OptionId::UseTargetOnnx => OptionKind::Switch,
            OptionId::UseArmComputeLib => OptionKind::Switch,
            OptionId::UseArmComputeLibGraphRuntime => OptionKind::TriState,
            OptionId::UseTensorrtCodegen => OptionKind::Switch,
            OptionId::UseTensorrtRuntime => OptionKind::TriState,
            OptionId::UseRustExt => OptionKind::Text,
            OptionId::UseVitisAi => OptionKind::Switch,
            OptionId::BuildStaticRuntime => OptionKind::Switch,
        }
    }

    /// The kind of value that the option takes.
    pub fn kind(&self) -> (r: OptionKind)
        ensures
            r == self.spec_kind(),
    {
        match self {
            OptionId::UseCuda => OptionKind::TriState,
            OptionId::UseOpencl => OptionKind::TriState,
            OptionId::UseVulkan => OptionKind::TriState,
            OptionId::UseMetal => OptionKind::TriState,
            OptionId::UseRocm => OptionKind::TriState,
            OptionId::RocmPath => OptionKind::Path,
            OptionId::UseHexagonDevice => OptionKind::Switch,
            OptionId::UseHeaxgonDsk => OptionKind::Path,
            OptionId::UseRpc => OptionKind::Switch,
            OptionId::UseThreads => OptionKind::Switch,
            OptionId::UseLlvm => OptionKind::TriState,
            OptionId::UseStackvmRuntime => OptionKind::Switch,
            OptionId::UseGraphRuntime => OptionKind::Switch,
            OptionId::UseGraphRuntimeDebug => OptionKind::Switch,
            OptionId::UseOpenmp => OptionKind::Switch,
            OptionId::UseRelayDebug => OptionKind::Switch,
            OptionId::UseRtti => OptionKind::Switch,
            OptionId::UseMscvMt => OptionKind::Switch,
            OptionId::UseMicro => OptionKind::Switch,
            OptionId::UseInstallDev => OptionKind::Switch,
            OptionId::HidePrivateSymbols => OptionKind::Switch,
            OptionId::UseFallbackStlMap => OptionKind::Switch,
            OptionId::UseEthosn => OptionKind::Switch,
            OptionId::UseIndexDefaultI64 => OptionKind::Switch,
            OptionId::UseTfTvmdsoop => OptionKind::Switch,
            OptionId::UseByodtPosit => OptionKind::Switch,
            OptionId::UseBlas => OptionKind::Text,
            OptionId::UseMkl => OptionKind::TriState,
            OptionId::UseMkldnn => OptionKind::TriState,
            OptionId::UseDnnlCodegen => OptionKind::Switch,
            OptionId::UseCudnn => OptionKind::Switch,
            OptionId::UseCublas => OptionKind::Switch,
            OptionId::UseThrust => OptionKind::Switch,
            OptionId::UseMiopen => OptionKind::Switch,
            OptionId::UseRocblas => OptionKind::Switch,
            OptionId::UseSort => OptionKind::Switch,
            OptionId::UseNnpack => OptionKind::Switch,
            OptionId::UseRandom => OptionKind::Switch,
            OptionId::UseMicroStandaloneRuntime => OptionKind::Switch,
            OptionId::UseCppRpc => OptionKind::Switch,
            OptionId::UseTflite => OptionKind::Switch,
            OptionId::UseTensorflowPath => OptionKind::Path,
            OptionId::UseCoreml => OptionKind::Switch,
            OptionId::UseTargetOnnx => OptionKind::Switch,
            OptionId::UseArmComputeLib => OptionKind::Switch,
            OptionId::UseArmComputeLibGraphRuntime => OptionKind::TriState,
            OptionId::UseTensorrtCodegen => OptionKind::Switch,
            OptionId::UseTensorrtRuntime => OptionKind::TriState,
            OptionId::UseRustExt => OptionKind::Text,
            OptionId::UseVitisAi => OptionKind::Switch,
            OptionId::BuildStaticRuntime => OptionKind::Switch,
        }
    }

    /// The place of the option in the catalog, counted from zero.
    pub open spec fn spec_position(self) -> int {
        match self {
            OptionId::UseCuda => 0,
            OptionId::UseOpencl => 1,
            OptionId::UseVulkan => 2,
            OptionId::UseMetal => 3,
            OptionId::UseRocm => 4,
            OptionId::RocmPath => 5,
            OptionId::UseHexagonDevice => 6,
            OptionId::UseHeaxgonDsk => 7,
            OptionId::UseRpc => 8,
            OptionId::UseThreads => 9,
            OptionId::UseLlvm => 10,
            OptionId::UseStackvmRuntime => 11,
            OptionId::UseGraphRuntime => 12,
            OptionId::UseGraphRuntimeDebug => 13,
            OptionId::UseOpenmp => 14,
            OptionId::UseRelayDebug => 15,
            OptionId::UseRtti => 16,
            OptionId::UseMscvMt => 17,
            OptionId::UseMicro => 18,
            OptionId::UseInstallDev => 19,
            OptionId::HidePrivateSymbols => 20,
            OptionId::UseFallbackStlMap => 21,
            OptionId::UseEthosn => 22,
            OptionId::UseIndexDefaultI64 => 23,
            OptionId::UseTfTvmdsoop => 24,
            OptionId::UseByodtPosit => 25,
            OptionId::UseBlas => 26,
            OptionId::UseMkl => 27,
            OptionId::UseMkldnn => 28,
            OptionId::UseDnnlCodegen => 29,
            OptionId::UseCudnn => 30,
            OptionId::UseCublas => 31,
            OptionId::UseThrust => 32,
            OptionId::UseMiopen => 33,
            OptionId::UseRocblas => 34,
            OptionId::UseSort => 35,
            OptionId::UseNnpack => 36,
            OptionId::UseRandom => 37,
            OptionId::UseMicroStandaloneRuntime => 38,
            OptionId::UseCppRpc => 39,
            OptionId::UseTflite => 40,
            OptionId::UseTensorflowPath => 41,
            OptionId::UseCoreml => 42,
            OptionId::UseTargetOnnx => 43,
            OptionId::UseArmComputeLib => 44,
            OptionId::UseArmComputeLibGraphRuntime => 45,
            OptionId::UseTensorrtCodegen => 46,
            OptionId::UseTensorrtRuntime => 47,
            OptionId::UseRustExt => 48,
            OptionId::UseVitisAi => 49,
            OptionId::BuildStaticRuntime => 50,
        }
    }

    /// The place of the option in the catalog, counted from zero.
    pub fn position(&self) -> (r: usize)
        ensures
            r == self.spec_position(),
            r < OPTION_COUNT,
    {
        match self {
            OptionId::UseCuda => 0,
            OptionId::UseOpencl => 1,
            OptionId::UseVulkan => 2,
            OptionId::UseMetal => 3,
            OptionId::UseRocm => 4,
            OptionId::RocmPath => 5,
            OptionId::UseHexagonDevice => 6,
            OptionId::UseHeaxgonDsk => 7,
            OptionId::UseRpc => 8,
            OptionId::UseThreads => 9,
            OptionId::UseLlvm => 10,
            OptionId::UseStackvmRuntime => 11,
            OptionId::UseGraphRuntime => 12,
            OptionId::UseGraphRuntimeDebug => 13,
            OptionId::UseOpenmp => 14,
            OptionId::UseRelayDebug => 15,
            OptionId::UseRtti => 16,
            OptionId::UseMscvMt => 17,
            OptionId::UseMicro => 18,
            OptionId::UseInstallDev => 19,
            OptionId::HidePrivateSymbols => 20,
            OptionId::UseFallbackStlMap => 21,
            OptionId::UseEthosn => 22,
            OptionId::UseIndexDefaultI64 => 23,
            OptionId::UseTfTvmdsoop => 24,
            OptionId::UseByodtPosit => 25,
            OptionId::UseBlas => 26,
            OptionId::UseMkl => 27,
            OptionId::UseMkldnn => 28,
            OptionId::UseDnnlCodegen => 29,
            OptionId::UseCudnn => 30,
            OptionId::UseCublas => 31,
            OptionId::UseThrust => 32,
            OptionId::UseMiopen => 33,
            OptionId::UseRocblas => 34,
            OptionId::UseSort => 35,
            OptionId::UseNnpack => 36,
            OptionId::UseRandom => 37,
            OptionId::UseMicroStandaloneRuntime => 38,
            OptionId::UseCppRpc => 39,
            OptionId::UseTflite => 40,
            OptionId::UseTensorflowPath => 41,
            OptionId::UseCoreml => 42,
            OptionId::UseTargetOnnx => 43,
            OptionId::UseArmComputeLib => 44,
            OptionId::UseArmComputeLibGraphRuntime => 45,
            OptionId::UseTensorrtCodegen => 46,
            OptionId::UseTensorrtRuntime => 47,
            OptionId::UseRustExt => 48,
            OptionId::UseVitisAi => 49,
            OptionId::BuildStaticRuntime => 50,
        }
    }

    /// The option at place `i` of the catalog; beyond its end, the last one.
    pub open spec fn spec_at(i: int) -> OptionId {
        if i == 0 {
            OptionId::UseCuda
        } else if i == 1 {
            OptionId::UseOpencl
        } else if i == 2 {
            OptionId::UseVulkan
        } else if i == 3 {
            OptionId::UseMetal
        } else if i == 4 {
            OptionId::UseRocm
        } else if i == 5 {
            OptionId::RocmPath
        } else if i == 6 {
            OptionId::UseHexagonDevice
        } else if i == 7 {
            OptionId::UseHeaxgonDsk
        } else if i == 8 {
            OptionId::UseRpc
        } else if i == 9 {
            OptionId::UseThreads
        } else if i == 10 {
            OptionId::UseLlvm
        } else if i == 11 {
            OptionId::UseStackvmRuntime
        } else if i == 12 {
            OptionId::UseGraphRuntime
        } else if i == 13 {
            OptionId::UseGraphRuntimeDebug
        } else if i == 14 {
            OptionId::UseOpenmp
        } else if i == 15 {
            OptionId::UseRelayDebug
        } else if i == 16 {
            OptionId::UseRtti
        } else if i == 17 {
            OptionId::UseMscvMt
        } else if i == 18 {
            OptionId::UseMicro
        } else if i == 19 {
            OptionId::UseInstallDev
        } else if i == 20 {
            OptionId::HidePrivateSymbols
        } else if i == 21 {
            OptionId::UseFallbackStlMap
        } else if i == 22 {
            OptionId::UseEthosn
        } else if i == 23 {
            OptionId::UseIndexDefaultI64
        } else if i == 24 {
            OptionId::UseTfTvmdsoop
        } else if i == 25 {
            OptionId::UseByodtPosit
        } else if i == 26 {
            OptionId::UseBlas
        } else if i == 27 {
            OptionId::UseMkl
        } else if i == 28 {
            OptionId::UseMkldnn
        } else if i == 29 {
            OptionId::UseDnnlCodegen
        } else if i == 30 {
            OptionId::UseCudnn
        } else if i == 31 {
            OptionId::UseCublas
        } else if i == 32 {
            OptionId::UseThrust
        } else if i == 33 {
            OptionId::UseMiopen
        } else if i == 34 {
            OptionId::UseRocblas
        } else if i == 35 {
            OptionId::UseSort
        } else if i == 36 {
            OptionId::UseNnpack
        } else if i == 37 {
            OptionId::UseRandom
        } else if i == 38 {
            OptionId::UseMicroStandaloneRuntime
        } else if i == 39 {
            OptionId::UseCppRpc
        } else if i == 40 {
            OptionId::UseTflite
        } else if i == 41 {
            OptionId::UseTensorflowPath
        } else if i == 42 {
            OptionId::UseCoreml
        } else if i == 43 {
            OptionId::UseTargetOnnx
        } else if i == 44 {
            OptionId::UseArmComputeLib
        } else if i == 45 {
            OptionId::UseArmComputeLibGraphRuntime
        } else if i == 46 {
            OptionId::UseTensorrtCodegen
        } else if i == 47 {
            OptionId::UseTensorrtRuntime
        } else if i == 48 {
            OptionId::UseRustExt
        } else if i == 49 {
            OptionId::UseVitisAi
        } else {
            OptionId::BuildStaticRuntime
        }
    }

    /// The option at place `i` of the catalog, if the catalog is that long.
    pub fn at(i: usize) -> (r: Option<OptionId>)
        ensures
            r == if i < OPTION_COUNT {
                Some(OptionId::spec_at(i as int))
            } else {
                None
            },
    {
        if i == 0 {
            Some(OptionId::UseCuda)
        } else if i == 1 {
            Some(OptionId::UseOpencl)
        } else if i == 2 {
            Some(OptionId::UseVulkan)
        } else if i == 3 {
            Some(OptionId::UseMetal)
        } else if i == 4 {
            Some(OptionId::UseRocm)
        } else if i == 5 {
            Some(OptionId::RocmPath)
        } else if i == 6 {
            Some(OptionId::UseHexagonDevice)
        } else if i == 7 {
            Some(OptionId::UseHeaxgonDsk)
        } else if i == 8 {
            Some(OptionId::UseRpc)
        } else if i == 9 {
            Some(OptionId::UseThreads)
        } else if i == 10 {
            Some(OptionId::UseLlvm)
        } else if i == 11 {
            Some(OptionId::UseStackvmRuntime)
        } else if i == 12 {
            Some(OptionId::UseGraphRuntime)
        } else if i == 13 {
            Some(OptionId::UseGraphRuntimeDebug)
        } else if i == 14 {
            Some(OptionId::UseOpenmp)
        } else if i == 15 {
            Some(OptionId::UseRelayDebug)
        } else if i == 16 {
            Some(OptionId::UseRtti)
        } else if i == 17 {
            Some(OptionId::UseMscvMt)
        } else if i == 18 {
            Some(OptionId::UseMicro)
        } else if i == 19 {
            Some(OptionId::UseInstallDev)
        } else if i == 20 {
            Some(OptionId::HidePrivateSymbols)
        } else if i == 21 {
            Some(OptionId::UseFallbackStlMap)
        } else if i == 22 {
            Some(OptionId::UseEthosn)
        } else if i == 23 {
            Some(OptionId::UseIndexDefaultI64)
        } else if i == 24 {
            Some(OptionId::UseTfTvmdsoop)
        } else if i == 25 {
            Some(OptionId::UseByodtPosit)
        } else if i == 26 {
            Some(OptionId::UseBlas)
        } else if i == 27 {
            Some(OptionId::UseMkl)
        } else if i == 28 {
            Some(OptionId::UseMkldnn)
        } else if i == 29 {
            Some(OptionId::UseDnnlCodegen)
        } else if i == 30 {
            Some(OptionId::UseCudnn)
        } else if i == 31 {
            Some(OptionId::UseCublas)
        } else if i == 32 {
            Some(OptionId::UseThrust)
        } else if i == 33 {
            Some(OptionId::UseMiopen)
        } else if i == 34 {
            Some(OptionId::UseRocblas)
        } else if i == 35 {
            Some(OptionId::UseSort)
        } else if i == 36 {
            Some(OptionId::UseNnpack)
        } else if i == 37 {
            Some(OptionId::UseRandom)
        } else if i == 38 {
            Some(OptionId::UseMicroStandaloneRuntime)
        } else if i == 39 {
            Some(OptionId::UseCppRpc)
        } else if i == 40 {
            Some(OptionId::UseTflite)
        } else if i == 41 {
            Some(OptionId::UseTensorflowPath)
        } else if i == 42 {
            Some(OptionId::UseCoreml)
        } else if i == 43 {
            Some(OptionId::UseTargetOnnx)
        } else if i == 44 {
            Some(OptionId::UseArmComputeLib)
        } else if i == 45 {
            Some(OptionId::UseArmComputeLibGraphRuntime)
        } else if i == 46 {
            Some(OptionId::UseTensorrtCodegen)
        } else if i == 47 {
            Some(OptionId::UseTensorrtRuntime)
        } else if i == 48 {
            Some(OptionId::UseRustExt)
        } else if i == 49 {
            Some(OptionId::UseVitisAi)
        } else if i == 50 {
            Some(OptionId::BuildStaticRuntime)
        } else {
            None
        }
    }
}

/// Every option stands at its own place of the catalog.
pub proof fn option_stands_at_its_position(id: OptionId)
    ensures
        0 <= id.spec_position() < OPTION_COUNT,
        OptionId::spec_at(id.spec_position()) == id,
{
}

/// Every place of the catalog holds the option that names it as its place.
pub proof fn position_holds_its_option(i: int)
    requires
        0 <= i < OPTION_COUNT,
    ensures
        OptionId::spec_at(i).spec_position() == i,
{
}

/// The text of an option's value, if the option is set.
pub open spec fn projected<T: CMakeSettingValue>(value: Option<T>) -> Option<Seq<char>> {
    match value {
        Some(v) => Some(v.string_value()),
        None => None,
    }
}

fn project<T: CMakeSettingValue>(value: &Option<T>) -> (r: Option<String>)
    ensures
        text_of(r) == projected(*value),
{
    match value {
        Some(v) => Some(v.as_string_value()),
        None => None,
    }
}

/// The build options that the user has set. An option left at `None` is not
/// handed to CMake, which then goes by its own default.
#[derive(Debug, PartialEq, Eq)]
pub struct UserSettings {
    /// Build with CUDA support.
    pub use_cuda: Option<CMakeSetting>,
    /// Build with the OpenCL runtime.
    pub use_opencl: Option<CMakeSetting>,
    /// Build with the Vulkan runtime.
    pub use_vulkan: Option<CMakeSetting>,
    /// Build with the Metal runtime.
    pub use_metal: Option<CMakeSetting>,
    /// Build with ROCm support.
    pub use_rocm: Option<CMakeSetting>,
    /// The path to ROCm.
    pub rocm_path: Option<String>,
    /// Build with Hexagon device support in the runtime.
    pub use_hexagon_device: Option<bool>,
    /// The root of the Hexagon SDK.
    pub use_heaxgon_dsk: Option<String>,
    /// Enable the RPC server and client.
    pub use_rpc: Option<bool>,
    /// Build with threading support.
    pub use_threads: Option<bool>,
    /// Build with LLVM; the path is that of a specific `llvm-config`.
    pub use_llvm: Option<CMakeSetting>,
    /// Enable the stack VM in the runtime.
    pub use_stackvm_runtime: Option<bool>,
    /// Build with the graph runtime.
    pub use_graph_runtime: Option<bool>,
    /// Build the graph runtime in debug mode.
    pub use_graph_runtime_debug: Option<bool>,
    /// Use the OpenMP thread pool.
    pub use_openmp: Option<bool>,
    /// Build Relay in debug mode.
    pub use_relay_debug: Option<bool>,
    /// Build with RTTI.
    pub use_rtti: Option<bool>,
    /// Build with the multi-threaded MSVC runtime.
    pub use_mscv_mt: Option<bool>,
    /// Build with microTVM support.
    pub use_micro: Option<bool>,
    /// Install the compiler infrastructure.
    pub use_install_dev: Option<bool>,
    /// Compile with hidden visibility.
    pub hide_private_symbols: Option<bool>,
    /// Use the POD-compatible map.
    pub use_fallback_stl_map: Option<bool>,
    /// Build with Arm Ethos-N.
    pub use_ethosn: Option<bool>,
    /// Default the index datatype to 64-bit integers.
    pub use_index_default_i64: Option<bool>,
    /// Build with the TensorFlow TVMDSOOp.
    pub use_tf_tvmdsoop: Option<bool>,
    /// Build with the software-emulated posit datatype.
    pub use_byodt_posit: Option<bool>,
    /// The BLAS library to link.
    pub use_blas: Option<String>,
    /// Build with MKL; the path is its root.
    pub use_mkl: Option<CMakeSetting>,
    /// Build with MKL-DNN.
    pub use_mkldnn: Option<CMakeSetting>,
    /// Enable the DNNL code generator.
    pub use_dnnl_codegen: Option<bool>,
    /// Build with cuDNN.
    pub use_cudnn: Option<bool>,
    /// Build with cuBLAS.
    pub use_cublas: Option<bool>,
    /// Build with Thrust.
    pub use_thrust: Option<bool>,
    /// Build with MIOpen.
    pub use_miopen: Option<bool>,
    /// Build with rocBLAS.
    pub use_rocblas: Option<bool>,
    /// Build with sort support.
    pub use_sort: Option<bool>,
    /// Build with NNPACK support.
    pub use_nnpack: Option<bool>,
    /// Build with random support.
    pub use_random: Option<bool>,
    /// Build with the standalone microTVM runtime.
    pub use_micro_standalone_runtime: Option<bool>,
    /// Build the C++ RPC server.
    pub use_cpp_rpc: Option<bool>,
    /// Build with TFLite support.
    pub use_tflite: Option<bool>,
    /// The root of TensorFlow, for TFLite.
    pub use_tensorflow_path: Option<String>,
    /// Build with Core ML support.
    pub use_coreml: Option<bool>,
    /// Build with the ONNX code generator.
    pub use_target_onnx: Option<bool>,
    /// Build with the Arm Compute Library.
    pub use_arm_compute_lib: Option<bool>,
    /// Build with the Arm Compute Library graph runtime.
    pub use_arm_compute_lib_graph_runtime: Option<CMakeSetting>,
    /// Build with the TensorRT code generator.
    pub use_tensorrt_codegen: Option<bool>,
    /// Build with the TensorRT runtime.
    pub use_tensorrt_runtime: Option<CMakeSetting>,
    /// Build with the compiler extensions written in Rust.
    pub use_rust_ext: Option<String>,
    /// Build with the Vitis-AI code generator.
    pub use_vitis_ai: Option<bool>,
    /// Build the runtime as a static library.
    pub build_static_runtime: Option<bool>,
}

impl UserSettings {
    /// The text of the value of option `id`, if the option is set.
    pub open spec fn spec_value(&self, id: OptionId) -> Option<Seq<char>> {
        match id {
            OptionId::UseCuda => projected(self.use_cuda),
            OptionId::UseOpencl => projected(self.use_opencl),
            OptionId::UseVulkan => projected(self.use_vulkan),
            OptionId::UseMetal => projected(self.use_metal),
            OptionId::UseRocm => projected(self.use_rocm),
            OptionId::RocmPath => projected(self.rocm_path),
            OptionId::UseHexagonDevice => projected(self.use_hexagon_device),
            OptionId::UseHeaxgonDsk => projected(self.use_heaxgon_dsk),
            OptionId::UseRpc => projected(self.use_rpc),
            OptionId::UseThreads => projected(self.use_threads),
            OptionId::UseLlvm => projected(self.use_llvm),
            OptionId::UseStackvmRuntime => projected(self.use_stackvm_runtime),
            OptionId::UseGraphRuntime => projected(self.use_graph_runtime),
            OptionId::UseGraphRuntimeDebug => projected(self.use_graph_runtime_debug),
            OptionId::UseOpenmp => projected(self.use_openmp),
            OptionId::UseRelayDebug => projected(self.use_relay_debug),
            OptionId::UseRtti => projected(self.use_rtti),
            OptionId::UseMscvMt => projected(self.use_mscv_mt),
            OptionId::UseMicro => projected(self.use_micro),
            OptionId::UseInstallDev => projected(self.use_install_dev),
            OptionId::HidePrivateSymbols => projected(self.hide_private_symbols),
            OptionId::UseFallbackStlMap => projected(self.use_fallback_stl_map),
            OptionId::UseEthosn => projected(self.use_ethosn),
            OptionId::UseIndexDefaultI64 => projected(self.use_index_default_i64),
            OptionId::UseTfTvmdsoop => projected(self.use_tf_tvmdsoop),
            OptionId::UseByodtPosit => projected(self.use_byodt_posit),
            OptionId::UseBlas => projected(self.use_blas),
            OptionId::UseMkl => projected(self.use_mkl),
            OptionId::UseMkldnn => projected(self.use_mkldnn),
            OptionId::UseDnnlCodegen => projected(self.use_dnnl_codegen),
            OptionId::UseCudnn => projected(self.use_cudnn),
            OptionId::UseCublas => projected(self.use_cublas),
            OptionId::UseThrust => projected(self.use_thrust),
            OptionId::UseMiopen => projected(self.use_miopen),
            OptionId::UseRocblas => projected(self.use_rocblas),
            OptionId::UseSort => projected(self.use_sort),
            OptionId::UseNnpack => projected(self.use_nnpack),
            OptionId::UseRandom => projected(self.use_random),
            OptionId::UseMicroStandaloneRuntime => projected(self.use_micro_standalone_runtime),
            OptionId::UseCppRpc => projected(self.use_cpp_rpc),
            OptionId::UseTflite => projected(self.use_tflite),
            OptionId::UseTensorflowPath => projected(self.use_tensorflow_path),
            OptionId::UseCoreml => projected(self.use_coreml),
            OptionId::UseTargetOnnx => projected(self.use_target_onnx),
            OptionId::UseArmComputeLib => projected(self.use_arm_compute_lib),
            OptionId::UseArmComputeLibGraphRuntime => projected(self.use_arm_compute_lib_graph_runtime),
            OptionId::UseTensorrtCodegen => projected(self.use_tensorrt_codegen),
            OptionId::UseTensorrtRuntime => projected(self.use_tensorrt_runtime),
            OptionId::UseRustExt => projected(self.use_rust_ext),
            OptionId::UseVitisAi => projected(self.use_vitis_ai),
            OptionId::BuildStaticRuntime => projected(self.build_static_runtime),
        }
    }

    /// The text of the value of option `id`, if the option is set.
    pub fn value_of(&self, id: OptionId) -> (r: Option<String>)
        ensures
            text_of(r) == self.spec_value(id),
    {
        match id {
            OptionId::UseCuda => project(&self.use_cuda),
            OptionId::UseOpencl => project(&self.use_opencl),
            OptionId::UseVulkan => project(&self.use_vulkan),
            OptionId::UseMetal => project(&self.use_metal),
            OptionId::UseRocm => project(&self.use_rocm),
            OptionId::RocmPath => project(&self.rocm_path),
            OptionId::UseHexagonDevice => project(&self.use_hexagon_device),
            OptionId::UseHeaxgonDsk => project(&self.use_heaxgon_dsk),
            OptionId::UseRpc => project(&self.use_rpc),
            OptionId::UseThreads => project(&self.use_threads),
            OptionId::UseLlvm => project(&self.use_llvm),
            OptionId::UseStackvmRuntime => project(&self.use_stackvm_runtime),
            OptionId::UseGraphRuntime => project(&self.use_graph_runtime),
            OptionId::UseGraphRuntimeDebug => project(&self.use_graph_runtime_debug),
            OptionId::UseOpenmp => project(&self.use_openmp),
            OptionId::UseRelayDebug => project(&self.use_relay_debug),
            OptionId::UseRtti => project(&self.use_rtti),
            OptionId::UseMscvMt => project(&self.use_mscv_mt),
            OptionId::UseMicro => project(&self.use_micro),
            OptionId::UseInstallDev => project(&self.use_install_dev),
            OptionId::HidePrivateSymbols => project(&self.hide_private_symbols),
            OptionId::UseFallbackStlMap => project(&self.use_fallback_stl_map),
            OptionId::UseEthosn => project(&self.use_ethosn),
            OptionId::UseIndexDefaultI64 => project(&self.use_index_default_i64),
            OptionId::UseTfTvmdsoop => project(&self.use_tf_tvmdsoop),
            OptionId::UseByodtPosit => project(&self.use_byodt_posit),
            OptionId::UseBlas => project(&self.use_blas),
            OptionId::UseMkl => project(&self.use_mkl),
            OptionId::UseMkldnn => project(&self.use_mkldnn),
            OptionId::UseDnnlCodegen => project(&self.use_dnnl_codegen),
            OptionId::UseCudnn => project(&self.use_cudnn),
            OptionId::UseCublas => project(&self.use_cublas),
            OptionId::UseThrust => project(&self.use_thrust),
            OptionId::UseMiopen => project(&self.use_miopen),
            OptionId::UseRocblas => project(&self.use_rocblas),
            OptionId::UseSort => project(&self.use_sort),
            OptionId::UseNnpack => project(&self.use_nnpack),
            OptionId::UseRandom => project(&self.use_random),
            OptionId::UseMicroStandaloneRuntime => project(&self.use_micro_standalone_runtime),
            OptionId::UseCppRpc => project(&self.use_cpp_rpc),
            OptionId::UseTflite => project(&self.use_tflite),
            OptionId::UseTensorflowPath => project(&self.use_tensorflow_path),
            OptionId::UseCoreml => project(&self.use_coreml),
            OptionId::UseTargetOnnx => project(&self.use_target_onnx),
            OptionId::UseArmComputeLib => project(&self.use_arm_compute_lib),
            OptionId::UseArmComputeLibGraphRuntime => project(&self.use_arm_compute_lib_graph_runtime),
            OptionId::UseTensorrtCodegen => project(&self.use_tensorrt_codegen),
            OptionId::UseTensorrtRuntime => project(&self.use_tensorrt_runtime),
            OptionId::UseRustExt => project(&self.use_rust_ext),
            OptionId::UseVitisAi => project(&self.use_vitis_ai),
            OptionId::BuildStaticRuntime => project(&self.build_static_runtime),
        }
    }

    /// The definitions that the first `n` options of the catalog give: for each
    /// one that is set, in the catalog's order, its key and the text of its
    /// value.
    pub open spec fn defines_upto(&self, n: nat) -> Seq<(Seq<char>, Seq<char>)>
        decreases n,
    {
        if n == 0 {
            Seq::empty()
        } else {
            let id = OptionId::spec_at(n - 1);
            match self.spec_value(id) {
                Some(v) => self.defines_upto((n - 1) as nat).push((id.spec_key(), v)),
                None => self.defines_upto((n - 1) as nat),
            }
        }
    }

    /// The definitions that the settings give.
    pub open spec fn defines(&self) -> Seq<(Seq<char>, Seq<char>)> {
        self.defines_upto(OPTION_COUNT as nat)
    }
}

impl Default for UserSettings {
    /// No option is set.
    fn default() -> (r: UserSettings)
        ensures
            forall|id: OptionId| r.spec_value(id) is None,
            r.defines() == Seq::<(Seq<char>, Seq<char>)>::empty(),
    {
        let r = UserSettings {
            use_cuda: None,
            use_opencl: None,
            use_vulkan: None,
            use_metal: None,
            use_rocm: None,
            rocm_path: None,
            use_hexagon_device: None,
            use_heaxgon_dsk: None,
            use_rpc: None,
            use_threads: None,
            use_llvm: None,
            use_stackvm_runtime: None,
            use_graph_runtime: None,
            use_graph_runtime_debug: None,
            use_openmp: None,
            use_relay_debug: None,
            use_rtti: None,
            use_mscv_mt: None,
            use_micro: None,
            use_install_dev: None,
            hide_private_symbols: None,
            use_fallback_stl_map: None,
            use_ethosn: None,
            use_index_default_i64: None,
            use_tf_tvmdsoop: None,
            use_byodt_posit: None,
            use_blas: None,
            use_mkl: None,
            use_mkldnn: None,
            use_dnnl_codegen: None,
            use_cudnn: None,
            use_cublas: None,
            use_thrust: None,
            use_miopen: None,
            use_rocblas: None,
            use_sort: None,
            use_nnpack: None,
            use_random: None,
            use_micro_standalone_runtime: None,
            use_cpp_rpc: None,
            use_tflite: None,
            use_tensorflow_path: None,
            use_coreml: None,
            use_target_onnx: None,
            use_arm_compute_lib: None,
            use_arm_compute_lib_graph_runtime: None,
            use_tensorrt_codegen: None,
            use_tensorrt_runtime: None,
            use_rust_ext: None,
            use_vitis_ai: None,
            build_static_runtime: None,
        };
        proof {
            unset_gives_nothing(r, OPTION_COUNT as nat);
        }
        r
    }
}

/// Settings with none of the first `n` options set give no definition.
pub proof fn unset_gives_nothing(settings: UserSettings, n: nat)
    requires
        forall|i: int| 0 <= i < n ==> settings.spec_value(OptionId::spec_at(i)) is None,
    ensures
        settings.defines_upto(n) == Seq::<(Seq<char>, Seq<char>)>::empty(),
    decreases n,
{
    if n > 0 {
        unset_gives_nothing(settings, (n - 1) as nat);
    }
}

impl UserSettings {
    /// The options among the first `n` of the catalog that are set, in the
    /// catalog's order.
    pub open spec fn chosen_upto(&self, n: nat) -> Seq<OptionId>
        decreases n,
    {
        if n == 0 {
            Seq::empty()
        } else {
            let id = OptionId::spec_at(n - 1);
            if self.spec_value(id) is Some {
                self.chosen_upto((n - 1) as nat).push(id)
            } else {
                self.chosen_upto((n - 1) as nat)
            }
        }
    }

    /// The options that are set, in the catalog's order.
    pub open spec fn chosen(&self) -> Seq<OptionId> {
        self.chosen_upto(OPTION_COUNT as nat)
    }
}

/// The definitions depend on the values of the options alone: settings that
/// agree on every option give the same definitions in the same order.
pub proof fn defines_are_determined(a: UserSettings, b: UserSettings)
    requires
        forall|id: OptionId| a.spec_value(id) == b.spec_value(id),
    ensures
        a.defines() == b.defines(),
{
    defines_agree_upto(a, b, OPTION_COUNT as nat);
}

proof fn defines_agree_upto(a: UserSettings, b: UserSettings, n: nat)
    requires
        forall|id: OptionId| a.spec_value(id) == b.spec_value(id),
    ensures
        a.defines_upto(n) == b.defines_upto(n),
    decreases n,
{
    if n > 0 {
        defines_agree_upto(a, b, (n - 1) as nat);
    }
}

/// The definitions follow the catalog. There is one for each option that is
/// set and none for any other; each holds the key of its option and the text
/// of its value; and they stand in the order of the catalog.
pub proof fn defines_follow_catalog(settings: UserSettings)
    ensures
        settings.defines().len() == settings.chosen().len(),
        forall|k: int|
            0 <= k < settings.chosen().len() ==> {
                let id = #[trigger] settings.chosen()[k];
                &&& settings.spec_value(id) is Some
                &&& settings.defines()[k] == (id.spec_key(), settings.spec_value(id)->Some_0)
            },
        forall|j: int, k: int|
            0 <= j < k < settings.chosen().len() ==> (#[trigger] settings.chosen()[j]).spec_position()
                < (#[trigger] settings.chosen()[k]).spec_position(),
        forall|id: OptionId| #[trigger]
            settings.spec_value(id) is Some ==> settings.chosen().contains(id),
{
    defines_follow_catalog_upto(settings, OPTION_COUNT as nat);
    assert forall|id: OptionId| #[trigger] settings.spec_value(id) is Some implies settings.chosen().contains(
        id,
    ) by {
        option_stands_at_its_position(id);
    }
}

proof fn defines_follow_catalog_upto(settings: UserSettings, n: nat)
    requires
        n <= OPTION_COUNT,
    ensures
        settings.defines_upto(n).len() == settings.chosen_upto(n).len(),
        forall|k: int|
            0 <= k < settings.chosen_upto(n).len() ==> {
                let id = #[trigger] settings.chosen_upto(n)[k];
                &&& settings.spec_value(id) is Some
                &&& 0 <= id.spec_position() < n
                &&& settings.defines_upto(n)[k] == (id.spec_key(), settings.spec_value(id)->Some_0)
            },
        forall|j: int, k: int|
            0 <= j < k < settings.chosen_upto(n).len() ==> (#[trigger] settings.chosen_upto(
                n,
            )[j]).spec_position() < (#[trigger] settings.chosen_upto(n)[k]).spec_position(),
        forall|id: OptionId|
            id.spec_position() < n && #[trigger] settings.spec_value(id) is Some
                ==> settings.chosen_upto(n).contains(id),
    decreases n,
{
    if n > 0 {
        let m = (n - 1) as nat;
        defines_follow_catalog_upto(settings, m);
        let id = OptionId::spec_at(n - 1);
        position_holds_its_option(n - 1);
        let before = settings.chosen_upto(m);
        assert forall|other: OptionId|
            other.spec_position() < n && #[trigger] settings.spec_value(other) is Some implies settings.chosen_upto(
            n,
        ).contains(other) by {
            option_stands_at_its_position(other);
            if other.spec_position() < m {
                let k = choose|k: int| 0 <= k < before.len() && before[k] == other;
                assert(settings.chosen_upto(n)[k] == other);
            } else {
                assert(other == id);
                assert(settings.chosen_upto(n)[before.len() as int] == other);
            }
        }
    }
}

/// A switch is written as `ON` or as `OFF`.
pub proof fn switch_is_on_or_off(settings: UserSettings, id: OptionId)
    requires
        id.spec_kind() == OptionKind::Switch,
        settings.spec_value(id) is Some,
    ensures
        settings.spec_value(id)->Some_0 == "ON"@ || settings.spec_value(id)->Some_0 == "OFF"@,
{
}

} // verus!
