use tvm_build::settings::CMakeSettingValue;
use tvm_build::settings::OPTION_COUNT;
use tvm_build::BuildConfig;
use tvm_build::CMakeSetting;
use tvm_build::Error;
use tvm_build::OptionId;
use tvm_build::OptionKind;
use tvm_build::UserSettings;

fn pair(key: &str, value: &str) -> (String, String) {
    (key.to_string(), value.to_string())
}

fn config_with(settings: UserSettings) -> BuildConfig {
    let mut config = BuildConfig::default();
    config.settings = settings;
    config
}

#[test]
fn default_settings_give_no_definition() {
    let config = BuildConfig::default();
    assert_eq!(config.as_cmake_define_key_values(), Vec::<(String, String)>::new());
    assert_eq!(config.repository, None);
    assert_eq!(config.repository_path, None);
    assert_eq!(config.output_path, None);
    assert_eq!(config.branch, None);
    assert!(!config.verbose);
    assert!(!config.clean);
}

#[test]
fn default_settings_leave_every_option_unset() {
    let settings = UserSettings::default();
    for i in 0..OPTION_COUNT {
        let id = OptionId::at(i).unwrap();
        assert_eq!(settings.value_of(id), None);
    }
}

#[test]
fn switch_set_to_true_projects_to_on() {
    let mut settings = UserSettings::default();
    settings.use_rpc = Some(true);
    let config = config_with(settings);
    assert_eq!(config.as_cmake_define_key_values(), vec![pair("USE_RPC", "ON")]);
}

#[test]
fn switch_set_to_false_projects_to_off() {
    let mut settings = UserSettings::default();
    settings.use_rpc = Some(false);
    let config = config_with(settings);
    assert_eq!(config.as_cmake_define_key_values(), vec![pair("USE_RPC", "OFF")]);
}

#[test]
fn unset_switch_gives_no_entry() {
    let mut settings = UserSettings::default();
    settings.use_threads = Some(true);
    let config = config_with(settings);
    let defines = config.as_cmake_define_key_values();
    assert_eq!(defines.len(), 1);
    assert!(defines.iter().all(|(key, _)| key != "USE_RPC"));
}

#[test]
fn tri_state_path_projects_verbatim() {
    let mut settings = UserSettings::default();
    settings.use_llvm = Some(CMakeSetting::from_str("USE_LLVM", "path/to/x").unwrap());
    let config = config_with(settings);
    assert_eq!(config.as_cmake_define_key_values(), vec![pair("USE_LLVM", "path/to/x")]);
}

#[test]
fn tri_state_keywords_project_to_on_and_off() {
    let mut settings = UserSettings::default();
    settings.use_cuda = Some(CMakeSetting::On);
    settings.use_opencl = Some(CMakeSetting::Off);
    let config = config_with(settings);
    assert_eq!(
        config.as_cmake_define_key_values(),
        vec![pair("USE_CUDA", "ON"), pair("USE_OPENCL", "OFF")]
    );
}

#[test]
fn text_and_path_options_project_verbatim() {
    let mut settings = UserSettings::default();
    settings.use_blas = Some("openblas".to_string());
    settings.rocm_path = Some("/opt/rocm".to_string());
    settings.use_rust_ext = Some("STATIC".to_string());
    let config = config_with(settings);
    assert_eq!(
        config.as_cmake_define_key_values(),
        vec![
            pair("ROCM_PATH", "/opt/rocm"),
            pair("USE_BLAS", "openblas"),
            pair("USE_RUST_EXT", "STATIC"),
        ]
    );
}

#[test]
fn definitions_come_in_catalog_order() {
    let mut settings = UserSettings::default();
    settings.build_static_runtime = Some(true);
    settings.use_vitis_ai = Some(false);
    settings.use_tensorflow_path = Some("/tf".to_string());
    settings.use_llvm = Some(CMakeSetting::Path("/usr/bin/llvm-config".to_string()));
    settings.use_heaxgon_dsk = Some("/sdk".to_string());
    settings.use_cuda = Some(CMakeSetting::Off);
    let config = config_with(settings);
    assert_eq!(
        config.as_cmake_define_key_values(),
        vec![
            pair("USE_CUDA", "OFF"),
            pair("USE_HEAXGON_DSK", "/sdk"),
            pair("USE_LLVM", "/usr/bin/llvm-config"),
            pair("USE_TENSORFLOW_PATH", "/tf"),
            pair("USE_VITIS_AI", "OFF"),
            pair("BUILD_STATIC_RUNTIME", "ON"),
        ]
    );
}

#[test]
fn projection_is_the_same_on_every_call() {
    let mut settings = UserSettings::default();
    settings.use_mkl = Some(CMakeSetting::Path("/opt/mkl".to_string()));
    settings.use_sort = Some(true);
    let config = config_with(settings);
    let first = config.as_cmake_define_key_values();
    let second = config.as_cmake_define_key_values();
    assert_eq!(first, second);
    assert_eq!(first, vec![pair("USE_MKL", "/opt/mkl"), pair("USE_SORT", "ON")]);
}

#[test]
fn every_option_set_gives_one_definition_each() {
    let settings = UserSettings {
        use_cuda: Some(CMakeSetting::On),
        use_opencl: Some(CMakeSetting::On),
        use_vulkan: Some(CMakeSetting::On),
        use_metal: Some(CMakeSetting::On),
        use_rocm: Some(CMakeSetting::On),
        rocm_path: Some("p".to_string()),
        use_hexagon_device: Some(true),
        use_heaxgon_dsk: Some("p".to_string()),
        use_rpc: Some(true),
        use_threads: Some(true),
        use_llvm: Some(CMakeSetting::On),
        use_stackvm_runtime: Some(true),
        use_graph_runtime: Some(true),
        use_graph_runtime_debug: Some(true),
        use_openmp: Some(true),
        use_relay_debug: Some(true),
        use_rtti: Some(true),
        use_mscv_mt: Some(true),
        use_micro: Some(true),
        use_install_dev: Some(true),
        hide_private_symbols: Some(true),
        use_fallback_stl_map: Some(true),
        use_ethosn: Some(true),
        use_index_default_i64: Some(true),
        use_tf_tvmdsoop: Some(true),
        use_byodt_posit: Some(true),
        use_blas: Some("p".to_string()),
        use_mkl: Some(CMakeSetting::On),
        use_mkldnn: Some(CMakeSetting::On),
        use_dnnl_codegen: Some(true),
        use_cudnn: Some(true),
        use_cublas: Some(true),
        use_thrust: Some(true),
        use_miopen: Some(true),
        use_rocblas: Some(true),
        use_sort: Some(true),
        use_nnpack: Some(true),
        use_random: Some(true),
        use_micro_standalone_runtime: Some(true),
        use_cpp_rpc: Some(true),
        use_tflite: Some(true),
        use_tensorflow_path: Some("p".to_string()),
        use_coreml: Some(true),
        use_target_onnx: Some(true),
        use_arm_compute_lib: Some(true),
        use_arm_compute_lib_graph_runtime: Some(CMakeSetting::On),
        use_tensorrt_codegen: Some(true),
        use_tensorrt_runtime: Some(CMakeSetting::On),
        use_rust_ext: Some("p".to_string()),
        use_vitis_ai: Some(true),
        build_static_runtime: Some(true),
    };
    let config = config_with(settings);
    let defines = config.as_cmake_define_key_values();
    assert_eq!(defines.len(), OPTION_COUNT);
    for (i, (key, value)) in defines.iter().enumerate() {
        let id = OptionId::at(i).unwrap();
        assert_eq!(key, id.key());
        let expected = match id.kind() {
            OptionKind::Switch | OptionKind::TriState => "ON",
            OptionKind::Text | OptionKind::Path => "p",
        };
        assert_eq!(value, expected);
    }
}

#[test]
fn catalog_has_fifty_one_options() {
    assert_eq!(OPTION_COUNT, 51);
    assert_eq!(OptionId::at(0), Some(OptionId::UseCuda));
    assert_eq!(OptionId::at(5), Some(OptionId::RocmPath));
    assert_eq!(OptionId::at(50), Some(OptionId::BuildStaticRuntime));
    assert_eq!(OptionId::at(51), None);
    assert_eq!(OptionId::at(usize::MAX), None);
}

#[test]
fn position_and_place_agree() {
    for i in 0..OPTION_COUNT {
        let id = OptionId::at(i).unwrap();
        assert_eq!(id.position(), i);
    }
    assert_eq!(OptionId::UseLlvm.position(), 10);
}

#[test]
fn keys_are_the_cmake_names() {
    assert_eq!(OptionId::UseCuda.key(), "USE_CUDA");
    assert_eq!(OptionId::RocmPath.key(), "ROCM_PATH");
    assert_eq!(OptionId::HidePrivateSymbols.key(), "HIDE_PRIVATE_SYMBOLS");
    assert_eq!(OptionId::UseIndexDefaultI64.key(), "USE_INDEX_DEFAULT_I64");
    assert_eq!(
        OptionId::UseArmComputeLibGraphRuntime.key(),
        "USE_ARM_COMPUTE_LIB_GRAPH_RUNTIME"
    );
    assert_eq!(OptionId::BuildStaticRuntime.key(), "BUILD_STATIC_RUNTIME");
}

#[test]
fn keys_are_all_different() {
    for i in 0..OPTION_COUNT {
        for j in 0..i {
            assert_ne!(OptionId::at(i).unwrap().key(), OptionId::at(j).unwrap().key());
        }
    }
}

#[test]
fn kinds_are_those_of_the_catalog() {
    assert_eq!(OptionId::UseCuda.kind(), OptionKind::TriState);
    assert_eq!(OptionId::UseRpc.kind(), OptionKind::Switch);
    assert_eq!(OptionId::UseBlas.kind(), OptionKind::Text);
    assert_eq!(OptionId::UseTensorflowPath.kind(), OptionKind::Path);
    let mut counts = [0usize; 4];
    for i in 0..OPTION_COUNT {
        match OptionId::at(i).unwrap().kind() {
            OptionKind::Switch => counts[0] += 1,
            OptionKind::TriState => counts[1] += 1,
            OptionKind::Text => counts[2] += 1,
            OptionKind::Path => counts[3] += 1,
        }
    }
    assert_eq!(counts, [36, 10, 2, 3]);
}

#[test]
fn value_of_reads_the_option_asked_for() {
    let mut settings = UserSettings::default();
    settings.use_metal = Some(CMakeSetting::Path("/m".to_string()));
    settings.use_cudnn = Some(false);
    assert_eq!(settings.value_of(OptionId::UseMetal), Some("/m".to_string()));
    assert_eq!(settings.value_of(OptionId::UseCudnn), Some("OFF".to_string()));
    assert_eq!(settings.value_of(OptionId::UseCublas), None);
}

#[test]
fn tri_state_reads_keywords_in_any_case() {
    assert_eq!(CMakeSetting::from_str("USE_CUDA", "on"), Ok(CMakeSetting::On));
    assert_eq!(CMakeSetting::from_str("USE_CUDA", "ON"), Ok(CMakeSetting::On));
    assert_eq!(CMakeSetting::from_str("USE_CUDA", "oN"), Ok(CMakeSetting::On));
    assert_eq!(CMakeSetting::from_str("USE_CUDA", "off"), Ok(CMakeSetting::Off));
    assert_eq!(CMakeSetting::from_str("USE_CUDA", "OFF"), Ok(CMakeSetting::Off));
    assert_eq!(CMakeSetting::from_str("USE_CUDA", "Off"), Ok(CMakeSetting::Off));
}

#[test]
fn tri_state_reads_anything_else_as_a_path() {
    assert_eq!(
        CMakeSetting::from_str("USE_CUDA", "path/to/x"),
        Ok(CMakeSetting::Path("path/to/x".to_string()))
    );
    assert_eq!(
        CMakeSetting::from_str("USE_CUDA", "onn"),
        Ok(CMakeSetting::Path("onn".to_string()))
    );
    assert_eq!(
        CMakeSetting::from_str("USE_CUDA", "of"),
        Ok(CMakeSetting::Path("of".to_string()))
    );
    assert_eq!(
        CMakeSetting::from_str("USE_CUDA", "ÖN"),
        Ok(CMakeSetting::Path("ÖN".to_string()))
    );
    assert_eq!(
        CMakeSetting::from_str("USE_CUDA", "/usr/local/cuda"),
        Ok(CMakeSetting::Path("/usr/local/cuda".to_string()))
    );
}

#[test]
fn tri_state_refuses_the_empty_value() {
    let refused = CMakeSetting::from_str("USE_LLVM", "");
    assert_eq!(
        refused,
        Err(Error::InvalidOptionValue {
            key: "USE_LLVM".to_string(),
            given: "".to_string(),
            expected: "on, off, or a filesystem path".to_string(),
        })
    );
    assert_eq!(
        refused.unwrap_err().message(),
        "invalid value `` for USE_LLVM: expected on, off, or a filesystem path"
    );
}

#[test]
fn values_are_written_as_cmake_reads_them() {
    assert_eq!(true.as_string_value(), "ON");
    assert_eq!(false.as_string_value(), "OFF");
    assert_eq!("some text".to_string().as_string_value(), "some text");
    assert_eq!(CMakeSetting::On.as_string_value(), "ON");
    assert_eq!(CMakeSetting::Off.as_string_value(), "OFF");
    assert_eq!(CMakeSetting::Path("a/b".to_string()).as_string_value(), "a/b");
}

#[test]
fn setting_key_value_pairs_key_and_text() {
    assert_eq!(BuildConfig::setting_key_value("USE_RPC", &true), pair("USE_RPC", "ON"));
    assert_eq!(
        BuildConfig::setting_key_value("USE_MKL", &CMakeSetting::Path("/mkl".to_string())),
        pair("USE_MKL", "/mkl")
    );
}

#[test]
fn tri_state_keywords_are_those_that_lowercase_to_on_and_off() {
    let spellings = [
        "on", "On", "oN", "ON", "off", "Off", "oFf", "ofF", "OFf", "OfF", "oFF", "OFF", "0n",
        "no", "o", "onn", "of", "offf", " on", "on ", "0ff", "yes", "true", "oǹ",
    ];
    for given in spellings {
        let lower = given.to_ascii_lowercase();
        let expected = if lower == "on" {
            CMakeSetting::On
        } else if lower == "off" {
            CMakeSetting::Off
        } else {
            CMakeSetting::Path(given.to_string())
        };
        assert_eq!(CMakeSetting::from_str("USE_VULKAN", given), Ok(expected));
    }
}
