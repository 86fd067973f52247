use batch_spirv_builder::target::{
    batch_target, target_env, target_triple, CompileTarget, ExecutionEnv,
};

#[test]
fn batch_target_is_spirv_1_3_for_vulkan() {
    let t = batch_target();
    assert_eq!(t.spirv_major, 1);
    assert_eq!(t.spirv_minor, 3);
    assert_eq!(t.env, ExecutionEnv::Vulkan);
}

#[test]
fn batch_target_env_is_vulkan_1_1() {
    assert_eq!(target_env(batch_target()), Some("vulkan1.1".to_string()));
}

#[test]
fn batch_target_triple_has_toolchain_prefix() {
    assert_eq!(target_triple(batch_target()), Some("spirv-unknown-vulkan1.1".to_string()));
}

#[test]
fn universal_targets_name_the_spirv_version() {
    let t = CompileTarget { spirv_major: 1, spirv_minor: 5, env: ExecutionEnv::Universal };
    assert_eq!(target_env(t), Some("spv1.5".to_string()));
    assert_eq!(target_triple(t), Some("spirv-unknown-spv1.5".to_string()));
    let t0 = CompileTarget { spirv_major: 1, spirv_minor: 0, env: ExecutionEnv::Universal };
    assert_eq!(target_triple(t0), Some("spirv-unknown-spv1.0".to_string()));
}

#[test]
fn vulkan_versions_follow_their_spirv_version() {
    let v = |minor: u8| CompileTarget { spirv_major: 1, spirv_minor: minor, env: ExecutionEnv::Vulkan };
    assert_eq!(target_env(v(0)), Some("vulkan1.0".to_string()));
    assert_eq!(target_env(v(4)), Some("vulkan1.1spv1.4".to_string()));
    assert_eq!(target_env(v(5)), Some("vulkan1.2".to_string()));
    assert_eq!(target_triple(v(6)), Some("spirv-unknown-vulkan1.3".to_string()));
}

#[test]
fn unsupported_targets_have_no_triple() {
    let vulkan_1_2 = CompileTarget { spirv_major: 1, spirv_minor: 2, env: ExecutionEnv::Vulkan };
    assert_eq!(target_env(vulkan_1_2), None);
    assert_eq!(target_triple(vulkan_1_2), None);
    let spirv_2 = CompileTarget { spirv_major: 2, spirv_minor: 0, env: ExecutionEnv::Universal };
    assert_eq!(target_triple(spirv_2), None);
    let spv_1_7 = CompileTarget { spirv_major: 1, spirv_minor: 7, env: ExecutionEnv::Universal };
    assert_eq!(target_triple(spv_1_7), None);
}
